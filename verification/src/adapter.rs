//! The debug adapter: how a debug session is started.
use vstd::prelude::*;

use crate::config::{XMakeDebugConfig, XMakeDebugConfigView};
use crate::debugger::{
    find_gdb_dap, find_lldb_dap, search_request, search_step, Debugger, DebuggerSearch, Located,
    LocatedView, SearchView,
};
use crate::env_map::EnvMap;
use crate::host::{Reply, ReplyView, Request, RequestView};
use crate::json::{json_content, json_member_text, member_text, JsonView};
use crate::text::{result_view, same_text};

verus! {

/// Whether a session starts a process or joins one.
#[derive(Clone, Copy, Debug, PartialEq, Eq, Structural)]
pub enum StartDebuggingRequestArgumentsRequest {
    Launch,
    Attach,
}

impl DeepView for StartDebuggingRequestArgumentsRequest {
    type V = StartDebuggingRequestArgumentsRequest;

    open spec fn deep_view(&self) -> StartDebuggingRequestArgumentsRequest {
        *self
    }
}

/// A TCP connection to a debug adapter.
#[derive(Clone, Copy, Debug, PartialEq, Eq, Structural)]
pub struct TcpArguments {
    pub port: u16,
    pub host: u32,
    pub timeout: Option<u64>,
}

/// What a debug adapter is asked first.
#[derive(Debug, PartialEq, Eq)]
pub struct StartDebuggingRequestArguments {
    /// The configuration, as JSON.
    pub configuration: String,
    pub request: StartDebuggingRequestArgumentsRequest,
}

/// How to run a debug adapter, and what to ask it first.
#[derive(Debug)]
pub struct DebugAdapterBinary {
    pub command: Option<String>,
    pub arguments: Vec<String>,
    pub envs: EnvMap,
    pub cwd: Option<String>,
    pub connection: Option<TcpArguments>,
    pub request_args: StartDebuggingRequestArguments,
}

#[verifier::ext_equal]
pub struct StartDebuggingRequestArgumentsView {
    pub configuration: Seq<char>,
    pub request: StartDebuggingRequestArgumentsRequest,
}

#[verifier::ext_equal]
pub struct DebugAdapterBinaryView {
    pub command: Option<Seq<char>>,
    pub arguments: Seq<Seq<char>>,
    pub envs: Map<Seq<char>, Seq<char>>,
    pub cwd: Option<Seq<char>>,
    pub connection: Option<TcpArguments>,
    pub request_args: StartDebuggingRequestArgumentsView,
}

impl DeepView for StartDebuggingRequestArguments {
    type V = StartDebuggingRequestArgumentsView;

    open spec fn deep_view(&self) -> StartDebuggingRequestArgumentsView {
        StartDebuggingRequestArgumentsView {
            configuration: self.configuration@,
            request: self.request,
        }
    }
}

impl DeepView for DebugAdapterBinary {
    type V = DebugAdapterBinaryView;

    open spec fn deep_view(&self) -> DebugAdapterBinaryView {
        DebugAdapterBinaryView {
            command: self.command.deep_view(),
            arguments: self.arguments.deep_view(),
            envs: self.envs.deep_view(),
            cwd: self.cwd.deep_view(),
            connection: self.connection,
            request_args: self.request_args.deep_view(),
        }
    }
}

/// The kind of request with a name.
pub open spec fn named_request(name: Seq<char>) -> Result<
    StartDebuggingRequestArgumentsRequest,
    Seq<char>,
> {
    if name == "launch"@ {
        Ok(StartDebuggingRequestArgumentsRequest::Launch)
    } else if name == "attach"@ {
        Ok(StartDebuggingRequestArgumentsRequest::Attach)
    } else {
        Err("Invalid request type: "@ + name)
    }
}

/// The kind of request with a name.
pub fn request_named(name: &str) -> (result: Result<StartDebuggingRequestArgumentsRequest, String>)
    ensures
        result_view(result) == named_request(name@),
{
    if same_text(name, "launch") {
        Ok(StartDebuggingRequestArgumentsRequest::Launch)
    } else if same_text(name, "attach") {
        Ok(StartDebuggingRequestArgumentsRequest::Attach)
    } else {
        Err("Invalid request type: ".to_string().concat(name))
    }
}

/// The kind of request that a configuration asks for. One without a text under `request`
/// launches.
pub open spec fn requested(config: JsonView) -> Result<
    StartDebuggingRequestArgumentsRequest,
    Seq<char>,
> {
    match json_member_text(config, "request"@) {
        Some(name) => named_request(name),
        None => Ok(StartDebuggingRequestArgumentsRequest::Launch),
    }
}

/// The kind of request that a configuration asks for.
pub fn dap_request_kind(config: &serde_json::Value) -> (result: Result<
    StartDebuggingRequestArgumentsRequest,
    String,
>)
    ensures
        result_view(result) == requested(json_content(*config)),
{
    match member_text(config, "request") {
        Some(name) => request_named(name.as_str()),
        None => Ok(StartDebuggingRequestArgumentsRequest::Launch),
    }
}

/// The debugger that a configuration asks for; LLDB if it does not say.
pub open spec fn chosen_debugger(name: Option<Seq<char>>) -> Result<Debugger, Seq<char>> {
    match name {
        None => Ok(Debugger::Lldb),
        Some(name) => if name == "lldb-dap"@ {
            Ok(Debugger::Lldb)
        } else if name == "gdb-dap"@ {
            Ok(Debugger::Gdb)
        } else {
            Err("Unsupported debugger: "@ + name)
        },
    }
}

/// What a session is asked for with: the text of its configuration, and the adapter that the
/// user wants to run, if any.
#[derive(Debug, PartialEq, Eq)]
pub struct Session {
    pub configuration: String,
    pub adapter_path: Option<String>,
}

#[verifier::ext_equal]
pub struct SessionView {
    pub configuration: Seq<char>,
    pub adapter_path: Option<Seq<char>>,
}

impl DeepView for Session {
    type V = SessionView;

    open spec fn deep_view(&self) -> SessionView {
        SessionView {
            configuration: self.configuration@,
            adapter_path: self.adapter_path.deep_view(),
        }
    }
}

/// A step towards the adapter of a session.
#[derive(Debug)]
pub enum AdapterStep {
    /// Has the configuration decoded.
    Decode(Session),
    /// Searches for the debugger that the configuration asks for.
    Search(Session, XMakeDebugConfig, DebuggerSearch),
    /// Asks for the root of the worktree, which is the directory of an adapter that has none.
    AskRoot(DebugAdapterBinary),
    /// The adapter, or why there is none.
    Finished(Result<DebugAdapterBinary, String>),
}

#[verifier::ext_equal]
pub enum AdapterView {
    Decode(SessionView),
    Search(SessionView, XMakeDebugConfigView, SearchView),
    AskRoot(DebugAdapterBinaryView),
    Finished(Result<DebugAdapterBinaryView, Seq<char>>),
}

impl DeepView for AdapterStep {
    type V = AdapterView;

    open spec fn deep_view(&self) -> AdapterView {
        match self {
            AdapterStep::Decode(session) => AdapterView::Decode(session.deep_view()),
            AdapterStep::Search(session, config, search) => AdapterView::Search(
                session.deep_view(),
                config.deep_view(),
                search.deep_view(),
            ),
            AdapterStep::AskRoot(binary) => AdapterView::AskRoot(binary.deep_view()),
            AdapterStep::Finished(result) => AdapterView::Finished(result_view(*result)),
        }
    }
}

/// The first step: other adapters than `xmake` are refused.
pub open spec fn adapter_start(adapter_name: Seq<char>, session: SessionView) -> AdapterView {
    if adapter_name == "xmake"@ {
        AdapterView::Decode(session)
    } else {
        AdapterView::Finished(Err("This adapter does not support: "@ + adapter_name))
    }
}

/// The command that runs the adapter: the one that the user wants, without arguments, or else the
/// debugger that was found.
pub open spec fn adapter_command(session: SessionView, located: LocatedView) -> LocatedView {
    match session.adapter_path {
        Some(path) => LocatedView { path, args: seq![] },
        None => located,
    }
}

/// The adapter of a session.
pub open spec fn adapter_binary(
    session: SessionView,
    config: XMakeDebugConfigView,
    located: LocatedView,
    request: StartDebuggingRequestArgumentsRequest,
) -> DebugAdapterBinaryView {
    DebugAdapterBinaryView {
        command: Some(adapter_command(session, located).path),
        arguments: adapter_command(session, located).args,
        envs: config.env,
        cwd: config.cwd,
        connection: None,
        request_args: StartDebuggingRequestArgumentsView {
            configuration: session.configuration,
            request,
        },
    }
}

/// The adapter in the root of the worktree.
pub open spec fn in_root(binary: DebugAdapterBinaryView, root: Seq<char>) -> DebugAdapterBinaryView {
    DebugAdapterBinaryView { cwd: Some(root), ..binary }
}

/// The step once the search is over. The debugger is missed before the request is looked at.
pub open spec fn search_finished(
    session: SessionView,
    config: XMakeDebugConfigView,
    result: Result<LocatedView, Seq<char>>,
) -> AdapterView {
    match result {
        Err(message) => AdapterView::Finished(Err(message)),
        Ok(located) => match named_request(config.request) {
            Err(message) => AdapterView::Finished(Err(message)),
            Ok(request) => {
                let binary = adapter_binary(session, config, located, request);
                match config.cwd {
                    Some(_) => AdapterView::Finished(Ok(binary)),
                    None => AdapterView::AskRoot(binary),
                }
            },
        },
    }
}

/// What a step asks; nothing once there is an adapter or an error.
pub open spec fn adapter_request(step: AdapterView) -> Option<RequestView> {
    match step {
        AdapterView::Decode(session) => Some(RequestView::DecodeConfig(session.configuration)),
        AdapterView::Search(_, _, search) => search_request(search),
        AdapterView::AskRoot(_) => Some(RequestView::RootPath),
        AdapterView::Finished(_) => None,
    }
}

/// The step after a reply. A reply to some other request changes nothing.
pub open spec fn adapter_step(step: AdapterView, reply: ReplyView) -> AdapterView {
    match (step, reply) {
        (AdapterView::Decode(session), ReplyView::Decoded(result)) => match result {
            Err(reason) => AdapterView::Finished(
                Err("Failed to parse debug config: "@ + reason),
            ),
            Ok(config) => match chosen_debugger(config.debugger) {
                Err(message) => AdapterView::Finished(Err(message)),
                Ok(debugger) => AdapterView::Search(
                    session,
                    config,
                    SearchView::Platform(debugger),
                ),
            },
        },
        (AdapterView::Search(session, config, search), _) => match search_step(search, reply) {
            SearchView::Finished(result) => search_finished(session, config, result),
            next => AdapterView::Search(session, config, next),
        },
        (AdapterView::AskRoot(binary), ReplyView::Root(root)) => AdapterView::Finished(
            Ok(in_root(binary, root)),
        ),
        _ => step,
    }
}

/// The first step towards the adapter of a session. Other adapters than `xmake` are refused.
pub fn get_dap_binary(
    adapter_name: String,
    configuration: String,
    user_provided_debug_adapter_path: Option<String>,
) -> (step: AdapterStep)
    ensures
        step.deep_view() == adapter_start(
            adapter_name@,
            (SessionView {
                configuration: configuration@,
                adapter_path: user_provided_debug_adapter_path.deep_view(),
            }),
        ),
{
    if same_text(adapter_name.as_str(), "xmake") {
        AdapterStep::Decode(
            Session { configuration, adapter_path: user_provided_debug_adapter_path },
        )
    } else {
        AdapterStep::Finished(
            Err("This adapter does not support: ".to_string().concat(adapter_name.as_str())),
        )
    }
}

/// The search for the debugger that a configuration asks for.
fn begin_search(name: &Option<String>) -> (result: Result<DebuggerSearch, String>)
    ensures
        match result {
            Ok(search) => chosen_debugger(name.deep_view()) matches Ok(debugger)
                && search.deep_view() == SearchView::Platform(debugger),
            Err(message) => chosen_debugger(name.deep_view()) == Err::<Debugger, Seq<char>>(
                message@,
            ),
        },
{
    match name {
        None => Ok(find_lldb_dap()),
        Some(name) => if same_text(name.as_str(), "lldb-dap") {
            Ok(find_lldb_dap())
        } else if same_text(name.as_str(), "gdb-dap") {
            Ok(find_gdb_dap())
        } else {
            Err("Unsupported debugger: ".to_string().concat(name.as_str()))
        },
    }
}

/// The step once the search is over.
fn finish_search(
    session: Session,
    config: XMakeDebugConfig,
    result: Result<Located, String>,
) -> (step: AdapterStep)
    ensures
        step.deep_view() == search_finished(
            session.deep_view(),
            config.deep_view(),
            result_view(result),
        ),
{
    let located = match result {
        Ok(located) => located,
        Err(message) => {
            return AdapterStep::Finished(Err(message));
        },
    };
    let request = match request_named(config.request.as_str()) {
        Ok(request) => request,
        Err(message) => {
            return AdapterStep::Finished(Err(message));
        },
    };
    let (command, arguments) = match session.adapter_path {
        Some(path) => {
            let arguments: Vec<String> = vec![];
            assert(arguments.deep_view() =~= seq![]);
            (path, arguments)
        },
        None => (located.path, located.args),
    };
    let has_directory = config.cwd.is_some();
    let binary = DebugAdapterBinary {
        command: Some(command),
        arguments,
        envs: config.env,
        cwd: config.cwd,
        connection: None,
        request_args: StartDebuggingRequestArguments {
            configuration: session.configuration,
            request,
        },
    };
    if has_directory {
        AdapterStep::Finished(Ok(binary))
    } else {
        AdapterStep::AskRoot(binary)
    }
}

impl AdapterStep {
    /// What this step asks; nothing once there is an adapter or an error.
    pub fn request(&self) -> (request: Option<Request>)
        ensures
            request.deep_view() == adapter_request(self.deep_view()),
    {
        match self {
            AdapterStep::Decode(session) => Some(
                Request::DecodeConfig(session.configuration.clone()),
            ),
            AdapterStep::Search(_, _, search) => search.request(),
            AdapterStep::AskRoot(_) => Some(Request::RootPath),
            AdapterStep::Finished(_) => None,
        }
    }

    /// The step after a reply. A reply to some other request changes nothing.
    pub fn advance(self, reply: Reply) -> (next: AdapterStep)
        ensures
            next.deep_view() == adapter_step(self.deep_view(), reply.deep_view()),
    {
        match (self, reply) {
            (AdapterStep::Decode(session), Reply::Decoded(result)) => match result {
                Err(reason) => AdapterStep::Finished(
                    Err("Failed to parse debug config: ".to_string().concat(reason.as_str())),
                ),
                Ok(config) => match begin_search(&config.debugger) {
                    Err(message) => AdapterStep::Finished(Err(message)),
                    Ok(search) => AdapterStep::Search(session, config, search),
                },
            },
            (AdapterStep::Search(session, config, search), reply) => match search.advance(reply) {
                DebuggerSearch::Finished(result) => finish_search(session, config, result),
                next => AdapterStep::Search(session, config, next),
            },
            (AdapterStep::AskRoot(binary), Reply::Root(root)) => {
                let mut binary = binary;
                binary.cwd = Some(root);
                AdapterStep::Finished(Ok(binary))
            },
            (step, _) => step,
        }
    }
}

} // verus!
