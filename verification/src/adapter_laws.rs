//! What the steps towards a debug adapter come to.
use vstd::prelude::*;

use crate::adapter::{
    adapter_binary, adapter_request, adapter_start, adapter_step, chosen_debugger, in_root,
    named_request, requested, AdapterView, DebugAdapterBinaryView, SessionView,
    StartDebuggingRequestArgumentsRequest,
};
use crate::config::{default_config, XMakeDebugConfigView};
use crate::debugger::{search_request, search_step, Debugger, LocatedView, SearchView};
use crate::host::{fits, ReplyView};
use crate::json::{json_member_text, json_of_text, JsonView};
use crate::search_laws::{search_finds_the_first_hit, search_outcome, search_run};
use crate::world::{after, answer, World};

verus! {

/// The step after at most `count` more answers.
pub open spec fn adapter_run(step: AdapterView, world: World, count: nat) -> AdapterView
    decreases count,
{
    match adapter_request(step) {
        Some(request) => if count == 0 {
            step
        } else {
            adapter_run(
                adapter_step(step, answer(world, request)),
                after(world, request),
                (count - 1) as nat,
            )
        },
        None => step,
    }
}

/// The adapter for a decoded configuration and a debugger, or why there is none. An adapter without
/// a directory runs in the root of the worktree.
pub open spec fn started(
    session: SessionView,
    config: XMakeDebugConfigView,
    located: Result<LocatedView, Seq<char>>,
    root: Seq<char>,
) -> Result<DebugAdapterBinaryView, Seq<char>> {
    match located {
        Err(message) => Err(message),
        Ok(located) => match named_request(config.request) {
            Err(message) => Err(message),
            Ok(request) => {
                let binary = adapter_binary(session, config, located, request);
                match config.cwd {
                    Some(_) => Ok(binary),
                    None => Ok(in_root(binary, root)),
                }
            },
        },
    }
}

/// What a session comes to: its adapter, or the first of these that is wrong: the adapter's name,
/// the text of the configuration, the name of the debugger, the debugger, the request.
pub open spec fn adapter_outcome(
    adapter_name: Seq<char>,
    session: SessionView,
    world: World,
) -> Result<DebugAdapterBinaryView, Seq<char>> {
    if adapter_name != "xmake"@ {
        Err("This adapter does not support: "@ + adapter_name)
    } else {
        match (world.decode)(session.configuration) {
            Err(reason) => Err("Failed to parse debug config: "@ + reason),
            Ok(config) => match chosen_debugger(config.debugger) {
                Err(message) => Err(message),
                Ok(debugger) => started(
                    session,
                    config,
                    search_outcome(debugger, world),
                    world.root,
                ),
            },
        }
    }
}

/// The steps end, after at most nine answers, with what `adapter_outcome` says.
pub proof fn adapter_is_found(
    adapter_name: Seq<char>,
    session: SessionView,
    world: World,
    count: nat,
)
    requires
        count >= 9,
    ensures
        adapter_run(adapter_start(adapter_name, session), world, count) == AdapterView::Finished(
            adapter_outcome(adapter_name, session, world),
        ),
{
    reveal_with_fuel(adapter_run, 2);
    if adapter_name == "xmake"@ {
        if let Ok(config) = (world.decode)(session.configuration) {
            if let Ok(debugger) = chosen_debugger(config.debugger) {
                search_finds_the_first_hit(debugger, world, (count - 2) as nat);
                lemma_search(
                    session,
                    config,
                    SearchView::Platform(debugger),
                    world,
                    (count - 2) as nat,
                    search_outcome(debugger, world),
                );
            }
        }
    }
}

proof fn lemma_search(
    session: SessionView,
    config: XMakeDebugConfigView,
    search: SearchView,
    world: World,
    count: nat,
    result: Result<LocatedView, Seq<char>>,
)
    requires
        !(search is Finished),
        search_run(search, world, count) == SearchView::Finished(result),
    ensures
        adapter_run(AdapterView::Search(session, config, search), world, count + 1)
            == AdapterView::Finished(started(session, config, result, world.root)),
    decreases count,
{
    reveal_with_fuel(adapter_run, 3);
    let request = search_request(search)->0;
    let next = search_step(search, answer(world, request));
    assert(after(world, request) == world);
    assert(count > 0);
    match next {
        SearchView::Finished(found) => {
            assert(search_run(next, world, (count - 1) as nat) == next);
        },
        _ => {
            lemma_search(session, config, next, world, (count - 1) as nat, result);
        },
    }
}

/// Another adapter than `xmake` is refused before anything is asked.
pub proof fn other_adapters_are_refused(adapter_name: Seq<char>, session: SessionView)
    requires
        adapter_name != "xmake"@,
    ensures
        adapter_start(adapter_name, session) == AdapterView::Finished(
            Err("This adapter does not support: "@ + adapter_name),
        ),
        adapter_request(adapter_start(adapter_name, session)) is None,
{
}

/// The adapter that the user wants is run without arguments, wherever the debugger was found; the
/// rest of the session is the same.
pub proof fn wanted_adapter_is_run(
    session: SessionView,
    config: XMakeDebugConfigView,
    located: LocatedView,
    root: Seq<char>,
    path: Seq<char>,
)
    ensures
        ({
            let wanted = SessionView { adapter_path: Some(path), ..session };
            let found = SessionView { adapter_path: None, ..session };
            match (
                started(wanted, config, Ok(located), root),
                started(found, config, Ok(located), root),
            ) {
                (Ok(binary), Ok(other)) => binary == (DebugAdapterBinaryView {
                    command: Some(path),
                    arguments: seq![],
                    ..other
                }) && other.command == Some(located.path) && other.arguments == located.args,
                (Err(message), Err(other)) => message == other,
                _ => false,
            }
        }),
{
}

/// An adapter always has a directory: that of its configuration, or else the root of the worktree.
pub proof fn adapter_has_a_directory(
    session: SessionView,
    config: XMakeDebugConfigView,
    located: Result<LocatedView, Seq<char>>,
    root: Seq<char>,
)
    ensures
        started(session, config, located, root) matches Ok(binary) ==> binary.cwd == Some(
            match config.cwd {
                Some(cwd) => cwd,
                None => root,
            },
        ),
{
}

/// A configuration that does not name a debugger is treated like one that names `lldb-dap`.
pub proof fn lldb_is_the_default(config: XMakeDebugConfigView)
    requires
        config.debugger is None,
    ensures
        chosen_debugger(config.debugger) == chosen_debugger(Some("lldb-dap"@)),
{
}

/// Whether a configuration has the request that a JSON value names, or that of the default where
/// the value names none.
pub open spec fn has_request_of(config: XMakeDebugConfigView, value: JsonView) -> bool {
    config.request == match json_member_text(value, "request"@) {
        Some(name) => name,
        None => default_config().request,
    }
}

/// The kind of request that is read from the JSON value of a configuration is the one that its
/// adapter has, where the text decodes to a configuration with the request of that value.
pub proof fn request_kinds_agree(
    adapter_name: Seq<char>,
    session: SessionView,
    value: JsonView,
    world: World,
)
    requires
        json_of_text(session.configuration) == Some(value),
        (world.decode)(session.configuration) matches Ok(config) ==> has_request_of(config, value),
    ensures
        adapter_outcome(adapter_name, session, world) matches Ok(binary) ==> requested(value)
            == Ok::<StartDebuggingRequestArgumentsRequest, Seq<char>>(binary.request_args.request),
{
}

/// A kind that is refused when it is read from the JSON value is refused with the same message for
/// the adapter, once the debugger is found.
pub proof fn refused_kinds_agree(
    session: SessionView,
    value: JsonView,
    config: XMakeDebugConfigView,
    debugger: Debugger,
    message: Seq<char>,
    world: World,
)
    requires
        json_of_text(session.configuration) == Some(value),
        (world.decode)(session.configuration) == Ok::<XMakeDebugConfigView, Seq<char>>(config),
        has_request_of(config, value),
        chosen_debugger(config.debugger) == Ok::<Debugger, Seq<char>>(debugger),
        search_outcome(debugger, world) is Ok,
        requested(value) == Err::<StartDebuggingRequestArgumentsRequest, Seq<char>>(message),
    ensures
        adapter_outcome("xmake"@, session, world) == Err::<DebugAdapterBinaryView, Seq<char>>(
            message,
        ),
{
}

/// Where there is an adapter, it is one of `xmake`, and follows the configuration that the text of
/// the session decodes to, whichever debugger and request that names: it has the variables of the
/// configuration, its directory or else the root of the worktree, its kind of request, and the text
/// of the session. It is not reached over a connection.
pub proof fn adapter_follows_the_configuration(
    adapter_name: Seq<char>,
    session: SessionView,
    binary: DebugAdapterBinaryView,
    world: World,
)
    requires
        adapter_outcome(adapter_name, session, world) == Ok::<DebugAdapterBinaryView, Seq<char>>(
            binary,
        ),
    ensures
        adapter_name == "xmake"@,
        (world.decode)(session.configuration) matches Ok(config) && {
            &&& binary.envs == config.env
            &&& binary.cwd == Some(
                match config.cwd {
                    Some(cwd) => cwd,
                    None => world.root,
                },
            )
            &&& match binary.request_args.request {
                StartDebuggingRequestArgumentsRequest::Launch => config.request == "launch"@,
                StartDebuggingRequestArgumentsRequest::Attach => config.request == "attach"@,
            }
        },
        binary.request_args.configuration == session.configuration,
        binary.connection is None,
{
}

/// Where there is an adapter, it runs what the user wants to run, without arguments, or else the
/// debugger that the configuration names, with the arguments that it was found with: GDB for
/// `gdb-dap`, and LLDB for `lldb-dap` and where none is named. Even where the user wants to run
/// something else that debugger has been found.
pub proof fn adapter_runs_the_named_debugger(
    adapter_name: Seq<char>,
    session: SessionView,
    config: XMakeDebugConfigView,
    binary: DebugAdapterBinaryView,
    world: World,
)
    requires
        (world.decode)(session.configuration) == Ok::<XMakeDebugConfigView, Seq<char>>(config),
        adapter_outcome(adapter_name, session, world) == Ok::<DebugAdapterBinaryView, Seq<char>>(
            binary,
        ),
    ensures
        match config.debugger {
            Some(name) => name == "gdb-dap"@ || name == "lldb-dap"@,
            None => true,
        },
        search_outcome(
            if config.debugger == Some("gdb-dap"@) {
                Debugger::Gdb
            } else {
                Debugger::Lldb
            },
            world,
        ) matches Ok(located) && match session.adapter_path {
            Some(path) => binary.command == Some(path) && binary.arguments == Seq::<
                Seq<char>,
            >::empty(),
            None => binary.command == Some(located.path) && binary.arguments == located.args,
        },
{
    lemma_names_differ();
}

/// There is an adapter wherever the configuration decodes, names a known debugger that is found, and
/// a known request.
pub proof fn sound_session_has_an_adapter(
    session: SessionView,
    config: XMakeDebugConfigView,
    world: World,
)
    requires
        (world.decode)(session.configuration) == Ok::<XMakeDebugConfigView, Seq<char>>(config),
        config.request == "launch"@ || config.request == "attach"@,
        match config.debugger {
            Some(name) => if name == "gdb-dap"@ {
                search_outcome(Debugger::Gdb, world) is Ok
            } else {
                name == "lldb-dap"@ && search_outcome(Debugger::Lldb, world) is Ok
            },
            None => search_outcome(Debugger::Lldb, world) is Ok,
        },
    ensures
        adapter_outcome("xmake"@, session, world) is Ok,
{
    lemma_names_differ();
}

/// What is wrong with a session is told in this order: the adapter's name, the text, the name of the
/// debugger, the debugger that is not found, the request.
pub proof fn first_fault_of_a_session_is_told(
    adapter_name: Seq<char>,
    session: SessionView,
    world: World,
)
    ensures
        adapter_name != "xmake"@ ==> adapter_outcome(adapter_name, session, world) == Err::<
            DebugAdapterBinaryView,
            Seq<char>,
        >("This adapter does not support: "@ + adapter_name),
        match (world.decode)(session.configuration) {
            Err(reason) => adapter_outcome("xmake"@, session, world) == Err::<
                DebugAdapterBinaryView,
                Seq<char>,
            >("Failed to parse debug config: "@ + reason),
            Ok(config) => {
                let name = match config.debugger {
                    Some(name) => name,
                    None => "lldb-dap"@,
                };
                let debugger = if name == "gdb-dap"@ {
                    Debugger::Gdb
                } else {
                    Debugger::Lldb
                };
                if name != "gdb-dap"@ && name != "lldb-dap"@ {
                    adapter_outcome("xmake"@, session, world) == Err::<
                        DebugAdapterBinaryView,
                        Seq<char>,
                    >("Unsupported debugger: "@ + name)
                } else {
                    match search_outcome(debugger, world) {
                        Err(message) => adapter_outcome("xmake"@, session, world) == Err::<
                            DebugAdapterBinaryView,
                            Seq<char>,
                        >(message),
                        Ok(_) => config.request != "launch"@ && config.request != "attach"@
                            ==> adapter_outcome("xmake"@, session, world) == Err::<
                            DebugAdapterBinaryView,
                            Seq<char>,
                        >("Invalid request type: "@ + config.request),
                    }
                }
            },
        },
{
    lemma_names_differ();
}

proof fn lemma_names_differ()
    ensures
        "gdb-dap"@ != "lldb-dap"@,
        "launch"@ != "attach"@,
{
    reveal_strlit("gdb-dap");
    reveal_strlit("lldb-dap");
    assert("gdb-dap"@.len() != "lldb-dap"@.len());
    reveal_strlit("launch");
    reveal_strlit("attach");
    assert("launch"@[0] != "attach"@[0]);
}

/// The kind of request of a JSON object is that of the text under `request`, whatever else the
/// object holds; a text that names none is refused.
pub proof fn kind_is_that_of_the_text(members: Map<Seq<char>, JsonView>, name: Seq<char>)
    ensures
        requested(JsonView::Object(members.insert("request"@, JsonView::Text(name)))) == if name
            == "launch"@ {
            Ok::<StartDebuggingRequestArgumentsRequest, Seq<char>>(
                StartDebuggingRequestArgumentsRequest::Launch,
            )
        } else if name == "attach"@ {
            Ok(StartDebuggingRequestArgumentsRequest::Attach)
        } else {
            Err("Invalid request type: "@ + name)
        },
        named_request(name) == requested(
            JsonView::Object(members.insert("request"@, JsonView::Text(name))),
        ),
{
}

/// A JSON value without a text under `request` launches.
pub proof fn kind_without_a_text_is_launch(value: JsonView)
    requires
        !(value matches JsonView::Object(members) && members.contains_key("request"@)
            && members["request"@] is Text),
    ensures
        requested(value) == Ok::<StartDebuggingRequestArgumentsRequest, Seq<char>>(
            StartDebuggingRequestArgumentsRequest::Launch,
        ),
{
}

/// A session whose text decodes to the default configuration launches LLDB in the root of the
/// worktree, without variables of its own.
pub proof fn default_configuration_launches_lldb(session: SessionView, world: World)
    requires
        (world.decode)(session.configuration) == Ok::<XMakeDebugConfigView, Seq<char>>(
            default_config(),
        ),
    ensures
        match (search_outcome(Debugger::Lldb, world), adapter_outcome("xmake"@, session, world)) {
            (Ok(_), Ok(binary)) => {
                &&& binary.request_args.request == StartDebuggingRequestArgumentsRequest::Launch
                &&& binary.cwd == Some(world.root)
                &&& binary.envs == Map::<Seq<char>, Seq<char>>::empty()
            },
            (Err(message), Err(other)) => message == other,
            _ => false,
        },
        default_config().program is None,
        default_config().args is None,
        default_config().stop_at_entry is None,
        default_config().pid is None,
{
}

/// A reply to some other request changes nothing, and nothing changes once there is an adapter or an
/// error.
pub proof fn other_replies_do_not_matter_to_a_session(step: AdapterView, reply: ReplyView)
    requires
        step matches AdapterView::Search(_, _, search) ==> !(search is Finished),
    ensures
        match adapter_request(step) {
            Some(request) => !fits(request, reply) ==> adapter_step(step, reply) == step,
            None => adapter_step(step, reply) == step,
        },
{
}

} // verus!
