//! What becomes of a scenario when a session is started from it.
use vstd::prelude::*;

use crate::adapter::{
    adapter_command, requested, DebugAdapterBinaryView, SessionView,
    StartDebuggingRequestArgumentsRequest, StartDebuggingRequestArgumentsView,
};
use crate::adapter_laws::adapter_outcome;
use crate::config::XMakeDebugConfigView;
use crate::debugger::Debugger;
use crate::env_map::env_of;
use crate::json::{json_member_text, json_of_text, JsonView};
use crate::locator::locator_start;
use crate::locator_laws::{locator_outcome, told_program};
use crate::scenario::{
    config_for, dialog_draft, drafted_scenario, BuildTaskView, DebugConfigView, DebugRequestView,
    DebugScenarioView, ScenarioDraftView, TaskTemplateView,
};
use crate::search_laws::search_outcome;
use crate::world::World;

verus! {

/// What becomes of what the user asks for: a scenario, unless its configuration cannot be encoded.
pub open spec fn dialog_outcome(config: DebugConfigView, world: World) -> Option<
    DebugScenarioView,
> {
    match (world.encode)(config_for(config)) {
        None => None,
        Some(text) => Some(drafted_scenario(dialog_draft(config), text)),
    }
}

/// Whether a text decodes, in the world of the reader, to the configuration that it was encoded
/// from in the world of the writer.
pub open spec fn reads_back(text: Seq<char>, writer: World, reader: World) -> bool {
    forall|config: XMakeDebugConfigView| #[trigger]
        (writer.encode)(config) == Some(text) ==> (reader.decode)(text) == Ok::<
            XMakeDebugConfigView,
            Seq<char>,
        >(config)
}

/// The kind of request that the user asks for.
pub open spec fn wanted_kind(config: DebugConfigView) -> StartDebuggingRequestArgumentsRequest {
    match config.request {
        DebugRequestView::Launch { .. } => StartDebuggingRequestArgumentsRequest::Launch,
        DebugRequestView::Attach { .. } => StartDebuggingRequestArgumentsRequest::Attach,
    }
}

/// The environment that the user asks for. A process that is joined has its own.
pub open spec fn wanted_env(config: DebugConfigView) -> Map<Seq<char>, Seq<char>> {
    match config.request {
        DebugRequestView::Launch { envs, .. } => env_of(envs),
        DebugRequestView::Attach { .. } => Map::empty(),
    }
}

/// The directory that the user asks for, if any.
pub open spec fn wanted_cwd(config: DebugConfigView) -> Option<Seq<char>> {
    match config.request {
        DebugRequestView::Launch { cwd, .. } => cwd,
        DebugRequestView::Attach { .. } => None,
    }
}

/// What the user asks for is encoded as it stands: a program that is launched, with its arguments,
/// its directory and its variables, or a process that is joined; and, either way, the stop. No
/// debugger is named.
pub proof fn dialog_is_encoded_as_it_stands(
    label: Seq<char>,
    adapter: Seq<char>,
    stop_on_entry: Option<bool>,
    program: Seq<char>,
    cwd: Option<Seq<char>>,
    args: Seq<Seq<char>>,
    envs: Seq<(Seq<char>, Seq<char>)>,
    process_id: Option<u32>,
)
    ensures
        dialog_draft(
            (DebugConfigView {
                label,
                adapter,
                request: DebugRequestView::Launch { program, cwd, args, envs },
                stop_on_entry,
            }),
        ) == (ScenarioDraftView {
            label,
            adapter,
            build: None,
            config: XMakeDebugConfigView {
                program: Some(program),
                args: Some(args),
                cwd,
                env: env_of(envs),
                request: "launch"@,
                stop_at_entry: stop_on_entry,
                pid: None,
                debugger: None,
            },
        }),
        dialog_draft(
            (DebugConfigView {
                label,
                adapter,
                request: DebugRequestView::Attach { process_id },
                stop_on_entry,
            }),
        ) == (ScenarioDraftView {
            label,
            adapter,
            build: None,
            config: XMakeDebugConfigView {
                program: None,
                args: None,
                cwd: None,
                env: Map::empty(),
                request: "attach"@,
                stop_at_entry: stop_on_entry,
                pid: process_id,
                debugger: None,
            },
        }),
{
}

/// A scenario has the label, the adapter and the build task of its draft, the text that was encoded,
/// and no connection.
pub proof fn scenario_is_that_of_its_draft(draft: ScenarioDraftView, text: Seq<char>)
    ensures
        drafted_scenario(draft, text) == (DebugScenarioView {
            label: draft.label,
            adapter: draft.adapter,
            build: draft.build,
            config: text,
            tcp_connection: None,
        }),
{
}

/// A scenario of what the user asks for says all of it: it has the label and the adapter, builds
/// nothing, and its configuration decodes to the program, the arguments, the directory, the
/// environment, the process and the stop that the user asks for, and to no debugger.
pub proof fn dialog_scenario_decodes(
    config: DebugConfigView,
    scenario: DebugScenarioView,
    writer: World,
    reader: World,
)
    requires
        dialog_outcome(config, writer) == Some(scenario),
        reads_back(scenario.config, writer, reader),
    ensures
        scenario.label == config.label,
        scenario.adapter == config.adapter,
        scenario.build is None,
        scenario.tcp_connection is None,
        (reader.decode)(scenario.config) matches Ok(decoded) && {
            &&& decoded.stop_at_entry == config.stop_on_entry
            &&& decoded.debugger is None
            &&& match config.request {
                DebugRequestView::Launch { program, cwd, args, envs } => {
                    &&& decoded.request == "launch"@
                    &&& decoded.program == Some(program)
                    &&& decoded.args == Some(args)
                    &&& decoded.cwd == cwd
                    &&& decoded.env == env_of(envs)
                    &&& decoded.pid is None
                },
                DebugRequestView::Attach { process_id } => {
                    &&& decoded.request == "attach"@
                    &&& decoded.program is None
                    &&& decoded.args is None
                    &&& decoded.cwd is None
                    &&& decoded.env == Map::<Seq<char>, Seq<char>>::empty()
                    &&& decoded.pid == process_id
                },
            }
        },
{
}

/// The kind of request that is read from the JSON value of such a scenario is the one that the user
/// asks for, where the encoded configuration has its request as the text under `request`.
pub proof fn dialog_scenario_has_the_wanted_kind(
    config: DebugConfigView,
    scenario: DebugScenarioView,
    value: JsonView,
    writer: World,
)
    requires
        dialog_outcome(config, writer) == Some(scenario),
        json_of_text(scenario.config) == Some(value),
        json_member_text(value, "request"@) == Some(config_for(config).request),
    ensures
        requested(value) == Ok::<StartDebuggingRequestArgumentsRequest, Seq<char>>(
            wanted_kind(config),
        ),
{
    lemma_kinds_differ();
}

/// A session from such a scenario is refused only where LLDB is not found, with the message of the
/// search. Otherwise its adapter is the one that the user wants to run, or else the LLDB that was
/// found; it has the environment and the kind of request that the user asks for, and runs in the
/// directory that the user asks for, or else in the root of the worktree.
pub proof fn dialog_scenario_can_be_started(
    config: DebugConfigView,
    scenario: DebugScenarioView,
    session: SessionView,
    writer: World,
    world: World,
)
    requires
        dialog_outcome(config, writer) == Some(scenario),
        reads_back(scenario.config, writer, world),
        session.configuration == scenario.config,
    ensures
        adapter_outcome("xmake"@, session, world) == match search_outcome(Debugger::Lldb, world) {
            Err(message) => Err(message),
            Ok(located) => Ok(
                DebugAdapterBinaryView {
                    command: Some(adapter_command(session, located).path),
                    arguments: adapter_command(session, located).args,
                    envs: wanted_env(config),
                    cwd: Some(
                        match wanted_cwd(config) {
                            Some(cwd) => cwd,
                            None => world.root,
                        },
                    ),
                    connection: None,
                    request_args: StartDebuggingRequestArgumentsView {
                        configuration: scenario.config,
                        request: wanted_kind(config),
                    },
                },
            ),
        },
{
    lemma_kinds_differ();
}

/// A scenario that the locator made says what the task does: it has the label and the adapter that
/// were given, builds the target in the directory of the task, and its configuration decodes to a
/// launch, with LLDB and without a stop, of the program that was told, with the arguments, the
/// directory and the environment of the task.
pub proof fn located_scenario_decodes(
    task: TaskTemplateView,
    label: Seq<char>,
    adapter: Seq<char>,
    scenario: DebugScenarioView,
    writer: World,
    reader: World,
)
    requires
        locator_outcome(task, label, adapter, writer) == Some(scenario),
        reads_back(scenario.config, writer, reader),
    ensures
        task.cwd is Some,
        scenario.label == label,
        scenario.adapter == adapter,
        scenario.tcp_connection is None,
        ({
            let target = if task.command == "xmake"@ && task.args.len() >= 2 {
                task.args[1]
            } else {
                "default"@
            };
            &&& scenario.build == Some(
                BuildTaskView {
                    locator_name: Some("xmake"@),
                    template: TaskTemplateView {
                        label: "Build "@ + target,
                        command: "xmake"@,
                        args: seq!["build"@, target],
                        env: seq![],
                        cwd: task.cwd,
                    },
                },
            )
            &&& (reader.decode)(scenario.config) matches Ok(decoded) && Some(decoded.program)
                == told_program(target, task.cwd->0, writer)
        }),
        (reader.decode)(scenario.config) matches Ok(decoded) && {
            &&& decoded.args == Some(task.args)
            &&& decoded.cwd == task.cwd
            &&& decoded.env == env_of(task.env)
            &&& decoded.request == "launch"@
            &&& decoded.stop_at_entry == Some(false)
            &&& decoded.pid is None
            &&& decoded.debugger == Some("lldb-dap"@)
        },
{
}

/// A session from such a scenario is refused only where LLDB is not found, with the message of the
/// search. Otherwise its adapter is the one that the user wants to run, or else the LLDB that was
/// found; it launches in the directory and with the environment of the task.
pub proof fn located_scenario_can_be_started(
    task: TaskTemplateView,
    label: Seq<char>,
    adapter: Seq<char>,
    scenario: DebugScenarioView,
    session: SessionView,
    writer: World,
    world: World,
)
    requires
        locator_outcome(task, label, adapter, writer) == Some(scenario),
        reads_back(scenario.config, writer, world),
        session.configuration == scenario.config,
    ensures
        adapter_outcome("xmake"@, session, world) == match search_outcome(Debugger::Lldb, world) {
            Err(message) => Err(message),
            Ok(located) => Ok(
                DebugAdapterBinaryView {
                    command: Some(adapter_command(session, located).path),
                    arguments: adapter_command(session, located).args,
                    envs: env_of(task.env),
                    cwd: task.cwd,
                    connection: None,
                    request_args: StartDebuggingRequestArgumentsView {
                        configuration: scenario.config,
                        request: StartDebuggingRequestArgumentsRequest::Launch,
                    },
                },
            ),
        },
{
}

/// The label of a task does not matter to its scenario, nor to what is asked on the way.
pub proof fn label_of_the_task_is_ignored(
    task: TaskTemplateView,
    other: Seq<char>,
    label: Seq<char>,
    adapter: Seq<char>,
    world: World,
)
    ensures
        locator_start((TaskTemplateView { label: other, ..task }), label, adapter)
            == locator_start(task, label, adapter),
        locator_outcome((TaskTemplateView { label: other, ..task }), label, adapter, world)
            == locator_outcome(task, label, adapter, world),
{
}

proof fn lemma_kinds_differ()
    ensures
        "launch"@ != "attach"@,
{
    reveal_strlit("launch");
    reveal_strlit("attach");
    assert("launch"@[0] != "attach"@[0]);
}

} // verus!
