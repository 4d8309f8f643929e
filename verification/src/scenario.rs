//! Debug scenarios: what a debug session is made from.
use vstd::prelude::*;

use crate::config::{XMakeDebugConfig, XMakeDebugConfigView};
use crate::env_map::{env_of, EnvMap};

verus! {

/// A task of the editor.
#[derive(Debug, PartialEq, Eq)]
pub struct TaskTemplate {
    pub label: String,
    pub command: String,
    pub args: Vec<String>,
    pub env: Vec<(String, String)>,
    pub cwd: Option<String>,
}

#[verifier::ext_equal]
pub struct TaskTemplateView {
    pub label: Seq<char>,
    pub command: Seq<char>,
    pub args: Seq<Seq<char>>,
    pub env: Seq<(Seq<char>, Seq<char>)>,
    pub cwd: Option<Seq<char>>,
}

impl DeepView for TaskTemplate {
    type V = TaskTemplateView;

    open spec fn deep_view(&self) -> TaskTemplateView {
        TaskTemplateView {
            label: self.label@,
            command: self.command@,
            args: self.args.deep_view(),
            env: self.env.deep_view(),
            cwd: self.cwd.deep_view(),
        }
    }
}

/// A task that builds what is debugged.
#[derive(Debug, PartialEq, Eq)]
pub struct BuildTask {
    /// The locator that finds what was built.
    pub locator_name: Option<String>,
    pub template: TaskTemplate,
}

#[verifier::ext_equal]
pub struct BuildTaskView {
    pub locator_name: Option<Seq<char>>,
    pub template: TaskTemplateView,
}

impl DeepView for BuildTask {
    type V = BuildTaskView;

    open spec fn deep_view(&self) -> BuildTaskView {
        BuildTaskView {
            locator_name: self.locator_name.deep_view(),
            template: self.template.deep_view(),
        }
    }
}

/// A TCP connection to a debug adapter, as far as it is known.
#[derive(Clone, Copy, Debug, PartialEq, Eq, Structural)]
pub struct TcpArgumentsTemplate {
    pub port: Option<u16>,
    pub host: Option<u32>,
    pub timeout: Option<u64>,
}

/// A debug scenario.
#[derive(Debug, PartialEq, Eq)]
pub struct DebugScenario {
    pub label: String,
    pub adapter: String,
    pub build: Option<BuildTask>,
    /// The debug configuration, as JSON.
    pub config: String,
    pub tcp_connection: Option<TcpArgumentsTemplate>,
}

#[verifier::ext_equal]
pub struct DebugScenarioView {
    pub label: Seq<char>,
    pub adapter: Seq<char>,
    pub build: Option<BuildTaskView>,
    pub config: Seq<char>,
    pub tcp_connection: Option<TcpArgumentsTemplate>,
}

impl DeepView for DebugScenario {
    type V = DebugScenarioView;

    open spec fn deep_view(&self) -> DebugScenarioView {
        DebugScenarioView {
            label: self.label@,
            adapter: self.adapter@,
            build: self.build.deep_view(),
            config: self.config@,
            tcp_connection: self.tcp_connection,
        }
    }
}

/// A debug scenario whose configuration is not encoded yet.
#[derive(Debug)]
pub struct ScenarioDraft {
    pub label: String,
    pub adapter: String,
    pub build: Option<BuildTask>,
    pub config: XMakeDebugConfig,
}

#[verifier::ext_equal]
pub struct ScenarioDraftView {
    pub label: Seq<char>,
    pub adapter: Seq<char>,
    pub build: Option<BuildTaskView>,
    pub config: XMakeDebugConfigView,
}

impl DeepView for ScenarioDraft {
    type V = ScenarioDraftView;

    open spec fn deep_view(&self) -> ScenarioDraftView {
        ScenarioDraftView {
            label: self.label@,
            adapter: self.adapter@,
            build: self.build.deep_view(),
            config: self.config.deep_view(),
        }
    }
}

/// The scenario of a draft, given its configuration as JSON.
pub open spec fn drafted_scenario(draft: ScenarioDraftView, config: Seq<char>) -> DebugScenarioView {
    DebugScenarioView {
        label: draft.label,
        adapter: draft.adapter,
        build: draft.build,
        config,
        tcp_connection: None,
    }
}

impl ScenarioDraft {
    /// The scenario, given its configuration as JSON.
    pub fn finish(self, config: String) -> (scenario: DebugScenario)
        ensures
            scenario.deep_view() == drafted_scenario(self.deep_view(), config@),
    {
        DebugScenario {
            label: self.label,
            adapter: self.adapter,
            build: self.build,
            config,
            tcp_connection: None,
        }
    }
}

/// What the user asks for in the dialog for a new session.
#[derive(Debug, PartialEq, Eq)]
pub struct DebugConfig {
    pub label: String,
    pub adapter: String,
    pub request: DebugRequest,
    pub stop_on_entry: Option<bool>,
}

/// A program to start, or a process to join.
#[derive(Debug, PartialEq, Eq)]
pub enum DebugRequest {
    Launch(LaunchRequest),
    Attach(AttachRequest),
}

/// A program to start.
#[derive(Debug, PartialEq, Eq)]
pub struct LaunchRequest {
    pub program: String,
    pub cwd: Option<String>,
    pub args: Vec<String>,
    pub envs: Vec<(String, String)>,
}

/// A process to join.
#[derive(Clone, Copy, Debug, PartialEq, Eq, Structural)]
pub struct AttachRequest {
    pub process_id: Option<u32>,
}

#[verifier::ext_equal]
pub struct DebugConfigView {
    pub label: Seq<char>,
    pub adapter: Seq<char>,
    pub request: DebugRequestView,
    pub stop_on_entry: Option<bool>,
}

#[verifier::ext_equal]
pub enum DebugRequestView {
    Launch {
        program: Seq<char>,
        cwd: Option<Seq<char>>,
        args: Seq<Seq<char>>,
        envs: Seq<(Seq<char>, Seq<char>)>,
    },
    Attach { process_id: Option<u32> },
}

impl DeepView for DebugRequest {
    type V = DebugRequestView;

    open spec fn deep_view(&self) -> DebugRequestView {
        match self {
            DebugRequest::Launch(launch) => DebugRequestView::Launch {
                program: launch.program@,
                cwd: launch.cwd.deep_view(),
                args: launch.args.deep_view(),
                envs: launch.envs.deep_view(),
            },
            DebugRequest::Attach(attach) => DebugRequestView::Attach {
                process_id: attach.process_id,
            },
        }
    }
}

impl DeepView for DebugConfig {
    type V = DebugConfigView;

    open spec fn deep_view(&self) -> DebugConfigView {
        DebugConfigView {
            label: self.label@,
            adapter: self.adapter@,
            request: self.request.deep_view(),
            stop_on_entry: self.stop_on_entry,
        }
    }
}

/// The debug configuration for what the user asks for.
pub open spec fn config_for(config: DebugConfigView) -> XMakeDebugConfigView {
    match config.request {
        DebugRequestView::Launch { program, cwd, args, envs } => XMakeDebugConfigView {
            program: Some(program),
            args: Some(args),
            cwd,
            env: env_of(envs),
            request: "launch"@,
            stop_at_entry: config.stop_on_entry,
            pid: None,
            debugger: None,
        },
        DebugRequestView::Attach { process_id } => XMakeDebugConfigView {
            program: None,
            args: None,
            cwd: None,
            env: Map::empty(),
            request: "attach"@,
            stop_at_entry: config.stop_on_entry,
            pid: process_id,
            debugger: None,
        },
    }
}

/// The scenario for what the user asks for, still to be encoded. It builds nothing.
pub open spec fn dialog_draft(config: DebugConfigView) -> ScenarioDraftView {
    ScenarioDraftView {
        label: config.label,
        adapter: config.adapter,
        build: None,
        config: config_for(config),
    }
}

/// The scenario for what the user asks for, still to be encoded.
pub fn dap_config_to_scenario(config: DebugConfig) -> (draft: ScenarioDraft)
    ensures
        draft.deep_view() == dialog_draft(config.deep_view()),
{
    let xmake_config = match config.request {
        DebugRequest::Launch(launch) => XMakeDebugConfig {
            program: Some(launch.program),
            args: Some(launch.args),
            cwd: launch.cwd,
            env: EnvMap::from_pairs(launch.envs),
            request: "launch".to_string(),
            stop_at_entry: config.stop_on_entry,
            pid: None,
            debugger: None,
        },
        DebugRequest::Attach(attach) => XMakeDebugConfig {
            program: None,
            args: None,
            cwd: None,
            env: EnvMap::new(),
            request: "attach".to_string(),
            stop_at_entry: config.stop_on_entry,
            pid: attach.process_id,
            debugger: None,
        },
    };
    ScenarioDraft {
        label: config.label,
        adapter: config.adapter,
        build: None,
        config: xmake_config,
    }
}

} // verus!
