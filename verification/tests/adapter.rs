use zed_xmake::adapter::{
    dap_request_kind, get_dap_binary, request_named, AdapterStep, DebugAdapterBinary,
    StartDebuggingRequestArgumentsRequest,
};
use zed_xmake::config::XMakeDebugConfig;
use zed_xmake::env_map::EnvMap;
use zed_xmake::host::{Reply, Request};
use zed_xmake::platform::{Architecture, Os};
use zed_xmake::scenario::{
    dap_config_to_scenario, AttachRequest, DebugConfig, DebugRequest, DebugScenario, LaunchRequest,
};

fn run(
    start: AdapterStep,
    config: Result<XMakeDebugConfig, &'static str>,
    programs: &[&str],
) -> (Result<DebugAdapterBinary, String>, Vec<String>) {
    let mut asked = Vec::new();
    let mut config = Some(config);
    let mut step = start;
    loop {
        let reply = match step.request() {
            None => match step {
                AdapterStep::Finished(result) => return (result, asked),
                other => panic!("{:?} asks nothing", other),
            },
            Some(Request::DecodeConfig(text)) => {
                asked.push(format!("decode {}", text));
                Reply::Decoded(config.take().unwrap().map_err(|reason| reason.to_string()))
            }
            Some(Request::CurrentPlatform) => Reply::Platform(Os::Linux, Architecture::X8664),
            Some(Request::Which(name)) => {
                let found = programs.contains(&name.as_str());
                asked.push(format!("which {}", name));
                Reply::Program(if found { Some(format!("/bin/{}", name)) } else { None })
            }
            Some(Request::PathExists(_)) => Reply::Present(false),
            Some(Request::RootPath) => {
                asked.push("root".to_string());
                Reply::Root("/root".to_string())
            }
            Some(other) => panic!("unexpected {:?}", other),
        };
        step = step.advance(reply);
    }
}

fn start(path: Option<&str>) -> AdapterStep {
    get_dap_binary("xmake".to_string(), "{..}".to_string(), path.map(|path| path.to_string()))
}

fn config() -> XMakeDebugConfig {
    XMakeDebugConfig::default()
}

#[test]
fn other_adapters_are_refused_at_once() {
    let first = get_dap_binary("cmake".to_string(), "{}".to_string(), None);
    assert!(first.request().is_none());
    let (result, asked) = run(first, Ok(config()), &[]);
    assert_eq!(result.unwrap_err(), "This adapter does not support: cmake");
    assert!(asked.is_empty());
}

#[test]
fn bad_configuration_is_refused() {
    let (result, asked) = run(start(None), Err("EOF at line 1"), &["lldb-dap"]);
    assert_eq!(result.unwrap_err(), "Failed to parse debug config: EOF at line 1");
    assert_eq!(asked, vec!["decode {..}"]);
}

#[test]
fn lldb_is_run_by_default() {
    let (result, asked) = run(start(None), Ok(config()), &["lldb-dap", "gdb"]);
    let binary = result.unwrap();
    assert_eq!(binary.command, Some("/bin/lldb-dap".to_string()));
    assert!(binary.arguments.is_empty());
    assert_eq!(binary.cwd, Some("/root".to_string()));
    assert!(binary.connection.is_none());
    assert_eq!(binary.request_args.configuration, "{..}");
    assert_eq!(binary.request_args.request, StartDebuggingRequestArgumentsRequest::Launch);
    assert!(binary.envs.into_pairs().is_empty());
    assert_eq!(asked, vec!["decode {..}", "which lldb-dap", "root"]);
}

#[test]
fn configuration_is_followed() {
    let given = XMakeDebugConfig {
        cwd: Some("/work".to_string()),
        env: EnvMap::from_pairs(vec![("K".to_string(), "V".to_string())]),
        request: "attach".to_string(),
        debugger: Some("gdb-dap".to_string()),
        ..config()
    };
    let (result, asked) = run(start(None), Ok(given), &["lldb-dap", "gdb"]);
    let binary = result.unwrap();
    assert_eq!(binary.command, Some("/bin/gdb".to_string()));
    assert_eq!(binary.arguments, vec!["-i".to_string(), "dap".to_string()]);
    assert_eq!(binary.cwd, Some("/work".to_string()));
    assert_eq!(binary.request_args.request, StartDebuggingRequestArgumentsRequest::Attach);
    assert_eq!(binary.envs.into_pairs(), vec![("K".to_string(), "V".to_string())]);
    assert_eq!(asked, vec!["decode {..}", "which gdb"]);
}

#[test]
fn named_lldb_is_run() {
    let given = XMakeDebugConfig { debugger: Some("lldb-dap".to_string()), ..config() };
    let (result, _) = run(start(None), Ok(given), &["lldb-dap"]);
    assert_eq!(result.unwrap().command, Some("/bin/lldb-dap".to_string()));
}

#[test]
fn wanted_adapter_is_run_without_arguments() {
    let given = XMakeDebugConfig { debugger: Some("gdb-dap".to_string()), ..config() };
    let (result, _) = run(start(Some("/my/dap")), Ok(given), &["gdb"]);
    let binary = result.unwrap();
    assert_eq!(binary.command, Some("/my/dap".to_string()));
    assert!(binary.arguments.is_empty());
}

#[test]
fn missing_debugger_is_told_even_if_an_adapter_is_wanted() {
    let (result, _) = run(start(Some("/my/dap")), Ok(config()), &[]);
    assert_eq!(
        result.unwrap_err(),
        "Could not find lldb-dap. Please install it via:\n\
         sudo apt install lldb` (Ubuntu/Debian) or `sudo pacman -S lldb` (Arch)."
    );
}

#[test]
fn unknown_debugger_is_refused() {
    let given = XMakeDebugConfig { debugger: Some("lldb".to_string()), ..config() };
    let (result, asked) = run(start(None), Ok(given), &["lldb-dap"]);
    assert_eq!(result.unwrap_err(), "Unsupported debugger: lldb");
    assert_eq!(asked, vec!["decode {..}"]);
}

#[test]
fn debugger_is_looked_for_before_the_request_is() {
    let given = XMakeDebugConfig { request: "run".to_string(), ..config() };
    let (result, _) = run(start(None), Ok(given), &["lldb-dap"]);
    assert_eq!(result.unwrap_err(), "Invalid request type: run");
    let given = XMakeDebugConfig { request: "run".to_string(), ..config() };
    let (result, _) = run(start(None), Ok(given), &[]);
    assert!(result.unwrap_err().starts_with("Could not find lldb-dap."));
}

#[test]
fn requests_have_names() {
    assert_eq!(request_named("launch"), Ok(StartDebuggingRequestArgumentsRequest::Launch));
    assert_eq!(request_named("attach"), Ok(StartDebuggingRequestArgumentsRequest::Attach));
    assert_eq!(request_named(""), Err("Invalid request type: ".to_string()));
}

fn wanted(request: DebugRequest) -> DebugConfig {
    DebugConfig {
        label: "L".to_string(),
        adapter: "xmake".to_string(),
        request,
        stop_on_entry: Some(true),
    }
}

fn launch() -> DebugRequest {
    DebugRequest::Launch(LaunchRequest {
        program: "/p".to_string(),
        cwd: Some("/d".to_string()),
        args: vec!["-x".to_string()],
        envs: vec![
            ("A".to_string(), "1".to_string()),
            ("A".to_string(), "2".to_string()),
        ],
    })
}

#[test]
fn launch_becomes_a_scenario() {
    let draft = dap_config_to_scenario(wanted(launch()));
    assert_eq!(draft.config.program, Some("/p".to_string()));
    assert_eq!(draft.config.args, Some(vec!["-x".to_string()]));
    assert_eq!(draft.config.cwd, Some("/d".to_string()));
    assert_eq!(
        draft.config.env.clone().into_pairs(),
        vec![("A".to_string(), "2".to_string())]
    );
    assert_eq!(draft.config.request, "launch");
    assert_eq!(draft.config.stop_at_entry, Some(true));
    assert_eq!(draft.config.pid, None);
    assert_eq!(draft.config.debugger, None);
    assert_eq!(
        draft.finish("json".to_string()),
        DebugScenario {
            label: "L".to_string(),
            adapter: "xmake".to_string(),
            build: None,
            config: "json".to_string(),
            tcp_connection: None,
        }
    );
}

#[test]
fn attach_becomes_a_scenario() {
    let draft =
        dap_config_to_scenario(wanted(DebugRequest::Attach(AttachRequest { process_id: Some(9) })));
    assert_eq!(draft.config.program, None);
    assert_eq!(draft.config.args, None);
    assert_eq!(draft.config.cwd, None);
    assert_eq!(draft.config.request, "attach");
    assert_eq!(draft.config.pid, Some(9));
    assert_eq!(draft.config.stop_at_entry, Some(true));
    assert!(draft.config.env.into_pairs().is_empty());
    assert_eq!(draft.label, "L");
    assert_eq!(draft.build, None);
}

#[test]
fn scenarios_can_be_started() {
    let draft = dap_config_to_scenario(wanted(launch()));
    let (result, _) = run(start(None), Ok(draft.config), &["lldb-dap"]);
    let binary = result.unwrap();
    assert_eq!(binary.command, Some("/bin/lldb-dap".to_string()));
    assert!(binary.arguments.is_empty());
    assert_eq!(binary.request_args.request, StartDebuggingRequestArgumentsRequest::Launch);
    assert_eq!(binary.request_args.configuration, "{..}");
    assert_eq!(binary.cwd, Some("/d".to_string()));
    assert_eq!(binary.envs.into_pairs(), vec![("A".to_string(), "2".to_string())]);
    let attach = DebugRequest::Attach(AttachRequest { process_id: None });
    let draft = dap_config_to_scenario(wanted(attach));
    let (result, _) = run(start(Some("/my/dap")), Ok(draft.config), &["lldb-dap"]);
    let binary = result.unwrap();
    assert_eq!(binary.command, Some("/my/dap".to_string()));
    assert_eq!(binary.request_args.request, StartDebuggingRequestArgumentsRequest::Attach);
    assert_eq!(binary.cwd, Some("/root".to_string()));
    assert!(binary.envs.into_pairs().is_empty());
}

#[test]
fn scenarios_without_a_directory_start_in_the_root() {
    let request = DebugRequest::Launch(LaunchRequest {
        program: "/p".to_string(),
        cwd: None,
        args: vec![],
        envs: vec![],
    });
    let draft = dap_config_to_scenario(wanted(request));
    let (result, _) = run(start(None), Ok(draft.config), &["lldb-dap"]);
    assert_eq!(result.unwrap().cwd, Some("/root".to_string()));
}

#[test]
fn scenarios_need_lldb() {
    let draft = dap_config_to_scenario(wanted(launch()));
    let (result, _) = run(start(None), Ok(draft.config), &["gdb"]);
    assert!(result.unwrap_err().starts_with("Could not find lldb-dap."));
}

fn kind(request: Option<&str>) -> Result<StartDebuggingRequestArgumentsRequest, String> {
    let mut value = serde_json::Map::new();
    if let Some(name) = request {
        value.insert("request".to_string(), serde_json::Value::String(name.to_string()));
    }
    dap_request_kind(&serde_json::Value::Object(value))
}

#[test]
fn kind_of_a_scenario_is_the_wanted_one() {
    let draft = dap_config_to_scenario(wanted(launch()));
    assert_eq!(
        kind(Some(&draft.config.request)),
        Ok(StartDebuggingRequestArgumentsRequest::Launch)
    );
    let attach = DebugRequest::Attach(AttachRequest { process_id: Some(1) });
    let draft = dap_config_to_scenario(wanted(attach));
    assert_eq!(
        kind(Some(&draft.config.request)),
        Ok(StartDebuggingRequestArgumentsRequest::Attach)
    );
}

#[test]
fn kind_of_a_configuration_is_that_of_its_adapter() {
    for request in [None, Some("launch"), Some("attach"), Some("run")] {
        let given = match request {
            None => config(),
            Some(name) => XMakeDebugConfig { request: name.to_string(), ..config() },
        };
        let (result, _) = run(start(None), Ok(given), &["lldb-dap"]);
        assert_eq!(result.map(|binary| binary.request_args.request), kind(request));
    }
}
