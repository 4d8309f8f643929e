use std::path::{Path, PathBuf};

use zed_xmake::adapter::{
    get_dap_binary, request_named, AdapterStep, StartDebuggingRequestArgumentsRequest,
};
use zed_xmake::config::XMakeDebugConfig;
use zed_xmake::host::{Reply, Request, ScriptLookup};
use zed_xmake::locator::{
    dap_locator_create_scenario, get_assets_script_path, printed_path, script_lookup, LocatorStep,
};
use zed_xmake::platform::{Architecture, Os};
use zed_xmake::scenario::{BuildTask, DebugScenario, TaskTemplate};

fn texts(texts: &[&str]) -> Vec<String> {
    texts.iter().map(|text| text.to_string()).collect()
}

fn task(command: &str, args: &[&str], cwd: Option<&str>) -> TaskTemplate {
    TaskTemplate {
        label: "task".to_string(),
        command: command.to_string(),
        args: texts(args),
        env: vec![("E".to_string(), "1".to_string())],
        cwd: cwd.map(|cwd| cwd.to_string()),
    }
}

fn start(task: TaskTemplate) -> LocatorStep {
    dap_locator_create_scenario(task, "label".to_string(), "adapter".to_string())
}

struct Trace {
    ran: Option<Vec<String>>,
    config: Option<XMakeDebugConfig>,
    scenario: Option<DebugScenario>,
}

fn run(
    first: LocatorStep,
    script: ScriptLookup,
    output: Option<&[u8]>,
    encoded: Option<&str>,
) -> Trace {
    let mut trace = Trace { ran: None, config: None, scenario: None };
    let mut script = Some(script);
    let mut step = first;
    loop {
        let reply = match step.request() {
            None => match step {
                LocatorStep::Finished(scenario) => {
                    trace.scenario = scenario;
                    return trace;
                }
                other => panic!("{:?} asks nothing", other),
            },
            Some(Request::FindScript(name)) => {
                assert_eq!(name, "targetpath.lua");
                Reply::Script(script.take().unwrap())
            }
            Some(Request::RunProgram { program, args, directory }) => {
                let mut ran = vec![directory, program];
                ran.extend(args);
                trace.ran = Some(ran);
                Reply::Output(output.map(|bytes| bytes.to_vec()))
            }
            Some(Request::EncodeConfig(config)) => {
                trace.config = Some(config);
                Reply::Encoded(encoded.map(|text| text.to_string()))
            }
            Some(other) => panic!("unexpected {:?}", other),
        };
        step = step.advance(reply);
    }
}

fn at_script() -> ScriptLookup {
    ScriptLookup::At("/s.lua".to_string())
}

#[test]
fn printed_path_is_between_the_marks() {
    assert_eq!(
        printed_path("noise\n__begin__\n/out/demo\n__end__\nmore\n"),
        Some("/out/demo".to_string())
    );
    assert_eq!(printed_path("__begin__\r\n/out/demo\r\n__end__\r\n"), Some("/out/demo".to_string()));
}

#[test]
fn printed_path_is_the_last_line_of_the_section() {
    assert_eq!(printed_path("__begin__\na\nb"), Some("b".to_string()));
    assert_eq!(printed_path("__begin__\na\n__begin__\nb\n"), Some("b".to_string()));
    assert_eq!(printed_path("__begin__\na\n__begin__\n"), Some("a".to_string()));
    assert_eq!(printed_path("__begin__\na\n\n__end__\n"), None);
}

#[test]
fn printed_path_is_read_whatever_is_around_it() {
    assert_eq!(
        printed_path("a\n__begin__\nb\n__begin__\nc\n\n/out/demo\n__end__\n__begin__\nd\n"),
        Some("/out/demo".to_string())
    );
    assert_eq!(
        printed_path("a\r\n__begin__\r\nb\r\n/out/demo\r\n__end__"),
        Some("/out/demo".to_string())
    );
    assert_eq!(printed_path("a\n__begin__\nb\n/out/demo"), Some("/out/demo".to_string()));
}

#[test]
fn nothing_is_printed_without_a_section() {
    assert_eq!(printed_path(""), None);
    assert_eq!(printed_path("/out/demo\n__end__\n"), None);
    assert_eq!(printed_path("__begin__\n__end__\n/out/demo"), None);
    assert_eq!(printed_path("__end__\n__begin__\n/out/demo\n"), None);
    assert_eq!(printed_path(" __begin__\n/out/demo\n"), None);
}

fn script(executable: Option<&str>, files: &[&str]) -> Option<PathBuf> {
    get_assets_script_path(
        "targetpath.lua",
        executable.map(PathBuf::from),
        |path: &PathBuf| path.parent().map(|parent| parent.to_path_buf()),
        |path: &PathBuf, part: &str| path.join(part),
        |path: &PathBuf| files.iter().any(|file| path.as_path() == Path::new(file)),
    )
}

#[test]
fn scripts_are_among_the_assets() {
    assert_eq!(
        script(Some("/opt/zed/zed"), &["/opt/zed/assets/targetpath.lua"]),
        Some(PathBuf::from("/opt/zed/assets/targetpath.lua"))
    );
}

#[test]
fn missing_scripts_have_no_path() {
    assert_eq!(script(Some("/opt/zed/zed"), &["/opt/zed/targetpath.lua"]), None);
    assert_eq!(script(Some("/"), &["/assets/targetpath.lua"]), None);
    assert_eq!(script(None, &["/opt/zed/assets/targetpath.lua"]), None);
}

#[test]
fn script_lookup_needs_unicode() {
    let text = |known: &bool| if *known { Some("p".to_string()) } else { None };
    assert_eq!(script_lookup(None, text), ScriptLookup::Missing);
    assert_eq!(script_lookup(Some(false), text), ScriptLookup::NotUnicode);
    assert_eq!(script_lookup(Some(true), text), ScriptLookup::At("p".to_string()));
}

#[test]
fn task_without_a_directory_has_no_scenario() {
    let trace = run(start(task("xmake", &["run", "demo"], None)), at_script(), None, None);
    assert!(trace.scenario.is_none());
    assert!(trace.ran.is_none());
}

#[test]
fn task_becomes_a_scenario() {
    let output: &[u8] = b"__begin__\n/out/demo\n__end__\n";
    let trace = run(
        start(task("xmake", &["run", "demo"], Some("/d"))),
        at_script(),
        Some(output),
        Some("json"),
    );
    assert_eq!(trace.ran, Some(texts(&["/d", "xmake", "l", "/s.lua", "demo"])));
    let config = trace.config.unwrap();
    assert_eq!(config.program, Some("/out/demo".to_string()));
    assert_eq!(config.args, Some(texts(&["run", "demo"])));
    assert_eq!(config.cwd, Some("/d".to_string()));
    assert_eq!(config.env.into_pairs(), vec![("E".to_string(), "1".to_string())]);
    assert_eq!(config.request, "launch");
    assert_eq!(config.stop_at_entry, Some(false));
    assert_eq!(config.pid, None);
    assert_eq!(config.debugger, Some("lldb-dap".to_string()));
    assert_eq!(
        trace.scenario,
        Some(DebugScenario {
            label: "label".to_string(),
            adapter: "adapter".to_string(),
            build: Some(BuildTask {
                locator_name: Some("xmake".to_string()),
                template: TaskTemplate {
                    label: "Build demo".to_string(),
                    command: "xmake".to_string(),
                    args: texts(&["build", "demo"]),
                    env: vec![],
                    cwd: Some("/d".to_string()),
                },
            }),
            config: "json".to_string(),
            tcp_connection: None,
        })
    );
}

#[test]
fn target_is_default_where_none_is_named() {
    for given in [
        task("xmake", &["run"], Some("/d")),
        task("xmake", &[], Some("/d")),
        task("make", &["run", "demo"], Some("/d")),
    ] {
        let trace = run(start(given), at_script(), Some(b""), Some("json"));
        assert_eq!(trace.ran.unwrap()[4], "default");
        assert_eq!(trace.config.unwrap().program, None);
        let build = trace.scenario.unwrap().build.unwrap();
        assert_eq!(build.template.label, "Build default");
    }
}

#[test]
fn missing_script_leaves_the_program_open() {
    let trace = run(
        start(task("xmake", &["run", "demo"], Some("/d"))),
        ScriptLookup::Missing,
        None,
        Some("json"),
    );
    assert!(trace.ran.is_none());
    assert_eq!(trace.config.unwrap().program, None);
    assert!(trace.scenario.is_some());
}

#[test]
fn failures_leave_no_scenario() {
    let given = || start(task("xmake", &["run", "demo"], Some("/d")));
    assert!(run(given(), ScriptLookup::NotUnicode, None, Some("json")).scenario.is_none());
    assert!(run(given(), at_script(), None, Some("json")).scenario.is_none());
    assert!(run(given(), at_script(), Some(b""), None).scenario.is_none());
}

#[test]
fn output_that_is_not_unicode_is_replaced() {
    let output: &[u8] = b"__begin__\n/out/\xffdemo\n__end__\n";
    let trace = run(
        start(task("xmake", &["run", "demo"], Some("/d"))),
        at_script(),
        Some(output),
        Some("json"),
    );
    assert_eq!(trace.config.unwrap().program, Some("/out/\u{fffd}demo".to_string()));
}

#[test]
fn located_scenario_launches_with_lldb_in_the_directory_of_the_task() {
    let trace = run(
        start(task("xmake", &["run", "demo"], Some("/d"))),
        ScriptLookup::Missing,
        None,
        Some("json"),
    );
    let config = trace.config.unwrap();
    assert_eq!(
        request_named(&config.request),
        Ok(StartDebuggingRequestArgumentsRequest::Launch)
    );
    assert_eq!(config.debugger, Some("lldb-dap".to_string()));
    assert_eq!(config.cwd, Some("/d".to_string()));
    assert_eq!(trace.scenario.unwrap().build.unwrap().template.cwd, Some("/d".to_string()));
}

#[test]
fn located_scenario_starts_as_the_task_does() {
    let trace = run(
        start(task("xmake", &["run", "demo"], Some("/d"))),
        ScriptLookup::Missing,
        None,
        Some("json"),
    );
    let text = trace.scenario.unwrap().config;
    let mut config = trace.config;
    let mut step = get_dap_binary("xmake".to_string(), text, None);
    while let Some(request) = step.request() {
        step = step.advance(match request {
            Request::DecodeConfig(text) => {
                assert_eq!(text, "json");
                Reply::Decoded(Ok(config.take().unwrap()))
            }
            Request::CurrentPlatform => Reply::Platform(Os::Linux, Architecture::X8664),
            Request::Which(name) => Reply::Program(Some(format!("/bin/{}", name))),
            other => panic!("unexpected {:?}", other),
        });
    }
    let binary = match step {
        AdapterStep::Finished(result) => result.unwrap(),
        other => panic!("{:?} asks nothing", other),
    };
    assert_eq!(binary.command, Some("/bin/lldb-dap".to_string()));
    assert!(binary.arguments.is_empty());
    assert_eq!(binary.cwd, Some("/d".to_string()));
    assert!(binary.connection.is_none());
    assert_eq!(binary.request_args.configuration, "json");
    assert_eq!(binary.request_args.request, StartDebuggingRequestArgumentsRequest::Launch);
    assert_eq!(binary.envs.into_pairs(), vec![("E".to_string(), "1".to_string())]);
}

#[test]
fn label_of_the_task_does_not_matter() {
    let renamed = TaskTemplate {
        label: "other".to_string(),
        ..task("xmake", &["run", "demo"], Some("/d"))
    };
    let given = task("xmake", &["run", "demo"], Some("/d"));
    let output: &[u8] = b"__begin__\n/out/demo\n__end__\n";
    let trace = run(start(given), at_script(), Some(output), Some("json"));
    let other = run(start(renamed), at_script(), Some(output), Some("json"));
    assert_eq!(trace.scenario, other.scenario);
    assert_eq!(trace.ran, other.ran);
}
