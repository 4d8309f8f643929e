use zed_xmake::config::XMakeDebugConfig;
use zed_xmake::env_map::EnvMap;

fn pairs(texts: &[(&str, &str)]) -> Vec<(String, String)> {
    texts.iter().map(|(name, value)| (name.to_string(), value.to_string())).collect()
}

fn sorted(env: EnvMap) -> Vec<(String, String)> {
    let mut listed = env.into_pairs();
    listed.sort();
    listed
}

#[test]
fn later_pairs_count() {
    let env = EnvMap::from_pairs(pairs(&[("A", "1"), ("B", "2"), ("A", "3"), ("A", "4")]));
    assert_eq!(sorted(env), pairs(&[("A", "4"), ("B", "2")]));
}

#[test]
fn pairs_come_back() {
    let given = pairs(&[("A", "1"), ("B", ""), ("", "x")]);
    let env = EnvMap::from_pairs(given);
    let copy = env.clone();
    assert_eq!(sorted(env), sorted(copy));
    assert_eq!(sorted(EnvMap::new()), pairs(&[]));
}

#[test]
fn default_configuration_launches() {
    let config = XMakeDebugConfig::default();
    assert_eq!(config.program, None);
    assert_eq!(config.args, None);
    assert_eq!(config.cwd, None);
    assert_eq!(config.request, "launch");
    assert_eq!(config.stop_at_entry, None);
    assert_eq!(config.pid, None);
    assert_eq!(config.debugger, None);
    assert_eq!(sorted(config.env), pairs(&[]));
}

#[test]
fn copies_of_a_configuration_are_equal() {
    let config = XMakeDebugConfig {
        program: Some("p".to_string()),
        args: Some(vec!["a".to_string(), "b".to_string()]),
        cwd: Some("d".to_string()),
        env: EnvMap::from_pairs(pairs(&[("K", "V")])),
        request: "attach".to_string(),
        stop_at_entry: Some(true),
        pid: Some(7),
        debugger: Some("gdb-dap".to_string()),
    };
    assert_eq!(format!("{:?}", config.clone()), format!("{:?}", config));
}
