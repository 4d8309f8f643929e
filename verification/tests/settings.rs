use serde_json::Value;
use zed_xmake::adapter::{
    dap_request_kind, request_named, StartDebuggingRequestArgumentsRequest,
};
use zed_xmake::config::XMakeDebugConfig;
use zed_xmake::host::{BinarySettings, LspSettings, Request};
use zed_xmake::json::{empty_object, member_text, object_with_member, text_member_text};
use zed_xmake::platform::{get_linux_variant, Architecture};
use zed_xmake::settings::{
    get_binary_path, get_settings, get_target_name, language_server_initialization_options,
    language_server_workspace_configuration, project_settings_file, read_default_target,
    settings_request,
};

fn value(text: &str) -> Value {
    serde_json::from_str(text).unwrap()
}

fn settings(text: &str) -> Option<LspSettings> {
    Some(LspSettings { binary: None, settings: Some(value(text)) })
}

#[test]
fn member_text_reads_strings_of_objects() {
    let object = value(r#"{"a": "x", "b": 1, "c": {"a": "y"}}"#);
    assert_eq!(member_text(&object, "a"), Some("x".to_string()));
    assert_eq!(member_text(&object, "b"), None);
    assert_eq!(member_text(&object, "c"), None);
    assert_eq!(member_text(&object, "d"), None);
    assert_eq!(member_text(&value(r#"["a"]"#), "a"), None);
    assert_eq!(member_text(&value("\"a\""), "a"), None);
}

#[test]
fn text_member_text_refuses_what_is_no_json() {
    assert_eq!(text_member_text(r#"{"a": "x\ty"}"#, "a"), Some("x\ty".to_string()));
    assert_eq!(text_member_text(r#"{"a": "x""#, "a"), None);
    assert_eq!(text_member_text("", "a"), None);
}

#[test]
fn objects_are_built() {
    assert_eq!(empty_object(), value("{}"));
    assert_eq!(object_with_member("k".to_string(), value("[1]")), value(r#"{"k": [1]}"#));
}

#[test]
fn initialization_options_hold_the_settings() {
    assert_eq!(
        language_server_initialization_options(settings(r#"{"x": true}"#)),
        value(r#"{"settings": {"x": true}}"#)
    );
    assert_eq!(language_server_initialization_options(None), value(r#"{"settings": {}}"#));
    let without = Some(LspSettings { binary: None, settings: None });
    assert_eq!(language_server_initialization_options(without), value(r#"{"settings": {}}"#));
}

#[test]
fn workspace_configuration_is_the_settings_value() {
    assert_eq!(language_server_workspace_configuration(settings("[1, 2]")), Some(value("[1, 2]")));
    assert_eq!(language_server_workspace_configuration(None), None);
    assert_eq!(get_settings(settings("null")), Some(Value::Null));
}

#[test]
fn binary_path_comes_from_the_binary_settings() {
    let named = LspSettings {
        binary: Some(BinarySettings { path: Some("/x".to_string()) }),
        settings: None,
    };
    assert_eq!(get_binary_path(Some(named)), Some("/x".to_string()));
    let unnamed = LspSettings { binary: Some(BinarySettings { path: None }), settings: None };
    assert_eq!(get_binary_path(Some(unnamed)), None);
    assert_eq!(get_binary_path(settings("{}")), None);
    assert_eq!(get_binary_path(None), None);
}

#[test]
fn linux_variant_of_the_settings_is_used() {
    let chosen = Some(value(r#"{"linuxVariant": "x64-musl"}"#));
    assert_eq!(get_linux_variant(&chosen, Architecture::X86), Ok("x64-musl".to_string()));
}

#[test]
fn linux_variant_follows_the_architecture() {
    let other = Some(value(r#"{"linuxVariant": 5}"#));
    assert_eq!(
        get_linux_variant(&other, Architecture::Aarch64),
        Ok("aarch64-glibc.2.17".to_string())
    );
    assert_eq!(get_linux_variant(&None, Architecture::X8664), Ok("x64-glibc.2.17".to_string()));
    assert_eq!(
        get_linux_variant(&None, Architecture::X86),
        Err("32-bit x86 Linux is not supported by xmake_ls".to_string())
    );
}

#[test]
fn default_target_is_read_from_the_project() {
    assert_eq!(project_settings_file(), vec![".zed".to_string(), "settings.json".to_string()]);
    assert_eq!(
        read_default_target(r#"{"xmake.defaultTarget": "demo"}"#),
        Some("demo".to_string())
    );
    assert_eq!(read_default_target(r#"{"xmake": {"defaultTarget": "demo"}}"#), None);
    assert_eq!(read_default_target("// demo"), None);
}

#[test]
fn target_name_falls_back_to_default() {
    let cwd = Some("/p".to_string());
    let content = Some(r#"{"xmake.defaultTarget": "demo"}"#.to_string());
    assert_eq!(get_target_name(&cwd, &content), "demo");
    assert_eq!(get_target_name(&None, &content), "default");
    assert_eq!(get_target_name(&cwd, &None), "default");
    assert_eq!(get_target_name(&cwd, &Some("{}".to_string())), "default");
}

#[test]
fn request_kind_is_read_from_the_configuration() {
    assert_eq!(
        dap_request_kind(&value(r#"{"request": "launch"}"#)),
        Ok(StartDebuggingRequestArgumentsRequest::Launch)
    );
    assert_eq!(
        dap_request_kind(&value(r#"{"request": "attach"}"#)),
        Ok(StartDebuggingRequestArgumentsRequest::Attach)
    );
    assert_eq!(
        dap_request_kind(&value(r#"{"request": "Attach"}"#)),
        Err("Invalid request type: Attach".to_string())
    );
}

#[test]
fn request_kind_launches_where_none_is_named() {
    for text in ["{}", r#"{"request": 1}"#, "[]", "null"] {
        assert_eq!(
            dap_request_kind(&value(text)),
            Ok(StartDebuggingRequestArgumentsRequest::Launch)
        );
    }
}

#[test]
fn request_kinds_agree_with_the_default() {
    assert_eq!(
        dap_request_kind(&value("{}")),
        request_named(&XMakeDebugConfig::default().request)
    );
}

#[test]
fn settings_are_those_of_the_server() {
    assert!(matches!(settings_request(), Request::LspSettings(name) if name == "xmake-ls"));
}
