//! The settings of the language server.
use vstd::prelude::*;

use crate::host::{BinarySettingsView, LspSettings, LspSettingsView, Request, RequestView};
use crate::json::{
    empty_members, empty_object, json_content, json_member, json_member_text, json_of_text,
    object_with_member, text_member_text, JsonView,
};
use crate::platform::settings_content;

verus! {

/// The settings value for the language server, where there is one.
pub open spec fn lsp_settings_value(settings: Option<LspSettingsView>) -> Option<JsonView> {
    match settings {
        Some(found) => found.settings,
        None => None,
    }
}

/// The executable that the settings name, where they name one.
pub open spec fn binary_setting(settings: Option<LspSettingsView>) -> Option<Seq<char>> {
    match settings {
        Some(LspSettingsView { binary: Some(BinarySettingsView { path }), .. }) => path,
        _ => None,
    }
}

/// The request for the settings of the language server.
pub fn settings_request() -> (request: Request)
    ensures
        request.deep_view() == RequestView::LspSettings("xmake-ls"@),
{
    Request::LspSettings("xmake-ls".to_string())
}

/// The settings value for the language server, where the settings could be read and hold one.
pub fn get_settings(settings: Option<LspSettings>) -> (value: Option<serde_json::Value>)
    ensures
        settings_content(value) == lsp_settings_value(settings.deep_view()),
{
    match settings {
        Some(found) => found.settings,
        None => None,
    }
}

/// The executable that the settings name, where they could be read and name one.
pub fn get_binary_path(settings: Option<LspSettings>) -> (path: Option<String>)
    ensures
        path.deep_view() == binary_setting(settings.deep_view()),
{
    if let Some(found) = settings {
        if let Some(binary) = found.binary {
            return binary.path;
        }
    }
    None
}

/// The options that the language server is initialized with: an object whose only member is the
/// settings value, or an empty object in its place.
pub open spec fn initialization_options(settings: Option<JsonView>) -> JsonView {
    JsonView::Object(
        empty_members().insert(
            "settings"@,
            match settings {
                Some(value) => value,
                None => JsonView::Object(empty_members()),
            },
        ),
    )
}

/// The settings value is found again in the options that the language server is initialized with.
pub proof fn options_hold_settings(value: JsonView)
    ensures
        json_member(initialization_options(Some(value)), "settings"@) == Some(value),
{
}

/// The language server is given the settings value as it stands, whatever the settings say of its
/// executable, and nothing where there is no value or the settings could not be read.
pub proof fn settings_are_passed_on(binary: Option<BinarySettingsView>, value: Option<JsonView>)
    ensures
        lsp_settings_value(Some(LspSettingsView { binary, settings: value })) == value,
        lsp_settings_value(None) is None,
{
}

/// The language server is initialized with an object that has one member, `settings`: the settings
/// value, whatever the settings say of its executable, or an object without members where there is
/// no value.
pub proof fn options_have_one_member(binary: Option<BinarySettingsView>, value: JsonView)
    ensures
        initialization_options(
            lsp_settings_value(Some(LspSettingsView { binary, settings: Some(value) })),
        ) == JsonView::Object(map!["settings"@ => value]),
        initialization_options(
            lsp_settings_value(Some(LspSettingsView { binary, settings: None })),
        ) == JsonView::Object(map!["settings"@ => JsonView::Object(Map::empty())]),
        initialization_options(lsp_settings_value(None)) == JsonView::Object(
            map!["settings"@ => JsonView::Object(Map::empty())],
        ),
{
    let none = Map::<Seq<char>, JsonView>::empty();
    assert(none.insert("settings"@, value) =~= map!["settings"@ => value]);
    assert(none.insert("settings"@, JsonView::Object(none))
        =~= map!["settings"@ => JsonView::Object(none)]);
}

/// The executable is the one that the settings name, whatever their value is; none where they name
/// none.
pub proof fn executable_is_the_named_one(path: Option<Seq<char>>, value: Option<JsonView>)
    ensures
        binary_setting(
            Some(
                LspSettingsView { binary: Some(BinarySettingsView { path }), settings: value },
            ),
        ) == path,
        binary_setting(Some(LspSettingsView { binary: None, settings: value })) is None,
        binary_setting(None) is None,
{
}

/// The options that the language server is initialized with.
pub fn language_server_initialization_options(settings: Option<LspSettings>) -> (options:
    serde_json::Value)
    ensures
        json_content(options) == initialization_options(lsp_settings_value(settings.deep_view())),
{
    let value = match get_settings(settings) {
        Some(value) => value,
        None => empty_object(),
    };
    object_with_member("settings".to_string(), value)
}

/// The configuration that the language server is given for a workspace: the settings value.
pub fn language_server_workspace_configuration(settings: Option<LspSettings>) -> (value: Option<
    serde_json::Value,
>)
    ensures
        settings_content(value) == lsp_settings_value(settings.deep_view()),
{
    get_settings(settings)
}

/// The target that the text of a project's settings names, if it is JSON and does.
pub open spec fn default_target(content: Seq<char>) -> Option<Seq<char>> {
    match json_of_text(content) {
        Some(value) => json_member_text(value, "xmake.defaultTarget"@),
        None => None,
    }
}

/// Where the settings of a project are, relative to its root, part by part.
pub fn project_settings_file() -> (parts: Vec<String>)
    ensures
        parts.deep_view() == seq![".zed"@, "settings.json"@],
{
    let parts = vec![".zed".to_string(), "settings.json".to_string()];
    assert(parts.deep_view() =~= seq![".zed"@, "settings.json"@]);
    parts
}

/// The target that the text of a project's settings names.
pub fn read_default_target(content: &str) -> (target: Option<String>)
    ensures
        target.deep_view() == default_target(content@),
{
    text_member_text(content, "xmake.defaultTarget")
}

/// The target of a task: what the settings of its project name, or `default`. A task without a
/// directory has no project.
pub open spec fn task_target(cwd: Option<Seq<char>>, content: Option<Seq<char>>) -> Seq<char> {
    match (cwd, content) {
        (Some(_), Some(text)) => match default_target(text) {
            Some(target) => target,
            None => "default"@,
        },
        _ => "default"@,
    }
}

/// The text under `xmake.defaultTarget` of the settings of a project is the target of a task there,
/// whatever else the settings hold.
pub proof fn named_target_is_taken(
    cwd: Seq<char>,
    content: Seq<char>,
    members: Map<Seq<char>, JsonView>,
    target: Seq<char>,
)
    requires
        json_of_text(content) == Some(
            JsonView::Object(members.insert("xmake.defaultTarget"@, JsonView::Text(target))),
        ),
    ensures
        default_target(content) == Some(target),
        task_target(Some(cwd), Some(content)) == target,
{
}

/// Without such a text the target is `default`, and so it is for a task without a directory and for
/// one whose project has no settings.
pub proof fn unnamed_target_is_default(cwd: Option<Seq<char>>, content: Option<Seq<char>>)
    requires
        cwd is None || content is None || !(json_of_text(content->0) matches Some(
            JsonView::Object(members),
        ) && members.contains_key("xmake.defaultTarget"@) && members["xmake.defaultTarget"@] is Text),
    ensures
        task_target(cwd, content) == "default"@,
        cwd is Some && content is Some ==> default_target(content->0) is None,
{
}

/// The target of a task that runs in `cwd`, given the text of the settings of the project there,
/// if they could be read.
pub fn get_target_name(cwd: &Option<String>, content: &Option<String>) -> (target: String)
    ensures
        target@ == task_target(cwd.deep_view(), content.deep_view()),
{
    if cwd.is_some() {
        if let Some(text) = content {
            if let Some(target) = read_default_target(text.as_str()) {
                return target;
            }
        }
    }
    "default".to_string()
}

} // verus!
