//! Views leave nothing out: values with one view have the same content.
use vstd::prelude::*;

use crate::adapter::{DebugAdapterBinary, Session};
use crate::config::XMakeDebugConfig;
use crate::debugger::{Located, Probe};
use crate::host::{Asset, BinarySettings, LspSettings, Release, Reply, Request, ScriptLookup};
use crate::json::json_content;
use crate::locator::LocatorJob;
use crate::platform::ServerPackage;
use crate::scenario::{
    BuildTask, DebugConfig, DebugRequest, DebugScenario, ScenarioDraft, TaskTemplate,
};
use crate::server::{Command, InstallPlan};

verus! {

/// Two optional texts with the same content.
pub open spec fn same_option(left: Option<String>, right: Option<String>) -> bool {
    match (left, right) {
        (Some(one), Some(other)) => one@ == other@,
        (None, None) => true,
        _ => false,
    }
}

/// Two lists of texts with the same content.
pub open spec fn same_texts(left: Vec<String>, right: Vec<String>) -> bool {
    left.len() == right.len() && forall|i: int|
        0 <= i < left.len() ==> (#[trigger] left[i])@ == right[i]@
}

/// Two lists of pairs of texts with the same content.
pub open spec fn same_pairs(left: Vec<(String, String)>, right: Vec<(String, String)>) -> bool {
    left.len() == right.len() && forall|i: int|
        0 <= i < left.len() ==> (#[trigger] left[i]).0@ == right[i].0@ && left[i].1@ == right[i].1@
}

proof fn lemma_texts(left: Vec<String>, right: Vec<String>)
    requires
        left.deep_view() == right.deep_view(),
    ensures
        same_texts(left, right),
{
    assert(left.deep_view().len() == left.len() && right.deep_view().len() == right.len());
    assert forall|i: int| 0 <= i < left.len() implies (#[trigger] left[i])@ == right[i]@ by {
        assert(left.deep_view()[i] == left[i]@);
        assert(right.deep_view()[i] == right[i]@);
    }
}

proof fn lemma_pairs(left: Vec<(String, String)>, right: Vec<(String, String)>)
    requires
        left.deep_view() == right.deep_view(),
    ensures
        same_pairs(left, right),
{
    assert(left.deep_view().len() == left.len() && right.deep_view().len() == right.len());
    assert forall|i: int| 0 <= i < left.len() implies (#[trigger] left[i]).0@ == right[i].0@
        && left[i].1@ == right[i].1@ by {
        assert(left.deep_view()[i] == (left[i].0@, left[i].1@));
        assert(right.deep_view()[i] == (right[i].0@, right[i].1@));
    }
}

/// Debug configurations.
pub proof fn view_of_a_configuration(left: XMakeDebugConfig, right: XMakeDebugConfig)
    requires
        left.deep_view() == right.deep_view(),
    ensures
        same_option(left.program, right.program),
        match (left.args, right.args) {
            (Some(one), Some(other)) => same_texts(one, other),
            (None, None) => true,
            _ => false,
        },
        same_option(left.cwd, right.cwd),
        left.env.deep_view() == right.env.deep_view(),
        left.request@ == right.request@,
        left.stop_at_entry == right.stop_at_entry,
        left.pid == right.pid,
        same_option(left.debugger, right.debugger),
{
    if let (Some(one), Some(other)) = (left.args, right.args) {
        lemma_texts(one, other);
    }
}

/// Tasks.
pub proof fn view_of_a_task(left: TaskTemplate, right: TaskTemplate)
    requires
        left.deep_view() == right.deep_view(),
    ensures
        left.label@ == right.label@,
        left.command@ == right.command@,
        same_texts(left.args, right.args),
        same_pairs(left.env, right.env),
        same_option(left.cwd, right.cwd),
{
    lemma_texts(left.args, right.args);
    lemma_pairs(left.env, right.env);
}

/// Tasks that build what is debugged.
pub proof fn view_of_a_build_task(left: BuildTask, right: BuildTask)
    requires
        left.deep_view() == right.deep_view(),
    ensures
        same_option(left.locator_name, right.locator_name),
        left.template.deep_view() == right.template.deep_view(),
{
}

/// Scenarios.
pub proof fn view_of_a_scenario(left: DebugScenario, right: DebugScenario)
    requires
        left.deep_view() == right.deep_view(),
    ensures
        left.label@ == right.label@,
        left.adapter@ == right.adapter@,
        match (left.build, right.build) {
            (Some(one), Some(other)) => one.deep_view() == other.deep_view(),
            (None, None) => true,
            _ => false,
        },
        left.config@ == right.config@,
        left.tcp_connection == right.tcp_connection,
{
}

/// Scenarios that are still to be encoded.
pub proof fn view_of_a_draft(left: ScenarioDraft, right: ScenarioDraft)
    requires
        left.deep_view() == right.deep_view(),
    ensures
        left.label@ == right.label@,
        left.adapter@ == right.adapter@,
        match (left.build, right.build) {
            (Some(one), Some(other)) => one.deep_view() == other.deep_view(),
            (None, None) => true,
            _ => false,
        },
        left.config.deep_view() == right.config.deep_view(),
{
}

/// What the user asks for.
pub proof fn view_of_a_dialog(left: DebugConfig, right: DebugConfig)
    requires
        left.deep_view() == right.deep_view(),
    ensures
        left.label@ == right.label@,
        left.adapter@ == right.adapter@,
        left.stop_on_entry == right.stop_on_entry,
        match (left.request, right.request) {
            (DebugRequest::Launch(one), DebugRequest::Launch(other)) => {
                &&& one.program@ == other.program@
                &&& same_option(one.cwd, other.cwd)
                &&& same_texts(one.args, other.args)
                &&& same_pairs(one.envs, other.envs)
            },
            (DebugRequest::Attach(one), DebugRequest::Attach(other)) => one.process_id
                == other.process_id,
            _ => false,
        },
{
    if let (DebugRequest::Launch(one), DebugRequest::Launch(other)) = (
        left.request,
        right.request,
    ) {
        lemma_texts(one.args, other.args);
        lemma_pairs(one.envs, other.envs);
    }
}

/// Debug adapters.
pub proof fn view_of_an_adapter(left: DebugAdapterBinary, right: DebugAdapterBinary)
    requires
        left.deep_view() == right.deep_view(),
    ensures
        same_option(left.command, right.command),
        same_texts(left.arguments, right.arguments),
        left.envs.deep_view() == right.envs.deep_view(),
        same_option(left.cwd, right.cwd),
        left.connection == right.connection,
        left.request_args.configuration@ == right.request_args.configuration@,
        left.request_args.request == right.request_args.request,
{
    lemma_texts(left.arguments, right.arguments);
}

/// Sessions, debuggers that were found, and places where they may be.
pub proof fn view_of_a_session(
    left: Session,
    right: Session,
    found: Located,
    other: Located,
    place: Probe,
    another: Probe,
)
    ensures
        left.deep_view() == right.deep_view() ==> left.configuration@ == right.configuration@
            && same_option(left.adapter_path, right.adapter_path),
        found.deep_view() == other.deep_view() ==> found.path@ == other.path@ && same_texts(
            found.args,
            other.args,
        ),
        place.deep_view() == another.deep_view() ==> match (place, another) {
            (Probe::OnPath { name, args }, Probe::OnPath { name: named, args: given }) => name@
                == named@ && same_texts(args, given),
            (Probe::AtPath(path), Probe::AtPath(at)) => path@ == at@,
            _ => false,
        },
{
    if found.deep_view() == other.deep_view() {
        lemma_texts(found.args, other.args);
    }
    if place.deep_view() == another.deep_view() {
        if let (Probe::OnPath { args, .. }, Probe::OnPath { args: given, .. }) = (place, another) {
            lemma_texts(args, given);
        }
    }
}

/// Tasks that are to become scenarios.
pub proof fn view_of_a_job(left: LocatorJob, right: LocatorJob)
    requires
        left.deep_view() == right.deep_view(),
    ensures
        left.target@ == right.target@,
        same_texts(left.args, right.args),
        same_pairs(left.env, right.env),
        left.cwd@ == right.cwd@,
        left.label@ == right.label@,
        left.adapter@ == right.adapter@,
{
    lemma_texts(left.args, right.args);
    lemma_pairs(left.env, right.env);
}

/// Commands.
pub proof fn view_of_a_command(left: Command, right: Command)
    requires
        left.deep_view() == right.deep_view(),
    ensures
        left.command@ == right.command@,
        same_texts(left.args, right.args),
        same_pairs(left.env, right.env),
{
    lemma_texts(left.args, right.args);
    lemma_pairs(left.env, right.env);
}

/// Plans and packages.
pub proof fn view_of_a_plan(
    left: InstallPlan,
    right: InstallPlan,
    package: ServerPackage,
    other: ServerPackage,
)
    ensures
        left.deep_view() == right.deep_view() ==> {
            &&& left.os == right.os
            &&& left.url@ == right.url@
            &&& left.file_type == right.file_type
            &&& left.version_dir@ == right.version_dir@
            &&& left.binary_path@ == right.binary_path@
        },
        package.deep_view() == other.deep_view() ==> {
            &&& package.asset_name@ == other.asset_name@
            &&& package.file_type == other.file_type
            &&& package.binary_name@ == other.binary_name@
        },
{
}

/// Releases and their files.
pub proof fn view_of_a_release(left: Release, right: Release, asset: Asset, other: Asset)
    ensures
        left.deep_view() == right.deep_view() ==> left.version@ == right.version@
            && left.assets.deep_view() == right.assets.deep_view(),
        asset.deep_view() == other.deep_view() ==> asset.name@ == other.name@
            && asset.download_url@ == other.download_url@,
{
}

/// Settings.
pub proof fn view_of_settings(
    left: LspSettings,
    right: LspSettings,
    binary: BinarySettings,
    other: BinarySettings,
)
    ensures
        left.deep_view() == right.deep_view() ==> {
            &&& match (left.binary, right.binary) {
                (Some(one), Some(another)) => one.deep_view() == another.deep_view(),
                (None, None) => true,
                _ => false,
            }
            &&& match (left.settings, right.settings) {
                (Some(one), Some(another)) => json_content(one) == json_content(another),
                (None, None) => true,
                _ => false,
            }
        },
        binary.deep_view() == other.deep_view() ==> same_option(binary.path, other.path),
{
}

/// Requests.
pub proof fn view_of_a_request(left: Request, right: Request)
    requires
        left.deep_view() == right.deep_view(),
    ensures
        match (left, right) {
            (Request::LspSettings(one), Request::LspSettings(other)) => one@ == other@,
            (Request::Which(one), Request::Which(other)) => one@ == other@,
            (Request::IsFile(one), Request::IsFile(other)) => one@ == other@,
            (Request::PathExists(one), Request::PathExists(other)) => one@ == other@,
            (Request::EnvVar(one), Request::EnvVar(other)) => one@ == other@,
            (Request::CurrentPlatform, Request::CurrentPlatform) => true,
            (Request::RootPath, Request::RootPath) => true,
            (Request::SetStatus(one), Request::SetStatus(other)) => one == other,
            (
                Request::LatestRelease { repository, require_assets, pre_release },
                Request::LatestRelease {
                    repository: other,
                    require_assets: required,
                    pre_release: preview,
                },
            ) => repository@ == other@ && require_assets == required && pre_release == preview,
            (
                Request::DownloadFile { url, directory, file_type },
                Request::DownloadFile { url: other, directory: place, file_type: kind },
            ) => url@ == other@ && directory@ == place@ && file_type == kind,
            (Request::ListDirectory(one), Request::ListDirectory(other)) => one@ == other@,
            (Request::NextEntry, Request::NextEntry) => true,
            (Request::RemoveEntry, Request::RemoveEntry) => true,
            (Request::MakeExecutable(one), Request::MakeExecutable(other)) => one@ == other@,
            (Request::DecodeConfig(one), Request::DecodeConfig(other)) => one@ == other@,
            (Request::EncodeConfig(one), Request::EncodeConfig(other)) => one.deep_view()
                == other.deep_view(),
            (Request::FindScript(one), Request::FindScript(other)) => one@ == other@,
            (
                Request::RunProgram { program, args, directory },
                Request::RunProgram { program: other, args: given, directory: place },
            ) => program@ == other@ && same_texts(args, given) && directory@ == place@,
            _ => false,
        },
{
    if let (Request::RunProgram { args, .. }, Request::RunProgram { args: given, .. }) = (
        left,
        right,
    ) {
        lemma_texts(args, given);
    }
}

/// Replies.
pub proof fn view_of_a_reply(left: Reply, right: Reply)
    requires
        left.deep_view() == right.deep_view(),
    ensures
        match (left, right) {
            (Reply::Settings(one), Reply::Settings(other)) => one.deep_view() == other.deep_view(),
            (Reply::Program(one), Reply::Program(other)) => same_option(one, other),
            (Reply::Present(one), Reply::Present(other)) => one == other,
            (Reply::Variable(one), Reply::Variable(other)) => same_option(one, other),
            (Reply::Platform(os, arch), Reply::Platform(other, another)) => os == other && arch
                == another,
            (Reply::Root(one), Reply::Root(other)) => one@ == other@,
            (Reply::Acknowledged, Reply::Acknowledged) => true,
            (Reply::Release(one), Reply::Release(other)) => match (one, other) {
                (Ok(release), Ok(another)) => release.deep_view() == another.deep_view(),
                (Err(message), Err(another)) => message@ == another@,
                _ => false,
            },
            (Reply::Outcome(one), Reply::Outcome(other)) => match (one, other) {
                (Ok(_), Ok(_)) => true,
                (Err(message), Err(another)) => message@ == another@,
                _ => false,
            },
            (Reply::Entry(one), Reply::Entry(other)) => one.deep_view() == other.deep_view(),
            (Reply::Decoded(one), Reply::Decoded(other)) => match (one, other) {
                (Ok(config), Ok(another)) => config.deep_view() == another.deep_view(),
                (Err(message), Err(another)) => message@ == another@,
                _ => false,
            },
            (Reply::Encoded(one), Reply::Encoded(other)) => same_option(one, other),
            (Reply::Script(one), Reply::Script(other)) => match (one, other) {
                (ScriptLookup::Missing, ScriptLookup::Missing) => true,
                (ScriptLookup::NotUnicode, ScriptLookup::NotUnicode) => true,
                (ScriptLookup::At(path), ScriptLookup::At(another)) => path@ == another@,
                _ => false,
            },
            (Reply::Output(one), Reply::Output(other)) => match (one, other) {
                (Some(bytes), Some(others)) => bytes@ == others@,
                (None, None) => true,
                _ => false,
            },
            _ => false,
        },
{
    if let (Reply::Output(Some(bytes)), Reply::Output(Some(others))) = (left, right) {
        assert(bytes.deep_view() =~= bytes@);
        assert(others.deep_view() =~= others@);
    }
}

} // verus!
