//! The command that starts the language server.
use vstd::prelude::*;

use crate::host::{
    Asset, AssetView, DirectoryEntry, DirectoryEntryView, InstallationStatus, Release, ReleaseView,
    Reply, ReplyView, Request, RequestView,
};
use crate::json::JsonView;
use crate::platform::{
    package_for, server_package, settings_content, Architecture, DownloadedFileType, Os,
};
use crate::settings::{
    binary_setting, get_binary_path, get_settings, lsp_settings_value, settings_request,
};
use crate::text::{bracket_list, bracketed, quote, quoted, result_view, same_text};

verus! {

/// A command line, with its environment.
#[derive(Debug, PartialEq, Eq)]
pub struct Command {
    pub command: String,
    pub args: Vec<String>,
    pub env: Vec<(String, String)>,
}

#[verifier::ext_equal]
pub struct CommandView {
    pub command: Seq<char>,
    pub args: Seq<Seq<char>>,
    pub env: Seq<(Seq<char>, Seq<char>)>,
}

impl DeepView for Command {
    type V = CommandView;

    open spec fn deep_view(&self) -> CommandView {
        CommandView {
            command: self.command@,
            args: self.args.deep_view(),
            env: self.env.deep_view(),
        }
    }
}

/// The command that runs a program without arguments, in the given environment.
pub open spec fn bare_command(path: Seq<char>) -> CommandView {
    CommandView { command: path, args: seq![], env: seq![] }
}

/// How to install one release for one platform.
#[derive(Debug, PartialEq, Eq)]
pub struct InstallPlan {
    pub os: Os,
    pub url: String,
    pub file_type: DownloadedFileType,
    /// The directory that the release is unpacked in.
    pub version_dir: String,
    /// The executable in that directory.
    pub binary_path: String,
}

#[verifier::ext_equal]
pub struct InstallPlanView {
    pub os: Os,
    pub url: Seq<char>,
    pub file_type: DownloadedFileType,
    pub version_dir: Seq<char>,
    pub binary_path: Seq<char>,
}

impl DeepView for InstallPlan {
    type V = InstallPlanView;

    open spec fn deep_view(&self) -> InstallPlanView {
        InstallPlanView {
            os: self.os,
            url: self.url@,
            file_type: self.file_type,
            version_dir: self.version_dir@,
            binary_path: self.binary_path@,
        }
    }
}

/// The first asset with a name.
pub open spec fn asset_named(assets: Seq<AssetView>, name: Seq<char>) -> Option<AssetView>
    decreases assets.len(),
{
    if assets.len() == 0 {
        None
    } else if assets[0].name == name {
        Some(assets[0])
    } else {
        asset_named(assets.drop_first(), name)
    }
}

/// The names of assets, quoted.
pub open spec fn quoted_names(assets: Seq<AssetView>) -> Seq<Seq<char>> {
    assets.map_values(|asset: AssetView| quoted(asset.name))
}

/// What is said when a release has nothing for the platform, given the quoted names of the asset
/// that is wanted and of those that there are.
pub open spec fn no_asset_message(wanted: Seq<char>, available: Seq<Seq<char>>) -> Seq<char> {
    "no asset found matching "@ + wanted + ". Available: "@ + bracketed(available)
}

/// The directory that a release is unpacked in.
pub open spec fn version_directory(version: Seq<char>) -> Seq<char> {
    "xmake_ls-"@ + version
}

/// How to install a release for a platform, or why it cannot be installed there.
pub open spec fn plan_for(
    release: ReleaseView,
    os: Os,
    arch: Architecture,
    settings: Option<JsonView>,
) -> Result<InstallPlanView, Seq<char>> {
    match package_for(os, arch, settings) {
        Err(message) => Err(message),
        Ok(package) => match asset_named(release.assets, package.asset_name) {
            None => Err(
                no_asset_message(quoted(package.asset_name), quoted_names(release.assets)),
            ),
            Some(asset) => Ok(
                InstallPlanView {
                    os,
                    url: asset.download_url,
                    file_type: package.file_type,
                    version_dir: version_directory(release.version),
                    binary_path: version_directory(release.version) + "/"@ + package.binary_name,
                },
            ),
        },
    }
}

/// The names of assets, quoted.
fn quote_names(assets: &Vec<Asset>) -> (names: Vec<String>)
    ensures
        names.deep_view() == quoted_names(assets.deep_view()),
{
    let mut names: Vec<String> = Vec::new();
    for i in 0..assets.len()
        invariant
            names.deep_view() == quoted_names(assets.deep_view()).take(i as int),
    {
        let ghost before = names.deep_view();
        names.push(quote(&assets[i].name));
        proof {
            let all = quoted_names(assets.deep_view());
            assert(all.take(i + 1) =~= all.take(i as int).push(all[i as int]));
            assert(names.deep_view() =~= before.push(all[i as int]));
        }
    }
    proof {
        let all = quoted_names(assets.deep_view());
        assert(all.take(assets.len() as int) =~= all);
    }
    names
}

/// What is said when a release has nothing for the platform, given the quoted names of the asset
/// that is wanted and of those that there are.
pub fn say_no_asset(wanted: &str, available: &Vec<String>) -> (message: String)
    ensures
        message@ == no_asset_message(wanted@, available.deep_view()),
{
    "no asset found matching ".to_string().concat(wanted).concat(". Available: ").concat(
        bracket_list(available).as_str(),
    )
}

/// The download address of the first asset with a name.
fn find_asset(assets: &Vec<Asset>, name: &String) -> (url: Option<String>)
    ensures
        match url {
            Some(url) => asset_named(assets.deep_view(), name@) matches Some(asset)
                && asset.download_url == url@,
            None => asset_named(assets.deep_view(), name@) is None,
        },
{
    let ghost all = assets.deep_view();
    proof {
        assert(all.skip(0) =~= all);
    }
    for i in 0..assets.len()
        invariant
            all == assets.deep_view(),
            asset_named(all, name@) == asset_named(all.skip(i as int), name@),
    {
        proof {
            assert(all.skip(i as int)[0] == all[i as int]);
            assert(all.skip(i as int).drop_first() =~= all.skip(i + 1));
        }
        if assets[i].name == *name {
            return Some(assets[i].download_url.clone());
        }
    }
    None
}

/// How to install a release for a platform, or why it cannot be installed there.
pub fn plan_installation(
    release: &Release,
    os: Os,
    arch: Architecture,
    settings: &Option<serde_json::Value>,
) -> (result: Result<InstallPlan, String>)
    ensures
        result_view(result) == plan_for(
            release.deep_view(),
            os,
            arch,
            settings_content(*settings),
        ),
{
    let package = match server_package(os, arch, settings) {
        Ok(package) => package,
        Err(message) => {
            return Err(message);
        },
    };
    match find_asset(&release.assets, &package.asset_name) {
        None => Err(
            say_no_asset(
                quote(&package.asset_name).as_str(),
                &quote_names(&release.assets),
            ),
        ),
        Some(url) => {
            let version_dir = "xmake_ls-".to_string().concat(release.version.as_str());
            let binary_path = version_dir.clone().concat("/").concat(package.binary_name.as_str());
            Ok(InstallPlan { os, url, file_type: package.file_type, version_dir, binary_path })
        },
    }
}

/// A step towards the command that starts the language server.
#[derive(Debug, PartialEq, Eq)]
pub enum ServerStep {
    /// Asks for the settings, which may name the executable.
    ReadSettings,
    /// Asks for the executable on the search path.
    SearchPath,
    /// Asks whether the executable of an earlier start is still there.
    CheckCached(String),
    /// Shows that there may be something to install.
    AnnounceCheck,
    /// Asks for the latest release.
    FetchRelease,
    /// Asks for the platform.
    DetectPlatform(Release),
    /// Asks for the settings again, which may name the variant for Linux.
    ReadVariant(Release, Architecture),
    /// Asks whether the release is installed.
    CheckInstalled(InstallPlan),
    /// Shows that the release is downloaded.
    AnnounceDownload(InstallPlan),
    /// Downloads the release.
    Download(InstallPlan),
    /// Begins to walk the directory that releases are unpacked in.
    ListDirectory(InstallPlan),
    /// Asks for the next entry there.
    NextEntry(InstallPlan),
    /// Removes that entry.
    RemoveEntry(InstallPlan),
    /// Makes the executable one.
    MakeExecutable(InstallPlan),
    /// The command, or why there is none.
    Finished(Result<Command, String>),
}

#[verifier::ext_equal]
pub enum ServerView {
    ReadSettings,
    SearchPath,
    CheckCached(Seq<char>),
    AnnounceCheck,
    FetchRelease,
    DetectPlatform(ReleaseView),
    ReadVariant(ReleaseView, Architecture),
    CheckInstalled(InstallPlanView),
    AnnounceDownload(InstallPlanView),
    Download(InstallPlanView),
    ListDirectory(InstallPlanView),
    NextEntry(InstallPlanView),
    RemoveEntry(InstallPlanView),
    MakeExecutable(InstallPlanView),
    Finished(Result<CommandView, Seq<char>>),
}

impl DeepView for ServerStep {
    type V = ServerView;

    open spec fn deep_view(&self) -> ServerView {
        match self {
            ServerStep::ReadSettings => ServerView::ReadSettings,
            ServerStep::SearchPath => ServerView::SearchPath,
            ServerStep::CheckCached(path) => ServerView::CheckCached(path@),
            ServerStep::AnnounceCheck => ServerView::AnnounceCheck,
            ServerStep::FetchRelease => ServerView::FetchRelease,
            ServerStep::DetectPlatform(release) => ServerView::DetectPlatform(release.deep_view()),
            ServerStep::ReadVariant(release, arch) => ServerView::ReadVariant(
                release.deep_view(),
                *arch,
            ),
            ServerStep::CheckInstalled(plan) => ServerView::CheckInstalled(plan.deep_view()),
            ServerStep::AnnounceDownload(plan) => ServerView::AnnounceDownload(plan.deep_view()),
            ServerStep::Download(plan) => ServerView::Download(plan.deep_view()),
            ServerStep::ListDirectory(plan) => ServerView::ListDirectory(plan.deep_view()),
            ServerStep::NextEntry(plan) => ServerView::NextEntry(plan.deep_view()),
            ServerStep::RemoveEntry(plan) => ServerView::RemoveEntry(plan.deep_view()),
            ServerStep::MakeExecutable(plan) => ServerView::MakeExecutable(plan.deep_view()),
            ServerStep::Finished(result) => ServerView::Finished(result_view(*result)),
        }
    }
}

/// What a step asks; nothing once there is a command or an error.
pub open spec fn server_request(step: ServerView) -> Option<RequestView> {
    match step {
        ServerView::ReadSettings => Some(RequestView::LspSettings("xmake-ls"@)),
        ServerView::SearchPath => Some(RequestView::Which("xmake_ls"@)),
        ServerView::CheckCached(path) => Some(RequestView::IsFile(path)),
        ServerView::AnnounceCheck => Some(
            RequestView::SetStatus(InstallationStatus::CheckingForUpdate),
        ),
        ServerView::FetchRelease => Some(
            RequestView::LatestRelease {
                repository: "CppCXY/xmake_ls"@,
                require_assets: true,
                pre_release: false,
            },
        ),
        ServerView::DetectPlatform(_) => Some(RequestView::CurrentPlatform),
        ServerView::ReadVariant(_, _) => Some(RequestView::LspSettings("xmake-ls"@)),
        ServerView::CheckInstalled(plan) => Some(RequestView::IsFile(plan.binary_path)),
        ServerView::AnnounceDownload(_) => Some(
            RequestView::SetStatus(InstallationStatus::Downloading),
        ),
        ServerView::Download(plan) => Some(
            RequestView::DownloadFile {
                url: plan.url,
                directory: plan.version_dir,
                file_type: plan.file_type,
            },
        ),
        ServerView::ListDirectory(_) => Some(RequestView::ListDirectory("."@)),
        ServerView::NextEntry(_) => Some(RequestView::NextEntry),
        ServerView::RemoveEntry(_) => Some(RequestView::RemoveEntry),
        ServerView::MakeExecutable(plan) => Some(RequestView::MakeExecutable(plan.binary_path)),
        ServerView::Finished(_) => None,
    }
}

/// The step with the command that runs a program.
pub open spec fn finished_with(path: Seq<char>) -> ServerView {
    ServerView::Finished(Ok(bare_command(path)))
}

/// The step once the plan is known, or why there is none.
pub open spec fn planned(plan: Result<InstallPlanView, Seq<char>>) -> ServerView {
    match plan {
        Ok(plan) => ServerView::CheckInstalled(plan),
        Err(message) => ServerView::Finished(Err(message)),
    }
}

/// The step after a reply, and the executable that is remembered then. A reply to some other
/// request changes nothing.
pub open spec fn server_step(
    step: ServerView,
    cached: Option<Seq<char>>,
    reply: ReplyView,
) -> (ServerView, Option<Seq<char>>) {
    match (step, reply) {
        (ServerView::ReadSettings, ReplyView::Settings(settings)) => match binary_setting(
            settings,
        ) {
            Some(path) => (finished_with(path), cached),
            None => (ServerView::SearchPath, cached),
        },
        (ServerView::SearchPath, ReplyView::Program(found)) => match (found, cached) {
            (Some(path), _) => (finished_with(path), Some(path)),
            (None, Some(path)) => (ServerView::CheckCached(path), cached),
            (None, None) => (ServerView::AnnounceCheck, cached),
        },
        (ServerView::CheckCached(path), ReplyView::Present(present)) => if present {
            (finished_with(path), cached)
        } else {
            (ServerView::AnnounceCheck, cached)
        },
        (ServerView::AnnounceCheck, ReplyView::Acknowledged) => (ServerView::FetchRelease, cached),
        (ServerView::FetchRelease, ReplyView::Release(release)) => match release {
            Ok(release) => (ServerView::DetectPlatform(release), cached),
            Err(message) => (ServerView::Finished(Err(message)), cached),
        },
        (ServerView::DetectPlatform(release), ReplyView::Platform(os, arch)) => match os {
            Os::Linux => (ServerView::ReadVariant(release, arch), cached),
            _ => (planned(plan_for(release, os, arch, None)), cached),
        },
        (ServerView::ReadVariant(release, arch), ReplyView::Settings(settings)) => (
            planned(plan_for(release, Os::Linux, arch, lsp_settings_value(settings))),
            cached,
        ),
        (ServerView::CheckInstalled(plan), ReplyView::Present(present)) => if present {
            (finished_with(plan.binary_path), Some(plan.binary_path))
        } else {
            (ServerView::AnnounceDownload(plan), cached)
        },
        (ServerView::AnnounceDownload(plan), ReplyView::Acknowledged) => (
            ServerView::Download(plan),
            cached,
        ),
        (ServerView::Download(plan), ReplyView::Outcome(outcome)) => match outcome {
            Ok(_) => (ServerView::ListDirectory(plan), cached),
            Err(reason) => (
                ServerView::Finished(Err("failed to download file: "@ + reason)),
                cached,
            ),
        },
        (ServerView::ListDirectory(plan), ReplyView::Outcome(outcome)) => match outcome {
            Ok(_) => (ServerView::NextEntry(plan), cached),
            Err(reason) => (
                ServerView::Finished(Err("failed to list working directory "@ + reason)),
                cached,
            ),
        },
        (ServerView::NextEntry(plan), ReplyView::Entry(entry)) => match entry {
            DirectoryEntryView::Named(name) => if name == Some(plan.version_dir) {
                (ServerView::NextEntry(plan), cached)
            } else {
                (ServerView::RemoveEntry(plan), cached)
            },
            DirectoryEntryView::Unreadable(reason) => (
                ServerView::Finished(Err("failed to load directory entry "@ + reason)),
                cached,
            ),
            DirectoryEntryView::End => if plan.os == Os::Windows {
                (finished_with(plan.binary_path), Some(plan.binary_path))
            } else {
                (ServerView::MakeExecutable(plan), cached)
            },
        },
        (ServerView::RemoveEntry(plan), ReplyView::Acknowledged) => (
            ServerView::NextEntry(plan),
            cached,
        ),
        (ServerView::MakeExecutable(plan), ReplyView::Outcome(outcome)) => match outcome {
            Ok(_) => (finished_with(plan.binary_path), Some(plan.binary_path)),
            Err(message) => (ServerView::Finished(Err(message)), cached),
        },
        _ => (step, cached),
    }
}

/// The command that runs a program without arguments.
fn bare(path: String) -> (command: Command)
    ensures
        command.deep_view() == bare_command(path@),
{
    let command = Command { command: path, args: vec![], env: vec![] };
    assert(command.deep_view() =~= bare_command(path@));
    command
}

/// The step once the plan is known, or why there is none.
fn follow_plan(plan: Result<InstallPlan, String>) -> (step: ServerStep)
    ensures
        step.deep_view() == planned(result_view(plan)),
{
    match plan {
        Ok(plan) => ServerStep::CheckInstalled(plan),
        Err(message) => ServerStep::Finished(Err(message)),
    }
}

/// The extension: it remembers the executable of the language server between starts.
#[derive(Debug, PartialEq, Eq)]
pub struct XMakeExtension {
    pub cached_binary_path: Option<String>,
}

impl XMakeExtension {
    /// An extension that remembers nothing.
    pub fn new() -> (extension: Self)
        ensures
            extension.cached_binary_path is None,
    {
        XMakeExtension { cached_binary_path: None }
    }

    /// The first step towards the command that starts the language server.
    pub fn language_server_command(&self) -> (step: ServerStep)
        ensures
            step.deep_view() == ServerView::ReadSettings,
    {
        ServerStep::ReadSettings
    }

    /// The step after a reply. A reply to some other request changes nothing.
    pub fn advance(&mut self, step: ServerStep, reply: Reply) -> (next: ServerStep)
        ensures
            (next.deep_view(), final(self).cached_binary_path.deep_view()) == server_step(
                step.deep_view(),
                old(self).cached_binary_path.deep_view(),
                reply.deep_view(),
            ),
    {
        match (step, reply) {
            (ServerStep::ReadSettings, Reply::Settings(settings)) => {
                match get_binary_path(settings) {
                    Some(path) => ServerStep::Finished(Ok(bare(path))),
                    None => ServerStep::SearchPath,
                }
            },
            (ServerStep::SearchPath, Reply::Program(found)) => {
                if let Some(path) = found {
                    self.cached_binary_path = Some(path.clone());
                    return ServerStep::Finished(Ok(bare(path)));
                }
                match &self.cached_binary_path {
                    Some(path) => ServerStep::CheckCached(path.clone()),
                    None => ServerStep::AnnounceCheck,
                }
            },
            (ServerStep::CheckCached(path), Reply::Present(present)) => if present {
                ServerStep::Finished(Ok(bare(path)))
            } else {
                ServerStep::AnnounceCheck
            },
            (ServerStep::AnnounceCheck, Reply::Acknowledged) => ServerStep::FetchRelease,
            (ServerStep::FetchRelease, Reply::Release(release)) => match release {
                Ok(release) => ServerStep::DetectPlatform(release),
                Err(message) => ServerStep::Finished(Err(message)),
            },
            (ServerStep::DetectPlatform(release), Reply::Platform(os, arch)) => match os {
                Os::Linux => ServerStep::ReadVariant(release, arch),
                _ => follow_plan(plan_installation(&release, os, arch, &None)),
            },
            (ServerStep::ReadVariant(release, arch), Reply::Settings(settings)) => {
                let value = get_settings(settings);
                follow_plan(plan_installation(&release, Os::Linux, arch, &value))
            },
            (ServerStep::CheckInstalled(plan), Reply::Present(present)) => if present {
                self.finish(plan)
            } else {
                ServerStep::AnnounceDownload(plan)
            },
            (ServerStep::AnnounceDownload(plan), Reply::Acknowledged) => ServerStep::Download(plan),
            (ServerStep::Download(plan), Reply::Outcome(outcome)) => match outcome {
                Ok(_) => ServerStep::ListDirectory(plan),
                Err(reason) => ServerStep::Finished(
                    Err("failed to download file: ".to_string().concat(reason.as_str())),
                ),
            },
            (ServerStep::ListDirectory(plan), Reply::Outcome(outcome)) => match outcome {
                Ok(_) => ServerStep::NextEntry(plan),
                Err(reason) => ServerStep::Finished(
                    Err("failed to list working directory ".to_string().concat(reason.as_str())),
                ),
            },
            (ServerStep::NextEntry(plan), Reply::Entry(entry)) => match entry {
                DirectoryEntry::Named(name) => {
                    let keep = match name {
                        Some(name) => same_text(name.as_str(), plan.version_dir.as_str()),
                        None => false,
                    };
                    if keep {
                        ServerStep::NextEntry(plan)
                    } else {
                        ServerStep::RemoveEntry(plan)
                    }
                },
                DirectoryEntry::Unreadable(reason) => ServerStep::Finished(
                    Err("failed to load directory entry ".to_string().concat(reason.as_str())),
                ),
                DirectoryEntry::End => if plan.os == Os::Windows {
                    self.finish(plan)
                } else {
                    ServerStep::MakeExecutable(plan)
                },
            },
            (ServerStep::RemoveEntry(plan), Reply::Acknowledged) => ServerStep::NextEntry(plan),
            (ServerStep::MakeExecutable(plan), Reply::Outcome(outcome)) => match outcome {
                Ok(_) => self.finish(plan),
                Err(message) => ServerStep::Finished(Err(message)),
            },
            (step, _) => step,
        }
    }

    /// Remembers the installed executable and gives the command that runs it.
    fn finish(&mut self, plan: InstallPlan) -> (step: ServerStep)
        ensures
            step.deep_view() == finished_with(plan.binary_path@),
            final(self).cached_binary_path.deep_view() == Some(plan.binary_path@),
    {
        self.cached_binary_path = Some(plan.binary_path.clone());
        ServerStep::Finished(Ok(bare(plan.binary_path)))
    }
}

impl ServerStep {
    /// What this step asks; nothing once there is a command or an error.
    pub fn request(&self) -> (request: Option<Request>)
        ensures
            request.deep_view() == server_request(self.deep_view()),
    {
        match self {
            ServerStep::ReadSettings => Some(settings_request()),
            ServerStep::SearchPath => Some(Request::Which("xmake_ls".to_string())),
            ServerStep::CheckCached(path) => Some(Request::IsFile(path.clone())),
            ServerStep::AnnounceCheck => Some(
                Request::SetStatus(InstallationStatus::CheckingForUpdate),
            ),
            ServerStep::FetchRelease => Some(
                Request::LatestRelease {
                    repository: "CppCXY/xmake_ls".to_string(),
                    require_assets: true,
                    pre_release: false,
                },
            ),
            ServerStep::DetectPlatform(_) => Some(Request::CurrentPlatform),
            ServerStep::ReadVariant(_, _) => Some(settings_request()),
            ServerStep::CheckInstalled(plan) => Some(Request::IsFile(plan.binary_path.clone())),
            ServerStep::AnnounceDownload(_) => Some(
                Request::SetStatus(InstallationStatus::Downloading),
            ),
            ServerStep::Download(plan) => Some(
                Request::DownloadFile {
                    url: plan.url.clone(),
                    directory: plan.version_dir.clone(),
                    file_type: plan.file_type,
                },
            ),
            ServerStep::ListDirectory(_) => Some(Request::ListDirectory(".".to_string())),
            ServerStep::NextEntry(_) => Some(Request::NextEntry),
            ServerStep::RemoveEntry(_) => Some(Request::RemoveEntry),
            ServerStep::MakeExecutable(plan) => Some(
                Request::MakeExecutable(plan.binary_path.clone()),
            ),
            ServerStep::Finished(_) => None,
        }
    }
}

} // verus!
