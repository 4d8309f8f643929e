//! What the extension asks of the editor and the machine, and what they answer.
//!
//! The decisions of the extension are step functions: each step either is finished or has one
//! request, and the reply to it gives the next step.
use vstd::prelude::*;

use crate::config::{XMakeDebugConfig, XMakeDebugConfigView};
use crate::json::JsonView;
use crate::platform::{settings_content, Architecture, DownloadedFileType, Os};
use crate::text::result_view;

verus! {

/// What the editor shows of the installation of the language server.
#[derive(Clone, Copy, Debug, PartialEq, Eq, Structural)]
pub enum InstallationStatus {
    CheckingForUpdate,
    Downloading,
}

/// The settings of a language server.
#[derive(Debug)]
pub struct LspSettings {
    pub binary: Option<BinarySettings>,
    pub settings: Option<serde_json::Value>,
}

/// The settings of the executable of a language server.
#[derive(Debug)]
pub struct BinarySettings {
    pub path: Option<String>,
}

#[verifier::ext_equal]
pub struct LspSettingsView {
    pub binary: Option<BinarySettingsView>,
    pub settings: Option<JsonView>,
}

#[verifier::ext_equal]
pub struct BinarySettingsView {
    pub path: Option<Seq<char>>,
}

impl DeepView for BinarySettings {
    type V = BinarySettingsView;

    open spec fn deep_view(&self) -> BinarySettingsView {
        BinarySettingsView { path: self.path.deep_view() }
    }
}

impl DeepView for LspSettings {
    type V = LspSettingsView;

    open spec fn deep_view(&self) -> LspSettingsView {
        LspSettingsView {
            binary: self.binary.deep_view(),
            settings: settings_content(self.settings),
        }
    }
}

/// A release on GitHub.
#[derive(Debug, PartialEq, Eq)]
pub struct Release {
    pub version: String,
    pub assets: Vec<Asset>,
}

/// A file of a release.
#[derive(Debug, PartialEq, Eq)]
pub struct Asset {
    pub name: String,
    pub download_url: String,
}

#[verifier::ext_equal]
pub struct ReleaseView {
    pub version: Seq<char>,
    pub assets: Seq<AssetView>,
}

#[verifier::ext_equal]
pub struct AssetView {
    pub name: Seq<char>,
    pub download_url: Seq<char>,
}

impl DeepView for Asset {
    type V = AssetView;

    open spec fn deep_view(&self) -> AssetView {
        AssetView { name: self.name@, download_url: self.download_url@ }
    }
}

impl DeepView for Release {
    type V = ReleaseView;

    open spec fn deep_view(&self) -> ReleaseView {
        ReleaseView { version: self.version@, assets: self.assets.deep_view() }
    }
}

/// What comes next in a directory that is walked.
#[derive(Debug, PartialEq, Eq)]
pub enum DirectoryEntry {
    /// Nothing: the walk is over.
    End,
    /// An entry, with its name if that is Unicode.
    Named(Option<String>),
    /// An entry that could not be read, and why.
    Unreadable(String),
}

#[verifier::ext_equal]
pub enum DirectoryEntryView {
    End,
    Named(Option<Seq<char>>),
    Unreadable(Seq<char>),
}

impl DeepView for DirectoryEntry {
    type V = DirectoryEntryView;

    open spec fn deep_view(&self) -> DirectoryEntryView {
        match self {
            DirectoryEntry::End => DirectoryEntryView::End,
            DirectoryEntry::Named(name) => DirectoryEntryView::Named(name.deep_view()),
            DirectoryEntry::Unreadable(reason) => DirectoryEntryView::Unreadable(reason@),
        }
    }
}

/// Where a script of the extension is.
#[derive(Debug, PartialEq, Eq)]
pub enum ScriptLookup {
    /// There is no such file.
    Missing,
    /// There is one, but its path is not Unicode.
    NotUnicode,
    /// At this path.
    At(String),
}

#[verifier::ext_equal]
pub enum ScriptLookupView {
    Missing,
    NotUnicode,
    At(Seq<char>),
}

impl DeepView for ScriptLookup {
    type V = ScriptLookupView;

    open spec fn deep_view(&self) -> ScriptLookupView {
        match self {
            ScriptLookup::Missing => ScriptLookupView::Missing,
            ScriptLookup::NotUnicode => ScriptLookupView::NotUnicode,
            ScriptLookup::At(path) => ScriptLookupView::At(path@),
        }
    }
}

/// Something to ask or to have done.
#[derive(Debug)]
pub enum Request {
    /// The settings of the language server with this name.
    LspSettings(String),
    /// The path of this program on the search path.
    Which(String),
    /// Whether there is a file at this path.
    IsFile(String),
    /// Whether there is anything at this path.
    PathExists(String),
    /// The value of this environment variable.
    EnvVar(String),
    /// The operating system and the architecture.
    CurrentPlatform,
    /// The root of the worktree.
    RootPath,
    /// Show this status.
    SetStatus(InstallationStatus),
    /// The latest release of a repository.
    LatestRelease { repository: String, require_assets: bool, pre_release: bool },
    /// Download a file and unpack it in a directory.
    DownloadFile { url: String, directory: String, file_type: DownloadedFileType },
    /// Begin to walk this directory.
    ListDirectory(String),
    /// The next entry of the directory that is walked.
    NextEntry,
    /// Remove the directory that the last entry names.
    RemoveEntry,
    /// Make the file at this path executable.
    MakeExecutable(String),
    /// Decode a debug configuration from JSON.
    DecodeConfig(String),
    /// Encode a debug configuration as JSON.
    EncodeConfig(XMakeDebugConfig),
    /// Find the script of the extension with this name.
    FindScript(String),
    /// Run a program in a directory and collect its output.
    RunProgram { program: String, args: Vec<String>, directory: String },
}

#[verifier::ext_equal]
pub enum RequestView {
    LspSettings(Seq<char>),
    Which(Seq<char>),
    IsFile(Seq<char>),
    PathExists(Seq<char>),
    EnvVar(Seq<char>),
    CurrentPlatform,
    RootPath,
    SetStatus(InstallationStatus),
    LatestRelease { repository: Seq<char>, require_assets: bool, pre_release: bool },
    DownloadFile { url: Seq<char>, directory: Seq<char>, file_type: DownloadedFileType },
    ListDirectory(Seq<char>),
    NextEntry,
    RemoveEntry,
    MakeExecutable(Seq<char>),
    DecodeConfig(Seq<char>),
    EncodeConfig(XMakeDebugConfigView),
    FindScript(Seq<char>),
    RunProgram { program: Seq<char>, args: Seq<Seq<char>>, directory: Seq<char> },
}

impl DeepView for Request {
    type V = RequestView;

    open spec fn deep_view(&self) -> RequestView {
        match self {
            Request::LspSettings(name) => RequestView::LspSettings(name@),
            Request::Which(name) => RequestView::Which(name@),
            Request::IsFile(path) => RequestView::IsFile(path@),
            Request::PathExists(path) => RequestView::PathExists(path@),
            Request::EnvVar(name) => RequestView::EnvVar(name@),
            Request::CurrentPlatform => RequestView::CurrentPlatform,
            Request::RootPath => RequestView::RootPath,
            Request::SetStatus(status) => RequestView::SetStatus(*status),
            Request::LatestRelease { repository, require_assets, pre_release } => {
                RequestView::LatestRelease {
                    repository: repository@,
                    require_assets: *require_assets,
                    pre_release: *pre_release,
                }
            },
            Request::DownloadFile { url, directory, file_type } => RequestView::DownloadFile {
                url: url@,
                directory: directory@,
                file_type: *file_type,
            },
            Request::ListDirectory(path) => RequestView::ListDirectory(path@),
            Request::NextEntry => RequestView::NextEntry,
            Request::RemoveEntry => RequestView::RemoveEntry,
            Request::MakeExecutable(path) => RequestView::MakeExecutable(path@),
            Request::DecodeConfig(text) => RequestView::DecodeConfig(text@),
            Request::EncodeConfig(config) => RequestView::EncodeConfig(config.deep_view()),
            Request::FindScript(name) => RequestView::FindScript(name@),
            Request::RunProgram { program, args, directory } => RequestView::RunProgram {
                program: program@,
                args: args.deep_view(),
                directory: directory@,
            },
        }
    }
}

/// An answer to a request.
#[derive(Debug)]
pub enum Reply {
    /// To `LspSettings`: the settings, if they could be read.
    Settings(Option<LspSettings>),
    /// To `Which`: the path, if there is such a program.
    Program(Option<String>),
    /// To `IsFile` and `PathExists`.
    Present(bool),
    /// To `EnvVar`: the value, if the variable has one.
    Variable(Option<String>),
    /// To `CurrentPlatform`.
    Platform(Os, Architecture),
    /// To `RootPath`.
    Root(String),
    /// To `SetStatus` and `RemoveEntry`.
    Acknowledged,
    /// To `LatestRelease`: the release, or why there is none.
    Release(Result<Release, String>),
    /// To `DownloadFile`, `ListDirectory` and `MakeExecutable`: done, or why not.
    Outcome(Result<(), String>),
    /// To `NextEntry`.
    Entry(DirectoryEntry),
    /// To `DecodeConfig`: the configuration, or what is wrong with the text.
    Decoded(Result<XMakeDebugConfig, String>),
    /// To `EncodeConfig`: the text, if there is one.
    Encoded(Option<String>),
    /// To `FindScript`.
    Script(ScriptLookup),
    /// To `RunProgram`: what the program wrote, if it could be run.
    Output(Option<Vec<u8>>),
}

#[verifier::ext_equal]
pub enum ReplyView {
    Settings(Option<LspSettingsView>),
    Program(Option<Seq<char>>),
    Present(bool),
    Variable(Option<Seq<char>>),
    Platform(Os, Architecture),
    Root(Seq<char>),
    Acknowledged,
    Release(Result<ReleaseView, Seq<char>>),
    Outcome(Result<(), Seq<char>>),
    Entry(DirectoryEntryView),
    Decoded(Result<XMakeDebugConfigView, Seq<char>>),
    Encoded(Option<Seq<char>>),
    Script(ScriptLookupView),
    Output(Option<Seq<u8>>),
}

impl DeepView for Reply {
    type V = ReplyView;

    open spec fn deep_view(&self) -> ReplyView {
        match self {
            Reply::Settings(settings) => ReplyView::Settings(settings.deep_view()),
            Reply::Program(path) => ReplyView::Program(path.deep_view()),
            Reply::Present(present) => ReplyView::Present(*present),
            Reply::Variable(value) => ReplyView::Variable(value.deep_view()),
            Reply::Platform(os, arch) => ReplyView::Platform(*os, *arch),
            Reply::Root(path) => ReplyView::Root(path@),
            Reply::Acknowledged => ReplyView::Acknowledged,
            Reply::Release(release) => ReplyView::Release(result_view(*release)),
            Reply::Outcome(outcome) => ReplyView::Outcome(result_view(*outcome)),
            Reply::Entry(entry) => ReplyView::Entry(entry.deep_view()),
            Reply::Decoded(config) => ReplyView::Decoded(result_view(*config)),
            Reply::Encoded(text) => ReplyView::Encoded(text.deep_view()),
            Reply::Script(script) => ReplyView::Script(script.deep_view()),
            Reply::Output(bytes) => ReplyView::Output(bytes.deep_view()),
        }
    }
}

/// Whether a reply is one to a request.
pub open spec fn fits(request: RequestView, reply: ReplyView) -> bool {
    match request {
        RequestView::LspSettings(_) => reply is Settings,
        RequestView::Which(_) => reply is Program,
        RequestView::IsFile(_) | RequestView::PathExists(_) => reply is Present,
        RequestView::EnvVar(_) => reply is Variable,
        RequestView::CurrentPlatform => reply is Platform,
        RequestView::RootPath => reply is Root,
        RequestView::SetStatus(_) | RequestView::RemoveEntry => reply is Acknowledged,
        RequestView::LatestRelease { .. } => reply is Release,
        RequestView::DownloadFile { .. } | RequestView::ListDirectory(_)
        | RequestView::MakeExecutable(_) => reply is Outcome,
        RequestView::NextEntry => reply is Entry,
        RequestView::DecodeConfig(_) => reply is Decoded,
        RequestView::EncodeConfig(_) => reply is Encoded,
        RequestView::FindScript(_) => reply is Script,
        RequestView::RunProgram { .. } => reply is Output,
    }
}

} // verus!
