//! A world that answers requests: the editor and the machine, while they stay as they are.
use vstd::prelude::*;

use crate::config::XMakeDebugConfigView;
use crate::host::{
    DirectoryEntryView, LspSettingsView, ReleaseView, ReplyView, RequestView, ScriptLookupView,
};
use crate::platform::{Architecture, DownloadedFileType, Os};

verus! {

/// What the editor and the machine answer, while they stay as they are: a request that is made
/// twice in one world gets the same answer, but for the entries of a directory that is walked. The
/// step functions say what follows from answers that differ.
pub struct World {
    /// The settings of a language server.
    pub settings: spec_fn(Seq<char>) -> Option<LspSettingsView>,
    /// The path of a program.
    pub which: spec_fn(Seq<char>) -> Option<Seq<char>>,
    /// Whether there is a file at a path.
    pub is_file: spec_fn(Seq<char>) -> bool,
    /// Whether there is anything at a path.
    pub exists: spec_fn(Seq<char>) -> bool,
    /// The value of an environment variable.
    pub variable: spec_fn(Seq<char>) -> Option<Seq<char>>,
    pub os: Os,
    pub arch: Architecture,
    /// The root of the worktree.
    pub root: Seq<char>,
    /// The latest release of a repository.
    pub release: spec_fn(Seq<char>, bool, bool) -> Result<ReleaseView, Seq<char>>,
    /// How a download ends.
    pub download: spec_fn(Seq<char>, Seq<char>, DownloadedFileType) -> Result<(), Seq<char>>,
    /// Whether a directory can be walked.
    pub listing: spec_fn(Seq<char>) -> Result<(), Seq<char>>,
    /// The entries that are still to come in the directory that is walked: the name of each, if
    /// it is Unicode, or why it cannot be read.
    pub entries: Seq<Result<Option<Seq<char>>, Seq<char>>>,
    /// Whether a file can be made executable.
    pub executable: spec_fn(Seq<char>) -> Result<(), Seq<char>>,
    /// The configuration that a text decodes to.
    pub decode: spec_fn(Seq<char>) -> Result<XMakeDebugConfigView, Seq<char>>,
    /// The text that a configuration is encoded as.
    pub encode: spec_fn(XMakeDebugConfigView) -> Option<Seq<char>>,
    /// Where a script is.
    pub script: spec_fn(Seq<char>) -> ScriptLookupView,
    /// What a program writes.
    pub output: spec_fn(Seq<char>, Seq<Seq<char>>, Seq<char>) -> Option<Seq<u8>>,
}

/// What a world answers to a request.
pub open spec fn answer(world: World, request: RequestView) -> ReplyView {
    match request {
        RequestView::LspSettings(name) => ReplyView::Settings((world.settings)(name)),
        RequestView::Which(name) => ReplyView::Program((world.which)(name)),
        RequestView::IsFile(path) => ReplyView::Present((world.is_file)(path)),
        RequestView::PathExists(path) => ReplyView::Present((world.exists)(path)),
        RequestView::EnvVar(name) => ReplyView::Variable((world.variable)(name)),
        RequestView::CurrentPlatform => ReplyView::Platform(world.os, world.arch),
        RequestView::RootPath => ReplyView::Root(world.root),
        RequestView::SetStatus(_) => ReplyView::Acknowledged,
        RequestView::LatestRelease { repository, require_assets, pre_release } => {
            ReplyView::Release((world.release)(repository, require_assets, pre_release))
        },
        RequestView::DownloadFile { url, directory, file_type } => ReplyView::Outcome(
            (world.download)(url, directory, file_type),
        ),
        RequestView::ListDirectory(path) => ReplyView::Outcome((world.listing)(path)),
        RequestView::NextEntry => ReplyView::Entry(
            if world.entries.len() == 0 {
                DirectoryEntryView::End
            } else {
                match world.entries[0] {
                    Ok(name) => DirectoryEntryView::Named(name),
                    Err(reason) => DirectoryEntryView::Unreadable(reason),
                }
            },
        ),
        RequestView::RemoveEntry => ReplyView::Acknowledged,
        RequestView::MakeExecutable(path) => ReplyView::Outcome((world.executable)(path)),
        RequestView::DecodeConfig(text) => ReplyView::Decoded((world.decode)(text)),
        RequestView::EncodeConfig(config) => ReplyView::Encoded((world.encode)(config)),
        RequestView::FindScript(name) => ReplyView::Script((world.script)(name)),
        RequestView::RunProgram { program, args, directory } => ReplyView::Output(
            (world.output)(program, args, directory),
        ),
    }
}

/// The world after it answered a request: a walk through a directory goes on.
pub open spec fn after(world: World, request: RequestView) -> World {
    match request {
        RequestView::NextEntry => World {
            entries: if world.entries.len() == 0 {
                world.entries
            } else {
                world.entries.drop_first()
            },
            ..world
        },
        _ => world,
    }
}

} // verus!
