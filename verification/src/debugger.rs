//! The search for a debugger that speaks the Debug Adapter Protocol.
use vstd::prelude::*;

use crate::host::{Reply, ReplyView, Request, RequestView};
use crate::platform::Os;
use crate::text::result_view;

verus! {

/// A debugger.
#[derive(Clone, Copy, Debug, PartialEq, Eq, Structural)]
pub enum Debugger {
    Lldb,
    Gdb,
}

/// A debugger that was found: its executable, and the arguments that make it an adapter.
#[derive(Debug, PartialEq, Eq)]
pub struct Located {
    pub path: String,
    pub args: Vec<String>,
}

#[verifier::ext_equal]
pub struct LocatedView {
    pub path: Seq<char>,
    pub args: Seq<Seq<char>>,
}

impl DeepView for Located {
    type V = LocatedView;

    open spec fn deep_view(&self) -> LocatedView {
        LocatedView { path: self.path@, args: self.args.deep_view() }
    }
}

/// A place where a debugger may be.
#[derive(Debug, PartialEq, Eq)]
pub enum Probe {
    /// On the search path, under a name, to be run with these arguments.
    OnPath { name: String, args: Vec<String> },
    /// At a path.
    AtPath(String),
}

#[verifier::ext_equal]
pub enum ProbeView {
    OnPath { name: Seq<char>, args: Seq<Seq<char>> },
    AtPath(Seq<char>),
}

impl DeepView for Probe {
    type V = ProbeView;

    open spec fn deep_view(&self) -> ProbeView {
        match self {
            Probe::OnPath { name, args } => ProbeView::OnPath {
                name: name@,
                args: args.deep_view(),
            },
            Probe::AtPath(path) => ProbeView::AtPath(path@),
        }
    }
}

/// Where a debugger is looked for, in this order. On Windows, `program_file_probes` follow for
/// LLDB.
pub open spec fn platform_probes(debugger: Debugger, os: Os) -> Seq<ProbeView> {
    match (debugger, os) {
        (Debugger::Lldb, Os::Mac) => seq![
            ProbeView::OnPath { name: "xcrun"@, args: seq!["lldb-dap"@] },
            ProbeView::OnPath { name: "lldb-dap"@, args: seq![] },
            ProbeView::AtPath("/opt/homebrew/bin/lldb-dap"@),
            ProbeView::AtPath("/usr/local/bin/lldb-dap"@),
            ProbeView::AtPath("/usr/bin/lldb-dap"@),
        ],
        (Debugger::Lldb, Os::Linux) => seq![
            ProbeView::OnPath { name: "lldb-dap"@, args: seq![] },
            ProbeView::OnPath { name: "lldb-dap-20"@, args: seq![] },
            ProbeView::AtPath("/usr/bin/lldb-dap"@),
            ProbeView::AtPath("/usr/local/bin/lldb-dap"@),
        ],
        (Debugger::Lldb, Os::Windows) => seq![
            ProbeView::OnPath { name: "lldb-dap.exe"@, args: seq![] },
        ],
        (Debugger::Gdb, Os::Windows) => seq![
            ProbeView::OnPath { name: "gdb.exe"@, args: seq!["-i"@, "dap"@] },
            ProbeView::OnPath { name: "gdb"@, args: seq!["-i"@, "dap"@] },
        ],
        (Debugger::Gdb, _) => seq![
            ProbeView::OnPath { name: "gdb"@, args: seq!["-i"@, "dap"@] },
        ],
    }
}

/// Where LLDB may be installed on Windows, given the two directories for programs.
pub open spec fn program_file_probes(program_files: Seq<char>, program_files_x86: Seq<char>) -> Seq<
    ProbeView,
> {
    seq![
        ProbeView::AtPath(program_files + "\\LLVM\\bin\\lldb-dap.exe"@),
        ProbeView::AtPath(program_files_x86 + "\\LLVM\\bin\\lldb-dap.exe"@),
        ProbeView::AtPath("C:\\msys64\\mingw64\\bin\\lldb-dap.exe"@),
    ]
}

/// Whether the directories for programs are searched as well.
pub open spec fn searches_program_files(debugger: Debugger, os: Os) -> bool {
    debugger == Debugger::Lldb && os == Os::Windows
}

/// How to install a debugger.
pub open spec fn way_of_installation(debugger: Debugger, os: Os) -> Seq<char> {
    match (debugger, os) {
        (Debugger::Lldb, Os::Mac) => "`brew install llvm` or ensure Xcode 16+ is installed."@,
        (Debugger::Lldb, Os::Linux) => {
            "sudo apt install lldb` (Ubuntu/Debian) or `sudo pacman -S lldb` (Arch)."@
        },
        (Debugger::Lldb, Os::Windows) => "Install LLVM from https://llvm.org and add it to PATH."@,
        (Debugger::Gdb, Os::Mac) => "`brew install gdb`"@,
        (Debugger::Gdb, Os::Linux) => "`sudo apt install gdb` (Ubuntu/Debian)"@,
        (Debugger::Gdb, Os::Windows) => "Install MinGW or MSYS2 and add gdb to PATH."@,
    }
}

/// What is said when a debugger is not found.
pub open spec fn not_found_message(debugger: Debugger, os: Os) -> Seq<char> {
    let way = way_of_installation(debugger, os);
    match debugger {
        Debugger::Lldb => "Could not find lldb-dap. Please install it via:\n"@ + way,
        Debugger::Gdb => "Could not find gdb. Please install it:\n"@ + way,
    }
}

/// A step of the search.
#[derive(Debug, PartialEq, Eq)]
pub enum DebuggerSearch {
    /// Asks for the platform.
    Platform(Debugger),
    /// Asks whether the debugger is at `current`; the places in `rest` follow, and then, where
    /// `program_files` says so, the directories for programs.
    Probing {
        debugger: Debugger,
        os: Os,
        current: Probe,
        rest: Vec<Probe>,
        program_files: bool,
    },
    /// Asks for the directory for programs.
    ProgramFiles,
    /// Asks for the directory for 32-bit programs; holds the one for programs.
    ProgramFilesX86(String),
    /// The debugger, or what to tell the user.
    Finished(Result<Located, String>),
}

#[verifier::ext_equal]
pub enum SearchView {
    Platform(Debugger),
    Probing {
        debugger: Debugger,
        os: Os,
        current: ProbeView,
        rest: Seq<ProbeView>,
        program_files: bool,
    },
    ProgramFiles,
    ProgramFilesX86(Seq<char>),
    Finished(Result<LocatedView, Seq<char>>),
}

impl DeepView for DebuggerSearch {
    type V = SearchView;

    open spec fn deep_view(&self) -> SearchView {
        match self {
            DebuggerSearch::Platform(debugger) => SearchView::Platform(*debugger),
            DebuggerSearch::Probing { debugger, os, current, rest, program_files } => {
                SearchView::Probing {
                    debugger: *debugger,
                    os: *os,
                    current: current.deep_view(),
                    rest: rest.deep_view(),
                    program_files: *program_files,
                }
            },
            DebuggerSearch::ProgramFiles => SearchView::ProgramFiles,
            DebuggerSearch::ProgramFilesX86(path) => SearchView::ProgramFilesX86(path@),
            DebuggerSearch::Finished(result) => SearchView::Finished(result_view(*result)),
        }
    }
}

/// The step that begins with the first of the given places.
pub open spec fn probing(
    debugger: Debugger,
    os: Os,
    probes: Seq<ProbeView>,
    program_files: bool,
) -> SearchView {
    if probes.len() > 0 {
        SearchView::Probing {
            debugger,
            os,
            current: probes[0],
            rest: probes.drop_first(),
            program_files,
        }
    } else if program_files {
        SearchView::ProgramFiles
    } else {
        SearchView::Finished(Err(not_found_message(debugger, os)))
    }
}

/// What a step asks; nothing once the search is finished.
pub open spec fn search_request(step: SearchView) -> Option<RequestView> {
    match step {
        SearchView::Platform(_) => Some(RequestView::CurrentPlatform),
        SearchView::Probing { current: ProbeView::OnPath { name, .. }, .. } => Some(
            RequestView::Which(name),
        ),
        SearchView::Probing { current: ProbeView::AtPath(path), .. } => Some(
            RequestView::PathExists(path),
        ),
        SearchView::ProgramFiles => Some(RequestView::EnvVar("ProgramFiles"@)),
        SearchView::ProgramFilesX86(_) => Some(RequestView::EnvVar("ProgramFiles(x86)"@)),
        SearchView::Finished(_) => None,
    }
}

/// The value of a variable, or else what stands for it.
pub open spec fn value_or(value: Option<Seq<char>>, otherwise: Seq<char>) -> Seq<char> {
    match value {
        Some(text) => text,
        None => otherwise,
    }
}

/// The step after a reply. A reply to some other request changes nothing.
pub open spec fn search_step(step: SearchView, reply: ReplyView) -> SearchView {
    match (step, reply) {
        (SearchView::Platform(debugger), ReplyView::Platform(os, _)) => probing(
            debugger,
            os,
            platform_probes(debugger, os),
            searches_program_files(debugger, os),
        ),
        (
            SearchView::Probing {
                debugger,
                os,
                current: ProbeView::OnPath { args, .. },
                rest,
                program_files,
            },
            ReplyView::Program(found),
        ) => match found {
            Some(path) => SearchView::Finished(Ok(LocatedView { path, args })),
            None => probing(debugger, os, rest, program_files),
        },
        (
            SearchView::Probing {
                debugger,
                os,
                current: ProbeView::AtPath(path),
                rest,
                program_files,
            },
            ReplyView::Present(present),
        ) => if present {
            SearchView::Finished(Ok(LocatedView { path, args: seq![] }))
        } else {
            probing(debugger, os, rest, program_files)
        },
        (SearchView::ProgramFiles, ReplyView::Variable(value)) => SearchView::ProgramFilesX86(
            value_or(value, "C:\\Program Files"@),
        ),
        (SearchView::ProgramFilesX86(program_files), ReplyView::Variable(value)) => probing(
            Debugger::Lldb,
            Os::Windows,
            program_file_probes(program_files, value_or(value, "C:\\Program Files (x86)"@)),
            false,
        ),
        _ => step,
    }
}

/// The search for `lldb-dap`.
pub fn find_lldb_dap() -> (step: DebuggerSearch)
    ensures
        step.deep_view() == SearchView::Platform(Debugger::Lldb),
{
    DebuggerSearch::Platform(Debugger::Lldb)
}

/// The search for `gdb`.
pub fn find_gdb_dap() -> (step: DebuggerSearch)
    ensures
        step.deep_view() == SearchView::Platform(Debugger::Gdb),
{
    DebuggerSearch::Platform(Debugger::Gdb)
}

/// A place on the search path.
fn on_path(name: &str, args: Vec<String>) -> (probe: Probe)
    ensures
        probe.deep_view() == (ProbeView::OnPath { name: name@, args: args.deep_view() }),
{
    Probe::OnPath { name: name.to_string(), args }
}

/// A place at a path.
fn at_path(path: &str) -> (probe: Probe)
    ensures
        probe.deep_view() == ProbeView::AtPath(path@),
{
    Probe::AtPath(path.to_string())
}

/// The arguments that make GDB an adapter.
fn gdb_args() -> (args: Vec<String>)
    ensures
        args.deep_view() == seq!["-i"@, "dap"@],
{
    let args = vec!["-i".to_string(), "dap".to_string()];
    assert(args.deep_view() =~= seq!["-i"@, "dap"@]);
    args
}

/// Where a debugger is looked for.
fn list_platform_probes(debugger: Debugger, os: Os) -> (probes: Vec<Probe>)
    ensures
        probes.deep_view() == platform_probes(debugger, os),
{
    let probes = match debugger {
        Debugger::Lldb => match os {
            Os::Mac => vec![
                on_path("xcrun", vec!["lldb-dap".to_string()]),
                on_path("lldb-dap", vec![]),
                at_path("/opt/homebrew/bin/lldb-dap"),
                at_path("/usr/local/bin/lldb-dap"),
                at_path("/usr/bin/lldb-dap"),
            ],
            Os::Linux => vec![
                on_path("lldb-dap", vec![]),
                on_path("lldb-dap-20", vec![]),
                at_path("/usr/bin/lldb-dap"),
                at_path("/usr/local/bin/lldb-dap"),
            ],
            Os::Windows => vec![on_path("lldb-dap.exe", vec![])],
        },
        Debugger::Gdb => match os {
            Os::Windows => vec![on_path("gdb.exe", gdb_args()), on_path("gdb", gdb_args())],
            _ => vec![on_path("gdb", gdb_args())],
        },
    };
    assert(probes.deep_view() =~~= platform_probes(debugger, os));
    probes
}

/// Where LLDB may be installed on Windows.
fn list_program_file_probes(program_files: String, program_files_x86: String) -> (probes: Vec<
    Probe,
>)
    ensures
        probes.deep_view() == program_file_probes(program_files@, program_files_x86@),
{
    let probes = vec![
        Probe::AtPath(program_files.concat("\\LLVM\\bin\\lldb-dap.exe")),
        Probe::AtPath(program_files_x86.concat("\\LLVM\\bin\\lldb-dap.exe")),
        at_path("C:\\msys64\\mingw64\\bin\\lldb-dap.exe"),
    ];
    assert(probes.deep_view() =~~= program_file_probes(program_files@, program_files_x86@));
    probes
}

/// What is said when a debugger is not found.
fn say_not_found(debugger: Debugger, os: Os) -> (message: String)
    ensures
        message@ == not_found_message(debugger, os),
{
    let way = match debugger {
        Debugger::Lldb => match os {
            Os::Mac => "`brew install llvm` or ensure Xcode 16+ is installed.",
            Os::Linux => "sudo apt install lldb` (Ubuntu/Debian) or `sudo pacman -S lldb` (Arch).",
            Os::Windows => "Install LLVM from https://llvm.org and add it to PATH.",
        },
        Debugger::Gdb => match os {
            Os::Mac => "`brew install gdb`",
            Os::Linux => "`sudo apt install gdb` (Ubuntu/Debian)",
            Os::Windows => "Install MinGW or MSYS2 and add gdb to PATH.",
        },
    };
    match debugger {
        Debugger::Lldb => "Could not find lldb-dap. Please install it via:\n".to_string().concat(
            way,
        ),
        Debugger::Gdb => "Could not find gdb. Please install it:\n".to_string().concat(way),
    }
}

/// The step that begins with the first of the given places.
fn begin_probing(
    debugger: Debugger,
    os: Os,
    probes: Vec<Probe>,
    program_files: bool,
) -> (step: DebuggerSearch)
    ensures
        step.deep_view() == probing(debugger, os, probes.deep_view(), program_files),
{
    let mut rest = probes;
    if rest.len() > 0 {
        let current = rest.remove(0);
        assert(rest.deep_view() =~= probes.deep_view().drop_first());
        DebuggerSearch::Probing { debugger, os, current, rest, program_files }
    } else if program_files {
        DebuggerSearch::ProgramFiles
    } else {
        DebuggerSearch::Finished(Err(say_not_found(debugger, os)))
    }
}

impl DebuggerSearch {
    /// What this step asks; nothing once the search is finished.
    pub fn request(&self) -> (request: Option<Request>)
        ensures
            request.deep_view() == search_request(self.deep_view()),
    {
        match self {
            DebuggerSearch::Platform(_) => Some(Request::CurrentPlatform),
            DebuggerSearch::Probing { current, .. } => match current {
                Probe::OnPath { name, .. } => Some(Request::Which(name.clone())),
                Probe::AtPath(path) => Some(Request::PathExists(path.clone())),
            },
            DebuggerSearch::ProgramFiles => Some(Request::EnvVar("ProgramFiles".to_string())),
            DebuggerSearch::ProgramFilesX86(_) => Some(
                Request::EnvVar("ProgramFiles(x86)".to_string()),
            ),
            DebuggerSearch::Finished(_) => None,
        }
    }

    /// The step after a reply. A reply to some other request changes nothing.
    pub fn advance(self, reply: Reply) -> (next: DebuggerSearch)
        ensures
            next.deep_view() == search_step(self.deep_view(), reply.deep_view()),
    {
        match (self, reply) {
            (DebuggerSearch::Platform(debugger), Reply::Platform(os, _)) => begin_probing(
                debugger,
                os,
                list_platform_probes(debugger, os),
                debugger == Debugger::Lldb && os == Os::Windows,
            ),
            (
                DebuggerSearch::Probing {
                    debugger,
                    os,
                    current: Probe::OnPath { args, .. },
                    rest,
                    program_files,
                },
                Reply::Program(found),
            ) => match found {
                Some(path) => DebuggerSearch::Finished(Ok(Located { path, args })),
                None => begin_probing(debugger, os, rest, program_files),
            },
            (
                DebuggerSearch::Probing {
                    debugger,
                    os,
                    current: Probe::AtPath(path),
                    rest,
                    program_files,
                },
                Reply::Present(present),
            ) => if present {
                let args: Vec<String> = vec![];
                assert(args.deep_view() =~= seq![]);
                DebuggerSearch::Finished(Ok(Located { path, args }))
            } else {
                begin_probing(debugger, os, rest, program_files)
            },
            (DebuggerSearch::ProgramFiles, Reply::Variable(value)) => {
                DebuggerSearch::ProgramFilesX86(
                    match value {
                        Some(path) => path,
                        None => "C:\\Program Files".to_string(),
                    },
                )
            },
            (DebuggerSearch::ProgramFilesX86(program_files), Reply::Variable(value)) => {
                let program_files_x86 = match value {
                    Some(path) => path,
                    None => "C:\\Program Files (x86)".to_string(),
                };
                begin_probing(
                    Debugger::Lldb,
                    Os::Windows,
                    list_program_file_probes(program_files, program_files_x86),
                    false,
                )
            },
            (step, _) => step,
        }
    }
}

} // verus!
