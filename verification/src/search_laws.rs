//! What the search for a debugger comes to.
use vstd::prelude::*;

use crate::debugger::{
    not_found_message, platform_probes, probing, program_file_probes, search_request, search_step,
    searches_program_files, value_or, Debugger, LocatedView, ProbeView, SearchView,
};
use crate::host::{fits, ReplyView};
use crate::platform::Os;
use crate::world::{after, answer, World};

verus! {

/// The search after at most `count` more answers.
pub open spec fn search_run(step: SearchView, world: World, count: nat) -> SearchView
    decreases count,
{
    match search_request(step) {
        Some(request) => if count == 0 {
            step
        } else {
            search_run(
                search_step(step, answer(world, request)),
                after(world, request),
                (count - 1) as nat,
            )
        },
        None => step,
    }
}

/// What is found at a place.
pub open spec fn hit(probe: ProbeView, world: World) -> Option<LocatedView> {
    match probe {
        ProbeView::OnPath { name, args } => match (world.which)(name) {
            Some(path) => Some(LocatedView { path, args }),
            None => None,
        },
        ProbeView::AtPath(path) => if (world.exists)(path) {
            Some(LocatedView { path, args: seq![] })
        } else {
            None
        },
    }
}

/// What is found at the first place that has something.
pub open spec fn first_hit(probes: Seq<ProbeView>, world: World) -> Option<LocatedView>
    decreases probes.len(),
{
    if probes.len() == 0 {
        None
    } else {
        match hit(probes[0], world) {
            Some(located) => Some(located),
            None => first_hit(probes.drop_first(), world),
        }
    }
}

/// All places where a debugger is looked for, in their order.
pub open spec fn all_probes(debugger: Debugger, world: World) -> Seq<ProbeView> {
    if searches_program_files(debugger, world.os) {
        platform_probes(debugger, world.os) + program_file_probes(
            value_or((world.variable)("ProgramFiles"@), "C:\\Program Files"@),
            value_or((world.variable)("ProgramFiles(x86)"@), "C:\\Program Files (x86)"@),
        )
    } else {
        platform_probes(debugger, world.os)
    }
}

/// The debugger, or what to tell the user.
pub open spec fn located_or_message(
    found: Option<LocatedView>,
    debugger: Debugger,
    os: Os,
) -> Result<LocatedView, Seq<char>> {
    match found {
        Some(located) => Ok(located),
        None => Err(not_found_message(debugger, os)),
    }
}

/// What a search comes to: the debugger at the first place that has one, or how to install it.
pub open spec fn search_outcome(debugger: Debugger, world: World) -> Result<
    LocatedView,
    Seq<char>,
> {
    located_or_message(first_hit(all_probes(debugger, world), world), debugger, world.os)
}

/// A search ends, after at most seven answers, with the debugger at the first place that has one,
/// or with the way to install it on this platform where no place has one.
pub proof fn search_finds_the_first_hit(debugger: Debugger, world: World, count: nat)
    requires
        count >= 7,
    ensures
        search_run(SearchView::Platform(debugger), world, count) == SearchView::Finished(
            search_outcome(debugger, world),
        ),
{
    let os = world.os;
    let probes = platform_probes(debugger, os);
    let left = (count - 1) as nat;
    if searches_program_files(debugger, os) {
        let more = all_probes(debugger, world).skip(1);
        assert(all_probes(debugger, world).drop_first() =~= more);
        assert(probes.drop_first() =~= Seq::empty());
        reveal_with_fuel(search_run, 5);
        reveal_with_fuel(first_hit, 2);
        let files = program_file_probes(
            value_or((world.variable)("ProgramFiles"@), "C:\\Program Files"@),
            value_or((world.variable)("ProgramFiles(x86)"@), "C:\\Program Files (x86)"@),
        );
        assert(more =~= files);
        lemma_probing(debugger, os, files, world, (count - 4) as nat);
    } else {
        lemma_probing(debugger, os, probes, world, left);
    }
}

proof fn lemma_probing(
    debugger: Debugger,
    os: Os,
    probes: Seq<ProbeView>,
    world: World,
    count: nat,
)
    requires
        count >= probes.len(),
    ensures
        search_run(probing(debugger, os, probes, false), world, count) == SearchView::Finished(
            located_or_message(first_hit(probes, world), debugger, os),
        ),
    decreases probes.len(),
{
    reveal_with_fuel(search_run, 2);
    if probes.len() > 0 {
        lemma_probing(debugger, os, probes.drop_first(), world, (count - 1) as nat);
    }
}

/// What the first hit is: a place that has something, with nothing at the places before it. There
/// is none only where no place has anything.
pub proof fn first_hit_is_first(probes: Seq<ProbeView>, world: World)
    ensures
        match first_hit(probes, world) {
            Some(located) => exists|i: int|
                0 <= i < probes.len() && hit(probes[i], world) == Some(located) && forall|j: int|
                    0 <= j < i ==> hit(#[trigger] probes[j], world) is None,
            None => forall|j: int|
                0 <= j < probes.len() ==> hit(#[trigger] probes[j], world) is None,
        },
    decreases probes.len(),
{
    if probes.len() > 0 {
        let rest = probes.drop_first();
        first_hit_is_first(rest, world);
        if hit(probes[0], world) is None {
            match first_hit(rest, world) {
                Some(located) => {
                    let i = choose|i: int|
                        0 <= i < rest.len() && hit(rest[i], world) == Some(located) && forall|
                            j: int,
                        |
                            0 <= j < i ==> hit(#[trigger] rest[j], world) is None;
                    assert(hit(probes[i + 1], world) == Some(located));
                    assert forall|j: int| 0 <= j < i + 1 implies hit(
                        #[trigger] probes[j],
                        world,
                    ) is None by {
                        if j > 0 {
                            assert(probes[j] == rest[j - 1]);
                        }
                    }
                },
                None => {
                    assert forall|j: int| 0 <= j < probes.len() implies hit(
                        #[trigger] probes[j],
                        world,
                    ) is None by {
                        if j > 0 {
                            assert(probes[j] == rest[j - 1]);
                        }
                    }
                },
            }
        } else {
            assert(hit(probes[0], world) == first_hit(probes, world));
        }
    }
}

/// Wherever GDB is found, on every platform, it is run as `gdb -i dap`, at the path that the search
/// path has for it.
pub proof fn found_gdb_speaks_the_protocol(world: World)
    ensures
        search_outcome(Debugger::Gdb, world) matches Ok(located) ==> {
            &&& located.args == seq!["-i"@, "dap"@]
            &&& (world.which)("gdb"@) == Some(located.path) || world.os == Os::Windows
                && (world.which)("gdb.exe"@) == Some(located.path)
        },
{
    reveal_with_fuel(first_hit, 3);
}

/// What the search for GDB comes to: on Windows `gdb.exe` comes before `gdb`, elsewhere there is
/// `gdb` alone, and where there is none the user is told how to get it on this platform.
pub proof fn gdb_is_searched_by_name(world: World)
    ensures
        world.os == Os::Windows ==> match (world.which)("gdb.exe"@) {
            Some(path) => search_outcome(Debugger::Gdb, world) == Ok::<LocatedView, Seq<char>>(
                LocatedView { path, args: seq!["-i"@, "dap"@] },
            ),
            None => match (world.which)("gdb"@) {
                Some(path) => search_outcome(Debugger::Gdb, world) == Ok::<LocatedView, Seq<char>>(
                    LocatedView { path, args: seq!["-i"@, "dap"@] },
                ),
                None => search_outcome(Debugger::Gdb, world) == Err::<LocatedView, Seq<char>>(
                    "Could not find gdb. Please install it:\n"@
                        + "Install MinGW or MSYS2 and add gdb to PATH."@,
                ),
            },
        },
        world.os == Os::Linux ==> match (world.which)("gdb"@) {
            Some(path) => search_outcome(Debugger::Gdb, world) == Ok::<LocatedView, Seq<char>>(
                LocatedView { path, args: seq!["-i"@, "dap"@] },
            ),
            None => search_outcome(Debugger::Gdb, world) == Err::<LocatedView, Seq<char>>(
                "Could not find gdb. Please install it:\n"@
                    + "`sudo apt install gdb` (Ubuntu/Debian)"@,
            ),
        },
        world.os == Os::Mac ==> match (world.which)("gdb"@) {
            Some(path) => search_outcome(Debugger::Gdb, world) == Ok::<LocatedView, Seq<char>>(
                LocatedView { path, args: seq!["-i"@, "dap"@] },
            ),
            None => search_outcome(Debugger::Gdb, world) == Err::<LocatedView, Seq<char>>(
                "Could not find gdb. Please install it:\n"@ + "`brew install gdb`"@,
            ),
        },
{
    reveal_with_fuel(first_hit, 3);
}

/// Wherever LLDB is found it is run without arguments, but for `xcrun lldb-dap` on macOS, which
/// comes before every other place there.
pub proof fn found_lldb_needs_no_arguments(world: World)
    ensures
        search_outcome(Debugger::Lldb, world) matches Ok(located) ==> if world.os == Os::Mac && (
        world.which)("xcrun"@) is Some {
            located.args == seq!["lldb-dap"@] && (world.which)("xcrun"@) == Some(located.path)
        } else {
            located.args == Seq::<Seq<char>>::empty()
        },
{
    lldb_on_mac(world);
    lldb_on_linux(world);
    lldb_on_windows(world);
}

/// What the search for LLDB comes to on macOS: `xcrun lldb-dap` or `lldb-dap` on the search path, or
/// else one of Homebrew or of Xcode, in this order, or what to install.
pub proof fn lldb_on_mac(world: World)
    ensures
        world.os == Os::Mac ==> search_outcome(Debugger::Lldb, world) == match (world.which)(
            "xcrun"@,
        ) {
            Some(path) => Ok::<LocatedView, Seq<char>>(
                LocatedView { path, args: seq!["lldb-dap"@] },
            ),
            None => match (world.which)("lldb-dap"@) {
                Some(path) => Ok(LocatedView { path, args: seq![] }),
                None => if (world.exists)("/opt/homebrew/bin/lldb-dap"@) {
                    Ok(LocatedView { path: "/opt/homebrew/bin/lldb-dap"@, args: seq![] })
                } else if (world.exists)("/usr/local/bin/lldb-dap"@) {
                    Ok(LocatedView { path: "/usr/local/bin/lldb-dap"@, args: seq![] })
                } else if (world.exists)("/usr/bin/lldb-dap"@) {
                    Ok(LocatedView { path: "/usr/bin/lldb-dap"@, args: seq![] })
                } else {
                    Err(
                        "Could not find lldb-dap. Please install it via:\n"@
                            + "`brew install llvm` or ensure Xcode 16+ is installed."@,
                    )
                },
            },
        },
{
    reveal_with_fuel(first_hit, 6);
}

/// What the search for LLDB comes to on Linux: `lldb-dap` or `lldb-dap-20` on the search path, or
/// else one in the usual directories, in this order, or what to install.
pub proof fn lldb_on_linux(world: World)
    ensures
        world.os == Os::Linux ==> search_outcome(Debugger::Lldb, world) == match (world.which)(
            "lldb-dap"@,
        ) {
            Some(path) => Ok::<LocatedView, Seq<char>>(LocatedView { path, args: seq![] }),
            None => match (world.which)("lldb-dap-20"@) {
                Some(path) => Ok(LocatedView { path, args: seq![] }),
                None => if (world.exists)("/usr/bin/lldb-dap"@) {
                    Ok(LocatedView { path: "/usr/bin/lldb-dap"@, args: seq![] })
                } else if (world.exists)("/usr/local/bin/lldb-dap"@) {
                    Ok(LocatedView { path: "/usr/local/bin/lldb-dap"@, args: seq![] })
                } else {
                    Err(
                        "Could not find lldb-dap. Please install it via:\n"@
                            + "sudo apt install lldb` (Ubuntu/Debian) or `sudo pacman -S lldb` (Arch)."@,
                    )
                },
            },
        },
{
    reveal_with_fuel(first_hit, 5);
}

/// What the search for LLDB comes to on Windows: `lldb-dap.exe` on the search path, or else that of
/// LLVM in either directory for programs, or else that of MSYS2, or what to install. A directory for
/// programs that no variable names is the usual one.
pub proof fn lldb_on_windows(world: World)
    ensures
        world.os == Os::Windows ==> ({
            let files = match (world.variable)("ProgramFiles"@) {
                Some(directory) => directory,
                None => "C:\\Program Files"@,
            } + "\\LLVM\\bin\\lldb-dap.exe"@;
            let files_x86 = match (world.variable)("ProgramFiles(x86)"@) {
                Some(directory) => directory,
                None => "C:\\Program Files (x86)"@,
            } + "\\LLVM\\bin\\lldb-dap.exe"@;
            search_outcome(Debugger::Lldb, world) == match (world.which)("lldb-dap.exe"@) {
                Some(path) => Ok::<LocatedView, Seq<char>>(LocatedView { path, args: seq![] }),
                None => if (world.exists)(files) {
                    Ok(LocatedView { path: files, args: seq![] })
                } else if (world.exists)(files_x86) {
                    Ok(LocatedView { path: files_x86, args: seq![] })
                } else if (world.exists)("C:\\msys64\\mingw64\\bin\\lldb-dap.exe"@) {
                    Ok(
                        LocatedView {
                            path: "C:\\msys64\\mingw64\\bin\\lldb-dap.exe"@,
                            args: seq![],
                        },
                    )
                } else {
                    Err(
                        "Could not find lldb-dap. Please install it via:\n"@
                            + "Install LLVM from https://llvm.org and add it to PATH."@,
                    )
                },
            }
        }),
{
    reveal_with_fuel(first_hit, 5);
}

/// A reply to some other request changes nothing, and nothing changes once the search is over.
pub proof fn other_replies_do_not_matter_to_a_search(step: SearchView, reply: ReplyView)
    ensures
        match search_request(step) {
            Some(request) => !fits(request, reply) ==> search_step(step, reply) == step,
            None => search_step(step, reply) == step,
        },
{
}

} // verus!
