use zed_xmake::debugger::{find_gdb_dap, find_lldb_dap, DebuggerSearch, Located};
use zed_xmake::host::{Reply, Request};
use zed_xmake::platform::{Architecture, Os};

struct Machine {
    os: Os,
    programs: Vec<(&'static str, &'static str)>,
    files: Vec<&'static str>,
    variables: Vec<(&'static str, &'static str)>,
}

fn lookup(table: &[(&'static str, &'static str)], key: &str) -> Option<String> {
    table.iter().find(|(name, _)| *name == key).map(|(_, value)| value.to_string())
}

fn run(machine: &Machine, start: DebuggerSearch) -> (Result<Located, String>, Vec<String>) {
    let mut asked = Vec::new();
    let mut step = start;
    loop {
        let reply = match step.request() {
            None => match step {
                DebuggerSearch::Finished(result) => return (result, asked),
                other => panic!("{:?} asks nothing", other),
            },
            Some(Request::CurrentPlatform) => Reply::Platform(machine.os, Architecture::X8664),
            Some(Request::Which(name)) => {
                let found = lookup(&machine.programs, &name);
                asked.push(name);
                Reply::Program(found)
            }
            Some(Request::PathExists(path)) => {
                let present = machine.files.contains(&path.as_str());
                asked.push(path);
                Reply::Present(present)
            }
            Some(Request::EnvVar(name)) => {
                let value = lookup(&machine.variables, &name);
                asked.push(name);
                Reply::Variable(value)
            }
            Some(other) => panic!("unexpected {:?}", other),
        };
        step = step.advance(reply);
    }
}

fn bare(os: Os) -> Machine {
    Machine { os, programs: vec![], files: vec![], variables: vec![] }
}

fn located(path: &str, args: &[&str]) -> Located {
    Located {
        path: path.to_string(),
        args: args.iter().map(|arg| arg.to_string()).collect(),
    }
}

#[test]
fn mac_runs_lldb_through_xcrun() {
    let machine = Machine {
        programs: vec![("xcrun", "/usr/bin/xcrun"), ("lldb-dap", "/x/lldb-dap")],
        ..bare(Os::Mac)
    };
    let (result, asked) = run(&machine, find_lldb_dap());
    assert_eq!(result, Ok(located("/usr/bin/xcrun", &["lldb-dap"])));
    assert_eq!(asked, vec!["xcrun"]);
}

#[test]
fn mac_places_are_searched_in_order() {
    let (result, asked) = run(&bare(Os::Mac), find_lldb_dap());
    assert_eq!(
        asked,
        vec![
            "xcrun",
            "lldb-dap",
            "/opt/homebrew/bin/lldb-dap",
            "/usr/local/bin/lldb-dap",
            "/usr/bin/lldb-dap"
        ]
    );
    assert_eq!(
        result,
        Err("Could not find lldb-dap. Please install it via:\n\
             `brew install llvm` or ensure Xcode 16+ is installed."
            .to_string())
    );
}

#[test]
fn linux_takes_the_first_hit() {
    let machine = Machine {
        files: vec!["/usr/local/bin/lldb-dap", "/usr/bin/lldb-dap"],
        ..bare(Os::Linux)
    };
    let (result, asked) = run(&machine, find_lldb_dap());
    assert_eq!(result, Ok(located("/usr/bin/lldb-dap", &[])));
    assert_eq!(asked, vec!["lldb-dap", "lldb-dap-20", "/usr/bin/lldb-dap"]);
    let newer = Machine { programs: vec![("lldb-dap-20", "/l20")], ..bare(Os::Linux) };
    assert_eq!(run(&newer, find_lldb_dap()).0, Ok(located("/l20", &[])));
}

#[test]
fn linux_without_lldb_is_told_how_to_install_it() {
    assert_eq!(
        run(&bare(Os::Linux), find_lldb_dap()).0,
        Err("Could not find lldb-dap. Please install it via:\n\
             sudo apt install lldb` (Ubuntu/Debian) or `sudo pacman -S lldb` (Arch)."
            .to_string())
    );
}

#[test]
fn windows_searches_the_program_directories() {
    let machine = Machine {
        files: vec!["D:\\P86\\LLVM\\bin\\lldb-dap.exe"],
        variables: vec![("ProgramFiles(x86)", "D:\\P86")],
        ..bare(Os::Windows)
    };
    let (result, asked) = run(&machine, find_lldb_dap());
    assert_eq!(result, Ok(located("D:\\P86\\LLVM\\bin\\lldb-dap.exe", &[])));
    assert_eq!(
        asked,
        vec![
            "lldb-dap.exe",
            "ProgramFiles",
            "ProgramFiles(x86)",
            "C:\\Program Files\\LLVM\\bin\\lldb-dap.exe",
            "D:\\P86\\LLVM\\bin\\lldb-dap.exe"
        ]
    );
}

#[test]
fn windows_search_ends_with_msys() {
    let (result, asked) = run(&bare(Os::Windows), find_lldb_dap());
    assert_eq!(
        asked[3..],
        [
            "C:\\Program Files\\LLVM\\bin\\lldb-dap.exe".to_string(),
            "C:\\Program Files (x86)\\LLVM\\bin\\lldb-dap.exe".to_string(),
            "C:\\msys64\\mingw64\\bin\\lldb-dap.exe".to_string()
        ]
    );
    assert_eq!(
        result,
        Err("Could not find lldb-dap. Please install it via:\n\
             Install LLVM from https://llvm.org and add it to PATH."
            .to_string())
    );
}

#[test]
fn gdb_is_run_as_an_adapter() {
    let machine = Machine { programs: vec![("gdb", "/usr/bin/gdb")], ..bare(Os::Linux) };
    let (result, asked) = run(&machine, find_gdb_dap());
    assert_eq!(result, Ok(located("/usr/bin/gdb", &["-i", "dap"])));
    assert_eq!(asked, vec!["gdb"]);
}

#[test]
fn gdb_on_windows_may_have_an_extension() {
    let machine = Machine { programs: vec![("gdb", "C:\\gdb")], ..bare(Os::Windows) };
    let (result, asked) = run(&machine, find_gdb_dap());
    assert_eq!(result, Ok(located("C:\\gdb", &["-i", "dap"])));
    assert_eq!(asked, vec!["gdb.exe", "gdb"]);
}

#[test]
fn missing_gdb_is_told_for_each_platform() {
    for (os, way) in [
        (Os::Mac, "`brew install gdb`"),
        (Os::Linux, "`sudo apt install gdb` (Ubuntu/Debian)"),
        (Os::Windows, "Install MinGW or MSYS2 and add gdb to PATH."),
    ] {
        assert_eq!(
            run(&bare(os), find_gdb_dap()).0,
            Err(format!("Could not find gdb. Please install it:\n{}", way))
        );
    }
}

#[test]
fn other_replies_change_nothing() {
    assert_eq!(find_lldb_dap().advance(Reply::Present(true)), find_lldb_dap());
    let probing = find_gdb_dap().advance(Reply::Platform(Os::Linux, Architecture::X86));
    let same = find_gdb_dap().advance(Reply::Platform(Os::Linux, Architecture::X8664));
    assert_eq!(probing.advance(Reply::Acknowledged), same);
}
