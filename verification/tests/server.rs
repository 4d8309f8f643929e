use zed_xmake::host::{
    Asset, BinarySettings, DirectoryEntry, InstallationStatus, LspSettings, Release, Reply, Request,
};
use zed_xmake::platform::{Architecture, DownloadedFileType, Os};
use zed_xmake::server::{Command, ServerStep, XMakeExtension};

struct Machine {
    binary: Option<&'static str>,
    settings: Option<&'static str>,
    program: Option<&'static str>,
    files: Vec<&'static str>,
    platform: (Os, Architecture),
    release: Result<Vec<&'static str>, &'static str>,
    download: Result<(), &'static str>,
    listing: Result<(), &'static str>,
    entries: Vec<Result<Option<&'static str>, &'static str>>,
    executable: Result<(), &'static str>,
}

fn machine() -> Machine {
    Machine {
        binary: None,
        settings: None,
        program: None,
        files: vec![],
        platform: (Os::Linux, Architecture::X8664),
        release: Ok(vec![
            "xmake_ls-linux-x64-glibc.2.17.tar.gz",
            "xmake_ls-win32-x64.zip",
            "xmake_ls-linux-musl.tar.gz",
        ]),
        download: Ok(()),
        listing: Ok(()),
        entries: vec![],
        executable: Ok(()),
    }
}

fn owned(result: &Result<(), &'static str>) -> Result<(), String> {
    result.map_err(|reason| reason.to_string())
}

fn run(
    extension: &mut XMakeExtension,
    machine: &Machine,
) -> (Result<Command, String>, Vec<String>) {
    let mut log = Vec::new();
    let mut walked = 0;
    let mut step = extension.language_server_command();
    loop {
        let reply = match step.request() {
            None => match step {
                ServerStep::Finished(result) => return (result, log),
                other => panic!("{:?} asks nothing", other),
            },
            Some(Request::LspSettings(name)) => {
                assert_eq!(name, "xmake-ls");
                Reply::Settings(Some(LspSettings {
                    binary: machine
                        .binary
                        .map(|path| BinarySettings { path: Some(path.to_string()) }),
                    settings: machine.settings.map(|text| serde_json::from_str(text).unwrap()),
                }))
            }
            Some(Request::Which(name)) => {
                assert_eq!(name, "xmake_ls");
                Reply::Program(machine.program.map(|path| path.to_string()))
            }
            Some(Request::IsFile(path)) => Reply::Present(machine.files.contains(&path.as_str())),
            Some(Request::SetStatus(status)) => {
                log.push(match status {
                    InstallationStatus::CheckingForUpdate => "checking".to_string(),
                    InstallationStatus::Downloading => "downloading".to_string(),
                });
                Reply::Acknowledged
            }
            Some(Request::LatestRelease { repository, require_assets, pre_release }) => {
                assert_eq!(repository, "CppCXY/xmake_ls");
                assert!(require_assets);
                assert!(!pre_release);
                Reply::Release(match &machine.release {
                    Ok(names) => Ok(Release {
                        version: "0.3.0".to_string(),
                        assets: names
                            .iter()
                            .map(|name| Asset {
                                name: name.to_string(),
                                download_url: format!("https://{}", name),
                            })
                            .collect(),
                    }),
                    Err(message) => Err(message.to_string()),
                })
            }
            Some(Request::CurrentPlatform) => {
                Reply::Platform(machine.platform.0, machine.platform.1)
            }
            Some(Request::DownloadFile { url, directory, file_type }) => {
                let kind = match file_type {
                    DownloadedFileType::GzipTar => "tar",
                    DownloadedFileType::Zip => "zip",
                };
                log.push(format!("get {} {} {}", url, directory, kind));
                Reply::Outcome(owned(&machine.download))
            }
            Some(Request::ListDirectory(path)) => {
                assert_eq!(path, ".");
                Reply::Outcome(owned(&machine.listing))
            }
            Some(Request::NextEntry) => {
                let entry = match machine.entries.get(walked) {
                    None => DirectoryEntry::End,
                    Some(Ok(name)) => DirectoryEntry::Named(name.map(|name| name.to_string())),
                    Some(Err(reason)) => DirectoryEntry::Unreadable(reason.to_string()),
                };
                walked += 1;
                Reply::Entry(entry)
            }
            Some(Request::RemoveEntry) => {
                log.push(format!("remove {:?}", machine.entries[walked - 1].unwrap()));
                Reply::Acknowledged
            }
            Some(Request::MakeExecutable(path)) => {
                log.push(format!("chmod {}", path));
                Reply::Outcome(owned(&machine.executable))
            }
            Some(other) => panic!("unexpected {:?}", other),
        };
        step = extension.advance(step, reply);
    }
}

fn command(path: &str) -> Result<Command, String> {
    Ok(Command { command: path.to_string(), args: vec![], env: vec![] })
}

fn cached(path: &str) -> XMakeExtension {
    XMakeExtension { cached_binary_path: Some(path.to_string()) }
}

const BINARY: &str = "xmake_ls-0.3.0/xmake_ls";

#[test]
fn settings_name_the_executable() {
    let mut extension = cached("/old");
    let host = Machine { binary: Some("/set"), program: Some("/which"), ..machine() };
    assert_eq!(run(&mut extension, &host), (command("/set"), vec![]));
    assert_eq!(extension, cached("/old"));
}

#[test]
fn search_path_is_remembered() {
    let mut extension = XMakeExtension::new();
    let host = Machine { program: Some("/which"), ..machine() };
    assert_eq!(run(&mut extension, &host), (command("/which"), vec![]));
    assert_eq!(extension, cached("/which"));
}

#[test]
fn remembered_executable_is_used_while_it_is_there() {
    let mut extension = cached("/old");
    let host = Machine { files: vec!["/old"], ..machine() };
    assert_eq!(run(&mut extension, &host), (command("/old"), vec![]));
    assert_eq!(extension, cached("/old"));
}

#[test]
fn lost_executable_is_installed_anew() {
    let mut extension = cached("/old");
    let host = Machine { files: vec![BINARY], ..machine() };
    assert_eq!(run(&mut extension, &host), (command(BINARY), vec!["checking".to_string()]));
    assert_eq!(extension, cached(BINARY));
}

#[test]
fn release_is_downloaded_and_others_are_removed() {
    let mut extension = XMakeExtension::new();
    let host = Machine {
        entries: vec![Ok(Some("xmake_ls-0.2.0")), Ok(Some("xmake_ls-0.3.0")), Ok(None)],
        ..machine()
    };
    let (result, log) = run(&mut extension, &host);
    assert_eq!(result, command(BINARY));
    assert_eq!(
        log,
        vec![
            "checking",
            "downloading",
            "get https://xmake_ls-linux-x64-glibc.2.17.tar.gz xmake_ls-0.3.0 tar",
            "remove Some(\"xmake_ls-0.2.0\")",
            "remove None",
            "chmod xmake_ls-0.3.0/xmake_ls",
        ]
    );
    assert_eq!(extension, cached(BINARY));
}

#[test]
fn windows_needs_no_permission() {
    let mut extension = XMakeExtension::new();
    let host = Machine {
        platform: (Os::Windows, Architecture::X8664),
        executable: Err("never asked"),
        ..machine()
    };
    let (result, log) = run(&mut extension, &host);
    assert_eq!(result, command("xmake_ls-0.3.0/xmake_ls.exe"));
    assert_eq!(
        log,
        vec!["checking", "downloading", "get https://xmake_ls-win32-x64.zip xmake_ls-0.3.0 zip"]
    );
}

#[test]
fn linux_variant_is_downloaded() {
    let mut extension = XMakeExtension::new();
    let host = Machine { settings: Some(r#"{"linuxVariant": "musl"}"#), ..machine() };
    let (result, log) = run(&mut extension, &host);
    assert_eq!(result, command(BINARY));
    assert_eq!(log[2], "get https://xmake_ls-linux-musl.tar.gz xmake_ls-0.3.0 tar");
}

fn failure(host: Machine) -> String {
    let mut extension = cached("/old");
    let (result, _) = run(&mut extension, &host);
    assert_eq!(extension, cached("/old"));
    result.unwrap_err()
}

#[test]
fn missing_release_is_an_error() {
    assert_eq!(failure(Machine { release: Err("offline"), ..machine() }), "offline");
}

#[test]
fn unsupported_platform_is_an_error() {
    assert_eq!(
        failure(Machine { platform: (Os::Linux, Architecture::X86), ..machine() }),
        "32-bit x86 Linux is not supported by xmake_ls"
    );
    assert_eq!(
        failure(Machine { platform: (Os::Mac, Architecture::X86), ..machine() }),
        "32-bit macOS is not supported by xmake_ls"
    );
}

#[test]
fn missing_asset_is_an_error() {
    assert_eq!(
        failure(Machine { release: Ok(vec!["other"]), ..machine() }),
        "no asset found matching \"xmake_ls-linux-x64-glibc.2.17.tar.gz\". Available: [\"other\"]"
    );
}

#[test]
fn failed_download_is_an_error() {
    assert_eq!(
        failure(Machine { download: Err("reset"), ..machine() }),
        "failed to download file: reset"
    );
}

#[test]
fn failed_walk_is_an_error() {
    assert_eq!(
        failure(Machine { listing: Err("denied"), ..machine() }),
        "failed to list working directory denied"
    );
    assert_eq!(
        failure(Machine { entries: vec![Ok(Some("x")), Err("gone")], ..machine() }),
        "failed to load directory entry gone"
    );
}

#[test]
fn failed_permission_is_an_error() {
    assert_eq!(failure(Machine { executable: Err("read-only"), ..machine() }), "read-only");
}

#[test]
fn replies_to_other_requests_change_nothing() {
    let mut extension = cached("/old");
    let step = extension.language_server_command();
    let next = extension.advance(step, Reply::Program(Some("/x".to_string())));
    assert_eq!(next, ServerStep::ReadSettings);
    assert_eq!(extension, cached("/old"));
}

#[test]
fn unreadable_settings_name_nothing() {
    let mut extension = XMakeExtension::new();
    let next = extension.advance(ServerStep::ReadSettings, Reply::Settings(None));
    assert_eq!(next, ServerStep::SearchPath);
}

#[test]
fn second_start_reuses_what_the_first_installed() {
    let mut extension = XMakeExtension::new();
    assert_eq!(run(&mut extension, &machine()).0, command(BINARY));
    let later = Machine { files: vec![BINARY], release: Err("never asked"), ..machine() };
    assert_eq!(run(&mut extension, &later), (command(BINARY), vec![]));
    assert_eq!(extension, cached(BINARY));
}

#[test]
fn later_starts_follow_the_settings_and_the_search_path_again() {
    for named in [
        Machine { binary: Some("/set"), program: Some("/which"), ..machine() },
        Machine { program: Some("/which"), ..machine() },
    ] {
        let mut extension = cached("/old");
        let (first, _) = run(&mut extension, &named);
        let remembered = extension.cached_binary_path.clone();
        let later = Machine {
            files: vec!["/set", "/which"],
            release: Err("never asked"),
            ..named
        };
        assert_eq!(run(&mut extension, &later), (first, vec![]));
        assert_eq!(extension.cached_binary_path, remembered);
    }
}
