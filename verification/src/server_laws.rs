//! What the steps towards the command of the language server come to.
use vstd::prelude::*;

use crate::host::{AssetView, DirectoryEntryView, ReleaseView, ReplyView, RequestView};
use crate::json::{json_member_text, JsonView};
use crate::platform::{linux_variant, package_for, Architecture, DownloadedFileType, Os};
use crate::server::{
    asset_named, bare_command, plan_for, quoted_names, server_request, server_step, CommandView,
    InstallPlanView, ServerView,
};
use crate::settings::{binary_setting, lsp_settings_value};
use crate::text::{bracketed, quoted};
use crate::world::{after, answer, World};

verus! {

/// The step, and the executable that is remembered, after at most `count` more answers.
pub open spec fn server_run(
    step: ServerView,
    cached: Option<Seq<char>>,
    world: World,
    count: nat,
) -> (ServerView, Option<Seq<char>>)
    decreases count,
{
    match server_request(step) {
        Some(request) => if count == 0 {
            (step, cached)
        } else {
            let next = server_step(step, cached, answer(world, request));
            server_run(next.0, next.1, after(world, request), (count - 1) as nat)
        },
        None => (step, cached),
    }
}

/// Why the directory of the releases could not be walked to its end, if so.
pub open spec fn walk_failure(
    entries: Seq<Result<Option<Seq<char>>, Seq<char>>>,
) -> Option<Seq<char>>
    decreases entries.len(),
{
    if entries.len() == 0 {
        None
    } else {
        match entries[0] {
            Err(reason) => Some(reason),
            Ok(_) => walk_failure(entries.drop_first()),
        }
    }
}

/// Why a release that was unpacked cannot be run, if so.
pub open spec fn cleanup_failure(plan: InstallPlanView, world: World) -> Option<Seq<char>> {
    match walk_failure(world.entries) {
        Some(reason) => Some("failed to load directory entry "@ + reason),
        None => if plan.os == Os::Windows {
            None
        } else {
            match (world.executable)(plan.binary_path) {
                Ok(_) => None,
                Err(message) => Some(message),
            }
        },
    }
}

/// Why a plan cannot be carried out, if so. What is installed already is left as it is.
pub open spec fn install_failure(plan: InstallPlanView, world: World) -> Option<Seq<char>> {
    if (world.is_file)(plan.binary_path) {
        None
    } else {
        match (world.download)(plan.url, plan.version_dir, plan.file_type) {
            Err(reason) => Some("failed to download file: "@ + reason),
            Ok(_) => match (world.listing)("."@) {
                Err(reason) => Some("failed to list working directory "@ + reason),
                Ok(_) => cleanup_failure(plan, world),
            },
        }
    }
}

/// The latest release with assets that is no preview.
pub open spec fn latest_release(world: World) -> Result<ReleaseView, Seq<char>> {
    (world.release)("CppCXY/xmake_ls"@, true, false)
}

/// How to install the latest release here.
pub open spec fn latest_plan(world: World) -> Result<InstallPlanView, Seq<char>> {
    match latest_release(world) {
        Err(message) => Err(message),
        Ok(release) => plan_for(
            release,
            world.os,
            world.arch,
            lsp_settings_value((world.settings)("xmake-ls"@)),
        ),
    }
}

/// The executable of the latest release, installed here, or why there is none.
pub open spec fn installed(world: World) -> Result<Seq<char>, Seq<char>> {
    match latest_plan(world) {
        Err(message) => Err(message),
        Ok(plan) => match install_failure(plan, world) {
            Some(message) => Err(message),
            None => Ok(plan.binary_path),
        },
    }
}

/// What is handed out, and what is remembered then: the executable that the settings name, which
/// is not remembered; or else the one on the search path; or else the remembered one, while it is
/// there; or else that of the latest release.
pub open spec fn server_outcome(cached: Option<Seq<char>>, world: World) -> (
    Result<CommandView, Seq<char>>,
    Option<Seq<char>>,
) {
    match binary_setting((world.settings)("xmake-ls"@)) {
        Some(path) => (Ok(bare_command(path)), cached),
        None => match (world.which)("xmake_ls"@) {
            Some(path) => (Ok(bare_command(path)), Some(path)),
            None => if cached matches Some(path) && (world.is_file)(path) {
                (Ok(bare_command(cached->0)), cached)
            } else {
                match installed(world) {
                    Ok(path) => (Ok(bare_command(path)), Some(path)),
                    Err(message) => (Err(message), cached),
                }
            },
        },
    }
}

/// The steps end, after at most thirteen answers and two for each entry of the directory of the
/// releases, with what `server_outcome` says.
pub proof fn server_command_is_found(cached: Option<Seq<char>>, world: World, count: nat)
    requires
        count >= 13 + 2 * world.entries.len(),
    ensures
        server_run(ServerView::ReadSettings, cached, world, count) == (
            ServerView::Finished(server_outcome(cached, world).0),
            server_outcome(cached, world).1,
        ),
{
    reveal_with_fuel(server_run, 4);
    if binary_setting((world.settings)("xmake-ls"@)) is None && (world.which)("xmake_ls"@) is None {
        match cached {
            Some(path) => if !(world.is_file)(path) {
                lemma_install(cached, world, (count - 3) as nat);
            },
            None => {
                lemma_install(cached, world, (count - 2) as nat);
            },
        }
    }
}

proof fn lemma_install(cached: Option<Seq<char>>, world: World, count: nat)
    requires
        count >= 10 + 2 * world.entries.len(),
    ensures
        server_run(ServerView::AnnounceCheck, cached, world, count) == match installed(world) {
            Ok(path) => (ServerView::Finished(Ok(bare_command(path))), Some(path)),
            Err(message) => (ServerView::Finished(Err(message)), cached),
        },
{
    reveal_with_fuel(server_run, 5);
    match latest_release(world) {
        Err(_) => {},
        Ok(release) => {
            if world.os != Os::Linux {
                package_ignores_settings(
                    world.os,
                    world.arch,
                    None,
                    lsp_settings_value((world.settings)("xmake-ls"@)),
                );
            }
            match latest_plan(world) {
                Err(_) => {},
                Ok(plan) => {
                    let left = if world.os == Os::Linux {
                        count - 4
                    } else {
                        count - 3
                    };
                    lemma_carry_out(plan, cached, world, left as nat);
                },
            }
        },
    }
}

proof fn lemma_carry_out(
    plan: InstallPlanView,
    cached: Option<Seq<char>>,
    world: World,
    count: nat,
)
    requires
        count >= 6 + 2 * world.entries.len(),
    ensures
        server_run(ServerView::CheckInstalled(plan), cached, world, count)
            == match install_failure(plan, world) {
            None => (
                ServerView::Finished(Ok(bare_command(plan.binary_path))),
                Some(plan.binary_path),
            ),
            Some(message) => (ServerView::Finished(Err(message)), cached),
        },
{
    reveal_with_fuel(server_run, 6);
    if !(world.is_file)(plan.binary_path) {
        lemma_clean_up(plan, cached, world, (count - 4) as nat);
    }
}

proof fn lemma_clean_up(
    plan: InstallPlanView,
    cached: Option<Seq<char>>,
    world: World,
    count: nat,
)
    requires
        count >= 2 + 2 * world.entries.len(),
    ensures
        server_run(ServerView::NextEntry(plan), cached, world, count) == match cleanup_failure(
            plan,
            world,
        ) {
            None => (
                ServerView::Finished(Ok(bare_command(plan.binary_path))),
                Some(plan.binary_path),
            ),
            Some(message) => (ServerView::Finished(Err(message)), cached),
        },
    decreases world.entries.len(),
{
    reveal_with_fuel(server_run, 3);
    if world.entries.len() > 0 {
        match world.entries[0] {
            Err(_) => {},
            Ok(name) => {
                let rest = World { entries: world.entries.drop_first(), ..world };
                if name == Some(plan.version_dir) {
                    lemma_clean_up(plan, cached, rest, (count - 1) as nat);
                } else {
                    lemma_clean_up(plan, cached, rest, (count - 2) as nat);
                }
            },
        }
    }
}

/// An executable that is handed out is remembered, unless the settings named it.
pub proof fn found_server_is_remembered(cached: Option<Seq<char>>, world: World)
    requires
        binary_setting((world.settings)("xmake-ls"@)) is None,
    ensures
        server_outcome(cached, world).0 matches Ok(command) ==> server_outcome(cached, world).1
            == Some(command.command),
{
}

/// What the steps ask, for at most `count` answers.
pub open spec fn server_asks(
    step: ServerView,
    cached: Option<Seq<char>>,
    world: World,
    count: nat,
) -> Seq<RequestView>
    decreases count,
{
    match server_request(step) {
        Some(request) => if count == 0 {
            seq![]
        } else {
            let next = server_step(step, cached, answer(world, request));
            seq![request] + server_asks(next.0, next.1, after(world, request), (count - 1) as nat)
        },
        None => seq![],
    }
}

/// Whether nothing is asked but for settings, the search path and whether there is a file.
pub open spec fn only_looks(asked: Seq<RequestView>) -> bool {
    forall|i: int|
        0 <= i < asked.len() ==> (#[trigger] asked[i] is LspSettings || asked[i] is Which
            || asked[i] is IsFile)
}

/// A command that was handed out is handed out again at a later start, as long as its executable is
/// there and the settings and the search path name what they named before. What is remembered stays
/// as it is, and nothing but the settings, the search path and the executable is asked for: no
/// release, no download and no status.
pub proof fn handed_out_server_is_reused(
    cached: Option<Seq<char>>,
    command: CommandView,
    before: World,
    world: World,
    count: nat,
)
    requires
        server_outcome(cached, before).0 == Ok::<CommandView, Seq<char>>(command),
        binary_setting((world.settings)("xmake-ls"@)) == binary_setting(
            (before.settings)("xmake-ls"@),
        ),
        (world.which)("xmake_ls"@) == (before.which)("xmake_ls"@),
        (world.is_file)(command.command),
        count >= 3,
    ensures
        server_run(
            ServerView::ReadSettings,
            server_outcome(cached, before).1,
            world,
            count,
        ) == (
            ServerView::Finished(Ok::<CommandView, Seq<char>>(command)),
            server_outcome(cached, before).1,
        ),
        only_looks(
            server_asks(
                ServerView::ReadSettings,
                server_outcome(cached, before).1,
                world,
                count,
            ),
        ),
{
    reveal_with_fuel(server_run, 4);
    reveal_with_fuel(server_asks, 4);
}

/// The settings of the language server choose the package on Linux only.
pub proof fn package_ignores_settings(
    os: Os,
    arch: Architecture,
    settings: Option<JsonView>,
    others: Option<JsonView>,
)
    requires
        os != Os::Linux,
    ensures
        package_for(os, arch, settings) == package_for(os, arch, others),
{
}

/// There is a package for every platform but 32-bit macOS and, unless the settings name a variant,
/// 32-bit Linux. It is a ZIP archive on Windows and a gzipped tar archive elsewhere.
pub proof fn packages_cover_platforms(os: Os, arch: Architecture, settings: Option<JsonView>)
    ensures
        arch != Architecture::X86 || os == Os::Windows ==> package_for(os, arch, settings) is Ok,
        package_for(os, arch, settings) matches Ok(package) ==> (package.file_type
            == DownloadedFileType::Zip <==> os == Os::Windows),
{
}

/// A variant that the settings name is used on Linux, on every architecture.
pub proof fn named_variant_is_used(arch: Architecture, value: JsonView, variant: Seq<char>)
    requires
        json_member_text(value, "linuxVariant"@) == Some(variant),
    ensures
        package_for(Os::Linux, arch, Some(value)) matches Ok(package) && package.asset_name
            == "xmake_ls-linux-"@ + variant + ".tar.gz"@,
{
}

/// The asset that is found has the name that was asked for, and one is found wherever there is one.
pub proof fn asset_has_its_name(assets: Seq<AssetView>, name: Seq<char>)
    ensures
        match asset_named(assets, name) {
            Some(asset) => asset.name == name && assets.contains(asset),
            None => forall|i: int| 0 <= i < assets.len() ==> (#[trigger] assets[i]).name != name,
        },
    decreases assets.len(),
{
    if assets.len() > 0 {
        let rest = assets.drop_first();
        asset_has_its_name(rest, name);
        if assets[0].name == name {
            assert(assets.contains(assets[0]));
        } else {
            match asset_named(rest, name) {
                Some(asset) => {
                    let i = choose|i: int| 0 <= i < rest.len() && rest[i] == asset;
                    assert(assets[i + 1] == asset);
                },
                None => {
                    assert forall|i: int| 0 <= i < assets.len() implies (
                    #[trigger] assets[i]).name != name by {
                        if i > 0 {
                            assert(assets[i] == rest[i - 1]);
                        }
                    }
                },
            }
        }
    }
}

/// Whatever is answered, a command that is handed out has neither arguments nor environment.
pub proof fn commands_are_bare(step: ServerView, cached: Option<Seq<char>>, reply: ReplyView)
    requires
        !(step is Finished),
    ensures
        server_step(step, cached, reply).0 matches ServerView::Finished(Ok(command)) ==> command
            == bare_command(command.command),
{
}

/// Whatever is answered, what is remembered changes only to an executable that is handed out in
/// the same step.
pub proof fn only_handed_out_is_remembered(
    step: ServerView,
    cached: Option<Seq<char>>,
    reply: ReplyView,
)
    ensures
        server_step(step, cached, reply).1 == cached || exists|path: Seq<char>|
            server_step(step, cached, reply) == (
                ServerView::Finished(Ok(#[trigger] bare_command(path))),
                Some(path),
            ),
{
    if server_step(step, cached, reply).1 != cached {
        let path = server_step(step, cached, reply).1->0;
        assert(server_step(step, cached, reply).0 == ServerView::Finished(
            Ok(bare_command(path)),
        ));
    }
}

/// Whatever is answered, an error leaves what is remembered as it was.
pub proof fn errors_are_not_remembered(
    step: ServerView,
    cached: Option<Seq<char>>,
    reply: ReplyView,
)
    ensures
        server_step(step, cached, reply).0 matches ServerView::Finished(Err(_)) ==> server_step(
            step,
            cached,
            reply,
        ).1 == cached,
{
}

/// An entry is removed right after it came up in the walk, and only if its name is not that of the
/// directory of the release.
pub proof fn release_is_not_removed(
    step: ServerView,
    cached: Option<Seq<char>>,
    reply: ReplyView,
    plan: InstallPlanView,
)
    requires
        !(step is RemoveEntry),
    ensures
        server_step(step, cached, reply).0 == ServerView::RemoveEntry(plan) <==> (step
            == ServerView::NextEntry(plan) && (reply matches ReplyView::Entry(
            DirectoryEntryView::Named(name),
        ) && name != Some(plan.version_dir))),
{
}

/// A plan, for every platform, runs `xmake_ls.exe` on Windows and `xmake_ls` elsewhere, in the
/// directory named after the version, and unpacks there one of the files of the release: a ZIP
/// archive on Windows and a gzipped tar archive elsewhere.
pub proof fn executable_is_named_for_the_platform(
    release: ReleaseView,
    os: Os,
    arch: Architecture,
    settings: Option<JsonView>,
    plan: InstallPlanView,
)
    requires
        plan_for(release, os, arch, settings) == Ok::<InstallPlanView, Seq<char>>(plan),
    ensures
        plan.os == os,
        plan.version_dir == "xmake_ls-"@ + release.version,
        match os {
            Os::Mac => plan.binary_path == "xmake_ls-"@ + release.version + "/xmake_ls"@,
            Os::Linux => plan.binary_path == "xmake_ls-"@ + release.version + "/xmake_ls"@,
            Os::Windows => plan.binary_path == "xmake_ls-"@ + release.version + "/xmake_ls.exe"@,
        },
        match os {
            Os::Mac => plan.file_type == DownloadedFileType::GzipTar,
            Os::Linux => plan.file_type == DownloadedFileType::GzipTar,
            Os::Windows => plan.file_type == DownloadedFileType::Zip,
        },
        exists|i: int|
            0 <= i < release.assets.len() && (#[trigger] release.assets[i]).download_url
                == plan.url,
{
    lemma_binary_paths(release.version);
    let package = package_for(os, arch, settings)->Ok_0;
    asset_has_its_name(release.assets, package.asset_name);
}

proof fn lemma_binary_paths(version: Seq<char>)
    ensures
        "xmake_ls-"@ + version + "/"@ + "xmake_ls"@ == "xmake_ls-"@ + version + "/xmake_ls"@,
        "xmake_ls-"@ + version + "/"@ + "xmake_ls.exe"@ == "xmake_ls-"@ + version
            + "/xmake_ls.exe"@,
{
    reveal_strlit("/");
    reveal_strlit("xmake_ls");
    reveal_strlit("xmake_ls.exe");
    reveal_strlit("/xmake_ls");
    reveal_strlit("/xmake_ls.exe");
    assert("/"@ + "xmake_ls"@ =~= "/xmake_ls"@);
    assert("/"@ + "xmake_ls.exe"@ =~= "/xmake_ls.exe"@);
    assert("xmake_ls-"@ + version + "/"@ + "xmake_ls"@ =~= "xmake_ls-"@ + version + ("/"@
        + "xmake_ls"@));
    assert("xmake_ls-"@ + version + "/"@ + "xmake_ls.exe"@ =~= "xmake_ls-"@ + version + ("/"@
        + "xmake_ls.exe"@));
}

/// The file that is downloaded on macOS and Windows: the first of the release with the name for the
/// architecture, whatever the settings say.
pub proof fn asset_is_that_of_the_architecture(
    release: ReleaseView,
    os: Os,
    arch: Architecture,
    settings: Option<JsonView>,
    at: int,
)
    requires
        0 <= at < release.assets.len(),
        forall|i: int|
            0 <= i < at ==> (#[trigger] release.assets[i]).name != release.assets[at].name,
        match (os, arch) {
            (Os::Mac, Architecture::Aarch64) => release.assets[at].name
                == "xmake_ls-darwin-arm64.tar.gz"@,
            (Os::Mac, Architecture::X8664) => release.assets[at].name
                == "xmake_ls-darwin-x64.tar.gz"@,
            (Os::Windows, Architecture::Aarch64) => release.assets[at].name
                == "xmake_ls-win32-arm64.zip"@,
            (Os::Windows, Architecture::X8664) => release.assets[at].name
                == "xmake_ls-win32-x64.zip"@,
            (Os::Windows, Architecture::X86) => release.assets[at].name
                == "xmake_ls-win32-ia32.zip"@,
            _ => false,
        },
    ensures
        plan_for(release, os, arch, settings) matches Ok(plan) && plan.url
            == release.assets[at].download_url,
{
    lemma_asset_names();
    lemma_first_asset(release.assets, at);
}

/// The file that is downloaded on Linux: the first of the release with the name for the variant that
/// the settings name, or else for the architecture.
pub proof fn asset_is_that_of_the_variant(
    release: ReleaseView,
    arch: Architecture,
    settings: Option<JsonView>,
    variant: Seq<char>,
    at: int,
)
    requires
        0 <= at < release.assets.len(),
        forall|i: int|
            0 <= i < at ==> (#[trigger] release.assets[i]).name != release.assets[at].name,
        match settings {
            Some(JsonView::Object(members)) => if members.contains_key("linuxVariant"@)
                && members["linuxVariant"@] is Text {
                members["linuxVariant"@] == JsonView::Text(variant)
            } else {
                is_usual_variant(arch, variant)
            },
            _ => is_usual_variant(arch, variant),
        },
        release.assets[at].name == "xmake_ls-linux-"@ + variant + ".tar.gz"@,
    ensures
        plan_for(release, Os::Linux, arch, settings) matches Ok(plan) && plan.url
            == release.assets[at].download_url,
{
    lemma_first_asset(release.assets, at);
}

/// Whether a variant is the one for an architecture.
pub open spec fn is_usual_variant(arch: Architecture, variant: Seq<char>) -> bool {
    ||| arch == Architecture::Aarch64 && variant == "aarch64-glibc.2.17"@
    ||| arch == Architecture::X8664 && variant == "x64-glibc.2.17"@
}

/// The variant for Linux: the text under `linuxVariant`, whatever else the settings hold and on every
/// architecture, and without one that for the architecture; there is none for 32-bit x86.
pub proof fn variant_is_named_or_usual(
    members: Map<Seq<char>, JsonView>,
    variant: Seq<char>,
    other: Option<JsonView>,
    arch: Architecture,
)
    requires
        !(other matches Some(JsonView::Object(others)) && others.contains_key("linuxVariant"@)
            && others["linuxVariant"@] is Text),
    ensures
        linux_variant(
            Some(JsonView::Object(members.insert("linuxVariant"@, JsonView::Text(variant)))),
            arch,
        ) == Ok::<Seq<char>, Seq<char>>(variant),
        linux_variant(other, Architecture::Aarch64) == Ok::<Seq<char>, Seq<char>>(
            "aarch64-glibc.2.17"@,
        ),
        linux_variant(other, Architecture::X8664) == Ok::<Seq<char>, Seq<char>>("x64-glibc.2.17"@),
        linux_variant(other, Architecture::X86) == Err::<Seq<char>, Seq<char>>(
            "32-bit x86 Linux is not supported by xmake_ls"@,
        ),
{
}

/// The package for each platform: the name of its file in a release, how that is unpacked, and the
/// executable in it.
pub proof fn packages_have_their_names(os: Os, arch: Architecture, settings: Option<JsonView>)
    ensures
        package_for(os, arch, settings) matches Ok(package) ==> match os {
            Os::Mac => package.file_type == DownloadedFileType::GzipTar && package.binary_name
                == "xmake_ls"@ && package.asset_name == if arch == Architecture::Aarch64 {
                "xmake_ls-darwin-arm64.tar.gz"@
            } else {
                "xmake_ls-darwin-x64.tar.gz"@
            },
            Os::Linux => package.file_type == DownloadedFileType::GzipTar && package.binary_name
                == "xmake_ls"@ && (linux_variant(settings, arch) matches Ok(variant)
                && package.asset_name == "xmake_ls-linux-"@ + variant + ".tar.gz"@),
            Os::Windows => package.file_type == DownloadedFileType::Zip && package.binary_name
                == "xmake_ls.exe"@ && package.asset_name == match arch {
                Architecture::Aarch64 => "xmake_ls-win32-arm64.zip"@,
                Architecture::X8664 => "xmake_ls-win32-x64.zip"@,
                Architecture::X86 => "xmake_ls-win32-ia32.zip"@,
            },
        },
        package_for(os, arch, settings) matches Err(message) ==> match os {
            Os::Mac => arch == Architecture::X86 && message
                == "32-bit macOS is not supported by xmake_ls"@,
            Os::Linux => arch == Architecture::X86 && message
                == "32-bit x86 Linux is not supported by xmake_ls"@,
            Os::Windows => false,
        },
        os == Os::Mac && arch == Architecture::X86 ==> package_for(os, arch, settings) is Err,
        os == Os::Linux ==> (package_for(os, arch, settings) is Ok <==> linux_variant(
            settings,
            arch,
        ) is Ok),
{
    lemma_asset_names();
}

proof fn lemma_asset_names()
    ensures
        "xmake_ls-darwin-"@ + "arm64"@ + ".tar.gz"@ == "xmake_ls-darwin-arm64.tar.gz"@,
        "xmake_ls-darwin-"@ + "x64"@ + ".tar.gz"@ == "xmake_ls-darwin-x64.tar.gz"@,
        "xmake_ls-win32-"@ + "arm64"@ + ".zip"@ == "xmake_ls-win32-arm64.zip"@,
        "xmake_ls-win32-"@ + "x64"@ + ".zip"@ == "xmake_ls-win32-x64.zip"@,
        "xmake_ls-win32-"@ + "ia32"@ + ".zip"@ == "xmake_ls-win32-ia32.zip"@,
{
    reveal_strlit("xmake_ls-darwin-");
    reveal_strlit("xmake_ls-win32-");
    reveal_strlit("arm64");
    reveal_strlit("x64");
    reveal_strlit("ia32");
    reveal_strlit(".tar.gz");
    reveal_strlit(".zip");
    reveal_strlit("xmake_ls-darwin-arm64.tar.gz");
    reveal_strlit("xmake_ls-darwin-x64.tar.gz");
    reveal_strlit("xmake_ls-win32-arm64.zip");
    reveal_strlit("xmake_ls-win32-x64.zip");
    reveal_strlit("xmake_ls-win32-ia32.zip");
    assert("xmake_ls-darwin-"@ + "arm64"@ + ".tar.gz"@ =~= "xmake_ls-darwin-arm64.tar.gz"@);
    assert("xmake_ls-darwin-"@ + "x64"@ + ".tar.gz"@ =~= "xmake_ls-darwin-x64.tar.gz"@);
    assert("xmake_ls-win32-"@ + "arm64"@ + ".zip"@ =~= "xmake_ls-win32-arm64.zip"@);
    assert("xmake_ls-win32-"@ + "x64"@ + ".zip"@ =~= "xmake_ls-win32-x64.zip"@);
    assert("xmake_ls-win32-"@ + "ia32"@ + ".zip"@ =~= "xmake_ls-win32-ia32.zip"@);
}

/// An asset with whose name none before it is named is the one that is found under it.
proof fn lemma_first_asset(assets: Seq<AssetView>, at: int)
    requires
        0 <= at < assets.len(),
        forall|i: int| 0 <= i < at ==> (#[trigger] assets[i]).name != assets[at].name,
    ensures
        asset_named(assets, assets[at].name) == Some(assets[at]),
    decreases assets.len(),
{
    if at > 0 {
        let rest = assets.drop_first();
        assert forall|i: int| 0 <= i < at - 1 implies (#[trigger] rest[i]).name != rest[at
            - 1].name by {
            assert(rest[i] == assets[i + 1]);
        }
        assert(assets[0].name != assets[at].name);
        lemma_first_asset(rest, at - 1);
    }
}

/// A release without the file for the platform is refused, with the name of that file and the names
/// of those that there are, in their order, all quoted.
pub proof fn release_without_the_asset_is_refused(
    release: ReleaseView,
    os: Os,
    arch: Architecture,
    settings: Option<JsonView>,
    name: Seq<char>,
)
    requires
        forall|i: int| 0 <= i < release.assets.len() ==> (#[trigger] release.assets[i]).name != name,
        package_for(os, arch, settings) matches Ok(package) && package.asset_name == name,
    ensures
        plan_for(release, os, arch, settings) == Err::<InstallPlanView, Seq<char>>(
            "no asset found matching "@ + quoted(name) + ". Available: "@ + bracketed(
                Seq::new(release.assets.len(), |i: int| quoted(release.assets[i].name)),
            ),
        ),
{
    asset_has_its_name(release.assets, name);
    assert(quoted_names(release.assets) =~= Seq::new(
        release.assets.len(),
        |i: int| quoted(release.assets[i].name),
    ));
}

/// A platform without a package is refused, whatever the release holds, with the reason.
pub proof fn platform_without_a_package_is_refused(
    release: ReleaseView,
    settings: Option<JsonView>,
    other: Option<JsonView>,
)
    requires
        !(other matches Some(JsonView::Object(others)) && others.contains_key("linuxVariant"@)
            && others["linuxVariant"@] is Text),
    ensures
        plan_for(release, Os::Mac, Architecture::X86, settings) == Err::<
            InstallPlanView,
            Seq<char>,
        >("32-bit macOS is not supported by xmake_ls"@),
        plan_for(release, Os::Linux, Architecture::X86, other) == Err::<
            InstallPlanView,
            Seq<char>,
        >("32-bit x86 Linux is not supported by xmake_ls"@),
{
}

} // verus!
