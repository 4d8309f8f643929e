use zed_xmake::host::{Asset, Release};
use zed_xmake::platform::{
    server_package, Architecture, DownloadedFileType, Os, ServerPackage,
};
use zed_xmake::server::{plan_installation, say_no_asset, InstallPlan};

fn package(asset: &str, file_type: DownloadedFileType, binary: &str) -> ServerPackage {
    ServerPackage {
        asset_name: asset.to_string(),
        file_type,
        binary_name: binary.to_string(),
    }
}

fn asset(name: &str, url: &str) -> Asset {
    Asset { name: name.to_string(), download_url: url.to_string() }
}

#[test]
fn mac_packages() {
    assert_eq!(
        server_package(Os::Mac, Architecture::Aarch64, &None),
        Ok(package("xmake_ls-darwin-arm64.tar.gz", DownloadedFileType::GzipTar, "xmake_ls"))
    );
    assert_eq!(
        server_package(Os::Mac, Architecture::X8664, &None),
        Ok(package("xmake_ls-darwin-x64.tar.gz", DownloadedFileType::GzipTar, "xmake_ls"))
    );
    assert_eq!(
        server_package(Os::Mac, Architecture::X86, &None),
        Err("32-bit macOS is not supported by xmake_ls".to_string())
    );
}

#[test]
fn windows_packages() {
    for (arch, name) in [
        (Architecture::Aarch64, "xmake_ls-win32-arm64.zip"),
        (Architecture::X8664, "xmake_ls-win32-x64.zip"),
        (Architecture::X86, "xmake_ls-win32-ia32.zip"),
    ] {
        assert_eq!(
            server_package(Os::Windows, arch, &None),
            Ok(package(name, DownloadedFileType::Zip, "xmake_ls.exe"))
        );
    }
}

#[test]
fn linux_packages() {
    assert_eq!(
        server_package(Os::Linux, Architecture::X8664, &None),
        Ok(package("xmake_ls-linux-x64-glibc.2.17.tar.gz", DownloadedFileType::GzipTar, "xmake_ls"))
    );
    assert_eq!(
        server_package(Os::Linux, Architecture::X86, &None),
        Err("32-bit x86 Linux is not supported by xmake_ls".to_string())
    );
}

#[test]
fn settings_count_on_linux_only() {
    let settings = Some(serde_json::from_str(r#"{"linuxVariant": "musl"}"#).unwrap());
    assert_eq!(
        server_package(Os::Linux, Architecture::X86, &settings),
        Ok(package("xmake_ls-linux-musl.tar.gz", DownloadedFileType::GzipTar, "xmake_ls"))
    );
    assert_eq!(
        server_package(Os::Windows, Architecture::X86, &settings),
        server_package(Os::Windows, Architecture::X86, &None)
    );
}

#[test]
fn plan_takes_the_first_asset_with_the_name() {
    let release = Release {
        version: "v1.2".to_string(),
        assets: vec![
            asset("other", "u0"),
            asset("xmake_ls-win32-x64.zip", "u1"),
            asset("xmake_ls-win32-x64.zip", "u2"),
        ],
    };
    assert_eq!(
        plan_installation(&release, Os::Windows, Architecture::X8664, &None),
        Ok(InstallPlan {
            os: Os::Windows,
            url: "u1".to_string(),
            file_type: DownloadedFileType::Zip,
            version_dir: "xmake_ls-v1.2".to_string(),
            binary_path: "xmake_ls-v1.2/xmake_ls.exe".to_string(),
        })
    );
}

#[test]
fn missing_assets_are_reported_with_quotes() {
    let release = Release {
        version: "1".to_string(),
        assets: vec![asset("a\"b", "u"), asset("c", "v")],
    };
    let settings = Some(serde_json::from_str(r#"{"linuxVariant": "x\\y"}"#).unwrap());
    assert_eq!(
        plan_installation(&release, Os::Linux, Architecture::X8664, &settings),
        Err("no asset found matching \"xmake_ls-linux-x\\\\y.tar.gz\". \
             Available: [\"a\\\"b\", \"c\"]"
            .to_string())
    );
}

#[test]
fn missing_assets_are_reported_as_debug_output_is() {
    let names = vec!["a\u{1}".to_string(), "tab\t".to_string(), "\u{e9}'".to_string()];
    let release = Release {
        version: "1".to_string(),
        assets: names.iter().map(|name| asset(name, "u")).collect(),
    };
    assert_eq!(
        plan_installation(&release, Os::Mac, Architecture::X8664, &None),
        Err(format!(
            "no asset found matching {:?}. Available: {:?}",
            "xmake_ls-darwin-x64.tar.gz", names
        ))
    );
}

#[test]
fn missing_asset_message_frames_its_parts() {
    assert_eq!(
        say_no_asset("W", &vec!["A".to_string(), "B".to_string()]),
        "no asset found matching W. Available: [A, B]"
    );
    assert_eq!(say_no_asset("W", &vec![]), "no asset found matching W. Available: []");
}

#[test]
fn unsupported_platforms_have_no_plan() {
    let release = Release { version: "1".to_string(), assets: vec![] };
    assert_eq!(
        plan_installation(&release, Os::Mac, Architecture::X86, &None),
        Err("32-bit macOS is not supported by xmake_ls".to_string())
    );
}
