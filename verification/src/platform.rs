//! Platforms, and the release asset of `xmake_ls` for each of them.
use vstd::prelude::*;

use crate::json::{json_content, json_member_text, member_text, JsonView};
use crate::text::result_view;

verus! {

/// An operating system.
#[derive(Clone, Copy, Debug, PartialEq, Eq, Structural)]
pub enum Os {
    Mac,
    Linux,
    Windows,
}

/// A processor architecture.
#[derive(Clone, Copy, Debug, PartialEq, Eq, Structural)]
pub enum Architecture {
    Aarch64,
    X86,
    X8664,
}

/// How a downloaded file is unpacked.
#[derive(Clone, Copy, Debug, PartialEq, Eq, Structural)]
pub enum DownloadedFileType {
    GzipTar,
    Zip,
}

/// What a release offers for one platform.
#[derive(Debug, PartialEq, Eq)]
pub struct ServerPackage {
    /// The name of the asset in the release.
    pub asset_name: String,
    pub file_type: DownloadedFileType,
    /// The name of the executable in the unpacked asset.
    pub binary_name: String,
}

#[verifier::ext_equal]
pub struct ServerPackageView {
    pub asset_name: Seq<char>,
    pub file_type: DownloadedFileType,
    pub binary_name: Seq<char>,
}

impl DeepView for ServerPackage {
    type V = ServerPackageView;

    open spec fn deep_view(&self) -> ServerPackageView {
        ServerPackageView {
            asset_name: self.asset_name@,
            file_type: self.file_type,
            binary_name: self.binary_name@,
        }
    }
}

/// What a settings value holds, if there is one.
pub open spec fn settings_content(settings: Option<serde_json::Value>) -> Option<JsonView> {
    match settings {
        Some(value) => Some(json_content(value)),
        None => None,
    }
}

/// The variant that the settings of the language server ask for, if they do.
pub open spec fn chosen_variant(settings: Option<JsonView>) -> Option<Seq<char>> {
    match settings {
        Some(value) => json_member_text(value, "linuxVariant"@),
        None => None,
    }
}

/// The build for Linux: the variant that the settings name, or else the build against glibc 2.17
/// for the architecture. There is none for 32-bit x86 unless the settings name one.
pub open spec fn linux_variant(settings: Option<JsonView>, arch: Architecture) -> Result<
    Seq<char>,
    Seq<char>,
> {
    match chosen_variant(settings) {
        Some(variant) => Ok(variant),
        None => match arch {
            Architecture::Aarch64 => Ok("aarch64-glibc.2.17"@),
            Architecture::X8664 => Ok("x64-glibc.2.17"@),
            Architecture::X86 => Err("32-bit x86 Linux is not supported by xmake_ls"@),
        },
    }
}

/// The build for Linux.
pub fn get_linux_variant(settings: &Option<serde_json::Value>, arch: Architecture) -> (result:
    Result<String, String>)
    ensures
        result_view(result) == linux_variant(settings_content(*settings), arch),
{
    if let Some(value) = settings {
        if let Some(variant) = member_text(value, "linuxVariant") {
            return Ok(variant);
        }
    }
    match arch {
        Architecture::Aarch64 => Ok("aarch64-glibc.2.17".to_string()),
        Architecture::X8664 => Ok("x64-glibc.2.17".to_string()),
        Architecture::X86 => Err("32-bit x86 Linux is not supported by xmake_ls".to_string()),
    }
}

/// The part of an asset's name that stands for the architecture, on macOS.
pub open spec fn mac_architecture(arch: Architecture) -> Result<Seq<char>, Seq<char>> {
    match arch {
        Architecture::Aarch64 => Ok("arm64"@),
        Architecture::X8664 => Ok("x64"@),
        Architecture::X86 => Err("32-bit macOS is not supported by xmake_ls"@),
    }
}

/// The part of an asset's name that stands for the architecture, on Windows.
pub open spec fn windows_architecture(arch: Architecture) -> Seq<char> {
    match arch {
        Architecture::Aarch64 => "arm64"@,
        Architecture::X8664 => "x64"@,
        Architecture::X86 => "ia32"@,
    }
}

/// The package for a platform. The settings of the language server count on Linux only.
pub open spec fn package_for(
    os: Os,
    arch: Architecture,
    settings: Option<JsonView>,
) -> Result<ServerPackageView, Seq<char>> {
    match os {
        Os::Mac => match mac_architecture(arch) {
            Ok(name) => Ok(
                ServerPackageView {
                    asset_name: "xmake_ls-darwin-"@ + name + ".tar.gz"@,
                    file_type: DownloadedFileType::GzipTar,
                    binary_name: "xmake_ls"@,
                },
            ),
            Err(message) => Err(message),
        },
        Os::Linux => match linux_variant(settings, arch) {
            Ok(name) => Ok(
                ServerPackageView {
                    asset_name: "xmake_ls-linux-"@ + name + ".tar.gz"@,
                    file_type: DownloadedFileType::GzipTar,
                    binary_name: "xmake_ls"@,
                },
            ),
            Err(message) => Err(message),
        },
        Os::Windows => Ok(
            ServerPackageView {
                asset_name: "xmake_ls-win32-"@ + windows_architecture(arch) + ".zip"@,
                file_type: DownloadedFileType::Zip,
                binary_name: "xmake_ls.exe"@,
            },
        ),
    }
}

/// The package for a platform.
pub fn server_package(
    os: Os,
    arch: Architecture,
    settings: &Option<serde_json::Value>,
) -> (result: Result<ServerPackage, String>)
    ensures
        result_view(result) == package_for(os, arch, settings_content(*settings)),
{
    match os {
        Os::Mac => {
            let name = match arch {
                Architecture::Aarch64 => "arm64",
                Architecture::X8664 => "x64",
                Architecture::X86 => {
                    return Err("32-bit macOS is not supported by xmake_ls".to_string());
                },
            };
            Ok(
                ServerPackage {
                    asset_name: "xmake_ls-darwin-".to_string().concat(name).concat(".tar.gz"),
                    file_type: DownloadedFileType::GzipTar,
                    binary_name: "xmake_ls".to_string(),
                },
            )
        },
        Os::Linux => match get_linux_variant(settings, arch) {
            Ok(variant) => Ok(
                ServerPackage {
                    asset_name: "xmake_ls-linux-".to_string().concat(variant.as_str()).concat(
                        ".tar.gz",
                    ),
                    file_type: DownloadedFileType::GzipTar,
                    binary_name: "xmake_ls".to_string(),
                },
            ),
            Err(message) => Err(message),
        },
        Os::Windows => {
            let name = match arch {
                Architecture::Aarch64 => "arm64",
                Architecture::X8664 => "x64",
                Architecture::X86 => "ia32",
            };
            Ok(
                ServerPackage {
                    asset_name: "xmake_ls-win32-".to_string().concat(name).concat(".zip"),
                    file_type: DownloadedFileType::Zip,
                    binary_name: "xmake_ls.exe".to_string(),
                },
            )
        },
    }
}

} // verus!
