//! The mapping from a platform to the release artifact built for it.
use vstd::prelude::*;
use vstd::string::StringExecFns;
use crate::error::{ErrorView, InstallError};

verus! {

/// An operating system that the host may run on.
#[derive(Clone, Copy, Debug, PartialEq, Eq, Structural)]
pub enum Os {
    Mac,
    Linux,
    Windows,
}

/// A processor architecture that the host may run on.
#[derive(Clone, Copy, Debug, PartialEq, Eq, Structural)]
pub enum Architecture {
    Aarch64,
    X86,
    X8664,
}

/// The file extension that a release archive carries.
#[derive(Clone, Copy, Debug, PartialEq, Eq, Structural)]
pub enum ArchiveExtension {
    TarGz,
    Zip,
}

/// How a downloaded archive is unpacked.
#[derive(Clone, Copy, Debug, PartialEq, Eq, Structural)]
pub enum ArchiveKind {
    GzipTar,
    Zip,
}

pub open spec fn os_name_spec(os: Os) -> Seq<char> {
    match os {
        Os::Mac => "macOS"@,
        Os::Linux => "Linux"@,
        Os::Windows => "Windows"@,
    }
}

pub open spec fn arch_name_spec(arch: Architecture) -> Seq<char> {
    match arch {
        Architecture::Aarch64 => "aarch64"@,
        Architecture::X86 => "x86"@,
        Architecture::X8664 => "x86_64"@,
    }
}

pub open spec fn extension_spec(ext: ArchiveExtension) -> Seq<char> {
    match ext {
        ArchiveExtension::TarGz => "tar.gz"@,
        ArchiveExtension::Zip => "zip"@,
    }
}

impl Os {
    /// The name under which the system is shown to users.
    pub fn name(&self) -> (r: &'static str)
        ensures
            r@ == os_name_spec(*self),
    {
        match self {
            Os::Mac => "macOS",
            Os::Linux => "Linux",
            Os::Windows => "Windows",
        }
    }
}

impl Architecture {
    /// The name under which the architecture is shown to users.
    pub fn name(&self) -> (r: &'static str)
        ensures
            r@ == arch_name_spec(*self),
    {
        match self {
            Architecture::Aarch64 => "aarch64",
            Architecture::X86 => "x86",
            Architecture::X8664 => "x86_64",
        }
    }
}

impl ArchiveExtension {
    /// The extension as it appears in a file name, without the leading dot.
    pub fn as_str(&self) -> (r: &'static str)
        ensures
            r@ == extension_spec(*self),
    {
        match self {
            ArchiveExtension::TarGz => "tar.gz",
            ArchiveExtension::Zip => "zip",
        }
    }
}

/// What is known of a platform's artifact, as mathematical values.
pub struct DescriptorView {
    pub target_triple: Seq<char>,
    pub archive_extension: ArchiveExtension,
    pub binary_file_name: Seq<char>,
    pub archive_kind: ArchiveKind,
}

/// The release artifact built for one platform.
#[derive(Debug, PartialEq, Eq)]
pub struct ArtifactDescriptor {
    pub target_triple: String,
    pub archive_extension: ArchiveExtension,
    pub binary_file_name: String,
    pub archive_kind: ArchiveKind,
}

impl View for ArtifactDescriptor {
    type V = DescriptorView;

    open spec fn view(&self) -> DescriptorView {
        DescriptorView {
            target_triple: self.target_triple@,
            archive_extension: self.archive_extension,
            binary_file_name: self.binary_file_name@,
            archive_kind: self.archive_kind,
        }
    }
}

pub open spec fn tar_gz_artifact(triple: Seq<char>) -> DescriptorView {
    DescriptorView {
        target_triple: triple,
        archive_extension: ArchiveExtension::TarGz,
        binary_file_name: "iwes"@,
        archive_kind: ArchiveKind::GzipTar,
    }
}

/// The artifact of each supported platform; `None` for every other one.
pub open spec fn platform_table(os: Os, arch: Architecture) -> Option<DescriptorView> {
    match (os, arch) {
        (Os::Mac, _) => Some(tar_gz_artifact("universal-apple-darwin"@)),
        (Os::Linux, Architecture::Aarch64) => Some(tar_gz_artifact("aarch64-unknown-linux-gnu"@)),
        (Os::Linux, Architecture::X8664) => Some(tar_gz_artifact("x86_64-unknown-linux-gnu"@)),
        (Os::Windows, Architecture::X8664) => Some(
            DescriptorView {
                target_triple: "x86_64-pc-windows-msvc"@,
                archive_extension: ArchiveExtension::Zip,
                binary_file_name: "iwes.exe"@,
                archive_kind: ArchiveKind::Zip,
            },
        ),
        _ => None,
    }
}

fn tar_gz_descriptor(triple: &str) -> (r: ArtifactDescriptor)
    ensures
        r@ == tar_gz_artifact(triple@),
{
    ArtifactDescriptor {
        target_triple: String::from_str(triple),
        archive_extension: ArchiveExtension::TarGz,
        binary_file_name: String::from_str("iwes"),
        archive_kind: ArchiveKind::GzipTar,
    }
}

/// The artifact to download for `os` and `arch`. Where no artifact is built
/// for that pair, the error names both.
pub fn resolve(os: Os, arch: Architecture) -> (r: Result<ArtifactDescriptor, InstallError>)
    ensures
        match r {
            Ok(d) => platform_table(os, arch) == Some(d@),
            Err(e) => platform_table(os, arch) is None && e@ == (ErrorView::UnsupportedPlatform {
                os,
                arch,
            }),
        },
{
    match (os, arch) {
        (Os::Mac, _) => Ok(tar_gz_descriptor("universal-apple-darwin")),
        (Os::Linux, Architecture::Aarch64) => Ok(tar_gz_descriptor("aarch64-unknown-linux-gnu")),
        (Os::Linux, Architecture::X8664) => Ok(tar_gz_descriptor("x86_64-unknown-linux-gnu")),
        (Os::Windows, Architecture::X8664) => Ok(
            ArtifactDescriptor {
                target_triple: String::from_str("x86_64-pc-windows-msvc"),
                archive_extension: ArchiveExtension::Zip,
                binary_file_name: String::from_str("iwes.exe"),
                archive_kind: ArchiveKind::Zip,
            },
        ),
        _ => Err(InstallError::UnsupportedPlatform { os, arch }),
    }
}

} // verus!
