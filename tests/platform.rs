use zed_iwe::error::InstallError;
use zed_iwe::platform::{resolve, ArchiveExtension, ArchiveKind, Architecture, Os};

fn check_tar_gz(os: Os, arch: Architecture, triple: &str) {
    let d = resolve(os, arch).unwrap();
    assert_eq!(d.target_triple, triple);
    assert_eq!(d.archive_extension, ArchiveExtension::TarGz);
    assert_eq!(d.archive_kind, ArchiveKind::GzipTar);
    assert_eq!(d.binary_file_name, "iwes");
}

#[test]
fn mac_uses_universal_build_on_every_architecture() {
    check_tar_gz(Os::Mac, Architecture::Aarch64, "universal-apple-darwin");
    check_tar_gz(Os::Mac, Architecture::X86, "universal-apple-darwin");
    check_tar_gz(Os::Mac, Architecture::X8664, "universal-apple-darwin");
}

#[test]
fn linux_builds() {
    check_tar_gz(Os::Linux, Architecture::Aarch64, "aarch64-unknown-linux-gnu");
    check_tar_gz(Os::Linux, Architecture::X8664, "x86_64-unknown-linux-gnu");
}

#[test]
fn windows_x86_64_uses_zip_and_exe() {
    let d = resolve(Os::Windows, Architecture::X8664).unwrap();
    assert_eq!(d.target_triple, "x86_64-pc-windows-msvc");
    assert_eq!(d.archive_extension, ArchiveExtension::Zip);
    assert_eq!(d.archive_kind, ArchiveKind::Zip);
    assert_eq!(d.binary_file_name, "iwes.exe");
}

#[test]
fn windows_aarch64_is_unsupported() {
    let e = resolve(Os::Windows, Architecture::Aarch64).unwrap_err();
    assert_eq!(
        e,
        InstallError::UnsupportedPlatform { os: Os::Windows, arch: Architecture::Aarch64 }
    );
    let m = e.message();
    assert!(m.contains("Windows"));
    assert!(m.contains("aarch64"));
    assert_eq!(m, "unsupported platform: Windows aarch64");
}

#[test]
fn other_unsupported_pairs_fail() {
    for (os, arch) in [
        (Os::Linux, Architecture::X86),
        (Os::Windows, Architecture::X86),
        (Os::Windows, Architecture::Aarch64),
    ] {
        assert_eq!(
            resolve(os, arch).unwrap_err(),
            InstallError::UnsupportedPlatform { os, arch }
        );
    }
    let m = resolve(Os::Linux, Architecture::X86).unwrap_err().message();
    assert_eq!(m, "unsupported platform: Linux x86");
}

#[test]
fn names_of_systems_and_extensions() {
    assert_eq!(Os::Mac.name(), "macOS");
    assert_eq!(Architecture::X8664.name(), "x86_64");
    assert_eq!(ArchiveExtension::TarGz.as_str(), "tar.gz");
    assert_eq!(ArchiveExtension::Zip.as_str(), "zip");
}
