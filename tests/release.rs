use zed_iwe::error::InstallError;
use zed_iwe::platform::{resolve, Architecture, Os};
use zed_iwe::release::{expected_asset_name, select_asset, Asset, ReleaseInfo};

fn asset(name: &str) -> Asset {
    Asset { name: name.to_string(), download_url: format!("https://example.com/{name}") }
}

fn release(version: &str, names: &[&str]) -> ReleaseInfo {
    ReleaseInfo { version: version.to_string(), assets: names.iter().map(|n| asset(n)).collect() }
}

#[test]
fn asset_name_joins_version_triple_and_extension() {
    let linux = resolve(Os::Linux, Architecture::X8664).unwrap();
    assert_eq!(expected_asset_name("2.3.1", &linux), "2.3.1-x86_64-unknown-linux-gnu.tar.gz");
    let windows = resolve(Os::Windows, Architecture::X8664).unwrap();
    assert_eq!(expected_asset_name("0.9.0", &windows), "0.9.0-x86_64-pc-windows-msvc.zip");
}

#[test]
fn selects_exact_name_only() {
    let d = resolve(Os::Linux, Architecture::Aarch64).unwrap();
    let r = release(
        "1.0.0",
        &[
            "iwe-1.0.0-aarch64-unknown-linux-gnu.tar.gz",
            "1.0.0-aarch64-unknown-linux-gnu.tar.gz.sha256",
            "1.0.0-aarch64-unknown-linux-gnu.zip",
            "1.0.0-aarch64-unknown-linux-gnu.tar.gz",
            "1.0.0-x86_64-unknown-linux-gnu.tar.gz",
        ],
    );
    let a = select_asset(&r, &d).unwrap();
    assert_eq!(a, asset("1.0.0-aarch64-unknown-linux-gnu.tar.gz"));
}

#[test]
fn first_of_equal_names_is_taken() {
    let d = resolve(Os::Mac, Architecture::Aarch64).unwrap();
    let mut r = release("3.0.0", &["3.0.0-universal-apple-darwin.tar.gz"]);
    r.assets.push(Asset {
        name: "3.0.0-universal-apple-darwin.tar.gz".to_string(),
        download_url: "https://mirror.example.com/other".to_string(),
    });
    let a = select_asset(&r, &d).unwrap();
    assert_eq!(a.download_url, "https://example.com/3.0.0-universal-apple-darwin.tar.gz");
}

#[test]
fn missing_asset_names_the_expected_one() {
    let d = resolve(Os::Linux, Architecture::X8664).unwrap();
    let r = release("2.3.1", &["2.3.1-aarch64-unknown-linux-gnu.tar.gz"]);
    let e = select_asset(&r, &d).unwrap_err();
    assert_eq!(
        e,
        InstallError::AssetNotFound {
            expected: "2.3.1-x86_64-unknown-linux-gnu.tar.gz".to_string()
        }
    );
    assert_eq!(e.message(), "no asset found matching 2.3.1-x86_64-unknown-linux-gnu.tar.gz");
}

#[test]
fn empty_asset_list_has_no_match() {
    let d = resolve(Os::Windows, Architecture::X8664).unwrap();
    let e = select_asset(&release("5.0.0", &[]), &d).unwrap_err();
    assert_eq!(
        e,
        InstallError::AssetNotFound { expected: "5.0.0-x86_64-pc-windows-msvc.zip".to_string() }
    );
}
