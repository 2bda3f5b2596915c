use zed_iwe::platform::{resolve, ArchiveKind, Architecture, Os};
use zed_iwe::install::{binary_path, make_plan, stale_entries, InstallPlan};
use zed_iwe::release::Asset;

fn strings(v: &[&str]) -> Vec<String> {
    v.iter().map(|s| s.to_string()).collect()
}

#[test]
fn binary_lies_in_version_directory() {
    let linux = resolve(Os::Linux, Architecture::X8664).unwrap();
    assert_eq!(binary_path("2.3.1", &linux), "2.3.1/iwes");
    let windows = resolve(Os::Windows, Architecture::X8664).unwrap();
    assert_eq!(binary_path("0.4.2", &windows), "0.4.2/iwes.exe");
}

#[test]
fn plan_takes_url_kind_and_path() {
    let d = resolve(Os::Windows, Architecture::X8664).unwrap();
    let a = Asset {
        name: "1.2.3-x86_64-pc-windows-msvc.zip".to_string(),
        download_url: "https://example.com/w.zip".to_string(),
    };
    let plan = make_plan(&"1.2.3".to_string(), &a, &d);
    assert_eq!(
        plan,
        InstallPlan {
            version: "1.2.3".to_string(),
            download_url: "https://example.com/w.zip".to_string(),
            archive_kind: ArchiveKind::Zip,
            binary_path: "1.2.3/iwes.exe".to_string(),
        }
    );
}

#[test]
fn sweep_removes_all_but_the_version() {
    let entries = strings(&["0.1.0", "2.3.1", "0.2.0", "notes.txt"]);
    assert_eq!(stale_entries(&entries, &"2.3.1".to_string()), strings(&["0.1.0", "0.2.0", "notes.txt"]));
}

#[test]
fn sweep_of_only_the_version_removes_nothing() {
    assert!(stale_entries(&strings(&["2.3.1"]), &"2.3.1".to_string()).is_empty());
    assert!(stale_entries(&Vec::new(), &"2.3.1".to_string()).is_empty());
}

#[test]
fn sweep_without_the_version_removes_everything() {
    let entries = strings(&["a", "b"]);
    assert_eq!(stale_entries(&entries, &"c".to_string()), entries);
}
