//! Where a release is unpacked, and which directory entries are stale once
//! it is in place.
use vstd::prelude::*;
use vstd::string::StringExecFns;
use crate::platform::{ArchiveKind, ArtifactDescriptor};
use crate::release::Asset;

verus! {

/// The path of the binary `name` inside the directory of `version`.
pub open spec fn binary_path_spec(version: Seq<char>, name: Seq<char>) -> Seq<char> {
    version + "/"@ + name
}

/// The entries of the working directory that a sweep removes: all but the
/// directory of the version that is kept, in their order.
pub open spec fn stale_spec(entries: Seq<Seq<char>>, keep: Seq<char>) -> Seq<Seq<char>> {
    entries.filter(other_than(keep))
}

pub open spec fn other_than(keep: Seq<char>) -> spec_fn(Seq<char>) -> bool {
    |e: Seq<char>| e != keep
}

pub open spec fn names_of(v: Seq<String>) -> Seq<Seq<char>> {
    v.map_values(|s: String| s@)
}

/// What an install of one release needs to know.
#[derive(Debug, PartialEq, Eq)]
pub struct InstallPlan {
    /// The release version, which is also the name of its directory.
    pub version: String,
    pub download_url: String,
    pub archive_kind: ArchiveKind,
    pub binary_path: String,
}

pub struct PlanView {
    pub version: Seq<char>,
    pub download_url: Seq<char>,
    pub archive_kind: ArchiveKind,
    pub binary_path: Seq<char>,
}

impl View for InstallPlan {
    type V = PlanView;

    open spec fn view(&self) -> PlanView {
        PlanView {
            version: self.version@,
            download_url: self.download_url@,
            archive_kind: self.archive_kind,
            binary_path: self.binary_path@,
        }
    }
}

/// The install plan for `asset` of release `version` on the artifact `d`.
pub open spec fn plan_spec(
    version: Seq<char>,
    download_url: Seq<char>,
    kind: ArchiveKind,
    binary_file_name: Seq<char>,
) -> PlanView {
    PlanView {
        version,
        download_url,
        archive_kind: kind,
        binary_path: binary_path_spec(version, binary_file_name),
    }
}

/// The path of the binary of `d` once the release `version` is unpacked.
pub fn binary_path(version: &str, d: &ArtifactDescriptor) -> (r: String)
    ensures
        r@ == binary_path_spec(version@, d.binary_file_name@),
{
    String::from_str(version).concat("/").concat(d.binary_file_name.as_str())
}

/// The plan to install `asset` of release `version`, built for `d`.
pub fn make_plan(version: &String, asset: &Asset, d: &ArtifactDescriptor) -> (r: InstallPlan)
    ensures
        r@ == plan_spec(version@, asset.download_url@, d.archive_kind, d.binary_file_name@),
{
    InstallPlan {
        version: version.clone(),
        download_url: asset.download_url.clone(),
        archive_kind: d.archive_kind,
        binary_path: binary_path(version.as_str(), d),
    }
}

/// The entries to remove from the working directory so that only the
/// directory `keep` stays.
pub fn stale_entries(entries: &Vec<String>, keep: &String) -> (r: Vec<String>)
    ensures
        names_of(r@) == stale_spec(names_of(entries@), keep@),
{
    let ghost all = names_of(entries@);
    let mut r: Vec<String> = Vec::new();
    let mut i: usize = 0;
    while i < entries.len()
        invariant
            i <= entries@.len(),
            all == names_of(entries@),
            names_of(r@) == stale_spec(all.take(i as int), keep@),
        decreases entries@.len() - i,
    {
        let e = &entries[i];
        proof {
            let pre = all.take(i as int);
            let next = all.take(i as int + 1);
            assert(next.drop_last() =~= pre);
            assert(next.last() == e@);
            reveal(Seq::filter);
        }
        if *e != *keep {
            let ghost before = r@;
            r.push(e.clone());
            assert(names_of(r@) =~= names_of(before).push(e@));
        }
        i = i + 1;
    }
    assert(all.take(entries@.len() as int) =~= all);
    r
}

} // verus!
