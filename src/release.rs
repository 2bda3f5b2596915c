//! Releases as the release index reports them, and the choice of the asset
//! that fits a platform.
use vstd::prelude::*;
use vstd::string::StringExecFns;
use crate::error::{ErrorView, InstallError};
use crate::platform::{ArtifactDescriptor, DescriptorView, extension_spec};

verus! {

/// One downloadable file of a release.
#[derive(Debug, PartialEq, Eq)]
pub struct Asset {
    pub name: String,
    pub download_url: String,
}

pub struct AssetView {
    pub name: Seq<char>,
    pub download_url: Seq<char>,
}

impl View for Asset {
    type V = AssetView;

    open spec fn view(&self) -> AssetView {
        AssetView { name: self.name@, download_url: self.download_url@ }
    }
}

impl Asset {
    /// A copy of the asset.
    pub fn duplicate(&self) -> (r: Asset)
        ensures
            r@ == self@,
    {
        Asset { name: self.name.clone(), download_url: self.download_url.clone() }
    }
}

/// A published release: its version and its assets in the order given.
#[derive(Debug, PartialEq, Eq)]
pub struct ReleaseInfo {
    pub version: String,
    pub assets: Vec<Asset>,
}

pub struct ReleaseView {
    pub version: Seq<char>,
    pub assets: Seq<AssetView>,
}

impl View for ReleaseInfo {
    type V = ReleaseView;

    open spec fn view(&self) -> ReleaseView {
        ReleaseView {
            version: self.version@,
            assets: Seq::new(self.assets@.len(), |i: int| self.assets@[i]@),
        }
    }
}

/// `<version>-<target triple>.<archive extension>`
pub open spec fn asset_name_spec(version: Seq<char>, d: DescriptorView) -> Seq<char> {
    version + "-"@ + d.target_triple + "."@ + extension_spec(d.archive_extension)
}

/// `i` is the first position in `assets` of an asset named `name`.
pub open spec fn is_first_match(assets: Seq<AssetView>, name: Seq<char>, i: int) -> bool {
    &&& 0 <= i < assets.len()
    &&& assets[i].name == name
    &&& forall|j: int| 0 <= j < i ==> assets[j].name != name
}

/// The first asset whose name is exactly `name`, if any.
pub open spec fn find_asset(assets: Seq<AssetView>, name: Seq<char>) -> Option<AssetView> {
    if exists|i: int| is_first_match(assets, name, i) {
        Some(assets[choose|i: int| is_first_match(assets, name, i)])
    } else {
        None
    }
}

/// The asset that fits `d` in `release`, or the error that names the
/// expected asset.
pub open spec fn select_spec(release: ReleaseView, d: DescriptorView) -> Result<
    AssetView,
    ErrorView,
> {
    let expected = asset_name_spec(release.version, d);
    match find_asset(release.assets, expected) {
        Some(a) => Ok(a),
        None => Err(ErrorView::AssetNotFound { expected }),
    }
}

/// The name of the asset that holds the artifact `d` of `version`.
pub fn expected_asset_name(version: &str, d: &ArtifactDescriptor) -> (r: String)
    ensures
        r@ == asset_name_spec(version@, d@),
{
    String::from_str(version).concat("-").concat(d.target_triple.as_str()).concat(".").concat(
        d.archive_extension.as_str(),
    )
}

proof fn lemma_first_match_unique(assets: Seq<AssetView>, name: Seq<char>, i: int, k: int)
    requires
        is_first_match(assets, name, i),
        is_first_match(assets, name, k),
    ensures
        i == k,
{
    if i < k {
        assert(assets[i].name != name);
    } else if k < i {
        assert(assets[k].name != name);
    }
}

/// Picks the asset named exactly `<version>-<target triple>.<extension>`;
/// no other name is taken, however close.
pub fn select_asset(release: &ReleaseInfo, d: &ArtifactDescriptor) -> (r: Result<
    Asset,
    InstallError,
>)
    ensures
        match r {
            Ok(a) => select_spec(release@, d@) == Ok::<AssetView, ErrorView>(a@),
            Err(e) => select_spec(release@, d@) == Err::<AssetView, ErrorView>(e@),
        },
{
    let expected = expected_asset_name(release.version.as_str(), d);
    let ghost assets = release@.assets;
    let mut i: usize = 0;
    while i < release.assets.len()
        invariant
            i <= release.assets@.len(),
            assets == release@.assets,
            expected@ == asset_name_spec(release@.version, d@),
            forall|j: int| 0 <= j < i ==> assets[j].name != expected@,
        decreases release.assets@.len() - i,
    {
        let a = &release.assets[i];
        assert(assets[i as int] == a@);
        if a.name == expected {
            proof {
                assert(is_first_match(assets, expected@, i as int));
                let k = choose|k: int| is_first_match(assets, expected@, k);
                lemma_first_match_unique(assets, expected@, i as int, k);
            }
            return Ok(a.duplicate());
        }
        i = i + 1;
    }
    proof {
        assert forall|k: int| !is_first_match(assets, expected@, k) by {
            if is_first_match(assets, expected@, k) {
                assert(assets[k].name != expected@);
            }
        }
    }
    Err(InstallError::AssetNotFound { expected })
}

} // verus!
