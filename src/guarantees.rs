//! What holds of every resolution, stated over the models of the modules.
use vstd::prelude::*;
use crate::error::ErrorView;
use crate::install::{other_than, stale_spec};
use crate::platform::{Architecture, DescriptorView, Os, platform_table};
use crate::provider::{
    ActionView, EventView, PhaseView, ProviderView, accepts_spec, go, next_spec,
};
use crate::release::{ReleaseView, asset_name_spec, find_asset, is_first_match, select_spec};

verus! {

/// Exactly four kinds of platform have an artifact: macOS on any
/// architecture, Linux on aarch64 and on x86-64, and Windows on x86-64.
pub proof fn lemma_supported_platforms(os: Os, arch: Architecture)
    ensures
        platform_table(os, arch) is Some <==> {
            ||| os == Os::Mac
            ||| os == Os::Linux && arch != Architecture::X86
            ||| os == Os::Windows && arch == Architecture::X8664
        },
{
}

/// The asset chosen is one of the release whose name is exactly
/// `<version>-<target triple>.<extension>`; where the release has none of
/// that name, the error names the expected one.
pub proof fn lemma_selection_is_exact(release: ReleaseView, d: DescriptorView)
    ensures
        ({
            let expected = asset_name_spec(release.version, d);
            match select_spec(release, d) {
                Ok(a) => a.name == expected && release.assets.contains(a),
                Err(e) => e == (ErrorView::AssetNotFound { expected }) && forall|i: int|
                    0 <= i < release.assets.len() ==> #[trigger] release.assets[i].name
                        != expected,
            }
        }),
{
    let expected = asset_name_spec(release.version, d);
    if exists|i: int| is_first_match(release.assets, expected, i) {
        let i = choose|i: int| is_first_match(release.assets, expected, i);
        assert(find_asset(release.assets, expected) == Some(release.assets[i]));
    } else {
        assert forall|i: int| 0 <= i < release.assets.len() implies #[trigger] release.assets[i].name
            != expected by {
            if release.assets[i].name == expected {
                first_match_exists(release, expected, i);
            }
        }
    }
}

proof fn first_match_exists(release: ReleaseView, name: Seq<char>, i: int)
    requires
        0 <= i < release.assets.len(),
        release.assets[i].name == name,
    ensures
        exists|k: int| is_first_match(release.assets, name, k),
    decreases i,
{
    if forall|j: int| 0 <= j < i ==> release.assets[j].name != name {
        assert(is_first_match(release.assets, name, i));
    } else {
        let j = choose|j: int| 0 <= j < i && release.assets[j].name == name;
        first_match_exists(release, name, j);
    }
}

/// The phases that follow the download stage of an install.
pub open spec fn past_download(p: PhaseView) -> bool {
    ||| p is MarkingExecutable
    ||| p is ListingEntries
    ||| p is RemovingStale
}

/// A download comes only after the binary of the version was found missing.
/// Once it is found present, no later decision of the resolution downloads,
/// and the resolution ends without one; so a second install of a version
/// whose binary is in place downloads nothing.
pub proof fn lemma_download_only_when_binary_missing(s: ProviderView, e: EventView)
    requires
        accepts_spec(s.phase, e),
    ensures
        next_spec(s, e).1 is Download ==> s.phase is AnnouncingDownload,
        next_spec(s, e).0.phase is AnnouncingDownload ==> s.phase is CheckingBinary && e
            == (EventView::FileChecked { is_file: false }),
        s.phase is CheckingBinary && e == (EventView::FileChecked { is_file: true })
            ==> past_download(next_spec(s, e).0.phase),
        past_download(s.phase) ==> {
            &&& next_spec(s, e).1 !is Download
            &&& past_download(next_spec(s, e).0.phase) || next_spec(s, e).0.phase is Idle
        },
{
}

/// The sweep after an install removes every entry of the working directory
/// but the directory of the installed version, and nothing else.
pub proof fn lemma_sweep_keeps_only_version(s: ProviderView, names: Seq<Seq<char>>)
    requires
        s.phase is ListingEntries,
    ensures
        ({
            let version = s.phase->ListingEntries_plan.version;
            let a = next_spec(s, EventView::EntriesListed { entries: Ok(names) }).1;
            &&& a is RemoveEntries
            &&& forall|x: Seq<char>| #[trigger]
                a->RemoveEntries_names.contains(x) <==> names.contains(x) && x != version
        }),
{
    let version = s.phase->ListingEntries_plan.version;
    let pred = other_than(version);
    let removed = stale_spec(names, version);
    assert forall|x: Seq<char>| #[trigger] removed.contains(x) <==> names.contains(x) && x
        != version by {
        if removed.contains(x) {
            let i = choose|i: int| 0 <= i < removed.len() && removed[i] == x;
            names.lemma_filter_pred(pred, i);
            names.lemma_filter_contains_rev(pred, x);
        }
        if names.contains(x) && x != version {
            let k = choose|k: int| 0 <= k < names.len() && names[k] == x;
            names.lemma_filter_contains(pred, k);
        }
    }
}

/// A path remembered from an earlier resolution that is still a file is
/// returned at once: no search-path lookup, release lookup or download.
pub proof fn lemma_cached_path_short_circuit(s: ProviderView, p: Seq<char>)
    requires
        s.phase is Idle,
        s.cached == Some(p),
    ensures
        next_spec(s, EventView::Start) == go(
            s.cached,
            PhaseView::CheckingCache { path: p },
            ActionView::CheckFile { path: p },
        ),
        next_spec(next_spec(s, EventView::Start).0, EventView::FileChecked { is_file: true })
            == go(s.cached, PhaseView::Idle, ActionView::Finish { result: Ok(p) }),
{
}

/// A binary found on the search path ends the resolution with its path,
/// which is remembered; no release lookup or download takes place.
pub proof fn lemma_search_path_precedence(s: ProviderView, p: Seq<char>)
    requires
        s.phase is SearchingPath,
    ensures
        next_spec(s, EventView::SearchPathAnswered { path: Some(p) }) == go(
            Some(p),
            PhaseView::Idle,
            ActionView::Finish { result: Ok(p) },
        ),
{
}

/// The remembered path changes only when a resolution succeeds, and then to
/// the path it returns.
pub proof fn lemma_cache_changes_only_on_success(s: ProviderView, e: EventView)
    requires
        accepts_spec(s.phase, e),
    ensures
        next_spec(s, e).0.cached != s.cached ==> {
            &&& next_spec(s, e).1 matches ActionView::Finish { result: Ok(p) }
            &&& next_spec(s, e).0.cached == Some(p)
        },
{
}

/// The actions decided on while `events` are fed one by one from `s`, and
/// the state reached.
pub open spec fn run(s: ProviderView, events: Seq<EventView>) -> (ProviderView, Seq<ActionView>)
    decreases events.len(),
{
    if events.len() == 0 {
        (s, Seq::empty())
    } else {
        let (t, a) = next_spec(s, events[0]);
        let (u, rest) = run(t, events.drop_first());
        (u, seq![a] + rest)
    }
}

/// Each of `events` answers the action pending where it arrives, within one
/// resolution: no event is fed once the provider is idle again.
pub open spec fn within_resolution(s: ProviderView, events: Seq<EventView>) -> bool
    decreases events.len(),
{
    events.len() == 0 || {
        &&& s.phase !is Idle
        &&& accepts_spec(s.phase, events[0])
        &&& within_resolution(next_spec(s, events[0]).0, events.drop_first())
    }
}

/// The phases after which a resolution downloads nothing more.
pub open spec fn download_done(p: PhaseView) -> bool {
    ||| p is Downloading
    ||| p is CheckingUnpacked
    ||| past_download(p)
}

proof fn lemma_no_download_once_done(s: ProviderView, events: Seq<EventView>)
    requires
        download_done(s.phase),
        within_resolution(s, events),
    ensures
        forall|i: int| 0 <= i < run(s, events).1.len() ==> !(#[trigger] run(s, events).1[i] is Download),
    decreases events.len(),
{
    if events.len() > 0 {
        let (t, a) = next_spec(s, events[0]);
        let rest = events.drop_first();
        lemma_download_only_when_binary_missing(s, events[0]);
        if rest.len() > 0 {
            assert(within_resolution(t, rest));
            assert(t.phase !is Idle);
            lemma_no_download_once_done(t, rest);
        }
        assert forall|i: int| 0 <= i < run(s, events).1.len() implies !(#[trigger] run(s, events).1[i] is Download) by {
            if i > 0 {
                assert(run(s, events).1[i] == run(t, rest).1[i - 1]);
            }
        }
    }
}

/// A resolution downloads at most once.
pub proof fn lemma_at_most_one_download(s: ProviderView, events: Seq<EventView>)
    requires
        within_resolution(s, events),
    ensures
        forall|i: int, j: int|
            0 <= i < run(s, events).1.len() && 0 <= j < run(s, events).1.len()
                && #[trigger] run(s, events).1[i] is Download && #[trigger] run(s, events).1[j] is Download
                ==> i == j,
    decreases events.len(),
{
    if events.len() > 0 {
        let (t, a) = next_spec(s, events[0]);
        let rest = events.drop_first();
        let acts = run(s, events).1;
        assert forall|i: int| 0 < i < acts.len() implies acts[i] == run(t, rest).1[i - 1] by {}
        if a is Download {
            if rest.len() > 0 {
                lemma_no_download_once_done(t, rest);
            }
            assert forall|i: int| 0 < i < acts.len() implies !(#[trigger] acts[i] is Download) by {
                assert(acts[i] == run(t, rest).1[i - 1]);
            }
        } else if rest.len() > 0 {
            lemma_at_most_one_download(t, rest);
            assert forall|i: int, j: int|
                0 <= i < acts.len() && 0 <= j < acts.len() && #[trigger] acts[i] is Download
                    && #[trigger] acts[j] is Download implies i == j by {
                assert(acts[i] == run(t, rest).1[i - 1]);
                assert(acts[j] == run(t, rest).1[j - 1]);
            }
        }
    }
}

/// Once the binary of the version is found in place, the rest of the
/// resolution downloads nothing: installing a version twice downloads once.
pub proof fn lemma_present_binary_is_not_downloaded(s: ProviderView, events: Seq<EventView>)
    requires
        s.phase is CheckingBinary,
        events.len() > 0,
        events[0] == (EventView::FileChecked { is_file: true }),
        within_resolution(s, events),
    ensures
        forall|i: int| 0 <= i < run(s, events).1.len() ==> !(#[trigger] run(s, events).1[i] is Download),
{
    let (t, a) = next_spec(s, events[0]);
    let rest = events.drop_first();
    if rest.len() > 0 {
        lemma_no_download_once_done(t, rest);
    }
    assert forall|i: int| 0 <= i < run(s, events).1.len() implies !(#[trigger] run(s, events).1[i] is Download) by {
        if i > 0 {
            assert(run(s, events).1[i] == run(t, rest).1[i - 1]);
        }
    }
}

} // verus!
