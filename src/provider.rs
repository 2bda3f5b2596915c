//! The resolution of the binary path as a state machine.
//!
//! The provider decides; the host acts. Each call of
//! [`BinaryPathProvider::step`] takes what the host observed while carrying
//! out the previous action and answers with the next action. A resolution
//! starts with [`Event::Start`] and ends with [`Action::Finish`], after which
//! the provider is idle again and keeps the resolved path for the next one.
use vstd::prelude::*;
use vstd::pervasive::unreached;
use vstd::string::StringExecFns;
use crate::error::{ErrorView, InstallError};
use crate::install::{
    InstallPlan, PlanView, make_plan, names_of, plan_spec, stale_entries, stale_spec,
};
use crate::platform::{ArchiveKind, Architecture, Os, platform_table, resolve};
use crate::release::{ReleaseInfo, ReleaseView, select_asset, select_spec};

verus! {

/// What the host is told about the progress of an install.
#[derive(Clone, Copy, Debug, PartialEq, Eq, Structural)]
pub enum InstallStatus {
    CheckingForUpdate,
    Downloading,
}

/// The repository whose releases carry the language server.
pub open spec fn repository_spec() -> Seq<char> {
    "iwe-org/iwe"@
}

/// The name under which the binary is looked for on the search path.
pub open spec fn search_name_spec() -> Seq<char> {
    "iwes"@
}

/// Where a resolution stands, and what it carries to its next decision.
#[derive(Debug, PartialEq, Eq)]
pub enum Phase {
    Idle,
    CheckingCache { path: String },
    SearchingPath,
    AnnouncingCheck,
    LookingUpRelease,
    ResolvingPlatform { release: ReleaseInfo },
    CreatingDirectory { plan: InstallPlan },
    CheckingBinary { plan: InstallPlan },
    AnnouncingDownload { plan: InstallPlan },
    Downloading { plan: InstallPlan },
    CheckingUnpacked { plan: InstallPlan },
    MarkingExecutable { plan: InstallPlan },
    ListingEntries { plan: InstallPlan },
    RemovingStale { plan: InstallPlan },
}

pub enum PhaseView {
    Idle,
    CheckingCache { path: Seq<char> },
    SearchingPath,
    AnnouncingCheck,
    LookingUpRelease,
    ResolvingPlatform { release: ReleaseView },
    CreatingDirectory { plan: PlanView },
    CheckingBinary { plan: PlanView },
    AnnouncingDownload { plan: PlanView },
    Downloading { plan: PlanView },
    CheckingUnpacked { plan: PlanView },
    MarkingExecutable { plan: PlanView },
    ListingEntries { plan: PlanView },
    RemovingStale { plan: PlanView },
}

impl View for Phase {
    type V = PhaseView;

    open spec fn view(&self) -> PhaseView {
        match self {
            Phase::Idle => PhaseView::Idle,
            Phase::CheckingCache { path } => PhaseView::CheckingCache { path: path@ },
            Phase::SearchingPath => PhaseView::SearchingPath,
            Phase::AnnouncingCheck => PhaseView::AnnouncingCheck,
            Phase::LookingUpRelease => PhaseView::LookingUpRelease,
            Phase::ResolvingPlatform { release } => PhaseView::ResolvingPlatform {
                release: release@,
            },
            Phase::CreatingDirectory { plan } => PhaseView::CreatingDirectory { plan: plan@ },
            Phase::CheckingBinary { plan } => PhaseView::CheckingBinary { plan: plan@ },
            Phase::AnnouncingDownload { plan } => PhaseView::AnnouncingDownload { plan: plan@ },
            Phase::Downloading { plan } => PhaseView::Downloading { plan: plan@ },
            Phase::CheckingUnpacked { plan } => PhaseView::CheckingUnpacked { plan: plan@ },
            Phase::MarkingExecutable { plan } => PhaseView::MarkingExecutable { plan: plan@ },
            Phase::ListingEntries { plan } => PhaseView::ListingEntries { plan: plan@ },
            Phase::RemovingStale { plan } => PhaseView::RemovingStale { plan: plan@ },
        }
    }
}

/// What the host observed while carrying out the last action.
#[derive(Debug, PartialEq, Eq)]
pub enum Event {
    /// A new resolution is asked for.
    Start,
    /// Whether a regular file exists at the path that was checked.
    FileChecked { is_file: bool },
    /// The binary found on the search path, if any.
    SearchPathAnswered { path: Option<String> },
    /// The status was handed to the host.
    Notified,
    /// The latest release, or why none could be had.
    ReleaseAnswered { release: Result<ReleaseInfo, String> },
    /// The platform the host runs on.
    PlatformAnswered { os: Os, arch: Architecture },
    DirectoryCreated { result: Result<(), String> },
    Downloaded { result: Result<(), String> },
    MadeExecutable { result: Result<(), String> },
    /// The names of the entries of the working directory.
    EntriesListed { entries: Result<Vec<String>, String> },
    /// The stale entries were removed, as far as that went.
    EntriesRemoved,
}

pub enum EventView {
    Start,
    FileChecked { is_file: bool },
    SearchPathAnswered { path: Option<Seq<char>> },
    Notified,
    ReleaseAnswered { release: Result<ReleaseView, Seq<char>> },
    PlatformAnswered { os: Os, arch: Architecture },
    DirectoryCreated { result: Result<(), Seq<char>> },
    Downloaded { result: Result<(), Seq<char>> },
    MadeExecutable { result: Result<(), Seq<char>> },
    EntriesListed { entries: Result<Seq<Seq<char>>, Seq<char>> },
    EntriesRemoved,
}

pub open spec fn unit_result_view(r: Result<(), String>) -> Result<(), Seq<char>> {
    match r {
        Ok(()) => Ok(()),
        Err(s) => Err(s@),
    }
}

impl View for Event {
    type V = EventView;

    open spec fn view(&self) -> EventView {
        match self {
            Event::Start => EventView::Start,
            Event::FileChecked { is_file } => EventView::FileChecked { is_file: *is_file },
            Event::SearchPathAnswered { path } => EventView::SearchPathAnswered {
                path: match path {
                    Some(p) => Some(p@),
                    None => None,
                },
            },
            Event::Notified => EventView::Notified,
            Event::ReleaseAnswered { release } => EventView::ReleaseAnswered {
                release: match release {
                    Ok(r) => Ok(r@),
                    Err(s) => Err(s@),
                },
            },
            Event::PlatformAnswered { os, arch } => EventView::PlatformAnswered {
                os: *os,
                arch: *arch,
            },
            Event::DirectoryCreated { result } => EventView::DirectoryCreated {
                result: unit_result_view(*result),
            },
            Event::Downloaded { result } => EventView::Downloaded {
                result: unit_result_view(*result),
            },
            Event::MadeExecutable { result } => EventView::MadeExecutable {
                result: unit_result_view(*result),
            },
            Event::EntriesListed { entries } => EventView::EntriesListed {
                entries: match entries {
                    Ok(v) => Ok(names_of(v@)),
                    Err(s) => Err(s@),
                },
            },
            Event::EntriesRemoved => EventView::EntriesRemoved,
        }
    }
}

/// What the host is to do next.
#[derive(Debug, PartialEq, Eq)]
pub enum Action {
    /// Check whether a regular file exists at `path`.
    CheckFile { path: String },
    /// Look for a binary called `name` on the search path of the worktree.
    FindOnSearchPath { name: String },
    /// Tell the host how the install is going.
    Notify { status: InstallStatus },
    /// Ask the release index for the latest release of `repository`.
    LookUpLatestRelease { repository: String, require_assets: bool, allow_prerelease: bool },
    /// Ask which system and architecture the host runs on.
    QueryPlatform,
    /// Create the directory `path` and its parents; one that exists is fine.
    CreateDirectory { path: String },
    /// Fetch `url` and unpack it as `kind` into the directory `destination`.
    Download { url: String, destination: String, kind: ArchiveKind },
    /// Mark the file at `path` executable.
    MakeExecutable { path: String },
    /// List the names of the entries of the working directory.
    ListWorkingDirectory,
    /// Remove each named entry of the working directory with all it holds;
    /// a removal that fails is passed over.
    RemoveEntries { names: Vec<String> },
    /// The resolution is over, with this outcome.
    Finish { result: Result<String, InstallError> },
}

pub enum ActionView {
    CheckFile { path: Seq<char> },
    FindOnSearchPath { name: Seq<char> },
    Notify { status: InstallStatus },
    LookUpLatestRelease { repository: Seq<char>, require_assets: bool, allow_prerelease: bool },
    QueryPlatform,
    CreateDirectory { path: Seq<char> },
    Download { url: Seq<char>, destination: Seq<char>, kind: ArchiveKind },
    MakeExecutable { path: Seq<char> },
    ListWorkingDirectory,
    RemoveEntries { names: Seq<Seq<char>> },
    Finish { result: Result<Seq<char>, ErrorView> },
}

impl View for Action {
    type V = ActionView;

    open spec fn view(&self) -> ActionView {
        match self {
            Action::CheckFile { path } => ActionView::CheckFile { path: path@ },
            Action::FindOnSearchPath { name } => ActionView::FindOnSearchPath { name: name@ },
            Action::Notify { status } => ActionView::Notify { status: *status },
            Action::LookUpLatestRelease { repository, require_assets, allow_prerelease } =>
                ActionView::LookUpLatestRelease {
                repository: repository@,
                require_assets: *require_assets,
                allow_prerelease: *allow_prerelease,
            },
            Action::QueryPlatform => ActionView::QueryPlatform,
            Action::CreateDirectory { path } => ActionView::CreateDirectory { path: path@ },
            Action::Download { url, destination, kind } => ActionView::Download {
                url: url@,
                destination: destination@,
                kind: *kind,
            },
            Action::MakeExecutable { path } => ActionView::MakeExecutable { path: path@ },
            Action::ListWorkingDirectory => ActionView::ListWorkingDirectory,
            Action::RemoveEntries { names } => ActionView::RemoveEntries { names: names_of(names@) },
            Action::Finish { result } => ActionView::Finish {
                result: match result {
                    Ok(p) => Ok(p@),
                    Err(e) => Err(e@),
                },
            },
        }
    }
}

/// The provider as mathematical values: the remembered path and the phase.
pub struct ProviderView {
    pub cached: Option<Seq<char>>,
    pub phase: PhaseView,
}

/// Whether `e` answers the action that leads out of phase `p`.
pub open spec fn accepts_spec(p: PhaseView, e: EventView) -> bool {
    match p {
        PhaseView::Idle => e is Start,
        PhaseView::CheckingCache { .. } => e is FileChecked,
        PhaseView::SearchingPath => e is SearchPathAnswered,
        PhaseView::AnnouncingCheck => e is Notified,
        PhaseView::LookingUpRelease => e is ReleaseAnswered,
        PhaseView::ResolvingPlatform { .. } => e is PlatformAnswered,
        PhaseView::CreatingDirectory { .. } => e is DirectoryCreated,
        PhaseView::CheckingBinary { .. } => e is FileChecked,
        PhaseView::AnnouncingDownload { .. } => e is Notified,
        PhaseView::Downloading { .. } => e is Downloaded,
        PhaseView::CheckingUnpacked { .. } => e is FileChecked,
        PhaseView::MarkingExecutable { .. } => e is MadeExecutable,
        PhaseView::ListingEntries { .. } => e is EntriesListed,
        PhaseView::RemovingStale { .. } => e is EntriesRemoved,
    }
}

/// The end of a resolution with `result`; only a success changes the
/// remembered path.
pub open spec fn finish_spec(
    cached: Option<Seq<char>>,
    result: Result<Seq<char>, ErrorView>,
) -> (ProviderView, ActionView) {
    let cached = match result {
        Ok(p) => Some(p),
        Err(_) => cached,
    };
    (ProviderView { cached, phase: PhaseView::Idle }, ActionView::Finish { result })
}

pub open spec fn go(cached: Option<Seq<char>>, phase: PhaseView, action: ActionView) -> (
    ProviderView,
    ActionView,
) {
    (ProviderView { cached, phase }, action)
}

/// The decision taken in state `s` on event `e`: the next state and the
/// action that the host is to carry out.
pub open spec fn next_spec(s: ProviderView, e: EventView) -> (ProviderView, ActionView) {
    let c = s.cached;
    match (s.phase, e) {
        (PhaseView::Idle, _) => match c {
            Some(p) => go(c, PhaseView::CheckingCache { path: p }, ActionView::CheckFile { path: p }),
            None => go(
                c,
                PhaseView::SearchingPath,
                ActionView::FindOnSearchPath { name: search_name_spec() },
            ),
        },
        (PhaseView::CheckingCache { path }, EventView::FileChecked { is_file }) => if is_file {
            finish_spec(c, Ok(path))
        } else {
            go(
                c,
                PhaseView::SearchingPath,
                ActionView::FindOnSearchPath { name: search_name_spec() },
            )
        },
        (PhaseView::SearchingPath, EventView::SearchPathAnswered { path }) => match path {
            Some(p) => finish_spec(c, Ok(p)),
            None => go(
                c,
                PhaseView::AnnouncingCheck,
                ActionView::Notify { status: InstallStatus::CheckingForUpdate },
            ),
        },
        (PhaseView::AnnouncingCheck, _) => go(
            c,
            PhaseView::LookingUpRelease,
            ActionView::LookUpLatestRelease {
                repository: repository_spec(),
                require_assets: true,
                allow_prerelease: false,
            },
        ),
        (PhaseView::LookingUpRelease, EventView::ReleaseAnswered { release }) => match release {
            Ok(r) => go(c, PhaseView::ResolvingPlatform { release: r }, ActionView::QueryPlatform),
            Err(reason) => finish_spec(c, Err(ErrorView::ReleaseLookup { reason })),
        },
        (
            PhaseView::ResolvingPlatform { release },
            EventView::PlatformAnswered { os, arch },
        ) => match platform_table(os, arch) {
            None => finish_spec(c, Err(ErrorView::UnsupportedPlatform { os, arch })),
            Some(d) => match select_spec(release, d) {
                Err(err) => finish_spec(c, Err(err)),
                Ok(a) => {
                    let plan = plan_spec(
                        release.version,
                        a.download_url,
                        d.archive_kind,
                        d.binary_file_name,
                    );
                    go(
                        c,
                        PhaseView::CreatingDirectory { plan },
                        ActionView::CreateDirectory { path: plan.version },
                    )
                },
            },
        },
        (PhaseView::CreatingDirectory { plan }, EventView::DirectoryCreated { result }) =>
            match result {
            Ok(()) => go(
                c,
                PhaseView::CheckingBinary { plan },
                ActionView::CheckFile { path: plan.binary_path },
            ),
            Err(reason) => finish_spec(
                c,
                Err(ErrorView::DirectoryCreate { path: plan.version, reason }),
            ),
        },
        (PhaseView::CheckingBinary { plan }, EventView::FileChecked { is_file }) => if is_file {
            go(
                c,
                PhaseView::MarkingExecutable { plan },
                ActionView::MakeExecutable { path: plan.binary_path },
            )
        } else {
            go(
                c,
                PhaseView::AnnouncingDownload { plan },
                ActionView::Notify { status: InstallStatus::Downloading },
            )
        },
        (PhaseView::AnnouncingDownload { plan }, _) => go(
            c,
            PhaseView::Downloading { plan },
            ActionView::Download {
                url: plan.download_url,
                destination: plan.version,
                kind: plan.archive_kind,
            },
        ),
        (PhaseView::Downloading { plan }, EventView::Downloaded { result }) => match result {
            Ok(()) => go(
                c,
                PhaseView::CheckingUnpacked { plan },
                ActionView::CheckFile { path: plan.binary_path },
            ),
            Err(reason) => finish_spec(
                c,
                Err(ErrorView::Download { url: plan.download_url, reason }),
            ),
        },
        (PhaseView::CheckingUnpacked { plan }, EventView::FileChecked { is_file }) => if is_file {
            go(
                c,
                PhaseView::MarkingExecutable { plan },
                ActionView::MakeExecutable { path: plan.binary_path },
            )
        } else {
            finish_spec(c, Err(ErrorView::Archive { path: plan.binary_path }))
        },
        (PhaseView::MarkingExecutable { plan }, EventView::MadeExecutable { result }) =>
            match result {
            Ok(()) => go(
                c,
                PhaseView::ListingEntries { plan },
                ActionView::ListWorkingDirectory,
            ),
            Err(reason) => finish_spec(
                c,
                Err(ErrorView::Permission { path: plan.binary_path, reason }),
            ),
        },
        (PhaseView::ListingEntries { plan }, EventView::EntriesListed { entries }) =>
            match entries {
            Ok(names) => go(
                c,
                PhaseView::RemovingStale { plan },
                ActionView::RemoveEntries { names: stale_spec(names, plan.version) },
            ),
            Err(_) => finish_spec(c, Ok(plan.binary_path)),
        },
        (PhaseView::RemovingStale { plan }, _) => finish_spec(c, Ok(plan.binary_path)),
        // An event that `accepts_spec` refuses is never decided on.
        _ => go(c, s.phase, ActionView::QueryPlatform),
    }
}

/// Resolves the path of the language-server binary, remembering it between
/// resolutions.
#[derive(Debug)]
pub struct BinaryPathProvider {
    cached_binary_path: Option<String>,
    phase: Phase,
}

impl View for BinaryPathProvider {
    type V = ProviderView;

    closed spec fn view(&self) -> ProviderView {
        ProviderView {
            cached: match self.cached_binary_path {
                Some(p) => Some(p@),
                None => None,
            },
            phase: self.phase@,
        }
    }
}

impl BinaryPathProvider {
    /// An idle provider that knows no path yet.
    pub fn new() -> (r: Self)
        ensures
            r@ == (ProviderView { cached: None, phase: PhaseView::Idle }),
    {
        BinaryPathProvider { cached_binary_path: None, phase: Phase::Idle }
    }

    /// The path that the last successful resolution gave, if any.
    pub fn cached_path(&self) -> (r: Option<&String>)
        ensures
            match r {
                Some(p) => self@.cached == Some(p@),
                None => self@.cached is None,
            },
    {
        match &self.cached_binary_path {
            Some(p) => Some(p),
            None => None,
        }
    }

    /// Whether no resolution is under way.
    pub fn is_idle(&self) -> (r: bool)
        ensures
            r == (self@.phase is Idle),
    {
        match self.phase {
            Phase::Idle => true,
            _ => false,
        }
    }

    /// Whether `e` answers the action that the provider is waiting on.
    pub fn accepts(&self, e: &Event) -> (r: bool)
        ensures
            r == accepts_spec(self@.phase, e@),
    {
        match (&self.phase, e) {
            (Phase::Idle, Event::Start) => true,
            (Phase::CheckingCache { .. }, Event::FileChecked { .. }) => true,
            (Phase::SearchingPath, Event::SearchPathAnswered { .. }) => true,
            (Phase::AnnouncingCheck, Event::Notified) => true,
            (Phase::LookingUpRelease, Event::ReleaseAnswered { .. }) => true,
            (Phase::ResolvingPlatform { .. }, Event::PlatformAnswered { .. }) => true,
            (Phase::CreatingDirectory { .. }, Event::DirectoryCreated { .. }) => true,
            (Phase::CheckingBinary { .. }, Event::FileChecked { .. }) => true,
            (Phase::AnnouncingDownload { .. }, Event::Notified) => true,
            (Phase::Downloading { .. }, Event::Downloaded { .. }) => true,
            (Phase::CheckingUnpacked { .. }, Event::FileChecked { .. }) => true,
            (Phase::MarkingExecutable { .. }, Event::MadeExecutable { .. }) => true,
            (Phase::ListingEntries { .. }, Event::EntriesListed { .. }) => true,
            (Phase::RemovingStale { .. }, Event::EntriesRemoved) => true,
            _ => false,
        }
    }
    /// Ends the resolution with `result`, remembering the path on success.
    fn finish(&mut self, result: Result<String, InstallError>) -> (a: Action)
        requires
            old(self)@.phase is Idle,
        ensures
            (final(self)@, a@) == finish_spec(
                old(self)@.cached,
                match result {
                    Ok(p) => Ok(p@),
                    Err(e) => Err(e@),
                },
            ),
    {
        match &result {
            Ok(p) => {
                self.cached_binary_path = Some(p.clone());
            },
            Err(_) => {},
        }
        Action::Finish { result }
    }

    /// Moves to `SearchingPath` and asks for a search-path lookup.
    fn search(&mut self) -> (a: Action)
        ensures
            (final(self)@, a@) == go(
                old(self)@.cached,
                PhaseView::SearchingPath,
                ActionView::FindOnSearchPath { name: search_name_spec() },
            ),
    {
        self.phase = Phase::SearchingPath;
        Action::FindOnSearchPath { name: String::from_str("iwes") }
    }

    /// Takes what the host observed and decides what it is to do next.
    ///
    /// Every resolution runs: the remembered path if it is still a file;
    /// else the search path; else the latest release, whose asset for this
    /// platform is unpacked into a directory named after its version unless
    /// the binary is there already, made executable, and every other entry
    /// of the working directory swept away. Each failure ends the
    /// resolution at once, but for the sweep, which is best effort.
    pub fn step(&mut self, event: Event) -> (a: Action)
        requires
            accepts_spec(old(self)@.phase, event@),
        ensures
            (final(self)@, a@) == next_spec(old(self)@, event@),
    {
        let mut phase = Phase::Idle;
        core::mem::swap(&mut phase, &mut self.phase);
        match phase {
            Phase::Idle => match &self.cached_binary_path {
                Some(p) => {
                    self.phase = Phase::CheckingCache { path: p.clone() };
                    Action::CheckFile { path: p.clone() }
                },
                None => self.search(),
            },
            Phase::CheckingCache { path } => match event {
                Event::FileChecked { is_file } => if is_file {
                    self.finish(Ok(path))
                } else {
                    self.search()
                },
                _ => unreached(),
            },
            Phase::SearchingPath => match event {
                Event::SearchPathAnswered { path } => match path {
                    Some(p) => self.finish(Ok(p)),
                    None => {
                        self.phase = Phase::AnnouncingCheck;
                        Action::Notify { status: InstallStatus::CheckingForUpdate }
                    },
                },
                _ => unreached(),
            },
            Phase::AnnouncingCheck => {
                self.phase = Phase::LookingUpRelease;
                Action::LookUpLatestRelease {
                    repository: String::from_str("iwe-org/iwe"),
                    require_assets: true,
                    allow_prerelease: false,
                }
            },
            Phase::LookingUpRelease => match event {
                Event::ReleaseAnswered { release } => match release {
                    Ok(release) => {
                        self.phase = Phase::ResolvingPlatform { release };
                        Action::QueryPlatform
                    },
                    Err(reason) => self.finish(Err(InstallError::ReleaseLookup { reason })),
                },
                _ => unreached(),
            },
            Phase::ResolvingPlatform { release } => match event {
                Event::PlatformAnswered { os, arch } => match resolve(os, arch) {
                    Err(e) => self.finish(Err(e)),
                    Ok(d) => match select_asset(&release, &d) {
                        Err(e) => self.finish(Err(e)),
                        Ok(asset) => {
                            let plan = make_plan(&release.version, &asset, &d);
                            let path = plan.version.clone();
                            self.phase = Phase::CreatingDirectory { plan };
                            Action::CreateDirectory { path }
                        },
                    },
                },
                _ => unreached(),
            },
            Phase::CreatingDirectory { plan } => match event {
                Event::DirectoryCreated { result } => match result {
                    Ok(()) => {
                        let path = plan.binary_path.clone();
                        self.phase = Phase::CheckingBinary { plan };
                        Action::CheckFile { path }
                    },
                    Err(reason) => self.finish(
                        Err(InstallError::DirectoryCreate { path: plan.version, reason }),
                    ),
                },
                _ => unreached(),
            },
            Phase::CheckingBinary { plan } => match event {
                Event::FileChecked { is_file } => if is_file {
                    let path = plan.binary_path.clone();
                    self.phase = Phase::MarkingExecutable { plan };
                    Action::MakeExecutable { path }
                } else {
                    self.phase = Phase::AnnouncingDownload { plan };
                    Action::Notify { status: InstallStatus::Downloading }
                },
                _ => unreached(),
            },
            Phase::AnnouncingDownload { plan } => {
                let url = plan.download_url.clone();
                let destination = plan.version.clone();
                let kind = plan.archive_kind;
                self.phase = Phase::Downloading { plan };
                Action::Download { url, destination, kind }
            },
            Phase::Downloading { plan } => match event {
                Event::Downloaded { result } => match result {
                    Ok(()) => {
                        let path = plan.binary_path.clone();
                        self.phase = Phase::CheckingUnpacked { plan };
                        Action::CheckFile { path }
                    },
                    Err(reason) => self.finish(
                        Err(InstallError::Download { url: plan.download_url, reason }),
                    ),
                },
                _ => unreached(),
            },
            Phase::CheckingUnpacked { plan } => match event {
                Event::FileChecked { is_file } => if is_file {
                    let path = plan.binary_path.clone();
                    self.phase = Phase::MarkingExecutable { plan };
                    Action::MakeExecutable { path }
                } else {
                    self.finish(Err(InstallError::Archive { path: plan.binary_path }))
                },
                _ => unreached(),
            },
            Phase::MarkingExecutable { plan } => match event {
                Event::MadeExecutable { result } => match result {
                    Ok(()) => {
                        self.phase = Phase::ListingEntries { plan };
                        Action::ListWorkingDirectory
                    },
                    Err(reason) => self.finish(
                        Err(InstallError::Permission { path: plan.binary_path, reason }),
                    ),
                },
                _ => unreached(),
            },
            Phase::ListingEntries { plan } => match event {
                Event::EntriesListed { entries } => match entries {
                    Ok(names) => {
                        let names = stale_entries(&names, &plan.version);
                        self.phase = Phase::RemovingStale { plan };
                        Action::RemoveEntries { names }
                    },
                    Err(_) => self.finish(Ok(plan.binary_path)),
                },
                _ => unreached(),
            },
            Phase::RemovingStale { plan } => self.finish(Ok(plan.binary_path)),
        }
    }
}

} // verus!
