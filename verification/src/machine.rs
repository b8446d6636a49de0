//! The resolution pipeline as a state machine.
//!
//! Resolution falls through four strategies in a fixed order: an explicit
//! path from configuration, a probe of the workspace search path for each
//! known binary name, the process-lifetime cache of a previously
//! provisioned path, and finally the provisioning of a release asset.
//! The first strategy to produce a path wins; argument lists from
//! configuration apply whichever strategy supplied the path.
//!
//! The machine owns every decision but performs no I/O. Each call of
//! [`Resolver::step`] consumes the host's answer to the previous request
//! (an [`Event`]) and returns the next request (an [`Effect`]). The host
//! performs the request and feeds the answer back, until the machine
//! returns [`Effect::Done`]. The whole transition relation is the spec
//! function [`next`], which `step` is proved to follow exactly.

use vstd::prelude::*;
use vstd::string::StringExecFns;

use crate::release::Release;
use crate::release::ReleaseView;
use crate::release::spec_find_asset;
use crate::tag::refetch_tag;
use crate::tag::has_product_prefix;
use crate::tag::spec_bare_version;
use crate::tag::spec_has_product_prefix;
use crate::tokens::Arch;
use crate::tokens::Os;
use crate::tokens::derive_asset_name;
use crate::tokens::spec_asset_name;

verus! {

/// Binary settings read from workspace configuration.
pub struct BinaryConfiguration {
    pub path: Option<String>,
    pub arguments: Option<Vec<String>>,
}

/// Mathematical image of a [`BinaryConfiguration`].
pub struct BinaryConfigurationView {
    pub path: Option<Seq<char>>,
    pub arguments: Option<Seq<Seq<char>>>,
}

impl View for BinaryConfiguration {
    type V = BinaryConfigurationView;

    open spec fn view(&self) -> BinaryConfigurationView {
        BinaryConfigurationView { path: self.path.deep_view(), arguments: self.arguments.deep_view() }
    }
}

impl DeepView for BinaryConfiguration {
    type V = BinaryConfigurationView;

    open spec fn deep_view(&self) -> BinaryConfigurationView {
        self.view()
    }
}

/// The pipeline's terminal output: the path to launch and the configured
/// argument list, if any.
pub struct ResolvedBinary {
    pub path: String,
    pub args: Option<Vec<String>>,
}

/// Mathematical image of a [`ResolvedBinary`].
pub struct ResolvedBinaryView {
    pub path: Seq<char>,
    pub args: Option<Seq<Seq<char>>>,
}

impl View for ResolvedBinary {
    type V = ResolvedBinaryView;

    open spec fn view(&self) -> ResolvedBinaryView {
        ResolvedBinaryView { path: self.path@, args: self.args.deep_view() }
    }
}

/// Why a resolution failed. Only the provisioning stage fails resolution:
/// earlier stages degrade to the next strategy.
#[derive(Debug)]
pub enum ResolutionError {
    /// The release-index query for the latest release failed.
    Lookup(String),
    /// No asset of the release carries the derived name; the payload is
    /// the name that was looked for.
    AssetNotFound(String),
    /// The transfer of the asset failed; the payload is the transport
    /// error's message.
    Download(String),
}

/// Mathematical image of a [`ResolutionError`].
pub enum ResolutionErrorView {
    Lookup(Seq<char>),
    AssetNotFound(Seq<char>),
    Download(Seq<char>),
}

impl View for ResolutionError {
    type V = ResolutionErrorView;

    open spec fn view(&self) -> ResolutionErrorView {
        match self {
            ResolutionError::Lookup(m) => ResolutionErrorView::Lookup(m@),
            ResolutionError::AssetNotFound(n) => ResolutionErrorView::AssetNotFound(n@),
            ResolutionError::Download(m) => ResolutionErrorView::Download(m@),
        }
    }
}

/// Progress reported to the user while provisioning.
#[derive(Clone, Copy, PartialEq, Eq, Structural, Debug)]
pub enum Status {
    CheckingForUpdate,
    Downloading,
}

/// Options of a latest-release query.
#[derive(Clone, Copy, PartialEq, Eq, Structural, Debug)]
pub struct ReleaseQueryOptions {
    pub require_assets: bool,
    pub pre_release: bool,
}

/// The host's answer to the machine's previous request.
pub enum Event {
    /// Settings lookup finished. A read failure is carried as `Err` and
    /// treated as absent configuration, never surfaced.
    Settings(Result<Option<BinaryConfiguration>, String>),
    /// A search-path probe finished.
    WhichResult(Option<String>),
    /// A stat call finished: `Ok(true)` exactly when the path names an
    /// existing regular file. A stat error is carried as `Err` and
    /// treated as a miss.
    StatResult(Result<bool, String>),
    /// A status event was emitted (fire-and-forget).
    StatusAcknowledged,
    /// A release query finished.
    ReleaseResult(Result<Release, String>),
    /// The host platform, queried once per resolution.
    PlatformInfo(Os, Arch),
    /// The download finished.
    DownloadResult(Result<(), String>),
}

/// Mathematical image of an [`Event`].
pub enum EventView {
    Settings(Result<Option<BinaryConfigurationView>, Seq<char>>),
    WhichResult(Option<Seq<char>>),
    StatResult(Result<bool, Seq<char>>),
    StatusAcknowledged,
    ReleaseResult(Result<ReleaseView, Seq<char>>),
    PlatformInfo(Os, Arch),
    DownloadResult(Result<(), Seq<char>>),
}

impl View for Event {
    type V = EventView;

    open spec fn view(&self) -> EventView {
        match self {
            Event::Settings(s) => EventView::Settings(
                match s {
                    Ok(o) => Ok(o.deep_view()),
                    Err(m) => Err(m@),
                },
            ),
            Event::WhichResult(w) => EventView::WhichResult(w.deep_view()),
            Event::StatResult(s) => EventView::StatResult(
                match s {
                    Ok(b) => Ok(*b),
                    Err(m) => Err(m@),
                },
            ),
            Event::StatusAcknowledged => EventView::StatusAcknowledged,
            Event::ReleaseResult(r) => EventView::ReleaseResult(
                match r {
                    Ok(rel) => Ok(rel@),
                    Err(m) => Err(m@),
                },
            ),
            Event::PlatformInfo(os, arch) => EventView::PlatformInfo(*os, *arch),
            Event::DownloadResult(r) => EventView::DownloadResult(
                match r {
                    Ok(u) => Ok(*u),
                    Err(m) => Err(m@),
                },
            ),
        }
    }
}

/// The machine's next request to the host.
pub enum Effect {
    /// Read the binary settings for the server from the workspace.
    GetSettings,
    /// Probe the workspace search path for the named binary.
    Which(String),
    /// Stat the named path; answer whether it is an existing regular file.
    StatFile(String),
    /// Report provisioning progress (fire-and-forget).
    SetStatus(Status),
    /// Fetch the latest non-prerelease release, with assets required, of
    /// the named repository.
    FetchLatestRelease(String, ReleaseQueryOptions),
    /// Fetch the release of the named repository under the given tag.
    FetchReleaseByTag(String, String),
    /// Report the host operating system and architecture.
    GetPlatform,
    /// Fetch the first URL into the file named second, as a single
    /// uncompressed executable.
    Download(String, String),
    /// Resolution finished with this outcome; the machine accepts no
    /// further events until restarted.
    Done(Result<ResolvedBinary, ResolutionError>),
}

/// Mathematical image of an [`Effect`].
pub enum EffectView {
    GetSettings,
    Which(Seq<char>),
    StatFile(Seq<char>),
    SetStatus(Status),
    FetchLatestRelease(Seq<char>, ReleaseQueryOptions),
    FetchReleaseByTag(Seq<char>, Seq<char>),
    GetPlatform,
    Download(Seq<char>, Seq<char>),
    Done(Result<ResolvedBinaryView, ResolutionErrorView>),
}

impl View for Effect {
    type V = EffectView;

    open spec fn view(&self) -> EffectView {
        match self {
            Effect::GetSettings => EffectView::GetSettings,
            Effect::Which(n) => EffectView::Which(n@),
            Effect::StatFile(p) => EffectView::StatFile(p@),
            Effect::SetStatus(s) => EffectView::SetStatus(*s),
            Effect::FetchLatestRelease(repo, o) => EffectView::FetchLatestRelease(repo@, *o),
            Effect::FetchReleaseByTag(repo, tag) => EffectView::FetchReleaseByTag(repo@, tag@),
            Effect::GetPlatform => EffectView::GetPlatform,
            Effect::Download(url, dest) => EffectView::Download(url@, dest@),
            Effect::Done(r) => EffectView::Done(
                match r {
                    Ok(b) => Ok(b@),
                    Err(e) => Err(e@),
                },
            ),
        }
    }
}

/// Where the machine stands: which answer it is waiting for, with the
/// values already gathered.
pub enum Phase {
    /// Fresh, or between resolutions.
    Idle,
    AwaitSettings,
    AwaitWhich { idx: usize, args: Option<Vec<String>> },
    AwaitCacheStat { path: String, args: Option<Vec<String>> },
    AwaitLookupStatus { args: Option<Vec<String>> },
    AwaitLatestRelease { args: Option<Vec<String>> },
    AwaitRefetch { original: Release, args: Option<Vec<String>> },
    AwaitPlatform { release: Release, args: Option<Vec<String>> },
    AwaitAssetStat { name: String, url: String, args: Option<Vec<String>> },
    AwaitDownloadStatus { name: String, url: String, args: Option<Vec<String>> },
    AwaitDownload { name: String, args: Option<Vec<String>> },
    Finished,
}

/// Mathematical image of a [`Phase`].
pub enum PhaseView {
    Idle,
    AwaitSettings,
    AwaitWhich { idx: int, args: Option<Seq<Seq<char>>> },
    AwaitCacheStat { path: Seq<char>, args: Option<Seq<Seq<char>>> },
    AwaitLookupStatus { args: Option<Seq<Seq<char>>> },
    AwaitLatestRelease { args: Option<Seq<Seq<char>>> },
    AwaitRefetch { original: ReleaseView, args: Option<Seq<Seq<char>>> },
    AwaitPlatform { release: ReleaseView, args: Option<Seq<Seq<char>>> },
    AwaitAssetStat { name: Seq<char>, url: Seq<char>, args: Option<Seq<Seq<char>>> },
    AwaitDownloadStatus { name: Seq<char>, url: Seq<char>, args: Option<Seq<Seq<char>>> },
    AwaitDownload { name: Seq<char>, args: Option<Seq<Seq<char>>> },
    Finished,
}

impl View for Phase {
    type V = PhaseView;

    open spec fn view(&self) -> PhaseView {
        match self {
            Phase::Idle => PhaseView::Idle,
            Phase::AwaitSettings => PhaseView::AwaitSettings,
            Phase::AwaitWhich { idx, args } => PhaseView::AwaitWhich {
                idx: *idx as int,
                args: args.deep_view(),
            },
            Phase::AwaitCacheStat { path, args } => PhaseView::AwaitCacheStat {
                path: path@,
                args: args.deep_view(),
            },
            Phase::AwaitLookupStatus { args } => PhaseView::AwaitLookupStatus {
                args: args.deep_view(),
            },
            Phase::AwaitLatestRelease { args } => PhaseView::AwaitLatestRelease {
                args: args.deep_view(),
            },
            Phase::AwaitRefetch { original, args } => PhaseView::AwaitRefetch {
                original: original@,
                args: args.deep_view(),
            },
            Phase::AwaitPlatform { release, args } => PhaseView::AwaitPlatform {
                release: release@,
                args: args.deep_view(),
            },
            Phase::AwaitAssetStat { name, url, args } => PhaseView::AwaitAssetStat {
                name: name@,
                url: url@,
                args: args.deep_view(),
            },
            Phase::AwaitDownloadStatus { name, url, args } => PhaseView::AwaitDownloadStatus {
                name: name@,
                url: url@,
                args: args.deep_view(),
            },
            Phase::AwaitDownload { name, args } => PhaseView::AwaitDownload {
                name: name@,
                args: args.deep_view(),
            },
            Phase::Finished => PhaseView::Finished,
        }
    }
}

/// The resolver: the machine's phase, and the process-lifetime cache of
/// the last provisioned path. The cache outlives a resolution and is only
/// ever invalidated by its stat check failing.
pub struct Resolver {
    pub cached_binary_path: Option<String>,
    pub phase: Phase,
}

/// Mathematical image of a [`Resolver`].
pub struct ResolverView {
    pub cached: Option<Seq<char>>,
    pub phase: PhaseView,
}

impl View for Resolver {
    type V = ResolverView;

    open spec fn view(&self) -> ResolverView {
        ResolverView { cached: self.cached_binary_path.deep_view(), phase: self.phase@ }
    }
}

/// The upstream repository queried for releases.
pub open spec fn spec_repo() -> Seq<char> {
    "grain-lang/grain"@
}

/// Returns the upstream repository identifier.
pub fn repo_id() -> (r: String)
    ensures
        r@ == spec_repo(),
{
    String::from_str("grain-lang/grain")
}

/// The candidate binary names probed on the workspace search path, in
/// order. The generic name comes first, so a user-installed canonical
/// binary takes precedence over release-artifact names.
pub open spec fn spec_candidates() -> Seq<Seq<char>> {
    seq!["grain"@, "grain-mac-x64"@, "grain-linux-x64"@, "grain-win-x64"@]
}

/// Returns the `i`-th candidate binary name.
pub fn candidate(i: usize) -> (r: String)
    requires
        i < 4,
    ensures
        r@ == spec_candidates()[i as int],
{
    let s: &str = match i {
        0 => "grain",
        1 => "grain-mac-x64",
        2 => "grain-linux-x64",
        _ => "grain-win-x64",
    };
    String::from_str(s)
}

/// The argument list a settings answer contributes: present only when the
/// lookup succeeded and named one.
pub open spec fn spec_settings_args(
    s: Result<Option<BinaryConfigurationView>, Seq<char>>,
) -> Option<Seq<Seq<char>>> {
    match s {
        Ok(Some(c)) => c.arguments,
        _ => None,
    }
}

/// The explicit path a settings answer contributes, if any.
pub open spec fn spec_settings_path(
    s: Result<Option<BinaryConfigurationView>, Seq<char>>,
) -> Option<Seq<char>> {
    match s {
        Ok(Some(c)) => c.path,
        _ => None,
    }
}

/// True when a stat answer reports an existing regular file; a stat error
/// counts as a miss.
pub open spec fn spec_stat_hit(s: Result<bool, Seq<char>>) -> bool {
    s == Ok::<bool, Seq<char>>(true)
}

/// Whether an event is the kind of answer the phase awaits.
pub open spec fn event_fits(p: PhaseView, e: EventView) -> bool {
    match (p, e) {
        (PhaseView::AwaitSettings, EventView::Settings(_)) => true,
        (PhaseView::AwaitWhich { .. }, EventView::WhichResult(_)) => true,
        (PhaseView::AwaitCacheStat { .. }, EventView::StatResult(_)) => true,
        (PhaseView::AwaitLookupStatus { .. }, EventView::StatusAcknowledged) => true,
        (PhaseView::AwaitLatestRelease { .. }, EventView::ReleaseResult(_)) => true,
        (PhaseView::AwaitRefetch { .. }, EventView::ReleaseResult(_)) => true,
        (PhaseView::AwaitPlatform { .. }, EventView::PlatformInfo(_, _)) => true,
        (PhaseView::AwaitAssetStat { .. }, EventView::StatResult(_)) => true,
        (PhaseView::AwaitDownloadStatus { .. }, EventView::StatusAcknowledged) => true,
        (PhaseView::AwaitDownload { .. }, EventView::DownloadResult(_)) => true,
        _ => false,
    }
}

/// The transition relation of the pipeline: from a resolver and the
/// host's answer to the new resolver and the next request. This is the
/// whole logic of resolution; [`Resolver::step`] follows it exactly.
pub open spec fn next(r: ResolverView, e: EventView) -> (ResolverView, EffectView) {
    match (r.phase, e) {
        (PhaseView::AwaitSettings, EventView::Settings(s)) => {
            let args = spec_settings_args(s);
            match spec_settings_path(s) {
                Some(p) => (
                    ResolverView { cached: r.cached, phase: PhaseView::Finished },
                    EffectView::Done(Ok(ResolvedBinaryView { path: p, args })),
                ),
                None => (
                    ResolverView { cached: r.cached, phase: PhaseView::AwaitWhich { idx: 0, args } },
                    EffectView::Which(spec_candidates()[0]),
                ),
            }
        },
        (PhaseView::AwaitWhich { idx, args }, EventView::WhichResult(w)) => match w {
            Some(p) => (
                ResolverView { cached: r.cached, phase: PhaseView::Finished },
                EffectView::Done(Ok(ResolvedBinaryView { path: p, args })),
            ),
            None => {
                if idx < 3 {
                    (
                        ResolverView {
                            cached: r.cached,
                            phase: PhaseView::AwaitWhich { idx: idx + 1, args },
                        },
                        EffectView::Which(spec_candidates()[idx + 1]),
                    )
                } else {
                    match r.cached {
                        Some(p) => (
                            ResolverView {
                                cached: r.cached,
                                phase: PhaseView::AwaitCacheStat { path: p, args },
                            },
                            EffectView::StatFile(p),
                        ),
                        None => (
                            ResolverView {
                                cached: r.cached,
                                phase: PhaseView::AwaitLookupStatus { args },
                            },
                            EffectView::SetStatus(Status::CheckingForUpdate),
                        ),
                    }
                }
            },
        },
        (PhaseView::AwaitCacheStat { path, args }, EventView::StatResult(s)) => {
            if spec_stat_hit(s) {
                (
                    ResolverView { cached: r.cached, phase: PhaseView::Finished },
                    EffectView::Done(Ok(ResolvedBinaryView { path, args })),
                )
            } else {
                (
                    ResolverView { cached: r.cached, phase: PhaseView::AwaitLookupStatus { args } },
                    EffectView::SetStatus(Status::CheckingForUpdate),
                )
            }
        },
        (PhaseView::AwaitLookupStatus { args }, EventView::StatusAcknowledged) => (
            ResolverView { cached: r.cached, phase: PhaseView::AwaitLatestRelease { args } },
            EffectView::FetchLatestRelease(
                spec_repo(),
                ReleaseQueryOptions { require_assets: true, pre_release: false },
            ),
        ),
        (PhaseView::AwaitLatestRelease { args }, EventView::ReleaseResult(res)) => match res {
            Err(m) => (
                ResolverView { cached: r.cached, phase: PhaseView::Finished },
                EffectView::Done(Err(ResolutionErrorView::Lookup(m))),
            ),
            Ok(rel) => {
                if spec_has_product_prefix(rel.version) {
                    (
                        ResolverView {
                            cached: r.cached,
                            phase: PhaseView::AwaitPlatform { release: rel, args },
                        },
                        EffectView::GetPlatform,
                    )
                } else {
                    (
                        ResolverView {
                            cached: r.cached,
                            phase: PhaseView::AwaitRefetch { original: rel, args },
                        },
                        EffectView::FetchReleaseByTag(
                            spec_repo(),
                            "grain-"@ + spec_bare_version(rel.version),
                        ),
                    )
                }
            },
        },
        (PhaseView::AwaitRefetch { original, args }, EventView::ReleaseResult(res)) => {
            let chosen = match res {
                Ok(rel) => rel,
                Err(_) => original,
            };
            (
                ResolverView {
                    cached: r.cached,
                    phase: PhaseView::AwaitPlatform { release: chosen, args },
                },
                EffectView::GetPlatform,
            )
        },
        (PhaseView::AwaitPlatform { release, args }, EventView::PlatformInfo(os, arch)) => {
            let name = spec_asset_name(os, arch);
            match spec_find_asset(release.assets, name) {
                None => (
                    ResolverView { cached: r.cached, phase: PhaseView::Finished },
                    EffectView::Done(Err(ResolutionErrorView::AssetNotFound(name))),
                ),
                Some(i) => (
                    ResolverView {
                        cached: r.cached,
                        phase: PhaseView::AwaitAssetStat {
                            name,
                            url: release.assets[i].download_url,
                            args,
                        },
                    },
                    EffectView::StatFile(name),
                ),
            }
        },
        (PhaseView::AwaitAssetStat { name, url, args }, EventView::StatResult(s)) => {
            if spec_stat_hit(s) {
                (
                    ResolverView { cached: Some(name), phase: PhaseView::Finished },
                    EffectView::Done(Ok(ResolvedBinaryView { path: name, args })),
                )
            } else {
                (
                    ResolverView {
                        cached: r.cached,
                        phase: PhaseView::AwaitDownloadStatus { name, url, args },
                    },
                    EffectView::SetStatus(Status::Downloading),
                )
            }
        },
        (PhaseView::AwaitDownloadStatus { name, url, args }, EventView::StatusAcknowledged) => (
            ResolverView { cached: r.cached, phase: PhaseView::AwaitDownload { name, args } },
            EffectView::Download(url, name),
        ),
        (PhaseView::AwaitDownload { name, args }, EventView::DownloadResult(res)) => match res {
            Ok(_) => (
                ResolverView { cached: Some(name), phase: PhaseView::Finished },
                EffectView::Done(Ok(ResolvedBinaryView { path: name, args })),
            ),
            Err(m) => (
                ResolverView { cached: r.cached, phase: PhaseView::Finished },
                EffectView::Done(Err(ResolutionErrorView::Download(m))),
            ),
        },
        _ => (r, EffectView::GetSettings),
    }
}

impl Resolver {
    /// A fresh resolver: empty cache, not resolving.
    pub fn new() -> (r: Resolver)
        ensures
            r@.cached is None,
            r@.phase == PhaseView::Idle,
    {
        Resolver { cached_binary_path: None, phase: Phase::Idle }
    }

    /// Begins a resolution. The cache survives from any earlier
    /// resolution; the first request is always the settings lookup.
    pub fn start(&mut self) -> (eff: Effect)
        requires
            old(self)@.phase == PhaseView::Idle || old(self)@.phase == PhaseView::Finished,
        ensures
            final(self)@.phase == PhaseView::AwaitSettings,
            final(self)@.cached == old(self)@.cached,
            eff@ == EffectView::GetSettings,
    {
        self.phase = Phase::AwaitSettings;
        Effect::GetSettings
    }

    /// Feeds the host's answer to the machine and returns the next
    /// request, exactly as the transition relation [`next`] dictates.
    pub fn step(&mut self, e: Event) -> (eff: Effect)
        requires
            event_fits(old(self)@.phase, e@),
        ensures
            final(self)@ == next(old(self)@, e@).0,
            eff@ == next(old(self)@, e@).1,
    {
        let mut ph = Phase::Idle;
        core::mem::swap(&mut ph, &mut self.phase);
        match (ph, e) {
            (Phase::AwaitSettings, Event::Settings(s)) => match s {
                Ok(Some(cfg)) => {
                    let args = cfg.arguments;
                    match cfg.path {
                        Some(p) => {
                            self.phase = Phase::Finished;
                            Effect::Done(Ok(ResolvedBinary { path: p, args }))
                        },
                        None => {
                            self.phase = Phase::AwaitWhich { idx: 0, args };
                            Effect::Which(candidate(0))
                        },
                    }
                },
                _ => {
                    self.phase = Phase::AwaitWhich { idx: 0, args: None };
                    Effect::Which(candidate(0))
                },
            },
            (Phase::AwaitWhich { idx, args }, Event::WhichResult(w)) => match w {
                Some(p) => {
                    self.phase = Phase::Finished;
                    Effect::Done(Ok(ResolvedBinary { path: p, args }))
                },
                None => {
                    if idx < 3 {
                        let i2 = idx + 1;
                        self.phase = Phase::AwaitWhich { idx: i2, args };
                        Effect::Which(candidate(i2))
                    } else {
                        let cached = self.cached_binary_path.clone();
                        match cached {
                            Some(p) => {
                                self.phase = Phase::AwaitCacheStat { path: p.clone(), args };
                                Effect::StatFile(p)
                            },
                            None => {
                                self.phase = Phase::AwaitLookupStatus { args };
                                Effect::SetStatus(Status::CheckingForUpdate)
                            },
                        }
                    }
                },
            },
            (Phase::AwaitCacheStat { path, args }, Event::StatResult(s)) => {
                let hit = match s {
                    Ok(b) => b,
                    Err(_) => false,
                };
                if hit {
                    self.phase = Phase::Finished;
                    Effect::Done(Ok(ResolvedBinary { path, args }))
                } else {
                    self.phase = Phase::AwaitLookupStatus { args };
                    Effect::SetStatus(Status::CheckingForUpdate)
                }
            },
            (Phase::AwaitLookupStatus { args }, Event::StatusAcknowledged) => {
                self.phase = Phase::AwaitLatestRelease { args };
                Effect::FetchLatestRelease(
                    repo_id(),
                    ReleaseQueryOptions { require_assets: true, pre_release: false },
                )
            },
            (Phase::AwaitLatestRelease { args }, Event::ReleaseResult(res)) => match res {
                Err(m) => {
                    self.phase = Phase::Finished;
                    Effect::Done(Err(ResolutionError::Lookup(m)))
                },
                Ok(rel) => {
                    if has_product_prefix(&rel.version) {
                        self.phase = Phase::AwaitPlatform { release: rel, args };
                        Effect::GetPlatform
                    } else {
                        let tag = refetch_tag(&rel.version);
                        self.phase = Phase::AwaitRefetch { original: rel, args };
                        Effect::FetchReleaseByTag(repo_id(), tag)
                    }
                },
            },
            (Phase::AwaitRefetch { original, args }, Event::ReleaseResult(res)) => {
                let chosen = match res {
                    Ok(rel) => rel,
                    Err(_) => original,
                };
                self.phase = Phase::AwaitPlatform { release: chosen, args };
                Effect::GetPlatform
            },
            (Phase::AwaitPlatform { release, args }, Event::PlatformInfo(os, arch)) => {
                let name = derive_asset_name(os, arch);
                match crate::release::find_asset_index(&release.assets, &name) {
                    None => {
                        self.phase = Phase::Finished;
                        Effect::Done(Err(ResolutionError::AssetNotFound(name)))
                    },
                    Some(i) => {
                        proof {
                            assert(release.assets.deep_view()[i as int]
                                == release.assets@[i as int]@);
                        }
                        let url = release.assets[i].download_url.clone();
                        self.phase = Phase::AwaitAssetStat { name: name.clone(), url, args };
                        Effect::StatFile(name)
                    },
                }
            },
            (Phase::AwaitAssetStat { name, url, args }, Event::StatResult(s)) => {
                let hit = match s {
                    Ok(b) => b,
                    Err(_) => false,
                };
                if hit {
                    self.cached_binary_path = Some(name.clone());
                    self.phase = Phase::Finished;
                    Effect::Done(Ok(ResolvedBinary { path: name, args }))
                } else {
                    self.phase = Phase::AwaitDownloadStatus { name, url, args };
                    Effect::SetStatus(Status::Downloading)
                }
            },
            (Phase::AwaitDownloadStatus { name, url, args }, Event::StatusAcknowledged) => {
                self.phase = Phase::AwaitDownload { name: name.clone(), args };
                Effect::Download(url, name)
            },
            (Phase::AwaitDownload { name, args }, Event::DownloadResult(res)) => match res {
                Ok(_) => {
                    self.cached_binary_path = Some(name.clone());
                    self.phase = Phase::Finished;
                    Effect::Done(Ok(ResolvedBinary { path: name, args }))
                },
                Err(m) => {
                    self.phase = Phase::Finished;
                    Effect::Done(Err(ResolutionError::Download(m)))
                },
            },
            _ => {
                proof {
                    assert(false);
                }
                vstd::pervasive::unreached()
            },
        }
    }
}

/// The argument list of a resolved binary, or empty when configuration
/// named none.
pub open spec fn spec_args_or_empty(args: Option<Seq<Seq<char>>>) -> Seq<Seq<char>> {
    match args {
        Some(a) => a,
        None => Seq::empty(),
    }
}

/// The launch command handed to the host: the resolved path, and the
/// configured arguments behind the fixed `lsp` subcommand token.
pub struct LaunchCommand {
    pub command: String,
    pub args: Vec<String>,
}

/// Mathematical image of a [`LaunchCommand`].
pub struct LaunchCommandView {
    pub command: Seq<char>,
    pub args: Seq<Seq<char>>,
}

impl View for LaunchCommand {
    type V = LaunchCommandView;

    open spec fn view(&self) -> LaunchCommandView {
        LaunchCommandView { command: self.command@, args: self.args.deep_view() }
    }
}

/// Turns a resolved binary into the launch command: the `lsp` subcommand
/// token always comes first, whatever strategy supplied the path.
pub fn make_command(binary: ResolvedBinary) -> (r: LaunchCommand)
    ensures
        r@.command == binary@.path,
        r@.args == seq!["lsp"@] + spec_args_or_empty(binary@.args),
{
    let mut args: Vec<String> = Vec::new();
    args.push(String::from_str("lsp"));
    let ghost pre = binary@;
    match binary.args {
        Some(mut rest) => {
            args.append(&mut rest);
        },
        None => {},
    }
    proof {
        assert(args.deep_view() =~= seq!["lsp"@] + spec_args_or_empty(pre.args));
    }
    LaunchCommand { command: binary.path, args }
}

} // verus!
