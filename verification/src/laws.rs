//! Laws of the resolution pipeline, proved over the transition relation
//! [`next`] that [`crate::machine::Resolver::step`] follows exactly.

use vstd::prelude::*;

use crate::machine::BinaryConfigurationView;
use crate::machine::EffectView;
use crate::machine::EventView;
use crate::machine::PhaseView;
use crate::machine::ResolvedBinaryView;
use crate::machine::ResolverView;
use crate::machine::Status;
use crate::machine::event_fits;
use crate::machine::next;
use crate::machine::spec_repo;
use crate::machine::spec_settings_args;
use crate::machine::spec_settings_path;
use crate::release::ReleaseView;
use crate::release::spec_find_asset;
use crate::tag::spec_has_hyphen;
use crate::tag::spec_has_product_prefix;
use crate::tag::spec_last_hyphen;
use crate::tokens::Arch;
use crate::tokens::Os;
use crate::tokens::spec_asset_name;

verus! {

/// The resolver after starting from `r`, then consuming the events of
/// `evs` from position `i` on.
pub open spec fn run_states_from(r: ResolverView, evs: Seq<EventView>, i: int) -> ResolverView
    decreases evs.len() - i,
{
    if i < 0 || i >= evs.len() {
        r
    } else {
        run_states_from(next(r, evs[i]).0, evs, i + 1)
    }
}

/// The resolver after consuming all events of `evs` from `r`.
pub open spec fn run_states(r: ResolverView, evs: Seq<EventView>) -> ResolverView {
    run_states_from(r, evs, 0)
}

/// The requests the machine emits while consuming the events of `evs`
/// from position `i` on.
pub open spec fn run_effects_from(r: ResolverView, evs: Seq<EventView>, i: int) -> Seq<EffectView>
    decreases evs.len() - i,
{
    if i < 0 || i >= evs.len() {
        Seq::empty()
    } else {
        seq![next(r, evs[i]).1] + run_effects_from(next(r, evs[i]).0, evs, i + 1)
    }
}

/// The requests the machine emits while consuming all events of `evs`.
pub open spec fn run_effects(r: ResolverView, evs: Seq<EventView>) -> Seq<EffectView> {
    run_effects_from(r, evs, 0)
}

/// Each event of `evs`, from position `i` on, is the kind of answer the
/// machine awaits when it arrives.
pub open spec fn events_fit_from(r: ResolverView, evs: Seq<EventView>, i: int) -> bool
    decreases evs.len() - i,
{
    i >= evs.len() || (event_fits(r.phase, evs[i]) && events_fit_from(next(r, evs[i]).0, evs, i + 1))
}

/// Each event of `evs` is the kind of answer the machine awaits when it
/// arrives.
pub open spec fn events_fit(r: ResolverView, evs: Seq<EventView>) -> bool {
    events_fit_from(r, evs, 0)
}

/// A resolver immediately after a restart: the phase is reset to the
/// settings lookup, the cache survives.
pub open spec fn restarted(r: ResolverView) -> ResolverView {
    ResolverView { cached: r.cached, phase: PhaseView::AwaitSettings }
}

/// An effect performs a download exactly when it is a `Download` request.
pub open spec fn is_download(e: EffectView) -> bool {
    e is Download
}

/// Configuration always wins: when the settings answer names an explicit
/// path, resolution finishes at once with that path unchanged — whatever
/// the cache holds and whatever the workspace or the network would have
/// answered (the finished machine awaits nothing further) — and the
/// configured arguments ride along.
pub proof fn lemma_configured_path_wins(
    r: ResolverView,
    s: Result<Option<BinaryConfigurationView>, Seq<char>>,
    p: Seq<char>,
)
    requires
        r.phase == PhaseView::AwaitSettings,
        spec_settings_path(s) == Some(p),
    ensures
        next(r, EventView::Settings(s)).1 == EffectView::Done(
            Ok(ResolvedBinaryView { path: p, args: spec_settings_args(s) }),
        ),
        next(r, EventView::Settings(s)).0 == (ResolverView {
            cached: r.cached,
            phase: PhaseView::Finished,
        }),
        forall|e2: EventView| !event_fits(PhaseView::Finished, e2),
{
}

/// The normalized re-fetch asks for exactly `grain-` followed by the
/// substring of the release tag after its last hyphen, whenever the tag
/// does not start with the product prefix and holds at least one hyphen.
pub proof fn lemma_refetch_uses_last_hyphen_suffix(
    r: ResolverView,
    a: Option<Seq<Seq<char>>>,
    rel: ReleaseView,
)
    requires
        r.phase == (PhaseView::AwaitLatestRelease { args: a }),
        !spec_has_product_prefix(rel.version),
        spec_has_hyphen(rel.version),
    ensures
        next(r, EventView::ReleaseResult(Ok(rel))).1 == EffectView::FetchReleaseByTag(
            spec_repo(),
            "grain-"@ + rel.version.subrange(
                spec_last_hyphen(rel.version) + 1,
                rel.version.len() as int,
            ),
        ),
{
}

/// Tag normalization is best-effort: when the re-fetch by the
/// reconstructed tag fails, resolution proceeds with the original
/// release object, and no failure arises from normalization alone.
pub proof fn lemma_refetch_failure_keeps_original(
    r: ResolverView,
    orig: ReleaseView,
    a: Option<Seq<Seq<char>>>,
    m: Seq<char>,
)
    requires
        r.phase == (PhaseView::AwaitRefetch { original: orig, args: a }),
    ensures
        next(r, EventView::ReleaseResult(Err(m))).0 == (ResolverView {
            cached: r.cached,
            phase: PhaseView::AwaitPlatform { release: orig, args: a },
        }),
        next(r, EventView::ReleaseResult(Err(m))).1 == EffectView::GetPlatform,
{
}

/// The events of a resolution in which configuration names no path, no
/// probe of the workspace search path hits, and the machine's one stat
/// request reports an existing regular file.
pub open spec fn local_miss_events(
    s: Result<Option<BinaryConfigurationView>, Seq<char>>,
) -> Seq<EventView> {
    seq![
        EventView::Settings(s),
        EventView::WhichResult(None),
        EventView::WhichResult(None),
        EventView::WhichResult(None),
        EventView::WhichResult(None),
        EventView::StatResult(Ok(true)),
    ]
}

/// A resolution that falls through to a cached path whose file still
/// exists returns that path, emits no download and no download status,
/// and leaves the cache as it was.
pub proof fn lemma_cached_resolution(
    r: ResolverView,
    s: Result<Option<BinaryConfigurationView>, Seq<char>>,
    name: Seq<char>,
)
    requires
        r.phase == PhaseView::AwaitSettings,
        r.cached == Some(name),
        (spec_settings_path(s) is None),
    ensures
        events_fit(r, local_miss_events(s)),
        run_states(r, local_miss_events(s)) == (ResolverView {
            cached: Some(name),
            phase: PhaseView::Finished,
        }),
        run_effects(r, local_miss_events(s)).last() == EffectView::Done(
            Ok(ResolvedBinaryView { path: name, args: spec_settings_args(s) }),
        ),
        forall|k: int|
            0 <= k < run_effects(r, local_miss_events(s)).len() ==> !is_download(
                #[trigger] run_effects(r, local_miss_events(s))[k],
            ) && run_effects(r, local_miss_events(s))[k] != EffectView::SetStatus(
                Status::Downloading,
            ),
{
    reveal_with_fuel(run_states_from, 8);
    reveal_with_fuel(run_effects_from, 8);
    reveal_with_fuel(events_fit_from, 8);
    let evs = local_miss_events(s);
    let args = spec_settings_args(s);
    let fx = run_effects(r, evs);
    assert(fx =~= seq![
        EffectView::Which(crate::machine::spec_candidates()[0]),
        EffectView::Which(crate::machine::spec_candidates()[1]),
        EffectView::Which(crate::machine::spec_candidates()[2]),
        EffectView::Which(crate::machine::spec_candidates()[3]),
        EffectView::StatFile(name),
        EffectView::Done(Ok(ResolvedBinaryView { path: name, args })),
    ]);
}

/// The events of a resolution that reaches provisioning and finds the
/// asset file already on disk: no configuration path, no search-path
/// hit, an empty cache, a release tagged with the product prefix that
/// carries the derived asset, and a stat answer reporting the asset file
/// present.
pub open spec fn provision_present_events(
    s: Result<Option<BinaryConfigurationView>, Seq<char>>,
    rel: ReleaseView,
    os: Os,
    arch: Arch,
) -> Seq<EventView> {
    seq![
        EventView::Settings(s),
        EventView::WhichResult(None),
        EventView::WhichResult(None),
        EventView::WhichResult(None),
        EventView::WhichResult(None),
        EventView::StatusAcknowledged,
        EventView::ReleaseResult(Ok(rel)),
        EventView::PlatformInfo(os, arch),
        EventView::StatResult(Ok(true)),
    ]
}

/// A resolution whose derived asset file is already on disk performs no
/// download, returns the asset name as the path, and records it as the
/// new cached path.
pub proof fn lemma_provision_existing_asset(
    r: ResolverView,
    s: Result<Option<BinaryConfigurationView>, Seq<char>>,
    rel: ReleaseView,
    os: Os,
    arch: Arch,
)
    requires
        r.phase == PhaseView::AwaitSettings,
        (r.cached is None),
        (spec_settings_path(s) is None),
        spec_has_product_prefix(rel.version),
        (spec_find_asset(rel.assets, spec_asset_name(os, arch)) is Some),
    ensures
        events_fit(r, provision_present_events(s, rel, os, arch)),
        run_states(r, provision_present_events(s, rel, os, arch)) == (ResolverView {
            cached: Some(spec_asset_name(os, arch)),
            phase: PhaseView::Finished,
        }),
        run_effects(r, provision_present_events(s, rel, os, arch)).last() == EffectView::Done(
            Ok(
                ResolvedBinaryView {
                    path: spec_asset_name(os, arch),
                    args: spec_settings_args(s),
                },
            ),
        ),
        forall|k: int|
            0 <= k < run_effects(r, provision_present_events(s, rel, os, arch)).len()
                ==> !is_download(
                #[trigger] run_effects(r, provision_present_events(s, rel, os, arch))[k],
            ),
{
    reveal_with_fuel(run_states_from, 11);
    reveal_with_fuel(run_effects_from, 11);
    reveal_with_fuel(events_fit_from, 11);
    let evs = provision_present_events(s, rel, os, arch);
    let args = spec_settings_args(s);
    let name = spec_asset_name(os, arch);
    let fx = run_effects(r, evs);
    assert(fx =~= seq![
        EffectView::Which(crate::machine::spec_candidates()[0]),
        EffectView::Which(crate::machine::spec_candidates()[1]),
        EffectView::Which(crate::machine::spec_candidates()[2]),
        EffectView::Which(crate::machine::spec_candidates()[3]),
        EffectView::SetStatus(Status::CheckingForUpdate),
        EffectView::FetchLatestRelease(
            spec_repo(),
            crate::machine::ReleaseQueryOptions { require_assets: true, pre_release: false },
        ),
        EffectView::GetPlatform,
        EffectView::StatFile(name),
        EffectView::Done(Ok(ResolvedBinaryView { path: name, args })),
    ]);
}

/// Idempotence of resolution with the asset file already downloaded: a
/// first resolution that finds the asset file present downloads nothing
/// and caches the asset name; a second resolution under the same
/// workspace answers downloads nothing either and returns the same
/// resolved binary.
pub proof fn lemma_resolution_idempotent(
    r: ResolverView,
    s: Result<Option<BinaryConfigurationView>, Seq<char>>,
    rel: ReleaseView,
    os: Os,
    arch: Arch,
)
    requires
        r.phase == PhaseView::AwaitSettings,
        (r.cached is None),
        (spec_settings_path(s) is None),
        spec_has_product_prefix(rel.version),
        (spec_find_asset(rel.assets, spec_asset_name(os, arch)) is Some),
    ensures
        ({
            let first = provision_present_events(s, rel, os, arch);
            let again = local_miss_events(s);
            let r1 = run_states(r, first);
            let outcome = EffectView::Done(
                Ok(
                    ResolvedBinaryView {
                        path: spec_asset_name(os, arch),
                        args: spec_settings_args(s),
                    },
                ),
            );
            &&& run_effects(r, first).last() == outcome
            &&& forall|k: int|
                0 <= k < run_effects(r, first).len() ==> !is_download(
                    #[trigger] run_effects(r, first)[k],
                )
            &&& run_effects(restarted(r1), again).last() == outcome
            &&& forall|k: int|
                0 <= k < run_effects(restarted(r1), again).len() ==> !is_download(
                    #[trigger] run_effects(restarted(r1), again)[k],
                )
        }),
{
    lemma_provision_existing_asset(r, s, rel, os, arch);
    let r1 = run_states(r, provision_present_events(s, rel, os, arch));
    lemma_cached_resolution(restarted(r1), s, spec_asset_name(os, arch));
}

} // verus!
