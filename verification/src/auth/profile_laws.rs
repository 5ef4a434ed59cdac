//! What holds of every run of profile selection.

use vstd::prelude::*;
use crate::auth::profile::{
    declined_report, prompt_items, sole_report, ProfileView, SelectActionView, SelectErrorView,
    SelectEventView, SelectMode, SelectStage, SelectorView,
};
use crate::telemetry::event::EventTypeView;
use crate::telemetry::outcome::{QProfileSwitchIntent, TelemetryResult};

verus! {

/// Selection after all of `events`, fed in order, and every action the
/// steps handed out, in order.
pub open spec fn run(selector: SelectorView, events: Seq<SelectEventView>) -> (
    SelectorView,
    Seq<SelectActionView>,
)
    decreases events.len(),
{
    if events.len() == 0 {
        (selector, Seq::empty())
    } else {
        let (next, first) = selector.step(events[0]);
        let (last, rest) = run(next, events.drop_first());
        (last, first + rest)
    }
}

/// Selection that has ended stays ended: whatever is reported to it
/// afterwards, it does not change and asks for nothing.
pub proof fn ended_selection_is_inert(selector: SelectorView, events: Seq<SelectEventView>)
    requires
        selector.stage == SelectStage::Done,
    ensures
        run(selector, events) == (selector, Seq::<SelectActionView>::empty()),
    decreases events.len(),
{
    if events.len() > 0 {
        ended_selection_is_inert(selector, events.drop_first());
        assert(Seq::<SelectActionView>::empty() + Seq::<SelectActionView>::empty()
            =~= Seq::<SelectActionView>::empty());
    }
}

/// What happens, in order, when selection after sign-in finds exactly
/// one profile and the store takes it.
pub open spec fn sole_script(
    profile: ProfileView,
    sso_region: Option<Seq<char>>,
) -> Seq<SelectEventView> {
    seq![
        SelectEventView::Fetched(seq![profile]),
        SelectEventView::RegionLoaded(sso_region),
        SelectEventView::Persisted,
    ]
}

/// Selection after sign-in with exactly one profile: the profile is
/// stored and selection succeeds; the user is never prompted; and
/// whatever is reported carries the intent `Update` and the region
/// named by the profile.
pub proof fn sole_profile_is_taken_silently(profile: ProfileView, sso_region: Option<Seq<char>>)
    ensures
        ({
            let (end, actions) = run(
                SelectorView::initial(SelectMode::WhoamiAutoSelect),
                sole_script(profile, sso_region),
            );
            &&& end.stage == SelectStage::Done
            &&& actions == seq![SelectActionView::LoadRegion, SelectActionView::Persist(profile)]
                + sole_report(profile, sso_region) + seq![SelectActionView::Finish(Ok(()))]
            &&& forall|i: int| 0 <= i < actions.len() ==> !(#[trigger] actions[i] is Prompt)
            &&& forall|i: int|
                0 <= i < actions.len() && (#[trigger] actions[i] is Report) ==> (actions[i]
                    matches SelectActionView::Report(
                    EventTypeView::ProfileState { source, result, .. },
                ) && source == QProfileSwitchIntent::Update && result
                    == TelemetryResult::Succeeded)
        }),
{
    let start = SelectorView::initial(SelectMode::WhoamiAutoSelect);
    let script = sole_script(profile, sso_region);
    let (loading, first) = start.step(script[0]);
    let (storing, second) = loading.step(script[1]);
    let (end, third) = storing.step(script[2]);
    assert(script.drop_first() =~= seq![script[1], script[2]]);
    assert(script.drop_first().drop_first() =~= seq![script[2]]);
    assert(script.drop_first().drop_first().drop_first() =~= Seq::<SelectEventView>::empty());
    reveal_with_fuel(run, 4);
    let actions = run(start, script).1;
    assert(actions =~= first + (second + (third + Seq::<SelectActionView>::empty())));
    assert(actions =~= seq![SelectActionView::LoadRegion, SelectActionView::Persist(profile)]
        + sole_report(profile, sso_region) + seq![SelectActionView::Finish(Ok(()))]);
}

/// What happens, in order, when the user is prompted and leaves the
/// prompt without choosing.
pub open spec fn declined_script(
    profiles: Seq<ProfileView>,
    sso_region: Option<Seq<char>>,
    active: Option<ProfileView>,
) -> Seq<SelectEventView> {
    seq![
        SelectEventView::Fetched(profiles),
        SelectEventView::RegionLoaded(sso_region),
        SelectEventView::ActiveLoaded(active),
        SelectEventView::Chosen(None),
    ]
}

/// Where the user leaves the prompt without choosing, selection ends
/// with `NoProfileSelected`; nothing is stored, so the active profile
/// stays what it was; and one event is reported, with intent `User`,
/// region "not-set", result `Cancelled` and the number of profiles that
/// were offered. This holds whenever a prompt is shown at all: for any
/// profiles but none, and but a single one after sign-in.
pub proof fn declined_prompt_stores_nothing(
    mode: SelectMode,
    profiles: Seq<ProfileView>,
    sso_region: Option<Seq<char>>,
    active: Option<ProfileView>,
)
    requires
        profiles.len() > 0,
        !(mode == SelectMode::WhoamiAutoSelect && profiles.len() == 1),
    ensures
        ({
            let (end, actions) = run(
                SelectorView::initial(mode),
                declined_script(profiles, sso_region, active),
            );
            &&& end.stage == SelectStage::Done
            &&& actions == seq![
                SelectActionView::LoadRegion,
                SelectActionView::LoadActive,
                SelectActionView::Prompt(prompt_items(profiles, active)),
                declined_report(sso_region, profiles.len()),
                SelectActionView::Finish(Err(SelectErrorView::NoProfileSelected)),
            ]
            &&& forall|i: int| 0 <= i < actions.len() ==> !(#[trigger] actions[i] is Persist)
        }),
{
    let start = SelectorView::initial(mode);
    let script = declined_script(profiles, sso_region, active);
    let (s1, a1) = start.step(script[0]);
    let (s2, a2) = s1.step(script[1]);
    let (s3, a3) = s2.step(script[2]);
    let (s4, a4) = s3.step(script[3]);
    let t1 = script.drop_first();
    let t2 = t1.drop_first();
    let t3 = t2.drop_first();
    assert(t1 =~= seq![script[1], script[2], script[3]]);
    assert(t2 =~= seq![script[2], script[3]]);
    assert(t3 =~= seq![script[3]]);
    assert(t3.drop_first() =~= Seq::<SelectEventView>::empty());
    reveal_with_fuel(run, 5);
    let actions = run(start, script).1;
    assert(actions =~= a1 + (a2 + (a3 + (a4 + Seq::<SelectActionView>::empty()))));
    assert(actions =~= seq![
        SelectActionView::LoadRegion,
        SelectActionView::LoadActive,
        SelectActionView::Prompt(prompt_items(profiles, active)),
        declined_report(sso_region, profiles.len()),
        SelectActionView::Finish(Err(SelectErrorView::NoProfileSelected)),
    ]);
}

} // verus!
