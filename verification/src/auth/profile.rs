//! Choosing the working profile of a multi-profile identity.
//!
//! The selector is a transition function without I/O: the caller fetches,
//! prompts, persists and reports as the steps ask, and hands back what
//! came of it.

use vstd::prelude::*;
use crate::auth::arn::{arn_region, region_of_arn};
use crate::auth::model::copy_text;
use crate::telemetry::event::{EventType, EventTypeView};
use crate::telemetry::outcome::{QProfileSwitchIntent, TelemetryResult};

verus! {

/// A working profile of an identity.
#[derive(Debug, PartialEq, Eq)]
pub struct Profile {
    /// Name shown to the user.
    pub profile_name: String,
    /// Resource name; its fourth colon-separated field is the region.
    pub arn: String,
}

/// Mathematical value of a [`Profile`].
pub struct ProfileView {
    pub profile_name: Seq<char>,
    pub arn: Seq<char>,
}

impl View for Profile {
    type V = ProfileView;

    open spec fn view(&self) -> ProfileView {
        ProfileView { profile_name: self.profile_name@, arn: self.arn@ }
    }
}

impl DeepView for Profile {
    type V = ProfileView;

    open spec fn deep_view(&self) -> ProfileView {
        self@
    }
}

impl Profile {
    /// Copies the profile.
    pub fn duplicate(&self) -> (copy: Profile)
        ensures
            copy@ == self@,
    {
        Profile { profile_name: self.profile_name.clone(), arn: self.arn.clone() }
    }
}

/// From where profile selection was started.
#[derive(Debug, Clone, Copy, PartialEq, Eq, Structural)]
pub enum SelectMode {
    /// By the user, through the profile command: always prompt.
    Interactive,
    /// After signing in: a single profile is taken without a prompt.
    WhoamiAutoSelect,
}

/// Why profile selection ended without a selection.
#[derive(Debug, PartialEq, Eq)]
pub enum SelectError {
    /// The user left the prompt without choosing.
    NoProfileSelected,
    /// The profile list could not be fetched.
    Provider(String),
    /// The credential store could not be read or written.
    Store(String),
    /// The prompt could not be shown.
    Prompt(String),
}

/// Mathematical value of a [`SelectError`].
pub enum SelectErrorView {
    NoProfileSelected,
    Provider(Seq<char>),
    Store(Seq<char>),
    Prompt(Seq<char>),
}

impl View for SelectError {
    type V = SelectErrorView;

    open spec fn view(&self) -> SelectErrorView {
        match self {
            SelectError::NoProfileSelected => SelectErrorView::NoProfileSelected,
            SelectError::Provider(message) => SelectErrorView::Provider(message@),
            SelectError::Store(message) => SelectErrorView::Store(message@),
            SelectError::Prompt(message) => SelectErrorView::Prompt(message@),
        }
    }
}

/// How profile selection ended, as a mathematical value.
pub type SelectEnd = Result<(), SelectErrorView>;

/// Mathematical value of the result with which profile selection ends.
pub open spec fn select_end(result: Result<(), SelectError>) -> SelectEnd {
    match result {
        Ok(()) => Ok(()),
        Err(e) => Err(e@),
    }
}

/// What the selector is waiting for.
#[derive(Debug, Clone, Copy, PartialEq, Eq, Structural)]
pub enum SelectStage {
    /// For the list of profiles.
    Fetching,
    /// For the identity provider's region, read from the store.
    LoadingRegion,
    /// For the profile that is active now, read from the store.
    LoadingActive,
    /// For the user's answer to the prompt.
    Prompting,
    /// For the only profile to be stored.
    StoringSole,
    /// For the chosen profile to be stored.
    StoringChoice,
    /// For nothing: selection has ended.
    Done,
}

/// What happened outside the selector since its last step.
#[derive(Debug, PartialEq, Eq)]
pub enum SelectEvent {
    /// The profiles were fetched.
    Fetched(Vec<Profile>),
    /// The profiles could not be fetched.
    FetchFailed(String),
    /// The store gave the identity provider's region, if it holds one.
    RegionLoaded(Option<String>),
    /// The store gave the active profile, if there is one.
    ActiveLoaded(Option<Profile>),
    /// The store failed on the last read or write.
    StoreFailed(String),
    /// The user answered the prompt: with the index of an item, or by
    /// leaving without a choice.
    Chosen(Option<usize>),
    /// The prompt could not be shown.
    PromptFailed(String),
    /// The profile was stored.
    Persisted,
}

/// Mathematical value of a [`SelectEvent`].
pub enum SelectEventView {
    Fetched(Seq<ProfileView>),
    FetchFailed(Seq<char>),
    RegionLoaded(Option<Seq<char>>),
    ActiveLoaded(Option<ProfileView>),
    StoreFailed(Seq<char>),
    Chosen(Option<int>),
    PromptFailed(Seq<char>),
    Persisted,
}

impl View for SelectEvent {
    type V = SelectEventView;

    open spec fn view(&self) -> SelectEventView {
        match self {
            SelectEvent::Fetched(profiles) => SelectEventView::Fetched(profiles.deep_view()),
            SelectEvent::FetchFailed(message) => SelectEventView::FetchFailed(message@),
            SelectEvent::RegionLoaded(region) => SelectEventView::RegionLoaded(region.deep_view()),
            SelectEvent::ActiveLoaded(active) => SelectEventView::ActiveLoaded(active.deep_view()),
            SelectEvent::StoreFailed(message) => SelectEventView::StoreFailed(message@),
            SelectEvent::Chosen(choice) => SelectEventView::Chosen(
                match choice {
                    Some(i) => Some(*i as int),
                    None => None,
                },
            ),
            SelectEvent::PromptFailed(message) => SelectEventView::PromptFailed(message@),
            SelectEvent::Persisted => SelectEventView::Persisted,
        }
    }
}

/// What the caller is to do next, in the order given.
#[derive(Debug, PartialEq)]
pub enum SelectAction {
    /// Fetch the profiles; answer with `Fetched` or `FetchFailed`.
    FetchProfiles,
    /// Read the identity provider's region from the store; answer with
    /// `RegionLoaded` or `StoreFailed`.
    LoadRegion,
    /// Read the active profile from the store; answer with
    /// `ActiveLoaded` or `StoreFailed`.
    LoadActive,
    /// Let the user pick one of these items or none; answer with
    /// `Chosen` or `PromptFailed`.
    Prompt(Vec<String>),
    /// Store the profile as the active one; answer with `Persisted` or
    /// `StoreFailed`.
    Persist(Profile),
    /// Report the event to telemetry; whether that works is of no
    /// consequence.
    Report(EventType),
    /// Selection has ended with this result.
    Finish(Result<(), SelectError>),
}

/// Mathematical value of a [`SelectAction`].
pub enum SelectActionView {
    FetchProfiles,
    LoadRegion,
    LoadActive,
    Prompt(Seq<Seq<char>>),
    Persist(ProfileView),
    Report(EventTypeView),
    Finish(SelectEnd),
}

impl View for SelectAction {
    type V = SelectActionView;

    open spec fn view(&self) -> SelectActionView {
        match self {
            SelectAction::FetchProfiles => SelectActionView::FetchProfiles,
            SelectAction::LoadRegion => SelectActionView::LoadRegion,
            SelectAction::LoadActive => SelectActionView::LoadActive,
            SelectAction::Prompt(items) => SelectActionView::Prompt(items.deep_view()),
            SelectAction::Persist(profile) => SelectActionView::Persist(profile@),
            SelectAction::Report(event) => SelectActionView::Report(event@),
            SelectAction::Finish(result) => SelectActionView::Finish(select_end(*result)),
        }
    }
}

impl DeepView for SelectAction {
    type V = SelectActionView;

    open spec fn deep_view(&self) -> SelectActionView {
        self@
    }
}

/// The number of profiles as it is reported: the count itself, or the
/// largest reportable number where the count exceeds it.
pub open spec fn reported_count(profiles: nat) -> i64 {
    if profiles <= i64::MAX {
        profiles as i64
    } else {
        i64::MAX
    }
}

/// The intent reported with a choice made under `mode`.
pub open spec fn choice_intent(mode: SelectMode) -> QProfileSwitchIntent {
    match mode {
        SelectMode::WhoamiAutoSelect => QProfileSwitchIntent::Auth,
        SelectMode::Interactive => QProfileSwitchIntent::User,
    }
}

/// The first position in `profiles` of a profile with this resource
/// name, if there is one.
pub open spec fn position_of(profiles: Seq<ProfileView>, arn: Seq<char>) -> Option<int>
    decreases profiles.len(),
{
    if profiles.len() == 0 {
        None
    } else {
        match position_of(profiles.drop_last(), arn) {
            Some(i) => Some(i),
            None => if profiles.last().arn == arn {
                Some(profiles.len() - 1)
            } else {
                None
            },
        }
    }
}

/// The position in `profiles` that is marked as active.
pub open spec fn active_position(
    profiles: Seq<ProfileView>,
    active: Option<ProfileView>,
) -> Option<int> {
    match active {
        Some(a) => position_of(profiles, a.arn),
        None => None,
    }
}

/// The line that stands for a profile in the prompt.
pub open spec fn item_label(profile: ProfileView, active: bool) -> Seq<char> {
    let plain = profile.profile_name + " (arn: "@ + profile.arn + ")"@;
    if active {
        plain + " (active)"@
    } else {
        plain
    }
}

/// The lines of the prompt: one for each profile, in order, the active
/// one marked.
pub open spec fn prompt_items(
    profiles: Seq<ProfileView>,
    active: Option<ProfileView>,
) -> Seq<Seq<char>> {
    Seq::new(
        profiles.len(),
        |i: int| item_label(profiles[i], active_position(profiles, active) == Some(i)),
    )
}

/// What is reported when the only profile was taken without a prompt:
/// one event with intent `Update`, or nothing where the profile's
/// resource name holds no region.
pub open spec fn sole_report(
    profile: ProfileView,
    sso_region: Option<Seq<char>>,
) -> Seq<SelectActionView> {
    match arn_region(profile.arn) {
        Some(region) => seq![
            SelectActionView::Report(
                EventTypeView::ProfileState {
                    source: QProfileSwitchIntent::Update,
                    amazonq_profile_region: region,
                    result: TelemetryResult::Succeeded,
                    sso_region,
                },
            ),
        ],
        None => Seq::empty(),
    }
}

/// What is reported when the user chose a profile: one event with the
/// profile's region and the number of profiles offered, or nothing
/// where the profile's resource name holds no region.
pub open spec fn choice_report(
    profile: ProfileView,
    mode: SelectMode,
    sso_region: Option<Seq<char>>,
    offered: nat,
) -> Seq<SelectActionView> {
    match arn_region(profile.arn) {
        Some(region) => seq![
            SelectActionView::Report(
                EventTypeView::DidSelectProfile {
                    source: choice_intent(mode),
                    amazonq_profile_region: region,
                    result: TelemetryResult::Succeeded,
                    sso_region,
                    profile_count: Some(reported_count(offered)),
                },
            ),
        ],
        None => Seq::empty(),
    }
}

/// What is reported when the user left the prompt without choosing.
pub open spec fn declined_report(sso_region: Option<Seq<char>>, offered: nat) -> SelectActionView {
    SelectActionView::Report(
        EventTypeView::DidSelectProfile {
            source: QProfileSwitchIntent::User,
            amazonq_profile_region: "not-set"@,
            result: TelemetryResult::Cancelled,
            sso_region,
            profile_count: Some(reported_count(offered)),
        },
    )
}

/// One run of profile selection.
#[derive(Debug, PartialEq, Eq)]
pub struct ProfileSelector {
    /// From where selection was started.
    pub mode: SelectMode,
    /// What the selector is waiting for.
    pub stage: SelectStage,
    /// The profiles offered; empty until they are fetched.
    pub profiles: Vec<Profile>,
    /// The identity provider's region, once read from the store.
    pub sso_region: Option<String>,
    /// The profile that is being stored.
    pub picked: Option<Profile>,
}

/// Mathematical value of a [`ProfileSelector`].
pub struct SelectorView {
    pub mode: SelectMode,
    pub stage: SelectStage,
    pub profiles: Seq<ProfileView>,
    pub sso_region: Option<Seq<char>>,
    pub picked: Option<ProfileView>,
}

impl View for ProfileSelector {
    type V = SelectorView;

    open spec fn view(&self) -> SelectorView {
        SelectorView {
            mode: self.mode,
            stage: self.stage,
            profiles: self.profiles.deep_view(),
            sso_region: self.sso_region.deep_view(),
            picked: self.picked.deep_view(),
        }
    }
}

impl SelectorView {
    /// Selection as it stands before anything has happened.
    pub open spec fn initial(mode: SelectMode) -> SelectorView {
        SelectorView {
            mode,
            stage: SelectStage::Fetching,
            profiles: Seq::empty(),
            sso_region: None,
            picked: None,
        }
    }

    /// The same selection, waiting for something else.
    pub open spec fn at(self, stage: SelectStage) -> SelectorView {
        SelectorView { stage, ..self }
    }

    /// Selection ended, with `result` as the caller's only action.
    pub open spec fn ended(self, result: SelectEnd) -> (SelectorView, Seq<SelectActionView>) {
        (self.at(SelectStage::Done), seq![SelectActionView::Finish(result)])
    }

    /// Whether the only profile is to be taken without a prompt.
    pub open spec fn takes_sole(self) -> bool {
        self.mode == SelectMode::WhoamiAutoSelect && self.profiles.len() == 1
    }

    /// What is reported once the picked profile is stored.
    pub open spec fn stored_report(self) -> Seq<SelectActionView> {
        match self.picked {
            Some(profile) => if self.stage == SelectStage::StoringSole {
                sole_report(profile, self.sso_region)
            } else {
                choice_report(profile, self.mode, self.sso_region, self.profiles.len())
            },
            None => Seq::empty(),
        }
    }

    /// One transition: selection after `event`, and what the caller is
    /// to do, in order. An event that selection is not waiting for, and
    /// a choice that names none of the profiles offered, changes nothing
    /// and asks for nothing.
    pub open spec fn step(self, event: SelectEventView) -> (SelectorView, Seq<SelectActionView>) {
        match (self.stage, event) {
            (SelectStage::Fetching, SelectEventView::Fetched(profiles)) => {
                if profiles.len() == 0 {
                    self.ended(Ok(()))
                } else {
                    (
                        SelectorView { profiles, stage: SelectStage::LoadingRegion, ..self },
                        seq![SelectActionView::LoadRegion],
                    )
                }
            },
            (SelectStage::Fetching, SelectEventView::FetchFailed(message)) => self.ended(
                Err(SelectErrorView::Provider(message)),
            ),
            (SelectStage::LoadingRegion, SelectEventView::RegionLoaded(sso_region)) => {
                if self.takes_sole() {
                    (
                        SelectorView {
                            sso_region,
                            picked: Some(self.profiles[0]),
                            stage: SelectStage::StoringSole,
                            ..self
                        },
                        seq![SelectActionView::Persist(self.profiles[0])],
                    )
                } else {
                    (
                        SelectorView { sso_region, stage: SelectStage::LoadingActive, ..self },
                        seq![SelectActionView::LoadActive],
                    )
                }
            },
            (SelectStage::LoadingActive, SelectEventView::ActiveLoaded(active)) => (
                self.at(SelectStage::Prompting),
                seq![SelectActionView::Prompt(prompt_items(self.profiles, active))],
            ),
            (SelectStage::Prompting, SelectEventView::Chosen(Some(i))) => {
                if 0 <= i < self.profiles.len() {
                    (
                        SelectorView {
                            picked: Some(self.profiles[i]),
                            stage: SelectStage::StoringChoice,
                            ..self
                        },
                        seq![SelectActionView::Persist(self.profiles[i])],
                    )
                } else {
                    (self, Seq::empty())
                }
            },
            (SelectStage::Prompting, SelectEventView::Chosen(None)) => (
                self.at(SelectStage::Done),
                seq![
                    declined_report(self.sso_region, self.profiles.len()),
                    SelectActionView::Finish(Err(SelectErrorView::NoProfileSelected)),
                ],
            ),
            (SelectStage::Prompting, SelectEventView::PromptFailed(message)) => self.ended(
                Err(SelectErrorView::Prompt(message)),
            ),
            (SelectStage::StoringSole, SelectEventView::Persisted) => (
                self.at(SelectStage::Done),
                self.stored_report() + seq![SelectActionView::Finish(Ok(()))],
            ),
            (SelectStage::StoringChoice, SelectEventView::Persisted) => (
                self.at(SelectStage::Done),
                self.stored_report() + seq![SelectActionView::Finish(Ok(()))],
            ),
            (SelectStage::LoadingRegion, SelectEventView::StoreFailed(message)) => self.ended(
                Err(SelectErrorView::Store(message)),
            ),
            (SelectStage::LoadingActive, SelectEventView::StoreFailed(message)) => self.ended(
                Err(SelectErrorView::Store(message)),
            ),
            (SelectStage::StoringSole, SelectEventView::StoreFailed(message)) => self.ended(
                Err(SelectErrorView::Store(message)),
            ),
            (SelectStage::StoringChoice, SelectEventView::StoreFailed(message)) => self.ended(
                Err(SelectErrorView::Store(message)),
            ),
            _ => (self, Seq::empty()),
        }
    }
}

/// Computes the number of profiles as it is reported.
pub fn count_for_report(profiles: usize) -> (count: i64)
    ensures
        count == reported_count(profiles as nat),
{
    let wide: u64 = profiles as u64;
    if wide <= 0x7fff_ffff_ffff_ffff {
        wide as i64
    } else {
        i64::MAX
    }
}

/// Finds the first profile with this resource name.
pub fn find_by_arn(profiles: &Vec<Profile>, arn: &String) -> (found: Option<usize>)
    ensures
        match found {
            Some(i) => position_of(profiles.deep_view(), arn@) == Some(i as int),
            None => position_of(profiles.deep_view(), arn@) is None,
        },
{
    let ghost all = profiles.deep_view();
    let mut i: usize = 0;
    assert(all.take(0) =~= Seq::<ProfileView>::empty());
    while i < profiles.len()
        invariant
            i <= profiles.len(),
            all == profiles.deep_view(),
            position_of(all.take(i as int), arn@) is None,
        decreases profiles.len() - i,
    {
        proof {
            let longer = all.take(i as int + 1);
            assert(longer.drop_last() =~= all.take(i as int));
            assert(longer.last() == profiles@[i as int]@);
        }
        if profiles[i].arn == *arn {
            proof {
                lemma_position_stays(all, arn@, i as int + 1);
            }
            return Some(i);
        }
        i = i + 1;
    }
    assert(all.take(i as int) =~= all);
    None
}

/// A position found in a leading part of the profiles is the position
/// in all of them.
proof fn lemma_position_stays(profiles: Seq<ProfileView>, arn: Seq<char>, n: int)
    requires
        0 <= n <= profiles.len(),
        position_of(profiles.take(n), arn) is Some,
    ensures
        position_of(profiles, arn) == position_of(profiles.take(n), arn),
    decreases profiles.len() - n,
{
    if n < profiles.len() {
        let longer = profiles.take(n + 1);
        assert(longer.drop_last() =~= profiles.take(n));
        lemma_position_stays(profiles, arn, n + 1);
    } else {
        assert(profiles.take(n) =~= profiles);
    }
}

/// Renders the line that stands for a profile in the prompt.
pub fn label_of(profile: &Profile, active: bool) -> (label: String)
    ensures
        label@ == item_label(profile@, active),
{
    let mut label = profile.profile_name.clone();
    label.append(" (arn: ");
    label.append(profile.arn.as_str());
    label.append(")");
    if active {
        label.append(" (active)");
    }
    label
}

/// Renders the lines of the prompt.
pub fn items_of(profiles: &Vec<Profile>, active: &Option<Profile>) -> (items: Vec<String>)
    ensures
        items.deep_view() == prompt_items(profiles.deep_view(), active.deep_view()),
{
    let marked = match active {
        Some(a) => find_by_arn(profiles, &a.arn),
        None => None,
    };
    let ghost all = profiles.deep_view();
    let ghost position = active_position(all, active.deep_view());
    let mut items: Vec<String> = Vec::new();
    let mut i: usize = 0;
    while i < profiles.len()
        invariant
            i <= profiles.len(),
            all == profiles.deep_view(),
            position == active_position(all, active.deep_view()),
            match marked {
                Some(m) => position == Some(m as int),
                None => position is None,
            },
            items.len() == i,
            forall|j: int| 0 <= j < i ==> (#[trigger] items@[j])@ == item_label(all[j], position == Some(j)),
        decreases profiles.len() - i,
    {
        let active_here = match marked {
            Some(m) => m == i,
            None => false,
        };
        let label = label_of(&profiles[i], active_here);
        items.push(label);
        i = i + 1;
    }
    assert(items.deep_view() =~= prompt_items(all, active.deep_view()));
    items
}

impl ProfileSelector {
    /// Begins profile selection: nothing has happened yet, and the
    /// caller is to fetch the profiles.
    pub fn begin(mode: SelectMode) -> (out: (ProfileSelector, Vec<SelectAction>))
        ensures
            out.0@ == SelectorView::initial(mode),
            out.1.deep_view() == seq![SelectActionView::FetchProfiles],
    {
        let selector = ProfileSelector {
            mode,
            stage: SelectStage::Fetching,
            profiles: Vec::new(),
            sso_region: None,
            picked: None,
        };
        assert(selector.profiles.deep_view() =~= Seq::<ProfileView>::empty());
        let actions = vec![SelectAction::FetchProfiles];
        assert(actions.deep_view() =~= seq![SelectActionView::FetchProfiles]);
        (selector, actions)
    }

    /// Whether selection has ended.
    pub fn is_done(&self) -> (done: bool)
        ensures
            done == (self@.stage == SelectStage::Done),
    {
        self.stage == SelectStage::Done
    }

    /// Ends selection with `result` as the caller's only action.
    fn end(self, result: Result<(), SelectError>) -> (out: (ProfileSelector, Vec<SelectAction>))
        ensures
            (out.0@, out.1.deep_view()) == self@.ended(select_end(result)),
    {
        let finish = SelectAction::Finish(result);
        let actions = vec![finish];
        assert(actions.deep_view() =~= seq![finish@]);
        (ProfileSelector { stage: SelectStage::Done, ..self }, actions)
    }

    /// Ends selection after the picked profile was stored: reports the
    /// selection where the profile names a region, then finishes.
    fn end_stored(self) -> (out: (ProfileSelector, Vec<SelectAction>))
        requires
            self.stage == SelectStage::StoringSole || self.stage == SelectStage::StoringChoice,
        ensures
            out.0@ == self@.at(SelectStage::Done),
            out.1.deep_view() == self@.stored_report() + seq![SelectActionView::Finish(Ok(()))],
    {
        let ghost report = self@.stored_report();
        let mut actions: Vec<SelectAction> = Vec::new();
        match &self.picked {
            Some(profile) => {
                match region_of_arn(profile.arn.as_str()) {
                    Some(region) => {
                        let event = if self.stage == SelectStage::StoringSole {
                            EventType::ProfileState {
                                source: QProfileSwitchIntent::Update,
                                amazonq_profile_region: region,
                                result: TelemetryResult::Succeeded,
                                sso_region: copy_text(&self.sso_region),
                            }
                        } else {
                            EventType::DidSelectProfile {
                                source: intent_of(self.mode),
                                amazonq_profile_region: region,
                                result: TelemetryResult::Succeeded,
                                sso_region: copy_text(&self.sso_region),
                                profile_count: Some(count_for_report(self.profiles.len())),
                            }
                        };
                        actions.push(SelectAction::Report(event));
                        assert(actions.deep_view() =~= report);
                    },
                    None => {
                        assert(actions.deep_view() =~= report);
                    },
                }
            },
            None => {
                assert(actions.deep_view() =~= report);
            },
        }
        let ghost reported = actions.deep_view();
        actions.push(SelectAction::Finish(Ok(())));
        assert(actions.deep_view() =~= reported + seq![SelectActionView::Finish(Ok(()))]);
        (ProfileSelector { stage: SelectStage::Done, ..self }, actions)
    }

    /// Takes one transition: returns selection after `event` and what
    /// the caller is to do next, in order.
    pub fn step(self, event: SelectEvent) -> (out: (ProfileSelector, Vec<SelectAction>))
        ensures
            (out.0@, out.1.deep_view()) == self@.step(event@),
    {
        match (self.stage, event) {
            (SelectStage::Fetching, SelectEvent::Fetched(profiles)) => {
                if profiles.len() == 0 {
                    self.end(Ok(()))
                } else {
                    let load = SelectAction::LoadRegion;
                    let actions = vec![load];
                    assert(actions.deep_view() =~= seq![load@]);
                    (
                        ProfileSelector { profiles, stage: SelectStage::LoadingRegion, ..self },
                        actions,
                    )
                }
            },
            (SelectStage::Fetching, SelectEvent::FetchFailed(message)) => {
                self.end(Err(SelectError::Provider(message)))
            },
            (SelectStage::LoadingRegion, SelectEvent::RegionLoaded(sso_region)) => {
                if self.mode == SelectMode::WhoamiAutoSelect && self.profiles.len() == 1 {
                    let picked = self.profiles[0].duplicate();
                    let persist = SelectAction::Persist(self.profiles[0].duplicate());
                    let actions = vec![persist];
                    assert(actions.deep_view() =~= seq![persist@]);
                    (
                        ProfileSelector {
                            sso_region,
                            picked: Some(picked),
                            stage: SelectStage::StoringSole,
                            ..self
                        },
                        actions,
                    )
                } else {
                    let load = SelectAction::LoadActive;
                    let actions = vec![load];
                    assert(actions.deep_view() =~= seq![load@]);
                    (
                        ProfileSelector { sso_region, stage: SelectStage::LoadingActive, ..self },
                        actions,
                    )
                }
            },
            (SelectStage::LoadingActive, SelectEvent::ActiveLoaded(active)) => {
                let prompt = SelectAction::Prompt(items_of(&self.profiles, &active));
                let actions = vec![prompt];
                assert(actions.deep_view() =~= seq![prompt@]);
                (ProfileSelector { stage: SelectStage::Prompting, ..self }, actions)
            },
            (SelectStage::Prompting, SelectEvent::Chosen(Some(i))) => {
                if i < self.profiles.len() {
                    let picked = self.profiles[i].duplicate();
                    let persist = SelectAction::Persist(self.profiles[i].duplicate());
                    let actions = vec![persist];
                    assert(actions.deep_view() =~= seq![persist@]);
                    (
                        ProfileSelector {
                            picked: Some(picked),
                            stage: SelectStage::StoringChoice,
                            ..self
                        },
                        actions,
                    )
                } else {
                    let actions: Vec<SelectAction> = Vec::new();
                    assert(actions.deep_view() =~= Seq::<SelectActionView>::empty());
                    (self, actions)
                }
            },
            (SelectStage::Prompting, SelectEvent::Chosen(None)) => {
                let report = SelectAction::Report(
                    EventType::DidSelectProfile {
                        source: QProfileSwitchIntent::User,
                        amazonq_profile_region: "not-set".to_string(),
                        result: TelemetryResult::Cancelled,
                        sso_region: copy_text(&self.sso_region),
                        profile_count: Some(count_for_report(self.profiles.len())),
                    },
                );
                let finish = SelectAction::Finish(Err(SelectError::NoProfileSelected));
                let actions = vec![report, finish];
                assert(actions.deep_view() =~= seq![report@, finish@]);
                (ProfileSelector { stage: SelectStage::Done, ..self }, actions)
            },
            (SelectStage::Prompting, SelectEvent::PromptFailed(message)) => {
                self.end(Err(SelectError::Prompt(message)))
            },
            (SelectStage::StoringSole, SelectEvent::Persisted) => self.end_stored(),
            (SelectStage::StoringChoice, SelectEvent::Persisted) => self.end_stored(),
            (SelectStage::LoadingRegion, SelectEvent::StoreFailed(message)) => {
                self.end(Err(SelectError::Store(message)))
            },
            (SelectStage::LoadingActive, SelectEvent::StoreFailed(message)) => {
                self.end(Err(SelectError::Store(message)))
            },
            (SelectStage::StoringSole, SelectEvent::StoreFailed(message)) => {
                self.end(Err(SelectError::Store(message)))
            },
            (SelectStage::StoringChoice, SelectEvent::StoreFailed(message)) => {
                self.end(Err(SelectError::Store(message)))
            },
            _ => {
                let actions: Vec<SelectAction> = Vec::new();
                assert(actions.deep_view() =~= Seq::<SelectActionView>::empty());
                (self, actions)
            },
        }
    }
}

/// Computes the intent reported with a choice made under `mode`.
pub fn intent_of(mode: SelectMode) -> (intent: QProfileSwitchIntent)
    ensures
        intent == choice_intent(mode),
{
    match mode {
        SelectMode::WhoamiAutoSelect => QProfileSwitchIntent::Auth,
        SelectMode::Interactive => QProfileSwitchIntent::User,
    }
}

} // verus!
