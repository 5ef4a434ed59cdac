use chat_cli::auth::profile::{
    count_for_report, find_by_arn, intent_of, items_of, label_of, Profile, ProfileSelector,
    SelectAction, SelectError, SelectEvent, SelectMode, SelectStage,
};
use chat_cli::telemetry::event::EventType;
use chat_cli::telemetry::outcome::{QProfileSwitchIntent, TelemetryResult};

fn profile(name: &str, region: &str) -> Profile {
    Profile {
        profile_name: name.to_string(),
        arn: format!("arn:aws:codewhisperer:{}:123456789012:profile/{}", region, name),
    }
}

fn three() -> Vec<Profile> {
    vec![profile("alpha", "us-east-1"), profile("beta", "eu-central-1"), profile("gamma", "us-west-2")]
}

/// Runs selection up to the prompt and returns the selector with the items shown.
fn prompted(mode: SelectMode, profiles: Vec<Profile>, active: Option<Profile>) -> (ProfileSelector, Vec<String>) {
    let (selector, first) = ProfileSelector::begin(mode);
    assert_eq!(first, vec![SelectAction::FetchProfiles]);
    let (selector, actions) = selector.step(SelectEvent::Fetched(profiles));
    assert_eq!(actions, vec![SelectAction::LoadRegion]);
    let (selector, actions) = selector.step(SelectEvent::RegionLoaded(Some("us-east-1".to_string())));
    assert_eq!(actions, vec![SelectAction::LoadActive]);
    let (selector, mut actions) = selector.step(SelectEvent::ActiveLoaded(active));
    assert_eq!(selector.stage, SelectStage::Prompting);
    assert_eq!(actions.len(), 1);
    match actions.pop() {
        Some(SelectAction::Prompt(items)) => (selector, items),
        other => panic!("expected a prompt, got {:?}", other),
    }
}

#[test]
fn no_profiles_is_a_success_without_selection() {
    let (selector, _) = ProfileSelector::begin(SelectMode::Interactive);
    let (selector, actions) = selector.step(SelectEvent::Fetched(Vec::new()));
    assert!(selector.is_done());
    assert_eq!(actions, vec![SelectAction::Finish(Ok(()))]);
}

#[test]
fn fetch_failure_is_a_provider_error() {
    let (selector, _) = ProfileSelector::begin(SelectMode::WhoamiAutoSelect);
    let (selector, actions) = selector.step(SelectEvent::FetchFailed("throttled".to_string()));
    assert!(selector.is_done());
    assert_eq!(
        actions,
        vec![SelectAction::Finish(Err(SelectError::Provider("throttled".to_string())))]
    );
}

#[test]
fn single_profile_after_login_is_taken_without_prompt() {
    let only = profile("solo", "eu-west-1");
    let (selector, _) = ProfileSelector::begin(SelectMode::WhoamiAutoSelect);
    let (selector, actions) = selector.step(SelectEvent::Fetched(vec![profile("solo", "eu-west-1")]));
    assert_eq!(actions, vec![SelectAction::LoadRegion]);
    let (selector, actions) = selector.step(SelectEvent::RegionLoaded(Some("us-east-1".to_string())));
    assert_eq!(selector.stage, SelectStage::StoringSole);
    assert_eq!(actions, vec![SelectAction::Persist(only)]);
    let (selector, actions) = selector.step(SelectEvent::Persisted);
    assert!(selector.is_done());
    assert_eq!(
        actions,
        vec![
            SelectAction::Report(EventType::ProfileState {
                source: QProfileSwitchIntent::Update,
                amazonq_profile_region: "eu-west-1".to_string(),
                result: TelemetryResult::Succeeded,
                sso_region: Some("us-east-1".to_string()),
            }),
            SelectAction::Finish(Ok(())),
        ]
    );
}

#[test]
fn single_profile_without_region_is_taken_without_report() {
    let (selector, _) = ProfileSelector::begin(SelectMode::WhoamiAutoSelect);
    let odd = Profile { profile_name: "odd".to_string(), arn: "arn:aws:sso".to_string() };
    let (selector, _) = selector.step(SelectEvent::Fetched(vec![odd]));
    let (selector, actions) = selector.step(SelectEvent::RegionLoaded(None));
    assert_eq!(
        actions,
        vec![SelectAction::Persist(Profile {
            profile_name: "odd".to_string(),
            arn: "arn:aws:sso".to_string(),
        })]
    );
    let (selector, actions) = selector.step(SelectEvent::Persisted);
    assert!(selector.is_done());
    assert_eq!(actions, vec![SelectAction::Finish(Ok(()))]);
}

#[test]
fn single_profile_from_the_profile_command_is_prompted() {
    let (_, items) = prompted(SelectMode::Interactive, vec![profile("solo", "eu-west-1")], None);
    assert_eq!(
        items,
        vec!["solo (arn: arn:aws:codewhisperer:eu-west-1:123456789012:profile/solo)".to_string()]
    );
}

#[test]
fn three_profiles_declined_stores_nothing() {
    let (selector, items) = prompted(SelectMode::WhoamiAutoSelect, three(), None);
    assert_eq!(items.len(), 3);
    let (selector, actions) = selector.step(SelectEvent::Chosen(None));
    assert!(selector.is_done());
    assert_eq!(selector.picked, None);
    assert_eq!(
        actions,
        vec![
            SelectAction::Report(EventType::DidSelectProfile {
                source: QProfileSwitchIntent::User,
                amazonq_profile_region: "not-set".to_string(),
                result: TelemetryResult::Cancelled,
                sso_region: Some("us-east-1".to_string()),
                profile_count: Some(3),
            }),
            SelectAction::Finish(Err(SelectError::NoProfileSelected)),
        ]
    );
    assert!(!actions.iter().any(|a| matches!(a, SelectAction::Persist(_))));
}

#[test]
fn chosen_profile_is_stored_then_reported() {
    for (mode, intent) in [
        (SelectMode::WhoamiAutoSelect, QProfileSwitchIntent::Auth),
        (SelectMode::Interactive, QProfileSwitchIntent::User),
    ] {
        let (selector, _) = prompted(mode, three(), None);
        let (selector, actions) = selector.step(SelectEvent::Chosen(Some(1)));
        assert_eq!(selector.stage, SelectStage::StoringChoice);
        assert_eq!(actions, vec![SelectAction::Persist(profile("beta", "eu-central-1"))]);
        let (selector, actions) = selector.step(SelectEvent::Persisted);
        assert!(selector.is_done());
        assert_eq!(
            actions,
            vec![
                SelectAction::Report(EventType::DidSelectProfile {
                    source: intent,
                    amazonq_profile_region: "eu-central-1".to_string(),
                    result: TelemetryResult::Succeeded,
                    sso_region: Some("us-east-1".to_string()),
                    profile_count: Some(3),
                }),
                SelectAction::Finish(Ok(())),
            ]
        );
    }
}

#[test]
fn choice_outside_the_list_is_ignored() {
    let (selector, _) = prompted(SelectMode::Interactive, three(), None);
    let (selector, actions) = selector.step(SelectEvent::Chosen(Some(3)));
    assert_eq!(selector.stage, SelectStage::Prompting);
    assert!(actions.is_empty());
}

#[test]
fn store_failure_while_storing_ends_without_report() {
    let (selector, _) = prompted(SelectMode::Interactive, three(), None);
    let (selector, _) = selector.step(SelectEvent::Chosen(Some(0)));
    let (selector, actions) = selector.step(SelectEvent::StoreFailed("disk full".to_string()));
    assert!(selector.is_done());
    assert_eq!(
        actions,
        vec![SelectAction::Finish(Err(SelectError::Store("disk full".to_string())))]
    );
}

#[test]
fn prompt_failure_ends_selection() {
    let (selector, _) = prompted(SelectMode::Interactive, three(), None);
    let (selector, actions) = selector.step(SelectEvent::PromptFailed("no tty".to_string()));
    assert!(selector.is_done());
    assert_eq!(
        actions,
        vec![SelectAction::Finish(Err(SelectError::Prompt("no tty".to_string())))]
    );
}

#[test]
fn active_profile_is_marked_once() {
    let (_, items) = prompted(SelectMode::Interactive, three(), Some(profile("beta", "eu-central-1")));
    assert_eq!(
        items,
        vec![
            "alpha (arn: arn:aws:codewhisperer:us-east-1:123456789012:profile/alpha)".to_string(),
            "beta (arn: arn:aws:codewhisperer:eu-central-1:123456789012:profile/beta) (active)"
                .to_string(),
            "gamma (arn: arn:aws:codewhisperer:us-west-2:123456789012:profile/gamma)".to_string(),
        ]
    );
}

#[test]
fn only_the_first_of_equal_arns_is_marked() {
    let twice = vec![profile("same", "us-east-1"), profile("same", "us-east-1")];
    let items = items_of(&twice, &Some(profile("same", "us-east-1")));
    assert!(items[0].ends_with(" (active)"));
    assert!(!items[1].ends_with(" (active)"));
    assert_eq!(find_by_arn(&twice, &twice[1].arn), Some(0));
}

#[test]
fn unknown_active_profile_marks_nothing() {
    let items = items_of(&three(), &Some(profile("delta", "us-east-1")));
    assert!(items.iter().all(|i| !i.ends_with(" (active)")));
    assert_eq!(find_by_arn(&three(), &"nope".to_string()), None);
    assert_eq!(find_by_arn(&Vec::new(), &"nope".to_string()), None);
}

#[test]
fn labels_name_profile_and_arn() {
    let p = Profile { profile_name: "n".to_string(), arn: "a".to_string() };
    assert_eq!(label_of(&p, false), "n (arn: a)");
    assert_eq!(label_of(&p, true), "n (arn: a) (active)");
    assert_eq!(p.duplicate(), p);
}

#[test]
fn counts_and_intents() {
    assert_eq!(count_for_report(0), 0);
    assert_eq!(count_for_report(3), 3);
    assert_eq!(count_for_report(usize::MAX), if usize::BITS >= 64 { i64::MAX } else { usize::MAX as i64 });
    assert_eq!(intent_of(SelectMode::WhoamiAutoSelect), QProfileSwitchIntent::Auth);
    assert_eq!(intent_of(SelectMode::Interactive), QProfileSwitchIntent::User);
}
