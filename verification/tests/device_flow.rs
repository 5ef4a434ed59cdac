use chat_cli::auth::device::{
    poll_delay_secs, DeviceAction, DeviceAuthorization, DeviceCodeFlow, DeviceEvent, DeviceStage,
    PollOutcome,
};
use chat_cli::auth::model::FlowError;

fn grant(interval: i64) -> DeviceAuthorization {
    DeviceAuthorization {
        device_code: "device-123".to_string(),
        user_code: "ABCD-EFGH".to_string(),
        verification_uri_complete: "https://device.example/?user_code=ABCD-EFGH".to_string(),
        interval,
    }
}

fn text(s: &str) -> Option<String> {
    Some(s.to_string())
}

/// Feeds the events in order and returns the flow with every action handed out.
fn drive(flow: DeviceCodeFlow, events: Vec<DeviceEvent>) -> (DeviceCodeFlow, Vec<DeviceAction>) {
    let mut flow = flow;
    let mut all = Vec::new();
    for event in events {
        let (next, actions) = flow.step(event);
        flow = next;
        all.extend(actions);
    }
    (flow, all)
}

fn polls(actions: &[DeviceAction]) -> usize {
    actions.iter().filter(|a| matches!(a, DeviceAction::Poll { .. })).count()
}

fn asleep(interval: i64) -> DeviceCodeFlow {
    let (flow, _) = DeviceCodeFlow::begin(text("https://start.example"), text("eu-west-1"), true);
    let (flow, _) = flow.step(DeviceEvent::Authorized(grant(interval)));
    assert_eq!(flow.stage, DeviceStage::Sleeping);
    flow
}

#[test]
fn begin_asks_for_authorization_with_the_same_endpoint() {
    let (flow, actions) =
        DeviceCodeFlow::begin(text("https://start.example"), text("eu-west-1"), false);
    assert_eq!(flow.stage, DeviceStage::Starting);
    assert!(!flow.is_done());
    assert_eq!(
        actions,
        vec![DeviceAction::StartAuthorization {
            start_url: text("https://start.example"),
            region: text("eu-west-1"),
        }]
    );
}

#[test]
fn local_session_shows_the_code_and_tries_the_browser() {
    let (flow, _) = DeviceCodeFlow::begin(None, None, false);
    let (flow, actions) = flow.step(DeviceEvent::Authorized(grant(5)));
    assert_eq!(flow.stage, DeviceStage::Opening);
    assert_eq!(
        actions,
        vec![
            DeviceAction::ShowCode("ABCD-EFGH".to_string()),
            DeviceAction::OpenBrowser("https://device.example/?user_code=ABCD-EFGH".to_string()),
        ]
    );
    let (flow, actions) = flow.step(DeviceEvent::BrowserOpened);
    assert_eq!(flow.stage, DeviceStage::Sleeping);
    assert_eq!(actions, vec![DeviceAction::Sleep(5)]);
}

#[test]
fn browser_failure_only_shows_the_url() {
    let (flow, _) = DeviceCodeFlow::begin(None, None, false);
    let (flow, _) = flow.step(DeviceEvent::Authorized(grant(5)));
    let (flow, actions) = flow.step(DeviceEvent::BrowserFailed);
    assert_eq!(flow.stage, DeviceStage::Sleeping);
    assert_eq!(
        actions,
        vec![
            DeviceAction::ShowUrl("https://device.example/?user_code=ABCD-EFGH".to_string()),
            DeviceAction::Sleep(5),
        ]
    );
}

#[test]
fn remote_session_shows_code_and_url_without_a_browser() {
    let (flow, _) = DeviceCodeFlow::begin(None, None, true);
    let (flow, actions) = flow.step(DeviceEvent::Authorized(grant(2)));
    assert_eq!(flow.stage, DeviceStage::Sleeping);
    assert_eq!(
        actions,
        vec![
            DeviceAction::ShowCode("ABCD-EFGH".to_string()),
            DeviceAction::ShowUrl("https://device.example/?user_code=ABCD-EFGH".to_string()),
            DeviceAction::Sleep(2),
        ]
    );
}

#[test]
fn start_failure_is_a_provider_error() {
    let (flow, _) = DeviceCodeFlow::begin(None, None, false);
    let (flow, actions) = flow.step(DeviceEvent::StartFailed("no network".to_string()));
    assert!(flow.is_done());
    assert_eq!(
        actions,
        vec![DeviceAction::Finish(Err(FlowError::ProviderError("no network".to_string())))]
    );
}

#[test]
fn poll_delay_is_at_least_one_second() {
    assert_eq!(poll_delay_secs(1), 1);
    assert_eq!(poll_delay_secs(0), 1);
    assert_eq!(poll_delay_secs(-7), 1);
    assert_eq!(poll_delay_secs(5), 5);
    assert_eq!(poll_delay_secs(i64::MAX), i64::MAX as u64);
    assert_eq!(poll_delay_secs(i64::MIN), 1);
}

#[test]
fn pending_pending_complete_polls_three_times() {
    let (flow, actions) = drive(
        asleep(1),
        vec![
            DeviceEvent::IntervalElapsed,
            DeviceEvent::Polled(PollOutcome::Pending),
            DeviceEvent::IntervalElapsed,
            DeviceEvent::Polled(PollOutcome::Pending),
            DeviceEvent::IntervalElapsed,
            DeviceEvent::Polled(PollOutcome::Complete),
        ],
    );
    assert!(flow.is_done());
    assert_eq!(polls(&actions), 3);
    let poll = || DeviceAction::Poll {
        device_code: "device-123".to_string(),
        start_url: text("https://start.example"),
        region: text("eu-west-1"),
    };
    assert_eq!(
        actions,
        vec![
            poll(),
            DeviceAction::Sleep(1),
            poll(),
            DeviceAction::Sleep(1),
            poll(),
            DeviceAction::ReportLoggedIn,
            DeviceAction::Finish(Ok(())),
        ]
    );
}

#[test]
fn pending_error_polls_twice_and_no_more() {
    let (flow, actions) = drive(
        asleep(1),
        vec![
            DeviceEvent::IntervalElapsed,
            DeviceEvent::Polled(PollOutcome::Pending),
            DeviceEvent::IntervalElapsed,
            DeviceEvent::Polled(PollOutcome::Error("expired".to_string())),
            DeviceEvent::IntervalElapsed,
            DeviceEvent::Polled(PollOutcome::Complete),
        ],
    );
    assert!(flow.is_done());
    assert_eq!(polls(&actions), 2);
    assert_eq!(
        actions.last(),
        Some(&DeviceAction::Finish(Err(FlowError::ProviderError("expired".to_string()))))
    );
    assert!(!actions.contains(&DeviceAction::ReportLoggedIn));
}

#[test]
fn cancel_during_sleep_ends_before_any_poll() {
    let (flow, actions) = drive(
        asleep(3),
        vec![
            DeviceEvent::Cancelled,
            DeviceEvent::IntervalElapsed,
            DeviceEvent::Polled(PollOutcome::Complete),
        ],
    );
    assert!(flow.is_done());
    assert_eq!(polls(&actions), 0);
    assert_eq!(actions, vec![DeviceAction::Finish(Err(FlowError::Cancelled))]);
}

#[test]
fn cancel_after_a_pending_poll_stops_the_next_one() {
    let (flow, actions) = drive(
        asleep(1),
        vec![
            DeviceEvent::IntervalElapsed,
            DeviceEvent::Polled(PollOutcome::Pending),
            DeviceEvent::Cancelled,
            DeviceEvent::IntervalElapsed,
        ],
    );
    assert!(flow.is_done());
    assert_eq!(polls(&actions), 1);
    assert_eq!(actions.last(), Some(&DeviceAction::Finish(Err(FlowError::Cancelled))));
}

#[test]
fn events_out_of_turn_change_nothing() {
    let flow = asleep(1);
    let (flow, actions) = flow.step(DeviceEvent::Polled(PollOutcome::Complete));
    assert_eq!(flow.stage, DeviceStage::Sleeping);
    assert!(actions.is_empty());
    let (flow, _) = flow.step(DeviceEvent::IntervalElapsed);
    let (flow, actions) = flow.step(DeviceEvent::Cancelled);
    assert_eq!(flow.stage, DeviceStage::Polling);
    assert!(actions.is_empty());
}

#[test]
fn interruption_wins_the_race_with_the_sleep() {
    assert_eq!(DeviceEvent::from_sleep(true, true), Some(DeviceEvent::Cancelled));
    assert_eq!(DeviceEvent::from_sleep(true, false), Some(DeviceEvent::Cancelled));
    assert_eq!(DeviceEvent::from_sleep(false, true), Some(DeviceEvent::IntervalElapsed));
    assert_eq!(DeviceEvent::from_sleep(false, false), None);
}
