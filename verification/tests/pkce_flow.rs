use chat_cli::auth::model::FlowError;
use chat_cli::auth::pkce::{PkceAction, PkceEvent, PkceFlow, PkceStage};

fn text(s: &str) -> Option<String> {
    Some(s.to_string())
}

fn waiting_for_provider() -> PkceFlow {
    let (flow, _) = PkceFlow::begin(text("https://start.example"), text("us-east-1"));
    let (flow, _) = flow.step(PkceEvent::Registered("https://auth.example/authorize".to_string()));
    let (flow, actions) = flow.step(PkceEvent::BrowserOpened);
    assert_eq!(actions, vec![PkceAction::AwaitCompletion]);
    assert_eq!(flow.stage, PkceStage::Finishing);
    flow
}

#[test]
fn pkce_begin_registers_under_the_same_endpoint() {
    let (flow, actions) = PkceFlow::begin(text("https://start.example"), text("us-east-1"));
    assert_eq!(flow.stage, PkceStage::Starting);
    assert_eq!(
        actions,
        vec![PkceAction::StartRegistration {
            start_url: text("https://start.example"),
            region: text("us-east-1"),
        }]
    );
}

#[test]
fn pkce_registration_opens_the_browser_at_its_url() {
    let (flow, _) = PkceFlow::begin(None, None);
    let (flow, actions) =
        flow.step(PkceEvent::Registered("https://auth.example/authorize".to_string()));
    assert_eq!(flow.stage, PkceStage::Opening);
    assert_eq!(actions, vec![PkceAction::OpenBrowser("https://auth.example/authorize".to_string())]);
}

#[test]
fn pkce_registration_failure_is_fatal() {
    let (flow, _) = PkceFlow::begin(None, None);
    let (flow, actions) = flow.step(PkceEvent::StartFailed("denied".to_string()));
    assert!(flow.is_done());
    assert_eq!(
        actions,
        vec![PkceAction::Finish(Err(FlowError::ProviderError("denied".to_string())))]
    );
}

#[test]
fn pkce_browser_failure_is_reported_as_such() {
    let (flow, _) = PkceFlow::begin(None, None);
    let (flow, _) = flow.step(PkceEvent::Registered("https://auth.example".to_string()));
    let (flow, actions) = flow.step(PkceEvent::BrowserFailed);
    assert!(flow.is_done());
    assert_eq!(actions, vec![PkceAction::Finish(Err(FlowError::BrowserLaunchFailed))]);
}

#[test]
fn pkce_completion_reports_the_login() {
    let (flow, actions) = waiting_for_provider().step(PkceEvent::Completed);
    assert!(flow.is_done());
    assert_eq!(actions, vec![PkceAction::ReportLoggedIn, PkceAction::Finish(Ok(()))]);
}

#[test]
fn pkce_provider_failure_is_surfaced_verbatim() {
    let (flow, actions) = waiting_for_provider().step(PkceEvent::Failed("bad state".to_string()));
    assert!(flow.is_done());
    assert_eq!(
        actions,
        vec![PkceAction::Finish(Err(FlowError::ProviderError("bad state".to_string())))]
    );
}

#[test]
fn pkce_cancel_wins_the_wait() {
    let (flow, actions) = waiting_for_provider().step(PkceEvent::Cancelled);
    assert!(flow.is_done());
    assert_eq!(actions, vec![PkceAction::Finish(Err(FlowError::Cancelled))]);
    let (flow, actions) = flow.step(PkceEvent::Completed);
    assert!(flow.is_done());
    assert!(actions.is_empty());
}

#[test]
fn pkce_cancel_is_not_heard_outside_the_wait() {
    let (flow, _) = PkceFlow::begin(None, None);
    let (flow, actions) = flow.step(PkceEvent::Cancelled);
    assert_eq!(flow.stage, PkceStage::Starting);
    assert!(actions.is_empty());
}

#[test]
fn interruption_wins_the_race_with_the_provider() {
    assert_eq!(PkceEvent::from_wait(true, Some(Ok(()))), Some(PkceEvent::Cancelled));
    assert_eq!(
        PkceEvent::from_wait(true, Some(Err("late".to_string()))),
        Some(PkceEvent::Cancelled)
    );
    assert_eq!(PkceEvent::from_wait(true, None), Some(PkceEvent::Cancelled));
    assert_eq!(PkceEvent::from_wait(false, Some(Ok(()))), Some(PkceEvent::Completed));
    assert_eq!(
        PkceEvent::from_wait(false, Some(Err("denied".to_string()))),
        Some(PkceEvent::Failed("denied".to_string()))
    );
    assert_eq!(PkceEvent::from_wait(false, None), None);
}
