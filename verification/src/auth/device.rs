//! The device-code grant: show a code, then poll the provider until it
//! answers, between sleeps that the user can interrupt.
//!
//! The flow itself performs no I/O. It is a transition function: the
//! caller performs the actions a step hands out and reports what
//! happened as the next event.

use vstd::prelude::*;
use crate::auth::model::{copy_text, flow_end, FlowEnd, FlowError, FlowErrorView};

verus! {

/// What the provider returned when device authorization was started.
#[derive(Debug, PartialEq, Eq)]
pub struct DeviceAuthorization {
    /// Opaque, single-use code handed back on every poll.
    pub device_code: String,
    /// Code the user confirms in the browser.
    pub user_code: String,
    /// Verification URL with the user code embedded.
    pub verification_uri_complete: String,
    /// Seconds the provider asks for between polls.
    pub interval: i64,
}

/// Mathematical value of a [`DeviceAuthorization`].
pub struct DeviceAuthorizationView {
    pub device_code: Seq<char>,
    pub user_code: Seq<char>,
    pub verification_uri_complete: Seq<char>,
    pub interval: int,
}

impl View for DeviceAuthorization {
    type V = DeviceAuthorizationView;

    open spec fn view(&self) -> DeviceAuthorizationView {
        DeviceAuthorizationView {
            device_code: self.device_code@,
            user_code: self.user_code@,
            verification_uri_complete: self.verification_uri_complete@,
            interval: self.interval as int,
        }
    }
}

/// Seconds to sleep before a poll: the provider's interval, but never
/// less than one.
pub open spec fn poll_delay(interval: int) -> int {
    if interval < 1 {
        1
    } else {
        interval
    }
}

/// Computes the seconds to sleep before a poll.
pub fn poll_delay_secs(interval: i64) -> (secs: u64)
    ensures
        secs == poll_delay(interval as int),
{
    if interval < 1 {
        1
    } else {
        interval as u64
    }
}

/// The provider's answer to one poll.
#[derive(Debug, PartialEq, Eq)]
pub enum PollOutcome {
    /// The user has not confirmed yet.
    Pending,
    /// The session exists.
    Complete,
    /// The provider gave up, for instance because the code expired.
    Error(String),
}

/// Mathematical value of a [`PollOutcome`].
pub enum PollOutcomeView {
    Pending,
    Complete,
    Error(Seq<char>),
}

impl View for PollOutcome {
    type V = PollOutcomeView;

    open spec fn view(&self) -> PollOutcomeView {
        match self {
            PollOutcome::Pending => PollOutcomeView::Pending,
            PollOutcome::Complete => PollOutcomeView::Complete,
            PollOutcome::Error(message) => PollOutcomeView::Error(message@),
        }
    }
}

/// What the flow is waiting for.
#[derive(Debug, Clone, Copy, PartialEq, Eq, Structural)]
pub enum DeviceStage {
    /// For the provider to start device authorization.
    Starting,
    /// For the browser launch to succeed or fail.
    Opening,
    /// For the poll interval to pass, or for the user to interrupt.
    Sleeping,
    /// For the provider's answer to a poll.
    Polling,
    /// For nothing: the flow has ended.
    Done,
}

/// What happened outside the flow since its last step.
#[derive(Debug, PartialEq, Eq)]
pub enum DeviceEvent {
    /// Device authorization was started.
    Authorized(DeviceAuthorization),
    /// Device authorization could not be started.
    StartFailed(String),
    /// The browser was opened at the verification URL.
    BrowserOpened,
    /// The browser could not be opened.
    BrowserFailed,
    /// The sleep ran to its end.
    IntervalElapsed,
    /// The user interrupted the sleep.
    Cancelled,
    /// The provider answered a poll.
    Polled(PollOutcome),
}

/// Mathematical value of a [`DeviceEvent`].
pub enum DeviceEventView {
    Authorized(DeviceAuthorizationView),
    StartFailed(Seq<char>),
    BrowserOpened,
    BrowserFailed,
    IntervalElapsed,
    Cancelled,
    Polled(PollOutcomeView),
}

impl View for DeviceEvent {
    type V = DeviceEventView;

    open spec fn view(&self) -> DeviceEventView {
        match self {
            DeviceEvent::Authorized(grant) => DeviceEventView::Authorized(grant@),
            DeviceEvent::StartFailed(message) => DeviceEventView::StartFailed(message@),
            DeviceEvent::BrowserOpened => DeviceEventView::BrowserOpened,
            DeviceEvent::BrowserFailed => DeviceEventView::BrowserFailed,
            DeviceEvent::IntervalElapsed => DeviceEventView::IntervalElapsed,
            DeviceEvent::Cancelled => DeviceEventView::Cancelled,
            DeviceEvent::Polled(outcome) => DeviceEventView::Polled(outcome@),
        }
    }
}

/// What a sleep that the user can interrupt has come to: an
/// interruption wherever there was one, even if the sleep has run out
/// as well; else the end of the sleep; else nothing yet.
pub open spec fn sleep_outcome(cancelled: bool, elapsed: bool) -> Option<DeviceEventView> {
    if cancelled {
        Some(DeviceEventView::Cancelled)
    } else if elapsed {
        Some(DeviceEventView::IntervalElapsed)
    } else {
        None
    }
}

impl DeviceEvent {
    /// Settles the race between the sleep and the user: the event to
    /// report, if either has happened. The interruption wins a tie.
    pub fn from_sleep(cancelled: bool, elapsed: bool) -> (event: Option<DeviceEvent>)
        ensures
            match event {
                Some(e) => sleep_outcome(cancelled, elapsed) == Some(e@),
                None => sleep_outcome(cancelled, elapsed) is None,
            },
    {
        if cancelled {
            Some(DeviceEvent::Cancelled)
        } else if elapsed {
            Some(DeviceEvent::IntervalElapsed)
        } else {
            None
        }
    }
}

/// What the caller is to do next, in the order given.
#[derive(Debug, PartialEq, Eq)]
pub enum DeviceAction {
    /// Ask the provider to start device authorization; answer with
    /// `Authorized` or `StartFailed`.
    StartAuthorization { start_url: Option<String>, region: Option<String> },
    /// Show the user the code to confirm.
    ShowCode(String),
    /// Show the user the verification URL to open by hand.
    ShowUrl(String),
    /// Try to open the browser at the URL; answer with `BrowserOpened`
    /// or `BrowserFailed`.
    OpenBrowser(String),
    /// Sleep this many seconds unless the user interrupts first; answer
    /// with `IntervalElapsed` or `Cancelled`.
    Sleep(u64),
    /// Poll the provider once; answer with `Polled`.
    Poll { device_code: String, start_url: Option<String>, region: Option<String> },
    /// Report to telemetry that the user logged in.
    ReportLoggedIn,
    /// The flow has ended with this result.
    Finish(Result<(), FlowError>),
}

/// Mathematical value of a [`DeviceAction`].
pub enum DeviceActionView {
    StartAuthorization { start_url: Option<Seq<char>>, region: Option<Seq<char>> },
    ShowCode(Seq<char>),
    ShowUrl(Seq<char>),
    OpenBrowser(Seq<char>),
    Sleep(int),
    Poll { device_code: Seq<char>, start_url: Option<Seq<char>>, region: Option<Seq<char>> },
    ReportLoggedIn,
    Finish(FlowEnd),
}

impl View for DeviceAction {
    type V = DeviceActionView;

    open spec fn view(&self) -> DeviceActionView {
        match self {
            DeviceAction::StartAuthorization { start_url, region } => {
                DeviceActionView::StartAuthorization {
                    start_url: start_url.deep_view(),
                    region: region.deep_view(),
                }
            },
            DeviceAction::ShowCode(code) => DeviceActionView::ShowCode(code@),
            DeviceAction::ShowUrl(url) => DeviceActionView::ShowUrl(url@),
            DeviceAction::OpenBrowser(url) => DeviceActionView::OpenBrowser(url@),
            DeviceAction::Sleep(secs) => DeviceActionView::Sleep(*secs as int),
            DeviceAction::Poll { device_code, start_url, region } => DeviceActionView::Poll {
                device_code: device_code@,
                start_url: start_url.deep_view(),
                region: region.deep_view(),
            },
            DeviceAction::ReportLoggedIn => DeviceActionView::ReportLoggedIn,
            DeviceAction::Finish(result) => DeviceActionView::Finish(flow_end(*result)),
        }
    }
}

impl DeepView for DeviceAction {
    type V = DeviceActionView;

    open spec fn deep_view(&self) -> DeviceActionView {
        self@
    }
}

/// One device-code sign-in attempt.
#[derive(Debug, PartialEq, Eq)]
pub struct DeviceCodeFlow {
    /// Start URL the attempt was begun with.
    pub start_url: Option<String>,
    /// Region the attempt was begun with.
    pub region: Option<String>,
    /// Whether the session is remote, so that no browser can be opened.
    pub remote: bool,
    /// What the flow is waiting for.
    pub stage: DeviceStage,
    /// Device code of the running authorization; empty before it exists.
    pub device_code: String,
    /// Verification URL of the running authorization; empty before it exists.
    pub verification_uri: String,
    /// Seconds slept before each poll.
    pub delay_secs: u64,
}

/// Mathematical value of a [`DeviceCodeFlow`].
pub struct DeviceFlowView {
    pub start_url: Option<Seq<char>>,
    pub region: Option<Seq<char>>,
    pub remote: bool,
    pub stage: DeviceStage,
    pub device_code: Seq<char>,
    pub verification_uri: Seq<char>,
    pub delay_secs: int,
}

impl View for DeviceCodeFlow {
    type V = DeviceFlowView;

    open spec fn view(&self) -> DeviceFlowView {
        DeviceFlowView {
            start_url: self.start_url.deep_view(),
            region: self.region.deep_view(),
            remote: self.remote,
            stage: self.stage,
            device_code: self.device_code@,
            verification_uri: self.verification_uri@,
            delay_secs: self.delay_secs as int,
        }
    }
}

impl DeviceFlowView {
    /// The same attempt, waiting for something else.
    pub open spec fn at(self, stage: DeviceStage) -> DeviceFlowView {
        DeviceFlowView { stage, ..self }
    }

    /// The poll this attempt issues.
    pub open spec fn poll(self) -> DeviceActionView {
        DeviceActionView::Poll {
            device_code: self.device_code,
            start_url: self.start_url,
            region: self.region,
        }
    }

    /// The attempt as it stands before anything has happened.
    pub open spec fn initial(
        start_url: Option<Seq<char>>,
        region: Option<Seq<char>>,
        remote: bool,
    ) -> DeviceFlowView {
        DeviceFlowView {
            start_url,
            region,
            remote,
            stage: DeviceStage::Starting,
            device_code: Seq::empty(),
            verification_uri: Seq::empty(),
            delay_secs: 1,
        }
    }

    /// The attempt once the provider has granted device authorization.
    pub open spec fn granted(self, grant: DeviceAuthorizationView) -> DeviceFlowView {
        DeviceFlowView {
            stage: if self.remote {
                DeviceStage::Sleeping
            } else {
                DeviceStage::Opening
            },
            device_code: grant.device_code,
            verification_uri: grant.verification_uri_complete,
            delay_secs: poll_delay(grant.interval),
            ..self
        }
    }

    /// One transition: the attempt after `event`, and what the caller is
    /// to do, in order. An event the attempt is not waiting for changes
    /// nothing and asks for nothing.
    pub open spec fn step(self, event: DeviceEventView) -> (DeviceFlowView, Seq<DeviceActionView>) {
        match (self.stage, event) {
            (DeviceStage::Starting, DeviceEventView::Authorized(grant)) => {
                let next = self.granted(grant);
                if self.remote {
                    (
                        next,
                        seq![
                            DeviceActionView::ShowCode(grant.user_code),
                            DeviceActionView::ShowUrl(next.verification_uri),
                            DeviceActionView::Sleep(next.delay_secs),
                        ],
                    )
                } else {
                    (
                        next,
                        seq![
                            DeviceActionView::ShowCode(grant.user_code),
                            DeviceActionView::OpenBrowser(next.verification_uri),
                        ],
                    )
                }
            },
            (DeviceStage::Starting, DeviceEventView::StartFailed(message)) => (
                self.at(DeviceStage::Done),
                seq![DeviceActionView::Finish(Err(FlowErrorView::ProviderError(message)))],
            ),
            (DeviceStage::Opening, DeviceEventView::BrowserOpened) => (
                self.at(DeviceStage::Sleeping),
                seq![DeviceActionView::Sleep(self.delay_secs)],
            ),
            (DeviceStage::Opening, DeviceEventView::BrowserFailed) => (
                self.at(DeviceStage::Sleeping),
                seq![
                    DeviceActionView::ShowUrl(self.verification_uri),
                    DeviceActionView::Sleep(self.delay_secs),
                ],
            ),
            (DeviceStage::Sleeping, DeviceEventView::IntervalElapsed) => (
                self.at(DeviceStage::Polling),
                seq![self.poll()],
            ),
            (DeviceStage::Sleeping, DeviceEventView::Cancelled) => (
                self.at(DeviceStage::Done),
                seq![DeviceActionView::Finish(Err(FlowErrorView::Cancelled))],
            ),
            (DeviceStage::Polling, DeviceEventView::Polled(PollOutcomeView::Pending)) => (
                self.at(DeviceStage::Sleeping),
                seq![DeviceActionView::Sleep(self.delay_secs)],
            ),
            (DeviceStage::Polling, DeviceEventView::Polled(PollOutcomeView::Complete)) => (
                self.at(DeviceStage::Done),
                seq![DeviceActionView::ReportLoggedIn, DeviceActionView::Finish(Ok(()))],
            ),
            (DeviceStage::Polling, DeviceEventView::Polled(PollOutcomeView::Error(message))) => (
                self.at(DeviceStage::Done),
                seq![DeviceActionView::Finish(Err(FlowErrorView::ProviderError(message)))],
            ),
            _ => (self, Seq::empty()),
        }
    }
}

impl DeviceCodeFlow {
    /// Begins an attempt: nothing has happened yet, and the caller is to
    /// start device authorization with the same start URL and region.
    pub fn begin(start_url: Option<String>, region: Option<String>, remote: bool) -> (out: (
        DeviceCodeFlow,
        Vec<DeviceAction>,
    ))
        ensures
            out.0@ == DeviceFlowView::initial(start_url.deep_view(), region.deep_view(), remote),
            out.1.deep_view() == seq![
                DeviceActionView::StartAuthorization {
                    start_url: start_url.deep_view(),
                    region: region.deep_view(),
                },
            ],
    {
        let first = DeviceAction::StartAuthorization {
            start_url: copy_text(&start_url),
            region: copy_text(&region),
        };
        let flow = DeviceCodeFlow {
            start_url,
            region,
            remote,
            stage: DeviceStage::Starting,
            device_code: String::new(),
            verification_uri: String::new(),
            delay_secs: 1,
        };
        let actions = vec![first];
        assert(actions.deep_view() =~= seq![first@]);
        (flow, actions)
    }

    /// Takes one transition: returns the attempt after `event` and what
    /// the caller is to do next, in order.
    pub fn step(self, event: DeviceEvent) -> (out: (DeviceCodeFlow, Vec<DeviceAction>))
        ensures
            (out.0@, out.1.deep_view()) == self@.step(event@),
    {
        let ghost before = self@;
        match (self.stage, event) {
            (DeviceStage::Starting, DeviceEvent::Authorized(grant)) => {
                let delay_secs = poll_delay_secs(grant.interval);
                let show_code = DeviceAction::ShowCode(grant.user_code);
                let url = grant.verification_uri_complete.clone();
                if self.remote {
                    let next = DeviceCodeFlow {
                        stage: DeviceStage::Sleeping,
                        device_code: grant.device_code,
                        verification_uri: grant.verification_uri_complete,
                        delay_secs,
                        ..self
                    };
                    let show_url = DeviceAction::ShowUrl(url);
                    let sleep = DeviceAction::Sleep(delay_secs);
                    let actions = vec![show_code, show_url, sleep];
                    assert(actions.deep_view() =~= seq![show_code@, show_url@, sleep@]);
                    (next, actions)
                } else {
                    let next = DeviceCodeFlow {
                        stage: DeviceStage::Opening,
                        device_code: grant.device_code,
                        verification_uri: grant.verification_uri_complete,
                        delay_secs,
                        ..self
                    };
                    let open = DeviceAction::OpenBrowser(url);
                    let actions = vec![show_code, open];
                    assert(actions.deep_view() =~= seq![show_code@, open@]);
                    (next, actions)
                }
            },
            (DeviceStage::Starting, DeviceEvent::StartFailed(message)) => {
                let finish = DeviceAction::Finish(Err(FlowError::ProviderError(message)));
                let actions = vec![finish];
                assert(actions.deep_view() =~= seq![finish@]);
                (DeviceCodeFlow { stage: DeviceStage::Done, ..self }, actions)
            },
            (DeviceStage::Opening, DeviceEvent::BrowserOpened) => {
                let sleep = DeviceAction::Sleep(self.delay_secs);
                let actions = vec![sleep];
                assert(actions.deep_view() =~= seq![sleep@]);
                (DeviceCodeFlow { stage: DeviceStage::Sleeping, ..self }, actions)
            },
            (DeviceStage::Opening, DeviceEvent::BrowserFailed) => {
                let show_url = DeviceAction::ShowUrl(self.verification_uri.clone());
                let sleep = DeviceAction::Sleep(self.delay_secs);
                let actions = vec![show_url, sleep];
                assert(actions.deep_view() =~= seq![show_url@, sleep@]);
                (DeviceCodeFlow { stage: DeviceStage::Sleeping, ..self }, actions)
            },
            (DeviceStage::Sleeping, DeviceEvent::IntervalElapsed) => {
                let poll = DeviceAction::Poll {
                    device_code: self.device_code.clone(),
                    start_url: copy_text(&self.start_url),
                    region: copy_text(&self.region),
                };
                let actions = vec![poll];
                assert(actions.deep_view() =~= seq![poll@]);
                (DeviceCodeFlow { stage: DeviceStage::Polling, ..self }, actions)
            },
            (DeviceStage::Sleeping, DeviceEvent::Cancelled) => {
                let finish = DeviceAction::Finish(Err(FlowError::Cancelled));
                let actions = vec![finish];
                assert(actions.deep_view() =~= seq![finish@]);
                (DeviceCodeFlow { stage: DeviceStage::Done, ..self }, actions)
            },
            (DeviceStage::Polling, DeviceEvent::Polled(PollOutcome::Pending)) => {
                let sleep = DeviceAction::Sleep(self.delay_secs);
                let actions = vec![sleep];
                assert(actions.deep_view() =~= seq![sleep@]);
                (DeviceCodeFlow { stage: DeviceStage::Sleeping, ..self }, actions)
            },
            (DeviceStage::Polling, DeviceEvent::Polled(PollOutcome::Complete)) => {
                let report = DeviceAction::ReportLoggedIn;
                let finish = DeviceAction::Finish(Ok(()));
                let actions = vec![report, finish];
                assert(actions.deep_view() =~= seq![report@, finish@]);
                (DeviceCodeFlow { stage: DeviceStage::Done, ..self }, actions)
            },
            (DeviceStage::Polling, DeviceEvent::Polled(PollOutcome::Error(message))) => {
                let finish = DeviceAction::Finish(Err(FlowError::ProviderError(message)));
                let actions = vec![finish];
                assert(actions.deep_view() =~= seq![finish@]);
                (DeviceCodeFlow { stage: DeviceStage::Done, ..self }, actions)
            },
            _ => {
                let actions: Vec<DeviceAction> = Vec::new();
                assert(actions.deep_view() =~= Seq::<DeviceActionView>::empty());
                (self, actions)
            },
        }
    }

    /// Whether the attempt has ended.
    pub fn is_done(&self) -> (done: bool)
        ensures
            done == (self@.stage == DeviceStage::Done),
    {
        self.stage == DeviceStage::Done
    }
}

} // verus!
