//! The browser-redirect grant: register with the provider, open the
//! browser at the registration URL, and wait for the provider to confirm
//! unless the user interrupts first.
//!
//! Like the device-code flow, this is a transition function without I/O.

use vstd::prelude::*;
use crate::auth::model::{copy_text, flow_end, FlowEnd, FlowError, FlowErrorView};

verus! {

/// What the flow is waiting for.
#[derive(Debug, Clone, Copy, PartialEq, Eq, Structural)]
pub enum PkceStage {
    /// For the provider to register the attempt.
    Starting,
    /// For the browser launch to succeed or fail.
    Opening,
    /// For the provider to confirm, or for the user to interrupt.
    Finishing,
    /// For nothing: the flow has ended.
    Done,
}

/// What happened outside the flow since its last step.
#[derive(Debug, PartialEq, Eq)]
pub enum PkceEvent {
    /// The provider registered the attempt; the text is the URL to open.
    Registered(String),
    /// The provider could not register the attempt.
    StartFailed(String),
    /// The browser was opened at the registration URL.
    BrowserOpened,
    /// The browser could not be opened.
    BrowserFailed,
    /// The provider confirmed the sign-in.
    Completed,
    /// The provider refused or failed while confirming.
    Failed(String),
    /// The user interrupted the wait for the provider.
    Cancelled,
}

/// Mathematical value of a [`PkceEvent`].
pub enum PkceEventView {
    Registered(Seq<char>),
    StartFailed(Seq<char>),
    BrowserOpened,
    BrowserFailed,
    Completed,
    Failed(Seq<char>),
    Cancelled,
}

impl View for PkceEvent {
    type V = PkceEventView;

    open spec fn view(&self) -> PkceEventView {
        match self {
            PkceEvent::Registered(url) => PkceEventView::Registered(url@),
            PkceEvent::StartFailed(message) => PkceEventView::StartFailed(message@),
            PkceEvent::BrowserOpened => PkceEventView::BrowserOpened,
            PkceEvent::BrowserFailed => PkceEventView::BrowserFailed,
            PkceEvent::Completed => PkceEventView::Completed,
            PkceEvent::Failed(message) => PkceEventView::Failed(message@),
            PkceEvent::Cancelled => PkceEventView::Cancelled,
        }
    }
}

/// What the wait for the provider has come to: an interruption wherever
/// there was one, even if the provider has answered as well; else the
/// provider's answer; else nothing yet.
pub open spec fn wait_outcome(
    cancelled: bool,
    answer: Option<Result<(), Seq<char>>>,
) -> Option<PkceEventView> {
    if cancelled {
        Some(PkceEventView::Cancelled)
    } else {
        match answer {
            Some(Ok(())) => Some(PkceEventView::Completed),
            Some(Err(message)) => Some(PkceEventView::Failed(message)),
            None => None,
        }
    }
}

/// Mathematical value of the provider's answer, where there is one.
pub open spec fn answer_view(answer: Option<Result<(), String>>) -> Option<Result<(), Seq<char>>> {
    match answer {
        Some(Ok(())) => Some(Ok(())),
        Some(Err(message)) => Some(Err(message@)),
        None => None,
    }
}

impl PkceEvent {
    /// Settles the race between the provider and the user: the event to
    /// report, if either has acted. The interruption wins a tie.
    pub fn from_wait(cancelled: bool, answer: Option<Result<(), String>>) -> (event: Option<
        PkceEvent,
    >)
        ensures
            match event {
                Some(e) => wait_outcome(cancelled, answer_view(answer)) == Some(e@),
                None => wait_outcome(cancelled, answer_view(answer)) is None,
            },
    {
        if cancelled {
            Some(PkceEvent::Cancelled)
        } else {
            match answer {
                Some(Ok(())) => Some(PkceEvent::Completed),
                Some(Err(message)) => Some(PkceEvent::Failed(message)),
                None => None,
            }
        }
    }
}

/// What the caller is to do next, in the order given.
#[derive(Debug, PartialEq, Eq)]
pub enum PkceAction {
    /// Ask the provider to register the attempt; answer with
    /// `Registered` or `StartFailed`.
    StartRegistration { start_url: Option<String>, region: Option<String> },
    /// Try to open the browser at the URL; answer with `BrowserOpened`
    /// or `BrowserFailed`.
    OpenBrowser(String),
    /// Wait for the provider to confirm unless the user interrupts
    /// first, the interruption winning a tie; answer with `Completed`,
    /// `Failed` or `Cancelled`.
    AwaitCompletion,
    /// Report to telemetry that the user logged in.
    ReportLoggedIn,
    /// The flow has ended with this result.
    Finish(Result<(), FlowError>),
}

/// Mathematical value of a [`PkceAction`].
pub enum PkceActionView {
    StartRegistration { start_url: Option<Seq<char>>, region: Option<Seq<char>> },
    OpenBrowser(Seq<char>),
    AwaitCompletion,
    ReportLoggedIn,
    Finish(FlowEnd),
}

impl View for PkceAction {
    type V = PkceActionView;

    open spec fn view(&self) -> PkceActionView {
        match self {
            PkceAction::StartRegistration { start_url, region } => {
                PkceActionView::StartRegistration {
                    start_url: start_url.deep_view(),
                    region: region.deep_view(),
                }
            },
            PkceAction::OpenBrowser(url) => PkceActionView::OpenBrowser(url@),
            PkceAction::AwaitCompletion => PkceActionView::AwaitCompletion,
            PkceAction::ReportLoggedIn => PkceActionView::ReportLoggedIn,
            PkceAction::Finish(result) => PkceActionView::Finish(flow_end(*result)),
        }
    }
}

impl DeepView for PkceAction {
    type V = PkceActionView;

    open spec fn deep_view(&self) -> PkceActionView {
        self@
    }
}

/// One browser-redirect sign-in attempt.
#[derive(Debug, PartialEq, Eq)]
pub struct PkceFlow {
    /// Start URL the attempt was begun with.
    pub start_url: Option<String>,
    /// Region the attempt was begun with.
    pub region: Option<String>,
    /// What the flow is waiting for.
    pub stage: PkceStage,
}

/// Mathematical value of a [`PkceFlow`].
pub struct PkceFlowView {
    pub start_url: Option<Seq<char>>,
    pub region: Option<Seq<char>>,
    pub stage: PkceStage,
}

impl View for PkceFlow {
    type V = PkceFlowView;

    open spec fn view(&self) -> PkceFlowView {
        PkceFlowView {
            start_url: self.start_url.deep_view(),
            region: self.region.deep_view(),
            stage: self.stage,
        }
    }
}

impl PkceFlowView {
    /// The same attempt, waiting for something else.
    pub open spec fn at(self, stage: PkceStage) -> PkceFlowView {
        PkceFlowView { stage, ..self }
    }

    /// The attempt ended, with `result` as the caller's only action.
    pub open spec fn ended(self, result: FlowEnd) -> (PkceFlowView, Seq<PkceActionView>) {
        (self.at(PkceStage::Done), seq![PkceActionView::Finish(result)])
    }

    /// One transition: the attempt after `event`, and what the caller is
    /// to do, in order. An event the attempt is not waiting for changes
    /// nothing and asks for nothing.
    pub open spec fn step(self, event: PkceEventView) -> (PkceFlowView, Seq<PkceActionView>) {
        match (self.stage, event) {
            (PkceStage::Starting, PkceEventView::Registered(url)) => (
                self.at(PkceStage::Opening),
                seq![PkceActionView::OpenBrowser(url)],
            ),
            (PkceStage::Starting, PkceEventView::StartFailed(message)) => self.ended(
                Err(FlowErrorView::ProviderError(message)),
            ),
            (PkceStage::Opening, PkceEventView::BrowserOpened) => (
                self.at(PkceStage::Finishing),
                seq![PkceActionView::AwaitCompletion],
            ),
            (PkceStage::Opening, PkceEventView::BrowserFailed) => self.ended(
                Err(FlowErrorView::BrowserLaunchFailed),
            ),
            (PkceStage::Finishing, PkceEventView::Completed) => (
                self.at(PkceStage::Done),
                seq![PkceActionView::ReportLoggedIn, PkceActionView::Finish(Ok(()))],
            ),
            (PkceStage::Finishing, PkceEventView::Failed(message)) => self.ended(
                Err(FlowErrorView::ProviderError(message)),
            ),
            (PkceStage::Finishing, PkceEventView::Cancelled) => self.ended(
                Err(FlowErrorView::Cancelled),
            ),
            _ => (self, Seq::empty()),
        }
    }
}

impl PkceFlow {
    /// Begins an attempt: nothing has happened yet, and the caller is to
    /// register with the provider under the same start URL and region.
    pub fn begin(start_url: Option<String>, region: Option<String>) -> (out: (
        PkceFlow,
        Vec<PkceAction>,
    ))
        ensures
            out.0@ == (PkceFlowView {
                start_url: start_url.deep_view(),
                region: region.deep_view(),
                stage: PkceStage::Starting,
            }),
            out.1.deep_view() == seq![
                PkceActionView::StartRegistration {
                    start_url: start_url.deep_view(),
                    region: region.deep_view(),
                },
            ],
    {
        let first = PkceAction::StartRegistration {
            start_url: copy_text(&start_url),
            region: copy_text(&region),
        };
        let actions = vec![first];
        assert(actions.deep_view() =~= seq![first@]);
        (PkceFlow { start_url, region, stage: PkceStage::Starting }, actions)
    }

    /// Ends the attempt with `result` as the caller's only action.
    fn end(self, result: Result<(), FlowError>) -> (out: (PkceFlow, Vec<PkceAction>))
        ensures
            (out.0@, out.1.deep_view()) == self@.ended(flow_end(result)),
    {
        let finish = PkceAction::Finish(result);
        let actions = vec![finish];
        assert(actions.deep_view() =~= seq![finish@]);
        (PkceFlow { stage: PkceStage::Done, ..self }, actions)
    }

    /// Takes one transition: returns the attempt after `event` and what
    /// the caller is to do next, in order.
    pub fn step(self, event: PkceEvent) -> (out: (PkceFlow, Vec<PkceAction>))
        ensures
            (out.0@, out.1.deep_view()) == self@.step(event@),
    {
        match (self.stage, event) {
            (PkceStage::Starting, PkceEvent::Registered(url)) => {
                let open = PkceAction::OpenBrowser(url);
                let actions = vec![open];
                assert(actions.deep_view() =~= seq![open@]);
                (PkceFlow { stage: PkceStage::Opening, ..self }, actions)
            },
            (PkceStage::Starting, PkceEvent::StartFailed(message)) => {
                self.end(Err(FlowError::ProviderError(message)))
            },
            (PkceStage::Opening, PkceEvent::BrowserOpened) => {
                let wait = PkceAction::AwaitCompletion;
                let actions = vec![wait];
                assert(actions.deep_view() =~= seq![wait@]);
                (PkceFlow { stage: PkceStage::Finishing, ..self }, actions)
            },
            (PkceStage::Opening, PkceEvent::BrowserFailed) => {
                self.end(Err(FlowError::BrowserLaunchFailed))
            },
            (PkceStage::Finishing, PkceEvent::Completed) => {
                let report = PkceAction::ReportLoggedIn;
                let finish = PkceAction::Finish(Ok(()));
                let actions = vec![report, finish];
                assert(actions.deep_view() =~= seq![report@, finish@]);
                (PkceFlow { stage: PkceStage::Done, ..self }, actions)
            },
            (PkceStage::Finishing, PkceEvent::Failed(message)) => {
                self.end(Err(FlowError::ProviderError(message)))
            },
            (PkceStage::Finishing, PkceEvent::Cancelled) => self.end(Err(FlowError::Cancelled)),
            _ => {
                let actions: Vec<PkceAction> = Vec::new();
                assert(actions.deep_view() =~= Seq::<PkceActionView>::empty());
                (self, actions)
            },
        }
    }

    /// Whether the attempt has ended.
    pub fn is_done(&self) -> (done: bool)
        ensures
            done == (self@.stage == PkceStage::Done),
    {
        self.stage == PkceStage::Done
    }
}

} // verus!
