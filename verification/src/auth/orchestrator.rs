//! Signing in from start to end: check that nobody is signed in, settle
//! the method and its endpoint, run a grant flow (falling back from the
//! browser to the device code where the browser cannot be opened), and
//! let a multi-profile identity pick its profile.
//!
//! A transition function without I/O, like the flows it directs: each
//! step hands out what the caller is to do, and the caller reports what
//! came of it.

use vstd::prelude::*;
use crate::auth::login::{
    flow_failure, login_end, method_options, offered_methods, select_failure, AuthError,
    AuthErrorView, LoginArgs, LoginArgsView, LoginEnd, SignedIn, SignedInView,
};
use crate::auth::model::{copy_text, flow_end, AuthMethod, FlowEnd, FlowError, FlowErrorView};
use crate::auth::profile::{select_end, SelectEnd, SelectError, SelectMode};

verus! {

/// What the attempt is waiting for.
#[derive(Debug, Clone, Copy, PartialEq, Eq, Structural)]
pub enum LoginStage {
    /// To learn whether somebody is signed in already.
    CheckingSession,
    /// For the user's answer to the method prompt.
    ChoosingMethod,
    /// For the start URL kept in the store.
    LoadingStartUrl,
    /// For the start URL typed by the user.
    AskingStartUrl,
    /// For the region kept in the store.
    LoadingRegion,
    /// For the region typed by the user.
    AskingRegion,
    /// For the browser-redirect flow to end.
    RunningPkce,
    /// For the device-code flow to end.
    RunningDevice,
    /// For profile selection to end.
    SelectingProfile,
    /// For nothing: the attempt has ended.
    Done,
}

/// What happened outside the attempt since its last step.
#[derive(Debug, PartialEq, Eq)]
pub enum LoginEvent {
    /// Whether somebody is signed in already.
    SessionChecked(bool),
    /// The user answered the method prompt: with the index of a method
    /// offered, or by leaving without a choice.
    MethodChosen(Option<usize>),
    /// The store gave the value asked for, if it holds one.
    Stored(Option<String>),
    /// The store failed on the last read.
    StoreFailed(String),
    /// The user typed the value asked for.
    Entered(String),
    /// The last prompt could not be shown.
    PromptFailed(String),
    /// The browser-redirect flow ended.
    PkceEnded(Result<(), FlowError>),
    /// The device-code flow ended.
    DeviceEnded(Result<(), FlowError>),
    /// Profile selection ended.
    ProfileEnded(Result<(), SelectError>),
}

/// Mathematical value of a [`LoginEvent`].
pub enum LoginEventView {
    SessionChecked(bool),
    MethodChosen(Option<int>),
    Stored(Option<Seq<char>>),
    StoreFailed(Seq<char>),
    Entered(Seq<char>),
    PromptFailed(Seq<char>),
    PkceEnded(FlowEnd),
    DeviceEnded(FlowEnd),
    ProfileEnded(SelectEnd),
}

impl View for LoginEvent {
    type V = LoginEventView;

    open spec fn view(&self) -> LoginEventView {
        match self {
            LoginEvent::SessionChecked(signed_in) => LoginEventView::SessionChecked(*signed_in),
            LoginEvent::MethodChosen(choice) => LoginEventView::MethodChosen(
                match choice {
                    Some(i) => Some(*i as int),
                    None => None,
                },
            ),
            LoginEvent::Stored(value) => LoginEventView::Stored(value.deep_view()),
            LoginEvent::StoreFailed(message) => LoginEventView::StoreFailed(message@),
            LoginEvent::Entered(value) => LoginEventView::Entered(value@),
            LoginEvent::PromptFailed(message) => LoginEventView::PromptFailed(message@),
            LoginEvent::PkceEnded(result) => LoginEventView::PkceEnded(flow_end(*result)),
            LoginEvent::DeviceEnded(result) => LoginEventView::DeviceEnded(flow_end(*result)),
            LoginEvent::ProfileEnded(result) => LoginEventView::ProfileEnded(select_end(*result)),
        }
    }
}

/// What the caller is to do next, in the order given.
#[derive(Debug, PartialEq, Eq)]
pub enum LoginAction {
    /// Find out whether somebody is signed in; answer with
    /// `SessionChecked`.
    CheckSession,
    /// Let the user pick one of these methods or none; answer with
    /// `MethodChosen` or `PromptFailed`.
    ChooseMethod(Vec<AuthMethod>),
    /// Read the start URL from the store; answer with `Stored` or
    /// `StoreFailed`.
    LoadStartUrl,
    /// Let the user type the start URL; answer with `Entered` or
    /// `PromptFailed`.
    AskStartUrl,
    /// Read the region from the store; answer with `Stored` or
    /// `StoreFailed`.
    LoadRegion,
    /// Let the user type the region; answer with `Entered` or
    /// `PromptFailed`.
    AskRegion,
    /// Keep the start URL in the store; whether that works is of no
    /// consequence.
    SaveStartUrl(String),
    /// Keep the region in the store; whether that works is of no
    /// consequence.
    SaveRegion(String),
    /// Run the browser-redirect flow; answer with `PkceEnded`.
    RunPkce { start_url: Option<String>, region: Option<String> },
    /// Run the device-code flow; answer with `DeviceEnded`.
    RunDevice { start_url: Option<String>, region: Option<String> },
    /// Run profile selection; answer with `ProfileEnded`.
    SelectProfile(SelectMode),
    /// The attempt has ended with this result.
    Finish(Result<SignedIn, AuthError>),
}

/// Mathematical value of a [`LoginAction`].
pub enum LoginActionView {
    CheckSession,
    ChooseMethod(Seq<AuthMethod>),
    LoadStartUrl,
    AskStartUrl,
    LoadRegion,
    AskRegion,
    SaveStartUrl(Seq<char>),
    SaveRegion(Seq<char>),
    RunPkce { start_url: Option<Seq<char>>, region: Option<Seq<char>> },
    RunDevice { start_url: Option<Seq<char>>, region: Option<Seq<char>> },
    SelectProfile(SelectMode),
    Finish(LoginEnd),
}

impl View for LoginAction {
    type V = LoginActionView;

    open spec fn view(&self) -> LoginActionView {
        match self {
            LoginAction::CheckSession => LoginActionView::CheckSession,
            LoginAction::ChooseMethod(options) => LoginActionView::ChooseMethod(options@),
            LoginAction::LoadStartUrl => LoginActionView::LoadStartUrl,
            LoginAction::AskStartUrl => LoginActionView::AskStartUrl,
            LoginAction::LoadRegion => LoginActionView::LoadRegion,
            LoginAction::AskRegion => LoginActionView::AskRegion,
            LoginAction::SaveStartUrl(url) => LoginActionView::SaveStartUrl(url@),
            LoginAction::SaveRegion(region) => LoginActionView::SaveRegion(region@),
            LoginAction::RunPkce { start_url, region } => LoginActionView::RunPkce {
                start_url: start_url.deep_view(),
                region: region.deep_view(),
            },
            LoginAction::RunDevice { start_url, region } => LoginActionView::RunDevice {
                start_url: start_url.deep_view(),
                region: region.deep_view(),
            },
            LoginAction::SelectProfile(mode) => LoginActionView::SelectProfile(*mode),
            LoginAction::Finish(result) => LoginActionView::Finish(login_end(*result)),
        }
    }
}

impl DeepView for LoginAction {
    type V = LoginActionView;

    open spec fn deep_view(&self) -> LoginActionView {
        self@
    }
}

/// One sign-in attempt.
#[derive(Debug, PartialEq, Eq)]
pub struct LoginFlow {
    /// What the user asked for on the command line.
    pub args: LoginArgs,
    /// Whether the session is remote, so that no browser can be opened.
    pub remote: bool,
    /// What the attempt is waiting for.
    pub stage: LoginStage,
    /// The method signed in with; Builder ID until it is settled.
    pub method: AuthMethod,
    /// The start URL signed in under, once settled.
    pub start_url: Option<String>,
    /// The region signed in under, once settled.
    pub region: Option<String>,
}

/// Mathematical value of a [`LoginFlow`].
pub struct LoginFlowView {
    pub args: LoginArgsView,
    pub remote: bool,
    pub stage: LoginStage,
    pub method: AuthMethod,
    pub start_url: Option<Seq<char>>,
    pub region: Option<Seq<char>>,
}

impl View for LoginFlow {
    type V = LoginFlowView;

    open spec fn view(&self) -> LoginFlowView {
        LoginFlowView {
            args: self.args@,
            remote: self.remote,
            stage: self.stage,
            method: self.method,
            start_url: self.start_url.deep_view(),
            region: self.region.deep_view(),
        }
    }
}

impl LoginFlowView {
    /// The attempt as it stands before anything has happened.
    pub open spec fn initial(args: LoginArgsView, remote: bool) -> LoginFlowView {
        LoginFlowView {
            args,
            remote,
            stage: LoginStage::CheckingSession,
            method: AuthMethod::BuilderId,
            start_url: None,
            region: None,
        }
    }

    /// The same attempt, waiting for something else.
    pub open spec fn at(self, stage: LoginStage) -> LoginFlowView {
        LoginFlowView { stage, ..self }
    }

    /// The attempt ended, with `result` as the caller's only action.
    pub open spec fn ended(self, result: LoginEnd) -> (LoginFlowView, Seq<LoginActionView>) {
        (self.at(LoginStage::Done), seq![LoginActionView::Finish(result)])
    }

    /// Whether the device-code flow is run without trying the browser.
    pub open spec fn device_only(self) -> bool {
        self.remote || self.args.use_device_flow
    }

    /// The device-code flow under the settled start URL and region.
    pub open spec fn run_device(self) -> (LoginFlowView, Seq<LoginActionView>) {
        (
            self.at(LoginStage::RunningDevice),
            seq![LoginActionView::RunDevice { start_url: self.start_url, region: self.region }],
        )
    }

    /// The first grant flow: the device code where no browser is to be
    /// tried, else the browser redirect.
    pub open spec fn dispatch(self) -> (LoginFlowView, Seq<LoginActionView>) {
        if self.device_only() {
            self.run_device()
        } else {
            (
                self.at(LoginStage::RunningPkce),
                seq![LoginActionView::RunPkce { start_url: self.start_url, region: self.region }],
            )
        }
    }

    /// What is kept in the store once start URL and region are settled.
    pub open spec fn saves(self) -> Seq<LoginActionView> {
        let url = match self.start_url {
            Some(url) => seq![LoginActionView::SaveStartUrl(url)],
            None => Seq::empty(),
        };
        let region = match self.region {
            Some(region) => seq![LoginActionView::SaveRegion(region)],
            None => Seq::empty(),
        };
        url + region
    }

    /// The region is settled: keep the pair, then run the first flow.
    pub open spec fn with_region(self, region: Seq<char>) -> (LoginFlowView, Seq<LoginActionView>) {
        let settled = LoginFlowView { region: Some(region), ..self };
        (settled.dispatch().0, settled.saves() + settled.dispatch().1)
    }

    /// The start URL is settled: go on to the region, which is the one
    /// given on the command line, else the one in the store.
    pub open spec fn with_start_url(self, start_url: Seq<char>) -> (
        LoginFlowView,
        Seq<LoginActionView>,
    ) {
        let settled = LoginFlowView { start_url: Some(start_url), ..self };
        match self.args.region {
            Some(region) => settled.with_region(region),
            None => (settled.at(LoginStage::LoadingRegion), seq![LoginActionView::LoadRegion]),
        }
    }

    /// The method is settled: Builder ID needs no endpoint and runs its
    /// flow at once; Identity Center first settles the start URL, which
    /// is the one given on the command line, else the one in the store.
    pub open spec fn with_method(self, method: AuthMethod) -> (LoginFlowView, Seq<LoginActionView>) {
        let settled = LoginFlowView { method, ..self };
        match method {
            AuthMethod::BuilderId => settled.dispatch(),
            AuthMethod::IdentityCenter => match self.args.identity_provider {
                Some(start_url) => settled.with_start_url(start_url),
                None => (
                    settled.at(LoginStage::LoadingStartUrl),
                    seq![LoginActionView::LoadStartUrl],
                ),
            },
        }
    }

    /// The session that the attempt produces.
    pub open spec fn session(self) -> SignedInView {
        SignedInView { method: self.method, start_url: self.start_url, region: self.region }
    }

    /// A grant flow succeeded: Identity Center goes on to pick its
    /// profile, Builder ID is done.
    pub open spec fn signed_in(self) -> (LoginFlowView, Seq<LoginActionView>) {
        if self.method == AuthMethod::IdentityCenter {
            (
                self.at(LoginStage::SelectingProfile),
                seq![LoginActionView::SelectProfile(SelectMode::WhoamiAutoSelect)],
            )
        } else {
            self.ended(Ok(self.session()))
        }
    }

    /// One transition: the attempt after `event`, and what the caller is
    /// to do, in order. An event the attempt is not waiting for, and a
    /// choice that names none of the methods offered, changes nothing
    /// and asks for nothing.
    pub open spec fn step(self, event: LoginEventView) -> (LoginFlowView, Seq<LoginActionView>) {
        match (self.stage, event) {
            (LoginStage::CheckingSession, LoginEventView::SessionChecked(signed_in)) => {
                if signed_in {
                    self.ended(Err(AuthErrorView::AlreadyAuthenticated))
                } else {
                    match self.args.method() {
                        Some(method) => self.with_method(method),
                        None => (
                            self.at(LoginStage::ChoosingMethod),
                            seq![LoginActionView::ChooseMethod(offered_methods())],
                        ),
                    }
                }
            },
            (LoginStage::ChoosingMethod, LoginEventView::MethodChosen(Some(i))) => {
                if 0 <= i < offered_methods().len() {
                    self.with_method(offered_methods()[i])
                } else {
                    (self, Seq::empty())
                }
            },
            (LoginStage::ChoosingMethod, LoginEventView::MethodChosen(None)) => self.ended(
                Err(AuthErrorView::NoMethodSelected),
            ),
            (LoginStage::LoadingStartUrl, LoginEventView::Stored(Some(start_url))) => {
                self.with_start_url(start_url)
            },
            (LoginStage::LoadingStartUrl, LoginEventView::Stored(None)) => (
                self.at(LoginStage::AskingStartUrl),
                seq![LoginActionView::AskStartUrl],
            ),
            (LoginStage::AskingStartUrl, LoginEventView::Entered(start_url)) => {
                self.with_start_url(start_url)
            },
            (LoginStage::LoadingRegion, LoginEventView::Stored(Some(region))) => {
                self.with_region(region)
            },
            (LoginStage::LoadingRegion, LoginEventView::Stored(None)) => (
                self.at(LoginStage::AskingRegion),
                seq![LoginActionView::AskRegion],
            ),
            (LoginStage::AskingRegion, LoginEventView::Entered(region)) => self.with_region(region),
            (LoginStage::LoadingStartUrl, LoginEventView::StoreFailed(message)) => self.ended(
                Err(AuthErrorView::Store(message)),
            ),
            (LoginStage::LoadingRegion, LoginEventView::StoreFailed(message)) => self.ended(
                Err(AuthErrorView::Store(message)),
            ),
            (LoginStage::ChoosingMethod, LoginEventView::PromptFailed(message)) => self.ended(
                Err(AuthErrorView::Prompt(message)),
            ),
            (LoginStage::AskingStartUrl, LoginEventView::PromptFailed(message)) => self.ended(
                Err(AuthErrorView::Prompt(message)),
            ),
            (LoginStage::AskingRegion, LoginEventView::PromptFailed(message)) => self.ended(
                Err(AuthErrorView::Prompt(message)),
            ),
            (LoginStage::RunningPkce, LoginEventView::PkceEnded(Ok(()))) => self.signed_in(),
            (
                LoginStage::RunningPkce,
                LoginEventView::PkceEnded(Err(FlowErrorView::BrowserLaunchFailed)),
            ) => self.run_device(),
            (LoginStage::RunningPkce, LoginEventView::PkceEnded(Err(error))) => self.ended(
                Err(flow_failure(error)),
            ),
            (LoginStage::RunningDevice, LoginEventView::DeviceEnded(Ok(()))) => self.signed_in(),
            (LoginStage::RunningDevice, LoginEventView::DeviceEnded(Err(error))) => self.ended(
                Err(flow_failure(error)),
            ),
            (LoginStage::SelectingProfile, LoginEventView::ProfileEnded(Ok(()))) => self.ended(
                Ok(self.session()),
            ),
            (LoginStage::SelectingProfile, LoginEventView::ProfileEnded(Err(error))) => self.ended(
                Err(select_failure(error)),
            ),
            _ => (self, Seq::empty()),
        }
    }
}

impl LoginFlow {
    /// Begins an attempt: nothing has happened yet, and the caller is to
    /// find out whether somebody is signed in already.
    pub fn begin(args: LoginArgs, remote: bool) -> (out: (LoginFlow, Vec<LoginAction>))
        ensures
            out.0@ == LoginFlowView::initial(args@, remote),
            out.1.deep_view() == seq![LoginActionView::CheckSession],
    {
        let flow = LoginFlow {
            args,
            remote,
            stage: LoginStage::CheckingSession,
            method: AuthMethod::BuilderId,
            start_url: None,
            region: None,
        };
        let actions = vec![LoginAction::CheckSession];
        assert(actions.deep_view() =~= seq![LoginActionView::CheckSession]);
        (flow, actions)
    }

    /// Whether the attempt has ended.
    pub fn is_done(&self) -> (done: bool)
        ensures
            done == (self@.stage == LoginStage::Done),
    {
        self.stage == LoginStage::Done
    }

    /// Ends the attempt with `result` as the caller's only action.
    fn end(self, result: Result<SignedIn, AuthError>) -> (out: (LoginFlow, Vec<LoginAction>))
        ensures
            (out.0@, out.1.deep_view()) == self@.ended(login_end(result)),
    {
        let finish = LoginAction::Finish(result);
        let actions = vec![finish];
        assert(actions.deep_view() =~= seq![finish@]);
        (LoginFlow { stage: LoginStage::Done, ..self }, actions)
    }

    /// Changes nothing and asks for nothing.
    fn stay(self) -> (out: (LoginFlow, Vec<LoginAction>))
        ensures
            (out.0@, out.1.deep_view()) == (self@, Seq::<LoginActionView>::empty()),
    {
        let actions: Vec<LoginAction> = Vec::new();
        assert(actions.deep_view() =~= Seq::<LoginActionView>::empty());
        (self, actions)
    }

    /// Moves to `stage` with `action` as the caller's only action.
    fn wait(self, stage: LoginStage, action: LoginAction) -> (out: (LoginFlow, Vec<LoginAction>))
        ensures
            (out.0@, out.1.deep_view()) == (self@.at(stage), seq![action@]),
    {
        let actions = vec![action];
        assert(actions.deep_view() =~= seq![action@]);
        (LoginFlow { stage, ..self }, actions)
    }

    /// Hands the attempt to the device-code flow.
    fn run_device(self) -> (out: (LoginFlow, Vec<LoginAction>))
        ensures
            (out.0@, out.1.deep_view()) == self@.run_device(),
    {
        let run = LoginAction::RunDevice {
            start_url: copy_text(&self.start_url),
            region: copy_text(&self.region),
        };
        self.wait(LoginStage::RunningDevice, run)
    }

    /// Hands the attempt to its first grant flow.
    fn dispatch(self) -> (out: (LoginFlow, Vec<LoginAction>))
        ensures
            (out.0@, out.1.deep_view()) == self@.dispatch(),
    {
        if self.remote || self.args.use_device_flow {
            self.run_device()
        } else {
            let run = LoginAction::RunPkce {
                start_url: copy_text(&self.start_url),
                region: copy_text(&self.region),
            };
            self.wait(LoginStage::RunningPkce, run)
        }
    }

    /// Settles the region, keeps the pair and runs the first flow.
    fn with_region(self, region: String) -> (out: (LoginFlow, Vec<LoginAction>))
        ensures
            (out.0@, out.1.deep_view()) == self@.with_region(region@),
    {
        let settled = LoginFlow { region: Some(region), ..self };
        let ghost saves = settled@.saves();
        let mut actions: Vec<LoginAction> = Vec::new();
        match &settled.start_url {
            Some(url) => {
                actions.push(LoginAction::SaveStartUrl(url.clone()));
            },
            None => {},
        }
        match &settled.region {
            Some(region) => {
                actions.push(LoginAction::SaveRegion(region.clone()));
            },
            None => {},
        }
        assert(actions.deep_view() =~= saves);
        let (flow, mut run) = settled.dispatch();
        let ghost running = run.deep_view();
        actions.append(&mut run);
        assert(actions.deep_view() =~= saves + running);
        (flow, actions)
    }

    /// Settles the start URL and goes on to the region.
    fn with_start_url(self, start_url: String) -> (out: (LoginFlow, Vec<LoginAction>))
        ensures
            (out.0@, out.1.deep_view()) == self@.with_start_url(start_url@),
    {
        let given = copy_text(&self.args.region);
        let settled = LoginFlow { start_url: Some(start_url), ..self };
        match given {
            Some(region) => settled.with_region(region),
            None => settled.wait(LoginStage::LoadingRegion, LoginAction::LoadRegion),
        }
    }

    /// Settles the method and goes on to what it needs.
    fn with_method(self, method: AuthMethod) -> (out: (LoginFlow, Vec<LoginAction>))
        ensures
            (out.0@, out.1.deep_view()) == self@.with_method(method),
    {
        let given = copy_text(&self.args.identity_provider);
        let settled = LoginFlow { method, ..self };
        match method {
            AuthMethod::BuilderId => settled.dispatch(),
            AuthMethod::IdentityCenter => match given {
                Some(start_url) => settled.with_start_url(start_url),
                None => settled.wait(LoginStage::LoadingStartUrl, LoginAction::LoadStartUrl),
            },
        }
    }

    /// Describes the session that the attempt produces.
    fn session(&self) -> (session: SignedIn)
        ensures
            session@ == self@.session(),
    {
        SignedIn {
            method: self.method,
            start_url: copy_text(&self.start_url),
            region: copy_text(&self.region),
        }
    }

    /// Goes on after a grant flow succeeded.
    fn signed_in(self) -> (out: (LoginFlow, Vec<LoginAction>))
        ensures
            (out.0@, out.1.deep_view()) == self@.signed_in(),
    {
        if self.method == AuthMethod::IdentityCenter {
            self.wait(
                LoginStage::SelectingProfile,
                LoginAction::SelectProfile(SelectMode::WhoamiAutoSelect),
            )
        } else {
            let session = self.session();
            self.end(Ok(session))
        }
    }

    /// Takes one transition: returns the attempt after `event` and what
    /// the caller is to do next, in order.
    pub fn step(self, event: LoginEvent) -> (out: (LoginFlow, Vec<LoginAction>))
        ensures
            (out.0@, out.1.deep_view()) == self@.step(event@),
    {
        match (self.stage, event) {
            (LoginStage::CheckingSession, LoginEvent::SessionChecked(signed_in)) => {
                if signed_in {
                    self.end(Err(AuthError::AlreadyAuthenticated))
                } else {
                    match self.args.method() {
                        Some(method) => self.with_method(method),
                        None => self.wait(
                            LoginStage::ChoosingMethod,
                            LoginAction::ChooseMethod(method_options()),
                        ),
                    }
                }
            },
            (LoginStage::ChoosingMethod, LoginEvent::MethodChosen(Some(i))) => {
                let options = method_options();
                if i < options.len() {
                    self.with_method(options[i])
                } else {
                    self.stay()
                }
            },
            (LoginStage::ChoosingMethod, LoginEvent::MethodChosen(None)) => {
                self.end(Err(AuthError::NoMethodSelected))
            },
            (LoginStage::LoadingStartUrl, LoginEvent::Stored(Some(start_url))) => {
                self.with_start_url(start_url)
            },
            (LoginStage::LoadingStartUrl, LoginEvent::Stored(None)) => {
                self.wait(LoginStage::AskingStartUrl, LoginAction::AskStartUrl)
            },
            (LoginStage::AskingStartUrl, LoginEvent::Entered(start_url)) => {
                self.with_start_url(start_url)
            },
            (LoginStage::LoadingRegion, LoginEvent::Stored(Some(region))) => {
                self.with_region(region)
            },
            (LoginStage::LoadingRegion, LoginEvent::Stored(None)) => {
                self.wait(LoginStage::AskingRegion, LoginAction::AskRegion)
            },
            (LoginStage::AskingRegion, LoginEvent::Entered(region)) => self.with_region(region),
            (LoginStage::LoadingStartUrl, LoginEvent::StoreFailed(message)) => {
                self.end(Err(AuthError::Store(message)))
            },
            (LoginStage::LoadingRegion, LoginEvent::StoreFailed(message)) => {
                self.end(Err(AuthError::Store(message)))
            },
            (LoginStage::ChoosingMethod, LoginEvent::PromptFailed(message)) => {
                self.end(Err(AuthError::Prompt(message)))
            },
            (LoginStage::AskingStartUrl, LoginEvent::PromptFailed(message)) => {
                self.end(Err(AuthError::Prompt(message)))
            },
            (LoginStage::AskingRegion, LoginEvent::PromptFailed(message)) => {
                self.end(Err(AuthError::Prompt(message)))
            },
            (LoginStage::RunningPkce, LoginEvent::PkceEnded(Ok(()))) => self.signed_in(),
            (LoginStage::RunningPkce, LoginEvent::PkceEnded(Err(FlowError::BrowserLaunchFailed))) => {
                self.run_device()
            },
            (LoginStage::RunningPkce, LoginEvent::PkceEnded(Err(error))) => {
                self.end(Err(AuthError::from_flow(error)))
            },
            (LoginStage::RunningDevice, LoginEvent::DeviceEnded(Ok(()))) => self.signed_in(),
            (LoginStage::RunningDevice, LoginEvent::DeviceEnded(Err(error))) => {
                self.end(Err(AuthError::from_flow(error)))
            },
            (LoginStage::SelectingProfile, LoginEvent::ProfileEnded(Ok(()))) => {
                let session = self.session();
                self.end(Ok(session))
            },
            (LoginStage::SelectingProfile, LoginEvent::ProfileEnded(Err(error))) => {
                self.end(Err(AuthError::from_select(error)))
            },
            _ => self.stay(),
        }
    }
}

impl LoginArgs {
    /// Begins the sign-in that these arguments ask for; `remote` says
    /// whether the session is remote, so that no browser can be opened.
    pub fn execute(self, remote: bool) -> (out: (LoginFlow, Vec<LoginAction>))
        ensures
            out.0@ == LoginFlowView::initial(self@, remote),
            out.1.deep_view() == seq![LoginActionView::CheckSession],
    {
        LoginFlow::begin(self, remote)
    }
}

} // verus!
