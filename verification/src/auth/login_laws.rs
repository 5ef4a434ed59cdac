//! What holds of every sign-in attempt.

use vstd::prelude::*;
use crate::auth::login::{settled_method, LoginArgsView};
use crate::auth::model::{AuthMethod, FlowErrorView};
use crate::auth::orchestrator::{
    LoginActionView, LoginEventView, LoginFlowView, LoginStage,
};

verus! {

/// A method named outright is the method used, whether or not a start
/// URL or a region is given with it.
pub proof fn explicit_method_wins(method: AuthMethod, has_start_url: bool, has_region: bool)
    ensures
        settled_method(Some(method), has_start_url, has_region) == Some(method),
{
}

/// Where no method is named but both a start URL and a region are
/// given, the method is Identity Center.
pub proof fn endpoint_means_identity_center()
    ensures
        settled_method(None, true, true) == Some(AuthMethod::IdentityCenter),
{
}

/// Where the method can be settled from the command line, the attempt
/// never asks the user for it: once nobody is found signed in, it goes
/// on with that method, and none of its actions is the method prompt.
pub proof fn settled_method_is_not_asked(args: LoginArgsView, remote: bool)
    requires
        args.method() is Some,
    ensures
        ({
            let start = LoginFlowView::initial(args, remote);
            let (next, actions) = start.step(LoginEventView::SessionChecked(false));
            &&& next.method == args.method()->0
            &&& (next, actions) == start.with_method(args.method()->0)
            &&& forall|i: int| 0 <= i < actions.len() ==> !(#[trigger] actions[i] is ChooseMethod)
        }),
{
}

/// Where the browser cannot be opened, the attempt falls back to the
/// device-code flow under the very start URL and region that the
/// browser-redirect flow was run with: nothing is asked or read again,
/// and nothing about the attempt changes but what it waits for.
pub proof fn browser_failure_falls_back(flow: LoginFlowView)
    requires
        flow.stage == LoginStage::RunningPkce,
    ensures
        flow.step(LoginEventView::PkceEnded(Err(FlowErrorView::BrowserLaunchFailed))) == (
            flow.at(LoginStage::RunningDevice),
            seq![LoginActionView::RunDevice { start_url: flow.start_url, region: flow.region }],
        ),
{
}

/// The browser-redirect flow is always run under the start URL and
/// region that the attempt has settled, so that a fallback to the
/// device-code flow runs under the same pair.
pub proof fn flows_share_the_endpoint(flow: LoginFlowView)
    ensures
        ({
            let (running, actions) = flow.dispatch();
            running.stage == LoginStage::RunningPkce ==> {
                &&& actions == seq![
                    LoginActionView::RunPkce { start_url: flow.start_url, region: flow.region },
                ]
                &&& running.step(
                    LoginEventView::PkceEnded(Err(FlowErrorView::BrowserLaunchFailed)),
                ).1 == seq![
                    LoginActionView::RunDevice { start_url: flow.start_url, region: flow.region },
                ]
            }
        }),
{
}

/// An attempt that has ended stays ended: whatever is reported to it
/// afterwards, it does not change and asks for nothing.
pub proof fn ended_attempt_is_inert(flow: LoginFlowView, event: LoginEventView)
    requires
        flow.stage == LoginStage::Done,
    ensures
        flow.step(event) == (flow, Seq::<LoginActionView>::empty()),
{
}

/// Somebody signed in already ends the attempt at once, before any flow
/// is started.
pub proof fn signed_in_user_is_refused(args: LoginArgsView, remote: bool)
    ensures
        LoginFlowView::initial(args, remote).step(LoginEventView::SessionChecked(true)) == (
            LoginFlowView::initial(args, remote).at(LoginStage::Done),
            seq![
                LoginActionView::Finish(
                    Err(crate::auth::login::AuthErrorView::AlreadyAuthenticated),
                ),
            ],
        ),
{
}

/// What an attempt has settled at each stage: nothing before the
/// method is known; for Identity Center first the start URL, then the
/// region, and both before any flow runs; for Builder ID neither, ever.
pub open spec fn endpoint_settled(flow: LoginFlowView) -> bool {
    match flow.stage {
        LoginStage::CheckingSession | LoginStage::ChoosingMethod => {
            flow.start_url is None && flow.region is None
        },
        LoginStage::LoadingStartUrl | LoginStage::AskingStartUrl => {
            flow.method == AuthMethod::IdentityCenter && flow.start_url is None && flow.region
                is None
        },
        LoginStage::LoadingRegion | LoginStage::AskingRegion => {
            flow.method == AuthMethod::IdentityCenter && flow.start_url is Some && flow.region
                is None
        },
        LoginStage::RunningPkce | LoginStage::RunningDevice | LoginStage::SelectingProfile => {
            match flow.method {
                AuthMethod::IdentityCenter => flow.start_url is Some && flow.region is Some,
                AuthMethod::BuilderId => flow.start_url is None && flow.region is None,
            }
        },
        LoginStage::Done => true,
    }
}

/// Whether `action` starts a grant flow under exactly this start URL
/// and region, or starts none.
pub open spec fn runs_under(
    action: LoginActionView,
    start_url: Option<Seq<char>>,
    region: Option<Seq<char>>,
) -> bool {
    match action {
        LoginActionView::RunPkce { start_url: u, region: r } => u == start_url && r == region,
        LoginActionView::RunDevice { start_url: u, region: r } => u == start_url && r == region,
        _ => true,
    }
}

/// A new attempt has settled nothing.
pub proof fn new_attempt_is_unsettled(args: LoginArgsView, remote: bool)
    ensures
        endpoint_settled(LoginFlowView::initial(args, remote)),
{
}

/// No step breaks what the attempt has settled, and every grant flow it
/// starts runs under the pair settled by then. So an Identity Center
/// flow never starts without both a start URL and a region, and a
/// Builder ID flow never carries either.
pub proof fn flows_start_settled(flow: LoginFlowView, event: LoginEventView)
    requires
        endpoint_settled(flow),
    ensures
        endpoint_settled(flow.step(event).0),
        forall|i: int|
            0 <= i < flow.step(event).1.len() ==> runs_under(
                #[trigger] flow.step(event).1[i],
                flow.step(event).0.start_url,
                flow.step(event).0.region,
            ),
        forall|i: int|
            0 <= i < flow.step(event).1.len() && ((#[trigger] flow.step(event).1[i]) is RunPkce
                || flow.step(event).1[i] is RunDevice) ==> (flow.step(event).0.method
                == AuthMethod::IdentityCenter ==> flow.step(event).0.start_url is Some
                && flow.step(event).0.region is Some),
{
}

} // verus!
