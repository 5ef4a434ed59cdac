//! Values shared by the sign-in flows.

use vstd::prelude::*;

verus! {

/// How the user signs in.
#[derive(Debug, Clone, Copy, PartialEq, Eq, Structural)]
pub enum AuthMethod {
    /// The free single-user identity; needs no endpoint.
    BuilderId,
    /// The enterprise identity; needs a start URL and a region.
    IdentityCenter,
}

impl AuthMethod {
    /// The line shown for this method in the method prompt.
    pub open spec fn label(self) -> Seq<char> {
        match self {
            AuthMethod::BuilderId => "Use for Free with Builder ID"@,
            AuthMethod::IdentityCenter => "Use with Pro license"@,
        }
    }

    /// Renders the method as the line shown in the method prompt.
    pub fn to_text(&self) -> (text: String)
        ensures
            text@ == self.label(),
    {
        match self {
            AuthMethod::BuilderId => "Use for Free with Builder ID".to_string(),
            AuthMethod::IdentityCenter => "Use with Pro license".to_string(),
        }
    }
}

/// Why a grant flow ended without a session.
#[derive(Debug, PartialEq, Eq)]
pub enum FlowError {
    /// The system browser could not be opened at the registration URL.
    BrowserLaunchFailed,
    /// The identity provider failed; the message is the provider's own.
    ProviderError(String),
    /// The user interrupted a wait.
    Cancelled,
}

/// Mathematical value of a [`FlowError`].
pub enum FlowErrorView {
    BrowserLaunchFailed,
    ProviderError(Seq<char>),
    Cancelled,
}

impl View for FlowError {
    type V = FlowErrorView;

    open spec fn view(&self) -> FlowErrorView {
        match self {
            FlowError::BrowserLaunchFailed => FlowErrorView::BrowserLaunchFailed,
            FlowError::ProviderError(message) => FlowErrorView::ProviderError(message@),
            FlowError::Cancelled => FlowErrorView::Cancelled,
        }
    }
}

/// How a grant flow ended, as a mathematical value.
pub type FlowEnd = Result<(), FlowErrorView>;

/// Mathematical value of the result with which a grant flow ends.
pub open spec fn flow_end(result: Result<(), FlowError>) -> FlowEnd {
    match result {
        Ok(()) => Ok(()),
        Err(e) => Err(e@),
    }
}

/// Copies an optional text.
pub fn copy_text(text: &Option<String>) -> (copy: Option<String>)
    ensures
        copy == *text,
{
    match text {
        Some(t) => Some(t.clone()),
        None => None,
    }
}

} // verus!
