//! What a sign-in is asked for and how it can end: the arguments of the
//! command, the method they settle, the session, and the errors.

use vstd::prelude::*;
use crate::auth::model::{AuthMethod, FlowError, FlowErrorView};
use crate::auth::profile::{SelectError, SelectErrorView};

verus! {

/// The license named on the command line.
#[derive(Debug, Clone, Copy, PartialEq, Eq, Structural)]
pub enum LicenseType {
    /// Free license with Builder ID.
    Free,
    /// Pro license with Identity Center.
    Pro,
}

impl LicenseType {
    /// The sign-in method that goes with the license.
    pub open spec fn method_spec(self) -> AuthMethod {
        match self {
            LicenseType::Free => AuthMethod::BuilderId,
            LicenseType::Pro => AuthMethod::IdentityCenter,
        }
    }

    /// Returns the sign-in method that goes with the license.
    pub fn method(&self) -> (method: AuthMethod)
        ensures
            method == self.method_spec(),
    {
        match self {
            LicenseType::Free => AuthMethod::BuilderId,
            LicenseType::Pro => AuthMethod::IdentityCenter,
        }
    }
}

/// The method that is settled without asking, if any: the explicit one
/// whatever else is given; else Identity Center where both a start URL
/// and a region are given; else none, and the user is asked.
pub open spec fn settled_method(
    explicit: Option<AuthMethod>,
    has_start_url: bool,
    has_region: bool,
) -> Option<AuthMethod> {
    match explicit {
        Some(method) => Some(method),
        None => if has_start_url && has_region {
            Some(AuthMethod::IdentityCenter)
        } else {
            None
        },
    }
}

/// Settles the sign-in method where that needs no prompt.
pub fn resolve_method(explicit: Option<AuthMethod>, has_start_url: bool, has_region: bool) -> (method:
    Option<AuthMethod>)
    ensures
        method == settled_method(explicit, has_start_url, has_region),
        explicit is Some ==> method == explicit,
        explicit is None && has_start_url && has_region ==> method == Some(
            AuthMethod::IdentityCenter,
        ),
        explicit is None && !(has_start_url && has_region) ==> method is None,
{
    match explicit {
        Some(method) => Some(method),
        None => if has_start_url && has_region {
            Some(AuthMethod::IdentityCenter)
        } else {
            None
        },
    }
}

/// The methods offered by the method prompt, in the order shown.
pub open spec fn offered_methods() -> Seq<AuthMethod> {
    seq![AuthMethod::BuilderId, AuthMethod::IdentityCenter]
}

/// Returns the methods offered by the method prompt, in the order shown.
pub fn method_options() -> (options: Vec<AuthMethod>)
    ensures
        options@ == offered_methods(),
{
    let options = vec![AuthMethod::BuilderId, AuthMethod::IdentityCenter];
    assert(options@ =~= offered_methods());
    options
}

/// What the user asked for on the command line.
#[derive(Debug, PartialEq, Eq)]
pub struct LoginArgs {
    /// License type (pro for Identity Center, free for Builder ID).
    pub license: Option<LicenseType>,
    /// Identity provider URL (for Identity Center).
    pub identity_provider: Option<String>,
    /// Region (for Identity Center).
    pub region: Option<String>,
    /// Always use the device-code flow, for where browser redirects
    /// cannot be handled.
    pub use_device_flow: bool,
}

/// Mathematical value of [`LoginArgs`].
pub struct LoginArgsView {
    pub license: Option<LicenseType>,
    pub identity_provider: Option<Seq<char>>,
    pub region: Option<Seq<char>>,
    pub use_device_flow: bool,
}

impl View for LoginArgs {
    type V = LoginArgsView;

    open spec fn view(&self) -> LoginArgsView {
        LoginArgsView {
            license: self.license,
            identity_provider: self.identity_provider.deep_view(),
            region: self.region.deep_view(),
            use_device_flow: self.use_device_flow,
        }
    }
}

impl LoginArgsView {
    /// The method named outright, if any.
    pub open spec fn explicit_method(self) -> Option<AuthMethod> {
        match self.license {
            Some(license) => Some(license.method_spec()),
            None => None,
        }
    }

    /// The method that is settled without asking, if any.
    pub open spec fn method(self) -> Option<AuthMethod> {
        settled_method(
            self.explicit_method(),
            self.identity_provider is Some,
            self.region is Some,
        )
    }
}

impl Default for LoginArgs {
    fn default() -> (args: LoginArgs)
        ensures
            args@ == (LoginArgsView {
                license: None,
                identity_provider: None,
                region: None,
                use_device_flow: false,
            }),
    {
        LoginArgs { license: None, identity_provider: None, region: None, use_device_flow: false }
    }
}

impl LoginArgs {
    /// Returns the method named outright, if any.
    pub fn explicit_method(&self) -> (method: Option<AuthMethod>)
        ensures
            method == self@.explicit_method(),
    {
        match &self.license {
            Some(license) => Some(license.method()),
            None => None,
        }
    }

    /// Returns the method that is settled without asking, if any.
    pub fn method(&self) -> (method: Option<AuthMethod>)
        ensures
            method == self@.method(),
    {
        resolve_method(
            self.explicit_method(),
            self.identity_provider.is_some(),
            self.region.is_some(),
        )
    }
}

/// Why signing in failed.
#[derive(Debug, PartialEq, Eq)]
pub enum AuthError {
    /// Somebody is signed in already.
    AlreadyAuthenticated,
    /// The user left the method prompt without choosing.
    NoMethodSelected,
    /// The user left the profile prompt without choosing.
    NoProfileSelected,
    /// The browser could not be opened.
    BrowserLaunchFailed,
    /// The identity provider failed; the message is the provider's own.
    ProviderError(String),
    /// The user interrupted a wait.
    Cancelled,
    /// The credential store could not be read or written.
    Store(String),
    /// A prompt could not be shown.
    Prompt(String),
}

/// Mathematical value of an [`AuthError`].
pub enum AuthErrorView {
    AlreadyAuthenticated,
    NoMethodSelected,
    NoProfileSelected,
    BrowserLaunchFailed,
    ProviderError(Seq<char>),
    Cancelled,
    Store(Seq<char>),
    Prompt(Seq<char>),
}

impl View for AuthError {
    type V = AuthErrorView;

    open spec fn view(&self) -> AuthErrorView {
        match self {
            AuthError::AlreadyAuthenticated => AuthErrorView::AlreadyAuthenticated,
            AuthError::NoMethodSelected => AuthErrorView::NoMethodSelected,
            AuthError::NoProfileSelected => AuthErrorView::NoProfileSelected,
            AuthError::BrowserLaunchFailed => AuthErrorView::BrowserLaunchFailed,
            AuthError::ProviderError(message) => AuthErrorView::ProviderError(message@),
            AuthError::Cancelled => AuthErrorView::Cancelled,
            AuthError::Store(message) => AuthErrorView::Store(message@),
            AuthError::Prompt(message) => AuthErrorView::Prompt(message@),
        }
    }
}

/// The sign-in error that a grant flow's error becomes, unchanged in
/// kind and message.
pub open spec fn flow_failure(error: FlowErrorView) -> AuthErrorView {
    match error {
        FlowErrorView::BrowserLaunchFailed => AuthErrorView::BrowserLaunchFailed,
        FlowErrorView::ProviderError(message) => AuthErrorView::ProviderError(message),
        FlowErrorView::Cancelled => AuthErrorView::Cancelled,
    }
}

/// The sign-in error that a profile-selection error becomes, unchanged
/// in kind and message.
pub open spec fn select_failure(error: SelectErrorView) -> AuthErrorView {
    match error {
        SelectErrorView::NoProfileSelected => AuthErrorView::NoProfileSelected,
        SelectErrorView::Provider(message) => AuthErrorView::ProviderError(message),
        SelectErrorView::Store(message) => AuthErrorView::Store(message),
        SelectErrorView::Prompt(message) => AuthErrorView::Prompt(message),
    }
}

impl AuthError {
    /// Turns a grant flow's error into the sign-in error.
    pub fn from_flow(error: FlowError) -> (out: AuthError)
        ensures
            out@ == flow_failure(error@),
    {
        match error {
            FlowError::BrowserLaunchFailed => AuthError::BrowserLaunchFailed,
            FlowError::ProviderError(message) => AuthError::ProviderError(message),
            FlowError::Cancelled => AuthError::Cancelled,
        }
    }

    /// Turns a profile-selection error into the sign-in error.
    pub fn from_select(error: SelectError) -> (out: AuthError)
        ensures
            out@ == select_failure(error@),
    {
        match error {
            SelectError::NoProfileSelected => AuthError::NoProfileSelected,
            SelectError::Provider(message) => AuthError::ProviderError(message),
            SelectError::Store(message) => AuthError::Store(message),
            SelectError::Prompt(message) => AuthError::Prompt(message),
        }
    }
}

/// The session that signing in produced, without its token material.
#[derive(Debug, PartialEq, Eq)]
pub struct SignedIn {
    /// The method signed in with; it decides the session's token type.
    pub method: AuthMethod,
    /// Start URL signed in under; none for Builder ID.
    pub start_url: Option<String>,
    /// Region signed in under; none for Builder ID.
    pub region: Option<String>,
}

/// Mathematical value of [`SignedIn`].
pub struct SignedInView {
    pub method: AuthMethod,
    pub start_url: Option<Seq<char>>,
    pub region: Option<Seq<char>>,
}

impl View for SignedIn {
    type V = SignedInView;

    open spec fn view(&self) -> SignedInView {
        SignedInView {
            method: self.method,
            start_url: self.start_url.deep_view(),
            region: self.region.deep_view(),
        }
    }
}

/// How signing in ended, as a mathematical value.
pub type LoginEnd = Result<SignedInView, AuthErrorView>;

/// Mathematical value of the result with which signing in ends.
pub open spec fn login_end(result: Result<SignedIn, AuthError>) -> LoginEnd {
    match result {
        Ok(session) => Ok(session@),
        Err(e) => Err(e@),
    }
}

} // verus!
