//! What the session commands answer: who is signed in, the token for
//! export, and whether a profile may be chosen.
//!
//! Nothing here reads the store or prints: the caller loads the session
//! and writes what these functions return.

use vstd::prelude::*;
use crate::auth::login::{AuthError, AuthErrorView, SignedIn};
use crate::auth::model::copy_text;
use crate::auth::profile::{Profile, ProfileView, SelectError, SelectErrorView, SelectMode};
use crate::cli::json::{
    compact_object_text, describe, entry, pretty_object_text, render_compact, render_pretty,
};

verus! {

/// How a command ends for the shell.
#[derive(Debug, Clone, Copy, PartialEq, Eq, Structural)]
pub enum ExitStatus {
    /// The command did what it was asked.
    Success,
    /// The command failed or was declined.
    Failure,
    /// The user interrupted a wait; the process stops at once.
    Interrupted,
}

impl ExitStatus {
    /// The status as the shell sees it.
    pub open spec fn code_spec(self) -> u8 {
        match self {
            ExitStatus::Success => 0,
            ExitStatus::Failure => 1,
            ExitStatus::Interrupted => 130,
        }
    }

    /// Returns the status as the shell sees it: zero for success only,
    /// and a code of its own for an interruption.
    pub fn code(&self) -> (code: u8)
        ensures
            code == self.code_spec(),
            code == 0 <==> *self == ExitStatus::Success,
            *self == ExitStatus::Interrupted ==> code != ExitStatus::Failure.code_spec(),
    {
        match self {
            ExitStatus::Success => 0,
            ExitStatus::Failure => 1,
            ExitStatus::Interrupted => 130,
        }
    }
}

/// Which kind of identity a session belongs to.
#[derive(Debug, Clone, Copy, PartialEq, Eq, Structural)]
pub enum TokenType {
    BuilderId,
    IamIdentityCenter,
}

impl TokenType {
    /// The name under which the kind is reported.
    pub open spec fn label(self) -> Seq<char> {
        match self {
            TokenType::BuilderId => "BuilderId"@,
            TokenType::IamIdentityCenter => "IamIdentityCenter"@,
        }
    }

    /// Renders the kind as the name under which it is reported.
    pub fn to_text(&self) -> (text: String)
        ensures
            text@ == self.label(),
    {
        match self {
            TokenType::BuilderId => "BuilderId".to_string(),
            TokenType::IamIdentityCenter => "IamIdentityCenter".to_string(),
        }
    }
}

/// A signed-in session as the credential store keeps it.
#[derive(Debug, PartialEq, Eq)]
pub struct Session {
    /// The access token.
    pub access_token: String,
    /// The refresh token, where the provider gave one.
    pub refresh_token: Option<String>,
    /// Start URL signed in under.
    pub start_url: Option<String>,
    /// Region signed in under.
    pub region: Option<String>,
    /// Which kind of identity the session belongs to.
    pub token_type: TokenType,
}

/// Mathematical value of a [`Session`].
pub struct SessionView {
    pub access_token: Seq<char>,
    pub refresh_token: Option<Seq<char>>,
    pub start_url: Option<Seq<char>>,
    pub region: Option<Seq<char>>,
    pub token_type: TokenType,
}

impl View for Session {
    type V = SessionView;

    open spec fn view(&self) -> SessionView {
        SessionView {
            access_token: self.access_token@,
            refresh_token: self.refresh_token.deep_view(),
            start_url: self.start_url.deep_view(),
            region: self.region.deep_view(),
            token_type: self.token_type,
        }
    }
}

impl DeepView for Session {
    type V = SessionView;

    open spec fn deep_view(&self) -> SessionView {
        self@
    }
}

impl SessionView {
    /// An Identity Center session names the start URL it was made under.
    pub open spec fn well_formed(self) -> bool {
        self.token_type == TokenType::IamIdentityCenter ==> self.start_url is Some
    }

    /// The line that says who is signed in.
    pub open spec fn summary(self) -> Seq<char> {
        match self.token_type {
            TokenType::BuilderId => "Logged in with Builder ID"@,
            TokenType::IamIdentityCenter => "Logged in with IAM Identity Center ("@
                + self.start_url->0 + ")"@,
        }
    }

    /// The session as the entries of a JSON object.
    pub open spec fn account_entries(self) -> Seq<(Seq<char>, Option<Seq<char>>)> {
        seq![
            ("accountType"@, Some(self.token_type.label())),
            ("startUrl"@, self.start_url),
            ("region"@, self.region),
        ]
    }

    /// The session's tokens as the entries of a JSON object.
    pub open spec fn token_entries(self) -> Seq<(Seq<char>, Option<Seq<char>>)> {
        seq![("accessToken"@, Some(self.access_token)), ("refreshToken"@, self.refresh_token)]
    }
}

impl Session {
    /// Whether the session is well formed.
    pub fn is_well_formed(&self) -> (ok: bool)
        ensures
            ok == self@.well_formed(),
    {
        match self.token_type {
            TokenType::BuilderId => true,
            TokenType::IamIdentityCenter => self.start_url.is_some(),
        }
    }

    /// Renders the line that says who is signed in.
    pub fn summary(&self) -> (text: String)
        requires
            self@.well_formed(),
        ensures
            text@ == self@.summary(),
    {
        match self.token_type {
            TokenType::BuilderId => "Logged in with Builder ID".to_string(),
            TokenType::IamIdentityCenter => {
                let mut text = "Logged in with IAM Identity Center (".to_string();
                match &self.start_url {
                    Some(url) => text.append(url.as_str()),
                    None => {},
                }
                text.append(")");
                text
            },
        }
    }

    /// Lists the session as the entries of a JSON object.
    pub fn account_entries(&self) -> (entries: Vec<(String, Option<String>)>)
        ensures
            entries.deep_view() == self@.account_entries(),
    {
        let kind = entry("accountType", Some(self.token_type.to_text()));
        let url = entry("startUrl", copy_text(&self.start_url));
        let region = entry("region", copy_text(&self.region));
        let entries = vec![kind, url, region];
        assert(entries.deep_view() =~= seq![kind.deep_view(), url.deep_view(), region.deep_view()]);
        entries
    }

    /// Lists the session's tokens as the entries of a JSON object.
    pub fn token_entries(&self) -> (entries: Vec<(String, Option<String>)>)
        ensures
            entries.deep_view() == self@.token_entries(),
    {
        let access = entry("accessToken", Some(self.access_token.clone()));
        let refresh = entry("refreshToken", copy_text(&self.refresh_token));
        let entries = vec![access, refresh];
        assert(entries.deep_view() =~= seq![access.deep_view(), refresh.deep_view()]);
        entries
    }
}

/// Why a session command failed.
#[derive(Debug, PartialEq, Eq)]
pub enum CommandError {
    /// Nobody is signed in.
    NotLoggedIn,
    /// The command is for Identity Center sessions only.
    ProOnly,
    /// The answer could not be rendered as JSON.
    Serialize(String),
}

impl CommandError {
    /// The line shown to the user.
    pub open spec fn message_spec(self) -> Seq<char> {
        match self {
            CommandError::NotLoggedIn => "Not logged in"@,
            CommandError::ProOnly => "This command is only available for Pro users"@,
            CommandError::Serialize(message) => message@,
        }
    }

    /// Renders the line shown to the user.
    pub fn message(&self) -> (text: String)
        ensures
            text@ == self.message_spec(),
    {
        match self {
            CommandError::NotLoggedIn => "Not logged in".to_string(),
            CommandError::ProOnly => "This command is only available for Pro users".to_string(),
            CommandError::Serialize(message) => message.clone(),
        }
    }
}

/// Settles the answer of a command once its JSON is rendered: the text
/// as it is, or the failure with its message.
pub fn rendered_answer(rendered: Result<String, String>) -> (out: Result<String, CommandError>)
    ensures
        match rendered {
            Ok(text) => out matches Ok(t) && t@ == text@,
            Err(message) => out matches Err(CommandError::Serialize(m)) && m@ == message@,
        },
{
    match rendered {
        Ok(text) => Ok(text),
        Err(message) => Err(CommandError::Serialize(message)),
    }
}

/// Renders the entries as an indented JSON object. Rendering entries
/// of texts always succeeds.
pub fn pretty_json(entries: &Vec<(String, Option<String>)>) -> (out: Result<String, CommandError>)
    ensures
        out matches Ok(text) && text@ == pretty_object_text(entries.deep_view()),
{
    match render_pretty(entries) {
        Ok(text) => rendered_answer(Ok(text)),
        Err(error) => rendered_answer(Err(describe(&error))),
    }
}

/// Renders the entries as a JSON object on one line. Rendering entries
/// of texts always succeeds.
pub fn compact_json(entries: &Vec<(String, Option<String>)>) -> (out: Result<
    String,
    CommandError,
>)
    ensures
        out matches Ok(text) && text@ == compact_object_text(entries.deep_view()),
{
    match render_compact(entries) {
        Ok(text) => rendered_answer(Ok(text)),
        Err(error) => rendered_answer(Err(describe(&error))),
    }
}

/// Answers the token export: with a session, always its tokens as an
/// indented JSON object; without one, `NotLoggedIn`.
pub fn export_token(session: &Option<Session>) -> (out: Result<String, CommandError>)
    ensures
        match *session {
            None => out matches Err(CommandError::NotLoggedIn),
            Some(s) => out matches Ok(text) && text@ == pretty_object_text(s@.token_entries()),
        },
{
    match session {
        None => Err(CommandError::NotLoggedIn),
        Some(s) => pretty_json(&s.token_entries()),
    }
}

/// Decides whether a profile may be chosen: not with a Builder ID
/// session, which has no profiles. Otherwise selection runs as asked
/// for by the user, so that a prompt is always shown.
pub fn profile(session: &Option<Session>) -> (out: Result<SelectMode, CommandError>)
    ensures
        match *session {
            Some(s) => if s.token_type == TokenType::BuilderId {
                out matches Err(CommandError::ProOnly)
            } else {
                out == Ok::<SelectMode, CommandError>(SelectMode::Interactive)
            },
            None => out == Ok::<SelectMode, CommandError>(SelectMode::Interactive),
        },
{
    match session {
        Some(s) => match s.token_type {
            TokenType::BuilderId => Err(CommandError::ProOnly),
            TokenType::IamIdentityCenter => Ok(SelectMode::Interactive),
        },
        None => Ok(SelectMode::Interactive),
    }
}

/// What is said after signing out.
pub struct LogoutReport {
    /// The lines to show, in order.
    pub lines: Vec<String>,
    /// How the command ends.
    pub status: ExitStatus,
}

/// The lines shown after signing out.
pub open spec fn logout_lines(binary_name: Seq<char>, product_name: Seq<char>) -> Seq<Seq<char>> {
    seq![
        "You are now logged out"@,
        "Run "@ + binary_name + " login to log back in to "@ + product_name,
    ]
}

/// Answers the sign-out, which always succeeds: the caller clears the
/// session, whether or not that works, and shows these lines.
pub fn logout(binary_name: &str, product_name: &str) -> (report: LogoutReport)
    ensures
        report.lines.deep_view() == logout_lines(binary_name@, product_name@),
        report.status == ExitStatus::Success,
{
    let done = "You are now logged out".to_string();
    let mut hint = "Run ".to_string();
    hint.append(binary_name);
    hint.append(" login to log back in to ");
    hint.append(product_name);
    let lines = vec![done, hint];
    assert(lines.deep_view() =~= seq![done@, hint@]);
    LogoutReport { lines, status: ExitStatus::Success }
}

/// In which form an answer is written.
#[derive(Debug, Clone, Copy, PartialEq, Eq, Structural)]
pub enum OutputFormat {
    /// As a line of text.
    Plain,
    /// As JSON on one line.
    Json,
    /// As indented JSON.
    JsonPretty,
}

impl Default for OutputFormat {
    fn default() -> (format: OutputFormat)
        ensures
            format == OutputFormat::Plain,
    {
        OutputFormat::Plain
    }
}

/// What the user asked of `whoami`.
#[derive(Debug, Clone, PartialEq, Eq)]
pub struct WhoamiArgs {
    /// Output format to use.
    pub format: OutputFormat,
}

impl Default for WhoamiArgs {
    fn default() -> (args: WhoamiArgs)
        ensures
            args.format == OutputFormat::Plain,
    {
        WhoamiArgs { format: OutputFormat::Plain }
    }
}

/// What `whoami` answers.
#[derive(Debug, PartialEq, Eq)]
pub struct WhoamiReport {
    /// The answer in the format asked for.
    pub output: String,
    /// The active profile, where it is to be shown after the answer.
    pub profile: Option<Profile>,
    /// How the command ends.
    pub status: ExitStatus,
}

/// The line that says who is signed in, if anybody.
pub open spec fn whoami_text(session: Option<SessionView>) -> Seq<char> {
    match session {
        Some(s) => s.summary(),
        None => "Not logged in"@,
    }
}

/// Who is signed in, if anybody, as the entries of a JSON object.
pub open spec fn whoami_entries(session: Option<SessionView>) -> Seq<(Seq<char>, Option<Seq<char>>)> {
    match session {
        Some(s) => s.account_entries(),
        None => seq![("account"@, None)],
    }
}

/// The answer of `whoami` in the format asked for.
pub open spec fn whoami_output(format: OutputFormat, session: Option<SessionView>) -> Seq<char> {
    match format {
        OutputFormat::Plain => whoami_text(session),
        OutputFormat::Json => compact_object_text(whoami_entries(session)),
        OutputFormat::JsonPretty => pretty_object_text(whoami_entries(session)),
    }
}

/// Whether the active profile is asked for and shown: only with an
/// Identity Center session.
pub open spec fn shows_profile(session: Option<SessionView>) -> bool {
    session matches Some(s) && s.token_type == TokenType::IamIdentityCenter
}

/// The profile shown after the answer.
pub open spec fn shown_profile(
    session: Option<SessionView>,
    profile: Option<ProfileView>,
) -> Option<ProfileView> {
    if shows_profile(session) {
        profile
    } else {
        None
    }
}

/// How `whoami` ends: well where somebody is signed in.
pub open spec fn whoami_status(session: Option<SessionView>) -> ExitStatus {
    if session is Some {
        ExitStatus::Success
    } else {
        ExitStatus::Failure
    }
}

/// Lists who is signed in, if anybody, as the entries of a JSON object.
pub fn entries_of(session: &Option<Session>) -> (entries: Vec<(String, Option<String>)>)
    ensures
        entries.deep_view() == whoami_entries(session.deep_view()),
{
    match session {
        Some(s) => s.account_entries(),
        None => {
            let nobody = entry("account", None);
            let entries = vec![nobody];
            assert(entries.deep_view() =~= seq![nobody.deep_view()]);
            entries
        },
    }
}

impl WhoamiArgs {
    /// Whether the caller is to read the active profile from the store
    /// before it asks for the answer.
    pub fn wants_profile(session: &Option<Session>) -> (wanted: bool)
        ensures
            wanted == shows_profile(session.deep_view()),
    {
        match session {
            Some(s) => s.token_type == TokenType::IamIdentityCenter,
            None => false,
        }
    }

    /// Puts the answer together once its text is there.
    pub fn report(output: String, session: &Option<Session>, profile: &Option<Profile>) -> (report:
        WhoamiReport)
        ensures
            report.output@ == output@,
            report.profile.deep_view() == shown_profile(session.deep_view(), profile.deep_view()),
            report.status == whoami_status(session.deep_view()),
    {
        let shown = if Self::wants_profile(session) {
            match profile {
                Some(p) => Some(p.duplicate()),
                None => None,
            }
        } else {
            None
        };
        let status = if session.is_some() {
            ExitStatus::Success
        } else {
            ExitStatus::Failure
        };
        WhoamiReport { output, profile: shown, status }
    }

    /// Answers who is signed in, which always succeeds: `session` is
    /// what the store holds, nothing where it could not be read, and
    /// `profile` the active profile where `wants_profile` asked for it.
    /// The plain line names the start URL of an Identity Center
    /// session, which therefore has to be there.
    pub fn execute(&self, session: &Option<Session>, profile: &Option<Profile>) -> (out: Result<
        WhoamiReport,
        CommandError,
    >)
        requires
            self.format == OutputFormat::Plain ==> (session matches Some(s) ==> s@.well_formed()),
        ensures
            out matches Ok(report) && {
                &&& report.output@ == whoami_output(self.format, session.deep_view())
                &&& report.profile.deep_view() == shown_profile(
                    session.deep_view(),
                    profile.deep_view(),
                )
                &&& report.status == whoami_status(session.deep_view())
            },
    {
        let output = match self.format {
            OutputFormat::Plain => match session {
                Some(s) => Ok(s.summary()),
                None => Ok("Not logged in".to_string()),
            },
            OutputFormat::Json => compact_json(&entries_of(session)),
            OutputFormat::JsonPretty => pretty_json(&entries_of(session)),
        };
        match output {
            Ok(text) => Ok(Self::report(text, session, profile)),
            Err(e) => Err(e),
        }
    }
}

/// The subcommands of `user`.
#[derive(Debug, Clone, Copy, PartialEq, Eq, Structural)]
pub enum UserSubcommand {
    /// Choose the working profile.
    Profile,
    /// Print the session's tokens.
    ExportToken,
}

/// What the user asked of `user`.
#[derive(Debug, Clone, PartialEq, Eq)]
pub struct UserArgs {
    pub subcommand: UserSubcommand,
}

/// What the caller is to do for a `user` subcommand.
#[derive(Debug, PartialEq, Eq)]
pub enum UserAnswer {
    /// Run profile selection in this mode.
    SelectProfile(SelectMode),
    /// Print this text.
    Print(String),
}

impl UserArgs {
    /// Answers the subcommand: for `Profile` what `profile` decides, for
    /// `ExportToken` what `export_token` answers.
    pub fn execute(&self, session: &Option<Session>) -> (out: Result<UserAnswer, CommandError>)
        ensures
            match self.subcommand {
                UserSubcommand::Profile => match *session {
                    Some(s) => if s.token_type == TokenType::BuilderId {
                        out matches Err(CommandError::ProOnly)
                    } else {
                        out matches Ok(UserAnswer::SelectProfile(SelectMode::Interactive))
                    },
                    None => out matches Ok(UserAnswer::SelectProfile(SelectMode::Interactive)),
                },
                UserSubcommand::ExportToken => match *session {
                    None => out matches Err(CommandError::NotLoggedIn),
                    Some(s) => out matches Ok(UserAnswer::Print(text)) && text@
                        == pretty_object_text(s@.token_entries()),
                },
            },
    {
        match self.subcommand {
            UserSubcommand::Profile => match profile(session) {
                Ok(mode) => Ok(UserAnswer::SelectProfile(mode)),
                Err(e) => Err(e),
            },
            UserSubcommand::ExportToken => match export_token(session) {
                Ok(text) => Ok(UserAnswer::Print(text)),
                Err(e) => Err(e),
            },
        }
    }
}

/// The line shown when signing in failed. A provider's, the store's and
/// a prompt's own message is shown as it is; an interruption has no
/// line of its own.
pub open spec fn login_failure_line(error: AuthErrorView, binary_name: Seq<char>) -> Seq<char> {
    match error {
        AuthErrorView::AlreadyAuthenticated => "Already logged in, please logout with "@
            + binary_name + " logout first"@,
        AuthErrorView::NoMethodSelected => "No login method selected"@,
        AuthErrorView::NoProfileSelected => "No profile selected.\n"@,
        AuthErrorView::BrowserLaunchFailed => "Failed to open URL with browser"@,
        AuthErrorView::ProviderError(message) => message,
        AuthErrorView::Cancelled => Seq::empty(),
        AuthErrorView::Store(message) => message,
        AuthErrorView::Prompt(message) => message,
    }
}

/// Renders the line shown when signing in failed.
pub fn login_failure_message(error: &AuthError, binary_name: &str) -> (line: String)
    ensures
        line@ == login_failure_line(error@, binary_name@),
{
    match error {
        AuthError::AlreadyAuthenticated => {
            let mut line = "Already logged in, please logout with ".to_string();
            line.append(binary_name);
            line.append(" logout first");
            line
        },
        AuthError::NoMethodSelected => "No login method selected".to_string(),
        AuthError::NoProfileSelected => "No profile selected.\n".to_string(),
        AuthError::BrowserLaunchFailed => "Failed to open URL with browser".to_string(),
        AuthError::ProviderError(message) => message.clone(),
        AuthError::Cancelled => String::new(),
        AuthError::Store(message) => message.clone(),
        AuthError::Prompt(message) => message.clone(),
    }
}

/// How signing in ends for the shell: well on success, as interrupted
/// where the user interrupted a wait, and as failed otherwise.
pub open spec fn login_status_of(result: Result<SignedIn, AuthError>) -> ExitStatus {
    match result {
        Ok(_) => ExitStatus::Success,
        Err(AuthError::Cancelled) => ExitStatus::Interrupted,
        Err(_) => ExitStatus::Failure,
    }
}

/// Decides how signing in ends for the shell.
pub fn login_status(result: &Result<SignedIn, AuthError>) -> (status: ExitStatus)
    ensures
        status == login_status_of(*result),
{
    match result {
        Ok(_) => ExitStatus::Success,
        Err(AuthError::Cancelled) => ExitStatus::Interrupted,
        Err(_) => ExitStatus::Failure,
    }
}

/// The line shown when profile selection failed.
pub open spec fn select_failure_line(error: SelectErrorView) -> Seq<char> {
    match error {
        SelectErrorView::NoProfileSelected => "No profile selected.\n"@,
        SelectErrorView::Provider(message) => message,
        SelectErrorView::Store(message) => message,
        SelectErrorView::Prompt(message) => message,
    }
}

/// Renders the line shown when profile selection failed.
pub fn select_failure_message(error: &SelectError) -> (line: String)
    ensures
        line@ == select_failure_line(error@),
{
    match error {
        SelectError::NoProfileSelected => "No profile selected.\n".to_string(),
        SelectError::Provider(message) => message.clone(),
        SelectError::Store(message) => message.clone(),
        SelectError::Prompt(message) => message.clone(),
    }
}

/// Decides how profile selection ends for the shell: well on success,
/// as failed otherwise.
pub fn select_status(result: &Result<(), SelectError>) -> (status: ExitStatus)
    ensures
        status == (if result is Ok {
            ExitStatus::Success
        } else {
            ExitStatus::Failure
        }),
{
    match result {
        Ok(_) => ExitStatus::Success,
        Err(_) => ExitStatus::Failure,
    }
}

} // verus!
