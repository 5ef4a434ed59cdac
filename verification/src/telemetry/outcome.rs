//! Small closed vocabularies carried by telemetry events.

use vstd::prelude::*;

verus! {

/// How an operation that is reported to telemetry ended.
#[derive(Debug, Copy, Clone, PartialEq, Eq, Structural)]
pub enum TelemetryResult {
    Succeeded,
    Failed,
    Cancelled,
}

impl TelemetryResult {
    /// The word under which the result is reported.
    pub open spec fn label(self) -> Seq<char> {
        match self {
            TelemetryResult::Succeeded => "Succeeded"@,
            TelemetryResult::Failed => "Failed"@,
            TelemetryResult::Cancelled => "Cancelled"@,
        }
    }

    /// Renders the result as its variant name.
    pub fn to_text(&self) -> (text: String)
        ensures
            text@ == self.label(),
    {
        match self {
            TelemetryResult::Succeeded => "Succeeded".to_string(),
            TelemetryResult::Failed => "Failed".to_string(),
            TelemetryResult::Cancelled => "Cancelled".to_string(),
        }
    }

    /// Reads a result back from its variant name; any other text is
    /// no result.
    pub fn parse(text: &str) -> (parsed: Option<TelemetryResult>)
        ensures
            parsed matches Some(r) ==> r.label() == text@,
            parsed is None ==> forall|r: TelemetryResult| r.label() != text@,
    {
        if same_text(text, "Succeeded") {
            Some(TelemetryResult::Succeeded)
        } else if same_text(text, "Failed") {
            Some(TelemetryResult::Failed)
        } else if same_text(text, "Cancelled") {
            Some(TelemetryResult::Cancelled)
        } else {
            None
        }
    }
}

/// Who or what caused a change of profile.
#[derive(Debug, Copy, Clone, PartialEq, Eq, Structural)]
pub enum QProfileSwitchIntent {
    /// The user, through the profile command.
    User,
    /// The user, while signing in.
    Auth,
    /// The client, because only one profile exists.
    Update,
    /// The client, reloading the profile chosen earlier.
    Reload,
}

impl QProfileSwitchIntent {
    /// The word under which the intent is reported.
    pub open spec fn label(self) -> Seq<char> {
        match self {
            QProfileSwitchIntent::User => "User"@,
            QProfileSwitchIntent::Auth => "Auth"@,
            QProfileSwitchIntent::Update => "Update"@,
            QProfileSwitchIntent::Reload => "Reload"@,
        }
    }

    /// Renders the intent as its variant name.
    pub fn to_text(&self) -> (text: String)
        ensures
            text@ == self.label(),
    {
        match self {
            QProfileSwitchIntent::User => "User".to_string(),
            QProfileSwitchIntent::Auth => "Auth".to_string(),
            QProfileSwitchIntent::Update => "Update".to_string(),
            QProfileSwitchIntent::Reload => "Reload".to_string(),
        }
    }

    /// Reads an intent back from its variant name; any other text is
    /// no intent.
    pub fn parse(text: &str) -> (parsed: Option<QProfileSwitchIntent>)
        ensures
            parsed matches Some(i) ==> i.label() == text@,
            parsed is None ==> forall|i: QProfileSwitchIntent| i.label() != text@,
    {
        if same_text(text, "User") {
            Some(QProfileSwitchIntent::User)
        } else if same_text(text, "Auth") {
            Some(QProfileSwitchIntent::Auth)
        } else if same_text(text, "Update") {
            Some(QProfileSwitchIntent::Update)
        } else if same_text(text, "Reload") {
            Some(QProfileSwitchIntent::Reload)
        } else {
            None
        }
    }
}

/// What the user did with a suggestion.
#[derive(Debug, Clone, Copy, PartialEq, Eq, Structural)]
pub enum SuggestionState {
    Accept,
    Discard,
    Empty,
    Reject,
}

impl SuggestionState {
    /// Whether the suggestion was accepted.
    pub fn is_accepted(&self) -> (accepted: bool)
        ensures
            accepted == (*self == SuggestionState::Accept),
    {
        matches!(self, SuggestionState::Accept)
    }
}

/// Whether two texts hold the same characters.
pub fn same_text(a: &str, b: &str) -> (same: bool)
    ensures
        same == (a@ == b@),
{
    let left = a.to_owned();
    let right = b.to_owned();
    left == right
}

} // verus!
