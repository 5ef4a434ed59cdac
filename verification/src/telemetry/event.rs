//! The telemetry event: what happened, when, and under which sign-in.

use std::time::SystemTime;
use vstd::prelude::*;
use crate::telemetry::outcome::{QProfileSwitchIntent, TelemetryResult};

verus! {

/// A point in time as the system clock gives it; opaque to the proofs.
#[verifier::external_type_specification]
#[verifier::external_body]
pub struct ExSystemTime(SystemTime);

/// What happened.
#[derive(Debug, Clone, PartialEq)]
#[allow(inconsistent_fields)]
pub enum EventType {
    UserLoggedIn {  },
    RefreshCredentials {
        request_id: String,
        result: TelemetryResult,
        reason: Option<String>,
        oauth_flow: String,
    },
    CliSubcommandExecuted { subcommand: String },
    ChatSlashCommandExecuted {
        conversation_id: String,
        command: String,
        subcommand: Option<String>,
        result: TelemetryResult,
        reason: Option<String>,
    },
    ChatStart { conversation_id: String, model: Option<String> },
    ChatEnd { conversation_id: String, model: Option<String> },
    ChatAddedMessage {
        conversation_id: String,
        message_id: Option<String>,
        request_id: Option<String>,
        context_file_length: Option<usize>,
        result: TelemetryResult,
        reason: Option<String>,
        reason_desc: Option<String>,
        status_code: Option<u16>,
        model: Option<String>,
    },
    ToolUseSuggested {
        conversation_id: String,
        utterance_id: Option<String>,
        user_input_id: Option<String>,
        tool_use_id: Option<String>,
        tool_name: Option<String>,
        is_accepted: bool,
        is_success: Option<bool>,
        is_valid: Option<bool>,
        is_custom_tool: bool,
        input_token_size: Option<usize>,
        output_token_size: Option<usize>,
        custom_tool_call_latency: Option<usize>,
        model: Option<String>,
    },
    McpServerInit {
        conversation_id: String,
        init_failure_reason: Option<String>,
        number_of_tools: usize,
    },
    DidSelectProfile {
        source: QProfileSwitchIntent,
        amazonq_profile_region: String,
        result: TelemetryResult,
        sso_region: Option<String>,
        profile_count: Option<i64>,
    },
    ProfileState {
        source: QProfileSwitchIntent,
        amazonq_profile_region: String,
        result: TelemetryResult,
        sso_region: Option<String>,
    },
    MessageResponseError {
        result: TelemetryResult,
        reason: Option<String>,
        reason_desc: Option<String>,
        status_code: Option<u16>,
        conversation_id: String,
        context_file_length: Option<usize>,
    },
}

/// Mathematical value of an [`EventType`].
#[allow(inconsistent_fields)]
pub enum EventTypeView {
    UserLoggedIn,
    RefreshCredentials {
        request_id: Seq<char>,
        result: TelemetryResult,
        reason: Option<Seq<char>>,
        oauth_flow: Seq<char>,
    },
    CliSubcommandExecuted { subcommand: Seq<char> },
    ChatSlashCommandExecuted {
        conversation_id: Seq<char>,
        command: Seq<char>,
        subcommand: Option<Seq<char>>,
        result: TelemetryResult,
        reason: Option<Seq<char>>,
    },
    ChatStart { conversation_id: Seq<char>, model: Option<Seq<char>> },
    ChatEnd { conversation_id: Seq<char>, model: Option<Seq<char>> },
    ChatAddedMessage {
        conversation_id: Seq<char>,
        message_id: Option<Seq<char>>,
        request_id: Option<Seq<char>>,
        context_file_length: Option<usize>,
        result: TelemetryResult,
        reason: Option<Seq<char>>,
        reason_desc: Option<Seq<char>>,
        status_code: Option<u16>,
        model: Option<Seq<char>>,
    },
    ToolUseSuggested {
        conversation_id: Seq<char>,
        utterance_id: Option<Seq<char>>,
        user_input_id: Option<Seq<char>>,
        tool_use_id: Option<Seq<char>>,
        tool_name: Option<Seq<char>>,
        is_accepted: bool,
        is_success: Option<bool>,
        is_valid: Option<bool>,
        is_custom_tool: bool,
        input_token_size: Option<usize>,
        output_token_size: Option<usize>,
        custom_tool_call_latency: Option<usize>,
        model: Option<Seq<char>>,
    },
    McpServerInit {
        conversation_id: Seq<char>,
        init_failure_reason: Option<Seq<char>>,
        number_of_tools: usize,
    },
    DidSelectProfile {
        source: QProfileSwitchIntent,
        amazonq_profile_region: Seq<char>,
        result: TelemetryResult,
        sso_region: Option<Seq<char>>,
        profile_count: Option<i64>,
    },
    ProfileState {
        source: QProfileSwitchIntent,
        amazonq_profile_region: Seq<char>,
        result: TelemetryResult,
        sso_region: Option<Seq<char>>,
    },
    MessageResponseError {
        result: TelemetryResult,
        reason: Option<Seq<char>>,
        reason_desc: Option<Seq<char>>,
        status_code: Option<u16>,
        conversation_id: Seq<char>,
        context_file_length: Option<usize>,
    },
}

impl View for EventType {
    type V = EventTypeView;

    open spec fn view(&self) -> EventTypeView {
        match self {
            EventType::UserLoggedIn {  } => EventTypeView::UserLoggedIn,
            EventType::RefreshCredentials { request_id, result, reason, oauth_flow } => {
                EventTypeView::RefreshCredentials {
                    request_id: request_id@,
                    result: *result,
                    reason: reason.deep_view(),
                    oauth_flow: oauth_flow@,
                }
            },
            EventType::CliSubcommandExecuted { subcommand } => {
                EventTypeView::CliSubcommandExecuted { subcommand: subcommand@ }
            },
            EventType::ChatSlashCommandExecuted {
                conversation_id,
                command,
                subcommand,
                result,
                reason,
            } => EventTypeView::ChatSlashCommandExecuted {
                conversation_id: conversation_id@,
                command: command@,
                subcommand: subcommand.deep_view(),
                result: *result,
                reason: reason.deep_view(),
            },
            EventType::ChatStart { conversation_id, model } => EventTypeView::ChatStart {
                conversation_id: conversation_id@,
                model: model.deep_view(),
            },
            EventType::ChatEnd { conversation_id, model } => EventTypeView::ChatEnd {
                conversation_id: conversation_id@,
                model: model.deep_view(),
            },
            EventType::ChatAddedMessage {
                conversation_id,
                message_id,
                request_id,
                context_file_length,
                result,
                reason,
                reason_desc,
                status_code,
                model,
            } => EventTypeView::ChatAddedMessage {
                conversation_id: conversation_id@,
                message_id: message_id.deep_view(),
                request_id: request_id.deep_view(),
                context_file_length: *context_file_length,
                result: *result,
                reason: reason.deep_view(),
                reason_desc: reason_desc.deep_view(),
                status_code: *status_code,
                model: model.deep_view(),
            },
            EventType::ToolUseSuggested {
                conversation_id,
                utterance_id,
                user_input_id,
                tool_use_id,
                tool_name,
                is_accepted,
                is_success,
                is_valid,
                is_custom_tool,
                input_token_size,
                output_token_size,
                custom_tool_call_latency,
                model,
            } => EventTypeView::ToolUseSuggested {
                conversation_id: conversation_id@,
                utterance_id: utterance_id.deep_view(),
                user_input_id: user_input_id.deep_view(),
                tool_use_id: tool_use_id.deep_view(),
                tool_name: tool_name.deep_view(),
                is_accepted: *is_accepted,
                is_success: *is_success,
                is_valid: *is_valid,
                is_custom_tool: *is_custom_tool,
                input_token_size: *input_token_size,
                output_token_size: *output_token_size,
                custom_tool_call_latency: *custom_tool_call_latency,
                model: model.deep_view(),
            },
            EventType::McpServerInit { conversation_id, init_failure_reason, number_of_tools } => {
                EventTypeView::McpServerInit {
                    conversation_id: conversation_id@,
                    init_failure_reason: init_failure_reason.deep_view(),
                    number_of_tools: *number_of_tools,
                }
            },
            EventType::DidSelectProfile {
                source,
                amazonq_profile_region,
                result,
                sso_region,
                profile_count,
            } => EventTypeView::DidSelectProfile {
                source: *source,
                amazonq_profile_region: amazonq_profile_region@,
                result: *result,
                sso_region: sso_region.deep_view(),
                profile_count: *profile_count,
            },
            EventType::ProfileState { source, amazonq_profile_region, result, sso_region } => {
                EventTypeView::ProfileState {
                    source: *source,
                    amazonq_profile_region: amazonq_profile_region@,
                    result: *result,
                    sso_region: sso_region.deep_view(),
                }
            },
            EventType::MessageResponseError {
                result,
                reason,
                reason_desc,
                status_code,
                conversation_id,
                context_file_length,
            } => EventTypeView::MessageResponseError {
                result: *result,
                reason: reason.deep_view(),
                reason_desc: reason_desc.deep_view(),
                status_code: *status_code,
                conversation_id: conversation_id@,
                context_file_length: *context_file_length,
            },
        }
    }
}

/// A telemetry event that can be sent or queued.
#[derive(Debug, Clone, PartialEq)]
pub struct Event {
    /// When the event was created.
    pub created_time: Option<SystemTime>,
    /// Start URL of the sign-in under which it happened.
    pub credential_start_url: Option<String>,
    /// Region of the identity provider under which it happened.
    pub sso_region: Option<String>,
    /// What happened.
    pub ty: EventType,
}

/// Mathematical value of an [`Event`].
pub struct EventView {
    pub created_time: Option<SystemTime>,
    pub credential_start_url: Option<Seq<char>>,
    pub sso_region: Option<Seq<char>>,
    pub ty: EventTypeView,
}

impl View for Event {
    type V = EventView;

    open spec fn view(&self) -> EventView {
        EventView {
            created_time: self.created_time,
            credential_start_url: self.credential_start_url.deep_view(),
            sso_region: self.sso_region.deep_view(),
            ty: self.ty@,
        }
    }
}

/// Reads the system clock through `SystemTime::now`. Nothing is claimed
/// of the time it returns.
#[verifier::external_body]
fn current_time() -> SystemTime {
    SystemTime::now()
}

impl Event {
    /// Creates an event of the given type, stamped with the current
    /// time and not yet tied to a sign-in.
    pub fn new(ty: EventType) -> (event: Event)
        ensures
            event@.ty == ty@,
            event@.created_time is Some,
            event@.credential_start_url is None,
            event@.sso_region is None,
    {
        Event {
            ty,
            created_time: Some(current_time()),
            credential_start_url: None,
            sso_region: None,
        }
    }

    /// Ties the event to a start URL; nothing else changes.
    pub fn set_start_url(&mut self, start_url: String)
        ensures
            final(self)@ == (EventView { credential_start_url: Some(start_url@), ..old(self)@ }),
    {
        self.credential_start_url = Some(start_url);
    }

    /// Ties the event to an identity-provider region; nothing else changes.
    pub fn set_sso_region(&mut self, sso_region: String)
        ensures
            final(self)@ == (EventView { sso_region: Some(sso_region@), ..old(self)@ }),
    {
        self.sso_region = Some(sso_region);
    }
}

} // verus!
