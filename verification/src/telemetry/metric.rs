//! The metric that stands for an event when it is sent: which metric it
//! is, and which of its fields the event fills.

use std::time::SystemTime;
use vstd::prelude::*;
use crate::telemetry::event::{Event, EventType, EventTypeView, EventView};

verus! {

/// The metrics that events are sent as.
#[derive(Debug, Clone, Copy, PartialEq, Eq, Structural)]
pub enum MetricKind {
    UserLoggedIn,
    RefreshCredentials,
    CliSubcommandExecuted,
    ChatSlashCommandExecuted,
    StartChat,
    EndChat,
    AddChatMessage,
    ToolUseSuggested,
    McpServerInit,
    DidSelectProfile,
    ProfileState,
    MessageResponseError,
}

/// The fields that metrics have.
#[derive(Debug, Clone, Copy, PartialEq, Eq, Structural)]
pub enum MetricField {
    CredentialStartUrl,
    SsoRegion,
    InCloudshell,
    RequestId,
    Result,
    Reason,
    ReasonDesc,
    StatusCode,
    OauthFlow,
    Subcommand,
    ConversationId,
    ChatSlashCommand,
    ChatSlashSubcommand,
    Model,
    UtteranceId,
    UserInputId,
    ContextFileLength,
    ToolUseId,
    ToolName,
    IsToolUseAccepted,
    IsToolValid,
    ToolUseIsSuccess,
    IsCustomTool,
    CustomToolInputTokenSize,
    CustomToolOutputTokenSize,
    CustomToolLatency,
    McpServerInitFailureReason,
    ToolsPerMcpServer,
    Source,
    ProfileRegion,
    ProfileCount,
}

/// What a field of a metric holds.
#[derive(Debug, PartialEq, Eq)]
pub enum MetricValue {
    Text(String),
    Flag(bool),
    Number(i64),
}

/// Mathematical value of a [`MetricValue`].
pub enum MetricValueView {
    Text(Seq<char>),
    Flag(bool),
    Number(i64),
}

impl View for MetricValue {
    type V = MetricValueView;

    open spec fn view(&self) -> MetricValueView {
        match self {
            MetricValue::Text(text) => MetricValueView::Text(text@),
            MetricValue::Flag(flag) => MetricValueView::Flag(*flag),
            MetricValue::Number(number) => MetricValueView::Number(*number),
        }
    }
}

impl DeepView for MetricValue {
    type V = MetricValueView;

    open spec fn deep_view(&self) -> MetricValueView {
        self@
    }
}

/// One field of a metric: its name, and its value where it has one.
#[derive(Debug, PartialEq, Eq)]
pub struct MetricEntry {
    pub field: MetricField,
    pub value: Option<MetricValue>,
}

/// Mathematical value of a [`MetricEntry`].
pub struct MetricEntryView {
    pub field: MetricField,
    pub value: Option<MetricValueView>,
}

impl View for MetricEntry {
    type V = MetricEntryView;

    open spec fn view(&self) -> MetricEntryView {
        MetricEntryView { field: self.field, value: self.value.deep_view() }
    }
}

impl DeepView for MetricEntry {
    type V = MetricEntryView;

    open spec fn deep_view(&self) -> MetricEntryView {
        self@
    }
}

/// A text field, empty where there is no text.
pub open spec fn text_entry(field: MetricField, text: Option<Seq<char>>) -> MetricEntryView {
    MetricEntryView {
        field,
        value: match text {
            Some(t) => Some(MetricValueView::Text(t)),
            None => None,
        },
    }
}

/// A yes-or-no field, empty where the answer is not known.
pub open spec fn flag_entry(field: MetricField, flag: Option<bool>) -> MetricEntryView {
    MetricEntryView {
        field,
        value: match flag {
            Some(f) => Some(MetricValueView::Flag(f)),
            None => None,
        },
    }
}

/// A number field, empty where there is no number.
pub open spec fn number_entry(field: MetricField, number: Option<i64>) -> MetricEntryView {
    MetricEntryView {
        field,
        value: match number {
            Some(n) => Some(MetricValueView::Number(n)),
            None => None,
        },
    }
}

/// A size as the number a metric holds: its low 64 bits, read as signed.
pub open spec fn size_number(size: Option<usize>) -> Option<i64> {
    match size {
        Some(s) => Some(s as i64),
        None => None,
    }
}

/// A status code as the number a metric holds.
pub open spec fn code_number(code: Option<u16>) -> Option<i64> {
    match code {
        Some(c) => Some(c as i64),
        None => None,
    }
}

impl MetricEntry {
    /// Makes a text field.
    pub fn text(field: MetricField, text: Option<String>) -> (entry: MetricEntry)
        ensures
            entry@ == text_entry(field, text.deep_view()),
    {
        MetricEntry {
            field,
            value: match text {
                Some(t) => Some(MetricValue::Text(t)),
                None => None,
            },
        }
    }

    /// Makes a yes-or-no field.
    pub fn flag(field: MetricField, flag: Option<bool>) -> (entry: MetricEntry)
        ensures
            entry@ == flag_entry(field, flag),
    {
        MetricEntry {
            field,
            value: match flag {
                Some(f) => Some(MetricValue::Flag(f)),
                None => None,
            },
        }
    }

    /// Makes a number field.
    pub fn number(field: MetricField, number: Option<i64>) -> (entry: MetricEntry)
        ensures
            entry@ == number_entry(field, number),
    {
        MetricEntry {
            field,
            value: match number {
                Some(n) => Some(MetricValue::Number(n)),
                None => None,
            },
        }
    }

    /// Makes a number field from a size.
    pub fn size(field: MetricField, size: Option<usize>) -> (entry: MetricEntry)
        ensures
            entry@ == number_entry(field, size_number(size)),
    {
        MetricEntry::number(
            field,
            match size {
                Some(s) => Some(#[verifier::truncate] (s as i64)),
                None => None,
            },
        )
    }

    /// Makes a number field from a status code.
    pub fn code(field: MetricField, code: Option<u16>) -> (entry: MetricEntry)
        ensures
            entry@ == number_entry(field, code_number(code)),
    {
        MetricEntry::number(
            field,
            match code {
                Some(c) => Some(c as i64),
                None => None,
            },
        )
    }
}

/// An event as the metric it is sent as.
#[derive(Debug, PartialEq)]
pub struct Metric {
    /// Which metric it is.
    pub kind: MetricKind,
    /// When the event was created.
    pub create_time: Option<SystemTime>,
    /// The metric's fields, in the order of its definition. The value
    /// of the metric itself is never set.
    pub entries: Vec<MetricEntry>,
}

/// Mathematical value of a [`Metric`].
pub struct MetricView {
    pub kind: MetricKind,
    pub create_time: Option<SystemTime>,
    pub entries: Seq<MetricEntryView>,
}

impl View for Metric {
    type V = MetricView;

    open spec fn view(&self) -> MetricView {
        MetricView {
            kind: self.kind,
            create_time: self.create_time,
            entries: self.entries.deep_view(),
        }
    }
}

/// The metric that an event of this type is sent as.
pub open spec fn metric_kind(ty: EventTypeView) -> MetricKind {
    match ty {
        EventTypeView::UserLoggedIn => MetricKind::UserLoggedIn,
        EventTypeView::RefreshCredentials { .. } => MetricKind::RefreshCredentials,
        EventTypeView::CliSubcommandExecuted { .. } => MetricKind::CliSubcommandExecuted,
        EventTypeView::ChatSlashCommandExecuted { .. } => MetricKind::ChatSlashCommandExecuted,
        EventTypeView::ChatStart { .. } => MetricKind::StartChat,
        EventTypeView::ChatEnd { .. } => MetricKind::EndChat,
        EventTypeView::ChatAddedMessage { .. } => MetricKind::AddChatMessage,
        EventTypeView::ToolUseSuggested { .. } => MetricKind::ToolUseSuggested,
        EventTypeView::McpServerInit { .. } => MetricKind::McpServerInit,
        EventTypeView::DidSelectProfile { .. } => MetricKind::DidSelectProfile,
        EventTypeView::ProfileState { .. } => MetricKind::ProfileState,
        EventTypeView::MessageResponseError { .. } => MetricKind::MessageResponseError,
    }
}

/// The fields of the metric that an event is sent as: what the event
/// holds under each, in the order of the metric's definition. A result
/// and an intent are held as their names, a size as a number.
pub open spec fn metric_entries(event: EventView) -> Seq<MetricEntryView> {
    match event.ty {
        EventTypeView::UserLoggedIn => seq![
            text_entry(MetricField::CredentialStartUrl, event.credential_start_url),
            flag_entry(MetricField::InCloudshell, None),
        ],
        EventTypeView::RefreshCredentials { request_id, result, reason, oauth_flow } => seq![
            text_entry(MetricField::CredentialStartUrl, event.credential_start_url),
            text_entry(MetricField::RequestId, Some(request_id)),
            text_entry(MetricField::Result, Some(result.label())),
            text_entry(MetricField::Reason, reason),
            text_entry(MetricField::OauthFlow, Some(oauth_flow)),
            flag_entry(MetricField::InCloudshell, None),
        ],
        EventTypeView::CliSubcommandExecuted { subcommand } => seq![
            text_entry(MetricField::CredentialStartUrl, event.credential_start_url),
            text_entry(MetricField::Subcommand, Some(subcommand)),
            flag_entry(MetricField::InCloudshell, None),
        ],
        EventTypeView::ChatSlashCommandExecuted {
            conversation_id,
            command,
            subcommand,
            result,
            reason,
        } => seq![
            text_entry(MetricField::CredentialStartUrl, event.credential_start_url),
            text_entry(MetricField::SsoRegion, event.sso_region),
            text_entry(MetricField::ConversationId, Some(conversation_id)),
            text_entry(MetricField::ChatSlashCommand, Some(command)),
            text_entry(MetricField::ChatSlashSubcommand, subcommand),
            text_entry(MetricField::Result, Some(result.label())),
            text_entry(MetricField::Reason, reason),
            flag_entry(MetricField::InCloudshell, None),
        ],
        EventTypeView::ChatStart { conversation_id, model } => seq![
            text_entry(MetricField::CredentialStartUrl, event.credential_start_url),
            text_entry(MetricField::ConversationId, Some(conversation_id)),
            flag_entry(MetricField::InCloudshell, None),
            text_entry(MetricField::Model, model),
        ],
        EventTypeView::ChatEnd { conversation_id, model } => seq![
            text_entry(MetricField::CredentialStartUrl, event.credential_start_url),
            text_entry(MetricField::ConversationId, Some(conversation_id)),
            flag_entry(MetricField::InCloudshell, None),
            text_entry(MetricField::Model, model),
        ],
        EventTypeView::ChatAddedMessage {
            conversation_id,
            message_id,
            request_id,
            context_file_length,
            result,
            reason,
            reason_desc,
            status_code,
            model,
        } => seq![
            text_entry(MetricField::ConversationId, Some(conversation_id)),
            text_entry(MetricField::RequestId, request_id),
            text_entry(MetricField::UtteranceId, message_id),
            text_entry(MetricField::CredentialStartUrl, event.credential_start_url),
            text_entry(MetricField::SsoRegion, event.sso_region),
            flag_entry(MetricField::InCloudshell, None),
            number_entry(MetricField::ContextFileLength, size_number(context_file_length)),
            text_entry(MetricField::Result, Some(result.label())),
            text_entry(MetricField::Reason, reason),
            text_entry(MetricField::ReasonDesc, reason_desc),
            number_entry(MetricField::StatusCode, code_number(status_code)),
            text_entry(MetricField::Model, model),
        ],
        EventTypeView::ToolUseSuggested {
            conversation_id,
            utterance_id,
            user_input_id,
            tool_use_id,
            tool_name,
            is_accepted,
            is_success,
            is_valid,
            is_custom_tool,
            input_token_size,
            output_token_size,
            custom_tool_call_latency,
            model,
        } => seq![
            text_entry(MetricField::CredentialStartUrl, event.credential_start_url),
            text_entry(MetricField::ConversationId, Some(conversation_id)),
            text_entry(MetricField::UtteranceId, utterance_id),
            text_entry(MetricField::UserInputId, user_input_id),
            text_entry(MetricField::ToolUseId, tool_use_id),
            text_entry(MetricField::ToolName, tool_name),
            flag_entry(MetricField::IsToolUseAccepted, Some(is_accepted)),
            flag_entry(MetricField::IsToolValid, is_valid),
            flag_entry(MetricField::ToolUseIsSuccess, is_success),
            flag_entry(MetricField::IsCustomTool, Some(is_custom_tool)),
            number_entry(MetricField::CustomToolInputTokenSize, size_number(input_token_size)),
            number_entry(MetricField::CustomToolOutputTokenSize, size_number(output_token_size)),
            number_entry(MetricField::CustomToolLatency, size_number(custom_tool_call_latency)),
            text_entry(MetricField::Model, model),
        ],
        EventTypeView::McpServerInit {
            conversation_id,
            init_failure_reason,
            number_of_tools,
        } => seq![
            text_entry(MetricField::CredentialStartUrl, event.credential_start_url),
            text_entry(MetricField::ConversationId, Some(conversation_id)),
            text_entry(MetricField::McpServerInitFailureReason, init_failure_reason),
            number_entry(MetricField::ToolsPerMcpServer, size_number(Some(number_of_tools))),
        ],
        EventTypeView::DidSelectProfile {
            source,
            amazonq_profile_region,
            result,
            sso_region: profile_sso_region,
            profile_count,
        } => seq![
            text_entry(MetricField::Source, Some(source.label())),
            text_entry(MetricField::ProfileRegion, Some(amazonq_profile_region)),
            text_entry(MetricField::Result, Some(result.label())),
            text_entry(MetricField::SsoRegion, profile_sso_region),
            text_entry(MetricField::CredentialStartUrl, event.credential_start_url),
            number_entry(MetricField::ProfileCount, profile_count),
        ],
        EventTypeView::ProfileState {
            source,
            amazonq_profile_region,
            result,
            sso_region: profile_sso_region,
        } => seq![
            text_entry(MetricField::Source, Some(source.label())),
            text_entry(MetricField::ProfileRegion, Some(amazonq_profile_region)),
            text_entry(MetricField::Result, Some(result.label())),
            text_entry(MetricField::SsoRegion, profile_sso_region),
            text_entry(MetricField::CredentialStartUrl, event.credential_start_url),
        ],
        EventTypeView::MessageResponseError {
            result,
            reason,
            reason_desc,
            status_code,
            conversation_id,
            context_file_length,
        } => seq![
            text_entry(MetricField::ConversationId, Some(conversation_id)),
            number_entry(MetricField::ContextFileLength, size_number(context_file_length)),
            text_entry(MetricField::CredentialStartUrl, event.credential_start_url),
            text_entry(MetricField::SsoRegion, event.sso_region),
            text_entry(MetricField::Result, Some(result.label())),
            text_entry(MetricField::Reason, reason),
            text_entry(MetricField::ReasonDesc, reason_desc),
            number_entry(MetricField::StatusCode, code_number(status_code)),
        ],
    }
}

/// The metric that an event is sent as.
pub open spec fn metric_of(event: EventView) -> MetricView {
    MetricView {
        kind: metric_kind(event.ty),
        create_time: event.created_time,
        entries: metric_entries(event),
    }
}

impl Event {
    /// Turns the event into the metric it is sent as. Every event has
    /// one.
    pub fn into_metric_datum(self) -> (metric: Option<Metric>)
        ensures
            metric matches Some(m) && m@ == metric_of(self@),
    {
        let ghost event = self@;
        let Event { created_time, credential_start_url, sso_region, ty } = self;
        let (kind, entries) = match ty {
            EventType::UserLoggedIn {  } => {
                let credential_start_url = MetricEntry::text(
                    MetricField::CredentialStartUrl,
                    credential_start_url,
                );
                let in_cloudshell = MetricEntry::flag(MetricField::InCloudshell, None);
                let ghost views = seq![credential_start_url@, in_cloudshell@];
                let entries = vec![credential_start_url, in_cloudshell];
                assert(entries.deep_view() =~= views);
                assert(views =~= metric_entries(event));
                (MetricKind::UserLoggedIn, entries)
            },
            EventType::RefreshCredentials { request_id, result, reason, oauth_flow } => {
                let credential_start_url = MetricEntry::text(
                    MetricField::CredentialStartUrl,
                    credential_start_url,
                );
                let request_id = MetricEntry::text(MetricField::RequestId, Some(request_id));
                let result = MetricEntry::text(MetricField::Result, Some(result.to_text()));
                let reason = MetricEntry::text(MetricField::Reason, reason);
                let oauth_flow = MetricEntry::text(MetricField::OauthFlow, Some(oauth_flow));
                let in_cloudshell = MetricEntry::flag(MetricField::InCloudshell, None);
                let ghost views = seq![
                    credential_start_url@,
                    request_id@,
                    result@,
                    reason@,
                    oauth_flow@,
                    in_cloudshell@,
                ];
                let entries = vec![
                    credential_start_url,
                    request_id,
                    result,
                    reason,
                    oauth_flow,
                    in_cloudshell,
                ];
                assert(entries.deep_view() =~= views);
                assert(views =~= metric_entries(event));
                (MetricKind::RefreshCredentials, entries)
            },
            EventType::CliSubcommandExecuted { subcommand } => {
                let credential_start_url = MetricEntry::text(
                    MetricField::CredentialStartUrl,
                    credential_start_url,
                );
                let subcommand = MetricEntry::text(MetricField::Subcommand, Some(subcommand));
                let in_cloudshell = MetricEntry::flag(MetricField::InCloudshell, None);
                let ghost views = seq![credential_start_url@, subcommand@, in_cloudshell@];
                let entries = vec![credential_start_url, subcommand, in_cloudshell];
                assert(entries.deep_view() =~= views);
                assert(views =~= metric_entries(event));
                (MetricKind::CliSubcommandExecuted, entries)
            },
            EventType::ChatSlashCommandExecuted {
                conversation_id,
                command,
                subcommand,
                result,
                reason,
            } => {
                let credential_start_url = MetricEntry::text(
                    MetricField::CredentialStartUrl,
                    credential_start_url,
                );
                let sso_region = MetricEntry::text(MetricField::SsoRegion, sso_region);
                let conversation_id = MetricEntry::text(
                    MetricField::ConversationId,
                    Some(conversation_id),
                );
                let chat_slash_command = MetricEntry::text(
                    MetricField::ChatSlashCommand,
                    Some(command),
                );
                let chat_slash_subcommand = MetricEntry::text(
                    MetricField::ChatSlashSubcommand,
                    subcommand,
                );
                let result = MetricEntry::text(MetricField::Result, Some(result.to_text()));
                let reason = MetricEntry::text(MetricField::Reason, reason);
                let in_cloudshell = MetricEntry::flag(MetricField::InCloudshell, None);
                let ghost views = seq![
                    credential_start_url@,
                    sso_region@,
                    conversation_id@,
                    chat_slash_command@,
                    chat_slash_subcommand@,
                    result@,
                    reason@,
                    in_cloudshell@,
                ];
                let entries = vec![
                    credential_start_url,
                    sso_region,
                    conversation_id,
                    chat_slash_command,
                    chat_slash_subcommand,
                    result,
                    reason,
                    in_cloudshell,
                ];
                assert(entries.deep_view() =~= views);
                assert(views =~= metric_entries(event));
                (MetricKind::ChatSlashCommandExecuted, entries)
            },
            EventType::ChatStart { conversation_id, model } => {
                let credential_start_url = MetricEntry::text(
                    MetricField::CredentialStartUrl,
                    credential_start_url,
                );
                let conversation_id = MetricEntry::text(
                    MetricField::ConversationId,
                    Some(conversation_id),
                );
                let in_cloudshell = MetricEntry::flag(MetricField::InCloudshell, None);
                let model = MetricEntry::text(MetricField::Model, model);
                let ghost views = seq![
                    credential_start_url@,
                    conversation_id@,
                    in_cloudshell@,
                    model@,
                ];
                let entries = vec![credential_start_url, conversation_id, in_cloudshell, model];
                assert(entries.deep_view() =~= views);
                assert(views =~= metric_entries(event));
                (MetricKind::StartChat, entries)
            },
            EventType::ChatEnd { conversation_id, model } => {
                let credential_start_url = MetricEntry::text(
                    MetricField::CredentialStartUrl,
                    credential_start_url,
                );
                let conversation_id = MetricEntry::text(
                    MetricField::ConversationId,
                    Some(conversation_id),
                );
                let in_cloudshell = MetricEntry::flag(MetricField::InCloudshell, None);
                let model = MetricEntry::text(MetricField::Model, model);
                let ghost views = seq![
                    credential_start_url@,
                    conversation_id@,
                    in_cloudshell@,
                    model@,
                ];
                let entries = vec![credential_start_url, conversation_id, in_cloudshell, model];
                assert(entries.deep_view() =~= views);
                assert(views =~= metric_entries(event));
                (MetricKind::EndChat, entries)
            },
            EventType::ChatAddedMessage {
                conversation_id,
                message_id,
                request_id,
                context_file_length,
                result,
                reason,
                reason_desc,
                status_code,
                model,
            } => {
                let conversation_id = MetricEntry::text(
                    MetricField::ConversationId,
                    Some(conversation_id),
                );
                let request_id = MetricEntry::text(MetricField::RequestId, request_id);
                let utterance_id = MetricEntry::text(MetricField::UtteranceId, message_id);
                let credential_start_url = MetricEntry::text(
                    MetricField::CredentialStartUrl,
                    credential_start_url,
                );
                let sso_region = MetricEntry::text(MetricField::SsoRegion, sso_region);
                let in_cloudshell = MetricEntry::flag(MetricField::InCloudshell, None);
                let context_file_length = MetricEntry::size(
                    MetricField::ContextFileLength,
                    context_file_length,
                );
                let result = MetricEntry::text(MetricField::Result, Some(result.to_text()));
                let reason = MetricEntry::text(MetricField::Reason, reason);
                let reason_desc = MetricEntry::text(MetricField::ReasonDesc, reason_desc);
                let status_code = MetricEntry::code(MetricField::StatusCode, status_code);
                let model = MetricEntry::text(MetricField::Model, model);
                let ghost views = seq![
                    conversation_id@,
                    request_id@,
                    utterance_id@,
                    credential_start_url@,
                    sso_region@,
                    in_cloudshell@,
                    context_file_length@,
                    result@,
                    reason@,
                    reason_desc@,
                    status_code@,
                    model@,
                ];
                let entries = vec![
                    conversation_id,
                    request_id,
                    utterance_id,
                    credential_start_url,
                    sso_region,
                    in_cloudshell,
                    context_file_length,
                    result,
                    reason,
                    reason_desc,
                    status_code,
                    model,
                ];
                assert(entries.deep_view() =~= views);
                assert(views =~= metric_entries(event));
                (MetricKind::AddChatMessage, entries)
            },
            EventType::ToolUseSuggested {
                conversation_id,
                utterance_id,
                user_input_id,
                tool_use_id,
                tool_name,
                is_accepted,
                is_success,
                is_valid,
                is_custom_tool,
                input_token_size,
                output_token_size,
                custom_tool_call_latency,
                model,
            } => {
                let credential_start_url = MetricEntry::text(
                    MetricField::CredentialStartUrl,
                    credential_start_url,
                );
                let conversation_id = MetricEntry::text(
                    MetricField::ConversationId,
                    Some(conversation_id),
                );
                let utterance_id = MetricEntry::text(MetricField::UtteranceId, utterance_id);
                let user_input_id = MetricEntry::text(MetricField::UserInputId, user_input_id);
                let tool_use_id = MetricEntry::text(MetricField::ToolUseId, tool_use_id);
                let tool_name = MetricEntry::text(MetricField::ToolName, tool_name);
                let is_tool_use_accepted = MetricEntry::flag(
                    MetricField::IsToolUseAccepted,
                    Some(is_accepted),
                );
                let is_tool_valid = MetricEntry::flag(MetricField::IsToolValid, is_valid);
                let tool_use_is_success = MetricEntry::flag(
                    MetricField::ToolUseIsSuccess,
                    is_success,
                );
                let is_custom_tool = MetricEntry::flag(
                    MetricField::IsCustomTool,
                    Some(is_custom_tool),
                );
                let custom_tool_input_token_size = MetricEntry::size(
                    MetricField::CustomToolInputTokenSize,
                    input_token_size,
                );
                let custom_tool_output_token_size = MetricEntry::size(
                    MetricField::CustomToolOutputTokenSize,
                    output_token_size,
                );
                let custom_tool_latency = MetricEntry::size(
                    MetricField::CustomToolLatency,
                    custom_tool_call_latency,
                );
                let model = MetricEntry::text(MetricField::Model, model);
                let ghost views = seq![
                    credential_start_url@,
                    conversation_id@,
                    utterance_id@,
                    user_input_id@,
                    tool_use_id@,
                    tool_name@,
                    is_tool_use_accepted@,
                    is_tool_valid@,
                    tool_use_is_success@,
                    is_custom_tool@,
                    custom_tool_input_token_size@,
                    custom_tool_output_token_size@,
                    custom_tool_latency@,
                    model@,
                ];
                let entries = vec![
                    credential_start_url,
                    conversation_id,
                    utterance_id,
                    user_input_id,
                    tool_use_id,
                    tool_name,
                    is_tool_use_accepted,
                    is_tool_valid,
                    tool_use_is_success,
                    is_custom_tool,
                    custom_tool_input_token_size,
                    custom_tool_output_token_size,
                    custom_tool_latency,
                    model,
                ];
                assert(entries.deep_view() =~= views);
                assert(views =~= metric_entries(event));
                (MetricKind::ToolUseSuggested, entries)
            },
            EventType::McpServerInit { conversation_id, init_failure_reason, number_of_tools } => {
                let credential_start_url = MetricEntry::text(
                    MetricField::CredentialStartUrl,
                    credential_start_url,
                );
                let conversation_id = MetricEntry::text(
                    MetricField::ConversationId,
                    Some(conversation_id),
                );
                let mcp_server_init_failure_reason = MetricEntry::text(
                    MetricField::McpServerInitFailureReason,
                    init_failure_reason,
                );
                let tools_per_mcp_server = MetricEntry::size(
                    MetricField::ToolsPerMcpServer,
                    Some(number_of_tools),
                );
                let ghost views = seq![
                    credential_start_url@,
                    conversation_id@,
                    mcp_server_init_failure_reason@,
                    tools_per_mcp_server@,
                ];
                let entries = vec![
                    credential_start_url,
                    conversation_id,
                    mcp_server_init_failure_reason,
                    tools_per_mcp_server,
                ];
                assert(entries.deep_view() =~= views);
                assert(views =~= metric_entries(event));
                (MetricKind::McpServerInit, entries)
            },
            EventType::DidSelectProfile {
                source,
                amazonq_profile_region,
                result,
                sso_region: profile_sso_region,
                profile_count,
            } => {
                let source = MetricEntry::text(MetricField::Source, Some(source.to_text()));
                let profile_region = MetricEntry::text(
                    MetricField::ProfileRegion,
                    Some(amazonq_profile_region),
                );
                let result = MetricEntry::text(MetricField::Result, Some(result.to_text()));
                let sso_region = MetricEntry::text(MetricField::SsoRegion, profile_sso_region);
                let credential_start_url = MetricEntry::text(
                    MetricField::CredentialStartUrl,
                    credential_start_url,
                );
                let profile_count = MetricEntry::number(MetricField::ProfileCount, profile_count);
                let ghost views = seq![
                    source@,
                    profile_region@,
                    result@,
                    sso_region@,
                    credential_start_url@,
                    profile_count@,
                ];
                let entries = vec![
                    source,
                    profile_region,
                    result,
                    sso_region,
                    credential_start_url,
                    profile_count,
                ];
                assert(entries.deep_view() =~= views);
                assert(views =~= metric_entries(event));
                (MetricKind::DidSelectProfile, entries)
            },
            EventType::ProfileState {
                source,
                amazonq_profile_region,
                result,
                sso_region: profile_sso_region,
            } => {
                let source = MetricEntry::text(MetricField::Source, Some(source.to_text()));
                let profile_region = MetricEntry::text(
                    MetricField::ProfileRegion,
                    Some(amazonq_profile_region),
                );
                let result = MetricEntry::text(MetricField::Result, Some(result.to_text()));
                let sso_region = MetricEntry::text(MetricField::SsoRegion, profile_sso_region);
                let credential_start_url = MetricEntry::text(
                    MetricField::CredentialStartUrl,
                    credential_start_url,
                );
                let ghost views = seq![
                    source@,
                    profile_region@,
                    result@,
                    sso_region@,
                    credential_start_url@,
                ];
                let entries = vec![
                    source,
                    profile_region,
                    result,
                    sso_region,
                    credential_start_url,
                ];
                assert(entries.deep_view() =~= views);
                assert(views =~= metric_entries(event));
                (MetricKind::ProfileState, entries)
            },
            EventType::MessageResponseError {
                result,
                reason,
                reason_desc,
                status_code,
                conversation_id,
                context_file_length,
            } => {
                let conversation_id = MetricEntry::text(
                    MetricField::ConversationId,
                    Some(conversation_id),
                );
                let context_file_length = MetricEntry::size(
                    MetricField::ContextFileLength,
                    context_file_length,
                );
                let credential_start_url = MetricEntry::text(
                    MetricField::CredentialStartUrl,
                    credential_start_url,
                );
                let sso_region = MetricEntry::text(MetricField::SsoRegion, sso_region);
                let result = MetricEntry::text(MetricField::Result, Some(result.to_text()));
                let reason = MetricEntry::text(MetricField::Reason, reason);
                let reason_desc = MetricEntry::text(MetricField::ReasonDesc, reason_desc);
                let status_code = MetricEntry::code(MetricField::StatusCode, status_code);
                let ghost views = seq![
                    conversation_id@,
                    context_file_length@,
                    credential_start_url@,
                    sso_region@,
                    result@,
                    reason@,
                    reason_desc@,
                    status_code@,
                ];
                let entries = vec![
                    conversation_id,
                    context_file_length,
                    credential_start_url,
                    sso_region,
                    result,
                    reason,
                    reason_desc,
                    status_code,
                ];
                assert(entries.deep_view() =~= views);
                assert(views =~= metric_entries(event));
                (MetricKind::MessageResponseError, entries)
            },
        };
        Some(Metric { kind, create_time: created_time, entries })
    }
}

} // verus!
