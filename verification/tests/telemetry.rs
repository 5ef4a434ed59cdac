use chat_cli::telemetry::event::{Event, EventType};
use chat_cli::telemetry::metric::{Metric, MetricEntry, MetricField, MetricKind, MetricValue};
use chat_cli::telemetry::outcome::{
    same_text, QProfileSwitchIntent, SuggestionState, TelemetryResult,
};
use chat_cli::telemetry::tool_use::ToolUseEventBuilder;

fn text(s: &str) -> Option<String> {
    Some(s.to_string())
}

fn text_field(field: MetricField, value: Option<&str>) -> MetricEntry {
    MetricEntry { field, value: value.map(|v| MetricValue::Text(v.to_string())) }
}

fn number_field(field: MetricField, value: Option<i64>) -> MetricEntry {
    MetricEntry { field, value: value.map(MetricValue::Number) }
}

fn flag_field(field: MetricField, value: Option<bool>) -> MetricEntry {
    MetricEntry { field, value: value.map(MetricValue::Flag) }
}

fn metric(event: Event) -> Metric {
    match event.into_metric_datum() {
        Some(metric) => metric,
        None => panic!("every event has a metric"),
    }
}

#[test]
fn new_event_is_stamped_and_untied() {
    let event = Event::new(EventType::UserLoggedIn {});
    assert!(event.created_time.is_some());
    assert_eq!(event.credential_start_url, None);
    assert_eq!(event.sso_region, None);
    assert_eq!(event.ty, EventType::UserLoggedIn {});
}

#[test]
fn setters_change_one_field_each() {
    let mut event = Event::new(EventType::CliSubcommandExecuted { subcommand: "login".to_string() });
    let created = event.created_time;
    event.set_start_url("https://start.example".to_string());
    assert_eq!(event.credential_start_url, text("https://start.example"));
    assert_eq!(event.sso_region, None);
    event.set_sso_region("us-east-1".to_string());
    assert_eq!(event.credential_start_url, text("https://start.example"));
    assert_eq!(event.sso_region, text("us-east-1"));
    assert_eq!(event.created_time, created);
    assert_eq!(event.ty, EventType::CliSubcommandExecuted { subcommand: "login".to_string() });
    event.set_start_url("https://other.example".to_string());
    assert_eq!(event.credential_start_url, text("https://other.example"));
}

#[test]
fn results_and_intents_are_named_by_variant() {
    assert_eq!(TelemetryResult::Succeeded.to_text(), "Succeeded");
    assert_eq!(TelemetryResult::Failed.to_text(), "Failed");
    assert_eq!(TelemetryResult::Cancelled.to_text(), "Cancelled");
    assert_eq!(QProfileSwitchIntent::User.to_text(), "User");
    assert_eq!(QProfileSwitchIntent::Auth.to_text(), "Auth");
    assert_eq!(QProfileSwitchIntent::Update.to_text(), "Update");
    assert_eq!(QProfileSwitchIntent::Reload.to_text(), "Reload");
}

#[test]
fn names_parse_back_exactly() {
    for result in [TelemetryResult::Succeeded, TelemetryResult::Failed, TelemetryResult::Cancelled] {
        assert_eq!(TelemetryResult::parse(&result.to_text()), Some(result));
    }
    for intent in [
        QProfileSwitchIntent::User,
        QProfileSwitchIntent::Auth,
        QProfileSwitchIntent::Update,
        QProfileSwitchIntent::Reload,
    ] {
        assert_eq!(QProfileSwitchIntent::parse(&intent.to_text()), Some(intent));
    }
    assert_eq!(TelemetryResult::parse("succeeded"), None);
    assert_eq!(TelemetryResult::parse(""), None);
    assert_eq!(QProfileSwitchIntent::parse("Succeeded"), None);
    assert_eq!(QProfileSwitchIntent::parse("user"), None);
    assert!(same_text("a", "a"));
    assert!(!same_text("a", "b"));
}

#[test]
fn only_accept_is_accepted() {
    assert!(SuggestionState::Accept.is_accepted());
    assert!(!SuggestionState::Discard.is_accepted());
    assert!(!SuggestionState::Empty.is_accepted());
    assert!(!SuggestionState::Reject.is_accepted());
}

#[test]
fn builder_starts_with_what_is_known() {
    let builder = ToolUseEventBuilder::new("conv".to_string(), "tool-1".to_string(), text("model-x"));
    assert_eq!(builder.conversation_id, "conv");
    assert_eq!(builder.tool_use_id, text("tool-1"));
    assert_eq!(builder.model, text("model-x"));
    assert_eq!(builder.utterance_id, None);
    assert_eq!(builder.user_input_id, None);
    assert_eq!(builder.tool_name, None);
    assert!(!builder.is_accepted);
    assert_eq!(builder.is_success, None);
    assert_eq!(builder.is_valid, None);
    assert!(!builder.is_custom_tool);
    assert_eq!(builder.input_token_size, None);
    assert_eq!(builder.output_token_size, None);
    assert_eq!(builder.custom_tool_call_latency, None);
}

#[test]
fn builder_steps_change_one_field_each() {
    let builder = ToolUseEventBuilder::new("conv".to_string(), "tool-1".to_string(), None)
        .utterance_id(text("utt"))
        .set_tool_use_id("tool-2".to_string())
        .set_tool_name("fs_read".to_string());
    assert_eq!(builder.conversation_id, "conv");
    assert_eq!(builder.utterance_id, text("utt"));
    assert_eq!(builder.tool_use_id, text("tool-2"));
    assert_eq!(builder.tool_name, text("fs_read"));
    assert_eq!(builder.model, None);
    let builder = builder.utterance_id(None);
    assert_eq!(builder.utterance_id, None);
    assert_eq!(builder.tool_name, text("fs_read"));
}

#[test]
fn logged_in_metric_carries_the_start_url() {
    let mut event = Event::new(EventType::UserLoggedIn {});
    event.set_start_url("https://start.example".to_string());
    event.set_sso_region("us-east-1".to_string());
    let created = event.created_time;
    let metric = metric(event);
    assert_eq!(metric.kind, MetricKind::UserLoggedIn);
    assert_eq!(metric.create_time, created);
    assert_eq!(
        metric.entries,
        vec![
            text_field(MetricField::CredentialStartUrl, Some("https://start.example")),
            flag_field(MetricField::InCloudshell, None),
        ]
    );
}

#[test]
fn profile_metrics_use_the_region_of_the_selection() {
    let mut event = Event::new(EventType::DidSelectProfile {
        source: QProfileSwitchIntent::User,
        amazonq_profile_region: "not-set".to_string(),
        result: TelemetryResult::Cancelled,
        sso_region: text("eu-west-1"),
        profile_count: Some(3),
    });
    event.set_sso_region("ignored-here".to_string());
    let metric = metric(event);
    assert_eq!(metric.kind, MetricKind::DidSelectProfile);
    assert_eq!(
        metric.entries,
        vec![
            text_field(MetricField::Source, Some("User")),
            text_field(MetricField::ProfileRegion, Some("not-set")),
            text_field(MetricField::Result, Some("Cancelled")),
            text_field(MetricField::SsoRegion, Some("eu-west-1")),
            text_field(MetricField::CredentialStartUrl, None),
            number_field(MetricField::ProfileCount, Some(3)),
        ]
    );

    let metric = self::metric(Event::new(EventType::ProfileState {
        source: QProfileSwitchIntent::Update,
        amazonq_profile_region: "us-east-1".to_string(),
        result: TelemetryResult::Succeeded,
        sso_region: None,
    }));
    assert_eq!(metric.kind, MetricKind::ProfileState);
    assert_eq!(
        metric.entries,
        vec![
            text_field(MetricField::Source, Some("Update")),
            text_field(MetricField::ProfileRegion, Some("us-east-1")),
            text_field(MetricField::Result, Some("Succeeded")),
            text_field(MetricField::SsoRegion, None),
            text_field(MetricField::CredentialStartUrl, None),
        ]
    );
}

#[test]
fn chat_message_metric_holds_sizes_and_codes_as_numbers() {
    let mut event = Event::new(EventType::ChatAddedMessage {
        conversation_id: "conv".to_string(),
        message_id: text("msg"),
        request_id: None,
        context_file_length: Some(42),
        result: TelemetryResult::Failed,
        reason: text("Timeout"),
        reason_desc: None,
        status_code: Some(504),
        model: text("m"),
    });
    event.set_sso_region("us-east-1".to_string());
    let metric = metric(event);
    assert_eq!(metric.kind, MetricKind::AddChatMessage);
    assert_eq!(
        metric.entries,
        vec![
            text_field(MetricField::ConversationId, Some("conv")),
            text_field(MetricField::RequestId, None),
            text_field(MetricField::UtteranceId, Some("msg")),
            text_field(MetricField::CredentialStartUrl, None),
            text_field(MetricField::SsoRegion, Some("us-east-1")),
            flag_field(MetricField::InCloudshell, None),
            number_field(MetricField::ContextFileLength, Some(42)),
            text_field(MetricField::Result, Some("Failed")),
            text_field(MetricField::Reason, Some("Timeout")),
            text_field(MetricField::ReasonDesc, None),
            number_field(MetricField::StatusCode, Some(504)),
            text_field(MetricField::Model, Some("m")),
        ]
    );
}

#[test]
fn tool_use_metric_holds_flags() {
    let metric = metric(Event::new(EventType::ToolUseSuggested {
        conversation_id: "conv".to_string(),
        utterance_id: None,
        user_input_id: text("in"),
        tool_use_id: text("tool-1"),
        tool_name: text("fs_read"),
        is_accepted: true,
        is_success: Some(false),
        is_valid: None,
        is_custom_tool: false,
        input_token_size: Some(10),
        output_token_size: None,
        custom_tool_call_latency: Some(250),
        model: None,
    }));
    assert_eq!(metric.kind, MetricKind::ToolUseSuggested);
    assert_eq!(
        metric.entries,
        vec![
            text_field(MetricField::CredentialStartUrl, None),
            text_field(MetricField::ConversationId, Some("conv")),
            text_field(MetricField::UtteranceId, None),
            text_field(MetricField::UserInputId, Some("in")),
            text_field(MetricField::ToolUseId, Some("tool-1")),
            text_field(MetricField::ToolName, Some("fs_read")),
            flag_field(MetricField::IsToolUseAccepted, Some(true)),
            flag_field(MetricField::IsToolValid, None),
            flag_field(MetricField::ToolUseIsSuccess, Some(false)),
            flag_field(MetricField::IsCustomTool, Some(false)),
            number_field(MetricField::CustomToolInputTokenSize, Some(10)),
            number_field(MetricField::CustomToolOutputTokenSize, None),
            number_field(MetricField::CustomToolLatency, Some(250)),
            text_field(MetricField::Model, None),
        ]
    );
}

#[test]
fn remaining_events_map_to_their_metrics() {
    let kinds = [
        (
            EventType::RefreshCredentials {
                request_id: "r".to_string(),
                result: TelemetryResult::Succeeded,
                reason: None,
                oauth_flow: "pkce".to_string(),
            },
            MetricKind::RefreshCredentials,
            6,
        ),
        (
            EventType::CliSubcommandExecuted { subcommand: "whoami".to_string() },
            MetricKind::CliSubcommandExecuted,
            3,
        ),
        (
            EventType::ChatSlashCommandExecuted {
                conversation_id: "c".to_string(),
                command: "tools".to_string(),
                subcommand: None,
                result: TelemetryResult::Succeeded,
                reason: None,
            },
            MetricKind::ChatSlashCommandExecuted,
            8,
        ),
        (EventType::ChatStart { conversation_id: "c".to_string(), model: None }, MetricKind::StartChat, 4),
        (EventType::ChatEnd { conversation_id: "c".to_string(), model: None }, MetricKind::EndChat, 4),
        (
            EventType::McpServerInit {
                conversation_id: "c".to_string(),
                init_failure_reason: None,
                number_of_tools: 7,
            },
            MetricKind::McpServerInit,
            4,
        ),
        (
            EventType::MessageResponseError {
                result: TelemetryResult::Failed,
                reason: None,
                reason_desc: None,
                status_code: None,
                conversation_id: "c".to_string(),
                context_file_length: None,
            },
            MetricKind::MessageResponseError,
            8,
        ),
    ];
    for (ty, kind, fields) in kinds {
        let metric = metric(Event::new(ty));
        assert_eq!(metric.kind, kind);
        assert_eq!(metric.entries.len(), fields);
    }
    let metric = self::metric(Event::new(EventType::McpServerInit {
        conversation_id: "c".to_string(),
        init_failure_reason: text("spawn failed"),
        number_of_tools: 7,
    }));
    assert_eq!(metric.entries[2], text_field(MetricField::McpServerInitFailureReason, Some("spawn failed")));
    assert_eq!(metric.entries[3], number_field(MetricField::ToolsPerMcpServer, Some(7)));
}

#[test]
fn entry_makers_keep_their_values() {
    assert_eq!(MetricEntry::text(MetricField::Reason, text("x")), text_field(MetricField::Reason, Some("x")));
    assert_eq!(MetricEntry::flag(MetricField::IsCustomTool, Some(true)), flag_field(MetricField::IsCustomTool, Some(true)));
    assert_eq!(MetricEntry::number(MetricField::ProfileCount, Some(-1)), number_field(MetricField::ProfileCount, Some(-1)));
    assert_eq!(MetricEntry::size(MetricField::ContextFileLength, Some(9)), number_field(MetricField::ContextFileLength, Some(9)));
    assert_eq!(MetricEntry::size(MetricField::ContextFileLength, None), number_field(MetricField::ContextFileLength, None));
    assert_eq!(MetricEntry::code(MetricField::StatusCode, Some(u16::MAX)), number_field(MetricField::StatusCode, Some(65535)));
}
