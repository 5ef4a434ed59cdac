use chat_cli::auth::login::{AuthError, SignedIn};
use chat_cli::auth::model::AuthMethod;
use chat_cli::auth::profile::{Profile, SelectError, SelectMode};
use chat_cli::cli::agent::wrapper_types::{
    key_description, OriginalToolName, ToolSettingTarget,
};
use chat_cli::cli::user::{
    compact_json, entries_of, export_token, login_failure_message, login_status, logout,
    pretty_json, profile, rendered_answer, select_failure_message, select_status, CommandError,
    ExitStatus, OutputFormat, Session, TokenType, UserAnswer, UserArgs, UserSubcommand,
    WhoamiArgs,
};
use std::borrow::Borrow;

fn text(s: &str) -> Option<String> {
    Some(s.to_string())
}

fn builder_id() -> Session {
    Session {
        access_token: "access-1".to_string(),
        refresh_token: None,
        start_url: None,
        region: None,
        token_type: TokenType::BuilderId,
    }
}

fn identity_center() -> Session {
    Session {
        access_token: "access-2".to_string(),
        refresh_token: text("refresh-2"),
        start_url: text("https://start.example"),
        region: text("eu-west-1"),
        token_type: TokenType::IamIdentityCenter,
    }
}

fn active() -> Profile {
    Profile { profile_name: "team".to_string(), arn: "arn:aws:q:us-east-1:1:profile/team".to_string() }
}

fn parse(json: &str) -> serde_json::Value {
    match serde_json::from_str(json) {
        Ok(value) => value,
        Err(e) => panic!("not JSON: {} in {}", e, json),
    }
}

#[test]
fn exit_codes_are_distinct() {
    assert_eq!(ExitStatus::Success.code(), 0);
    assert_ne!(ExitStatus::Failure.code(), 0);
    assert_ne!(ExitStatus::Interrupted.code(), 0);
    assert_ne!(ExitStatus::Interrupted.code(), ExitStatus::Failure.code());
}

#[test]
fn whoami_plain_says_who_is_signed_in() {
    let args = WhoamiArgs::default();
    assert_eq!(args.format, OutputFormat::Plain);
    assert_eq!(OutputFormat::default(), OutputFormat::Plain);

    let report = args.execute(&Some(builder_id()), &None).unwrap();
    assert_eq!(report.output, "Logged in with Builder ID");
    assert_eq!(report.profile, None);
    assert_eq!(report.status, ExitStatus::Success);

    let report = args.execute(&Some(identity_center()), &Some(active())).unwrap();
    assert_eq!(report.output, "Logged in with IAM Identity Center (https://start.example)");
    assert_eq!(report.profile, Some(active()));
    assert_eq!(report.status, ExitStatus::Success);

    let report = args.execute(&None, &Some(active())).unwrap();
    assert_eq!(report.output, "Not logged in");
    assert_eq!(report.profile, None);
    assert_eq!(report.status, ExitStatus::Failure);
}

#[test]
fn whoami_shows_the_profile_only_for_identity_center() {
    assert!(WhoamiArgs::wants_profile(&Some(identity_center())));
    assert!(!WhoamiArgs::wants_profile(&Some(builder_id())));
    assert!(!WhoamiArgs::wants_profile(&None));
    let report = WhoamiArgs::default().execute(&Some(builder_id()), &Some(active())).unwrap();
    assert_eq!(report.profile, None);
    assert!(identity_center().is_well_formed());
    assert!(builder_id().is_well_formed());
    let mut broken = identity_center();
    broken.start_url = None;
    assert!(!broken.is_well_formed());
}

#[test]
fn whoami_json_names_account_type_and_endpoint() {
    let compact = WhoamiArgs { format: OutputFormat::Json }
        .execute(&Some(identity_center()), &None)
        .unwrap();
    assert!(!compact.output.contains('\n'));
    let value = parse(&compact.output);
    assert_eq!(value["accountType"].as_str(), Some("IamIdentityCenter"));
    assert_eq!(value["startUrl"].as_str(), Some("https://start.example"));
    assert_eq!(value["region"].as_str(), Some("eu-west-1"));
    assert_eq!(value.as_object().map(|o| o.len()), Some(3));

    let pretty = WhoamiArgs { format: OutputFormat::JsonPretty }
        .execute(&Some(builder_id()), &None)
        .unwrap();
    assert!(pretty.output.contains('\n'));
    let value = parse(&pretty.output);
    assert_eq!(value["accountType"].as_str(), Some("BuilderId"));
    assert!(value["startUrl"].is_null());
    assert!(value["region"].is_null());
    assert_eq!(pretty.status, ExitStatus::Success);
}

#[test]
fn whoami_json_without_session_is_a_null_account() {
    let report = WhoamiArgs { format: OutputFormat::Json }.execute(&None, &None).unwrap();
    assert_eq!(report.output, "{\"account\":null}");
    assert_eq!(report.status, ExitStatus::Failure);
    let report = WhoamiArgs { format: OutputFormat::JsonPretty }.execute(&None, &None).unwrap();
    assert_eq!(report.output, "{\n  \"account\": null\n}");
    assert_eq!(entries_of(&None), vec![("account".to_string(), None)]);
}

#[test]
fn export_token_needs_a_session() {
    assert_eq!(export_token(&None), Err(CommandError::NotLoggedIn));
}

#[test]
fn export_token_prints_both_tokens() {
    let json = export_token(&Some(identity_center())).unwrap();
    assert!(json.contains('\n'));
    let value = parse(&json);
    assert_eq!(value["accessToken"].as_str(), Some("access-2"));
    assert_eq!(value["refreshToken"].as_str(), Some("refresh-2"));
    assert_eq!(value.as_object().map(|o| o.len()), Some(2));

    let value = parse(&export_token(&Some(builder_id())).unwrap());
    assert_eq!(value["accessToken"].as_str(), Some("access-1"));
    assert!(value["refreshToken"].is_null());
    assert_eq!(
        identity_center().token_entries(),
        vec![
            ("accessToken".to_string(), text("access-2")),
            ("refreshToken".to_string(), text("refresh-2")),
        ]
    );
}

#[test]
fn json_text_is_escaped_by_the_renderer() {
    let entries = vec![("quote\"d".to_string(), text("line\nbreak"))];
    let compact = compact_json(&entries).unwrap();
    assert_eq!(compact, "{\"quote\\\"d\":\"line\\nbreak\"}");
    let pretty = pretty_json(&entries).unwrap();
    assert_eq!(pretty, "{\n  \"quote\\\"d\": \"line\\nbreak\"\n}");
    assert_eq!(compact_json(&Vec::new()).unwrap(), "{}");
}

#[test]
fn rendered_answer_passes_text_and_wraps_failure() {
    assert_eq!(rendered_answer(Ok("{}".to_string())), Ok("{}".to_string()));
    assert_eq!(
        rendered_answer(Err("bad".to_string())),
        Err(CommandError::Serialize("bad".to_string()))
    );
}

#[test]
fn profile_command_is_for_identity_center() {
    assert_eq!(profile(&Some(builder_id())), Err(CommandError::ProOnly));
    assert_eq!(profile(&Some(identity_center())), Ok(SelectMode::Interactive));
    assert_eq!(profile(&None), Ok(SelectMode::Interactive));
}

#[test]
fn user_subcommands_dispatch() {
    let choose = UserArgs { subcommand: UserSubcommand::Profile };
    assert_eq!(
        choose.execute(&Some(identity_center())),
        Ok(UserAnswer::SelectProfile(SelectMode::Interactive))
    );
    assert_eq!(choose.execute(&Some(builder_id())), Err(CommandError::ProOnly));

    let export = UserArgs { subcommand: UserSubcommand::ExportToken };
    assert_eq!(export.execute(&None), Err(CommandError::NotLoggedIn));
    match export.execute(&Some(builder_id())) {
        Ok(UserAnswer::Print(json)) => {
            assert_eq!(parse(&json)["accessToken"].as_str(), Some("access-1"))
        },
        other => panic!("expected text to print, got {:?}", other),
    }
}

#[test]
fn command_errors_have_their_lines() {
    assert_eq!(CommandError::NotLoggedIn.message(), "Not logged in");
    assert_eq!(CommandError::ProOnly.message(), "This command is only available for Pro users");
    assert_eq!(CommandError::Serialize("x".to_string()).message(), "x");
}

#[test]
fn logout_always_succeeds() {
    let report = logout("q", "Amazon Q");
    assert_eq!(report.status, ExitStatus::Success);
    assert_eq!(
        report.lines,
        vec!["You are now logged out".to_string(), "Run q login to log back in to Amazon Q".to_string()]
    );
}

#[test]
fn login_failures_have_their_lines_and_statuses() {
    assert_eq!(
        login_failure_message(&AuthError::AlreadyAuthenticated, "q"),
        "Already logged in, please logout with q logout first"
    );
    assert_eq!(login_failure_message(&AuthError::NoMethodSelected, "q"), "No login method selected");
    assert_eq!(login_failure_message(&AuthError::NoProfileSelected, "q"), "No profile selected.\n");
    assert_eq!(login_failure_message(&AuthError::ProviderError("as is".to_string()), "q"), "as is");
    assert_eq!(login_failure_message(&AuthError::Store("s".to_string()), "q"), "s");
    assert_eq!(login_failure_message(&AuthError::Prompt("p".to_string()), "q"), "p");
    assert_eq!(login_failure_message(&AuthError::Cancelled, "q"), "");
    assert_eq!(
        login_failure_message(&AuthError::BrowserLaunchFailed, "q"),
        "Failed to open URL with browser"
    );

    let signed_in = SignedIn { method: AuthMethod::BuilderId, start_url: None, region: None };
    assert_eq!(login_status(&Ok(signed_in)), ExitStatus::Success);
    assert_eq!(login_status(&Err(AuthError::Cancelled)), ExitStatus::Interrupted);
    assert_eq!(login_status(&Err(AuthError::AlreadyAuthenticated)), ExitStatus::Failure);
    assert_eq!(login_status(&Err(AuthError::NoMethodSelected)), ExitStatus::Failure);
    assert_eq!(login_status(&Err(AuthError::ProviderError("x".to_string()))), ExitStatus::Failure);
}

#[test]
fn selection_failures_have_their_lines_and_statuses() {
    assert_eq!(select_failure_message(&SelectError::NoProfileSelected), "No profile selected.\n");
    assert_eq!(select_failure_message(&SelectError::Provider("p".to_string())), "p");
    assert_eq!(select_failure_message(&SelectError::Store("s".to_string())), "s");
    assert_eq!(select_failure_message(&SelectError::Prompt("t".to_string())), "t");
    assert_eq!(select_status(&Ok(())), ExitStatus::Success);
    assert_eq!(select_status(&Err(SelectError::NoProfileSelected)), ExitStatus::Failure);
}

#[test]
fn token_types_are_named() {
    assert_eq!(TokenType::BuilderId.to_text(), "BuilderId");
    assert_eq!(TokenType::IamIdentityCenter.to_text(), "IamIdentityCenter");
}

#[test]
fn tool_names_read_as_text() {
    let name = OriginalToolName::new("@server/tool".to_string());
    assert_eq!(name.as_str(), "@server/tool");
    assert_eq!(name.len(), 12);
    let borrowed: &str = name.borrow();
    assert_eq!(borrowed, "@server/tool");
    assert_eq!(name.clone(), name);

    let target = ToolSettingTarget::new("fs_write".to_string());
    assert_eq!(*target, "fs_write".to_string());
    let borrowed: &str = target.borrow();
    assert_eq!(borrowed, "fs_write");
}

#[test]
fn key_description_prefers_what_was_found() {
    assert_eq!(key_description(Some("found"), "fallback"), "found");
    assert_eq!(key_description(None, "fallback"), "fallback");
    assert_eq!(key_description(Some(""), "fallback"), "");
}
