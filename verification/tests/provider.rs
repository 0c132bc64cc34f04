use copilot_runtime::acp_client::DiscoveredModels;
use copilot_runtime::catalog::{CatalogSource, ModelCatalog};
use copilot_runtime::json::Json;
use copilot_runtime::message::{ContentBlock, Message, Role, ToolDefinition};
use copilot_runtime::process::CopilotOfficialCliProcess;
use copilot_runtime::prompt::ProviderTurnContext;
use copilot_runtime::provider::{
    CachedToken, CopilotApiProvider, CopilotBackend, CopilotModel, KnownModels, PrefetchAction,
    TierAction, TierOutcome,
};
use copilot_runtime::transport::{CopilotEnvironment, PremiumMode, SessionSettings};
use std::path::PathBuf;

fn known() -> KnownModels {
    KnownModels {
        default_model: "sonnet-4.6".to_string(),
        effort_model: "sonnet-5".to_string(),
    }
}

fn settings() -> SessionSettings {
    SessionSettings {
        model: None,
        premium: None,
    }
}

fn env(transport: Option<&str>) -> CopilotEnvironment {
    CopilotEnvironment {
        transport: transport.map(str::to_string),
        unknown_transport: format!("no transport {}", transport.unwrap_or_default()),
        settings: settings(),
        prefetch_grace_ms: None,
        cli_path: Err("JCODE_COPILOT_CLI_PATH is not set".to_string()),
        has_github_token: false,
    }
}

fn fallback() -> Vec<String> {
    vec!["sonnet-4.6".to_string(), "gpt-5.4".to_string()]
}

fn make_test_provider(fetched: Vec<String>) -> (CopilotApiProvider, ModelCatalog) {
    let provider = CopilotApiProvider::new_with_token(
        "test-token".to_string(),
        &settings(),
        &known(),
        Some("test-machine"),
    );
    let catalog = ModelCatalog {
        fetched_models: fetched,
        catalog_source: CatalogSource::Live,
        init_done: true,
    };
    (provider, catalog)
}

fn native() -> CopilotApiProvider {
    make_test_provider(Vec::new()).0
}

fn official() -> CopilotApiProvider {
    CopilotApiProvider::with_official_process(
        CopilotOfficialCliProcess::with_command(PathBuf::from("copilot")),
        &settings(),
        &known(),
    )
}

fn sonnet5_provider() -> CopilotApiProvider {
    let mut provider = native();
    assert!(provider.set_model("sonnet-5").is_ok());
    provider
}

fn make_msg(role: Role, blocks: Vec<ContentBlock>) -> Message {
    Message {
        role,
        content: blocks,
    }
}

fn text(text: &str) -> ContentBlock {
    ContentBlock::Text {
        text: text.to_string(),
    }
}

fn tool_use(id: &str, name: &str) -> ContentBlock {
    ContentBlock::ToolUse {
        id: id.to_string(),
        name: name.to_string(),
    }
}

fn tool_result(id: &str, content: &str) -> ContentBlock {
    ContentBlock::ToolResult {
        tool_use_id: id.to_string(),
        content: content.to_string(),
    }
}

fn body(model: &str) -> Json {
    Json::Object(vec![("model".to_string(), Json::text(model))])
}

#[test]
fn native_transport_regression_and_construction_lock() {
    let provider = native();
    assert_eq!(provider.transport(), "native");
    assert_eq!(
        provider.available_transports(),
        vec!["native", "official-cli"]
    );
    assert!(provider.set_transport("native", "unknown").is_ok());
    assert!(provider.set_transport("official-cli", "unknown").is_err());
    assert!(!provider.handles_tools_internally());
}

#[test]
fn transport_errors_say_what_to_do() {
    let provider = native();
    let error = provider.set_transport("official-cli", "unknown").unwrap_err();
    assert_eq!(
        error.message(),
        "Copilot transport is fixed at construction (native); set JCODE_COPILOT_TRANSPORT=official-cli and restart jcode"
    );
    let error = provider
        .set_transport("carrier-pigeon", "no pigeons here")
        .unwrap_err();
    assert_eq!(error.message(), "no pigeons here");
}

#[test]
fn native_copilot_fork_keeps_model_state_session_local() {
    let mut provider = native();
    assert!(provider.set_model("sonnet-4.6").is_ok());
    let mut forked = provider.fork();

    assert!(forked.set_model("gpt-5-mini").is_ok());

    assert_eq!(forked.model(), "gpt-5-mini");
    assert_eq!(provider.model(), "sonnet-4.6");
    assert_eq!(forked.transport(), "native");
}

#[test]
fn copilot_forks_do_not_share_reasoning_or_premium_settings() {
    let mut provider = native();
    assert!(provider.set_model("sonnet-5").is_ok());
    assert!(provider.set_reasoning_effort("high").is_ok());
    provider.set_premium_mode(PremiumMode::OnePerSession);
    let mut first = provider.fork();
    let second = provider.fork();

    assert!(first.set_reasoning_effort("low").is_ok());
    first.set_premium_mode(PremiumMode::Zero);

    assert_eq!(first.reasoning_effort().as_deref(), Some("low"));
    assert_eq!(first.get_premium_mode(), PremiumMode::Zero);
    assert_eq!(second.reasoning_effort().as_deref(), Some("high"));
    assert_eq!(second.get_premium_mode(), PremiumMode::OnePerSession);
    assert_eq!(provider.reasoning_effort().as_deref(), Some("high"));
    assert_eq!(provider.get_premium_mode(), PremiumMode::OnePerSession);
}

#[test]
fn one_per_session_forks_each_start_with_their_own_first_turn() {
    let mut provider = native();
    provider.set_premium_mode(PremiumMode::OnePerSession);
    provider.user_turn_count = 1;
    let mut first = provider.fork();
    let second = provider.fork();
    let messages = vec![Message::user("first turn")];

    assert!(first.is_user_initiated(&messages));
    assert!(second.is_user_initiated(&messages));
    first.user_turn_count += 1;
    assert!(!first.is_user_initiated(&messages));
    assert!(second.is_user_initiated(&messages));
}

#[test]
fn native_turns_are_counted() {
    let mut provider = native();
    provider.set_premium_mode(PremiumMode::OnePerSession);
    let messages = vec![Message::user("hello")];
    let first = provider.begin_native_turn(true, &messages).unwrap();
    assert!(first.is_user_initiated);
    assert_eq!(first.model, "sonnet-4.6");
    assert!(!first.uses_responses_api);
    assert_eq!(provider.user_turn_count, 1);
    let second = provider.begin_native_turn(true, &messages).unwrap();
    assert!(!second.is_user_initiated);
    assert_eq!(provider.user_turn_count, 1);
    provider.set_premium_mode(PremiumMode::Normal);
    assert!(provider.begin_native_turn(true, &messages).unwrap().is_user_initiated);
    provider.set_premium_mode(PremiumMode::Zero);
    assert!(!provider.begin_native_turn(true, &messages).unwrap().is_user_initiated);
    assert_eq!(provider.user_turn_count, 2);
    provider.set_premium_mode(PremiumMode::Normal);
    provider.user_turn_count = u64::MAX;
    assert!(provider.begin_native_turn(true, &messages).unwrap().is_user_initiated);
    assert_eq!(provider.user_turn_count, 0);
}

#[test]
fn official_transport_reports_internal_tool_handling() {
    let mut provider = official();
    assert_eq!(provider.transport(), "official-cli");
    assert!(provider.handles_tools_internally());
    assert!(!provider.supports_compaction());
    assert!(provider.set_reasoning_effort("high").is_err());
}

#[test]
fn transports_differ_in_what_they_support() {
    let native = native();
    let official = official();
    assert!(native.supports_compaction());
    assert!(native.supports_conversation_rewind());
    assert!(!official.supports_conversation_rewind());
    assert_eq!(native.model_switch_session_key(), None);
    assert_eq!(
        official.model_switch_session_key(),
        Some("copilot:official-cli")
    );
    assert_eq!(
        native.active_auth_method_label(),
        "GitHub OAuth token exchange"
    );
    assert_eq!(official.active_auth_method_label(), "Official Copilot CLI");
    assert_eq!(native.name(), "copilot");
    assert!(official.available_efforts().is_empty());
    assert_eq!(official.reasoning_effort(), None);
}

#[test]
fn available_models_display_returns_fetched_when_populated() {
    let fetched = vec![
        "opus-4.6".to_string(),
        "sonnet-4.6".to_string(),
        "gpt-5.3-codex".to_string(),
        "gemini-3-pro-preview".to_string(),
    ];
    let (provider, catalog) = make_test_provider(fetched.clone());
    let display = provider.available_models_display(&catalog, &fallback());
    assert_eq!(display, fetched);
    assert_eq!(
        provider.available_models_for_switching(&catalog, &fallback()),
        fetched
    );
}

#[test]
fn available_models_display_returns_fallback_when_empty() {
    let (provider, catalog) = make_test_provider(Vec::new());
    let display = provider.available_models_display(&catalog, &fallback());
    assert_eq!(display, fallback());
}

#[test]
fn available_models_static_always_returns_fallback() {
    let fetched = vec!["opus-4.6".to_string(), "gpt-5.3-codex".to_string()];
    let (provider, _catalog) = make_test_provider(fetched);
    assert_eq!(provider.available_models(&fallback()), fallback());
}

#[test]
fn set_model_accepts_any_model_id() {
    let mut provider = native();
    assert!(provider.set_model("opus-4.6").is_ok());
    assert_eq!(provider.model(), "opus-4.6");

    assert!(provider.set_model("some-new-model-2026").is_ok());
    assert_eq!(provider.model(), "some-new-model-2026");
}

#[test]
fn set_model_rejects_empty() {
    let mut provider = native();
    assert!(provider.set_model("").is_err());
    assert!(provider.set_model("   ").is_err());
}

#[test]
fn refused_models_change_nothing() {
    let mut provider = native();
    assert_eq!(
        provider.set_model("copilot:  ").unwrap_err().message(),
        "Copilot model cannot be empty"
    );
    assert_eq!(
        provider.set_model("opus-4.6[1m]").unwrap_err().message(),
        "1M context window models are not supported via Copilot. Use the Anthropic API directly."
    );
    assert_eq!(provider.model(), "sonnet-4.6");
    assert!(provider.set_model("copilot:gpt-5.4").is_ok());
    assert_eq!(provider.model(), "gpt-5.4");
}

#[test]
fn context_window_is_that_of_the_model() {
    let provider = native();
    assert_eq!(provider.context_window(None), 128_000);
    assert_eq!(provider.context_window(Some(200_000)), 200_000);
    assert_eq!(provider.context_window(Some(1_000_000)), 1_000_000);
    let mut provider = native();
    assert_eq!(provider.model_context_window(), 128_000);
    assert!(provider.set_model("gemini-2.5-pro").is_ok());
    assert_eq!(provider.model_context_window(), 1_000_000);
}

#[test]
fn has_credentials_returns_bool() {
    let _ = CopilotApiProvider::has_credentials(&env(None));
}

#[test]
fn credentials_depend_on_the_transport() {
    assert!(!CopilotApiProvider::has_credentials(&env(None)));
    let mut with_token = env(Some("native"));
    with_token.has_github_token = true;
    assert!(CopilotApiProvider::has_credentials(&with_token));
    assert!(CopilotApiProvider::has_credentials(&env(Some("official-cli"))));
    assert!(!CopilotApiProvider::has_credentials(&env(Some("other"))));
}

#[test]
fn fork_preserves_fetched_models() {
    let fetched = vec!["model-a".to_string(), "model-b".to_string()];
    let (provider, catalog) = make_test_provider(fetched.clone());
    let forked = provider.fork();
    assert_eq!(
        forked.available_models_display(&catalog, &fallback()),
        fetched
    );
}

#[test]
fn is_user_initiated_empty_messages() {
    let messages: Vec<Message> = vec![];
    assert!(CopilotApiProvider::is_user_initiated_raw(&messages));
}

#[test]
fn is_user_initiated_user_text_message() {
    let messages = vec![make_msg(Role::User, vec![text("Hello")])];
    assert!(CopilotApiProvider::is_user_initiated_raw(&messages));
}

#[test]
fn is_user_initiated_tool_result_is_agent() {
    let messages = vec![
        make_msg(Role::User, vec![text("Hello")]),
        make_msg(Role::Assistant, vec![tool_use("call_1", "file_read")]),
        make_msg(Role::User, vec![tool_result("call_1", "file content")]),
    ];
    assert!(!CopilotApiProvider::is_user_initiated_raw(&messages));
}

#[test]
fn is_user_initiated_assistant_last_is_user_initiated() {
    let messages = vec![
        make_msg(Role::User, vec![text("Hello")]),
        make_msg(Role::Assistant, vec![text("Hi there")]),
    ];
    assert!(CopilotApiProvider::is_user_initiated_raw(&messages));
}

#[test]
fn is_user_initiated_tool_result_with_memory_injection() {
    let messages = vec![
        make_msg(Role::User, vec![text("Hello")]),
        make_msg(Role::Assistant, vec![tool_use("call_1", "bash")]),
        make_msg(Role::User, vec![tool_result("call_1", "output")]),
        make_msg(
            Role::User,
            vec![text("<system-reminder>\nSome memory context\n</system-reminder>")],
        ),
    ];
    assert!(!CopilotApiProvider::is_user_initiated_raw(&messages));
}

#[test]
fn is_user_initiated_user_text_after_tool_result_without_system_reminder() {
    let messages = vec![
        make_msg(Role::User, vec![text("Hello")]),
        make_msg(Role::Assistant, vec![tool_use("call_1", "bash")]),
        make_msg(Role::User, vec![tool_result("call_1", "output")]),
        make_msg(Role::User, vec![text("Now do something else")]),
    ];
    assert!(CopilotApiProvider::is_user_initiated_raw(&messages));
}

#[test]
fn is_user_initiated_multiple_memory_injections_after_tool_result() {
    let messages = vec![
        make_msg(Role::Assistant, vec![tool_use("call_1", "bash")]),
        make_msg(Role::User, vec![tool_result("call_1", "output")]),
        make_msg(
            Role::User,
            vec![text("<system-reminder>\nMemory 1\n</system-reminder>")],
        ),
        make_msg(
            Role::User,
            vec![text("<system-reminder>\nMemory 2\n</system-reminder>")],
        ),
    ];
    assert!(!CopilotApiProvider::is_user_initiated_raw(&messages));
}

#[test]
fn messages_without_text_are_the_users() {
    let after_tool = |content: Vec<ContentBlock>| {
        vec![
            make_msg(Role::User, vec![tool_result("call_1", "output")]),
            make_msg(Role::User, content),
        ]
    };
    assert!(CopilotApiProvider::is_user_initiated_raw(&after_tool(vec![])));
    assert!(CopilotApiProvider::is_user_initiated_raw(&after_tool(vec![
        text("<system-reminder>x</system-reminder>"),
        ContentBlock::Image,
    ])));
    assert!(!CopilotApiProvider::is_user_initiated_raw(&vec![make_msg(
        Role::User,
        vec![text("see"), tool_result("call_1", "output")],
    )]));
}

#[test]
fn sonnet5_reasoning_effort_serialized_when_set() {
    let mut provider = sonnet5_provider();
    assert!(provider.set_reasoning_effort("high").is_ok());
    let mut body = body("sonnet-5");
    provider.add_reasoning_effort_parameter(&mut body, "sonnet-5");
    assert_eq!(body.str_at("reasoning_effort"), Some("high"));
    assert_eq!(provider.reasoning_effort().as_deref(), Some("high"));
}

#[test]
fn sonnet5_reasoning_effort_absent_when_unset() {
    let provider = sonnet5_provider();
    let mut body = body("sonnet-5");
    provider.add_reasoning_effort_parameter(&mut body, "sonnet-5");
    assert!(body.get("reasoning_effort").is_none());
    assert_eq!(provider.reasoning_effort(), None);
}

#[test]
fn sonnet5_rejects_invalid_efforts() {
    let mut provider = sonnet5_provider();
    for bad in ["none", "minimal", "banana", ""] {
        let err = provider.set_reasoning_effort(bad).unwrap_err();
        assert!(
            err.message().contains("Unsupported reasoning effort"),
            "{bad}: {}",
            err.message()
        );
    }
    assert_eq!(provider.reasoning_effort(), None);
}

#[test]
fn sonnet5_accepts_all_supported_efforts() {
    let mut provider = sonnet5_provider();
    for effort in ["low", "medium", "high", "xhigh", "max"] {
        assert!(provider.set_reasoning_effort(effort).is_ok());
        assert_eq!(provider.reasoning_effort().as_deref(), Some(effort));
    }
    assert_eq!(
        provider.available_efforts(),
        vec!["low", "medium", "high", "xhigh", "max"]
    );
}

#[test]
fn efforts_ignore_case_and_space() {
    let mut provider = sonnet5_provider();
    assert!(provider.set_reasoning_effort("  XHigh\t").is_ok());
    assert_eq!(provider.reasoning_effort().as_deref(), Some("xhigh"));
    assert!(provider.choose_effort("MAX", "max").is_ok());
    assert_eq!(provider.reasoning_effort().as_deref(), Some("max"));
    assert_eq!(
        provider.set_reasoning_effort("Banana").unwrap_err().message(),
        "Unsupported reasoning effort 'Banana' for Copilot sonnet-5. Supported: low, medium, high, xhigh, max"
    );
    assert_eq!(provider.reasoning_effort().as_deref(), Some("max"));
}

#[test]
fn non_sonnet_models_have_no_reasoning_effort() {
    let mut provider = native();
    assert!(provider.set_model("gpt-5.1-codex").is_ok());
    assert!(provider.available_efforts().is_empty());
    let err = provider.set_reasoning_effort("high").unwrap_err();
    assert!(err.message().contains("not supported"));
    let mut body = body("gpt-5.1-codex");
    provider.add_reasoning_effort_parameter(&mut body, "gpt-5.1-codex");
    assert!(body.get("reasoning_effort").is_none());
}

#[test]
fn effort_errors_name_the_model() {
    let mut provider = native();
    assert_eq!(
        provider.set_reasoning_effort("high").unwrap_err().message(),
        "Reasoning effort is not supported for Copilot model 'sonnet-4.6' (only sonnet-5)"
    );
    assert_eq!(
        official().set_reasoning_effort("high").unwrap_err().message(),
        "Reasoning effort selection is not supported by the official-cli ACP transport"
    );
}

#[test]
fn effort_not_serialized_after_switching_away_from_sonnet5() {
    let mut provider = sonnet5_provider();
    assert!(provider.set_reasoning_effort("max").is_ok());
    assert!(provider.set_model("gpt-5.1-codex").is_ok());
    let mut body = body("gpt-5.1-codex");
    provider.add_reasoning_effort_parameter(&mut body, "gpt-5.1-codex");
    assert!(body.get("reasoning_effort").is_none());
    assert_eq!(provider.reasoning_effort(), None);
}

#[test]
fn effort_comes_back_with_its_model() {
    let mut provider = sonnet5_provider();
    assert!(provider.set_reasoning_effort("max").is_ok());
    assert!(provider.set_model("gpt-5.1-codex").is_ok());
    assert!(provider.set_model("sonnet-5").is_ok());
    assert_eq!(provider.reasoning_effort().as_deref(), Some("max"));
    assert_eq!(provider.request_effort("sonnet-5").as_deref(), Some("max"));
    assert_eq!(provider.request_effort("gpt-5.4"), None);
}

#[test]
fn fork_preserves_reasoning_effort() {
    let mut provider = sonnet5_provider();
    assert!(provider.set_reasoning_effort("xhigh").is_ok());
    let forked = provider.fork();
    assert_eq!(forked.reasoning_effort().as_deref(), Some("xhigh"));
}

#[test]
fn official_transport_needs_the_place_of_the_cli() {
    let error = CopilotApiProvider::new(env(Some("official-cli")), &known(), Err(String::new()), None)
        .err()
        .unwrap();
    assert!(error.message().contains("JCODE_COPILOT_CLI_PATH"));
    let mut located = env(Some("official-cli"));
    located.cli_path = Ok(PathBuf::from("/opt/copilot"));
    located.settings.model = Some("gpt-5.4".to_string());
    located.settings.premium = Some("0".to_string());
    let provider = CopilotApiProvider::new(located, &known(), Err(String::new()), None)
        .ok()
        .unwrap();
    assert_eq!(provider.model(), "gpt-5.4");
    assert_eq!(provider.get_premium_mode(), PremiumMode::Zero);
    assert_eq!(
        provider.probe_official_cli().ok().unwrap().command,
        PathBuf::from("/opt/copilot")
    );
}

#[test]
fn native_transport_needs_a_token() {
    let error = CopilotApiProvider::new(
        env(None),
        &known(),
        Err("no GitHub token".to_string()),
        None,
    )
    .err()
    .unwrap();
    assert_eq!(error.message(), "no GitHub token");
    let error = CopilotApiProvider::new(env(Some("tcp")), &known(), Ok("t".to_string()), None)
        .err()
        .unwrap();
    assert_eq!(error.message(), "no transport tcp");
    let provider = CopilotApiProvider::new(env(None), &known(), Ok("t".to_string()), Some(" m1 \n"))
        .ok()
        .unwrap();
    assert_eq!(provider.model(), "sonnet-4.6");
    assert_eq!(
        provider.probe_official_cli().err().unwrap().message(),
        "Copilot transport is not official-cli"
    );
    let (session_id, machine_id) = provider.native_identity().ok().unwrap();
    assert_eq!(session_id.len(), 36);
    assert_eq!(machine_id, "m1");
    assert!(matches!(
        &*provider.backend,
        CopilotBackend::Native { github_token, .. } if github_token == "t"
    ));
}

#[test]
fn bearer_tokens_are_those_of_the_native_transport() {
    let fresh = CachedToken {
        token: "abc".to_string(),
        expired: false,
    };
    let stale = CachedToken {
        token: "abc".to_string(),
        expired: true,
    };
    let provider = native();
    assert_eq!(
        provider.get_bearer_token(Some(&fresh)).ok().unwrap().as_deref(),
        Some("abc")
    );
    assert_eq!(provider.get_bearer_token(Some(&stale)).ok().unwrap(), None);
    assert_eq!(provider.get_bearer_token(None).ok().unwrap(), None);
    assert_eq!(
        official().get_bearer_token(Some(&fresh)).err().unwrap().message(),
        "Native Copilot bearer tokens are unavailable on official-cli transport"
    );
    assert_eq!(
        official().native_identity().err().unwrap().message(),
        "Native Copilot request attempted on official-cli transport"
    );
}

fn served(id: &str, picker: bool) -> CopilotModel {
    CopilotModel {
        id: id.to_string(),
        model_picker_enabled: picker,
    }
}

#[test]
fn tier_detection_takes_the_best_model() {
    let (mut provider, _) = make_test_provider(Vec::new());
    let mut catalog = ModelCatalog::new();
    assert_eq!(provider.tier_action(false), TierAction::FetchModels);
    assert_eq!(provider.tier_action(true), TierAction::KeepModel);
    assert_eq!(official().tier_action(true), TierAction::ProbeOfficialCli);

    let kept = provider.detect_tier_and_set_default(
        &mut catalog,
        TierOutcome::Fetched {
            models: vec![served("a", true), served("b", false), served("c", true)],
            best: "c".to_string(),
        },
    );
    assert_eq!(provider.model(), "c");
    assert_eq!(catalog.fetched_models, vec!["a", "c"]);
    assert_eq!(catalog.catalog_source, CatalogSource::Live);
    assert!(catalog.init_done);
    let kept = kept.unwrap();
    assert_eq!(kept.models, vec!["a", "c"]);
    assert!(kept.fetched_at_rfc3339.ends_with("+00:00"));
    assert!(kept.fetched_at_rfc3339.contains('T'));
    assert_eq!(provider.model_catalog_detail(&catalog), "");
}

#[test]
fn tier_detection_shows_all_where_none_is_picked() {
    let mut provider = native();
    let mut catalog = ModelCatalog::new();
    let _ = provider.detect_tier_and_set_default(
        &mut catalog,
        TierOutcome::Fetched {
            models: vec![served("a", false), served("b", false)],
            best: "b".to_string(),
        },
    );
    assert_eq!(catalog.fetched_models, vec!["a", "b"]);
    let kept = provider.detect_tier_and_set_default(
        &mut catalog,
        TierOutcome::Fetched {
            models: vec![],
            best: "z".to_string(),
        },
    );
    assert!(kept.is_none());
    assert!(catalog.fetched_models.is_empty());
    assert_eq!(provider.model(), "z");
}

#[test]
fn tier_detection_that_fails_still_completes_the_setup() {
    for outcome in [
        TierOutcome::Probed,
        TierOutcome::Kept,
        TierOutcome::NoToken,
        TierOutcome::NotFetched,
    ] {
        let mut provider = native();
        let mut catalog = ModelCatalog::new();
        assert!(provider
            .detect_tier_and_set_default(&mut catalog, outcome)
            .is_none());
        assert!(catalog.init_done);
        assert_eq!(catalog.catalog_source, CatalogSource::Absent);
        assert_eq!(provider.model(), "sonnet-4.6");
    }
    let mut catalog = ModelCatalog::new();
    CopilotApiProvider::complete_init_without_tier_detection(&mut catalog);
    assert!(catalog.init_done);
}

#[test]
fn discovered_models_are_taken_over() {
    let mut provider = official();
    let mut catalog = ModelCatalog::new();
    provider.update_official_models(
        &mut catalog,
        DiscoveredModels {
            current: Some("gpt-5-mini".to_string()),
            available: vec!["gpt-5-mini".to_string()],
        },
        false,
    );
    assert_eq!(provider.model(), "gpt-5-mini");
    assert_eq!(catalog.fetched_models, vec!["gpt-5-mini"]);
    assert_eq!(catalog.catalog_source, CatalogSource::Live);
    provider.update_official_models(
        &mut catalog,
        DiscoveredModels {
            current: Some("other".to_string()),
            available: vec![],
        },
        true,
    );
    assert_eq!(provider.model(), "gpt-5-mini");
    provider.update_official_models(
        &mut catalog,
        DiscoveredModels {
            current: Some("  ".to_string()),
            available: vec![],
        },
        false,
    );
    assert_eq!(provider.model(), "gpt-5-mini");
    assert_eq!(catalog.fetched_models, vec!["gpt-5-mini"]);
}

#[test]
fn prefetch_waits_out_the_start() {
    assert_eq!(
        native().prefetch_models(1999, 2000),
        PrefetchAction::Skip
    );
    assert_eq!(
        native().prefetch_models(2000, 2000),
        PrefetchAction::Detect
    );
    assert_eq!(official().prefetch_models(0, 2000), PrefetchAction::Discover);
}

#[test]
fn official_turns_are_planned() {
    let mut provider = official();
    assert!(provider.set_model("gpt-5-mini").is_ok());
    let turn = ProviderTurnContext {
        user_content: vec![text("do it")],
        memory_context: Some("recalled".to_string()),
    };
    let tools = vec![ToolDefinition {
        name: "view".to_string(),
    }];
    let plan = provider
        .complete_official(
            &tools,
            "be brief",
            "today",
            Some("jcode-copilot-acp-v1:safe:upstream-1"),
            Some(&turn),
        )
        .ok()
        .unwrap();
    assert_eq!(plan.selected_model, "gpt-5-mini");
    assert_eq!(plan.resume_session_id.as_deref(), Some("upstream-1"));
    assert_eq!(
        plan.prompt,
        "do it\n\n<system-reminder>\ntoday\n</system-reminder>\n\nrecalled"
    );
    assert_eq!(
        plan.fresh_prompt,
        "<system>\nbe brief\n\ntoday\n</system>\n\ndo it\n\nrecalled"
    );
    assert!(plan.tool_policy.allow_read);
    assert!(!plan.tool_policy.allow_execute);
    let command = plan.into_turn(7);
    assert_eq!(command.generation, 7);
    assert_eq!(command.selected_model, "gpt-5-mini");

    let plan = provider
        .complete_official(&tools, "be brief", "", None, Some(&turn))
        .ok()
        .unwrap();
    assert_eq!(plan.prompt, plan.fresh_prompt);
    assert_eq!(plan.resume_session_id, None);
}

#[test]
fn official_turns_need_their_context() {
    let provider = official();
    let tools = Vec::new();
    assert_eq!(
        provider
            .complete_official(&tools, "system", "", None, None)
            .err()
            .unwrap()
            .message(),
        "An explicit current user prompt is required for official Copilot CLI requests"
    );
    let turn = ProviderTurnContext {
        user_content: vec![text("do it")],
        memory_context: None,
    };
    assert_eq!(
        provider
            .complete_split_with_context(&tools, "", "", None, false, Some(&turn))
            .err()
            .unwrap()
            .message(),
        "Official Copilot CLI requests require a session working directory"
    );
    assert!(provider
        .complete_split_with_context(&tools, "", "", None, true, Some(&turn))
        .ok()
        .unwrap()
        .is_some());
    assert!(native()
        .complete_split_with_context(&tools, "", "", None, false, Some(&turn))
        .ok()
        .unwrap()
        .is_none());
    assert_eq!(
        native()
            .complete_official(&tools, "", "", None, Some(&turn))
            .err()
            .unwrap()
            .message(),
        "Copilot transport is not official-cli"
    );
}

#[test]
fn disconnected_history_is_rejected_instead_of_flattened() {
    let mut catalog = ModelCatalog::new();
    let provider = official();
    CopilotApiProvider::complete_init_without_tier_detection(&mut catalog);
    let messages = vec![
        Message::user("old prompt"),
        Message::assistant_text("old answer"),
        Message::user("new prompt"),
    ];
    let error = match provider.complete(&messages, None) {
        Ok(_) => panic!("disconnected history should fail"),
        Err(error) => error,
    };
    assert!(error
        .message()
        .contains("cannot replay disconnected history"));
}

#[test]
fn conversations_without_a_context_are_refused_by_the_cli_alone() {
    let missing =
        "An explicit current user prompt is required for official Copilot CLI requests";
    let history = vec![
        Message::user("old prompt"),
        Message::assistant_text("old answer"),
        Message::user("new prompt"),
    ];
    let first = vec![Message::user("new prompt")];
    let provider = official();
    assert_eq!(
        provider
            .complete(&history, Some("existing-session"))
            .unwrap_err()
            .message(),
        missing
    );
    assert_eq!(
        provider.complete(&first, None).unwrap_err().message(),
        missing
    );
    assert_eq!(
        provider.complete(&Vec::new(), None).unwrap_err().message(),
        missing
    );
    assert!(native().complete(&history, None).is_ok());
    assert!(native().complete(&first, Some("existing-session")).is_ok());
}

#[test]
fn changes_reach_their_own_session_alone() {
    let mut provider = sonnet5_provider();
    assert!(provider.set_reasoning_effort("high").is_ok());
    provider.set_premium_mode(PremiumMode::OnePerSession);
    let messages = vec![Message::user("hello")];
    assert!(provider.begin_native_turn(true, &messages).unwrap().is_user_initiated);
    let mut forked = provider.fork();
    let second = provider.fork();
    assert_eq!(forked.user_turn_count, 0);
    assert!(forked.begin_native_turn(true, &messages).unwrap().is_user_initiated);
    assert!(!forked.begin_native_turn(true, &messages).unwrap().is_user_initiated);
    assert!(forked.set_reasoning_effort("low").is_ok());
    assert!(forked.set_model("gpt-5-mini").is_ok());
    forked.set_premium_mode(PremiumMode::Zero);
    for other in [&provider, &second] {
        assert_eq!(other.model(), "sonnet-5");
        assert_eq!(other.reasoning_effort().as_deref(), Some("high"));
        assert_eq!(other.get_premium_mode(), PremiumMode::OnePerSession);
    }
    assert_eq!(provider.user_turn_count, 1);
    assert_eq!(second.user_turn_count, 0);
    assert_eq!(forked.user_turn_count, 1);
}

#[test]
fn native_bodies_are_those_of_their_api() {
    let mut provider = sonnet5_provider();
    assert!(provider.set_reasoning_effort("high").is_ok());
    let messages = vec![Message::user("hello")];
    let item = || vec![Json::text("item")];
    let turn = provider.begin_native_turn(true, &messages).unwrap();
    let body = provider.native_body(&turn, item(), Vec::new(), "be brief");
    assert_eq!(body.str_at("model"), Some("sonnet-5"));
    assert_eq!(body.str_at("reasoning_effort"), Some("high"));
    assert_eq!(body.array_at("messages").map(Vec::len), Some(1));
    assert!(body.get("input").is_none());
    assert!(body.get("instructions").is_none());

    assert!(provider.set_model("gpt-5.6").is_ok());
    let turn = provider.begin_native_turn(true, &messages).unwrap();
    assert!(turn.uses_responses_api);
    let body = provider.native_body(&turn, item(), item(), "be brief");
    assert_eq!(body.str_at("model"), Some("gpt-5.6"));
    assert_eq!(body.str_at("instructions"), Some("be brief"));
    assert_eq!(body.array_at("input").map(Vec::len), Some(1));
    assert_eq!(body.array_at("tools").map(Vec::len), Some(1));
    assert!(body.get("messages").is_none());
    assert!(body.get("reasoning_effort").is_none());
}

#[test]
fn a_turn_without_a_token_does_not_count() {
    let mut provider = native();
    provider.set_premium_mode(PremiumMode::OnePerSession);
    let messages = vec![Message::user("hello")];
    assert!(provider.begin_native_turn(false, &messages).is_none());
    assert_eq!(provider.user_turn_count, 0);
    let turn = provider.begin_native_turn(true, &messages).unwrap();
    assert!(turn.is_user_initiated);
    assert_eq!(provider.user_turn_count, 1);
}
