use copilot_runtime::model::{
    context_limit_for_model_with_provider, copilot_api_path,
    copilot_model_supports_reasoning_effort, copilot_model_uses_responses_api,
    is_supported_effort, strip_own_model_prefix, supported_efforts,
};
use copilot_runtime::provider::CopilotApiProvider;

#[test]
fn gpt5_copilot_models_use_max_completion_tokens() {
    assert_eq!(
        CopilotApiProvider::max_token_parameter_for_model("gpt-5.4"),
        "max_completion_tokens"
    );
    assert_eq!(
        CopilotApiProvider::max_token_parameter_for_model(" GPT-5.4-pro "),
        "max_completion_tokens"
    );
    assert_eq!(
        CopilotApiProvider::max_token_parameter_for_model("gpt-5.3-codex"),
        "max_completion_tokens"
    );
}

#[test]
fn non_gpt5_copilot_models_keep_max_tokens() {
    assert_eq!(
        CopilotApiProvider::max_token_parameter_for_model("sonnet-4.6"),
        "max_tokens"
    );
    assert_eq!(
        CopilotApiProvider::max_token_parameter_for_model("gemini-3-pro-preview"),
        "max_tokens"
    );
    assert_eq!(
        CopilotApiProvider::max_token_parameter_for_model("gpt-4.1"),
        "max_tokens"
    );
}

#[test]
fn only_gpt_5_6_family_uses_responses_api() {
    assert!(copilot_model_uses_responses_api("gpt-5.6-terra"));
    assert!(copilot_model_uses_responses_api("gpt-5.6-sol"));
    assert!(copilot_model_uses_responses_api("gpt-5.6-luna"));
    assert!(!copilot_model_uses_responses_api("gpt-5.4"));
    assert!(!copilot_model_uses_responses_api("sonnet-4.6"));
    assert_eq!(copilot_api_path(true), "responses");
    assert_eq!(copilot_api_path(false), "chat/completions");
}

#[test]
fn responses_api_ignores_case_and_space() {
    assert!(copilot_model_uses_responses_api("  GPT-5.6-Terra "));
    assert!(!copilot_model_uses_responses_api("x-gpt-5.6"));
    assert!(!copilot_model_uses_responses_api(""));
}

#[test]
fn context_window_handles_dot_and_dash_names() {
    assert_eq!(
        context_limit_for_model_with_provider("opus-4.6", Some("copilot")),
        Some(200_000)
    );
    assert_eq!(
        context_limit_for_model_with_provider("opus-4-6", Some("copilot")),
        Some(200_000)
    );
    assert_eq!(
        context_limit_for_model_with_provider("opus-4.6-fast", Some("copilot")),
        Some(200_000)
    );
    assert_eq!(
        context_limit_for_model_with_provider("sonnet-4.6", Some("copilot")),
        Some(128_000)
    );
    assert_eq!(
        context_limit_for_model_with_provider("sonnet-4-6", Some("copilot")),
        Some(128_000)
    );
    assert_eq!(
        context_limit_for_model_with_provider("gpt-5.4", Some("copilot")),
        Some(128_000)
    );
    assert_eq!(
        context_limit_for_model_with_provider("gpt-5.4-pro", Some("copilot")),
        Some(128_000)
    );
    assert_eq!(
        context_limit_for_model_with_provider("gpt-5.3-codex", Some("copilot")),
        Some(128_000)
    );
    assert_eq!(
        context_limit_for_model_with_provider("gemini-3-pro-preview", Some("copilot")),
        Some(1_000_000)
    );
    assert_eq!(
        context_limit_for_model_with_provider("gemini-2.5-pro", Some("copilot")),
        Some(1_000_000)
    );
    assert_eq!(
        context_limit_for_model_with_provider("unknown-model", Some("copilot")),
        Some(128_000)
    );
}

#[test]
fn own_prefix_makes_no_difference() {
    assert_eq!(strip_own_model_prefix("copilot:gpt-5.4", "copilot:"), "gpt-5.4");
    assert_eq!(strip_own_model_prefix("gpt-5.4", "copilot:"), "gpt-5.4");
    assert_eq!(
        strip_own_model_prefix("  copilot: gpt-5.4 \n", "copilot:"),
        "gpt-5.4"
    );
    assert_eq!(strip_own_model_prefix("\u{3000}gpt\u{a0}", "copilot:"), "gpt");
}

#[test]
fn efforts_are_those_of_one_model() {
    assert!(copilot_model_supports_reasoning_effort("sonnet-5", "sonnet-5"));
    assert!(!copilot_model_supports_reasoning_effort("sonnet-5-fast", "sonnet-5"));
    assert_eq!(
        supported_efforts(),
        vec!["low", "medium", "high", "xhigh", "max"]
    );
    assert!(is_supported_effort("xhigh"));
    assert!(!is_supported_effort("XHIGH"));
}
