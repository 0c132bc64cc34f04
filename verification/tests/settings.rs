use copilot_runtime::catalog::{
    catalog_to_persist, load_persisted_catalog, persist_catalog, read_catalog, write_catalog,
    CatalogSource, ModelCatalog, PersistedCatalog,
};
use copilot_runtime::dispatch::{
    complete_split_for_request, ActiveProvider, CompletionMode, MultiProvider, ProviderSlot,
    SplitCall, UnavailableWords,
};
use copilot_runtime::identity::{get_or_create_machine_id, machine_id_from, new_identifier};
use copilot_runtime::json::parse_json;
use copilot_runtime::text::{
    contains, decimal, find_char, join, replace_char, starts_with, strip_prefix, trim,
};
use copilot_runtime::transport::{
    env_premium_mode, has_credentials, is_configured, official_cli_configured,
    official_cli_selected, parse_number, selected_transport, startup_prefetch_grace_ms,
    unavailable_message, CopilotEnvironment, CopilotTransport, PremiumMode, SessionSettings,
};
use std::path::PathBuf;

fn env(transport: Option<&str>) -> CopilotEnvironment {
    CopilotEnvironment {
        transport: transport.map(str::to_string),
        unknown_transport: format!("no transport {}", transport.unwrap_or_default()),
        settings: SessionSettings {
            model: None,
            premium: None,
        },
        prefetch_grace_ms: None,
        cli_path: Err("not set".to_string()),
        has_github_token: false,
    }
}

#[test]
fn the_native_transport_is_the_default() {
    assert_eq!(
        selected_transport(&env(None)).ok(),
        Some(CopilotTransport::Native)
    );
    assert_eq!(
        selected_transport(&env(Some("native"))).ok(),
        Some(CopilotTransport::Native)
    );
    assert_eq!(
        selected_transport(&env(Some("official-cli"))).ok(),
        Some(CopilotTransport::OfficialCli)
    );
    assert!(selected_transport(&env(Some("Official-CLI"))).is_err());
    assert!(official_cli_selected(&env(Some("official-cli"))));
    assert!(!official_cli_selected(&env(None)));
    assert_eq!(CopilotTransport::OfficialCli.as_str(), "official-cli");
}

#[test]
fn a_way_to_copilot_is_configured() {
    assert!(!is_configured(&env(None)));
    let mut signed_in = env(None);
    signed_in.has_github_token = true;
    assert!(has_credentials(&signed_in));
    assert!(is_configured(&signed_in));
    let mut official = env(Some("official-cli"));
    assert!(!official_cli_configured(&official));
    assert!(!is_configured(&official));
    official.cli_path = Ok(PathBuf::from("copilot"));
    assert!(official_cli_configured(&official));
    assert!(is_configured(&official));
    official.transport = None;
    assert!(!is_configured(&official));
}

#[test]
fn no_way_to_copilot_is_explained() {
    assert_eq!(
        unavailable_message(&env(Some("official-cli"))),
        "GitHub Copilot official-cli transport is unavailable. Check JCODE_COPILOT_CLI_PATH and the official CLI ACP handshake."
    );
    assert_eq!(
        unavailable_message(&env(None)),
        "GitHub Copilot credentials not available. Run `jcode login --provider copilot` first."
    );
    assert_eq!(
        unavailable_message(&env(Some("x"))),
        "no transport x"
    );
}

#[test]
fn an_absent_copilot_is_explained_by_its_transport() {
    for (transport, said) in [
        (
            Some("official-cli"),
            "GitHub Copilot official-cli transport is unavailable. Check JCODE_COPILOT_CLI_PATH and the official CLI ACP handshake.",
        ),
        (
            None,
            "GitHub Copilot credentials not available. Run `jcode login --provider copilot` first.",
        ),
        (Some("x"), "no transport x"),
    ] {
        let words = UnavailableWords::in_environment("none".to_string(), &env(transport));
        assert_eq!(
            nobody().complete_on_provider(ActiveProvider::Copilot, &words),
            Err(said.to_string())
        );
        assert_eq!(
            nobody().complete_on_provider(ActiveProvider::Anthropic, &words),
            Err("none".to_string())
        );
    }
}

#[test]
fn premium_mode_comes_from_the_environment() {
    let mode = |premium: Option<&str>| {
        env_premium_mode(&SessionSettings {
            model: None,
            premium: premium.map(str::to_string),
        })
    };
    assert_eq!(mode(Some("0")), PremiumMode::Zero);
    assert_eq!(mode(Some("1")), PremiumMode::OnePerSession);
    assert_eq!(mode(Some("2")), PremiumMode::Normal);
    assert_eq!(mode(None), PremiumMode::Normal);
}

#[test]
fn grace_comes_from_the_environment() {
    let mut env = env(None);
    assert_eq!(startup_prefetch_grace_ms(&env), 2000);
    env.prefetch_grace_ms = Some("250".to_string());
    assert_eq!(startup_prefetch_grace_ms(&env), 250);
    env.prefetch_grace_ms = Some("soon".to_string());
    assert_eq!(startup_prefetch_grace_ms(&env), 2000);
}

#[test]
fn numbers_are_read_as_the_standard_library_does() {
    for text in [
        "0",
        "007",
        "+12",
        "18446744073709551615",
        "18446744073709551616",
        "99999999999999999999999",
        "",
        "+",
        "-1",
        " 1",
        "1 ",
        "1_0",
        "++1",
        "\u{661}",
    ] {
        assert_eq!(parse_number(text), text.parse::<u64>().ok(), "{text:?}");
    }
}

#[test]
fn catalogs_are_kept_and_read_back() {
    let models = vec!["a".to_string(), "b".to_string()];
    let kept = catalog_to_persist(&models, "2026-01-01T00:00:00+00:00".to_string()).unwrap();
    assert_eq!(kept.fetched_at_rfc3339, "2026-01-01T00:00:00+00:00");
    let mut catalog = ModelCatalog::new();
    assert_eq!(catalog.model_catalog_detail(), "catalog still loading");
    catalog.seed_cached_catalog(Some(kept));
    assert_eq!(catalog.fetched_models, models);
    assert_eq!(catalog.catalog_source, CatalogSource::Cached);
    assert_eq!(catalog.model_catalog_detail(), "cached live catalog");
    assert!(!catalog.init_done);
    catalog.seed_cached_catalog(None);
    assert_eq!(catalog.fetched_models, models);
    assert!(persist_catalog(&Vec::new()).is_none());
    assert!(persist_catalog(&models).unwrap().fetched_at_rfc3339.len() >= 25);
    assert!(load_persisted_catalog(Some(PersistedCatalog {
        models: Vec::new(),
        fetched_at_rfc3339: String::new(),
    }))
    .is_none());
}

#[test]
fn catalogs_are_written_and_read_as_json() {
    let kept = PersistedCatalog {
        models: vec!["a".to_string(), "b".to_string()],
        fetched_at_rfc3339: "2026-01-01T00:00:00+00:00".to_string(),
    };
    let read = read_catalog(&write_catalog(&kept)).unwrap();
    assert_eq!(read.models, kept.models);
    assert_eq!(read.fetched_at_rfc3339, kept.fetched_at_rfc3339);
    let parsed = |text: &str| read_catalog(&parse_json(text).unwrap());
    assert_eq!(
        parsed("{\"models\":[\"x\"],\"fetched_at_rfc3339\":\"t\",\"more\":1}")
            .unwrap()
            .models,
        vec!["x"]
    );
    assert!(parsed("{\"models\":[\"x\",1],\"fetched_at_rfc3339\":\"t\"}").is_none());
    assert!(parsed("{\"models\":[\"x\"]}").is_none());
    assert!(parsed("{\"fetched_at_rfc3339\":\"t\"}").is_none());
    assert!(parsed("[]").is_none());
}

#[test]
fn machines_keep_their_identifier() {
    let known = get_or_create_machine_id(Some(" 0123 \n"));
    assert_eq!(known.id, "0123");
    assert!(!known.created);
    for stored in [None, Some(" \n")] {
        let fresh = get_or_create_machine_id(stored);
        assert!(fresh.created);
        assert_eq!(fresh.id.len(), 32);
        assert!(fresh
            .id
            .chars()
            .all(|c| c.is_ascii_digit() || ('a'..='f').contains(&c)));
    }
    assert_eq!(
        machine_id_from("67e55044-10b1-426f-9247-bb680e5fe0c8").id,
        "67e5504410b1426f9247bb680e5fe0c8"
    );
    let one = new_identifier();
    assert_eq!(one.len(), 36);
    assert_eq!(one.as_bytes()[14], b'4');
    assert_ne!(one, new_identifier());
}

fn words() -> UnavailableWords {
    UnavailableWords {
        anthropic: "no anthropic".to_string(),
        copilot: "no copilot".to_string(),
    }
}

fn nobody() -> MultiProvider {
    MultiProvider {
        anthropic_api: false,
        anthropic_cli: false,
        openai: false,
        copilot: false,
        antigravity: false,
        gemini: false,
        cursor: false,
        bedrock: false,
        openrouter: false,
    }
}

#[test]
fn requests_go_where_chosen() {
    let mut providers = nobody();
    providers.anthropic_cli = true;
    assert_eq!(
        providers.complete_on_provider(ActiveProvider::Anthropic, &words()),
        Ok(ProviderSlot::AnthropicCli)
    );
    providers.anthropic_api = true;
    assert_eq!(
        providers.complete_on_provider(ActiveProvider::Anthropic, &words()),
        Ok(ProviderSlot::AnthropicApi)
    );
    providers.copilot = true;
    assert_eq!(
        providers.complete_split_on_provider(ActiveProvider::Copilot, true, &words()),
        Ok((ProviderSlot::Copilot, SplitCall::WithContext))
    );
    assert_eq!(
        providers.complete_split_on_provider(ActiveProvider::Copilot, false, &words()),
        Ok((ProviderSlot::Copilot, SplitCall::Plain))
    );
    providers.openai = true;
    providers.antigravity = true;
    providers.gemini = true;
    providers.cursor = true;
    providers.bedrock = true;
    providers.openrouter = true;
    for (chosen, slot) in [
        (ActiveProvider::OpenAI, ProviderSlot::OpenAI),
        (ActiveProvider::Antigravity, ProviderSlot::Antigravity),
        (ActiveProvider::Gemini, ProviderSlot::Gemini),
        (ActiveProvider::Cursor, ProviderSlot::Cursor),
        (ActiveProvider::Bedrock, ProviderSlot::Bedrock),
        (ActiveProvider::OpenRouter, ProviderSlot::OpenRouter),
    ] {
        assert_eq!(providers.complete_on_provider(chosen, &words()), Ok(slot));
    }
    assert_eq!(complete_split_for_request(true), SplitCall::WithContext);
}

#[test]
fn providers_that_are_not_there_say_so() {
    let providers = nobody();
    for (chosen, text) in [
        (ActiveProvider::Anthropic, "no anthropic"),
        (
            ActiveProvider::OpenAI,
            "OpenAI credentials not available. Run `jcode login --provider openai` to log in.",
        ),
        (ActiveProvider::Copilot, "no copilot"),
        (
            ActiveProvider::Antigravity,
            "Antigravity is not available. Run `jcode login --provider antigravity`.",
        ),
        (
            ActiveProvider::Gemini,
            "Gemini is not available. Run `jcode login --provider gemini`.",
        ),
        (
            ActiveProvider::Cursor,
            "Cursor is not available. Run `jcode login --provider cursor`.",
        ),
        (
            ActiveProvider::Bedrock,
            "AWS Bedrock is not available. Configure AWS credentials and region, or set AWS_PROFILE/AWS_REGION.",
        ),
        (
            ActiveProvider::OpenRouter,
            "OpenRouter credentials not available. Set OPENROUTER_API_KEY environment variable.",
        ),
    ] {
        assert_eq!(
            providers.complete_on_provider(chosen, &words()),
            Err(text.to_string())
        );
        assert_eq!(
            providers.complete_split_on_provider(chosen, true, &words()),
            Err(text.to_string())
        );
    }
}

#[test]
fn request_sizes_are_estimated() {
    let unified = CompletionMode::Unified { system: "\u{e9}abc" };
    assert_eq!(
        MultiProvider::estimate_request_input(10, 6, unified),
        (21, 5)
    );
    let split = CompletionMode::Split {
        system_static: "ab",
        system_dynamic: "cdef",
    };
    assert_eq!(MultiProvider::estimate_request_input(1, 1, split), (8, 2));
    assert_eq!(unified.log_suffix(), "");
    assert_eq!(split.log_suffix(), " (split)");
    assert_eq!(unified.switch_log_prefix(), "Auto-fallback");
    assert_eq!(split.switch_log_prefix(), "Auto-fallback (split)");
}

#[test]
fn texts_are_handled_as_the_standard_library_does() {
    for text in ["", " a ", "\t\n", "\u{3000}x\u{2003}", "a b", "\u{200b}z"] {
        assert_eq!(trim(text), text.trim(), "{text:?}");
    }
    assert!(contains("hello", ""));
    assert!(contains("hello", "llo"));
    assert!(!contains("hello", "lol"));
    assert!(starts_with("hello", "he"));
    assert!(!starts_with("h", "he"));
    assert_eq!(strip_prefix("a:b", "a:"), Some("b"));
    assert_eq!(strip_prefix("a:b", "b"), None);
    assert_eq!(find_char("\u{e9}:x:", ':'), Some(1));
    assert_eq!(find_char("x", ':'), None);
    assert_eq!(replace_char("a.b.c", '.', "-"), "a-b-c");
    assert_eq!(join(&vec!["a".to_string(), "b".to_string()], ", "), "a, b");
    assert_eq!(join(&Vec::new(), ", "), "");
    for n in [0, 7, 10, 30, 3600, u64::MAX] {
        assert_eq!(decimal(n), n.to_string());
    }
}
