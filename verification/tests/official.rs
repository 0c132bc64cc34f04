use copilot_runtime::acp_client::{
    may_forward, models_from_session_state, provider_tool_kind, provider_tool_status,
    request_permission, session_notification, text_from_acp_content, AcpContent, AcpToolStatus,
    PermissionOptionKind, PermissionOutcome, SessionModelState, SessionUpdate,
};
use copilot_runtime::connection::{
    initialize_official_cli, launch_plan, start_official_runtime, timeout_acp_request,
    StderrCapture, STDERR_LIMIT,
};
use copilot_runtime::error::{AcpRequest, CopilotError};
use copilot_runtime::lifecycle::{OfficialRuntimeLifecycle, OfficialTurnRouting};
use copilot_runtime::message::{
    ContentBlock, ProviderToolKind, ProviderToolStatus, StreamEvent, ToolDefinition,
};
use copilot_runtime::process::CopilotOfficialCliProcess;
use copilot_runtime::prompt::{
    build_official_prompt, build_stale_fresh_prompt, effective_official_system,
    official_turn_sections, parse_official_session_id, ProviderTurnContext,
};
use copilot_runtime::tool_policy::{AcpToolKind, CopilotOfficialToolPolicy};
use std::collections::BTreeMap;
use std::path::PathBuf;

fn tools(names: &[&str]) -> Vec<ToolDefinition> {
    names
        .iter()
        .map(|name| ToolDefinition {
            name: name.to_string(),
        })
        .collect()
}

fn policy(names: &[&str]) -> CopilotOfficialToolPolicy {
    CopilotOfficialToolPolicy::from_jcode_tools(&tools(names))
}

fn text(text: &str) -> ContentBlock {
    ContentBlock::Text {
        text: text.to_string(),
    }
}

fn said(blocks: Vec<ContentBlock>) -> ProviderTurnContext {
    ProviderTurnContext {
        user_content: blocks,
        memory_context: None,
    }
}

fn active(generation: u64) -> (OfficialRuntimeLifecycle, OfficialTurnRouting) {
    let mut lifecycle = OfficialRuntimeLifecycle::new();
    let mut routing = OfficialTurnRouting::new();
    lifecycle.activate_generation(generation);
    routing.activate(generation);
    (lifecycle, routing)
}

#[test]
fn offered_tools_become_tools_of_the_cli() {
    assert_eq!(policy(&["view"]).configure_command(), "--available-tools=view");
    assert_eq!(
        policy(&["websearch", "apply_patch", "todo"]).configure_command(),
        "--available-tools"
    );
    assert_eq!(
        policy(&["webfetch", "multiedit", "write", "bash", "ls", "rg", "read_file"])
            .configure_command(),
        "--available-tools=bash,create,edit,glob,grep,view,web_fetch"
    );
    assert_eq!(
        policy(&["agentgrep"]).available_tools(),
        vec!["glob", "grep"]
    );
    assert_eq!(policy(&[]), CopilotOfficialToolPolicy::none());
}

#[test]
fn tool_calls_are_allowed_by_their_kind() {
    let reading = policy(&["view"]);
    assert!(reading.allows(Some(AcpToolKind::Read)));
    for kind in [
        AcpToolKind::Search,
        AcpToolKind::Edit,
        AcpToolKind::Delete,
        AcpToolKind::Move,
        AcpToolKind::Execute,
        AcpToolKind::Fetch,
        AcpToolKind::Think,
        AcpToolKind::SwitchMode,
        AcpToolKind::Other,
    ] {
        assert!(!reading.allows(Some(kind)), "{kind:?}");
    }
    let full = policy(&["read", "grep", "bash", "edit", "web_fetch"]);
    for kind in [
        AcpToolKind::Read,
        AcpToolKind::Search,
        AcpToolKind::Edit,
        AcpToolKind::Delete,
        AcpToolKind::Move,
        AcpToolKind::Execute,
        AcpToolKind::Fetch,
    ] {
        assert!(full.allows(Some(kind)), "{kind:?}");
    }
    assert!(!full.allows(None));
    assert!(!full.allows(Some(AcpToolKind::Think)));
    assert!(!full.allows(Some(AcpToolKind::Other)));
}

#[test]
fn permission_is_given_once() {
    let (lifecycle, routing) = active(1);
    let options = vec![
        PermissionOptionKind::AllowAlways,
        PermissionOptionKind::RejectOnce,
        PermissionOptionKind::AllowOnce,
        PermissionOptionKind::AllowOnce,
    ];
    let ask = |names: &[&str], kind: Option<AcpToolKind>, options: &Vec<PermissionOptionKind>| {
        request_permission(&lifecycle, &routing, false, &policy(names), kind, options)
    };
    assert_eq!(
        ask(&["bash"], Some(AcpToolKind::Execute), &options),
        PermissionOutcome::Selected { option: 2 }
    );
    assert_eq!(
        ask(&["view"], Some(AcpToolKind::Execute), &options),
        PermissionOutcome::Selected { option: 1 }
    );
    assert_eq!(
        ask(&["view"], Some(AcpToolKind::Edit), &options),
        PermissionOutcome::Selected { option: 1 }
    );
    assert_eq!(
        ask(&["bash"], None, &options),
        PermissionOutcome::Selected { option: 1 }
    );
    assert_eq!(
        ask(&[], None, &vec![PermissionOptionKind::AllowAlways, PermissionOptionKind::AllowOnce]),
        PermissionOutcome::Cancelled
    );
}

#[test]
fn permission_needs_a_turn_that_goes_on() {
    let (mut lifecycle, routing) = active(1);
    let options = vec![PermissionOptionKind::AllowOnce];
    let allowed = policy(&["bash"]);
    let kind = Some(AcpToolKind::Execute);
    assert_eq!(
        request_permission(&lifecycle, &routing, true, &allowed, kind, &options),
        PermissionOutcome::Cancelled
    );
    assert_eq!(
        request_permission(
            &lifecycle,
            &OfficialTurnRouting::new(),
            false,
            &allowed,
            kind,
            &options
        ),
        PermissionOutcome::Cancelled
    );
    let _ = lifecycle.begin_cancelling();
    assert_eq!(
        request_permission(&lifecycle, &routing, false, &allowed, kind, &options),
        PermissionOutcome::Cancelled
    );
}

fn message(content: AcpContent) -> SessionUpdate {
    SessionUpdate::AgentMessage { content }
}

#[test]
fn updates_are_forwarded_after_the_prompt() {
    let (lifecycle, mut routing) = active(3);
    let update = || message(AcpContent::Text("OK".to_string()));
    assert!(session_notification(&lifecycle, &routing, false, update()).is_none());
    routing.forward(3);
    let (generation, events) =
        session_notification(&lifecycle, &routing, false, update()).unwrap();
    assert_eq!(generation, 3);
    assert_eq!(format!("{events:?}"), "[TextDelta(\"OK\")]");
    assert!(session_notification(&lifecycle, &routing, true, update()).is_none());
    assert!(may_forward(&lifecycle, &routing, false, 3));
    assert!(!may_forward(&lifecycle, &routing, false, 4));
    routing.deactivate(3);
    assert!(!may_forward(&lifecycle, &routing, false, 3));
    assert!(session_notification(&lifecycle, &routing, false, update()).is_none());
}

#[test]
fn updates_become_events() {
    let (lifecycle, mut routing) = active(1);
    routing.forward(1);
    let events = |update: SessionUpdate| {
        format!(
            "{:?}",
            session_notification(&lifecycle, &routing, false, update)
                .unwrap()
                .1
        )
    };
    assert_eq!(
        events(SessionUpdate::AgentThought {
            content: AcpContent::Text("thinking".to_string())
        }),
        "[ThinkingDelta(\"thinking\")]"
    );
    assert_eq!(events(message(AcpContent::Other)), "[]");
    assert_eq!(events(SessionUpdate::Other), "[]");
    assert_eq!(
        events(SessionUpdate::ToolCall {
            id: "tool-1".to_string(),
            title: "Viewing Cargo.toml".to_string(),
            kind: AcpToolKind::Read,
            status: AcpToolStatus::Pending,
        }),
        "[ProviderToolUpdate { id: \"tool-1\", kind: Some(Read), status: Some(Pending), title: Some(\"Viewing Cargo.toml\") }, StatusDetail { detail: \"Viewing Cargo.toml\" }]"
    );
    assert_eq!(
        events(SessionUpdate::ToolCallUpdate {
            id: "tool-1".to_string(),
            new_kind: None,
            new_status: Some(AcpToolStatus::Completed),
            new_title: None,
        }),
        "[ProviderToolUpdate { id: \"tool-1\", kind: None, status: Some(Completed), title: None }]"
    );
    assert_eq!(
        events(SessionUpdate::ToolCallUpdate {
            id: "tool-1".to_string(),
            new_kind: Some(AcpToolKind::SwitchMode),
            new_status: None,
            new_title: Some("now".to_string()),
        }),
        "[ProviderToolUpdate { id: \"tool-1\", kind: Some(SwitchMode), status: None, title: Some(\"now\") }, StatusDetail { detail: \"now\" }]"
    );
}

#[test]
fn kinds_and_statuses_keep_their_names() {
    assert_eq!(provider_tool_kind(AcpToolKind::Move), ProviderToolKind::Move);
    assert_eq!(provider_tool_kind(AcpToolKind::Think), ProviderToolKind::Think);
    assert_eq!(provider_tool_kind(AcpToolKind::Other), ProviderToolKind::Other);
    assert_eq!(
        provider_tool_status(AcpToolStatus::InProgress),
        ProviderToolStatus::InProgress
    );
    assert_eq!(
        provider_tool_status(AcpToolStatus::Failed),
        ProviderToolStatus::Failed
    );
    assert_eq!(
        provider_tool_status(AcpToolStatus::Other),
        ProviderToolStatus::Other
    );
    assert_eq!(
        text_from_acp_content(AcpContent::Text("x".to_string())).as_deref(),
        Some("x")
    );
    assert_eq!(text_from_acp_content(AcpContent::Other), None);
}

#[test]
fn sessions_show_their_models() {
    let models = models_from_session_state(Some(SessionModelState {
        current_model_id: "a".to_string(),
        available_models: vec!["a".to_string(), "b".to_string()],
    }));
    assert_eq!(models.current.as_deref(), Some("a"));
    assert_eq!(models.available, vec!["a", "b"]);
    let models = models_from_session_state(None);
    assert_eq!(models.current, None);
    assert!(models.available.is_empty());
}

#[test]
fn instructions_are_put_together() {
    assert_eq!(effective_official_system("", " \n"), "");
    assert_eq!(effective_official_system(" a ", ""), "a");
    assert_eq!(effective_official_system("", " b "), "b");
    assert_eq!(effective_official_system(" a\n", "\tb"), "a\n\nb");
}

#[test]
fn prompts_hold_what_the_user_says() {
    let turn = said(vec![
        text("first"),
        text("   "),
        ContentBlock::ToolResult {
            tool_use_id: "t".to_string(),
            content: " result ".to_string(),
        },
    ]);
    assert_eq!(
        official_turn_sections(Some(&turn)).ok().unwrap(),
        vec!["first", " result "]
    );
    assert_eq!(
        build_official_prompt("stay", "", false, Some(&turn)).ok().unwrap(),
        "<system>\nstay\n</system>\n\nfirst\n\n result "
    );
    assert_eq!(
        build_official_prompt("", "", false, Some(&turn)).ok().unwrap(),
        "first\n\n result "
    );
    assert_eq!(
        build_official_prompt("stay", " ", true, Some(&turn)).ok().unwrap(),
        "first\n\n result "
    );
    assert_eq!(
        build_stale_fresh_prompt("stay", "change", Some(&turn)).ok().unwrap(),
        build_official_prompt("stay", "change", false, Some(&turn)).ok().unwrap()
    );
}

#[test]
fn prompts_hold_what_is_recalled() {
    let mut turn = said(vec![text("q")]);
    turn.memory_context = Some("  memory ".to_string());
    assert_eq!(
        build_official_prompt("", "now", true, Some(&turn)).ok().unwrap(),
        "q\n\n<system-reminder>\nnow\n</system-reminder>\n\n  memory "
    );
    turn.memory_context = Some("  ".to_string());
    assert_eq!(
        build_official_prompt("", "", true, Some(&turn)).ok().unwrap(),
        "q"
    );
}

#[test]
fn turns_that_say_nothing_are_errors() {
    let error = |turn: &ProviderTurnContext| {
        build_official_prompt("system", "", false, Some(turn))
            .err()
            .unwrap()
            .message()
    };
    let missing = "An explicit current user prompt is required for official Copilot CLI requests";
    assert_eq!(error(&said(vec![])), missing);
    assert_eq!(error(&said(vec![text(" ")])), missing);
    assert_eq!(
        build_stale_fresh_prompt("system", "", None).err().unwrap().message(),
        missing
    );
    assert_eq!(
        error(&said(vec![text("look"), ContentBlock::Image])),
        "Image input is not supported by the official-cli ACP transport"
    );
    assert_eq!(
        error(&said(vec![ContentBlock::Other, ContentBlock::Image])),
        "Unsupported current user content for the official-cli ACP transport"
    );
    assert_eq!(
        error(&said(vec![ContentBlock::ToolUse {
            id: "1".to_string(),
            name: "bash".to_string()
        }])),
        "Unsupported current user content for the official-cli ACP transport"
    );
}

#[test]
fn session_identifiers_are_read_in_both_forms() {
    assert_eq!(parse_official_session_id("raw-id"), "raw-id");
    assert_eq!(
        parse_official_session_id("jcode-copilot-acp-v1:unsafe:up:1"),
        "up:1"
    );
    assert_eq!(
        parse_official_session_id("jcode-copilot-acp-v1:nothing"),
        "jcode-copilot-acp-v1:nothing"
    );
    assert_eq!(parse_official_session_id("other:safe:id"), "other:safe:id");
}

#[test]
fn the_cli_is_started_with_its_tools() {
    let process = CopilotOfficialCliProcess::with_command(PathBuf::from("copilot"));
    assert_eq!(process.command, PathBuf::from("copilot"));
    assert_eq!(
        launch_plan(&process, &policy(&["view"]), None).arguments,
        vec![
            "--acp",
            "--stdio",
            "--no-auto-update",
            "--log-level",
            "none",
            "--no-custom-instructions",
            "--disable-builtin-mcps",
            "--available-tools=view",
        ]
    );
    let mut env = BTreeMap::new();
    env.insert("KEY".to_string(), "value".to_string());
    env.insert("COPILOT_ALLOW_ALL".to_string(), "true".to_string());
    let process = process.with_env(env.clone());
    assert_eq!(process.env, env);
    let plan = launch_plan(&process, &policy(&["view"]), Some(PathBuf::from("/work")));
    assert_eq!(plan.command, &PathBuf::from("copilot"));
    assert_eq!(plan.variables, &env);
    assert_eq!(plan.removed, "COPILOT_ALLOW_ALL");
    assert_eq!(plan.working_dir, Some(PathBuf::from("/work")));
    assert_eq!(process.args.len(), 7);
    assert!(CopilotOfficialCliProcess::from_env(Ok(PathBuf::from("x"))).is_ok());
    assert_eq!(
        CopilotOfficialCliProcess::from_env(Err("no path".to_string()))
            .err()
            .unwrap()
            .message(),
        "no path"
    );
}

#[test]
fn error_output_explains_errors() {
    let mut capture = StderrCapture::new();
    assert_eq!(capture.explain("failed".to_string()), "failed");
    capture.push(b" auth \xffmissing\n");
    assert_eq!(
        capture.explain("failed".to_string()),
        "Official Copilot CLI stderr: auth \u{fffd}missing: failed"
    );
}

#[test]
fn error_output_is_kept_up_to_a_limit() {
    let mut capture = StderrCapture::new();
    let chunk = vec![b'a'; 60_000];
    capture.push(&chunk);
    capture.push(&chunk);
    assert_eq!(capture.text.len(), STDERR_LIMIT);
    capture.push(b"more");
    assert_eq!(capture.text.len(), STDERR_LIMIT);
}

#[test]
fn the_cli_must_come_up() {
    assert!(initialize_official_cli(true, "ProtocolVersion(1)".to_string()).is_ok());
    assert_eq!(
        initialize_official_cli(false, "ProtocolVersion(2)".to_string())
            .err()
            .unwrap()
            .message(),
        "Official Copilot CLI negotiated unsupported ACP protocol version ProtocolVersion(2)"
    );
    assert!(start_official_runtime(Some(Ok(()))).is_ok());
    assert_eq!(
        start_official_runtime(Some(Err("broken".to_string())))
            .err()
            .unwrap()
            .message(),
        "broken"
    );
    assert_eq!(
        start_official_runtime(None).err().unwrap().message(),
        "Official Copilot CLI ACP runtime did not initialize within 30s"
    );
    assert!(matches!(
        timeout_acp_request(AcpRequest::Initialize, Some(Ok::<u8, String>(5))),
        Ok(5)
    ));
    assert_eq!(
        timeout_acp_request::<u8>(AcpRequest::Initialize, Some(Err("no".to_string())))
            .err()
            .unwrap()
            .message(),
        "Official Copilot CLI ACP initialize failed: no"
    );
    assert_eq!(
        timeout_acp_request::<u8>(AcpRequest::NewSession, None)
            .err()
            .unwrap()
            .message(),
        "Official Copilot CLI ACP session/new timed out after 30s"
    );
}

#[test]
fn errors_that_hold_nothing_have_words() {
    assert_eq!(
        CopilotError::DisconnectedHistory.message(),
        "The official-cli ACP transport cannot replay disconnected history"
    );
    assert_eq!(
        CopilotError::ModelInUse.message(),
        "Cannot change model while a request is in progress"
    );
    assert_eq!(
        CopilotError::ConnectionClosed.message(),
        "Official Copilot CLI connection closed before the turn could complete; retry the request"
    );
}

#[test]
fn events_can_be_shown() {
    assert_eq!(format!("{:?}", StreamEvent::ToolUseEnd), "ToolUseEnd");
}

#[test]
fn tools_together_allow_the_union() {
    let both = policy(&["view", "bash", "write", "webfetch"]);
    let (first, second) = (policy(&["view", "bash"]), policy(&["write", "webfetch"]));
    assert!(first.view && first.bash && !first.create && !first.web_fetch);
    assert!(second.create && second.web_fetch && !second.view && !second.bash);
    assert_eq!(both.available_tools(), vec!["bash", "create", "view", "web_fetch"]);
    for kind in [
        AcpToolKind::Read,
        AcpToolKind::Search,
        AcpToolKind::Edit,
        AcpToolKind::Execute,
        AcpToolKind::Fetch,
        AcpToolKind::Think,
    ] {
        assert_eq!(
            both.allows(Some(kind)),
            first.allows(Some(kind)) || second.allows(Some(kind))
        );
    }
}
