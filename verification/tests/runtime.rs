use copilot_runtime::error::{AcpRequest, RuntimeError};
use copilot_runtime::lifecycle::{
    cancel_stream, choose_runtime, official_turn_can_commit, OfficialIoHealth,
    OfficialRuntimeHandle, OfficialRuntimeLifecycle, OfficialRuntimeState,
    OfficialTurnCancellation, OfficialTurnRouting, RuntimeChoice,
};
use copilot_runtime::message::StreamEvent;
use copilot_runtime::runtime::{
    acp_stop_reason, command_event, reject_pending_official_turns, wait_for_turn_request,
    AcpAnswer, OfficialRuntimeCommand, OfficialTurn, OfficialWorker, RequestEnd, RuntimeShared,
    StopReason, TurnUsage, WorkerAction, WorkerEvent, WorkerPhase,
};
use copilot_runtime::tool_policy::CopilotOfficialToolPolicy;

fn shared() -> RuntimeShared {
    RuntimeShared {
        lifecycle: OfficialRuntimeLifecycle::new(),
        routing: OfficialTurnRouting::new(),
        io_closed: false,
        cancel_requested: false,
    }
}

fn turn(generation: u64, model: &str, resume: Option<&str>) -> OfficialTurn {
    OfficialTurn {
        generation,
        selected_model: model.to_string(),
        resume_session_id: resume.map(str::to_string),
        prompt: "prompt".to_string(),
        fresh_prompt: "fresh prompt".to_string(),
    }
}

fn session(id: &str, model: Option<&str>) -> WorkerEvent {
    WorkerEvent::Answered(AcpAnswer::Session {
        id: id.to_string(),
        current_model: model.map(str::to_string),
    })
}

fn sent() -> WorkerEvent {
    WorkerEvent::Sent { delivered: true }
}

fn started(load_supported: bool, shared: &mut RuntimeShared) -> OfficialWorker {
    let mut worker = OfficialWorker::new(load_supported);
    assert!(matches!(worker.start(shared), WorkerAction::Wait));
    worker
}

fn step(worker: &mut OfficialWorker, shared: &mut RuntimeShared, event: WorkerEvent) -> WorkerAction {
    assert!(worker.accepts(&event), "{:?} in {:?}", event, worker.phase);
    worker.step(shared, event)
}

fn emitted(action: WorkerAction) -> StreamEvent {
    match action {
        WorkerAction::Emit(event) => event,
        other => panic!("expected an event, got {other:?}"),
    }
}

fn failed(action: WorkerAction) -> String {
    match action {
        WorkerAction::Fail(error) => error.message(),
        other => panic!("expected a failure, got {other:?}"),
    }
}

/// Brings a worker to its prompt.
fn prompted(
    worker: &mut OfficialWorker,
    shared: &mut RuntimeShared,
    generation: u64,
    session_model: &str,
) -> WorkerAction {
    let _ = step(
        worker,
        shared,
        WorkerEvent::Received(turn(generation, "gpt-5-mini", None)),
    );
    let mut action = step(worker, shared, sent());
    if matches!(action, WorkerAction::OpenSession) {
        action = step(worker, shared, session("s-1", Some(session_model)));
    }
    assert!(matches!(
        emitted(action),
        StreamEvent::SessionId(id) if id == "s-1"
    ));
    let mut action = step(worker, shared, sent());
    if matches!(action, WorkerAction::SetModel { .. }) {
        action = step(worker, shared, WorkerEvent::Answered(AcpAnswer::ModelSet));
    }
    action
}

#[test]
fn a_turn_runs_to_its_end() {
    let mut shared = shared();
    let mut worker = started(true, &mut shared);
    let action = step(
        &mut worker,
        &mut shared,
        WorkerEvent::Received(turn(1, "gpt-5-mini", None)),
    );
    assert!(matches!(
        emitted(action),
        StreamEvent::ConnectionType { connection } if connection == "official-cli ACP (gpt-5-mini)"
    ));
    assert_eq!(shared.lifecycle.active_generation, 1);
    assert!(shared.routing.is_current(1));
    assert!(!shared.routing.is_forwarding(1));
    assert!(matches!(
        step(&mut worker, &mut shared, sent()),
        WorkerAction::OpenSession
    ));
    let action = step(&mut worker, &mut shared, session("s-1", Some("sonnet-4.6")));
    assert!(matches!(emitted(action), StreamEvent::SessionId(id) if id == "s-1"));
    let action = step(&mut worker, &mut shared, sent());
    assert!(matches!(
        action,
        WorkerAction::SetModel { session_id, model } if session_id == "s-1" && model == "gpt-5-mini"
    ));
    let action = step(
        &mut worker,
        &mut shared,
        WorkerEvent::Answered(AcpAnswer::ModelSet),
    );
    assert!(matches!(
        action,
        WorkerAction::Prompt { session_id, text } if session_id == "s-1" && text == "prompt"
    ));
    assert!(shared.routing.is_forwarding(1));
    let action = step(
        &mut worker,
        &mut shared,
        WorkerEvent::Answered(AcpAnswer::Prompted {
            usage: Some(TurnUsage {
                input_tokens: 10,
                output_tokens: 2,
                cached_read_tokens: Some(3),
                cached_write_tokens: Some(4),
            }),
            reason: StopReason::EndTurn,
        }),
    );
    assert!(matches!(
        emitted(action),
        StreamEvent::TokenUsage {
            input_tokens: Some(10),
            output_tokens: Some(2),
            cache_read_input_tokens: Some(3),
            cache_creation_input_tokens: Some(4),
        }
    ));
    let action = step(&mut worker, &mut shared, sent());
    assert!(matches!(emitted(action), StreamEvent::SessionId(id) if id == "s-1"));
    let action = step(&mut worker, &mut shared, sent());
    assert!(matches!(
        emitted(action),
        StreamEvent::MessageEnd { stop_reason: Some(reason) } if reason == "end_turn"
    ));
    assert!(!shared.routing.is_current(1));
    assert_eq!(shared.lifecycle.active_generation, 0);
    assert!(matches!(
        step(&mut worker, &mut shared, sent()),
        WorkerAction::Wait
    ));
}

#[test]
fn later_turns_keep_the_session_and_its_model() {
    let mut shared = shared();
    let mut worker = started(true, &mut shared);
    assert!(matches!(
        prompted(&mut worker, &mut shared, 1, "sonnet-4.6"),
        WorkerAction::Prompt { .. }
    ));
    let action = step(
        &mut worker,
        &mut shared,
        WorkerEvent::Answered(AcpAnswer::Prompted {
            usage: None,
            reason: StopReason::EndTurn,
        }),
    );
    assert!(matches!(emitted(action), StreamEvent::SessionId(_)));
    let _ = step(&mut worker, &mut shared, sent());
    let _ = step(&mut worker, &mut shared, sent());
    assert_eq!(worker.phase, WorkerPhase::Idle);
    // The model was set by the first turn, so that the second one sets none.
    let _ = step(
        &mut worker,
        &mut shared,
        WorkerEvent::Received(turn(2, "gpt-5-mini", None)),
    );
    let action = step(&mut worker, &mut shared, sent());
    assert!(matches!(emitted(action), StreamEvent::SessionId(id) if id == "s-1"));
    assert!(matches!(
        step(&mut worker, &mut shared, sent()),
        WorkerAction::Prompt { .. }
    ));
}

#[test]
fn a_model_that_is_not_named_is_always_set() {
    let mut shared = shared();
    let mut worker = started(true, &mut shared);
    let _ = step(
        &mut worker,
        &mut shared,
        WorkerEvent::Received(turn(1, "gpt-5-mini", None)),
    );
    let _ = step(&mut worker, &mut shared, sent());
    let _ = step(&mut worker, &mut shared, session("s-1", None));
    assert!(matches!(
        step(&mut worker, &mut shared, sent()),
        WorkerAction::SetModel { .. }
    ));
    let _ = step(
        &mut worker,
        &mut shared,
        WorkerEvent::Answered(AcpAnswer::ModelSet),
    );
    assert_eq!(
        worker.session.as_ref().and_then(|session| session.current_model.clone()),
        None
    );
}

#[test]
fn a_session_is_loaded_and_keeps_its_identifier() {
    let mut shared = shared();
    let mut worker = started(true, &mut shared);
    let _ = step(
        &mut worker,
        &mut shared,
        WorkerEvent::Received(turn(1, "m", Some("old"))),
    );
    assert!(matches!(
        step(&mut worker, &mut shared, sent()),
        WorkerAction::LoadSession { id } if id == "old"
    ));
    let action = step(
        &mut worker,
        &mut shared,
        WorkerEvent::Answered(AcpAnswer::Loaded {
            current_model: Some("m".to_string()),
        }),
    );
    assert!(matches!(emitted(action), StreamEvent::SessionId(id) if id == "old"));
    assert!(matches!(
        step(&mut worker, &mut shared, sent()),
        WorkerAction::Prompt { text, .. } if text == "prompt"
    ));
}

#[test]
fn a_gone_session_is_replaced_with_the_fresh_prompt() {
    let mut shared = shared();
    let mut worker = started(true, &mut shared);
    let _ = step(
        &mut worker,
        &mut shared,
        WorkerEvent::Received(turn(1, "gpt-5-mini", Some("gone"))),
    );
    let _ = step(&mut worker, &mut shared, sent());
    assert!(matches!(
        step(
            &mut worker,
            &mut shared,
            WorkerEvent::Answered(AcpAnswer::Refused {
                not_found: true,
                message: "Resource not found".to_string(),
            }),
        ),
        WorkerAction::OpenSession
    ));
    let action = step(&mut worker, &mut shared, session("new", Some("sonnet-4.6")));
    assert!(matches!(
        emitted(action),
        StreamEvent::StatusDetail { detail }
            if detail == "Prior upstream context unavailable; continued fresh"
    ));
    let action = step(&mut worker, &mut shared, sent());
    assert!(matches!(emitted(action), StreamEvent::SessionId(id) if id == "new"));
    assert!(matches!(
        step(&mut worker, &mut shared, sent()),
        WorkerAction::SetModel { session_id, .. } if session_id == "new"
    ));
    assert!(matches!(
        step(
            &mut worker,
            &mut shared,
            WorkerEvent::Answered(AcpAnswer::ModelSet),
        ),
        WorkerAction::Prompt { session_id, text } if session_id == "new" && text == "fresh prompt"
    ));
}

#[test]
fn a_replacement_that_fails_is_reported() {
    let mut shared = shared();
    let mut worker = started(true, &mut shared);
    let _ = step(
        &mut worker,
        &mut shared,
        WorkerEvent::Received(turn(1, "m", Some("gone"))),
    );
    let _ = step(&mut worker, &mut shared, sent());
    let _ = step(
        &mut worker,
        &mut shared,
        WorkerEvent::Answered(AcpAnswer::Refused {
            not_found: true,
            message: String::new(),
        }),
    );
    let action = step(
        &mut worker,
        &mut shared,
        WorkerEvent::Answered(AcpAnswer::Refused {
            not_found: false,
            message: "no room".to_string(),
        }),
    );
    assert_eq!(
        failed(action),
        "Official Copilot CLI ACP session/new failed: no room"
    );
    assert!(matches!(
        step(&mut worker, &mut shared, sent()),
        WorkerAction::Stop
    ));
    assert_eq!(shared.lifecycle.state(), OfficialRuntimeState::Closed);
}

#[test]
fn other_load_errors_are_not_taken_for_a_gone_session() {
    let mut shared = shared();
    let mut worker = started(true, &mut shared);
    let _ = step(
        &mut worker,
        &mut shared,
        WorkerEvent::Received(turn(1, "m", Some("old"))),
    );
    let _ = step(&mut worker, &mut shared, sent());
    let action = step(
        &mut worker,
        &mut shared,
        WorkerEvent::Answered(AcpAnswer::Refused {
            not_found: false,
            message: "denied".to_string(),
        }),
    );
    assert_eq!(
        failed(action),
        "Official Copilot CLI ACP session/load failed: denied"
    );
}

#[test]
fn loading_must_be_supported() {
    let mut shared = shared();
    let mut worker = started(false, &mut shared);
    let _ = step(
        &mut worker,
        &mut shared,
        WorkerEvent::Received(turn(1, "m", Some("old"))),
    );
    assert_eq!(
        failed(step(&mut worker, &mut shared, sent())),
        "Official Copilot CLI does not advertise ACP session/load support"
    );
}

#[test]
fn a_child_that_dies_during_the_prompt_is_reported_once() {
    let mut shared = shared();
    let mut worker = started(true, &mut shared);
    let _ = prompted(&mut worker, &mut shared, 1, "gpt-5-mini");
    shared.io_closed = true;
    let action = step(&mut worker, &mut shared, WorkerEvent::Disconnected);
    assert_eq!(
        failed(action),
        "official Copilot CLI request failed: Official Copilot CLI connection closed before the turn could complete; retry the request"
    );
    assert!(!shared.routing.is_current(1));
    assert!(matches!(
        step(&mut worker, &mut shared, sent()),
        WorkerAction::Stop
    ));
    assert_eq!(worker.phase, WorkerPhase::Stopped);
    assert!(!worker.accepts(&sent()));
}

#[test]
fn a_child_that_dies_between_turns_stops_the_worker() {
    let mut shared = shared();
    let mut worker = started(true, &mut shared);
    let _ = prompted(&mut worker, &mut shared, 1, "gpt-5-mini");
    let _ = step(
        &mut worker,
        &mut shared,
        WorkerEvent::Answered(AcpAnswer::Prompted {
            usage: None,
            reason: StopReason::Refusal,
        }),
    );
    let action = step(&mut worker, &mut shared, sent());
    assert!(matches!(
        emitted(action),
        StreamEvent::MessageEnd { stop_reason: Some(reason) } if reason == "refusal"
    ));
    shared.io_closed = true;
    assert!(matches!(
        step(&mut worker, &mut shared, sent()),
        WorkerAction::Stop
    ));
    let handle = OfficialRuntimeHandle::new();
    assert!(handle
        .accept_turn(&shared.lifecycle, shared.io_closed, false)
        .is_err());
}

#[test]
fn a_cancelled_prompt_is_cancelled_upstream() {
    let mut shared = shared();
    let mut worker = started(true, &mut shared);
    let _ = prompted(&mut worker, &mut shared, 1, "gpt-5-mini");
    shared.cancel_requested = true;
    let action = step(&mut worker, &mut shared, WorkerEvent::Cancelled);
    assert!(matches!(
        action,
        WorkerAction::CancelPrompt { session_id } if session_id == "s-1"
    ));
    assert_eq!(shared.lifecycle.state(), OfficialRuntimeState::Cancelling);
    assert!(!shared.routing.is_forwarding(1));
    assert!(matches!(
        step(&mut worker, &mut shared, sent()),
        WorkerAction::Stop
    ));
}

#[test]
fn nothing_goes_out_after_a_cancellation() {
    let mut shared = shared();
    let mut worker = started(true, &mut shared);
    let _ = step(
        &mut worker,
        &mut shared,
        WorkerEvent::Received(turn(1, "m", None)),
    );
    let _ = step(&mut worker, &mut shared, sent());
    shared.cancel_requested = true;
    assert!(matches!(
        step(&mut worker, &mut shared, session("s-1", Some("m"))),
        WorkerAction::Stop
    ));
    assert_eq!(shared.lifecycle.state(), OfficialRuntimeState::Closed);
    assert!(shared.routing.current().is_none());
}

#[test]
fn a_queued_turn_that_was_dropped_is_passed_over() {
    let mut shared = shared();
    let mut worker = started(true, &mut shared);
    shared.cancel_requested = true;
    assert!(matches!(
        step(
            &mut worker,
            &mut shared,
            WorkerEvent::Received(turn(5, "m", None)),
        ),
        WorkerAction::Wait
    ));
    assert_eq!(shared.lifecycle.active_generation, 0);
}

#[test]
fn a_worker_that_ends_rejects_the_turn_it_took() {
    let mut shared = shared();
    let mut worker = started(true, &mut shared);
    let _ = shared.lifecycle.begin_cancelling();
    assert!(matches!(
        step(
            &mut worker,
            &mut shared,
            WorkerEvent::Received(turn(1, "m", None)),
        ),
        WorkerAction::Reject
    ));
    assert!(matches!(
        step(&mut worker, &mut shared, sent()),
        WorkerAction::Stop
    ));
}

#[test]
fn an_owner_who_is_gone_stops_the_worker() {
    let mut shared = shared();
    let mut worker = started(true, &mut shared);
    let _ = step(
        &mut worker,
        &mut shared,
        WorkerEvent::Received(turn(1, "m", None)),
    );
    assert!(matches!(
        step(
            &mut worker,
            &mut shared,
            WorkerEvent::Sent { delivered: false },
        ),
        WorkerAction::StopUnheard
    ));
}

#[test]
fn requests_that_time_out_are_reported() {
    let mut shared = shared();
    let mut worker = started(true, &mut shared);
    let _ = step(
        &mut worker,
        &mut shared,
        WorkerEvent::Received(turn(1, "m", None)),
    );
    let _ = step(&mut worker, &mut shared, sent());
    assert_eq!(
        failed(step(&mut worker, &mut shared, WorkerEvent::TimedOut)),
        "Official Copilot CLI ACP session/new timed out after 30s"
    );
    assert_eq!(
        RuntimeError::TimedOut(AcpRequest::Prompt).message(),
        "official Copilot CLI request failed: Official Copilot CLI ACP session/prompt timed out after 3600s"
    );
    assert_eq!(
        RuntimeError::ClosedDuring(AcpRequest::SetModel).message(),
        "during session/set_model: Official Copilot CLI connection closed before the turn could complete; retry the request"
    );
    assert_eq!(
        RuntimeError::Refused(AcpRequest::Prompt, "boom".to_string()).message(),
        "official Copilot CLI request failed: Official Copilot CLI ACP session/prompt failed: boom"
    );
    assert_eq!(
        RuntimeError::ConnectionClosed.message(),
        "Official Copilot CLI connection closed before the turn could complete; retry the request"
    );
}

#[test]
fn events_are_taken_only_where_they_can_come() {
    let mut shared = shared();
    let worker = started(true, &mut shared);
    assert!(!worker.accepts(&sent()));
    assert!(!worker.accepts(&WorkerEvent::TimedOut));
    assert!(worker.accepts(&WorkerEvent::Interrupted));
    let mut worker = worker;
    assert!(matches!(
        step(&mut worker, &mut shared, WorkerEvent::Interrupted),
        WorkerAction::Stop
    ));
}

#[test]
fn races_have_one_winner() {
    assert_eq!(
        wait_for_turn_request(true, true, true, true, true),
        Some(RequestEnd::Cancelled)
    );
    assert_eq!(
        wait_for_turn_request(false, false, true, true, true),
        Some(RequestEnd::Unhealthy)
    );
    assert_eq!(
        wait_for_turn_request(false, true, true, true, true),
        Some(RequestEnd::Answered)
    );
    assert_eq!(
        wait_for_turn_request(false, true, false, true, true),
        Some(RequestEnd::Disconnected)
    );
    assert_eq!(
        wait_for_turn_request(false, true, false, false, true),
        Some(RequestEnd::TimedOut)
    );
    assert_eq!(wait_for_turn_request(false, true, false, false, false), None);
}

#[test]
fn waiting_turns_are_rejected_in_their_order() {
    let commands = vec![
        OfficialRuntimeCommand::Turn(turn(3, "m", None)),
        OfficialRuntimeCommand::Shutdown,
        OfficialRuntimeCommand::Turn(turn(4, "m", None)),
    ];
    let rejected = reject_pending_official_turns(&commands);
    let generations: Vec<u64> = rejected.iter().map(|turn| turn.generation).collect();
    assert_eq!(generations, vec![3, 4]);
    for turn in &rejected {
        assert_eq!(
            turn.error.message(),
            "Official Copilot CLI connection closed before the turn could complete; retry the request"
        );
    }
    assert!(matches!(command_event(None), WorkerEvent::Interrupted));
    assert!(matches!(
        command_event(Some(OfficialRuntimeCommand::Shutdown)),
        WorkerEvent::Interrupted
    ));
    assert!(matches!(
        command_event(Some(OfficialRuntimeCommand::Turn(turn(9, "m", None)))),
        WorkerEvent::Received(turn) if turn.generation == 9
    ));
}

#[test]
fn lifecycle_only_advances() {
    let mut lifecycle = OfficialRuntimeLifecycle::new();
    assert!(lifecycle.is_healthy());
    assert!(lifecycle.begin_cancelling());
    assert!(!lifecycle.begin_cancelling());
    assert_eq!(lifecycle.state(), OfficialRuntimeState::Cancelling);
    lifecycle.close();
    assert!(!lifecycle.begin_cancelling());
    assert_eq!(lifecycle.state(), OfficialRuntimeState::Closed);
}

#[test]
fn a_queued_turn_cannot_cancel_the_active_one() {
    let mut lifecycle = OfficialRuntimeLifecycle::new();
    lifecycle.activate_generation(1);
    let mut queued = OfficialTurnCancellation::new();
    assert!(!cancel_stream(&mut queued, &mut lifecycle, 2));
    assert!(queued.is_requested());
    assert!(lifecycle.is_healthy());
    let mut active = OfficialTurnCancellation::new();
    assert!(cancel_stream(&mut active, &mut lifecycle, 1));
    assert!(!lifecycle.is_healthy());
    lifecycle.finish_generation(2);
    assert_eq!(lifecycle.active_generation, 1);
    lifecycle.finish_generation(1);
    assert_eq!(lifecycle.active_generation, 0);
}

#[test]
fn commits_are_fenced() {
    let mut lifecycle = OfficialRuntimeLifecycle::new();
    let mut routing = OfficialTurnRouting::new();
    assert!(!official_turn_can_commit(false, &mut lifecycle, &routing, 1));
    routing.activate(1);
    assert!(official_turn_can_commit(false, &mut lifecycle, &routing, 1));
    assert!(!official_turn_can_commit(false, &mut lifecycle, &routing, 2));
    assert!(!official_turn_can_commit(true, &mut lifecycle, &routing, 1));
    assert_eq!(lifecycle.state(), OfficialRuntimeState::Cancelling);
    assert!(!official_turn_can_commit(false, &mut lifecycle, &routing, 1));
}

#[test]
fn routes_belong_to_one_turn() {
    let mut routing = OfficialTurnRouting::new();
    routing.activate(1);
    routing.forward(2);
    assert!(!routing.is_forwarding(1));
    routing.forward(1);
    assert!(routing.is_forwarding(1));
    routing.deactivate(2);
    assert!(routing.is_current(1));
    routing.deactivate(1);
    assert!(routing.current().is_none());
    routing.activate(3);
    routing.clear();
    assert!(routing.current().is_none());
}

#[test]
fn generations_are_never_zero() {
    let mut handle = OfficialRuntimeHandle::new();
    assert_eq!(handle.next_generation(), 1);
    assert_eq!(handle.next_generation(), 2);
    handle.next_generation = u64::MAX;
    assert_eq!(handle.next_generation(), u64::MAX);
    assert_eq!(handle.next_generation(), 1);
}

#[test]
fn workers_are_reused_where_nothing_has_changed() {
    let reading = CopilotOfficialToolPolicy::none();
    let mut writing = CopilotOfficialToolPolicy::none();
    writing.allow_write = true;
    assert_eq!(
        choose_runtime(None, reading, true, true),
        RuntimeChoice::Start
    );
    assert_eq!(
        choose_runtime(Some(reading), reading, true, true),
        RuntimeChoice::Reuse
    );
    assert_eq!(
        choose_runtime(Some(reading), writing, true, true),
        RuntimeChoice::Replace
    );
    assert_eq!(
        choose_runtime(Some(reading), reading, false, true),
        RuntimeChoice::Replace
    );
    assert_eq!(
        choose_runtime(Some(reading), reading, true, false),
        RuntimeChoice::Replace
    );
    let lifecycle = OfficialRuntimeLifecycle::new();
    assert!(OfficialRuntimeHandle::is_healthy(&lifecycle, false, false));
    assert!(!OfficialRuntimeHandle::is_healthy(&lifecycle, true, false));
    assert!(!OfficialRuntimeHandle::is_healthy(&lifecycle, false, true));
    let mut io = OfficialIoHealth::new();
    assert!(!io.is_closed());
    io.mark_closed();
    assert!(io.is_closed());
}

#[test]
fn stop_reasons_have_names() {
    assert_eq!(acp_stop_reason(StopReason::EndTurn), "end_turn");
    assert_eq!(acp_stop_reason(StopReason::MaxTokens), "max_tokens");
    assert_eq!(
        acp_stop_reason(StopReason::MaxTurnRequests),
        "max_turn_requests"
    );
    assert_eq!(acp_stop_reason(StopReason::Refusal), "refusal");
    assert_eq!(acp_stop_reason(StopReason::Cancelled), "cancelled");
    assert_eq!(acp_stop_reason(StopReason::Unknown), "unknown");
}

#[test]
fn nothing_follows_the_outcome_of_a_turn() {
    let mut shared = shared();
    let mut worker = started(true, &mut shared);
    let _ = prompted(&mut worker, &mut shared, 1, "gpt-5-mini");
    assert!(shared.routing.is_forwarding(1));
    let ended = WorkerEvent::Answered(AcpAnswer::Prompted {
        usage: None,
        reason: StopReason::EndTurn,
    });
    let action = step(&mut worker, &mut shared, ended);
    assert!(matches!(emitted(action), StreamEvent::SessionId(_)));
    let action = step(&mut worker, &mut shared, sent());
    assert!(matches!(emitted(action), StreamEvent::MessageEnd { .. }));
    assert!(!shared.routing.is_forwarding(1));
    assert!(matches!(
        step(&mut worker, &mut shared, sent()),
        WorkerAction::Wait
    ));

    let _ = prompted(&mut worker, &mut shared, 2, "gpt-5-mini");
    assert!(!shared.routing.is_forwarding(1));
    assert!(shared.routing.is_forwarding(2));
    let action = step(&mut worker, &mut shared, WorkerEvent::Disconnected);
    assert!(failed(action).starts_with("official Copilot CLI request failed: "));
    assert!(!shared.routing.is_forwarding(2));
    assert!(matches!(
        step(&mut worker, &mut shared, sent()),
        WorkerAction::Stop
    ));
    assert_eq!(shared.lifecycle.state(), OfficialRuntimeState::Closed);
    assert!(shared.routing.current().is_none());
}

#[test]
fn a_model_is_set_once_over_many_turns() {
    let mut shared = shared();
    let mut worker = started(true, &mut shared);
    let mut set = 0;
    for generation in 1..=3 {
        let _ = step(
            &mut worker,
            &mut shared,
            WorkerEvent::Received(turn(generation, "gpt-5-mini", None)),
        );
        let mut action = step(&mut worker, &mut shared, sent());
        if matches!(action, WorkerAction::OpenSession) {
            action = step(&mut worker, &mut shared, session("s-1", Some("gpt-5.4")));
        }
        assert!(matches!(emitted(action), StreamEvent::SessionId(_)));
        action = step(&mut worker, &mut shared, sent());
        if matches!(action, WorkerAction::SetModel { .. }) {
            set += 1;
            action = step(&mut worker, &mut shared, WorkerEvent::Answered(AcpAnswer::ModelSet));
        }
        assert!(matches!(action, WorkerAction::Prompt { .. }));
        let ended = WorkerEvent::Answered(AcpAnswer::Prompted {
            usage: None,
            reason: StopReason::EndTurn,
        });
        let _ = step(&mut worker, &mut shared, ended);
        let _ = step(&mut worker, &mut shared, sent());
        assert!(matches!(step(&mut worker, &mut shared, sent()), WorkerAction::Wait));
    }
    assert_eq!(set, 1);
}
