//! The worker that runs turns on one child process of the official CLI, one
//! after the other, as a state machine: it is told what has happened and says
//! what is to be done next.

use crate::error::{retryable_text, AcpRequest, RuntimeError, RuntimeErrorView};
use crate::lifecycle::{
    may_commit, official_turn_can_commit, OfficialRuntimeLifecycle, OfficialRuntimeState,
    OfficialTurnRouting,
};
use crate::message::{text_option, StreamEvent, StreamEventView};
use crate::text::{concat3, str_eq};
use vstd::prelude::*;

verus! {

/// Why the official CLI has stopped answering.
#[derive(Clone, Copy, Debug, PartialEq, Eq, Structural)]
pub enum StopReason {
    EndTurn,
    MaxTokens,
    MaxTurnRequests,
    Refusal,
    Cancelled,
    Unknown,
}

impl StopReason {
    /// The reason's name in the stream.
    pub open spec fn text(self) -> Seq<char> {
        match self {
            StopReason::EndTurn => "end_turn"@,
            StopReason::MaxTokens => "max_tokens"@,
            StopReason::MaxTurnRequests => "max_turn_requests"@,
            StopReason::Refusal => "refusal"@,
            StopReason::Cancelled => "cancelled"@,
            StopReason::Unknown => "unknown"@,
        }
    }
}

/// The reason's name in the stream.
pub fn acp_stop_reason(reason: StopReason) -> (r: &'static str)
    ensures
        r@ == reason.text(),
{
    match reason {
        StopReason::EndTurn => "end_turn",
        StopReason::MaxTokens => "max_tokens",
        StopReason::MaxTurnRequests => "max_turn_requests",
        StopReason::Refusal => "refusal",
        StopReason::Cancelled => "cancelled",
        StopReason::Unknown => "unknown",
    }
}

/// The tokens that a turn has used.
#[derive(Clone, Copy, Debug)]
pub struct TurnUsage {
    pub input_tokens: u64,
    pub output_tokens: u64,
    pub cached_read_tokens: Option<u64>,
    pub cached_write_tokens: Option<u64>,
}

/// A turn that the worker is to run.
#[derive(Debug)]
pub struct OfficialTurn {
    pub generation: u64,
    pub selected_model: String,
    pub resume_session_id: Option<String>,
    /// What is sent where the session is the one that the turn resumes, or
    /// where it resumes none.
    pub prompt: String,
    /// What is sent where the session it resumes was gone.
    pub fresh_prompt: String,
}

/// What a turn holds.
pub struct OfficialTurnView {
    pub generation: u64,
    pub selected_model: Seq<char>,
    pub resume_session_id: Option<Seq<char>>,
    pub prompt: Seq<char>,
    pub fresh_prompt: Seq<char>,
}

impl View for OfficialTurn {
    type V = OfficialTurnView;

    open spec fn view(&self) -> OfficialTurnView {
        OfficialTurnView {
            generation: self.generation,
            selected_model: self.selected_model@,
            resume_session_id: text_option(self.resume_session_id),
            prompt: self.prompt@,
            fresh_prompt: self.fresh_prompt@,
        }
    }
}

/// The session that the child process holds open, with its model where the
/// official CLI says which it is.
#[derive(Debug)]
pub struct LiveOfficialSession {
    pub id: String,
    pub current_model: Option<String>,
}

/// What a session holds.
pub struct SessionView {
    pub id: Seq<char>,
    pub current_model: Option<Seq<char>>,
}

impl View for LiveOfficialSession {
    type V = SessionView;

    open spec fn view(&self) -> SessionView {
        SessionView { id: self.id@, current_model: text_option(self.current_model) }
    }
}

/// What the worker is doing.
#[derive(Clone, Copy, Debug, PartialEq, Eq, Structural)]
pub enum WorkerPhase {
    /// Waiting for a turn.
    Idle,
    /// Saying over which connection the turn runs.
    Announcing,
    /// Opening a session, where the turn resumes none.
    Opening,
    /// Loading the session that the turn resumes.
    Loading,
    /// Opening a session in place of one that was gone.
    Replacing,
    /// Saying that the session was gone.
    Noticing,
    /// Saying which session the turn runs in.
    Identifying { recovered: bool },
    /// Setting the session's model.
    Switching { recovered: bool },
    /// Waiting for the answer to the prompt.
    Prompting,
    /// Saying how many tokens were used.
    Reporting { reason: StopReason },
    /// Saying again which session the turn ran in.
    Confirming { reason: StopReason },
    /// Saying that the turn is over.
    Ending,
    /// Doing one last thing before the end.
    Closing,
    /// At the end.
    Stopped,
}

impl WorkerPhase {
    /// The place of the phase in the order in which a turn passes.
    pub open spec fn rank(self) -> nat {
        match self {
            WorkerPhase::Idle => 0,
            WorkerPhase::Announcing => 1,
            WorkerPhase::Opening => 2,
            WorkerPhase::Loading => 2,
            WorkerPhase::Replacing => 3,
            WorkerPhase::Noticing => 4,
            WorkerPhase::Identifying { .. } => 5,
            WorkerPhase::Switching { .. } => 6,
            WorkerPhase::Prompting => 7,
            WorkerPhase::Reporting { .. } => 8,
            WorkerPhase::Confirming { .. } => 9,
            WorkerPhase::Ending => 10,
            WorkerPhase::Closing => 11,
            WorkerPhase::Stopped => 12,
        }
    }
}

/// What the official CLI has answered to a request.
#[derive(Debug)]
pub enum AcpAnswer {
    /// A new session.
    Session { id: String, current_model: Option<String> },
    /// The session asked for is loaded.
    Loaded { current_model: Option<String> },
    /// The session's model is set.
    ModelSet,
    /// The prompt is answered.
    Prompted { usage: Option<TurnUsage>, reason: StopReason },
    /// An error, which may be that what was asked for does not exist.
    Refused { not_found: bool, message: String },
}

/// What an answer holds.
pub enum AcpAnswerView {
    Session { id: Seq<char>, current_model: Option<Seq<char>> },
    Loaded { current_model: Option<Seq<char>> },
    ModelSet,
    Prompted { usage: Option<TurnUsage>, reason: StopReason },
    Refused { not_found: bool, message: Seq<char> },
}

impl View for AcpAnswer {
    type V = AcpAnswerView;

    open spec fn view(&self) -> AcpAnswerView {
        match self {
            AcpAnswer::Session { id, current_model } => AcpAnswerView::Session {
                id: id@,
                current_model: text_option(*current_model),
            },
            AcpAnswer::Loaded { current_model } => AcpAnswerView::Loaded {
                current_model: text_option(*current_model),
            },
            AcpAnswer::ModelSet => AcpAnswerView::ModelSet,
            AcpAnswer::Prompted { usage, reason } => AcpAnswerView::Prompted {
                usage: *usage,
                reason: *reason,
            },
            AcpAnswer::Refused { not_found, message } => AcpAnswerView::Refused {
                not_found: *not_found,
                message: message@,
            },
        }
    }
}

/// What the worker is told.
#[derive(Debug)]
pub enum WorkerEvent {
    /// A turn has come in.
    Received(OfficialTurn),
    /// No turn will come in any more, or none is to be waited for: the worker
    /// is to end, is no longer healthy or has lost its connection.
    Interrupted,
    /// What was to be sent or done last is over.
    Sent { delivered: bool },
    /// The turn's owner asked for its end before the request was answered.
    Cancelled,
    /// The worker was no longer healthy before the request was answered.
    Unhealthy,
    /// The request was answered.
    Answered(AcpAnswer),
    /// The connection ended before the request was answered.
    Disconnected,
    /// The request was not answered in time.
    TimedOut,
}

/// What is in that which the worker is told.
pub enum WorkerEventView {
    Received(OfficialTurnView),
    Interrupted,
    Sent { delivered: bool },
    Cancelled,
    Unhealthy,
    Answered(AcpAnswerView),
    Disconnected,
    TimedOut,
}

impl View for WorkerEvent {
    type V = WorkerEventView;

    open spec fn view(&self) -> WorkerEventView {
        match self {
            WorkerEvent::Received(turn) => WorkerEventView::Received(turn@),
            WorkerEvent::Interrupted => WorkerEventView::Interrupted,
            WorkerEvent::Sent { delivered } => WorkerEventView::Sent { delivered: *delivered },
            WorkerEvent::Cancelled => WorkerEventView::Cancelled,
            WorkerEvent::Unhealthy => WorkerEventView::Unhealthy,
            WorkerEvent::Answered(answer) => WorkerEventView::Answered(answer@),
            WorkerEvent::Disconnected => WorkerEventView::Disconnected,
            WorkerEvent::TimedOut => WorkerEventView::TimedOut,
        }
    }
}

/// What is to be done next.
#[derive(Debug)]
pub enum WorkerAction {
    /// Wait for a turn.
    Wait,
    /// Send an event to the turn's owner.
    Emit(StreamEvent),
    /// Ask for a new session.
    OpenSession,
    /// Ask to load a session.
    LoadSession { id: String },
    /// Ask to set the session's model.
    SetModel { session_id: String, model: String },
    /// Send the prompt.
    Prompt { session_id: String, text: String },
    /// Tell the official CLI that the prompt is cancelled, and give it a
    /// moment to answer.
    CancelPrompt { session_id: String },
    /// Send an error to the turn's owner.
    Fail(RuntimeError),
    /// Send an error to the turn's owner, if there is room for it at once.
    Reject,
    /// End, and reject the turns that are waiting.
    Stop,
    /// End in the same way, because the turn's owner no longer listens.
    StopUnheard,
}

/// What is in that which is to be done next.
pub enum WorkerActionView {
    Wait,
    Emit(StreamEventView),
    OpenSession,
    LoadSession { id: Seq<char> },
    SetModel { session_id: Seq<char>, model: Seq<char> },
    Prompt { session_id: Seq<char>, text: Seq<char> },
    CancelPrompt { session_id: Seq<char> },
    Fail(RuntimeErrorView),
    Reject,
    Stop,
    StopUnheard,
}

impl View for WorkerAction {
    type V = WorkerActionView;

    open spec fn view(&self) -> WorkerActionView {
        match self {
            WorkerAction::Wait => WorkerActionView::Wait,
            WorkerAction::Emit(event) => WorkerActionView::Emit(event@),
            WorkerAction::OpenSession => WorkerActionView::OpenSession,
            WorkerAction::LoadSession { id } => WorkerActionView::LoadSession { id: id@ },
            WorkerAction::SetModel { session_id, model } => WorkerActionView::SetModel {
                session_id: session_id@,
                model: model@,
            },
            WorkerAction::Prompt { session_id, text } => WorkerActionView::Prompt {
                session_id: session_id@,
                text: text@,
            },
            WorkerAction::CancelPrompt { session_id } => WorkerActionView::CancelPrompt {
                session_id: session_id@,
            },
            WorkerAction::Fail(error) => WorkerActionView::Fail(error@),
            WorkerAction::Reject => WorkerActionView::Reject,
            WorkerAction::Stop => WorkerActionView::Stop,
            WorkerAction::StopUnheard => WorkerActionView::StopUnheard,
        }
    }
}

/// What the worker shares with those who give it turns and with those who
/// answer the official CLI.
#[derive(Clone, Copy, Debug)]
pub struct RuntimeShared {
    pub lifecycle: OfficialRuntimeLifecycle,
    pub routing: OfficialTurnRouting,
    /// Whether the connection has ended.
    pub io_closed: bool,
    /// Whether the owner of the worker's turn has asked for its end.
    pub cancel_requested: bool,
}

impl RuntimeShared {
    /// Whether what the turn of `generation` has reached may take effect.
    pub open spec fn commits(self, generation: u64) -> bool {
        may_commit(self.cancel_requested, self.lifecycle, self.routing, generation)
    }

    /// What is shared at the worker's end.
    pub open spec fn closed(self) -> RuntimeShared {
        RuntimeShared {
            lifecycle: OfficialRuntimeLifecycle::closed(),
            routing: OfficialTurnRouting { active: None },
            ..self
        }
    }

    /// What is shared once no updates of `generation` are forwarded.
    pub open spec fn unrouted(self, generation: u64) -> RuntimeShared {
        RuntimeShared { routing: self.routing.without(generation), ..self }
    }
}

/// The worker.
#[derive(Debug)]
pub struct OfficialWorker {
    /// Whether the official CLI can load sessions.
    pub load_supported: bool,
    pub phase: WorkerPhase,
    /// The turn that the worker runs or last ran.
    pub turn: Option<OfficialTurn>,
    pub session: Option<LiveOfficialSession>,
}

/// What the worker holds.
pub struct WorkerView {
    pub load_supported: bool,
    pub phase: WorkerPhase,
    pub turn: Option<OfficialTurnView>,
    pub session: Option<SessionView>,
}

impl View for OfficialWorker {
    type V = WorkerView;

    open spec fn view(&self) -> WorkerView {
        WorkerView {
            load_supported: self.load_supported,
            phase: self.phase,
            turn: match self.turn {
                Some(turn) => Some(turn@),
                None => None,
            },
            session: match self.session {
                Some(session) => Some(session@),
                None => None,
            },
        }
    }
}

/// The worker, what it shares and what is to be done, after a step.
pub struct Stepped {
    pub worker: WorkerView,
    pub shared: RuntimeShared,
    pub action: WorkerActionView,
}

impl WorkerView {
    /// Whether the phase runs a turn.
    pub open spec fn runs_turn(self) -> bool {
        !(self.phase is Idle || self.phase is Closing || self.phase is Stopped)
    }

    /// Whether the phase runs a turn in a session.
    pub open spec fn in_session(self) -> bool {
        self.phase.rank() >= 4 && self.runs_turn()
    }

    /// Whether the turn runs in a session in place of one that was gone.
    pub open spec fn recovered(self) -> bool {
        ||| self.phase is Noticing
        ||| self.phase == (WorkerPhase::Identifying { recovered: true })
        ||| self.phase == (WorkerPhase::Switching { recovered: true })
    }

    /// A turn that runs is known, and so is its session once it has one. A
    /// session is loaded only where the official CLI can do so, for a turn
    /// that resumes one; only there can a session be gone; and at the prompt
    /// the session's model is the turn's, or the official CLI does not say
    /// which it is.
    pub open spec fn wf(self) -> bool {
        &&& self.runs_turn() ==> self.turn is Some
        &&& self.in_session() ==> self.session is Some
        &&& (self.phase is Opening || self.phase is Loading || self.phase is Replacing)
            ==> self.session is None
        &&& (self.phase is Loading || self.phase is Replacing) ==> self.load_supported
            && self.turn->0.resume_session_id is Some
        &&& self.phase is Opening ==> self.turn->0.resume_session_id is None
        &&& self.recovered() ==> self.load_supported && self.turn->0.resume_session_id is Some
        &&& self.phase is Prompting ==> (self.session->0.current_model matches Some(model)
            ==> model == self.turn->0.selected_model)
    }

    /// Whether the event can come in the worker's phase.
    pub open spec fn expects(self, event: WorkerEventView) -> bool {
        match self.phase {
            WorkerPhase::Idle => event is Received || event is Interrupted,
            WorkerPhase::Opening | WorkerPhase::Replacing => match event {
                WorkerEventView::Answered(answer) => answer is Session || answer is Refused,
                _ => event.ends_request(),
            },
            WorkerPhase::Loading => match event {
                WorkerEventView::Answered(answer) => answer is Loaded || answer is Refused,
                _ => event.ends_request(),
            },
            WorkerPhase::Switching { .. } => match event {
                WorkerEventView::Answered(answer) => answer is ModelSet || answer is Refused,
                _ => event.ends_request(),
            },
            WorkerPhase::Prompting => match event {
                WorkerEventView::Answered(answer) => answer is Prompted || answer is Refused,
                _ => event.ends_request(),
            },
            WorkerPhase::Stopped => false,
            _ => event is Sent,
        }
    }

    /// The worker in another phase.
    pub open spec fn at(self, phase: WorkerPhase) -> WorkerView {
        WorkerView { phase, ..self }
    }

    /// The worker ends.
    pub open spec fn stop(self, shared: RuntimeShared) -> Stepped {
        Stepped {
            worker: self.at(WorkerPhase::Stopped),
            shared: shared.closed(),
            action: WorkerActionView::Stop,
        }
    }

    /// The worker does `action` in `phase`.
    pub open spec fn go(
        self,
        phase: WorkerPhase,
        shared: RuntimeShared,
        action: WorkerActionView,
    ) -> Stepped {
        Stepped { worker: self.at(phase), shared, action }
    }

    /// The worker says `error` to the turn's owner and then ends.
    pub open spec fn fail(self, shared: RuntimeShared, error: RuntimeErrorView) -> Stepped {
        self.go(WorkerPhase::Closing, shared, WorkerActionView::Fail(error))
    }

    /// The worker waits for a turn, where it can take one.
    pub open spec fn rest(self, shared: RuntimeShared) -> Stepped {
        if shared.lifecycle.state != OfficialRuntimeState::Healthy || shared.io_closed {
            self.stop(shared)
        } else {
            self.go(WorkerPhase::Idle, shared, WorkerActionView::Wait)
        }
    }

    /// The worker takes up a turn: one whose end was asked for is passed over.
    pub open spec fn begin(self, shared: RuntimeShared, turn: OfficialTurnView) -> Stepped {
        let taken = WorkerView { turn: Some(turn), ..self };
        if shared.cancel_requested {
            self.rest(shared)
        } else if shared.lifecycle.state != OfficialRuntimeState::Healthy {
            taken.go(WorkerPhase::Closing, shared, WorkerActionView::Reject)
        } else {
            taken.go(
                WorkerPhase::Announcing,
                RuntimeShared {
                    lifecycle: OfficialRuntimeLifecycle {
                        active_generation: turn.generation,
                        ..shared.lifecycle
                    },
                    routing: OfficialTurnRouting::activated(turn.generation),
                    ..shared
                },
                WorkerActionView::Emit(
                    StreamEventView::ConnectionType {
                        connection: "official-cli ACP ("@ + turn.selected_model + ")"@,
                    },
                ),
            )
        }
    }

    /// The worker sees to it that there is a session.
    pub open spec fn open(self, shared: RuntimeShared) -> Stepped {
        if self.session is Some {
            self.identify(shared, false)
        } else {
            match self.turn->0.resume_session_id {
                None => self.go(WorkerPhase::Opening, shared, WorkerActionView::OpenSession),
                Some(id) => if self.load_supported {
                    self.go(WorkerPhase::Loading, shared, WorkerActionView::LoadSession { id })
                } else {
                    self.fail(shared, RuntimeErrorView::LoadUnsupported)
                },
            }
        }
    }

    /// The worker says which session the turn runs in.
    pub open spec fn identify(self, shared: RuntimeShared, recovered: bool) -> Stepped {
        if shared.commits(self.turn->0.generation) {
            self.go(
                WorkerPhase::Identifying { recovered },
                shared,
                WorkerActionView::Emit(StreamEventView::SessionId(self.session->0.id)),
            )
        } else {
            self.stop(shared)
        }
    }

    /// The worker sets the session's model, where it is not the turn's.
    pub open spec fn switch_model(self, shared: RuntimeShared, recovered: bool) -> Stepped {
        if !shared.commits(self.turn->0.generation) {
            self.stop(shared)
        } else if self.session->0.current_model != Some(self.turn->0.selected_model) {
            self.go(
                WorkerPhase::Switching { recovered },
                shared,
                WorkerActionView::SetModel {
                    session_id: self.session->0.id,
                    model: self.turn->0.selected_model,
                },
            )
        } else {
            self.prompt(shared, recovered)
        }
    }

    /// The worker sends the prompt, and updates are forwarded from now on.
    pub open spec fn prompt(self, shared: RuntimeShared, recovered: bool) -> Stepped {
        if !shared.commits(self.turn->0.generation) {
            self.stop(shared)
        } else {
            self.go(
                WorkerPhase::Prompting,
                RuntimeShared {
                    routing: shared.routing.forwarding(self.turn->0.generation),
                    ..shared
                },
                WorkerActionView::Prompt {
                    session_id: self.session->0.id,
                    text: if recovered {
                        self.turn->0.fresh_prompt
                    } else {
                        self.turn->0.prompt
                    },
                },
            )
        }
    }

    /// The worker says again which session the turn ran in.
    pub open spec fn confirm(self, shared: RuntimeShared, reason: StopReason) -> Stepped {
        if !shared.commits(self.turn->0.generation) {
            self.stop(shared)
        } else {
            self.go(
                WorkerPhase::Confirming { reason },
                shared,
                WorkerActionView::Emit(StreamEventView::SessionId(self.session->0.id)),
            )
        }
    }

    /// The worker ends the turn.
    pub open spec fn finish(self, shared: RuntimeShared, reason: StopReason) -> Stepped {
        let generation = self.turn->0.generation;
        if !shared.commits(generation) {
            self.stop(shared)
        } else {
            self.go(
                WorkerPhase::Ending,
                RuntimeShared {
                    lifecycle: shared.lifecycle.without_generation(generation),
                    routing: shared.routing.without(generation),
                    ..shared
                },
                WorkerActionView::Emit(
                    StreamEventView::MessageEnd { stop_reason: Some(reason.text()) },
                ),
            )
        }
    }

    /// A request other than the prompt ended without the answer asked for.
    pub open spec fn break_off(
        self,
        shared: RuntimeShared,
        request: AcpRequest,
        event: WorkerEventView,
    ) -> Stepped {
        match event {
            WorkerEventView::Answered(AcpAnswerView::Refused { message, .. }) => self.fail(
                shared,
                RuntimeErrorView::Refused(request, message),
            ),
            WorkerEventView::Disconnected => self.fail(
                shared,
                RuntimeErrorView::ClosedDuring(request),
            ),
            WorkerEventView::TimedOut => self.fail(shared, RuntimeErrorView::TimedOut(request)),
            _ => self.stop(shared),
        }
    }

    /// The worker takes what a request has brought: a session.
    pub open spec fn with_session(
        self,
        id: Seq<char>,
        current_model: Option<Seq<char>>,
    ) -> WorkerView {
        WorkerView { session: Some(SessionView { id, current_model }), ..self }
    }

    /// The worker after the session's model was set: where the official CLI
    /// does not say which model a session has, it stays unsaid.
    pub open spec fn with_model_set(self) -> WorkerView {
        let session = self.session->0;
        WorkerView {
            session: Some(
                SessionView {
                    current_model: match session.current_model {
                        Some(_) => Some(self.turn->0.selected_model),
                        None => None,
                    },
                    ..session
                },
            ),
            ..self
        }
    }

    /// The prompt ended.
    pub open spec fn prompted(self, shared: RuntimeShared, event: WorkerEventView) -> Stepped {
        let generation = self.turn->0.generation;
        match event {
            WorkerEventView::Cancelled => self.go(
                WorkerPhase::Closing,
                RuntimeShared {
                    lifecycle: shared.lifecycle.cancelling(),
                    ..shared.unrouted(generation)
                },
                WorkerActionView::CancelPrompt { session_id: self.session->0.id },
            ),
            WorkerEventView::Answered(AcpAnswerView::Prompted { usage, reason }) => if !shared.commits(
                generation,
            ) {
                self.stop(shared)
            } else {
                match usage {
                    Some(usage) => self.go(
                        WorkerPhase::Reporting { reason },
                        shared,
                        WorkerActionView::Emit(usage_event(usage)),
                    ),
                    None => self.confirm(shared, reason),
                }
            },
            _ => self.break_off(shared.unrouted(generation), AcpRequest::Prompt, event),
        }
    }

    /// What a step does.
    pub open spec fn stepped(self, shared: RuntimeShared, event: WorkerEventView) -> Stepped {
        match self.phase {
            WorkerPhase::Idle => match event {
                WorkerEventView::Received(turn) => self.begin(shared, turn),
                _ => self.stop(shared),
            },
            WorkerPhase::Announcing => if event == (WorkerEventView::Sent { delivered: false }) {
                Stepped { action: WorkerActionView::StopUnheard, ..self.stop(shared) }
            } else {
                self.open(shared)
            },
            WorkerPhase::Opening => match event {
                WorkerEventView::Answered(AcpAnswerView::Session { id, current_model }) => self.with_session(
                    id,
                    current_model,
                ).identify(shared, false),
                _ => self.break_off(shared, AcpRequest::NewSession, event),
            },
            WorkerPhase::Loading => match event {
                WorkerEventView::Answered(AcpAnswerView::Loaded { current_model }) => self.with_session(
                    self.turn->0.resume_session_id->0,
                    current_model,
                ).identify(shared, false),
                WorkerEventView::Answered(AcpAnswerView::Refused { not_found: true, .. }) => if shared.commits(
                    self.turn->0.generation,
                ) {
                    self.go(WorkerPhase::Replacing, shared, WorkerActionView::OpenSession)
                } else {
                    self.stop(shared)
                },
                _ => self.break_off(shared, AcpRequest::LoadSession, event),
            },
            WorkerPhase::Replacing => match event {
                WorkerEventView::Answered(AcpAnswerView::Session { id, current_model }) => if shared.commits(
                    self.turn->0.generation,
                ) {
                    self.with_session(id, current_model).go(
                        WorkerPhase::Noticing,
                        shared,
                        WorkerActionView::Emit(
                            StreamEventView::StatusDetail {
                                detail: "Prior upstream context unavailable; continued fresh"@,
                            },
                        ),
                    )
                } else {
                    self.with_session(id, current_model).stop(shared)
                },
                _ => self.break_off(shared, AcpRequest::NewSession, event),
            },
            WorkerPhase::Noticing => self.identify(shared, true),
            WorkerPhase::Identifying { recovered } => self.switch_model(shared, recovered),
            WorkerPhase::Switching { recovered } => match event {
                WorkerEventView::Answered(AcpAnswerView::ModelSet) => self.with_model_set().prompt(
                    shared,
                    recovered,
                ),
                _ => self.break_off(shared, AcpRequest::SetModel, event),
            },
            WorkerPhase::Prompting => self.prompted(shared, event),
            WorkerPhase::Reporting { reason } => self.confirm(shared, reason),
            WorkerPhase::Confirming { reason } => self.finish(shared, reason),
            WorkerPhase::Ending => self.rest(shared),
            WorkerPhase::Closing | WorkerPhase::Stopped => self.stop(shared),
        }
    }
}

impl WorkerEventView {
    /// Whether the event ends a request without an answer.
    pub open spec fn ends_request(self) -> bool {
        self is Cancelled || self is Unhealthy || self is Disconnected || self is TimedOut
    }
}

/// The event that says how many tokens a turn has used.
pub open spec fn usage_event(usage: TurnUsage) -> StreamEventView {
    StreamEventView::TokenUsage {
        input_tokens: Some(usage.input_tokens),
        output_tokens: Some(usage.output_tokens),
        cache_read_input_tokens: usage.cached_read_tokens,
        cache_creation_input_tokens: usage.cached_write_tokens,
    }
}

/// A step leaves the worker in good order.
proof fn lemma_step_keeps_wf(worker: WorkerView, shared: RuntimeShared, event: WorkerEventView)
    requires
        worker.wf(),
        worker.expects(event),
    ensures
        worker.stepped(shared, event).worker.wf(),
{
}

/// Copies an optional text.
fn copy_text(text: &Option<String>) -> (r: Option<String>)
    ensures
        text_option(r) == text_option(*text),
{
    match text {
        Some(text) => Some(text.clone()),
        None => None,
    }
}

impl WorkerEvent {
    /// Whether the event ends a request without an answer.
    fn ends_request(&self) -> (r: bool)
        ensures
            r == self@.ends_request(),
    {
        match self {
            WorkerEvent::Cancelled
            | WorkerEvent::Unhealthy
            | WorkerEvent::Disconnected
            | WorkerEvent::TimedOut => true,
            _ => false,
        }
    }
}

impl OfficialWorker {
    /// A worker on a child process that has come up.
    pub fn new(load_supported: bool) -> (worker: Self)
        ensures
            worker@.wf(),
            worker@ == (WorkerView {
                load_supported,
                phase: WorkerPhase::Idle,
                turn: None,
                session: None,
            }),
    {
        OfficialWorker { load_supported, phase: WorkerPhase::Idle, turn: None, session: None }
    }

    /// What is to be done at the beginning of the worker's life: it waits for
    /// a turn, where it can take one.
    pub fn start(&mut self, shared: &mut RuntimeShared) -> (action: WorkerAction)
        requires
            old(self)@.wf(),
            old(self)@.phase is Idle,
        ensures
            (Stepped { worker: final(self)@, shared: *final(shared), action: action@ }) == old(
                self,
            )@.rest(*old(shared)),
            final(self)@.wf(),
    {
        self.rest(shared)
    }

    /// Whether the event can come in the worker's phase.
    pub fn accepts(&self, event: &WorkerEvent) -> (r: bool)
        ensures
            r == self@.expects(event@),
    {
        match self.phase {
            WorkerPhase::Idle => match event {
                WorkerEvent::Received(_) | WorkerEvent::Interrupted => true,
                _ => false,
            },
            WorkerPhase::Opening | WorkerPhase::Replacing => match event {
                WorkerEvent::Answered(AcpAnswer::Session { .. }) => true,
                WorkerEvent::Answered(AcpAnswer::Refused { .. }) => true,
                _ => event.ends_request(),
            },
            WorkerPhase::Loading => match event {
                WorkerEvent::Answered(AcpAnswer::Loaded { .. }) => true,
                WorkerEvent::Answered(AcpAnswer::Refused { .. }) => true,
                _ => event.ends_request(),
            },
            WorkerPhase::Switching { .. } => match event {
                WorkerEvent::Answered(AcpAnswer::ModelSet) => true,
                WorkerEvent::Answered(AcpAnswer::Refused { .. }) => true,
                _ => event.ends_request(),
            },
            WorkerPhase::Prompting => match event {
                WorkerEvent::Answered(AcpAnswer::Prompted { .. }) => true,
                WorkerEvent::Answered(AcpAnswer::Refused { .. }) => true,
                _ => event.ends_request(),
            },
            WorkerPhase::Stopped => false,
            _ => match event {
                WorkerEvent::Sent { .. } => true,
                _ => false,
            },
        }
    }

    /// Whether what the worker's turn has reached may take effect. A turn
    /// whose end was asked for takes its worker with it.
    fn can_commit(&self, shared: &mut RuntimeShared) -> (r: bool)
        requires
            self.turn is Some,
        ensures
            r == old(shared).commits(self@.turn->0.generation),
            r ==> *final(shared) == *old(shared),
            final(shared).closed() == old(shared).closed(),
    {
        let generation = self.generation();
        let routing = shared.routing;
        official_turn_can_commit(
            shared.cancel_requested,
            &mut shared.lifecycle,
            &routing,
            generation,
        )
    }

    /// The generation of the worker's turn.
    fn generation(&self) -> (generation: u64)
        requires
            self.turn is Some,
        ensures
            generation == self@.turn->0.generation,
    {
        match &self.turn {
            Some(turn) => turn.generation,
            None => 0,
        }
    }

    /// The session's identifier.
    fn session_id(&self) -> (id: String)
        requires
            self.session is Some,
        ensures
            id@ == self@.session->0.id,
    {
        match &self.session {
            Some(session) => session.id.clone(),
            None => String::new(),
        }
    }

    /// The model of the worker's turn.
    fn selected_model(&self) -> (model: String)
        requires
            self.turn is Some,
        ensures
            model@ == self@.turn->0.selected_model,
    {
        match &self.turn {
            Some(turn) => turn.selected_model.clone(),
            None => String::new(),
        }
    }

    /// Whether the session is known to have the turn's model.
    fn has_selected_model(&self) -> (r: bool)
        requires
            self.turn is Some,
            self.session is Some,
        ensures
            r == (self@.session->0.current_model == Some(self@.turn->0.selected_model)),
    {
        match (&self.session, &self.turn) {
            (Some(session), Some(turn)) => match &session.current_model {
                Some(model) => str_eq(model.as_str(), turn.selected_model.as_str()),
                None => false,
            },
            _ => false,
        }
    }

    /// The worker ends.
    fn stop(&mut self, shared: &mut RuntimeShared) -> (action: WorkerAction)
        ensures
            (Stepped { worker: final(self)@, shared: *final(shared), action: action@ }) == old(
                self,
            )@.stop(*old(shared)),
    {
        self.phase = WorkerPhase::Stopped;
        shared.lifecycle.close();
        shared.routing.clear();
        WorkerAction::Stop
    }

    /// The worker says `error` to the turn's owner and then ends.
    fn fail(&mut self, error: RuntimeError) -> (action: WorkerAction)
        ensures
            final(self)@ == old(self)@.at(WorkerPhase::Closing),
            action@ == WorkerActionView::Fail(error@),
    {
        self.phase = WorkerPhase::Closing;
        WorkerAction::Fail(error)
    }

    /// The worker waits for a turn, where it can take one.
    fn rest(&mut self, shared: &mut RuntimeShared) -> (action: WorkerAction)
        ensures
            (Stepped { worker: final(self)@, shared: *final(shared), action: action@ }) == old(
                self,
            )@.rest(*old(shared)),
    {
        if !shared.lifecycle.is_healthy() || shared.io_closed {
            return self.stop(shared);
        }
        self.phase = WorkerPhase::Idle;
        WorkerAction::Wait
    }

    /// The worker takes up a turn.
    fn begin(&mut self, shared: &mut RuntimeShared, turn: OfficialTurn) -> (action: WorkerAction)
        ensures
            (Stepped { worker: final(self)@, shared: *final(shared), action: action@ }) == old(
                self,
            )@.begin(*old(shared), turn@),
    {
        if shared.cancel_requested {
            return self.rest(shared);
        }
        if !shared.lifecycle.is_healthy() {
            self.turn = Some(turn);
            self.phase = WorkerPhase::Closing;
            return WorkerAction::Reject;
        }
        shared.lifecycle.activate_generation(turn.generation);
        shared.routing.activate(turn.generation);
        let connection = concat3("official-cli ACP (", turn.selected_model.as_str(), ")");
        self.turn = Some(turn);
        self.phase = WorkerPhase::Announcing;
        WorkerAction::Emit(StreamEvent::ConnectionType { connection })
    }

    /// The worker sees to it that there is a session.
    fn open(&mut self, shared: &mut RuntimeShared) -> (action: WorkerAction)
        requires
            old(self).turn is Some,
        ensures
            (Stepped { worker: final(self)@, shared: *final(shared), action: action@ }) == old(
                self,
            )@.open(*old(shared)),
    {
        if self.session.is_some() {
            return self.identify(shared, false);
        }
        let resume_session_id = match &self.turn {
            Some(turn) => copy_text(&turn.resume_session_id),
            None => None,
        };
        match resume_session_id {
            None => {
                self.phase = WorkerPhase::Opening;
                WorkerAction::OpenSession
            },
            Some(id) => if self.load_supported {
                self.phase = WorkerPhase::Loading;
                WorkerAction::LoadSession { id }
            } else {
                self.fail(RuntimeError::LoadUnsupported)
            },
        }
    }

    /// The worker says which session the turn runs in.
    fn identify(&mut self, shared: &mut RuntimeShared, recovered: bool) -> (action: WorkerAction)
        requires
            old(self).turn is Some,
            old(self).session is Some,
        ensures
            (Stepped { worker: final(self)@, shared: *final(shared), action: action@ }) == old(
                self,
            )@.identify(*old(shared), recovered),
    {
        if !self.can_commit(shared) {
            return self.stop(shared);
        }
        self.phase = WorkerPhase::Identifying { recovered };
        WorkerAction::Emit(StreamEvent::SessionId(self.session_id()))
    }

    /// The worker sets the session's model, where it is not the turn's.
    fn switch_model(&mut self, shared: &mut RuntimeShared, recovered: bool) -> (action:
        WorkerAction)
        requires
            old(self).turn is Some,
            old(self).session is Some,
        ensures
            (Stepped { worker: final(self)@, shared: *final(shared), action: action@ }) == old(
                self,
            )@.switch_model(*old(shared), recovered),
    {
        if !self.can_commit(shared) {
            return self.stop(shared);
        }
        if self.has_selected_model() {
            return self.prompt(shared, recovered);
        }
        self.phase = WorkerPhase::Switching { recovered };
        WorkerAction::SetModel { session_id: self.session_id(), model: self.selected_model() }
    }

    /// The worker sends the prompt, and updates are forwarded from now on.
    fn prompt(&mut self, shared: &mut RuntimeShared, recovered: bool) -> (action: WorkerAction)
        requires
            old(self).turn is Some,
            old(self).session is Some,
        ensures
            (Stepped { worker: final(self)@, shared: *final(shared), action: action@ }) == old(
                self,
            )@.prompt(*old(shared), recovered),
    {
        if !self.can_commit(shared) {
            return self.stop(shared);
        }
        shared.routing.forward(self.generation());
        let text = match &self.turn {
            Some(turn) => if recovered {
                turn.fresh_prompt.clone()
            } else {
                turn.prompt.clone()
            },
            None => String::new(),
        };
        self.phase = WorkerPhase::Prompting;
        WorkerAction::Prompt { session_id: self.session_id(), text }
    }

    /// The worker says again which session the turn ran in.
    fn confirm(&mut self, shared: &mut RuntimeShared, reason: StopReason) -> (action: WorkerAction)
        requires
            old(self).turn is Some,
            old(self).session is Some,
        ensures
            (Stepped { worker: final(self)@, shared: *final(shared), action: action@ }) == old(
                self,
            )@.confirm(*old(shared), reason),
    {
        if !self.can_commit(shared) {
            return self.stop(shared);
        }
        self.phase = WorkerPhase::Confirming { reason };
        WorkerAction::Emit(StreamEvent::SessionId(self.session_id()))
    }

    /// The worker ends the turn.
    fn finish(&mut self, shared: &mut RuntimeShared, reason: StopReason) -> (action: WorkerAction)
        requires
            old(self).turn is Some,
        ensures
            (Stepped { worker: final(self)@, shared: *final(shared), action: action@ }) == old(
                self,
            )@.finish(*old(shared), reason),
    {
        if !self.can_commit(shared) {
            return self.stop(shared);
        }
        let generation = self.generation();
        shared.routing.deactivate(generation);
        shared.lifecycle.finish_generation(generation);
        self.phase = WorkerPhase::Ending;
        WorkerAction::Emit(
            StreamEvent::MessageEnd { stop_reason: Some(acp_stop_reason(reason).to_owned()) },
        )
    }

    /// A request ended without the answer asked for.
    fn break_off(
        &mut self,
        shared: &mut RuntimeShared,
        request: AcpRequest,
        event: WorkerEvent,
    ) -> (action: WorkerAction)
        ensures
            (Stepped { worker: final(self)@, shared: *final(shared), action: action@ }) == old(
                self,
            )@.break_off(*old(shared), request, event@),
    {
        match event {
            WorkerEvent::Answered(AcpAnswer::Refused { message, .. }) => self.fail(
                RuntimeError::Refused(request, message),
            ),
            WorkerEvent::Disconnected => self.fail(RuntimeError::ClosedDuring(request)),
            WorkerEvent::TimedOut => self.fail(RuntimeError::TimedOut(request)),
            _ => self.stop(shared),
        }
    }

    /// The prompt ended.
    fn prompted(&mut self, shared: &mut RuntimeShared, event: WorkerEvent) -> (action: WorkerAction)
        requires
            old(self).turn is Some,
            old(self).session is Some,
        ensures
            (Stepped { worker: final(self)@, shared: *final(shared), action: action@ }) == old(
                self,
            )@.prompted(*old(shared), event@),
    {
        let generation = self.generation();
        match event {
            WorkerEvent::Cancelled => {
                shared.lifecycle.begin_cancelling();
                shared.routing.deactivate(generation);
                self.phase = WorkerPhase::Closing;
                WorkerAction::CancelPrompt { session_id: self.session_id() }
            },
            WorkerEvent::Answered(AcpAnswer::Prompted { usage, reason }) => {
                if !self.can_commit(shared) {
                    return self.stop(shared);
                }
                match usage {
                    Some(usage) => {
                        self.phase = WorkerPhase::Reporting { reason };
                        WorkerAction::Emit(
                            StreamEvent::TokenUsage {
                                input_tokens: Some(usage.input_tokens),
                                output_tokens: Some(usage.output_tokens),
                                cache_read_input_tokens: usage.cached_read_tokens,
                                cache_creation_input_tokens: usage.cached_write_tokens,
                            },
                        )
                    },
                    None => self.confirm(shared, reason),
                }
            },
            _ => {
                shared.routing.deactivate(generation);
                self.break_off(shared, AcpRequest::Prompt, event)
            },
        }
    }

    /// Takes an event and says what is to be done next.
    pub fn step(&mut self, shared: &mut RuntimeShared, event: WorkerEvent) -> (action: WorkerAction)
        requires
            old(self)@.wf(),
            old(self)@.expects(event@),
        ensures
            (Stepped { worker: final(self)@, shared: *final(shared), action: action@ }) == old(
                self,
            )@.stepped(*old(shared), event@),
            final(self)@.wf(),
    {
        proof {
            lemma_step_keeps_wf(self@, *shared, event@);
        }
        match self.phase {
            WorkerPhase::Idle => match event {
                WorkerEvent::Received(turn) => self.begin(shared, turn),
                _ => self.stop(shared),
            },
            WorkerPhase::Announcing => match event {
                WorkerEvent::Sent { delivered: false } => {
                    self.stop(shared);
                    WorkerAction::StopUnheard
                },
                _ => self.open(shared),
            },
            WorkerPhase::Opening => self.opened(shared, event),
            WorkerPhase::Loading => self.loaded(shared, event),
            WorkerPhase::Replacing => self.replaced(shared, event),
            WorkerPhase::Noticing => self.identify(shared, true),
            WorkerPhase::Identifying { recovered } => self.switch_model(shared, recovered),
            WorkerPhase::Switching { recovered } => self.switched(shared, recovered, event),
            WorkerPhase::Prompting => self.prompted(shared, event),
            WorkerPhase::Reporting { reason } => self.confirm(shared, reason),
            WorkerPhase::Confirming { reason } => self.finish(shared, reason),
            WorkerPhase::Ending => self.rest(shared),
            WorkerPhase::Closing | WorkerPhase::Stopped => self.stop(shared),
        }
    }

    /// The opening of a session ended.
    fn opened(&mut self, shared: &mut RuntimeShared, event: WorkerEvent) -> (action: WorkerAction)
        requires
            old(self)@.wf(),
            old(self)@.phase is Opening,
        ensures
            (Stepped { worker: final(self)@, shared: *final(shared), action: action@ }) == old(
                self,
            )@.stepped(*old(shared), event@),
    {
        match event {
            WorkerEvent::Answered(AcpAnswer::Session { id, current_model }) => {
                self.session = Some(LiveOfficialSession { id, current_model });
                self.identify(shared, false)
            },
            _ => self.break_off(shared, AcpRequest::NewSession, event),
        }
    }

    /// The opening of a session in place of one that was gone ended.
    fn replaced(&mut self, shared: &mut RuntimeShared, event: WorkerEvent) -> (action: WorkerAction)
        requires
            old(self)@.wf(),
            old(self)@.phase is Replacing,
        ensures
            (Stepped { worker: final(self)@, shared: *final(shared), action: action@ }) == old(
                self,
            )@.stepped(*old(shared), event@),
    {
        match event {
            WorkerEvent::Answered(AcpAnswer::Session { id, current_model }) => {
                let commits = self.can_commit(shared);
                self.session = Some(LiveOfficialSession { id, current_model });
                if !commits {
                    return self.stop(shared);
                }
                self.phase = WorkerPhase::Noticing;
                WorkerAction::Emit(
                    StreamEvent::StatusDetail {
                        detail: "Prior upstream context unavailable; continued fresh".to_owned(),
                    },
                )
            },
            _ => self.break_off(shared, AcpRequest::NewSession, event),
        }
    }

    /// The setting of the session's model ended.
    fn switched(
        &mut self,
        shared: &mut RuntimeShared,
        recovered: bool,
        event: WorkerEvent,
    ) -> (action: WorkerAction)
        requires
            old(self)@.wf(),
            old(self)@.phase == (WorkerPhase::Switching { recovered }),
        ensures
            (Stepped { worker: final(self)@, shared: *final(shared), action: action@ }) == old(
                self,
            )@.stepped(*old(shared), event@),
    {
        match event {
            WorkerEvent::Answered(AcpAnswer::ModelSet) => {
                self.set_session_model();
                self.prompt(shared, recovered)
            },
            _ => self.break_off(shared, AcpRequest::SetModel, event),
        }
    }

    /// The loading of a session ended.
    fn loaded(&mut self, shared: &mut RuntimeShared, event: WorkerEvent) -> (action: WorkerAction)
        requires
            old(self)@.wf(),
            old(self)@.phase is Loading,
        ensures
            (Stepped { worker: final(self)@, shared: *final(shared), action: action@ }) == old(
                self,
            )@.stepped(*old(shared), event@),
    {
        match event {
            WorkerEvent::Answered(AcpAnswer::Loaded { current_model }) => {
                let id = match &self.turn {
                    Some(turn) => match &turn.resume_session_id {
                        Some(id) => id.clone(),
                        None => String::new(),
                    },
                    None => String::new(),
                };
                self.session = Some(LiveOfficialSession { id, current_model });
                self.identify(shared, false)
            },
            WorkerEvent::Answered(AcpAnswer::Refused { not_found: true, .. }) => {
                if !self.can_commit(shared) {
                    return self.stop(shared);
                }
                self.phase = WorkerPhase::Replacing;
                WorkerAction::OpenSession
            },
            _ => self.break_off(shared, AcpRequest::LoadSession, event),
        }
    }

    /// Notes that the session's model was set, where the official CLI says
    /// which model a session has.
    fn set_session_model(&mut self)
        requires
            old(self).turn is Some,
            old(self).session is Some,
        ensures
            final(self)@ == old(self)@.with_model_set(),
    {
        let model = self.selected_model();
        let id = self.session_id();
        let known = match &self.session {
            Some(session) => session.current_model.is_some(),
            None => false,
        };
        let current_model = if known {
            Some(model)
        } else {
            None
        };
        self.session = Some(LiveOfficialSession { id, current_model });
    }
}

/// How a request of a turn has ended.
#[derive(Clone, Copy, Debug, PartialEq, Eq, Structural)]
pub enum RequestEnd {
    Cancelled,
    Unhealthy,
    Answered,
    Disconnected,
    TimedOut,
}

/// How a request of a turn has ended, by what has happened.
pub open spec fn request_end(
    cancel_requested: bool,
    healthy: bool,
    answered: bool,
    io_closed: bool,
    elapsed: bool,
) -> Option<RequestEnd> {
    if cancel_requested {
        Some(RequestEnd::Cancelled)
    } else if !healthy {
        Some(RequestEnd::Unhealthy)
    } else if answered {
        Some(RequestEnd::Answered)
    } else if io_closed {
        Some(RequestEnd::Disconnected)
    } else if elapsed {
        Some(RequestEnd::TimedOut)
    } else {
        None
    }
}

/// A cancellation counts before all else, and an answer that has come before
/// the end of the connection or of the time that comes with it.
pub proof fn law_cancellation_then_answer(
    healthy: bool,
    answered: bool,
    io_closed: bool,
    elapsed: bool,
)
    ensures
        request_end(true, healthy, answered, io_closed, elapsed) == Some(RequestEnd::Cancelled),
        request_end(false, true, true, io_closed, elapsed) == Some(RequestEnd::Answered),
        request_end(false, true, false, true, elapsed) == Some(RequestEnd::Disconnected),
{
}

/// How a request of a turn has ended, if it has: where several things have
/// happened at once, the turn's cancellation counts before the worker's, that
/// before an answer, an answer before the end of the connection, and that
/// before the end of the time.
pub fn wait_for_turn_request(
    cancel_requested: bool,
    healthy: bool,
    answered: bool,
    io_closed: bool,
    elapsed: bool,
) -> (end: Option<RequestEnd>)
    ensures
        end == request_end(cancel_requested, healthy, answered, io_closed, elapsed),
{
    if cancel_requested {
        Some(RequestEnd::Cancelled)
    } else if !healthy {
        Some(RequestEnd::Unhealthy)
    } else if answered {
        Some(RequestEnd::Answered)
    } else if io_closed {
        Some(RequestEnd::Disconnected)
    } else if elapsed {
        Some(RequestEnd::TimedOut)
    } else {
        None
    }
}

/// What is put into a worker's queue.
#[derive(Debug)]
pub enum OfficialRuntimeCommand {
    Turn(OfficialTurn),
    Shutdown,
}

/// What the worker is told when the queue has given `command`, or nothing
/// because it is closed.
pub fn command_event(command: Option<OfficialRuntimeCommand>) -> (event: WorkerEvent)
    ensures
        event@ == (match command {
            Some(OfficialRuntimeCommand::Turn(turn)) => WorkerEventView::Received(turn@),
            _ => WorkerEventView::Interrupted,
        }),
{
    match command {
        Some(OfficialRuntimeCommand::Turn(turn)) => WorkerEvent::Received(turn),
        _ => WorkerEvent::Interrupted,
    }
}

/// The generations of the turns among `commands`, in their order.
pub open spec fn turn_generations(commands: Seq<OfficialRuntimeCommand>) -> Seq<u64>
    decreases commands.len(),
{
    if commands.len() == 0 {
        Seq::empty()
    } else {
        let before = turn_generations(commands.drop_last());
        match commands.last() {
            OfficialRuntimeCommand::Turn(turn) => before.push(turn.generation),
            OfficialRuntimeCommand::Shutdown => before,
        }
    }
}

/// A turn that is not run, and what its owner is told.
#[derive(Debug)]
pub struct RejectedTurn {
    pub generation: u64,
    pub error: RuntimeError,
}

/// The generations of turns that are not run, in their order.
pub open spec fn rejected_generations(rejected: Seq<RejectedTurn>) -> Seq<u64> {
    rejected.map_values(|turn: RejectedTurn| turn.generation)
}

/// The turns that are told to try again when their worker has ended: all that
/// were still waiting, each once.
pub fn reject_pending_official_turns(commands: &Vec<OfficialRuntimeCommand>) -> (rejected: Vec<
    RejectedTurn,
>)
    ensures
        rejected_generations(rejected@) == turn_generations(commands@),
        forall|i: int|
            0 <= i < rejected@.len() ==> (#[trigger] rejected@[i]).error@.text() == retryable_text(),
{
    let mut rejected: Vec<RejectedTurn> = Vec::new();
    let mut i: usize = 0;
    assert(rejected_generations(rejected@) =~= turn_generations(commands@.take(0)));
    while i < commands.len()
        invariant
            i <= commands.len(),
            rejected_generations(rejected@) == turn_generations(commands@.take(i as int)),
            forall|k: int|
                0 <= k < rejected@.len() ==> (#[trigger] rejected@[k]).error@.text()
                    == retryable_text(),
        decreases commands.len() - i,
    {
        let ghost before = rejected@;
        proof {
            assert(commands@.take(i + 1).drop_last() =~= commands@.take(i as int));
            assert(commands@.take(i + 1).last() == commands@[i as int]);
        }
        match &commands[i] {
            OfficialRuntimeCommand::Turn(turn) => {
                rejected.push(
                    RejectedTurn {
                        generation: turn.generation,
                        error: RuntimeError::ConnectionClosed,
                    },
                );
                assert(rejected_generations(rejected@) =~= rejected_generations(before).push(
                    turn.generation,
                ));
            },
            OfficialRuntimeCommand::Shutdown => {},
        }
        i += 1;
    }
    proof {
        assert(commands@.take(i as int) =~= commands@);
    }
    rejected
}

/// Every waiting turn is told to try again, and nothing else is; and where no
/// two turns have the same generation, each is told so once.
pub proof fn law_waiting_turns_are_rejected(
    commands: Seq<OfficialRuntimeCommand>,
    generation: u64,
)
    ensures
        turn_generations(commands).contains(generation) <==> exists|i: int|
            0 <= i < commands.len() && (#[trigger] commands[i] matches OfficialRuntimeCommand::Turn(
                turn,
            ) && turn.generation == generation),
        (forall|i: int, j: int|
            0 <= i < j < commands.len() ==> (#[trigger] commands[i] matches
                OfficialRuntimeCommand::Turn(turn) ==> (#[trigger] commands[j] matches
                OfficialRuntimeCommand::Turn(other) ==> turn.generation != other.generation)))
            ==> turn_generations(commands).no_duplicates(),
    decreases commands.len(),
{
    if commands.len() > 0 {
        let rest = commands.drop_last();
        let last = commands.len() - 1;
        let before = turn_generations(rest);
        law_waiting_turns_are_rejected(rest, generation);
        assert forall|i: int| 0 <= i < last implies rest[i] == commands[i] by {}
        match commands.last() {
            OfficialRuntimeCommand::Turn(turn) => {
                assert(turn_generations(commands) == before.push(turn.generation));
                assert(commands[last] == commands.last());
                if before.contains(generation) {
                    let k = choose|k: int| 0 <= k < before.len() && before[k] == generation;
                    assert(before.push(turn.generation)[k] == generation);
                }
                assert(before.push(turn.generation)[before.len() as int] == turn.generation);
                law_waiting_turns_are_rejected(rest, turn.generation);
            },
            OfficialRuntimeCommand::Shutdown => {},
        }
    }
}

/// What a step of the worker starts from: what it shares, as it finds it, and
/// what it is told.
pub struct StepInput {
    pub shared: RuntimeShared,
    pub event: WorkerEventView,
}

/// The worker after a run of steps. Between two steps, what it shares may
/// change in any way.
pub open spec fn after_steps(worker: WorkerView, inputs: Seq<StepInput>) -> WorkerView
    decreases inputs.len(),
{
    if inputs.len() == 0 {
        worker
    } else {
        after_steps(worker, inputs.drop_last()).stepped(
            inputs.last().shared,
            inputs.last().event,
        ).worker
    }
}

/// What is done at one step of a run.
pub open spec fn action_at(worker: WorkerView, inputs: Seq<StepInput>, i: int) -> WorkerActionView {
    after_steps(worker, inputs.take(i)).stepped(inputs[i].shared, inputs[i].event).action
}

/// Whether every event of a run can come where it does.
pub open spec fn possible_run(worker: WorkerView, inputs: Seq<StepInput>) -> bool {
    forall|i: int|
        0 <= i < inputs.len() ==> (#[trigger] after_steps(worker, inputs.take(i))).expects(
            inputs[i].event,
        )
}

/// Whether a turn comes in at a step of a run after `from` and not after `to`.
pub open spec fn turn_received(inputs: Seq<StepInput>, from: int, to: int) -> bool {
    exists|k: int| from < k <= to && (#[trigger] inputs[k]).event is Received
}

/// Whether the action tells the turn's owner how the turn has ended.
pub open spec fn tells_outcome(action: WorkerActionView) -> bool {
    match action {
        WorkerActionView::Emit(event) => event is MessageEnd,
        WorkerActionView::Fail(_) => true,
        WorkerActionView::Reject => true,
        _ => false,
    }
}

/// Whether the action hands the turn's owner anything.
pub open spec fn reaches_owner(action: WorkerActionView) -> bool {
    action is Emit || action is Fail || action is Reject
}

/// What is shared after one step of a run.
pub open spec fn shared_after(worker: WorkerView, inputs: Seq<StepInput>, i: int) -> RuntimeShared {
    after_steps(worker, inputs.take(i)).stepped(inputs[i].shared, inputs[i].event).shared
}

/// Whether nobody but the worker changes, in a run, whose updates are
/// forwarded.
pub open spec fn keeps_routing(worker: WorkerView, inputs: Seq<StepInput>) -> bool {
    forall|i: int|
        0 <= i < inputs.len() - 1 ==> (#[trigger] shared_after(worker, inputs, i)).routing
            == inputs[i + 1].shared.routing
}

/// Whether the routing is that of the worker's turn: between turns nothing has
/// a route, and updates are forwarded from the prompt on, until its end.
pub open spec fn fits_routing(worker: WorkerView, routing: OfficialTurnRouting) -> bool {
    match worker.phase {
        WorkerPhase::Idle | WorkerPhase::Ending | WorkerPhase::Stopped => routing.active is None,
        WorkerPhase::Prompting | WorkerPhase::Reporting { .. } | WorkerPhase::Confirming { .. } =>
            routing.routes(worker.turn->0.generation),
        _ => routing.active matches Some(route) ==> route.generation == worker.turn->0.generation
            && !route.forward_updates,
    }
}

/// Whether the phase is one after the prompt, or none of a turn.
spec fn past_prompt(worker: WorkerView) -> bool {
    worker.phase.rank() >= 7 || worker.phase is Idle
}

/// Whether the phase is one after the turn's outcome was told, or none of a
/// turn.
spec fn past_outcome(worker: WorkerView) -> bool {
    worker.phase.rank() >= 10 || worker.phase is Idle
}

/// What a step does once the prompt was sent or the outcome told.
proof fn lemma_step_past(worker: WorkerView, shared: RuntimeShared, event: WorkerEventView)
    requires
        worker.expects(event),
    ensures
        worker.stepped(shared, event).action is Prompt ==> past_prompt(
            worker.stepped(shared, event).worker,
        ),
        past_prompt(worker) && !(event is Received) ==> past_prompt(
            worker.stepped(shared, event).worker,
        ) && !(worker.stepped(shared, event).action is Prompt),
        tells_outcome(worker.stepped(shared, event).action) ==> past_outcome(
            worker.stepped(shared, event).worker,
        ),
        past_outcome(worker) && !(event is Received) ==> past_outcome(
            worker.stepped(shared, event).worker,
        ) && !reaches_owner(worker.stepped(shared, event).action),
{
}

/// Where no turn has come in since step `i`, what step `i` has passed stays
/// passed.
proof fn lemma_stays_past(worker: WorkerView, inputs: Seq<StepInput>, i: int, j: int)
    requires
        possible_run(worker, inputs),
        0 <= i < j <= inputs.len(),
        !turn_received(inputs, i, j - 1),
    ensures
        action_at(worker, inputs, i) is Prompt ==> past_prompt(
            after_steps(worker, inputs.take(j)),
        ),
        tells_outcome(action_at(worker, inputs, i)) ==> past_outcome(
            after_steps(worker, inputs.take(j)),
        ),
    decreases j,
{
    let before = after_steps(worker, inputs.take(j - 1));
    assert(inputs.take(j).drop_last() =~= inputs.take(j - 1));
    assert(inputs.take(j).last() == inputs[j - 1]);
    assert(before.expects(inputs[j - 1].event));
    lemma_step_past(before, inputs[j - 1].shared, inputs[j - 1].event);
    if j - 1 > i {
        assert(!turn_received(inputs, i, j - 2)) by {
            if turn_received(inputs, i, j - 2) {
                let k = choose|k: int| i < k <= j - 2 && (#[trigger] inputs[k]).event is Received;
                assert(i < k <= j - 1 && inputs[k].event is Received);
            }
        }
        lemma_stays_past(worker, inputs, i, j - 1);
        assert(!(inputs[j - 1].event is Received));
    }
}

/// The prompt of a turn is sent at most once: between two prompts a turn has
/// come in.
pub proof fn law_prompt_is_sent_once(worker: WorkerView, inputs: Seq<StepInput>, i: int, j: int)
    requires
        possible_run(worker, inputs),
        0 <= i < j < inputs.len(),
        action_at(worker, inputs, i) is Prompt,
        action_at(worker, inputs, j) is Prompt,
    ensures
        turn_received(inputs, i, j),
{
    if !turn_received(inputs, i, j) {
        assert(!turn_received(inputs, i, j - 1)) by {
            if turn_received(inputs, i, j - 1) {
                let k = choose|k: int| i < k <= j - 1 && (#[trigger] inputs[k]).event is Received;
                assert(i < k <= j && inputs[k].event is Received);
            }
        }
        lemma_stays_past(worker, inputs, i, j);
        assert(after_steps(worker, inputs.take(j)).expects(inputs[j].event));
        lemma_step_past(
            after_steps(worker, inputs.take(j)),
            inputs[j].shared,
            inputs[j].event,
        );
        assert(!(inputs[j].event is Received));
    }
}

/// The outcome of a turn is told at most once: between two outcomes a turn has
/// come in.
pub proof fn law_outcome_is_told_once(worker: WorkerView, inputs: Seq<StepInput>, i: int, j: int)
    requires
        possible_run(worker, inputs),
        0 <= i < j < inputs.len(),
        tells_outcome(action_at(worker, inputs, i)),
        tells_outcome(action_at(worker, inputs, j)),
    ensures
        turn_received(inputs, i, j),
{
    if !turn_received(inputs, i, j) {
        assert(!turn_received(inputs, i, j - 1)) by {
            if turn_received(inputs, i, j - 1) {
                let k = choose|k: int| i < k <= j - 1 && (#[trigger] inputs[k]).event is Received;
                assert(i < k <= j && inputs[k].event is Received);
            }
        }
        lemma_stays_past(worker, inputs, i, j);
        assert(after_steps(worker, inputs.take(j)).expects(inputs[j].event));
        lemma_step_past(
            after_steps(worker, inputs.take(j)),
            inputs[j].shared,
            inputs[j].event,
        );
        assert(!(inputs[j].event is Received));
    }
}

/// Each step leaves the routing that of the worker's turn.
pub proof fn law_routing_follows_the_turn(
    worker: WorkerView,
    shared: RuntimeShared,
    event: WorkerEventView,
)
    requires
        worker.wf(),
        worker.expects(event),
        fits_routing(worker, shared.routing),
    ensures
        ({
            let after = worker.stepped(shared, event);
            fits_routing(after.worker, after.shared.routing)
        }),
{
}

/// Whether the turn of `generation` is over for the worker: its outcome was
/// told, or another turn has come in.
spec fn is_over(worker: WorkerView, generation: u64) -> bool {
    worker.turn matches Some(turn) && (turn.generation != generation || past_outcome(worker))
}

/// A turn that is over stays so, and its owner is handed nothing.
proof fn lemma_step_over(
    worker: WorkerView,
    shared: RuntimeShared,
    event: WorkerEventView,
    generation: u64,
)
    requires
        worker.wf(),
        worker.expects(event),
        is_over(worker, generation),
        event matches WorkerEventView::Received(turn) ==> turn.generation != generation,
    ensures
        ({
            let after = worker.stepped(shared, event);
            &&& is_over(after.worker, generation)
            &&& reaches_owner(after.action) ==> after.worker.turn->0.generation != generation
        }),
{
    lemma_step_past(worker, shared, event);
}

/// A turn is over once its outcome was told.
proof fn lemma_outcome_is_over(worker: WorkerView, shared: RuntimeShared, event: WorkerEventView)
    requires
        worker.wf(),
        worker.expects(event),
        tells_outcome(worker.stepped(shared, event).action),
    ensures
        worker.stepped(shared, event).worker.turn is Some,
        past_outcome(worker.stepped(shared, event).worker),
{
    lemma_step_past(worker, shared, event);
}

/// Of a turn that is over, no update is forwarded.
proof fn lemma_over_is_quiet(worker: WorkerView, routing: OfficialTurnRouting, generation: u64)
    requires
        fits_routing(worker, routing),
        is_over(worker, generation),
    ensures
        !routing.forwards(generation),
{
}

/// A run keeps the worker in good order and the routing that of its turn.
proof fn lemma_run_keeps_order(worker: WorkerView, inputs: Seq<StepInput>, j: int)
    requires
        worker.wf(),
        possible_run(worker, inputs),
        keeps_routing(worker, inputs),
        0 <= j < inputs.len(),
        fits_routing(worker, inputs[0].shared.routing),
    ensures
        after_steps(worker, inputs.take(j)).wf(),
        fits_routing(after_steps(worker, inputs.take(j)), inputs[j].shared.routing),
        after_steps(worker, inputs.take(j + 1)) == after_steps(worker, inputs.take(j)).stepped(
            inputs[j].shared,
            inputs[j].event,
        ).worker,
        after_steps(worker, inputs.take(j + 1)).wf(),
        fits_routing(
            after_steps(worker, inputs.take(j + 1)),
            shared_after(worker, inputs, j).routing,
        ),
    decreases j,
{
    assert(inputs.take(j + 1).drop_last() =~= inputs.take(j));
    assert(inputs.take(j + 1).last() == inputs[j]);
    if j == 0 {
        assert(inputs.take(0) =~= Seq::empty());
    } else {
        lemma_run_keeps_order(worker, inputs, j - 1);
        assert(shared_after(worker, inputs, j - 1).routing == inputs[j].shared.routing);
    }
    let before = after_steps(worker, inputs.take(j));
    assert(before.expects(inputs[j].event));
    lemma_step_keeps_wf(before, inputs[j].shared, inputs[j].event);
    law_routing_follows_the_turn(before, inputs[j].shared, inputs[j].event);
}

/// The turn whose outcome was told at step `i` is over after step `j`.
proof fn lemma_over_after_outcome(
    worker: WorkerView,
    inputs: Seq<StepInput>,
    i: int,
    j: int,
    generation: u64,
)
    requires
        worker.wf(),
        possible_run(worker, inputs),
        keeps_routing(worker, inputs),
        0 <= i <= j < inputs.len(),
        fits_routing(worker, inputs[0].shared.routing),
        tells_outcome(action_at(worker, inputs, i)),
        after_steps(worker, inputs.take(i + 1)).turn->0.generation == generation,
        forall|k: int|
            i < k <= j ==> ((#[trigger] inputs[k]).event matches WorkerEventView::Received(turn)
                ==> turn.generation != generation),
    ensures
        is_over(after_steps(worker, inputs.take(j + 1)), generation),
    decreases j,
{
    lemma_run_keeps_order(worker, inputs, j);
    let before = after_steps(worker, inputs.take(j));
    assert(before.expects(inputs[j].event));
    if j == i {
        lemma_outcome_is_over(before, inputs[j].shared, inputs[j].event);
    } else {
        lemma_over_after_outcome(worker, inputs, i, j - 1, generation);
        assert(inputs.take(j - 1 + 1) == inputs.take(j));
        lemma_step_over(before, inputs[j].shared, inputs[j].event, generation);
    }
}

/// After a turn's outcome was told, nothing more goes to its owner: whatever
/// turns of other generations come in later, no step hands the owner anything,
/// and no update of the turn is forwarded.
pub proof fn law_nothing_follows_the_outcome(
    worker: WorkerView,
    inputs: Seq<StepInput>,
    i: int,
    j: int,
    generation: u64,
)
    requires
        worker.wf(),
        possible_run(worker, inputs),
        keeps_routing(worker, inputs),
        0 <= i <= j < inputs.len(),
        fits_routing(worker, inputs[0].shared.routing),
        tells_outcome(action_at(worker, inputs, i)),
        after_steps(worker, inputs.take(i + 1)).turn->0.generation == generation,
        forall|k: int|
            i < k <= j ==> ((#[trigger] inputs[k]).event matches WorkerEventView::Received(turn)
                ==> turn.generation != generation),
    ensures
        i < j && reaches_owner(action_at(worker, inputs, j)) ==> after_steps(
            worker,
            inputs.take(j + 1),
        ).turn->0.generation != generation,
        !shared_after(worker, inputs, j).routing.forwards(generation),
{
    lemma_run_keeps_order(worker, inputs, j);
    lemma_over_after_outcome(worker, inputs, i, j, generation);
    lemma_over_is_quiet(
        after_steps(worker, inputs.take(j + 1)),
        shared_after(worker, inputs, j).routing,
        generation,
    );
    if i < j {
        let before = after_steps(worker, inputs.take(j));
        lemma_over_after_outcome(worker, inputs, i, j - 1, generation);
        assert(inputs.take(j - 1 + 1) == inputs.take(j));
        assert(before.expects(inputs[j].event));
        lemma_step_over(before, inputs[j].shared, inputs[j].event, generation);
    }
}

/// A turn that was begun ends with its outcome told, unless its end was asked
/// for, its worker is no longer healthy or runs another turn, or its owner no
/// longer listens.
pub proof fn law_outcome_is_told(worker: WorkerView, shared: RuntimeShared, event: WorkerEventView)
    requires
        worker.wf(),
        worker.expects(event),
        worker.runs_turn(),
        !(worker.phase is Ending),
        worker.stepped(shared, event).worker.phase.rank() >= 10 || worker.stepped(
            shared,
            event,
        ).worker.phase is Idle,
        shared.commits(worker.turn->0.generation),
        !(event is Cancelled),
        !(event is Unhealthy),
        event != (WorkerEventView::Sent { delivered: false }),
    ensures
        tells_outcome(worker.stepped(shared, event).action),
{
}

/// A turn comes to its end: each step takes it to a later phase, or back to
/// waiting for the next turn.
pub proof fn law_turn_advances(worker: WorkerView, shared: RuntimeShared, event: WorkerEventView)
    requires
        worker.expects(event),
    ensures
        ({
            let next = worker.stepped(shared, event).worker.phase;
            next is Idle || next.rank() > worker.phase.rank()
        }),
{
}

/// Once the turn's end was asked for or the worker is no longer healthy, the
/// worker sends its owner no event, sets no model and sends no prompt.
pub proof fn law_nothing_goes_out_after_cancel(
    worker: WorkerView,
    shared: RuntimeShared,
    event: WorkerEventView,
)
    requires
        worker.expects(event),
        shared.cancel_requested || shared.lifecycle.state != OfficialRuntimeState::Healthy,
    ensures
        ({
            let action = worker.stepped(shared, event).action;
            !(action is Emit || action is SetModel || action is Prompt)
        }),
{
}

/// A prompt goes out in the turn's session with the turn's model, or with one
/// that the official CLI does not name, and its updates are forwarded. The
/// fresh prompt goes out exactly where the session to resume was gone.
pub proof fn law_prompt_is_ready(worker: WorkerView, shared: RuntimeShared, event: WorkerEventView)
    requires
        worker.wf(),
        worker.expects(event),
        worker.stepped(shared, event).action is Prompt,
    ensures
        ({
            let after = worker.stepped(shared, event);
            let turn = worker.turn->0;
            &&& after.worker.turn == Some(turn)
            &&& after.worker.session matches Some(session)
            &&& session.current_model matches Some(model) ==> model == turn.selected_model
            &&& after.action == (WorkerActionView::Prompt {
                session_id: session.id,
                text: if worker.recovered() {
                    turn.fresh_prompt
                } else {
                    turn.prompt
                },
            })
            &&& after.shared.routing.forwards(turn.generation)
            &&& shared.commits(turn.generation)
        }),
{
}

/// A session's model is set only where it is not known to be the turn's; and
/// once it was set, it is known to be, where the official CLI says which model a
/// session has.
pub proof fn law_model_is_set_where_it_differs(
    worker: WorkerView,
    shared: RuntimeShared,
    event: WorkerEventView,
)
    requires
        worker.wf(),
        worker.expects(event),
    ensures
        ({
            let after = worker.stepped(shared, event);
            &&& after.action is SetModel ==> worker.session->0.current_model != Some(
                worker.turn->0.selected_model,
            )
            &&& worker.phase is Switching && event == WorkerEventView::Answered(
                AcpAnswerView::ModelSet,
            ) && worker.session->0.current_model is Some ==> (after.worker.session matches Some(
                session,
            ) && session.current_model == Some(worker.turn->0.selected_model))
        }),
{
}

/// Whether the session is known to have `model`, and the turn asks for it too.
pub open spec fn settled_on(worker: WorkerView, model: Seq<char>) -> bool {
    &&& worker.session matches Some(session) && session.current_model == Some(model)
    &&& worker.turn matches Some(turn) ==> turn.selected_model == model
}

/// A session that has the model of its turns keeps it, and it is not set.
proof fn lemma_stays_settled(
    worker: WorkerView,
    shared: RuntimeShared,
    event: WorkerEventView,
    model: Seq<char>,
)
    requires
        worker.wf(),
        worker.expects(event),
        settled_on(worker, model),
        event matches WorkerEventView::Received(turn) ==> turn.selected_model == model,
    ensures
        worker.stepped(shared, event).worker.wf(),
        settled_on(worker.stepped(shared, event).worker, model),
        !(worker.stepped(shared, event).action is SetModel),
{
    lemma_step_keeps_wf(worker, shared, event);
}

/// A session that has the model of its turns keeps it over a run.
proof fn lemma_run_stays_settled(
    worker: WorkerView,
    inputs: Seq<StepInput>,
    model: Seq<char>,
    j: int,
)
    requires
        worker.wf(),
        possible_run(worker, inputs),
        settled_on(worker, model),
        0 <= j <= inputs.len(),
        forall|k: int|
            0 <= k < inputs.len() ==> ((#[trigger] inputs[k]).event matches
                WorkerEventView::Received(turn) ==> turn.selected_model == model),
    ensures
        after_steps(worker, inputs.take(j)).wf(),
        settled_on(after_steps(worker, inputs.take(j)), model),
    decreases j,
{
    if j == 0 {
        assert(inputs.take(0) =~= Seq::empty());
    } else {
        lemma_run_stays_settled(worker, inputs, model, j - 1);
        let before = after_steps(worker, inputs.take(j - 1));
        assert(inputs.take(j).drop_last() =~= inputs.take(j - 1));
        assert(inputs.take(j).last() == inputs[j - 1]);
        assert(before.expects(inputs[j - 1].event));
        lemma_stays_settled(before, inputs[j - 1].shared, inputs[j - 1].event, model);
    }
}

/// Once a session has the model of its turns, it is not set again, over however
/// many turns that ask for the same model.
pub proof fn law_model_is_set_once(
    worker: WorkerView,
    inputs: Seq<StepInput>,
    model: Seq<char>,
    j: int,
)
    requires
        worker.wf(),
        possible_run(worker, inputs),
        settled_on(worker, model),
        0 <= j < inputs.len(),
        forall|k: int|
            0 <= k < inputs.len() ==> ((#[trigger] inputs[k]).event matches
                WorkerEventView::Received(turn) ==> turn.selected_model == model),
    ensures
        !(action_at(worker, inputs, j) is SetModel),
{
    lemma_run_stays_settled(worker, inputs, model, j);
    let before = after_steps(worker, inputs.take(j));
    assert(before.expects(inputs[j].event));
    lemma_stays_settled(before, inputs[j].shared, inputs[j].event, model);
}

/// When the end of a turn is said, none of its updates is forwarded any more,
/// and no later cancellation of it reaches the worker.
pub proof fn law_turn_is_closed_at_its_end(
    worker: WorkerView,
    shared: RuntimeShared,
    event: WorkerEventView,
)
    requires
        worker.wf(),
        worker.expects(event),
        worker.stepped(shared, event).action matches WorkerActionView::Emit(said)
            && said is MessageEnd,
    ensures
        ({
            let after = worker.stepped(shared, event).shared;
            let generation = worker.turn->0.generation;
            &&& !after.routing.routes(generation)
            &&& generation != 0 ==> after.lifecycle.active_generation != generation
        }),
{
}

/// A worker that has a session keeps it: every later turn runs in the same
/// one.
pub proof fn law_session_is_kept(worker: WorkerView, shared: RuntimeShared, event: WorkerEventView)
    requires
        worker.wf(),
        worker.expects(event),
        worker.session is Some,
    ensures
        worker.stepped(shared, event).worker.session matches Some(session) && session.id
            == worker.session->0.id,
{
}

/// A worker that stops leaves nothing open: its life is over and no turn has
/// a route.
pub proof fn law_stop_closes(worker: WorkerView, shared: RuntimeShared, event: WorkerEventView)
    requires
        worker.expects(event),
        worker.stepped(shared, event).worker.phase is Stopped,
    ensures
        ({
            let after = worker.stepped(shared, event).shared;
            &&& after.lifecycle == OfficialRuntimeLifecycle::closed()
            &&& after.routing.active is None
        }),
{
}

/// The request that the worker waits for.
pub open spec fn open_request(phase: WorkerPhase) -> Option<AcpRequest> {
    match phase {
        WorkerPhase::Opening | WorkerPhase::Replacing => Some(AcpRequest::NewSession),
        WorkerPhase::Loading => Some(AcpRequest::LoadSession),
        WorkerPhase::Switching { .. } => Some(AcpRequest::SetModel),
        WorkerPhase::Prompting => Some(AcpRequest::Prompt),
        _ => None,
    }
}

/// Where the connection ends during a request, or the request is not answered
/// in time, the turn's owner is told so, nothing is sent again, and the worker
/// ends with its next step.
pub proof fn law_lost_connection_ends_the_worker(
    worker: WorkerView,
    shared: RuntimeShared,
    later: RuntimeShared,
    delivered: bool,
    request: AcpRequest,
)
    requires
        open_request(worker.phase) == Some(request),
    ensures
        ({
            let lost = worker.stepped(shared, WorkerEventView::Disconnected);
            let late = worker.stepped(shared, WorkerEventView::TimedOut);
            let sent = WorkerEventView::Sent { delivered };
            &&& lost.action == WorkerActionView::Fail(RuntimeErrorView::ClosedDuring(request))
            &&& late.action == WorkerActionView::Fail(RuntimeErrorView::TimedOut(request))
            &&& lost.worker.stepped(later, sent).action == WorkerActionView::Stop
            &&& late.worker.stepped(later, sent).action == WorkerActionView::Stop
        }),
{
}

/// A turn whose session is gone goes on in a new one, unless it is stopped: the
/// session is opened, the turn's owner is told that the old one was gone and
/// which is the new one, the turn's model is set where the new session has
/// another, and the fresh prompt is sent.
pub proof fn law_gone_session_is_replaced(
    worker: WorkerView,
    shared: RuntimeShared,
    id: Seq<char>,
    current_model: Option<Seq<char>>,
    message: Seq<char>,
    delivered: bool,
)
    requires
        worker.wf(),
        worker.phase is Loading,
        shared.commits(worker.turn->0.generation),
    ensures
        ({
            let turn = worker.turn->0;
            let sent = WorkerEventView::Sent { delivered };
            let gone = worker.stepped(
                shared,
                WorkerEventView::Answered(AcpAnswerView::Refused { not_found: true, message }),
            );
            let opened = gone.worker.stepped(
                shared,
                WorkerEventView::Answered(AcpAnswerView::Session { id, current_model }),
            );
            let noticed = opened.worker.stepped(shared, sent);
            let identified = noticed.worker.stepped(shared, sent);
            let switched = identified.worker.stepped(
                shared,
                WorkerEventView::Answered(AcpAnswerView::ModelSet),
            );
            let prompt = WorkerActionView::Prompt { session_id: id, text: turn.fresh_prompt };
            &&& gone.action == WorkerActionView::OpenSession
            &&& opened.action == WorkerActionView::Emit(
                StreamEventView::StatusDetail {
                    detail: "Prior upstream context unavailable; continued fresh"@,
                },
            )
            &&& noticed.action == WorkerActionView::Emit(StreamEventView::SessionId(id))
            &&& if current_model == Some(turn.selected_model) {
                identified.action == prompt
            } else {
                &&& identified.action == (WorkerActionView::SetModel {
                    session_id: id,
                    model: turn.selected_model,
                })
                &&& switched.action == prompt
            }
        }),
{
}

/// Whether nothing stands in the way of the turn of `generation`: its end was
/// not asked for, its worker is healthy and it is the one that is routed.
pub open spec fn unhindered(shared: RuntimeShared, generation: u64) -> bool {
    &&& !shared.cancel_requested
    &&& shared.lifecycle.state == OfficialRuntimeState::Healthy
    &&& shared.routing.active is Some
    &&& shared.routing.active->0.generation == generation
}

/// The session that a worker holds is what the official CLI has answered: a new
/// one with the identifier and the model of the answer, a loaded one with the
/// identifier that was to be resumed and the model of the answer. Once its model
/// was set, it has the turn's, if the official CLI had named one at all. No
/// other event changes it.
pub proof fn law_session_is_what_was_answered(
    worker: WorkerView,
    shared: RuntimeShared,
    event: WorkerEventView,
)
    requires
        worker.wf(),
        worker.expects(event),
    ensures
        ({
            let after = worker.stepped(shared, event).worker.session;
            match event {
                WorkerEventView::Answered(AcpAnswerView::Session { id, current_model }) => after
                    == Some(SessionView { id, current_model }),
                WorkerEventView::Answered(AcpAnswerView::Loaded { current_model }) => after == Some(
                    SessionView { id: worker.turn->0.resume_session_id->0, current_model },
                ),
                WorkerEventView::Answered(AcpAnswerView::ModelSet) => {
                    &&& after is Some
                    &&& after->0.id == worker.session->0.id
                    &&& worker.session->0.current_model is Some ==> after->0.current_model == Some(
                        worker.turn->0.selected_model,
                    )
                    &&& worker.session->0.current_model is None ==> after->0.current_model is None
                },
                _ => after == worker.session,
            }
        }),
{
}

/// Before a turn's prompt goes out, the session's model is set exactly where it
/// is not known to be the one that the user has selected; and the prompt goes
/// out only then, in the turn's session.
pub proof fn law_turn_runs_on_the_selected_model(
    worker: WorkerView,
    shared: RuntimeShared,
    delivered: bool,
    recovered: bool,
)
    requires
        worker.wf(),
        worker.phase == (WorkerPhase::Identifying { recovered }),
        unhindered(shared, worker.turn->0.generation),
    ensures
        ({
            let turn = worker.turn->0;
            let id = worker.session->0.id;
            let prompt = WorkerActionView::Prompt {
                session_id: id,
                text: if recovered {
                    turn.fresh_prompt
                } else {
                    turn.prompt
                },
            };
            let after = worker.stepped(shared, WorkerEventView::Sent { delivered });
            let set = after.worker.stepped(
                after.shared,
                WorkerEventView::Answered(AcpAnswerView::ModelSet),
            );
            if worker.session->0.current_model == Some(turn.selected_model) {
                after.action == prompt
            } else {
                &&& after.action == (WorkerActionView::SetModel {
                    session_id: id,
                    model: turn.selected_model,
                })
                &&& set.action == prompt
            }
        }),
{
}

/// A turn that resumes a session, on a worker that has none and can load it:
/// the session is loaded by its identifier, the owner is told of the connection
/// and of the session, the model is set where the loaded session has another
/// than the selected one, and then the turn's prompt goes out in that session.
pub proof fn law_resumed_turn_runs_in_its_session(
    worker: WorkerView,
    shared: RuntimeShared,
    turn: OfficialTurnView,
    id: Seq<char>,
    current_model: Option<Seq<char>>,
)
    requires
        worker.wf(),
        worker.phase is Idle,
        worker.session is None,
        worker.load_supported,
        turn.resume_session_id == Some(id),
        !shared.cancel_requested,
        shared.lifecycle.state == OfficialRuntimeState::Healthy,
    ensures
        ({
            let sent = WorkerEventView::Sent { delivered: true };
            let begun = worker.stepped(shared, WorkerEventView::Received(turn));
            let loading = begun.worker.stepped(begun.shared, sent);
            let loaded = loading.worker.stepped(
                loading.shared,
                WorkerEventView::Answered(AcpAnswerView::Loaded { current_model }),
            );
            let next = loaded.worker.stepped(loaded.shared, sent);
            let set = next.worker.stepped(
                next.shared,
                WorkerEventView::Answered(AcpAnswerView::ModelSet),
            );
            let prompt = WorkerActionView::Prompt { session_id: id, text: turn.prompt };
            &&& begun.action == WorkerActionView::Emit(
                StreamEventView::ConnectionType {
                    connection: "official-cli ACP ("@ + turn.selected_model + ")"@,
                },
            )
            &&& loading.action == (WorkerActionView::LoadSession { id })
            &&& loaded.action == WorkerActionView::Emit(StreamEventView::SessionId(id))
            &&& loaded.worker.session == Some(SessionView { id, current_model })
            &&& current_model == Some(turn.selected_model) ==> next.action == prompt
            &&& current_model != Some(turn.selected_model) ==> next.action == (
            WorkerActionView::SetModel { session_id: id, model: turn.selected_model })
                && set.action == prompt
        }),
{
}

/// A turn that resumes nothing, on a worker that has no session: one is opened,
/// the owner is told of the connection and of the session, the model is set
/// where the new session has another than the selected one, and then the turn's
/// prompt goes out in that session.
pub proof fn law_new_turn_runs_in_a_new_session(
    worker: WorkerView,
    shared: RuntimeShared,
    turn: OfficialTurnView,
    id: Seq<char>,
    current_model: Option<Seq<char>>,
)
    requires
        worker.wf(),
        worker.phase is Idle,
        worker.session is None,
        turn.resume_session_id is None,
        !shared.cancel_requested,
        shared.lifecycle.state == OfficialRuntimeState::Healthy,
    ensures
        ({
            let sent = WorkerEventView::Sent { delivered: true };
            let begun = worker.stepped(shared, WorkerEventView::Received(turn));
            let opening = begun.worker.stepped(begun.shared, sent);
            let opened = opening.worker.stepped(
                opening.shared,
                WorkerEventView::Answered(AcpAnswerView::Session { id, current_model }),
            );
            let next = opened.worker.stepped(opened.shared, sent);
            let set = next.worker.stepped(
                next.shared,
                WorkerEventView::Answered(AcpAnswerView::ModelSet),
            );
            let prompt = WorkerActionView::Prompt { session_id: id, text: turn.prompt };
            &&& begun.action == WorkerActionView::Emit(
                StreamEventView::ConnectionType {
                    connection: "official-cli ACP ("@ + turn.selected_model + ")"@,
                },
            )
            &&& opening.action is OpenSession
            &&& opened.action == WorkerActionView::Emit(StreamEventView::SessionId(id))
            &&& opened.worker.session == Some(SessionView { id, current_model })
            &&& current_model == Some(turn.selected_model) ==> next.action == prompt
            &&& current_model != Some(turn.selected_model) ==> next.action == (
            WorkerActionView::SetModel { session_id: id, model: turn.selected_model })
                && set.action == prompt
        }),
{
}

/// A turn on a worker that has a session runs in that one, whatever session it
/// was to resume: none is opened and none is loaded.
pub proof fn law_later_turn_runs_in_the_same_session(
    worker: WorkerView,
    shared: RuntimeShared,
    turn: OfficialTurnView,
    session: SessionView,
)
    requires
        worker.wf(),
        worker.phase is Idle,
        worker.session == Some(session),
        !shared.cancel_requested,
        shared.lifecycle.state == OfficialRuntimeState::Healthy,
    ensures
        ({
            let sent = WorkerEventView::Sent { delivered: true };
            let begun = worker.stepped(shared, WorkerEventView::Received(turn));
            let identified = begun.worker.stepped(begun.shared, sent);
            let next = identified.worker.stepped(identified.shared, sent);
            let prompt = WorkerActionView::Prompt { session_id: session.id, text: turn.prompt };
            &&& begun.action is Emit
            &&& identified.action == WorkerActionView::Emit(StreamEventView::SessionId(session.id))
            &&& session.current_model == Some(turn.selected_model) ==> next.action == prompt
            &&& session.current_model != Some(turn.selected_model) ==> next.action == (
            WorkerActionView::SetModel { session_id: session.id, model: turn.selected_model })
        }),
{
}

/// A prompt that was answered is told to its end: the tokens where the answer
/// names them, as it names them, then the session once more, then the end of
/// the message for the reason of the answer. After that the worker waits for
/// the next turn, with its session, unless it can take none.
pub proof fn law_answered_prompt_is_told(
    worker: WorkerView,
    shared: RuntimeShared,
    usage: Option<TurnUsage>,
    reason: StopReason,
)
    requires
        worker.wf(),
        worker.phase is Prompting,
        unhindered(shared, worker.turn->0.generation),
    ensures
        ({
            let sent = WorkerEventView::Sent { delivered: true };
            let answered = worker.stepped(
                shared,
                WorkerEventView::Answered(AcpAnswerView::Prompted { usage, reason }),
            );
            let confirmed = if usage is Some {
                answered.worker.stepped(answered.shared, sent)
            } else {
                answered
            };
            let ended = confirmed.worker.stepped(confirmed.shared, sent);
            let rested = ended.worker.stepped(ended.shared, sent);
            &&& usage matches Some(used) ==> answered.action == WorkerActionView::Emit(
                StreamEventView::TokenUsage {
                    input_tokens: Some(used.input_tokens),
                    output_tokens: Some(used.output_tokens),
                    cache_read_input_tokens: used.cached_read_tokens,
                    cache_creation_input_tokens: used.cached_write_tokens,
                },
            )
            &&& confirmed.action == WorkerActionView::Emit(
                StreamEventView::SessionId(worker.session->0.id),
            )
            &&& ended.action == WorkerActionView::Emit(
                StreamEventView::MessageEnd { stop_reason: Some(reason.text()) },
            )
            &&& ended.shared.routing.active is None
            &&& rested.action is Wait <==> !shared.io_closed
            &&& !shared.io_closed ==> rested.worker.phase is Idle
            &&& rested.worker.session == worker.session
        }),
{
}

/// Why the official CLI has stopped is said under these names.
pub proof fn law_stop_reasons_have_names(reason: StopReason)
    ensures
        reason.text() == (match reason {
            StopReason::EndTurn => "end_turn"@,
            StopReason::MaxTokens => "max_tokens"@,
            StopReason::MaxTurnRequests => "max_turn_requests"@,
            StopReason::Refusal => "refusal"@,
            StopReason::Cancelled => "cancelled"@,
            StopReason::Unknown => "unknown"@,
        }),
{
}

/// A request that is refused, not answered in time or cut off is told to the
/// turn's owner for what it was, and the worker ends with it. Only a session
/// that is gone does not end a turn that loads it.
pub proof fn law_failed_requests_are_told(
    worker: WorkerView,
    shared: RuntimeShared,
    not_found: bool,
    message: Seq<char>,
    request: AcpRequest,
)
    requires
        worker.wf(),
        match request {
            AcpRequest::NewSession => worker.phase is Opening || worker.phase is Replacing,
            AcpRequest::LoadSession => worker.phase is Loading,
            AcpRequest::SetModel => worker.phase is Switching,
            AcpRequest::Prompt => worker.phase is Prompting,
            AcpRequest::Initialize => false,
        },
    ensures
        ({
            let refused = worker.stepped(
                shared,
                WorkerEventView::Answered(AcpAnswerView::Refused { not_found, message }),
            );
            let cut_off = worker.stepped(shared, WorkerEventView::Disconnected);
            let late = worker.stepped(shared, WorkerEventView::TimedOut);
            let gone = request == AcpRequest::LoadSession && not_found;
            &&& !gone ==> refused.action == WorkerActionView::Fail(
                RuntimeErrorView::Refused(request, message),
            ) && refused.worker.phase is Closing
            &&& gone && unhindered(shared, worker.turn->0.generation) ==> refused.action
                is OpenSession && refused.worker.phase is Replacing
            &&& cut_off.action == WorkerActionView::Fail(RuntimeErrorView::ClosedDuring(request))
            &&& cut_off.worker.phase is Closing
            &&& late.action == WorkerActionView::Fail(RuntimeErrorView::TimedOut(request))
            &&& late.worker.phase is Closing
        }),
{
}

/// Where a turn's end is asked for or its worker is no longer healthy while a
/// request is open, the worker ends; a prompt that is out is called off first,
/// in its session, and none of its updates is forwarded from then on.
pub proof fn law_called_off_turns_end_the_worker(worker: WorkerView, shared: RuntimeShared)
    requires
        worker.wf(),
        worker.phase is Opening || worker.phase is Replacing || worker.phase is Loading
            || worker.phase is Switching || worker.phase is Prompting,
    ensures
        ({
            let cancelled = worker.stepped(shared, WorkerEventView::Cancelled);
            let unhealthy = worker.stepped(shared, WorkerEventView::Unhealthy);
            &&& worker.phase is Prompting ==> {
                &&& cancelled.action == (WorkerActionView::CancelPrompt {
                    session_id: worker.session->0.id,
                })
                &&& cancelled.worker.phase is Closing
                &&& cancelled.shared.lifecycle.state != OfficialRuntimeState::Healthy
                &&& !cancelled.shared.routing.forwards(worker.turn->0.generation)
            }
            &&& !(worker.phase is Prompting) ==> cancelled.action is Stop
                && cancelled.worker.phase is Stopped
            &&& unhealthy.action is Stop
            &&& unhealthy.worker.phase is Stopped
        }),
{
}

/// A turn is begun where its end was not asked for and the worker is healthy;
/// it then is the active one, and nothing of it is forwarded yet. One whose end
/// was asked for is passed over, and one that comes to a worker that is no
/// longer healthy is told so, after which the worker ends.
pub proof fn law_turns_are_begun(
    worker: WorkerView,
    shared: RuntimeShared,
    turn: OfficialTurnView,
    delivered: bool,
)
    requires
        worker.wf(),
        worker.phase is Idle,
    ensures
        ({
            let begun = worker.stepped(shared, WorkerEventView::Received(turn));
            let healthy = shared.lifecycle.state == OfficialRuntimeState::Healthy;
            let closed = begun.worker.stepped(begun.shared, WorkerEventView::Sent { delivered });
            &&& !shared.cancel_requested && healthy ==> {
                &&& begun.worker.turn == Some(turn)
                &&& begun.worker.phase is Announcing
                &&& begun.shared.lifecycle == (OfficialRuntimeLifecycle {
                    state: OfficialRuntimeState::Healthy,
                    active_generation: turn.generation,
                })
                &&& begun.shared.routing.active is Some
                &&& begun.shared.routing.active->0.generation == turn.generation
                &&& !begun.shared.routing.active->0.forward_updates
            }
            &&& !shared.cancel_requested && !healthy ==> begun.action is Reject && closed.action
                is Stop
            &&& shared.cancel_requested && healthy && !shared.io_closed ==> begun.action is Wait
                && begun.worker.phase is Idle && begun.shared == shared
            &&& shared.cancel_requested && (!healthy || shared.io_closed) ==> begun.action is Stop
        }),
{
}

/// A turn whose owner no longer listens at its beginning ends the worker
/// unheard; one that resumes a session where none can be loaded is told so; and
/// a worker that is told of no turn, or has done its last, ends.
pub proof fn law_workers_end(worker: WorkerView, shared: RuntimeShared, delivered: bool)
    requires
        worker.wf(),
    ensures
        worker.phase is Announcing ==> worker.stepped(
            shared,
            WorkerEventView::Sent { delivered: false },
        ).action is StopUnheard,
        worker.phase is Announcing && worker.session is None && !worker.load_supported
            && worker.turn->0.resume_session_id is Some ==> worker.stepped(
            shared,
            WorkerEventView::Sent { delivered: true },
        ).action == WorkerActionView::Fail(RuntimeErrorView::LoadUnsupported),
        worker.phase is Idle ==> worker.stepped(shared, WorkerEventView::Interrupted).action
            is Stop,
        worker.phase is Closing ==> worker.stepped(
            shared,
            WorkerEventView::Sent { delivered },
        ).action is Stop,
        worker.phase is Ending ==> ({
            let after = worker.stepped(shared, WorkerEventView::Sent { delivered });
            if shared.lifecycle.state == OfficialRuntimeState::Healthy && !shared.io_closed {
                after.action is Wait && after.worker.phase is Idle
            } else {
                after.action is Stop && after.worker.phase is Stopped
            }
        }),
{
}

/// A turn that is hindered goes no further: where it would tell its owner
/// anything, set a model or send its prompt, its worker ends instead.
pub proof fn law_hindered_turns_end(
    worker: WorkerView,
    shared: RuntimeShared,
    id: Seq<char>,
    current_model: Option<Seq<char>>,
    usage: Option<TurnUsage>,
    reason: StopReason,
    delivered: bool,
)
    requires
        worker.wf(),
        worker.turn is Some,
        !unhindered(shared, worker.turn->0.generation),
    ensures
        ({
            let sent = WorkerEventView::Sent { delivered };
            let session = AcpAnswerView::Session { id, current_model };
            let loaded = AcpAnswerView::Loaded { current_model };
            let prompted = AcpAnswerView::Prompted { usage, reason };
            &&& worker.phase is Opening || worker.phase is Replacing ==> worker.stepped(
                shared,
                WorkerEventView::Answered(session),
            ).action is Stop
            &&& worker.phase is Loading ==> worker.stepped(
                shared,
                WorkerEventView::Answered(loaded),
            ).action is Stop
            &&& worker.phase is Switching ==> worker.stepped(
                shared,
                WorkerEventView::Answered(AcpAnswerView::ModelSet),
            ).action is Stop
            &&& worker.phase is Prompting ==> worker.stepped(
                shared,
                WorkerEventView::Answered(prompted),
            ).action is Stop
            &&& worker.phase is Noticing || worker.phase is Identifying || worker.phase
                is Reporting || worker.phase is Confirming ==> worker.stepped(shared, sent).action
                is Stop
        }),
{
}

/// A step changes nothing else: what the worker can do stays, its turn is
/// another one only when one is received, and nobody's wish for an end and no
/// end of the connection is made up or forgotten.
pub proof fn law_steps_change_nothing_else(
    worker: WorkerView,
    shared: RuntimeShared,
    event: WorkerEventView,
)
    requires
        worker.wf(),
        worker.expects(event),
    ensures
        ({
            let after = worker.stepped(shared, event);
            &&& after.worker.load_supported == worker.load_supported
            &&& !(event is Received) ==> after.worker.turn == worker.turn
            &&& after.shared.io_closed == shared.io_closed
            &&& after.shared.cancel_requested == shared.cancel_requested
            &&& after.shared.lifecycle.state == OfficialRuntimeState::Healthy
                ==> shared.lifecycle.state == OfficialRuntimeState::Healthy
        }),
{
}

/// How an open request has ended: by the turn's cancellation before all else,
/// then by the worker's ill health, then by its answer, then by the end of the
/// connection and last by the end of the time; and while none of these has
/// happened, it has not.
pub proof fn law_request_ends(
    cancel_requested: bool,
    healthy: bool,
    answered: bool,
    io_closed: bool,
    elapsed: bool,
)
    ensures
        ({
            let end = request_end(cancel_requested, healthy, answered, io_closed, elapsed);
            let calm = !cancel_requested && healthy;
            &&& end == Some(RequestEnd::Cancelled) <==> cancel_requested
            &&& end == Some(RequestEnd::Unhealthy) <==> !cancel_requested && !healthy
            &&& end == Some(RequestEnd::Answered) <==> calm && answered
            &&& end == Some(RequestEnd::Disconnected) <==> calm && !answered && io_closed
            &&& end == Some(RequestEnd::TimedOut) <==> calm && !answered && !io_closed && elapsed
            &&& end is None <==> calm && !answered && !io_closed && !elapsed
        }),
{
}

/// Waiting turns are rejected in the order in which they wait.
pub proof fn law_waiting_turns_keep_their_order(
    commands: Seq<OfficialRuntimeCommand>,
    more: Seq<OfficialRuntimeCommand>,
    turn: OfficialTurn,
)
    ensures
        turn_generations(commands + more) == turn_generations(commands) + turn_generations(more),
        turn_generations(seq![OfficialRuntimeCommand::Turn(turn)]) == seq![turn.generation],
        turn_generations(seq![OfficialRuntimeCommand::Shutdown]).len() == 0,
    decreases more.len(),
{
    reveal_with_fuel(turn_generations, 2);
    let one = seq![OfficialRuntimeCommand::Turn(turn)];
    assert(one.drop_last() =~= Seq::empty());
    assert(turn_generations(one) =~= seq![turn.generation]);
    let stop = seq![OfficialRuntimeCommand::Shutdown];
    assert(stop.drop_last() =~= Seq::empty());
    if more.len() == 0 {
        assert(commands + more =~= commands);
        assert(turn_generations(commands) + turn_generations(more) =~= turn_generations(commands));
    } else {
        let all = commands + more;
        assert(all.drop_last() =~= commands + more.drop_last());
        assert(all.last() == more.last());
        law_waiting_turns_keep_their_order(commands, more.drop_last(), turn);
        assert(turn_generations(all) =~= turn_generations(commands) + turn_generations(more));
    }
}

/// What can happen to a worker in each of its phases: a turn comes in, or none
/// will, while it waits; what it has sent goes out or not, while it tells its
/// owner something or does its last; and an open request is answered with what
/// was asked for or with an error, is called off, is cut off or runs out of
/// time.
pub proof fn law_worker_listens(worker: WorkerView, event: WorkerEventView)
    ensures
        worker.phase is Idle ==> (worker.expects(event) <==> event is Received || event
            is Interrupted),
        worker.phase is Announcing || worker.phase is Noticing || worker.phase is Identifying
            || worker.phase is Reporting || worker.phase is Confirming || worker.phase is Ending
            || worker.phase is Closing ==> (worker.expects(event) <==> event is Sent),
        worker.phase is Stopped ==> !worker.expects(event),
        worker.phase is Opening || worker.phase is Replacing || worker.phase is Loading
            || worker.phase is Switching || worker.phase is Prompting ==> (worker.expects(event)
            <==> {
            ||| event is Cancelled
            ||| event is Unhealthy
            ||| event is Disconnected
            ||| event is TimedOut
            ||| event matches WorkerEventView::Answered(answer) && (answer is Refused || (
            if worker.phase is Loading {
                answer is Loaded
            } else if worker.phase is Switching {
                answer is ModelSet
            } else if worker.phase is Prompting {
                answer is Prompted
            } else {
                answer is Session
            }))
        }),
{
}

/// A turn, a session, and what the worker does show all that they hold, as it
/// is.
pub proof fn law_turns_show_what_they_hold(
    turn: OfficialTurn,
    session: LiveOfficialSession,
    worker: OfficialWorker,
    text: String,
    other: String,
)
    ensures
        turn@.generation == turn.generation,
        turn@.selected_model == turn.selected_model@,
        turn.resume_session_id matches Some(id) ==> turn@.resume_session_id == Some(id@),
        turn.resume_session_id is None ==> turn@.resume_session_id is None,
        turn@.prompt == turn.prompt@,
        turn@.fresh_prompt == turn.fresh_prompt@,
        session@.id == session.id@,
        session.current_model matches Some(model) ==> session@.current_model == Some(model@),
        session.current_model is None ==> session@.current_model is None,
        worker@.phase == worker.phase && worker@.load_supported == worker.load_supported,
        worker.turn matches Some(held) ==> worker@.turn == Some(held@),
        worker.session matches Some(held) ==> worker@.session == Some(held@),
        (WorkerAction::LoadSession { id: text })@ == (WorkerActionView::LoadSession { id: text@ }),
        (WorkerAction::SetModel { session_id: text, model: other })@ == (
        WorkerActionView::SetModel { session_id: text@, model: other@ }),
        (WorkerAction::Prompt { session_id: text, text: other })@ == (WorkerActionView::Prompt {
            session_id: text@,
            text: other@,
        }),
        (WorkerAction::CancelPrompt { session_id: text })@ == (WorkerActionView::CancelPrompt {
            session_id: text@,
        }),
        WorkerAction::OpenSession@ is OpenSession && WorkerAction::Wait@ is Wait
            && WorkerAction::Reject@ is Reject && WorkerAction::Stop@ is Stop
            && WorkerAction::StopUnheard@ is StopUnheard,
{
}

/// Answers and what else a worker is told show all that they hold, as it is.
pub proof fn law_answers_show_what_they_hold(
    id: String,
    model: Option<String>,
    usage: Option<TurnUsage>,
    reason: StopReason,
    flag: bool,
    event: StreamEvent,
    error: RuntimeError,
    answer: AcpAnswer,
    turn: OfficialTurn,
)
    ensures
        (AcpAnswer::Session { id, current_model: model })@ == (AcpAnswerView::Session {
            id: id@,
            current_model: text_option(model),
        }),
        (AcpAnswer::Loaded { current_model: model })@ == (AcpAnswerView::Loaded {
            current_model: text_option(model),
        }),
        AcpAnswer::ModelSet@ is ModelSet,
        (AcpAnswer::Prompted { usage, reason })@ == (AcpAnswerView::Prompted { usage, reason }),
        (AcpAnswer::Refused { not_found: flag, message: id })@ == (AcpAnswerView::Refused {
            not_found: flag,
            message: id@,
        }),
        WorkerEvent::Received(turn)@ == WorkerEventView::Received(turn@),
        WorkerEvent::Answered(answer)@ == WorkerEventView::Answered(answer@),
        (WorkerEvent::Sent { delivered: flag })@ == (WorkerEventView::Sent { delivered: flag }),
        WorkerEvent::Interrupted@ is Interrupted && WorkerEvent::Cancelled@ is Cancelled
            && WorkerEvent::Unhealthy@ is Unhealthy && WorkerEvent::Disconnected@ is Disconnected
            && WorkerEvent::TimedOut@ is TimedOut,
        WorkerAction::Emit(event)@ == WorkerActionView::Emit(event@),
        WorkerAction::Fail(error)@ == WorkerActionView::Fail(error@),
{
}

} // verus!
