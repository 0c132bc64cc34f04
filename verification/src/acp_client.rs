//! What the official CLI is answered when it asks for permission, and what its
//! updates become in the stream.

use crate::lifecycle::{OfficialRuntimeLifecycle, OfficialRuntimeState, OfficialTurnRouting};
use crate::message::{
    event_views, text_option, ProviderToolKind, ProviderToolStatus, StreamEvent, StreamEventView,
};
use crate::text::texts;
use crate::tool_policy::{AcpToolKind, CopilotOfficialToolPolicy};
use vstd::prelude::*;

verus! {

/// What an option of a permission request stands for.
#[derive(Clone, Copy, Debug, PartialEq, Eq, Structural)]
pub enum PermissionOptionKind {
    AllowOnce,
    AllowAlways,
    RejectOnce,
    RejectAlways,
    Other,
}

/// How a permission request is answered.
#[derive(Clone, Copy, Debug, PartialEq, Eq, Structural)]
pub enum PermissionOutcome {
    /// The turn that asks is over or ends.
    Cancelled,
    /// The option at this place is chosen.
    Selected { option: usize },
}

/// Whether a permission request belongs to a turn that goes on.
pub open spec fn turn_goes_on(
    lifecycle: OfficialRuntimeLifecycle,
    routing: OfficialTurnRouting,
    cancel_requested: bool,
) -> bool {
    &&& routing.active is Some
    &&& lifecycle.state == OfficialRuntimeState::Healthy
    &&& !cancel_requested
}

/// What is chosen where a tool call may be made, and where it may not.
pub open spec fn wanted_option(allowed: bool) -> PermissionOptionKind {
    if allowed {
        PermissionOptionKind::AllowOnce
    } else {
        PermissionOptionKind::RejectOnce
    }
}

/// The answer where the wanted option is the first of its kind at `outcome`, or
/// is not offered.
pub open spec fn answers_permission(
    outcome: PermissionOutcome,
    options: Seq<PermissionOptionKind>,
    wanted: PermissionOptionKind,
) -> bool {
    match outcome {
        PermissionOutcome::Selected { option } => {
            &&& option < options.len()
            &&& options[option as int] == wanted
            &&& forall|j: int| 0 <= j < option ==> options[j] != wanted
        },
        PermissionOutcome::Cancelled => !options.contains(wanted),
    }
}

/// Answers a permission request for a tool call: the first option to allow it
/// this once where it may be made, and the first to reject it this once where
/// it may not.
pub fn request_permission(
    lifecycle: &OfficialRuntimeLifecycle,
    routing: &OfficialTurnRouting,
    cancel_requested: bool,
    policy: &CopilotOfficialToolPolicy,
    kind: Option<AcpToolKind>,
    options: &Vec<PermissionOptionKind>,
) -> (outcome: PermissionOutcome)
    ensures
        !turn_goes_on(*lifecycle, *routing, cancel_requested) ==> outcome
            == PermissionOutcome::Cancelled,
        turn_goes_on(*lifecycle, *routing, cancel_requested) ==> answers_permission(
            outcome,
            options@,
            wanted_option(policy.allowed(kind)),
        ),
{
    if routing.active.is_none() || !lifecycle.is_healthy() || cancel_requested {
        return PermissionOutcome::Cancelled;
    }
    let wanted = if policy.allows(kind) {
        PermissionOptionKind::AllowOnce
    } else {
        PermissionOptionKind::RejectOnce
    };
    let mut i: usize = 0;
    while i < options.len()
        invariant
            i <= options.len(),
            forall|j: int| 0 <= j < i ==> options@[j] != wanted,
            wanted == wanted_option(policy.allowed(kind)),
            turn_goes_on(*lifecycle, *routing, cancel_requested),
        decreases options.len() - i,
    {
        if options[i] == wanted {
            return PermissionOutcome::Selected { option: i };
        }
        i += 1;
    }
    PermissionOutcome::Cancelled
}

/// No tool call is allowed or rejected for good: whatever option is chosen, it
/// counts this once. A tool call that may not be made is never allowed.
pub proof fn law_permission_is_given_once(
    outcome: PermissionOutcome,
    options: Seq<PermissionOptionKind>,
    policy: CopilotOfficialToolPolicy,
    kind: Option<AcpToolKind>,
)
    requires
        answers_permission(outcome, options, wanted_option(policy.allowed(kind))),
    ensures
        outcome matches PermissionOutcome::Selected { option } ==> {
            &&& options[option as int] != PermissionOptionKind::AllowAlways
            &&& options[option as int] != PermissionOptionKind::RejectAlways
            &&& options[option as int] == PermissionOptionKind::AllowOnce <==> policy.allowed(kind)
        },
{
}

/// How far a tool call of the official CLI has come.
#[derive(Clone, Copy, Debug, PartialEq, Eq, Structural)]
pub enum AcpToolStatus {
    Pending,
    InProgress,
    Completed,
    Failed,
    Other,
}

/// The kind of a tool call in the stream.
pub fn provider_tool_kind(kind: AcpToolKind) -> (r: ProviderToolKind)
    ensures
        r == kind_in_stream(kind),
{
    match kind {
        AcpToolKind::Read => ProviderToolKind::Read,
        AcpToolKind::Search => ProviderToolKind::Search,
        AcpToolKind::Edit => ProviderToolKind::Edit,
        AcpToolKind::Delete => ProviderToolKind::Delete,
        AcpToolKind::Move => ProviderToolKind::Move,
        AcpToolKind::Execute => ProviderToolKind::Execute,
        AcpToolKind::Fetch => ProviderToolKind::Fetch,
        AcpToolKind::Think => ProviderToolKind::Think,
        AcpToolKind::SwitchMode => ProviderToolKind::SwitchMode,
        AcpToolKind::Other => ProviderToolKind::Other,
    }
}

/// The kind of a tool call in the stream: the one of the same name.
pub open spec fn kind_in_stream(kind: AcpToolKind) -> ProviderToolKind {
    match kind {
        AcpToolKind::Read => ProviderToolKind::Read,
        AcpToolKind::Search => ProviderToolKind::Search,
        AcpToolKind::Edit => ProviderToolKind::Edit,
        AcpToolKind::Delete => ProviderToolKind::Delete,
        AcpToolKind::Move => ProviderToolKind::Move,
        AcpToolKind::Execute => ProviderToolKind::Execute,
        AcpToolKind::Fetch => ProviderToolKind::Fetch,
        AcpToolKind::Think => ProviderToolKind::Think,
        AcpToolKind::SwitchMode => ProviderToolKind::SwitchMode,
        AcpToolKind::Other => ProviderToolKind::Other,
    }
}

/// How far a tool call has come, in the stream.
pub fn provider_tool_status(status: AcpToolStatus) -> (r: ProviderToolStatus)
    ensures
        r == status_in_stream(status),
{
    match status {
        AcpToolStatus::Pending => ProviderToolStatus::Pending,
        AcpToolStatus::InProgress => ProviderToolStatus::InProgress,
        AcpToolStatus::Completed => ProviderToolStatus::Completed,
        AcpToolStatus::Failed => ProviderToolStatus::Failed,
        AcpToolStatus::Other => ProviderToolStatus::Other,
    }
}

/// How far a tool call has come, in the stream: the status of the same name.
pub open spec fn status_in_stream(status: AcpToolStatus) -> ProviderToolStatus {
    match status {
        AcpToolStatus::Pending => ProviderToolStatus::Pending,
        AcpToolStatus::InProgress => ProviderToolStatus::InProgress,
        AcpToolStatus::Completed => ProviderToolStatus::Completed,
        AcpToolStatus::Failed => ProviderToolStatus::Failed,
        AcpToolStatus::Other => ProviderToolStatus::Other,
    }
}

/// What a message of the official CLI holds.
#[derive(Debug)]
pub enum AcpContent {
    Text(String),
    Other,
}

/// The text of a message, where it is one.
pub open spec fn content_text(content: AcpContent) -> Option<Seq<char>> {
    match content {
        AcpContent::Text(text) => Some(text@),
        AcpContent::Other => None,
    }
}

/// The text of a message, where it is one.
pub fn text_from_acp_content(content: AcpContent) -> (r: Option<String>)
    ensures
        text_option(r) == content_text(content),
{
    match content {
        AcpContent::Text(text) => Some(text),
        AcpContent::Other => None,
    }
}

/// What the official CLI says of a turn that runs.
#[derive(Debug)]
pub enum SessionUpdate {
    AgentMessage { content: AcpContent },
    AgentThought { content: AcpContent },
    ToolCall { id: String, title: String, kind: AcpToolKind, status: AcpToolStatus },
    /// What has changed of a tool call.
    ToolCallUpdate {
        id: String,
        new_kind: Option<AcpToolKind>,
        new_status: Option<AcpToolStatus>,
        new_title: Option<String>,
    },
    Other,
}

/// The events that an update becomes in the stream. The title of a tool call
/// is also said as the status.
pub open spec fn update_events(update: SessionUpdate) -> Seq<StreamEventView> {
    match update {
        SessionUpdate::AgentMessage { content } => match content_text(content) {
            Some(text) => seq![StreamEventView::TextDelta(text)],
            None => Seq::empty(),
        },
        SessionUpdate::AgentThought { content } => match content_text(content) {
            Some(text) => seq![StreamEventView::ThinkingDelta(text)],
            None => Seq::empty(),
        },
        SessionUpdate::ToolCall { id, title, kind, status } => seq![
            StreamEventView::ProviderToolUpdate {
                id: id@,
                kind: Some(kind_in_stream(kind)),
                status: Some(status_in_stream(status)),
                title: Some(title@),
            },
            StreamEventView::StatusDetail { detail: title@ },
        ],
        SessionUpdate::ToolCallUpdate { id, new_kind, new_status, new_title } => {
            let event = StreamEventView::ProviderToolUpdate {
                id: id@,
                kind: match new_kind {
                    Some(kind) => Some(kind_in_stream(kind)),
                    None => None,
                },
                status: match new_status {
                    Some(status) => Some(status_in_stream(status)),
                    None => None,
                },
                title: text_option(new_title),
            };
            match new_title {
                Some(title) => seq![event, StreamEventView::StatusDetail { detail: title@ }],
                None => seq![event],
            }
        },
        SessionUpdate::Other => Seq::empty(),
    }
}

/// Whether updates of the turn of `generation` go into the stream: it goes on,
/// is the active one, and its prompt is out.
pub open spec fn forwards_updates(
    lifecycle: OfficialRuntimeLifecycle,
    routing: OfficialTurnRouting,
    cancel_requested: bool,
    generation: u64,
) -> bool {
    &&& lifecycle.state == OfficialRuntimeState::Healthy
    &&& !cancel_requested
    &&& routing.forwards(generation)
}

/// Whether updates of the turn of `generation` go into the stream. It is asked
/// before each event of an update.
pub fn may_forward(
    lifecycle: &OfficialRuntimeLifecycle,
    routing: &OfficialTurnRouting,
    cancel_requested: bool,
    generation: u64,
) -> (r: bool)
    ensures
        r == forwards_updates(*lifecycle, *routing, cancel_requested, generation),
{
    lifecycle.is_healthy() && !cancel_requested && routing.is_forwarding(generation)
}

/// The events that an update becomes in the stream.
fn events_of_update(update: SessionUpdate) -> (events: Vec<StreamEvent>)
    ensures
        event_views(events@) == update_events(update),
{
    let mut events: Vec<StreamEvent> = Vec::new();
    let ghost views = update_events(update);
    match update {
        SessionUpdate::AgentMessage { content } => match text_from_acp_content(content) {
            Some(text) => {
                events.push(StreamEvent::TextDelta(text));
            },
            None => {},
        },
        SessionUpdate::AgentThought { content } => match text_from_acp_content(content) {
            Some(text) => {
                events.push(StreamEvent::ThinkingDelta(text));
            },
            None => {},
        },
        SessionUpdate::ToolCall { id, title, kind, status } => {
            events.push(
                StreamEvent::ProviderToolUpdate {
                    id,
                    kind: Some(provider_tool_kind(kind)),
                    status: Some(provider_tool_status(status)),
                    title: Some(title.clone()),
                },
            );
            events.push(StreamEvent::StatusDetail { detail: title });
        },
        SessionUpdate::ToolCallUpdate { id, new_kind, new_status, new_title } => {
            let kind = match new_kind {
                Some(kind) => Some(provider_tool_kind(kind)),
                None => None,
            };
            let status = match new_status {
                Some(status) => Some(provider_tool_status(status)),
                None => None,
            };
            match new_title {
                Some(title) => {
                    events.push(
                        StreamEvent::ProviderToolUpdate {
                            id,
                            kind,
                            status,
                            title: Some(title.clone()),
                        },
                    );
                    events.push(StreamEvent::StatusDetail { detail: title });
                },
                None => {
                    events.push(StreamEvent::ProviderToolUpdate { id, kind, status, title: None });
                },
            }
        },
        SessionUpdate::Other => {},
    }
    assert(event_views(events@) =~= views);
    events
}

/// The events that an update becomes in the stream, where updates of the
/// active turn go there, and the turn they are of.
pub fn session_notification(
    lifecycle: &OfficialRuntimeLifecycle,
    routing: &OfficialTurnRouting,
    cancel_requested: bool,
    update: SessionUpdate,
) -> (r: Option<(u64, Vec<StreamEvent>)>)
    ensures
        match r {
            Some((generation, events)) => {
                &&& forwards_updates(*lifecycle, *routing, cancel_requested, generation)
                &&& event_views(events@) == update_events(update)
            },
            None => forall|generation: u64|
                !forwards_updates(*lifecycle, *routing, cancel_requested, generation),
        },
{
    match routing.current() {
        Some(route) => {
            if may_forward(lifecycle, routing, cancel_requested, route.generation) {
                Some((route.generation, events_of_update(update)))
            } else {
                None
            }
        },
        None => None,
    }
}

/// At any time updates of at most one turn go into the stream, and of none
/// once its end was asked for, its worker is no longer healthy, or its route
/// was taken away.
pub proof fn law_updates_stay_in_their_turn(
    lifecycle: OfficialRuntimeLifecycle,
    routing: OfficialTurnRouting,
    generation: u64,
    other: u64,
)
    ensures
        forwards_updates(lifecycle, routing, false, generation) && forwards_updates(
            lifecycle,
            routing,
            false,
            other,
        ) ==> generation == other,
        !forwards_updates(lifecycle, routing, true, generation),
        !forwards_updates(lifecycle.cancelling(), routing, false, generation),
        !forwards_updates(lifecycle, routing.without(generation), false, generation),
        !forwards_updates(lifecycle, OfficialTurnRouting::activated(other), false, generation),
{
}

/// The models of a session, as the official CLI names them.
#[derive(Debug)]
pub struct SessionModelState {
    pub current_model_id: String,
    pub available_models: Vec<String>,
}

/// The models that a session has shown.
#[derive(Debug)]
pub struct DiscoveredModels {
    pub current: Option<String>,
    pub available: Vec<String>,
}

/// The models that a session shows: none where it does not speak of them.
pub fn models_from_session_state(state: Option<SessionModelState>) -> (models: DiscoveredModels)
    ensures
        match state {
            Some(state) => text_option(models.current) == Some(state.current_model_id@)
                && texts(models.available@) == texts(state.available_models@),
            None => models.current is None && models.available@.len() == 0,
        },
{
    match state {
        Some(state) => DiscoveredModels {
            current: Some(state.current_model_id),
            available: state.available_models,
        },
        None => DiscoveredModels { current: None, available: Vec::new() },
    }
}

/// A tool call that may be made is allowed this once wherever that is offered,
/// and one that may not be made is rejected this once wherever that is offered;
/// the first such option is chosen. A request of a turn that goes on is
/// answered so, and one of any other is called off.
pub proof fn law_permission_is_decided(
    outcome: PermissionOutcome,
    lifecycle: OfficialRuntimeLifecycle,
    routing: OfficialTurnRouting,
    cancel_requested: bool,
    options: Seq<PermissionOptionKind>,
    allowed: bool,
    i: int,
)
    requires
        0 <= i < options.len(),
        options[i] == (if allowed {
            PermissionOptionKind::AllowOnce
        } else {
            PermissionOptionKind::RejectOnce
        }),
    ensures
        answers_permission(outcome, options, wanted_option(allowed)) ==> (outcome matches
            PermissionOutcome::Selected { option } && option <= i && options[option as int]
            == options[i]),
        turn_goes_on(lifecycle, routing, cancel_requested) <==> routing.active is Some
            && lifecycle.state == OfficialRuntimeState::Healthy && !cancel_requested,
{
    assert(options.contains(options[i]));
}

/// What the official CLI says goes into the stream as it is: its message as
/// text, its thoughts as thinking, a tool call with all that is said of it, and
/// its title as the status as well.
pub proof fn law_updates_are_told_as_they_are(
    text: String,
    id: String,
    title: String,
    kind: AcpToolKind,
    status: AcpToolStatus,
)
    ensures
        update_events(
            SessionUpdate::AgentMessage { content: AcpContent::Text(text) },
        ) == seq![StreamEventView::TextDelta(text@)],
        update_events(
            SessionUpdate::AgentThought { content: AcpContent::Text(text) },
        ) == seq![StreamEventView::ThinkingDelta(text@)],
        update_events(SessionUpdate::AgentMessage { content: AcpContent::Other }).len() == 0,
        update_events(SessionUpdate::AgentThought { content: AcpContent::Other }).len() == 0,
        update_events(SessionUpdate::Other).len() == 0,
        ({
            let told = update_events(SessionUpdate::ToolCall { id, title, kind, status });
            &&& told.len() == 2
            &&& told[0] matches StreamEventView::ProviderToolUpdate {
                id: said_id,
                kind: Some(said_kind),
                status: Some(said_status),
                title: Some(said_title),
            } && said_id == id@ && said_title == title@ && said_kind == kind_in_stream(kind)
                && said_status == status_in_stream(status)
            &&& told[1] == (StreamEventView::StatusDetail { detail: title@ })
        }),
{
}

/// What has changed of a tool call is told, and nothing else of it: what was
/// not said stays unsaid.
pub proof fn law_tool_changes_are_told(
    id: String,
    new_kind: Option<AcpToolKind>,
    new_status: Option<AcpToolStatus>,
    new_title: Option<String>,
)
    ensures
        ({
            let told = update_events(
                SessionUpdate::ToolCallUpdate { id, new_kind, new_status, new_title },
            );
            &&& told.len() == (if new_title is Some {
                2int
            } else {
                1int
            })
            &&& told[0] matches StreamEventView::ProviderToolUpdate {
                id: said_id,
                kind: said_kind,
                status: said_status,
                title: said_title,
            } && said_id == id@ && (said_kind is Some <==> new_kind is Some) && (new_kind matches Some(
                kind,
            ) ==> said_kind == Some(kind_in_stream(kind))) && (said_status is Some <==> new_status
                is Some) && (new_status matches Some(status) ==> said_status == Some(
                status_in_stream(status),
            )) && (said_title is Some <==> new_title is Some) && (new_title matches Some(title)
                ==> said_title == Some(title@))
            &&& new_title matches Some(title) ==> told[1] == (StreamEventView::StatusDetail {
                detail: title@,
            })
        }),
{
}

/// The kinds and the progress of tool calls keep their names in the stream.
pub proof fn law_tool_names_are_kept(kind: AcpToolKind, status: AcpToolStatus)
    ensures
        kind_in_stream(kind) == ProviderToolKind::Read <==> kind == AcpToolKind::Read,
        kind_in_stream(kind) == ProviderToolKind::Search <==> kind == AcpToolKind::Search,
        kind_in_stream(kind) == ProviderToolKind::Edit <==> kind == AcpToolKind::Edit,
        kind_in_stream(kind) == ProviderToolKind::Delete <==> kind == AcpToolKind::Delete,
        kind_in_stream(kind) == ProviderToolKind::Move <==> kind == AcpToolKind::Move,
        kind_in_stream(kind) == ProviderToolKind::Execute <==> kind == AcpToolKind::Execute,
        kind_in_stream(kind) == ProviderToolKind::Fetch <==> kind == AcpToolKind::Fetch,
        kind_in_stream(kind) == ProviderToolKind::Think <==> kind == AcpToolKind::Think,
        kind_in_stream(kind) == ProviderToolKind::SwitchMode <==> kind == AcpToolKind::SwitchMode,
        status_in_stream(status) == ProviderToolStatus::Pending <==> status
            == AcpToolStatus::Pending,
        status_in_stream(status) == ProviderToolStatus::InProgress <==> status
            == AcpToolStatus::InProgress,
        status_in_stream(status) == ProviderToolStatus::Completed <==> status
            == AcpToolStatus::Completed,
        status_in_stream(status) == ProviderToolStatus::Failed <==> status
            == AcpToolStatus::Failed,
{
}

/// Updates go into the stream of the turn that is routed, once they are to be
/// forwarded, and as long as the worker is healthy and the turn's end was not
/// asked for.
pub proof fn law_updates_reach_their_turn(
    lifecycle: OfficialRuntimeLifecycle,
    routing: OfficialTurnRouting,
    cancel_requested: bool,
    generation: u64,
)
    ensures
        forwards_updates(lifecycle, routing, cancel_requested, generation) <==> (lifecycle.state
            == OfficialRuntimeState::Healthy && !cancel_requested && routing.active is Some
            && routing.active->0.generation == generation && routing.active->0.forward_updates),
{
}

} // verus!
