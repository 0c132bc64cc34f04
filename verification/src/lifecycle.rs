//! The life of one worker of the official CLI: whether it still takes turns,
//! which turn is active, and where the updates of the active turn go.

use crate::error::CopilotError;
use crate::tool_policy::CopilotOfficialToolPolicy;
use vstd::prelude::*;

verus! {

/// How far a worker's life has come.
#[derive(Clone, Copy, Debug, PartialEq, Eq, Structural)]
pub enum OfficialRuntimeState {
    Healthy,
    Cancelling,
    Closed,
}

impl OfficialRuntimeState {
    /// The place of the state in the order in which a life passes.
    pub open spec fn rank(self) -> nat {
        match self {
            OfficialRuntimeState::Healthy => 0,
            OfficialRuntimeState::Cancelling => 1,
            OfficialRuntimeState::Closed => 2,
        }
    }
}

/// The state of a worker and the generation of its active turn, where
/// generation 0 stands for no turn.
#[derive(Clone, Copy, Debug, PartialEq, Eq, Structural)]
pub struct OfficialRuntimeLifecycle {
    pub state: OfficialRuntimeState,
    pub active_generation: u64,
}

impl OfficialRuntimeLifecycle {
    /// The lifecycle in which cancelling has begun, where it was still healthy.
    pub open spec fn cancelling(self) -> OfficialRuntimeLifecycle {
        if self.state == OfficialRuntimeState::Healthy {
            OfficialRuntimeLifecycle { state: OfficialRuntimeState::Cancelling, ..self }
        } else {
            self
        }
    }

    /// The lifecycle after the end of the turn of `generation` was asked for:
    /// cancelling has begun, where that turn is the active one.
    pub open spec fn cancelling_if_active(self, generation: u64) -> OfficialRuntimeLifecycle {
        if self.active_generation == generation {
            self.cancelling()
        } else {
            self
        }
    }

    /// The lifecycle in which no turn of `generation` is active any more.
    pub open spec fn without_generation(self, generation: u64) -> OfficialRuntimeLifecycle {
        if self.active_generation == generation {
            OfficialRuntimeLifecycle { active_generation: 0, ..self }
        } else {
            self
        }
    }

    /// The lifecycle after its end.
    pub open spec fn closed() -> OfficialRuntimeLifecycle {
        OfficialRuntimeLifecycle { state: OfficialRuntimeState::Closed, active_generation: 0 }
    }

    /// A healthy worker without an active turn.
    pub fn new() -> (lifecycle: Self)
        ensures
            lifecycle.state == OfficialRuntimeState::Healthy,
            lifecycle.active_generation == 0,
    {
        OfficialRuntimeLifecycle { state: OfficialRuntimeState::Healthy, active_generation: 0 }
    }

    /// How far the worker's life has come.
    pub fn state(&self) -> (state: OfficialRuntimeState)
        ensures
            state == self.state,
    {
        self.state
    }

    /// Whether the worker takes turns.
    pub fn is_healthy(&self) -> (r: bool)
        ensures
            r == (self.state == OfficialRuntimeState::Healthy),
    {
        match self.state {
            OfficialRuntimeState::Healthy => true,
            _ => false,
        }
    }

    /// Begins to cancel, where the worker is still healthy. Says whether it
    /// was: then those who wait for a change are to be woken.
    pub fn begin_cancelling(&mut self) -> (changed: bool)
        ensures
            *final(self) == old(self).cancelling(),
            changed == (old(self).state == OfficialRuntimeState::Healthy),
    {
        if self.is_healthy() {
            self.state = OfficialRuntimeState::Cancelling;
            true
        } else {
            false
        }
    }

    /// Begins to cancel where the active turn is the one of `generation`.
    pub fn begin_cancelling_if_active(&mut self, generation: u64) -> (changed: bool)
        ensures
            *final(self) == old(self).cancelling_if_active(generation),
            changed == (old(self).active_generation == generation && old(self).state
                == OfficialRuntimeState::Healthy),
    {
        if self.active_generation == generation {
            self.begin_cancelling()
        } else {
            false
        }
    }

    /// Makes the turn of `generation` the active one.
    pub fn activate_generation(&mut self, generation: u64)
        ensures
            final(self).state == old(self).state,
            final(self).active_generation == generation,
    {
        self.active_generation = generation;
    }

    /// Ends the turn of `generation`, where it is the active one.
    pub fn finish_generation(&mut self, generation: u64)
        ensures
            *final(self) == old(self).without_generation(generation),
    {
        if self.active_generation == generation {
            self.active_generation = 0;
        }
    }

    /// Ends the worker's life, from whatever state.
    pub fn close(&mut self)
        ensures
            *final(self) == OfficialRuntimeLifecycle::closed(),
    {
        self.state = OfficialRuntimeState::Closed;
        self.active_generation = 0;
    }
}

/// Whether the owner of a turn has asked for its end.
#[derive(Clone, Copy, Debug, PartialEq, Eq, Structural)]
pub struct OfficialTurnCancellation {
    pub requested: bool,
}

impl OfficialTurnCancellation {
    /// A turn that nobody has asked to end.
    pub fn new() -> (cancellation: Self)
        ensures
            !cancellation.requested,
    {
        OfficialTurnCancellation { requested: false }
    }

    /// Asks for the turn's end, for good.
    pub fn request(&mut self)
        ensures
            final(self).requested,
    {
        self.requested = true;
    }

    /// Whether the turn's end was asked for.
    pub fn is_requested(&self) -> (r: bool)
        ensures
            r == self.requested,
    {
        self.requested
    }
}

/// Whether the connection to the child process has ended.
#[derive(Clone, Copy, Debug, PartialEq, Eq, Structural)]
pub struct OfficialIoHealth {
    pub closed: bool,
}

impl OfficialIoHealth {
    /// An open connection.
    pub fn new() -> (health: Self)
        ensures
            !health.closed,
    {
        OfficialIoHealth { closed: false }
    }

    /// Whether the connection has ended.
    pub fn is_closed(&self) -> (r: bool)
        ensures
            r == self.closed,
    {
        self.closed
    }

    /// Notes the end of the connection, for good.
    pub fn mark_closed(&mut self)
        ensures
            final(self).closed,
    {
        self.closed = true;
    }
}

/// Where the updates of a turn go.
#[derive(Clone, Copy, Debug, PartialEq, Eq, Structural)]
pub struct OfficialTurnRoute {
    pub generation: u64,
    pub forward_updates: bool,
}

/// The route of the active turn, where there is one.
#[derive(Clone, Copy, Debug)]
pub struct OfficialTurnRouting {
    pub active: Option<OfficialTurnRoute>,
}

impl OfficialTurnRouting {
    /// Whether the active route is the one of `generation`.
    pub open spec fn routes(self, generation: u64) -> bool {
        self.active matches Some(route) && route.generation == generation
    }

    /// Whether updates of the turn of `generation` are forwarded.
    pub open spec fn forwards(self, generation: u64) -> bool {
        self.active matches Some(route) && route.generation == generation && route.forward_updates
    }

    /// The routing without the route of `generation`.
    pub open spec fn without(self, generation: u64) -> OfficialTurnRouting {
        if self.routes(generation) {
            OfficialTurnRouting { active: None }
        } else {
            self
        }
    }

    /// The routing in which updates of `generation` are forwarded, where it
    /// is the active one.
    pub open spec fn forwarding(self, generation: u64) -> OfficialTurnRouting {
        if self.routes(generation) {
            OfficialTurnRouting {
                active: Some(OfficialTurnRoute { generation, forward_updates: true }),
            }
        } else {
            self
        }
    }

    /// The routing in which `generation` is active and nothing is forwarded.
    pub open spec fn activated(generation: u64) -> OfficialTurnRouting {
        OfficialTurnRouting {
            active: Some(OfficialTurnRoute { generation, forward_updates: false }),
        }
    }

    /// No route.
    pub fn new() -> (routing: Self)
        ensures
            routing.active is None,
    {
        OfficialTurnRouting { active: None }
    }

    /// Makes the turn of `generation` the active one. Nothing of it is
    /// forwarded yet.
    pub fn activate(&mut self, generation: u64)
        ensures
            *final(self) == OfficialTurnRouting::activated(generation),
    {
        self.active = Some(OfficialTurnRoute { generation, forward_updates: false });
    }

    /// The route of the active turn.
    pub fn current(&self) -> (route: Option<OfficialTurnRoute>)
        ensures
            route == self.active,
    {
        self.active
    }

    /// Whether the turn of `generation` is the active one.
    pub fn is_current(&self, generation: u64) -> (r: bool)
        ensures
            r == self.routes(generation),
    {
        match self.active {
            Some(route) => route.generation == generation,
            None => false,
        }
    }

    /// Whether updates of the turn of `generation` are forwarded.
    pub fn is_forwarding(&self, generation: u64) -> (r: bool)
        ensures
            r == self.forwards(generation),
    {
        match self.active {
            Some(route) => route.generation == generation && route.forward_updates,
            None => false,
        }
    }

    /// Begins to forward the updates of the turn of `generation`.
    pub fn forward(&mut self, generation: u64)
        ensures
            *final(self) == old(self).forwarding(generation),
    {
        if self.is_current(generation) {
            self.active = Some(OfficialTurnRoute { generation, forward_updates: true });
        }
    }

    /// Takes the route of `generation` away, where it is the active one.
    pub fn deactivate(&mut self, generation: u64)
        ensures
            *final(self) == old(self).without(generation),
    {
        if self.is_current(generation) {
            self.active = None;
        }
    }

    /// Takes any route away.
    pub fn clear(&mut self)
        ensures
            final(self).active is None,
    {
        self.active = None;
    }
}

/// Whether what a turn has reached may take effect: its end was not asked
/// for, the worker is healthy and the turn is the active one.
pub open spec fn may_commit(
    cancel_requested: bool,
    lifecycle: OfficialRuntimeLifecycle,
    routing: OfficialTurnRouting,
    generation: u64,
) -> bool {
    &&& !cancel_requested
    &&& lifecycle.state == OfficialRuntimeState::Healthy
    &&& routing.routes(generation)
}

/// Decides whether what a turn has reached may take effect. A turn whose end
/// was asked for takes its worker with it.
pub fn official_turn_can_commit(
    cancel_requested: bool,
    lifecycle: &mut OfficialRuntimeLifecycle,
    routing: &OfficialTurnRouting,
    generation: u64,
) -> (r: bool)
    ensures
        r == may_commit(cancel_requested, *old(lifecycle), *routing, generation),
        *final(lifecycle) == (if cancel_requested {
            old(lifecycle).cancelling()
        } else {
            *old(lifecycle)
        }),
{
    if cancel_requested {
        lifecycle.begin_cancelling();
        return false;
    }
    lifecycle.is_healthy() && routing.is_current(generation)
}

/// The end of a stream before its turn was over: asks for the turn's end, and
/// begins to cancel the worker where that turn is the active one.
pub fn cancel_stream(
    turn: &mut OfficialTurnCancellation,
    lifecycle: &mut OfficialRuntimeLifecycle,
    generation: u64,
) -> (changed: bool)
    ensures
        final(turn).requested,
        *final(lifecycle) == old(lifecycle).cancelling_if_active(generation),
        changed == (old(lifecycle).active_generation == generation && old(lifecycle).state
            == OfficialRuntimeState::Healthy),
{
    turn.request();
    lifecycle.begin_cancelling_if_active(generation)
}

/// A worker, as those see it who give it turns: it numbers them.
#[derive(Clone, Copy, Debug)]
pub struct OfficialRuntimeHandle {
    pub next_generation: u64,
}

/// Whether a worker takes turns: its lifecycle is healthy, its connection is
/// open and its thread runs.
pub open spec fn worker_healthy(
    lifecycle: OfficialRuntimeLifecycle,
    io_closed: bool,
    thread_finished: bool,
) -> bool {
    lifecycle.state == OfficialRuntimeState::Healthy && !io_closed && !thread_finished
}

impl OfficialRuntimeHandle {
    /// Generation 0 stands for no turn, so that no turn is given it.
    pub open spec fn wf(self) -> bool {
        self.next_generation >= 1
    }

    /// The handle of a worker that has had no turn.
    pub fn new() -> (handle: Self)
        ensures
            handle.wf(),
            handle.next_generation == 1,
    {
        OfficialRuntimeHandle { next_generation: 1 }
    }

    /// Whether the worker takes turns.
    pub fn is_healthy(
        lifecycle: &OfficialRuntimeLifecycle,
        io_closed: bool,
        thread_finished: bool,
    ) -> (r: bool)
        ensures
            r == worker_healthy(*lifecycle, io_closed, thread_finished),
    {
        lifecycle.is_healthy() && !io_closed && !thread_finished
    }

    /// The generation of the next turn. Where the numbers run out, they begin
    /// again at 1.
    pub fn next_generation(&mut self) -> (generation: u64)
        requires
            old(self).wf(),
        ensures
            final(self).wf(),
            generation == old(self).next_generation,
            generation >= 1,
            final(self).next_generation == (if generation == u64::MAX {
                1
            } else {
                generation + 1
            }),
    {
        let generation = self.next_generation;
        if generation == u64::MAX {
            self.next_generation = 1;
        } else {
            self.next_generation = generation + 1;
        }
        generation
    }
}

impl OfficialRuntimeHandle {
    /// Whether a turn may be put into the worker's queue.
    pub fn accept_turn(
        &self,
        lifecycle: &OfficialRuntimeLifecycle,
        io_closed: bool,
        thread_finished: bool,
    ) -> (r: Result<(), CopilotError>)
        ensures
            r == (if worker_healthy(*lifecycle, io_closed, thread_finished) {
                Ok::<(), CopilotError>(())
            } else {
                Err(CopilotError::ConnectionClosed)
            }),
    {
        if Self::is_healthy(lifecycle, io_closed, thread_finished) {
            Ok(())
        } else {
            Err(CopilotError::ConnectionClosed)
        }
    }
}

/// Which worker a turn is given to.
#[derive(Clone, Copy, Debug, PartialEq, Eq, Structural)]
pub enum RuntimeChoice {
    /// There is none: one is started.
    Start,
    /// There is one, which is given up for a new one.
    Replace,
    /// There is one that takes the turn.
    Reuse,
}

/// The worker that a turn is given to: the present one where it runs in the
/// turn's working directory with the tools that the turn allows, and takes
/// turns. `present` is what the present one allows, where there is one.
pub fn choose_runtime(
    present: Option<CopilotOfficialToolPolicy>,
    wanted: CopilotOfficialToolPolicy,
    same_working_dir: bool,
    healthy: bool,
) -> (choice: RuntimeChoice)
    ensures
        choice == (match present {
            None => RuntimeChoice::Start,
            Some(policy) => if policy == wanted && same_working_dir && healthy {
                RuntimeChoice::Reuse
            } else {
                RuntimeChoice::Replace
            },
        }),
{
    match present {
        None => RuntimeChoice::Start,
        Some(policy) => if policy == wanted && same_working_dir && healthy {
            RuntimeChoice::Reuse
        } else {
            RuntimeChoice::Replace
        },
    }
}

/// A worker's life passes in one direction: whatever is done to it, it never
/// comes back to a state it has left.
pub proof fn law_lifecycle_only_advances(
    lifecycle: OfficialRuntimeLifecycle,
    generation: u64,
)
    ensures
        lifecycle.cancelling().state.rank() >= lifecycle.state.rank(),
        lifecycle.without_generation(generation).state == lifecycle.state,
        OfficialRuntimeLifecycle::closed().state.rank() >= lifecycle.state.rank(),
        lifecycle.cancelling().state != OfficialRuntimeState::Healthy,
{
}

/// Asking for the end of a turn that waits in the queue does nothing to the
/// active turn; asking for the end of the active turn ends all that any turn of
/// the worker can reach.
pub proof fn law_queued_turn_cannot_cancel_active(
    lifecycle: OfficialRuntimeLifecycle,
    routing: OfficialTurnRouting,
    active: u64,
    queued: u64,
)
    requires
        lifecycle.active_generation == active,
        active != queued,
    ensures
        lifecycle.cancelling_if_active(queued) == lifecycle,
        !may_commit(false, lifecycle.cancelling_if_active(active), routing, active),
        !may_commit(false, lifecycle.cancelling_if_active(active), routing, queued),
{
}

/// Once a worker has left its healthy state, nothing that any turn reaches
/// takes effect.
pub proof fn law_no_commit_after_cancel(
    cancel_requested: bool,
    lifecycle: OfficialRuntimeLifecycle,
    routing: OfficialTurnRouting,
    generation: u64,
)
    requires
        lifecycle.state != OfficialRuntimeState::Healthy || cancel_requested,
    ensures
        !may_commit(cancel_requested, lifecycle, routing, generation),
        !may_commit(cancel_requested, lifecycle.cancelling(), routing, generation),
{
}

/// Nothing of a turn is routed once its route is taken away or another turn
/// has become the active one.
pub proof fn law_routes_do_not_cross(
    routing: OfficialTurnRouting,
    generation: u64,
    other: u64,
)
    requires
        generation != other,
    ensures
        !routing.without(generation).routes(generation),
        !routing.without(generation).forwards(generation),
        !OfficialTurnRouting::activated(other).routes(generation),
        !OfficialTurnRouting::activated(other).forwarding(other).forwards(generation),
        routing.routes(other) ==> routing.without(generation) == routing,
{
}

/// Asking for an end makes a healthy worker a cancelling one, changes no other,
/// and leaves its active turn the active one. The end of a turn that is asked
/// for reaches the worker exactly where that turn is the active one.
pub proof fn law_cancelling(lifecycle: OfficialRuntimeLifecycle, generation: u64)
    ensures
        lifecycle.state == OfficialRuntimeState::Healthy ==> lifecycle.cancelling().state
            == OfficialRuntimeState::Cancelling,
        lifecycle.state != OfficialRuntimeState::Healthy ==> lifecycle.cancelling() == lifecycle,
        lifecycle.cancelling().active_generation == lifecycle.active_generation,
        lifecycle.active_generation == generation ==> lifecycle.cancelling_if_active(generation)
            == lifecycle.cancelling(),
        lifecycle.active_generation != generation ==> lifecycle.cancelling_if_active(generation)
            == lifecycle,
        OfficialRuntimeLifecycle::closed().state == OfficialRuntimeState::Closed,
        OfficialRuntimeLifecycle::closed().active_generation == 0,
{
}

/// A turn that is over is no longer the active one, and another that is stays
/// so.
pub proof fn law_turns_are_released(lifecycle: OfficialRuntimeLifecycle, generation: u64)
    ensures
        lifecycle.active_generation == generation ==> lifecycle.without_generation(
            generation,
        ).active_generation == 0,
        lifecycle.active_generation != generation ==> lifecycle.without_generation(generation)
            == lifecycle,
        lifecycle.without_generation(generation).state == lifecycle.state,
{
}

/// What a turn has reached takes effect exactly where its end was not asked for,
/// its worker is healthy and it is the turn that is routed.
pub proof fn law_commits(
    cancel_requested: bool,
    lifecycle: OfficialRuntimeLifecycle,
    routing: OfficialTurnRouting,
    generation: u64,
)
    ensures
        may_commit(cancel_requested, lifecycle, routing, generation) <==> (!cancel_requested
            && lifecycle.state == OfficialRuntimeState::Healthy && routing.active is Some
            && routing.active->0.generation == generation),
{
}

/// A turn is routed from its beginning, its updates are forwarded once that is
/// asked for, and both end when its route is taken away. What is done to the
/// route of one turn does nothing to that of another.
pub proof fn law_routes(routing: OfficialTurnRouting, generation: u64, other: u64)
    ensures
        OfficialTurnRouting::activated(generation).routes(generation),
        !OfficialTurnRouting::activated(generation).forwards(generation),
        routing.routes(generation) ==> routing.forwarding(generation).forwards(generation),
        !routing.routes(generation) ==> routing.forwarding(generation) == routing,
        routing.routes(generation) ==> routing.without(generation).active is None,
        !routing.routes(generation) ==> routing.without(generation) == routing,
        routing.routes(generation) <==> routing.active is Some && routing.active->0.generation
            == generation,
        routing.forwards(generation) <==> routing.routes(generation)
            && routing.active->0.forward_updates,
        generation != other ==> routing.forwarding(generation).routes(other) == routing.routes(
            other,
        ) && routing.forwarding(generation).forwards(other) == routing.forwards(other)
            && routing.without(generation).routes(other) == routing.routes(other),
{
}

/// A worker takes turns exactly where its lifecycle is healthy, its connection
/// is open and its thread runs.
pub proof fn law_healthy_workers(
    lifecycle: OfficialRuntimeLifecycle,
    io_closed: bool,
    thread_finished: bool,
)
    ensures
        worker_healthy(lifecycle, io_closed, thread_finished) <==> lifecycle.state
            == OfficialRuntimeState::Healthy && !io_closed && !thread_finished,
{
}

} // verus!
