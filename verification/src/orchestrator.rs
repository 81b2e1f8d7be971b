use vstd::prelude::*;
use crate::state::SupervisorState;

verus! {

/// Fixed well-known port assumed in development mode, where the
/// sidecar is run externally and never launched by the host.
pub const DEV_PORT: u16 = 9876;

/// Retry budget handed to the health prober on every startup.
pub const DEFAULT_PROBE_ATTEMPTS: u32 = 30;

/// Startup configuration, decided once when the orchestrator is made.
#[derive(Clone, Copy, Debug, PartialEq, Eq, Structural)]
pub enum Mode {
    /// Fixed port, no process launched: an externally run sidecar is
    /// assumed to be listening already.
    Dev,
    /// Dynamic port, bundled binary launched and owned by the host.
    Prod,
}

/// Why port allocation failed: the OS refused to bind a listener, or
/// the bound address could not be read back.
#[derive(Clone, Copy, Debug, PartialEq, Eq, Structural)]
pub enum AllocError {
    BindError,
    QueryError,
}

/// The notification broadcast once the sidecar accepts connections.
#[derive(Clone, Copy, Debug, PartialEq, Eq, Structural)]
pub struct ReadinessEvent {
    pub port: u16,
}

/// Where the startup sequence stands.
#[derive(Clone, Copy, Debug, PartialEq, Eq, Structural)]
pub enum Phase {
    /// Created; startup not yet triggered.
    Idle,
    /// Production: waiting for the port allocator's answer.
    AwaitingPort,
    /// Production: port chosen, waiting for the launcher's answer.
    AwaitingLaunch { port: u16 },
    /// Port recorded; waiting for the health probe's verdict.
    Probing,
    /// The sidecar accepted a connection; readiness was announced.
    Ready,
    /// The probe's retry budget ran out; terminal, but the process (if
    /// any) keeps running and is still killed on shutdown.
    ProbeFailed,
    /// Terminal: startup failed or the host shut down. No process
    /// handle remains.
    Stopped,
}

/// What the surrounding tasks report back to the orchestrator.
pub enum Event<H> {
    /// Host startup: begin the sequence.
    StartRequested,
    /// The allocator obtained this port from the OS.
    PortAllocated { port: u16 },
    /// The allocator failed; the run halts without retry.
    AllocationFailed { error: AllocError },
    /// The launcher started the sidecar and yields its handle.
    LaunchSucceeded { child: H },
    /// The binary could not be found or started; the run halts.
    LaunchFailed,
    /// The health probe connected: the sidecar is ready.
    ProbeSucceeded,
    /// The health probe exhausted its retry budget.
    ProbeTimedOut,
    /// Host exit: kill the sidecar if one is owned.
    ShutdownRequested,
}

/// What the caller must do after a step; at most one thing per step.
#[derive(Debug, PartialEq, Eq)]
pub enum Action<H> {
    /// Nothing to do (failures are already known to the caller from
    /// the event it reported; it logs them itself).
    Nothing,
    /// Ask the OS for a free loopback port.
    AllocatePort,
    /// Start the sidecar binary told to listen on this port.
    LaunchSidecar { port: u16 },
    /// Development mode: probe this port; there is no output to drain.
    StartProbe { port: u16, max_attempts: u32 },
    /// Production: start draining the process's output and probe the
    /// port, as two independent concurrent tasks.
    StartDrainAndProbe { port: u16, max_attempts: u32 },
    /// Broadcast readiness to consumers.
    EmitReady(ReadinessEvent),
    /// Kill this process; its handle was taken out of the state.
    KillChild { child: H },
}

/// The lifecycle orchestrator: sequences allocation, launch, health
/// probing, readiness notification and shutdown as a state machine.
/// The caller performs each returned `Action` (all the I/O) and feeds
/// the outcome back as the next `Event`.
pub struct Orchestrator<H> {
    pub mode: Mode,
    pub phase: Phase,
    pub state: SupervisorState<H>,
    pub ready_emitted: bool,
}

impl<H> Orchestrator<H> {
    /// Internal consistency, held by every reachable state: the port
    /// is recorded exactly from `Probing` on, readiness is announced
    /// exactly in `Ready`, and a process handle is owned exactly in
    /// production mode between a successful launch and shutdown.
    pub open spec fn wf(self) -> bool {
        match self.phase {
            Phase::Idle => {
                &&& self.state.port == 0
                &&& self.state.child is None
                &&& !self.ready_emitted
            },
            Phase::AwaitingPort => {
                &&& self.mode is Prod
                &&& self.state.port == 0
                &&& self.state.child is None
                &&& !self.ready_emitted
            },
            Phase::AwaitingLaunch { port } => {
                &&& self.mode is Prod
                &&& port != 0
                &&& self.state.port == 0
                &&& self.state.child is None
                &&& !self.ready_emitted
            },
            Phase::Probing => {
                &&& self.state.port != 0
                &&& !self.ready_emitted
                &&& (self.mode is Dev ==> self.state.child is None)
                &&& (self.mode is Prod ==> self.state.child is Some)
            },
            Phase::Ready => {
                &&& self.state.port != 0
                &&& self.ready_emitted
                &&& (self.mode is Dev ==> self.state.child is None)
                &&& (self.mode is Prod ==> self.state.child is Some)
            },
            Phase::ProbeFailed => {
                &&& self.state.port != 0
                &&& !self.ready_emitted
                &&& (self.mode is Dev ==> self.state.child is None)
                &&& (self.mode is Prod ==> self.state.child is Some)
            },
            Phase::Stopped => self.state.child is None,
        }
    }

    /// Which events are in protocol in the current phase: each answer
    /// is awaited in exactly one phase, and shutdown may come at any
    /// time. A real allocated port is never the `0` sentinel.
    pub open spec fn accepts(self, ev: Event<H>) -> bool {
        match ev {
            Event::StartRequested => self.phase is Idle,
            Event::PortAllocated { port } => self.phase is AwaitingPort && port != 0,
            Event::AllocationFailed { .. } => self.phase is AwaitingPort,
            Event::LaunchSucceeded { .. } => self.phase is AwaitingLaunch,
            Event::LaunchFailed => self.phase is AwaitingLaunch,
            Event::ProbeSucceeded => self.phase is Probing,
            Event::ProbeTimedOut => self.phase is Probing,
            Event::ShutdownRequested => true,
        }
    }

    /// The full transition relation: `post` and `action` are what one
    /// step on `ev` yields from `pre`. Startup branches on the mode;
    /// any allocation or launch failure halts the run without retry; a
    /// probe verdict resolves `Probing` one way or the other; shutdown
    /// empties the handle slot and kills whatever it held.
    pub open spec fn next(pre: Self, ev: Event<H>, post: Self, action: Action<H>) -> bool {
        &&& pre.accepts(ev)
        &&& match ev {
            Event::StartRequested => match pre.mode {
                Mode::Dev => {
                    &&& post == (Orchestrator {
                        phase: Phase::Probing,
                        state: SupervisorState { port: DEV_PORT, child: pre.state.child },
                        ..pre
                    })
                    &&& action == (Action::<H>::StartProbe {
                        port: DEV_PORT,
                        max_attempts: DEFAULT_PROBE_ATTEMPTS,
                    })
                },
                Mode::Prod => {
                    &&& post == (Orchestrator { phase: Phase::AwaitingPort, ..pre })
                    &&& action == Action::<H>::AllocatePort
                },
            },
            Event::PortAllocated { port } => {
                &&& post == (Orchestrator { phase: Phase::AwaitingLaunch { port }, ..pre })
                &&& action == (Action::<H>::LaunchSidecar { port })
            },
            Event::AllocationFailed { .. } => {
                &&& post == (Orchestrator { phase: Phase::Stopped, ..pre })
                &&& action == Action::<H>::Nothing
            },
            Event::LaunchSucceeded { child } => {
                &&& pre.phase matches Phase::AwaitingLaunch { port }
                &&& post == (Orchestrator {
                    phase: Phase::Probing,
                    state: SupervisorState { port, child: Some(child) },
                    ..pre
                })
                &&& action == (Action::<H>::StartDrainAndProbe {
                    port,
                    max_attempts: DEFAULT_PROBE_ATTEMPTS,
                })
            },
            Event::LaunchFailed => {
                &&& post == (Orchestrator { phase: Phase::Stopped, ..pre })
                &&& action == Action::<H>::Nothing
            },
            Event::ProbeSucceeded => {
                &&& post == (Orchestrator { phase: Phase::Ready, ready_emitted: true, ..pre })
                &&& action == Action::<H>::EmitReady(ReadinessEvent { port: pre.state.port })
            },
            Event::ProbeTimedOut => {
                &&& post == (Orchestrator { phase: Phase::ProbeFailed, ..pre })
                &&& action == Action::<H>::Nothing
            },
            Event::ShutdownRequested => {
                &&& post == (Orchestrator {
                    phase: Phase::Stopped,
                    state: pre.state.after_take(),
                    ..pre
                })
                &&& action == match pre.state.child {
                    Some(child) => Action::<H>::KillChild { child },
                    None => Action::<H>::Nothing,
                }
            },
        }
    }

    /// A fresh orchestrator at host startup, in the given mode, over
    /// empty supervisor state.
    pub fn new(mode: Mode) -> (o: Self)
        ensures
            o.wf(),
            o.mode == mode,
            o.phase is Idle,
            o.state.port == 0,
            o.state.child is None,
            !o.ready_emitted,
    {
        Orchestrator { mode, phase: Phase::Idle, state: SupervisorState::new(), ready_emitted: false }
    }

    /// The queryable accessor for consumers, independent of the
    /// readiness event: `None` while no port is assigned, `Some(port)`
    /// from the moment one is recorded.
    pub fn current_port(&self) -> (r: Option<u16>)
        ensures
            r is Some <==> self.state.port_assigned(),
            self.state.port_assigned() ==> r == Some(self.state.port),
    {
        self.state.get_current_port()
    }

    /// Drive one step: consume an in-protocol event, move to the next
    /// phase, and say what (single) piece of work the caller owes.
    ///
    /// Readiness ordering is part of the contract: when the step hands
    /// out `EmitReady`, the supervisor state already held that same
    /// nonzero port before the step began, so any consumer reacting to
    /// the event finds it via `current_port`; and readiness is handed
    /// out at most once per run.
    pub fn step(&mut self, ev: Event<H>) -> (action: Action<H>)
        requires
            old(self).wf(),
            old(self).accepts(ev),
        ensures
            final(self).wf(),
            Self::next(*old(self), ev, *final(self), action),
            action matches Action::EmitReady(e) ==> {
                &&& e.port != 0
                &&& old(self).state.port == e.port
                &&& final(self).state.port == e.port
                &&& !old(self).ready_emitted
                &&& final(self).ready_emitted
            },
            old(self).ready_emitted ==> final(self).ready_emitted,
    {
        match ev {
            Event::StartRequested => match self.mode {
                Mode::Dev => {
                    self.state.set_port(DEV_PORT);
                    self.phase = Phase::Probing;
                    Action::StartProbe { port: DEV_PORT, max_attempts: DEFAULT_PROBE_ATTEMPTS }
                },
                Mode::Prod => {
                    self.phase = Phase::AwaitingPort;
                    Action::AllocatePort
                },
            },
            Event::PortAllocated { port } => {
                self.phase = Phase::AwaitingLaunch { port };
                Action::LaunchSidecar { port }
            },
            Event::AllocationFailed { error: _ } => {
                self.phase = Phase::Stopped;
                Action::Nothing
            },
            Event::LaunchSucceeded { child } => {
                let port = match self.phase {
                    Phase::AwaitingLaunch { port } => port,
                    _ => 0,
                };
                self.state.set_port(port);
                self.state.store_child(child);
                self.phase = Phase::Probing;
                Action::StartDrainAndProbe { port, max_attempts: DEFAULT_PROBE_ATTEMPTS }
            },
            Event::LaunchFailed => {
                self.phase = Phase::Stopped;
                Action::Nothing
            },
            Event::ProbeSucceeded => {
                self.phase = Phase::Ready;
                self.ready_emitted = true;
                Action::EmitReady(ReadinessEvent { port: self.state.port })
            },
            Event::ProbeTimedOut => {
                self.phase = Phase::ProbeFailed;
                Action::Nothing
            },
            Event::ShutdownRequested => {
                self.phase = Phase::Stopped;
                match self.state.take_child() {
                    Some(child) => Action::KillChild { child },
                    None => Action::Nothing,
                }
            },
        }
    }
}

/// Readiness ordering: a step hands out the readiness event only for a
/// nonzero port that the supervisor state already held before the step
/// began, so no consumer can observe the event while `current_port`
/// still answers `None` or a different port.
pub proof fn lemma_readiness_ordering<H>(
    pre: Orchestrator<H>,
    ev: Event<H>,
    post: Orchestrator<H>,
    action: Action<H>,
    e: ReadinessEvent,
)
    requires
        pre.wf(),
        Orchestrator::next(pre, ev, post, action),
        action == Action::<H>::EmitReady(e),
    ensures
        e.port != 0,
        pre.state.port == e.port,
        post.state.port == e.port,
        !pre.ready_emitted,
        post.ready_emitted,
{
}

/// The readiness event is broadcast at most once per run: a step emits
/// it only when it was never emitted before, and no step ever clears
/// the emitted flag.
pub proof fn lemma_ready_emitted_once<H>(
    pre: Orchestrator<H>,
    ev: Event<H>,
    post: Orchestrator<H>,
    action: Action<H>,
)
    requires
        pre.wf(),
        Orchestrator::next(pre, ev, post, action),
    ensures
        (action matches Action::EmitReady(_)) ==> !pre.ready_emitted && post.ready_emitted,
        pre.ready_emitted ==> post.ready_emitted && !(action matches Action::EmitReady(_)),
{
}

/// Shutdown is idempotent: the first shutdown empties the handle slot,
/// so a second one finds nothing to kill and changes nothing.
pub proof fn lemma_shutdown_idempotent<H>(
    pre: Orchestrator<H>,
    post: Orchestrator<H>,
    action: Action<H>,
    post2: Orchestrator<H>,
    action2: Action<H>,
)
    requires
        pre.wf(),
        Orchestrator::next(pre, Event::ShutdownRequested, post, action),
        Orchestrator::next(post, Event::ShutdownRequested, post2, action2),
    ensures
        post.state.child is None,
        action2 == Action::<H>::Nothing,
        post2.state == post.state,
        post2.phase == post.phase,
{
}

/// A halted run stays halted: once `Stopped`, only shutdown is still
/// in protocol, and it changes nothing — in particular, a port that
/// was never assigned stays unassigned for good.
pub proof fn lemma_stopped_is_terminal<H>(
    pre: Orchestrator<H>,
    ev: Event<H>,
    post: Orchestrator<H>,
    action: Action<H>,
)
    requires
        pre.wf(),
        pre.phase is Stopped,
        Orchestrator::next(pre, ev, post, action),
    ensures
        post.phase is Stopped,
        post.state == pre.state,
        action == Action::<H>::Nothing,
{
}

/// One recorded step of a run: the event the orchestrator consumed,
/// the state it moved to, and the action it handed out.
pub struct TraceStep<H> {
    pub event: Event<H>,
    pub post: Orchestrator<H>,
    pub action: Action<H>,
}

/// The state a run stands in just before its `i`-th step.
pub open spec fn state_before<H>(
    init: Orchestrator<H>,
    steps: Seq<TraceStep<H>>,
    i: int,
) -> Orchestrator<H> {
    if i == 0 {
        init
    } else {
        steps[i - 1].post
    }
}

/// `steps` records a run of the orchestrator from `init`: every step
/// is a transition of the machine from the state the previous step
/// left behind.
pub open spec fn is_run<H>(init: Orchestrator<H>, steps: Seq<TraceStep<H>>) -> bool {
    forall|i: int|
        0 <= i < steps.len() ==> #[trigger] Orchestrator::next(
            state_before(init, steps, i),
            steps[i].event,
            steps[i].post,
            steps[i].action,
        )
}

/// Every transition preserves the orchestrator's consistency.
pub proof fn lemma_next_preserves_wf<H>(
    pre: Orchestrator<H>,
    ev: Event<H>,
    post: Orchestrator<H>,
    action: Action<H>,
)
    requires
        pre.wf(),
        Orchestrator::next(pre, ev, post, action),
    ensures
        post.wf(),
{
}

/// Along a run from a consistent initial state, every intermediate
/// state is consistent.
proof fn lemma_wf_along_run<H>(init: Orchestrator<H>, steps: Seq<TraceStep<H>>, j: int)
    requires
        init.wf(),
        is_run(init, steps),
        0 <= j <= steps.len(),
    ensures
        state_before(init, steps, j).wf(),
    decreases j,
{
    if j > 0 {
        lemma_wf_along_run(init, steps, j - 1);
        lemma_next_preserves_wf(
            state_before(init, steps, j - 1),
            steps[j - 1].event,
            steps[j - 1].post,
            steps[j - 1].action,
        );
    }
}

/// Once the readiness flag is set, every later state of the run still
/// has it set: no transition ever clears it.
proof fn lemma_ready_flag_monotonic<H>(
    init: Orchestrator<H>,
    steps: Seq<TraceStep<H>>,
    i: int,
    j: int,
)
    requires
        init.wf(),
        is_run(init, steps),
        0 <= i <= j <= steps.len(),
        state_before(init, steps, i).ready_emitted,
    ensures
        state_before(init, steps, j).ready_emitted,
    decreases j - i,
{
    if i < j {
        lemma_wf_along_run(init, steps, i);
        lemma_ready_emitted_once(
            state_before(init, steps, i),
            steps[i].event,
            steps[i].post,
            steps[i].action,
        );
        lemma_ready_flag_monotonic(init, steps, i + 1, j);
    }
}

/// The readiness event is broadcast at most once per run: over any run
/// of the orchestrator from a consistent initial state, no two steps
/// both hand out the readiness notification. Only a whole new
/// orchestration can announce readiness again.
pub proof fn lemma_readiness_broadcast_at_most_once<H>(
    init: Orchestrator<H>,
    steps: Seq<TraceStep<H>>,
    i: int,
    j: int,
)
    requires
        init.wf(),
        is_run(init, steps),
        0 <= i < j < steps.len(),
        steps[i].action matches Action::EmitReady(_),
    ensures
        !(steps[j].action matches Action::EmitReady(_)),
{
    lemma_wf_along_run(init, steps, i);
    lemma_ready_emitted_once(
        state_before(init, steps, i),
        steps[i].event,
        steps[i].post,
        steps[i].action,
    );
    lemma_ready_flag_monotonic(init, steps, i + 1, j);
    lemma_wf_along_run(init, steps, j);
    lemma_ready_emitted_once(
        state_before(init, steps, j),
        steps[j].event,
        steps[j].post,
        steps[j].action,
    );
}

/// A failed allocation or launch halts the run with the port still
/// unassigned and readiness never announced: consumers keep seeing an
/// unassigned port, and no process was left behind.
pub proof fn lemma_startup_failure_stays_silent<H>(
    pre: Orchestrator<H>,
    ev: Event<H>,
    post: Orchestrator<H>,
    action: Action<H>,
)
    requires
        pre.wf(),
        Orchestrator::next(pre, ev, post, action),
        ev matches Event::AllocationFailed { .. } || ev is LaunchFailed,
    ensures
        post.phase is Stopped,
        post.state.port == 0,
        post.state.child is None,
        !post.ready_emitted,
        action == Action::<H>::Nothing,
{
}

} // verus!
