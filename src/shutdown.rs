use vstd::prelude::*;

verus! {

/// Seconds that the interrupt cascade waits for in-flight I/O to settle
/// before it puts `Terminate` on the bus.
pub const GRACE_PERIOD_SECS: u64 = 3;

/// Number of steps in the interrupt cascade.
pub const CASCADE_LEN: usize = 5;

/// One step of the interrupt cascade. Every send in it is best-effort.
#[derive(Debug, Clone, Copy, PartialEq, Eq, Structural)]
pub enum ShutdownAction {
    /// Signal the node cluster controller to terminate.
    TerminateCluster,
    /// Send `Terminate` to the chain observer.
    TerminateObserver,
    /// Send `Pause` on the mining command channel.
    PauseMining,
    /// Sleep for this many seconds.
    Grace(u64),
    /// Put `Terminate` on the event bus, which ends the consumer loop.
    EmitTerminate,
}

/// Whether a best-effort send reached its receiver.
#[derive(Debug, Clone, Copy, PartialEq, Eq, Structural)]
pub enum Delivery {
    Delivered,
    Undelivered,
}

/// The interrupt cascade, in order.
pub open spec fn cascade_spec() -> Seq<ShutdownAction> {
    seq![
        ShutdownAction::TerminateCluster,
        ShutdownAction::TerminateObserver,
        ShutdownAction::PauseMining,
        ShutdownAction::Grace(GRACE_PERIOD_SECS),
        ShutdownAction::EmitTerminate,
    ]
}

/// Progress through the interrupt cascade.
#[derive(Debug)]
pub struct InterruptCascade {
    position: usize,
}

impl InterruptCascade {
    /// How many steps have been handed out so far.
    pub closed spec fn position(&self) -> nat {
        self.position as nat
    }

    pub closed spec fn wf(&self) -> bool {
        self.position <= CASCADE_LEN
    }

    pub fn new() -> (r: InterruptCascade)
        ensures
            r.wf(),
            r.position() == 0,
    {
        InterruptCascade { position: 0 }
    }

    /// Hands out the next step of the cascade, or `None` once all have been
    /// handed out. `previous` is how the last send went; the cascade goes on
    /// the same way whether or not its target was still there.
    pub fn next_action(&mut self, previous: Delivery) -> (r: Option<ShutdownAction>)
        requires
            old(self).wf(),
        ensures
            final(self).wf(),
            r == cascade_step_at(old(self).position()),
            final(self).position() == if old(self).position() < cascade_spec().len() {
                old(self).position() + 1
            } else {
                old(self).position()
            },
    {
        let r = match self.position {
            0 => Some(ShutdownAction::TerminateCluster),
            1 => Some(ShutdownAction::TerminateObserver),
            2 => Some(ShutdownAction::PauseMining),
            3 => Some(ShutdownAction::Grace(GRACE_PERIOD_SECS)),
            4 => Some(ShutdownAction::EmitTerminate),
            _ => None,
        };
        if self.position < CASCADE_LEN {
            self.position = self.position + 1;
        }
        r
    }
}

/// The step handed out at `position`, if any is left.
pub open spec fn cascade_step_at(position: nat) -> Option<ShutdownAction> {
    if position < cascade_spec().len() {
        Some(cascade_spec()[position as int])
    } else {
        None
    }
}

/// The steps handed out when the cascade is driven from `position` and the
/// sends report `outcomes`, one per call.
pub open spec fn cascade_trace(position: nat, outcomes: Seq<Delivery>) -> Seq<Option<ShutdownAction>>
    decreases outcomes.len(),
{
    if outcomes.len() == 0 {
        seq![]
    } else {
        let next = if position < cascade_spec().len() {
            position + 1
        } else {
            position
        };
        seq![cascade_step_at(position)] + cascade_trace(next, outcomes.drop_first())
    }
}

proof fn lemma_cascade_trace_from(position: nat, outcomes: Seq<Delivery>)
    ensures
        cascade_trace(position, outcomes).len() == outcomes.len(),
        forall|i: int|
            0 <= i < outcomes.len() ==> #[trigger] cascade_trace(position, outcomes)[i]
                == cascade_step_at((position + i) as nat),
    decreases outcomes.len(),
{
    if outcomes.len() > 0 {
        let next = if position < cascade_spec().len() {
            position + 1
        } else {
            position
        };
        let tail = outcomes.drop_first();
        lemma_cascade_trace_from(next, tail);
        assert forall|i: int| 0 <= i < outcomes.len() implies #[trigger] cascade_trace(position, outcomes)[i]
            == cascade_step_at((position + i) as nat) by {
            if i > 0 {
                assert(cascade_trace(position, outcomes)[i] == cascade_trace(next, tail)[i - 1]);
            }
        }
    }
}

/// Whatever became of each send, driving a fresh cascade hands out the same
/// steps: terminate the cluster, terminate the observer, pause mining, wait
/// out the grace period, put `Terminate` on the bus, and then nothing more.
pub proof fn lemma_cascade_ignores_delivery(outcomes: Seq<Delivery>)
    ensures
        cascade_trace(0, outcomes).len() == outcomes.len(),
        forall|i: int|
            0 <= i < outcomes.len() && i < cascade_spec().len() ==> #[trigger] cascade_trace(0, outcomes)[i]
                == Some(cascade_spec()[i]),
        forall|i: int|
            cascade_spec().len() <= i < outcomes.len() ==> #[trigger] cascade_trace(0, outcomes)[i] is None,
{
    lemma_cascade_trace_from(0, outcomes);
}

/// Phase of a devnet session.
#[derive(Debug, Clone, Copy, PartialEq, Eq, Structural)]
pub enum SessionPhase {
    Running,
    Terminating,
    Terminated,
}

/// What can end a session.
#[derive(Debug, Clone, Copy, PartialEq, Eq, Structural)]
pub enum TerminationTrigger {
    /// The operating system's interrupt signal.
    Interrupt,
    /// A `FatalError` read by the consumer loop.
    FatalError,
    /// A `Terminate` read by the consumer loop.
    TerminateEvent,
}

/// How the session answers a termination trigger.
#[derive(Debug, Clone, Copy, PartialEq, Eq, Structural)]
pub enum TerminationResponse {
    /// Run the interrupt cascade.
    RunCascade,
    /// Leave the consumer loop and report the error, without a cascade.
    PropagateError,
    /// Leave the consumer loop successfully.
    StopListening,
    /// Nothing to do: the session is already ending, or the trigger does not
    /// apply in this mode.
    Ignore,
}

/// Tracks the session's termination state and answers triggers.
#[derive(Debug, Clone, Copy, PartialEq, Eq, Structural)]
pub struct ShutdownCoordinator {
    pub phase: SessionPhase,
    /// Whether the session runs the headless consumer loop rather than the
    /// dashboard; only then is the interrupt signal handled here.
    pub headless: bool,
}

pub open spec fn trigger_response(s: ShutdownCoordinator, t: TerminationTrigger) -> TerminationResponse {
    if s.phase != SessionPhase::Running {
        TerminationResponse::Ignore
    } else {
        match t {
            TerminationTrigger::Interrupt => if s.headless {
                TerminationResponse::RunCascade
            } else {
                TerminationResponse::Ignore
            },
            TerminationTrigger::FatalError => TerminationResponse::PropagateError,
            TerminationTrigger::TerminateEvent => TerminationResponse::StopListening,
        }
    }
}

pub open spec fn trigger_next(s: ShutdownCoordinator, t: TerminationTrigger) -> ShutdownCoordinator {
    if trigger_response(s, t) == TerminationResponse::Ignore {
        s
    } else {
        ShutdownCoordinator { phase: SessionPhase::Terminating, headless: s.headless }
    }
}

/// Whether, after the consumer loop has left with `response`, the chains
/// coordinator still has to be told to terminate before the workers are
/// joined. A `Terminate` read from the bus ends the loop with both workers
/// possibly still running; after a fatal error the failing worker has already
/// stopped its sibling, and the interrupt cascade has stopped the cluster and
/// the observer.
pub open spec fn coordinator_stop_needed(response: TerminationResponse) -> bool {
    response == TerminationResponse::StopListening
}

impl TerminationResponse {
    pub fn stops_coordinator(&self) -> (r: bool)
        ensures
            r == coordinator_stop_needed(*self),
    {
        match self {
            TerminationResponse::StopListening => true,
            _ => false,
        }
    }
}

impl ShutdownCoordinator {
    pub fn new(headless: bool) -> (r: ShutdownCoordinator)
        ensures
            r.phase == SessionPhase::Running,
            r.headless == headless,
    {
        ShutdownCoordinator { phase: SessionPhase::Running, headless }
    }

    /// Answers a termination trigger. The first one that applies moves the
    /// session to `Terminating`; every later one is ignored.
    pub fn trigger(&mut self, t: TerminationTrigger) -> (r: TerminationResponse)
        ensures
            r == trigger_response(*old(self), t),
            *final(self) == trigger_next(*old(self), t),
    {
        let r = match self.phase {
            SessionPhase::Running => match t {
                TerminationTrigger::Interrupt => if self.headless {
                    TerminationResponse::RunCascade
                } else {
                    TerminationResponse::Ignore
                },
                TerminationTrigger::FatalError => TerminationResponse::PropagateError,
                TerminationTrigger::TerminateEvent => TerminationResponse::StopListening,
            },
            _ => TerminationResponse::Ignore,
        };
        match r {
            TerminationResponse::Ignore => {},
            _ => {
                self.phase = SessionPhase::Terminating;
            },
        }
        r
    }

    /// Records that both workers have been joined.
    pub fn workers_joined(&mut self)
        ensures
            final(self).phase == SessionPhase::Terminated,
            final(self).headless == old(self).headless,
    {
        self.phase = SessionPhase::Terminated;
    }
}

/// Termination is idempotent: once a session is terminating or terminated,
/// any further trigger, a repeated terminate included, is ignored and leaves
/// the session as it was.
pub proof fn lemma_repeated_termination_is_ignored(s: ShutdownCoordinator, t: TerminationTrigger)
    requires
        s.phase != SessionPhase::Running,
    ensures
        trigger_response(s, t) == TerminationResponse::Ignore,
        trigger_next(s, t) == s,
{
}

/// A running session answers at most one trigger: after the first that
/// applies, a second of any kind is ignored.
pub proof fn lemma_single_termination(s: ShutdownCoordinator, t1: TerminationTrigger, t2: TerminationTrigger)
    requires
        trigger_response(s, t1) != TerminationResponse::Ignore,
    ensures
        trigger_next(s, t1).phase == SessionPhase::Terminating,
        trigger_response(trigger_next(s, t1), t2) == TerminationResponse::Ignore,
{
}

} // verus!
