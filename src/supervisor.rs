//! The top-level restart policy: connect, then sample and render until
//! something fails; after any failure wait a fixed delay and start over.
use vstd::prelude::*;

verus! {

/// Where the device is in its cycle.
#[derive(Clone, Copy, Debug, PartialEq, Eq, Structural)]
pub enum Phase {
    /// A connection attempt is running.
    Connecting,
    /// The sample/render loop is running.
    Sampling,
    /// The restart delay is running.
    Waiting,
}

/// What the supervised work reports.
#[derive(Clone, Copy, Debug, PartialEq, Eq, Structural)]
pub enum SupervisorEvent {
    /// The connection attempt succeeded.
    LinkUp,
    /// The connection attempt failed.
    LinkFailed,
    /// The sample/render loop stopped on a probe or strip error.
    RunFailed,
    /// The restart delay is over.
    DelayElapsed,
}

/// What the supervisor asks for next.
#[derive(Clone, Copy, Debug, PartialEq, Eq, Structural)]
pub enum SupervisorAction {
    /// Begin a connection attempt from its idle state.
    Connect,
    /// Run the sample/render loop.
    StartSampling,
    /// Wait this many milliseconds.
    Sleep(u64),
    /// Restart (a device reset, or a fresh connection attempt).
    Restart,
    /// The event does not apply to the current phase; nothing to do.
    Ignore,
}

/// A failure of the work that the phase runs.
pub open spec fn is_failure(phase: Phase, event: SupervisorEvent) -> bool {
    (phase == Phase::Connecting && event == SupervisorEvent::LinkFailed) || (phase
        == Phase::Sampling && event == SupervisorEvent::RunFailed)
}

/// The phase and the action after an event, for a restart delay of `delay_ms`.
pub open spec fn supervise(phase: Phase, delay_ms: u64, event: SupervisorEvent) -> (
    Phase,
    SupervisorAction,
) {
    if is_failure(phase, event) {
        (Phase::Waiting, SupervisorAction::Sleep(delay_ms))
    } else if phase == Phase::Connecting && event == SupervisorEvent::LinkUp {
        (Phase::Sampling, SupervisorAction::StartSampling)
    } else if phase == Phase::Waiting && event == SupervisorEvent::DelayElapsed {
        (Phase::Connecting, SupervisorAction::Restart)
    } else {
        (phase, SupervisorAction::Ignore)
    }
}

/// The restart policy, with a fixed positive restart delay.
pub struct Supervisor {
    phase: Phase,
    delay_ms: u64,
}

impl Supervisor {
    pub closed spec fn phase_spec(&self) -> Phase {
        self.phase
    }

    pub closed spec fn delay_spec(&self) -> u64 {
        self.delay_ms
    }

    /// A supervisor about to make its first connection attempt.
    pub fn new(delay_ms: u64) -> (r: Supervisor)
        requires
            delay_ms > 0,
        ensures
            r.phase_spec() == Phase::Connecting,
            r.delay_spec() == delay_ms,
    {
        Supervisor { phase: Phase::Connecting, delay_ms }
    }

    /// The first action: a connection attempt.
    pub fn start(&self) -> (r: SupervisorAction)
        ensures
            r == SupervisorAction::Connect,
    {
        SupervisorAction::Connect
    }

    /// The current phase.
    pub fn phase(&self) -> (r: Phase)
        ensures
            r == self.phase_spec(),
    {
        self.phase
    }

    /// The restart delay in milliseconds.
    pub fn delay_ms(&self) -> (r: u64)
        ensures
            r == self.delay_spec(),
    {
        self.delay_ms
    }

    /// Takes an event and returns what to do next.
    pub fn step(&mut self, event: SupervisorEvent) -> (r: SupervisorAction)
        ensures
            final(self).delay_spec() == old(self).delay_spec(),
            (final(self).phase_spec(), r) == supervise(
                old(self).phase_spec(),
                old(self).delay_spec(),
                event,
            ),
    {
        let failed = match (self.phase, event) {
            (Phase::Connecting, SupervisorEvent::LinkFailed) => true,
            (Phase::Sampling, SupervisorEvent::RunFailed) => true,
            _ => false,
        };
        if failed {
            self.phase = Phase::Waiting;
            SupervisorAction::Sleep(self.delay_ms)
        } else {
            match (self.phase, event) {
                (Phase::Connecting, SupervisorEvent::LinkUp) => {
                    self.phase = Phase::Sampling;
                    SupervisorAction::StartSampling
                },
                (Phase::Waiting, SupervisorEvent::DelayElapsed) => {
                    self.phase = Phase::Connecting;
                    SupervisorAction::Restart
                },
                _ => SupervisorAction::Ignore,
            }
        }
    }
}

/// Every failure of a connection attempt or of the sample/render loop is
/// followed by one wait of the fixed delay, and by nothing else until that
/// wait is over; the next connection attempt comes right after it. No wait is
/// asked for without a failure.
pub proof fn lemma_failure_then_one_delay(phase: Phase, delay_ms: u64, event: SupervisorEvent)
    ensures
        is_failure(phase, event) ==> supervise(phase, delay_ms, event) == (
            Phase::Waiting,
            SupervisorAction::Sleep(delay_ms),
        ),
        supervise(phase, delay_ms, event).1 is Sleep ==> is_failure(phase, event),
        supervise(Phase::Waiting, delay_ms, event) == if event == SupervisorEvent::DelayElapsed {
            (Phase::Connecting, SupervisorAction::Restart)
        } else {
            (Phase::Waiting, SupervisorAction::Ignore)
        },
{
}

/// The actions asked for in answer to a sequence of events, starting in `phase`.
pub open spec fn supervise_all(phase: Phase, delay_ms: u64, events: Seq<SupervisorEvent>) -> Seq<
    SupervisorAction,
>
    decreases events.len(),
{
    if events.len() == 0 {
        Seq::empty()
    } else {
        let (next, action) = supervise(phase, delay_ms, events[0]);
        seq![action] + supervise_all(next, delay_ms, events.drop_first())
    }
}

/// One action is asked for per event.
proof fn lemma_supervise_all_len(phase: Phase, delay_ms: u64, events: Seq<SupervisorEvent>)
    ensures
        supervise_all(phase, delay_ms, events).len() == events.len(),
    decreases events.len(),
{
    if events.len() > 0 {
        let next = supervise(phase, delay_ms, events[0]).0;
        lemma_supervise_all_len(next, delay_ms, events.drop_first());
    }
}

/// While the restart delay runs, every event is ignored until the first
/// action that is not, which is the restart.
proof fn lemma_waiting_ends_in_restart(delay_ms: u64, events: Seq<SupervisorEvent>, j: int)
    requires
        0 <= j < events.len(),
        forall|k: int|
            0 <= k < j ==> #[trigger] supervise_all(Phase::Waiting, delay_ms, events)[k]
                == SupervisorAction::Ignore,
        supervise_all(Phase::Waiting, delay_ms, events)[j] != SupervisorAction::Ignore,
    ensures
        supervise_all(Phase::Waiting, delay_ms, events)[j] == SupervisorAction::Restart,
    decreases j,
{
    let acts = supervise_all(Phase::Waiting, delay_ms, events);
    let rest = supervise_all(Phase::Waiting, delay_ms, events.drop_first());
    lemma_supervise_all_len(Phase::Waiting, delay_ms, events);
    lemma_supervise_all_len(Phase::Waiting, delay_ms, events.drop_first());
    if j > 0 {
        assert(acts[0] == SupervisorAction::Ignore);
        assert(supervise(Phase::Waiting, delay_ms, events[0]).0 == Phase::Waiting);
        assert(acts == seq![SupervisorAction::Ignore] + rest);
        assert forall|k: int| 0 <= k < j - 1 implies #[trigger] rest[k] == SupervisorAction::Ignore by {
            assert(acts[k + 1] == rest[k]);
        }
        assert(acts[j] == rest[j - 1]);
        lemma_waiting_ends_in_restart(delay_ms, events.drop_first(), j - 1);
    }
}

/// Over any run of events: the failure of a connection attempt or of the
/// sample/render loop is answered by one wait of the fixed delay, and the next
/// action that is not an ignored event is the restart, so no second wait,
/// connection or sampling comes between the failure and the restart.
pub proof fn lemma_failure_restarts_after_one_delay(
    phase: Phase,
    delay_ms: u64,
    events: Seq<SupervisorEvent>,
    j: int,
)
    requires
        events.len() > 0,
        is_failure(phase, events[0]),
        0 < j < events.len(),
        forall|k: int|
            0 < k < j ==> #[trigger] supervise_all(phase, delay_ms, events)[k]
                == SupervisorAction::Ignore,
        supervise_all(phase, delay_ms, events)[j] != SupervisorAction::Ignore,
    ensures
        supervise_all(phase, delay_ms, events)[0] == SupervisorAction::Sleep(delay_ms),
        supervise_all(phase, delay_ms, events)[j] == SupervisorAction::Restart,
{
    let acts = supervise_all(phase, delay_ms, events);
    let rest = supervise_all(Phase::Waiting, delay_ms, events.drop_first());
    lemma_supervise_all_len(phase, delay_ms, events);
    lemma_supervise_all_len(Phase::Waiting, delay_ms, events.drop_first());
    assert(acts == seq![SupervisorAction::Sleep(delay_ms)] + rest);
    assert forall|k: int| 0 <= k < j - 1 implies #[trigger] rest[k] == SupervisorAction::Ignore by {
        assert(acts[k + 1] == rest[k]);
    }
    assert(acts[j] == rest[j - 1]);
    lemma_waiting_ends_in_restart(delay_ms, events.drop_first(), j - 1);
}

} // verus!
