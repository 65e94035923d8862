use vstd::prelude::*;

use crate::poll::{PollPhase, PollStep, PollView, ProbeResult, ReadinessPoll};
use crate::registry::Registry;
use vstd::string::StringExecFns;

verus! {

/// Port the worker binds and is probed on.
pub const WORKER_PORT: u16 = 3100;

/// Per-attempt timeout of a health probe.
pub const PROBE_TIMEOUT_MS: u64 = 2000;

/// Delay between two readiness probes.
pub const PROBE_INTERVAL_MS: u64 = 500;

/// Probes allowed after the initial start.
pub const START_ATTEMPTS: u32 = 60;

/// Probes allowed after a restart: the worker comes up faster the second time.
pub const RESTART_ATTEMPTS: u32 = 30;

/// Pause between terminating a worker and spawning its replacement, so that the
/// operating system releases the port.
pub const RESTART_SETTLE_MS: u64 = 200;

/// Errors the supervisor surfaces to its host.
#[derive(Clone, Copy, Debug, PartialEq, Eq, Structural)]
pub enum SupervisorError {
    /// The worker binary could not be located or executed.
    SpawnFailure,
    /// The worker was spawned and is registered, but never reported ready
    /// within the attempt bound.
    ReadinessTimeout,
}

impl SupervisorError {
    /// The text shown to the user. A readiness timeout reads as "still
    /// starting": the worker is alive, only the wait for it ran out. A spawn
    /// failure whose cause is known is better told by `spawn_failure_message`.
    pub fn message(&self) -> (r: String)
        ensures
            r@ == (match self {
                SupervisorError::SpawnFailure => "Failed to spawn sidecar"@,
                SupervisorError::ReadinessTimeout => "Server is still starting"@,
            }),
    {
        match self {
            SupervisorError::SpawnFailure => String::from_str("Failed to spawn sidecar"),
            SupervisorError::ReadinessTimeout => String::from_str("Server is still starting"),
        }
    }
}

/// The text reported when spawning the worker failed with the error `detail`.
pub fn spawn_failure_message(detail: &str) -> (r: String)
    ensures
        r@ == "Failed to spawn sidecar: "@ + detail@,
{
    let mut text = String::from_str("Failed to spawn sidecar: ");
    text.append(detail);
    text
}

/// Abstract state of a supervisor.
pub struct SupervisorView<H> {
    /// The registered worker, if any.
    pub slot: Option<H>,
    /// Bumped on every stop, restart and shutdown; polls of an older
    /// generation are stale.
    pub generation: u64,
    /// Set by `shutdown`; from then on nothing can be registered.
    pub shut_down: bool,
}

pub open spec fn next_generation(g: u64) -> u64 {
    if g < u64::MAX {
        (g + 1) as u64
    } else {
        0
    }
}

impl<H> SupervisorView<H> {
    /// A shut-down supervisor holds no worker.
    pub open spec fn wf(self) -> bool {
        self.shut_down ==> self.slot is None
    }

    /// The state after the registered worker was taken out for termination.
    pub open spec fn stopped(self) -> SupervisorView<H> {
        SupervisorView { slot: None, generation: next_generation(self.generation), shut_down: self.shut_down }
    }

    /// The state after `shutdown`.
    pub open spec fn closed(self) -> SupervisorView<H> {
        SupervisorView { slot: None, generation: next_generation(self.generation), shut_down: true }
    }

    /// The state after a freshly spawned worker `h` was handed in.
    pub open spec fn registered(self, h: H) -> SupervisorView<H> {
        if self.shut_down {
            self
        } else {
            SupervisorView { slot: Some(h), ..self }
        }
    }

    /// The handle that registering `h` gives back for termination: the one it
    /// displaces, or `h` itself once the supervisor is shut down.
    pub open spec fn displaced_by(self, h: H) -> Option<H> {
        if self.shut_down {
            Some(h)
        } else {
            self.slot
        }
    }
}

/// Owns the single worker slot and decides which handle is to be terminated,
/// when polls go stale, and what the host reports.
///
/// Every operation takes `&mut self`: a host that shares a supervisor between
/// tasks puts it behind one lock, and so serialises restart, stop and shutdown
/// as wholes.
pub struct Supervisor<H> {
    registry: Registry<H>,
    generation: u64,
    shut_down: bool,
}

impl<H> View for Supervisor<H> {
    type V = SupervisorView<H>;

    closed spec fn view(&self) -> SupervisorView<H> {
        SupervisorView { slot: self.registry@, generation: self.generation, shut_down: self.shut_down }
    }
}

impl<H> Supervisor<H> {
    #[verifier::type_invariant]
    spec fn inv(&self) -> bool {
        self.shut_down ==> self.registry@ is None
    }

    /// A supervisor with no worker.
    pub fn new() -> (r: Self)
        ensures
            r@.wf(),
            r@.slot is None,
            r@.generation == 0,
            !r@.shut_down,
    {
        Supervisor { registry: Registry::new(), generation: 0, shut_down: false }
    }

    fn bump_generation(&mut self)
        ensures
            final(self)@ == (SupervisorView { generation: next_generation(old(self)@.generation), ..old(self)@ }),
    {
        proof {
            use_type_invariant(&*self);
        }
        if self.generation < u64::MAX {
            self.generation = self.generation + 1;
        } else {
            self.generation = 0;
        }
    }

    /// Hands in a freshly spawned worker. The result is a handle the host must
    /// terminate: the one that was still registered, or `h` itself once the
    /// supervisor is shut down, so that a restart overtaken by exit leaves no
    /// orphan.
    pub fn register(&mut self, h: H) -> (to_terminate: Option<H>)
        ensures
            final(self)@ == old(self)@.registered(h),
            final(self)@.wf(),
            to_terminate == old(self)@.displaced_by(h),
    {
        proof {
            use_type_invariant(&*self);
        }
        if self.shut_down {
            Some(h)
        } else {
            let previous = self.registry.take();
            self.registry.put(h);
            previous
        }
    }

    /// Takes the registered worker out for termination. Stopping a stopped
    /// supervisor is no error: nothing is handed out.
    pub fn stop(&mut self) -> (to_terminate: Option<H>)
        ensures
            final(self)@ == old(self)@.stopped(),
            final(self)@.wf(),
            to_terminate == old(self)@.slot,
    {
        let taken = self.registry.take();
        self.bump_generation();
        taken
    }

    /// First half of a restart: takes the registered worker out for
    /// termination. The host then waits `RESTART_SETTLE_MS`, spawns, and hands
    /// the new worker to `register`.
    pub fn begin_restart(&mut self) -> (to_terminate: Option<H>)
        ensures
            final(self)@ == old(self)@.stopped(),
            final(self)@.wf(),
            to_terminate == old(self)@.slot,
    {
        self.stop()
    }

    /// The terminal call, made once at application exit: takes the registered
    /// worker out for termination and refuses every later registration.
    pub fn shutdown(&mut self) -> (to_terminate: Option<H>)
        ensures
            final(self)@ == old(self)@.closed(),
            final(self)@.wf(),
            to_terminate == old(self)@.slot,
    {
        let taken = self.stop();
        self.shut_down = true;
        taken
    }

    pub fn generation(&self) -> (r: u64)
        ensures
            r == self@.generation,
    {
        self.generation
    }

    pub fn is_shut_down(&self) -> (r: bool)
        ensures
            r == self@.shut_down,
    {
        self.shut_down
    }

    /// Whether a worker is registered.
    pub fn has_worker(&self) -> (r: bool)
        ensures
            r == self@.slot is Some,
    {
        self.registry.is_occupied()
    }

    /// The readiness poll after the initial start, tied to the current generation.
    pub fn start_poll(&self) -> (p: ReadinessPoll)
        ensures
            p@.wf(),
            p@.phase == PollPhase::AwaitProbe,
            p@.attempts == 0,
            p@.bound == START_ATTEMPTS,
            p@.delay_ms == PROBE_INTERVAL_MS,
            p@.generation == self@.generation,
    {
        ReadinessPoll::new(START_ATTEMPTS, PROBE_INTERVAL_MS, self.generation)
    }

    /// The readiness poll after a restart, tied to the current generation.
    pub fn restart_poll(&self) -> (p: ReadinessPoll)
        ensures
            p@.wf(),
            p@.phase == PollPhase::AwaitProbe,
            p@.attempts == 0,
            p@.bound == RESTART_ATTEMPTS,
            p@.delay_ms == PROBE_INTERVAL_MS,
            p@.generation == self@.generation,
    {
        ReadinessPoll::new(RESTART_ATTEMPTS, PROBE_INTERVAL_MS, self.generation)
    }
}

/// What a finished restart reports: ready, or a readiness timeout while the
/// worker stays registered. A poll that has not finished is still waiting.
pub open spec fn restart_outcome(step: PollStep) -> Option<Result<(), SupervisorError>> {
    match step {
        PollStep::Ready => Some(Ok(())),
        PollStep::TimedOut => Some(Err(SupervisorError::ReadinessTimeout)),
        PollStep::Cancelled => Some(Err(SupervisorError::ReadinessTimeout)),
        _ => None,
    }
}

/// The result of a restart once its poll gave `step`; `None` while polling goes on.
pub fn restart_result(step: PollStep) -> (r: Option<Result<(), SupervisorError>>)
    ensures
        r == restart_outcome(step),
{
    match step {
        PollStep::Ready => Some(Ok(())),
        PollStep::TimedOut => Some(Err(SupervisorError::ReadinessTimeout)),
        PollStep::Cancelled => Some(Err(SupervisorError::ReadinessTimeout)),
        _ => None,
    }
}

/// The status reported to the host: running exactly when the endpoint answered.
pub fn server_status(probe: ProbeResult) -> (running: bool)
    ensures
        running == (probe == ProbeResult::Ready),
{
    probe == ProbeResult::Ready
}

/// The state after `n` successive stops.
pub open spec fn stop_n<H>(v: SupervisorView<H>, n: nat) -> SupervisorView<H>
    decreases n,
{
    if n == 0 {
        v
    } else {
        stop_n(v.stopped(), (n - 1) as nat)
    }
}

/// The handles that `n` successive stops hand out for termination, in order.
pub open spec fn stop_n_hand_out<H>(v: SupervisorView<H>, n: nat) -> Seq<Option<H>>
    decreases n,
{
    if n == 0 {
        Seq::empty()
    } else {
        seq![v.slot] + stop_n_hand_out(v.stopped(), (n - 1) as nat)
    }
}

proof fn lemma_stops_on_empty<H>(v: SupervisorView<H>, n: nat)
    requires
        v.slot is None,
    ensures
        stop_n(v, n).slot is None,
        stop_n_hand_out(v, n).len() == n,
        forall|k: int| 0 <= k < n ==> stop_n_hand_out(v, n)[k] is None,
    decreases n,
{
    if n > 0 {
        lemma_stops_on_empty(v.stopped(), (n - 1) as nat);
    }
}

/// After a start that registers `h`, any positive number of stops leaves the
/// slot empty, and `h` is handed out for termination exactly once: by the first
/// stop.
pub proof fn lemma_start_then_stops<H>(v: SupervisorView<H>, h: H, n: nat)
    requires
        !v.shut_down,
        n >= 1,
    ensures
        stop_n(v.registered(h), n).slot is None,
        stop_n_hand_out(v.registered(h), n).len() == n,
        stop_n_hand_out(v.registered(h), n)[0] == Some(h),
        forall|k: int| 1 <= k < n ==> stop_n_hand_out(v.registered(h), n)[k] is None,
{
    let s = v.registered(h);
    lemma_stops_on_empty(s.stopped(), (n - 1) as nat);
    let rest = stop_n_hand_out(s.stopped(), (n - 1) as nat);
    assert(stop_n_hand_out(s, n) == seq![s.slot] + rest);
    assert forall|k: int| 1 <= k < n implies stop_n_hand_out(s, n)[k] is None by {
        assert(stop_n_hand_out(s, n)[k] == rest[k - 1]);
    }
}

/// A restart never leaves two workers registered: the old one is handed out
/// by `begin_restart`, and registering the new one hands out nothing but,
/// after shutdown, the new worker itself. On a running supervisor exactly the
/// new worker is registered afterwards.
pub proof fn lemma_restart_registers_one<H>(v: SupervisorView<H>, h: H)
    requires
        v.wf(),
    ensures
        v.stopped().displaced_by(h) is None || v.stopped().displaced_by(h) == Some(h),
        v.stopped().registered(h).slot is None || v.stopped().registered(h).slot == Some(h),
        v.stopped().registered(h).wf(),
        !v.shut_down ==> v.stopped().displaced_by(h) is None,
        !v.shut_down ==> v.stopped().registered(h).slot == Some(h),
{
}

/// A restart on an empty supervisor hands nothing out for termination, and
/// the new worker ends up registered as after a start.
pub proof fn lemma_restart_on_empty<H>(v: SupervisorView<H>, h: H)
    requires
        v.wf(),
        v.slot is None,
        !v.shut_down,
    ensures
        v.stopped().displaced_by(h) is None,
        v.stopped().registered(h).slot == v.registered(h).slot,
        v.stopped().registered(h).slot == Some(h),
{
}

/// Stopping twice in a row: the first stop hands out the registered worker,
/// the second hands out nothing, and the slot stays empty.
pub proof fn lemma_stop_twice<H>(v: SupervisorView<H>)
    ensures
        v.stopped().slot is None,
        v.stopped().stopped().slot is None,
{
}

/// Two restarts run one after the other leave at most the second worker
/// registered; the second restart hands out exactly what the first one
/// registered. On a running supervisor the first worker is handed out by the
/// second restart, the second stays registered, and neither registration
/// displaces anything.
pub proof fn lemma_serialized_restarts<H>(v: SupervisorView<H>, h1: H, h2: H)
    requires
        v.wf(),
    ensures
        v.stopped().registered(h1).stopped().registered(h2).slot is None
            || v.stopped().registered(h1).stopped().registered(h2).slot == Some(h2),
        v.stopped().registered(h1).stopped().registered(h2).wf(),
        !v.shut_down ==> v.stopped().displaced_by(h1) is None,
        !v.shut_down ==> v.stopped().registered(h1).slot == Some(h1),
        !v.shut_down ==> v.stopped().registered(h1).stopped().displaced_by(h2) is None,
        !v.shut_down ==> v.stopped().registered(h1).stopped().registered(h2).slot == Some(h2),
{
}

/// A worker spawned by a restart that exit overtook is handed straight back
/// for termination and never registered.
pub proof fn lemma_no_registration_after_shutdown<H>(v: SupervisorView<H>, h: H)
    ensures
        v.closed().displaced_by(h) == Some(h),
        v.closed().registered(h).slot is None,
{
}

/// A stop or restart makes every poll started before it stale: the next probe
/// answer or wait it reports cancels it, whatever the probe said.
pub proof fn lemma_stop_cancels_poll<H>(v: SupervisorView<H>, p: PollView, r: ProbeResult)
    requires
        p.generation == v.generation,
    ensures
        p.phase == PollPhase::AwaitProbe ==> p.after_probe(r, v.stopped().generation).phase
            == PollPhase::Cancelled,
        p.phase == PollPhase::AwaitWait ==> p.after_wait(v.stopped().generation).phase
            == PollPhase::Cancelled,
{
}

} // verus!
