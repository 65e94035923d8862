use vstd::prelude::*;

verus! {

/// Outcome of a single readiness probe against the worker's health endpoint.
#[derive(Clone, Copy, Debug, PartialEq, Eq, Structural)]
pub enum ProbeResult {
    Ready,
    NotReady,
}

/// What one health request amounts to: `status` is the HTTP status code when a
/// response arrived within the per-attempt timeout, `None` on any transport error
/// or timeout. Only a success status counts as ready.
pub open spec fn probe_result_of(status: Option<u16>) -> ProbeResult {
    match status {
        Some(code) => if 200 <= code && code < 300 {
            ProbeResult::Ready
        } else {
            ProbeResult::NotReady
        },
        None => ProbeResult::NotReady,
    }
}

/// Turns the result of one health request into a probe result; transport
/// failures are data here, never errors.
pub fn classify_probe(status: Option<u16>) -> (r: ProbeResult)
    ensures
        r == probe_result_of(status),
{
    match status {
        Some(code) => if 200 <= code && code < 300 {
            ProbeResult::Ready
        } else {
            ProbeResult::NotReady
        },
        None => ProbeResult::NotReady,
    }
}

/// The instruction a poll gives its host.
#[derive(Clone, Copy, Debug, PartialEq, Eq, Structural)]
pub enum PollStep {
    /// Issue one probe and report it with `on_probe`.
    Probe,
    /// Sleep this many milliseconds and report it with `on_wait`.
    Wait(u64),
    /// The worker answered: stop polling and report readiness.
    Ready,
    /// The attempt bound is exhausted: stop polling and report the timeout.
    TimedOut,
    /// The worker this poll was started for has been stopped or replaced.
    Cancelled,
}

#[derive(Clone, Copy, Debug, PartialEq, Eq, Structural)]
pub enum PollPhase {
    AwaitProbe,
    AwaitWait,
    Ready,
    TimedOut,
    Cancelled,
}

/// Abstract state of a readiness poll.
pub struct PollView {
    pub phase: PollPhase,
    /// Probes issued so far.
    pub attempts: nat,
    /// Inter-attempt waits completed so far.
    pub waits: nat,
    /// Maximum number of probes.
    pub bound: nat,
    /// Delay after each unsuccessful probe.
    pub delay_ms: nat,
    /// Supervisor generation the poll belongs to.
    pub generation: u64,
}

impl PollView {
    pub open spec fn wf(self) -> bool {
        &&& self.attempts <= self.bound
        &&& self.bound <= u32::MAX
        &&& self.delay_ms <= u64::MAX
        &&& self.bound * self.delay_ms <= u64::MAX
        &&& match self.phase {
            PollPhase::AwaitProbe => self.waits == self.attempts && self.attempts < self.bound,
            PollPhase::AwaitWait => self.waits + 1 == self.attempts,
            PollPhase::Ready => self.waits + 1 == self.attempts,
            PollPhase::TimedOut => self.waits == self.attempts && self.attempts == self.bound,
            PollPhase::Cancelled => self.waits == self.attempts || self.waits + 1 == self.attempts,
        }
    }

    /// Time spent waiting between attempts so far.
    pub open spec fn elapsed_ms(self) -> nat {
        self.waits * self.delay_ms
    }

    pub open spec fn step(self) -> PollStep {
        match self.phase {
            PollPhase::AwaitProbe => PollStep::Probe,
            PollPhase::AwaitWait => PollStep::Wait(self.delay_ms as u64),
            PollPhase::Ready => PollStep::Ready,
            PollPhase::TimedOut => PollStep::TimedOut,
            PollPhase::Cancelled => PollStep::Cancelled,
        }
    }

    /// The state after a probe reported `r`, given the supervisor's generation
    /// when the answer came: a poll whose worker was stopped or replaced
    /// meanwhile is cancelled, whatever the answer. A report that was not asked
    /// for changes nothing.
    pub open spec fn after_probe(self, r: ProbeResult, current_generation: u64) -> PollView {
        if self.phase == PollPhase::AwaitProbe {
            PollView {
                phase: if current_generation != self.generation {
                    PollPhase::Cancelled
                } else if r == ProbeResult::Ready {
                    PollPhase::Ready
                } else {
                    PollPhase::AwaitWait
                },
                attempts: self.attempts + 1,
                ..self
            }
        } else {
            self
        }
    }

    /// The state after an inter-attempt wait, given the supervisor's generation
    /// at that moment; a wait that was not asked for changes nothing.
    pub open spec fn after_wait(self, current_generation: u64) -> PollView {
        if self.phase == PollPhase::AwaitWait {
            PollView {
                phase: if current_generation != self.generation {
                    PollPhase::Cancelled
                } else if self.attempts >= self.bound {
                    PollPhase::TimedOut
                } else {
                    PollPhase::AwaitProbe
                },
                waits: self.waits + 1,
                ..self
            }
        } else {
            self
        }
    }
}

/// A bounded readiness poll: probe, and after each unsuccessful probe wait a
/// fixed delay, until the worker answers or the attempt bound is used up.
pub struct ReadinessPoll {
    phase: PollPhase,
    attempts: u32,
    waits: u32,
    bound: u32,
    delay_ms: u64,
    generation: u64,
}

impl View for ReadinessPoll {
    type V = PollView;

    closed spec fn view(&self) -> PollView {
        PollView {
            phase: self.phase,
            attempts: self.attempts as nat,
            waits: self.waits as nat,
            bound: self.bound as nat,
            delay_ms: self.delay_ms as nat,
            generation: self.generation,
        }
    }
}

impl ReadinessPoll {
    /// A poll of at most `bound` probes, `delay_ms` apart, for the worker of
    /// supervisor generation `generation`.
    pub fn new(bound: u32, delay_ms: u64, generation: u64) -> (r: Self)
        requires
            bound * delay_ms <= u64::MAX,
        ensures
            r@.wf(),
            r@.phase == (if bound == 0 {
                PollPhase::TimedOut
            } else {
                PollPhase::AwaitProbe
            }),
            r@.attempts == 0,
            r@.waits == 0,
            r@.bound == bound,
            r@.delay_ms == delay_ms,
            r@.generation == generation,
    {
        let phase = if bound == 0 {
            PollPhase::TimedOut
        } else {
            PollPhase::AwaitProbe
        };
        ReadinessPoll { phase, attempts: 0, waits: 0, bound, delay_ms, generation }
    }

    /// What the host has to do next.
    pub fn next_step(&self) -> (s: PollStep)
        ensures
            s == self@.step(),
    {
        match self.phase {
            PollPhase::AwaitProbe => PollStep::Probe,
            PollPhase::AwaitWait => PollStep::Wait(self.delay_ms),
            PollPhase::Ready => PollStep::Ready,
            PollPhase::TimedOut => PollStep::TimedOut,
            PollPhase::Cancelled => PollStep::Cancelled,
        }
    }

    /// Records the result of a probe and says what to do next;
    /// `current_generation` is the supervisor's generation now, so that a poll
    /// whose worker was replaced while the probe was out never reports ready.
    pub fn on_probe(&mut self, r: ProbeResult, current_generation: u64) -> (s: PollStep)
        requires
            old(self)@.wf(),
        ensures
            final(self)@ == old(self)@.after_probe(r, current_generation),
            final(self)@.wf(),
            s == final(self)@.step(),
    {
        if self.phase == PollPhase::AwaitProbe {
            self.attempts = self.attempts + 1;
            self.phase = if current_generation != self.generation {
                PollPhase::Cancelled
            } else {
                match r {
                    ProbeResult::Ready => PollPhase::Ready,
                    ProbeResult::NotReady => PollPhase::AwaitWait,
                }
            };
        }
        self.next_step()
    }

    /// Records a completed wait; `current_generation` is the supervisor's
    /// generation now, so that a poll whose worker was replaced stops.
    pub fn on_wait(&mut self, current_generation: u64) -> (s: PollStep)
        requires
            old(self)@.wf(),
        ensures
            final(self)@ == old(self)@.after_wait(current_generation),
            final(self)@.wf(),
            s == final(self)@.step(),
    {
        if self.phase == PollPhase::AwaitWait {
            self.waits = self.waits + 1;
            self.phase = if current_generation != self.generation {
                PollPhase::Cancelled
            } else if self.attempts >= self.bound {
                PollPhase::TimedOut
            } else {
                PollPhase::AwaitProbe
            };
        }
        self.next_step()
    }

    pub fn attempts(&self) -> (r: u32)
        ensures
            r == self@.attempts,
    {
        self.attempts
    }

    pub fn generation(&self) -> (r: u64)
        ensures
            r == self@.generation,
    {
        self.generation
    }

    /// Milliseconds spent in inter-attempt waits so far.
    pub fn elapsed_ms(&self) -> (r: u64)
        requires
            self@.wf(),
        ensures
            r == self@.elapsed_ms(),
    {
        let waits = self.waits;
        let bound = self.bound;
        let delay = self.delay_ms;
        assert(waits as int * delay as int <= bound as int * delay as int) by (nonlinear_arith)
            requires
                waits <= bound,
        ;
        waits as u64 * delay
    }
}

/// How a completed poll ended.
#[derive(Clone, Copy, Debug, PartialEq, Eq, Structural)]
pub enum PollReport {
    /// The `attempts`-th probe answered, after `elapsed_ms` of waiting.
    Ready { attempts: u32, elapsed_ms: u64 },
    /// All `attempts` probes failed; `elapsed_ms` were spent waiting.
    TimedOut { attempts: u32, elapsed_ms: u64 },
}

/// The result of probe number `k` (from zero) in a run; probes past the end of
/// the recorded outcomes are not ready.
pub open spec fn outcome_at(outcomes: Seq<ProbeResult>, k: int) -> ProbeResult {
    if 0 <= k < outcomes.len() {
        outcomes[k]
    } else {
        ProbeResult::NotReady
    }
}

/// No probe before number `k` was ready.
pub open spec fn none_ready_before(outcomes: Seq<ProbeResult>, k: int) -> bool {
    forall|j: int| 0 <= j < k ==> outcome_at(outcomes, j) == ProbeResult::NotReady
}

/// What a poll of `bound` attempts, `delay_ms` apart, reports when its probes
/// return `outcomes` in order: ready at the first ready probe within the bound,
/// else a timeout after the whole bound has been waited out.
pub open spec fn poll_report_spec(outcomes: Seq<ProbeResult>, bound: nat, delay_ms: nat, r: PollReport) -> bool {
    match r {
        PollReport::Ready { attempts, elapsed_ms } => {
            &&& 1 <= attempts <= bound
            &&& outcome_at(outcomes, attempts - 1) == ProbeResult::Ready
            &&& none_ready_before(outcomes, attempts - 1)
            &&& elapsed_ms == (attempts - 1) * delay_ms
        },
        PollReport::TimedOut { attempts, elapsed_ms } => {
            &&& attempts == bound
            &&& none_ready_before(outcomes, bound as int)
            &&& elapsed_ms == bound * delay_ms
        },
    }
}

/// Drives a poll to its end with the given probe outcomes, the `k`-th probe
/// returning `outcomes[k]` (not ready past the end).
pub fn run_poll(outcomes: &Vec<ProbeResult>, bound: u32, delay_ms: u64) -> (r: PollReport)
    requires
        bound * delay_ms <= u64::MAX,
    ensures
        poll_report_spec(outcomes@, bound as nat, delay_ms as nat, r),
{
    let mut poll = ReadinessPoll::new(bound, delay_ms, 0);
    loop
        invariant
            poll@.wf(),
            poll@.bound == bound,
            poll@.delay_ms == delay_ms,
            poll@.generation == 0,
            poll@.phase == PollPhase::AwaitProbe || poll@.phase == PollPhase::TimedOut,
            none_ready_before(outcomes@, poll@.attempts as int),
        decreases bound - poll@.attempts,
    {
        let step = poll.next_step();
        match step {
            PollStep::Probe => {
                let k = poll.attempts();
                let outcome = if (k as usize) < outcomes.len() {
                    outcomes[k as usize]
                } else {
                    ProbeResult::NotReady
                };
                let next = poll.on_probe(outcome, 0);
                if next == PollStep::Ready {
                    let elapsed = poll.elapsed_ms();
                    proof {
                        assert(poll@.waits == k);
                    }
                    return PollReport::Ready { attempts: k + 1, elapsed_ms: elapsed };
                }
                poll.on_wait(0);
            },
            _ => {
                let elapsed = poll.elapsed_ms();
                return PollReport::TimedOut { attempts: poll.attempts(), elapsed_ms: elapsed };
            },
        }
    }
}

/// A poll whose probes never succeed stops after exactly `bound` attempts,
/// having waited `bound` times the inter-attempt delay.
pub proof fn lemma_poll_never_ready_times_out(outcomes: Seq<ProbeResult>, bound: nat, delay_ms: nat, r: PollReport)
    requires
        forall|k: int| 0 <= k < outcomes.len() ==> outcomes[k] == ProbeResult::NotReady,
        poll_report_spec(outcomes, bound, delay_ms, r),
    ensures
        r == (PollReport::TimedOut { attempts: bound as u32, elapsed_ms: (bound * delay_ms) as u64 }),
{
    match r {
        PollReport::Ready { attempts, elapsed_ms } => {
            assert(outcome_at(outcomes, attempts - 1) == ProbeResult::NotReady);
        },
        PollReport::TimedOut { attempts, elapsed_ms } => {},
    }
}

/// A poll never turns ready on a report made under another generation than its
/// own: a stale poll cannot announce a worker that was stopped or replaced.
pub proof fn lemma_stale_poll_never_ready(p: PollView, r: ProbeResult, current_generation: u64)
    requires
        current_generation != p.generation,
        p.phase != PollPhase::Ready,
    ensures
        p.after_probe(r, current_generation).phase != PollPhase::Ready,
        p.after_wait(current_generation).phase != PollPhase::Ready,
{
}

} // verus!
