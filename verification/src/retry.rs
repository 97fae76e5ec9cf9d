//! The per-request retry state machine: one HTTP GET per attempt, exponential
//! backoff on transient failures (429, any 5xx, or a network-level error),
//! immediate termination on any other non-2xx status, and a fixed attempt
//! ceiling after which the call reports exhaustion.

use vstd::prelude::*;

verus! {

/// The fixed attempt ceiling of the default policy.
pub const MAX_RETRIES: u32 = 5;

/// The fixed backoff factor of the default policy.
pub const RETRY_DELAY_MULTIPLIER: u64 = 2;

/// The initial backoff delay of the default policy, in time units.
pub const BASE_DELAY: u64 = 1;

/// `b` raised to the power `e`.
pub open spec fn spec_pow(b: int, e: nat) -> int
    decreases e,
{
    if e == 0 {
        1
    } else {
        b * spec_pow(b, (e - 1) as nat)
    }
}

/// The retry policy of one fetch call: attempt ceiling, initial delay, and
/// backoff factor.
#[derive(Clone, Copy, Debug, PartialEq, Eq, Structural)]
pub struct RetryConfig {
    pub max_retries: u32,
    pub base_delay: u64,
    pub factor: u64,
}

impl RetryConfig {
    /// The backoff delay before the (n+1)-th retry: `base_delay * factor^n`,
    /// growing without an upper cap as `n` grows.
    pub open spec fn spec_delay(self, n: nat) -> int {
        self.base_delay * spec_pow(self.factor as int, n)
    }

    /// A usable policy: at least one attempt, a positive delay that grows by
    /// a factor of at least one, and every delay of the call representable.
    pub open spec fn wf(self) -> bool {
        &&& 1 <= self.max_retries
        &&& 1 <= self.base_delay
        &&& 1 <= self.factor
        &&& self.spec_delay(self.max_retries as nat) <= u64::MAX
    }
}

/// A positive base raised to any power stays positive.
pub proof fn lemma_pow_positive(b: int, e: nat)
    requires
        b >= 1,
    ensures
        spec_pow(b, e) >= 1,
    decreases e,
{
    if e > 0 {
        lemma_pow_positive(b, (e - 1) as nat);
        assert(b * spec_pow(b, (e - 1) as nat) >= 1) by (nonlinear_arith)
            requires
                b >= 1,
                spec_pow(b, (e - 1) as nat) >= 1,
        ;
    }
}

/// Powers of a base of at least one grow with the exponent.
pub proof fn lemma_pow_mono(b: int, m: nat, n: nat)
    requires
        b >= 1,
        m <= n,
    ensures
        spec_pow(b, m) <= spec_pow(b, n),
    decreases n,
{
    if m < n {
        lemma_pow_mono(b, m, (n - 1) as nat);
        lemma_pow_positive(b, (n - 1) as nat);
        assert(spec_pow(b, (n - 1) as nat) <= b * spec_pow(b, (n - 1) as nat)) by (nonlinear_arith)
            requires
                b >= 1,
                spec_pow(b, (n - 1) as nat) >= 1,
        ;
    }
}

/// Backoff delays grow with the attempt index.
pub proof fn lemma_delay_mono(cfg: RetryConfig, m: nat, n: nat)
    requires
        cfg.base_delay >= 1,
        cfg.factor >= 1,
        m <= n,
    ensures
        cfg.spec_delay(m) <= cfg.spec_delay(n),
{
    lemma_pow_mono(cfg.factor as int, m, n);
    assert(cfg.base_delay * spec_pow(cfg.factor as int, m) <= cfg.base_delay * spec_pow(
        cfg.factor as int,
        n,
    )) by (nonlinear_arith)
        requires
            cfg.base_delay >= 1,
            spec_pow(cfg.factor as int, m) <= spec_pow(cfg.factor as int, n),
    ;
}

/// The classification that drives the state machine.
#[derive(Clone, Copy, Debug, PartialEq, Eq, Structural)]
pub enum FetchClass {
    /// A 2xx response.
    Success,
    /// A 429 or 5xx response, or a network-level error: worth retrying.
    Transient,
    /// Any other non-2xx response: no amount of waiting fixes it.
    Fatal,
}

/// What one HTTP GET attempt produced: a status code, or no response at all
/// (connection refused, name resolution failure, timeout).
#[derive(Clone, Copy, Debug, PartialEq, Eq, Structural)]
pub enum AttemptEvent {
    Response(u16),
    NetworkError,
}

/// The terminal outcome of one fetch call.
#[derive(Clone, Copy, Debug, PartialEq, Eq, Structural)]
pub enum FetchOutcome {
    /// A 2xx response arrived; the body accompanies it outside the model.
    Success(u16),
    /// A non-retryable status ended the call on its first occurrence.
    FatalStatus(u16),
    /// Transient failures used up the whole attempt ceiling.
    Exhausted,
}

/// How a fetch call classifies one status code.
pub open spec fn spec_classify(status: u16) -> FetchClass {
    if 200 <= status < 300 {
        FetchClass::Success
    } else if status == 429 || (500 <= status < 600) {
        FetchClass::Transient
    } else {
        FetchClass::Fatal
    }
}

/// Classifies one status code: 2xx succeeds, 429 and 5xx are transient, and
/// every other status is fatal.
pub fn classify_status(status: u16) -> (c: FetchClass)
    ensures
        c == spec_classify(status),
{
    if 200 <= status && status < 300 {
        FetchClass::Success
    } else if status == 429 || (500 <= status && status < 600) {
        FetchClass::Transient
    } else {
        FetchClass::Fatal
    }
}

/// The classification of one attempt's result; a network-level error counts
/// as transient.
pub open spec fn classify_event(e: AttemptEvent) -> FetchClass {
    match e {
        AttemptEvent::Response(s) => spec_classify(s),
        AttemptEvent::NetworkError => FetchClass::Transient,
    }
}

/// The status carried by an attempt's result, where there is one.
pub open spec fn event_status(e: AttemptEvent) -> u16 {
    match e {
        AttemptEvent::Response(s) => s,
        AttemptEvent::NetworkError => 0,
    }
}

/// The mutable state of one fetch call: how many attempts have failed
/// transiently so far, and the delay to wait before the next retry. Each
/// concurrent fetch owns an independent instance.
#[derive(Clone, Copy, Debug, PartialEq, Eq, Structural)]
pub struct RetryState {
    pub attempts_made: u32,
    pub current_delay: u64,
}

impl RetryState {
    /// A state still able to attempt: the count is below the ceiling and the
    /// delay is exactly what exponential backoff prescribes for it.
    pub open spec fn wf(self, cfg: RetryConfig) -> bool {
        &&& self.attempts_made < cfg.max_retries
        &&& self.current_delay as int == cfg.spec_delay(self.attempts_made as nat)
    }

    /// The state at the start of a fetch call: no attempts made, the delay
    /// at its configured base.
    pub fn new(cfg: &RetryConfig) -> (s: Self)
        requires
            cfg.wf(),
        ensures
            s.wf(*cfg),
            s.attempts_made == 0,
            s.current_delay == cfg.base_delay,
    {
        RetryState { attempts_made: 0, current_delay: cfg.base_delay }
    }
}

/// What the caller of one machine step must do next.
#[derive(Clone, Copy, Debug, PartialEq, Eq, Structural)]
pub enum StepAction {
    /// The call is over with this outcome.
    Finish(FetchOutcome),
    /// Wait this long, then issue the next attempt.
    Backoff(u64),
}

/// One transition of the retry state machine, applied to the result of one
/// GET attempt. A 2xx or fatal status ends the call at once. A transient
/// result ends it with exhaustion when the attempt just made was the last
/// one allowed; otherwise the caller is told to wait the current delay, the
/// attempt count rises by one, and the delay multiplies by the factor.
pub fn retry_step(state: &mut RetryState, cfg: &RetryConfig, event: AttemptEvent) -> (a: StepAction)
    requires
        cfg.wf(),
        old(state).wf(*cfg),
    ensures
        match classify_event(event) {
            FetchClass::Success => a == StepAction::Finish(
                FetchOutcome::Success(event_status(event)),
            ) && *final(state) == *old(state),
            FetchClass::Fatal => a == StepAction::Finish(
                FetchOutcome::FatalStatus(event_status(event)),
            ) && *final(state) == *old(state),
            FetchClass::Transient => if old(state).attempts_made + 1 >= cfg.max_retries {
                a == StepAction::Finish(FetchOutcome::Exhausted) && *final(state) == *old(state)
            } else {
                &&& a == StepAction::Backoff(old(state).current_delay)
                &&& final(state).attempts_made == old(state).attempts_made + 1
                &&& final(state).wf(*cfg)
            },
        },
{
    let class = match event {
        AttemptEvent::Response(s) => classify_status(s),
        AttemptEvent::NetworkError => FetchClass::Transient,
    };
    match class {
        FetchClass::Success => {
            let status = match event {
                AttemptEvent::Response(s) => s,
                AttemptEvent::NetworkError => 0,
            };
            StepAction::Finish(FetchOutcome::Success(status))
        },
        FetchClass::Fatal => {
            let status = match event {
                AttemptEvent::Response(s) => s,
                AttemptEvent::NetworkError => 0,
            };
            StepAction::Finish(FetchOutcome::FatalStatus(status))
        },
        FetchClass::Transient => {
            if state.attempts_made + 1 >= cfg.max_retries {
                StepAction::Finish(FetchOutcome::Exhausted)
            } else {
                let waited = state.current_delay;
                let ghost n = state.attempts_made as nat;
                proof {
                    lemma_pow_positive(cfg.factor as int, n);
                    assert(cfg.base_delay * spec_pow(cfg.factor as int, (n + 1) as nat) == (
                    cfg.base_delay * spec_pow(cfg.factor as int, n)) * cfg.factor)
                        by (nonlinear_arith)
                        requires
                            spec_pow(cfg.factor as int, (n + 1) as nat) == cfg.factor as int
                                * spec_pow(cfg.factor as int, n),
                    ;
                    lemma_delay_mono(*cfg, (n + 1) as nat, cfg.max_retries as nat);
                }
                state.attempts_made = state.attempts_made + 1;
                state.current_delay = state.current_delay * cfg.factor;
                StepAction::Backoff(waited)
            }
        },
    }
}

/// The outcome of a fetch call whose successive attempt results are the
/// prefix of `events`, with `budget` attempts still allowed.
pub open spec fn spec_outcome(events: Seq<AttemptEvent>, budget: nat) -> FetchOutcome
    recommends
        1 <= budget <= events.len(),
    decreases budget,
{
    if events.len() == 0 || budget == 0 {
        FetchOutcome::Exhausted
    } else {
        match classify_event(events.first()) {
            FetchClass::Success => FetchOutcome::Success(event_status(events.first())),
            FetchClass::Fatal => FetchOutcome::FatalStatus(event_status(events.first())),
            FetchClass::Transient => if budget == 1 {
                FetchOutcome::Exhausted
            } else {
                spec_outcome(events.drop_first(), (budget - 1) as nat)
            },
        }
    }
}

/// How many attempts a fetch call with `budget` attempts allowed makes over
/// the prefix of `events`.
pub open spec fn spec_attempts(events: Seq<AttemptEvent>, budget: nat) -> nat
    recommends
        1 <= budget <= events.len(),
    decreases budget,
{
    if events.len() == 0 || budget == 0 {
        0
    } else {
        match classify_event(events.first()) {
            FetchClass::Transient => if budget == 1 {
                1
            } else {
                (1 + spec_attempts(events.drop_first(), (budget - 1) as nat)) as nat
            },
            _ => 1,
        }
    }
}

/// Everything one replayed fetch call did: its outcome, how many attempts it
/// made, and the delays it waited between attempts, in order.
pub struct RetryRun {
    pub outcome: FetchOutcome,
    pub attempts: u32,
    pub delays: Vec<u64>,
}

/// Replays one fetch call of the retry state machine over a recorded
/// sequence of attempt results. The outcome and attempt count follow the
/// machine exactly, and the delay waited before the (n+1)-th retry is
/// `base_delay * factor^n`: deterministic, with no jitter.
pub fn run_retry(events: &Vec<AttemptEvent>, cfg: &RetryConfig) -> (r: RetryRun)
    requires
        cfg.wf(),
        events@.len() >= cfg.max_retries,
    ensures
        r.outcome == spec_outcome(events@, cfg.max_retries as nat),
        r.attempts == spec_attempts(events@, cfg.max_retries as nat),
        1 <= r.attempts <= cfg.max_retries,
        r.delays@.len() == r.attempts - 1,
        forall|n: int| 0 <= n < r.delays@.len() ==> r.delays@[n] as int == cfg.spec_delay(n as nat),
{
    let ghost max = cfg.max_retries as nat;
    let mut state = RetryState::new(cfg);
    let mut delays: Vec<u64> = Vec::new();
    let mut i: u32 = 0;
    proof {
        assert(events@.skip(0) =~= events@);
    }
    loop
        invariant
            max == cfg.max_retries as nat,
            cfg.wf(),
            events@.len() >= cfg.max_retries,
            state.wf(*cfg),
            state.attempts_made == i,
            i < cfg.max_retries,
            delays@.len() == i,
            forall|n: int| 0 <= n < i ==> delays@[n] as int == cfg.spec_delay(n as nat),
            spec_outcome(events@, max) == spec_outcome(
                events@.skip(i as int),
                (max - i) as nat,
            ),
            spec_attempts(events@, max) == i + spec_attempts(
                events@.skip(i as int),
                (max - i) as nat,
            ),
        decreases cfg.max_retries - i,
    {
        let e = events[i as usize];
        proof {
            assert(events@.skip(i as int)[0] == events@[i as int]);
            assert(events@.skip(i as int).len() == events@.len() - i);
        }
        let a = retry_step(&mut state, cfg, e);
        match a {
            StepAction::Finish(outcome) => {
                proof {
                    let se = events@.skip(i as int);
                    let budget = (max - i) as nat;
                    assert(se.len() == events@.len() - i);
                    assert(se.len() > 0);
                    assert(budget >= 1);
                    assert(se.first() == e);
                    match classify_event(e) {
                        FetchClass::Success => {
                            assert(spec_outcome(se, budget) == FetchOutcome::Success(
                                event_status(e),
                            ));
                            assert(spec_attempts(se, budget) == 1);
                        },
                        FetchClass::Fatal => {
                            assert(spec_outcome(se, budget) == FetchOutcome::FatalStatus(
                                event_status(e),
                            ));
                            assert(spec_attempts(se, budget) == 1);
                        },
                        FetchClass::Transient => {
                            assert(i + 1 == cfg.max_retries);
                            assert(budget == 1);
                            assert(spec_outcome(se, budget) == FetchOutcome::Exhausted);
                            assert(spec_attempts(se, budget) == 1);
                        },
                    }
                }
                return RetryRun { outcome, attempts: i + 1, delays };
            },
            StepAction::Backoff(_d) => {
                delays.push(_d);
                proof {
                    assert(events@.skip(i as int).drop_first() =~= events@.skip(i as int + 1));
                }
                i = i + 1;
            },
        }
    }
}

/// Law (retry ceiling): when every attempt fails transiently, a fetch call
/// makes exactly its allowed number of attempts, never more, and reports
/// exhaustion.
pub proof fn lemma_retry_ceiling(events: Seq<AttemptEvent>, budget: nat)
    requires
        1 <= budget <= events.len(),
        forall|j: int| 0 <= j < events.len() ==> classify_event(#[trigger] events[j])
            is Transient,
    ensures
        spec_outcome(events, budget) == FetchOutcome::Exhausted,
        spec_attempts(events, budget) == budget,
    decreases budget,
{
    assert(classify_event(events[0]) is Transient);
    if budget > 1 {
        let rest = events.drop_first();
        assert forall|j: int| 0 <= j < rest.len() implies classify_event(#[trigger] rest[j])
            is Transient by {
            assert(rest[j] == events[j + 1]);
        }
        lemma_retry_ceiling(rest, (budget - 1) as nat);
    }
}

/// Law (fatal short-circuit): an attempt answered by a fatal status ends the
/// call at exactly one attempt, reporting that status, with no retry.
pub proof fn lemma_fatal_short_circuit(events: Seq<AttemptEvent>, budget: nat, s: u16)
    requires
        1 <= budget <= events.len(),
        events[0] == AttemptEvent::Response(s),
        spec_classify(s) is Fatal,
    ensures
        spec_outcome(events, budget) == FetchOutcome::FatalStatus(s),
        spec_attempts(events, budget) == 1,
{
}

/// The default retry policy: five attempts, starting at one time unit of
/// delay and doubling after each transient failure.
pub fn default_config() -> (c: RetryConfig)
    ensures
        c.max_retries == MAX_RETRIES,
        c.base_delay == BASE_DELAY,
        c.factor == RETRY_DELAY_MULTIPLIER,
        c.wf(),
{
    let c = RetryConfig {
        max_retries: MAX_RETRIES,
        base_delay: BASE_DELAY,
        factor: RETRY_DELAY_MULTIPLIER,
    };
    proof {
        assert(c.spec_delay(5) == 32) by {
            assert(c.factor == 2);
            assert(c.base_delay == 1);
            assert(spec_pow(2, 0) == 1);
            assert(spec_pow(2, 1) == 2);
            assert(spec_pow(2, 2) == 4);
            assert(spec_pow(2, 3) == 8);
            assert(spec_pow(2, 4) == 16);
            assert(spec_pow(2, 5) == 32);
        }
    }
    c
}

} // verus!
