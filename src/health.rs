//! Health verification: an initial settling delay, then a bounded number of
//! liveness probes separated by a fixed delay.

use vstd::prelude::*;

verus! {

/// Probes spent on a freshly launched worker.
pub const DEFAULT_ATTEMPTS: u32 = 15;

/// Time limit of one probe, in milliseconds.
pub const PROBE_TIMEOUT_MS: u64 = 2000;

/// Pause between two failed probes, in milliseconds.
pub const RETRY_DELAY_MS: u64 = 1000;

/// Pause before the first probe, letting the worker start listening.
pub const INITIAL_DELAY_MS: u64 = 1500;

/// Parameters of one health verification.
#[derive(Clone, Copy, Debug, PartialEq, Eq, Structural)]
pub struct HealthConfig {
    pub attempts: u32,
    pub timeout_ms: u64,
    pub retry_delay_ms: u64,
    pub initial_delay_ms: u64,
}

impl HealthConfig {
    /// The parameters used for a worker launched by the supervisor.
    pub fn standard() -> (r: HealthConfig)
        ensures
            r.attempts == DEFAULT_ATTEMPTS,
            r.timeout_ms == PROBE_TIMEOUT_MS,
            r.retry_delay_ms == RETRY_DELAY_MS,
            r.initial_delay_ms == INITIAL_DELAY_MS,
    {
        HealthConfig {
            attempts: DEFAULT_ATTEMPTS,
            timeout_ms: PROBE_TIMEOUT_MS,
            retry_delay_ms: RETRY_DELAY_MS,
            initial_delay_ms: INITIAL_DELAY_MS,
        }
    }
}

/// What one probe of `GET /health` observed.
#[derive(Clone, Copy, Debug, PartialEq, Eq, Structural)]
pub enum ProbeOutcome {
    /// The worker answered with this HTTP status code.
    Responded(u16),
    /// No answer: connection refused, timeout or another transport failure.
    Unreachable,
}

/// Whether an HTTP status code is in the success class.
pub open spec fn is_success_status(code: u16) -> bool {
    200 <= code && code < 300
}

/// Whether a probe found the worker healthy.
pub open spec fn probe_ok(o: ProbeOutcome) -> bool {
    match o {
        ProbeOutcome::Responded(code) => is_success_status(code),
        ProbeOutcome::Unreachable => false,
    }
}

/// Classifies a probe outcome.
pub fn is_healthy(o: ProbeOutcome) -> (r: bool)
    ensures
        r == probe_ok(o),
{
    match o {
        ProbeOutcome::Responded(code) => 200 <= code && code < 300,
        ProbeOutcome::Unreachable => false,
    }
}

/// Why a health verification gave up.
#[derive(Clone, Copy, Debug, PartialEq, Eq, Structural)]
pub enum FailureReason {
    /// The last probe got an answer, but not a successful one.
    BadStatus,
    /// The last probe got no answer at all.
    Unreachable,
    /// The configuration allowed no probe.
    NoAttempts,
}

/// The reason recorded when a failed probe is the last one allowed.
pub open spec fn reason_of(o: ProbeOutcome) -> FailureReason {
    match o {
        ProbeOutcome::Responded(_) => FailureReason::BadStatus,
        ProbeOutcome::Unreachable => FailureReason::Unreachable,
    }
}

/// Where a health verification stands.
#[derive(Clone, Copy, Debug, PartialEq, Eq, Structural)]
pub enum HealthPhase {
    /// Waiting out the initial delay.
    WaitingInitial,
    /// A probe is in flight; `remaining` counts it and the ones still allowed.
    Probing { remaining: u32 },
    /// Waiting out the delay after a failed probe.
    Backoff { remaining: u32 },
    /// A probe succeeded.
    Healthy,
    /// The probe budget is spent.
    Unhealthy(FailureReason),
}

/// What the driver of a health verification must do next.
#[derive(Clone, Copy, Debug, PartialEq, Eq, Structural)]
pub enum HealthStep {
    /// Sleep this many milliseconds, then report it.
    Sleep(u64),
    /// Probe the worker with this time limit in milliseconds, then report the outcome.
    Probe(u64),
    /// Done: the worker is healthy.
    Healthy,
    /// Done: the worker is not healthy.
    Unhealthy(FailureReason),
}

/// The request that belongs to each phase.
pub open spec fn request(cfg: HealthConfig, p: HealthPhase) -> HealthStep {
    match p {
        HealthPhase::WaitingInitial => HealthStep::Sleep(cfg.initial_delay_ms),
        HealthPhase::Probing { .. } => HealthStep::Probe(cfg.timeout_ms),
        HealthPhase::Backoff { .. } => HealthStep::Sleep(cfg.retry_delay_ms),
        HealthPhase::Healthy => HealthStep::Healthy,
        HealthPhase::Unhealthy(r) => HealthStep::Unhealthy(r),
    }
}

/// The phase after a requested sleep is over.
pub open spec fn after_sleep(cfg: HealthConfig, p: HealthPhase) -> HealthPhase {
    match p {
        HealthPhase::WaitingInitial => if cfg.attempts == 0 {
            HealthPhase::Unhealthy(FailureReason::NoAttempts)
        } else {
            HealthPhase::Probing { remaining: cfg.attempts }
        },
        HealthPhase::Backoff { remaining } => HealthPhase::Probing { remaining },
        _ => p,
    }
}

/// The phase after a probe with `remaining` attempts (this one included) observed `o`.
pub open spec fn after_probe_outcome(remaining: u32, o: ProbeOutcome) -> HealthPhase {
    if probe_ok(o) {
        HealthPhase::Healthy
    } else if remaining <= 1 {
        HealthPhase::Unhealthy(reason_of(o))
    } else {
        HealthPhase::Backoff { remaining: (remaining - 1) as u32 }
    }
}

/// The phase after a probe reported `o`.
pub open spec fn after_probe(p: HealthPhase, o: ProbeOutcome) -> HealthPhase {
    match p {
        HealthPhase::Probing { remaining } => after_probe_outcome(remaining, o),
        _ => p,
    }
}

/// Orders the phases so that every sleep leads closer to a probe or an end.
pub open spec fn phase_rank(p: HealthPhase) -> nat {
    match p {
        HealthPhase::WaitingInitial => 2,
        HealthPhase::Backoff { .. } => 1,
        _ => 0,
    }
}

/// The milliseconds that the driver sleeps in phase `p`.
pub open spec fn sleep_in(cfg: HealthConfig, p: HealthPhase) -> nat {
    match request(cfg, p) {
        HealthStep::Sleep(ms) => ms as nat,
        _ => 0,
    }
}

/// Drives a verification from phase `p`, answering the probes with `outcomes`
/// in order. Gives the phase reached when the verification ends or the
/// outcomes run out, the probes spent and the milliseconds slept.
pub open spec fn drive(cfg: HealthConfig, p: HealthPhase, outcomes: Seq<ProbeOutcome>) -> (
    HealthPhase,
    nat,
    nat,
)
    decreases outcomes.len(), phase_rank(p),
{
    match p {
        HealthPhase::WaitingInitial => {
            let r = drive(cfg, after_sleep(cfg, p), outcomes);
            (r.0, r.1, r.2 + sleep_in(cfg, p))
        },
        HealthPhase::Backoff { .. } => {
            let r = drive(cfg, after_sleep(cfg, p), outcomes);
            (r.0, r.1, r.2 + sleep_in(cfg, p))
        },
        HealthPhase::Probing { .. } => {
            if outcomes.len() == 0 {
                (p, 0, 0)
            } else {
                let r = drive(cfg, after_probe(p, outcomes[0]), outcomes.drop_first());
                (r.0, r.1 + 1, r.2)
            }
        },
        _ => (p, 0, 0),
    }
}

/// One health verification in progress.
#[derive(Clone, Copy, Debug, PartialEq, Eq, Structural)]
pub struct HealthCheck {
    pub config: HealthConfig,
    pub phase: HealthPhase,
}

impl HealthCheck {
    /// A verification that has not yet waited its initial delay.
    pub fn new(config: HealthConfig) -> (r: HealthCheck)
        ensures
            r.config == config,
            r.phase == HealthPhase::WaitingInitial,
    {
        HealthCheck { config, phase: HealthPhase::WaitingInitial }
    }

    /// What the driver must do in the current phase.
    pub fn next_step(&self) -> (r: HealthStep)
        ensures
            r == request(self.config, self.phase),
    {
        match self.phase {
            HealthPhase::WaitingInitial => HealthStep::Sleep(self.config.initial_delay_ms),
            HealthPhase::Probing { .. } => HealthStep::Probe(self.config.timeout_ms),
            HealthPhase::Backoff { .. } => HealthStep::Sleep(self.config.retry_delay_ms),
            HealthPhase::Healthy => HealthStep::Healthy,
            HealthPhase::Unhealthy(r) => HealthStep::Unhealthy(r),
        }
    }

    /// The driver finished a requested sleep. Outside a sleeping phase nothing changes.
    pub fn on_slept(&mut self) -> (r: HealthStep)
        ensures
            final(self).config == old(self).config,
            final(self).phase == after_sleep(old(self).config, old(self).phase),
            r == request(final(self).config, final(self).phase),
    {
        match self.phase {
            HealthPhase::WaitingInitial => {
                if self.config.attempts == 0 {
                    self.phase = HealthPhase::Unhealthy(FailureReason::NoAttempts);
                } else {
                    self.phase = HealthPhase::Probing { remaining: self.config.attempts };
                }
            },
            HealthPhase::Backoff { remaining } => {
                self.phase = HealthPhase::Probing { remaining };
            },
            _ => {},
        }
        self.next_step()
    }

    /// The driver reports the outcome of a probe. Outside a probing phase nothing changes.
    pub fn on_probe(&mut self, o: ProbeOutcome) -> (r: HealthStep)
        ensures
            final(self).config == old(self).config,
            final(self).phase == after_probe(old(self).phase, o),
            r == request(final(self).config, final(self).phase),
    {
        if let HealthPhase::Probing { remaining } = self.phase {
            if is_healthy(o) {
                self.phase = HealthPhase::Healthy;
            } else if remaining <= 1 {
                self.phase = HealthPhase::Unhealthy(
                    match o {
                        ProbeOutcome::Responded(_) => FailureReason::BadStatus,
                        ProbeOutcome::Unreachable => FailureReason::Unreachable,
                    },
                );
            } else {
                self.phase = HealthPhase::Backoff { remaining: remaining - 1 };
            }
        }
        self.next_step()
    }
}

proof fn probing_until_success(cfg: HealthConfig, remaining: u32, outcomes: Seq<ProbeOutcome>, k: nat)
    requires
        1 <= k <= remaining,
        k <= outcomes.len(),
        forall|i: int| 0 <= i < k - 1 ==> !probe_ok(#[trigger] outcomes[i]),
        probe_ok(outcomes[k - 1]),
    ensures
        drive(cfg, HealthPhase::Probing { remaining }, outcomes) == (
            HealthPhase::Healthy,
            k,
            ((k - 1) * cfg.retry_delay_ms) as nat,
        ),
    decreases k,
{
    let p = HealthPhase::Probing { remaining };
    let nx = after_probe(p, outcomes[0]);
    assert(drive(cfg, p, outcomes) == (
        drive(cfg, nx, outcomes.drop_first()).0,
        drive(cfg, nx, outcomes.drop_first()).1 + 1,
        drive(cfg, nx, outcomes.drop_first()).2,
    ));
    if k == 1 {
        assert(after_probe(p, outcomes[0]) == HealthPhase::Healthy);
        assert(drive(cfg, HealthPhase::Healthy, outcomes.drop_first()) == (
            HealthPhase::Healthy,
            0nat,
            0nat,
        ));
        assert((k - 1) * cfg.retry_delay_ms == 0) by (nonlinear_arith)
            requires
                k == 1,
        ;
    } else {
        assert(!probe_ok(outcomes[0]));
        let rest = outcomes.drop_first();
        let q = HealthPhase::Backoff { remaining: (remaining - 1) as u32 };
        assert(after_probe(p, outcomes[0]) == q);
        assert forall|i: int| 0 <= i < (k - 1) - 1 implies !probe_ok(#[trigger] rest[i]) by {
            assert(rest[i] == outcomes[i + 1]);
        }
        probing_until_success(cfg, (remaining - 1) as u32, rest, (k - 1) as nat);
        let pr = HealthPhase::Probing { remaining: (remaining - 1) as u32 };
        assert(after_sleep(cfg, q) == pr);
        assert(drive(cfg, q, rest) == (
            drive(cfg, pr, rest).0,
            drive(cfg, pr, rest).1,
            (drive(cfg, pr, rest).2 + cfg.retry_delay_ms) as nat,
        ));
        assert((k - 1) * cfg.retry_delay_ms == (k - 2) * cfg.retry_delay_ms + cfg.retry_delay_ms)
            by (nonlinear_arith)
            requires
                k >= 2,
        ;
        assert((k - 2) * cfg.retry_delay_ms >= 0) by (nonlinear_arith)
            requires
                k >= 2,
        ;
    }
}

/// A verification whose first `k - 1` probes fail and whose `k`-th succeeds,
/// within the budget, ends healthy after exactly `k` probes, having slept the
/// initial delay plus `k - 1` retry delays; the probe time limit plays no part.
pub proof fn healthy_on_attempt(cfg: HealthConfig, outcomes: Seq<ProbeOutcome>, k: nat)
    requires
        1 <= k <= cfg.attempts,
        k <= outcomes.len(),
        forall|i: int| 0 <= i < k - 1 ==> !probe_ok(#[trigger] outcomes[i]),
        probe_ok(outcomes[k - 1]),
    ensures
        drive(cfg, HealthPhase::WaitingInitial, outcomes) == (
            HealthPhase::Healthy,
            k,
            (cfg.initial_delay_ms + (k - 1) * cfg.retry_delay_ms) as nat,
        ),
{
    probing_until_success(cfg, cfg.attempts, outcomes, k);
}

proof fn probing_unreachable(cfg: HealthConfig, remaining: u32, outcomes: Seq<ProbeOutcome>)
    requires
        1 <= remaining,
        remaining <= outcomes.len(),
        forall|i: int| 0 <= i < remaining ==> #[trigger] outcomes[i] == ProbeOutcome::Unreachable,
    ensures
        drive(cfg, HealthPhase::Probing { remaining }, outcomes) == (
            HealthPhase::Unhealthy(FailureReason::Unreachable),
            remaining as nat,
            ((remaining - 1) * cfg.retry_delay_ms) as nat,
        ),
    decreases remaining,
{
    let p = HealthPhase::Probing { remaining };
    let nx = after_probe(p, outcomes[0]);
    assert(drive(cfg, p, outcomes) == (
        drive(cfg, nx, outcomes.drop_first()).0,
        drive(cfg, nx, outcomes.drop_first()).1 + 1,
        drive(cfg, nx, outcomes.drop_first()).2,
    ));
    assert(outcomes[0] == ProbeOutcome::Unreachable);
    if remaining == 1 {
        let u = HealthPhase::Unhealthy(FailureReason::Unreachable);
        assert(after_probe(p, outcomes[0]) == u);
        assert(drive(cfg, u, outcomes.drop_first()) == (u, 0nat, 0nat));
        assert((remaining - 1) * cfg.retry_delay_ms == 0) by (nonlinear_arith)
            requires
                remaining == 1,
        ;
    } else {
        let rest = outcomes.drop_first();
        assert forall|i: int| 0 <= i < remaining - 1 implies #[trigger] rest[i]
            == ProbeOutcome::Unreachable by {
            assert(rest[i] == outcomes[i + 1]);
        }
        probing_unreachable(cfg, (remaining - 1) as u32, rest);
        let q = HealthPhase::Backoff { remaining: (remaining - 1) as u32 };
        let pr = HealthPhase::Probing { remaining: (remaining - 1) as u32 };
        assert(after_probe(p, outcomes[0]) == q);
        assert(after_sleep(cfg, q) == pr);
        assert(drive(cfg, q, rest) == (
            drive(cfg, pr, rest).0,
            drive(cfg, pr, rest).1,
            (drive(cfg, pr, rest).2 + cfg.retry_delay_ms) as nat,
        ));
        assert((remaining - 1) * cfg.retry_delay_ms == (remaining - 2) * cfg.retry_delay_ms
            + cfg.retry_delay_ms) by (nonlinear_arith)
            requires
                remaining >= 2,
        ;
        assert((remaining - 2) * cfg.retry_delay_ms >= 0) by (nonlinear_arith)
            requires
                remaining >= 2,
        ;
    }
}

/// Against a worker that never answers, a verification spends exactly its
/// whole probe budget and ends unhealthy for want of an answer, never for a
/// bad status; it sleeps the initial delay and one retry delay between each
/// two probes, none after the last.
pub proof fn unreachable_exhausts_budget(cfg: HealthConfig, outcomes: Seq<ProbeOutcome>)
    requires
        1 <= cfg.attempts,
        cfg.attempts <= outcomes.len(),
        forall|i: int| 0 <= i < outcomes.len() ==> #[trigger] outcomes[i] == ProbeOutcome::Unreachable,
    ensures
        drive(cfg, HealthPhase::WaitingInitial, outcomes) == (
            HealthPhase::Unhealthy(FailureReason::Unreachable),
            cfg.attempts as nat,
            (cfg.initial_delay_ms + (cfg.attempts - 1) * cfg.retry_delay_ms) as nat,
        ),
{
    probing_unreachable(cfg, cfg.attempts, outcomes);
}

} // verus!
