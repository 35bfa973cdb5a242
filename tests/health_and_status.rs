use lightbot::health::{
    is_healthy, FailureReason, HealthCheck, HealthConfig, HealthPhase, HealthStep, ProbeOutcome,
};
use lightbot::status::{Outcome, SidecarStatus};

/// Drives a health check against scripted outcomes; returns the final step,
/// the probes spent and the milliseconds slept.
fn simulate(cfg: HealthConfig, outcomes: &[ProbeOutcome]) -> (HealthStep, usize, u64) {
    let mut hc = HealthCheck::new(cfg);
    let mut step = hc.next_step();
    let mut probes = 0usize;
    let mut slept = 0u64;
    loop {
        match step {
            HealthStep::Sleep(ms) => {
                slept += ms;
                step = hc.on_slept();
            }
            HealthStep::Probe(_) => {
                let o = outcomes[probes];
                probes += 1;
                step = hc.on_probe(o);
            }
            done => return (done, probes, slept),
        }
    }
}

#[test]
fn standard_config_values() {
    let c = HealthConfig::standard();
    assert_eq!(c.attempts, 15);
    assert_eq!(c.timeout_ms, 2000);
    assert_eq!(c.retry_delay_ms, 1000);
    assert_eq!(c.initial_delay_ms, 1500);
}

#[test]
fn success_classification() {
    assert!(is_healthy(ProbeOutcome::Responded(200)));
    assert!(is_healthy(ProbeOutcome::Responded(204)));
    assert!(!is_healthy(ProbeOutcome::Responded(199)));
    assert!(!is_healthy(ProbeOutcome::Responded(300)));
    assert!(!is_healthy(ProbeOutcome::Responded(503)));
    assert!(!is_healthy(ProbeOutcome::Unreachable));
}

#[test]
fn healthy_on_third_attempt_takes_initial_plus_two_delays() {
    let outcomes = [
        ProbeOutcome::Unreachable,
        ProbeOutcome::Responded(503),
        ProbeOutcome::Responded(200),
    ];
    let r = simulate(HealthConfig::standard(), &outcomes);
    assert_eq!(r, (HealthStep::Healthy, 3, 1500 + 2 * 1000));
    let mut other = HealthConfig::standard();
    other.timeout_ms = 9;
    assert_eq!(simulate(other, &outcomes), r);
}

#[test]
fn healthy_on_first_attempt_sleeps_only_initially() {
    let r = simulate(HealthConfig::standard(), &[ProbeOutcome::Responded(200)]);
    assert_eq!(r, (HealthStep::Healthy, 1, 1500));
}

#[test]
fn unreachable_worker_exhausts_all_attempts() {
    let outcomes = vec![ProbeOutcome::Unreachable; 20];
    let r = simulate(HealthConfig::standard(), &outcomes);
    assert_eq!(r, (HealthStep::Unhealthy(FailureReason::Unreachable), 15, 1500 + 14 * 1000));
}

#[test]
fn bad_status_on_last_attempt_is_reported() {
    let mut outcomes = vec![ProbeOutcome::Unreachable; 14];
    outcomes.push(ProbeOutcome::Responded(500));
    let r = simulate(HealthConfig::standard(), &outcomes);
    assert_eq!(r, (HealthStep::Unhealthy(FailureReason::BadStatus), 15, 1500 + 14 * 1000));
}

#[test]
fn zero_attempts_fail_without_probing() {
    let mut cfg = HealthConfig::standard();
    cfg.attempts = 0;
    let r = simulate(cfg, &[]);
    assert_eq!(r, (HealthStep::Unhealthy(FailureReason::NoAttempts), 0, 1500));
}

#[test]
fn events_outside_their_phase_change_nothing() {
    let mut hc = HealthCheck::new(HealthConfig::standard());
    assert_eq!(hc.on_probe(ProbeOutcome::Responded(200)), HealthStep::Sleep(1500));
    assert_eq!(hc.phase, HealthPhase::WaitingInitial);
    assert_eq!(hc.on_slept(), HealthStep::Probe(2000));
    assert_eq!(hc.on_slept(), HealthStep::Probe(2000));
    assert_eq!(hc.phase, HealthPhase::Probing { remaining: 15 });
}

#[test]
fn pending_status_reports_not_started() {
    let s = SidecarStatus::new();
    assert!(s.is_pending());
    assert_eq!(s.get_sidecar_status(), Err("Sidecar not started yet".to_string()));
}

#[test]
fn first_publication_wins() {
    let mut s = SidecarStatus::new();
    assert!(s.publish(Outcome::Running { port: 4242, spawned: true }));
    assert!(!s.publish(Outcome::Failed("late".to_string())));
    assert_eq!(s.get_sidecar_status(), Ok(4242));
    let mut f = SidecarStatus::new();
    assert!(f.publish(Outcome::Failed("broken".to_string())));
    assert_eq!(f.get_sidecar_status(), Err("broken".to_string()));
}

#[test]
fn published_status_reads_identically_a_thousand_times() {
    let mut s = SidecarStatus::new();
    s.publish(Outcome::Failed("gone".to_string()));
    let first = s.get_sidecar_status();
    for _ in 0..1000 {
        assert_eq!(s.get_sidecar_status(), first);
    }
    let shared = std::sync::Arc::new(std::sync::Mutex::new(s));
    let reads: Vec<_> = (0..1000).map(|_| shared.lock().unwrap().get_sidecar_status()).collect();
    assert!(reads.iter().all(|r| *r == first));
}
