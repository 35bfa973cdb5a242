//! The supervision sequence as a state machine: resolve the port, locate and
//! launch the worker, verify its health, and end in one terminal outcome.
//! The host performs each requested action and reports back an event.

use vstd::prelude::*;
use crate::health::{
    after_probe, after_sleep, request, FailureReason, HealthCheck, HealthConfig, HealthPhase,
    HealthStep, ProbeOutcome, probe_ok, is_healthy, INITIAL_DELAY_MS, PROBE_TIMEOUT_MS,
    DEFAULT_ATTEMPTS, RETRY_DELAY_MS,
};
use crate::locator::{
    candidate_paths, candidates_spec, first_existing, is_first_existing, sidecar_triple_name,
    triple_name, views, SearchRoots,
};
use crate::port::{manual_port, manual_port_of, pick_unused_port};
use crate::status::Outcome;
use crate::text::{
    manual_unreachable_message, manual_unreachable_text, not_found_message, not_found_text,
    spawn_failure_message, spawn_failure_text,
};

verus! {

/// Appends a line to a diagnostics buffer that the host writes to its log file.
pub fn log_to_file(log: &mut Vec<String>, msg: &str)
    ensures
        views(final(log)@) == views(old(log)@).push(msg@),
{
    log.push(String::from_str(msg));
    assert(views(final(log)@) =~= views(old(log)@).push(msg@));
}

/// Where supervision stands.
#[derive(Clone, Copy, Debug, PartialEq, Eq, Structural)]
pub enum Phase {
    /// Waiting for the single probe of a manually pinned worker.
    VerifyingManual,
    /// Waiting for the existence of every candidate path.
    Locating,
    /// Waiting for the spawn of the candidate at `index`.
    Launching { index: usize },
    /// Verifying the health of the launched worker.
    Checking(HealthCheck),
    /// An outcome was handed out; nothing more happens.
    Finished,
}

/// What the host must do next.
#[derive(Debug)]
pub enum Action {
    /// Probe `GET /health` on `port` within `timeout_ms`, then report `Probed`.
    Probe { port: u16, timeout_ms: u64 },
    /// Check which of the supervisor's candidate paths exist, then report `Existence`.
    CheckCandidates,
    /// Start the binary at `path` with `--port <port>`, then report `Spawned` or `SpawnFailed`.
    Spawn { path: String, port: u16 },
    /// Sleep `ms` milliseconds, then report `Slept`.
    Sleep { ms: u64 },
    /// Publish this outcome and notify observers; supervision is over.
    Finish(Outcome),
    /// Nothing to do: the event did not fit the current phase.
    Wait,
}

/// What the host reports after performing an action.
#[derive(Debug)]
pub enum Event {
    /// A health probe observed this.
    Probed(ProbeOutcome),
    /// Whether each candidate path exists, in the order of the candidates.
    Existence(Vec<bool>),
    /// The worker process was started.
    Spawned,
    /// The operating system refused to start the worker, with its message.
    SpawnFailed(String),
    /// A requested sleep is over.
    Slept,
}

/// The state of one supervision run.
pub struct Supervisor {
    /// The port the worker uses.
    pub port: u16,
    /// The candidate paths of the worker binary, highest priority first.
    pub candidates: Vec<String>,
    /// The development path that the not-found error names.
    pub expected: String,
    /// Where supervision stands.
    pub phase: Phase,
    /// Diagnostic lines for the host's log.
    pub diagnostics: Vec<String>,
}

/// The error text for a health verification that gave up.
pub open spec fn health_failure_text(r: FailureReason) -> Seq<char> {
    match r {
        FailureReason::BadStatus => "Sidecar health check failed - /health not returning success"@,
        FailureReason::Unreachable => "Sidecar health check failed - server not responding"@,
        FailureReason::NoAttempts => "Failed to start sidecar"@,
    }
}

fn health_failure_message(r: FailureReason) -> (m: String)
    ensures
        m@ == health_failure_text(r),
{
    match r {
        FailureReason::BadStatus => String::from_str(
            "Sidecar health check failed - /health not returning success",
        ),
        FailureReason::Unreachable => String::from_str(
            "Sidecar health check failed - server not responding",
        ),
        FailureReason::NoAttempts => String::from_str("Failed to start sidecar"),
    }
}

/// The error text when no free port can be had.
pub open spec fn no_port_text() -> Seq<char> {
    "No available port"@
}

/// The health parameters for a launched worker.
pub open spec fn standard_config() -> HealthConfig {
    HealthConfig {
        attempts: DEFAULT_ATTEMPTS,
        timeout_ms: PROBE_TIMEOUT_MS,
        retry_delay_ms: RETRY_DELAY_MS,
        initial_delay_ms: INITIAL_DELAY_MS,
    }
}

/// Whether `a` finishes with a failure whose message is `text`.
pub open spec fn fails_with(a: Action, text: Seq<char>) -> bool {
    a matches Action::Finish(Outcome::Failed(m)) && m@ == text
}

/// The diagnostics after `a`: a failure's message is logged, nothing else is.
pub open spec fn logs(before: Vec<String>, after: Vec<String>, a: Action) -> bool {
    match a {
        Action::Finish(Outcome::Failed(m)) => views(after@) == views(before@).push(m@),
        _ => views(after@) == views(before@),
    }
}

/// `t` is `s` unchanged and nothing is requested.
pub open spec fn ignored(s: Supervisor, t: Supervisor, a: Action) -> bool {
    t.phase == s.phase && a is Wait
}

/// The health check part of a step: the check moved to `hc`, and the step it
/// requests becomes the supervisor's action.
pub open spec fn checking_step(s: Supervisor, hc: HealthCheck, t: Supervisor, a: Action) -> bool {
    match request(hc.config, hc.phase) {
        HealthStep::Sleep(ms) => t.phase == Phase::Checking(hc) && a == (Action::Sleep { ms }),
        HealthStep::Probe(timeout_ms) => t.phase == Phase::Checking(hc) && a == (Action::Probe {
            port: s.port,
            timeout_ms,
        }),
        HealthStep::Healthy => t.phase == Phase::Finished && a == Action::Finish(
            Outcome::Running { port: s.port, spawned: true },
        ),
        HealthStep::Unhealthy(r) => t.phase == Phase::Finished && fails_with(
            a,
            health_failure_text(r),
        ),
    }
}

/// `t` launches the first existing candidate according to `exists`, and `a` spawns it.
pub open spec fn spawns_first(s: Supervisor, exists: Seq<bool>, t: Supervisor, a: Action) -> bool {
    &&& t.phase matches Phase::Launching { index } && is_first_existing(exists, index as int)
    &&& a matches Action::Spawn { path, port } && port == s.port
    &&& t.phase matches Phase::Launching { index } && a matches Action::Spawn { path, .. }
        && path@ == s.candidates@[index as int]@
}

/// One step of supervision: from `s`, event `ev` leads to `t` and action `a`.
pub open spec fn transition(s: Supervisor, ev: Event, t: Supervisor, a: Action) -> bool {
    &&& t.port == s.port
    &&& t.candidates == s.candidates
    &&& t.expected == s.expected
    &&& logs(s.diagnostics, t.diagnostics, a)
    &&& match s.phase {
        Phase::VerifyingManual => match ev {
            Event::Probed(o) => t.phase == Phase::Finished && if probe_ok(o) {
                a == Action::Finish(Outcome::Running { port: s.port, spawned: false })
            } else {
                fails_with(a, manual_unreachable_text(s.port))
            },
            _ => ignored(s, t, a),
        },
        Phase::Locating => match ev {
            Event::Existence(v) => if v@.len() != s.candidates@.len() {
                ignored(s, t, a)
            } else if exists|i: int| is_first_existing(v@, i) {
                spawns_first(s, v@, t, a)
            } else {
                t.phase == Phase::Finished && fails_with(a, not_found_text(s.expected@))
            },
            _ => ignored(s, t, a),
        },
        Phase::Launching { .. } => match ev {
            Event::Spawned => t.phase == Phase::Checking(
                HealthCheck { config: standard_config(), phase: HealthPhase::WaitingInitial },
            ) && a == (Action::Sleep { ms: INITIAL_DELAY_MS }),
            Event::SpawnFailed(os) => t.phase == Phase::Finished && fails_with(
                a,
                spawn_failure_text(os@),
            ),
            _ => ignored(s, t, a),
        },
        Phase::Checking(hc) => match ev {
            Event::Slept => checking_step(
                s,
                HealthCheck { config: hc.config, phase: after_sleep(hc.config, hc.phase) },
                t,
                a,
            ),
            Event::Probed(o) => checking_step(
                s,
                HealthCheck { config: hc.config, phase: after_probe(hc.phase, o) },
                t,
                a,
            ),
            _ => ignored(s, t, a),
        },
        Phase::Finished => ignored(s, t, a),
    }
}

/// `(s, a)` begins supervision of a worker pinned to `port`: one probe, no search.
pub open spec fn started_manual(s: Supervisor, a: Action, port: u16) -> bool {
    &&& s.port == port
    &&& s.phase == Phase::VerifyingManual
    &&& s.candidates@.len() == 0
    &&& views(s.diagnostics@).len() == 0
    &&& a == (Action::Probe { port, timeout_ms: PROBE_TIMEOUT_MS })
}

/// `(s, a)` begins supervision once the port allocation returned `picked`.
pub open spec fn started_auto(
    s: Supervisor,
    a: Action,
    picked: Option<u16>,
    roots: SearchRoots,
    arch: Seq<char>,
) -> bool {
    match picked {
        None => {
            &&& s.phase == Phase::Finished
            &&& fails_with(a, no_port_text())
            &&& views(s.diagnostics@) == seq![no_port_text()]
        },
        Some(port) => {
            &&& s.port == port
            &&& s.phase == Phase::Locating
            &&& views(s.candidates@) == candidates_spec(roots, arch)
            &&& s.expected@ == "src-tauri/bin/"@ + triple_name(arch)
            &&& views(s.diagnostics@).len() == 0
            &&& a is CheckCandidates
        },
    }
}

impl Supervisor {
    /// Begins supervision of a worker that someone else runs on `port`.
    pub fn start_manual(port: u16) -> (r: (Supervisor, Action))
        ensures
            started_manual(r.0, r.1, port),
    {
        let s = Supervisor {
            port,
            candidates: Vec::new(),
            expected: String::new(),
            phase: Phase::VerifyingManual,
            diagnostics: Vec::new(),
        };
        assert(views(s.diagnostics@) =~= Seq::<Seq<char>>::empty());
        (s, Action::Probe { port, timeout_ms: PROBE_TIMEOUT_MS })
    }

    /// Begins supervision of a worker that this run launches, given the
    /// outcome of the free-port allocation.
    pub fn start_auto(picked: Option<u16>, roots: &SearchRoots, arch: &str) -> (r: (
        Supervisor,
        Action,
    ))
        ensures
            started_auto(r.0, r.1, picked, *roots, arch@),
    {
        match picked {
            None => {
                let mut diagnostics: Vec<String> = Vec::new();
                let msg = String::from_str("No available port");
                assert(views(diagnostics@) =~= Seq::<Seq<char>>::empty());
                log_to_file(&mut diagnostics, msg.as_str());
                assert(views(diagnostics@) =~= seq![no_port_text()]);
                let s = Supervisor {
                    port: 0,
                    candidates: Vec::new(),
                    expected: String::new(),
                    phase: Phase::Finished,
                    diagnostics,
                };
                (s, Action::Finish(Outcome::Failed(msg)))
            },
            Some(port) => {
                let candidates = candidate_paths(roots, arch);
                let name = sidecar_triple_name(arch);
                let mut expected = String::from_str("src-tauri/bin/");
                expected.append(name.as_str());
                let s = Supervisor {
                    port,
                    candidates,
                    expected,
                    phase: Phase::Locating,
                    diagnostics: Vec::new(),
                };
                assert(views(s.diagnostics@) =~= Seq::<Seq<char>>::empty());
                (s, Action::CheckCandidates)
            },
        }
    }

    /// Begins supervision: a valid manual override pins the port and only its
    /// liveness is checked; otherwise a free port is allocated and the worker
    /// is searched for and launched.
    pub fn start(manual: &Option<String>, roots: &SearchRoots, arch: &str) -> (r: (
        Supervisor,
        Action,
    ))
        ensures
            match manual_port_of(*manual) {
                Some(port) => started_manual(r.0, r.1, port),
                None => exists|picked: Option<u16>| started_auto(r.0, r.1, picked, *roots, arch@),
            },
    {
        match manual_port(manual) {
            Some(port) => Supervisor::start_manual(port),
            None => {
                let picked = pick_unused_port();
                let r = Supervisor::start_auto(picked, roots, arch);
                assert(started_auto(r.0, r.1, picked, *roots, arch@));
                r
            },
        }
    }

    fn fail(&mut self, msg: String) -> (a: Action)
        ensures
            final(self).port == old(self).port,
            final(self).candidates == old(self).candidates,
            final(self).expected == old(self).expected,
            final(self).phase == Phase::Finished,
            a matches Action::Finish(Outcome::Failed(m)) && m@ == msg@,
            logs(old(self).diagnostics, final(self).diagnostics, a),
    {
        log_to_file(&mut self.diagnostics, msg.as_str());
        self.phase = Phase::Finished;
        Action::Finish(Outcome::Failed(msg))
    }

    fn follow_health(&mut self, hc: HealthCheck, step: HealthStep) -> (a: Action)
        requires
            step == request(hc.config, hc.phase),
        ensures
            final(self).port == old(self).port,
            final(self).candidates == old(self).candidates,
            final(self).expected == old(self).expected,
            logs(old(self).diagnostics, final(self).diagnostics, a),
            checking_step(*old(self), hc, *final(self), a),
    {
        match step {
            HealthStep::Sleep(ms) => {
                self.phase = Phase::Checking(hc);
                Action::Sleep { ms }
            },
            HealthStep::Probe(timeout_ms) => {
                self.phase = Phase::Checking(hc);
                Action::Probe { port: self.port, timeout_ms }
            },
            HealthStep::Healthy => {
                self.phase = Phase::Finished;
                Action::Finish(Outcome::Running { port: self.port, spawned: true })
            },
            HealthStep::Unhealthy(r) => {
                let m = health_failure_message(r);
                self.fail(m)
            },
        }
    }

    /// Advances supervision by one event and says what the host must do next.
    pub fn on_event(&mut self, ev: Event) -> (a: Action)
        ensures
            transition(*old(self), ev, *final(self), a),
    {
        match self.phase {
            Phase::VerifyingManual => match ev {
                Event::Probed(o) => {
                    if is_healthy(o) {
                        self.phase = Phase::Finished;
                        Action::Finish(Outcome::Running { port: self.port, spawned: false })
                    } else {
                        let m = manual_unreachable_message(self.port);
                        self.fail(m)
                    }
                },
                _ => Action::Wait,
            },
            Phase::Locating => match ev {
                Event::Existence(v) => {
                    if v.len() != self.candidates.len() {
                        Action::Wait
                    } else {
                        match first_existing(&v) {
                            Some(i) => {
                                self.phase = Phase::Launching { index: i };
                                Action::Spawn { path: self.candidates[i].clone(), port: self.port }
                            },
                            None => {
                                let m = not_found_message(self.expected.as_str());
                                self.fail(m)
                            },
                        }
                    }
                },
                _ => Action::Wait,
            },
            Phase::Launching { .. } => match ev {
                Event::Spawned => {
                    self.phase = Phase::Checking(HealthCheck::new(HealthConfig::standard()));
                    Action::Sleep { ms: INITIAL_DELAY_MS }
                },
                Event::SpawnFailed(os) => {
                    let m = spawn_failure_message(os.as_str());
                    self.fail(m)
                },
                _ => Action::Wait,
            },
            Phase::Checking(hc) => match ev {
                Event::Slept => {
                    let mut h = hc;
                    let step = h.on_slept();
                    self.follow_health(h, step)
                },
                Event::Probed(o) => {
                    let mut h = hc;
                    let step = h.on_probe(o);
                    self.follow_health(h, step)
                },
                _ => Action::Wait,
            },
            Phase::Finished => Action::Wait,
        }
    }
}

/// A manually pinned worker that fails its probe ends supervision with a
/// failure naming its port, and from then on every event is ignored: no
/// binary is ever searched for or spawned.
pub proof fn manual_failure_is_final(s: Supervisor, o: ProbeOutcome, t: Supervisor, a: Action)
    requires
        s.phase == Phase::VerifyingManual,
        !probe_ok(o),
        transition(s, Event::Probed(o), t, a),
    ensures
        t.phase == Phase::Finished,
        fails_with(a, manual_unreachable_text(s.port)),
        forall|ev: Event, u: Supervisor, b: Action| #[trigger] transition(t, ev, u, b) ==> {
            &&& u.phase == Phase::Finished
            &&& b is Wait
        },
{
}

} // verus!
