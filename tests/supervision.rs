use lightbot::health::ProbeOutcome;
use lightbot::locator::SearchRoots;
use lightbot::status::{Outcome, SidecarStatus};
use lightbot::supervisor::{log_to_file, Action, Event, Phase, Supervisor};

fn roots() -> SearchRoots {
    SearchRoots {
        exe_dir: Some("/app/MacOS".to_string()),
        resource_dir: None,
        config_dir: None,
    }
}

#[test]
fn log_to_file_appends_a_line() {
    let mut log = vec!["a".to_string()];
    log_to_file(&mut log, "b");
    assert_eq!(log, vec!["a".to_string(), "b".to_string()]);
}

#[test]
fn scenario_launch_and_ready_on_first_probe() {
    let (mut s, a) = Supervisor::start_auto(Some(4242), &roots(), "aarch64");
    assert!(matches!(a, Action::CheckCandidates));
    assert_eq!(s.candidates.len(), 6);
    let exists = vec![false, true, false, false, false, false];
    match s.on_event(Event::Existence(exists)) {
        Action::Spawn { path, port } => {
            assert_eq!(path, "/app/MacOS/python-sidecar");
            assert_eq!(port, 4242);
        }
        other => panic!("unexpected {:?}", other),
    }
    assert!(matches!(s.on_event(Event::Spawned), Action::Sleep { ms: 1500 }));
    assert!(matches!(s.on_event(Event::Slept), Action::Probe { port: 4242, timeout_ms: 2000 }));
    let a = s.on_event(Event::Probed(ProbeOutcome::Responded(200)));
    let mut status = SidecarStatus::new();
    match a {
        Action::Finish(o) => {
            assert!(matches!(o, Outcome::Running { port: 4242, spawned: true }));
            status.publish(o);
        }
        other => panic!("unexpected {:?}", other),
    }
    assert_eq!(status.get_sidecar_status(), Ok(4242));
    assert!(s.diagnostics.is_empty());
}

#[test]
fn scenario_manual_port_not_listening() {
    let (mut s, a) = Supervisor::start(&Some("54321".to_string()), &roots(), "x86_64");
    assert!(matches!(a, Action::Probe { port: 54321, timeout_ms: 2000 }));
    assert_eq!(s.phase, Phase::VerifyingManual);
    assert!(s.candidates.is_empty());
    let a = s.on_event(Event::Probed(ProbeOutcome::Unreachable));
    let mut status = SidecarStatus::new();
    match a {
        Action::Finish(o) => {
            status.publish(o);
        }
        other => panic!("unexpected {:?}", other),
    }
    let err = status.get_sidecar_status().unwrap_err();
    assert!(err.contains("54321"));
    assert!(err.contains("not responding"));
    assert_eq!(s.diagnostics, vec![err.clone()]);
    assert!(matches!(s.on_event(Event::Existence(vec![])), Action::Wait));
    assert!(matches!(s.on_event(Event::Spawned), Action::Wait));
    assert_eq!(s.phase, Phase::Finished);
}

#[test]
fn manual_port_that_answers_is_used_without_spawning() {
    let (mut s, _) = Supervisor::start_manual(7000);
    let a = s.on_event(Event::Probed(ProbeOutcome::Responded(200)));
    assert!(matches!(a, Action::Finish(Outcome::Running { port: 7000, spawned: false })));
}

#[test]
fn scenario_no_binary_found() {
    let (mut s, _) = Supervisor::start_auto(Some(5000), &roots(), "x86_64");
    let n = s.candidates.len();
    let a = s.on_event(Event::Existence(vec![false; n]));
    match a {
        Action::Finish(Outcome::Failed(m)) => {
            assert_eq!(
                m,
                "Python sidecar binary not found. Please run ./scripts/build-sidecar.sh. Expected: src-tauri/bin/python-sidecar-x86_64-apple-darwin"
            );
            assert!(s.candidates.iter().any(|c| m.contains(c.as_str())));
        }
        other => panic!("unexpected {:?}", other),
    }
    assert!(matches!(s.on_event(Event::Spawned), Action::Wait));
}

#[test]
fn existence_of_wrong_length_is_ignored() {
    let (mut s, _) = Supervisor::start_auto(Some(5000), &roots(), "x86_64");
    assert!(matches!(s.on_event(Event::Existence(vec![true])), Action::Wait));
    assert_eq!(s.phase, Phase::Locating);
}

#[test]
fn spawn_failure_is_terminal() {
    let (mut s, _) = Supervisor::start_auto(Some(5000), &roots(), "x86_64");
    let n = s.candidates.len();
    let mut exists = vec![false; n];
    exists[0] = true;
    let _ = s.on_event(Event::Existence(exists));
    let a = s.on_event(Event::SpawnFailed("Permission denied".to_string()));
    assert!(matches!(a, Action::Finish(Outcome::Failed(ref m)) if m == "Failed to spawn sidecar: Permission denied"));
}

#[test]
fn health_check_exhaustion_after_launch() {
    let (mut s, _) = Supervisor::start_auto(Some(5000), &roots(), "x86_64");
    let n = s.candidates.len();
    let _ = s.on_event(Event::Existence(vec![true; n]));
    let mut next = s.on_event(Event::Spawned);
    let mut probes = 0;
    let a = loop {
        next = match next {
            Action::Sleep { .. } => s.on_event(Event::Slept),
            Action::Probe { .. } => {
                probes += 1;
                s.on_event(Event::Probed(ProbeOutcome::Unreachable))
            }
            other => break other,
        };
    };
    assert_eq!(probes, 15);
    assert!(matches!(a, Action::Finish(Outcome::Failed(ref m)) if m == "Sidecar health check failed - server not responding"));
}

#[test]
fn no_free_port_fails_at_once() {
    let (s, a) = Supervisor::start_auto(None, &roots(), "x86_64");
    assert!(matches!(a, Action::Finish(Outcome::Failed(ref m)) if m == "No available port"));
    assert_eq!(s.phase, Phase::Finished);
}

#[test]
fn start_without_override_allocates_a_port() {
    let (s, a) = Supervisor::start(&None, &roots(), "x86_64");
    match a {
        Action::CheckCandidates => {
            assert_eq!(s.phase, Phase::Locating);
            assert_eq!(s.candidates.len(), 6);
        }
        Action::Finish(Outcome::Failed(m)) => assert_eq!(m, "No available port"),
        other => panic!("unexpected {:?}", other),
    }
}
