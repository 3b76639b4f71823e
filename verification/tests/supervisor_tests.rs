use seed_backend::supervisor::{BackendManager, StartProbe, StartStep, SupervisorError};

fn good_probe() -> StartProbe {
    StartProbe {
        python_cmd: "/usr/bin/python3".to_string(),
        python_valid: true,
        backend_dir: "/srv/app/backend".to_string(),
        dir_exists: true,
        script_path: "/srv/app/backend/app_v2.py".to_string(),
        script_exists: true,
        project_root: "/srv/app".to_string(),
    }
}

#[test]
fn new_manager_tracks_nothing() {
    let m = BackendManager::new(8000);
    assert!(!m.check_status());
    assert_eq!(m.get_port(), 8000);
}

#[test]
fn start_plans_exact_spawn_command() {
    let m = BackendManager::new(8000);
    match m.start_backend(&good_probe()) {
        StartStep::Spawn(cmd) => {
            assert_eq!(cmd.program, "/usr/bin/python3");
            assert_eq!(cmd.working_dir, "/srv/app");
            let args: Vec<&str> = cmd.args.iter().map(|a| a.as_str()).collect();
            assert_eq!(
                args,
                vec![
                    "-m",
                    "uvicorn",
                    "backend.app_v2:app",
                    "--host",
                    "127.0.0.1",
                    "--port",
                    "8000"
                ]
            );
            assert_eq!(cmd.env.len(), 3);
            assert_eq!(cmd.env[0].0, "CYBERSEED_BACKEND_PORT");
            assert_eq!(cmd.env[0].1, "8000");
            assert_eq!(cmd.env[1].0, "CYBERSEED_LAZY_LOAD_MODELS");
            assert_eq!(cmd.env[1].1, "true");
            assert_eq!(cmd.env[2].0, "PYTHONUNBUFFERED");
            assert_eq!(cmd.env[2].1, "1");
        }
        _ => panic!("expected a spawn plan"),
    }
}

#[test]
fn only_first_start_spawns() {
    let mut m = BackendManager::new(8000);
    assert!(matches!(m.start_backend(&good_probe()), StartStep::Spawn(_)));
    let msg = m
        .record_spawn_outcome("/usr/bin/python3", "/srv/app", true, "")
        .unwrap();
    assert_eq!(msg, "Backend started on port 8000 using Python: /usr/bin/python3");
    assert!(m.check_status());
    assert!(matches!(m.start_backend(&good_probe()), StartStep::AlreadyRunning));
    assert!(matches!(m.start_backend(&good_probe()), StartStep::AlreadyRunning));
    assert!(m.check_status());
}

#[test]
fn invalid_interpreter_is_environment_error() {
    let m = BackendManager::new(8000);
    let mut probe = good_probe();
    probe.python_valid = false;
    match m.start_backend(&probe) {
        StartStep::Rejected(SupervisorError::Environment(msg)) => {
            assert_eq!(msg, "Python executable not valid or not found: /usr/bin/python3");
        }
        _ => panic!("expected an environment rejection"),
    }
    assert!(!m.check_status());
}

#[test]
fn missing_directory_is_not_found_error() {
    let m = BackendManager::new(8000);
    let mut probe = good_probe();
    probe.dir_exists = false;
    probe.script_exists = false;
    match m.start_backend(&probe) {
        StartStep::Rejected(SupervisorError::NotFound(msg)) => {
            assert_eq!(msg, "Backend directory not found: /srv/app/backend");
        }
        _ => panic!("expected a not-found rejection"),
    }
}

#[test]
fn missing_entry_file_is_not_found_and_leaves_slot_empty() {
    let m = BackendManager::new(8000);
    let mut probe = good_probe();
    probe.script_exists = false;
    match m.start_backend(&probe) {
        StartStep::Rejected(SupervisorError::NotFound(msg)) => {
            assert_eq!(msg, "Backend script not found: /srv/app/backend/app_v2.py");
        }
        _ => panic!("expected a not-found rejection"),
    }
    assert!(!m.check_status());
}

#[test]
fn failed_spawn_reports_paths_and_stays_stopped() {
    let mut m = BackendManager::new(8000);
    assert!(matches!(m.start_backend(&good_probe()), StartStep::Spawn(_)));
    let err = m
        .record_spawn_outcome("/usr/bin/python3", "/srv/app", false, "permission denied")
        .unwrap_err();
    match err {
        SupervisorError::Spawn(msg) => {
            assert_eq!(
                msg,
                "Failed to start backend: permission denied. Python path: /usr/bin/python3, Project root: /srv/app"
            );
        }
        _ => panic!("expected a spawn error"),
    }
    assert!(!m.check_status());
}

#[test]
fn stop_kills_running_child_and_clears_slot() {
    let mut m = BackendManager::new(8000);
    let _ = m.start_backend(&good_probe());
    let _ = m.record_spawn_outcome("/usr/bin/python3", "/srv/app", true, "");
    assert!(m.check_status());
    let kills = m.stop_backend();
    assert!(kills);
    assert!(!m.check_status());
    let msg = BackendManager::stop_outcome(kills, true, "").unwrap();
    assert_eq!(msg, "Backend stopped");
}

#[test]
fn second_stop_always_succeeds() {
    let mut m = BackendManager::new(8000);
    let _ = m.start_backend(&good_probe());
    let _ = m.record_spawn_outcome("/usr/bin/python3", "/srv/app", true, "");
    let first = m.stop_backend();
    assert!(first);
    let second = m.stop_backend();
    assert!(!second);
    let msg = BackendManager::stop_outcome(second, false, "irrelevant").unwrap();
    assert_eq!(msg, "Backend not running");
}

#[test]
fn stop_when_never_started_is_a_success() {
    let mut m = BackendManager::new(8000);
    let kills = m.stop_backend();
    assert!(!kills);
    let msg = BackendManager::stop_outcome(kills, false, "").unwrap();
    assert_eq!(msg, "Backend not running");
}

#[test]
fn failed_kill_is_termination_error_but_slot_is_cleared() {
    let mut m = BackendManager::new(8000);
    let _ = m.start_backend(&good_probe());
    let _ = m.record_spawn_outcome("/usr/bin/python3", "/srv/app", true, "");
    let kills = m.stop_backend();
    assert!(!m.check_status());
    let err = BackendManager::stop_outcome(kills, false, "no such process").unwrap_err();
    match err {
        SupervisorError::Termination(msg) => {
            assert_eq!(msg, "Failed to kill backend process: no such process");
        }
        _ => panic!("expected a termination error"),
    }
}

#[test]
fn error_message_accessor_returns_carried_text() {
    let e = SupervisorError::Install("boom".to_string());
    assert_eq!(e.message(), "boom");
}

#[test]
fn port_is_rendered_in_decimal() {
    let m = BackendManager::new(65535);
    match m.start_backend(&good_probe()) {
        StartStep::Spawn(cmd) => {
            assert_eq!(cmd.args[6], "65535");
            assert_eq!(cmd.env[0].1, "65535");
        }
        _ => panic!("expected a spawn plan"),
    }
}
