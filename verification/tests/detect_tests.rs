use seed_backend::detect::{
    embedded_dir_segments, fallback_command, first_existing, python_exe_name, resolve_interpreter,
    system_candidates, DetectAction, Detector,
};
use seed_backend::version::PythonInfo;

fn info(major: u32, minor: u32) -> PythonInfo {
    PythonInfo {
        path: "probe".to_string(),
        version: format!("{}.{}.0", major, minor),
        major,
        minor,
        patch: 0,
    }
}

fn probe_target(d: &Detector) -> String {
    match d.next_action() {
        DetectAction::Probe(c) => c,
        DetectAction::Done(_) => panic!("expected a probe"),
    }
}

#[test]
fn unix_candidates_in_order() {
    let c = system_candidates(false);
    let got: Vec<&str> = c.iter().map(|s| s.as_str()).collect();
    assert_eq!(got, vec!["python3.11", "python3.12", "python3.13", "python3", "python"]);
}

#[test]
fn windows_candidates_try_the_launcher_first() {
    let c = system_candidates(true);
    let got: Vec<&str> = c.iter().map(|s| s.as_str()).collect();
    assert_eq!(
        got,
        vec![
            "py -3.11",
            "py -3.12",
            "py -3.13",
            "python3.11",
            "python3.12",
            "python3.13",
            "python3",
            "python"
        ]
    );
}

#[test]
fn embedded_locations_in_order() {
    let dirs = embedded_dir_segments();
    let got: Vec<Vec<&str>> = dirs
        .iter()
        .map(|d| d.iter().map(|s| s.as_str()).collect())
        .collect();
    assert_eq!(
        got,
        vec![
            vec!["python"],
            vec!["resources", "python"],
            vec!["..", "Resources", "python"],
            vec!["_internal", "python"],
            vec!["lib", "python"],
        ]
    );
}

#[test]
fn platform_names() {
    assert_eq!(python_exe_name(true), "python.exe");
    assert_eq!(python_exe_name(false), "python3");
    assert_eq!(fallback_command(true), "python");
    assert_eq!(fallback_command(false), "python3");
}

#[test]
fn first_existing_picks_the_earliest_present_path() {
    let paths: Vec<String> = vec!["a", "b", "c"].into_iter().map(String::from).collect();
    assert_eq!(first_existing(&paths, &vec![false, true, true]), Some(1));
    assert_eq!(first_existing(&paths, &vec![true, false, true]), Some(0));
    assert_eq!(first_existing(&paths, &vec![false, false, false]), None);
    assert_eq!(first_existing(&Vec::new(), &Vec::new()), None);
}

#[test]
fn explicit_interpreter_overrides_detection() {
    assert_eq!(
        resolve_interpreter(Some("/opt/python3".to_string()), "python3.11".to_string()),
        "/opt/python3"
    );
    assert_eq!(resolve_interpreter(None, "python3.11".to_string()), "python3.11");
}

#[test]
fn qualifying_embedded_interpreter_wins() {
    let mut d = Detector::new(false, Some("/app/python/python3".to_string()));
    assert_eq!(probe_target(&d), "/app/python/python3");
    let found = d.record_probe(&Some(info(3, 11))).unwrap();
    assert_eq!(found.command, "/app/python/python3");
    assert!(found.from_probe);
}

#[test]
fn stale_embedded_interpreter_is_skipped() {
    let mut d = Detector::new(false, Some("/app/python/python3".to_string()));
    assert_eq!(probe_target(&d), "/app/python/python3");
    assert!(d.record_probe(&Some(info(3, 9))).is_none());
    assert_eq!(probe_target(&d), "python3.11");
}

#[test]
fn first_qualifying_candidate_wins() {
    let mut d = Detector::new(false, None);
    assert_eq!(probe_target(&d), "python3.11");
    assert!(d.record_probe(&None).is_none());
    assert_eq!(probe_target(&d), "python3.12");
    assert!(d.record_probe(&Some(info(3, 10))).is_none());
    assert_eq!(probe_target(&d), "python3.13");
    let found = d.record_probe(&Some(info(3, 13))).unwrap();
    assert_eq!(found.command, "python3.13");
    assert!(found.from_probe);
}

#[test]
fn wrong_major_never_qualifies() {
    let mut d = Detector::new(false, None);
    assert!(d.record_probe(&Some(info(4, 0))).is_none());
    assert!(d.record_probe(&Some(info(2, 7))).is_none());
}

#[test]
fn exhausted_search_falls_back_flagged() {
    let mut d = Detector::new(false, None);
    let mut probes = 0;
    let fallback = loop {
        match d.next_action() {
            DetectAction::Probe(_) => {
                probes += 1;
                assert!(d.record_probe(&Some(info(3, 8))).is_none());
            }
            DetectAction::Done(det) => break det,
        }
    };
    assert_eq!(probes, 5);
    assert_eq!(fallback.command, "python3");
    assert!(!fallback.from_probe);
}

#[test]
fn windows_fallback_is_generic_python() {
    let mut d = Detector::new(true, None);
    let fallback = loop {
        match d.next_action() {
            DetectAction::Probe(_) => {
                assert!(d.record_probe(&None).is_none());
            }
            DetectAction::Done(det) => break det,
        }
    };
    assert_eq!(fallback.command, "python");
    assert!(!fallback.from_probe);
}
