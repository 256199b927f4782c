use shazam_tray::daemon::{
    alive_probes, alive_step, check_daemon_status, daemon_pid_path, ensure_daemon_running,
    parse_pid, pid_path_for, record_daemon_start, search_start, search_step, start_daemon,
    start_daemon_step, stop_by_pid, stop_daemon, tool_probes, tool_probes_for, tool_probes_from,
    which_answer,
    which_probes, AliveProbe, AliveStep, ProbeOutcome, SearchStep, StartAction, StartEvent,
    StartStep, StopPlan, ToolProbe, START_CHECK_PAUSE_MS, START_PORT_CHECKS,
};
use shazam_tray::state::{AppState, DAEMON_PORT};

fn err_of(a: StartAction) -> String {
    match a {
        StartAction::Finish(Err(e)) => e,
        _ => panic!("expected a failed finish"),
    }
}

#[test]
fn pid_file_path() {
    assert_eq!(pid_path_for(Some("/Users/me")), "/Users/me/.shazam/daemon.pid");
    assert_eq!(pid_path_for(Some("/")), "/.shazam/daemon.pid");
    assert_eq!(pid_path_for(None), "./.shazam/daemon.pid");
    assert!(daemon_pid_path().ends_with(".shazam/daemon.pid"));
}

#[test]
fn pid_contents() {
    assert_eq!(parse_pid(" 123\n"), Some(123));
    assert_eq!(parse_pid("+9"), Some(9));
    assert_eq!(parse_pid("abc"), None);
    assert_eq!(parse_pid(""), None);
    assert_eq!(parse_pid("4294967296"), None);
}

#[test]
fn liveness_probes_in_order() {
    let probes = alive_probes(Some("77\n"));
    assert_eq!(probes.len(), 2);
    match &probes[0] {
        AliveProbe::Process(l) => {
            assert_eq!(l.program, "kill");
            assert_eq!(l.args, vec!["-0".to_string(), "77".to_string()]);
        }
        _ => panic!("process probe first"),
    }
    assert!(matches!(probes[1], AliveProbe::Port(4040)));
    let probes = alive_probes(Some("junk"));
    assert_eq!(probes.len(), 1);
    assert!(matches!(probes[0], AliveProbe::Port(4040)));
    assert_eq!(alive_probes(None).len(), 1);
}

#[test]
fn startup_check_marks_running() {
    let mut s = AppState::default();
    s.daemon_port = 1;
    check_daemon_status(&mut s, false);
    assert!(!s.daemon_running);
    assert_eq!(s.daemon_port, 1);
    check_daemon_status(&mut s, true);
    assert!(s.daemon_running);
    assert_eq!(s.daemon_port, DAEMON_PORT);
}

#[test]
fn ensure_running_starts_only_when_not_alive() {
    let mut s = AppState::default();
    s.daemon_port = 7;
    assert!(!ensure_daemon_running(&mut s, true));
    assert!(s.daemon_running);
    assert_eq!(s.daemon_port, DAEMON_PORT);
    assert!(!ensure_daemon_running(&mut s, true));
    let mut s = AppState::default();
    assert!(ensure_daemon_running(&mut s, false));
    assert!(!s.daemon_running);
}

#[test]
fn start_outcomes_are_recorded() {
    let mut s = AppState::default();
    let report = record_daemon_start(&mut s, &Err("boom".to_string()));
    assert_eq!(report.as_deref(), Some("Failed to start daemon: boom"));
    assert!(!s.daemon_running);
    assert!(s.backend_error);
    let report = record_daemon_start(&mut s, &Ok(()));
    assert!(report.is_none());
    assert!(s.daemon_running);
    assert!(!s.backend_error);
}

#[test]
fn liveness_stops_at_first_success() {
    let probes = alive_probes(Some("12"));
    assert_eq!(alive_step(&probes, 0, true), AliveStep::Decided(true));
    assert_eq!(alive_step(&probes, 0, false), AliveStep::Probe(1));
    assert_eq!(alive_step(&probes, 1, false), AliveStep::Decided(false));
    assert_eq!(alive_step(&probes, 1, true), AliveStep::Decided(true));
}

#[test]
fn search_takes_first_hit() {
    let probes = tool_probes_for("/Users/me");
    assert!(matches!(search_start(&probes), SearchStep::Probe(0)));
    assert!(matches!(search_step(&probes, 0, ProbeOutcome::IsFile(false)), SearchStep::Probe(1)));
    assert!(matches!(search_step(&probes, 1, ProbeOutcome::IsFile(true)), SearchStep::Found(p) if p == "/Users/me/bin/shazam"));
    assert!(matches!(search_step(&probes, 3, ProbeOutcome::WhichFailed), SearchStep::Probe(4)));
    assert!(matches!(
        search_step(&probes, 4, ProbeOutcome::Which { success: true, stdout: b"/usr/local/bin/shazam\n".to_vec() }),
        SearchStep::Found(p) if p == "/usr/local/bin/shazam"
    ));
    assert!(matches!(search_step(&probes, 5, ProbeOutcome::Which { success: false, stdout: vec![] }), SearchStep::NotFound));
    assert!(matches!(search_start(&Vec::new()), SearchStep::NotFound));
}

#[test]
fn path_is_searched_without_home() {
    let probes = which_probes();
    assert_eq!(probes.len(), 3);
    let names: Vec<String> = probes
        .iter()
        .map(|p| match p {
            ToolProbe::Which(l) => {
                assert_eq!(l.program, "which");
                l.args[0].clone()
            }
            _ => panic!("which probes only"),
        })
        .collect();
    assert_eq!(names, vec!["shazam-cli", "shazam", "shz"]);
    let found = search_step(&probes, 0, ProbeOutcome::Which { success: true, stdout: b"/usr/local/bin/shazam-cli\n".to_vec() });
    assert!(matches!(found, SearchStep::Found(p) if p == "/usr/local/bin/shazam-cli"));
    let none = tool_probes_from(None);
    assert_eq!(none.len(), 3);
    let found = search_step(&none, 0, ProbeOutcome::Which { success: true, stdout: b"/usr/local/bin/shazam-cli\n".to_vec() });
    assert!(matches!(found, SearchStep::Found(p) if p == "/usr/local/bin/shazam-cli"));
    assert_eq!(tool_probes_from(Some("/Users/me")).len(), 6);
    let all = tool_probes();
    assert!(all.len() == 6 || all.len() == 3);
}

#[test]
fn start_without_tool() {
    let step = start_daemon();
    assert!(step == StartStep::Locating);
    let (next, action) = start_daemon_step(step, StartEvent::Located(None));
    assert!(next == StartStep::Done);
    assert_eq!(err_of(action), "shazam-cli not found. Install: https://shazam.dev");
}

#[test]
fn start_runs_tool_then_checks_port() {
    let (step, action) = start_daemon_step(start_daemon(), StartEvent::Located(Some("/opt/shz".to_string())));
    assert!(step == StartStep::Running);
    match action {
        StartAction::Run(l) => {
            assert_eq!(l.program, "/opt/shz");
            assert_eq!(l.args, vec!["daemon".to_string(), "start".to_string()]);
        }
        _ => panic!("expected run"),
    }
    let (step, action) = start_daemon_step(step, StartEvent::Exited { success: true, stdout: vec![], stderr: vec![] });
    assert!(step == StartStep::Checking(0));
    assert!(matches!(action, StartAction::CheckPortAfter { millis: START_CHECK_PAUSE_MS, port: 4040 }));
    let (step, action) = start_daemon_step(step, StartEvent::PortChecked(false));
    assert!(step == StartStep::Checking(1));
    let (step, action2) = start_daemon_step(step, StartEvent::PortChecked(true));
    assert!(step == StartStep::Done);
    assert!(matches!(action, StartAction::CheckPortAfter { .. }));
    assert!(matches!(action2, StartAction::Finish(Ok(()))));
}

#[test]
fn start_gives_up_after_ten_checks() {
    let mut step = StartStep::Checking(0);
    let mut checks = 0;
    loop {
        let (next, action) = start_daemon_step(step, StartEvent::PortChecked(false));
        checks += 1;
        step = next;
        if let StartAction::Finish(r) = action {
            assert_eq!(r, Err("Daemon start command succeeded but port not responding".to_string()));
            break;
        }
    }
    assert_eq!(checks, START_PORT_CHECKS);
    assert!(step == StartStep::Done);
}

#[test]
fn start_failure_messages() {
    let (_, a) = start_daemon_step(StartStep::Running, StartEvent::LaunchFailed("no such file".to_string()));
    assert_eq!(err_of(a), "Failed to run shazam daemon start: no such file");
    let (_, a) = start_daemon_step(
        StartStep::Running,
        StartEvent::Exited { success: false, stdout: b"out ".to_vec(), stderr: vec![b'e', 0xff] },
    );
    assert_eq!(err_of(a), "shazam daemon start failed: out e\u{fffd}");
}

#[test]
fn which_answers() {
    assert_eq!(which_answer(true, b"/usr/local/bin/shazam\n").as_deref(), Some("/usr/local/bin/shazam"));
    assert_eq!(which_answer(true, b" \n"), None);
    assert_eq!(which_answer(false, b"/usr/bin/shz\n"), None);
    assert_eq!(which_answer(true, &[0xff]).as_deref(), Some("\u{fffd}"));
}

#[test]
fn tool_probe_order() {
    let probes = tool_probes_for("/Users/me");
    assert_eq!(probes.len(), 6);
    let files: Vec<String> = probes[..3]
        .iter()
        .map(|p| match p {
            ToolProbe::File(f) => f.clone(),
            _ => panic!("file probes first"),
        })
        .collect();
    assert_eq!(files, vec!["/Users/me/bin/shazam-cli", "/Users/me/bin/shazam", "/Users/me/bin/shz"]);
    let names: Vec<String> = probes[3..]
        .iter()
        .map(|p| match p {
            ToolProbe::Which(l) => {
                assert_eq!(l.program, "which");
                l.args[0].clone()
            }
            _ => panic!("which probes last"),
        })
        .collect();
    assert_eq!(names, vec!["shazam-cli", "shazam", "shz"]);
}

#[test]
fn stopping() {
    match stop_daemon(Some("/Users/me/bin/shz")) {
        StopPlan::Tool(l) => {
            assert_eq!(l.program, "/Users/me/bin/shz");
            assert_eq!(l.args, vec!["daemon".to_string(), "stop".to_string()]);
        }
        _ => panic!("expected the tool"),
    }
    match stop_daemon(None) {
        StopPlan::PidFile(p) => assert!(p.ends_with(".shazam/daemon.pid")),
        _ => panic!("expected the pid file"),
    }
    let kill = stop_by_pid("  4242\n").unwrap();
    assert_eq!(kill.program, "kill");
    assert_eq!(kill.args, vec!["4242".to_string()]);
    assert!(stop_by_pid("x").is_none());
}
