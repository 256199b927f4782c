use shazam_tray::state::{AppState, ProjectStatus};
use shazam_tray::tray::{
    handle_command, icon_color, icon_for_state, open_terminal, open_tui_for_project, play_sound,
    switch_label, totals, IconState, MenuCommand, TrayEffect, TrayTracker, MAX_PROJECTS,
};

fn project(name: &str, active: u32, total: u32, pending: u32, running: u32, done: u32, cents: u64) -> ProjectStatus {
    ProjectStatus {
        name: name.to_string(),
        workspace: format!("/work/{}", name),
        status: "running".to_string(),
        agents_active: active,
        agents_total: total,
        tasks_pending: pending,
        tasks_running: running,
        tasks_done: done,
        tasks_failed: 0,
        total_cost: cents,
        git_branch: String::new(),
    }
}

fn running_state(projects: Vec<ProjectStatus>) -> AppState {
    let mut s = AppState::default();
    s.daemon_running = true;
    s.projects = projects;
    s
}

#[test]
fn readme_menu_example() {
    let s = running_state(vec![
        project("ProjectA", 2, 5, 1, 1, 12, 30),
        project("ProjectB", 1, 3, 0, 0, 8, 12),
    ]);
    let mut t = TrayTracker::new();
    let u = t.refresh(&s);
    assert_eq!(u.status_text, "⚡ 2 project(s) | 3 agents | 1 tasks | $0.42");
    assert_eq!(u.project_slots[0].text, "● ProjectA  — 2t/5  P:1 R:1 D:12 $0.30");
    assert_eq!(u.project_slots[1].text, "● ProjectB  — 1t/3  P:0 R:0 D:8 $0.12");
    assert!(u.project_slots[0].enabled && u.project_slots[1].enabled);
    assert_eq!(u.open_slots[0].text, "  ↗ Open ProjectA in Terminal");
    assert_eq!(u.open_slots[1].text, "  ↗ Open ProjectB in Terminal");
    for i in 2..MAX_PROJECTS {
        assert_eq!(u.project_slots[i].text, "");
        assert!(!u.project_slots[i].enabled);
        assert!(!u.open_slots[i].enabled);
    }
    assert_eq!(u.tooltip, "ProjectA: 2a 1t $0.30\nProjectB: 1a 0t $0.12");
    assert_eq!(u.icon_change, Some(IconState::ApprovalPending));
    assert!(!u.start_enabled && u.stop_enabled && u.restart_enabled);
    assert_eq!(u.notification.expect("approval pending").body, "1 task(s) awaiting approval");
    assert!(u.sound.is_some());
}

#[test]
fn offline_and_empty_menus() {
    let mut t = TrayTracker::new();
    let s = AppState::default();
    let u = t.refresh(&s);
    assert_eq!(u.status_text, "⚡ Shazam — Backend offline");
    assert_eq!(u.icon_change, None);
    assert!(u.start_enabled && !u.stop_enabled && !u.restart_enabled);
    assert_eq!(u.project_slots[0].text, "  No active projects");
    assert!(!u.project_slots[0].enabled);
    assert_eq!(u.tooltip, "Shazam — AI Agent Orchestrator");
    let s = running_state(vec![]);
    let u = t.refresh(&s);
    assert_eq!(u.status_text, "⚡ Shazam — Running (no projects)");
    assert_eq!(u.icon_change, Some(IconState::Idle));
    let u = t.refresh(&s);
    assert_eq!(u.icon_change, None);
}

#[test]
fn icon_states_and_colours() {
    assert_eq!(icon_for_state(&AppState::default()), IconState::Offline);
    assert_eq!(icon_for_state(&running_state(vec![project("a", 0, 0, 0, 0, 3, 0)])), IconState::Idle);
    assert_eq!(icon_for_state(&running_state(vec![project("a", 1, 1, 0, 0, 0, 0)])), IconState::Running);
    assert_eq!(icon_for_state(&running_state(vec![project("a", 0, 0, 0, 2, 0, 0)])), IconState::Running);
    assert_eq!(
        icon_for_state(&running_state(vec![project("a", 1, 1, 0, 1, 0, 0), project("b", 0, 0, 4, 0, 0, 0)])),
        IconState::ApprovalPending
    );
    assert_eq!(icon_color(IconState::Offline), (120, 120, 120));
    assert_eq!(icon_color(IconState::Idle), (255, 200, 0));
    assert_eq!(icon_color(IconState::Running), (0, 220, 80));
    assert_eq!(icon_color(IconState::Error), (255, 60, 60));
    assert_eq!(icon_color(IconState::ApprovalPending), (255, 160, 0));
}

#[test]
fn approval_alerts_on_every_rise() {
    let mut t = TrayTracker::new();
    let u = t.refresh(&running_state(vec![project("a", 0, 0, 0, 0, 0, 0)]));
    assert!(u.notification.is_none() && u.sound.is_none());
    let u = t.refresh(&running_state(vec![project("a", 0, 0, 2, 0, 0, 0)]));
    let n = u.notification.expect("first approvals notify");
    assert_eq!(n.body, "2 task(s) awaiting approval");
    assert!(u.sound.is_some());
    let u = t.refresh(&running_state(vec![project("a", 0, 0, 2, 0, 0, 0), project("b", 0, 0, 1, 0, 0, 0)]));
    let n = u.notification.expect("notification");
    assert_eq!(n.title, "Shazam — Approval Needed");
    assert_eq!(n.body, "3 task(s) awaiting approval");
    let snd = u.sound.expect("sound");
    assert_eq!(snd.program, "afplay");
    assert_eq!(snd.args, vec!["/System/Library/Sounds/Ping.aiff".to_string()]);
    let u = t.refresh(&running_state(vec![project("a", 0, 0, 3, 0, 0, 0)]));
    assert!(u.notification.is_none());
    assert_eq!(t.prev_approvals, 3);
    let mut quiet = running_state(vec![project("a", 0, 0, 9, 0, 0, 0)]);
    quiet.notifications_enabled = false;
    let u = t.refresh(&quiet);
    assert!(u.notification.is_none());
    assert!(u.sound.is_some());
}

#[test]
fn totals_do_not_wrap() {
    let s = running_state(vec![project("a", u32::MAX, 0, u32::MAX, u32::MAX, 0, u64::MAX), project("b", 1, 0, 1, 1, 0, 1)]);
    let t = totals(&s.projects);
    assert_eq!(t.agents, u32::MAX as u128 + 1);
    assert_eq!(t.pending, u32::MAX as u128 + 1);
    assert_eq!(t.running, u32::MAX as u128 + 1);
    assert_eq!(t.cost, u64::MAX as u128 + 1);
}

#[test]
fn clicks() {
    let mut s = running_state(vec![project("a", 0, 0, 0, 0, 0, 0)]);
    let e = handle_command(&mut s, MenuCommand::StartBackend);
    assert!(matches!(&e[0], TrayEffect::SetStatusText(t) if t == "⚡ Shazam — Starting backend..."));
    assert!(matches!(e[1], TrayEffect::DisableStart));
    assert!(matches!(e[2], TrayEffect::EnsureDaemonInBackground));
    let e = handle_command(&mut s, MenuCommand::RestartBackend);
    assert!(matches!(&e[0], TrayEffect::SetStatusText(t) if t == "⚡ Shazam — Restarting..."));
    assert!(matches!(e[1], TrayEffect::StopDaemon));
    assert!(matches!(e[2], TrayEffect::RestartDaemonInBackground));
    assert!(s.daemon_running);
    let e = handle_command(&mut s, MenuCommand::StopBackend);
    assert!(matches!(e[0], TrayEffect::StopDaemon));
    assert!(!s.daemon_running && s.projects.is_empty());
    let e = handle_command(&mut s, MenuCommand::Quit);
    assert!(matches!(e[0], TrayEffect::Exit));
    let e = handle_command(&mut s, MenuCommand::ToggleAutostart);
    assert!(matches!(e[0], TrayEffect::ToggleAutostart));
    let e = handle_command(&mut s, MenuCommand::OpenTerminal);
    assert!(matches!(&e[0], TrayEffect::Spawn(l) if l.program == "open"));
}

#[test]
fn toggles_flip_and_relabel() {
    let mut s = AppState::default();
    let e = handle_command(&mut s, MenuCommand::ToggleNotifications);
    assert!(!s.notifications_enabled);
    assert!(matches!(&e[0], TrayEffect::SetNotificationsLabel(t) if t == "  Notifications"));
    let e = handle_command(&mut s, MenuCommand::ToggleNotifications);
    assert!(s.notifications_enabled);
    assert!(matches!(&e[0], TrayEffect::SetNotificationsLabel(t) if t == "✓ Notifications"));
    let e = handle_command(&mut s, MenuCommand::ToggleSounds);
    assert!(!s.sounds_enabled);
    assert!(matches!(&e[0], TrayEffect::SetSoundsLabel(t) if t == "  Sounds"));
    assert_eq!(switch_label(true, "Start on Login"), "✓ Start on Login");
}

#[test]
fn opening_projects() {
    let mut s = running_state(vec![project("a", 0, 0, 0, 0, 0, 0)]);
    let e = handle_command(&mut s, MenuCommand::OpenProject(0));
    match &e[0] {
        TrayEffect::Spawn(l) => {
            assert_eq!(l.program, "osascript");
            assert_eq!(l.args, vec!["-e".to_string(), "tell application \"Terminal\" to do script \"cd '/work/a' && shazam\"".to_string()]);
        }
        _ => panic!("expected a launch"),
    }
    assert!(handle_command(&mut s, MenuCommand::OpenProject(3)).is_empty());
    let l = open_tui_for_project("/w/my \"q\" dir");
    assert_eq!(l.args[1], "tell application \"Terminal\" to do script \"cd '/w/my \\\"q\\\" dir' && shazam\"");
    let l = open_tui_for_project("/tmp/a b; rm -rf ~");
    assert_eq!(l.args[1], "tell application \"Terminal\" to do script \"cd '/tmp/a b; rm -rf ~' && shazam\"");
    let l = open_tui_for_project("it's\\");
    assert_eq!(l.args[1], "tell application \"Terminal\" to do script \"cd 'it'\\\\''s\\\\' && shazam\"");
    let l = open_tui_for_project("");
    assert_eq!(l.program, "open");
    assert_eq!(l.args, vec!["-a".to_string(), "Terminal".to_string()]);
    assert_eq!(open_terminal().args, vec!["-a".to_string(), "Terminal".to_string()]);
    assert_eq!(play_sound("Glass").args, vec!["/System/Library/Sounds/Glass.aiff".to_string()]);
}

#[test]
fn backend_error_shows_red() {
    let mut s = running_state(vec![project("a", 0, 0, 1, 0, 0, 0)]);
    s.backend_error = true;
    assert_eq!(icon_for_state(&s), IconState::Error);
    let mut t = TrayTracker::new();
    assert_eq!(t.refresh(&s).icon_change, Some(IconState::Error));
    assert_eq!(icon_color(IconState::Error), (255, 60, 60));
    s.record_poll(true, Some(vec![project("a", 0, 0, 0, 0, 0, 0)]));
    assert!(!s.backend_error);
    assert_eq!(icon_for_state(&s), IconState::Idle);
}

#[test]
fn failures_notify_on_rise() {
    let mut failing = project("a", 0, 0, 0, 0, 0, 0);
    failing.tasks_failed = 2;
    let mut t = TrayTracker::new();
    let u = t.refresh(&running_state(vec![project("a", 0, 0, 0, 0, 0, 0)]));
    assert!(u.failure_notification.is_none() && u.failure_sound.is_none());
    let u = t.refresh(&running_state(vec![failing]));
    let n = u.failure_notification.expect("failure notification");
    assert_eq!(n.title, "Shazam — Task Failed");
    assert_eq!(n.body, "2 task(s) failed");
    assert_eq!(u.failure_sound.expect("sound").args, vec!["/System/Library/Sounds/Basso.aiff".to_string()]);
    assert!(u.notification.is_none());
    let mut again = project("a", 0, 0, 0, 0, 0, 0);
    again.tasks_failed = 2;
    let u = t.refresh(&running_state(vec![again]));
    assert!(u.failure_notification.is_none());
    assert_eq!(t.prev_failures, 2);
}
