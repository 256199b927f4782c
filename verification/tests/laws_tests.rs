use shazam_tray::daemon::parse_pid;
use shazam_tray::state::AppState;
use shazam_tray::text::decimal_string;
use shazam_tray::tray::{handle_command, MenuCommand, TrayTracker, MAX_PROJECTS};

#[test]
fn pid_roundtrip_on_samples() {
    for pid in [0u32, 1, 9, 10, 4242, 65535, u32::MAX] {
        assert_eq!(parse_pid(&decimal_string(pid as u128)), Some(pid));
    }
}

#[test]
fn unreachable_daemon_shows_offline() {
    let mut s = AppState::default();
    s.daemon_running = true;
    s.record_poll(false, None);
    let u = TrayTracker::new().refresh(&s);
    assert_eq!(u.status_text, "⚡ Shazam — Backend offline");
    assert!(u.start_enabled);
    for i in 0..MAX_PROJECTS {
        assert!(!u.project_slots[i].enabled);
        assert!(!u.open_slots[i].enabled);
    }
}

#[test]
fn double_toggle_restores() {
    let mut s = AppState::default();
    handle_command(&mut s, MenuCommand::ToggleSounds);
    handle_command(&mut s, MenuCommand::ToggleSounds);
    handle_command(&mut s, MenuCommand::ToggleNotifications);
    handle_command(&mut s, MenuCommand::ToggleNotifications);
    assert!(s.sounds_enabled && s.notifications_enabled);
}

#[test]
fn no_rise_no_alert() {
    let mut s = AppState::default();
    s.daemon_running = true;
    let mut t = TrayTracker::new();
    let u = t.refresh(&s);
    assert!(u.notification.is_none() && u.sound.is_none());
}
