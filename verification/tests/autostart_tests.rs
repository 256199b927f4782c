use shazam_tray::autostart::{autostart_plist_path, autostart_plist_path_from, toggle_autostart_from, launch_agent_plist, plist_path_for, toggle_autostart, toggle_autostart_for, AutostartStep};

#[test]
fn plist_location() {
    assert_eq!(plist_path_for("/Users/me"), "/Users/me/Library/LaunchAgents/com.shazam.tray.plist");
    if let Some(p) = autostart_plist_path() {
        assert!(p.ends_with("Library/LaunchAgents/com.shazam.tray.plist"));
    }
}

#[test]
fn plist_contents() {
    let text = launch_agent_plist("/Applications/shazam-tray", "/Users/me/.shazam/logs");
    let expected = format!(r#"<?xml version="1.0" encoding="UTF-8"?>
<!DOCTYPE plist PUBLIC "-//Apple//DTD PLIST 1.0//EN" "http://www.apple.com/DTDs/PropertyList-1.0.dtd">
<plist version="1.0">
<dict>
    <key>Label</key><string>com.shazam.tray</string>
    <key>ProgramArguments</key><array><string>{}</string></array>
    <key>RunAtLoad</key><true/>
    <key>KeepAlive</key><false/>
    <key>StandardOutPath</key><string>{}/tray.stdout.log</string>
    <key>StandardErrorPath</key><string>{}/tray.stderr.log</string>
</dict>
</plist>"#, "/Applications/shazam-tray", "/Users/me/.shazam/logs", "/Users/me/.shazam/logs");
    assert_eq!(text, expected);
}

#[test]
fn toggle_plans() {
    let t = toggle_autostart_for("/Users/me", None);
    let path = "/Users/me/Library/LaunchAgents/com.shazam.tray.plist";
    assert_eq!(t.plist_path, path);
    assert_eq!(t.when_installed.label, "  Start on Login");
    assert_eq!(t.when_missing.label, "✓ Start on Login");
    match &t.when_installed.steps[..] {
        [AutostartStep::Run(l), AutostartStep::Remove(p)] => {
            assert_eq!(l.program, "launchctl");
            assert_eq!(l.args, vec!["unload".to_string(), path.to_string()]);
            assert_eq!(p, path);
        }
        _ => panic!("unexpected removal steps"),
    }
    match &t.when_missing.steps[..] {
        [AutostartStep::CreateDirAll(d), AutostartStep::CreateDirAll(logs), AutostartStep::Write { path: p, contents }, AutostartStep::Run(l)] => {
            assert_eq!(d, "/Users/me/Library/LaunchAgents");
            assert_eq!(logs, "/Users/me/.shazam/logs");
            assert_eq!(p, path);
            assert_eq!(contents, &launch_agent_plist("/Users/me/bin/shazam-tray", "/Users/me/.shazam/logs"));
            assert_eq!(l.args, vec!["load".to_string(), path.to_string()]);
        }
        _ => panic!("unexpected install steps"),
    }
    let t = toggle_autostart_for("/Users/me", Some("/opt/tray"));
    match &t.when_missing.steps[2] {
        AutostartStep::Write { contents, .. } => assert!(contents.contains("<string>/opt/tray</string>")),
        _ => panic!("write third"),
    }
    if let Some(t) = toggle_autostart(None) {
        assert!(t.plist_path.ends_with("com.shazam.tray.plist"));
    }
}

fn apply(plan: &shazam_tray::autostart::AutostartPlan, files: &mut std::collections::HashSet<String>) {
    for step in &plan.steps {
        match step {
            AutostartStep::Remove(p) => {
                files.remove(p);
            }
            AutostartStep::Write { path, .. } => {
                files.insert(path.clone());
            }
            _ => {}
        }
    }
}

#[test]
fn toggling_twice_restores() {
    let t = toggle_autostart_for("/Users/me", None);
    let mut files = std::collections::HashSet::new();
    for _ in 0..2 {
        let before = files.contains(&t.plist_path);
        let plan = if before { &t.when_installed } else { &t.when_missing };
        apply(plan, &mut files);
        assert_eq!(files.contains(&t.plist_path), !before);
        assert_eq!(plan.label, if before { "  Start on Login" } else { "✓ Start on Login" });
    }
    assert!(!files.contains(&t.plist_path));
}

#[test]
fn without_home_nothing_to_toggle() {
    assert!(autostart_plist_path_from(None).is_none());
    assert_eq!(autostart_plist_path_from(Some("/h")).as_deref(), Some("/h/Library/LaunchAgents/com.shazam.tray.plist"));
    assert!(toggle_autostart_from(None, None).is_none());
    assert_eq!(toggle_autostart_from(Some("/h"), None).unwrap().plist_path, "/h/Library/LaunchAgents/com.shazam.tray.plist");
}
