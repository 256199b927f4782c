use shazam_tray::poll::{poll_begin, poll_step, PollAction, PollEvent, PollStage, POLL_INTERVAL_MS};

fn ok(body: &str) -> Option<String> {
    Some(format!("HTTP/1.1 200 OK\r\ncontent-type: application/json\r\n\r\n{}", body))
}

#[test]
fn closed_port_records_offline() {
    let (stage, action) = poll_begin(4040);
    assert!(matches!(action, PollAction::CheckPort(4040)));
    let (stage, action) = poll_step(stage, 4040, PollEvent::PortChecked(false));
    assert!(matches!(stage, PollStage::Probing));
    assert!(matches!(action, PollAction::Record { alive: false, projects: None, wait_ms: 3000 }));
    assert_eq!(POLL_INTERVAL_MS, 3000);
}

#[test]
fn health_then_tasks() {
    let (stage, _) = poll_begin(4040);
    let (stage, action) = poll_step(stage, 4040, PollEvent::PortChecked(true));
    assert!(matches!(&action, PollAction::Send(r) if r.starts_with("GET /api/health HTTP/1.1\r\n")));
    let (stage, action) = poll_step(stage, 4040, PollEvent::Response(ok("{\"projects\": [{\"name\": \"a\", \"path\": \"/w\"}]}")));
    assert!(matches!(&action, PollAction::Send(r) if r.starts_with("GET /api/tasks HTTP/1.1\r\n")));
    let (stage, action) = poll_step(stage, 4040, PollEvent::Response(ok("{\"tasks\": [{\"project\": \"a\", \"status\": \"pending\"}]}")));
    assert!(matches!(stage, PollStage::Probing));
    match action {
        PollAction::Record { alive: true, projects: Some(ps), wait_ms } => {
            assert_eq!(wait_ms, POLL_INTERVAL_MS);
            assert_eq!(ps.len(), 1);
            assert_eq!(ps[0].workspace, "/w");
            assert_eq!(ps[0].tasks_pending, 1);
        }
        _ => panic!("expected a record"),
    }
}

#[test]
fn unreadable_answers() {
    let (stage, _) = poll_step(PollStage::Probing, 4040, PollEvent::PortChecked(true));
    let (_, action) = poll_step(stage, 4040, PollEvent::Response(None));
    assert!(matches!(action, PollAction::Record { alive: true, projects: None, .. }));
    let (stage, _) = poll_step(PollStage::AwaitingHealth, 4040, PollEvent::Response(ok("{\"projects\": [{\"name\": \"a\"}]}")));
    let (_, action) = poll_step(stage, 4040, PollEvent::Response(None));
    match action {
        PollAction::Record { alive: true, projects: Some(ps), .. } => assert_eq!(ps[0].tasks_pending, 0),
        _ => panic!("expected a record"),
    }
}
