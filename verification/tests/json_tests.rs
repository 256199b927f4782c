use shazam_tray::json::{apply_task_counts, parse_json, project_from_entry, projects_from_json, Json, JsonNumber};

#[test]
fn parse_keeps_numbers_apart() {
    let j = parse_json("[1, -2, 1.5, 18446744073709551615, true, null, \"s\"]").unwrap();
    let items = j.as_array().unwrap();
    assert_eq!(items[0].as_u64(), Some(1));
    assert!(matches!(items[1], Json::Number(JsonNumber::Signed(-2))));
    assert!(matches!(&items[2], Json::Number(JsonNumber::Decimal(t)) if t == "1.5"));
    assert_eq!(items[3].as_u64(), Some(u64::MAX));
    assert!(matches!(items[4], Json::Bool(true)));
    assert!(matches!(items[5], Json::Null));
    assert_eq!(items[6].as_str(), Some("s"));
    assert!(parse_json("{").is_none());
    assert!(parse_json("").is_none());
}

#[test]
fn get_looks_up_object_keys() {
    let j = parse_json("{\"a\": 1, \"b\": \"x\"}").unwrap();
    assert_eq!(j.get("a").and_then(|v| v.as_u64()), Some(1));
    assert_eq!(j.get("b").and_then(|v| v.as_str()), Some("x"));
    assert!(j.get("c").is_none());
    assert!(parse_json("[1]").unwrap().get("a").is_none());
}

#[test]
fn registry_entries_with_defaults() {
    let j = parse_json(
        "{\"projects\": [
            {\"name\": \"one\"},
            {\"path\": \"/nowhere\"},
            {\"name\": 5},
            {\"name\": \"two\", \"path\": \"/w/two\", \"status\": \"running\", \"agents_count\": 4294967299},
            {\"name\": \"three\", \"agents_count\": -1, \"status\": 3},
            7
        ]}",
    )
    .unwrap();
    let ps = projects_from_json(&j).unwrap();
    assert_eq!(ps.len(), 3);
    assert_eq!(ps[0].name, "one");
    assert_eq!(ps[0].workspace, "");
    assert_eq!(ps[0].status, "stopped");
    assert_eq!(ps[0].agents_total, 0);
    assert_eq!(ps[1].name, "two");
    assert_eq!(ps[1].workspace, "/w/two");
    assert_eq!(ps[1].status, "running");
    assert_eq!(ps[1].agents_total, 3);
    assert_eq!(ps[2].name, "three");
    assert_eq!(ps[2].status, "stopped");
    assert_eq!(ps[2].agents_total, 0);
    for p in &ps {
        assert_eq!(p.agents_active, 0);
        assert_eq!(p.tasks_pending + p.tasks_running + p.tasks_done, 0);
        assert_eq!(p.total_cost, 0);
        assert_eq!(p.git_branch, "");
    }
}

#[test]
fn registry_without_projects_array() {
    assert!(projects_from_json(&parse_json("{}").unwrap()).is_none());
    assert!(projects_from_json(&parse_json("{\"projects\": {}}").unwrap()).is_none());
    assert!(projects_from_json(&parse_json("[]").unwrap()).is_none());
    assert_eq!(projects_from_json(&parse_json("{\"projects\": []}").unwrap()).unwrap().len(), 0);
}

#[test]
fn entry_needs_a_string_name() {
    assert!(project_from_entry(&parse_json("{\"name\": null}").unwrap()).is_none());
    assert!(project_from_entry(&parse_json("\"name\"").unwrap()).is_none());
    assert!(project_from_entry(&parse_json("{\"name\": \"\"}").unwrap()).is_some());
}

#[test]
fn task_counts_per_project() {
    let registry = parse_json("{\"projects\": [{\"name\": \"a\"}, {\"name\": \"b\"}]}").unwrap();
    let ps = projects_from_json(&registry).unwrap();
    let tasks = parse_json(
        "{\"tasks\": [
            {\"project\": \"a\", \"status\": \"pending\"},
            {\"project\": \"a\", \"status\": \"awaiting_approval\"},
            {\"project\": \"a\", \"status\": \"running\"},
            {\"company\": \"b\", \"status\": \"completed\"},
            {\"company\": \"b\", \"status\": \"done\"},
            {\"project\": \"b\", \"status\": \"in_progress\"},
            {\"project\": \"c\", \"status\": \"pending\"},
            {\"project\": \"a\", \"status\": \"failed\"},
            {\"project\": \"a\", \"status\": \"error\"},
            {\"project\": \"a\", \"status\": \"cancelled\"},
            {\"status\": \"pending\"}
        ]}",
    )
    .unwrap();
    let counted = apply_task_counts(ps, &tasks);
    assert_eq!(counted.len(), 2);
    assert_eq!(counted[0].name, "a");
    assert_eq!((counted[0].tasks_pending, counted[0].tasks_running, counted[0].tasks_done), (2, 1, 0));
    assert_eq!(counted[0].tasks_failed, 2);
    assert_eq!(counted[1].tasks_failed, 0);
    assert_eq!(counted[1].name, "b");
    assert_eq!((counted[1].tasks_pending, counted[1].tasks_running, counted[1].tasks_done), (0, 1, 2));
}

#[test]
fn task_counts_from_bare_array_or_nothing() {
    let ps = projects_from_json(&parse_json("{\"projects\": [{\"name\": \"a\"}]}").unwrap()).unwrap();
    let counted = apply_task_counts(ps, &parse_json("[{\"project\": \"a\", \"status\": \"running\"}]").unwrap());
    assert_eq!(counted[0].tasks_running, 1);
    let same = apply_task_counts(counted, &parse_json("{\"other\": 1}").unwrap());
    assert_eq!(same[0].tasks_running, 1);
}
