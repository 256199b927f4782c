//! JSON documents as plain values, and the reading of the daemon's project
//! registry out of one.

use vstd::prelude::*;

use crate::state::{project_views, ProjectStatus, ProjectView};
use crate::text::same_text;
use serde_json::Value;

verus! {

/// A JSON number, by what can be read out of it: an unsigned integer that
/// fits in 64 bits, else a negative integer that fits in 64 bits, else the
/// number's text.
pub enum JsonNumber {
    Unsigned(u64),
    Signed(i64),
    Decimal(String),
}

/// A JSON document. Objects keep their entries in the order the parser
/// gives them; keys are unique.
pub enum Json {
    Null,
    Bool(bool),
    Number(JsonNumber),
    Str(String),
    Array(Vec<Json>),
    Object(Vec<(String, Json)>),
}

#[verifier::external_type_specification]
#[verifier::external_body]
pub struct ExJsonValue(serde_json::Value);

/// What `serde_json` parses the text into, as a [`Json`]; `None` where the
/// text is no JSON document.
pub uninterp spec fn json_parse(text: Seq<char>) -> Option<Json>;

/// Turns a `serde_json::Value` into the same tree of [`Json`] values, one
/// node for one node: numbers by `Number::as_u64`, then `Number::as_i64`,
/// then their text. Nothing is stated of it; it is the conversion step of
/// `parse_json_text`.
#[verifier::external_body]
fn json_from_value(v: &Value) -> Json {
    match v {
        Value::Null => Json::Null,
        Value::Bool(b) => Json::Bool(*b),
        Value::Number(n) => Json::Number(match (n.as_u64(), n.as_i64()) {
            (Some(u), _) => JsonNumber::Unsigned(u),
            (None, Some(i)) => JsonNumber::Signed(i),
            _ => JsonNumber::Decimal(n.to_string()),
        }),
        Value::String(s) => Json::Str(s.clone()),
        Value::Array(a) => Json::Array(a.iter().map(json_from_value).collect()),
        Value::Object(m) => Json::Object(m.iter().map(|(k, x)| (k.clone(), json_from_value(x))).collect()),
    }
}

/// `serde_json::from_str::<serde_json::Value>`, its error mapped to `None`.
/// The contract only names the result: it is a function of the text alone.
#[verifier::external_body]
fn parse_json_text(text: &str) -> (res: Option<Json>)
    ensures
        res == json_parse(text@),
{
    serde_json::from_str::<Value>(text).ok().map(|v| json_from_value(&v))
}

/// Parses a JSON document.
pub fn parse_json(text: &str) -> (res: Option<Json>)
    ensures
        res == json_parse(text@),
{
    parse_json_text(text)
}

// ------------------------------------------------------------------------
// Reading values (the `serde_json::Value` accessors the poller uses)
// ------------------------------------------------------------------------

/// The value of the first entry with this key.
pub open spec fn entry_lookup(entries: Seq<(String, Json)>, key: Seq<char>) -> Option<Json>
    decreases entries.len(),
{
    if entries.len() == 0 {
        None
    } else if entries[0].0@ == key {
        Some(entries[0].1)
    } else {
        entry_lookup(entries.drop_first(), key)
    }
}

/// `Value::get` with a string key.
pub open spec fn json_get(j: Json, key: Seq<char>) -> Option<Json> {
    match j {
        Json::Object(entries) => entry_lookup(entries@, key),
        _ => None,
    }
}

/// `Value::as_str`.
pub open spec fn json_str(j: Option<Json>) -> Option<Seq<char>> {
    match j {
        Some(Json::Str(s)) => Some(s@),
        _ => None,
    }
}

/// `Value::as_u64`.
pub open spec fn json_u64(j: Option<Json>) -> Option<u64> {
    match j {
        Some(Json::Number(JsonNumber::Unsigned(u))) => Some(u),
        _ => None,
    }
}

/// `Value::as_array`.
pub open spec fn json_array(j: Option<Json>) -> Option<Seq<Json>> {
    match j {
        Some(Json::Array(items)) => Some(items@),
        _ => None,
    }
}

impl Json {
    /// The value under `key`, if this is an object holding that key.
    pub fn get(&self, key: &str) -> (r: Option<&Json>)
        ensures
            match r {
                Some(v) => json_get(*self, key@) == Some(*v),
                None => json_get(*self, key@) is None,
            },
    {
        match self {
            Json::Object(entries) => {
                let mut i: usize = 0;
                assert(entries@.subrange(0, entries.len() as int) =~= entries@);
                while i < entries.len()
                    invariant
                        i <= entries.len(),
                        json_get(*self, key@) == entry_lookup(entries@, key@),
                        entry_lookup(entries@, key@) == entry_lookup(entries@.subrange(i as int, entries.len() as int), key@),
                    decreases entries.len() - i,
                {
                    let ghost rest = entries@.subrange(i as int, entries.len() as int);
                    assert(rest.drop_first() =~= entries@.subrange(i + 1, entries.len() as int));
                    if same_text(entries[i].0.as_str(), key) {
                        return Some(&entries[i].1);
                    }
                    i = i + 1;
                }
                None
            },
            _ => None,
        }
    }

    /// The text, if this is a string.
    pub fn as_str(&self) -> (r: Option<&str>)
        ensures
            match r {
                Some(s) => json_str(Some(*self)) == Some(s@),
                None => json_str(Some(*self)) is None,
            },
    {
        match self {
            Json::Str(s) => Some(s.as_str()),
            _ => None,
        }
    }

    /// The number, if this is an unsigned 64-bit integer.
    pub fn as_u64(&self) -> (r: Option<u64>)
        ensures
            r == json_u64(Some(*self)),
    {
        match self {
            Json::Number(JsonNumber::Unsigned(u)) => Some(*u),
            _ => None,
        }
    }

    /// The items, if this is an array.
    pub fn as_array(&self) -> (r: Option<&Vec<Json>>)
        ensures
            match r {
                Some(items) => json_array(Some(*self)) == Some(items@),
                None => json_array(Some(*self)) is None,
            },
    {
        match self {
            Json::Array(items) => Some(items),
            _ => None,
        }
    }
}

// ------------------------------------------------------------------------
// The project registry (`GET /api/projects`)
// ------------------------------------------------------------------------

/// One registry entry as a project: it needs a string `name`; `path`
/// (default empty), `status` (default `"stopped"`) and `agents_count`
/// (default 0, kept modulo 2^32) are read when present; everything else
/// starts at zero or empty.
pub open spec fn project_entry(p: Json) -> Option<ProjectView> {
    match json_str(json_get(p, "name"@)) {
        None => None,
        Some(name) => Some(ProjectView {
            name: name,
            workspace: match json_str(json_get(p, "path"@)) {
                Some(s) => s,
                None => Seq::empty(),
            },
            status: match json_str(json_get(p, "status"@)) {
                Some(s) => s,
                None => "stopped"@,
            },
            agents_active: 0,
            agents_total: match json_u64(json_get(p, "agents_count"@)) {
                Some(n) => (n % 0x1_0000_0000) as u32,
                None => 0,
            },
            tasks_pending: 0,
            tasks_running: 0,
            tasks_done: 0,
            tasks_failed: 0,
            total_cost: 0,
            git_branch: Seq::empty(),
        }),
    }
}

/// The projects of the registry entries, in order, skipping entries
/// without a name.
pub open spec fn project_list(items: Seq<Json>) -> Seq<ProjectView>
    decreases items.len(),
{
    if items.len() == 0 {
        Seq::empty()
    } else {
        match project_entry(items.last()) {
            Some(p) => project_list(items.drop_last()).push(p),
            None => project_list(items.drop_last()),
        }
    }
}

/// The project list of a registry document, if it has a `projects` array.
pub open spec fn registry_projects(data: Json) -> Option<Seq<ProjectView>> {
    match json_array(json_get(data, "projects"@)) {
        Some(items) => Some(project_list(items)),
        None => None,
    }
}

/// Reads one registry entry.
pub fn project_from_entry(p: &Json) -> (r: Option<ProjectStatus>)
    ensures
        match r {
            Some(ps) => project_entry(*p) == Some(ps@),
            None => project_entry(*p) is None,
        },
{
    let name = match p.get("name") {
        Some(v) => match v.as_str() {
            Some(s) => String::from_str(s),
            None => return None,
        },
        None => return None,
    };
    let workspace = match p.get("path") {
        Some(v) => match v.as_str() {
            Some(s) => String::from_str(s),
            None => String::new(),
        },
        None => String::new(),
    };
    let status = match p.get("status") {
        Some(v) => match v.as_str() {
            Some(s) => String::from_str(s),
            None => String::from_str("stopped"),
        },
        None => String::from_str("stopped"),
    };
    let count: u64 = match p.get("agents_count") {
        Some(v) => match v.as_u64() {
            Some(n) => n,
            None => 0,
        },
        None => 0,
    };
    let agents_total = count as u32;
    assert(agents_total == (count % 0x1_0000_0000) as u32) by (bit_vector)
        requires
            agents_total == count as u32,
    ;
    let r = ProjectStatus {
        name,
        workspace,
        status,
        agents_active: 0,
        agents_total,
        tasks_pending: 0,
        tasks_running: 0,
        tasks_done: 0,
        tasks_failed: 0,
        total_cost: 0,
        git_branch: String::new(),
    };
    Some(r)
}

/// Reads the project list out of the registry document, as the poller
/// does; `None` where the document has no `projects` array.
pub fn projects_from_json(data: &Json) -> (r: Option<Vec<ProjectStatus>>)
    ensures
        match r {
            Some(ps) => registry_projects(*data) == Some(project_views(ps@)),
            None => registry_projects(*data) is None,
        },
{
    let items = match data.get("projects") {
        Some(v) => match v.as_array() {
            Some(items) => items,
            None => return None,
        },
        None => return None,
    };
    let mut out: Vec<ProjectStatus> = Vec::new();
    let mut i: usize = 0;
    while i < items.len()
        invariant
            i <= items.len(),
            project_views(out@) == project_list(items@.subrange(0, i as int)),
        decreases items.len() - i,
    {
        let ghost prefix = items@.subrange(0, i as int);
        assert(items@.subrange(0, i + 1).drop_last() =~= prefix);
        match project_from_entry(&items[i]) {
            Some(p) => {
                let ghost before = out@;
                let ghost pv = p@;
                out.push(p);
                assert(project_views(out@) =~= project_views(before).push(pv));
            },
            None => {},
        }
        i = i + 1;
    }
    assert(items@.subrange(0, items.len() as int) =~= items@);
    Some(out)
}

// ------------------------------------------------------------------------
// Task counts (`GET /api/tasks`)
// ------------------------------------------------------------------------

/// The task list of a tasks document: the document itself when it is an
/// array, else its `tasks` array.
pub open spec fn task_list(doc: Json) -> Option<Seq<Json>> {
    match json_array(Some(doc)) {
        Some(items) => Some(items),
        None => json_array(json_get(doc, "tasks"@)),
    }
}

/// The project a task belongs to: its `project` field, else its `company`
/// field.
pub open spec fn task_project(t: Json) -> Option<Seq<char>> {
    match json_str(json_get(t, "project"@)) {
        Some(n) => Some(n),
        None => json_str(json_get(t, "company"@)),
    }
}

/// Which counter a task status goes to: 0 for tasks waiting for approval
/// (`pending`, `awaiting_approval`), 1 for running ones (`running`,
/// `in_progress`), 2 for finished ones (`done`, `completed`), 3 for failed
/// ones (`failed`, `error`), 4 for none. The daemon documents no format for
/// its task list; these words, and the `project`/`company` keys, are the
/// ones this library reads.
pub open spec fn status_kind(s: Option<Seq<char>>) -> u8 {
    match s {
        Some(t) => if t == "pending"@ || t == "awaiting_approval"@ {
            0
        } else if t == "running"@ || t == "in_progress"@ {
            1
        } else if t == "done"@ || t == "completed"@ {
            2
        } else if t == "failed"@ || t == "error"@ {
            3
        } else {
            4
        },
        None => 4,
    }
}

/// How many tasks of project `name` go to counter `kind`.
pub open spec fn task_count(tasks: Seq<Json>, name: Seq<char>, kind: u8) -> nat
    decreases tasks.len(),
{
    if tasks.len() == 0 {
        0
    } else {
        task_count(tasks.drop_last(), name, kind) + if task_project(tasks.last()) == Some(name)
            && status_kind(json_str(json_get(tasks.last(), "status"@))) == kind {
            1nat
        } else {
            0nat
        }
    }
}

/// A count held in 32 bits, saturating.
pub open spec fn cap_u32(n: nat) -> u32 {
    if n > u32::MAX {
        u32::MAX
    } else {
        n as u32
    }
}

/// A project with its task counters taken from the task list.
pub open spec fn with_task_counts(p: ProjectView, tasks: Seq<Json>) -> ProjectView {
    ProjectView {
        tasks_pending: cap_u32(task_count(tasks, p.name, 0)),
        tasks_running: cap_u32(task_count(tasks, p.name, 1)),
        tasks_done: cap_u32(task_count(tasks, p.name, 2)),
        tasks_failed: cap_u32(task_count(tasks, p.name, 3)),
        ..p
    }
}

/// The projects with their task counters, when the document holds a task
/// list; else the projects as they are.
pub open spec fn counted_projects(ps: Seq<ProjectView>, doc: Json) -> Seq<ProjectView> {
    match task_list(doc) {
        Some(tasks) => Seq::new(ps.len(), |i: int| with_task_counts(ps[i], tasks)),
        None => ps,
    }
}

fn opt_str(j: Option<&Json>) -> (r: Option<&str>)
    ensures
        match r {
            Some(s) => json_str(match j { Some(v) => Some(*v), None => None }) == Some(s@),
            None => json_str(match j { Some(v) => Some(*v), None => None }) is None,
        },
{
    match j {
        Some(v) => v.as_str(),
        None => None,
    }
}

fn task_project_exec(t: &Json) -> (r: Option<&str>)
    ensures
        match r {
            Some(s) => task_project(*t) == Some(s@),
            None => task_project(*t) is None,
        },
{
    match opt_str(t.get("project")) {
        Some(s) => Some(s),
        None => opt_str(t.get("company")),
    }
}

fn status_kind_exec(t: &Json) -> (k: u8)
    ensures
        k == status_kind(json_str(json_get(*t, "status"@))),
{
    match opt_str(t.get("status")) {
        None => 4,
        Some(s) => if same_text(s, "pending") || same_text(s, "awaiting_approval") {
            0
        } else if same_text(s, "running") || same_text(s, "in_progress") {
            1
        } else if same_text(s, "done") || same_text(s, "completed") {
            2
        } else if same_text(s, "failed") || same_text(s, "error") {
            3
        } else {
            4
        },
    }
}

proof fn lemma_count_take(tasks: Seq<Json>, name: Seq<char>, kind: u8, i: int)
    requires
        0 <= i < tasks.len(),
    ensures
        task_count(tasks.take(i + 1), name, kind) == task_count(tasks.take(i), name, kind) + if task_project(
            tasks[i],
        ) == Some(name) && status_kind(json_str(json_get(tasks[i], "status"@))) == kind {
            1nat
        } else {
            0nat
        },
{
    assert(tasks.take(i + 1).drop_last() =~= tasks.take(i));
}

/// The four counters of one project.
fn counts_for(tasks: &Vec<Json>, name: &str) -> (r: (usize, usize, usize, usize))
    ensures
        r.0 == task_count(tasks@, name@, 0),
        r.1 == task_count(tasks@, name@, 1),
        r.2 == task_count(tasks@, name@, 2),
        r.3 == task_count(tasks@, name@, 3),
{
    let mut c: (usize, usize, usize, usize) = (0, 0, 0, 0);
    let mut i: usize = 0;
    assert(tasks@.take(0) =~= Seq::<Json>::empty());
    while i < tasks.len()
        invariant
            i <= tasks.len(),
            c.0 == task_count(tasks@.take(i as int), name@, 0),
            c.1 == task_count(tasks@.take(i as int), name@, 1),
            c.2 == task_count(tasks@.take(i as int), name@, 2),
            c.3 == task_count(tasks@.take(i as int), name@, 3),
            c.0 <= i && c.1 <= i && c.2 <= i && c.3 <= i,
        decreases tasks.len() - i,
    {
        proof {
            lemma_count_take(tasks@, name@, 0, i as int);
            lemma_count_take(tasks@, name@, 1, i as int);
            lemma_count_take(tasks@, name@, 2, i as int);
            lemma_count_take(tasks@, name@, 3, i as int);
        }
        let t = &tasks[i];
        let mine = match task_project_exec(t) {
            Some(p) => same_text(p, name),
            None => false,
        };
        if mine {
            let k = status_kind_exec(t);
            if k == 0 {
                c.0 = c.0 + 1;
            } else if k == 1 {
                c.1 = c.1 + 1;
            } else if k == 2 {
                c.2 = c.2 + 1;
            } else if k == 3 {
                c.3 = c.3 + 1;
            }
        }
        i = i + 1;
    }
    assert(tasks@.take(tasks.len() as int) =~= tasks@);
    c
}

fn cap_exec(n: usize) -> (r: u32)
    ensures
        r == cap_u32(n as nat),
{
    if n > 0xffff_ffff {
        0xffff_ffff
    } else {
        n as u32
    }
}

/// The task list of a tasks document.
fn task_list_exec(doc: &Json) -> (r: Option<&Vec<Json>>)
    ensures
        match r {
            Some(items) => task_list(*doc) == Some(items@),
            None => task_list(*doc) is None,
        },
{
    match doc.as_array() {
        Some(items) => Some(items),
        None => match doc.get("tasks") {
            Some(v) => v.as_array(),
            None => None,
        },
    }
}

/// Sets each project's task counters from a tasks document; projects are
/// left as they are when the document holds no task list.
pub fn apply_task_counts(projects: Vec<ProjectStatus>, doc: &Json) -> (r: Vec<ProjectStatus>)
    ensures
        project_views(r@) == counted_projects(project_views(projects@), *doc),
{
    let tasks = match task_list_exec(doc) {
        Some(t) => t,
        None => return projects,
    };
    let ghost before = project_views(projects@);
    let mut out: Vec<ProjectStatus> = Vec::new();
    let mut rest = projects;
    let ghost all = rest@;
    let mut i: usize = 0;
    let n = rest.len();
    // Take the projects from the back, then reverse the order back.
    let mut taken: Vec<ProjectStatus> = Vec::new();
    while rest.len() > 0
        invariant
            rest@ == all.take(rest.len() as int),
            rest.len() <= all.len(),
            taken.len() + rest.len() == all.len(),
            forall|k: int| 0 <= k < taken.len() ==> #[trigger] taken@[k] == all[all.len() - 1 - k],
        decreases rest.len(),
    {
        let ghost len0 = rest.len();
        let p = rest.pop().unwrap();
        assert(all.take(len0 - 1) =~= all.take(len0 as int).drop_last());
        taken.push(p);
    }
    while taken.len() > 0
        invariant
            i + taken.len() == n,
            n == all.len(),
            forall|k: int| 0 <= k < taken.len() ==> #[trigger] taken@[k] == all[all.len() - 1 - k],
            out.len() == i,
            forall|k: int| 0 <= k < i ==> #[trigger] out@[k]@ == with_task_counts(all[k]@, tasks@),
        decreases taken.len(),
    {
        let mut p = taken.pop().unwrap();
        assert(p == all[i as int]);
        let c = counts_for(tasks, p.name.as_str());
        p.tasks_pending = cap_exec(c.0);
        p.tasks_running = cap_exec(c.1);
        p.tasks_done = cap_exec(c.2);
        p.tasks_failed = cap_exec(c.3);
        out.push(p);
        i = i + 1;
    }
    assert(project_views(out@) =~= counted_projects(before, *doc));
    out
}

} // verus!
