//! One round of polling the daemon: is its port open, which projects are
//! active (`GET /api/health`), and how many tasks each has
//! (`GET /api/tasks`).

use vstd::prelude::*;

use crate::http::{get_request, health_request, parse_response_json, response_doc, tasks_request};
use crate::json::{apply_task_counts, counted_projects, projects_from_json, registry_projects};
use crate::state::{project_views, ProjectStatus, ProjectView};

verus! {

/// The pause between two rounds, in milliseconds.
pub const POLL_INTERVAL_MS: u64 = 3000;

/// Where a round stands.
pub enum PollStage {
    /// The daemon's port is being checked.
    Probing,
    /// The health report has been asked for.
    AwaitingHealth,
    /// The task list has been asked for; these are the active projects.
    AwaitingTasks(Vec<ProjectStatus>),
}

/// What the caller found out, answering the last action.
pub enum PollEvent {
    /// Whether the port answered.
    PortChecked(bool),
    /// The answer to the request, or `None` when none could be read.
    Response(Option<String>),
}

/// What the caller is asked to do next.
pub enum PollAction {
    /// Check whether the daemon's port answers.
    CheckPort(u16),
    /// Send this request to the daemon's port and read the answer.
    Send(String),
    /// The round is over: record this with `AppState::record_poll`, wait
    /// this long, and begin the next round.
    Record { alive: bool, projects: Option<Vec<ProjectStatus>>, wait_ms: u64 },
}

/// The event answers the stage's pending action.
pub open spec fn poll_event_fits(stage: PollStage, ev: PollEvent) -> bool {
    match (stage, ev) {
        (PollStage::Probing, PollEvent::PortChecked(_)) => true,
        (PollStage::AwaitingHealth, PollEvent::Response(_)) => true,
        (PollStage::AwaitingTasks(_), PollEvent::Response(_)) => true,
        _ => false,
    }
}

/// The document of an answer, if there was one.
pub open spec fn answer_doc(r: Option<String>) -> Option<crate::json::Json> {
    match r {
        Some(t) => response_doc(t@),
        None => None,
    }
}

/// The active projects of a health answer.
pub open spec fn health_projects(r: Option<String>) -> Option<Seq<ProjectView>> {
    match answer_doc(r) {
        Some(doc) => registry_projects(doc),
        None => None,
    }
}

/// The action records the end of a round.
pub open spec fn records(a: PollAction, alive: bool, projects: Option<Seq<ProjectView>>) -> bool {
    a matches PollAction::Record { alive: al, projects: ps, wait_ms } && al == alive && wait_ms
        == POLL_INTERVAL_MS && match (ps, projects) {
        (Some(v), Some(w)) => project_views(v@) == w,
        (None, None) => true,
        _ => false,
    }
}

/// One step of a round. A closed port ends the round as offline. An open
/// port asks for the health report; without a project list in it the round
/// ends as alive with the projects left as they are; with one, the task
/// list is asked for and the round ends with those projects, counted by
/// the task list when the answer holds one.
pub open spec fn poll_step_spec(stage: PollStage, port: u16, ev: PollEvent, next: PollStage, a: PollAction) -> bool {
    match (stage, ev) {
        (PollStage::Probing, PollEvent::PortChecked(false)) => next is Probing && records(a, false, None),
        (PollStage::Probing, PollEvent::PortChecked(true)) => next is AwaitingHealth && (a matches PollAction::Send(req)
            && req@ == get_request(port, "/api/health"@)),
        (PollStage::AwaitingHealth, PollEvent::Response(r)) => match health_projects(r) {
            None => next is Probing && records(a, true, None),
            Some(ps) => (next matches PollStage::AwaitingTasks(v) && project_views(v@) == ps) && (a matches PollAction::Send(req)
                && req@ == get_request(port, "/api/tasks"@)),
        },
        (PollStage::AwaitingTasks(v), PollEvent::Response(r)) => next is Probing && records(
            a,
            true,
            Some(
                match answer_doc(r) {
                    Some(doc) => counted_projects(project_views(v@), doc),
                    None => project_views(v@),
                },
            ),
        ),
        _ => false,
    }
}

/// A round begins by checking the daemon's port.
pub fn poll_begin(port: u16) -> (r: (PollStage, PollAction))
    ensures
        r.0 is Probing,
        r.1 == PollAction::CheckPort(port),
{
    (PollStage::Probing, PollAction::CheckPort(port))
}

/// Advances a round by what the caller found out.
pub fn poll_step(stage: PollStage, port: u16, ev: PollEvent) -> (r: (PollStage, PollAction))
    requires
        poll_event_fits(stage, ev),
    ensures
        poll_step_spec(stage, port, ev, r.0, r.1),
{
    match ev {
        PollEvent::PortChecked(alive) => {
            if alive {
                (PollStage::AwaitingHealth, PollAction::Send(health_request(port)))
            } else {
                (PollStage::Probing, PollAction::Record { alive: false, projects: None, wait_ms: POLL_INTERVAL_MS })
            }
        },
        PollEvent::Response(r) => {
            let doc = match &r {
                Some(t) => parse_response_json(t.as_str()),
                None => None,
            };
            match stage {
                PollStage::AwaitingTasks(v) => {
                    let ps = match &doc {
                        Some(d) => apply_task_counts(v, d),
                        None => v,
                    };
                    (PollStage::Probing, PollAction::Record { alive: true, projects: Some(ps), wait_ms: POLL_INTERVAL_MS })
                },
                _ => {
                    let ps = match &doc {
                        Some(d) => projects_from_json(d),
                        None => None,
                    };
                    match ps {
                        None => (
                            PollStage::Probing,
                            PollAction::Record { alive: true, projects: None, wait_ms: POLL_INTERVAL_MS },
                        ),
                        Some(v) => (PollStage::AwaitingTasks(v), PollAction::Send(tasks_request(port))),
                    }
                },
            }
        },
    }
}

} // verus!
