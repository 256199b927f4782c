//! The state shared by the menu and the poller: known projects and the
//! daemon's status, with the transitions each of them makes.

use vstd::prelude::*;

verus! {

/// The port on which the daemon serves its REST API.
pub const DAEMON_PORT: u16 = 4040;

/// One project known to the daemon.
pub struct ProjectStatus {
    pub name: String,
    pub workspace: String,
    /// `"running"` or `"stopped"`.
    pub status: String,
    pub agents_active: u32,
    pub agents_total: u32,
    pub tasks_pending: u32,
    pub tasks_running: u32,
    pub tasks_done: u32,
    /// Tasks that ended in failure.
    pub tasks_failed: u32,
    /// Accumulated cost, in cents.
    pub total_cost: u64,
    pub git_branch: String,
}

/// The abstract value of a [`ProjectStatus`].
pub struct ProjectView {
    pub name: Seq<char>,
    pub workspace: Seq<char>,
    pub status: Seq<char>,
    pub agents_active: u32,
    pub agents_total: u32,
    pub tasks_pending: u32,
    pub tasks_running: u32,
    pub tasks_done: u32,
    pub tasks_failed: u32,
    pub total_cost: u64,
    pub git_branch: Seq<char>,
}

impl View for ProjectStatus {
    type V = ProjectView;

    open spec fn view(&self) -> ProjectView {
        ProjectView {
            name: self.name@,
            workspace: self.workspace@,
            status: self.status@,
            agents_active: self.agents_active,
            agents_total: self.agents_total,
            tasks_pending: self.tasks_pending,
            tasks_running: self.tasks_running,
            tasks_done: self.tasks_done,
            tasks_failed: self.tasks_failed,
            total_cost: self.total_cost,
            git_branch: self.git_branch@,
        }
    }
}

/// The views of a list of projects.
pub open spec fn project_views(ps: Seq<ProjectStatus>) -> Seq<ProjectView> {
    ps.map_values(|p: ProjectStatus| p@)
}

/// State shared between the menu and the status poller.
pub struct AppState {
    pub projects: Vec<ProjectStatus>,
    pub daemon_running: bool,
    pub daemon_port: u16,
    pub sounds_enabled: bool,
    pub notifications_enabled: bool,
    /// The backend is in error: starting it failed, or it answered without
    /// a readable health report.
    pub backend_error: bool,
}

/// The abstract value of an [`AppState`].
pub struct AppView {
    pub projects: Seq<ProjectView>,
    pub daemon_running: bool,
    pub daemon_port: u16,
    pub sounds_enabled: bool,
    pub notifications_enabled: bool,
    pub backend_error: bool,
}

impl View for AppState {
    type V = AppView;

    open spec fn view(&self) -> AppView {
        AppView {
            projects: project_views(self.projects@),
            daemon_running: self.daemon_running,
            daemon_port: self.daemon_port,
            sounds_enabled: self.sounds_enabled,
            notifications_enabled: self.notifications_enabled,
            backend_error: self.backend_error,
        }
    }
}

/// The state before anything is known: no projects, daemon not running,
/// default port, sounds and notifications on, no error.
pub open spec fn initial_view() -> AppView {
    AppView {
        projects: Seq::empty(),
        daemon_running: false,
        daemon_port: DAEMON_PORT,
        sounds_enabled: true,
        notifications_enabled: true,
        backend_error: false,
    }
}

impl Default for AppState {
    fn default() -> (s: Self)
        ensures
            s@ == initial_view(),
    {
        let s = AppState {
            projects: Vec::new(),
            daemon_running: false,
            daemon_port: DAEMON_PORT,
            sounds_enabled: true,
            notifications_enabled: true,
            backend_error: false,
        };
        assert(s@.projects =~= Seq::<ProjectView>::empty());
        s
    }
}

/// The state after the daemon was found alive or started: running on its
/// port, no error.
pub open spec fn running_view(v: AppView) -> AppView {
    AppView { daemon_running: true, daemon_port: DAEMON_PORT, backend_error: false, ..v }
}

/// The state after the daemon was stopped: not running, no projects, no
/// error.
pub open spec fn offline_view(v: AppView) -> AppView {
    AppView { daemon_running: false, projects: Seq::empty(), backend_error: false, ..v }
}

/// The state after starting the daemon failed: in error.
pub open spec fn failed_start_view(v: AppView) -> AppView {
    AppView { backend_error: true, ..v }
}

/// The state after one poll of the daemon: when it answered with a
/// readable project list, it is marked running without error and the list
/// replaces the known one; when it answered without one, it is marked
/// running and in error; when it did not answer, it is marked not running
/// without projects, an earlier error kept.
pub open spec fn polled_view(v: AppView, alive: bool, projects: Option<Seq<ProjectView>>) -> AppView {
    if alive {
        match projects {
            Some(ps) => AppView { daemon_running: true, projects: ps, backend_error: false, ..v },
            None => AppView { daemon_running: true, backend_error: true, ..v },
        }
    } else {
        AppView { daemon_running: false, projects: Seq::empty(), ..v }
    }
}

impl AppState {
    /// Marks the daemon as running on its port.
    pub fn mark_daemon_running(&mut self)
        ensures
            final(self)@ == running_view(old(self)@),
    {
        self.daemon_running = true;
        self.daemon_port = DAEMON_PORT;
        self.backend_error = false;
    }

    /// Marks the backend as in error.
    pub fn mark_backend_error(&mut self)
        ensures
            final(self)@ == failed_start_view(old(self)@),
    {
        self.backend_error = true;
    }

    /// Marks the daemon as stopped and forgets the projects.
    pub fn mark_daemon_offline(&mut self)
        ensures
            final(self)@ == offline_view(old(self)@),
    {
        self.daemon_running = false;
        self.backend_error = false;
        self.projects = Vec::new();
        assert(self@.projects =~= Seq::<ProjectView>::empty());
    }

    /// Applies the outcome of one poll of the daemon.
    pub fn record_poll(&mut self, alive: bool, projects: Option<Vec<ProjectStatus>>)
        ensures
            final(self)@ == polled_view(
                old(self)@,
                alive,
                match projects {
                    Some(ps) => Some(project_views(ps@)),
                    None => None,
                },
            ),
    {
        if alive {
            self.daemon_running = true;
            match projects {
                Some(ps) => {
                    self.projects = ps;
                    self.backend_error = false;
                },
                None => {
                    self.backend_error = true;
                },
            }
        } else {
            self.daemon_running = false;
            self.projects = Vec::new();
            assert(self@.projects =~= Seq::<ProjectView>::empty());
        }
    }
}

} // verus!
