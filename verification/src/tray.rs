//! The menu-bar view: the icon's state, the menu's texts and switches, what
//! a click does, and when to alert the user.

use vstd::prelude::*;

use crate::quote::{applescript_escape, applescript_escaped, push_shell_quoted, shell_quote};
use crate::launch::{launch1, launch2, Launch, LaunchView};
use crate::state::{offline_view, project_views, AppState, AppView, ProjectStatus, ProjectView};
use crate::text::{
    chars_of, decimal, money, push_decimal, push_money,
};

verus! {

/// How many project rows the menu has.
pub const MAX_PROJECTS: usize = 5;

// ------------------------------------------------------------------------
// The icon
// ------------------------------------------------------------------------

/// What the menu-bar icon shows.
#[derive(PartialEq, Eq, Structural, Clone, Copy, Debug)]
pub enum IconState {
    Offline,
    Idle,
    Running,
    Error,
    ApprovalPending,
}

/// The colour the icon is tinted with: gray offline, yellow idle, green
/// running, red on error, orange while approvals are pending.
pub open spec fn icon_color_spec(s: IconState) -> (u8, u8, u8) {
    match s {
        IconState::Offline => (120, 120, 120),
        IconState::Idle => (255, 200, 0),
        IconState::Running => (0, 220, 80),
        IconState::Error => (255, 60, 60),
        IconState::ApprovalPending => (255, 160, 0),
    }
}

/// The colour for an icon state.
pub fn icon_color(s: IconState) -> (r: (u8, u8, u8))
    ensures
        r == icon_color_spec(s),
{
    match s {
        IconState::Offline => (120, 120, 120),
        IconState::Idle => (255, 200, 0),
        IconState::Running => (0, 220, 80),
        IconState::Error => (255, 60, 60),
        IconState::ApprovalPending => (255, 160, 0),
    }
}

/// Some project has tasks waiting for approval.
pub open spec fn has_pending(ps: Seq<ProjectView>) -> bool {
    exists|i: int| 0 <= i < ps.len() && #[trigger] ps[i].tasks_pending > 0
}

/// Some project has running tasks or active agents.
pub open spec fn has_activity(ps: Seq<ProjectView>) -> bool {
    exists|i: int| 0 <= i < ps.len() && (#[trigger] ps[i].tasks_running > 0 || ps[i].agents_active > 0)
}

/// The icon for a state: error while the backend is in error; else offline
/// unless the daemon runs; then idle without projects, approval-pending if
/// any project waits for approval, running if any has running tasks or
/// active agents, idle otherwise.
pub open spec fn icon_for(v: AppView) -> IconState {
    if v.backend_error {
        IconState::Error
    } else if !v.daemon_running {
        IconState::Offline
    } else if v.projects.len() == 0 {
        IconState::Idle
    } else if has_pending(v.projects) {
        IconState::ApprovalPending
    } else if has_activity(v.projects) {
        IconState::Running
    } else {
        IconState::Idle
    }
}

// ------------------------------------------------------------------------
// Totals over the projects
// ------------------------------------------------------------------------

/// The sum of `f` over the projects.
pub open spec fn total_of(ps: Seq<ProjectView>, f: spec_fn(ProjectView) -> nat) -> nat
    decreases ps.len(),
{
    if ps.len() == 0 {
        0
    } else {
        total_of(ps.drop_last(), f) + f(ps.last())
    }
}

/// A project's active agents.
pub open spec fn agents_field() -> spec_fn(ProjectView) -> nat {
    |p: ProjectView| p.agents_active as nat
}

/// A project's running tasks.
pub open spec fn running_field() -> spec_fn(ProjectView) -> nat {
    |p: ProjectView| p.tasks_running as nat
}

/// A project's tasks waiting for approval.
pub open spec fn pending_field() -> spec_fn(ProjectView) -> nat {
    |p: ProjectView| p.tasks_pending as nat
}

/// A project's failed tasks.
pub open spec fn failed_field() -> spec_fn(ProjectView) -> nat {
    |p: ProjectView| p.tasks_failed as nat
}

/// A project's cost, in cents.
pub open spec fn cost_field() -> spec_fn(ProjectView) -> nat {
    |p: ProjectView| p.total_cost as nat
}

/// Active agents over all projects.
pub open spec fn agents_sum(ps: Seq<ProjectView>) -> nat {
    total_of(ps, agents_field())
}

/// Running tasks over all projects.
pub open spec fn running_sum(ps: Seq<ProjectView>) -> nat {
    total_of(ps, running_field())
}

/// Tasks waiting for approval over all projects.
pub open spec fn pending_sum(ps: Seq<ProjectView>) -> nat {
    total_of(ps, pending_field())
}

/// Failed tasks over all projects.
pub open spec fn failed_sum(ps: Seq<ProjectView>) -> nat {
    total_of(ps, failed_field())
}

/// Cost over all projects, in cents.
pub open spec fn cost_sum(ps: Seq<ProjectView>) -> nat {
    total_of(ps, cost_field())
}

proof fn lemma_total_take(ps: Seq<ProjectView>, f: spec_fn(ProjectView) -> nat, i: int)
    requires
        0 <= i < ps.len(),
    ensures
        total_of(ps.take(i + 1), f) == total_of(ps.take(i), f) + f(ps[i]),
{
    assert(ps.take(i + 1).drop_last() =~= ps.take(i));
}

proof fn lemma_total_bound(ps: Seq<ProjectView>, f: spec_fn(ProjectView) -> nat, b: nat)
    requires
        forall|p: ProjectView| #[trigger] f(p) <= b,
    ensures
        total_of(ps, f) <= ps.len() * b,
    decreases ps.len(),
{
    if ps.len() > 0 {
        lemma_total_bound(ps.drop_last(), f, b);
        let n = ps.len() as int;
        assert((n - 1) * b + b == n * b) by (nonlinear_arith);
    }
}

/// The sums the menu shows and alerts on.
pub struct Totals {
    pub agents: u128,
    pub running: u128,
    pub pending: u128,
    pub failed: u128,
    pub cost: u128,
}

/// The five sums over a list of projects, exactly (no wrap-around).
pub fn totals(ps: &Vec<ProjectStatus>) -> (t: Totals)
    ensures
        t.agents == agents_sum(project_views(ps@)),
        t.running == running_sum(project_views(ps@)),
        t.pending == pending_sum(project_views(ps@)),
        t.failed == failed_sum(project_views(ps@)),
        t.cost == cost_sum(project_views(ps@)),
{
    let ghost vs = project_views(ps@);
    let ghost fa = agents_field();
    let ghost fr = running_field();
    let ghost fp = pending_field();
    let ghost fc = cost_field();
    let ghost ff = failed_field();
    let mut t = Totals { agents: 0, running: 0, pending: 0, failed: 0, cost: 0 };
    let mut i: usize = 0;
    assert(vs.take(0) =~= Seq::<ProjectView>::empty());
    while i < ps.len()
        invariant
            i <= ps.len(),
            vs == project_views(ps@),
            fa == agents_field(),
            fr == running_field(),
            fp == pending_field(),
            fc == cost_field(),
            ff == failed_field(),
            t.agents == total_of(vs.take(i as int), fa),
            t.running == total_of(vs.take(i as int), fr),
            t.pending == total_of(vs.take(i as int), fp),
            t.cost == total_of(vs.take(i as int), fc),
            t.failed == total_of(vs.take(i as int), ff),
        decreases ps.len() - i,
    {
        proof {
            let b: nat = 0xffff_ffff_ffff_ffff;
            let k = (i + 1) as int;
            assert(vs.take(k).len() == k);
            assert forall|p: ProjectView| #[trigger] fa(p) <= b by {};
            assert forall|p: ProjectView| #[trigger] fr(p) <= b by {};
            assert forall|p: ProjectView| #[trigger] fp(p) <= b by {};
            assert forall|p: ProjectView| #[trigger] fc(p) <= b by {};
            assert forall|p: ProjectView| #[trigger] ff(p) <= b by {};
            lemma_total_bound(vs.take(k), ff, b);
            lemma_total_take(vs, ff, i as int);
            lemma_total_bound(vs.take(k), fa, b);
            lemma_total_bound(vs.take(k), fr, b);
            lemma_total_bound(vs.take(k), fp, b);
            lemma_total_bound(vs.take(k), fc, b);
            lemma_total_take(vs, fa, i as int);
            lemma_total_take(vs, fr, i as int);
            lemma_total_take(vs, fp, i as int);
            lemma_total_take(vs, fc, i as int);
            assert(k * b <= 0x1_0000_0000_0000_0000 * b) by (nonlinear_arith)
                requires
                    k <= 0x1_0000_0000_0000_0000,
            ;
        }
        let p = &ps[i];
        t.agents = t.agents + p.agents_active as u128;
        t.running = t.running + p.tasks_running as u128;
        t.pending = t.pending + p.tasks_pending as u128;
        t.cost = t.cost + p.total_cost as u128;
        t.failed = t.failed + p.tasks_failed as u128;
        i = i + 1;
    }
    assert(vs.take(ps.len() as int) =~= vs);
    t
}

/// The icon for the current state.
pub fn icon_for_state(state: &AppState) -> (r: IconState)
    ensures
        r == icon_for(state@),
{
    if state.backend_error {
        return IconState::Error;
    }
    if !state.daemon_running {
        return IconState::Offline;
    }
    if state.projects.len() == 0 {
        return IconState::Idle;
    }
    let ghost vs = project_views(state.projects@);
    let mut pending = false;
    let mut active = false;
    let mut i: usize = 0;
    while i < state.projects.len()
        invariant
            i <= state.projects.len(),
            vs == project_views(state.projects@),
            pending == exists|k: int| 0 <= k < i && #[trigger] vs[k].tasks_pending > 0,
            active == exists|k: int| 0 <= k < i && (#[trigger] vs[k].tasks_running > 0 || vs[k].agents_active > 0),
        decreases state.projects.len() - i,
    {
        let p = &state.projects[i];
        assert(vs[i as int] == p@);
        if p.tasks_pending > 0 {
            pending = true;
            assert(vs[i as int].tasks_pending > 0);
        }
        if p.tasks_running > 0 || p.agents_active > 0 {
            active = true;
            assert(vs[i as int].tasks_running > 0 || vs[i as int].agents_active > 0);
        }
        i = i + 1;
    }
    if pending {
        IconState::ApprovalPending
    } else if active {
        IconState::Running
    } else {
        IconState::Idle
    }
}

// ------------------------------------------------------------------------
// Texts
// ------------------------------------------------------------------------

/// The status line at the top of the menu.
pub open spec fn status_text_spec(v: AppView) -> Seq<char> {
    if !v.daemon_running {
        "⚡ Shazam — Backend offline"@
    } else if v.projects.len() == 0 {
        "⚡ Shazam — Running (no projects)"@
    } else {
        "⚡ "@ + decimal(v.projects.len()) + " project(s) | "@ + decimal(agents_sum(v.projects))
            + " agents | "@ + decimal(running_sum(v.projects)) + " tasks | $"@ + money(
            cost_sum(v.projects),
        )
    }
}

/// The menu row of one project.
pub open spec fn project_line(p: ProjectView) -> Seq<char> {
    "● "@ + p.name + "  — "@ + decimal(p.agents_active as nat) + "t/"@ + decimal(
        p.agents_total as nat,
    ) + "  P:"@ + decimal(p.tasks_pending as nat) + " R:"@ + decimal(p.tasks_running as nat)
        + " D:"@ + decimal(p.tasks_done as nat) + " $"@ + money(p.total_cost as nat)
}

/// The tooltip line of one project.
pub open spec fn tooltip_line(p: ProjectView) -> Seq<char> {
    p.name + ": "@ + decimal(p.agents_active as nat) + "a "@ + decimal(p.tasks_running as nat)
        + "t $"@ + money(p.total_cost as nat)
}

/// The tooltip lines of the projects, joined by line breaks.
pub open spec fn tooltip_lines(ps: Seq<ProjectView>) -> Seq<char>
    decreases ps.len(),
{
    if ps.len() == 0 {
        Seq::empty()
    } else if ps.len() == 1 {
        tooltip_line(ps[0])
    } else {
        tooltip_lines(ps.drop_last()) + "\n"@ + tooltip_line(ps.last())
    }
}

/// The tooltip: the product's name without projects, else one line per
/// project.
pub open spec fn tooltip_spec(ps: Seq<ProjectView>) -> Seq<char> {
    if ps.len() == 0 {
        "Shazam — AI Agent Orchestrator"@
    } else {
        tooltip_lines(ps)
    }
}

/// A menu row: its text and whether it can be clicked.
pub struct MenuSlot {
    pub text: String,
    pub enabled: bool,
}

/// The project row at position `i`: the project's line when there is a
/// project there; on the first row, a notice when there are none; else
/// empty and disabled.
pub open spec fn project_slot(ps: Seq<ProjectView>, i: int) -> (Seq<char>, bool) {
    if i < ps.len() {
        (project_line(ps[i]), true)
    } else if i == 0 && ps.len() == 0 {
        ("  No active projects"@, false)
    } else {
        (Seq::empty(), false)
    }
}

/// The row at position `i` that opens a project in a terminal.
pub open spec fn open_slot(ps: Seq<ProjectView>, i: int) -> (Seq<char>, bool) {
    if i < ps.len() {
        ("  ↗ Open "@ + ps[i].name + " in Terminal"@, true)
    } else {
        (Seq::empty(), false)
    }
}

/// The label of a switch: checked or indented.
pub open spec fn check_label(on: bool, name: Seq<char>) -> Seq<char> {
    if on {
        "✓ "@ + name
    } else {
        "  "@ + name
    }
}

/// The label of a switch.
pub fn switch_label(on: bool, name: &str) -> (r: String)
    ensures
        r@ == check_label(on, name@),
{
    let mut r = if on { String::from_str("✓ ") } else { String::from_str("  ") };
    r.append(name);
    r
}

/// The status line.
pub fn status_text(state: &AppState, t: &Totals) -> (r: String)
    requires
        t.agents == agents_sum(state@.projects),
        t.running == running_sum(state@.projects),
        t.cost == cost_sum(state@.projects),
    ensures
        r@ == status_text_spec(state@),
{
    if !state.daemon_running {
        return String::from_str("⚡ Shazam — Backend offline");
    }
    if state.projects.len() == 0 {
        return String::from_str("⚡ Shazam — Running (no projects)");
    }
    let mut r = String::from_str("⚡ ");
    push_decimal(&mut r, state.projects.len() as u128);
    r.append(" project(s) | ");
    push_decimal(&mut r, t.agents);
    r.append(" agents | ");
    push_decimal(&mut r, t.running);
    r.append(" tasks | $");
    push_money(&mut r, t.cost);
    r
}

/// The menu row of one project.
pub fn project_line_text(p: &ProjectStatus) -> (r: String)
    ensures
        r@ == project_line(p@),
{
    let mut r = String::from_str("● ");
    r.append(p.name.as_str());
    r.append("  — ");
    push_decimal(&mut r, p.agents_active as u128);
    r.append("t/");
    push_decimal(&mut r, p.agents_total as u128);
    r.append("  P:");
    push_decimal(&mut r, p.tasks_pending as u128);
    r.append(" R:");
    push_decimal(&mut r, p.tasks_running as u128);
    r.append(" D:");
    push_decimal(&mut r, p.tasks_done as u128);
    r.append(" $");
    push_money(&mut r, p.total_cost as u128);
    r
}

/// The tooltip line of one project.
pub fn tooltip_line_text(p: &ProjectStatus) -> (r: String)
    ensures
        r@ == tooltip_line(p@),
{
    let mut r = String::from_str(p.name.as_str());
    r.append(": ");
    push_decimal(&mut r, p.agents_active as u128);
    r.append("a ");
    push_decimal(&mut r, p.tasks_running as u128);
    r.append("t $");
    push_money(&mut r, p.total_cost as u128);
    r
}

/// The tooltip.
pub fn tooltip_text(ps: &Vec<ProjectStatus>) -> (r: String)
    ensures
        r@ == tooltip_spec(project_views(ps@)),
{
    if ps.len() == 0 {
        return String::from_str("Shazam — AI Agent Orchestrator");
    }
    let ghost vs = project_views(ps@);
    let mut r = tooltip_line_text(&ps[0]);
    assert(vs.take(1).len() == 1 && vs.take(1)[0] == vs[0]);
    let mut i: usize = 1;
    while i < ps.len()
        invariant
            1 <= i <= ps.len(),
            vs == project_views(ps@),
            r@ == tooltip_lines(vs.take(i as int)),
        decreases ps.len() - i,
    {
        r.append("\n");
        let line = tooltip_line_text(&ps[i]);
        r.append(line.as_str());
        assert(vs.take(i + 1).drop_last() =~= vs.take(i as int));
        assert(vs.take(i + 1).last() == ps@[i as int]@);
        i = i + 1;
    }
    assert(vs.take(ps.len() as int) =~= vs);
    r
}

/// The project rows.
pub fn project_slots(ps: &Vec<ProjectStatus>) -> (r: Vec<MenuSlot>)
    ensures
        r.len() == MAX_PROJECTS,
        forall|i: int| 0 <= i < MAX_PROJECTS ==> (#[trigger] r@[i]).text@ == project_slot(project_views(ps@), i).0
            && r@[i].enabled == project_slot(project_views(ps@), i).1,
{
    let ghost vs = project_views(ps@);
    let mut r: Vec<MenuSlot> = Vec::new();
    let mut i: usize = 0;
    while i < MAX_PROJECTS
        invariant
            i <= MAX_PROJECTS,
            r.len() == i,
            vs == project_views(ps@),
            forall|k: int| 0 <= k < i ==> (#[trigger] r@[k]).text@ == project_slot(vs, k).0
                && r@[k].enabled == project_slot(vs, k).1,
        decreases MAX_PROJECTS - i,
    {
        let slot = if i < ps.len() {
            MenuSlot { text: project_line_text(&ps[i]), enabled: true }
        } else if i == 0 && ps.len() == 0 {
            MenuSlot { text: String::from_str("  No active projects"), enabled: false }
        } else {
            MenuSlot { text: String::new(), enabled: false }
        };
        r.push(slot);
        i = i + 1;
    }
    r
}

/// The rows that open a project in a terminal.
pub fn open_slots(ps: &Vec<ProjectStatus>) -> (r: Vec<MenuSlot>)
    ensures
        r.len() == MAX_PROJECTS,
        forall|i: int| 0 <= i < MAX_PROJECTS ==> (#[trigger] r@[i]).text@ == open_slot(project_views(ps@), i).0
            && r@[i].enabled == open_slot(project_views(ps@), i).1,
{
    let ghost vs = project_views(ps@);
    let mut r: Vec<MenuSlot> = Vec::new();
    let mut i: usize = 0;
    while i < MAX_PROJECTS
        invariant
            i <= MAX_PROJECTS,
            r.len() == i,
            vs == project_views(ps@),
            forall|k: int| 0 <= k < i ==> (#[trigger] r@[k]).text@ == open_slot(vs, k).0
                && r@[k].enabled == open_slot(vs, k).1,
        decreases MAX_PROJECTS - i,
    {
        let slot = if i < ps.len() {
            let mut t = String::from_str("  ↗ Open ");
            t.append(ps[i].name.as_str());
            t.append(" in Terminal");
            MenuSlot { text: t, enabled: true }
        } else {
            MenuSlot { text: String::new(), enabled: false }
        };
        r.push(slot);
        i = i + 1;
    }
    r
}

// ------------------------------------------------------------------------
// Programs the menu starts
// ------------------------------------------------------------------------

/// `open -a Terminal`.
pub open spec fn open_terminal_spec() -> LaunchView {
    LaunchView { program: "open"@, args: seq!["-a"@, "Terminal"@] }
}

/// Opens a new terminal window.
pub fn open_terminal() -> (r: Launch)
    ensures
        r@ == open_terminal_spec(),
{
    launch2("open", String::from_str("-a"), String::from_str("Terminal"))
}

/// The shell command that runs the terminal client in a workspace: the
/// workspace is one single-quoted shell word.
pub open spec fn tui_command(workspace: Seq<char>) -> Seq<char> {
    "cd "@ + shell_quote(workspace) + " && shazam"@
}

/// The AppleScript that has Terminal run [`tui_command`]; the command is
/// escaped for the AppleScript string literal.
pub open spec fn tui_script(workspace: Seq<char>) -> Seq<char> {
    "tell application \"Terminal\" to do script \""@ + applescript_escape(tui_command(workspace))
        + "\""@
}

/// Opening the terminal client for a workspace: a plain terminal when the
/// workspace is unknown, else a terminal that changes into it and runs
/// `shazam`.
pub open spec fn tui_launch_spec(workspace: Seq<char>) -> LaunchView {
    if workspace.len() == 0 {
        open_terminal_spec()
    } else {
        LaunchView { program: "osascript"@, args: seq!["-e"@, tui_script(workspace)] }
    }
}

/// Opens the terminal client for a workspace.
pub fn open_tui_for_project(workspace: &str) -> (r: Launch)
    ensures
        r@ == tui_launch_spec(workspace@),
{
    let v = chars_of(workspace);
    if v.len() == 0 {
        return open_terminal();
    }
    let mut command = String::from_str("cd ");
    push_shell_quoted(&mut command, workspace);
    command.append(" && shazam");
    let mut script = String::from_str("tell application \"Terminal\" to do script \"");
    let escaped = applescript_escaped(command.as_str());
    script.append(escaped.as_str());
    script.append("\"");
    launch2("osascript", String::from_str("-e"), script)
}

/// Plays a system sound by name (`Ping`, `Glass`, ...).
pub fn play_sound(name: &str) -> (r: Launch)
    ensures
        r@ == (LaunchView {
            program: "afplay"@,
            args: seq!["/System/Library/Sounds/"@ + name@ + ".aiff"@],
        }),
{
    let mut path = String::from_str("/System/Library/Sounds/");
    path.append(name);
    path.append(".aiff");
    launch1("afplay", path)
}

// ------------------------------------------------------------------------
// The periodic refresh
// ------------------------------------------------------------------------

/// What the menu remembers between refreshes.
pub struct TrayTracker {
    pub current_icon: IconState,
    pub prev_approvals: u128,
    pub prev_failures: u128,
}

/// A desktop notification.
pub struct Notification {
    pub title: String,
    pub body: String,
}

/// Everything one refresh sets on the menu, and the alerts it raises.
pub struct TrayUpdate {
    pub start_enabled: bool,
    pub stop_enabled: bool,
    pub restart_enabled: bool,
    /// The new icon, when it differs from the one shown.
    pub icon_change: Option<IconState>,
    pub status_text: String,
    pub project_slots: Vec<MenuSlot>,
    pub open_slots: Vec<MenuSlot>,
    /// Tasks wait for approval.
    pub notification: Option<Notification>,
    pub sound: Option<Launch>,
    /// Tasks failed.
    pub failure_notification: Option<Notification>,
    pub failure_sound: Option<Launch>,
    pub tooltip: String,
}

/// The count of tasks waiting for approval rose (from any count, zero
/// included).
pub open spec fn approvals_rose(prev: nat, total: nat) -> bool {
    total > prev
}

/// All rows match the projects.
pub open spec fn slots_match(update: TrayUpdate, ps: Seq<ProjectView>) -> bool {
    &&& update.project_slots.len() == MAX_PROJECTS
    &&& update.open_slots.len() == MAX_PROJECTS
    &&& forall|i: int| 0 <= i < MAX_PROJECTS ==> (#[trigger] update.project_slots@[i]).text@
        == project_slot(ps, i).0 && update.project_slots@[i].enabled == project_slot(ps, i).1
    &&& forall|i: int| 0 <= i < MAX_PROJECTS ==> (#[trigger] update.open_slots@[i]).text@
        == open_slot(ps, i).0 && update.open_slots@[i].enabled == open_slot(ps, i).1
}

/// The alerts of a refresh: when the count of tasks waiting for approval rose,
/// a notification (if enabled) and the `Ping` sound (if enabled).
pub open spec fn alerts_match(update: TrayUpdate, v: AppView, prev: nat) -> bool {
    let total = pending_sum(v.projects);
    &&& (approvals_rose(prev, total) && v.notifications_enabled) == (update.notification is Some)
    &&& update.notification matches Some(n) ==> n.title@ == "Shazam — Approval Needed"@
        && n.body@ == decimal(total) + " task(s) awaiting approval"@
    &&& (approvals_rose(prev, total) && v.sounds_enabled) == (update.sound is Some)
    &&& update.sound matches Some(l) ==> l@ == (LaunchView {
        program: "afplay"@,
        args: seq!["/System/Library/Sounds/"@ + "Ping"@ + ".aiff"@],
    })
}

/// The failure alerts of a refresh: when the count of failed tasks rose, a
/// notification (if enabled) and the `Basso` sound (if enabled).
pub open spec fn failure_alerts_match(update: TrayUpdate, v: AppView, prev: nat) -> bool {
    let total = failed_sum(v.projects);
    &&& (total > prev && v.notifications_enabled) == (update.failure_notification is Some)
    &&& update.failure_notification matches Some(n) ==> n.title@ == "Shazam — Task Failed"@
        && n.body@ == decimal(total) + " task(s) failed"@
    &&& (total > prev && v.sounds_enabled) == (update.failure_sound is Some)
    &&& update.failure_sound matches Some(l) ==> l@ == (LaunchView {
        program: "afplay"@,
        args: seq!["/System/Library/Sounds/"@ + "Basso"@ + ".aiff"@],
    })
}

impl TrayTracker {
    /// Before the first refresh: the offline icon, no approvals or failures
    /// seen.
    pub fn new() -> (t: Self)
        ensures
            t.current_icon == IconState::Offline,
            t.prev_approvals == 0,
            t.prev_failures == 0,
    {
        TrayTracker { current_icon: IconState::Offline, prev_approvals: 0, prev_failures: 0 }
    }

    /// One periodic refresh of the menu from the shared state.
    pub fn refresh(&mut self, state: &AppState) -> (u: TrayUpdate)
        ensures
            u.start_enabled == !state.daemon_running,
            u.stop_enabled == state.daemon_running,
            u.restart_enabled == state.daemon_running,
            final(self).current_icon == icon_for(state@),
            u.icon_change == if icon_for(state@) != old(self).current_icon {
                Some(icon_for(state@))
            } else {
                None
            },
            u.status_text@ == status_text_spec(state@),
            slots_match(u, state@.projects),
            alerts_match(u, state@, old(self).prev_approvals as nat),
            final(self).prev_approvals == pending_sum(state@.projects),
            failure_alerts_match(u, state@, old(self).prev_failures as nat),
            final(self).prev_failures == failed_sum(state@.projects),
            u.tooltip@ == tooltip_spec(state@.projects),
    {
        let running = state.daemon_running;
        let new_icon = icon_for_state(state);
        let icon_change = if new_icon != self.current_icon { Some(new_icon) } else { None };
        self.current_icon = new_icon;
        let t = totals(&state.projects);
        let status_text = status_text(state, &t);
        let project_slots = project_slots(&state.projects);
        let open_slots = open_slots(&state.projects);
        let total = t.pending;
        let rose = total > self.prev_approvals;
        let notification = if rose && state.notifications_enabled {
            let mut body = String::new();
            push_decimal(&mut body, total);
            body.append(" task(s) awaiting approval");
            Some(Notification { title: String::from_str("Shazam — Approval Needed"), body })
        } else {
            None
        };
        let sound = if rose && state.sounds_enabled {
            Some(play_sound("Ping"))
        } else {
            None
        };
        self.prev_approvals = total;
        let failed = t.failed;
        let failed_rose = failed > self.prev_failures;
        let failure_notification = if failed_rose && state.notifications_enabled {
            let mut body = String::new();
            push_decimal(&mut body, failed);
            body.append(" task(s) failed");
            Some(Notification { title: String::from_str("Shazam — Task Failed"), body })
        } else {
            None
        };
        let failure_sound = if failed_rose && state.sounds_enabled {
            Some(play_sound("Basso"))
        } else {
            None
        };
        self.prev_failures = failed;
        let tooltip = tooltip_text(&state.projects);
        TrayUpdate {
            start_enabled: !running,
            stop_enabled: running,
            restart_enabled: running,
            icon_change,
            status_text,
            project_slots,
            open_slots,
            notification,
            sound,
            failure_notification,
            failure_sound,
            tooltip,
        }
    }
}

// ------------------------------------------------------------------------
// Clicks
// ------------------------------------------------------------------------

/// A click on a menu row.
pub enum MenuCommand {
    Quit,
    StartBackend,
    StopBackend,
    RestartBackend,
    OpenTerminal,
    ToggleNotifications,
    ToggleSounds,
    ToggleAutostart,
    /// A project row, or the row that opens that project, by position.
    OpenProject(usize),
}

/// What the menu is to do after a click, in order.
pub enum TrayEffect {
    /// Leave the event loop.
    Exit,
    SetStatusText(String),
    DisableStart,
    /// Make sure the daemon runs, in the background.
    EnsureDaemonInBackground,
    /// Stop the daemon, waiting for it.
    StopDaemon,
    /// In the background: wait a second, then make sure the daemon runs.
    RestartDaemonInBackground,
    Spawn(Launch),
    SetNotificationsLabel(String),
    SetSoundsLabel(String),
    /// Install or remove the login item.
    ToggleAutostart,
}

/// The effect sets this status text.
pub open spec fn sets_status(e: TrayEffect, text: Seq<char>) -> bool {
    e matches TrayEffect::SetStatusText(t) && t@ == text
}

/// What a click does to the state and which effects follow.
pub open spec fn command_spec(cmd: MenuCommand, before: AppView, after: AppView, effects: Seq<TrayEffect>) -> bool {
    match cmd {
        MenuCommand::Quit => after == before && effects.len() == 1 && effects[0] is Exit,
        MenuCommand::StartBackend => after == before && effects.len() == 3 && sets_status(
            effects[0],
            "⚡ Shazam — Starting backend..."@,
        ) && effects[1] is DisableStart && effects[2] is EnsureDaemonInBackground,
        MenuCommand::StopBackend => after == offline_view(before) && effects.len() == 1
            && effects[0] is StopDaemon,
        MenuCommand::RestartBackend => after == before && effects.len() == 3 && sets_status(
            effects[0],
            "⚡ Shazam — Restarting..."@,
        ) && effects[1] is StopDaemon && effects[2] is RestartDaemonInBackground,
        MenuCommand::OpenTerminal => after == before && effects.len() == 1 && (effects[0] matches TrayEffect::Spawn(l)
            && l@ == open_terminal_spec()),
        MenuCommand::ToggleNotifications => after == (AppView {
            notifications_enabled: !before.notifications_enabled,
            ..before
        }) && effects.len() == 1 && (effects[0] matches TrayEffect::SetNotificationsLabel(t)
            && t@ == check_label(after.notifications_enabled, "Notifications"@)),
        MenuCommand::ToggleSounds => after == (AppView { sounds_enabled: !before.sounds_enabled, ..before })
            && effects.len() == 1 && (effects[0] matches TrayEffect::SetSoundsLabel(t) && t@
            == check_label(after.sounds_enabled, "Sounds"@)),
        MenuCommand::ToggleAutostart => after == before && effects.len() == 1
            && effects[0] is ToggleAutostart,
        MenuCommand::OpenProject(i) => after == before && if i < before.projects.len() {
            effects.len() == 1 && (effects[0] matches TrayEffect::Spawn(l) && l@ == tui_launch_spec(
                before.projects[i as int].workspace,
            ))
        } else {
            effects.len() == 0
        },
    }
}

/// Handles a click on the menu.
pub fn handle_command(state: &mut AppState, cmd: MenuCommand) -> (effects: Vec<TrayEffect>)
    ensures
        command_spec(cmd, old(state)@, final(state)@, effects@),
{
    let mut effects: Vec<TrayEffect> = Vec::new();
    match cmd {
        MenuCommand::Quit => {
            effects.push(TrayEffect::Exit);
        },
        MenuCommand::StartBackend => {
            effects.push(TrayEffect::SetStatusText(String::from_str("⚡ Shazam — Starting backend...")));
            effects.push(TrayEffect::DisableStart);
            effects.push(TrayEffect::EnsureDaemonInBackground);
        },
        MenuCommand::StopBackend => {
            state.mark_daemon_offline();
            effects.push(TrayEffect::StopDaemon);
        },
        MenuCommand::RestartBackend => {
            effects.push(TrayEffect::SetStatusText(String::from_str("⚡ Shazam — Restarting...")));
            effects.push(TrayEffect::StopDaemon);
            effects.push(TrayEffect::RestartDaemonInBackground);
        },
        MenuCommand::OpenTerminal => {
            effects.push(TrayEffect::Spawn(open_terminal()));
        },
        MenuCommand::ToggleNotifications => {
            state.notifications_enabled = !state.notifications_enabled;
            effects.push(TrayEffect::SetNotificationsLabel(switch_label(state.notifications_enabled, "Notifications")));
        },
        MenuCommand::ToggleSounds => {
            state.sounds_enabled = !state.sounds_enabled;
            effects.push(TrayEffect::SetSoundsLabel(switch_label(state.sounds_enabled, "Sounds")));
        },
        MenuCommand::ToggleAutostart => {
            effects.push(TrayEffect::ToggleAutostart);
        },
        MenuCommand::OpenProject(i) => {
            if i < state.projects.len() {
                let l = open_tui_for_project(state.projects[i].workspace.as_str());
                effects.push(TrayEffect::Spawn(l));
            }
        },
    }
    effects
}

} // verus!
