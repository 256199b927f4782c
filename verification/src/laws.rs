//! Properties that span several functions of the library.

use vstd::prelude::*;

use crate::autostart::{apply_step, apply_steps, toggle_for_home, toggle_once, AutostartToggle, StepView};
use crate::quote::{applescript_escape, applescript_unescape, lemma_applescript_reads_back, lemma_shell_quote_reads_back, shell_quote, shell_word};
use crate::daemon::{start_event_fits, start_step_spec, StartAction, StartEvent, StartStep, START_PORT_CHECKS};
use crate::state::{failed_start_view, polled_view, AppView, ProjectView};
use crate::json::{counted_projects, Json};
use crate::text::{contains, find_from, matches_at, money, decimal, digit_char, digits_value, is_digit, is_space, parse_u32, trim, trim_end, trim_start, unsigned_digits};
use crate::tray::{
    alerts_match, command_spec, failed_sum, failure_alerts_match, has_pending, icon_color_spec, icon_for, open_slot, pending_sum,
    check_label, project_line, project_slot, status_text_spec, tui_command, tui_launch_spec, tui_script, IconState, MenuCommand, TrayEffect, TrayUpdate, MAX_PROJECTS,
};

verus! {

/// The icon is red exactly when the backend is in error.
pub proof fn law_red_iff_error(v: AppView)
    ensures
        (icon_color_spec(icon_for(v)) == (255u8, 60u8, 60u8)) == v.backend_error,
{
}

/// The icon is gray exactly when the daemon is not running and the
/// backend is not in error.
pub proof fn law_gray_iff_offline(v: AppView)
    ensures
        (icon_color_spec(icon_for(v)) == (120u8, 120u8, 120u8)) == (!v.daemon_running && !v.backend_error),
{
}

/// The icon is orange (approval pending) exactly when the daemon runs
/// without error and some project has tasks waiting for approval.
pub proof fn law_orange_iff_pending(v: AppView)
    ensures
        (icon_for(v) == IconState::ApprovalPending) == (!v.backend_error && v.daemon_running
            && has_pending(v.projects)),
        (icon_for(v) == IconState::ApprovalPending) == (!v.backend_error && v.daemon_running
            && exists|i: int| 0 <= i < v.projects.len() && #[trigger] v.projects[i].tasks_pending > 0),
{
}

/// With the daemon running, no error and no task waiting for approval, the
/// icon is green (running) exactly when some project, at any position, has
/// running tasks or active agents; otherwise it is yellow (idle).
pub proof fn law_green_iff_activity(v: AppView)
    requires
        !v.backend_error,
        v.daemon_running,
        forall|i: int| 0 <= i < v.projects.len() ==> #[trigger] v.projects[i].tasks_pending == 0,
    ensures
        (icon_for(v) == IconState::Running) == exists|i: int|
            0 <= i < v.projects.len() && (#[trigger] v.projects[i].tasks_running > 0
                || v.projects[i].agents_active > 0),
        (icon_for(v) == IconState::Running) || icon_for(v) == IconState::Idle,
{
}

proof fn lemma_found_before(s: Seq<char>, pat: Seq<char>, i: int, k: int)
    requires
        0 <= i <= k,
        matches_at(s, pat, k),
    ensures
        find_from(s, pat, i) is Some,
    decreases k - i,
{
    if i < k && !matches_at(s, pat, i) {
        lemma_found_before(s, pat, i + 1, k);
    }
}

/// `mid` occurs in `a + mid + b`.
proof fn lemma_contains_middle(a: Seq<char>, mid: Seq<char>, b: Seq<char>)
    ensures
        contains(a + mid + b, mid),
{
    let s = a + mid + b;
    assert(s.subrange(a.len() as int, (a.len() + mid.len()) as int) =~= mid);
    lemma_found_before(s, mid, 0, a.len() as int);
}

/// A project's menu row begins with its name and shows, in this order, its
/// tasks waiting for approval after `P:`, its running tasks after `R:`, its
/// finished tasks after `D:` and its cost after `$`; and its agents as
/// `<active>t/<total>`.
pub proof fn law_row_shows_counts(p: ProjectView)
    ensures
        project_line(p).subrange(0, 2 + p.name.len() as int) == "● "@ + p.name,
        contains(
            project_line(p),
            "  P:"@ + decimal(p.tasks_pending as nat) + " R:"@ + decimal(p.tasks_running as nat)
                + " D:"@ + decimal(p.tasks_done as nat) + " $"@ + money(p.total_cost as nat),
        ),
        contains(
            project_line(p),
            "  — "@ + decimal(p.agents_active as nat) + "t/"@ + decimal(p.agents_total as nat) + "  P:"@,
        ),
{
    let head = "● "@ + p.name;
    let agents = "  — "@ + decimal(p.agents_active as nat) + "t/"@ + decimal(p.agents_total as nat);
    let counts = "  P:"@ + decimal(p.tasks_pending as nat) + " R:"@ + decimal(p.tasks_running as nat)
        + " D:"@ + decimal(p.tasks_done as nat) + " $"@ + money(p.total_cost as nat);
    assert(project_line(p) =~= head + agents + counts);
    assert("● "@.len() == 2) by {
        reveal_strlit("● ");
    }
    assert(project_line(p).subrange(0, 2 + p.name.len() as int) =~= head);
    assert(project_line(p) =~= (head + agents) + counts + Seq::<char>::empty());
    lemma_contains_middle(head + agents, counts, Seq::empty());
    let tail = counts.subrange(4, counts.len() as int);
    assert("  P:"@.len() == 4) by {
        reveal_strlit("  P:");
    }
    assert(counts =~= "  P:"@ + tail);
    assert(project_line(p) =~= head + (agents + "  P:"@) + tail);
    lemma_contains_middle(head, agents + "  P:"@, tail);
}

/// Counting tasks changes only a project's task counters: its name,
/// workspace, status, agents and cost stay as the registry gave them, and
/// no project is added, dropped or moved.
pub proof fn law_counting_keeps_registry_fields(ps: Seq<ProjectView>, doc: Json, i: int)
    requires
        0 <= i < ps.len(),
    ensures
        counted_projects(ps, doc).len() == ps.len(),
        counted_projects(ps, doc)[i].name == ps[i].name,
        counted_projects(ps, doc)[i].workspace == ps[i].workspace,
        counted_projects(ps, doc)[i].status == ps[i].status,
        counted_projects(ps, doc)[i].agents_active == ps[i].agents_active,
        counted_projects(ps, doc)[i].agents_total == ps[i].agents_total,
        counted_projects(ps, doc)[i].total_cost == ps[i].total_cost,
        counted_projects(ps, doc)[i].git_branch == ps[i].git_branch,
{
}

/// A failed start turns the icon red.
pub proof fn law_failed_start_is_red(v: AppView)
    ensures
        icon_for(failed_start_view(v)) == IconState::Error,
{
}

/// A refresh notifies of failures exactly when the count of failed tasks
/// rose and notifications are on.
pub proof fn law_failure_alert_on_rise(u: TrayUpdate, v: AppView, prev: nat)
    requires
        failure_alerts_match(u, v, prev),
    ensures
        (u.failure_notification is Some) == (failed_sum(v.projects) > prev && v.notifications_enabled),
        (u.failure_sound is Some) == (failed_sum(v.projects) > prev && v.sounds_enabled),
{
}

/// After a poll that found the daemon unreachable, the menu shows it
/// offline: the offline icon (red instead while an earlier error stands)
/// and status line, and no clickable project row.
pub proof fn law_unreachable_shows_offline(v: AppView, projects: Option<Seq<ProjectView>>, i: int)
    requires
        0 <= i < MAX_PROJECTS,
    ensures
        icon_for(polled_view(v, false, projects)) == if v.backend_error {
            IconState::Error
        } else {
            IconState::Offline
        },
        status_text_spec(polled_view(v, false, projects)) == "⚡ Shazam — Backend offline"@,
        !project_slot(polled_view(v, false, projects).projects, i).1,
        !open_slot(polled_view(v, false, projects).projects, i).1,
{
}

/// A project row, and the row that opens it, can be clicked exactly when
/// there is a project at that position.
pub proof fn law_rows_follow_projects(ps: Seq<ProjectView>, i: int)
    requires
        0 <= i < MAX_PROJECTS,
    ensures
        project_slot(ps, i).1 == (i < ps.len()),
        open_slot(ps, i).1 == (i < ps.len()),
{
}

/// Toggling notifications twice gives back the state before.
pub proof fn law_notifications_toggle_twice(
    a: AppView,
    b: AppView,
    c: AppView,
    e1: Seq<TrayEffect>,
    e2: Seq<TrayEffect>,
)
    requires
        command_spec(MenuCommand::ToggleNotifications, a, b, e1),
        command_spec(MenuCommand::ToggleNotifications, b, c, e2),
    ensures
        c == a,
{
}

/// Toggling sounds twice gives back the state before.
pub proof fn law_sounds_toggle_twice(a: AppView, b: AppView, c: AppView, e1: Seq<TrayEffect>, e2: Seq<TrayEffect>)
    requires
        command_spec(MenuCommand::ToggleSounds, a, b, e1),
        command_spec(MenuCommand::ToggleSounds, b, c, e2),
    ensures
        c == a,
{
}

/// A refresh alerts (by notification or sound) only when the count of
/// tasks waiting for approval rose; a rise always alerts when
/// notifications are on, the first tasks after none included.
pub proof fn law_alert_on_rise(u: TrayUpdate, v: AppView, prev: nat)
    requires
        alerts_match(u, v, prev),
    ensures
        (u.notification is Some || u.sound is Some) ==> pending_sum(v.projects) > prev,
        (pending_sum(v.projects) > prev && v.notifications_enabled) ==> u.notification is Some,
        (pending_sum(v.projects) > prev && v.sounds_enabled) ==> u.sound is Some,
{
}

/// Starting the daemon checks its port at most [`START_PORT_CHECKS`]
/// times, and reports success only right after the port answered.
pub proof fn law_start_bounded(step: StartStep, ev: StartEvent, next: StartStep, a: StartAction)
    requires
        start_event_fits(step, ev),
        start_step_spec(step, ev, next, a),
    ensures
        next matches StartStep::Checking(k) ==> k < START_PORT_CHECKS,
        a matches StartAction::Finish(Ok(_)) ==> ev == StartEvent::PortChecked(true),
{
}

proof fn lemma_digit(d: int)
    requires
        0 <= d < 10,
    ensures
        is_digit(digit_char(d)),
        (digit_char(d) as nat) - ('0' as nat) == d,
{
    assert('0' as nat == 48 && '1' as nat == 49 && '2' as nat == 50 && '3' as nat == 51 && '4' as nat == 52);
    assert('5' as nat == 53 && '6' as nat == 54 && '7' as nat == 55 && '8' as nat == 56 && '9' as nat == 57);
}

proof fn lemma_decimal(n: nat)
    ensures
        decimal(n).len() >= 1,
        forall|i: int| 0 <= i < decimal(n).len() ==> is_digit(#[trigger] decimal(n)[i]),
        digits_value(decimal(n)) == n,
    decreases n,
{
    if n < 10 {
        lemma_digit(n as int);
        let s = seq![digit_char(n as int)];
        assert(s.drop_last() =~= Seq::<char>::empty());
        assert(digits_value(s) == digits_value(s.drop_last()) * 10 + ((s.last() as nat) - ('0' as nat)) as nat);
        assert(digits_value(Seq::<char>::empty()) == 0);
    } else {
        lemma_digit((n % 10) as int);
        lemma_decimal(n / 10);
        let d = decimal(n / 10);
        assert(decimal(n).drop_last() =~= d);
        assert(forall|i: int| 0 <= i < d.len() ==> decimal(n)[i] == d[i]);
        let s = decimal(n);
        assert(s.last() == digit_char((n % 10) as int));
        assert(digits_value(s) == digits_value(d) * 10 + ((s.last() as nat) - ('0' as nat)) as nat);
        assert((n / 10) * 10 + n % 10 == n);
    }
}

/// A pid written in decimal reads back as the same pid: the process that
/// is probed or ended is the one the pid file names.
pub proof fn law_pid_roundtrip(pid: u32)
    ensures
        parse_u32(trim(decimal(pid as nat))) == Some(pid),
{
    let s = decimal(pid as nat);
    lemma_decimal(pid as nat);
    assert(!is_space(s[0]));
    assert(trim_start(s) == s);
    assert(!is_space(s.last()));
    assert(trim_end(s) == s);
    assert(unsigned_digits(s) == s);
}

/// Opening a project runs, in Terminal, a shell command that changes into
/// exactly the workspace (read back as one shell word) and runs `shazam`;
/// the AppleScript literal reads back as that command.
pub proof fn law_tui_runs_in_workspace(workspace: Seq<char>)
    requires
        workspace.len() > 0,
    ensures
        tui_launch_spec(workspace).program == "osascript"@,
        tui_launch_spec(workspace).args == seq!["-e"@, tui_script(workspace)],
        tui_command(workspace) == "cd "@ + shell_quote(workspace) + " && shazam"@,
        applescript_unescape(applescript_escape(tui_command(workspace))) == Some(tui_command(workspace)),
        shell_word(shell_quote(workspace), false) == Some(workspace),
{
    lemma_applescript_reads_back(tui_command(workspace));
    lemma_shell_quote_reads_back(workspace);
}

/// Toggling the login item flips whether the agent's file is there and
/// labels the switch accordingly; toggling twice gives back the files'
/// state before (when every step succeeds).
pub proof fn law_autostart_toggle_twice(t: AutostartToggle, home: Seq<char>, exe: Option<Seq<char>>, files: Set<Seq<char>>)
    requires
        toggle_for_home(t, home, exe),
    ensures
        toggle_once(t, files).0.contains(t.plist_path@) == !files.contains(t.plist_path@),
        toggle_once(t, files).1 == check_label(toggle_once(t, files).0.contains(t.plist_path@), "Start on Login"@),
        toggle_once(t, toggle_once(t, files).0).0.contains(t.plist_path@) == files.contains(t.plist_path@),
{
    lemma_toggle_flips(t, home, exe, files);
    lemma_toggle_flips(t, home, exe, toggle_once(t, files).0);
}

proof fn lemma_toggle_flips(t: AutostartToggle, home: Seq<char>, exe: Option<Seq<char>>, files: Set<Seq<char>>)
    requires
        toggle_for_home(t, home, exe),
    ensures
        toggle_once(t, files).0.contains(t.plist_path@) == !files.contains(t.plist_path@),
        toggle_once(t, files).1 == check_label(!files.contains(t.plist_path@), "Start on Login"@),
{
    let path = t.plist_path@;
    reveal_with_fuel(apply_steps, 5);
    if files.contains(path) {
        let steps = crate::autostart::step_views(t.when_installed.steps@);
        assert(steps.drop_first().drop_first() =~= Seq::<StepView>::empty());
        let f1 = apply_step(files, steps[0]);
        assert(apply_steps(files, steps) == apply_steps(f1, steps.drop_first()));
        assert(apply_steps(f1, steps.drop_first()) == apply_steps(apply_step(f1, steps[1]), steps.drop_first().drop_first()));
    } else {
        let steps = crate::autostart::step_views(t.when_missing.steps@);
        let s1 = steps.drop_first();
        let s2 = s1.drop_first();
        let s3 = s2.drop_first();
        assert(s3.drop_first() =~= Seq::<StepView>::empty());
        let f1 = apply_step(files, steps[0]);
        let f2 = apply_step(f1, s1[0]);
        let f3 = apply_step(f2, s2[0]);
        let f4 = apply_step(f3, s3[0]);
        assert(apply_steps(files, steps) == apply_steps(f1, s1));
        assert(apply_steps(f1, s1) == apply_steps(f2, s2));
        assert(apply_steps(f2, s2) == apply_steps(f3, s3));
        assert(apply_steps(f3, s3) == apply_steps(f4, s3.drop_first()));
        assert(f3.contains(path));
    }
}

} // verus!
