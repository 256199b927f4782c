//! Starting the companion at login through a launchd agent.

use vstd::prelude::*;

use crate::daemon::home_dir;
use crate::launch::{launch2, Launch, LaunchView};
use crate::text::{join_path, join_path_exec, opt_text};
use crate::tray::{check_label, switch_label};

verus! {

/// The launchd agent's file below a home directory.
pub open spec fn plist_path_spec(home: Seq<char>) -> Seq<char> {
    join_path(home, "Library/LaunchAgents/com.shazam.tray.plist"@)
}

/// The launchd agent's file below a home directory.
pub fn plist_path_for(home: &str) -> (r: String)
    ensures
        r@ == plist_path_spec(home@),
{
    join_path_exec(home, "Library/LaunchAgents/com.shazam.tray.plist")
}

/// The launchd agent's file, when there is a home directory.
pub fn autostart_plist_path_from(home: Option<&str>) -> (r: Option<String>)
    ensures
        match home {
            Some(h) => r matches Some(p) && p@ == plist_path_spec(h@),
            None => r is None,
        },
{
    match home {
        Some(h) => Some(plist_path_for(h)),
        None => None,
    }
}

/// The launchd agent's file for the current user
/// ([`autostart_plist_path_from`] of the home directory); `None` without a
/// home directory (then the agent counts as not installed).
pub fn autostart_plist_path() -> (r: Option<String>)
    ensures
        r matches Some(p) ==> exists|h: Seq<char>| #[trigger] plist_path_spec(h) == p@,
{
    let home = home_dir();
    let r = match &home {
        Some(h) => autostart_plist_path_from(Some(h.as_str())),
        None => autostart_plist_path_from(None),
    };
    proof {
        if let Some(h) = home {
            assert(plist_path_spec(h@) == r->0@);
        }
    }
    r
}

pub open spec fn plist_head() -> Seq<char> {
    "<?xml version=\"1.0\" encoding=\"UTF-8\"?>\n<!DOCTYPE plist PUBLIC \"-//Apple//DTD PLIST 1.0//EN\" \"http://www.apple.com/DTDs/PropertyList-1.0.dtd\">\n<plist version=\"1.0\">\n<dict>\n    <key>Label</key><string>com.shazam.tray</string>\n    <key>ProgramArguments</key><array><string>"@
}

pub open spec fn plist_after_binary() -> Seq<char> {
    "</string></array>\n    <key>RunAtLoad</key><true/>\n    <key>KeepAlive</key><false/>\n    <key>StandardOutPath</key><string>"@
}

pub open spec fn plist_after_stdout() -> Seq<char> {
    "/tray.stdout.log</string>\n    <key>StandardErrorPath</key><string>"@
}

pub open spec fn plist_tail() -> Seq<char> {
    "/tray.stderr.log</string>\n</dict>\n</plist>"@
}

/// The launchd agent: runs `binary` at load, not kept alive, output and
/// errors logged to `tray.stdout.log` and `tray.stderr.log` in `logs`.
pub open spec fn plist_text(binary: Seq<char>, logs: Seq<char>) -> Seq<char> {
    plist_head() + binary + plist_after_binary() + logs + plist_after_stdout() + logs + plist_tail()
}

/// The launchd agent's contents.
pub fn launch_agent_plist(binary: &str, logs: &str) -> (r: String)
    ensures
        r@ == plist_text(binary@, logs@),
{
    let mut r = String::from_str("<?xml version=\"1.0\" encoding=\"UTF-8\"?>\n<!DOCTYPE plist PUBLIC \"-//Apple//DTD PLIST 1.0//EN\" \"http://www.apple.com/DTDs/PropertyList-1.0.dtd\">\n<plist version=\"1.0\">\n<dict>\n    <key>Label</key><string>com.shazam.tray</string>\n    <key>ProgramArguments</key><array><string>");
    r.append(binary);
    r.append("</string></array>\n    <key>RunAtLoad</key><true/>\n    <key>KeepAlive</key><false/>\n    <key>StandardOutPath</key><string>");
    r.append(logs);
    r.append("/tray.stdout.log</string>\n    <key>StandardErrorPath</key><string>");
    r.append(logs);
    r.append("/tray.stderr.log</string>\n</dict>\n</plist>");
    r
}

/// One step of installing or removing the agent.
pub enum AutostartStep {
    /// Run this command and wait for it.
    Run(Launch),
    /// Remove this file.
    Remove(String),
    /// Create this directory and its parents.
    CreateDirAll(String),
    /// Write this text to this file.
    Write { path: String, contents: String },
}

/// The abstract value of an [`AutostartStep`].
pub enum StepView {
    Run(LaunchView),
    Remove(Seq<char>),
    CreateDirAll(Seq<char>),
    Write(Seq<char>, Seq<char>),
}

impl View for AutostartStep {
    type V = StepView;

    open spec fn view(&self) -> StepView {
        match self {
            AutostartStep::Run(l) => StepView::Run(l@),
            AutostartStep::Remove(p) => StepView::Remove(p@),
            AutostartStep::CreateDirAll(p) => StepView::CreateDirAll(p@),
            AutostartStep::Write { path, contents } => StepView::Write(path@, contents@),
        }
    }
}

/// The steps of one way of toggling, and the menu label afterwards.
pub struct AutostartPlan {
    pub steps: Vec<AutostartStep>,
    pub label: String,
}

/// The views of a list of steps.
pub open spec fn step_views(s: Seq<AutostartStep>) -> Seq<StepView> {
    s.map_values(|x: AutostartStep| x@)
}

/// Both ways of toggling for one agent file: the caller removes the agent
/// if the file exists, installs it otherwise.
pub struct AutostartToggle {
    pub plist_path: String,
    pub when_installed: AutostartPlan,
    pub when_missing: AutostartPlan,
}

/// The program the agent starts: this executable when known, else
/// `<home>/bin/shazam-tray`.
pub open spec fn agent_binary(home: Seq<char>, current_exe: Option<Seq<char>>) -> Seq<char> {
    match current_exe {
        Some(e) => e,
        None => join_path(join_path(home, "bin"@), "shazam-tray"@),
    }
}

/// Removing the agent: unload it, delete its file; then the switch reads
/// unchecked.
pub open spec fn removal_spec(home: Seq<char>, plan: Seq<StepView>, label: Seq<char>) -> bool {
    let path = plist_path_spec(home);
    &&& plan == seq![
        StepView::Run(LaunchView { program: "launchctl"@, args: seq!["unload"@, path] }),
        StepView::Remove(path),
    ]
    &&& label == check_label(false, "Start on Login"@)
}

/// Installing the agent: create its directory and the log directory
/// (`<home>/.shazam/logs`), write its file, load it; then the switch reads
/// checked.
pub open spec fn install_spec(home: Seq<char>, current_exe: Option<Seq<char>>, plan: Seq<StepView>, label: Seq<char>) -> bool {
    let path = plist_path_spec(home);
    let logs = join_path(home, ".shazam/logs"@);
    &&& plan == seq![
        StepView::CreateDirAll(join_path(home, "Library/LaunchAgents"@)),
        StepView::CreateDirAll(logs),
        StepView::Write(path, plist_text(agent_binary(home, current_exe), logs)),
        StepView::Run(LaunchView { program: "launchctl"@, args: seq!["load"@, path] }),
    ]
    &&& label == check_label(true, "Start on Login"@)
}

/// The toggle is the one for this home directory.
pub open spec fn toggle_for_home(t: AutostartToggle, home: Seq<char>, current_exe: Option<Seq<char>>) -> bool {
    &&& t.plist_path@ == plist_path_spec(home)
    &&& removal_spec(home, step_views(t.when_installed.steps@), t.when_installed.label@)
    &&& install_spec(home, current_exe, step_views(t.when_missing.steps@), t.when_missing.label@)
}

/// Both ways of toggling the agent below a home directory.
pub fn toggle_autostart_for(home: &str, current_exe: Option<&str>) -> (t: AutostartToggle)
    ensures
        toggle_for_home(t, home@, opt_text(current_exe)),
{
    let path = plist_path_for(home);

    let mut removal: Vec<AutostartStep> = Vec::new();
    removal.push(AutostartStep::Run(launch2("launchctl", String::from_str("unload"), path.clone())));
    removal.push(AutostartStep::Remove(path.clone()));
    let ghost rv = step_views(removal@);
    assert(rv =~= seq![
        StepView::Run(LaunchView { program: "launchctl"@, args: seq!["unload"@, path@] }),
        StepView::Remove(path@),
    ]);

    let agents_dir = join_path_exec(home, "Library/LaunchAgents");
    let binary = match current_exe {
        Some(e) => String::from_str(e),
        None => {
            let bin = join_path_exec(home, "bin");
            join_path_exec(bin.as_str(), "shazam-tray")
        },
    };
    let logs = join_path_exec(home, ".shazam/logs");
    let contents = launch_agent_plist(binary.as_str(), logs.as_str());
    let mut install: Vec<AutostartStep> = Vec::new();
    install.push(AutostartStep::CreateDirAll(agents_dir));
    install.push(AutostartStep::CreateDirAll(logs.clone()));
    install.push(AutostartStep::Write { path: path.clone(), contents });
    install.push(AutostartStep::Run(launch2("launchctl", String::from_str("load"), path.clone())));
    let ghost iv = step_views(install@);
    assert(iv =~= seq![
        StepView::CreateDirAll(join_path(home@, "Library/LaunchAgents"@)),
        StepView::CreateDirAll(logs@),
        StepView::Write(path@, plist_text(binary@, logs@)),
        StepView::Run(LaunchView { program: "launchctl"@, args: seq!["load"@, path@] }),
    ]);

    AutostartToggle {
        plist_path: path,
        when_installed: AutostartPlan { steps: removal, label: switch_label(false, "Start on Login") },
        when_missing: AutostartPlan { steps: install, label: switch_label(true, "Start on Login") },
    }
}

/// Both ways of toggling the agent, when there is a home directory; there
/// is nothing to toggle without one.
pub fn toggle_autostart_from(home: Option<&str>, current_exe: Option<&str>) -> (r: Option<AutostartToggle>)
    ensures
        match home {
            Some(h) => r matches Some(t) && toggle_for_home(t, h@, opt_text(current_exe)),
            None => r is None,
        },
{
    match home {
        Some(h) => Some(toggle_autostart_for(h, current_exe)),
        None => None,
    }
}

/// Both ways of toggling the agent for the current user
/// ([`toggle_autostart_from`] of the home directory); `None` when there is
/// no home directory.
pub fn toggle_autostart(current_exe: Option<&str>) -> (r: Option<AutostartToggle>)
    ensures
        r matches Some(t) ==> exists|h: Seq<char>| #[trigger] toggle_for_home(t, h, opt_text(current_exe)),
{
    let home = home_dir();
    let r = match &home {
        Some(h) => toggle_autostart_from(Some(h.as_str()), current_exe),
        None => toggle_autostart_from(None, current_exe),
    };
    proof {
        if let Some(h) = home {
            assert(toggle_for_home(r->0, h@, opt_text(current_exe)));
        }
    }
    r
}

/// The regular files there are after one step, by path: removing takes the
/// file away, writing puts it there; creating directories and running
/// `launchctl` change no regular file.
pub open spec fn apply_step(files: Set<Seq<char>>, step: StepView) -> Set<Seq<char>> {
    match step {
        StepView::Remove(p) => files.remove(p),
        StepView::Write(p, _) => files.insert(p),
        _ => files,
    }
}

/// The regular files there are after the steps, when each succeeds.
pub open spec fn apply_steps(files: Set<Seq<char>>, steps: Seq<StepView>) -> Set<Seq<char>>
    decreases steps.len(),
{
    if steps.len() == 0 {
        files
    } else {
        apply_steps(apply_step(files, steps[0]), steps.drop_first())
    }
}

/// One toggle: the plan for an installed agent when its file exists, else
/// the plan for a missing one; the files afterwards and the switch's label.
pub open spec fn toggle_once(t: AutostartToggle, files: Set<Seq<char>>) -> (Set<Seq<char>>, Seq<char>) {
    if files.contains(t.plist_path@) {
        (apply_steps(files, step_views(t.when_installed.steps@)), t.when_installed.label@)
    } else {
        (apply_steps(files, step_views(t.when_missing.steps@)), t.when_missing.label@)
    }
}

} // verus!
