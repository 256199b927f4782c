//! Managing the backend daemon: where its pid file lives, how to tell it is
//! alive, how to find the `shazam` command line tool, and the steps that
//! start and stop it.

use vstd::prelude::*;

use crate::launch::{launch1, launch2, Launch, LaunchView};
use crate::state::{failed_start_view, running_view, AppState, DAEMON_PORT};
use crate::text::{
    chars_of, decimal, decimal_string, join_path, join_path_exec, opt_text, parse_u32, parse_u32_exec, trim,
    trimmed,
};

verus! {

// ------------------------------------------------------------------------
// Outside calls
// ------------------------------------------------------------------------

/// `dirs::home_dir`, the path turned into text (`Path::to_string_lossy`).
/// The answer comes from the environment (`$HOME`, else the user database),
/// so nothing is stated of it.
#[verifier::external_body]
pub(crate) fn home_dir() -> (r: Option<String>) {
    dirs::home_dir().map(|p| p.to_string_lossy().into_owned())
}

/// What `String::from_utf8_lossy` makes of these bytes: the UTF-8 text,
/// each ill-formed sequence replaced by U+FFFD.
pub uninterp spec fn utf8_lossy(bytes: Seq<u8>) -> Seq<char>;

/// `String::from_utf8_lossy`, as an owned string.
#[verifier::external_body]
fn lossy_text(bytes: &[u8]) -> (s: String)
    ensures
        s@ == utf8_lossy(bytes@),
{
    String::from_utf8_lossy(bytes).into_owned()
}

// ------------------------------------------------------------------------
// The pid file
// ------------------------------------------------------------------------

/// The pid file below the home directory, or below the current directory
/// when there is no home.
pub open spec fn pid_path_spec(home: Option<Seq<char>>) -> Seq<char> {
    join_path(
        match home {
            Some(h) => h,
            None => "."@,
        },
        ".shazam/daemon.pid"@,
    )
}

/// The pid file's path for a given home directory.
pub fn pid_path_for(home: Option<&str>) -> (r: String)
    ensures
        r@ == pid_path_spec(opt_text(home)),
{
    match home {
        Some(h) => join_path_exec(h, ".shazam/daemon.pid"),
        None => join_path_exec(".", ".shazam/daemon.pid"),
    }
}

/// The pid file's path for the current user.
pub fn daemon_pid_path() -> (r: String)
    ensures
        exists|h: Option<Seq<char>>| #[trigger] pid_path_spec(h) == r@,
{
    let home = home_dir();
    let r = match &home {
        Some(h) => pid_path_for(Some(h.as_str())),
        None => pid_path_for(None),
    };
    let ghost hv = match home {
        Some(h) => Some(h@),
        None => None,
    };
    assert(pid_path_spec(hv) == r@);
    r
}

/// The pid held by a pid file's contents, white space around it ignored.
pub fn parse_pid(contents: &str) -> (r: Option<u32>)
    ensures
        r == parse_u32(trim(contents@)),
{
    let t = trimmed(contents);
    parse_u32_exec(t.as_str())
}

/// `kill -0 <pid>`: asks whether the process exists.
pub fn pid_probe(pid: u32) -> (r: Launch)
    ensures
        r@ == (LaunchView { program: "kill"@, args: seq!["-0"@, decimal(pid as nat)] }),
{
    launch2("kill", String::from_str("-0"), decimal_string(pid as u128))
}

/// `kill <pid>`: asks the process to end.
pub fn pid_kill(pid: u32) -> (r: Launch)
    ensures
        r@ == (LaunchView { program: "kill"@, args: seq![decimal(pid as nat)] }),
{
    launch1("kill", decimal_string(pid as u128))
}

// ------------------------------------------------------------------------
// Is the daemon alive?
// ------------------------------------------------------------------------

/// One way of telling that the daemon is alive.
pub enum AliveProbe {
    /// Run the command; the daemon is alive if it succeeds.
    Process(Launch),
    /// Connect to the port on the local host; alive if that works.
    Port(u16),
}

/// The probes for liveness, to be tried in order until one succeeds: the
/// process named in the pid file, when the file holds a pid, then the
/// daemon's port.
pub open spec fn alive_probes_spec(pid_file: Option<Seq<char>>) -> Seq<Option<u32>> {
    match pid_file {
        Some(c) => match parse_u32(trim(c)) {
            Some(pid) => seq![Some(pid), None],
            None => seq![None],
        },
        None => seq![None],
    }
}

/// The probes of [`alive_probes_spec`]: `Some(pid)` stands for a process
/// probe on that pid, `None` for the port probe on the daemon's port.
pub fn alive_probes(pid_file: Option<&str>) -> (r: Vec<AliveProbe>)
    ensures
        r.len() == alive_probes_spec(opt_text(pid_file)).len(),
        forall|i: int|
            0 <= i < r.len() ==> match (#[trigger] r@[i], alive_probes_spec(opt_text(pid_file))[i]) {
                (AliveProbe::Process(l), Some(pid)) => l@ == (LaunchView {
                    program: "kill"@,
                    args: seq!["-0"@, decimal(pid as nat)],
                }),
                (AliveProbe::Port(p), None) => p == DAEMON_PORT,
                _ => false,
            },
{
    let mut r: Vec<AliveProbe> = Vec::new();
    match pid_file {
        Some(c) => match parse_pid(c) {
            Some(pid) => {
                r.push(AliveProbe::Process(pid_probe(pid)));
            },
            None => {},
        },
        None => {},
    }
    r.push(AliveProbe::Port(DAEMON_PORT));
    r
}

/// Where a liveness check stands.
#[derive(PartialEq, Eq, Structural, Clone, Copy, Debug)]
pub enum AliveStep {
    /// Try the probe at this position.
    Probe(usize),
    /// Whether the daemon is alive.
    Decided(bool),
}

/// Takes whether probe `i` succeeded: the daemon is alive at the first
/// probe that succeeds; otherwise the next probe is tried, and when none
/// is left the daemon is not alive.
pub fn alive_step(probes: &Vec<AliveProbe>, i: usize, succeeded: bool) -> (r: AliveStep)
    requires
        i < probes.len(),
    ensures
        r == if succeeded {
            AliveStep::Decided(true)
        } else if i + 1 < probes.len() {
            AliveStep::Probe((i + 1) as usize)
        } else {
            AliveStep::Decided(false)
        },
{
    if succeeded {
        AliveStep::Decided(true)
    } else if i + 1 < probes.len() {
        AliveStep::Probe(i + 1)
    } else {
        AliveStep::Decided(false)
    }
}

/// Records that the daemon was found alive at startup; nothing changes
/// when it was not.
pub fn check_daemon_status(state: &mut AppState, alive: bool)
    ensures
        final(state)@ == if alive {
            running_view(old(state)@)
        } else {
            old(state)@
        },
{
    if alive {
        state.mark_daemon_running();
    }
}

/// Making sure the daemon runs: when it is alive it is marked running and
/// nothing is started, so repeating this starts nothing; when it is not,
/// the state is left as it is and a start is asked for (`true`), whose
/// outcome goes to [`record_daemon_start`].
pub fn ensure_daemon_running(state: &mut AppState, alive: bool) -> (start: bool)
    ensures
        start == !alive,
        final(state)@ == if alive {
            running_view(old(state)@)
        } else {
            old(state)@
        },
{
    if alive {
        state.mark_daemon_running();
        false
    } else {
        true
    }
}

/// Records the outcome of a start of the daemon. On failure the backend is
/// marked in error and the line to report is returned.
pub fn record_daemon_start(state: &mut AppState, outcome: &Result<(), String>) -> (report: Option<String>)
    ensures
        match outcome {
            Ok(_) => final(state)@ == running_view(old(state)@) && report is None,
            Err(e) => final(state)@ == failed_start_view(old(state)@) && (report matches Some(m) && m@ == "Failed to start daemon: "@
                + e@),
        },
{
    match outcome {
        Ok(_) => {
            state.mark_daemon_running();
            None
        },
        Err(e) => {
            state.mark_backend_error();
            let mut m = String::from_str("Failed to start daemon: ");
            m.append(e.as_str());
            Some(m)
        },
    }
}

// ------------------------------------------------------------------------
// Finding the command line tool
// ------------------------------------------------------------------------

/// The names the command line tool is installed under, by preference.
pub open spec fn tool_names() -> Seq<Seq<char>> {
    seq!["shazam-cli"@, "shazam"@, "shz"@]
}

/// One place the command line tool may be found.
pub enum ToolProbe {
    /// The tool is this file, if it is a regular file.
    File(String),
    /// Ask `which` for the tool by this name.
    Which(Launch),
}

/// `which <name>`.
pub open spec fn which_view(name: Seq<char>) -> LaunchView {
    LaunchView { program: "which"@, args: seq![name] }
}

/// The abstract value of a [`ToolProbe`]: `Ok(path)` for a file,
/// `Err(command)` for a `which` lookup.
pub open spec fn tool_probe_view(p: ToolProbe) -> Result<Seq<char>, LaunchView> {
    match p {
        ToolProbe::File(f) => Ok(f@),
        ToolProbe::Which(l) => Err(l@),
    }
}

/// The `which` lookups of the three names, in order.
pub open spec fn which_probes_spec() -> Seq<Result<Seq<char>, LaunchView>> {
    seq![
        Err(which_view(tool_names()[0])),
        Err(which_view(tool_names()[1])),
        Err(which_view(tool_names()[2])),
    ]
}

/// The probes in order: the three names in `<home>/bin`, then the three
/// names through `which`.
pub open spec fn tool_probes_spec(home: Seq<char>) -> Seq<Result<Seq<char>, LaunchView>> {
    seq![
        Ok(join_path(join_path(home, "bin"@), tool_names()[0])),
        Ok(join_path(join_path(home, "bin"@), tool_names()[1])),
        Ok(join_path(join_path(home, "bin"@), tool_names()[2])),
    ] + which_probes_spec()
}

/// The probes are exactly these.
pub open spec fn probes_are(v: Seq<ToolProbe>, expected: Seq<Result<Seq<char>, LaunchView>>) -> bool {
    &&& v.len() == expected.len()
    &&& forall|i: int| 0 <= i < v.len() ==> tool_probe_view(#[trigger] v[i]) == expected[i]
}

/// The probes are the ones for this home directory.
pub open spec fn probes_for_home(v: Seq<ToolProbe>, home: Seq<char>) -> bool {
    probes_are(v, tool_probes_spec(home))
}

fn which_probe(name: &str) -> (r: ToolProbe)
    ensures
        tool_probe_view(r) == Err::<Seq<char>, LaunchView>(which_view(name@)),
{
    ToolProbe::Which(launch1("which", String::from_str(name)))
}

/// The `which` lookups alone, for when there is no home directory.
pub fn which_probes() -> (r: Vec<ToolProbe>)
    ensures
        probes_are(r@, which_probes_spec()),
{
    let mut r: Vec<ToolProbe> = Vec::new();
    r.push(which_probe("shazam-cli"));
    r.push(which_probe("shazam"));
    r.push(which_probe("shz"));
    r
}

/// The places to look for the tool below a home directory, in order.
pub fn tool_probes_for(home: &str) -> (r: Vec<ToolProbe>)
    ensures
        probes_for_home(r@, home@),
{
    let bin = join_path_exec(home, "bin");
    let mut r: Vec<ToolProbe> = Vec::new();
    r.push(ToolProbe::File(join_path_exec(bin.as_str(), "shazam-cli")));
    r.push(ToolProbe::File(join_path_exec(bin.as_str(), "shazam")));
    r.push(ToolProbe::File(join_path_exec(bin.as_str(), "shz")));
    r.push(which_probe("shazam-cli"));
    r.push(which_probe("shazam"));
    r.push(which_probe("shz"));
    assert(tool_probes_spec(home@)[3] == which_probes_spec()[0]);
    assert(tool_probes_spec(home@)[4] == which_probes_spec()[1]);
    assert(tool_probes_spec(home@)[5] == which_probes_spec()[2]);
    r
}

/// The places to look for the tool in `PATH` or the known locations: those
/// below the home directory then `PATH`, or `PATH` alone when there is no
/// home directory.
pub fn tool_probes_from(home: Option<&str>) -> (r: Vec<ToolProbe>)
    ensures
        match home {
            Some(h) => probes_for_home(r@, h@),
            None => probes_are(r@, which_probes_spec()),
        },
{
    match home {
        Some(h) => tool_probes_for(h),
        None => which_probes(),
    }
}

/// The places to look for the tool for the current user
/// ([`tool_probes_from`] of the home directory).
pub fn tool_probes() -> (r: Vec<ToolProbe>)
    ensures
        (exists|h: Seq<char>| #[trigger] probes_for_home(r@, h)) || probes_are(r@, which_probes_spec()),
{
    let home = home_dir();
    let r = match &home {
        Some(h) => tool_probes_from(Some(h.as_str())),
        None => tool_probes_from(None),
    };
    proof {
        if let Some(h) = home {
            assert(probes_for_home(r@, h@));
        }
    }
    r
}

/// What a probe found out.
pub enum ProbeOutcome {
    /// Whether the path is a regular file.
    IsFile(bool),
    /// `which` ran to its end.
    Which { success: bool, stdout: Vec<u8> },
    /// `which` could not be run.
    WhichFailed,
}

/// The tool's path if the probe found it.
pub open spec fn probe_hit(p: ToolProbe, o: ProbeOutcome) -> Option<Seq<char>> {
    match (p, o) {
        (ToolProbe::File(f), ProbeOutcome::IsFile(true)) => Some(f@),
        (ToolProbe::Which(_), ProbeOutcome::Which { success, stdout }) => which_answer_spec(success, stdout@),
        _ => None,
    }
}

/// Where a search through the probes stands.
pub enum SearchStep {
    /// Run the probe at this position.
    Probe(usize),
    /// The tool is here.
    Found(String),
    /// No probe found it.
    NotFound,
}

/// A search starts with the first probe.
pub fn search_start(probes: &Vec<ToolProbe>) -> (r: SearchStep)
    ensures
        if probes.len() > 0 {
            r matches SearchStep::Probe(i) && i == 0
        } else {
            r is NotFound
        },
{
    if probes.len() > 0 {
        SearchStep::Probe(0)
    } else {
        SearchStep::NotFound
    }
}

/// Takes what probe `i` found: the search ends at the first probe that
/// finds the tool, else goes on with the next probe, else finds nothing.
pub fn search_step(probes: &Vec<ToolProbe>, i: usize, outcome: ProbeOutcome) -> (r: SearchStep)
    requires
        i < probes.len(),
    ensures
        match probe_hit(probes@[i as int], outcome) {
            Some(p) => r matches SearchStep::Found(q) && q@ == p,
            None => if i + 1 < probes.len() {
                r matches SearchStep::Probe(j) && j == i + 1
            } else {
                r is NotFound
            },
        },
{
    let hit = match (&probes[i], outcome) {
        (ToolProbe::File(f), ProbeOutcome::IsFile(true)) => Some(f.clone()),
        (ToolProbe::Which(_), ProbeOutcome::Which { success, stdout }) => which_answer(success, stdout.as_slice()),
        _ => None,
    };
    match hit {
        Some(p) => SearchStep::Found(p),
        None => if i + 1 < probes.len() {
            SearchStep::Probe(i + 1)
        } else {
            SearchStep::NotFound
        },
    }
}

/// What a `which` answer gives: its output trimmed, when the command
/// succeeded and that is not empty.
pub open spec fn which_answer_spec(success: bool, stdout: Seq<u8>) -> Option<Seq<char>> {
    if success && trim(utf8_lossy(stdout)).len() > 0 {
        Some(trim(utf8_lossy(stdout)))
    } else {
        None
    }
}

/// Reads the answer of `which`.
pub fn which_answer(success: bool, stdout: &[u8]) -> (r: Option<String>)
    ensures
        match r {
            Some(p) => which_answer_spec(success, stdout@) == Some(p@),
            None => which_answer_spec(success, stdout@) is None,
        },
{
    if !success {
        return None;
    }
    let text = lossy_text(stdout);
    let t = trimmed(text.as_str());
    let tv = chars_of(t.as_str());
    if tv.len() == 0 {
        None
    } else {
        Some(t)
    }
}

// ------------------------------------------------------------------------
// Starting the daemon
// ------------------------------------------------------------------------

/// How many times the port is checked after `daemon start` succeeded.
pub const START_PORT_CHECKS: u32 = 10;

/// The pause before each port check, in milliseconds.
pub const START_CHECK_PAUSE_MS: u64 = 500;

/// Where a start of the daemon stands.
#[derive(PartialEq, Eq, Structural, Clone, Copy, Debug)]
pub enum StartStep {
    /// Looking for the command line tool.
    Locating,
    /// `daemon start` has been asked for.
    Running,
    /// The port has been checked this many times without answer.
    Checking(u32),
    /// Finished.
    Done,
}

/// What the caller found out, answering the last action.
pub enum StartEvent {
    /// The command line tool, if it was found.
    Located(Option<String>),
    /// `daemon start` could not be run; the error's text.
    LaunchFailed(String),
    /// `daemon start` ran to its end.
    Exited { success: bool, stdout: Vec<u8>, stderr: Vec<u8> },
    /// Whether the port answered.
    PortChecked(bool),
}

/// What the caller is asked to do next.
pub enum StartAction {
    /// Run the command and wait for it to end.
    Run(Launch),
    /// Wait this long, then check whether the port answers.
    CheckPortAfter { millis: u64, port: u16 },
    /// The start is over, with this result.
    Finish(Result<(), String>),
}

/// The event answers the step's pending action.
pub open spec fn start_event_fits(step: StartStep, ev: StartEvent) -> bool {
    match (step, ev) {
        (StartStep::Locating, StartEvent::Located(_)) => true,
        (StartStep::Running, StartEvent::LaunchFailed(_)) => true,
        (StartStep::Running, StartEvent::Exited { .. }) => true,
        (StartStep::Checking(n), StartEvent::PortChecked(_)) => n < START_PORT_CHECKS,
        _ => false,
    }
}

/// A finished start with this error text.
pub open spec fn failed_with(a: StartAction, msg: Seq<char>) -> bool {
    a matches StartAction::Finish(Err(e)) && e@ == msg
}

/// One step of starting the daemon, as a transition on what is known.
pub open spec fn start_step_spec(step: StartStep, ev: StartEvent, next: StartStep, a: StartAction) -> bool {
    match ev {
        StartEvent::Located(None) => next == StartStep::Done && failed_with(
            a,
            "shazam-cli not found. Install: https://shazam.dev"@,
        ),
        StartEvent::Located(Some(bin)) => next == StartStep::Running && (a matches StartAction::Run(l)
            && l@ == (LaunchView { program: bin@, args: seq!["daemon"@, "start"@] })),
        StartEvent::LaunchFailed(e) => next == StartStep::Done && failed_with(
            a,
            "Failed to run shazam daemon start: "@ + e@,
        ),
        StartEvent::Exited { success, stdout, stderr } => if success {
            next == StartStep::Checking(0) && a == (StartAction::CheckPortAfter {
                millis: START_CHECK_PAUSE_MS,
                port: DAEMON_PORT,
            })
        } else {
            next == StartStep::Done && failed_with(
                a,
                "shazam daemon start failed: "@ + utf8_lossy(stdout@) + utf8_lossy(stderr@),
            )
        },
        StartEvent::PortChecked(alive) => match step {
            StartStep::Checking(n) => if alive {
                next == StartStep::Done && (a matches StartAction::Finish(Ok(_)))
            } else if n + 1 < START_PORT_CHECKS {
                next == StartStep::Checking((n + 1) as u32) && a == (StartAction::CheckPortAfter {
                    millis: START_CHECK_PAUSE_MS,
                    port: DAEMON_PORT,
                })
            } else {
                next == StartStep::Done && failed_with(
                    a,
                    "Daemon start command succeeded but port not responding"@,
                )
            },
            _ => false,
        },
    }
}

/// Starting the daemon begins by looking for the command line tool.
pub fn start_daemon() -> (r: StartStep)
    ensures
        r == StartStep::Locating,
{
    StartStep::Locating
}

/// Advances a start of the daemon by what the caller found out.
pub fn start_daemon_step(step: StartStep, ev: StartEvent) -> (r: (StartStep, StartAction))
    requires
        start_event_fits(step, ev),
    ensures
        start_step_spec(step, ev, r.0, r.1),
{
    match ev {
        StartEvent::Located(None) => (
            StartStep::Done,
            StartAction::Finish(Err(String::from_str("shazam-cli not found. Install: https://shazam.dev"))),
        ),
        StartEvent::Located(Some(bin)) => {
            let l = launch2(bin.as_str(), String::from_str("daemon"), String::from_str("start"));
            (StartStep::Running, StartAction::Run(l))
        },
        StartEvent::LaunchFailed(e) => {
            let mut m = String::from_str("Failed to run shazam daemon start: ");
            m.append(e.as_str());
            (StartStep::Done, StartAction::Finish(Err(m)))
        },
        StartEvent::Exited { success, stdout, stderr } => {
            if success {
                (
                    StartStep::Checking(0),
                    StartAction::CheckPortAfter { millis: START_CHECK_PAUSE_MS, port: DAEMON_PORT },
                )
            } else {
                let mut m = String::from_str("shazam daemon start failed: ");
                let out = lossy_text(stdout.as_slice());
                let err = lossy_text(stderr.as_slice());
                m.append(out.as_str());
                m.append(err.as_str());
                (StartStep::Done, StartAction::Finish(Err(m)))
            }
        },
        StartEvent::PortChecked(alive) => {
            let n = match step {
                StartStep::Checking(n) => n,
                _ => 0,
            };
            if alive {
                (StartStep::Done, StartAction::Finish(Ok(())))
            } else if n + 1 < START_PORT_CHECKS {
                (
                    StartStep::Checking(n + 1),
                    StartAction::CheckPortAfter { millis: START_CHECK_PAUSE_MS, port: DAEMON_PORT },
                )
            } else {
                (
                    StartStep::Done,
                    StartAction::Finish(
                        Err(String::from_str("Daemon start command succeeded but port not responding")),
                    ),
                )
            }
        },
    }
}

// ------------------------------------------------------------------------
// Stopping the daemon
// ------------------------------------------------------------------------

/// How to stop the daemon.
pub enum StopPlan {
    /// Run `<tool> daemon stop`.
    Tool(Launch),
    /// Read the pid file at this path, end the process it names (see
    /// [`stop_by_pid`]), then remove the file.
    PidFile(String),
}

/// With the command line tool at hand, stop through it; else through the
/// pid file.
pub fn stop_daemon(tool: Option<&str>) -> (r: StopPlan)
    ensures
        match tool {
            Some(t) => r matches StopPlan::Tool(l) && l@ == (LaunchView {
                program: t@,
                args: seq!["daemon"@, "stop"@],
            }),
            None => r matches StopPlan::PidFile(p) && exists|h: Option<Seq<char>>|
                #[trigger] pid_path_spec(h) == p@,
        },
{
    match tool {
        Some(t) => StopPlan::Tool(launch2(t, String::from_str("daemon"), String::from_str("stop"))),
        None => StopPlan::PidFile(daemon_pid_path()),
    }
}

/// The command that ends the process named in the pid file, if it names one.
pub fn stop_by_pid(contents: &str) -> (r: Option<Launch>)
    ensures
        match parse_u32(trim(contents@)) {
            Some(pid) => r matches Some(l) && l@ == (LaunchView {
                program: "kill"@,
                args: seq![decimal(pid as nat)],
            }),
            None => r is None,
        },
{
    match parse_pid(contents) {
        Some(pid) => Some(pid_kill(pid)),
        None => None,
    }
}

} // verus!
