//! The worker of a task: what it runs, when, and what it reports.
use super::ssh;
use super::ssh::ProcessOutcome;
use super::state;
use super::state::ServerState;
use crate::common::{daemon, utils};
use crate::path::lossy_text;
use crate::protocol;
use crate::protocol::{SyncDirection, SyncMode, SyncTask};
use crate::{lines, number, path, text};
use vstd::prelude::*;

verus! {

// ---------------------------------------------------------------------------
// Logs
// ---------------------------------------------------------------------------
/// Where the log of a task is kept.
pub fn get_task_log_path(home: Option<&str>, task_id: &str) -> (r: String)
    ensures
        r@ == daemon::home_or_here(text::optional_str(home)) + "/.sync_daemon_logs/"@ + task_id@
            + ".log"@,
{
    text::cat3(&daemon::in_home(home, "/.sync_daemon_logs/"), task_id, ".log")
}

/// Where the logs are kept.
pub fn log_dir(home: Option<&str>) -> (r: String)
    ensures
        r@ == daemon::home_or_here(text::optional_str(home)) + "/.sync_daemon_logs"@,
{
    daemon::in_home(home, "/.sync_daemon_logs")
}

/// Where a log of a given size goes, if it is put aside.
pub open spec fn rotated(log_path: Seq<char>, size: u64) -> Option<Seq<char>> {
    if size > 10 * 1024 * 1024 {
        Some(log_path + ".old"@)
    } else {
        None
    }
}

/// A log is put aside exactly where it has grown over ten mebibytes, under its own name with an ending
/// that tells its age, so never over another log.
pub proof fn law_large_logs_are_put_aside(log_path: Seq<char>, other: Seq<char>, size: u64)
    ensures
        rotated(log_path, size) is Some <==> size > 10_485_760,
        rotated(log_path, size) matches Some(p) ==> p == log_path + seq!['.', 'o', 'l', 'd'],
        rotated(log_path, size) is Some && log_path != other ==> rotated(log_path, size) != rotated(
            other,
            size,
        ),
{
    reveal_strlit(".old");
    assert(".old"@ =~= seq!['.', 'o', 'l', 'd']);
    let a = log_path + ".old"@;
    let b = other + ".old"@;
    if a == b {
        assert(log_path.len() == a.len() - 4);
        assert(other.len() == b.len() - 4);
        assert(a.take(a.len() - 4) =~= log_path);
        assert(b.take(b.len() - 4) =~= other);
    }
}

/// Where a log goes that has grown over ten mebibytes; a smaller one stays.
pub fn rotate_log_if_needed(log_path: &str, size: u64) -> (r: Option<String>)
    ensures
        text::optional_text(r) == (if size > 10 * 1024 * 1024 {
            Some(log_path@ + ".old"@)
        } else {
            None
        }),
        text::optional_text(r) == rotated(log_path@, size),
{
    if size > 10_485_760 {
        Some(text::cat2(log_path, ".old"))
    } else {
        None
    }
}

/// A line of a log: the time in brackets, the name of what wrote it, and what was written.
pub open spec fn log_line(timestamp: Seq<char>, prefix: Seq<char>, line: Seq<char>) -> Seq<char> {
    "["@ + timestamp + "] "@ + prefix + ": "@ + line + "\n"@
}

/// A line of a log holds the time, the name and the text in this order, and ends the line.
pub proof fn law_log_lines_tell_when_and_what(
    timestamp: Seq<char>,
    prefix: Seq<char>,
    line: Seq<char>,
)
    ensures
        log_line(timestamp, prefix, line) == seq!['['] + timestamp + seq![']', ' '] + prefix + seq![
            ':',
            ' ',
        ] + line + seq!['\n'],
{
    reveal_strlit("[");
    reveal_strlit("] ");
    reveal_strlit(": ");
    reveal_strlit("\n");
    assert("["@ =~= seq!['[']);
    assert("] "@ =~= seq![']', ' ']);
    assert(": "@ =~= seq![':', ' ']);
    assert("\n"@ =~= seq!['\n']);
}

/// A line of a log.
pub fn write_log_line(timestamp: &str, prefix: &str, line: &str) -> (r: String)
    ensures
        r@ == "["@ + timestamp@ + "] "@ + prefix@ + ": "@ + line@ + "\n"@,
        r@ == log_line(timestamp@, prefix@, line@),
{
    let start: String = text::cat4("[", timestamp, "] ", prefix);
    text::cat4(&start, ": ", line, "\n")
}

// ---------------------------------------------------------------------------
// Commands
// ---------------------------------------------------------------------------
/// The options for what differs.
pub open spec fn mode_options(mode: SyncMode) -> Seq<Seq<char>> {
    match mode {
        SyncMode::Mirror => seq!["--delete"@],
        SyncMode::AddOnly => Seq::empty(),
        SyncMode::SafeSync => seq!["--delete"@, "--backup"@, "--backup-dir=.rsync-backup"@],
        SyncMode::Update => seq!["--update"@],
    }
}

/// A remote place as `rsync` names it.
pub open spec fn remote_place(task: protocol::TaskView) -> Seq<char> {
    task.remote_host + ":"@ + task.remote_path
}

/// The source of a task: a file as it is, a directory with a slash, so that its contents are
/// copied.
pub open spec fn source_argument(task: protocol::TaskView, is_file: bool) -> Seq<char> {
    if is_file {
        task.source
    } else {
        task.source + "/"@
    }
}

/// The options of a task after those of its kind: compression where it is wanted, what differs,
/// and the patterns of `.gitignore` files.
pub open spec fn shared_options(task: protocol::TaskView) -> Seq<Seq<char>> {
    let packed = if task.compress {
        seq!["-z"@]
    } else {
        Seq::empty()
    };
    packed + mode_options(task.sync_mode) + seq!["--filter=:- .gitignore"@]
}

/// The arguments of `rsync` for a dry run of a task.
pub open spec fn dry_run_args(task: protocol::TaskView, is_file: bool) -> Seq<Seq<char>> {
    seq![
        "-avn"@,
        "--itemize-changes"@,
        "-e"@,
        "ssh -T -c aes128-gcm@openssh.com -o Compression=no -o StrictHostKeyChecking=no -o ControlMaster=auto -o ControlPath=~/.ssh/sockets/%r@%h-%p -o ControlPersist=600"@,
    ] + shared_options(task) + seq![source_argument(task, is_file), remote_place(task)]
}

/// The remote shell of a task.
pub open spec fn task_shell(port: Option<u16>) -> Seq<char> {
    "ssh -p "@ + number::decimal(ssh::port_or_default(port) as nat)
        + " -T -c aes128-gcm@openssh.com -o Compression=no -o StrictHostKeyChecking=no -o ControlMaster=auto -o ControlPath=~/.ssh/sockets/%r@%h-%p -o ControlPersist=600"@
}

/// The two ends of a task, the source first.
pub open spec fn endpoints(task: protocol::TaskView, is_file: bool) -> Seq<Seq<char>> {
    match task.sync_direction {
        SyncDirection::Push => seq![source_argument(task, is_file), remote_place(task)],
        SyncDirection::Pull => seq![remote_place(task) + "/"@, task.source],
    }
}

/// The arguments of `rsync` for a task.
pub open spec fn sync_args(task: protocol::TaskView, is_file: bool) -> Seq<Seq<char>> {
    endpoints(task, is_file) + seq![
        "-av"@,
        "--info=progress2"@,
        "--no-inc-recursive"@,
        "--partial"@,
        "--inplace"@,
        "-e"@,
        task_shell(task.remote_port),
    ] + shared_options(task)
}

/// A remote place as `rsync` names it.
fn remote_of(task: &SyncTask) -> (r: String)
    ensures
        r@ == remote_place(task@),
{
    text::cat3(&task.remote_host, ":", &task.remote_path)
}

/// The source of a task.
fn source_of(task: &SyncTask, is_file: bool) -> (r: String)
    ensures
        r@ == source_argument(task@, is_file),
{
    if is_file {
        task.source.clone()
    } else {
        text::cat2(&task.source, "/")
    }
}

/// Appends the options of a task after those of its kind.
fn push_shared(args: &mut Vec<String>, task: &SyncTask)
    ensures
        text::texts(final(args)@) == text::texts(old(args)@) + shared_options(task@),
{
    let ghost before = text::texts(args@);
    if task.compress {
        text::push_text(args, "-z");
    }
    match task.sync_mode {
        SyncMode::Mirror => {
            text::push_text(args, "--delete");
        },
        SyncMode::AddOnly => {},
        SyncMode::SafeSync => {
            text::push_text(args, "--delete");
            text::push_text(args, "--backup");
            text::push_text(args, "--backup-dir=.rsync-backup");
        },
        SyncMode::Update => {
            text::push_text(args, "--update");
        },
    }
    text::push_text(args, "--filter=:- .gitignore");
    proof {
        assert(text::texts(args@) =~= before + shared_options(task@));
    }
}

/// The call of `rsync` for a dry run of a task, for a host that is accepted.
pub fn run_dry_run(task: &SyncTask, is_file: bool) -> (r: Option<Vec<String>>)
    ensures
        r is Some <==> utils::is_host(task@.remote_host),
        r matches Some(args) ==> text::texts(args@) == dry_run_args(task@, is_file),
{
    if !utils::is_valid_host(&task.remote_host) {
        return None;
    }
    let mut args: Vec<String> = Vec::new();
    proof {
        assert(text::texts(args@) =~= Seq::<Seq<char>>::empty());
    }
    text::push_text(&mut args, "-avn");
    text::push_text(&mut args, "--itemize-changes");
    text::push_text(&mut args, "-e");
    text::push_text(
        &mut args,
        "ssh -T -c aes128-gcm@openssh.com -o Compression=no -o StrictHostKeyChecking=no -o ControlMaster=auto -o ControlPath=~/.ssh/sockets/%r@%h-%p -o ControlPersist=600",
    );
    push_shared(&mut args, task);
    text::push_text(&mut args, &source_of(task, is_file));
    text::push_text(&mut args, &remote_of(task));
    proof {
        assert(text::texts(args@) =~= dry_run_args(task@, is_file));
    }
    Some(args)
}

/// The call of `rsync` for a task.
fn build_sync(task: &SyncTask, is_file: bool) -> (r: Vec<String>)
    ensures
        text::texts(r@) == sync_args(task@, is_file),
{
    let port: u16 = match task.remote_port {
        Some(p) => p,
        None => 22,
    };
    let mut args: Vec<String> = Vec::new();
    proof {
        assert(text::texts(args@) =~= Seq::<Seq<char>>::empty());
    }
    match task.sync_direction {
        SyncDirection::Push => {
            text::push_text(&mut args, &source_of(task, is_file));
            text::push_text(&mut args, &remote_of(task));
        },
        SyncDirection::Pull => {
            text::push_text(&mut args, &text::cat2(&remote_of(task), "/"));
            text::push_text(&mut args, &task.source);
        },
    }
    text::push_text(&mut args, "-av");
    text::push_text(&mut args, "--info=progress2");
    text::push_text(&mut args, "--no-inc-recursive");
    text::push_text(&mut args, "--partial");
    text::push_text(&mut args, "--inplace");
    text::push_text(&mut args, "-e");
    text::push_text(
        &mut args,
        &text::cat3(
            "ssh -p ",
            &number::decimal_text(port as u64),
            " -T -c aes128-gcm@openssh.com -o Compression=no -o StrictHostKeyChecking=no -o ControlMaster=auto -o ControlPath=~/.ssh/sockets/%r@%h-%p -o ControlPersist=600",
        ),
    );
    push_shared(&mut args, task);
    proof {
        assert(text::texts(args@) =~= sync_args(task@, is_file));
    }
    args
}

/// What a dry run tells: its lines, or one line that says why there are none.
pub open spec fn changes(outcome: ssh::OutcomeView) -> Seq<Seq<char>> {
    match outcome {
        ssh::OutcomeView::Success(out) => lines::lines(path::lossy(out)),
        ssh::OutcomeView::Failure(err) => seq!["Error: "@ + path::lossy(err)],
        ssh::OutcomeView::NotRun(cause) => seq!["Exec Error: "@ + cause],
    }
}

/// What a dry run tells.
pub fn dry_run_changes(outcome: &ProcessOutcome) -> (r: Vec<String>)
    ensures
        text::texts(r@) == changes(outcome@),
{
    match outcome {
        ProcessOutcome::Success(out) => lines::lines_of(&lossy_text(out.as_slice())),
        ProcessOutcome::Failure(err) => text::one_text(
            text::cat2("Error: ", &lossy_text(err.as_slice())),
        ),
        ProcessOutcome::NotRun(cause) => text::one_text(text::cat2("Exec Error: ", cause)),
    }
}

// ---------------------------------------------------------------------------
// Progress
// ---------------------------------------------------------------------------
/// What the first group of a regular expression captures where the expression first matches; none
/// where it does not match.
pub uninterp spec fn captured(pattern: Seq<char>, line: Seq<char>) -> Option<Seq<char>>;

/// Calls `regex::Regex::new`, `captures` and the first group of the match. What is captured depends
/// on the pattern and the line alone and is only named; a pattern that is no regular expression
/// captures nothing.
#[verifier::external_body]
fn first_group(pattern: &str, line: &str) -> (r: Option<String>)
    ensures
        text::optional_text(r) == captured(pattern@, line@),
{
    let re = regex::Regex::new(pattern).ok()?;
    re.captures(line).and_then(|cap| cap.get(1)).map(|m| m.as_str().to_owned())
}

/// The percentage that captured digits stand for.
pub open spec fn percentage(digits: Option<Seq<char>>) -> Option<nat> {
    match digits {
        Some(d) => number::parsed(d, u32::MAX as nat),
        None => None,
    }
}

/// Reads a percentage from captured digits, if 32 bits hold it.
pub fn percentage_of(digits: &Option<String>) -> (r: Option<u32>)
    ensures
        match r {
            Some(p) => percentage(text::optional_text(*digits)) == Some(p as nat),
            None => percentage(text::optional_text(*digits)) is None,
        },
{
    match digits {
        Some(d) => number::parse_number(d, u32::MAX),
        None => None,
    }
}

/// Where a line of output holds its percentage: digits between white space and a percent sign.
pub open spec fn progress_pattern() -> Seq<char> {
    "\\s+(\\d+)%"@
}

/// Reads the percentage from a line of output.
pub fn parse_rsync_percentage(line: &str) -> (r: Option<u32>)
    ensures
        match r {
            Some(p) => percentage(captured(progress_pattern(), line@)) == Some(p as nat),
            None => percentage(captured(progress_pattern(), line@)) is None,
        },
{
    let digits: Option<String> = first_group("\\s+(\\d+)%", line);
    percentage_of(&digits)
}

// ---------------------------------------------------------------------------
// One synchronization
// ---------------------------------------------------------------------------
/// What a worker reports.
#[derive(Debug)]
pub enum Report {
    /// The status of the task.
    Status(String),
    /// The last log line of the task.
    Log(String),
    /// A line of the log file, with its prefix.
    Line(&'static str, String),
}

/// What a [`Report`] holds.
#[verifier::ext_equal]
pub enum ReportView {
    Status(Seq<char>),
    Log(Seq<char>),
    Line(Seq<char>, Seq<char>),
}

impl View for Report {
    type V = ReportView;

    open spec fn view(&self) -> ReportView {
        match self {
            Report::Status(s) => ReportView::Status(s@),
            Report::Log(s) => ReportView::Log(s@),
            Report::Line(prefix, s) => ReportView::Line(prefix@, s@),
        }
    }
}

/// What a list of reports holds.
pub open spec fn report_views(list: Seq<Report>) -> Seq<ReportView> {
    list.map_values(|r: Report| r@)
}

/// How far a synchronization has come.
#[derive(Debug, Clone, Copy, PartialEq, Eq, Structural)]
pub enum SyncState {
    /// It has not begun.
    Start,
    /// The log and the source are looked at.
    Prepare,
    /// `rsync` is started or runs.
    Running,
}

/// What happens in a synchronization.
#[derive(Debug)]
pub enum SyncEvent {
    /// It begins.
    Begin,
    /// The log is ready, and the source is a file or not.
    Prepared(bool),
    /// `rsync` did not start, and why.
    SpawnFailed(String),
    /// A line of output.
    Stdout(String),
    /// A line of error output.
    Stderr(String),
    /// `rsync` ended well or not; how the host puts it.
    Ended(bool, String),
    /// The end of `rsync` could not be awaited, and why.
    WaitFailed(String),
}

/// What is done next in a synchronization.
#[derive(Debug)]
pub enum SyncNext {
    /// Make the log ready and look at the source.
    Prepare,
    /// Start `rsync` with these arguments.
    Spawn(Vec<String>),
    /// Wait for what `rsync` does.
    Wait,
    /// It is over.
    Over,
}

/// What a [`SyncNext`] asks for.
#[verifier::ext_equal]
pub enum SyncNextView {
    Prepare,
    Spawn(Seq<Seq<char>>),
    Wait,
    Over,
}

impl View for SyncNext {
    type V = SyncNextView;

    open spec fn view(&self) -> SyncNextView {
        match self {
            SyncNext::Prepare => SyncNextView::Prepare,
            SyncNext::Spawn(args) => SyncNextView::Spawn(text::texts(args@)),
            SyncNext::Wait => SyncNextView::Wait,
            SyncNext::Over => SyncNextView::Over,
        }
    }
}

/// What follows in a synchronization.
#[verifier::ext_equal]
pub struct SyncStep {
    pub state: SyncState,
    pub reports: Seq<ReportView>,
    pub next: SyncNextView,
}

/// Whether an event can happen in a state.
pub open spec fn sync_expects(state: SyncState, event: SyncEvent) -> bool {
    match state {
        SyncState::Start => event is Begin,
        SyncState::Prepare => event is Prepared,
        SyncState::Running => !(event is Begin) && !(event is Prepared),
    }
}

/// A synchronization that is over.
pub open spec fn over(line: Seq<char>, log: Seq<char>, status: Seq<char>) -> SyncStep {
    SyncStep {
        state: SyncState::Running,
        reports: seq![
            ReportView::Line("SYNC"@, line),
            ReportView::Log(log),
            ReportView::Status(status),
        ],
        next: SyncNextView::Over,
    }
}

/// What a line of output gives: a line of the log, and the progress where it tells of one.
pub open spec fn output_reports(line: Seq<char>, percent: Option<nat>) -> Seq<ReportView> {
    let logged = seq![ReportView::Line("STDOUT"@, line)];
    match percent {
        Some(p) => logged.push(ReportView::Status("SYNCING "@ + number::decimal(p) + "%"@)),
        None => logged,
    }
}

/// What follows the beginning: a host that is not accepted is not reached.
pub open spec fn begun(task: protocol::TaskView) -> SyncStep {
    if utils::is_host(task.remote_host) {
        SyncStep {
            state: SyncState::Prepare,
            reports: Seq::empty(),
            next: SyncNextView::Prepare,
        }
    } else {
        SyncStep {
            state: SyncState::Running,
            reports: seq![
                ReportView::Status("ERROR (Bad Host)"@),
                ReportView::Log("❌ Invalid remote host format"@),
            ],
            next: SyncNextView::Over,
        }
    }
}

/// What follows the preparation.
pub open spec fn launched(task: protocol::TaskView, is_file: bool) -> SyncStep {
    SyncStep {
        state: SyncState::Running,
        reports: seq![
            ReportView::Line(
                "SYNC"@,
                "--- Starting Sync: "@ + task.source + " -> "@ + remote_place(task) + " ---"@,
            ),
            ReportView::Status("SYNCING 0%"@),
            ReportView::Log("🔄 Starting sync..."@),
        ],
        next: SyncNextView::Spawn(sync_args(task, is_file)),
    }
}

/// What follows in a synchronization.
pub open spec fn sync_next(task: protocol::TaskView, event: SyncEvent) -> SyncStep {
    match event {
        SyncEvent::Begin => begun(task),
        SyncEvent::Prepared(is_file) => launched(task, is_file),
        SyncEvent::SpawnFailed(cause) => over(
            "Exec Failed: "@ + cause@,
            "❌ Exec Error: "@ + cause@,
            "ERROR"@,
        ),
        SyncEvent::Stdout(line) => SyncStep {
            state: SyncState::Running,
            reports: output_reports(line@, percentage(captured(progress_pattern(), line@))),
            next: SyncNextView::Wait,
        },
        SyncEvent::Stderr(line) => SyncStep {
            state: SyncState::Running,
            reports: seq![ReportView::Line("STDERR"@, line@)],
            next: SyncNextView::Wait,
        },
        SyncEvent::Ended(success, status) => if success {
            over("Process finished with: "@ + status@, "✅ Sync Successful"@, "IDLE"@)
        } else {
            over(
                "Process finished with: "@ + status@,
                "❌ Failed (Exit "@ + status@ + ")"@,
                "ERROR"@,
            )
        },
        SyncEvent::WaitFailed(cause) => over(
            "Wait error: "@ + cause@,
            "❌ Process Error: "@ + cause@,
            "ERROR"@,
        ),
    }
}

/// Ends a synchronization.
fn finish_sync(line: String, log: String, status: &str, reports: &mut Vec<Report>) -> (r: (
    SyncState,
    SyncNext,
))
    requires
        old(reports)@.len() == 0,
    ensures
        (SyncStep { state: r.0, reports: report_views(final(reports)@), next: r.1@ }) == over(
            line@,
            log@,
            status@,
        ),
{
    let ghost wanted = over(line@, log@, status@).reports;
    reports.push(Report::Line("SYNC", line));
    reports.push(Report::Log(log));
    reports.push(Report::Status(status.to_owned()));
    proof {
        assert(report_views(reports@) =~= wanted);
    }
    (SyncState::Running, SyncNext::Over)
}

/// Reports a line of output, and the progress where it tells of one.
pub fn report_output(line: String, percent: Option<u32>) -> (r: Vec<Report>)
    ensures
        report_views(r@) == output_reports(
            line@,
            match percent {
                Some(p) => Some(p as nat),
                None => None,
            },
        ),
{
    let ghost whole = line@;
    let mut out: Vec<Report> = Vec::new();
    out.push(Report::Line("STDOUT", line));
    if let Some(p) = percent {
        out.push(
            Report::Status(text::cat3("SYNCING ", &number::decimal_text(p as u64), "%")),
        );
    }
    proof {
        assert(report_views(out@) =~= output_reports(
            whole,
            match percent {
                Some(p) => Some(p as nat),
                None => None,
            },
        ));
    }
    out
}

/// Begins a synchronization.
fn begin_sync(task: &SyncTask, reports: &mut Vec<Report>) -> (r: (SyncState, SyncNext))
    requires
        old(reports)@.len() == 0,
    ensures
        (SyncStep { state: r.0, reports: report_views(final(reports)@), next: r.1@ }) == begun(
            task@,
        ),
{
    if utils::is_valid_host(&task.remote_host) {
        proof {
            assert(report_views(reports@) =~= Seq::<ReportView>::empty());
        }
        return (SyncState::Prepare, SyncNext::Prepare);
    }
    reports.push(Report::Status("ERROR (Bad Host)".to_owned()));
    reports.push(Report::Log("❌ Invalid remote host format".to_owned()));
    proof {
        assert(report_views(reports@) =~= begun(task@).reports);
    }
    (SyncState::Running, SyncNext::Over)
}

/// Starts `rsync`.
fn launch_sync(task: &SyncTask, is_file: bool, reports: &mut Vec<Report>) -> (r: (
    SyncState,
    SyncNext,
))
    requires
        old(reports)@.len() == 0,
    ensures
        (SyncStep { state: r.0, reports: report_views(final(reports)@), next: r.1@ }) == launched(
            task@,
            is_file,
        ),
{
    reports.push(
        Report::Line(
            "SYNC",
            text::cat5("--- Starting Sync: ", &task.source, " -> ", &remote_of(task), " ---"),
        ),
    );
    reports.push(Report::Status("SYNCING 0%".to_owned()));
    reports.push(Report::Log("🔄 Starting sync...".to_owned()));
    proof {
        assert(report_views(reports@) =~= launched(task@, is_file).reports);
    }
    (SyncState::Running, SyncNext::Spawn(build_sync(task, is_file)))
}

/// One step of a synchronization: what is reported, and what is done next.
pub fn run_rsync(task: &SyncTask, state: SyncState, event: SyncEvent) -> (r: (
    SyncState,
    Vec<Report>,
    SyncNext,
))
    requires
        sync_expects(state, event),
    ensures
        (SyncStep { state: r.0, reports: report_views(r.1@), next: r.2@ }) == sync_next(
            task@,
            event,
        ),
{
    let mut reports: Vec<Report> = Vec::new();
    let (next_state, next): (SyncState, SyncNext) = match event {
        SyncEvent::Begin => begin_sync(task, &mut reports),
        SyncEvent::Prepared(is_file) => launch_sync(task, is_file, &mut reports),
        SyncEvent::SpawnFailed(cause) => finish_sync(
            text::cat2("Exec Failed: ", &cause),
            text::cat2("❌ Exec Error: ", &cause),
            "ERROR",
            &mut reports,
        ),
        SyncEvent::Stdout(line) => {
            let percent: Option<u32> = parse_rsync_percentage(&line);
            reports = report_output(line, percent);
            (SyncState::Running, SyncNext::Wait)
        },
        SyncEvent::Stderr(line) => {
            let ghost whole = line@;
            reports.push(Report::Line("STDERR", line));
            proof {
                assert(report_views(reports@) =~= seq![ReportView::Line("STDERR"@, whole)]);
            }
            (SyncState::Running, SyncNext::Wait)
        },
        SyncEvent::Ended(success, status) => {
            let line: String = text::cat2("Process finished with: ", &status);
            if success {
                finish_sync(line, "✅ Sync Successful".to_owned(), "IDLE", &mut reports)
            } else {
                let log: String = text::cat3("❌ Failed (Exit ", &status, ")");
                finish_sync(line, log, "ERROR", &mut reports)
            }
        },
        SyncEvent::WaitFailed(cause) => finish_sync(
            text::cat2("Wait error: ", &cause),
            text::cat2("❌ Process Error: ", &cause),
            "ERROR",
            &mut reports,
        ),
    };
    (next_state, reports, next)
}

/// A synchronization ends as idle only where `rsync` ended well.
pub proof fn law_idle_means_success(task: protocol::TaskView, event: SyncEvent)
    requires
        sync_next(task, event).next is Over,
        sync_next(task, event).reports.contains(ReportView::Status("IDLE"@)),
    ensures
        event matches SyncEvent::Ended(success, _) && success,
{
    let reports = sync_next(task, event).reports;
    let i = choose|i: int| 0 <= i < reports.len() && reports[i] == ReportView::Status("IDLE"@);
    reveal_strlit("IDLE");
    reveal_strlit("ERROR");
    reveal_strlit("ERROR (Bad Host)");
    assert("IDLE"@.len() == 4);
    assert("ERROR"@.len() == 5);
    assert("ERROR (Bad Host)"@.len() == 16);
}

/// Where a task wants nothing deleted, neither its synchronization nor its dry run asks for it.
pub proof fn law_add_only_deletes_nothing(task: protocol::TaskView)
    requires
        task.sync_mode == SyncMode::AddOnly || task.sync_mode == SyncMode::Update,
    ensures
        !shared_options(task).contains("--delete"@),
{
    let options = shared_options(task);
    reveal_strlit("--delete");
    reveal_strlit("-z");
    reveal_strlit("--update");
    reveal_strlit("--filter=:- .gitignore");
    assert("--delete"@.len() == 8);
    assert("--update"@[2] == 'u');
    assert("--delete"@[2] == 'd');
    assert("-z"@.len() == 2);
    assert("--filter=:- .gitignore"@.len() == 22);
    if options.contains("--delete"@) {
        let i = choose|i: int| 0 <= i < options.len() && options[i] == "--delete"@;
        assert(options[i] == "-z"@ || options[i] == "--update"@ || options[i]
            == "--filter=:- .gitignore"@);
    }
}

// ---------------------------------------------------------------------------
// Trying again
// ---------------------------------------------------------------------------
/// What follows a synchronization.
#[derive(Debug)]
pub enum RetryStep {
    /// It succeeded.
    Done,
    /// Try again after some seconds; this is the number of tries so far, and what is logged.
    Wait { attempts: u32, seconds: u64, log: String },
    /// Give up; this is the status.
    GiveUp(String),
}

/// What a [`RetryStep`] holds.
#[verifier::ext_equal]
pub enum RetryView {
    Done,
    Wait { attempts: u32, seconds: u64, log: Seq<char> },
    GiveUp(Seq<char>),
}

impl View for RetryStep {
    type V = RetryView;

    open spec fn view(&self) -> RetryView {
        match self {
            RetryStep::Done => RetryView::Done,
            RetryStep::Wait { attempts, seconds, log } => RetryView::Wait {
                attempts: *attempts,
                seconds: *seconds,
                log: log@,
            },
            RetryStep::GiveUp(status) => RetryView::GiveUp(status@),
        }
    }
}

/// What follows a synchronization after some earlier ones.
pub open spec fn retried(attempts: u32, success: bool) -> RetryView {
    if success {
        RetryView::Done
    } else if attempts >= 2 {
        RetryView::GiveUp("ERROR (Max Retries)"@)
    } else {
        let tries = (attempts + 1) as u32;
        let seconds = backoff(tries as nat) as u64;
        RetryView::Wait {
            attempts: tries,
            seconds,
            log: "⚠️ Retry "@ + number::decimal(tries as nat) + "/3 in "@ + number::decimal(
                seconds as nat,
            ) + "s..."@,
        }
    }
}

/// A synchronization that went well is not repeated. One that failed is tried again after two seconds
/// and then after four, and given up after the third time.
pub proof fn law_failures_are_tried_three_times(attempts: u32, success: bool)
    requires
        attempts < 3,
    ensures
        success <==> retried(attempts, success) is Done,
        retried(attempts, success) is GiveUp <==> !success && attempts == 2,
        !success && attempts == 0 ==> (retried(attempts, success) matches RetryView::Wait {
            attempts: tries,
            seconds,
            ..
        } && tries == 1 && seconds == 2),
        !success && attempts == 1 ==> (retried(attempts, success) matches RetryView::Wait {
            attempts: tries,
            seconds,
            ..
        } && tries == 2 && seconds == 4),
        retried(attempts, success) matches RetryView::GiveUp(status) ==> status
            == "ERROR (Max Retries)"@,
{
    reveal_with_fuel(backoff, 4);
}

/// The seconds before the next try: two, then four.
pub open spec fn backoff(attempts: nat) -> nat
    decreases attempts,
{
    if attempts == 0 {
        1
    } else {
        2 * backoff((attempts - 1) as nat)
    }
}

/// Decides what follows a synchronization after `attempts` earlier ones. There are at most three.
pub fn retry_run_rsync(attempts: u32, success: bool) -> (r: RetryStep)
    requires
        attempts < 3,
    ensures
        match r {
            RetryStep::Done => success,
            RetryStep::Wait { attempts: tries, seconds, log } => {
                &&& !success
                &&& tries == attempts + 1
                &&& tries < 3
                &&& seconds == backoff(tries as nat)
                &&& log@ == "⚠️ Retry "@ + number::decimal(tries as nat) + "/3 in "@
                    + number::decimal(seconds as nat) + "s..."@
            },
            RetryStep::GiveUp(status) => !success && attempts == 2 && status@
                == "ERROR (Max Retries)"@,
        },
        r@ == retried(attempts, success),
{
    if success {
        return RetryStep::Done;
    }
    let tries: u32 = attempts + 1;
    if tries >= 3 {
        return RetryStep::GiveUp("ERROR (Max Retries)".to_owned());
    }
    let seconds: u64 = if tries == 1 {
        2
    } else {
        4
    };
    proof {
        reveal_with_fuel(backoff, 3);
    }
    let log: String = text::cat5(
        "⚠️ Retry ",
        &number::decimal_text(tries as u64),
        "/3 in ",
        &number::decimal_text(seconds),
        "s...",
    );
    RetryStep::Wait { attempts: tries, seconds, log }
}

/// Whether a task counts as synchronized: it is there and idle.
pub open spec fn is_idle(tasks: Seq<protocol::TaskView>, id: Seq<char>) -> bool {
    state::find_task(tasks, id) matches Some(t) && t.status == "IDLE"@
}

/// Tells whether a task counts as synchronized.
pub fn synchronized(state: &ServerState, id: &str) -> (r: bool)
    ensures
        r == is_idle(state@.tasks, id@),
{
    match state.task(id) {
        Some(t) => text::same_text(&t.status, "IDLE"),
        None => false,
    }
}

// ---------------------------------------------------------------------------
// Waiting for changes
// ---------------------------------------------------------------------------
/// What a worker waits for.
#[derive(Debug, Clone, Copy)]
pub enum WorkerEvent {
    /// It is to end.
    Kill,
    /// A file changed, at this time in milliseconds.
    Change(u64),
    /// The time that it waited for has come.
    Timer,
}

/// What a worker does.
#[derive(Debug)]
pub enum WorkerAction {
    /// It ends.
    Stop(Vec<Report>),
    /// It reports that it waits.
    Tell(Vec<Report>),
    /// It synchronizes.
    Sync,
    /// Nothing.
    Rest,
}

/// What a [`WorkerAction`] holds.
#[verifier::ext_equal]
pub enum WorkerActionView {
    Stop(Seq<ReportView>),
    Tell(Seq<ReportView>),
    Sync,
    Rest,
}

impl View for WorkerAction {
    type V = WorkerActionView;

    open spec fn view(&self) -> WorkerActionView {
        match self {
            WorkerAction::Stop(list) => WorkerActionView::Stop(report_views(list@)),
            WorkerAction::Tell(list) => WorkerActionView::Tell(report_views(list@)),
            WorkerAction::Sync => WorkerActionView::Sync,
            WorkerAction::Rest => WorkerActionView::Rest,
        }
    }
}

/// What follows for a worker that waits until `deadline`, if it waits.
pub open spec fn worker_next(deadline: Option<u64>, event: WorkerEvent) -> (
    Option<u64>,
    WorkerActionView,
) {
    match event {
        WorkerEvent::Kill => (
            deadline,
            WorkerActionView::Stop(seq![ReportView::Log("Stopped"@)]),
        ),
        WorkerEvent::Change(now) => if deadline is None {
            (
                Some((now + 2000) as u64),
                WorkerActionView::Tell(
                    seq![
                        ReportView::Status("PENDING..."@),
                        ReportView::Log("📝 Change detected, waiting 2s..."@),
                    ],
                ),
            )
        } else {
            (deadline, WorkerActionView::Rest)
        },
        WorkerEvent::Timer => (None, WorkerActionView::Sync),
    }
}

/// One step of a worker: until when it waits now, and what it does.
pub fn worker_step(deadline: Option<u64>, event: WorkerEvent) -> (r: (Option<u64>, WorkerAction))
    requires
        event matches WorkerEvent::Change(now) ==> now <= u64::MAX - 2000,
    ensures
        (r.0, r.1@) == worker_next(deadline, event),
{
    match event {
        WorkerEvent::Kill => {
            let mut reports: Vec<Report> = Vec::new();
            reports.push(Report::Log("Stopped".to_owned()));
            proof {
                assert(report_views(reports@) =~= seq![ReportView::Log("Stopped"@)]);
            }
            (deadline, WorkerAction::Stop(reports))
        },
        WorkerEvent::Change(now) => {
            if deadline.is_some() {
                return (deadline, WorkerAction::Rest);
            }
            let mut reports: Vec<Report> = Vec::new();
            reports.push(Report::Status("PENDING...".to_owned()));
            reports.push(Report::Log("📝 Change detected, waiting 2s...".to_owned()));
            proof {
                assert(report_views(reports@) =~= seq![
                    ReportView::Status("PENDING..."@),
                    ReportView::Log("📝 Change detected, waiting 2s..."@),
                ]);
            }
            (Some(now + 2000), WorkerAction::Tell(reports))
        },
        WorkerEvent::Timer => (None, WorkerAction::Sync),
    }
}

/// How long a worker sleeps, in milliseconds.
pub open spec fn slept(deadline: Option<u64>, now: u64) -> Option<u64> {
    match deadline {
        None => None,
        Some(d) => Some(
            if now >= d {
                0u64
            } else {
                (d - now) as u64
            },
        ),
    }
}

/// A worker sleeps until its deadline and no longer; past it, it does not sleep at all, and without
/// one it is not woken by time.
pub proof fn law_workers_wake_at_their_deadline(deadline: Option<u64>, now: u64)
    ensures
        deadline is None <==> slept(deadline, now) is None,
        deadline matches Some(d) ==> (slept(deadline, now) matches Some(t) && (now <= d ==> now + t
            == d) && (now > d ==> t == 0)),
{
}

/// How long a worker sleeps, in milliseconds; without a deadline it waits for changes alone.
pub fn worker_timeout(deadline: Option<u64>, now: u64) -> (r: Option<u64>)
    ensures
        match deadline {
            None => r is None,
            Some(d) => r == Some(
                if now >= d {
                    0u64
                } else {
                    (d - now) as u64
                },
            ),
        },
        r == slept(deadline, now),
{
    match deadline {
        None => None,
        Some(d) => if now >= d {
            Some(0)
        } else {
            Some(d - now)
        },
    }
}

/// Where a worker stands after a number of changes.
pub open spec fn after_changes(deadline: Option<u64>, times: Seq<u64>) -> Option<u64>
    decreases times.len(),
{
    if times.len() == 0 {
        deadline
    } else {
        worker_next(after_changes(deadline, times.drop_last()), WorkerEvent::Change(times.last())).0
    }
}

/// Changes are gathered: however many follow the first, the worker synchronizes two seconds after
/// the first one.
pub proof fn law_first_change_sets_the_deadline(times: Seq<u64>)
    requires
        times.len() > 0,
        times[0] <= u64::MAX - 2000,
    ensures
        after_changes(None, times) == Some((times[0] + 2000) as u64),
    decreases times.len(),
{
    if times.len() > 1 {
        law_first_change_sets_the_deadline(times.drop_last());
    } else {
        assert(times.drop_last() =~= Seq::<u64>::empty());
        assert(after_changes(None, times.drop_last()) is None);
    }
}

} // verus!
