//! The daemon as a process: its files, its id and what is said of it.
use crate::{number, text};
use vstd::prelude::*;

verus! {

/// The home directory, or the current one where none is known.
pub open spec fn home_or_here(home: Option<Seq<char>>) -> Seq<char> {
    match home {
        Some(h) => h,
        None => "."@,
    }
}

/// A path in the home directory, or in the current one where no home is known.
pub fn in_home(home: Option<&str>, rest: &str) -> (r: String)
    ensures
        r@ == home_or_here(text::optional_str(home)) + rest@,
{
    match home {
        Some(h) => text::cat2(h, rest),
        None => text::cat2(".", rest),
    }
}

/// Where the process id of the daemon is kept.
pub fn get_pid_file(home: Option<&str>) -> (r: String)
    ensures
        r@ == home_or_here(text::optional_str(home)) + "/.sync_daemon.pid"@,
{
    in_home(home, "/.sync_daemon.pid")
}

/// Where the daemon writes its log.
pub fn get_log_file(home: Option<&str>) -> (r: String)
    ensures
        r@ == home_or_here(text::optional_str(home)) + "/.sync_daemon_logs/daemon.log"@,
{
    in_home(home, "/.sync_daemon_logs/daemon.log")
}

/// The process id that a file holds: a number of 32 bits, with white space around it.
pub open spec fn pid_of(content: Option<Seq<char>>) -> Option<nat> {
    match content {
        Some(c) => number::parsed(text::trimmed(c), u32::MAX as nat),
        None => None,
    }
}

/// The process id of the daemon, from what its file holds.
pub fn get_server_pid(content: Option<&str>) -> (r: Option<u32>)
    ensures
        match r {
            Some(pid) => pid_of(text::optional_str(content)) == Some(pid as nat),
            None => pid_of(text::optional_str(content)) is None,
        },
{
    match content {
        Some(c) => number::parse_number(&text::trim(c), u32::MAX),
        None => None,
    }
}

/// Whether the daemon runs, and whether its file is to be removed.
#[derive(Debug, Clone, Copy, PartialEq, Eq, Structural)]
pub struct ServerCheck {
    pub running: bool,
    pub remove_pid_file: bool,
}

/// What a process id and a look for its process say of the daemon.
pub open spec fn judged(pid: Option<u32>, process_found: bool) -> ServerCheck {
    ServerCheck {
        running: pid is Some && process_found,
        remove_pid_file: pid is Some && !process_found,
    }
}

/// The daemon runs exactly where its process is known and there. Its file is removed exactly where it
/// names a process that is not there, so never while the daemon runs.
pub proof fn law_only_stale_files_are_removed(pid: Option<u32>, process_found: bool)
    ensures
        judged(pid, process_found).running <==> pid is Some && process_found,
        judged(pid, process_found).remove_pid_file <==> pid is Some && !process_found,
        !(judged(pid, process_found).running && judged(pid, process_found).remove_pid_file),
{
}

/// Decides whether the daemon runs. A file that names no process is stale and removed.
pub fn is_server_running(pid: Option<u32>, process_found: bool) -> (r: ServerCheck)
    ensures
        r.running == (pid is Some && process_found),
        r.remove_pid_file == (pid is Some && !process_found),
        r == judged(pid, process_found),
{
    match pid {
        Some(_) => ServerCheck { running: process_found, remove_pid_file: !process_found },
        None => ServerCheck { running: false, remove_pid_file: false },
    }
}

/// How the daemon is stopped.
#[derive(Debug)]
pub struct StopPlan {
    /// The process that is ended.
    pub kill: Option<u32>,
    /// Whether the file with its id is removed.
    pub remove_pid_file: bool,
    /// What is said.
    pub message: String,
}

/// The process that is ended to stop the daemon.
pub open spec fn ended(pid: Option<u32>, process_found: bool) -> Option<u32> {
    if process_found {
        pid
    } else {
        None
    }
}

/// Stopping ends the process of the daemon where it is there, and no other process.
pub proof fn law_only_the_daemon_is_ended(pid: Option<u32>, process_found: bool, other: u32)
    ensures
        ended(pid, process_found) == Some(other) <==> pid == Some(other) && process_found,
{
}

/// Decides how the daemon is stopped.
pub fn kill_server(pid: Option<u32>, process_found: bool) -> (r: StopPlan)
    ensures
        r.kill == (if process_found {
            pid
        } else {
            None
        }),
        r.kill == ended(pid, process_found),
        r.remove_pid_file == (pid is Some),
        r.message@ == (match pid {
            Some(p) => if process_found {
                "Stopped server (PID: "@ + number::decimal(p as nat) + ")"@
            } else {
                "Process not found (stale PID file?). Cleaning up."@
            },
            None => "No server running."@,
        }),
{
    match pid {
        Some(p) => if process_found {
            StopPlan {
                kill: Some(p),
                remove_pid_file: true,
                message: text::cat3("Stopped server (PID: ", &number::decimal_text(p as u64), ")"),
            }
        } else {
            StopPlan {
                kill: None,
                remove_pid_file: true,
                message: "Process not found (stale PID file?). Cleaning up.".to_owned(),
            }
        },
        None => StopPlan {
            kill: None,
            remove_pid_file: false,
            message: "No server running.".to_owned(),
        },
    }
}

/// What is said of the state of the daemon.
pub fn status_message(running: bool, pid: Option<u32>) -> (r: String)
    ensures
        r@ == (if !running {
            "🔴 Server is STOPPED"@
        } else {
            match pid {
                Some(p) => "✅ Server is RUNNING (PID: "@ + number::decimal(p as nat) + ")"@,
                None => "✅ Server is RUNNING"@,
            }
        }),
{
    if !running {
        return "🔴 Server is STOPPED".to_owned();
    }
    match pid {
        Some(p) => text::cat3(
            "✅ Server is RUNNING (PID: ",
            &number::decimal_text(p as u64),
            ")",
        ),
        None => "✅ Server is RUNNING".to_owned(),
    }
}

/// A process id that was written down is read back, whatever white space follows it.
pub proof fn law_pid_is_read_back(pid: u32)
    ensures
        pid_of(Some(number::decimal(pid as nat))) == Some(pid as nat),
        pid_of(Some(number::decimal(pid as nat).push('\n'))) == Some(pid as nat),
{
    let s = number::decimal(pid as nat);
    number::lemma_decimal_digits(pid as nat);
    number::law_decimal_round_trip(pid as nat, u32::MAX as nat);
    text::lemma_trimmed_fixed(s);
    assert(s.push('\n').drop_last() =~= s);
    assert(text::trimmed_front(s.push('\n')) == s.push('\n'));
    assert(text::trimmed_back(s.push('\n')) == text::trimmed_back(s));
}

} // verus!
