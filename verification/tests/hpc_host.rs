use server_sync::hpc_sync::error::AppResult;
use server_sync::hpc_sync::execution::{execute, ExecAction, ExecEvent, ExecState, ExecStep};
use server_sync::hpc_sync::process::{CommandOutput, Execution, Poll};
use server_sync::hpc_sync::state::{
    acquire, atomic_write, atomic_write_json, ensure_private_dir, read_json, DirState, FileAction,
    FileEvent, FileStep, FileWrite, JsonSource, LockState, WriteState,
};
use server_sync::path::FilePath;

fn path(s: &str) -> FilePath {
    FilePath::from_text(s)
}

fn shown(p: &FilePath) -> String {
    p.to_text().expect("text")
}

fn spelled(action: &FileAction) -> String {
    match action {
        FileAction::CreateDirs(p, mode) => format!("dirs {} {mode:o}", shown(p)),
        FileAction::SetMode(p, mode) => format!("mode {} {mode:o}", shown(p)),
        FileAction::CreateNew(p, mode) => format!("new {} {mode:o}", shown(p)),
        FileAction::WriteAll(content) => format!("write {}", String::from_utf8_lossy(content)),
        FileAction::Rename(from, to) => format!("rename {} {}", shown(from), shown(to)),
        FileAction::Remove(p) => format!("remove {}", shown(p)),
        FileAction::OpenOrCreate(p, mode) => format!("open {} {mode:o}", shown(p)),
        FileAction::TryLock => "lock".to_owned(),
    }
}

/// Follows a machine of the file system, which fails at the given action.
fn follow<S>(
    start: S,
    failing: &str,
    mut next: impl FnMut(S, FileEvent) -> FileStep<S>,
) -> (Vec<String>, AppResult<()>) {
    let mut state = start;
    let mut event = FileEvent::Begin;
    let mut asked = Vec::new();
    loop {
        match next(state, event) {
            FileStep::Continue(then, action) => {
                let what = spelled(&action);
                event = if !failing.is_empty() && what.starts_with(failing) {
                    FileEvent::Failed("no".to_owned())
                } else {
                    FileEvent::Done
                };
                asked.push(what);
                state = then;
            }
            FileStep::Finish(result) => return (asked, result),
        }
    }
}

fn file() -> FileWrite {
    FileWrite {
        dir: path("/s"),
        target: path("/s/plan.json"),
        temporary: path("/s/.plan.json.1.2.tmp"),
        content: b"{}\n".to_vec(),
    }
}

fn write(failing: &str) -> (Vec<String>, AppResult<()>) {
    let file = file();
    follow(WriteState::Prepare(DirState::Start), failing, |s, e| {
        atomic_write(&file, s, e)
    })
}

#[test]
fn a_file_is_written_aside_and_renamed() {
    let (asked, result) = write("");
    assert!(result.is_ok());
    assert_eq!(
        asked,
        vec![
            "dirs /s 700",
            "mode /s 700",
            "new /s/.plan.json.1.2.tmp 600",
            "write {}\n",
            "rename /s/.plan.json.1.2.tmp /s/plan.json"
        ]
    );
}

#[test]
fn a_file_that_is_not_written_leaves_nothing_behind() {
    for (failing, message) in [
        ("new", "cannot access /s/.plan.json.1.2.tmp: no"),
        ("write", "cannot access /s/.plan.json.1.2.tmp: no"),
        ("rename", "cannot access /s/plan.json: no"),
    ] {
        let (asked, result) = write(failing);
        assert_eq!(
            asked.last().map(String::as_str),
            Some("remove /s/.plan.json.1.2.tmp")
        );
        let error = result.unwrap_err();
        assert_eq!(error.code, "state_write_failed");
        assert_eq!(error.message, message);
    }
    let (asked, result) = write("mode");
    assert_eq!(asked.len(), 2);
    assert_eq!(result.unwrap_err().message, "cannot access /s: no");
}

#[test]
fn a_directory_is_private() {
    let p = path("/s/runs");
    let (asked, result) = follow(DirState::Start, "", |s, e| ensure_private_dir(&p, s, e));
    assert!(result.is_ok());
    assert_eq!(asked, vec!["dirs /s/runs 700", "mode /s/runs 700"]);
}

#[test]
fn a_lock_is_taken_or_refused() {
    let dir = path("/s/locks");
    let p = path("/s/locks/demo.lock");
    let start = LockState::Prepare(DirState::Start);
    let (asked, result) = follow(start, "", |s, e| acquire(&dir, &p, s, e));
    assert!(result.is_ok());
    assert_eq!(asked[2..], ["open /s/locks/demo.lock 600".to_owned(), "lock".to_owned()]);
    let (_, result) = follow(start, "lock", |s, e| acquire(&dir, &p, s, e));
    let error = result.unwrap_err();
    assert_eq!(error.code, "job_locked");
    assert_eq!(error.exit_code, 0);
    let (_, result) = follow(start, "open", |s, e| acquire(&dir, &p, s, e));
    assert_eq!(result.unwrap_err().code, "state_write_failed");
}

#[test]
fn records_are_read_and_written() {
    let p = path("/s/f");
    assert_eq!(read_json(&p, JsonSource::Parsed(7)).expect("record"), 7);
    let gone: AppResult<u8> = read_json(&p, JsonSource::Unreadable("gone".to_owned()));
    assert_eq!(gone.unwrap_err().code, "state_unreadable");
    let bad: AppResult<u8> = read_json(&p, JsonSource::Corrupt("bad".to_owned()));
    assert_eq!(bad.unwrap_err().code, "state_corrupt");
    assert_eq!(
        atomic_write_json(&p, Ok(b"{}".to_vec())).expect("content"),
        b"{}\n".to_vec()
    );
    let error = atomic_write_json(&p, Err("bad".to_owned())).unwrap_err();
    assert_eq!(error.code, "state_serialize_failed");
    assert_eq!(error.message, "cannot serialize /s/f: bad");
}

/// Follows a command whose looks are given, and which fails at the given action.
fn run(looks: &[(Poll, bool)], stderr: &str, failing: &str) -> (Vec<String>, AppResult<CommandOutput>) {
    let request = Execution {
        command: vec!["rsync".to_owned(), "-a".to_owned()],
        timeout_seconds: 60,
        stdout_path: path("/s/out"),
        stderr_path: path("/s/err"),
    };
    let dir = path("/s");
    let mut looks = looks.iter();
    let mut state = ExecState::Prepare(DirState::Start);
    let mut event = ExecEvent::Begin;
    let mut asked = Vec::new();
    loop {
        match execute(&request, &dir, state, event) {
            ExecStep::Finish(result) => return (asked, result),
            ExecStep::Continue(then, action) => {
                state = then;
                let (what, answer) = match action {
                    ExecAction::File(a) => (spelled(&a), ExecEvent::Done),
                    ExecAction::OpenOutput(p, mode) => {
                        (format!("output {} {mode:o}", shown(&p)), ExecEvent::Done)
                    }
                    ExecAction::Spawn(words) => {
                        (format!("spawn {}", words.join(" ")), ExecEvent::Done)
                    }
                    ExecAction::Look(millis) => {
                        let (poll, late) = looks.next().expect("look");
                        (format!("look {millis}"), ExecEvent::Seen(*poll, *late))
                    }
                    ExecAction::Kill => ("kill".to_owned(), ExecEvent::Done),
                    ExecAction::Reap => ("reap".to_owned(), ExecEvent::Done),
                    ExecAction::Read(p) => {
                        let content = if shown(&p) == "/s/err" { stderr } else { "out" };
                        (
                            format!("read {}", shown(&p)),
                            ExecEvent::Content(content.to_owned()),
                        )
                    }
                    ExecAction::Write(p, s) => {
                        (format!("write {} {s}", shown(&p)), ExecEvent::Done)
                    }
                };
                event = if !failing.is_empty() && what.starts_with(failing) {
                    ExecEvent::Failed("no".to_owned())
                } else {
                    answer
                };
                asked.push(what);
            }
        }
    }
}

#[test]
fn a_command_runs_to_its_end() {
    let looks = [(Poll::Running, false), (Poll::Ended(Some(23)), false)];
    let (asked, result) = run(&looks, "bad", "");
    let output = result.expect("output");
    assert_eq!(output.exit_code, 23);
    assert_eq!(output.stdout, "out");
    assert_eq!(output.stderr, "bad");
    assert_eq!(
        asked,
        vec![
            "dirs /s 700",
            "mode /s 700",
            "output /s/out 600",
            "output /s/err 600",
            "spawn rsync -a",
            "look 0",
            "look 100",
            "read /s/out",
            "read /s/err"
        ]
    );
}

#[test]
fn a_late_command_is_killed_and_says_so() {
    let (asked, result) = run(&[(Poll::Running, true)], "x", "");
    let output = result.expect("output");
    assert_eq!(output.exit_code, 30);
    assert_eq!(output.stderr, "x\nhpc-sync timeout\n");
    assert_eq!(
        asked[5..],
        [
            "look 0".to_owned(),
            "kill".to_owned(),
            "reap".to_owned(),
            "read /s/out".to_owned(),
            "read /s/err".to_owned(),
            "write /s/err x\nhpc-sync timeout\n".to_owned()
        ]
    );
}

#[test]
fn a_command_that_fails_on_the_way_says_where() {
    let ended = [(Poll::Ended(None), false)];
    for (failing, code, message) in [
        ("dirs", "state_write_failed", "cannot access /s: no"),
        ("output /s/out", "command_output_failed", "cannot access command output /s/out: no"),
        ("output /s/err", "command_output_failed", "cannot access command output /s/err: no"),
        ("spawn", "command_spawn_failed", "cannot start rsync: no"),
        ("look", "command_wait_failed", "cannot wait for rsync: no"),
        ("read /s/out", "command_output_failed", "cannot access command output /s/out: no"),
        ("read /s/err", "command_output_failed", "cannot access command output /s/err: no"),
    ] {
        let error = run(&ended, "", failing).1.unwrap_err();
        assert_eq!(error.code, code);
        assert_eq!(error.message, message);
    }
    assert_eq!(run(&ended, "", "").1.expect("output").exit_code, 128);
}

#[test]
fn a_command_without_words_is_not_run() {
    let request = Execution {
        command: Vec::new(),
        timeout_seconds: 60,
        stdout_path: path("/s/out"),
        stderr_path: path("/s/err"),
    };
    let start = ExecState::Prepare(DirState::Start);
    match execute(&request, &path("/s"), start, ExecEvent::Begin) {
        ExecStep::Finish(Err(e)) => assert_eq!(e.code, "command_empty"),
        other => panic!("{other:?}"),
    }
}
