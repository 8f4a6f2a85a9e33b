use server_sync::common::daemon::{
    get_log_file, get_pid_file, get_server_pid, is_server_running, kill_server, status_message,
};
use server_sync::common::utils::{get_host_path, get_socket_path, is_valid_host};
use server_sync::protocol::{ClientRequest, ServerResponse, SyncDirection, SyncMode, SyncTask};
use server_sync::server::config::{
    default_config, load_server_config, ServerConfig, ServerConfigSource,
};
use server_sync::server::connection::{after_answer, after_read, received, Received, Sent, Talk};
use server_sync::server::handler::{
    finish_request, handle_request, Effect, Reply, Work, WorkResult,
};
use server_sync::server::listing::{list_entries, DirEntry};
use server_sync::server::ssh::{
    askpass_env, create_remote_dir_ssh, get_remote_home_ssh, list_remote_dirs_ssh, parse_listing,
    remote_home, setup_askpass_script, ProcessOutcome,
};
use server_sync::server::state::{load_tasks, restore, tasks_path, temporary_tasks_path, ServerState};
use server_sync::server::worker::{
    dry_run_changes, get_task_log_path, log_dir, parse_rsync_percentage, percentage_of,
    report_output, retry_run_rsync, rotate_log_if_needed, run_dry_run, run_rsync, synchronized,
    worker_step, worker_timeout, write_log_line, Report, RetryStep, SyncEvent, SyncNext, SyncState,
    WorkerAction, WorkerEvent,
};

fn task(id: &str) -> SyncTask {
    SyncTask {
        id: id.to_owned(),
        source: "/data".to_owned(),
        remote_host: "user@host".to_owned(),
        remote_port: Some(2222),
        remote_path: "/backup".to_owned(),
        status: "STARTING".to_owned(),
        last_log: "Created".to_owned(),
        poll_interval: 5,
        sync_mode: SyncMode::Mirror,
        sync_direction: SyncDirection::Push,
        compress: true,
        password: None,
    }
}

fn told(reports: &[Report]) -> Vec<String> {
    reports
        .iter()
        .map(|r| match r {
            Report::Status(s) => format!("status {s}"),
            Report::Log(s) => format!("log {s}"),
            Report::Line(prefix, s) => format!("{prefix}: {s}"),
        })
        .collect()
}

#[test]
fn hosts_are_plain_names() {
    for host in ["host", "user@host", "a.b-c@d.e", "10.0.0.1", "a-", "u-@h-"] {
        assert!(is_valid_host(host), "{host}");
    }
    for host in [
        "", "@", "a@", "@b", "a@b@c", "a b", "a;b", "a=b", "host\n", "h\u{f6}st",
    ] {
        assert!(!is_valid_host(host), "{host}");
    }
    for host in ["-", "-host", "-oProxyCommand", "-u@h", "u@-h", "u@-oProxyCommand"] {
        assert!(!is_valid_host(host), "{host}");
    }
}

#[test]
fn the_daemon_has_its_files() {
    assert_eq!(get_socket_path("/home/u"), "/home/u/.sync_daemon.sock");
    assert_eq!(get_host_path("/home/u"), "/home/u/.sync_hosts");
    assert_eq!(get_pid_file(Some("/home/u")), "/home/u/.sync_daemon.pid");
    assert_eq!(get_log_file(None), "./.sync_daemon_logs/daemon.log");
    assert_eq!(tasks_path(Some("/h")), "/h/.sync_daemon_tasks.json");
    assert_eq!(
        temporary_tasks_path(Some("/h")),
        "/h/.sync_daemon_tasks.json.tmp"
    );
    assert_eq!(
        get_task_log_path(Some("/h"), "task_1"),
        "/h/.sync_daemon_logs/task_1.log"
    );
    assert_eq!(log_dir(Some("/h")), "/h/.sync_daemon_logs");
    assert_eq!(default_config(), "server_config.yaml");
}

#[test]
fn a_process_id_is_read_with_white_space_around_it() {
    assert_eq!(get_server_pid(Some(" 1234\n")), Some(1234));
    assert_eq!(get_server_pid(Some("+12")), Some(12));
    assert_eq!(get_server_pid(Some("4294967295")), Some(4_294_967_295));
    assert_eq!(get_server_pid(Some("4294967296")), None);
    assert_eq!(get_server_pid(Some("-1")), None);
    assert_eq!(get_server_pid(Some("")), None);
    assert_eq!(get_server_pid(None), None);
}

#[test]
fn a_stale_process_id_is_removed() {
    let check = is_server_running(Some(7), false);
    assert!(!check.running && check.remove_pid_file);
    let check = is_server_running(Some(7), true);
    assert!(check.running && !check.remove_pid_file);
    let plan = kill_server(Some(7), true);
    assert_eq!(plan.kill, Some(7));
    assert_eq!(plan.message, "Stopped server (PID: 7)");
    let plan = kill_server(Some(7), false);
    assert_eq!(plan.kill, None);
    assert!(plan.remove_pid_file);
    let plan = kill_server(None, false);
    assert_eq!(plan.message, "No server running.");
    assert!(!plan.remove_pid_file);
    assert_eq!(status_message(false, Some(7)), "🔴 Server is STOPPED");
    assert_eq!(
        status_message(true, Some(7)),
        "✅ Server is RUNNING (PID: 7)"
    );
}

#[test]
fn settings_fall_back_to_a_default_host() {
    let (config, warning) = load_server_config("c.yaml", ServerConfigSource::Missing);
    assert_eq!(config.remote_host, "user@remote");
    assert_eq!(
        warning.as_deref(),
        Some("Config file c.yaml not found. Using default config.")
    );
    let (_, warning) =
        load_server_config("c.yaml", ServerConfigSource::Malformed("bad".to_owned()));
    assert_eq!(
        warning.as_deref(),
        Some("Failed to parse c.yaml: bad. Using default config.")
    );
    let parsed = ServerConfig {
        remote_host: "me@there".to_owned(),
    };
    let (config, warning) = load_server_config("c.yaml", ServerConfigSource::Parsed(parsed));
    assert_eq!(config.remote_host, "me@there");
    assert_eq!(warning, None);
}

#[test]
fn a_conversation_goes_on_until_it_ends() {
    assert!(matches!(received(0, true), Received::End));
    assert!(matches!(received(5, false), Received::Unparsable));
    assert!(matches!(after_read(received(5, true)), Talk::Answer));
    assert!(matches!(after_read(Received::Unparsable), Talk::Read));
    assert!(matches!(after_read(Received::Failed), Talk::Close));
    assert!(matches!(after_answer(Sent::Written), Talk::Read));
    assert!(matches!(after_answer(Sent::Failed), Talk::Close));
    assert!(matches!(after_answer(Sent::Unserializable), Talk::Close));
}

#[test]
fn a_listing_shows_directories_first_and_no_hidden_names() {
    let entry = |name: &str, is_dir: bool| DirEntry {
        name: name.to_owned(),
        is_dir,
    };
    let entries = vec![
        entry("b.txt", false),
        entry("zeta", true),
        entry(".git", true),
        entry("a.txt", false),
        entry("alpha", true),
        entry(".hidden", false),
        entry("B", false),
    ];
    assert_eq!(
        list_entries(&entries),
        vec!["alpha/", "zeta/", "B", "a.txt", "b.txt"]
    );
}

#[test]
fn remote_calls_are_built_for_accepted_hosts() {
    let args = list_remote_dirs_ssh("user@host", None, "").expect("accepted");
    assert_eq!(args[..2], ["-p".to_owned(), "22".to_owned()]);
    assert!(args.contains(&"Compression=no".to_owned()));
    assert_eq!(
        args.last().map(String::as_str),
        Some("ls -1F --group-directories-first .")
    );
    let args = get_remote_home_ssh("user@host", Some(2222)).expect("accepted");
    assert_eq!(args[1], "2222");
    assert!(!args.contains(&"Compression=no".to_owned()));
    assert_eq!(args.last().map(String::as_str), Some("pwd"));
    let args = create_remote_dir_ssh("user@host", None, "/new").expect("accepted");
    assert_eq!(args.last().map(String::as_str), Some("mkdir -p /new"));
    let args = create_remote_dir_ssh("user@host", None, "/a b; it's").expect("accepted");
    assert_eq!(
        args.last().map(String::as_str),
        Some("mkdir -p '/a b; it'\"'\"'s'")
    );
    assert!(list_remote_dirs_ssh("-oX=y", None, "").is_none());
    assert!(get_remote_home_ssh("a b", None).is_none());
    assert!(create_remote_dir_ssh("", None, "/new").is_none());
    assert!(create_remote_dir_ssh("-h", None, "/new").is_none());
}

#[test]
fn a_remote_listing_keeps_the_directories() {
    assert_eq!(
        parse_listing("docs/\nfile.txt\nlink@\nsub dir/\r\n"),
        vec!["docs", "sub dir"]
    );
    assert_eq!(
        remote_home(&ProcessOutcome::Success(b" /home/u\n".to_vec())),
        "/home/u"
    );
    assert_eq!(remote_home(&ProcessOutcome::Failure(Vec::new())), "/");
}

#[test]
fn a_password_goes_through_the_helper() {
    let (script, content) = setup_askpass_script(Some("/h"));
    assert_eq!(script, "/h/.ssh/sockets/askpass_wrapper.sh");
    assert_eq!(content, "#!/bin/sh\necho \"$SERVER_SYNC_PW\"");
    let env = askpass_env(&Some("word".to_owned()), &Some(script));
    let names: Vec<&str> = env.iter().map(|e| e.name).collect();
    assert_eq!(
        names,
        vec![
            "SSH_ASKPASS",
            "SSH_ASKPASS_REQUIRE",
            "SERVER_SYNC_PW",
            "DISPLAY"
        ]
    );
    assert_eq!(env[2].value, "word");
    assert!(askpass_env(&None, &Some("x".to_owned())).is_empty());
    assert!(askpass_env(&Some("x".to_owned()), &None).is_empty());
}

#[test]
fn tasks_are_started_once_restarted_and_stopped() {
    let mut state = ServerState::new("user@remote".to_owned());
    let (effects, reply) = handle_request(&mut state, ClientRequest::StartTask(task("t1")));
    assert!(matches!(reply, Reply::Now(ServerResponse::Ack)));
    assert!(matches!(effects[0], Effect::StartWorker(_)));
    assert!(matches!(&effects[1], Effect::SaveTasks(list) if list.len() == 1));
    let (effects, reply) = handle_request(&mut state, ClientRequest::StartTask(task("t1")));
    assert!(effects.is_empty());
    assert!(
        matches!(reply, Reply::Now(ServerResponse::Error(e)) if e == "Task t1 already exists")
    );
    let (effects, reply) =
        handle_request(&mut state, ClientRequest::RestartTask("t1".to_owned()));
    assert!(matches!(reply, Reply::Now(ServerResponse::Ack)));
    assert!(matches!(&effects[0], Effect::StopWorker(id) if id == "t1"));
    assert!(matches!(&effects[1], Effect::StartWorker(t) if t.status == "STARTING"));
    assert_eq!(state.tasks[0].status, "RESTARTING...");
    let (_, reply) = handle_request(&mut state, ClientRequest::GetState);
    assert!(matches!(reply, Reply::Now(ServerResponse::State(list)) if list.len() == 1));
    let (effects, _) = handle_request(&mut state, ClientRequest::StopTask("t1".to_owned()));
    assert_eq!(effects.len(), 2);
    assert!(state.tasks.is_empty() && state.workers.is_empty());
    let (effects, reply) = handle_request(&mut state, ClientRequest::StopTask("t1".to_owned()));
    assert!(matches!(&effects[0], Effect::SaveTasks(list) if list.is_empty()));
    assert!(matches!(reply, Reply::Now(ServerResponse::Ack)));
    let (_, reply) = handle_request(&mut state, ClientRequest::RestartTask("t1".to_owned()));
    assert!(matches!(reply, Reply::Now(ServerResponse::Error(e)) if e == "Task t1 not found"));
}

#[test]
fn hosts_that_are_not_accepted_are_not_reached() {
    let mut state = ServerState::new(String::new());
    let mut bad = task("t1");
    bad.remote_host = "-oProxyCommand=x".to_owned();
    let (effects, reply) = handle_request(&mut state, ClientRequest::StartTask(bad));
    assert!(effects.is_empty());
    assert!(
        matches!(reply, Reply::Now(ServerResponse::Error(e)) if e == "Invalid remote host format")
    );
    let (_, reply) = handle_request(
        &mut state,
        ClientRequest::ListRemoteDirs("a b".to_owned(), None, "/".to_owned(), None),
    );
    assert!(matches!(reply, Reply::Now(ServerResponse::DirList(list))
        if list == vec!["Error: Invalid remote host format"]));
    let (_, reply) = handle_request(
        &mut state,
        ClientRequest::GetRemoteHome("a b".to_owned(), None, None),
    );
    assert!(matches!(reply, Reply::Now(ServerResponse::RemoteHome(p)) if p == "/"));
}

#[test]
fn work_is_asked_for_and_answered() {
    let mut state = ServerState::new(String::new());
    let (_, reply) = handle_request(&mut state, ClientRequest::ListLocalDirs(String::new()));
    assert!(matches!(&reply, Reply::After(Work::ListDir(p)) if p == "/"));
    let answer = finish_request(
        Work::ListDir("/".to_owned()),
        WorkResult::Entries(Err("denied".to_owned())),
    );
    assert!(matches!(answer, ServerResponse::Error(e) if e == "denied"));
    let answer = finish_request(
        Work::ReadLog("t1".to_owned()),
        WorkResult::Content(None),
    );
    assert!(matches!(answer, ServerResponse::TaskLog(id, content)
        if id == "t1" && content == "No logs found yet."));
    let answer = finish_request(
        Work::MakeRemoteDir(Vec::new(), None),
        WorkResult::Ran(ProcessOutcome::Failure(b"no".to_vec())),
    );
    assert!(matches!(answer, ServerResponse::Error(e) if e == "Mkdir failed: no"));
    let answer = finish_request(
        Work::ListRemote(Vec::new(), None),
        WorkResult::Ran(ProcessOutcome::NotRun("gone".to_owned())),
    );
    assert!(matches!(answer, ServerResponse::DirList(list) if list == vec!["Exec Error: gone"]));
    let answer = finish_request(
        Work::MakeLocalDir("/new".to_owned()),
        WorkResult::Made(None),
    );
    assert!(matches!(answer, ServerResponse::Ack));
    let (_, reply) = handle_request(&mut state, ClientRequest::DryRun("t1".to_owned()));
    assert!(matches!(reply, Reply::Now(ServerResponse::Error(e)) if e == "Task t1 not found"));
}

#[test]
fn of_saved_tasks_the_last_one_of_an_id_counts() {
    let mut second = task("t1");
    second.source = "/other".to_owned();
    let tasks = load_tasks(vec![task("t1"), task("t2"), second]);
    assert_eq!(tasks.len(), 2);
    let state = restore(tasks, "user@remote".to_owned());
    assert_eq!(
        state.task("t1").map(|t| t.source.as_str()),
        Some("/other")
    );
    assert_eq!(state.workers.len(), 2);
}

#[test]
fn the_arguments_of_a_synchronization() {
    let mut t = task("t1");
    let (state, reports, next) = run_rsync(&t, SyncState::Start, SyncEvent::Begin);
    assert!(reports.is_empty());
    assert!(matches!(next, SyncNext::Prepare));
    let (state, reports, next) = run_rsync(&t, state, SyncEvent::Prepared(false));
    assert_eq!(
        told(&reports),
        vec![
            "SYNC: --- Starting Sync: /data -> user@host:/backup ---",
            "status SYNCING 0%",
            "log 🔄 Starting sync..."
        ]
    );
    match next {
        SyncNext::Spawn(args) => {
            assert_eq!(args[..2], ["/data/".to_owned(), "user@host:/backup".to_owned()]);
            assert_eq!(args[2], "-av");
            assert!(args.iter().any(|a| a.starts_with("ssh -p 2222 -T ")));
            assert_eq!(
                args[args.len() - 3..],
                [
                    "-z".to_owned(),
                    "--delete".to_owned(),
                    "--filter=:- .gitignore".to_owned()
                ]
            );
        }
        other => panic!("{other:?}"),
    }
    let (state, reports, _) = run_rsync(
        &t,
        state,
        SyncEvent::Stdout("   1,234,567  12%  123.45kB/s    0:00:12".to_owned()),
    );
    assert_eq!(told(&reports)[1], "status SYNCING 12%");
    let (state, reports, _) = run_rsync(&t, state, SyncEvent::Stderr("oops".to_owned()));
    assert_eq!(told(&reports), vec!["STDERR: oops"]);
    let ended = SyncEvent::Ended(true, "exit status: 0".to_owned());
    let (_, reports, next) = run_rsync(&t, state, ended);
    assert_eq!(
        told(&reports),
        vec![
            "SYNC: Process finished with: exit status: 0",
            "log ✅ Sync Successful",
            "status IDLE"
        ]
    );
    assert!(matches!(next, SyncNext::Over));
    t.sync_direction = SyncDirection::Pull;
    t.sync_mode = SyncMode::SafeSync;
    t.compress = false;
    t.remote_port = None;
    let (_, _, next) = run_rsync(&t, SyncState::Prepare, SyncEvent::Prepared(true));
    match next {
        SyncNext::Spawn(args) => {
            assert_eq!(args[..2], ["user@host:/backup/".to_owned(), "/data".to_owned()]);
            assert!(args.contains(&"--backup-dir=.rsync-backup".to_owned()));
            assert!(!args.contains(&"-z".to_owned()));
            assert!(args.iter().any(|a| a.starts_with("ssh -p 22 -T ")));
        }
        other => panic!("{other:?}"),
    }
}

#[test]
fn a_synchronization_that_fails_says_why() {
    let t = task("t1");
    let cases = [
        (
            SyncEvent::SpawnFailed("gone".to_owned()),
            "log ❌ Exec Error: gone",
        ),
        (
            SyncEvent::WaitFailed("gone".to_owned()),
            "log ❌ Process Error: gone",
        ),
        (
            SyncEvent::Ended(false, "exit status: 23".to_owned()),
            "log ❌ Failed (Exit exit status: 23)",
        ),
    ];
    for (event, log) in cases {
        let (_, reports, next) = run_rsync(&t, SyncState::Running, event);
        assert!(matches!(next, SyncNext::Over));
        let lines = told(&reports);
        assert_eq!(lines[1], log);
        assert_eq!(lines[2], "status ERROR");
    }
    let mut bad = task("t1");
    bad.remote_host = "a b".to_owned();
    let (_, reports, next) = run_rsync(&bad, SyncState::Start, SyncEvent::Begin);
    assert!(matches!(next, SyncNext::Over));
    assert_eq!(
        told(&reports),
        vec![
            "status ERROR (Bad Host)",
            "log ❌ Invalid remote host format"
        ]
    );
    assert!(run_dry_run(&bad, true).is_none());
}

#[test]
fn a_dry_run_changes_nothing_and_lists_lines() {
    let mut t = task("t1");
    t.sync_mode = SyncMode::AddOnly;
    let args = run_dry_run(&t, true).expect("accepted");
    assert_eq!(args[..2], ["-avn".to_owned(), "--itemize-changes".to_owned()]);
    assert!(!args.iter().any(|a| a.contains("--delete")));
    assert_eq!(
        args[args.len() - 2..],
        ["/data".to_owned(), "user@host:/backup".to_owned()]
    );
    assert_eq!(
        dry_run_changes(&ProcessOutcome::Success(b"a\nb\xff\n".to_vec())),
        vec!["a", "b\u{FFFD}"]
    );
    assert_eq!(
        dry_run_changes(&ProcessOutcome::Failure(b"no".to_vec())),
        vec!["Error: no"]
    );
}

#[test]
fn percentages_are_read_from_lines() {
    assert_eq!(
        parse_rsync_percentage("   1,234,567  12%  123.45kB/s    0:00:12"),
        Some(12)
    );
    assert_eq!(parse_rsync_percentage("12%"), None);
    assert_eq!(parse_rsync_percentage("a\t100% b 5%"), Some(100));
    assert_eq!(parse_rsync_percentage(" 4294967296%"), None);
    assert_eq!(parse_rsync_percentage("no progress"), None);
    assert_eq!(percentage_of(&Some("7".to_owned())), Some(7));
    assert_eq!(percentage_of(&None), None);
    assert_eq!(
        told(&report_output("x".to_owned(), None)),
        vec!["STDOUT: x"]
    );
}

#[test]
fn a_task_is_tried_three_times() {
    assert!(matches!(retry_run_rsync(0, true), RetryStep::Done));
    match retry_run_rsync(0, false) {
        RetryStep::Wait {
            attempts,
            seconds,
            log,
        } => {
            assert_eq!((attempts, seconds), (1, 2));
            assert_eq!(log, "⚠️ Retry 1/3 in 2s...");
        }
        other => panic!("{other:?}"),
    }
    assert!(matches!(
        retry_run_rsync(1, false),
        RetryStep::Wait {
            attempts: 2,
            seconds: 4,
            ..
        }
    ));
    assert!(
        matches!(retry_run_rsync(2, false), RetryStep::GiveUp(s) if s == "ERROR (Max Retries)")
    );
    let mut state = ServerState::new(String::new());
    state.add(task("t1"));
    assert!(!synchronized(&state, "t1"));
    state.update_status("t1", "IDLE");
    assert!(synchronized(&state, "t1"));
    state.update_log("t1", "done");
    assert_eq!(state.tasks[0].last_log, "done");
    assert!(!synchronized(&state, "t2"));
}

#[test]
fn changes_are_gathered_for_two_seconds() {
    let (deadline, action) = worker_step(None, WorkerEvent::Change(1000));
    assert_eq!(deadline, Some(3000));
    assert!(matches!(action, WorkerAction::Tell(reports) if told(&reports)[0] == "status PENDING..."));
    let (deadline, action) = worker_step(deadline, WorkerEvent::Change(2500));
    assert_eq!(deadline, Some(3000));
    assert!(matches!(action, WorkerAction::Rest));
    assert_eq!(worker_timeout(deadline, 2500), Some(500));
    assert_eq!(worker_timeout(deadline, 3500), Some(0));
    let (deadline, action) = worker_step(deadline, WorkerEvent::Timer);
    assert_eq!(deadline, None);
    assert!(matches!(action, WorkerAction::Sync));
    assert_eq!(worker_timeout(deadline, 0), None);
    let (_, action) = worker_step(deadline, WorkerEvent::Kill);
    assert!(matches!(action, WorkerAction::Stop(reports) if told(&reports) == vec!["log Stopped"]));
}

#[test]
fn logs_are_written_in_lines_and_turned_over() {
    assert_eq!(
        write_log_line("2026-07-21 12:00:00", "SYNC", "done"),
        "[2026-07-21 12:00:00] SYNC: done\n"
    );
    assert_eq!(rotate_log_if_needed("/l", 10_485_760), None);
    assert_eq!(
        rotate_log_if_needed("/l", 10_485_761).as_deref(),
        Some("/l.old")
    );
}
