use server_sync::hpc_sync::cli::{
    default_config, default_limit, describe_record, dispatch, emit, error_record,
    handle_clap_error, run, AfterPrint, Command, Document, Parsed, Preparation, Printed,
};
use server_sync::hpc_sync::config::{
    default_connect_timeout, default_port, default_profile, default_runtime, default_verify,
    expand_home, load_config, AppConfig, ConfigSource, JobConfig, NamedJob, SshConfig,
};
use server_sync::hpc_sync::error::AppError;
use server_sync::hpc_sync::exit_class::{classify_exit, is_authentication_error};
use server_sync::hpc_sync::moment::{moment_text, new_run_id, run_id_at, utc_now, Moment};
use server_sync::hpc_sync::process::{
    collect_output, count_itemized_changes, program, read_error, spawn_error, stable_hash,
    wait_error, wait_step, Poll, WaitStep,
};
use server_sync::hpc_sync::rsync::validate_run_id;
use server_sync::hpc_sync::state::{
    corrupt_error, finish_document, lock_error, serialize_error, state_error, temporary_name,
    unreadable_error,
};
use server_sync::path::FilePath;

fn path(s: &str) -> FilePath {
    FilePath::from_text(s)
}

fn job() -> JobConfig {
    JobConfig {
        profile: default_profile(),
        source: path("/tmp/source"),
        destination_root: path("/backup"),
        ssh: SshConfig {
            host: "backup.local".to_owned(),
            user: "sync".to_owned(),
            identity_file: path("/tmp/key"),
            known_hosts_file: path("/tmp/hosts"),
            port: default_port(),
            connect_timeout_seconds: default_connect_timeout(),
        },
        source_complete_marker: None,
        excludes: Vec::new(),
        preserve_hard_links: false,
        preserve_acls: false,
        preserve_xattrs: false,
        bootstrap_from_destination_root: false,
        verify_after_run: default_verify(),
        max_runtime_seconds: default_runtime(),
    }
}

fn config(job: JobConfig) -> AppConfig {
    AppConfig {
        version: 1,
        state_dir: path("/tmp/state"),
        jobs: vec![NamedJob {
            id: "demo".to_owned(),
            job,
        }],
    }
}

fn message_of(config: AppConfig) -> String {
    let error = config.validate().unwrap_err();
    assert_eq!(error.code, "config_invalid");
    assert_eq!(
        error.suggested_fix,
        "Correct the closed-schema TOML configuration."
    );
    error.message
}

#[test]
fn a_valid_configuration_is_accepted() {
    assert!(config(job()).validate().is_ok());
    let accepted = config(job());
    assert_eq!(
        accepted.job("demo").expect("job").max_runtime_seconds,
        21_600
    );
}

#[test]
fn each_rule_of_a_configuration_has_its_message() {
    let mut c = config(job());
    c.version = 2;
    assert_eq!(message_of(c), "version must be 1");
    let mut c = config(job());
    c.jobs = Vec::new();
    assert_eq!(message_of(c), "at least one job is required");
    let mut c = config(job());
    c.jobs[0].id = "a/b".to_owned();
    assert_eq!(message_of(c), "invalid job id \"a/b\"");
    let mut c = config(job());
    c.state_dir = path("/./");
    assert_eq!(message_of(c), "state_dir must be an absolute non-root path");
    let mut j = job();
    j.profile = "mirror".to_owned();
    assert_eq!(
        message_of(config(j)),
        "only profile = \"backup\" is supported"
    );
    let mut j = job();
    j.source = path("relative");
    assert_eq!(
        message_of(config(j)),
        "source must be an absolute non-root path"
    );
    let mut j = job();
    j.destination_root = path("/a\nb");
    assert_eq!(
        message_of(config(j)),
        "destination_root contains a line break"
    );
    let mut j = job();
    j.destination_root = path("/a/..");
    assert_eq!(
        message_of(config(j)),
        "destination_root must not contain parent-directory components"
    );
    let mut j = job();
    j.ssh.identity_file = path("key");
    assert_eq!(
        message_of(config(j)),
        "identity_file must be an absolute path"
    );
    let mut j = job();
    j.ssh.known_hosts_file = FilePath {
        bytes: vec![47, 0xc3],
    };
    assert_eq!(message_of(config(j)), "known_hosts_file must be valid UTF-8");
    let mut j = job();
    j.ssh.host = "-o ProxyCommand=x".to_owned();
    assert_eq!(
        message_of(config(j)),
        "SSH host and user contain unsupported characters"
    );
    let mut j = job();
    j.max_runtime_seconds = 29;
    assert_eq!(
        message_of(config(j)),
        "max_runtime_seconds must be between 30 and 604800"
    );
    let mut j = job();
    j.source_complete_marker = Some(path("a/../../b"));
    assert_eq!(
        message_of(config(j)),
        "source_complete_marker must stay inside the source directory"
    );
    let mut j = job();
    j.excludes = vec!["*.tmp".to_owned(), String::new()];
    assert_eq!(
        message_of(config(j)),
        "exclude patterns must be non-empty single lines"
    );
}

#[test]
fn names_with_dots_are_no_parent_components() {
    let mut j = job();
    j.source = path("/tmp/..hidden/...");
    j.source_complete_marker = Some(path(".complete"));
    assert!(config(j).validate().is_ok());
}

#[test]
fn a_configuration_is_loaded_or_refused() {
    let p = path("/etc/hpc.toml");
    let error = load_config(&p, ConfigSource::Unreadable("denied".to_owned())).unwrap_err();
    assert_eq!(error.code, "config_unreadable");
    assert_eq!(error.message, "cannot read config /etc/hpc.toml: denied");
    let error = load_config(&p, ConfigSource::Malformed("bad".to_owned())).unwrap_err();
    assert_eq!(error.code, "config_invalid");
    assert_eq!(error.message, "invalid config /etc/hpc.toml: bad");
    assert!(!error.retryable);
    let loaded = load_config(&p, ConfigSource::Parsed(config(job()))).expect("load");
    assert_eq!(loaded.jobs.len(), 1);
}

#[test]
fn a_tilde_stands_for_the_home_directory() {
    let home = Some(path("/home/u"));
    let expanded = expand_home(&path("~/.config/x"), &home);
    assert_eq!(expanded.to_text().as_deref(), Some("/home/u/.config/x"));
    let kept = expand_home(&path("~x/y"), &home);
    assert_eq!(kept.to_text().as_deref(), Some("~x/y"));
    let unknown = expand_home(&path("~/x"), &None);
    assert_eq!(unknown.to_text().as_deref(), Some("~/x"));
    let odd = expand_home(
        &FilePath {
            bytes: vec![126, 47, 255],
        },
        &home,
    );
    assert_eq!(odd.to_text().as_deref(), Some("/home/u/\u{FFFD}"));
}

#[test]
fn exit_codes_have_their_classes() {
    let cases = [
        (0, "success", false),
        (24, "source_changed", true),
        (5, "transient_transport", true),
        (35, "transient_transport", true),
        (23, "partial_data", true),
        (25, "safety_rejection", false),
        (255, "transient_transport", true),
        (1, "failed", false),
        (-1, "failed", false),
    ];
    for (code, name, retryable) in cases {
        let class = classify_exit(code, "connection reset");
        assert_eq!(class.name, name);
        assert_eq!(class.retryable, retryable);
    }
    assert_eq!(
        classify_exit(255, "HOST KEY VERIFICATION FAILED.").name,
        "authentication"
    );
    assert!(is_authentication_error("no matching host key type found"));
    assert!(!is_authentication_error("host key"));
}

#[test]
fn a_child_is_awaited_killed_or_taken() {
    assert!(matches!(wait_step(Poll::Running, false), WaitStep::Sleep));
    assert!(matches!(wait_step(Poll::Running, true), WaitStep::Kill(30)));
    assert!(matches!(
        wait_step(Poll::Ended(Some(3)), true),
        WaitStep::Take(3)
    ));
    assert!(matches!(
        wait_step(Poll::Ended(None), false),
        WaitStep::Take(128)
    ));
}

#[test]
fn a_timeout_is_written_into_the_error_output_once() {
    let (out, rewrite) = collect_output(30, "a".to_owned(), "b".to_owned());
    assert!(rewrite);
    assert_eq!(out.stderr, "b\nhpc-sync timeout\n");
    assert_eq!(out.stdout, "a");
    let (out, rewrite) = collect_output(30, String::new(), out.stderr);
    assert!(!rewrite);
    assert_eq!(out.stderr, "b\nhpc-sync timeout\n");
    let (out, rewrite) = collect_output(0, String::new(), "c".to_owned());
    assert!(!rewrite);
    assert_eq!(out.stderr, "c");
}

#[test]
fn itemized_lines_are_counted() {
    assert_eq!(count_itemized_changes(""), 0);
    assert_eq!(
        count_itemized_changes(
            ">f+++++++++ a\r\ncd+++++++++ b/\n\nsent 10 bytes\n*deleting c\n.d..t...... ./\nhf x\n<f y"
        ),
        6
    );
}

#[test]
fn commands_that_do_not_run_are_named() {
    assert_eq!(program(&Vec::new()).unwrap_err().code, "command_empty");
    assert_eq!(
        program(&vec!["rsync".to_owned(), "-a".to_owned()]).expect("program"),
        "rsync"
    );
    let e = spawn_error("rsync", "gone");
    assert_eq!(e.code, "command_spawn_failed");
    assert_eq!(e.message, "cannot start rsync: gone");
    let e = wait_error("rsync", "gone");
    assert_eq!(e.code, "command_wait_failed");
    assert!(e.retryable);
    let e = read_error(&path("/x"), "gone");
    assert_eq!(e.code, "command_output_failed");
    assert_eq!(e.message, "cannot access command output /x: gone");
}

#[test]
fn fingerprints_frame_their_parts() {
    assert_eq!(
        stable_hash(&["ab", "c"]),
        "43ee655579de01ca739b3f95c1c2d3f46d353b2c0df818064ea594506cdb2617"
    );
    assert_ne!(stable_hash(&["", "a"]), stable_hash(&["a", ""]));
}

#[test]
fn times_are_written_in_utc() {
    let noon = Moment {
        seconds: 1_784_635_200,
        nanos: 0,
    };
    assert_eq!(moment_text(noon), "2026-07-21T12:00:00.000Z");
    assert_eq!(run_id_at(noon, 7), "20260721T120000Z-c15a783b");
    let epoch = Moment {
        seconds: 0,
        nanos: 999_999_999,
    };
    assert_eq!(moment_text(epoch), "1970-01-01T00:00:00.999Z");
    assert!(utc_now().ends_with('Z'));
    assert!(validate_run_id(&new_run_id(1)).is_ok());
}

#[test]
fn later_run_ids_are_greater() {
    let at = |seconds: i64, nanos: u32| run_id_at(Moment { seconds, nanos }, 7);
    let seconds = [
        0,
        59,
        60,
        86_399,
        86_400,
        951_782_399,
        951_782_400,
        1_784_635_199,
        1_784_635_200,
        253_402_300_799,
    ];
    for pair in seconds.windows(2) {
        let (early, late) = (at(pair[0], 999_999_999), at(pair[1], 0));
        assert!(early < late, "{early} {late}");
        assert!(early.as_bytes() < late.as_bytes());
    }
}

#[test]
fn a_late_moment_has_no_nanoseconds() {
    let late = Moment {
        seconds: 253_402_300_799,
        nanos: 0,
    };
    let suffix = &stable_hash(&["0:7"])[..8];
    assert_eq!(run_id_at(late, 7), format!("99991231T235959Z-{suffix}"));
}

#[test]
fn state_files_have_their_errors() {
    let p = path("/s/f");
    let e = state_error("state_write_failed", &p, "full");
    assert_eq!(e.code, "state_write_failed");
    assert_eq!(e.message, "cannot access /s/f: full");
    let e = lock_error(&p, "busy");
    assert_eq!(e.code, "job_locked");
    assert_eq!(e.message, "another operation holds /s/f: busy");
    assert_eq!(e.exit_code, 0);
    let e = serialize_error(&p, "bad");
    assert_eq!(e.code, "state_serialize_failed");
    let e = unreadable_error(&p, "gone");
    assert_eq!(e.code, "state_unreadable");
    assert_eq!(e.message, "cannot read state file /s/f: gone");
    let e = corrupt_error(&p, "bad");
    assert_eq!(e.code, "state_corrupt");
    assert_eq!(e.message, "invalid state file /s/f: bad");
}

#[test]
fn documents_are_written_aside_and_end_with_a_line() {
    assert_eq!(
        temporary_name(Some("plan.json"), 42, 7),
        ".plan.json.42.7.tmp"
    );
    assert_eq!(temporary_name(None, 1, 0), ".state.1.0.tmp");
    assert_eq!(finish_document(b"{}".to_vec()), b"{}\n".to_vec());
}

fn error() -> AppError {
    AppError::new("job_locked", "busy".to_owned(), true, "Wait.").with_exit_code(0)
}

#[test]
fn commands_are_dispatched() {
    assert!(matches!(
        dispatch(&Command::Check {
            job_id: "demo".to_owned()
        }),
        Preparation::LoadConfig
    ));
    assert!(matches!(
        dispatch(&Command::Describe),
        Preparation::Print(Document::Describe(_))
    ));
    for limit in [0, 101] {
        match dispatch(&Command::History {
            job_id: "demo".to_owned(),
            limit,
        }) {
            Preparation::Print(Document::Error(e)) => {
                assert_eq!(e.code, "limit_invalid");
                assert_eq!(e.message, "history limit must be between 1 and 100");
            }
            _ => panic!("expected a refusal"),
        }
    }
    assert!(matches!(
        dispatch(&Command::History {
            job_id: "demo".to_owned(),
            limit: default_limit()
        }),
        Preparation::LoadConfig
    ));
    assert_eq!(default_config(), "~/.config/hpc-sync/config.toml");
}

#[test]
fn an_error_is_printed_compactly_with_its_exit_code() {
    let report = run(Document::Error(error()), true);
    assert!(!report.pretty);
    assert_eq!(report.exit_code, 0);
    let record = error_record(&error().with_exit_code(2)).code.to_owned();
    assert_eq!(record, "job_locked");
    assert!(matches!(
        emit(&report, Printed::BodyFailed("pipe".to_owned())),
        AfterPrint::Exit(2)
    ));
}

#[test]
fn a_record_that_is_not_printed_becomes_an_error() {
    let report = run(Document::Describe(describe_record()), true);
    assert!(report.pretty);
    assert!(matches!(emit(&report, Printed::Done), AfterPrint::Exit(0)));
    match emit(&report, Printed::LineFailed("pipe".to_owned())) {
        AfterPrint::Print(next) => match next.document {
            Document::Error(e) => {
                assert_eq!(e.code, "output_failed");
                assert_eq!(e.suggested_fix, "Check stdout availability.");
            }
            _ => panic!("expected an error"),
        },
        AfterPrint::Exit(_) => panic!("expected a report"),
    }
}

#[test]
fn usage_errors_are_reported() {
    assert!(matches!(
        handle_clap_error(Parsed::Help),
        AfterPrint::Exit(0)
    ));
    match handle_clap_error(Parsed::Invalid("unexpected argument".to_owned())) {
        AfterPrint::Print(report) => {
            assert_eq!(report.exit_code, 2);
            match report.document {
                Document::Error(e) => {
                    assert_eq!(e.code, "cli_usage");
                    assert_eq!(e.message, "unexpected argument");
                }
                _ => panic!("expected an error"),
            }
        }
        AfterPrint::Exit(_) => panic!("expected a report"),
    }
}

#[test]
fn the_contract_is_described() {
    let record = describe_record();
    assert_eq!(
        record.commands,
        vec!["check", "plan", "run", "verify", "status", "history", "describe"]
    );
    assert!(record.safety_invariants.contains(&"no_delete"));
    let codes: Vec<(&str, i32)> = record.exit_codes.iter().map(|c| (c.name, c.code)).collect();
    assert_eq!(
        codes,
        vec![
            ("rsync_failed", 10),
            ("success", 0),
            ("usage_or_config", 2),
            ("verify_failed", 11)
        ]
    );
}
