use server_sync::hpc_sync::config::{AppConfig, JobConfig, NamedJob, SshConfig};
use server_sync::hpc_sync::process::stable_hash;
use server_sync::hpc_sync::rsync::{
    build_marker, build_transfer, build_verify, shell_quote, snapshot_path, TransferRequest,
};
use server_sync::path::FilePath;

fn path(s: &str) -> FilePath {
    FilePath::from_text(s)
}

fn job() -> JobConfig {
    JobConfig {
        profile: "backup".to_owned(),
        source: path("/source"),
        destination_root: path("/backup"),
        ssh: SshConfig {
            host: "backup.local".to_owned(),
            user: "sync".to_owned(),
            identity_file: path("/key"),
            known_hosts_file: path("/hosts"),
            port: 22,
            connect_timeout_seconds: 15,
        },
        source_complete_marker: None,
        excludes: Vec::new(),
        preserve_hard_links: false,
        preserve_acls: false,
        preserve_xattrs: false,
        bootstrap_from_destination_root: true,
        verify_after_run: true,
        max_runtime_seconds: 60,
    }
}

#[test]
fn transfer_is_no_delete_and_rrsync_compatible() {
    let job = job();
    let command = build_transfer(TransferRequest {
        job: &job,
        run_id: "20260721T120000Z-abcd1234",
        previous_run_id: Some("20260720T120000Z-1234abcd"),
        dry_run: false,
    })
    .expect("build command");
    assert!(
        command.contains(&"--link-dest=/backup/snapshots/20260720T120000Z-1234abcd".to_owned())
    );
    assert!(!command.iter().any(|argument| argument.contains("--delete")));
    assert!(!command.iter().any(|argument| argument.contains("--inplace")));
    assert!(!command
        .iter()
        .any(|argument| argument == "--protect-args" || argument == "-s"));
    assert!(!command.iter().any(|argument| argument == "--mkpath"));
    assert!(command
        .iter()
        .any(|argument| argument.contains("KnownHostsCommand=none")));
    assert!(command
        .iter()
        .any(|argument| argument.contains("ProxyCommand=none")));
    assert!(!command.iter().any(|argument| argument.contains("..")));
}

#[test]
fn first_snapshot_uses_configured_destination_root_as_baseline() {
    let command = build_transfer(TransferRequest {
        job: &job(),
        run_id: "20260721T120000Z-abcd1234",
        previous_run_id: None,
        dry_run: true,
    })
    .expect("build bootstrap command");
    assert!(command.contains(&"--link-dest=/backup".to_owned()));
}

#[test]
fn verify_ignores_directory_timestamps() {
    let command = build_verify(&job(), "20260721T120000Z-abcd1234", true)
        .expect("build verification command");
    assert!(command.contains(&"--omit-dir-times".to_owned()));
}

#[test]
fn stable_hash_is_unambiguous_sha256() {
    let digest = stable_hash(&["ab", "c"]);
    assert_eq!(digest.len(), 64);
    assert_ne!(digest, stable_hash(&["a", "bc"]));
}

#[test]
fn stable_hash_of_nothing_is_the_digest_of_nothing() {
    assert_eq!(
        stable_hash(&[]),
        "e3b0c44298fc1c149afbf4c8996fb92427ae41e4649b934ca495991b7852b855"
    );
}

#[test]
fn config_rejects_parent_components_in_roots() {
    let parsed = AppConfig {
        version: 1,
        state_dir: path("/tmp/state/../escape"),
        jobs: vec![NamedJob {
            id: "demo".to_owned(),
            job: JobConfig {
                source: path("/tmp/source"),
                destination_root: path("/backup"),
                ssh: SshConfig {
                    host: "backup.local".to_owned(),
                    user: "sync".to_owned(),
                    identity_file: path("/tmp/key"),
                    known_hosts_file: path("/tmp/hosts"),
                    port: 22,
                    connect_timeout_seconds: 15,
                },
                bootstrap_from_destination_root: false,
                max_runtime_seconds: 21_600,
                ..job()
            },
        }],
    };
    assert!(parsed.validate().is_err());
}

#[test]
fn the_whole_transfer_command() {
    let mut wanted = job();
    wanted.excludes = vec!["*.tmp".to_owned()];
    wanted.preserve_acls = true;
    wanted.bootstrap_from_destination_root = false;
    wanted.source = path("/source//");
    let command = build_transfer(TransferRequest {
        job: &wanted,
        run_id: "20260721T120000Z-abcd1234",
        previous_run_id: None,
        dry_run: true,
    })
    .expect("build command");
    assert_eq!(
        command,
        vec![
            "rsync",
            "--archive",
            "--no-owner",
            "--no-group",
            "--no-devices",
            "--no-specials",
            "--partial-dir=.rsync-partial",
            "--delay-updates",
            "--itemize-changes",
            "--acls",
            "--exclude=*.tmp",
            "--dry-run",
            "--info=stats2",
            "-e",
            "ssh -p 22 -i /key -o BatchMode=yes -o StrictHostKeyChecking=yes -o \
             UserKnownHostsFile=/hosts -o KnownHostsCommand=none -o ProxyCommand=none -o \
             IdentitiesOnly=yes -o PasswordAuthentication=no -o \
             KbdInteractiveAuthentication=no -o ConnectTimeout=15 -o ServerAliveInterval=30 -o \
             ServerAliveCountMax=3",
            "/source/",
            "sync@backup.local:/backup/snapshots/20260721T120000Z-abcd1234/",
        ]
    );
}

#[test]
fn the_whole_marker_command() {
    let command = build_marker(&job(), "20260721T120000Z-abcd1234", &path("/run/done.json"))
        .expect("build command");
    assert_eq!(command.len(), 8);
    assert_eq!(command[6], "/run/done.json");
    assert_eq!(
        command[7],
        "sync@backup.local:/backup/snapshots/20260721T120000Z-abcd1234/.hpc-sync-complete.json"
    );
}

#[test]
fn quoting_keeps_plain_words_and_wraps_others() {
    assert_eq!(shell_quote("/plain_word-1.2=3:4"), "/plain_word-1.2=3:4");
    assert_eq!(shell_quote("two words"), "'two words'");
    assert_eq!(shell_quote("it's"), "'it'\"'\"'s'");
}

#[test]
fn a_bad_run_id_has_no_snapshot() {
    let error = snapshot_path(&job(), "20260721T120000Z-ABCD1234").unwrap_err();
    assert_eq!(error.code, "run_id_invalid");
    assert_eq!(
        error.message,
        "invalid run id \"20260721T120000Z-ABCD1234\""
    );
    assert_eq!(error.exit_code, 2);
}

#[test]
fn a_path_that_is_no_text_has_no_command() {
    let mut odd = job();
    odd.source = FilePath {
        bytes: vec![47, 255],
    };
    let error = build_verify(&odd, "20260721T120000Z-abcd1234", false).unwrap_err();
    assert_eq!(error.code, "path_invalid");
    assert_eq!(error.message, "path is not valid UTF-8: /\u{FFFD}");
}
