use std::collections::BTreeMap;

use server_sync::hpc_sync::cli::{run, Document};
use server_sync::hpc_sync::config::{AppConfig, JobConfig, NamedJob, SshConfig};
use server_sync::hpc_sync::error::{AppError, AppResult};
use server_sync::hpc_sync::moment::Moment;
use server_sync::hpc_sync::operations::check_plan::{
    check_job, plan_job, plan_job_at, CheckState, PlanState,
};
use server_sync::hpc_sync::operations::common::{config_hash, latest_path, run_dir};
use server_sync::hpc_sync::operations::query::{
    history_job, status_job, HistoryState, StatusState,
};
use server_sync::hpc_sync::operations::run::{run_job, run_job_at, RunRequest, RunState};
use server_sync::hpc_sync::operations::step::{Action, Event, HostFacts, Step};
use server_sync::hpc_sync::operations::verify::{verify_job, VerifyRequest, VerifyState};
use server_sync::hpc_sync::process::CommandOutput;
use server_sync::hpc_sync::records::{
    CheckRecord, CompletionRecord, HistoryRecord, PlanRecord, RequestRecord, RunRecord, RunStatus,
    StatusRecord, VerifyRecord, VerifyStatus,
};
use server_sync::hpc_sync::rsync::validate_run_id;
use server_sync::hpc_sync::state::{lock_error, unreadable_error};
use server_sync::path::FilePath;

fn path(s: &str) -> FilePath {
    FilePath::from_text(s)
}

fn shown(p: &FilePath) -> String {
    p.to_text().expect("text")
}

fn config() -> AppConfig {
    AppConfig {
        version: 1,
        state_dir: path("/state"),
        jobs: vec![NamedJob {
            id: "demo".to_owned(),
            job: JobConfig {
                profile: "backup".to_owned(),
                source: path("/source"),
                destination_root: path("/backup"),
                ssh: SshConfig {
                    host: "backup.local".to_owned(),
                    user: "sync".to_owned(),
                    identity_file: path("/key"),
                    known_hosts_file: path("/hosts"),
                    port: 22,
                    connect_timeout_seconds: 15,
                },
                source_complete_marker: Some(path(".complete")),
                excludes: Vec::new(),
                preserve_hard_links: false,
                preserve_acls: false,
                preserve_xattrs: false,
                bootstrap_from_destination_root: false,
                verify_after_run: true,
                max_runtime_seconds: 60,
            },
        }],
    }
}

/// 2026-07-21T12:00:00.123456789Z.
fn noon() -> Moment {
    Moment {
        seconds: 1_784_635_200,
        nanos: 123_456_789,
    }
}

fn output(exit_code: i32, stdout: &str, stderr: &str) -> CommandOutput {
    CommandOutput {
        exit_code,
        stdout: stdout.to_owned(),
        stderr: stderr.to_owned(),
    }
}

/// A host that keeps its files in memory.
struct Host {
    facts: fn() -> HostFacts,
    payload: Result<String, String>,
    locked: bool,
    outputs: Vec<CommandOutput>,
    commands: Vec<Vec<String>>,
    timeouts: Vec<u64>,
    runs: BTreeMap<String, RunRecord>,
    plans: BTreeMap<String, PlanRecord>,
    requests: BTreeMap<String, RequestRecord>,
    completions: BTreeMap<String, CompletionRecord>,
    comparisons: BTreeMap<String, VerifyRecord>,
    order: Vec<&'static str>,
}

fn ready() -> HostFacts {
    HostFacts {
        has_rsync: true,
        has_ssh: true,
        source_is_dir: true,
        marker_is_file: true,
        identity_is_file: true,
        known_hosts_is_file: true,
        identity_mode: Ok(0o100600),
    }
}

impl Host {
    fn new(outputs: Vec<CommandOutput>) -> Host {
        Host {
            facts: ready,
            payload: Ok("{payload}".to_owned()),
            locked: false,
            outputs,
            commands: Vec::new(),
            timeouts: Vec::new(),
            runs: BTreeMap::new(),
            plans: BTreeMap::new(),
            requests: BTreeMap::new(),
            completions: BTreeMap::new(),
            comparisons: BTreeMap::new(),
            order: Vec::new(),
        }
    }

    fn missing(p: &FilePath) -> Event {
        Event::Failed(unreadable_error(p, "not found"))
    }

    fn answer(&mut self, action: Action) -> Event {
        match action {
            Action::Inspect(_) => Event::Facts((self.facts)()),
            Action::EnsureDir(_) => Event::Done,
            Action::FindFile(p) => Event::Found(self.runs.contains_key(&shown(&p))),
            Action::ListRuns(p) => {
                let root = shown(&p) + "/";
                let mut names = Vec::new();
                for key in self.runs.keys() {
                    if let Some(rest) = key.strip_prefix(&root) {
                        if let Some(name) = rest.strip_suffix("/result.json") {
                            names.push(path(name));
                        }
                    }
                }
                Event::Names(names)
            }
            Action::ReadRun(p) => match self.runs.get(&shown(&p)) {
                Some(r) => Event::Run(r.copy()),
                None => Host::missing(&p),
            },
            Action::ReadPlan(p) => match self.plans.get(&shown(&p)) {
                Some(r) => Event::Plan(r.copy()),
                None => Host::missing(&p),
            },
            Action::ReadRequest(p) => match self.requests.get(&shown(&p)) {
                Some(r) => Event::Request(r.copy()),
                None => Host::missing(&p),
            },
            Action::SerializeJob => Event::Serialized(self.payload.clone()),
            Action::Lock(p) => {
                if self.locked {
                    Event::Failed(lock_error(&p, "would block"))
                } else {
                    self.order.push("lock");
                    Event::Done
                }
            }
            Action::Execute(e) => {
                self.order.push("execute");
                self.commands.push(e.command);
                self.timeouts.push(e.timeout_seconds);
                Event::Output(self.outputs.remove(0))
            }
            Action::WriteRequest(p, r) => {
                self.requests.insert(shown(&p), r);
                Event::Done
            }
            Action::WritePlan(p, r) => {
                self.plans.insert(shown(&p), r);
                Event::Done
            }
            Action::WriteRun(p, r) => {
                self.order.push("result");
                self.runs.insert(shown(&p), r);
                Event::Done
            }
            Action::WriteVerify(p, r) => {
                self.comparisons.insert(shown(&p), r);
                Event::Done
            }
            Action::WriteCompletion(p, r) => {
                self.order.push("completion");
                self.completions.insert(shown(&p), r);
                Event::Done
            }
        }
    }
}

fn check(host: &mut Host, config: &AppConfig, job_id: &str) -> AppResult<CheckRecord> {
    let mut state = CheckState::Start;
    let mut event = Event::Begin;
    loop {
        match check_job(config, job_id, state, event) {
            Step::Continue(next, action) => {
                state = next;
                event = host.answer(action);
            }
            Step::Finish(r) => return r,
        }
    }
}

fn plan_at(host: &mut Host, config: &AppConfig, now: Moment) -> AppResult<PlanRecord> {
    let mut state = PlanState::Start;
    let mut event = Event::Begin;
    loop {
        match plan_job_at(config, "demo", 4321, state, event, now) {
            Step::Continue(next, action) => {
                state = next;
                event = host.answer(action);
            }
            Step::Finish(r) => return r,
        }
    }
}

fn run_at(host: &mut Host, config: &AppConfig, id: &str, approval: &str) -> AppResult<RunRecord> {
    let mut state = RunState::Start;
    let mut event = Event::Begin;
    loop {
        let input = RunRequest {
            config,
            job_id: "demo",
            plan_run_id: id,
            approval,
        };
        match run_job_at(input, state, event, noon()) {
            Step::Continue(next, action) => {
                state = next;
                event = host.answer(action);
            }
            Step::Finish(r) => return r,
        }
    }
}

fn verify(
    host: &mut Host,
    config: &AppConfig,
    run_id: &str,
    checksum: bool,
) -> AppResult<VerifyRecord> {
    let mut state = VerifyState::Start;
    let mut event = Event::Begin;
    loop {
        let input = VerifyRequest {
            config,
            job_id: "demo",
            run_id,
            checksum,
        };
        match verify_job(input, state, event) {
            Step::Continue(next, action) => {
                state = next;
                event = host.answer(action);
            }
            Step::Finish(r) => return r,
        }
    }
}

fn status(host: &mut Host, config: &AppConfig, job_id: &str) -> AppResult<StatusRecord> {
    let mut state = StatusState::Start;
    let mut event = Event::Begin;
    loop {
        match status_job(config, job_id, state, event) {
            Step::Continue(next, action) => {
                state = next;
                event = host.answer(action);
            }
            Step::Finish(r) => return r,
        }
    }
}

fn history(host: &mut Host, config: &AppConfig, limit: usize) -> AppResult<HistoryRecord> {
    let mut state = HistoryState::Start;
    let mut event = Event::Begin;
    loop {
        match history_job(config, "demo", limit, state, event) {
            Step::Continue(next, action) => {
                state = next;
                event = host.answer(action);
            }
            Step::Finish(r) => return r,
        }
    }
}

const RUN_ID: &str = "20260721T120000Z-adade633";
const CONFIG_HASH: &str = "cca2a60014fb62da22a49f7824bb0392a90194829488b139dcfbf92a2e3d68f5";
const PLAN_HASH: &str = "b72e4f09fde1cd1f5a55f0ae305609750ea53619d24fcfa48d24819b122c2348";

/// A host on which the job was planned, with the outputs of what follows.
fn planned(mut then: Vec<CommandOutput>) -> Host {
    let mut outputs = vec![output(0, ">f+++++++++ data.txt\n", "")];
    outputs.append(&mut then);
    let mut host = Host::new(outputs);
    plan_at(&mut host, &config(), noon()).expect("plan");
    host
}

fn error_of<T>(r: AppResult<T>) -> AppError {
    match r {
        Ok(_) => panic!("expected an error"),
        Err(e) => e,
    }
}

#[test]
fn a_ready_host_passes_the_check() {
    let record = check(&mut Host::new(Vec::new()), &config(), "demo").expect("check");
    assert_eq!(record.status, "ready");
    assert_eq!(
        record.checks,
        vec![
            "rsync_available",
            "ssh_available",
            "source_directory",
            "source_complete_marker"
        ]
    );
    assert_eq!(record.next_actions, vec!["hpc-sync plan demo --json"]);
}

#[test]
fn an_unknown_job_is_refused_everywhere() {
    let error = error_of(check(&mut Host::new(Vec::new()), &config(), "other"));
    assert_eq!(error.code, "job_not_found");
    assert_eq!(error.message, "job \"other\" is not defined");
    let error = error_of(status(&mut Host::new(Vec::new()), &config(), "other"));
    assert_eq!(error.code, "job_not_found");
}

#[test]
fn what_is_missing_on_the_host_is_named() {
    let cases: [(fn() -> HostFacts, &str, &str, bool); 8] = [
        (
            || HostFacts {
                has_rsync: false,
                ..ready()
            },
            "binary_missing",
            "rsync is not available on PATH",
            false,
        ),
        (
            || HostFacts {
                has_ssh: false,
                ..ready()
            },
            "binary_missing",
            "ssh is not available on PATH",
            false,
        ),
        (
            || HostFacts {
                source_is_dir: false,
                ..ready()
            },
            "source_missing",
            "source directory does not exist: /source",
            false,
        ),
        (
            || HostFacts {
                marker_is_file: false,
                ..ready()
            },
            "source_incomplete",
            "required source marker is missing: /source/.complete",
            true,
        ),
        (
            || HostFacts {
                identity_is_file: false,
                ..ready()
            },
            "ssh_file_missing",
            "required SSH file is missing: /key",
            false,
        ),
        (
            || HostFacts {
                known_hosts_is_file: false,
                ..ready()
            },
            "ssh_file_missing",
            "required SSH file is missing: /hosts",
            false,
        ),
        (
            || HostFacts {
                identity_mode: Err("gone".to_owned()),
                ..ready()
            },
            "ssh_file_unreadable",
            "gone",
            false,
        ),
        (
            || HostFacts {
                identity_mode: Ok(0o100640),
                ..ready()
            },
            "identity_permissions",
            "SSH identity is accessible by group or others: /key",
            false,
        ),
    ];
    for (facts, code, message, retryable) in cases {
        let mut host = Host::new(Vec::new());
        host.facts = facts;
        let error = error_of(check(&mut host, &config(), "demo"));
        assert_eq!(error.code, code);
        assert_eq!(error.message, message);
        assert_eq!(error.retryable, retryable);
        assert_eq!(error.exit_code, 2);
    }
}

#[test]
fn an_identity_has_the_bits_of_a_private_file() {
    let own = "SSH identity must have mode 0600: /key";
    let others = "SSH identity is accessible by group or others: /key";
    let modes: [(fn() -> HostFacts, &str); 7] = [
        (
            || HostFacts {
                identity_mode: Ok(0o100400),
                ..ready()
            },
            own,
        ),
        (
            || HostFacts {
                identity_mode: Ok(0o100700),
                ..ready()
            },
            own,
        ),
        (
            || HostFacts {
                identity_mode: Ok(0o100000),
                ..ready()
            },
            own,
        ),
        (
            || HostFacts {
                identity_mode: Ok(0o100200),
                ..ready()
            },
            own,
        ),
        (
            || HostFacts {
                identity_mode: Ok(0o100604),
                ..ready()
            },
            others,
        ),
        (
            || HostFacts {
                identity_mode: Ok(0o100660),
                ..ready()
            },
            others,
        ),
        (
            || HostFacts {
                identity_mode: Ok(0o100440),
                ..ready()
            },
            others,
        ),
    ];
    for (facts, message) in modes {
        let mut host = Host::new(Vec::new());
        host.facts = facts;
        let error = error_of(check(&mut host, &config(), "demo"));
        assert_eq!(error.code, "identity_permissions");
        assert_eq!(error.message, message);
        assert_eq!(error.suggested_fix, "Run chmod 600 /key");
    }
    let mut host = Host::new(Vec::new());
    host.facts = || HostFacts {
        identity_mode: Ok(0o600),
        ..ready()
    };
    assert!(check(&mut host, &config(), "demo").is_ok());
}

#[test]
fn a_run_is_compared_whatever_the_job_says() {
    let mut config = config();
    config.jobs[0].job.verify_after_run = false;
    let mut host = planned(vec![output(0, "", ""), output(0, "", ""), output(0, "", "")]);
    let result = run_at(&mut host, &config, RUN_ID, PLAN_HASH).expect("run");
    assert_eq!(result.status, RunStatus::Success);
    assert_eq!(result.verify_exit_code, Some(0));
    assert_eq!(result.verify_item_count, Some(0));
    assert_eq!(host.commands.len(), 4);
    assert!(host.commands[2].contains(&"--omit-dir-times".to_owned()));
    let mut host = planned(vec![
        output(0, "", ""),
        output(0, ">f+++++++++ data.txt\n", ""),
    ]);
    let result = run_at(&mut host, &config, RUN_ID, PLAN_HASH).expect("run");
    assert_eq!(result.status, RunStatus::VerificationFailed);
    assert_eq!(result.verify_item_count, Some(1));
    assert!(result.completed_marker.is_none());
    assert!(host.completions.is_empty());
}

#[test]
fn a_plan_is_a_recorded_dry_run() {
    let mut host = Host::new(vec![output(0, ">f+++++++++ data.txt\n", "")]);
    let plan = plan_at(&mut host, &config(), noon()).expect("plan");
    assert_eq!(plan.run_id, RUN_ID);
    assert_eq!(plan.config_hash, CONFIG_HASH);
    assert_eq!(plan.plan_hash, PLAN_HASH);
    assert_eq!(plan.status, "planned");
    assert_eq!(plan.previous_run_id, None);
    assert_eq!(plan.item_count, 1);
    assert_eq!(plan.started_at, "2026-07-21T12:00:00.123Z");
    assert_eq!(
        plan.snapshot_path,
        "/backup/snapshots/20260721T120000Z-adade633/"
    );
    assert_eq!(
        shown(&plan.items_path),
        "/state/runs/demo/20260721T120000Z-adade633/items.txt"
    );
    assert_eq!(
        plan.next_actions,
        vec![format!(
            "hpc-sync run demo --plan-run-id {RUN_ID} --approval {PLAN_HASH} --json"
        )]
    );
    assert!(plan.command.contains(&"--dry-run".to_owned()));
    assert_eq!(host.commands, vec![plan.command]);
    assert_eq!(host.timeouts, vec![60]);
    let stored = "/state/runs/demo/20260721T120000Z-adade633/";
    assert!(host.plans.contains_key(&format!("{stored}plan.json")));
    let request = &host.requests[&format!("{stored}request.json")];
    assert_eq!(request.config_hash, CONFIG_HASH);
    assert_eq!(request.created_at, "2026-07-21T12:00:00.123Z");
}

#[test]
fn a_plan_for_the_current_time_has_a_valid_run_id() {
    let mut host = Host::new(vec![output(0, "", "")]);
    let config = config();
    let mut state = PlanState::Start;
    let mut event = Event::Begin;
    let plan = loop {
        match plan_job(&config, "demo", 1, state, event) {
            Step::Continue(next, action) => {
                state = next;
                event = host.answer(action);
            }
            Step::Finish(r) => break r.expect("plan"),
        }
    };
    assert!(validate_run_id(&plan.run_id).is_ok());
    assert_eq!(plan.item_count, 0);
}

#[test]
fn a_failed_dry_run_is_no_plan() {
    let mut host = Host::new(vec![output(255, "", "Permission denied (publickey).")]);
    let error = error_of(plan_at(&mut host, &config(), noon()));
    assert_eq!(error.code, "rsync_plan_failed");
    assert_eq!(
        error.message,
        "rsync plan failed with exit code 255 (authentication)"
    );
    assert!(!error.retryable);
    assert_eq!(error.exit_code, 10);
    assert_eq!(
        error.suggested_fix,
        "Inspect /state/runs/demo/20260721T120000Z-adade633/plan.stderr before retrying."
    );
    assert!(host.plans.is_empty());
}

#[test]
fn an_approved_plan_is_run_to_completion() {
    let mut host = planned(vec![output(0, "", ""), output(0, "", ""), output(0, "", "")]);
    let result = run_at(&mut host, &config(), RUN_ID, PLAN_HASH).expect("run");
    assert!(matches!(result.status, RunStatus::Success));
    assert_eq!(result.classification, "success");
    assert_eq!(result.rsync_exit_code, 0);
    assert_eq!(result.verify_exit_code, Some(0));
    assert_eq!(result.verify_item_count, Some(0));
    assert_eq!(result.marker_exit_code, Some(0));
    let root = "/state/runs/demo/20260721T120000Z-adade633";
    assert_eq!(
        result.completed_marker.as_ref().map(shown),
        Some(format!("{root}/COMPLETED"))
    );
    assert!(host
        .completions
        .contains_key(&format!("{root}/remote-complete.json")));
    assert!(host.completions.contains_key(&format!("{root}/COMPLETED")));
    assert!(host.runs.contains_key(&format!("{root}/result.json")));
    assert!(host.runs.contains_key("/state/latest/demo.json"));
    assert!(!host.commands[1].contains(&"--dry-run".to_owned()));
    assert!(host.commands[2].contains(&"--dry-run".to_owned()));
    assert_eq!(
        host.order,
        vec![
            "lock",
            "execute",
            "lock",
            "execute",
            "execute",
            "completion",
            "execute",
            "completion",
            "result",
            "result"
        ]
    );
}

#[test]
fn a_successful_run_is_not_repeated() {
    let mut host = planned(vec![output(0, "", ""), output(0, "", ""), output(0, "", "")]);
    let first = run_at(&mut host, &config(), RUN_ID, PLAN_HASH).expect("run");
    let count = host.commands.len();
    let again = run_at(&mut host, &config(), RUN_ID, "no approval").expect("run");
    assert_eq!(host.commands.len(), count);
    assert_eq!(again.run_id, first.run_id);
    assert!(matches!(again.status, RunStatus::Success));
}

#[test]
fn a_run_needs_its_approval() {
    let mut host = planned(Vec::new());
    let error = error_of(run_at(&mut host, &config(), RUN_ID, "wrong"));
    assert_eq!(error.code, "approval_mismatch");
    assert_eq!(host.commands.len(), 1);
}

#[test]
fn a_run_needs_the_configuration_of_its_plan() {
    let mut host = planned(Vec::new());
    host.payload = Ok("{changed}".to_owned());
    let error = error_of(run_at(&mut host, &config(), RUN_ID, PLAN_HASH));
    assert_eq!(error.code, "config_changed");
    assert_eq!(error.message, "job configuration changed after planning");
    assert_eq!(host.commands.len(), 1);
}

#[test]
fn a_run_needs_a_plan_of_its_job() {
    let mut host = planned(Vec::new());
    for plan in host.plans.values_mut() {
        plan.job_id = "other".to_owned();
    }
    let error = error_of(run_at(&mut host, &config(), RUN_ID, PLAN_HASH));
    assert_eq!(error.code, "plan_job_mismatch");
}

#[test]
fn a_run_without_a_plan_cannot_start() {
    let error = error_of(run_at(
        &mut Host::new(Vec::new()),
        &config(),
        RUN_ID,
        PLAN_HASH,
    ));
    assert_eq!(error.code, "state_unreadable");
}

#[test]
fn a_locked_job_is_left_alone() {
    let mut host = planned(Vec::new());
    host.locked = true;
    let error = error_of(run_at(&mut host, &config(), RUN_ID, PLAN_HASH));
    assert_eq!(error.code, "job_locked");
    assert!(error.retryable);
    assert_eq!(error.exit_code, 0);
    assert_eq!(host.commands.len(), 1);
}

#[test]
fn a_failed_transfer_is_recorded() {
    let mut host = planned(vec![output(24, "", "file has vanished")]);
    let result = run_at(&mut host, &config(), RUN_ID, PLAN_HASH).expect("run");
    assert!(matches!(result.status, RunStatus::Failed));
    assert_eq!(result.classification, "source_changed");
    assert!(result.retryable);
    assert_eq!(result.verify_exit_code, None);
    assert!(result.completed_marker.is_none());
    assert_eq!(
        result.next_actions,
        vec!["Inspect /state/runs/demo/20260721T120000Z-adade633/rsync.stderr"]
    );
    assert!(host.completions.is_empty());
    assert_eq!(host.commands.len(), 2);
}

#[test]
fn a_comparison_that_differs_fails_the_run() {
    let mut host = planned(vec![
        output(0, "", ""),
        output(0, ">f.st...... data.txt\n", ""),
    ]);
    let result = run_at(&mut host, &config(), RUN_ID, PLAN_HASH).expect("run");
    assert!(matches!(result.status, RunStatus::VerificationFailed));
    assert_eq!(result.classification, "verification_mismatch");
    assert!(result.retryable);
    assert_eq!(result.verify_item_count, Some(1));
    assert!(host.completions.is_empty());
}

#[test]
fn a_marker_that_is_not_uploaded_fails_the_run() {
    let mut host = planned(vec![output(0, "", ""), output(0, "", ""), output(12, "", "")]);
    let result = run_at(&mut host, &config(), RUN_ID, PLAN_HASH).expect("run");
    assert!(matches!(result.status, RunStatus::Failed));
    assert_eq!(result.classification, "transient_transport");
    assert_eq!(result.marker_exit_code, Some(12));
    assert!(result.completed_marker.is_none());
    let root = "/state/runs/demo/20260721T120000Z-adade633";
    assert!(!host.completions.contains_key(&format!("{root}/COMPLETED")));
}

#[test]
fn a_run_for_the_current_time_starts_with_its_result() {
    let input = RunRequest {
        config: &config(),
        job_id: "demo",
        plan_run_id: RUN_ID,
        approval: PLAN_HASH,
    };
    match run_job(input, RunState::Start, Event::Begin) {
        Step::Continue(RunState::FindResult, Action::FindFile(p)) => {
            assert_eq!(
                shown(&p),
                "/state/runs/demo/20260721T120000Z-adade633/result.json"
            );
        }
        other => panic!("{other:?}"),
    }
}

#[test]
fn the_newest_success_is_the_baseline() {
    let mut host = planned(vec![output(0, "", ""), output(0, "", ""), output(0, "", "")]);
    let mut first = run_at(&mut host, &config(), RUN_ID, PLAN_HASH).expect("run");
    first.run_id = "20260719T120000Z-00000001".to_owned();
    let older = "/state/runs/demo/20260719T120000Z-00000001/result.json";
    host.runs.insert(older.to_owned(), first.copy());
    first.run_id = "20260722T120000Z-00000002".to_owned();
    first.status = RunStatus::Failed;
    let failed = "/state/runs/demo/20260722T120000Z-00000002/result.json";
    host.runs.insert(failed.to_owned(), first);
    host.outputs = vec![output(0, "", "")];
    let later = Moment {
        seconds: 1_784_900_000,
        nanos: 0,
    };
    let plan = plan_at(&mut host, &config(), later).expect("plan");
    assert_eq!(plan.previous_run_id, Some(RUN_ID.to_owned()));
    assert!(plan
        .command
        .contains(&format!("--link-dest=/backup/snapshots/{RUN_ID}")));
}

#[test]
fn comparisons_tell_what_they_found() {
    let mut host = planned(vec![
        output(0, "", ""),
        output(0, ">f.st...... data.txt\n", ""),
        output(255, "", "Connection reset"),
    ]);
    let config = config();
    let same = verify(&mut host, &config, RUN_ID, true).expect("verify");
    assert!(matches!(same.status, VerifyStatus::Verified));
    assert_eq!(
        same.next_actions,
        vec!["Recovery point matches the current source scope."]
    );
    assert!(host.commands[1].contains(&"--checksum".to_owned()));
    assert!(host.comparisons.contains_key(
        "/state/runs/demo/20260721T120000Z-adade633/verify-checksum.json"
    ));
    let other = verify(&mut host, &config, RUN_ID, false).expect("verify");
    assert!(matches!(other.status, VerifyStatus::Mismatch));
    assert_eq!(other.classification, "verification_mismatch");
    assert_eq!(
        shown(&other.output_path),
        "/state/runs/demo/20260721T120000Z-adade633/verify-quick.stdout"
    );
    let failed = verify(&mut host, &config, RUN_ID, false).expect("verify");
    assert!(matches!(failed.status, VerifyStatus::Failed));
    assert_eq!(failed.classification, "transient_transport");
    assert!(failed.retryable);
}

#[test]
fn a_comparison_needs_the_configuration_of_its_plan() {
    let mut host = planned(Vec::new());
    host.payload = Ok("{changed}".to_owned());
    let error = error_of(verify(&mut host, &config(), RUN_ID, false));
    assert_eq!(error.code, "config_changed");
    assert_eq!(
        error.message,
        "current configuration differs from the recovery point"
    );
}

#[test]
fn the_status_is_the_latest_result() {
    let mut host = planned(vec![output(23, "", "")]);
    let config = config();
    let before = status(&mut host, &config, "demo").expect("status");
    assert_eq!(before.status, "never_run");
    assert!(before.latest.is_none());
    run_at(&mut host, &config, RUN_ID, PLAN_HASH).expect("run");
    let after = status(&mut host, &config, "demo").expect("status");
    assert_eq!(after.status, "available");
    assert_eq!(
        after.latest.map(|r| r.classification),
        Some("partial_data".to_owned())
    );
}

#[test]
fn the_history_is_bounded_and_newest_first() {
    let mut host = planned(vec![output(24, "", "")]);
    let config = config();
    let mut record = run_at(&mut host, &config, RUN_ID, PLAN_HASH).expect("run");
    for id in ["20260719T120000Z-00000001", "20260722T120000Z-00000002"] {
        record.run_id = id.to_owned();
        host.runs
            .insert(format!("/state/runs/demo/{id}/result.json"), record.copy());
    }
    let two = history(&mut host, &config, 2).expect("history");
    assert_eq!(two.count, 2);
    let ids: Vec<String> = two.runs.into_iter().map(|r| r.run_id).collect();
    assert_eq!(
        ids,
        vec!["20260722T120000Z-00000002".to_owned(), RUN_ID.to_owned()]
    );
    assert_eq!(history(&mut host, &config, 100).expect("history").count, 3);
}

#[test]
fn runs_that_cannot_be_listed_are_an_error() {
    let config = config();
    match history_job(
        &config,
        "demo",
        10,
        HistoryState::List,
        Event::ListFailed("no access".to_owned()),
    ) {
        Step::Finish(Err(e)) => {
            assert_eq!(e.code, "state_unreadable");
            assert_eq!(e.message, "no access");
        }
        other => panic!("{other:?}"),
    }
}

#[test]
fn a_job_that_cannot_be_put_into_words_has_no_fingerprint() {
    let error = error_of(config_hash(
        &config(),
        "demo",
        &Err("key must be a string".to_owned()),
    ));
    assert_eq!(error.code, "config_serialize_failed");
    assert_eq!(
        error.message,
        "cannot fingerprint job demo: key must be a string"
    );
    assert_eq!(
        config_hash(&config(), "demo", &Ok("{payload}".to_owned())).expect("hash"),
        CONFIG_HASH
    );
}

#[test]
fn files_have_their_places() {
    let config = config();
    assert_eq!(shown(&run_dir(&config, "demo", "r1")), "/state/runs/demo/r1");
    assert_eq!(
        shown(&latest_path(&config, "demo")),
        "/state/latest/demo.json"
    );
}

#[test]
fn exit_codes_tell_how_an_operation_ended() {
    let mut host = planned(vec![
        output(24, "", ""),
        output(0, "", ""),
        output(0, "", ""),
        output(0, "", ""),
        output(0, ">f.st...... data.txt\n", ""),
    ]);
    let config = config();
    let failed = run_at(&mut host, &config, RUN_ID, PLAN_HASH).expect("run");
    assert_eq!(run(Document::Run(failed), false).exit_code, 10);
    let succeeded = run_at(&mut host, &config, RUN_ID, PLAN_HASH).expect("run");
    assert_eq!(run(Document::Run(succeeded), true).exit_code, 0);
    let mismatch = verify(&mut host, &config, RUN_ID, false).expect("verify");
    assert_eq!(run(Document::Verify(mismatch), false).exit_code, 11);
}

#[test]
fn the_transfer_is_the_plan_without_the_dry_run() {
    let mut host = planned(vec![output(24, "", "")]);
    run_at(&mut host, &config(), RUN_ID, PLAN_HASH).expect("run");
    let plan: Vec<&String> = host.commands[0]
        .iter()
        .filter(|a| *a != "--dry-run" && *a != "--info=stats2")
        .collect();
    let transfer: Vec<&String> = host.commands[1].iter().collect();
    assert_eq!(plan, transfer);
}
