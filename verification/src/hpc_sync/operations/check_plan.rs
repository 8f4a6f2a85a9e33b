//! Checking the host for a job, and planning a run.
use super::super::config;
use super::super::config::{AppConfig, JobConfig};
use super::super::error;
use super::super::error::{AppError, AppResult};
use super::super::exit_class;
use super::super::exit_class::ExitClass;
use super::super::moment;
use super::super::moment::Moment;
use super::super::process;
use super::super::process::{CommandOutput, Execution};
use super::super::records;
use super::super::records::{CheckRecord, PlanRecord, RequestRecord, RunRecord, RunStatus};
use super::super::rsync;
use super::super::rsync::TransferRequest;
use super::super::state;
use super::common;
use super::step;
use super::step::{Action, Event, HostFacts, Inspection, Step};
use crate::path::FilePath;
use crate::{number, path, text};
use vstd::prelude::*;

verus! {

// ---------------------------------------------------------------------------
// Checking
// ---------------------------------------------------------------------------
/// Tells whether a file with these permission bits can be executed.
pub fn is_executable(is_file: bool, mode: u32) -> (r: bool)
    ensures
        r == (is_file && mode & 0o111 != 0),
{
    is_file && mode & 0o111 != 0
}

/// The error for a program that is not there.
pub open spec fn missing_binary(name: Seq<char>) -> error::ErrorView {
    error::plain_error(
        "binary_missing"@,
        name + " is not available on PATH"@,
        false,
        "Install rsync and OpenSSH or load their HPC modules."@,
    )
}

/// The error for a file that the remote shell needs and that is not there.
pub open spec fn missing_ssh_file(p: Seq<u8>) -> error::ErrorView {
    error::plain_error(
        "ssh_file_missing"@,
        "required SSH file is missing: "@ + path::lossy(p),
        false,
        "Provision the dedicated key and pinned known_hosts file."@,
    )
}

/// Where the completion marker of a job's source lies.
pub open spec fn marker_place(job: config::JobView) -> Option<Seq<u8>> {
    match job.source_complete_marker {
        Some(m) => Some(path::joined_path(job.source, m)),
        None => None,
    }
}

/// What is said of an identity whose permission bits are not those of a private file.
pub open spec fn identity_message(job: config::JobView, bits: u32) -> Seq<char> {
    (if bits & 0o077 != 0 {
        "SSH identity is accessible by group or others: "@
    } else {
        "SSH identity must have mode 0600: "@
    }) + path::lossy(job.ssh.identity_file)
}

/// Why the identity of a job cannot be used: its permission bits have to be those of a private
/// file, no more and no fewer.
pub open spec fn identity_fault(job: config::JobView, mode: Result<u32, Seq<char>>) -> Option<
    error::ErrorView,
> {
    match mode {
        Err(cause) => Some(
            error::plain_error("ssh_file_unreadable"@, cause, false, "Check key permissions."@),
        ),
        Ok(bits) => if bits & 0o777 != state::PRIVATE_FILE {
            Some(
                error::plain_error(
                    "identity_permissions"@,
                    identity_message(job, bits),
                    false,
                    "Run chmod 600 "@ + path::lossy(job.ssh.identity_file),
                ),
            )
        } else {
            None
        },
    }
}

/// Why the host is not ready for a job: the first thing that is missing.
pub open spec fn check_fault(job: config::JobView, facts: step::FactsView) -> Option<
    error::ErrorView,
> {
    if !facts.has_rsync {
        Some(missing_binary("rsync"@))
    } else if !facts.has_ssh {
        Some(missing_binary("ssh"@))
    } else if !facts.source_is_dir {
        Some(
            error::plain_error(
                "source_missing"@,
                "source directory does not exist: "@ + path::lossy(job.source),
                false,
                "Correct the predefined source path."@,
            ),
        )
    } else if marker_place(job) is Some && !facts.marker_is_file {
        Some(
            error::plain_error(
                "source_incomplete"@,
                "required source marker is missing: "@ + path::lossy(marker_place(job)->0),
                true,
                "Wait for the producer to finish and write its completion marker."@,
            ),
        )
    } else if !facts.identity_is_file {
        Some(missing_ssh_file(job.ssh.identity_file))
    } else if !facts.known_hosts_is_file {
        Some(missing_ssh_file(job.ssh.known_hosts_file))
    } else {
        identity_fault(job, facts.identity_mode)
    }
}

/// What is said of a host that is ready for a job.
pub open spec fn check_result(
    state_dir: Seq<u8>,
    job_id: Seq<char>,
    job: config::JobView,
) -> records::CheckView {
    let base = seq!["rsync_available"@, "ssh_available"@, "source_directory"@];
    records::CheckView {
        schema_version: 1,
        operation: "check"@,
        status: "ready"@,
        job_id,
        source: job.source,
        destination_root: job.destination_root,
        state_dir,
        checks: if job.source_complete_marker is Some {
            base.push("source_complete_marker"@)
        } else {
            base
        },
        next_actions: seq!["hpc-sync plan "@ + job_id + " --json"@],
    }
}

/// What is to be looked at for a job.
pub open spec fn inspection(job: config::JobView) -> step::InspectionView {
    step::InspectionView {
        source: job.source,
        marker: marker_place(job),
        identity_file: job.ssh.identity_file,
        known_hosts_file: job.ssh.known_hosts_file,
    }
}

/// Where the completion marker of a job's source lies.
fn marker_path(job: &JobConfig) -> (r: Option<FilePath>)
    ensures
        path::optional_path(r) == marker_place(job@),
{
    match &job.source_complete_marker {
        Some(m) => Some(job.source.join(m)),
        None => None,
    }
}

/// Says what is to be looked at for a job.
fn inspect(job: &JobConfig) -> (r: Inspection)
    ensures
        r@ == inspection(job@),
{
    Inspection {
        source: job.source.copy(),
        marker: marker_path(job),
        identity_file: job.ssh.identity_file.copy(),
        known_hosts_file: job.ssh.known_hosts_file.copy(),
    }
}

/// The error for a program that is not there.
fn binary_error(name: &str) -> (r: AppError)
    ensures
        r@ == missing_binary(name@),
{
    AppError::new(
        "binary_missing",
        text::cat2(name, " is not available on PATH"),
        false,
        "Install rsync and OpenSSH or load their HPC modules.",
    )
}

/// The error for a file that the remote shell needs and that is not there.
fn ssh_file_error(p: &FilePath) -> (r: AppError)
    ensures
        r@ == missing_ssh_file(p@),
{
    AppError::new(
        "ssh_file_missing",
        text::cat2("required SSH file is missing: ", &p.display()),
        false,
        "Provision the dedicated key and pinned known_hosts file.",
    )
}

/// Checks the permission bits of the identity.
fn check_identity(job: &JobConfig, mode: &Result<u32, String>) -> (r: AppResult<()>)
    ensures
        error::fault(r) == identity_fault(
            job@,
            match *mode {
                Ok(bits) => Ok(bits),
                Err(cause) => Err(cause@),
            },
        ),
{
    match mode {
        Err(cause) => Err(
            AppError::new(
                "ssh_file_unreadable",
                cause.clone(),
                false,
                "Check key permissions.",
            ),
        ),
        Ok(bits) => if *bits & 0o777 != state::PRIVATE_FILE {
            let cause: &str = if *bits & 0o077 != 0 {
                "SSH identity is accessible by group or others: "
            } else {
                "SSH identity must have mode 0600: "
            };
            Err(
                AppError::new(
                    "identity_permissions",
                    text::cat2(cause, &job.ssh.identity_file.display()),
                    false,
                    &text::cat2("Run chmod 600 ", &job.ssh.identity_file.display()),
                ),
            )
        } else {
            Ok(())
        },
    }
}

/// Checks what a look at the host showed.
pub fn check_facts(job: &JobConfig, facts: &HostFacts) -> (r: AppResult<()>)
    ensures
        error::fault(r) == check_fault(job@, facts@),
{
    if !facts.has_rsync {
        return Err(binary_error("rsync"));
    }
    if !facts.has_ssh {
        return Err(binary_error("ssh"));
    }
    if !facts.source_is_dir {
        return Err(
            AppError::new(
                "source_missing",
                text::cat2("source directory does not exist: ", &job.source.display()),
                false,
                "Correct the predefined source path.",
            ),
        );
    }
    if let Some(marker) = marker_path(job) {
        if !facts.marker_is_file {
            return Err(
                AppError::new(
                    "source_incomplete",
                    text::cat2("required source marker is missing: ", &marker.display()),
                    true,
                    "Wait for the producer to finish and write its completion marker.",
                ),
            );
        }
    }
    if !facts.identity_is_file {
        return Err(ssh_file_error(&job.ssh.identity_file));
    }
    if !facts.known_hosts_is_file {
        return Err(ssh_file_error(&job.ssh.known_hosts_file));
    }
    check_identity(job, &facts.identity_mode)
}

/// Says that the host is ready for a job.
fn ready(config: &AppConfig, job_id: &str, job: &JobConfig) -> (r: CheckRecord)
    ensures
        r@ == check_result(config@.state_dir, job_id@, job@),
{
    let mut checks: Vec<&'static str> = Vec::new();
    checks.push("rsync_available");
    checks.push("ssh_available");
    checks.push("source_directory");
    if job.source_complete_marker.is_some() {
        checks.push("source_complete_marker");
    }
    let r: CheckRecord = CheckRecord {
        schema_version: 1,
        operation: "check",
        status: "ready",
        job_id: job_id.to_owned(),
        source: job.source.copy(),
        destination_root: job.destination_root.copy(),
        state_dir: config.state_dir.copy(),
        checks,
        next_actions: text::one_text(text::cat3("hpc-sync plan ", job_id, " --json")),
    };
    proof {
        assert(r@.checks =~= check_result(config@.state_dir, job_id@, job@).checks);
    }
    r
}

/// How far a check has come: what it waits for.
#[derive(Debug)]
pub enum CheckState {
    /// It has not begun.
    Start,
    /// A look at the host.
    Inspect,
    /// The state directory.
    Prepare,
}

impl View for CheckState {
    type V = CheckState;

    open spec fn view(&self) -> CheckState {
        *self
    }
}

/// Whether an event is one that a check waits for.
pub open spec fn check_expects(state: CheckState, event: step::EventView) -> bool {
    match state {
        CheckState::Start => event is Begin,
        CheckState::Inspect => event is Facts,
        CheckState::Prepare => event is Done || event is Failed,
    }
}

/// What a check does next.
pub open spec fn check_next(
    config: config::ConfigView,
    job_id: Seq<char>,
    state: CheckState,
    event: step::EventView,
) -> step::StepView<CheckState, records::CheckView> {
    match config::find_job(config.jobs, job_id) {
        None => step::StepView::Finish(Err(config::unknown_job(job_id))),
        Some(job) => if let step::EventView::Failed(e) = event {
            step::StepView::Finish(Err(e))
        } else {
            match state {
                CheckState::Start => step::StepView::Continue(
                    CheckState::Inspect,
                    step::ActionView::Inspect(inspection(job)),
                ),
                CheckState::Inspect => match check_fault(job, event->Facts_0) {
                    Some(e) => step::StepView::Finish(Err(e)),
                    None => step::StepView::Continue(
                        CheckState::Prepare,
                        step::ActionView::EnsureDir(config.state_dir),
                    ),
                },
                CheckState::Prepare => step::StepView::Finish(
                    Ok(check_result(config.state_dir, job_id, job)),
                ),
            }
        },
    }
}

/// One step of a check of the host for a job.
pub fn check_job(config: &AppConfig, job_id: &str, state: CheckState, event: Event) -> (r: Step<
    CheckState,
    CheckRecord,
>)
    requires
        check_expects(state, event@),
    ensures
        r@ == check_next(config@, job_id@, state, event@),
{
    let job: &JobConfig = match config.job(job_id) {
        Err(e) => {
            return Step::Finish(Err(e));
        },
        Ok(job) => job,
    };
    match (state, event) {
        (_, Event::Failed(e)) => Step::Finish(Err(e)),
        (CheckState::Start, _) => Step::Continue(
            CheckState::Inspect,
            Action::Inspect(inspect(job)),
        ),
        (CheckState::Inspect, Event::Facts(facts)) => match check_facts(job, &facts) {
            Err(e) => Step::Finish(Err(e)),
            Ok(_) => Step::Continue(
                CheckState::Prepare,
                Action::EnsureDir(config.state_dir.copy()),
            ),
        },
        (CheckState::Prepare, _) => Step::Finish(Ok(ready(config, job_id, job))),
        (_, _) => vstd::pervasive::unreached(),
    }
}

// ---------------------------------------------------------------------------
// Planning
// ---------------------------------------------------------------------------
/// A plan in the making.
#[derive(Debug)]
pub struct Draft {
    pub run_id: String,
    pub started_at: String,
    pub config_hash: String,
}

/// What a [`Draft`] holds.
#[verifier::ext_equal]
pub struct DraftView {
    pub run_id: Seq<char>,
    pub started_at: Seq<char>,
    pub config_hash: Seq<char>,
}

impl View for Draft {
    type V = DraftView;

    open spec fn view(&self) -> DraftView {
        DraftView {
            run_id: self.run_id@,
            started_at: self.started_at@,
            config_hash: self.config_hash@,
        }
    }
}

/// A plan whose command is built.
#[derive(Debug)]
pub struct Prepared {
    pub draft: Draft,
    pub previous_run_id: Option<String>,
    pub command: Vec<String>,
}

/// What a [`Prepared`] plan holds.
#[verifier::ext_equal]
pub struct PreparedView {
    pub draft: DraftView,
    pub previous_run_id: Option<Seq<char>>,
    pub command: Seq<Seq<char>>,
}

impl View for Prepared {
    type V = PreparedView;

    open spec fn view(&self) -> PreparedView {
        PreparedView {
            draft: self.draft@,
            previous_run_id: text::optional_text(self.previous_run_id),
            command: text::texts(self.command@),
        }
    }
}

/// How far a plan has come: what it waits for.
#[derive(Debug)]
pub enum PlanState {
    /// It has not begun.
    Start,
    /// A look at the host.
    Inspect,
    /// The state directory.
    Prepare,
    /// The directory of the run.
    MakeDir(String),
    /// The configuration of the job.
    Serialize(String, String),
    /// The runs with a result.
    List(Draft),
    /// The result of the first of these runs.
    Scan(Draft, Vec<FilePath>),
    /// The lock of the job.
    Lock(Prepared),
    /// The dry run.
    DryRun(Prepared),
    /// The request of the plan.
    WriteRequest(PlanRecord),
    /// The plan.
    WritePlan(PlanRecord),
}

/// What a [`PlanState`] holds.
#[verifier::ext_equal]
pub enum PlanPhase {
    Start,
    Inspect,
    Prepare,
    MakeDir(Seq<char>),
    Serialize(Seq<char>, Seq<char>),
    List(DraftView),
    Scan(DraftView, Seq<Seq<u8>>),
    Lock(PreparedView),
    DryRun(PreparedView),
    WriteRequest(records::PlanView),
    WritePlan(records::PlanView),
}

impl View for PlanState {
    type V = PlanPhase;

    open spec fn view(&self) -> PlanPhase {
        match self {
            PlanState::Start => PlanPhase::Start,
            PlanState::Inspect => PlanPhase::Inspect,
            PlanState::Prepare => PlanPhase::Prepare,
            PlanState::MakeDir(run_id) => PlanPhase::MakeDir(run_id@),
            PlanState::Serialize(run_id, at) => PlanPhase::Serialize(run_id@, at@),
            PlanState::List(d) => PlanPhase::List(d@),
            PlanState::Scan(d, names) => PlanPhase::Scan(d@, step::path_views(names@)),
            PlanState::Lock(p) => PlanPhase::Lock(p@),
            PlanState::DryRun(p) => PlanPhase::DryRun(p@),
            PlanState::WriteRequest(p) => PlanPhase::WriteRequest(p@),
            PlanState::WritePlan(p) => PlanPhase::WritePlan(p@),
        }
    }
}

/// Whether an event is one that a plan waits for.
pub open spec fn plan_expects(phase: PlanPhase, event: step::EventView) -> bool {
    match phase {
        PlanPhase::Start => event is Begin,
        PlanPhase::Inspect => event is Facts,
        PlanPhase::Serialize(_, _) => event is Serialized,
        PlanPhase::List(_) => event is Names || event is ListFailed,
        PlanPhase::Scan(_, names) => names.len() > 0 && (event is Run || event is Failed),
        PlanPhase::DryRun(_) => event is Output || event is Failed,
        _ => event is Done || event is Failed,
    }
}

/// A job that is to be planned, in a given process.
#[verifier::ext_equal]
pub struct PlanInput {
    pub config: config::ConfigView,
    pub job_id: Seq<char>,
    pub process_id: u32,
}

/// What a step of a plan says.
pub type PlanStep = step::StepView<PlanPhase, records::PlanView>;

/// Where the planned run is kept.
pub open spec fn plan_place(input: PlanInput, run_id: Seq<char>) -> Seq<u8> {
    common::run_place(input.config.state_dir, input.job_id, run_id)
}

/// Where the result of an earlier run lies.
pub open spec fn result_place(input: PlanInput, name: Seq<u8>) -> Seq<u8> {
    common::under(
        path::joined_path(common::runs_place(input.config.state_dir, input.job_id), name),
        "result.json"@,
    )
}

/// Why the runs of a job cannot be listed.
pub open spec fn list_fault(p: Seq<u8>, cause: Seq<char>) -> error::ErrorView {
    error::plain_error(
        "state_unreadable"@,
        "cannot list "@ + path::lossy(p) + ": "@ + cause,
        false,
        "Check state directory permissions."@,
    )
}

/// A plan whose baseline is known takes the lock, unless its command cannot be built.
pub open spec fn planned(
    input: PlanInput,
    job: config::JobView,
    draft: DraftView,
    previous: Option<Seq<char>>,
) -> PlanStep {
    match rsync::transfer_fault(job, draft.run_id, previous) {
        Some(e) => step::StepView::Finish(Err(e)),
        None => step::StepView::Continue(
            PlanPhase::Lock(
                PreparedView {
                    draft,
                    previous_run_id: previous,
                    command: rsync::transfer_command(job, draft.run_id, previous, true),
                },
            ),
            step::ActionView::Lock(common::lock_place(input.config.state_dir, input.job_id)),
        ),
    }
}

/// A plan looks for its baseline among these runs.
pub open spec fn scanned(
    input: PlanInput,
    job: config::JobView,
    draft: DraftView,
    names: Seq<Seq<u8>>,
) -> PlanStep {
    if names.len() == 0 {
        planned(input, job, draft, None)
    } else {
        step::StepView::Continue(
            PlanPhase::Scan(draft, names),
            step::ActionView::ReadRun(result_place(input, names[0])),
        )
    }
}

/// Why a dry run did not give a plan.
pub open spec fn dry_run_fault(
    input: PlanInput,
    draft: DraftView,
    output: process::OutputView,
) -> error::ErrorView {
    let class = exit_class::class_of(output.exit_code as int, output.stderr);
    error::ErrorView {
        exit_code: 10,
        ..error::plain_error(
            "rsync_plan_failed"@,
            "rsync plan failed with exit code "@ + number::signed_decimal(output.exit_code as int)
                + " ("@ + class.0 + ")"@,
            class.1,
            "Inspect "@ + path::lossy(
                common::under(plan_place(input, draft.run_id), "plan.stderr"@),
            ) + " before retrying."@,
        )
    }
}

/// How a fingerprint names the baseline; a run without one is named by nothing.
pub open spec fn baseline_name(previous: Option<Seq<char>>) -> Seq<char> {
    match previous {
        Some(p) => p,
        None => ""@,
    }
}

/// The fingerprint of a plan: of the configuration, the run, its baseline, its snapshot and the
/// changes that the dry run named.
pub open spec fn plan_hash(
    config_hash: Seq<char>,
    run_id: Seq<char>,
    previous: Option<Seq<char>>,
    snapshot: Seq<char>,
    items: Seq<char>,
) -> Seq<char> {
    process::fingerprint(
        seq![
            config_hash,
            run_id,
            baseline_name(previous),
            snapshot,
            process::fingerprint(seq![items]),
        ],
    )
}

/// The plan that a dry run gives.
pub open spec fn plan_result(
    input: PlanInput,
    job: config::JobView,
    plan: PreparedView,
    output: process::OutputView,
    now: Seq<char>,
) -> records::PlanView {
    let run_id = plan.draft.run_id;
    let hash = plan_hash(
        plan.draft.config_hash,
        run_id,
        plan.previous_run_id,
        rsync::snapshot(job, run_id),
        output.stdout,
    );
    records::PlanView {
        schema_version: 1,
        operation: "plan"@,
        status: "planned"@,
        job_id: input.job_id,
        run_id,
        config_hash: plan.draft.config_hash,
        plan_hash: hash,
        previous_run_id: plan.previous_run_id,
        snapshot_path: rsync::snapshot(job, run_id),
        started_at: plan.draft.started_at,
        finished_at: now,
        rsync_exit_code: output.exit_code,
        item_count: process::item_count(output.stdout) as usize,
        run_dir: plan_place(input, run_id),
        items_path: common::under(plan_place(input, run_id), "items.txt"@),
        command: plan.command,
        next_actions: seq![
            "hpc-sync run "@ + input.job_id + " --plan-run-id "@ + run_id + " --approval "@ + hash
                + " --json"@,
        ],
    }
}

/// The request that is kept beside a plan.
pub open spec fn request_result(input: PlanInput, job: config::JobView, draft: DraftView) ->
    records::RequestView {
    records::RequestView {
        schema_version: 1,
        operation: "request"@,
        job_id: input.job_id,
        run_id: draft.run_id,
        config_hash: draft.config_hash,
        job,
        created_at: draft.started_at,
    }
}

/// What follows a dry run.
pub open spec fn after_dry_run(
    input: PlanInput,
    job: config::JobView,
    plan: PreparedView,
    output: process::OutputView,
    now: Seq<char>,
) -> PlanStep {
    if output.exit_code != 0 {
        step::StepView::Finish(Err(dry_run_fault(input, plan.draft, output)))
    } else {
        match rsync::snapshot_fault(job, plan.draft.run_id) {
            Some(e) => step::StepView::Finish(Err(e)),
            None => step::StepView::Continue(
                PlanPhase::WriteRequest(plan_result(input, job, plan, output, now)),
                step::ActionView::WriteRequest(
                    common::under(plan_place(input, plan.draft.run_id), "request.json"@),
                    request_result(input, job, plan.draft),
                ),
            ),
        }
    }
}

/// Asks for the dry run.
pub open spec fn dry_run(input: PlanInput, job: config::JobView, plan: PreparedView) -> PlanStep {
    let dir = plan_place(input, plan.draft.run_id);
    step::StepView::Continue(
        PlanPhase::DryRun(plan),
        step::ActionView::Execute(
            process::ExecutionView {
                command: plan.command,
                timeout_seconds: job.max_runtime_seconds,
                stdout_path: common::under(dir, "items.txt"@),
                stderr_path: common::under(dir, "plan.stderr"@),
            },
        ),
    )
}

/// What follows a look at the host.
pub open spec fn after_inspection(
    input: PlanInput,
    job: config::JobView,
    facts: step::FactsView,
) -> PlanStep {
    match check_fault(job, facts) {
        Some(e) => step::StepView::Finish(Err(e)),
        None => step::StepView::Continue(
            PlanPhase::Prepare,
            step::ActionView::EnsureDir(input.config.state_dir),
        ),
    }
}

/// What follows the state directory: the run gets its id.
pub open spec fn after_preparation(input: PlanInput, now: Moment) -> PlanStep {
    let run_id = moment::made_run_id(now, input.process_id);
    step::StepView::Continue(
        PlanPhase::MakeDir(run_id),
        step::ActionView::EnsureDir(plan_place(input, run_id)),
    )
}

/// Whether a run that is named at a moment before the year 10000 gets a valid run id, which comes
/// after those of all earlier seconds.
pub open spec fn names_later_run(step: PlanStep, now: Moment) -> bool {
    moment::has_short_year(now) ==> (step matches step::StepView::Continue(
        PlanPhase::MakeDir(run_id),
        _,
    ) ==> rsync::is_run_id(run_id) && moment::follows_earlier_ids(run_id, now))
}

/// What follows the serialized configuration.
pub open spec fn after_serialization(
    input: PlanInput,
    run_id: Seq<char>,
    started_at: Seq<char>,
    payload: Result<Seq<char>, Seq<char>>,
) -> PlanStep {
    match common::hashed(input.config, input.job_id, payload) {
        Err(e) => step::StepView::Finish(Err(e)),
        Ok(config_hash) => step::StepView::Continue(
            PlanPhase::List(DraftView { run_id, started_at, config_hash }),
            step::ActionView::ListRuns(common::runs_place(input.config.state_dir, input.job_id)),
        ),
    }
}

/// What follows the list of runs.
pub open spec fn after_list(
    input: PlanInput,
    job: config::JobView,
    draft: DraftView,
    event: step::EventView,
) -> PlanStep {
    match event {
        step::EventView::ListFailed(cause) => step::StepView::Finish(
            Err(list_fault(common::runs_place(input.config.state_dir, input.job_id), cause)),
        ),
        _ => scanned(input, job, draft, common::newest_first(event->Names_0)),
    }
}

/// What follows the result of an earlier run: the newest successful one is the baseline.
pub open spec fn after_scan(
    input: PlanInput,
    job: config::JobView,
    draft: DraftView,
    names: Seq<Seq<u8>>,
    record: records::RunView,
) -> PlanStep {
    if record.status == RunStatus::Success {
        planned(input, job, draft, Some(record.run_id))
    } else {
        scanned(input, job, draft, names.drop_first())
    }
}

/// What a plan does next. Whatever fails ends it, and so does a job that is not defined.
pub open spec fn plan_next(
    input: PlanInput,
    phase: PlanPhase,
    event: step::EventView,
    now: Moment,
) -> PlanStep {
    let time = moment::rfc3339(now.seconds, now.nanos);
    match config::find_job(input.config.jobs, input.job_id) {
        None => step::StepView::Finish(Err(config::unknown_job(input.job_id))),
        Some(job) => if let step::EventView::Failed(e) = event {
            step::StepView::Finish(Err(e))
        } else {
            match phase {
                PlanPhase::Start => step::StepView::Continue(
                    PlanPhase::Inspect,
                    step::ActionView::Inspect(inspection(job)),
                ),
                PlanPhase::Inspect => after_inspection(input, job, event->Facts_0),
                PlanPhase::Prepare => after_preparation(input, now),
                PlanPhase::MakeDir(run_id) => step::StepView::Continue(
                    PlanPhase::Serialize(run_id, time),
                    step::ActionView::SerializeJob,
                ),
                PlanPhase::Serialize(run_id, started_at) => after_serialization(
                    input,
                    run_id,
                    started_at,
                    event->Serialized_0,
                ),
                PlanPhase::List(draft) => after_list(input, job, draft, event),
                PlanPhase::Scan(draft, names) => after_scan(
                    input,
                    job,
                    draft,
                    names,
                    event->Run_0,
                ),
                PlanPhase::Lock(plan) => dry_run(input, job, plan),
                PlanPhase::DryRun(plan) => after_dry_run(input, job, plan, event->Output_0, time),
                PlanPhase::WriteRequest(plan) => step::StepView::Continue(
                    PlanPhase::WritePlan(plan),
                    step::ActionView::WritePlan(
                        common::under(plan_place(input, plan.run_id), "plan.json"@),
                        plan,
                    ),
                ),
                PlanPhase::WritePlan(plan) => step::StepView::Finish(Ok(plan)),
            }
        },
    }
}

/// Takes the lock for a plan whose baseline is known.
fn prepare(
    config: &AppConfig,
    job_id: &str,
    process_id: u32,
    job: &JobConfig,
    draft: Draft,
    previous: Option<String>,
) -> (r: Step<PlanState, PlanRecord>)
    ensures
        r@ == planned(
            PlanInput { config: config@, job_id: job_id@, process_id },
            job@,
            draft@,
            text::optional_text(previous),
        ),
{
    let baseline: Option<&str> = match &previous {
        Some(p) => Some(p.as_str()),
        None => None,
    };
    proof {
        assert(text::optional_str(baseline) == text::optional_text(previous));
    }
    match rsync::build_transfer(
        TransferRequest {
            job,
            run_id: &draft.run_id,
            previous_run_id: baseline,
            dry_run: true,
        },
    ) {
        Err(e) => Step::Finish(Err(e)),
        Ok(command) => Step::Continue(
            PlanState::Lock(Prepared { draft, previous_run_id: previous, command }),
            Action::Lock(common::lock_path(config, job_id)),
        ),
    }
}

/// Looks for the baseline among these runs.
fn scan(
    config: &AppConfig,
    job_id: &str,
    process_id: u32,
    job: &JobConfig,
    draft: Draft,
    names: Vec<FilePath>,
) -> (r: Step<PlanState, PlanRecord>)
    ensures
        r@ == scanned(
            PlanInput { config: config@, job_id: job_id@, process_id },
            job@,
            draft@,
            step::path_views(names@),
        ),
{
    if names.len() == 0 {
        return prepare(config, job_id, process_id, job, draft, None);
    }
    let p: FilePath = common::runs_dir(config, job_id).join(&names[0]).join_text("result.json");
    Step::Continue(PlanState::Scan(draft, names), Action::ReadRun(p))
}

/// The fingerprint of a plan.
fn hash_plan(
    config_hash: &str,
    run_id: &str,
    previous: &Option<String>,
    snapshot: &str,
    items: &str,
) -> (r: String)
    ensures
        r@ == plan_hash(config_hash@, run_id@, text::optional_text(*previous), snapshot@, items@),
{
    let inner: Vec<&str> = vec![items];
    proof {
        assert(process::slices(inner@) =~= seq![items@]);
    }
    let items_hash: String = process::stable_hash(inner.as_slice());
    let baseline: &str = match previous {
        Some(p) => p.as_str(),
        None => "",
    };
    let parts: Vec<&str> = vec![config_hash, run_id, baseline, snapshot, items_hash.as_str()];
    let ghost wanted = seq![
        config_hash@,
        run_id@,
        baseline_name(text::optional_text(*previous)),
        snapshot@,
        process::fingerprint(seq![items@]),
    ];
    proof {
        assert(process::slices(parts@) =~= wanted);
    }
    let r: String = process::stable_hash(parts.as_slice());
    assert(r@ == process::fingerprint(wanted));
    r
}

/// Makes the plan that a dry run gives.
fn make_plan(
    config: &AppConfig,
    job_id: &str,
    process_id: u32,
    job: &JobConfig,
    plan: Prepared,
    output: CommandOutput,
    now: Moment,
) -> (r: Step<PlanState, PlanRecord>)
    requires
        moment::in_calendar(now),
    ensures
        r@ == after_dry_run(
            PlanInput { config: config@, job_id: job_id@, process_id },
            job@,
            plan@,
            output@,
            moment::rfc3339(now.seconds, now.nanos),
        ),
{
    let dir: FilePath = common::run_dir(config, job_id, &plan.draft.run_id);
    if output.exit_code != 0 {
        let class: ExitClass = exit_class::classify_exit(output.exit_code, &output.stderr);
        let e: AppError = AppError::new(
            "rsync_plan_failed",
            text::cat5(
                "rsync plan failed with exit code ",
                &number::signed_text(output.exit_code as i64),
                " (",
                class.name,
                ")",
            ),
            class.retryable,
            &text::cat3(
                "Inspect ",
                &dir.join_text("plan.stderr").display(),
                " before retrying.",
            ),
        );
        return Step::Finish(Err(e.with_exit_code(10)));
    }
    let snapshot: String = match rsync::snapshot_path(job, &plan.draft.run_id) {
        Err(e) => {
            return Step::Finish(Err(e));
        },
        Ok(s) => s,
    };
    let hash: String = hash_plan(
        &plan.draft.config_hash,
        &plan.draft.run_id,
        &plan.previous_run_id,
        &snapshot,
        &output.stdout,
    );
    let request: RequestRecord = RequestRecord {
        schema_version: 1,
        operation: "request".to_owned(),
        job_id: job_id.to_owned(),
        run_id: plan.draft.run_id.clone(),
        config_hash: plan.draft.config_hash.clone(),
        job: job.copy(),
        created_at: plan.draft.started_at.clone(),
    };
    let start: String = text::cat4(
        "hpc-sync run ",
        job_id,
        " --plan-run-id ",
        &plan.draft.run_id,
    );
    let next: String = text::cat4(&start, " --approval ", &hash, " --json");
    let record: PlanRecord = PlanRecord {
        schema_version: 1,
        operation: "plan".to_owned(),
        status: "planned".to_owned(),
        job_id: job_id.to_owned(),
        run_id: plan.draft.run_id,
        config_hash: plan.draft.config_hash,
        plan_hash: hash,
        previous_run_id: plan.previous_run_id,
        snapshot_path: snapshot,
        started_at: plan.draft.started_at,
        finished_at: moment::moment_text(now),
        rsync_exit_code: output.exit_code,
        item_count: process::count_itemized_changes(&output.stdout),
        run_dir: dir.copy(),
        items_path: dir.join_text("items.txt"),
        command: plan.command,
        next_actions: text::one_text(next),
    };
    Step::Continue(
        PlanState::WriteRequest(record),
        Action::WriteRequest(dir.join_text("request.json"), request),
    )
}

/// Asks for the dry run of a plan.
fn start_dry_run(
    config: &AppConfig,
    job_id: &str,
    process_id: u32,
    job: &JobConfig,
    plan: Prepared,
) -> (r: Step<PlanState, PlanRecord>)
    ensures
        r@ == dry_run(PlanInput { config: config@, job_id: job_id@, process_id }, job@, plan@),
{
    let dir: FilePath = common::run_dir(config, job_id, &plan.draft.run_id);
    let execution: Execution = Execution {
        command: text::copy_texts(&plan.command),
        timeout_seconds: job.max_runtime_seconds,
        stdout_path: dir.join_text("items.txt"),
        stderr_path: dir.join_text("plan.stderr"),
    };
    Step::Continue(PlanState::DryRun(plan), Action::Execute(execution))
}

/// Goes on after a look at the host.
fn finish_inspection(
    config: &AppConfig,
    job_id: &str,
    process_id: u32,
    job: &JobConfig,
    facts: &HostFacts,
) -> (r: Step<PlanState, PlanRecord>)
    ensures
        r@ == after_inspection(
            PlanInput { config: config@, job_id: job_id@, process_id },
            job@,
            facts@,
        ),
{
    match check_facts(job, facts) {
        Err(e) => Step::Finish(Err(e)),
        Ok(_) => Step::Continue(PlanState::Prepare, Action::EnsureDir(config.state_dir.copy())),
    }
}

/// Gives the run its id.
fn name_run(config: &AppConfig, job_id: &str, process_id: u32, now: Moment) -> (r: Step<
    PlanState,
    PlanRecord,
>)
    requires
        moment::in_calendar(now),
    ensures
        r@ == after_preparation(PlanInput { config: config@, job_id: job_id@, process_id }, now),
        names_later_run(r@, now),
{
    let run_id: String = moment::run_id_at(now, process_id);
    let dir: FilePath = common::run_dir(config, job_id, &run_id);
    Step::Continue(PlanState::MakeDir(run_id), Action::EnsureDir(dir))
}

/// Goes on after the serialized configuration.
fn finish_serialization(
    config: &AppConfig,
    job_id: &str,
    process_id: u32,
    run_id: String,
    started_at: String,
    payload: &Result<String, String>,
) -> (r: Step<PlanState, PlanRecord>)
    ensures
        r@ == after_serialization(
            PlanInput { config: config@, job_id: job_id@, process_id },
            run_id@,
            started_at@,
            step::text_result(*payload),
        ),
{
    match common::config_hash(config, job_id, payload) {
        Err(e) => Step::Finish(Err(e)),
        Ok(config_hash) => Step::Continue(
            PlanState::List(Draft { run_id, started_at, config_hash }),
            Action::ListRuns(common::runs_dir(config, job_id)),
        ),
    }
}

/// Goes on after the list of runs.
fn finish_list(
    config: &AppConfig,
    job_id: &str,
    process_id: u32,
    job: &JobConfig,
    draft: Draft,
    event: Event,
) -> (r: Step<PlanState, PlanRecord>)
    requires
        event is Names || event is ListFailed,
    ensures
        r@ == after_list(
            PlanInput { config: config@, job_id: job_id@, process_id },
            job@,
            draft@,
            event@,
        ),
{
    match event {
        Event::ListFailed(cause) => Step::Finish(
            Err(
                AppError::new(
                    "state_unreadable",
                    text::cat4(
                        "cannot list ",
                        &common::runs_dir(config, job_id).display(),
                        ": ",
                        &cause,
                    ),
                    false,
                    "Check state directory permissions.",
                ),
            ),
        ),
        Event::Names(names) => {
            let sorted: Vec<FilePath> = common::sort_newest_first(names);
            scan(config, job_id, process_id, job, draft, sorted)
        },
        _ => vstd::pervasive::unreached(),
    }
}

/// Goes on after the result of an earlier run.
fn finish_scan(
    config: &AppConfig,
    job_id: &str,
    process_id: u32,
    job: &JobConfig,
    draft: Draft,
    names: Vec<FilePath>,
    record: RunRecord,
) -> (r: Step<PlanState, PlanRecord>)
    requires
        names@.len() > 0,
    ensures
        r@ == after_scan(
            PlanInput { config: config@, job_id: job_id@, process_id },
            job@,
            draft@,
            step::path_views(names@),
            record@,
        ),
{
    if record.status == RunStatus::Success {
        return prepare(config, job_id, process_id, job, draft, Some(record.run_id));
    }
    let mut rest: Vec<FilePath> = names;
    rest.remove(0);
    proof {
        assert(step::path_views(rest@) =~= step::path_views(names@).drop_first());
    }
    scan(config, job_id, process_id, job, draft, rest)
}

/// Writes a plan beside its request.
fn write_plan(config: &AppConfig, job_id: &str, plan: PlanRecord) -> (r: Step<
    PlanState,
    PlanRecord,
>)
    ensures
        r@ == step::StepView::<PlanPhase, records::PlanView>::Continue(
            PlanPhase::WritePlan(plan@),
            step::ActionView::WritePlan(
                common::under(
                    common::run_place(config@.state_dir, job_id@, plan@.run_id),
                    "plan.json"@,
                ),
                plan@,
            ),
        ),
{
    let copy: PlanRecord = plan.copy();
    let dir: FilePath = common::run_dir(config, job_id, &plan.run_id);
    Step::Continue(
        PlanState::WritePlan(plan),
        Action::WritePlan(dir.join_text("plan.json"), copy),
    )
}

/// One step of a plan at a given moment: takes the answer to what was asked for last, and says
/// what is asked for next or how the planning ended.
pub fn plan_job_at(
    config: &AppConfig,
    job_id: &str,
    process_id: u32,
    state: PlanState,
    event: Event,
    now: Moment,
) -> (r: Step<PlanState, PlanRecord>)
    requires
        plan_expects(state@, event@),
        moment::in_calendar(now),
    ensures
        r@ == plan_next(
            PlanInput { config: config@, job_id: job_id@, process_id },
            state@,
            event@,
            now,
        ),
        names_later_run(r@, now),
{
    let job: &JobConfig = match config.job(job_id) {
        Err(e) => {
            return Step::Finish(Err(e));
        },
        Ok(job) => job,
    };
    match (state, event) {
        (_, Event::Failed(e)) => Step::Finish(Err(e)),
        (PlanState::Start, _) => Step::Continue(PlanState::Inspect, Action::Inspect(inspect(job))),
        (PlanState::Inspect, Event::Facts(facts)) => finish_inspection(
            config,
            job_id,
            process_id,
            job,
            &facts,
        ),
        (PlanState::Prepare, _) => name_run(config, job_id, process_id, now),
        (PlanState::MakeDir(run_id), _) => Step::Continue(
            PlanState::Serialize(run_id, moment::moment_text(now)),
            Action::SerializeJob,
        ),
        (PlanState::Serialize(run_id, started_at), Event::Serialized(payload)) => {
            finish_serialization(config, job_id, process_id, run_id, started_at, &payload)
        },
        (PlanState::List(draft), event) => finish_list(
            config,
            job_id,
            process_id,
            job,
            draft,
            event,
        ),
        (PlanState::Scan(draft, names), Event::Run(record)) => finish_scan(
            config,
            job_id,
            process_id,
            job,
            draft,
            names,
            record,
        ),
        (PlanState::Lock(plan), _) => start_dry_run(config, job_id, process_id, job, plan),
        (PlanState::DryRun(plan), Event::Output(output)) => make_plan(
            config,
            job_id,
            process_id,
            job,
            plan,
            output,
            now,
        ),
        (PlanState::WriteRequest(plan), _) => write_plan(config, job_id, plan),
        (PlanState::WritePlan(plan), _) => Step::Finish(Ok(plan)),
        (_, _) => vstd::pervasive::unreached(),
    }
}

/// One step of a plan at the current moment.
pub fn plan_job(
    config: &AppConfig,
    job_id: &str,
    process_id: u32,
    state: PlanState,
    event: Event,
) -> (r: Step<PlanState, PlanRecord>)
    requires
        plan_expects(state@, event@),
    ensures
        exists|now: Moment|
            #![trigger moment::in_calendar(now)]
            moment::in_calendar(now) && names_later_run(r@, now) && r@ == plan_next(
                PlanInput { config: config@, job_id: job_id@, process_id },
                state@,
                event@,
                now,
            ),
{
    let now: Moment = moment::current_moment();
    plan_job_at(config, job_id, process_id, state, event, now)
}

} // verus!
