//! Applying a reviewed plan.
use super::super::config;
use super::super::config::{AppConfig, JobConfig};
use super::super::error;
use super::super::error::{AppError, AppResult};
use super::super::exit_class;
use super::super::exit_class::ExitClass;
use super::super::moment;
use super::super::moment::Moment;
use super::super::process;
use super::super::process::Execution;
use super::super::records;
use super::super::records::{
    CompletionRecord, PlanRecord, RequestRecord, RunRecord, RunStatus,
};
use super::super::rsync;
use super::super::rsync::TransferRequest;
use super::common;
use super::step;
use super::step::{Action, Event, Step};
use crate::path::FilePath;
use crate::{path, text};
use vstd::prelude::*;

verus! {

/// A plan that is to be applied, and the approval for it.
pub struct RunRequest<'a> {
    pub config: &'a AppConfig,
    pub job_id: &'a str,
    pub plan_run_id: &'a str,
    pub approval: &'a str,
}

/// What a [`RunRequest`] holds.
#[verifier::ext_equal]
pub struct RunInput {
    pub config: config::ConfigView,
    pub job_id: Seq<char>,
    pub plan_run_id: Seq<char>,
    pub approval: Seq<char>,
}

impl View for RunRequest<'_> {
    type V = RunInput;

    open spec fn view(&self) -> RunInput {
        RunInput {
            config: self.config@,
            job_id: self.job_id@,
            plan_run_id: self.plan_run_id@,
            approval: self.approval@,
        }
    }
}

/// A run whose approval was accepted.
#[derive(Debug)]
pub struct StartedRun {
    pub plan: PlanRecord,
    pub started_at: String,
    pub command: Vec<String>,
}

/// What a [`StartedRun`] holds.
#[verifier::ext_equal]
pub struct StartedView {
    pub plan: records::PlanView,
    pub started_at: Seq<char>,
    pub command: Seq<Seq<char>>,
}

impl View for StartedRun {
    type V = StartedView;

    open spec fn view(&self) -> StartedView {
        StartedView {
            plan: self.plan@,
            started_at: self.started_at@,
            command: text::texts(self.command@),
        }
    }
}

/// The exit code of a comparison and the number of differences that it named.
pub type Comparison = (i32, usize);

/// How far a run has come: what it waits for.
#[derive(Debug)]
pub enum RunState {
    /// It has not begun.
    Start,
    /// Whether there is a result already.
    FindResult,
    /// The result that is there.
    ReadResult,
    /// The plan.
    ReadPlan,
    /// The request of the plan.
    ReadRequest(PlanRecord),
    /// The configuration of the job as it is now.
    Serialize(PlanRecord, RequestRecord),
    /// The lock of the job.
    Lock(StartedRun),
    /// The transfer.
    Transfer(StartedRun),
    /// The comparison after the transfer.
    Compare(StartedRun),
    /// The local copy of the completion marker.
    Marker(StartedRun, CompletionRecord),
    /// The upload of the completion marker.
    Upload(StartedRun, CompletionRecord),
    /// The mark that the run is complete.
    Complete(StartedRun),
    /// The result in the directory of the run.
    WriteResult(RunRecord),
    /// The result as the latest one of the job.
    WriteLatest(RunRecord),
}

/// What a [`RunState`] holds.
#[verifier::ext_equal]
pub enum RunPhase {
    Start,
    FindResult,
    ReadResult,
    ReadPlan,
    ReadRequest(records::PlanView),
    Serialize(records::PlanView, records::RequestView),
    Lock(StartedView),
    Transfer(StartedView),
    Compare(StartedView),
    Marker(StartedView, records::CompletionView),
    Upload(StartedView, records::CompletionView),
    Complete(StartedView),
    WriteResult(records::RunView),
    WriteLatest(records::RunView),
}

impl View for RunState {
    type V = RunPhase;

    open spec fn view(&self) -> RunPhase {
        match self {
            RunState::Start => RunPhase::Start,
            RunState::FindResult => RunPhase::FindResult,
            RunState::ReadResult => RunPhase::ReadResult,
            RunState::ReadPlan => RunPhase::ReadPlan,
            RunState::ReadRequest(p) => RunPhase::ReadRequest(p@),
            RunState::Serialize(p, q) => RunPhase::Serialize(p@, q@),
            RunState::Lock(s) => RunPhase::Lock(s@),
            RunState::Transfer(s) => RunPhase::Transfer(s@),
            RunState::Compare(s) => RunPhase::Compare(s@),
            RunState::Marker(s, c) => RunPhase::Marker(s@, c@),
            RunState::Upload(s, c) => RunPhase::Upload(s@, c@),
            RunState::Complete(s) => RunPhase::Complete(s@),
            RunState::WriteResult(r) => RunPhase::WriteResult(r@),
            RunState::WriteLatest(r) => RunPhase::WriteLatest(r@),
        }
    }
}

/// Whether an event is one that a run waits for.
pub open spec fn expects(phase: RunPhase, event: step::EventView) -> bool {
    match phase {
        RunPhase::Start => event is Begin,
        RunPhase::FindResult => event is Found,
        RunPhase::ReadResult => event is Run || event is Failed,
        RunPhase::ReadPlan => event is Plan || event is Failed,
        RunPhase::ReadRequest(_) => event is Request || event is Failed,
        RunPhase::Serialize(_, _) => event is Serialized,
        RunPhase::Transfer(_) | RunPhase::Compare(_) | RunPhase::Upload(_, _) => event is Output
            || event is Failed,
        _ => event is Done || event is Failed,
    }
}

// ---------------------------------------------------------------------------
// Approval
// ---------------------------------------------------------------------------
/// Why a stored plan is not the one that was approved.
pub open spec fn approval_fault(
    input: RunInput,
    plan: records::PlanView,
    request: records::RequestView,
) -> Option<error::ErrorView> {
    if plan.job_id != input.job_id || request.job_id != input.job_id {
        Some(
            error::plain_error(
                "plan_job_mismatch"@,
                "stored plan belongs to a different job"@,
                false,
                "Use the job id returned by hpc-sync plan."@,
            ),
        )
    } else if input.approval != plan.plan_hash {
        Some(
            error::plain_error(
                "approval_mismatch"@,
                "approval does not match the stored plan hash"@,
                false,
                "Pass the exact plan_hash returned by hpc-sync plan."@,
            ),
        )
    } else {
        None
    }
}

/// Why a stored plan no longer fits the configuration.
pub open spec fn change_fault(
    input: RunInput,
    plan: records::PlanView,
    request: records::RequestView,
    payload: Result<Seq<char>, Seq<char>>,
) -> Option<error::ErrorView> {
    match common::hashed(input.config, input.job_id, payload) {
        Err(e) => Some(e),
        Ok(hash) => if hash != plan.config_hash || hash != request.config_hash {
            Some(
                error::plain_error(
                    "config_changed"@,
                    "job configuration changed after planning"@,
                    false,
                    "Create and review a new plan."@,
                ),
            )
        } else {
            None
        },
    }
}

/// Checks that a stored plan is the one that was approved.
pub fn validate_approval(run: &RunRequest<'_>, plan: &PlanRecord, request: &RequestRecord) -> (r:
    AppResult<()>)
    ensures
        error::fault(r) == approval_fault(run@, plan@, request@),
{
    if !text::same_text(&plan.job_id, run.job_id) || !text::same_text(&request.job_id, run.job_id) {
        return Err(
            AppError::new(
                "plan_job_mismatch",
                "stored plan belongs to a different job".to_owned(),
                false,
                "Use the job id returned by hpc-sync plan.",
            ),
        );
    }
    if !text::same_text(run.approval, &plan.plan_hash) {
        return Err(
            AppError::new(
                "approval_mismatch",
                "approval does not match the stored plan hash".to_owned(),
                false,
                "Pass the exact plan_hash returned by hpc-sync plan.",
            ),
        );
    }
    Ok(())
}

/// Checks that the configuration is still the one that was planned with.
pub fn validate_unchanged(
    run: &RunRequest<'_>,
    plan: &PlanRecord,
    request: &RequestRecord,
    payload: &Result<String, String>,
) -> (r: AppResult<()>)
    ensures
        error::fault(r) == change_fault(run@, plan@, request@, step::text_result(*payload)),
{
    match common::config_hash(run.config, run.job_id, payload) {
        Err(e) => Err(e),
        Ok(hash) => {
            if !text::same_text(&hash, &plan.config_hash) || !text::same_text(
                &hash,
                &request.config_hash,
            ) {
                Err(
                    AppError::new(
                        "config_changed",
                        "job configuration changed after planning".to_owned(),
                        false,
                        "Create and review a new plan.",
                    ),
                )
            } else {
                Ok(())
            }
        },
    }
}

// ---------------------------------------------------------------------------
// Results
// ---------------------------------------------------------------------------
/// How a run ended.
#[derive(Debug)]
pub struct Ending {
    pub status: RunStatus,
    pub rsync_exit_code: i32,
    pub class: ExitClass,
    pub comparison: Option<Comparison>,
    pub marker_exit_code: Option<i32>,
    pub next_action: String,
}

/// What an [`Ending`] holds.
#[verifier::ext_equal]
pub struct EndingView {
    pub status: RunStatus,
    pub rsync_exit_code: i32,
    pub class: (Seq<char>, bool),
    pub comparison: Option<Comparison>,
    pub marker_exit_code: Option<i32>,
    pub next_action: Seq<char>,
}

impl View for Ending {
    type V = EndingView;

    open spec fn view(&self) -> EndingView {
        EndingView {
            status: self.status,
            rsync_exit_code: self.rsync_exit_code,
            class: (self.class.name@, self.class.retryable),
            comparison: self.comparison,
            marker_exit_code: self.marker_exit_code,
            next_action: self.next_action@,
        }
    }
}

/// Where a run is kept.
pub open spec fn place(input: RunInput) -> Seq<u8> {
    common::run_place(input.config.state_dir, input.job_id, input.plan_run_id)
}

/// Where the mark of a complete run lies.
pub open spec fn completed_place(input: RunInput) -> Seq<u8> {
    common::under(place(input), "COMPLETED"@)
}

/// The advice to look at a file of a run.
pub open spec fn inspect_advice(input: RunInput, name: Seq<char>) -> Seq<char> {
    "Inspect "@ + path::lossy(common::under(place(input), name))
}

/// The result of a run that ended in a given way.
pub open spec fn run_result(
    input: RunInput,
    run: StartedView,
    ending: EndingView,
    finished_at: Seq<char>,
) -> records::RunView {
    records::RunView {
        schema_version: 1,
        operation: "run"@,
        status: ending.status,
        job_id: input.job_id,
        run_id: input.plan_run_id,
        config_hash: run.plan.config_hash,
        plan_hash: run.plan.plan_hash,
        previous_run_id: run.plan.previous_run_id,
        snapshot_path: run.plan.snapshot_path,
        started_at: run.started_at,
        finished_at,
        rsync_exit_code: ending.rsync_exit_code,
        classification: ending.class.0,
        retryable: ending.class.1,
        verify_exit_code: match ending.comparison {
            Some(c) => Some(c.0),
            None => None,
        },
        verify_item_count: match ending.comparison {
            Some(c) => Some(c.1),
            None => None,
        },
        marker_exit_code: ending.marker_exit_code,
        run_dir: place(input),
        completed_marker: if ending.status == RunStatus::Success {
            Some(completed_place(input))
        } else {
            None
        },
        command: run.command,
        next_actions: seq![ending.next_action],
    }
}

/// How a run ends whose transfer failed.
pub open spec fn transfer_failed(input: RunInput, output: process::OutputView) -> EndingView {
    EndingView {
        status: RunStatus::Failed,
        rsync_exit_code: output.exit_code,
        class: exit_class::class_of(output.exit_code as int, output.stderr),
        comparison: None,
        marker_exit_code: None,
        next_action: inspect_advice(input, "rsync.stderr"@),
    }
}

/// How a run ends whose comparison failed or named differences.
pub open spec fn comparison_failed(input: RunInput, output: process::OutputView) -> EndingView {
    let class = exit_class::class_of(output.exit_code as int, output.stderr);
    EndingView {
        status: RunStatus::VerificationFailed,
        rsync_exit_code: 0,
        class: if output.exit_code == 0 {
            ("verification_mismatch"@, true)
        } else {
            class
        },
        comparison: Some((output.exit_code, process::item_count(output.stdout) as usize)),
        marker_exit_code: None,
        next_action: inspect_advice(input, "verify.stdout"@),
    }
}

/// How a run ends whose completion marker was not uploaded.
pub open spec fn upload_failed(input: RunInput, output: process::OutputView) -> EndingView {
    EndingView {
        status: RunStatus::Failed,
        rsync_exit_code: 0,
        class: exit_class::class_of(output.exit_code as int, output.stderr),
        comparison: Some((0, 0)),
        marker_exit_code: Some(output.exit_code),
        next_action: inspect_advice(input, "marker.stderr"@),
    }
}

/// How a complete run ends.
pub open spec fn succeeded(input: RunInput) -> EndingView {
    EndingView {
        status: RunStatus::Success,
        rsync_exit_code: 0,
        class: ("success"@, false),
        comparison: Some((0, 0)),
        marker_exit_code: Some(0),
        next_action: "hpc-sync verify "@ + input.job_id + " --run-id "@ + input.plan_run_id
            + " --checksum --json"@,
    }
}

/// The completion marker of a run.
pub open spec fn completion(input: RunInput, run: StartedView, completed_at: Seq<char>) ->
    records::CompletionView {
    records::CompletionView {
        schema_version: 1,
        job_id: input.job_id,
        run_id: input.plan_run_id,
        config_hash: run.plan.config_hash,
        snapshot_path: run.plan.snapshot_path,
        completed_at,
    }
}

// ---------------------------------------------------------------------------
// The machine
// ---------------------------------------------------------------------------
/// What a step of a run says.
pub type RunStep = step::StepView<RunPhase, records::RunView>;

/// Asks to run a command of a run, with its output in two files of the run.
pub open spec fn execution(
    input: RunInput,
    job: config::JobView,
    command: Seq<Seq<char>>,
    stdout: Seq<char>,
    stderr: Seq<char>,
) -> step::ActionView {
    step::ActionView::Execute(
        process::ExecutionView {
            command,
            timeout_seconds: job.max_runtime_seconds,
            stdout_path: common::under(place(input), stdout),
            stderr_path: common::under(place(input), stderr),
        },
    )
}

/// A run that ended is written down.
pub open spec fn persisted(input: RunInput, result: records::RunView) -> RunStep {
    step::StepView::Continue(
        RunPhase::WriteResult(result),
        step::ActionView::WriteRun(common::under(place(input), "result.json"@), result),
    )
}

/// Asks for the plan.
pub open spec fn asked_for_plan(input: RunInput) -> RunStep {
    step::StepView::Continue(
        RunPhase::ReadPlan,
        step::ActionView::ReadPlan(common::under(place(input), "plan.json"@)),
    )
}

/// A run whose approval was accepted begins, unless its transfer cannot be built.
pub open spec fn started(
    input: RunInput,
    job: config::JobView,
    plan: records::PlanView,
    now: Seq<char>,
) -> RunStep {
    match rsync::transfer_fault(job, input.plan_run_id, plan.previous_run_id) {
        Some(e) => step::StepView::Finish(Err(e)),
        None => step::StepView::Continue(
            RunPhase::Lock(
                StartedView {
                    plan,
                    started_at: now,
                    command: rsync::transfer_command(
                        job,
                        input.plan_run_id,
                        plan.previous_run_id,
                        false,
                    ),
                },
            ),
            step::ActionView::Lock(common::lock_place(input.config.state_dir, input.job_id)),
        ),
    }
}

/// A run whose data is in place writes the completion marker that is to be uploaded.
pub open spec fn marked(input: RunInput, run: StartedView, now: Seq<char>) -> RunStep {
    step::StepView::Continue(
        RunPhase::Marker(run, completion(input, run, now)),
        step::ActionView::WriteCompletion(
            common::under(place(input), "remote-complete.json"@),
            completion(input, run, now),
        ),
    )
}

/// What follows a transfer: one that ended well is always compared.
pub open spec fn after_transfer(
    input: RunInput,
    job: config::JobView,
    run: StartedView,
    output: process::OutputView,
    now: Seq<char>,
) -> RunStep {
    if output.exit_code != 0 {
        persisted(input, run_result(input, run, transfer_failed(input, output), now))
    } else {
        match rsync::endpoints_fault(job, input.plan_run_id) {
            Some(e) => step::StepView::Finish(Err(e)),
            None => step::StepView::Continue(
                RunPhase::Compare(run),
                execution(
                    input,
                    job,
                    rsync::verify_command(job, input.plan_run_id, false),
                    "verify.stdout"@,
                    "verify.stderr"@,
                ),
            ),
        }
    }
}

/// What follows a comparison.
pub open spec fn after_comparison(
    input: RunInput,
    run: StartedView,
    output: process::OutputView,
    now: Seq<char>,
) -> RunStep {
    if output.exit_code != 0 || process::item_count(output.stdout) != 0 {
        persisted(input, run_result(input, run, comparison_failed(input, output), now))
    } else {
        marked(input, run, now)
    }
}

/// What follows the local completion marker.
pub open spec fn after_marker(
    input: RunInput,
    job: config::JobView,
    run: StartedView,
    marker: records::CompletionView,
) -> RunStep {
    let local = common::under(place(input), "remote-complete.json"@);
    match rsync::marker_fault(job, input.plan_run_id, local) {
        Some(e) => step::StepView::Finish(Err(e)),
        None => step::StepView::Continue(
            RunPhase::Upload(run, marker),
            execution(
                input,
                job,
                rsync::marker_command(job, input.plan_run_id, local),
                "marker.stdout"@,
                "marker.stderr"@,
            ),
        ),
    }
}

/// What follows the upload of the completion marker.
pub open spec fn after_upload(
    input: RunInput,
    run: StartedView,
    marker: records::CompletionView,
    output: process::OutputView,
    now: Seq<char>,
) -> RunStep {
    if output.exit_code != 0 {
        persisted(input, run_result(input, run, upload_failed(input, output), now))
    } else {
        step::StepView::Continue(
            RunPhase::Complete(run),
            step::ActionView::WriteCompletion(completed_place(input), marker),
        )
    }
}

/// What a run does next. Whatever fails ends it, and so does a job that is not defined.
pub open spec fn run_next(
    input: RunInput,
    phase: RunPhase,
    event: step::EventView,
    now: Seq<char>,
) -> RunStep {
    match config::find_job(input.config.jobs, input.job_id) {
        None => step::StepView::Finish(Err(config::unknown_job(input.job_id))),
        Some(job) => if let step::EventView::Failed(e) = event {
            step::StepView::Finish(Err(e))
        } else {
            match phase {
                RunPhase::Start => step::StepView::Continue(
                    RunPhase::FindResult,
                    step::ActionView::FindFile(common::under(place(input), "result.json"@)),
                ),
                RunPhase::FindResult => if event->Found_0 {
                    step::StepView::Continue(
                        RunPhase::ReadResult,
                        step::ActionView::ReadRun(common::under(place(input), "result.json"@)),
                    )
                } else {
                    asked_for_plan(input)
                },
                RunPhase::ReadResult => if event->Run_0.status == RunStatus::Success {
                    step::StepView::Finish(Ok(event->Run_0))
                } else {
                    asked_for_plan(input)
                },
                RunPhase::ReadPlan => step::StepView::Continue(
                    RunPhase::ReadRequest(event->Plan_0),
                    step::ActionView::ReadRequest(common::under(place(input), "request.json"@)),
                ),
                RunPhase::ReadRequest(plan) => match approval_fault(input, plan, event->Request_0) {
                    Some(e) => step::StepView::Finish(Err(e)),
                    None => step::StepView::Continue(
                        RunPhase::Serialize(plan, event->Request_0),
                        step::ActionView::SerializeJob,
                    ),
                },
                RunPhase::Serialize(plan, request) => match change_fault(
                    input,
                    plan,
                    request,
                    event->Serialized_0,
                ) {
                    Some(e) => step::StepView::Finish(Err(e)),
                    None => started(input, job, plan, now),
                },
                RunPhase::Lock(run) => step::StepView::Continue(
                    RunPhase::Transfer(run),
                    execution(input, job, run.command, "rsync.stdout"@, "rsync.stderr"@),
                ),
                RunPhase::Transfer(run) => after_transfer(input, job, run, event->Output_0, now),
                RunPhase::Compare(run) => after_comparison(input, run, event->Output_0, now),
                RunPhase::Marker(run, marker) => after_marker(input, job, run, marker),
                RunPhase::Upload(run, marker) => after_upload(
                    input,
                    run,
                    marker,
                    event->Output_0,
                    now,
                ),
                RunPhase::Complete(run) => persisted(
                    input,
                    run_result(input, run, succeeded(input), now),
                ),
                RunPhase::WriteResult(result) => step::StepView::Continue(
                    RunPhase::WriteLatest(result),
                    step::ActionView::WriteRun(
                        common::latest_place(input.config.state_dir, input.job_id),
                        result,
                    ),
                ),
                RunPhase::WriteLatest(result) => step::StepView::Finish(Ok(result)),
            }
        },
    }
}

/// The directory of a run.
fn dir_of(input: &RunRequest<'_>) -> (r: FilePath)
    ensures
        r@ == place(input@),
{
    common::run_dir(input.config, input.job_id, input.plan_run_id)
}

/// The advice to look at a file of a run.
fn advice(input: &RunRequest<'_>, name: &str) -> (r: String)
    ensures
        r@ == inspect_advice(input@, name@),
{
    text::cat2("Inspect ", &dir_of(input).join_text(name).display())
}

/// Writes down how a run ended.
fn persist(input: &RunRequest<'_>, run: StartedRun, ending: Ending, now: Moment) -> (r: Step<
    RunState,
    RunRecord,
>)
    requires
        moment::in_calendar(now),
    ensures
        r@ == persisted(
            input@,
            run_result(input@, run@, ending@, moment::rfc3339(now.seconds, now.nanos)),
        ),
{
    let dir: FilePath = dir_of(input);
    let result: RunRecord = RunRecord {
        schema_version: 1,
        operation: "run".to_owned(),
        status: ending.status,
        job_id: input.job_id.to_owned(),
        run_id: input.plan_run_id.to_owned(),
        config_hash: run.plan.config_hash,
        plan_hash: run.plan.plan_hash,
        previous_run_id: run.plan.previous_run_id,
        snapshot_path: run.plan.snapshot_path,
        started_at: run.started_at,
        finished_at: moment::moment_text(now),
        rsync_exit_code: ending.rsync_exit_code,
        classification: ending.class.name.to_owned(),
        retryable: ending.class.retryable,
        verify_exit_code: match ending.comparison {
            Some(c) => Some(c.0),
            None => None,
        },
        verify_item_count: match ending.comparison {
            Some(c) => Some(c.1),
            None => None,
        },
        marker_exit_code: ending.marker_exit_code,
        run_dir: dir.copy(),
        completed_marker: if ending.status == RunStatus::Success {
            Some(dir.join_text("COMPLETED"))
        } else {
            None
        },
        command: run.command,
        next_actions: text::one_text(ending.next_action),
    };
    let copy: RunRecord = result.copy();
    Step::Continue(
        RunState::WriteResult(result),
        Action::WriteRun(dir.join_text("result.json"), copy),
    )
}

/// Asks for the plan of a run.
fn ask_for_plan(input: &RunRequest<'_>) -> (r: Step<RunState, RunRecord>)
    ensures
        r@ == asked_for_plan(input@),
{
    Step::Continue(RunState::ReadPlan, Action::ReadPlan(dir_of(input).join_text("plan.json")))
}

/// Asks to run a command of a run.
fn execute(
    input: &RunRequest<'_>,
    job: &JobConfig,
    command: Vec<String>,
    stdout: &str,
    stderr: &str,
) -> (r: Action)
    ensures
        r@ == execution(input@, job@, text::texts(command@), stdout@, stderr@),
{
    let dir: FilePath = dir_of(input);
    Action::Execute(
        Execution {
            command,
            timeout_seconds: job.max_runtime_seconds,
            stdout_path: dir.join_text(stdout),
            stderr_path: dir.join_text(stderr),
        },
    )
}

/// Begins a run whose approval was accepted.
fn start(input: &RunRequest<'_>, job: &JobConfig, plan: PlanRecord, now: Moment) -> (r: Step<
    RunState,
    RunRecord,
>)
    requires
        moment::in_calendar(now),
    ensures
        r@ == started(input@, job@, plan@, moment::rfc3339(now.seconds, now.nanos)),
{
    let previous: Option<&str> = match &plan.previous_run_id {
        Some(p) => Some(p.as_str()),
        None => None,
    };
    proof {
        assert(text::optional_str(previous) == plan@.previous_run_id);
    }
    match rsync::build_transfer(
        TransferRequest {
            job,
            run_id: input.plan_run_id,
            previous_run_id: previous,
            dry_run: false,
        },
    ) {
        Err(e) => Step::Finish(Err(e)),
        Ok(command) => Step::Continue(
            RunState::Lock(StartedRun { plan, started_at: moment::moment_text(now), command }),
            Action::Lock(common::lock_path(input.config, input.job_id)),
        ),
    }
}

/// Writes the completion marker that is to be uploaded.
fn mark(input: &RunRequest<'_>, run: StartedRun, now: Moment) -> (r: Step<RunState, RunRecord>)
    requires
        moment::in_calendar(now),
    ensures
        r@ == marked(input@, run@, moment::rfc3339(now.seconds, now.nanos)),
{
    let marker: CompletionRecord = CompletionRecord {
        schema_version: 1,
        job_id: input.job_id.to_owned(),
        run_id: input.plan_run_id.to_owned(),
        config_hash: run.plan.config_hash.clone(),
        snapshot_path: run.plan.snapshot_path.clone(),
        completed_at: moment::moment_text(now),
    };
    let copy: CompletionRecord = marker.copy();
    Step::Continue(
        RunState::Marker(run, marker),
        Action::WriteCompletion(dir_of(input).join_text("remote-complete.json"), copy),
    )
}

/// Goes on after a transfer.
fn finish_transfer(
    input: &RunRequest<'_>,
    job: &JobConfig,
    run: StartedRun,
    output: process::CommandOutput,
    now: Moment,
) -> (r: Step<RunState, RunRecord>)
    requires
        moment::in_calendar(now),
    ensures
        r@ == after_transfer(
            input@,
            job@,
            run@,
            output@,
            moment::rfc3339(now.seconds, now.nanos),
        ),
{
    if output.exit_code != 0 {
        let ending: Ending = Ending {
            status: RunStatus::Failed,
            rsync_exit_code: output.exit_code,
            class: exit_class::classify_exit(output.exit_code, &output.stderr),
            comparison: None,
            marker_exit_code: None,
            next_action: advice(input, "rsync.stderr"),
        };
        return persist(input, run, ending, now);
    }
    match rsync::build_verify(job, input.plan_run_id, false) {
        Err(e) => Step::Finish(Err(e)),
        Ok(command) => {
            let action: Action = execute(input, job, command, "verify.stdout", "verify.stderr");
            Step::Continue(RunState::Compare(run), action)
        },
    }
}

/// Goes on after a comparison.
fn finish_comparison(
    input: &RunRequest<'_>,
    run: StartedRun,
    output: process::CommandOutput,
    now: Moment,
) -> (r: Step<RunState, RunRecord>)
    requires
        moment::in_calendar(now),
    ensures
        r@ == after_comparison(input@, run@, output@, moment::rfc3339(now.seconds, now.nanos)),
{
    let items: usize = process::count_itemized_changes(&output.stdout);
    if output.exit_code == 0 && items == 0 {
        return mark(input, run, now);
    }
    let class: ExitClass = if output.exit_code == 0 {
        ExitClass { name: "verification_mismatch", retryable: true }
    } else {
        exit_class::classify_exit(output.exit_code, &output.stderr)
    };
    let ending: Ending = Ending {
        status: RunStatus::VerificationFailed,
        rsync_exit_code: 0,
        class,
        comparison: Some((output.exit_code, items)),
        marker_exit_code: None,
        next_action: advice(input, "verify.stdout"),
    };
    persist(input, run, ending, now)
}

/// Uploads the completion marker.
fn upload(
    input: &RunRequest<'_>,
    job: &JobConfig,
    run: StartedRun,
    marker: CompletionRecord,
) -> (r: Step<RunState, RunRecord>)
    ensures
        r@ == after_marker(input@, job@, run@, marker@),
{
    let local: FilePath = dir_of(input).join_text("remote-complete.json");
    match rsync::build_marker(job, input.plan_run_id, &local) {
        Err(e) => Step::Finish(Err(e)),
        Ok(command) => {
            let action: Action = execute(input, job, command, "marker.stdout", "marker.stderr");
            Step::Continue(RunState::Upload(run, marker), action)
        },
    }
}

/// Goes on after the upload of the completion marker.
fn finish_upload(
    input: &RunRequest<'_>,
    run: StartedRun,
    marker: CompletionRecord,
    output: process::CommandOutput,
    now: Moment,
) -> (r: Step<RunState, RunRecord>)
    requires
        moment::in_calendar(now),
    ensures
        r@ == after_upload(
            input@,
            run@,
            marker@,
            output@,
            moment::rfc3339(now.seconds, now.nanos),
        ),
{
    if output.exit_code != 0 {
        let ending: Ending = Ending {
            status: RunStatus::Failed,
            rsync_exit_code: 0,
            class: exit_class::classify_exit(output.exit_code, &output.stderr),
            comparison: Some((0, 0)),
            marker_exit_code: Some(output.exit_code),
            next_action: advice(input, "marker.stderr"),
        };
        return persist(input, run, ending, now);
    }
    Step::Continue(
        RunState::Complete(run),
        Action::WriteCompletion(dir_of(input).join_text("COMPLETED"), marker),
    )
}

/// Ends a complete run.
fn succeed(input: &RunRequest<'_>, run: StartedRun, now: Moment) -> (r: Step<RunState, RunRecord>)
    requires
        moment::in_calendar(now),
    ensures
        r@ == persisted(
            input@,
            run_result(
                input@,
                run@,
                succeeded(input@),
                moment::rfc3339(now.seconds, now.nanos),
            ),
        ),
{
    let ending: Ending = Ending {
        status: RunStatus::Success,
        rsync_exit_code: 0,
        class: ExitClass { name: "success", retryable: false },
        comparison: Some((0, 0)),
        marker_exit_code: Some(0),
        next_action: text::cat5(
            "hpc-sync verify ",
            input.job_id,
            " --run-id ",
            input.plan_run_id,
            " --checksum --json",
        ),
    };
    persist(input, run, ending, now)
}

/// One step of a run at a given moment: takes the answer to what was asked for last, and says what
/// is asked for next or how the run ended.
pub fn run_job_at(input: RunRequest<'_>, state: RunState, event: Event, now: Moment) -> (r: Step<
    RunState,
    RunRecord,
>)
    requires
        expects(state@, event@),
        moment::in_calendar(now),
    ensures
        r@ == run_next(input@, state@, event@, moment::rfc3339(now.seconds, now.nanos)),
{
    let job: &JobConfig = match input.config.job(input.job_id) {
        Err(e) => {
            return Step::Finish(Err(e));
        },
        Ok(job) => job,
    };
    match (state, event) {
        (_, Event::Failed(e)) => Step::Finish(Err(e)),
        (RunState::Start, _) => Step::Continue(
            RunState::FindResult,
            Action::FindFile(dir_of(&input).join_text("result.json")),
        ),
        (RunState::FindResult, Event::Found(found)) => if found {
            Step::Continue(
                RunState::ReadResult,
                Action::ReadRun(dir_of(&input).join_text("result.json")),
            )
        } else {
            ask_for_plan(&input)
        },
        (RunState::ReadResult, Event::Run(existing)) => if existing.status == RunStatus::Success {
            Step::Finish(Ok(existing))
        } else {
            ask_for_plan(&input)
        },
        (RunState::ReadPlan, Event::Plan(plan)) => Step::Continue(
            RunState::ReadRequest(plan),
            Action::ReadRequest(dir_of(&input).join_text("request.json")),
        ),
        (RunState::ReadRequest(plan), Event::Request(request)) => match validate_approval(
            &input,
            &plan,
            &request,
        ) {
            Err(e) => Step::Finish(Err(e)),
            Ok(_) => Step::Continue(RunState::Serialize(plan, request), Action::SerializeJob),
        },
        (RunState::Serialize(plan, request), Event::Serialized(payload)) => match validate_unchanged(
            &input,
            &plan,
            &request,
            &payload,
        ) {
            Err(e) => Step::Finish(Err(e)),
            Ok(_) => start(&input, job, plan, now),
        },
        (RunState::Lock(run), _) => {
            let command: Vec<String> = text::copy_texts(&run.command);
            let action: Action = execute(&input, job, command, "rsync.stdout", "rsync.stderr");
            Step::Continue(RunState::Transfer(run), action)
        },
        (RunState::Transfer(run), Event::Output(output)) => finish_transfer(
            &input,
            job,
            run,
            output,
            now,
        ),
        (RunState::Compare(run), Event::Output(output)) => finish_comparison(
            &input,
            run,
            output,
            now,
        ),
        (RunState::Marker(run, marker), _) => upload(&input, job, run, marker),
        (RunState::Upload(run, marker), Event::Output(output)) => finish_upload(
            &input,
            run,
            marker,
            output,
            now,
        ),
        (RunState::Complete(run), _) => succeed(&input, run, now),
        (RunState::WriteResult(result), _) => {
            let copy: RunRecord = result.copy();
            Step::Continue(
                RunState::WriteLatest(result),
                Action::WriteRun(common::latest_path(input.config, input.job_id), copy),
            )
        },
        (RunState::WriteLatest(result), _) => Step::Finish(Ok(result)),
        (_, _) => vstd::pervasive::unreached(),
    }
}

/// One step of a run at the current moment.
pub fn run_job(input: RunRequest<'_>, state: RunState, event: Event) -> (r: Step<
    RunState,
    RunRecord,
>)
    requires
        expects(state@, event@),
    ensures
        exists|now: Moment|
            moment::in_calendar(now) && r@ == run_next(
                input@,
                state@,
                event@,
                #[trigger] moment::rfc3339(now.seconds, now.nanos),
            ),
{
    let now: Moment = moment::current_moment();
    run_job_at(input, state, event, now)
}

} // verus!
