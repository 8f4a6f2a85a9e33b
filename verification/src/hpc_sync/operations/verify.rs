//! Comparing a recovery point with the current source.
use super::super::config;
use super::super::config::{AppConfig, JobConfig};
use super::super::error;
use super::super::error::{AppError, AppResult};
use super::super::exit_class;
use super::super::exit_class::ExitClass;
use super::super::moment;
use super::super::moment::Moment;
use super::super::process;
use super::super::process::{CommandOutput, Execution};
use super::super::records;
use super::super::records::{PlanRecord, RequestRecord, VerifyRecord, VerifyStatus};
use super::super::rsync;
use super::common;
use super::step;
use super::step::{Action, Event, Step};
use crate::path::FilePath;
use crate::{path, text};
use vstd::prelude::*;

verus! {

/// A recovery point that is to be compared.
pub struct VerifyRequest<'a> {
    pub config: &'a AppConfig,
    pub job_id: &'a str,
    pub run_id: &'a str,
    pub checksum: bool,
}

/// What a [`VerifyRequest`] holds.
#[verifier::ext_equal]
pub struct VerifyInput {
    pub config: config::ConfigView,
    pub job_id: Seq<char>,
    pub run_id: Seq<char>,
    pub checksum: bool,
}

impl View for VerifyRequest<'_> {
    type V = VerifyInput;

    open spec fn view(&self) -> VerifyInput {
        VerifyInput {
            config: self.config@,
            job_id: self.job_id@,
            run_id: self.run_id@,
            checksum: self.checksum,
        }
    }
}

/// A comparison that was begun.
#[derive(Debug)]
pub struct StartedComparison {
    pub snapshot_path: String,
    pub started_at: String,
    pub command: Vec<String>,
}

/// What a [`StartedComparison`] holds.
#[verifier::ext_equal]
pub struct ComparisonView {
    pub snapshot_path: Seq<char>,
    pub started_at: Seq<char>,
    pub command: Seq<Seq<char>>,
}

impl View for StartedComparison {
    type V = ComparisonView;

    open spec fn view(&self) -> ComparisonView {
        ComparisonView {
            snapshot_path: self.snapshot_path@,
            started_at: self.started_at@,
            command: text::texts(self.command@),
        }
    }
}

/// How far a comparison has come: what it waits for.
#[derive(Debug)]
pub enum VerifyState {
    /// It has not begun.
    Start,
    /// The plan of the recovery point.
    ReadPlan,
    /// The request of the plan.
    ReadRequest(PlanRecord),
    /// The configuration of the job as it is now.
    Serialize(PlanRecord, RequestRecord),
    /// The lock of the job.
    Lock(StartedComparison),
    /// The comparison.
    Compare(StartedComparison),
    /// The result.
    Write(VerifyRecord),
}

/// What a [`VerifyState`] holds.
#[verifier::ext_equal]
pub enum VerifyPhase {
    Start,
    ReadPlan,
    ReadRequest(records::PlanView),
    Serialize(records::PlanView, records::RequestView),
    Lock(ComparisonView),
    Compare(ComparisonView),
    Write(records::VerifyView),
}

impl View for VerifyState {
    type V = VerifyPhase;

    open spec fn view(&self) -> VerifyPhase {
        match self {
            VerifyState::Start => VerifyPhase::Start,
            VerifyState::ReadPlan => VerifyPhase::ReadPlan,
            VerifyState::ReadRequest(p) => VerifyPhase::ReadRequest(p@),
            VerifyState::Serialize(p, q) => VerifyPhase::Serialize(p@, q@),
            VerifyState::Lock(s) => VerifyPhase::Lock(s@),
            VerifyState::Compare(s) => VerifyPhase::Compare(s@),
            VerifyState::Write(r) => VerifyPhase::Write(r@),
        }
    }
}

/// Whether an event is one that a comparison waits for.
pub open spec fn expects(phase: VerifyPhase, event: step::EventView) -> bool {
    match phase {
        VerifyPhase::Start => event is Begin,
        VerifyPhase::ReadPlan => event is Plan || event is Failed,
        VerifyPhase::ReadRequest(_) => event is Request || event is Failed,
        VerifyPhase::Serialize(_, _) => event is Serialized,
        VerifyPhase::Compare(_) => event is Output || event is Failed,
        _ => event is Done || event is Failed,
    }
}

/// Why a recovery point no longer fits the configuration.
pub open spec fn change_fault(
    input: VerifyInput,
    request: records::RequestView,
    payload: Result<Seq<char>, Seq<char>>,
) -> Option<error::ErrorView> {
    match common::hashed(input.config, input.job_id, payload) {
        Err(e) => Some(e),
        Ok(hash) => if hash != request.config_hash {
            Some(
                error::plain_error(
                    "config_changed"@,
                    "current configuration differs from the recovery point"@,
                    false,
                    "Restore the audited config before verifying this recovery point."@,
                ),
            )
        } else {
            None
        },
    }
}

/// Checks that the configuration is still that of the recovery point.
fn validate_unchanged(
    input: &VerifyRequest<'_>,
    request: &RequestRecord,
    payload: &Result<String, String>,
) -> (r: AppResult<()>)
    ensures
        error::fault(r) == change_fault(input@, request@, step::text_result(*payload)),
{
    match common::config_hash(input.config, input.job_id, payload) {
        Err(e) => Err(e),
        Ok(hash) => if text::same_text(&hash, &request.config_hash) {
            Ok(())
        } else {
            Err(
                AppError::new(
                    "config_changed",
                    "current configuration differs from the recovery point".to_owned(),
                    false,
                    "Restore the audited config before verifying this recovery point.",
                ),
            )
        },
    }
}

/// The file of a comparison with a given ending. Comparisons by checksum and by time and size do
/// not share their files.
pub open spec fn file_place(input: VerifyInput, ending: Seq<char>) -> Seq<u8> {
    let kind = if input.checksum {
        "checksum"@
    } else {
        "quick"@
    };
    common::under(
        common::run_place(input.config.state_dir, input.job_id, input.run_id),
        "verify-"@ + kind + ending,
    )
}

/// The file of a comparison with a given ending.
fn file_path(input: &VerifyRequest<'_>, ending: &str) -> (r: FilePath)
    ensures
        r@ == file_place(input@, ending@),
{
    let kind: &str = if input.checksum {
        "checksum"
    } else {
        "quick"
    };
    common::run_dir(input.config, input.job_id, input.run_id).join_text(
        &text::cat3("verify-", kind, ending),
    )
}

/// How a comparison ended.
pub open spec fn verdict(output: process::OutputView) -> VerifyStatus {
    if output.exit_code != 0 {
        VerifyStatus::Failed
    } else if process::item_count(output.stdout) == 0 {
        VerifyStatus::Verified
    } else {
        VerifyStatus::Mismatch
    }
}

/// The result of a comparison.
pub open spec fn verify_result(
    input: VerifyInput,
    run: ComparisonView,
    output: process::OutputView,
    now: Seq<char>,
) -> records::VerifyView {
    let status = verdict(output);
    let class = match status {
        VerifyStatus::Verified => ("success"@, false),
        VerifyStatus::Mismatch => ("verification_mismatch"@, true),
        VerifyStatus::Failed => exit_class::class_of(output.exit_code as int, output.stderr),
    };
    records::VerifyView {
        schema_version: 1,
        operation: "verify"@,
        status,
        job_id: input.job_id,
        run_id: input.run_id,
        snapshot_path: run.snapshot_path,
        checksum: input.checksum,
        started_at: run.started_at,
        finished_at: now,
        rsync_exit_code: output.exit_code,
        item_count: process::item_count(output.stdout) as usize,
        classification: class.0,
        retryable: class.1,
        output_path: file_place(input, ".stdout"@),
        next_actions: seq![
            match status {
                VerifyStatus::Verified => "Recovery point matches the current source scope."@,
                VerifyStatus::Mismatch => "Inspect "@ + path::lossy(file_place(input, ".stdout"@)),
                VerifyStatus::Failed => "Inspect "@ + path::lossy(file_place(input, ".stderr"@)),
            },
        ],
    }
}

/// What a step of a comparison says.
pub type VerifyStep = step::StepView<VerifyPhase, records::VerifyView>;

/// A comparison begins, unless its command cannot be built.
pub open spec fn started(
    input: VerifyInput,
    job: config::JobView,
    plan: records::PlanView,
    now: Seq<char>,
) -> VerifyStep {
    match rsync::endpoints_fault(job, input.run_id) {
        Some(e) => step::StepView::Finish(Err(e)),
        None => step::StepView::Continue(
            VerifyPhase::Lock(
                ComparisonView {
                    snapshot_path: plan.snapshot_path,
                    started_at: now,
                    command: rsync::verify_command(job, input.run_id, input.checksum),
                },
            ),
            step::ActionView::Lock(common::lock_place(input.config.state_dir, input.job_id)),
        ),
    }
}

/// Asks for the comparison.
pub open spec fn compared(
    input: VerifyInput,
    job: config::JobView,
    run: ComparisonView,
) -> VerifyStep {
    step::StepView::Continue(
        VerifyPhase::Compare(run),
        step::ActionView::Execute(
            process::ExecutionView {
                command: run.command,
                timeout_seconds: job.max_runtime_seconds,
                stdout_path: file_place(input, ".stdout"@),
                stderr_path: file_place(input, ".stderr"@),
            },
        ),
    )
}

/// What follows a comparison.
pub open spec fn after_comparison(
    input: VerifyInput,
    run: ComparisonView,
    output: process::OutputView,
    now: Seq<char>,
) -> VerifyStep {
    let result = verify_result(input, run, output, now);
    step::StepView::Continue(
        VerifyPhase::Write(result),
        step::ActionView::WriteVerify(file_place(input, ".json"@), result),
    )
}

/// What a comparison does next. Whatever fails ends it, and so does a job that is not defined.
pub open spec fn verify_next(
    input: VerifyInput,
    phase: VerifyPhase,
    event: step::EventView,
    now: Seq<char>,
) -> VerifyStep {
    let dir = common::run_place(input.config.state_dir, input.job_id, input.run_id);
    match config::find_job(input.config.jobs, input.job_id) {
        None => step::StepView::Finish(Err(config::unknown_job(input.job_id))),
        Some(job) => if let step::EventView::Failed(e) = event {
            step::StepView::Finish(Err(e))
        } else {
            match phase {
                VerifyPhase::Start => step::StepView::Continue(
                    VerifyPhase::ReadPlan,
                    step::ActionView::ReadPlan(common::under(dir, "plan.json"@)),
                ),
                VerifyPhase::ReadPlan => step::StepView::Continue(
                    VerifyPhase::ReadRequest(event->Plan_0),
                    step::ActionView::ReadRequest(common::under(dir, "request.json"@)),
                ),
                VerifyPhase::ReadRequest(plan) => step::StepView::Continue(
                    VerifyPhase::Serialize(plan, event->Request_0),
                    step::ActionView::SerializeJob,
                ),
                VerifyPhase::Serialize(plan, request) => match change_fault(
                    input,
                    request,
                    event->Serialized_0,
                ) {
                    Some(e) => step::StepView::Finish(Err(e)),
                    None => started(input, job, plan, now),
                },
                VerifyPhase::Lock(run) => compared(input, job, run),
                VerifyPhase::Compare(run) => after_comparison(input, run, event->Output_0, now),
                VerifyPhase::Write(result) => step::StepView::Finish(Ok(result)),
            }
        },
    }
}

/// Begins a comparison.
fn start(input: &VerifyRequest<'_>, job: &JobConfig, plan: PlanRecord, now: Moment) -> (r: Step<
    VerifyState,
    VerifyRecord,
>)
    requires
        moment::in_calendar(now),
    ensures
        r@ == started(input@, job@, plan@, moment::rfc3339(now.seconds, now.nanos)),
{
    match rsync::build_verify(job, input.run_id, input.checksum) {
        Err(e) => Step::Finish(Err(e)),
        Ok(command) => Step::Continue(
            VerifyState::Lock(
                StartedComparison {
                    snapshot_path: plan.snapshot_path,
                    started_at: moment::moment_text(now),
                    command,
                },
            ),
            Action::Lock(common::lock_path(input.config, input.job_id)),
        ),
    }
}

/// Asks for the comparison.
fn compare_with(input: &VerifyRequest<'_>, job: &JobConfig, run: StartedComparison) -> (r: Step<
    VerifyState,
    VerifyRecord,
>)
    ensures
        r@ == compared(input@, job@, run@),
{
    let execution: Execution = Execution {
        command: text::copy_texts(&run.command),
        timeout_seconds: job.max_runtime_seconds,
        stdout_path: file_path(input, ".stdout"),
        stderr_path: file_path(input, ".stderr"),
    };
    Step::Continue(VerifyState::Compare(run), Action::Execute(execution))
}

/// Writes down how a comparison ended.
fn finish(
    input: &VerifyRequest<'_>,
    run: StartedComparison,
    output: CommandOutput,
    now: Moment,
) -> (r: Step<VerifyState, VerifyRecord>)
    requires
        moment::in_calendar(now),
    ensures
        r@ == after_comparison(input@, run@, output@, moment::rfc3339(now.seconds, now.nanos)),
{
    let item_count: usize = process::count_itemized_changes(&output.stdout);
    let (status, class, next): (VerifyStatus, ExitClass, String) = if output.exit_code != 0 {
        (
            VerifyStatus::Failed,
            exit_class::classify_exit(output.exit_code, &output.stderr),
            text::cat2("Inspect ", &file_path(input, ".stderr").display()),
        )
    } else if item_count == 0 {
        (
            VerifyStatus::Verified,
            ExitClass { name: "success", retryable: false },
            "Recovery point matches the current source scope.".to_owned(),
        )
    } else {
        (
            VerifyStatus::Mismatch,
            ExitClass { name: "verification_mismatch", retryable: true },
            text::cat2("Inspect ", &file_path(input, ".stdout").display()),
        )
    };
    let record: VerifyRecord = VerifyRecord {
        schema_version: 1,
        operation: "verify".to_owned(),
        status,
        job_id: input.job_id.to_owned(),
        run_id: input.run_id.to_owned(),
        snapshot_path: run.snapshot_path,
        checksum: input.checksum,
        started_at: run.started_at,
        finished_at: moment::moment_text(now),
        rsync_exit_code: output.exit_code,
        item_count,
        classification: class.name.to_owned(),
        retryable: class.retryable,
        output_path: file_path(input, ".stdout"),
        next_actions: text::one_text(next),
    };
    let copy: VerifyRecord = record.copy();
    Step::Continue(
        VerifyState::Write(record),
        Action::WriteVerify(file_path(input, ".json"), copy),
    )
}

/// One step of a comparison at a given moment: takes the answer to what was asked for last, and
/// says what is asked for next or how the comparison ended.
pub fn verify_job_at(
    input: VerifyRequest<'_>,
    state: VerifyState,
    event: Event,
    now: Moment,
) -> (r: Step<VerifyState, VerifyRecord>)
    requires
        expects(state@, event@),
        moment::in_calendar(now),
    ensures
        r@ == verify_next(input@, state@, event@, moment::rfc3339(now.seconds, now.nanos)),
{
    let job: &JobConfig = match input.config.job(input.job_id) {
        Err(e) => {
            return Step::Finish(Err(e));
        },
        Ok(job) => job,
    };
    match (state, event) {
        (_, Event::Failed(e)) => Step::Finish(Err(e)),
        (VerifyState::Start, _) => Step::Continue(
            VerifyState::ReadPlan,
            Action::ReadPlan(
                common::run_dir(input.config, input.job_id, input.run_id).join_text("plan.json"),
            ),
        ),
        (VerifyState::ReadPlan, Event::Plan(plan)) => Step::Continue(
            VerifyState::ReadRequest(plan),
            Action::ReadRequest(
                common::run_dir(input.config, input.job_id, input.run_id).join_text("request.json"),
            ),
        ),
        (VerifyState::ReadRequest(plan), Event::Request(request)) => Step::Continue(
            VerifyState::Serialize(plan, request),
            Action::SerializeJob,
        ),
        (VerifyState::Serialize(plan, request), Event::Serialized(payload)) => {
            match validate_unchanged(&input, &request, &payload) {
                Err(e) => Step::Finish(Err(e)),
                Ok(_) => start(&input, job, plan, now),
            }
        },
        (VerifyState::Lock(run), _) => compare_with(&input, job, run),
        (VerifyState::Compare(run), Event::Output(output)) => finish(&input, run, output, now),
        (VerifyState::Write(record), _) => Step::Finish(Ok(record)),
        (_, _) => vstd::pervasive::unreached(),
    }
}

/// One step of a comparison at the current moment.
pub fn verify_job(input: VerifyRequest<'_>, state: VerifyState, event: Event) -> (r: Step<
    VerifyState,
    VerifyRecord,
>)
    requires
        expects(state@, event@),
    ensures
        exists|now: Moment|
            moment::in_calendar(now) && r@ == verify_next(
                input@,
                state@,
                event@,
                #[trigger] moment::rfc3339(now.seconds, now.nanos),
            ),
{
    let now: Moment = moment::current_moment();
    verify_job_at(input, state, event, now)
}

} // verus!
