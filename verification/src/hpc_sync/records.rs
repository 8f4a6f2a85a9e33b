//! The records that the backup tool writes and prints.
use super::config;
use super::config::JobConfig;
use super::process;
use crate::path::FilePath;
use crate::{path, text};
use vstd::prelude::*;

verus! {

/// How a run ended.
#[derive(Debug, Clone, Copy, PartialEq, Eq, Structural)]
pub enum RunStatus {
    Success,
    Failed,
    VerificationFailed,
}

/// How a comparison ended.
#[derive(Debug, Clone, Copy, PartialEq, Eq, Structural)]
pub enum VerifyStatus {
    Verified,
    Mismatch,
    Failed,
}

/// What was asked for when a plan was made.
#[derive(Debug)]
pub struct RequestRecord {
    pub schema_version: u8,
    pub operation: String,
    pub job_id: String,
    pub run_id: String,
    pub config_hash: String,
    pub job: JobConfig,
    pub created_at: String,
}

/// What a [`RequestRecord`] holds.
#[verifier::ext_equal]
pub struct RequestView {
    pub schema_version: u8,
    pub operation: Seq<char>,
    pub job_id: Seq<char>,
    pub run_id: Seq<char>,
    pub config_hash: Seq<char>,
    pub job: config::JobView,
    pub created_at: Seq<char>,
}

impl View for RequestRecord {
    type V = RequestView;

    open spec fn view(&self) -> RequestView {
        RequestView {
            schema_version: self.schema_version,
            operation: self.operation@,
            job_id: self.job_id@,
            run_id: self.run_id@,
            config_hash: self.config_hash@,
            job: self.job@,
            created_at: self.created_at@,
        }
    }
}

impl RequestRecord {
    /// A copy of the record.
    pub fn copy(&self) -> (r: RequestRecord)
        ensures
            r@ == self@,
    {
        RequestRecord {
            schema_version: self.schema_version,
            operation: self.operation.clone(),
            job_id: self.job_id.clone(),
            run_id: self.run_id.clone(),
            config_hash: self.config_hash.clone(),
            job: self.job.copy(),
            created_at: self.created_at.clone(),
        }
    }
}

/// A plan that can be reviewed and applied.
#[derive(Debug)]
pub struct PlanRecord {
    pub schema_version: u8,
    pub operation: String,
    pub status: String,
    pub job_id: String,
    pub run_id: String,
    pub config_hash: String,
    pub plan_hash: String,
    pub previous_run_id: Option<String>,
    pub snapshot_path: String,
    pub started_at: String,
    pub finished_at: String,
    pub rsync_exit_code: i32,
    pub item_count: usize,
    pub run_dir: FilePath,
    pub items_path: FilePath,
    pub command: Vec<String>,
    pub next_actions: Vec<String>,
}

/// What a [`PlanRecord`] holds.
#[verifier::ext_equal]
pub struct PlanView {
    pub schema_version: u8,
    pub operation: Seq<char>,
    pub status: Seq<char>,
    pub job_id: Seq<char>,
    pub run_id: Seq<char>,
    pub config_hash: Seq<char>,
    pub plan_hash: Seq<char>,
    pub previous_run_id: Option<Seq<char>>,
    pub snapshot_path: Seq<char>,
    pub started_at: Seq<char>,
    pub finished_at: Seq<char>,
    pub rsync_exit_code: i32,
    pub item_count: usize,
    pub run_dir: Seq<u8>,
    pub items_path: Seq<u8>,
    pub command: Seq<Seq<char>>,
    pub next_actions: Seq<Seq<char>>,
}

impl View for PlanRecord {
    type V = PlanView;

    open spec fn view(&self) -> PlanView {
        PlanView {
            schema_version: self.schema_version,
            operation: self.operation@,
            status: self.status@,
            job_id: self.job_id@,
            run_id: self.run_id@,
            config_hash: self.config_hash@,
            plan_hash: self.plan_hash@,
            previous_run_id: text::optional_text(self.previous_run_id),
            snapshot_path: self.snapshot_path@,
            started_at: self.started_at@,
            finished_at: self.finished_at@,
            rsync_exit_code: self.rsync_exit_code,
            item_count: self.item_count,
            run_dir: self.run_dir@,
            items_path: self.items_path@,
            command: text::texts(self.command@),
            next_actions: text::texts(self.next_actions@),
        }
    }
}

impl PlanRecord {
    /// A copy of the record.
    pub fn copy(&self) -> (r: PlanRecord)
        ensures
            r@ == self@,
    {
        PlanRecord {
            schema_version: self.schema_version,
            operation: self.operation.clone(),
            status: self.status.clone(),
            job_id: self.job_id.clone(),
            run_id: self.run_id.clone(),
            config_hash: self.config_hash.clone(),
            plan_hash: self.plan_hash.clone(),
            previous_run_id: text::copy_optional(&self.previous_run_id),
            snapshot_path: self.snapshot_path.clone(),
            started_at: self.started_at.clone(),
            finished_at: self.finished_at.clone(),
            rsync_exit_code: self.rsync_exit_code,
            item_count: self.item_count,
            run_dir: self.run_dir.copy(),
            items_path: self.items_path.copy(),
            command: text::copy_texts(&self.command),
            next_actions: text::copy_texts(&self.next_actions),
        }
    }
}

/// The result of a run.
#[derive(Debug)]
pub struct RunRecord {
    pub schema_version: u8,
    pub operation: String,
    pub status: RunStatus,
    pub job_id: String,
    pub run_id: String,
    pub config_hash: String,
    pub plan_hash: String,
    pub previous_run_id: Option<String>,
    pub snapshot_path: String,
    pub started_at: String,
    pub finished_at: String,
    pub rsync_exit_code: i32,
    pub classification: String,
    pub retryable: bool,
    pub verify_exit_code: Option<i32>,
    pub verify_item_count: Option<usize>,
    pub marker_exit_code: Option<i32>,
    pub run_dir: FilePath,
    pub completed_marker: Option<FilePath>,
    pub command: Vec<String>,
    pub next_actions: Vec<String>,
}

/// What a [`RunRecord`] holds.
#[verifier::ext_equal]
pub struct RunView {
    pub schema_version: u8,
    pub operation: Seq<char>,
    pub status: RunStatus,
    pub job_id: Seq<char>,
    pub run_id: Seq<char>,
    pub config_hash: Seq<char>,
    pub plan_hash: Seq<char>,
    pub previous_run_id: Option<Seq<char>>,
    pub snapshot_path: Seq<char>,
    pub started_at: Seq<char>,
    pub finished_at: Seq<char>,
    pub rsync_exit_code: i32,
    pub classification: Seq<char>,
    pub retryable: bool,
    pub verify_exit_code: Option<i32>,
    pub verify_item_count: Option<usize>,
    pub marker_exit_code: Option<i32>,
    pub run_dir: Seq<u8>,
    pub completed_marker: Option<Seq<u8>>,
    pub command: Seq<Seq<char>>,
    pub next_actions: Seq<Seq<char>>,
}

impl View for RunRecord {
    type V = RunView;

    open spec fn view(&self) -> RunView {
        RunView {
            schema_version: self.schema_version,
            operation: self.operation@,
            status: self.status,
            job_id: self.job_id@,
            run_id: self.run_id@,
            config_hash: self.config_hash@,
            plan_hash: self.plan_hash@,
            previous_run_id: text::optional_text(self.previous_run_id),
            snapshot_path: self.snapshot_path@,
            started_at: self.started_at@,
            finished_at: self.finished_at@,
            rsync_exit_code: self.rsync_exit_code,
            classification: self.classification@,
            retryable: self.retryable,
            verify_exit_code: self.verify_exit_code,
            verify_item_count: self.verify_item_count,
            marker_exit_code: self.marker_exit_code,
            run_dir: self.run_dir@,
            completed_marker: path::optional_path(self.completed_marker),
            command: text::texts(self.command@),
            next_actions: text::texts(self.next_actions@),
        }
    }
}

impl RunRecord {
    /// A copy of the record.
    pub fn copy(&self) -> (r: RunRecord)
        ensures
            r@ == self@,
    {
        RunRecord {
            schema_version: self.schema_version,
            operation: self.operation.clone(),
            status: self.status,
            job_id: self.job_id.clone(),
            run_id: self.run_id.clone(),
            config_hash: self.config_hash.clone(),
            plan_hash: self.plan_hash.clone(),
            previous_run_id: text::copy_optional(&self.previous_run_id),
            snapshot_path: self.snapshot_path.clone(),
            started_at: self.started_at.clone(),
            finished_at: self.finished_at.clone(),
            rsync_exit_code: self.rsync_exit_code,
            classification: self.classification.clone(),
            retryable: self.retryable,
            verify_exit_code: self.verify_exit_code,
            verify_item_count: self.verify_item_count,
            marker_exit_code: self.marker_exit_code,
            run_dir: self.run_dir.copy(),
            completed_marker: path::copy_optional_path(&self.completed_marker),
            command: text::copy_texts(&self.command),
            next_actions: text::copy_texts(&self.next_actions),
        }
    }
}

/// The result of a comparison.
#[derive(Debug)]
pub struct VerifyRecord {
    pub schema_version: u8,
    pub operation: String,
    pub status: VerifyStatus,
    pub job_id: String,
    pub run_id: String,
    pub snapshot_path: String,
    pub checksum: bool,
    pub started_at: String,
    pub finished_at: String,
    pub rsync_exit_code: i32,
    pub item_count: usize,
    pub classification: String,
    pub retryable: bool,
    pub output_path: FilePath,
    pub next_actions: Vec<String>,
}

/// What a [`VerifyRecord`] holds.
#[verifier::ext_equal]
pub struct VerifyView {
    pub schema_version: u8,
    pub operation: Seq<char>,
    pub status: VerifyStatus,
    pub job_id: Seq<char>,
    pub run_id: Seq<char>,
    pub snapshot_path: Seq<char>,
    pub checksum: bool,
    pub started_at: Seq<char>,
    pub finished_at: Seq<char>,
    pub rsync_exit_code: i32,
    pub item_count: usize,
    pub classification: Seq<char>,
    pub retryable: bool,
    pub output_path: Seq<u8>,
    pub next_actions: Seq<Seq<char>>,
}

impl View for VerifyRecord {
    type V = VerifyView;

    open spec fn view(&self) -> VerifyView {
        VerifyView {
            schema_version: self.schema_version,
            operation: self.operation@,
            status: self.status,
            job_id: self.job_id@,
            run_id: self.run_id@,
            snapshot_path: self.snapshot_path@,
            checksum: self.checksum,
            started_at: self.started_at@,
            finished_at: self.finished_at@,
            rsync_exit_code: self.rsync_exit_code,
            item_count: self.item_count,
            classification: self.classification@,
            retryable: self.retryable,
            output_path: self.output_path@,
            next_actions: text::texts(self.next_actions@),
        }
    }
}

impl VerifyRecord {
    /// A copy of the record.
    pub fn copy(&self) -> (r: VerifyRecord)
        ensures
            r@ == self@,
    {
        VerifyRecord {
            schema_version: self.schema_version,
            operation: self.operation.clone(),
            status: self.status,
            job_id: self.job_id.clone(),
            run_id: self.run_id.clone(),
            snapshot_path: self.snapshot_path.clone(),
            checksum: self.checksum,
            started_at: self.started_at.clone(),
            finished_at: self.finished_at.clone(),
            rsync_exit_code: self.rsync_exit_code,
            item_count: self.item_count,
            classification: self.classification.clone(),
            retryable: self.retryable,
            output_path: self.output_path.copy(),
            next_actions: text::copy_texts(&self.next_actions),
        }
    }
}

/// What a check of the host found.
#[derive(Debug)]
pub struct CheckRecord {
    pub schema_version: u8,
    pub operation: &'static str,
    pub status: &'static str,
    pub job_id: String,
    pub source: FilePath,
    pub destination_root: FilePath,
    pub state_dir: FilePath,
    pub checks: Vec<&'static str>,
    pub next_actions: Vec<String>,
}

/// What a [`CheckRecord`] holds.
#[verifier::ext_equal]
pub struct CheckView {
    pub schema_version: u8,
    pub operation: Seq<char>,
    pub status: Seq<char>,
    pub job_id: Seq<char>,
    pub source: Seq<u8>,
    pub destination_root: Seq<u8>,
    pub state_dir: Seq<u8>,
    pub checks: Seq<Seq<char>>,
    pub next_actions: Seq<Seq<char>>,
}

impl View for CheckRecord {
    type V = CheckView;

    open spec fn view(&self) -> CheckView {
        CheckView {
            schema_version: self.schema_version,
            operation: self.operation@,
            status: self.status@,
            job_id: self.job_id@,
            source: self.source@,
            destination_root: self.destination_root@,
            state_dir: self.state_dir@,
            checks: process::slices(self.checks@),
            next_actions: text::texts(self.next_actions@),
        }
    }
}

/// What an optional run holds.
pub open spec fn optional_run(run: Option<RunRecord>) -> Option<RunView> {
    match run {
        Some(r) => Some(r@),
        None => None,
    }
}

/// What a list of runs holds.
pub open spec fn run_views(runs: Seq<RunRecord>) -> Seq<RunView> {
    runs.map_values(|r: RunRecord| r@)
}

/// The latest run of a job.
#[derive(Debug)]
pub struct StatusRecord {
    pub schema_version: u8,
    pub operation: &'static str,
    pub status: &'static str,
    pub job_id: String,
    pub latest: Option<RunRecord>,
    pub next_actions: Vec<String>,
}

/// What a [`StatusRecord`] holds.
#[verifier::ext_equal]
pub struct StatusView {
    pub schema_version: u8,
    pub operation: Seq<char>,
    pub status: Seq<char>,
    pub job_id: Seq<char>,
    pub latest: Option<RunView>,
    pub next_actions: Seq<Seq<char>>,
}

impl View for StatusRecord {
    type V = StatusView;

    open spec fn view(&self) -> StatusView {
        StatusView {
            schema_version: self.schema_version,
            operation: self.operation@,
            status: self.status@,
            job_id: self.job_id@,
            latest: optional_run(self.latest),
            next_actions: text::texts(self.next_actions@),
        }
    }
}

/// The last runs of a job, the newest first.
#[derive(Debug)]
pub struct HistoryRecord {
    pub schema_version: u8,
    pub operation: &'static str,
    pub status: &'static str,
    pub job_id: String,
    pub count: usize,
    pub runs: Vec<RunRecord>,
    pub next_actions: Vec<String>,
}

/// What a [`HistoryRecord`] holds.
#[verifier::ext_equal]
pub struct HistoryView {
    pub schema_version: u8,
    pub operation: Seq<char>,
    pub status: Seq<char>,
    pub job_id: Seq<char>,
    pub count: usize,
    pub runs: Seq<RunView>,
    pub next_actions: Seq<Seq<char>>,
}

impl View for HistoryRecord {
    type V = HistoryView;

    open spec fn view(&self) -> HistoryView {
        HistoryView {
            schema_version: self.schema_version,
            operation: self.operation@,
            status: self.status@,
            job_id: self.job_id@,
            count: self.count,
            runs: run_views(self.runs@),
            next_actions: text::texts(self.next_actions@),
        }
    }
}

/// The marker of a complete recovery point.
#[derive(Debug)]
pub struct CompletionRecord {
    pub schema_version: u8,
    pub job_id: String,
    pub run_id: String,
    pub config_hash: String,
    pub snapshot_path: String,
    pub completed_at: String,
}

/// What a [`CompletionRecord`] holds.
#[verifier::ext_equal]
pub struct CompletionView {
    pub schema_version: u8,
    pub job_id: Seq<char>,
    pub run_id: Seq<char>,
    pub config_hash: Seq<char>,
    pub snapshot_path: Seq<char>,
    pub completed_at: Seq<char>,
}

impl View for CompletionRecord {
    type V = CompletionView;

    open spec fn view(&self) -> CompletionView {
        CompletionView {
            schema_version: self.schema_version,
            job_id: self.job_id@,
            run_id: self.run_id@,
            config_hash: self.config_hash@,
            snapshot_path: self.snapshot_path@,
            completed_at: self.completed_at@,
        }
    }
}

impl CompletionRecord {
    /// A copy of the record.
    pub fn copy(&self) -> (r: CompletionRecord)
        ensures
            r@ == self@,
    {
        CompletionRecord {
            schema_version: self.schema_version,
            job_id: self.job_id.clone(),
            run_id: self.run_id.clone(),
            config_hash: self.config_hash.clone(),
            snapshot_path: self.snapshot_path.clone(),
            completed_at: self.completed_at.clone(),
        }
    }
}

/// An error as it is printed.
#[derive(Debug)]
pub struct ErrorRecord<'a> {
    pub schema_version: u8,
    pub operation: &'static str,
    pub status: &'static str,
    pub code: &'a str,
    pub retryable: bool,
    pub message: &'a str,
    pub suggested_fix: &'a str,
}

/// What an [`ErrorRecord`] holds.
#[verifier::ext_equal]
pub struct ErrorRecordView {
    pub schema_version: u8,
    pub operation: Seq<char>,
    pub status: Seq<char>,
    pub code: Seq<char>,
    pub retryable: bool,
    pub message: Seq<char>,
    pub suggested_fix: Seq<char>,
}

impl View for ErrorRecord<'_> {
    type V = ErrorRecordView;

    open spec fn view(&self) -> ErrorRecordView {
        ErrorRecordView {
            schema_version: self.schema_version,
            operation: self.operation@,
            status: self.status@,
            code: self.code@,
            retryable: self.retryable,
            message: self.message@,
            suggested_fix: self.suggested_fix@,
        }
    }
}

/// An exit code with its name.
#[derive(Debug)]
pub struct ExitCode {
    pub name: &'static str,
    pub code: i32,
}

/// What a list of exit codes holds.
pub open spec fn exit_codes(list: Seq<ExitCode>) -> Seq<(Seq<char>, i32)> {
    list.map_values(|e: ExitCode| (e.name@, e.code))
}

/// What the tool does and promises. The exit codes stand in the order of their names.
#[derive(Debug)]
pub struct DescribeRecord {
    pub schema_version: u8,
    pub operation: &'static str,
    pub status: &'static str,
    pub profile: &'static str,
    pub commands: Vec<&'static str>,
    pub safety_invariants: Vec<&'static str>,
    pub exit_codes: Vec<ExitCode>,
}

/// What a [`DescribeRecord`] holds.
#[verifier::ext_equal]
pub struct DescribeView {
    pub schema_version: u8,
    pub operation: Seq<char>,
    pub status: Seq<char>,
    pub profile: Seq<char>,
    pub commands: Seq<Seq<char>>,
    pub safety_invariants: Seq<Seq<char>>,
    pub exit_codes: Seq<(Seq<char>, i32)>,
}

impl View for DescribeRecord {
    type V = DescribeView;

    open spec fn view(&self) -> DescribeView {
        DescribeView {
            schema_version: self.schema_version,
            operation: self.operation@,
            status: self.status@,
            profile: self.profile@,
            commands: process::slices(self.commands@),
            safety_invariants: process::slices(self.safety_invariants@),
            exit_codes: exit_codes(self.exit_codes@),
        }
    }
}

} // verus!
