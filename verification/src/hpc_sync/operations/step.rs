//! What an operation asks of the host, and what the host answers.
use super::super::error;
use super::super::error::{AppError, AppResult};
use super::super::process;
use super::super::process::{CommandOutput, Execution};
use super::super::records;
use super::super::records::{CompletionRecord, PlanRecord, RequestRecord, RunRecord, VerifyRecord};
use crate::path::FilePath;
use crate::path;
use vstd::prelude::*;

verus! {

/// The files and directories that a job needs.
#[derive(Debug)]
pub struct Inspection {
    pub source: FilePath,
    pub marker: Option<FilePath>,
    pub identity_file: FilePath,
    pub known_hosts_file: FilePath,
}

/// What an [`Inspection`] holds.
#[verifier::ext_equal]
pub struct InspectionView {
    pub source: Seq<u8>,
    pub marker: Option<Seq<u8>>,
    pub identity_file: Seq<u8>,
    pub known_hosts_file: Seq<u8>,
}

impl View for Inspection {
    type V = InspectionView;

    open spec fn view(&self) -> InspectionView {
        InspectionView {
            source: self.source@,
            marker: path::optional_path(self.marker),
            identity_file: self.identity_file@,
            known_hosts_file: self.known_hosts_file@,
        }
    }
}

/// What a look at the host showed.
#[derive(Debug)]
pub struct HostFacts {
    /// `rsync` is an executable file on the search path.
    pub has_rsync: bool,
    /// `ssh` is an executable file on the search path.
    pub has_ssh: bool,
    /// The source is a directory.
    pub source_is_dir: bool,
    /// The completion marker of the source is a file.
    pub marker_is_file: bool,
    /// The identity is a file.
    pub identity_is_file: bool,
    /// The pinned host keys are a file.
    pub known_hosts_is_file: bool,
    /// The permission bits of the identity, or why they cannot be read.
    pub identity_mode: Result<u32, String>,
}

/// What [`HostFacts`] hold.
#[verifier::ext_equal]
pub struct FactsView {
    pub has_rsync: bool,
    pub has_ssh: bool,
    pub source_is_dir: bool,
    pub marker_is_file: bool,
    pub identity_is_file: bool,
    pub known_hosts_is_file: bool,
    pub identity_mode: Result<u32, Seq<char>>,
}

impl View for HostFacts {
    type V = FactsView;

    open spec fn view(&self) -> FactsView {
        FactsView {
            has_rsync: self.has_rsync,
            has_ssh: self.has_ssh,
            source_is_dir: self.source_is_dir,
            marker_is_file: self.marker_is_file,
            identity_is_file: self.identity_is_file,
            known_hosts_is_file: self.known_hosts_is_file,
            identity_mode: match self.identity_mode {
                Ok(mode) => Ok(mode),
                Err(cause) => Err(cause@),
            },
        }
    }
}

/// What an operation asks of the host.
#[derive(Debug)]
pub enum Action {
    /// Look at the files and programs that a job needs.
    Inspect(Inspection),
    /// Make a directory that only its owner can enter.
    EnsureDir(FilePath),
    /// Tell whether a file is there.
    FindFile(FilePath),
    /// List the runs below a directory that hold a result.
    ListRuns(FilePath),
    /// Read the result of a run.
    ReadRun(FilePath),
    /// Read a plan.
    ReadPlan(FilePath),
    /// Read the request of a plan.
    ReadRequest(FilePath),
    /// Serialize the configuration of the job.
    SerializeJob,
    /// Take the lock of the job and hold it until the operation ends.
    Lock(FilePath),
    /// Run a command.
    Execute(Execution),
    /// Write the request of a plan.
    WriteRequest(FilePath, RequestRecord),
    /// Write a plan.
    WritePlan(FilePath, PlanRecord),
    /// Write the result of a run.
    WriteRun(FilePath, RunRecord),
    /// Write the result of a comparison.
    WriteVerify(FilePath, VerifyRecord),
    /// Write a completion marker.
    WriteCompletion(FilePath, CompletionRecord),
}

/// What an [`Action`] asks for.
#[verifier::ext_equal]
pub enum ActionView {
    Inspect(InspectionView),
    EnsureDir(Seq<u8>),
    FindFile(Seq<u8>),
    ListRuns(Seq<u8>),
    ReadRun(Seq<u8>),
    ReadPlan(Seq<u8>),
    ReadRequest(Seq<u8>),
    SerializeJob,
    Lock(Seq<u8>),
    Execute(process::ExecutionView),
    WriteRequest(Seq<u8>, records::RequestView),
    WritePlan(Seq<u8>, records::PlanView),
    WriteRun(Seq<u8>, records::RunView),
    WriteVerify(Seq<u8>, records::VerifyView),
    WriteCompletion(Seq<u8>, records::CompletionView),
}

impl View for Action {
    type V = ActionView;

    open spec fn view(&self) -> ActionView {
        match self {
            Action::Inspect(i) => ActionView::Inspect(i@),
            Action::EnsureDir(p) => ActionView::EnsureDir(p@),
            Action::FindFile(p) => ActionView::FindFile(p@),
            Action::ListRuns(p) => ActionView::ListRuns(p@),
            Action::ReadRun(p) => ActionView::ReadRun(p@),
            Action::ReadPlan(p) => ActionView::ReadPlan(p@),
            Action::ReadRequest(p) => ActionView::ReadRequest(p@),
            Action::SerializeJob => ActionView::SerializeJob,
            Action::Lock(p) => ActionView::Lock(p@),
            Action::Execute(e) => ActionView::Execute(e@),
            Action::WriteRequest(p, r) => ActionView::WriteRequest(p@, r@),
            Action::WritePlan(p, r) => ActionView::WritePlan(p@, r@),
            Action::WriteRun(p, r) => ActionView::WriteRun(p@, r@),
            Action::WriteVerify(p, r) => ActionView::WriteVerify(p@, r@),
            Action::WriteCompletion(p, r) => ActionView::WriteCompletion(p@, r@),
        }
    }
}

/// What the host answers.
#[derive(Debug)]
pub enum Event {
    /// The operation begins.
    Begin,
    /// What was asked for is done.
    Done,
    /// What was asked for failed.
    Failed(AppError),
    /// What a look at the host showed.
    Facts(HostFacts),
    /// Whether a file is there.
    Found(bool),
    /// The names of the runs that hold a result.
    Names(Vec<FilePath>),
    /// The runs could not be listed.
    ListFailed(String),
    /// The result of a run.
    Run(RunRecord),
    /// A plan.
    Plan(PlanRecord),
    /// The request of a plan.
    Request(RequestRecord),
    /// The serialized configuration of the job, or why there is none.
    Serialized(Result<String, String>),
    /// The output of a command.
    Output(CommandOutput),
}

/// What an [`Event`] tells.
#[verifier::ext_equal]
pub enum EventView {
    Begin,
    Done,
    Failed(error::ErrorView),
    Facts(FactsView),
    Found(bool),
    Names(Seq<Seq<u8>>),
    ListFailed(Seq<char>),
    Run(records::RunView),
    Plan(records::PlanView),
    Request(records::RequestView),
    Serialized(Result<Seq<char>, Seq<char>>),
    Output(process::OutputView),
}

/// The contents of a list of paths.
pub open spec fn path_views(list: Seq<FilePath>) -> Seq<Seq<u8>> {
    list.map_values(|p: FilePath| p@)
}

/// The contents of a text or of the reason why there is none.
pub open spec fn text_result(r: Result<String, String>) -> Result<Seq<char>, Seq<char>> {
    match r {
        Ok(s) => Ok(s@),
        Err(s) => Err(s@),
    }
}

impl View for Event {
    type V = EventView;

    open spec fn view(&self) -> EventView {
        match self {
            Event::Begin => EventView::Begin,
            Event::Done => EventView::Done,
            Event::Failed(e) => EventView::Failed(e@),
            Event::Facts(f) => EventView::Facts(f@),
            Event::Found(found) => EventView::Found(*found),
            Event::Names(names) => EventView::Names(path_views(names@)),
            Event::ListFailed(cause) => EventView::ListFailed(cause@),
            Event::Run(r) => EventView::Run(r@),
            Event::Plan(r) => EventView::Plan(r@),
            Event::Request(r) => EventView::Request(r@),
            Event::Serialized(r) => EventView::Serialized(text_result(*r)),
            Event::Output(o) => EventView::Output(o@),
        }
    }
}

/// Whether an event answers an action. Whatever writes, reads, locks or runs can fail.
pub open spec fn answers(action: ActionView, event: EventView) -> bool {
    match action {
        ActionView::Inspect(_) => event is Facts,
        ActionView::FindFile(_) => event is Found,
        ActionView::ListRuns(_) => event is Names || event is ListFailed,
        ActionView::ReadRun(_) => event is Run || event is Failed,
        ActionView::ReadPlan(_) => event is Plan || event is Failed,
        ActionView::ReadRequest(_) => event is Request || event is Failed,
        ActionView::SerializeJob => event is Serialized,
        ActionView::Execute(_) => event is Output || event is Failed,
        _ => event is Done || event is Failed,
    }
}

/// One step of an operation: what to ask for next, or how the operation ended.
#[derive(Debug)]
pub enum Step<S, T> {
    Continue(S, Action),
    Finish(AppResult<T>),
}

/// What a [`Step`] says.
#[verifier::ext_equal]
pub enum StepView<S, T> {
    Continue(S, ActionView),
    Finish(Result<T, error::ErrorView>),
}

impl<S: View, T: View> View for Step<S, T> {
    type V = StepView<S::V, T::V>;

    open spec fn view(&self) -> StepView<S::V, T::V> {
        match self {
            Step::Continue(s, a) => StepView::Continue(s@, a@),
            Step::Finish(Ok(t)) => StepView::Finish(Ok(t@)),
            Step::Finish(Err(e)) => StepView::Finish(Err(e@)),
        }
    }
}

} // verus!
