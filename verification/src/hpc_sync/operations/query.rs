//! Looking up the latest run of a job, and its last runs.
use super::super::config;
use super::super::config::AppConfig;
use super::super::error;
use super::super::error::AppError;
use super::super::records;
use super::super::records::{HistoryRecord, RunRecord, StatusRecord};
use super::common;
use super::step;
use super::step::{Action, Event, Step};
use crate::path::FilePath;
use crate::{path, text};
use vstd::prelude::*;

verus! {

// ---------------------------------------------------------------------------
// The latest run
// ---------------------------------------------------------------------------
/// How far a look at the latest run has come: what it waits for.
#[derive(Debug)]
pub enum StatusState {
    /// It has not begun.
    Start,
    /// Whether there is a latest run.
    Find,
    /// The latest run.
    Read,
}

impl View for StatusState {
    type V = StatusState;

    open spec fn view(&self) -> StatusState {
        *self
    }
}

/// Whether an event is one that a look at the latest run waits for.
pub open spec fn status_expects(state: StatusState, event: step::EventView) -> bool {
    match state {
        StatusState::Start => event is Begin,
        StatusState::Find => event is Found,
        StatusState::Read => event is Run || event is Failed,
    }
}

/// What is said of the latest run of a job.
pub open spec fn status_result(job_id: Seq<char>, latest: Option<records::RunView>) ->
    records::StatusView {
    records::StatusView {
        schema_version: 1,
        operation: "status"@,
        status: if latest is Some {
            "available"@
        } else {
            "never_run"@
        },
        job_id,
        latest,
        next_actions: seq!["hpc-sync plan "@ + job_id + " --json"@],
    }
}

/// What a look at the latest run does next.
pub open spec fn status_next(
    config: config::ConfigView,
    job_id: Seq<char>,
    state: StatusState,
    event: step::EventView,
) -> step::StepView<StatusState, records::StatusView> {
    let latest = common::latest_place(config.state_dir, job_id);
    if config::find_job(config.jobs, job_id) is None {
        step::StepView::Finish(Err(config::unknown_job(job_id)))
    } else if let step::EventView::Failed(e) = event {
        step::StepView::Finish(Err(e))
    } else {
        match state {
            StatusState::Start => step::StepView::Continue(
                StatusState::Find,
                step::ActionView::FindFile(latest),
            ),
            StatusState::Find => if event->Found_0 {
                step::StepView::Continue(StatusState::Read, step::ActionView::ReadRun(latest))
            } else {
                step::StepView::Finish(Ok(status_result(job_id, None)))
            },
            StatusState::Read => step::StepView::Finish(
                Ok(status_result(job_id, Some(event->Run_0))),
            ),
        }
    }
}

/// Says what the latest run of a job is.
fn status_record(job_id: &str, latest: Option<RunRecord>) -> (r: StatusRecord)
    ensures
        r@ == status_result(job_id@, records::optional_run(latest)),
{
    StatusRecord {
        schema_version: 1,
        operation: "status",
        status: if latest.is_some() {
            "available"
        } else {
            "never_run"
        },
        job_id: job_id.to_owned(),
        latest,
        next_actions: text::one_text(text::cat3("hpc-sync plan ", job_id, " --json")),
    }
}

/// One step of a look at the latest run of a job.
pub fn status_job(config: &AppConfig, job_id: &str, state: StatusState, event: Event) -> (r: Step<
    StatusState,
    StatusRecord,
>)
    requires
        status_expects(state, event@),
    ensures
        r@ == status_next(config@, job_id@, state, event@),
{
    match config.job(job_id) {
        Err(e) => {
            return Step::Finish(Err(e));
        },
        Ok(_) => {},
    }
    match (state, event) {
        (_, Event::Failed(e)) => Step::Finish(Err(e)),
        (StatusState::Start, _) => Step::Continue(
            StatusState::Find,
            Action::FindFile(common::latest_path(config, job_id)),
        ),
        (StatusState::Find, Event::Found(found)) => if found {
            Step::Continue(
                StatusState::Read,
                Action::ReadRun(common::latest_path(config, job_id)),
            )
        } else {
            Step::Finish(Ok(status_record(job_id, None)))
        },
        (StatusState::Read, Event::Run(run)) => Step::Finish(Ok(status_record(job_id, Some(run)))),
        (_, _) => vstd::pervasive::unreached(),
    }
}

// ---------------------------------------------------------------------------
// The last runs
// ---------------------------------------------------------------------------
/// How far a look at the last runs has come: what it waits for.
#[derive(Debug)]
pub enum HistoryState {
    /// It has not begun.
    Start,
    /// The runs with a result.
    List,
    /// The result of the first of these runs, after those that were read.
    Read(Vec<FilePath>, Vec<RunRecord>),
}

/// What a [`HistoryState`] holds.
#[verifier::ext_equal]
pub enum HistoryPhase {
    Start,
    List,
    Read(Seq<Seq<u8>>, Seq<records::RunView>),
}

impl View for HistoryState {
    type V = HistoryPhase;

    open spec fn view(&self) -> HistoryPhase {
        match self {
            HistoryState::Start => HistoryPhase::Start,
            HistoryState::List => HistoryPhase::List,
            HistoryState::Read(names, runs) => HistoryPhase::Read(
                step::path_views(names@),
                records::run_views(runs@),
            ),
        }
    }
}

/// Whether an event is one that a look at the last runs waits for.
pub open spec fn history_expects(phase: HistoryPhase, event: step::EventView) -> bool {
    match phase {
        HistoryPhase::Start => event is Begin,
        HistoryPhase::List => event is Names || event is ListFailed,
        HistoryPhase::Read(names, _) => names.len() > 0 && (event is Run || event is Failed),
    }
}

/// What is said of the last runs of a job.
pub open spec fn history_result(job_id: Seq<char>, runs: Seq<records::RunView>) ->
    records::HistoryView {
    records::HistoryView {
        schema_version: 1,
        operation: "history"@,
        status: "available"@,
        job_id,
        count: runs.len() as usize,
        runs,
        next_actions: seq!["hpc-sync status "@ + job_id + " --json"@],
    }
}

/// At most `limit` names from the front of a list.
pub open spec fn limited(names: Seq<Seq<u8>>, limit: usize) -> Seq<Seq<u8>> {
    if names.len() <= limit {
        names
    } else {
        names.take(limit as int)
    }
}

/// Asks for the next result, if there is one.
pub open spec fn history_read(
    config: config::ConfigView,
    job_id: Seq<char>,
    names: Seq<Seq<u8>>,
    runs: Seq<records::RunView>,
) -> step::StepView<HistoryPhase, records::HistoryView> {
    if names.len() == 0 {
        step::StepView::Finish(Ok(history_result(job_id, runs)))
    } else {
        step::StepView::Continue(
            HistoryPhase::Read(names, runs),
            step::ActionView::ReadRun(
                common::under(
                    path::joined_path(common::runs_place(config.state_dir, job_id), names[0]),
                    "result.json"@,
                ),
            ),
        )
    }
}

/// What a look at the last runs does next.
pub open spec fn history_next(
    config: config::ConfigView,
    job_id: Seq<char>,
    limit: usize,
    phase: HistoryPhase,
    event: step::EventView,
) -> step::StepView<HistoryPhase, records::HistoryView> {
    if config::find_job(config.jobs, job_id) is None {
        step::StepView::Finish(Err(config::unknown_job(job_id)))
    } else if let step::EventView::Failed(e) = event {
        step::StepView::Finish(Err(e))
    } else {
        match phase {
            HistoryPhase::Start => step::StepView::Continue(
                HistoryPhase::List,
                step::ActionView::ListRuns(common::runs_place(config.state_dir, job_id)),
            ),
            HistoryPhase::List => match event {
                step::EventView::ListFailed(cause) => step::StepView::Finish(
                    Err(
                        error::plain_error(
                            "state_unreadable"@,
                            cause,
                            false,
                            "Check state directory permissions."@,
                        ),
                    ),
                ),
                _ => history_read(
                    config,
                    job_id,
                    limited(common::newest_first(event->Names_0), limit),
                    Seq::empty(),
                ),
            },
            HistoryPhase::Read(names, runs) => history_read(
                config,
                job_id,
                names.drop_first(),
                runs.push(event->Run_0),
            ),
        }
    }
}

/// Asks for the next result, if there is one.
fn read_next(config: &AppConfig, job_id: &str, names: Vec<FilePath>, runs: Vec<RunRecord>) -> (r:
    Step<HistoryState, HistoryRecord>)
    ensures
        r@ == history_read(
            config@,
            job_id@,
            step::path_views(names@),
            records::run_views(runs@),
        ),
{
    if names.len() == 0 {
        let record: HistoryRecord = HistoryRecord {
            schema_version: 1,
            operation: "history",
            status: "available",
            job_id: job_id.to_owned(),
            count: runs.len(),
            runs,
            next_actions: text::one_text(text::cat3("hpc-sync status ", job_id, " --json")),
        };
        return Step::Finish(Ok(record));
    }
    let p: FilePath = common::runs_dir(config, job_id).join(&names[0]).join_text("result.json");
    Step::Continue(HistoryState::Read(names, runs), Action::ReadRun(p))
}

/// Goes on after the list of runs.
fn take_names(config: &AppConfig, job_id: &str, limit: usize, names: Vec<FilePath>) -> (r: Step<
    HistoryState,
    HistoryRecord,
>)
    ensures
        r@ == history_read(
            config@,
            job_id@,
            limited(common::newest_first(step::path_views(names@)), limit),
            Seq::empty(),
        ),
{
    let mut sorted: Vec<FilePath> = common::sort_newest_first(names);
    let ghost all = step::path_views(sorted@);
    sorted.truncate(limit);
    let runs: Vec<RunRecord> = Vec::new();
    proof {
        assert(step::path_views(sorted@) =~= limited(all, limit));
        assert(records::run_views(runs@) =~= Seq::<records::RunView>::empty());
    }
    read_next(config, job_id, sorted, runs)
}

/// Goes on after one result.
fn take_run(
    config: &AppConfig,
    job_id: &str,
    names: Vec<FilePath>,
    runs: Vec<RunRecord>,
    run: RunRecord,
) -> (r: Step<HistoryState, HistoryRecord>)
    requires
        names@.len() > 0,
    ensures
        r@ == history_read(
            config@,
            job_id@,
            step::path_views(names@).drop_first(),
            records::run_views(runs@).push(run@),
        ),
{
    let mut rest: Vec<FilePath> = names;
    rest.remove(0);
    let mut all: Vec<RunRecord> = runs;
    all.push(run);
    proof {
        assert(step::path_views(rest@) =~= step::path_views(names@).drop_first());
        assert(records::run_views(all@) =~= records::run_views(runs@).push(run@));
    }
    read_next(config, job_id, rest, all)
}

/// One step of a look at the last runs of a job, at most `limit` of them.
pub fn history_job(
    config: &AppConfig,
    job_id: &str,
    limit: usize,
    state: HistoryState,
    event: Event,
) -> (r: Step<HistoryState, HistoryRecord>)
    requires
        history_expects(state@, event@),
    ensures
        r@ == history_next(config@, job_id@, limit, state@, event@),
{
    match config.job(job_id) {
        Err(e) => {
            return Step::Finish(Err(e));
        },
        Ok(_) => {},
    }
    match (state, event) {
        (_, Event::Failed(e)) => Step::Finish(Err(e)),
        (HistoryState::Start, _) => Step::Continue(
            HistoryState::List,
            Action::ListRuns(common::runs_dir(config, job_id)),
        ),
        (HistoryState::List, Event::ListFailed(cause)) => Step::Finish(
            Err(
                AppError::new(
                    "state_unreadable",
                    cause,
                    false,
                    "Check state directory permissions.",
                ),
            ),
        ),
        (HistoryState::List, Event::Names(names)) => take_names(config, job_id, limit, names),
        (HistoryState::Read(names, runs), Event::Run(run)) => take_run(
            config,
            job_id,
            names,
            runs,
            run,
        ),
        (_, _) => vstd::pervasive::unreached(),
    }
}

} // verus!
