//! One round of the dashboard: what it fetches before it draws, and which key ends it.
use super::handler::{Key, KeyCode};
use super::state;
use super::state::{App, AppMode};
use crate::protocol;
use crate::protocol::ServerResponse;
use crate::text;
use vstd::prelude::*;

verus! {

/// How far a round has come.
#[derive(Debug, Clone, Copy, PartialEq, Eq, Structural)]
pub enum Progress {
    /// The round begins.
    Begun,
    /// The tasks were fetched, or were not wanted.
    TasksDone,
    /// The daemon was looked for, or was not wanted.
    StatusDone,
    /// The log was fetched, or was not wanted.
    LogDone,
}

/// What a round does next.
#[derive(Debug)]
pub enum Chore {
    /// Ask the daemon for the tasks.
    FetchTasks,
    /// Find out whether the daemon runs.
    CheckServer,
    /// Ask the daemon for the log of a task.
    FetchLog(String),
    /// Draw, and wait for a key.
    Draw,
}

/// What a [`Chore`] holds.
#[verifier::ext_equal]
pub enum ChoreView {
    FetchTasks,
    CheckServer,
    FetchLog(Seq<char>),
    Draw,
}

impl View for Chore {
    type V = ChoreView;

    open spec fn view(&self) -> ChoreView {
        match self {
            Chore::FetchTasks => ChoreView::FetchTasks,
            Chore::CheckServer => ChoreView::CheckServer,
            Chore::FetchLog(id) => ChoreView::FetchLog(id@),
            Chore::Draw => ChoreView::Draw,
        }
    }
}

/// Whether at least so many seconds have passed, in times of milliseconds.
pub open spec fn is_due(since: u64, now: u64, seconds: int) -> bool {
    now - since >= seconds * 1000
}

/// Tells whether at least so many seconds have passed.
fn due(since: u64, now: u64, seconds: u16) -> (r: bool)
    ensures
        r == is_due(since, now, seconds as int),
{
    now >= since && now - since >= seconds as u64 * 1000
}

/// What follows the tasks and the daemon: the log, where one is shown that is two seconds old.
pub open spec fn after_status(app: state::AppView, now: u64) -> ChoreView {
    if app.mode == AppMode::LogView && is_due(app.view_log_last_fetch, now, 2) {
        ChoreView::FetchLog(app.view_log_task_id)
    } else {
        ChoreView::Draw
    }
}

/// What follows the tasks: while they are shown, the daemon is looked for every three seconds.
pub open spec fn after_tasks(app: state::AppView, now: u64) -> ChoreView {
    if app.mode == AppMode::Dashboard && is_due(app.server_status_last_check, now, 3) {
        ChoreView::CheckServer
    } else {
        after_status(app, now)
    }
}

/// What a round does next: it fetches what is shown, and then draws.
pub open spec fn next_chore(app: state::AppView, progress: Progress, now: u64) -> ChoreView {
    match progress {
        Progress::Begun => if app.mode == AppMode::Dashboard {
            ChoreView::FetchTasks
        } else {
            after_tasks(app, now)
        },
        Progress::TasksDone => after_tasks(app, now),
        Progress::StatusDone => after_status(app, now),
        Progress::LogDone => ChoreView::Draw,
    }
}

/// Says what a round does next.
pub fn run_app(app: &App, progress: Progress, now: u64) -> (r: Chore)
    ensures
        r@ == next_chore(app@, progress, now),
{
    let on_tasks: bool = app.mode == AppMode::Dashboard;
    let begun: bool = progress == Progress::Begun;
    if begun && on_tasks {
        return Chore::FetchTasks;
    }
    if (begun || progress == Progress::TasksDone) && on_tasks && due(
        app.server_status_last_check,
        now,
        3,
    ) {
        return Chore::CheckServer;
    }
    if progress != Progress::LogDone && app.mode == AppMode::LogView && due(
        app.view_log_last_fetch,
        now,
        2,
    ) {
        return Chore::FetchLog(app.view_log_task_id.clone());
    }
    Chore::Draw
}

/// The dashboard with the answer to a request for the tasks: a daemon that does not run has none.
pub open spec fn with_tasks(
    app: state::AppView,
    response: protocol::ResponseView,
) -> state::AppView {
    match response {
        protocol::ResponseView::State(tasks) => state::AppView {
            tasks,
            server_status: Some(true),
            ..app
        },
        protocol::ResponseView::Error(e) => if text::has_part(e, "not running"@) {
            state::AppView { tasks: Seq::empty(), server_status: Some(false), ..app }
        } else {
            app
        },
        _ => app,
    }
}

/// Takes the answer to a request for the tasks.
pub fn take_tasks(app: &mut App, response: ServerResponse)
    ensures
        final(app)@ == with_tasks(old(app)@, response@),
{
    match response {
        ServerResponse::State(tasks) => {
            app.tasks = tasks;
            app.server_status = Some(true);
        },
        ServerResponse::Error(e) => {
            if text::contains(&e, "not running") {
                app.tasks = Vec::new();
                app.server_status = Some(false);
                proof {
                    assert(app@.tasks =~= Seq::empty());
                }
            }
        },
        _ => {},
    }
}

/// The dashboard with what came of looking for the daemon.
pub open spec fn with_status(app: state::AppView, running: bool, now: u64) -> state::AppView {
    state::AppView { server_status: Some(running), server_status_last_check: now, ..app }
}

/// Takes what came of looking for the daemon, at a time in milliseconds.
pub fn take_status(app: &mut App, running: bool, now: u64)
    ensures
        final(app)@ == (state::AppView {
            server_status: Some(running),
            server_status_last_check: now,
            ..old(app)@
        }),
        final(app)@ == with_status(old(app)@, running, now),
{
    app.server_status = Some(running);
    app.server_status_last_check = now;
}

/// Whether a key ends the dashboard whatever is shown.
pub open spec fn ends_at_once(key: Key) -> bool {
    key.control && key.code == KeyCode::Char('c')
}

/// Tells whether a key ends the dashboard whatever is shown.
pub fn is_interrupt(key: Key) -> (r: bool)
    ensures
        r == ends_at_once(key),
{
    match key.code {
        KeyCode::Char(c) => key.control && c == 'c',
        _ => false,
    }
}

} // verus!
