//! What the dashboard makes of what it is told: the answers of the daemon, the saved hosts and the
//! time.
use super::config;
use super::handler;
use super::handler::{Key, KeyCode};
use super::key_laws;
use super::network;
use super::network::Exchange;
use super::session;
use super::session::Progress;
use super::state;
use super::state::AppMode;
use crate::protocol;
use crate::protocol::{SyncDirection, SyncMode};
use crate::{lines, text};
use vstd::prelude::*;

verus! {

// ---------------------------------------------------------------------------
// Answers
// ---------------------------------------------------------------------------
/// The entries of a directory are shown as they came, below an entry for the directory above, with
/// that first entry selected. An error leaves the entries and leads where the question said.
pub proof fn law_entries_are_shown(
    app: state::AppView,
    list: Seq<Seq<char>>,
    error: Seq<char>,
    failure: Option<AppMode>,
    scroll: bool,
    now: u64,
)
    ensures
        forall|waiting: handler::WaitingView|
            waiting == handler::WaitingView::LocalList(failure, scroll) || waiting
                == handler::WaitingView::RemoteList(failure) ==> {
                let told = #[trigger] handler::answer_turn(
                    app,
                    waiting,
                    protocol::ResponseView::DirList(list),
                    now,
                );
                &&& told.1 == key_laws::nothing()
                &&& told.0.dir_entries.len() == list.len() + 1
                &&& told.0.dir_entries[0] == ".."@
                &&& told.0.dir_entries.skip(1) == list
                &&& told.0.selected_idx == 0
                &&& told.0.browser_list_state == Some(0usize)
                &&& told.0 == (state::AppView {
                    dir_entries: told.0.dir_entries,
                    selected_idx: 0,
                    browser_list_state: Some(0usize),
                    ..app
                })
            },
        forall|waiting: handler::WaitingView|
            waiting == handler::WaitingView::LocalList(failure, false) || waiting
                == handler::WaitingView::RemoteList(failure) ==> #[trigger] handler::answer_turn(
                app,
                waiting,
                protocol::ResponseView::Error(error),
                now,
            ) == (
                state::AppView {
                    mode: match failure {
                        Some(m) => m,
                        None => app.mode,
                    },
                    ..app
                },
                key_laws::nothing(),
            ),
{
    assert forall|waiting: handler::WaitingView|
        waiting == handler::WaitingView::LocalList(failure, scroll) || waiting
            == handler::WaitingView::RemoteList(failure) implies (#[trigger] handler::answer_turn(
        app,
        waiting,
        protocol::ResponseView::DirList(list),
        now,
    )).0.dir_entries.skip(1) == list by {
        let told = handler::answer_turn(app, waiting, protocol::ResponseView::DirList(list), now);
        assert(told.0.dir_entries == seq![".."@] + list);
        assert(told.0.dir_entries.skip(1) =~= list);
    }
}

/// The remote home directory is the one that is shown next, and its entries are asked for at the
/// host that was chosen; where it is not known, those of the root are.
pub proof fn law_the_remote_home_is_entered(
    app: state::AppView,
    failure: Option<AppMode>,
    response: protocol::ResponseView,
    now: u64,
)
    ensures
        ({
            let place = match response {
                protocol::ResponseView::RemoteHome(p) => p,
                _ => "/"@,
            };
            handler::answer_turn(app, handler::WaitingView::RemoteHome(failure), response, now) == (
                state::AppView { remote_current_path: place, ..app },
                key_laws::asks(
                    protocol::RequestView::ListRemoteDirs(
                        app.pending_remote_host,
                        app.pending_remote_port,
                        place,
                        app.pending_password,
                    ),
                    handler::WaitingView::RemoteList(failure),
                ),
            )
        }),
{
}

/// A task that was started leads back to the tasks, with what was put together for it forgotten. One
/// that was not leaves everything, to be tried once more.
pub proof fn law_started_tasks_lead_back(
    app: state::AppView,
    response: protocol::ResponseView,
    now: u64,
)
    ensures
        ({
            let told = handler::answer_turn(app, handler::WaitingView::Start, response, now);
            &&& told.1 == key_laws::nothing()
            &&& response is Ack ==> told.0 == (state::AppView {
                mode: AppMode::Dashboard,
                pending_source: Seq::empty(),
                remote_current_path: Seq::empty(),
                ..app
            })
            &&& !(response is Ack) ==> told.0 == app
        }),
{
    reveal_strlit("");
    assert(""@ =~= Seq::<char>::empty());
}

/// The changes of a dry run are shown from the first one, under the id that was asked for. Any other
/// answer changes nothing.
pub proof fn law_dry_runs_are_shown(
    app: state::AppView,
    id: Seq<char>,
    response: protocol::ResponseView,
    now: u64,
)
    ensures
        ({
            let told = handler::answer_turn(app, handler::WaitingView::DryRun(id), response, now);
            &&& told.1 == key_laws::nothing()
            &&& response matches protocol::ResponseView::DryRunResult(changes) ==> told.0
                == (state::AppView {
                dry_run_results: changes,
                dry_run_task_id: id,
                dry_run_scroll: 0,
                mode: AppMode::DryRunView,
                ..app
            })
            &&& !(response is DryRunResult) ==> told.0 == app
        }),
{
}

/// A log is shown under the id that was asked for, so that the last twenty of its lines, or all of
/// fewer, are below; fetched once more, it stays where it was read. Any other answer changes nothing.
pub proof fn law_logs_are_shown(
    app: state::AppView,
    id: Seq<char>,
    response: protocol::ResponseView,
    now: u64,
)
    requires
        response matches protocol::ResponseView::TaskLog(_, log) ==> lines::lines(log).len()
            <= usize::MAX,
    ensures
        ({
            let told = handler::answer_turn(app, handler::WaitingView::Log(id), response, now);
            &&& told.1 == key_laws::nothing()
            &&& response matches protocol::ResponseView::TaskLog(_, log) ==> {
                &&& told.0 == (state::AppView {
                    view_task_log: log,
                    view_log_task_id: id,
                    view_log_scroll: told.0.view_log_scroll,
                    view_log_last_fetch: now,
                    mode: AppMode::LogView,
                    ..app
                })
                &&& lines::lines(log).len() <= 20 ==> told.0.view_log_scroll == 0
                &&& lines::lines(log).len() > 20 ==> lines::lines(log).skip(
                    told.0.view_log_scroll as int,
                ).len() == 20
            }
            &&& !(response is TaskLog) ==> told.0 == app
        }),
        handler::answer_turn(app, handler::WaitingView::RefreshLog, response, now) == (
            match response {
                protocol::ResponseView::TaskLog(_, log) => state::AppView {
                    view_task_log: log,
                    view_log_last_fetch: now,
                    ..app
                },
                _ => app,
            },
            key_laws::nothing(),
        ),
{
}

/// A directory that was made leads back to the list, which is asked for once more, in the directory
/// and at the host where it was. What went wrong instead is shown in place of the name.
pub proof fn law_made_directories_are_listed(
    app: state::AppView,
    error: Seq<char>,
    now: u64,
)
    ensures
        handler::answer_turn(
            app,
            handler::WaitingView::MakeLocalDir,
            protocol::ResponseView::Ack,
            now,
        ) == (
            state::AppView { mode: AppMode::LocalBrowser, ..app },
            key_laws::asks(
                protocol::RequestView::ListLocalDirs(app.current_path),
                handler::WaitingView::LocalList(None, false),
            ),
        ),
        handler::answer_turn(
            app,
            handler::WaitingView::MakeRemoteDir,
            protocol::ResponseView::Ack,
            now,
        ) == (
            state::AppView { mode: AppMode::RemoteBrowser, ..app },
            key_laws::asks(
                protocol::RequestView::ListRemoteDirs(
                    app.pending_remote_host,
                    app.pending_remote_port,
                    app.remote_current_path,
                    app.pending_password,
                ),
                handler::WaitingView::RemoteList(None),
            ),
        ),
        forall|waiting: handler::WaitingView|
            waiting is MakeLocalDir || waiting is MakeRemoteDir ==> #[trigger] handler::answer_turn(
                app,
                waiting,
                protocol::ResponseView::Error(error),
                now,
            ) == (
                state::AppView { input_new_dir: "Error: "@ + error, ..app },
                key_laws::nothing(),
            ),
{
}

/// An answer that nothing waits for changes nothing, and no answer changes the tasks, the saved
/// hosts, the direction, the way to treat files or the password of the task that is put together.
pub proof fn law_answers_keep_what_was_chosen(
    app: state::AppView,
    waiting: handler::WaitingView,
    response: protocol::ResponseView,
    now: u64,
)
    ensures
        ({
            let told = handler::answer_turn(app, waiting, response, now);
            &&& waiting is Nothing ==> told == (app, key_laws::nothing())
            &&& told.0.tasks == app.tasks
            &&& told.0.dashboard_selected_idx == app.dashboard_selected_idx
            &&& told.0.saved_hosts == app.saved_hosts
            &&& told.0.current_path == app.current_path
            &&& told.0.pending_remote_host == app.pending_remote_host
            &&& told.0.pending_remote_port == app.pending_remote_port
            &&& told.0.pending_password == app.pending_password
            &&& told.0.pending_sync_direction == app.pending_sync_direction
            &&& told.0.pending_sync_mode == app.pending_sync_mode
            &&& told.0.pending_compress == app.pending_compress
            &&& !(waiting is Start) ==> told.0.pending_source == app.pending_source
        }),
{
}

// ---------------------------------------------------------------------------
// Hosts
// ---------------------------------------------------------------------------
/// Saved hosts are offered from the first one; without any, an empty host is typed in.
pub proof fn law_hosts_are_offered(app: state::AppView, hosts: Seq<Seq<char>>)
    ensures
        ({
            let next = handler::with_hosts(app, hosts);
            &&& next.saved_hosts == hosts
            &&& hosts.len() > 0 ==> next == (state::AppView {
                saved_hosts: hosts,
                mode: AppMode::HostSelect,
                host_list_idx: 0,
                ..app
            })
            &&& hosts.len() == 0 ==> next == (state::AppView {
                saved_hosts: hosts,
                mode: AppMode::RemoteHostInput,
                input_remote_host: Seq::empty(),
                input_cursor_pos: next.input_cursor_pos,
                is_editing_host: false,
                ..app
            })
            &&& hosts.len() == 0 && app.pending_sync_direction == SyncDirection::Pull
                ==> next.input_cursor_pos == 0
        }),
{
    reveal_strlit("");
    assert(""@ =~= Seq::<char>::empty());
}

/// The hosts of a file are its lines without the white space around them, but for empty ones and
/// those that start with a number sign, in their order.
pub proof fn law_hosts_are_the_lines_of_their_file(content: Seq<char>)
    ensures
        config::hosts_in(Some(content)) == lines::lines(content).map_values(
            |line: Seq<char>| text::trimmed(line),
        ).filter(|line: Seq<char>| line.len() > 0 && line[0] != '#'),
        config::hosts_in(None) == Seq::<Seq<char>>::empty(),
{
    lemma_hosts_among(lines::lines(content));
}

proof fn lemma_hosts_among(list: Seq<Seq<char>>)
    ensures
        config::hosts_among(list) == list.map_values(
            |line: Seq<char>| text::trimmed(line),
        ).filter(|line: Seq<char>| line.len() > 0 && line[0] != '#'),
    decreases list.len(),
{
    reveal(Seq::filter);
    let trimming = |line: Seq<char>| text::trimmed(line);
    let all = list.map_values(trimming);
    if list.len() > 0 {
        lemma_hosts_among(list.drop_last());
        assert(all.drop_last() =~= list.drop_last().map_values(trimming));
        assert(all.last() == text::trimmed(list.last()));
    }
}

// ---------------------------------------------------------------------------
// Rounds
// ---------------------------------------------------------------------------
/// A round asks for the tasks once, at its beginning, while they are shown and never otherwise; it
/// looks for the daemon where it did not for three seconds, while the tasks are shown; and it asks
/// for a log that is shown where it did not for two seconds.
pub proof fn law_rounds_fetch_what_is_shown(
    app: state::AppView,
    progress: Progress,
    now: u64,
    id: Seq<char>,
)
    ensures
        ({
            let chore = session::next_chore(app, progress, now);
            &&& chore is FetchTasks <==> progress == Progress::Begun && app.mode
                == AppMode::Dashboard
            &&& chore is CheckServer <==> progress == Progress::TasksDone && app.mode
                == AppMode::Dashboard && now >= app.server_status_last_check + 3000
            &&& chore == session::ChoreView::FetchLog(id) <==> progress != Progress::LogDone
                && app.mode == AppMode::LogView && now >= app.view_log_last_fetch + 2000 && id
                == app.view_log_task_id
        }),
{
}

/// The tasks that the daemon tells are shown as they came. A daemon that does not run has none;
/// after another error the tasks that were shown stay.
pub proof fn law_tasks_are_shown_as_told(
    app: state::AppView,
    tasks: Seq<protocol::TaskView>,
    before: Seq<char>,
    after: Seq<char>,
    other: protocol::ResponseView,
)
    ensures
        session::with_tasks(app, protocol::ResponseView::State(tasks)) == (state::AppView {
            tasks,
            server_status: Some(true),
            ..app
        }),
        session::with_tasks(
            app,
            protocol::ResponseView::Error(before + "not running"@ + after),
        ) == (state::AppView { tasks: Seq::empty(), server_status: Some(false), ..app }),
        !(other is State) && !(other is Error) ==> session::with_tasks(app, other) == app,
        (other matches protocol::ResponseView::Error(e) && !(exists|i: int|
            0 <= i <= e.len() && #[trigger] e.skip(i).take("not running"@.len() as int)
                == "not running"@)) ==> session::with_tasks(app, other) == app,
{
    let part = "not running"@;
    let whole = before + part + after;
    let at = before.len() as int;
    assert(whole.subrange(at, at + part.len()) =~= part);
    assert(text::occurs_at(whole, part, at));
    if let protocol::ResponseView::Error(e) = other {
        if text::has_part(e, part) {
            let i = choose|i: int| text::occurs_at(e, part, i);
            assert(e.skip(i).take(part.len() as int) =~= e.subrange(i, i + part.len()));
        }
    }
}

/// A daemon that does not listen is told apart: the tasks that were shown are gone, and it is shown
/// as not running. Nothing else that fails on the way to the daemon has this effect.
pub proof fn law_missing_daemons_are_noticed(app: state::AppView)
    ensures
        session::with_tasks(app, network::taken_for(Exchange::NotConnected)) == (state::AppView {
            tasks: Seq::empty(),
            server_status: Some(false),
            ..app
        }),
        session::with_tasks(app, network::taken_for(Exchange::NotSent)) == app,
        session::with_tasks(app, network::taken_for(Exchange::Empty)) == app,
{
    let part = "not running"@;
    reveal_strlit("not running");
    reveal_strlit("Daemon not running!");
    reveal_strlit("Failed to send request");
    reveal_strlit("Empty response");
    let told = "Daemon not running!"@;
    assert(told.subrange(7, 7int + part.len()) =~= part);
    assert(text::occurs_at(told, part, 7));
    assert(part[10] == 'g');
    lemma_no_part("Failed to send request"@, part, 'g');
    lemma_no_part("Empty response"@, part, 'g');
}

/// What lacks a character of a part does not hold the part.
proof fn lemma_no_part(s: Seq<char>, part: Seq<char>, c: char)
    requires
        part.contains(c),
        !s.contains(c),
    ensures
        !text::has_part(s, part),
{
    assert forall|at: int| text::occurs_at(s, part, at) implies false by {
        let k = choose|k: int| 0 <= k < part.len() && part[k] == c;
        assert(s.subrange(at, at + part.len())[k] == s[at + k]);
        assert(s[at + k] == c);
    }
}

/// What comes of a request is the answer where the daemon answered, and an error that tells what
/// failed otherwise.
pub proof fn law_failures_are_told(exchange: Exchange)
    ensures
        exchange matches Exchange::Answered(r) ==> network::taken_for(exchange) == r@,
        !(exchange is Answered) ==> network::taken_for(exchange) is Error,
        exchange matches Exchange::Unserializable(e) ==> exists|before: Seq<char>|
            network::taken_for(exchange) == protocol::ResponseView::Error(
                #[trigger] (before + e@),
            ),
        exchange matches Exchange::ReadFailed(e) ==> exists|before: Seq<char>|
            network::taken_for(exchange) == protocol::ResponseView::Error(
                #[trigger] (before + e@),
            ),
        exchange matches Exchange::Unparsable(e) ==> exists|before: Seq<char>|
            network::taken_for(exchange) == protocol::ResponseView::Error(
                #[trigger] (before + e@),
            ),
{
}

/// Control and C end the dashboard, whatever is shown; no other key does.
pub proof fn law_interrupts_end_the_dashboard(key: Key)
    ensures
        session::ends_at_once(key) <==> key.control && key.code == KeyCode::Char('c'),
{
}

/// The dashboard starts with the tasks, none of them known yet, in the directory that it is given,
/// and a task that is put together sends, mirrors and compresses, through the usual port and without
/// a password, where nothing else is chosen.
pub proof fn law_the_dashboard_starts_empty(start: Seq<char>, hosts: Seq<Seq<char>>, now: u64)
    ensures
        ({
            let app = state::initial(start, hosts, now);
            &&& app.mode == AppMode::Dashboard
            &&& app.tasks.len() == 0
            &&& app.current_path == start
            &&& app.saved_hosts == hosts
            &&& app.pending_sync_direction == SyncDirection::Push
            &&& app.pending_sync_mode == SyncMode::Mirror
            &&& app.pending_compress
            &&& app.pending_remote_port == Some(22u16)
            &&& app.input_remote_port == "22"@
            &&& app.pending_password is None
            &&& !app.show_password
            &&& app.server_status is None
            &&& app.pending_source.len() == 0
            &&& app.remote_current_path.len() == 0
            &&& app.pending_remote_host.len() == 0
            &&& app.view_log_last_fetch == now
            &&& app.server_status_last_check == now
            &&& session::next_chore(app, Progress::Begun, now) is FetchTasks
        }),
{
    reveal_strlit("");
}

/// A daemon that was looked for, or started anew, is shown as it was found, and is not looked for
/// again until three seconds later. Nothing else changes, and nothing at all where it did not start.
pub proof fn law_the_daemon_is_known_for_a_while(
    app: state::AppView,
    running: bool,
    now: u64,
    later: u64,
)
    requires
        now + 3000 <= u64::MAX,
    ensures
        ({
            let told = session::with_status(app, running, now);
            &&& told.server_status == Some(running)
            &&& told == (state::AppView {
                server_status: told.server_status,
                server_status_last_check: now,
                ..app
            })
            &&& later < now + 3000 ==> !(session::next_chore(told, Progress::TasksDone, later)
                is CheckServer)
            &&& app.mode == AppMode::Dashboard && later >= now + 3000 ==> session::next_chore(
                told,
                Progress::TasksDone,
                later,
            ) is CheckServer
            &&& handler::after_restart(app, false, now) == app
            &&& handler::after_restart(app, true, now) == session::with_status(app, true, now)
        }),
{
}

} // verus!
