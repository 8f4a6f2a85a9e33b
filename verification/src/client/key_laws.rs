//! What each key does: what it asks the daemon for, what it chooses and what it leaves alone.
use super::browse;
use super::cursor;
use super::handler;
use super::handler::{HandlerResult, Key, KeyCode};
use super::state;
use super::state::AppMode;
use crate::protocol;
use crate::protocol::{SyncDirection, SyncMode};
use crate::{number, text};
use vstd::prelude::*;

verus! {

/// Whether a key is one of two characters.
pub open spec fn is_pressed(key: Key, small: char, big: char) -> bool {
    key.code == KeyCode::Char(small) || key.code == KeyCode::Char(big)
}

/// Nothing further is to be done.
pub open spec fn nothing() -> handler::ActionView {
    handler::ActionView::Finish(HandlerResult::Continue)
}

/// A question to the daemon.
pub open spec fn asks(q: protocol::RequestView, w: handler::WaitingView) -> handler::ActionView {
    handler::ActionView::Send(q, w)
}

// ---------------------------------------------------------------------------
// The tasks
// ---------------------------------------------------------------------------
/// The place of the selected task: the last one where the selection lies beyond.
pub open spec fn chosen_place(app: state::AppView) -> int {
    if app.dashboard_selected_idx < app.tasks.len() {
        app.dashboard_selected_idx as int
    } else {
        app.tasks.len() - 1
    }
}

/// While the tasks are shown, each key does one thing to the selected task and no other key does
/// it: R without Control asks for its dry run and waits for the changes, S restarts it, D stops it,
/// and L asks for its log. Without tasks there is nothing to ask for.
pub proof fn law_tasks_are_worked_on_by_their_keys(
    app: state::AppView,
    key: Key,
    id: Seq<char>,
    waiting: handler::WaitingView,
)
    requires
        app.mode == AppMode::Dashboard,
    ensures
        ({
            let action = handler::key_turn(app, key).1;
            let selected = app.tasks.len() > 0 && id == app.tasks[chosen_place(app)].id;
            &&& action == asks(protocol::RequestView::DryRun(id), waiting) <==> selected
                && is_pressed(key, 'r', 'R') && !key.control && waiting
                == handler::WaitingView::DryRun(id)
            &&& action == asks(protocol::RequestView::RestartTask(id), waiting) <==> selected
                && is_pressed(key, 's', 'S') && waiting == handler::WaitingView::Nothing
            &&& action == asks(protocol::RequestView::StopTask(id), waiting) <==> selected
                && is_pressed(key, 'd', 'D') && waiting == handler::WaitingView::Nothing
            &&& action == asks(protocol::RequestView::GetTaskLog(id), waiting) <==> selected
                && is_pressed(key, 'l', 'L') && waiting == handler::WaitingView::Log(id)
        }),
{
}

/// While the tasks are shown, A begins a task that sends and P one that receives, Control and R
/// start the daemon anew, and Q leaves. No other key does any of this, and nothing else is asked of
/// the daemon than the directory of a new task and what is asked about the selected one.
pub proof fn law_tasks_begin_by_their_keys(app: state::AppView, key: Key)
    requires
        app.mode == AppMode::Dashboard,
    ensures
        ({
            let (next, action) = handler::key_turn(app, key);
            &&& action == asks(
                protocol::RequestView::ListLocalDirs(app.current_path),
                handler::WaitingView::LocalList(Some(AppMode::Dashboard), false),
            ) <==> is_pressed(key, 'a', 'A')
            &&& is_pressed(key, 'a', 'A') ==> next.mode == AppMode::LocalBrowser
                && next.pending_sync_direction == SyncDirection::Push
            &&& action is LoadHosts <==> is_pressed(key, 'p', 'P')
            &&& is_pressed(key, 'p', 'P') ==> next.pending_sync_direction == SyncDirection::Pull
            &&& action is RestartServer <==> is_pressed(key, 'r', 'R') && key.control
            &&& action == handler::ActionView::Finish(HandlerResult::Quit) <==> is_pressed(
                key,
                'q',
                'Q',
            )
            &&& action is Send ==> {
                ||| is_pressed(key, 'a', 'A')
                ||| is_pressed(key, 'd', 'D')
                ||| is_pressed(key, 'r', 'R')
                ||| is_pressed(key, 's', 'S')
                ||| is_pressed(key, 'l', 'L')
            }
            &&& !is_pressed(key, 'a', 'A') ==> next.mode == app.mode
            &&& next.tasks == app.tasks
        }),
{
}

/// The arrows move the selection by one task and stop at the ends. Stopping the last task moves the
/// selection to the one before it. Other keys leave a selection that is there where it is.
pub proof fn law_selection_follows_the_arrows(app: state::AppView, key: Key)
    requires
        app.mode == AppMode::Dashboard,
        app.dashboard_selected_idx < app.tasks.len() <= usize::MAX,
    ensures
        ({
            let next = handler::key_turn(app, key).0;
            let at = app.dashboard_selected_idx as int;
            let last = app.tasks.len() - 1;
            &&& next.dashboard_selected_idx as int == if key.code is Down && at < last {
                at + 1
            } else if (key.code is Up || is_pressed(key, 'd', 'D') && at == last) && at > 0 {
                at - 1
            } else {
                at
            }
            &&& key.code is Down || key.code is Up ==> handler::key_turn(app, key).1 == nothing()
        }),
{
}

/// What changes tasks, directories or the saved hosts comes from one key in one place alone, in
/// whatever is shown: stopping, restarting and previewing a task and starting the daemon anew from
/// the tasks, making directories from the field in which they are named, writing hosts from the
/// list of hosts, and new tasks from the last of their steps.
pub proof fn law_changes_come_from_their_places(app: state::AppView, key: Key)
    ensures
        ({
            let action = handler::key_turn(app, key).1;
            &&& action matches handler::ActionView::Send(protocol::RequestView::StopTask(_), _)
                ==> app.mode == AppMode::Dashboard && is_pressed(key, 'd', 'D')
            &&& action matches handler::ActionView::Send(protocol::RequestView::RestartTask(_), _)
                ==> app.mode == AppMode::Dashboard && is_pressed(key, 's', 'S')
            &&& action matches handler::ActionView::Send(protocol::RequestView::DryRun(_), _)
                ==> app.mode == AppMode::Dashboard && is_pressed(key, 'r', 'R') && !key.control
            &&& action is RestartServer ==> app.mode == AppMode::Dashboard && key.control
            &&& action matches handler::ActionView::Send(
                protocol::RequestView::CreateRemoteDir(_, _, _, _),
                _,
            ) ==> app.mode == AppMode::CreateRemoteDir && key.code is Enter
            &&& action matches handler::ActionView::Send(
                protocol::RequestView::CreateLocalDir(_),
                _,
            ) ==> app.mode == AppMode::CreateLocalDir && key.code is Enter
            &&& action is SaveHosts ==> app.mode == AppMode::HostSelect && is_pressed(key, 'd', 'D')
            &&& action matches handler::ActionView::Send(protocol::RequestView::StartTask(_), _)
                ==> {
                ||| app.mode == AppMode::RemoteBrowser && app.pending_sync_direction
                    == SyncDirection::Push && key.code == KeyCode::Char(' ')
                ||| app.mode == AppMode::SyncModeSelect && app.pending_sync_direction
                    == SyncDirection::Pull && key.code is Enter
            }
        }),
{
}

// ---------------------------------------------------------------------------
// New tasks
// ---------------------------------------------------------------------------
/// A path with a name under it.
pub open spec fn path_under(p: Seq<char>, name: Seq<char>) -> Seq<char> {
    if p == "/"@ {
        "/"@ + name
    } else {
        p + "/"@ + name
    }
}

/// Whether a task is the new one that was put together, with a remote path and a mode.
pub open spec fn is_new_task(
    app: state::AppView,
    task: protocol::TaskView,
    remote_path: Seq<char>,
    mode: SyncMode,
) -> bool {
    &&& task.id == "task_"@ + number::decimal((app.tasks.len() + 1) as nat)
    &&& task.source == app.pending_source
    &&& task.remote_host == app.pending_remote_host
    &&& task.remote_port == app.pending_remote_port
    &&& task.remote_path == remote_path
    &&& task.status == "STARTING"@
    &&& task.last_log == "Created"@
    &&& task.poll_interval == 5
    &&& task.sync_mode == mode
    &&& task.sync_direction == app.pending_sync_direction
    &&& task.compress == app.pending_compress
    &&& task.password == app.pending_password
}

/// The way to treat files at each place of the list.
pub open spec fn way_at(at: int) -> SyncMode {
    seq![SyncMode::Mirror, SyncMode::AddOnly, SyncMode::SafeSync, SyncMode::Update][at]
}

/// A task that receives is complete with the way to treat files: Enter asks the daemon to start it,
/// from the remote directory that was chosen before. One that sends goes on to the remote home
/// directory, at the host that was chosen.
pub proof fn law_ways_complete_the_task(app: state::AppView, key: Key)
    requires
        app.mode == AppMode::SyncModeSelect,
        app.sync_mode_selected_idx <= 3,
        key.code is Enter,
    ensures
        ({
            let (next, action) = handler::key_turn(app, key);
            match app.pending_sync_direction {
                SyncDirection::Pull => action matches handler::ActionView::Send(
                    protocol::RequestView::StartTask(task),
                    waiting,
                ) && waiting == handler::WaitingView::Start && is_new_task(
                    app,
                    task,
                    app.remote_current_path,
                    way_at(app.sync_mode_selected_idx as int),
                ),
                SyncDirection::Push => action == asks(
                    protocol::RequestView::GetRemoteHome(
                        app.pending_remote_host,
                        app.pending_remote_port,
                        app.pending_password,
                    ),
                    handler::WaitingView::RemoteHome(Some(AppMode::SyncModeSelect)),
                ) && next.mode == AppMode::RemoteBrowser,
            }
        }),
{
}

/// A remote directory is chosen with a blank. It is the selected one, or the one that is shown
/// where the first entry is selected. A task that sends is complete with it: the daemon is asked to
/// start it. One that receives keeps it and goes on to the local directories.
pub proof fn law_remote_directories_are_chosen(app: state::AppView, key: Key)
    requires
        app.mode == AppMode::RemoteBrowser,
        key.code == KeyCode::Char(' '),
        app.selected_idx < app.dir_entries.len(),
        browse::is_tidy(
            if app.dir_entries[app.selected_idx as int] == ".."@ {
                app.remote_current_path
            } else {
                path_under(app.remote_current_path, app.dir_entries[app.selected_idx as int])
            },
        ),
    ensures
        ({
            let (next, action) = handler::key_turn(app, key);
            let entry = app.dir_entries[app.selected_idx as int];
            let place = if entry == ".."@ {
                app.remote_current_path
            } else {
                path_under(app.remote_current_path, entry)
            };
            match app.pending_sync_direction {
                SyncDirection::Push => {
                    &&& next == app
                    &&& action matches handler::ActionView::Send(
                        protocol::RequestView::StartTask(task),
                        waiting,
                    ) && waiting == handler::WaitingView::Start && is_new_task(
                        app,
                        task,
                        place,
                        app.pending_sync_mode,
                    )
                },
                SyncDirection::Pull => {
                    &&& next == (state::AppView {
                        remote_current_path: place,
                        mode: AppMode::LocalBrowser,
                        ..app
                    })
                    &&& action == asks(
                        protocol::RequestView::ListLocalDirs(app.current_path),
                        handler::WaitingView::LocalList(Some(AppMode::Dashboard), false),
                    )
                },
            }
        }),
{
    let entry = app.dir_entries[app.selected_idx as int];
    if entry == ".."@ {
        browse::lemma_tidy_stays(app.remote_current_path);
    } else {
        browse::lemma_tidy_stays(path_under(app.remote_current_path, entry));
    }
}

/// A remote directory is entered with Enter: the entries of the selected one are asked for, at the
/// host that was chosen, and it is the one that is shown from then on. The first entry leads to the
/// directory above, where there is one.
pub proof fn law_remote_directories_are_entered(app: state::AppView, key: Key)
    requires
        app.mode == AppMode::RemoteBrowser,
        key.code is Enter,
        app.selected_idx < app.dir_entries.len(),
    ensures
        ({
            let (next, action) = handler::key_turn(app, key);
            let entry = app.dir_entries[app.selected_idx as int];
            let p = app.remote_current_path;
            &&& action == asks(
                protocol::RequestView::ListRemoteDirs(
                    app.pending_remote_host,
                    app.pending_remote_port,
                    next.remote_current_path,
                    app.pending_password,
                ),
                handler::WaitingView::RemoteList(None),
            )
            &&& next == (state::AppView { remote_current_path: next.remote_current_path, ..app })
            &&& entry != ".."@ && browse::is_tidy(path_under(p, entry)) ==> next.remote_current_path
                == path_under(p, entry)
            &&& entry == ".."@ && browse::is_tidy(p) && browse::parent_path(p) is None
                ==> next.remote_current_path == p
            &&& entry == ".."@ && (browse::parent_path(p) matches Some(q) && q.len() > 0
                && browse::is_tidy(q)) ==> next.remote_current_path == browse::parent_path(p)->0
            &&& entry == ".."@ && (browse::parent_path(p) matches Some(q) && q.len() == 0)
                ==> next.remote_current_path == "/"@
        }),
{
    let entry = app.dir_entries[app.selected_idx as int];
    let p = app.remote_current_path;
    reveal_strlit("/");
    if entry != ".."@ {
        if browse::is_tidy(path_under(p, entry)) {
            browse::lemma_tidy_stays(path_under(p, entry));
        }
    } else {
        match browse::parent_path(p) {
            Some(q) => if q.len() > 0 {
                if browse::is_tidy(q) {
                    browse::lemma_tidy_stays(q);
                }
            } else {
                browse::lemma_tidy_stays("/"@);
            },
            None => {
                if browse::is_tidy(p) {
                    browse::lemma_tidy_stays(p);
                }
            },
        }
    }
}

/// The name of an entry of a local listing: a directory is listed with a slash behind its name.
pub open spec fn names(entry: Seq<char>, name: Seq<char>) -> bool {
    &&& name.len() > 0 && name.last() != '/'
    &&& entry == name || entry == name + "/"@
}

proof fn lemma_name(entry: Seq<char>, name: Seq<char>)
    requires
        names(entry, name),
    ensures
        text::without_trailing(entry, '/') == name,
        text::ends_in(entry, '/') <==> entry != name,
{
    reveal_strlit("/");
    if entry != name {
        assert(entry.drop_last() =~= name);
        assert(entry.last() == '/');
    }
    assert(text::without_trailing(name, '/') == name);
}

/// A local path is chosen with a blank: the selected entry in the directory that is shown, without
/// the slash of a directory, or that directory itself where the first entry is selected. A task
/// that sends goes on to the hosts, one that receives to the way to treat files.
pub proof fn law_local_paths_are_chosen(app: state::AppView, key: Key, name: Seq<char>)
    requires
        app.mode == AppMode::LocalBrowser,
        key.code == KeyCode::Char(' '),
        app.selected_idx < app.dir_entries.len(),
        names(app.dir_entries[app.selected_idx as int], name),
    ensures
        ({
            let (next, action) = handler::key_turn(app, key);
            &&& next.pending_source == if app.dir_entries[app.selected_idx as int] == ".."@ {
                app.current_path
            } else {
                path_under(app.current_path, name)
            }
            &&& app.pending_sync_direction == SyncDirection::Push ==> action is LoadHosts
                && next.mode == app.mode
            &&& app.pending_sync_direction == SyncDirection::Pull ==> action == nothing()
                && next.mode == AppMode::SyncModeSelect && next.sync_mode_selected_idx == 0
            &&& next.current_path == app.current_path
            &&& next.pending_remote_host == app.pending_remote_host
            &&& next.remote_current_path == app.remote_current_path
        }),
{
    lemma_name(app.dir_entries[app.selected_idx as int], name);
}

/// A local directory is entered with Enter: its entries are asked for, and it is the one that is
/// shown from then on. A file cannot be entered. The first entry leads to the directory above, or
/// to the root where there is none.
pub proof fn law_local_directories_are_entered(app: state::AppView, key: Key, name: Seq<char>)
    requires
        app.mode == AppMode::LocalBrowser,
        key.code is Enter,
        app.selected_idx < app.dir_entries.len(),
        names(app.dir_entries[app.selected_idx as int], name),
    ensures
        ({
            let (next, action) = handler::key_turn(app, key);
            let entry = app.dir_entries[app.selected_idx as int];
            let p = app.current_path;
            &&& entry == name && entry != ".."@ ==> next == app && action == nothing()
            &&& entry != name || entry == ".."@ ==> action == asks(
                protocol::RequestView::ListLocalDirs(next.current_path),
                handler::WaitingView::LocalList(None, true),
            ) && next == (state::AppView { current_path: next.current_path, ..app })
            &&& entry != name && entry != ".."@ && browse::is_tidy(path_under(p, name))
                ==> next.current_path == path_under(p, name)
            &&& entry == ".."@ && (browse::parent_path(p) matches Some(q) && browse::is_tidy(q))
                ==> next.current_path == browse::parent_path(p)->0
            &&& entry == ".."@ && browse::parent_path(p) is None ==> next.current_path == "/"@
        }),
{
    let entry = app.dir_entries[app.selected_idx as int];
    let p = app.current_path;
    lemma_name(entry, name);
    reveal_strlit("/");
    browse::lemma_tidy_stays("/"@);
    if browse::is_tidy(path_under(p, name)) {
        browse::lemma_tidy_stays(path_under(p, name));
    }
    if let Some(q) = browse::parent_path(p) {
        if browse::is_tidy(q) {
            browse::lemma_tidy_stays(q);
        }
    }
}

/// In a list of directories the arrows move the selection by one entry, stop at the ends and change
/// nothing else; N begins to name a new directory there; and Escape leaves the list.
pub proof fn law_lists_are_walked(app: state::AppView, key: Key)
    requires
        app.mode == AppMode::LocalBrowser || app.mode == AppMode::RemoteBrowser,
        app.selected_idx < app.dir_entries.len(),
    ensures
        ({
            let (next, action) = handler::key_turn(app, key);
            let at = app.selected_idx as int;
            let last = app.dir_entries.len() - 1;
            &&& key.code is Down && at < last ==> next == (state::AppView {
                selected_idx: (at + 1) as usize,
                browser_list_state: Some((at + 1) as usize),
                ..app
            }) && action == nothing()
            &&& key.code is Up && at > 0 ==> next == (state::AppView {
                selected_idx: (at - 1) as usize,
                browser_list_state: Some((at - 1) as usize),
                ..app
            }) && action == nothing()
            &&& key.code is Down && at == last || key.code is Up && at == 0 ==> next == app
                && action == nothing()
            &&& is_pressed(key, 'n', 'N') ==> action == nothing() && next.input_new_dir.len() == 0
                && next.mode == if app.mode == AppMode::LocalBrowser {
                AppMode::CreateLocalDir
            } else {
                AppMode::CreateRemoteDir
            }
            &&& key.code is Esc ==> action == nothing() && next == (state::AppView {
                mode: if app.mode == AppMode::LocalBrowser && app.pending_sync_direction
                    == SyncDirection::Pull && app.pending_remote_host.len() > 0 {
                    AppMode::RemoteBrowser
                } else {
                    AppMode::Dashboard
                },
                ..app
            })
        }),
{
    reveal_strlit("");
}

/// A new directory is made with Enter in the directory that is shown, under the name that was typed
/// in, without white space around it; a remote one at the host that was chosen. Without a name
/// nothing is made.
pub proof fn law_new_directories_are_named(app: state::AppView, key: Key)
    requires
        app.mode == AppMode::CreateLocalDir || app.mode == AppMode::CreateRemoteDir,
    ensures
        ({
            let (next, action) = handler::key_turn(app, key);
            let name = text::trimmed(app.input_new_dir);
            let remote = app.mode == AppMode::CreateRemoteDir;
            let back = state::AppView {
                mode: if remote {
                    AppMode::RemoteBrowser
                } else {
                    AppMode::LocalBrowser
                },
                ..app
            };
            &&& key.code is Enter && name.len() > 0 ==> next == app && action == if remote {
                asks(
                    protocol::RequestView::CreateRemoteDir(
                        app.pending_remote_host,
                        app.pending_remote_port,
                        path_under(app.remote_current_path, name),
                        app.pending_password,
                    ),
                    handler::WaitingView::MakeRemoteDir,
                )
            } else {
                asks(
                    protocol::RequestView::CreateLocalDir(path_under(app.current_path, name)),
                    handler::WaitingView::MakeLocalDir,
                )
            }
            &&& key.code is Enter && name.len() == 0 || key.code is Esc ==> next == back && action
                == nothing()
            &&& key.code matches KeyCode::Char(c) ==> next == (state::AppView {
                input_new_dir: app.input_new_dir.push(c),
                ..app
            }) && action == nothing()
            &&& key.code is Backspace && app.input_new_dir.len() > 0 ==> next == (state::AppView {
                input_new_dir: app.input_new_dir.drop_last(),
                ..app
            }) && action == nothing()
        }),
{
}

// ---------------------------------------------------------------------------
// Hosts, ports and passwords
// ---------------------------------------------------------------------------
/// Among the saved hosts the arrows move the selection by one; Enter takes the selected host and
/// goes on to an empty, hidden password; A begins an empty host and E the selected one, with the
/// cursor at its end; D forgets the selected host and no other, and writes down the others.
pub proof fn law_saved_hosts_are_used(app: state::AppView, key: Key)
    requires
        app.mode == AppMode::HostSelect,
        app.host_list_idx < app.saved_hosts.len() <= usize::MAX,
    ensures
        ({
            let (next, action) = handler::key_turn(app, key);
            let at = app.host_list_idx as int;
            let last = app.saved_hosts.len() - 1;
            let host = app.saved_hosts[at];
            &&& key.code is Enter ==> action == nothing() && next == (state::AppView {
                pending_remote_host: host,
                mode: AppMode::PasswordInput,
                input_password: Seq::empty(),
                show_password: false,
                ..app
            })
            &&& is_pressed(key, 'a', 'A') ==> action == nothing() && next == (state::AppView {
                mode: AppMode::RemoteHostInput,
                input_remote_host: Seq::empty(),
                input_cursor_pos: 0,
                is_editing_host: false,
                ..app
            })
            &&& is_pressed(key, 'e', 'E') ==> action == nothing() && next == (state::AppView {
                mode: AppMode::RemoteHostInput,
                input_remote_host: host,
                input_cursor_pos: vstd::utf8::encode_utf8(host).len() as usize,
                is_editing_host: true,
                ..app
            })
            &&& is_pressed(key, 'd', 'D') ==> next.saved_hosts == app.saved_hosts.remove(at)
                && action == handler::ActionView::SaveHosts(app.saved_hosts.remove(at))
                && next.mode == app.mode
            &&& next.host_list_idx == if key.code is Down && at < last {
                at + 1
            } else if (key.code is Up || is_pressed(key, 'd', 'D') && at == last) && at > 0 {
                at - 1
            } else {
                at
            }
            &&& key.code is Esc ==> action == nothing() && next == (state::AppView {
                mode: AppMode::LocalBrowser,
                ..app
            })
        }),
{
    reveal_strlit("");
    assert(""@ =~= Seq::<char>::empty());
}

/// A host that is typed in with a port after a colon is parted into the two, white space around it
/// left out; one without a colon is taken as it is, with the usual port. The port is offered next,
/// with the cursor at its end.
pub proof fn law_typed_hosts_are_taken(app: state::AppView, key: Key, host: Seq<char>, port: u16)
    requires
        app.mode == AppMode::RemoteHostInput,
        key.code is Enter,
        host.len() > 0,
        !host.contains(':'),
        !text::is_space(host[0]),
        !text::is_space(host.last()),
    ensures
        app.input_remote_host == host + seq![':'] + number::decimal(port as nat) ==> {
            let (next, action) = handler::key_turn(app, key);
            &&& action == nothing()
            &&& next.mode == AppMode::RemotePortInput
            &&& next.pending_remote_host == host
            &&& next.input_remote_port == number::decimal(port as nat)
            &&& next.input_cursor_pos == next.input_remote_port.len()
        },
        app.input_remote_host == host ==> {
            let (next, action) = handler::key_turn(app, key);
            &&& action == nothing()
            &&& next.mode == AppMode::RemotePortInput
            &&& next.pending_remote_host == host
            &&& next.input_remote_port == "22"@
            &&& next.input_cursor_pos == 2
        },
{
    let digits = number::decimal(port as nat);
    number::lemma_decimal_digits(port as nat);
    if app.input_remote_host == host + seq![':'] + digits {
        let s = app.input_remote_host;
        assert(s[0] == host[0]);
        assert(s.last() == digits.last());
        assert(text::is_digit(digits[digits.len() - 1]));
        text::lemma_trimmed_fixed(s);
        browse::law_host_and_port_are_read_back(host, port);
        lemma_short_digits(port);
        assert(vstd::utf8::is_ascii_chars(digits)) by {
            assert forall|i: int| 0 <= i < digits.len() implies 0 <= #[trigger] digits[i] as u32
                <= 127 by {
                assert(text::is_digit(digits[i]));
            }
        }
        vstd::utf8::is_ascii_chars_encode_utf8(digits);
    }
    if app.input_remote_host == host {
        text::lemma_trimmed_fixed(host);
        browse::lemma_last_colon(host);
        lemma_no_last_colon(host);
        reveal_strlit("22");
        assert(vstd::utf8::is_ascii_chars("22"@));
        vstd::utf8::is_ascii_chars_encode_utf8("22"@);
    }
}

proof fn lemma_no_last_colon(s: Seq<char>)
    requires
        !s.contains(':'),
    ensures
        browse::last_colon(s) == -1,
    decreases s.len(),
{
    if s.len() > 0 {
        assert(s[s.len() - 1] == s.last());
        assert forall|c: char| s.drop_last().contains(c) implies s.contains(c) by {
            let k = choose|k: int| 0 <= k < s.drop_last().len() && s.drop_last()[k] == c;
            assert(s[k] == c);
        }
        lemma_no_last_colon(s.drop_last());
    }
}

proof fn lemma_short_digits(port: u16)
    ensures
        number::decimal(port as nat).len() <= 5,
{
    reveal_with_fuel(number::decimal, 6);
}

/// The port that is typed in is taken with Enter: the number that it stands for, or the usual one
/// where it stands for none. An empty, hidden password is next.
pub proof fn law_typed_ports_are_taken(app: state::AppView, key: Key, port: u16)
    requires
        app.mode == AppMode::RemotePortInput,
        key.code is Enter,
    ensures
        ({
            let (next, action) = handler::key_turn(app, key);
            &&& action == nothing()
            &&& next == (state::AppView {
                pending_remote_port: next.pending_remote_port,
                mode: AppMode::PasswordInput,
                input_password: Seq::empty(),
                show_password: false,
                ..app
            })
            &&& app.input_remote_port == number::decimal(port as nat) ==> next.pending_remote_port
                == Some(port)
            &&& app.input_remote_port.len() == 0 ==> next.pending_remote_port == Some(22u16)
        }),
{
    reveal_strlit("");
    assert(""@ =~= Seq::<char>::empty());
    let digits = number::decimal(port as nat);
    number::lemma_decimal_digits(port as nat);
    assert(text::is_digit(digits[0]));
    assert(text::is_digit(digits[digits.len() - 1]));
    text::lemma_trimmed_fixed(digits);
    number::law_decimal_round_trip(port as nat, u16::MAX as nat);
}

/// While a host is typed in, a character is put in at the cursor, Backspace takes out the one before
/// it and Delete the one after it, the arrows, Home and End move it, and nothing else changes. So it
/// is in texts of ASCII characters.
pub proof fn law_hosts_are_edited(app: state::AppView, key: Key)
    requires
        app.mode == AppMode::RemoteHostInput,
        vstd::utf8::is_ascii_chars(app.input_remote_host),
        app.input_cursor_pos <= app.input_remote_host.len() < usize::MAX,
    ensures
        ({
            let (next, action) = handler::key_turn(app, key);
            let s = app.input_remote_host;
            let at = app.input_cursor_pos as int;
            let edited = |t: Seq<char>, to: int|
                state::AppView { input_remote_host: t, input_cursor_pos: to as usize, ..app };
            &&& action == nothing()
            &&& key.code matches KeyCode::Char(c) ==> next == edited(s.insert(at, c), at + 1)
            &&& key.code is Backspace && at > 0 ==> next == edited(s.remove(at - 1), at - 1)
            &&& key.code is Delete && at < s.len() ==> next == edited(s.remove(at), at)
            &&& key.code is Left && at > 0 ==> next == edited(s, at - 1)
            &&& key.code is Right && at < s.len() ==> next == edited(s, at + 1)
            &&& key.code is Home ==> next == edited(s, 0)
            &&& key.code is End ==> next == edited(s, s.len() as int)
            &&& key.code is Backspace && at == 0 || key.code is Delete && at == s.len()
                || key.code is Left && at == 0 || key.code is Right && at == s.len() ==> next == app
        }),
{
    let s = app.input_remote_host;
    let at = app.input_cursor_pos;
    vstd::utf8::is_ascii_chars_encode_utf8(s);
    super::laws::lemma_ascii_boundary(s, at);
    if at > 0 {
        super::laws::lemma_ascii_boundary(s, (at - 1) as usize);
    }
    if let KeyCode::Char(c) = key.code {
        assert(cursor::with_char(s, at, c) =~= s.insert(at as int, c));
    }
}

/// While a port is typed in, a digit is put in at the cursor and other characters are not; Backspace
/// takes off the last character.
pub proof fn law_ports_are_edited(app: state::AppView, key: Key)
    requires
        app.mode == AppMode::RemotePortInput,
        vstd::utf8::is_ascii_chars(app.input_remote_port),
        app.input_cursor_pos <= app.input_remote_port.len() < usize::MAX,
    ensures
        ({
            let (next, action) = handler::key_turn(app, key);
            let s = app.input_remote_port;
            let at = app.input_cursor_pos as int;
            let edited = |t: Seq<char>, to: int|
                state::AppView { input_remote_port: t, input_cursor_pos: to as usize, ..app };
            &&& action == nothing()
            &&& key.code matches KeyCode::Char(c) ==> next == if '0' <= c <= '9' {
                edited(s.insert(at, c), at + 1)
            } else {
                app
            }
            &&& key.code is Backspace && s.len() > 0 ==> next == edited(
                s.drop_last(),
                if at > 0 {
                    at - 1
                } else {
                    0
                },
            )
            &&& key.code is Left && at > 0 ==> next == edited(s, at - 1)
            &&& key.code is Right && at < s.len() ==> next == edited(s, at + 1)
            &&& key.code is Home ==> next == edited(s, 0)
            &&& key.code is End ==> next == edited(s, s.len() as int)
            &&& key.code is Esc ==> next == (state::AppView { mode: AppMode::RemoteHostInput, ..app })
        }),
{
    let s = app.input_remote_port;
    let at = app.input_cursor_pos;
    vstd::utf8::is_ascii_chars_encode_utf8(s);
    super::laws::lemma_ascii_boundary(s, at);
    if let KeyCode::Char(c) = key.code {
        assert(cursor::with_char(s, at, c) =~= s.insert(at as int, c));
    }
}

/// A password is typed in and taken back character by character, and Tab shows or hides it. Enter
/// takes it as it is, or none where there is nothing but white space. A task that sends goes on to
/// the way to treat files, one that receives asks for the remote home directory with it.
pub proof fn law_passwords_are_typed(app: state::AppView, key: Key)
    requires
        app.mode == AppMode::PasswordInput,
    ensures
        ({
            let (next, action) = handler::key_turn(app, key);
            let blank = forall|i: int|
                0 <= i < app.input_password.len() ==> text::is_space(
                    #[trigger] app.input_password[i],
                );
            &&& key.code matches KeyCode::Char(c) ==> action == nothing() && next
                == (state::AppView { input_password: app.input_password.push(c), ..app })
            &&& key.code is Backspace && app.input_password.len() > 0 ==> action == nothing()
                && next == (state::AppView {
                input_password: app.input_password.drop_last(),
                ..app
            })
            &&& key.code is Tab ==> action == nothing() && next == (state::AppView {
                show_password: !app.show_password,
                ..app
            })
            &&& key.code is Enter ==> next.pending_password == if blank {
                None::<Seq<char>>
            } else {
                Some(app.input_password)
            }
            &&& key.code is Enter && app.pending_sync_direction == SyncDirection::Push ==> action
                == nothing() && next.mode == AppMode::SyncModeSelect && next.sync_mode_selected_idx
                == 0
            &&& key.code is Enter && app.pending_sync_direction == SyncDirection::Pull ==> action
                == asks(
                protocol::RequestView::GetRemoteHome(
                    app.pending_remote_host,
                    app.pending_remote_port,
                    next.pending_password,
                ),
                handler::WaitingView::RemoteHome(Some(AppMode::PasswordInput)),
            ) && next.mode == AppMode::RemoteBrowser
            &&& key.code is Esc ==> action == nothing() && next == (state::AppView {
                mode: AppMode::RemotePortInput,
                ..app
            })
        }),
{
    text::law_trimming_removes_white_space(app.input_password);
}

// ---------------------------------------------------------------------------
// Dry runs and logs
// ---------------------------------------------------------------------------
/// The changes of a dry run are walked through line by line, and Escape leads back to the tasks.
/// Nothing is asked for.
pub proof fn law_dry_runs_are_read(app: state::AppView, key: Key)
    requires
        app.mode == AppMode::DryRunView,
    ensures
        ({
            let (next, action) = handler::key_turn(app, key);
            let at = app.dry_run_scroll as int;
            &&& action == nothing()
            &&& next == (state::AppView {
                mode: if key.code is Esc {
                    AppMode::Dashboard
                } else {
                    app.mode
                },
                dry_run_scroll: (if key.code is Down && at < app.dry_run_results.len() - 1 {
                    at + 1
                } else if key.code is Up && at > 0 {
                    at - 1
                } else {
                    at
                }) as usize,
                ..app
            })
        }),
{
}

/// A log is walked through by one line or by ten, R asks for the log of the same task once more, and
/// Escape or Q leads back to the tasks.
pub proof fn law_logs_are_read(app: state::AppView, key: Key)
    requires
        app.mode == AppMode::LogView,
        10 <= app.view_log_scroll < usize::MAX - 10,
    ensures
        ({
            let (next, action) = handler::key_turn(app, key);
            let at = app.view_log_scroll as int;
            &&& next == (state::AppView {
                mode: if key.code is Esc || is_pressed(key, 'q', 'Q') {
                    AppMode::Dashboard
                } else {
                    app.mode
                },
                view_log_scroll: (if key.code is Down || key.code == KeyCode::Char('j') {
                    at + 1
                } else if key.code is Up || key.code == KeyCode::Char('k') {
                    at - 1
                } else if key.code is PageDown {
                    at + 10
                } else if key.code is PageUp {
                    at - 10
                } else {
                    at
                }) as usize,
                ..app
            })
            &&& action == if is_pressed(key, 'r', 'R') {
                asks(
                    protocol::RequestView::GetTaskLog(app.view_log_task_id),
                    handler::WaitingView::RefreshLog,
                )
            } else {
                nothing()
            }
        }),
{
}

/// A log is never walked through beyond its first line.
pub proof fn law_logs_start_at_the_first_line(app: state::AppView, key: Key)
    requires
        app.mode == AppMode::LogView,
    ensures
        ({
            let next = handler::key_turn(app, key).0;
            &&& key.code is Up && app.view_log_scroll == 0 ==> next.view_log_scroll == 0
            &&& key.code is PageUp && app.view_log_scroll < 10 ==> next.view_log_scroll == 0
        }),
{
}

// ---------------------------------------------------------------------------
// Leaving, and keys without a meaning
// ---------------------------------------------------------------------------
/// Escape leads to the step before and changes nothing else: from the lists and views to the tasks,
/// and through the steps of a task one by one.
pub proof fn law_escape_leads_back(app: state::AppView, key: Key)
    requires
        key.code is Esc,
    ensures
        handler::key_turn(app, key) == (
            state::AppView {
                mode: match app.mode {
                    AppMode::Dashboard | AppMode::DryRunView | AppMode::LogView
                    | AppMode::RemoteBrowser => AppMode::Dashboard,
                    AppMode::LocalBrowser => if app.pending_sync_direction == SyncDirection::Pull
                        && app.pending_remote_host.len() > 0 {
                        AppMode::RemoteBrowser
                    } else {
                        AppMode::Dashboard
                    },
                    AppMode::HostSelect => AppMode::LocalBrowser,
                    AppMode::RemoteHostInput => if app.saved_hosts.len() > 0 {
                        AppMode::HostSelect
                    } else if app.pending_sync_direction == SyncDirection::Push {
                        AppMode::LocalBrowser
                    } else {
                        AppMode::Dashboard
                    },
                    AppMode::RemotePortInput => AppMode::RemoteHostInput,
                    AppMode::PasswordInput => AppMode::RemotePortInput,
                    AppMode::SyncModeSelect => if app.pending_sync_direction
                        == SyncDirection::Push {
                        AppMode::PasswordInput
                    } else {
                        AppMode::LocalBrowser
                    },
                    AppMode::CreateLocalDir => AppMode::LocalBrowser,
                    AppMode::CreateRemoteDir => AppMode::RemoteBrowser,
                },
                ..app
            },
            nothing(),
        ),
{
}

/// Whether a key has a meaning in what is shown.
pub open spec fn has_meaning(mode: AppMode, key: Key) -> bool {
    let code = key.code;
    match mode {
        AppMode::Dashboard => code is Down || code is Up || is_pressed(key, 'q', 'Q') || is_pressed(
            key,
            'a',
            'A',
        ) || is_pressed(key, 'p', 'P') || is_pressed(key, 'd', 'D') || is_pressed(key, 'r', 'R')
            || is_pressed(key, 's', 'S') || is_pressed(key, 'l', 'L'),
        AppMode::LocalBrowser | AppMode::RemoteBrowser => code is Esc || code is Down || code is Up
            || code is Enter || is_pressed(key, ' ', ' ') || is_pressed(key, 'n', 'N'),
        AppMode::HostSelect => code is Esc || code is Down || code is Up || code is Enter
            || is_pressed(key, 'a', 'A') || is_pressed(key, 'e', 'E') || is_pressed(key, 'd', 'D'),
        AppMode::RemoteHostInput => code is Esc || code is Enter || code is Left || code is Right
            || code is Backspace || code is Delete || code is Home || code is End || code is Char,
        AppMode::RemotePortInput => code is Esc || code is Enter || code is Left || code is Right
            || code is Backspace || code is Home || code is End || code is Char,
        AppMode::PasswordInput => code is Esc || code is Enter || code is Tab || code is Backspace
            || code is Char,
        AppMode::SyncModeSelect => code is Esc || code is Down || code is Up || code is Enter
            || is_pressed(key, ' ', ' '),
        AppMode::DryRunView => code is Esc || code is Down || code is Up,
        AppMode::LogView => code is Esc || code is Down || code is Up || code is PageDown
            || code is PageUp || is_pressed(key, 'j', 'j') || is_pressed(key, 'k', 'k')
            || is_pressed(key, 'q', 'Q') || is_pressed(key, 'r', 'R'),
        AppMode::CreateLocalDir | AppMode::CreateRemoteDir => code is Esc || code is Enter
            || code is Backspace || code is Char,
    }
}

/// A key without a meaning in what is shown changes nothing and asks for nothing.
pub proof fn law_other_keys_do_nothing(app: state::AppView, key: Key)
    requires
        !has_meaning(app.mode, key),
    ensures
        handler::key_turn(app, key) == (app, nothing()),
{
}

/// Every key can be taken where the selections are in their lists and the cursor stands between two
/// characters of what is typed in; where nothing is selected or typed in, every key can be taken in
/// any case, and so can Escape and the arrows up and down.
pub proof fn law_keys_can_be_taken(app: state::AppView, key: Key)
    ensures
        key.code is Esc || key.code is Up || key.code is Down ==> handler::can_take(app, key),
        app.mode == AppMode::Dashboard || app.mode == AppMode::PasswordInput || app.mode
            == AppMode::SyncModeSelect || app.mode == AppMode::DryRunView || app.mode
            == AppMode::LogView || app.mode == AppMode::CreateLocalDir || app.mode
            == AppMode::CreateRemoteDir ==> handler::can_take(app, key),
        (app.mode == AppMode::LocalBrowser || app.mode == AppMode::RemoteBrowser)
            && app.selected_idx < app.dir_entries.len() ==> handler::can_take(app, key),
        app.mode == AppMode::HostSelect && (app.saved_hosts.len() == 0 || app.host_list_idx
            < app.saved_hosts.len()) ==> handler::can_take(app, key),
        app.mode == AppMode::RemoteHostInput && vstd::utf8::is_ascii_chars(app.input_remote_host)
            && app.input_cursor_pos <= app.input_remote_host.len() < usize::MAX
            ==> handler::can_take(app, key),
        app.mode == AppMode::RemotePortInput && vstd::utf8::is_ascii_chars(app.input_remote_port)
            && app.input_cursor_pos <= app.input_remote_port.len() < usize::MAX
            ==> handler::can_take(app, key),
{
    let at = app.input_cursor_pos;
    let s = app.input_remote_host;
    let t = app.input_remote_port;
    if vstd::utf8::is_ascii_chars(s) && at <= s.len() {
        vstd::utf8::is_ascii_chars_encode_utf8(s);
        super::laws::lemma_ascii_boundary(s, at);
        if at > 0 {
            super::laws::lemma_ascii_boundary(s, (at - 1) as usize);
        }
    }
    if vstd::utf8::is_ascii_chars(t) && at <= t.len() {
        super::laws::lemma_ascii_boundary(t, at);
    }
}

} // verus!
