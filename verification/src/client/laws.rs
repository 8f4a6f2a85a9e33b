//! What holds of the dashboard whatever is typed.
use super::cursor;
use super::handler;
use super::handler::{HandlerResult, Key, KeyCode};
use super::state;
use super::state::AppMode;
use crate::protocol;
use crate::protocol::{SyncDirection, SyncMode};
use vstd::prelude::*;

verus! {

/// Whether what is selected among the hosts and the entries of a directory is there, where there
/// are any.
pub open spec fn selections_hold(app: state::AppView) -> bool {
    &&& app.saved_hosts.len() > 0 ==> app.host_list_idx < app.saved_hosts.len()
    &&& app.dir_entries.len() > 0 ==> app.selected_idx < app.dir_entries.len()
}

/// At the start nothing is selected that is not there.
pub proof fn law_selections_hold_at_the_start(start: Seq<char>, hosts: Seq<Seq<char>>, now: u64)
    ensures
        selections_hold(state::initial(start, hosts, now)),
{
}

/// No key moves a selection out of its list, or leaves it behind when the list shrinks.
pub proof fn law_keys_keep_selections(app: state::AppView, key: Key)
    requires
        selections_hold(app),
        handler::can_take(app, key),
        app.saved_hosts.len() <= usize::MAX,
        app.dir_entries.len() <= usize::MAX,
    ensures
        selections_hold(handler::key_turn(app, key).0),
{
}

/// Neither an answer of the daemon nor the saved hosts leave a selection out of its list.
pub proof fn law_answers_keep_selections(
    app: state::AppView,
    waiting: handler::WaitingView,
    response: protocol::ResponseView,
    hosts: Seq<Seq<char>>,
    now: u64,
)
    requires
        selections_hold(app),
    ensures
        selections_hold(handler::answer_turn(app, waiting, response, now).0),
        selections_hold(handler::with_hosts(app, hosts)),
{
}

/// While the ways to treat files are shown, the selection stays among the four of them. The arrows
/// move it by one and stop at the ends; Enter takes the way at the selection; a blank turns
/// compression on or off and changes nothing else. No key leaves the dashboard.
pub proof fn law_ways_to_treat_files_are_chosen(app: state::AppView, key: Key)
    requires
        app.sync_mode_selected_idx <= 3,
    ensures
        ({
            let at = app.sync_mode_selected_idx;
            let (next, action) = handler::mode_turn(app, key);
            &&& app.mode == AppMode::SyncModeSelect ==> handler::key_turn(app, key) == (
                next,
                action,
            )
            &&& next.sync_mode_selected_idx <= 3
            &&& next.sync_mode_selected_idx == match key.code {
                KeyCode::Down => if at < 3 {
                    at + 1
                } else {
                    3
                },
                KeyCode::Up => if at > 0 {
                    at - 1
                } else {
                    0
                },
                _ => at as int,
            }
            &&& next.pending_sync_mode == if key.code is Enter {
                seq![
                    SyncMode::Mirror,
                    SyncMode::AddOnly,
                    SyncMode::SafeSync,
                    SyncMode::Update,
                ][at as int]
            } else {
                app.pending_sync_mode
            }
            &&& key.code == KeyCode::Char(' ') ==> next == (state::AppView {
                pending_compress: !app.pending_compress,
                ..app
            })
            &&& key.code != KeyCode::Char(' ') ==> next.pending_compress == app.pending_compress
            &&& !(key.code is Enter) ==> action == handler::ActionView::Finish(
                HandlerResult::Continue,
            )
            &&& action != handler::ActionView::Finish(HandlerResult::Quit)
        }),
{
}

/// No answer of the daemon leaves the dashboard.
pub proof fn law_answers_do_not_leave(
    app: state::AppView,
    waiting: handler::WaitingView,
    response: protocol::ResponseView,
    now: u64,
)
    ensures
        handler::answer_turn(app, waiting, response, now).1 != handler::ActionView::Finish(
            HandlerResult::Quit,
        ),
{
}

/// The dashboard is left with a Q while the tasks are shown, and in no other way by a key alone.
pub proof fn law_only_the_tasks_are_left(app: state::AppView, key: Key)
    ensures
        handler::key_turn(app, key).1 == handler::ActionView::Finish(HandlerResult::Quit) <==> {
            &&& app.mode == AppMode::Dashboard
            &&& handler::is_char(key, 'q', 'Q')
        },
{
}

/// Going back asks the daemon for nothing and writes nothing.
pub proof fn law_going_back_asks_nothing(app: state::AppView, key: Key)
    requires
        key.code is Esc,
    ensures
        handler::key_turn(app, key).1 == handler::ActionView::Finish(HandlerResult::Continue),
{
}

/// A task is only asked for at the end of its steps: by the choice of the remote directory where it
/// sends, and by the choice of the way to treat files where it receives. It carries what was chosen
/// on the way.
pub proof fn law_tasks_start_at_the_last_step(app: state::AppView, key: Key, task: protocol::TaskView)
    requires
        handler::key_turn(app, key).1 == handler::ActionView::Send(
            protocol::RequestView::StartTask(task),
            handler::WaitingView::Start,
        ),
    ensures
        task.source == app.pending_source,
        task.remote_host == app.pending_remote_host,
        task.remote_port == app.pending_remote_port,
        task.password == app.pending_password,
        task.sync_direction == app.pending_sync_direction,
        task.compress == app.pending_compress,
        match app.pending_sync_direction {
            SyncDirection::Push => {
                &&& app.mode == AppMode::RemoteBrowser
                &&& task.remote_path == handler::remote_choice(app)
                &&& task.sync_mode == app.pending_sync_mode
            },
            SyncDirection::Pull => {
                &&& app.mode == AppMode::SyncModeSelect
                &&& task.remote_path == app.remote_current_path
                &&& task.sync_mode == handler::mode_at(app.sync_mode_selected_idx)
            },
        },
{
}

/// The text that is edited, where a cursor moves in one.
pub open spec fn edited(app: state::AppView) -> Option<Seq<char>> {
    match app.mode {
        AppMode::RemoteHostInput => Some(app.input_remote_host),
        AppMode::RemotePortInput => Some(app.input_remote_port),
        _ => None,
    }
}

/// Whether the text that is edited holds ASCII characters alone, with the cursor in it.
pub open spec fn cursor_in_ascii(app: state::AppView) -> bool {
    edited(app) matches Some(s) ==> vstd::utf8::is_ascii_chars(s) && app.input_cursor_pos
        <= s.len()
}

/// In a text of ASCII characters, bytes count characters.
proof fn lemma_ascii_bytes(s: Seq<char>)
    requires
        vstd::utf8::is_ascii_chars(s),
    ensures
        cursor::byte_len(s) == s.len(),
{
    vstd::utf8::is_ascii_chars_encode_utf8(s);
}

/// In a text of ASCII characters, every position lies between two characters.
pub proof fn lemma_ascii_boundary(s: Seq<char>, pos: usize)
    requires
        vstd::utf8::is_ascii_chars(s),
        pos <= s.len(),
    ensures
        cursor::is_boundary(s, pos),
        cursor::chars_before(s, pos) == pos,
    decreases s.len(),
{
    lemma_ascii_bytes(s);
    assert(vstd::utf8::is_ascii_chars(s.take(pos as int)));
    lemma_ascii_bytes(s.take(pos as int));
    if s.len() > pos {
        assert(vstd::utf8::is_ascii_chars(s.drop_last()));
        lemma_ascii_boundary(s.drop_last(), pos);
    }
}

/// While a host or a port of ASCII characters is edited with the cursor in it, every key can be
/// taken, and the cursor stays in the text.
pub proof fn law_editing_ascii_keeps_the_cursor(app: state::AppView, key: Key)
    requires
        cursor_in_ascii(app),
        edited(app) matches Some(s) && s.len() < usize::MAX,
        key.code matches KeyCode::Char(c) ==> (c as u32) < 0x80,
    ensures
        handler::can_take(app, key),
        ({
            let next = handler::key_turn(app, key).0;
            next.mode == app.mode ==> cursor_in_ascii(next)
        }),
{
    let s = edited(app)->0;
    let pos = app.input_cursor_pos;
    lemma_ascii_bytes(s);
    lemma_ascii_boundary(s, pos);
    if pos > 0 {
        lemma_ascii_boundary(s, (pos - 1) as usize);
    }
    let next = handler::key_turn(app, key).0;
    if next.mode == app.mode {
        let t = edited(next)->0;
        assert forall|i: int| 0 <= i < t.len() implies #[trigger] t[i] as u32 <= 0x7f by {
            if let KeyCode::Char(c) = key.code {
                if t != s {
                    if i < pos {
                        assert(t[i] == s[i]);
                    } else if i == pos {
                        assert(t[i] == c);
                    } else {
                        assert(t[i] == s[i - 1]);
                    }
                }
            }
        }
    }
}

} // verus!
