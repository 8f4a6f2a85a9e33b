//! What the dashboard does about a key.
use super::browse;
use super::cursor;
use super::state;
use super::state::{App, AppMode};
use crate::protocol;
use crate::protocol::{ClientRequest, ServerResponse, SyncDirection, SyncMode, SyncTask};
use crate::{lines, number, text};
use vstd::prelude::*;

verus! {

/// A key.
#[derive(Debug, Clone, Copy)]
pub enum KeyCode {
    Char(char),
    Enter,
    Esc,
    Backspace,
    Delete,
    Tab,
    Left,
    Right,
    Up,
    Down,
    Home,
    End,
    PageUp,
    PageDown,
    Other,
}

/// A key that was pressed, and whether the control key was held.
#[derive(Debug, Clone, Copy)]
pub struct Key {
    pub code: KeyCode,
    pub control: bool,
}

/// Whether the dashboard goes on.
#[derive(Debug, Clone, Copy, PartialEq, Eq, Structural)]
pub enum HandlerResult {
    Continue,
    Quit,
}

/// What an answer of the daemon is for.
#[derive(Debug)]
pub enum Waiting {
    /// The entries of the local directory: where to go if there are none, and whether the
    /// selection is shown in any case.
    LocalList(Option<AppMode>, bool),
    /// The remote home directory, and where to go if it cannot be listed.
    RemoteHome(Option<AppMode>),
    /// The entries of the remote directory, and where to go if there are none.
    RemoteList(Option<AppMode>),
    /// A new task.
    Start,
    /// What a task would change.
    DryRun(String),
    /// The log of a task.
    Log(String),
    /// The log that is shown, once more.
    RefreshLog,
    /// A new local directory.
    MakeLocalDir,
    /// A new remote directory.
    MakeRemoteDir,
    /// Nothing.
    Nothing,
}

/// What a [`Waiting`] holds.
#[verifier::ext_equal]
pub enum WaitingView {
    LocalList(Option<AppMode>, bool),
    RemoteHome(Option<AppMode>),
    RemoteList(Option<AppMode>),
    Start,
    DryRun(Seq<char>),
    Log(Seq<char>),
    RefreshLog,
    MakeLocalDir,
    MakeRemoteDir,
    Nothing,
}

impl View for Waiting {
    type V = WaitingView;

    open spec fn view(&self) -> WaitingView {
        match self {
            Waiting::LocalList(m, scroll) => WaitingView::LocalList(*m, *scroll),
            Waiting::RemoteHome(m) => WaitingView::RemoteHome(*m),
            Waiting::RemoteList(m) => WaitingView::RemoteList(*m),
            Waiting::Start => WaitingView::Start,
            Waiting::DryRun(id) => WaitingView::DryRun(id@),
            Waiting::Log(id) => WaitingView::Log(id@),
            Waiting::RefreshLog => WaitingView::RefreshLog,
            Waiting::MakeLocalDir => WaitingView::MakeLocalDir,
            Waiting::MakeRemoteDir => WaitingView::MakeRemoteDir,
            Waiting::Nothing => WaitingView::Nothing,
        }
    }
}

/// What the dashboard does next.
#[derive(Debug)]
pub enum Action {
    /// The key is dealt with.
    Finish(HandlerResult),
    /// Ask the daemon.
    Send(ClientRequest, Waiting),
    /// Read the saved hosts.
    LoadHosts,
    /// Write the saved hosts.
    SaveHosts(Vec<String>),
    /// Stop the daemon and start it anew.
    RestartServer,
}

/// What an [`Action`] holds.
#[verifier::ext_equal]
pub enum ActionView {
    Finish(HandlerResult),
    Send(protocol::RequestView, WaitingView),
    LoadHosts,
    SaveHosts(Seq<Seq<char>>),
    RestartServer,
}

impl View for Action {
    type V = ActionView;

    open spec fn view(&self) -> ActionView {
        match self {
            Action::Finish(r) => ActionView::Finish(*r),
            Action::Send(q, w) => ActionView::Send(q@, w@),
            Action::LoadHosts => ActionView::LoadHosts,
            Action::SaveHosts(list) => ActionView::SaveHosts(text::texts(list@)),
            Action::RestartServer => ActionView::RestartServer,
        }
    }
}

/// What follows: the dashboard as it is then, and what it does.
pub type Turn = (state::AppView, ActionView);

/// The key is dealt with.
pub open spec fn done(app: state::AppView) -> Turn {
    (app, ActionView::Finish(HandlerResult::Continue))
}

/// Whether a key is one of two characters.
pub open spec fn is_char(key: Key, small: char, big: char) -> bool {
    key.code matches KeyCode::Char(c) && (c == small || c == big)
}

/// Tells whether a key is one of two characters.
fn key_is(key: Key, small: char, big: char) -> (r: bool)
    ensures
        r == is_char(key, small, big),
{
    match key.code {
        KeyCode::Char(c) => c == small || c == big,
        _ => false,
    }
}

/// The last place of a list, or the first of an empty one.
pub open spec fn last_place(count: nat) -> int {
    if count == 0 {
        0
    } else {
        count - 1
    }
}

/// A place in a list, or the last one where it lies beyond.
pub open spec fn clamped(at: usize, count: nat) -> usize {
    if at >= count {
        last_place(count) as usize
    } else {
        at
    }
}

/// Finds the place in a list, or the last one where it lies beyond.
fn clamp(at: usize, count: usize) -> (r: usize)
    ensures
        r == clamped(at, count as nat),
{
    if at >= count {
        if count == 0 {
            0
        } else {
            count - 1
        }
    } else {
        at
    }
}

/// Whether a place in a list is not the last one.
fn has_next(at: usize, count: usize) -> (r: bool)
    ensures
        r == (at < last_place(count as nat)),
{
    count > 0 && at < count - 1
}

// ---------------------------------------------------------------------------
// Keys that the dashboard can take
// ---------------------------------------------------------------------------
/// Whether a key can be taken: what it selects is there, and what it edits is edited between two
/// characters.
pub open spec fn can_take(app: state::AppView, key: Key) -> bool {
    match app.mode {
        AppMode::LocalBrowser | AppMode::RemoteBrowser => {
            key.code is Enter || is_char(key, ' ', ' ') ==> app.selected_idx
                < app.dir_entries.len()
        },
        AppMode::HostSelect => {
            app.saved_hosts.len() > 0 && (key.code is Enter || is_char(key, 'e', 'E') || is_char(
                key,
                'd',
                'D',
            )) ==> app.host_list_idx < app.saved_hosts.len()
        },
        AppMode::RemoteHostInput => {
            let pos = app.input_cursor_pos;
            let s = app.input_remote_host;
            match key.code {
                KeyCode::Backspace => pos > 0 ==> pos - 1 < cursor::byte_len(s)
                    && cursor::is_boundary(s, (pos - 1) as usize),
                KeyCode::Delete => pos < cursor::byte_len(s) ==> cursor::is_boundary(s, pos),
                KeyCode::Char(_) => pos < usize::MAX && cursor::is_boundary(s, pos),
                _ => true,
            }
        },
        AppMode::RemotePortInput => {
            key.code matches KeyCode::Char(c) ==> text::is_digit(c) ==> app.input_cursor_pos
                < usize::MAX && cursor::is_boundary(app.input_remote_port, app.input_cursor_pos)
        },
        _ => true,
    }
}

/// Tells whether a key can be taken.
pub fn takes_key(app: &App, key: Key) -> (r: bool)
    ensures
        r == can_take(app@, key),
{
    let pos: usize = app.input_cursor_pos;
    match app.mode {
        AppMode::LocalBrowser | AppMode::RemoteBrowser => {
            let picks: bool = match key.code {
                KeyCode::Enter => true,
                _ => key_is(key, ' ', ' '),
            };
            !picks || app.selected_idx < app.dir_entries.len()
        },
        AppMode::HostSelect => {
            let picks: bool = match key.code {
                KeyCode::Enter => true,
                _ => key_is(key, 'e', 'E') || key_is(key, 'd', 'D'),
            };
            app.saved_hosts.len() == 0 || !picks || app.host_list_idx < app.saved_hosts.len()
        },
        AppMode::RemoteHostInput => {
            let size: usize = cursor::count_bytes(&app.input_remote_host);
            match key.code {
                KeyCode::Backspace => pos == 0 || (pos - 1 < size && cursor::is_at_boundary(
                    &app.input_remote_host,
                    pos - 1,
                )),
                KeyCode::Delete => pos >= size || cursor::is_at_boundary(
                    &app.input_remote_host,
                    pos,
                ),
                KeyCode::Char(_) => pos < usize::MAX && cursor::is_at_boundary(
                    &app.input_remote_host,
                    pos,
                ),
                _ => true,
            }
        },
        AppMode::RemotePortInput => match key.code {
            KeyCode::Char(c) => !text::is_digit_char(c) || (pos < usize::MAX
                && cursor::is_at_boundary(&app.input_remote_port, pos)),
            _ => true,
        },
        _ => true,
    }
}

// ---------------------------------------------------------------------------
// The tasks
// ---------------------------------------------------------------------------
/// The dashboard with its selection moved.
pub open spec fn selected(app: state::AppView, at: usize) -> state::AppView {
    state::AppView { dashboard_selected_idx: at, dashboard_list_state: Some(at), ..app }
}

/// The dashboard with its selection among the tasks.
pub open spec fn kept_in(app: state::AppView) -> state::AppView {
    state::AppView {
        dashboard_selected_idx: clamped(app.dashboard_selected_idx, app.tasks.len()),
        ..app
    }
}

/// The id of the selected task.
pub open spec fn selected_id(app: state::AppView) -> Seq<char> {
    app.tasks[app.dashboard_selected_idx as int].id
}

/// The selected task is stopped, and the selection moves up where it would be left behind.
pub open spec fn stopping(app: state::AppView) -> Turn {
    let kept = kept_in(app);
    let at = kept.dashboard_selected_idx;
    let next: usize = if at > 0 && at >= last_place(app.tasks.len()) {
        (at - 1) as usize
    } else {
        at
    };
    (
        selected(kept, next),
        ActionView::Send(
            protocol::RequestView::StopTask(selected_id(kept)),
            WaitingView::Nothing,
        ),
    )
}

/// The request for the entries of the local directory.
pub open spec fn local_request(app: state::AppView) -> protocol::RequestView {
    protocol::RequestView::ListLocalDirs(app.current_path)
}

/// What follows a key while the tasks are shown.
pub open spec fn dashboard_turn(app: state::AppView, key: Key) -> Turn {
    if key.control && is_char(key, 'r', 'R') {
        (app, ActionView::RestartServer)
    } else if is_char(key, 'q', 'Q') {
        (app, ActionView::Finish(HandlerResult::Quit))
    } else if key.code is Down {
        if app.dashboard_selected_idx < last_place(app.tasks.len()) {
            done(selected(app, (app.dashboard_selected_idx + 1) as usize))
        } else {
            done(app)
        }
    } else if key.code is Up {
        if app.dashboard_selected_idx > 0 {
            done(selected(app, (app.dashboard_selected_idx - 1) as usize))
        } else {
            done(app)
        }
    } else if is_char(key, 'a', 'A') {
        let next = state::AppView {
            pending_sync_direction: SyncDirection::Push,
            sync_direction_selected_idx: 0,
            mode: AppMode::LocalBrowser,
            ..app
        };
        (
            next,
            ActionView::Send(
                local_request(next),
                WaitingView::LocalList(Some(AppMode::Dashboard), false),
            ),
        )
    } else if is_char(key, 'p', 'P') {
        (
            state::AppView {
                pending_sync_direction: SyncDirection::Pull,
                sync_direction_selected_idx: 1,
                ..app
            },
            ActionView::LoadHosts,
        )
    } else if app.tasks.len() == 0 {
        done(app)
    } else if is_char(key, 'd', 'D') {
        stopping(app)
    } else if is_char(key, 'r', 'R') {
        let kept = kept_in(app);
        (
            kept,
            ActionView::Send(
                protocol::RequestView::DryRun(selected_id(kept)),
                WaitingView::DryRun(selected_id(kept)),
            ),
        )
    } else if is_char(key, 's', 'S') {
        let kept = kept_in(app);
        (
            kept,
            ActionView::Send(
                protocol::RequestView::RestartTask(selected_id(kept)),
                WaitingView::Nothing,
            ),
        )
    } else if is_char(key, 'l', 'L') {
        let kept = kept_in(app);
        (
            kept,
            ActionView::Send(
                protocol::RequestView::GetTaskLog(selected_id(kept)),
                WaitingView::Log(selected_id(kept)),
            ),
        )
    } else {
        done(app)
    }
}

/// Moves the selection among the tasks.
fn select_task(app: &mut App, at: usize)
    ensures
        final(app)@ == selected(old(app)@, at),
{
    app.dashboard_selected_idx = at;
    app.dashboard_list_state = Some(at);
}

/// Stops the selected task.
fn stop_selected(app: &mut App) -> (r: Action)
    requires
        old(app)@.tasks.len() > 0,
    ensures
        (final(app)@, r@) == stopping(old(app)@),
{
    let count: usize = app.tasks.len();
    let at: usize = clamp(app.dashboard_selected_idx, count);
    let id: String = app.tasks[at].id.clone();
    let next: usize = if at > 0 && at >= count - 1 {
        at - 1
    } else {
        at
    };
    select_task(app, next);
    Action::Send(ClientRequest::StopTask(id), Waiting::Nothing)
}

/// Takes a key while the tasks are shown.
pub fn handle_dashboard_keys(key: Key, app: &mut App) -> (r: Action)
    ensures
        (final(app)@, r@) == dashboard_turn(old(app)@, key),
{
    if key.control && key_is(key, 'r', 'R') {
        return Action::RestartServer;
    }
    if key_is(key, 'q', 'Q') {
        return Action::Finish(HandlerResult::Quit);
    }
    if let KeyCode::Down = key.code {
        if has_next(app.dashboard_selected_idx, app.tasks.len()) {
            let at: usize = app.dashboard_selected_idx + 1;
            select_task(app, at);
        }
        return Action::Finish(HandlerResult::Continue);
    }
    if let KeyCode::Up = key.code {
        if app.dashboard_selected_idx > 0 {
            let at: usize = app.dashboard_selected_idx - 1;
            select_task(app, at);
        }
        return Action::Finish(HandlerResult::Continue);
    }
    if key_is(key, 'a', 'A') {
        app.pending_sync_direction = SyncDirection::Push;
        app.sync_direction_selected_idx = 0;
        app.mode = AppMode::LocalBrowser;
        return Action::Send(
            ClientRequest::ListLocalDirs(app.current_path.clone()),
            Waiting::LocalList(Some(AppMode::Dashboard), false),
        );
    }
    if key_is(key, 'p', 'P') {
        app.pending_sync_direction = SyncDirection::Pull;
        app.sync_direction_selected_idx = 1;
        return Action::LoadHosts;
    }
    if app.tasks.len() == 0 {
        return Action::Finish(HandlerResult::Continue);
    }
    if key_is(key, 'd', 'D') {
        return stop_selected(app);
    }
    if key_is(key, 'r', 'R') || key_is(key, 's', 'S') || key_is(key, 'l', 'L') {
        let at: usize = clamp(app.dashboard_selected_idx, app.tasks.len());
        app.dashboard_selected_idx = at;
        let id: String = app.tasks[at].id.clone();
        if key_is(key, 'r', 'R') {
            return Action::Send(ClientRequest::DryRun(id.clone()), Waiting::DryRun(id));
        }
        if key_is(key, 's', 'S') {
            return Action::Send(ClientRequest::RestartTask(id), Waiting::Nothing);
        }
        return Action::Send(ClientRequest::GetTaskLog(id.clone()), Waiting::Log(id));
    }
    Action::Finish(HandlerResult::Continue)
}

// ---------------------------------------------------------------------------
// Local directories
// ---------------------------------------------------------------------------
/// A directory with its selection moved.
pub open spec fn moved(app: state::AppView, at: usize) -> state::AppView {
    state::AppView { selected_idx: at, browser_list_state: Some(at), ..app }
}

/// The dashboard with another thing in front.
pub open spec fn in_mode(app: state::AppView, mode: AppMode) -> state::AppView {
    state::AppView { mode, ..app }
}

/// What follows an arrow in a list of directories.
pub open spec fn arrow_turn(app: state::AppView, down: bool) -> Turn {
    if down {
        if app.selected_idx < last_place(app.dir_entries.len()) {
            done(moved(app, (app.selected_idx + 1) as usize))
        } else {
            done(app)
        }
    } else if app.selected_idx > 0 {
        done(moved(app, (app.selected_idx - 1) as usize))
    } else {
        done(app)
    }
}

/// The selected entry.
pub open spec fn entry(app: state::AppView) -> Seq<char> {
    app.dir_entries[app.selected_idx as int]
}

/// The dashboard in another local directory, whose entries are asked for.
pub open spec fn local_move(app: state::AppView, p: Seq<char>) -> Turn {
    let next = state::AppView { current_path: p, ..app };
    (next, ActionView::Send(local_request(next), WaitingView::LocalList(None, true)))
}

/// What follows when the selected local entry is entered: only a directory can be, and the one
/// above.
pub open spec fn local_enter(app: state::AppView) -> Turn {
    if entry(app) == ".."@ {
        local_move(app, browse::local_above(browse::parent_path(app.current_path)))
    } else if text::ends_in(entry(app), '/') {
        local_move(
            app,
            text::single_slashes(
                browse::child(app.current_path, text::without_trailing(entry(app), '/')),
            ),
        )
    } else {
        done(app)
    }
}

/// The local path that the selection stands for.
pub open spec fn local_choice(app: state::AppView) -> Seq<char> {
    if entry(app) == ".."@ {
        app.current_path
    } else {
        browse::child(app.current_path, text::without_trailing(entry(app), '/'))
    }
}

/// What follows when the local path is chosen: a sender's path is followed by the host, a
/// receiver's by the way to treat files.
pub open spec fn local_choose(app: state::AppView) -> Turn {
    let next = state::AppView { pending_source: local_choice(app), ..app };
    match app.pending_sync_direction {
        SyncDirection::Push => (next, ActionView::LoadHosts),
        SyncDirection::Pull => done(
            state::AppView { mode: AppMode::SyncModeSelect, sync_mode_selected_idx: 0, ..next },
        ),
    }
}

/// What follows a key while local directories are shown.
pub open spec fn local_turn(app: state::AppView, key: Key) -> Turn {
    match key.code {
        KeyCode::Esc => if app.pending_sync_direction == SyncDirection::Pull
            && app.pending_remote_host.len() > 0 {
            done(in_mode(app, AppMode::RemoteBrowser))
        } else {
            done(in_mode(app, AppMode::Dashboard))
        },
        KeyCode::Down => arrow_turn(app, true),
        KeyCode::Up => arrow_turn(app, false),
        KeyCode::Enter => local_enter(app),
        KeyCode::Char(c) => if c == ' ' {
            local_choose(app)
        } else if c == 'n' || c == 'N' {
            done(state::AppView { mode: AppMode::CreateLocalDir, input_new_dir: ""@, ..app })
        } else {
            done(app)
        },
        _ => done(app),
    }
}

/// Moves the selection in a list of directories.
fn take_arrow(app: &mut App, down: bool) -> (r: Action)
    ensures
        (final(app)@, r@) == arrow_turn(old(app)@, down),
{
    if down {
        if has_next(app.selected_idx, app.dir_entries.len()) {
            let at: usize = app.selected_idx + 1;
            app.selected_idx = at;
            app.browser_list_state = Some(at);
        }
    } else if app.selected_idx > 0 {
        let at: usize = app.selected_idx - 1;
        app.selected_idx = at;
        app.browser_list_state = Some(at);
    }
    Action::Finish(HandlerResult::Continue)
}

/// Asks for the entries of another local directory.
fn move_local(app: &mut App, p: String) -> (r: Action)
    ensures
        (final(app)@, r@) == local_move(old(app)@, p@),
{
    let copy: String = p.clone();
    app.current_path = p;
    Action::Send(ClientRequest::ListLocalDirs(copy), Waiting::LocalList(None, true))
}

/// Enters the selected local entry.
fn enter_local(app: &mut App) -> (r: Action)
    requires
        old(app)@.selected_idx < old(app)@.dir_entries.len(),
    ensures
        (final(app)@, r@) == local_enter(old(app)@),
{
    let chosen: String = app.dir_entries[app.selected_idx].clone();
    proof {
        assert(entry(app@) == chosen@);
    }
    if text::same_text(&chosen, "..") {
        let above: String = browse::local_parent(&app.current_path);
        return move_local(app, above);
    }
    if text::ends_with_char(&chosen, '/') {
        let name: String = text::trim_end_char(&chosen, '/');
        let below: String = text::squeeze_slashes(&browse::join_child(&app.current_path, &name));
        return move_local(app, below);
    }
    Action::Finish(HandlerResult::Continue)
}

/// Chooses the selected local entry.
fn choose_local(app: &mut App) -> (r: Action)
    requires
        old(app)@.selected_idx < old(app)@.dir_entries.len(),
    ensures
        (final(app)@, r@) == local_choose(old(app)@),
{
    let chosen: String = app.dir_entries[app.selected_idx].clone();
    proof {
        assert(entry(app@) == chosen@);
    }
    app.pending_source = if text::same_text(&chosen, "..") {
        app.current_path.clone()
    } else {
        browse::join_child(&app.current_path, &text::trim_end_char(&chosen, '/'))
    };
    match app.pending_sync_direction {
        SyncDirection::Push => Action::LoadHosts,
        SyncDirection::Pull => {
            app.mode = AppMode::SyncModeSelect;
            app.sync_mode_selected_idx = 0;
            Action::Finish(HandlerResult::Continue)
        },
    }
}

/// Takes a key while local directories are shown.
pub fn handle_local_browser_keys(key: Key, app: &mut App) -> (r: Action)
    requires
        key.code is Enter || is_char(key, ' ', ' ') ==> old(app)@.selected_idx
            < old(app)@.dir_entries.len(),
    ensures
        (final(app)@, r@) == local_turn(old(app)@, key),
{
    match key.code {
        KeyCode::Esc => {
            if app.pending_sync_direction == SyncDirection::Pull
                && !app.pending_remote_host.as_str().is_empty() {
                app.mode = AppMode::RemoteBrowser;
            } else {
                app.mode = AppMode::Dashboard;
            }
            Action::Finish(HandlerResult::Continue)
        },
        KeyCode::Down => take_arrow(app, true),
        KeyCode::Up => take_arrow(app, false),
        KeyCode::Enter => enter_local(app),
        KeyCode::Char(c) => {
            if c == ' ' {
                return choose_local(app);
            }
            if c == 'n' || c == 'N' {
                app.mode = AppMode::CreateLocalDir;
                app.input_new_dir = "".to_owned();
            }
            Action::Finish(HandlerResult::Continue)
        },
        _ => Action::Finish(HandlerResult::Continue),
    }
}

// ---------------------------------------------------------------------------
// Hosts
// ---------------------------------------------------------------------------
/// The dashboard where a host is typed in.
pub open spec fn typing_host(app: state::AppView, host: Seq<char>, at: usize, editing: bool) ->
    state::AppView {
    state::AppView {
        mode: AppMode::RemoteHostInput,
        input_remote_host: host,
        input_cursor_pos: at,
        is_editing_host: editing,
        ..app
    }
}

/// The dashboard where a password is typed in.
pub open spec fn typing_password(app: state::AppView) -> state::AppView {
    state::AppView {
        mode: AppMode::PasswordInput,
        input_password: ""@,
        show_password: false,
        ..app
    }
}

/// What follows when the selected host is forgotten.
pub open spec fn forget_host(app: state::AppView) -> Turn {
    let hosts = app.saved_hosts.remove(app.host_list_idx as int);
    (
        state::AppView {
            saved_hosts: hosts,
            host_list_idx: if app.host_list_idx >= hosts.len() && hosts.len() > 0 {
                (hosts.len() - 1) as usize
            } else {
                app.host_list_idx
            },
            ..app
        },
        ActionView::SaveHosts(hosts),
    )
}

/// What follows a key while saved hosts are shown.
pub open spec fn host_turn(app: state::AppView, key: Key) -> Turn {
    let at = app.host_list_idx as int;
    match key.code {
        KeyCode::Esc => done(in_mode(app, AppMode::LocalBrowser)),
        KeyCode::Down => if at < last_place(app.saved_hosts.len()) {
            done(state::AppView { host_list_idx: (at + 1) as usize, ..app })
        } else {
            done(app)
        },
        KeyCode::Up => if at > 0 {
            done(state::AppView { host_list_idx: (at - 1) as usize, ..app })
        } else {
            done(app)
        },
        KeyCode::Enter => if app.saved_hosts.len() > 0 {
            done(
                typing_password(
                    state::AppView { pending_remote_host: app.saved_hosts[at], ..app },
                ),
            )
        } else {
            done(app)
        },
        KeyCode::Char(c) => if c == 'a' || c == 'A' {
            done(typing_host(app, ""@, 0, false))
        } else if app.saved_hosts.len() == 0 {
            done(app)
        } else if c == 'e' || c == 'E' {
            done(
                typing_host(
                    app,
                    app.saved_hosts[at],
                    cursor::byte_len(app.saved_hosts[at]) as usize,
                    true,
                ),
            )
        } else if c == 'd' || c == 'D' {
            forget_host(app)
        } else {
            done(app)
        },
        _ => done(app),
    }
}

/// Begins to type a host in.
fn type_host(app: &mut App, host: String, at: usize, editing: bool)
    ensures
        final(app)@ == typing_host(old(app)@, host@, at, editing),
{
    app.mode = AppMode::RemoteHostInput;
    app.input_remote_host = host;
    app.input_cursor_pos = at;
    app.is_editing_host = editing;
}

/// Begins to type a password in.
fn type_password(app: &mut App)
    ensures
        final(app)@ == typing_password(old(app)@),
{
    app.mode = AppMode::PasswordInput;
    app.input_password = "".to_owned();
    app.show_password = false;
}

/// Forgets the selected host.
fn drop_host(app: &mut App) -> (r: Action)
    requires
        old(app)@.host_list_idx < old(app)@.saved_hosts.len(),
    ensures
        (final(app)@, r@) == forget_host(old(app)@),
{
    let ghost before = app@;
    let mut hosts: Vec<String> = text::copy_texts(&app.saved_hosts);
    let ghost all = text::texts(hosts@);
    hosts.remove(app.host_list_idx);
    proof {
        assert(text::texts(hosts@) =~= all.remove(before.host_list_idx as int));
    }
    let count: usize = hosts.len();
    if app.host_list_idx >= count && count > 0 {
        app.host_list_idx = count - 1;
    }
    let copy: Vec<String> = text::copy_texts(&hosts);
    app.saved_hosts = hosts;
    Action::SaveHosts(copy)
}

/// Takes a key while saved hosts are shown.
pub fn handle_host_select_keys(key: Key, app: &mut App) -> (r: Action)
    requires
        old(app)@.saved_hosts.len() > 0 && (key.code is Enter || is_char(key, 'e', 'E') || is_char(
            key,
            'd',
            'D',
        )) ==> old(app)@.host_list_idx < old(app)@.saved_hosts.len(),
    ensures
        (final(app)@, r@) == host_turn(old(app)@, key),
{
    match key.code {
        KeyCode::Esc => {
            app.mode = AppMode::LocalBrowser;
        },
        KeyCode::Down => {
            if has_next(app.host_list_idx, app.saved_hosts.len()) {
                app.host_list_idx = app.host_list_idx + 1;
            }
        },
        KeyCode::Up => {
            if app.host_list_idx > 0 {
                app.host_list_idx = app.host_list_idx - 1;
            }
        },
        KeyCode::Enter => {
            if app.saved_hosts.len() > 0 {
                app.pending_remote_host = app.saved_hosts[app.host_list_idx].clone();
                type_password(app);
            }
        },
        KeyCode::Char(c) => {
            if c == 'a' || c == 'A' {
                type_host(app, "".to_owned(), 0, false);
            } else if app.saved_hosts.len() > 0 {
                if c == 'e' || c == 'E' {
                    let host: String = app.saved_hosts[app.host_list_idx].clone();
                    let at: usize = cursor::count_bytes(&host);
                    type_host(app, host, at, true);
                } else if c == 'd' || c == 'D' {
                    return drop_host(app);
                }
            }
        },
        _ => {},
    }
    Action::Finish(HandlerResult::Continue)
}

/// What follows when the typed host is taken: its port, or the usual one, is offered next.
pub open spec fn take_host(app: state::AppView) -> state::AppView {
    let (host, port) = browse::host_and_port(text::trimmed(app.input_remote_host));
    let shown = match port {
        Some(p) => p,
        None => "22"@,
    };
    state::AppView {
        pending_remote_host: host,
        mode: AppMode::RemotePortInput,
        input_remote_port: shown,
        input_cursor_pos: cursor::byte_len(shown) as usize,
        ..app
    }
}

/// What follows a key while a host is typed in.
pub open spec fn host_input_turn(app: state::AppView, key: Key) -> Turn {
    let pos = app.input_cursor_pos;
    let s = app.input_remote_host;
    match key.code {
        KeyCode::Esc => done(
            in_mode(
                app,
                if app.saved_hosts.len() > 0 {
                    AppMode::HostSelect
                } else if app.pending_sync_direction == SyncDirection::Push {
                    AppMode::LocalBrowser
                } else {
                    AppMode::Dashboard
                },
            ),
        ),
        KeyCode::Enter => done(take_host(app)),
        KeyCode::Left => if pos > 0 {
            done(state::AppView { input_cursor_pos: (pos - 1) as usize, ..app })
        } else {
            done(app)
        },
        KeyCode::Right => if pos < cursor::byte_len(s) {
            done(state::AppView { input_cursor_pos: (pos + 1) as usize, ..app })
        } else {
            done(app)
        },
        KeyCode::Backspace => if pos > 0 {
            done(
                state::AppView {
                    input_remote_host: cursor::without_char(s, (pos - 1) as usize),
                    input_cursor_pos: (pos - 1) as usize,
                    ..app
                },
            )
        } else {
            done(app)
        },
        KeyCode::Delete => if pos < cursor::byte_len(s) {
            done(state::AppView { input_remote_host: cursor::without_char(s, pos), ..app })
        } else {
            done(app)
        },
        KeyCode::Home => done(state::AppView { input_cursor_pos: 0, ..app }),
        KeyCode::End => done(
            state::AppView { input_cursor_pos: cursor::byte_len(s) as usize, ..app },
        ),
        KeyCode::Char(c) => done(
            state::AppView {
                input_remote_host: cursor::with_char(s, pos, c),
                input_cursor_pos: (pos + 1) as usize,
                ..app
            },
        ),
        _ => done(app),
    }
}

/// Takes the typed host.
fn accept_host(app: &mut App)
    ensures
        final(app)@ == take_host(old(app)@),
{
    let trimmed: String = text::trim(&app.input_remote_host);
    let (host, port): (String, Option<String>) = browse::split_host(&trimmed);
    app.pending_remote_host = host;
    app.mode = AppMode::RemotePortInput;
    let shown: String = match port {
        Some(p) => p,
        None => "22".to_owned(),
    };
    app.input_cursor_pos = cursor::count_bytes(&shown);
    app.input_remote_port = shown;
}

/// Takes a key while a host is typed in.
pub fn handle_remote_host_input_keys(key: Key, app: &mut App) -> (r: Action)
    requires
        old(app)@.mode == AppMode::RemoteHostInput,
        can_take(old(app)@, key),
    ensures
        (final(app)@, r@) == host_input_turn(old(app)@, key),
{
    let pos: usize = app.input_cursor_pos;
    match key.code {
        KeyCode::Esc => {
            app.mode = if app.saved_hosts.len() > 0 {
                AppMode::HostSelect
            } else if app.pending_sync_direction == SyncDirection::Push {
                AppMode::LocalBrowser
            } else {
                AppMode::Dashboard
            };
        },
        KeyCode::Enter => {
            accept_host(app);
        },
        KeyCode::Left => {
            if pos > 0 {
                app.input_cursor_pos = pos - 1;
            }
        },
        KeyCode::Right => {
            if pos < cursor::count_bytes(&app.input_remote_host) {
                app.input_cursor_pos = pos + 1;
            }
        },
        KeyCode::Backspace => {
            if pos > 0 {
                app.input_remote_host = cursor::remove_char(&app.input_remote_host, pos - 1);
                app.input_cursor_pos = pos - 1;
            }
        },
        KeyCode::Delete => {
            if pos < cursor::count_bytes(&app.input_remote_host) {
                app.input_remote_host = cursor::remove_char(&app.input_remote_host, pos);
            }
        },
        KeyCode::Home => {
            app.input_cursor_pos = 0;
        },
        KeyCode::End => {
            app.input_cursor_pos = cursor::count_bytes(&app.input_remote_host);
        },
        KeyCode::Char(c) => {
            app.input_remote_host = cursor::insert_char(&app.input_remote_host, pos, c);
            app.input_cursor_pos = pos + 1;
        },
        _ => {},
    }
    Action::Finish(HandlerResult::Continue)
}

// ---------------------------------------------------------------------------
// Ports and passwords
// ---------------------------------------------------------------------------
/// The port that a text stands for, or the usual one.
pub open spec fn port_of(s: Seq<char>) -> u16 {
    match number::parsed(text::trimmed(s), u16::MAX as nat) {
        Some(p) => p as u16,
        None => 22,
    }
}

/// What follows a key while a port is typed in.
pub open spec fn port_input_turn(app: state::AppView, key: Key) -> Turn {
    let pos = app.input_cursor_pos;
    let s = app.input_remote_port;
    match key.code {
        KeyCode::Esc => done(in_mode(app, AppMode::RemoteHostInput)),
        KeyCode::Enter => done(
            typing_password(state::AppView { pending_remote_port: Some(port_of(s)), ..app }),
        ),
        KeyCode::Backspace => if s.len() > 0 {
            done(
                state::AppView {
                    input_remote_port: s.drop_last(),
                    input_cursor_pos: if pos > 0 {
                        (pos - 1) as usize
                    } else {
                        pos
                    },
                    ..app
                },
            )
        } else {
            done(app)
        },
        KeyCode::Left => if pos > 0 {
            done(state::AppView { input_cursor_pos: (pos - 1) as usize, ..app })
        } else {
            done(app)
        },
        KeyCode::Right => if pos < cursor::byte_len(s) {
            done(state::AppView { input_cursor_pos: (pos + 1) as usize, ..app })
        } else {
            done(app)
        },
        KeyCode::Home => done(state::AppView { input_cursor_pos: 0, ..app }),
        KeyCode::End => done(
            state::AppView { input_cursor_pos: cursor::byte_len(s) as usize, ..app },
        ),
        KeyCode::Char(c) => if text::is_digit(c) {
            done(
                state::AppView {
                    input_remote_port: cursor::with_char(s, pos, c),
                    input_cursor_pos: (pos + 1) as usize,
                    ..app
                },
            )
        } else {
            done(app)
        },
        _ => done(app),
    }
}

/// Takes a key while a port is typed in.
pub fn handle_remote_port_input_keys(key: Key, app: &mut App) -> (r: Action)
    requires
        old(app)@.mode == AppMode::RemotePortInput,
        can_take(old(app)@, key),
    ensures
        (final(app)@, r@) == port_input_turn(old(app)@, key),
{
    let pos: usize = app.input_cursor_pos;
    match key.code {
        KeyCode::Esc => {
            app.mode = AppMode::RemoteHostInput;
        },
        KeyCode::Enter => {
            let port: u16 = match number::parse_number(
                &text::trim(&app.input_remote_port),
                65535,
            ) {
                Some(p) => p as u16,
                None => 22,
            };
            app.pending_remote_port = Some(port);
            type_password(app);
        },
        KeyCode::Backspace => {
            if !app.input_remote_port.as_str().is_empty() {
                app.input_remote_port = cursor::pop_char(&app.input_remote_port);
                if pos > 0 {
                    app.input_cursor_pos = pos - 1;
                }
            }
        },
        KeyCode::Left => {
            if pos > 0 {
                app.input_cursor_pos = pos - 1;
            }
        },
        KeyCode::Right => {
            if pos < cursor::count_bytes(&app.input_remote_port) {
                app.input_cursor_pos = pos + 1;
            }
        },
        KeyCode::Home => {
            app.input_cursor_pos = 0;
        },
        KeyCode::End => {
            app.input_cursor_pos = cursor::count_bytes(&app.input_remote_port);
        },
        KeyCode::Char(c) => {
            if text::is_digit_char(c) {
                app.input_remote_port = cursor::insert_char(&app.input_remote_port, pos, c);
                app.input_cursor_pos = pos + 1;
            }
        },
        _ => {},
    }
    Action::Finish(HandlerResult::Continue)
}

/// The request for the remote home directory.
pub open spec fn home_request(app: state::AppView) -> protocol::RequestView {
    protocol::RequestView::GetRemoteHome(
        app.pending_remote_host,
        app.pending_remote_port,
        app.pending_password,
    )
}

/// The request for the entries of the remote directory.
pub open spec fn remote_request(app: state::AppView) -> protocol::RequestView {
    protocol::RequestView::ListRemoteDirs(
        app.pending_remote_host,
        app.pending_remote_port,
        app.remote_current_path,
        app.pending_password,
    )
}

/// What follows when the password is taken; one of white space alone is none.
pub open spec fn password_taken(app: state::AppView) -> Turn {
    let next = state::AppView {
        pending_password: if text::trimmed(app.input_password).len() == 0 {
            None
        } else {
            Some(app.input_password)
        },
        ..app
    };
    match app.pending_sync_direction {
        SyncDirection::Push => done(
            state::AppView { mode: AppMode::SyncModeSelect, sync_mode_selected_idx: 0, ..next },
        ),
        SyncDirection::Pull => (
            in_mode(next, AppMode::RemoteBrowser),
            ActionView::Send(
                home_request(next),
                WaitingView::RemoteHome(Some(AppMode::PasswordInput)),
            ),
        ),
    }
}

/// A text without its last character, if it has one.
pub open spec fn shortened(s: Seq<char>) -> Seq<char> {
    if s.len() > 0 {
        s.drop_last()
    } else {
        s
    }
}

/// What follows a key while a password is typed in.
pub open spec fn password_turn(app: state::AppView, key: Key) -> Turn {
    match key.code {
        KeyCode::Esc => done(in_mode(app, AppMode::RemotePortInput)),
        KeyCode::Enter => password_taken(app),
        KeyCode::Tab => done(state::AppView { show_password: !app.show_password, ..app }),
        KeyCode::Backspace => done(
            state::AppView { input_password: shortened(app.input_password), ..app },
        ),
        KeyCode::Char(c) => done(
            state::AppView { input_password: app.input_password.push(c), ..app },
        ),
        _ => done(app),
    }
}

/// The request for the remote home directory.
fn ask_home(app: &App) -> (r: ClientRequest)
    ensures
        r@ == home_request(app@),
{
    ClientRequest::GetRemoteHome(
        app.pending_remote_host.clone(),
        app.pending_remote_port,
        text::copy_optional(&app.pending_password),
    )
}

/// The request for the entries of the remote directory.
fn ask_remote(app: &App) -> (r: ClientRequest)
    ensures
        r@ == remote_request(app@),
{
    ClientRequest::ListRemoteDirs(
        app.pending_remote_host.clone(),
        app.pending_remote_port,
        app.remote_current_path.clone(),
        text::copy_optional(&app.pending_password),
    )
}

/// Takes the password.
fn take_password(app: &mut App) -> (r: Action)
    ensures
        (final(app)@, r@) == password_taken(old(app)@),
{
    app.pending_password = if text::trim(&app.input_password).as_str().is_empty() {
        None
    } else {
        Some(app.input_password.clone())
    };
    match app.pending_sync_direction {
        SyncDirection::Push => {
            app.mode = AppMode::SyncModeSelect;
            app.sync_mode_selected_idx = 0;
            Action::Finish(HandlerResult::Continue)
        },
        SyncDirection::Pull => {
            app.mode = AppMode::RemoteBrowser;
            Action::Send(ask_home(app), Waiting::RemoteHome(Some(AppMode::PasswordInput)))
        },
    }
}

/// Takes a key while a password is typed in.
pub fn handle_password_input_keys(key: Key, app: &mut App) -> (r: Action)
    ensures
        (final(app)@, r@) == password_turn(old(app)@, key),
{
    match key.code {
        KeyCode::Esc => {
            app.mode = AppMode::RemotePortInput;
        },
        KeyCode::Enter => {
            return take_password(app);
        },
        KeyCode::Tab => {
            app.show_password = !app.show_password;
        },
        KeyCode::Backspace => {
            app.input_password = cursor::pop_char(&app.input_password);
        },
        KeyCode::Char(c) => {
            let mut typed: String = app.input_password.clone();
            typed.push(c);
            app.input_password = typed;
        },
        _ => {},
    }
    Action::Finish(HandlerResult::Continue)
}

// ---------------------------------------------------------------------------
// Ways to treat files, and new tasks
// ---------------------------------------------------------------------------
/// The way to treat files at a place of the list.
pub open spec fn mode_at(at: usize) -> SyncMode {
    if at == 1 {
        SyncMode::AddOnly
    } else if at == 2 {
        SyncMode::SafeSync
    } else if at == 3 {
        SyncMode::Update
    } else {
        SyncMode::Mirror
    }
}

/// The task that was put together, for a remote path. Its id counts the tasks.
pub open spec fn new_task(app: state::AppView, remote_path: Seq<char>) -> protocol::TaskView {
    protocol::TaskView {
        id: "task_"@ + number::decimal(app.tasks.len() + 1),
        source: app.pending_source,
        remote_host: app.pending_remote_host,
        remote_port: app.pending_remote_port,
        remote_path,
        status: "STARTING"@,
        last_log: "Created"@,
        poll_interval: 5,
        sync_mode: app.pending_sync_mode,
        sync_direction: app.pending_sync_direction,
        compress: app.pending_compress,
        password: app.pending_password,
    }
}

/// Asks for the task that was put together.
pub open spec fn starting(app: state::AppView, remote_path: Seq<char>) -> ActionView {
    ActionView::Send(
        protocol::RequestView::StartTask(new_task(app, remote_path)),
        WaitingView::Start,
    )
}

/// What follows when the way to treat files is taken.
pub open spec fn mode_taken(app: state::AppView) -> Turn {
    let next = state::AppView { pending_sync_mode: mode_at(app.sync_mode_selected_idx), ..app };
    match app.pending_sync_direction {
        SyncDirection::Push => (
            in_mode(next, AppMode::RemoteBrowser),
            ActionView::Send(
                home_request(next),
                WaitingView::RemoteHome(Some(AppMode::SyncModeSelect)),
            ),
        ),
        SyncDirection::Pull => (next, starting(next, next.remote_current_path)),
    }
}

/// What follows a key while the ways to treat files are shown.
pub open spec fn mode_turn(app: state::AppView, key: Key) -> Turn {
    let at = app.sync_mode_selected_idx;
    match key.code {
        KeyCode::Esc => done(
            in_mode(
                app,
                if app.pending_sync_direction == SyncDirection::Push {
                    AppMode::PasswordInput
                } else {
                    AppMode::LocalBrowser
                },
            ),
        ),
        KeyCode::Down => if at < 3 {
            done(state::AppView { sync_mode_selected_idx: (at + 1) as usize, ..app })
        } else {
            done(app)
        },
        KeyCode::Up => if at > 0 {
            done(state::AppView { sync_mode_selected_idx: (at - 1) as usize, ..app })
        } else {
            done(app)
        },
        KeyCode::Char(c) => if c == ' ' {
            done(state::AppView { pending_compress: !app.pending_compress, ..app })
        } else {
            done(app)
        },
        KeyCode::Enter => mode_taken(app),
        _ => done(app),
    }
}

/// Puts a task together.
fn make_task(app: &App, remote_path: String) -> (r: SyncTask)
    ensures
        r@ == new_task(app@, remote_path@),
{
    let count: u128 = app.tasks.len() as u128 + 1;
    SyncTask {
        id: text::cat2("task_", &number::wide_decimal_text(count)),
        source: app.pending_source.clone(),
        remote_host: app.pending_remote_host.clone(),
        remote_port: app.pending_remote_port,
        remote_path,
        status: "STARTING".to_owned(),
        last_log: "Created".to_owned(),
        poll_interval: 5,
        sync_mode: app.pending_sync_mode,
        sync_direction: app.pending_sync_direction,
        compress: app.pending_compress,
        password: text::copy_optional(&app.pending_password),
    }
}

/// Takes the way to treat files.
fn take_mode(app: &mut App) -> (r: Action)
    ensures
        (final(app)@, r@) == mode_taken(old(app)@),
{
    let at: usize = app.sync_mode_selected_idx;
    app.pending_sync_mode = if at == 1 {
        SyncMode::AddOnly
    } else if at == 2 {
        SyncMode::SafeSync
    } else if at == 3 {
        SyncMode::Update
    } else {
        SyncMode::Mirror
    };
    match app.pending_sync_direction {
        SyncDirection::Push => {
            app.mode = AppMode::RemoteBrowser;
            Action::Send(ask_home(app), Waiting::RemoteHome(Some(AppMode::SyncModeSelect)))
        },
        SyncDirection::Pull => {
            let task: SyncTask = make_task(app, app.remote_current_path.clone());
            Action::Send(ClientRequest::StartTask(task), Waiting::Start)
        },
    }
}

/// Takes a key while the ways to treat files are shown.
pub fn handle_sync_mode_select_keys(key: Key, app: &mut App) -> (r: Action)
    ensures
        (final(app)@, r@) == mode_turn(old(app)@, key),
{
    match key.code {
        KeyCode::Esc => {
            app.mode = if app.pending_sync_direction == SyncDirection::Push {
                AppMode::PasswordInput
            } else {
                AppMode::LocalBrowser
            };
        },
        KeyCode::Down => {
            if app.sync_mode_selected_idx < 3 {
                app.sync_mode_selected_idx = app.sync_mode_selected_idx + 1;
            }
        },
        KeyCode::Up => {
            if app.sync_mode_selected_idx > 0 {
                app.sync_mode_selected_idx = app.sync_mode_selected_idx - 1;
            }
        },
        KeyCode::Char(c) => {
            if c == ' ' {
                app.pending_compress = !app.pending_compress;
            }
        },
        KeyCode::Enter => {
            return take_mode(app);
        },
        _ => {},
    }
    Action::Finish(HandlerResult::Continue)
}

// ---------------------------------------------------------------------------
// Remote directories
// ---------------------------------------------------------------------------
/// The remote directory that is entered.
pub open spec fn remote_target(app: state::AppView) -> Seq<char> {
    if entry(app) == ".."@ {
        browse::remote_above(app.remote_current_path, browse::parent_path(app.remote_current_path))
    } else {
        browse::child(app.remote_current_path, entry(app))
    }
}

/// What follows when the selected remote entry is entered.
pub open spec fn remote_enter(app: state::AppView) -> Turn {
    let next = state::AppView {
        remote_current_path: text::single_slashes(remote_target(app)),
        ..app
    };
    (next, ActionView::Send(remote_request(next), WaitingView::RemoteList(None)))
}

/// The remote path that the selection stands for.
pub open spec fn remote_choice(app: state::AppView) -> Seq<char> {
    text::single_slashes(
        if entry(app) == ".."@ {
            app.remote_current_path
        } else {
            browse::child(app.remote_current_path, entry(app))
        },
    )
}

/// What follows when the remote path is chosen: a receiver's path completes the task, a sender's
/// is followed by the local one.
pub open spec fn remote_choose(app: state::AppView) -> Turn {
    match app.pending_sync_direction {
        SyncDirection::Push => (app, starting(app, remote_choice(app))),
        SyncDirection::Pull => {
            let next = state::AppView {
                remote_current_path: remote_choice(app),
                mode: AppMode::LocalBrowser,
                ..app
            };
            (
                next,
                ActionView::Send(
                    local_request(next),
                    WaitingView::LocalList(Some(AppMode::Dashboard), false),
                ),
            )
        },
    }
}

/// What follows a key while remote directories are shown.
pub open spec fn remote_turn(app: state::AppView, key: Key) -> Turn {
    match key.code {
        KeyCode::Esc => done(in_mode(app, AppMode::Dashboard)),
        KeyCode::Down => arrow_turn(app, true),
        KeyCode::Up => arrow_turn(app, false),
        KeyCode::Enter => remote_enter(app),
        KeyCode::Char(c) => if c == ' ' {
            remote_choose(app)
        } else if c == 'n' || c == 'N' {
            done(state::AppView { mode: AppMode::CreateRemoteDir, input_new_dir: ""@, ..app })
        } else {
            done(app)
        },
        _ => done(app),
    }
}

/// Enters the selected remote entry.
fn enter_remote(app: &mut App) -> (r: Action)
    requires
        old(app)@.selected_idx < old(app)@.dir_entries.len(),
    ensures
        (final(app)@, r@) == remote_enter(old(app)@),
{
    let chosen: String = app.dir_entries[app.selected_idx].clone();
    proof {
        assert(entry(app@) == chosen@);
    }
    let target: String = if text::same_text(&chosen, "..") {
        browse::remote_parent(&app.remote_current_path)
    } else {
        browse::join_child(&app.remote_current_path, &chosen)
    };
    app.remote_current_path = text::squeeze_slashes(&target);
    Action::Send(ask_remote(app), Waiting::RemoteList(None))
}

/// Chooses the selected remote entry.
fn choose_remote(app: &mut App) -> (r: Action)
    requires
        old(app)@.selected_idx < old(app)@.dir_entries.len(),
    ensures
        (final(app)@, r@) == remote_choose(old(app)@),
{
    let chosen: String = app.dir_entries[app.selected_idx].clone();
    proof {
        assert(entry(app@) == chosen@);
    }
    let target: String = if text::same_text(&chosen, "..") {
        app.remote_current_path.clone()
    } else {
        browse::join_child(&app.remote_current_path, &chosen)
    };
    let target: String = text::squeeze_slashes(&target);
    match app.pending_sync_direction {
        SyncDirection::Push => Action::Send(
            ClientRequest::StartTask(make_task(app, target)),
            Waiting::Start,
        ),
        SyncDirection::Pull => {
            app.remote_current_path = target;
            app.mode = AppMode::LocalBrowser;
            Action::Send(
                ClientRequest::ListLocalDirs(app.current_path.clone()),
                Waiting::LocalList(Some(AppMode::Dashboard), false),
            )
        },
    }
}

/// Takes a key while remote directories are shown.
pub fn handle_remote_browser_keys(key: Key, app: &mut App) -> (r: Action)
    requires
        key.code is Enter || is_char(key, ' ', ' ') ==> old(app)@.selected_idx
            < old(app)@.dir_entries.len(),
    ensures
        (final(app)@, r@) == remote_turn(old(app)@, key),
{
    match key.code {
        KeyCode::Esc => {
            app.mode = AppMode::Dashboard;
            Action::Finish(HandlerResult::Continue)
        },
        KeyCode::Down => take_arrow(app, true),
        KeyCode::Up => take_arrow(app, false),
        KeyCode::Enter => enter_remote(app),
        KeyCode::Char(c) => {
            if c == ' ' {
                return choose_remote(app);
            }
            if c == 'n' || c == 'N' {
                app.mode = AppMode::CreateRemoteDir;
                app.input_new_dir = "".to_owned();
            }
            Action::Finish(HandlerResult::Continue)
        },
        _ => Action::Finish(HandlerResult::Continue),
    }
}

// ---------------------------------------------------------------------------
// Dry runs and logs
// ---------------------------------------------------------------------------
/// What follows a key while a dry run is shown.
pub open spec fn dry_run_turn(app: state::AppView, key: Key) -> Turn {
    let at = app.dry_run_scroll;
    match key.code {
        KeyCode::Esc => done(in_mode(app, AppMode::Dashboard)),
        KeyCode::Down => if at < last_place(app.dry_run_results.len()) {
            done(state::AppView { dry_run_scroll: (at + 1) as usize, ..app })
        } else {
            done(app)
        },
        KeyCode::Up => if at > 0 {
            done(state::AppView { dry_run_scroll: (at - 1) as usize, ..app })
        } else {
            done(app)
        },
        _ => done(app),
    }
}

/// Takes a key while a dry run is shown.
pub fn handle_dry_run_view_keys(key: Key, app: &mut App) -> (r: Action)
    ensures
        (final(app)@, r@) == dry_run_turn(old(app)@, key),
{
    match key.code {
        KeyCode::Esc => {
            app.mode = AppMode::Dashboard;
        },
        KeyCode::Down => {
            if has_next(app.dry_run_scroll, app.dry_run_results.len()) {
                app.dry_run_scroll = app.dry_run_scroll + 1;
            }
        },
        KeyCode::Up => {
            if app.dry_run_scroll > 0 {
                app.dry_run_scroll = app.dry_run_scroll - 1;
            }
        },
        _ => {},
    }
    Action::Finish(HandlerResult::Continue)
}

/// A number of lines further down, as far as numbers go.
pub open spec fn further(at: usize, by: usize) -> usize {
    if at + by > usize::MAX {
        usize::MAX
    } else {
        (at + by) as usize
    }
}

/// A number of lines further up, as far as the first line.
pub open spec fn back(at: usize, by: usize) -> usize {
    if at < by {
        0
    } else {
        (at - by) as usize
    }
}

/// What follows a key while a log is shown.
pub open spec fn log_turn(app: state::AppView, key: Key) -> Turn {
    let at = app.view_log_scroll;
    if key.code is Esc || is_char(key, 'q', 'Q') {
        done(in_mode(app, AppMode::Dashboard))
    } else if key.code is Down || is_char(key, 'j', 'j') {
        done(state::AppView { view_log_scroll: further(at, 1), ..app })
    } else if key.code is Up || is_char(key, 'k', 'k') {
        done(state::AppView { view_log_scroll: back(at, 1), ..app })
    } else if key.code is PageDown {
        done(state::AppView { view_log_scroll: further(at, 10), ..app })
    } else if key.code is PageUp {
        done(state::AppView { view_log_scroll: back(at, 10), ..app })
    } else if is_char(key, 'r', 'R') {
        (
            app,
            ActionView::Send(
                protocol::RequestView::GetTaskLog(app.view_log_task_id),
                WaitingView::RefreshLog,
            ),
        )
    } else {
        done(app)
    }
}

/// Scrolls down.
fn scroll_down(at: usize, by: usize) -> (r: usize)
    ensures
        r == further(at, by),
{
    if at > usize::MAX - by {
        usize::MAX
    } else {
        at + by
    }
}

/// Scrolls up.
fn scroll_up(at: usize, by: usize) -> (r: usize)
    ensures
        r == back(at, by),
{
    if at < by {
        0
    } else {
        at - by
    }
}

/// Takes a key while a log is shown.
pub fn handle_log_view_keys(key: Key, app: &mut App) -> (r: Action)
    ensures
        (final(app)@, r@) == log_turn(old(app)@, key),
{
    let at: usize = app.view_log_scroll;
    match key.code {
        KeyCode::Esc => {
            app.mode = AppMode::Dashboard;
        },
        KeyCode::Down => {
            app.view_log_scroll = scroll_down(at, 1);
        },
        KeyCode::Up => {
            app.view_log_scroll = scroll_up(at, 1);
        },
        KeyCode::PageDown => {
            app.view_log_scroll = scroll_down(at, 10);
        },
        KeyCode::PageUp => {
            app.view_log_scroll = scroll_up(at, 10);
        },
        KeyCode::Char(c) => {
            if c == 'q' || c == 'Q' {
                app.mode = AppMode::Dashboard;
            } else if c == 'j' {
                app.view_log_scroll = scroll_down(at, 1);
            } else if c == 'k' {
                app.view_log_scroll = scroll_up(at, 1);
            } else if c == 'r' || c == 'R' {
                return Action::Send(
                    ClientRequest::GetTaskLog(app.view_log_task_id.clone()),
                    Waiting::RefreshLog,
                );
            }
        },
        _ => {},
    }
    Action::Finish(HandlerResult::Continue)
}

// ---------------------------------------------------------------------------
// New directories
// ---------------------------------------------------------------------------
/// What follows when a new directory is named; without a name nothing is made.
pub open spec fn named_dir(app: state::AppView, remote: bool) -> Turn {
    let name = text::trimmed(app.input_new_dir);
    if name.len() == 0 {
        done(
            in_mode(
                app,
                if remote {
                    AppMode::RemoteBrowser
                } else {
                    AppMode::LocalBrowser
                },
            ),
        )
    } else if remote {
        (
            app,
            ActionView::Send(
                protocol::RequestView::CreateRemoteDir(
                    app.pending_remote_host,
                    app.pending_remote_port,
                    browse::child(app.remote_current_path, name),
                    app.pending_password,
                ),
                WaitingView::MakeRemoteDir,
            ),
        )
    } else {
        (
            app,
            ActionView::Send(
                protocol::RequestView::CreateLocalDir(browse::child(app.current_path, name)),
                WaitingView::MakeLocalDir,
            ),
        )
    }
}

/// What follows a key while a new directory is named.
pub open spec fn mkdir_turn(app: state::AppView, key: Key, remote: bool) -> Turn {
    match key.code {
        KeyCode::Esc => done(
            in_mode(
                app,
                if remote {
                    AppMode::RemoteBrowser
                } else {
                    AppMode::LocalBrowser
                },
            ),
        ),
        KeyCode::Enter => named_dir(app, remote),
        KeyCode::Backspace => done(
            state::AppView { input_new_dir: shortened(app.input_new_dir), ..app },
        ),
        KeyCode::Char(c) => done(
            state::AppView { input_new_dir: app.input_new_dir.push(c), ..app },
        ),
        _ => done(app),
    }
}

/// Makes the directory that was named.
fn make_dir(app: &mut App, remote: bool) -> (r: Action)
    ensures
        (final(app)@, r@) == named_dir(old(app)@, remote),
{
    let name: String = text::trim(&app.input_new_dir);
    if name.as_str().is_empty() {
        app.mode = if remote {
            AppMode::RemoteBrowser
        } else {
            AppMode::LocalBrowser
        };
        return Action::Finish(HandlerResult::Continue);
    }
    if remote {
        Action::Send(
            ClientRequest::CreateRemoteDir(
                app.pending_remote_host.clone(),
                app.pending_remote_port,
                browse::join_child(&app.remote_current_path, &name),
                text::copy_optional(&app.pending_password),
            ),
            Waiting::MakeRemoteDir,
        )
    } else {
        Action::Send(
            ClientRequest::CreateLocalDir(browse::join_child(&app.current_path, &name)),
            Waiting::MakeLocalDir,
        )
    }
}

/// Takes a key while a new directory is named.
pub fn handle_mkdir_input_keys(key: Key, app: &mut App, remote: bool) -> (r: Action)
    ensures
        (final(app)@, r@) == mkdir_turn(old(app)@, key, remote),
{
    match key.code {
        KeyCode::Esc => {
            app.mode = if remote {
                AppMode::RemoteBrowser
            } else {
                AppMode::LocalBrowser
            };
        },
        KeyCode::Enter => {
            return make_dir(app, remote);
        },
        KeyCode::Backspace => {
            app.input_new_dir = cursor::pop_char(&app.input_new_dir);
        },
        KeyCode::Char(c) => {
            let mut typed: String = app.input_new_dir.clone();
            typed.push(c);
            app.input_new_dir = typed;
        },
        _ => {},
    }
    Action::Finish(HandlerResult::Continue)
}

// ---------------------------------------------------------------------------
// All keys
// ---------------------------------------------------------------------------
/// What follows a key.
pub open spec fn key_turn(app: state::AppView, key: Key) -> Turn {
    match app.mode {
        AppMode::Dashboard => dashboard_turn(app, key),
        AppMode::LocalBrowser => local_turn(app, key),
        AppMode::HostSelect => host_turn(app, key),
        AppMode::RemoteHostInput => host_input_turn(app, key),
        AppMode::RemotePortInput => port_input_turn(app, key),
        AppMode::PasswordInput => password_turn(app, key),
        AppMode::SyncModeSelect => mode_turn(app, key),
        AppMode::RemoteBrowser => remote_turn(app, key),
        AppMode::DryRunView => dry_run_turn(app, key),
        AppMode::CreateRemoteDir => mkdir_turn(app, key, true),
        AppMode::LogView => log_turn(app, key),
        AppMode::CreateLocalDir => mkdir_turn(app, key, false),
    }
}

/// Takes a key: changes the dashboard, and says what it does next.
pub fn handle_key_event(key: Key, app: &mut App) -> (r: Action)
    requires
        can_take(old(app)@, key),
    ensures
        (final(app)@, r@) == key_turn(old(app)@, key),
{
    match app.mode {
        AppMode::Dashboard => handle_dashboard_keys(key, app),
        AppMode::LocalBrowser => handle_local_browser_keys(key, app),
        AppMode::HostSelect => handle_host_select_keys(key, app),
        AppMode::RemoteHostInput => handle_remote_host_input_keys(key, app),
        AppMode::RemotePortInput => handle_remote_port_input_keys(key, app),
        AppMode::PasswordInput => handle_password_input_keys(key, app),
        AppMode::SyncModeSelect => handle_sync_mode_select_keys(key, app),
        AppMode::RemoteBrowser => handle_remote_browser_keys(key, app),
        AppMode::DryRunView => handle_dry_run_view_keys(key, app),
        AppMode::CreateRemoteDir => handle_mkdir_input_keys(key, app, true),
        AppMode::LogView => handle_log_view_keys(key, app),
        AppMode::CreateLocalDir => handle_mkdir_input_keys(key, app, false),
    }
}

// ---------------------------------------------------------------------------
// Answers
// ---------------------------------------------------------------------------
/// The dashboard with the entries of a directory, the one above first.
pub open spec fn with_entries(app: state::AppView, entries: Seq<Seq<char>>) -> state::AppView {
    state::AppView {
        dir_entries: seq![".."@] + entries,
        selected_idx: 0,
        browser_list_state: Some(0),
        ..app
    }
}

/// The dashboard after the entries of a directory, or none, came.
pub open spec fn after_list(
    app: state::AppView,
    response: protocol::ResponseView,
    failure: Option<AppMode>,
) -> state::AppView {
    match response {
        protocol::ResponseView::DirList(list) => with_entries(app, list),
        protocol::ResponseView::Error(_) => match failure {
            Some(mode) => in_mode(app, mode),
            None => app,
        },
        _ => app,
    }
}

/// Where a log is shown from: the last twenty lines.
pub open spec fn log_start(log: Seq<char>) -> usize {
    let count = lines::lines(log).len();
    if count > 20 {
        (count - 20) as usize
    } else {
        0
    }
}

/// What follows when a directory was made, or was not.
pub open spec fn after_mkdir(
    app: state::AppView,
    response: protocol::ResponseView,
    remote: bool,
) -> Turn {
    let next = in_mode(
        app,
        if remote {
            AppMode::RemoteBrowser
        } else {
            AppMode::LocalBrowser
        },
    );
    match response {
        protocol::ResponseView::Ack => if remote {
            (next, ActionView::Send(remote_request(next), WaitingView::RemoteList(None)))
        } else {
            (next, ActionView::Send(local_request(next), WaitingView::LocalList(None, false)))
        },
        protocol::ResponseView::Error(e) => done(
            state::AppView { input_new_dir: "Error: "@ + e, ..app },
        ),
        _ => done(next),
    }
}

/// What follows the remote home directory: its entries, or those of the root where it is not known,
/// are asked for.
pub open spec fn after_home(
    app: state::AppView,
    response: protocol::ResponseView,
    failure: Option<AppMode>,
) -> Turn {
    let next = state::AppView {
        remote_current_path: match response {
            protocol::ResponseView::RemoteHome(p) => p,
            _ => "/"@,
        },
        ..app
    };
    (next, ActionView::Send(remote_request(next), WaitingView::RemoteList(failure)))
}

/// What follows an answer of the daemon.
pub open spec fn answer_turn(
    app: state::AppView,
    waiting: WaitingView,
    response: protocol::ResponseView,
    now: u64,
) -> Turn {
    match waiting {
        WaitingView::LocalList(failure, scroll) => {
            let next = after_list(app, response, failure);
            done(
                if scroll {
                    state::AppView { browser_list_state: Some(next.selected_idx), ..next }
                } else {
                    next
                },
            )
        },
        WaitingView::RemoteHome(failure) => after_home(app, response, failure),
        WaitingView::RemoteList(failure) => done(after_list(app, response, failure)),
        WaitingView::Start => if response is Ack {
            done(
                state::AppView {
                    mode: AppMode::Dashboard,
                    pending_source: ""@,
                    remote_current_path: ""@,
                    ..app
                },
            )
        } else {
            done(app)
        },
        WaitingView::DryRun(id) => match response {
            protocol::ResponseView::DryRunResult(changes) => done(
                state::AppView {
                    dry_run_results: changes,
                    dry_run_task_id: id,
                    dry_run_scroll: 0,
                    mode: AppMode::DryRunView,
                    ..app
                },
            ),
            _ => done(app),
        },
        WaitingView::Log(id) => match response {
            protocol::ResponseView::TaskLog(_, log) => done(
                state::AppView {
                    view_task_log: log,
                    view_log_task_id: id,
                    view_log_scroll: log_start(log),
                    view_log_last_fetch: now,
                    mode: AppMode::LogView,
                    ..app
                },
            ),
            _ => done(app),
        },
        WaitingView::RefreshLog => match response {
            protocol::ResponseView::TaskLog(_, log) => done(
                state::AppView { view_task_log: log, view_log_last_fetch: now, ..app },
            ),
            _ => done(app),
        },
        WaitingView::MakeLocalDir => after_mkdir(app, response, false),
        WaitingView::MakeRemoteDir => after_mkdir(app, response, true),
        WaitingView::Nothing => done(app),
    }
}

/// Shows the entries of a directory, or goes where the dashboard goes without them.
fn take_list(app: &mut App, response: ServerResponse, failure: Option<AppMode>)
    ensures
        final(app)@ == after_list(old(app)@, response@, failure),
{
    match response {
        ServerResponse::DirList(list) => {
            let ghost all = text::texts(list@);
            let mut entries: Vec<String> = list;
            entries.insert(0, "..".to_owned());
            proof {
                assert(text::texts(entries@) =~= seq![".."@] + all);
            }
            app.dir_entries = entries;
            app.selected_idx = 0;
            app.browser_list_state = Some(0);
        },
        ServerResponse::Error(_) => {
            if let Some(mode) = failure {
                app.mode = mode;
            }
        },
        _ => {},
    }
}

/// Goes on after a directory was made, or was not.
fn finish_mkdir(app: &mut App, response: ServerResponse, remote: bool) -> (r: Action)
    ensures
        (final(app)@, r@) == after_mkdir(old(app)@, response@, remote),
{
    let mode: AppMode = if remote {
        AppMode::RemoteBrowser
    } else {
        AppMode::LocalBrowser
    };
    match response {
        ServerResponse::Ack => {
            app.mode = mode;
            if remote {
                Action::Send(ask_remote(app), Waiting::RemoteList(None))
            } else {
                Action::Send(
                    ClientRequest::ListLocalDirs(app.current_path.clone()),
                    Waiting::LocalList(None, false),
                )
            }
        },
        ServerResponse::Error(e) => {
            app.input_new_dir = text::cat2("Error: ", &e);
            Action::Finish(HandlerResult::Continue)
        },
        _ => {
            app.mode = mode;
            Action::Finish(HandlerResult::Continue)
        },
    }
}

/// Goes on after the remote home directory.
fn take_home(app: &mut App, response: ServerResponse, failure: Option<AppMode>) -> (r: Action)
    ensures
        (final(app)@, r@) == after_home(old(app)@, response@, failure),
{
    app.remote_current_path = match response {
        ServerResponse::RemoteHome(p) => p,
        _ => "/".to_owned(),
    };
    Action::Send(ask_remote(app), Waiting::RemoteList(failure))
}

/// Shows the log of a task.
fn take_log(app: &mut App, id: String, log: String, now: u64)
    ensures
        final(app)@ == (state::AppView {
            view_task_log: log@,
            view_log_task_id: id@,
            view_log_scroll: log_start(log@),
            view_log_last_fetch: now,
            mode: AppMode::LogView,
            ..old(app)@
        }),
{
    let all: Vec<String> = lines::lines_of(&log);
    let count: usize = all.len();
    proof {
        assert(text::texts(all@).len() == count);
    }
    app.view_task_log = log;
    app.view_log_task_id = id;
    app.view_log_scroll = if count > 20 {
        count - 20
    } else {
        0
    };
    app.view_log_last_fetch = now;
    app.mode = AppMode::LogView;
}

/// Takes an answer of the daemon that came at a time in milliseconds.
pub fn handle_answer(app: &mut App, waiting: Waiting, response: ServerResponse, now: u64) -> (r:
    Action)
    ensures
        (final(app)@, r@) == answer_turn(old(app)@, waiting@, response@, now),
{
    match waiting {
        Waiting::LocalList(failure, scroll) => {
            take_list(app, response, failure);
            if scroll {
                app.browser_list_state = Some(app.selected_idx);
            }
        },
        Waiting::RemoteHome(failure) => {
            return take_home(app, response, failure);
        },
        Waiting::RemoteList(failure) => {
            take_list(app, response, failure);
        },
        Waiting::Start => {
            if let ServerResponse::Ack = response {
                app.mode = AppMode::Dashboard;
                app.pending_source = "".to_owned();
                app.remote_current_path = "".to_owned();
            }
        },
        Waiting::DryRun(id) => {
            if let ServerResponse::DryRunResult(changes) = response {
                app.dry_run_results = changes;
                app.dry_run_task_id = id;
                app.dry_run_scroll = 0;
                app.mode = AppMode::DryRunView;
            }
        },
        Waiting::Log(id) => {
            if let ServerResponse::TaskLog(_, log) = response {
                take_log(app, id, log, now);
            }
        },
        Waiting::RefreshLog => {
            if let ServerResponse::TaskLog(_, log) = response {
                app.view_task_log = log;
                app.view_log_last_fetch = now;
            }
        },
        Waiting::MakeLocalDir => {
            return finish_mkdir(app, response, false);
        },
        Waiting::MakeRemoteDir => {
            return finish_mkdir(app, response, true);
        },
        Waiting::Nothing => {},
    }
    Action::Finish(HandlerResult::Continue)
}

/// The dashboard after the saved hosts were read: they are shown, or one is typed in where there
/// are none. Only a receiver's task moves the cursor to the start.
pub open spec fn with_hosts(app: state::AppView, hosts: Seq<Seq<char>>) -> state::AppView {
    let next = state::AppView { saved_hosts: hosts, ..app };
    if hosts.len() > 0 {
        state::AppView { mode: AppMode::HostSelect, host_list_idx: 0, ..next }
    } else {
        state::AppView {
            mode: AppMode::RemoteHostInput,
            input_remote_host: ""@,
            input_cursor_pos: if app.pending_sync_direction == SyncDirection::Pull {
                0
            } else {
                app.input_cursor_pos
            },
            is_editing_host: false,
            ..next
        }
    }
}

/// Takes the saved hosts.
pub fn handle_hosts(app: &mut App, hosts: Vec<String>) -> (r: Action)
    ensures
        (final(app)@, r@) == done(with_hosts(old(app)@, text::texts(hosts@))),
{
    let some: bool = hosts.len() > 0;
    proof {
        assert(text::texts(hosts@).len() == hosts@.len());
    }
    app.saved_hosts = hosts;
    if some {
        app.mode = AppMode::HostSelect;
        app.host_list_idx = 0;
    } else {
        app.mode = AppMode::RemoteHostInput;
        app.input_remote_host = "".to_owned();
        if app.pending_sync_direction == SyncDirection::Pull {
            app.input_cursor_pos = 0;
        }
        app.is_editing_host = false;
    }
    Action::Finish(HandlerResult::Continue)
}

/// The dashboard after the daemon was started anew, or was not.
pub open spec fn after_restart(app: state::AppView, started: bool, now: u64) -> state::AppView {
    if started {
        state::AppView { server_status: Some(true), server_status_last_check: now, ..app }
    } else {
        app
    }
}

/// Takes what came of starting the daemon anew, at a time in milliseconds.
pub fn handle_restart(app: &mut App, started: bool, now: u64) -> (r: Action)
    ensures
        (final(app)@, r@) == done(
            if started {
                state::AppView {
                    server_status: Some(true),
                    server_status_last_check: now,
                    ..old(app)@
                }
            } else {
                old(app)@
            },
        ),
        (final(app)@, r@) == done(after_restart(old(app)@, started, now)),
{
    if started {
        app.server_status = Some(true);
        app.server_status_last_check = now;
    }
    Action::Finish(HandlerResult::Continue)
}

} // verus!
