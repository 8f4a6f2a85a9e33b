//! What the screen shows of what the dashboard holds.
use super::cursor;
use super::key_laws;
use super::state;
use super::state::AppMode;
use super::ui;
use super::ui::{Area, Color, Places, Style};
use crate::protocol::{SyncDirection, SyncMode};
use vstd::prelude::*;

verus! {

/// The colour in which a task is drawn: one for each of the states that it can be in, and one more.
pub open spec fn is_color_of(status: Seq<char>, color: Color) -> bool {
    &&& status == "IDLE"@ <==> color == Color::Green
    &&& status == "ERROR"@ <==> color == Color::Red
    &&& status == "SYNCING..."@ <==> color == Color::Yellow
    &&& status == "PENDING..."@ <==> color == Color::Cyan
    &&& color == Color::Green || color == Color::Red || color == Color::Yellow || color
        == Color::Cyan || color == Color::Blue
}

/// The name under which a way to treat files is shown.
pub open spec fn is_name_of(mode: SyncMode, name: Seq<char>) -> bool {
    match mode {
        SyncMode::Mirror => name == "Mirror"@,
        SyncMode::AddOnly => name == "AddOnly"@,
        SyncMode::SafeSync => name == "SafeSync"@,
        SyncMode::Update => name == "Update"@,
    }
}

proof fn lemma_states_differ()
    ensures
        "IDLE"@ != "ERROR"@,
        "IDLE"@ != "SYNCING..."@,
        "IDLE"@ != "PENDING..."@,
        "ERROR"@ != "SYNCING..."@,
        "ERROR"@ != "PENDING..."@,
        "SYNCING..."@ != "PENDING..."@,
{
    reveal_strlit("IDLE");
    reveal_strlit("ERROR");
    reveal_strlit("SYNCING...");
    reveal_strlit("PENDING...");
    assert("IDLE"@[0] == 'I');
    assert("ERROR"@[0] == 'E');
    assert("SYNCING..."@[0] == 'S');
    assert("PENDING..."@[0] == 'P');
}

/// Every task is drawn, in its place of the list: its id, both its ends, its state, its way to treat
/// files with a mark for compression, and what was said of it last, in the colour of its state. The
/// selected one alone is marked.
pub proof fn law_every_task_is_drawn(app: state::AppView, places: Places, i: int)
    requires
        0 <= i < app.tasks.len(),
    ensures
        ui::drawn(app, places)[0] matches ui::WidgetView::List { area, entries, scroll, .. } && {
            let t = app.tasks[i];
            &&& area == places.list
            &&& scroll is Tasks
            &&& entries.len() == app.tasks.len()
            &&& entries[i] matches ui::EntryView::Plain(line, style) && {
                &&& style.fg matches Some(color) && is_color_of(t.status, color)
                &&& style.bg == if i == app.dashboard_selected_idx {
                    Some(Color::DarkGray)
                } else {
                    None::<Color>
                }
                &&& exists|name: Seq<char>|
                    #[trigger] is_name_of(t.sync_mode, name) && line == "ID: "@ + t.id + " | "@
                        + t.source + " -> "@ + t.remote_host + ":"@ + t.remote_path + "\n   ["@
                        + t.status + "] Mode: "@ + name + (if t.compress {
                        "+Z"@
                    } else {
                        Seq::empty()
                    }) + " | "@ + t.last_log
            }
        },
{
    lemma_states_differ();
    reveal_strlit("");
    assert(""@ =~= Seq::<char>::empty());
    let t = app.tasks[i];
    let name = ui::mode_name(t.sync_mode);
    assert(is_name_of(t.sync_mode, name));
    let drawn = ui::drawn(app, places);
    assert(drawn[0] == ui::dashboard(app, places.list, places.status, places.help)[0]);
    assert(ui::task_line(t) =~= "ID: "@ + t.id + " | "@ + t.source + " -> "@ + t.remote_host + ":"@
        + t.remote_path + "\n   ["@ + t.status + "] Mode: "@ + name + (if t.compress {
        "+Z"@
    } else {
        Seq::empty()
    }) + " | "@ + t.last_log);
}

/// The daemon is shown as running, as not running or as not known yet, each in a colour of its own.
pub proof fn law_the_daemon_is_shown(app: state::AppView, places: Places)
    ensures
        ui::drawn(app, places)[1] matches ui::WidgetView::Paragraph { area, text, text_style, .. }
            && {
            &&& area == places.status
            &&& app.server_status == Some(true) ==> text == "Server: ONLINE"@ && text_style.fg
                == Some(Color::Green)
            &&& app.server_status == Some(false) ==> text == "Server: OFFLINE"@ && text_style.fg
                == Some(Color::Red)
            &&& app.server_status is None ==> text == "Server: ?"@ && text_style.fg == Some(
                Color::Yellow,
            )
        },
        ui::drawn(app, places)[2] matches ui::WidgetView::Paragraph { area, .. } && area
            == places.help,
{
}

/// Something is drawn in front of the tasks exactly where something else is looked at, and what is
/// behind it is cleared first.
pub proof fn law_fronts_cover_the_tasks(app: state::AppView, places: Places)
    ensures
        ui::drawn(app, places).len() > 3 <==> app.mode != AppMode::Dashboard,
        app.mode != AppMode::Dashboard ==> ui::drawn(app, places)[3] == ui::WidgetView::Clear(
            places.front.whole,
        ),
        app.mode != AppMode::Dashboard ==> ui::front_size(app.mode) is Some,
        app.mode == AppMode::Dashboard ==> ui::front_size(app.mode) is None,
{
}

/// The entries of a directory are drawn as they are, in their order, under the directory that they
/// are in; the selected one alone is marked.
pub proof fn law_directories_are_drawn(app: state::AppView, places: Places, i: int)
    requires
        app.mode == AppMode::LocalBrowser || app.mode == AppMode::RemoteBrowser,
        0 <= i < app.dir_entries.len(),
    ensures
        ui::drawn(app, places)[4] matches ui::WidgetView::List { area, title, entries, .. } && {
            &&& area == places.front.upper
            &&& entries.len() == app.dir_entries.len()
            &&& entries[i] == ui::EntryView::Plain(
                app.dir_entries[i],
                Style {
                    fg: None,
                    bg: if i == app.selected_idx {
                        Some(Color::Blue)
                    } else {
                        None
                    },
                },
            )
            &&& app.mode == AppMode::LocalBrowser ==> title == (match app.pending_sync_direction {
                SyncDirection::Push => "Select Source"@,
                SyncDirection::Pull => "Select Destination"@,
            }) + ": "@ + app.current_path
            &&& app.mode == AppMode::RemoteBrowser && app.remote_current_path.len() > 0 ==> title
                == (match app.pending_sync_direction {
                SyncDirection::Push => "Select Remote Destination"@,
                SyncDirection::Pull => "Select Remote Source"@,
            }) + ": "@ + app.pending_remote_host + ":"@ + app.remote_current_path
                + " (Interface may freeze during SSH)"@
        },
{
    let drawn = ui::drawn(app, places);
    assert(drawn[4] == ui::front_widgets(app, places.front)[1]);
    if app.mode == AppMode::RemoteBrowser && app.remote_current_path.len() > 0 {
        let start = match app.pending_sync_direction {
            SyncDirection::Push => "Select Remote Destination"@,
            SyncDirection::Pull => "Select Remote Source"@,
        };
        assert(ui::remote_title(app) =~= start + ": "@ + app.pending_remote_host + ":"@
            + app.remote_current_path + " (Interface may freeze during SSH)"@);
    }
}

/// Every saved host is drawn in its place, and the selected one alone is marked.
pub proof fn law_hosts_are_drawn(app: state::AppView, places: Places, i: int)
    requires
        app.mode == AppMode::HostSelect,
        0 <= i < app.saved_hosts.len(),
    ensures
        ui::drawn(app, places)[4] matches ui::WidgetView::List { area, entries, .. } && {
            &&& area == places.front.upper
            &&& entries.len() == app.saved_hosts.len()
            &&& entries[i] matches ui::EntryView::Plain(host, style) && host == app.saved_hosts[i]
                && (style.bg is Some <==> i == app.host_list_idx)
        },
{
    assert(ui::drawn(app, places)[4] == ui::front_widgets(app, places.front)[1]);
}

/// Each way to treat files is offered at the place where Enter takes it, under its name, and the
/// selected one alone is marked. Whether to compress is shown below.
pub proof fn law_ways_are_offered(app: state::AppView, places: Places, i: int)
    requires
        app.mode == AppMode::SyncModeSelect,
        0 <= i < 4,
    ensures
        ui::drawn(app, places)[4] matches ui::WidgetView::List { area, entries, .. } && {
            let name = match key_laws::way_at(i) {
                SyncMode::Mirror => "Mirror"@,
                SyncMode::AddOnly => "Add Only"@,
                SyncMode::SafeSync => "Safe Sync"@,
                SyncMode::Update => "Update"@,
            };
            &&& area == places.front.upper
            &&& entries[i] matches ui::EntryView::Pair(first, style, _, _) && {
                &&& first == (if i == app.sync_mode_selected_idx {
                    "> "@
                } else {
                    "  "@
                }) + name
                &&& style.bg is Some <==> i == app.sync_mode_selected_idx
            }
            &&& entries[5] matches ui::EntryView::Plain(text, _) && text
                == if app.pending_compress {
                "[X] Enable Compression (-z)"@
            } else {
                "[ ] Enable Compression (-z)"@
            }
        },
{
    assert(ui::drawn(app, places)[4] == ui::front_widgets(app, places.front)[1]);
    let at = app.sync_mode_selected_idx;
    let list = ui::offers(at, app.pending_compress);
    assert(list[0] matches ui::EntryView::Pair(_, _, _, _));
    assert(i == 0 || i == 1 || i == 2 || i == 3);
    assert(key_laws::way_at(0) == SyncMode::Mirror);
    assert(key_laws::way_at(1) == SyncMode::AddOnly);
    assert(key_laws::way_at(2) == SyncMode::SafeSync);
    assert(key_laws::way_at(3) == SyncMode::Update);
}

/// What is typed in is shown: a host and a port with the cursor in them, a new directory, and a
/// password where it is not hidden.
pub proof fn law_typed_texts_are_shown(app: state::AppView, places: Places)
    ensures
        app.mode == AppMode::PasswordInput && app.show_password ==> (ui::drawn(app, places)[4]
            matches ui::WidgetView::Paragraph { area, text, .. } && area == places.front.upper
            && text == "SSH Password (leave empty for SSH keys):\n\n"@ + app.input_password
            + "|"@),
        app.mode == AppMode::CreateLocalDir || app.mode == AppMode::CreateRemoteDir ==> (ui::drawn(
            app,
            places,
        )[4] matches ui::WidgetView::Paragraph { area, title, text, .. } && area
            == places.front.whole && text == "New Directory Name:\n\n"@ + app.input_new_dir + "|"@
            && title == Some(
            if app.mode == AppMode::CreateLocalDir {
                "Create Local Directory"@
            } else {
                "Create Remote Directory"@
            },
        )),
{
    assert(app.mode != AppMode::Dashboard ==> ui::drawn(app, places)[4] == ui::front_widgets(
        app,
        places.front,
    )[1]);
}

/// The changes of a dry run are drawn from the line that it is read from on, one after the other, as
/// many as there is room for, under the id of the task.
pub proof fn law_dry_runs_are_drawn(app: state::AppView, places: Places, k: int)
    requires
        app.mode == AppMode::DryRunView,
        places.front.whole.height >= 5,
        app.dry_run_scroll < app.dry_run_results.len(),
    ensures
        ui::drawn(app, places)[4] matches ui::WidgetView::List { area, title, entries, .. } && {
            let room = places.front.whole.height - 5;
            let left = app.dry_run_results.len() - app.dry_run_scroll;
            &&& area == places.front.upper
            &&& title == "Dry Run Results: "@ + app.dry_run_task_id
            &&& entries.len() == if left < room {
                left
            } else {
                room
            }
            &&& 0 <= k < entries.len() ==> (entries[k] matches ui::EntryView::Plain(line, _) && line
                == app.dry_run_results[app.dry_run_scroll + k])
        },
{
    assert(ui::drawn(app, places)[4] == ui::front_widgets(app, places.front)[1]);
}

/// A log is drawn whole, from the line that it is read from on, under the id of its task.
pub proof fn law_logs_are_drawn(app: state::AppView, places: Places)
    requires
        app.mode == AppMode::LogView,
        app.view_log_scroll <= u16::MAX,
    ensures
        ui::drawn(app, places)[4] matches ui::WidgetView::Paragraph {
            area,
            title,
            text,
            from_line,
            ..
        } && {
            &&& area == places.front.upper
            &&& title == Some("Logs: "@ + app.view_log_task_id)
            &&& text == app.view_task_log
            &&& from_line == app.view_log_scroll
        },
{
    assert(ui::drawn(app, places)[4] == ui::front_widgets(app, places.front)[1]);
}

/// What stands in front is in the middle: the share that is left on one side is the one on the other,
/// but for what cannot be halved.
pub proof fn law_fronts_are_in_the_middle(mode: AppMode)
    ensures
        ui::front_size(mode) matches Some((x, y)) ==> {
            let across = ui::middle_share(x);
            let down = ui::middle_share(y);
            &&& 0 < x <= 100 && 0 < y <= 100
            &&& across.1 - across.0 == x
            &&& down.1 - down.0 == y
            &&& across.0 <= 100 - across.1 <= across.0 + 1
            &&& down.0 <= 100 - down.1 <= down.0 + 1
        },
{
}

/// On a screen the list of tasks, the daemon beside it and the keys below follow each other without a
/// gap or an overlap and fill the screen.
pub proof fn law_the_screen_is_filled(mode: AppMode, screen: Area, places: Places)
    requires
        ui::is_placed(mode, screen, places),
        screen.x + screen.width <= u16::MAX,
        screen.y + screen.height <= u16::MAX,
    ensures
        places.list.x == screen.x && places.list.y == screen.y,
        places.status.x == places.list.x + places.list.width,
        places.status.y == screen.y && places.status.height == places.list.height,
        places.status.x + places.status.width == screen.x + screen.width,
        places.help.x == screen.x && places.help.width == screen.width,
        places.help.y == places.list.y + places.list.height,
        places.help.y + places.help.height == screen.y + screen.height,
{
}

/// What stands in front lies on the screen, and its two parts lie in it, each across all of it.
pub proof fn law_fronts_lie_on_the_screen(mode: AppMode, screen: Area, places: Places)
    requires
        ui::is_placed(mode, screen, places),
        mode != AppMode::Dashboard,
    ensures
        ({
            let whole = places.front.whole;
            let upper = places.front.upper;
            let lower = places.front.lower;
            &&& screen.x <= whole.x && whole.x + whole.width <= screen.x + screen.width
            &&& screen.y <= whole.y && whole.y + whole.height <= screen.y + screen.height
            &&& upper.x == whole.x && upper.width == whole.width
            &&& lower.x == whole.x && lower.width == whole.width
            &&& whole.y <= upper.y && upper.y + upper.height <= whole.y + whole.height
            &&& whole.y <= lower.y && lower.y + lower.height <= whole.y + whole.height
        }),
{
}

/// Whatever is shown can be drawn, but for a cursor that stands inside a character of what is typed
/// in. A host or a port is shown with the cursor before the character at which it stands.
pub proof fn law_cursors_are_shown(
    app: state::AppView,
    places: Places,
    front: Seq<char>,
    back: Seq<char>,
)
    ensures
        app.mode != AppMode::RemoteHostInput && app.mode != AppMode::RemotePortInput
            ==> ui::can_show_cursor(app),
        app.mode == AppMode::RemoteHostInput && app.input_remote_host == front + back
            && app.input_cursor_pos == vstd::utf8::encode_utf8(front).len() ==> {
            &&& ui::can_show_cursor(app)
            &&& ui::drawn(app, places)[4] matches ui::WidgetView::Paragraph { area, text, .. }
                && area == places.front.upper && text == "Remote Host (user@hostname:port):\n\n"@ + (
            front + seq!['|'] + back)
        },
        app.mode == AppMode::RemotePortInput && app.input_remote_port == front + back
            && app.input_cursor_pos == vstd::utf8::encode_utf8(front).len() ==> {
            &&& ui::can_show_cursor(app)
            &&& ui::drawn(app, places)[4] matches ui::WidgetView::Paragraph { area, text, .. }
                && area == places.front.upper && text == "SSH Port (default: 22):\n\n"@ + (front
                + seq!['|'] + back)
        },
{
    let pos = app.input_cursor_pos;
    if pos == vstd::utf8::encode_utf8(front).len() {
        cursor::law_texts_are_edited_between_characters(front, ' ', back, pos);
        let s = front + back;
        assert(s.take(front.len() as int) =~= front);
        assert(cursor::byte_len(s.take(front.len() as int)) == pos);
        assert(cursor::is_boundary(s, pos));
    }
    assert(app.mode != AppMode::Dashboard ==> ui::drawn(app, places)[4] == ui::front_widgets(
        app,
        places.front,
    )[1]);
}

} // verus!
