use server_sync::client::browse::{join_child, local_parent, remote_parent, split_host};
use server_sync::client::config::{load_hosts, save_hosts};
use server_sync::client::cursor::{
    count_bytes, insert_char, is_at_boundary, pop_char, remove_char, show_cursor,
};
use server_sync::client::handler::{
    handle_answer, handle_hosts, handle_key_event, handle_restart, takes_key, Action,
    HandlerResult, Key, KeyCode, Waiting,
};
use server_sync::client::network::{send_req, Exchange};
use server_sync::client::session::{
    is_interrupt, run_app, take_status, take_tasks, Chore, Progress,
};
use server_sync::client::state::{App, AppMode};
use server_sync::client::ui::{
    centered_rect, centering, draw, draw_in, place, shares_of_front, shows_cursor, size_of_front,
    Area, Color, Entry, Front, Places, Scroll, Share, Widget,
};
use server_sync::protocol::{ClientRequest, ServerResponse, SyncDirection, SyncMode, SyncTask};

fn press(code: KeyCode) -> Key {
    Key {
        code,
        control: false,
    }
}

fn letter(c: char) -> Key {
    press(KeyCode::Char(c))
}

fn app() -> App {
    App::new("/home/u".to_owned(), Vec::new(), 0)
}

fn task(id: &str) -> SyncTask {
    SyncTask {
        id: id.to_owned(),
        source: "/data".to_owned(),
        remote_host: "user@host".to_owned(),
        remote_port: Some(22),
        remote_path: "/backup".to_owned(),
        status: "IDLE".to_owned(),
        last_log: "ok".to_owned(),
        poll_interval: 5,
        sync_mode: SyncMode::SafeSync,
        sync_direction: SyncDirection::Push,
        compress: true,
        password: None,
    }
}

fn words(list: &[&str]) -> Vec<String> {
    list.iter().map(|s| (*s).to_owned()).collect()
}

fn is_done(action: &Action) -> bool {
    matches!(action, Action::Finish(HandlerResult::Continue))
}

#[test]
fn saved_hosts_are_read_back() {
    let hosts = words(&["user@a", "b"]);
    assert_eq!(save_hosts(&hosts), "user@a\nb");
    assert_eq!(load_hosts(Some(&save_hosts(&hosts))), hosts);
    assert_eq!(
        load_hosts(Some("# comment\n  a \n\n\tb\r\n#c")),
        words(&["a", "b"])
    );
    assert!(load_hosts(None).is_empty());
}

#[test]
fn directories_are_entered_and_left() {
    assert_eq!(join_child("/", "a"), "/a");
    assert_eq!(join_child("/a", "b"), "/a/b");
    assert_eq!(local_parent("/a/b"), "/a");
    assert_eq!(local_parent("/a"), "/");
    assert_eq!(local_parent("/"), "/");
    assert_eq!(local_parent("a"), "");
    assert_eq!(remote_parent("/a/b"), "/a");
    assert_eq!(remote_parent("a"), "/");
    assert_eq!(remote_parent("/"), "/");
    assert_eq!(remote_parent(""), "");
}

#[test]
fn a_port_follows_the_last_colon() {
    let split = |s: &str| split_host(s);
    assert_eq!(
        split("user@host:2222"),
        ("user@host".to_owned(), Some("2222".to_owned()))
    );
    assert_eq!(split("host"), ("host".to_owned(), None));
    assert_eq!(split("fe80::x"), ("fe80::x".to_owned(), None));
    assert_eq!(split("fe80::1"), ("fe80::1".to_owned(), None));
    assert_eq!(split("a:b:22"), ("a:b:22".to_owned(), None));
    assert_eq!(
        split("[fe80::1]:2222"),
        ("[fe80::1]".to_owned(), Some("2222".to_owned()))
    );
    assert_eq!(
        split("u@[::1]:22"),
        ("u@[::1]".to_owned(), Some("22".to_owned()))
    );
    assert_eq!(split("[fe80::1]"), ("[fe80::1]".to_owned(), None));
    assert_eq!(split("[fe80::1]:x"), ("[fe80::1]:x".to_owned(), None));
    assert_eq!(split(":22"), ("".to_owned(), Some("22".to_owned())));
    assert_eq!(split("host:70000"), ("host:70000".to_owned(), None));
    assert_eq!(split("host:"), ("host:".to_owned(), None));
}

#[test]
fn a_text_is_edited_at_a_byte_position() {
    assert_eq!(count_bytes("a\u{e9}b"), 4);
    assert_eq!(insert_char("a\u{e9}b", 3, 'x'), "a\u{e9}xb");
    assert_eq!(remove_char("a\u{e9}b", 1), "ab");
    assert_eq!(remove_char(&insert_char("host", 2, '-'), 2), "host");
    assert_eq!(show_cursor("host", 2), "ho|st");
    assert_eq!(show_cursor("host", 9), "host|");
    assert_eq!(pop_char("a\u{e9}"), "a");
    assert_eq!(pop_char(""), "");
}

#[test]
fn what_fails_is_an_answer_too() {
    assert!(
        matches!(send_req(Exchange::NotConnected), ServerResponse::Error(e) if e == "Daemon not running!")
    );
    assert!(
        matches!(send_req(Exchange::Unparsable("x".to_owned())), ServerResponse::Error(e) if e == "Parse error: x")
    );
    assert!(
        matches!(send_req(Exchange::Empty), ServerResponse::Error(e) if e == "Empty response")
    );
    assert!(matches!(
        send_req(Exchange::Answered(ServerResponse::Ack)),
        ServerResponse::Ack
    ));
}

#[test]
fn the_selected_task_is_dealt_with() {
    let mut app = app();
    app.tasks = vec![task("t1"), task("t2")];
    assert!(is_done(&handle_key_event(press(KeyCode::Down), &mut app)));
    assert_eq!(app.dashboard_selected_idx, 1);
    assert_eq!(app.dashboard_list_state, Some(1));
    handle_key_event(press(KeyCode::Down), &mut app);
    assert_eq!(app.dashboard_selected_idx, 1);
    match handle_key_event(letter('d'), &mut app) {
        Action::Send(ClientRequest::StopTask(id), Waiting::Nothing) => assert_eq!(id, "t2"),
        other => panic!("{other:?}"),
    }
    assert_eq!(app.dashboard_selected_idx, 0);
    app.dashboard_selected_idx = 7;
    match handle_key_event(letter('S'), &mut app) {
        Action::Send(ClientRequest::RestartTask(id), Waiting::Nothing) => assert_eq!(id, "t2"),
        other => panic!("{other:?}"),
    }
    assert!(matches!(
        handle_key_event(letter('q'), &mut app),
        Action::Finish(HandlerResult::Quit)
    ));
    let restart = Key {
        code: KeyCode::Char('r'),
        control: true,
    };
    assert!(matches!(
        handle_key_event(restart, &mut app),
        Action::RestartServer
    ));
    assert!(is_done(&handle_restart(&mut app, true, 9)));
    assert_eq!(app.server_status, Some(true));
    assert_eq!(app.server_status_last_check, 9);
}

#[test]
fn without_tasks_nothing_is_asked_for() {
    let mut app = app();
    for c in ['d', 'r', 's', 'l'] {
        assert!(is_done(&handle_key_event(letter(c), &mut app)));
    }
}

#[test]
fn a_log_is_shown_from_its_last_lines() {
    let mut app = app();
    app.tasks = vec![task("t1")];
    let waiting = match handle_key_event(letter('l'), &mut app) {
        Action::Send(ClientRequest::GetTaskLog(_), waiting) => waiting,
        other => panic!("{other:?}"),
    };
    let log = "line\n".repeat(25);
    let answer = ServerResponse::TaskLog("t1".to_owned(), log);
    assert!(is_done(&handle_answer(&mut app, waiting, answer, 500)));
    assert_eq!(app.mode, AppMode::LogView);
    assert_eq!(app.view_log_scroll, 5);
    assert_eq!(app.view_log_task_id, "t1");
    assert_eq!(app.view_log_last_fetch, 500);
    handle_key_event(press(KeyCode::PageUp), &mut app);
    assert_eq!(app.view_log_scroll, 0);
    handle_key_event(letter('j'), &mut app);
    assert_eq!(app.view_log_scroll, 1);
    app.view_log_scroll = usize::MAX;
    handle_key_event(press(KeyCode::PageDown), &mut app);
    assert_eq!(app.view_log_scroll, usize::MAX);
    handle_key_event(letter('q'), &mut app);
    assert_eq!(app.mode, AppMode::Dashboard);
}

#[test]
fn a_task_that_sends_is_put_together() {
    let mut app = app();
    let waiting = match handle_key_event(letter('a'), &mut app) {
        Action::Send(ClientRequest::ListLocalDirs(p), waiting) => {
            assert_eq!(p, "/home/u");
            waiting
        }
        other => panic!("{other:?}"),
    };
    assert_eq!(app.mode, AppMode::LocalBrowser);
    let listing = ServerResponse::DirList(words(&["docs/", "file"]));
    handle_answer(&mut app, waiting, listing, 0);
    assert_eq!(app.dir_entries, words(&["..", "docs/", "file"]));
    handle_key_event(press(KeyCode::Down), &mut app);
    assert!(matches!(
        handle_key_event(letter(' '), &mut app),
        Action::LoadHosts
    ));
    assert_eq!(app.pending_source, "/home/u/docs");
    handle_hosts(&mut app, Vec::new());
    assert_eq!(app.mode, AppMode::RemoteHostInput);
    for c in "user@host:2222".chars() {
        handle_key_event(letter(c), &mut app);
    }
    handle_key_event(press(KeyCode::Enter), &mut app);
    assert_eq!(app.mode, AppMode::RemotePortInput);
    assert_eq!(app.pending_remote_host, "user@host");
    assert_eq!(app.input_remote_port, "2222");
    handle_key_event(press(KeyCode::Enter), &mut app);
    assert_eq!(app.pending_remote_port, Some(2222));
    assert_eq!(app.mode, AppMode::PasswordInput);
    handle_key_event(letter(' '), &mut app);
    handle_key_event(press(KeyCode::Enter), &mut app);
    assert_eq!(app.pending_password, None);
    assert_eq!(app.mode, AppMode::SyncModeSelect);
    handle_key_event(press(KeyCode::Down), &mut app);
    handle_key_event(letter(' '), &mut app);
    let waiting = match handle_key_event(press(KeyCode::Enter), &mut app) {
        Action::Send(ClientRequest::GetRemoteHome(host, port, None), waiting) => {
            assert_eq!((host.as_str(), port), ("user@host", Some(2222)));
            waiting
        }
        other => panic!("{other:?}"),
    };
    let home = ServerResponse::RemoteHome("/home/r".to_owned());
    let waiting = match handle_answer(&mut app, waiting, home, 0) {
        Action::Send(ClientRequest::ListRemoteDirs(_, _, p, _), waiting) => {
            assert_eq!(p, "/home/r");
            waiting
        }
        other => panic!("{other:?}"),
    };
    handle_answer(
        &mut app,
        waiting,
        ServerResponse::DirList(words(&["backup"])),
        0,
    );
    handle_key_event(press(KeyCode::Down), &mut app);
    let waiting = match handle_key_event(letter(' '), &mut app) {
        Action::Send(ClientRequest::StartTask(t), waiting) => {
            assert_eq!(t.id, "task_1");
            assert_eq!(t.source, "/home/u/docs");
            assert_eq!(t.remote_path, "/home/r/backup");
            assert_eq!(t.sync_mode, SyncMode::AddOnly);
            assert_eq!(t.sync_direction, SyncDirection::Push);
            assert!(!t.compress);
            assert_eq!(t.status, "STARTING");
            waiting
        }
        other => panic!("{other:?}"),
    };
    handle_answer(&mut app, waiting, ServerResponse::Ack, 0);
    assert_eq!(app.mode, AppMode::Dashboard);
    assert_eq!(app.pending_source, "");
    assert_eq!(app.remote_current_path, "");
}

#[test]
fn a_task_that_receives_takes_the_remote_end_first() {
    let mut app = app();
    assert!(matches!(
        handle_key_event(letter('p'), &mut app),
        Action::LoadHosts
    ));
    handle_hosts(&mut app, words(&["user@a", "user@b"]));
    assert_eq!(app.mode, AppMode::HostSelect);
    handle_key_event(press(KeyCode::Down), &mut app);
    handle_key_event(press(KeyCode::Enter), &mut app);
    assert_eq!(app.pending_remote_host, "user@b");
    handle_key_event(letter('s'), &mut app);
    handle_key_event(press(KeyCode::Tab), &mut app);
    assert!(app.show_password);
    let waiting = match handle_key_event(press(KeyCode::Enter), &mut app) {
        Action::Send(ClientRequest::GetRemoteHome(_, _, Some(w)), waiting) => {
            assert_eq!(w, "s");
            waiting
        }
        other => panic!("{other:?}"),
    };
    let waiting = match handle_answer(
        &mut app,
        waiting,
        ServerResponse::Error("x".to_owned()),
        0,
    ) {
        Action::Send(ClientRequest::ListRemoteDirs(_, _, p, _), waiting) => {
            assert_eq!(p, "/");
            waiting
        }
        other => panic!("{other:?}"),
    };
    handle_answer(&mut app, waiting, ServerResponse::Error("x".to_owned()), 0);
    assert_eq!(app.mode, AppMode::PasswordInput);
    app.mode = AppMode::RemoteBrowser;
    app.dir_entries = words(&["..", "data"]);
    app.selected_idx = 1;
    let waiting = match handle_key_event(letter(' '), &mut app) {
        Action::Send(ClientRequest::ListLocalDirs(_), waiting) => waiting,
        other => panic!("{other:?}"),
    };
    assert_eq!(app.remote_current_path, "/data");
    handle_answer(&mut app, waiting, ServerResponse::DirList(Vec::new()), 0);
    assert!(is_done(&handle_key_event(letter(' '), &mut app)));
    assert_eq!(app.pending_source, "/home/u");
    assert_eq!(app.mode, AppMode::SyncModeSelect);
    match handle_key_event(press(KeyCode::Enter), &mut app) {
        Action::Send(ClientRequest::StartTask(t), Waiting::Start) => {
            assert_eq!(t.source, "/home/u");
            assert_eq!(t.remote_path, "/data");
            assert_eq!(t.sync_direction, SyncDirection::Pull);
            assert_eq!(t.password.as_deref(), Some("s"));
        }
        other => panic!("{other:?}"),
    }
}

#[test]
fn a_forgotten_host_is_written_off_and_the_selection_stays_in_the_list() {
    let mut app = app();
    handle_hosts(&mut app, words(&["a", "b"]));
    handle_key_event(press(KeyCode::Down), &mut app);
    match handle_key_event(letter('d'), &mut app) {
        Action::SaveHosts(hosts) => assert_eq!(hosts, words(&["a"])),
        other => panic!("{other:?}"),
    }
    assert_eq!(app.host_list_idx, 0);
    handle_key_event(letter('e'), &mut app);
    assert_eq!(app.input_remote_host, "a");
    assert_eq!(app.input_cursor_pos, 1);
    assert!(app.is_editing_host);
    handle_key_event(press(KeyCode::Esc), &mut app);
    assert_eq!(app.mode, AppMode::HostSelect);
}

#[test]
fn a_host_is_edited_at_the_cursor() {
    let mut app = app();
    app.mode = AppMode::RemoteHostInput;
    for c in "hst".chars() {
        handle_key_event(letter(c), &mut app);
    }
    handle_key_event(press(KeyCode::Left), &mut app);
    handle_key_event(press(KeyCode::Left), &mut app);
    handle_key_event(letter('o'), &mut app);
    assert_eq!(app.input_remote_host, "host");
    handle_key_event(press(KeyCode::Home), &mut app);
    handle_key_event(press(KeyCode::Delete), &mut app);
    assert_eq!(app.input_remote_host, "ost");
    handle_key_event(press(KeyCode::End), &mut app);
    handle_key_event(press(KeyCode::Backspace), &mut app);
    assert_eq!(app.input_remote_host, "os");
    assert_eq!(app.input_cursor_pos, 2);
}

#[test]
fn a_port_holds_digits_and_falls_back() {
    let mut app = app();
    app.mode = AppMode::RemotePortInput;
    app.input_remote_port = "2".to_owned();
    app.input_cursor_pos = 1;
    handle_key_event(letter('x'), &mut app);
    handle_key_event(letter('3'), &mut app);
    assert_eq!(app.input_remote_port, "23");
    app.input_remote_port = "99999".to_owned();
    handle_key_event(press(KeyCode::Enter), &mut app);
    assert_eq!(app.pending_remote_port, Some(22));
}

#[test]
fn a_directory_is_made_and_shown() {
    let mut app = app();
    app.mode = AppMode::LocalBrowser;
    handle_key_event(letter('n'), &mut app);
    assert_eq!(app.mode, AppMode::CreateLocalDir);
    for c in " new".chars() {
        handle_key_event(letter(c), &mut app);
    }
    let waiting = match handle_key_event(press(KeyCode::Enter), &mut app) {
        Action::Send(ClientRequest::CreateLocalDir(p), waiting) => {
            assert_eq!(p, "/home/u/new");
            waiting
        }
        other => panic!("{other:?}"),
    };
    let refused = ServerResponse::Error("denied".to_owned());
    assert!(is_done(&handle_answer(&mut app, waiting, refused, 0)));
    assert_eq!(app.input_new_dir, "Error: denied");
    assert_eq!(app.mode, AppMode::CreateLocalDir);
    match handle_answer(&mut app, Waiting::MakeLocalDir, ServerResponse::Ack, 0) {
        Action::Send(ClientRequest::ListLocalDirs(p), Waiting::LocalList(None, false)) => {
            assert_eq!(p, "/home/u")
        }
        other => panic!("{other:?}"),
    }
    app.mode = AppMode::CreateRemoteDir;
    app.input_new_dir = "  ".to_owned();
    assert!(is_done(&handle_key_event(press(KeyCode::Enter), &mut app)));
    assert_eq!(app.mode, AppMode::RemoteBrowser);
}

#[test]
fn only_directories_are_entered() {
    let mut app = app();
    app.mode = AppMode::LocalBrowser;
    app.dir_entries = words(&["..", "docs/", "file"]);
    app.selected_idx = 2;
    assert!(is_done(&handle_key_event(press(KeyCode::Enter), &mut app)));
    app.selected_idx = 1;
    match handle_key_event(press(KeyCode::Enter), &mut app) {
        Action::Send(ClientRequest::ListLocalDirs(p), Waiting::LocalList(None, true)) => {
            assert_eq!(p, "/home/u/docs")
        }
        other => panic!("{other:?}"),
    }
    app.selected_idx = 0;
    match handle_key_event(press(KeyCode::Enter), &mut app) {
        Action::Send(ClientRequest::ListLocalDirs(p), _) => assert_eq!(p, "/home/u"),
        other => panic!("{other:?}"),
    }
}

#[test]
fn a_round_fetches_what_is_shown() {
    let mut app = app();
    assert!(matches!(
        run_app(&app, Progress::Begun, 100),
        Chore::FetchTasks
    ));
    take_tasks(&mut app, ServerResponse::State(vec![task("t1")]));
    assert_eq!(app.tasks.len(), 1);
    assert_eq!(app.server_status, Some(true));
    assert!(matches!(
        run_app(&app, Progress::TasksDone, 2999),
        Chore::Draw
    ));
    assert!(matches!(
        run_app(&app, Progress::TasksDone, 3000),
        Chore::CheckServer
    ));
    take_status(&mut app, true, 3000);
    assert!(matches!(
        run_app(&app, Progress::TasksDone, 3001),
        Chore::Draw
    ));
    take_tasks(&mut app, ServerResponse::Error("timeout".to_owned()));
    assert_eq!(app.tasks.len(), 1);
    take_tasks(
        &mut app,
        ServerResponse::Error("Daemon not running!".to_owned()),
    );
    assert!(app.tasks.is_empty());
    assert_eq!(app.server_status, Some(false));
    app.mode = AppMode::LogView;
    app.view_log_task_id = "t1".to_owned();
    assert!(
        matches!(run_app(&app, Progress::Begun, 2000), Chore::FetchLog(id) if id == "t1")
    );
    assert!(matches!(run_app(&app, Progress::Begun, 1999), Chore::Draw));
    assert!(matches!(
        run_app(&app, Progress::LogDone, 9000),
        Chore::Draw
    ));
    assert!(is_interrupt(Key {
        code: KeyCode::Char('c'),
        control: true
    }));
    assert!(!is_interrupt(letter('c')));
}

fn area(x: u16, y: u16, width: u16, height: u16) -> Area {
    Area {
        x,
        y,
        width,
        height,
    }
}

fn places() -> Places {
    Places {
        list: area(0, 0, 76, 19),
        status: area(76, 0, 4, 19),
        help: area(0, 19, 80, 5),
        front: Front {
            whole: area(10, 5, 60, 14),
            upper: area(10, 5, 60, 11),
            lower: area(10, 16, 60, 3),
        },
    }
}

fn texts(widgets: &[Widget]) -> Vec<String> {
    widgets
        .iter()
        .map(|w| match w {
            Widget::Clear(_) => "clear".to_owned(),
            Widget::List { title, .. } => title.clone(),
            Widget::Paragraph { text, .. } => text.clone(),
        })
        .collect()
}

#[test]
fn the_tasks_are_drawn() {
    let mut app = app();
    app.tasks = vec![task("t1"), task("t2")];
    app.dashboard_selected_idx = 1;
    app.server_status = Some(false);
    let widgets = draw_in(&app, places());
    assert_eq!(widgets.len(), 3);
    match &widgets[0] {
        Widget::List {
            title,
            entries,
            scroll,
            ..
        } => {
            assert_eq!(title, "Active Sync Tasks");
            assert_eq!(*scroll, Scroll::Tasks);
            match &entries[1] {
                Entry::Plain(s, style) => {
                    assert_eq!(
                        s,
                        "ID: t2 | /data -> user@host:/backup\n   [IDLE] Mode: SafeSync+Z | ok"
                    );
                    assert_eq!(style.fg, Some(Color::Green));
                    assert_eq!(style.bg, Some(Color::DarkGray));
                }
                other => panic!("{other:?}"),
            }
            assert!(matches!(&entries[0], Entry::Plain(_, style) if style.bg.is_none()));
        }
        other => panic!("{other:?}"),
    }
    assert_eq!(texts(&widgets)[1], "Server: OFFLINE");
}

#[test]
fn what_stands_in_front_is_drawn() {
    let mut app = app();
    app.mode = AppMode::PasswordInput;
    app.input_password = "\u{e9}x".to_owned();
    assert_eq!(
        texts(&draw_in(&app, places()))[4],
        "SSH Password (leave empty for SSH keys):\n\n***|"
    );
    app.show_password = true;
    assert_eq!(
        texts(&draw_in(&app, places()))[4],
        "SSH Password (leave empty for SSH keys):\n\n\u{e9}x|"
    );
    app.mode = AppMode::RemoteHostInput;
    app.input_remote_host = "host".to_owned();
    app.input_cursor_pos = 1;
    assert_eq!(
        texts(&draw_in(&app, places()))[4],
        "Remote Host (user@hostname:port):\n\nh|ost"
    );
    app.mode = AppMode::RemoteBrowser;
    app.pending_remote_host = "u@h".to_owned();
    assert_eq!(
        texts(&draw_in(&app, places()))[4],
        "Select Remote Destination: u@h:/ (Interface may freeze during SSH)"
    );
    app.mode = AppMode::CreateLocalDir;
    app.input_new_dir = "new".to_owned();
    let widgets = draw_in(&app, places());
    assert_eq!(widgets.len(), 5);
    assert_eq!(texts(&widgets)[4], "New Directory Name:\n\nnew|");
}

#[test]
fn a_dry_run_shows_the_lines_that_fit() {
    let mut app = app();
    app.mode = AppMode::DryRunView;
    app.dry_run_task_id = "t1".to_owned();
    app.dry_run_results = (0..20).map(|i| format!("line {i}")).collect();
    app.dry_run_scroll = 15;
    let count = |app: &App| match &draw_in(app, places())[4] {
        Widget::List { entries, title, .. } => {
            assert_eq!(title, "Dry Run Results: t1");
            entries.len()
        }
        other => panic!("{other:?}"),
    };
    assert_eq!(count(&app), 5);
    app.dry_run_scroll = 2;
    assert_eq!(count(&app), 9);
    app.dry_run_scroll = 50;
    assert_eq!(count(&app), 0);
}

#[test]
fn the_ways_to_treat_files_are_offered() {
    let mut app = app();
    app.mode = AppMode::SyncModeSelect;
    app.sync_mode_selected_idx = 2;
    app.pending_compress = false;
    match &draw_in(&app, places())[4] {
        Widget::List { entries, .. } => {
            assert_eq!(entries.len(), 6);
            assert!(matches!(&entries[2], Entry::Pair(name, style, _, _)
                if name == "> Safe Sync" && style.bg == Some(Color::DarkGray)));
            assert!(matches!(&entries[0], Entry::Pair(name, ..) if name == "  Mirror"));
            assert!(
                matches!(&entries[5], Entry::Plain(s, _) if s == "[ ] Enable Compression (-z)")
            );
        }
        other => panic!("{other:?}"),
    }
}

#[test]
fn a_screen_is_split_into_places() {
    assert_eq!(
        centering(60),
        vec![
            Share::Percentage(20),
            Share::Percentage(60),
            Share::Percentage(20)
        ]
    );
    assert_eq!(
        centered_rect(60, 50, area(0, 0, 100, 40)),
        area(20, 10, 60, 20)
    );
    assert_eq!(size_of_front(AppMode::LogView), Some((90, 80)));
    assert_eq!(size_of_front(AppMode::Dashboard), None);
    assert_eq!(
        shares_of_front(AppMode::PasswordInput),
        vec![Share::Length(5), Share::Length(3)]
    );
    let mut app = app();
    let widgets = draw(&app, area(0, 0, 100, 40)).expect("drawn");
    match &widgets[0] {
        Widget::List { area: place, .. } => assert_eq!(*place, area(0, 0, 95, 32)),
        other => panic!("{other:?}"),
    }
    app.mode = AppMode::DryRunView;
    assert!(draw(&app, area(0, 0, 100, 40)).is_some());
    assert!(draw(&app, area(0, 0, 100, 4)).is_none());
}

/// The cell at so many percent of a stretch, to the nearest one.
fn edge(start: u16, size: u16, percent: u32) -> u32 {
    (100 * u32::from(start) + percent * u32::from(size) + 50) / 100
}

fn span(start: u16, size: u16) -> (u32, u32) {
    (u32::from(start), u32::from(start) + u32::from(size))
}

#[test]
fn the_middle_ends_at_the_nearest_cells() {
    for percent in [0, 1, 20, 25, 33, 60, 70, 99, 100] {
        let side = (100 - u32::from(percent)) / 2;
        for size in (0..120).chain([999, 1000, 30_001, 65_000]) {
            for start in [0, 7, 535] {
                let whole = area(start, start, size, size);
                let middle = centered_rect(percent, percent, whole);
                let expected = (
                    edge(start, size, side),
                    edge(start, size, side + u32::from(percent)),
                );
                assert_eq!(span(middle.x, middle.width), expected, "{percent} {whole:?}");
                assert_eq!(span(middle.y, middle.height), expected, "{percent} {whole:?}");
            }
        }
    }
    assert_eq!(
        centered_rect(25, 25, area(3, 5, 11, 7)),
        area(7, 8, 3, 1)
    );
}

#[test]
fn everything_has_its_share_of_the_screen() {
    for width in [0, 1, 13, 80, 203] {
        for height in 0..90 {
            let screen = area(2, 1, width, height);
            let p = place(AppMode::LogView, screen);
            let (right, low) = (2 + u32::from(width), 1 + u32::from(height));
            let (beside, below) = (edge(2, width, 95), edge(1, height, 80));
            assert_eq!(span(p.list.x, p.list.width), (2, beside));
            assert_eq!(span(p.list.y, p.list.height), (1, below));
            assert_eq!(span(p.status.x, p.status.width), (beside, right));
            assert_eq!(span(p.status.y, p.status.height), (1, below));
            assert_eq!(span(p.help.x, p.help.width), (2, right));
            assert_eq!(span(p.help.y, p.help.height), (below, low));
            let front = p.front;
            assert_eq!(front.whole, centered_rect(90, 80, screen));
            if front.whole.height >= 13 {
                assert_eq!(front.upper.y, front.whole.y);
                assert_eq!(front.upper.height, front.whole.height - 3);
                assert_eq!(front.lower.y, front.upper.y + front.upper.height);
                assert_eq!(front.lower.height, 3);
            }
            let front = place(AppMode::PasswordInput, screen).front;
            if front.whole.height >= 8 {
                assert_eq!(front.upper.y, front.whole.y);
                assert_eq!(front.upper.height, 5);
                assert_eq!(front.lower.y, front.whole.y + 5);
                assert_eq!(front.lower.height, 3);
            }
            let front = place(AppMode::HostSelect, screen).front;
            if front.whole.height >= 6 {
                assert_eq!(front.upper.y, front.whole.y);
                assert_eq!(front.upper.height, front.whole.height - 3);
                assert_eq!(front.lower.y, front.upper.y + front.upper.height);
                assert_eq!(front.lower.height, 3);
            }
        }
    }
}

#[test]
fn a_dry_run_needs_five_rows() {
    let mut app = app();
    app.mode = AppMode::DryRunView;
    for height in 0..40 {
        let rows = edge(0, height, 80) - edge(0, height, 20);
        let drawn = draw(&app, area(0, 0, 100, height)).is_some();
        assert_eq!(drawn, rows >= 5, "{height}");
    }
}

#[test]
fn an_address_is_a_host_without_a_port() {
    let mut app = app();
    app.mode = AppMode::RemoteHostInput;
    app.input_remote_host = "fe80::1".to_owned();
    app.input_cursor_pos = 7;
    handle_key_event(press(KeyCode::Enter), &mut app);
    assert_eq!(app.mode, AppMode::RemotePortInput);
    assert_eq!(app.pending_remote_host, "fe80::1");
    assert_eq!(app.input_remote_port, "22");
}

#[test]
fn an_address_in_brackets_can_have_a_port() {
    let mut app = app();
    app.mode = AppMode::RemoteHostInput;
    app.input_remote_host = "[fe80::1]:2222".to_owned();
    app.input_cursor_pos = 14;
    handle_key_event(press(KeyCode::Enter), &mut app);
    assert_eq!(app.mode, AppMode::RemotePortInput);
    assert_eq!(app.pending_remote_host, "[fe80::1]");
    assert_eq!(app.input_remote_port, "2222");
}

#[test]
fn keys_that_cannot_be_taken_are_told_apart() {
    assert!(is_at_boundary("a\u{e9}b", 1));
    assert!(!is_at_boundary("a\u{e9}b", 2));
    assert!(is_at_boundary("a\u{e9}b", 4));
    assert!(!is_at_boundary("a\u{e9}b", 5));
    let mut app = app();
    app.mode = AppMode::RemoteHostInput;
    app.input_remote_host = "\u{e9}".to_owned();
    app.input_cursor_pos = 1;
    assert!(!takes_key(&app, letter('x')));
    assert!(!takes_key(&app, press(KeyCode::Delete)));
    assert!(takes_key(&app, press(KeyCode::Backspace)));
    assert!(takes_key(&app, press(KeyCode::Left)));
    assert!(!shows_cursor(&app));
    app.input_cursor_pos = 2;
    assert!(takes_key(&app, letter('x')));
    assert!(!takes_key(&app, press(KeyCode::Backspace)));
    assert!(shows_cursor(&app));
    app.mode = AppMode::RemotePortInput;
    app.input_remote_port = "22".to_owned();
    app.input_cursor_pos = 3;
    assert!(!takes_key(&app, letter('1')));
    assert!(takes_key(&app, letter('x')));
    assert!(shows_cursor(&app));
    app.mode = AppMode::LocalBrowser;
    app.dir_entries = vec!["..".to_owned()];
    app.selected_idx = 1;
    assert!(!takes_key(&app, press(KeyCode::Enter)));
    assert!(!takes_key(&app, letter(' ')));
    assert!(takes_key(&app, letter('n')));
    app.mode = AppMode::HostSelect;
    app.host_list_idx = 1;
    assert!(takes_key(&app, letter('d')));
    app.saved_hosts = vec!["h".to_owned()];
    assert!(!takes_key(&app, letter('d')));
    assert!(takes_key(&app, letter('a')));
}

#[test]
fn a_way_to_treat_files_is_chosen_with_the_arrows() {
    let ways = [
        SyncMode::Mirror,
        SyncMode::AddOnly,
        SyncMode::SafeSync,
        SyncMode::Update,
    ];
    for (at, way) in ways.into_iter().enumerate() {
        let mut app = app();
        app.mode = AppMode::SyncModeSelect;
        app.pending_compress = true;
        for _ in 0..at {
            handle_key_event(press(KeyCode::Down), &mut app);
        }
        assert_eq!(app.sync_mode_selected_idx, at);
        assert!(matches!(
            handle_key_event(letter(' '), &mut app),
            Action::Finish(HandlerResult::Continue)
        ));
        assert!(!app.pending_compress);
        handle_key_event(press(KeyCode::Enter), &mut app);
        assert_eq!(app.pending_sync_mode, way);
    }
    let mut app = app();
    app.mode = AppMode::SyncModeSelect;
    for _ in 0..9 {
        handle_key_event(press(KeyCode::Down), &mut app);
    }
    assert_eq!(app.sync_mode_selected_idx, 3);
    for _ in 0..9 {
        handle_key_event(press(KeyCode::Up), &mut app);
    }
    assert_eq!(app.sync_mode_selected_idx, 0);
    assert!(matches!(
        handle_key_event(letter('q'), &mut app),
        Action::Finish(HandlerResult::Continue)
    ));
}
