//! What the dashboard shows and remembers.
use crate::protocol;
use crate::protocol::{SyncDirection, SyncMode, SyncTask};
use crate::text;
use vstd::prelude::*;

verus! {

/// What the dashboard shows in front.
#[derive(Debug, Clone, Copy, PartialEq, Eq, Structural)]
pub enum AppMode {
    /// The tasks.
    Dashboard,
    /// Local directories.
    LocalBrowser,
    /// The remote host is typed in.
    RemoteHostInput,
    /// The remote port is typed in.
    RemotePortInput,
    /// The saved hosts.
    HostSelect,
    /// The password is typed in.
    PasswordInput,
    /// The ways to treat files that differ.
    SyncModeSelect,
    /// The name of a new remote directory is typed in.
    CreateRemoteDir,
    /// The name of a new local directory is typed in.
    CreateLocalDir,
    /// Remote directories.
    RemoteBrowser,
    /// What a task would change.
    DryRunView,
    /// The log of a task.
    LogView,
}

/// What the dashboard remembers. Times are in milliseconds; cursor positions count bytes.
#[derive(Debug)]
pub struct App {
    pub mode: AppMode,
    pub tasks: Vec<SyncTask>,
    pub dashboard_selected_idx: usize,
    pub dashboard_list_state: Option<usize>,
    pub current_path: String,
    pub dir_entries: Vec<String>,
    pub selected_idx: usize,
    pub browser_list_state: Option<usize>,
    pub pending_source: String,
    pub remote_current_path: String,
    pub pending_remote_host: String,
    pub pending_remote_port: Option<u16>,
    pub input_remote_host: String,
    pub input_remote_port: String,
    pub input_cursor_pos: usize,
    pub pending_password: Option<String>,
    pub input_password: String,
    pub show_password: bool,
    pub pending_sync_direction: SyncDirection,
    pub pending_sync_mode: SyncMode,
    pub pending_compress: bool,
    pub sync_mode_selected_idx: usize,
    pub sync_direction_selected_idx: usize,
    pub dry_run_results: Vec<String>,
    pub dry_run_task_id: String,
    pub dry_run_scroll: usize,
    pub view_task_log: String,
    pub view_log_scroll: usize,
    pub view_log_task_id: String,
    pub view_log_last_fetch: u64,
    pub saved_hosts: Vec<String>,
    pub host_list_idx: usize,
    pub is_editing_host: bool,
    pub input_new_dir: String,
    pub server_status: Option<bool>,
    pub server_status_last_check: u64,
}

/// What an [`App`] holds.
#[verifier::ext_equal]
pub struct AppView {
    pub mode: AppMode,
    pub tasks: Seq<protocol::TaskView>,
    pub dashboard_selected_idx: usize,
    pub dashboard_list_state: Option<usize>,
    pub current_path: Seq<char>,
    pub dir_entries: Seq<Seq<char>>,
    pub selected_idx: usize,
    pub browser_list_state: Option<usize>,
    pub pending_source: Seq<char>,
    pub remote_current_path: Seq<char>,
    pub pending_remote_host: Seq<char>,
    pub pending_remote_port: Option<u16>,
    pub input_remote_host: Seq<char>,
    pub input_remote_port: Seq<char>,
    pub input_cursor_pos: usize,
    pub pending_password: Option<Seq<char>>,
    pub input_password: Seq<char>,
    pub show_password: bool,
    pub pending_sync_direction: SyncDirection,
    pub pending_sync_mode: SyncMode,
    pub pending_compress: bool,
    pub sync_mode_selected_idx: usize,
    pub sync_direction_selected_idx: usize,
    pub dry_run_results: Seq<Seq<char>>,
    pub dry_run_task_id: Seq<char>,
    pub dry_run_scroll: usize,
    pub view_task_log: Seq<char>,
    pub view_log_scroll: usize,
    pub view_log_task_id: Seq<char>,
    pub view_log_last_fetch: u64,
    pub saved_hosts: Seq<Seq<char>>,
    pub host_list_idx: usize,
    pub is_editing_host: bool,
    pub input_new_dir: Seq<char>,
    pub server_status: Option<bool>,
    pub server_status_last_check: u64,
}

impl View for App {
    type V = AppView;

    open spec fn view(&self) -> AppView {
        AppView {
            mode: self.mode,
            tasks: protocol::task_views(self.tasks@),
            dashboard_selected_idx: self.dashboard_selected_idx,
            dashboard_list_state: self.dashboard_list_state,
            current_path: self.current_path@,
            dir_entries: text::texts(self.dir_entries@),
            selected_idx: self.selected_idx,
            browser_list_state: self.browser_list_state,
            pending_source: self.pending_source@,
            remote_current_path: self.remote_current_path@,
            pending_remote_host: self.pending_remote_host@,
            pending_remote_port: self.pending_remote_port,
            input_remote_host: self.input_remote_host@,
            input_remote_port: self.input_remote_port@,
            input_cursor_pos: self.input_cursor_pos,
            pending_password: text::optional_text(self.pending_password),
            input_password: self.input_password@,
            show_password: self.show_password,
            pending_sync_direction: self.pending_sync_direction,
            pending_sync_mode: self.pending_sync_mode,
            pending_compress: self.pending_compress,
            sync_mode_selected_idx: self.sync_mode_selected_idx,
            sync_direction_selected_idx: self.sync_direction_selected_idx,
            dry_run_results: text::texts(self.dry_run_results@),
            dry_run_task_id: self.dry_run_task_id@,
            dry_run_scroll: self.dry_run_scroll,
            view_task_log: self.view_task_log@,
            view_log_scroll: self.view_log_scroll,
            view_log_task_id: self.view_log_task_id@,
            view_log_last_fetch: self.view_log_last_fetch,
            saved_hosts: text::texts(self.saved_hosts@),
            host_list_idx: self.host_list_idx,
            is_editing_host: self.is_editing_host,
            input_new_dir: self.input_new_dir@,
            server_status: self.server_status,
            server_status_last_check: self.server_status_last_check,
        }
    }
}

/// The dashboard when it starts.
pub open spec fn initial(start_path: Seq<char>, hosts: Seq<Seq<char>>, now: u64) -> AppView {
    AppView {
        mode: AppMode::Dashboard,
        tasks: Seq::empty(),
        dashboard_selected_idx: 0,
        dashboard_list_state: None,
        current_path: start_path,
        dir_entries: Seq::empty(),
        selected_idx: 0,
        browser_list_state: None,
        pending_source: ""@,
        remote_current_path: ""@,
        pending_remote_host: ""@,
        pending_remote_port: Some(22),
        input_remote_host: ""@,
        input_remote_port: "22"@,
        input_cursor_pos: 0,
        pending_password: None,
        input_password: ""@,
        show_password: false,
        pending_sync_direction: SyncDirection::Push,
        pending_sync_mode: SyncMode::Mirror,
        pending_compress: true,
        sync_mode_selected_idx: 0,
        sync_direction_selected_idx: 0,
        dry_run_results: Seq::empty(),
        dry_run_task_id: ""@,
        dry_run_scroll: 0,
        view_task_log: ""@,
        view_log_scroll: 0,
        view_log_task_id: ""@,
        view_log_last_fetch: now,
        saved_hosts: hosts,
        host_list_idx: 0,
        is_editing_host: false,
        input_new_dir: ""@,
        server_status: None,
        server_status_last_check: now,
    }
}

impl App {
    /// The dashboard when it starts.
    pub fn new(start_path: String, hosts: Vec<String>, now: u64) -> (r: App)
        ensures
            r@ == initial(start_path@, text::texts(hosts@), now),
    {
        let r: App = App {
            mode: AppMode::Dashboard,
            tasks: Vec::new(),
            dashboard_selected_idx: 0,
            dashboard_list_state: None,
            current_path: start_path,
            dir_entries: Vec::new(),
            selected_idx: 0,
            browser_list_state: None,
            pending_source: "".to_owned(),
            remote_current_path: "".to_owned(),
            pending_remote_host: "".to_owned(),
            pending_remote_port: Some(22),
            input_remote_host: "".to_owned(),
            input_remote_port: "22".to_owned(),
            input_cursor_pos: 0,
            pending_password: None,
            input_password: "".to_owned(),
            show_password: false,
            pending_sync_direction: SyncDirection::Push,
            pending_sync_mode: SyncMode::Mirror,
            pending_compress: true,
            sync_mode_selected_idx: 0,
            sync_direction_selected_idx: 0,
            dry_run_results: Vec::new(),
            dry_run_task_id: "".to_owned(),
            dry_run_scroll: 0,
            view_task_log: "".to_owned(),
            view_log_scroll: 0,
            view_log_task_id: "".to_owned(),
            view_log_last_fetch: now,
            saved_hosts: hosts,
            host_list_idx: 0,
            is_editing_host: false,
            input_new_dir: "".to_owned(),
            server_status: None,
            server_status_last_check: now,
        };
        proof {
            assert(r@.tasks =~= Seq::<protocol::TaskView>::empty());
            assert(r@.dir_entries =~= Seq::<Seq<char>>::empty());
            assert(r@.dry_run_results =~= Seq::<Seq<char>>::empty());
        }
        r
    }
}

} // verus!
