//! What the dashboard and the daemon say to each other.
use crate::text;
use vstd::prelude::*;

verus! {

/// How a task treats files that differ.
#[derive(Debug, Clone, Copy, PartialEq, Eq, Structural)]
pub enum SyncMode {
    /// An exact copy: deletes at the receiver what the sender lacks.
    Mirror,
    /// Adds and updates, and never deletes.
    AddOnly,
    /// An exact copy that moves what it deletes to a backup directory.
    SafeSync,
    /// Overwrites only what is older than the sender's copy.
    Update,
}

/// Which way a task copies.
#[derive(Debug, Clone, Copy, PartialEq, Eq, Structural)]
pub enum SyncDirection {
    /// From the local host to the remote one.
    Push,
    /// From the remote host to the local one.
    Pull,
}

/// One pair of directories that is kept in step.
#[derive(Debug)]
pub struct SyncTask {
    pub id: String,
    pub source: String,
    pub remote_host: String,
    pub remote_port: Option<u16>,
    pub remote_path: String,
    pub status: String,
    pub last_log: String,
    pub poll_interval: u64,
    pub sync_mode: SyncMode,
    pub sync_direction: SyncDirection,
    pub compress: bool,
    pub password: Option<String>,
}

/// What a [`SyncTask`] holds.
#[verifier::ext_equal]
pub struct TaskView {
    pub id: Seq<char>,
    pub source: Seq<char>,
    pub remote_host: Seq<char>,
    pub remote_port: Option<u16>,
    pub remote_path: Seq<char>,
    pub status: Seq<char>,
    pub last_log: Seq<char>,
    pub poll_interval: u64,
    pub sync_mode: SyncMode,
    pub sync_direction: SyncDirection,
    pub compress: bool,
    pub password: Option<Seq<char>>,
}

impl View for SyncTask {
    type V = TaskView;

    open spec fn view(&self) -> TaskView {
        TaskView {
            id: self.id@,
            source: self.source@,
            remote_host: self.remote_host@,
            remote_port: self.remote_port,
            remote_path: self.remote_path@,
            status: self.status@,
            last_log: self.last_log@,
            poll_interval: self.poll_interval,
            sync_mode: self.sync_mode,
            sync_direction: self.sync_direction,
            compress: self.compress,
            password: text::optional_text(self.password),
        }
    }
}

impl SyncTask {
    /// A copy of the task.
    pub fn copy(&self) -> (r: SyncTask)
        ensures
            r@ == self@,
    {
        SyncTask {
            id: self.id.clone(),
            source: self.source.clone(),
            remote_host: self.remote_host.clone(),
            remote_port: self.remote_port,
            remote_path: self.remote_path.clone(),
            status: self.status.clone(),
            last_log: self.last_log.clone(),
            poll_interval: self.poll_interval,
            sync_mode: self.sync_mode,
            sync_direction: self.sync_direction,
            compress: self.compress,
            password: text::copy_optional(&self.password),
        }
    }
}

/// What a list of tasks holds.
pub open spec fn task_views(tasks: Seq<SyncTask>) -> Seq<TaskView> {
    tasks.map_values(|t: SyncTask| t@)
}

/// A copy of a list of tasks.
pub fn copy_tasks(tasks: &Vec<SyncTask>) -> (r: Vec<SyncTask>)
    ensures
        task_views(r@) == task_views(tasks@),
{
    let mut out: Vec<SyncTask> = Vec::new();
    let mut i: usize = 0;
    let ghost all = task_views(tasks@);
    proof {
        assert(task_views(out@) =~= all.take(0));
    }
    while i < tasks.len()
        invariant
            i <= tasks@.len(),
            all == task_views(tasks@),
            task_views(out@) == all.take(i as int),
        decreases tasks@.len() - i,
    {
        let task: SyncTask = tasks[i].copy();
        proof {
            assert(all[i as int] == task@);
            assert(task_views(out@.push(task)) =~= task_views(out@).push(task@));
            assert(all.take(i as int + 1) =~= all.take(i as int).push(task@));
        }
        out.push(task);
        i = i + 1;
    }
    proof {
        assert(all.take(all.len() as int) =~= all);
    }
    out
}

/// What the dashboard asks of the daemon. A remote place is a host, a port, a path and a password.
#[derive(Debug)]
pub enum ClientRequest {
    /// All tasks.
    GetState,
    /// The entries of a local directory.
    ListLocalDirs(String),
    /// The directories in a remote directory.
    ListRemoteDirs(String, Option<u16>, String, Option<String>),
    /// The home directory at a remote host.
    GetRemoteHome(String, Option<u16>, Option<String>),
    /// Start a new task.
    StartTask(SyncTask),
    /// Stop a task and forget it.
    StopTask(String),
    /// Stop the worker of a task and start a new one.
    RestartTask(String),
    /// What a task would change.
    DryRun(String),
    /// Make a remote directory.
    CreateRemoteDir(String, Option<u16>, String, Option<String>),
    /// The log of a task.
    GetTaskLog(String),
    /// Make a local directory.
    CreateLocalDir(String),
}

/// What a [`ClientRequest`] holds.
#[verifier::ext_equal]
pub enum RequestView {
    GetState,
    ListLocalDirs(Seq<char>),
    ListRemoteDirs(Seq<char>, Option<u16>, Seq<char>, Option<Seq<char>>),
    GetRemoteHome(Seq<char>, Option<u16>, Option<Seq<char>>),
    StartTask(TaskView),
    StopTask(Seq<char>),
    RestartTask(Seq<char>),
    DryRun(Seq<char>),
    CreateRemoteDir(Seq<char>, Option<u16>, Seq<char>, Option<Seq<char>>),
    GetTaskLog(Seq<char>),
    CreateLocalDir(Seq<char>),
}

impl View for ClientRequest {
    type V = RequestView;

    open spec fn view(&self) -> RequestView {
        match self {
            ClientRequest::GetState => RequestView::GetState,
            ClientRequest::ListLocalDirs(p) => RequestView::ListLocalDirs(p@),
            ClientRequest::ListRemoteDirs(h, o, p, w) => RequestView::ListRemoteDirs(
                h@,
                *o,
                p@,
                text::optional_text(*w),
            ),
            ClientRequest::GetRemoteHome(h, o, w) => RequestView::GetRemoteHome(
                h@,
                *o,
                text::optional_text(*w),
            ),
            ClientRequest::StartTask(t) => RequestView::StartTask(t@),
            ClientRequest::StopTask(id) => RequestView::StopTask(id@),
            ClientRequest::RestartTask(id) => RequestView::RestartTask(id@),
            ClientRequest::DryRun(id) => RequestView::DryRun(id@),
            ClientRequest::CreateRemoteDir(h, o, p, w) => RequestView::CreateRemoteDir(
                h@,
                *o,
                p@,
                text::optional_text(*w),
            ),
            ClientRequest::GetTaskLog(id) => RequestView::GetTaskLog(id@),
            ClientRequest::CreateLocalDir(p) => RequestView::CreateLocalDir(p@),
        }
    }
}

/// What the daemon answers.
#[derive(Debug)]
pub enum ServerResponse {
    /// All tasks.
    State(Vec<SyncTask>),
    /// The home directory at a remote host.
    RemoteHome(String),
    /// The entries of a directory.
    DirList(Vec<String>),
    /// It is done.
    Ack,
    /// It is not done, and why.
    Error(String),
    /// What a task would change.
    DryRunResult(Vec<String>),
    /// The log of a task: its id and the text.
    TaskLog(String, String),
}

/// What a [`ServerResponse`] holds.
#[verifier::ext_equal]
pub enum ResponseView {
    State(Seq<TaskView>),
    RemoteHome(Seq<char>),
    DirList(Seq<Seq<char>>),
    Ack,
    Error(Seq<char>),
    DryRunResult(Seq<Seq<char>>),
    TaskLog(Seq<char>, Seq<char>),
}

impl View for ServerResponse {
    type V = ResponseView;

    open spec fn view(&self) -> ResponseView {
        match self {
            ServerResponse::State(tasks) => ResponseView::State(task_views(tasks@)),
            ServerResponse::RemoteHome(p) => ResponseView::RemoteHome(p@),
            ServerResponse::DirList(list) => ResponseView::DirList(text::texts(list@)),
            ServerResponse::Ack => ResponseView::Ack,
            ServerResponse::Error(e) => ResponseView::Error(e@),
            ServerResponse::DryRunResult(list) => ResponseView::DryRunResult(text::texts(list@)),
            ServerResponse::TaskLog(id, log) => ResponseView::TaskLog(id@, log@),
        }
    }
}

} // verus!
