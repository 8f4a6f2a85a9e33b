//! What the daemon does about a request.
use super::listing;
use super::listing::DirEntry;
use super::ssh;
use super::ssh::ProcessOutcome;
use super::state;
use super::state::ServerState;
use super::worker;
use crate::common::utils;
use crate::protocol;
use crate::protocol::{ClientRequest, ServerResponse, SyncTask};
use crate::text;
use vstd::prelude::*;

verus! {

/// What is done about the workers and the file of the tasks.
#[derive(Debug)]
pub enum Effect {
    /// End the worker of a task.
    StopWorker(String),
    /// Start a worker for a task.
    StartWorker(SyncTask),
    /// Write the tasks down.
    SaveTasks(Vec<SyncTask>),
}

/// What an [`Effect`] holds.
#[verifier::ext_equal]
pub enum EffectView {
    StopWorker(Seq<char>),
    StartWorker(protocol::TaskView),
    SaveTasks(Seq<protocol::TaskView>),
}

impl View for Effect {
    type V = EffectView;

    open spec fn view(&self) -> EffectView {
        match self {
            Effect::StopWorker(id) => EffectView::StopWorker(id@),
            Effect::StartWorker(t) => EffectView::StartWorker(t@),
            Effect::SaveTasks(list) => EffectView::SaveTasks(protocol::task_views(list@)),
        }
    }
}

/// What a list of effects holds.
pub open spec fn effect_views(list: Seq<Effect>) -> Seq<EffectView> {
    list.map_values(|e: Effect| e@)
}

/// What is asked of the host before a request can be answered.
#[derive(Debug)]
pub enum Work {
    /// Read a local directory.
    ListDir(String),
    /// Run `ssh` with these arguments and this password to list a directory.
    ListRemote(Vec<String>, Option<String>),
    /// Run `ssh` to learn the home directory.
    RemoteHome(Vec<String>, Option<String>),
    /// Run `ssh` to make a directory.
    MakeRemoteDir(Vec<String>, Option<String>),
    /// Run `rsync` to learn what a task would change.
    DryRun(SyncTask),
    /// Read the log of a task.
    ReadLog(String),
    /// Make a local directory.
    MakeLocalDir(String),
}

/// What a [`Work`] asks for.
#[verifier::ext_equal]
pub enum WorkView {
    ListDir(Seq<char>),
    ListRemote(Seq<Seq<char>>, Option<Seq<char>>),
    RemoteHome(Seq<Seq<char>>, Option<Seq<char>>),
    MakeRemoteDir(Seq<Seq<char>>, Option<Seq<char>>),
    DryRun(protocol::TaskView),
    ReadLog(Seq<char>),
    MakeLocalDir(Seq<char>),
}

impl View for Work {
    type V = WorkView;

    open spec fn view(&self) -> WorkView {
        match self {
            Work::ListDir(p) => WorkView::ListDir(p@),
            Work::ListRemote(args, w) => WorkView::ListRemote(
                text::texts(args@),
                text::optional_text(*w),
            ),
            Work::RemoteHome(args, w) => WorkView::RemoteHome(
                text::texts(args@),
                text::optional_text(*w),
            ),
            Work::MakeRemoteDir(args, w) => WorkView::MakeRemoteDir(
                text::texts(args@),
                text::optional_text(*w),
            ),
            Work::DryRun(t) => WorkView::DryRun(t@),
            Work::ReadLog(id) => WorkView::ReadLog(id@),
            Work::MakeLocalDir(p) => WorkView::MakeLocalDir(p@),
        }
    }
}

/// When a request is answered.
#[derive(Debug)]
pub enum Reply {
    /// At once.
    Now(ServerResponse),
    /// After some work of the host.
    After(Work),
}

/// What a [`Reply`] holds.
#[verifier::ext_equal]
pub enum ReplyView {
    Now(protocol::ResponseView),
    After(WorkView),
}

impl View for Reply {
    type V = ReplyView;

    open spec fn view(&self) -> ReplyView {
        match self {
            Reply::Now(r) => ReplyView::Now(r@),
            Reply::After(w) => ReplyView::After(w@),
        }
    }
}

/// What follows from a request.
#[verifier::ext_equal]
pub struct Handled {
    pub state: state::StateView,
    pub effects: Seq<EffectView>,
    pub reply: ReplyView,
}

/// A request that changes nothing.
pub open spec fn unchanged(state: state::StateView, reply: ReplyView) -> Handled {
    Handled { state, effects: Seq::empty(), reply }
}

/// An answer that something is wrong.
pub open spec fn refused(message: Seq<char>) -> ReplyView {
    ReplyView::Now(protocol::ResponseView::Error(message))
}

/// What follows from a request to start a task: a host that is not accepted and an id that is
/// taken are refused.
pub open spec fn started(state: state::StateView, task: protocol::TaskView) -> Handled {
    if !utils::is_host(task.remote_host) {
        unchanged(state, refused("Invalid remote host format"@))
    } else if state::find_task(state.tasks, task.id) is Some {
        unchanged(state, refused("Task "@ + task.id + " already exists"@))
    } else {
        let tasks = state.tasks.push(task);
        Handled {
            state: state::StateView { tasks, workers: state.workers.push(task.id), ..state },
            effects: seq![EffectView::StartWorker(task), EffectView::SaveTasks(tasks)],
            reply: ReplyView::Now(protocol::ResponseView::Ack),
        }
    }
}

/// What follows from a request to restart a task.
pub open spec fn restarted(state: state::StateView, id: Seq<char>) -> Handled {
    match state::find_task(state.tasks, id) {
        None => unchanged(state, refused("Task "@ + id + " not found"@)),
        Some(task) => Handled {
            state: state::StateView {
                tasks: state::with_status(state.tasks, id, "RESTARTING..."@),
                ..state
            },
            effects: seq![EffectView::StopWorker(id), EffectView::StartWorker(task)],
            reply: ReplyView::Now(protocol::ResponseView::Ack),
        },
    }
}

/// What follows from a request to stop a task; one that is not there is stopped already.
pub open spec fn stopped(state: state::StateView, id: Seq<char>) -> Handled {
    let at = state::place_of(state::ids(state.tasks), id);
    let tasks = state::without(state.tasks, at);
    let save = EffectView::SaveTasks(tasks);
    Handled {
        state: state::StateView { tasks, workers: state::without(state.workers, at), ..state },
        effects: if state::find_task(state.tasks, id) is Some {
            seq![EffectView::StopWorker(id), save]
        } else {
            seq![save]
        },
        reply: ReplyView::Now(protocol::ResponseView::Ack),
    }
}

/// What follows from a request for a dry run.
pub open spec fn tried(state: state::StateView, id: Seq<char>) -> ReplyView {
    match state::find_task(state.tasks, id) {
        None => refused("Task "@ + id + " not found"@),
        Some(task) => if utils::is_host(task.remote_host) {
            ReplyView::After(WorkView::DryRun(task))
        } else {
            ReplyView::Now(
                protocol::ResponseView::DryRunResult(
                    seq!["Error: Invalid remote host format"@],
                ),
            )
        },
    }
}

/// What follows from a request.
pub open spec fn handled(state: state::StateView, request: protocol::RequestView) -> Handled {
    match request {
        protocol::RequestView::GetState => unchanged(
            state,
            ReplyView::Now(protocol::ResponseView::State(state.tasks)),
        ),
        protocol::RequestView::ListLocalDirs(p) => unchanged(
            state,
            ReplyView::After(
                WorkView::ListDir(
                    if p.len() == 0 {
                        "/"@
                    } else {
                        p
                    },
                ),
            ),
        ),
        protocol::RequestView::ListRemoteDirs(host, port, p, password) => unchanged(
            state,
            if utils::is_host(host) {
                ReplyView::After(
                    WorkView::ListRemote(
                        ssh::ssh_args(host, port, true, ssh::list_command(p)),
                        password,
                    ),
                )
            } else {
                ReplyView::Now(
                    protocol::ResponseView::DirList(seq!["Error: Invalid remote host format"@]),
                )
            },
        ),
        protocol::RequestView::GetRemoteHome(host, port, password) => unchanged(
            state,
            if utils::is_host(host) {
                ReplyView::After(
                    WorkView::RemoteHome(ssh::ssh_args(host, port, false, "pwd"@), password),
                )
            } else {
                ReplyView::Now(protocol::ResponseView::RemoteHome("/"@))
            },
        ),
        protocol::RequestView::StartTask(task) => started(state, task),
        protocol::RequestView::StopTask(id) => stopped(state, id),
        protocol::RequestView::RestartTask(id) => restarted(state, id),
        protocol::RequestView::DryRun(id) => unchanged(state, tried(state, id)),
        protocol::RequestView::CreateRemoteDir(host, port, p, password) => unchanged(
            state,
            if utils::is_host(host) {
                ReplyView::After(
                    WorkView::MakeRemoteDir(
                        ssh::ssh_args(host, port, false, ssh::make_command(p)),
                        password,
                    ),
                )
            } else {
                refused("Mkdir failed: Invalid remote host format"@)
            },
        ),
        protocol::RequestView::GetTaskLog(id) => unchanged(
            state,
            ReplyView::After(WorkView::ReadLog(id)),
        ),
        protocol::RequestView::CreateLocalDir(p) => unchanged(
            state,
            ReplyView::After(WorkView::MakeLocalDir(p)),
        ),
    }
}

/// An answer that something is wrong.
fn refuse(message: String) -> (r: Reply)
    ensures
        r@ == refused(message@),
{
    Reply::Now(ServerResponse::Error(message))
}

/// Starts a task.
fn start_task(state: &mut ServerState, task: SyncTask, effects: &mut Vec<Effect>) -> (r: Reply)
    requires
        state::is_sound(old(state)@),
        old(effects)@.len() == 0,
    ensures
        (Handled { state: final(state)@, effects: effect_views(final(effects)@), reply: r@ })
            == started(old(state)@, task@),
        state::is_sound(final(state)@),
{
    let ghost before = state@;
    proof {
        assert(effect_views(effects@) =~= Seq::<EffectView>::empty());
    }
    if !utils::is_valid_host(&task.remote_host) {
        return refuse("Invalid remote host format".to_owned());
    }
    if state.task(&task.id).is_some() {
        return refuse(text::cat3("Task ", &task.id, " already exists"));
    }
    let copy: SyncTask = task.copy();
    state.add(task);
    effects.push(Effect::StartWorker(copy));
    effects.push(Effect::SaveTasks(protocol::copy_tasks(&state.tasks)));
    proof {
        assert(effect_views(effects@) =~= started(before, task@).effects);
    }
    Reply::Now(ServerResponse::Ack)
}

/// Restarts a task.
fn restart_task(state: &mut ServerState, id: &str, effects: &mut Vec<Effect>) -> (r: Reply)
    requires
        state::is_sound(old(state)@),
        old(effects)@.len() == 0,
    ensures
        (Handled { state: final(state)@, effects: effect_views(final(effects)@), reply: r@ })
            == restarted(old(state)@, id@),
        state::is_sound(final(state)@),
{
    let ghost before = state@;
    proof {
        assert(effect_views(effects@) =~= Seq::<EffectView>::empty());
    }
    let task: SyncTask = match state.task(id) {
        None => {
            return refuse(text::cat3("Task ", id, " not found"));
        },
        Some(t) => t.copy(),
    };
    state.update_status(id, "RESTARTING...");
    effects.push(Effect::StopWorker(id.to_owned()));
    effects.push(Effect::StartWorker(task));
    proof {
        assert(effect_views(effects@) =~= restarted(before, id@).effects);
    }
    Reply::Now(ServerResponse::Ack)
}

/// Stops a task.
fn stop_task(state: &mut ServerState, id: &str, effects: &mut Vec<Effect>) -> (r: Reply)
    requires
        state::is_sound(old(state)@),
        old(effects)@.len() == 0,
    ensures
        (Handled { state: final(state)@, effects: effect_views(final(effects)@), reply: r@ })
            == stopped(old(state)@, id@),
        state::is_sound(final(state)@),
{
    let ghost before = state@;
    let there: bool = state.remove(id);
    if there {
        effects.push(Effect::StopWorker(id.to_owned()));
    }
    effects.push(Effect::SaveTasks(protocol::copy_tasks(&state.tasks)));
    proof {
        assert(effect_views(effects@) =~= stopped(before, id@).effects);
    }
    Reply::Now(ServerResponse::Ack)
}

/// Asks for a dry run.
fn try_task(state: &ServerState, id: &str) -> (r: Reply)
    ensures
        r@ == tried(state@, id@),
{
    match state.task(id) {
        None => refuse(text::cat3("Task ", id, " not found")),
        Some(t) => if utils::is_valid_host(&t.remote_host) {
            Reply::After(Work::DryRun(t.copy()))
        } else {
            Reply::Now(
                ServerResponse::DryRunResult(
                    text::one_text("Error: Invalid remote host format".to_owned()),
                ),
            )
        },
    }
}

/// Asks for the listing of a remote directory.
fn list_remote(host: &str, port: Option<u16>, p: &str, password: Option<String>) -> (r: Reply)
    ensures
        forall|state: state::StateView|
            #[trigger] handled(
                state,
                protocol::RequestView::ListRemoteDirs(
                    host@,
                    port,
                    p@,
                    text::optional_text(password),
                ),
            ) == unchanged(state, r@),
{
    match ssh::list_remote_dirs_ssh(host, port, p) {
        Some(args) => Reply::After(Work::ListRemote(args, password)),
        None => Reply::Now(
            ServerResponse::DirList(
                text::one_text("Error: Invalid remote host format".to_owned()),
            ),
        ),
    }
}

/// Decides what follows from a request: how the tasks change, what is done about workers and the
/// file of the tasks, and when the request is answered.
pub fn handle_request(state: &mut ServerState, request: ClientRequest) -> (r: (
    Vec<Effect>,
    Reply,
))
    requires
        state::is_sound(old(state)@),
    ensures
        (Handled { state: final(state)@, effects: effect_views(r.0@), reply: r.1@ }) == handled(
            old(state)@,
            request@,
        ),
        state::is_sound(final(state)@),
{
    let mut effects: Vec<Effect> = Vec::new();
    proof {
        assert(effect_views(effects@) =~= Seq::<EffectView>::empty());
    }
    let reply: Reply = match request {
        ClientRequest::GetState => Reply::Now(
            ServerResponse::State(protocol::copy_tasks(&state.tasks)),
        ),
        ClientRequest::ListLocalDirs(p) => if p.as_str().is_empty() {
            Reply::After(Work::ListDir("/".to_owned()))
        } else {
            Reply::After(Work::ListDir(p))
        },
        ClientRequest::ListRemoteDirs(host, port, p, password) => list_remote(
            &host,
            port,
            &p,
            password,
        ),
        ClientRequest::GetRemoteHome(host, port, password) => match ssh::get_remote_home_ssh(
            &host,
            port,
        ) {
            Some(args) => Reply::After(Work::RemoteHome(args, password)),
            None => Reply::Now(ServerResponse::RemoteHome("/".to_owned())),
        },
        ClientRequest::StartTask(task) => start_task(state, task, &mut effects),
        ClientRequest::StopTask(id) => stop_task(state, &id, &mut effects),
        ClientRequest::RestartTask(id) => restart_task(state, &id, &mut effects),
        ClientRequest::DryRun(id) => try_task(state, &id),
        ClientRequest::CreateRemoteDir(host, port, p, password) => match ssh::create_remote_dir_ssh(
            &host,
            port,
            &p,
        ) {
            Some(args) => Reply::After(Work::MakeRemoteDir(args, password)),
            None => refuse("Mkdir failed: Invalid remote host format".to_owned()),
        },
        ClientRequest::GetTaskLog(id) => Reply::After(Work::ReadLog(id)),
        ClientRequest::CreateLocalDir(p) => Reply::After(Work::MakeLocalDir(p)),
    };
    (effects, reply)
}

// ---------------------------------------------------------------------------
// Answers after work
// ---------------------------------------------------------------------------
/// What came of the work.
#[derive(Debug)]
pub enum WorkResult {
    /// The entries of a directory, or why they cannot be read.
    Entries(Result<Vec<DirEntry>, String>),
    /// What came of running a program.
    Ran(ProcessOutcome),
    /// What a file holds, if it could be read.
    Content(Option<String>),
    /// Why a directory was not made, if it was not.
    Made(Option<String>),
}

/// Whether a result is one of the work that was asked for.
pub open spec fn fits(work: Work, result: WorkResult) -> bool {
    match work {
        Work::ListDir(_) => result is Entries,
        Work::ReadLog(_) => result is Content,
        Work::MakeLocalDir(_) => result is Made,
        _ => result is Ran,
    }
}

/// The answer to a request after the work for it.
pub open spec fn answered(work: WorkView, result: WorkResult) -> protocol::ResponseView {
    match work {
        WorkView::ListDir(_) => match result->Entries_0 {
            Ok(entries) => protocol::ResponseView::DirList(
                listing::listing(listing::entry_views(entries@)),
            ),
            Err(e) => protocol::ResponseView::Error(e@),
        },
        WorkView::ListRemote(_, _) => protocol::ResponseView::DirList(
            ssh::listed(result->Ran_0@),
        ),
        WorkView::RemoteHome(_, _) => protocol::ResponseView::RemoteHome(
            ssh::home_told(result->Ran_0@),
        ),
        WorkView::MakeRemoteDir(_, _) => match ssh::mkdir_fault(result->Ran_0@) {
            None => protocol::ResponseView::Ack,
            Some(e) => protocol::ResponseView::Error("Mkdir failed: "@ + e),
        },
        WorkView::DryRun(_) => protocol::ResponseView::DryRunResult(
            worker::changes(result->Ran_0@),
        ),
        WorkView::ReadLog(id) => protocol::ResponseView::TaskLog(
            id,
            match result->Content_0 {
                Some(content) => content@,
                None => "No logs found yet."@,
            },
        ),
        WorkView::MakeLocalDir(_) => match result->Made_0 {
            None => protocol::ResponseView::Ack,
            Some(e) => protocol::ResponseView::Error("Mkdir failed: "@ + e@),
        },
    }
}

/// Answers a request after the work for it.
pub fn finish_request(work: Work, result: WorkResult) -> (r: ServerResponse)
    requires
        fits(work, result),
    ensures
        r@ == answered(work@, result),
{
    match (work, result) {
        (Work::ListDir(_), WorkResult::Entries(Ok(entries))) => ServerResponse::DirList(
            listing::list_entries(&entries),
        ),
        (Work::ListDir(_), WorkResult::Entries(Err(e))) => ServerResponse::Error(e),
        (Work::ListRemote(_, _), WorkResult::Ran(outcome)) => ServerResponse::DirList(
            ssh::remote_dirs(&outcome),
        ),
        (Work::RemoteHome(_, _), WorkResult::Ran(outcome)) => ServerResponse::RemoteHome(
            ssh::remote_home(&outcome),
        ),
        (Work::MakeRemoteDir(_, _), WorkResult::Ran(outcome)) => match ssh::mkdir_failure(
            &outcome,
        ) {
            None => ServerResponse::Ack,
            Some(e) => ServerResponse::Error(text::cat2("Mkdir failed: ", &e)),
        },
        (Work::DryRun(_), WorkResult::Ran(outcome)) => ServerResponse::DryRunResult(
            worker::dry_run_changes(&outcome),
        ),
        (Work::ReadLog(id), WorkResult::Content(Some(content))) => ServerResponse::TaskLog(
            id,
            content,
        ),
        (Work::ReadLog(id), WorkResult::Content(None)) => ServerResponse::TaskLog(
            id,
            "No logs found yet.".to_owned(),
        ),
        (Work::MakeLocalDir(_), WorkResult::Made(None)) => ServerResponse::Ack,
        (Work::MakeLocalDir(_), WorkResult::Made(Some(e))) => ServerResponse::Error(
            text::cat2("Mkdir failed: ", &e),
        ),
        (_, _) => vstd::pervasive::unreached(),
    }
}

// ---------------------------------------------------------------------------
// Laws
// ---------------------------------------------------------------------------
/// No request ever breaks the tasks: whatever is asked for, ids stay different and each task keeps
/// exactly one worker.
pub proof fn law_every_task_has_one_worker(
    before: state::StateView,
    request: protocol::RequestView,
)
    requires
        state::is_sound(before),
    ensures
        state::is_sound(handled(before, request).state),
{
    let after = handled(before, request).state;
    let all = state::ids(before.tasks);
    match request {
        protocol::RequestView::StartTask(task) => {
            state::lemma_place_of(all, task.id);
            if after.tasks.len() > before.tasks.len() {
                let next = state::ids(after.tasks);
                assert(next =~= all.push(task.id));
                assert forall|i: int, j: int| 0 <= i < j < next.len() implies #[trigger] next[i]
                    != #[trigger] next[j] by {
                    if j == all.len() {
                        assert(all[i] != task.id);
                    }
                }
            }
        },
        protocol::RequestView::StopTask(id) => {
            state::lemma_place_of(all, id);
            let at = state::place_of(all, id);
            let next = state::ids(after.tasks);
            if at < all.len() {
                assert(next =~= all.remove(at));
                assert forall|i: int, j: int| 0 <= i < j < next.len() implies #[trigger] next[i]
                    != #[trigger] next[j] by {
                    let x = if i < at {
                        i
                    } else {
                        i + 1
                    };
                    let y = if j < at {
                        j
                    } else {
                        j + 1
                    };
                    assert(next[i] == all[x]);
                    assert(next[j] == all[y]);
                }
            }
        },
        protocol::RequestView::RestartTask(id) => {
            state::lemma_place_of(all, id);
            assert(state::ids(after.tasks) =~= all);
        },
        _ => {},
    }
}

/// A task that was started is there until it is stopped: it is found under its id at once, a
/// second one with its id is refused, and after it was stopped nothing is found and the id can be
/// used again.
pub proof fn law_started_tasks_can_be_stopped(before: state::StateView, task: protocol::TaskView)
    requires
        state::is_sound(before),
        utils::is_host(task.remote_host),
        state::find_task(before.tasks, task.id) is None,
    ensures
        ({
            let after = handled(before, protocol::RequestView::StartTask(task)).state;
            let again = handled(after, protocol::RequestView::StartTask(task));
            let gone = handled(after, protocol::RequestView::StopTask(task.id)).state;
            &&& state::find_task(after.tasks, task.id) == Some(task)
            &&& again.state == after
            &&& again.reply == refused("Task "@ + task.id + " already exists"@)
            &&& gone == before
        }),
{
    let after = handled(before, protocol::RequestView::StartTask(task)).state;
    let all = state::ids(before.tasks);
    let next = state::ids(after.tasks);
    state::lemma_place_of(all, task.id);
    state::lemma_place_of(next, task.id);
    assert(next =~= all.push(task.id));
    let n = before.tasks.len() as int;
    assert(next[n] == task.id);
    let at = state::place_of(next, task.id);
    assert(at == n) by {
        if at < n {
            assert(next[at] == all[at]);
        }
    }
    let gone = handled(after, protocol::RequestView::StopTask(task.id)).state;
    assert(gone.tasks =~= before.tasks);
    assert(gone.workers =~= before.workers);
}

/// No request reaches a remote host that is not accepted: for such a host neither `ssh` nor
/// `rsync` is asked for, and no worker is started.
pub proof fn law_refused_hosts_are_not_reached(
    before: state::StateView,
    request: protocol::RequestView,
    host: Seq<char>,
)
    requires
        !utils::is_host(host),
        ({
            ||| request matches protocol::RequestView::ListRemoteDirs(h, _, _, _) && h == host
            ||| request matches protocol::RequestView::GetRemoteHome(h, _, _) && h == host
            ||| request matches protocol::RequestView::CreateRemoteDir(h, _, _, _) && h == host
            ||| request matches protocol::RequestView::StartTask(t) && t.remote_host == host
        }),
    ensures
        handled(before, request).reply is Now,
        handled(before, request).effects.len() == 0,
        handled(before, request).state == before,
{
}

} // verus!
