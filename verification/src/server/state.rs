//! The tasks of the daemon. Each task has an id of its own and one worker.
use crate::common::daemon;
use crate::protocol;
use crate::protocol::SyncTask;
use crate::text;
use vstd::prelude::*;

verus! {

/// The tasks of the daemon, and the ids of the tasks whose workers run.
#[derive(Debug)]
pub struct ServerState {
    pub tasks: Vec<SyncTask>,
    pub workers: Vec<String>,
    pub remote_host: String,
}

/// What a [`ServerState`] holds.
#[verifier::ext_equal]
pub struct StateView {
    pub tasks: Seq<protocol::TaskView>,
    pub workers: Seq<Seq<char>>,
    pub remote_host: Seq<char>,
}

impl View for ServerState {
    type V = StateView;

    open spec fn view(&self) -> StateView {
        StateView {
            tasks: protocol::task_views(self.tasks@),
            workers: text::texts(self.workers@),
            remote_host: self.remote_host@,
        }
    }
}

/// The ids of tasks.
pub open spec fn ids(tasks: Seq<protocol::TaskView>) -> Seq<Seq<char>> {
    tasks.map_values(|t: protocol::TaskView| t.id)
}

/// Whether no id occurs twice.
pub open spec fn unique(list: Seq<Seq<char>>) -> bool {
    forall|i: int, j: int| 0 <= i < j < list.len() ==> #[trigger] list[i] != #[trigger] list[j]
}

/// Whether the tasks have different ids and each of them one worker.
pub open spec fn is_sound(state: StateView) -> bool {
    unique(ids(state.tasks)) && state.workers == ids(state.tasks)
}

/// The place of an id in a list; the length where it does not occur.
pub open spec fn place_of(list: Seq<Seq<char>>, id: Seq<char>) -> int
    decreases list.len(),
{
    if list.len() == 0 {
        0
    } else if list[0] == id {
        0
    } else {
        1 + place_of(list.drop_first(), id)
    }
}

/// The task with an id.
pub open spec fn find_task(tasks: Seq<protocol::TaskView>, id: Seq<char>) -> Option<
    protocol::TaskView,
> {
    let at = place_of(ids(tasks), id);
    if at < tasks.len() {
        Some(tasks[at])
    } else {
        None
    }
}

/// A list without the item at a place, if there is one.
pub open spec fn without<A>(list: Seq<A>, at: int) -> Seq<A> {
    if 0 <= at < list.len() {
        list.remove(at)
    } else {
        list
    }
}

/// Tasks with one more, which takes the place of one with the same id.
pub open spec fn with_task(tasks: Seq<protocol::TaskView>, task: protocol::TaskView) -> Seq<
    protocol::TaskView,
> {
    let at = place_of(ids(tasks), task.id);
    if at < tasks.len() {
        tasks.update(at, task)
    } else {
        tasks.push(task)
    }
}

/// Tasks with the status of one changed.
pub open spec fn with_status(
    tasks: Seq<protocol::TaskView>,
    id: Seq<char>,
    status: Seq<char>,
) -> Seq<protocol::TaskView> {
    let at = place_of(ids(tasks), id);
    if at < tasks.len() {
        tasks.update(at, protocol::TaskView { status, ..tasks[at] })
    } else {
        tasks
    }
}

/// Tasks with the last log line of one changed.
pub open spec fn with_log(
    tasks: Seq<protocol::TaskView>,
    id: Seq<char>,
    line: Seq<char>,
) -> Seq<protocol::TaskView> {
    let at = place_of(ids(tasks), id);
    if at < tasks.len() {
        tasks.update(at, protocol::TaskView { last_log: line, ..tasks[at] })
    } else {
        tasks
    }
}

/// The first place of an id.
pub proof fn lemma_place_of(list: Seq<Seq<char>>, id: Seq<char>)
    ensures
        0 <= place_of(list, id) <= list.len(),
        place_of(list, id) < list.len() ==> list[place_of(list, id)] == id,
        forall|i: int| 0 <= i < place_of(list, id) ==> #[trigger] list[i] != id,
        place_of(list, id) < list.len() <==> list.contains(id),
    decreases list.len(),
{
    if list.len() > 0 {
        let rest = list.drop_first();
        lemma_place_of(rest, id);
        if list[0] != id {
            let at = place_of(rest, id);
            assert forall|i: int| 0 <= i < 1 + at implies #[trigger] list[i] != id by {
                if i > 0 {
                    assert(rest[i - 1] == list[i]);
                }
            }
            if list.contains(id) {
                let k = choose|k: int| 0 <= k < list.len() && list[k] == id;
                assert(rest[k - 1] == id);
            }
        }
    }
}

/// Finds a task by its id: its place, or the number of tasks.
fn position(tasks: &Vec<SyncTask>, id: &str) -> (r: usize)
    ensures
        r == place_of(ids(protocol::task_views(tasks@)), id@),
        r <= tasks@.len(),
{
    let ghost list = ids(protocol::task_views(tasks@));
    let mut i: usize = 0;
    proof {
        assert(list.skip(0) =~= list);
    }
    while i < tasks.len()
        invariant
            i <= tasks@.len(),
            list == ids(protocol::task_views(tasks@)),
            i + place_of(list.skip(i as int), id@) == place_of(list, id@),
        decreases tasks@.len() - i,
    {
        proof {
            assert(list.skip(i as int)[0] == tasks@[i as int].id@);
            assert(list.skip(i as int).drop_first() =~= list.skip(i as int + 1));
        }
        if text::same_text(&tasks[i].id, id) {
            return i;
        }
        i = i + 1;
    }
    i
}

impl ServerState {
    /// A daemon without tasks.
    pub fn new(remote_host: String) -> (r: ServerState)
        ensures
            r@ == (StateView {
                tasks: Seq::empty(),
                workers: Seq::empty(),
                remote_host: remote_host@,
            }),
            is_sound(r@),
    {
        let r: ServerState = ServerState { tasks: Vec::new(), workers: Vec::new(), remote_host };
        proof {
            assert(r@.tasks =~= Seq::<protocol::TaskView>::empty());
            assert(r@.workers =~= Seq::<Seq<char>>::empty());
            assert(ids(r@.tasks) =~= r@.workers);
        }
        r
    }

    /// The task with an id.
    pub fn task(&self, id: &str) -> (r: Option<&SyncTask>)
        ensures
            match r {
                Some(t) => find_task(self@.tasks, id@) == Some(t@),
                None => find_task(self@.tasks, id@) is None,
            },
    {
        let at: usize = position(&self.tasks, id);
        if at < self.tasks.len() {
            Some(&self.tasks[at])
        } else {
            None
        }
    }

    /// Adds a task whose worker has been started, with an id that no task has yet.
    pub fn add(&mut self, task: SyncTask)
        requires
            is_sound(old(self)@),
            find_task(old(self)@.tasks, task@.id) is None,
        ensures
            final(self)@ == (StateView {
                tasks: old(self)@.tasks.push(task@),
                workers: old(self)@.workers.push(task@.id),
                ..old(self)@
            }),
            is_sound(final(self)@),
    {
        let ghost before = self@;
        let id: String = task.id.clone();
        proof {
            lemma_place_of(ids(before.tasks), task@.id);
        }
        self.tasks.push(task);
        self.workers.push(id);
        proof {
            assert(self@.tasks =~= before.tasks.push(task@));
            assert(self@.workers =~= before.workers.push(task@.id));
            assert(ids(self@.tasks) =~= ids(before.tasks).push(task@.id));
            assert forall|i: int, j: int| 0 <= i < j < ids(self@.tasks).len() implies #[trigger] ids(
                self@.tasks,
            )[i] != #[trigger] ids(self@.tasks)[j] by {
                if j == before.tasks.len() {
                    assert(ids(before.tasks)[i] != task@.id);
                }
            }
        }
    }

    /// Removes a task and its worker, if there is one with the id, and tells whether there was.
    pub fn remove(&mut self, id: &str) -> (r: bool)
        requires
            is_sound(old(self)@),
        ensures
            r == find_task(old(self)@.tasks, id@) is Some,
            final(self)@ == (StateView {
                tasks: without(old(self)@.tasks, place_of(ids(old(self)@.tasks), id@)),
                workers: without(old(self)@.workers, place_of(ids(old(self)@.tasks), id@)),
                ..old(self)@
            }),
            is_sound(final(self)@),
            find_task(final(self)@.tasks, id@) is None,
    {
        let ghost before = self@;
        let at: usize = position(&self.tasks, id);
        proof {
            lemma_place_of(ids(before.tasks), id@);
        }
        if at == self.tasks.len() {
            return false;
        }
        self.tasks.remove(at);
        self.workers.remove(at);
        proof {
            let a = at as int;
            assert(self@.tasks =~= before.tasks.remove(a));
            assert(self@.workers =~= before.workers.remove(a));
            let list = ids(self@.tasks);
            let all = ids(before.tasks);
            assert(list =~= all.remove(a));
            assert forall|i: int, j: int| 0 <= i < j < list.len() implies #[trigger] list[i]
                != #[trigger] list[j] by {
                let x = if i < a {
                    i
                } else {
                    i + 1
                };
                let y = if j < a {
                    j
                } else {
                    j + 1
                };
                assert(list[i] == all[x]);
                assert(list[j] == all[y]);
            }
            lemma_place_of(list, id@);
            if list.contains(id@) {
                let k = choose|k: int| 0 <= k < list.len() && list[k] == id@;
                let x = if k < a {
                    k
                } else {
                    k + 1
                };
                assert(all[x] == id@);
                assert(all[a] == id@);
            }
        }
        true
    }

    /// Changes the status of a task, if there is one with the id.
    pub fn update_status(&mut self, id: &str, status: &str)
        ensures
            final(self)@ == (StateView {
                tasks: with_status(old(self)@.tasks, id@, status@),
                ..old(self)@
            }),
            is_sound(old(self)@) ==> is_sound(final(self)@),
    {
        let ghost before = self@;
        let at: usize = position(&self.tasks, id);
        if at < self.tasks.len() {
            let mut task: SyncTask = self.tasks[at].copy();
            task.status = status.to_owned();
            self.tasks.set(at, task);
        }
        proof {
            assert(self@.tasks =~= with_status(before.tasks, id@, status@));
            assert(ids(self@.tasks) =~= ids(before.tasks));
        }
    }

    /// Changes the last log line of a task, if there is one with the id.
    pub fn update_log(&mut self, id: &str, line: &str)
        ensures
            final(self)@ == (StateView {
                tasks: with_log(old(self)@.tasks, id@, line@),
                ..old(self)@
            }),
            is_sound(old(self)@) ==> is_sound(final(self)@),
    {
        let ghost before = self@;
        let at: usize = position(&self.tasks, id);
        if at < self.tasks.len() {
            let mut task: SyncTask = self.tasks[at].copy();
            task.last_log = line.to_owned();
            self.tasks.set(at, task);
        }
        proof {
            assert(self@.tasks =~= with_log(before.tasks, id@, line@));
            assert(ids(self@.tasks) =~= ids(before.tasks));
        }
    }
}

// ---------------------------------------------------------------------------
// Tasks on disk
// ---------------------------------------------------------------------------
/// Where the tasks are kept.
pub fn tasks_path(home: Option<&str>) -> (r: String)
    ensures
        r@ == daemon::home_or_here(text::optional_str(home)) + "/.sync_daemon_tasks.json"@,
{
    daemon::in_home(home, "/.sync_daemon_tasks.json")
}

/// Where the tasks are written before they take their place.
pub fn temporary_tasks_path(home: Option<&str>) -> (r: String)
    ensures
        r@ == daemon::home_or_here(text::optional_str(home)) + "/.sync_daemon_tasks.json.tmp"@,
{
    daemon::in_home(home, "/.sync_daemon_tasks.json.tmp")
}

/// The tasks of a file: of several with one id the last counts.
pub open spec fn loaded(list: Seq<protocol::TaskView>) -> Seq<protocol::TaskView>
    decreases list.len(),
{
    if list.len() == 0 {
        Seq::empty()
    } else {
        with_task(loaded(list.drop_last()), list.last())
    }
}

/// Taking a task in keeps ids different.
proof fn lemma_with_task(tasks: Seq<protocol::TaskView>, task: protocol::TaskView)
    requires
        unique(ids(tasks)),
    ensures
        unique(ids(with_task(tasks, task))),
        find_task(with_task(tasks, task), task.id) == Some(task),
{
    let all = ids(tasks);
    lemma_place_of(all, task.id);
    let at = place_of(all, task.id);
    let next = ids(with_task(tasks, task));
    if at < tasks.len() {
        assert(next =~= all);
    } else {
        assert(next =~= all.push(task.id));
        assert forall|i: int, j: int| 0 <= i < j < next.len() implies #[trigger] next[i]
            != #[trigger] next[j] by {
            if j == tasks.len() {
                assert(all[i] != task.id);
            }
        }
    }
    lemma_place_of(next, task.id);
    let now = place_of(next, task.id);
    assert(next[at] == task.id);
    if now != at {
        assert(now < at);
        assert(next[now] == all[now]);
    }
}

/// The tasks of a file have different ids, and under each id the last task with it is found.
pub proof fn law_last_task_counts(list: Seq<protocol::TaskView>, i: int)
    requires
        0 <= i < list.len(),
        forall|j: int| i < j < list.len() ==> (#[trigger] list[j]).id != list[i].id,
    ensures
        unique(ids(loaded(list))),
        find_task(loaded(list), list[i].id) == Some(list[i]),
    decreases list.len(),
{
    let front = list.drop_last();
    lemma_loaded_unique(front);
    lemma_with_task(loaded(front), list.last());
    if i < list.len() - 1 {
        assert forall|j: int| i < j < front.len() implies (#[trigger] front[j]).id != front[i].id by {
            assert(front[j] == list[j]);
        }
        law_last_task_counts(front, i);
        let id = list[i].id;
        let all = ids(loaded(front));
        lemma_place_of(all, id);
        lemma_place_of(all, list.last().id);
        let next = ids(loaded(list));
        lemma_place_of(next, id);
        let at = place_of(all, id);
        assert(list[list.len() - 1].id != id);
        assert(next[at] == id);
        let now = place_of(next, id);
        if now != at {
            assert(now < at);
            assert(next[now] == all[now] || next[now] == list.last().id);
        }
    }
}

proof fn lemma_loaded_unique(list: Seq<protocol::TaskView>)
    ensures
        unique(ids(loaded(list))),
    decreases list.len(),
{
    if list.len() > 0 {
        lemma_loaded_unique(list.drop_last());
        lemma_with_task(loaded(list.drop_last()), list.last());
    }
}

/// The tasks of a file: of several with one id the last counts.
pub fn load_tasks(list: Vec<SyncTask>) -> (r: Vec<SyncTask>)
    ensures
        protocol::task_views(r@) == loaded(protocol::task_views(list@)),
        unique(ids(protocol::task_views(r@))),
{
    let ghost all = protocol::task_views(list@);
    let mut out: Vec<SyncTask> = Vec::new();
    let mut i: usize = 0;
    proof {
        assert(protocol::task_views(out@) =~= loaded(all.take(0)));
    }
    while i < list.len()
        invariant
            i <= list@.len(),
            all == protocol::task_views(list@),
            protocol::task_views(out@) == loaded(all.take(i as int)),
        decreases list@.len() - i,
    {
        let task: SyncTask = list[i].copy();
        let ghost before = protocol::task_views(out@);
        let ghost item = task@;
        proof {
            assert(all.take(i as int + 1).drop_last() =~= all.take(i as int));
            assert(all[i as int] == item);
        }
        let at: usize = position(&out, &task.id);
        if at < out.len() {
            out.set(at, task);
        } else {
            out.push(task);
        }
        proof {
            assert(protocol::task_views(out@) =~= with_task(before, item));
        }
        i = i + 1;
    }
    proof {
        assert(all.take(all.len() as int) =~= all);
        lemma_loaded_unique(all);
    }
    out
}

/// A daemon with the tasks of a file, each with a worker that is to be started.
pub fn restore(tasks: Vec<SyncTask>, remote_host: String) -> (r: ServerState)
    requires
        unique(ids(protocol::task_views(tasks@))),
    ensures
        r@ == (StateView {
            tasks: protocol::task_views(tasks@),
            workers: ids(protocol::task_views(tasks@)),
            remote_host: remote_host@,
        }),
        is_sound(r@),
{
    let ghost all = ids(protocol::task_views(tasks@));
    let mut workers: Vec<String> = Vec::new();
    let mut i: usize = 0;
    proof {
        assert(text::texts(workers@) =~= all.take(0));
    }
    while i < tasks.len()
        invariant
            i <= tasks@.len(),
            all == ids(protocol::task_views(tasks@)),
            text::texts(workers@) == all.take(i as int),
        decreases tasks@.len() - i,
    {
        proof {
            assert(all[i as int] == tasks@[i as int].id@);
            assert(all.take(i as int + 1) =~= all.take(i as int).push(tasks@[i as int].id@));
        }
        text::push_text(&mut workers, &tasks[i].id);
        i = i + 1;
    }
    proof {
        assert(all.take(all.len() as int) =~= all);
    }
    ServerState { tasks, workers, remote_host }
}

} // verus!
