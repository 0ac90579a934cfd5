//! A task queue that hands out the most urgent task first and keeps a
//! record of every task by identifier.

use crate::clock::now_unix_millis;
use crate::proto::task::{Task, TaskPriority, TaskStatus, TaskView};
use std::collections::HashMap;
use vstd::std_specs::iter::IteratorSpec;
use vstd::prelude::*;

verus! {

broadcast use vstd::std_specs::hash::group_hash_axioms;

/// The abstract content of a queued task. Times are milliseconds since
/// the Unix epoch.
pub struct QueuedTaskView {
    pub task: TaskView,
    pub status: TaskStatus,
    pub enqueued_at: i64,
    pub started_at: Option<i64>,
}

#[derive(Debug)]
pub struct QueuedTask {
    pub task: Task,
    pub status: TaskStatus,
    pub enqueued_at: i64,
    pub started_at: Option<i64>,
}

impl View for QueuedTask {
    type V = QueuedTaskView;

    open spec fn view(&self) -> QueuedTaskView {
        QueuedTaskView {
            task: self.task@,
            status: self.status,
            enqueued_at: self.enqueued_at,
            started_at: self.started_at,
        }
    }
}

impl Clone for QueuedTask {
    fn clone(&self) -> (r: Self)
        ensures
            r@ == self@,
    {
        QueuedTask {
            task: self.task.clone(),
            status: self.status,
            enqueued_at: self.enqueued_at,
            started_at: self.started_at,
        }
    }
}

/// The abstract content of a queue: the tasks waiting to be handed out,
/// in no particular order, and the record kept of each task by identifier.
#[verifier::ext_equal]
pub struct QueueView {
    pub waiting: Seq<QueuedTaskView>,
    pub records: Map<u128, QueuedTaskView>,
}

/// The record of a task that was just enqueued.
pub open spec fn spec_pending(task: TaskView, at: i64) -> QueuedTaskView {
    QueuedTaskView { task, status: TaskStatus::Pending, enqueued_at: at, started_at: None }
}

/// The queue after `task` was enqueued at time `at`.
pub open spec fn spec_enqueue(q: QueueView, task: TaskView, at: i64) -> QueueView {
    QueueView {
        waiting: q.waiting.push(spec_pending(task, at)),
        records: q.records.insert(task.id, spec_pending(task, at)),
    }
}

/// Whether the waiting task at `i` is one that a dequeue hands out: none
/// is more urgent, and none before it is as urgent.
pub open spec fn spec_is_next(waiting: Seq<QueuedTaskView>, i: int) -> bool {
    &&& 0 <= i < waiting.len()
    &&& forall|j: int| 0 <= j < waiting.len() ==> waiting[j].task.priority.spec_rank() <= waiting[i].task.priority.spec_rank()
    &&& forall|j: int| 0 <= j < i ==> waiting[j].task.priority.spec_rank() < waiting[i].task.priority.spec_rank()
}

/// Every record is filed under its own task's identifier.
pub open spec fn spec_records_filed(records: Map<u128, QueuedTaskView>) -> bool {
    forall|k: u128| #[trigger] records.contains_key(k) ==> records[k].task.id == k
}

pub struct TaskQueue {
    queue: Vec<QueuedTask>,
    by_id: HashMap<u128, QueuedTask>,
}

impl View for TaskQueue {
    type V = QueueView;

    closed spec fn view(&self) -> QueueView {
        QueueView {
            waiting: self.queue@.map_values(|q: QueuedTask| q@),
            records: self.by_id@.map_values(|q: QueuedTask| q@),
        }
    }
}

impl TaskQueue {
    /// The queue is well formed: every record is filed under its task's id.
    pub closed spec fn wf(&self) -> bool {
        forall|k: u128| #[trigger] self.by_id@.contains_key(k) ==> self.by_id@[k].task.id == k
    }

    /// Law: in every queue the operations make, each record is filed under
    /// its own task's identifier.
    pub proof fn law_records_filed(&self)
        requires
            self.wf(),
        ensures
            spec_records_filed(self@.records),
    {
    }

    pub fn new() -> (q: Self)
        ensures
            q.wf(),
            q@.waiting == Seq::<QueuedTaskView>::empty(),
            q@.records == Map::<u128, QueuedTaskView>::empty(),
    {
        let q = TaskQueue { queue: Vec::new(), by_id: HashMap::new() };
        assert(q@.waiting =~= Seq::<QueuedTaskView>::empty());
        assert(q@.records =~= Map::<u128, QueuedTaskView>::empty());
        q
    }

    /// Adds a task: it waits to be handed out and is recorded as pending,
    /// enqueued now.
    pub fn enqueue(&mut self, task: Task)
        requires
            old(self).wf(),
        ensures
            final(self).wf(),
            exists|at: i64| final(self)@ == spec_enqueue(old(self)@, task@, at),
    {
        let at = now_unix_millis();
        let id = task.id;
        let ghost tv = task@;
        let queued = QueuedTask { task, status: TaskStatus::Pending, enqueued_at: at, started_at: None };
        let copy = queued.clone();
        self.queue.push(copy);
        self.by_id.insert(id, queued);
        assert(self@.waiting =~= old(self)@.waiting.push(spec_pending(queued.task@, at)));
        assert(self@.records =~= old(self)@.records.insert(id, spec_pending(queued.task@, at)));
        assert(self@ =~= spec_enqueue(old(self)@, tv, at));
    }

    fn index_of_next(queue: &Vec<QueuedTask>) -> (i: usize)
        requires
            queue.len() > 0,
        ensures
            spec_is_next(queue@.map_values(|q: QueuedTask| q@), i as int),
    {
        let ghost w = queue@.map_values(|q: QueuedTask| q@);
        let mut best: usize = 0;
        let mut j: usize = 1;
        while j < queue.len()
            invariant
                w == queue@.map_values(|q: QueuedTask| q@),
                0 <= best < j <= queue.len(),
                forall|k: int| 0 <= k < j ==> w[k].task.priority.spec_rank() <= w[best as int].task.priority.spec_rank(),
                forall|k: int| 0 <= k < best ==> w[k].task.priority.spec_rank() < w[best as int].task.priority.spec_rank(),
            decreases queue.len() - j,
        {
            if queue[j].task.priority.rank() > queue[best].task.priority.rank() {
                best = j;
            }
            j = j + 1;
        }
        best
    }

    /// Hands out the most urgent waiting task (the earliest of the most
    /// urgent ones) and marks its record as running, started now.
    pub fn dequeue(&mut self) -> (r: Option<Task>)
        requires
            old(self).wf(),
        ensures
            final(self).wf(),
            old(self)@.waiting.len() == 0 <==> r is None,
            r is None ==> final(self)@ == old(self)@,
            r is Some ==> exists|i: int| {
                &&& spec_is_next(old(self)@.waiting, i)
                &&& r->Some_0@ == old(self)@.waiting[i].task
                &&& final(self)@.waiting == old(self)@.waiting.remove(i)
            },
            r is Some && !old(self)@.records.contains_key(r->Some_0.id) ==> final(self)@.records == old(self)@.records,
            r is Some && old(self)@.records.contains_key(r->Some_0.id) ==> {
                let id = r->Some_0.id;
                let before = old(self)@.records[id];
                let after = final(self)@.records[id];
                &&& final(self)@.records.contains_key(id)
                &&& final(self)@.records.remove(id) == old(self)@.records.remove(id)
                &&& after.task == before.task
                &&& after.enqueued_at == before.enqueued_at
                &&& after.status == TaskStatus::Running
                &&& after.started_at is Some
            },
    {
        if self.queue.len() == 0 {
            return None;
        }
        let i = Self::index_of_next(&self.queue);
        let ghost w = old(self)@.waiting;
        let queued = self.queue.remove(i);
        assert(self@.waiting =~= w.remove(i as int));
        let id = queued.task.id;
        let found = match self.by_id.get(&id) {
            Some(q) => Some(q.clone()),
            None => None,
        };
        match found {
            Some(mut q) => {
                q.status = TaskStatus::Running;
                q.started_at = Some(now_unix_millis());
                self.by_id.insert(id, q);
                assert(self@.records.remove(id) =~= old(self)@.records.remove(id));
            },
            None => {
                assert(self@.records =~= old(self)@.records);
            },
        }
        Some(queued.task)
    }

    /// The record of a task.
    pub fn get(&self, task_id: u128) -> (r: Option<QueuedTask>)
        ensures
            r is Some <==> self@.records.contains_key(task_id),
            r is Some ==> r->Some_0@ == self@.records[task_id],
    {
        match self.by_id.get(&task_id) {
            Some(q) => Some(q.clone()),
            None => None,
        }
    }

    /// Sets the status in a task's record; unknown tasks are ignored.
    pub fn update_status(&mut self, task_id: u128, status: TaskStatus)
        requires
            old(self).wf(),
        ensures
            final(self).wf(),
            final(self)@.waiting == old(self)@.waiting,
            old(self)@.records.contains_key(task_id) ==> final(self)@.records == old(self)@.records.insert(
                task_id,
                QueuedTaskView { status, ..old(self)@.records[task_id] },
            ),
            !old(self)@.records.contains_key(task_id) ==> final(self)@.records == old(self)@.records,
    {
        let found = match self.by_id.get(&task_id) {
            Some(q) => Some(q.clone()),
            None => None,
        };
        match found {
            Some(mut q) => {
                q.status = status;
                self.by_id.insert(task_id, q);
                assert(self@.records =~= old(self)@.records.insert(
                    task_id,
                    QueuedTaskView { status, ..old(self)@.records[task_id] },
                ));
            },
            None => {},
        }
    }

    /// Drops a task's record and gives it back. A task still waiting stays
    /// waiting.
    pub fn remove(&mut self, task_id: u128) -> (r: Option<QueuedTask>)
        requires
            old(self).wf(),
        ensures
            final(self).wf(),
            final(self)@.waiting == old(self)@.waiting,
            final(self)@.records == old(self)@.records.remove(task_id),
            r is Some <==> old(self)@.records.contains_key(task_id),
            r is Some ==> r->Some_0@ == old(self)@.records[task_id],
    {
        let r = self.by_id.remove(&task_id);
        assert(self@.records =~= old(self)@.records.remove(task_id));
        r
    }

    /// The number of tasks waiting to be handed out.
    pub fn len(&self) -> (n: usize)
        ensures
            n == self@.waiting.len(),
    {
        self.queue.len()
    }

    pub fn is_empty(&self) -> (b: bool)
        ensures
            b == (self@.waiting.len() == 0),
    {
        self.len() == 0
    }

    /// The records of all pending tasks, each once, in no particular order.
    pub fn get_all_pending(&self) -> (r: Vec<QueuedTask>)
        requires
            self.wf(),
        ensures
            forall|i: int| 0 <= i < r.len() ==> {
                &&& self@.records.contains_key(#[trigger] r[i].task.id)
                &&& r[i]@ == self@.records[r[i].task.id]
                &&& r[i].status == TaskStatus::Pending
            },
            forall|k: u128| self@.records.contains_key(k) && self@.records[k].status == TaskStatus::Pending
                ==> exists|i: int| 0 <= i < r.len() && #[trigger] r[i].task.id == k,
            forall|i: int, j: int| 0 <= i < j < r.len() ==> r[i].task.id != r[j].task.id,
    {
        let mut out: Vec<QueuedTask> = Vec::new();
        let ghost recs = self@.records;
        let ghost keys_seq = self.by_id.keys().remaining();
        proof {
            assert(keys_seq.unref().to_set() == self.by_id@.dom());
            assert(keys_seq.no_duplicates());
        }
        for k in it: self.by_id.keys()
            invariant
                recs == self@.records,
                self.wf(),
                it.seq() == keys_seq,
                keys_seq.unref().to_set() == self.by_id@.dom(),
                keys_seq.no_duplicates(),
                forall|i: int| #![trigger out[i]] 0 <= i < out.len() ==> {
                    &&& recs.contains_key(out[i].task.id)
                    &&& out[i]@ == recs[out[i].task.id]
                    &&& out[i].status == TaskStatus::Pending
                },
                forall|i: int| #![trigger out[i]] 0 <= i < out.len() ==>
                    keys_seq.take(it.index()).unref().contains(out[i].task.id),
                forall|m: int| 0 <= m < it.index() && recs.contains_key(*keys_seq[m]) && recs[*keys_seq[m]].status == TaskStatus::Pending
                    ==> exists|i: int| 0 <= i < out.len() && #[trigger] out[i].task.id == *keys_seq[m],
                forall|i: int, j: int| 0 <= i < j < out.len() ==> out[i].task.id != out[j].task.id,
        {
            let ghost idx = it.index();
            assert(*keys_seq[idx] == *k);
            assert(keys_seq.take(idx + 1).unref() =~= keys_seq.take(idx).unref().push(*k));
            assert(!keys_seq.take(idx).unref().contains(*k)) by {
                if keys_seq.take(idx).unref().contains(*k) {
                    let m = choose|m: int| 0 <= m < idx && keys_seq.take(idx).unref()[m] == *k;
                    assert(keys_seq[m] == keys_seq[idx]);
                }
            }
            let ghost out_before = out@;
            match self.by_id.get(k) {
                Some(q) => {
                    assert(self.by_id@.contains_key(*k) && self.by_id@[*k] == *q);
                    assert(recs[*k] == q@);
                    if q.status == TaskStatus::Pending {
                        let c = q.clone();
                        out.push(c);
                        assert(out@ == out_before.push(c));
                        assert(q.task.id == *k);
                        assert(c@ == recs[*k]);
                        assert(out[out.len() - 1].task.id == *k);
                    }
                },
                None => {
                    assert(!recs.contains_key(*k));
                },
            }
            assert(forall|i: int| 0 <= i < out_before.len() ==> out[i] == out_before[i]);
            assert forall|i: int| #![trigger out[i]] 0 <= i < out.len() implies keys_seq.take(idx + 1).unref().contains(
                out[i].task.id) by {
                if i < out_before.len() {
                    assert(keys_seq.take(idx).unref().contains(out_before[i].task.id));
                    let m = choose|m: int| 0 <= m < idx && keys_seq.take(idx).unref()[m] == out_before[i].task.id;
                    assert(keys_seq.take(idx + 1).unref()[m] == out[i].task.id);
                } else {
                    assert(keys_seq.take(idx + 1).unref()[idx] == out[i].task.id);
                }
            }
        }
        proof {
            assert(keys_seq.take(keys_seq.len() as int) =~= keys_seq);
            assert forall|k: u128| self@.records.contains_key(k) && self@.records[k].status == TaskStatus::Pending
                implies exists|i: int| 0 <= i < out.len() && #[trigger] out[i].task.id == k by {
                assert(keys_seq.unref().to_set().contains(k));
                let m = choose|m: int| 0 <= m < keys_seq.len() && keys_seq.unref()[m] == k;
                assert(*keys_seq[m] == k);
            }
        }
        out
    }
}

impl Default for TaskQueue {
    fn default() -> (q: Self)
        ensures
            q.wf(),
            q@.waiting == Seq::<QueuedTaskView>::empty(),
            q@.records == Map::<u128, QueuedTaskView>::empty(),
    {
        Self::new()
    }
}

/// Law: a task that was just enqueued is recorded as pending under its
/// identifier, waits to be handed out, and the queue grows by one.
pub proof fn law_enqueue_records_pending(q: QueueView, task: TaskView, at: i64)
    ensures
        spec_enqueue(q, task, at).records.contains_key(task.id),
        spec_enqueue(q, task, at).records[task.id].status == TaskStatus::Pending,
        spec_enqueue(q, task, at).records[task.id].task == task,
        spec_enqueue(q, task, at).waiting.len() == q.waiting.len() + 1,
        spec_enqueue(q, task, at).waiting.contains(spec_pending(task, at)),
{
    assert(spec_enqueue(q, task, at).waiting.last() == spec_pending(task, at));
}

/// Law: enqueueing keeps every record filed under its own identifier.
pub proof fn law_enqueue_keeps_records_filed(q: QueueView, task: TaskView, at: i64)
    requires
        spec_records_filed(q.records),
    ensures
        spec_records_filed(spec_enqueue(q, task, at).records),
{
}

/// Law: the task handed out is at least as urgent as every other waiting
/// task; in particular a more urgent task never waits behind a less urgent
/// one.
pub proof fn law_next_is_most_urgent(waiting: Seq<QueuedTaskView>, i: int, j: int)
    requires
        spec_is_next(waiting, i),
        0 <= j < waiting.len(),
    ensures
        waiting[j].task.priority.spec_rank() <= waiting[i].task.priority.spec_rank(),
{
}

/// The priorities in the order they are declared, least urgent first.
pub open spec fn spec_priority_order() -> Seq<TaskPriority> {
    seq![TaskPriority::Low, TaskPriority::Normal, TaskPriority::High, TaskPriority::Critical]
}

/// Whether `p1` is declared before `p2`, so less urgent.
pub open spec fn spec_declared_before(p1: TaskPriority, p2: TaskPriority) -> bool {
    exists|i: int, j: int|
        0 <= i < j < 4 && #[trigger] spec_priority_order()[i] == p1 && #[trigger] spec_priority_order()[j] == p2
}

/// Law: the rank grows along the declared order of the priorities, Low,
/// Normal, High, Critical.
pub proof fn law_rank_follows_declared_order(p1: TaskPriority, p2: TaskPriority)
    ensures
        spec_declared_before(p1, p2) <==> p1.spec_rank() < p2.spec_rank(),
{
    let o = spec_priority_order();
    if p1.spec_rank() < p2.spec_rank() {
        let i = p1.spec_rank() as int;
        let j = p2.spec_rank() as int;
        assert(o[i] == p1 && o[j] == p2) by {
            assert(o[0] == TaskPriority::Low);
            assert(o[1] == TaskPriority::Normal);
            assert(o[2] == TaskPriority::High);
            assert(o[3] == TaskPriority::Critical);
        }
    }
    if spec_declared_before(p1, p2) {
        let (i, j) = choose|i: int, j: int|
            0 <= i < j < 4 && #[trigger] spec_priority_order()[i] == p1 && #[trigger] spec_priority_order()[j] == p2;
        assert(o[0] == TaskPriority::Low);
        assert(o[1] == TaskPriority::Normal);
        assert(o[2] == TaskPriority::High);
        assert(o[3] == TaskPriority::Critical);
    }
}

/// Law: a dequeue never hands out a task while a task of a priority
/// declared after its own waits.
pub proof fn law_dequeue_respects_declared_order(waiting: Seq<QueuedTaskView>, i: int, j: int)
    requires
        spec_is_next(waiting, i),
        0 <= j < waiting.len(),
    ensures
        !spec_declared_before(waiting[i].task.priority, waiting[j].task.priority),
{
    law_rank_follows_declared_order(waiting[i].task.priority, waiting[j].task.priority);
}

} // verus!
