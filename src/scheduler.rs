//! Work-stealing scheduler: a global injector queue feeding per-worker
//! FIFO deques.
//!
//! A worker looks for work in a fixed order: its own deque first, then the
//! injector, then the other workers' deques in a random order. When all
//! are empty the host parks the worker until a submission wakes it.
//!
//! The deques are crossbeam's. The scheduler takes them by exclusive
//! reference, so every queue's contents are exact; a FIFO worker's `pop`
//! takes from the same end as its stealers do, so taking from a peer is a
//! `pop` on that peer's deque.

use vstd::prelude::*;
use crossbeam::deque::{Injector, Steal, Worker};
use rand::seq::SliceRandom;
use std::time::Instant;

verus! {

#[verifier::external_type_specification]
#[verifier::external_body]
pub struct ExInstant(Instant);

#[verifier::external_type_specification]
#[verifier::external_body]
#[verifier::reject_recursive_types(T)]
pub struct ExInjector<T>(Injector<T>);

#[verifier::external_type_specification]
#[verifier::external_body]
#[verifier::reject_recursive_types(T)]
pub struct ExWorker<T>(Worker<T>);

/// Relies on `Instant::now`: the current monotonic time; nothing is
/// promised of its value.
#[verifier::external_body]
fn now() -> (r: Instant) {
    Instant::now()
}

/// A simulation task.
#[derive(Debug)]
pub struct Task {
    /// Unique task id.
    pub id: String,
    /// Agent code to run.
    pub code: String,
    /// Priority; advisory only, queues are FIFO.
    pub priority: u32,
    /// When the task was created.
    pub created_at: Instant,
}

impl Clone for Task {
    fn clone(&self) -> (r: Self)
        ensures
            r == *self,
    {
        Task {
            id: self.id.clone(),
            code: self.code.clone(),
            priority: self.priority,
            created_at: self.created_at,
        }
    }
}

impl Task {
    /// A task of priority 0, stamped with the current time.
    pub fn new(id: String, code: String) -> (r: Self)
        ensures
            r.id == id,
            r.code == code,
            r.priority == 0,
    {
        Task { id, code, priority: 0, created_at: now() }
    }

    pub fn with_priority(self, priority: u32) -> (r: Self)
        ensures
            r == (Task { priority, ..self }),
    {
        Task { priority, ..self }
    }
}

/// The tasks an injector holds, oldest first.
pub uninterp spec fn injector_tasks(q: Injector<Task>) -> Seq<Task>;

/// The tasks a worker deque holds, in the order its FIFO `pop` yields them.
pub uninterp spec fn worker_tasks(w: Worker<Task>) -> Seq<Task>;

/// Relies on `Injector::new`: an empty queue.
#[verifier::external_body]
fn injector_new() -> (r: Injector<Task>)
    ensures
        injector_tasks(r) == Seq::<Task>::empty(),
{
    Injector::new()
}

/// Relies on `Injector::push`: appends at the back.
#[verifier::external_body]
fn injector_push(q: &mut Injector<Task>, t: Task)
    ensures
        injector_tasks(*final(q)) == injector_tasks(*old(q)).push(t),
{
    q.push(t)
}

/// How one attempt to take from a shared queue went.
#[derive(Debug)]
pub enum StealOutcome {
    /// The queue was empty.
    Empty,
    /// The oldest task, now taken.
    Success(Task),
    /// A concurrent operation interfered; nothing was taken.
    Retry,
}

/// Relies on `Injector::steal`: takes the oldest task; `Empty` only when
/// there is none; `Retry`, which takes nothing, when its compare-exchange
/// fails.
#[verifier::external_body]
fn injector_steal(q: &mut Injector<Task>) -> (r: StealOutcome)
    ensures
        r is Empty ==> injector_tasks(*old(q)).len() == 0 && injector_tasks(*final(q))
            == injector_tasks(*old(q)),
        r is Retry ==> injector_tasks(*final(q)) == injector_tasks(*old(q)),
        r matches StealOutcome::Success(t) ==> injector_tasks(*old(q)).len() > 0 && t
            == injector_tasks(*old(q))[0] && injector_tasks(*final(q)) == injector_tasks(
            *old(q),
        ).drop_first(),
        injector_tasks(*old(q)).len() > 0 ==> !(r is Empty),
{
    match q.steal() {
        Steal::Empty => StealOutcome::Empty,
        Steal::Success(t) => StealOutcome::Success(t),
        Steal::Retry => StealOutcome::Retry,
    }
}

/// Relies on `Injector::len`: the number of tasks held.
#[verifier::external_body]
fn injector_len(q: &Injector<Task>) -> (r: usize)
    ensures
        r == injector_tasks(*q).len(),
{
    q.len()
}

/// Relies on `Worker::new_fifo`: an empty FIFO deque.
#[verifier::external_body]
fn worker_new_fifo() -> (r: Worker<Task>)
    ensures
        worker_tasks(r) == Seq::<Task>::empty(),
{
    Worker::new_fifo()
}

/// Relies on `Worker::pop` of a FIFO deque: takes the oldest task of
/// deque `i`, or `None` when it is empty; the other deques are untouched.
#[verifier::external_body]
fn worker_pop(workers: &mut Vec<Worker<Task>>, i: usize) -> (r: Option<Task>)
    requires
        i < old(workers)@.len(),
    ensures
        final(workers)@.len() == old(workers)@.len(),
        forall|j: int|
            0 <= j < old(workers)@.len() && j != i ==> worker_tasks(#[trigger] final(workers)@[j])
                == worker_tasks(old(workers)@[j]),
        worker_tasks(old(workers)@[i as int]).len() == 0 ==> r is None && worker_tasks(
            final(workers)@[i as int],
        ) == worker_tasks(old(workers)@[i as int]),
        worker_tasks(old(workers)@[i as int]).len() > 0 ==> r == Some(
            worker_tasks(old(workers)@[i as int])[0],
        ) && worker_tasks(final(workers)@[i as int]) == worker_tasks(
            old(workers)@[i as int],
        ).drop_first(),
{
    workers[i].pop()
}

/// Relies on `Worker::len`: the number of tasks held.
#[verifier::external_body]
fn worker_len(w: &Worker<Task>) -> (r: usize)
    ensures
        r == worker_tasks(*w).len(),
{
    w.len()
}

/// Relies on rand's `SliceRandom::shuffle` with the thread-local
/// generator: the order is random, the items are the same.
#[verifier::external_body]
fn shuffled(v: Vec<usize>) -> (r: Vec<usize>)
    ensures
        r@.to_multiset() == v@.to_multiset(),
{
    let mut v = v;
    v.shuffle(&mut rand::thread_rng());
    v
}

/// Scheduler counters.
#[derive(Debug, Clone)]
pub struct SchedulerStats {
    pub global_queue_size: usize,
    pub local_queue_sizes: Vec<usize>,
    pub total_tasks: usize,
    pub num_workers: usize,
}

/// What `get_task` found.
#[derive(Debug)]
pub enum TaskPick {
    /// A task for the worker.
    Task(Task),
    /// Every queue was empty: park until a submission wakes the worker.
    Empty,
    /// A race with another taker; look again at once.
    Retry,
}

/// `t` was the oldest task of some worker deque of `a`, and `b` is `a`
/// with it taken.
pub open spec fn took_local(a: WorkStealingScheduler, b: WorkStealingScheduler, t: Task) -> bool {
    exists|j: int|
        0 <= j < a.workers_spec() && (#[trigger] a.local(j)).len() > 0 && t == a.local(j)[0]
            && b.local(j) == a.local(j).drop_first()
}

/// The work-stealing scheduler.
pub struct WorkStealingScheduler {
    global_queue: Injector<Task>,
    workers: Vec<Worker<Task>>,
    num_workers: usize,
}

impl WorkStealingScheduler {
    /// Tasks waiting in the injector.
    pub closed spec fn injected(&self) -> Seq<Task> {
        injector_tasks(self.global_queue)
    }

    /// Tasks waiting in worker `i`'s deque.
    pub closed spec fn local(&self, i: int) -> Seq<Task> {
        worker_tasks(self.workers@[i])
    }

    pub closed spec fn workers_spec(&self) -> nat {
        self.num_workers as nat
    }

    /// All tasks waiting anywhere.
    pub open spec fn pending(&self) -> nat {
        self.injected().len() + self.locals_total(self.workers_spec() as int)
    }

    /// Tasks waiting in the deques of workers `0 .. n`.
    pub open spec fn locals_total(&self, n: int) -> nat
        decreases n,
    {
        if n <= 0 {
            0
        } else {
            self.locals_total(n - 1) + self.local(n - 1).len()
        }
    }

    pub closed spec fn wf(&self) -> bool {
        self.workers@.len() == self.num_workers
    }

    /// A scheduler with `num_workers` empty deques.
    pub fn new(num_workers: usize) -> (r: Self)
        ensures
            r.wf(),
            r.workers_spec() == num_workers,
            r.injected().len() == 0,
            forall|i: int| 0 <= i < num_workers ==> #[trigger] r.local(i).len() == 0,
    {
        let mut workers: Vec<Worker<Task>> = Vec::new();
        let mut i: usize = 0;
        while i < num_workers
            invariant
                i <= num_workers,
                workers@.len() == i,
                forall|j: int| 0 <= j < i ==> worker_tasks(#[trigger] workers@[j]).len() == 0,
            decreases num_workers - i,
        {
            workers.push(worker_new_fifo());
            i = i + 1;
        }
        WorkStealingScheduler { global_queue: injector_new(), workers, num_workers }
    }

    /// Puts `task` at the back of the injector. Returns how many parked
    /// workers to wake: one.
    pub fn submit(&mut self, task: Task) -> (wake: usize)
        requires
            old(self).wf(),
        ensures
            final(self).wf(),
            final(self).workers_spec() == old(self).workers_spec(),
            final(self).injected() == old(self).injected().push(task),
            forall|i: int| 0 <= i < old(self).workers_spec() ==> #[trigger] final(self).local(i) == old(self).local(i),
            wake == 1,
    {
        injector_push(&mut self.global_queue, task);
        1
    }

    /// Puts `tasks` at the back of the injector in order. Returns how many
    /// parked workers to wake: one per task, at most one per worker.
    pub fn submit_batch(&mut self, tasks: Vec<Task>) -> (wake: usize)
        requires
            old(self).wf(),
        ensures
            final(self).wf(),
            final(self).workers_spec() == old(self).workers_spec(),
            final(self).injected() == old(self).injected() + tasks@,
            forall|i: int| 0 <= i < old(self).workers_spec() ==> #[trigger] final(self).local(i) == old(self).local(i),
            wake == if tasks@.len() < old(self).workers_spec() { tasks@.len() } else { old(self).workers_spec() },
    {
        let count = tasks.len();
        let ghost start = injector_tasks(self.global_queue);
        let mut k: usize = 0;
        while k < tasks.len()
            invariant
                k <= tasks@.len(),
                injector_tasks(self.global_queue) == start + tasks@.subrange(0, k as int),
                self.workers == old(self).workers,
                self.num_workers == old(self).num_workers,
                start == old(self).injected(),
            decreases tasks@.len() - k,
        {
            injector_push(&mut self.global_queue, tasks[k].clone());
            assert(tasks@.subrange(0, k + 1) =~= tasks@.subrange(0, k as int).push(tasks@[k as int]));
            assert(start + tasks@.subrange(0, k + 1) =~= (start + tasks@.subrange(0, k as int)).push(tasks@[k as int]));
            k = k + 1;
        }
        assert(tasks@.subrange(0, tasks@.len() as int) =~= tasks@);
        if count < self.num_workers {
            count
        } else {
            self.num_workers
        }
    }

    /// One look for work for `worker_id`: its own deque, then the injector,
    /// then the other workers' deques in a random order.
    pub fn get_task(&mut self, worker_id: usize) -> (r: TaskPick)
        requires
            old(self).wf(),
            worker_id < old(self).workers_spec(),
        ensures
            final(self).wf(),
            final(self).workers_spec() == old(self).workers_spec(),
            old(self).local(worker_id as int).len() > 0 ==> r == TaskPick::Task(old(self).local(worker_id as int)[0])
                && final(self).local(worker_id as int) == old(self).local(worker_id as int).drop_first()
                && final(self).injected() == old(self).injected(),
            old(self).local(worker_id as int).len() == 0 && old(self).injected().len() > 0 ==> (
                r == TaskPick::Task(old(self).injected()[0]) && final(self).injected() == old(self).injected().drop_first()
                    && (forall|i: int| 0 <= i < old(self).workers_spec() ==> #[trigger] final(self).local(i) == old(self).local(i))
                || r is Retry && final(self).injected() == old(self).injected()),
            r is Retry ==> final(self).injected() == old(self).injected() && forall|i: int|
                0 <= i < old(self).workers_spec() ==> #[trigger] final(self).local(i) == old(self).local(i),
            r is Empty ==> old(self).injected().len() == 0 && forall|i: int|
                0 <= i < old(self).workers_spec() ==> #[trigger] old(self).local(i).len() == 0,
            r is Empty ==> final(self).injected() == old(self).injected() && forall|i: int|
                0 <= i < old(self).workers_spec() ==> #[trigger] final(self).local(i) == old(self).local(i),
            r matches TaskPick::Task(t) ==> took_local(*old(self), *final(self), t) || (old(self).injected().len() > 0 && t == old(self).injected()[0]
                    && final(self).injected() == old(self).injected().drop_first()),
    {
        if let Some(task) = worker_pop(&mut self.workers, worker_id) {
            assert(old(self).local(worker_id as int).len() > 0);
            return TaskPick::Task(task);
        }
        assert forall|i: int| 0 <= i < old(self).workers_spec() implies #[trigger] self.local(i)
            == old(self).local(i) by {
            if i != worker_id {
                assert(worker_tasks(self.workers@[i]) == worker_tasks(old(self).workers@[i]));
            }
        }
        match injector_steal(&mut self.global_queue) {
            StealOutcome::Success(task) => TaskPick::Task(task),
            StealOutcome::Retry => TaskPick::Retry,
            StealOutcome::Empty => {
                let ghost mid = *self;
                match self.steal_from_others(worker_id) {
                    Some(task) => {
                        proof {
                            assert(took_local(mid, *self, task));
                            let j = choose|j: int|
                                0 <= j < mid.workers_spec() && (#[trigger] mid.local(j)).len() > 0
                                    && task == mid.local(j)[0] && self.local(j) == mid.local(j).drop_first();
                            assert(mid.local(j) == old(self).local(j));
                        }
                        TaskPick::Task(task)
                    },
                    None => {
                        assert forall|i: int| 0 <= i < old(self).workers_spec() implies #[trigger] old(self).local(i).len() == 0
                            && self.local(i) == old(self).local(i) by {
                            assert(mid.local(i) == old(self).local(i));
                            assert(mid.local(i).len() == 0);
                        }
                        TaskPick::Empty
                    },
                }
            },
        }
    }

    /// Takes the oldest task of the first non-empty peer deque, visiting
    /// the peers of `worker_id` in a random order.
    fn steal_from_others(&mut self, worker_id: usize) -> (r: Option<Task>)
        requires
            old(self).wf(),
            worker_id < old(self).workers_spec(),
            old(self).local(worker_id as int).len() == 0,
        ensures
            final(self).wf(),
            final(self).workers_spec() == old(self).workers_spec(),
            final(self).global_queue == old(self).global_queue,
            r is None ==> forall|i: int|
                0 <= i < old(self).workers_spec() ==> #[trigger] old(self).local(i).len() == 0
                    && final(self).local(i) == old(self).local(i),
            r matches Some(t) ==> took_local(*old(self), *final(self), t),
    {
        let mut peers: Vec<usize> = Vec::new();
        let mut i: usize = 0;
        while i < self.num_workers
            invariant
                i <= self.num_workers,
                forall|j: usize| j < i && j != worker_id ==> #[trigger] peers@.contains(j),
                forall|k: int| 0 <= k < peers@.len() ==> #[trigger] peers@[k] < self.num_workers,
            decreases self.num_workers - i,
        {
            if i != worker_id {
                let ghost before = peers@;
                peers.push(i);
                assert forall|j: usize| j < i + 1 && j != worker_id implies #[trigger] peers@.contains(j) by {
                    if j < i {
                        assert(before.contains(j));
                        let k = choose|k: int| 0 <= k < before.len() && before[k] == j;
                        assert(peers@[k] == j);
                    } else {
                        assert(peers@[peers@.len() - 1] == j);
                    }
                }
            }
            i = i + 1;
        }
        let order = shuffled(peers);
        proof {
            broadcast use vstd::seq_lib::group_to_multiset_ensures;
            assert forall|j: usize| j < self.num_workers && j != worker_id implies #[trigger] order@.contains(j) by {
                assert(peers@.contains(j));
                assert(peers@.to_multiset().count(j) > 0);
            }
            assert forall|k: int| 0 <= k < order@.len() implies #[trigger] order@[k] < self.num_workers by {
                assert(order@.contains(order@[k]));
                assert(peers@.to_multiset().count(order@[k]) > 0);
            }
        }
        let mut k: usize = 0;
        while k < order.len()
            invariant
                self.wf(),
                self.num_workers == old(self).num_workers,
                self.global_queue == old(self).global_queue,
                k <= order@.len(),
                forall|j: usize| j < self.num_workers && j != worker_id ==> #[trigger] order@.contains(j),
                forall|q: int| 0 <= q < order@.len() ==> #[trigger] order@[q] < self.num_workers,
                forall|q: int| 0 <= q < k ==> #[trigger] worker_tasks(old(self).workers@[order@[q] as int]).len() == 0,
                forall|i: int| 0 <= i < self.num_workers ==> #[trigger] worker_tasks(self.workers@[i]) == worker_tasks(old(self).workers@[i]),
                worker_tasks(old(self).workers@[worker_id as int]).len() == 0,
            decreases order@.len() - k,
        {
            let peer = order[k];
            match worker_pop(&mut self.workers, peer) {
                Some(task) => {
                    assert(old(self).local(peer as int).len() > 0);
                    return Some(task);
                },
                None => {},
            }
            k = k + 1;
        }
        proof {
            assert forall|i: int| 0 <= i < old(self).workers_spec() implies #[trigger] old(self).local(i).len() == 0
                && self.local(i) == old(self).local(i) by {
                if i != worker_id {
                    assert(order@.contains(i as usize));
                    let q = choose|q: int| 0 <= q < order@.len() && order@[q] == i as usize;
                    assert(worker_tasks(old(self).workers@[order@[q] as int]).len() == 0);
                }
            }
        }
        None
    }

    /// Queue sizes. The total is held at `usize::MAX`.
    pub fn stats(&self) -> (r: SchedulerStats)
        requires
            self.wf(),
        ensures
            r.num_workers == self.workers_spec(),
            r.global_queue_size == self.injected().len(),
            r.local_queue_sizes@.len() == self.workers_spec(),
            forall|i: int| 0 <= i < self.workers_spec() ==> #[trigger] r.local_queue_sizes@[i] == self.local(i).len(),
            r.total_tasks == if self.pending() > usize::MAX { usize::MAX as int } else { self.pending() as int },
    {
        let global = injector_len(&self.global_queue);
        let mut sizes: Vec<usize> = Vec::new();
        let mut total: usize = global;
        let mut i: usize = 0;
        while i < self.workers.len()
            invariant
                i <= self.workers@.len(),
                self.wf(),
                sizes@.len() == i,
                forall|j: int| 0 <= j < i ==> #[trigger] sizes@[j] == worker_tasks(self.workers@[j]).len(),
                global == injector_tasks(self.global_queue).len(),
                total == if global + self.locals_total(i as int) > usize::MAX { usize::MAX as int }
                    else { global + self.locals_total(i as int) },
            decreases self.workers@.len() - i,
        {
            let n = worker_len(&self.workers[i]);
            sizes.push(n);
            total = total.saturating_add(n);
            i = i + 1;
        }
        SchedulerStats { global_queue_size: global, local_queue_sizes: sizes, total_tasks: total, num_workers: self.num_workers }
    }
}

/// With every deque of workers `0 .. n` empty, none of them holds a task.
pub proof fn lemma_locals_empty(s: WorkStealingScheduler, n: int)
    requires
        forall|i: int| 0 <= i < n ==> #[trigger] s.local(i).len() == 0,
    ensures
        s.locals_total(n) == 0,
    decreases n,
{
    if n > 0 {
        lemma_locals_empty(s, n - 1);
    }
}

/// Two schedulers whose deques `0 .. n` hold the same tasks hold as many.
pub proof fn lemma_locals_same(a: WorkStealingScheduler, b: WorkStealingScheduler, n: int)
    requires
        forall|i: int| 0 <= i < n ==> #[trigger] a.local(i) == b.local(i),
    ensures
        a.locals_total(n) == b.locals_total(n),
    decreases n,
{
    if n > 0 {
        lemma_locals_same(a, b, n - 1);
        assert(a.local(n - 1) == b.local(n - 1));
    }
}

} // verus!
