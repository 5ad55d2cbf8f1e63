//! An executor that distributes tasks over several threads with a work-stealing
//! scheduler.
pub mod effects;
pub mod laws;
pub mod task;
pub mod worker;

use crate::cpus::num_cpus;
use crate::queues::{is_capacity, BoundedQueue, TaskInjector, TaskQueue};
use crate::thread_pool::laws::{
    attended, law_initial_attended, law_stepped_attended, law_submitted_attended, open_for_tasks,
};
use crate::thread_pool::worker::{
    fetch_outcome, get_task, is_shutdown, queue_tasks, Action, Fetch, Handle, Phase,
    WorkerView, IDLE, NEW_TASK, RUNNING, SHUTDOWN_IDLE, SHUTDOWN_NOW,
};
use vstd::prelude::*;

verus! {

/// What the threads of a pool share.
pub struct Shared {
    injector: TaskInjector,
    sleep_queue: BoundedQueue,
    queues: Vec<TaskQueue>,
    handles: Vec<Handle>,
    listed: Vec<bool>,
}

/// The state of a pool.
#[verifier::ext_equal]
pub struct SharedView {
    /// The tasks that no worker has taken yet.
    pub injector: Seq<usize>,
    /// The workers that a new task may wake, the next one first.
    pub sleeping: Seq<usize>,
    /// The tasks that each worker has taken.
    pub queues: Seq<Seq<usize>>,
    /// The workers.
    pub workers: Seq<WorkerView>,
}

impl SharedView {
    /// Worker `w` stands where its own state allows it to.
    pub open spec fn worker_ok(self, w: int) -> bool {
        let worker = self.workers[w];
        let asleep = self.sleeping.contains(w as usize);
        &&& worker.state <= SHUTDOWN_NOW
        &&& worker.phase is Start ==> worker.state != IDLE
        &&& worker.phase is Parked || worker.phase is Waking ==> worker.state != RUNNING
        &&& worker.phase is Parked ==> worker.state == IDLE || worker.notified
        &&& worker.busy() ==> worker.state != IDLE && worker.state != NEW_TASK
        &&& worker.phase is Exited ==> !worker.told_shutdown()
        &&& asleep ==> worker.state != NEW_TASK && (worker.told_shutdown() || !worker.busy())
        &&& !asleep ==> worker.state == NEW_TASK || worker.state == SHUTDOWN_IDLE || worker.state
            == SHUTDOWN_NOW || worker.busy() || worker.phase is Exited
    }

    /// The invariant of a pool.
    pub open spec fn wf(self) -> bool {
        &&& self.workers.len() == self.queues.len()
        &&& 0 < self.workers.len() <= usize::MAX
        &&& self.sleeping.no_duplicates()
        &&& forall|i: int|
            0 <= i < self.sleeping.len() ==> (#[trigger] self.sleeping[i]) < self.workers.len()
        &&& forall|w: int| 0 <= w < self.workers.len() ==> #[trigger] self.worker_ok(w)
    }

    /// The worker that the next new task wakes.
    pub open spec fn next_sleeper(self) -> Option<usize> {
        if self.sleeping.len() > 0 {
            Some(self.sleeping.first())
        } else {
            None
        }
    }

    /// A task waits in the injector or in the queue of worker `w`.
    pub open spec fn has_work(self, w: int) -> bool {
        self.injector.len() > 0 || self.queues[w].len() > 0
    }

    /// A task has been put into the injector, and a sleeping worker, if there
    /// is one, has been told so. One that has been told to shut down holds on to
    /// that.
    pub open spec fn submitted(self, task: usize) -> SharedView {
        if self.sleeping.len() > 0 {
            let w = self.sleeping.first() as int;
            SharedView {
                injector: self.injector.push(task),
                sleeping: self.sleeping.drop_first(),
                workers: self.workers.update(
                    w,
                    WorkerView {
                        state: if self.workers[w].told_shutdown() {
                            self.workers[w].state
                        } else {
                            NEW_TASK
                        },
                        notified: true,
                        ..self.workers[w]
                    },
                ),
                ..self
            }
        } else {
            SharedView { injector: self.injector.push(task), ..self }
        }
    }

    /// Every worker that has not ended has been told to shut down.
    pub open spec fn told(self, shutdown: usize) -> SharedView {
        SharedView {
            workers: Seq::new(
                self.workers.len(),
                |w: int|
                    if self.workers[w].phase is Exited {
                        self.workers[w]
                    } else {
                        WorkerView { state: shutdown, notified: true, ..self.workers[w] }
                    },
            ),
            ..self
        }
    }
}

impl SharedView {
    /// Worker `w` has stopped running tasks and is on the sleep queue, where it
    /// stands once.
    pub open spec fn left(self, w: int) -> SharedView {
        SharedView {
            sleeping: if self.sleeping.contains(w as usize) {
                self.sleeping
            } else {
                self.sleeping.push(w as usize)
            },
            workers: self.workers.update(w, WorkerView { phase: Phase::Start, ..self.workers[w] }),
            ..self
        }
    }

    /// The thread of worker `w` has moved to another place.
    pub open spec fn entered(self, w: int, phase: Phase) -> SharedView {
        SharedView {
            workers: self.workers.update(w, WorkerView { phase, ..self.workers[w] }),
            ..self
        }
    }

    /// What a search for a task makes of the pool, but for the worker's own
    /// place.
    pub open spec fn fetched(self, w: int, fetch: Fetch, after: SharedView) -> bool {
        &&& fetch_outcome(
            self.injector,
            self.queues,
            w,
            after.injector,
            after.queues,
            fetch,
        )
        &&& after.sleeping == self.sleeping
        &&& after.workers == self.workers
    }

    /// What a worker that is running tasks does when its search for a task has
    /// come to this: what becomes of the pool, and what its thread is to do.
    pub open spec fn followed(self, w: int, fetch: Fetch) -> (SharedView, Action) {
        match fetch {
            Fetch::Task(task) => if self.workers[w].state == SHUTDOWN_NOW {
                (self.left(w), Action::Discard(task))
            } else {
                (self, Action::Poll(task))
            },
            Fetch::Empty => (self.entered(w, Phase::Idling), Action::Idle),
            Fetch::Retry => (self, Action::Proceed),
        }
    }

    /// One step of a worker that is running tasks. `completed` says whether its
    /// backoff is completed.
    pub open spec fn ran(self, w: int, completed: bool, after: SharedView, action: Action) -> bool {
        if self.workers[w].phase is Fetching {
            exists|mid: SharedView, fetch: Fetch| #[trigger]
                self.fetched(w, fetch, mid) && (after, action) == mid.followed(w, fetch)
        } else if self.injector.len() > 0 {
            action is Proceed && after == self.entered(w, Phase::Fetching)
        } else if self.workers[w].told_shutdown() || completed {
            action is Proceed && after == self.left(w)
        } else {
            action is Snooze && after == self
        }
    }

    /// One step of worker `w`.
    pub open spec fn stepped(
        self,
        w: int,
        completed: bool,
        after: SharedView,
        action: Action,
    ) -> bool {
        if self.workers[w].busy() {
            self.ran(w, completed, after, action)
        } else {
            let (worker, next) = self.workers[w].cycled(self.has_work(w));
            action == next && after == (SharedView { workers: self.workers.update(w, worker), ..self })
        }
    }
}

/// A new task keeps the invariant.
pub proof fn law_submitted_wf(pool: SharedView, task: usize)
    requires
        pool.wf(),
    ensures
        pool.submitted(task).wf(),
{
    let after = pool.submitted(task);
    if pool.sleeping.len() > 0 {
        let first = pool.sleeping.first();
        assert(pool.sleeping.contains(first)) by {
            assert(pool.sleeping[0] == first);
        }
        lemma_first_leaves(pool.sleeping);
        assert forall|w: int| 0 <= w < after.workers.len() implies #[trigger] after.worker_ok(w) by {
            assert(pool.worker_ok(w));
        }
    } else {
        assert forall|w: int| 0 <= w < after.workers.len() implies #[trigger] after.worker_ok(w) by {
            assert(pool.worker_ok(w));
        }
    }
}

/// A step of a worker keeps the invariant.
pub proof fn law_stepped_wf(
    pool: SharedView,
    w: int,
    completed: bool,
    after: SharedView,
    action: Action,
)
    requires
        pool.wf(),
        0 <= w < pool.workers.len(),
        pool.stepped(w, completed, after, action),
    ensures
        after.wf(),
{
    assert(pool.worker_ok(w));
    if pool.workers[w].phase is Fetching {
        let (mid, fetch) = choose|mid: SharedView, fetch: Fetch| #[trigger]
            pool.fetched(w, fetch, mid) && (after, action) == mid.followed(w, fetch);
        assert(mid.wf()) by {
            assert forall|v: int| 0 <= v < mid.workers.len() implies #[trigger] mid.worker_ok(
                v,
            ) by {
                assert(pool.worker_ok(v));
            }
        }
        lemma_left_wf(mid, w);
        lemma_entered_wf(mid, w, Phase::Idling);
    } else if pool.workers[w].phase is Idling {
        lemma_left_wf(pool, w);
        lemma_entered_wf(pool, w, Phase::Fetching);
    } else {
        assert forall|v: int| 0 <= v < after.workers.len() implies #[trigger] after.worker_ok(
            v,
        ) by {
            assert(pool.worker_ok(v));
        }
    }
}

/// A worker that stops running tasks keeps the invariant.
proof fn lemma_left_wf(pool: SharedView, w: int)
    requires
        pool.wf(),
        0 <= w < pool.workers.len(),
        pool.workers[w].busy(),
    ensures
        pool.left(w).wf(),
{
    let after = pool.left(w);
    assert(pool.worker_ok(w));
    lemma_last_joins(pool.sleeping, w as usize);
    assert forall|v: int| 0 <= v < after.workers.len() implies #[trigger] after.worker_ok(v) by {
        assert(pool.worker_ok(v));
    }
}

/// A worker that goes on running tasks keeps the invariant.
proof fn lemma_entered_wf(pool: SharedView, w: int, phase: Phase)
    requires
        pool.wf(),
        0 <= w < pool.workers.len(),
        pool.workers[w].busy(),
        phase is Fetching || phase is Idling,
    ensures
        pool.entered(w, phase).wf(),
{
    let after = pool.entered(w, phase);
    assert forall|v: int| 0 <= v < after.workers.len() implies #[trigger] after.worker_ok(v) by {
        assert(pool.worker_ok(v));
    }
}

/// Telling every worker to shut down keeps the invariant.
pub proof fn law_told_wf(pool: SharedView, shutdown: usize)
    requires
        pool.wf(),
        shutdown == SHUTDOWN_IDLE || shutdown == SHUTDOWN_NOW,
    ensures
        pool.told(shutdown).wf(),
{
    let after = pool.told(shutdown);
    assert forall|w: int| 0 <= w < after.workers.len() implies #[trigger] after.worker_ok(w) by {
        assert(pool.worker_ok(w));
    }
}

/// Fewer items than there are numbers below `bound`, where one of those numbers
/// is missing and none occurs twice.
proof fn lemma_room(items: Seq<usize>, missing: usize, bound: nat)
    requires
        items.no_duplicates(),
        forall|i: int| 0 <= i < items.len() ==> (#[trigger] items[i]) < bound,
        missing < bound,
        !items.contains(missing),
    ensures
        items.len() < bound,
{
    let taken = items.push(missing);
    assert(taken.no_duplicates());
    let numbers = taken.map_values(|i: usize| i as int);
    assert(numbers.no_duplicates());
    numbers.unique_seq_to_set();
    let all = vstd::set_lib::set_int_range(0, bound as int);
    vstd::set_lib::lemma_int_range(0, bound as int);
    assert(numbers.to_set().subset_of(all)) by {
        assert forall|n: int| numbers.to_set().contains(n) implies all.contains(n) by {
            let i = choose|i: int| 0 <= i < numbers.len() && numbers[i] == n;
            assert(numbers[i] == taken[i] as int);
        }
    }
    vstd::set_lib::lemma_len_subset(numbers.to_set(), all);
}

/// Without its first item, a sequence holds what it held, but for that item.
proof fn lemma_first_leaves(items: Seq<usize>)
    requires
        items.len() > 0,
        items.no_duplicates(),
    ensures
        forall|item: usize| #[trigger]
            items.drop_first().contains(item) <==> items.contains(item) && item != items.first(),
{
    let rest = items.drop_first();
    assert forall|item: usize| #[trigger] rest.contains(item) <==> items.contains(item) && item
        != items.first() by {
        if rest.contains(item) {
            let i = rest.index_of(item);
            assert(items[i + 1] == item);
        }
        if items.contains(item) && item != items.first() {
            let i = items.index_of(item);
            assert(rest[i - 1] == item);
        }
    }
}

/// With one more item, a sequence holds what it held, and that item.
proof fn lemma_last_joins(items: Seq<usize>, last: usize)
    ensures
        forall|item: usize| #[trigger]
            items.push(last).contains(item) <==> items.contains(item) || item == last,
{
    let all = items.push(last);
    assert forall|item: usize| #[trigger] all.contains(item) <==> items.contains(item) || item
        == last by {
        if items.contains(item) {
            let i = items.index_of(item);
            assert(all[i] == item);
        }
        assert(all[items.len() as int] == last);
    }
}

impl View for Shared {
    type V = SharedView;

    closed spec fn view(&self) -> SharedView {
        SharedView {
            injector: self.injector@,
            sleeping: self.sleep_queue@,
            queues: queue_tasks(self.queues@),
            workers: Seq::new(self.handles@.len(), |w: int| self.handles@[w]@),
        }
    }
}

/// A pool of `count` workers that has just been created: no task is there, and
/// each worker may be woken.
pub open spec fn initial_pool(count: nat) -> SharedView {
    SharedView {
        injector: Seq::empty(),
        sleeping: Seq::new(count, |w: int| w as usize),
        queues: Seq::new(count, |w: int| Seq::empty()),
        workers: Seq::new(
            count,
            |w: int| WorkerView { state: RUNNING, phase: Phase::Start, notified: false },
        ),
    }
}

/// A pool that has just been created meets the invariant.
pub proof fn law_initial_wf(count: nat)
    requires
        0 < count <= usize::MAX,
    ensures
        initial_pool(count).wf(),
{
    let pool = initial_pool(count);
    assert forall|w: int| 0 <= w < count implies #[trigger] pool.worker_ok(w) by {
        assert(pool.sleeping[w] == w as usize);
    }
}

impl Shared {
    /// The invariant of a pool; the sleep queue has room for each worker once.
    pub closed spec fn wf(&self) -> bool {
        &&& self@.wf()
        &&& self.sleep_queue.capacity() == self.handles@.len()
        &&& self.listing()
    }

    /// It is known of each worker whether it is on the sleep queue.
    closed spec fn listing(&self) -> bool {
        &&& self.listed@.len() == self.handles@.len()
        &&& forall|w: int|
            0 <= w < self.listed@.len() ==> (#[trigger] self.listed@[w]
                == self.sleep_queue@.contains(w as usize))
    }

    /// What the invariant of a pool says of its state.
    pub proof fn lemma_wf(&self)
        requires
            self.wf(),
        ensures
            self@.wf(),
    {
    }

    /// Makes the state of a pool of `count` workers.
    pub fn new(count: usize) -> (shared: Shared)
        requires
            is_capacity(count),
        ensures
            shared.wf(),
            shared@ == initial_pool(count as nat),
    {
        let mut queues: Vec<TaskQueue> = Vec::new();
        let mut handles: Vec<Handle> = Vec::new();
        let mut listed: Vec<bool> = Vec::new();
        let mut sleep_queue = BoundedQueue::new(count);
        let mut w: usize = 0;
        while w < count
            invariant
                w <= count,
                sleep_queue.capacity() == count,
                sleep_queue@ == Seq::new(w as nat, |i: int| i as usize),
                queues@.len() == w,
                handles@.len() == w,
                listed@.len() == w,
                forall|i: int| 0 <= i < w ==> #[trigger] listed@[i],
                forall|i: int| 0 <= i < w ==> (#[trigger] queues@[i])@ == Seq::<usize>::empty(),
                forall|i: int|
                    0 <= i < w ==> (#[trigger] handles@[i])@ == (WorkerView {
                        state: RUNNING,
                        phase: Phase::Start,
                        notified: false,
                    }),
            decreases count - w,
        {
            queues.push(TaskQueue::new_fifo());
            handles.push(Handle::new());
            listed.push(true);
            let _ = sleep_queue.push(w);
            w += 1;
            assert(sleep_queue@ =~= Seq::new(w as nat, |i: int| i as usize));
        }
        let shared = Shared { injector: TaskInjector::new(), sleep_queue, queues, handles, listed };
        proof {
            assert forall|w: int| 0 <= w < count implies (#[trigger] shared.listed@[w]
                == shared.sleep_queue@.contains(w as usize)) by {
                assert(shared.sleep_queue@[w] == w as usize);
            }
            assert(shared@ =~= initial_pool(count as nat)) by {
                assert(shared@.queues =~= initial_pool(count as nat).queues);
                assert(shared@.workers =~= initial_pool(count as nat).workers);
            }
            law_initial_wf(count as nat);
        }
        shared
    }

    /// How many workers there are.
    pub fn count(&self) -> (count: usize)
        ensures
            count == self@.workers.len(),
    {
        self.handles.len()
    }

    /// Tells every worker that has not ended to shut down. Their threads are then
    /// to be unparked.
    pub fn tell_all(&mut self, shutdown: usize)
        requires
            old(self).wf(),
            shutdown == SHUTDOWN_IDLE || shutdown == SHUTDOWN_NOW,
        ensures
            final(self).wf(),
            final(self)@ == old(self)@.told(shutdown),
    {
        let count: usize = self.handles.len();
        let mut w: usize = 0;
        while w < count
            invariant
                w <= count,
                count == self.handles@.len(),
                count == old(self).handles@.len(),
                self.injector == old(self).injector,
                self.sleep_queue == old(self).sleep_queue,
                self.queues == old(self).queues,
                self.listed == old(self).listed,
                forall|i: int|
                    0 <= i < w ==> (#[trigger] self.handles@[i])@ == old(self)@.told(
                        shutdown,
                    ).workers[i],
                forall|i: int| w <= i < count ==> (#[trigger] self.handles@[i]) == old(self).handles@[i],
            decreases count - w,
        {
            if !matches!(self.handles[w].phase(), Phase::Exited) {
                self.handles[w].tell(shutdown);
            }
            w += 1;
        }
        proof {
            assert(self@ =~= old(self)@.told(shutdown)) by {
                assert(self@.workers =~= old(self)@.told(shutdown).workers);
            }
            law_told_wf(old(self)@, shutdown);
        }
    }

    /// Puts a task into the injector and tells a sleeping worker, if there is
    /// one, that it is there. That worker's thread is then to be unparked.
    pub fn submit(&mut self, task: usize) -> (woken: Option<usize>)
        requires
            old(self).wf(),
        ensures
            final(self).wf(),
            final(self)@ == old(self)@.submitted(task),
            woken == old(self)@.next_sleeper(),
    {
        self.injector.push(task);
        if !self.sleep_queue.is_empty() {
            if let Some(w) = self.sleep_queue.pop() {
                self.listed.set(w, false);
                proof {
                    lemma_first_leaves(old(self)@.sleeping);
                }
                let state = self.handles[w].state();
                if is_shutdown(state) {
                    self.handles[w].tell(state);
                } else {
                    self.handles[w].tell(NEW_TASK);
                }
                assert(self@ =~= old(self)@.submitted(task));
                proof {
                    law_submitted_wf(old(self)@, task);
                }
                return Some(w);
            }
        }
        assert(self@ =~= old(self)@.submitted(task));
        proof {
            law_submitted_wf(old(self)@, task);
        }
        None
    }

    /// Puts a worker that has stopped running tasks back on the sleep queue. One
    /// that is to shut down may have run tasks without being called from there.
    fn leave(&mut self, w: usize)
        requires
            old(self).wf(),
            w < old(self)@.workers.len(),
            old(self)@.workers[w as int].busy(),
        ensures
            final(self)@ == old(self)@.left(w as int),
            final(self).listing(),
            final(self).sleep_queue.capacity() == old(self).sleep_queue.capacity(),
    {
        if !self.listed[w] {
            proof {
                lemma_room(self.sleep_queue@, w, self.handles@.len());
            }
            // The sleep queue has room for each worker once, so this does not
            // fail.
            let _ = self.sleep_queue.push(w);
            self.listed.set(w, true);
            proof {
                lemma_last_joins(old(self)@.sleeping, w);
            }
        }
        self.handles[w].enter(Phase::Start);
        assert(self@ =~= old(self)@.left(w as int));
    }

    /// Decides what a worker that is running tasks does, by what its search for
    /// a task has come to.
    pub fn follow(&mut self, w: usize, fetch: Fetch) -> (action: Action)
        requires
            old(self).wf(),
            w < old(self)@.workers.len(),
            old(self)@.workers[w as int].busy(),
        ensures
            final(self).wf(),
            (final(self)@, action) == old(self)@.followed(w as int, fetch),
    {
        proof {
            lemma_left_wf(self@, w as int);
            lemma_entered_wf(self@, w as int, Phase::Idling);
        }
        match fetch {
            Fetch::Task(task) => {
                if self.handles[w].state() == SHUTDOWN_NOW {
                    self.leave(w);
                    Action::Discard(task)
                } else {
                    Action::Poll(task)
                }
            },
            Fetch::Empty => {
                self.handles[w].enter(Phase::Idling);
                assert(self@ =~= old(self)@.entered(w as int, Phase::Idling));
                Action::Idle
            },
            Fetch::Retry => Action::Proceed,
        }
    }

    /// Takes one step of a worker that is running tasks: it fetches a task to
    /// be polled, or waits a little for one. `completed` says whether the
    /// backoff of that wait is completed.
    pub fn run_tasks(&mut self, w: usize, completed: bool) -> (action: Action)
        requires
            old(self).wf(),
            w < old(self)@.workers.len(),
            old(self)@.workers[w as int].busy(),
        ensures
            final(self).wf(),
            old(self)@.ran(w as int, completed, final(self)@, action),
    {
        proof {
            assert(old(self)@.worker_ok(w as int));
        }
        let action = if matches!(self.handles[w].phase(), Phase::Fetching) {
            let fetch = get_task(&mut self.queues, w, &mut self.injector);
            let ghost mid = self@;
            assert(old(self)@.fetched(w as int, fetch, mid));
            assert(mid.wf()) by {
                assert forall|v: int| 0 <= v < mid.workers.len() implies #[trigger] mid.worker_ok(
                    v,
                ) by {
                    assert(old(self)@.worker_ok(v));
                }
            }
            self.follow(w, fetch)
        } else {
            let empty = self.injector.is_empty();
            assert(self@ =~= old(self)@);
            if !empty {
                self.handles[w].enter(Phase::Fetching);
                assert(self@ =~= old(self)@.entered(w as int, Phase::Fetching));
                Action::Proceed
            } else if is_shutdown(self.handles[w].state()) || completed {
                self.leave(w);
                Action::Proceed
            } else {
                Action::Snooze
            }
        };
        proof {
            law_stepped_wf(old(self)@, w as int, completed, self@, action);
        }
        action
    }

    /// Takes the next step of worker `w` and says what its thread is to do.
    /// `completed` says whether the backoff of a wait for tasks is completed.
    pub fn step(&mut self, w: usize, completed: bool) -> (action: Action)
        requires
            old(self).wf(),
            w < old(self)@.workers.len(),
        ensures
            final(self).wf(),
            old(self)@.stepped(w as int, completed, final(self)@, action),
    {
        match self.handles[w].phase() {
            Phase::Fetching | Phase::Idling => self.run_tasks(w, completed),
            _ => {
                let work = !self.injector.is_empty() || !self.queues[w].is_empty();
                assert(self@.queues =~= old(self)@.queues);
                let action = self.handles[w].cycle(work);
                proof {
                    let (worker, next) = old(self)@.workers[w as int].cycled(work);
                    assert(self@ =~= SharedView {
                        workers: old(self)@.workers.update(w as int, worker),
                        ..old(self)@
                    });
                    law_stepped_wf(old(self)@, w as int, completed, self@, action);
                }
                action
            },
        }
    }
}

/// An executor which distributes tasks across multiple threads using a
/// work-stealing scheduler. Tasks are known to it by number.
pub struct ThreadPool {
    shared: Shared,
    count: usize,
    shutdown: bool,
}

impl View for ThreadPool {
    type V = SharedView;

    closed spec fn view(&self) -> SharedView {
        self.shared@
    }
}

impl ThreadPool {
    /// The invariant of a pool.
    pub closed spec fn wf(&self) -> bool {
        &&& self.shared.wf()
        &&& self.count == self.shared@.workers.len()
        &&& !self.shutdown ==> open_for_tasks(self.shared@) && attended(self.shared@)
    }

    /// What the invariant of a pool says of its state: it is well-formed, and as
    /// long as the pool has not been shut down no worker has been told to, and
    /// somebody will see to every task.
    pub proof fn lemma_wf(&self)
        requires
            self.wf(),
        ensures
            self@.wf(),
            !self.is_shut_down() ==> open_for_tasks(self@) && attended(self@),
    {
    }

    /// The pool has been told to shut down.
    pub closed spec fn is_shut_down(&self) -> bool {
        self.shutdown
    }

    /// Creates a pool with as many workers as the machine has logical
    /// processors, as [`ThreadPool::new_priv`] does for that number of them.
    pub fn new() -> (pool: Option<ThreadPool>)
        ensures
            pool matches Some(pool) ==> {
                &&& pool.wf()
                &&& !pool.is_shut_down()
                &&& is_capacity(pool@.workers.len() as usize)
                &&& pool@ == initial_pool(pool@.workers.len())
            },
    {
        ThreadPool::new_priv(None, num_cpus())
    }

    /// Creates a pool with `count` workers.
    pub fn with_threads(count: usize) -> (pool: ThreadPool)
        requires
            is_capacity(count),
        ensures
            pool.wf(),
            !pool.is_shut_down(),
            pool@ == initial_pool(count as nat),
    {
        proof {
            law_initial_attended(count as nat);
        }
        ThreadPool { shared: Shared::new(count), count, shutdown: false }
    }

    /// Creates a pool with `count` workers, or with `cpus` where no count is
    /// given. Gives `None` where the sleep queue would be larger than a queue
    /// can be.
    pub fn new_priv(count: Option<usize>, cpus: usize) -> (pool: Option<ThreadPool>)
        requires
            count != Some(0usize),
            cpus > 0,
        ensures
            ({
                let threads = if count is Some {
                    count->0
                } else {
                    cpus
                };
                &&& pool is Some <==> is_capacity(threads)
                &&& pool is Some ==> {
                    &&& pool->0.wf()
                    &&& !pool->0.is_shut_down()
                    &&& pool->0@ == initial_pool(threads as nat)
                }
            }),
    {
        let threads = match count {
            Some(count) => count,
            None => cpus,
        };
        if threads > isize::MAX as usize / 16 {
            return None;
        }
        Some(ThreadPool::with_threads(threads))
    }

    /// How many workers there are.
    pub fn count(&self) -> (count: usize)
        requires
            self.wf(),
        ensures
            count == self@.workers.len(),
    {
        self.count
    }

    /// Spawns a task on the pool. The thread of the worker that is returned, if
    /// there is one, is then to be unparked.
    pub fn spawn(&mut self, task: usize) -> (woken: Option<usize>)
        requires
            old(self).wf(),
        ensures
            final(self).wf(),
            final(self).is_shut_down() == old(self).is_shut_down(),
            final(self)@ == old(self)@.submitted(task),
            woken == old(self)@.next_sleeper(),
    {
        proof {
            if !self.shutdown {
                law_submitted_attended(self@, task);
            }
        }
        self.shared.submit(task)
    }

    /// Takes the next step of worker `w` and says what its thread is to do.
    /// `completed` says whether the backoff of a wait for tasks is completed.
    pub fn step(&mut self, w: usize, completed: bool) -> (action: Action)
        requires
            old(self).wf(),
            w < old(self)@.workers.len(),
        ensures
            final(self).wf(),
            final(self).is_shut_down() == old(self).is_shut_down(),
            old(self)@.stepped(w as int, completed, final(self)@, action),
    {
        let action = self.shared.step(w, completed);
        proof {
            if !self.shutdown {
                law_stepped_attended(old(self)@, w as int, completed, self@, action);
            }
        }
        action
    }

    /// Tells every worker to shut down when it is next idle. The threads of all
    /// workers are then to be unparked and joined. A pool that has been shut down
    /// already is left as it is.
    pub fn shutdown_on_idle(&mut self)
        requires
            old(self).wf(),
        ensures
            final(self).wf(),
            final(self).is_shut_down(),
            old(self).is_shut_down() ==> final(self)@ == old(self)@,
            !old(self).is_shut_down() ==> final(self)@ == old(self)@.told(SHUTDOWN_IDLE),
    {
        self.shutdown_priv(SHUTDOWN_IDLE)
    }

    /// Tells every worker to shut down at once. The threads of all workers are
    /// then to be unparked and joined. A pool that has been shut down already is
    /// left as it is.
    pub fn shutdown_now(&mut self)
        requires
            old(self).wf(),
        ensures
            final(self).wf(),
            final(self).is_shut_down(),
            old(self).is_shut_down() ==> final(self)@ == old(self)@,
            !old(self).is_shut_down() ==> final(self)@ == old(self)@.told(SHUTDOWN_NOW),
    {
        self.shutdown_priv(SHUTDOWN_NOW)
    }

    /// Tells every worker to shut down, unless that has been done already.
    fn shutdown_priv(&mut self, shutdown: usize)
        requires
            old(self).wf(),
            shutdown == SHUTDOWN_IDLE || shutdown == SHUTDOWN_NOW,
        ensures
            final(self).wf(),
            final(self).is_shut_down(),
            old(self).is_shut_down() ==> final(self)@ == old(self)@,
            !old(self).is_shut_down() ==> final(self)@ == old(self)@.told(shutdown),
    {
        if self.shutdown {
            return;
        }
        self.shutdown = true;
        self.shared.tell_all(shutdown);
    }
}

} // verus!
