//! How a worker of the thread pool finds its tasks.
use crate::queues::{batch_moved, some_moved, Stolen, TaskInjector, TaskQueue, MAX_BATCH};
use crate::utils::thread_parker::Inner;
use vstd::prelude::*;

verus! {

/// The worker is idle and ready to be woken up.
pub const IDLE: usize = 0;

/// The worker is currently running tasks.
pub const RUNNING: usize = 1;

/// The worker has a new task waiting on the injector.
pub const NEW_TASK: usize = 2;

/// The worker should be shut down whenever it is next idle.
pub const SHUTDOWN_IDLE: usize = 3;

/// The worker should be shut down immediately. This is similar to
/// [`SHUTDOWN_IDLE`], except that it is checked each time the worker is about
/// to poll a task, so the effect is more immediate.
pub const SHUTDOWN_NOW: usize = 4;

/// Where the thread of a worker stands.
#[derive(Clone, Copy, Debug, PartialEq, Eq, Structural)]
pub enum Phase {
    /// It is about to become idle, unless it has been told something.
    Start,
    /// It waits to be unparked.
    Parked,
    /// It is about to look at what it has been told.
    Waking,
    /// It looks for a task.
    Fetching,
    /// It found no task and waits a little for one.
    Idling,
    /// It has ended.
    Exited,
}

/// What the thread of a worker is to do next.
#[derive(Clone, Copy, Debug, PartialEq, Eq, Structural)]
pub enum Action {
    /// Take the next step at once.
    Proceed,
    /// Wait to be unparked, then take the next step.
    Wait,
    /// Poll the task, then take the next step.
    Poll(usize),
    /// Give the task up without polling it, then take the next step.
    Discard(usize),
    /// Begin to wait for a task, with a backoff that has not snoozed yet.
    Idle,
    /// Snooze, then take the next step.
    Snooze,
    /// End.
    Exit,
    /// The worker holds a state that it cannot hold here.
    Unreachable,
}

/// What the other threads know of a worker, and where its own thread stands.
#[derive(Clone, Copy, Debug, PartialEq, Eq, Structural)]
pub struct Handle {
    state: usize,
    phase: Phase,
    parker: Inner,
}

/// The state of a worker.
pub struct WorkerView {
    pub state: usize,
    pub phase: Phase,
    pub notified: bool,
}

impl WorkerView {
    /// The worker is running tasks, or looks for some.
    pub open spec fn busy(self) -> bool {
        self.phase is Fetching || self.phase is Idling
    }

    /// The worker has been told to shut down.
    pub open spec fn told_shutdown(self) -> bool {
        self.state == SHUTDOWN_IDLE || self.state == SHUTDOWN_NOW
    }

    /// The next step of a worker that is not running tasks: what becomes of the
    /// worker, and what its thread is to do. `work` says whether a task waits in
    /// the injector or in the worker's own queue. A worker that is to shut down
    /// when it is next idle is not idle as long as one does.
    pub open spec fn cycled(self, work: bool) -> (WorkerView, Action) {
        match self.phase {
            Phase::Start => if self.state != RUNNING {
                (WorkerView { phase: Phase::Waking, ..self }, Action::Proceed)
            } else if self.notified {
                (
                    WorkerView { state: IDLE, phase: Phase::Waking, notified: false },
                    Action::Proceed,
                )
            } else {
                (WorkerView { state: IDLE, phase: Phase::Parked, ..self }, Action::Wait)
            },
            Phase::Parked => (
                WorkerView { phase: Phase::Waking, notified: false, ..self },
                Action::Proceed,
            ),
            Phase::Waking => if self.state == NEW_TASK {
                (WorkerView { state: RUNNING, phase: Phase::Fetching, ..self }, Action::Proceed)
            } else if self.state == SHUTDOWN_IDLE && work {
                (WorkerView { phase: Phase::Fetching, ..self }, Action::Proceed)
            } else if self.told_shutdown() {
                (WorkerView { state: RUNNING, phase: Phase::Exited, ..self }, Action::Exit)
            } else if self.state == IDLE {
                (WorkerView { state: RUNNING, phase: Phase::Start, ..self }, Action::Proceed)
            } else {
                (WorkerView { state: RUNNING, ..self }, Action::Unreachable)
            },
            Phase::Exited => (self, Action::Exit),
            _ => (self, Action::Proceed),
        }
    }
}

impl View for Handle {
    type V = WorkerView;

    closed spec fn view(&self) -> WorkerView {
        WorkerView { state: self.state, phase: self.phase, notified: self.parker.notified() }
    }
}

/// Checks whether a worker has been told to shut down.
pub fn is_shutdown(state: usize) -> (shutdown: bool)
    ensures
        shutdown == (state == SHUTDOWN_IDLE || state == SHUTDOWN_NOW),
{
    state == SHUTDOWN_IDLE || state == SHUTDOWN_NOW
}

impl Handle {
    /// A worker whose thread has just been created.
    pub fn new() -> (handle: Handle)
        ensures
            handle@ == (WorkerView { state: RUNNING, phase: Phase::Start, notified: false }),
    {
        Handle { state: RUNNING, phase: Phase::Start, parker: Inner::new() }
    }

    /// Tells the worker something and unparks it.
    pub fn tell(&mut self, state: usize)
        ensures
            final(self)@ == (WorkerView { state, notified: true, ..old(self)@ }),
    {
        self.state = state;
        self.parker.unpark();
    }

    /// What the worker has been told, or what it says of itself.
    pub fn state(&self) -> (state: usize)
        ensures
            state == self@.state,
    {
        self.state
    }

    /// Where the thread of the worker stands.
    pub fn phase(&self) -> (phase: Phase)
        ensures
            phase == self@.phase,
    {
        self.phase
    }

    /// Moves the thread of the worker to another place.
    pub fn enter(&mut self, phase: Phase)
        ensures
            final(self)@ == (WorkerView { phase, ..old(self)@ }),
    {
        self.phase = phase;
    }

    /// Takes the next step of a worker that is not running tasks: it becomes
    /// idle and parks, unless it has been told something; once it is unparked
    /// it looks at what it has been told. `work` says whether a task waits in
    /// the injector or in the worker's own queue.
    pub fn cycle(&mut self, work: bool) -> (action: Action)
        ensures
            (final(self)@, action) == old(self)@.cycled(work),
    {
        match self.phase {
            Phase::Start => {
                if self.state == RUNNING {
                    self.state = IDLE;
                    if self.parker.park() {
                        self.phase = Phase::Parked;
                        Action::Wait
                    } else {
                        self.parker.parked();
                        self.phase = Phase::Waking;
                        Action::Proceed
                    }
                } else {
                    self.phase = Phase::Waking;
                    Action::Proceed
                }
            },
            Phase::Parked => {
                self.parker.parked();
                self.phase = Phase::Waking;
                Action::Proceed
            },
            Phase::Waking => {
                let state = self.state;
                self.state = RUNNING;
                if state == NEW_TASK {
                    self.phase = Phase::Fetching;
                    Action::Proceed
                } else if state == SHUTDOWN_IDLE && work {
                    self.state = SHUTDOWN_IDLE;
                    self.phase = Phase::Fetching;
                    Action::Proceed
                } else if is_shutdown(state) {
                    self.phase = Phase::Exited;
                    Action::Exit
                } else if state == IDLE {
                    self.phase = Phase::Start;
                    Action::Proceed
                } else {
                    Action::Unreachable
                }
            },
            Phase::Exited => Action::Exit,
            Phase::Fetching | Phase::Idling => Action::Proceed,
        }
    }
}

/// What a search for a task came to.
#[derive(Clone, Copy, Debug, PartialEq, Eq, Structural)]
pub enum Fetch {
    /// The task that is to be run.
    Task(usize),
    /// There is no task anywhere.
    Empty,
    /// The injector holds tasks, but each attempt to take some has to be made
    /// again.
    Retry,
}

/// What each of the worker queues holds.
pub open spec fn queue_tasks(queues: Seq<TaskQueue>) -> Seq<Seq<usize>> {
    Seq::new(queues.len(), |i: int| queues[i]@)
}

/// No worker queue holds a task.
pub open spec fn all_idle(queues: Seq<Seq<usize>>) -> bool {
    forall|i: int| 0 <= i < queues.len() ==> (#[trigger] queues[i]).len() == 0
}

/// Queue `victim` is the first that holds a task.
pub open spec fn is_victim(queues: Seq<Seq<usize>>, victim: int) -> bool {
    &&& 0 <= victim < queues.len()
    &&& queues[victim].len() > 0
    &&& forall|i: int| 0 <= i < victim ==> (#[trigger] queues[i]).len() == 0
}

/// Tasks have moved from one worker queue to another, and no other queue has
/// changed.
pub open spec fn stolen_from(
    queues: Seq<Seq<usize>>,
    from: int,
    to: int,
    after: Seq<Seq<usize>>,
) -> bool {
    &&& after.len() == queues.len()
    &&& some_moved(queues[from], after[from], queues[to], after[to])
    &&& forall|i: int|
        0 <= i < queues.len() && i != from && i != to ==> #[trigger] after[i] == queues[i]
}

/// What [`steal`] does to the worker queues.
pub open spec fn steal_outcome(
    queues: Seq<Seq<usize>>,
    worker: int,
    after: Seq<Seq<usize>>,
) -> bool {
    &&& after.len() == queues.len()
    &&& all_idle(queues) ==> after == queues
    &&& forall|victim: int| #[trigger]
        is_victim(queues, victim) ==> if victim == worker {
            after == queues
        } else {
            stolen_from(queues, victim, worker, after)
        }
}

/// The oldest task has been taken from the queue of `worker`.
pub open spec fn popped(
    queues: Seq<Seq<usize>>,
    worker: int,
    after: Seq<Seq<usize>>,
    fetch: Fetch,
) -> bool {
    if queues[worker].len() > 0 {
        fetch == Fetch::Task(queues[worker].first()) && after == queues.update(
            worker,
            queues[worker].drop_first(),
        )
    } else {
        fetch is Empty && after == queues
    }
}

/// What [`finish_fetch`] returns and does, by how the attempts to take tasks
/// from the injector ended.
pub open spec fn finished(
    queues: Seq<Seq<usize>>,
    worker: int,
    result: Stolen,
    after: Seq<Seq<usize>>,
    fetch: Fetch,
) -> bool {
    match result {
        Stolen::Success => popped(queues, worker, after, fetch),
        Stolen::Empty => exists|held: Seq<Seq<usize>>| #[trigger]
            steal_outcome(queues, worker, held) && popped(held, worker, after, fetch),
        Stolen::Retry => fetch is Retry && after == queues,
    }
}

/// The worker has taken `count` tasks from the front of `source`: the first is
/// the one to run, the others are in the worker's own queue, which was empty.
pub open spec fn took(source: Seq<usize>, count: int, fetch: Fetch, own_after: Seq<usize>) -> bool {
    &&& 1 <= count <= source.len()
    &&& count <= MAX_BATCH
    &&& fetch == Fetch::Task(source.first())
    &&& own_after == source.subrange(1, count)
}

/// What [`get_task`] returns, and what it does to the injector and to the
/// worker queues: the worker's own queue comes first, then the injector, then
/// the first of the other queues that holds a task.
pub open spec fn fetch_outcome(
    injector: Seq<usize>,
    queues: Seq<Seq<usize>>,
    worker: int,
    injector_after: Seq<usize>,
    after: Seq<Seq<usize>>,
    fetch: Fetch,
) -> bool {
    if queues[worker].len() > 0 {
        &&& fetch == Fetch::Task(queues[worker].first())
        &&& injector_after == injector
        &&& after == queues.update(worker, queues[worker].drop_first())
    } else if injector.len() > 0 {
        ||| fetch is Retry && injector_after == injector && after == queues
        ||| exists|count: int| #[trigger]
            took(injector, count, fetch, after[worker]) && injector_after == injector.skip(count)
                && after == queues.update(worker, injector.subrange(1, count))
    } else if all_idle(queues) {
        fetch is Empty && injector_after == injector && after == queues
    } else {
        exists|victim: int, count: int|
            is_victim(queues, victim) && #[trigger] took(
                queues[victim],
                count,
                fetch,
                after[worker],
            ) && injector_after == injector && after == queues.update(
                victim,
                queues[victim].skip(count),
            ).update(worker, queues[victim].subrange(1, count))
    }
}

/// Moves a batch of tasks between two of the worker queues.
fn steal_between(queues: &mut Vec<TaskQueue>, from: usize, to: usize) -> (stolen: Stolen)
    requires
        from < old(queues)@.len(),
        to < old(queues)@.len(),
        from != to,
    ensures
        final(queues)@.len() == old(queues)@.len(),
        stolen is Empty <==> old(queues)@[from as int]@.len() == 0,
        stolen is Success <==> old(queues)@[from as int]@.len() > 0,
        stolen is Empty ==> queue_tasks(final(queues)@) == queue_tasks(old(queues)@),
        stolen is Success ==> stolen_from(
            queue_tasks(old(queues)@),
            from as int,
            to as int,
            queue_tasks(final(queues)@),
        ),
{
    if from < to {
        let (low, high) = queues.as_mut_slice().split_at_mut(to);
        low[from].steal_batch(&mut high[0])
    } else {
        let (low, high) = queues.as_mut_slice().split_at_mut(from);
        high[0].steal_batch(&mut low[to])
    }
}

/// Moves a batch of tasks to the queue of `worker`, from the first of the
/// queues that holds a task. Does nothing where that is the worker's own queue.
pub fn steal(queues: &mut Vec<TaskQueue>, worker: usize)
    requires
        worker < old(queues)@.len(),
    ensures
        final(queues)@.len() == old(queues)@.len(),
        steal_outcome(queue_tasks(old(queues)@), worker as int, queue_tasks(final(queues)@)),
{
    let count: usize = queues.len();
    let mut i: usize = 0;
    while i < count
        invariant
            i <= count,
            count == queues@.len(),
            worker < count,
            queue_tasks(queues@) == queue_tasks(old(queues)@),
            forall|j: int| 0 <= j < i ==> (#[trigger] queue_tasks(old(queues)@)[j]).len() == 0,
        decreases count - i,
    {
        let ghost before = queue_tasks(old(queues)@);
        assert(before[i as int] == queues@[i as int]@);
        if i == worker {
            let empty = queues[worker].is_empty();
            assert(queue_tasks(queues@) =~= before);
            if !empty {
                return;
            }
        } else {
            match steal_between(queues, i, worker) {
                Stolen::Success => {
                    return;
                },
                Stolen::Empty => (),
                Stolen::Retry => (),
            }
        }
        i += 1;
    }
}

/// Takes the oldest task from the queue of `worker`.
fn pop(queues: &mut Vec<TaskQueue>, worker: usize) -> (fetch: Fetch)
    requires
        worker < old(queues)@.len(),
    ensures
        final(queues)@.len() == old(queues)@.len(),
        popped(
            queue_tasks(old(queues)@),
            worker as int,
            queue_tasks(final(queues)@),
            fetch,
        ),
{
    let ghost before = queue_tasks(queues@);
    let fetch = match queues[worker].pop() {
        Some(task) => Fetch::Task(task),
        None => Fetch::Empty,
    };
    proof {
        let own = worker as int;
        let after = queue_tasks(queues@);
        assert(after =~= before.update(own, after[own]));
        assert(before =~= before.update(own, before[own]));
    }
    fetch
}

/// Finishes the search for a task of `worker`, by how its attempts to take some
/// from the injector ended: if there were none, the other workers are checked
/// instead.
pub fn finish_fetch(queues: &mut Vec<TaskQueue>, worker: usize, result: Stolen) -> (fetch: Fetch)
    requires
        worker < old(queues)@.len(),
    ensures
        final(queues)@.len() == old(queues)@.len(),
        finished(
            queue_tasks(old(queues)@),
            worker as int,
            result,
            queue_tasks(final(queues)@),
            fetch,
        ),
{
    match result {
        Stolen::Success => (),
        Stolen::Empty => steal(queues, worker),
        Stolen::Retry => {
            return Fetch::Retry;
        },
    }
    pop(queues, worker)
}

/// Finds a task for `worker`: in its own queue, else in the injector, else in
/// the queues of the other workers.
pub fn get_task(queues: &mut Vec<TaskQueue>, worker: usize, injector: &mut TaskInjector) -> (fetch:
    Fetch)
    requires
        worker < old(queues)@.len(),
    ensures
        final(queues)@.len() == old(queues)@.len(),
        fetch_outcome(
            old(injector)@,
            queue_tasks(old(queues)@),
            worker as int,
            final(injector)@,
            queue_tasks(final(queues)@),
            fetch,
        ),
{
    let ghost before = queue_tasks(queues@);
    let ghost pending = injector@;
    if let Fetch::Task(task) = pop(queues, worker) {
        return Fetch::Task(task);
    }
    // Then the injector is checked, if it holds any task.
    let mut result = Stolen::Empty;
    if !injector.is_empty() {
        result = injector.steal_batch(&mut queues[worker]);
        let mut attempts: usize = 0;
        while matches!(result, Stolen::Retry) && attempts < usize::MAX
            invariant
                worker < queues@.len(),
                queues@.len() == before.len(),
                result is Empty <==> pending.len() == 0,
                result !is Success ==> injector@ == pending && queue_tasks(queues@) == before,
                result is Success ==> some_moved(
                    pending,
                    injector@,
                    before[worker as int],
                    queues@[worker as int]@,
                ) && queue_tasks(queues@) == before.update(worker as int, queues@[worker as int]@),
            decreases usize::MAX - attempts,
        {
            result = injector.steal_batch(&mut queues[worker]);
            attempts += 1;
        }
    }
    let ghost taken = queue_tasks(queues@);
    let fetch = finish_fetch(queues, worker, result);
    proof {
        let after = queue_tasks(queues@);
        let own = worker as int;
        if result is Success {
            let count = choose|count: int|
                batch_moved(pending, injector@, before[own], taken[own], count);
            assert(taken[own] =~= pending.take(count));
            assert(after[own] =~= pending.subrange(1, count));
            assert(took(pending, count, fetch, after[own]));
            assert(after =~= before.update(own, pending.subrange(1, count)));
        } else if result is Empty {
            let held = choose|held: Seq<Seq<usize>>| #[trigger]
                steal_outcome(taken, own, held) && popped(held, own, after, fetch);
            if all_idle(before) {
                assert(after =~= before);
            } else {
                let victim = lemma_victim(before);
                let count = choose|count: int|
                    batch_moved(before[victim], held[victim], before[own], held[own], count);
                assert(held[own] =~= before[victim].take(count));
                assert(after[own] =~= before[victim].subrange(1, count));
                assert(took(before[victim], count, fetch, after[own]));
                assert(after =~= before.update(victim, before[victim].skip(count)).update(
                    own,
                    before[victim].subrange(1, count),
                ));
            }
        }
    }
    fetch
}

/// Where some queue holds a task, one of them is the first.
pub proof fn lemma_victim(queues: Seq<Seq<usize>>) -> (victim: int)
    requires
        !all_idle(queues),
    ensures
        is_victim(queues, victim),
{
    let some = choose|i: int| 0 <= i < queues.len() && (#[trigger] queues[i]).len() > 0;
    lemma_first_up_to(queues, some)
}

/// The first queue that holds a task lies no higher than `some`, which does.
proof fn lemma_first_up_to(queues: Seq<Seq<usize>>, some: int) -> (victim: int)
    requires
        0 <= some < queues.len(),
        queues[some].len() > 0,
    ensures
        is_victim(queues, victim),
    decreases some,
{
    if exists|i: int| 0 <= i < some && (#[trigger] queues[i]).len() > 0 {
        let lower = choose|i: int| 0 <= i < some && (#[trigger] queues[i]).len() > 0;
        lemma_first_up_to(queues, lower)
    } else {
        some
    }
}

} // verus!
