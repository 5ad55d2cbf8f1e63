//! An executor whose threads share one injector with all other executors.
pub mod task;

use crate::cpus::num_cpus;
use crate::queues::{Stolen, TaskInjector, TaskQueue};
use crate::thread_pool::effects::{
    law_search_takes_the_oldest, law_search_without_a_find_changes_nothing,
};
use crate::thread_pool::laws::{
    law_fetch_conserves_tasks, lemma_fetch_fills_only_own, waiting,
};
use crate::thread_pool::worker::{fetch_outcome, get_task, queue_tasks, Fetch};
use vstd::prelude::*;

verus! {

/// Where a thread of an executor stands.
#[derive(Clone, Copy, Debug, PartialEq, Eq, Structural)]
pub enum Phase {
    /// It looks for a task.
    Searching,
    /// It found no task and waits for one.
    Waiting,
    /// It has ended.
    Exited,
}

/// What a thread of an executor is to do next.
#[derive(Clone, Copy, Debug, PartialEq, Eq, Structural)]
pub enum Action {
    /// Take the next step at once.
    Proceed,
    /// Poll the task unless it is complete, then take the next step.
    Poll(usize),
    /// Begin to wait for a task, with a backoff that has not snoozed yet.
    Idle,
    /// Snooze, then take the next step.
    Snooze,
    /// End, and give up the task that was found, if there is one.
    Exit(Option<usize>),
}

/// The executor. This is the part of the thread pool that decides which thread
/// executes which task. Tasks are known to it by number. The injector is a
/// queue that is shared with other executors, and is used for spawning tasks.
pub struct Executor {
    queues: Vec<TaskQueue>,
    phases: Vec<Phase>,
    shutdown: bool,
}

/// The state of an executor.
#[verifier::ext_equal]
pub struct ExecutorView {
    /// The tasks that each thread has taken.
    pub queues: Seq<Seq<usize>>,
    /// Where each thread stands.
    pub phases: Seq<Phase>,
    /// The threads have been told to shut down.
    pub shutdown: bool,
}

impl ExecutorView {
    /// Each thread has a queue.
    pub open spec fn wf(self) -> bool {
        self.queues.len() == self.phases.len() && self.phases.len() > 0
    }

    /// Thread `w` has moved to another place.
    pub open spec fn entered(self, w: int, phase: Phase) -> ExecutorView {
        ExecutorView { phases: self.phases.update(w, phase), ..self }
    }

    /// What thread `w` does when its search for a task has come to this: what
    /// becomes of the executor, and what the thread is to do.
    pub open spec fn followed(self, w: int, fetch: Fetch) -> (ExecutorView, Action) {
        if self.shutdown {
            (
                self.entered(w, Phase::Exited),
                Action::Exit(
                    match fetch {
                        Fetch::Task(task) => Some(task),
                        _ => None,
                    },
                ),
            )
        } else {
            match fetch {
                Fetch::Task(task) => (self, Action::Poll(task)),
                Fetch::Empty => (self.entered(w, Phase::Waiting), Action::Idle),
                Fetch::Retry => (self, Action::Proceed),
            }
        }
    }

    /// One step of thread `w`: what becomes of the executor and of the
    /// injector, and what the thread is to do.
    pub open spec fn stepped(
        self,
        w: int,
        injector: Seq<usize>,
        after: ExecutorView,
        injector_after: Seq<usize>,
        action: Action,
    ) -> bool {
        match self.phases[w] {
            Phase::Searching => exists|fetch: Fetch, queues: Seq<Seq<usize>>| #[trigger]
                fetch_outcome(injector, self.queues, w, injector_after, queues, fetch) && (
                after,
                action,
            ) == (ExecutorView { queues, ..self }).followed(w, fetch),
            Phase::Waiting => injector_after == injector && if self.shutdown {
                action == Action::Exit(None) && after == self.entered(w, Phase::Exited)
            } else if injector.len() > 0 {
                action is Proceed && after == self.entered(w, Phase::Searching)
            } else {
                action is Snooze && after == self
            },
            Phase::Exited => injector_after == injector && after == self && action == Action::Exit(
                None,
            ),
        }
    }
}

/// An executor of `count` threads that has just been created.
pub open spec fn initial_executor(count: nat) -> ExecutorView {
    ExecutorView {
        queues: Seq::new(count, |w: int| Seq::empty()),
        phases: Seq::new(count, |w: int| Phase::Searching),
        shutdown: false,
    }
}

/// What these queues hold, one after the other.
pub open spec fn joined(queues: Seq<Seq<usize>>) -> Seq<usize>
    decreases queues.len(),
{
    if queues.len() == 0 {
        Seq::empty()
    } else {
        joined(queues.drop_last()) + queues.last()
    }
}

impl View for Executor {
    type V = ExecutorView;

    closed spec fn view(&self) -> ExecutorView {
        ExecutorView {
            queues: queue_tasks(self.queues@),
            phases: self.phases@,
            shutdown: self.shutdown,
        }
    }
}

impl Executor {
    /// Creates an executor with `count` threads, or with as many as the machine
    /// has logical processors, as [`Executor::with_cpus`] does for that number
    /// of them.
    pub fn new(count: Option<usize>) -> (executor: Executor)
        requires
            count != Some(0usize),
        ensures
            executor@.wf(),
            executor@ == initial_executor(executor@.phases.len()),
            count matches Some(count) ==> executor@.phases.len() == count,
    {
        Executor::with_cpus(count, num_cpus())
    }

    /// Creates an executor with `count` threads, or with `cpus` where no count
    /// is given.
    pub fn with_cpus(count: Option<usize>, cpus: usize) -> (executor: Executor)
        requires
            count != Some(0usize),
            cpus > 0,
        ensures
            executor@.wf(),
            executor@ == initial_executor(
                if count is Some {
                    count->0 as nat
                } else {
                    cpus as nat
                },
            ),
    {
        let threads = match count {
            Some(count) => count,
            None => cpus,
        };
        let mut queues: Vec<TaskQueue> = Vec::new();
        let mut phases: Vec<Phase> = Vec::new();
        let mut w: usize = 0;
        while w < threads
            invariant
                w <= threads,
                queues@.len() == w,
                phases@.len() == w,
                forall|i: int| 0 <= i < w ==> (#[trigger] queues@[i])@ == Seq::<usize>::empty(),
                forall|i: int| 0 <= i < w ==> phases@[i] == Phase::Searching,
            decreases threads - w,
        {
            queues.push(TaskQueue::new_fifo());
            phases.push(Phase::Searching);
            w += 1;
        }
        let executor = Executor { queues, phases, shutdown: false };
        proof {
            let initial = initial_executor(threads as nat);
            assert(executor@.queues =~= initial.queues);
            assert(executor@.phases =~= initial.phases);
        }
        executor
    }

    /// How many threads there are.
    pub fn count(&self) -> (count: usize)
        ensures
            count == self@.phases.len(),
    {
        self.phases.len()
    }

    /// Spawns a task: puts it into the injector.
    pub fn spawn(&self, injector: &mut TaskInjector, task: usize)
        ensures
            final(injector)@ == old(injector)@.push(task),
    {
        injector.push(task)
    }

    /// Decides what thread `w` does, by what its search for a task has come to.
    pub fn follow(&mut self, w: usize, fetch: Fetch) -> (action: Action)
        requires
            old(self)@.wf(),
            w < old(self)@.phases.len(),
        ensures
            final(self)@.wf(),
            (final(self)@, action) == old(self)@.followed(w as int, fetch),
    {
        if self.shutdown {
            self.phases[w] = Phase::Exited;
            return match fetch {
                Fetch::Task(task) => Action::Exit(Some(task)),
                Fetch::Empty => Action::Exit(None),
                Fetch::Retry => Action::Exit(None),
            };
        }
        match fetch {
            Fetch::Task(task) => Action::Poll(task),
            Fetch::Empty => {
                self.phases[w] = Phase::Waiting;
                Action::Idle
            },
            Fetch::Retry => Action::Proceed,
        }
    }

    /// Takes the next step of thread `w` and says what it is to do. The queue
    /// of the thread is checked first, then the injector, then the queues of
    /// the other threads. Before a task is run, and before each snooze, the
    /// thread checks whether it has been told to shut down.
    pub fn step(&mut self, w: usize, injector: &mut TaskInjector) -> (action: Action)
        requires
            old(self)@.wf(),
            w < old(self)@.phases.len(),
        ensures
            final(self)@.wf(),
            old(self)@.stepped(w as int, old(injector)@, final(self)@, final(injector)@, action),
    {
        match self.phases[w] {
            Phase::Searching => {
                let fetch = get_task(&mut self.queues, w, injector);
                let ghost queues = queue_tasks(self.queues@);
                assert(fetch_outcome(
                    old(injector)@,
                    old(self)@.queues,
                    w as int,
                    injector@,
                    queues,
                    fetch,
                ));
                assert(self@ == (ExecutorView { queues, ..old(self)@ }));
                self.follow(w, fetch)
            },
            Phase::Waiting => {
                if self.shutdown {
                    self.phases[w] = Phase::Exited;
                    Action::Exit(None)
                } else if !injector.is_empty() {
                    self.phases[w] = Phase::Searching;
                    Action::Proceed
                } else {
                    Action::Snooze
                }
            },
            Phase::Exited => Action::Exit(None),
        }
    }

    /// Tells the threads to shut down, and takes the tasks out of the injector.
    /// Returns them. An attempt to take a task may have to be made again, and
    /// the number of attempts is bounded, so there may be tasks left in the
    /// injector.
    pub fn shut_down(&mut self, injector: &mut TaskInjector) -> (tasks: Vec<usize>)
        ensures
            final(self)@ == (ExecutorView { shutdown: true, ..old(self)@ }),
            tasks@ + final(injector)@ == old(injector)@,
    {
        self.shutdown = true;
        let mut tasks: Vec<usize> = Vec::new();
        let mut attempts: usize = 0;
        assert(tasks@ + injector@ =~= old(injector)@);
        while attempts < usize::MAX
            invariant
                tasks@ + injector@ == old(injector)@,
                self@ == (ExecutorView { shutdown: true, ..old(self)@ }),
            decreases usize::MAX - attempts,
        {
            let ghost held = tasks@;
            let ghost pending = injector@;
            let again = drained(&mut tasks, injector.steal());
            assert(tasks@ + injector@ =~= held + pending);
            if !again {
                return tasks;
            }
            attempts += 1;
        }
        tasks
    }

    /// Takes out the tasks that the threads have taken and not run, once they
    /// have ended.
    pub fn abandon(&mut self) -> (tasks: Vec<usize>)
        requires
            old(self)@.wf(),
        ensures
            tasks@ == joined(old(self)@.queues),
            final(self)@ == (ExecutorView {
                queues: Seq::new(old(self)@.queues.len(), |w: int| Seq::empty()),
                ..old(self)@
            }),
    {
        let ghost before = self@.queues;
        let count: usize = self.queues.len();
        let mut tasks: Vec<usize> = Vec::new();
        let mut w: usize = 0;
        assert(before.take(0) =~= Seq::<Seq<usize>>::empty());
        while w < count
            invariant
                w <= count,
                count == before.len(),
                count == self.queues@.len(),
                self.phases == old(self).phases,
                self.shutdown == old(self).shutdown,
                tasks@ == joined(before.take(w as int)),
                forall|i: int| 0 <= i < w ==> (#[trigger] self.queues@[i])@.len() == 0,
                forall|i: int| w <= i < count ==> (#[trigger] self.queues@[i])@ == before[i],
            decreases count - w,
        {
            let ghost earlier = tasks@;
            assert(earlier + self.queues@[w as int]@ =~= earlier + before[w as int]);
            loop
                invariant
                    w < count,
                    count == before.len(),
                    count == self.queues@.len(),
                    self.phases == old(self).phases,
                    self.shutdown == old(self).shutdown,
                    tasks@ + self.queues@[w as int]@ == earlier + before[w as int],
                    forall|i: int| 0 <= i < w ==> (#[trigger] self.queues@[i])@.len() == 0,
                    forall|i: int| w < i < count ==> (#[trigger] self.queues@[i])@ == before[i],
                ensures
                    self.queues@[w as int]@.len() == 0,
                decreases self.queues@[w as int]@.len(),
            {
                let ghost held = tasks@;
                let ghost own = self.queues@[w as int]@;
                match self.queues[w].pop() {
                    Some(task) => {
                        tasks.push(task);
                        assert(tasks@ + self.queues@[w as int]@ =~= held + own);
                    },
                    None => {
                        break;
                    },
                }
            }
            assert(tasks@ =~= earlier + before[w as int]);
            w += 1;
            assert(before.take(w as int).drop_last() =~= before.take(w - 1));
        }
        proof {
            assert(before.take(w as int) =~= before);
            assert(self@.queues =~= Seq::new(before.len(), |w: int| Seq::<usize>::empty())) by {
                assert forall|i: int| 0 <= i < before.len() implies self@.queues[i] == Seq::<
                    usize,
                >::empty() by {
                    assert(self.queues@[i]@ =~= Seq::<usize>::empty());
                }
            }
        }
        tasks
    }
}

/// Keeps a task that was taken out of the injector. Tells whether there may be
/// more: the injector is drained when there was nothing to take.
pub fn drained(tasks: &mut Vec<usize>, stolen: (Stolen, Option<usize>)) -> (again: bool)
    requires
        stolen.1 is Some <==> stolen.0 is Success,
    ensures
        stolen.0 is Success ==> final(tasks)@ == old(tasks)@.push(stolen.1->0),
        !(stolen.0 is Success) ==> final(tasks)@ == old(tasks)@,
        again == !(stolen.0 is Empty),
{
    if let Some(task) = stolen.1 {
        tasks.push(task);
    }
    !matches!(stolen.0, Stolen::Empty)
}

/// A step of a thread loses no task and adds none: a task that is handed out to
/// be polled, or given up, waits once less than before, and nothing else
/// changes.
pub proof fn law_stepped_conserves_tasks(
    executor: ExecutorView,
    w: int,
    injector: Seq<usize>,
    after: ExecutorView,
    injector_after: Seq<usize>,
    action: Action,
    task: usize,
)
    requires
        executor.wf(),
        0 <= w < executor.phases.len(),
        executor.stepped(w, injector, after, injector_after, action),
    ensures
        waiting(injector, executor.queues, task) == waiting(injector_after, after.queues, task)
            + if action == Action::Poll(task) || action == Action::Exit(Some(task)) {
            1nat
        } else {
            0nat
        },
{
    if executor.phases[w] is Searching {
        assert forall|fetch: Fetch, queues: Seq<Seq<usize>>| #[trigger]
            fetch_outcome(
                injector,
                executor.queues,
                w,
                injector_after,
                queues,
                fetch,
            ) implies waiting(injector, executor.queues, task) == waiting(
            injector_after,
            queues,
            task,
        ) + if fetch == Fetch::Task(task) {
            1nat
        } else {
            0nat
        } by {
            law_fetch_conserves_tasks(
                injector,
                executor.queues,
                w,
                injector_after,
                queues,
                fetch,
                task,
            );
        }
    }
}

/// Somebody will see to every task that a thread has taken: who has tasks in
/// their queue is looking for tasks.
pub open spec fn attended(executor: ExecutorView) -> bool {
    forall|w: int|
        0 <= w < executor.queues.len() && (#[trigger] executor.queues[w]).len() > 0
            ==> executor.phases[w] is Searching
}

/// In a new executor there is no task to see to.
pub proof fn law_initial_attended(count: nat)
    ensures
        attended(initial_executor(count)),
{
}

/// No step strands a task, as long as the executor has not been shut down: who
/// has taken tasks goes on until none is left, and who waits looks for tasks as
/// soon as the injector holds one.
pub proof fn law_stepped_attended(
    executor: ExecutorView,
    w: int,
    injector: Seq<usize>,
    after: ExecutorView,
    injector_after: Seq<usize>,
    action: Action,
)
    requires
        executor.wf(),
        0 <= w < executor.phases.len(),
        !executor.shutdown,
        attended(executor),
        executor.stepped(w, injector, after, injector_after, action),
    ensures
        attended(after),
        injector.len() > 0 && !(executor.phases[w] is Exited) ==> after.phases[w] is Searching,
{
    if executor.phases[w] is Searching {
        let (fetch, queues) = choose|fetch: Fetch, queues: Seq<Seq<usize>>| #[trigger]
            fetch_outcome(injector, executor.queues, w, injector_after, queues, fetch) && (
            after,
            action,
        ) == (ExecutorView { queues, ..executor }).followed(w, fetch);
        lemma_fetch_fills_only_own(
            injector,
            executor.queues,
            w,
            injector_after,
            queues,
            fetch,
        );
        assert forall|v: int|
            0 <= v < after.queues.len() && (#[trigger] after.queues[v]).len()
                > 0 implies after.phases[v] is Searching by {
            if v != w {
                assert(executor.queues[v].len() > 0);
            }
        }
    }
}

/// A thread that has been told to shut down ends with its next step, and polls
/// nothing more.
pub proof fn law_shutdown_ends_a_thread(
    executor: ExecutorView,
    w: int,
    injector: Seq<usize>,
    after: ExecutorView,
    injector_after: Seq<usize>,
    action: Action,
)
    requires
        0 <= w < executor.phases.len(),
        executor.shutdown,
        executor.stepped(w, injector, after, injector_after, action),
    ensures
        action is Exit,
        after.shutdown,
{
}

/// A new executor has no tasks, and each of its threads looks for some.
pub proof fn law_new_executor_searches(count: nat, w: int)
    requires
        0 <= w < count,
    ensures
        initial_executor(count).queues.len() == count,
        initial_executor(count).queues[w].len() == 0,
        initial_executor(count).phases.len() == count,
        initial_executor(count).phases[w] is Searching,
        !initial_executor(count).shutdown,
{
}

/// A thread polls the task that it has found, unless the executor has been shut
/// down: the thread then ends, and gives the task up if it has found one. It
/// waits if it has found none, and searches again if it has to.
pub proof fn law_found_task_is_polled(executor: ExecutorView, w: int, fetch: Fetch)
    requires
        0 <= w < executor.phases.len(),
    ensures
        executor.shutdown <==> executor.followed(w, fetch).1 is Exit,
        executor.shutdown ==> executor.followed(w, fetch).0.phases[w] is Exited,
        fetch matches Fetch::Task(task) ==> executor.followed(w, fetch).1 == if executor.shutdown {
            Action::Exit(Some(task))
        } else {
            Action::Poll(task)
        },
        executor.shutdown && !(fetch is Task) ==> executor.followed(w, fetch).1 == Action::Exit(
            None,
        ),
        !executor.shutdown && fetch is Empty ==> executor.followed(w, fetch).1 is Idle
            && executor.followed(w, fetch).0.phases[w] is Waiting,
        !executor.shutdown && fetch is Retry ==> executor.followed(w, fetch).1 is Proceed,
        !executor.shutdown && !(fetch is Empty) ==> executor.followed(w, fetch).0 == executor,
        executor.followed(w, fetch).0.queues == executor.queues,
        executor.followed(w, fetch).0.shutdown == executor.shutdown,
        executor.followed(w, fetch).0.phases.len() == executor.phases.len(),
        forall|v: int|
            0 <= v < executor.phases.len() && v != w ==> (#[trigger] executor.followed(
                w,
                fetch,
            ).0.phases[v]) == executor.phases[v],
{
}

/// A step of a thread touches no other thread, and shuts nothing down.
pub proof fn law_step_touches_no_other_thread(
    executor: ExecutorView,
    w: int,
    injector: Seq<usize>,
    after: ExecutorView,
    injector_after: Seq<usize>,
    action: Action,
)
    requires
        executor.wf(),
        0 <= w < executor.phases.len(),
        executor.stepped(w, injector, after, injector_after, action),
    ensures
        after.shutdown == executor.shutdown,
        after.phases.len() == executor.phases.len(),
        forall|v: int|
            0 <= v < executor.phases.len() && v != w ==> (#[trigger] after.phases[v])
                == executor.phases[v],
        action is Exit <==> after.phases[w] is Exited,
        executor.phases[w] is Exited ==> action == Action::Exit(None) && after == executor
            && injector_after == injector,
        !executor.shutdown && !(executor.phases[w] is Exited) ==> !(action is Exit),
{
}

/// A thread that waits moves no task. It ends if the executor has been shut
/// down, looks for tasks if the injector holds one, and snoozes otherwise.
pub proof fn law_waiting_thread_looks_again(
    executor: ExecutorView,
    w: int,
    injector: Seq<usize>,
    after: ExecutorView,
    injector_after: Seq<usize>,
    action: Action,
)
    requires
        executor.wf(),
        0 <= w < executor.phases.len(),
        executor.phases[w] is Waiting,
        executor.stepped(w, injector, after, injector_after, action),
    ensures
        injector_after == injector,
        after.queues == executor.queues,
        executor.shutdown ==> action == Action::Exit(None),
        !executor.shutdown && injector.len() > 0 ==> action is Proceed
            && after.phases[w] is Searching,
        !executor.shutdown && injector.len() == 0 ==> action is Snooze && after == executor,
{
}

/// A thread that looks for tasks hands out the oldest one that it may take: of
/// its own queue, else of the injector, else of the first queue that holds one.
/// Those that come along go into its own queue in the same order. It begins to
/// wait only where there is no task at all. Returns the queue that was stolen
/// from, if one was.
pub proof fn law_searching_thread_takes_the_oldest(
    executor: ExecutorView,
    w: int,
    injector: Seq<usize>,
    after: ExecutorView,
    injector_after: Seq<usize>,
    action: Action,
) -> (from: int)
    requires
        executor.wf(),
        0 <= w < executor.phases.len(),
        executor.phases[w] is Searching,
        executor.stepped(w, injector, after, injector_after, action),
    ensures
        !executor.shutdown ==> action is Poll || action is Idle || action is Proceed,
        action is Idle ==> after.phases[w] is Waiting,
        action is Poll || action is Proceed ==> after.phases[w] is Searching,
        !executor.shutdown ==> (action is Idle <==> injector.len() == 0 && forall|i: int|
            0 <= i < executor.queues.len() ==> (#[trigger] executor.queues[i]).len() == 0),
        action is Idle || action is Proceed || action == Action::Exit(None) ==> injector_after
            == injector && after.queues == executor.queues,
        action is Proceed ==> injector.len() > 0 && executor.queues[w].len() == 0,
        action is Poll || (action is Exit && action->Exit_0 is Some) ==> {
            let task = match action {
                Action::Poll(task) => task,
                Action::Exit(Some(task)) => task,
                _ => 0,
            };
            &&& executor.queues[w].len() > 0 ==> {
                &&& task == executor.queues[w][0]
                &&& after.queues[w] == executor.queues[w].skip(1)
                &&& injector_after == injector
                &&& forall|i: int|
                    0 <= i < executor.queues.len() && i != w ==> (#[trigger] after.queues[i])
                        == executor.queues[i]
            }
            &&& executor.queues[w].len() == 0 && injector.len() > 0 ==> {
                &&& task == injector[0]
                &&& after.queues[w] + injector_after == injector.skip(1)
                &&& forall|i: int|
                    0 <= i < executor.queues.len() && i != w ==> (#[trigger] after.queues[i])
                        == executor.queues[i]
            }
            &&& executor.queues[w].len() == 0 && injector.len() == 0 ==> {
                &&& 0 <= from < executor.queues.len()
                &&& from != w
                &&& forall|i: int| 0 <= i < from ==> (#[trigger] executor.queues[i]).len() == 0
                &&& executor.queues[from].len() > 0
                &&& task == executor.queues[from][0]
                &&& after.queues[w] + after.queues[from] == executor.queues[from].skip(1)
                &&& injector_after == injector
                &&& forall|i: int|
                    0 <= i < executor.queues.len() && i != w && i != from ==> (
                    #[trigger] after.queues[i]) == executor.queues[i]
            }
        },
{
    let (fetch, queues) = choose|fetch: Fetch, queues: Seq<Seq<usize>>| #[trigger]
        fetch_outcome(injector, executor.queues, w, injector_after, queues, fetch) && (
        after,
        action,
    ) == (ExecutorView { queues, ..executor }).followed(w, fetch);
    law_search_without_a_find_changes_nothing(
        injector,
        executor.queues,
        w,
        injector_after,
        queues,
        fetch,
    );
    law_found_task_is_polled(ExecutorView { queues, ..executor }, w, fetch);
    match fetch {
        Fetch::Task(task) => law_search_takes_the_oldest(
            injector,
            executor.queues,
            w,
            injector_after,
            queues,
            fetch,
            task,
        ),
        _ => w,
    }
}

/// Joined queues hold what the one part holds and then what the other holds; one
/// queue alone is what it is.
pub proof fn law_queues_are_joined_in_order(
    queues: Seq<Seq<usize>>,
    others: Seq<Seq<usize>>,
    queue: Seq<usize>,
)
    ensures
        joined(queues + others) == joined(queues) + joined(others),
        joined(seq![queue]) == queue,
    decreases others.len(),
{
    assert(seq![queue].drop_last() =~= Seq::<Seq<usize>>::empty());
    assert(joined(Seq::<Seq<usize>>::empty()) =~= Seq::<usize>::empty());
    assert(joined(seq![queue]) =~= queue);
    if others.len() == 0 {
        assert(queues + others =~= queues);
        assert(joined(queues) + joined(others) =~= joined(queues));
    } else {
        law_queues_are_joined_in_order(queues, others.drop_last(), queue);
        assert((queues + others).drop_last() =~= queues + others.drop_last());
        assert(joined(queues + others) =~= joined(queues) + joined(others));
    }
}

} // verus!
