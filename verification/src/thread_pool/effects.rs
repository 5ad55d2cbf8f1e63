//! What each operation changes in a pool, and what it leaves alone.
use crate::queues::{batch_moved, is_capacity, some_moved, Stolen, TaskQueue};
use crate::thread_pool::laws::{law_stepped_pending, open_for_tasks, pending};
use crate::thread_pool::worker::{
    all_idle, fetch_outcome, finished, is_victim, lemma_victim, popped, queue_tasks, steal_outcome,
    took, Action, Fetch, Phase, WorkerView, IDLE, NEW_TASK, RUNNING, SHUTDOWN_IDLE, SHUTDOWN_NOW,
};
use crate::thread_pool::{initial_pool, SharedView};
use vstd::prelude::*;

verus! {

/// Every count of workers whose buffer of slots can be allocated will do.
pub proof fn law_every_allocatable_count_will_do(count: usize)
    ensures
        is_capacity(count) <==> 1 <= count && 16 * count <= isize::MAX,
{
}

/// A new pool has no tasks, and each of its workers stands once on the sleep
/// queue, in the order of their numbers, and has been told nothing.
pub proof fn law_new_pool_sleeps(count: nat, w: int)
    requires
        0 <= w < count <= usize::MAX,
    ensures
        initial_pool(count).injector.len() == 0,
        initial_pool(count).queues.len() == count,
        initial_pool(count).queues[w].len() == 0,
        initial_pool(count).workers.len() == count,
        initial_pool(count).workers[w].state == RUNNING,
        initial_pool(count).workers[w].phase is Start,
        !initial_pool(count).workers[w].notified,
        initial_pool(count).sleeping.len() == count,
        initial_pool(count).sleeping[w] == w,
{
}

/// A new task goes behind those that are in the injector; no other task moves.
pub proof fn law_new_task_goes_to_the_back(pool: SharedView, task: usize)
    ensures
        pool.submitted(task).injector.len() == pool.injector.len() + 1,
        pool.submitted(task).injector.last() == task,
        pool.submitted(task).injector.drop_last() == pool.injector,
        pool.submitted(task).queues == pool.queues,
{
    assert(pool.submitted(task).injector.drop_last() =~= pool.injector);
}

/// A new task calls the worker that has been on the sleep queue for longest, if
/// there is one, and no other: it is notified and told of the task, unless it
/// has been told to shut down; its thread stays where it is.
pub proof fn law_new_task_calls_the_first_sleeper(pool: SharedView, task: usize, w: int)
    requires
        pool.wf(),
        0 <= w < pool.workers.len(),
    ensures
        pool.sleeping.len() == 0 ==> pool.next_sleeper() is None && pool.submitted(
            task,
        ).sleeping.len() == 0,
        pool.sleeping.len() > 0 ==> pool.next_sleeper() == Some(pool.sleeping[0]) && pool.submitted(
            task,
        ).sleeping == pool.sleeping.skip(1),
        pool.submitted(task).workers.len() == pool.workers.len(),
        pool.sleeping.len() > 0 && pool.sleeping[0] == w ==> {
            let called = pool.submitted(task).workers[w];
            &&& called.notified
            &&& called.phase == pool.workers[w].phase
            &&& called.state == NEW_TASK || called.state == pool.workers[w].state
            &&& called.state != NEW_TASK ==> called.state == SHUTDOWN_IDLE || called.state
                == SHUTDOWN_NOW
            &&& pool.workers[w].state == SHUTDOWN_IDLE || pool.workers[w].state == SHUTDOWN_NOW
                ==> called.state == pool.workers[w].state
        },
        pool.sleeping.len() == 0 || pool.sleeping[0] != w ==> pool.submitted(task).workers[w]
            == pool.workers[w],
{
    if pool.sleeping.len() > 0 {
        assert(pool.submitted(task).sleeping =~= pool.sleeping.skip(1));
    }
}

/// A shutdown tells every worker that has not ended, whichever way the pool is
/// shut down: each of them holds what was told and has been notified, and its
/// thread stays where it is. Nothing else changes.
pub proof fn law_shutdown_tells_every_worker(pool: SharedView, shutdown: usize, w: int)
    requires
        0 <= w < pool.workers.len(),
    ensures
        pool.told(shutdown).workers.len() == pool.workers.len(),
        pool.told(shutdown).workers[w].phase == pool.workers[w].phase,
        !(pool.workers[w].phase is Exited) ==> pool.told(shutdown).workers[w].state == shutdown
            && pool.told(shutdown).workers[w].notified,
        pool.workers[w].phase is Exited ==> pool.told(shutdown).workers[w] == pool.workers[w],
        pool.told(shutdown).injector == pool.injector,
        pool.told(shutdown).sleeping == pool.sleeping,
        pool.told(shutdown).queues == pool.queues,
{
}

/// Only a worker that has nothing to do waits: one that says of itself that it
/// is running, has been told nothing and has not been notified. It is idle from
/// then on.
pub proof fn law_worker_waits_only_untold(worker: WorkerView, work: bool)
    ensures
        worker.cycled(work).1 is Wait <==> worker.phase is Start && worker.state == RUNNING
            && !worker.notified,
        worker.cycled(work).1 is Wait ==> worker.cycled(work).0.phase is Parked && worker.cycled(
            work,
        ).0.state == IDLE && !worker.cycled(work).0.notified,
{
}

/// On its way to look at what it has been told, a worker does not lose it: only
/// a worker that said of itself that it is running becomes idle. Parking uses a
/// notification up.
pub proof fn law_worker_keeps_what_it_was_told(worker: WorkerView, work: bool)
    requires
        worker.phase is Start || worker.phase is Parked,
        !(worker.cycled(work).1 is Wait),
    ensures
        worker.cycled(work).1 is Proceed,
        worker.cycled(work).0.phase is Waking,
        worker.phase is Start && worker.state == RUNNING ==> worker.cycled(work).0.state == IDLE
            && !worker.cycled(work).0.notified,
        worker.phase is Start && worker.state != RUNNING ==> worker.cycled(work).0.state
            == worker.state && worker.cycled(work).0.notified == worker.notified,
        worker.phase is Parked ==> worker.cycled(work).0.state == worker.state && !worker.cycled(
            work,
        ).0.notified,
{
}

/// A worker that looks at what it has been told does what it was told: it looks
/// for tasks if there is a new one, or one is left before it may shut down; it
/// ends if it is to shut down otherwise; and it goes back to sleep if it has
/// been told nothing.
pub proof fn law_worker_does_what_it_was_told(worker: WorkerView, work: bool)
    requires
        worker.phase is Waking,
        worker.state != RUNNING,
        worker.state <= SHUTDOWN_NOW,
    ensures
        worker.cycled(work).0.notified == worker.notified,
        worker.state == NEW_TASK ==> worker.cycled(work).0.phase is Fetching && worker.cycled(
            work,
        ).0.state == RUNNING,
        worker.state == IDLE ==> worker.cycled(work).0.phase is Start && worker.cycled(
            work,
        ).0.state == RUNNING,
        worker.state == SHUTDOWN_IDLE && work ==> worker.cycled(work).0.phase is Fetching
            && worker.cycled(work).0.state == SHUTDOWN_IDLE,
        worker.state == SHUTDOWN_IDLE && !work ==> worker.cycled(work).0.phase is Exited,
        worker.state == SHUTDOWN_NOW ==> worker.cycled(work).0.phase is Exited,
        worker.cycled(work).0.phase is Exited <==> worker.cycled(work).1 is Exit,
        !(worker.cycled(work).0.phase is Exited) ==> worker.cycled(work).1 is Proceed,
        worker.cycled(work).0.phase is Exited ==> worker.cycled(work).0.state == RUNNING,
{
}

/// A worker that has ended stays so.
pub proof fn law_ended_worker_stays_ended(worker: WorkerView, work: bool)
    requires
        worker.phase is Exited,
    ensures
        worker.cycled(work).0 == worker,
        worker.cycled(work).1 is Exit,
{
}

/// A batch that moves between queues keeps its order: put together again, the
/// two queues hold what they held, and the one that is taken from gives up its
/// oldest tasks, at least one of them and no more than a batch.
pub proof fn law_batch_keeps_the_order(
    from: Seq<usize>,
    from_after: Seq<usize>,
    to: Seq<usize>,
    to_after: Seq<usize>,
)
    requires
        some_moved(from, from_after, to, to_after),
    ensures
        to_after + from_after == to + from,
        to.len() < to_after.len() <= to.len() + 32,
{
    let count = choose|count: int| batch_moved(from, from_after, to, to_after, count);
    assert(to_after + from_after =~= to + from);
}

/// Where every queue below `v` is empty and `v` is not, `v` is the one that is
/// stolen from.
proof fn lemma_only_victim(queues: Seq<Seq<usize>>, v: int, victim: int)
    requires
        is_victim(queues, v),
        is_victim(queues, victim),
    ensures
        v == victim,
{
    if v < victim {
        assert(queues[v].len() == 0);
    }
    if victim < v {
        assert(queues[victim].len() == 0);
    }
}

/// Stealing takes from the first queue that holds a task, and from no other, and
/// keeps the order of the tasks. It does nothing where that is the worker's own
/// queue, or where there is no task.
pub proof fn law_steal_takes_from_the_first(
    queues: Seq<Seq<usize>>,
    worker: int,
    after: Seq<Seq<usize>>,
    first: int,
)
    requires
        0 <= worker < queues.len(),
        steal_outcome(queues, worker, after),
        0 <= first <= queues.len(),
        forall|i: int| 0 <= i < first ==> (#[trigger] queues[i]).len() == 0,
        first < queues.len() ==> queues[first].len() > 0,
    ensures
        after.len() == queues.len(),
        first == queues.len() || first == worker ==> after == queues,
        first < queues.len() && first != worker ==> {
            &&& after[worker] + after[first] == queues[worker] + queues[first]
            &&& queues[worker].len() < after[worker].len() <= queues[worker].len() + 32
            &&& forall|i: int|
                0 <= i < queues.len() && i != first && i != worker ==> (#[trigger] after[i])
                    == queues[i]
        },
{
    if first < queues.len() {
        assert(is_victim(queues, first));
        if first != worker {
            law_batch_keeps_the_order(
                queues[first],
                after[first],
                queues[worker],
                after[worker],
            );
        }
    } else {
        assert(all_idle(queues));
    }
}

/// A search ends as the injector said: it has to be made again and has changed
/// nothing; or it gives the oldest task of the worker's own queue, after tasks
/// have been stolen if the injector held none. It finds nothing only where there
/// is nothing.
pub proof fn law_search_ends_as_the_injector_said(
    queues: Seq<Seq<usize>>,
    worker: int,
    result: Stolen,
    after: Seq<Seq<usize>>,
    fetch: Fetch,
)
    requires
        0 <= worker < queues.len(),
        finished(queues, worker, result, after, fetch),
    ensures
        after.len() == queues.len(),
        result is Retry <==> fetch is Retry,
        result is Retry ==> after == queues,
        !(result is Retry) && queues[worker].len() > 0 && (result is Success || forall|i: int|
            0 <= i < worker ==> (#[trigger] queues[i]).len() == 0) ==> fetch == Fetch::Task(
            queues[worker][0],
        ) && after == queues.update(worker, queues[worker].skip(1)),
        result is Success && queues[worker].len() == 0 ==> fetch is Empty && after == queues,
        result is Empty ==> (fetch is Empty <==> forall|i: int|
            0 <= i < queues.len() ==> (#[trigger] queues[i]).len() == 0),
        fetch is Empty ==> after == queues,
{
    let own = queues[worker];
    if own.len() > 0 {
        assert(own.drop_first() =~= own.skip(1));
    }
    if result is Empty {
        let held = choose|held: Seq<Seq<usize>>| #[trigger]
            steal_outcome(queues, worker, held) && popped(held, worker, after, fetch);
        if all_idle(queues) {
        } else {
            let victim = lemma_victim(queues);
            law_steal_takes_from_the_first(queues, worker, held, victim);
            if own.len() > 0 && (forall|i: int|
                0 <= i < worker ==> (#[trigger] queues[i]).len() == 0) {
                assert(is_victim(queues, worker));
                lemma_only_victim(queues, worker, victim);
            }
        }
    }
}

/// A search takes the oldest task of the worker's own queue, if there is one;
/// else the oldest of the injector; else the oldest of the first queue that
/// holds one. What comes along with it goes into the worker's own queue, in the
/// same order, and no other queue is touched. Returns that first queue, where
/// one was stolen from.
pub proof fn law_search_takes_the_oldest(
    injector: Seq<usize>,
    queues: Seq<Seq<usize>>,
    w: int,
    injector_after: Seq<usize>,
    after: Seq<Seq<usize>>,
    fetch: Fetch,
    task: usize,
) -> (from: int)
    requires
        0 <= w < queues.len(),
        fetch_outcome(injector, queues, w, injector_after, after, fetch),
        fetch == Fetch::Task(task),
    ensures
        after.len() == queues.len(),
        queues[w].len() > 0 ==> {
            &&& task == queues[w][0]
            &&& after[w] == queues[w].skip(1)
            &&& injector_after == injector
            &&& forall|i: int|
                0 <= i < queues.len() && i != w ==> (#[trigger] after[i]) == queues[i]
        },
        queues[w].len() == 0 && injector.len() > 0 ==> {
            &&& task == injector[0]
            &&& after[w] + injector_after == injector.skip(1)
            &&& after[w].len() < 32
            &&& forall|i: int|
                0 <= i < queues.len() && i != w ==> (#[trigger] after[i]) == queues[i]
        },
        queues[w].len() == 0 && injector.len() == 0 ==> {
            &&& 0 <= from < queues.len()
            &&& from != w
            &&& queues[from].len() > 0
            &&& forall|i: int| 0 <= i < from ==> (#[trigger] queues[i]).len() == 0
            &&& task == queues[from][0]
            &&& after[w] + after[from] == queues[from].skip(1)
            &&& after[w].len() < 32
            &&& injector_after == injector
            &&& forall|i: int|
                0 <= i < queues.len() && i != w && i != from ==> (#[trigger] after[i])
                    == queues[i]
        },
{
    let own = queues[w];
    if own.len() > 0 {
        assert(own.drop_first() =~= own.skip(1));
        w
    } else if injector.len() > 0 {
        let count = choose|count: int| #[trigger]
            took(injector, count, fetch, after[w]) && injector_after == injector.skip(count)
                && after == queues.update(w, injector.subrange(1, count));
        assert(after[w] + injector_after =~= injector.skip(1));
        w
    } else {
        if all_idle(queues) {
            assert(false);
        }
        let (victim, count) = choose|victim: int, count: int|
            is_victim(queues, victim) && #[trigger] took(queues[victim], count, fetch, after[w])
                && injector_after == injector && after == queues.update(
                victim,
                queues[victim].skip(count),
            ).update(w, queues[victim].subrange(1, count));
        assert(after[w] + after[victim] =~= queues[victim].skip(1));
        victim
    }
}

/// A search that finds no task leaves everything as it is. It finds nothing only
/// where there is nothing at all, and has to be made again only where the
/// injector holds tasks and the worker's own queue none.
pub proof fn law_search_without_a_find_changes_nothing(
    injector: Seq<usize>,
    queues: Seq<Seq<usize>>,
    w: int,
    injector_after: Seq<usize>,
    after: Seq<Seq<usize>>,
    fetch: Fetch,
)
    requires
        0 <= w < queues.len(),
        fetch_outcome(injector, queues, w, injector_after, after, fetch),
    ensures
        !(fetch is Task) ==> injector_after == injector && after == queues,
        fetch is Empty <==> injector.len() == 0 && forall|i: int|
            0 <= i < queues.len() ==> (#[trigger] queues[i]).len() == 0,
        fetch is Retry ==> injector.len() > 0 && queues[w].len() == 0,
{
    if injector.len() == 0 && (forall|i: int|
        0 <= i < queues.len() ==> (#[trigger] queues[i]).len() == 0) {
        assert(queues[w].len() == 0);
        assert(all_idle(queues));
    }
}

/// A worker polls the task that it has found, unless it has been told to shut
/// down at once: only then does it give the task up, and stop running tasks. It
/// waits a little if it has found none, and searches again if it has to.
pub proof fn law_found_task_is_polled(pool: SharedView, w: int, fetch: Fetch)
    requires
        0 <= w < pool.workers.len(),
        pool.workers[w].busy(),
    ensures
        fetch matches Fetch::Task(task) ==> pool.followed(w, fetch).1 == if pool.workers[w].state
            != SHUTDOWN_NOW {
            Action::Poll(task)
        } else {
            Action::Discard(task)
        },
        fetch is Empty ==> pool.followed(w, fetch).1 is Idle,
        fetch is Retry ==> pool.followed(w, fetch).1 is Proceed,
        pool.followed(w, fetch).1 is Poll || pool.followed(w, fetch).1 is Proceed
            ==> pool.followed(w, fetch).0 == pool,
        pool.followed(w, fetch).1 is Idle ==> pool.followed(w, fetch).0.workers[w].phase is Idling
            && pool.followed(w, fetch).0.sleeping == pool.sleeping,
        pool.followed(w, fetch).1 is Discard ==> pool.followed(w, fetch).0.workers[w].phase is Start
            && pool.followed(w, fetch).0.sleeping.contains(w as usize),
        pool.followed(w, fetch).0.injector == pool.injector,
        pool.followed(w, fetch).0.queues == pool.queues,
        pool.followed(w, fetch).0.workers.len() == pool.workers.len(),
        pool.followed(w, fetch).0.workers[w].state == pool.workers[w].state,
        pool.followed(w, fetch).0.workers[w].notified == pool.workers[w].notified,
        forall|v: int|
            0 <= v < pool.workers.len() && v != w ==> (#[trigger] pool.followed(
                w,
                fetch,
            ).0.workers[v]) == pool.workers[v],
{
    if !pool.sleeping.contains(w as usize) {
        let after = pool.sleeping.push(w as usize);
        assert(after[pool.sleeping.len() as int] == w as usize);
    }
}

/// A worker gives a task up only if it has been told to shut down at once, and
/// polls one only if it has not.
pub proof fn law_task_is_given_up_only_at_once(
    pool: SharedView,
    w: int,
    completed: bool,
    after: SharedView,
    action: Action,
)
    requires
        pool.wf(),
        0 <= w < pool.workers.len(),
        pool.stepped(w, completed, after, action),
    ensures
        action is Discard ==> pool.workers[w].state == SHUTDOWN_NOW,
        action is Poll ==> pool.workers[w].state != SHUTDOWN_NOW,
{
}

/// In a pool that has not been shut down, a task stops waiting only by being
/// handed out to be polled.
pub proof fn law_open_pool_polls_every_task(
    pool: SharedView,
    w: int,
    completed: bool,
    after: SharedView,
    action: Action,
    task: usize,
)
    requires
        pool.wf(),
        0 <= w < pool.workers.len(),
        open_for_tasks(pool),
        pool.stepped(w, completed, after, action),
    ensures
        !(action is Discard),
        pending(pool, task) == pending(after, task) + if action == Action::Poll(task) {
            1nat
        } else {
            0nat
        },
{
    assert(!pool.workers[w].told_shutdown());
    law_task_is_given_up_only_at_once(pool, w, completed, after, action);
    law_stepped_pending(pool, w, completed, after, action, task);
}

/// A step of a worker touches no other worker. The sleep queue changes only when
/// the worker stops running tasks: it then stands there, behind the others if it
/// was not there before.
pub proof fn law_step_touches_no_other_worker(
    pool: SharedView,
    w: int,
    completed: bool,
    after: SharedView,
    action: Action,
)
    requires
        pool.wf(),
        0 <= w < pool.workers.len(),
        pool.stepped(w, completed, after, action),
    ensures
        after.workers.len() == pool.workers.len(),
        forall|v: int|
            0 <= v < pool.workers.len() && v != w ==> (#[trigger] after.workers[v])
                == pool.workers[v],
        after.sleeping == pool.sleeping || (after.sleeping == pool.sleeping.push(w as usize)
            && !pool.sleeping.contains(w as usize) && pool.workers[w].busy()
            && !after.workers[w].busy()),
        pool.workers[w].busy() && !after.workers[w].busy() ==> after.sleeping.contains(w as usize)
            && after.workers[w].phase is Start,
        pool.workers[w].busy() ==> after.workers[w].state == pool.workers[w].state
            && after.workers[w].notified == pool.workers[w].notified,
{
    if !pool.sleeping.contains(w as usize) {
        let longer = pool.sleeping.push(w as usize);
        assert(longer[pool.sleeping.len() as int] == w as usize);
    }
}

/// A worker that looks for tasks goes on until it finds none anywhere, or has
/// been told to shut down at once and has found one. It hands out the oldest
/// task that it may take. Returns the queue that it was stolen from, if it was.
pub proof fn law_running_worker_takes_the_oldest(
    pool: SharedView,
    w: int,
    completed: bool,
    after: SharedView,
    action: Action,
) -> (from: int)
    requires
        pool.wf(),
        0 <= w < pool.workers.len(),
        pool.workers[w].phase is Fetching,
        pool.stepped(w, completed, after, action),
    ensures
        action is Poll || action is Discard || action is Idle || action is Proceed,
        action is Idle <==> pool.injector.len() == 0 && forall|i: int|
            0 <= i < pool.queues.len() ==> (#[trigger] pool.queues[i]).len() == 0,
        action is Idle <==> after.workers[w].phase is Idling,
        action is Discard <==> after.workers[w].phase is Start,
        action is Proceed ==> after == pool && pool.injector.len() > 0 && pool.queues[w].len()
            == 0,
        action is Poll || action is Discard ==> {
            let task = match action {
                Action::Poll(task) => task,
                Action::Discard(task) => task,
                _ => 0,
            };
            &&& pool.queues[w].len() > 0 ==> {
                &&& task == pool.queues[w][0]
                &&& after.queues[w] == pool.queues[w].skip(1)
                &&& after.injector == pool.injector
                &&& forall|i: int|
                    0 <= i < pool.queues.len() && i != w ==> (#[trigger] after.queues[i])
                        == pool.queues[i]
            }
            &&& pool.queues[w].len() == 0 && pool.injector.len() > 0 ==> {
                &&& task == pool.injector[0]
                &&& after.queues[w] + after.injector == pool.injector.skip(1)
                &&& forall|i: int|
                    0 <= i < pool.queues.len() && i != w ==> (#[trigger] after.queues[i])
                        == pool.queues[i]
            }
            &&& pool.queues[w].len() == 0 && pool.injector.len() == 0 ==> {
                &&& 0 <= from < pool.queues.len()
                &&& from != w
                &&& forall|i: int| 0 <= i < from ==> (#[trigger] pool.queues[i]).len() == 0
                &&& pool.queues[from].len() > 0
                &&& task == pool.queues[from][0]
                &&& after.queues[w] + after.queues[from] == pool.queues[from].skip(1)
                &&& after.injector == pool.injector
                &&& forall|i: int|
                    0 <= i < pool.queues.len() && i != w && i != from ==> (
                    #[trigger] after.queues[i]) == pool.queues[i]
            }
        },
{
    let (mid, fetch) = choose|mid: SharedView, fetch: Fetch| #[trigger]
        pool.fetched(w, fetch, mid) && (after, action) == mid.followed(w, fetch);
    law_search_without_a_find_changes_nothing(
        pool.injector,
        pool.queues,
        w,
        mid.injector,
        mid.queues,
        fetch,
    );
    law_found_task_is_polled(mid, w, fetch);
    match fetch {
        Fetch::Task(task) => law_search_takes_the_oldest(
            pool.injector,
            pool.queues,
            w,
            mid.injector,
            mid.queues,
            fetch,
            task,
        ),
        _ => w,
    }
}

/// A worker that has found no task looks again as soon as the injector holds
/// one; else it stops running tasks if it is to shut down or has waited for long
/// enough, and snoozes otherwise. It moves no task.
pub proof fn law_idling_worker_looks_again(
    pool: SharedView,
    w: int,
    completed: bool,
    after: SharedView,
    action: Action,
)
    requires
        pool.wf(),
        0 <= w < pool.workers.len(),
        pool.workers[w].phase is Idling,
        pool.stepped(w, completed, after, action),
    ensures
        after.injector == pool.injector,
        after.queues == pool.queues,
        pool.injector.len() > 0 <==> after.workers[w].phase is Fetching,
        action is Snooze <==> pool.injector.len() == 0 && !completed && pool.workers[w].state
            != SHUTDOWN_IDLE && pool.workers[w].state != SHUTDOWN_NOW,
        action is Snooze ==> after == pool,
        !(action is Snooze) ==> action is Proceed,
        !(action is Snooze) && pool.injector.len() == 0 ==> after.workers[w].phase is Start,
{
}

/// A worker that is not running tasks sees work where a task is in the injector
/// or in its own queue, and does with it what a worker does.
pub proof fn law_step_of_a_worker_that_is_not_running_tasks(
    pool: SharedView,
    w: int,
    completed: bool,
    after: SharedView,
    action: Action,
)
    requires
        pool.wf(),
        0 <= w < pool.workers.len(),
        !pool.workers[w].busy(),
        pool.stepped(w, completed, after, action),
    ensures
        (after.workers[w], action) == pool.workers[w].cycled(
            pool.injector.len() + pool.queues[w].len() > 0,
        ),
        after.injector == pool.injector,
        after.queues == pool.queues,
        after.sleeping == pool.sleeping,
{
}

/// What is known of the worker queues is what each of them holds.
pub proof fn law_queue_tasks_are_those_of_each_queue(queues: Seq<TaskQueue>, i: int)
    requires
        0 <= i < queues.len(),
    ensures
        queue_tasks(queues).len() == queues.len(),
        queue_tasks(queues)[i] == queues[i]@,
{
}

/// After an injector that held nothing, a search gives the oldest task of the
/// worker's own queue behind which those of the first queue with tasks are put,
/// and keeps the order of the others. No other queue is touched.
pub proof fn law_search_after_an_empty_injector(
    queues: Seq<Seq<usize>>,
    worker: int,
    after: Seq<Seq<usize>>,
    fetch: Fetch,
    first: int,
)
    requires
        0 <= worker < queues.len(),
        finished(queues, worker, Stolen::Empty, after, fetch),
        0 <= first < queues.len(),
        first != worker,
        forall|i: int| 0 <= i < first ==> (#[trigger] queues[i]).len() == 0,
        queues[first].len() > 0,
    ensures
        fetch == Fetch::Task((queues[worker] + queues[first])[0]),
        after.len() == queues.len(),
        after[worker] + after[first] == (queues[worker] + queues[first]).skip(1),
        forall|i: int|
            0 <= i < queues.len() && i != first && i != worker ==> (#[trigger] after[i])
                == queues[i],
{
    let held = choose|held: Seq<Seq<usize>>| #[trigger]
        steal_outcome(queues, worker, held) && popped(held, worker, after, fetch);
    law_steal_takes_from_the_first(queues, worker, held, first);
    let line = queues[worker] + queues[first];
    assert(held[worker] + held[first] == line);
    assert(line[0] == held[worker][0]);
    assert(after[worker] + after[first] =~= line.skip(1));
}

/// A cycle is for workers that are not running tasks: it leaves the others as
/// they are. Only a worker that is about to look at what it has been told, and
/// that says of itself that it is running or has been told nothing known, holds
/// a state that it cannot hold.
pub proof fn law_cycle_is_for_workers_that_are_not_running_tasks(worker: WorkerView, work: bool)
    ensures
        worker.phase is Fetching || worker.phase is Idling ==> worker.cycled(work) == (
            worker,
            Action::Proceed,
        ),
        worker.cycled(work).1 is Unreachable <==> worker.phase is Waking && (worker.state == RUNNING
            || worker.state > SHUTDOWN_NOW),
        !(worker.cycled(work).1 is Poll),
        !(worker.cycled(work).1 is Discard),
        !(worker.cycled(work).1 is Idle),
        !(worker.cycled(work).1 is Snooze),
{
}

} // verus!
