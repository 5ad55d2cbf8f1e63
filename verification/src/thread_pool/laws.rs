//! What holds of a pool whatever its threads do.
use crate::thread_pool::worker::{
    all_idle, fetch_outcome, is_victim, took, Action, Fetch, Phase, WorkerView, IDLE, NEW_TASK,
    RUNNING, SHUTDOWN_IDLE, SHUTDOWN_NOW,
};
use crate::thread_pool::{initial_pool, SharedView};
use vstd::prelude::*;

verus! {

/// How often `task` stands in a queue.
pub open spec fn occurrences(tasks: Seq<usize>, task: usize) -> nat {
    tasks.to_multiset().count(task)
}

/// How often `task` stands in the worker queues.
pub open spec fn queued(queues: Seq<Seq<usize>>, task: usize) -> nat
    decreases queues.len(),
{
    if queues.len() == 0 {
        0
    } else {
        queued(queues.drop_last(), task) + occurrences(queues.last(), task)
    }
}

/// How often `task` waits to be run, in the injector and in the worker queues.
pub open spec fn waiting(injector: Seq<usize>, queues: Seq<Seq<usize>>, task: usize) -> nat {
    occurrences(injector, task) + queued(queues, task)
}

/// How often `task` waits to be run in a pool.
pub open spec fn pending(pool: SharedView, task: usize) -> nat {
    waiting(pool.injector, pool.queues, task)
}

/// Replacing one worker queue replaces what it counts for.
proof fn lemma_queued_update(queues: Seq<Seq<usize>>, i: int, tasks: Seq<usize>, task: usize)
    requires
        0 <= i < queues.len(),
    ensures
        queued(queues.update(i, tasks), task) + occurrences(queues[i], task) == queued(queues, task)
            + occurrences(tasks, task),
    decreases queues.len(),
{
    let after = queues.update(i, tasks);
    if i == queues.len() - 1 {
        assert(after.drop_last() =~= queues.drop_last());
    } else {
        assert(after.drop_last() =~= queues.drop_last().update(i, tasks));
        lemma_queued_update(queues.drop_last(), i, tasks, task);
    }
}

/// Cutting the first task off a queue.
proof fn lemma_first(tasks: Seq<usize>, task: usize)
    requires
        tasks.len() > 0,
    ensures
        occurrences(tasks, task) == occurrences(tasks.drop_first(), task) + if tasks.first() == task {
            1nat
        } else {
            0nat
        },
{
    broadcast use vstd::seq_lib::group_to_multiset_ensures;

    assert(tasks.drop_first() =~= tasks.remove(0));
}

/// Taking a batch out of a queue: the first task, the others, and the rest.
proof fn lemma_took(source: Seq<usize>, count: int, task: usize)
    requires
        1 <= count <= source.len(),
    ensures
        occurrences(source, task) == occurrences(source.skip(count), task) + occurrences(
            source.subrange(1, count),
            task,
        ) + if source.first() == task {
            1nat
        } else {
            0nat
        },
{
    let batch = source.take(count);
    vstd::seq_lib::lemma_multiset_commutative(batch, source.skip(count));
    assert(batch + source.skip(count) =~= source);
    lemma_first(batch, task);
    assert(batch.drop_first() =~= source.subrange(1, count));
}

/// A new task waits to be run once more than before; nothing else changes.
pub proof fn law_submitted_pending(pool: SharedView, new: usize, task: usize)
    ensures
        pending(pool.submitted(new), task) == pending(pool, task) + if new == task {
            1nat
        } else {
            0nat
        },
{
    broadcast use vstd::seq_lib::group_to_multiset_ensures;

}

/// A search for a task loses none and adds none: the task that is found waits
/// once less than before, and nothing else changes.
pub proof fn law_fetch_conserves_tasks(
    injector: Seq<usize>,
    queues: Seq<Seq<usize>>,
    w: int,
    injector_after: Seq<usize>,
    after: Seq<Seq<usize>>,
    fetch: Fetch,
    task: usize,
)
    requires
        0 <= w < queues.len(),
        fetch_outcome(injector, queues, w, injector_after, after, fetch),
    ensures
        waiting(injector, queues, task) == waiting(injector_after, after, task) + if fetch
            == Fetch::Task(task) {
            1nat
        } else {
            0nat
        },
{
    let own = queues[w];
    if own.len() == 0 {
        assert(occurrences(own, task) == 0) by {
            broadcast use vstd::seq_lib::group_to_multiset_ensures;

            assert(!own.contains(task));
        }
    }
    if own.len() > 0 {
        lemma_first(own, task);
        lemma_queued_update(queues, w, own.drop_first(), task);
    } else if injector.len() > 0 {
        if !(fetch is Retry) {
            let count = choose|count: int| #[trigger]
                took(injector, count, fetch, after[w]) && injector_after == injector.skip(count)
                    && after == queues.update(w, injector.subrange(1, count));
            lemma_took(injector, count, task);
            lemma_queued_update(queues, w, injector.subrange(1, count), task);
        }
    } else if !all_idle(queues) {
        let (victim, count) = choose|victim: int, count: int|
            is_victim(queues, victim) && #[trigger] took(queues[victim], count, fetch, after[w])
                && injector_after == injector && after == queues.update(
                victim,
                queues[victim].skip(count),
            ).update(w, queues[victim].subrange(1, count));
        let from = queues[victim];
        lemma_took(from, count, task);
        lemma_queued_update(queues, victim, from.skip(count), task);
        lemma_queued_update(
            queues.update(victim, from.skip(count)),
            w,
            from.subrange(1, count),
            task,
        );
    }
}

/// A step of a worker loses no task and adds none: a task that is handed out to
/// be polled, or given up, waits once less than before, and nothing else
/// changes.
pub proof fn law_stepped_pending(
    pool: SharedView,
    w: int,
    completed: bool,
    after: SharedView,
    action: Action,
    task: usize,
)
    requires
        pool.wf(),
        0 <= w < pool.workers.len(),
        pool.stepped(w, completed, after, action),
    ensures
        pending(pool, task) == pending(after, task) + if action == Action::Poll(task) || action
            == Action::Discard(task) {
            1nat
        } else {
            0nat
        },
{
    if pool.workers[w].phase is Fetching {
        let (mid, fetch) = choose|mid: SharedView, fetch: Fetch| #[trigger]
            pool.fetched(w, fetch, mid) && (after, action) == mid.followed(w, fetch);
        law_fetch_conserves_tasks(
            pool.injector,
            pool.queues,
            w,
            mid.injector,
            mid.queues,
            fetch,
            task,
        );
    }
}

/// Telling the workers to shut down loses no task.
pub proof fn law_told_pending(pool: SharedView, shutdown: usize, task: usize)
    ensures
        pending(pool.told(shutdown), task) == pending(pool, task),
{
}

/// In a pool that has just been created no task waits to be run.
pub proof fn law_initial_pending(count: nat, task: usize)
    ensures
        pending(initial_pool(count), task) == 0,
    decreases count,
{
    broadcast use vstd::seq_lib::group_to_multiset_ensures;

    let queues = initial_pool(count).queues;
    if count > 0 {
        let fewer = (count - 1) as nat;
        law_initial_pending(fewer, task);
        assert(queues.drop_last() =~= initial_pool(fewer).queues);
        assert(!queues.last().contains(task));
    }
    assert(!initial_pool(count).injector.contains(task));
}

/// No worker reaches a state that it cannot hold.
pub proof fn law_no_unreachable_state(
    pool: SharedView,
    w: int,
    completed: bool,
    after: SharedView,
    action: Action,
)
    requires
        pool.wf(),
        0 <= w < pool.workers.len(),
        pool.stepped(w, completed, after, action),
    ensures
        !(action is Unreachable),
{
    assert(pool.worker_ok(w));
}

/// No wakeup is lost: a worker that waits, and that has been told something,
/// has been notified.
pub proof fn law_waiting_worker_is_notified(pool: SharedView, w: int)
    requires
        pool.wf(),
        0 <= w < pool.workers.len(),
        pool.workers[w].phase is Parked,
        pool.workers[w].state != IDLE,
    ensures
        pool.workers[w].notified,
{
    assert(pool.worker_ok(w));
}

/// A worker with nothing to do sleeps: if it is told nothing it waits, at the
/// latest after one more round in which it uses up an old notification. Tasks
/// that come and go meanwhile do not matter.
pub proof fn law_idle_worker_waits(worker: WorkerView, first: bool, second: bool, third: bool)
    requires
        worker.phase is Start,
        worker.state == RUNNING,
    ensures
        worker.cycled(first).1 is Wait || worker.cycled(first).0.cycled(second).0.cycled(
            third,
        ).1 is Wait,
{
}

/// No worker is lost: one that a new task cannot wake has a new task already,
/// is running tasks, or has been told to shut down or done so.
pub proof fn law_no_worker_is_lost(pool: SharedView, w: int)
    requires
        pool.wf(),
        0 <= w < pool.workers.len(),
        !pool.sleeping.contains(w as usize),
    ensures
        pool.workers[w].state == NEW_TASK || pool.workers[w].busy()
            || pool.workers[w].told_shutdown() || pool.workers[w].phase is Exited,
{
    assert(pool.worker_ok(w));
}

/// A worker that is not running tasks takes steps that touch nothing but the
/// worker itself.
pub proof fn law_cycle_touches_only_the_worker(
    pool: SharedView,
    w: int,
    completed: bool,
    after: SharedView,
    action: Action,
)
    requires
        0 <= w < pool.workers.len(),
        pool.stepped(w, completed, after, action),
        !pool.workers[w].busy(),
    ensures
        after.injector == pool.injector,
        after.sleeping == pool.sleeping,
        after.queues == pool.queues,
        forall|v: int| 0 <= v < pool.workers.len() && v != w ==> after.workers[v] == pool.workers[v],
{
}

/// The worker that a new task wakes looks for tasks after at most two steps,
/// neither of which waits, unless it has ended or has been told to shut down.
/// Those of other threads that come in between do not concern it.
pub proof fn law_new_task_wakes_a_worker(
    pool: SharedView,
    task: usize,
    first: bool,
    second: bool,
)
    requires
        pool.wf(),
        pool.sleeping.len() > 0,
        !(pool.workers[pool.sleeping.first() as int].phase is Exited),
        !pool.workers[pool.sleeping.first() as int].told_shutdown(),
    ensures
        ({
            let worker = pool.submitted(task).workers[pool.sleeping.first() as int];
            let (next, action) = worker.cycled(first);
            let (last, last_action) = next.cycled(second);
            &&& action is Proceed
            &&& next.phase is Fetching || (next.phase is Waking && last_action is Proceed
                && last.phase is Fetching)
        }),
{
    let w = pool.sleeping.first() as int;
    assert(pool.sleeping[0] == w as usize);
    assert(pool.sleeping.contains(w as usize));
    assert(pool.worker_ok(w));
}

/// A search finds a task wherever one waits, unless the injector asks for
/// another attempt.
pub proof fn law_waiting_task_is_found(
    injector: Seq<usize>,
    queues: Seq<Seq<usize>>,
    w: int,
    injector_after: Seq<usize>,
    after: Seq<Seq<usize>>,
    fetch: Fetch,
)
    requires
        0 <= w < queues.len(),
        fetch_outcome(injector, queues, w, injector_after, after, fetch),
        injector.len() > 0 || !all_idle(queues),
    ensures
        fetch is Task || fetch is Retry,
        fetch is Retry ==> injector.len() > 0 && queues[w].len() == 0 && injector_after == injector
            && after == queues,
{
}

/// No worker has been told to shut down.
pub open spec fn open_for_tasks(pool: SharedView) -> bool {
    forall|w: int|
        0 <= w < pool.workers.len() ==> !(#[trigger] pool.workers[w]).told_shutdown()
            && !(pool.workers[w].phase is Exited)
}

/// The worker is running tasks, or has been told of a new one.
pub open spec fn attends(worker: WorkerView) -> bool {
    worker.busy() || worker.state == NEW_TASK
}

/// Somebody will see to every task: who has tasks in their queue is looking for
/// tasks, and while there are tasks in the injector some worker is running
/// tasks or has been told to.
pub open spec fn attended(pool: SharedView) -> bool {
    &&& forall|w: int|
        0 <= w < pool.queues.len() && (#[trigger] pool.queues[w]).len() > 0
            ==> pool.workers[w].phase is Fetching
    &&& pool.injector.len() > 0 ==> exists|w: int|
        0 <= w < pool.workers.len() && attends(#[trigger] pool.workers[w])
}

/// In a new pool there is no task to see to.
pub proof fn law_initial_attended(count: nat)
    ensures
        attended(initial_pool(count)),
        open_for_tasks(initial_pool(count)),
{
}

/// No new task is stranded: as long as the pool has not been shut down, somebody
/// will see to it.
pub proof fn law_submitted_attended(pool: SharedView, task: usize)
    requires
        pool.wf(),
        open_for_tasks(pool),
        attended(pool),
    ensures
        attended(pool.submitted(task)),
        open_for_tasks(pool.submitted(task)),
{
    let after = pool.submitted(task);
    if pool.sleeping.len() > 0 {
        let first = pool.sleeping.first() as int;
        assert(pool.sleeping[0] == first as usize);
        assert(attends(after.workers[first]));
        assert forall|w: int|
            0 <= w < after.queues.len() && (#[trigger] after.queues[w]).len()
                > 0 implies after.workers[w].phase is Fetching by {
            assert(pool.queues[w].len() > 0);
        }
        assert forall|w: int| 0 <= w < after.workers.len() implies !(
        #[trigger] after.workers[w]).told_shutdown() && !(after.workers[w].phase is Exited) by {
            assert(!pool.workers[w].told_shutdown() && !(pool.workers[w].phase is Exited));
        }
    } else {
        assert(!pool.sleeping.contains(0));
        assert(pool.worker_ok(0));
        assert(attends(after.workers[0]));
    }
}

/// No step strands a task: as long as the pool has not been shut down, somebody
/// will see to each of them.
pub proof fn law_stepped_attended(
    pool: SharedView,
    w: int,
    completed: bool,
    after: SharedView,
    action: Action,
)
    requires
        pool.wf(),
        0 <= w < pool.workers.len(),
        open_for_tasks(pool),
        attended(pool),
        pool.stepped(w, completed, after, action),
    ensures
        attended(after),
        open_for_tasks(after),
{
    let worker = pool.workers[w];
    assert(pool.worker_ok(w));
    assert(after.workers == pool.workers.update(w, after.workers[w])) by {
        assert(pool.workers =~= pool.workers.update(w, pool.workers[w]));
    }
    assert forall|v: int| 0 <= v < after.workers.len() implies !(
    #[trigger] after.workers[v]).told_shutdown() && !(after.workers[v].phase is Exited) by {
        assert(!pool.workers[v].told_shutdown() && !(pool.workers[v].phase is Exited));
    }
    if worker.phase is Fetching {
        let (mid, fetch) = choose|mid: SharedView, fetch: Fetch| #[trigger]
            pool.fetched(w, fetch, mid) && (after, action) == mid.followed(w, fetch);
        lemma_fetch_fills_only_own(
            pool.injector,
            pool.queues,
            w,
            mid.injector,
            mid.queues,
            fetch,
        );
        assert forall|v: int|
            0 <= v < after.queues.len() && (#[trigger] after.queues[v]).len()
                > 0 implies after.workers[v].phase is Fetching by {
            if v != w {
                assert(pool.queues[v].len() > 0);
            }
        }
        assert(attends(after.workers[w]));
    } else {
        assert(after.queues == pool.queues);
        assert(after.injector == pool.injector);
        assert forall|v: int|
            0 <= v < after.queues.len() && (#[trigger] after.queues[v]).len()
                > 0 implies after.workers[v].phase is Fetching by {
            assert(pool.queues[v].len() > 0);
        }
        if pool.injector.len() > 0 {
            let v = choose|v: int|
                0 <= v < pool.workers.len() && attends(#[trigger] pool.workers[v]);
            if v == w {
                assert(attends(after.workers[w]));
            } else {
                assert(after.workers[v] == pool.workers[v]);
            }
        }
    }
}

/// A search puts tasks into no queue but the worker's own, and finds nothing
/// only where there is nothing.
pub proof fn lemma_fetch_fills_only_own(
    injector: Seq<usize>,
    queues: Seq<Seq<usize>>,
    w: int,
    injector_after: Seq<usize>,
    after: Seq<Seq<usize>>,
    fetch: Fetch,
)
    requires
        0 <= w < queues.len(),
        fetch_outcome(injector, queues, w, injector_after, after, fetch),
    ensures
        after.len() == queues.len(),
        forall|v: int|
            0 <= v < queues.len() && v != w && (#[trigger] after[v]).len() > 0
                ==> queues[v].len() > 0,
        fetch is Empty ==> injector_after.len() == 0 && all_idle(after),
{
    if queues[w].len() == 0 && injector.len() == 0 && !all_idle(queues) {
        let (victim, count) = choose|victim: int, count: int|
            is_victim(queues, victim) && #[trigger] took(queues[victim], count, fetch, after[w])
                && injector_after == injector && after == queues.update(
                victim,
                queues[victim].skip(count),
            ).update(w, queues[victim].subrange(1, count));
        assert(queues[victim].len() > 0);
    }
}

/// Who will see to a task does so at once: a worker that attends does not wait
/// with its next step, and if its thread waits already it has been notified.
pub proof fn law_attending_worker_does_not_wait(
    pool: SharedView,
    w: int,
    completed: bool,
    after: SharedView,
    action: Action,
)
    requires
        pool.wf(),
        0 <= w < pool.workers.len(),
        attends(pool.workers[w]),
        pool.stepped(w, completed, after, action),
    ensures
        !(action is Wait),
        pool.workers[w].phase is Parked ==> pool.workers[w].notified,
{
    assert(pool.worker_ok(w));
}

/// A worker that has been told to shut down at once polls nothing more, does
/// not wait, and holds on to what it has been told until it ends.
pub proof fn law_shutdown_now_polls_nothing(
    pool: SharedView,
    w: int,
    completed: bool,
    after: SharedView,
    action: Action,
)
    requires
        pool.wf(),
        0 <= w < pool.workers.len(),
        pool.workers[w].state == SHUTDOWN_NOW,
        pool.stepped(w, completed, after, action),
    ensures
        !(action is Poll) && !(action is Wait) && !(action is Snooze),
        action is Exit || after.workers[w].state == SHUTDOWN_NOW,
{
}

/// A worker that has been told to shut down when it is idle polls every task
/// that it finds, stops looking for tasks only when it finds none, and holds on
/// to what it has been told until it ends.
pub proof fn law_shutdown_on_idle_drains(
    pool: SharedView,
    w: int,
    completed: bool,
    after: SharedView,
    action: Action,
)
    requires
        pool.wf(),
        0 <= w < pool.workers.len(),
        pool.workers[w].state == SHUTDOWN_IDLE,
        pool.stepped(w, completed, after, action),
    ensures
        !(action is Discard),
        action is Exit || after.workers[w].state == SHUTDOWN_IDLE,
        pool.workers[w].phase is Fetching ==> after.workers[w].busy(),
        pool.workers[w].phase is Idling && !after.workers[w].busy() ==> pool.injector.len() == 0,
        pool.workers[w].phase is Fetching && (pool.injector.len() > 0 || !all_idle(pool.queues))
            ==> action is Poll || action is Proceed,
{
}

/// A worker that has been told to shut down holds on to that until it ends,
/// whatever it does itself.
pub proof fn law_told_worker_stays_told(
    pool: SharedView,
    w: int,
    completed: bool,
    after: SharedView,
    action: Action,
    told: int,
)
    requires
        pool.wf(),
        0 <= w < pool.workers.len(),
        0 <= told < pool.workers.len(),
        pool.workers[told].told_shutdown(),
        pool.stepped(w, completed, after, action),
    ensures
        after.workers[told].state == pool.workers[told].state || (w == told && action is Exit
            && after.workers[told].phase is Exited),
{
    assert(pool.worker_ok(told));
    assert(after.workers == pool.workers.update(w, after.workers[w])) by {
        assert(pool.workers =~= pool.workers.update(w, pool.workers[w]));
    }
}

/// A new task, or a task that is woken, does not call off a shutdown.
pub proof fn law_new_task_keeps_workers_told(pool: SharedView, task: usize, told: int)
    requires
        pool.wf(),
        0 <= told < pool.workers.len(),
        pool.workers[told].told_shutdown(),
    ensures
        pool.submitted(task).workers[told].state == pool.workers[told].state,
        pool.submitted(task).workers[told].phase == pool.workers[told].phase,
{
}

/// A worker that has not been told to shut down does not end.
pub proof fn law_untold_worker_does_not_end(
    pool: SharedView,
    w: int,
    completed: bool,
    after: SharedView,
    action: Action,
)
    requires
        pool.wf(),
        0 <= w < pool.workers.len(),
        !pool.workers[w].told_shutdown(),
        !(pool.workers[w].phase is Exited),
        pool.stepped(w, completed, after, action),
    ensures
        !(action is Exit),
        !(after.workers[w].phase is Exited),
{
    assert(pool.worker_ok(w));
}

/// A worker that is to shut down when it is next idle leaves nothing behind: it
/// ends only when no task is in the injector or in its own queue.
pub proof fn law_shutdown_on_idle_leaves_nothing(
    pool: SharedView,
    w: int,
    completed: bool,
    after: SharedView,
    action: Action,
)
    requires
        pool.wf(),
        0 <= w < pool.workers.len(),
        pool.workers[w].state == SHUTDOWN_IDLE,
        pool.stepped(w, completed, after, action),
        action is Exit,
    ensures
        pool.injector.len() == 0,
        pool.queues[w].len() == 0,
{
    assert(pool.worker_ok(w));
}

/// The pool is being shut down when its workers are idle: each of them has been
/// told so or has ended, none that has ended has a task in its queue, and the
/// injector holds tasks only while somebody is left to run them.
pub open spec fn draining(pool: SharedView) -> bool {
    &&& forall|w: int|
        0 <= w < pool.workers.len() ==> (#[trigger] pool.workers[w]).phase is Exited
            || pool.workers[w].state == SHUTDOWN_IDLE
    &&& forall|w: int|
        0 <= w < pool.queues.len() && (#[trigger] pool.queues[w]).len() > 0
            ==> !(pool.workers[w].phase is Exited)
    &&& all_ended(pool) ==> pool.injector.len() == 0
}

/// Every worker has ended.
pub open spec fn all_ended(pool: SharedView) -> bool {
    forall|w: int| 0 <= w < pool.workers.len() ==> (#[trigger] pool.workers[w]).phase is Exited
}

/// Shutting a pool down when its workers are idle begins to drain it.
pub proof fn law_shutdown_on_idle_begins_to_drain(pool: SharedView)
    requires
        pool.wf(),
        open_for_tasks(pool),
    ensures
        draining(pool.told(SHUTDOWN_IDLE)),
{
    let after = pool.told(SHUTDOWN_IDLE);
    assert(!(after.workers[0].phase is Exited));
    assert forall|w: int|
        0 <= w < after.queues.len() && (#[trigger] after.queues[w]).len() > 0 implies !(
    after.workers[w].phase is Exited) by {
        assert(!(pool.workers[w].phase is Exited));
    }
}

/// A step of a worker goes on draining the pool, and gives no task up.
pub proof fn law_stepped_draining(
    pool: SharedView,
    w: int,
    completed: bool,
    after: SharedView,
    action: Action,
)
    requires
        pool.wf(),
        0 <= w < pool.workers.len(),
        draining(pool),
        pool.stepped(w, completed, after, action),
    ensures
        draining(after),
        !(action is Discard),
{
    assert(pool.worker_ok(w));
    assert(after.workers == pool.workers.update(w, after.workers[w])) by {
        assert(pool.workers =~= pool.workers.update(w, pool.workers[w]));
    }
    assert(after.workers[w].phase is Exited || after.workers[w].state == SHUTDOWN_IDLE);
    if pool.workers[w].phase is Fetching {
        let (mid, fetch) = choose|mid: SharedView, fetch: Fetch| #[trigger]
            pool.fetched(w, fetch, mid) && (after, action) == mid.followed(w, fetch);
        lemma_fetch_fills_only_own(
            pool.injector,
            pool.queues,
            w,
            mid.injector,
            mid.queues,
            fetch,
        );
    } else {
        assert(after.queues == pool.queues);
        assert(after.injector == pool.injector);
    }
    assert forall|v: int|
        0 <= v < after.queues.len() && (#[trigger] after.queues[v]).len() > 0 implies !(
    after.workers[v].phase is Exited) by {
        if v != w {
            assert(pool.queues[v].len() > 0);
        }
    }
    if all_ended(after) {
        assert(after.workers[w].phase is Exited);
        if pool.workers[w].phase is Exited {
            assert(all_ended(pool)) by {
                assert forall|v: int| 0 <= v < pool.workers.len() implies (
                #[trigger] pool.workers[v]).phase is Exited by {
                    assert(after.workers[v].phase is Exited);
                }
            }
        }
    }
}

/// A task that comes while the pool is drained is run with the others, if some
/// worker is left.
pub proof fn law_submitted_draining(pool: SharedView, task: usize)
    requires
        pool.wf(),
        draining(pool),
        !all_ended(pool),
    ensures
        draining(pool.submitted(task)),
        !all_ended(pool.submitted(task)),
{
    let after = pool.submitted(task);
    let left = choose|w: int|
        0 <= w < pool.workers.len() && !((#[trigger] pool.workers[w]).phase is Exited);
    assert(!(after.workers[left].phase is Exited));
    assert forall|w: int| 0 <= w < after.workers.len() implies (
    #[trigger] after.workers[w]).phase is Exited || after.workers[w].state == SHUTDOWN_IDLE by {
        assert(pool.workers[w].phase is Exited || pool.workers[w].state == SHUTDOWN_IDLE);
    }
    assert forall|w: int|
        0 <= w < after.queues.len() && (#[trigger] after.queues[w]).len() > 0 implies !(
    after.workers[w].phase is Exited) by {
        assert(pool.queues[w].len() > 0);
    }
}

/// When every worker of a pool that was drained has ended, no task is left.
pub proof fn law_drained_pool_is_empty(pool: SharedView, task: usize)
    requires
        pool.wf(),
        draining(pool),
        all_ended(pool),
    ensures
        pool.injector.len() == 0,
        all_idle(pool.queues),
        pending(pool, task) == 0,
{
    broadcast use vstd::seq_lib::group_to_multiset_ensures;

    assert forall|w: int| 0 <= w < pool.queues.len() implies (
    #[trigger] pool.queues[w]).len() == 0 by {
        assert(pool.workers[w].phase is Exited);
    }
    lemma_queued_idle(pool.queues, task);
    assert(!pool.injector.contains(task));
}

/// Queues that hold nothing hold no task.
proof fn lemma_queued_idle(queues: Seq<Seq<usize>>, task: usize)
    requires
        all_idle(queues),
    ensures
        queued(queues, task) == 0,
    decreases queues.len(),
{
    broadcast use vstd::seq_lib::group_to_multiset_ensures;

    if queues.len() > 0 {
        let others = queues.drop_last();
        assert forall|i: int| 0 <= i < others.len() implies (#[trigger] others[i]).len() == 0 by {
            assert(others[i] == queues[i]);
        }
        lemma_queued_idle(others, task);
        assert(queues[queues.len() - 1].len() == 0);
        assert(!queues.last().contains(task));
    }
}

/// How many tasks are in these queues.
pub open spec fn queued_len(queues: Seq<Seq<usize>>) -> nat
    decreases queues.len(),
{
    if queues.len() == 0 {
        0
    } else {
        queued_len(queues.drop_last()) + queues.last().len()
    }
}

/// How many tasks wait to be run.
pub open spec fn total(injector: Seq<usize>, queues: Seq<Seq<usize>>) -> nat {
    injector.len() + queued_len(queues)
}

/// A bound on the steps that worker `w` still takes, once it has been told to
/// shut down and no task comes in any more.
pub open spec fn rank(pool: SharedView, w: int) -> nat {
    let tasks = total(pool.injector, pool.queues);
    8 * tasks + match pool.workers[w].phase {
        Phase::Fetching => if tasks > 0 {
            1nat
        } else {
            5nat
        },
        Phase::Idling => 4nat,
        Phase::Start | Phase::Parked => 3nat,
        Phase::Waking => 2nat,
        Phase::Exited => 0nat,
    }
}

/// Replacing one queue replaces what it counts for.
proof fn lemma_queued_len_update(queues: Seq<Seq<usize>>, i: int, tasks: Seq<usize>)
    requires
        0 <= i < queues.len(),
    ensures
        queued_len(queues.update(i, tasks)) + queues[i].len() == queued_len(queues) + tasks.len(),
    decreases queues.len(),
{
    let after = queues.update(i, tasks);
    if i == queues.len() - 1 {
        assert(after.drop_last() =~= queues.drop_last());
    } else {
        assert(after.drop_last() =~= queues.drop_last().update(i, tasks));
        lemma_queued_len_update(queues.drop_last(), i, tasks);
    }
}

/// Queues that hold nothing are of no length.
proof fn lemma_queued_len_idle(queues: Seq<Seq<usize>>)
    ensures
        all_idle(queues) <==> queued_len(queues) == 0,
    decreases queues.len(),
{
    if queues.len() > 0 {
        let others = queues.drop_last();
        lemma_queued_len_idle(others);
        assert(queues[queues.len() - 1] == queues.last());
        if all_idle(queues) {
            assert forall|i: int| 0 <= i < others.len() implies (
            #[trigger] others[i]).len() == 0 by {
                assert(others[i] == queues[i]);
            }
        }
        if queued_len(queues) == 0 {
            assert forall|i: int| 0 <= i < queues.len() implies (
            #[trigger] queues[i]).len() == 0 by {
                if i < others.len() {
                    assert(others[i] == queues[i]);
                }
            }
        }
    }
}

/// A search takes one task away, or finds that there is none, or leaves all as
/// it is.
pub proof fn law_fetch_takes_one_task(
    injector: Seq<usize>,
    queues: Seq<Seq<usize>>,
    w: int,
    injector_after: Seq<usize>,
    after: Seq<Seq<usize>>,
    fetch: Fetch,
)
    requires
        0 <= w < queues.len(),
        fetch_outcome(injector, queues, w, injector_after, after, fetch),
    ensures
        fetch is Task ==> total(injector_after, after) + 1 == total(injector, queues),
        fetch is Empty ==> total(injector, queues) == 0 && total(injector_after, after) == 0,
        fetch is Retry ==> injector_after == injector && after == queues,
{
    let own = queues[w];
    if own.len() > 0 {
        lemma_queued_len_update(queues, w, own.drop_first());
    } else if injector.len() > 0 {
        if !(fetch is Retry) {
            let count = choose|count: int| #[trigger]
                took(injector, count, fetch, after[w]) && injector_after == injector.skip(count)
                    && after == queues.update(w, injector.subrange(1, count));
            lemma_queued_len_update(queues, w, injector.subrange(1, count));
        }
    } else if all_idle(queues) {
        lemma_queued_len_idle(queues);
    } else {
        let (victim, count) = choose|victim: int, count: int|
            is_victim(queues, victim) && #[trigger] took(queues[victim], count, fetch, after[w])
                && injector_after == injector && after == queues.update(
                victim,
                queues[victim].skip(count),
            ).update(w, queues[victim].subrange(1, count));
        let from = queues[victim];
        lemma_queued_len_update(queues, victim, from.skip(count));
        lemma_queued_len_update(
            queues.update(victim, from.skip(count)),
            w,
            from.subrange(1, count),
        );
    }
}

/// A worker that has been told to shut down ends, whether it is running tasks or
/// not: with each of its steps it ends or comes closer to its end, unless the
/// injector asks for another attempt, which changes nothing; and it does not
/// wait or snooze on the way.
pub proof fn law_shutdown_ends_a_worker(
    pool: SharedView,
    w: int,
    completed: bool,
    after: SharedView,
    action: Action,
)
    requires
        pool.wf(),
        0 <= w < pool.workers.len(),
        pool.workers[w].told_shutdown(),
        pool.stepped(w, completed, after, action),
    ensures
        !(action is Wait) && !(action is Snooze) && !(action is Unreachable),
        action is Exit <==> after.workers[w].phase is Exited,
        action is Exit || after.workers[w].state == pool.workers[w].state,
        rank(after, w) < rank(pool, w) || (action is Proceed && after == pool
            && pool.injector.len() > 0 && pool.workers[w].phase is Fetching),
{
    assert(pool.worker_ok(w));
    lemma_queued_len_idle(pool.queues);
    if pool.workers[w].phase is Fetching {
        let (mid, fetch) = choose|mid: SharedView, fetch: Fetch| #[trigger]
            pool.fetched(w, fetch, mid) && (after, action) == mid.followed(w, fetch);
        law_fetch_takes_one_task(
            pool.injector,
            pool.queues,
            w,
            mid.injector,
            mid.queues,
            fetch,
        );
    }
}

/// The steps of other workers do not put off the end of a worker.
pub proof fn law_other_workers_do_not_put_off_the_end(
    pool: SharedView,
    w: int,
    completed: bool,
    after: SharedView,
    action: Action,
    told: int,
)
    requires
        pool.wf(),
        0 <= w < pool.workers.len(),
        0 <= told < pool.workers.len(),
        told != w,
        pool.stepped(w, completed, after, action),
    ensures
        rank(after, told) <= rank(pool, told),
{
    assert(after.workers == pool.workers.update(w, after.workers[w])) by {
        assert(pool.workers =~= pool.workers.update(w, pool.workers[w]));
    }
    if pool.workers[w].phase is Fetching {
        let (mid, fetch) = choose|mid: SharedView, fetch: Fetch| #[trigger]
            pool.fetched(w, fetch, mid) && (after, action) == mid.followed(w, fetch);
        law_fetch_takes_one_task(
            pool.injector,
            pool.queues,
            w,
            mid.injector,
            mid.queues,
            fetch,
        );
    }
}

/// The tasks of a pool with a single worker, in the order in which they run.
pub open spec fn line(pool: SharedView) -> Seq<usize> {
    pool.queues[0] + pool.injector
}

/// With a single worker a new task goes to the end of the line.
pub proof fn law_single_worker_queues_in_order(pool: SharedView, task: usize)
    requires
        pool.queues.len() == 1,
    ensures
        line(pool.submitted(task)) == line(pool).push(task),
{
    assert(line(pool.submitted(task)) =~= line(pool).push(task));
}

/// A single worker runs tasks in the order in which they were spawned: it takes
/// them from the front of the line, one by one.
pub proof fn law_single_worker_runs_in_order(
    pool: SharedView,
    completed: bool,
    after: SharedView,
    action: Action,
)
    requires
        pool.wf(),
        pool.workers.len() == 1,
        pool.stepped(0, completed, after, action),
    ensures
        match action {
            Action::Poll(task) | Action::Discard(task) => line(pool).len() > 0 && task == line(
                pool,
            ).first() && line(after) == line(pool).drop_first(),
            _ => line(after) == line(pool),
        },
{
    let own = pool.queues[0];
    if pool.workers[0].phase is Fetching {
        if own.len() > 0 {
            assert(line(after) =~= line(pool).drop_first());
        } else if pool.injector.len() > 0 {
            if !(action is Proceed) {
                let (mid, fetch) = choose|mid: SharedView, fetch: Fetch| #[trigger]
                    pool.fetched(0, fetch, mid) && (after, action) == mid.followed(0, fetch);
                let count = choose|count: int| #[trigger]
                    took(pool.injector, count, fetch, mid.queues[0]) && mid.injector
                        == pool.injector.skip(count) && mid.queues == pool.queues.update(
                        0,
                        pool.injector.subrange(1, count),
                    );
                assert(line(after) =~= line(pool).drop_first());
            }
        }
    }
}

} // verus!
