//! Tests of the thread pool and of its tasks.
use threader::queues::{Stolen, TaskInjector, TaskQueue};
use threader::thread_pool::task::{
    drop_task, wake, wake_by_ref, waker, Header, Lock, Wake, LOCKED, UNLOCKED,
};
use threader::thread_pool::worker::{
    finish_fetch, get_task, is_shutdown, steal, Action, Fetch, Handle, Phase, IDLE, NEW_TASK,
    RUNNING, SHUTDOWN_IDLE, SHUTDOWN_NOW,
};
use threader::thread_pool::{Shared, ThreadPool};

// Takes steps of a worker until its thread has to wait or ends, as if every
// backoff were completed. Returns the tasks that were polled, those that were
// given up, and the last action.
fn run(pool: &mut ThreadPool, w: usize) -> (Vec<usize>, Vec<usize>, Action) {
    let mut polled = Vec::new();
    let mut discarded = Vec::new();
    loop {
        match pool.step(w, true) {
            Action::Poll(task) => polled.push(task),
            Action::Discard(task) => discarded.push(task),
            Action::Proceed | Action::Idle | Action::Snooze => (),
            Action::Unreachable => unreachable!(),
            last => return (polled, discarded, last),
        }
    }
}

// A worker queue that holds these tasks.
fn queue_of(tasks: &[usize]) -> TaskQueue {
    let mut injector = TaskInjector::new();
    let mut queue = TaskQueue::new_fifo();
    for task in tasks {
        injector.push(*task);
    }
    while !injector.is_empty() {
        injector.steal_batch(&mut queue);
    }
    queue
}

fn contents(queue: &mut TaskQueue) -> Vec<usize> {
    let mut tasks = Vec::new();
    while let Some(task) = queue.pop() {
        tasks.push(task);
    }
    tasks
}

fn fetch(queues: &mut Vec<TaskQueue>, worker: usize, injector: &mut TaskInjector) -> Fetch {
    loop {
        let fetch = get_task(queues, worker, injector);
        if fetch != Fetch::Retry {
            return fetch;
        }
    }
}

#[test]
fn mod_simple() {
    let mut executor = ThreadPool::new().unwrap();
    assert!(executor.count() > 0);

    assert_eq!(executor.spawn(0), Some(0));

    let (polled, discarded, last) = run(&mut executor, 0);
    assert_eq!(polled, vec![0]);
    assert!(discarded.is_empty());
    assert_eq!(last, Action::Wait);
}

#[test]
fn mod_reschedule() {
    let mut executor = ThreadPool::with_threads(12);
    let mut header = Header::new();

    assert_eq!(executor.spawn(0), Some(0));
    assert_eq!(run(&mut executor, 0).0, vec![0]);
    // The future is not ready, and keeps a waker.
    assert_eq!(header.lock(), Lock::Acquired);
    waker(&mut header);
    header.polled(false);

    let woken = wake(&mut header, 0, Some(&mut executor));
    assert_eq!(woken, Wake { woken: Some(1), freed: false });
    assert_eq!(run(&mut executor, 1).0, vec![0]);
    assert_eq!(header.lock(), Lock::Acquired);
    header.polled(true);
    assert_eq!(header.lock(), Lock::Complete);
}

#[test]
fn mod_custom_thread_count() {
    let mut executor = ThreadPool::with_threads(32);
    assert_eq!(executor.count(), 32);
    executor.spawn(0);
}

#[test]
fn mod_bad_future() {
    let mut executor = ThreadPool::new().unwrap();
    let mut headers = Vec::new();

    for task in 0..50 {
        headers.push(Header::new());
        executor.spawn(task);
    }
    let mut done = 0;
    for w in 0..executor.count() {
        for task in run(&mut executor, w).0 {
            assert_eq!(headers[task].lock(), Lock::Acquired);
            headers[task].polled(true);
            done += 1;
        }
    }
    assert_eq!(done, 50);
    // The wakers of complete futures reschedule them over and over; none of
    // them is polled again.
    for _ in 0..3 {
        for task in 0..50 {
            wake_by_ref(&mut headers[task], task, Some(&mut executor));
        }
        for w in 0..executor.count() {
            for task in run(&mut executor, w).0 {
                assert_eq!(headers[task].lock(), Lock::Complete);
            }
        }
    }
}

#[test]
fn pool_takes_the_given_count_or_that_of_the_machine() {
    assert_eq!(ThreadPool::new_priv(Some(3), 8).unwrap().count(), 3);
    assert_eq!(ThreadPool::new_priv(None, 8).unwrap().count(), 8);
    assert!(ThreadPool::new_priv(Some(usize::MAX), 8).is_none());
    assert!(ThreadPool::new_priv(None, usize::MAX).is_none());
}

#[test]
fn new_tasks_wake_the_workers_in_turn() {
    let mut pool = ThreadPool::with_threads(3);
    assert_eq!(pool.spawn(10), Some(0));
    assert_eq!(pool.spawn(11), Some(1));
    assert_eq!(pool.spawn(12), Some(2));
    assert_eq!(pool.spawn(13), None);
    let (polled, _, last) = run(&mut pool, 1);
    assert_eq!(polled.first(), Some(&10));
    assert_eq!(last, Action::Wait);
    // The worker is back on the sleep queue.
    assert_eq!(pool.spawn(14), Some(1));
}

#[test]
fn worker_waits_until_it_is_told_something() {
    let mut pool = ThreadPool::with_threads(1);
    assert_eq!(pool.step(0, false), Action::Wait);
    assert_eq!(pool.spawn(4), Some(0));
    assert_eq!(pool.step(0, false), Action::Proceed);
    assert_eq!(pool.step(0, false), Action::Proceed);
    assert_eq!(pool.step(0, false), Action::Poll(4));
    assert_eq!(pool.step(0, false), Action::Idle);
    assert_eq!(pool.step(0, false), Action::Snooze);
    // A task comes while the worker snoozes; nobody has to be woken for it.
    assert_eq!(pool.spawn(5), None);
    assert_eq!(pool.step(0, true), Action::Proceed);
    assert_eq!(pool.step(0, true), Action::Poll(5));
    assert_eq!(pool.step(0, true), Action::Idle);
    assert_eq!(pool.step(0, true), Action::Proceed);
}

#[test]
fn single_worker_runs_in_order() {
    let mut pool = ThreadPool::with_threads(1);
    for task in 0..100 {
        pool.spawn(task);
    }
    assert_eq!(run(&mut pool, 0).0, (0..100).collect::<Vec<usize>>());
}

#[test]
fn no_task_is_lost_or_run_twice() {
    let mut pool = ThreadPool::with_threads(4);
    for task in 0..500 {
        pool.spawn(task);
    }
    // The workers take turns.
    let mut seen = Vec::new();
    for _ in 0..2000 {
        for w in 0..4 {
            if let Action::Poll(task) = pool.step(w, true) {
                seen.push(task);
            }
        }
    }
    seen.sort();
    assert_eq!(seen, (0..500).collect::<Vec<usize>>());
}

#[test]
fn no_task_is_stranded() {
    let mut pool = ThreadPool::with_threads(3);
    assert_eq!(pool.spawn(0), Some(0));
    // The worker takes the task and dawdles; the next one is told of more.
    assert_eq!(pool.step(0, false), Action::Proceed);
    assert_eq!(pool.step(0, false), Action::Proceed);
    for task in 1..50 {
        pool.spawn(task);
    }
    let mut seen = run(&mut pool, 1).0;
    seen.extend(run(&mut pool, 2).0);
    seen.extend(run(&mut pool, 0).0);
    seen.sort();
    assert_eq!(seen, (0..50).collect::<Vec<usize>>());
}

#[test]
fn shutdown_now_polls_nothing() {
    let mut pool = ThreadPool::with_threads(2);
    pool.spawn(1);
    pool.spawn(2);
    assert_eq!(pool.step(0, false), Action::Proceed);
    assert_eq!(pool.step(0, false), Action::Proceed);
    pool.shutdown_now();
    let (polled, discarded, last) = run(&mut pool, 0);
    assert!(polled.is_empty());
    assert_eq!(discarded, vec![1]);
    assert_eq!(last, Action::Exit);
    assert_eq!(run(&mut pool, 1), (vec![], vec![], Action::Exit));
    assert_eq!(pool.step(1, false), Action::Exit);
}

#[test]
fn shutdown_on_idle_drains() {
    let mut pool = ThreadPool::with_threads(1);
    for task in 0..40 {
        pool.spawn(task);
    }
    assert_eq!(pool.step(0, false), Action::Proceed);
    assert_eq!(pool.step(0, false), Action::Proceed);
    pool.shutdown_on_idle();
    let (polled, discarded, last) = run(&mut pool, 0);
    assert_eq!(polled, (0..40).collect::<Vec<usize>>());
    assert!(discarded.is_empty());
    assert_eq!(last, Action::Exit);
}

#[test]
fn shutdown_on_idle_runs_what_was_spawned() {
    let mut pool = ThreadPool::with_threads(1);
    assert_eq!(pool.spawn(7), Some(0));
    pool.shutdown_on_idle();
    assert_eq!(run(&mut pool, 0), (vec![7], vec![], Action::Exit));
}

#[test]
fn shutdown_on_idle_drains_a_pool_that_sleeps() {
    let mut pool = ThreadPool::with_threads(3);
    for w in 0..3 {
        assert_eq!(pool.step(w, false), Action::Wait);
    }
    for task in 0..100 {
        pool.spawn(task);
    }
    pool.shutdown_on_idle();
    let mut seen = Vec::new();
    for w in 0..3 {
        let (polled, discarded, last) = run(&mut pool, w);
        seen.extend(polled);
        assert!(discarded.is_empty());
        assert_eq!(last, Action::Exit);
    }
    seen.sort();
    assert_eq!(seen, (0..100).collect::<Vec<usize>>());
}

#[test]
fn task_that_comes_during_the_drain_is_run() {
    let mut pool = ThreadPool::with_threads(2);
    pool.spawn(1);
    pool.shutdown_on_idle();
    pool.spawn(2);
    assert_eq!(run(&mut pool, 1), (vec![1, 2], vec![], Action::Exit));
    assert_eq!(run(&mut pool, 0), (vec![], vec![], Action::Exit));
}

#[test]
fn told_worker_goes_back_on_the_sleep_queue() {
    let mut pool = ThreadPool::with_threads(1);
    assert_eq!(pool.spawn(1), Some(0));
    assert_eq!(pool.step(0, false), Action::Proceed);
    assert_eq!(pool.step(0, false), Action::Proceed);
    pool.shutdown_on_idle();
    while pool.step(0, false) != Action::Idle {}
    assert_eq!(pool.spawn(2), None);
    while pool.step(0, false) != Action::Idle {}
    assert_eq!(pool.step(0, false), Action::Proceed);
    // It has stopped running tasks, and has not ended yet.
    assert_eq!(pool.spawn(3), Some(0));
    assert_eq!(run(&mut pool, 0), (vec![3], vec![], Action::Exit));
}

#[test]
fn told_worker_stands_on_the_sleep_queue_once() {
    let mut pool = ThreadPool::with_threads(2);
    assert_eq!(pool.spawn(1), Some(0));
    pool.shutdown_on_idle();
    // The other worker runs the task without having been called for it.
    assert_eq!(run(&mut pool, 1), (vec![1], vec![], Action::Exit));
    assert_eq!(pool.spawn(2), Some(1));
    assert_eq!(pool.spawn(3), None);
}

#[test]
fn second_shutdown_changes_nothing() {
    let mut pool = ThreadPool::with_threads(1);
    pool.spawn(1);
    pool.shutdown_on_idle();
    pool.shutdown_now();
    // The first one still holds.
    assert_eq!(run(&mut pool, 0), (vec![1], vec![], Action::Exit));
    pool.shutdown_on_idle();
    assert_eq!(pool.step(0, false), Action::Exit);
}

#[test]
fn ended_worker_is_not_told_again() {
    let mut shared = Shared::new(1);
    shared.tell_all(SHUTDOWN_NOW);
    assert_eq!(shared.step(0, false), Action::Proceed);
    assert_eq!(shared.step(0, false), Action::Exit);
    shared.tell_all(SHUTDOWN_IDLE);
    assert_eq!(shared.step(0, false), Action::Exit);
}

#[test]
fn wakeup_does_not_call_off_a_shutdown() {
    let mut pool = ThreadPool::with_threads(1);
    assert_eq!(pool.step(0, false), Action::Wait);
    pool.shutdown_now();
    assert_eq!(pool.spawn(5), Some(0));
    assert_eq!(run(&mut pool, 0), (vec![], vec![], Action::Exit));
    // Nor does one after the worker has ended start it again.
    pool.spawn(6);
    assert_eq!(pool.step(0, false), Action::Exit);
}

#[test]
fn untold_worker_does_not_end() {
    let mut pool = ThreadPool::with_threads(1);
    for task in 0..20 {
        pool.spawn(task);
        for _ in 0..20 {
            assert_ne!(pool.step(0, true), Action::Exit);
        }
    }
}

#[test]
fn parked_worker_ends_when_it_is_shut_down() {
    let mut pool = ThreadPool::with_threads(1);
    assert_eq!(pool.step(0, false), Action::Wait);
    pool.shutdown_on_idle();
    assert_eq!(pool.step(0, false), Action::Proceed);
    assert_eq!(pool.step(0, false), Action::Exit);
}

#[test]
fn what_follows_a_search() {
    let mut shared = Shared::new(2);
    assert_eq!(shared.count(), 2);
    assert_eq!(shared.submit(9), Some(0));
    assert_eq!(shared.step(0, false), Action::Proceed);
    assert_eq!(shared.step(0, false), Action::Proceed);
    assert_eq!(shared.follow(0, Fetch::Retry), Action::Proceed);
    assert_eq!(shared.follow(0, Fetch::Task(9)), Action::Poll(9));
    assert_eq!(shared.follow(0, Fetch::Empty), Action::Idle);
    shared.tell_all(SHUTDOWN_NOW);
    assert_eq!(shared.follow(0, Fetch::Task(8)), Action::Discard(8));
    assert_eq!(shared.step(0, false), Action::Proceed);
    assert_eq!(shared.step(0, false), Action::Exit);
}

#[test]
fn worker_states_that_shut_down() {
    assert!(!is_shutdown(IDLE));
    assert!(!is_shutdown(RUNNING));
    assert!(!is_shutdown(NEW_TASK));
    assert!(is_shutdown(SHUTDOWN_IDLE));
    assert!(is_shutdown(SHUTDOWN_NOW));
}

#[test]
fn worker_cycle() {
    let mut handle = Handle::new();
    assert_eq!(handle.state(), RUNNING);
    assert_eq!(handle.cycle(false), Action::Wait);
    assert_eq!(handle.state(), IDLE);
    assert_eq!(handle.phase(), Phase::Parked);
    // It was unparked, but has been told nothing.
    assert_eq!(handle.cycle(false), Action::Proceed);
    assert_eq!(handle.cycle(false), Action::Proceed);
    assert_eq!(handle.phase(), Phase::Start);
    handle.tell(NEW_TASK);
    assert_eq!(handle.cycle(false), Action::Proceed);
    assert_eq!(handle.cycle(false), Action::Proceed);
    assert_eq!(handle.phase(), Phase::Fetching);
    assert_eq!(handle.state(), RUNNING);
    handle.enter(Phase::Waking);
    assert_eq!(handle.cycle(false), Action::Unreachable);
    // A worker that is to shut down when it is idle is not idle yet.
    handle.tell(SHUTDOWN_IDLE);
    assert_eq!(handle.cycle(true), Action::Proceed);
    assert_eq!(handle.phase(), Phase::Fetching);
    assert_eq!(handle.state(), SHUTDOWN_IDLE);
    handle.enter(Phase::Waking);
    assert_eq!(handle.cycle(false), Action::Exit);
}

#[test]
fn own_queue_comes_first() {
    let mut queues = vec![queue_of(&[1, 2]), queue_of(&[3])];
    let mut injector = TaskInjector::new();
    injector.push(4);
    assert_eq!(fetch(&mut queues, 0, &mut injector), Fetch::Task(1));
    assert_eq!(contents(&mut queues[0]), vec![2]);
    assert!(!injector.is_empty());
}

#[test]
fn injector_comes_before_the_other_workers() {
    let mut queues = vec![queue_of(&[]), queue_of(&[3])];
    let mut injector = TaskInjector::new();
    injector.push(4);
    assert_eq!(fetch(&mut queues, 0, &mut injector), Fetch::Task(4));
    assert_eq!(contents(&mut queues[1]), vec![3]);
}

#[test]
fn first_worker_with_tasks_is_stolen_from() {
    let mut queues = vec![queue_of(&[]), queue_of(&[]), queue_of(&[5]), queue_of(&[6])];
    let mut injector = TaskInjector::new();
    assert_eq!(fetch(&mut queues, 1, &mut injector), Fetch::Task(5));
    assert_eq!(contents(&mut queues[3]), vec![6]);
    assert_eq!(fetch(&mut queues, 1, &mut injector), Fetch::Empty);
}

#[test]
fn worker_with_tasks_does_not_steal() {
    let mut queues = vec![queue_of(&[7]), queue_of(&[8])];
    steal(&mut queues, 0);
    assert_eq!(contents(&mut queues[0]), vec![7]);
    assert_eq!(contents(&mut queues[1]), vec![8]);
}

#[test]
fn search_ends_as_the_injector_says() {
    let mut queues = vec![queue_of(&[1]), queue_of(&[2])];
    assert_eq!(finish_fetch(&mut queues, 0, Stolen::Retry), Fetch::Retry);
    assert_eq!(finish_fetch(&mut queues, 0, Stolen::Success), Fetch::Task(1));
    assert_eq!(finish_fetch(&mut queues, 0, Stolen::Success), Fetch::Empty);
    assert_eq!(finish_fetch(&mut queues, 0, Stolen::Empty), Fetch::Task(2));
    assert_eq!(finish_fetch(&mut queues, 0, Stolen::Empty), Fetch::Empty);
}

#[test]
fn future_has_one_user() {
    let mut header = Header::new();
    assert_eq!(header.lock(), Lock::Acquired);
    assert_eq!(header.state(), LOCKED);
    assert_eq!(header.lock(), Lock::Busy);
    header.polled(false);
    assert_eq!(header.state(), UNLOCKED);
    assert_eq!(header.lock(), Lock::Acquired);
    header.polled(true);
    assert_eq!(header.lock(), Lock::Complete);
}

#[test]
fn last_reference_frees_the_task() {
    let mut header = Header::new();
    waker(&mut header);
    assert_eq!(header.refs(), 2);
    assert!(!drop_task(&mut header));
    assert!(drop_task(&mut header));
}

#[test]
fn wakeups_account_for_references() {
    let mut pool = ThreadPool::with_threads(1);
    let mut header = Header::new();
    // The one reference becomes that of the entry in the injector.
    assert_eq!(
        wake(&mut header, 3, Some(&mut pool)),
        Wake { woken: Some(0), freed: false }
    );
    // The waker keeps its reference, and one is made for the entry.
    assert_eq!(
        wake_by_ref(&mut header, 3, Some(&mut pool)),
        Wake { woken: None, freed: false }
    );
    assert_eq!(run(&mut pool, 0).0, vec![3, 3]);
    assert!(!drop_task(&mut header));
    assert!(drop_task(&mut header));
}

#[test]
fn wakeups_without_a_pool_drop_the_reference() {
    let mut header = Header::new();
    assert_eq!(
        wake_by_ref(&mut header, 3, None),
        Wake { woken: None, freed: false }
    );
    assert_eq!(
        wake(&mut header, 3, None),
        Wake { woken: None, freed: true }
    );
}
