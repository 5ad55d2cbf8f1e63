//! Tests of the executor and of its tasks.
use threader::executor::task::Task;
use threader::executor::{drained, Action, Executor};
use threader::queues::{Stolen, TaskInjector};
use threader::thread_pool::task::Lock;
use threader::thread_pool::worker::Fetch;

// Takes steps of a thread until it has nothing to do, and returns the tasks
// that it was to poll.
fn run(executor: &mut Executor, w: usize, injector: &mut TaskInjector) -> Vec<usize> {
    let mut polled = Vec::new();
    loop {
        match executor.step(w, injector) {
            Action::Poll(task) => polled.push(task),
            Action::Proceed | Action::Idle => (),
            Action::Snooze | Action::Exit(_) => return polled,
        }
    }
}

#[test]
fn simple() {
    let mut injector = TaskInjector::new();
    let mut executor = Executor::new(None);

    executor.spawn(&mut injector, 0);

    assert_eq!(run(&mut executor, 0, &mut injector), vec![0]);
}

#[test]
fn reschedule() {
    let mut injector = TaskInjector::new();
    let mut executor = Executor::new(None);
    let mut task = Task::new();

    executor.spawn(&mut injector, 0);
    assert_eq!(run(&mut executor, 0, &mut injector), vec![0]);
    assert_eq!(task.future(), Lock::Acquired);
    task.polled(false);
    assert!(task.wake_by_ref(0, Some(&mut injector)));

    assert_eq!(run(&mut executor, 0, &mut injector), vec![0]);
    assert_eq!(task.future(), Lock::Acquired);
    task.polled(true);
    assert!(task.is_complete());
}

#[test]
fn custom_thread_count() {
    let mut injector = TaskInjector::new();
    let mut executor = Executor::new(32.into());
    executor.spawn(&mut injector, 0);
    assert_eq!(run(&mut executor, 31, &mut injector), vec![0]);
}

#[test]
fn bad_future() {
    let mut injector = TaskInjector::new();
    let mut executor = Executor::new(None);
    let mut tasks = Vec::new();

    for id in 0..50 {
        tasks.push(Task::new());
        executor.spawn(&mut injector, id);
    }
    for id in run(&mut executor, 0, &mut injector) {
        assert_eq!(tasks[id].future(), Lock::Acquired);
        tasks[id].polled(true);
    }
    // A complete task is not rescheduled, however often it is woken.
    for id in 0..50 {
        assert!(!tasks[id].wake_by_ref(id, Some(&mut injector)));
    }
    assert!(run(&mut executor, 0, &mut injector).is_empty());
}

#[test]
fn executor_takes_the_given_count_or_that_of_the_machine() {
    let mut injector = TaskInjector::new();
    let mut given = Executor::with_cpus(Some(2), 8);
    given.spawn(&mut injector, 5);
    assert_eq!(run(&mut given, 1, &mut injector), vec![5]);
    let mut default = Executor::with_cpus(None, 8);
    default.spawn(&mut injector, 6);
    assert_eq!(run(&mut default, 7, &mut injector), vec![6]);
}

#[test]
fn executors_share_the_injector() {
    let mut injector = TaskInjector::new();
    let first = Executor::new(Some(1));
    let mut second = Executor::new(Some(1));
    first.spawn(&mut injector, 1);
    second.spawn(&mut injector, 2);
    assert_eq!(run(&mut second, 0, &mut injector), vec![1, 2]);
}

#[test]
fn threads_steal_from_each_other() {
    let mut injector = TaskInjector::new();
    let mut executor = Executor::new(Some(2));
    for task in 0..8 {
        executor.spawn(&mut injector, task);
    }
    let mut seen = Vec::new();
    while let Action::Poll(task) = executor.step(0, &mut injector) {
        seen.push(task);
        if seen.len() == 2 {
            break;
        }
    }
    seen.extend(run(&mut executor, 1, &mut injector));
    seen.extend(run(&mut executor, 0, &mut injector));
    seen.sort();
    assert_eq!(seen, (0..8).collect::<Vec<usize>>());
}

#[test]
fn shutdown_ends_a_thread() {
    let mut injector = TaskInjector::new();
    let mut executor = Executor::new(Some(2));
    assert_eq!(executor.step(1, &mut injector), Action::Idle);
    for task in 0..5 {
        executor.spawn(&mut injector, task);
    }
    let mut dropped = Vec::new();
    while !injector.is_empty() {
        dropped.extend(executor.shut_down(&mut injector));
    }
    assert_eq!(dropped, vec![0, 1, 2, 3, 4]);
    assert_eq!(executor.step(0, &mut injector), Action::Exit(None));
    assert_eq!(executor.step(1, &mut injector), Action::Exit(None));
    assert_eq!(executor.step(1, &mut injector), Action::Exit(None));
}

#[test]
fn tasks_that_were_taken_can_be_abandoned() {
    let mut injector = TaskInjector::new();
    let mut executor = Executor::new(Some(2));
    assert_eq!(executor.count(), 2);
    for task in 0..10 {
        executor.spawn(&mut injector, task);
    }
    let mut first = executor.step(1, &mut injector);
    while first == Action::Proceed {
        first = executor.step(1, &mut injector);
    }
    assert_eq!(first, Action::Poll(0));
    let mut tasks = executor.abandon();
    while !injector.is_empty() {
        tasks.extend(executor.shut_down(&mut injector));
    }
    assert_eq!(tasks, (1..10).collect::<Vec<usize>>());
    assert!(executor.abandon().is_empty());
}

#[test]
fn what_follows_a_search_of_a_thread() {
    let mut injector = TaskInjector::new();
    let mut executor = Executor::new(Some(1));
    assert_eq!(executor.follow(0, Fetch::Task(3)), Action::Poll(3));
    assert_eq!(executor.follow(0, Fetch::Retry), Action::Proceed);
    assert_eq!(executor.follow(0, Fetch::Empty), Action::Idle);
    assert_eq!(executor.step(0, &mut injector), Action::Snooze);
    executor.shut_down(&mut injector);
    assert_eq!(executor.follow(0, Fetch::Task(4)), Action::Exit(Some(4)));
}

#[test]
fn future_of_an_executor_task_has_one_user() {
    let mut task = Task::new();
    assert_eq!(task.future(), Lock::Acquired);
    assert_eq!(task.future(), Lock::Busy);
    task.polled(false);
    assert_eq!(task.future(), Lock::Acquired);
}

#[test]
fn task_without_an_injector_is_not_rescheduled() {
    let task = Task::new();
    assert!(!task.wake_by_ref(0, None));
}

#[test]
fn task_woken_before_it_completes_is_not_polled_after() {
    let mut injector = TaskInjector::new();
    let mut executor = Executor::new(Some(2));
    let mut task = Task::new();
    executor.spawn(&mut injector, 0);
    assert_eq!(run(&mut executor, 0, &mut injector), vec![0]);
    assert_eq!(task.future(), Lock::Acquired);
    // The task is woken while it is polled, and found by another thread.
    assert!(task.wake_by_ref(0, Some(&mut injector)));
    assert_eq!(run(&mut executor, 1, &mut injector), vec![0]);
    assert_eq!(task.future(), Lock::Busy);
    task.polled(true);
    assert_eq!(task.future(), Lock::Complete);
    assert!(!task.wake_by_ref(0, Some(&mut injector)));
    assert_eq!(task.future(), Lock::Complete);
}

#[test]
fn draining_goes_on_until_there_is_nothing_to_take() {
    let mut tasks = vec![1];
    assert!(drained(&mut tasks, (Stolen::Success, Some(2))));
    assert!(drained(&mut tasks, (Stolen::Retry, None)));
    assert!(!drained(&mut tasks, (Stolen::Empty, None)));
    assert_eq!(tasks, vec![1, 2]);
}
