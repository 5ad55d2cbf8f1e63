//! Tests of the queues.
use threader::queues::{BoundedQueue, Stolen, TaskInjector, TaskQueue, UnboundedQueue};

// Moves a batch out of an injector that holds tasks.
fn take_batch(injector: &mut TaskInjector, queue: &mut TaskQueue) {
    loop {
        match injector.steal_batch(queue) {
            Stolen::Success => return,
            Stolen::Retry => (),
            Stolen::Empty => panic!("the injector holds tasks"),
        }
    }
}

// Empties an injector.
fn drain(injector: &mut TaskInjector) -> Vec<usize> {
    let mut tasks = Vec::new();
    loop {
        match injector.steal() {
            (Stolen::Success, task) => tasks.push(task.unwrap()),
            (Stolen::Retry, _) => (),
            (Stolen::Empty, task) => {
                assert_eq!(task, None);
                return tasks;
            }
        }
    }
}

#[test]
fn injector_is_first_in_first_out() {
    let mut injector = TaskInjector::new();
    assert!(injector.is_empty());
    assert_eq!(injector.steal(), (Stolen::Empty, None));
    for task in 0..100 {
        injector.push(task);
    }
    assert!(!injector.is_empty());
    assert_eq!(drain(&mut injector), (0..100).collect::<Vec<usize>>());
    assert!(injector.is_empty());
}

#[test]
fn batches_keep_the_order() {
    let mut injector = TaskInjector::new();
    let mut queue = TaskQueue::new_fifo();
    assert_eq!(injector.steal_batch(&mut queue), Stolen::Empty);
    assert_eq!(queue.pop(), None);
    for task in 0..200 {
        injector.push(task);
    }
    let mut tasks = Vec::new();
    while !injector.is_empty() {
        take_batch(&mut injector, &mut queue);
        let before = tasks.len();
        while let Some(task) = queue.pop() {
            tasks.push(task);
        }
        assert!(tasks.len() > before);
        assert!(tasks.len() <= before + 32);
    }
    assert_eq!(tasks, (0..200).collect::<Vec<usize>>());
}

#[test]
fn workers_steal_from_the_front() {
    let mut injector = TaskInjector::new();
    let mut from = TaskQueue::new_fifo();
    let mut to = TaskQueue::new_fifo();
    assert_eq!(from.steal_batch(&mut to), Stolen::Empty);
    for task in 10..20 {
        injector.push(task);
    }
    while !injector.is_empty() {
        take_batch(&mut injector, &mut from);
    }
    assert!(!from.is_empty());
    assert_eq!(from.steal_batch(&mut to), Stolen::Success);
    let mut tasks = Vec::new();
    while let Some(task) = to.pop() {
        tasks.push(task);
    }
    assert!(!tasks.is_empty());
    while let Some(task) = from.pop() {
        tasks.push(task);
    }
    assert_eq!(tasks, (10..20).collect::<Vec<usize>>());
    assert!(from.is_empty());
}

#[test]
fn bounded_queue_gives_back_what_it_has_no_room_for() {
    let mut queue = BoundedQueue::new(2);
    assert!(queue.is_empty());
    assert_eq!(queue.pop(), None);
    assert_eq!(queue.push(5), Ok(()));
    assert_eq!(queue.push(6), Ok(()));
    assert_eq!(queue.push(7), Err(7));
    assert!(!queue.is_empty());
    assert_eq!(queue.pop(), Some(5));
    assert_eq!(queue.push(8), Ok(()));
    assert_eq!(queue.pop(), Some(6));
    assert_eq!(queue.pop(), Some(8));
    assert_eq!(queue.pop(), None);
}

#[test]
fn unbounded_queue_is_first_in_first_out() {
    let mut queue = UnboundedQueue::new();
    assert_eq!(queue.pop(), None);
    for item in 0..1000 {
        queue.push(item);
    }
    for item in 0..1000 {
        assert_eq!(queue.pop(), Some(item));
    }
    assert_eq!(queue.pop(), None);
}
