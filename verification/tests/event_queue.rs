//! Tests of the event queue.
use threader::event_queue::{interest, EventQueue, Handler, MAX_EVENTS};
use threader::reactor::Event;

#[test]
fn queue_capacity_is_given_or_default() {
    assert_eq!(MAX_EVENTS, 8192);
    assert_eq!(EventQueue::<u8>::new().events(), 8192);
    assert_eq!(EventQueue::<u8>::with_capacity(3).events(), 3);
}

#[test]
fn resources_are_registered_for_reading_and_writing() {
    assert_eq!(interest(), 3);
}

#[test]
fn queue_passes_events_on() {
    let mut queue = EventQueue::new();
    let first = queue.take_token().unwrap();
    let second = queue.take_token().unwrap();
    assert_eq!((first, second), (0, 1));
    assert_eq!(queue.register::<()>(first, 'a', Ok(())), Ok(()));
    assert_eq!(queue.register(second, 'b', Err("refused")), Err("refused"));
    let events = vec![
        Event { token: second, readiness: 1 },
        Event { token: first, readiness: 2 },
    ];
    let calls = queue.advance(&events);
    assert_eq!(calls.len(), 1);
    assert_eq!((*calls[0].handler, calls[0].readiness), ('a', 2));
    assert_eq!(queue.take_token(), Some(2));
}

#[test]
fn handler_without_a_waker_wakes_nobody() {
    let mut handler: Handler<char> = Handler::new();
    assert_eq!(handler.wake(1), None);
    assert_eq!(handler.wake(2), None);
}

#[test]
fn each_handler_is_told_of_its_own_events() {
    let mut queue = EventQueue::new();
    for handler in 0..2 {
        let token = queue.take_token().unwrap();
        assert_eq!(queue.register::<()>(token, handler, Ok(())), Ok(()));
    }
    let events = vec![
        Event { token: 1, readiness: 1 },
        Event { token: 0, readiness: 2 },
        Event { token: 1, readiness: 2 },
    ];
    let calls = queue.advance(&events);
    let told: Vec<(usize, usize)> = calls.iter().map(|c| (*c.handler, c.readiness)).collect();
    assert_eq!(told, vec![(1, 1), (0, 2), (1, 2)]);
}
