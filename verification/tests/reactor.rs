//! Tests of the reactor.
use threader::reactor::background::{joined, Background, BackgroundError, Turn};
use threader::reactor::handle::{Handle, HandleError};
use threader::reactor::io_waker::IoWaker;
use threader::reactor::observer::{Observer, PollResource};
use threader::reactor::{Event, Reactor, MAX_EVENTS};

const READ: usize = 1;
const WRITE: usize = 2;

fn event(token: usize, readiness: usize) -> Event {
    Event { token, readiness }
}

// Registers a resource whose IoWaker has this number.
fn register(reactor: &mut Reactor<usize>, io_waker: usize) -> usize {
    let token = reactor.take_token().unwrap();
    assert_eq!(reactor.register::<()>(token, io_waker, Ok(())), Ok(()));
    token
}

// Tells the IoWakers of the events and returns the wakers that are woken.
fn dispatch(
    reactor: &Reactor<usize>,
    io_wakers: &mut Vec<IoWaker<char>>,
    events: &Vec<Event>,
) -> Vec<char> {
    let mut woken = Vec::new();
    for notice in reactor.poll(events) {
        let wakers = io_wakers[*notice.io_waker].wake_if_ready(notice.readiness);
        woken.extend(wakers.read);
        woken.extend(wakers.write);
    }
    woken
}

#[test]
fn capacity_is_given_or_default() {
    assert_eq!(MAX_EVENTS, 2048);
    assert_eq!(Reactor::<usize>::new().events(), 2048);
    assert_eq!(Reactor::<usize>::with_capacity(7).events(), 7);
}

#[test]
fn tokens_are_distinct_and_reused_in_order() {
    let mut reactor = Reactor::new();
    let first = register(&mut reactor, 10);
    let second = register(&mut reactor, 11);
    let third = register(&mut reactor, 12);
    assert_eq!((first, second, third), (0, 1, 2));
    assert_eq!(reactor.deregister::<()>(second, Ok(())), Ok(()));
    assert_eq!(reactor.deregister::<()>(first, Ok(())), Ok(()));
    assert_eq!(register(&mut reactor, 13), 1);
    assert_eq!(register(&mut reactor, 14), 0);
    assert_eq!(register(&mut reactor, 15), 3);
}

#[test]
fn refused_resource_is_not_registered_and_keeps_its_token() {
    let mut reactor = Reactor::new();
    let token = reactor.take_token().unwrap();
    assert_eq!(reactor.register(token, 10, Err("refused")), Err("refused"));
    assert!(reactor.poll(&vec![event(token, READ)]).is_empty());
    assert_eq!(reactor.take_token(), Some(1));
}

#[test]
fn refused_deregistration_changes_nothing() {
    let mut reactor = Reactor::new();
    let token = register(&mut reactor, 10);
    assert_eq!(reactor.deregister(token, Err("refused")), Err("refused"));
    assert_eq!(reactor.poll(&vec![event(token, READ)]).len(), 1);
    assert_eq!(reactor.take_token(), Some(1));
}

#[test]
fn events_reach_the_resources_they_are_about() {
    let mut reactor = Reactor::new();
    let first = register(&mut reactor, 10);
    let second = register(&mut reactor, 11);
    let events = vec![event(second, WRITE), event(99, READ), event(first, READ)];
    let notices = reactor.poll(&events);
    assert_eq!(notices.len(), 2);
    assert_eq!((*notices[0].io_waker, notices[0].readiness), (11, WRITE));
    assert_eq!((*notices[1].io_waker, notices[1].readiness), (10, READ));
    assert!(reactor.poll(&vec![]).is_empty());
}

#[test]
fn deregister_undoes_register() {
    let mut reactor = Reactor::new();
    let other = register(&mut reactor, 10);
    let token = register(&mut reactor, 11);
    assert_eq!(reactor.deregister::<()>(token, Ok(())), Ok(()));
    let events = vec![event(token, READ), event(other, READ)];
    let notices = reactor.poll(&events);
    assert_eq!(notices.len(), 1);
    assert_eq!(*notices[0].io_waker, 10);
}

#[test]
fn events_wake_those_who_wait() {
    let mut reactor = Reactor::new();
    let mut io_wakers = Vec::new();
    for io_waker in 0..2 {
        let token = register(&mut reactor, io_waker);
        io_wakers.push(IoWaker::new(token));
    }
    assert_eq!(io_wakers[0].poll_readable('r'), None);
    assert_eq!(io_wakers[0].poll_writable('w'), None);
    assert_eq!(io_wakers[1].poll_readable('x'), None);
    assert_eq!(
        dispatch(&reactor, &mut io_wakers, &vec![event(0, WRITE), event(0, READ)]),
        vec!['w', 'r']
    );
    assert_eq!(io_wakers[0].poll_readable('r'), Some(READ | WRITE));
    assert_eq!(io_wakers[0].poll_writable('w'), Some(WRITE));
    assert_eq!(io_wakers[1].poll_readable('y'), None);
    // Only the waker that was left last is woken.
    assert_eq!(
        dispatch(&reactor, &mut io_wakers, &vec![event(1, READ), event(1, READ)]),
        vec!['y']
    );
}

#[test]
fn readiness_is_reported_once() {
    let mut io_waker = IoWaker::new(5);
    assert_eq!(io_waker.token(), 5);
    let wakers = io_waker.wake_if_ready(READ | WRITE);
    assert_eq!((wakers.read, wakers.write), (None, None));
    assert_eq!(io_waker.poll_writable('w'), Some(READ | WRITE));
    assert_eq!(io_waker.poll_writable('w'), None);
    assert_eq!(io_waker.poll_readable('r'), Some(READ));
    assert_eq!(io_waker.poll_readable('r'), None);
    let wakers = io_waker.wake_if_ready(READ | WRITE);
    assert_eq!((wakers.read, wakers.write), (Some('r'), Some('w')));
    let wakers = io_waker.wake_if_ready(READ | WRITE);
    assert_eq!((wakers.read, wakers.write), (None, None));
}

#[test]
fn readiness_can_be_cleared() {
    let mut io_waker = IoWaker::new(0);
    io_waker.register_read('r');
    io_waker.register_write('w');
    // Other kinds of readiness wake nobody.
    let wakers = io_waker.wake_if_ready(4);
    assert_eq!((wakers.read, wakers.write), (None, None));
    let wakers = io_waker.wake_if_ready(READ | WRITE);
    assert_eq!((wakers.read, wakers.write), (Some('r'), Some('w')));
    io_waker.clear_read();
    assert_eq!(io_waker.poll_readable('r'), None);
    io_waker.clear_write();
    assert_eq!(io_waker.poll_writable('w'), None);
}

#[test]
fn handle_reaches_its_reactor() {
    let mut reactor: Reactor<usize> = Reactor::new();
    let token = Handle { reactor: Some(&mut reactor) }.take_token::<&str>().unwrap();
    assert_eq!(token, 0);
    assert!(Handle { reactor: Some(&mut reactor) }.register::<&str>(token, 7, Ok(())).is_ok());
    assert_eq!(reactor.poll(&vec![event(token, READ)]).len(), 1);
    assert!(Handle { reactor: Some(&mut reactor) }.reregister::<&str>(Ok(())).is_ok());
    assert!(Handle { reactor: Some(&mut reactor) }.deregister::<&str>(token, Ok(())).is_ok());
    assert!(reactor.poll(&vec![event(token, READ)]).is_empty());
    assert_eq!(reactor.take_token(), Some(0));
}

#[test]
fn handle_passes_errors_on() {
    let mut reactor: Reactor<usize> = Reactor::new();
    assert!(matches!(
        Handle { reactor: Some(&mut reactor) }.register(0, 7, Err("a")),
        Err(HandleError::Io("a"))
    ));
    assert!(matches!(
        Handle { reactor: Some(&mut reactor) }.reregister(Err("b")),
        Err(HandleError::Io("b"))
    ));
    assert!(matches!(
        Handle { reactor: Some(&mut reactor) }.deregister(0, Err("c")),
        Err(HandleError::Io("c"))
    ));
    assert_eq!(reactor.take_token(), Some(0));
}

#[test]
fn handle_without_a_reactor_fails() {
    assert!(matches!(
        Handle::<usize> { reactor: None }.take_token::<()>(),
        Err(HandleError::NoReactor)
    ));
    assert!(matches!(
        Handle::<usize> { reactor: None }.register::<()>(0, 7, Ok(())),
        Err(HandleError::NoReactor)
    ));
    assert!(matches!(
        Handle::<usize> { reactor: None }.reregister::<()>(Ok(())),
        Err(HandleError::NoReactor)
    ));
    assert!(matches!(
        Handle::<usize> { reactor: None }.deregister::<()>(0, Ok(())),
        Err(HandleError::NoReactor)
    ));
}

#[test]
fn observer_keeps_its_parts() {
    let mut observer =
        Observer::new::<()>(String::from("socket"), Ok(3), 'h').unwrap_or_else(|_| panic!());
    assert_eq!(observer.get_ref(), "socket");
    assert_eq!(observer.io_waker(), 3);
    assert_eq!(observer.handle(), 'h');
    observer.get_mut().push('!');
    assert_eq!(observer.get_ref(), "socket!");
    let other: PollResource<String, i32, char> =
        Observer::from_other(String::from("clone"), &observer);
    assert_eq!(other.get_ref(), "clone");
    assert_eq!(other.io_waker(), 3);
    assert_eq!(other.handle(), 'h');
}

#[test]
fn observer_of_a_resource_that_was_refused_is_not_made() {
    let refused: Result<Observer<u8, u8, u8>, &str> = Observer::new(1, Err("refused"), 2);
    assert!(matches!(refused, Err("refused")));
}

#[test]
fn background_thread_polls_until_it_is_shut_down() {
    let mut background = Background::new();
    background.started('j');
    assert!(matches!(background.turn::<()>(Ok(())), Turn::Poll));
    assert_eq!(background.shutdown_now(), Some('j'));
    assert_eq!(background.shutdown_now(), None);
    assert!(matches!(background.turn::<()>(Ok(())), Turn::Exit(Ok(()))));
}

#[test]
fn background_thread_ends_with_an_error() {
    let mut background = Background::<char>::new();
    assert!(matches!(background.turn(Err("poll")), Turn::Exit(Err("poll"))));
    background.stop();
    assert!(matches!(background.turn(Err("poll")), Turn::Exit(Err("poll"))));
    assert!(matches!(background.turn::<()>(Ok(())), Turn::Exit(Ok(()))));
}

#[test]
fn errors_of_the_background_thread_are_returned() {
    assert!(matches!(joined::<&str, ()>(Ok(Ok(()))), Ok(())));
    assert!(matches!(
        joined::<&str, ()>(Ok(Err("poll"))),
        Err(BackgroundError::Io("poll"))
    ));
    assert!(matches!(
        joined::<&str, ()>(Err(())),
        Err(BackgroundError::Panicked)
    ));
}
