//! The decisions of a TCP stream between its calls of the system.
use crate::ready::{lemma_union, readable, readable_bit, writable, writable_bit};
use vstd::prelude::*;

verus! {

/// The kinds of IO errors that are told apart.
#[derive(Clone, Copy, Debug, PartialEq, Eq, Structural)]
pub enum ErrorKind {
    /// The operation would have to wait.
    WouldBlock,
    /// The operation was interrupted.
    Interrupted,
    /// Anything else.
    Other,
}

/// An IO error and its kind.
#[derive(Debug)]
pub struct Failure<E> {
    pub kind: ErrorKind,
    pub error: E,
}

/// The operation may succeed when it is tried again.
pub open spec fn retry(kind: ErrorKind) -> bool {
    kind is WouldBlock || kind is Interrupted
}

/// What a stream is registered for: a readiness which is readable and writable.
pub fn rw() -> (readiness: usize)
    ensures
        readiness == 1usize | 2usize,
        readable(readiness),
        writable(readiness),
{
    proof {
        lemma_union(1, 2);
        assert(1usize & 1 == 1) by (bit_vector);
        assert(2usize & 2 == 2) by (bit_vector);
    }
    readable_bit() | writable_bit()
}

/// Checks if the given error is `WouldBlock` or `Interrupted`.
pub fn is_retry(kind: ErrorKind) -> (is: bool)
    ensures
        is == retry(kind),
{
    kind == ErrorKind::WouldBlock || kind == ErrorKind::Interrupted
}

/// Something that has happened to a poll that reads, writes or flushes.
#[derive(Debug)]
pub enum RwEvent<T, E> {
    /// The operation was tried, and this came of it.
    Tried(Result<T, Failure<E>>),
    /// The resource was reregistered, and this came of it.
    Reregistered(Result<(), E>),
    /// The resource was polled for readiness. `None` means that it is not
    /// ready, and that the task is woken when it is.
    Polled(Option<usize>),
}

/// What a poll that reads, writes or flushes does next.
#[derive(Debug)]
pub enum RwAction<T, E> {
    /// Tries the operation. This comes first.
    Try,
    /// Reregisters the resource for reading and writing, edge-triggered.
    Reregister,
    /// Polls the resource for the readiness that the operation needs.
    Poll,
    /// Returns this.
    Ready(Result<T, E>),
    /// Returns that there is no result yet.
    Pending,
}

/// What follows an event.
pub open spec fn rw_action<T, E>(event: RwEvent<T, E>) -> RwAction<T, E> {
    match event {
        RwEvent::Tried(Ok(value)) => RwAction::Ready(Ok(value)),
        RwEvent::Tried(Err(failure)) => match failure.kind {
            ErrorKind::WouldBlock => RwAction::Reregister,
            ErrorKind::Interrupted => RwAction::Try,
            ErrorKind::Other => RwAction::Ready(Err(failure.error)),
        },
        RwEvent::Reregistered(Ok(_)) => RwAction::Poll,
        RwEvent::Reregistered(Err(error)) => RwAction::Ready(Err(error)),
        RwEvent::Polled(Some(_)) => RwAction::Try,
        RwEvent::Polled(None) => RwAction::Pending,
    }
}

/// Decides what a poll that reads, writes or flushes does after an event.
pub fn poll_rw<T, E>(event: RwEvent<T, E>) -> (action: RwAction<T, E>)
    ensures
        action == rw_action(event),
{
    match event {
        RwEvent::Tried(Ok(value)) => RwAction::Ready(Ok(value)),
        RwEvent::Tried(Err(failure)) => {
            if !is_retry(failure.kind) {
                RwAction::Ready(Err(failure.error))
            } else if failure.kind == ErrorKind::WouldBlock {
                RwAction::Reregister
            } else {
                RwAction::Try
            }
        },
        RwEvent::Reregistered(Err(error)) => RwAction::Ready(Err(error)),
        RwEvent::Reregistered(Ok(_)) => RwAction::Poll,
        RwEvent::Polled(None) => RwAction::Pending,
        RwEvent::Polled(Some(_)) => RwAction::Try,
    }
}

/// The event comes of the action.
pub open spec fn rw_answers<T, E>(action: RwAction<T, E>, event: RwEvent<T, E>) -> bool {
    match action {
        RwAction::Try => event is Tried,
        RwAction::Reregister => event is Reregistered,
        RwAction::Poll => event is Polled,
        RwAction::Ready(_) | RwAction::Pending => false,
    }
}

/// The events of a poll so far: the operation is tried first, and each other
/// event comes of the action that followed the one before.
pub open spec fn rw_run<T, E>(events: Seq<RwEvent<T, E>>) -> bool {
    &&& events.len() > 0
    &&& events[0] is Tried
    &&& forall|i: int|
        0 < i < events.len() ==> rw_answers(rw_action(events[i - 1]), #[trigger] events[i])
}

/// A poll that has no result yet has found that the operation would have to
/// wait, has then reregistered the resource, and has after that left its waker
/// with it: the task is woken when the operation may succeed.
pub proof fn law_pending_poll_is_woken<T, E>(events: Seq<RwEvent<T, E>>)
    requires
        rw_run(events),
        rw_action(events.last()) is Pending,
    ensures
        events.len() >= 3,
        events[events.len() - 3] matches RwEvent::Tried(Err(failure))
            && failure.kind is WouldBlock,
        events[events.len() - 2] matches RwEvent::Reregistered(Ok(_)),
        events[events.len() - 1] matches RwEvent::Polled(None),
{
    let n = events.len() as int;
    assert(events[n - 1] is Polled);
    assert(rw_answers(rw_action(events[n - 2]), events[n - 1]));
    assert(events[n - 2] is Reregistered);
    assert(rw_answers(rw_action(events[n - 3]), events[n - 2]));
}

/// The result of a poll is the result of its last try, or the error of a
/// reregistration. No error comes out that a further try may overcome.
pub proof fn law_poll_returns_the_last_result<T, E>(events: Seq<RwEvent<T, E>>)
    requires
        rw_run(events),
        rw_action(events.last()) is Ready,
    ensures
        match rw_action(events.last())->Ready_0 {
            Ok(value) => events.last() matches RwEvent::Tried(Ok(result)) && result == value,
            Err(error) => {
                ||| events.last() matches RwEvent::Tried(Err(failure)) && failure.error == error
                    && !retry(failure.kind)
                ||| events.last() matches RwEvent::Reregistered(Err(refused)) && refused == error
            },
        },
{
}

/// Something that has happened to a peek.
#[derive(Debug)]
pub enum PeekEvent<E> {
    /// The socket was peeked at, and this came of it.
    Peeked(Result<usize, Failure<E>>),
    /// The resource was reregistered, and this came of it.
    Reregistered(Result<(), E>),
    /// The resource has become readable.
    Readable,
}

/// What a peek does next.
#[derive(Debug)]
pub enum PeekAction<E> {
    /// Peeks at the socket.
    Peek,
    /// Reregisters the resource for reading and writing, edge-triggered.
    Reregister,
    /// Waits until the resource is readable.
    AwaitReadable,
    /// Returns this.
    Return(Result<usize, E>),
}

/// What follows an event in a peek that looks at the socket first.
pub open spec fn peek_action<E>(event: PeekEvent<E>) -> PeekAction<E> {
    match event {
        PeekEvent::Peeked(Ok(n)) => PeekAction::Return(Ok(n)),
        PeekEvent::Peeked(Err(failure)) => match failure.kind {
            ErrorKind::WouldBlock => PeekAction::Reregister,
            ErrorKind::Interrupted => PeekAction::Peek,
            ErrorKind::Other => PeekAction::Return(Err(failure.error)),
        },
        PeekEvent::Reregistered(Ok(_)) => PeekAction::AwaitReadable,
        PeekEvent::Reregistered(Err(error)) => PeekAction::Return(Err(error)),
        PeekEvent::Readable => PeekAction::Peek,
    }
}

/// Decides what a peek does after an event. It starts by peeking.
pub fn peek<E>(event: PeekEvent<E>) -> (action: PeekAction<E>)
    ensures
        action == peek_action(event),
{
    match event {
        PeekEvent::Peeked(Ok(n)) => PeekAction::Return(Ok(n)),
        PeekEvent::Peeked(Err(failure)) => {
            if !is_retry(failure.kind) {
                PeekAction::Return(Err(failure.error))
            } else if failure.kind == ErrorKind::WouldBlock {
                PeekAction::Reregister
            } else {
                PeekAction::Peek
            }
        },
        PeekEvent::Reregistered(Err(error)) => PeekAction::Return(Err(error)),
        PeekEvent::Reregistered(Ok(_)) => PeekAction::AwaitReadable,
        PeekEvent::Readable => PeekAction::Peek,
    }
}

/// The event comes of the action.
pub open spec fn peek_answers<E>(action: PeekAction<E>, event: PeekEvent<E>) -> bool {
    match action {
        PeekAction::Peek => event is Peeked,
        PeekAction::Reregister => event is Reregistered,
        PeekAction::AwaitReadable => event is Readable,
        PeekAction::Return(_) => false,
    }
}

/// The events of a peek so far: the socket is peeked at first, and each other
/// event comes of the action that followed the one before.
pub open spec fn peek_run<E>(events: Seq<PeekEvent<E>>) -> bool {
    &&& events.len() > 0
    &&& events[0] is Peeked
    &&& forall|i: int|
        0 < i < events.len() ==> peek_answers(peek_action(events[i - 1]), #[trigger] events[i])
}

/// A peek waits only after it has found nothing to peek at and has reregistered
/// the resource since.
pub proof fn law_waiting_peek_is_registered<E>(events: Seq<PeekEvent<E>>)
    requires
        peek_run(events),
        peek_action(events.last()) is AwaitReadable,
    ensures
        events.len() >= 2,
        events[events.len() - 2] matches PeekEvent::Peeked(Err(failure))
            && failure.kind is WouldBlock,
        events[events.len() - 1] matches PeekEvent::Reregistered(Ok(_)),
{
    let n = events.len() as int;
    assert(events[n - 1] is Reregistered);
    assert(peek_answers(peek_action(events[n - 2]), events[n - 1]));
}

/// What follows the outcome of peeking in a peek that waits for data to come in
/// first: a wakeup may have been spurious, and it waits again.
pub open spec fn waiting_peek_action<E>(peeked: Result<usize, Failure<E>>) -> PeekAction<E> {
    match peeked {
        Ok(n) => PeekAction::Return(Ok(n)),
        Err(failure) => if failure.kind is WouldBlock {
            PeekAction::AwaitReadable
        } else {
            PeekAction::Return(Err(failure.error))
        },
    }
}

/// Decides what a peek does that waits until the socket is readable each time
/// before it looks, after it has looked.
pub fn waiting_peek<E>(peeked: Result<usize, Failure<E>>) -> (action: PeekAction<E>)
    ensures
        action == waiting_peek_action(peeked),
{
    match peeked {
        Ok(n) => PeekAction::Return(Ok(n)),
        Err(failure) => if failure.kind != ErrorKind::WouldBlock {
            PeekAction::Return(Err(failure.error))
        } else {
            PeekAction::AwaitReadable
        },
    }
}

/// Tells whether a stream that has become writable is connected, by the error
/// that was taken from its socket.
pub fn connected<E>(taken: Result<Option<E>, E>) -> (outcome: Result<(), E>)
    ensures
        taken matches Ok(None) ==> outcome is Ok,
        taken matches Ok(Some(error)) ==> outcome is Err && outcome->Err_0 == error,
        taken matches Err(error) ==> outcome is Err && outcome->Err_0 == error,
{
    match taken {
        Ok(Some(error)) => Err(error),
        Ok(None) => Ok(()),
        Err(error) => Err(error),
    }
}

/// Why no address could be connected to.
#[derive(Debug)]
pub enum ConnectError<E> {
    /// There was no address to try.
    NoAddresses,
    /// This is why the last address failed.
    Io(E),
}

/// What comes of trying to connect to a list of addresses, when trying each of
/// them would give this: the first stream, else the last error.
pub open spec fn connect_outcome<T, E>(attempts: Seq<Result<T, E>>) -> Result<
    T,
    ConnectError<E>,
>
    decreases attempts.len(),
{
    if attempts.len() == 0 {
        Err(ConnectError::NoAddresses)
    } else {
        match connect_outcome(attempts.drop_last()) {
            Ok(stream) => Ok(stream),
            Err(_) => match attempts.last() {
                Ok(stream) => Ok(stream),
                Err(error) => Err(ConnectError::Io(error)),
            },
        }
    }
}

/// The addresses that have been tried so far, without success.
pub struct Connect<E> {
    last_err: Option<E>,
}

impl<E> Connect<E> {
    /// Why connecting has failed so far.
    pub closed spec fn error(&self) -> ConnectError<E> {
        match self.last_err {
            Some(error) => ConnectError::Io(error),
            None => ConnectError::NoAddresses,
        }
    }

    /// No address has been tried yet.
    pub fn new() -> (connect: Connect<E>)
        ensures
            connect.error() is NoAddresses,
    {
        Connect { last_err: None }
    }

    /// Takes note of what came of trying the next address. If there is a
    /// stream, that is the outcome; else the next address is to be tried.
    pub fn attempted<T>(&mut self, attempt: Result<T, E>) -> (stream: Option<T>)
        ensures
            attempt is Ok ==> stream == Some(attempt->Ok_0) && *final(self) == *old(self),
            attempt is Err ==> stream is None && final(self).error() == ConnectError::Io(
                attempt->Err_0,
            ),
    {
        match attempt {
            Ok(stream) => Some(stream),
            Err(error) => {
                self.last_err = Some(error);
                None
            },
        }
    }

    /// There are no more addresses to try.
    pub fn failed(self) -> (error: ConnectError<E>)
        ensures
            error == self.error(),
    {
        match self.last_err {
            Some(error) => ConnectError::Io(error),
            None => ConnectError::NoAddresses,
        }
    }
}

/// One more address after those that failed decides the outcome, as
/// [`Connect::attempted`] does.
pub proof fn law_attempt_decides<T, E>(attempts: Seq<Result<T, E>>, attempt: Result<T, E>)
    requires
        connect_outcome(attempts) is Err,
    ensures
        attempt is Ok ==> connect_outcome(attempts.push(attempt)) is Ok && connect_outcome(
            attempts.push(attempt),
        )->Ok_0 == attempt->Ok_0,
        attempt is Err ==> connect_outcome(attempts.push(attempt)) is Err && connect_outcome(
            attempts.push(attempt),
        )->Err_0 == ConnectError::Io(attempt->Err_0),
{
    assert(attempts.push(attempt).drop_last() =~= attempts);
}

/// The first address that can be connected to is the one that is.
pub proof fn law_first_stream_is_taken<T, E>(attempts: Seq<Result<T, E>>, i: int)
    requires
        0 <= i < attempts.len(),
        attempts[i] is Ok,
        forall|j: int| 0 <= j < i ==> attempts[j] is Err,
    ensures
        connect_outcome(attempts) is Ok,
        connect_outcome(attempts)->Ok_0 == attempts[i]->Ok_0,
    decreases attempts.len(),
{
    let earlier = attempts.drop_last();
    if i < earlier.len() {
        assert(earlier[i] == attempts[i]);
        assert forall|j: int| 0 <= j < i implies earlier[j] is Err by {
            assert(earlier[j] == attempts[j]);
        }
        law_first_stream_is_taken(earlier, i);
    } else {
        assert forall|j: int| 0 <= j < earlier.len() implies earlier[j] is Err by {
            assert(earlier[j] == attempts[j]);
        }
        law_all_addresses_fail(earlier);
    }
}

/// If no address can be connected to, the last error comes out, or that there
/// was none to try.
pub proof fn law_all_addresses_fail<T, E>(attempts: Seq<Result<T, E>>)
    requires
        forall|j: int| 0 <= j < attempts.len() ==> attempts[j] is Err,
    ensures
        connect_outcome(attempts) is Err,
        attempts.len() == 0 ==> connect_outcome(attempts)->Err_0 is NoAddresses,
        attempts.len() > 0 ==> connect_outcome(attempts)->Err_0 == ConnectError::Io(
            attempts.last()->Err_0,
        ),
    decreases attempts.len(),
{
    if attempts.len() > 0 {
        let earlier = attempts.drop_last();
        assert forall|j: int| 0 <= j < earlier.len() implies earlier[j] is Err by {
            assert(earlier[j] == attempts[j]);
        }
        law_all_addresses_fail(earlier);
    }
}

/// An error may be overcome by a further try exactly if the operation would have
/// had to wait or was interrupted.
pub proof fn law_two_kinds_of_errors_are_retried(kind: ErrorKind)
    ensures
        retry(kind) <==> kind == ErrorKind::WouldBlock || kind == ErrorKind::Interrupted,
        retry(kind) <==> kind != ErrorKind::Other,
{
}

/// A poll returns at once what a try has given: its value, or an error that no
/// further try may overcome. It tries again after an interruption, and
/// reregisters the resource where it would have had to wait.
pub proof fn law_try_is_returned_or_repeated<T, E>(tried: Result<T, Failure<E>>)
    ensures
        tried is Ok ==> rw_action(RwEvent::<T, E>::Tried(tried)) == RwAction::<T, E>::Ready(
            Ok(tried->Ok_0),
        ),
        tried is Err && tried->Err_0.kind is Other ==> rw_action(RwEvent::<T, E>::Tried(tried))
            == RwAction::<T, E>::Ready(Err(tried->Err_0.error)),
        tried is Err && tried->Err_0.kind is Interrupted ==> rw_action(
            RwEvent::<T, E>::Tried(tried),
        ) is Try,
        tried is Err && tried->Err_0.kind is WouldBlock ==> rw_action(
            RwEvent::<T, E>::Tried(tried),
        ) is Reregister,
{
}

/// After a resource has been reregistered it is polled for readiness, and the
/// operation is tried again if it is ready; else the poll has no result yet. A
/// reregistration that fails is returned.
pub proof fn law_reregistered_resource_is_polled<T, E>(
    reregistered: Result<(), E>,
    polled: Option<usize>,
)
    ensures
        reregistered is Ok ==> rw_action(RwEvent::<T, E>::Reregistered(reregistered)) is Poll,
        reregistered is Err ==> rw_action(RwEvent::<T, E>::Reregistered(reregistered))
            == RwAction::<T, E>::Ready(Err(reregistered->Err_0)),
        polled is Some <==> rw_action(RwEvent::<T, E>::Polled(polled)) is Try,
        polled is None <==> rw_action(RwEvent::<T, E>::Polled(polled)) is Pending,
{
}

/// The result of a peek is that of its last look at the socket, or the error of
/// a reregistration. No error comes out that a further try may overcome.
pub proof fn law_peek_returns_the_last_result<E>(events: Seq<PeekEvent<E>>)
    requires
        peek_run(events),
        peek_action(events.last()) is Return,
    ensures
        match peek_action(events.last())->Return_0 {
            Ok(n) => events.last() matches PeekEvent::Peeked(Ok(m)) && m == n,
            Err(error) => {
                ||| events.last() matches PeekEvent::Peeked(Err(failure)) && failure.error == error
                    && failure.kind is Other
                ||| events.last() matches PeekEvent::Reregistered(Err(refused)) && refused == error
            },
        },
{
}

/// A peek returns at once what a look at the socket has given: the number of
/// bytes, or an error that no further try may overcome. It looks again after an
/// interruption, and reregisters the resource where it would have had to wait.
pub proof fn law_look_is_returned_or_repeated<E>(peeked: Result<usize, Failure<E>>)
    ensures
        peeked is Ok ==> peek_action(PeekEvent::Peeked(peeked)) == PeekAction::<E>::Return(
            Ok(peeked->Ok_0),
        ),
        peeked is Err && peeked->Err_0.kind is Other ==> peek_action(PeekEvent::Peeked(peeked))
            == PeekAction::<E>::Return(Err(peeked->Err_0.error)),
        peeked is Err && peeked->Err_0.kind is Interrupted ==> peek_action(
            PeekEvent::Peeked(peeked),
        ) is Peek,
        peeked is Err && peeked->Err_0.kind is WouldBlock ==> peek_action(
            PeekEvent::Peeked(peeked),
        ) is Reregister,
{
}

/// After its resource has been reregistered, a peek waits until it is readable,
/// and then looks again. A reregistration that fails is returned.
pub proof fn law_peek_looks_again<E>(reregistered: Result<(), E>)
    ensures
        reregistered is Ok ==> peek_action(PeekEvent::Reregistered(reregistered)) is AwaitReadable,
        reregistered is Err ==> peek_action(PeekEvent::Reregistered(reregistered)) == PeekAction::<
            E,
        >::Return(Err(reregistered->Err_0)),
        peek_action(PeekEvent::<E>::Readable) is Peek,
{
}

/// A peek that waits first returns what its look has given, the number of bytes
/// or the error, and waits again only where there was nothing to look at.
pub proof fn law_waiting_peek_returns_its_look<E>(peeked: Result<usize, Failure<E>>)
    ensures
        peeked is Ok ==> waiting_peek_action(peeked) == PeekAction::<E>::Return(
            Ok(peeked->Ok_0),
        ),
        peeked is Err && peeked->Err_0.kind is WouldBlock <==> waiting_peek_action(
            peeked,
        ) is AwaitReadable,
        peeked is Err && !(peeked->Err_0.kind is WouldBlock) ==> waiting_peek_action(peeked)
            == PeekAction::<E>::Return(Err(peeked->Err_0.error)),
{
}

} // verus!
