//! A reactor that is polled on a thread of its own.
use vstd::prelude::*;

verus! {

/// What is known of a background thread that polls a reactor. `J` is what the
/// thread can be joined with.
pub struct Background<J> {
    join_handle: Option<J>,
    shutdown: bool,
}

/// The state of a background thread.
pub struct BackgroundView<J> {
    pub join_handle: Option<J>,
    pub shutdown: bool,
}

/// What the background thread does next.
#[derive(Debug)]
pub enum Turn<E> {
    /// It polls the reactor.
    Poll,
    /// It returns this.
    Exit(Result<(), E>),
}

/// Why the background thread did not end well.
#[derive(Debug)]
pub enum BackgroundError<E> {
    /// The thread panicked.
    Panicked,
    /// Polling the reactor failed.
    Io(E),
}

impl<J> BackgroundView<J> {
    /// The thread has been told to stop and is being joined.
    pub open spec fn shut_down(self) -> BackgroundView<J> {
        BackgroundView { join_handle: None, shutdown: true }
    }

    /// What the thread does after its last poll ended like this: it returns the
    /// error, or nothing if it has been shut down, or else polls on.
    pub open spec fn turn<E>(self, polled: Result<(), E>) -> Turn<E> {
        match polled {
            Err(error) => Turn::Exit(Err(error)),
            Ok(_) => if self.shutdown {
                Turn::Exit(Ok(()))
            } else {
                Turn::Poll
            },
        }
    }
}

/// How it ended, by what joining the thread gave.
pub open spec fn join_outcome<E, P>(joined: Result<Result<(), E>, P>) -> Result<
    (),
    BackgroundError<E>,
> {
    match joined {
        Ok(Ok(_)) => Ok(()),
        Ok(Err(error)) => Err(BackgroundError::Io(error)),
        Err(_) => Err(BackgroundError::Panicked),
    }
}

impl<J> View for Background<J> {
    type V = BackgroundView<J>;

    closed spec fn view(&self) -> BackgroundView<J> {
        BackgroundView { join_handle: self.join_handle, shutdown: self.shutdown }
    }
}

impl<J> Background<J> {
    /// No thread runs yet.
    pub fn new() -> (background: Background<J>)
        ensures
            background@ == (BackgroundView::<J> { join_handle: None, shutdown: false }),
    {
        Background { join_handle: None, shutdown: false }
    }

    /// The thread runs, and can be joined with this.
    pub fn started(&mut self, join_handle: J)
        ensures
            final(self)@ == (BackgroundView {
                join_handle: Some(join_handle),
                shutdown: old(self)@.shutdown,
            }),
    {
        self.join_handle = Some(join_handle);
    }

    /// Decides what the thread does next, after its last poll ended like this.
    /// Before its first poll, that is `Ok`.
    pub fn turn<E>(&self, polled: Result<(), E>) -> (turn: Turn<E>)
        ensures
            turn == self@.turn(polled),
    {
        match polled {
            Err(error) => Turn::Exit(Err(error)),
            Ok(_) => if self.shutdown {
                Turn::Exit(Ok(()))
            } else {
                Turn::Poll
            },
        }
    }

    /// Tells the thread to stop. It has to be woken up for it to notice.
    pub fn stop(&mut self)
        ensures
            final(self)@ == (BackgroundView { shutdown: true, ..old(self)@ }),
    {
        self.shutdown = true;
    }

    /// Shuts down the thread where the reactor is being polled. It is then to
    /// be woken up, and joined with what is returned. There is nothing to join
    /// when that has been done already.
    pub fn shutdown_now(&mut self) -> (join_handle: Option<J>)
        ensures
            join_handle == old(self)@.join_handle,
            final(self)@ == old(self)@.shut_down(),
    {
        self.stop();
        self.join_handle.take()
    }
}

/// Returns any error which happened in the thread where the reactor was being
/// polled, by what joining it gave.
pub fn joined<E, P>(result: Result<Result<(), E>, P>) -> (outcome: Result<
    (),
    BackgroundError<E>,
>)
    ensures
        outcome == join_outcome(result),
{
    match result {
        Ok(Ok(_)) => Ok(()),
        Ok(Err(error)) => Err(BackgroundError::Io(error)),
        Err(_) => Err(BackgroundError::Panicked),
    }
}

/// A thread that is shut down stops polling, however its last poll ended, and
/// who shuts it down is given the error if there was one.
pub proof fn law_shutdown_ends_the_thread<J, E, P>(
    background: BackgroundView<J>,
    polled: Result<(), E>,
)
    requires
        background.shutdown,
    ensures
        background.turn(polled) is Exit,
        polled is Ok ==> join_outcome::<E, P>(Ok(background.turn(polled)->Exit_0)) is Ok,
        polled is Err ==> join_outcome::<E, P>(Ok(background.turn(polled)->Exit_0)) == Err::<
            (),
            BackgroundError<E>,
        >(BackgroundError::Io(polled->Err_0)),
{
}

/// A thread is joined once: a second shutdown gives nothing to join and changes
/// nothing.
pub proof fn law_thread_is_joined_once<J>(background: BackgroundView<J>)
    ensures
        background.shut_down().join_handle is None,
        background.shut_down().shut_down() == background.shut_down(),
{
}

/// A thread polls on as long as it is not shut down and no poll fails.
pub proof fn law_thread_polls_on<J, E>(background: BackgroundView<J>, polled: Result<(), E>)
    ensures
        background.turn(polled) is Poll <==> polled is Ok && !background.shutdown,
{
}

/// A thread ends with an error exactly if its last poll failed, and then with
/// that one; it ends without one exactly if it has been shut down and its last
/// poll succeeded.
pub proof fn law_thread_returns_the_error_of_its_poll<J, E>(
    background: BackgroundView<J>,
    polled: Result<(), E>,
)
    ensures
        polled is Err ==> background.turn(polled) is Exit && background.turn(polled)->Exit_0 is Err
            && background.turn(polled)->Exit_0->Err_0 == polled->Err_0,
        polled is Ok && background.shutdown ==> background.turn(polled) is Exit && background.turn(
            polled,
        )->Exit_0 is Ok,
        polled is Ok && !background.shutdown ==> background.turn(polled) is Poll,
        background.shut_down().shutdown,
{
}

/// Who joins the thread is told what it returned, or that it panicked.
pub proof fn law_joining_tells_how_it_ended<E, P>(returned: Result<(), E>, panic: P)
    ensures
        join_outcome::<E, P>(Err(panic)) is Err,
        join_outcome::<E, P>(Err(panic))->Err_0 is Panicked,
        returned is Ok <==> join_outcome::<E, P>(Ok(returned)) is Ok,
        returned is Err ==> join_outcome::<E, P>(Ok(returned))->Err_0 is Io && join_outcome::<E, P>(
            Ok(returned),
        )->Err_0->Io_0 == returned->Err_0,
{
}

} // verus!
