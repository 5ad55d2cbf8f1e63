//! What a handle leads to.
use crate::reactor::Reactor;
use vstd::prelude::*;

verus! {

/// Why a handle could not do what it was asked to.
#[derive(Debug)]
pub enum HandleError<E> {
    /// The reactor is gone.
    NoReactor,
    /// There is no token left for one more resource.
    NoToken,
    /// The system selector refused.
    Io(E),
}

/// What the system selector said, as a handle reports it.
pub open spec fn reported<E>(selected: Result<(), E>) -> Result<(), HandleError<E>> {
    match selected {
        Ok(_) => Ok(()),
        Err(error) => Err(HandleError::Io(error)),
    }
}

/// A handle to the reactor, at the time it is used: the reactor, unless it is
/// gone. Can be used to register and deregister resources.
pub struct Handle<'a, A> {
    pub reactor: Option<&'a mut Reactor<A>>,
}

impl<'a, A> Handle<'a, A> {
    /// Gives out a token for a resource that is about to be registered.
    pub fn take_token<E>(self) -> (token: Result<usize, HandleError<E>>)
        ensures
            self.reactor is None ==> token is Err && token->Err_0 is NoReactor,
            self.reactor matches Some(reactor) ==> {
                &&& final(reactor).capacity() == (*reactor).capacity()
                &&& final(reactor)@ == (*reactor)@.token_taken()
                &&& match (*reactor)@.next_token() {
                    Some(next) => token is Ok && token->Ok_0 == next,
                    None => token is Err && token->Err_0 is NoToken,
                }
            },
    {
        match self.reactor {
            Some(reactor) => match reactor.take_token() {
                Some(token) => Ok(token),
                None => Err(HandleError::NoToken),
            },
            None => Err(HandleError::NoReactor),
        }
    }

    /// Registers a new IO resource under a token, unless the system selector
    /// has refused it.
    pub fn register<E>(self, token: usize, io_waker: A, selected: Result<(), E>) -> (registered:
        Result<(), HandleError<E>>)
        ensures
            self.reactor is None ==> registered is Err && registered->Err_0 is NoReactor,
            self.reactor matches Some(reactor) ==> {
                &&& final(reactor).capacity() == (*reactor).capacity()
                &&& registered == reported(selected)
                &&& selected is Ok ==> final(reactor)@ == (*reactor)@.registered(token, io_waker)
                &&& selected is Err ==> final(reactor)@ == (*reactor)@
            },
    {
        match self.reactor {
            Some(reactor) => match reactor.register(token, io_waker, selected) {
                Ok(_) => Ok(()),
                Err(error) => Err(HandleError::Io(error)),
            },
            None => Err(HandleError::NoReactor),
        }
    }

    /// Reregisters a resource: reports what the system selector said to it,
    /// unless the reactor is gone.
    pub fn reregister<E>(self, selected: Result<(), E>) -> (reregistered: Result<
        (),
        HandleError<E>,
    >)
        ensures
            self.reactor is None ==> reregistered is Err && reregistered->Err_0 is NoReactor,
            self.reactor matches Some(reactor) ==> {
                &&& *final(reactor) == *reactor
                &&& reregistered == reported(selected)
            },
    {
        match self.reactor {
            Some(_) => match selected {
                Ok(_) => Ok(()),
                Err(error) => Err(HandleError::Io(error)),
            },
            None => Err(HandleError::NoReactor),
        }
    }

    /// Stops tracking notifications from the resource with this token, unless
    /// the system selector has refused to.
    pub fn deregister<E>(self, token: usize, selected: Result<(), E>) -> (deregistered: Result<
        (),
        HandleError<E>,
    >)
        ensures
            self.reactor is None ==> deregistered is Err && deregistered->Err_0 is NoReactor,
            self.reactor matches Some(reactor) ==> {
                &&& final(reactor).capacity() == (*reactor).capacity()
                &&& deregistered == reported(selected)
                &&& selected is Ok ==> final(reactor)@ == (*reactor)@.deregistered(token)
                &&& selected is Err ==> final(reactor)@ == (*reactor)@
            },
    {
        match self.reactor {
            Some(reactor) => match reactor.deregister(token, selected) {
                Ok(_) => Ok(()),
                Err(error) => Err(HandleError::Io(error)),
            },
            None => Err(HandleError::NoReactor),
        }
    }
}

/// A handle passes on what the system selector said: it succeeds where the
/// selector did, and fails with the same error where it failed.
pub proof fn law_handle_reports_the_selector<E>(selected: Result<(), E>)
    ensures
        reported(selected) is Ok <==> selected is Ok,
        selected is Err ==> reported(selected)->Err_0 is Io && reported(selected)->Err_0->Io_0
            == selected->Err_0,
{
}

} // verus!
