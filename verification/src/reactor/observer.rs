//! Resources together with what the reactor knows of them.
use vstd::prelude::*;

verus! {

/// A type that "observes" changes in a resource's state from the reactor: the
/// resource, what leads to its `IoWaker`, and a handle to the reactor that
/// drives it.
pub struct Observer<R, A, H> {
    resource: R,
    io_waker: A,
    handle: H,
}

/// A wrapper for a resource that contains its `IoWaker` and a handle to the
/// associated reactor.
pub type PollResource<R, A, H> = Observer<R, A, H>;

/// What an observer is made of.
pub struct ObserverView<R, A, H> {
    pub resource: R,
    pub io_waker: A,
    pub handle: H,
}

impl<R, A, H> View for Observer<R, A, H> {
    type V = ObserverView<R, A, H>;

    closed spec fn view(&self) -> ObserverView<R, A, H> {
        ObserverView { resource: self.resource, io_waker: self.io_waker, handle: self.handle }
    }
}

impl<R, A, H> Observer<R, A, H> {
    /// Creates an observer of a resource, unless it could not be registered.
    pub fn new<E>(resource: R, registered: Result<A, E>, handle: H) -> (observer: Result<
        Observer<R, A, H>,
        E,
    >)
        ensures
            registered is Ok ==> observer is Ok && observer->Ok_0@ == (ObserverView {
                resource,
                io_waker: registered->Ok_0,
                handle,
            }),
            registered is Err ==> observer is Err && observer->Err_0 == registered->Err_0,
    {
        match registered {
            Ok(io_waker) => Ok(Observer { resource, io_waker, handle }),
            Err(error) => Err(error),
        }
    }

    /// A reference to the underlying resource.
    pub fn get_ref(&self) -> (resource: &R)
        ensures
            *resource == self@.resource,
    {
        &self.resource
    }

    /// A mutable reference to the underlying resource.
    pub fn get_mut(&mut self) -> (resource: &mut R)
        ensures
            *resource == old(self)@.resource,
            final(self)@ == (ObserverView { resource: *final(resource), ..old(self)@ }),
    {
        &mut self.resource
    }
}

impl<R, A: Clone, H: Clone> Observer<R, A, H> {
    /// Creates an observer from another one, of a different resource but with
    /// the same `IoWaker` and handle.
    pub fn from_other(resource: R, other: &Observer<R, A, H>) -> (observer: Observer<R, A, H>)
        ensures
            observer@.resource == resource,
            cloned(other@.io_waker, observer@.io_waker),
            cloned(other@.handle, observer@.handle),
    {
        Observer { resource, io_waker: other.io_waker(), handle: other.handle() }
    }

    /// Clones what leads to the `IoWaker` and returns it.
    pub fn io_waker(&self) -> (io_waker: A)
        ensures
            cloned(self@.io_waker, io_waker),
    {
        self.io_waker.clone()
    }

    /// Clones the handle and returns it.
    pub fn handle(&self) -> (handle: H)
        ensures
            cloned(self@.handle, handle),
    {
        self.handle.clone()
    }
}

} // verus!
