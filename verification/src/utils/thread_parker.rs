//! The state of a thread parking primitive.
use vstd::prelude::*;

verus! {

/// What a parker and its unparkers share. The thread that parks asks
/// [`Inner::park`] whether it has to wait, waits until an unparker notifies it,
/// and reports its return with [`Inner::parked`].
#[derive(Clone, Copy, Debug, PartialEq, Eq, Structural)]
pub struct Inner {
    notified: bool,
}

impl Inner {
    /// A notification has been given.
    pub closed spec fn notified(&self) -> bool {
        self.notified
    }

    /// Nothing has been notified yet.
    pub fn new() -> (inner: Inner)
        ensures
            !inner.notified(),
    {
        Inner { notified: false }
    }

    /// Tells whether the calling thread has to wait for a notification.
    pub fn park(&self) -> (wait: bool)
        ensures
            wait == !self.notified(),
    {
        !self.notified
    }

    /// Ends a park and uses the notification up, if there was one: a wait may
    /// also end without it.
    pub fn parked(&mut self)
        ensures
            !final(self).notified(),
    {
        self.notified = false;
    }

    /// Gives the notification. One waiting thread is then to be woken.
    pub fn unpark(&mut self)
        ensures
            final(self).notified(),
    {
        self.notified = true;
    }
}

} // verus!
