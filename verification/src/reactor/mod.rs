//! The part of the runtime that drives IO resources.
pub mod background;
pub mod handle;
pub mod io_waker;
pub mod laws;
pub mod observer;

use crate::queues::UnboundedQueue;
use std::collections::HashMap;
use vstd::prelude::*;

verus! {

broadcast use vstd::std_specs::hash::group_hash_axioms;

/// How many events a reactor polls for at once, unless it is told otherwise.
/// This is kind of arbitrary.
pub const MAX_EVENTS: usize = 2048;

/// An event: the resource with this token is ready for this.
#[derive(Clone, Copy, Debug, PartialEq, Eq, Structural)]
pub struct Event {
    pub token: usize,
    pub readiness: usize,
}

/// An `IoWaker` that is to be told that its resource is ready, with
/// [`IoWaker::wake_if_ready`](crate::reactor::io_waker::IoWaker::wake_if_ready).
pub struct Notice<'a, A> {
    pub io_waker: &'a A,
    pub readiness: usize,
}

/// The reactor. This is the part of the runtime that knows which resources are
/// registered with the system selector, and under which tokens. `A` is what
/// leads to a resource's `IoWaker`, which the reactor shares with the user of
/// the resource.
pub struct Reactor<A> {
    tokens: UnboundedQueue,
    current_token: usize,
    resources: HashMap<usize, A>,
    capacity: usize,
}

/// The state of a reactor.
#[verifier::ext_equal]
pub struct ReactorView<A> {
    /// The tokens that have been given back, the oldest first.
    pub free: Seq<usize>,
    /// The lowest token that has never been given out.
    pub current: usize,
    /// The `IoWaker`s of the resources that are registered, by their tokens.
    pub resources: Map<usize, A>,
}

/// A reactor with which nothing has been registered yet.
pub open spec fn new_reactor<A>() -> ReactorView<A> {
    ReactorView { free: Seq::empty(), current: 0, resources: Map::empty() }
}

/// Which `IoWaker` is told what.
pub open spec fn contents<'a, A>(notices: Seq<Notice<'a, A>>) -> Seq<(A, usize)> {
    notices.map_values(|notice: Notice<'a, A>| (*notice.io_waker, notice.readiness))
}

impl<A> ReactorView<A> {
    /// The invariant of a reactor: no token is free twice or both free and in
    /// use, and none has been made up.
    pub open spec fn wf(self) -> bool {
        &&& self.free.no_duplicates()
        &&& forall|i: int|
            0 <= i < self.free.len() ==> (#[trigger] self.free[i]) < self.current
                && !self.resources.contains_key(self.free[i])
        &&& forall|token: usize| #[trigger]
            self.resources.contains_key(token) ==> token < self.current
    }

    /// The token that the next resource gets: the oldest one that has been
    /// given back, or one that has never been given out.
    pub open spec fn next_token(self) -> Option<usize> {
        if self.free.len() > 0 {
            Some(self.free.first())
        } else if self.current < usize::MAX {
            Some(self.current)
        } else {
            None
        }
    }

    /// The next token has been given out.
    pub open spec fn token_taken(self) -> ReactorView<A> {
        if self.free.len() > 0 {
            ReactorView { free: self.free.drop_first(), ..self }
        } else if self.current < usize::MAX {
            ReactorView { current: (self.current + 1) as usize, ..self }
        } else {
            self
        }
    }

    /// A resource has been registered.
    pub open spec fn registered(self, token: usize, io_waker: A) -> ReactorView<A> {
        ReactorView { resources: self.resources.insert(token, io_waker), ..self }
    }

    /// A resource has been deregistered.
    pub open spec fn deregistered(self, token: usize) -> ReactorView<A> {
        ReactorView {
            free: self.free.push(token),
            resources: self.resources.remove(token),
            ..self
        }
    }

    /// Who is to be told of these events, in this order. An event whose token
    /// nobody knows is passed over.
    pub open spec fn notices(self, events: Seq<Event>) -> Seq<(A, usize)>
        decreases events.len(),
    {
        if events.len() == 0 {
            Seq::empty()
        } else {
            let earlier = self.notices(events.drop_last());
            let last = events.last();
            if self.resources.contains_key(last.token) {
                earlier.push((self.resources[last.token], last.readiness))
            } else {
                earlier
            }
        }
    }
}

impl<A> View for Reactor<A> {
    type V = ReactorView<A>;

    closed spec fn view(&self) -> ReactorView<A> {
        ReactorView {
            free: self.tokens@,
            current: self.current_token,
            resources: self.resources@,
        }
    }
}

impl<A> Reactor<A> {
    /// How many events are polled for at once.
    pub closed spec fn capacity(&self) -> usize {
        self.capacity
    }

    /// Creates a reactor with the default event capacity.
    pub fn new() -> (reactor: Reactor<A>)
        ensures
            reactor.capacity() == MAX_EVENTS,
            reactor@ == new_reactor::<A>(),
    {
        Self::new_priv(None)
    }

    /// Creates a reactor with the given event capacity.
    pub fn with_capacity(capacity: usize) -> (reactor: Reactor<A>)
        requires
            capacity != 0,
        ensures
            reactor.capacity() == capacity,
            reactor@ == new_reactor::<A>(),
    {
        Self::new_priv(Some(capacity))
    }

    /// Creates a reactor with the given event capacity, or the default one.
    fn new_priv(capacity: Option<usize>) -> (reactor: Reactor<A>)
        ensures
            reactor.capacity() == if capacity is Some {
                capacity->0
            } else {
                MAX_EVENTS
            },
            reactor@ == new_reactor::<A>(),
    {
        let capacity = match capacity {
            Some(capacity) => capacity,
            None => MAX_EVENTS,
        };
        Reactor {
            tokens: UnboundedQueue::new(),
            current_token: 0,
            resources: HashMap::new(),
            capacity,
        }
    }

    /// How many events are to be polled for at once.
    pub fn events(&self) -> (capacity: usize)
        ensures
            capacity == self.capacity(),
    {
        self.capacity
    }

    /// Gives out a token for a resource that is about to be registered: one
    /// that has been given back, else a new one. Gives `None` when there are no
    /// more of them.
    pub fn take_token(&mut self) -> (token: Option<usize>)
        ensures
            final(self).capacity() == old(self).capacity(),
            token == old(self)@.next_token(),
            final(self)@ == old(self)@.token_taken(),
    {
        match self.tokens.pop() {
            Some(token) => Some(token),
            None => {
                let id = self.current_token;
                if id == usize::MAX {
                    return None;
                }
                self.current_token = id + 1;
                Some(id)
            },
        }
    }

    /// Registers a new IO resource under a token, unless the system selector
    /// has refused it. A token whose resource was refused is not given out
    /// again.
    pub fn register<E>(&mut self, token: usize, io_waker: A, selected: Result<(), E>) -> (registered:
        Result<(), E>)
        ensures
            final(self).capacity() == old(self).capacity(),
            registered == selected,
            selected is Ok ==> final(self)@ == old(self)@.registered(token, io_waker),
            selected is Err ==> final(self)@ == old(self)@,
    {
        if selected.is_ok() {
            self.resources.insert(token, io_waker);
        }
        selected
    }

    /// Deregisters an IO resource, unless the system selector has refused to,
    /// and gives its token back.
    pub fn deregister<E>(&mut self, token: usize, selected: Result<(), E>) -> (deregistered: Result<
        (),
        E,
    >)
        ensures
            final(self).capacity() == old(self).capacity(),
            deregistered == selected,
            selected is Ok ==> final(self)@ == old(self)@.deregistered(token),
            selected is Err ==> final(self)@ == old(self)@,
    {
        if selected.is_ok() {
            self.resources.remove(&token);
            self.tokens.push(token);
        }
        selected
    }

    /// Finds the IO resources that the events are about which the system
    /// selector has detected. Their `IoWaker`s are to be told, in this order.
    pub fn poll(&self, events: &Vec<Event>) -> (notices: Vec<Notice<'_, A>>)
        ensures
            contents(notices@) == self@.notices(events@),
    {
        let mut notices: Vec<Notice<'_, A>> = Vec::new();
        let mut i: usize = 0;
        assert(events@.take(0) =~= Seq::<Event>::empty());
        assert(contents(notices@) =~= Seq::<(A, usize)>::empty());
        while i < events.len()
            invariant
                i <= events@.len(),
                contents(notices@) == self@.notices(events@.take(i as int)),
            decreases events@.len() - i,
        {
            let ghost seen = events@.take(i as int);
            let ghost earlier = notices@;
            let event = events[i];
            if let Some(io_waker) = self.resources.get(&event.token) {
                notices.push(Notice { io_waker, readiness: event.readiness });
                assert(contents(notices@) =~= contents(earlier).push(
                    (*io_waker, event.readiness),
                ));
            }
            i += 1;
            assert(events@.take(i as int).drop_last() =~= seen);
        }
        assert(events@.take(i as int) =~= events@);
        notices
    }
}

} // verus!
