//! A queue of IO events, each handed to the handler of its resource.
use crate::reactor::Event;
use crate::ready::{readable_bit, writable_bit};
use std::collections::HashMap;
use vstd::prelude::*;

verus! {

broadcast use vstd::std_specs::hash::group_hash_axioms;

/// How many events are polled for at once, unless something else is asked for.
pub const MAX_EVENTS: usize = 8192;

/// The event queue. This is the part of the thread pool that knows which IO
/// resources are driven by the system selector. `A` is what leads to a
/// resource's [`Handler`], which the queue shares with the user of the
/// resource.
pub struct EventQueue<A> {
    token: usize,
    scheduled: HashMap<usize, A>,
    capacity: usize,
}

/// The state of an event queue.
#[verifier::ext_equal]
pub struct EventQueueView<A> {
    /// The token that the next resource gets.
    pub token: usize,
    /// The handlers of the resources that are registered, by their tokens.
    pub scheduled: Map<usize, A>,
}

/// A handler that is to be told that its resource is ready, with
/// [`Handler::wake`].
pub struct Call<'a, A> {
    pub handler: &'a A,
    pub readiness: usize,
}

/// Which handler is told what.
pub open spec fn contents<'a, A>(calls: Seq<Call<'a, A>>) -> Seq<(A, usize)> {
    calls.map_values(|call: Call<'a, A>| (*call.handler, call.readiness))
}

impl<A> EventQueueView<A> {
    /// The invariant of an event queue: every token in use has been given out.
    pub open spec fn wf(self) -> bool {
        forall|token: usize| #[trigger]
            self.scheduled.contains_key(token) ==> token < self.token
    }

    /// The next token has been given out.
    pub open spec fn token_taken(self) -> EventQueueView<A> {
        if self.token < usize::MAX {
            EventQueueView { token: (self.token + 1) as usize, ..self }
        } else {
            self
        }
    }

    /// A resource has been registered.
    pub open spec fn registered(self, token: usize, handler: A) -> EventQueueView<A> {
        EventQueueView { scheduled: self.scheduled.insert(token, handler), ..self }
    }

    /// Which handlers are to be told of these events, in this order. An event
    /// whose token nobody knows is passed over.
    pub open spec fn calls(self, events: Seq<Event>) -> Seq<(A, usize)>
        decreases events.len(),
    {
        if events.len() == 0 {
            Seq::empty()
        } else {
            let earlier = self.calls(events.drop_last());
            let last = events.last();
            if self.scheduled.contains_key(last.token) {
                earlier.push((self.scheduled[last.token], last.readiness))
            } else {
                earlier
            }
        }
    }
}

impl<A> View for EventQueue<A> {
    type V = EventQueueView<A>;

    closed spec fn view(&self) -> EventQueueView<A> {
        EventQueueView { token: self.token, scheduled: self.scheduled@ }
    }
}

/// What a new resource is registered for: reading and writing.
pub fn interest() -> (readiness: usize)
    ensures
        readiness == 1usize | 2usize,
{
    readable_bit() | writable_bit()
}

impl<A> EventQueue<A> {
    /// How many events are polled for at once.
    pub closed spec fn capacity(&self) -> usize {
        self.capacity
    }

    /// Creates an event queue with the default event capacity.
    pub fn new() -> (queue: EventQueue<A>)
        ensures
            queue.capacity() == MAX_EVENTS,
            queue@ == (EventQueueView { token: 0, scheduled: Map::<usize, A>::empty() }),
    {
        Self::new_priv(None)
    }

    /// Creates an event queue with the given event capacity.
    pub fn with_capacity(capacity: usize) -> (queue: EventQueue<A>)
        ensures
            queue.capacity() == capacity,
            queue@ == (EventQueueView { token: 0, scheduled: Map::<usize, A>::empty() }),
    {
        Self::new_priv(Some(capacity))
    }

    /// Creates an event queue with the given event capacity, or the default.
    fn new_priv(capacity: Option<usize>) -> (queue: EventQueue<A>)
        ensures
            queue.capacity() == if capacity is Some {
                capacity->0
            } else {
                MAX_EVENTS
            },
            queue@ == (EventQueueView { token: 0, scheduled: Map::<usize, A>::empty() }),
    {
        let capacity = match capacity {
            Some(capacity) => capacity,
            None => MAX_EVENTS,
        };
        EventQueue { token: 0, scheduled: HashMap::new(), capacity }
    }

    /// How many events are to be polled for at once.
    pub fn events(&self) -> (capacity: usize)
        ensures
            capacity == self.capacity(),
    {
        self.capacity
    }

    /// Gives out a token for a resource that is about to be registered, or
    /// `None` when there are no more of them.
    pub fn take_token(&mut self) -> (token: Option<usize>)
        ensures
            final(self).capacity() == old(self).capacity(),
            token == if old(self)@.token < usize::MAX {
                Some(old(self)@.token)
            } else {
                None
            },
            final(self)@ == old(self)@.token_taken(),
    {
        let id = self.token;
        if id == usize::MAX {
            return None;
        }
        self.token = id + 1;
        Some(id)
    }

    /// Registers a new IO resource, tracking the events it produces, unless the
    /// system selector has refused it.
    pub fn register<E>(&mut self, token: usize, handler: A, selected: Result<(), E>) -> (registered:
        Result<(), E>)
        ensures
            final(self).capacity() == old(self).capacity(),
            registered == selected,
            selected is Ok ==> final(self)@ == old(self)@.registered(token, handler),
            selected is Err ==> final(self)@ == old(self)@,
    {
        if selected.is_ok() {
            self.scheduled.insert(token, handler);
        }
        selected
    }

    /// Finds the handlers of the resources that the events are about which the
    /// system selector has detected. They are to be told, in this order.
    pub fn advance(&self, events: &Vec<Event>) -> (calls: Vec<Call<'_, A>>)
        ensures
            contents(calls@) == self@.calls(events@),
    {
        let mut calls: Vec<Call<'_, A>> = Vec::new();
        let mut i: usize = 0;
        assert(events@.take(0) =~= Seq::<Event>::empty());
        assert(contents(calls@) =~= Seq::<(A, usize)>::empty());
        while i < events.len()
            invariant
                i <= events@.len(),
                contents(calls@) == self@.calls(events@.take(i as int)),
            decreases events@.len() - i,
        {
            let ghost seen = events@.take(i as int);
            let ghost earlier = calls@;
            let event = events[i];
            if let Some(handler) = self.scheduled.get(&event.token) {
                calls.push(Call { handler, readiness: event.readiness });
                assert(contents(calls@) =~= contents(earlier).push((*handler, event.readiness)));
            }
            i += 1;
            assert(events@.take(i as int).drop_last() =~= seen);
        }
        assert(events@.take(i as int) =~= events@);
        calls
    }
}

/// What a resource is ready for, and who waits for it.
#[derive(Debug)]
pub struct Handler<W> {
    state: usize,
    waker: Option<W>,
}

/// The state of a handler.
pub struct HandlerView<W> {
    pub state: usize,
    pub waker: Option<W>,
}

impl<W> HandlerView<W> {
    /// The resource has become ready for this.
    pub open spec fn readied(self, readiness: usize) -> HandlerView<W> {
        HandlerView { state: self.state | readiness, waker: None }
    }
}

impl<W> View for Handler<W> {
    type V = HandlerView<W>;

    closed spec fn view(&self) -> HandlerView<W> {
        HandlerView { state: self.state, waker: self.waker }
    }
}

impl<W> Handler<W> {
    /// The resource is ready for nothing, and nobody waits for it.
    pub fn new() -> (handler: Handler<W>)
        ensures
            handler@ == (HandlerView::<W> { state: 0, waker: None }),
    {
        Handler { state: 0, waker: None }
    }

    /// The resource has become ready for this. Takes the waker that waits for
    /// it, which is then to be woken; if there is none, it was a spurious
    /// wakeup.
    pub fn wake(&mut self, readiness: usize) -> (waker: Option<W>)
        ensures
            waker == old(self)@.waker,
            final(self)@ == old(self)@.readied(readiness),
    {
        self.state = self.state | readiness;
        self.waker.take()
    }
}

/// Tokens are given out once: the next one is used by no resource, and
/// registering its resource keeps the queue well-formed and takes no other
/// resource's place.
pub proof fn law_token_is_unused<A>(queue: EventQueueView<A>, handler: A, other: usize)
    requires
        queue.wf(),
        queue.token < usize::MAX,
    ensures
        !queue.scheduled.contains_key(queue.token),
        queue.token_taken().wf(),
        queue.token_taken().registered(queue.token, handler).wf(),
        queue.scheduled.contains_key(other) ==> queue.token_taken().registered(
            queue.token,
            handler,
        ).scheduled[other] == queue.scheduled[other],
{
}

/// Every event whose resource is registered is passed on to the resource's
/// handler.
pub proof fn law_event_is_passed_on<A>(queue: EventQueueView<A>, events: Seq<Event>, i: int)
    requires
        0 <= i < events.len(),
        queue.scheduled.contains_key(events[i].token),
    ensures
        queue.calls(events).contains((queue.scheduled[events[i].token], events[i].readiness)),
    decreases events.len(),
{
    let call = (queue.scheduled[events[i].token], events[i].readiness);
    let earlier = queue.calls(events.drop_last());
    if i == events.len() - 1 {
        assert(earlier.push(call).last() == call);
    } else {
        assert(events.drop_last()[i] == events[i]);
        law_event_is_passed_on(queue, events.drop_last(), i);
        let j = earlier.index_of(call);
        assert(queue.calls(events)[j] == call);
    }
}

/// The handlers after they have been told these things, in this order.
pub open spec fn called<A, W>(
    handlers: Map<A, HandlerView<W>>,
    calls: Seq<(A, usize)>,
) -> Map<A, HandlerView<W>>
    decreases calls.len(),
{
    if calls.len() == 0 {
        handlers
    } else {
        let before = called(handlers, calls.drop_last());
        let (handler, readiness) = calls.last();
        before.insert(handler, before[handler].readied(readiness))
    }
}

/// The wakers that are woken by telling `handler` its part of these things, in
/// this order.
pub open spec fn woken<A, W>(
    handlers: Map<A, HandlerView<W>>,
    calls: Seq<(A, usize)>,
    handler: A,
) -> Seq<W>
    decreases calls.len(),
{
    if calls.len() == 0 {
        Seq::empty()
    } else {
        let earlier = woken(handlers, calls.drop_last(), handler);
        match called(handlers, calls.drop_last())[handler].waker {
            Some(waker) => if calls.last().0 == handler {
                earlier.push(waker)
            } else {
                earlier
            },
            None => earlier,
        }
    }
}

/// Some event is about a resource of `handler`.
pub open spec fn concerned<A>(queue: EventQueueView<A>, events: Seq<Event>, handler: A) -> bool {
    exists|i: int|
        0 <= i < events.len() && queue.scheduled.contains_key((#[trigger] events[i]).token)
            && queue.scheduled[events[i].token] == handler
}

/// What the events say together of the resources of `handler`.
pub open spec fn readiness_of<A>(
    queue: EventQueueView<A>,
    events: Seq<Event>,
    handler: A,
) -> usize
    decreases events.len(),
{
    if events.len() == 0 {
        0
    } else {
        let earlier = readiness_of(queue, events.drop_last(), handler);
        let last = events.last();
        if queue.scheduled.contains_key(last.token) && queue.scheduled[last.token] == handler {
            earlier | last.readiness
        } else {
            earlier
        }
    }
}

/// Events reach the handlers of their resources: each handler adds to its state
/// what the events say of its resources, and no more. If there is such an
/// event, the waker that waits is woken, once, and waits no longer; else the
/// handler is left as it is.
pub proof fn law_events_wake_the_handlers<A, W>(
    queue: EventQueueView<A>,
    handlers: Map<A, HandlerView<W>>,
    events: Seq<Event>,
    handler: A,
)
    ensures
        called(handlers, queue.calls(events))[handler].state == handlers[handler].state
            | readiness_of(queue, events, handler),
        concerned(queue, events, handler) ==> {
            &&& called(handlers, queue.calls(events))[handler].waker is None
            &&& woken(handlers, queue.calls(events), handler) == match handlers[handler].waker {
                Some(waker) => seq![waker],
                None => Seq::empty(),
            }
        },
        !concerned(queue, events, handler) ==> {
            &&& called(handlers, queue.calls(events))[handler].waker == handlers[handler].waker
            &&& called(handlers, queue.calls(events))[handler].state == handlers[handler].state
            &&& woken(handlers, queue.calls(events), handler) == Seq::<W>::empty()
        },
    decreases events.len(),
{
    let state = handlers[handler].state;
    if events.len() == 0 {
        assert(state | 0 == state) by (bit_vector);
    } else {
        let earlier = events.drop_last();
        let last = events.last();
        law_events_wake_the_handlers(queue, handlers, earlier, handler);
        let mine = queue.scheduled.contains_key(last.token) && queue.scheduled[last.token]
            == handler;
        assert(concerned(queue, events, handler) == (concerned(queue, earlier, handler) || mine))
            by {
            if concerned(queue, earlier, handler) {
                let i = choose|i: int|
                    0 <= i < earlier.len() && queue.scheduled.contains_key(
                        (#[trigger] earlier[i]).token,
                    ) && queue.scheduled[earlier[i].token] == handler;
                assert(earlier[i] == events[i]);
            }
            if mine {
                assert(events[events.len() - 1] == last);
            }
            if concerned(queue, events, handler) && !mine {
                let i = choose|i: int|
                    0 <= i < events.len() && queue.scheduled.contains_key(
                        (#[trigger] events[i]).token,
                    ) && queue.scheduled[events[i].token] == handler;
                assert(earlier[i] == events[i]);
            }
        }
        if queue.scheduled.contains_key(last.token) {
            let call = (queue.scheduled[last.token], last.readiness);
            assert(queue.calls(events).drop_last() =~= queue.calls(earlier));
            assert(queue.calls(events).last() == call);
        }
        if mine {
            let known = readiness_of(queue, earlier, handler);
            let readiness = last.readiness;
            assert((state | known) | readiness == state | (known | readiness)) by (bit_vector);
        }
    }
}

/// A resource that was registered is registered: its token leads to its handler,
/// and an event with that token is passed on to it. No other token leads
/// anywhere else than before. Giving a token out registers nothing, and no token
/// is given out twice.
pub proof fn law_registered_resource_is_reached<A>(
    queue: EventQueueView<A>,
    token: usize,
    handler: A,
    readiness: usize,
    other: usize,
)
    ensures
        queue.registered(token, handler).scheduled.contains_key(token),
        queue.registered(token, handler).scheduled[token] == handler,
        queue.registered(token, handler).calls(seq![Event { token, readiness }]) == seq![
            (handler, readiness),
        ],
        other != token ==> queue.registered(token, handler).scheduled.contains_key(other)
            == queue.scheduled.contains_key(other),
        other != token && queue.scheduled.contains_key(other) ==> queue.registered(
            token,
            handler,
        ).scheduled[other] == queue.scheduled[other],
        queue.registered(token, handler).token == queue.token,
        queue.token_taken().scheduled == queue.scheduled,
        queue.token < usize::MAX ==> queue.token_taken().token == queue.token + 1,
        queue.token == usize::MAX ==> queue.token_taken().token == queue.token,
{
    law_one_event(queue.registered(token, handler), Event { token, readiness });
}

/// One event tells the handler under its token what it says, and nobody if there
/// is none.
pub proof fn law_one_event<A>(queue: EventQueueView<A>, event: Event)
    ensures
        queue.scheduled.contains_key(event.token) ==> queue.calls(seq![event]) == seq![
            (queue.scheduled[event.token], event.readiness),
        ],
        !queue.scheduled.contains_key(event.token) ==> queue.calls(seq![event]).len() == 0,
{
    assert(seq![event].drop_last() =~= Seq::<Event>::empty());
    assert(queue.calls(Seq::<Event>::empty()) =~= Seq::<(A, usize)>::empty());
    if queue.scheduled.contains_key(event.token) {
        assert(queue.calls(seq![event]) =~= seq![
            (queue.scheduled[event.token], event.readiness),
        ]);
    }
}

/// Events are passed on one by one, in the order in which they came: two batches
/// tell what the first tells and then what the second tells.
pub proof fn law_events_are_passed_on_in_order<A>(
    queue: EventQueueView<A>,
    events: Seq<Event>,
    later: Seq<Event>,
)
    ensures
        queue.calls(events + later) == queue.calls(events) + queue.calls(later),
    decreases later.len(),
{
    if later.len() == 0 {
        assert(events + later =~= events);
        assert(queue.calls(events) + queue.calls(later) =~= queue.calls(events));
    } else {
        law_events_are_passed_on_in_order(queue, events, later.drop_last());
        assert((events + later).drop_last() =~= events + later.drop_last());
        assert(queue.calls(events + later) =~= queue.calls(events) + queue.calls(later));
    }
}

/// What calls come to is what they hold, in their order.
pub proof fn law_calls_hold_what_they_tell<'a, A>(calls: Seq<Call<'a, A>>, i: int)
    requires
        0 <= i < calls.len(),
    ensures
        contents(calls).len() == calls.len(),
        contents(calls)[i].0 == *calls[i].handler,
        contents(calls)[i].1 == calls[i].readiness,
{
}

/// A handler that is told something adds it to what it knows, and nobody waits
/// for it any more.
pub proof fn law_handler_adds_what_it_is_told<W>(handler: HandlerView<W>, readiness: usize)
    ensures
        handler.readied(readiness).state == handler.state | readiness,
        handler.readied(readiness).waker is None,
{
}

} // verus!
