//! What holds of a reactor.
use crate::reactor::io_waker::IoWakerView;
use crate::reactor::{contents, new_reactor, Event, Notice, ReactorView};
use crate::ready::{lemma_union, readable, writable};
use vstd::prelude::*;

verus! {

/// A token has been given out and no resource is registered under it: it was
/// given out for one that is about to be, or that was refused.
pub open spec fn reserved<A>(reactor: ReactorView<A>, token: usize) -> bool {
    &&& token < reactor.current
    &&& !reactor.free.contains(token)
    &&& !reactor.resources.contains_key(token)
}

/// A new reactor is well-formed.
pub proof fn law_new_reactor_wf<A>()
    ensures
        new_reactor::<A>().wf(),
{
}

/// With a new reactor nothing is registered, and no token has been given out or
/// back: the first token is zero.
pub proof fn law_new_reactor_is_empty<A>(token: usize)
    ensures
        !new_reactor::<A>().resources.contains_key(token),
        new_reactor::<A>().free.len() == 0,
        new_reactor::<A>().current == 0,
        new_reactor::<A>().next_token() == Some(0usize),
{
}

/// A token that is given out is not in use, and is reserved from then on; the
/// reactor stays well-formed.
pub proof fn law_token_is_unused<A>(reactor: ReactorView<A>)
    requires
        reactor.wf(),
    ensures
        reactor.token_taken().wf(),
        reactor.token_taken().resources == reactor.resources,
        reactor.next_token() matches Some(token) ==> {
            &&& !reactor.resources.contains_key(token)
            &&& reserved(reactor.token_taken(), token)
        },
{
    let after = reactor.token_taken();
    if reactor.free.len() > 0 {
        let token = reactor.free.first();
        assert forall|i: int| 0 <= i < after.free.len() implies (#[trigger] after.free[i])
            < after.current && !after.resources.contains_key(after.free[i]) && after.free[i]
            != token by {
            assert(after.free[i] == reactor.free[i + 1]);
        }
    }
}

/// No two resources are given the same token: a token that is reserved is not
/// given out again, and stays reserved while other tokens are given out.
pub proof fn law_tokens_are_distinct<A>(reactor: ReactorView<A>, token: usize)
    requires
        reactor.wf(),
        reserved(reactor, token),
    ensures
        reactor.next_token() != Some(token),
        reserved(reactor.token_taken(), token),
{
    let after = reactor.token_taken();
    if reactor.free.len() > 0 {
        assert(reactor.free.contains(reactor.free[0]));
        assert forall|i: int| 0 <= i < after.free.len() implies after.free[i] != token by {
            assert(after.free[i] == reactor.free[i + 1]);
            assert(reactor.free.contains(reactor.free[i + 1]));
        }
    }
}

/// Registering a resource under a token that was given out for it keeps the
/// reactor well-formed, and takes no other token's place.
pub proof fn law_registered_wf<A>(
    reactor: ReactorView<A>,
    token: usize,
    io_waker: A,
    other: usize,
)
    requires
        reactor.wf(),
        reserved(reactor, token),
        other != token,
    ensures
        reactor.registered(token, io_waker).wf(),
        reserved(reactor, other) ==> reserved(reactor.registered(token, io_waker), other),
        reactor.registered(token, io_waker).resources.contains_key(other)
            == reactor.resources.contains_key(other),
        reactor.resources.contains_key(other) ==> reactor.registered(
            token,
            io_waker,
        ).resources[other] == reactor.resources[other],
{
    let after = reactor.registered(token, io_waker);
    assert forall|i: int| 0 <= i < after.free.len() implies (#[trigger] after.free[i])
        < after.current && !after.resources.contains_key(after.free[i]) by {
        assert(reactor.free.contains(reactor.free[i]));
    }
}

/// Deregistering a resource that is registered keeps the reactor well-formed,
/// and touches no other resource.
pub proof fn law_deregistered_wf<A>(reactor: ReactorView<A>, token: usize, other: usize)
    requires
        reactor.wf(),
        reactor.resources.contains_key(token),
        other != token,
    ensures
        reactor.deregistered(token).wf(),
        !reactor.deregistered(token).resources.contains_key(token),
        reserved(reactor, other) ==> reserved(reactor.deregistered(token), other),
        reactor.deregistered(token).resources.contains_key(other)
            == reactor.resources.contains_key(other),
        reactor.resources.contains_key(other) ==> reactor.deregistered(token).resources[other]
            == reactor.resources[other],
{
    let after = reactor.deregistered(token);
    let n = reactor.free.len() as int;
    assert forall|i: int| 0 <= i < after.free.len() implies (#[trigger] after.free[i])
        < after.current && !after.resources.contains_key(after.free[i]) by {
        if i < n {
            assert(after.free[i] == reactor.free[i]);
        }
    }
    assert forall|i: int, j: int|
        0 <= i < after.free.len() && 0 <= j < after.free.len() && i != j implies after.free[i]
        != after.free[j] by {
        if i < n && j < n {
            assert(reactor.free[i] != reactor.free[j]);
        } else if i < n {
            assert(!reactor.resources.contains_key(reactor.free[i]));
        } else {
            assert(!reactor.resources.contains_key(reactor.free[j]));
        }
    }
    if reserved(reactor, other) {
        assert forall|i: int| 0 <= i < after.free.len() implies after.free[i] != other by {
            if i < n {
                assert(reactor.free.contains(reactor.free[i]));
            }
        }
    }
}

/// Deregistering a resource undoes its registration: the other resources are
/// as they were, and the token is free again.
pub proof fn law_deregister_undoes_register<A>(
    reactor: ReactorView<A>,
    token: usize,
    io_waker: A,
)
    requires
        !reactor.resources.contains_key(token),
    ensures
        reactor.registered(token, io_waker).deregistered(token) == (ReactorView {
            free: reactor.free.push(token),
            ..reactor
        }),
{
    assert(reactor.registered(token, io_waker).deregistered(token).resources
        =~= reactor.resources);
}

/// Tokens are given out again in the order in which they were given back, and
/// before any that has never been given out.
pub proof fn law_tokens_are_reused<A>(reactor: ReactorView<A>, token: usize)
    ensures
        reactor.free.len() == 0 ==> reactor.deregistered(token).next_token() == Some(token),
        reactor.free.len() > 0 ==> reactor.deregistered(token).next_token()
            == reactor.next_token(),
{
    if reactor.free.len() > 0 {
        assert(reactor.free.push(token).first() == reactor.free.first());
    }
}

/// Every event whose resource is registered is passed on to the resource's
/// `IoWaker`.
pub proof fn law_event_is_passed_on<A>(reactor: ReactorView<A>, events: Seq<Event>, i: int)
    requires
        0 <= i < events.len(),
        reactor.resources.contains_key(events[i].token),
    ensures
        reactor.notices(events).contains(
            (reactor.resources[events[i].token], events[i].readiness),
        ),
    decreases events.len(),
{
    let notice = (reactor.resources[events[i].token], events[i].readiness);
    let earlier = reactor.notices(events.drop_last());
    if i == events.len() - 1 {
        assert(earlier.push(notice).last() == notice);
    } else {
        assert(events.drop_last()[i] == events[i]);
        law_event_is_passed_on(reactor, events.drop_last(), i);
        let j = earlier.index_of(notice);
        assert(reactor.notices(events)[j] == notice);
    }
}

/// Nobody is told anything but what an event says of their resource.
pub proof fn law_notice_comes_from_an_event<A>(
    reactor: ReactorView<A>,
    events: Seq<Event>,
    j: int,
) -> (i: int)
    requires
        0 <= j < reactor.notices(events).len(),
    ensures
        0 <= i < events.len(),
        reactor.resources.contains_key(events[i].token),
        reactor.notices(events)[j] == (reactor.resources[events[i].token], events[i].readiness),
    decreases events.len(),
{
    let earlier = reactor.notices(events.drop_last());
    if j < earlier.len() {
        let i = law_notice_comes_from_an_event(reactor, events.drop_last(), j);
        assert(events.drop_last()[i] == events[i]);
        i
    } else {
        events.len() - 1
    }
}

/// The `IoWaker`s after they have been told these things, in this order.
pub open spec fn told<A, W>(
    io_wakers: Map<A, IoWakerView<W>>,
    notices: Seq<(A, usize)>,
) -> Map<A, IoWakerView<W>>
    decreases notices.len(),
{
    if notices.len() == 0 {
        io_wakers
    } else {
        let before = told(io_wakers, notices.drop_last());
        let (io_waker, readiness) = notices.last();
        before.insert(io_waker, before[io_waker].readied(readiness))
    }
}

/// The waker is among those that are woken by telling the `IoWaker`s these
/// things, in this order.
pub open spec fn wakes<A, W>(
    io_wakers: Map<A, IoWakerView<W>>,
    notices: Seq<(A, usize)>,
    waker: W,
) -> bool
    decreases notices.len(),
{
    if notices.len() == 0 {
        false
    } else {
        let before = told(io_wakers, notices.drop_last());
        let (io_waker, readiness) = notices.last();
        let woken = before[io_waker].woken_by(readiness);
        ||| wakes(io_wakers, notices.drop_last(), waker)
        ||| woken.read == Some(waker)
        ||| woken.write == Some(waker)
    }
}

/// What is told to some does not touch the others.
pub proof fn law_notices_touch_only_their_io_wakers<A, W>(
    io_wakers: Map<A, IoWakerView<W>>,
    notices: Seq<(A, usize)>,
    other: A,
)
    requires
        forall|i: int| 0 <= i < notices.len() ==> (#[trigger] notices[i]).0 != other,
    ensures
        told(io_wakers, notices)[other] == io_wakers[other],
    decreases notices.len(),
{
    if notices.len() > 0 {
        let earlier = notices.drop_last();
        assert forall|i: int| 0 <= i < earlier.len() implies (#[trigger] earlier[i]).0 != other by {
            assert(earlier[i] == notices[i]);
        }
        law_notices_touch_only_their_io_wakers(io_wakers, earlier, other);
    }
}

/// What an `IoWaker` has been told stays known until the readiness is polled
/// for, and nobody waits for it any more.
proof fn lemma_told<A, W>(
    io_wakers: Map<A, IoWakerView<W>>,
    notices: Seq<(A, usize)>,
    i: int,
)
    requires
        0 <= i < notices.len(),
    ensures
        readable(notices[i].1) ==> {
            &&& told(io_wakers, notices)[notices[i].0].read is None
            &&& told(io_wakers, notices)[notices[i].0].read_poll() is Some
        },
        writable(notices[i].1) ==> {
            &&& told(io_wakers, notices)[notices[i].0].write is None
            &&& told(io_wakers, notices)[notices[i].0].write_poll() is Some
        },
    decreases notices.len(),
{
    let earlier = notices.drop_last();
    let before = told(io_wakers, earlier);
    let (io_waker, readiness) = notices.last();
    lemma_union(before[io_waker].readiness, readiness);
    if i < earlier.len() {
        assert(earlier[i] == notices[i]);
        lemma_told(io_wakers, earlier, i);
    }
}

/// Who waits still waits, unless they have been woken.
proof fn lemma_waits_or_is_woken<A, W>(
    io_wakers: Map<A, IoWakerView<W>>,
    notices: Seq<(A, usize)>,
    io_waker: A,
    waker: W,
)
    ensures
        io_wakers[io_waker].read == Some(waker) ==> wakes(io_wakers, notices, waker) || told(
            io_wakers,
            notices,
        )[io_waker].read == Some(waker),
        io_wakers[io_waker].write == Some(waker) ==> wakes(io_wakers, notices, waker) || told(
            io_wakers,
            notices,
        )[io_waker].write == Some(waker),
    decreases notices.len(),
{
    if notices.len() > 0 {
        lemma_waits_or_is_woken(io_wakers, notices.drop_last(), io_waker, waker);
    }
}

/// Who waits to read from a registered resource is woken by any batch of
/// events that makes it readable, and their next poll succeeds.
pub proof fn law_events_wake_the_reader<A, W>(
    reactor: ReactorView<A>,
    io_wakers: Map<A, IoWakerView<W>>,
    events: Seq<Event>,
    i: int,
    waker: W,
)
    requires
        0 <= i < events.len(),
        reactor.resources.contains_key(events[i].token),
        readable(events[i].readiness),
        io_wakers[reactor.resources[events[i].token]].read == Some(waker),
    ensures
        wakes(io_wakers, reactor.notices(events), waker),
        told(
            io_wakers,
            reactor.notices(events),
        )[reactor.resources[events[i].token]].read_poll() is Some,
{
    let notices = reactor.notices(events);
    let io_waker = reactor.resources[events[i].token];
    law_event_is_passed_on(reactor, events, i);
    let j = notices.index_of((io_waker, events[i].readiness));
    lemma_told(io_wakers, notices, j);
    lemma_waits_or_is_woken(io_wakers, notices, io_waker, waker);
}

/// Who waits to write to a registered resource is woken by any batch of events
/// that makes it writable, and their next poll succeeds.
pub proof fn law_events_wake_the_writer<A, W>(
    reactor: ReactorView<A>,
    io_wakers: Map<A, IoWakerView<W>>,
    events: Seq<Event>,
    i: int,
    waker: W,
)
    requires
        0 <= i < events.len(),
        reactor.resources.contains_key(events[i].token),
        writable(events[i].readiness),
        io_wakers[reactor.resources[events[i].token]].write == Some(waker),
    ensures
        wakes(io_wakers, reactor.notices(events), waker),
        told(
            io_wakers,
            reactor.notices(events),
        )[reactor.resources[events[i].token]].write_poll() is Some,
{
    let notices = reactor.notices(events);
    let io_waker = reactor.resources[events[i].token];
    law_event_is_passed_on(reactor, events, i);
    let j = notices.index_of((io_waker, events[i].readiness));
    lemma_told(io_wakers, notices, j);
    lemma_waits_or_is_woken(io_wakers, notices, io_waker, waker);
}

/// A resource that was registered is registered: its token leads to its
/// `IoWaker`, and an event with that token is passed on to it. No other token
/// leads anywhere else than before, and no token is given out or back.
pub proof fn law_registered_resource_is_reached<A>(
    reactor: ReactorView<A>,
    token: usize,
    io_waker: A,
    readiness: usize,
    other: usize,
)
    ensures
        reactor.registered(token, io_waker).resources.contains_key(token),
        reactor.registered(token, io_waker).resources[token] == io_waker,
        reactor.registered(token, io_waker).notices(seq![Event { token, readiness }]) == seq![
            (io_waker, readiness),
        ],
        other != token ==> reactor.registered(token, io_waker).resources.contains_key(other)
            == reactor.resources.contains_key(other),
        other != token && reactor.resources.contains_key(other) ==> reactor.registered(
            token,
            io_waker,
        ).resources[other] == reactor.resources[other],
        reactor.registered(token, io_waker).free == reactor.free,
        reactor.registered(token, io_waker).current == reactor.current,
{
    law_one_event(reactor.registered(token, io_waker), Event { token, readiness });
}

/// A resource that was deregistered is not registered any more: no event reaches
/// it, and its token has been given back, behind the others. No other resource
/// is concerned.
pub proof fn law_deregistered_resource_is_not_reached<A>(
    reactor: ReactorView<A>,
    token: usize,
    readiness: usize,
    other: usize,
)
    ensures
        !reactor.deregistered(token).resources.contains_key(token),
        reactor.deregistered(token).notices(seq![Event { token, readiness }]).len() == 0,
        other != token ==> reactor.deregistered(token).resources.contains_key(other)
            == reactor.resources.contains_key(other),
        other != token && reactor.resources.contains_key(other) ==> reactor.deregistered(
            token,
        ).resources[other] == reactor.resources[other],
        reactor.deregistered(token).free.len() == reactor.free.len() + 1,
        reactor.deregistered(token).free.last() == token,
        reactor.deregistered(token).free.drop_last() == reactor.free,
        reactor.deregistered(token).current == reactor.current,
{
    law_one_event(reactor.deregistered(token), Event { token, readiness });
    assert(reactor.deregistered(token).free.drop_last() =~= reactor.free);
}

/// The token that is given out is the one that was given back first, and leaves
/// the others; if there is none, it is a new one. There is a token unless none
/// is free and every number has been given out.
pub proof fn law_oldest_token_is_given_out<A>(reactor: ReactorView<A>)
    ensures
        reactor.next_token() is None <==> reactor.free.len() == 0 && reactor.current == usize::MAX,
        reactor.free.len() > 0 ==> reactor.next_token() == Some(reactor.free[0])
            && reactor.token_taken().free == reactor.free.skip(1) && reactor.token_taken().current
            == reactor.current,
        reactor.free.len() == 0 ==> reactor.token_taken().free.len() == 0,
        reactor.free.len() == 0 && reactor.current < usize::MAX ==> reactor.next_token() == Some(
            reactor.current,
        ) && reactor.token_taken().current == reactor.current + 1,
        reactor.next_token() is None ==> reactor.token_taken() == reactor,
        reactor.token_taken().resources == reactor.resources,
{
    if reactor.free.len() > 0 {
        assert(reactor.token_taken().free =~= reactor.free.skip(1));
    }
}

/// One event tells the `IoWaker` under its token what it says, and nobody if
/// there is none.
pub proof fn law_one_event<A>(reactor: ReactorView<A>, event: Event)
    ensures
        reactor.resources.contains_key(event.token) ==> reactor.notices(seq![event]) == seq![
            (reactor.resources[event.token], event.readiness),
        ],
        !reactor.resources.contains_key(event.token) ==> reactor.notices(seq![event]).len() == 0,
{
    assert(seq![event].drop_last() =~= Seq::<Event>::empty());
    assert(reactor.notices(Seq::<Event>::empty()) =~= Seq::<(A, usize)>::empty());
    if reactor.resources.contains_key(event.token) {
        assert(reactor.notices(seq![event]) =~= seq![
            (reactor.resources[event.token], event.readiness),
        ]);
    }
}

/// Events are passed on one by one, in the order in which they came: two batches
/// tell what the first tells and then what the second tells.
pub proof fn law_events_are_passed_on_in_order<A>(
    reactor: ReactorView<A>,
    events: Seq<Event>,
    later: Seq<Event>,
)
    ensures
        reactor.notices(events + later) == reactor.notices(events) + reactor.notices(later),
    decreases later.len(),
{
    if later.len() == 0 {
        assert(events + later =~= events);
        assert(reactor.notices(events) + reactor.notices(later) =~= reactor.notices(events));
    } else {
        law_events_are_passed_on_in_order(reactor, events, later.drop_last());
        assert((events + later).drop_last() =~= events + later.drop_last());
        assert(reactor.notices(events + later) =~= reactor.notices(events) + reactor.notices(
            later,
        ));
    }
}

/// What notices come to is what they hold, in their order.
pub proof fn law_notices_hold_what_they_tell<'a, A>(notices: Seq<Notice<'a, A>>, i: int)
    requires
        0 <= i < notices.len(),
    ensures
        contents(notices).len() == notices.len(),
        contents(notices)[i].0 == *notices[i].io_waker,
        contents(notices)[i].1 == notices[i].readiness,
{
}

} // verus!
