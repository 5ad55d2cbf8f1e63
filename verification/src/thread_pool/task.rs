//! The part of a task that its pool, its wakers and its workers share.
use crate::thread_pool::laws::{law_stepped_pending, law_submitted_pending, pending};
use crate::thread_pool::worker::Action;
use crate::thread_pool::{SharedView, ThreadPool};
use crate::utils::small_arc::Refs;
use vstd::prelude::*;

verus! {

/// Nobody uses the future of the task.
pub const UNLOCKED: usize = 0;

/// A worker uses the future of the task.
pub const LOCKED: usize = 1;

/// The future of the task is complete and is not used any more.
pub const COMPLETE: usize = 2;

/// How an attempt to use the future of a task ended.
#[derive(Clone, Copy, Debug, PartialEq, Eq, Structural)]
pub enum Lock {
    /// The future is the caller's until it is unlocked or complete.
    Acquired,
    /// Somebody else uses the future; snooze and try again.
    Busy,
    /// The future is complete; there is nothing to poll.
    Complete,
}

/// What came of a wakeup.
#[derive(Clone, Copy, Debug, PartialEq, Eq, Structural)]
pub struct Wake {
    /// The worker whose thread is to be unparked.
    pub woken: Option<usize>,
    /// The last reference to the task is gone, and with it the task.
    pub freed: bool,
}

/// The state of a task and the number of references to it. Each entry in a
/// queue, each waker and each worker that holds the task is a reference.
#[derive(Clone, Copy, Debug, PartialEq, Eq, Structural)]
pub struct Header {
    state: usize,
    refs: Refs,
}

/// The state of a task.
pub struct HeaderView {
    pub state: usize,
    pub refs: nat,
}

impl HeaderView {
    /// An attempt to become the only user of the future: what becomes of the
    /// task, and how the attempt ends.
    pub open spec fn lock_next(self) -> (HeaderView, Lock) {
        if self.state == UNLOCKED {
            (HeaderView { state: LOCKED, ..self }, Lock::Acquired)
        } else if self.state == LOCKED {
            (self, Lock::Busy)
        } else {
            (self, Lock::Complete)
        }
    }

    /// The end of a poll of the future, which was ready or was not.
    pub open spec fn polled_next(self, ready: bool) -> HeaderView {
        HeaderView {
            state: if ready {
                COMPLETE
            } else {
                UNLOCKED
            },
            ..self
        }
    }
}

impl View for Header {
    type V = HeaderView;

    closed spec fn view(&self) -> HeaderView {
        HeaderView { state: self.state, refs: self.refs@ }
    }
}

impl Header {
    /// A task that nobody has polled yet, with one reference to it.
    pub fn new() -> (header: Header)
        ensures
            header@ == (HeaderView { state: UNLOCKED, refs: 1 }),
    {
        Header { state: UNLOCKED, refs: Refs::new() }
    }

    /// Whether somebody uses the future, or it is complete.
    pub fn state(&self) -> (state: usize)
        ensures
            state == self@.state,
    {
        self.state
    }

    /// How many references there are.
    pub fn refs(&self) -> (refs: usize)
        ensures
            refs == self@.refs,
    {
        self.refs.count()
    }

    /// Counts one more reference.
    pub fn inc_refcount(&mut self)
        requires
            old(self)@.refs < usize::MAX,
        ensures
            final(self)@ == (HeaderView { refs: old(self)@.refs + 1, ..old(self)@ }),
    {
        self.refs.inc_refs();
    }

    /// Counts one reference less. Tells whether that was the last one.
    pub fn drop_raw(&mut self) -> (freed: bool)
        requires
            old(self)@.refs > 0,
        ensures
            final(self)@ == (HeaderView { refs: (old(self)@.refs - 1) as nat, ..old(self)@ }),
            freed == (old(self)@.refs == 1),
    {
        self.refs.dec_refs();
        self.refs.is_zero()
    }

    /// Tries to become the only user of the future.
    pub fn lock(&mut self) -> (lock: Lock)
        ensures
            (final(self)@, lock) == old(self)@.lock_next(),
    {
        if self.state == UNLOCKED {
            self.state = LOCKED;
            Lock::Acquired
        } else if self.state == LOCKED {
            Lock::Busy
        } else {
            Lock::Complete
        }
    }

    /// Gives the future back.
    pub fn unlock(&mut self)
        requires
            old(self)@.state == LOCKED,
        ensures
            final(self)@ == (HeaderView { state: UNLOCKED, ..old(self)@ }),
    {
        self.state = UNLOCKED;
    }

    /// Marks the future as complete.
    pub fn set_complete(&mut self)
        requires
            old(self)@.state == LOCKED,
        ensures
            final(self)@ == (HeaderView { state: COMPLETE, ..old(self)@ }),
    {
        self.state = COMPLETE;
    }

    /// Ends a poll of the future, which was ready or was not.
    pub fn polled(&mut self, ready: bool)
        requires
            old(self)@.state == LOCKED,
        ensures
            final(self)@ == old(self)@.polled_next(ready),
    {
        if ready {
            self.set_complete()
        } else {
            self.unlock()
        }
    }
}

/// Counts the reference of a waker that is made for the task.
pub fn waker(header: &mut Header)
    requires
        old(header)@.refs < usize::MAX,
    ensures
        final(header)@ == (HeaderView { refs: old(header)@.refs + 1, ..old(header)@ }),
{
    header.inc_refcount()
}

/// Wakes a task and uses its waker up: the reference of the waker becomes that
/// of an entry in the injector. Where the pool is gone the reference is dropped.
pub fn wake(header: &mut Header, task: usize, pool: Option<&mut ThreadPool>) -> (wake: Wake)
    requires
        old(header)@.refs > 0,
        pool matches Some(pool) ==> pool.wf(),
    ensures
        pool matches Some(pool) ==> {
            &&& final(pool).wf()
            &&& final(pool)@ == (*pool)@.submitted(task)
            &&& final(pool).is_shut_down() == (*pool).is_shut_down()
            &&& final(header)@ == old(header)@
            &&& wake == (Wake { woken: (*pool)@.next_sleeper(), freed: false })
        },
        pool is None ==> {
            &&& final(header)@ == (HeaderView {
                refs: (old(header)@.refs - 1) as nat,
                ..old(header)@
            })
            &&& wake == (Wake { woken: None, freed: old(header)@.refs == 1 })
        },
{
    match pool {
        Some(pool) => Wake { woken: pool.spawn(task), freed: false },
        None => Wake { woken: None, freed: header.drop_raw() },
    }
}

/// Wakes a task and leaves its waker as it is: since the waker is not dropped,
/// the entry in the injector gets a reference of its own.
pub fn wake_by_ref(header: &mut Header, task: usize, pool: Option<&mut ThreadPool>) -> (wake: Wake)
    requires
        0 < old(header)@.refs < usize::MAX,
        pool matches Some(pool) ==> pool.wf(),
    ensures
        pool matches Some(pool) ==> {
            &&& final(pool).wf()
            &&& final(pool)@ == (*pool)@.submitted(task)
            &&& final(pool).is_shut_down() == (*pool).is_shut_down()
            &&& final(header)@ == (HeaderView { refs: old(header)@.refs + 1, ..old(header)@ })
            &&& wake == (Wake { woken: (*pool)@.next_sleeper(), freed: false })
        },
        pool is None ==> {
            &&& final(header)@ == old(header)@
            &&& wake == (Wake { woken: None, freed: false })
        },
{
    header.inc_refcount();
    self::wake(header, task, pool)
}

/// Drops a waker. Tells whether that was the last reference to the task.
pub fn drop_task(header: &mut Header) -> (freed: bool)
    requires
        old(header)@.refs > 0,
    ensures
        final(header)@ == (HeaderView { refs: (old(header)@.refs - 1) as nat, ..old(header)@ }),
        freed == (old(header)@.refs == 1),
{
    header.drop_raw()
}

/// At most one user at a time: while somebody has the future, every other
/// attempt to get it fails and changes nothing.
pub proof fn law_future_has_one_user(task: HeaderView)
    requires
        task.lock_next().1 is Acquired,
    ensures
        task.lock_next().0.lock_next() == (task.lock_next().0, Lock::Busy),
{
}

/// A future that was not ready can be polled again.
pub proof fn law_pending_future_is_polled_again(task: HeaderView)
    requires
        task.lock_next().1 is Acquired,
    ensures
        task.lock_next().0.polled_next(false) == task,
{
}

/// A future that was ready is never polled again: no attempt to get it
/// succeeds, and none changes the task.
pub proof fn law_complete_future_is_never_polled(task: HeaderView)
    ensures
        task.polled_next(true).lock_next() == (task.polled_next(true), Lock::Complete),
{
}

/// The references to a task that are not entries in a queue: its wakers, and
/// the workers that hold it.
pub open spec fn handles(header: HeaderView, pool: SharedView, task: usize) -> int {
    header.refs - pending(pool, task)
}

/// Waking a task by value turns the handle that its waker was into an entry of
/// the injector; waking it by reference leaves the number of handles as it is.
pub proof fn law_wake_accounts_for_handles(header: HeaderView, pool: SharedView, task: usize)
    ensures
        handles(header, pool.submitted(task), task) == handles(header, pool, task) - 1,
        handles(
            HeaderView { refs: header.refs + 1, ..header },
            pool.submitted(task),
            task,
        ) == handles(header, pool, task),
{
    law_submitted_pending(pool, task, task);
}

/// A worker that is handed a task, to poll it or to give it up, has one handle
/// to it more than before; no other step changes the number of handles.
pub proof fn law_step_accounts_for_handles(
    header: HeaderView,
    pool: SharedView,
    w: int,
    completed: bool,
    after: SharedView,
    action: Action,
    task: usize,
)
    requires
        pool.wf(),
        0 <= w < pool.workers.len(),
        pool.stepped(w, completed, after, action),
    ensures
        handles(header, after, task) == handles(header, pool, task) + if action == Action::Poll(
            task,
        ) || action == Action::Discard(task) {
            1int
        } else {
            0int
        },
{
    law_stepped_pending(pool, w, completed, after, action, task);
}

/// The future is handed out only where nobody uses it and it is not complete,
/// and whether it is complete shows only once its poll was ready. None of this
/// changes the number of references.
pub proof fn law_lock_tells_the_state(task: HeaderView, ready: bool)
    ensures
        task.lock_next().1 is Acquired <==> task.state == UNLOCKED,
        task.lock_next().1 is Busy <==> task.state == LOCKED,
        task.lock_next().1 is Acquired ==> task.lock_next().0.state == LOCKED,
        !(task.lock_next().1 is Acquired) ==> task.lock_next().0 == task,
        task.lock_next().0.refs == task.refs,
        task.polled_next(ready).refs == task.refs,
        ready <==> task.polled_next(ready).lock_next().1 is Complete,
        !ready <==> task.polled_next(ready).lock_next().1 is Acquired,
{
}

} // verus!
