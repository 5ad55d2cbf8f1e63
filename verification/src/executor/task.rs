//! The flags of a task that runs on an executor.
use crate::queues::TaskInjector;
use crate::thread_pool::task::Lock;
use vstd::prelude::*;

verus! {

/// What an executor, its threads and the wakers of a task know of the task.
#[derive(Clone, Copy, Debug, PartialEq, Eq, Structural)]
pub struct Task {
    complete: bool,
    flag: bool,
}

/// The state of a task.
pub struct TaskView {
    /// The future has returned its result.
    pub complete: bool,
    /// Somebody uses the future.
    pub in_use: bool,
}

impl TaskView {
    /// Only a future that is not complete is in use.
    pub open spec fn wf(self) -> bool {
        self.in_use ==> !self.complete
    }

    /// An attempt to become the only user of the future: what becomes of the
    /// task, and how the attempt ends.
    pub open spec fn lock_next(self) -> (TaskView, Lock) {
        if self.complete {
            (self, Lock::Complete)
        } else if self.in_use {
            (self, Lock::Busy)
        } else {
            (TaskView { in_use: true, ..self }, Lock::Acquired)
        }
    }

    /// The end of a poll of the future, which was ready or was not.
    pub open spec fn polled_next(self, ready: bool) -> TaskView {
        TaskView { complete: ready, in_use: false }
    }
}

impl View for Task {
    type V = TaskView;

    closed spec fn view(&self) -> TaskView {
        TaskView { complete: self.complete, in_use: self.flag }
    }
}

impl Task {
    /// A task whose future has not been polled yet.
    pub fn new() -> (task: Task)
        ensures
            task@ == (TaskView { complete: false, in_use: false }),
    {
        Task { complete: false, flag: false }
    }

    /// Tries to become the only user of the future. If somebody else uses it,
    /// the caller is to snooze and to try again; if it is complete, there is
    /// nothing to poll.
    pub fn future(&mut self) -> (lock: Lock)
        ensures
            (final(self)@, lock) == old(self)@.lock_next(),
    {
        if self.complete {
            Lock::Complete
        } else if self.flag {
            Lock::Busy
        } else {
            self.flag = true;
            Lock::Acquired
        }
    }

    /// Gives the future back.
    fn release(&mut self)
        ensures
            final(self)@ == (TaskView { in_use: false, ..old(self)@ }),
    {
        self.flag = false;
    }

    /// Checks if the task is complete.
    pub fn is_complete(&self) -> (complete: bool)
        ensures
            complete == self@.complete,
    {
        self.complete
    }

    /// Marks the task as complete, so that it is not rescheduled again. This
    /// happens once, when the future returns its result.
    fn complete(&mut self)
        requires
            !old(self)@.complete,
        ensures
            final(self)@ == (TaskView { complete: true, ..old(self)@ }),
    {
        self.complete = true;
    }

    /// Ends a poll of the future, which was ready or was not, and gives it back.
    pub fn polled(&mut self, ready: bool)
        requires
            old(self)@.in_use,
            !old(self)@.complete,
        ensures
            final(self)@ == old(self)@.polled_next(ready),
    {
        if ready {
            self.complete();
        }
        self.release();
    }

    /// Puts the task, which is known to the executor as `id`, back into the
    /// injector, unless it is complete or the injector is gone. Tells whether
    /// it did.
    pub fn wake_by_ref(&self, id: usize, injector: Option<&mut TaskInjector>) -> (pushed: bool)
        ensures
            pushed == (!self@.complete && injector is Some),
            injector matches Some(injector) ==> final(injector)@ == if self@.complete {
                (*injector)@
            } else {
                (*injector)@.push(id)
            },
    {
        if !self.is_complete() {
            if let Some(injector) = injector {
                injector.push(id);
                return true;
            }
        }
        false
    }
}

/// At most one user at a time: while somebody has the future, every other
/// attempt to get it fails and changes nothing. Nobody but that user can
/// complete the task, so its poll ends as [`Task::polled`] asks for.
pub proof fn law_future_has_one_user(task: TaskView)
    requires
        task.lock_next().1 is Acquired,
    ensures
        task.lock_next().0.in_use && !task.lock_next().0.complete,
        task.lock_next().0.lock_next() == (task.lock_next().0, Lock::Busy),
{
}

/// A future that was not ready can be polled again.
pub proof fn law_pending_future_is_polled_again(task: TaskView)
    requires
        task.lock_next().1 is Acquired,
    ensures
        task.lock_next().0.polled_next(false) == task,
{
}

/// Something that happens to a task.
pub enum TaskEvent {
    /// A thread that has found the task in a queue tries to get its future.
    Found,
    /// The user of the future ends its poll, which was ready or was not.
    Polled(bool),
    /// A waker of the task is woken.
    Woken,
}

impl TaskView {
    /// The event can happen: only a future that is in use is being polled.
    pub open spec fn allows(self, event: TaskEvent) -> bool {
        event is Polled ==> self.in_use
    }

    /// The task after an event.
    pub open spec fn after(self, event: TaskEvent) -> TaskView {
        match event {
            TaskEvent::Found => self.lock_next().0,
            TaskEvent::Polled(ready) => self.polled_next(ready),
            TaskEvent::Woken => self,
        }
    }

    /// The task after these events, in this order.
    pub open spec fn after_all(self, events: Seq<TaskEvent>) -> TaskView
        decreases events.len(),
    {
        if events.len() == 0 {
            self
        } else {
            self.after_all(events.drop_last()).after(events.last())
        }
    }

    /// These events can happen, in this order.
    pub open spec fn allows_all(self, events: Seq<TaskEvent>) -> bool
        decreases events.len(),
    {
        events.len() == 0 || (self.allows_all(events.drop_last()) && self.after_all(
            events.drop_last(),
        ).allows(events.last()))
    }
}

/// A new task is well-formed, and every event that can happen keeps it so.
pub proof fn law_event_keeps_the_task_wf(task: TaskView, event: TaskEvent)
    requires
        task.wf(),
        task.allows(event),
    ensures
        task.after(event).wf(),
{
}

/// A future that was ready is never polled again, however often and whenever
/// its wakers are woken and threads find the task: nothing changes it any more,
/// no poll of it can end, and every attempt to get it says that it is complete.
pub proof fn law_complete_future_is_never_polled(task: TaskView, events: Seq<TaskEvent>)
    requires
        task.wf(),
        task.complete,
        task.allows_all(events),
    ensures
        task.after_all(events) == task,
        task.after_all(events).lock_next().1 is Complete,
        forall|i: int| 0 <= i < events.len() ==> !(#[trigger] events[i] is Polled),
    decreases events.len(),
{
    if events.len() > 0 {
        let earlier = events.drop_last();
        law_complete_future_is_never_polled(task, earlier);
        assert forall|i: int| 0 <= i < events.len() implies !(#[trigger] events[i] is Polled) by {
            if i < earlier.len() {
                assert(earlier[i] == events[i]);
            }
        }
    }
}

/// The future is handed out only where nobody uses it and it is not complete.
/// The end of a poll gives it back, and makes the task complete exactly if the
/// future was ready.
pub proof fn law_lock_tells_the_state(task: TaskView, ready: bool)
    ensures
        task.lock_next().1 is Complete <==> task.complete,
        task.lock_next().1 is Busy <==> task.in_use && !task.complete,
        task.lock_next().1 is Acquired <==> !task.in_use && !task.complete,
        task.lock_next().0.complete == task.complete,
        task.lock_next().0.in_use <==> task.in_use || task.lock_next().1 is Acquired,
        !task.polled_next(ready).in_use,
        task.polled_next(ready).complete == ready,
        ready <==> task.polled_next(ready).lock_next().1 is Complete,
{
}

} // verus!
