//! The queues that hold task numbers, worker numbers and tokens.
//!
//! Each of them wraps a queue of the crate `crossbeam` and gives it a view: the
//! sequence of what it holds, the oldest item first. The queues are reached
//! through `&mut` alone, so no other thread works on one during a call.
use crossbeam::deque::{Injector, Steal, Worker};
use crossbeam::queue::{ArrayQueue, SegQueue};
use vstd::prelude::*;

verus! {

/// The injector queue of `crossbeam::deque`.
#[verifier::external_type_specification]
#[verifier::external_body]
#[verifier::reject_recursive_types(T)]
pub struct ExInjector<T>(Injector<T>);

/// The worker queue of `crossbeam::deque`.
#[verifier::external_type_specification]
#[verifier::external_body]
#[verifier::reject_recursive_types(T)]
pub struct ExWorker<T>(Worker<T>);

/// The bounded queue of `crossbeam::queue`.
#[verifier::external_type_specification]
#[verifier::external_body]
#[verifier::reject_recursive_types(T)]
pub struct ExArrayQueue<T>(ArrayQueue<T>);

/// The unbounded queue of `crossbeam::queue`.
#[verifier::external_type_specification]
#[verifier::external_body]
#[verifier::reject_recursive_types(T)]
pub struct ExSegQueue<T>(SegQueue<T>);

/// What an injector queue holds, the oldest task first.
pub uninterp spec fn injector_tasks(queue: Injector<usize>) -> Seq<usize>;

/// What a worker queue holds, the oldest task first.
pub uninterp spec fn worker_tasks(queue: Worker<usize>) -> Seq<usize>;

/// What a bounded queue holds, the oldest item first.
pub uninterp spec fn array_items(queue: ArrayQueue<usize>) -> Seq<usize>;

/// How many items a bounded queue was made for.
pub uninterp spec fn array_capacity(queue: ArrayQueue<usize>) -> nat;

/// What an unbounded queue holds, the oldest item first.
pub uninterp spec fn seg_items(queue: SegQueue<usize>) -> Seq<usize>;

/// How an attempt to take tasks out of a queue ended.
#[derive(Clone, Copy, Debug, PartialEq, Eq, Structural)]
pub enum Stolen {
    /// Tasks were taken.
    Success,
    /// There was nothing to take.
    Empty,
    /// Nothing was taken; another attempt may succeed.
    Retry,
}

/// The most tasks that one attempt moves from one queue to another.
pub const MAX_BATCH: usize = 32;

/// A buffer of so many items, each with a stamp of its own, can be asked for:
/// no allocation is larger than `isize::MAX` bytes.
pub open spec fn is_capacity(capacity: usize) -> bool {
    0 < capacity && capacity <= isize::MAX as int / 16
}

/// `count` tasks, at least one and at most [`MAX_BATCH`], have moved from the
/// front of one queue to the back of another, in the same order.
pub open spec fn batch_moved(
    from: Seq<usize>,
    from_after: Seq<usize>,
    to: Seq<usize>,
    to_after: Seq<usize>,
    count: int,
) -> bool {
    &&& 1 <= count <= from.len()
    &&& count <= MAX_BATCH
    &&& from_after == from.skip(count)
    &&& to_after == to + from.take(count)
}

/// Some number of tasks has moved from one queue to another.
pub open spec fn some_moved(
    from: Seq<usize>,
    from_after: Seq<usize>,
    to: Seq<usize>,
    to_after: Seq<usize>,
) -> bool {
    exists|count: int| batch_moved(from, from_after, to, to_after, count)
}

/// The injector queue: the point of entry for new tasks.
pub struct TaskInjector {
    queue: Injector<usize>,
}

/// The queue of a single worker: first in, first out. Other workers may steal
/// from it; no stealer of the queue outlives the call that makes it.
pub struct TaskQueue {
    queue: Worker<usize>,
}

/// A queue with room for a fixed number of items.
pub struct BoundedQueue {
    queue: ArrayQueue<usize>,
}

/// A queue without a bound on the number of its items.
pub struct UnboundedQueue {
    queue: SegQueue<usize>,
}

impl View for TaskInjector {
    type V = Seq<usize>;

    closed spec fn view(&self) -> Seq<usize> {
        injector_tasks(self.queue)
    }
}

impl View for TaskQueue {
    type V = Seq<usize>;

    closed spec fn view(&self) -> Seq<usize> {
        worker_tasks(self.queue)
    }
}

impl View for BoundedQueue {
    type V = Seq<usize>;

    closed spec fn view(&self) -> Seq<usize> {
        array_items(self.queue)
    }
}

impl View for UnboundedQueue {
    type V = Seq<usize>;

    closed spec fn view(&self) -> Seq<usize> {
        seg_items(self.queue)
    }
}

/// `Injector::new`: the queue is empty.
#[verifier::external_body]
fn injector_new() -> (queue: Injector<usize>)
    ensures
        injector_tasks(queue) == Seq::<usize>::empty(),
{
    Injector::new()
}

/// `Injector::push`: the task goes behind those that are there.
#[verifier::external_body]
fn injector_push(queue: &mut Injector<usize>, task: usize)
    ensures
        injector_tasks(*final(queue)) == injector_tasks(*old(queue)).push(task),
{
    queue.push(task)
}

/// `Injector::is_empty`, on a queue that no other thread reaches: tells whether
/// the queue holds nothing, and leaves it as it is.
#[verifier::external_body]
fn injector_is_empty(queue: &mut Injector<usize>) -> (empty: bool)
    ensures
        empty == (injector_tasks(*old(queue)).len() == 0),
        injector_tasks(*final(queue)) == injector_tasks(*old(queue)),
{
    queue.is_empty()
}

/// `Injector::steal`, on a queue that no other thread reaches: takes the oldest
/// task. An empty queue gives `Steal::Empty`. A queue with tasks may also give
/// `Steal::Retry`, because the index is moved by an exchange that may fail
/// without a cause; the queue is then as it was.
#[verifier::external_body]
fn injector_steal(queue: &mut Injector<usize>) -> (stolen: (Stolen, Option<usize>))
    ensures
        stolen.0 is Empty <==> injector_tasks(*old(queue)).len() == 0,
        stolen.1 is Some <==> stolen.0 is Success,
        stolen.0 is Success ==> injector_tasks(*final(queue)) == injector_tasks(
            *old(queue),
        ).drop_first() && stolen.1 == Some(injector_tasks(*old(queue)).first()),
        stolen.0 !is Success ==> injector_tasks(*final(queue)) == injector_tasks(*old(queue)),
{
    match queue.steal() {
        Steal::Success(task) => (Stolen::Success, Some(task)),
        Steal::Empty => (Stolen::Empty, None),
        Steal::Retry => (Stolen::Retry, None),
    }
}

/// `Injector::steal_batch` into a worker queue that is first in, first out, on
/// queues that no other thread reaches: moves some of the oldest tasks behind
/// those of the worker queue. An empty injector gives `Steal::Empty`. One with
/// tasks may also give `Steal::Retry`; both queues are then as they were. How
/// many tasks move depends on where they lie in the injector's memory; only the
/// bounds are claimed.
#[verifier::external_body]
fn injector_steal_batch(queue: &mut Injector<usize>, dest: &mut TaskQueue) -> (stolen: Stolen)
    ensures
        stolen is Empty <==> injector_tasks(*old(queue)).len() == 0,
        stolen !is Success ==> injector_tasks(*final(queue)) == injector_tasks(*old(queue))
            && worker_tasks(final(dest).queue) == worker_tasks(old(dest).queue),
        stolen is Success ==> some_moved(
                injector_tasks(*old(queue)),
                injector_tasks(*final(queue)),
                worker_tasks(old(dest).queue),
                worker_tasks(final(dest).queue),
        ),
{
    match queue.steal_batch(&dest.queue) {
        Steal::Success(_) => Stolen::Success,
        Steal::Empty => Stolen::Empty,
        Steal::Retry => Stolen::Retry,
    }
}

/// `Worker::new_fifo`: the queue is empty.
#[verifier::external_body]
fn worker_new_fifo() -> (queue: Worker<usize>)
    ensures
        worker_tasks(queue) == Seq::<usize>::empty(),
{
    Worker::new_fifo()
}

/// `Worker::is_empty`, on a queue that no stealer reaches: tells whether the
/// queue holds nothing, and leaves it as it is.
#[verifier::external_body]
fn worker_is_empty(from: &mut TaskQueue) -> (empty: bool)
    ensures
        empty == (worker_tasks(old(from).queue).len() == 0),
        worker_tasks(final(from).queue) == worker_tasks(old(from).queue),
{
    from.queue.is_empty()
}

/// `Worker::pop` on a queue that is first in, first out and that no stealer
/// reaches: takes the oldest task, or gives `None` if the queue is empty.
#[verifier::external_body]
fn worker_pop(from: &mut TaskQueue) -> (task: Option<usize>)
    ensures
        worker_tasks(old(from).queue).len() == 0 ==> task is None && worker_tasks(final(from).queue)
            == worker_tasks(old(from).queue),
        worker_tasks(old(from).queue).len() > 0 ==> task == Some(
            worker_tasks(old(from).queue).first(),
        ) && worker_tasks(final(from).queue) == worker_tasks(old(from).queue).drop_first(),
{
    from.queue.pop()
}

/// `Stealer::steal_batch` between two queues that are first in, first out and
/// that no other thread reaches: moves some of the oldest tasks behind those of
/// the other queue, or gives `Steal::Empty` if there are none. The front index
/// is moved by an exchange that fails only where another thread interferes, so
/// `Steal::Retry` is not given. The documentation leaves open how many tasks
/// move; only the bounds are claimed.
#[verifier::external_body]
fn stealer_steal_batch(from: &mut TaskQueue, dest: &mut TaskQueue) -> (stolen: Stolen)
    ensures
        stolen is Empty <==> worker_tasks(old(from).queue).len() == 0,
        stolen is Success <==> worker_tasks(old(from).queue).len() > 0,
        stolen is Empty ==> worker_tasks(final(from).queue) == worker_tasks(old(from).queue)
            && worker_tasks(final(dest).queue) == worker_tasks(old(dest).queue),
        stolen is Success ==> some_moved(
                worker_tasks(old(from).queue),
                worker_tasks(final(from).queue),
                worker_tasks(old(dest).queue),
                worker_tasks(final(dest).queue),
        ),
{
    match from.queue.stealer().steal_batch(&dest.queue) {
        Steal::Success(_) => Stolen::Success,
        Steal::Empty => Stolen::Empty,
        Steal::Retry => Stolen::Retry,
    }
}

/// `ArrayQueue::new`: the queue is empty and has room for `capacity` items. The
/// call panics on a capacity of zero and on one whose buffer is too large to be
/// allocated.
#[verifier::external_body]
fn array_new(capacity: usize) -> (queue: ArrayQueue<usize>)
    requires
        is_capacity(capacity),
    ensures
        array_items(queue) == Seq::<usize>::empty(),
        array_capacity(queue) == capacity,
{
    ArrayQueue::new(capacity)
}

/// `ArrayQueue::push`, on a queue that no other thread reaches: puts the item
/// behind those that are there, or gives it back if the queue is full.
#[verifier::external_body]
fn array_push(queue: &mut ArrayQueue<usize>, item: usize) -> (pushed: Result<(), usize>)
    ensures
        array_capacity(*final(queue)) == array_capacity(*old(queue)),
        array_items(*old(queue)).len() < array_capacity(*old(queue)) ==> pushed is Ok
            && array_items(*final(queue)) == array_items(*old(queue)).push(item),
        array_items(*old(queue)).len() >= array_capacity(*old(queue)) ==> pushed is Err
            && pushed->Err_0 == item && array_items(*final(queue)) == array_items(*old(queue)),
{
    queue.push(item).map_err(|full| full.0)
}

/// `ArrayQueue::pop`, on a queue that no other thread reaches: takes the oldest
/// item; the error that an empty queue gives becomes `None`.
#[verifier::external_body]
fn array_pop(queue: &mut ArrayQueue<usize>) -> (item: Option<usize>)
    ensures
        array_capacity(*final(queue)) == array_capacity(*old(queue)),
        array_items(*old(queue)).len() == 0 ==> item is None && array_items(*final(queue))
            == array_items(*old(queue)),
        array_items(*old(queue)).len() > 0 ==> item == Some(array_items(*old(queue)).first())
            && array_items(*final(queue)) == array_items(*old(queue)).drop_first(),
{
    queue.pop().ok()
}

/// `ArrayQueue::is_empty`, on a queue that no other thread reaches: tells
/// whether the queue holds nothing, and leaves it as it is.
#[verifier::external_body]
fn array_is_empty(queue: &mut ArrayQueue<usize>) -> (empty: bool)
    ensures
        empty == (array_items(*old(queue)).len() == 0),
        array_items(*final(queue)) == array_items(*old(queue)),
        array_capacity(*final(queue)) == array_capacity(*old(queue)),
{
    queue.is_empty()
}

/// `SegQueue::new`: the queue is empty.
#[verifier::external_body]
fn seg_new() -> (queue: SegQueue<usize>)
    ensures
        seg_items(queue) == Seq::<usize>::empty(),
{
    SegQueue::new()
}

/// `SegQueue::push`: the item goes behind those that are there.
#[verifier::external_body]
fn seg_push(queue: &mut SegQueue<usize>, item: usize)
    ensures
        seg_items(*final(queue)) == seg_items(*old(queue)).push(item),
{
    queue.push(item)
}

/// `SegQueue::pop`, on a queue that no other thread reaches: takes the oldest
/// item; the error that an empty queue gives becomes `None`.
#[verifier::external_body]
fn seg_pop(queue: &mut SegQueue<usize>) -> (item: Option<usize>)
    ensures
        seg_items(*old(queue)).len() == 0 ==> item is None && seg_items(*final(queue)) == seg_items(
            *old(queue),
        ),
        seg_items(*old(queue)).len() > 0 ==> item == Some(seg_items(*old(queue)).first())
            && seg_items(*final(queue)) == seg_items(*old(queue)).drop_first(),
{
    queue.pop().ok()
}

impl TaskInjector {
    /// Makes an injector that holds no task.
    pub fn new() -> (injector: TaskInjector)
        ensures
            injector@ == Seq::<usize>::empty(),
    {
        TaskInjector { queue: injector_new() }
    }

    /// Puts `task` behind those that are there.
    pub fn push(&mut self, task: usize)
        ensures
            final(self)@ == old(self)@.push(task),
    {
        injector_push(&mut self.queue, task)
    }

    /// Tells whether there is no task.
    pub fn is_empty(&mut self) -> (empty: bool)
        ensures
            empty == (old(self)@.len() == 0),
            final(self)@ == old(self)@,
    {
        injector_is_empty(&mut self.queue)
    }

    /// Takes the oldest task. An attempt on an injector that holds tasks may
    /// have to be made again.
    pub fn steal(&mut self) -> (stolen: (Stolen, Option<usize>))
        ensures
            stolen.0 is Empty <==> old(self)@.len() == 0,
            stolen.1 is Some <==> stolen.0 is Success,
            stolen.0 is Success ==> final(self)@ == old(self)@.drop_first() && stolen.1 == Some(
                old(self)@.first(),
            ),
            stolen.0 !is Success ==> final(self)@ == old(self)@,
    {
        injector_steal(&mut self.queue)
    }

    /// Moves some of the oldest tasks to the back of `dest`. An attempt on an
    /// injector that holds tasks may have to be made again.
    pub fn steal_batch(&mut self, dest: &mut TaskQueue) -> (stolen: Stolen)
        ensures
            stolen is Empty <==> old(self)@.len() == 0,
            stolen !is Success ==> final(self)@ == old(self)@ && final(dest)@ == old(dest)@,
            stolen is Success ==> some_moved(old(self)@, final(self)@, old(dest)@, final(dest)@),
    {
        injector_steal_batch(&mut self.queue, dest)
    }
}

impl TaskQueue {
    /// Makes a queue that holds no task.
    pub fn new_fifo() -> (queue: TaskQueue)
        ensures
            queue@ == Seq::<usize>::empty(),
    {
        TaskQueue { queue: worker_new_fifo() }
    }

    /// Tells whether there is no task.
    pub fn is_empty(&mut self) -> (empty: bool)
        ensures
            empty == (old(self)@.len() == 0),
            final(self)@ == old(self)@,
    {
        worker_is_empty(self)
    }

    /// Takes the oldest task.
    pub fn pop(&mut self) -> (task: Option<usize>)
        ensures
            old(self)@.len() == 0 ==> task is None && final(self)@ == old(self)@,
            old(self)@.len() > 0 ==> task == Some(old(self)@.first()) && final(self)@ == old(
                self,
            )@.drop_first(),
    {
        worker_pop(self)
    }

    /// Moves some of the oldest tasks to the back of `dest`.
    pub fn steal_batch(&mut self, dest: &mut TaskQueue) -> (stolen: Stolen)
        ensures
            stolen is Empty <==> old(self)@.len() == 0,
            stolen is Success <==> old(self)@.len() > 0,
            stolen is Empty ==> final(self)@ == old(self)@ && final(dest)@ == old(dest)@,
            stolen is Success ==> some_moved(old(self)@, final(self)@, old(dest)@, final(dest)@),
    {
        stealer_steal_batch(self, dest)
    }
}

impl BoundedQueue {
    /// How many items there is room for.
    pub closed spec fn capacity(&self) -> nat {
        array_capacity(self.queue)
    }

    /// Makes an empty queue with room for `capacity` items.
    pub fn new(capacity: usize) -> (queue: BoundedQueue)
        requires
            is_capacity(capacity),
        ensures
            queue@ == Seq::<usize>::empty(),
            queue.capacity() == capacity,
    {
        BoundedQueue { queue: array_new(capacity) }
    }

    /// Puts `item` behind those that are there, or gives it back if there is no
    /// room for it.
    pub fn push(&mut self, item: usize) -> (pushed: Result<(), usize>)
        ensures
            final(self).capacity() == old(self).capacity(),
            old(self)@.len() < old(self).capacity() ==> pushed is Ok && final(self)@ == old(
                self,
            )@.push(item),
            old(self)@.len() >= old(self).capacity() ==> pushed is Err && pushed->Err_0
                == item && final(self)@ == old(self)@,
    {
        array_push(&mut self.queue, item)
    }

    /// Takes the oldest item.
    pub fn pop(&mut self) -> (item: Option<usize>)
        ensures
            final(self).capacity() == old(self).capacity(),
            old(self)@.len() == 0 ==> item is None && final(self)@ == old(self)@,
            old(self)@.len() > 0 ==> item == Some(old(self)@.first()) && final(self)@ == old(
                self,
            )@.drop_first(),
    {
        array_pop(&mut self.queue)
    }

    /// Tells whether there is no item.
    pub fn is_empty(&mut self) -> (empty: bool)
        ensures
            empty == (old(self)@.len() == 0),
            final(self)@ == old(self)@,
            final(self).capacity() == old(self).capacity(),
    {
        array_is_empty(&mut self.queue)
    }
}

impl UnboundedQueue {
    /// Makes an empty queue.
    pub fn new() -> (queue: UnboundedQueue)
        ensures
            queue@ == Seq::<usize>::empty(),
    {
        UnboundedQueue { queue: seg_new() }
    }

    /// Puts `item` behind those that are there.
    pub fn push(&mut self, item: usize)
        ensures
            final(self)@ == old(self)@.push(item),
    {
        seg_push(&mut self.queue, item)
    }

    /// Takes the oldest item.
    pub fn pop(&mut self) -> (item: Option<usize>)
        ensures
            old(self)@.len() == 0 ==> item is None && final(self)@ == old(self)@,
            old(self)@.len() > 0 ==> item == Some(old(self)@.first()) && final(self)@ == old(
                self,
            )@.drop_first(),
    {
        seg_pop(&mut self.queue)
    }
}

} // verus!
