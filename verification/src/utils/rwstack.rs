//! A stack with a fixed number of slots.
use vstd::prelude::*;

verus! {

/// A stack which holds at most as many elements as it was made for, each in a
/// slot of its own.
#[derive(Debug)]
pub struct RwStack<T> {
    inner: Vec<Option<T>>,
    idx: usize,
}

/// What is on a stack.
#[verifier::ext_equal]
pub struct RwStackView<T> {
    /// The elements, the one that was pushed last at the end.
    pub items: Seq<T>,
    /// How many elements there can be.
    pub capacity: nat,
}

impl<T> RwStackView<T> {
    /// The stack after an element has been pushed onto it; it is left as it is
    /// if it is full.
    pub open spec fn pushed(self, element: T) -> RwStackView<T> {
        if self.items.len() < self.capacity {
            RwStackView { items: self.items.push(element), ..self }
        } else {
            self
        }
    }

    /// The stack after an element has been popped from it; it is left as it is
    /// if it is empty.
    pub open spec fn popped(self) -> RwStackView<T> {
        if self.items.len() > 0 {
            RwStackView { items: self.items.drop_last(), ..self }
        } else {
            self
        }
    }

    /// The element that is popped next.
    pub open spec fn top(self) -> Option<T> {
        if self.items.len() > 0 {
            Some(self.items.last())
        } else {
            None
        }
    }
}

/// What is in the slots up to the first one that is empty.
pub open spec fn filled<T>(slots: Seq<Option<T>>) -> Seq<T>
    decreases slots.len(),
{
    if slots.len() > 0 && slots[0] is Some {
        seq![slots[0]->0] + filled(slots.drop_first())
    } else {
        Seq::empty()
    }
}

/// The slots below `idx` are filled with `items`, and the next one is not.
proof fn lemma_filled<T>(slots: Seq<Option<T>>, items: Seq<T>)
    requires
        items.len() <= slots.len(),
        forall|i: int| 0 <= i < items.len() ==> slots[i] == Some(items[i]),
        items.len() < slots.len() ==> slots[items.len() as int] is None,
    ensures
        filled(slots) == items,
    decreases items.len(),
{
    if items.len() > 0 {
        let rest = slots.drop_first();
        let others = items.drop_first();
        assert forall|i: int| 0 <= i < others.len() implies rest[i] == Some(others[i]) by {
            assert(rest[i] == slots[i + 1]);
            assert(others[i] == items[i + 1]);
        }
        if others.len() < rest.len() {
            assert(rest[others.len() as int] == slots[items.len() as int]);
        }
        lemma_filled(rest, others);
        assert(seq![slots[0]->0] + others =~= items);
    } else {
        assert(filled(slots) =~= items);
    }
}

impl<T> View for RwStack<T> {
    type V = RwStackView<T>;

    closed spec fn view(&self) -> RwStackView<T> {
        RwStackView {
            items: Seq::new(self.idx as nat, |i: int| self.inner@[i]->0),
            capacity: self.inner@.len(),
        }
    }
}

impl<T> RwStack<T> {
    /// The invariant of a stack: the slots below the index are filled, and the
    /// others are empty.
    pub closed spec fn wf(&self) -> bool {
        &&& self.idx <= self.inner@.len()
        &&& forall|i: int| 0 <= i < self.idx ==> (#[trigger] self.inner@[i]) is Some
        &&& forall|i: int|
            self.idx <= i < self.inner@.len() ==> (#[trigger] self.inner@[i]) is None
    }

    /// What the invariant of a stack says of what is on it.
    pub proof fn lemma_wf(&self)
        requires
            self.wf(),
        ensures
            self@.items.len() <= self@.capacity,
    {
    }

    /// Creates a new stack.
    pub fn new(cap: usize) -> (stack: RwStack<T>)
        ensures
            stack.wf(),
            stack@ == (RwStackView::<T> { items: Seq::empty(), capacity: cap as nat }),
    {
        let mut inner: Vec<Option<T>> = Vec::new();
        let mut i: usize = 0;
        while i < cap
            invariant
                i <= cap,
                inner@.len() == i,
                forall|j: int| 0 <= j < i ==> (#[trigger] inner@[j]) is None,
            decreases cap - i,
        {
            inner.push(None);
            i += 1;
        }
        RwStack { inner, idx: 0 }
    }

    /// Returns the length of the stack.
    pub fn len(&self) -> (len: usize)
        ensures
            len == self@.items.len(),
    {
        self.idx
    }

    /// Attempts to push an element onto the stack, returning it if the stack is
    /// currently full.
    pub fn push(&mut self, element: T) -> (refused: Option<T>)
        requires
            old(self).wf(),
        ensures
            final(self).wf(),
            final(self)@ == old(self)@.pushed(element),
            refused == if old(self)@.items.len() < old(self)@.capacity {
                None
            } else {
                Some(element)
            },
    {
        if self.idx == self.inner.len() {
            return Some(element);
        }
        let index = self.idx;
        self.inner.set(index, Some(element));
        self.idx = index + 1;
        assert(self@.items =~= old(self)@.items.push(element));
        None
    }

    /// Attempts to pop an element from the stack, returning `None` if the stack
    /// is currently empty.
    pub fn pop(&mut self) -> (element: Option<T>)
        requires
            old(self).wf(),
        ensures
            final(self).wf(),
            final(self)@ == old(self)@.popped(),
            element == old(self)@.top(),
    {
        if self.idx == 0 {
            return None;
        }
        self.idx = self.idx - 1;
        let index = self.idx;
        let element = self.inner[index].take();
        assert(self@.items =~= old(self)@.items.drop_last());
        element
    }

    /// Creates an iterator over the elements of the stack, from the one that
    /// was pushed first.
    pub fn iter(&self) -> (iter: Iter<'_, T>)
        requires
            self.wf(),
        ensures
            iter.remaining() == self@.items,
    {
        proof {
            lemma_filled(self.inner@, self@.items);
            assert(self.inner@.skip(0) =~= self.inner@);
        }
        Iter { inner: &self.inner, complete: false, idx: 0 }
    }
}

/// An iterator over the elements of a stack.
#[derive(Debug)]
pub struct Iter<'a, T> {
    inner: &'a Vec<Option<T>>,
    complete: bool,
    idx: usize,
}

impl<'a, T> Iter<'a, T> {
    /// What the iterator still gives.
    pub closed spec fn remaining(&self) -> Seq<T> {
        if self.complete || self.idx >= self.inner@.len() {
            Seq::empty()
        } else {
            filled(self.inner@.skip(self.idx as int))
        }
    }

    /// Gives the next element, or `None` if there is none left.
    pub fn next(&mut self) -> (item: Option<&'a T>)
        ensures
            old(self).remaining().len() > 0 ==> {
                &&& item is Some
                &&& *item->0 == old(self).remaining().first()
                &&& final(self).remaining() == old(self).remaining().drop_first()
            },
            old(self).remaining().len() == 0 ==> item is None && final(self).remaining().len() == 0,
    {
        if self.idx >= self.inner.len() || self.complete {
            return None;
        }
        let ghost slots = self.inner@.skip(self.idx as int);
        let slot: &'a Option<T> = &self.inner[self.idx];
        self.idx = self.idx + 1;
        match slot {
            Some(item) => {
                proof {
                    assert(slots.drop_first() =~= self.inner@.skip(self.idx as int));
                    if self.idx >= self.inner@.len() {
                        assert(filled(slots.drop_first()) =~= Seq::<T>::empty());
                    }
                    assert(filled(slots).drop_first() =~= filled(slots.drop_first()));
                }
                Some(item)
            },
            None => {
                self.complete = true;
                None
            },
        }
    }

    /// Counts the elements that are left.
    pub fn count(self) -> (count: usize)
        ensures
            count == self.remaining().len(),
    {
        let limit: usize = self.inner.len();
        let mut iter = self;
        let mut count: usize = 0;
        proof {
            lemma_filled_len(self.inner@.skip(self.idx as int));
        }
        loop
            invariant
                count + iter.remaining().len() == self.remaining().len(),
                self.remaining().len() <= limit,
            ensures
                count == self.remaining().len(),
            decreases iter.remaining().len(),
        {
            if iter.next().is_none() {
                break;
            }
            count += 1;
        }
        count
    }
}

/// There are no more elements than slots.
proof fn lemma_filled_len<T>(slots: Seq<Option<T>>)
    ensures
        filled(slots).len() <= slots.len(),
    decreases slots.len(),
{
    if slots.len() > 0 && slots[0] is Some {
        lemma_filled_len(slots.drop_first());
    }
}

/// What is pushed onto a stack that is not full is popped next, and the stack
/// is then as it was.
pub proof fn law_pop_undoes_push<T>(stack: RwStackView<T>, element: T)
    requires
        stack.items.len() < stack.capacity,
    ensures
        stack.pushed(element).top() == Some(element),
        stack.pushed(element).popped() == stack,
{
    assert(stack.pushed(element).popped() =~= stack);
}

/// A stack never holds more than it was made for.
pub proof fn law_capacity_is_kept<T>(stack: RwStackView<T>, element: T)
    requires
        stack.items.len() <= stack.capacity,
    ensures
        stack.pushed(element).items.len() <= stack.pushed(element).capacity,
        stack.pushed(element).capacity == stack.capacity,
        stack.popped().items.len() <= stack.popped().capacity,
        stack.popped().capacity == stack.capacity,
{
}

/// What is pushed onto a stack that is not full lies on top of what was there; a
/// full stack is left as it is.
pub proof fn law_push_goes_on_top<T>(stack: RwStackView<T>, element: T)
    ensures
        stack.pushed(element).capacity == stack.capacity,
        stack.items.len() < stack.capacity ==> {
            &&& stack.pushed(element).items.len() == stack.items.len() + 1
            &&& stack.pushed(element).items.last() == element
            &&& stack.pushed(element).items.drop_last() == stack.items
        },
        stack.items.len() >= stack.capacity ==> stack.pushed(element) == stack,
{
    assert(stack.pushed(element).items.len() > stack.items.len() ==> stack.pushed(
        element,
    ).items.drop_last() =~= stack.items);
}

/// What is popped is what lies on top, and what lies below it stays; an empty
/// stack gives nothing and is left as it is.
pub proof fn law_pop_takes_the_top<T>(stack: RwStackView<T>)
    ensures
        stack.popped().capacity == stack.capacity,
        stack.top() is None <==> stack.items.len() == 0,
        stack.items.len() == 0 ==> stack.popped() == stack,
        stack.top() matches Some(top) ==> stack.popped().items.push(top) == stack.items,
{
    if stack.items.len() > 0 {
        assert(stack.popped().items.push(stack.items.last()) =~= stack.items);
    }
}

} // verus!
