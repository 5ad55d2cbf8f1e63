//! A reference-counted pointer.
use std::ops::Deref;
use std::sync::Arc;
use vstd::prelude::*;

verus! {

/// The number of references to a value.
#[derive(Clone, Copy, Debug, PartialEq, Eq, Structural)]
pub struct Refs {
    refs: usize,
}

impl View for Refs {
    type V = nat;

    closed spec fn view(&self) -> nat {
        self.refs as nat
    }
}

impl Refs {
    /// The one reference that a new value has.
    pub fn new() -> (refs: Refs)
        ensures
            refs@ == 1,
    {
        Refs { refs: 1 }
    }

    /// Counts one more reference.
    pub fn inc_refs(&mut self)
        requires
            old(self)@ < usize::MAX,
        ensures
            final(self)@ == old(self)@ + 1,
    {
        self.refs = self.refs + 1;
    }

    /// Counts one reference less.
    pub fn dec_refs(&mut self)
        requires
            old(self)@ > 0,
        ensures
            final(self)@ == old(self)@ - 1,
    {
        self.refs = self.refs - 1;
    }

    /// How many references there are.
    pub fn count(&self) -> (count: usize)
        ensures
            count == self@,
    {
        self.refs
    }

    /// Tells whether no reference is left.
    pub fn is_zero(&self) -> (zero: bool)
        ensures
            zero == (self@ == 0),
    {
        self.refs == 0
    }
}

/// A pointer to a value that is shared, and lives as long as any pointer to it.
pub struct SmallArc<T> {
    ptr: Arc<T>,
}

impl<T> View for SmallArc<T> {
    type V = T;

    closed spec fn view(&self) -> T {
        *self.ptr
    }
}

impl<T> SmallArc<T> {
    /// Creates a pointer to a value, the only one so far.
    pub fn new(data: T) -> (arc: SmallArc<T>)
        ensures
            arc@ == data,
    {
        SmallArc { ptr: Arc::new(data) }
    }

    /// Creates one more pointer to the same value.
    pub fn clone(this: &SmallArc<T>) -> (arc: SmallArc<T>)
        ensures
            arc@ == this@,
    {
        SmallArc { ptr: this.ptr.clone() }
    }
}

impl<T> Deref for SmallArc<T> {
    type Target = T;

    fn deref(&self) -> (value: &T)
        ensures
            *value == self@,
    {
        &*self.ptr
    }
}

} // verus!
