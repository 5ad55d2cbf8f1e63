//! A stack of slots and an index into it.
use vstd::prelude::*;

verus! {

/// A stack of slots, of which those below the index are taken.
#[derive(Debug)]
pub struct AtomicStack<T> {
    pub index: usize,
    pub stack: Vec<Option<T>>,
}

} // verus!
