//! A thin pointer to what a fat pointer points to.
use std::ops::{Deref, DerefMut};
use vstd::prelude::*;

verus! {

/// A type which wraps some value of type `T`. Useful for getting a thin pointer
/// to fat pointer objects.
#[derive(Clone, Debug)]
pub struct Wrapper<T>(pub T);

impl<T> Deref for Wrapper<T> {
    type Target = T;

    fn deref(&self) -> (value: &T)
        ensures
            *value == self.0,
    {
        &self.0
    }
}

impl<T> DerefMut for Wrapper<T> {
    fn deref_mut(&mut self) -> (value: &mut T)
        ensures
            *value == old(self).0,
            *final(self) == Wrapper(*final(value)),
    {
        &mut self.0
    }
}

} // verus!
