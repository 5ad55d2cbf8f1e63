//! Small building blocks.
pub mod atomic_stack;
pub mod rwstack;
pub mod small_arc;
pub mod thread_parker;
pub mod wrapper;
