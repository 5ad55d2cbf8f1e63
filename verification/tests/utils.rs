//! Tests of the small building blocks.
use std::ops::{Deref, DerefMut};
use threader::utils::atomic_stack::AtomicStack;
use threader::utils::small_arc::{Refs, SmallArc};
use threader::utils::thread_parker::Inner;
use threader::utils::wrapper::Wrapper;

#[test]
fn new() {
    SmallArc::new(5);
}

#[test]
fn clones_point_to_the_same_value() {
    let first = SmallArc::new(String::from("shared"));
    let second = SmallArc::clone(&first);
    assert_eq!(first.deref(), "shared");
    assert!(std::ptr::eq(first.deref(), second.deref()));
    drop(first);
    assert_eq!(second.len(), 6);
}

#[test]
fn references_are_counted() {
    let mut refs = Refs::new();
    assert!(!refs.is_zero());
    refs.inc_refs();
    assert_eq!(refs.count(), 2);
    refs.dec_refs();
    assert!(!refs.is_zero());
    refs.dec_refs();
    assert!(refs.is_zero());
}

#[test]
fn wrapper_leads_to_its_value() {
    let mut wrapper = Wrapper(vec![1, 2]);
    assert_eq!(wrapper.deref(), &vec![1, 2]);
    wrapper.deref_mut().push(3);
    assert_eq!(wrapper.len(), 3);
    assert_eq!(wrapper.clone().0, vec![1, 2, 3]);
}

#[test]
fn atomic_stack_holds_slots() {
    let stack = AtomicStack {
        index: 1,
        stack: vec![Some(4), None],
    };
    assert_eq!(stack.stack[stack.index - 1], Some(4));
    assert_eq!(stack.stack[stack.index], None);
}

#[test]
fn notification_before_parking_is_kept() {
    let mut inner = Inner::new();
    assert!(inner.park());
    inner.unpark();
    assert!(!inner.park());
}

#[test]
fn parking_uses_the_notification_up() {
    let mut inner = Inner::new();
    inner.unpark();
    inner.unpark();
    assert!(!inner.park());
    inner.parked();
    assert!(inner.park());
    inner.parked();
    assert!(inner.park());
}
