//! Tests of the stack with a fixed number of slots.
use std::time::Instant;
use threader::utils::rwstack::RwStack;

#[test]
fn fill() {
    let mut rwstack = RwStack::new(1);

    rwstack.push(0);

    assert_eq!(rwstack.push(1), Some(1));
}

#[test]
fn fill_then_pop_all() {
    let mut rwstack = RwStack::new(10);

    for x in 0..10 {
        assert!(
            rwstack.push(x).is_none(),
            "Pushing, should all return is_none()"
        );
    }

    for _ in 0..10 {
        assert!(
            rwstack.pop().is_some(),
            "Popping, should all return is_some()"
        );
    }

    assert_eq!(rwstack.pop(), None, "At index 0 popping returns None");
}

#[test]
fn iterator() {
    let mut rwstack = RwStack::new(10);

    for _ in 0..10 {
        rwstack.push(0);
    }

    assert_eq!(rwstack.iter().count(), 10);
}

#[test]
fn partially_full_iterator() {
    let mut rwstack = RwStack::new(10);

    for _ in 0..5 {
        rwstack.push(0);
    }

    assert_eq!(rwstack.iter().count(), 5);
}

#[test]
fn timing() {
    const ELEMENTS: usize = 2048;
    println!("Running timing test with {} elements.", ELEMENTS);

    println!("Creating RwStack of {} elements...", ELEMENTS);
    let create_start = Instant::now();
    let mut rwstack = RwStack::new(ELEMENTS);
    let create_end = create_start.elapsed();

    println!("Pushing {} elements to the stack...", ELEMENTS);
    let push_start = Instant::now();
    for x in 0..ELEMENTS {
        rwstack.push(x);
    }
    let push_end = push_start.elapsed();

    println!("Popping {} elements from the stack...", ELEMENTS);
    let pop_start = Instant::now();
    for _ in 0..ELEMENTS {
        rwstack.pop();
    }
    let pop_end = pop_start.elapsed();

    println!("Exhausting an iterator of {} elements", ELEMENTS);
    // refill the stack, this isn't counted for the final results.
    for x in 0..ELEMENTS {
        rwstack.push(x);
    }

    let iter_start = Instant::now();
    rwstack.iter().count();
    let iter_end = iter_start.elapsed();

    println!("\nResults:");
    println!(
        "Creation: {:?}\nPush: {:?}\nPop: {:?}\nIter: {:?}",
        create_end, push_end, pop_end, iter_end,
    )
}

#[test]
fn pop_undoes_push() {
    let mut stack = RwStack::new(3);
    assert_eq!(stack.push('a'), None);
    assert_eq!(stack.push('b'), None);
    assert_eq!(stack.len(), 2);
    assert_eq!(stack.push('c'), None);
    assert_eq!(stack.pop(), Some('c'));
    assert_eq!(stack.len(), 2);
    assert_eq!(stack.pop(), Some('b'));
    assert_eq!(stack.pop(), Some('a'));
    assert_eq!(stack.pop(), None);
    assert_eq!(stack.len(), 0);
}

#[test]
fn full_stack_is_left_as_it_is() {
    let mut stack = RwStack::new(2);
    stack.push(10);
    stack.push(20);
    assert_eq!(stack.push(30), Some(30));
    assert_eq!(stack.len(), 2);
    assert_eq!(stack.pop(), Some(20));
    assert_eq!(stack.push(40), None);
    assert_eq!(stack.pop(), Some(40));
    assert_eq!(stack.pop(), Some(10));
}

#[test]
fn stack_without_slots_is_always_full() {
    let mut stack = RwStack::new(0);
    assert_eq!(stack.push(7), Some(7));
    assert_eq!(stack.pop(), None);
    assert_eq!(stack.iter().count(), 0);
}

#[test]
fn iterator_starts_with_the_oldest() {
    let mut stack = RwStack::new(4);
    stack.push("first");
    stack.push("second");
    let mut iter = stack.iter();
    assert_eq!(iter.next(), Some(&"first"));
    assert_eq!(iter.next(), Some(&"second"));
    assert_eq!(iter.next(), None);
    assert_eq!(iter.next(), None);
    let mut rest = stack.iter();
    rest.next();
    assert_eq!(rest.count(), 1);
}
