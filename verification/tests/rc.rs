use std::cell::Cell;
use task_rc::{rc_from_const, rc_from_owned, RcHeap};

#[test]
fn rc_test_clone() {
    let mut heap = RcHeap::new();
    let x = rc_from_owned(&mut heap, Cell::new(5));
    let y = x.clone(&mut heap);
    x.borrow(&heap).set(20);
    assert_eq!(y.borrow(&heap).take(), 20);
}

#[test]
fn rc_test_deep_clone() {
    let mut heap = RcHeap::new();
    let x = rc_from_owned(&mut heap, Cell::new(5));
    let y = x.deep_clone(&mut heap);
    x.borrow(&heap).set(20);
    assert_eq!(y.borrow(&heap).take(), 5);
}

#[test]
fn test_simple() {
    let mut heap = RcHeap::new();
    let x = rc_from_const(&mut heap, 5);
    assert_eq!(*x.borrow(&heap), 5);
}

#[test]
fn test_simple_clone() {
    let mut heap = RcHeap::new();
    let x = rc_from_const(&mut heap, 5);
    let y = x.clone(&mut heap);
    assert_eq!(*x.borrow(&heap), 5);
    assert_eq!(*y.borrow(&heap), 5);
}

#[test]
fn test_destructor() {
    let mut heap = RcHeap::new();
    let mut x = rc_from_owned(&mut heap, Box::new(5));
    assert_eq!(**x.borrow(&heap), 5);
    let slot = x.slot().unwrap();
    x.release(&mut heap);
    assert!(!heap.is_allocated(slot));
}

#[test]
fn rc_observes_value_after_construction() {
    let mut heap = RcHeap::new();
    let a = rc_from_owned(&mut heap, String::from("first"));
    let b = rc_from_const(&mut heap, String::from("second"));
    assert_eq!(a.borrow(&heap), "first");
    assert_eq!(b.borrow(&heap), "second");
    assert_eq!(a.count(&heap), 1);
    assert_eq!(b.count(&heap), 1);
    assert_ne!(a.slot(), b.slot());
}

#[test]
fn rc_clone_counts_and_shares_the_cell() {
    let mut heap = RcHeap::new();
    let x = rc_from_const(&mut heap, 7u64);
    assert_eq!(x.count(&heap), 1);
    let y = x.clone(&mut heap);
    assert_eq!(x.count(&heap), 2);
    assert_eq!(y.count(&heap), 2);
    assert_eq!(x.slot(), y.slot());
    let z = y.clone(&mut heap);
    assert_eq!(z.count(&heap), 3);
    assert_eq!(*z.borrow(&heap), 7);
}

#[test]
fn rc_cell_is_freed_with_the_last_handle() {
    let mut heap = RcHeap::new();
    let mut x = rc_from_const(&mut heap, 7u64);
    let mut y = x.clone(&mut heap);
    let mut z = x.clone(&mut heap);
    let slot = x.slot().unwrap();
    assert!(heap.is_allocated(slot));
    x.release(&mut heap);
    assert!(heap.is_allocated(slot));
    assert_eq!(y.count(&heap), 2);
    z.release(&mut heap);
    assert!(heap.is_allocated(slot));
    assert_eq!(y.count(&heap), 1);
    assert_eq!(*y.borrow(&heap), 7);
    y.release(&mut heap);
    assert!(!heap.is_allocated(slot));
}

#[test]
fn rc_release_empties_the_handle_and_is_a_no_op_afterwards() {
    let mut heap = RcHeap::new();
    let mut x = rc_from_const(&mut heap, 1u8);
    let y = x.clone(&mut heap);
    assert!(!x.is_empty());
    x.release(&mut heap);
    assert!(x.is_empty());
    assert_eq!(x.slot(), None);
    assert_eq!(y.count(&heap), 1);
    x.release(&mut heap);
    x.release(&mut heap);
    assert_eq!(y.count(&heap), 1);
    assert_eq!(*y.borrow(&heap), 1);
}

#[test]
fn rc_take_moves_the_share() {
    let mut heap = RcHeap::new();
    let mut x = rc_from_const(&mut heap, 9i64);
    let slot = x.slot().unwrap();
    let mut moved = x.take();
    assert!(x.is_empty());
    assert_eq!(moved.slot(), Some(slot));
    assert_eq!(moved.count(&heap), 1);
    x.release(&mut heap);
    assert!(heap.is_allocated(slot));
    assert_eq!(*moved.borrow(&heap), 9);
    moved.release(&mut heap);
    assert!(!heap.is_allocated(slot));
}

#[test]
fn rc_deep_clone_makes_a_cell_of_its_own() {
    let mut heap = RcHeap::new();
    let mut x = rc_from_owned(&mut heap, vec![1, 2, 3]);
    let y = x.deep_clone(&mut heap);
    assert_ne!(x.slot(), y.slot());
    assert_eq!(x.count(&heap), 1);
    assert_eq!(y.count(&heap), 1);
    x.release(&mut heap);
    assert!(heap.is_allocated(y.slot().unwrap()));
    assert_eq!(*y.borrow(&heap), vec![1, 2, 3]);
}

#[test]
fn rc_new_heap_has_no_cells() {
    let heap: RcHeap<u8> = RcHeap::new();
    assert!(!heap.is_allocated(0));
    assert!(!heap.is_allocated(usize::MAX));
}

#[test]
fn rc_of_a_frozen_payload_is_a_frozen_payload() {
    let mut inner = RcHeap::new();
    let mut outer = RcHeap::new();
    let a = rc_from_const(&mut inner, 5u8);
    let b = rc_from_const(&mut outer, a);
    assert_eq!(*b.borrow(&outer).borrow(&inner), 5);
}

#[test]
fn rc_freed_slots_are_used_again() {
    let mut heap = RcHeap::new();
    let mut a = rc_from_const(&mut heap, 1u32);
    let b = rc_from_const(&mut heap, 2u32);
    let mut c = rc_from_const(&mut heap, 3u32);
    let first = a.slot().unwrap();
    let third = c.slot().unwrap();
    a.release(&mut heap);
    c.release(&mut heap);
    assert!(!heap.is_allocated(first));
    assert!(!heap.is_allocated(third));
    let d = rc_from_const(&mut heap, 4u32);
    let e = rc_from_const(&mut heap, 5u32);
    let f = rc_from_const(&mut heap, 6u32);
    let mut slots = vec![d.slot().unwrap(), e.slot().unwrap(), f.slot().unwrap()];
    slots.sort();
    assert!(slots.contains(&first));
    assert!(slots.contains(&third));
    assert!(!slots.contains(&b.slot().unwrap()));
    assert_eq!(slots.len(), 3);
    assert_ne!(slots[0], slots[1]);
    assert_ne!(slots[1], slots[2]);
    assert_eq!(*b.borrow(&heap), 2);
    assert_eq!(*d.borrow(&heap), 4);
    assert_eq!(*e.borrow(&heap), 5);
    assert_eq!(*f.borrow(&heap), 6);
    assert_eq!(d.count(&heap), 1);
}
