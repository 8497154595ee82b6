use task_rc::{rc_mut_from_const, rc_mut_from_owned, AliasingViolation, Borrow, RcMutHeap};

#[test]
fn test_clone() {
    let mut heap = RcMutHeap::new();
    let x = rc_mut_from_owned(&mut heap, 5);
    let y = x.clone(&mut heap);
    x.with_mut_borrow(&mut heap, |h| {
        *x.get_mut(h) = 20;
    });
    y.with_borrow(&mut heap, |h| {
        assert_eq!(*y.get(h), 20);
    });
}

#[test]
fn test_deep_clone() {
    let mut heap = RcMutHeap::new();
    let x = rc_mut_from_const(&mut heap, 5);
    let y = x.deep_clone(&mut heap);
    x.with_mut_borrow(&mut heap, |h| {
        *x.get_mut(h) = 20;
    });
    y.with_borrow(&mut heap, |h| {
        assert_eq!(*y.get(h), 5);
    });
}

#[test]
fn borrow_many() {
    let mut heap = RcMutHeap::new();
    let x = rc_mut_from_owned(&mut heap, 5);
    let y = x.clone(&mut heap);

    x.with_borrow(&mut heap, |h| {
        assert_eq!(*x.get(h), 5);
        y.with_borrow(h, |h| {
            assert_eq!(*y.get(h), 5);
            x.with_borrow(h, |h| {
                assert_eq!(*x.get(h), 5);
            })
        })
    });
}

#[test]
fn modify() {
    let mut heap = RcMutHeap::new();
    let x = rc_mut_from_const(&mut heap, 5);
    let y = x.clone(&mut heap);

    y.with_mut_borrow(&mut heap, |h| {
        let a = y.get_mut(h);
        assert_eq!(*a, 5);
        *a = 6;
    });

    x.with_borrow(&mut heap, |h| {
        assert_eq!(*x.get(h), 6);
    });
}

#[test]
fn release_immutable() {
    let mut heap = RcMutHeap::new();
    let x = rc_mut_from_owned(&mut heap, 5);
    assert_eq!(x.try_with_borrow(&mut heap, |_| {}), Ok(()));
    assert_eq!(x.try_with_mut_borrow(&mut heap, |_| {}), Ok(()));
}

#[test]
fn release_mutable() {
    let mut heap = RcMutHeap::new();
    let x = rc_mut_from_const(&mut heap, 5);
    assert_eq!(x.try_with_mut_borrow(&mut heap, |_| {}), Ok(()));
    assert_eq!(x.try_with_borrow(&mut heap, |_| {}), Ok(()));
}

#[test]
fn frozen() {
    let mut heap = RcMutHeap::new();
    let x = rc_mut_from_owned(&mut heap, 5);
    let y = x.clone(&mut heap);

    x.with_borrow(&mut heap, |h| {
        let refused = y.try_with_mut_borrow(h, |_| {});
        assert_eq!(refused, Err(AliasingViolation { active: Borrow::Immutable }));
    });
}

#[test]
fn mutable_dupe() {
    let mut heap = RcMutHeap::new();
    let x = rc_mut_from_const(&mut heap, 5);
    let y = x.clone(&mut heap);

    x.with_mut_borrow(&mut heap, |h| {
        let refused = y.try_with_mut_borrow(h, |_| {});
        assert_eq!(refused, Err(AliasingViolation { active: Borrow::Mutable }));
    });
}

#[test]
fn mutable_freeze() {
    let mut heap = RcMutHeap::new();
    let x = rc_mut_from_owned(&mut heap, 5);
    let y = x.clone(&mut heap);

    x.with_mut_borrow(&mut heap, |h| {
        let refused = y.try_with_borrow(h, |_| {});
        assert_eq!(refused, Err(AliasingViolation { active: Borrow::Mutable }));
    });
}

#[test]
fn restore_freeze() {
    let mut heap = RcMutHeap::new();
    let x = rc_mut_from_const(&mut heap, 5);
    let y = x.clone(&mut heap);

    x.with_borrow(&mut heap, |h| {
        x.with_borrow(h, |_| {});
        let refused = y.try_with_mut_borrow(h, |_| {});
        assert_eq!(refused, Err(AliasingViolation { active: Borrow::Immutable }));
    });
}

#[test]
fn rc_mut_observes_value_after_construction() {
    let mut heap = RcMutHeap::new();
    let x = rc_mut_from_owned(&mut heap, String::from("payload"));
    assert_eq!(x.borrow_state(&heap), Borrow::Nothing);
    assert_eq!(x.count(&heap), 1);
    let seen = x.with_borrow(&mut heap, |h| x.get(h).clone());
    assert_eq!(seen, "payload");
}

#[test]
fn borrow_state_follows_the_scopes() {
    let mut heap = RcMutHeap::new();
    let x = rc_mut_from_const(&mut heap, 5);
    let y = x.clone(&mut heap);
    assert_eq!(x.borrow_state(&heap), Borrow::Nothing);
    x.with_borrow(&mut heap, |h| {
        assert_eq!(x.borrow_state(h), Borrow::Immutable);
        assert_eq!(y.borrow_state(h), Borrow::Immutable);
        y.with_borrow(h, |h| {
            assert_eq!(x.borrow_state(h), Borrow::Immutable);
        });
        assert_eq!(y.borrow_state(h), Borrow::Immutable);
    });
    assert_eq!(y.borrow_state(&heap), Borrow::Nothing);
    y.with_mut_borrow(&mut heap, |h| {
        assert_eq!(x.borrow_state(h), Borrow::Mutable);
    });
    assert_eq!(x.borrow_state(&heap), Borrow::Nothing);
}

#[test]
fn scopes_return_what_the_action_returns() {
    let mut heap = RcMutHeap::new();
    let x = rc_mut_from_const(&mut heap, 5u32);
    let doubled = x.with_borrow(&mut heap, |h| *x.get(h) * 2);
    assert_eq!(doubled, 10);
    let previous = x.with_mut_borrow(&mut heap, |h| {
        let value = x.get_mut(h);
        let previous = *value;
        *value += 1;
        previous
    });
    assert_eq!(previous, 5);
    assert_eq!(x.try_with_borrow(&mut heap, |h| *x.get(h)), Ok(6));
    assert_eq!(
        x.try_with_mut_borrow(&mut heap, |h| {
            *x.get_mut(h) = 9;
            true
        }),
        Ok(true)
    );
    assert_eq!(x.with_borrow(&mut heap, |h| *x.get(h)), 9);
}

#[test]
fn refused_scope_runs_nothing_and_changes_nothing() {
    let mut heap = RcMutHeap::new();
    let x = rc_mut_from_const(&mut heap, 5);
    let y = x.clone(&mut heap);
    x.with_mut_borrow(&mut heap, |h| {
        let mut ran = false;
        let refused = y.try_with_borrow(h, |_| {
            ran = true;
        });
        assert!(refused.is_err());
        assert!(!ran);
        assert_eq!(y.borrow_state(h), Borrow::Mutable);
        assert_eq!(y.count(h), 2);
        *x.get_mut(h) = 6;
    });
    assert_eq!(y.with_borrow(&mut heap, |h| *y.get(h)), 6);
}

#[test]
fn deep_clone_under_a_shared_borrow_is_independent() {
    let mut heap = RcMutHeap::new();
    let x = rc_mut_from_const(&mut heap, 5);
    let y = x.with_borrow(&mut heap, |h| x.deep_clone(h));
    assert_ne!(x.slot(), y.slot());
    assert_eq!(y.borrow_state(&heap), Borrow::Nothing);
    assert_eq!(x.borrow_state(&heap), Borrow::Nothing);
    x.with_mut_borrow(&mut heap, |h| {
        *x.get_mut(h) = 20;
    });
    assert_eq!(y.with_borrow(&mut heap, |h| *y.get(h)), 5);
    y.with_mut_borrow(&mut heap, |h| {
        *y.get_mut(h) = 30;
    });
    assert_eq!(x.with_borrow(&mut heap, |h| *x.get(h)), 20);
    assert_eq!(y.with_borrow(&mut heap, |h| *y.get(h)), 30);
}

#[test]
fn rc_mut_cell_is_freed_with_the_last_handle() {
    let mut heap = RcMutHeap::new();
    let mut x = rc_mut_from_owned(&mut heap, vec![1u8, 2]);
    let mut y = x.clone(&mut heap);
    let slot = x.slot().unwrap();
    assert_eq!(x.count(&heap), 2);
    x.release(&mut heap);
    assert!(x.is_empty());
    assert!(heap.is_allocated(slot));
    assert_eq!(y.count(&heap), 1);
    x.release(&mut heap);
    assert_eq!(y.count(&heap), 1);
    y.release(&mut heap);
    assert!(!heap.is_allocated(slot));
    assert!(y.is_empty());
}

#[test]
fn a_clone_may_be_released_inside_a_scope() {
    let mut heap = RcMutHeap::new();
    let x = rc_mut_from_const(&mut heap, 5);
    let mut y = x.clone(&mut heap);
    x.with_borrow(&mut heap, |h| {
        y.release(h);
        assert_eq!(x.count(h), 1);
        assert_eq!(*x.get(h), 5);
    });
    assert_eq!(x.borrow_state(&heap), Borrow::Nothing);
    assert!(heap.is_allocated(x.slot().unwrap()));
}

#[test]
fn rc_mut_take_moves_the_share() {
    let mut heap = RcMutHeap::new();
    let mut x = rc_mut_from_const(&mut heap, 5);
    let slot = x.slot().unwrap();
    let mut moved = x.take();
    assert!(x.is_empty());
    x.release(&mut heap);
    assert!(heap.is_allocated(slot));
    assert_eq!(moved.count(&heap), 1);
    moved.release(&mut heap);
    assert!(!heap.is_allocated(slot));
}

#[test]
fn rc_mut_new_heap_has_no_cells() {
    let heap: RcMutHeap<u8> = RcMutHeap::new();
    assert!(!heap.is_allocated(0));
}

#[test]
fn rc_mut_freed_slots_are_used_again() {
    let mut heap = RcMutHeap::new();
    let mut a = rc_mut_from_const(&mut heap, 1u32);
    let b = rc_mut_from_const(&mut heap, 2u32);
    let first = a.slot().unwrap();
    a.with_mut_borrow(&mut heap, |h| {
        *a.get_mut(h) = 10;
    });
    a.release(&mut heap);
    assert!(!heap.is_allocated(first));
    let c = rc_mut_from_const(&mut heap, 3u32);
    assert_eq!(c.slot(), Some(first));
    assert_eq!(c.borrow_state(&heap), Borrow::Nothing);
    assert_eq!(c.count(&heap), 1);
    assert_eq!(c.with_borrow(&mut heap, |h| *c.get(h)), 3);
    assert_eq!(b.with_borrow(&mut heap, |h| *b.get(h)), 2);
}
