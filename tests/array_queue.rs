use std::cell::Cell;
use std::rc::Rc;

use array_queue::{ArrayQueue, CapacityError};

#[test]
fn array_queue_new() {
    ArrayQueue::<usize, 1>::new();
    ArrayQueue::<usize, 2>::new();
}

#[test]
fn first_and_last() {
    let mut a: ArrayQueue<usize, 2> = ArrayQueue::new();

    assert_eq!(a.first(), None);
    assert_eq!(a.first_mut(), None);
    assert_eq!(a.last(), None);
    assert_eq!(a.last_mut(), None);

    assert!(a.push_back(1).is_ok());

    assert_eq!(a.first(), Some(&1));
    assert_eq!(a.first_mut(), Some(&mut 1));
    assert_eq!(a.last(), Some(&1));
    assert_eq!(a.last_mut(), Some(&mut 1));

    assert!(a.push_back(2).is_ok());

    assert_eq!(a.first(), Some(&1));
    assert_eq!(a.first_mut(), Some(&mut 1));
    assert_eq!(a.last(), Some(&2));
    assert_eq!(a.last_mut(), Some(&mut 2));
}

#[test]
fn push_back() {
    let mut a: ArrayQueue<usize, 1> = ArrayQueue::new();

    assert_eq!(a.len(), 0);
    assert!(a.push_back(42).is_ok());
    assert_eq!(a.len(), 1);
    assert_eq!(a.push_back(42), Err(CapacityError));
    assert_eq!(a.len(), 1);

    let mut a: ArrayQueue<usize, 2> = ArrayQueue::new();

    assert_eq!(a.len(), 0);
    assert!(a.push_back(42).is_ok());
    assert_eq!(a.len(), 1);
    assert!(a.push_back(42).is_ok());
    assert_eq!(a.len(), 2);
    assert_eq!(a.push_back(42), Err(CapacityError));
    assert_eq!(a.len(), 2);
}

#[test]
fn push_front() {
    let mut a: ArrayQueue<usize, 1> = ArrayQueue::new();

    assert_eq!(a.len(), 0);
    assert!(a.push_front(42).is_ok());
    assert_eq!(a.len(), 1);
    assert_eq!(a.push_front(42), Err(CapacityError));
    assert_eq!(a.len(), 1);

    let mut a: ArrayQueue<usize, 2> = ArrayQueue::new();

    assert_eq!(a.len(), 0);
    assert!(a.push_front(1).is_ok());
    assert_eq!(a.first(), Some(&1));
    assert_eq!(a.last(), Some(&1));
    assert_eq!(a.len(), 1);
    assert!(a.push_front(2).is_ok());
    assert_eq!(a.first(), Some(&2));
    assert_eq!(a.last(), Some(&1));
    assert_eq!(a.len(), 2);
    assert_eq!(a.push_front(3), Err(CapacityError));
    assert_eq!(a.len(), 2);
}

#[test]
fn pop_back() {
    let mut a: ArrayQueue<usize, 1> = ArrayQueue::new();

    assert!(a.push_back(42).is_ok());

    assert_eq!(a.pop_back(), Some(42));
    assert_eq!(a.len(), 0);

    let mut a: ArrayQueue<usize, 2> = ArrayQueue::new();

    assert!(a.push_back(123).is_ok());
    assert!(a.push_back(42).is_ok());

    assert_eq!(a.pop_back(), Some(42));
    assert_eq!(a.first(), Some(&123));
    assert_eq!(a.last(), Some(&123));
    assert_eq!(a.len(), 1);
    assert_eq!(a.pop_back(), Some(123));
    assert_eq!(a.len(), 0);
}

#[test]
fn array_queue_pop_front() {
    let mut a: ArrayQueue<usize, 1> = ArrayQueue::new();

    assert!(a.push_back(42).is_ok());

    assert_eq!(a.pop_front(), Some(42));
    assert_eq!(a.len(), 0);

    let mut a: ArrayQueue<usize, 2> = ArrayQueue::new();

    assert!(a.push_back(123).is_ok());
    assert!(a.push_back(42).is_ok());

    assert_eq!(a.pop_front(), Some(123));
    assert_eq!(a.first(), Some(&42));
    assert_eq!(a.last(), Some(&42));
    assert_eq!(a.len(), 1);
    assert_eq!(a.pop_front(), Some(42));
    assert_eq!(a.len(), 0);
}

#[test]
fn push_and_pop_across_edges() {
    let mut a: ArrayQueue<usize, 2> = ArrayQueue::new();

    assert!(a.push_back(1).is_ok());
    assert!(a.push_back(2).is_ok());

    for i in 3..64 {
        assert_eq!(a.pop_front(), Some(i - 2));
        assert_eq!(a.len(), 1);
        assert!(a.push_back(i).is_ok());
        assert_eq!(a.len(), 2);
    }
}

#[test]
fn array_queue_is_empty() {
    let a: ArrayQueue<usize, 1> = ArrayQueue::new();
    assert!(a.is_empty());

    let a: ArrayQueue<usize, 2> = ArrayQueue::new();
    assert!(a.is_empty());
}

#[test]
fn array_queue_is_full() {
    let mut a: ArrayQueue<usize, 1> = ArrayQueue::new();
    assert!(a.push_back(0).is_ok());
    assert!(a.is_full());

    let mut a: ArrayQueue<usize, 2> = ArrayQueue::new();
    assert!(a.push_back(0).is_ok());
    assert!(a.push_back(0).is_ok());
    assert!(a.is_full());
}

#[test]
fn array_queue_iterator() {
    let mut a: ArrayQueue<usize, 2> = ArrayQueue::new();

    assert!(a.push_back(0).is_ok());
    assert!(a.push_back(1).is_ok());

    let mut it = a.iter();
    let mut i = 0;
    while let Some(e) = it.next() {
        assert_eq!(*e, i);
        i += 1;
    }
    assert_eq!(i, 2);
}

#[test]
fn array_queue_iterator_across_edges() {
    let mut a: ArrayQueue<usize, 2> = ArrayQueue::new();

    assert!(a.push_back(42).is_ok());
    a.pop_front();
    assert!(a.push_back(0).is_ok());
    assert!(a.push_back(1).is_ok());

    let mut it = a.iter();
    let mut i = 0;
    while let Some(e) = it.next() {
        assert_eq!(*e, i);
        i += 1;
    }
    assert_eq!(i, 2);
}

#[test]
fn iterate_forward_and_backward() {
    let mut a: ArrayQueue<usize, 2> = ArrayQueue::new();

    assert!(a.push_back(0).is_ok());
    assert!(a.push_back(1).is_ok());

    let mut i = a.iter();

    assert_eq!(i.next(), Some(&0));
    assert_eq!(i.next_back(), Some(&1));
    assert_eq!(i.next(), None);
    assert_eq!(i.next_back(), None);
}

#[test]
fn array_queue_iterator_mut() {
    let mut a: ArrayQueue<usize, 2> = ArrayQueue::new();

    assert!(a.push_back(0).is_ok());
    assert!(a.push_back(1).is_ok());

    let mut it = a.iter_mut();
    let mut i = 0;
    while let Some(e) = it.next() {
        assert_eq!(*e, i);
        *e = 42;
        i += 1;
    }
    assert_eq!(i, 2);
    assert_eq!(a.first(), Some(&42));
    assert_eq!(a.last(), Some(&42));
}

#[test]
fn reference_elements() {
    let mut a: ArrayQueue<Box<usize>, 2> = ArrayQueue::new();
    assert!(a.push_back(Box::new(42)).is_ok());
    assert!(a.push_front(Box::new(42)).is_ok());
}

#[test]
fn clone() {
    let mut a: ArrayQueue<Box<usize>, 32> = ArrayQueue::new();

    for _ in 0..32 {
        assert!(a.push_back(Box::new(42)).is_ok());
    }

    let b = a.clone();
    assert_eq!(b.len(), 32);
    assert_eq!(b.first(), Some(&Box::new(42)));
}

/// Counts its own drops in a shared cell.
#[derive(Clone)]
struct Counted(Rc<Cell<usize>>);

impl Drop for Counted {
    fn drop(&mut self) {
        self.0.set(self.0.get() + 1);
    }
}

#[test]
fn no_drops_of_elements_on_push_back() {
    let drops = Rc::new(Cell::new(0));
    assert_eq!(drops.get(), 0);

    let mut a: ArrayQueue<Counted, 32> = ArrayQueue::new();

    for _ in 0..32 {
        let x = Counted(drops.clone());
        assert!(a.push_back(x.clone()).is_ok());
        drop(x);
    }

    assert_eq!(drops.get(), 32); // drops of the pushed values' originals

    drop(a);

    assert_eq!(drops.get(), 64); // drops of elements
}

#[test]
fn drops_of_elements_on_pop_back() {
    let drops = Rc::new(Cell::new(0));
    assert_eq!(drops.get(), 0);

    let mut a: ArrayQueue<Counted, 32> = ArrayQueue::new();

    for _ in 0..32 {
        let x = Counted(drops.clone());
        assert!(a.push_back(x.clone()).is_ok());
        drop(x);
    }

    assert_eq!(drops.get(), 32); // drops of the pushed values' originals

    for _ in 0..32 {
        assert!(a.pop_back().is_some());
    }

    assert_eq!(drops.get(), 64); // drops of elements

    drop(a);

    assert_eq!(drops.get(), 64);
}

#[test]
fn drops_exactly_live_elements_after_wraparound() {
    let drops = Rc::new(Cell::new(0));
    let mut a: ArrayQueue<Counted, 3> = ArrayQueue::new();
    for _ in 0..3 {
        assert!(a.push_back(Counted(drops.clone())).is_ok());
    }
    for _ in 0..10 {
        drop(a.pop_front());
        assert!(a.push_back(Counted(drops.clone())).is_ok());
    }
    assert_eq!(drops.get(), 10);
    assert!(a.push_front(Counted(drops.clone())).is_err());
    assert_eq!(drops.get(), 11); // the refused value is dropped at once
    drop(a);
    assert_eq!(drops.get(), 14);
}

#[test]
fn len_counts_successful_pushes_minus_pops() {
    let mut a: ArrayQueue<u32, 3> = ArrayQueue::new();
    let mut expected = 0;
    for i in 0..20u32 {
        let ok = match i % 4 {
            0 => a.push_back(i).is_ok(),
            1 => a.push_front(i).is_ok(),
            2 => a.pop_back().is_some(),
            _ => a.push_back(i).is_ok(),
        };
        if ok {
            expected = if i % 4 == 2 { expected - 1 } else { expected + 1 };
        }
        assert_eq!(a.len(), expected);
    }
}

#[test]
fn full_push_changes_nothing() {
    let mut a: ArrayQueue<u32, 2> = ArrayQueue::new();
    assert!(a.push_back(5).is_ok());
    assert!(a.push_front(4).is_ok());
    assert_eq!(a.push_back(6), Err(CapacityError));
    assert_eq!(a.push_front(3), Err(CapacityError));
    assert_eq!(a.len(), 2);
    assert_eq!(a.first(), Some(&4));
    assert_eq!(a.last(), Some(&5));
}

#[test]
fn push_then_pop_same_end_is_identity() {
    let mut a: ArrayQueue<u32, 4> = ArrayQueue::new();
    assert!(a.push_back(1).is_ok());
    assert!(a.push_back(2).is_ok());
    assert!(a.push_back(9).is_ok());
    assert_eq!(a.pop_back(), Some(9));
    assert_eq!(a.len(), 2);
    assert!(a.push_front(8).is_ok());
    assert_eq!(a.pop_front(), Some(8));
    assert_eq!(a.len(), 2);
    assert_eq!(a.first(), Some(&1));
    assert_eq!(a.last(), Some(&2));
}

#[test]
fn iterate_after_one_wraparound() {
    let mut a: ArrayQueue<u32, 2> = ArrayQueue::new();
    assert!(a.push_back(0).is_ok());
    assert!(a.push_back(1).is_ok());
    assert_eq!(a.pop_front(), Some(0));
    assert!(a.push_back(2).is_ok());
    assert_eq!(a.pop_front(), Some(1));
    assert_eq!(a.pop_front(), Some(2));
    assert!(a.push_back(1).is_ok());
    assert!(a.push_back(2).is_ok());
    let mut it = a.iter();
    assert_eq!(it.next(), Some(&1));
    assert_eq!(it.next(), Some(&2));
    assert_eq!(it.next(), None);
    let mut it = a.iter();
    assert_eq!(it.next_back(), Some(&2));
    assert_eq!(it.next_back(), Some(&1));
    assert_eq!(it.next_back(), None);
}

#[test]
fn two_slot_scenario_reuses_vacated_slot() {
    let mut a: ArrayQueue<u32, 2> = ArrayQueue::new();
    assert!(a.push_back(1).is_ok());
    assert!(a.push_back(2).is_ok());
    assert_eq!(a.first(), Some(&1));
    assert_eq!(a.last(), Some(&2));
    assert_eq!(a.pop_front(), Some(1));
    assert_eq!(a.first(), Some(&2));
    assert!(a.push_back(3).is_ok());
    assert_eq!(a.last(), Some(&3));
    assert_eq!(a.first(), Some(&2));
    assert_eq!(a.len(), 2);
}

#[test]
fn push_front_wraps_below_slot_zero() {
    let mut a: ArrayQueue<u32, 3> = ArrayQueue::new();
    assert!(a.push_front(3).is_ok());
    assert!(a.push_front(2).is_ok());
    assert!(a.push_back(4).is_ok());
    assert_eq!(a.pop_front(), Some(2));
    assert!(a.push_front(1).is_ok());
    assert_eq!(a.pop_back(), Some(4));
    assert_eq!(a.pop_back(), Some(3));
    assert_eq!(a.pop_back(), Some(1));
    assert_eq!(a.pop_back(), None);
}

#[test]
fn capacity_zero_refuses_everything() {
    let mut a: ArrayQueue<u32, 0> = ArrayQueue::new();
    assert!(a.is_empty());
    assert!(a.is_full());
    assert_eq!(a.push_back(1), Err(CapacityError));
    assert_eq!(a.push_front(1), Err(CapacityError));
    assert_eq!(a.pop_back(), None);
    assert_eq!(a.pop_front(), None);
    assert_eq!(a.first(), None);
    assert_eq!(a.last_mut(), None);
}

#[test]
fn empty_iterators_yield_nothing() {
    let mut a: ArrayQueue<u32, 2> = ArrayQueue::default();
    let mut it = a.iter();
    assert_eq!(it.next(), None);
    assert_eq!(it.next_back(), None);
    let mut m = a.iter_mut();
    assert!(m.next().is_none());
}

#[test]
fn mutable_access_at_both_ends() {
    let mut a: ArrayQueue<u32, 3> = ArrayQueue::new();
    assert!(a.push_back(1).is_ok());
    assert!(a.push_back(2).is_ok());
    assert!(a.push_back(3).is_ok());
    if let Some(x) = a.first_mut() {
        *x = 10;
    }
    if let Some(x) = a.last_mut() {
        *x = 30;
    }
    assert_eq!(a.pop_front(), Some(10));
    assert_eq!(a.pop_front(), Some(2));
    assert_eq!(a.pop_front(), Some(30));
}

#[test]
fn capacity_error_description() {
    assert_eq!(CapacityError.description(), "queue is full");
}
