//! A first-in first-out queue of at most `N` elements: the back-insertion,
//! front-removal part of `ArrayQueue`, with elements pushed by cloning.
use vstd::prelude::*;

use crate::array_queue::{ArrayQueue, ArrayQueueIterator, ArrayQueueMutIterator};
use crate::error::CapacityError;
use crate::model::{after, removed, QueueOp};

verus! {

/// A first-in first-out queue that holds at most `N` elements, without
/// allocating.
#[derive(Clone, Debug)]
pub struct ArrayVec<T, const N: usize> {
    queue: ArrayQueue<T, N>,
}

impl<T, const N: usize> View for ArrayVec<T, N> {
    type V = Seq<T>;

    /// The elements, oldest first.
    closed spec fn view(&self) -> Seq<T> {
        self.queue@
    }
}

impl<T, const N: usize> ArrayVec<T, N> {
    /// The queue is well formed.
    pub closed spec fn wf(&self) -> bool {
        self.queue.wf()
    }

    /// Creates an empty queue.
    pub fn new() -> (r: Self)
        ensures
            r.wf(),
            r@ == Seq::<T>::empty(),
    {
        ArrayVec { queue: ArrayQueue::new() }
    }

    /// Appends a clone of `x` at the back, or reports `CapacityError` when
    /// the queue is full, leaving it untouched.
    pub fn push(&mut self, x: &T) -> (r: Result<(), CapacityError>)
        where
            T: Clone,
        requires
            old(self).wf(),
        ensures
            final(self).wf(),
            r is Ok <==> old(self)@.len() < N,
            r is Ok ==> final(self)@.len() == old(self)@.len() + 1 && final(self)@.drop_last()
                == old(self)@ && cloned(*x, final(self)@.last()),
            r is Err ==> *final(self) == *old(self),
    {
        if self.is_full() {
            return Err(CapacityError);
        }
        self.queue.push_back(x.clone())
    }

    /// Removes and returns the oldest element, or returns `None` when the
    /// queue is empty.
    pub fn pop_front(&mut self) -> (r: Option<T>)
        requires
            old(self).wf(),
        ensures
            final(self).wf(),
            final(self)@ == after(old(self)@, N as nat, QueueOp::PopFront),
            r == removed(old(self)@, N as nat, QueueOp::PopFront),
            r is Some <==> old(self)@.len() > 0,
            r is Some ==> r == Some(old(self)@[0]) && final(self)@ == old(self)@.drop_first(),
            r is None ==> *final(self) == *old(self),
    {
        self.queue.pop_front()
    }

    /// The number of elements in the queue.
    pub fn len(&self) -> (r: usize)
        ensures
            r == self@.len(),
    {
        self.queue.len()
    }

    /// Whether the queue holds no element.
    pub fn is_empty(&self) -> (r: bool)
        ensures
            r == (self@.len() == 0),
    {
        self.len() == 0
    }

    /// Whether the queue holds `N` elements, so that a push would be refused.
    pub fn is_full(&self) -> (r: bool)
        ensures
            r == (self@.len() == N),
    {
        self.len() == N
    }

    /// A traversal of the elements, oldest first.
    pub fn iter(&self) -> (r: ArrayVecIterator<'_, T, N>)
        requires
            self.wf(),
        ensures
            r.wf(),
            r@ == self@,
    {
        ArrayVecIterator { inner: self.queue.iter() }
    }

    /// A traversal that hands out each element once, oldest first, for
    /// modification in place.
    pub fn iter_mut(&mut self) -> (r: ArrayVecMutIterator<'_, T, N>)
        requires
            old(self).wf(),
        ensures
            r.wf(),
            r.elements() == old(self)@,
            r.position() == 0,
    {
        ArrayVecMutIterator { inner: self.queue.iter_mut() }
    }
}

impl<T, const N: usize> Default for ArrayVec<T, N> {
    /// An empty queue.
    fn default() -> (r: Self)
        ensures
            r.wf(),
            r@ == Seq::<T>::empty(),
    {
        Self::new()
    }
}

/// A traversal of the elements of an `ArrayVec`, oldest first.
#[derive(Debug)]
pub struct ArrayVecIterator<'a, T, const N: usize> {
    inner: ArrayQueueIterator<'a, T, N>,
}

impl<'a, T, const N: usize> View for ArrayVecIterator<'a, T, N> {
    type V = Seq<T>;

    /// The elements not yet handed out, oldest first.
    closed spec fn view(&self) -> Seq<T> {
        self.inner@
    }
}

impl<'a, T, const N: usize> ArrayVecIterator<'a, T, N> {
    /// The traversal is well formed.
    pub closed spec fn wf(&self) -> bool {
        self.inner.wf()
    }

    /// Hands out the oldest element not yet handed out.
    pub fn next(&mut self) -> (r: Option<&'a T>)
        requires
            old(self).wf(),
        ensures
            final(self).wf(),
            r is Some <==> old(self)@.len() > 0,
            r is Some ==> r == Some(&old(self)@[0]) && final(self)@ == old(self)@.drop_first(),
            r is None ==> final(self)@ == old(self)@,
    {
        self.inner.next()
    }
}

/// A traversal of the elements of an `ArrayVec`, oldest first, that hands
/// out each element once for modification in place.
#[derive(Debug)]
pub struct ArrayVecMutIterator<'a, T, const N: usize> {
    inner: ArrayQueueMutIterator<'a, T, N>,
}

impl<'a, T, const N: usize> ArrayVecMutIterator<'a, T, N> {
    /// The elements of the queue being traversed, as they stand now.
    pub closed spec fn elements(&self) -> Seq<T> {
        self.inner.elements()
    }

    /// How many elements have been handed out.
    pub closed spec fn position(&self) -> nat {
        self.inner.position()
    }

    /// The traversal is well formed.
    pub closed spec fn wf(&self) -> bool {
        self.inner.wf()
    }

    /// Hands out the next element, oldest first.
    pub fn next(&mut self) -> (r: Option<&mut T>)
        requires
            old(self).wf(),
        ensures
            r is Some <==> old(self).position() < old(self).elements().len(),
            r is None ==> *final(self) == *old(self),
            r matches Some(e) ==> *e == old(self).elements()[old(self).position() as int]
                && final(self).wf() && final(self).position() == old(self).position() + 1
                && final(self).elements() == old(self).elements().update(
                old(self).position() as int,
                *final(e),
            ),
    {
        self.inner.next()
    }
}

} // verus!
