//! A double-ended queue of at most `N` elements held in an inline array.
//!
//! Slot `j` of the array is occupied exactly when it lies in the circular
//! window of `length` slots that begins at `start`; every other slot is
//! vacant. Pushing fills one vacant slot at an end of the window and popping
//! empties one occupied slot, so no element is ever stored twice or dropped
//! twice, however often the window wraps around the end of the array.
use vstd::arithmetic::div_mod::{lemma_fundamental_div_mod_converse, lemma_small_mod};
use vstd::prelude::*;

use crate::error::CapacityError;
use crate::model::{after, removed, QueueOp};

verus! {

/// `x` reduced into `[0, m)`, for `0 <= x < 2 * m`.
spec fn wrap(x: int, m: int) -> int {
    if x < m {
        x
    } else {
        x - m
    }
}

proof fn lemma_wrap_is_mod(x: int, m: int)
    requires
        0 <= x < 2 * m,
    ensures
        wrap(x, m) == x % m,
{
    if x < m {
        lemma_small_mod(x as nat, m as nat);
    } else {
        lemma_fundamental_div_mod_converse(x, m, 1, x - m);
    }
}

/// The content of every slot of a new queue.
fn vacant_slot<T>(_i: usize) -> (r: Option<T>)
    ensures
        r is None,
{
    None
}

/// Relies on core::array::from_fn: element `i` of the array it builds is
/// what the callback returns for `i`, here always `None`.
#[verifier::external_body]
fn vacant_slots<T, const N: usize>() -> (r: [Option<T>; N])
    ensures
        forall|i: int| 0 <= i < N ==> r@[i] is None,
{
    core::array::from_fn(vacant_slot)
}

/// A double-ended queue that holds at most `N` elements, without allocating.
///
/// A clone copies the occupied slots one by one; vacant slots stay vacant.
#[derive(Clone, Debug)]
pub struct ArrayQueue<T, const N: usize> {
    slots: [Option<T>; N],
    start: usize,
    length: usize,
}

impl<T, const N: usize> View for ArrayQueue<T, N> {
    type V = Seq<T>;

    /// The elements of the queue, front first.
    closed spec fn view(&self) -> Seq<T> {
        Seq::new(self.length as nat, |i: int| self.slots@[self.slot(i)]->0)
    }
}

impl<T, const N: usize> ArrayQueue<T, N> {
    /// The slot of the element `i` places behind the front: `(start + i) mod N`.
    spec fn slot(&self, i: int) -> int {
        wrap(self.start + i, N as int)
    }

    /// How many places behind the front slot `j` lies, going round the array.
    spec fn offset(&self, j: int) -> int {
        if j >= self.start {
            j - self.start
        } else {
            j + N - self.start
        }
    }

    /// The queue is well formed: at most `N` elements, and a slot is occupied
    /// exactly when it lies in the window of `length` slots from `start`.
    pub closed spec fn wf(&self) -> bool {
        &&& self.length <= N
        &&& (self.start < N || (N == 0 && self.start == 0))
        &&& forall|j: int|
            0 <= j < N ==> (#[trigger] self.slots@[j] is Some <==> self.offset(j) < self.length)
    }

    /// The slots that hold an element.
    pub closed spec fn occupied(&self) -> Set<int> {
        Set::new(|j: int| 0 <= j < N && self.slots@[j] is Some)
    }

    /// A well-formed queue holds exactly as many elements as its length:
    /// every slot outside the window of live elements is vacant, so that
    /// dropping the queue drops each element once and nothing more.
    pub proof fn lemma_occupied_slots_match_len(&self)
        requires
            self.wf(),
        ensures
            self.occupied().finite(),
            self.occupied().len() == self@.len(),
    {
        let window = Seq::new(self.length as nat, |i: int| self.slot(i));
        assert(window.no_duplicates());
        window.unique_seq_to_set();
        assert forall|j: int| self.occupied().contains(j) implies window.to_set().contains(j) by {
            assert(window[self.offset(j)] == j);
        }
        assert(window.to_set() =~= self.occupied());
    }

    /// Creates an empty queue.
    pub fn new() -> (r: Self)
        ensures
            r.wf(),
            r@ == Seq::<T>::empty(),
    {
        let r = ArrayQueue { slots: vacant_slots(), start: 0, length: 0 };
        assert(r@ =~= Seq::<T>::empty());
        r
    }

    /// The number of elements in the queue.
    pub fn len(&self) -> (r: usize)
        ensures
            r == self@.len(),
    {
        self.length
    }

    /// Whether the queue holds no element.
    pub fn is_empty(&self) -> (r: bool)
        ensures
            r == (self@.len() == 0),
    {
        self.len() == 0
    }

    /// Whether the queue holds `N` elements, so that a push would be refused.
    pub fn is_full(&self) -> (r: bool)
        ensures
            r == (self@.len() == N),
    {
        self.len() == Self::capacity()
    }

    /// The number of elements the queue can hold.
    fn capacity() -> (r: usize)
        ensures
            r == N,
    {
        N
    }

    /// The slot of the element `i` places behind the front.
    fn index(&self, i: usize) -> (r: usize)
        requires
            self.start < N,
            i <= N,
        ensures
            r == self.slot(i as int),
            r == (self.start + i) as int % N as int,
            r < N,
    {
        proof {
            lemma_wrap_is_mod(self.start + i, N as int);
        }
        if i < N - self.start {
            self.start + i
        } else {
            i - (N - self.start)
        }
    }

    /// Appends `x` at the back, or gives `x` up and reports `CapacityError`
    /// when the queue is full, leaving it untouched.
    pub fn push_back(&mut self, x: T) -> (r: Result<(), CapacityError>)
        requires
            old(self).wf(),
        ensures
            final(self).wf(),
            final(self)@ == after(old(self)@, N as nat, QueueOp::PushBack(x)),
            r is Ok <==> old(self)@.len() < N,
            r is Ok ==> final(self)@ == old(self)@.push(x),
            r is Err ==> *final(self) == *old(self),
    {
        if self.is_full() {
            return Err(CapacityError);
        }
        let i = self.index(self.length);
        self.slots[i] = Some(x);
        self.length = self.length + 1;
        assert(self@ =~= old(self)@.push(x));
        Ok(())
    }

    /// Removes and returns the front element, or returns `None` when the
    /// queue is empty.
    pub fn pop_front(&mut self) -> (r: Option<T>)
        requires
            old(self).wf(),
        ensures
            final(self).wf(),
            final(self)@ == after(old(self)@, N as nat, QueueOp::PopFront),
            r == removed(old(self)@, N as nat, QueueOp::PopFront),
            r is Some <==> old(self)@.len() > 0,
            r is Some ==> r == Some(old(self)@[0]) && final(self)@ == old(self)@.drop_first(),
            r is None ==> *final(self) == *old(self),
    {
        if self.is_empty() {
            return None;
        }
        let x = self.slots[self.start].take();
        self.start = self.index(1);
        self.length = self.length - 1;
        assert(self@ =~= old(self)@.drop_first());
        x
    }

    /// Prepends `x` at the front, or gives `x` up and reports `CapacityError`
    /// when the queue is full, leaving it untouched.
    pub fn push_front(&mut self, x: T) -> (r: Result<(), CapacityError>)
        requires
            old(self).wf(),
        ensures
            final(self).wf(),
            final(self)@ == after(old(self)@, N as nat, QueueOp::PushFront(x)),
            r is Ok <==> old(self)@.len() < N,
            r is Ok ==> final(self)@ == seq![x] + old(self)@,
            r is Err ==> *final(self) == *old(self),
    {
        if self.is_full() {
            return Err(CapacityError);
        }
        let i = self.index(N - 1);
        self.slots[i] = Some(x);
        self.start = i;
        self.length = self.length + 1;
        assert(self@ =~= seq![x] + old(self)@);
        Ok(())
    }

    /// Removes and returns the back element, or returns `None` when the
    /// queue is empty.
    pub fn pop_back(&mut self) -> (r: Option<T>)
        requires
            old(self).wf(),
        ensures
            final(self).wf(),
            final(self)@ == after(old(self)@, N as nat, QueueOp::PopBack),
            r == removed(old(self)@, N as nat, QueueOp::PopBack),
            r is Some <==> old(self)@.len() > 0,
            r is Some ==> r == Some(old(self)@.last()) && final(self)@ == old(self)@.drop_last(),
            r is None ==> *final(self) == *old(self),
    {
        if self.is_empty() {
            return None;
        }
        let i = self.index(self.length - 1);
        let x = self.slots[i].take();
        self.length = self.length - 1;
        assert(self@ =~= old(self)@.drop_last());
        x
    }

    /// The element `i` places behind the front, if there is one.
    fn element(&self, i: usize) -> (r: Option<&T>)
        requires
            self.wf(),
        ensures
            r == (if i < self@.len() { Some(&self@[i as int]) } else { None }),
    {
        if i >= self.length {
            return None;
        }
        self.slots[self.index(i)].as_ref()
    }

    /// The element `i` places behind the front, if there is one, for
    /// modification in place.
    fn element_mut(&mut self, i: usize) -> (r: Option<&mut T>)
        requires
            old(self).wf(),
        ensures
            r is Some <==> i < old(self)@.len(),
            r is None ==> *final(self) == *old(self),
            r matches Some(e) ==> *e == old(self)@[i as int] && final(self).wf() && final(self)@
                == old(self)@.update(i as int, *final(e)),
    {
        if i >= self.length {
            return None;
        }
        let j = self.index(i);
        match &mut self.slots[j] {
            Some(e) => Some(e),
            None => None,
        }
    }

    /// The front element, if any.
    pub fn first(&self) -> (r: Option<&T>)
        requires
            self.wf(),
        ensures
            r == (if self@.len() > 0 { Some(&self@[0]) } else { None }),
    {
        self.element(0)
    }

    /// The back element, if any.
    pub fn last(&self) -> (r: Option<&T>)
        requires
            self.wf(),
        ensures
            r == (if self@.len() > 0 { Some(&self@.last()) } else { None }),
    {
        if self.is_empty() {
            return None;
        }
        self.element(self.length - 1)
    }

    /// The front element, if any, for modification in place.
    pub fn first_mut(&mut self) -> (r: Option<&mut T>)
        requires
            old(self).wf(),
        ensures
            r is Some <==> old(self)@.len() > 0,
            r is None ==> *final(self) == *old(self),
            r matches Some(e) ==> *e == old(self)@[0] && final(self).wf() && final(self)@
                == old(self)@.update(0, *final(e)),
    {
        self.element_mut(0)
    }

    /// The back element, if any, for modification in place.
    pub fn last_mut(&mut self) -> (r: Option<&mut T>)
        requires
            old(self).wf(),
        ensures
            r is Some <==> old(self)@.len() > 0,
            r is None ==> *final(self) == *old(self),
            r matches Some(e) ==> *e == old(self)@.last() && final(self).wf() && final(self)@
                == old(self)@.update(old(self)@.len() - 1, *final(e)),
    {
        if self.is_empty() {
            return None;
        }
        let i = self.length - 1;
        self.element_mut(i)
    }

    /// A front-to-back traversal of the elements that can also be walked
    /// from the back.
    pub fn iter(&self) -> (r: ArrayQueueIterator<'_, T, N>)
        requires
            self.wf(),
        ensures
            r.wf(),
            r@ == self@,
    {
        let r = ArrayQueueIterator { queue: self, first: 0, last: self.length };
        assert(r@ =~= self@);
        r
    }

    /// A front-to-back traversal that hands out each element once for
    /// modification in place.
    pub fn iter_mut(&mut self) -> (r: ArrayQueueMutIterator<'_, T, N>)
        requires
            old(self).wf(),
        ensures
            r.wf(),
            r.elements() == old(self)@,
            r.position() == 0,
    {
        ArrayQueueMutIterator { queue: self, first: 0 }
    }
}

impl<T, const N: usize> Default for ArrayQueue<T, N> {
    /// An empty queue.
    fn default() -> (r: Self)
        ensures
            r.wf(),
            r@ == Seq::<T>::empty(),
    {
        Self::new()
    }
}

/// A traversal of the elements of an `ArrayQueue` from either end. The two
/// ends meet once every element has been handed out exactly once.
#[derive(Debug)]
pub struct ArrayQueueIterator<'a, T, const N: usize> {
    queue: &'a ArrayQueue<T, N>,
    first: usize,
    last: usize,
}

impl<'a, T, const N: usize> View for ArrayQueueIterator<'a, T, N> {
    type V = Seq<T>;

    /// The elements not yet handed out, front first.
    closed spec fn view(&self) -> Seq<T> {
        self.queue@.subrange(self.first as int, self.last as int)
    }
}

impl<'a, T, const N: usize> ArrayQueueIterator<'a, T, N> {
    /// The traversal is well formed: its two cursors delimit a part of a
    /// well-formed queue.
    pub closed spec fn wf(&self) -> bool {
        &&& self.queue.wf()
        &&& self.first <= self.last <= self.queue@.len()
    }

    /// Whether every element has been handed out.
    fn exhausted(&self) -> (r: bool)
        requires
            self.wf(),
        ensures
            r == (self@.len() == 0),
    {
        self.first >= self.last
    }

    /// Hands out the frontmost element not yet handed out.
    pub fn next(&mut self) -> (r: Option<&'a T>)
        requires
            old(self).wf(),
        ensures
            final(self).wf(),
            r is Some <==> old(self)@.len() > 0,
            r is Some ==> r == Some(&old(self)@[0]) && final(self)@ == old(self)@.drop_first(),
            r is None ==> *final(self) == *old(self),
    {
        if self.exhausted() {
            return None;
        }
        let x = self.queue.element(self.first);
        self.first = self.first + 1;
        assert(self@ =~= old(self)@.drop_first());
        x
    }

    /// Hands out the backmost element not yet handed out.
    pub fn next_back(&mut self) -> (r: Option<&'a T>)
        requires
            old(self).wf(),
        ensures
            final(self).wf(),
            r is Some <==> old(self)@.len() > 0,
            r is Some ==> r == Some(&old(self)@.last()) && final(self)@ == old(self)@.drop_last(),
            r is None ==> *final(self) == *old(self),
    {
        if self.exhausted() {
            return None;
        }
        self.last = self.last - 1;
        let x = self.queue.element(self.last);
        assert(self@ =~= old(self)@.drop_last());
        x
    }
}

/// A front-to-back traversal of the elements of an `ArrayQueue` that hands
/// out each element once, for modification in place.
#[derive(Debug)]
pub struct ArrayQueueMutIterator<'a, T, const N: usize> {
    queue: &'a mut ArrayQueue<T, N>,
    first: usize,
}

impl<'a, T, const N: usize> ArrayQueueMutIterator<'a, T, N> {
    /// The elements of the queue being traversed, as they stand now.
    pub closed spec fn elements(&self) -> Seq<T> {
        self.queue@
    }

    /// How many elements have been handed out.
    pub closed spec fn position(&self) -> nat {
        self.first as nat
    }

    /// The traversal is well formed: a well-formed queue, and a position
    /// within it.
    pub closed spec fn wf(&self) -> bool {
        &&& self.queue.wf()
        &&& self.first <= self.queue@.len()
    }

    /// Hands out the next element, front first.
    pub fn next(&mut self) -> (r: Option<&mut T>)
        requires
            old(self).wf(),
        ensures
            r is Some <==> old(self).position() < old(self).elements().len(),
            r is None ==> *final(self) == *old(self),
            r matches Some(e) ==> *e == old(self).elements()[old(self).position() as int]
                && final(self).wf() && final(self).position() == old(self).position() + 1
                && final(self).elements() == old(self).elements().update(
                old(self).position() as int,
                *final(e),
            ),
    {
        if self.first >= self.queue.len() {
            return None;
        }
        let i = self.first;
        self.first = self.first + 1;
        self.queue.element_mut(i)
    }
}

} // verus!
