//! The contents of a queue as a sequence, and what each call does to it.
//!
//! The contracts of `ArrayQueue` state each call's effect through `after` and
//! `removed`; the proof functions here state what follows for runs of calls.
use vstd::prelude::*;

verus! {

/// A call on a queue, as far as its contents are concerned.
pub enum QueueOp<T> {
    PushBack(T),
    PushFront(T),
    PopBack,
    PopFront,
}

/// Whether `op` takes effect on a queue that holds `s` and can hold `cap`
/// elements: a push needs room, a pop needs an element.
pub open spec fn takes_effect<T>(s: Seq<T>, cap: nat, op: QueueOp<T>) -> bool {
    match op {
        QueueOp::PushBack(_) | QueueOp::PushFront(_) => s.len() < cap,
        QueueOp::PopBack | QueueOp::PopFront => s.len() > 0,
    }
}

/// The contents after `op`. A call that does not take effect changes nothing.
pub open spec fn after<T>(s: Seq<T>, cap: nat, op: QueueOp<T>) -> Seq<T> {
    if !takes_effect(s, cap, op) {
        s
    } else {
        match op {
            QueueOp::PushBack(x) => s.push(x),
            QueueOp::PushFront(x) => seq![x] + s,
            QueueOp::PopBack => s.drop_last(),
            QueueOp::PopFront => s.drop_first(),
        }
    }
}

/// The element that `op` takes out of the queue, if any.
pub open spec fn removed<T>(s: Seq<T>, cap: nat, op: QueueOp<T>) -> Option<T> {
    if !takes_effect(s, cap, op) {
        None
    } else {
        match op {
            QueueOp::PopBack => Some(s.last()),
            QueueOp::PopFront => Some(s[0]),
            _ => None,
        }
    }
}

/// How `op` changes the number of elements: one more for a push that takes
/// effect, one fewer for a pop that does.
pub open spec fn count_change<T>(s: Seq<T>, cap: nat, op: QueueOp<T>) -> int {
    if !takes_effect(s, cap, op) {
        0
    } else {
        match op {
            QueueOp::PushBack(_) | QueueOp::PushFront(_) => 1,
            QueueOp::PopBack | QueueOp::PopFront => -1,
        }
    }
}

/// The contents after the calls `ops`, in order.
pub open spec fn run<T>(s: Seq<T>, cap: nat, ops: Seq<QueueOp<T>>) -> Seq<T>
    decreases ops.len(),
{
    if ops.len() == 0 {
        s
    } else {
        run(after(s, cap, ops[0]), cap, ops.drop_first())
    }
}

/// The elements that the calls `ops` take out, in the order they come out.
pub open spec fn removals<T>(s: Seq<T>, cap: nat, ops: Seq<QueueOp<T>>) -> Seq<T>
    decreases ops.len(),
{
    if ops.len() == 0 {
        Seq::empty()
    } else {
        let rest = removals(after(s, cap, ops[0]), cap, ops.drop_first());
        match removed(s, cap, ops[0]) {
            Some(x) => seq![x] + rest,
            None => rest,
        }
    }
}

/// Pushes that take effect minus pops that take effect, over the calls `ops`.
pub open spec fn net_pushes<T>(s: Seq<T>, cap: nat, ops: Seq<QueueOp<T>>) -> int
    decreases ops.len(),
{
    if ops.len() == 0 {
        0
    } else {
        count_change(s, cap, ops[0]) + net_pushes(after(s, cap, ops[0]), cap, ops.drop_first())
    }
}

/// For each of `vs`, a pop at the front followed by a push of it at the back.
pub open spec fn rotations<T>(vs: Seq<T>) -> Seq<QueueOp<T>>
    decreases vs.len(),
{
    if vs.len() == 0 {
        Seq::empty()
    } else {
        seq![QueueOp::PopFront, QueueOp::PushBack(vs[0])] + rotations(vs.drop_first())
    }
}

/// Over any run of calls on a queue that starts empty, the number of
/// elements it holds is the number of pushes that succeeded minus the number
/// of pops that succeeded.
pub proof fn lemma_len_is_net_pushes<T>(cap: nat, ops: Seq<QueueOp<T>>)
    ensures
        run(Seq::<T>::empty(), cap, ops).len() == net_pushes(Seq::<T>::empty(), cap, ops),
{
    lemma_len_is_len_plus_net_pushes(Seq::<T>::empty(), cap, ops);
}

/// Over any run of calls, the number of elements grows by the number of
/// pushes that succeeded minus the number of pops that succeeded.
pub proof fn lemma_len_is_len_plus_net_pushes<T>(s: Seq<T>, cap: nat, ops: Seq<QueueOp<T>>)
    ensures
        run(s, cap, ops).len() == s.len() + net_pushes(s, cap, ops),
    decreases ops.len(),
{
    if ops.len() > 0 {
        lemma_len_is_len_plus_net_pushes(after(s, cap, ops[0]), cap, ops.drop_first());
    }
}

/// Pushing `x` at the back of a queue with room and then popping at the
/// back gives `x` back and leaves the queue as it was.
pub proof fn lemma_push_back_then_pop_back<T>(s: Seq<T>, cap: nat, x: T)
    requires
        s.len() < cap,
    ensures
        removed(after(s, cap, QueueOp::PushBack(x)), cap, QueueOp::PopBack) == Some(x),
        after(after(s, cap, QueueOp::PushBack(x)), cap, QueueOp::PopBack) == s,
{
    assert(s.push(x).drop_last() =~= s);
}

/// Pushing `x` at the front of a queue with room and then popping at the
/// front gives `x` back and leaves the queue as it was.
pub proof fn lemma_push_front_then_pop_front<T>(s: Seq<T>, cap: nat, x: T)
    requires
        s.len() < cap,
    ensures
        removed(after(s, cap, QueueOp::PushFront(x)), cap, QueueOp::PopFront) == Some(x),
        after(after(s, cap, QueueOp::PushFront(x)), cap, QueueOp::PopFront) == s,
{
    assert((seq![x] + s).drop_first() =~= s);
}

/// On a queue that holds at least one element, alternately popping at the
/// front and pushing each of `vs` at the back, any number of times, takes the
/// elements out first in, first out: the elements held first and then `vs`,
/// in that order.
pub proof fn lemma_rotations_keep_order<T>(s: Seq<T>, cap: nat, vs: Seq<T>)
    requires
        0 < s.len() <= cap,
    ensures
        removals(s, cap, rotations(vs)) == (s + vs).take(vs.len() as int),
        run(s, cap, rotations(vs)) == (s + vs).skip(vs.len() as int),
    decreases vs.len(),
{
    let ops = rotations(vs);
    if vs.len() == 0 {
        assert((s + vs).take(0) =~= Seq::<T>::empty());
        assert((s + vs).skip(0) =~= s);
    } else {
        let v = vs[0];
        let rest = vs.drop_first();
        let s1 = s.drop_first();
        let s2 = s1.push(v);
        assert(ops == seq![QueueOp::PopFront, QueueOp::PushBack(v)] + rotations(rest));
        assert(ops[0] == QueueOp::<T>::PopFront);
        let ops1 = ops.drop_first();
        assert(ops1 =~= seq![QueueOp::PushBack(v)] + rotations(rest));
        assert(ops1.len() == rotations(rest).len() + 1);
        assert(ops1[0] == QueueOp::PushBack(v));
        assert(ops1.drop_first() =~= rotations(rest));
        assert(after(s, cap, ops[0]) == s1);
        assert(removed(s, cap, ops[0]) == Some(s[0]));
        assert(after(s1, cap, ops1[0]) == s2);
        assert(removed(s1, cap, ops1[0]) is None);
        assert(run(s, cap, ops) == run(s1, cap, ops1));
        assert(run(s1, cap, ops1) == run(s2, cap, rotations(rest)));
        assert(removals(s1, cap, ops1) == removals(s2, cap, rotations(rest)));
        assert(removals(s, cap, ops) == seq![s[0]] + removals(s2, cap, rotations(rest)));
        lemma_rotations_keep_order(s2, cap, rest);
        assert(s2 + rest =~= (s + vs).drop_first());
        assert((s + vs).take(vs.len() as int) =~= seq![s[0]] + (s2 + rest).take(
            rest.len() as int,
        ));
        assert((s + vs).skip(vs.len() as int) =~= (s2 + rest).skip(rest.len() as int));
    }
}

} // verus!
