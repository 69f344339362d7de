//! The fixed capacity ring buffers that the layout keeps its queues in.
//!
//! Each queue is an `arraydeque::ArrayDeque` with the `Wrapping` behavior: pushing onto a full
//! queue drops the frontmost element and hands it back.

use crate::layout::{SequenceState, Stacked, spec_stacked_tick};
use arraydeque::{ArrayDeque, Wrapping};
use vstd::prelude::*;

verus! {

/// The sequence after `x` is pushed at the back of a ring buffer holding at most `cap`
/// elements: when the buffer is full, its frontmost element leaves.
pub open spec fn wrap_push<A>(s: Seq<A>, x: A, cap: nat) -> Seq<A> {
    if s.len() < cap {
        s.push(x)
    } else {
        s.drop_first().push(x)
    }
}

/// What a wrapping push hands back: the element that left, if the buffer was full.
pub open spec fn wrap_push_out<A>(s: Seq<A>, cap: nat) -> Option<A> {
    if s.len() < cap {
        None
    } else {
        Some(s[0])
    }
}

/// The coordinates of `s` other than `c`, in their order.
pub open spec fn remove_coord(s: Seq<(u8, u8)>, c: (u8, u8)) -> Seq<(u8, u8)> {
    s.filter(|x: (u8, u8)| x != c)
}

/// The stacked events one tick later.
pub open spec fn ticked_stack(s: Seq<Stacked>) -> Seq<Stacked> {
    s.map_values(|x: Stacked| spec_stacked_tick(x))
}

/// Whether two coordinates differ.
pub(crate) fn coords_differ(a: (u8, u8), b: (u8, u8)) -> (r: bool)
    ensures
        r == (a != b),
{
    a.0 != b.0 || a.1 != b.1
}

// ---------------------------------------------------------------------------------------------
// Stacked events
/// The stack of events waiting to be processed (at most 16).
#[verifier::external_body]
pub struct StackedQueue {
    q: ArrayDeque<[Stacked; 16], Wrapping>,
}

/// The events of a [`StackedQueue`], front first.
pub uninterp spec fn stacked_items(q: StackedQueue) -> Seq<Stacked>;

/// `ArrayDeque::new`: an empty queue.
#[verifier::external_body]
pub(crate) fn stacked_new() -> (q: StackedQueue)
    ensures
        stacked_items(q) == Seq::<Stacked>::empty(),
{
    StackedQueue { q: ArrayDeque::new() }
}

/// `ArrayDeque::len`: the number of events, at most the capacity 16.
#[verifier::external_body]
pub(crate) fn stacked_len(q: &StackedQueue) -> (r: usize)
    ensures
        r == stacked_items(*q).len(),
        r <= 16,
{
    q.q.len()
}

/// `ArrayDeque::push_back` (wrapping): appends at the back; on a full queue the frontmost event
/// leaves and is handed back.
#[verifier::external_body]
pub(crate) fn stacked_push_back(q: &mut StackedQueue, s: Stacked) -> (r: Option<Stacked>)
    ensures
        stacked_items(*final(q)) == wrap_push(stacked_items(*old(q)), s, 16),
        r == wrap_push_out(stacked_items(*old(q)), 16),
        stacked_items(*final(q)).len() <= 16,
{
    q.q.push_back(s)
}

/// `ArrayDeque::pop_front`: removes and hands back the frontmost event.
#[verifier::external_body]
pub(crate) fn stacked_pop_front(q: &mut StackedQueue) -> (r: Option<Stacked>)
    ensures
        stacked_items(*old(q)).len() == 0 ==> r is None && stacked_items(*final(q))
            == stacked_items(*old(q)),
        stacked_items(*old(q)).len() > 0 ==> r == Some(stacked_items(*old(q))[0])
            && stacked_items(*final(q)) == stacked_items(*old(q)).drop_first(),
{
    q.q.pop_front()
}

/// `ArrayDeque::iter_mut`, applying [`Stacked::tick`] to every event.
#[verifier::external_body]
pub(crate) fn stacked_tick_all(q: &mut StackedQueue)
    ensures
        stacked_items(*final(q)) == ticked_stack(stacked_items(*old(q))),
{
    q.q.iter_mut().for_each(|s| s.tick())
}

/// `ArrayDeque::iter`, copying the events front first into a vector.
#[verifier::external_body]
pub(crate) fn stacked_to_vec(q: &StackedQueue) -> (r: Vec<Stacked>)
    ensures
        r@ == stacked_items(*q),
{
    q.q.iter().copied().collect()
}

// ---------------------------------------------------------------------------------------------
// Coordinates of one shot keys
/// A queue of key coordinates (at most 16).
#[verifier::external_body]
pub struct CoordQueue {
    q: ArrayDeque<[(u8, u8); 16], Wrapping>,
}

/// The coordinates of a [`CoordQueue`], front first.
pub uninterp spec fn coord_items(q: CoordQueue) -> Seq<(u8, u8)>;

/// `ArrayDeque::new`: an empty queue.
#[verifier::external_body]
pub(crate) fn coord_new() -> (q: CoordQueue)
    ensures
        coord_items(q) == Seq::<(u8, u8)>::empty(),
{
    CoordQueue { q: ArrayDeque::new() }
}

/// `ArrayDeque::is_empty`.
#[verifier::external_body]
pub(crate) fn coord_is_empty(q: &CoordQueue) -> (r: bool)
    ensures
        r == (coord_items(*q).len() == 0),
{
    q.q.is_empty()
}

/// `ArrayDeque::push_back` (wrapping): appends at the back; on a full queue the frontmost
/// coordinate leaves and is handed back.
#[verifier::external_body]
pub(crate) fn coord_push_back(q: &mut CoordQueue, c: (u8, u8)) -> (r: Option<(u8, u8)>)
    ensures
        coord_items(*final(q)) == wrap_push(coord_items(*old(q)), c, 16),
        r == wrap_push_out(coord_items(*old(q)), 16),
{
    q.q.push_back(c)
}

/// `ArrayDeque::contains`.
#[verifier::external_body]
pub(crate) fn coord_contains(q: &CoordQueue, c: (u8, u8)) -> (r: bool)
    ensures
        r == coord_items(*q).contains(c),
{
    q.q.contains(&c)
}

/// `ArrayDeque::retain`, keeping the coordinates that differ from `c`.
#[verifier::external_body]
pub(crate) fn coord_retain_other(q: &mut CoordQueue, c: (u8, u8))
    ensures
        coord_items(*final(q)) == remove_coord(coord_items(*old(q)), c),
{
    q.q.retain(|x| coords_differ(*x, c))
}

/// `ArrayDeque::clear`.
#[verifier::external_body]
pub(crate) fn coord_clear(q: &mut CoordQueue)
    ensures
        coord_items(*final(q)) == Seq::<(u8, u8)>::empty(),
{
    q.q.clear()
}

/// `ArrayDeque::drain` of the whole queue, collected front first into a vector.
#[verifier::external_body]
pub(crate) fn coord_drain(q: &mut CoordQueue) -> (r: Vec<(u8, u8)>)
    ensures
        r@ == coord_items(*old(q)),
        coord_items(*final(q)) == Seq::<(u8, u8)>::empty(),
{
    q.q.drain(..).collect()
}

// ---------------------------------------------------------------------------------------------
// Running key sequences
/// The queue of running key sequences (at most 4).
#[verifier::external_body]
pub struct SequenceQueue {
    q: ArrayDeque<[SequenceState; 4], Wrapping>,
}

/// The sequences of a [`SequenceQueue`], front first.
pub uninterp spec fn sequence_items(q: SequenceQueue) -> Seq<SequenceState>;

/// `ArrayDeque::new`: an empty queue.
#[verifier::external_body]
pub(crate) fn sequence_new() -> (q: SequenceQueue)
    ensures
        sequence_items(q) == Seq::<SequenceState>::empty(),
{
    SequenceQueue { q: ArrayDeque::new() }
}

/// `ArrayDeque::len`: the number of sequences, at most the capacity 4.
#[verifier::external_body]
pub(crate) fn sequence_len(q: &SequenceQueue) -> (r: usize)
    ensures
        r == sequence_items(*q).len(),
        r <= 4,
{
    q.q.len()
}

/// `ArrayDeque::push_back` (wrapping): appends at the back; on a full queue the frontmost
/// sequence leaves and is handed back.
#[verifier::external_body]
pub(crate) fn sequence_push_back(q: &mut SequenceQueue, s: SequenceState) -> (r: Option<SequenceState>)
    ensures
        sequence_items(*final(q)) == wrap_push(sequence_items(*old(q)), s, 4),
        r == wrap_push_out(sequence_items(*old(q)), 4),
{
    q.q.push_back(s)
}

/// `ArrayDeque::pop_front`: removes and hands back the frontmost sequence.
#[verifier::external_body]
pub(crate) fn sequence_pop_front(q: &mut SequenceQueue) -> (r: Option<SequenceState>)
    ensures
        sequence_items(*old(q)).len() == 0 ==> r is None && sequence_items(*final(q))
            == sequence_items(*old(q)),
        sequence_items(*old(q)).len() > 0 ==> r == Some(sequence_items(*old(q))[0])
            && sequence_items(*final(q)) == sequence_items(*old(q)).drop_first(),
{
    q.q.pop_front()
}

} // verus!
