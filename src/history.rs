use vstd::prelude::*;
use ringbuffer::{AllocRingBuffer, RingBuffer};
use crate::position::MousePosition;

verus! {

/// The largest history a ring can be made with. `AllocRingBuffer::new` allocates
/// `capacity.next_power_of_two()` items of 8 bytes through `Layout::array(..).unwrap()`,
/// which panics when the byte size exceeds `isize::MAX`; up to this bound the rounded-up
/// size, times 8, stays below it on every target.
pub const MAX_HISTORY_CAPACITY: usize = usize::MAX / 32;

#[verifier::external_type_specification]
#[verifier::external_body]
#[verifier::reject_recursive_types(T)]
pub struct ExAllocRingBuffer<T>(AllocRingBuffer<T>);

/// The items held by a ring buffer, oldest first.
pub uninterp spec fn ring_items(b: AllocRingBuffer<(i32, i32)>) -> Seq<(i32, i32)>;

/// The number of items a ring buffer holds before it starts dropping the oldest.
pub uninterp spec fn ring_capacity(b: AllocRingBuffer<(i32, i32)>) -> nat;

/// Relies on AllocRingBuffer::new: an empty buffer that holds up to `capacity` items.
/// It panics on a zero capacity, and on an allocation size that `Layout::array` refuses
/// (see `MAX_HISTORY_CAPACITY`).
#[verifier::external_body]
fn ring_new(capacity: usize) -> (r: AllocRingBuffer<(i32, i32)>)
    requires
        1 <= capacity <= MAX_HISTORY_CAPACITY,
    ensures
        ring_items(r) == Seq::<(i32, i32)>::empty(),
        ring_capacity(r) == capacity,
{
    AllocRingBuffer::new(capacity)
}

/// Relies on RingBuffer::push of AllocRingBuffer: appends the item, first dropping the
/// oldest one when the buffer is full (its length equals its capacity).
#[verifier::external_body]
fn ring_push(b: &mut AllocRingBuffer<(i32, i32)>, item: (i32, i32))
    requires
        ring_items(*old(b)).len() <= ring_capacity(*old(b)),
    ensures
        ring_capacity(*final(b)) == ring_capacity(*old(b)),
        ring_items(*final(b)) == if ring_items(*old(b)).len() == ring_capacity(*old(b)) {
            ring_items(*old(b)).drop_first().push(item)
        } else {
            ring_items(*old(b)).push(item)
        },
{
    b.push(item)
}

/// Relies on RingBuffer::clear of AllocRingBuffer: drops every item, keeps the capacity.
#[verifier::external_body]
fn ring_clear(b: &mut AllocRingBuffer<(i32, i32)>)
    ensures
        ring_capacity(*final(b)) == ring_capacity(*old(b)),
        ring_items(*final(b)) == Seq::<(i32, i32)>::empty(),
{
    b.clear()
}

/// Relies on RingBuffer::to_vec: a copy of the items, oldest first.
#[verifier::external_body]
fn ring_to_vec(b: &AllocRingBuffer<(i32, i32)>) -> (r: Vec<(i32, i32)>)
    ensures
        r@ == ring_items(*b),
{
    b.to_vec()
}

/// Relies on RingBuffer::capacity of AllocRingBuffer: the capacity it was made with.
#[verifier::external_body]
fn ring_capacity_of(b: &AllocRingBuffer<(i32, i32)>) -> (r: usize)
    ensures
        r == ring_capacity(*b),
{
    b.capacity()
}

pub open spec fn position_of(p: (i32, i32)) -> MousePosition {
    MousePosition { x: p.0, y: p.1 }
}

/// The history after one more sample `p`: appended, with the oldest dropped when full.
pub open spec fn pushed(s: Seq<MousePosition>, capacity: nat, p: MousePosition) -> Seq<MousePosition> {
    if s.len() >= capacity {
        s.drop_first().push(p)
    } else {
        s.push(p)
    }
}

/// The history after the samples of `xs`, in order.
pub open spec fn pushed_all(s: Seq<MousePosition>, capacity: nat, xs: Seq<MousePosition>) -> Seq<MousePosition>
    decreases xs.len(),
{
    if xs.len() == 0 {
        s
    } else {
        pushed_all(pushed(s, capacity, xs[0]), capacity, xs.drop_first())
    }
}

/// The last `n` items of `q` (all of them if it is shorter).
pub open spec fn last_n(q: Seq<MousePosition>, n: nat) -> Seq<MousePosition> {
    if q.len() <= n {
        q
    } else {
        q.subrange(q.len() - n, q.len() as int)
    }
}

/// Pushing samples into a history keeps the last `capacity` of the old contents followed
/// by the new samples, oldest first.
pub proof fn lemma_pushed_all_keeps_last(s: Seq<MousePosition>, capacity: nat, xs: Seq<MousePosition>)
    requires
        capacity >= 1,
        s.len() <= capacity,
    ensures
        pushed_all(s, capacity, xs) == last_n(s + xs, capacity),
    decreases xs.len(),
{
    if xs.len() == 0 {
        assert(s + xs =~= s);
    } else {
        let s1 = pushed(s, capacity, xs[0]);
        let rest = xs.drop_first();
        lemma_pushed_all_keeps_last(s1, capacity, rest);
        let q = s + xs;
        let q1 = s1 + rest;
        if s.len() >= capacity {
            assert(q1 =~= q.subrange(1, q.len() as int));
        } else {
            assert(q1 =~= q);
        }
        assert(last_n(q1, capacity) =~= last_n(q, capacity));
    }
}

/// Pushing `capacity + k` samples into an empty history leaves exactly the last
/// `capacity` of them, oldest first.
pub proof fn lemma_history_keeps_last_samples(capacity: nat, xs: Seq<MousePosition>)
    requires
        capacity >= 1,
        xs.len() >= capacity,
    ensures
        pushed_all(Seq::empty(), capacity, xs) == xs.subrange(xs.len() - capacity, xs.len() as int),
{
    lemma_pushed_all_keeps_last(Seq::empty(), capacity, xs);
    assert(Seq::<MousePosition>::empty() + xs =~= xs);
}

/// A bounded, insertion-ordered history of sampled positions.
pub struct HistoryBuffer {
    ring: AllocRingBuffer<(i32, i32)>,
}

impl View for HistoryBuffer {
    type V = Seq<MousePosition>;

    closed spec fn view(&self) -> Seq<MousePosition> {
        ring_items(self.ring).map_values(|p: (i32, i32)| position_of(p))
    }
}

impl HistoryBuffer {
    pub closed spec fn capacity(&self) -> nat {
        ring_capacity(self.ring)
    }

    pub open spec fn wf(&self) -> bool {
        &&& 1 <= self.capacity() <= MAX_HISTORY_CAPACITY
        &&& self@.len() <= self.capacity()
    }

    pub fn new(capacity: usize) -> (r: HistoryBuffer)
        requires
            1 <= capacity <= MAX_HISTORY_CAPACITY,
        ensures
            r.wf(),
            r.capacity() == capacity,
            r@ == Seq::<MousePosition>::empty(),
    {
        let r = HistoryBuffer { ring: ring_new(capacity) };
        assert(r@ =~= Seq::<MousePosition>::empty());
        r
    }

    /// Appends `p`, evicting the oldest position when the history is full.
    pub fn push(&mut self, p: MousePosition)
        requires
            old(self).wf(),
        ensures
            final(self).wf(),
            final(self).capacity() == old(self).capacity(),
            final(self)@ == pushed(old(self)@, old(self).capacity(), p),
    {
        ring_push(&mut self.ring, (p.x, p.y));
        proof {
            let o = ring_items(old(self).ring);
            let n = ring_items(self.ring);
            let f = |q: (i32, i32)| position_of(q);
            if o.len() == ring_capacity(old(self).ring) {
                assert(n.map_values(f) =~= o.map_values(f).drop_first().push(p));
            } else {
                assert(n.map_values(f) =~= o.map_values(f).push(p));
            }
        }
    }

    /// Empties the history; the capacity is kept.
    pub fn clear(&mut self)
        requires
            old(self).wf(),
        ensures
            final(self).wf(),
            final(self).capacity() == old(self).capacity(),
            final(self)@ == Seq::<MousePosition>::empty(),
    {
        ring_clear(&mut self.ring);
        assert(self@ =~= Seq::<MousePosition>::empty());
    }

    pub fn capacity_exec(&self) -> (r: usize)
        requires
            self.wf(),
        ensures
            r == self.capacity(),
    {
        ring_capacity_of(&self.ring)
    }

    /// A copy of the history, oldest first.
    pub fn snapshot(&self) -> (r: Vec<MousePosition>)
        ensures
            r@ == self@,
    {
        let items = ring_to_vec(&self.ring);
        let mut out: Vec<MousePosition> = Vec::new();
        let mut i: usize = 0;
        while i < items.len()
            invariant
                0 <= i <= items@.len(),
                items@ == ring_items(self.ring),
                out@ =~= items@.subrange(0, i as int).map_values(|p: (i32, i32)| position_of(p)),
            decreases items.len() - i,
        {
            out.push(MousePosition::new(items[i]));
            i = i + 1;
        }
        assert(items@.subrange(0, items@.len() as int) =~= items@);
        out
    }
}

} // verus!
