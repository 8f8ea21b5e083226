use bitvec::vec::BitVec;
use vstd::prelude::*;

verus! {

/// A growable bitmap held in a `bitvec::vec::BitVec`, one bit per slot.
#[verifier::external_body]
#[derive(Debug)]
pub struct LiveBits {
    bits: BitVec,
}

/// The bits that a bitmap holds, in index order.
pub uninterp spec fn bits_of(v: LiveBits) -> Seq<bool>;

/// The largest number of bits that a `BitVec` can hold.
pub open spec fn max_bits() -> int {
    (usize::MAX as int) / 8
}

/// Relies on `BitVec::new`: the new vector is empty.
#[verifier::external_body]
fn bits_new() -> (r: LiveBits)
    ensures
        bits_of(r) == Seq::<bool>::empty(),
{
    LiveBits { bits: BitVec::new() }
}

/// Relies on `BitVec::len`: the number of bits held.
#[verifier::external_body]
fn bits_len(v: &LiveBits) -> (r: usize)
    ensures
        r as int == bits_of(*v).len(),
{
    v.bits.len()
}

/// Relies on `BitSlice::first_zero`: the index of the first cleared bit.
#[verifier::external_body]
fn bits_first_zero(v: &LiveBits) -> (r: Option<usize>)
    ensures
        match r {
            Some(i) => i < bits_of(*v).len() && !bits_of(*v)[i as int] && forall|j: int|
                0 <= j < i ==> #[trigger] bits_of(*v)[j],
            None => forall|j: int| 0 <= j < bits_of(*v).len() ==> #[trigger] bits_of(*v)[j],
        },
{
    v.bits.first_zero()
}

/// Relies on `BitVec::push`: appends one bit; it panics past the maximum length.
#[verifier::external_body]
fn bits_push(v: &mut LiveBits, value: bool)
    requires
        bits_of(*old(v)).len() < max_bits(),
    ensures
        bits_of(*final(v)) == bits_of(*old(v)).push(value),
{
    v.bits.push(value)
}

/// Relies on `BitSlice::set`: writes one bit; it panics out of bounds.
#[verifier::external_body]
fn bits_set(v: &mut LiveBits, index: usize, value: bool)
    requires
        index < bits_of(*old(v)).len(),
    ensures
        bits_of(*final(v)) == bits_of(*old(v)).update(index as int, value),
{
    v.bits.set(index, value)
}

/// Slot `s` is live in the bitmap `live`.
pub open spec fn is_live(live: Seq<bool>, s: int) -> bool {
    0 <= s < live.len() && live[s]
}

/// The set of live slots of the bitmap `live`.
pub open spec fn live_set(live: Seq<bool>) -> Set<int> {
    Set::new(|s: int| is_live(live, s))
}

/// `r` is the lowest slot that is not live, or the bitmap's length when every
/// slot of it is live.
pub open spec fn is_lowest_free(live: Seq<bool>, r: int) -> bool {
    &&& 0 <= r <= live.len()
    &&& forall|j: int| 0 <= j < r ==> #[trigger] live[j]
    &&& r < live.len() ==> !live[r]
}

/// The bitmap after slot `r` becomes live, growing it by one when `r` is its length.
pub open spec fn mark_live(live: Seq<bool>, r: int) -> Seq<bool> {
    if r < live.len() {
        live.update(r, true)
    } else {
        live.push(true)
    }
}

/// Hands out small slot numbers and takes them back, always reusing the lowest
/// released slot before growing.
#[derive(Debug)]
pub struct SlotAllocator {
    bits: LiveBits,
}

impl View for SlotAllocator {
    type V = Seq<bool>;

    closed spec fn view(&self) -> Seq<bool> {
        bits_of(self.bits)
    }
}

impl SlotAllocator {
    /// An allocator with no slots.
    pub fn new() -> (r: SlotAllocator)
        ensures
            r@ == Seq::<bool>::empty(),
    {
        SlotAllocator { bits: bits_new() }
    }

    /// Returns the lowest slot that is not live and marks it live; when every
    /// slot is live, the bitmap grows by one slot, which is returned.
    pub fn allocate(&mut self) -> (r: usize)
        requires
            old(self)@.len() < max_bits(),
        ensures
            is_lowest_free(old(self)@, r as int),
            final(self)@ == mark_live(old(self)@, r as int),
    {
        match bits_first_zero(&self.bits) {
            Some(free) => {
                bits_set(&mut self.bits, free, true);
                free
            },
            None => {
                let r = bits_len(&self.bits);
                bits_push(&mut self.bits, true);
                r
            },
        }
    }

    /// Marks a live slot as no longer live.
    pub fn release(&mut self, slot: usize)
        requires
            is_live(old(self)@, slot as int),
        ensures
            final(self)@ == old(self)@.update(slot as int, false),
    {
        bits_set(&mut self.bits, slot, false);
    }
}

/// There is exactly one lowest free slot of a bitmap.
pub proof fn lemma_lowest_free_unique(live: Seq<bool>, r1: int, r2: int)
    requires
        is_lowest_free(live, r1),
        is_lowest_free(live, r2),
    ensures
        r1 == r2,
{
}

/// Allocation adds exactly the returned slot to the live set, and that slot was
/// not live before.
pub proof fn lemma_allocate_live_set(live: Seq<bool>, r: int)
    requires
        is_lowest_free(live, r),
    ensures
        !live_set(live).contains(r),
        live_set(mark_live(live, r)) == live_set(live).insert(r),
{
    assert(live_set(mark_live(live, r)) =~= live_set(live).insert(r));
}

/// Release removes exactly the released slot from the live set.
pub proof fn lemma_release_live_set(live: Seq<bool>, s: int)
    requires
        is_live(live, s),
    ensures
        live_set(live.update(s, false)) == live_set(live).remove(s),
{
    assert(live_set(live.update(s, false)) =~= live_set(live).remove(s));
}

/// A released slot is open to the very next allocation: the next slot handed
/// out is never above it, and is that slot when every lower slot is live.
pub proof fn lemma_released_slot_reused(live: Seq<bool>, s: int, r: int)
    requires
        is_live(live, s),
        is_lowest_free(live.update(s, false), r),
    ensures
        r <= s,
        (forall|j: int| 0 <= j < s ==> #[trigger] live[j]) ==> r == s,
{
    if r > s {
        assert(live.update(s, false)[s]);
    }
}

} // verus!
