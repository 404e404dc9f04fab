//! Reading and writing triples in a flat buffer of bit patterns.

use vstd::prelude::*;
use crate::slot::Slot;
use crate::triple::Triple;

verus! {

/// A buffer of `len` elements, each the bit pattern of positive zero.
pub open spec fn zeros(len: nat) -> Seq<u32> {
    Seq::new(len, |i: int| 0u32)
}

/// The triple that a buffer holds at a slot.
pub open spec fn triple_at(buffer: Seq<u32>, slot: Slot) -> Triple {
    Triple { x: buffer[slot.x as int], y: buffer[slot.y as int], z: buffer[slot.z as int] }
}

/// The buffer with the triple at a slot replaced.
pub open spec fn with_triple(buffer: Seq<u32>, slot: Slot, triple: Triple) -> Seq<u32> {
    buffer.update(slot.x as int, triple.x).update(slot.y as int, triple.y).update(
        slot.z as int,
        triple.z,
    )
}

/// Overwrites every element of the buffer with positive zero.
pub fn reset(buffer: &mut [u32])
    ensures
        final(buffer)@ == zeros(old(buffer)@.len()),
{
    let n: usize = buffer.len();
    let mut i: usize = 0;
    while i < n
        invariant
            i <= n,
            buffer@.len() == n,
            forall|j: int| 0 <= j < i ==> buffer@[j] == 0,
        decreases n - i,
    {
        buffer[i] = 0;
        i += 1;
    }
    assert(buffer@ =~= zeros(n as nat));
}

/// Reads the triple at a slot.
pub(crate) fn load(buffer: &[u32], slot: Slot) -> (triple: Triple)
    requires
        slot.within(buffer@.len()),
    ensures
        triple == triple_at(buffer@, slot),
{
    Triple { x: buffer[slot.x], y: buffer[slot.y], z: buffer[slot.z] }
}

/// Replaces the triple at a slot.
pub(crate) fn store(buffer: &mut [u32], slot: Slot, triple: Triple)
    requires
        slot.within(old(buffer)@.len()),
    ensures
        final(buffer)@ == with_triple(old(buffer)@, slot, triple),
{
    buffer[slot.x] = triple.x;
    buffer[slot.y] = triple.y;
    buffer[slot.z] = triple.z;
}

} // verus!
