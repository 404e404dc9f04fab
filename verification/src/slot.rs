//! Where a vertex's components stand in a flat buffer of triples.

use vstd::prelude::*;

verus! {

/// The places of one vertex's `x`, `y` and `z` components in a position or
/// normal buffer.
#[derive(Clone, Copy, Debug, PartialEq, Eq, Structural)]
pub struct Slot {
    pub x: usize,
    pub y: usize,
    pub z: usize,
}

impl Slot {
    /// The slot of vertex `vertex`: three neighbouring places from
    /// `3 * vertex` on.
    pub open spec fn of(vertex: nat) -> Slot {
        Slot {
            x: (3 * vertex) as usize,
            y: (3 * vertex + 1) as usize,
            z: (3 * vertex + 2) as usize,
        }
    }

    /// The three places of the slot.
    pub open spec fn places(self) -> Set<int> {
        set![self.x as int, self.y as int, self.z as int]
    }

    /// All three places are valid in a buffer of `len` elements.
    pub open spec fn within(self, len: nat) -> bool {
        self.x < len && self.y < len && self.z < len
    }

    /// Computes the slot of vertex `vertex`.
    pub(crate) fn for_vertex(vertex: usize) -> (s: Slot)
        requires
            3 * vertex + 2 <= usize::MAX,
        ensures
            s == Slot::of(vertex as nat),
    {
        let x: usize = 3 * vertex;
        Slot { x, y: x + 1, z: x + 2 }
    }
}

/// A vertex of a buffer of `vertex_count` triples has its slot inside the
/// buffer, at three neighbouring places.
pub proof fn lemma_slot_within(vertex_count: nat, vertex: nat)
    requires
        3 * vertex_count <= usize::MAX,
        vertex < vertex_count,
    ensures
        Slot::of(vertex).within(3 * vertex_count),
        Slot::of(vertex).x == 3 * vertex,
        Slot::of(vertex).y == 3 * vertex + 1,
        Slot::of(vertex).z == 3 * vertex + 2,
{
}

/// Two vertices of one buffer share a slot only if they are the same vertex.
pub proof fn lemma_slots_distinct(vertex_count: nat, a: nat, b: nat)
    requires
        3 * vertex_count <= usize::MAX,
        a < vertex_count,
        b < vertex_count,
    ensures
        Slot::of(a) == Slot::of(b) <==> a == b,
{
}

} // verus!
