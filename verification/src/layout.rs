//! Shapes of the three buffers, and when a mesh is admitted.

use vstd::prelude::*;

verus! {

/// Why a set of buffers is refused.
#[derive(Clone, Copy, Debug, PartialEq, Eq, Structural)]
pub enum NormalsError {
    /// A buffer's length is not a multiple of three, or the position and
    /// normal buffers differ in length.
    SizeMismatch,
    /// An index names a vertex that the position buffer does not hold.
    IndexOutOfRange,
}

impl NormalsError {
    /// The error's name as a sequence of characters.
    pub open spec fn name_of(self) -> Seq<char> {
        match self {
            NormalsError::SizeMismatch => "SizeMismatch"@,
            NormalsError::IndexOutOfRange => "IndexOutOfRange"@,
        }
    }

    /// Returns the error's name, as a host reports it.
    pub fn name(&self) -> (name: String)
        ensures
            name@ == self.name_of(),
    {
        match self {
            NormalsError::SizeMismatch => "SizeMismatch".to_owned(),
            NormalsError::IndexOutOfRange => "IndexOutOfRange".to_owned(),
        }
    }
}

/// The three lengths describe whole triples, and there is one normal triple
/// for each position triple.
pub open spec fn sizes_agree(positions_len: nat, normals_len: nat, indices_len: nat) -> bool {
    &&& positions_len % 3 == 0
    &&& normals_len == positions_len
    &&& indices_len % 3 == 0
}

/// Every index names one of the `vertex_count` vertices.
pub open spec fn indices_in_range(indices: Seq<u32>, vertex_count: nat) -> bool {
    forall|k: int| 0 <= k < indices.len() ==> (#[trigger] indices[k]) < vertex_count
}

/// Number of vertices that a position buffer of the given length holds.
pub open spec fn vertex_count_of(positions_len: nat) -> nat {
    positions_len / 3
}

/// Number of facets that an index buffer of the given length holds.
pub open spec fn facet_count_of(indices_len: nat) -> nat {
    indices_len / 3
}

/// Tells whether the buffer lengths fit together.
pub fn sizes_fit(positions_len: usize, normals_len: usize, indices_len: usize) -> (ok: bool)
    ensures
        ok == sizes_agree(positions_len as nat, normals_len as nat, indices_len as nat),
{
    positions_len % 3 == 0 && normals_len == positions_len && indices_len % 3 == 0
}

/// Tells whether every index is below `vertex_count`.
pub fn indices_fit(indices: &[u32], vertex_count: usize) -> (ok: bool)
    ensures
        ok == indices_in_range(indices@, vertex_count as nat),
{
    let mut k: usize = 0;
    while k < indices.len()
        invariant
            k <= indices.len(),
            forall|j: int| 0 <= j < k ==> (#[trigger] indices@[j]) < vertex_count,
        decreases indices.len() - k,
    {
        if indices[k] as usize >= vertex_count {
            return false;
        }
        k += 1;
    }
    true
}

/// Validates the shapes of a mesh's buffers and returns its vertex count.
///
/// Sizes are judged first, so a set of buffers with both faults is refused
/// as `SizeMismatch`.
pub fn validate(positions_len: usize, normals_len: usize, indices: &[u32]) -> (r: Result<
    usize,
    NormalsError,
>)
    ensures
        match r {
            Ok(n) => {
                &&& sizes_agree(positions_len as nat, normals_len as nat, indices@.len())
                &&& indices_in_range(indices@, vertex_count_of(positions_len as nat))
                &&& n == vertex_count_of(positions_len as nat)
            },
            Err(NormalsError::SizeMismatch) => !sizes_agree(
                positions_len as nat,
                normals_len as nat,
                indices@.len(),
            ),
            Err(NormalsError::IndexOutOfRange) => {
                &&& sizes_agree(positions_len as nat, normals_len as nat, indices@.len())
                &&& !indices_in_range(indices@, vertex_count_of(positions_len as nat))
            },
        },
{
    if !sizes_fit(positions_len, normals_len, indices.len()) {
        return Err(NormalsError::SizeMismatch);
    }
    let vertex_count: usize = positions_len / 3;
    if !indices_fit(indices, vertex_count) {
        return Err(NormalsError::IndexOutOfRange);
    }
    Ok(vertex_count)
}

} // verus!
