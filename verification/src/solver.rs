//! The solver: validated buffers and a place in the computation.

use vstd::prelude::*;
use crate::buffer::load;
use crate::buffer::reset;
use crate::buffer::store;
use crate::buffer::zeros;
use crate::layout::indices_in_range;
use crate::layout::sizes_agree;
use crate::layout::validate;
use crate::layout::vertex_count_of;
use crate::layout::NormalsError;
use crate::progress::lemma_answer_advances;
use crate::progress::Progress;
use crate::progress::Request;
use crate::slot::Slot;
use crate::triple::Triple;

verus! {

/// Computes the normals of one mesh, step by step: it gathers the operands
/// from the buffers, asks its caller for the arithmetic, and puts the answers
/// where they belong.
///
/// A solver exists only for buffers that passed validation, so it never
/// reads or writes outside them.
pub struct NormalSolver<'a> {
    positions: &'a [u32],
    indices: &'a [u32],
    facet: usize,
    corner: usize,
    normal: Triple,
    vertex: usize,
}

impl<'a> View for NormalSolver<'a> {
    type V = Progress;

    closed spec fn view(&self) -> Progress {
        Progress {
            positions: self.positions@,
            indices: self.indices@,
            facet: self.facet as nat,
            corner: self.corner as nat,
            normal: self.normal,
            vertex: self.vertex as nat,
        }
    }
}

impl<'a> NormalSolver<'a> {
    #[verifier::type_invariant]
    spec fn inv(self) -> bool {
        self@.wf()
    }

    /// Validates the buffers' shapes, resets the normals and starts the
    /// computation.
    ///
    /// Fails with `SizeMismatch` when the lengths do not fit together, else
    /// with `IndexOutOfRange` when an index names no vertex; the normal
    /// buffer is then left as it was. On success every element of the normal
    /// buffer is positive zero, whatever it held before.
    pub fn new(positions: &'a [u32], indices: &'a [u32], normals: &mut [u32]) -> (r: Result<
        NormalSolver<'a>,
        NormalsError,
    >)
        ensures
            match r {
                Ok(solver) => {
                    &&& sizes_agree(positions@.len(), old(normals)@.len(), indices@.len())
                    &&& indices_in_range(indices@, vertex_count_of(positions@.len()))
                    &&& solver@ == Progress::start(positions@, indices@)
                    &&& solver@.wf()
                    &&& final(normals)@ == zeros(old(normals)@.len())
                },
                Err(NormalsError::SizeMismatch) => {
                    &&& !sizes_agree(positions@.len(), old(normals)@.len(), indices@.len())
                    &&& final(normals)@ == old(normals)@
                },
                Err(NormalsError::IndexOutOfRange) => {
                    &&& sizes_agree(positions@.len(), old(normals)@.len(), indices@.len())
                    &&& !indices_in_range(indices@, vertex_count_of(positions@.len()))
                    &&& final(normals)@ == old(normals)@
                },
            },
    {
        match validate(positions.len(), normals.len(), indices) {
            Ok(_) => {
                reset(normals);
                Ok(
                    NormalSolver {
                        positions,
                        indices,
                        facet: 0,
                        corner: 0,
                        normal: Triple { x: 0, y: 0, z: 0 },
                        vertex: 0,
                    },
                )
            },
            Err(e) => Err(e),
        }
    }

    /// Returns what is to be computed next, or `None` when the normals are
    /// complete.
    pub fn request(&self, normals: &[u32]) -> (r: Option<Request>)
        requires
            normals@.len() == self@.positions.len(),
        ensures
            r == self@.request(normals@),
    {
        proof {
            use_type_invariant(self);
        }
        let facets: usize = self.indices.len() / 3;
        let vertices: usize = self.positions.len() / 3;
        if self.facet < facets {
            let base: usize = 3 * self.facet;
            if self.corner == 0 {
                let first = Slot::for_vertex(self.indices[base] as usize);
                let pivot = Slot::for_vertex(self.indices[base + 1] as usize);
                let third = Slot::for_vertex(self.indices[base + 2] as usize);
                Some(
                    Request::FacetNormal {
                        first: load(self.positions, first),
                        pivot: load(self.positions, pivot),
                        third: load(self.positions, third),
                    },
                )
            } else {
                let slot = Slot::for_vertex(self.indices[base + self.corner - 1] as usize);
                Some(Request::Sum { left: load(normals, slot), right: self.normal })
            }
        } else if self.vertex < vertices {
            Some(Request::Unit { of: load(normals, Slot::for_vertex(self.vertex)) })
        } else {
            None
        }
    }

    /// Takes the answer to the current request and moves on.
    ///
    /// When the normals are complete, nothing changes.
    pub fn reply(&mut self, normals: &mut [u32], answer: Triple)
        requires
            old(normals)@.len() == old(self)@.positions.len(),
        ensures
            final(self)@ == old(self)@.after(answer),
            final(normals)@ == old(self)@.normals_after(old(normals)@, answer),
            final(self)@.wf(),
    {
        proof {
            use_type_invariant(&*self);
            lemma_answer_advances(self@, normals@, answer);
        }
        let facets: usize = self.indices.len() / 3;
        let vertices: usize = self.positions.len() / 3;
        if self.facet < facets {
            if self.corner == 0 {
                if answer.all_zero() {
                    self.facet = self.facet + 1;
                } else {
                    self.normal = answer;
                    self.corner = 1;
                }
            } else {
                let slot = Slot::for_vertex(
                    self.indices[3 * self.facet + self.corner - 1] as usize,
                );
                store(normals, slot, answer);
                if self.corner < 3 {
                    self.corner = self.corner + 1;
                } else {
                    self.corner = 0;
                    self.facet = self.facet + 1;
                }
            }
        } else if self.vertex < vertices {
            let slot = Slot::for_vertex(self.vertex);
            if !load(normals, slot).all_zero() {
                store(normals, slot, answer);
            }
            self.vertex = self.vertex + 1;
        }
    }
}

} // verus!
