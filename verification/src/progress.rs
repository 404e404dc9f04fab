//! What a solver asks of its caller, and the mathematical course of a
//! computation: which request each state makes and what each answer does to
//! the state and to the normal buffer.

use vstd::prelude::*;
use crate::buffer::triple_at;
use crate::buffer::with_triple;
use crate::buffer::zeros;
use crate::layout::facet_count_of;
use crate::layout::indices_in_range;
use crate::layout::vertex_count_of;
use crate::slot::lemma_slot_within;
use crate::slot::lemma_slots_distinct;
use crate::slot::Slot;
use crate::triple::Triple;

verus! {

/// One piece of arithmetic that the caller computes, on single-precision
/// values given and answered as bit patterns.
#[derive(Clone, Copy, Debug, PartialEq, Eq, Structural)]
pub enum Request {
    /// The unit normal of a facet whose corners lie at `first`, `pivot` and
    /// `third`, in the order of the facet's indices.
    ///
    /// With the edges `a = first - pivot` and `b = third - pivot`, it is the
    /// cross product of `a` and `b` (`x = a.y * b.z - a.z * b.y`, and so on
    /// in a cycle), each component divided by the
    /// [`divisor`](crate::length::divisor) of the product's length.
    FacetNormal { first: Triple, pivot: Triple, third: Triple },
    /// The sum of `left` and `right`, component by component.
    Sum { left: Triple, right: Triple },
    /// The vector `of`, each component divided by the
    /// [`divisor`](crate::length::divisor) of the vector's length.
    Unit { of: Triple },
}

/// Some index of the buffer names `vertex`.
pub open spec fn references(indices: Seq<u32>, vertex: nat) -> bool {
    exists|k: int| 0 <= k < indices.len() && #[trigger] indices[k] == vertex
}

/// How far a computation has come.
///
/// The facets are taken in the order of the index buffer. For each, the
/// facet's normal is asked for first; unless that normal is zero, it is then
/// added to the normal of each corner in turn, one sum per corner. When the
/// facets are done the vertices follow in ascending order, one request each.
pub struct Progress {
    /// The position buffer.
    pub positions: Seq<u32>,
    /// The index buffer.
    pub indices: Seq<u32>,
    /// Number of facets that are done.
    pub facet: nat,
    /// Within the current facet: 0 while its normal is wanted, else the
    /// corner (1, 2 or 3) whose sum is wanted.
    pub corner: nat,
    /// The current facet's normal, once it is known.
    pub normal: Triple,
    /// Number of vertices that are done.
    pub vertex: nat,
}

impl Progress {
    /// Number of vertices of the mesh.
    pub open spec fn vertex_count(self) -> nat {
        vertex_count_of(self.positions.len())
    }

    /// Number of facets of the mesh.
    pub open spec fn facet_count(self) -> nat {
        facet_count_of(self.indices.len())
    }

    /// The state before the first request.
    pub open spec fn start(positions: Seq<u32>, indices: Seq<u32>) -> Progress {
        Progress {
            positions,
            indices,
            facet: 0,
            corner: 0,
            normal: Triple { x: 0, y: 0, z: 0 },
            vertex: 0,
        }
    }

    /// The buffers are those of a mesh, and the counters lie on the course
    /// from `start` to the end.
    pub open spec fn wf(self) -> bool {
        &&& self.positions.len() % 3 == 0
        &&& self.positions.len() <= usize::MAX
        &&& self.indices.len() % 3 == 0
        &&& indices_in_range(self.indices, self.vertex_count())
        &&& self.facet <= self.facet_count()
        &&& self.corner <= 3
        &&& self.facet == self.facet_count() ==> self.corner == 0
        &&& self.vertex <= self.vertex_count()
        &&& self.facet < self.facet_count() ==> self.vertex == 0
    }

    /// The slot of corner `corner` (1, 2 or 3) of the current facet.
    pub open spec fn corner_slot(self, corner: nat) -> Slot {
        Slot::of(self.indices[3 * self.facet + corner - 1] as nat)
    }

    /// Everything is done.
    pub open spec fn finished(self) -> bool {
        self.facet >= self.facet_count() && self.vertex >= self.vertex_count()
    }

    /// Number of requests that are still to come at most.
    pub open spec fn remaining(self) -> int {
        4 * (self.facet_count() - self.facet) - self.corner + (self.vertex_count() - self.vertex)
    }

    /// What is asked in this state, given the normal buffer as it stands;
    /// `None` when everything is done.
    pub open spec fn request(self, normals: Seq<u32>) -> Option<Request> {
        if self.facet < self.facet_count() {
            if self.corner == 0 {
                Some(
                    Request::FacetNormal {
                        first: triple_at(self.positions, self.corner_slot(1)),
                        pivot: triple_at(self.positions, self.corner_slot(2)),
                        third: triple_at(self.positions, self.corner_slot(3)),
                    },
                )
            } else {
                Some(
                    Request::Sum {
                        left: triple_at(normals, self.corner_slot(self.corner)),
                        right: self.normal,
                    },
                )
            }
        } else if self.vertex < self.vertex_count() {
            Some(Request::Unit { of: triple_at(normals, Slot::of(self.vertex)) })
        } else {
            None
        }
    }

    /// The state that follows when the request is answered with `answer`.
    ///
    /// A facet whose normal is zero is done at once: nothing is added for
    /// it.
    pub open spec fn after(self, answer: Triple) -> Progress {
        if self.facet < self.facet_count() {
            if self.corner == 0 {
                if answer.is_zero() {
                    Progress { facet: self.facet + 1, ..self }
                } else {
                    Progress { corner: 1, normal: answer, ..self }
                }
            } else if self.corner < 3 {
                Progress { corner: self.corner + 1, ..self }
            } else {
                Progress { facet: self.facet + 1, corner: 0, ..self }
            }
        } else if self.vertex < self.vertex_count() {
            Progress { vertex: self.vertex + 1, ..self }
        } else {
            self
        }
    }

    /// The places of the normal buffer that the answer to the current
    /// request overwrites.
    pub open spec fn written(self, normals: Seq<u32>) -> Set<int> {
        if self.facet < self.facet_count() {
            if self.corner == 0 {
                Set::empty()
            } else {
                self.corner_slot(self.corner).places()
            }
        } else if self.vertex < self.vertex_count() && !triple_at(
            normals,
            Slot::of(self.vertex),
        ).is_zero() {
            Slot::of(self.vertex).places()
        } else {
            Set::empty()
        }
    }

    /// The normal buffer that follows when the request is answered with
    /// `answer`.
    ///
    /// A sum replaces the normal of the corner it was asked for. A unit
    /// vector replaces the normal of its vertex, unless that normal is zero:
    /// a vector without length is left as it is.
    pub open spec fn normals_after(self, normals: Seq<u32>, answer: Triple) -> Seq<u32> {
        if self.facet < self.facet_count() {
            if self.corner == 0 {
                normals
            } else {
                with_triple(normals, self.corner_slot(self.corner), answer)
            }
        } else if self.vertex < self.vertex_count() {
            if triple_at(normals, Slot::of(self.vertex)).is_zero() {
                normals
            } else {
                with_triple(normals, Slot::of(self.vertex), answer)
            }
        } else {
            normals
        }
    }
}

/// An answer leads from a well-formed state to a well-formed state, keeps
/// the length of the normal buffer, and brings the end nearer whenever
/// something was asked.
pub proof fn lemma_answer_advances(p: Progress, normals: Seq<u32>, answer: Triple)
    requires
        p.wf(),
        normals.len() == p.positions.len(),
    ensures
        p.after(answer).wf(),
        p.after(answer).positions == p.positions,
        p.after(answer).indices == p.indices,
        p.normals_after(normals, answer).len() == normals.len(),
        p.request(normals) is Some ==> 0 <= p.after(answer).remaining() < p.remaining(),
        p.request(normals) is None <==> p.finished(),
{
    if p.facet < p.facet_count() && p.corner > 0 {
        lemma_slot_within(p.vertex_count(), p.indices[3 * p.facet + p.corner - 1] as nat);
    } else if p.facet >= p.facet_count() && p.vertex < p.vertex_count() {
        lemma_slot_within(p.vertex_count(), p.vertex);
    }
}

/// Every place that an answer overwrites lies inside the normal buffer,
/// which the reset wrote whole, and every other element stays as it is.
pub proof fn lemma_answer_frame(p: Progress, normals: Seq<u32>, answer: Triple)
    requires
        p.wf(),
        normals.len() == p.positions.len(),
    ensures
        forall|i: int| #[trigger] p.written(normals).contains(i) ==> 0 <= i < normals.len(),
        forall|i: int|
            0 <= i < normals.len() && !p.written(normals).contains(i) ==> (
            #[trigger] p.normals_after(normals, answer)[i]) == normals[i],
{
    if p.facet < p.facet_count() && p.corner > 0 {
        lemma_slot_within(p.vertex_count(), p.indices[3 * p.facet + p.corner - 1] as nat);
    } else if p.facet >= p.facet_count() && p.vertex < p.vertex_count() {
        lemma_slot_within(p.vertex_count(), p.vertex);
    }
}

/// A vertex that no index names and whose normal is zero keeps that normal,
/// bit for bit, through an answer.
pub proof fn lemma_unreferenced_vertex_stays_zero(
    p: Progress,
    normals: Seq<u32>,
    answer: Triple,
    vertex: nat,
)
    requires
        p.wf(),
        normals.len() == p.positions.len(),
        vertex < p.vertex_count(),
        !references(p.indices, vertex),
        triple_at(normals, Slot::of(vertex)).is_zero(),
    ensures
        triple_at(p.normals_after(normals, answer), Slot::of(vertex)) == triple_at(
            normals,
            Slot::of(vertex),
        ),
{
    lemma_slot_within(p.vertex_count(), vertex);
    if p.facet < p.facet_count() && p.corner > 0 {
        let named = p.indices[3 * p.facet + p.corner - 1] as nat;
        lemma_slot_within(p.vertex_count(), named);
        lemma_slots_distinct(p.vertex_count(), named, vertex);
    } else if p.facet >= p.facet_count() && p.vertex < p.vertex_count() {
        lemma_slot_within(p.vertex_count(), p.vertex);
        lemma_slots_distinct(p.vertex_count(), p.vertex, vertex);
    }
}

/// The normal buffer after the requests, from state `p` on, were answered
/// with `answers` in order.
pub open spec fn normals_after_all(p: Progress, normals: Seq<u32>, answers: Seq<Triple>) -> Seq<
    u32,
>
    decreases answers.len(),
{
    if answers.len() == 0 {
        normals
    } else {
        normals_after_all(
            p.after(answers[0]),
            p.normals_after(normals, answers[0]),
            answers.skip(1),
        )
    }
}

/// A vertex that no index names and whose normal is zero keeps that normal,
/// bit for bit, through any number of answers.
pub proof fn lemma_unreferenced_vertex_remains_zero(
    p: Progress,
    normals: Seq<u32>,
    answers: Seq<Triple>,
    vertex: nat,
)
    requires
        p.wf(),
        normals.len() == p.positions.len(),
        vertex < p.vertex_count(),
        !references(p.indices, vertex),
        triple_at(normals, Slot::of(vertex)).is_zero(),
    ensures
        triple_at(normals_after_all(p, normals, answers), Slot::of(vertex)) == triple_at(
            normals,
            Slot::of(vertex),
        ),
    decreases answers.len(),
{
    if answers.len() > 0 {
        lemma_answer_advances(p, normals, answers[0]);
        lemma_unreferenced_vertex_stays_zero(p, normals, answers[0], vertex);
        lemma_unreferenced_vertex_remains_zero(
            p.after(answers[0]),
            p.normals_after(normals, answers[0]),
            answers.skip(1),
            vertex,
        );
    }
}

/// From the reset on, a vertex that no index names has the normal
/// `(+0, +0, +0)` after any number of answers, whatever they are.
pub proof fn lemma_unreferenced_vertex_is_zero(
    positions: Seq<u32>,
    indices: Seq<u32>,
    answers: Seq<Triple>,
    vertex: nat,
)
    requires
        Progress::start(positions, indices).wf(),
        vertex < vertex_count_of(positions.len()),
        !references(indices, vertex),
    ensures
        triple_at(
            normals_after_all(Progress::start(positions, indices), zeros(positions.len()), answers),
            Slot::of(vertex),
        ) == (Triple { x: 0, y: 0, z: 0 }),
{
    lemma_slot_within(vertex_count_of(positions.len()), vertex);
    lemma_unreferenced_vertex_remains_zero(
        Progress::start(positions, indices),
        zeros(positions.len()),
        answers,
        vertex,
    );
}

/// A facet whose normal is zero adds nothing: the answer leaves the normal
/// buffer as it is, and the next request belongs to the next facet or, after
/// the last facet, to the first vertex.
pub proof fn lemma_flat_facet_adds_nothing(p: Progress, normals: Seq<u32>, answer: Triple)
    requires
        p.wf(),
        p.facet < p.facet_count(),
        p.corner == 0,
        answer.is_zero(),
    ensures
        p.normals_after(normals, answer) == normals,
        p.after(answer).facet == p.facet + 1,
        p.after(answer).corner == 0,
{
}

/// A facet whose normal is not zero has that normal added to each of its
/// corners, in their order: the three requests that follow are the sums of
/// the corner's normal, as the buffer then holds it, and the facet's normal.
pub proof fn lemma_facet_normal_is_added(p: Progress, normals: Seq<u32>, answer: Triple)
    requires
        p.wf(),
        p.facet < p.facet_count(),
        p.corner == 0,
        !answer.is_zero(),
    ensures
        p.after(answer).request(normals) == Some(
            Request::Sum { left: triple_at(normals, p.corner_slot(1)), right: answer },
        ),
        forall|n1: Seq<u32>, s1: Triple|
            (#[trigger] p.after(answer).after(s1).request(n1)) == Some(
                Request::Sum { left: triple_at(n1, p.corner_slot(2)), right: answer },
            ),
        forall|n2: Seq<u32>, s1: Triple, s2: Triple|
            (#[trigger] p.after(answer).after(s1).after(s2).request(n2)) == Some(
                Request::Sum { left: triple_at(n2, p.corner_slot(3)), right: answer },
            ),
        forall|s1: Triple, s2: Triple, s3: Triple|
            (#[trigger] p.after(answer).after(s1).after(s2).after(s3)) == (Progress {
                facet: p.facet + 1,
                corner: 0,
                normal: answer,
                ..p
            }),
{
}

} // verus!
