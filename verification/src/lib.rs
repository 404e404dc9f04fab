//! Smooth per-vertex normals of a triangle mesh.
//!
//! The mesh is given by flat buffers. Positions and normals hold one
//! `(x, y, z)` triple per vertex, as IEEE 754 single-precision bit patterns;
//! indices hold one triple of vertex ids per triangular facet. A
//! [`solver::NormalSolver`] validates the buffers, resets the normals, and
//! then walks the facets and the vertices: it reads and writes the buffers
//! itself and asks its caller for one piece of arithmetic at a time (a
//! facet's normal, a sum, a vector of unit length), which the caller answers
//! with bit patterns.

pub mod buffer;
pub mod layout;
pub mod length;
pub mod progress;
pub mod slot;
pub mod solver;
pub mod triple;
