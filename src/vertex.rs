//! The vertex records shared by the shapes whose geometry lies on an integer lattice.
use vstd::prelude::*;

verus! {

/// A vertex of the cuboid, the quad or the axes, in model space, before the
/// builder's transform is applied.
///
/// Positions are stored doubled, so that the cuboid's half-unit corners stay
/// integral: the model-space position is `doubled_position / 2`.
#[derive(Clone, Copy, Debug, PartialEq, Eq)]
pub struct LatticeVertex {
    /// Twice the model-space position.
    pub doubled_position: (i32, i32, i32),
    /// The untransformed normal, a unit vector along one axis.
    pub normal: (i32, i32, i32),
    /// The texture coordinate.
    pub texcoord: (u32, u32),
}

/// How a flat, non-indexed vertex list is split into primitives.
#[derive(Clone, Copy, Debug, PartialEq, Eq, Structural)]
pub enum Topology {
    /// Each consecutive pair of vertices is a line segment.
    LinesList,
    /// Each consecutive triple of vertices is a triangle.
    TrianglesList,
    /// Vertices `i`, `i + 1` and `i + 2` form a triangle, for every `i`.
    TriangleStrip,
}

/// A lattice vector as a triple of mathematical integers.
pub open spec fn lattice(p: (i32, i32, i32)) -> (int, int, int) {
    (p.0 as int, p.1 as int, p.2 as int)
}

/// The difference `a - b` of two vectors.
pub open spec fn sub3(a: (int, int, int), b: (int, int, int)) -> (int, int, int) {
    (a.0 - b.0, a.1 - b.1, a.2 - b.2)
}

/// The cross product `a × b` of two vectors.
pub open spec fn cross3(a: (int, int, int), b: (int, int, int)) -> (int, int, int) {
    (a.1 * b.2 - a.2 * b.1, a.2 * b.0 - a.0 * b.2, a.0 * b.1 - a.1 * b.0)
}

/// The dot product `a · b` of two vectors.
pub open spec fn dot3(a: (int, int, int), b: (int, int, int)) -> int {
    a.0 * b.0 + a.1 * b.1 + a.2 * b.2
}

/// The triangle made of the vertices `a`, `b` and `c` of `s` winds
/// counter-clockwise when seen from the side that their shared normal points
/// to: all three carry the same normal, and `(b - a) × (c - a)` points along it.
pub open spec fn winds_ccw(s: Seq<LatticeVertex>, a: int, b: int, c: int) -> bool {
    let p0 = lattice(s[a].doubled_position);
    let p1 = lattice(s[b].doubled_position);
    let p2 = lattice(s[c].doubled_position);
    &&& s[a].normal == s[b].normal
    &&& s[a].normal == s[c].normal
    &&& dot3(cross3(sub3(p1, p0), sub3(p2, p0)), lattice(s[a].normal)) > 0
}

} // verus!
