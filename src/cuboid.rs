//! A module for constructing cuboid shapes.
use vstd::prelude::*;

use crate::transform::{ModelTransform, Transform};
use crate::vertex::{winds_ccw, LatticeVertex, Topology};

verus! {

/// The cube corner at each slot of each side, four slots per side.
///
/// Corner `c` is the cube corner whose x coordinate is positive when bit 1 of `c`
/// is set, y when bit 0 is set and z when bit 2 is set. Sides come in pairs
/// along x, y and z, the negative side first.
pub const INDEX_LUT: [usize; 24] = [
    0, 4, 1, 5,
    6, 2, 7, 3,
    0, 2, 4, 6,
    5, 7, 1, 3,
    2, 0, 3, 1,
    4, 6, 5, 7,
];

/// The side slot used by each of a side's six vertices: the two
/// counter-clockwise triangles `{0, 1, 2}` and `{2, 1, 3}`.
pub const POLY_LUT: [usize; 6] = [0, 1, 2, 2, 1, 3];

/// The number of sides of the cuboid.
pub const NUM_SIDES: usize = 6;

/// The number of vertices emitted for each side: two triangles.
pub const VERTS_PER_SIDE: usize = 6;

/// Twice the position of the unit cube's corner `c`.
pub open spec fn corner_doubled_position(c: int) -> (i32, i32, i32) {
    (
        if (c / 2) % 2 == 1 { 1i32 } else { -1i32 },
        if c % 2 == 1 { 1i32 } else { -1i32 },
        if (c / 4) % 2 == 1 { 1i32 } else { -1i32 },
    )
}

/// The outward normal of side `side`: along axis `side / 2`, negative for even
/// sides and positive for odd ones.
pub open spec fn side_normal(side: int) -> (i32, i32, i32) {
    let sign: i32 = if side % 2 == 1 { 1i32 } else { -1i32 };
    if side / 2 == 0 {
        (sign, 0, 0)
    } else if side / 2 == 1 {
        (0, sign, 0)
    } else {
        (0, 0, sign)
    }
}

/// The vertex emitted at position `vert` (0..6) of side `side` (0..6).
pub open spec fn cuboid_vertex(side: int, vert: int) -> LatticeVertex {
    let slot = POLY_LUT@[vert] as int;
    LatticeVertex {
        doubled_position: corner_doubled_position(INDEX_LUT@[slot + side * 4] as int),
        normal: side_normal(side),
        texcoord: ((slot % 2) as u32, (slot / 2) as u32),
    }
}

/// The 36 vertices of the unit cube, side by side.
pub open spec fn cuboid_vertices() -> Seq<LatticeVertex> {
    Seq::new(36, |k: int| cuboid_vertex(k / 6, k % 6))
}

/// Every vertex of `s` is a corner of the unit cube on the side that its normal
/// points out of.
pub open spec fn on_unit_cube(s: Seq<LatticeVertex>) -> bool {
    forall|i: int| 0 <= i < s.len() ==> corner_on_side(#[trigger] s[i])
}

/// Triangle `t` of a triangle list winds counter-clockwise about its normal.
pub open spec fn list_triangle_ccw(s: Seq<LatticeVertex>, t: int) -> bool {
    winds_ccw(s, 3 * t, 3 * t + 1, 3 * t + 2)
}

/// `v` is a corner of the unit cube centred on the origin (each model-space
/// coordinate is -0.5 or 0.5), lies on the side that its normal points out of,
/// and has a texture coordinate in `{0, 1}²`.
pub open spec fn corner_on_side(v: LatticeVertex) -> bool {
    let p = v.doubled_position;
    let n = v.normal;
    &&& p.0 == 1 || p.0 == -1
    &&& p.1 == 1 || p.1 == -1
    &&& p.2 == 1 || p.2 == -1
    &&& n.0 != 0 ==> p.0 == n.0
    &&& n.1 != 0 ==> p.1 == n.1
    &&& n.2 != 0 ==> p.2 == n.2
    &&& v.texcoord.0 <= 1
    &&& v.texcoord.1 <= 1
}

/// The vertex at position `vert` of side `side` is a corner on that side.
proof fn lemma_corner(side: int, vert: int)
    requires
        0 <= side < 6,
        0 <= vert < 6,
    ensures
        corner_on_side(cuboid_vertex(side, vert)),
{
    // Each case names its side and position literally, so that the tables and
    // the corner arithmetic evaluate to constants.
    if side == 0 {
        if vert == 0 {
            assert(corner_on_side(cuboid_vertex(0, 0)));
        } else if vert == 1 {
            assert(corner_on_side(cuboid_vertex(0, 1)));
        } else if vert == 2 {
            assert(corner_on_side(cuboid_vertex(0, 2)));
        } else if vert == 3 {
            assert(corner_on_side(cuboid_vertex(0, 3)));
        } else if vert == 4 {
            assert(corner_on_side(cuboid_vertex(0, 4)));
        } else {
            assert(corner_on_side(cuboid_vertex(0, 5)));
        }
    } else if side == 1 {
        if vert == 0 {
            assert(corner_on_side(cuboid_vertex(1, 0)));
        } else if vert == 1 {
            assert(corner_on_side(cuboid_vertex(1, 1)));
        } else if vert == 2 {
            assert(corner_on_side(cuboid_vertex(1, 2)));
        } else if vert == 3 {
            assert(corner_on_side(cuboid_vertex(1, 3)));
        } else if vert == 4 {
            assert(corner_on_side(cuboid_vertex(1, 4)));
        } else {
            assert(corner_on_side(cuboid_vertex(1, 5)));
        }
    } else if side == 2 {
        if vert == 0 {
            assert(corner_on_side(cuboid_vertex(2, 0)));
        } else if vert == 1 {
            assert(corner_on_side(cuboid_vertex(2, 1)));
        } else if vert == 2 {
            assert(corner_on_side(cuboid_vertex(2, 2)));
        } else if vert == 3 {
            assert(corner_on_side(cuboid_vertex(2, 3)));
        } else if vert == 4 {
            assert(corner_on_side(cuboid_vertex(2, 4)));
        } else {
            assert(corner_on_side(cuboid_vertex(2, 5)));
        }
    } else if side == 3 {
        if vert == 0 {
            assert(corner_on_side(cuboid_vertex(3, 0)));
        } else if vert == 1 {
            assert(corner_on_side(cuboid_vertex(3, 1)));
        } else if vert == 2 {
            assert(corner_on_side(cuboid_vertex(3, 2)));
        } else if vert == 3 {
            assert(corner_on_side(cuboid_vertex(3, 3)));
        } else if vert == 4 {
            assert(corner_on_side(cuboid_vertex(3, 4)));
        } else {
            assert(corner_on_side(cuboid_vertex(3, 5)));
        }
    } else if side == 4 {
        if vert == 0 {
            assert(corner_on_side(cuboid_vertex(4, 0)));
        } else if vert == 1 {
            assert(corner_on_side(cuboid_vertex(4, 1)));
        } else if vert == 2 {
            assert(corner_on_side(cuboid_vertex(4, 2)));
        } else if vert == 3 {
            assert(corner_on_side(cuboid_vertex(4, 3)));
        } else if vert == 4 {
            assert(corner_on_side(cuboid_vertex(4, 4)));
        } else {
            assert(corner_on_side(cuboid_vertex(4, 5)));
        }
    } else {
        if vert == 0 {
            assert(corner_on_side(cuboid_vertex(5, 0)));
        } else if vert == 1 {
            assert(corner_on_side(cuboid_vertex(5, 1)));
        } else if vert == 2 {
            assert(corner_on_side(cuboid_vertex(5, 2)));
        } else if vert == 3 {
            assert(corner_on_side(cuboid_vertex(5, 3)));
        } else if vert == 4 {
            assert(corner_on_side(cuboid_vertex(5, 4)));
        } else {
            assert(corner_on_side(cuboid_vertex(5, 5)));
        }
    }
}

/// Both triangles of side `side` wind counter-clockwise about the side's normal.
proof fn lemma_side_triangles(side: int)
    requires
        0 <= side < 6,
    ensures
        list_triangle_ccw(cuboid_vertices(), 2 * side),
        list_triangle_ccw(cuboid_vertices(), 2 * side + 1),
{
    if side == 0 {
        assert(list_triangle_ccw(cuboid_vertices(), 0)) by (nonlinear_arith);
        assert(list_triangle_ccw(cuboid_vertices(), 1)) by (nonlinear_arith);
    } else if side == 1 {
        assert(list_triangle_ccw(cuboid_vertices(), 2)) by (nonlinear_arith);
        assert(list_triangle_ccw(cuboid_vertices(), 3)) by (nonlinear_arith);
    } else if side == 2 {
        assert(list_triangle_ccw(cuboid_vertices(), 4)) by (nonlinear_arith);
        assert(list_triangle_ccw(cuboid_vertices(), 5)) by (nonlinear_arith);
    } else if side == 3 {
        assert(list_triangle_ccw(cuboid_vertices(), 6)) by (nonlinear_arith);
        assert(list_triangle_ccw(cuboid_vertices(), 7)) by (nonlinear_arith);
    } else if side == 4 {
        assert(list_triangle_ccw(cuboid_vertices(), 8)) by (nonlinear_arith);
        assert(list_triangle_ccw(cuboid_vertices(), 9)) by (nonlinear_arith);
    } else {
        assert(list_triangle_ccw(cuboid_vertices(), 10)) by (nonlinear_arith);
        assert(list_triangle_ccw(cuboid_vertices(), 11)) by (nonlinear_arith);
    }
}

/// The unit cube's tessellation: every vertex is a cube corner on the side its
/// normal points out of, and each of the twelve triangles has one normal for its
/// three vertices and winds counter-clockwise when seen from outside.
pub proof fn lemma_cuboid_tessellation()
    ensures
        cuboid_vertices().len() == 36,
        on_unit_cube(cuboid_vertices()),
        forall|t: int| 0 <= t < 12 ==> #[trigger] list_triangle_ccw(cuboid_vertices(), t),
{
    lemma_cuboid_corners();
    lemma_cuboid_triangles();
}

proof fn lemma_cuboid_corners()
    ensures
        on_unit_cube(cuboid_vertices()),
{
    let s = cuboid_vertices();
    assert forall|i: int| 0 <= i < s.len() implies corner_on_side(#[trigger] s[i]) by {
        lemma_corner(i / 6, i % 6);
    }
}

proof fn lemma_cuboid_triangles()
    ensures
        forall|t: int| 0 <= t < 12 ==> #[trigger] list_triangle_ccw(cuboid_vertices(), t),
{
    assert forall|t: int| 0 <= t < 12 implies #[trigger] list_triangle_ccw(cuboid_vertices(), t) by {
        lemma_side_triangles(t / 2);
        assert(t == 2 * (t / 2) || t == 2 * (t / 2) + 1);
    }
}

/// A polygonal cuboid object, described by its builder: it is drawn as a
/// triangle list.
///
/// By default, the cuboid is a unit cube centred on the origin. This can be
/// overridden using the transformation methods. The geometry suits OpenGL
/// defaults: in a right-handed coordinate system, front faces wind
/// counter-clockwise. Vertex normals point along their face, so that the cuboid
/// appears faceted when lit, and texture coordinates define a planar projection
/// on each face.
pub struct CuboidBuilder<S> {
    transform: ModelTransform<S>,
}

impl<S> CuboidBuilder<S> {
    /// The transformation steps recorded so far.
    pub closed spec fn transforms(&self) -> Seq<Transform<S>> {
        self.transform@
    }

    /// Create a new `CuboidBuilder` object, with no transformation.
    pub fn new() -> (r: Self)
        ensures
            r.transforms() == Seq::<Transform<S>>::empty(),
    {
        CuboidBuilder { transform: ModelTransform::identity() }
    }

    /// Apply a scaling transformation to the shape.
    ///
    /// The `scale`, `translate`, and `rotate` functions accumulate, and are not
    /// commutative: each acts on the result of the calls before it.
    pub fn scale(self, x: S, y: S, z: S) -> (r: Self)
        ensures
            r.transforms() == self.transforms().push(Transform::Scale(x, y, z)),
    {
        CuboidBuilder { transform: self.transform.with_step(Transform::Scale(x, y, z)) }
    }

    /// Apply a translation transformation to the shape.
    ///
    /// The `scale`, `translate`, and `rotate` functions accumulate, and are not
    /// commutative: each acts on the result of the calls before it.
    pub fn translate(self, x: S, y: S, z: S) -> (r: Self)
        ensures
            r.transforms() == self.transforms().push(Transform::Translate(x, y, z)),
    {
        CuboidBuilder { transform: self.transform.with_step(Transform::Translate(x, y, z)) }
    }

    /// Apply a rotation transformation to the shape about the x-axis.
    ///
    /// The `scale`, `translate`, and `rotate` functions accumulate, and are not
    /// commutative: each acts on the result of the calls before it.
    pub fn rotate_x(self, radians: S) -> (r: Self)
        ensures
            r.transforms() == self.transforms().push(Transform::RotateX(radians)),
    {
        CuboidBuilder { transform: self.transform.with_step(Transform::RotateX(radians)) }
    }

    /// Apply a rotation transformation to the shape about the y-axis.
    ///
    /// The `scale`, `translate`, and `rotate` functions accumulate, and are not
    /// commutative: each acts on the result of the calls before it.
    pub fn rotate_y(self, radians: S) -> (r: Self)
        ensures
            r.transforms() == self.transforms().push(Transform::RotateY(radians)),
    {
        CuboidBuilder { transform: self.transform.with_step(Transform::RotateY(radians)) }
    }

    /// Apply a rotation transformation to the shape about the z-axis.
    ///
    /// The `scale`, `translate`, and `rotate` functions accumulate, and are not
    /// commutative: each acts on the result of the calls before it.
    pub fn rotate_z(self, radians: S) -> (r: Self)
        ensures
            r.transforms() == self.transforms().push(Transform::RotateZ(radians)),
    {
        CuboidBuilder { transform: self.transform.with_step(Transform::RotateZ(radians)) }
    }

    /// The accumulated model-space transform, to apply to the vertices.
    pub fn transform(&self) -> (r: &ModelTransform<S>)
        ensures
            r@ == self.transforms(),
    {
        &self.transform
    }

    /// How the vertices are split into primitives: a triangle list.
    pub fn topology(&self) -> (r: Topology)
        ensures
            r == Topology::TrianglesList,
    {
        Topology::TrianglesList
    }

    /// Build the cube's vertices, in model space, and return them in a vector.
    ///
    /// Each of the six sides emits two triangles, whose corners come from the
    /// side's four slots in `INDEX_LUT` in the order that `POLY_LUT` gives.
    pub fn build_vertices(&self) -> (r: Vec<LatticeVertex>)
        ensures
            r@ == cuboid_vertices(),
            r@.len() == 36,
            on_unit_cube(r@),
            forall|t: int| 0 <= t < 12 ==> #[trigger] list_triangle_ccw(r@, t),
    {
        let mut vertices: Vec<LatticeVertex> = Vec::with_capacity(NUM_SIDES * VERTS_PER_SIDE);
        let mut side: usize = 0;
        while side < NUM_SIDES
            invariant
                side <= NUM_SIDES,
                vertices@.len() == VERTS_PER_SIDE * side,
                forall|k: int| 0 <= k < vertices@.len() ==> #[trigger] vertices@[k] == cuboid_vertex(k / 6, k % 6),
            decreases NUM_SIDES - side,
        {
            let sign: i32 = if side % 2 == 1 { 1 } else { -1 };
            let normal: (i32, i32, i32) = if side / 2 == 0 {
                (sign, 0, 0)
            } else if side / 2 == 1 {
                (0, sign, 0)
            } else {
                (0, 0, sign)
            };
            let mut vert: usize = 0;
            while vert < VERTS_PER_SIDE
                invariant
                    side < NUM_SIDES,
                    vert <= VERTS_PER_SIDE,
                    normal == side_normal(side as int),
                    vertices@.len() == VERTS_PER_SIDE * side + vert,
                    forall|k: int| 0 <= k < vertices@.len() ==> #[trigger] vertices@[k] == cuboid_vertex(k / 6, k % 6),
                decreases VERTS_PER_SIDE - vert,
            {
                let slot = POLY_LUT[vert];
                let coord = INDEX_LUT[slot + side * 4];
                let position: (i32, i32, i32) = (
                    if (coord / 2) % 2 == 1 { 1 } else { -1 },
                    if coord % 2 == 1 { 1 } else { -1 },
                    if (coord / 4) % 2 == 1 { 1 } else { -1 },
                );
                vertices.push(
                    LatticeVertex {
                        doubled_position: position,
                        normal,
                        texcoord: ((slot % 2) as u32, (slot / 2) as u32),
                    },
                );
                vert += 1;
            }
            side += 1;
        }
        proof {
            assert(vertices@ =~= cuboid_vertices());
            lemma_cuboid_tessellation();
        }
        vertices
    }
}

impl<S> Default for CuboidBuilder<S> {
    fn default() -> (r: Self)
        ensures
            r.transforms() == Seq::<Transform<S>>::empty(),
    {
        CuboidBuilder::new()
    }
}

} // verus!
