//! A module for constructing polygonal quad shapes.
use vstd::prelude::*;

use crate::errors::ShapeCreationError;
use crate::transform::{ModelTransform, Transform};
use crate::vertex::{winds_ccw, LatticeVertex, Topology};

verus! {

/// The number of vertices of a quad.
pub const VERTS_PER_QUAD: usize = 4;

/// Vertex `k` (0..4) of the quad: the corner `(u, v) = (k / 2, k % 2)` of the
/// square of side 2 centred on the origin in the XY plane, facing the negative
/// Z axis.
pub open spec fn quad_vertex(k: int) -> LatticeVertex {
    let u = k / 2;
    let v = k % 2;
    LatticeVertex {
        doubled_position: ((4 * u - 2) as i32, (4 * v - 2) as i32, 0i32),
        normal: (0i32, 0i32, -1i32),
        texcoord: (u as u32, v as u32),
    }
}

/// The four vertices of the quad, in triangle-strip order.
pub open spec fn quad_vertices() -> Seq<LatticeVertex> {
    Seq::new(4, |k: int| quad_vertex(k))
}

/// The default quad: its corners span `[-1, 1]² × {0}`, with `(-1, -1, 0)` first
/// and `(1, 1, 0)` last, so that its centroid is the origin; all four vertices
/// share the normal `(0, 0, -1)` and have texture coordinates in `{0, 1}²`; and
/// both triangles of the strip, `{0, 1, 2}` and `{2, 1, 3}`, wind
/// counter-clockwise about that normal.
pub open spec fn is_default_quad(s: Seq<LatticeVertex>) -> bool {
    &&& s.len() == 4
    &&& s[0].doubled_position == (-2i32, -2i32, 0i32)
    &&& s[3].doubled_position == (2i32, 2i32, 0i32)
    &&& s[0].doubled_position.0 + s[1].doubled_position.0 + s[2].doubled_position.0 + s[3].doubled_position.0 == 0
    &&& s[0].doubled_position.1 + s[1].doubled_position.1 + s[2].doubled_position.1 + s[3].doubled_position.1 == 0
    &&& forall|i: int|
        0 <= i < 4 ==> {
            let p = #[trigger] s[i].doubled_position;
            &&& -2 <= p.0 <= 2
            &&& -2 <= p.1 <= 2
            &&& p.2 == 0
            &&& s[i].normal == (0i32, 0i32, -1i32)
            &&& s[i].texcoord.0 <= 1
            &&& s[i].texcoord.1 <= 1
        }
    &&& winds_ccw(s, 0, 1, 2)
    &&& winds_ccw(s, 2, 1, 3)
}

/// The quad's tessellation has the shape that `is_default_quad` describes.
pub proof fn lemma_quad_tessellation()
    ensures
        is_default_quad(quad_vertices()),
{
    let s = quad_vertices();
    assert(s[0] == quad_vertex(0) && s[1] == quad_vertex(1) && s[2] == quad_vertex(2) && s[3] == quad_vertex(3));
    assert(winds_ccw(s, 0, 1, 2)) by (nonlinear_arith)
        requires
            s[0] == quad_vertex(0) && s[1] == quad_vertex(1) && s[2] == quad_vertex(2),
    ;
    assert(winds_ccw(s, 2, 1, 3)) by (nonlinear_arith)
        requires
            s[1] == quad_vertex(1) && s[2] == quad_vertex(2) && s[3] == quad_vertex(3),
    ;
}

/// A polygonal quad, described by its builder: it is drawn as a triangle strip.
///
/// By default, the quad is a square of side 2 centred on the origin, in the XY
/// plane and facing the negative Z axis, so that it can serve directly as
/// geometry for screen-aligned effects. This can be overridden using the
/// transformation methods. The geometry suits OpenGL defaults: in a
/// right-handed coordinate system, front faces wind counter-clockwise. Vertex
/// normals point along the face, and texture coordinates define a planar
/// projection on it.
pub struct QuadBuilder<S> {
    transform: ModelTransform<S>,
}

impl<S> QuadBuilder<S> {
    /// The transformation steps recorded so far.
    pub closed spec fn transforms(&self) -> Seq<Transform<S>> {
        self.transform@
    }

    /// Create a new `QuadBuilder` object, with no transformation.
    pub fn new() -> (r: Self)
        ensures
            r.transforms() == Seq::<Transform<S>>::empty(),
    {
        QuadBuilder { transform: ModelTransform::identity() }
    }

    /// Apply a scaling transformation to the shape.
    ///
    /// The `scale`, `translate`, and `rotate` functions accumulate, and are not
    /// commutative: each acts on the result of the calls before it.
    pub fn scale(self, x: S, y: S, z: S) -> (r: Self)
        ensures
            r.transforms() == self.transforms().push(Transform::Scale(x, y, z)),
    {
        QuadBuilder { transform: self.transform.with_step(Transform::Scale(x, y, z)) }
    }

    /// Apply a translation transformation to the shape.
    ///
    /// The `scale`, `translate`, and `rotate` functions accumulate, and are not
    /// commutative: each acts on the result of the calls before it.
    pub fn translate(self, x: S, y: S, z: S) -> (r: Self)
        ensures
            r.transforms() == self.transforms().push(Transform::Translate(x, y, z)),
    {
        QuadBuilder { transform: self.transform.with_step(Transform::Translate(x, y, z)) }
    }

    /// Apply a rotation transformation to the shape about the x-axis.
    ///
    /// The `scale`, `translate`, and `rotate` functions accumulate, and are not
    /// commutative: each acts on the result of the calls before it.
    pub fn rotate_x(self, radians: S) -> (r: Self)
        ensures
            r.transforms() == self.transforms().push(Transform::RotateX(radians)),
    {
        QuadBuilder { transform: self.transform.with_step(Transform::RotateX(radians)) }
    }

    /// Apply a rotation transformation to the shape about the y-axis.
    ///
    /// The `scale`, `translate`, and `rotate` functions accumulate, and are not
    /// commutative: each acts on the result of the calls before it.
    pub fn rotate_y(self, radians: S) -> (r: Self)
        ensures
            r.transforms() == self.transforms().push(Transform::RotateY(radians)),
    {
        QuadBuilder { transform: self.transform.with_step(Transform::RotateY(radians)) }
    }

    /// Apply a rotation transformation to the shape about the z-axis.
    ///
    /// The `scale`, `translate`, and `rotate` functions accumulate, and are not
    /// commutative: each acts on the result of the calls before it.
    pub fn rotate_z(self, radians: S) -> (r: Self)
        ensures
            r.transforms() == self.transforms().push(Transform::RotateZ(radians)),
    {
        QuadBuilder { transform: self.transform.with_step(Transform::RotateZ(radians)) }
    }

    /// The accumulated model-space transform, to apply to the vertices.
    pub fn transform(&self) -> (r: &ModelTransform<S>)
        ensures
            r@ == self.transforms(),
    {
        &self.transform
    }

    /// How the vertices are split into primitives: a triangle strip, read as the
    /// two counter-clockwise triangles `{0, 1, 2}` and `{2, 1, 3}`.
    pub fn topology(&self) -> (r: Topology)
        ensures
            r == Topology::TriangleStrip,
    {
        Topology::TriangleStrip
    }

    /// Build the quad's vertices, in model space, and return them in a vector.
    /// This never fails.
    pub fn build_vertices(&self) -> (r: Result<Vec<LatticeVertex>, ShapeCreationError>)
        ensures
            r is Ok,
            r matches Ok(vertices) ==> vertices@ == quad_vertices() && is_default_quad(vertices@),
    {
        let mut vertices: Vec<LatticeVertex> = Vec::with_capacity(VERTS_PER_QUAD);
        let mut vert: usize = 0;
        while vert < VERTS_PER_QUAD
            invariant
                vert <= VERTS_PER_QUAD,
                vertices@ =~= quad_vertices().take(vert as int),
            decreases VERTS_PER_QUAD - vert,
        {
            let u = vert / 2;
            let v = vert % 2;
            vertices.push(
                LatticeVertex {
                    doubled_position: ((4 * u) as i32 - 2, (4 * v) as i32 - 2, 0),
                    normal: (0, 0, -1),
                    texcoord: (u as u32, v as u32),
                },
            );
            proof {
                assert(quad_vertices().take(vert + 1) =~= quad_vertices().take(vert as int).push(quad_vertex(vert as int)));
            }
            vert += 1;
        }
        proof {
            assert(quad_vertices().take(4) =~= quad_vertices());
            lemma_quad_tessellation();
        }
        Ok(vertices)
    }
}

impl<S> Default for QuadBuilder<S> {
    fn default() -> (r: Self)
        ensures
            r.transforms() == Seq::<Transform<S>>::empty(),
    {
        QuadBuilder::new()
    }
}

} // verus!
