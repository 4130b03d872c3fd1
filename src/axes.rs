//! A module for constructing axes locator shapes.
use vstd::prelude::*;

use crate::errors::ShapeCreationError;
use crate::transform::{ModelTransform, Transform};
use crate::vertex::{cross3, lattice, LatticeVertex, Topology};

verus! {

/// The number of axes: x, y and z.
pub const NUM_AXES: usize = 3;

/// The number of vertices of each axis line.
pub const VERTS_PER_AXIS: usize = 2;

/// The unit vector along axis `axis` (0 for x, 1 for y, 2 for z).
pub open spec fn unit_axis(axis: int) -> (i32, i32, i32) {
    if axis == 0 {
        (1i32, 0i32, 0i32)
    } else if axis == 1 {
        (0i32, 1i32, 0i32)
    } else {
        (0i32, 0i32, 1i32)
    }
}

/// Vertex `k` (0..6) of the axes: end `k % 2` (0 at the origin, 1 one unit
/// out) of axis `k / 2`. Its normal is the axis direction and its texture
/// coordinate is `(end, axis)`.
pub open spec fn axes_vertex(k: int) -> LatticeVertex {
    let axis = k / 2;
    let end = k % 2;
    let d = unit_axis(axis);
    LatticeVertex {
        doubled_position: if end == 0 {
            (0i32, 0i32, 0i32)
        } else {
            ((2 * d.0) as i32, (2 * d.1) as i32, (2 * d.2) as i32)
        },
        normal: d,
        texcoord: (end as u32, axis as u32),
    }
}

/// The six vertices of the axes: three line segments.
pub open spec fn axes_vertices() -> Seq<LatticeVertex> {
    Seq::new(6, |k: int| axes_vertex(k))
}

/// The default axes: three segments of unit length, each starting at the
/// origin and ending one unit out along its axis, so that every position lies in
/// `[0, 1]³`; both ends of a segment carry its direction as their normal; and the
/// three directions are orthogonal and right-handed (x × y = z).
pub open spec fn is_default_axes(s: Seq<LatticeVertex>) -> bool {
    &&& s.len() == 6
    &&& forall|a: int|
        0 <= a < 3 ==> {
            &&& #[trigger] s[2 * a].doubled_position == (0i32, 0i32, 0i32)
            &&& lattice(s[2 * a + 1].doubled_position) == (
                2 * s[2 * a].normal.0,
                2 * s[2 * a].normal.1,
                2 * s[2 * a].normal.2,
            )
            &&& s[2 * a].normal == s[2 * a + 1].normal
            &&& s[2 * a].normal == unit_axis(a)
        }
    &&& forall|i: int|
        0 <= i < 6 ==> {
            let p = #[trigger] s[i].doubled_position;
            &&& 0 <= p.0 <= 2
            &&& 0 <= p.1 <= 2
            &&& 0 <= p.2 <= 2
        }
    &&& cross3(lattice(s[0].normal), lattice(s[2].normal)) == lattice(s[4].normal)
}

/// The axes' tessellation has the shape that `is_default_axes` describes.
pub proof fn lemma_axes_tessellation()
    ensures
        is_default_axes(axes_vertices()),
{
    let s = axes_vertices();
    assert(s[0] == axes_vertex(0) && s[1] == axes_vertex(1) && s[2] == axes_vertex(2));
    assert(s[3] == axes_vertex(3) && s[4] == axes_vertex(4) && s[5] == axes_vertex(5));
    assert forall|a: int| 0 <= a < 3 implies {
        &&& #[trigger] s[2 * a].doubled_position == (0i32, 0i32, 0i32)
        &&& lattice(s[2 * a + 1].doubled_position) == (
            2 * s[2 * a].normal.0,
            2 * s[2 * a].normal.1,
            2 * s[2 * a].normal.2,
        )
        &&& s[2 * a].normal == s[2 * a + 1].normal
        &&& s[2 * a].normal == unit_axis(a)
    } by {
        if a == 0 {
        } else if a == 1 {
        } else {
        }
    }
    assert forall|i: int| 0 <= i < 6 implies {
        let p = #[trigger] s[i].doubled_position;
        &&& 0 <= p.0 <= 2
        &&& 0 <= p.1 <= 2
        &&& 0 <= p.2 <= 2
    } by {
        if i == 0 {
        } else if i == 1 {
        } else if i == 2 {
        } else if i == 3 {
        } else if i == 4 {
        } else {
        }
    }
    assert(cross3(lattice(s[0].normal), lattice(s[2].normal)) == lattice(s[4].normal)) by (nonlinear_arith)
        requires
            s[0] == axes_vertex(0) && s[2] == axes_vertex(2) && s[4] == axes_vertex(4),
    ;
}

/// A set of orthogonal axis lines, described by its builder: they are drawn as
/// a line list.
///
/// By default, each axis line is 1 unit long and starts at the origin. This can
/// be overridden using the transformation methods. Vertex normals give the
/// direction of their axis line; texture coordinates encode the end point in u
/// (0 or 1) and the axis number in v (0, 1 or 2).
pub struct AxesBuilder<S> {
    transform: ModelTransform<S>,
}

impl<S> AxesBuilder<S> {
    /// The transformation steps recorded so far.
    pub closed spec fn transforms(&self) -> Seq<Transform<S>> {
        self.transform@
    }

    /// Create a new `AxesBuilder` object, with no transformation.
    pub fn new() -> (r: Self)
        ensures
            r.transforms() == Seq::<Transform<S>>::empty(),
    {
        AxesBuilder { transform: ModelTransform::identity() }
    }

    /// Apply a scaling transformation to the shape.
    ///
    /// The `scale`, `translate`, and `rotate` functions accumulate, and are not
    /// commutative: each acts on the result of the calls before it.
    pub fn scale(self, x: S, y: S, z: S) -> (r: Self)
        ensures
            r.transforms() == self.transforms().push(Transform::Scale(x, y, z)),
    {
        AxesBuilder { transform: self.transform.with_step(Transform::Scale(x, y, z)) }
    }

    /// Apply a translation transformation to the shape.
    ///
    /// The `scale`, `translate`, and `rotate` functions accumulate, and are not
    /// commutative: each acts on the result of the calls before it.
    pub fn translate(self, x: S, y: S, z: S) -> (r: Self)
        ensures
            r.transforms() == self.transforms().push(Transform::Translate(x, y, z)),
    {
        AxesBuilder { transform: self.transform.with_step(Transform::Translate(x, y, z)) }
    }

    /// Apply a rotation transformation to the shape about the x-axis.
    ///
    /// The `scale`, `translate`, and `rotate` functions accumulate, and are not
    /// commutative: each acts on the result of the calls before it.
    pub fn rotate_x(self, radians: S) -> (r: Self)
        ensures
            r.transforms() == self.transforms().push(Transform::RotateX(radians)),
    {
        AxesBuilder { transform: self.transform.with_step(Transform::RotateX(radians)) }
    }

    /// Apply a rotation transformation to the shape about the y-axis.
    ///
    /// The `scale`, `translate`, and `rotate` functions accumulate, and are not
    /// commutative: each acts on the result of the calls before it.
    pub fn rotate_y(self, radians: S) -> (r: Self)
        ensures
            r.transforms() == self.transforms().push(Transform::RotateY(radians)),
    {
        AxesBuilder { transform: self.transform.with_step(Transform::RotateY(radians)) }
    }

    /// Apply a rotation transformation to the shape about the z-axis.
    ///
    /// The `scale`, `translate`, and `rotate` functions accumulate, and are not
    /// commutative: each acts on the result of the calls before it.
    pub fn rotate_z(self, radians: S) -> (r: Self)
        ensures
            r.transforms() == self.transforms().push(Transform::RotateZ(radians)),
    {
        AxesBuilder { transform: self.transform.with_step(Transform::RotateZ(radians)) }
    }

    /// The accumulated model-space transform, to apply to the vertices.
    pub fn transform(&self) -> (r: &ModelTransform<S>)
        ensures
            r@ == self.transforms(),
    {
        &self.transform
    }

    /// How the vertices are split into primitives: a line list.
    pub fn topology(&self) -> (r: Topology)
        ensures
            r == Topology::LinesList,
    {
        Topology::LinesList
    }

    /// Build the axes' vertices, in model space, and return them in a vector.
    /// This never fails.
    pub fn build_vertices(&self) -> (r: Result<Vec<LatticeVertex>, ShapeCreationError>)
        ensures
            r is Ok,
            r matches Ok(vertices) ==> vertices@ == axes_vertices() && is_default_axes(vertices@),
    {
        let mut vertices: Vec<LatticeVertex> = Vec::with_capacity(VERTS_PER_AXIS * NUM_AXES);
        let mut axis: usize = 0;
        while axis < NUM_AXES
            invariant
                axis <= NUM_AXES,
                vertices@ =~= axes_vertices().take(2 * axis as int),
            decreases NUM_AXES - axis,
        {
            let normal: (i32, i32, i32) = if axis == 0 {
                (1, 0, 0)
            } else if axis == 1 {
                (0, 1, 0)
            } else {
                (0, 0, 1)
            };
            let mut end: usize = 0;
            while end < VERTS_PER_AXIS
                invariant
                    axis < NUM_AXES,
                    end <= VERTS_PER_AXIS,
                    normal == unit_axis(axis as int),
                    vertices@ =~= axes_vertices().take(2 * axis + end),
                decreases VERTS_PER_AXIS - end,
            {
                let position: (i32, i32, i32) = if end == 0 {
                    (0, 0, 0)
                } else {
                    (2 * normal.0, 2 * normal.1, 2 * normal.2)
                };
                vertices.push(
                    LatticeVertex {
                        doubled_position: position,
                        normal,
                        texcoord: (end as u32, axis as u32),
                    },
                );
                proof {
                    assert(axes_vertices().take(2 * axis + end + 1) =~= axes_vertices().take(
                        2 * axis + end,
                    ).push(axes_vertex(2 * axis + end)));
                }
                end += 1;
            }
            axis += 1;
        }
        proof {
            assert(axes_vertices().take(6) =~= axes_vertices());
            lemma_axes_tessellation();
        }
        Ok(vertices)
    }
}

impl<S> Default for AxesBuilder<S> {
    fn default() -> (r: Self)
        ensures
            r.transforms() == Seq::<Transform<S>>::empty(),
    {
        AxesBuilder::new()
    }
}

} // verus!
