//! A module for constructing sphere shapes.
//!
//! The sphere is a UV-sphere sampled on a longitude/latitude grid of
//! `u_divisions` by `v_divisions` cells. Latitude band `v` lies between polar
//! angles `π·v/v_divisions` and `π·(v + 1)/v_divisions`. The first and the last
//! band are caps: each of their cells collapses to one triangle that touches a
//! pole. Every other band is a slice whose cells are planar quads split into two
//! triangles. All vertices of a cell share the cell's facet normal.
use vstd::prelude::*;

use crate::errors::ShapeCreationError;
use crate::transform::{ModelTransform, Transform};
use crate::vertex::Topology;
use vstd::arithmetic::div_mod::{lemma_mod_self_0, lemma_small_mod};
use vstd::arithmetic::mul::{lemma_mul_is_distributive_add, lemma_mul_is_distributive_sub, lemma_mul_inequality};

verus! {

/// The corner of a grid cell that each of a cell's six triangle slots uses.
///
/// For the cell at longitude step `u` and latitude step `v`, corner 0 is
/// `(u + 1, v)`, corner 1 is `(u + 1, v + 1)`, corner 2 is `(u, v)` and corner 3
/// is `(u, v + 1)`. Slots 0..3 and 3..6 are the cell's two counter-clockwise
/// triangles. The top cap uses slots 3..6 only and the bottom cap slots 0..3
/// only; changing this mapping flips the caps' winding.
pub const CELL_SLOTS: [usize; 6] = [0, 1, 2, 2, 1, 3];

/// A sample of the sphere's grid: the unit-sphere point at longitude
/// `2π·lon/u_divisions` and polar angle `π·lat/v_divisions`, that is
/// `(cos(lon angle)·sin(polar angle), cos(polar angle), sin(lon angle)·sin(polar angle))`.
#[derive(Clone, Copy, Debug, PartialEq, Eq, Structural)]
pub struct GridPoint {
    /// The longitude step, below `u_divisions`.
    pub lon: usize,
    /// The latitude step, from 0 (north pole) to `v_divisions` (south pole).
    pub lat: usize,
}

/// One vertex of the sphere, in model space, before the builder's transform is
/// applied.
#[derive(Clone, Copy, Debug, PartialEq, Eq)]
pub struct SphereVertex {
    /// The grid sample the vertex lies on.
    pub position: GridPoint,
    /// The three grid samples of the cell's first emitted triangle. The facet
    /// normal shared by the whole cell is the normalized cross product
    /// `(b - a) × (c - a)` of their points `(a, b, c)`.
    pub facet: (GridPoint, GridPoint, GridPoint),
    /// The numerators of the texture coordinate, whose denominators are
    /// `u_divisions` and `v_divisions`. The longitude numerator is not wrapped:
    /// the seam of the sphere reaches `u_divisions`.
    pub texcoord: (usize, usize),
}

/// The grid sample at `corner` (0..4) of the cell `(u, v)`, with `us` longitude steps.
pub open spec fn corner_point(us: int, u: int, v: int, corner: int) -> GridPoint {
    let lon = if corner <= 1 { (u + 1) % us } else { u };
    let lat = if corner % 2 == 1 { v + 1 } else { v };
    GridPoint { lon: lon as usize, lat: lat as usize }
}

/// The texture-coordinate numerators at `corner` (0..4) of the cell `(u, v)`.
pub open spec fn corner_texcoord(u: int, v: int, corner: int) -> (usize, usize) {
    let s = if corner <= 1 { u + 1 } else { u };
    let t = if corner % 2 == 1 { v + 1 } else { v };
    (s as usize, t as usize)
}

/// The first slot and the number of slots emitted for a cell of band `v`, out of
/// `vs` bands: the top cap emits slots 3..6, the bottom cap slots 0..3 and a
/// slice all six.
pub open spec fn cell_slot_range(vs: int, v: int) -> (int, int) {
    if v == 0 {
        (3, 3)
    } else if v == vs - 1 {
        (0, 3)
    } else {
        (0, 6)
    }
}

/// The facet of the cell `(u, v)`: the corners of its first emitted triangle.
pub open spec fn cell_facet(us: int, vs: int, u: int, v: int) -> (GridPoint, GridPoint, GridPoint) {
    let first = cell_slot_range(vs, v).0;
    (
        corner_point(us, u, v, CELL_SLOTS@[first] as int),
        corner_point(us, u, v, CELL_SLOTS@[first + 1] as int),
        corner_point(us, u, v, CELL_SLOTS@[first + 2] as int),
    )
}

/// The vertex that slot `slot` of the cell `(u, v)` emits.
pub open spec fn cell_vertex(us: int, vs: int, u: int, v: int, slot: int) -> SphereVertex {
    let corner = CELL_SLOTS@[slot] as int;
    SphereVertex {
        position: corner_point(us, u, v, corner),
        facet: cell_facet(us, vs, u, v),
        texcoord: corner_texcoord(u, v, corner),
    }
}

/// The vertices that the cell `(u, v)` emits, in order.
pub open spec fn cell_vertices(us: int, vs: int, u: int, v: int) -> Seq<SphereVertex> {
    let (first, count) = cell_slot_range(vs, v);
    Seq::new(count as nat, |k: int| cell_vertex(us, vs, u, v, first + k))
}

/// The vertices of the first `n` cells of band `v`.
pub open spec fn band_vertices(us: int, vs: int, v: int, n: int) -> Seq<SphereVertex>
    decreases n,
{
    if n <= 0 {
        Seq::empty()
    } else {
        band_vertices(us, vs, v, n - 1) + cell_vertices(us, vs, n - 1, v)
    }
}

/// The vertices of the first `m` bands of a sphere of `us` by `vs` cells.
pub open spec fn sphere_vertices(us: int, vs: int, m: int) -> Seq<SphereVertex>
    decreases m,
{
    if m <= 0 {
        Seq::empty()
    } else {
        sphere_vertices(us, vs, m - 1) + band_vertices(us, vs, m - 1, us)
    }
}

/// The number of vertices of a sphere of `us` by `vs` cells: six for each cell of
/// the `vs - 2` slices, three for each cell of the two caps.
pub open spec fn sphere_vertex_count(us: int, vs: int) -> int {
    6 * us * (vs - 2) + 3 * us * 2
}

/// Every triangle of `s` (each aligned triple of vertices) shares one facet, and
/// every vertex lies on the grid of a sphere of `us` by `vs` cells.
pub open spec fn faceted_on_grid(s: Seq<SphereVertex>, us: int, vs: int) -> bool {
    &&& s.len() % 3 == 0
    &&& forall|i: int, j: int|
        0 <= i < s.len() && 0 <= j < s.len() && i / 3 == j / 3 ==> #[trigger] s[i].facet
            == #[trigger] s[j].facet
    &&& forall|i: int|
        0 <= i < s.len() ==> {
            &&& #[trigger] s[i].position.lon < us
            &&& s[i].position.lat <= vs
            &&& s[i].texcoord.0 <= us
            &&& s[i].texcoord.1 <= vs
        }
}

/// Twice the signed area of the triangle `(a, b, c)` of texture-coordinate
/// numerators.
pub open spec fn texture_area2(a: (usize, usize), b: (usize, usize), c: (usize, usize)) -> int {
    (b.0 - a.0) * (c.1 - a.1) - (b.1 - a.1) * (c.0 - a.0)
}

/// The grid samples `g` and `h` of a sphere of `vs` latitude steps are the same
/// point of the sphere: the same sample, or two samples of one pole.
pub open spec fn same_point(g: GridPoint, h: GridPoint, vs: int) -> bool {
    ||| g == h
    ||| g.lat == 0 && h.lat == 0
    ||| g.lat == vs && h.lat == vs
}

/// Triangle `t` of `s` (vertices `3t`, `3t + 1`, `3t + 2`) joins three distinct
/// points of a sphere of `vs` latitude steps, and turns positively in texture
/// space. Texture coordinates follow longitude and polar angle, so triangles
/// that all turn positively there all wind counter-clockwise seen from outside.
pub open spec fn proper_triangle(s: Seq<SphereVertex>, t: int, vs: int) -> bool {
    let a = s[3 * t];
    let b = s[3 * t + 1];
    let c = s[3 * t + 2];
    &&& !same_point(a.position, b.position, vs)
    &&& !same_point(a.position, c.position, vs)
    &&& !same_point(b.position, c.position, vs)
    &&& texture_area2(a.texcoord, b.texcoord, c.texcoord) > 0
}

/// Every triangle of `s` is proper.
pub open spec fn properly_wound(s: Seq<SphereVertex>, vs: int) -> bool {
    forall|t: int| 0 <= t < s.len() / 3 ==> #[trigger] proper_triangle(s, t, vs)
}

proof fn lemma_concat_properly_wound(a: Seq<SphereVertex>, b: Seq<SphereVertex>, vs: int)
    requires
        a.len() % 3 == 0,
        b.len() % 3 == 0,
        properly_wound(a, vs),
        properly_wound(b, vs),
    ensures
        properly_wound(a + b, vs),
{
    let s = a + b;
    let m = a.len() / 3;
    assert forall|t: int| 0 <= t < s.len() / 3 implies #[trigger] proper_triangle(s, t, vs) by {
        if t < m {
            assert(proper_triangle(a, t, vs));
            assert(s[3 * t] == a[3 * t] && s[3 * t + 1] == a[3 * t + 1] && s[3 * t + 2] == a[3 * t + 2]);
        } else {
            assert(proper_triangle(b, t - m, vs));
            assert(3 * (t - m) == 3 * t - a.len());
            assert(s[3 * t] == b[3 * (t - m)]);
            assert(s[3 * t + 1] == b[3 * (t - m) + 1]);
            assert(s[3 * t + 2] == b[3 * (t - m) + 2]);
        }
    }
}

proof fn lemma_concat_faceted_on_grid(a: Seq<SphereVertex>, b: Seq<SphereVertex>, us: int, vs: int)
    requires
        faceted_on_grid(a, us, vs),
        faceted_on_grid(b, us, vs),
    ensures
        faceted_on_grid(a + b, us, vs),
{
    let s = a + b;
    let n = a.len() as int;
    assert forall|i: int, j: int|
        0 <= i < s.len() && 0 <= j < s.len() && i / 3 == j / 3 implies #[trigger] s[i].facet
            == #[trigger] s[j].facet by {
        if i < n && j < n {
            assert(s[i] == a[i] && s[j] == a[j]);
        } else if i >= n && j >= n {
            assert(s[i] == b[i - n] && s[j] == b[j - n]);
            assert((i - n) / 3 == (j - n) / 3);
        } else {
            assert(i / 3 != j / 3);
        }
    }
    assert forall|i: int| 0 <= i < s.len() implies {
        &&& #[trigger] s[i].position.lon < us
        &&& s[i].position.lat <= vs
        &&& s[i].texcoord.0 <= us
        &&& s[i].texcoord.1 <= vs
    } by {
        if i < n {
            assert(s[i] == a[i]);
        } else {
            assert(s[i] == b[i - n]);
        }
    }
}

proof fn lemma_cell(us: int, vs: int, u: int, v: int)
    requires
        3 <= us < usize::MAX,
        vs < usize::MAX,
        0 <= u < us,
        0 <= v < vs,
        2 <= vs,
    ensures
        faceted_on_grid(cell_vertices(us, vs, u, v), us, vs),
        properly_wound(cell_vertices(us, vs, u, v), vs),
        cell_vertices(us, vs, u, v).len() == cell_slot_range(vs, v).1,
{
    let s = cell_vertices(us, vs, u, v);
    let next = (u + 1) % us;
    if u + 1 < us {
        lemma_small_mod((u + 1) as nat, us as nat);
    } else {
        lemma_mod_self_0(us);
    }
    assert(next != u);
    let count = cell_slot_range(vs, v).1;
    // The corners of the cell, as grid samples and as texture numerators.
    let p0 = GridPoint { lon: next as usize, lat: v as usize };
    let p1 = GridPoint { lon: next as usize, lat: (v + 1) as usize };
    let p2 = GridPoint { lon: u as usize, lat: v as usize };
    let p3 = GridPoint { lon: u as usize, lat: (v + 1) as usize };
    let t0 = ((u + 1) as usize, v as usize);
    let t1 = ((u + 1) as usize, (v + 1) as usize);
    let t2 = (u as usize, v as usize);
    let t3 = (u as usize, (v + 1) as usize);
    assert(texture_area2(t0, t1, t2) == 1) by (nonlinear_arith)
        requires
            t0 == ((u + 1) as usize, v as usize),
            t1 == ((u + 1) as usize, (v + 1) as usize),
            t2 == (u as usize, v as usize),
            0 <= u,
            u + 1 < usize::MAX,
            0 <= v,
            v + 1 < usize::MAX,
    ;
    assert(texture_area2(t2, t1, t3) == 1) by (nonlinear_arith)
        requires
            t1 == ((u + 1) as usize, (v + 1) as usize),
            t2 == (u as usize, v as usize),
            t3 == (u as usize, (v + 1) as usize),
            0 <= u,
            u + 1 < usize::MAX,
            0 <= v,
            v + 1 < usize::MAX,
    ;
    if v == 0 {
        assert(s[0].position == p2 && s[1].position == p1 && s[2].position == p3);
        assert(s[0].texcoord == t2 && s[1].texcoord == t1 && s[2].texcoord == t3);
        assert(proper_triangle(s, 0, vs));
    } else {
        assert(s[0].position == p0 && s[1].position == p1 && s[2].position == p2);
        assert(s[0].texcoord == t0 && s[1].texcoord == t1 && s[2].texcoord == t2);
        assert(proper_triangle(s, 0, vs));
        if count == 6 {
            assert(s[3].position == p2 && s[4].position == p1 && s[5].position == p3);
            assert(s[3].texcoord == t2 && s[4].texcoord == t1 && s[5].texcoord == t3);
            assert(proper_triangle(s, 1, vs));
        }
    }
    assert forall|t: int| 0 <= t < s.len() / 3 implies #[trigger] proper_triangle(s, t, vs) by {
        assert(t == 0 || t == 1);
    }
    assert forall|i: int| 0 <= i < s.len() implies {
        &&& #[trigger] s[i].position.lon < us
        &&& s[i].position.lat <= vs
        &&& s[i].texcoord.0 <= us
        &&& s[i].texcoord.1 <= vs
    } by {
        let slot = cell_slot_range(vs, v).0 + i;
        assert(CELL_SLOTS@[slot] <= 3);
    }
}

proof fn lemma_band(us: int, vs: int, v: int, n: int)
    requires
        3 <= us < usize::MAX,
        vs < usize::MAX,
        0 <= n <= us,
        0 <= v < vs,
        2 <= vs,
    ensures
        faceted_on_grid(band_vertices(us, vs, v, n), us, vs),
        properly_wound(band_vertices(us, vs, v, n), vs),
        band_vertices(us, vs, v, n).len() == if v == 0 || v == vs - 1 { 3 * n } else { 6 * n },
    decreases n,
{
    if n > 0 {
        lemma_band(us, vs, v, n - 1);
        lemma_cell(us, vs, n - 1, v);
        lemma_concat_faceted_on_grid(band_vertices(us, vs, v, n - 1), cell_vertices(us, vs, n - 1, v), us, vs);
        lemma_concat_properly_wound(band_vertices(us, vs, v, n - 1), cell_vertices(us, vs, n - 1, v), vs);
    }
}

proof fn lemma_sphere(us: int, vs: int, m: int)
    requires
        0 <= m <= vs,
        2 <= vs < usize::MAX,
        3 <= us < usize::MAX,
    ensures
        faceted_on_grid(sphere_vertices(us, vs, m), us, vs),
        properly_wound(sphere_vertices(us, vs, m), vs),
        m < vs ==> sphere_vertices(us, vs, m).len() == if m == 0 { 0 } else { 6 * us * (m - 1) + 3 * us },
        m == vs ==> sphere_vertices(us, vs, m).len() == sphere_vertex_count(us, vs),
    decreases m,
{
    if m > 0 {
        lemma_sphere(us, vs, m - 1);
        lemma_band(us, vs, m - 1, us);
        lemma_concat_faceted_on_grid(sphere_vertices(us, vs, m - 1), band_vertices(us, vs, m - 1, us), us, vs);
        lemma_concat_properly_wound(sphere_vertices(us, vs, m - 1), band_vertices(us, vs, m - 1, us), vs);
        if m >= 2 {
            lemma_mul_is_distributive_add(6 * us, m - 2, 1);
        }
    }
}

/// The tessellation of a sphere of `us` by `vs` cells is exactly
/// `sphere_vertex_count(us, vs)` vertices long, and its vertices come in
/// triangles whose three vertices share one facet normal (faceted shading), all
/// on the sphere's grid. Every triangle joins three distinct points of the
/// sphere, and all of them wind the same way.
pub proof fn lemma_sphere_tessellation(us: int, vs: int)
    requires
        3 <= us < usize::MAX,
        2 <= vs < usize::MAX,
    ensures
        sphere_vertices(us, vs, vs).len() == sphere_vertex_count(us, vs),
        faceted_on_grid(sphere_vertices(us, vs, vs), us, vs),
        properly_wound(sphere_vertices(us, vs, vs), vs),
{
    lemma_sphere(us, vs, vs);
}

/// A polygonal sphere object, described by its builder: it is drawn as a
/// triangle list.
///
/// By default, the sphere is a unit sphere (radius 1) centred on the origin.
/// This can be overridden using the transformation methods. The geometry suits
/// OpenGL defaults: in a right-handed coordinate system, front faces wind
/// counter-clockwise. Vertex normals point along their face, so that the shape
/// appears faceted when lit, and texture coordinates define a spherical
/// projection.
pub struct SphereBuilder<S> {
    transform: ModelTransform<S>,
    u_divisions: usize,
    v_divisions: usize,
}

impl<S> SphereBuilder<S> {
    /// The number of longitude steps.
    pub closed spec fn u_divisions(&self) -> nat {
        self.u_divisions as nat
    }

    /// The number of latitude steps.
    pub closed spec fn v_divisions(&self) -> nat {
        self.v_divisions as nat
    }

    /// The transformation steps recorded so far.
    pub closed spec fn transforms(&self) -> Seq<Transform<S>> {
        self.transform@
    }

    /// Create a new `SphereBuilder` object: 24 by 12 divisions, no transformation.
    pub fn new() -> (r: Self)
        ensures
            r.u_divisions() == 24,
            r.v_divisions() == 12,
            r.transforms() == Seq::<Transform<S>>::empty(),
    {
        SphereBuilder { transform: ModelTransform::identity(), u_divisions: 24, v_divisions: 12 }
    }

    /// Specify the number of divisions to make in the u direction (around the
    /// sphere) and the v direction (from pole to pole).
    pub fn with_divisions(self, u: usize, v: usize) -> (r: Self)
        ensures
            r.u_divisions() == u,
            r.v_divisions() == v,
            r.transforms() == self.transforms(),
    {
        SphereBuilder { transform: self.transform, u_divisions: u, v_divisions: v }
    }

    /// Apply a scaling transformation to the shape.
    ///
    /// The `scale`, `translate`, and `rotate` functions accumulate, and are not
    /// commutative: each acts on the result of the calls before it.
    pub fn scale(self, x: S, y: S, z: S) -> (r: Self)
        ensures
            r.transforms() == self.transforms().push(Transform::Scale(x, y, z)),
            r.u_divisions() == self.u_divisions(),
            r.v_divisions() == self.v_divisions(),
    {
        SphereBuilder { transform: self.transform.with_step(Transform::Scale(x, y, z)), ..self }
    }

    /// Apply a translation transformation to the shape.
    ///
    /// The `scale`, `translate`, and `rotate` functions accumulate, and are not
    /// commutative: each acts on the result of the calls before it.
    pub fn translate(self, x: S, y: S, z: S) -> (r: Self)
        ensures
            r.transforms() == self.transforms().push(Transform::Translate(x, y, z)),
            r.u_divisions() == self.u_divisions(),
            r.v_divisions() == self.v_divisions(),
    {
        SphereBuilder { transform: self.transform.with_step(Transform::Translate(x, y, z)), ..self }
    }

    /// Apply a rotation transformation to the shape about the x-axis.
    ///
    /// The `scale`, `translate`, and `rotate` functions accumulate, and are not
    /// commutative: each acts on the result of the calls before it.
    pub fn rotate_x(self, radians: S) -> (r: Self)
        ensures
            r.transforms() == self.transforms().push(Transform::RotateX(radians)),
            r.u_divisions() == self.u_divisions(),
            r.v_divisions() == self.v_divisions(),
    {
        SphereBuilder { transform: self.transform.with_step(Transform::RotateX(radians)), ..self }
    }

    /// Apply a rotation transformation to the shape about the y-axis.
    ///
    /// The `scale`, `translate`, and `rotate` functions accumulate, and are not
    /// commutative: each acts on the result of the calls before it.
    pub fn rotate_y(self, radians: S) -> (r: Self)
        ensures
            r.transforms() == self.transforms().push(Transform::RotateY(radians)),
            r.u_divisions() == self.u_divisions(),
            r.v_divisions() == self.v_divisions(),
    {
        SphereBuilder { transform: self.transform.with_step(Transform::RotateY(radians)), ..self }
    }

    /// Apply a rotation transformation to the shape about the z-axis.
    ///
    /// The `scale`, `translate`, and `rotate` functions accumulate, and are not
    /// commutative: each acts on the result of the calls before it.
    pub fn rotate_z(self, radians: S) -> (r: Self)
        ensures
            r.transforms() == self.transforms().push(Transform::RotateZ(radians)),
            r.u_divisions() == self.u_divisions(),
            r.v_divisions() == self.v_divisions(),
    {
        SphereBuilder { transform: self.transform.with_step(Transform::RotateZ(radians)), ..self }
    }

    /// The accumulated model-space transform, to apply to the vertices.
    pub fn transform(&self) -> (r: &ModelTransform<S>)
        ensures
            r@ == self.transforms(),
    {
        &self.transform
    }

    /// The numbers of divisions in the u and v directions.
    pub fn divisions(&self) -> (r: (usize, usize))
        ensures
            r.0 == self.u_divisions(),
            r.1 == self.v_divisions(),
    {
        (self.u_divisions, self.v_divisions)
    }

    /// How the vertices are split into primitives: a triangle list.
    pub fn topology(&self) -> (r: Topology)
        ensures
            r == Topology::TrianglesList,
    {
        Topology::TrianglesList
    }

    /// The grid sample at `corner` of the cell `(u, v)`.
    fn corner(&self, u: usize, v: usize, corner: usize) -> (r: GridPoint)
        requires
            u < self.u_divisions,
            v < self.v_divisions,
            corner < 4,
        ensures
            r == corner_point(self.u_divisions as int, u as int, v as int, corner as int),
    {
        let lon = if corner <= 1 { (u + 1) % self.u_divisions } else { u };
        let lat = if corner % 2 == 1 { v + 1 } else { v };
        GridPoint { lon, lat }
    }

    /// Build the shape's vertices, in model space, and return them in a vector.
    ///
    /// Fails, before any vertex is made, when there are fewer than 3 divisions
    /// in u or fewer than 2 in v. Otherwise the vertices are those of the
    /// tessellation that the module describes, cell by cell: bands from the
    /// north pole down, and cells in a band by increasing longitude.
    pub fn build_vertices(&self) -> (r: Result<Vec<SphereVertex>, ShapeCreationError>)
        requires
            3 <= self.u_divisions() && 2 <= self.v_divisions() ==> 6 * self.u_divisions()
                * self.v_divisions() <= usize::MAX,
        ensures
            match r {
                Ok(vertices) => {
                    &&& 3 <= self.u_divisions()
                    &&& 2 <= self.v_divisions()
                    &&& vertices@ == sphere_vertices(
                        self.u_divisions() as int,
                        self.v_divisions() as int,
                        self.v_divisions() as int,
                    )
                    &&& vertices@.len() == sphere_vertex_count(
                        self.u_divisions() as int,
                        self.v_divisions() as int,
                    )
                    &&& faceted_on_grid(
                        vertices@,
                        self.u_divisions() as int,
                        self.v_divisions() as int,
                    )
                    &&& properly_wound(vertices@, self.v_divisions() as int)
                },
                Err(e) => {
                    ||| self.u_divisions() < 3 && e is NotEnoughDivisionsInU
                    ||| 3 <= self.u_divisions() && self.v_divisions() < 2 && e is NotEnoughDivisionsInV
                },
            },
    {
        if self.u_divisions < 3 {
            return Err(ShapeCreationError::NotEnoughDivisionsInU);
        }
        if self.v_divisions < 2 {
            return Err(ShapeCreationError::NotEnoughDivisionsInV);
        }
        let us = self.u_divisions;
        let vs = self.v_divisions;
        let total = self.num_vertices();
        let ghost gus = us as int;
        let ghost gvs = vs as int;
        let mut vertices: Vec<SphereVertex> = Vec::with_capacity(total);
        let mut v: usize = 0;
        while v < vs
            invariant
                us == self.u_divisions,
                vs == self.v_divisions,
                gus == us,
                gvs == vs,
                3 <= us,
                2 <= vs,
                v <= vs,
                vertices@ == sphere_vertices(gus, gvs, v as int),
            decreases vs - v,
        {
            let (first, count): (usize, usize) = if v == 0 {
                (3, 3)
            } else if v == vs - 1 {
                (0, 3)
            } else {
                (0, 6)
            };
            let mut u: usize = 0;
            while u < us
                invariant
                    us == self.u_divisions,
                    vs == self.v_divisions,
                    gus == us,
                    gvs == vs,
                    3 <= us,
                    v < vs,
                    u <= us,
                    (first as int, count as int) == cell_slot_range(gvs, v as int),
                    vertices@ == sphere_vertices(gus, gvs, v as int) + band_vertices(
                        gus,
                        gvs,
                        v as int,
                        u as int,
                    ),
                decreases us - u,
            {
                let facet = (
                    self.corner(u, v, CELL_SLOTS[first]),
                    self.corner(u, v, CELL_SLOTS[first + 1]),
                    self.corner(u, v, CELL_SLOTS[first + 2]),
                );
                let ghost before = vertices@;
                let mut k: usize = 0;
                while k < count
                    invariant
                        us == self.u_divisions,
                        vs == self.v_divisions,
                        gus == us,
                        gvs == vs,
                        u < us,
                        v < vs,
                        k <= count,
                        (first as int, count as int) == cell_slot_range(gvs, v as int),
                        facet == cell_facet(gus, gvs, u as int, v as int),
                        vertices@ == before + cell_vertices(gus, gvs, u as int, v as int).take(
                            k as int,
                        ),
                    decreases count - k,
                {
                    let corner = CELL_SLOTS[first + k];
                    let s = if corner <= 1 { u + 1 } else { u };
                    let t = if corner % 2 == 1 { v + 1 } else { v };
                    vertices.push(
                        SphereVertex {
                            position: self.corner(u, v, corner),
                            facet,
                            texcoord: (s, t),
                        },
                    );
                    proof {
                        assert(cell_vertices(gus, gvs, u as int, v as int).take(k + 1) =~= cell_vertices(
                            gus,
                            gvs,
                            u as int,
                            v as int,
                        ).take(k as int).push(cell_vertex(gus, gvs, u as int, v as int, first + k)));
                    }
                    k += 1;
                }
                proof {
                    assert(cell_vertices(gus, gvs, u as int, v as int).take(count as int) =~= cell_vertices(
                        gus,
                        gvs,
                        u as int,
                        v as int,
                    ));
                    assert(band_vertices(gus, gvs, v as int, u + 1) == band_vertices(
                        gus,
                        gvs,
                        v as int,
                        u as int,
                    ) + cell_vertices(gus, gvs, u as int, v as int));
                    assert(vertices@ =~= sphere_vertices(gus, gvs, v as int) + band_vertices(
                        gus,
                        gvs,
                        v as int,
                        u + 1,
                    ));
                }
                u += 1;
            }
            v += 1;
        }
        proof {
            assert(gus < usize::MAX && gvs < usize::MAX) by (nonlinear_arith)
                requires
                    3 <= gus,
                    2 <= gvs,
                    6 * gus * gvs <= usize::MAX,
            ;
            lemma_sphere_tessellation(gus, gvs);
        }
        Ok(vertices)
    }

    /// Returns the number of caps in the resultant sphere geometry: always 2.
    pub fn num_caps(&self) -> (r: usize)
        ensures
            r == 2,
    {
        2
    }

    /// Returns the number of vertices generated for each cap face: always 3.
    pub fn num_vertices_per_cap_face(&self) -> (r: usize)
        ensures
            r == 3,
    {
        3
    }

    /// Returns the total number of vertices in each cap.
    pub fn num_vertices_per_cap(&self) -> (r: usize)
        requires
            3 * self.u_divisions() <= usize::MAX,
        ensures
            r == 3 * self.u_divisions(),
    {
        self.num_vertices_per_cap_face() * self.u_divisions
    }

    /// Returns the number of slices (the bands between the two caps) in the
    /// resultant sphere geometry.
    pub fn num_slices(&self) -> (r: usize)
        requires
            2 <= self.v_divisions(),
        ensures
            r == self.v_divisions() - 2,
    {
        self.v_divisions - self.num_caps()
    }

    /// Returns the number of vertices generated for each slice face: always 6.
    pub fn num_vertices_per_slice_face(&self) -> (r: usize)
        ensures
            r == 6,
    {
        6
    }

    /// Returns the total number of vertices in each slice.
    pub fn num_vertices_per_slice(&self) -> (r: usize)
        requires
            6 * self.u_divisions() <= usize::MAX,
        ensures
            r == 6 * self.u_divisions(),
    {
        self.num_vertices_per_slice_face() * self.u_divisions
    }

    /// Returns the total number of vertices that the builder generates.
    pub fn num_vertices(&self) -> (r: usize)
        requires
            2 <= self.v_divisions(),
            6 * self.u_divisions() * self.v_divisions() <= usize::MAX,
        ensures
            r == sphere_vertex_count(self.u_divisions() as int, self.v_divisions() as int),
    {
        let ghost us = self.u_divisions as int;
        let ghost vs = self.v_divisions as int;
        proof {
            lemma_mul_is_distributive_sub(6 * us, vs, 2);
            lemma_mul_inequality(2, vs, 6 * us);
            lemma_mul_inequality(0, vs - 2, 6 * us);
        }
        (self.num_vertices_per_slice() * self.num_slices()) + (self.num_vertices_per_cap()
            * self.num_caps())
    }
}

impl<S> Default for SphereBuilder<S> {
    fn default() -> (r: Self)
        ensures
            r.u_divisions() == 24,
            r.v_divisions() == 12,
            r.transforms() == Seq::<Transform<S>>::empty(),
    {
        SphereBuilder::new()
    }
}

} // verus!
