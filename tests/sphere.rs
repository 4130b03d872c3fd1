use cgmath::{AbsDiffEq, InnerSpace, UlpsEq, Vector3, Zero};
use glium_shapes::errors::ShapeCreationError;
use glium_shapes::sphere::{GridPoint, SphereBuilder, SphereVertex};
use glium_shapes::transform::Transform;
use glium_shapes::vertex::Topology;

/// The unit-sphere point of a grid sample, computed as the sine and cosine
/// tables of a sphere of `us` by `vs` cells do.
fn point(g: GridPoint, us: usize, vs: usize) -> Vector3<f32> {
    let u_angle = 2.0 * std::f32::consts::PI / us as f32;
    let v_angle = std::f32::consts::PI / vs as f32;
    let lon = g.lon as f32 * u_angle;
    let lat = g.lat as f32 * v_angle;
    Vector3::new(lon.cos() * lat.sin(), lat.cos(), lon.sin() * lat.sin())
}

fn position(v: &SphereVertex, us: usize, vs: usize) -> Vector3<f32> {
    point(v.position, us, vs)
}

fn normal(v: &SphereVertex, us: usize, vs: usize) -> Vector3<f32> {
    let (a, b, c) = v.facet;
    let (a, b, c) = (point(a, us, vs), point(b, us, vs), point(c, us, vs));
    (b - a).cross(c - a).normalize()
}

/// Equal within `epsilon`, or within the default number of units in the last place.
fn close(a: Vector3<f32>, b: Vector3<f32>, epsilon: f32) -> bool {
    a.ulps_eq(&b, epsilon, Vector3::<f32>::default_max_ulps())
}

/// Applies the scale steps that a builder recorded to a position and to a
/// normal; the normal goes through the inverse transpose and is renormalized.
fn scaled(steps: &[Transform<f32>], mut p: Vector3<f32>, mut n: Vector3<f32>) -> (Vector3<f32>, Vector3<f32>) {
    for step in steps {
        match *step {
            Transform::Scale(x, y, z) => {
                p = Vector3::new(p.x * x, p.y * y, p.z * z);
                n = Vector3::new(n.x / x, n.y / y, n.z / z).normalize();
            }
            _ => panic!("only scales are applied here"),
        }
    }
    (p, n)
}

#[test]
fn ensure_default_sphere_is_unit_sphere() {
    let vertices = SphereBuilder::<f32>::new()
        .build_vertices()
        .expect("Failed to build vertices");
    for vertex in vertices.iter() {
        let magnitude = position(vertex, 24, 12).magnitude();
        assert!(magnitude.ulps_eq(&1.0, f32::default_epsilon(), f32::default_max_ulps()));
    }
}

#[test]
fn ensure_default_sphere_has_centroid_at_origin() {
    let vertices = SphereBuilder::<f32>::new()
        .build_vertices()
        .expect("Failed to build vertices");
    let mut sum = Vector3::<f32>::zero();
    for vertex in vertices.iter() {
        sum = sum + position(vertex, 24, 12);
    }
    assert!(close(sum, Vector3::<f32>::zero(), 0.0001));
}

#[test]
fn ensure_default_sphere_has_outward_facing_normals() {
    let builder = SphereBuilder::<f32>::new().scale(2.0, 2.0, 2.0);
    let vertices = builder.build_vertices().expect("Failed to build vertices");
    for vertex in vertices.iter() {
        let (position, normal) = scaled(
            builder.transform().steps(),
            position(vertex, 24, 12),
            normal(vertex, 24, 12),
        );
        let outside = position + normal;
        assert!(outside.x.abs() >= position.x.abs());
        assert!(outside.y.abs() >= position.y.abs());
        assert!(outside.z.abs() >= position.z.abs());
    }
}

#[test]
fn ensure_default_sphere_has_uvs_in_unit_range() {
    let vertices = SphereBuilder::<f32>::new()
        .with_divisions(4, 4)
        .build_vertices()
        .expect("Failed to build vertices");
    for vertex in vertices.iter() {
        let texcoord = [vertex.texcoord.0 as f32 / 4.0, vertex.texcoord.1 as f32 / 4.0];
        assert!(texcoord[0] >= 0.0);
        assert!(texcoord[1] >= 0.0);
        assert!(texcoord[0] <= 1.0);
        assert!(texcoord[1] <= 1.0);
    }
}

#[test]
fn ensure_default_sphere_has_ccw_triangles() {
    let vertices = SphereBuilder::<f32>::new()
        .build_vertices()
        .expect("Failed to build vertices");
    for chunk in vertices.chunks(3) {
        let v0 = position(&chunk[0], 24, 12);
        let v1 = position(&chunk[1], 24, 12);
        let v2 = position(&chunk[2], 24, 12);
        let eyepos = v0 + normal(&chunk[0], 24, 12);
        let e0 = v1 - v0;
        let e1 = v2 - v0;
        let n = e0.cross(e1);
        assert!(n.dot(v0 - eyepos) <= 0.0);
        assert!(n.dot(v1 - eyepos) <= 0.0);
        assert!(n.dot(v2 - eyepos) <= 0.0);
    }
}

#[test]
fn ensure_default_sphere_has_faceted_normals() {
    let vertices = SphereBuilder::<f32>::new()
        .build_vertices()
        .expect("Failed to build vertices");
    for chunk in vertices.chunks(3) {
        let v0 = position(&chunk[0], 24, 12);
        let v1 = position(&chunk[1], 24, 12);
        let v2 = position(&chunk[2], 24, 12);
        let n = (v1 - v0).cross(v2 - v0).normalize();
        assert!(close(n, normal(&chunk[0], 24, 12), 0.0001));
        assert!(close(n, normal(&chunk[1], 24, 12), 0.0001));
        assert!(close(n, normal(&chunk[2], 24, 12), 0.0001));
    }
}

#[test]
fn ensure_default_sphere_has_planar_quads() {
    let builder = SphereBuilder::<f32>::new();
    let vertices = builder.build_vertices().expect("Failed to build vertices");

    let mut index = builder.num_vertices_per_cap();
    for _ in 0..builder.num_slices() {
        for _ in 0..builder.num_vertices_per_slice() / 6 {
            let tri0 = [
                position(&vertices[index], 24, 12),
                position(&vertices[index + 1], 24, 12),
                position(&vertices[index + 2], 24, 12),
            ];
            let tri1 = [
                position(&vertices[index + 3], 24, 12),
                position(&vertices[index + 4], 24, 12),
                position(&vertices[index + 5], 24, 12),
            ];
            index += 6;
            let n0 = (tri0[1] - tri0[0]).cross(tri0[2] - tri0[0]).normalize();
            let n1 = (tri1[1] - tri1[0]).cross(tri1[2] - tri1[0]).normalize();
            assert!(close(n0, n1, 0.0001));
        }
    }
}

#[test]
fn default_sphere_has_1584_vertices_as_a_triangle_list() {
    let builder = SphereBuilder::<f32>::default();
    assert_eq!(builder.divisions(), (24, 12));
    assert_eq!(builder.num_vertices(), 1584);
    assert_eq!(builder.build_vertices().unwrap().len(), 1584);
    assert_eq!(builder.topology(), Topology::TrianglesList);
}

#[test]
fn sphere_counts_follow_the_divisions() {
    let builder = SphereBuilder::<f32>::new().with_divisions(5, 7);
    assert_eq!(builder.num_caps(), 2);
    assert_eq!(builder.num_vertices_per_cap_face(), 3);
    assert_eq!(builder.num_vertices_per_cap(), 15);
    assert_eq!(builder.num_slices(), 5);
    assert_eq!(builder.num_vertices_per_slice_face(), 6);
    assert_eq!(builder.num_vertices_per_slice(), 30);
    assert_eq!(builder.num_vertices(), 6 * 5 * 5 + 3 * 5 * 2);
    assert_eq!(builder.build_vertices().unwrap().len(), 180);
}

#[test]
fn smallest_sphere_has_only_caps() {
    let builder = SphereBuilder::<f32>::new().with_divisions(3, 2);
    assert_eq!(builder.num_slices(), 0);
    assert_eq!(builder.num_vertices(), 18);
    let vertices = builder.build_vertices().unwrap();
    assert_eq!(vertices.len(), 18);
    // Top cap cell 0: slots 3..6, corners (0, 0), (1, 1), (0, 1).
    assert_eq!(vertices[0].position, GridPoint { lon: 0, lat: 0 });
    assert_eq!(vertices[1].position, GridPoint { lon: 1, lat: 1 });
    assert_eq!(vertices[2].position, GridPoint { lon: 0, lat: 1 });
    // Bottom cap, last cell: slots 0..3, corners (3, 1), (3, 2), (2, 1), wrapped in longitude.
    assert_eq!(vertices[15].position, GridPoint { lon: 0, lat: 1 });
    assert_eq!(vertices[15].texcoord, (3, 1));
    assert_eq!(vertices[16].position, GridPoint { lon: 0, lat: 2 });
    assert_eq!(vertices[17].position, GridPoint { lon: 2, lat: 1 });
}

#[test]
fn sphere_vertices_of_a_triangle_share_one_facet() {
    let vertices = SphereBuilder::<f32>::new().with_divisions(6, 5).build_vertices().unwrap();
    assert_eq!(vertices.len() % 3, 0);
    for chunk in vertices.chunks(3) {
        assert_eq!(chunk[0].facet, chunk[1].facet);
        assert_eq!(chunk[0].facet, chunk[2].facet);
    }
}

#[test]
fn building_a_sphere_twice_gives_identical_vertices() {
    let builder = SphereBuilder::<f32>::new().with_divisions(7, 4).scale(2.0, 1.0, 1.0);
    let first = builder.build_vertices().unwrap();
    let second = builder.build_vertices().unwrap();
    assert_eq!(first, second);
}

#[test]
fn sphere_with_too_few_u_divisions_fails() {
    let result = SphereBuilder::<f32>::new().with_divisions(2, 12).build_vertices();
    assert!(matches!(result, Err(ShapeCreationError::NotEnoughDivisionsInU)));
    let result = SphereBuilder::<f32>::new().with_divisions(0, 0).build_vertices();
    assert!(matches!(result, Err(ShapeCreationError::NotEnoughDivisionsInU)));
}

#[test]
fn sphere_with_too_few_v_divisions_fails() {
    let result = SphereBuilder::<f32>::new().with_divisions(24, 1).build_vertices();
    assert!(matches!(result, Err(ShapeCreationError::NotEnoughDivisionsInV)));
}

#[test]
fn sphere_triangles_turn_positively_in_texture_space() {
    let vertices = SphereBuilder::<f32>::new().with_divisions(5, 4).build_vertices().unwrap();
    for chunk in vertices.chunks(3) {
        let t: Vec<(i64, i64)> =
            chunk.iter().map(|v| (v.texcoord.0 as i64, v.texcoord.1 as i64)).collect();
        let area2 = (t[1].0 - t[0].0) * (t[2].1 - t[0].1) - (t[1].1 - t[0].1) * (t[2].0 - t[0].0);
        assert_eq!(area2, 1);
        assert_ne!(chunk[0].position, chunk[1].position);
        assert_ne!(chunk[0].position, chunk[2].position);
        assert_ne!(chunk[1].position, chunk[2].position);
    }
}
