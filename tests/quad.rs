use cgmath::{InnerSpace, UlpsEq, Vector2, Vector3, Zero};
use glium_shapes::quad::QuadBuilder;
use glium_shapes::vertex::{LatticeVertex, Topology};

fn position(v: &LatticeVertex) -> Vector3<f32> {
    let (x, y, z) = v.doubled_position;
    Vector3::new(x as f32 * 0.5, y as f32 * 0.5, z as f32 * 0.5)
}

fn normal(v: &LatticeVertex) -> Vector3<f32> {
    let (x, y, z) = v.normal;
    Vector3::new(x as f32, y as f32, z as f32)
}

fn default_quad() -> Vec<LatticeVertex> {
    QuadBuilder::<f32>::new().build_vertices().expect("Failed to build vertices")
}

#[test]
fn ensure_default_quad_has_edge_lengths_of_two() {
    let vertices = default_quad();
    let mut min = Vector3::<f32>::new(f32::MAX, f32::MAX, f32::MAX);
    let mut max = -min;
    for vertex in vertices.iter() {
        let pos = position(vertex);
        min.x = f32::min(min.x, pos.x);
        min.y = f32::min(min.y, pos.y);
        min.z = f32::min(min.z, pos.z);
        max.x = f32::max(max.x, pos.x);
        max.y = f32::max(max.y, pos.y);
        max.z = f32::max(max.z, pos.z);
    }
    assert_eq!(min, Vector3::new(-1.0, -1.0, 0.0));
    assert_eq!(max, Vector3::new(1.0, 1.0, 0.0));
}

#[test]
fn ensure_default_quad_has_centroid_at_origin() {
    let vertices = default_quad();
    let mut sum = Vector3::<f32>::zero();
    for vertex in vertices.iter() {
        sum = sum + position(vertex);
    }
    assert_eq!(sum, Vector3::<f32>::zero());
}

#[test]
fn ensure_default_quad_is_planar() {
    let vertices = default_quad();
    let tri0 = [position(&vertices[0]), position(&vertices[1]), position(&vertices[2])];
    let tri1 = [position(&vertices[2]), position(&vertices[1]), position(&vertices[3])];
    let n0 = (tri0[1] - tri0[0]).cross(tri0[2] - tri0[0]).normalize();
    let n1 = (tri1[1] - tri1[0]).cross(tri1[2] - tri1[0]).normalize();
    assert!(n0.ulps_eq(&n1, 0.0001, Vector3::<f32>::default_max_ulps()));
}

#[test]
fn ensure_default_quad_has_ccw_triangles() {
    let vertices = default_quad();
    let tris = [[0, 1, 2], [2, 1, 3]];
    for tri in tris.iter() {
        let v0 = position(&vertices[tri[0]]);
        let v1 = position(&vertices[tri[1]]);
        let v2 = position(&vertices[tri[2]]);
        let eyepos = v0 + normal(&vertices[tri[0]]);
        let e0 = v1 - v0;
        let e1 = v2 - v0;
        let n = e0.cross(e1);
        assert!(n.dot(v0 - eyepos) <= 0.0);
        assert!(n.dot(v1 - eyepos) <= 0.0);
        assert!(n.dot(v2 - eyepos) <= 0.0);
    }
}

#[test]
fn ensure_default_quad_has_face_aligned_normals() {
    let vertices = default_quad();
    let tri0 = [position(&vertices[0]), position(&vertices[1]), position(&vertices[2])];
    let fnormal = (tri0[1] - tri0[0]).cross(tri0[2] - tri0[0]).normalize();
    for vertex in vertices.iter() {
        assert_eq!(normal(vertex), fnormal);
    }
}

#[test]
fn ensure_quad_uvs_are_in_correct_range() {
    let vertices = default_quad();
    let mut min = Vector2::<f32>::new(f32::MAX, f32::MAX);
    let mut max = -min;
    for vertex in vertices.iter() {
        let (u, v) = vertex.texcoord;
        min.x = f32::min(min.x, u as f32);
        min.y = f32::min(min.y, v as f32);
        max.x = f32::max(max.x, u as f32);
        max.y = f32::max(max.y, v as f32);
    }
    assert!(min == Vector2::<f32>::zero());
    assert!(max == Vector2::<f32>::new(1.0, 1.0));
}

#[test]
fn default_quad_has_four_vertices_as_a_strip() {
    let builder = QuadBuilder::<f32>::default();
    assert_eq!(builder.build_vertices().unwrap().len(), 4);
    assert_eq!(builder.topology(), Topology::TriangleStrip);
}

#[test]
fn quad_corners_come_in_strip_order() {
    let vertices = default_quad();
    let corners: Vec<(i32, i32, i32)> = vertices.iter().map(|v| v.doubled_position).collect();
    assert_eq!(corners, vec![(-2, -2, 0), (-2, 2, 0), (2, -2, 0), (2, 2, 0)]);
    let texcoords: Vec<(u32, u32)> = vertices.iter().map(|v| v.texcoord).collect();
    assert_eq!(texcoords, vec![(0, 0), (0, 1), (1, 0), (1, 1)]);
}
