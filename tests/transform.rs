use glium_shapes::cuboid::CuboidBuilder;
use glium_shapes::quad::QuadBuilder;
use glium_shapes::sphere::SphereBuilder;
use glium_shapes::transform::{ModelTransform, Transform};

/// Applies scale and translation steps, in order, to a point.
fn apply(steps: &[Transform<f32>], mut p: [f32; 3]) -> [f32; 3] {
    for step in steps {
        match *step {
            Transform::Scale(x, y, z) => p = [p[0] * x, p[1] * y, p[2] * z],
            Transform::Translate(x, y, z) => p = [p[0] + x, p[1] + y, p[2] + z],
            _ => panic!("only scales and translations are applied here"),
        }
    }
    p
}

#[test]
fn builder_records_transforms_in_call_order() {
    let builder = CuboidBuilder::new()
        .scale(2.0f32, 3.0, 4.0)
        .translate(0.0, 1.5, 0.0)
        .rotate_x(0.5)
        .rotate_y(0.25)
        .rotate_z(0.125);
    assert_eq!(
        builder.transform().steps(),
        &[
            Transform::Scale(2.0, 3.0, 4.0),
            Transform::Translate(0.0, 1.5, 0.0),
            Transform::RotateX(0.5),
            Transform::RotateY(0.25),
            Transform::RotateZ(0.125),
        ]
    );
}

#[test]
fn new_builders_have_the_identity_transform() {
    assert!(CuboidBuilder::<f32>::new().transform().steps().is_empty());
    assert!(QuadBuilder::<f32>::default().transform().steps().is_empty());
    assert!(ModelTransform::<f32>::identity().steps().is_empty());
}

#[test]
fn transform_order_changes_the_result() {
    let scale_first = CuboidBuilder::new().scale(2.0f32, 1.0, 1.0).translate(1.0, 0.0, 0.0);
    let translate_first = CuboidBuilder::new().translate(1.0f32, 0.0, 0.0).scale(2.0, 1.0, 1.0);
    assert_ne!(scale_first.transform().steps(), translate_first.transform().steps());
    let corner = [0.5, 0.5, 0.5];
    assert_eq!(apply(scale_first.transform().steps(), corner), [2.0, 0.5, 0.5]);
    assert_eq!(apply(translate_first.transform().steps(), corner), [3.0, 0.5, 0.5]);
}

#[test]
fn transforms_leave_sphere_divisions_alone() {
    let builder = SphereBuilder::new().with_divisions(8, 6).scale(1.0f32, 2.0, 3.0).rotate_z(1.0);
    assert_eq!(builder.divisions(), (8, 6));
    assert_eq!(builder.transform().steps().len(), 2);
    let builder = builder.with_divisions(9, 3);
    assert_eq!(builder.divisions(), (9, 3));
    assert_eq!(builder.transform().steps()[1], Transform::RotateZ(1.0));
}
