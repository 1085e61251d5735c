use scene_builder::options::PreparedRenderTransform;
use scene_builder::options::RenderOptions;
use scene_builder::options::RenderTransform;

use pathfinder_geometry::rect::RectF;
use pathfinder_geometry::transform2d::Transform2F;
use pathfinder_geometry::transform3d::Perspective;
use pathfinder_geometry::transform3d::Transform4F;
use pathfinder_geometry::vector::Vector2F;
use pathfinder_geometry::vector::Vector2I;

fn unit_bounds() -> RectF {
    RectF::new(Vector2F::new(0.0, 0.0), Vector2F::new(1.0, 1.0))
}

fn identity_perspective() -> Perspective {
    Perspective::new(&Transform4F::default(), Vector2I::new(640, 480))
}

#[test]
fn prepare_identity_2d_collapses() {
    let transform = RenderTransform::Transform2D(Transform2F::default());
    let prepared = transform.prepare(unit_bounds());
    assert!(matches!(prepared, PreparedRenderTransform::Identity));
    assert!(!prepared.is_2d());
}

#[test]
fn prepare_non_identity_2d_wraps_exact_matrix() {
    let matrix = Transform2F::from_translation(Vector2F::new(3.0, -2.0));
    let transform = RenderTransform::Transform2D(matrix);
    let prepared = transform.prepare(unit_bounds());
    match prepared {
        PreparedRenderTransform::Transform2D(m) => {
            assert_eq!(m.translation().x(), 3.0);
            assert_eq!(m.translation().y(), -2.0);
            assert_eq!(m.m11(), 1.0);
            assert_eq!(m.m22(), 1.0);
        }
        _ => panic!("expected the 2D variant"),
    }
    assert!(prepared.is_2d());
}

#[test]
fn default_transform_is_identity_2d() {
    let prepared = RenderTransform::default().prepare(unit_bounds());
    assert!(matches!(prepared, PreparedRenderTransform::Identity));
}

#[test]
fn perspective_bounds_fully_outside_yields_empty_clip_polygon() {
    // With the identity matrix the view volume is |x| <= w = 1; a rectangle
    // whose corners all have x >= 2 projects entirely outside it.
    let bounds = RectF::new(Vector2F::new(2.0, 2.0), Vector2F::new(1.0, 1.0));
    let transform = RenderTransform::Perspective(identity_perspective());
    match transform.prepare(bounds) {
        PreparedRenderTransform::Perspective { clip_polygon, quad, .. } => {
            assert!(clip_polygon.is_empty());
            assert_eq!(quad.len(), 4);
        }
        _ => panic!("expected the perspective variant"),
    }
}

#[test]
fn perspective_bounds_fully_inside_round_trips_corners() {
    let bounds = RectF::new(Vector2F::new(-0.5, -0.5), Vector2F::new(1.0, 1.0));
    let transform = RenderTransform::Perspective(identity_perspective());
    match transform.prepare(bounds) {
        PreparedRenderTransform::Perspective { clip_polygon, .. } => {
            let expected = [(-0.5, -0.5), (0.5, -0.5), (0.5, 0.5), (-0.5, 0.5)];
            assert_eq!(clip_polygon.len(), 4);
            for (point, (ex, ey)) in clip_polygon.iter().zip(expected.iter()) {
                assert!((point.x() - ex).abs() < 1e-5);
                assert!((point.y() - ey).abs() < 1e-5);
            }
        }
        _ => panic!("expected the perspective variant"),
    }
}

#[test]
fn prepare_keeps_option_fields() {
    let options = RenderOptions {
        transform: RenderTransform::Perspective(identity_perspective()),
        dilation: Vector2F::new(0.25, 0.5),
        barrel_distortion: None,
        subpixel_aa_enabled: true,
    };
    let prepared = options.prepare(unit_bounds());
    assert_eq!(prepared.dilation.x(), 0.25);
    assert_eq!(prepared.dilation.y(), 0.5);
    assert!(prepared.barrel_distortion.is_none());
    assert!(prepared.subpixel_aa_enabled);
    assert!(!prepared.transform.is_2d());
}

#[test]
fn quad_of_non_perspective_is_zero() {
    let options = RenderOptions::default();
    let prepared = options.prepare(unit_bounds());
    let quad = prepared.quad();
    for point in quad.iter() {
        assert_eq!(point.x(), 0.0);
        assert_eq!(point.y(), 0.0);
        assert_eq!(point.z(), 0.0);
    }
}

#[test]
fn quad_of_perspective_is_projected_corners() {
    let bounds = RectF::new(Vector2F::new(-0.5, -0.5), Vector2F::new(1.0, 1.0));
    let options = RenderOptions {
        transform: RenderTransform::Perspective(identity_perspective()),
        dilation: Vector2F::zero(),
        barrel_distortion: None,
        subpixel_aa_enabled: false,
    };
    let prepared = options.prepare(bounds);
    let quad = prepared.quad();
    let expected = [(-0.5, -0.5), (0.5, -0.5), (0.5, 0.5), (-0.5, 0.5)];
    for (point, (ex, ey)) in quad.iter().zip(expected.iter()) {
        assert!((point.x() - ex).abs() < 1e-5);
        assert!((point.y() - ey).abs() < 1e-5);
        assert_eq!(point.w(), 1.0);
    }
}
