//! Trusted boundary to the geometry crates.
//!
//! Points, rectangles, affine and perspective transforms and the homogeneous
//! polygon clipper are external collaborators: their float math is not
//! verified here. Each wrapper makes exactly one outside call; the types are
//! declared opaque and carried through.

use vstd::prelude::*;
use pathfinder_content::clip::PolygonClipper3D;
use pathfinder_geometry::rect::RectF;
use pathfinder_geometry::transform2d::Transform2F;
use pathfinder_geometry::transform3d::Perspective;
use pathfinder_geometry::transform3d::Transform4F;
use pathfinder_geometry::vector::Vector2F;
use pathfinder_geometry::vector::Vector3F;
use pathfinder_geometry::vector::Vector4F;

verus! {

#[verifier::external_type_specification]
#[verifier::external_body]
pub struct ExVector2F(Vector2F);

#[verifier::external_type_specification]
#[verifier::external_body]
pub struct ExVector3F(Vector3F);

#[verifier::external_type_specification]
#[verifier::external_body]
pub struct ExVector4F(Vector4F);

#[verifier::external_type_specification]
#[verifier::external_body]
pub struct ExTransform2F(Transform2F);

#[verifier::external_type_specification]
#[verifier::external_body]
pub struct ExTransform4F(Transform4F);

#[verifier::external_type_specification]
#[verifier::external_body]
pub struct ExPerspective(Perspective);

#[verifier::external_type_specification]
#[verifier::external_body]
pub struct ExRectF(RectF);

/// Relies on Vector2F's derived Clone: the type is Copy, so a clone is the
/// value itself.
pub assume_specification[ <Vector2F as Clone>::clone ](v: &Vector2F) -> (r: Vector2F)
    ensures
        r == *v,
;

/// Relies on Transform2F's derived Clone: the type is Copy, so a clone is the
/// value itself.
pub assume_specification[ <Transform2F as Clone>::clone ](v: &Transform2F) -> (r: Transform2F)
    ensures
        r == *v,
;

/// Relies on Perspective's derived Clone: the type is Copy, so a clone is the
/// value itself.
pub assume_specification[ <pathfinder_geometry::transform3d::Perspective as Clone>::clone ](
    v: &pathfinder_geometry::transform3d::Perspective,
) -> (r: pathfinder_geometry::transform3d::Perspective)
    ensures
        r == *v,
;

/// Relies on Transform2F::is_identity: whether the affine matrix is the
/// identity.
#[verifier::external_body]
pub(crate) fn transform2f_is_identity(t: &Transform2F) -> bool {
    t.is_identity()
}

/// Relies on Transform2F::default: the identity affine matrix.
#[verifier::external_body]
pub(crate) fn transform2f_default() -> Transform2F {
    Transform2F::default()
}

/// Relies on Vector2F::zero: the zero vector.
#[verifier::external_body]
pub(crate) fn vector2f_zero() -> Vector2F {
    Vector2F::zero()
}

/// Relies on Vector4F::default: the zero homogeneous point.
#[verifier::external_body]
pub(crate) fn vector4f_default() -> Vector4F {
    Vector4F::default()
}

/// Relies on RectF::origin: the rectangle's upper-left corner.
#[verifier::external_body]
pub(crate) fn rect_origin(r: RectF) -> Vector2F {
    r.origin()
}

/// Relies on RectF::upper_right.
#[verifier::external_body]
pub(crate) fn rect_upper_right(r: RectF) -> Vector2F {
    r.upper_right()
}

/// Relies on RectF::lower_right.
#[verifier::external_body]
pub(crate) fn rect_lower_right(r: RectF) -> Vector2F {
    r.lower_right()
}

/// Relies on RectF::lower_left.
#[verifier::external_body]
pub(crate) fn rect_lower_left(r: RectF) -> Vector2F {
    r.lower_left()
}

/// Relies on Vector2F::to_4d: lifts a 2D point to a homogeneous 3D point
/// with z = 0 and w = 1.
#[verifier::external_body]
pub(crate) fn vector2f_to_4d(v: Vector2F) -> Vector4F {
    v.to_4d()
}

/// Relies on Perspective's public `transform` field: the homogeneous matrix
/// the perspective applies.
#[verifier::external_body]
pub(crate) fn perspective_transform(p: &Perspective) -> Transform4F {
    p.transform
}

/// Relies on Transform4F's matrix-point multiplication.
#[verifier::external_body]
pub(crate) fn transform4f_apply(t: &Transform4F, v: Vector4F) -> Vector4F {
    *t * v
}

/// Relies on Transform4F::inverse.
#[verifier::external_body]
pub(crate) fn transform4f_inverse(t: &Transform4F) -> Transform4F {
    t.inverse()
}

/// Relies on Vector4F::to_3d: the perspective divide, mapping a homogeneous
/// point to normalized coordinates by dividing by its w component.
#[verifier::external_body]
pub(crate) fn vector4f_perspective_divide(v: Vector4F) -> Vector3F {
    v.to_3d()
}

/// Relies on Vector3F::to_4d: reattaches w = 1 to a divided point.
#[verifier::external_body]
pub(crate) fn vector3f_to_4d(v: Vector3F) -> Vector4F {
    v.to_4d()
}

/// Relies on Vector4F::to_2d: perspective divide followed by dropping to 2D.
#[verifier::external_body]
pub(crate) fn vector4f_to_2d(v: Vector4F) -> Vector2F {
    v.to_2d()
}

/// Relies on PolygonClipper3D::clip: clips an ordered convex polygon of
/// homogeneous points against the canonical view volume, returning the
/// clipped ordered vertex list (possibly longer, shorter, or empty).
#[verifier::external_body]
pub(crate) fn clip_polygon_3d(points: Vec<Vector4F>) -> Vec<Vector4F> {
    PolygonClipper3D::new(points).clip()
}

} // verus!
