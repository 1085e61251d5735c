//! Render options and the preparation of the view transform.
//!
//! Preparing a 2D transform only classifies it (identity or not); preparing a
//! perspective transform clips the scene's bounding rectangle against the
//! view volume in homogeneous space and maps the clipped region back into the
//! object's 2D coordinate space.

use vstd::prelude::*;
use pathfinder_geometry::rect::RectF;
use pathfinder_geometry::transform2d::Transform2F;
use pathfinder_geometry::transform3d::Perspective;
use pathfinder_geometry::vector::Vector2F;
use pathfinder_geometry::vector::Vector4F;
use crate::geometry::clip_polygon_3d;
use crate::geometry::perspective_transform;
use crate::geometry::rect_lower_left;
use crate::geometry::rect_lower_right;
use crate::geometry::rect_origin;
use crate::geometry::rect_upper_right;
use crate::geometry::transform2f_default;
use crate::geometry::transform2f_is_identity;
use crate::geometry::transform4f_apply;
use crate::geometry::transform4f_inverse;
use crate::geometry::vector2f_to_4d;
use crate::geometry::vector2f_zero;
use crate::geometry::vector3f_to_4d;
use crate::geometry::vector4f_default;
use crate::geometry::vector4f_perspective_divide;
use crate::geometry::vector4f_to_2d;

verus! {

/// Barrel-distortion coefficients, carried through this stage unchanged for
/// later distortion stages, as fixed-point values.
#[derive(Clone, Copy, Debug, PartialEq, Eq, Structural)]
pub struct BarrelDistortionCoefficients {
    pub k0: i32,
    pub k1: i32,
}

/// User-specified options for one build.
#[derive(Clone)]
pub struct RenderOptions {
    pub transform: RenderTransform,
    /// Tile-edge anti-alias padding applied during tiling.
    pub dilation: Vector2F,
    pub barrel_distortion: Option<BarrelDistortionCoefficients>,
    pub subpixel_aa_enabled: bool,
}

impl Default for RenderOptions {
    /// Identity transform, zero dilation, no distortion, no subpixel AA.
    fn default() -> (r: RenderOptions)
        ensures
            r.transform is Transform2D,
            r.barrel_distortion is None,
            !r.subpixel_aa_enabled,
    {
        RenderOptions {
            transform: RenderTransform::default(),
            dilation: vector2f_zero(),
            barrel_distortion: None,
            subpixel_aa_enabled: false,
        }
    }
}

impl RenderOptions {
    /// Prepares the options for one build: the transform is prepared against
    /// `bounds`, the remaining fields are copied through unchanged.
    pub fn prepare(self, bounds: RectF) -> (r: PreparedRenderOptions)
        ensures
            r.dilation == self.dilation,
            r.barrel_distortion == self.barrel_distortion,
            r.subpixel_aa_enabled == self.subpixel_aa_enabled,
            self.transform matches RenderTransform::Transform2D(m) ==> (r.transform is Identity || (
            r.transform matches PreparedRenderTransform::Transform2D(m2) && m2 == m)),
            self.transform matches RenderTransform::Perspective(p) ==> (r.transform matches
                PreparedRenderTransform::Perspective { perspective, .. } && perspective == p),
    {
        PreparedRenderOptions {
            transform: self.transform.prepare(bounds),
            dilation: self.dilation,
            barrel_distortion: self.barrel_distortion,
            subpixel_aa_enabled: self.subpixel_aa_enabled,
        }
    }
}

/// The user-facing view transform: a plain 2D affine transform or a 3D
/// perspective transform.
#[derive(Clone)]
pub enum RenderTransform {
    Transform2D(Transform2F),
    Perspective(Perspective),
}

impl Default for RenderTransform {
    /// The identity 2D transform.
    fn default() -> (r: RenderTransform)
        ensures
            r is Transform2D,
    {
        RenderTransform::Transform2D(transform2f_default())
    }
}

impl RenderTransform {
    /// Classifies a 2D transform by the geometry crate's identity test:
    /// an identity matrix collapses to the fast-path variant, any other
    /// matrix is wrapped unchanged. The `Transform2D` variant is therefore
    /// never built for an identity matrix.
    pub fn prepare_2d(transform: Transform2F, is_identity: bool) -> (r: PreparedRenderTransform)
        ensures
            is_identity ==> r is Identity,
            !is_identity ==> (r matches PreparedRenderTransform::Transform2D(m) && m == transform),
    {
        if is_identity {
            PreparedRenderTransform::Identity
        } else {
            PreparedRenderTransform::Transform2D(transform)
        }
    }

    /// Prepares this transform against the scene's bounding rectangle.
    ///
    /// The perspective path lifts the four corners of `bounds` (origin,
    /// upper-right, lower-right, lower-left) into homogeneous space, applies
    /// the perspective transform, keeps the perspective-divided but unclipped
    /// corners as the quad, clips the transformed quad against the view
    /// volume, and maps the divided clipped polygon back into 2D object space
    /// through the inverse transform.
    pub fn prepare(&self, bounds: RectF) -> (r: PreparedRenderTransform)
        ensures
            *self matches RenderTransform::Transform2D(m) ==> (r is Identity || (r matches
                PreparedRenderTransform::Transform2D(m2) && m2 == m)),
            *self matches RenderTransform::Perspective(p) ==> (r matches
                PreparedRenderTransform::Perspective { perspective, .. } && perspective == p),
    {
        let perspective = match self {
            RenderTransform::Transform2D(transform) => {
                let identity = transform2f_is_identity(transform);
                return Self::prepare_2d(*transform, identity);
            },
            RenderTransform::Perspective(perspective) => *perspective,
        };
        let mut points: Vec<Vector4F> = Vec::new();
        points.push(vector2f_to_4d(rect_origin(bounds)));
        points.push(vector2f_to_4d(rect_upper_right(bounds)));
        points.push(vector2f_to_4d(rect_lower_right(bounds)));
        points.push(vector2f_to_4d(rect_lower_left(bounds)));
        let transform = perspective_transform(&perspective);
        let mut i: usize = 0;
        while i < points.len()
            invariant
                i <= points@.len(),
                points@.len() == 4,
            decreases points@.len() - i,
        {
            let p = transform4f_apply(&transform, points[i]);
            points[i] = p;
            i = i + 1;
        }
        // The perspective-divided, unclipped projected corners.
        let quad = [
            vector3f_to_4d(vector4f_perspective_divide(points[0])),
            vector3f_to_4d(vector4f_perspective_divide(points[1])),
            vector3f_to_4d(vector4f_perspective_divide(points[2])),
            vector3f_to_4d(vector4f_perspective_divide(points[3])),
        ];
        let mut clipped = clip_polygon_3d(points);
        let mut j: usize = 0;
        while j < clipped.len()
            invariant
                j <= clipped@.len(),
            decreases clipped@.len() - j,
        {
            let d = vector3f_to_4d(vector4f_perspective_divide(clipped[j]));
            clipped[j] = d;
            j = j + 1;
        }
        let inverse_transform = transform4f_inverse(&transform);
        let mut clip_polygon: Vec<Vector2F> = Vec::new();
        let mut m: usize = 0;
        while m < clipped.len()
            invariant
                m <= clipped@.len(),
                clip_polygon@.len() == m,
            decreases clipped@.len() - m,
        {
            clip_polygon.push(vector4f_to_2d(transform4f_apply(&inverse_transform, clipped[m])));
            m = m + 1;
        }
        PreparedRenderTransform::Perspective { perspective, clip_polygon, quad }
    }
}

/// Options prepared for one build: the prepared transform plus the untouched
/// dilation, distortion and AA fields.
pub struct PreparedRenderOptions {
    pub transform: PreparedRenderTransform,
    pub dilation: Vector2F,
    pub barrel_distortion: Option<BarrelDistortionCoefficients>,
    pub subpixel_aa_enabled: bool,
}

impl PreparedRenderOptions {
    /// The perspective-divided projected corners of the bounding rectangle,
    /// or four copies of the zero point for a non-perspective transform.
    pub fn quad(&self) -> (r: [Vector4F; 4])
        ensures
            self.transform matches PreparedRenderTransform::Perspective { quad, .. } ==> r == quad,
            !(self.transform is Perspective) ==> r@[0] == r@[1] && r@[1] == r@[2] && r@[2] == r@[3],
    {
        match &self.transform {
            PreparedRenderTransform::Perspective { quad, .. } => *quad,
            _ => {
                let d = vector4f_default();
                [d, d, d, d]
            },
        }
    }
}

/// The prepared view transform. The identity fast path carries nothing; a
/// non-identity affine transform is carried unchanged; a perspective
/// transform carries its derived 2D clip polygon in object space and the
/// projected view-box corners in clip space.
pub enum PreparedRenderTransform {
    Identity,
    Transform2D(Transform2F),
    Perspective { perspective: Perspective, clip_polygon: Vec<Vector2F>, quad: [Vector4F; 4] },
}

impl PreparedRenderTransform {
    /// Whether this is a plain (non-identity) 2D transform.
    pub fn is_2d(&self) -> (r: bool)
        ensures
            r == (*self matches PreparedRenderTransform::Transform2D(_)),
    {
        match *self {
            PreparedRenderTransform::Transform2D(_) => true,
            _ => false,
        }
    }
}

} // verus!
