//! Camera and model matrices, computed by glam.
//!
//! Vectors and matrices are opaque here: what a rotation, translation or
//! perspective matrix holds is floating-point data the verifier does not
//! reason about. Each primitive glam operation is named by an uninterpreted
//! spec function, and the *composition* — the order in which the view,
//! projection and model matrices are combined — is verified exactly over
//! those names.

use vstd::prelude::*;

verus! {

#[verifier::external_type_specification]
#[verifier::external_body]
pub struct ExVec3(glam::Vec3);

#[verifier::external_type_specification]
#[verifier::external_body]
pub struct ExMat4(glam::Mat4);

/// The matrix product `a * b`.
pub uninterp spec fn mat_mul_of(a: glam::Mat4, b: glam::Mat4) -> glam::Mat4;

/// The rotation matrix about the x axis by the first component of `r`.
pub uninterp spec fn rotation_x_of(r: glam::Vec3) -> glam::Mat4;

/// The rotation matrix about the y axis by the second component of `r`.
pub uninterp spec fn rotation_y_of(r: glam::Vec3) -> glam::Mat4;

/// The rotation matrix about the z axis by the third component of `r`.
pub uninterp spec fn rotation_z_of(r: glam::Vec3) -> glam::Mat4;

/// The translation matrix by `v`.
pub uninterp spec fn translation_of(v: glam::Vec3) -> glam::Mat4;

/// The componentwise negation of `v`.
pub uninterp spec fn negated(v: glam::Vec3) -> glam::Vec3;

/// The perspective projection for a viewport of `width` by `height` pixels:
/// a fixed 45 degree vertical field of view, aspect ratio `width / height`,
/// near plane 0.1 and far plane 1000.
pub uninterp spec fn perspective_of(width: u32, height: u32) -> glam::Mat4;

/// Relies on glam's `Mul<Mat4> for Mat4`: the matrix product, a function of
/// its two arguments alone.
#[verifier::external_body]
pub(crate) fn mat_mul(a: &glam::Mat4, b: &glam::Mat4) -> (r: glam::Mat4)
    ensures
        r == mat_mul_of(*a, *b),
{
    *a * *b
}

/// Relies on glam's `Mat4::from_rotation_x`, applied to the x component.
#[verifier::external_body]
pub(crate) fn rotation_x(r: &glam::Vec3) -> (m: glam::Mat4)
    ensures
        m == rotation_x_of(*r),
{
    glam::Mat4::from_rotation_x(r.x)
}

/// Relies on glam's `Mat4::from_rotation_y`, applied to the y component.
#[verifier::external_body]
pub(crate) fn rotation_y(r: &glam::Vec3) -> (m: glam::Mat4)
    ensures
        m == rotation_y_of(*r),
{
    glam::Mat4::from_rotation_y(r.y)
}

/// Relies on glam's `Mat4::from_rotation_z`, applied to the z component.
#[verifier::external_body]
pub(crate) fn rotation_z(r: &glam::Vec3) -> (m: glam::Mat4)
    ensures
        m == rotation_z_of(*r),
{
    glam::Mat4::from_rotation_z(r.z)
}

/// Relies on glam's `Mat4::from_translation`.
#[verifier::external_body]
pub(crate) fn translation(v: &glam::Vec3) -> (m: glam::Mat4)
    ensures
        m == translation_of(*v),
{
    glam::Mat4::from_translation(*v)
}

/// Relies on glam's `Neg for Vec3`.
#[verifier::external_body]
pub(crate) fn negate(v: &glam::Vec3) -> (r: glam::Vec3)
    ensures
        r == negated(*v),
{
    -*v
}

/// Relies on glam's `Mat4::perspective_rh_gl`, a function of its arguments
/// alone; the field of view (45 degrees, converted to radians), near plane
/// (1/10) and far plane (1000) are the renderer's fixed choices, so only the
/// aspect ratio `width / height` varies. Floating-point literals cannot
/// stand in verified code, so the arguments are derived from the integer
/// vectors `(45, 1, 10, 1000)` and `(width, height)`.
#[verifier::external_body]
pub(crate) fn perspective(width: u32, height: u32) -> (m: glam::Mat4)
    ensures
        m == perspective_of(width, height),
{
    let p = glam::UVec4::new(45, 1, 10, 1000).as_vec4();
    let wh = glam::UVec2::new(width, height).as_vec2();
    glam::Mat4::perspective_rh_gl(p.x.to_radians(), wh.x / wh.y, p.y / p.z, p.w)
}

/// The view matrix of a camera pose: rotation about x (pitch), then y (yaw),
/// then z (roll), composed with a translation by the negated camera position.
pub open spec fn view_matrix_of(location: glam::Vec3, rotation: glam::Vec3) -> glam::Mat4 {
    mat_mul_of(
        mat_mul_of(mat_mul_of(rotation_x_of(rotation), rotation_y_of(rotation)), rotation_z_of(rotation)),
        translation_of(negated(location)),
    )
}

/// The combined camera transform: projection times view.
pub open spec fn view_projection_of(
    width: u32,
    height: u32,
    location: glam::Vec3,
    rotation: glam::Vec3,
) -> glam::Mat4 {
    mat_mul_of(perspective_of(width, height), view_matrix_of(location, rotation))
}

/// The push-constant payload of one object: the view-projection matrix
/// times the object's model matrix, a translation by its position.
pub open spec fn mvp_of(view_projection: glam::Mat4, position: glam::Vec3) -> glam::Mat4 {
    mat_mul_of(view_projection, translation_of(position))
}

/// Builds the view-projection matrix for a viewport extent and camera pose,
/// exactly in the order the spec functions state: pitch, yaw and roll
/// rotations, the negated-position translation, then projection times view.
pub fn make_view_projection(
    extent: &[u32; 2],
    camera_location: &glam::Vec3,
    camera_rotation: &glam::Vec3,
) -> (r: glam::Mat4)
    ensures
        r == view_projection_of(extent[0], extent[1], *camera_location, *camera_rotation),
{
    let rot_x = rotation_x(camera_rotation);
    let rot_y = rotation_y(camera_rotation);
    let rot_z = rotation_z(camera_rotation);
    let rot = mat_mul(&mat_mul(&rot_x, &rot_y), &rot_z);
    let negated_location = negate(camera_location);
    let trans = translation(&negated_location);
    let view = mat_mul(&rot, &trans);
    let proj = perspective(extent[0], extent[1]);
    mat_mul(&proj, &view)
}

} // verus!
