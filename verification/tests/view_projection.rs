use glam::Mat4;
use glam::Vec3;
use render_core::linalg::make_view_projection;

fn glam_view_projection(extent: [u32; 2], location: Vec3, rotation: Vec3) -> Mat4 {
    let projection = Mat4::perspective_rh_gl(
        45.0_f32.to_radians(),
        extent[0] as f32 / extent[1] as f32,
        0.1,
        1000.0,
    );
    let view = Mat4::from_rotation_x(rotation.x)
        * Mat4::from_rotation_y(rotation.y)
        * Mat4::from_rotation_z(rotation.z)
        * Mat4::from_translation(-location);
    projection * view
}

#[test]
fn view_projection_is_projection_times_rotations_times_negated_translation() {
    let location = Vec3::new(1.0, 2.0, 3.0);
    let rotation = Vec3::new(0.1, -0.4, 0.9);
    let computed = make_view_projection(&[800, 600], &location, &rotation);
    assert_eq!(computed, glam_view_projection([800, 600], location, rotation));
}

#[test]
fn identity_pose_gives_the_bare_projection() {
    let computed = make_view_projection(&[1024, 768], &Vec3::ZERO, &Vec3::ZERO);
    let projection = Mat4::perspective_rh_gl(45.0_f32.to_radians(), 1024.0 / 768.0, 0.1, 1000.0);
    assert_eq!(computed, projection);
}

#[test]
fn projection_depends_on_the_aspect_ratio() {
    let wide = make_view_projection(&[1920, 1080], &Vec3::ZERO, &Vec3::ZERO);
    let square = make_view_projection(&[500, 500], &Vec3::ZERO, &Vec3::ZERO);
    assert_ne!(wide, square);
    assert_eq!(wide, glam_view_projection([1920, 1080], Vec3::ZERO, Vec3::ZERO));
}

#[test]
fn each_rotation_component_turns_about_its_own_axis() {
    for rotation in [
        Vec3::new(0.5, 0.0, 0.0),
        Vec3::new(0.0, 0.25, 0.0),
        Vec3::new(0.0, 0.0, -0.75),
    ] {
        let computed = make_view_projection(&[640, 480], &Vec3::ZERO, &rotation);
        assert_eq!(computed, glam_view_projection([640, 480], Vec3::ZERO, rotation));
    }
}

#[test]
fn camera_position_enters_negated() {
    let location = Vec3::new(1.0, -2.0, 7.5);
    let computed = make_view_projection(&[800, 600], &location, &Vec3::ZERO);
    let projection = Mat4::perspective_rh_gl(45.0_f32.to_radians(), 800.0 / 600.0, 0.1, 1000.0);
    let expected = projection
        * (Mat4::from_rotation_x(0.0)
            * Mat4::from_rotation_y(0.0)
            * Mat4::from_rotation_z(0.0)
            * Mat4::from_translation(Vec3::new(-1.0, 2.0, -7.5)));
    assert_eq!(computed, expected);
    assert_ne!(
        computed,
        projection * Mat4::from_translation(location)
    );
}
