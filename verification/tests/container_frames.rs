use glam::Mat4;
use glam::Vec3;
use render_core::container::VulkanContainer;
use render_core::frame::FrameError;
use render_core::frame::RenderCommand;
use render_core::linalg::make_view_projection;
use render_core::surface::SurfaceCaps;
use render_core::transform::Transform;
use render_core::vertex::Vertex;
use render_core::viewport::ViewportInfo;

fn caps() -> SurfaceCaps {
    SurfaceCaps { min_image_count: 2, formats: vec![44] }
}

fn triangle() -> Vec<Vertex> {
    vec![
        Vertex::new(Vec3::new(0.0, 1.0, 0.0), Vec3::new(1.0, 0.0, 0.0)),
        Vertex::new(Vec3::new(-1.0, -1.0, 0.0), Vec3::new(0.0, 1.0, 0.0)),
        Vertex::new(Vec3::new(1.0, -1.0, 0.0), Vec3::new(0.0, 0.0, 1.0)),
    ]
}

fn transform_at(position: Vec3) -> Transform {
    Transform::new(position, Vec3::ZERO, Vec3::ONE)
}

fn draw_calls(commands: &[RenderCommand]) -> Vec<(usize, usize, Mat4)> {
    commands
        .iter()
        .filter_map(|c| match c {
            RenderCommand::Draw { object_id, vertex_count, push_constants } => {
                Some((*object_id, *vertex_count, push_constants.mvp))
            }
            _ => None,
        })
        .collect()
}

#[test]
fn one_triangle_records_one_draw_with_the_expected_matrix() {
    let info = ViewportInfo::new([0, 0], [800, 600]);
    let mut container = VulkanContainer::new(&info, &caps()).unwrap();
    container.create_vulkan_object(1, triangle(), transform_at(Vec3::new(0.0, 0.0, -5.0)));

    let frame = container.draw_frame(&Vec3::ZERO, &Vec3::ZERO, 0).unwrap();
    assert_eq!(frame.image_index, 0);

    let draws = draw_calls(&frame.commands);
    assert_eq!(draws.len(), 1);
    let (object_id, vertex_count, mvp) = draws[0];
    assert_eq!(object_id, 1);
    assert_eq!(vertex_count, 3);

    let projection = Mat4::perspective_rh_gl(45.0_f32.to_radians(), 800.0 / 600.0, 0.1, 1000.0);
    let expected = projection * Mat4::IDENTITY * Mat4::from_translation(Vec3::new(0.0, 0.0, -5.0));
    assert_eq!(mvp, expected);
}

#[test]
fn deleted_object_is_not_drawn() {
    let info = ViewportInfo::new([0, 0], [800, 600]);
    let mut container = VulkanContainer::new(&info, &caps()).unwrap();
    container.create_vulkan_object(1, triangle(), transform_at(Vec3::new(0.0, 0.0, -5.0)));
    container.create_vulkan_object(2, triangle(), transform_at(Vec3::new(1.0, 0.0, -5.0)));
    container.delete_vulkan_object(1);

    let frame = container.draw_frame(&Vec3::ZERO, &Vec3::ZERO, 0).unwrap();
    let draws = draw_calls(&frame.commands);
    assert_eq!(draws.len(), 1);
    assert_eq!(draws[0].0, 2);
}

#[test]
fn frame_records_one_draw_per_live_object_in_id_order() {
    let info = ViewportInfo::new([0, 0], [640, 480]);
    let mut container = VulkanContainer::new(&info, &caps()).unwrap();
    container.create_vulkan_object(4, triangle(), transform_at(Vec3::ZERO));
    let two: Vec<Vertex> = [triangle(), triangle()].concat();
    container.create_vulkan_object(2, two, transform_at(Vec3::ZERO));
    container.create_vulkan_object(9, triangle(), transform_at(Vec3::ZERO));

    let frame = container.draw_frame(&Vec3::ZERO, &Vec3::ZERO, 1).unwrap();
    assert_eq!(frame.commands.len(), 3 + 5);
    let draws = draw_calls(&frame.commands);
    assert_eq!(draws.iter().map(|d| d.0).collect::<Vec<_>>(), vec![2, 4, 9]);
    assert_eq!(draws.iter().map(|d| d.1).collect::<Vec<_>>(), vec![6, 3, 3]);
}

#[test]
fn consecutive_resizes_leave_the_second_viewport_and_fresh_framebuffers() {
    let info = ViewportInfo::new([0, 0], [800, 600]);
    let mut container = VulkanContainer::new(&info, &caps()).unwrap();

    container.resize_viewport(&ViewportInfo::new([0, 0], [800, 600]), &caps()).unwrap();
    container.resize_viewport(&ViewportInfo::new([0, 0], [1024, 768]), &caps()).unwrap();

    assert_eq!(container.current_viewport().extent, [1024, 768]);
    assert_eq!(container.current_scissor().extent, [1024, 768]);
    assert_eq!(container.surface_extent(), [1024, 768]);
    assert_eq!(container.framebuffer_count() as u32, container.image_count());
    for i in 0..container.framebuffer_count() {
        let framebuffer = container.framebuffer_at(i);
        assert_eq!(framebuffer.extent, [1024, 768]);
        assert_eq!(framebuffer.color_format, container.surface_format());
    }
}

#[test]
fn next_frame_after_resize_sets_exactly_the_new_viewport_and_scissor() {
    let info = ViewportInfo::new([0, 0], [800, 600]);
    let mut container = VulkanContainer::new(&info, &caps()).unwrap();
    container.resize_viewport(&ViewportInfo::new([10, 20], [1280, 720]), &caps()).unwrap();

    let frame = container.draw_frame(&Vec3::ZERO, &Vec3::ZERO, 0).unwrap();
    match &frame.commands[2] {
        RenderCommand::SetViewport { viewport } => {
            assert_eq!(viewport.offset, [10, 20]);
            assert_eq!(viewport.extent, [1280, 720]);
        }
        other => panic!("expected SetViewport, found {:?}", other),
    }
    match &frame.commands[3] {
        RenderCommand::SetScissor { scissor } => {
            assert_eq!(scissor.offset, [10, 20]);
            assert_eq!(scissor.extent, [1280, 720]);
        }
        other => panic!("expected SetScissor, found {:?}", other),
    }
}

#[test]
fn frame_structure_is_begin_bind_viewport_scissor_draws_end() {
    let info = ViewportInfo::new([0, 0], [800, 600]);
    let mut container = VulkanContainer::new(&info, &caps()).unwrap();
    container.create_vulkan_object(1, triangle(), transform_at(Vec3::ZERO));

    let frame = container.draw_frame(&Vec3::ZERO, &Vec3::ZERO, 2).unwrap();
    assert!(matches!(
        frame.commands[0],
        RenderCommand::BeginRenderPass { framebuffer_index: 2 }
    ));
    assert!(matches!(frame.commands[1], RenderCommand::BindPipeline));
    assert!(matches!(frame.commands[2], RenderCommand::SetViewport { .. }));
    assert!(matches!(frame.commands[3], RenderCommand::SetScissor { .. }));
    assert!(matches!(frame.commands[4], RenderCommand::Draw { .. }));
    assert!(matches!(frame.commands[5], RenderCommand::EndRenderPass));
}

#[test]
fn stale_image_index_drops_the_frame() {
    let info = ViewportInfo::new([0, 0], [800, 600]);
    let container = VulkanContainer::new(&info, &caps()).unwrap();
    // image_count is min + 1 == 3, so index 3 names no framebuffer.
    let result = container.draw_frame(&Vec3::ZERO, &Vec3::ZERO, 3);
    assert_eq!(result.err().unwrap(), FrameError::ImageIndexOutOfRange);
}

#[test]
fn construction_fails_without_a_surface_format() {
    let info = ViewportInfo::new([0, 0], [800, 600]);
    let result = VulkanContainer::new(&info, &SurfaceCaps { min_image_count: 1, formats: vec![] });
    assert!(result.is_err());
}

#[test]
fn camera_pose_reaches_the_push_constants() {
    let info = ViewportInfo::new([0, 0], [800, 600]);
    let mut container = VulkanContainer::new(&info, &caps()).unwrap();
    container.create_vulkan_object(1, triangle(), transform_at(Vec3::new(2.0, 1.0, -4.0)));

    let location = Vec3::new(0.5, -1.5, 3.0);
    let rotation = Vec3::new(0.3, 0.7, -0.2);
    let frame = container.draw_frame(&location, &rotation, 0).unwrap();
    let draws = draw_calls(&frame.commands);

    let view_projection = make_view_projection(&[800, 600], &location, &rotation);
    let expected = view_projection * Mat4::from_translation(Vec3::new(2.0, 1.0, -4.0));
    assert_eq!(draws[0].2, expected);
}
