//! The library states its fixed configuration as Vulkan codes; these tests
//! hold each code against the value vulkano itself uses for that choice.

use render_core::pipeline::LOAD_OP_CLEAR;
use render_core::pipeline::STORE_OP_DONT_CARE;
use render_core::pipeline::STORE_OP_STORE;
use render_core::pipeline::TOPOLOGY_TRIANGLE_LIST;
use render_core::surface::DEPTH_FORMAT;
use render_core::surface::PRESENT_MODE_FIFO;
use vulkano::format::Format;
use vulkano::pipeline::graphics::input_assembly::PrimitiveTopology;
use vulkano::render_pass::AttachmentLoadOp;
use vulkano::render_pass::AttachmentStoreOp;
use vulkano::swapchain::PresentMode;

#[test]
fn depth_format_code_is_d16_unorm() {
    assert_eq!(DEPTH_FORMAT, Format::D16_UNORM as u32);
}

#[test]
fn present_mode_code_is_fifo() {
    assert_eq!(PRESENT_MODE_FIFO, PresentMode::Fifo as u32);
}

#[test]
fn attachment_op_codes_match_the_driver_enums() {
    assert_eq!(LOAD_OP_CLEAR, AttachmentLoadOp::Clear as u32);
    assert_eq!(STORE_OP_STORE, AttachmentStoreOp::Store as u32);
    assert_eq!(STORE_OP_DONT_CARE, AttachmentStoreOp::DontCare as u32);
    assert_ne!(AttachmentLoadOp::Clear as u32, AttachmentLoadOp::Load as u32);
}

#[test]
fn topology_code_is_triangle_list() {
    assert_eq!(TOPOLOGY_TRIANGLE_LIST, PrimitiveTopology::TriangleList as u32);
}
