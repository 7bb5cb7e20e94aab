//! The render pass and the fixed graphics pipeline, as configuration data.
//!
//! The pipeline is compiled once per surface format: one color and one
//! depth attachment, a single push-constant range holding a 4x4 matrix,
//! viewport and scissor left dynamic (with-count variants), depth test on,
//! no blending. Building it here means computing and checking that
//! configuration; the driver-facing collaborator feeds it to the driver
//! unchanged.

use vstd::prelude::*;

use crate::surface::DEPTH_FORMAT;
use crate::surface::ImageView;
use crate::surface::PresentationSurface;

verus! {

/// The byte size of the push-constant range: one 4x4 matrix of 4-byte
/// components.
pub const PUSH_CONSTANT_SIZE: u32 = 64;

/// One sample per pixel: no multisampling on either attachment.
pub const SAMPLE_COUNT_ONE: u32 = 1;

/// The Vulkan code of the clear-on-load attachment operation.
pub const LOAD_OP_CLEAR: u32 = 1;

/// The Vulkan code of the store-on-end attachment operation.
pub const STORE_OP_STORE: u32 = 0;

/// The Vulkan code of the discard-on-end attachment operation.
pub const STORE_OP_DONT_CARE: u32 = 1;

/// The Vulkan code of the triangle-list primitive topology.
pub const TOPOLOGY_TRIANGLE_LIST: u32 = 3;

/// The push-constant payload of one draw call: the object's
/// model-view-projection matrix.
#[derive(Clone, Copy, Debug)]
pub struct PushConstants {
    pub mvp: glam::Mat4,
}

impl PushConstants {
    pub fn new(mvp: glam::Mat4) -> (r: PushConstants)
        ensures
            r.mvp == mvp,
    {
        PushConstants { mvp }
    }
}

/// The render pass description together with the pipeline configuration
/// that was compiled against it. Both depend on the surface's pixel format
/// and are rebuilt whenever the surface is rebuilt.
#[derive(Clone, Copy, PartialEq, Eq, Debug)]
pub struct RenderPassAndPipeline {
    /// Format of the single color attachment: the swapchain image format.
    pub color_format: u32,
    /// Format of the single depth attachment.
    pub depth_format: u32,
    /// Samples per pixel on both attachments.
    pub samples: u32,
    /// What happens to the color attachment when the pass begins.
    pub color_load_op: u32,
    /// What happens to the color attachment when the pass ends.
    pub color_store_op: u32,
    /// What happens to the depth attachment when the pass begins.
    pub depth_load_op: u32,
    /// What happens to the depth attachment when the pass ends.
    pub depth_store_op: u32,
    /// The index of the one subpass, which uses the color attachment and
    /// the depth attachment; the pipeline is bound to it.
    pub subpass: u32,
    /// The primitive topology the pipeline assembles, as its Vulkan code;
    /// vertices arrive pre-expanded into triangles, with no index buffer.
    pub topology: u32,
    /// Size in bytes of the vertex-stage push-constant range.
    pub push_constant_size: u32,
    /// Viewport and scissor are dynamic state, set per frame with counts.
    pub dynamic_viewport_scissor: bool,
    /// Depth test enabled, closer wins.
    pub depth_test: bool,
    /// No color blending.
    pub blending: bool,
}

/// The one pipeline configuration this renderer uses for a color format:
/// single-sampled clear-then-store color, clear-then-discard 16-bit depth,
/// one subpass over both attachments, triangle-list input, one 4x4-matrix
/// vertex-stage push-constant range, dynamic viewport and scissor, depth
/// test on, no blending.
pub open spec fn pipeline_for(color_format: u32) -> RenderPassAndPipeline {
    RenderPassAndPipeline {
        color_format,
        depth_format: DEPTH_FORMAT,
        samples: SAMPLE_COUNT_ONE,
        color_load_op: LOAD_OP_CLEAR,
        color_store_op: STORE_OP_STORE,
        depth_load_op: LOAD_OP_CLEAR,
        depth_store_op: STORE_OP_DONT_CARE,
        subpass: 0,
        topology: TOPOLOGY_TRIANGLE_LIST,
        push_constant_size: PUSH_CONSTANT_SIZE,
        dynamic_viewport_scissor: true,
        depth_test: true,
        blending: false,
    }
}

/// Builds the render pass and pipeline configuration for the surface's
/// format: single-sampled clear-then-store color, clear-then-discard
/// 16-bit depth, one subpass over both attachments, triangle-list input,
/// one 4x4-matrix push-constant range, dynamic viewport/scissor, depth
/// test on, no blending.
pub fn build_pipeline(surface: &PresentationSurface) -> (r: RenderPassAndPipeline)
    ensures
        r == pipeline_for(surface.format),
{
    RenderPassAndPipeline {
        color_format: surface.format,
        depth_format: DEPTH_FORMAT,
        samples: SAMPLE_COUNT_ONE,
        color_load_op: LOAD_OP_CLEAR,
        color_store_op: STORE_OP_STORE,
        depth_load_op: LOAD_OP_CLEAR,
        depth_store_op: STORE_OP_DONT_CARE,
        subpass: 0,
        topology: TOPOLOGY_TRIANGLE_LIST,
        push_constant_size: PUSH_CONSTANT_SIZE,
        dynamic_viewport_scissor: true,
        depth_test: true,
        blending: false,
    }
}

/// One framebuffer: a color attachment view paired with the shared depth
/// attachment, sized to the swapchain extent.
#[derive(Clone, Copy, PartialEq, Eq, Debug)]
pub struct Framebuffer {
    pub color_format: u32,
    pub depth_format: u32,
    pub extent: [u32; 2],
}

/// Builds one framebuffer per swapchain image view, each pairing that
/// view's color attachment with the render pass's depth attachment.
pub fn create_frame_buffers(render_pass: &RenderPassAndPipeline, image_views: &Vec<ImageView>) -> (r:
    Vec<Framebuffer>)
    ensures
        r@.len() == image_views@.len(),
        forall|i: int|
            0 <= i < r@.len() ==> #[trigger] r@[i] == (Framebuffer {
                color_format: image_views@[i].format,
                depth_format: render_pass.depth_format,
                extent: image_views@[i].extent,
            }),
{
    let n: usize = image_views.len();
    let mut framebuffers: Vec<Framebuffer> = Vec::new();
    let mut i: usize = 0;
    while i < n
        invariant
            i <= n,
            n == image_views@.len(),
            framebuffers@.len() == i,
            forall|j: int|
                0 <= j < i ==> #[trigger] framebuffers@[j] == (Framebuffer {
                    color_format: image_views@[j].format,
                    depth_format: render_pass.depth_format,
                    extent: image_views@[j].extent,
                }),
        decreases n - i,
    {
        framebuffers.push(
            Framebuffer {
                color_format: image_views[i].format,
                depth_format: render_pass.depth_format,
                extent: image_views[i].extent,
            },
        );
        i = i + 1;
    }
    framebuffers
}

} // verus!
