//! The recorded contents of one frame's command buffer, as data.
//!
//! A frame clears and begins the render pass on the acquired image's
//! framebuffer, binds the pipeline, sets the dynamic viewport and scissor,
//! then draws every registry entry in order — one non-indexed, one-instance
//! draw of the entry's whole vertex buffer with its model-view-projection
//! matrix as push constants — and ends the pass. The driver-facing
//! collaborator replays these commands verbatim.

use vstd::prelude::*;

use crate::linalg::mvp_of;
use crate::pipeline::PushConstants;
use crate::registry::RegistryEntry;
use crate::viewport::Scissor;
use crate::viewport::Viewport;
use crate::viewport::ViewportInfo;
use crate::viewport::scissor_of;
use crate::viewport::viewport_of;

verus! {

/// One recorded command.
#[derive(Clone, Copy, Debug)]
pub enum RenderCommand {
    /// Begin the render pass on this framebuffer, clearing the color
    /// attachment to opaque black and the depth attachment to the far
    /// plane (depth 1).
    BeginRenderPass { framebuffer_index: usize },
    /// Bind the one graphics pipeline.
    BindPipeline,
    /// Set the dynamic viewport (depth range `[0, 1]`), with count 1.
    SetViewport { viewport: Viewport },
    /// Set the dynamic scissor rectangle, with count 1.
    SetScissor { scissor: Scissor },
    /// Bind the object's vertex buffer at slot 0, push its matrix, and
    /// draw `vertex_count` vertices, one instance, no index buffer.
    Draw { object_id: usize, vertex_count: usize, push_constants: PushConstants },
    /// End the render pass.
    EndRenderPass,
}

/// The draw command that one registry entry contributes, given the frame's
/// view-projection matrix: the entry's whole vertex buffer, one instance,
/// and `view_projection * translation(position)` as push constants.
pub open spec fn draw_command(view_projection: glam::Mat4, entry: RegistryEntry) -> RenderCommand {
    RenderCommand::Draw {
        object_id: entry.id,
        vertex_count: entry.object.vertices@.len() as usize,
        push_constants: PushConstants {
            mvp: mvp_of(view_projection, entry.object.transform.position),
        },
    }
}

/// Every command of a frame over `entries`, in recording order.
pub open spec fn frame_commands(
    entries: Seq<RegistryEntry>,
    framebuffer_index: usize,
    viewport: Viewport,
    scissor: Scissor,
    view_projection: glam::Mat4,
) -> Seq<RenderCommand> {
    seq![
        RenderCommand::BeginRenderPass { framebuffer_index },
        RenderCommand::BindPipeline,
        RenderCommand::SetViewport { viewport },
        RenderCommand::SetScissor { scissor },
    ] + Seq::new(entries.len(), |i: int| draw_command(view_projection, entries[i])) + seq![
        RenderCommand::EndRenderPass,
    ]
}

/// Law: a frame over `entries` records exactly `entries.len()` draw calls
/// — the commands at positions 4 through `4 + entries.len()` exclusive,
/// and no others — and the i-th draw is of the i-th entry, with vertex
/// count equal to that entry's stored vertex buffer length and its
/// model-view-projection matrix as push constants.
pub proof fn lemma_draw_completeness(
    entries: Seq<RegistryEntry>,
    framebuffer_index: usize,
    viewport: Viewport,
    scissor: Scissor,
    view_projection: glam::Mat4,
)
    ensures
        frame_commands(entries, framebuffer_index, viewport, scissor, view_projection).len()
            == entries.len() + 5,
        forall|i: int|
            0 <= i < entries.len() ==> frame_commands(
                entries,
                framebuffer_index,
                viewport,
                scissor,
                view_projection,
            )[4 + i] == draw_command(view_projection, #[trigger] entries[i]),
        forall|j: int|
            0 <= j < entries.len() + 5 ==> ((#[trigger] frame_commands(
                entries,
                framebuffer_index,
                viewport,
                scissor,
                view_projection,
            )[j]) is Draw <==> 4 <= j < 4 + entries.len()),
{
    let cmds = frame_commands(entries, framebuffer_index, viewport, scissor, view_projection);
    assert forall|j: int| 0 <= j < entries.len() + 5 implies ((#[trigger] cmds[j]) is Draw <==> 4
        <= j < 4 + entries.len()) by {
        if 4 <= j < 4 + entries.len() {
            assert(cmds[j] == draw_command(view_projection, entries[j - 4]));
        }
    }
}

/// Law: whatever the registry and camera, the frame recorded after a
/// resize to `info` — which sets the one viewport and scissor to exactly
/// `info`'s rectangle — sets as its third command the dynamic viewport
/// `{offset, extent}` of `info` (the depth range is always `[0, 1]`) and
/// as its fourth the scissor with the same whole-pixel rectangle.
pub proof fn lemma_viewport_determinism(
    entries: Seq<RegistryEntry>,
    framebuffer_index: usize,
    info: ViewportInfo,
    view_projection: glam::Mat4,
)
    ensures
        frame_commands(
            entries,
            framebuffer_index,
            viewport_of(info),
            scissor_of(info),
            view_projection,
        )[2] == (RenderCommand::SetViewport {
            viewport: Viewport { offset: info.offset, extent: info.extent },
        }),
        frame_commands(
            entries,
            framebuffer_index,
            viewport_of(info),
            scissor_of(info),
            view_projection,
        )[3] == (RenderCommand::SetScissor {
            scissor: Scissor { offset: info.offset, extent: info.extent },
        }),
{
}

/// What one frame hands to the presentation scheduler: the recorded
/// command buffer and the swapchain image it targets. Submission waits for
/// completion before the next frame begins (single frame in flight).
pub struct FrameSubmission {
    pub image_index: usize,
    pub commands: Vec<RenderCommand>,
}

/// Why a frame was dropped instead of submitted.
#[derive(Clone, Copy, PartialEq, Eq, Structural, Debug)]
pub enum FrameError {
    /// The acquired image index does not name a framebuffer; the swapchain
    /// is stale and the caller is expected to resize.
    ImageIndexOutOfRange,
}

} // verus!
