//! The rendering container: the one owner of the presentation surface,
//! pipeline configuration, framebuffers, viewport state and object
//! registry.
//!
//! Driver queries and submissions happen outside: capability reports come
//! in as plain data, and a drawn frame goes out as a recorded command list
//! plus the image index to present. Everything in between — what is built
//! from a capability report, how state changes on resize and object
//! lifecycle commands, and exactly what a frame records — is verified.

use vstd::prelude::*;

use crate::frame::FrameError;
use crate::frame::FrameSubmission;
use crate::frame::RenderCommand;
use crate::frame::frame_commands;
use crate::frame::draw_command;
use crate::linalg::make_view_projection;
use crate::linalg::mat_mul;
use crate::linalg::translation;
use crate::linalg::view_projection_of;
use crate::pipeline::Framebuffer;
use crate::pipeline::PushConstants;
use crate::pipeline::RenderPassAndPipeline;
use crate::pipeline::build_pipeline;
use crate::pipeline::create_frame_buffers;
use crate::pipeline::pipeline_for;
use crate::registry::ObjectRegistry;
use crate::registry::RegistryEntry;
use crate::registry::VulkanObject;
use crate::registry::lemma_entries_map_contains;
use crate::surface::DEPTH_FORMAT;
use crate::surface::ImageView;
use crate::surface::PresentationSurface;
use crate::surface::RenderError;
use crate::surface::SurfaceCaps;
use crate::surface::caps_admit_surface;
use crate::surface::create_image_views;
use crate::surface::create_surface_resources;
use crate::surface::planned_surface;
use crate::transform::Transform;
use crate::vertex::Vertex;
use crate::viewport::Scissor;
use crate::viewport::Viewport;
use crate::viewport::ViewportInfo;
use crate::viewport::scissor_from_info;
use crate::viewport::scissor_of;
use crate::viewport::viewport_from_info;
use crate::viewport::viewport_of;

verus! {

/// The GPU presentation core's state.
pub struct VulkanContainer {
    surface: PresentationSurface,
    image_views: Vec<ImageView>,
    render_pass: RenderPassAndPipeline,
    framebuffers: Vec<Framebuffer>,
    viewports: Vec<Viewport>,
    scissors: Vec<Scissor>,
    vertexbuffers: ObjectRegistry,
}

impl VulkanContainer {
    pub closed spec fn surface_spec(self) -> PresentationSurface {
        self.surface
    }

    pub closed spec fn image_views_spec(self) -> Seq<ImageView> {
        self.image_views@
    }

    pub closed spec fn render_pass_spec(self) -> RenderPassAndPipeline {
        self.render_pass
    }

    pub closed spec fn framebuffers_spec(self) -> Seq<Framebuffer> {
        self.framebuffers@
    }

    pub closed spec fn viewports_spec(self) -> Seq<Viewport> {
        self.viewports@
    }

    pub closed spec fn scissors_spec(self) -> Seq<Scissor> {
        self.scissors@
    }

    pub closed spec fn registry_spec(self) -> ObjectRegistry {
        self.vertexbuffers
    }

    /// The one dynamic viewport the next frame will set.
    pub open spec fn viewport_spec(self) -> Viewport {
        self.viewports_spec()[0]
    }

    /// The one scissor rectangle the next frame will set.
    pub open spec fn scissor_spec(self) -> Scissor {
        self.scissors_spec()[0]
    }

    /// The live objects as a map from id to object.
    pub open spec fn objects_spec(self) -> Map<usize, VulkanObject> {
        self.registry_spec().as_map()
    }

    /// The live objects in draw order (strictly increasing ids).
    pub open spec fn entries_spec(self) -> Seq<RegistryEntry> {
        self.registry_spec().entries_seq()
    }

    /// Well-formedness, established by construction and preserved by every
    /// operation: the registry is sorted; there is exactly one viewport
    /// and one scissor and they agree; the render pass and pipeline are
    /// the fixed configuration for the surface's format; and views and
    /// framebuffers exist one per swapchain image, in the surface's format
    /// and extent, each framebuffer pairing a color view with the shared
    /// 16-bit depth attachment.
    pub open spec fn wf(self) -> bool {
        &&& self.registry_spec().wf()
        &&& self.viewports_spec().len() == 1
        &&& self.scissors_spec().len() == 1
        &&& self.scissor_spec().offset == self.viewport_spec().offset
        &&& self.scissor_spec().extent == self.viewport_spec().extent
        &&& self.render_pass_spec() == pipeline_for(self.surface_spec().format)
        &&& self.image_views_spec().len() == self.surface_spec().image_count as nat
        &&& (forall|i: int|
            0 <= i < self.image_views_spec().len() ==> #[trigger] self.image_views_spec()[i]
                == (ImageView {
                format: self.surface_spec().format,
                extent: self.surface_spec().extent,
            }))
        &&& self.framebuffers_spec().len() == self.image_views_spec().len()
        &&& (forall|i: int|
            0 <= i < self.framebuffers_spec().len() ==> #[trigger] self.framebuffers_spec()[i]
                == (Framebuffer {
                color_format: self.surface_spec().format,
                depth_format: DEPTH_FORMAT,
                extent: self.surface_spec().extent,
            }))
    }

    /// Builds the whole container from the driver's capability report and
    /// the window's viewport: plans the swapchain, derives views, render
    /// pass, pipeline and framebuffers, and starts with no objects. Fails
    /// exactly when the report admits no surface.
    pub fn new(viewport_info: &ViewportInfo, caps: &SurfaceCaps) -> (r: Result<
        VulkanContainer,
        RenderError,
    >)
        ensures
            r is Ok <==> caps_admit_surface(*caps),
            r is Ok ==> (r->Ok_0).wf(),
            r is Ok ==> (r->Ok_0).surface_spec() == planned_surface(*caps, viewport_info.extent),
            r is Ok ==> (r->Ok_0).viewport_spec() == viewport_of(*viewport_info),
            r is Ok ==> (r->Ok_0).scissor_spec() == scissor_of(*viewport_info),
            r is Ok ==> (r->Ok_0).entries_spec() == Seq::<RegistryEntry>::empty(),
            r is Ok ==> (r->Ok_0).objects_spec() == Map::<usize, VulkanObject>::empty(),
            caps.formats@.len() == 0 ==> r == Result::<VulkanContainer, RenderError>::Err(
                RenderError::NoSurfaceFormat,
            ),
            caps.formats@.len() > 0 && caps.min_image_count == u32::MAX ==> r == Result::<
                VulkanContainer,
                RenderError,
            >::Err(RenderError::ImageCountOverflow),
    {
        let surface = match create_surface_resources(caps, viewport_info.extent) {
            Ok(s) => s,
            Err(e) => {
                return Err(e);
            },
        };
        let image_views = create_image_views(&surface);
        let render_pass = build_pipeline(&surface);
        let framebuffers = create_frame_buffers(&render_pass, &image_views);
        let viewports = vec![viewport_from_info(viewport_info)];
        let scissors = vec![scissor_from_info(viewport_info)];
        Ok(
            VulkanContainer {
                surface,
                image_views,
                render_pass,
                framebuffers,
                viewports,
                scissors,
                vertexbuffers: ObjectRegistry::new(),
            },
        )
    }

    /// Creates (or replaces) the drawable object stored under `id`: the
    /// map of live objects gains exactly this binding, and nothing else of
    /// the container changes.
    pub fn create_vulkan_object(
        &mut self,
        id: usize,
        vertices: Vec<Vertex>,
        object_transform: Transform,
    )
        requires
            old(self).wf(),
        ensures
            final(self).wf(),
            final(self).objects_spec() == old(self).objects_spec().insert(
                id,
                VulkanObject { vertices, transform: object_transform },
            ),
            final(self).surface_spec() == old(self).surface_spec(),
            final(self).render_pass_spec() == old(self).render_pass_spec(),
            final(self).image_views_spec() == old(self).image_views_spec(),
            final(self).framebuffers_spec() == old(self).framebuffers_spec(),
            final(self).viewports_spec() == old(self).viewports_spec(),
            final(self).scissors_spec() == old(self).scissors_spec(),
    {
        let object = VulkanObject::new(vertices, object_transform);
        self.vertexbuffers.insert(id, object);
    }

    /// Deletes the object stored under `id`, releasing its buffer; on an
    /// id that is not present the whole container is left exactly
    /// unchanged (deleting an unknown id is a no-op, not an error).
    pub fn delete_vulkan_object(&mut self, id: usize)
        requires
            old(self).wf(),
        ensures
            final(self).wf(),
            final(self).objects_spec() == old(self).objects_spec().remove(id),
            !old(self).objects_spec().contains_key(id) ==> *final(self) == *old(self),
            final(self).surface_spec() == old(self).surface_spec(),
            final(self).render_pass_spec() == old(self).render_pass_spec(),
            final(self).image_views_spec() == old(self).image_views_spec(),
            final(self).framebuffers_spec() == old(self).framebuffers_spec(),
            final(self).viewports_spec() == old(self).viewports_spec(),
            final(self).scissors_spec() == old(self).scissors_spec(),
    {
        proof {
            lemma_entries_map_contains(self.vertexbuffers.entries_seq());
        }
        self.vertexbuffers.remove(id);
    }

    /// Updates the viewport state immediately (the next frame uses it even
    /// if the rebuild fails), then fully rebuilds surface, views, render
    /// pass, pipeline and framebuffers from the fresh capability report.
    /// Fails exactly when the report admits no surface; the old surface
    /// and framebuffers are then kept and the objects are untouched.
    pub fn resize_viewport(&mut self, viewport_info: &ViewportInfo, caps: &SurfaceCaps) -> (r:
        Result<(), RenderError>)
        requires
            old(self).wf(),
        ensures
            final(self).wf(),
            r is Ok <==> caps_admit_surface(*caps),
            final(self).viewport_spec() == viewport_of(*viewport_info),
            final(self).scissor_spec() == scissor_of(*viewport_info),
            final(self).registry_spec() == old(self).registry_spec(),
            r is Ok ==> final(self).surface_spec() == planned_surface(*caps, viewport_info.extent),
            r is Err ==> final(self).surface_spec() == old(self).surface_spec(),
            r is Err ==> final(self).image_views_spec() == old(self).image_views_spec(),
            r is Err ==> final(self).render_pass_spec() == old(self).render_pass_spec(),
            r is Err ==> final(self).framebuffers_spec() == old(self).framebuffers_spec(),
            caps.formats@.len() == 0 ==> r == Result::<(), RenderError>::Err(
                RenderError::NoSurfaceFormat,
            ),
            caps.formats@.len() > 0 && caps.min_image_count == u32::MAX ==> r == Result::<
                (),
                RenderError,
            >::Err(RenderError::ImageCountOverflow),
    {
        self.viewports = vec![viewport_from_info(viewport_info)];
        self.scissors = vec![scissor_from_info(viewport_info)];
        let surface = match create_surface_resources(caps, viewport_info.extent) {
            Ok(s) => s,
            Err(e) => {
                return Err(e);
            },
        };
        self.surface = surface;
        self.image_views = create_image_views(&self.surface);
        self.render_pass = build_pipeline(&self.surface);
        self.framebuffers = create_frame_buffers(&self.render_pass, &self.image_views);
        Ok(())
    }

    /// Records one frame's command buffer against the framebuffer at
    /// `image_index`: begin-with-clear, bind pipeline, set the current
    /// viewport and scissor, one draw per live object in id order, end.
    pub fn create_command_buffer(&self, image_index: usize, view_projection: glam::Mat4) -> (r:
        Vec<RenderCommand>)
        requires
            self.wf(),
            image_index < self.framebuffers_spec().len(),
        ensures
            r@ == frame_commands(
                self.entries_spec(),
                image_index,
                self.viewport_spec(),
                self.scissor_spec(),
                view_projection,
            ),
    {
        let mut commands: Vec<RenderCommand> = Vec::new();
        commands.push(RenderCommand::BeginRenderPass { framebuffer_index: image_index });
        commands.push(RenderCommand::BindPipeline);
        commands.push(RenderCommand::SetViewport { viewport: self.viewports[0] });
        commands.push(RenderCommand::SetScissor { scissor: self.scissors[0] });
        let ghost header = commands@;
        let n: usize = self.vertexbuffers.len();
        let mut i: usize = 0;
        while i < n
            invariant
                i <= n,
                n == self.entries_spec().len(),
                commands@ == header + Seq::new(
                    i as nat,
                    |j: int| draw_command(view_projection, self.entries_spec()[j]),
                ),
            decreases n - i,
        {
            let entry = self.vertexbuffers.entry_at(i);
            let model = translation(&entry.object.transform.position);
            let mvp = mat_mul(&view_projection, &model);
            let vertex_count = entry.object.vertices.len();
            commands.push(
                RenderCommand::Draw {
                    object_id: entry.id,
                    vertex_count,
                    push_constants: PushConstants::new(mvp),
                },
            );
            proof {
                assert(Seq::new(
                    (i + 1) as nat,
                    |j: int| draw_command(view_projection, self.entries_spec()[j]),
                ) =~= Seq::new(
                    i as nat,
                    |j: int| draw_command(view_projection, self.entries_spec()[j]),
                ).push(draw_command(view_projection, self.entries_spec()[i as int])));
            }
            i = i + 1;
        }
        commands.push(RenderCommand::EndRenderPass);
        proof {
            assert(commands@ =~= frame_commands(
                self.entries_spec(),
                image_index,
                self.viewport_spec(),
                self.scissor_spec(),
                view_projection,
            ));
        }
        commands
    }

    /// Assembles one frame for the already-acquired swapchain image:
    /// computes the view-projection matrix from the current viewport's
    /// extent and the camera pose, records the command buffer, and hands
    /// both to the presentation scheduler, which submits, presents the
    /// same image, and blocks to completion (single frame in flight).
    /// An image index that names no framebuffer means the swapchain is
    /// stale: the frame is dropped with an error and nothing changes.
    pub fn draw_frame(
        &self,
        camera_location: &glam::Vec3,
        camera_rotation: &glam::Vec3,
        image_index: usize,
    ) -> (r: Result<FrameSubmission, FrameError>)
        requires
            self.wf(),
        ensures
            r is Ok <==> image_index < self.framebuffers_spec().len(),
            r is Err ==> r->Err_0 == FrameError::ImageIndexOutOfRange,
            r is Ok ==> (r->Ok_0).image_index == image_index,
            r is Ok ==> (r->Ok_0).commands@ == frame_commands(
                self.entries_spec(),
                image_index,
                self.viewport_spec(),
                self.scissor_spec(),
                view_projection_of(
                    self.viewport_spec().extent[0],
                    self.viewport_spec().extent[1],
                    *camera_location,
                    *camera_rotation,
                ),
            ),
    {
        if image_index >= self.framebuffers.len() {
            return Err(FrameError::ImageIndexOutOfRange);
        }
        let extent = self.viewports[0].extent;
        let view_projection = make_view_projection(&extent, camera_location, camera_rotation);
        let commands = self.create_command_buffer(image_index, view_projection);
        Ok(FrameSubmission { image_index, commands })
    }

    /// How many framebuffers the container holds.
    pub fn framebuffer_count(&self) -> (r: usize)
        ensures
            r == self.framebuffers_spec().len(),
    {
        self.framebuffers.len()
    }

    /// How many swapchain images the surface was planned with.
    pub fn image_count(&self) -> (r: u32)
        ensures
            r == self.surface_spec().image_count,
    {
        self.surface.image_count
    }

    /// The surface's pixel format.
    pub fn surface_format(&self) -> (r: u32)
        ensures
            r == self.surface_spec().format,
    {
        self.surface.format
    }

    /// The surface's extent in pixels.
    pub fn surface_extent(&self) -> (r: [u32; 2])
        ensures
            r == self.surface_spec().extent,
    {
        self.surface.extent
    }

    /// The whole swapchain plan, for the collaborator that performs the
    /// driver calls.
    pub fn surface_plan(&self) -> (r: PresentationSurface)
        ensures
            r == self.surface_spec(),
    {
        self.surface
    }

    /// The whole render-pass and pipeline configuration, for the
    /// collaborator that performs the driver calls.
    pub fn pipeline_config(&self) -> (r: RenderPassAndPipeline)
        ensures
            r == self.render_pass_spec(),
    {
        self.render_pass
    }

    /// The framebuffer at `index`.
    pub fn framebuffer_at(&self, index: usize) -> (r: Framebuffer)
        requires
            index < self.framebuffers_spec().len(),
        ensures
            r == self.framebuffers_spec()[index as int],
    {
        self.framebuffers[index]
    }

    /// The viewport the next frame will set.
    pub fn current_viewport(&self) -> (r: Viewport)
        requires
            self.wf(),
        ensures
            r == self.viewport_spec(),
    {
        self.viewports[0]
    }

    /// The scissor the next frame will set.
    pub fn current_scissor(&self) -> (r: Scissor)
        requires
            self.wf(),
        ensures
            r == self.scissor_spec(),
    {
        self.scissors[0]
    }

    /// How many objects are live.
    pub fn object_count(&self) -> (r: usize)
        ensures
            r == self.entries_spec().len(),
    {
        self.vertexbuffers.len()
    }

    /// Looks up the live object stored under `id`.
    pub fn get_vulkan_object(&self, id: usize) -> (r: Option<&VulkanObject>)
        requires
            self.wf(),
        ensures
            match r {
                Some(o) => self.objects_spec().contains_key(id) && *o == self.objects_spec()[id],
                None => !self.objects_spec().contains_key(id),
            },
    {
        self.vertexbuffers.get(id)
    }
}

/// Law: in every well-formed container state — well-formedness is
/// established by `new` and preserved by every operation, whatever the
/// sequence of resizes — there are exactly as many framebuffers as
/// swapchain images, and every framebuffer's color attachment format is
/// the render pass's declared color attachment format.
pub proof fn lemma_swapchain_framebuffer_parity(c: VulkanContainer)
    requires
        c.wf(),
    ensures
        c.framebuffers_spec().len() == c.surface_spec().image_count as nat,
        forall|i: int|
            0 <= i < c.framebuffers_spec().len() ==> (#[trigger] c.framebuffers_spec()[i]).color_format
                == c.render_pass_spec().color_format,
{
}

} // verus!
