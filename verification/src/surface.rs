//! The presentation surface: swapchain images, their format and extent.
//!
//! The driver's answer to a capability query is handed in as plain data
//! (`SurfaceCaps`); planning the swapchain from it is pure and verified:
//! one image more than the minimum, the first supported pixel format,
//! vsync-locked FIFO presentation and a 16-bit depth attachment.

use vstd::prelude::*;

verus! {

/// The Vulkan format code of the fixed 16-bit depth attachment (`D16_UNORM`).
pub const DEPTH_FORMAT: u32 = 124;

/// The Vulkan code of the strict FIFO presentation mode: vsync-locked, no
/// tearing, the only mode this renderer presents with.
pub const PRESENT_MODE_FIFO: u32 = 2;

/// The Vulkan usage bit of every swapchain image: color attachment only.
pub const IMAGE_USAGE_COLOR_ATTACHMENT: u32 = 16;

/// What a surface-capability query reports, as plain values: the least
/// image count the driver accepts and the supported pixel formats, in the
/// driver's preference order.
#[derive(Clone, PartialEq, Eq, Debug)]
pub struct SurfaceCaps {
    pub min_image_count: u32,
    pub formats: Vec<u32>,
}

/// Why surface resources could not be built.
#[derive(Clone, Copy, PartialEq, Eq, Structural, Debug)]
pub enum RenderError {
    /// The driver reported no supported pixel format.
    NoSurfaceFormat,
    /// The requested image count does not fit in the count's type.
    ImageCountOverflow,
}

/// The swapchain side of the presentation surface, as plain values.
#[derive(Clone, Copy, PartialEq, Eq, Debug)]
pub struct PresentationSurface {
    /// How many presentable images the swapchain was asked for.
    pub image_count: u32,
    /// The pixel format of every swapchain image.
    pub format: u32,
    /// The extent of every swapchain image, in pixels.
    pub extent: [u32; 2],
    /// The presentation mode, as its Vulkan code; always strict FIFO.
    pub present_mode: u32,
    /// The usage bits of every swapchain image, as their Vulkan code;
    /// always color attachment only.
    pub image_usage: u32,
}

/// Whether a capability report admits a surface at all.
pub open spec fn caps_admit_surface(caps: SurfaceCaps) -> bool {
    caps.formats@.len() > 0 && caps.min_image_count < u32::MAX
}

/// The surface that `caps` and `extent` determine: one image more than the
/// driver's minimum, the first supported format, the given extent, strict
/// FIFO presentation, and color-attachment usage.
pub open spec fn planned_surface(caps: SurfaceCaps, extent: [u32; 2]) -> PresentationSurface {
    PresentationSurface {
        image_count: (caps.min_image_count + 1) as u32,
        format: caps.formats@[0],
        extent,
        present_mode: PRESENT_MODE_FIFO,
        image_usage: IMAGE_USAGE_COLOR_ATTACHMENT,
    }
}

/// Plans the swapchain: image count `min + 1` (one more than the minimum,
/// to reduce stalls), the first supported pixel format, the given extent,
/// strict FIFO presentation and color-attachment image usage. Fails
/// exactly when the driver reported no format or the count would overflow.
pub fn create_surface_resources(caps: &SurfaceCaps, extent: [u32; 2]) -> (r: Result<
    PresentationSurface,
    RenderError,
>)
    ensures
        r is Ok <==> caps_admit_surface(*caps),
        r is Ok ==> r->Ok_0 == planned_surface(*caps, extent),
        caps.formats@.len() == 0 ==> r == Result::<PresentationSurface, RenderError>::Err(
            RenderError::NoSurfaceFormat,
        ),
        caps.formats@.len() > 0 && caps.min_image_count == u32::MAX ==> r == Result::<
            PresentationSurface,
            RenderError,
        >::Err(RenderError::ImageCountOverflow),
{
    if caps.formats.len() == 0 {
        return Err(RenderError::NoSurfaceFormat);
    }
    if caps.min_image_count == u32::MAX {
        return Err(RenderError::ImageCountOverflow);
    }
    Ok(
        PresentationSurface {
            image_count: caps.min_image_count + 1,
            format: caps.formats[0],
            extent,
            present_mode: PRESENT_MODE_FIFO,
            image_usage: IMAGE_USAGE_COLOR_ATTACHMENT,
        },
    )
}

/// A view onto one swapchain image, in that image's format and extent.
#[derive(Clone, Copy, PartialEq, Eq, Debug)]
pub struct ImageView {
    pub format: u32,
    pub extent: [u32; 2],
}

/// Builds one view per swapchain image, each in the surface's format and
/// extent.
pub fn create_image_views(surface: &PresentationSurface) -> (r: Vec<ImageView>)
    ensures
        r@.len() == surface.image_count as nat,
        forall|i: int|
            0 <= i < r@.len() ==> #[trigger] r@[i] == (ImageView {
                format: surface.format,
                extent: surface.extent,
            }),
{
    let n: u32 = surface.image_count;
    let mut views: Vec<ImageView> = Vec::new();
    let mut i: u32 = 0;
    while i < n
        invariant
            i <= n,
            views@.len() == i as nat,
            forall|j: int|
                0 <= j < i as nat ==> #[trigger] views@[j] == (ImageView {
                    format: surface.format,
                    extent: surface.extent,
                }),
        decreases n - i,
    {
        views.push(ImageView { format: surface.format, extent: surface.extent });
        i = i + 1;
    }
    views
}

} // verus!
