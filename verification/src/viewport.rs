//! Viewport and scissor state.
//!
//! The dynamic viewport is an offset/extent pair in pixels together with the
//! fixed depth range `[0, 1]`; the scissor rectangle always mirrors the
//! viewport. Offsets and extents are whole pixel counts, so the scissor is
//! exactly the viewport (no rounding is lost).

use vstd::prelude::*;

verus! {

/// The offset/extent pair handed to `resize_viewport`, in pixels.
#[derive(Clone, Copy, PartialEq, Eq, Debug)]
pub struct ViewportInfo {
    pub offset: [u32; 2],
    pub extent: [u32; 2],
}

impl ViewportInfo {
    pub fn new(offset: [u32; 2], extent: [u32; 2]) -> (r: ViewportInfo)
        ensures
            r.offset == offset,
            r.extent == extent,
    {
        ViewportInfo { offset, extent }
    }

    pub fn set_offset(&mut self, offset: [u32; 2])
        ensures
            final(self).offset == offset,
            final(self).extent == old(self).extent,
    {
        self.offset = offset;
    }

    pub fn set_extent(&mut self, extent: [u32; 2])
        ensures
            final(self).offset == old(self).offset,
            final(self).extent == extent,
    {
        self.extent = extent;
    }
}

/// A dynamic viewport as recorded into a command buffer; the depth range is
/// always `[0, 1]` and is therefore not a field.
#[derive(Clone, Copy, PartialEq, Eq, Debug)]
pub struct Viewport {
    pub offset: [u32; 2],
    pub extent: [u32; 2],
}

/// A scissor rectangle as recorded into a command buffer.
#[derive(Clone, Copy, PartialEq, Eq, Debug)]
pub struct Scissor {
    pub offset: [u32; 2],
    pub extent: [u32; 2],
}

/// The viewport that a `ViewportInfo` asks for.
pub open spec fn viewport_of(info: ViewportInfo) -> Viewport {
    Viewport { offset: info.offset, extent: info.extent }
}

/// The scissor that a `ViewportInfo` asks for: the viewport rectangle itself.
pub open spec fn scissor_of(info: ViewportInfo) -> Scissor {
    Scissor { offset: info.offset, extent: info.extent }
}

pub fn viewport_from_info(info: &ViewportInfo) -> (r: Viewport)
    ensures
        r == viewport_of(*info),
{
    Viewport { offset: info.offset, extent: info.extent }
}

pub fn scissor_from_info(info: &ViewportInfo) -> (r: Scissor)
    ensures
        r == scissor_of(*info),
{
    Scissor { offset: info.offset, extent: info.extent }
}

} // verus!
