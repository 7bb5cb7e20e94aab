//! World transforms: a position, a rotation (pitch, yaw, roll) and a size.
//! The components are opaque vectors; the renderer passes them to the
//! matrix constructors of `linalg` without inspecting them.

use vstd::prelude::*;

verus! {

/// The world transform of an object or camera.
#[derive(Clone, Copy, Debug)]
pub struct Transform {
    pub position: glam::Vec3,
    pub rotation: glam::Vec3,
    pub size: glam::Vec3,
}

impl Transform {
    pub fn new(position: glam::Vec3, rotation: glam::Vec3, size: glam::Vec3) -> (r: Transform)
        ensures
            r.position == position,
            r.rotation == rotation,
            r.size == size,
    {
        Transform { position, rotation, size }
    }

    pub fn get_position(&self) -> (r: glam::Vec3)
        ensures
            r == self.position,
    {
        self.position
    }

    pub fn get_rotation(&self) -> (r: glam::Vec3)
        ensures
            r == self.rotation,
    {
        self.rotation
    }

    pub fn get_size(&self) -> (r: glam::Vec3)
        ensures
            r == self.size,
    {
        self.size
    }
}

} // verus!
