//! Vertex data as the pipeline consumes it: an interleaved position and
//! color, pre-expanded into triangles (no index buffer). The components are
//! opaque vectors; the renderer's verified logic reads only vertex counts.

use vstd::prelude::*;

verus! {

/// One vertex of a drawable object.
#[derive(Clone, Copy, Debug)]
pub struct Vertex {
    pub position: glam::Vec3,
    pub color: glam::Vec3,
}

impl Vertex {
    pub fn new(position: glam::Vec3, color: glam::Vec3) -> (r: Vertex)
        ensures
            r.position == position,
            r.color == color,
    {
        Vertex { position, color }
    }
}

/// A model: the vertices of one object, already expanded into triangles.
#[derive(Clone, Debug)]
pub struct Model {
    model: Vec<Vertex>,
}

impl Model {
    pub closed spec fn vertices(self) -> Seq<Vertex> {
        self.model@
    }

    pub fn new(vertices: Vec<Vertex>) -> (r: Model)
        ensures
            r.vertices() == vertices@,
    {
        Model { model: vertices }
    }

    pub fn get_model(&self) -> (r: &Vec<Vertex>)
        ensures
            r@ == self.vertices(),
    {
        &self.model
    }
}

} // verus!
