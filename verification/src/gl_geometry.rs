//! A geometry as the driver holds it: a vertex buffer and the table that says
//! where each attribute lies in it.

use vstd::prelude::*;
use crate::context::Context;
use crate::state::VertexBuffer;
use crate::geometry::{find_offset, offset_of, Geometry, GeometryView};

verus! {

/// A vertex buffer together with the geometry that fills it.
#[derive(Debug)]
pub struct GLGeometry {
    buffer: VertexBuffer,
    geometry: Geometry,
}

/// The mathematical value of a [`GLGeometry`].
pub struct GLGeometryView {
    pub buffer: VertexBuffer,
    pub geometry: GeometryView,
}

impl View for GLGeometry {
    type V = GLGeometryView;

    closed spec fn view(&self) -> GLGeometryView {
        GLGeometryView { buffer: self.buffer, geometry: self.geometry@ }
    }
}

impl Clone for GLGeometry {
    fn clone(&self) -> (copy: Self)
        ensures
            copy@ == self@,
    {
        GLGeometry { buffer: self.buffer, geometry: self.geometry.clone() }
    }
}

impl GLGeometry {
    /// Reserves a vertex buffer in `context` for `geometry`. Nothing is
    /// uploaded before the buffer is first asked for.
    pub fn new(context: &mut Context, geometry: Geometry) -> (gl_geometry: GLGeometry)
        ensures
            gl_geometry@.buffer.handle == old(context)@.buffers.len(),
            gl_geometry@.geometry == geometry@,
            final(context)@ == old(context)@.new_buffer(),
    {
        let buffer = context.new_buffer();
        GLGeometry { buffer, geometry }
    }

    /// The geometry that fills the buffer.
    pub fn get_geometry(&self) -> (geometry: &Geometry)
        ensures
            geometry@ == self@.geometry,
    {
        &self.geometry
    }

    /// The byte offset of the attribute `name` within a vertex, or `None`
    /// where the geometry has no such attribute.
    pub fn get_offset(&self, name: &String) -> (offset: Option<usize>)
        ensures
            offset == offset_of(self@.geometry.attributes, name@),
    {
        find_offset(&self.geometry.attributes, name)
    }

    /// The vertex buffer, with the geometry's data uploaded to it: the upload
    /// is recorded if `force` is set or the buffer holds no data yet.
    pub fn get_vertex_buffer(&self, context: &mut Context, force: bool) -> (buffer: VertexBuffer)
        ensures
            buffer == self@.buffer,
            final(context)@ == old(context)@.buffer_data(
                self@.buffer.handle,
                self@.geometry.vertices,
                force,
            ),
    {
        context.buffer_data(&self.buffer, &self.geometry.vertices, force);
        self.buffer
    }
}

} // verus!
