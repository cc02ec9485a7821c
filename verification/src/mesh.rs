use vstd::prelude::*;

use crate::descriptors::MeshDescriptor;
use crate::gpu::{Device, DeviceBuffer, Queue};
use crate::math::Vertex;

verus! {

/// A realized mesh: exclusively owns its vertex and index buffers.
pub struct Mesh {
    vertex_buffer: DeviceBuffer<Vertex>,
    index_buffer: DeviceBuffer<u32>,
}

/// What one realized mesh amounts to: the vertices and indices resident in
/// its buffers.
pub struct MeshModel {
    pub vertices: Seq<Vertex>,
    pub indices: Seq<u32>,
}

/// What realizing one [`MeshDescriptor`] produces: its contents, verbatim.
pub open spec fn spec_mesh_realization(descriptor: MeshDescriptor) -> MeshModel {
    MeshModel { vertices: descriptor.vertices@, indices: descriptor.indices@ }
}

impl Mesh {
    /// The state this realized mesh holds.
    pub closed spec fn to_model(&self) -> MeshModel {
        MeshModel { vertices: self.vertex_buffer.contents@, indices: self.index_buffer.contents@ }
    }

    /// Uploads the descriptor's vertices and indices verbatim into fresh
    /// buffers. No validation of winding order or index bounds is performed.
    pub fn from_descriptor(descriptor: &MeshDescriptor, device: &Device, _queue: &Queue) -> (m:
        Self)
        ensures
            m.to_model() == spec_mesh_realization(*descriptor),
    {
        let vertices = vstd::slice::slice_to_vec(descriptor.vertices.as_slice());
        let indices = vstd::slice::slice_to_vec(descriptor.indices.as_slice());
        Mesh {
            vertex_buffer: device.create_buffer_init(vertices),
            index_buffer: device.create_buffer_init(indices),
        }
    }

    /// The vertex buffer.
    pub fn vertex_buffer(&self) -> (b: &DeviceBuffer<Vertex>)
        ensures
            b.contents@ == self.to_model().vertices,
    {
        &self.vertex_buffer
    }

    /// The index buffer.
    pub fn index_buffer(&self) -> (b: &DeviceBuffer<u32>)
        ensures
            b.contents@ == self.to_model().indices,
    {
        &self.index_buffer
    }
}

} // verus!
