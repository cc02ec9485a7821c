use vstd::prelude::*;

use crate::descriptors::{SamplerSpec, TextureFormat, TextureSpec, TextureViewSpec};

verus! {

/// The device capability: the host acquires the real GPU device once at
/// startup and passes this handle down. The crate models the state a device
/// holds on behalf of this library (texture contents, buffer contents,
/// pipeline composition) as plain data inside the created objects, so every
/// resource-creation step below is exact, verified bookkeeping.
pub struct Device {}

/// The queue capability through which texel data is submitted.
pub struct Queue {}

/// A 2D texture allocation: its creation descriptor and the texel bytes that
/// have been uploaded to it so far (empty until a queue write).
pub struct DeviceTexture {
    pub desc: TextureSpec,
    pub data: Vec<u8>,
}

/// A view onto a texture allocation.
pub struct DeviceTextureView {
    pub desc: TextureViewSpec,
}

/// A sampler with its filtering and addressing configuration.
pub struct DeviceSampler {
    pub desc: SamplerSpec,
}

/// A buffer allocation holding its contents verbatim.
pub struct DeviceBuffer<T> {
    pub contents: Vec<T>,
}

/// Pipeline state: the shader source it was built from (if a custom one was
/// supplied) and the surface format it targets.
pub struct DevicePipeline {
    pub shader: Option<String>,
    pub format: TextureFormat,
}

/// An opaque bind group token.
pub struct DeviceBindGroup {}

/// An opaque bind group layout token.
pub struct DeviceBindGroupLayout {}

impl Device {
    /// The host hands this capability to the library once at startup.
    pub fn new() -> (d: Device) {
        Device {}
    }

    /// Allocates a texture; no texel data is resident until a queue write.
    pub fn create_texture(&self, desc: &TextureSpec) -> (t: DeviceTexture)
        ensures
            t.desc == *desc,
            t.data@ == Seq::<u8>::empty(),
    {
        DeviceTexture { desc: *desc, data: Vec::new() }
    }

    /// Builds a sampler from its configuration.
    pub fn create_sampler(&self, desc: &SamplerSpec) -> (s: DeviceSampler)
        ensures
            s.desc == *desc,
    {
        DeviceSampler { desc: *desc }
    }

    /// Allocates a buffer initialized with the given contents, verbatim.
    pub fn create_buffer_init<T>(&self, contents: Vec<T>) -> (b: DeviceBuffer<T>)
        ensures
            b.contents == contents,
    {
        DeviceBuffer { contents }
    }

    /// Builds pipeline state from an optional custom shader source and the
    /// surface format it will render to.
    pub fn create_pipeline(&self, shader: Option<String>, format: TextureFormat) -> (p:
        DevicePipeline)
        ensures
            p.shader == shader,
            p.format == format,
    {
        DevicePipeline { shader, format }
    }

    /// Builds a bind group.
    pub fn create_bind_group(&self) -> (g: DeviceBindGroup) {
        DeviceBindGroup {}
    }

    /// Builds a bind group layout.
    pub fn create_bind_group_layout(&self) -> (g: DeviceBindGroupLayout) {
        DeviceBindGroupLayout {}
    }
}

impl DeviceTexture {
    /// Creates a view onto this texture.
    pub fn create_view(&self, desc: &TextureViewSpec) -> (v: DeviceTextureView)
        ensures
            v.desc == *desc,
    {
        DeviceTextureView { desc: *desc }
    }
}

impl Queue {
    /// The host hands this capability to the library once at startup.
    pub fn new() -> (q: Queue) {
        Queue {}
    }

    /// Uploads tightly-packed texel rows into a texture: after the write the
    /// texture holds exactly the given bytes.
    pub fn write_texture(&self, target: &mut DeviceTexture, data: &[u8])
        ensures
            final(target).desc == old(target).desc,
            final(target).data@ == data@,
    {
        target.data = vstd::slice::slice_to_vec(data);
    }
}

} // verus!
