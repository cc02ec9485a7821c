use vstd::prelude::*;

use crate::color::Color;
use crate::math::Vertex;

verus! {

/// Texel format of a texture allocation.
#[derive(Clone, Copy, Debug, PartialEq, Eq, Structural)]
pub enum TextureFormat {
    Rgba8Unorm,
    Rgba8UnormSrgb,
    Bgra8Unorm,
    Bgra8UnormSrgb,
    Depth32Float,
}

/// Dimensionality of a texture allocation.
#[derive(Clone, Copy, Debug, PartialEq, Eq, Structural)]
pub enum TextureDimension {
    D2,
}

/// How a sampler resolves coordinates outside the texture.
#[derive(Clone, Copy, Debug, PartialEq, Eq, Structural)]
pub enum AddressMode {
    ClampToEdge,
    Repeat,
}

/// How a sampler interpolates between texels.
#[derive(Clone, Copy, Debug, PartialEq, Eq, Structural)]
pub enum FilterMode {
    Nearest,
    Linear,
}

/// The ways a texture allocation may be used.
#[derive(Clone, Copy, Debug, PartialEq, Eq, Structural)]
pub struct TextureUsages {
    pub texture_binding: bool,
    pub copy_dst: bool,
    pub render_attachment: bool,
}

/// Size of a two-dimensional texture in texels.
#[derive(Clone, Copy, Debug, PartialEq, Eq, Structural)]
pub struct Size2 {
    pub width: u32,
    pub height: u32,
}

/// Extent of a texture allocation.
#[derive(Clone, Copy, Debug, PartialEq, Eq, Structural)]
pub struct Extent3d {
    pub width: u32,
    pub height: u32,
    pub depth_or_array_layers: u32,
}

/// Creation descriptor of a texture allocation.
#[derive(Clone, Copy, Debug, PartialEq, Eq, Structural)]
pub struct TextureSpec {
    pub size: Extent3d,
    pub mip_level_count: u32,
    pub sample_count: u32,
    pub dimension: TextureDimension,
    pub format: TextureFormat,
    pub usage: TextureUsages,
}

/// Creation descriptor of a texture view; the default view has no overrides.
#[derive(Clone, Copy, Debug, PartialEq, Eq, Structural)]
pub struct TextureViewSpec {}

/// Creation descriptor of a sampler. Levels of detail are whole mip levels.
#[derive(Clone, Copy, Debug, PartialEq, Eq, Structural)]
pub struct SamplerSpec {
    pub address_mode_u: AddressMode,
    pub address_mode_v: AddressMode,
    pub address_mode_w: AddressMode,
    pub mag_filter: FilterMode,
    pub min_filter: FilterMode,
    pub mipmap_filter: FilterMode,
    pub lod_min_clamp: u32,
    pub lod_max_clamp: u32,
}

/// Decoded 8-bit RGBA image data: the host decodes image files at the
/// boundary and hands the library the raw texels with their dimensions.
pub struct ImageData {
    pub data: Vec<u8>,
    pub width: u32,
    pub height: u32,
}

impl ImageData {
    /// The texel payload is complete: four bytes per texel, tightly packed.
    pub open spec fn wf(&self) -> bool {
        self.data@.len() == 4 * (self.width as int) * (self.height as int)
    }

    /// Wraps decoded texels; the payload must be complete.
    pub fn new(data: Vec<u8>, width: u32, height: u32) -> (img: ImageData)
        requires
            data@.len() == 4 * (width as int) * (height as int),
        ensures
            img.data == data,
            img.width == width,
            img.height == height,
            img.wf(),
    {
        ImageData { data, width, height }
    }

    /// The image's dimensions in texels.
    pub fn dimensions(&self) -> (d: (u32, u32))
        ensures
            d.0 == self.width,
            d.1 == self.height,
    {
        (self.width, self.height)
    }
}

/// Declarative description of a desired texture resource. Pure data: carries
/// no GPU handles and is safe to construct anywhere.
pub enum TextureDescriptor {
    /// Decoded 8-bit sRGB image texels with their own dimensions.
    StandardSRGBu8Image(ImageData),
    /// Raw tightly-packed RGBA8 rows with an explicit size.
    StandardSRGBu8Data(Vec<u8>, Size2),
    /// A one-by-one placeholder texture of a single color.
    UniformColor(Color),
    /// A depth buffer of the given size.
    Depth(Size2),
    /// Fully custom texture, view and sampler descriptors.
    Custom(TextureSpec, TextureViewSpec, SamplerSpec),
}

/// Declarative description of a mesh: vertices and indices, uploaded verbatim.
/// No validation of winding order or index bounds is performed; that is left
/// to the caller.
pub struct MeshDescriptor {
    pub vertices: Vec<Vertex>,
    pub indices: Vec<u32>,
}

/// Declarative description of a material: its texture composition and an
/// optional custom shader source (opaque text; this library does not define
/// shader authoring).
pub enum MaterialDescriptor {
    /// Standard shading with the given diffuse texture.
    PBR(TextureDescriptor),
    /// Standard shading with the given diffuse texture and a custom shader.
    PBRCustomShader(TextureDescriptor, String),
}

/// Declarative description of a model: one mesh and one material.
pub struct ModelDescriptor {
    pub mesh_descriptor: MeshDescriptor,
    pub material_descriptor: MaterialDescriptor,
}

} // verus!
