use vstd::prelude::*;

use crate::color::{spec_channel_byte, channel_byte, Color};
use crate::descriptors::{
    AddressMode, Extent3d, FilterMode, ImageData, SamplerSpec, Size2, TextureDescriptor,
    TextureDimension, TextureFormat, TextureSpec, TextureUsages, TextureViewSpec,
};
use crate::gpu::{Device, DeviceSampler, DeviceTexture, DeviceTextureView, Queue};

verus! {

/// A realized texture: exclusively owns its allocation, view and sampler.
/// Constructed only by the realization functions below; the owning material
/// releases it when destroyed.
pub struct Texture {
    texture: DeviceTexture,
    view: DeviceTextureView,
    sampler: DeviceSampler,
}

/// What one realized texture amounts to: its allocation descriptor, the texel
/// bytes resident in it, and its view and sampler configurations.
pub struct TextureModel {
    pub desc: TextureSpec,
    pub data: Seq<u8>,
    pub view: TextureViewSpec,
    pub sampler: SamplerSpec,
}

/// The allocation descriptor every standard sRGB 8-bit texture uses: one mip
/// level, one sample, 2D, RGBA8 sRGB, bindable and upload-capable.
pub open spec fn spec_standard_srgb8_spec(size: Size2) -> TextureSpec {
    TextureSpec {
        size: Extent3d { width: size.width, height: size.height, depth_or_array_layers: 1 },
        mip_level_count: 1,
        sample_count: 1,
        dimension: TextureDimension::D2,
        format: TextureFormat::Rgba8UnormSrgb,
        usage: TextureUsages { texture_binding: true, copy_dst: true, render_attachment: false },
    }
}

/// The sampler every standard sRGB 8-bit texture uses: linear magnification,
/// nearest minification, clamp-to-edge addressing.
pub open spec fn spec_standard_srgb8_sampler() -> SamplerSpec {
    SamplerSpec {
        address_mode_u: AddressMode::ClampToEdge,
        address_mode_v: AddressMode::ClampToEdge,
        address_mode_w: AddressMode::ClampToEdge,
        mag_filter: FilterMode::Linear,
        min_filter: FilterMode::Nearest,
        mipmap_filter: FilterMode::Nearest,
        lod_min_clamp: 0,
        lod_max_clamp: 32,
    }
}

/// The allocation descriptor of a depth texture: 32-bit float depth format,
/// usable as a render attachment and bindable.
pub open spec fn spec_depth_spec(size: Size2) -> TextureSpec {
    TextureSpec {
        size: Extent3d { width: size.width, height: size.height, depth_or_array_layers: 1 },
        mip_level_count: 1,
        sample_count: 1,
        dimension: TextureDimension::D2,
        format: TextureFormat::Depth32Float,
        usage: TextureUsages { texture_binding: true, copy_dst: false, render_attachment: true },
    }
}

/// The dedicated filtering profile of a depth texture: linear magnification
/// and minification, nearest mipmap filtering, levels of detail clamped to
/// `[0, 100]`.
pub open spec fn spec_depth_sampler() -> SamplerSpec {
    SamplerSpec {
        address_mode_u: AddressMode::ClampToEdge,
        address_mode_v: AddressMode::ClampToEdge,
        address_mode_w: AddressMode::ClampToEdge,
        mag_filter: FilterMode::Linear,
        min_filter: FilterMode::Linear,
        mipmap_filter: FilterMode::Nearest,
        lod_min_clamp: 0,
        lod_max_clamp: 100,
    }
}

/// The four texel bytes a uniform color synthesizes to.
pub open spec fn spec_uniform_color_texel(color: Color) -> Seq<u8> {
    seq![
        spec_channel_byte(color.r),
        spec_channel_byte(color.g),
        spec_channel_byte(color.b),
        spec_channel_byte(color.a),
    ]
}

/// What realizing one [`TextureDescriptor`] produces.
pub open spec fn spec_texture_realization(descriptor: TextureDescriptor) -> TextureModel {
    match descriptor {
        TextureDescriptor::StandardSRGBu8Image(image) => TextureModel {
            desc: spec_standard_srgb8_spec(Size2 { width: image.width, height: image.height }),
            data: image.data@,
            view: TextureViewSpec {},
            sampler: spec_standard_srgb8_sampler(),
        },
        TextureDescriptor::StandardSRGBu8Data(data, size) => TextureModel {
            desc: spec_standard_srgb8_spec(size),
            data: data@,
            view: TextureViewSpec {},
            sampler: spec_standard_srgb8_sampler(),
        },
        TextureDescriptor::UniformColor(color) => TextureModel {
            desc: spec_standard_srgb8_spec(Size2 { width: 1, height: 1 }),
            data: spec_uniform_color_texel(color),
            view: TextureViewSpec {},
            sampler: spec_standard_srgb8_sampler(),
        },
        TextureDescriptor::Depth(size) => TextureModel {
            desc: spec_depth_spec(size),
            data: Seq::empty(),
            view: TextureViewSpec {},
            sampler: spec_depth_sampler(),
        },
        TextureDescriptor::Custom(texture_spec, view_spec, sampler_spec) => TextureModel {
            desc: texture_spec,
            data: Seq::empty(),
            view: view_spec,
            sampler: sampler_spec,
        },
    }
}

impl Texture {
    /// The state this realized texture holds.
    pub closed spec fn to_model(&self) -> TextureModel {
        TextureModel {
            desc: self.texture.desc,
            data: self.texture.data@,
            view: self.view.desc,
            sampler: self.sampler.desc,
        }
    }

    /// Realizes any texture descriptor, dispatching on its variant.
    pub fn from_descriptor(descriptor: &TextureDescriptor, device: &Device, queue: &Queue) -> (t:
        Self)
        ensures
            t.to_model() == spec_texture_realization(*descriptor),
    {
        match descriptor {
            TextureDescriptor::StandardSRGBu8Image(image) => Self::standard_srgb8_image(
                image,
                device,
                queue,
            ),
            TextureDescriptor::StandardSRGBu8Data(data, size) => Self::standard_srgb8_data(
                data.as_slice(),
                size,
                device,
                queue,
            ),
            TextureDescriptor::UniformColor(color) => Self::uniform_color(*color, device, queue),
            TextureDescriptor::Depth(size) => Self::depth_texture(size, device, queue),
            TextureDescriptor::Custom(texture_spec, view_spec, sampler_spec) => Self::from_descriptors(
                texture_spec,
                view_spec,
                sampler_spec,
                device,
                queue,
            ),
        }
    }

    /// A uniform one-color texture: one texel, four bytes, each channel the
    /// saturating byte of the fixed-point color channel. Usable as a minimal
    /// placeholder or empty texture.
    pub fn uniform_color(color: Color, device: &Device, queue: &Queue) -> (t: Self)
        ensures
            t.to_model() == spec_texture_realization(TextureDescriptor::UniformColor(color)),
    {
        let texel: [u8; 4] = [
            channel_byte(color.r),
            channel_byte(color.g),
            channel_byte(color.b),
            channel_byte(color.a),
        ];
        proof {
            assert(texel@ =~= spec_uniform_color_texel(color));
        }
        Self::standard_srgb8_data(texel.as_slice(), &Size2 { width: 1, height: 1 }, device, queue)
    }

    /// Realizes decoded image texels as a standard sRGB 8-bit texture, the
    /// dimensions taken from the image itself.
    pub fn standard_srgb8_image(image: &ImageData, device: &Device, queue: &Queue) -> (t: Self)
        ensures
            t.to_model().desc == spec_standard_srgb8_spec((Size2 { width: image.width, height: image.height })),
            t.to_model().data == image.data@,
            t.to_model().view == (TextureViewSpec {}),
            t.to_model().sampler == spec_standard_srgb8_sampler(),
    {
        let (width, height) = image.dimensions();
        Self::standard_srgb8_data(image.data.as_slice(), &Size2 { width, height }, device, queue)
    }

    /// Realizes raw tightly-packed RGBA8 rows as a standard sRGB 8-bit
    /// texture of the given size.
    pub fn standard_srgb8_data(data: &[u8], size: &Size2, device: &Device, queue: &Queue) -> (t:
        Self)
        ensures
            t.to_model().desc == spec_standard_srgb8_spec(*size),
            t.to_model().data == data@,
            t.to_model().view == (TextureViewSpec {}),
            t.to_model().sampler == spec_standard_srgb8_sampler(),
    {
        Self::from_data_srgb8(
            data,
            &TextureSpec {
                size: Extent3d {
                    width: size.width,
                    height: size.height,
                    depth_or_array_layers: 1,
                },
                mip_level_count: 1,
                sample_count: 1,
                dimension: TextureDimension::D2,
                format: TextureFormat::Rgba8UnormSrgb,
                usage: TextureUsages {
                    texture_binding: true,
                    copy_dst: true,
                    render_attachment: false,
                },
            },
            &TextureViewSpec {},
            &SamplerSpec {
                address_mode_u: AddressMode::ClampToEdge,
                address_mode_v: AddressMode::ClampToEdge,
                address_mode_w: AddressMode::ClampToEdge,
                mag_filter: FilterMode::Linear,
                min_filter: FilterMode::Nearest,
                mipmap_filter: FilterMode::Nearest,
                lod_min_clamp: 0,
                lod_max_clamp: 32,
            },
            device,
            queue,
        )
    }

    /// Realizes decoded image texels against explicit descriptors. A mismatch
    /// between the image's dimensions and the descriptor's size is tolerated:
    /// the upload proceeds with the texture's declared size (the host may log
    /// a warning; it is not an error).
    pub fn from_image_srgb8(
        image: ImageData,
        texture_desc: &TextureSpec,
        view_desc: &TextureViewSpec,
        sampler_desc: &SamplerSpec,
        device: &Device,
        queue: &Queue,
    ) -> (t: Self)
        ensures
            t.to_model().desc == *texture_desc,
            t.to_model().data == image.data@,
            t.to_model().view == *view_desc,
            t.to_model().sampler == *sampler_desc,
    {
        Self::from_data_srgb8(image.data.as_slice(), texture_desc, view_desc, sampler_desc, device, queue)
    }

    /// Allocates a texture from explicit descriptors and uploads the given
    /// tightly-packed RGBA8 rows (four bytes per texel per row).
    pub fn from_data_srgb8(
        data: &[u8],
        texture_desc: &TextureSpec,
        view_desc: &TextureViewSpec,
        sampler_desc: &SamplerSpec,
        device: &Device,
        queue: &Queue,
    ) -> (t: Self)
        ensures
            t.to_model().desc == *texture_desc,
            t.to_model().data == data@,
            t.to_model().view == *view_desc,
            t.to_model().sampler == *sampler_desc,
    {
        let mut texture = Self::from_descriptors(texture_desc, view_desc, sampler_desc, device, queue);
        queue.write_texture(&mut texture.texture, data);
        texture
    }

    /// A depth texture of the given size with its dedicated filtering profile.
    fn depth_texture(size: &Size2, device: &Device, queue: &Queue) -> (t: Texture)
        ensures
            t.to_model() == spec_texture_realization(TextureDescriptor::Depth(*size)),
    {
        Self::from_descriptors(
            &TextureSpec {
                size: Extent3d {
                    width: size.width,
                    height: size.height,
                    depth_or_array_layers: 1,
                },
                mip_level_count: 1,
                sample_count: 1,
                dimension: TextureDimension::D2,
                format: TextureFormat::Depth32Float,
                usage: TextureUsages {
                    texture_binding: true,
                    copy_dst: false,
                    render_attachment: true,
                },
            },
            &TextureViewSpec {},
            &SamplerSpec {
                address_mode_u: AddressMode::ClampToEdge,
                address_mode_v: AddressMode::ClampToEdge,
                address_mode_w: AddressMode::ClampToEdge,
                mag_filter: FilterMode::Linear,
                min_filter: FilterMode::Linear,
                mipmap_filter: FilterMode::Nearest,
                lod_min_clamp: 0,
                lod_max_clamp: 100,
            },
            device,
            queue,
        )
    }

    /// Allocates a texture, view and sampler from explicit descriptors; no
    /// texel data is uploaded.
    pub fn from_descriptors(
        texture_desc: &TextureSpec,
        view_desc: &TextureViewSpec,
        sampler_desc: &SamplerSpec,
        device: &Device,
        _queue: &Queue,
    ) -> (t: Self)
        ensures
            t.to_model().desc == *texture_desc,
            t.to_model().data == Seq::<u8>::empty(),
            t.to_model().view == *view_desc,
            t.to_model().sampler == *sampler_desc,
    {
        let texture = device.create_texture(texture_desc);
        let view = texture.create_view(view_desc);
        let sampler = device.create_sampler(sampler_desc);
        Self::from_existing(texture, view, sampler)
    }

    /// Wraps already-created texture objects.
    pub fn from_existing(
        texture: DeviceTexture,
        view: DeviceTextureView,
        sampler: DeviceSampler,
    ) -> (t: Self)
        ensures
            t.to_model().desc == texture.desc,
            t.to_model().data == texture.data@,
            t.to_model().view == view.desc,
            t.to_model().sampler == sampler.desc,
    {
        Self { texture, view, sampler }
    }

    /// The texture allocation.
    pub fn texture(&self) -> (r: &DeviceTexture)
        ensures
            r.desc == self.to_model().desc,
            r.data@ == self.to_model().data,
    {
        &self.texture
    }

    /// The texture view.
    pub fn view(&self) -> (r: &DeviceTextureView)
        ensures
            r.desc == self.to_model().view,
    {
        &self.view
    }

    /// The sampler.
    pub fn sampler(&self) -> (r: &DeviceSampler)
        ensures
            r.desc == self.to_model().sampler,
    {
        &self.sampler
    }
}

} // verus!
