use vstd::prelude::*;
use vstd::string::StringExecFns;

use crate::descriptors::{MaterialDescriptor, TextureFormat};
use crate::error::Error;
use crate::gpu::{Device, DeviceBindGroup, DeviceBindGroupLayout, DevicePipeline, Queue};
use crate::texture::{spec_texture_realization, Texture, TextureModel};

verus! {

/// A realized material: exclusively owns the texture and pipeline state it
/// was built with. No sharing or reference counting across materials.
pub struct Material {
    name: String,
    diffuse_texture: Texture,
    pipeline: DevicePipeline,
    bind_group: DeviceBindGroup,
}

/// What one realized material amounts to: its realized texture, the custom
/// shader source it was compiled with (if any), and the surface format its
/// pipeline targets.
pub struct MaterialModel {
    pub texture: TextureModel,
    pub shader: Option<Seq<char>>,
    pub format: TextureFormat,
}

/// What realizing one [`MaterialDescriptor`] against a surface format
/// produces.
pub open spec fn spec_material_realization(
    descriptor: MaterialDescriptor,
    format: TextureFormat,
) -> MaterialModel {
    match descriptor {
        MaterialDescriptor::PBR(texture_descriptor) => MaterialModel {
            texture: spec_texture_realization(texture_descriptor),
            shader: Option::None,
            format,
        },
        MaterialDescriptor::PBRCustomShader(texture_descriptor, shader) => MaterialModel {
            texture: spec_texture_realization(texture_descriptor),
            shader: Option::Some(shader@),
            format,
        },
    }
}

impl Material {
    /// The state this realized material holds.
    pub closed spec fn to_model(&self) -> MaterialModel {
        MaterialModel {
            texture: self.diffuse_texture.to_model(),
            shader: match self.pipeline.shader {
                Option::Some(s) => Option::Some(s@),
                Option::None => Option::None,
            },
            format: self.pipeline.format,
        }
    }

    /// Realizes a material: its texture composition, then the bind-group and
    /// pipeline state its variant specifies, including the optional custom
    /// shader source. A shader that the host GPU fails to compile surfaces as
    /// a propagated error there; the realization state recorded here is exact.
    pub fn from_descriptor(
        descriptor: &MaterialDescriptor,
        surface_format: &TextureFormat,
        device: &Device,
        queue: &Queue,
    ) -> (r: Result<Self, Error>)
        ensures
            r is Ok,
            r matches Ok(m) ==> m.to_model() == spec_material_realization(
                *descriptor,
                *surface_format,
            ),
    {
        match descriptor {
            MaterialDescriptor::PBR(texture_descriptor) => {
                let diffuse_texture = Texture::from_descriptor(texture_descriptor, device, queue);
                Result::Ok(Material {
                    name: String::from_str("PBR"),
                    diffuse_texture,
                    pipeline: device.create_pipeline(Option::None, *surface_format),
                    bind_group: device.create_bind_group(),
                })
            },
            MaterialDescriptor::PBRCustomShader(texture_descriptor, shader) => {
                let diffuse_texture = Texture::from_descriptor(texture_descriptor, device, queue);
                let source = shader.clone();
                Result::Ok(Material {
                    name: String::from_str("PBRCustomShader"),
                    diffuse_texture,
                    pipeline: device.create_pipeline(Option::Some(source), *surface_format),
                    bind_group: device.create_bind_group(),
                })
            },
        }
    }
}

/// The material interface the renderer consumes.
pub trait TMaterial {
    /// A short display name of the material kind.
    fn get_name(&self) -> &str;

    /// The realized diffuse texture.
    fn get_diffuse_texture(&self) -> &Texture;

    /// The bind group layout shared by materials of this kind.
    fn get_bind_group_layout(device: &Device) -> DeviceBindGroupLayout where Self: Sized;

    /// The material's bind group.
    fn get_bind_group(&self) -> &DeviceBindGroup;
}

impl TMaterial for Material {
    fn get_name(&self) -> &str {
        self.name.as_str()
    }

    fn get_diffuse_texture(&self) -> (t: &Texture)
        ensures
            t.to_model() == self.to_model().texture,
    {
        &self.diffuse_texture
    }

    fn get_bind_group_layout(device: &Device) -> DeviceBindGroupLayout {
        device.create_bind_group_layout()
    }

    fn get_bind_group(&self) -> &DeviceBindGroup {
        &self.bind_group
    }
}

} // verus!
