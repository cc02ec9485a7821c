use vstd::prelude::*;

use crate::descriptors::{ModelDescriptor, TextureFormat};
use crate::error::Error;
use crate::gpu::{Device, Queue};
use crate::material::{spec_material_realization, Material, MaterialModel};
use crate::mesh::{spec_mesh_realization, Mesh, MeshModel};

verus! {

/// A realized model: exactly one mesh and one material, exclusively owned.
pub struct Model {
    mesh: Mesh,
    material: Material,
}

/// What one realized model amounts to.
pub struct ModelModel {
    pub mesh: MeshModel,
    pub material: MaterialModel,
}

/// What realizing one [`ModelDescriptor`] against a surface format produces.
pub open spec fn spec_model_realization(
    descriptor: ModelDescriptor,
    format: TextureFormat,
) -> ModelModel {
    ModelModel {
        mesh: spec_mesh_realization(descriptor.mesh_descriptor),
        material: spec_material_realization(descriptor.material_descriptor, format),
    }
}

impl Model {
    /// The state this realized model holds.
    pub closed spec fn to_model(&self) -> ModelModel {
        ModelModel { mesh: self.mesh.to_model(), material: self.material.to_model() }
    }

    /// Realizes the mesh, then the material; a failing sub-realization
    /// short-circuits and no partial model is returned.
    pub fn from_descriptor(
        descriptor: &ModelDescriptor,
        surface_format: &TextureFormat,
        device: &Device,
        queue: &Queue,
    ) -> (r: Result<Self, Error>)
        ensures
            r is Ok,
            r matches Ok(m) ==> m.to_model() == spec_model_realization(
                *descriptor,
                *surface_format,
            ),
    {
        let mesh = Mesh::from_descriptor(&descriptor.mesh_descriptor, device, queue);
        let material = match Material::from_descriptor(
            &descriptor.material_descriptor,
            surface_format,
            device,
            queue,
        ) {
            Result::Ok(material) => material,
            Result::Err(e) => {
                return Result::Err(e);
            },
        };
        Result::Ok(Self { mesh, material })
    }

    /// The realized mesh.
    pub fn mesh(&self) -> (m: &Mesh)
        ensures
            m.to_model() == self.to_model().mesh,
    {
        &self.mesh
    }

    /// The realized material.
    pub fn material(&self) -> (m: &Material)
        ensures
            m.to_model() == self.to_model().material,
    {
        &self.material
    }
}

} // verus!
