use akimo_runtime::color::{channel_byte, Color};
use akimo_runtime::descriptors::{
    AddressMode, FilterMode, ImageData, MaterialDescriptor, MeshDescriptor, ModelDescriptor,
    Size2, TextureDescriptor, TextureFormat,
};
use akimo_runtime::gpu::{Device, Queue};
use akimo_runtime::math::{Vec2, Vec3, Vertex};
use akimo_runtime::model::Model;
use akimo_runtime::texture::Texture;

fn gpu() -> (Device, Queue) {
    (Device::new(), Queue::new())
}

#[test]
fn uniform_red_synthesizes_one_red_texel() {
    let (device, queue) = gpu();
    // The host would convert {r:1.0, g:0.0, b:0.0, a:1.0} exactly like this.
    let red = Color {
        r: (1.0f64 * 256.0) as u32,
        g: (0.0f64 * 256.0) as u32,
        b: (0.0f64 * 256.0) as u32,
        a: (1.0f64 * 256.0) as u32,
    };
    let texture = Texture::uniform_color(red, &device, &queue);
    assert_eq!(texture.texture().data, vec![255, 0, 0, 255]);
    assert_eq!(texture.texture().desc.size.width, 1);
    assert_eq!(texture.texture().desc.size.height, 1);
    assert_eq!(texture.texture().desc.format, TextureFormat::Rgba8UnormSrgb);
}

#[test]
fn channel_bytes_saturate() {
    assert_eq!(channel_byte(0), 0);
    assert_eq!(channel_byte(128), 128);
    assert_eq!(channel_byte(255), 255);
    assert_eq!(channel_byte(256), 255);
    assert_eq!(channel_byte(100_000), 255);
}

#[test]
fn raw_data_texture_holds_rows_verbatim() {
    let (device, queue) = gpu();
    let data: Vec<u8> = (0..16).collect();
    let texture = Texture::standard_srgb8_data(
        &data,
        &Size2 { width: 2, height: 2 },
        &device,
        &queue,
    );
    assert_eq!(texture.texture().data, data);
    assert_eq!(texture.texture().desc.size.width, 2);
    assert!(texture.texture().desc.usage.copy_dst);
    assert!(texture.texture().desc.usage.texture_binding);
    assert_eq!(texture.sampler().desc.mag_filter, FilterMode::Linear);
    assert_eq!(texture.sampler().desc.min_filter, FilterMode::Nearest);
    assert_eq!(texture.sampler().desc.address_mode_u, AddressMode::ClampToEdge);
}

#[test]
fn image_texture_takes_dimensions_from_the_image() {
    let (device, queue) = gpu();
    let texels: Vec<u8> = vec![9; 4 * 3 * 2];
    let image = ImageData::new(texels.clone(), 3, 2);
    let texture = Texture::standard_srgb8_image(&image, &device, &queue);
    assert_eq!(texture.texture().desc.size.width, 3);
    assert_eq!(texture.texture().desc.size.height, 2);
    assert_eq!(texture.texture().data, texels);
}

#[test]
fn depth_texture_profile() {
    let (device, queue) = gpu();
    let texture = Texture::from_descriptor(
        &TextureDescriptor::Depth(Size2 { width: 640, height: 480 }),
        &device,
        &queue,
    );
    assert_eq!(texture.texture().desc.format, TextureFormat::Depth32Float);
    assert!(texture.texture().desc.usage.render_attachment);
    assert!(texture.texture().data.is_empty());
    assert_eq!(texture.sampler().desc.mag_filter, FilterMode::Linear);
    assert_eq!(texture.sampler().desc.min_filter, FilterMode::Linear);
    assert_eq!(texture.sampler().desc.mipmap_filter, FilterMode::Nearest);
    assert_eq!(texture.sampler().desc.lod_min_clamp, 0);
    assert_eq!(texture.sampler().desc.lod_max_clamp, 100);
}

#[test]
fn uniform_color_through_descriptor_dispatch() {
    let (device, queue) = gpu();
    let gray = Color { r: 128, g: 128, b: 128, a: 256 };
    let texture = Texture::from_descriptor(
        &TextureDescriptor::UniformColor(gray),
        &device,
        &queue,
    );
    assert_eq!(texture.texture().data, vec![128, 128, 128, 255]);
}

fn triangle_descriptor() -> MeshDescriptor {
    MeshDescriptor {
        vertices: vec![
            Vertex {
                position_coordinates: Vec3 { x: -65536, y: -65536, z: 0 },
                texture_coordinates: Vec2 { x: 0, y: 0 },
            },
            Vertex {
                position_coordinates: Vec3 { x: 65536, y: -65536, z: 0 },
                texture_coordinates: Vec2 { x: 0, y: 0 },
            },
            Vertex {
                position_coordinates: Vec3 { x: 0, y: 65536, z: 0 },
                texture_coordinates: Vec2 { x: 0, y: 0 },
            },
        ],
        indices: vec![0, 1, 2],
    }
}

#[test]
fn model_composes_mesh_and_material() {
    let (device, queue) = gpu();
    let descriptor = ModelDescriptor {
        mesh_descriptor: triangle_descriptor(),
        material_descriptor: MaterialDescriptor::PBRCustomShader(
            TextureDescriptor::UniformColor(Color { r: 0, g: 0, b: 0, a: 256 }),
            "fn main() {}".to_string(),
        ),
    };
    let model = Model::from_descriptor(
        &descriptor,
        &TextureFormat::Bgra8UnormSrgb,
        &device,
        &queue,
    )
    .expect("realization succeeds");
    assert_eq!(
        model.mesh().vertex_buffer().contents,
        descriptor.mesh_descriptor.vertices
    );
    assert_eq!(
        model.mesh().index_buffer().contents,
        descriptor.mesh_descriptor.indices
    );
}
