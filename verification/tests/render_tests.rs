use akimo_runtime::chain::Chain;
use akimo_runtime::color::Color;
use akimo_runtime::descriptors::{
    MaterialDescriptor, MeshDescriptor, ModelDescriptor, TextureDescriptor, TextureFormat,
};
use akimo_runtime::entity::{
    Entity, EntityConfiguration, EntityTagDuplicationBehaviour, ScriptedEntity, UpdateFrequency,
};
use akimo_runtime::gpu::{Device, Queue};
use akimo_runtime::math::{Vec2, Vec3, Vertex};
use akimo_runtime::square::Square;
use akimo_runtime::surface::SurfaceWrapper;
use akimo_runtime::world::World;

fn renderable_entity(id: u128, tag: &str) -> Entity {
    let square = Square;
    let vertices = square.vertices();
    let indices: Vec<u32> = square.indices().iter().map(|i| *i as u32).collect();
    Entity::Scripted(ScriptedEntity::new(
        id,
        EntityConfiguration::new(tag.to_string(), UpdateFrequency::EveryFrame, true),
        Vec::new(),
        Chain::End,
        vec![ModelDescriptor {
            mesh_descriptor: MeshDescriptor { vertices, indices },
            material_descriptor: MaterialDescriptor::PBR(TextureDescriptor::UniformColor(
                Color { r: 256, g: 256, b: 256, a: 256 },
            )),
        }],
    ))
}

#[test]
fn preparation_realizes_each_entity_exactly_once() {
    let mut world = World::new(EntityTagDuplicationBehaviour::AllowDuplication);
    world.add_entity(renderable_entity(1, "square")).unwrap();
    let device = Device::new();
    let queue = Queue::new();
    let format = TextureFormat::Bgra8UnormSrgb;

    assert_eq!(world.get_unprepared_renderable().len(), 1);
    let meshes = world.prepare_render_and_collect_meshes(&format, &device, &queue);
    assert_eq!(meshes.len(), 1);
    assert_eq!(meshes[0].vertex_buffer().contents, Square.vertices());
    drop(meshes);

    assert_eq!(world.get_unprepared_renderable().len(), 0);
    assert_eq!(world.get_prepared_renderable().len(), 1);

    // The second pass re-realizes nothing: exactly one realized model per
    // descriptor, untouched.
    let meshes_again = world.prepare_render_and_collect_meshes(&format, &device, &queue);
    assert_eq!(meshes_again.len(), 1);
    drop(meshes_again);
    match world.get_entity("square").expect("present") {
        Entity::Scripted(s) => assert_eq!(s.realized.len(), 1),
        _ => panic!("scripted entity expected"),
    }
}

#[test]
fn render_ineligible_entities_stay_unprepared() {
    let mut world = World::new(EntityTagDuplicationBehaviour::AllowDuplication);
    let hidden = Entity::Scripted(ScriptedEntity::new(
        1,
        EntityConfiguration::new("hidden".to_string(), UpdateFrequency::EveryFrame, false),
        Vec::new(),
        Chain::End,
        Vec::new(),
    ));
    world.add_entity(hidden).unwrap();
    let device = Device::new();
    let queue = Queue::new();
    let meshes = world.prepare_render_and_collect_meshes(
        &TextureFormat::Bgra8UnormSrgb,
        &device,
        &queue,
    );
    assert!(meshes.is_empty());
    drop(meshes);
    assert_eq!(world.get_prepared_renderable().len(), 0);
}

#[test]
fn square_geometry_is_fixed() {
    let square = Square;
    let vertices = square.vertices();
    assert_eq!(vertices.len(), 4);
    assert_eq!(
        vertices[0],
        Vertex {
            position_coordinates: Vec3 { x: -32768, y: -32768, z: 0 },
            texture_coordinates: Vec2 { x: 65536, y: 65536 },
        }
    );
    assert_eq!(
        vertices[2],
        Vertex {
            position_coordinates: Vec3 { x: 32768, y: 32768, z: 0 },
            texture_coordinates: Vec2 { x: 0, y: 0 },
        }
    );
    assert_eq!(square.indices(), vec![0u16, 1, 3, 1, 2, 3]);
}

#[test]
fn surface_lifecycle() {
    let device = Device::new();
    let mut wrapper = SurfaceWrapper::new();
    assert!(wrapper.get().is_none());

    wrapper.resume(&device, 800, 600, TextureFormat::Bgra8Unorm);
    assert!(wrapper.get().is_some());
    {
        let configuration = wrapper.configuration();
        assert_eq!(configuration.width, 800);
        assert_eq!(configuration.height, 600);
        assert_eq!(configuration.format, TextureFormat::Bgra8Unorm);
        assert_eq!(
            configuration.view_formats,
            vec![TextureFormat::Bgra8UnormSrgb]
        );
    }

    wrapper.resize(1024, 768);
    let configuration = wrapper.configuration();
    assert_eq!(configuration.width, 1024);
    assert_eq!(configuration.height, 768);
    assert_eq!(configuration.format, TextureFormat::Bgra8Unorm);
}
