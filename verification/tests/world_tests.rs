use akimo_runtime::camera::{Camera, CameraDescriptor, Mode};
use akimo_runtime::chain::Chain;
use akimo_runtime::color::Color;
use akimo_runtime::entity::{
    Entity, EntityAction, EntityConfiguration, EntityTagDuplicationBehaviour, ScriptedEntity,
    UpdateFrequency, Variant,
};
use akimo_runtime::error::Error;
use akimo_runtime::gpu::Queue;
use akimo_runtime::math::Vec3;
use akimo_runtime::debug_camera::DebugTestCamera;
use akimo_runtime::input::{InputEvent, KeyCode};
use akimo_runtime::world::World;

fn scripted(id: u128, tag: &str, script: Chain<Vec<EntityAction>>) -> Entity {
    Entity::Scripted(ScriptedEntity::new(
        id,
        EntityConfiguration::new(tag.to_string(), UpdateFrequency::EveryFrame, false),
        Vec::new(),
        script,
        Vec::new(),
    ))
}

fn plain(id: u128, tag: &str) -> Entity {
    scripted(id, tag, Chain::End)
}

fn test_camera() -> Camera {
    Camera::from_descriptor(CameraDescriptor {
        identifier: "main".to_string(),
        position: Vec3 { x: 0, y: 0, z: 0 },
    })
}

fn entity_count(world: &World) -> usize {
    world.get_updateable(UpdateFrequency::EveryFrame).len()
}

#[test]
fn warn_policy_keeps_both_and_warns() {
    let mut world = World::new(EntityTagDuplicationBehaviour::WarnOnDuplication);
    assert!(world.add_entity(plain(1, "cam")).is_ok());
    assert!(world.add_entity(plain(2, "cam")).is_ok());
    assert_eq!(entity_count(&world), 2);
    assert_eq!(world.duplicate_tag_warnings(), 1);
    let first = world.get_entity("cam").expect("tag should resolve");
    assert_eq!(first.ulid(), 1);
}

#[test]
fn overwrite_policy_keeps_one_per_tag() {
    let mut world = World::new(EntityTagDuplicationBehaviour::OverwriteOnDuplication);
    assert!(world.add_entity(plain(1, "cam")).is_ok());
    assert!(world.add_entity(plain(2, "cam")).is_ok());
    assert_eq!(entity_count(&world), 1);
    assert_eq!(world.get_entity("cam").expect("tag should resolve").ulid(), 2);
}

#[test]
fn ignore_policy_drops_second() {
    let mut world = World::new(EntityTagDuplicationBehaviour::IgnoreOnDuplication);
    assert!(world.add_entity(plain(1, "cam")).is_ok());
    assert!(world.add_entity(plain(2, "cam")).is_ok());
    assert_eq!(entity_count(&world), 1);
    assert_eq!(world.get_entity("cam").expect("tag should resolve").ulid(), 1);
}

#[test]
fn allow_policy_keeps_both_silently() {
    let mut world = World::new(EntityTagDuplicationBehaviour::AllowDuplication);
    assert!(world.add_entity(plain(1, "cam")).is_ok());
    assert!(world.add_entity(plain(2, "cam")).is_ok());
    assert_eq!(entity_count(&world), 2);
    assert_eq!(world.duplicate_tag_warnings(), 0);
}

#[test]
fn panic_policy_reports_fatal_duplicate() {
    let mut world = World::new(EntityTagDuplicationBehaviour::PanicOnDuplication);
    assert!(world.add_entity(plain(1, "cam")).is_ok());
    match world.add_entity(plain(2, "cam")) {
        Err(Error::DuplicateTagFatal(tag)) => assert_eq!(tag, "cam"),
        other => panic!("expected the fatal duplicate-tag error, got {:?}", other.is_ok()),
    }
    assert_eq!(entity_count(&world), 1);
}

#[test]
fn remove_entity_takes_first_match() {
    let mut world = World::new(EntityTagDuplicationBehaviour::AllowDuplication);
    world.add_entity(plain(1, "a")).unwrap();
    world.add_entity(plain(2, "a")).unwrap();
    let removed = world.remove_entity("a").expect("first holder should leave");
    assert_eq!(removed.ulid(), 1);
    assert_eq!(world.get_entity("a").expect("second holder remains").ulid(), 2);
    assert!(world.remove_entity("missing").is_none());
}

#[test]
fn message_before_removal_is_delivered() {
    // Entity A removes B in the same frame in which B sends A a message:
    // the collect phase runs both update hooks against the same state, and
    // the apply phase processes the effects in emission order, so the
    // message still arrives and B is gone only afterwards.
    let mut world = World::new(EntityTagDuplicationBehaviour::AllowDuplication);
    let remover = scripted(
        1,
        "a",
        Chain::End.prepend(vec![EntityAction::RemoveEntity("b".to_string())]),
    );
    let payload = vec![(
        "msg".to_string(),
        Variant::Text("Hello, World!".to_string()),
    )];
    let sender = scripted(
        2,
        "b",
        Chain::End.prepend(vec![EntityAction::SendMessage("a".to_string(), payload)]),
    );
    world.add_entity(remover).unwrap();
    world.add_entity(sender).unwrap();

    let mut camera = test_camera();
    let queue = Queue::new();
    world
        .call_updateable(UpdateFrequency::EveryFrame, 65536, &mut camera, &queue)
        .unwrap();

    assert!(!world.has_entity("b"), "removal applies within the frame");
    match world.get_entity("a").expect("A survives") {
        Entity::Scripted(a) => match &a.inbox {
            Chain::Link(delivered, rest) => {
                assert_eq!(delivered.len(), 1);
                assert_eq!(delivered[0].0, "msg");
                assert_eq!(
                    delivered[0].1,
                    Variant::Text("Hello, World!".to_string())
                );
                assert!(matches!(**rest, Chain::End));
            }
            Chain::End => panic!("B's message must be delivered to A"),
        },
        _ => panic!("A should be the scripted entity"),
    }
}

#[test]
fn message_to_missing_target_is_dropped() {
    let mut world = World::new(EntityTagDuplicationBehaviour::AllowDuplication);
    let sender = scripted(
        1,
        "a",
        Chain::End.prepend(vec![EntityAction::SendMessage(
            "ghost".to_string(),
            Vec::new(),
        )]),
    );
    world.add_entity(sender).unwrap();
    let mut camera = test_camera();
    let queue = Queue::new();
    assert!(world
        .call_updateable(UpdateFrequency::EveryFrame, 65536, &mut camera, &queue)
        .is_ok());
    assert_eq!(entity_count(&world), 1);
}

#[test]
fn registration_actions_apply_on_next_update_pass() {
    let mut world = World::new(EntityTagDuplicationBehaviour::AllowDuplication);
    let red = Color { r: 256, g: 0, b: 0, a: 256 };
    let bootstrap = Entity::Scripted(ScriptedEntity::new(
        1,
        EntityConfiguration::new("boot".to_string(), UpdateFrequency::EveryFrame, false),
        vec![EntityAction::ClearColorAdjustment(red)],
        Chain::End,
        Vec::new(),
    ));
    world.add_entity(bootstrap).unwrap();
    assert_eq!(world.get_clear_color(), Color { r: 0, g: 0, b: 0, a: 256 });

    let mut camera = test_camera();
    let queue = Queue::new();
    world
        .call_updateable(UpdateFrequency::EveryFrame, 65536, &mut camera, &queue)
        .unwrap();
    assert_eq!(world.get_clear_color(), red);
}

#[test]
fn spawned_entity_joins_for_next_frame() {
    let mut world = World::new(EntityTagDuplicationBehaviour::AllowDuplication);
    let spawner = scripted(
        1,
        "spawner",
        Chain::End.prepend(vec![EntityAction::SpawnEntity(Box::new(plain(2, "child")))]),
    );
    world.add_entity(spawner).unwrap();
    assert!(!world.has_entity("child"));

    let mut camera = test_camera();
    let queue = Queue::new();
    world
        .call_updateable(UpdateFrequency::EveryFrame, 65536, &mut camera, &queue)
        .unwrap();
    assert!(world.has_entity("child"));
    assert_eq!(entity_count(&world), 2);
}

#[test]
fn camera_change_reaches_collaborator() {
    let mut world = World::new(EntityTagDuplicationBehaviour::AllowDuplication);
    let mover = scripted(
        1,
        "mover",
        Chain::End.prepend(vec![EntityAction::CameraChange(
            akimo_runtime::camera::CameraChange {
                target: "main".to_string(),
                position: Some(Mode::Offset(Vec3 { x: 65536, y: 0, z: 0 })),
            },
        )]),
    );
    world.add_entity(mover).unwrap();
    let mut camera = test_camera();
    let queue = Queue::new();
    world
        .call_updateable(UpdateFrequency::EveryFrame, 65536, &mut camera, &queue)
        .unwrap();
    assert_eq!(camera.position, Vec3 { x: 65536, y: 0, z: 0 });
}

#[test]
fn keep_actions_have_no_effect() {
    let mut world = World::new(EntityTagDuplicationBehaviour::AllowDuplication);
    let idle = scripted(1, "idle", Chain::End.prepend(vec![EntityAction::Keep]));
    world.add_entity(idle).unwrap();
    let mut camera = test_camera();
    let queue = Queue::new();
    world
        .call_updateable(UpdateFrequency::EveryFrame, 65536, &mut camera, &queue)
        .unwrap();
    assert_eq!(entity_count(&world), 1);
    assert_eq!(world.get_clear_color(), Color { r: 0, g: 0, b: 0, a: 256 });
}

#[test]
fn frequency_never_selects_nothing() {
    let mut world = World::new(EntityTagDuplicationBehaviour::AllowDuplication);
    let red = Color { r: 256, g: 0, b: 0, a: 256 };
    let eager = scripted(
        1,
        "eager",
        Chain::End.prepend(vec![EntityAction::ClearColorAdjustment(red)]),
    );
    world.add_entity(eager).unwrap();
    assert_eq!(world.get_updateable(UpdateFrequency::Never).len(), 0);
    let mut camera = test_camera();
    let queue = Queue::new();
    world
        .call_updateable(UpdateFrequency::Never, 65536, &mut camera, &queue)
        .unwrap();
    // The entity was not selected, so its script step was not consumed...
    assert_eq!(world.get_clear_color(), Color { r: 0, g: 0, b: 0, a: 256 });
    // ...and a matching pass afterwards still sees it.
    world
        .call_updateable(UpdateFrequency::EveryFrame, 65536, &mut camera, &queue)
        .unwrap();
    assert_eq!(world.get_clear_color(), red);
}

#[test]
fn get_entity_mut_reaches_the_stored_entity() {
    let mut world = World::new(EntityTagDuplicationBehaviour::AllowDuplication);
    world.add_entity(plain(1, "a")).unwrap();
    {
        let entity = world.get_entity_mut("a").expect("present");
        match entity {
            Entity::Scripted(s) => s.updates_run = 99,
            _ => panic!("scripted entity expected"),
        }
    }
    match world.get_entity("a").expect("still present") {
        Entity::Scripted(s) => assert_eq!(s.updates_run, 99),
        _ => panic!("scripted entity expected"),
    }
    assert!(world.get_entity_mut("missing").is_none());
}

#[test]
fn input_reaches_camera_through_the_frame_loop() {
    let mut world = World::new(EntityTagDuplicationBehaviour::AllowDuplication);
    world
        .add_entity(Entity::DebugCamera(DebugTestCamera::new()))
        .unwrap();
    let mut camera = Camera::from_descriptor(CameraDescriptor {
        identifier: "DEBUG".to_string(),
        position: Vec3 { x: 0, y: 0, z: 0 },
    });
    let queue = Queue::new();

    // Frame one consumes the bootstrap placement; no input is pending yet.
    world
        .call_updateable(UpdateFrequency::EveryFrame, 65536, &mut camera, &queue)
        .unwrap();
    assert_eq!(camera.position, Vec3 { x: -5 * 65536, y: 0, z: 0 });

    // Frame two: a forward press, delivered before the update pass, becomes
    // a view-aligned offset; with no orientation known it degrades to a
    // plain offset of one unit forward per second.
    world.deliver_input_event(65536, &InputEvent::Key(KeyCode::KeyW, true));
    world
        .call_updateable(UpdateFrequency::EveryFrame, 65536, &mut camera, &queue)
        .unwrap();
    assert_eq!(camera.position, Vec3 { x: -4 * 65536, y: 0, z: 0 });
}

#[test]
fn update_isolation_within_one_frame() {
    // Both entities' update hooks run against the frame's starting state:
    // the entity removed by A's effect still emits its own effect first.
    let mut world = World::new(EntityTagDuplicationBehaviour::AllowDuplication);
    let red = Color { r: 256, g: 0, b: 0, a: 256 };
    let remover = scripted(
        1,
        "a",
        Chain::End.prepend(vec![EntityAction::RemoveEntity("b".to_string())]),
    );
    let painter = scripted(
        2,
        "b",
        Chain::End.prepend(vec![EntityAction::ClearColorAdjustment(red)]),
    );
    world.add_entity(remover).unwrap();
    world.add_entity(painter).unwrap();
    let mut camera = test_camera();
    let queue = Queue::new();
    world
        .call_updateable(UpdateFrequency::EveryFrame, 65536, &mut camera, &queue)
        .unwrap();
    assert!(!world.has_entity("b"));
    assert_eq!(world.get_clear_color(), red, "B's effect was collected before its removal");
}
