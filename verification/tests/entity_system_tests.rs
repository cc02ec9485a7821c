use akimo_runtime::chain::Chain;
use akimo_runtime::entity::{
    Entity, EntityConfiguration, ScriptedEntity, UpdateFrequency,
};
use akimo_runtime::entity_system::{entities, entity_system, scripted_with_fresh_id, EntitySystem};
use akimo_runtime::error::EntityError;

fn plain(id: u128) -> Entity {
    Entity::Scripted(ScriptedEntity::new(
        id,
        EntityConfiguration::new(format!("e{}", id), UpdateFrequency::EveryFrame, false),
        Vec::new(),
        Chain::End,
        Vec::new(),
    ))
}

#[test]
fn spawn_rejects_duplicate_identity() {
    let mut system = EntitySystem::new();
    assert!(system.spawn(plain(7)).is_ok());
    match system.spawn(plain(7)) {
        Err(EntityError::DuplicateIdentity(id)) => assert_eq!(id, 7),
        _ => panic!("a second entity under the same identifier must be refused"),
    }
    assert!(system.contains(7));
}

#[test]
fn despawn_returns_the_entity_or_not_found() {
    let mut system = EntitySystem::new();
    system.spawn(plain(1)).unwrap();
    match system.despawn(2) {
        Err(EntityError::NotFound(id)) => assert_eq!(id, 2),
        _ => panic!("a missing identifier must be NotFound"),
    }
    let removed = system.despawn(1).expect("present entity leaves");
    assert_eq!(removed.ulid(), 1);
    assert!(!system.contains(1));
}

#[test]
fn lookups_survive_removal_reindexing() {
    let mut system = EntitySystem::new();
    system.spawn(plain(1)).unwrap();
    system.spawn(plain(2)).unwrap();
    system.spawn(plain(3)).unwrap();
    // Removing the first forces the store to move another entity into its
    // slot; every remaining lookup must still land on the right entity.
    system.despawn(1).unwrap();
    assert_eq!(system.get(2).expect("still present").ulid(), 2);
    assert_eq!(system.get(3).expect("still present").ulid(), 3);
    assert!(!system.contains(1));
    match system.get(1) {
        Err(EntityError::NotFound(id)) => assert_eq!(id, 1),
        _ => panic!("the removed identifier must be NotFound"),
    }
    system.despawn(3).unwrap();
    assert_eq!(system.get(2).expect("still present").ulid(), 2);
}

#[test]
fn get_mut_reaches_the_stored_entity() {
    let mut system = EntitySystem::new();
    system.spawn(plain(5)).unwrap();
    {
        let entity = system.get_mut(5).expect("present");
        match entity {
            Entity::Scripted(s) => s.updates_run = 41,
            _ => panic!("scripted entity expected"),
        }
    }
    match system.get(5).expect("still present") {
        Entity::Scripted(s) => assert_eq!(s.updates_run, 41),
        _ => panic!("scripted entity expected"),
    }
    assert!(matches!(system.get_mut(9), Err(EntityError::NotFound(9))));
}

#[test]
fn spawn_renderer_second_registration_is_slot_occupied() {
    let mut system = EntitySystem::new();
    assert!(system.renderer().is_none());
    assert!(system.spawn_renderer(plain(10)).is_ok());
    match system.spawn_renderer(plain(11)) {
        Err(EntityError::SlotOccupied) => {}
        _ => panic!("the singleton slot admits one renderer"),
    }
    let renderer = system.renderer().expect("slot holds the first renderer");
    assert_eq!(renderer.ulid(), 10, "the original renderer is unchanged");
}

#[test]
fn registry_constructors_start_empty() {
    let a = entity_system();
    assert!(!a.contains(1));
    assert!(a.renderer().is_none());
    let b = entities();
    assert!(!b.contains(1));
}

#[test]
fn fresh_identifiers_feed_the_registry() {
    let mut system = EntitySystem::new();
    let first = scripted_with_fresh_id(
        EntityConfiguration::new("one".to_string(), UpdateFrequency::EveryFrame, false),
        Vec::new(),
        Chain::End,
        Vec::new(),
    );
    let second = scripted_with_fresh_id(
        EntityConfiguration::new("two".to_string(), UpdateFrequency::EveryFrame, false),
        Vec::new(),
        Chain::End,
        Vec::new(),
    );
    let first_id = first.id;
    assert!(system.spawn(Entity::Scripted(first)).is_ok());
    assert!(system.spawn(Entity::Scripted(second)).is_ok());
    assert!(system.contains(first_id));
}
