use vstd::prelude::*;

use crate::chain::Chain;
use crate::descriptors::ModelDescriptor;
use crate::entity::{Entity, EntityAction, EntityConfiguration, ScriptedEntity};
use crate::error::EntityError;

verus! {

/// The exact-key index of the registry: a hash map from entity identifier to
/// the entity's position in the backing store.
///
/// The map itself is hashbrown's; Verus cannot declare that type (its
/// signature carries an allocator parameter), so it lives in this opaque
/// struct and is reached only through the wrappers below.
#[verifier::external_body]
pub struct UlidIndex {
    inner: hashbrown::HashMap<u128, usize>,
}

/// What the index holds: its key-to-position map.
pub uninterp spec fn ulid_index_contents(index: UlidIndex) -> Map<u128, usize>;

impl View for UlidIndex {
    type V = Map<u128, usize>;

    open spec fn view(&self) -> Map<u128, usize> {
        ulid_index_contents(*self)
    }
}

/// The contents of an index with no entries.
pub open spec fn spec_empty_index_contents() -> Map<u128, usize> {
    Map::empty()
}

/// Relies on hashbrown's `HashMap::new`: the new map is empty.
#[verifier::external_body]
fn ulid_index_new() -> (created: UlidIndex)
    ensures
        created@ == spec_empty_index_contents(),
{
    UlidIndex { inner: hashbrown::HashMap::new() }
}

/// Relies on hashbrown's `HashMap::insert`: the key now maps to the value,
/// and the old value under the key, if any, is handed back.
#[verifier::external_body]
fn ulid_index_insert(index: &mut UlidIndex, key: u128, value: usize) -> (old_value: Option<usize>)
    ensures
        ulid_index_contents(*final(index)) == ulid_index_contents(*old(index)).insert(key, value),
        old_value == if ulid_index_contents(*old(index)).dom().contains(key) {
            Option::Some(ulid_index_contents(*old(index))[key])
        } else {
            Option::None
        },
{
    index.inner.insert(key, value)
}

/// Relies on hashbrown's `HashMap::remove`: the key is gone, and its value,
/// if it was present, is handed back.
#[verifier::external_body]
fn ulid_index_remove(index: &mut UlidIndex, key: u128) -> (old_value: Option<usize>)
    ensures
        ulid_index_contents(*final(index)) == ulid_index_contents(*old(index)).remove(key),
        old_value == if ulid_index_contents(*old(index)).dom().contains(key) {
            Option::Some(ulid_index_contents(*old(index))[key])
        } else {
            Option::None
        },
{
    index.inner.remove(&key)
}

/// Relies on hashbrown's `HashMap::get`: the value under the key, if any.
#[verifier::external_body]
fn ulid_index_get(index: &UlidIndex, key: u128) -> (value: Option<usize>)
    ensures
        value == if ulid_index_contents(*index).dom().contains(key) {
            Option::Some(ulid_index_contents(*index)[key])
        } else {
            Option::None
        },
{
    index.inner.get(&key).copied()
}

/// Relies on hashbrown's `HashMap::contains_key`.
#[verifier::external_body]
fn ulid_index_contains(index: &UlidIndex, key: u128) -> (r: bool)
    ensures
        r == ulid_index_contents(*index).dom().contains(key),
{
    index.inner.contains_key(&key)
}

/// Relies on `ulid::Ulid::generate`: a fresh identifier drawn from the
/// current time and a random source. Nothing is promised of the value; the
/// registry itself rejects a collision on insertion.
#[verifier::external_body]
pub fn fresh_ulid() -> (id: u128)
{
    ulid::Ulid::generate().0
}

/// A scripted entity under a freshly generated unique identifier.
pub fn scripted_with_fresh_id(
    config: EntityConfiguration,
    registration_actions: Vec<EntityAction>,
    script: Chain<Vec<EntityAction>>,
    descriptors: Vec<ModelDescriptor>,
) -> (e: ScriptedEntity)
    ensures
        e.config == config,
        !e.registered,
        e.registration_actions == Option::Some(registration_actions),
        e.script == script,
        e.updates_run == 0,
        e.input_events_seen == 0,
        e.descriptors == descriptors,
{
    let id = fresh_ulid();
    ScriptedEntity::new(id, config, registration_actions, script, descriptors)
}

/// The keyed global-registry variant of an entity store: entities are looked
/// up by their globally unique identifier (an exact-key map, not a tag scan),
/// and one singleton slot holds at most one renderer entity.
pub struct EntitySystem {
    entities: Vec<Entity>,
    index: UlidIndex,
    renderer: Option<Entity>,
}

/// The registry type under its collective name.
pub type Entities = EntitySystem;

/// The registry's abstract state: the keyed entities and the renderer slot.
pub struct EntitySystemModel {
    pub entities: Map<u128, Entity>,
    pub renderer: Option<Entity>,
}

impl View for EntitySystem {
    type V = EntitySystemModel;

    closed spec fn view(&self) -> EntitySystemModel {
        EntitySystemModel {
            entities: Map::new(
                |id: u128| ulid_index_contents(self.index).dom().contains(id),
                |id: u128| self.entities@[ulid_index_contents(self.index)[id] as int],
            ),
            renderer: self.renderer,
        }
    }
}

impl EntitySystem {
    /// The index and the backing store agree: every indexed position is in
    /// range and holds the entity with that identifier, and every stored
    /// entity is indexed at its position.
    pub closed spec fn wf(&self) -> bool {
        let m = ulid_index_contents(self.index);
        &&& forall|id: u128| m.dom().contains(id) ==> (#[trigger] m[id]) < self.entities@.len()
        &&& forall|id: u128|
            m.dom().contains(id) ==> (#[trigger] self.entities@[m[id] as int]).spec_id() == id
        &&& forall|i: int|
            0 <= i < self.entities@.len() ==> {
                let id = (#[trigger] self.entities@[i]).spec_id();
                m.dom().contains(id) && m[id] == i
            }
    }

    /// An empty registry.
    pub fn new() -> (s: Self)
        ensures
            s@.entities == Map::<u128, Entity>::empty(),
            s@.renderer is None,
            s.wf(),
    {
        let s = EntitySystem { entities: Vec::new(), index: ulid_index_new(), renderer: Option::None };
        proof {
            assert(s@.entities =~= Map::<u128, Entity>::empty());
        }
        s
    }

    /// Inserts an entity under its own identifier; an entity with the same
    /// identifier must not already exist.
    pub fn spawn(&mut self, entity: Entity) -> (r: Result<(), EntityError>)
        requires
            old(self).wf(),
        ensures
            final(self).wf(),
            old(self)@.entities.dom().contains(entity.spec_id()) ==> r == Result::<(),
                EntityError,
            >::Err(EntityError::DuplicateIdentity(entity.spec_id())) && *final(self) == *old(self),
            !old(self)@.entities.dom().contains(entity.spec_id()) ==> r is Ok && final(self)@.entities
                == old(self)@.entities.insert(entity.spec_id(), entity) && final(self)@.renderer
                == old(self)@.renderer,
    {
        let id = entity.ulid();
        if ulid_index_contains(&self.index, id) {
            return Result::Err(EntityError::DuplicateIdentity(id));
        }
        let position = self.entities.len();
        self.entities.push(entity);
        let _ = ulid_index_insert(&mut self.index, id, position);
        proof {
            assert(self@.entities =~= old(self)@.entities.insert(id, entity));
        }
        Result::Ok(())
    }

    /// Removes and hands back the entity under the identifier; absence is the
    /// `NotFound` failure.
    pub fn despawn(&mut self, ulid: u128) -> (r: Result<Entity, EntityError>)
        requires
            old(self).wf(),
        ensures
            final(self).wf(),
            !old(self)@.entities.dom().contains(ulid) ==> r == Result::<Entity, EntityError>::Err(
                EntityError::NotFound(ulid),
            ) && *final(self) == *old(self),
            old(self)@.entities.dom().contains(ulid) ==> r == Result::<Entity, EntityError>::Ok(
                old(self)@.entities[ulid],
            ) && final(self)@.entities == old(self)@.entities.remove(ulid) && final(self)@.renderer
                == old(self)@.renderer,
    {
        let position = match ulid_index_get(&self.index, ulid) {
            Option::Some(position) => position,
            Option::None => {
                return Result::Err(EntityError::NotFound(ulid));
            },
        };
        let _ = ulid_index_remove(&mut self.index, ulid);
        let removed = self.entities.swap_remove(position);
        if position < self.entities.len() {
            let moved_id = self.entities[position].ulid();
            let _ = ulid_index_insert(&mut self.index, moved_id, position);
        }
        proof {
            assert(self@.entities =~= old(self)@.entities.remove(ulid));
        }
        Result::Ok(removed)
    }

    /// Whether an entity with the identifier exists.
    pub fn contains(&self, ulid: u128) -> (r: bool)
        ensures
            r == self@.entities.dom().contains(ulid),
    {
        ulid_index_contains(&self.index, ulid)
    }

    /// A borrow of the entity under the identifier; absence is the `NotFound`
    /// failure.
    pub fn get(&self, ulid: u128) -> (r: Result<&Entity, EntityError>)
        requires
            self.wf(),
        ensures
            match r {
                Result::Ok(e) => self@.entities.dom().contains(ulid) && *e == self@.entities[ulid],
                Result::Err(e) => !self@.entities.dom().contains(ulid) && e == EntityError::NotFound(
                    ulid,
                ),
            },
    {
        match ulid_index_get(&self.index, ulid) {
            Option::Some(position) => Result::Ok(&self.entities[position]),
            Option::None => Result::Err(EntityError::NotFound(ulid)),
        }
    }

    /// A mutable borrow of the entity under the identifier; absence is the
    /// `NotFound` failure. The registry stays well-formed as long as the
    /// borrower leaves the entity's identifier alone.
    pub fn get_mut(&mut self, ulid: u128) -> (r: Result<&mut Entity, EntityError>)
        requires
            old(self).wf(),
        ensures
            !old(self)@.entities.dom().contains(ulid) ==> r == Result::<&mut Entity,
                EntityError,
            >::Err(EntityError::NotFound(ulid)) && *final(self) == *old(self),
            old(self)@.entities.dom().contains(ulid) ==> ({
                &&& r matches Result::Ok(e)
                &&& *e == old(self)@.entities[ulid]
                &&& final(self)@.entities =~= old(self)@.entities.insert(ulid, *final(e))
                &&& final(self)@.renderer == old(self)@.renderer
                &&& ((*final(e)).spec_id() == ulid ==> final(self).wf())
            }),
    {
        match ulid_index_get(&self.index, ulid) {
            Option::Some(position) => Result::Ok(&mut self.entities[position]),
            Option::None => Result::Err(EntityError::NotFound(ulid)),
        }
    }

    /// Registers the renderer entity in the singleton slot; a second
    /// registration is the `SlotOccupied` failure and the original renderer
    /// is unchanged.
    pub fn spawn_renderer(&mut self, entity: Entity) -> (r: Result<(), EntityError>)
        ensures
            old(self)@.renderer is Some ==> r == Result::<(), EntityError>::Err(
                EntityError::SlotOccupied,
            ) && *final(self) == *old(self),
            old(self)@.renderer is None ==> r is Ok && final(self)@.renderer == Option::Some(entity)
                && final(self)@.entities == old(self)@.entities,
            old(self).wf() ==> final(self).wf(),
    {
        if self.renderer.is_some() {
            return Result::Err(EntityError::SlotOccupied);
        }
        self.renderer = Option::Some(entity);
        Result::Ok(())
    }

    /// A borrow of the registered renderer entity, if any.
    pub fn renderer(&self) -> (r: Option<&Entity>)
        ensures
            match r {
                Option::Some(e) => self@.renderer == Option::Some(*e),
                Option::None => self@.renderer is None,
            },
    {
        self.renderer.as_ref()
    }
}

/// The explicitly constructed registry instance the host owns: created once
/// at startup and passed to whichever subsystem needs it, never an implicit
/// ambient global.
pub fn entity_system() -> (s: EntitySystem)
    ensures
        s@.entities == Map::<u128, Entity>::empty(),
        s@.renderer is None,
        s.wf(),
{
    EntitySystem::new()
}

/// A shorter name for [`entity_system`].
pub fn entities() -> (s: EntitySystem)
    ensures
        s@.entities == Map::<u128, Entity>::empty(),
        s@.renderer is None,
        s.wf(),
{
    entity_system()
}

} // verus!
