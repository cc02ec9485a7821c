use vstd::prelude::*;

use crate::camera::CameraChange;
use crate::chain::Chain;
use crate::color::Color;
use crate::debug_camera::{
    spec_camera_update_actions, spec_debug_camera_after_update, DebugTestCamera,
};
use crate::descriptors::{ModelDescriptor, TextureFormat};
use crate::error::Error;
use crate::gpu::{Device, Queue};
use crate::input::InputEvent;
use crate::mesh::{Mesh, MeshModel};
use crate::model::{spec_model_realization, Model};

verus! {

/// How often an entity's update hook runs. `Never` selects no update at all.
#[derive(Clone, Copy, Debug, PartialEq, Eq, Structural)]
pub enum UpdateFrequency {
    Never,
    EveryFrame,
    Fixed(u32),
}

/// What the world does when an entity is added whose tag is already present.
#[derive(Clone, Copy, Debug, PartialEq, Eq, Structural)]
pub enum EntityTagDuplicationBehaviour {
    /// Insert without looking at existing tags.
    AllowDuplication,
    /// Insert, but record an observable duplicate-tag warning.
    WarnOnDuplication,
    /// Refuse with the fatal duplicate-tag error.
    PanicOnDuplication,
    /// Keep the world unchanged; the new entity is dropped.
    IgnoreOnDuplication,
    /// Remove the existing holder of the tag first, then insert.
    OverwriteOnDuplication,
}

/// Per-entity static metadata, immutable after registration.
#[derive(Debug)]
pub struct EntityConfiguration {
    pub tag: String,
    pub update_frequency: UpdateFrequency,
    pub does_render: bool,
}

impl EntityConfiguration {
    pub fn new(tag: String, update_frequency: UpdateFrequency, does_render: bool) -> (c: Self)
        ensures
            c == (EntityConfiguration { tag, update_frequency, does_render }),
    {
        EntityConfiguration { tag, update_frequency, does_render }
    }

    /// The entity's identifying tag.
    pub fn get_tag(&self) -> (t: &str)
        ensures
            t@ == self.tag@,
    {
        self.tag.as_str()
    }

    /// The entity's update frequency class.
    pub fn get_update_frequency(&self) -> (f: &UpdateFrequency)
        ensures
            f == self.update_frequency,
    {
        &self.update_frequency
    }

    /// Whether the entity takes part in render passes.
    pub fn get_do_render(&self) -> (r: bool)
        ensures
            r == self.does_render,
    {
        self.does_render
    }

    /// An equal configuration value.
    pub fn duplicate(&self) -> (c: Self)
        ensures
            c == *self,
    {
        EntityConfiguration {
            tag: self.tag.clone(),
            update_frequency: self.update_frequency,
            does_render: self.does_render,
        }
    }
}

/// One value of a message payload.
#[derive(Debug, PartialEq)]
pub enum Variant {
    Empty,
    Boolean(bool),
    Signed(i64),
    Unsigned(u64),
    Text(String),
}

/// A message payload: named values, delivered as one unit.
pub type MessagePayload = Vec<(String, Variant)>;

/// A deferred world mutation. Produced by an entity's registration or update
/// hook, consumed exactly once by the owning world in the same frame, never
/// persisted. Construction has no side effect; only the world's apply phase
/// interprets these values.
pub enum EntityAction {
    /// Insert this entity, as `add_entity` would.
    SpawnEntity(Box<Entity>),
    /// Remove the first entity holding this tag.
    RemoveEntity(String),
    /// Overwrite the world's clear color.
    ClearColorAdjustment(Color),
    /// Forward a change to the external camera collaborator.
    CameraChange(CameraChange),
    /// Deliver a payload to the first entity holding the target tag; with no
    /// such entity the message is silently dropped.
    SendMessage(String, MessagePayload),
    /// No effect.
    Keep,
}

/// `x + 1`, stopping at the counter's ceiling.
pub open spec fn spec_bump(x: u64) -> u64 {
    if x < u64::MAX {
        (x + 1) as u64
    } else {
        x
    }
}

/// Saturating counter increment.
pub fn bump(x: u64) -> (r: u64)
    ensures
        r == spec_bump(x),
{
    if x < u64::MAX {
        x + 1
    } else {
        x
    }
}

/// A script-driven entity: its hooks consume a pre-authored queue of action
/// lists and record what was delivered to it, so every behaviour is a pure
/// function of its state.
pub struct ScriptedEntity {
    /// Unique identifier within a keyed registry.
    pub id: u128,
    /// Static metadata consumed by the world.
    pub config: EntityConfiguration,
    /// Whether the registration hook has run.
    pub registered: bool,
    /// Bootstrap actions, handed out once by the registration hook.
    pub registration_actions: Option<Vec<EntityAction>>,
    /// Action lists still to be emitted, one per update call.
    pub script: Chain<Vec<EntityAction>>,
    /// How many update calls this entity has received.
    pub updates_run: u64,
    /// How many input events this entity has received.
    pub input_events_seen: u64,
    /// Delivered message payloads, most recent first.
    pub inbox: Chain<MessagePayload>,
    /// The models this entity wants realized for rendering.
    pub descriptors: Vec<ModelDescriptor>,
    /// The realized models, filled by the render-preparation hook.
    pub realized: Vec<Model>,
}

impl ScriptedEntity {
    /// A fresh, unregistered entity with the given identity, metadata,
    /// bootstrap actions, update script and model descriptors.
    pub fn new(
        id: u128,
        config: EntityConfiguration,
        registration_actions: Vec<EntityAction>,
        script: Chain<Vec<EntityAction>>,
        descriptors: Vec<ModelDescriptor>,
    ) -> (e: Self)
        ensures
            e.id == id,
            e.config == config,
            !e.registered,
            e.registration_actions == Option::Some(registration_actions),
            e.script == script,
            e.updates_run == 0,
            e.input_events_seen == 0,
            e.inbox == Chain::<MessagePayload>::End,
            e.descriptors == descriptors,
            e.realized@ == Seq::<Model>::empty(),
    {
        ScriptedEntity {
            id,
            config,
            registered: false,
            registration_actions: Option::Some(registration_actions),
            script,
            updates_run: 0,
            input_events_seen: 0,
            inbox: Chain::End,
            descriptors,
            realized: Vec::new(),
        }
    }
}

/// A simulation unit: lifecycle hooks, an optional render contribution, and
/// message reception, dispatched over a closed set of entity kinds.
pub enum Entity {
    Scripted(ScriptedEntity),
    DebugCamera(DebugTestCamera),
}

impl Entity {
    /// The entity's static metadata.
    pub open spec fn spec_config(self) -> EntityConfiguration {
        match self {
            Entity::Scripted(s) => s.config,
            Entity::DebugCamera(d) => d.config,
        }
    }

    /// The entity's unique identifier.
    pub open spec fn spec_id(self) -> u128 {
        match self {
            Entity::Scripted(s) => s.id,
            Entity::DebugCamera(d) => d.id,
        }
    }

    /// Whether the registration hook has run.
    pub open spec fn spec_registered(self) -> bool {
        match self {
            Entity::Scripted(s) => s.registered,
            Entity::DebugCamera(d) => d.registered,
        }
    }

    /// How many update calls the entity has received.
    pub open spec fn spec_updates_run(self) -> u64 {
        match self {
            Entity::Scripted(s) => s.updates_run,
            Entity::DebugCamera(d) => d.updates_run,
        }
    }

    /// How many input events the entity has received.
    pub open spec fn spec_input_events_seen(self) -> u64 {
        match self {
            Entity::Scripted(s) => s.input_events_seen,
            Entity::DebugCamera(d) => d.input_events_seen,
        }
    }

    /// The bootstrap actions the registration hook hands out: the pending
    /// ones, or nothing once they were consumed.
    pub open spec fn spec_registration_actions(self) -> Seq<EntityAction> {
        match self {
            Entity::Scripted(s) => match s.registration_actions {
                Option::Some(v) => v@,
                Option::None => Seq::empty(),
            },
            Entity::DebugCamera(d) => match d.registration_actions {
                Option::Some(v) => v@,
                Option::None => Seq::empty(),
            },
        }
    }

    /// The entity after its registration hook: marked registered, bootstrap
    /// actions consumed.
    pub open spec fn spec_after_registration(self) -> Entity {
        match self {
            Entity::Scripted(s) => Entity::Scripted(
                ScriptedEntity { registered: true, registration_actions: Option::None, ..s },
            ),
            Entity::DebugCamera(d) => Entity::DebugCamera(
                DebugTestCamera { registered: true, registration_actions: Option::None, ..d },
            ),
        }
    }

    /// The actions one update call emits: the front of the script for a
    /// scripted entity; the input-derived camera change for the debug camera.
    pub open spec fn spec_update_actions(self, delta_time: u64) -> Seq<EntityAction> {
        match self {
            Entity::Scripted(s) => match s.script {
                Chain::Link(step, _) => step@,
                Chain::End => Seq::empty(),
            },
            Entity::DebugCamera(d) => spec_camera_update_actions(d, delta_time),
        }
    }

    /// The entity after one update call: the emitted script step is gone and
    /// the update counter is bumped.
    pub open spec fn spec_after_update(self, delta_time: u64) -> Entity {
        match self {
            Entity::Scripted(s) => {
                let rest = match s.script {
                    Chain::Link(_, rest) => *rest,
                    Chain::End => Chain::End,
                };
                Entity::Scripted(
                    ScriptedEntity { script: rest, updates_run: spec_bump(s.updates_run), ..s },
                )
            },
            Entity::DebugCamera(d) => Entity::DebugCamera(
                spec_debug_camera_after_update(d, delta_time),
            ),
        }
    }

    /// The entity after receiving one input event.
    pub open spec fn spec_after_input(self, event: InputEvent) -> Entity {
        match self {
            Entity::Scripted(s) => Entity::Scripted(
                ScriptedEntity { input_events_seen: spec_bump(s.input_events_seen), ..s },
            ),
            Entity::DebugCamera(d) => Entity::DebugCamera(
                DebugTestCamera {
                    input_handler: crate::input::spec_handle_event(d.input_handler, event),
                    input_events_seen: spec_bump(d.input_events_seen),
                    ..d
                },
            ),
        }
    }

    /// The entity after one message delivery: a scripted entity records the
    /// payload in front of its inbox; the debug camera ignores messages.
    pub open spec fn spec_after_message(self, payload: MessagePayload) -> Entity {
        match self {
            Entity::Scripted(s) => Entity::Scripted(
                ScriptedEntity { inbox: Chain::Link(payload, Box::new(s.inbox)), ..s },
            ),
            Entity::DebugCamera(d) => Entity::DebugCamera(d),
        }
    }

    /// The mesh contents this entity contributes to a render pass.
    pub open spec fn spec_mesh_models(self) -> Seq<MeshModel> {
        match self {
            Entity::Scripted(s) => s.realized@.map_values(|m: Model| m.to_model().mesh),
            Entity::DebugCamera(_) => Seq::empty(),
        }
    }

    /// The entity's unique identifier.
    pub fn ulid(&self) -> (id: u128)
        ensures
            id == self.spec_id(),
    {
        match self {
            Entity::Scripted(s) => s.id,
            Entity::DebugCamera(d) => d.id,
        }
    }

    /// An equal copy of the entity's static metadata.
    pub fn get_entity_configuration(&self) -> (c: EntityConfiguration)
        ensures
            c == self.spec_config(),
    {
        match self {
            Entity::Scripted(s) => s.config.duplicate(),
            Entity::DebugCamera(d) => d.config.duplicate(),
        }
    }

    /// The registration hook: runs exactly once, at insertion time, before
    /// any update; hands out the bootstrap actions and marks the entity
    /// registered. A second call hands out nothing.
    pub fn on_registration(&mut self) -> (actions: Vec<EntityAction>)
        ensures
            *final(self) == old(self).spec_after_registration(),
            actions@ == old(self).spec_registration_actions(),
    {
        match self {
            Entity::Scripted(s) => {
                s.registered = true;
                let mut taken = Option::None;
                core::mem::swap(&mut s.registration_actions, &mut taken);
                match taken {
                    Option::Some(v) => v,
                    Option::None => Vec::new(),
                }
            },
            Entity::DebugCamera(d) => {
                d.registered = true;
                let mut taken = Option::None;
                core::mem::swap(&mut d.registration_actions, &mut taken);
                match taken {
                    Option::Some(v) => v,
                    Option::None => Vec::new(),
                }
            },
        }
    }

    /// The per-frame update hook: emits this frame's deferred actions.
    pub fn update(&mut self, delta_time: u64) -> (actions: Vec<EntityAction>)
        ensures
            *final(self) == old(self).spec_after_update(delta_time),
            actions@ == old(self).spec_update_actions(delta_time),
    {
        match self {
            Entity::Scripted(s) => {
                let step = s.script.take_front();
                s.updates_run = bump(s.updates_run);
                match step {
                    Option::Some(actions) => actions,
                    Option::None => Vec::new(),
                }
            },
            Entity::DebugCamera(d) => {
                d.updates_run = bump(d.updates_run);
                d.compute_update_actions(delta_time)
            },
        }
    }

    /// The input hook: called once per pending abstracted input event,
    /// before the same frame's update call.
    pub fn on_input_event(&mut self, _delta_time: u64, event: &InputEvent)
        ensures
            *final(self) == old(self).spec_after_input(*event),
    {
        match self {
            Entity::Scripted(s) => {
                s.input_events_seen = bump(s.input_events_seen);
            },
            Entity::DebugCamera(d) => {
                d.input_handler.handle_event(event);
                d.input_events_seen = bump(d.input_events_seen);
            },
        }
    }

    /// The message hook: called synchronously when another entity targets
    /// this one.
    pub fn on_message(&mut self, payload: MessagePayload)
        ensures
            *final(self) == old(self).spec_after_message(payload),
    {
        match self {
            Entity::Scripted(s) => {
                let mut inbox = Chain::End;
                core::mem::swap(&mut s.inbox, &mut inbox);
                s.inbox = inbox.prepend(payload);
            },
            Entity::DebugCamera(_) => {},
        }
    }

    /// Realizes the entity's models against the GPU capabilities; everything
    /// else about the entity is untouched.
    pub fn prepare_render(
        &mut self,
        surface_format: &TextureFormat,
        device: &Device,
        queue: &Queue,
    ) -> (r: Result<(), Error>)
        ensures
            r is Ok,
            spec_entity_prepared(*old(self), *final(self), *surface_format),
    {
        match self {
            Entity::Scripted(s) => {
                let mut realized: Vec<Model> = Vec::new();
                let n = s.descriptors.len();
                let mut i: usize = 0;
                while i < n
                    invariant
                        0 <= i <= n,
                        n == s.descriptors@.len(),
                        realized@.len() == i,
                        forall|j: int|
                            0 <= j < i ==> (#[trigger] realized@[j]).to_model()
                                == spec_model_realization(s.descriptors@[j], *surface_format),
                    decreases n - i,
                {
                    match Model::from_descriptor(&s.descriptors[i], surface_format, device, queue) {
                        Result::Ok(model) => realized.push(model),
                        Result::Err(e) => {
                            return Result::Err(e);
                        },
                    }
                    i = i + 1;
                }
                s.realized = realized;
                Result::Ok(())
            },
            Entity::DebugCamera(_) => Result::Ok(()),
        }
    }

    /// The meshes this entity contributes to the render pass; meaningful
    /// after its render preparation succeeded.
    pub fn get_meshes(&self) -> (meshes: Vec<&Mesh>)
        ensures
            meshes@.len() == self.spec_mesh_models().len(),
            forall|i: int|
                0 <= i < meshes@.len() ==> (#[trigger] meshes@[i]).to_model()
                    == self.spec_mesh_models()[i],
    {
        match self {
            Entity::Scripted(s) => {
                let mut meshes: Vec<&Mesh> = Vec::new();
                let n = s.realized.len();
                let mut i: usize = 0;
                while i < n
                    invariant
                        0 <= i <= n,
                        n == s.realized@.len(),
                        meshes@.len() == i,
                        forall|j: int|
                            0 <= j < i ==> (#[trigger] meshes@[j]).to_model()
                                == s.realized@[j].to_model().mesh,
                    decreases n - i,
                {
                    meshes.push(s.realized[i].mesh());
                    i = i + 1;
                }
                meshes
            },
            Entity::DebugCamera(_) => Vec::new(),
        }
    }
}

/// Relates an entity before and after render preparation: its realized
/// models now match its descriptors against the given surface format, and
/// everything else is unchanged.
pub open spec fn spec_entity_prepared(before: Entity, after: Entity, format: TextureFormat) -> bool {
    match (before, after) {
        (Entity::Scripted(b), Entity::Scripted(a)) => {
            &&& a.id == b.id
            &&& a.config == b.config
            &&& a.registered == b.registered
            &&& a.registration_actions == b.registration_actions
            &&& a.script == b.script
            &&& a.updates_run == b.updates_run
            &&& a.input_events_seen == b.input_events_seen
            &&& a.inbox == b.inbox
            &&& a.descriptors == b.descriptors
            &&& a.realized@.len() == b.descriptors@.len()
            &&& forall|i: int|
                0 <= i < b.descriptors@.len() ==> (#[trigger] a.realized@[i]).to_model()
                    == spec_model_realization(b.descriptors@[i], format)
        },
        (Entity::DebugCamera(b), Entity::DebugCamera(a)) => a == b,
        _ => false,
    }
}

/// Owns one entity, its configuration and the prepared flag; the world never
/// touches raw entity state directly.
pub struct EntityContainer {
    pub entity: Entity,
    pub config: EntityConfiguration,
    pub prepared: bool,
}

impl EntityContainer {
    /// Wraps an entity, copying its configuration; not yet prepared.
    pub fn from_entity(entity: Entity) -> (c: Self)
        ensures
            c == (EntityContainer {
                entity,
                config: entity.spec_config(),
                prepared: false,
            }),
    {
        let config = entity.get_entity_configuration();
        EntityContainer { entity, config, prepared: false }
    }

    /// Whether this container's entity holds the tag.
    pub fn is_tag(&self, tag: &str) -> (r: bool)
        ensures
            r == (self.config.tag@ == tag@),
    {
        crate::text::string_eq(tag, &self.config.tag)
    }

    /// The entity's configuration.
    pub fn get_entity_configuration(&self) -> (c: &EntityConfiguration)
        ensures
            c == self.config,
    {
        &self.config
    }

    /// A borrow of the owned entity.
    pub fn get_entity(&self) -> (e: &Entity)
        ensures
            e == self.entity,
    {
        &self.entity
    }

    /// A mutable borrow of the owned entity.
    pub fn get_entity_mut(&mut self) -> (e: &mut Entity)
        ensures
            *e == old(self).entity,
            *final(self) == (EntityContainer { entity: *final(e), ..*old(self) }),
    {
        &mut self.entity
    }

    /// Whether the entity's GPU resources have been realized.
    pub fn is_prepared(&self) -> (r: bool)
        ensures
            r == self.prepared,
    {
        self.prepared
    }

    /// Realizes the entity's GPU resources and marks the container prepared.
    pub fn prepare_entity(
        &mut self,
        surface_format: &TextureFormat,
        device: &Device,
        queue: &Queue,
    )
        ensures
            spec_entity_prepared(old(self).entity, final(self).entity, *surface_format),
            final(self).config == old(self).config,
            final(self).prepared,
    {
        let _ = self.entity.prepare_render(surface_format, device, queue);
        self.prepared = true;
    }

    /// Unwraps the owned entity.
    pub fn get_and_move_entity(self) -> (e: Entity)
        ensures
            e == self.entity,
    {
        self.entity
    }
}

} // verus!
