use vstd::prelude::*;
use vstd::pervasive::VecAdditionalExecFns;

use crate::camera::{spec_apply_camera_change, Camera};
use crate::chain::Chain;
use crate::color::Color;
use crate::descriptors::TextureFormat;
use crate::entity::{
    spec_bump, bump, Entity, EntityAction, EntityConfiguration, EntityContainer,
    EntityTagDuplicationBehaviour, MessagePayload, ScriptedEntity, UpdateFrequency,
};
use crate::entity::spec_entity_prepared;
use crate::error::Error;
use crate::gpu::{Device, Queue};
use crate::input::InputEvent;
use crate::mesh::{Mesh, MeshModel};

verus! {

/// Owns the full collection of entity containers, the ambient clear color and
/// the duplicate-tag policy; drives the update and render passes and applies
/// deferred actions.
///
/// The collection order is insertion order; it never implies priority except
/// that lookups take the first container holding a tag.
pub struct World {
    clear_color: Color,
    entity_tag_duplication_behaviour: EntityTagDuplicationBehaviour,
    entities: Vec<EntityContainer>,
    duplicate_tag_warnings: u64,
    queued_actions: Vec<EntityAction>,
}

/// The world's abstract state.
pub struct WorldModel {
    pub clear_color: Color,
    pub behaviour: EntityTagDuplicationBehaviour,
    pub entities: Seq<EntityContainer>,
    pub warnings: u64,
    pub queued: Seq<EntityAction>,
}

impl View for World {
    type V = WorldModel;

    closed spec fn view(&self) -> WorldModel {
        WorldModel {
            clear_color: self.clear_color,
            behaviour: self.entity_tag_duplication_behaviour,
            entities: self.entities@,
            warnings: self.duplicate_tag_warnings,
            queued: self.queued_actions@,
        }
    }
}

/// No two containers hold the same tag.
pub open spec fn spec_unique_tags(s: Seq<EntityContainer>) -> bool {
    forall|i: int, j: int|
        0 <= i < j < s.len() ==> (#[trigger] s[i]).config.tag@ != (#[trigger] s[j]).config.tag@
}

/// Some container holds the tag.
pub open spec fn spec_has_tag(s: Seq<EntityContainer>, tag: Seq<char>) -> bool {
    exists|i: int| 0 <= i < s.len() && (#[trigger] s[i]).config.tag@ == tag
}

/// The position of the first container holding the tag (meaningful only when
/// one exists).
pub open spec fn spec_first_tag_index(s: Seq<EntityContainer>, tag: Seq<char>) -> int
    decreases s.len(),
{
    if s.len() == 0 {
        0
    } else if s[0].config.tag@ == tag {
        0
    } else {
        1 + spec_first_tag_index(s.subrange(1, s.len() as int), tag)
    }
}

/// The first matching position is in range, matches, and nothing before it
/// matches.
pub proof fn lemma_first_tag_index(s: Seq<EntityContainer>, tag: Seq<char>)
    requires
        spec_has_tag(s, tag),
    ensures
        0 <= spec_first_tag_index(s, tag) < s.len(),
        s[spec_first_tag_index(s, tag)].config.tag@ == tag,
        forall|j: int|
            0 <= j < spec_first_tag_index(s, tag) ==> (#[trigger] s[j]).config.tag@ != tag,
    decreases s.len(),
{
    if s.len() == 0 {
    } else if s[0].config.tag@ == tag {
    } else {
        let rest = s.subrange(1, s.len() as int);
        assert(spec_has_tag(rest, tag)) by {
            let i = choose|i: int| 0 <= i < s.len() && (#[trigger] s[i]).config.tag@ == tag;
            assert(rest[i - 1].config.tag@ == tag);
        }
        lemma_first_tag_index(rest, tag);
        assert forall|j: int| 0 <= j < spec_first_tag_index(s, tag) implies (#[trigger] s[j]).config.tag@
            != tag by {
            if j > 0 {
                assert(rest[j - 1] == s[j]);
            }
        }
    }
}

/// The container an inserted entity is wrapped in: the entity after its
/// registration hook, its configuration copied out, not yet prepared.
pub open spec fn spec_container_of(e: Entity) -> EntityContainer {
    EntityContainer { entity: e.spec_after_registration(), config: e.spec_config(), prepared: false }
}

/// The outcome of one insertion: the new collection, the queue with the
/// entity's bootstrap actions appended, the warning count, and the tag that
/// hit the panic policy, if any.
pub struct AddOutcome {
    pub entities: Seq<EntityContainer>,
    pub queued: Seq<EntityAction>,
    pub warnings: u64,
    pub fatal: Option<String>,
}

/// What `add_entity` does under each duplicate-tag policy. All policies but
/// `IgnoreOnDuplication` and a duplicate under `PanicOnDuplication` insert;
/// only an actual insertion runs the registration hook and queues its
/// bootstrap actions.
pub open spec fn spec_add_entity(
    behaviour: EntityTagDuplicationBehaviour,
    entities: Seq<EntityContainer>,
    queued: Seq<EntityAction>,
    warnings: u64,
    e: Entity,
) -> AddOutcome {
    let tag = e.spec_config().tag@;
    let duplicate = spec_has_tag(entities, tag);
    let inserted = entities.push(spec_container_of(e));
    let queued_after = queued + e.spec_registration_actions();
    match behaviour {
        EntityTagDuplicationBehaviour::AllowDuplication => AddOutcome {
            entities: inserted,
            queued: queued_after,
            warnings,
            fatal: Option::None,
        },
        EntityTagDuplicationBehaviour::WarnOnDuplication => AddOutcome {
            entities: inserted,
            queued: queued_after,
            warnings: if duplicate {
                spec_bump(warnings)
            } else {
                warnings
            },
            fatal: Option::None,
        },
        EntityTagDuplicationBehaviour::PanicOnDuplication => if duplicate {
            AddOutcome {
                entities,
                queued,
                warnings,
                fatal: Option::Some(e.spec_config().tag),
            }
        } else {
            AddOutcome { entities: inserted, queued: queued_after, warnings, fatal: Option::None }
        },
        EntityTagDuplicationBehaviour::IgnoreOnDuplication => if duplicate {
            AddOutcome { entities, queued, warnings, fatal: Option::None }
        } else {
            AddOutcome { entities: inserted, queued: queued_after, warnings, fatal: Option::None }
        },
        EntityTagDuplicationBehaviour::OverwriteOnDuplication => if duplicate {
            AddOutcome {
                entities: entities.remove(spec_first_tag_index(entities, tag)).push(
                    spec_container_of(e),
                ),
                queued: queued_after,
                warnings,
                fatal: Option::None,
            }
        } else {
            AddOutcome { entities: inserted, queued: queued_after, warnings, fatal: Option::None }
        },
    }
}

/// What `remove_entity` does: the first container holding the tag leaves the
/// collection and its entity is handed back; with no such container the
/// collection stands and nothing is returned.
pub open spec fn spec_remove_entity(s: Seq<EntityContainer>, tag: Seq<char>) -> (
    Seq<EntityContainer>,
    Option<Entity>,
) {
    if spec_has_tag(s, tag) {
        let i = spec_first_tag_index(s, tag);
        (s.remove(i), Option::Some(s[i].entity))
    } else {
        (s, Option::None)
    }
}

/// What a message delivery does: the first container holding the target tag
/// has the payload delivered to its entity; with no such container the
/// message is silently dropped.
pub open spec fn spec_deliver_message(
    s: Seq<EntityContainer>,
    target: Seq<char>,
    payload: MessagePayload,
) -> Seq<EntityContainer> {
    if spec_has_tag(s, target) {
        let i = spec_first_tag_index(s, target);
        s.update(i, EntityContainer { entity: s[i].entity.spec_after_message(payload), ..s[i] })
    } else {
        s
    }
}

/// Whether a container is selected by an update pass of this frequency.
pub open spec fn spec_freq_matches(c: EntityContainer, frequency: UpdateFrequency) -> bool {
    !(frequency is Never) && c.config.update_frequency == frequency
}

/// The collection after the collect phase: every selected container's entity
/// has run its update hook; everything else stands.
pub open spec fn spec_updated_containers(
    s: Seq<EntityContainer>,
    frequency: UpdateFrequency,
    delta_time: u64,
) -> Seq<EntityContainer> {
    Seq::new(
        s.len(),
        |i: int|
            if spec_freq_matches(s[i], frequency) {
                EntityContainer { entity: s[i].entity.spec_after_update(delta_time), ..s[i] }
            } else {
                s[i]
            },
    )
}

/// The action sequence with the `Keep` entries discarded.
pub open spec fn spec_filter_keep(s: Seq<EntityAction>) -> Seq<EntityAction>
    decreases s.len(),
{
    if s.len() == 0 {
        Seq::empty()
    } else if s[0] is Keep {
        spec_filter_keep(s.subrange(1, s.len() as int))
    } else {
        seq![s[0]] + spec_filter_keep(s.subrange(1, s.len() as int))
    }
}

/// The actions one update pass collects: each selected container's emissions
/// in collection order, every entity's own emissions in emission order, the
/// `Keep` entries discarded.
pub open spec fn spec_collected_actions(
    s: Seq<EntityContainer>,
    frequency: UpdateFrequency,
    delta_time: u64,
) -> Seq<EntityAction>
    decreases s.len(),
{
    if s.len() == 0 {
        Seq::empty()
    } else {
        let head = if spec_freq_matches(s[0], frequency) {
            spec_filter_keep(s[0].entity.spec_update_actions(delta_time))
        } else {
            Seq::empty()
        };
        head + spec_collected_actions(s.subrange(1, s.len() as int), frequency, delta_time)
    }
}

/// The state the apply phase folds over: the world, the external camera
/// collaborator, and the tag that hit the panic policy, if any.
pub struct ApplyState {
    pub world: WorldModel,
    pub camera: Camera,
    pub fatal: Option<String>,
}

/// One deferred action applied to the state. After a fatal insertion the
/// remaining actions are not applied.
pub open spec fn spec_apply_action(st: ApplyState, action: EntityAction) -> ApplyState {
    if st.fatal is Some {
        st
    } else {
        match action {
            EntityAction::Keep => st,
            EntityAction::ClearColorAdjustment(color) => ApplyState {
                world: WorldModel { clear_color: color, ..st.world },
                ..st
            },
            EntityAction::SpawnEntity(e) => {
                let outcome = spec_add_entity(
                    st.world.behaviour,
                    st.world.entities,
                    st.world.queued,
                    st.world.warnings,
                    *e,
                );
                ApplyState {
                    world: WorldModel {
                        entities: outcome.entities,
                        queued: outcome.queued,
                        warnings: outcome.warnings,
                        ..st.world
                    },
                    fatal: outcome.fatal,
                    ..st
                }
            },
            EntityAction::RemoveEntity(tag) => ApplyState {
                world: WorldModel {
                    entities: spec_remove_entity(st.world.entities, tag@).0,
                    ..st.world
                },
                ..st
            },
            EntityAction::CameraChange(change) => ApplyState {
                camera: spec_apply_camera_change(st.camera, change),
                ..st
            },
            EntityAction::SendMessage(target, payload) => ApplyState {
                world: WorldModel {
                    entities: spec_deliver_message(st.world.entities, target@, payload),
                    ..st.world
                },
                ..st
            },
        }
    }
}

/// The deferred actions applied serially, in emission order.
pub open spec fn spec_apply_actions(st: ApplyState, actions: Seq<EntityAction>) -> ApplyState
    decreases actions.len(),
{
    if actions.len() == 0 {
        st
    } else {
        spec_apply_actions(spec_apply_action(st, actions[0]), actions.subrange(1, actions.len() as int))
    }
}

/// After a fatal insertion the fold is inert.
pub proof fn lemma_apply_actions_fatal(st: ApplyState, actions: Seq<EntityAction>)
    requires
        st.fatal is Some,
    ensures
        spec_apply_actions(st, actions) == st,
    decreases actions.len(),
{
    if actions.len() > 0 {
        lemma_apply_actions_fatal(st, actions.subrange(1, actions.len() as int));
    }
}

/// The positions of the containers a predicate selects, in order.
pub open spec fn spec_selected_indices(
    s: Seq<EntityContainer>,
    pred: spec_fn(EntityContainer) -> bool,
) -> Seq<int>
    decreases s.len(),
{
    if s.len() == 0 {
        Seq::empty()
    } else {
        let prefix = spec_selected_indices(s.drop_last(), pred);
        if pred(s.last()) {
            prefix.push(s.len() - 1)
        } else {
            prefix
        }
    }
}

/// Every selected position is in range and selected by the predicate.
pub proof fn lemma_selected_indices_bounds(
    s: Seq<EntityContainer>,
    pred: spec_fn(EntityContainer) -> bool,
)
    ensures
        forall|k: int|
            0 <= k < spec_selected_indices(s, pred).len() ==> {
                let i = #[trigger] spec_selected_indices(s, pred)[k];
                0 <= i < s.len() && pred(s[i])
            },
    decreases s.len(),
{
    if s.len() > 0 {
        lemma_selected_indices_bounds(s.drop_last(), pred);
        let prefix = spec_selected_indices(s.drop_last(), pred);
        let sel = spec_selected_indices(s, pred);
        assert forall|k: int| 0 <= k < sel.len() implies {
            let i = #[trigger] sel[k];
            0 <= i < s.len() && pred(s[i])
        } by {
            if k < prefix.len() {
                assert(sel[k] == prefix[k]);
                assert(0 <= prefix[k] < s.drop_last().len() && pred(s.drop_last()[prefix[k]]));
                assert(s.drop_last()[prefix[k]] == s[prefix[k]]);
            } else {
                assert(pred(s.last()));
                assert(sel[k] == s.len() - 1);
            }
        }
    }
}

/// Extending the scanned prefix by one container appends its position when
/// the predicate selects it.
pub proof fn lemma_selected_indices_extend(
    s: Seq<EntityContainer>,
    pred: spec_fn(EntityContainer) -> bool,
    i: int,
)
    requires
        0 <= i < s.len(),
    ensures
        spec_selected_indices(s.take(i + 1), pred) == if pred(s[i]) {
            spec_selected_indices(s.take(i), pred).push(i)
        } else {
            spec_selected_indices(s.take(i), pred)
        },
{
    assert(s.take(i + 1).drop_last() =~= s.take(i));
    assert(s.take(i + 1).last() == s[i]);
}

/// Relates the collection before and after one preparation pass: every
/// render-eligible container that was not yet prepared has its entity's
/// resources realized and is marked prepared; every other container stands
/// untouched.
pub open spec fn spec_prepared_step(
    before: Seq<EntityContainer>,
    after: Seq<EntityContainer>,
    format: TextureFormat,
) -> bool {
    &&& after.len() == before.len()
    &&& forall|i: int|
        0 <= i < before.len() ==> {
            let c = #[trigger] before[i];
            if c.config.does_render && !c.prepared {
                spec_entity_prepared(c.entity, after[i].entity, format) && after[i].config
                    == c.config && after[i].prepared
            } else {
                after[i] == c
            }
        }
}

/// The mesh contents of the render-eligible prepared containers, in order.
pub open spec fn spec_collect_mesh_models(s: Seq<EntityContainer>) -> Seq<MeshModel>
    decreases s.len(),
{
    if s.len() == 0 {
        Seq::empty()
    } else {
        spec_collect_mesh_models(s.drop_last()) + (if s.last().prepared
            && s.last().config.does_render {
            s.last().entity.spec_mesh_models()
        } else {
            Seq::empty()
        })
    }
}

/// Extending the scanned prefix by one container appends its mesh contents
/// when it is prepared and render-eligible.
pub proof fn lemma_collect_mesh_models_extend(s: Seq<EntityContainer>, i: int)
    requires
        0 <= i < s.len(),
    ensures
        spec_collect_mesh_models(s.take(i + 1)) == spec_collect_mesh_models(s.take(i)) + (if s[
            i
        ].prepared && s[i].config.does_render {
            s[i].entity.spec_mesh_models()
        } else {
            Seq::empty()
        }),
{
    assert(s.take(i + 1).drop_last() =~= s.take(i));
    assert(s.take(i + 1).last() == s[i]);
}

/// The world invariant: under the overwrite policy at most one container may
/// exist per tag at any instant.
pub open spec fn spec_world_wf(m: WorldModel) -> bool {
    m.behaviour is OverwriteOnDuplication ==> spec_unique_tags(m.entities)
}

/// Removing a container cannot introduce a duplicate tag.
pub proof fn lemma_remove_keeps_unique_tags(s: Seq<EntityContainer>, i: int)
    requires
        spec_unique_tags(s),
        0 <= i < s.len(),
    ensures
        spec_unique_tags(s.remove(i)),
{
    let r = s.remove(i);
    assert forall|a: int, b: int| 0 <= a < b < r.len() implies (#[trigger] r[a]).config.tag@ != (
    #[trigger] r[b]).config.tag@ by {
        let a0 = if a < i {
            a
        } else {
            a + 1
        };
        let b0 = if b < i {
            b
        } else {
            b + 1
        };
        assert(r[a] == s[a0]);
        assert(r[b] == s[b0]);
    }
}

/// Insertion preserves the invariant under every policy.
pub proof fn lemma_add_keeps_wf(
    behaviour: EntityTagDuplicationBehaviour,
    entities: Seq<EntityContainer>,
    queued: Seq<EntityAction>,
    warnings: u64,
    e: Entity,
)
    requires
        behaviour is OverwriteOnDuplication ==> spec_unique_tags(entities),
    ensures
        behaviour is OverwriteOnDuplication ==> spec_unique_tags(
            spec_add_entity(behaviour, entities, queued, warnings, e).entities,
        ),
{
    if behaviour is OverwriteOnDuplication {
        let tag = e.spec_config().tag@;
        let outcome = spec_add_entity(behaviour, entities, queued, warnings, e);
        if spec_has_tag(entities, tag) {
            let i = spec_first_tag_index(entities, tag);
            lemma_first_tag_index(entities, tag);
            let removed = entities.remove(i);
            lemma_remove_keeps_unique_tags(entities, i);
            // No container with the tag survives the removal: the invariant
            // allowed at most one.
            assert forall|j: int| 0 <= j < removed.len() implies (#[trigger] removed[j]).config.tag@
                != tag by {
                let j0 = if j < i {
                    j
                } else {
                    j + 1
                };
                assert(removed[j] == entities[j0]);
            }
            let pushed = removed.push(spec_container_of(e));
            assert(spec_container_of(e).config.tag@ == tag);
            assert forall|a: int, b: int| 0 <= a < b < pushed.len() implies (
            #[trigger] pushed[a]).config.tag@ != (#[trigger] pushed[b]).config.tag@ by {
                if b < pushed.len() - 1 {
                    assert(pushed[a] == removed[a]);
                    assert(pushed[b] == removed[b]);
                } else {
                    assert(pushed[a] == removed[a]);
                    assert(pushed[b] == spec_container_of(e));
                }
            }
        } else {
            let pushed = entities.push(spec_container_of(e));
            assert forall|a: int, b: int| 0 <= a < b < pushed.len() implies (
            #[trigger] pushed[a]).config.tag@ != (#[trigger] pushed[b]).config.tag@ by {
                if b < pushed.len() - 1 {
                    assert(pushed[a] == entities[a]);
                    assert(pushed[b] == entities[b]);
                } else {
                    assert(pushed[a] == entities[a]);
                    assert(pushed[b] == spec_container_of(e));
                    assert(!spec_has_tag(entities, tag));
                    assert(entities[a].config.tag@ != tag);
                }
            }
        }
    }
}

/// Message delivery preserves the invariant: no tag changes.
pub proof fn lemma_deliver_keeps_wf(
    s: Seq<EntityContainer>,
    target: Seq<char>,
    payload: MessagePayload,
    behaviour: EntityTagDuplicationBehaviour,
)
    requires
        behaviour is OverwriteOnDuplication ==> spec_unique_tags(s),
    ensures
        behaviour is OverwriteOnDuplication ==> spec_unique_tags(
            spec_deliver_message(s, target, payload),
        ),
{
    if behaviour is OverwriteOnDuplication && spec_has_tag(s, target) {
        let i = spec_first_tag_index(s, target);
        lemma_first_tag_index(s, target);
        let d = spec_deliver_message(s, target, payload);
        assert forall|a: int, b: int| 0 <= a < b < d.len() implies (#[trigger] d[a]).config.tag@
            != (#[trigger] d[b]).config.tag@ by {
            assert(d[a].config == s[a].config);
            assert(d[b].config == s[b].config);
        }
    }
}

/// One applied action preserves the invariant.
pub proof fn lemma_apply_action_keeps_wf(st: ApplyState, action: EntityAction)
    requires
        spec_world_wf(st.world),
    ensures
        spec_world_wf(spec_apply_action(st, action).world),
{
    if st.fatal is None {
        match action {
            EntityAction::SpawnEntity(e) => {
                lemma_add_keeps_wf(
                    st.world.behaviour,
                    st.world.entities,
                    st.world.queued,
                    st.world.warnings,
                    *e,
                );
            },
            EntityAction::RemoveEntity(tag) => {
                if st.world.behaviour is OverwriteOnDuplication && spec_has_tag(
                    st.world.entities,
                    tag@,
                ) {
                    lemma_first_tag_index(st.world.entities, tag@);
                    lemma_remove_keeps_unique_tags(
                        st.world.entities,
                        spec_first_tag_index(st.world.entities, tag@),
                    );
                }
            },
            EntityAction::SendMessage(target, payload) => {
                lemma_deliver_keeps_wf(st.world.entities, target@, payload, st.world.behaviour);
            },
            _ => {},
        }
    }
}

/// The collect phase preserves the invariant: update hooks touch no tag.
pub proof fn lemma_update_pass_keeps_wf(
    s: Seq<EntityContainer>,
    frequency: UpdateFrequency,
    delta_time: u64,
    behaviour: EntityTagDuplicationBehaviour,
)
    requires
        behaviour is OverwriteOnDuplication ==> spec_unique_tags(s),
    ensures
        behaviour is OverwriteOnDuplication ==> spec_unique_tags(
            spec_updated_containers(s, frequency, delta_time),
        ),
{
    if behaviour is OverwriteOnDuplication {
        let u = spec_updated_containers(s, frequency, delta_time);
        assert forall|a: int, b: int| 0 <= a < b < u.len() implies (#[trigger] u[a]).config.tag@
            != (#[trigger] u[b]).config.tag@ by {
            assert(u[a].config == s[a].config);
            assert(u[b].config == s[b].config);
        }
    }
}

/// Under the overwrite policy a well-formed world holds at most one
/// container per tag at any instant. The constructor establishes
/// well-formedness and every world operation preserves it, so this holds
/// after any sequence of insertions.
pub proof fn lemma_overwrite_at_most_one_per_tag(w: World)
    requires
        w.wf(),
        w@.behaviour is OverwriteOnDuplication,
    ensures
        forall|i: int, j: int|
            0 <= i < j < w@.entities.len() ==> (#[trigger] w@.entities[i]).config.tag@ != (
            #[trigger] w@.entities[j]).config.tag@,
{
}

/// Registration precedes use: inserting a fresh entity stores it already
/// registered, with its bootstrap actions consumed and its update and input
/// counters still zero, and neither the update hook nor the input hook ever
/// revokes registration. The registration hook of an entity in a world
/// therefore ran exactly once — at insertion — and strictly before its first
/// update or input event.
pub proof fn lemma_registration_precedes_updates(e: Entity, delta_time: u64, event: InputEvent)
    requires
        !e.spec_registered(),
        e.spec_updates_run() == 0,
        e.spec_input_events_seen() == 0,
    ensures
        spec_container_of(e).entity.spec_registered(),
        spec_container_of(e).entity.spec_updates_run() == 0,
        spec_container_of(e).entity.spec_input_events_seen() == 0,
        spec_container_of(e).entity.spec_registration_actions() == Seq::<EntityAction>::empty(),
        forall|any: Entity|
            any.spec_registered() ==> (#[trigger] any.spec_after_update(
                delta_time,
            )).spec_registered(),
        forall|any: Entity|
            any.spec_registered() ==> (#[trigger] any.spec_after_input(event)).spec_registered(),
{
    assert(spec_container_of(e).entity.spec_registration_actions() =~= Seq::<
        EntityAction,
    >::empty());
}

/// Deferred actions apply serially, in emission order: applying a
/// concatenated sequence is applying the earlier actions first, then the
/// later ones against the resulting state — effects are never reordered.
pub proof fn lemma_actions_apply_in_emission_order(
    st: ApplyState,
    earlier: Seq<EntityAction>,
    later: Seq<EntityAction>,
)
    ensures
        spec_apply_actions(st, earlier + later) == spec_apply_actions(
            spec_apply_actions(st, earlier),
            later,
        ),
    decreases earlier.len(),
{
    if earlier.len() == 0 {
        assert(earlier + later =~= later);
    } else {
        let joined = earlier + later;
        assert(joined[0] == earlier[0]);
        assert(joined.subrange(1, joined.len() as int) =~= earlier.subrange(
            1,
            earlier.len() as int,
        ) + later);
        lemma_actions_apply_in_emission_order(
            spec_apply_action(st, earlier[0]),
            earlier.subrange(1, earlier.len() as int),
            later,
        );
    }
}

/// Preparation is idempotent: a pass over a collection whose render-eligible
/// containers are all prepared changes nothing, so a second pass never
/// re-realizes what the first one prepared.
pub proof fn lemma_prepare_idempotent(
    before: Seq<EntityContainer>,
    after: Seq<EntityContainer>,
    format: TextureFormat,
)
    requires
        spec_prepared_step(before, after, format),
        forall|i: int|
            0 <= i < before.len() ==> ((#[trigger] before[i]).config.does_render
                ==> before[i].prepared),
    ensures
        after == before,
{
    assert(after =~= before);
}

/// One preparation pass leaves every render-eligible container prepared.
pub proof fn lemma_prepare_completes(
    before: Seq<EntityContainer>,
    after: Seq<EntityContainer>,
    format: TextureFormat,
)
    requires
        spec_prepared_step(before, after, format),
    ensures
        forall|i: int|
            0 <= i < after.len() ==> ((#[trigger] after[i]).config.does_render
                ==> after[i].prepared),
{
    assert forall|i: int|
        0 <= i < after.len() && (#[trigger] after[i]).config.does_render implies after[i].prepared by {
        let c = before[i];
        if c.config.does_render && !c.prepared {
        } else {
            assert(after[i] == c);
        }
    }
}

impl World {
    /// The world invariant (see [`spec_world_wf`]).
    pub open spec fn wf(&self) -> bool {
        spec_world_wf(self@)
    }

    /// An empty world with a black clear color and the given duplicate-tag
    /// policy.
    pub fn new(entity_tag_duplication_behaviour: EntityTagDuplicationBehaviour) -> (w: Self)
        ensures
            w@.entities == Seq::<EntityContainer>::empty(),
            w@.queued == Seq::<EntityAction>::empty(),
            w@.behaviour == entity_tag_duplication_behaviour,
            w@.warnings == 0,
            w@.clear_color == (Color { r: 0, g: 0, b: 0, a: 256 }),
            w.wf(),
    {
        World {
            clear_color: Color::black(),
            entity_tag_duplication_behaviour,
            entities: Vec::new(),
            duplicate_tag_warnings: 0,
            queued_actions: Vec::new(),
        }
    }

    /// The ambient clear color.
    pub fn get_clear_color(&self) -> (c: Color)
        ensures
            c == self@.clear_color,
    {
        self.clear_color
    }

    /// How many duplicate-tag warnings the warn policy has recorded.
    pub fn duplicate_tag_warnings(&self) -> (n: u64)
        ensures
            n == self@.warnings,
    {
        self.duplicate_tag_warnings
    }

    /// Whether some container holds the tag.
    pub fn has_entity(&self, tag: &str) -> (r: bool)
        ensures
            r == spec_has_tag(self@.entities, tag@),
    {
        let n = self.entities.len();
        let mut i: usize = 0;
        while i < n
            invariant
                0 <= i <= n,
                n == self@.entities.len(),
                forall|j: int| 0 <= j < i ==> (#[trigger] self@.entities[j]).config.tag@ != tag@,
            decreases n - i,
        {
            if self.entities[i].is_tag(tag) {
                return true;
            }
            i = i + 1;
        }
        false
    }

    /// Wraps the entity in a container, runs its registration hook, queues
    /// the bootstrap actions and inserts, as the duplicate-tag policy
    /// directs. Under `PanicOnDuplication` a duplicate is the distinguished
    /// fatal error and nothing is inserted.
    pub fn add_entity(&mut self, entity: Entity) -> (r: Result<(), Error>)
        ensures
            ({
                let outcome = spec_add_entity(
                    old(self)@.behaviour,
                    old(self)@.entities,
                    old(self)@.queued,
                    old(self)@.warnings,
                    entity,
                );
                &&& final(self)@.entities == outcome.entities
                &&& final(self)@.queued == outcome.queued
                &&& final(self)@.warnings == outcome.warnings
                &&& final(self)@.behaviour == old(self)@.behaviour
                &&& final(self)@.clear_color == old(self)@.clear_color
                &&& (r is Ok <==> outcome.fatal is None)
                &&& (outcome.fatal matches Option::Some(tag) ==> r == Result::<(), Error>::Err(
                    Error::DuplicateTagFatal(tag),
                ))
                &&& (old(self).wf() ==> final(self).wf())
            }),
    {
        proof {
            if self.wf() {
                lemma_add_keeps_wf(
                    self@.behaviour,
                    self@.entities,
                    self@.queued,
                    self@.warnings,
                    entity,
                );
            }
        }
        let config = entity.get_entity_configuration();
        match self.entity_tag_duplication_behaviour {
            EntityTagDuplicationBehaviour::AllowDuplication => {
                self.insert_entity(entity);
                Result::Ok(())
            },
            EntityTagDuplicationBehaviour::WarnOnDuplication => {
                if self.has_entity(config.get_tag()) {
                    self.duplicate_tag_warnings = bump(self.duplicate_tag_warnings);
                }
                self.insert_entity(entity);
                Result::Ok(())
            },
            EntityTagDuplicationBehaviour::PanicOnDuplication => {
                if self.has_entity(config.get_tag()) {
                    Result::Err(Error::DuplicateTagFatal(config.tag))
                } else {
                    self.insert_entity(entity);
                    Result::Ok(())
                }
            },
            EntityTagDuplicationBehaviour::IgnoreOnDuplication => {
                if self.has_entity(config.get_tag()) {
                    Result::Ok(())
                } else {
                    self.insert_entity(entity);
                    Result::Ok(())
                }
            },
            EntityTagDuplicationBehaviour::OverwriteOnDuplication => {
                if self.has_entity(config.get_tag()) {
                    let _ = self.remove_entity(config.get_tag());
                }
                self.insert_entity(entity);
                Result::Ok(())
            },
        }
    }

    /// Removes the first container holding the tag and hands back its entity.
    pub fn remove_entity(&mut self, tag: &str) -> (r: Option<Entity>)
        ensures
            final(self)@.entities == spec_remove_entity(old(self)@.entities, tag@).0,
            r == spec_remove_entity(old(self)@.entities, tag@).1,
            final(self)@.queued == old(self)@.queued,
            final(self)@.warnings == old(self)@.warnings,
            final(self)@.behaviour == old(self)@.behaviour,
            final(self)@.clear_color == old(self)@.clear_color,
            old(self).wf() ==> final(self).wf(),
    {
        let n = self.entities.len();
        let mut i: usize = 0;
        while i < n
            invariant
                0 <= i <= n,
                n == self@.entities.len(),
                *self == *old(self),
                forall|j: int| 0 <= j < i ==> (#[trigger] self@.entities[j]).config.tag@ != tag@,
            decreases n - i,
        {
            if self.entities[i].is_tag(tag) {
                proof {
                    lemma_first_tag_index(self@.entities, tag@);
                    assert(spec_first_tag_index(self@.entities, tag@) == i);
                    if self.wf() && self@.behaviour is OverwriteOnDuplication {
                        lemma_remove_keeps_unique_tags(self@.entities, i as int);
                    }
                }
                let container = self.entities.remove(i);
                return Option::Some(container.get_and_move_entity());
            }
            i = i + 1;
        }
        Option::None
    }

    /// A borrow of the first entity holding the tag.
    pub fn get_entity(&self, tag: &str) -> (r: Option<&Entity>)
        ensures
            match r {
                Option::Some(e) => spec_has_tag(self@.entities, tag@) && *e == self@.entities[
                    spec_first_tag_index(self@.entities, tag@)
                ].entity,
                Option::None => !spec_has_tag(self@.entities, tag@),
            },
    {
        let n = self.entities.len();
        let mut i: usize = 0;
        while i < n
            invariant
                0 <= i <= n,
                n == self@.entities.len(),
                forall|j: int| 0 <= j < i ==> (#[trigger] self@.entities[j]).config.tag@ != tag@,
            decreases n - i,
        {
            if self.entities[i].is_tag(tag) {
                proof {
                    lemma_first_tag_index(self@.entities, tag@);
                    assert(spec_first_tag_index(self@.entities, tag@) == i);
                }
                return Option::Some(self.entities[i].get_entity());
            }
            i = i + 1;
        }
        Option::None
    }

    /// A mutable borrow of the first entity holding the tag.
    pub fn get_entity_mut(&mut self, tag: &str) -> (r: Option<&mut Entity>)
        ensures
            !spec_has_tag(old(self)@.entities, tag@) ==> r is None && *final(self) == *old(self),
            spec_has_tag(old(self)@.entities, tag@) ==> ({
                let i = spec_first_tag_index(old(self)@.entities, tag@);
                &&& r matches Option::Some(e)
                &&& *e == old(self)@.entities[i].entity
                &&& final(self)@.entities == old(self)@.entities.update(
                    i,
                    EntityContainer { entity: *final(e), ..old(self)@.entities[i] },
                )
                &&& final(self)@.queued == old(self)@.queued
                &&& final(self)@.warnings == old(self)@.warnings
                &&& final(self)@.behaviour == old(self)@.behaviour
                &&& final(self)@.clear_color == old(self)@.clear_color
            }),
    {
        let n = self.entities.len();
        let mut i: usize = 0;
        while i < n
            invariant
                0 <= i <= n,
                n == self@.entities.len(),
                *self == *old(self),
                forall|j: int| 0 <= j < i ==> (#[trigger] self@.entities[j]).config.tag@ != tag@,
            decreases n - i,
        {
            if self.entities[i].is_tag(tag) {
                proof {
                    lemma_first_tag_index(self@.entities, tag@);
                    assert(spec_first_tag_index(self@.entities, tag@) == i);
                }
                return Option::Some(&mut self.entities[i].entity);
            }
            i = i + 1;
        }
        Option::None
    }

    /// Borrows of the entities an update pass of this frequency selects, in
    /// collection order.
    pub fn get_updateable(&self, frequency: UpdateFrequency) -> (r: Vec<&Entity>)
        ensures
            ({
                let sel = spec_selected_indices(
                    self@.entities,
                    |c: EntityContainer| spec_freq_matches(c, frequency),
                );
                &&& r@.len() == sel.len()
                &&& forall|k: int| 0 <= k < sel.len() ==> *(#[trigger] r@[k]) == self@.entities[sel[k]].entity
            }),
    {
        let ghost pred = |c: EntityContainer| spec_freq_matches(c, frequency);
        let is_never = matches!(frequency, UpdateFrequency::Never);
        let n = self.entities.len();
        let mut out: Vec<&Entity> = Vec::new();
        let mut i: usize = 0;
        while i < n
            invariant
                0 <= i <= n,
                n == self@.entities.len(),
                is_never == (frequency is Never),
                pred == (|c: EntityContainer| spec_freq_matches(c, frequency)),
                out@.len() == spec_selected_indices(self@.entities.take(i as int), pred).len(),
                forall|k: int|
                    0 <= k < out@.len() ==> *(#[trigger] out@[k]) == self@.entities[
                        spec_selected_indices(self@.entities.take(i as int), pred)[k]
                    ].entity,
            decreases n - i,
        {
            proof {
                lemma_selected_indices_extend(self@.entities, pred, i as int);
                lemma_selected_indices_bounds(self@.entities.take(i as int), pred);
            }
            if !is_never && self.entities[i].config.update_frequency == frequency {
                out.push(self.entities[i].get_entity());
            }
            i = i + 1;
        }
        proof {
            assert(self@.entities.take(n as int) =~= self@.entities);
        }
        out
    }

    /// The positions of the entities an update pass of this frequency
    /// selects; the world is borrowed mutably afterwards to update them.
    pub fn get_updateable_mut(&self, frequency: UpdateFrequency) -> (r: Vec<usize>)
        ensures
            ({
                let sel = spec_selected_indices(
                    self@.entities,
                    |c: EntityContainer| spec_freq_matches(c, frequency),
                );
                &&& r@.len() == sel.len()
                &&& forall|k: int| 0 <= k < sel.len() ==> (#[trigger] r@[k]) as int == sel[k]
            }),
    {
        let ghost pred = |c: EntityContainer| spec_freq_matches(c, frequency);
        let is_never = matches!(frequency, UpdateFrequency::Never);
        let n = self.entities.len();
        let mut out: Vec<usize> = Vec::new();
        let mut i: usize = 0;
        while i < n
            invariant
                0 <= i <= n,
                n == self@.entities.len(),
                is_never == (frequency is Never),
                pred == (|c: EntityContainer| spec_freq_matches(c, frequency)),
                out@.len() == spec_selected_indices(self@.entities.take(i as int), pred).len(),
                forall|k: int|
                    0 <= k < out@.len() ==> (#[trigger] out@[k]) as int == spec_selected_indices(
                        self@.entities.take(i as int),
                        pred,
                    )[k],
            decreases n - i,
        {
            proof {
                lemma_selected_indices_extend(self@.entities, pred, i as int);
            }
            if !is_never && self.entities[i].config.update_frequency == frequency {
                out.push(i);
            }
            i = i + 1;
        }
        proof {
            assert(self@.entities.take(n as int) =~= self@.entities);
        }
        out
    }

    /// Borrows of the render-eligible entities whose resources are realized.
    pub fn get_prepared_renderable(&self) -> (r: Vec<&Entity>)
        ensures
            ({
                let sel = spec_selected_indices(
                    self@.entities,
                    |c: EntityContainer| c.prepared && c.config.does_render,
                );
                &&& r@.len() == sel.len()
                &&& forall|k: int| 0 <= k < sel.len() ==> *(#[trigger] r@[k]) == self@.entities[sel[k]].entity
            }),
    {
        let ghost pred = |c: EntityContainer| c.prepared && c.config.does_render;
        let n = self.entities.len();
        let mut out: Vec<&Entity> = Vec::new();
        let mut i: usize = 0;
        while i < n
            invariant
                0 <= i <= n,
                n == self@.entities.len(),
                pred == (|c: EntityContainer| c.prepared && c.config.does_render),
                out@.len() == spec_selected_indices(self@.entities.take(i as int), pred).len(),
                forall|k: int|
                    0 <= k < out@.len() ==> *(#[trigger] out@[k]) == self@.entities[
                        spec_selected_indices(self@.entities.take(i as int), pred)[k]
                    ].entity,
            decreases n - i,
        {
            proof {
                lemma_selected_indices_extend(self@.entities, pred, i as int);
                lemma_selected_indices_bounds(self@.entities.take(i as int), pred);
            }
            if self.entities[i].is_prepared() && self.entities[i].config.does_render {
                out.push(self.entities[i].get_entity());
            }
            i = i + 1;
        }
        proof {
            assert(self@.entities.take(n as int) =~= self@.entities);
        }
        out
    }

    /// The positions of the render-eligible containers whose resources are
    /// not yet realized.
    pub fn get_unprepared_renderable(&self) -> (r: Vec<usize>)
        ensures
            ({
                let sel = spec_selected_indices(
                    self@.entities,
                    |c: EntityContainer| !c.prepared && c.config.does_render,
                );
                &&& r@.len() == sel.len()
                &&& forall|k: int| 0 <= k < sel.len() ==> (#[trigger] r@[k]) as int == sel[k]
            }),
    {
        let ghost pred = |c: EntityContainer| !c.prepared && c.config.does_render;
        let n = self.entities.len();
        let mut out: Vec<usize> = Vec::new();
        let mut i: usize = 0;
        while i < n
            invariant
                0 <= i <= n,
                n == self@.entities.len(),
                pred == (|c: EntityContainer| !c.prepared && c.config.does_render),
                out@.len() == spec_selected_indices(self@.entities.take(i as int), pred).len(),
                forall|k: int|
                    0 <= k < out@.len() ==> (#[trigger] out@[k]) as int == spec_selected_indices(
                        self@.entities.take(i as int),
                        pred,
                    )[k],
            decreases n - i,
        {
            proof {
                lemma_selected_indices_extend(self@.entities, pred, i as int);
            }
            if !self.entities[i].is_prepared() && self.entities[i].config.does_render {
                out.push(i);
            }
            i = i + 1;
        }
        proof {
            assert(self@.entities.take(n as int) =~= self@.entities);
        }
        out
    }

    /// Delivers one abstracted input event to every entity's input hook;
    /// within a frame the host delivers all pending events before the update
    /// pass.
    pub fn deliver_input_event(&mut self, delta_time: u64, event: &InputEvent)
        ensures
            final(self)@.entities.len() == old(self)@.entities.len(),
            forall|i: int|
                0 <= i < old(self)@.entities.len() ==> (#[trigger] final(self)@.entities[i])
                    == (EntityContainer {
                    entity: old(self)@.entities[i].entity.spec_after_input(*event),
                    ..old(self)@.entities[i]
                }),
            final(self)@.queued == old(self)@.queued,
            final(self)@.warnings == old(self)@.warnings,
            final(self)@.behaviour == old(self)@.behaviour,
            final(self)@.clear_color == old(self)@.clear_color,
            old(self).wf() ==> final(self).wf(),
    {
        let n = self.entities.len();
        let mut i: usize = 0;
        while i < n
            invariant
                0 <= i <= n,
                n == old(self)@.entities.len(),
                self@.entities.len() == n,
                forall|j: int|
                    0 <= j < i ==> (#[trigger] self@.entities[j]) == (EntityContainer {
                        entity: old(self)@.entities[j].entity.spec_after_input(*event),
                        ..old(self)@.entities[j]
                    }),
                forall|j: int| i <= j < n ==> (#[trigger] self@.entities[j]) == old(self)@.entities[j],
                self@.queued == old(self)@.queued,
                self@.warnings == old(self)@.warnings,
                self@.behaviour == old(self)@.behaviour,
                self@.clear_color == old(self)@.clear_color,
            decreases n - i,
        {
            let mut container = Self::placeholder_container();
            self.entities.set_and_swap(i, &mut container);
            container.entity.on_input_event(delta_time, event);
            self.entities.set_and_swap(i, &mut container);
            i = i + 1;
        }
        proof {
            if old(self).wf() && self@.behaviour is OverwriteOnDuplication {
                assert forall|a: int, b: int| 0 <= a < b < self@.entities.len() implies (
                #[trigger] self@.entities[a]).config.tag@ != (#[trigger] self@.entities[b]).config.tag@
                    by {
                    assert(self@.entities[a].config == old(self)@.entities[a].config);
                    assert(self@.entities[b].config == old(self)@.entities[b].config);
                }
            }
        }
    }

    /// Drops the `Keep` entries from an emitted action list.
    fn filter_keep_actions(actions: Vec<EntityAction>) -> (r: Vec<EntityAction>)
        ensures
            r@ == spec_filter_keep(actions@),
    {
        let ghost orig = actions@;
        let mut out: Vec<EntityAction> = Vec::new();
        let mut rest = actions;
        while rest.len() > 0
            invariant
                out@ + spec_filter_keep(rest@) == spec_filter_keep(orig),
            decreases rest@.len(),
        {
            let ghost before = rest@;
            let action = rest.remove(0);
            proof {
                assert(before.remove(0) =~= before.subrange(1, before.len() as int));
            }
            match action {
                EntityAction::Keep => {
                    proof {
                        assert(out@ + spec_filter_keep(rest@) =~= spec_filter_keep(orig));
                    }
                },
                other => {
                    let ghost out_before = out@;
                    out.push(other);
                    proof {
                        assert(out@ + spec_filter_keep(rest@) =~= out_before + (seq![before[0]]
                            + spec_filter_keep(rest@)));
                        assert(out_before + (seq![before[0]] + spec_filter_keep(rest@))
                            =~= spec_filter_keep(orig));
                    }
                },
            }
        }
        proof {
            assert(out@ + spec_filter_keep(rest@) =~= out@);
        }
        out
    }

    /// Delivers a payload to the first entity holding the target tag; with
    /// no such entity the message is silently dropped.
    fn deliver_message(&mut self, target: &String, payload: MessagePayload)
        ensures
            final(self)@.entities == spec_deliver_message(old(self)@.entities, target@, payload),
            final(self)@.queued == old(self)@.queued,
            final(self)@.warnings == old(self)@.warnings,
            final(self)@.behaviour == old(self)@.behaviour,
            final(self)@.clear_color == old(self)@.clear_color,
    {
        let n = self.entities.len();
        let mut found: Option<usize> = Option::None;
        let mut i: usize = 0;
        while i < n
            invariant_except_break
                found is None,
            invariant
                0 <= i <= n,
                n == self@.entities.len(),
                *self == *old(self),
                forall|j: int| 0 <= j < i ==> (#[trigger] self@.entities[j]).config.tag@ != target@,
            ensures
                *self == *old(self),
                n == self@.entities.len(),
                match found {
                    Option::Some(k) => 0 <= k < n && spec_has_tag(self@.entities, target@)
                        && spec_first_tag_index(self@.entities, target@) == k,
                    Option::None => !spec_has_tag(self@.entities, target@),
                },
            decreases n - i,
        {
            if self.entities[i].is_tag(target.as_str()) {
                proof {
                    lemma_first_tag_index(self@.entities, target@);
                    assert(spec_first_tag_index(self@.entities, target@) == i);
                }
                found = Option::Some(i);
                break;
            }
            i = i + 1;
        }
        match found {
            Option::Some(i) => {
                let mut container = Self::placeholder_container();
                self.entities.set_and_swap(i, &mut container);
                container.entity.on_message(payload);
                self.entities.set_and_swap(i, &mut container);
                proof {
                    assert(self@.entities =~= old(self)@.entities.update(
                        i as int,
                        EntityContainer {
                            entity: old(self)@.entities[i as int].entity.spec_after_message(
                                payload,
                            ),
                            ..old(self)@.entities[i as int]
                        },
                    ));
                }
            },
            Option::None => {},
        }
    }

    /// Applies one deferred action to the world and the camera collaborator.
    fn apply_action(&mut self, camera: &mut Camera, queue: &Queue, action: EntityAction) -> (r:
        Result<(), Error>)
        ensures
            ({
                let st = spec_apply_action(
                    ApplyState { world: old(self)@, camera: *old(camera), fatal: Option::None },
                    action,
                );
                &&& final(self)@ == st.world
                &&& *final(camera) == st.camera
                &&& (r is Ok <==> st.fatal is None)
                &&& (st.fatal matches Option::Some(tag) ==> r == Result::<(), Error>::Err(
                    Error::DuplicateTagFatal(tag),
                ))
            }),
    {
        match action {
            EntityAction::Keep => Result::Ok(()),
            EntityAction::ClearColorAdjustment(color) => {
                self.clear_color = color;
                Result::Ok(())
            },
            EntityAction::SpawnEntity(entity) => self.add_entity(*entity),
            EntityAction::RemoveEntity(tag) => {
                let _ = self.remove_entity(tag.as_str());
                Result::Ok(())
            },
            EntityAction::CameraChange(change) => {
                camera.apply_camera_change(queue, change);
                Result::Ok(())
            },
            EntityAction::SendMessage(target, payload) => {
                self.deliver_message(&target, payload);
                Result::Ok(())
            },
        }
    }

    /// One update pass in two phases. Collect: every container matching the
    /// frequency runs its update hook, and the emitted actions — after the
    /// queued bootstrap actions of earlier insertions — form one sequence in
    /// emission order, `Keep` entries discarded. Apply: the sequence is
    /// applied serially, in order. An update hook therefore never observes a
    /// mutation caused by another entity's update in the same frame, and the
    /// collection is never mutated while it is iterated.
    ///
    /// A spawn that hits the panic duplicate-tag policy stops the apply phase
    /// with the distinguished fatal error; the remaining actions are not
    /// applied.
    pub fn call_updateable(
        &mut self,
        frequency: UpdateFrequency,
        delta_time: u64,
        camera: &mut Camera,
        queue: &Queue,
    ) -> (r: Result<(), Error>)
        ensures
            ({
                let start = ApplyState {
                    world: WorldModel {
                        entities: spec_updated_containers(
                            old(self)@.entities,
                            frequency,
                            delta_time,
                        ),
                        queued: Seq::empty(),
                        ..old(self)@
                    },
                    camera: *old(camera),
                    fatal: Option::None,
                };
                let all = old(self)@.queued + spec_collected_actions(
                    old(self)@.entities,
                    frequency,
                    delta_time,
                );
                let end = spec_apply_actions(start, all);
                &&& final(self)@ == end.world
                &&& *final(camera) == end.camera
                &&& (r is Ok <==> end.fatal is None)
                &&& (end.fatal matches Option::Some(tag) ==> r == Result::<(), Error>::Err(
                    Error::DuplicateTagFatal(tag),
                ))
                &&& (old(self).wf() ==> final(self).wf())
            }),
    {
        let ghost s0 = self@.entities;
        let is_never = matches!(frequency, UpdateFrequency::Never);
        let n = self.entities.len();
        let mut collected: Vec<EntityAction> = Vec::new();
        proof {
            assert(s0.subrange(0, n as int) =~= s0);
            assert(collected@ + spec_collected_actions(s0, frequency, delta_time)
                =~= spec_collected_actions(s0, frequency, delta_time));
        }
        let mut i: usize = 0;
        while i < n
            invariant
                0 <= i <= n,
                n == s0.len(),
                self@.entities.len() == n,
                is_never == (frequency is Never),
                forall|j: int|
                    0 <= j < i ==> (#[trigger] self@.entities[j]) == spec_updated_containers(
                        s0,
                        frequency,
                        delta_time,
                    )[j],
                forall|j: int| i <= j < n ==> (#[trigger] self@.entities[j]) == s0[j],
                collected@ + spec_collected_actions(
                    s0.subrange(i as int, n as int),
                    frequency,
                    delta_time,
                ) == spec_collected_actions(s0, frequency, delta_time),
                self@.queued == old(self)@.queued,
                self@.warnings == old(self)@.warnings,
                self@.behaviour == old(self)@.behaviour,
                self@.clear_color == old(self)@.clear_color,
            decreases n - i,
        {
            let ghost sub = s0.subrange(i as int, n as int);
            proof {
                assert(sub.subrange(1, sub.len() as int) =~= s0.subrange(i + 1, n as int));
                assert(sub[0] == s0[i as int]);
            }
            if !is_never && self.entities[i].config.update_frequency == frequency {
                let mut container = Self::placeholder_container();
                self.entities.set_and_swap(i, &mut container);
                let actions = container.entity.update(delta_time);
                self.entities.set_and_swap(i, &mut container);
                let mut filtered = Self::filter_keep_actions(actions);
                let ghost collected_before = collected@;
                collected.append(&mut filtered);
                proof {
                    assert(collected@ + spec_collected_actions(
                        s0.subrange(i + 1, n as int),
                        frequency,
                        delta_time,
                    ) =~= collected_before + (spec_filter_keep(
                        s0[i as int].entity.spec_update_actions(delta_time),
                    ) + spec_collected_actions(s0.subrange(i + 1, n as int), frequency, delta_time)));
                }
            }
            i = i + 1;
        }
        proof {
            assert(s0.subrange(n as int, n as int) =~= Seq::<EntityContainer>::empty());
            assert(collected@ + spec_collected_actions(
                s0.subrange(n as int, n as int),
                frequency,
                delta_time,
            ) =~= collected@);
            assert(self@.entities =~= spec_updated_containers(s0, frequency, delta_time));
        }
        let mut pending: Vec<EntityAction> = Vec::new();
        core::mem::swap(&mut self.queued_actions, &mut pending);
        pending.append(&mut collected);
        let ghost all = pending@;
        let ghost start = ApplyState {
            world: self@,
            camera: *camera,
            fatal: Option::None,
        };
        proof {
            if old(self).wf() {
                lemma_update_pass_keeps_wf(s0, frequency, delta_time, self@.behaviour);
            }
            assert(self@.queued =~= Seq::<EntityAction>::empty());
            assert(start == (ApplyState {
                world: WorldModel {
                    entities: spec_updated_containers(old(self)@.entities, frequency, delta_time),
                    clear_color: old(self)@.clear_color,
                    behaviour: old(self)@.behaviour,
                    warnings: old(self)@.warnings,
                    queued: Seq::empty(),
                },
                camera: *old(camera),
                fatal: Option::None,
            }));
        }
        while pending.len() > 0
            invariant
                start == (ApplyState {
                    world: WorldModel {
                        entities: spec_updated_containers(
                            old(self)@.entities,
                            frequency,
                            delta_time,
                        ),
                        clear_color: old(self)@.clear_color,
                        behaviour: old(self)@.behaviour,
                        warnings: old(self)@.warnings,
                        queued: Seq::empty(),
                    },
                    camera: *old(camera),
                    fatal: Option::None,
                }),
                all == old(self)@.queued + spec_collected_actions(
                    old(self)@.entities,
                    frequency,
                    delta_time,
                ),
                spec_apply_actions(
                    ApplyState { world: self@, camera: *camera, fatal: Option::None },
                    pending@,
                ) == spec_apply_actions(start, all),
                old(self).wf() ==> spec_world_wf(start.world),
                spec_world_wf(start.world) ==> spec_world_wf(self@),
            decreases pending@.len(),
        {
            let ghost before = pending@;
            let ghost st_before = ApplyState { world: self@, camera: *camera, fatal: Option::None };
            let action = pending.remove(0);
            proof {
                assert(before.remove(0) =~= before.subrange(1, before.len() as int));
                if spec_world_wf(st_before.world) {
                    lemma_apply_action_keeps_wf(st_before, before[0]);
                }
            }
            match self.apply_action(camera, queue, action) {
                Result::Ok(()) => {},
                Result::Err(e) => {
                    proof {
                        let st_after = spec_apply_action(st_before, before[0]);
                        lemma_apply_actions_fatal(st_after, before.subrange(1, before.len() as int));
                    }
                    return Result::Err(e);
                },
            }
        }
        proof {
            assert(pending@ =~= Seq::<EntityAction>::empty());
        }
        Result::Ok(())
    }

    /// Realizes the GPU resources of every render-eligible container that is
    /// not yet prepared and flips its prepared flag; already-prepared and
    /// render-ineligible containers are untouched.
    fn prepare_unprepared(
        &mut self,
        surface_format: &TextureFormat,
        device: &Device,
        queue: &Queue,
    )
        ensures
            spec_prepared_step(old(self)@.entities, final(self)@.entities, *surface_format),
            final(self)@.queued == old(self)@.queued,
            final(self)@.warnings == old(self)@.warnings,
            final(self)@.behaviour == old(self)@.behaviour,
            final(self)@.clear_color == old(self)@.clear_color,
            old(self).wf() ==> final(self).wf(),
    {
        let n = self.entities.len();
        let mut i: usize = 0;
        while i < n
            invariant
                0 <= i <= n,
                n == old(self)@.entities.len(),
                self@.entities.len() == n,
                forall|j: int|
                    0 <= j < i ==> {
                        let c = #[trigger] old(self)@.entities[j];
                        if c.config.does_render && !c.prepared {
                            spec_entity_prepared(c.entity, self@.entities[j].entity, *surface_format)
                                && self@.entities[j].config == c.config && self@.entities[j].prepared
                        } else {
                            self@.entities[j] == c
                        }
                    },
                forall|j: int| i <= j < n ==> (#[trigger] self@.entities[j]) == old(self)@.entities[j],
                self@.queued == old(self)@.queued,
                self@.warnings == old(self)@.warnings,
                self@.behaviour == old(self)@.behaviour,
                self@.clear_color == old(self)@.clear_color,
            decreases n - i,
        {
            if self.entities[i].config.does_render && !self.entities[i].is_prepared() {
                let mut container = Self::placeholder_container();
                self.entities.set_and_swap(i, &mut container);
                container.prepare_entity(surface_format, device, queue);
                self.entities.set_and_swap(i, &mut container);
            }
            i = i + 1;
        }
        proof {
            if old(self).wf() && self@.behaviour is OverwriteOnDuplication {
                assert forall|a: int, b: int| 0 <= a < b < self@.entities.len() implies (
                #[trigger] self@.entities[a]).config.tag@ != (#[trigger] self@.entities[b]).config.tag@
                    by {
                    assert(self@.entities[a].config == old(self)@.entities[a].config);
                    assert(self@.entities[b].config == old(self)@.entities[b].config);
                }
            }
        }
    }

    /// Borrows of the meshes of every render-eligible prepared container, in
    /// collection order.
    fn collect_prepared_meshes(&self) -> (r: Vec<&Mesh>)
        ensures
            r@.len() == spec_collect_mesh_models(self@.entities).len(),
            forall|k: int|
                0 <= k < r@.len() ==> (#[trigger] r@[k]).to_model() == spec_collect_mesh_models(
                    self@.entities,
                )[k],
    {
        let n = self.entities.len();
        let mut out: Vec<&Mesh> = Vec::new();
        let mut i: usize = 0;
        while i < n
            invariant
                0 <= i <= n,
                n == self@.entities.len(),
                out@.len() == spec_collect_mesh_models(self@.entities.take(i as int)).len(),
                forall|k: int|
                    0 <= k < out@.len() ==> (#[trigger] out@[k]).to_model()
                        == spec_collect_mesh_models(self@.entities.take(i as int))[k],
            decreases n - i,
        {
            proof {
                lemma_collect_mesh_models_extend(self@.entities, i as int);
            }
            if self.entities[i].is_prepared() && self.entities[i].config.does_render {
                let ghost out_before = out@;
                let mut meshes = self.entities[i].entity.get_meshes();
                let ghost fresh = meshes@;
                out.append(&mut meshes);
                proof {
                    let total = spec_collect_mesh_models(self@.entities.take(i + 1));
                    assert forall|k: int| 0 <= k < out@.len() implies (#[trigger] out@[k]).to_model()
                        == total[k] by {
                        if k < out_before.len() {
                            assert(out@[k] == out_before[k]);
                        } else {
                            assert(out@[k] == fresh[k - out_before.len()]);
                        }
                    }
                }
            }
            i = i + 1;
        }
        proof {
            assert(self@.entities.take(n as int) =~= self@.entities);
        }
        out
    }

    /// First realizes GPU resources for every render-eligible container that
    /// is not yet prepared (flipping its prepared flag), then hands back
    /// borrows of the meshes of every render-eligible prepared container.
    /// Preparation is idempotent: an already-prepared container is never
    /// re-realized (see [`lemma_prepare_idempotent`]).
    pub fn prepare_render_and_collect_meshes(
        &mut self,
        surface_format: &TextureFormat,
        device: &Device,
        queue: &Queue,
    ) -> (r: Vec<&Mesh>)
        ensures
            spec_prepared_step(old(self)@.entities, final(self)@.entities, *surface_format),
            final(self)@.queued == old(self)@.queued,
            final(self)@.warnings == old(self)@.warnings,
            final(self)@.behaviour == old(self)@.behaviour,
            final(self)@.clear_color == old(self)@.clear_color,
            old(self).wf() ==> final(self).wf(),
            r@.len() == spec_collect_mesh_models(final(self)@.entities).len(),
            forall|k: int|
                0 <= k < r@.len() ==> (#[trigger] r@[k]).to_model() == spec_collect_mesh_models(
                    final(self)@.entities,
                )[k],
    {
        self.prepare_unprepared(surface_format, device, queue);
        self.collect_prepared_meshes()
    }

    /// An inert container to swap into the collection while one of its
    /// elements is updated in place.
    fn placeholder_container() -> EntityContainer {
        EntityContainer::from_entity(
            Entity::Scripted(
                ScriptedEntity::new(
                    0,
                    EntityConfiguration::new(String::new(), UpdateFrequency::Never, false),
                    Vec::new(),
                    Chain::End,
                    Vec::new(),
                ),
            ),
        )
    }

    /// Runs the registration hook, queues the bootstrap actions, wraps and
    /// pushes.
    fn insert_entity(&mut self, entity: Entity)
        ensures
            final(self)@.entities == old(self)@.entities.push(spec_container_of(entity)),
            final(self)@.queued == old(self)@.queued + entity.spec_registration_actions(),
            final(self)@.warnings == old(self)@.warnings,
            final(self)@.behaviour == old(self)@.behaviour,
            final(self)@.clear_color == old(self)@.clear_color,
    {
        let mut entity = entity;
        let mut actions = entity.on_registration();
        self.queued_actions.append(&mut actions);
        self.entities.push(EntityContainer::from_entity(entity));
    }
}

} // verus!
