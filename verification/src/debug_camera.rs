use vstd::prelude::*;
use vstd::string::StringExecFns;

use crate::camera::{CameraChange, Mode};
use crate::entity::{
    EntityAction, EntityConfiguration, UpdateFrequency,
};
use crate::chain::Chain;
use crate::input::{spec_dynamic_axis, ActionState, Axis, Button, InputHandler, KeyCode};
use crate::math::{spec_mul_fp, mul_fp, Vec3, FP_ONE, FP_RANGE};

verus! {

/// A free-flight debug camera entity: it maps movement keys, buttons and
/// sticks to named actions, and each update turns the queried axes into one
/// view-aligned camera offset scaled by the frame's time delta.
pub struct DebugTestCamera {
    /// Unique identifier within a keyed registry.
    pub id: u128,
    /// Static metadata consumed by the world.
    pub config: EntityConfiguration,
    /// Whether the registration hook has run.
    pub registered: bool,
    /// Bootstrap actions, handed out once by the registration hook.
    pub registration_actions: Option<Vec<EntityAction>>,
    /// How many update calls this entity has received.
    pub updates_run: u64,
    /// How many input events this entity has received.
    pub input_events_seen: u64,
    /// The camera identifier its changes are addressed to.
    pub identifier: String,
    /// The entity's own input-query state, fed by its input hook.
    pub input_handler: InputHandler,
}

/// The frame delta clamped into the fixed-point multiplication range.
pub open spec fn spec_clamped_delta(delta_time: u64) -> int {
    if delta_time > FP_RANGE as u64 {
        FP_RANGE as int
    } else {
        delta_time as int
    }
}

/// The movement this camera derives from one queried axis: the axis value
/// scaled by the clamped frame delta, or nothing when the axis is silent.
pub open spec fn spec_axis_movement(handler: InputHandler, axis: Seq<char>, positive: Seq<char>, negative: Seq<char>, delta_time: u64) -> int {
    match spec_dynamic_axis(handler, axis, positive, negative) {
        Option::Some(value) => spec_mul_fp(value as int, spec_clamped_delta(delta_time)),
        Option::None => 0,
    }
}

/// The actions one debug-camera update emits: a single view-aligned offset of
/// the queried movement, or nothing when no axis moved.
pub open spec fn spec_camera_update_actions(d: DebugTestCamera, delta_time: u64) -> Seq<
    EntityAction,
> {
    let x = spec_axis_movement(
        d.input_handler,
        "move_forward_backward"@,
        "move_forward"@,
        "move_backward"@,
        delta_time,
    );
    let z = spec_axis_movement(
        d.input_handler,
        "move_left_right"@,
        "move_right"@,
        "move_left"@,
        delta_time,
    );
    let y = spec_axis_movement(
        d.input_handler,
        "move_up_down"@,
        "move_up"@,
        "move_down"@,
        delta_time,
    );
    if x != 0 || y != 0 || z != 0 {
        seq![
            EntityAction::CameraChange(
                CameraChange {
                    target: d.identifier,
                    position: Option::Some(
                        Mode::OffsetViewAligned(Vec3 { x: x as i64, y: y as i64, z: z as i64 }),
                    ),
                },
            ),
        ]
    } else {
        Seq::empty()
    }
}

/// The debug camera after one update call: only its update counter moves.
pub open spec fn spec_debug_camera_after_update(d: DebugTestCamera, delta_time: u64)
    -> DebugTestCamera {
    DebugTestCamera { updates_run: crate::entity::spec_bump(d.updates_run), ..d }
}

/// The camera's starting position.
pub open spec fn spec_debug_start_position() -> Vec3 {
    Vec3 { x: (-5 * (FP_ONE as int)) as i64, y: 0, z: 0 }
}

impl DebugTestCamera {
    /// A fresh, unregistered debug camera with the standard movement
    /// bindings. Its bootstrap action places the camera it controls at the
    /// starting position.
    pub fn new() -> (c: Self)
        ensures
            c.id == 0,
            !c.registered,
            c.updates_run == 0,
            c.input_events_seen == 0,
            c.identifier@ == "DEBUG"@,
            c.config.tag@ == "debug test camera"@,
            c.config.update_frequency == UpdateFrequency::EveryFrame,
            !c.config.does_render,
            c.registration_actions matches Option::Some(boot) && boot@.len() == 1
                && (boot@[0] matches EntityAction::CameraChange(change)
                && change.target@ == "DEBUG"@
                && change.position == Option::Some(Mode::Overwrite(spec_debug_start_position()))),
            c.input_handler.states == Chain::<(String, ActionState)>::End,
            c.input_handler.keyboard_mappings@.len() == 6,
            c.input_handler.keyboard_mappings@[0].0 == KeyCode::KeyW,
            c.input_handler.keyboard_mappings@[0].1@ == "move_forward"@,
            c.input_handler.keyboard_mappings@[1].0 == KeyCode::KeyS,
            c.input_handler.keyboard_mappings@[1].1@ == "move_backward"@,
            c.input_handler.keyboard_mappings@[2].0 == KeyCode::KeyA,
            c.input_handler.keyboard_mappings@[2].1@ == "move_left"@,
            c.input_handler.keyboard_mappings@[3].0 == KeyCode::KeyD,
            c.input_handler.keyboard_mappings@[3].1@ == "move_right"@,
            c.input_handler.keyboard_mappings@[4].0 == KeyCode::KeyQ,
            c.input_handler.keyboard_mappings@[4].1@ == "move_down"@,
            c.input_handler.keyboard_mappings@[5].0 == KeyCode::KeyE,
            c.input_handler.keyboard_mappings@[5].1@ == "move_up"@,
            c.input_handler.button_mappings@.len() == 2,
            c.input_handler.button_mappings@[0].0 == Button::DPadDown,
            c.input_handler.button_mappings@[0].1@ == "move_down"@,
            c.input_handler.button_mappings@[1].0 == Button::DPadUp,
            c.input_handler.button_mappings@[1].1@ == "move_up"@,
            c.input_handler.axis_mappings@.len() == 2,
            c.input_handler.axis_mappings@[0].0 == Axis::LeftStickY,
            c.input_handler.axis_mappings@[0].1@ == "move_forward_backward"@,
            c.input_handler.axis_mappings@[1].0 == Axis::LeftStickX,
            c.input_handler.axis_mappings@[1].1@ == "move_left_right"@,
    {
        let mut input_handler = InputHandler::new();

        input_handler.register_keyboard_mapping(KeyCode::KeyW, "move_forward");
        input_handler.register_keyboard_mapping(KeyCode::KeyS, "move_backward");
        input_handler.register_keyboard_mapping(KeyCode::KeyA, "move_left");
        input_handler.register_keyboard_mapping(KeyCode::KeyD, "move_right");
        input_handler.register_keyboard_mapping(KeyCode::KeyQ, "move_down");
        input_handler.register_keyboard_mapping(KeyCode::KeyE, "move_up");

        input_handler.register_gamepad_button_mapping(Button::DPadDown, "move_down");
        input_handler.register_gamepad_button_mapping(Button::DPadUp, "move_up");

        input_handler.register_gamepad_axis_mapping(Axis::LeftStickY, "move_forward_backward");
        input_handler.register_gamepad_axis_mapping(Axis::LeftStickX, "move_left_right");

        let identifier = String::from_str("DEBUG");
        let start = Vec3 { x: -5 * FP_ONE, y: 0, z: 0 };
        let mut registration: Vec<EntityAction> = Vec::new();
        registration.push(
            EntityAction::CameraChange(
                CameraChange {
                    target: identifier.clone(),
                    position: Option::Some(Mode::Overwrite(start)),
                },
            ),
        );

        DebugTestCamera {
            id: 0,
            config: EntityConfiguration {
                tag: String::from_str("debug test camera"),
                update_frequency: UpdateFrequency::EveryFrame,
                does_render: false,
            },
            registered: false,
            registration_actions: Option::Some(registration),
            updates_run: 0,
            input_events_seen: 0,
            identifier,
            input_handler,
        }
    }

    /// Turns the currently queried movement axes into this update's camera
    /// actions.
    pub fn compute_update_actions(&self, delta_time: u64) -> (actions: Vec<EntityAction>)
        ensures
            actions@ == spec_camera_update_actions(*self, delta_time),
    {
        let dt: i64 = if delta_time > FP_RANGE as u64 {
            FP_RANGE
        } else {
            delta_time as i64
        };

        let forward_backward = self.input_handler.get_dynamic_axis(
            "move_forward_backward",
            "move_forward",
            "move_backward",
        );
        let left_right = self.input_handler.get_dynamic_axis(
            "move_left_right",
            "move_right",
            "move_left",
        );
        let up_down = self.input_handler.get_dynamic_axis("move_up_down", "move_up", "move_down");

        let x: i64 = match forward_backward {
            Option::Some(value) => mul_fp(value, dt),
            Option::None => 0,
        };
        let z: i64 = match left_right {
            Option::Some(value) => mul_fp(value, dt),
            Option::None => 0,
        };
        let y: i64 = match up_down {
            Option::Some(value) => mul_fp(value, dt),
            Option::None => 0,
        };

        if x != 0 || y != 0 || z != 0 {
            let change = CameraChange {
                target: self.identifier.clone(),
                position: Option::Some(Mode::OffsetViewAligned(Vec3 { x, y, z })),
            };
            let mut actions: Vec<EntityAction> = Vec::new();
            actions.push(EntityAction::CameraChange(change));
            proof {
                assert(actions@ =~= spec_camera_update_actions(*self, delta_time));
            }
            actions
        } else {
            Vec::new()
        }
    }
}

} // verus!
