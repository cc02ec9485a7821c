use akimo_runtime::camera::Mode;
use akimo_runtime::debug_camera::DebugTestCamera;
use akimo_runtime::entity::{Entity, EntityAction};
use akimo_runtime::input::{ActionState, Axis, Button, InputEvent, InputHandler, KeyCode};
use akimo_runtime::math::{Vec3, FP_ONE};

#[test]
fn digital_pair_yields_unit_axis() {
    let mut handler = InputHandler::new();
    handler.register_keyboard_mapping(KeyCode::KeyW, "forward");
    handler.register_keyboard_mapping(KeyCode::KeyS, "backward");
    assert_eq!(handler.get_dynamic_axis("move", "forward", "backward"), None);

    handler.handle_event(&InputEvent::Key(KeyCode::KeyW, true));
    assert_eq!(
        handler.get_dynamic_axis("move", "forward", "backward"),
        Some(FP_ONE)
    );

    handler.handle_event(&InputEvent::Key(KeyCode::KeyS, true));
    assert_eq!(
        handler.get_dynamic_axis("move", "forward", "backward"),
        None,
        "both directions pressed cancel out"
    );

    handler.handle_event(&InputEvent::Key(KeyCode::KeyW, false));
    assert_eq!(
        handler.get_dynamic_axis("move", "forward", "backward"),
        Some(-FP_ONE)
    );
}

#[test]
fn analog_axis_wins_over_digital() {
    let mut handler = InputHandler::new();
    handler.register_keyboard_mapping(KeyCode::KeyW, "forward");
    handler.register_gamepad_axis_mapping(Axis::LeftStickY, "move");
    handler.handle_event(&InputEvent::Key(KeyCode::KeyW, true));
    handler.handle_event(&InputEvent::PadAxis(Axis::LeftStickY, 12345));
    assert_eq!(
        handler.get_dynamic_axis("move", "forward", "backward"),
        Some(12345)
    );
}

#[test]
fn latest_state_shadows_older_ones() {
    let mut handler = InputHandler::new();
    handler.register_gamepad_button_mapping(Button::DPadUp, "up");
    handler.handle_event(&InputEvent::PadButton(Button::DPadUp, true));
    handler.handle_event(&InputEvent::PadButton(Button::DPadUp, false));
    assert_eq!(
        handler.lookup_state("up"),
        Some(ActionState::Digital(false))
    );
}

#[test]
fn unmapped_events_change_nothing() {
    let mut handler = InputHandler::new();
    handler.register_keyboard_mapping(KeyCode::KeyW, "forward");
    handler.handle_event(&InputEvent::Key(KeyCode::KeyQ, true));
    assert_eq!(handler.lookup_state("forward"), None);
}

#[test]
fn debug_camera_emits_view_aligned_movement() {
    let mut camera = DebugTestCamera::new();
    camera
        .input_handler
        .handle_event(&InputEvent::Key(KeyCode::KeyW, true));
    // Half a second at a full forward axis moves half a unit forward.
    let actions = camera.compute_update_actions(FP_ONE as u64 / 2);
    assert_eq!(actions.len(), 1);
    match &actions[0] {
        EntityAction::CameraChange(change) => {
            assert_eq!(change.target, "DEBUG");
            assert_eq!(
                change.position,
                Some(Mode::OffsetViewAligned(Vec3 { x: FP_ONE / 2, y: 0, z: 0 }))
            );
        }
        _ => panic!("a camera change is the only action the debug camera emits"),
    }
}

#[test]
fn debug_camera_idle_emits_nothing() {
    let camera = DebugTestCamera::new();
    assert!(camera.compute_update_actions(FP_ONE as u64).is_empty());
}

#[test]
fn debug_camera_registration_runs_once() {
    let mut entity = Entity::DebugCamera(DebugTestCamera::new());
    let bootstrap = entity.on_registration();
    assert_eq!(bootstrap.len(), 1);
    match &bootstrap[0] {
        EntityAction::CameraChange(change) => {
            assert_eq!(change.target, "DEBUG");
            assert_eq!(
                change.position,
                Some(Mode::Overwrite(Vec3 { x: -5 * FP_ONE, y: 0, z: 0 }))
            );
        }
        _ => panic!("the bootstrap places the controlled camera"),
    }
    let again = entity.on_registration();
    assert!(again.is_empty(), "registration hands out its actions once");
}

#[test]
fn update_counts_and_input_counts_advance() {
    let mut entity = Entity::DebugCamera(DebugTestCamera::new());
    entity.on_input_event(0, &InputEvent::Key(KeyCode::KeyE, true));
    let _ = entity.update(FP_ONE as u64);
    match &entity {
        Entity::DebugCamera(d) => {
            assert_eq!(d.input_events_seen, 1);
            assert_eq!(d.updates_run, 1);
        }
        _ => unreachable!(),
    }
}
