use akimo_runtime::camera::{
    resolve_position, rotate, Camera, CameraChange, CameraDescriptor, Mode, Orientation,
};
use akimo_runtime::gpu::Queue;
use akimo_runtime::math::{clamp_fp, mul_fp, sat_add, Vec3, FP_ONE, FP_RANGE};

fn v(x: i64, y: i64, z: i64) -> Vec3 {
    Vec3 { x, y, z }
}

#[test]
fn view_aligned_without_orientation_equals_offset() {
    let current = v(3 * FP_ONE, -2 * FP_ONE, 5);
    let vector = v(65536, -32768, 1234);
    let aligned = resolve_position(current, &None, &Mode::OffsetViewAligned(vector));
    let offset = resolve_position(current, &None, &Mode::Offset(vector));
    assert_eq!(aligned, offset);
    assert_eq!(offset, v(4 * FP_ONE, -2 * FP_ONE - 32768, 1239));
}

#[test]
fn overwrite_ignores_current_position() {
    let current = v(123, 456, 789);
    let target = v(-1, -2, -3);
    assert_eq!(
        resolve_position(current, &None, &Mode::Overwrite(target)),
        target
    );
}

#[test]
fn view_aligned_rotates_into_basis() {
    // A yaw of a quarter turn: forward looks along -x, right along +z.
    let orientation = Orientation {
        right: v(0, 0, FP_ONE),
        up: v(0, FP_ONE, 0),
        forward: v(-FP_ONE, 0, 0),
    };
    let one_right = v(FP_ONE, 0, 0);
    assert_eq!(rotate(&orientation, one_right), v(0, 0, FP_ONE));
    let resolved = resolve_position(
        v(0, 0, 0),
        &Some(orientation),
        &Mode::OffsetViewAligned(one_right),
    );
    assert_eq!(resolved, v(0, 0, FP_ONE));

    let one_forward = v(0, 0, FP_ONE);
    assert_eq!(rotate(&orientation, one_forward), v(-FP_ONE, 0, 0));
}

#[test]
fn camera_applies_matching_change_only() {
    let mut camera = Camera::from_descriptor(CameraDescriptor {
        identifier: "main".to_string(),
        position: v(0, 0, 0),
    });
    let queue = Queue::new();
    camera.apply_camera_change(
        &queue,
        CameraChange {
            target: "other".to_string(),
            position: Some(Mode::Offset(v(FP_ONE, 0, 0))),
        },
    );
    assert_eq!(camera.position, v(0, 0, 0));
    camera.apply_camera_change(
        &queue,
        CameraChange {
            target: "main".to_string(),
            position: Some(Mode::Offset(v(FP_ONE, 0, 0))),
        },
    );
    assert_eq!(camera.position, v(FP_ONE, 0, 0));
    camera.apply_camera_change(
        &queue,
        CameraChange {
            target: "main".to_string(),
            position: None,
        },
    );
    assert_eq!(camera.position, v(FP_ONE, 0, 0));
}

#[test]
fn change_reports_whether_it_changes_something() {
    let silent = CameraChange { target: "main".to_string(), position: None };
    assert!(!silent.does_change_something());
    let moving = CameraChange {
        target: "main".to_string(),
        position: Some(Mode::Offset(v(1, 0, 0))),
    };
    assert!(moving.does_change_something());
}

#[test]
fn fixed_point_multiplication_is_exact() {
    assert_eq!(mul_fp(3 * FP_ONE, 2 * FP_ONE), 6 * FP_ONE);
    assert_eq!(mul_fp(-3 * FP_ONE, 2 * FP_ONE), -6 * FP_ONE);
    assert_eq!(mul_fp(FP_ONE / 2, FP_ONE / 2), FP_ONE / 4);
    assert_eq!(mul_fp(0, 12345), 0);
    // Operands are clamped into the multiplication range first.
    assert_eq!(mul_fp(FP_RANGE + 999, FP_ONE), FP_RANGE);
    assert_eq!(clamp_fp(-FP_RANGE - 7), -FP_RANGE);
}

#[test]
fn saturating_addition_stops_at_the_rails() {
    assert_eq!(sat_add(1, 2), 3);
    assert_eq!(sat_add(i64::MAX, 1), i64::MAX);
    assert_eq!(sat_add(i64::MIN, -1), i64::MIN);
    assert_eq!(sat_add(i64::MAX, i64::MIN), -1);
}
