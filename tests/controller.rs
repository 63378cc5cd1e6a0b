use vr_overlay::controller::{
    check_device_index, controller_ids, controller_pose, decode_controller_state, empty_controller_state,
    expand_matrix, legacy_controller_state, prepare_pose_slots, AxisSample, LegacyReading, PoseSample,
    MAX_TRACKED_DEVICES,
};
use vr_overlay::error::OverlayError;

fn axes() -> [AxisSample<f64>; 5] {
    [
        AxisSample { x: 0.25, y: -0.5 },
        AxisSample { x: 0.75, y: 0.0 },
        AxisSample { x: -1.0, y: 1.0 },
        AxisSample { x: 9.0, y: 9.0 },
        AxisSample { x: 8.0, y: 8.0 },
    ]
}

#[test]
fn legacy_decoding_reads_known_bits_and_axes() {
    let reading = LegacyReading { buttons_pressed: (1u64 << 33) | (1u64 << 2), axes: axes() };
    let s = decode_controller_state(&reading);
    assert!(s.trigger_pressed);
    assert!(s.grip_pressed);
    assert!(!s.touchpad_pressed);
    assert!(!s.joystick_pressed);
    assert_eq!(s.trigger_value, 0.75);
    assert_eq!((s.touchpad_x, s.touchpad_y), (0.25, -0.5));
    assert_eq!((s.joystick_x, s.joystick_y), (-1.0, 1.0));

    let t = decode_controller_state(&LegacyReading { buttons_pressed: (1u64 << 32) | (1u64 << 34), axes: axes() });
    assert!(!t.trigger_pressed && !t.grip_pressed);
    assert!(t.touchpad_pressed && t.joystick_pressed);
}

#[test]
fn failed_legacy_reading_is_released_snapshot() {
    let s = legacy_controller_state::<f64>(None, 0.0);
    assert_eq!(s, empty_controller_state(0.0));
    assert!(!s.trigger_pressed && !s.grip_pressed && !s.touchpad_pressed && !s.joystick_pressed);
    assert_eq!(s.trigger_value, 0.0);
}

#[test]
fn device_index_limit() {
    assert_eq!(check_device_index(0), Ok(0));
    assert_eq!(check_device_index(63), Ok(63));
    assert_eq!(check_device_index(MAX_TRACKED_DEVICES), Err(OverlayError::InvalidDeviceIndex(64)));
    assert_eq!(check_device_index(1000), Err(OverlayError::InvalidDeviceIndex(1000)));
}

fn pose(valid: bool, connected: bool) -> PoseSample<f32> {
    PoseSample {
        pose_is_valid: valid,
        device_is_connected: connected,
        device_to_absolute: [[1.0, 2.0, 3.0, 4.0], [5.0, 6.0, 7.0, 8.0], [9.0, 10.0, 11.0, 12.0]],
    }
}

#[test]
fn pose_of_untracked_device_is_empty() {
    assert!(controller_pose(&pose(false, true), 0.0, 1.0).is_empty());
    assert!(controller_pose(&pose(true, false), 0.0, 1.0).is_empty());
}

#[test]
fn pose_is_padded_row_major() {
    let m = controller_pose(&pose(true, true), 0.0, 1.0);
    assert_eq!(
        m,
        vec![1.0, 2.0, 3.0, 4.0, 5.0, 6.0, 7.0, 8.0, 9.0, 10.0, 11.0, 12.0, 0.0, 0.0, 0.0, 1.0]
    );
    assert_eq!(expand_matrix(&[[0u8; 4]; 3], 0, 1), {
        let mut v = vec![0u8; 16];
        v[15] = 1;
        v
    });
}

#[test]
fn controller_ids_in_slot_order() {
    let mut classes = vec![0u32; 64];
    classes[0] = 1;
    classes[3] = 2;
    classes[4] = 3;
    classes[17] = 2;
    classes[63] = 2;
    assert_eq!(controller_ids(&classes), vec![3, 17, 63]);
    assert_eq!(controller_ids(&[]), Vec::<u32>::new());
}

#[test]
fn pose_slots_sized_once() {
    let mut slots: Vec<u8> = Vec::new();
    prepare_pose_slots(&mut slots, 7);
    assert_eq!(slots.len(), 64);
    assert!(slots.iter().all(|&b| b == 7));
    slots[5] = 1;
    prepare_pose_slots(&mut slots, 9);
    assert_eq!(slots.len(), 64);
    assert_eq!(slots[5], 1);
    assert_eq!(slots[6], 7);
    let mut long = vec![3u8; 70];
    prepare_pose_slots(&mut long, 0);
    assert_eq!(long, vec![3u8; 64]);
}
