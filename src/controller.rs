//! Tracked-device queries: controller slots, poses, and the legacy
//! button/axis snapshot.
//!
//! Axis values and matrix entries are carried as the host's sample type `A`
//! and are never inspected here; only their placement is decided.
use vstd::prelude::*;

use crate::error::OverlayError;

verus! {

/// Number of device slots the runtime tracks.
pub const MAX_TRACKED_DEVICES: u32 = 64;

/// Device class the runtime reports for a hand controller.
pub const DEVICE_CLASS_CONTROLLER: u32 = 2;

/// Number of axes in a legacy controller reading.
pub const CONTROLLER_AXIS_COUNT: usize = 5;

/// Button bit of the trigger click.
pub const BUTTON_BIT_TRIGGER: u64 = 33;

/// Button bit of the grip.
pub const BUTTON_BIT_GRIP: u64 = 2;

/// Button bit of the touchpad click.
pub const BUTTON_BIT_TOUCHPAD: u64 = 32;

/// Button bit of the joystick click.
pub const BUTTON_BIT_JOYSTICK: u64 = 34;

/// Axis slot of the touchpad.
pub const AXIS_TOUCHPAD: usize = 0;

/// Axis slot of the trigger.
pub const AXIS_TRIGGER: usize = 1;

/// Axis slot of the joystick.
pub const AXIS_JOYSTICK: usize = 2;

/// Snapshot of one controller's buttons and axes.
#[derive(Clone, Copy, Debug, PartialEq, Eq)]
pub struct ControllerState<A> {
    pub trigger_pressed: bool,
    pub trigger_value: A,
    pub grip_pressed: bool,
    pub touchpad_pressed: bool,
    pub touchpad_x: A,
    pub touchpad_y: A,
    pub joystick_pressed: bool,
    pub joystick_x: A,
    pub joystick_y: A,
}

/// One axis of a legacy reading.
#[derive(Clone, Copy, Debug, PartialEq, Eq)]
pub struct AxisSample<A> {
    pub x: A,
    pub y: A,
}

/// Raw legacy controller state as the runtime reports it.
#[derive(Clone, Copy, Debug)]
pub struct LegacyReading<A> {
    pub buttons_pressed: u64,
    pub axes: [AxisSample<A>; 5],
}

/// One slot of the bulk pose query.
#[derive(Clone, Copy, Debug)]
pub struct PoseSample<A> {
    pub pose_is_valid: bool,
    pub device_is_connected: bool,
    /// Rows of the device-to-tracking-origin transform.
    pub device_to_absolute: [[A; 4]; 3],
}

/// Whether button `bit` is down in a pressed-button mask.
pub open spec fn button_down(buttons: u64, bit: u64) -> bool {
    (buttons >> bit) & 1u64 == 1u64
}

pub open spec fn released_state<A>(zero: A) -> ControllerState<A> {
    ControllerState {
        trigger_pressed: false,
        trigger_value: zero,
        grip_pressed: false,
        touchpad_pressed: false,
        touchpad_x: zero,
        touchpad_y: zero,
        joystick_pressed: false,
        joystick_x: zero,
        joystick_y: zero,
    }
}

pub open spec fn decoded_state<A>(reading: LegacyReading<A>) -> ControllerState<A> {
    ControllerState {
        trigger_pressed: button_down(reading.buttons_pressed, BUTTON_BIT_TRIGGER),
        trigger_value: reading.axes[AXIS_TRIGGER as int].x,
        grip_pressed: button_down(reading.buttons_pressed, BUTTON_BIT_GRIP),
        touchpad_pressed: button_down(reading.buttons_pressed, BUTTON_BIT_TOUCHPAD),
        touchpad_x: reading.axes[AXIS_TOUCHPAD as int].x,
        touchpad_y: reading.axes[AXIS_TOUCHPAD as int].y,
        joystick_pressed: button_down(reading.buttons_pressed, BUTTON_BIT_JOYSTICK),
        joystick_x: reading.axes[AXIS_JOYSTICK as int].x,
        joystick_y: reading.axes[AXIS_JOYSTICK as int].y,
    }
}

/// The legacy snapshot: decoded when the reading succeeded, all released
/// and zero otherwise.
pub open spec fn legacy_state<A>(reading: Option<LegacyReading<A>>, zero: A) -> ControllerState<A> {
    match reading {
        Some(r) => decoded_state(r),
        None => released_state(zero),
    }
}

/// A snapshot with nothing pressed and every axis at `zero`.
pub fn empty_controller_state<A: Copy>(zero: A) -> (r: ControllerState<A>)
    ensures
        r == released_state(zero),
{
    ControllerState {
        trigger_pressed: false,
        trigger_value: zero,
        grip_pressed: false,
        touchpad_pressed: false,
        touchpad_x: zero,
        touchpad_y: zero,
        joystick_pressed: false,
        joystick_x: zero,
        joystick_y: zero,
    }
}

fn is_button_down(buttons: u64, bit: u64) -> (r: bool)
    requires
        bit < 64,
    ensures
        r == button_down(buttons, bit),
{
    proof {
        assert((buttons & (1u64 << bit) != 0u64) == ((buttons >> bit) & 1u64 == 1u64)) by (bit_vector)
            requires
                bit < 64,
        ;
    }
    (buttons & (1u64 << bit)) != 0
}

/// Decodes the known button bits and axis slots of a legacy reading.
pub fn decode_controller_state<A: Copy>(reading: &LegacyReading<A>) -> (r: ControllerState<A>)
    ensures
        r == decoded_state(*reading),
{
    let b = reading.buttons_pressed;
    ControllerState {
        trigger_pressed: is_button_down(b, BUTTON_BIT_TRIGGER),
        trigger_value: reading.axes[AXIS_TRIGGER].x,
        grip_pressed: is_button_down(b, BUTTON_BIT_GRIP),
        touchpad_pressed: is_button_down(b, BUTTON_BIT_TOUCHPAD),
        touchpad_x: reading.axes[AXIS_TOUCHPAD].x,
        touchpad_y: reading.axes[AXIS_TOUCHPAD].y,
        joystick_pressed: is_button_down(b, BUTTON_BIT_JOYSTICK),
        joystick_x: reading.axes[AXIS_JOYSTICK].x,
        joystick_y: reading.axes[AXIS_JOYSTICK].y,
    }
}

/// The legacy snapshot; a failed reading (`None`) is the normal state of an
/// absent controller and yields the released snapshot, not an error.
pub fn legacy_controller_state<A: Copy>(reading: Option<LegacyReading<A>>, zero: A) -> (r: ControllerState<A>)
    ensures
        r == legacy_state(reading, zero),
{
    match reading {
        Some(rd) => decode_controller_state(&rd),
        None => empty_controller_state(zero),
    }
}

/// Rejects device indices at or above the tracked-device limit.
pub fn check_device_index(index: u32) -> (r: Result<usize, OverlayError>)
    ensures
        index < MAX_TRACKED_DEVICES ==> r == Ok::<usize, OverlayError>(index as usize),
        index >= MAX_TRACKED_DEVICES ==> r == Err::<usize, OverlayError>(
            OverlayError::InvalidDeviceIndex(index),
        ),
{
    if index >= MAX_TRACKED_DEVICES {
        Err(OverlayError::InvalidDeviceIndex(index))
    } else {
        Ok(index as usize)
    }
}

/// Slot indices whose device class is the controller class, in order.
pub open spec fn controller_slots(classes: Seq<u32>) -> Seq<u32>
    decreases classes.len(),
{
    if classes.len() == 0 {
        Seq::empty()
    } else {
        let n = (classes.len() - 1) as int;
        let earlier = controller_slots(classes.subrange(0, n));
        if classes[n] == DEVICE_CLASS_CONTROLLER {
            earlier.push(n as u32)
        } else {
            earlier
        }
    }
}

/// Lists the slots classified as controllers, given the device class of
/// each slot in slot order.
pub fn controller_ids(classes: &[u32]) -> (r: Vec<u32>)
    requires
        classes@.len() <= MAX_TRACKED_DEVICES,
    ensures
        r@ == controller_slots(classes@),
{
    let mut ids: Vec<u32> = Vec::new();
    let mut i: usize = 0;
    while i < classes.len()
        invariant
            0 <= i <= classes@.len(),
            classes@.len() <= MAX_TRACKED_DEVICES,
            ids@ == controller_slots(classes@.subrange(0, i as int)),
        decreases classes@.len() - i,
    {
        let ghost prefix = classes@.subrange(0, i as int + 1);
        assert(prefix.subrange(0, i as int) =~= classes@.subrange(0, i as int));
        if classes[i] == DEVICE_CLASS_CONTROLLER {
            ids.push(i as u32);
        }
        i = i + 1;
    }
    assert(classes@.subrange(0, classes@.len() as int) =~= classes@);
    ids
}

/// The scratch buffer of pose slots after it is prepared for a bulk query.
pub open spec fn prepared_slots<P>(slots: Seq<P>, fill: P) -> Seq<P> {
    if slots.len() == MAX_TRACKED_DEVICES {
        slots
    } else if slots.len() > MAX_TRACKED_DEVICES {
        slots.subrange(0, MAX_TRACKED_DEVICES as int)
    } else {
        slots + Seq::new((MAX_TRACKED_DEVICES - slots.len()) as nat, |i: int| fill)
    }
}

/// Sizes the reusable pose buffer to one slot per tracked device, keeping
/// what it holds when it already has that size.
pub fn prepare_pose_slots<P: Copy>(slots: &mut Vec<P>, fill: P)
    ensures
        final(slots)@ == prepared_slots(old(slots)@, fill),
        final(slots)@.len() == MAX_TRACKED_DEVICES,
{
    let want: usize = MAX_TRACKED_DEVICES as usize;
    if slots.len() > want {
        slots.truncate(want);
        return;
    }
    let ghost start = slots@;
    while slots.len() < want
        invariant
            start.len() <= want,
            want == MAX_TRACKED_DEVICES,
            slots@.len() <= want,
            slots@ == start + Seq::new((slots@.len() - start.len()) as nat, |i: int| fill),
        decreases want - slots@.len(),
    {
        slots.push(fill);
        assert(slots@ =~= start + Seq::new((slots@.len() - start.len()) as nat, |i: int| fill));
    }
    assert(slots@ =~= prepared_slots(start, fill));
}

/// A 3x4 transform extended to a row-major 4x4 one with the bottom row
/// `[zero, zero, zero, one]`.
pub open spec fn expanded_matrix<A>(m: [[A; 4]; 3], zero: A, one: A) -> Seq<A> {
    Seq::new(
        16,
        |i: int|
            if i < 12 {
                m[i / 4][i % 4]
            } else if i < 15 {
                zero
            } else {
                one
            },
    )
}

/// Row-major 4x4 matrix from the runtime's 3x4 transform.
pub fn expand_matrix<A: Copy>(m: &[[A; 4]; 3], zero: A, one: A) -> (r: Vec<A>)
    ensures
        r@ == expanded_matrix(*m, zero, one),
{
    let mut out: Vec<A> = Vec::new();
    let mut row: usize = 0;
    while row < 3
        invariant
            0 <= row <= 3,
            out@.len() == 4 * row,
            forall|i: int| 0 <= i < out@.len() ==> #[trigger] out@[i] == m[i / 4][i % 4],
        decreases 3 - row,
    {
        let mut col: usize = 0;
        while col < 4
            invariant
                0 <= row < 3,
                0 <= col <= 4,
                out@.len() == 4 * row + col,
                forall|i: int| 0 <= i < out@.len() ==> #[trigger] out@[i] == m[i / 4][i % 4],
            decreases 4 - col,
        {
            out.push(m[row][col]);
            col = col + 1;
        }
        row = row + 1;
    }
    out.push(zero);
    out.push(zero);
    out.push(zero);
    out.push(one);
    assert(out@ =~= expanded_matrix(*m, zero, one));
    out
}

/// The pose of a selected slot as a row-major 4x4 matrix; empty when the
/// pose is invalid or the device is disconnected, which is not an error.
pub open spec fn pose_matrix<A>(pose: PoseSample<A>, zero: A, one: A) -> Seq<A> {
    if pose.pose_is_valid && pose.device_is_connected {
        expanded_matrix(pose.device_to_absolute, zero, one)
    } else {
        Seq::empty()
    }
}

pub fn controller_pose<A: Copy>(pose: &PoseSample<A>, zero: A, one: A) -> (r: Vec<A>)
    ensures
        r@ == pose_matrix(*pose, zero, one),
{
    if !pose.pose_is_valid || !pose.device_is_connected {
        return Vec::new();
    }
    expand_matrix(&pose.device_to_absolute, zero, one)
}

} // verus!
