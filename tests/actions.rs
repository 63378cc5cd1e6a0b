use vr_overlay::actions::{ActionCache, ActionReconciler, DigitalAction, DigitalReading, InputRequest};
use vr_overlay::controller::{decode_controller_state, AxisSample, ControllerState, LegacyReading};

fn legacy() -> ControllerState<f64> {
    let axes = [
        AxisSample { x: 0.1, y: 0.2 },
        AxisSample { x: 0.3, y: 0.0 },
        AxisSample { x: 0.4, y: 0.5 },
        AxisSample { x: 0.0, y: 0.0 },
        AxisSample { x: 0.0, y: 0.0 },
    ];
    decode_controller_state(&LegacyReading { buttons_pressed: 1u64 << 32, axes })
}

fn cache() -> ActionCache {
    ActionCache {
        initialized: true,
        action_set: 11,
        trigger_action: 21,
        grip_action: 22,
        left_hand_source: 31,
        right_hand_source: 32,
    }
}

/// Runs the reconciler the way the host does, answering each request from
/// the closure and logging the digital queries made.
fn run(
    mut r: ActionReconciler,
    refresh_status: u32,
    role: Option<u32>,
    read: impl Fn(DigitalAction, u64) -> DigitalReading,
    base: ControllerState<f64>,
) -> (ControllerState<f64>, Vec<(DigitalAction, u64, u64)>) {
    let mut log = Vec::new();
    loop {
        match r.next_request() {
            InputRequest::ActivateActionSet { .. } => r.on_refreshed(refresh_status),
            InputRequest::ControllerRole => r.on_role(role),
            InputRequest::DigitalActionData { action, action_handle, source } => {
                log.push((action, action_handle, source));
                r.on_digital(read(action, source));
            }
            InputRequest::Finished => return (r.apply(base), log),
        }
    }
}

fn active(state: bool) -> DigitalReading {
    DigitalReading { status: 0, active: true, state }
}

fn inactive() -> DigitalReading {
    DigitalReading { status: 0, active: false, state: true }
}

#[test]
fn unconfigured_cache_keeps_legacy_exactly() {
    let base = legacy();
    for c in [None, Some(ActionCache { initialized: false, ..cache() })] {
        let r = ActionReconciler::new(c);
        assert_eq!(r.next_request(), InputRequest::Finished);
        let (out, log) = run(r, 0, Some(1), |_, _| active(true), base);
        assert_eq!(out, base);
        assert!(log.is_empty());
    }
}

#[test]
fn active_actions_override_flags_only() {
    let base = legacy();
    let (out, log) = run(
        ActionReconciler::new(Some(cache())),
        0,
        Some(1),
        |a, _| if a == DigitalAction::Trigger { active(true) } else { active(true) },
        base,
    );
    assert!(out.trigger_pressed);
    assert!(out.grip_pressed);
    assert_eq!(out.trigger_value, 0.3);
    assert_eq!((out.touchpad_x, out.touchpad_y), (0.1, 0.2));
    assert_eq!((out.joystick_x, out.joystick_y), (0.4, 0.5));
    assert!(out.touchpad_pressed);
    assert_eq!(log, vec![(DigitalAction::Trigger, 21, 31), (DigitalAction::Grip, 22, 31)]);
}

#[test]
fn released_action_overrides_pressed_legacy() {
    let base = ControllerState { trigger_pressed: true, grip_pressed: true, ..legacy() };
    let (out, _) = run(ActionReconciler::new(Some(cache())), 0, Some(2), |_, _| active(false), base);
    assert!(!out.trigger_pressed);
    assert!(!out.grip_pressed);
}

#[test]
fn hand_source_inactive_falls_back_to_wildcard() {
    let base = legacy();
    let (out, log) = run(
        ActionReconciler::new(Some(cache())),
        0,
        Some(2),
        |a, s| match (a, s) {
            (DigitalAction::Trigger, 32) => active(true),
            (DigitalAction::Grip, 32) => inactive(),
            (DigitalAction::Grip, 0) => active(true),
            _ => inactive(),
        },
        base,
    );
    assert!(out.trigger_pressed && out.grip_pressed);
    assert_eq!(
        log,
        vec![(DigitalAction::Trigger, 21, 32), (DigitalAction::Grip, 22, 32), (DigitalAction::Grip, 22, 0)]
    );
}

#[test]
fn unknown_role_queries_wildcard_once() {
    let base = legacy();
    let (out, log) = run(ActionReconciler::new(Some(cache())), 0, None, |_, _| inactive(), base);
    assert_eq!(out, base);
    assert_eq!(log, vec![(DigitalAction::Trigger, 21, 0), (DigitalAction::Grip, 22, 0)]);
    let (_, log) = run(ActionReconciler::new(Some(cache())), 0, Some(3), |_, _| inactive(), base);
    assert_eq!(log.len(), 2);
}

#[test]
fn failed_steps_keep_legacy() {
    let base = legacy();
    let (out, log) = run(ActionReconciler::new(Some(cache())), 4, Some(1), |_, _| active(true), base);
    assert_eq!(out, base);
    assert!(log.is_empty());
    let failing = |_, _| DigitalReading { status: 1, active: true, state: true };
    let (out, log) = run(ActionReconciler::new(Some(cache())), 0, Some(1), failing, base);
    assert_eq!(out, base);
    assert_eq!(log.len(), 4);
}
