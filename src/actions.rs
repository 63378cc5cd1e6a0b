//! Reconciliation of the legacy controller snapshot with the action-based
//! input system.
//!
//! When the host has configured action-based input, the trigger and grip
//! flags of the legacy snapshot are replaced by the digital actions' states,
//! queried first against the controller's own hand source and then against
//! any source. The reconciler decides each query; the host performs it and
//! hands the result back. Axis values are never touched, and any failed
//! step leaves the legacy flags as they were.
use vstd::prelude::*;

use crate::controller::ControllerState;

verus! {

/// Input source handle that stands for any source.
pub const ANY_INPUT_SOURCE: u64 = 0;

/// Controller role the runtime reports for the left hand.
pub const ROLE_LEFT_HAND: u32 = 1;

/// Controller role the runtime reports for the right hand.
pub const ROLE_RIGHT_HAND: u32 = 2;

/// Action handles resolved once when the host configures action-based
/// input.
#[derive(Clone, Copy, Debug, PartialEq, Eq, Structural)]
pub struct ActionCache {
    pub initialized: bool,
    pub action_set: u64,
    pub trigger_action: u64,
    pub grip_action: u64,
    pub left_hand_source: u64,
    pub right_hand_source: u64,
}

#[derive(Clone, Copy, Debug, PartialEq, Eq, Structural)]
pub enum DigitalAction {
    Trigger,
    Grip,
}

/// Result of one digital action query.
#[derive(Clone, Copy, Debug, PartialEq, Eq, Structural)]
pub struct DigitalReading {
    /// Status of the query; zero is success.
    pub status: u32,
    /// Whether the action has a bound, live input source.
    pub active: bool,
    /// Whether the action is pressed.
    pub state: bool,
}

#[derive(Clone, Copy, Debug, PartialEq, Eq, Structural)]
pub enum ReconcileStage {
    /// Waiting for the action set to be activated for this frame.
    Refresh,
    /// Waiting for the controller's hand role.
    Role,
    /// Waiting for the reading of `action` against source number `source`.
    Query { source: usize, action: DigitalAction },
    Finished,
}

/// What the host must do next for the reconciler.
#[derive(Clone, Copy, Debug, PartialEq, Eq, Structural)]
pub enum InputRequest {
    /// Activate this action set for the current frame, then call `on_refreshed`.
    ActivateActionSet { action_set: u64 },
    /// Look up the controller's hand role, then call `on_role`.
    ControllerRole,
    /// Read this digital action from this source, then call `on_digital`.
    DigitalActionData { action: DigitalAction, action_handle: u64, source: u64 },
    /// Nothing more: call `apply`.
    Finished,
}

#[derive(Clone, Copy, Debug, PartialEq, Eq, Structural)]
pub struct ActionReconciler {
    pub stage: ReconcileStage,
    pub cache: ActionCache,
    /// First source to query; the wildcard follows it when it is not
    /// itself the wildcard.
    pub preferred_source: u64,
    pub source_count: usize,
    /// Trigger state from the first active reading, if any.
    pub trigger: Option<bool>,
    /// Grip state from the first active reading, if any.
    pub grip: Option<bool>,
}

impl ActionReconciler {
    pub open spec fn wf(&self) -> bool {
        &&& self.source_count <= 2
        &&& match self.stage {
            ReconcileStage::Query { source, action } => {
                &&& source < self.source_count
                &&& action == DigitalAction::Trigger ==> self.trigger.is_none()
                &&& action == DigitalAction::Grip ==> self.grip.is_none()
            },
            _ => true,
        }
    }
}

pub open spec fn unconfigured_cache() -> ActionCache {
    ActionCache {
        initialized: false,
        action_set: 0,
        trigger_action: 0,
        grip_action: 0,
        left_hand_source: 0,
        right_hand_source: 0,
    }
}

pub open spec fn start_spec(cache: Option<ActionCache>) -> ActionReconciler {
    let configured = cache.is_some() && cache.unwrap().initialized;
    ActionReconciler {
        stage: if configured {
            ReconcileStage::Refresh
        } else {
            ReconcileStage::Finished
        },
        cache: if configured {
            cache.unwrap()
        } else {
            unconfigured_cache()
        },
        preferred_source: ANY_INPUT_SOURCE,
        source_count: 0,
        trigger: None,
        grip: None,
    }
}

/// Source number `i` in query order.
pub open spec fn source_spec(s: ActionReconciler, i: usize) -> u64 {
    if i == 0 {
        s.preferred_source
    } else {
        ANY_INPUT_SOURCE
    }
}

pub open spec fn request_spec(s: ActionReconciler) -> InputRequest {
    match s.stage {
        ReconcileStage::Refresh => InputRequest::ActivateActionSet { action_set: s.cache.action_set },
        ReconcileStage::Role => InputRequest::ControllerRole,
        ReconcileStage::Query { source, action } => InputRequest::DigitalActionData {
            action,
            action_handle: match action {
                DigitalAction::Trigger => s.cache.trigger_action,
                DigitalAction::Grip => s.cache.grip_action,
            },
            source: source_spec(s, source),
        },
        ReconcileStage::Finished => InputRequest::Finished,
    }
}

pub open spec fn refreshed_spec(s: ActionReconciler, status: u32) -> ActionReconciler {
    ActionReconciler {
        stage: if status == 0 {
            ReconcileStage::Role
        } else {
            ReconcileStage::Finished
        },
        ..s
    }
}

/// Source preferred for a controller of this hand role; the wildcard when
/// the role is unknown or is not a hand.
pub open spec fn preferred_source_spec(cache: ActionCache, role: Option<u32>) -> u64 {
    match role {
        Some(r) => if r == ROLE_LEFT_HAND {
            cache.left_hand_source
        } else if r == ROLE_RIGHT_HAND {
            cache.right_hand_source
        } else {
            ANY_INPUT_SOURCE
        },
        None => ANY_INPUT_SOURCE,
    }
}

pub open spec fn role_spec(s: ActionReconciler, role: Option<u32>) -> ActionReconciler {
    let preferred = preferred_source_spec(s.cache, role);
    ActionReconciler {
        stage: ReconcileStage::Query { source: 0, action: DigitalAction::Trigger },
        preferred_source: preferred,
        source_count: if preferred == ANY_INPUT_SOURCE {
            1
        } else {
            2
        },
        trigger: None,
        grip: None,
        ..s
    }
}

/// Stage after the reading of `action` from source number `source`.
pub open spec fn advance_spec(
    source: usize,
    action: DigitalAction,
    trigger: Option<bool>,
    grip: Option<bool>,
    source_count: usize,
) -> ReconcileStage {
    if action == DigitalAction::Trigger && grip.is_none() {
        ReconcileStage::Query { source, action: DigitalAction::Grip }
    } else if trigger.is_some() && grip.is_some() {
        ReconcileStage::Finished
    } else if source + 1 < source_count {
        ReconcileStage::Query {
            source: (source + 1) as usize,
            action: if trigger.is_none() {
                DigitalAction::Trigger
            } else {
                DigitalAction::Grip
            },
        }
    } else {
        ReconcileStage::Finished
    }
}

/// A reading resolves its action when the query succeeded and the action
/// is active.
pub open spec fn resolves(reading: DigitalReading) -> bool {
    reading.status == 0 && reading.active
}

pub open spec fn digital_spec(s: ActionReconciler, reading: DigitalReading) -> ActionReconciler {
    match s.stage {
        ReconcileStage::Query { source, action } => {
            let trigger = if action == DigitalAction::Trigger && resolves(reading) {
                Some(reading.state)
            } else {
                s.trigger
            };
            let grip = if action == DigitalAction::Grip && resolves(reading) {
                Some(reading.state)
            } else {
                s.grip
            };
            ActionReconciler {
                stage: advance_spec(source, action, trigger, grip, s.source_count),
                trigger,
                grip,
                ..s
            }
        },
        _ => s,
    }
}

/// The legacy snapshot with the resolved digital actions put in place of its
/// trigger and grip flags.
pub open spec fn reconciled<A>(base: ControllerState<A>, s: ActionReconciler) -> ControllerState<A> {
    ControllerState {
        trigger_pressed: match s.trigger {
            Some(t) => t,
            None => base.trigger_pressed,
        },
        grip_pressed: match s.grip {
            Some(g) => g,
            None => base.grip_pressed,
        },
        ..base
    }
}

impl ActionReconciler {
    /// A reconciler for one controller query. Without a configured cache it
    /// is finished at once and changes nothing.
    pub fn new(cache: Option<ActionCache>) -> (r: Self)
        ensures
            r == start_spec(cache),
            r.wf(),
    {
        let configured = match cache {
            Some(c) => c.initialized,
            None => false,
        };
        if configured {
            ActionReconciler {
                stage: ReconcileStage::Refresh,
                cache: cache.unwrap(),
                preferred_source: ANY_INPUT_SOURCE,
                source_count: 0,
                trigger: None,
                grip: None,
            }
        } else {
            ActionReconciler {
                stage: ReconcileStage::Finished,
                cache: ActionCache {
                    initialized: false,
                    action_set: 0,
                    trigger_action: 0,
                    grip_action: 0,
                    left_hand_source: 0,
                    right_hand_source: 0,
                },
                preferred_source: ANY_INPUT_SOURCE,
                source_count: 0,
                trigger: None,
                grip: None,
            }
        }
    }

    pub fn next_request(&self) -> (r: InputRequest)
        requires
            self.wf(),
        ensures
            r == request_spec(*self),
    {
        match self.stage {
            ReconcileStage::Refresh => InputRequest::ActivateActionSet { action_set: self.cache.action_set },
            ReconcileStage::Role => InputRequest::ControllerRole,
            ReconcileStage::Query { source, action } => {
                let action_handle = match action {
                    DigitalAction::Trigger => self.cache.trigger_action,
                    DigitalAction::Grip => self.cache.grip_action,
                };
                let source = if source == 0 {
                    self.preferred_source
                } else {
                    ANY_INPUT_SOURCE
                };
                InputRequest::DigitalActionData { action, action_handle, source }
            },
            ReconcileStage::Finished => InputRequest::Finished,
        }
    }

    /// The status of activating the action set; a failure ends the
    /// reconciliation with the legacy flags kept.
    pub fn on_refreshed(&mut self, status: u32)
        requires
            old(self).wf(),
            old(self).stage == ReconcileStage::Refresh,
        ensures
            *final(self) == refreshed_spec(*old(self), status),
            final(self).wf(),
    {
        if status == 0 {
            self.stage = ReconcileStage::Role;
        } else {
            self.stage = ReconcileStage::Finished;
        }
    }

    /// The controller's hand role, `None` when the runtime cannot report it.
    pub fn on_role(&mut self, role: Option<u32>)
        requires
            old(self).wf(),
            old(self).stage == ReconcileStage::Role,
        ensures
            *final(self) == role_spec(*old(self), role),
            final(self).wf(),
    {
        let preferred = match role {
            Some(r) => if r == ROLE_LEFT_HAND {
                self.cache.left_hand_source
            } else if r == ROLE_RIGHT_HAND {
                self.cache.right_hand_source
            } else {
                ANY_INPUT_SOURCE
            },
            None => ANY_INPUT_SOURCE,
        };
        self.preferred_source = preferred;
        self.source_count = if preferred == ANY_INPUT_SOURCE {
            1
        } else {
            2
        };
        self.trigger = None;
        self.grip = None;
        self.stage = ReconcileStage::Query { source: 0, action: DigitalAction::Trigger };
    }

    /// The reading asked for by the last `DigitalActionData` request.
    pub fn on_digital(&mut self, reading: DigitalReading)
        requires
            old(self).wf(),
            old(self).stage is Query,
        ensures
            *final(self) == digital_spec(*old(self), reading),
            final(self).wf(),
    {
        if let ReconcileStage::Query { source, action } = self.stage {
            let resolved = reading.status == 0 && reading.active;
            if resolved {
                match action {
                    DigitalAction::Trigger => self.trigger = Some(reading.state),
                    DigitalAction::Grip => self.grip = Some(reading.state),
                }
            }
            let both = self.trigger.is_some() && self.grip.is_some();
            self.stage = match action {
                DigitalAction::Trigger if self.grip.is_none() => ReconcileStage::Query {
                    source,
                    action: DigitalAction::Grip,
                },
                _ => if both {
                    ReconcileStage::Finished
                } else if source + 1 < self.source_count {
                    ReconcileStage::Query {
                        source: source + 1,
                        action: if self.trigger.is_none() {
                            DigitalAction::Trigger
                        } else {
                            DigitalAction::Grip
                        },
                    }
                } else {
                    ReconcileStage::Finished
                },
            };
        }
    }

    /// The legacy snapshot with the resolved flags put in place.
    pub fn apply<A: Copy>(&self, base: ControllerState<A>) -> (r: ControllerState<A>)
        ensures
            r == reconciled(base, *self),
    {
        let mut out = base;
        if let Some(t) = self.trigger {
            out.trigger_pressed = t;
        }
        if let Some(g) = self.grip {
            out.grip_pressed = g;
        }
        out
    }
}

/// Without a configured and initialized action cache the reconciler asks
/// for nothing and the snapshot is exactly the legacy one.
pub proof fn lemma_unconfigured_keeps_legacy<A>(cache: Option<ActionCache>, base: ControllerState<A>)
    requires
        cache.is_none() || !cache.unwrap().initialized,
    ensures
        request_spec(start_spec(cache)) == InputRequest::Finished,
        reconciled(base, start_spec(cache)) == base,
{
}

/// With an initialized cache, a successful activation, and active trigger
/// and grip readings from the first source, the snapshot carries the
/// actions' states in its trigger and grip flags, every other field is the
/// legacy one, and no further query is made.
pub proof fn lemma_active_actions_override<A>(
    cache: ActionCache,
    role: Option<u32>,
    trigger_state: bool,
    grip_state: bool,
    base: ControllerState<A>,
)
    requires
        cache.initialized,
    ensures
        ({
            let s0 = start_spec(Some(cache));
            let s1 = refreshed_spec(s0, 0);
            let s2 = role_spec(s1, role);
            let s3 = digital_spec(s2, DigitalReading { status: 0, active: true, state: trigger_state });
            let s4 = digital_spec(s3, DigitalReading { status: 0, active: true, state: grip_state });
            &&& request_spec(s0) == InputRequest::ActivateActionSet { action_set: cache.action_set }
            &&& request_spec(s2) == InputRequest::DigitalActionData {
                action: DigitalAction::Trigger,
                action_handle: cache.trigger_action,
                source: preferred_source_spec(cache, role),
            }
            &&& request_spec(s3) == InputRequest::DigitalActionData {
                action: DigitalAction::Grip,
                action_handle: cache.grip_action,
                source: preferred_source_spec(cache, role),
            }
            &&& request_spec(s4) == InputRequest::Finished
            &&& reconciled(base, s4) == (ControllerState {
                trigger_pressed: trigger_state,
                grip_pressed: grip_state,
                ..base
            })
        }),
{
}

/// A failed activation ends the reconciliation with the legacy snapshot.
pub proof fn lemma_failed_refresh_keeps_legacy<A>(cache: ActionCache, status: u32, base: ControllerState<A>)
    requires
        cache.initialized,
        status != 0,
    ensures
        request_spec(refreshed_spec(start_spec(Some(cache)), status)) == InputRequest::Finished,
        reconciled(base, refreshed_spec(start_spec(Some(cache)), status)) == base,
{
}

} // verus!
