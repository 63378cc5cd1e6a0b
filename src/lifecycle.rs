//! Process-wide reference count of the runtime connection.
//!
//! The first session to be constructed performs the real runtime
//! initialization and the last one to be destroyed performs the real
//! shutdown. The host keeps one `RuntimeRefCount` behind a process-wide lock
//! and calls these transitions while holding it.
use vstd::prelude::*;

use crate::error::{Capability, OverlayError};

verus! {

/// Whether constructing a session while `live` sessions exist performs the
/// real runtime initialization.
pub open spec fn construct_initializes(live: nat) -> bool {
    live == 0
}

/// Whether destroying a session while `live` sessions exist performs the
/// real runtime shutdown.
pub open spec fn destroy_shuts_down(live: nat) -> bool {
    live == 1
}

/// Count of live sessions in the process.
pub struct RuntimeRefCount {
    live: u64,
}

impl View for RuntimeRefCount {
    type V = nat;

    closed spec fn view(&self) -> nat {
        self.live as nat
    }
}

/// What the constructing session must do before resolving interfaces.
#[derive(Clone, Copy, Debug, PartialEq, Eq, Structural)]
pub enum AcquirePlan {
    /// No session is live: perform the real runtime initialization.
    InitializeRuntime,
    /// The runtime is already initialized by another live session.
    ReuseRuntime,
}

/// Outcome of the last step of constructing a session.
#[derive(Clone, Copy, Debug)]
pub struct AcquireOutcome {
    /// `Ok` when the session now counts as live.
    pub result: Result<(), OverlayError>,
    /// Whether the caller must undo the initialization it just performed.
    pub shutdown_runtime: bool,
}

impl RuntimeRefCount {
    pub fn new() -> (r: Self)
        ensures
            r@ == 0,
    {
        RuntimeRefCount { live: 0 }
    }

    /// Number of live sessions.
    pub fn live_sessions(&self) -> (r: u64)
        ensures
            r == self@,
    {
        self.live
    }

    /// First step of construction, taken under the process-wide lock:
    /// fails when no headset is present, and otherwise says whether the
    /// real initialization is due.
    pub fn plan_acquire(&self, hmd_present: bool) -> (r: Result<AcquirePlan, OverlayError>)
        ensures
            !hmd_present ==> r == Err::<AcquirePlan, OverlayError>(OverlayError::DeviceNotFound),
            hmd_present ==> r == Ok::<AcquirePlan, OverlayError>(
                if construct_initializes(self@) {
                    AcquirePlan::InitializeRuntime
                } else {
                    AcquirePlan::ReuseRuntime
                },
            ),
    {
        if !hmd_present {
            return Err(OverlayError::DeviceNotFound);
        }
        if self.live == 0 {
            Ok(AcquirePlan::InitializeRuntime)
        } else {
            Ok(AcquirePlan::ReuseRuntime)
        }
    }

    /// Last step of construction: counts the session as live when the
    /// mandatory overlay interface was obtained; otherwise leaves the count
    /// untouched and asks for a shutdown exactly when this construction
    /// performed the initialization.
    pub fn complete_acquire(&mut self, plan: AcquirePlan, overlay_found: bool) -> (r: AcquireOutcome)
        requires
            old(self)@ < u64::MAX,
            plan == AcquirePlan::InitializeRuntime ==> old(self)@ == 0,
        ensures
            overlay_found ==> final(self)@ == old(self)@ + 1,
            !overlay_found ==> final(self)@ == old(self)@,
            r.result == (if overlay_found {
                Ok::<(), OverlayError>(())
            } else {
                Err(OverlayError::InterfaceUnavailable(Capability::Overlay))
            }),
            r.shutdown_runtime == (!overlay_found && plan == AcquirePlan::InitializeRuntime),
    {
        if overlay_found {
            self.live = self.live + 1;
            AcquireOutcome { result: Ok(()), shutdown_runtime: false }
        } else {
            let shutdown = match plan {
                AcquirePlan::InitializeRuntime => true,
                AcquirePlan::ReuseRuntime => false,
            };
            AcquireOutcome {
                result: Err(OverlayError::InterfaceUnavailable(Capability::Overlay)),
                shutdown_runtime: shutdown,
            }
        }
    }

    /// Destroys one live session; the result says whether the real runtime
    /// shutdown is due. Destroying with no live session is a programming
    /// error that callers must rule out.
    pub fn release(&mut self) -> (shutdown: bool)
        requires
            old(self)@ > 0,
        ensures
            final(self)@ == old(self)@ - 1,
            shutdown == destroy_shuts_down(old(self)@),
    {
        let shutdown = self.live == 1;
        self.live = self.live - 1;
        shutdown
    }
}

/// Maps the status of the real runtime initialization: anything but
/// success aborts construction.
pub fn check_initialize(status: u32) -> (r: Result<(), OverlayError>)
    ensures
        status == 0 ==> r == Ok::<(), OverlayError>(()),
        status != 0 ==> r == Err::<(), OverlayError>(OverlayError::RuntimeInitFailed(status)),
{
    if status == 0 {
        Ok(())
    } else {
        Err(OverlayError::RuntimeInitFailed(status))
    }
}

/// A successful construction or a destruction of a session.
pub enum SessionEvent {
    Construct,
    Destroy,
}

/// Live sessions together with the real initialize and shutdown calls made
/// so far.
pub struct RuntimeTally {
    pub live: nat,
    pub initializations: nat,
    pub shutdowns: nat,
}

pub open spec fn tally_step(t: RuntimeTally, e: SessionEvent) -> RuntimeTally {
    match e {
        SessionEvent::Construct => RuntimeTally {
            live: t.live + 1,
            initializations: t.initializations + if construct_initializes(t.live) { 1nat } else { 0nat },
            shutdowns: t.shutdowns,
        },
        SessionEvent::Destroy => RuntimeTally {
            live: (t.live - 1) as nat,
            initializations: t.initializations,
            shutdowns: t.shutdowns + if destroy_shuts_down(t.live) { 1nat } else { 0nat },
        },
    }
}

/// The tally after the events, applied in order.
pub open spec fn replay(t: RuntimeTally, events: Seq<SessionEvent>) -> RuntimeTally
    decreases events.len(),
{
    if events.len() == 0 {
        t
    } else {
        replay(tally_step(t, events[0]), events.drop_first())
    }
}

pub open spec fn repeat_event(e: SessionEvent, n: nat) -> Seq<SessionEvent> {
    Seq::new(n, |i: int| e)
}

pub open spec fn idle_tally() -> RuntimeTally {
    RuntimeTally { live: 0, initializations: 0, shutdowns: 0 }
}

proof fn lemma_replay_append(t: RuntimeTally, a: Seq<SessionEvent>, b: Seq<SessionEvent>)
    ensures
        replay(t, a + b) == replay(replay(t, a), b),
    decreases a.len(),
{
    if a.len() == 0 {
        assert(a + b =~= b);
    } else {
        assert((a + b).drop_first() =~= a.drop_first() + b);
        assert((a + b)[0] == a[0]);
        lemma_replay_append(tally_step(t, a[0]), a.drop_first(), b);
    }
}

proof fn lemma_replay_constructs(t: RuntimeTally, n: nat)
    requires
        t.live > 0,
    ensures
        replay(t, repeat_event(SessionEvent::Construct, n)) == (RuntimeTally {
            live: t.live + n,
            initializations: t.initializations,
            shutdowns: t.shutdowns,
        }),
    decreases n,
{
    let s = repeat_event(SessionEvent::Construct, n);
    if n > 0 {
        assert(s.drop_first() =~= repeat_event(SessionEvent::Construct, (n - 1) as nat));
        lemma_replay_constructs(tally_step(t, s[0]), (n - 1) as nat);
    } else {
        assert(s.len() == 0);
    }
}

proof fn lemma_replay_destroys(t: RuntimeTally, n: nat)
    requires
        t.live == n,
        n > 0,
    ensures
        replay(t, repeat_event(SessionEvent::Destroy, n)) == (RuntimeTally {
            live: 0,
            initializations: t.initializations,
            shutdowns: t.shutdowns + 1,
        }),
    decreases n,
{
    let s = repeat_event(SessionEvent::Destroy, n);
    let next = tally_step(t, s[0]);
    assert(s.drop_first() =~= repeat_event(SessionEvent::Destroy, (n - 1) as nat));
    assert(replay(t, s) == replay(next, s.drop_first()));
    if n > 1 {
        lemma_replay_destroys(next, (n - 1) as nat);
    } else {
        assert(replay(next, s.drop_first()) == next);
    }
}

/// Constructing `n` sessions from an idle process and then destroying all
/// of them makes exactly one real initialize call and exactly one real
/// shutdown call, whatever `n` is. Sessions are interchangeable for the
/// count, so the order of the destructions does not matter.
pub proof fn lemma_one_initialize_one_shutdown(n: nat)
    requires
        n > 0,
    ensures
        replay(
            idle_tally(),
            repeat_event(SessionEvent::Construct, n) + repeat_event(SessionEvent::Destroy, n),
        ) == (RuntimeTally { live: 0, initializations: 1, shutdowns: 1 }),
{
    let cs = repeat_event(SessionEvent::Construct, n);
    let ds = repeat_event(SessionEvent::Destroy, n);
    lemma_replay_append(idle_tally(), cs, ds);
    let first = tally_step(idle_tally(), cs[0]);
    assert(cs.drop_first() =~= repeat_event(SessionEvent::Construct, (n - 1) as nat));
    lemma_replay_constructs(first, (n - 1) as nat);
    lemma_replay_destroys(replay(idle_tally(), cs), n);
}

/// No event destroys a session while none is live.
pub open spec fn well_formed(t: RuntimeTally, events: Seq<SessionEvent>) -> bool
    decreases events.len(),
{
    if events.len() == 0 {
        true
    } else {
        (events[0] is Destroy ==> t.live > 0) && well_formed(tally_step(t, events[0]), events.drop_first())
    }
}

/// Real initialize calls exceed real shutdown calls by one while a session
/// is live, and equal them otherwise.
pub open spec fn balanced(t: RuntimeTally) -> bool {
    t.initializations == t.shutdowns + if t.live > 0 { 1nat } else { 0nat }
}

/// Whatever the interleaving of constructions and destructions, the real
/// initialize and shutdown calls stay balanced: the runtime is initialized
/// exactly while some session is live.
pub proof fn lemma_calls_stay_balanced(t: RuntimeTally, events: Seq<SessionEvent>)
    requires
        balanced(t),
        well_formed(t, events),
    ensures
        balanced(replay(t, events)),
    decreases events.len(),
{
    if events.len() > 0 {
        lemma_calls_stay_balanced(tally_step(t, events[0]), events.drop_first());
    }
}

} // verus!
