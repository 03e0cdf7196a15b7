//! Critical-section discipline for state shared with interrupt
//! handlers, the button interrupt producer, and the periodic timer
//! toggle.
//!
//! The processor's maskable-interrupt enable state is modelled as a
//! plain value handed in by the caller that owns the hardware; the
//! functions here make the bookkeeping decisions and guarantee that
//! the prior enable state is restored on every exit path.

use vstd::prelude::*;

use crate::events::ButtonIdentity;
use crate::events::InputEvent;
use crate::events::Transition;
use crate::queue::BoundedEventQueue;
use crate::queue::spec_push;

verus! {

/// The processor's maskable-interrupt enable state.
#[derive(Clone, Copy, PartialEq, Eq, Structural, Debug)]
pub struct InterruptStatus {
    pub enabled: bool,
}

/// A scoped critical section. Entering disables maskable interrupts
/// and records the prior enable state; leaving consumes the guard and
/// restores exactly that state, so nesting inside a handler that
/// already runs with interrupts disabled leaves them disabled.
pub struct CriticalSectionGuard {
    saved: bool,
}

impl CriticalSectionGuard {
    /// The interrupt-enable state that was current when the guard was
    /// taken.
    pub closed spec fn saved_state(&self) -> bool {
        self.saved
    }

    /// Disables maskable interrupts for the scope of the returned
    /// guard, remembering the prior enable state.
    pub fn enter(status: &mut InterruptStatus) -> (guard: CriticalSectionGuard)
        ensures
            !final(status).enabled,
            guard.saved_state() == old(status).enabled,
    {
        let saved = status.enabled;
        status.enabled = false;
        CriticalSectionGuard { saved }
    }

    /// Restores the interrupt-enable state recorded at entry. Taking
    /// the guard by value makes every exit path restore exactly once.
    pub fn exit(self, status: &mut InterruptStatus)
        ensures
            final(status).enabled == self.saved_state(),
    {
        status.enabled = self.saved;
    }
}

/// The button interrupt handler's work: build the event record for
/// the edge the hardware reported and push it under a critical
/// section. The push never blocks; when the queue is full the event
/// is dropped silently and `false` comes back. The prior
/// interrupt-enable state is restored before returning.
pub fn produce_button_event(
    q: &mut BoundedEventQueue,
    status: &mut InterruptStatus,
    source: ButtonIdentity,
    transition: Transition,
) -> (stored: bool)
    requires
        old(q).wf(),
    ensures
        final(q).wf(),
        final(q).capacity() == old(q).capacity(),
        final(q)@ == spec_push(
            old(q)@,
            old(q).capacity(),
            (InputEvent { source, transition }),
        ),
        stored == (old(q)@.len() < old(q).capacity()),
        final(status).enabled == old(status).enabled,
{
    let guard = CriticalSectionGuard::enter(status);
    let event = InputEvent { source, transition };
    let stored = q.push(event);
    guard.exit(status);
    stored
}

/// The toggle state republished by the periodic timer: initialized at
/// startup, flipped on every tick, read by the main loop or mirrored
/// to an indicator.
pub struct TimerTickState {
    on: bool,
}

impl TimerTickState {
    /// Whether the toggle currently reads as on.
    pub closed spec fn spec_on(&self) -> bool {
        self.on
    }

    /// A toggle starting in the given state.
    pub fn new(initial_on: bool) -> (t: Self)
        ensures
            t.spec_on() == initial_on,
    {
        TimerTickState { on: initial_on }
    }

    /// Reads the toggle.
    pub fn is_on(&self) -> (b: bool)
        ensures
            b == self.spec_on(),
    {
        self.on
    }
}

/// The periodic timer handler's work once the caller has cleared the
/// hardware's pending-interrupt condition: flip the shared toggle
/// under a critical section and hand the new state back, so the
/// caller can mirror it to an indicator or a renderer setter. The
/// prior interrupt-enable state is restored before returning.
pub fn on_timer_tick(state: &mut TimerTickState, status: &mut InterruptStatus) -> (now_on: bool)
    ensures
        final(state).spec_on() == !old(state).spec_on(),
        now_on == final(state).spec_on(),
        final(status).enabled == old(status).enabled,
{
    let guard = CriticalSectionGuard::enter(status);
    state.on = !state.on;
    let now_on = state.on;
    guard.exit(status);
    now_on
}

} // verus!
