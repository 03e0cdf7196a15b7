//! The main loop's per-iteration decisions.
//!
//! One iteration has two phases: first render (the bridge redraws if
//! the renderer reports dirty content), then drain at most one queued
//! event and forward its translation to the renderer. A single
//! decision follows each iteration: with animations pending the loop
//! iterates again immediately to keep a steady frame cadence;
//! otherwise it is free to enter a low-power wait until the next
//! interrupt.

use vstd::prelude::*;

use crate::events::AbstractInputSymbol;
use crate::events::spec_translate_event;
use crate::events::translate_event;
use crate::queue::BoundedEventQueue;

verus! {

/// The two phases of one loop iteration, in order.
#[derive(Clone, Copy, PartialEq, Eq, Structural, Debug)]
pub enum LoopPhase {
    Render,
    Drain,
}

/// What the loop does once an iteration is over.
#[derive(Clone, Copy, PartialEq, Eq, Structural, Debug)]
pub enum IdleDecision {
    SpinImmediately,
    LowPowerWait,
}

/// The two-phase machine: a render phase is followed by a drain
/// phase, and a drain phase starts the next iteration's render.
pub fn next_phase(phase: LoopPhase) -> (next: LoopPhase)
    ensures
        next == (match phase {
            LoopPhase::Render => LoopPhase::Drain,
            LoopPhase::Drain => LoopPhase::Render,
        }),
{
    match phase {
        LoopPhase::Render => LoopPhase::Drain,
        LoopPhase::Drain => LoopPhase::Render,
    }
}

/// Drains at most one event from the queue and translates it. `None`
/// comes back both when the queue was empty and when the drained
/// event came from the unsupported button, so the caller forwards a
/// symbol to the renderer exactly when one exists.
pub fn drain_one(q: &mut BoundedEventQueue) -> (sym: Option<AbstractInputSymbol>)
    requires
        old(q).wf(),
    ensures
        final(q).wf(),
        final(q).capacity() == old(q).capacity(),
        old(q)@.len() == 0 ==> sym is None && final(q)@ == old(q)@,
        old(q)@.len() > 0 ==> final(q)@ == old(q)@.drop_first() && sym == spec_translate_event(
            old(q)@[0],
        ),
{
    match q.pop() {
        Some(event) => translate_event(event),
        None => None,
    }
}

/// The loop's single decision point: animations pending means iterate
/// again immediately; otherwise the loop may idle until the next
/// button or timer interrupt.
pub fn idle_decision(animations_pending: bool) -> (d: IdleDecision)
    ensures
        d == (if animations_pending {
            IdleDecision::SpinImmediately
        } else {
            IdleDecision::LowPowerWait
        }),
{
    if animations_pending {
        IdleDecision::SpinImmediately
    } else {
        IdleDecision::LowPowerWait
    }
}

} // verus!
