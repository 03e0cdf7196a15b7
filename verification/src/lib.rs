//! Core logic of a cooperative, single-threaded firmware main loop:
//! a bounded single-producer/single-consumer event queue fed from
//! interrupt context, a critical-section discipline for state shared
//! with interrupt handlers, a periodic timer toggle, translation of
//! hardware button transitions into renderer-facing input symbols, and
//! a bridge that turns per-row pixel spans into rectangular display
//! transport writes.
//!
//! Peripheral bring-up, the GUI engine and the concrete display
//! transport are external collaborators: the functions here make every
//! decision on plain values and hand the results back to the caller
//! that talks to the hardware.

pub mod bridge;
pub mod dispatch;
pub mod events;
pub mod interrupts;
pub mod queue;
