//! An adaptive, integer-only statistical controller that decides, on each
//! observation of a noisy external signal, whether the signal is currently
//! stable enough to authorize a reward emission, and re-calibrates its
//! notion of "stable" as the signal drifts.
//!
//! The controller is a pure, synchronous state-transition function: one
//! invocation reads the current state and one unsigned 64-bit sample, and
//! produces a new state plus a reward decision. The external collaborators
//! (entropy source, authorization, ledger, persistence) live outside this
//! crate and hand it plain values.

pub mod state;
pub mod flog;
pub mod ring;
pub mod stats;
pub mod median;
pub mod gate;
pub mod transition;
