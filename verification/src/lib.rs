//! Input-event simulation engine with a global hotkey listener.
//!
//! The crate models keyboard/mouse emulation as pure, verified logic: key-name
//! normalization and translation, hotkey matching with edge-triggered
//! activation, bounded-retry policies, event-batch serialization, and the
//! press/release state machine of the simulation engine. The device and
//! polling I/O that carries these decisions out lives outside the library.

pub mod config;
pub mod constants;
pub mod control;
pub mod device;
pub mod error;
pub mod hotkey;
pub mod keymap;
pub mod norm;
pub mod retry;
pub mod simulator;
pub mod text;
pub mod writer;

use vstd::prelude::*;

verus! {

/// Clamps an interval in milliseconds to the accepted range.
pub open spec fn clamp_interval_spec(ms: u64) -> u64 {
    if ms < constants::MIN_INTERVAL_MS {
        constants::MIN_INTERVAL_MS
    } else if ms > constants::MAX_INTERVAL_MS {
        constants::MAX_INTERVAL_MS
    } else {
        ms
    }
}

/// Every interval is clamped to [`constants::MIN_INTERVAL_MS`,
/// `constants::MAX_INTERVAL_MS`] before the engine sleeps on it.
pub fn clamp_interval(ms: u64) -> (r: u64)
    ensures
        r == clamp_interval_spec(ms),
{
    if ms < constants::MIN_INTERVAL_MS {
        constants::MIN_INTERVAL_MS
    } else if ms > constants::MAX_INTERVAL_MS {
        constants::MAX_INTERVAL_MS
    } else {
        ms
    }
}

/// Within the accepted range, clamping changes nothing: a Click-mode cycle
/// sleeps exactly the interval value observed at its sleep point.
pub proof fn lemma_clamp_interval_identity(ms: u64)
    requires
        constants::MIN_INTERVAL_MS <= ms <= constants::MAX_INTERVAL_MS,
    ensures
        clamp_interval_spec(ms) == ms,
{
}

} // verus!
