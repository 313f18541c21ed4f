//! Timing and retry limits shared across the simulator.

use vstd::prelude::*;

verus! {

/// Smallest interval, in milliseconds, between two Click-mode cycles.
pub const MIN_INTERVAL_MS: u64 = 10;

/// Largest interval, in milliseconds, between two Click-mode cycles.
pub const MAX_INTERVAL_MS: u64 = 5000;

/// Interval used when no configuration has been loaded.
pub const DEFAULT_INTERVAL_MS: u64 = 100;

/// Settle delay before Hold mode presses its keys.
pub const SIMULATION_HOLD_DELAY_MS: u64 = 50;

/// Attempts granted to one low-level event write.
pub const MAX_RETRIES: u32 = 3;

/// Delay between two attempts of one event write.
pub const RETRY_DELAY_MS: u64 = 5;

/// Attempts granted to virtual-device creation.
pub const MAX_DEVICE_INIT_RETRIES: u32 = 3;

/// Delay between two device-creation attempts.
pub const DEVICE_INIT_RETRY_DELAY_MS: u64 = 100;

/// Cadence of the global hotkey poller.
pub const LISTENER_SLEEP_MS: u64 = 10;

/// Minimum spacing between two warnings of one listener failure category.
pub const LOG_THROTTLE_MS: u64 = 1000;

} // verus!
