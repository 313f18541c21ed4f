//! Failures the simulator surfaces to its caller.

use vstd::prelude::*;

verus! {

/// A run-fatal simulator failure: an event write, or the creation of the
/// virtual device, exhausted its retries.
#[derive(Debug, Clone, Copy, PartialEq, Eq, Structural)]
pub enum SimulatorError {
    KeySimulation,
    DeviceInitialization,
}

} // verus!
