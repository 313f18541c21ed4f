//! The virtual device manager: what a device run exposes, and its creation
//! retry discipline.
//!
//! Creating the OS-visible device is outside work; the library fixes the
//! capability list the device must be created with, and the bounded-retry
//! rule under which creation is attempted.

use vstd::prelude::*;

verus! {

use crate::constants::MAX_DEVICE_INIT_RETRIES;
use crate::error::SimulatorError;
use crate::keymap::Key;
use crate::retry::{device_retry_policy, run_retry, spec_attempt_ok};

/// One capability the virtual device is created with.
#[derive(Debug, Clone, Copy, PartialEq, Eq, Structural)]
pub enum Capability {
    /// A key or button code the device may emit.
    KeyCap(Key),
    /// Relative motion along the horizontal axis.
    RelX,
    /// Relative motion along the vertical axis.
    RelY,
}

/// The fixed, always-enabled baseline: the three mouse buttons and the two
/// relative-motion axes.
pub open spec fn spec_baseline_capabilities() -> Seq<Capability> {
    seq![
        Capability::KeyCap(Key::BtnLeft),
        Capability::KeyCap(Key::BtnRight),
        Capability::KeyCap(Key::BtnMiddle),
        Capability::RelX,
        Capability::RelY,
    ]
}

/// The capabilities a device is created with: the baseline, then one key
/// capability per selected key, in order.
pub open spec fn spec_device_capabilities(keys: Seq<Key>) -> Seq<Capability> {
    spec_baseline_capabilities() + keys.map_values(|k: Key| Capability::KeyCap(k))
}

/// Builds the capability list for a device exposing the given keys: the
/// mouse baseline is always enabled, and every selected key after it.
pub fn device_capability_plan(keys: &Vec<Key>) -> (r: Vec<Capability>)
    ensures
        r@ == spec_device_capabilities(keys@),
{
    let mut r: Vec<Capability> = Vec::new();
    r.push(Capability::KeyCap(Key::BtnLeft));
    r.push(Capability::KeyCap(Key::BtnRight));
    r.push(Capability::KeyCap(Key::BtnMiddle));
    r.push(Capability::RelX);
    r.push(Capability::RelY);
    let mut i: usize = 0;
    while i < keys.len()
        invariant
            i <= keys@.len(),
            r@.len() == 5 + i,
            r@.subrange(0, 5) == spec_baseline_capabilities(),
            forall|j: int| 0 <= j < i ==> r@[5 + j] == Capability::KeyCap(keys@[j]),
        decreases keys@.len() - i,
    {
        r.push(Capability::KeyCap(keys[i]));
        i = i + 1;
    }
    proof {
        assert(r@ =~= spec_device_capabilities(keys@));
    }
    r
}

/// Runs the device-creation retry discipline against recorded per-attempt
/// outcomes: creation is attempted up to [`MAX_DEVICE_INIT_RETRIES`] times,
/// and only when every attempt fails does the run fail, with a
/// device-initialization error.
pub fn setup_device_with_retry(outcomes: &Vec<bool>) -> (r: Result<(), SimulatorError>)
    ensures
        r is Ok <==> (exists|i: int|
            0 <= i < MAX_DEVICE_INIT_RETRIES && spec_attempt_ok(outcomes@, i)),
        r is Err ==> r == Err::<(), SimulatorError>(SimulatorError::DeviceInitialization),
{
    let policy = device_retry_policy();
    let outcome = run_retry(&policy, outcomes);
    if outcome.success {
        Ok(())
    } else {
        Err(SimulatorError::DeviceInitialization)
    }
}

} // verus!
