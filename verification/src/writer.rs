//! The event writer: key state transitions serialized into device events.
//!
//! A batch writes one state event per key, in the caller's order, and then
//! exactly one trailing sync event, whatever the batch size. Each low-level
//! write gets a bounded number of attempts; if one event exhausts them, the
//! whole batch fails and nothing further is written.
//!
//! The writer here runs against a recorded script of attempt outcomes, the
//! same discipline the device-facing driver follows: entry `i` of the script
//! says whether low-level write attempt `i` is accepted.

use vstd::prelude::*;

verus! {

use crate::constants::MAX_RETRIES;
use crate::error::SimulatorError;
use crate::keymap::Key;
use crate::retry::spec_attempt_ok;

/// One low-level event of the virtual device.
#[derive(Debug, Clone, Copy, PartialEq, Eq, Structural)]
pub enum DeviceEvent {
    /// A key changed state: pressed when `pressed`, released otherwise.
    KeyState { key: Key, pressed: bool },
    /// The marker after which a batch of state changes is observed.
    Sync,
}

/// One press or release batch: the keys to write, in order, and the state to
/// write them in.
#[derive(Debug)]
pub struct EventBatch {
    pub keys: Vec<Key>,
    pub press: bool,
}

/// The events a batch serializes to: one state event per key, then one sync.
pub open spec fn spec_batch_events(keys: Seq<Key>, press: bool) -> Seq<DeviceEvent> {
    Seq::new(keys.len(), |i: int| DeviceEvent::KeyState { key: keys[i], pressed: press }).push(
        DeviceEvent::Sync,
    )
}

/// Serializes a batch: one state event per key in the given order, then
/// exactly one sync event, also for an empty batch.
pub fn batch_event_sequence(batch: &EventBatch) -> (r: Vec<DeviceEvent>)
    ensures
        r@ == spec_batch_events(batch.keys@, batch.press),
{
    let mut r: Vec<DeviceEvent> = Vec::new();
    let mut i: usize = 0;
    while i < batch.keys.len()
        invariant
            i <= batch.keys@.len(),
            r@.len() == i,
            forall|j: int|
                0 <= j < i ==> r@[j] == (DeviceEvent::KeyState {
                    key: batch.keys@[j],
                    pressed: batch.press,
                }),
        decreases batch.keys@.len() - i,
    {
        r.push(DeviceEvent::KeyState { key: batch.keys[i], pressed: batch.press });
        i = i + 1;
    }
    r.push(DeviceEvent::Sync);
    proof {
        assert(r@ =~= spec_batch_events(batch.keys@, batch.press));
    }
    r
}

/// One event write with retries, starting at script position `pos`, succeeds
/// within `max` attempts.
pub open spec fn spec_retry_ok(o: Seq<bool>, pos: int, max: int) -> bool
    decreases max,
{
    if max <= 0 {
        false
    } else if spec_attempt_ok(o, pos) {
        true
    } else {
        spec_retry_ok(o, pos + 1, max - 1)
    }
}

/// How many attempts one event write with retries consumes.
pub open spec fn spec_retry_used(o: Seq<bool>, pos: int, max: int) -> int
    decreases max,
{
    if max <= 0 {
        0
    } else if spec_attempt_ok(o, pos) {
        1
    } else {
        1 + spec_retry_used(o, pos + 1, max - 1)
    }
}

/// A run of failed attempts shifts the retry window.
proof fn lemma_retry_shift(o: Seq<bool>, pos: int, max: int, k: int)
    requires
        0 <= k <= max,
        forall|j: int| pos <= j < pos + k ==> !spec_attempt_ok(o, j),
    ensures
        spec_retry_ok(o, pos, max) == spec_retry_ok(o, pos + k, max - k),
        spec_retry_used(o, pos, max) == k + spec_retry_used(o, pos + k, max - k),
    decreases k,
{
    if k > 0 {
        assert(!spec_attempt_ok(o, pos));
        lemma_retry_shift(o, pos + 1, max - 1, k - 1);
    }
}

/// The retry budget bounds what one event write consumes.
proof fn lemma_retry_used_bounds(o: Seq<bool>, pos: int, max: int)
    requires
        max >= 0,
    ensures
        0 <= spec_retry_used(o, pos, max) <= max,
    decreases max,
{
    if max > 0 && !spec_attempt_ok(o, pos) {
        lemma_retry_used_bounds(o, pos + 1, max - 1);
    }
}

/// A whole batch of `n_events` writes, starting at `pos`, succeeds.
pub open spec fn spec_batch_ok(o: Seq<bool>, pos: int, n_events: int, max: int) -> bool
    decreases n_events,
{
    if n_events <= 0 {
        true
    } else if !spec_retry_ok(o, pos, max) {
        false
    } else {
        spec_batch_ok(o, pos + spec_retry_used(o, pos, max), n_events - 1, max)
    }
}

/// The script position after a whole batch of `n_events` writes.
pub open spec fn spec_batch_pos(o: Seq<bool>, pos: int, n_events: int, max: int) -> int
    decreases n_events,
{
    if n_events <= 0 {
        pos
    } else if !spec_retry_ok(o, pos, max) {
        pos + spec_retry_used(o, pos, max)
    } else {
        spec_batch_pos(o, pos + spec_retry_used(o, pos, max), n_events - 1, max)
    }
}

/// How many of a batch's events are actually written: all of them up to the
/// first event whose retries are exhausted.
pub open spec fn spec_batch_written(o: Seq<bool>, pos: int, n_events: int, max: int) -> int
    decreases n_events,
{
    if n_events <= 0 {
        0
    } else if !spec_retry_ok(o, pos, max) {
        0
    } else {
        1 + spec_batch_written(o, pos + spec_retry_used(o, pos, max), n_events - 1, max)
    }
}

/// An event writer bound to a script of attempt outcomes. `written` records
/// the events the device accepted, in order.
#[derive(Debug)]
pub struct ScriptedWriter {
    pub outcomes: Vec<bool>,
    pub pos: usize,
    pub written: Vec<DeviceEvent>,
}

impl ScriptedWriter {
    /// A writer at the start of its script, with nothing written.
    pub fn new(outcomes: Vec<bool>) -> (r: ScriptedWriter)
        ensures
            r.outcomes == outcomes,
            r.pos == 0,
            r.written@.len() == 0,
    {
        ScriptedWriter { outcomes, pos: 0, written: Vec::new() }
    }

    /// Writes one event, retrying up to [`MAX_RETRIES`] times in all; the
    /// event reaches the device exactly when one attempt is accepted.
    pub fn write_event_with_retry(&mut self, ev: DeviceEvent) -> (r: Result<(), SimulatorError>)
        requires
            old(self).pos as int + MAX_RETRIES as int <= usize::MAX as int,
        ensures
            final(self).outcomes == old(self).outcomes,
            final(self).pos as int == old(self).pos as int + spec_retry_used(
                old(self).outcomes@,
                old(self).pos as int,
                MAX_RETRIES as int,
            ),
            r is Ok <==> spec_retry_ok(
                old(self).outcomes@,
                old(self).pos as int,
                MAX_RETRIES as int,
            ),
            r is Ok ==> final(self).written@ == old(self).written@.push(ev),
            r is Err ==> final(self).written@ == old(self).written@ && r == Err::<
                (),
                SimulatorError,
            >(SimulatorError::KeySimulation),
    {
        let ghost o = self.outcomes@;
        let ghost pos0 = self.pos as int;
        let max = MAX_RETRIES;
        let mut attempt: u32 = 0;
        while attempt < max
            invariant
                o == self.outcomes@,
                pos0 == self.pos as int,
                pos0 == old(self).pos as int,
                pos0 + max as int <= usize::MAX as int,
                max == MAX_RETRIES,
                attempt <= max,
                forall|j: int| pos0 <= j < pos0 + attempt ==> !spec_attempt_ok(o, j),
                self.written == old(self).written,
                self.outcomes == old(self).outcomes,
            decreases max - attempt,
        {
            let idx = self.pos + attempt as usize;
            let ok = idx < self.outcomes.len() && self.outcomes[idx];
            if ok {
                proof {
                    lemma_retry_shift(o, pos0, max as int, attempt as int);
                    assert(spec_retry_ok(o, pos0 + attempt as int, max as int - attempt as int));
                    assert(spec_retry_used(o, pos0 + attempt as int, max as int - attempt as int)
                        == 1);
                }
                self.pos = idx + 1;
                self.written.push(ev);
                return Ok(());
            }
            attempt = attempt + 1;
        }
        proof {
            lemma_retry_shift(o, pos0, max as int, max as int);
            assert(!spec_retry_ok(o, pos0, max as int));
            assert(spec_retry_used(o, pos0, max as int) == max as int);
        }
        self.pos = self.pos + max as usize;
        Err(SimulatorError::KeySimulation)
    }

    /// Writes one batch: a state event per key in the caller's order, then
    /// one sync event. If any event exhausts its retries, the batch stops
    /// there and fails as a whole.
    pub fn write_key_events(&mut self, keys: &Vec<Key>, press: bool) -> (r: Result<
        (),
        SimulatorError,
    >)
        requires
            old(self).pos as int + MAX_RETRIES as int * (keys@.len() + 1) <= usize::MAX as int,
        ensures
            final(self).outcomes == old(self).outcomes,
            ({
                let o = old(self).outcomes@;
                let pos0 = old(self).pos as int;
                let n = keys@.len() as int + 1;
                let max = MAX_RETRIES as int;
                let evs = spec_batch_events(keys@, press);
                &&& (r is Ok <==> spec_batch_ok(o, pos0, n, max))
                &&& final(self).pos as int == spec_batch_pos(o, pos0, n, max)
                &&& final(self).written@ == old(self).written@ + evs.take(
                    spec_batch_written(o, pos0, n, max),
                )
                &&& (r is Ok ==> final(self).written@ == old(self).written@ + evs)
                &&& (r is Err ==> r == Err::<(), SimulatorError>(SimulatorError::KeySimulation))
            }),
    {
        let ghost o = self.outcomes@;
        let ghost pos0 = self.pos as int;
        let ghost n: int = keys@.len() as int + 1;
        let ghost max: int = MAX_RETRIES as int;
        let ghost evs = spec_batch_events(keys@, press);
        let ghost w0 = self.written@;
        let mut i: usize = 0;
        while i < keys.len()
            invariant
                o == self.outcomes@,
                self.outcomes == old(self).outcomes,
                pos0 == old(self).pos as int,
                n == keys@.len() + 1,
                max == MAX_RETRIES as int,
                evs == spec_batch_events(keys@, press),
                w0 == old(self).written@,
                i <= keys@.len(),
                self.pos as int + max * (n - i) <= usize::MAX as int,
                spec_batch_ok(o, pos0, n, max) == spec_batch_ok(o, self.pos as int, n - i, max),
                spec_batch_pos(o, pos0, n, max) == spec_batch_pos(o, self.pos as int, n - i, max),
                spec_batch_written(o, pos0, n, max) == i + spec_batch_written(
                    o,
                    self.pos as int,
                    n - i,
                    max,
                ),
                self.written@ == w0 + evs.take(i as int),
            decreases keys@.len() - i,
        {
            let ghost pos_i = self.pos as int;
            let ev = DeviceEvent::KeyState { key: keys[i], pressed: press };
            proof {
                lemma_retry_used_bounds(o, pos_i, max);
            }
            let res = self.write_event_with_retry(ev);
            if res.is_err() {
                proof {
                    assert(!spec_retry_ok(o, pos_i, max));
                    assert(!spec_batch_ok(o, pos_i, n - i, max));
                    assert(spec_batch_pos(o, pos_i, n - i, max) == pos_i + spec_retry_used(
                        o,
                        pos_i,
                        max,
                    ));
                    assert(spec_batch_written(o, pos_i, n - i, max) == 0);
                }
                return Err(SimulatorError::KeySimulation);
            }
            i = i + 1;
            proof {
                assert(spec_retry_ok(o, pos_i, max));
                assert(spec_batch_ok(o, pos_i, n - (i - 1), max) == spec_batch_ok(
                    o,
                    self.pos as int,
                    n - i,
                    max,
                ));
                assert(evs[i - 1] == ev);
                assert(self.written@ =~= w0 + evs.take(i as int));
            }
        }
        let ghost pos_s = self.pos as int;
        proof {
            lemma_retry_used_bounds(o, pos_s, max);
        }
        let res = self.write_event_with_retry(DeviceEvent::Sync);
        match res {
            Ok(()) => {
                proof {
                    assert(spec_retry_ok(o, pos_s, max));
                    assert(spec_batch_ok(o, pos_s, 1, max) == spec_batch_ok(
                        o,
                        self.pos as int,
                        0,
                        max,
                    ));
                    assert(spec_batch_pos(o, self.pos as int, 0, max) == self.pos as int);
                    assert(spec_batch_pos(o, pos_s, 1, max) == self.pos as int);
                    assert(spec_batch_written(o, self.pos as int, 0, max) == 0);
                    assert(spec_batch_written(o, pos_s, 1, max) == 1);
                    assert(evs[n - 1] == DeviceEvent::Sync);
                    assert(self.written@ =~= w0 + evs.take(n));
                    assert(evs.take(n) =~= evs);
                }
                Ok(())
            },
            Err(_) => {
                proof {
                    assert(!spec_retry_ok(o, pos_s, max));
                    assert(!spec_batch_ok(o, pos_s, 1, max));
                    assert(spec_batch_pos(o, pos_s, 1, max) == pos_s + spec_retry_used(
                        o,
                        pos_s,
                        max,
                    ));
                    assert(spec_batch_written(o, pos_s, 1, max) == 0);
                }
                Err(SimulatorError::KeySimulation)
            },
        }
    }
}

} // verus!
