//! The simulation engine: one run from toggle-on to toggle-off.
//!
//! The engine is a state machine. A driver repeatedly asks it for the next
//! action — create the device, write a batch, sleep, or stop — performs the
//! action, and reports back whether the I/O succeeded. All decisions stand
//! here: the driver carries actions out and owns no policy.
//!
//! Per invocation the engine snapshots the key set and the behavior modes.
//! The running flag and the interval are read fresh at every step, so a stop
//! request is observed at the top of the following cycle, and each cycle
//! sleeps for the interval value observed at its own sleep point.

use vstd::prelude::*;

verus! {

use crate::clamp_interval;
use crate::clamp_interval_spec;
use crate::config::{AppData, HoldBehaviorMode, KeyBehaviorMode, ModifierBehaviorMode};
use crate::constants::SIMULATION_HOLD_DELAY_MS;
use crate::error::SimulatorError;
use crate::keymap::{is_modifier_evcode, spec_is_modifier, spec_raw_key_to_device_keycode, Key};
use crate::keymap::raw_key_to_device_keycode;
use crate::writer::EventBatch;

/// What the driver is asked to do next.
#[derive(Debug)]
pub enum SimAction {
    /// Create the virtual device, with its creation retries.
    CreateDevice,
    /// Write one batch: its key events, then one sync.
    WriteBatch(EventBatch),
    /// Sleep for the given milliseconds.
    Sleep(u64),
    /// The run is over; release nothing further.
    Done,
    /// The run aborted on the recorded failure.
    Fail(SimulatorError),
}

/// Where the engine stands between two actions.
#[derive(Debug, Clone, Copy, PartialEq, Eq, Structural)]
pub enum Phase {
    /// Nothing issued yet; the device is created next.
    Create,
    /// The device was requested; the initial sync is written next.
    Sync0,
    /// Hold mode: the settle delay runs next.
    Settle,
    /// Hold mode: all keys are pressed next.
    PressAll,
    /// Hold mode: a heartbeat sync, or the final release, is written next.
    Beat,
    /// Hold mode, Cycle heartbeats: the pause between two beats.
    HoldPause,
    /// Hold mode: the release was written; the run finishes next.
    Leaving,
    /// Click mode: the top of a cycle, where the running flag is read.
    CycleTop,
    /// Click mode: batch `next` of the current cycle is written next, or the
    /// cycle's sleep when all batches are out.
    Emit { next: usize },
    /// The run ended by the running flag.
    Finished,
    /// The run aborted: an I/O action failed.
    Broken { err: SimulatorError },
}

/// A spec-level description of an action, for contracts.
pub enum ActionView {
    Create,
    Batch { keys: Seq<Key>, press: bool },
    Pause { ms: u64 },
    Finish,
    Abort { err: SimulatorError },
}

/// The returned action carries the described keys and values.
pub open spec fn action_matches(a: SimAction, v: ActionView) -> bool {
    match a {
        SimAction::CreateDevice => v == ActionView::Create,
        SimAction::WriteBatch(b) => v matches ActionView::Batch { keys, press } && b.keys@ == keys
            && b.press == press,
        SimAction::Sleep(ms) => v matches ActionView::Pause { ms: m } && m == ms,
        SimAction::Done => v == ActionView::Finish,
        SimAction::Fail(e) => v matches ActionView::Abort { err } && err == e,
    }
}

/// One engine run: the snapshots taken at start, and the current phase.
#[derive(Debug)]
pub struct Engine {
    pub mode: KeyBehaviorMode,
    pub modifier_behavior: ModifierBehaviorMode,
    pub hold_behavior: HoldBehaviorMode,
    /// The key set snapshot, in the caller's order.
    pub keys: Vec<Key>,
    /// The pulse order of Click mode with clicked modifiers: the modifier
    /// keys first, then the others, both in the caller's order.
    pub ordered: Vec<Key>,
    pub phase: Phase,
}

impl Engine {
    /// The engine's internal consistency.
    pub open spec fn wf(&self) -> bool {
        &&& self.keys@.len() > 0
        &&& 2 * self.keys@.len() <= usize::MAX as int
        &&& self.ordered@ == self.keys@.filter(spec_mod_pred()) + self.keys@.filter(
            spec_nonmod_pred(),
        )
        &&& (self.phase matches Phase::Emit { next } ==> 1 <= next as int <= self.spec_cycle_len())
        &&& match self.phase {
            Phase::Settle | Phase::PressAll | Phase::Beat | Phase::HoldPause | Phase::Leaving =>
                self.mode == KeyBehaviorMode::Hold,
            Phase::CycleTop | Phase::Emit { .. } => self.mode == KeyBehaviorMode::Click,
            _ => true,
        }
    }

    /// How many batches one Click-mode cycle writes: press-all and
    /// release-all, or one press and one release per key.
    pub open spec fn spec_cycle_len(&self) -> int {
        if self.modifier_behavior == ModifierBehaviorMode::Hold {
            2
        } else {
            2 * self.ordered@.len() as int
        }
    }

    /// The keys of batch `j` of a Click-mode cycle.
    pub open spec fn spec_cycle_batch_keys(&self, j: int) -> Seq<Key> {
        if self.modifier_behavior == ModifierBehaviorMode::Hold {
            self.keys@
        } else {
            seq![self.ordered@[j / 2]]
        }
    }

    /// Whether batch `j` of a Click-mode cycle presses or releases.
    pub open spec fn spec_cycle_batch_press(&self, j: int) -> bool {
        if self.modifier_behavior == ModifierBehaviorMode::Hold {
            j == 0
        } else {
            j % 2 == 0
        }
    }
}

/// The abort transition: the action reports the failure, and the engine
/// stays broken.
pub open spec fn spec_abort(err: SimulatorError) -> (ActionView, Phase) {
    (ActionView::Abort { err }, Phase::Broken { err })
}

/// The engine's transition function: given the phase, the running flag, the
/// interval, and the outcome of the action issued before, the next action
/// and the next phase.
pub open spec fn spec_step(pre: Engine, running: bool, interval_ms: u64, io_ok: bool) -> (
    ActionView,
    Phase,
) {
    match pre.phase {
        Phase::Create => (ActionView::Create, Phase::Sync0),
        Phase::Sync0 => if !io_ok {
            spec_abort(SimulatorError::DeviceInitialization)
        } else {
            (
                ActionView::Batch { keys: Seq::empty(), press: false },
                if pre.mode == KeyBehaviorMode::Hold {
                    Phase::Settle
                } else {
                    Phase::CycleTop
                },
            )
        },
        Phase::Settle => if !io_ok {
            spec_abort(SimulatorError::KeySimulation)
        } else {
            (ActionView::Pause { ms: SIMULATION_HOLD_DELAY_MS }, Phase::PressAll)
        },
        Phase::PressAll => if !io_ok {
            spec_abort(SimulatorError::KeySimulation)
        } else {
            (ActionView::Batch { keys: pre.keys@, press: true }, Phase::Beat)
        },
        Phase::Beat => if !io_ok {
            spec_abort(SimulatorError::KeySimulation)
        } else if running {
            (
                ActionView::Batch { keys: Seq::empty(), press: false },
                if pre.hold_behavior == HoldBehaviorMode::Continuous {
                    Phase::Beat
                } else {
                    Phase::HoldPause
                },
            )
        } else {
            (ActionView::Batch { keys: pre.keys@, press: false }, Phase::Leaving)
        },
        Phase::HoldPause => if !io_ok {
            spec_abort(SimulatorError::KeySimulation)
        } else {
            (ActionView::Pause { ms: clamp_interval_spec(interval_ms) }, Phase::Beat)
        },
        Phase::Leaving => if !io_ok {
            spec_abort(SimulatorError::KeySimulation)
        } else {
            (ActionView::Finish, Phase::Finished)
        },
        Phase::CycleTop => if !io_ok {
            spec_abort(SimulatorError::KeySimulation)
        } else if running {
            (
                ActionView::Batch {
                    keys: pre.spec_cycle_batch_keys(0),
                    press: pre.spec_cycle_batch_press(0),
                },
                Phase::Emit { next: 1 },
            )
        } else {
            (ActionView::Finish, Phase::Finished)
        },
        Phase::Emit { next } => if !io_ok {
            spec_abort(SimulatorError::KeySimulation)
        } else if (next as int) < pre.spec_cycle_len() {
            (
                ActionView::Batch {
                    keys: pre.spec_cycle_batch_keys(next as int),
                    press: pre.spec_cycle_batch_press(next as int),
                },
                Phase::Emit { next: (next + 1) as usize },
            )
        } else {
            (ActionView::Pause { ms: clamp_interval_spec(interval_ms) }, Phase::CycleTop)
        },
        Phase::Finished => (ActionView::Finish, Phase::Finished),
        Phase::Broken { err } => (ActionView::Abort { err }, Phase::Broken { err }),
    }
}

/// The modifier test, as a filter predicate.
pub open spec fn spec_mod_pred() -> spec_fn(Key) -> bool {
    |k: Key| spec_is_modifier(k)
}

/// The complement of the modifier test, as a filter predicate.
pub open spec fn spec_nonmod_pred() -> spec_fn(Key) -> bool {
    |k: Key| !spec_is_modifier(k)
}

/// Appending one element moves it through a filter.
proof fn lemma_filter_push(s: Seq<Key>, x: Key, p: spec_fn(Key) -> bool)
    ensures
        s.push(x).filter(p) == if p(x) {
            s.filter(p).push(x)
        } else {
            s.filter(p)
        },
{
    reveal(Seq::filter);
    assert(s.push(x).drop_last() =~= s);
    assert(s.push(x).last() == x);
}

/// The modifier keys and the others split the key set.
proof fn lemma_filter_split_len(s: Seq<Key>)
    ensures
        s.filter(spec_mod_pred()).len() + s.filter(spec_nonmod_pred()).len() == s.len(),
    decreases s.len(),
{
    reveal(Seq::filter);
    if s.len() > 0 {
        lemma_filter_split_len(s.drop_last());
    }
}

/// Copies a key vector.
fn copy_keys(v: &Vec<Key>) -> (r: Vec<Key>)
    ensures
        r@ == v@,
{
    let mut r: Vec<Key> = Vec::new();
    let mut i: usize = 0;
    while i < v.len()
        invariant
            i <= v@.len(),
            r@ == v@.subrange(0, i as int),
        decreases v@.len() - i,
    {
        r.push(v[i]);
        i = i + 1;
        proof {
            assert(r@ =~= v@.subrange(0, i as int));
        }
    }
    proof {
        assert(r@ =~= v@);
    }
    r
}

impl Engine {
    /// Starts one run: snapshots the key set and the modes, partitions the
    /// keys into modifiers and others for the pulse order, and stands ready
    /// to create the device.
    pub fn new(
        keys: Vec<Key>,
        mode: KeyBehaviorMode,
        modifier_behavior: ModifierBehaviorMode,
        hold_behavior: HoldBehaviorMode,
    ) -> (e: Engine)
        requires
            keys@.len() > 0,
            2 * keys@.len() <= usize::MAX as int,
        ensures
            e.wf(),
            e.keys == keys,
            e.mode == mode,
            e.modifier_behavior == modifier_behavior,
            e.hold_behavior == hold_behavior,
            e.phase == Phase::Create,
            e.ordered@ == keys@.filter(spec_mod_pred()) + keys@.filter(spec_nonmod_pred()),
    {
        let ghost pmod = spec_mod_pred();
        let ghost pother = spec_nonmod_pred();
        let mut mods: Vec<Key> = Vec::new();
        let mut others: Vec<Key> = Vec::new();
        let mut i: usize = 0;
        while i < keys.len()
            invariant
                pmod == spec_mod_pred(),
                pother == spec_nonmod_pred(),
                i <= keys@.len(),
                mods@ == keys@.subrange(0, i as int).filter(pmod),
                others@ == keys@.subrange(0, i as int).filter(pother),
            decreases keys@.len() - i,
        {
            let ghost pre = keys@.subrange(0, i as int);
            let k = keys[i];
            if is_modifier_evcode(&k) {
                mods.push(k);
            } else {
                others.push(k);
            }
            i = i + 1;
            proof {
                assert(keys@.subrange(0, i as int) =~= pre.push(keys@[i - 1]));
                lemma_filter_push(pre, keys@[i - 1], pmod);
                lemma_filter_push(pre, keys@[i - 1], pother);
            }
        }
        proof {
            assert(keys@.subrange(0, keys@.len() as int) =~= keys@);
        }
        let mut ordered = mods;
        let mut j: usize = 0;
        let ghost mseq = keys@.filter(pmod);
        while j < others.len()
            invariant
                pmod == spec_mod_pred(),
                pother == spec_nonmod_pred(),
                mseq == keys@.filter(pmod),
                j <= others@.len(),
                others@ == keys@.filter(pother),
                ordered@ == mseq + others@.subrange(0, j as int),
            decreases others@.len() - j,
        {
            ordered.push(others[j]);
            j = j + 1;
            proof {
                assert(ordered@ =~= mseq + others@.subrange(0, j as int));
            }
        }
        proof {
            assert(others@.subrange(0, others@.len() as int) =~= others@);
        }
        Engine { mode, modifier_behavior, hold_behavior, keys, ordered, phase: Phase::Create }
    }

    /// How many batches one Click-mode cycle writes.
    pub fn cycle_len(&self) -> (n: usize)
        requires
            self.wf(),
        ensures
            n as int == self.spec_cycle_len(),
    {
        if self.modifier_behavior == ModifierBehaviorMode::Hold {
            2
        } else {
            proof {
                lemma_filter_split_len(self.keys@);
                assert(self.ordered@.len() == self.keys@.len());
            }
            2 * self.ordered.len()
        }
    }

    /// Builds batch `j` of the current Click-mode cycle.
    fn cycle_batch(&self, j: usize) -> (b: EventBatch)
        requires
            self.wf(),
            (j as int) < self.spec_cycle_len(),
        ensures
            b.keys@ == self.spec_cycle_batch_keys(j as int),
            b.press == self.spec_cycle_batch_press(j as int),
    {
        if self.modifier_behavior == ModifierBehaviorMode::Hold {
            EventBatch { keys: copy_keys(&self.keys), press: j == 0 }
        } else {
            let mut ks: Vec<Key> = Vec::new();
            ks.push(self.ordered[j / 2]);
            proof {
                assert(ks@ =~= seq![self.ordered@[j as int / 2]]);
            }
            EventBatch { keys: ks, press: j % 2 == 0 }
        }
    }

    /// One step of the run.
    ///
    /// `running` and `interval_ms` are the shared values as read now;
    /// `io_ok` reports whether the action issued by the previous step
    /// succeeded (true when that action was a sleep, or on the first step).
    ///
    /// The returned action and the new phase follow [`spec_step`]. In
    /// particular: a false running flag at the top of a Click cycle ends the
    /// run with `Done`; in Hold mode it writes the release batch and then
    /// ends; a failed write aborts the run with the device-initialization
    /// error exactly when device creation itself failed, and the
    /// key-simulation error otherwise; and a Click cycle's sleep lasts the
    /// clamped interval read at this very step.
    pub fn step(&mut self, running: bool, interval_ms: u64, io_ok: bool) -> (a: SimAction)
        requires
            old(self).wf(),
        ensures
            final(self).wf(),
            final(self).mode == old(self).mode,
            final(self).modifier_behavior == old(self).modifier_behavior,
            final(self).hold_behavior == old(self).hold_behavior,
            final(self).keys == old(self).keys,
            final(self).ordered == old(self).ordered,
            action_matches(a, spec_step(*old(self), running, interval_ms, io_ok).0),
            final(self).phase == spec_step(*old(self), running, interval_ms, io_ok).1,
            old(self).phase == Phase::CycleTop && io_ok && !running ==> a matches SimAction::Done,
            (match old(self).phase {
                Phase::Emit { next } => io_ok && next as int == old(self).spec_cycle_len(),
                _ => false,
            }) ==> (a matches SimAction::Sleep(ms) && ms == clamp_interval_spec(interval_ms)),
            old(self).phase == Phase::Beat && io_ok && !running ==> (
            a matches SimAction::WriteBatch(b) && b.keys@ == old(self).keys@ && !b.press),
            !io_ok && (match old(self).phase {
                Phase::Create | Phase::Finished | Phase::Broken { .. } => false,
                _ => true,
            }) ==> (a matches SimAction::Fail(e) && (e == SimulatorError::DeviceInitialization
                <==> old(self).phase == Phase::Sync0)),
    {
        match self.phase {
            Phase::Create => {
                self.phase = Phase::Sync0;
                SimAction::CreateDevice
            },
            Phase::Sync0 => {
                if !io_ok {
                    self.phase = Phase::Broken { err: SimulatorError::DeviceInitialization };
                    return SimAction::Fail(SimulatorError::DeviceInitialization);
                }
                self.phase = if self.mode == KeyBehaviorMode::Hold {
                    Phase::Settle
                } else {
                    Phase::CycleTop
                };
                SimAction::WriteBatch(EventBatch { keys: Vec::new(), press: false })
            },
            Phase::Settle => {
                if !io_ok {
                    self.phase = Phase::Broken { err: SimulatorError::KeySimulation };
                    return SimAction::Fail(SimulatorError::KeySimulation);
                }
                self.phase = Phase::PressAll;
                SimAction::Sleep(SIMULATION_HOLD_DELAY_MS)
            },
            Phase::PressAll => {
                if !io_ok {
                    self.phase = Phase::Broken { err: SimulatorError::KeySimulation };
                    return SimAction::Fail(SimulatorError::KeySimulation);
                }
                self.phase = Phase::Beat;
                SimAction::WriteBatch(EventBatch { keys: copy_keys(&self.keys), press: true })
            },
            Phase::Beat => {
                if !io_ok {
                    self.phase = Phase::Broken { err: SimulatorError::KeySimulation };
                    return SimAction::Fail(SimulatorError::KeySimulation);
                }
                if running {
                    self.phase = if self.hold_behavior == HoldBehaviorMode::Continuous {
                        Phase::Beat
                    } else {
                        Phase::HoldPause
                    };
                    SimAction::WriteBatch(EventBatch { keys: Vec::new(), press: false })
                } else {
                    self.phase = Phase::Leaving;
                    SimAction::WriteBatch(EventBatch { keys: copy_keys(&self.keys), press: false })
                }
            },
            Phase::HoldPause => {
                if !io_ok {
                    self.phase = Phase::Broken { err: SimulatorError::KeySimulation };
                    return SimAction::Fail(SimulatorError::KeySimulation);
                }
                self.phase = Phase::Beat;
                SimAction::Sleep(clamp_interval(interval_ms))
            },
            Phase::Leaving => {
                if !io_ok {
                    self.phase = Phase::Broken { err: SimulatorError::KeySimulation };
                    return SimAction::Fail(SimulatorError::KeySimulation);
                }
                self.phase = Phase::Finished;
                SimAction::Done
            },
            Phase::CycleTop => {
                if !io_ok {
                    self.phase = Phase::Broken { err: SimulatorError::KeySimulation };
                    return SimAction::Fail(SimulatorError::KeySimulation);
                }
                if running {
                    proof {
                        lemma_filter_split_len(self.keys@);
                        assert(self.ordered@.len() == self.keys@.len());
                        assert(self.spec_cycle_len() >= 2);
                    }
                    let b = self.cycle_batch(0);
                    self.phase = Phase::Emit { next: 1 };
                    SimAction::WriteBatch(b)
                } else {
                    self.phase = Phase::Finished;
                    SimAction::Done
                }
            },
            Phase::Emit { next } => {
                if !io_ok {
                    self.phase = Phase::Broken { err: SimulatorError::KeySimulation };
                    return SimAction::Fail(SimulatorError::KeySimulation);
                }
                proof {
                    lemma_filter_split_len(self.keys@);
                    assert(self.ordered@.len() == self.keys@.len());
                }
                let in_cycle = if self.modifier_behavior == ModifierBehaviorMode::Hold {
                    next < 2
                } else {
                    next / 2 < self.ordered.len()
                };
                if in_cycle {
                    proof {
                        assert((next as int) < self.spec_cycle_len());
                        assert(self.spec_cycle_len() <= usize::MAX as int);
                    }
                    let b = self.cycle_batch(next);
                    self.phase = Phase::Emit { next: next + 1 };
                    SimAction::WriteBatch(b)
                } else {
                    self.phase = Phase::CycleTop;
                    SimAction::Sleep(clamp_interval(interval_ms))
                }
            },
            Phase::Finished => SimAction::Done,
            Phase::Broken { err } => SimAction::Fail(err),
        }
    }
}

/// In Click mode with clicked modifiers, every batch of a cycle pulses a
/// single key, pressing on the even batches and releasing on the odd ones;
/// the front of the cycle pulses exactly the modifier keys, in key-set
/// order, and only after the last of them do the non-modifier keys follow —
/// so no modifier stays latched across another key's press.
pub proof fn lemma_clicked_modifiers_pulse_first(e: Engine, j: int)
    requires
        e.wf(),
        e.modifier_behavior == ModifierBehaviorMode::Click,
        0 <= j < e.spec_cycle_len(),
    ensures
        e.spec_cycle_batch_keys(j).len() == 1,
        e.spec_cycle_batch_press(j) == (j % 2 == 0),
        j < 2 * e.keys@.filter(spec_mod_pred()).len() ==> e.spec_cycle_batch_keys(j)[0]
            == e.keys@.filter(spec_mod_pred())[j / 2] && spec_is_modifier(
            e.spec_cycle_batch_keys(j)[0],
        ),
        j >= 2 * e.keys@.filter(spec_mod_pred()).len() ==> e.spec_cycle_batch_keys(j)[0]
            == e.keys@.filter(spec_nonmod_pred())[j / 2 - e.keys@.filter(
            spec_mod_pred(),
        ).len()] && !spec_is_modifier(e.spec_cycle_batch_keys(j)[0]),
{
    broadcast use vstd::seq_lib::group_seq_lib_default;

    let mods = e.keys@.filter(spec_mod_pred());
    let others = e.keys@.filter(spec_nonmod_pred());
    lemma_filter_split_len(e.keys@);
    assert(e.ordered@.len() == e.keys@.len());
    let i = j / 2;
    assert(0 <= i < e.ordered@.len());
    if i < mods.len() {
        assert(e.ordered@[i] == mods[i]);
        assert(spec_mod_pred()(mods[i])) by {
            e.keys@.lemma_filter_pred(spec_mod_pred(), i);
        }
    } else {
        assert(e.ordered@[i] == others[i - mods.len()]);
        assert(spec_nonmod_pred()(others[i - mods.len()])) by {
            e.keys@.lemma_filter_pred(spec_nonmod_pred(), i - mods.len());
        }
    }
}

/// The key set an engine run would use: each configured raw name that
/// translates to a key, in order; untranslatable names are skipped.
pub open spec fn spec_mapped_keys(raws: Seq<String>) -> Seq<Key>
    decreases raws.len(),
{
    if raws.len() == 0 {
        Seq::empty()
    } else {
        let rest = spec_mapped_keys(raws.drop_last());
        match spec_raw_key_to_device_keycode(raws.last()@) {
            Some(k) => rest.push(k),
            None => rest,
        }
    }
}

/// Rebuilds the simulation key set from the configuration: every selected
/// raw name that translates is kept, in order, and the key behavior mode is
/// taken over.
pub fn initialize_simulation_keys(
    app_data: &AppData,
    selected_keys: &mut Vec<Key>,
    key_behavior: &mut KeyBehaviorMode,
) -> (skipped: usize)
    ensures
        final(selected_keys)@ == spec_mapped_keys(app_data.selected_keys@),
        *final(key_behavior) == app_data.key_behavior,
        final(selected_keys)@.len() + skipped == app_data.selected_keys@.len(),
{
    selected_keys.clear();
    *key_behavior = app_data.key_behavior;
    let mut skipped: usize = 0;
    let mut i: usize = 0;
    while i < app_data.selected_keys.len()
        invariant
            i <= app_data.selected_keys@.len(),
            selected_keys@ == spec_mapped_keys(app_data.selected_keys@.subrange(0, i as int)),
            selected_keys@.len() + skipped == i,
        decreases app_data.selected_keys@.len() - i,
    {
        let ghost pre = app_data.selected_keys@.subrange(0, i as int);
        match raw_key_to_device_keycode(&app_data.selected_keys[i]) {
            Some(k) => {
                selected_keys.push(k);
            },
            None => {
                skipped = skipped + 1;
            },
        }
        i = i + 1;
        proof {
            let cur = app_data.selected_keys@.subrange(0, i as int);
            assert(cur.drop_last() =~= pre);
            assert(cur.last() == app_data.selected_keys@[i - 1]);
        }
    }
    proof {
        assert(app_data.selected_keys@.subrange(0, app_data.selected_keys@.len() as int)
            =~= app_data.selected_keys@);
    }
    skipped
}

/// Whether a toggle-on starts a run, and with what.
#[derive(Debug)]
pub enum StartDecision {
    /// The key set came out empty: no device is created, no engine exists,
    /// and the running flag goes back to false.
    Rejected,
    /// A fresh engine, standing before device creation.
    Start(Engine),
}

/// Decides an engine start from the configuration. An empty mapped key set
/// is rejected before any device-creation attempt: the decision then holds
/// no engine, so no action of a run — device creation first of all — ever
/// arises from it.
pub fn start_simulation(app_data: &AppData) -> (d: StartDecision)
    requires
        2 * app_data.selected_keys@.len() <= usize::MAX as int,
    ensures
        (d matches StartDecision::Rejected) <==> spec_mapped_keys(app_data.selected_keys@).len()
            == 0,
        d matches StartDecision::Start(e) ==> e.wf() && e.phase == Phase::Create && e.keys@
            == spec_mapped_keys(app_data.selected_keys@) && e.mode == app_data.key_behavior
            && e.modifier_behavior == app_data.modifier_behavior && e.hold_behavior
            == app_data.hold_behavior,
{
    let mut keys: Vec<Key> = Vec::new();
    let mut mode: KeyBehaviorMode = KeyBehaviorMode::Click;
    initialize_simulation_keys(app_data, &mut keys, &mut mode);
    if keys.len() == 0 {
        StartDecision::Rejected
    } else {
        StartDecision::Start(
            Engine::new(keys, mode, app_data.modifier_behavior, app_data.hold_behavior),
        )
    }
}

/// What a toggle request did: the new running flag, and the engine to spawn,
/// if one starts.
#[derive(Debug)]
pub struct ToggleOutcome {
    pub running: bool,
    pub start: Option<Engine>,
}

/// Toggles the running flag. Toggling off stops the current run through the
/// flag alone. Toggling on starts a run — unless the mapped key set is
/// empty, which forces the flag straight back to false with no run started.
pub fn handle_toggle_running(running: bool, app_data: &AppData) -> (t: ToggleOutcome)
    requires
        2 * app_data.selected_keys@.len() <= usize::MAX as int,
    ensures
        running ==> !t.running && t.start is None,
        !running && spec_mapped_keys(app_data.selected_keys@).len() == 0 ==> !t.running
            && t.start is None,
        !running && spec_mapped_keys(app_data.selected_keys@).len() > 0 ==> t.running && (
        t.start matches Some(e) && e.wf() && e.phase == Phase::Create && e.keys@
            == spec_mapped_keys(app_data.selected_keys@) && e.mode == app_data.key_behavior
            && e.modifier_behavior == app_data.modifier_behavior && e.hold_behavior
            == app_data.hold_behavior),
    {
    if running {
        ToggleOutcome { running: false, start: None }
    } else {
        match start_simulation(app_data) {
            StartDecision::Rejected => ToggleOutcome { running: false, start: None },
            StartDecision::Start(e) => ToggleOutcome { running: true, start: Some(e) },
        }
    }
}

} // verus!
