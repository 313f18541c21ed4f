use input_simulator::device::{device_capability_plan, setup_device_with_retry, Capability};
use input_simulator::error::SimulatorError;
use input_simulator::keymap::Key;
use input_simulator::retry::{device_retry_policy, next_attempt_delay, run_retry, write_retry_policy};
use input_simulator::writer::{batch_event_sequence, DeviceEvent, EventBatch, ScriptedWriter};

#[test]
fn batch_serializes_keys_in_order_with_one_trailing_sync() {
    let batch = EventBatch { keys: vec![Key::LeftCtrl, Key::A], press: true };
    let events = batch_event_sequence(&batch);
    assert_eq!(events.len(), 3);
    assert!(matches!(events[0], DeviceEvent::KeyState { key: Key::LeftCtrl, pressed: true }));
    assert!(matches!(events[1], DeviceEvent::KeyState { key: Key::A, pressed: true }));
    assert!(matches!(events[2], DeviceEvent::Sync));

    // An empty batch still gets exactly one sync: the heartbeat form.
    let heartbeat = EventBatch { keys: vec![], press: false };
    let events = batch_event_sequence(&heartbeat);
    assert_eq!(events.len(), 1);
    assert!(matches!(events[0], DeviceEvent::Sync));
}

#[test]
fn always_failing_write_stops_after_max_retries() {
    // A device that rejects every write: exactly MAX_RETRIES attempts run,
    // then a key-simulation error; no further attempts occur.
    let mut w = ScriptedWriter::new(vec![false; 10]);
    let r = w.write_event_with_retry(DeviceEvent::Sync);
    assert!(matches!(r, Err(SimulatorError::KeySimulation)));
    assert_eq!(w.pos, 3);
    assert!(w.written.is_empty());
}

#[test]
fn write_succeeds_on_a_later_attempt_within_budget() {
    let mut w = ScriptedWriter::new(vec![false, false, true, true]);
    let ev = DeviceEvent::KeyState { key: Key::A, pressed: true };
    assert!(w.write_event_with_retry(ev).is_ok());
    assert_eq!(w.pos, 3);
    assert_eq!(w.written.len(), 1);
    assert!(matches!(w.written[0], DeviceEvent::KeyState { key: Key::A, pressed: true }));
}

#[test]
fn success_beyond_the_budget_does_not_count() {
    // The fourth attempt would succeed, but the budget is three.
    let mut w = ScriptedWriter::new(vec![false, false, false, true]);
    let r = w.write_event_with_retry(DeviceEvent::Sync);
    assert!(matches!(r, Err(SimulatorError::KeySimulation)));
    assert_eq!(w.pos, 3);
}

#[test]
fn batch_writes_all_events_then_sync() {
    let mut w = ScriptedWriter::new(vec![true; 8]);
    assert!(w.write_key_events(&vec![Key::A, Key::B], true).is_ok());
    assert_eq!(w.pos, 3);
    assert_eq!(w.written.len(), 3);
    assert!(matches!(w.written[0], DeviceEvent::KeyState { key: Key::A, pressed: true }));
    assert!(matches!(w.written[1], DeviceEvent::KeyState { key: Key::B, pressed: true }));
    assert!(matches!(w.written[2], DeviceEvent::Sync));
}

#[test]
fn batch_fails_as_a_whole_when_one_event_exhausts_retries() {
    // First event is accepted at once; the second exhausts its retries. The
    // batch fails, the sync is never attempted, and nothing after the first
    // event reaches the device.
    let mut w = ScriptedWriter::new(vec![true, false, false, false, true, true, true]);
    let r = w.write_key_events(&vec![Key::A, Key::B], false);
    assert!(matches!(r, Err(SimulatorError::KeySimulation)));
    assert_eq!(w.pos, 4);
    assert_eq!(w.written.len(), 1);
    assert!(matches!(w.written[0], DeviceEvent::KeyState { key: Key::A, pressed: false }));
}

#[test]
fn retry_policy_outcomes() {
    let write = write_retry_policy();
    assert_eq!(write.max_attempts, 3);
    assert_eq!(write.delay_ms, 5);
    let device = device_retry_policy();
    assert_eq!(device.max_attempts, 3);
    assert_eq!(device.delay_ms, 100);

    let r = run_retry(&write, &vec![false, true]);
    assert!(r.success);
    assert_eq!(r.attempts, 2);

    let r = run_retry(&write, &vec![]);
    assert!(!r.success);
    assert_eq!(r.attempts, 3);

    let r = run_retry(&write, &vec![true, false, false]);
    assert!(r.success);
    assert_eq!(r.attempts, 1);

    assert_eq!(next_attempt_delay(&write, 1), Some(5));
    assert_eq!(next_attempt_delay(&write, 2), Some(5));
    assert_eq!(next_attempt_delay(&write, 3), None);
    assert_eq!(next_attempt_delay(&device, 1), Some(100));
}

#[test]
fn device_setup_retries_then_reports_initialization_failure() {
    assert!(matches!(
        setup_device_with_retry(&vec![false, false, false]),
        Err(SimulatorError::DeviceInitialization)
    ));
    assert!(setup_device_with_retry(&vec![false, false, true]).is_ok());
    // A success only past the budget does not help.
    assert!(matches!(
        setup_device_with_retry(&vec![false, false, false, true]),
        Err(SimulatorError::DeviceInitialization)
    ));
}

#[test]
fn device_capability_plan_keeps_the_baseline_first() {
    let plan = device_capability_plan(&vec![Key::A, Key::LeftShift]);
    assert_eq!(plan.len(), 7);
    assert!(matches!(plan[0], Capability::KeyCap(Key::BtnLeft)));
    assert!(matches!(plan[1], Capability::KeyCap(Key::BtnRight)));
    assert!(matches!(plan[2], Capability::KeyCap(Key::BtnMiddle)));
    assert!(matches!(plan[3], Capability::RelX));
    assert!(matches!(plan[4], Capability::RelY));
    assert!(matches!(plan[5], Capability::KeyCap(Key::A)));
    assert!(matches!(plan[6], Capability::KeyCap(Key::LeftShift)));
}
