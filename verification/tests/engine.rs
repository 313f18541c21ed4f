use input_simulator::config::{AppData, HoldBehaviorMode, KeyBehaviorMode, ModifierBehaviorMode};
use input_simulator::error::SimulatorError;
use input_simulator::keymap::Key;
use input_simulator::simulator::{
    handle_toggle_running, initialize_simulation_keys, start_simulation, Engine, SimAction,
    StartDecision,
};
use input_simulator::writer::{batch_event_sequence, DeviceEvent};

#[test]
fn empty_key_set_rejects_start_before_device_creation() {
    // No keys selected at all.
    let app_data = AppData::default();
    assert!(matches!(start_simulation(&app_data), StartDecision::Rejected));

    // Keys selected, but none of them translatable: still rejected.
    let mut app_data = AppData::default();
    app_data.selected_keys = vec!["bogus(".to_string(), "another)".to_string()];
    assert!(matches!(start_simulation(&app_data), StartDecision::Rejected));

    // A toggle-on over an empty set forces the running flag back to false.
    let t = handle_toggle_running(false, &app_data);
    assert!(!t.running);
    assert!(t.start.is_none());

    // With a translatable key the run starts, and its first action is
    // device creation.
    app_data.selected_keys = vec!["A".to_string()];
    let t = handle_toggle_running(false, &app_data);
    assert!(t.running);
    let mut engine = t.start.expect("engine");
    assert!(matches!(engine.step(true, 100, true), SimAction::CreateDevice));
}

#[test]
fn toggle_off_stops_without_spawning() {
    let mut app_data = AppData::default();
    app_data.selected_keys = vec!["A".to_string()];
    let t = handle_toggle_running(true, &app_data);
    assert!(!t.running);
    assert!(t.start.is_none());
}

#[test]
fn initialize_skips_untranslatable_names() {
    let mut app_data = AppData::default();
    app_data.selected_keys = vec![
        "Character(\"a\")".to_string(),
        "bogus(".to_string(),
        "Named(F8)".to_string(),
    ];
    app_data.key_behavior = KeyBehaviorMode::Hold;
    let mut keys: Vec<Key> = vec![Key::Z];
    let mut mode = KeyBehaviorMode::Click;
    let skipped = initialize_simulation_keys(&app_data, &mut keys, &mut mode);
    assert_eq!(keys, vec![Key::A, Key::F8]);
    assert_eq!(mode, KeyBehaviorMode::Hold);
    assert_eq!(skipped, 1);
}

/// Drives a Click-mode engine until its first sleep and returns the batches
/// of the first cycle as (keys, press) pairs.
fn first_cycle(
    keys: Vec<Key>,
    modifier_behavior: ModifierBehaviorMode,
    interval: u64,
) -> (Vec<(Vec<Key>, bool)>, u64) {
    let mut engine = Engine::new(
        keys,
        KeyBehaviorMode::Click,
        modifier_behavior,
        HoldBehaviorMode::Continuous,
    );
    let mut batches = Vec::new();
    loop {
        match engine.step(true, interval, true) {
            SimAction::CreateDevice => {}
            SimAction::WriteBatch(b) => {
                if !b.keys.is_empty() {
                    batches.push((b.keys, b.press));
                }
            }
            SimAction::Sleep(ms) => return (batches, ms),
            SimAction::Done => panic!("run ended before its first sleep"),
            SimAction::Fail(e) => panic!("unexpected failure: {:?}", e),
        }
    }
}

#[test]
fn clicked_modifiers_pulse_before_other_keys() {
    // KeySet = [Ctrl, A, Shift, B] with clicked modifiers: the cycle pulses
    // Ctrl and Shift individually before pulsing A and B individually.
    let (batches, _) = first_cycle(
        vec![Key::LeftCtrl, Key::A, Key::LeftShift, Key::B],
        ModifierBehaviorMode::Click,
        100,
    );
    let expected = vec![
        (vec![Key::LeftCtrl], true),
        (vec![Key::LeftCtrl], false),
        (vec![Key::LeftShift], true),
        (vec![Key::LeftShift], false),
        (vec![Key::A], true),
        (vec![Key::A], false),
        (vec![Key::B], true),
        (vec![Key::B], false),
    ];
    assert_eq!(batches, expected);
}

#[test]
fn held_modifiers_press_everything_together() {
    let keys = vec![Key::LeftCtrl, Key::A];
    let (batches, _) = first_cycle(keys.clone(), ModifierBehaviorMode::Hold, 100);
    assert_eq!(batches, vec![(keys.clone(), true), (keys, false)]);
}

#[test]
fn cycle_sleeps_the_interval_observed_at_its_sleep_point() {
    for interval in [10u64, 137, 5000] {
        let (_, ms) = first_cycle(vec![Key::A], ModifierBehaviorMode::Hold, interval);
        assert_eq!(ms, interval);
    }
    // Out-of-range values are clamped at the sleep point.
    let (_, ms) = first_cycle(vec![Key::A], ModifierBehaviorMode::Hold, 9);
    assert_eq!(ms, 10);
    let (_, ms) = first_cycle(vec![Key::A], ModifierBehaviorMode::Hold, 5001);
    assert_eq!(ms, 5000);
}

#[test]
fn one_second_of_click_mode_yields_ten_batches() {
    // interval=100ms, mode=Click, modifier_behavior=Hold, keys=[A]: over one
    // second the engine performs 10 press/release batch pairs, each batch a
    // key event followed by one sync.
    let mut engine = Engine::new(
        vec![Key::A],
        KeyBehaviorMode::Click,
        ModifierBehaviorMode::Hold,
        HoldBehaviorMode::Continuous,
    );
    let mut now: u64 = 0;
    let mut presses = 0;
    let mut releases = 0;
    let mut created = false;
    loop {
        let running = now < 1000;
        match engine.step(running, 100, true) {
            SimAction::CreateDevice => created = true,
            SimAction::WriteBatch(b) => {
                let events = batch_event_sequence(&b);
                assert_eq!(events.len(), b.keys.len() + 1);
                assert!(matches!(events[events.len() - 1], DeviceEvent::Sync));
                if !b.keys.is_empty() {
                    assert_eq!(b.keys, vec![Key::A]);
                    assert!(matches!(
                        events[0],
                        DeviceEvent::KeyState { key: Key::A, pressed } if pressed == b.press
                    ));
                    if b.press {
                        presses += 1;
                    } else {
                        releases += 1;
                    }
                }
            }
            SimAction::Sleep(ms) => {
                assert_eq!(ms, 100);
                now += ms;
            }
            SimAction::Done => break,
            SimAction::Fail(e) => panic!("unexpected failure: {:?}", e),
        }
    }
    assert!(created);
    assert_eq!(presses, 10);
    assert_eq!(releases, 10);
}

#[test]
fn hold_mode_presses_once_and_releases_on_stop() {
    let keys = vec![Key::LeftCtrl, Key::A];
    let mut engine = Engine::new(
        keys.clone(),
        KeyBehaviorMode::Hold,
        ModifierBehaviorMode::Hold,
        HoldBehaviorMode::Continuous,
    );
    let mut beats = 0;
    let mut presses = Vec::new();
    let mut releases = Vec::new();
    let mut settled = false;
    loop {
        let running = beats < 3;
        match engine.step(running, 100, true) {
            SimAction::CreateDevice => {}
            SimAction::WriteBatch(b) => {
                if b.keys.is_empty() {
                    // Heartbeat or initial sync.
                    if settled {
                        beats += 1;
                    }
                } else if b.press {
                    presses.push(b.keys);
                } else {
                    releases.push(b.keys);
                }
            }
            SimAction::Sleep(ms) => {
                // The settle delay before the press.
                assert_eq!(ms, 50);
                settled = true;
            }
            SimAction::Done => break,
            SimAction::Fail(e) => panic!("unexpected failure: {:?}", e),
        }
    }
    assert_eq!(presses, vec![keys.clone()]);
    assert_eq!(releases, vec![keys]);
    assert_eq!(beats, 3);
}

#[test]
fn hold_cycle_heartbeats_are_paced_by_the_interval() {
    let mut engine = Engine::new(
        vec![Key::A],
        KeyBehaviorMode::Hold,
        ModifierBehaviorMode::Hold,
        HoldBehaviorMode::Cycle,
    );
    let mut beats = 0;
    let mut pauses = 0;
    loop {
        let running = beats < 3;
        match engine.step(running, 250, true) {
            SimAction::CreateDevice => {}
            SimAction::WriteBatch(b) => {
                if b.keys.is_empty() && beats < 4 {
                    beats += 1;
                }
            }
            SimAction::Sleep(ms) => {
                if ms == 250 {
                    pauses += 1;
                }
            }
            SimAction::Done => break,
            SimAction::Fail(e) => panic!("unexpected failure: {:?}", e),
        }
    }
    // Counted beats include the initial sync; each true heartbeat after it
    // was followed by one interval pause.
    assert!(pauses >= 2);
}

#[test]
fn device_creation_failure_aborts_with_device_error() {
    let mut engine = Engine::new(
        vec![Key::A],
        KeyBehaviorMode::Click,
        ModifierBehaviorMode::Hold,
        HoldBehaviorMode::Continuous,
    );
    assert!(matches!(engine.step(true, 100, true), SimAction::CreateDevice));
    // The driver reports that creation failed after its retries.
    assert!(matches!(
        engine.step(true, 100, false),
        SimAction::Fail(SimulatorError::DeviceInitialization)
    ));
    // The engine stays aborted.
    assert!(matches!(
        engine.step(true, 100, true),
        SimAction::Fail(SimulatorError::DeviceInitialization)
    ));
}

#[test]
fn write_failure_aborts_with_key_simulation_error() {
    let mut engine = Engine::new(
        vec![Key::A],
        KeyBehaviorMode::Click,
        ModifierBehaviorMode::Hold,
        HoldBehaviorMode::Continuous,
    );
    assert!(matches!(engine.step(true, 100, true), SimAction::CreateDevice));
    // Device creation succeeded; the initial sync comes next.
    assert!(matches!(engine.step(true, 100, true), SimAction::WriteBatch(_)));
    // The initial sync write failed after its retries: fail fast.
    assert!(matches!(
        engine.step(true, 100, false),
        SimAction::Fail(SimulatorError::KeySimulation)
    ));
}
