use input_simulator::clamp_interval;
use input_simulator::config::{
    AppData, HoldBehaviorMode, KeyBehaviorMode, ModifierBehaviorMode,
};
use input_simulator::constants::{DEFAULT_INTERVAL_MS, MAX_INTERVAL_MS, MIN_INTERVAL_MS};
use input_simulator::control::{
    begin_global_hotkey_capture, begin_key_capture, cancel_global_hotkey_capture,
    finalize_captured_keys, finalize_global_hotkey, record_key_event, set_interval,
};
use input_simulator::text::format_raw_key_for_display;

#[test]
fn interval_clamping_bounds() {
    assert_eq!(clamp_interval(MIN_INTERVAL_MS - 1), MIN_INTERVAL_MS);
    assert_eq!(clamp_interval(MIN_INTERVAL_MS), MIN_INTERVAL_MS);
    assert_eq!(clamp_interval(DEFAULT_INTERVAL_MS), DEFAULT_INTERVAL_MS);
    assert_eq!(clamp_interval(MAX_INTERVAL_MS), MAX_INTERVAL_MS);
    assert_eq!(clamp_interval(MAX_INTERVAL_MS + 1), MAX_INTERVAL_MS);
    assert_eq!(clamp_interval(0), MIN_INTERVAL_MS);
    assert_eq!(clamp_interval(u64::MAX), MAX_INTERVAL_MS);
}

#[test]
fn mode_names_parse_and_print() {
    assert_eq!(KeyBehaviorMode::from_str("Click"), Ok(KeyBehaviorMode::Click));
    assert_eq!(KeyBehaviorMode::from_str("Hold"), Ok(KeyBehaviorMode::Hold));
    assert_eq!(KeyBehaviorMode::from_str("click"), Err(()));
    assert_eq!(KeyBehaviorMode::Click.label(), "Click");
    assert_eq!(KeyBehaviorMode::Hold.label(), "Hold");

    assert_eq!(HoldBehaviorMode::from_str("Continuous"), Ok(HoldBehaviorMode::Continuous));
    assert_eq!(HoldBehaviorMode::from_str("Cycle"), Ok(HoldBehaviorMode::Cycle));
    assert_eq!(HoldBehaviorMode::from_str(""), Err(()));
    assert_eq!(HoldBehaviorMode::Continuous.label(), "Continuous");
    assert_eq!(HoldBehaviorMode::Cycle.label(), "Cycle");

    assert_eq!(ModifierBehaviorMode::from_str("Hold"), Ok(ModifierBehaviorMode::Hold));
    assert_eq!(ModifierBehaviorMode::from_str("Click"), Ok(ModifierBehaviorMode::Click));
    assert_eq!(ModifierBehaviorMode::from_str("hold"), Err(()));
    assert_eq!(ModifierBehaviorMode::Hold.label(), "Hold");
    assert_eq!(ModifierBehaviorMode::Click.label(), "Click");
}

#[test]
fn defaults_match_the_documented_startup_state() {
    let d = AppData::default();
    assert!(d.captured_keys.is_empty());
    assert!(d.selected_keys.is_empty());
    assert_eq!(d.global_keybind.key, "F8");
    assert!(!d.global_keybind.modifiers.ctrl);
    assert!(!d.global_keybind.modifiers.alt);
    assert!(!d.global_keybind.modifiers.shift);
    assert!(!d.global_keybind.modifiers.super_key);
    assert_eq!(d.interval_ms, DEFAULT_INTERVAL_MS);
    assert_eq!(d.key_behavior, KeyBehaviorMode::Click);
    assert_eq!(d.modifier_behavior, ModifierBehaviorMode::Click);
    assert_eq!(d.hold_behavior, HoldBehaviorMode::Continuous);
    assert!(!d.capturing_global_hotkey);
    assert!(d.temp_hotkey.key.is_none());
}

#[test]
fn key_capture_records_each_name_once() {
    let mut app_data = AppData::default();
    begin_key_capture(&mut app_data);
    record_key_event(&mut app_data, "A".to_string(), false, false, false, false, true);
    record_key_event(&mut app_data, "B".to_string(), false, false, false, false, true);
    record_key_event(&mut app_data, "A".to_string(), false, false, false, false, true);
    assert_eq!(app_data.captured_keys, vec!["A".to_string(), "B".to_string()]);
    // Outside capture mode nothing is recorded.
    record_key_event(&mut app_data, "C".to_string(), false, false, false, false, false);
    assert_eq!(app_data.captured_keys.len(), 2);
    finalize_captured_keys(&mut app_data);
    assert_eq!(app_data.selected_keys, vec!["A".to_string(), "B".to_string()]);
}

#[test]
fn global_hotkey_capture_stages_and_commits_normalized() {
    let mut app_data = AppData::default();
    begin_global_hotkey_capture(&mut app_data);
    assert!(app_data.capturing_global_hotkey);
    record_key_event(
        &mut app_data,
        "Character(\"k\")".to_string(),
        true,
        false,
        true,
        false,
        false,
    );
    assert_eq!(app_data.temp_hotkey.key.as_deref(), Some("Character(\"k\")"));
    assert!(app_data.temp_hotkey.modifiers.ctrl);
    assert!(app_data.temp_hotkey.modifiers.shift);
    finalize_global_hotkey(&mut app_data);
    assert!(!app_data.capturing_global_hotkey);
    assert_eq!(app_data.global_keybind.key, "K");
    assert!(app_data.global_keybind.modifiers.ctrl);
    assert!(!app_data.global_keybind.modifiers.alt);
    assert!(app_data.global_keybind.modifiers.shift);
}

#[test]
fn cancelled_hotkey_capture_keeps_the_binding() {
    let mut app_data = AppData::default();
    begin_global_hotkey_capture(&mut app_data);
    cancel_global_hotkey_capture(&mut app_data);
    assert!(!app_data.capturing_global_hotkey);
    assert_eq!(app_data.global_keybind.key, "F8");
    // Committing with nothing staged also keeps the binding.
    begin_global_hotkey_capture(&mut app_data);
    finalize_global_hotkey(&mut app_data);
    assert_eq!(app_data.global_keybind.key, "F8");
}

#[test]
fn interval_updates_are_stored_as_given() {
    let mut app_data = AppData::default();
    set_interval(&mut app_data, 7);
    assert_eq!(app_data.interval_ms, 7);
    // The engine clamps at use; storage keeps the raw value.
    assert_eq!(clamp_interval(app_data.interval_ms), MIN_INTERVAL_MS);
}

#[test]
fn raw_key_display_is_the_name_itself() {
    assert_eq!(format_raw_key_for_display(&"KEY_A".to_string()), "KEY_A");
}
