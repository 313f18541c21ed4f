use input_simulator::config::{AppData, GlobalHotkey, HotkeyModifiers};
use input_simulator::hotkey::{
    ensure_binding_default, format_hotkey_text, is_hotkey_active, listener_iteration,
    DebounceState, LogThrottle,
};
use input_simulator::keymap::Key;

fn binding(key: &str, ctrl: bool, alt: bool, shift: bool, super_key: bool) -> GlobalHotkey {
    GlobalHotkey {
        key: key.to_string(),
        modifiers: HotkeyModifiers { ctrl, alt, shift, super_key },
    }
}

#[test]
fn hotkey_match_requires_flagged_modifiers_only() {
    let b = binding("F8", true, false, false, false);
    // Bound key alone: ctrl required but absent.
    assert!(!is_hotkey_active(&vec![Key::F8], Key::F8, &b));
    // Either control key satisfies the requirement.
    assert!(is_hotkey_active(&vec![Key::F8, Key::LeftCtrl], Key::F8, &b));
    assert!(is_hotkey_active(&vec![Key::RightCtrl, Key::F8], Key::F8, &b));
    // An unrequired modifier does not constrain the match.
    let free = binding("F8", false, false, false, false);
    assert!(is_hotkey_active(&vec![Key::F8, Key::LeftShift], Key::F8, &free));
    // The bound key itself must be down.
    assert!(!is_hotkey_active(&vec![Key::LeftCtrl], Key::F8, &b));
}

#[test]
fn edge_detection_fires_on_rising_edges_only() {
    // Pressed-key stream: [not-matched, matched, matched, not-matched, matched]
    let stream = [false, true, true, false, true];
    let mut st = DebounceState::new();
    let mut fired_at = Vec::new();
    for (i, m) in stream.iter().enumerate() {
        if st.observe(*m, i as u64) {
            fired_at.push(i);
        }
    }
    assert_eq!(fired_at, vec![1, 4]);
}

#[test]
fn listener_iteration_detects_edges_with_fallback_binding() {
    // An empty configured key falls back to F8 with no modifiers.
    let mut app_data = AppData::default();
    app_data.global_keybind.key = String::new();
    let mut st = DebounceState::new();
    assert!(!listener_iteration(&app_data, &vec![], &mut st, 0));
    assert!(listener_iteration(&app_data, &vec![Key::F8], &mut st, 10));
    // Sustained press does not re-fire.
    assert!(!listener_iteration(&app_data, &vec![Key::F8], &mut st, 20));
    // Release, then re-press re-triggers.
    assert!(!listener_iteration(&app_data, &vec![], &mut st, 30));
    assert!(listener_iteration(&app_data, &vec![Key::F8], &mut st, 40));
    assert_eq!(st.last_toggle_ms, Some(40));
}

#[test]
fn empty_binding_is_reset_to_default() {
    let mut app_data = AppData::default();
    app_data.global_keybind.key = String::new();
    assert!(ensure_binding_default(&mut app_data));
    assert_eq!(app_data.global_keybind.key, "F8");
    assert!(!app_data.global_keybind.modifiers.ctrl);
    // A configured binding is left alone.
    app_data.global_keybind.key = "Space".to_string();
    assert!(!ensure_binding_default(&mut app_data));
    assert_eq!(app_data.global_keybind.key, "Space");
}

#[test]
fn warning_throttle_allows_one_per_second() {
    let mut t = LogThrottle::new();
    assert!(t.should_log(0));
    assert!(!t.should_log(500));
    assert!(!t.should_log(999));
    assert!(t.should_log(1000));
    assert!(!t.should_log(1500));
    assert!(t.should_log(2100));
}

#[test]
fn hotkey_labels_join_with_plus() {
    assert_eq!(format_hotkey_text(false, false, false, false, Some("F8")), "F8");
    assert_eq!(format_hotkey_text(true, false, false, false, Some("F8")), "Ctrl+F8");
    assert_eq!(format_hotkey_text(true, true, true, true, Some("K")), "Ctrl+Alt+Shift+Super+K");
    assert_eq!(format_hotkey_text(false, true, false, true, None), "Alt+Super");
    assert_eq!(format_hotkey_text(false, false, false, false, None), "");
}
