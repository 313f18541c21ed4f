//! State updates driven by the caller: key capture, hotkey capture, and the
//! interval.
//!
//! Each function is the decision behind one caller request; reading input
//! events and persisting the configuration stay with the caller.

use vstd::prelude::*;

verus! {

use crate::config::{AppData, GlobalHotkey, TempHotkeyState};
use crate::norm::{normalize_chars, spec_normalize_key};
use crate::text::{chars_to_string, contains_string, str_chars};

/// Starts key capture: the capture buffer empties.
pub fn begin_key_capture(app_data: &mut AppData)
    ensures
        final(app_data).captured_keys@.len() == 0,
        final(app_data).selected_keys == old(app_data).selected_keys,
        final(app_data).global_keybind == old(app_data).global_keybind,
        final(app_data).interval_ms == old(app_data).interval_ms,
        final(app_data).key_behavior == old(app_data).key_behavior,
        final(app_data).modifier_behavior == old(app_data).modifier_behavior,
        final(app_data).hold_behavior == old(app_data).hold_behavior,
        final(app_data).capturing_global_hotkey == old(app_data).capturing_global_hotkey,
        final(app_data).temp_hotkey == old(app_data).temp_hotkey,
{
    app_data.captured_keys.clear();
}

/// Ends key capture: the captured names become the selected key set.
pub fn finalize_captured_keys(app_data: &mut AppData)
    ensures
        final(app_data).selected_keys@ == old(app_data).captured_keys@,
        final(app_data).captured_keys == old(app_data).captured_keys,
        final(app_data).global_keybind == old(app_data).global_keybind,
        final(app_data).interval_ms == old(app_data).interval_ms,
        final(app_data).key_behavior == old(app_data).key_behavior,
        final(app_data).modifier_behavior == old(app_data).modifier_behavior,
        final(app_data).hold_behavior == old(app_data).hold_behavior,
        final(app_data).capturing_global_hotkey == old(app_data).capturing_global_hotkey,
        final(app_data).temp_hotkey == old(app_data).temp_hotkey,
{
    let mut copy: Vec<String> = Vec::new();
    let mut i: usize = 0;
    while i < app_data.captured_keys.len()
        invariant
            i <= app_data.captured_keys@.len(),
            copy@ == app_data.captured_keys@.subrange(0, i as int),
            app_data == old(app_data),
        decreases app_data.captured_keys@.len() - i,
    {
        copy.push(app_data.captured_keys[i].clone());
        i = i + 1;
        proof {
            assert(copy@ =~= app_data.captured_keys@.subrange(0, i as int));
        }
    }
    proof {
        assert(copy@ =~= app_data.captured_keys@);
    }
    app_data.selected_keys = copy;
}

/// Starts global-hotkey capture: the flag rises and the staging state
/// empties.
pub fn begin_global_hotkey_capture(app_data: &mut AppData)
    ensures
        final(app_data).capturing_global_hotkey,
        final(app_data).temp_hotkey.key is None,
        final(app_data).temp_hotkey.modifiers.spec_is_empty(),
        final(app_data).captured_keys == old(app_data).captured_keys,
        final(app_data).selected_keys == old(app_data).selected_keys,
        final(app_data).global_keybind == old(app_data).global_keybind,
        final(app_data).interval_ms == old(app_data).interval_ms,
        final(app_data).key_behavior == old(app_data).key_behavior,
        final(app_data).modifier_behavior == old(app_data).modifier_behavior,
        final(app_data).hold_behavior == old(app_data).hold_behavior,
{
    app_data.capturing_global_hotkey = true;
    app_data.temp_hotkey = TempHotkeyState::default();
}

/// Abandons global-hotkey capture: the flag drops and the binding stays.
pub fn cancel_global_hotkey_capture(app_data: &mut AppData)
    ensures
        !final(app_data).capturing_global_hotkey,
        final(app_data).captured_keys == old(app_data).captured_keys,
        final(app_data).selected_keys == old(app_data).selected_keys,
        final(app_data).global_keybind == old(app_data).global_keybind,
        final(app_data).interval_ms == old(app_data).interval_ms,
        final(app_data).key_behavior == old(app_data).key_behavior,
        final(app_data).modifier_behavior == old(app_data).modifier_behavior,
        final(app_data).hold_behavior == old(app_data).hold_behavior,
        final(app_data).temp_hotkey == old(app_data).temp_hotkey,
{
    app_data.capturing_global_hotkey = false;
}

/// Takes one key event. While a global hotkey is being captured it stages
/// that binding; while keys are being captured it records the name once;
/// otherwise it does nothing.
pub fn record_key_event(
    app_data: &mut AppData,
    normalized: String,
    ctrl: bool,
    alt: bool,
    shift: bool,
    super_key: bool,
    is_capturing: bool,
)
    ensures
        old(app_data).capturing_global_hotkey ==> (final(app_data).temp_hotkey.key matches Some(k)
            && k@ == normalized@
            && final(app_data).temp_hotkey.modifiers.ctrl == ctrl
            && final(app_data).temp_hotkey.modifiers.alt == alt
            && final(app_data).temp_hotkey.modifiers.shift == shift
            && final(app_data).temp_hotkey.modifiers.super_key == super_key
            && final(app_data).captured_keys == old(app_data).captured_keys),
        !old(app_data).capturing_global_hotkey && is_capturing && !(exists|i: int|
            0 <= i < old(app_data).captured_keys@.len() && old(app_data).captured_keys@[i]@
                == normalized@) ==> final(app_data).captured_keys@ == old(app_data).captured_keys@.push(normalized) && final(app_data).temp_hotkey == old(app_data).temp_hotkey,
        !old(app_data).capturing_global_hotkey && (!is_capturing || (exists|i: int|
            0 <= i < old(app_data).captured_keys@.len() && old(app_data).captured_keys@[i]@
                == normalized@)) ==> final(app_data).captured_keys == old(app_data).captured_keys
            && final(app_data).temp_hotkey == old(app_data).temp_hotkey,
        final(app_data).selected_keys == old(app_data).selected_keys,
        final(app_data).global_keybind == old(app_data).global_keybind,
        final(app_data).interval_ms == old(app_data).interval_ms,
        final(app_data).key_behavior == old(app_data).key_behavior,
        final(app_data).modifier_behavior == old(app_data).modifier_behavior,
        final(app_data).hold_behavior == old(app_data).hold_behavior,
        final(app_data).capturing_global_hotkey == old(app_data).capturing_global_hotkey,
{
    if app_data.capturing_global_hotkey {
        app_data.temp_hotkey = TempHotkeyState {
            key: Some(normalized),
            modifiers: crate::config::HotkeyModifiers { ctrl, alt, shift, super_key },
        };
    } else if is_capturing {
        if !contains_string(&app_data.captured_keys, &normalized) {
            app_data.captured_keys.push(normalized);
        }
    }
}

/// Commits a captured hotkey: the staged key, normalized, with the staged
/// modifiers, becomes the binding; with nothing staged the binding stays.
/// Either way the capture flag drops.
pub fn finalize_global_hotkey(app_data: &mut AppData)
    ensures
        !final(app_data).capturing_global_hotkey,
        (match old(app_data).temp_hotkey.key {
            Some(k) => final(app_data).global_keybind.key@ == spec_normalize_key(k@) && final(app_data).global_keybind.modifiers == old(app_data).temp_hotkey.modifiers,
            None => final(app_data).global_keybind == old(app_data).global_keybind,
        }),
        final(app_data).captured_keys == old(app_data).captured_keys,
        final(app_data).selected_keys == old(app_data).selected_keys,
        final(app_data).interval_ms == old(app_data).interval_ms,
        final(app_data).key_behavior == old(app_data).key_behavior,
        final(app_data).modifier_behavior == old(app_data).modifier_behavior,
        final(app_data).hold_behavior == old(app_data).hold_behavior,
        final(app_data).temp_hotkey == old(app_data).temp_hotkey,
{
    match &app_data.temp_hotkey.key {
        Some(k) => {
            let chars = str_chars(k.as_str());
            let n = normalize_chars(chars);
            let normalized = chars_to_string(&n);
            app_data.global_keybind = GlobalHotkey {
                key: normalized,
                modifiers: app_data.temp_hotkey.modifiers,
            };
        },
        None => {},
    }
    app_data.capturing_global_hotkey = false;
}

/// Stores a new interval. The value is kept as given; the engine clamps it
/// at every use.
pub fn set_interval(app_data: &mut AppData, interval: u64)
    ensures
        final(app_data).interval_ms == interval,
        final(app_data).captured_keys == old(app_data).captured_keys,
        final(app_data).selected_keys == old(app_data).selected_keys,
        final(app_data).global_keybind == old(app_data).global_keybind,
        final(app_data).key_behavior == old(app_data).key_behavior,
        final(app_data).modifier_behavior == old(app_data).modifier_behavior,
        final(app_data).hold_behavior == old(app_data).hold_behavior,
        final(app_data).capturing_global_hotkey == old(app_data).capturing_global_hotkey,
        final(app_data).temp_hotkey == old(app_data).temp_hotkey,
{
    app_data.interval_ms = interval;
}

} // verus!
