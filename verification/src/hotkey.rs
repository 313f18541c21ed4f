//! The global hotkey listener's decisions.
//!
//! A poller reads the instantaneous pressed-key set at a fixed cadence and
//! hands it in here. The library decides whether the configured binding
//! matches, detects the rising edge that triggers the callback, and
//! throttles the warnings of a misconfigured binding.

use vstd::prelude::*;

verus! {

use crate::config::{AppData, GlobalHotkey, HotkeyModifiers};
use crate::constants::LOG_THROTTLE_MS;
use crate::keymap::{spec_validate_hotkey, validate_hotkey, Key};
use vstd::string::{StrSliceExecFns, StringExecFns};

/// The binding matches the pressed-key set: the bound key is down, and every
/// required modifier class has a left or right key down. A modifier class
/// constrains the match only when its flag is set.
pub open spec fn spec_hotkey_active(keys: Seq<Key>, hotkey: Key, m: HotkeyModifiers) -> bool {
    &&& keys.contains(hotkey)
    &&& (m.ctrl ==> keys.contains(Key::LeftCtrl) || keys.contains(Key::RightCtrl))
    &&& (m.alt ==> keys.contains(Key::LeftAlt) || keys.contains(Key::RightAlt))
    &&& (m.shift ==> keys.contains(Key::LeftShift) || keys.contains(Key::RightShift))
    &&& (m.super_key ==> keys.contains(Key::LeftMeta) || keys.contains(Key::RightMeta))
}

/// Whether `k` is among the pressed keys.
fn contains_key(v: &Vec<Key>, k: Key) -> (r: bool)
    ensures
        r == v@.contains(k),
{
    let mut i: usize = 0;
    while i < v.len()
        invariant
            i <= v@.len(),
            forall|j: int| 0 <= j < i ==> v@[j] != k,
        decreases v@.len() - i,
    {
        if v[i] == k {
            return true;
        }
        i = i + 1;
    }
    false
}

/// Decides whether the binding matches the instantaneous pressed-key set.
pub fn is_hotkey_active(keys: &Vec<Key>, hotkey: Key, global_keybind: &GlobalHotkey) -> (r: bool)
    ensures
        r == spec_hotkey_active(keys@, hotkey, global_keybind.modifiers),
{
    let key_pressed = contains_key(keys, hotkey);
    let m = &global_keybind.modifiers;
    let ctrl_match = !m.ctrl || contains_key(keys, Key::LeftCtrl) || contains_key(
        keys,
        Key::RightCtrl,
    );
    let alt_match = !m.alt || contains_key(keys, Key::LeftAlt) || contains_key(
        keys,
        Key::RightAlt,
    );
    let shift_match = !m.shift || contains_key(keys, Key::LeftShift) || contains_key(
        keys,
        Key::RightShift,
    );
    let super_match = !m.super_key || contains_key(keys, Key::LeftMeta) || contains_key(
        keys,
        Key::RightMeta,
    );
    key_pressed && ctrl_match && alt_match && shift_match && super_match
}

/// The edge detector: the match seen on the previous poll, and when the last
/// accepted toggle fired.
#[derive(Debug, Clone, Copy, PartialEq, Eq, Structural)]
pub struct DebounceState {
    pub last_match: bool,
    pub last_toggle_ms: Option<u64>,
}

impl DebounceState {
    /// A detector that has seen nothing pressed.
    pub fn new() -> (r: DebounceState)
        ensures
            !r.last_match,
            r.last_toggle_ms is None,
    {
        DebounceState { last_match: false, last_toggle_ms: None }
    }

    /// Feeds one poll's match. The callback fires exactly on the
    /// not-matched-to-matched transition, and the remembered state updates
    /// every poll unconditionally, so a release and re-press re-triggers.
    pub fn observe(&mut self, matched: bool, now_ms: u64) -> (fired: bool)
        ensures
            fired == (matched && !old(self).last_match),
            final(self).last_match == matched,
            final(self).last_toggle_ms == if fired {
                Some(now_ms)
            } else {
                old(self).last_toggle_ms
            },
    {
        let fired = matched && !self.last_match;
        self.last_match = matched;
        if fired {
            self.last_toggle_ms = Some(now_ms);
        }
        fired
    }
}

/// Throttle of one warning category: when it last logged.
#[derive(Debug, Clone, Copy, PartialEq, Eq, Structural)]
pub struct LogThrottle {
    pub last_logged_ms: Option<u64>,
}

impl LogThrottle {
    /// A throttle that has not logged yet.
    pub fn new() -> (r: LogThrottle)
        ensures
            r.last_logged_ms is None,
    {
        LogThrottle { last_logged_ms: None }
    }

    /// Whether a warning may go out now: the first one always, a later one
    /// only [`LOG_THROTTLE_MS`] after the last accepted one.
    pub fn should_log(&mut self, now_ms: u64) -> (log: bool)
        ensures
            log == match old(self).last_logged_ms {
                None => true,
                Some(t) => now_ms as int >= t as int + LOG_THROTTLE_MS as int,
            },
            final(self).last_logged_ms == if log {
                Some(now_ms)
            } else {
                old(self).last_logged_ms
            },
    {
        let log = match self.last_logged_ms {
            None => true,
            Some(t) => now_ms >= t && now_ms - t >= LOG_THROTTLE_MS,
        };
        if log {
            self.last_logged_ms = Some(now_ms);
        }
        log
    }
}

/// Restores the default binding where the configured one is empty, so the
/// poller never runs on an empty key name. Reports whether anything changed,
/// so the caller knows to persist the configuration.
pub fn ensure_binding_default(app_data: &mut AppData) -> (changed: bool)
    ensures
        changed == (old(app_data).global_keybind.key@.len() == 0),
        changed ==> final(app_data).global_keybind.key@ == "F8"@
            && final(app_data).global_keybind.modifiers.spec_is_empty(),
        !changed ==> final(app_data).global_keybind == old(app_data).global_keybind,
        final(app_data).captured_keys == old(app_data).captured_keys,
        final(app_data).selected_keys == old(app_data).selected_keys,
        final(app_data).interval_ms == old(app_data).interval_ms,
        final(app_data).key_behavior == old(app_data).key_behavior,
        final(app_data).modifier_behavior == old(app_data).modifier_behavior,
        final(app_data).hold_behavior == old(app_data).hold_behavior,
        final(app_data).capturing_global_hotkey == old(app_data).capturing_global_hotkey,
        final(app_data).temp_hotkey == old(app_data).temp_hotkey,
{
    if app_data.global_keybind.key.as_str().is_empty() {
        app_data.global_keybind = GlobalHotkey::default();
        true
    } else {
        false
    }
}

/// One iteration of the listener: resolve the binding (falling back to F8
/// where it is unusable), match it against the pressed keys, and run the
/// edge detector. Returns whether the callback fires on this poll.
pub fn listener_iteration(
    app_data: &AppData,
    pressed: &Vec<Key>,
    st: &mut DebounceState,
    now_ms: u64,
) -> (fired: bool)
    ensures
        ({
            let hk = spec_validate_hotkey(app_data.global_keybind.key@);
            let m = spec_hotkey_active(pressed@, hk, app_data.global_keybind.modifiers);
            &&& fired == (m && !old(st).last_match)
            &&& final(st).last_match == m
            &&& final(st).last_toggle_ms == if fired {
                Some(now_ms)
            } else {
                old(st).last_toggle_ms
            }
        }),
{
    let hotkey = validate_hotkey(app_data);
    let matched = is_hotkey_active(pressed, hotkey, &app_data.global_keybind);
    st.observe(matched, now_ms)
}

/// The "+"-joined hotkey label: appends a part behind a separator when
/// something already stands there.
pub open spec fn spec_join_part(acc: Seq<char>, part: Seq<char>) -> Seq<char> {
    if acc.len() == 0 {
        part
    } else {
        acc + "+"@ + part
    }
}

/// The display label of a binding: the required modifier classes in the
/// fixed order Ctrl, Alt, Shift, Super, then the key name, joined by "+".
pub open spec fn spec_hotkey_text(
    ctrl: bool,
    alt: bool,
    shift: bool,
    super_key: bool,
    key: Option<Seq<char>>,
) -> Seq<char> {
    let a = if ctrl {
        "Ctrl"@
    } else {
        Seq::empty()
    };
    let b = if alt {
        spec_join_part(a, "Alt"@)
    } else {
        a
    };
    let c = if shift {
        spec_join_part(b, "Shift"@)
    } else {
        b
    };
    let d = if super_key {
        spec_join_part(c, "Super"@)
    } else {
        c
    };
    match key {
        Some(k) => spec_join_part(d, k),
        None => d,
    }
}

/// Appends one part to the label, with a separator when needed.
fn append_part(s: &mut String, part: &str)
    ensures
        final(s)@ == spec_join_part(old(s)@, part@),
{
    if s.as_str().is_empty() {
        s.append(part);
    } else {
        s.append("+");
        s.append(part);
    }
}

/// Formats a binding for display: required modifiers first, in the order
/// Ctrl, Alt, Shift, Super, then the key name, all joined by "+".
pub fn format_hotkey_text(
    ctrl: bool,
    alt: bool,
    shift: bool,
    super_key: bool,
    key: Option<&str>,
) -> (r: String)
    ensures
        r@ == spec_hotkey_text(
            ctrl,
            alt,
            shift,
            super_key,
            match key {
                Some(k) => Some(k@),
                None => None,
            },
        ),
{
    let mut s = String::new();
    if ctrl {
        s.append("Ctrl");
    }
    if alt {
        append_part(&mut s, "Alt");
    }
    if shift {
        append_part(&mut s, "Shift");
    }
    if super_key {
        append_part(&mut s, "Super");
    }
    if let Some(k) = key {
        append_part(&mut s, k);
    }
    s
}

} // verus!
