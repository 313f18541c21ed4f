//! Configuration data shared by the engine, the listener, and the caller.

use vstd::prelude::*;

verus! {

use crate::constants::DEFAULT_INTERVAL_MS;
use crate::text::str_eq;
use vstd::string::StringExecFns;

/// Cadence of the primary key set: repeated press/release cycles, or one
/// press held until the run stops.
#[derive(Debug, Clone, Copy, PartialEq, Eq, Structural)]
pub enum KeyBehaviorMode {
    Hold,
    Click,
}

/// In Hold mode, whether keep-alive sync events are emitted back to back or
/// once per interval.
#[derive(Debug, Clone, Copy, PartialEq, Eq, Structural)]
pub enum HoldBehaviorMode {
    Continuous,
    Cycle,
}

/// Whether modifier-class keys are pulsed individually before the other keys
/// (Click) or pressed together with them (Hold).
#[derive(Debug, Clone, Copy, PartialEq, Eq, Structural)]
pub enum ModifierBehaviorMode {
    Hold,
    Click,
}

impl KeyBehaviorMode {
    /// Parses the name of a mode; any other string is rejected.
    pub fn from_str(input: &str) -> (r: Result<KeyBehaviorMode, ()>)
        ensures
            input@ == "Click"@ ==> r == Ok::<KeyBehaviorMode, ()>(KeyBehaviorMode::Click),
            input@ == "Hold"@ ==> r == Ok::<KeyBehaviorMode, ()>(KeyBehaviorMode::Hold),
            input@ != "Click"@ && input@ != "Hold"@ ==> r == Err::<KeyBehaviorMode, ()>(()),
    {
        proof {
            reveal_strlit("Click");
            reveal_strlit("Hold");
            assert("Click"@.len() == 5);
            assert("Hold"@.len() == 4);
        }
        if str_eq(input, "Click") {
            Ok(KeyBehaviorMode::Click)
        } else if str_eq(input, "Hold") {
            Ok(KeyBehaviorMode::Hold)
        } else {
            Err(())
        }
    }

    /// The name of the mode, as persisted and displayed.
    pub fn label(&self) -> (r: String)
        ensures
            *self == KeyBehaviorMode::Click ==> r@ == "Click"@,
            *self == KeyBehaviorMode::Hold ==> r@ == "Hold"@,
    {
        match self {
            KeyBehaviorMode::Click => String::from_str("Click"),
            KeyBehaviorMode::Hold => String::from_str("Hold"),
        }
    }
}

impl Default for KeyBehaviorMode {
    fn default() -> (r: Self)
        ensures
            r == KeyBehaviorMode::Click,
    {
        KeyBehaviorMode::Click
    }
}

impl HoldBehaviorMode {
    /// Parses the name of a mode; any other string is rejected.
    pub fn from_str(input: &str) -> (r: Result<HoldBehaviorMode, ()>)
        ensures
            input@ == "Continuous"@ ==> r == Ok::<HoldBehaviorMode, ()>(
                HoldBehaviorMode::Continuous,
            ),
            input@ == "Cycle"@ ==> r == Ok::<HoldBehaviorMode, ()>(HoldBehaviorMode::Cycle),
            input@ != "Continuous"@ && input@ != "Cycle"@ ==> r == Err::<HoldBehaviorMode, ()>(()),
    {
        proof {
            reveal_strlit("Continuous");
            reveal_strlit("Cycle");
            assert("Continuous"@.len() == 10);
            assert("Cycle"@.len() == 5);
        }
        if str_eq(input, "Continuous") {
            Ok(HoldBehaviorMode::Continuous)
        } else if str_eq(input, "Cycle") {
            Ok(HoldBehaviorMode::Cycle)
        } else {
            Err(())
        }
    }

    /// The name of the mode, as persisted and displayed.
    pub fn label(&self) -> (r: String)
        ensures
            *self == HoldBehaviorMode::Continuous ==> r@ == "Continuous"@,
            *self == HoldBehaviorMode::Cycle ==> r@ == "Cycle"@,
    {
        match self {
            HoldBehaviorMode::Continuous => String::from_str("Continuous"),
            HoldBehaviorMode::Cycle => String::from_str("Cycle"),
        }
    }
}

impl Default for HoldBehaviorMode {
    fn default() -> (r: Self)
        ensures
            r == HoldBehaviorMode::Continuous,
    {
        HoldBehaviorMode::Continuous
    }
}

impl ModifierBehaviorMode {
    /// Parses the name of a mode; any other string is rejected.
    pub fn from_str(input: &str) -> (r: Result<ModifierBehaviorMode, ()>)
        ensures
            input@ == "Hold"@ ==> r == Ok::<ModifierBehaviorMode, ()>(ModifierBehaviorMode::Hold),
            input@ == "Click"@ ==> r == Ok::<ModifierBehaviorMode, ()>(
                ModifierBehaviorMode::Click,
            ),
            input@ != "Hold"@ && input@ != "Click"@ ==> r == Err::<ModifierBehaviorMode, ()>(()),
    {
        proof {
            reveal_strlit("Hold");
            reveal_strlit("Click");
            assert("Hold"@.len() == 4);
            assert("Click"@.len() == 5);
        }
        if str_eq(input, "Hold") {
            Ok(ModifierBehaviorMode::Hold)
        } else if str_eq(input, "Click") {
            Ok(ModifierBehaviorMode::Click)
        } else {
            Err(())
        }
    }

    /// The name of the mode, as persisted and displayed.
    pub fn label(&self) -> (r: String)
        ensures
            *self == ModifierBehaviorMode::Hold ==> r@ == "Hold"@,
            *self == ModifierBehaviorMode::Click ==> r@ == "Click"@,
    {
        match self {
            ModifierBehaviorMode::Hold => String::from_str("Hold"),
            ModifierBehaviorMode::Click => String::from_str("Click"),
        }
    }
}

impl Default for ModifierBehaviorMode {
    fn default() -> (r: Self)
        ensures
            r == ModifierBehaviorMode::Click,
    {
        ModifierBehaviorMode::Click
    }
}

/// The four modifier classes a hotkey binding may require.
#[derive(Debug, Clone, Copy, PartialEq, Eq, Structural)]
pub struct HotkeyModifiers {
    pub ctrl: bool,
    pub alt: bool,
    pub shift: bool,
    pub super_key: bool,
}

impl HotkeyModifiers {
    /// True when no modifier class is required.
    pub open spec fn spec_is_empty(&self) -> bool {
        !self.ctrl && !self.alt && !self.shift && !self.super_key
    }
}

impl Default for HotkeyModifiers {
    fn default() -> (r: Self)
        ensures
            r.spec_is_empty(),
    {
        HotkeyModifiers { ctrl: false, alt: false, shift: false, super_key: false }
    }
}

/// The configured global hotkey: one key name plus the modifier classes that
/// must be held together with it.
#[derive(Debug, Clone)]
pub struct GlobalHotkey {
    pub key: String,
    pub modifiers: HotkeyModifiers,
}

impl Default for GlobalHotkey {
    fn default() -> (r: Self)
        ensures
            r.key@ == "F8"@,
            r.modifiers.spec_is_empty(),
    {
        GlobalHotkey { key: String::from_str("F8"), modifiers: HotkeyModifiers::default() }
    }
}

/// A hotkey capture in progress: the key seen last, if any, and the modifiers
/// held with it.
#[derive(Debug, Clone)]
pub struct TempHotkeyState {
    pub key: Option<String>,
    pub modifiers: HotkeyModifiers,
}

impl Default for TempHotkeyState {
    fn default() -> (r: Self)
        ensures
            r.key is None,
            r.modifiers.spec_is_empty(),
    {
        TempHotkeyState { key: None, modifiers: HotkeyModifiers::default() }
    }
}

/// Everything the caller configures: the key set, the hotkey binding, the
/// interval, and the behavior modes.
#[derive(Debug)]
pub struct AppData {
    pub captured_keys: Vec<String>,
    pub selected_keys: Vec<String>,
    pub global_keybind: GlobalHotkey,
    pub interval_ms: u64,
    pub key_behavior: KeyBehaviorMode,
    pub modifier_behavior: ModifierBehaviorMode,
    pub hold_behavior: HoldBehaviorMode,
    pub capturing_global_hotkey: bool,
    pub temp_hotkey: TempHotkeyState,
}

impl Default for AppData {
    fn default() -> (r: Self)
        ensures
            r.captured_keys@.len() == 0,
            r.selected_keys@.len() == 0,
            r.global_keybind.key@ == "F8"@,
            r.global_keybind.modifiers.spec_is_empty(),
            r.interval_ms == DEFAULT_INTERVAL_MS,
            r.key_behavior == KeyBehaviorMode::Click,
            r.modifier_behavior == ModifierBehaviorMode::Click,
            r.hold_behavior == HoldBehaviorMode::Continuous,
            !r.capturing_global_hotkey,
            r.temp_hotkey.key is None,
    {
        AppData {
            captured_keys: Vec::new(),
            selected_keys: Vec::new(),
            global_keybind: GlobalHotkey::default(),
            interval_ms: DEFAULT_INTERVAL_MS,
            key_behavior: KeyBehaviorMode::default(),
            modifier_behavior: ModifierBehaviorMode::default(),
            hold_behavior: HoldBehaviorMode::default(),
            capturing_global_hotkey: false,
            temp_hotkey: TempHotkeyState::default(),
        }
    }
}

} // verus!
