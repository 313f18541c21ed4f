//! Physical key identifiers and the symbolic-name lookup table.
//!
//! A [`Key`] stands for one key or button of the virtual device; callers
//! outside the library translate it to the platform's poll-side and
//! write-side codes. The lookup table maps the symbolic names used in the
//! configuration to these identifiers.

use vstd::prelude::*;

verus! {

use crate::config::{AppData, GlobalHotkey};
use crate::norm::{
    normalize_chars, spec_ascii_upper, spec_is_single_byte, spec_normalize_key, spec_starts_with,
    spec_trim, trim_vec,
};
use crate::text::{chars_eq_str, str_chars, subvec};
use vstd::string::StrSliceExecFns;

/// One physical key or button the simulator can press.
#[derive(Debug, Clone, Copy, PartialEq, Eq, Structural)]
pub enum Key {
    A,
    B,
    C,
    D,
    E,
    F,
    G,
    H,
    I,
    J,
    K,
    L,
    M,
    N,
    O,
    P,
    Q,
    R,
    S,
    T,
    U,
    V,
    W,
    X,
    Y,
    Z,
    Num0,
    Num1,
    Num2,
    Num3,
    Num4,
    Num5,
    Num6,
    Num7,
    Num8,
    Num9,
    F1,
    F2,
    F3,
    F4,
    F5,
    F6,
    F7,
    F8,
    F9,
    F10,
    F11,
    F12,
    Numpad0,
    Numpad1,
    Numpad2,
    Numpad3,
    Numpad4,
    Numpad5,
    Numpad6,
    Numpad7,
    Numpad8,
    Numpad9,
    LeftCtrl,
    RightCtrl,
    LeftShift,
    RightShift,
    LeftAlt,
    RightAlt,
    LeftMeta,
    RightMeta,
    CapsLock,
    NumLock,
    ScrollLock,
    Space,
    Backspace,
    Tab,
    Enter,
    Escape,
    Comma,
    Dot,
    Slash,
    Semicolon,
    Apostrophe,
    LeftBracket,
    RightBracket,
    Iso102,
    Minus,
    Equal,
    Backslash,
    Grave,
    Insert,
    Home,
    PageUp,
    Delete,
    End,
    PageDown,
    ArrowRight,
    ArrowLeft,
    ArrowDown,
    ArrowUp,
    BtnLeft,
    BtnMiddle,
    BtnRight,
    Ae,
    Oe,
    Aa,
}

/// Classification used to pulse modifiers ahead of other keys.
pub open spec fn spec_is_modifier(k: Key) -> bool {
    match k {
        Key::LeftShift
        | Key::RightShift
        | Key::LeftCtrl
        | Key::RightCtrl
        | Key::LeftAlt
        | Key::RightAlt
        | Key::LeftMeta
        | Key::RightMeta
        | Key::CapsLock
        | Key::NumLock
        | Key::ScrollLock => true,
        _ => false,
    }
}

/// A key is a modifier when it is a shift, control, alt, or meta key, or one
/// of the three lock keys.
pub fn is_modifier_evcode(k: &Key) -> (r: bool)
    ensures
        r == spec_is_modifier(*k),
{
    match k {
        Key::LeftShift
        | Key::RightShift
        | Key::LeftCtrl
        | Key::RightCtrl
        | Key::LeftAlt
        | Key::RightAlt
        | Key::LeftMeta
        | Key::RightMeta
        | Key::CapsLock
        | Key::NumLock
        | Key::ScrollLock => true,
        _ => false,
    }
}

/// The table entry for a one-character symbolic name.
pub open spec fn spec_single_key(c: char) -> Option<Key> {
    match c {
        'A' => Some(Key::A),
        'B' => Some(Key::B),
        'C' => Some(Key::C),
        'D' => Some(Key::D),
        'E' => Some(Key::E),
        'F' => Some(Key::F),
        'G' => Some(Key::G),
        'H' => Some(Key::H),
        'I' => Some(Key::I),
        'J' => Some(Key::J),
        'K' => Some(Key::K),
        'L' => Some(Key::L),
        'M' => Some(Key::M),
        'N' => Some(Key::N),
        'O' => Some(Key::O),
        'P' => Some(Key::P),
        'Q' => Some(Key::Q),
        'R' => Some(Key::R),
        'S' => Some(Key::S),
        'T' => Some(Key::T),
        'U' => Some(Key::U),
        'V' => Some(Key::V),
        'W' => Some(Key::W),
        'X' => Some(Key::X),
        'Y' => Some(Key::Y),
        'Z' => Some(Key::Z),
        '0' => Some(Key::Num0),
        '1' => Some(Key::Num1),
        '2' => Some(Key::Num2),
        '3' => Some(Key::Num3),
        '4' => Some(Key::Num4),
        '5' => Some(Key::Num5),
        '6' => Some(Key::Num6),
        '7' => Some(Key::Num7),
        '8' => Some(Key::Num8),
        '9' => Some(Key::Num9),
        ',' => Some(Key::Comma),
        '.' => Some(Key::Dot),
        '/' => Some(Key::Slash),
        ';' => Some(Key::Semicolon),
        '\'' => Some(Key::Apostrophe),
        '[' => Some(Key::LeftBracket),
        ']' => Some(Key::RightBracket),
        '<' => Some(Key::Iso102),
        '-' => Some(Key::Minus),
        '=' => Some(Key::Equal),
        '`' => Some(Key::Grave),
        '\u{e6}' => Some(Key::Ae),
        '\u{f8}' => Some(Key::Oe),
        '\u{e5}' => Some(Key::Aa),
        _ => None,
    }
}

/// The table entry for a symbolic name of two or more characters.
pub open spec fn spec_multi_key(s: Seq<char>) -> Option<Key> {
    if s == "BTN_LEFT"@ {
        Some(Key::BtnLeft)
    } else if s == "BTN_MIDDLE"@ {
        Some(Key::BtnMiddle)
    } else if s == "BTN_RIGHT"@ {
        Some(Key::BtnRight)
    } else if s == "KP0"@ {
        Some(Key::Numpad0)
    } else if s == "KP1"@ {
        Some(Key::Numpad1)
    } else if s == "KP2"@ {
        Some(Key::Numpad2)
    } else if s == "KP3"@ {
        Some(Key::Numpad3)
    } else if s == "KP4"@ {
        Some(Key::Numpad4)
    } else if s == "KP5"@ {
        Some(Key::Numpad5)
    } else if s == "KP6"@ {
        Some(Key::Numpad6)
    } else if s == "KP7"@ {
        Some(Key::Numpad7)
    } else if s == "KP8"@ {
        Some(Key::Numpad8)
    } else if s == "KP9"@ {
        Some(Key::Numpad9)
    } else if s == "F1"@ {
        Some(Key::F1)
    } else if s == "F2"@ {
        Some(Key::F2)
    } else if s == "F3"@ {
        Some(Key::F3)
    } else if s == "F4"@ {
        Some(Key::F4)
    } else if s == "F5"@ {
        Some(Key::F5)
    } else if s == "F6"@ {
        Some(Key::F6)
    } else if s == "F7"@ {
        Some(Key::F7)
    } else if s == "F8"@ {
        Some(Key::F8)
    } else if s == "F9"@ {
        Some(Key::F9)
    } else if s == "F10"@ {
        Some(Key::F10)
    } else if s == "F11"@ {
        Some(Key::F11)
    } else if s == "F12"@ {
        Some(Key::F12)
    } else if s == "Control"@ {
        Some(Key::LeftCtrl)
    } else if s == "Shift"@ {
        Some(Key::LeftShift)
    } else if s == "Alt"@ {
        Some(Key::LeftAlt)
    } else if s == "AltGraph"@ {
        Some(Key::RightAlt)
    } else if s == "Super"@ {
        Some(Key::LeftMeta)
    } else if s == "Space"@ {
        Some(Key::Space)
    } else if s == "Backspace"@ {
        Some(Key::Backspace)
    } else if s == "Tab"@ {
        Some(Key::Tab)
    } else if s == "Enter"@ {
        Some(Key::Enter)
    } else if s == "Escape"@ {
        Some(Key::Escape)
    } else if s == "CapsLock"@ {
        Some(Key::CapsLock)
    } else if s == "Insert"@ {
        Some(Key::Insert)
    } else if s == "Home"@ {
        Some(Key::Home)
    } else if s == "PageUp"@ {
        Some(Key::PageUp)
    } else if s == "Delete"@ {
        Some(Key::Delete)
    } else if s == "End"@ {
        Some(Key::End)
    } else if s == "PageDown"@ {
        Some(Key::PageDown)
    } else if s == "ArrowRight"@ {
        Some(Key::ArrowRight)
    } else if s == "ArrowLeft"@ {
        Some(Key::ArrowLeft)
    } else if s == "ArrowDown"@ {
        Some(Key::ArrowDown)
    } else if s == "ArrowUp"@ {
        Some(Key::ArrowUp)
    } else if s == "\\\\"@ {
        Some(Key::Backslash)
    } else {
        None
    }
}

/// The full symbolic-name lookup table.
pub open spec fn spec_key_lookup(s: Seq<char>) -> Option<Key> {
    if s.len() == 1 {
        spec_single_key(s[0])
    } else {
        spec_multi_key(s)
    }
}

/// Looks a symbolic name up in the key table.
#[verifier::rlimit(50)]
pub fn key_lookup(v: &Vec<char>) -> (r: Option<Key>)
    ensures
        r == spec_key_lookup(v@),
{
    if v.len() == 1 {
        let c = v[0];
        match c {
            'A' => Some(Key::A),
            'B' => Some(Key::B),
            'C' => Some(Key::C),
            'D' => Some(Key::D),
            'E' => Some(Key::E),
            'F' => Some(Key::F),
            'G' => Some(Key::G),
            'H' => Some(Key::H),
            'I' => Some(Key::I),
            'J' => Some(Key::J),
            'K' => Some(Key::K),
            'L' => Some(Key::L),
            'M' => Some(Key::M),
            'N' => Some(Key::N),
            'O' => Some(Key::O),
            'P' => Some(Key::P),
            'Q' => Some(Key::Q),
            'R' => Some(Key::R),
            'S' => Some(Key::S),
            'T' => Some(Key::T),
            'U' => Some(Key::U),
            'V' => Some(Key::V),
            'W' => Some(Key::W),
            'X' => Some(Key::X),
            'Y' => Some(Key::Y),
            'Z' => Some(Key::Z),
            '0' => Some(Key::Num0),
            '1' => Some(Key::Num1),
            '2' => Some(Key::Num2),
            '3' => Some(Key::Num3),
            '4' => Some(Key::Num4),
            '5' => Some(Key::Num5),
            '6' => Some(Key::Num6),
            '7' => Some(Key::Num7),
            '8' => Some(Key::Num8),
            '9' => Some(Key::Num9),
            ',' => Some(Key::Comma),
            '.' => Some(Key::Dot),
            '/' => Some(Key::Slash),
            ';' => Some(Key::Semicolon),
            '\'' => Some(Key::Apostrophe),
            '[' => Some(Key::LeftBracket),
            ']' => Some(Key::RightBracket),
            '<' => Some(Key::Iso102),
            '-' => Some(Key::Minus),
            '=' => Some(Key::Equal),
            '`' => Some(Key::Grave),
            '\u{e6}' => Some(Key::Ae),
            '\u{f8}' => Some(Key::Oe),
            '\u{e5}' => Some(Key::Aa),
            _ => None,
        }
    } else {
        if chars_eq_str(v, "BTN_LEFT") {
            Some(Key::BtnLeft)
        } else if chars_eq_str(v, "BTN_MIDDLE") {
            Some(Key::BtnMiddle)
        } else if chars_eq_str(v, "BTN_RIGHT") {
            Some(Key::BtnRight)
        } else if chars_eq_str(v, "KP0") {
            Some(Key::Numpad0)
        } else if chars_eq_str(v, "KP1") {
            Some(Key::Numpad1)
        } else if chars_eq_str(v, "KP2") {
            Some(Key::Numpad2)
        } else if chars_eq_str(v, "KP3") {
            Some(Key::Numpad3)
        } else if chars_eq_str(v, "KP4") {
            Some(Key::Numpad4)
        } else if chars_eq_str(v, "KP5") {
            Some(Key::Numpad5)
        } else if chars_eq_str(v, "KP6") {
            Some(Key::Numpad6)
        } else if chars_eq_str(v, "KP7") {
            Some(Key::Numpad7)
        } else if chars_eq_str(v, "KP8") {
            Some(Key::Numpad8)
        } else if chars_eq_str(v, "KP9") {
            Some(Key::Numpad9)
        } else if chars_eq_str(v, "F1") {
            Some(Key::F1)
        } else if chars_eq_str(v, "F2") {
            Some(Key::F2)
        } else if chars_eq_str(v, "F3") {
            Some(Key::F3)
        } else if chars_eq_str(v, "F4") {
            Some(Key::F4)
        } else if chars_eq_str(v, "F5") {
            Some(Key::F5)
        } else if chars_eq_str(v, "F6") {
            Some(Key::F6)
        } else if chars_eq_str(v, "F7") {
            Some(Key::F7)
        } else if chars_eq_str(v, "F8") {
            Some(Key::F8)
        } else if chars_eq_str(v, "F9") {
            Some(Key::F9)
        } else if chars_eq_str(v, "F10") {
            Some(Key::F10)
        } else if chars_eq_str(v, "F11") {
            Some(Key::F11)
        } else if chars_eq_str(v, "F12") {
            Some(Key::F12)
        } else if chars_eq_str(v, "Control") {
            Some(Key::LeftCtrl)
        } else if chars_eq_str(v, "Shift") {
            Some(Key::LeftShift)
        } else if chars_eq_str(v, "Alt") {
            Some(Key::LeftAlt)
        } else if chars_eq_str(v, "AltGraph") {
            Some(Key::RightAlt)
        } else if chars_eq_str(v, "Super") {
            Some(Key::LeftMeta)
        } else if chars_eq_str(v, "Space") {
            Some(Key::Space)
        } else if chars_eq_str(v, "Backspace") {
            Some(Key::Backspace)
        } else if chars_eq_str(v, "Tab") {
            Some(Key::Tab)
        } else if chars_eq_str(v, "Enter") {
            Some(Key::Enter)
        } else if chars_eq_str(v, "Escape") {
            Some(Key::Escape)
        } else if chars_eq_str(v, "CapsLock") {
            Some(Key::CapsLock)
        } else if chars_eq_str(v, "Insert") {
            Some(Key::Insert)
        } else if chars_eq_str(v, "Home") {
            Some(Key::Home)
        } else if chars_eq_str(v, "PageUp") {
            Some(Key::PageUp)
        } else if chars_eq_str(v, "Delete") {
            Some(Key::Delete)
        } else if chars_eq_str(v, "End") {
            Some(Key::End)
        } else if chars_eq_str(v, "PageDown") {
            Some(Key::PageDown)
        } else if chars_eq_str(v, "ArrowRight") {
            Some(Key::ArrowRight)
        } else if chars_eq_str(v, "ArrowLeft") {
            Some(Key::ArrowLeft)
        } else if chars_eq_str(v, "ArrowDown") {
            Some(Key::ArrowDown)
        } else if chars_eq_str(v, "ArrowUp") {
            Some(Key::ArrowUp)
        } else if chars_eq_str(v, "\\\\") {
            Some(Key::Backslash)
        } else {
            None
        }
    }
}

/// Strips every leading `KEY_` prefix, one after the other.
pub open spec fn spec_strip_key_prefixes(s: Seq<char>) -> Seq<char>
    decreases s.len(),
{
    if spec_starts_with(s, "KEY_"@) && "KEY_"@.len() > 0 {
        spec_strip_key_prefixes(s.subrange("KEY_"@.len() as int, s.len() as int))
    } else {
        s
    }
}

/// ASCII-uppercases every character of a name.
pub open spec fn spec_upper_all(s: Seq<char>) -> Seq<char> {
    s.map_values(|c: char| spec_ascii_upper(c))
}

/// The translation of a symbolic name to a key: the table entry for the name
/// itself, then for the name with its `KEY_` prefixes dropped, then for a
/// single one-byte character uppercased, and last for the whole name
/// ASCII-uppercased with its `KEY_` prefixes dropped — so `key_f9` and
/// `Key_A` resolve like their canonical forms.
pub open spec fn spec_key_to_device_keycode(s: Seq<char>) -> Option<Key> {
    if spec_key_lookup(s) is Some {
        spec_key_lookup(s)
    } else if spec_key_lookup(spec_strip_key_prefixes(s)) is Some {
        spec_key_lookup(spec_strip_key_prefixes(s))
    } else if spec_is_single_byte(s) && spec_key_lookup(seq![spec_ascii_upper(s[0])]) is Some {
        spec_key_lookup(seq![spec_ascii_upper(s[0])])
    } else {
        spec_key_lookup(spec_strip_key_prefixes(spec_upper_all(s)))
    }
}

/// Strips every leading `KEY_` prefix from the character vector.
fn strip_key_prefixes(v: Vec<char>) -> (r: Vec<char>)
    ensures
        r@ == spec_strip_key_prefixes(v@),
{
    proof {
        reveal_strlit("KEY_");
        assert("KEY_"@.len() == 4);
    }
    let ghost orig = v@;
    let wl = "KEY_".unicode_len();
    let mut v = v;
    loop
        invariant
            wl == 4,
            "KEY_"@.len() == 4,
            spec_strip_key_prefixes(v@) == spec_strip_key_prefixes(orig),
        ensures
            v@ == spec_strip_key_prefixes(orig),
        decreases v@.len(),
    {
        let is_prefixed = v.len() >= wl && {
            let p = subvec(&v, 0, wl);
            chars_eq_str(&p, "KEY_")
        };
        if !is_prefixed {
            break ;
        }
        v = subvec(&v, wl, v.len());
    }
    v
}

/// ASCII-uppercases every character of a name.
fn upper_chars(v: &Vec<char>) -> (r: Vec<char>)
    ensures
        r@ == spec_upper_all(v@),
{
    let mut r: Vec<char> = Vec::new();
    let mut i: usize = 0;
    while i < v.len()
        invariant
            i <= v@.len(),
            r@.len() == i,
            forall|j: int| 0 <= j < i ==> r@[j] == spec_ascii_upper(v@[j]),
        decreases v@.len() - i,
    {
        r.push(ascii_upper_exec(v[i]));
        i = i + 1;
    }
    proof {
        assert(r@ =~= spec_upper_all(v@));
    }
    r
}

/// The translation chain on a character vector.
fn keycode_for_chars(v: &Vec<char>) -> (r: Option<Key>)
    ensures
        r == spec_key_to_device_keycode(v@),
{
    if let Some(k) = key_lookup(v) {
        return Some(k);
    }
    let stripped = strip_key_prefixes(subvec(v, 0, v.len()));
    proof {
        assert(v@.subrange(0, v@.len() as int) =~= v@);
    }
    if let Some(k) = key_lookup(&stripped) {
        return Some(k);
    }
    if v.len() == 1 && (v[0] as u32) < 128 {
        let u = ascii_upper_exec(v[0]);
        let mut uv: Vec<char> = Vec::new();
        uv.push(u);
        proof {
            assert(uv@ =~= seq![spec_ascii_upper(v@[0])]);
        }
        if let Some(k) = key_lookup(&uv) {
            return Some(k);
        }
    }
    let upper = upper_chars(v);
    let upper_stripped = strip_key_prefixes(upper);
    key_lookup(&upper_stripped)
}

/// Uppercases one ASCII letter; anything else is unchanged.
fn ascii_upper_exec(c: char) -> (r: char)
    ensures
        r == spec_ascii_upper(c),
{
    match c {
        'a' => 'A',
        'b' => 'B',
        'c' => 'C',
        'd' => 'D',
        'e' => 'E',
        'f' => 'F',
        'g' => 'G',
        'h' => 'H',
        'i' => 'I',
        'j' => 'J',
        'k' => 'K',
        'l' => 'L',
        'm' => 'M',
        'n' => 'N',
        'o' => 'O',
        'p' => 'P',
        'q' => 'Q',
        'r' => 'R',
        's' => 'S',
        't' => 'T',
        'u' => 'U',
        'v' => 'V',
        'w' => 'W',
        'x' => 'X',
        'y' => 'Y',
        'z' => 'Z',
        _ => c,
    }
}

/// Translates a symbolic name to a key: by the table, by the table after
/// dropping `KEY_` prefixes, or by the table after uppercasing a single
/// character.
pub fn key_to_device_keycode(key: &str) -> (r: Option<Key>)
    ensures
        r == spec_key_to_device_keycode(key@),
{
    let v = str_chars(key);
    keycode_for_chars(&v)
}

/// The translation of a raw key name: normalize, then look the name up.
pub open spec fn spec_raw_key_to_device_keycode(s: Seq<char>) -> Option<Key> {
    spec_key_to_device_keycode(spec_normalize_key(s))
}

/// Translates a raw key name from the configuration into a key.
pub fn raw_key_to_device_keycode(raw: &String) -> (r: Option<Key>)
    ensures
        r == spec_raw_key_to_device_keycode(raw@),
{
    let v = str_chars(raw.as_str());
    let n = normalize_chars(v);
    keycode_for_chars(&n)
}

/// The key the listener watches for a given configured name: the translated
/// name, or F8 when the name is empty, cannot be normalized, or is unknown.
pub open spec fn spec_validate_hotkey(key: Seq<char>) -> Key {
    let t = spec_trim(key);
    if t.len() == 0 {
        match spec_key_to_device_keycode(spec_normalize_key("F8"@)) {
            Some(k) => k,
            None => Key::F8,
        }
    } else {
        let n = spec_normalize_key(t);
        if n.len() == 0 {
            Key::F8
        } else {
            match spec_key_to_device_keycode(n) {
                Some(k) => k,
                None => Key::F8,
            }
        }
    }
}

/// The fallback hotkey used when the configured binding is unusable.
fn fallback_hotkey() -> (r: Key)
    ensures
        r == Key::F8,
{
    Key::F8
}

/// Resolves the configured global hotkey, falling back to F8 when the
/// configured name is empty, normalizes to nothing, or is untranslatable.
pub fn validate_hotkey(app_data: &AppData) -> (r: Key)
    ensures
        r == spec_validate_hotkey(app_data.global_keybind.key@),
{
    let v = str_chars(app_data.global_keybind.key.as_str());
    let t = trim_vec(v);
    if t.len() == 0 {
        let d = GlobalHotkey::default();
        let dv = str_chars(d.key.as_str());
        let n = normalize_chars(dv);
        match keycode_for_chars(&n) {
            Some(k) => k,
            None => fallback_hotkey(),
        }
    } else {
        let n = normalize_chars(t);
        if n.len() == 0 {
            fallback_hotkey()
        } else {
            match keycode_for_chars(&n) {
                Some(k) => k,
                None => fallback_hotkey(),
            }
        }
    }
}

} // verus!
