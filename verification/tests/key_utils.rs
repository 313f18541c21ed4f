use input_simulator::keymap::{
    is_modifier_evcode, key_to_device_keycode, raw_key_to_device_keycode, Key,
};
use input_simulator::norm::normalize_key;

#[test]
fn test_normalize_key_examples() {
    // Example 1: Input: Character("a") => Expected Output: A
    assert_eq!(normalize_key("Character(\"a\")"), "A");
    // Example 2: Input: "a" with stray whitespace and quote => Expected Output: A
    assert_eq!(normalize_key(" \"a\" "), "A");
    // Example 3: Input: Named(F8) => Expected Output: F8
    assert_eq!(normalize_key("Named(F8)"), "F8");
    // Example 4: Input: KEY_A => Expected Output: A
    assert_eq!(normalize_key("KEY_A"), "A");
    // Example 5: Input: Character("Named(X)") => Expected Output: X
    assert_eq!(normalize_key("Character(\"Named(X)\")"), "X");
}

#[test]
fn test_normalize_key_altgraph() {
    // "Character(\"Named(AltGraph)\")" should become "AltGraph"
    assert_eq!(normalize_key("Character(\"Named(AltGraph)\")"), "AltGraph");
}

#[test]
fn test_normalize_key_number() {
    // "Character(\"2\")" should become "2"
    assert_eq!(normalize_key("Character(\"2\")"), "2");
}

#[test]
fn test_normalize_key_idempotent_on_examples() {
    for raw in [
        "Character(\"a\")",
        " \"a\" ",
        "Named(F8)",
        "KEY_A",
        "Character(\"Named(X)\")",
        "Character(\"Named(AltGraph)\")",
        "Character(\"2\")",
        "  KEY_F8  ",
        "BTN_LEFT",
        "Control",
        "#",
        "",
    ] {
        let once = normalize_key(raw);
        let twice = normalize_key(&once);
        assert_eq!(twice, once);
    }
}

#[test]
fn test_key_table_lookup() {
    assert_eq!(key_to_device_keycode("A"), Some(Key::A));
    assert_eq!(key_to_device_keycode("a"), Some(Key::A));
    assert_eq!(key_to_device_keycode("0"), Some(Key::Num0));
    assert_eq!(key_to_device_keycode("F12"), Some(Key::F12));
    assert_eq!(key_to_device_keycode("KP4"), Some(Key::Numpad4));
    assert_eq!(key_to_device_keycode("BTN_LEFT"), Some(Key::BtnLeft));
    assert_eq!(key_to_device_keycode("BTN_MIDDLE"), Some(Key::BtnMiddle));
    assert_eq!(key_to_device_keycode("BTN_RIGHT"), Some(Key::BtnRight));
    assert_eq!(key_to_device_keycode("Control"), Some(Key::LeftCtrl));
    assert_eq!(key_to_device_keycode("Shift"), Some(Key::LeftShift));
    assert_eq!(key_to_device_keycode("AltGraph"), Some(Key::RightAlt));
    assert_eq!(key_to_device_keycode("Super"), Some(Key::LeftMeta));
    assert_eq!(key_to_device_keycode("Space"), Some(Key::Space));
    assert_eq!(key_to_device_keycode("<"), Some(Key::Iso102));
    assert_eq!(key_to_device_keycode("æ"), Some(Key::Ae));
    assert_eq!(key_to_device_keycode("ArrowUp"), Some(Key::ArrowUp));
    assert_eq!(key_to_device_keycode("KEY_F9"), Some(Key::F9));
    assert_eq!(key_to_device_keycode("KEY_KEY_F9"), Some(Key::F9));
    assert_eq!(key_to_device_keycode("key_f9"), Some(Key::F9));
    assert_eq!(key_to_device_keycode("Key_A"), Some(Key::A));
    assert_eq!(key_to_device_keycode("no_such_key"), None);
    assert_eq!(key_to_device_keycode(""), None);
}

#[test]
fn test_raw_key_translation() {
    assert_eq!(raw_key_to_device_keycode(&"Character(\"a\")".to_string()), Some(Key::A));
    assert_eq!(raw_key_to_device_keycode(&"Named(F8)".to_string()), Some(Key::F8));
    assert_eq!(raw_key_to_device_keycode(&" KEY_BTN_LEFT ".to_string()), Some(Key::BtnLeft));
    assert_eq!(raw_key_to_device_keycode(&"garbage(".to_string()), None);
}

#[test]
fn test_modifier_classification() {
    for k in [
        Key::LeftShift,
        Key::RightShift,
        Key::LeftCtrl,
        Key::RightCtrl,
        Key::LeftAlt,
        Key::RightAlt,
        Key::LeftMeta,
        Key::RightMeta,
        Key::CapsLock,
        Key::NumLock,
        Key::ScrollLock,
    ] {
        assert!(is_modifier_evcode(&k));
    }
    for k in [Key::A, Key::Num0, Key::F8, Key::Space, Key::BtnLeft, Key::Enter] {
        assert!(!is_modifier_evcode(&k));
    }
}
