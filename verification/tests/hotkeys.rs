use std::str::FromStr;

use primemh::hotkeys::{contains_char, HotKey};

fn keys(names: &[&str]) -> Vec<String> {
    names.iter().map(|n| n.to_string()).collect()
}

#[test]
fn parses_modifiers_anywhere() {
    let h = HotKey::parse("^+F5").unwrap();
    assert!(h.ctrl && h.shift && !h.alt && !h.win);
    assert_eq!(h.key, "F5");
    let h = HotKey::parse("F5!#").unwrap();
    assert!(h.alt && h.win && !h.ctrl && !h.shift);
    assert_eq!(h.key, "F5");
}

#[test]
fn plain_key_parses_without_modifiers() {
    let h = HotKey::from_str("Home").unwrap();
    assert!(!h.alt && !h.ctrl && !h.shift && !h.win);
    assert_eq!(h.key, "Home");
}

#[test]
fn unknown_key_is_refused() {
    assert_eq!(HotKey::parse("^Foo").unwrap_err(), "KeyCode invalid!");
    assert_eq!(HotKey::parse("").unwrap_err(), "KeyCode invalid!");
    assert_eq!(HotKey::parse("home").unwrap_err(), "KeyCode invalid!");
}

#[test]
fn printed_form_is_canonical_and_parses_back() {
    let h = HotKey::parse("#+^!PageUp").unwrap();
    assert_eq!(h.to_string(), "!^+#PageUp");
    let again = HotKey::parse(&h.to_string()).unwrap();
    assert_eq!((again.alt, again.ctrl, again.shift, again.win), (h.alt, h.ctrl, h.shift, h.win));
    assert_eq!(again.key, h.key);
}

#[test]
fn pressed_needs_modifier_and_key() {
    let h = HotKey::parse("^Home").unwrap();
    assert!(!h.clone().pressed(&keys(&["Home"])));
    assert!(h.clone().pressed(&keys(&["RControl", "Home"])));
    assert!(h.clone().pressed(&keys(&["Home", "LControl"])));
    assert!(!h.clone().pressed(&keys(&["LControl"])));
    assert!(!h.pressed(&keys(&[])));
}

#[test]
fn pressed_stays_pressed_with_more_keys() {
    let h = HotKey::parse("!PageUp").unwrap();
    assert!(h.clone().pressed(&keys(&["LAlt", "PageUp"])));
    assert!(h.pressed(&keys(&["A", "LAlt", "B", "PageUp", "RShift"])));
}

#[test]
fn contains_char_finds_characters() {
    assert!(contains_char("a!b", '!'));
    assert!(!contains_char("ab", '!'));
    assert!(!contains_char("", '#'));
}
