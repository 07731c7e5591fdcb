//! Keyboard translation tests.

use nvim_ui::input::{
    KeyPress, LogicalKey, Modifiers, NamedKey, PhysicalKey, key_to_nvim_input,
    physical_key_to_nvim_input,
};

fn no_mods() -> Modifiers {
    Modifiers { ctrl: false, shift: false, alt: false, logo: false }
}

#[test]
fn test_simple_character() {
    let event = KeyPress { pressed: true, key: LogicalKey::Character("a".to_string()) };
    let result = key_to_nvim_input(&event, no_mods());
    assert_eq!(result, Some("a".to_string()));
}

#[test]
fn test_ctrl_key() {
    let event = KeyPress { pressed: true, key: LogicalKey::Character("c".to_string()) };
    let mut mods = no_mods();
    mods.ctrl = true;
    let result = key_to_nvim_input(&event, mods);
    assert_eq!(result, Some("<C-c>".to_string()));
}

#[test]
fn test_escape_key() {
    let event = KeyPress { pressed: true, key: LogicalKey::Named(NamedKey::Escape) };
    let result = key_to_nvim_input(&event, no_mods());
    assert_eq!(result, Some("<Esc>".to_string()));
}

#[test]
fn released_key_produces_nothing() {
    let event = KeyPress { pressed: false, key: LogicalKey::Named(NamedKey::Enter) };
    assert_eq!(key_to_nvim_input(&event, no_mods()), None);
}

#[test]
fn ctrl_uppercase_letter_lowercased() {
    let event = KeyPress { pressed: true, key: LogicalKey::Character("G".to_string()) };
    let mut mods = no_mods();
    mods.ctrl = true;
    assert_eq!(key_to_nvim_input(&event, mods), Some("<C-g>".to_string()));
}

#[test]
fn ctrl_space_chord() {
    let event = KeyPress { pressed: true, key: LogicalKey::Character(" ".to_string()) };
    let mut mods = no_mods();
    mods.ctrl = true;
    assert_eq!(key_to_nvim_input(&event, mods), Some("<C-Space>".to_string()));
}

#[test]
fn named_key_with_modifier_prefix() {
    let event = KeyPress { pressed: true, key: LogicalKey::Named(NamedKey::ArrowDown) };
    let mut mods = no_mods();
    mods.ctrl = true;
    mods.shift = true;
    assert_eq!(key_to_nvim_input(&event, mods), Some("<C-S-Down>".to_string()));
}

#[test]
fn shift_is_implicit_for_tab() {
    let event = KeyPress { pressed: true, key: LogicalKey::Named(NamedKey::Tab) };
    let mut mods = no_mods();
    mods.shift = true;
    assert_eq!(key_to_nvim_input(&event, mods), Some("<Tab>".to_string()));
}

#[test]
fn alt_character_chord() {
    let event = KeyPress { pressed: true, key: LogicalKey::Character("x".to_string()) };
    let mut mods = no_mods();
    mods.alt = true;
    assert_eq!(key_to_nvim_input(&event, mods), Some("<A-x>".to_string()));
}

#[test]
fn super_character_chord() {
    let event = KeyPress { pressed: true, key: LogicalKey::Character("p".to_string()) };
    let mut mods = no_mods();
    mods.logo = true;
    assert_eq!(key_to_nvim_input(&event, mods), Some("<D-p>".to_string()));
}

#[test]
fn unhandled_named_key_is_dropped() {
    let event = KeyPress { pressed: true, key: LogicalKey::Named(NamedKey::OtherNamed) };
    assert_eq!(key_to_nvim_input(&event, no_mods()), None);
}

#[test]
fn empty_character_is_dropped() {
    let event = KeyPress { pressed: true, key: LogicalKey::Character(String::new()) };
    assert_eq!(key_to_nvim_input(&event, no_mods()), None);
}

#[test]
fn physical_enter_fallback() {
    let r = physical_key_to_nvim_input(PhysicalKey::Enter, no_mods());
    assert_eq!(r, Some("<CR>".to_string()));
}

#[test]
fn physical_fallback_with_modifiers() {
    let mut mods = no_mods();
    mods.ctrl = true;
    mods.alt = true;
    let r = physical_key_to_nvim_input(PhysicalKey::Backspace, mods);
    assert_eq!(r, Some("<C-A-BS>".to_string()));
}

#[test]
fn physical_unknown_code_is_dropped() {
    assert_eq!(physical_key_to_nvim_input(PhysicalKey::OtherCode, no_mods()), None);
}
