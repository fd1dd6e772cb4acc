use spacebot_desktop::keys::{parse_key_code, parse_shortcut, Hotkey, KeyCode, ModifierSet, ShortcutBinding};

fn mods(alt: bool, super_key: bool, shift: bool, control: bool) -> ModifierSet {
    ModifierSet { alt, super_key, shift, control }
}

#[test]
fn key_names_parse_to_their_codes() {
    assert_eq!(parse_key_code("Space"), Some(KeyCode::Space));
    assert_eq!(parse_key_code("Enter"), Some(KeyCode::Enter));
    assert_eq!(parse_key_code("ArrowRight"), Some(KeyCode::ArrowRight));
    assert_eq!(parse_key_code("F1"), Some(KeyCode::F1));
    assert_eq!(parse_key_code("F10"), Some(KeyCode::F10));
    assert_eq!(parse_key_code("F20"), Some(KeyCode::F20));
    assert_eq!(parse_key_code("0"), Some(KeyCode::Digit0));
    assert_eq!(parse_key_code("9"), Some(KeyCode::Digit9));
    assert_eq!(parse_key_code("A"), Some(KeyCode::KeyA));
    assert_eq!(parse_key_code("Z"), Some(KeyCode::KeyZ));
    assert_eq!(parse_key_code("BracketLeft"), Some(KeyCode::BracketLeft));
    assert_eq!(parse_key_code("IntlBackslash"), Some(KeyCode::IntlBackslash));
}

#[test]
fn unknown_key_names_are_refused() {
    assert_eq!(parse_key_code(""), None);
    assert_eq!(parse_key_code("space"), None);
    assert_eq!(parse_key_code("F21"), None);
    assert_eq!(parse_key_code("a"), None);
    assert_eq!(parse_key_code("Space "), None);
    assert_eq!(parse_key_code("Alt"), None);
}

#[test]
fn default_shortcuts_parse() {
    assert_eq!(
        parse_shortcut("Alt+Space"),
        Some(Hotkey { modifiers: mods(true, false, false, false), code: KeyCode::Space })
    );
    assert_eq!(
        parse_shortcut("Alt+Shift+Space"),
        Some(Hotkey { modifiers: mods(true, false, true, false), code: KeyCode::Space })
    );
}

#[test]
fn modifier_aliases() {
    assert_eq!(
        parse_shortcut("Option+Cmd+K"),
        Some(Hotkey { modifiers: mods(true, true, false, false), code: KeyCode::KeyK })
    );
    assert_eq!(
        parse_shortcut("Command+Super+F5"),
        Some(Hotkey { modifiers: mods(false, true, false, false), code: KeyCode::F5 })
    );
    assert_eq!(
        parse_shortcut("Ctrl+Control+Shift+7"),
        Some(Hotkey { modifiers: mods(false, false, true, true), code: KeyCode::Digit7 })
    );
}

#[test]
fn modifier_order_and_repetition_do_not_matter() {
    assert_eq!(parse_shortcut("Shift+Alt+Space"), parse_shortcut("Alt+Shift+Space"));
    assert_eq!(parse_shortcut("Alt+Alt+Space"), parse_shortcut("Alt+Space"));
}

#[test]
fn malformed_shortcuts_are_refused() {
    assert_eq!(parse_shortcut(""), None);
    assert_eq!(parse_shortcut("Space"), None);
    assert_eq!(parse_shortcut("Alt+"), None);
    assert_eq!(parse_shortcut("+Space"), None);
    assert_eq!(parse_shortcut("Alt++Space"), None);
    assert_eq!(parse_shortcut("Foo+Space"), None);
    assert_eq!(parse_shortcut("Alt+Space+Shift"), None);
    assert_eq!(parse_shortcut("alt+Space"), None);
    assert_eq!(parse_shortcut("Alt+Nope"), None);
}

#[test]
fn binding_keeps_unparseable_key_without_hotkey() {
    let b = ShortcutBinding::new("Nope");
    assert_eq!(b.key, "Nope");
    assert_eq!(b.registered, None);
    let b = ShortcutBinding::new("Alt+Space");
    assert_eq!(b.key, "Alt+Space");
    assert_eq!(b.registered, parse_shortcut("Alt+Space"));
}

#[test]
fn swap_replaces_and_returns_old_key() {
    let mut b = ShortcutBinding::new("Alt+Space");
    let old = b.swap("Ctrl+Shift+K");
    assert_eq!(old, Ok("Alt+Space".to_string()));
    assert_eq!(b.key, "Ctrl+Shift+K");
    assert_eq!(
        b.registered,
        Some(Hotkey { modifiers: mods(false, false, true, true), code: KeyCode::KeyK })
    );
}

#[test]
fn swap_refuses_invalid_key_and_keeps_binding() {
    let mut b = ShortcutBinding::new("Alt+Space");
    let r = b.swap("Hyper+Space");
    assert_eq!(r, Err("Invalid shortcut key: Hyper+Space".to_string()));
    assert_eq!(b.key, "Alt+Space");
    assert_eq!(b.registered, parse_shortcut("Alt+Space"));
}

#[test]
fn bind_keeps_hotkey_when_key_does_not_parse() {
    let mut b = ShortcutBinding::new("Alt+Space");
    b.bind("Nope");
    assert_eq!(b.key, "Nope");
    assert_eq!(b.registered, parse_shortcut("Alt+Space"));
    b.bind("Ctrl+K");
    assert_eq!(b.key, "Ctrl+K");
    assert_eq!(b.registered, parse_shortcut("Ctrl+K"));
}

#[test]
fn same_modifier_set_same_hotkey() {
    assert_eq!(parse_shortcut("Shift+Alt+A"), parse_shortcut("Option+Shift+Shift+A"));
    assert_eq!(parse_shortcut("Cmd+Ctrl+F1"), parse_shortcut("Control+Super+Command+F1"));
}

#[test]
fn same_modifier_set_same_hotkey_with_plus_in_key_part() {
    // The key part "Ctrl+K" itself holds a '+'.
    assert_eq!(parse_shortcut("Shift+Ctrl+K"), parse_shortcut("Shift+Shift+Ctrl+K"));
    assert_eq!(parse_shortcut("Alt+Shift+Nope+K"), None);
    assert_eq!(parse_shortcut("Shift+Alt+Nope+K"), parse_shortcut("Alt+Shift+Nope+K"));
}
