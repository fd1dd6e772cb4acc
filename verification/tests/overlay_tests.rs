use spacebot_desktop::overlay::{
    activate_voice_overlay, shortcut_action, toggle_overlay, KeyState, OverlayAction, ShortcutAction,
};

#[test]
fn toggle_overlay_cases() {
    assert_eq!(toggle_overlay(false, false), OverlayAction::Create);
    assert_eq!(toggle_overlay(false, true), OverlayAction::Create);
    assert_eq!(toggle_overlay(true, true), OverlayAction::Hide);
    assert_eq!(toggle_overlay(true, false), OverlayAction::Show);
}

#[test]
fn activate_overlay_cases() {
    assert_eq!(activate_voice_overlay(false, false), OverlayAction::Create);
    assert_eq!(activate_voice_overlay(true, true), OverlayAction::Keep);
    assert_eq!(activate_voice_overlay(true, false), OverlayAction::Show);
}

#[test]
fn toggle_shortcut_acts_on_press_only() {
    assert_eq!(shortcut_action(KeyState::Pressed, true, true, false, true), ShortcutAction::ToggleOverlay);
    assert_eq!(shortcut_action(KeyState::Released, true, true, false, true), ShortcutAction::Ignore);
    assert_eq!(shortcut_action(KeyState::Pressed, true, false, false, true), ShortcutAction::Ignore);
}

#[test]
fn toggle_shortcut_takes_precedence() {
    assert_eq!(shortcut_action(KeyState::Pressed, true, true, true, true), ShortcutAction::ToggleOverlay);
    assert_eq!(shortcut_action(KeyState::Pressed, true, false, true, true), ShortcutAction::Ignore);
}

#[test]
fn recording_shortcut_starts_and_stops() {
    assert_eq!(shortcut_action(KeyState::Pressed, false, true, true, true), ShortcutAction::StartRecording);
    assert_eq!(shortcut_action(KeyState::Released, false, true, true, true), ShortcutAction::StopRecording);
    assert_eq!(shortcut_action(KeyState::Pressed, false, true, true, false), ShortcutAction::Ignore);
    assert_eq!(shortcut_action(KeyState::Pressed, false, true, false, true), ShortcutAction::Ignore);
}
