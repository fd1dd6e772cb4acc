//! What the voice overlay window and the global shortcut handler do, decided
//! from the window's state and the shortcut event.

use vstd::prelude::*;

verus! {

/// What to do with the voice overlay window.
#[derive(Clone, Copy, Debug, PartialEq, Eq, Structural)]
pub enum OverlayAction {
    /// Build the overlay window (it does not exist yet).
    Create,
    /// Hide the visible overlay.
    Hide,
    /// Restore the window chrome, show the overlay and focus it.
    Show,
    /// Leave the overlay as it is.
    Keep,
}

/// Toggling the overlay: create it if missing, hide it if visible, show it otherwise.
pub open spec fn toggle_action(exists: bool, visible: bool) -> OverlayAction {
    if !exists {
        OverlayAction::Create
    } else if visible {
        OverlayAction::Hide
    } else {
        OverlayAction::Show
    }
}

/// Activating the overlay: create it if missing, show it if hidden, keep it if visible.
pub open spec fn activate_action(exists: bool, visible: bool) -> OverlayAction {
    if !exists {
        OverlayAction::Create
    } else if visible {
        OverlayAction::Keep
    } else {
        OverlayAction::Show
    }
}

/// Decides what toggling the overlay does. `visible` is false when the
/// window's visibility cannot be read.
pub fn toggle_overlay(exists: bool, visible: bool) -> (a: OverlayAction)
    ensures
        a == toggle_action(exists, visible),
{
    if exists {
        if visible {
            OverlayAction::Hide
        } else {
            OverlayAction::Show
        }
    } else {
        OverlayAction::Create
    }
}

/// Decides what activating the overlay (for recording) does.
pub fn activate_voice_overlay(exists: bool, visible: bool) -> (a: OverlayAction)
    ensures
        a == activate_action(exists, visible),
{
    if !exists {
        OverlayAction::Create
    } else if !visible {
        OverlayAction::Show
    } else {
        OverlayAction::Keep
    }
}

/// Whether a global shortcut was pressed or released.
#[derive(Clone, Copy, Debug, PartialEq, Eq, Structural)]
pub enum KeyState {
    Pressed,
    Released,
}

/// What a global shortcut event leads to.
#[derive(Clone, Copy, Debug, PartialEq, Eq, Structural)]
pub enum ShortcutAction {
    /// Toggle the voice overlay.
    ToggleOverlay,
    /// Activate the overlay and tell it to start recording.
    StartRecording,
    /// Tell the overlay to stop recording.
    StopRecording,
    /// Do nothing.
    Ignore,
}

/// The action for a shortcut event. The toggle shortcut is checked first and
/// acts on press only; the recording shortcut starts on press and stops on
/// release. A disabled shortcut, or one that matches neither, does nothing.
pub open spec fn shortcut_action_spec(
    state: KeyState,
    is_toggle: bool,
    toggle_enabled: bool,
    is_recording: bool,
    recording_enabled: bool,
) -> ShortcutAction {
    if is_toggle {
        if toggle_enabled && state == KeyState::Pressed {
            ShortcutAction::ToggleOverlay
        } else {
            ShortcutAction::Ignore
        }
    } else if is_recording && recording_enabled {
        if state == KeyState::Pressed {
            ShortcutAction::StartRecording
        } else {
            ShortcutAction::StopRecording
        }
    } else {
        ShortcutAction::Ignore
    }
}

/// Decides what a global shortcut event does. `is_toggle` and `is_recording`
/// say whether the event's shortcut is the registered toggle or recording
/// shortcut.
pub fn shortcut_action(
    state: KeyState,
    is_toggle: bool,
    toggle_enabled: bool,
    is_recording: bool,
    recording_enabled: bool,
) -> (a: ShortcutAction)
    ensures
        a == shortcut_action_spec(state, is_toggle, toggle_enabled, is_recording, recording_enabled),
{
    let pressed = match state {
        KeyState::Pressed => true,
        KeyState::Released => false,
    };
    let released = !pressed;
    if pressed || released {
        if is_toggle {
            if toggle_enabled && pressed {
                return ShortcutAction::ToggleOverlay;
            }
            return ShortcutAction::Ignore;
        }
    }
    if is_recording {
        if recording_enabled {
            if pressed {
                return ShortcutAction::StartRecording;
            } else if released {
                return ShortcutAction::StopRecording;
            }
        }
        return ShortcutAction::Ignore;
    }
    ShortcutAction::Ignore
}

/// Toggling twice from any existing window comes back to the same visibility:
/// a visible overlay is hidden then shown, a hidden one shown then hidden.
pub proof fn law_toggle_twice(visible: bool)
    ensures
        toggle_action(true, visible) == (if visible { OverlayAction::Hide } else { OverlayAction::Show }),
        toggle_action(true, !visible) == (if visible { OverlayAction::Show } else { OverlayAction::Hide }),
{
}

/// Activating the overlay never hides it.
pub proof fn law_activate_never_hides(exists: bool, visible: bool)
    ensures
        activate_action(exists, visible) != OverlayAction::Hide,
{
}

/// A disabled shortcut does nothing, whatever the event.
pub proof fn law_disabled_shortcut_ignored(state: KeyState, is_recording: bool, recording_enabled: bool)
    ensures
        shortcut_action_spec(state, true, false, is_recording, recording_enabled) == ShortcutAction::Ignore,
        shortcut_action_spec(state, false, false, true, false) == ShortcutAction::Ignore,
{
}

/// Holding the enabled recording shortcut starts recording on press and stops
/// it on release; the toggle shortcut never starts or stops recording.
pub proof fn law_recording_press_release(toggle_enabled: bool)
    ensures
        shortcut_action_spec(KeyState::Pressed, false, toggle_enabled, true, true) == ShortcutAction::StartRecording,
        shortcut_action_spec(KeyState::Released, false, toggle_enabled, true, true) == ShortcutAction::StopRecording,
        forall|st: KeyState, re: bool, rec: bool|
            shortcut_action_spec(st, true, toggle_enabled, re, rec) != ShortcutAction::StartRecording
                && shortcut_action_spec(st, true, toggle_enabled, re, rec) != ShortcutAction::StopRecording,
{
}

/// A press of the enabled toggle shortcut toggles the overlay, and a release
/// of it does nothing, whatever the recording shortcut's state; the toggle
/// shortcut's outcome never depends on the recording settings.
pub proof fn law_toggle_independent_of_recording(
    state: KeyState,
    toggle_enabled: bool,
    r1: bool,
    e1: bool,
    r2: bool,
    e2: bool,
)
    ensures
        shortcut_action_spec(KeyState::Pressed, true, true, r1, e1) == ShortcutAction::ToggleOverlay,
        shortcut_action_spec(KeyState::Released, true, toggle_enabled, r1, e1) == ShortcutAction::Ignore,
        shortcut_action_spec(state, true, toggle_enabled, r1, e1) == shortcut_action_spec(
            state,
            true,
            toggle_enabled,
            r2,
            e2,
        ),
{
}

/// The recording shortcut's outcome never depends on the toggle shortcut's
/// enabled flag.
pub proof fn law_recording_independent_of_toggle_flag(state: KeyState, t1: bool, t2: bool, rec_enabled: bool)
    ensures
        shortcut_action_spec(state, false, t1, true, rec_enabled) == shortcut_action_spec(
            state,
            false,
            t2,
            true,
            rec_enabled,
        ),
{
}

/// A missing overlay is always created; an existing one is hidden by a toggle
/// when visible and shown when hidden; activating shows a hidden overlay and
/// leaves a visible one as it is.
pub proof fn law_overlay_actions(visible: bool)
    ensures
        toggle_action(false, visible) == OverlayAction::Create,
        activate_action(false, visible) == OverlayAction::Create,
        toggle_action(true, visible) == if visible { OverlayAction::Hide } else { OverlayAction::Show },
        activate_action(true, visible) == if visible { OverlayAction::Keep } else { OverlayAction::Show },
{
}

} // verus!
