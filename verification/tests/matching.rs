//! Tests for the trigger decision beyond strict sequencing: superset
//! rejection and modifier-generic matching between hotkey and live state.

use win_hotkeys::state::KeyboardState;
use win_hotkeys::VKey;
use win_hotkeys::{Hotkey, TriggerTiming};

#[test]
fn test_superset_of_modifiers_is_rejected() {
    // Hotkey: Control + A (NOT strict). Live Control+Shift+A must not trigger:
    // the modifier roles must match exactly, not as a subset.
    let hotkey = Hotkey::new(VKey::A, [VKey::Control], || {});

    let mut state = KeyboardState::new();
    state.keydown(VKey::Control);
    state.keydown(VKey::Shift);
    state.keydown(VKey::A);

    assert!(
        !hotkey.is_trigger_state(&VKey::A, &state),
        "Live state with an extra modifier role must not satisfy the hotkey"
    );
}

#[test]
fn test_superset_with_win_is_rejected() {
    // Win + A must not fire when Win + Alt + A is pressed
    let hotkey = Hotkey::new(VKey::A, [VKey::LWin], || {});

    let mut state = KeyboardState::new();
    state.keydown(VKey::LWin);
    state.keydown(VKey::LMenu);
    state.keydown(VKey::A);

    assert!(!hotkey.is_trigger_state(&VKey::A, &state));
}

#[test]
fn test_missing_modifier_is_rejected() {
    let hotkey = Hotkey::new(VKey::A, [VKey::Control, VKey::Shift], || {});

    let mut state = KeyboardState::new();
    state.keydown(VKey::Control);
    state.keydown(VKey::A);

    assert!(!hotkey.is_trigger_state(&VKey::A, &state));
}

#[test]
fn test_changed_key_must_be_trigger_key() {
    let hotkey = Hotkey::new(VKey::A, [VKey::Control], || {});

    let mut state = KeyboardState::new();
    state.keydown(VKey::Control);
    state.keydown(VKey::A);

    assert!(hotkey.is_trigger_state(&VKey::A, &state));
    assert!(!hotkey.is_trigger_state(&VKey::Control, &state));
    assert!(!hotkey.is_trigger_state(&VKey::B, &state));
}

#[test]
fn test_generic_modifier_matches_specific_live_key() {
    // hotkey declared with generic Control, live state presses LControl
    let hotkey = Hotkey::new(VKey::A, [VKey::Control], || {});

    let mut state = KeyboardState::new();
    state.keydown(VKey::LControl);
    state.keydown(VKey::A);

    assert!(hotkey.is_trigger_state(&VKey::A, &state));
}

#[test]
fn test_generic_modifier_matches_specific_live_key_strict() {
    // the strict order check compares positions modifier-generically too
    let hotkey = Hotkey::new(VKey::A, [VKey::Control], || {}).strict_sequence();

    let mut state = KeyboardState::new();
    state.keydown(VKey::LControl);
    state.keydown(VKey::A);

    assert!(hotkey.is_trigger_state(&VKey::A, &state));
}

#[test]
fn test_on_key_up_non_strict_allows_extra_plain_key() {
    // without strict sequencing an extra non-modifier key in the gesture
    // does not block an OnKeyUp hotkey
    let hotkey = Hotkey::new(VKey::A, [VKey::Control], || {})
        .trigger_timing(TriggerTiming::OnKeyUp);

    let mut state = KeyboardState::new();
    state.keydown(VKey::Control);
    state.keydown(VKey::B);
    state.keydown(VKey::A);
    state.keyup(VKey::A);

    assert!(hotkey.is_trigger_state(&VKey::A, &state));
}
