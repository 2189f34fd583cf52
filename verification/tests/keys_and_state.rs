//! Tests for the key catalog and the keyboard state tracker.

use win_hotkeys::state::KeyboardState;
use win_hotkeys::VKey;

#[test]
fn test_is_modifier_key_classification() {
    assert!(VKey::Control.is_modifier_key());
    assert!(VKey::LControl.is_modifier_key());
    assert!(VKey::RControl.is_modifier_key());
    assert!(VKey::Shift.is_modifier_key());
    assert!(VKey::LShift.is_modifier_key());
    assert!(VKey::RShift.is_modifier_key());
    assert!(VKey::Menu.is_modifier_key());
    assert!(VKey::LMenu.is_modifier_key());
    assert!(VKey::RMenu.is_modifier_key());
    assert!(VKey::Win.is_modifier_key());
    assert!(VKey::LWin.is_modifier_key());
    assert!(VKey::RWin.is_modifier_key());
    assert!(!VKey::A.is_modifier_key());
    assert!(!VKey::F5.is_modifier_key());
    assert!(!VKey::Space.is_modifier_key());
    assert!(!VKey::NoKey.is_modifier_key());
}

#[test]
fn test_matches_identical_keys() {
    assert!(VKey::A.matches(&VKey::A));
    assert!(VKey::Control.matches(&VKey::Control));
    assert!(VKey::LWin.matches(&VKey::LWin));
    assert!(!VKey::A.matches(&VKey::B));
}

#[test]
fn test_matches_generic_vs_specific() {
    // a generic modifier matches either specific variant, both ways around
    assert!(VKey::Control.matches(&VKey::LControl));
    assert!(VKey::Control.matches(&VKey::RControl));
    assert!(VKey::LControl.matches(&VKey::Control));
    assert!(VKey::RControl.matches(&VKey::Control));
    assert!(VKey::Win.matches(&VKey::LWin));
    assert!(VKey::LShift.matches(&VKey::Shift));
    assert!(VKey::Menu.matches(&VKey::RMenu));
}

#[test]
fn test_matches_rejects_across_roles_and_sides() {
    // two specific variants of the same role are distinct keys
    assert!(!VKey::LControl.matches(&VKey::RControl));
    assert!(!VKey::LShift.matches(&VKey::RShift));
    // different roles never match
    assert!(!VKey::Control.matches(&VKey::Shift));
    assert!(!VKey::Control.matches(&VKey::LShift));
    assert!(!VKey::Win.matches(&VKey::Menu));
    // a plain key matches no modifier
    assert!(!VKey::A.matches(&VKey::Control));
}

#[test]
fn test_is_down_modifier_generic_equivalence() {
    // is_down(Control) is true iff a key of the Control role is pressed
    let mut state = KeyboardState::new();
    state.keydown(VKey::LControl);
    assert!(state.is_down(VKey::Control));
    assert!(state.is_down(VKey::LControl));
    assert!(!state.is_down(VKey::RControl));

    let mut state = KeyboardState::new();
    state.keydown(VKey::RControl);
    assert!(state.is_down(VKey::Control));

    // a Control query is false when only Shift/Alt/Win are pressed
    let mut state = KeyboardState::new();
    state.keydown(VKey::Shift);
    state.keydown(VKey::Menu);
    state.keydown(VKey::LWin);
    assert!(!state.is_down(VKey::Control));
    assert!(state.is_down(VKey::Shift));
    assert!(state.is_down(VKey::Menu));
    assert!(state.is_down(VKey::Win));
}

#[test]
fn test_role_pressed_predicates() {
    let mut state = KeyboardState::new();
    state.keydown(VKey::RShift);
    state.keydown(VKey::LMenu);
    assert!(state.is_shift_pressed());
    assert!(state.is_menu_pressed());
    assert!(!state.is_win_pressed());
    assert!(!state.is_control_pressed());

    // the generic key also counts for its role
    let mut state = KeyboardState::new();
    state.keydown(VKey::Win);
    assert!(state.is_win_pressed());
}

#[test]
fn test_new_state_is_empty() {
    let state = KeyboardState::new();
    assert!(state.pressing.is_empty());
    assert!(state.sequence.is_empty());
}

#[test]
fn test_keyup_removes_only_released_key() {
    let mut state = KeyboardState::new();
    state.keydown(VKey::Control);
    state.keydown(VKey::A);
    state.keyup(VKey::Control);
    assert_eq!(state.pressing, vec![VKey::A]);
    assert_eq!(state.sequence, vec![VKey::Control, VKey::A]);
    state.keyup(VKey::A);
    assert!(state.pressing.is_empty());
    assert_eq!(state.sequence, vec![VKey::Control, VKey::A]);
}

#[test]
fn test_keyup_of_unpressed_key_changes_nothing() {
    let mut state = KeyboardState::new();
    state.keydown(VKey::A);
    state.keyup(VKey::B);
    assert_eq!(state.pressing, vec![VKey::A]);
    assert_eq!(state.sequence, vec![VKey::A]);
}

#[test]
fn test_keydown_hold_is_idempotent() {
    let mut state = KeyboardState::new();
    state.keydown(VKey::A);
    let pressing_after_first = state.pressing.clone();
    let sequence_after_first = state.sequence.clone();
    for _ in 0..5 {
        state.keydown(VKey::A);
    }
    assert_eq!(state.pressing, pressing_after_first);
    assert_eq!(state.sequence, sequence_after_first);
}

#[test]
fn test_lazy_reset_discards_history() {
    let mut state = KeyboardState::new();
    state.keydown(VKey::A);
    state.keydown(VKey::B);
    state.keyup(VKey::A);
    state.keyup(VKey::B);
    // history survives the releases, and the next press replaces it
    assert_eq!(state.sequence, vec![VKey::A, VKey::B]);
    state.keydown(VKey::C);
    assert_eq!(state.sequence, vec![VKey::C]);
    assert_eq!(state.pressing, vec![VKey::C]);
}
