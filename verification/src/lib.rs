//! Hotkey trigger-matching engine.
//!
//! The crate tracks which keys are currently held and in what order distinct
//! presses occurred, and decides whether a registered hotkey's condition is
//! satisfied at the instant one key's state changes. A dispatch loop (not
//! part of this crate) feeds key transitions to [`state::KeyboardState`] and
//! asks [`Hotkey::is_trigger_state`] for the trigger decision.

pub mod hotkey;
pub mod keys;
pub mod state;

pub use hotkey::Hotkey;
pub use hotkey::TriggerBehavior;
pub use hotkey::TriggerTiming;
pub use keys::VKey;
