//! The key catalog: canonical key identifiers and their classification.
//!
//! Besides plain keys, the catalog knows which keys are modifiers
//! (Control, Shift, Alt and Win, each with a generic form and left/right
//! specific forms) and which identifiers stand for the same physical role,
//! so that a generic modifier in a hotkey matches either of its specific
//! variants in the live keyboard state.

use vstd::prelude::*;

verus! {

/// Identifier of a physical or virtual key.
///
/// `NoKey` is the sentinel used by a hotkey built without a trigger key;
/// it matches only itself and is never a modifier.
#[derive(Debug, Clone, Copy, PartialEq, Eq, Hash, Structural)]
pub enum VKey {
    NoKey,
    Control,
    LControl,
    RControl,
    Shift,
    LShift,
    RShift,
    Menu,
    LMenu,
    RMenu,
    Win,
    LWin,
    RWin,
    A,
    B,
    C,
    D,
    E,
    F,
    G,
    H,
    I,
    J,
    K,
    L,
    M,
    N,
    O,
    P,
    Q,
    R,
    S,
    T,
    U,
    V,
    W,
    X,
    Y,
    Z,
    F1,
    F2,
    F3,
    F4,
    F5,
    F6,
    F7,
    F8,
    F9,
    F10,
    F11,
    F12,
    Space,
    Tab,
    Return,
    Escape,
    Back,
}

impl VKey {
    /// The key plays the Control role (generic or side-specific).
    pub open spec fn is_control_role(self) -> bool {
        self == VKey::Control || self == VKey::LControl || self == VKey::RControl
    }

    /// The key plays the Shift role (generic or side-specific).
    pub open spec fn is_shift_role(self) -> bool {
        self == VKey::Shift || self == VKey::LShift || self == VKey::RShift
    }

    /// The key plays the Alt role (generic or side-specific).
    pub open spec fn is_menu_role(self) -> bool {
        self == VKey::Menu || self == VKey::LMenu || self == VKey::RMenu
    }

    /// The key plays the Win role (generic or side-specific).
    pub open spec fn is_win_role(self) -> bool {
        self == VKey::Win || self == VKey::LWin || self == VKey::RWin
    }

    /// The key is the generic form of a modifier role.
    pub open spec fn is_generic_modifier(self) -> bool {
        self == VKey::Control || self == VKey::Shift || self == VKey::Menu || self == VKey::Win
    }

    /// The key is a modifier: Control, Shift, Alt or Win, in any form.
    pub open spec fn is_modifier(self) -> bool {
        self.is_control_role() || self.is_shift_role() || self.is_menu_role()
            || self.is_win_role()
    }

    /// Both keys are modifiers of the same physical role.
    pub open spec fn same_role(self, other: VKey) -> bool {
        (self.is_control_role() && other.is_control_role())
            || (self.is_shift_role() && other.is_shift_role())
            || (self.is_menu_role() && other.is_menu_role())
            || (self.is_win_role() && other.is_win_role())
    }

    /// Equivalence used when comparing gesture sequences: identical keys
    /// always match, and a generic modifier also matches the left or right
    /// specific variant of its role (and vice versa). Two specific variants
    /// of the same role do not match each other.
    pub open spec fn key_matches(self, other: VKey) -> bool {
        self == other
            || (self.same_role(other) && (self.is_generic_modifier()
                || other.is_generic_modifier()))
    }

    /// Stable catalog code of the key, used by the hotkey identity hash.
    /// Distinct keys have distinct codes.
    pub open spec fn key_code(self) -> u64 {
        match self {
            VKey::NoKey => 0,
            VKey::Control => 1,
            VKey::LControl => 2,
            VKey::RControl => 3,
            VKey::Shift => 4,
            VKey::LShift => 5,
            VKey::RShift => 6,
            VKey::Menu => 7,
            VKey::LMenu => 8,
            VKey::RMenu => 9,
            VKey::Win => 10,
            VKey::LWin => 11,
            VKey::RWin => 12,
            VKey::A => 13,
            VKey::B => 14,
            VKey::C => 15,
            VKey::D => 16,
            VKey::E => 17,
            VKey::F => 18,
            VKey::G => 19,
            VKey::H => 20,
            VKey::I => 21,
            VKey::J => 22,
            VKey::K => 23,
            VKey::L => 24,
            VKey::M => 25,
            VKey::N => 26,
            VKey::O => 27,
            VKey::P => 28,
            VKey::Q => 29,
            VKey::R => 30,
            VKey::S => 31,
            VKey::T => 32,
            VKey::U => 33,
            VKey::V => 34,
            VKey::W => 35,
            VKey::X => 36,
            VKey::Y => 37,
            VKey::Z => 38,
            VKey::F1 => 39,
            VKey::F2 => 40,
            VKey::F3 => 41,
            VKey::F4 => 42,
            VKey::F5 => 43,
            VKey::F6 => 44,
            VKey::F7 => 45,
            VKey::F8 => 46,
            VKey::F9 => 47,
            VKey::F10 => 48,
            VKey::F11 => 49,
            VKey::F12 => 50,
            VKey::Space => 51,
            VKey::Tab => 52,
            VKey::Return => 53,
            VKey::Escape => 54,
            VKey::Back => 55,
        }
    }

    /// True for Control/Shift/Alt/Win keys, generic or side-specific.
    pub fn is_modifier_key(&self) -> (r: bool)
        ensures
            r == self.is_modifier(),
    {
        let k = *self;
        k == VKey::Control || k == VKey::LControl || k == VKey::RControl
            || k == VKey::Shift || k == VKey::LShift || k == VKey::RShift
            || k == VKey::Menu || k == VKey::LMenu || k == VKey::RMenu
            || k == VKey::Win || k == VKey::LWin || k == VKey::RWin
    }

    /// Generic-vs-specific equivalence for modifiers; exact identity for
    /// all other keys.
    pub fn matches(&self, other: &VKey) -> (r: bool)
        ensures
            r == self.key_matches(*other),
    {
        let a = *self;
        let b = *other;
        let role_shared: bool = (
            (a == VKey::Control || a == VKey::LControl || a == VKey::RControl)
                && (b == VKey::Control || b == VKey::LControl || b == VKey::RControl))
            || ((a == VKey::Shift || a == VKey::LShift || a == VKey::RShift)
                && (b == VKey::Shift || b == VKey::LShift || b == VKey::RShift))
            || ((a == VKey::Menu || a == VKey::LMenu || a == VKey::RMenu)
                && (b == VKey::Menu || b == VKey::LMenu || b == VKey::RMenu))
            || ((a == VKey::Win || a == VKey::LWin || a == VKey::RWin)
                && (b == VKey::Win || b == VKey::LWin || b == VKey::RWin));
        let generic_side: bool = a == VKey::Control || a == VKey::Shift || a == VKey::Menu
            || a == VKey::Win || b == VKey::Control || b == VKey::Shift || b == VKey::Menu
            || b == VKey::Win;
        a == b || (role_shared && generic_side)
    }

    /// Executable form of [`VKey::key_code`].
    pub fn code(&self) -> (r: u64)
        ensures
            r == self.key_code(),
    {
        match *self {
            VKey::NoKey => 0,
            VKey::Control => 1,
            VKey::LControl => 2,
            VKey::RControl => 3,
            VKey::Shift => 4,
            VKey::LShift => 5,
            VKey::RShift => 6,
            VKey::Menu => 7,
            VKey::LMenu => 8,
            VKey::RMenu => 9,
            VKey::Win => 10,
            VKey::LWin => 11,
            VKey::RWin => 12,
            VKey::A => 13,
            VKey::B => 14,
            VKey::C => 15,
            VKey::D => 16,
            VKey::E => 17,
            VKey::F => 18,
            VKey::G => 19,
            VKey::H => 20,
            VKey::I => 21,
            VKey::J => 22,
            VKey::K => 23,
            VKey::L => 24,
            VKey::M => 25,
            VKey::N => 26,
            VKey::O => 27,
            VKey::P => 28,
            VKey::Q => 29,
            VKey::R => 30,
            VKey::S => 31,
            VKey::T => 32,
            VKey::U => 33,
            VKey::V => 34,
            VKey::W => 35,
            VKey::X => 36,
            VKey::Y => 37,
            VKey::Z => 38,
            VKey::F1 => 39,
            VKey::F2 => 40,
            VKey::F3 => 41,
            VKey::F4 => 42,
            VKey::F5 => 43,
            VKey::F6 => 44,
            VKey::F7 => 45,
            VKey::F8 => 46,
            VKey::F9 => 47,
            VKey::F10 => 48,
            VKey::F11 => 49,
            VKey::F12 => 50,
            VKey::Space => 51,
            VKey::Tab => 52,
            VKey::Return => 53,
            VKey::Escape => 54,
            VKey::Back => 55,
        }
    }
}

} // verus!
