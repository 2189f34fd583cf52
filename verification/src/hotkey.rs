//! Hotkey descriptors and the trigger-matching engine.
//!
//! A [`Hotkey`] describes a desired trigger condition — a trigger key, an
//! ordered modifier list, a trigger timing and a strictness flag — together
//! with dispatch metadata and a callback. [`Hotkey::is_trigger_state`] is the
//! pure decision procedure that compares a live [`KeyboardState`] against the
//! state the hotkey's own gesture would produce.

use crate::keys::VKey;
use crate::state::KeyboardState;
use crate::state::seq_is_down;
use crate::state::spec_keydown;
use crate::state::spec_keyup;
use crate::state::spec_replay_keydowns;
use vstd::prelude::*;

verus! {

/// What happens with the originating key event after the hotkey triggers.
#[derive(Debug, Clone, Copy, PartialEq, Eq, Structural)]
pub enum TriggerBehavior {
    /// Allow the key event to propagate to other applications.
    PassThrough,
    /// Consume the key event and prevent further processing.
    StopPropagation,
}

/// When a hotkey should trigger.
#[derive(Debug, Clone, Copy, Hash, PartialEq, Eq, Structural)]
pub enum TriggerTiming {
    /// Trigger when the key combination is pressed down.
    OnKeyDown,
    /// Trigger when the trigger key is released.
    OnKeyUp,
}

/// Offset basis of the 64-bit FNV-1a hash.
pub const FNV_OFFSET_BASIS: u64 = 0xcbf29ce484222325;

/// Prime of the 64-bit FNV-1a hash.
pub const FNV_PRIME: u64 = 0x100000001b3;

/// One FNV-1a round: fold `value` into the running hash `h`.
pub open spec fn spec_fnv_step(h: u64, value: u64) -> u64 {
    (h ^ value).wrapping_mul(FNV_PRIME)
}

/// Folds the catalog codes of `keys` into the running hash `h`, in order.
pub open spec fn spec_fold_codes(h: u64, keys: Seq<VKey>) -> u64
    decreases keys.len(),
{
    if keys.len() == 0 {
        h
    } else {
        spec_fnv_step(spec_fold_codes(h, keys.drop_last()), keys.last().key_code())
    }
}

/// Code distinguishing the two trigger timings inside the identity hash.
pub open spec fn spec_timing_code(timing: TriggerTiming) -> u64 {
    match timing {
        TriggerTiming::OnKeyDown => 0,
        TriggerTiming::OnKeyUp => 1,
    }
}

/// The identity hash of a hotkey: an FNV-1a fold over the trigger key's
/// code, the modifier count, each modifier's code in order, and the timing.
/// Only the identity triple takes part, so descriptors that differ just in
/// behavior, strictness, pause bypass or callback hash alike.
pub open spec fn spec_identity_hash(
    trigger_key: VKey,
    modifiers: Seq<VKey>,
    timing: TriggerTiming,
) -> u64 {
    let h0 = spec_fnv_step(FNV_OFFSET_BASIS, trigger_key.key_code());
    let h1 = spec_fnv_step(h0, modifiers.len() as u64);
    let h2 = spec_fold_codes(h1, modifiers);
    spec_fnv_step(h2, spec_timing_code(timing))
}

/// A keyboard shortcut: the condition under which it triggers and the
/// action it performs.
///
/// `F` is the type of the stored callback; a hotkey built by
/// [`Hotkey::from_keys`] carries no callback yet (`F` is the unit type)
/// until one is supplied with [`Hotkey::action`].
pub struct Hotkey<F> {
    /// Key that must change state to trigger this hotkey.
    pub trigger_key: VKey,
    /// When the hotkey should trigger (on key down or key up).
    pub trigger_timing: TriggerTiming,
    /// Keys that must be pressed, in order, before the trigger key.
    pub modifiers: Vec<VKey>,
    /// What happens with the key event once the hotkey has triggered.
    pub behaviour: TriggerBehavior,
    /// Trigger even while global hotkeys are paused.
    pub bypass_pause: bool,
    /// Require the live press order to equal the declared order exactly,
    /// with no extraneous key anywhere in the gesture.
    pub strict_sequence: bool,
    /// Callback to execute when this hotkey is triggered.
    pub callback: F,
}

impl<F> Hotkey<F> {
    /// The pressing set and press sequence that this hotkey's own gesture
    /// would produce: each modifier pressed in order, then the trigger key,
    /// then — for an on-release hotkey — the trigger key released again.
    pub open spec fn expected_model(self) -> (Seq<VKey>, Seq<VKey>) {
        let after_mods = spec_replay_keydowns(
            Seq::<VKey>::empty(),
            Seq::<VKey>::empty(),
            self.modifiers@,
        );
        let after_trigger = spec_keydown(after_mods.0, after_mods.1, self.trigger_key);
        if self.trigger_timing == TriggerTiming::OnKeyUp {
            spec_keyup(after_trigger.0, after_trigger.1, self.trigger_key)
        } else {
            after_trigger
        }
    }

    /// The trigger decision: the changed key is the trigger key; every
    /// non-modifier key the gesture expects to be held is live; under strict
    /// sequencing the live press order matches the expected order position
    /// by position; and the four modifier roles are live exactly when the
    /// gesture expects them, so a superset of the required modifiers never
    /// triggers.
    pub open spec fn is_trigger_spec(self, changed: VKey, state: KeyboardState) -> bool {
        let expected_pressing = self.expected_model().0;
        let expected_sequence = self.expected_model().1;
        &&& self.trigger_key == changed
        &&& (forall|i: int|
            0 <= i < expected_pressing.len() && !(#[trigger] expected_pressing[i]).is_modifier()
                ==> seq_is_down(state.pressing@, expected_pressing[i]))
        &&& (self.strict_sequence ==> expected_sequence.len() == state.sequence@.len()
            && (forall|i: int|
                0 <= i < expected_sequence.len()
                    ==> (#[trigger] expected_sequence[i]).key_matches(state.sequence@[i])))
        &&& seq_is_down(expected_pressing, VKey::Win) == seq_is_down(state.pressing@, VKey::Win)
        &&& seq_is_down(expected_pressing, VKey::Menu) == seq_is_down(state.pressing@, VKey::Menu)
        &&& seq_is_down(expected_pressing, VKey::Shift) == seq_is_down(
            state.pressing@,
            VKey::Shift,
        )
        &&& seq_is_down(expected_pressing, VKey::Control) == seq_is_down(
            state.pressing@,
            VKey::Control,
        )
    }

    /// Replaces the trigger key.
    pub fn trigger(self, key: VKey) -> (r: Self)
        ensures
            r.trigger_key == key,
            r.trigger_timing == self.trigger_timing,
            r.modifiers@ == self.modifiers@,
            r.behaviour == self.behaviour,
            r.bypass_pause == self.bypass_pause,
            r.strict_sequence == self.strict_sequence,
            r.callback == self.callback,
    {
        Hotkey {
            trigger_key: key,
            trigger_timing: self.trigger_timing,
            modifiers: self.modifiers,
            behaviour: self.behaviour,
            bypass_pause: self.bypass_pause,
            strict_sequence: self.strict_sequence,
            callback: self.callback,
        }
    }

    /// Replaces the modifier list.
    pub fn modifiers<const N: usize>(self, keys: [VKey; N]) -> (r: Self)
        ensures
            r.trigger_key == self.trigger_key,
            r.trigger_timing == self.trigger_timing,
            r.modifiers@ == keys@,
            r.behaviour == self.behaviour,
            r.bypass_pause == self.bypass_pause,
            r.strict_sequence == self.strict_sequence,
            r.callback == self.callback,
    {
        Hotkey {
            trigger_key: self.trigger_key,
            trigger_timing: self.trigger_timing,
            modifiers: keys_to_vec(&keys),
            behaviour: self.behaviour,
            bypass_pause: self.bypass_pause,
            strict_sequence: self.strict_sequence,
            callback: self.callback,
        }
    }

    /// Sets the behavior when the hotkey triggers.
    pub fn behavior(self, action: TriggerBehavior) -> (r: Self)
        ensures
            r.trigger_key == self.trigger_key,
            r.trigger_timing == self.trigger_timing,
            r.modifiers@ == self.modifiers@,
            r.behaviour == action,
            r.bypass_pause == self.bypass_pause,
            r.strict_sequence == self.strict_sequence,
            r.callback == self.callback,
    {
        Hotkey {
            trigger_key: self.trigger_key,
            trigger_timing: self.trigger_timing,
            modifiers: self.modifiers,
            behaviour: action,
            bypass_pause: self.bypass_pause,
            strict_sequence: self.strict_sequence,
            callback: self.callback,
        }
    }

    /// Makes the hotkey work even while global hotkeys are paused.
    pub fn bypass_pause(self) -> (r: Self)
        ensures
            r.trigger_key == self.trigger_key,
            r.trigger_timing == self.trigger_timing,
            r.modifiers@ == self.modifiers@,
            r.behaviour == self.behaviour,
            r.bypass_pause,
            r.strict_sequence == self.strict_sequence,
            r.callback == self.callback,
    {
        Hotkey {
            trigger_key: self.trigger_key,
            trigger_timing: self.trigger_timing,
            modifiers: self.modifiers,
            behaviour: self.behaviour,
            bypass_pause: true,
            strict_sequence: self.strict_sequence,
            callback: self.callback,
        }
    }

    /// Requires the keys to have been pressed in the exact declared order.
    pub fn strict_sequence(self) -> (r: Self)
        ensures
            r.trigger_key == self.trigger_key,
            r.trigger_timing == self.trigger_timing,
            r.modifiers@ == self.modifiers@,
            r.behaviour == self.behaviour,
            r.bypass_pause == self.bypass_pause,
            r.strict_sequence,
            r.callback == self.callback,
    {
        Hotkey {
            trigger_key: self.trigger_key,
            trigger_timing: self.trigger_timing,
            modifiers: self.modifiers,
            behaviour: self.behaviour,
            bypass_pause: self.bypass_pause,
            strict_sequence: true,
            callback: self.callback,
        }
    }

    /// Sets when the hotkey should trigger (on key down or key up).
    pub fn trigger_timing(self, timing: TriggerTiming) -> (r: Self)
        ensures
            r.trigger_key == self.trigger_key,
            r.trigger_timing == timing,
            r.modifiers@ == self.modifiers@,
            r.behaviour == self.behaviour,
            r.bypass_pause == self.bypass_pause,
            r.strict_sequence == self.strict_sequence,
            r.callback == self.callback,
    {
        Hotkey {
            trigger_key: self.trigger_key,
            trigger_timing: timing,
            modifiers: self.modifiers,
            behaviour: self.behaviour,
            bypass_pause: self.bypass_pause,
            strict_sequence: self.strict_sequence,
            callback: self.callback,
        }
    }

    /// Replaces the callback.
    pub fn action<F2: Fn() + Send + Sync + 'static>(self, action: F2) -> (r: Hotkey<F2>)
        ensures
            r.trigger_key == self.trigger_key,
            r.trigger_timing == self.trigger_timing,
            r.modifiers@ == self.modifiers@,
            r.behaviour == self.behaviour,
            r.bypass_pause == self.bypass_pause,
            r.strict_sequence == self.strict_sequence,
            r.callback == action,
    {
        Hotkey {
            trigger_key: self.trigger_key,
            trigger_timing: self.trigger_timing,
            modifiers: self.modifiers,
            behaviour: self.behaviour,
            bypass_pause: self.bypass_pause,
            strict_sequence: self.strict_sequence,
            callback: action,
        }
    }

    /// Checks whether the current keyboard state should trigger this hotkey.
    /// Meant to be invoked once per observed key-state change, with `changed`
    /// the key whose state just changed. Mutates nothing: the decision is a
    /// pure function of the hotkey and the two inputs.
    pub fn is_trigger_state(&self, changed: &VKey, state: &KeyboardState) -> (r: bool)
        ensures
            r == self.is_trigger_spec(*changed, *state),
    {
        // the changed key must be the trigger key
        if self.trigger_key != *changed {
            return false;
        }
        let expected_state = self.generate_expected_keyboard_state();
        let ghost expected_pressing = self.expected_model().0;
        let ghost expected_sequence = self.expected_model().1;

        // every required non-modifier key must still be down in the live state
        let n = expected_state.pressing.len();
        let mut i: usize = 0;
        while i < n
            invariant
                n == expected_state.pressing@.len(),
                expected_pressing == self.expected_model().0,
                expected_state.pressing@ == expected_pressing,
                i <= n,
                forall|j: int|
                    0 <= j < i && !(#[trigger] expected_pressing[j]).is_modifier()
                        ==> seq_is_down(state.pressing@, expected_pressing[j]),
            decreases n - i,
        {
            let key = expected_state.pressing[i];
            if !key.is_modifier_key() && !state.is_down(key) {
                proof {
                    assert(!expected_pressing[i as int].is_modifier());
                }
                return false;
            }
            i += 1;
        }

        if self.strict_sequence {
            if expected_state.sequence.len() != state.sequence.len() {
                return false;
            }
            let m = expected_state.sequence.len();
            let mut i: usize = 0;
            while i < m
                invariant
                    self.strict_sequence,
                    m == expected_state.sequence@.len(),
                    m == state.sequence@.len(),
                    expected_sequence == self.expected_model().1,
                    expected_state.sequence@ == expected_sequence,
                    i <= m,
                    forall|j: int|
                        0 <= j < i
                            ==> (#[trigger] expected_sequence[j]).key_matches(
                            state.sequence@[j],
                        ),
                decreases m - i,
            {
                if !expected_state.sequence[i].matches(&state.sequence[i]) {
                    return false;
                }
                i += 1;
            }
        }

        // the four modifier roles must match exactly, so a live superset of
        // the required modifiers is rejected even without strict sequencing
        let r = expected_state.is_win_pressed() == state.is_win_pressed()
            && expected_state.is_menu_pressed() == state.is_menu_pressed()
            && expected_state.is_shift_pressed() == state.is_shift_pressed()
            && expected_state.is_control_pressed() == state.is_control_pressed();
        r
    }

    /// Builds the keyboard state that this hotkey's own gesture would
    /// produce, by replaying a key-down for each modifier in order, then for
    /// the trigger key, then — for an on-release hotkey — a key-up for the
    /// trigger key.
    pub fn generate_expected_keyboard_state(&self) -> (r: KeyboardState)
        ensures
            r.pressing@ == self.expected_model().0,
            r.sequence@ == self.expected_model().1,
            r.wf(),
    {
        let mut keyboard_state = KeyboardState::new();
        let n = self.modifiers.len();
        let mut i: usize = 0;
        while i < n
            invariant
                n == self.modifiers@.len(),
                i <= n,
                keyboard_state.pressing@ == spec_replay_keydowns(
                    Seq::<VKey>::empty(),
                    Seq::<VKey>::empty(),
                    self.modifiers@.take(i as int),
                ).0,
                keyboard_state.sequence@ == spec_replay_keydowns(
                    Seq::<VKey>::empty(),
                    Seq::<VKey>::empty(),
                    self.modifiers@.take(i as int),
                ).1,
                keyboard_state.wf(),
            decreases n - i,
        {
            keyboard_state.keydown(self.modifiers[i]);
            proof {
                let mods = self.modifiers@;
                assert(mods.take(i + 1 as int).drop_last() =~= mods.take(i as int));
                assert(mods.take(i + 1 as int).last() == mods[i as int]);
            }
            i += 1;
        }
        proof {
            assert(self.modifiers@.take(self.modifiers@.len() as int) =~= self.modifiers@);
        }
        keyboard_state.keydown(self.trigger_key);
        if self.trigger_timing == TriggerTiming::OnKeyUp {
            keyboard_state.keyup(self.trigger_key);
        }
        keyboard_state
    }

    /// A stable hash of the hotkey's identity triple (trigger key, modifier
    /// list, trigger timing), for registry keying and duplicate detection.
    pub fn as_hash(&self) -> (r: u64)
        ensures
            r == spec_identity_hash(self.trigger_key, self.modifiers@, self.trigger_timing),
    {
        let mut h: u64 = FNV_OFFSET_BASIS;
        h = (h ^ self.trigger_key.code()).wrapping_mul(FNV_PRIME);
        h = (h ^ (self.modifiers.len() as u64)).wrapping_mul(FNV_PRIME);
        let ghost h_before_keys = h;
        let n = self.modifiers.len();
        let mut i: usize = 0;
        while i < n
            invariant
                n == self.modifiers@.len(),
                i <= n,
                h == spec_fold_codes(h_before_keys, self.modifiers@.take(i as int)),
            decreases n - i,
        {
            h = (h ^ self.modifiers[i].code()).wrapping_mul(FNV_PRIME);
            proof {
                let mods = self.modifiers@;
                assert(mods.take(i + 1 as int).drop_last() =~= mods.take(i as int));
                assert(mods.take(i + 1 as int).last() == mods[i as int]);
            }
            i += 1;
        }
        proof {
            assert(self.modifiers@.take(self.modifiers@.len() as int) =~= self.modifiers@);
        }
        let t: u64 = match self.trigger_timing {
            TriggerTiming::OnKeyDown => 0,
            TriggerTiming::OnKeyUp => 1,
        };
        h = (h ^ t).wrapping_mul(FNV_PRIME);
        h
    }
}

impl Hotkey<()> {
    /// A descriptor with the sentinel trigger key, no modifiers, default
    /// dispatch metadata and no callback yet.
    fn base() -> (h: Hotkey<()>)
        ensures
            h.trigger_key == VKey::NoKey,
            h.modifiers@ == Seq::<VKey>::empty(),
            h.behaviour == TriggerBehavior::StopPropagation,
            h.trigger_timing == TriggerTiming::OnKeyDown,
            !h.bypass_pause,
            !h.strict_sequence,
    {
        Hotkey {
            trigger_key: VKey::NoKey,
            trigger_timing: TriggerTiming::OnKeyDown,
            modifiers: Vec::new(),
            behaviour: TriggerBehavior::StopPropagation,
            bypass_pause: false,
            strict_sequence: false,
            callback: (),
        }
    }

    /// Builds a hotkey from a flat key list: the last key is the trigger and
    /// the rest are the modifiers, in order. An empty list leaves the
    /// sentinel trigger key, which matches no real key. The result carries
    /// no callback; supply one with [`Hotkey::action`].
    pub fn from_keys<const N: usize>(keys: [VKey; N]) -> (h: Hotkey<()>)
        ensures
            N > 0 ==> h.trigger_key == keys@.last() && h.modifiers@ == keys@.drop_last(),
            N == 0 ==> h.trigger_key == VKey::NoKey && h.modifiers@ == Seq::<VKey>::empty(),
            h.behaviour == TriggerBehavior::StopPropagation,
            h.trigger_timing == TriggerTiming::OnKeyDown,
            !h.bypass_pause,
            !h.strict_sequence,
    {
        let mut keys: Vec<VKey> = keys_to_vec(&keys);
        let mut hotkey = Hotkey::base();
        if let Some(last_key) = keys.pop() {
            hotkey = hotkey.trigger(last_key);
        }
        Hotkey {
            trigger_key: hotkey.trigger_key,
            trigger_timing: hotkey.trigger_timing,
            modifiers: keys,
            behaviour: hotkey.behaviour,
            bypass_pause: hotkey.bypass_pause,
            strict_sequence: hotkey.strict_sequence,
            callback: hotkey.callback,
        }
    }
}

impl<F: Fn() + Send + Sync + 'static> Hotkey<F> {
    /// Creates a new hotkey from a trigger key, a modifier list and the
    /// callback to run when it triggers.
    pub fn new<const N: usize>(trigger_key: VKey, modifiers: [VKey; N], callback: F) -> (h: Hotkey<
        F,
    >)
        ensures
            h.trigger_key == trigger_key,
            h.trigger_timing == TriggerTiming::OnKeyDown,
            h.modifiers@ == modifiers@,
            h.behaviour == TriggerBehavior::StopPropagation,
            !h.bypass_pause,
            !h.strict_sequence,
            h.callback == callback,
    {
        Hotkey {
            trigger_key,
            trigger_timing: TriggerTiming::OnKeyDown,
            modifiers: keys_to_vec(&modifiers),
            behaviour: TriggerBehavior::StopPropagation,
            bypass_pause: false,
            strict_sequence: false,
            callback,
        }
    }
}

impl<F: Fn()> Hotkey<F> {
    /// Executes the callback associated with the hotkey. The dispatch loop
    /// is expected to call this off the hook thread.
    pub fn execute(&self)
        requires
            call_requires(self.callback, ()),
        ensures
            call_ensures(self.callback, (), ()),
    {
        (self.callback)()
    }
}

impl<F, F2> PartialEq<Hotkey<F2>> for Hotkey<F> {
    /// Descriptor identity is the triple (trigger key, modifiers, timing);
    /// behavior, strictness, pause bypass and the callback take no part.
    fn eq(&self, other: &Hotkey<F2>) -> (r: bool) {
        self.trigger_key == other.trigger_key && same_keys(&self.modifiers, &other.modifiers)
            && self.trigger_timing == other.trigger_timing
    }
}

impl<F, F2> vstd::std_specs::cmp::PartialEqSpecImpl<Hotkey<F2>> for Hotkey<F> {
    open spec fn obeys_eq_spec() -> bool {
        true
    }

    open spec fn eq_spec(&self, other: &Hotkey<F2>) -> bool {
        self.trigger_key == other.trigger_key && self.modifiers@ == other.modifiers@
            && self.trigger_timing == other.trigger_timing
    }
}

/// Copies a key array into a vector.
fn keys_to_vec<const N: usize>(keys: &[VKey; N]) -> (v: Vec<VKey>)
    ensures
        v@ == keys@,
{
    let mut v: Vec<VKey> = Vec::new();
    let mut i: usize = 0;
    while i < N
        invariant
            i <= N,
            v@ == keys@.take(i as int),
        decreases N - i,
    {
        v.push(keys[i]);
        proof {
            assert(keys@.take(i + 1 as int) =~= keys@.take(i as int).push(keys@[i as int]));
        }
        i += 1;
    }
    proof {
        assert(keys@.take(N as int) =~= keys@);
    }
    v
}

/// Elementwise equality of two key lists.
fn same_keys(a: &Vec<VKey>, b: &Vec<VKey>) -> (r: bool)
    ensures
        r == (a@ == b@),
{
    if a.len() != b.len() {
        return false;
    }
    let n = a.len();
    let mut i: usize = 0;
    while i < n
        invariant
            n == a@.len(),
            n == b@.len(),
            i <= n,
            forall|j: int| 0 <= j < i ==> a@[j] == b@[j],
        decreases n - i,
    {
        if a[i] != b[i] {
            proof {
                assert(a@[i as int] != b@[i as int]);
            }
            return false;
        }
        i += 1;
    }
    proof {
        assert(a@ =~= b@);
    }
    true
}

} // verus!
