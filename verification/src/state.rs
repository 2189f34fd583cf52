//! The keyboard state tracker.
//!
//! A [`KeyboardState`] records which keys are currently held (`pressing`) and
//! the order in which distinct press transitions occurred since the last
//! reset (`sequence`). A low-level keyboard hook delivers a fresh key-down
//! notification for every hardware auto-repeat tick, so [`KeyboardState::keydown`]
//! ignores a key that is already held (hold suppression). The sequence history
//! is cleared lazily: only when a new key arrives after `pressing` had become
//! empty, never at the moment it becomes empty, so that an on-release
//! evaluation still sees the full gesture that just ended.

use crate::keys::VKey;
use vstd::prelude::*;

verus! {

/// The pressing set and press sequence after a key-down transition:
/// a repeated press of a held key changes nothing; the first key of a new
/// gesture replaces the stale sequence; any other new key joins the pressing
/// set, and the sequence as well unless it was already part of the gesture
/// (a key appears in the sequence once per gesture).
pub open spec fn spec_keydown(
    pressing: Seq<VKey>,
    sequence: Seq<VKey>,
    key: VKey,
) -> (Seq<VKey>, Seq<VKey>) {
    if pressing.contains(key) {
        (pressing, sequence)
    } else {
        let history = if pressing.len() == 0 && sequence.len() > 0 {
            Seq::<VKey>::empty()
        } else {
            sequence
        };
        (pressing.push(key), if history.contains(key) {
            history
        } else {
            history.push(key)
        })
    }
}

/// Predicate satisfied by every key other than `key`.
pub open spec fn not_key(key: VKey) -> spec_fn(VKey) -> bool {
    |k: VKey| k != key
}

/// The pressing set and press sequence after a key-up transition: the key
/// leaves the pressing set and the sequence keeps its history.
pub open spec fn spec_keyup(
    pressing: Seq<VKey>,
    sequence: Seq<VKey>,
    key: VKey,
) -> (Seq<VKey>, Seq<VKey>) {
    (pressing.filter(not_key(key)), sequence)
}

/// The state reached by replaying a key-down transition for each key of
/// `keys` in order, starting from `pressing` and `sequence`.
pub open spec fn spec_replay_keydowns(
    pressing: Seq<VKey>,
    sequence: Seq<VKey>,
    keys: Seq<VKey>,
) -> (Seq<VKey>, Seq<VKey>)
    decreases keys.len(),
{
    if keys.len() == 0 {
        (pressing, sequence)
    } else {
        let prev = spec_replay_keydowns(pressing, sequence, keys.drop_last());
        spec_keydown(prev.0, prev.1, keys.last())
    }
}

/// Some key of `pressing` matches `key` under the modifier-generic
/// equivalence of [`VKey::key_matches`].
pub open spec fn seq_is_down(pressing: Seq<VKey>, key: VKey) -> bool {
    exists|i: int| 0 <= i < pressing.len() && (#[trigger] pressing[i]).key_matches(key)
}

/// Record of the currently-pressed keys and the chronological order of
/// distinct press transitions since the last reset.
#[derive(Debug)]
pub struct KeyboardState {
    /// Keys currently held. Membership is what matters; the tracker keeps
    /// each key at most once.
    pub pressing: Vec<VKey>,
    /// Order in which distinct presses occurred since the last reset.
    /// Releases never remove entries; the record only grows until a new
    /// gesture begins.
    pub sequence: Vec<VKey>,
}

impl KeyboardState {
    /// Both records hold each key at most once: the pressing set by
    /// construction, the sequence because a key enters it once per gesture.
    pub open spec fn wf(self) -> bool {
        self.pressing@.no_duplicates() && self.sequence@.no_duplicates()
    }

    /// A key matching `key` (modifier-generic) is currently held.
    pub open spec fn is_down_spec(self, key: VKey) -> bool {
        seq_is_down(self.pressing@, key)
    }

    /// Some key of the Win role is currently held.
    pub open spec fn win_pressed(self) -> bool {
        seq_is_down(self.pressing@, VKey::Win)
    }

    /// Some key of the Alt role is currently held.
    pub open spec fn menu_pressed(self) -> bool {
        seq_is_down(self.pressing@, VKey::Menu)
    }

    /// Some key of the Shift role is currently held.
    pub open spec fn shift_pressed(self) -> bool {
        seq_is_down(self.pressing@, VKey::Shift)
    }

    /// Some key of the Control role is currently held.
    pub open spec fn control_pressed(self) -> bool {
        seq_is_down(self.pressing@, VKey::Control)
    }

    /// A state with nothing pressed and no history.
    pub fn new() -> (s: KeyboardState)
        ensures
            s.pressing@ == Seq::<VKey>::empty(),
            s.sequence@ == Seq::<VKey>::empty(),
            s.wf(),
    {
        KeyboardState { pressing: Vec::new(), sequence: Vec::new() }
    }

    /// Records a key-down transition.
    ///
    /// A key that is already held is a hold/auto-repeat and changes nothing.
    /// The first key pressed after the pressing set had become empty starts a
    /// new gesture: the stale sequence is discarded and replaced by that key
    /// alone. Any other new key joins the pressing set, and is appended to
    /// the sequence unless it was already part of the gesture.
    pub fn keydown(&mut self, key: VKey)
        ensures
            final(self).pressing@ == spec_keydown(old(self).pressing@, old(self).sequence@, key).0,
            final(self).sequence@ == spec_keydown(old(self).pressing@, old(self).sequence@, key).1,
            // hold suppression: a repeated press of a held key changes nothing
            old(self).pressing@.contains(key) ==> *final(self) == *old(self),
            // lazy reset: the first key after full release starts a fresh sequence
            old(self).pressing@.len() == 0 ==> final(self).sequence@ == seq![key],
            final(self).pressing@.contains(key),
            old(self).wf() ==> final(self).wf(),
    {
        if self.pressing.len() == 0 && self.sequence.len() != 0 {
            // a new gesture begins: discard the completed gesture's history
            self.sequence.clear();
        }
        if !contains_key(&self.pressing, key) {
            self.pressing.push(key);
            if !contains_key(&self.sequence, key) {
                self.sequence.push(key);
            }
            proof {
                assert(self.pressing@.last() == key);
            }
        }
    }

    /// Records a key-up transition: removes the key from the pressing set
    /// and leaves the sequence history untouched.
    pub fn keyup(&mut self, key: VKey)
        ensures
            final(self).pressing@ == spec_keyup(old(self).pressing@, old(self).sequence@, key).0,
            // releases never remove entries from the sequence
            final(self).sequence@ == old(self).sequence@,
            !final(self).pressing@.contains(key),
            old(self).wf() ==> final(self).wf(),
    {
        let ghost all = self.pressing@;
        let mut kept: Vec<VKey> = Vec::new();
        let mut i: usize = 0;
        while i < self.pressing.len()
            invariant
                i <= all.len(),
                self.pressing@ == all,
                kept@ == all.take(i as int).filter(not_key(key)),
            decreases all.len() - i,
        {
            let k = self.pressing[i];
            proof {
                reveal(Seq::filter);
                assert(all.take(i + 1 as int).drop_last() =~= all.take(i as int));
                assert(all.take(i + 1 as int).last() == all[i as int]);
            }
            if k != key {
                kept.push(k);
            }
            i += 1;
        }
        proof {
            assert(all.take(all.len() as int) =~= all);
            if old(self).wf() {
                lemma_filter_keeps_no_duplicates(all, not_key(key));
            }
            assert forall|j: int| 0 <= j < kept@.len() implies kept@[j] != key by {
                Seq::lemma_filter_pred(all, not_key(key), j);
            }
        }
        self.pressing = kept;
    }

    /// Modifier-generic membership test against the pressing set.
    pub fn is_down(&self, key: VKey) -> (r: bool)
        ensures
            r == self.is_down_spec(key),
    {
        let n = self.pressing.len();
        let mut i: usize = 0;
        while i < n
            invariant
                n == self.pressing@.len(),
                i <= n,
                forall|j: int| 0 <= j < i ==> !(#[trigger] self.pressing@[j]).key_matches(key),
            decreases n - i,
        {
            if self.pressing[i].matches(&key) {
                return true;
            }
            i += 1;
        }
        false
    }

    /// Some key of the Win role (generic, left or right) is held.
    pub fn is_win_pressed(&self) -> (r: bool)
        ensures
            r == self.win_pressed(),
    {
        self.is_down(VKey::Win)
    }

    /// Some key of the Alt role (generic, left or right) is held.
    pub fn is_menu_pressed(&self) -> (r: bool)
        ensures
            r == self.menu_pressed(),
    {
        self.is_down(VKey::Menu)
    }

    /// Some key of the Shift role (generic, left or right) is held.
    pub fn is_shift_pressed(&self) -> (r: bool)
        ensures
            r == self.shift_pressed(),
    {
        self.is_down(VKey::Shift)
    }

    /// Some key of the Control role (generic, left or right) is held.
    pub fn is_control_pressed(&self) -> (r: bool)
        ensures
            r == self.control_pressed(),
    {
        self.is_down(VKey::Control)
    }
}

/// Every element of a filtered sequence is an element of the original.
proof fn lemma_filter_members(s: Seq<VKey>, pred: spec_fn(VKey) -> bool)
    ensures
        forall|j: int|
            0 <= j < s.filter(pred).len() ==> s.contains(#[trigger] s.filter(pred)[j]),
    decreases s.len(),
{
    reveal(Seq::filter);
    if s.len() > 0 {
        lemma_filter_members(s.drop_last(), pred);
        assert forall|j: int| 0 <= j < s.filter(pred).len() implies s.contains(
            s.filter(pred)[j],
        ) by {
            let sub = s.drop_last().filter(pred);
            if j < sub.len() {
                assert(s.drop_last().contains(sub[j]));
                let w = choose|w: int|
                    0 <= w < s.drop_last().len() && s.drop_last()[w] == sub[j];
                assert(s[w] == sub[j]);
            } else {
                assert(s[s.len() - 1] == s.filter(pred)[j]);
            }
        }
    }
}

/// Filtering keeps a duplicate-free sequence duplicate-free.
proof fn lemma_filter_keeps_no_duplicates(s: Seq<VKey>, pred: spec_fn(VKey) -> bool)
    requires
        s.no_duplicates(),
    ensures
        s.filter(pred).no_duplicates(),
    decreases s.len(),
{
    reveal(Seq::filter);
    if s.len() > 0 {
        assert(s.drop_last().no_duplicates());
        lemma_filter_keeps_no_duplicates(s.drop_last(), pred);
        lemma_filter_members(s.drop_last(), pred);
        let sub = s.drop_last().filter(pred);
        if pred(s.last()) {
            assert forall|j: int| 0 <= j < sub.len() implies sub[j] != s.last() by {
                assert(s.drop_last().contains(sub[j]));
                let w = choose|w: int|
                    0 <= w < s.drop_last().len() && s.drop_last()[w] == sub[j];
                assert(s[w] == sub[j]);
            }
        }
    }
}

/// Exact membership test used by the tracker.
fn contains_key(keys: &Vec<VKey>, key: VKey) -> (r: bool)
    ensures
        r == keys@.contains(key),
{
    let n = keys.len();
    let mut i: usize = 0;
    while i < n
        invariant
            n == keys@.len(),
            i <= n,
            forall|j: int| 0 <= j < i ==> keys@[j] != key,
        decreases n - i,
    {
        if keys[i] == key {
            proof {
                assert(keys@[i as int] == key);
            }
            return true;
        }
        i += 1;
    }
    false
}

/// Idempotent hold: replaying `keydown(key)` a second time, with no
/// intervening release, leaves both the pressing set and the sequence exactly
/// as they were after the first press. Repeating the press any number of
/// times therefore changes nothing further.
pub proof fn lemma_keydown_idempotent(pressing: Seq<VKey>, sequence: Seq<VKey>, key: VKey)
    ensures
        spec_keydown(
            spec_keydown(pressing, sequence, key).0,
            spec_keydown(pressing, sequence, key).1,
            key,
        ) == spec_keydown(pressing, sequence, key),
{
    let once = spec_keydown(pressing, sequence, key);
    if !pressing.contains(key) {
        assert(once.0.last() == key);
        assert(once.0.contains(key));
    }
}

/// Modifier-generic equivalence for the Control role: a Control query on the
/// pressing set holds exactly when the generic, left or right Control key is
/// held, and never when only keys outside the Control role are held.
pub proof fn lemma_control_generic_equivalence(s: KeyboardState)
    ensures
        s.control_pressed() <==> (s.pressing@.contains(VKey::Control)
            || s.pressing@.contains(VKey::LControl) || s.pressing@.contains(VKey::RControl)),
        (forall|i: int|
            0 <= i < s.pressing@.len() ==> !(#[trigger] s.pressing@[i]).is_control_role())
            ==> !s.control_pressed(),
{
    let p = s.pressing@;
    if s.control_pressed() {
        let i = choose|i: int| 0 <= i < p.len() && (#[trigger] p[i]).key_matches(VKey::Control);
        assert(p[i].is_control_role());
        assert(p.contains(p[i]));
    }
    if p.contains(VKey::Control) {
        let i = choose|i: int| 0 <= i < p.len() && p[i] == VKey::Control;
        assert(p[i].key_matches(VKey::Control));
    }
    if p.contains(VKey::LControl) {
        let i = choose|i: int| 0 <= i < p.len() && p[i] == VKey::LControl;
        assert(p[i].key_matches(VKey::Control));
    }
    if p.contains(VKey::RControl) {
        let i = choose|i: int| 0 <= i < p.len() && p[i] == VKey::RControl;
        assert(p[i].key_matches(VKey::Control));
    }
}

} // verus!
