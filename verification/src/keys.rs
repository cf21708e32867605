//! Key presses, the binding table, and the resolver that maps a
//! pending key sequence to an action: an exact match fires, a strict
//! prefix of some bound chord waits for more keys, anything else is
//! no match.

use vstd::prelude::*;

use crate::action::{Action, ActionV, Mode};

verus! {

/// The key part of one key press.
#[derive(Clone, Copy, Debug, Hash, PartialEq, Eq, Structural)]
pub enum KeyCode {
    Char(char),
    F(u8),
    Enter,
    Esc,
    Backspace,
    Tab,
    Up,
    Down,
    Left,
    Right,
}

/// One key press with its modifiers. Only the literal key pressed is
/// matched; there is no fuzzy matching and no case folding beyond
/// what the representation already encodes.
#[derive(Clone, Copy, Debug, Hash, PartialEq, Eq, Structural)]
pub struct KeyPress {
    pub code: KeyCode,
    pub ctrl: bool,
    pub alt: bool,
    pub shift: bool,
}

impl KeyPress {
    /// A press of a bare key, no modifiers.
    pub fn plain(code: KeyCode) -> (r: KeyPress)
        ensures
            r == (KeyPress { code, ctrl: false, alt: false, shift: false }),
    {
        KeyPress { code, ctrl: false, alt: false, shift: false }
    }
}

/// One chord: an ordered key sequence bound to an action.
#[derive(Debug, PartialEq, Eq)]
pub struct KeyBinding {
    pub keys: Vec<KeyPress>,
    pub action: Action,
}

/// The mathematical shape of a [`KeyBinding`].
pub struct KeyBindingV {
    pub keys: Seq<KeyPress>,
    pub action: ActionV,
}

impl View for KeyBinding {
    type V = KeyBindingV;

    open spec fn view(&self) -> KeyBindingV {
        KeyBindingV { keys: self.keys@, action: self.action@ }
    }
}

impl DeepView for KeyBinding {
    type V = KeyBindingV;

    open spec fn deep_view(&self) -> KeyBindingV {
        self.view()
    }
}

/// The bindings of one mode, in the order they were configured.
#[derive(Debug, PartialEq, Eq)]
pub struct ModeBindings {
    pub mode: Mode,
    pub bindings: Vec<KeyBinding>,
}

/// The mathematical shape of a [`ModeBindings`].
pub struct ModeBindingsV {
    pub mode: Mode,
    pub bindings: Seq<KeyBindingV>,
}

impl View for ModeBindings {
    type V = ModeBindingsV;

    open spec fn view(&self) -> ModeBindingsV {
        ModeBindingsV { mode: self.mode, bindings: self.bindings.deep_view() }
    }
}

impl DeepView for ModeBindings {
    type V = ModeBindingsV;

    open spec fn deep_view(&self) -> ModeBindingsV {
        self.view()
    }
}

/// The whole binding table: for each mode, an ordered mapping from
/// key sequences to actions. Loaded once at startup by an outside
/// collaborator and read-only afterwards.
#[derive(Debug, PartialEq, Eq)]
pub struct KeyBindingTable {
    pub modes: Vec<ModeBindings>,
}

impl View for KeyBindingTable {
    type V = Seq<ModeBindingsV>;

    open spec fn view(&self) -> Seq<ModeBindingsV> {
        self.modes.deep_view()
    }
}

/// What resolving a pending key sequence yields.
#[derive(Debug, PartialEq, Eq)]
pub enum Resolution {
    /// The sequence is bound: this action fires and the pending
    /// sequence is cleared.
    Matched(Action),
    /// The sequence strictly prefixes some bound chord: the caller
    /// keeps accumulating keys.
    PendingLonger,
    /// Nothing is bound at or beyond the sequence: the caller resets
    /// it and may fall back to the global mode shortcuts.
    NoMatch,
}

/// The mathematical shape of a [`Resolution`].
pub enum ResolutionV {
    Matched(ActionV),
    PendingLonger,
    NoMatch,
}

impl View for Resolution {
    type V = ResolutionV;

    open spec fn view(&self) -> ResolutionV {
        match self {
            Resolution::Matched(a) => ResolutionV::Matched(a@),
            Resolution::PendingLonger => ResolutionV::PendingLonger,
            Resolution::NoMatch => ResolutionV::NoMatch,
        }
    }
}

/// The bindings the table holds for a mode: those of the first entry
/// for it, or none when the mode has no entry.
pub open spec fn mode_bindings_of(t: Seq<ModeBindingsV>, m: Mode) -> Seq<KeyBindingV>
    decreases t.len(),
{
    if t.len() == 0 {
        Seq::empty()
    } else if t[0].mode == m {
        t[0].bindings
    } else {
        mode_bindings_of(t.skip(1), m)
    }
}

/// Whether `p` is a strict prefix of `q`.
pub open spec fn is_strict_prefix(p: Seq<KeyPress>, q: Seq<KeyPress>) -> bool {
    p.len() < q.len() && p == q.subrange(0, p.len() as int)
}

/// The action of the first binding whose chord equals `keys` exactly.
pub open spec fn exact_action(bs: Seq<KeyBindingV>, keys: Seq<KeyPress>) -> Option<ActionV>
    decreases bs.len(),
{
    if bs.len() == 0 {
        None
    } else if bs[0].keys == keys {
        Some(bs[0].action)
    } else {
        exact_action(bs.skip(1), keys)
    }
}

/// Whether some bound chord has `keys` as a strict prefix, so that a
/// longer sequence could still match.
pub open spec fn has_continuation(bs: Seq<KeyBindingV>, keys: Seq<KeyPress>) -> bool {
    exists|i: int| 0 <= i < bs.len() && is_strict_prefix(keys, #[trigger] bs[i].keys)
}

/// What resolution the table prescribes for a pending sequence in a
/// mode: the exact match wins, else a continuable prefix waits, else
/// there is no match.
pub open spec fn resolve_spec(t: Seq<ModeBindingsV>, m: Mode, keys: Seq<KeyPress>) -> ResolutionV {
    let bs = mode_bindings_of(t, m);
    match exact_action(bs, keys) {
        Some(a) => ResolutionV::Matched(a),
        None => if has_continuation(bs, keys) {
            ResolutionV::PendingLonger
        } else {
            ResolutionV::NoMatch
        },
    }
}

/// When the first `i` bindings miss, the exact match over the whole
/// list is the exact match over the rest.
proof fn lemma_exact_action_skip(bs: Seq<KeyBindingV>, keys: Seq<KeyPress>, i: int)
    requires
        0 <= i <= bs.len(),
        forall|j: int| 0 <= j < i ==> (#[trigger] bs[j].keys) != keys,
    ensures
        exact_action(bs, keys) == exact_action(bs.skip(i), keys),
    decreases i,
{
    if i == 0 {
        assert(bs.skip(0) =~= bs);
    } else {
        lemma_exact_action_skip(bs, keys, i - 1);
        assert(bs.skip(i - 1).len() > 0);
        assert(bs.skip(i - 1)[0] == bs[i - 1]);
        assert(bs.skip(i - 1).skip(1) =~= bs.skip(i));
    }
}

/// Compares two key sequences.
pub fn keys_eq(a: &Vec<KeyPress>, b: &Vec<KeyPress>) -> (r: bool)
    ensures
        r == (a@ == b@),
{
    if a.len() != b.len() {
        return false;
    }
    let mut i: usize = 0;
    while i < a.len()
        invariant
            a.len() == b.len(),
            i <= a.len(),
            forall|j: int| 0 <= j < i ==> a@[j] == b@[j],
        decreases a.len() - i,
    {
        if a[i] != b[i] {
            return false;
        }
        i = i + 1;
    }
    assert(a@ =~= b@);
    true
}

/// Decides whether `p` strictly prefixes `q`.
pub fn keys_strict_prefix(p: &Vec<KeyPress>, q: &Vec<KeyPress>) -> (r: bool)
    ensures
        r == is_strict_prefix(p@, q@),
{
    if p.len() >= q.len() {
        return false;
    }
    let mut i: usize = 0;
    while i < p.len()
        invariant
            p.len() < q.len(),
            i <= p.len(),
            forall|j: int| 0 <= j < i ==> p@[j] == q@[j],
        decreases p.len() - i,
    {
        if p[i] != q[i] {
            assert(p@[i as int] != q@.subrange(0, p@.len() as int)[i as int]);
            return false;
        }
        i = i + 1;
    }
    assert(p@ =~= q@.subrange(0, p@.len() as int));
    true
}

impl KeyBindingTable {
    /// Resolves the entire pending key sequence against this table
    /// for the current mode.
    pub fn resolve(&self, mode: Mode, pending: &Vec<KeyPress>) -> (r: Resolution)
        ensures
            r@ == resolve_spec(self@, mode, pending@),
    {
        let ghost bs_spec = mode_bindings_of(self@, mode);
        proof {
            assert(self@.skip(0) =~= self@);
        }
        let mut mi: usize = 0;
        while mi < self.modes.len()
            invariant
                mi <= self.modes.len(),
                bs_spec == mode_bindings_of(self@, mode),
                forall|j: int| 0 <= j < mi ==> (#[trigger] self@[j].mode) != mode,
                mode_bindings_of(self@.skip(mi as int), mode) == bs_spec,
            decreases self.modes.len() - mi,
        {
            if self.modes[mi].mode == mode {
                assert(self@.skip(mi as int)[0] == self@[mi as int]);
                let r = Self::resolve_in(&self.modes[mi].bindings, pending);
                proof {
                    assert(self@[mi as int].bindings == bs_spec);
                }
                return r;
            }
            proof {
                assert(self@.skip(mi as int)[0] == self@[mi as int]);
                assert(self@.skip(mi as int).skip(1) =~= self@.skip(mi + 1));
            }
            mi = mi + 1;
        }
        proof {
            assert(self@.skip(mi as int).len() == 0);
        }
        Resolution::NoMatch
    }

    /// Resolves a pending sequence against one mode's bindings.
    fn resolve_in(bindings: &Vec<KeyBinding>, pending: &Vec<KeyPress>) -> (r: Resolution)
        ensures
            r@ == (match exact_action(bindings.deep_view(), pending@) {
                Some(a) => ResolutionV::Matched(a),
                None => if has_continuation(bindings.deep_view(), pending@) {
                    ResolutionV::PendingLonger
                } else {
                    ResolutionV::NoMatch
                },
            }),
    {
        let ghost bs = bindings.deep_view();
        let mut saw_prefix = false;
        let mut i: usize = 0;
        while i < bindings.len()
            invariant
                i <= bindings.len(),
                bs == bindings.deep_view(),
                bs.len() == bindings.len(),
                forall|j: int| 0 <= j < bs.len() ==> #[trigger] bs[j] == bindings@[j].deep_view(),
                forall|j: int| 0 <= j < i ==> (#[trigger] bs[j].keys) != pending@,
                saw_prefix == exists|j: int|
                    0 <= j < i && is_strict_prefix(pending@, #[trigger] bs[j].keys),
            decreases bindings.len() - i,
        {
            if keys_eq(&bindings[i].keys, pending) {
                proof {
                    lemma_exact_action_skip(bs, pending@, i as int);
                    assert(bs.skip(i as int)[0] == bs[i as int]);
                }
                return Resolution::Matched(bindings[i].action.duplicate());
            }
            if keys_strict_prefix(pending, &bindings[i].keys) {
                saw_prefix = true;
            }
            i = i + 1;
        }
        proof {
            lemma_exact_action_skip(bs, pending@, bs.len() as int);
            assert(bs.skip(bs.len() as int).len() == 0);
        }
        if saw_prefix {
            Resolution::PendingLonger
        } else {
            Resolution::NoMatch
        }
    }
}

} // verus!
