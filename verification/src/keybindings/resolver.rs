//! From key presses to actions. A chord is held until its last key, or until a key that
//! leads nowhere.

use crate::keybindings::{begins_with, chord_begins_with, clone_chord, same_chord, Keybinding};
use crate::keybindings::parser::{
    ascii_lower, to_ascii_lower, KeyCode, Shortcut, MOD_ALT, MOD_CTRL, MOD_META, MOD_SHIFT,
};
use crate::keybindings::validate::{render_chord, render_chord_spec};
use vstd::prelude::*;
use vstd::string::*;

verus! {

/// A key as the terminal reports it.
#[derive(Debug, Clone, Copy, PartialEq, Eq, Structural)]
pub enum KeyPress {
    Char(char),
    Enter,
    Esc,
    Tab,
    BackTab,
    Backspace,
    Delete,
    Up,
    Down,
    Left,
    Right,
    Home,
    End,
    PageUp,
    PageDown,
    Insert,
    F(u8),
    /// A key that no shortcut can name, such as a media key.
    Other,
}

/// A key press with the modifiers that were held.
#[derive(Debug, Clone, Copy, PartialEq, Eq, Structural)]
pub struct KeyEvent {
    pub code: KeyPress,
    pub control: bool,
    pub alt: bool,
    pub shift: bool,
    pub super_key: bool,
    pub meta: bool,
}

/// The bit `m` where `held` is true.
pub open spec fn bit(held: bool, m: u8) -> u8 {
    if held {
        m
    } else {
        0
    }
}

/// The key of a shortcut; letters are lower case.
pub open spec fn key_of(code: KeyPress) -> Option<KeyCode> {
    match code {
        KeyPress::Char(c) => Some(KeyCode::Char(ascii_lower(c))),
        KeyPress::Enter => Some(KeyCode::Enter),
        KeyPress::Esc => Some(KeyCode::Esc),
        KeyPress::Tab => Some(KeyCode::Tab),
        KeyPress::BackTab => Some(KeyCode::BackTab),
        KeyPress::Backspace => Some(KeyCode::Backspace),
        KeyPress::Delete => Some(KeyCode::Delete),
        KeyPress::Up => Some(KeyCode::Up),
        KeyPress::Down => Some(KeyCode::Down),
        KeyPress::Left => Some(KeyCode::Left),
        KeyPress::Right => Some(KeyCode::Right),
        KeyPress::Home => Some(KeyCode::Home),
        KeyPress::End => Some(KeyCode::End),
        KeyPress::PageUp => Some(KeyCode::PageUp),
        KeyPress::PageDown => Some(KeyCode::PageDown),
        KeyPress::Insert => Some(KeyCode::Insert),
        KeyPress::F(n) => Some(KeyCode::Function(n)),
        KeyPress::Other => None,
    }
}

/// The shortcut that a key press is; the super key counts as Meta.
pub open spec fn shortcut_spec(event: KeyEvent) -> Option<Shortcut> {
    match key_of(event.code) {
        Some(key) => Some(
            Shortcut {
                modifiers: bit(event.control, MOD_CTRL) | bit(event.alt, MOD_ALT) | bit(
                    event.shift,
                    MOD_SHIFT,
                ) | bit(event.super_key || event.meta, MOD_META),
                key,
            },
        ),
        None => None,
    }
}

/// What became of a key press.
#[derive(Debug, PartialEq, Eq)]
pub enum ResolveOutcome {
    /// A whole chord; the name of its action.
    Action(String),
    /// The beginning of a chord; the next key decides.
    Partial,
    /// No binding; the key is handed back.
    Unmatched(Shortcut),
    /// Esc in the middle of a chord.
    ChordCancelled,
}

/// What a [`ResolveOutcome`] holds.
pub enum OutcomeView {
    Action(Seq<char>),
    Partial,
    Unmatched(Shortcut),
    ChordCancelled,
}

impl View for ResolveOutcome {
    type V = OutcomeView;

    open spec fn view(&self) -> OutcomeView {
        match *self {
            ResolveOutcome::Action(a) => OutcomeView::Action(a@),
            ResolveOutcome::Partial => OutcomeView::Partial,
            ResolveOutcome::Unmatched(s) => OutcomeView::Unmatched(s),
            ResolveOutcome::ChordCancelled => OutcomeView::ChordCancelled,
        }
    }
}

impl Clone for ResolveOutcome {
    fn clone(&self) -> (r: Self)
        ensures
            r == *self,
    {
        match self {
            ResolveOutcome::Action(a) => ResolveOutcome::Action(a.clone()),
            ResolveOutcome::Partial => ResolveOutcome::Partial,
            ResolveOutcome::Unmatched(s) => ResolveOutcome::Unmatched(*s),
            ResolveOutcome::ChordCancelled => ResolveOutcome::ChordCancelled,
        }
    }
}

/// How many bindings stand before the first one with chord `c`.
pub open spec fn first_match(table: Seq<Keybinding>, c: Seq<Shortcut>) -> nat
    decreases table.len(),
{
    if table.len() == 0 || table[0].chord@ == c {
        0
    } else {
        1 + first_match(table.drop_first(), c)
    }
}

/// Some chord goes on behind `c`.
pub open spec fn can_extend(table: Seq<Keybinding>, c: Seq<Shortcut>) -> bool {
    exists|i: int|
        0 <= i < table.len() && #[trigger] table[i].chord@.len() > c.len() && begins_with(
            table[i].chord@,
            c,
        )
}

pub open spec fn escape() -> Shortcut {
    Shortcut { modifiers: 0, key: KeyCode::Esc }
}

/// What a shortcut does when the keys of `prefix` are held: the outcome, and the keys held
/// from then on. An exact match wins over a longer chord, and the first binding of a chord
/// over the later ones.
pub open spec fn press(table: Seq<Keybinding>, prefix: Seq<Shortcut>, s: Shortcut) -> (
    OutcomeView,
    Seq<Shortcut>,
) {
    let chord = prefix.push(s);
    let i = first_match(table, chord) as int;
    if prefix.len() > 0 && s == escape() {
        (OutcomeView::ChordCancelled, seq![])
    } else if i < table.len() {
        (OutcomeView::Action(table[i].action@), seq![])
    } else if can_extend(table, chord) {
        (OutcomeView::Partial, chord)
    } else {
        (OutcomeView::Unmatched(s), seq![])
    }
}

/// The outcome of a key event and the keys that are held then. A key that no shortcut can name
/// is handed back as a question mark.
pub open spec fn key_outcome(table: Seq<Keybinding>, prefix: Seq<Shortcut>, event: KeyEvent) -> (
    OutcomeView,
    Seq<Shortcut>,
) {
    match shortcut_spec(event) {
        Some(s) => press(table, prefix, s),
        None => (
            OutcomeView::Unmatched(Shortcut { modifiers: 0, key: KeyCode::Char('?') }),
            seq![],
        ),
    }
}

/// The bindings, and the keys of an unfinished chord.
pub struct Resolver {
    bindings: Vec<Keybinding>,
    chord_prefix: Vec<Shortcut>,
}

fn find_chord(table: &Vec<Keybinding>, c: &Vec<Shortcut>) -> (k: usize)
    ensures
        k == first_match(table@, c@),
        k <= table@.len(),
{
    let mut k: usize = 0;
    proof {
        assert(table@.skip(0) =~= table@);
    }
    while k < table.len() && !same_chord(&table[k].chord, c)
        invariant
            k <= table@.len(),
            first_match(table@, c@) == k + first_match(table@.skip(k as int), c@),
        decreases table@.len() - k,
    {
        assert(table@.skip(k as int).drop_first() =~= table@.skip(k + 1));
        k += 1;
    }
    k
}

fn extends(table: &Vec<Keybinding>, c: &Vec<Shortcut>) -> (r: bool)
    ensures
        r == can_extend(table@, c@),
{
    let mut k: usize = 0;
    while k < table.len()
        invariant
            k <= table@.len(),
            forall|i: int|
                0 <= i < k ==> !(#[trigger] table@[i].chord@.len() > c@.len() && begins_with(
                    table@[i].chord@,
                    c@,
                )),
        decreases table@.len() - k,
    {
        if table[k].chord.len() > c.len() && chord_begins_with(&table[k].chord, c) {
            return true;
        }
        k += 1;
    }
    false
}

impl Resolver {
    /// The bindings, in the order in which they are tried.
    pub closed spec fn table(&self) -> Seq<Keybinding> {
        self.bindings@
    }

    /// The keys of an unfinished chord.
    pub closed spec fn prefix(&self) -> Seq<Shortcut> {
        self.chord_prefix@
    }

    pub fn new(bindings: Vec<Keybinding>) -> (r: Self)
        ensures
            r.table() == bindings@,
            r.prefix() == Seq::<Shortcut>::empty(),
    {
        Resolver { bindings, chord_prefix: Vec::new() }
    }

    pub fn bindings(&self) -> (r: &[Keybinding])
        ensures
            r@ == self.table(),
    {
        self.bindings.as_slice()
    }

    /// The shortcut of a key press, where a shortcut can name the key.
    pub fn shortcut_of(event: &KeyEvent) -> (r: Option<Shortcut>)
        ensures
            r == shortcut_spec(*event),
    {
        let mut modifiers: u8 = 0;
        if event.control {
            modifiers = modifiers | MOD_CTRL;
        }
        if event.alt {
            modifiers = modifiers | MOD_ALT;
        }
        if event.shift {
            modifiers = modifiers | MOD_SHIFT;
        }
        if event.super_key || event.meta {
            modifiers = modifiers | MOD_META;
        }
        proof {
            assert(forall|x: u8| #[trigger] (0u8 | x) == x) by (bit_vector);
            assert(forall|x: u8| #[trigger] (x | 0u8) == x) by (bit_vector);
        }
        let key: KeyCode = match event.code {
            KeyPress::Char(ch) => KeyCode::Char(to_ascii_lower(ch)),
            KeyPress::Enter => KeyCode::Enter,
            KeyPress::Esc => KeyCode::Esc,
            KeyPress::Tab => KeyCode::Tab,
            KeyPress::BackTab => KeyCode::BackTab,
            KeyPress::Backspace => KeyCode::Backspace,
            KeyPress::Delete => KeyCode::Delete,
            KeyPress::Up => KeyCode::Up,
            KeyPress::Down => KeyCode::Down,
            KeyPress::Left => KeyCode::Left,
            KeyPress::Right => KeyCode::Right,
            KeyPress::Home => KeyCode::Home,
            KeyPress::End => KeyCode::End,
            KeyPress::PageUp => KeyCode::PageUp,
            KeyPress::PageDown => KeyCode::PageDown,
            KeyPress::Insert => KeyCode::Insert,
            KeyPress::F(n) => KeyCode::Function(n),
            KeyPress::Other => {
                return None;
            },
        };
        Some(Shortcut { modifiers, key })
    }

    /// Takes a key press in. A key that no shortcut can name matches nothing, and an
    /// unfinished chord is given up as on any other key that does not go on with it.
    pub fn on_key(&mut self, event: &KeyEvent) -> (r: ResolveOutcome)
        ensures
            final(self).table() == old(self).table(),
            (r@, final(self).prefix()) == key_outcome(
                old(self).table(),
                old(self).prefix(),
                *event,
            ),
            match shortcut_spec(*event) {
                Some(s) => (r@, final(self).prefix()) == press(
                    old(self).table(),
                    old(self).prefix(),
                    s,
                ),
                None => r@ == OutcomeView::Unmatched(
                    Shortcut { modifiers: 0, key: KeyCode::Char('?') },
                ) && final(self).prefix() == Seq::<Shortcut>::empty(),
            },
    {
        let s: Shortcut = match Resolver::shortcut_of(event) {
            Some(s) => s,
            None => {
                self.chord_prefix = Vec::new();
                return ResolveOutcome::Unmatched(
                    Shortcut { modifiers: 0, key: KeyCode::Char('?') },
                );
            },
        };
        if self.chord_prefix.len() > 0 && s.modifiers == 0 && s.key == KeyCode::Esc {
            self.chord_prefix = Vec::new();
            return ResolveOutcome::ChordCancelled;
        }
        let mut chord: Vec<Shortcut> = clone_chord(&self.chord_prefix);
        chord.push(s);
        let i: usize = find_chord(&self.bindings, &chord);
        if i < self.bindings.len() {
            self.chord_prefix = Vec::new();
            ResolveOutcome::Action(self.bindings[i].action.clone())
        } else if extends(&self.bindings, &chord) {
            self.chord_prefix = chord;
            ResolveOutcome::Partial
        } else {
            self.chord_prefix = Vec::new();
            ResolveOutcome::Unmatched(s)
        }
    }

    /// Drops an unfinished chord.
    pub fn reset(&mut self)
        ensures
            final(self).table() == old(self).table(),
            final(self).prefix() == Seq::<Shortcut>::empty(),
    {
        self.chord_prefix = Vec::new();
    }

    /// Whether a chord is unfinished.
    pub fn is_in_chord(&self) -> (r: bool)
        ensures
            r == (self.prefix().len() > 0),
    {
        self.chord_prefix.len() > 0
    }

    /// The keys of an unfinished chord, for the status line.
    pub fn chord_hint(&self) -> (r: Option<String>)
        ensures
            r is Some == (self.prefix().len() > 0),
            r matches Some(t) ==> t@ == render_chord_spec(self.prefix()),
    {
        if self.chord_prefix.len() == 0 {
            None
        } else {
            Some(render_chord(&self.chord_prefix))
        }
    }
}

// ---- laws ----------------------------------------------------------------------------

pub proof fn lemma_first_match(table: Seq<Keybinding>, c: Seq<Shortcut>)
    ensures
        first_match(table, c) <= table.len(),
        first_match(table, c) < table.len() ==> table[first_match(table, c) as int].chord@ == c,
        forall|i: int| 0 <= i < first_match(table, c) ==> (#[trigger] table[i]).chord@ != c,
    decreases table.len(),
{
    if table.len() > 0 && table[0].chord@ != c {
        let t = table.drop_first();
        lemma_first_match(t, c);
        assert forall|i: int| 0 <= i < first_match(table, c) implies (#[trigger] table[i]).chord@
            != c by {
            if i > 0 {
                assert(table[i] == t[i - 1]);
            }
        }
    }
}

/// The keys held after the first `k` keys of `keys` were pressed, starting from rest.
pub open spec fn held(table: Seq<Keybinding>, keys: Seq<Shortcut>, k: int) -> Seq<Shortcut>
    decreases k,
{
    if k <= 0 {
        seq![]
    } else {
        press(table, held(table, keys, k - 1), keys[k - 1]).1
    }
}

/// What the `k`-th key of `keys` does, when they are pressed from rest one after the other.
pub open spec fn outcome_of(table: Seq<Keybinding>, keys: Seq<Shortcut>, k: int) -> OutcomeView {
    press(table, held(table, keys, k), keys[k]).0
}

/// No binding's chord is a proper beginning of `c`, and Esc alone stands in no place but the
/// first.
pub open spec fn is_reachable(table: Seq<Keybinding>, c: Seq<Shortcut>) -> bool {
    &&& forall|i: int, n: int|
        0 <= i < table.len() && 0 < n < c.len() ==> #[trigger] table[i].chord@ != #[trigger] c.take(
            n,
        )
    &&& forall|n: int| 0 < n < c.len() ==> #[trigger] c[n] != escape()
}

proof fn lemma_chord_held(table: Seq<Keybinding>, i: int, n: int)
    requires
        0 <= i < table.len(),
        is_reachable(table, table[i].chord@),
        0 <= n < table[i].chord@.len(),
    ensures
        held(table, table[i].chord@, n) == table[i].chord@.take(n),
        0 < n ==> outcome_of(table, table[i].chord@, n - 1) == OutcomeView::Partial,
    decreases n,
{
    let c = table[i].chord@;
    if n == 0 {
        assert(c.take(0) =~= seq![]);
    } else {
        lemma_chord_held(table, i, n - 1);
        let p = c.take(n - 1).push(c[n - 1]);
        assert(p =~= c.take(n));
        lemma_first_match(table, p);
    }
}

/// Pressing the keys of a reachable chord one after the other holds each key but the last,
/// and the last one gives the action of the first binding of that chord.
pub proof fn law_chord_resolves(table: Seq<Keybinding>, i: int, n: int)
    requires
        0 <= i < table.len(),
        table[i].chord@.len() > 0,
        forall|j: int| 0 <= j < i ==> (#[trigger] table[j]).chord@ != table[i].chord@,
        is_reachable(table, table[i].chord@),
        0 <= n < table[i].chord@.len(),
    ensures
        outcome_of(table, table[i].chord@, n) == if n == table[i].chord@.len() - 1 {
            OutcomeView::Action(table[i].action@)
        } else {
            OutcomeView::Partial
        },
        held(table, table[i].chord@, table[i].chord@.len() as int) == Seq::<Shortcut>::empty(),
{
    let c = table[i].chord@;
    let l = c.len() - 1;
    lemma_chord_held(table, i, l);
    assert(c.take(l).push(c[l]) =~= c);
    lemma_first_match(table, c);
    if n < l {
        lemma_chord_held(table, i, n + 1);
    }
}

/// Where the chord of one binding is the beginning of another's, the longer one never
/// comes about by its own keys: the shorter one fires first.
pub proof fn law_shadowed_chord_never_completes(table: Seq<Keybinding>, a: int, b: int)
    requires
        0 <= a < table.len(),
        0 <= b < table.len(),
        0 < table[a].chord@.len() < table[b].chord@.len(),
        begins_with(table[b].chord@, table[a].chord@),
    ensures
        exists|n: int|
            0 <= n < table[b].chord@.len() - 1 && (#[trigger] outcome_of(table, table[b].chord@, n)
                is Action || outcome_of(table, table[b].chord@, n) is ChordCancelled
                || outcome_of(table, table[b].chord@, n) is Unmatched),
{
    let c = table[b].chord@;
    let l = table[a].chord@.len() - 1;
    if forall|n: int| 0 <= n < c.len() - 1 ==> #[trigger] outcome_of(table, c, n) is Partial {
        lemma_all_partial(table, c, l);
        assert(c.take(l).push(c[l]) =~= c.take(l + 1));
        lemma_first_match(table, c.take(l + 1));
        assert(outcome_of(table, c, l) is Partial);
    }
}

proof fn lemma_all_partial(table: Seq<Keybinding>, c: Seq<Shortcut>, n: int)
    requires
        0 <= n < c.len(),
        forall|k: int| 0 <= k < n ==> #[trigger] outcome_of(table, c, k) is Partial,
    ensures
        held(table, c, n) == c.take(n),
    decreases n,
{
    if n > 0 {
        lemma_all_partial(table, c, n - 1);
        assert(outcome_of(table, c, n - 1) is Partial);
    }
}

/// Esc in the middle of a chord gives it up, whatever is bound.
pub proof fn law_escape_cancels(table: Seq<Keybinding>, prefix: Seq<Shortcut>)
    requires
        prefix.len() > 0,
    ensures
        press(table, prefix, escape()) == (OutcomeView::ChordCancelled, Seq::<Shortcut>::empty()),
{
}

/// Keys are held after a press exactly where it is the beginning of a chord.
pub proof fn law_held_iff_partial(table: Seq<Keybinding>, prefix: Seq<Shortcut>, s: Shortcut)
    ensures
        press(table, prefix, s).0 is Partial <==> press(table, prefix, s).1.len() > 0,
{
}

} // verus!
