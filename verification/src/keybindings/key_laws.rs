//! What a key press, a table of bindings and the warnings about it come to.

use crate::frame_state::opt_text;
use crate::keybindings::{begins_with, BindingView, Keybinding, KeybindingSource};
use crate::keybindings::loader::{merge_spec, user_bindings_spec, without, UserBindingEntry};
use crate::keybindings::parser::{
    ascii_lower, parse_chord_spec, parse_spec, KeyCode, ParseFault, Shortcut, MOD_ALT, MOD_CTRL,
    MOD_META, MOD_SHIFT,
};
use crate::keybindings::reserved::is_reserved;
use crate::keybindings::resolver::{
    bit, can_extend, first_match, key_outcome, lemma_first_match, press, shortcut_spec, KeyEvent,
    KeyPress, OutcomeView,
};
use crate::keybindings::round_trip::{is_canonical, is_canonical_key, law_render_parses_back};
use crate::keybindings::validate::{
    duplicates, first_reserved, render_chord_spec, reserved_issues, shadow_issues, shadowed_by,
    shadows, validate_spec, IssueView,
};
use crate::text::decimal_spec;
use vstd::prelude::*;

verus! {

// ---- key presses ---------------------------------------------------------------------

/// What a key is called in the notation of shortcuts.
pub open spec fn name_of(code: KeyPress) -> Seq<char> {
    match code {
        KeyPress::Char(c) => seq![c],
        KeyPress::Enter => "Enter"@,
        KeyPress::Esc => "Esc"@,
        KeyPress::Tab => "Tab"@,
        KeyPress::BackTab => "BackTab"@,
        KeyPress::Backspace => "Backspace"@,
        KeyPress::Delete => "Delete"@,
        KeyPress::Up => "Up"@,
        KeyPress::Down => "Down"@,
        KeyPress::Left => "Left"@,
        KeyPress::Right => "Right"@,
        KeyPress::Home => "Home"@,
        KeyPress::End => "End"@,
        KeyPress::PageUp => "PageUp"@,
        KeyPress::PageDown => "PageDown"@,
        KeyPress::Insert => "Insert"@,
        KeyPress::F(n) => "F"@ + decimal_spec(n as nat),
        KeyPress::Other => seq![],
    }
}

/// A word and a `+` where a modifier is held.
pub open spec fn held_word(held: bool, word: Seq<char>) -> Seq<char> {
    if held {
        word
    } else {
        seq![]
    }
}

/// A key press in words.
pub open spec fn press_in_words(e: KeyEvent) -> Seq<char> {
    held_word(e.control, "Ctrl+"@) + (held_word(e.alt, "Alt+"@) + (held_word(e.shift, "Shift+"@) + (
    held_word(e.super_key || e.meta, "Meta+"@) + name_of(e.code))))
}

/// The notation has a name for the key.
pub open spec fn has_name(code: KeyPress) -> bool {
    match code {
        KeyPress::Char(c) => is_canonical_key(KeyCode::Char(c)),
        KeyPress::F(n) => 1 <= n <= 12,
        KeyPress::Other => false,
        _ => true,
    }
}

proof fn lemma_bits(c: bool, a: bool, s: bool, m: bool)
    ensures
        ({
            let x = bit(c, MOD_CTRL) | bit(a, MOD_ALT) | bit(s, MOD_SHIFT) | bit(m, MOD_META);
            &&& x < 16
            &&& (x & MOD_CTRL != 0) == c
            &&& (x & MOD_ALT != 0) == a
            &&& (x & MOD_SHIFT != 0) == s
            &&& (x & MOD_META != 0) == m
        }),
{
    let p: u8 = bit(c, MOD_CTRL);
    let q: u8 = bit(a, MOD_ALT);
    let r: u8 = bit(s, MOD_SHIFT);
    let t: u8 = bit(m, MOD_META);
    assert((p | q | r | t) < 16 && (((p | q | r | t) & 1u8 != 0) == (p == 1)) && (((p | q | r | t)
        & 2u8 != 0) == (q == 2)) && (((p | q | r | t) & 4u8 != 0) == (r == 4)) && (((p | q | r | t)
        & 8u8 != 0) == (t == 8))) by (bit_vector)
        requires
            p == 0 || p == 1,
            q == 0 || q == 2,
            r == 0 || r == 4,
            t == 0 || t == 8,
    ;
}

/// A key press is the shortcut that it is called: the text `Ctrl+Alt+Shift+Meta+` with the
/// modifiers that are held, and the name of the key, is read as that shortcut, and written for
/// it.
pub proof fn law_press_is_what_it_is_called(e: KeyEvent)
    requires
        has_name(e.code),
    ensures
        shortcut_spec(e) is Some,
        parse_spec(press_in_words(e)) == Ok::<Shortcut, ParseFault>(shortcut_spec(e)->0),
        shortcut_spec(e)->0.render_spec() == press_in_words(e),
{
    let s = shortcut_spec(e)->0;
    lemma_bits(e.control, e.alt, e.shift, e.super_key || e.meta);
    match e.code {
        KeyPress::Char(c) => {
            assert(crate::keybindings::parser::lowercase(seq![c]) == seq![c]);
            lemma_lower_case_stays(c);
        },
        _ => {},
    }
    assert(is_canonical(s));
    law_render_parses_back(s);
    reveal_strlit("Ctrl+");
    reveal_strlit("Alt+");
    reveal_strlit("Shift+");
    reveal_strlit("Meta+");
    reveal_strlit("Ctrl");
    reveal_strlit("Alt");
    reveal_strlit("Shift");
    reveal_strlit("Meta");
    reveal_strlit("+");
    assert("Ctrl+"@ =~= "Ctrl"@ + "+"@);
    assert("Alt+"@ =~= "Alt"@ + "+"@);
    assert("Shift+"@ =~= "Shift"@ + "+"@);
    assert("Meta+"@ =~= "Meta"@ + "+"@);
    assert(Shortcut::key_name(s.key) == name_of(e.code));
    assert(s.render_spec() == press_in_words(e));
}

proof fn lemma_lower_case_stays(c: char)
    requires
        crate::keybindings::parser::lowercase(seq![c]) == seq![c],
    ensures
        ascii_lower(c) == c,
{
    let s = seq![c];
    if 'A' <= c <= 'Z' {
        assert(vstd::utf8::is_ascii_chars(s));
        assert(crate::keybindings::parser::lowercase(s)[0] == ascii_lower(c));
    }
}

/// A character that is no capital and a function key of any number are the keys that they are,
/// also where the notation has no name for them.
pub proof fn law_characters_and_function_keys(e: KeyEvent)
    ensures
        e.code matches KeyPress::Char(c) ==> (!('A' <= c <= 'Z') ==> shortcut_spec(e)->0.key
            == KeyCode::Char(c)),
        e.code matches KeyPress::F(n) ==> shortcut_spec(e)->0.key == KeyCode::Function(n),
{
}

/// A letter is the same key with and without capitals.
pub proof fn law_capitals_are_the_same_key(e: KeyEvent, c: char)
    requires
        'a' <= c <= 'z',
    ensures
        shortcut_spec(KeyEvent { code: KeyPress::Char(((c as u32) - 32) as char), ..e })
            == shortcut_spec(KeyEvent { code: KeyPress::Char(c), ..e }),
{
}

/// Different keys are different shortcuts, and so are different modifiers; only capitals, and
/// the two keys for Meta, make no difference.
pub proof fn law_different_presses_are_different_shortcuts(a: KeyEvent, b: KeyEvent)
    requires
        shortcut_spec(a) is Some,
        shortcut_spec(a) == shortcut_spec(b),
    ensures
        a.control == b.control,
        a.alt == b.alt,
        a.shift == b.shift,
        (a.super_key || a.meta) == (b.super_key || b.meta),
        a.code == b.code || (a.code matches KeyPress::Char(c) && b.code matches KeyPress::Char(d)
            && ascii_lower(c) == ascii_lower(d)),
{
    lemma_bits(a.control, a.alt, a.shift, a.super_key || a.meta);
    lemma_bits(b.control, b.alt, b.shift, b.super_key || b.meta);
}

/// A key without a name is no shortcut, and no other key is none.
pub proof fn law_only_other_keys_are_no_shortcut(e: KeyEvent)
    ensures
        shortcut_spec(e) is None <==> e.code is Other,
{
}

// ---- resolving -----------------------------------------------------------------------

/// The keys that are held and the one that is pressed make up a chord. Where a binding has
/// that chord, its action is the outcome, and of several the first one's. Where none has, but
/// one begins with it, the keys are held. Otherwise the key is handed back, and none is held.
pub proof fn law_press_looks_up_the_chord(
    table: Seq<Keybinding>,
    prefix: Seq<Shortcut>,
    s: Shortcut,
    i: int,
)
    requires
        prefix.len() == 0 || s != (Shortcut { modifiers: 0, key: KeyCode::Esc }),
    ensures
        0 <= i < table.len() && table[i].chord@ == prefix.push(s) && (forall|j: int|
            0 <= j < i ==> (#[trigger] table[j]).chord@ != prefix.push(s)) ==> press(
            table,
            prefix,
            s,
        ) == (OutcomeView::Action(table[i].action@), Seq::<Shortcut>::empty()),
        (forall|j: int| 0 <= j < table.len() ==> (#[trigger] table[j]).chord@ != prefix.push(s))
            ==> press(table, prefix, s) == if exists|j: int|
            0 <= j < table.len() && is_beginning(prefix.push(s), (#[trigger] table[j]).chord@) {
            (OutcomeView::Partial, prefix.push(s))
        } else {
            (OutcomeView::Unmatched(s), Seq::<Shortcut>::empty())
        },
{
    let c = prefix.push(s);
    lemma_first_match(table, c);
    let k = first_match(table, c) as int;
    if 0 <= i < table.len() && table[i].chord@ == c && (forall|j: int|
        0 <= j < i ==> (#[trigger] table[j]).chord@ != c) {
        assert(k == i);
    }
    if forall|j: int| 0 <= j < table.len() ==> (#[trigger] table[j]).chord@ != c {
        if can_extend(table, c) {
            let j = choose|j: int|
                0 <= j < table.len() && #[trigger] table[j].chord@.len() > c.len() && begins_with(
                    table[j].chord@,
                    c,
                );
            assert forall|n: int| 0 <= n < c.len() implies #[trigger] c[n] == table[j].chord@[n] by {
                assert(table[j].chord@.take(c.len() as int)[n] == table[j].chord@[n]);
            }
            assert(is_beginning(c, table[j].chord@));
        }
        if exists|j: int| 0 <= j < table.len() && is_beginning(c, (#[trigger] table[j]).chord@) {
            let j = choose|j: int|
                0 <= j < table.len() && is_beginning(c, (#[trigger] table[j]).chord@);
            assert(table[j].chord@.take(c.len() as int) =~= c);
            assert(table[j].chord@.len() > c.len());
        }
    }
}

/// A chord is the beginning of a longer one.
pub open spec fn is_beginning(c: Seq<Shortcut>, d: Seq<Shortcut>) -> bool {
    c.len() < d.len() && forall|n: int| 0 <= n < c.len() ==> #[trigger] c[n] == d[n]
}

// ---- merging -------------------------------------------------------------------------

/// A key event is looked up as its shortcut. A key that is none ends the chord and is handed
/// back as a question mark.
pub proof fn law_key_event_is_looked_up(table: Seq<Keybinding>, prefix: Seq<Shortcut>, e: KeyEvent)
    ensures
        !(e.code is Other) ==> key_outcome(table, prefix, e) == press(
            table,
            prefix,
            shortcut_spec(e)->0,
        ),
        e.code is Other ==> key_outcome(table, prefix, e) == (
            OutcomeView::Unmatched(Shortcut { modifiers: 0, key: KeyCode::Char('?') }),
            Seq::<Shortcut>::empty(),
        ),
{
}

/// A user binding with a new chord is appended, and nothing else changes; without user
/// bindings the defaults are what there is.
pub proof fn law_new_chord_is_appended(
    defaults: Seq<Keybinding>,
    user: Seq<Keybinding>,
    u: Keybinding,
)
    requires
        forall|i: int|
            0 <= i < merge_spec(defaults, user).len() ==> (#[trigger] merge_spec(
                defaults,
                user,
            )[i]).chord@ != u.chord@,
    ensures
        merge_spec(defaults, seq![]) == defaults,
        merge_spec(defaults, user.push(u)) == merge_spec(defaults, user).push(u),
{
    assert(user.push(u).drop_last() =~= user);
    lemma_without_absent(merge_spec(defaults, user), u.chord@);
}

proof fn lemma_without_absent(s: Seq<Keybinding>, c: Seq<Shortcut>)
    requires
        forall|i: int| 0 <= i < s.len() ==> (#[trigger] s[i]).chord@ != c,
    ensures
        without(s, c) == s,
    decreases s.len(),
{
    reveal(Seq::filter);
    if s.len() > 0 {
        lemma_without_absent(s.drop_last(), c);
        assert(s.drop_last().push(s.last()) =~= s);
    }
}

/// A user binding that replaces another takes that place away and stands at the end; the
/// others keep their order.
pub proof fn law_replacing_keeps_the_others_in_order(
    defaults: Seq<Keybinding>,
    user: Seq<Keybinding>,
    before: Seq<Keybinding>,
    old: Keybinding,
    after: Seq<Keybinding>,
    u: Keybinding,
)
    requires
        merge_spec(defaults, user) == before + seq![old] + after,
        old.chord@ == u.chord@,
        forall|i: int| 0 <= i < before.len() ==> (#[trigger] before[i]).chord@ != u.chord@,
        forall|i: int| 0 <= i < after.len() ==> (#[trigger] after[i]).chord@ != u.chord@,
    ensures
        merge_spec(defaults, user.push(u)) == before + after + seq![u],
{
    assert(user.push(u).drop_last() =~= user);
    lemma_without_one(before, old, after, u.chord@);
    assert((before + after).push(u) =~= before + after + seq![u]);
}

proof fn lemma_without_one(
    before: Seq<Keybinding>,
    old: Keybinding,
    after: Seq<Keybinding>,
    c: Seq<Shortcut>,
)
    requires
        old.chord@ == c,
        forall|i: int| 0 <= i < before.len() ==> (#[trigger] before[i]).chord@ != c,
        forall|i: int| 0 <= i < after.len() ==> (#[trigger] after[i]).chord@ != c,
    ensures
        without(before + seq![old] + after, c) == before + after,
    decreases after.len(),
{
    reveal(Seq::filter);
    let d = before + seq![old] + after;
    if after.len() == 0 {
        assert(d.drop_last() =~= before);
        lemma_without_absent(before, c);
        assert(before + after =~= before);
    } else {
        let init = after.drop_last();
        assert(d.drop_last() =~= before + seq![old] + init);
        lemma_without_one(before, old, init, c);
        assert((before + init).push(after.last()) =~= before + after);
    }
}

/// An entry of the file whose shortcut can be read is a binding of the user's, with its
/// action and its description; one that cannot be read is none. The bindings stand in the
/// order of the entries.
pub proof fn law_entries_become_bindings(
    entries: Seq<UserBindingEntry>,
    more: Seq<UserBindingEntry>,
    e: UserBindingEntry,
)
    ensures
        user_bindings_spec(entries + more) == user_bindings_spec(entries) + user_bindings_spec(
            more,
        ),
        parse_chord_spec(e.shortcut@) matches Ok(chord) ==> user_bindings_spec(seq![e]) == seq![
            BindingView {
                chord,
                action: e.action@,
                description: opt_text(e.description),
                source: KeybindingSource::User,
            },
        ],
        parse_chord_spec(e.shortcut@) is Err ==> user_bindings_spec(seq![e]).len() == 0,
    decreases more.len(),
{
    let one = seq![e];
    assert(one.drop_last() =~= seq![]);
    assert(user_bindings_spec(one.drop_last()) =~= seq![]);
    assert(user_bindings_spec(one) =~= match parse_chord_spec(e.shortcut@) {
        Ok(chord) => seq![
            BindingView {
                chord,
                action: e.action@,
                description: opt_text(e.description),
                source: KeybindingSource::User,
            },
        ],
        Err(_) => seq![],
    });
    let all = entries + more;
    if more.len() == 0 {
        assert(all =~= entries);
        assert(user_bindings_spec(more) =~= seq![]);
        assert(user_bindings_spec(entries) + user_bindings_spec(more) =~= user_bindings_spec(
            entries,
        ));
    } else {
        law_entries_become_bindings(entries, more.drop_last(), e);
        assert(all.drop_last() =~= entries + more.drop_last());
        assert(all.last() == more.last());
        assert(user_bindings_spec(all) =~= user_bindings_spec(entries) + user_bindings_spec(more));
    }
}

// ---- warnings ------------------------------------------------------------------------

/// The terminal keeps Ctrl with Z, S and Q for itself, and nothing else.
pub proof fn law_reserved_keys(s: Shortcut)
    ensures
        is_reserved(s) <==> s.modifiers == 1 && (s.key == KeyCode::Char('z') || s.key
            == KeyCode::Char('s') || s.key == KeyCode::Char('q')),
{
}

/// A duplicate is reported for each binding whose chord an earlier one has, against the
/// first of them; and nothing else is reported as one.
pub proof fn law_duplicates_are_reported(bs: Seq<Keybinding>, issue: IssueView)
    requires
        issue is DuplicateChord,
    ensures
        validate_spec(bs).contains(issue) <==> exists|i: int, j: int|
            #![trigger bs[i], bs[j]]
            is_duplicate(bs, i, j, issue),
{
    lemma_duplicates(bs, issue);
    lemma_other_kinds(bs, issue);
    lemma_contains_add(duplicates(bs), reserved_issues(bs), issue);
    lemma_contains_add(duplicates(bs) + reserved_issues(bs), shadow_issues(bs, bs), issue);
}

/// Binding `j` has the chord of binding `i`, which is the first one with it.
pub open spec fn is_duplicate(bs: Seq<Keybinding>, i: int, j: int, issue: IssueView) -> bool {
    &&& 0 <= i < j < bs.len()
    &&& bs[i].chord@ == bs[j].chord@
    &&& forall|k: int| 0 <= k < i ==> (#[trigger] bs[k]).chord@ != bs[i].chord@
    &&& issue == (IssueView::DuplicateChord {
        shortcut_render: render_chord_spec(bs[i].chord@),
        first_action: bs[i].action@,
        second_action: bs[j].action@,
    })
}

proof fn lemma_contains_add(a: Seq<IssueView>, b: Seq<IssueView>, x: IssueView)
    ensures
        (a + b).contains(x) <==> a.contains(x) || b.contains(x),
{
    let c = a + b;
    if a.contains(x) {
        let k = choose|k: int| 0 <= k < a.len() && a[k] == x;
        assert(c[k] == x);
    }
    if b.contains(x) {
        let k = choose|k: int| 0 <= k < b.len() && b[k] == x;
        assert(c[a.len() + k] == x);
    }
    if c.contains(x) {
        let k = choose|k: int| 0 <= k < c.len() && c[k] == x;
        if k < a.len() {
            assert(a[k] == x);
        } else {
            assert(b[k - a.len()] == x);
        }
    }
}

proof fn lemma_duplicates(bs: Seq<Keybinding>, issue: IssueView)
    ensures
        duplicates(bs).contains(issue) <==> exists|i: int, j: int|
            #![trigger bs[i], bs[j]]
            is_duplicate(bs, i, j, issue),
    decreases bs.len(),
{
    if bs.len() > 0 {
        let init = bs.drop_last();
        let b = bs.last();
        let n = init.len() as int;
        lemma_duplicates(init, issue);
        lemma_first_match(init, b.chord@);
        let f = first_match(init, b.chord@) as int;
        let before = duplicates(init);
        if f < n {
            let last = IssueView::DuplicateChord {
                shortcut_render: render_chord_spec(b.chord@),
                first_action: init[f].action@,
                second_action: b.action@,
            };
            assert(duplicates(bs) =~= before + seq![last]);
            lemma_contains_add(before, seq![last], issue);
            if seq![last].contains(issue) {
                assert(issue == last);
                assert(bs[f] == init[f] && bs[n] == b);
                assert forall|k: int| 0 <= k < f implies (#[trigger] bs[k]).chord@
                    != bs[f].chord@ by {
                    assert(bs[k] == init[k]);
                }
                assert(is_duplicate(bs, f, n, issue));
            }
            assert(seq![last][0] == last);
        }
        if before.contains(issue) {
            let (i, j) = choose|i: int, j: int|
                #![trigger init[i], init[j]]
                is_duplicate(init, i, j, issue);
            assert(bs[i] == init[i] && bs[j] == init[j]);
            assert forall|k: int| 0 <= k < i implies (#[trigger] bs[k]).chord@ != bs[i].chord@ by {
                assert(bs[k] == init[k]);
            }
            assert(is_duplicate(bs, i, j, issue));
        }
        if exists|i: int, j: int| #![trigger bs[i], bs[j]] is_duplicate(bs, i, j, issue) {
            let (i, j) = choose|i: int, j: int|
                #![trigger bs[i], bs[j]]
                is_duplicate(bs, i, j, issue);
            assert(bs[i] == init[i]);
            if j < n {
                assert(bs[j] == init[j]);
                assert(is_duplicate(init, i, j, issue));
            } else {
                assert(init[i].chord@ == b.chord@);
                assert(f == i);
            }
        }
    }
}

proof fn lemma_other_kinds(bs: Seq<Keybinding>, issue: IssueView)
    ensures
        !(issue is DuplicateChord) ==> !duplicates(bs).contains(issue),
        !(issue is ReservedShortcut) ==> !reserved_issues(bs).contains(issue),
        !(issue is ChordShadowed) ==> !shadow_issues(bs, bs).contains(issue),
{
    lemma_kinds(bs, bs);
    let a = duplicates(bs);
    let b = reserved_issues(bs);
    let c = shadow_issues(bs, bs);
    if a.contains(issue) {
        let k = choose|k: int| 0 <= k < a.len() && a[k] == issue;
        assert(a[k] is DuplicateChord);
    }
    if b.contains(issue) {
        let k = choose|k: int| 0 <= k < b.len() && b[k] == issue;
        assert(b[k] is ReservedShortcut);
    }
    if c.contains(issue) {
        let k = choose|k: int| 0 <= k < c.len() && c[k] == issue;
        assert(c[k] is ChordShadowed);
    }
}

proof fn lemma_kinds(xs: Seq<Keybinding>, bs: Seq<Keybinding>)
    ensures
        forall|k: int|
            0 <= k < duplicates(xs).len() ==> #[trigger] duplicates(xs)[k] is DuplicateChord,
        forall|k: int|
            0 <= k < reserved_issues(xs).len() ==> #[trigger] reserved_issues(
                xs,
            )[k] is ReservedShortcut,
        forall|k: int|
            0 <= k < shadow_issues(xs, bs).len() ==> #[trigger] shadow_issues(
                xs,
                bs,
            )[k] is ChordShadowed,
    decreases xs.len(),
{
    if xs.len() > 0 {
        lemma_kinds(xs.drop_last(), bs);
        lemma_shadowed_kinds(xs.last(), bs);
        let a = shadow_issues(xs.drop_last(), bs);
        let b = shadowed_by(xs.last(), bs);
        assert forall|k: int| 0 <= k < shadow_issues(xs, bs).len() implies #[trigger] shadow_issues(
            xs,
            bs,
        )[k] is ChordShadowed by {
            if k < a.len() {
                assert(shadow_issues(xs, bs)[k] == a[k]);
            } else {
                assert(shadow_issues(xs, bs)[k] == b[k - a.len()]);
            }
        }
    }
}

proof fn lemma_shadowed_kinds(a: Keybinding, bs: Seq<Keybinding>)
    ensures
        forall|k: int|
            0 <= k < shadowed_by(a, bs).len() ==> #[trigger] shadowed_by(a, bs)[k] is ChordShadowed,
    decreases bs.len(),
{
    if bs.len() > 0 {
        lemma_shadowed_kinds(a, bs.drop_last());
    }
}

/// Binding `i` has a reserved key at place `k` of its chord, and none before it.
pub open spec fn is_taken(bs: Seq<Keybinding>, i: int, k: int, issue: IssueView) -> bool {
    &&& 0 <= i < bs.len()
    &&& 0 <= k < bs[i].chord@.len()
    &&& is_reserved(bs[i].chord@[k])
    &&& forall|j: int| 0 <= j < k ==> !is_reserved(#[trigger] bs[i].chord@[j])
    &&& issue == (IssueView::ReservedShortcut {
        shortcut_render: bs[i].chord@[k].render_spec(),
        action: bs[i].action@,
    })
}

proof fn lemma_first_taken(c: Seq<Shortcut>)
    ensures
        first_reserved(c) <= c.len(),
        first_reserved(c) < c.len() ==> is_reserved(c[first_reserved(c) as int]),
        forall|j: int| 0 <= j < first_reserved(c) ==> !is_reserved(#[trigger] c[j]),
    decreases c.len(),
{
    if c.len() > 0 && !is_reserved(c[0]) {
        let t = c.drop_first();
        lemma_first_taken(t);
        assert forall|j: int| 0 <= j < first_reserved(c) implies !is_reserved(#[trigger] c[j]) by {
            if j > 0 {
                assert(!is_reserved(t[j - 1]));
            }
        }
    }
}

proof fn lemma_taken(bs: Seq<Keybinding>, issue: IssueView)
    ensures
        reserved_issues(bs).contains(issue) <==> exists|i: int, k: int|
            #![trigger bs[i].chord@[k]]
            is_taken(bs, i, k, issue),
    decreases bs.len(),
{
    if bs.len() > 0 {
        let init = bs.drop_last();
        let b = bs.last();
        let n = init.len() as int;
        lemma_taken(init, issue);
        lemma_first_taken(b.chord@);
        let f = first_reserved(b.chord@) as int;
        let before = reserved_issues(init);
        if f < b.chord@.len() {
            let last = IssueView::ReservedShortcut {
                shortcut_render: b.chord@[f].render_spec(),
                action: b.action@,
            };
            assert(reserved_issues(bs) =~= before + seq![last]);
            lemma_contains_add(before, seq![last], issue);
            assert(seq![last][0] == last);
            if seq![last].contains(issue) {
                assert(issue == last);
                assert(bs[n].chord@[f] == b.chord@[f]);
                assert(is_taken(bs, n, f, issue));
            }
        }
        if before.contains(issue) {
            let (i, k) = choose|i: int, k: int|
                #![trigger init[i].chord@[k]]
                is_taken(init, i, k, issue);
            assert(bs[i].chord@[k] == init[i].chord@[k]);
            assert forall|j: int| 0 <= j < k implies !is_reserved(#[trigger] bs[i].chord@[j]) by {
                assert(!is_reserved(init[i].chord@[j]));
            }
            assert(is_taken(bs, i, k, issue));
        }
        if exists|i: int, k: int| #![trigger bs[i].chord@[k]] is_taken(bs, i, k, issue) {
            let (i, k) = choose|i: int, k: int|
                #![trigger bs[i].chord@[k]]
                is_taken(bs, i, k, issue);
            if i < n {
                assert(init[i].chord@[k] == bs[i].chord@[k]);
                assert forall|j: int| 0 <= j < k implies !is_reserved(
                    #[trigger] init[i].chord@[j],
                ) by {
                    assert(!is_reserved(bs[i].chord@[j]));
                }
                assert(is_taken(init, i, k, issue));
            } else {
                assert(bs[i].chord@ == b.chord@);
                if f < k {
                    assert(!is_reserved(bs[i].chord@[f]));
                }
                assert(f == k);
            }
        }
    }
}

/// A reserved key is reported for each binding that has one, with the key and the action; and
/// nothing else is reported as one.
pub proof fn law_reserved_keys_are_reported(bs: Seq<Keybinding>, issue: IssueView)
    requires
        issue is ReservedShortcut,
    ensures
        validate_spec(bs).contains(issue) <==> exists|i: int, k: int|
            #![trigger bs[i].chord@[k]]
            is_taken(bs, i, k, issue),
{
    lemma_taken(bs, issue);
    lemma_other_kinds(bs, issue);
    lemma_contains_add(duplicates(bs), reserved_issues(bs), issue);
    lemma_contains_add(duplicates(bs) + reserved_issues(bs), shadow_issues(bs, bs), issue);
}

/// The chord of binding `i` is the beginning of that of binding `j`.
pub open spec fn is_shadow(
    xs: Seq<Keybinding>,
    bs: Seq<Keybinding>,
    i: int,
    j: int,
    issue: IssueView,
) -> bool {
    &&& 0 <= i < xs.len()
    &&& 0 <= j < bs.len()
    &&& is_beginning(xs[i].chord@, bs[j].chord@)
    &&& issue == (IssueView::ChordShadowed {
        prefix_render: render_chord_spec(xs[i].chord@),
        prefix_action: xs[i].action@,
        shadowed_render: render_chord_spec(bs[j].chord@),
        shadowed_action: bs[j].action@,
    })
}

proof fn lemma_shadows(a: Keybinding, b: Keybinding)
    ensures
        shadows(a, b) <==> is_beginning(a.chord@, b.chord@),
{
    let n = a.chord@.len() as int;
    if is_beginning(a.chord@, b.chord@) {
        assert(b.chord@.take(n) =~= a.chord@);
    }
    if shadows(a, b) {
        assert forall|k: int| 0 <= k < n implies #[trigger] a.chord@[k] == b.chord@[k] by {
            assert(b.chord@.take(n)[k] == b.chord@[k]);
        }
    }
}

proof fn lemma_shadowed(a: Keybinding, bs: Seq<Keybinding>, issue: IssueView)
    ensures
        shadowed_by(a, bs).contains(issue) <==> exists|j: int|
            is_shadow(seq![a], bs, 0, j, issue) && #[trigger] bs[j] == bs[j],
    decreases bs.len(),
{
    let xs = seq![a];
    if bs.len() > 0 {
        let init = bs.drop_last();
        let b = bs.last();
        let n = init.len() as int;
        lemma_shadowed(a, init, issue);
        lemma_shadows(a, b);
        let before = shadowed_by(a, init);
        if shadows(a, b) {
            let last = IssueView::ChordShadowed {
                prefix_render: render_chord_spec(a.chord@),
                prefix_action: a.action@,
                shadowed_render: render_chord_spec(b.chord@),
                shadowed_action: b.action@,
            };
            assert(shadowed_by(a, bs) =~= before + seq![last]);
            lemma_contains_add(before, seq![last], issue);
            assert(seq![last][0] == last);
            if seq![last].contains(issue) {
                assert(issue == last);
                assert(is_shadow(xs, bs, 0, n, issue) && bs[n] == bs[n]);
            }
        }
        if before.contains(issue) {
            let j = choose|j: int| is_shadow(xs, init, 0, j, issue) && #[trigger] init[j] == init[j];
            assert(bs[j] == init[j]);
            assert(is_shadow(xs, bs, 0, j, issue) && bs[j] == bs[j]);
        }
        if exists|j: int| is_shadow(xs, bs, 0, j, issue) && #[trigger] bs[j] == bs[j] {
            let j = choose|j: int| is_shadow(xs, bs, 0, j, issue) && #[trigger] bs[j] == bs[j];
            if j < n {
                assert(init[j] == bs[j]);
                assert(is_shadow(xs, init, 0, j, issue) && init[j] == init[j]);
            } else {
                assert(bs[j] == b);
            }
        }
    }
}

proof fn lemma_shadow_issues(xs: Seq<Keybinding>, bs: Seq<Keybinding>, issue: IssueView)
    ensures
        shadow_issues(xs, bs).contains(issue) <==> exists|i: int, j: int|
            #![trigger xs[i], bs[j]]
            is_shadow(xs, bs, i, j, issue),
    decreases xs.len(),
{
    if xs.len() > 0 {
        let init = xs.drop_last();
        let a = xs.last();
        let n = init.len() as int;
        lemma_shadow_issues(init, bs, issue);
        lemma_shadowed(a, bs, issue);
        lemma_contains_add(shadow_issues(init, bs), shadowed_by(a, bs), issue);
        if shadow_issues(init, bs).contains(issue) {
            let (i, j) = choose|i: int, j: int|
                #![trigger init[i], bs[j]]
                is_shadow(init, bs, i, j, issue);
            assert(xs[i] == init[i]);
            assert(is_shadow(xs, bs, i, j, issue));
        }
        if shadowed_by(a, bs).contains(issue) {
            let j = choose|j: int| is_shadow(seq![a], bs, 0, j, issue) && #[trigger] bs[j] == bs[j];
            assert(xs[n] == a);
            assert(is_shadow(xs, bs, n, j, issue));
        }
        if exists|i: int, j: int| #![trigger xs[i], bs[j]] is_shadow(xs, bs, i, j, issue) {
            let (i, j) = choose|i: int, j: int|
                #![trigger xs[i], bs[j]]
                is_shadow(xs, bs, i, j, issue);
            if i < n {
                assert(init[i] == xs[i]);
                assert(is_shadow(init, bs, i, j, issue));
            } else {
                assert(xs[i] == a);
                assert(is_shadow(seq![a], bs, 0, j, issue) && bs[j] == bs[j]);
            }
        }
    }
}

/// A shadowed chord is reported for each two bindings of which the chord of one is the
/// beginning of the other's; and nothing else is reported as one.
pub proof fn law_shadowed_chords_are_reported(bs: Seq<Keybinding>, issue: IssueView)
    requires
        issue is ChordShadowed,
    ensures
        validate_spec(bs).contains(issue) <==> exists|i: int, j: int|
            #![trigger bs[i], bs[j]]
            is_shadow(bs, bs, i, j, issue),
{
    lemma_shadow_issues(bs, bs, issue);
    lemma_other_kinds(bs, issue);
    lemma_contains_add(duplicates(bs), reserved_issues(bs), issue);
    lemma_contains_add(duplicates(bs) + reserved_issues(bs), shadow_issues(bs, bs), issue);
}

} // verus!
