//! What is wrong with a list of bindings. Nothing here is fatal: each issue is a warning.

use crate::keybindings::{begins_with, chord_begins_with, same_chord, Keybinding};
use crate::keybindings::parser::Shortcut;
use crate::keybindings::reserved::{is_reserved, is_reserved_shortcut};
use crate::keybindings::resolver::{first_match, lemma_first_match};
use crate::text::{join, join_spec, texts};
use vstd::prelude::*;
use vstd::string::*;

verus! {

#[derive(Debug, Clone, PartialEq, Eq)]
pub enum ValidationIssue {
    /// Two bindings have the same chord.
    DuplicateChord { shortcut_render: String, first_action: String, second_action: String },
    /// A chord holds a key that the terminal keeps for itself.
    ReservedShortcut { shortcut_render: String, action: String },
    /// A chord is the beginning of another, which it keeps from being reached.
    ChordShadowed {
        prefix_render: String,
        prefix_action: String,
        shadowed_render: String,
        shadowed_action: String,
    },
}

/// What a [`ValidationIssue`] holds.
pub enum IssueView {
    DuplicateChord {
        shortcut_render: Seq<char>,
        first_action: Seq<char>,
        second_action: Seq<char>,
    },
    ReservedShortcut { shortcut_render: Seq<char>, action: Seq<char> },
    ChordShadowed {
        prefix_render: Seq<char>,
        prefix_action: Seq<char>,
        shadowed_render: Seq<char>,
        shadowed_action: Seq<char>,
    },
}

impl View for ValidationIssue {
    type V = IssueView;

    open spec fn view(&self) -> IssueView {
        match *self {
            ValidationIssue::DuplicateChord { shortcut_render, first_action, second_action } =>
                IssueView::DuplicateChord {
                    shortcut_render: shortcut_render@,
                    first_action: first_action@,
                    second_action: second_action@,
                },
            ValidationIssue::ReservedShortcut { shortcut_render, action } =>
                IssueView::ReservedShortcut {
                    shortcut_render: shortcut_render@,
                    action: action@,
                },
            ValidationIssue::ChordShadowed {
                prefix_render,
                prefix_action,
                shadowed_render,
                shadowed_action,
            } => IssueView::ChordShadowed {
                prefix_render: prefix_render@,
                prefix_action: prefix_action@,
                shadowed_render: shadowed_render@,
                shadowed_action: shadowed_action@,
            },
        }
    }
}

/// What a list of issues holds.
pub open spec fn issues_view(s: Seq<ValidationIssue>) -> Seq<IssueView> {
    s.map_values(|i: ValidationIssue| i@)
}

/// The shortcuts of a chord in text form.
pub open spec fn renders(c: Seq<Shortcut>) -> Seq<Seq<char>> {
    c.map_values(|s: Shortcut| s.render_spec())
}

/// A chord in text form: its shortcuts with a space between them.
pub open spec fn render_chord_spec(c: Seq<Shortcut>) -> Seq<char> {
    join_spec(renders(c), " "@)
}

/// Writes a chord.
pub fn render_chord(c: &Vec<Shortcut>) -> (r: String)
    ensures
        r@ == render_chord_spec(c@),
{
    let mut parts: Vec<String> = Vec::new();
    let mut i: usize = 0;
    while i < c.len()
        invariant
            i <= c@.len(),
            texts(parts@) == renders(c@.take(i as int)),
        decreases c@.len() - i,
    {
        let ghost before = parts@;
        parts.push(c[i].render());
        assert(texts(parts@) =~= texts(before).push(c@[i as int].render_spec()));
        assert(renders(c@.take(i + 1)) =~= renders(c@.take(i as int)).push(
            c@[i as int].render_spec(),
        ));
        i += 1;
    }
    assert(c@.take(i as int) =~= c@);
    join(&parts, " ")
}

/// One issue for each binding whose chord an earlier one has.
pub open spec fn duplicates(bs: Seq<Keybinding>) -> Seq<IssueView>
    decreases bs.len(),
{
    if bs.len() == 0 {
        seq![]
    } else {
        let init = bs.drop_last();
        let b = bs.last();
        let first = first_match(init, b.chord@) as int;
        if first < init.len() {
            duplicates(init).push(
                IssueView::DuplicateChord {
                    shortcut_render: render_chord_spec(b.chord@),
                    first_action: init[first].action@,
                    second_action: b.action@,
                },
            )
        } else {
            duplicates(init)
        }
    }
}

/// How many shortcuts stand before the first reserved one.
pub open spec fn first_reserved(c: Seq<Shortcut>) -> nat
    decreases c.len(),
{
    if c.len() == 0 || is_reserved(c[0]) {
        0
    } else {
        1 + first_reserved(c.drop_first())
    }
}

/// One issue for each binding with a reserved shortcut, for the first such shortcut.
pub open spec fn reserved_issues(bs: Seq<Keybinding>) -> Seq<IssueView>
    decreases bs.len(),
{
    if bs.len() == 0 {
        seq![]
    } else {
        let before = reserved_issues(bs.drop_last());
        let b = bs.last();
        let k = first_reserved(b.chord@) as int;
        if k < b.chord@.len() {
            before.push(
                IssueView::ReservedShortcut {
                    shortcut_render: b.chord@[k].render_spec(),
                    action: b.action@,
                },
            )
        } else {
            before
        }
    }
}

pub open spec fn shadows(a: Keybinding, b: Keybinding) -> bool {
    a.chord@.len() < b.chord@.len() && begins_with(b.chord@, a.chord@)
}

/// One issue for each binding that `a` keeps from being reached.
pub open spec fn shadowed_by(a: Keybinding, bs: Seq<Keybinding>) -> Seq<IssueView>
    decreases bs.len(),
{
    if bs.len() == 0 {
        seq![]
    } else {
        let before = shadowed_by(a, bs.drop_last());
        let b = bs.last();
        if shadows(a, b) {
            before.push(
                IssueView::ChordShadowed {
                    prefix_render: render_chord_spec(a.chord@),
                    prefix_action: a.action@,
                    shadowed_render: render_chord_spec(b.chord@),
                    shadowed_action: b.action@,
                },
            )
        } else {
            before
        }
    }
}

/// The issues of shadowing, for the bindings of `xs` as the shorter chord.
pub open spec fn shadow_issues(xs: Seq<Keybinding>, bs: Seq<Keybinding>) -> Seq<IssueView>
    decreases xs.len(),
{
    if xs.len() == 0 {
        seq![]
    } else {
        shadow_issues(xs.drop_last(), bs) + shadowed_by(xs.last(), bs)
    }
}

/// Duplicates, then reserved shortcuts, then shadowed chords.
pub open spec fn validate_spec(bs: Seq<Keybinding>) -> Seq<IssueView> {
    duplicates(bs) + reserved_issues(bs) + shadow_issues(bs, bs)
}

proof fn lemma_push_issue(v: Seq<ValidationIssue>, x: ValidationIssue)
    ensures
        issues_view(v.push(x)) == issues_view(v).push(x@),
{
}

fn find_before(bs: &[Keybinding], n: usize) -> (k: usize)
    requires
        n < bs@.len(),
    ensures
        k == first_match(bs@.take(n as int), bs@[n as int].chord@),
        k <= n,
{
    let ghost t = bs@.take(n as int);
    let ghost c = bs@[n as int].chord@;
    let mut k: usize = 0;
    proof {
        assert(t.skip(0) =~= t);
    }
    while k < n && !same_chord(&bs[k].chord, &bs[n].chord)
        invariant
            k <= n < bs@.len(),
            t == bs@.take(n as int),
            c == bs@[n as int].chord@,
            first_match(t, c) == k + first_match(t.skip(k as int), c),
        decreases n - k,
    {
        assert(t.skip(k as int).drop_first() =~= t.skip(k + 1));
        k += 1;
    }
    k
}

fn find_reserved(c: &Vec<Shortcut>) -> (k: usize)
    ensures
        k == first_reserved(c@),
        k <= c@.len(),
{
    let mut k: usize = 0;
    proof {
        assert(c@.skip(0) =~= c@);
    }
    while k < c.len() && !is_reserved_shortcut(&c[k])
        invariant
            k <= c@.len(),
            first_reserved(c@) == k + first_reserved(c@.skip(k as int)),
        decreases c@.len() - k,
    {
        assert(c@.skip(k as int).drop_first() =~= c@.skip(k + 1));
        k += 1;
    }
    k
}

fn push_duplicates(bs: &[Keybinding], out: &mut Vec<ValidationIssue>)
    ensures
        issues_view(final(out)@) == issues_view(old(out)@) + duplicates(bs@),
{
    let ghost start = issues_view(out@);
    let mut i: usize = 0;
    while i < bs.len()
        invariant
            i <= bs@.len(),
            issues_view(out@) == start + duplicates(bs@.take(i as int)),
        decreases bs@.len() - i,
    {
        let first: usize = find_before(bs, i);
        proof {
            assert(bs@.take(i + 1).drop_last() =~= bs@.take(i as int));
            assert(bs@.take(i + 1).last() == bs@[i as int]);
        }
        if first < i {
            let issue = ValidationIssue::DuplicateChord {
                shortcut_render: render_chord(&bs[i].chord),
                first_action: bs[first].action.clone(),
                second_action: bs[i].action.clone(),
            };
            proof {
                lemma_push_issue(out@, issue);
            }
            out.push(issue);
        }
        i += 1;
    }
    assert(bs@.take(i as int) =~= bs@);
}

fn push_reserved(bs: &[Keybinding], out: &mut Vec<ValidationIssue>)
    ensures
        issues_view(final(out)@) == issues_view(old(out)@) + reserved_issues(bs@),
{
    let ghost start = issues_view(out@);
    let mut i: usize = 0;
    while i < bs.len()
        invariant
            i <= bs@.len(),
            issues_view(out@) == start + reserved_issues(bs@.take(i as int)),
        decreases bs@.len() - i,
    {
        let k: usize = find_reserved(&bs[i].chord);
        proof {
            assert(bs@.take(i + 1).drop_last() =~= bs@.take(i as int));
            assert(bs@.take(i + 1).last() == bs@[i as int]);
        }
        if k < bs[i].chord.len() {
            let issue = ValidationIssue::ReservedShortcut {
                shortcut_render: bs[i].chord[k].render(),
                action: bs[i].action.clone(),
            };
            proof {
                lemma_push_issue(out@, issue);
            }
            out.push(issue);
        }
        i += 1;
    }
    assert(bs@.take(i as int) =~= bs@);
}

fn push_shadowed(a: &Keybinding, bs: &[Keybinding], out: &mut Vec<ValidationIssue>)
    ensures
        issues_view(final(out)@) == issues_view(old(out)@) + shadowed_by(*a, bs@),
{
    let ghost start = issues_view(out@);
    let mut i: usize = 0;
    while i < bs.len()
        invariant
            i <= bs@.len(),
            issues_view(out@) == start + shadowed_by(*a, bs@.take(i as int)),
        decreases bs@.len() - i,
    {
        proof {
            assert(bs@.take(i + 1).drop_last() =~= bs@.take(i as int));
            assert(bs@.take(i + 1).last() == bs@[i as int]);
        }
        if a.chord.len() < bs[i].chord.len() && chord_begins_with(&bs[i].chord, &a.chord) {
            let issue = ValidationIssue::ChordShadowed {
                prefix_render: render_chord(&a.chord),
                prefix_action: a.action.clone(),
                shadowed_render: render_chord(&bs[i].chord),
                shadowed_action: bs[i].action.clone(),
            };
            proof {
                assert((start + shadowed_by(*a, bs@.take(i as int))).push(issue@) =~= start
                    + shadowed_by(*a, bs@.take(i as int)).push(issue@));
            }
            out.push(issue);
        }
        i += 1;
    }
    assert(bs@.take(i as int) =~= bs@);
}

/// The issues of a list of bindings.
pub fn validate_bindings(bindings: &[Keybinding]) -> (r: Vec<ValidationIssue>)
    ensures
        issues_view(r@) == validate_spec(bindings@),
{
    let mut out: Vec<ValidationIssue> = Vec::new();
    push_duplicates(bindings, &mut out);
    push_reserved(bindings, &mut out);
    let ghost start = issues_view(out@);
    let mut i: usize = 0;
    proof {
        assert(issues_view(out@) =~= start + shadow_issues(bindings@.take(0), bindings@));
    }
    while i < bindings.len()
        invariant
            i <= bindings@.len(),
            issues_view(out@) == start + shadow_issues(bindings@.take(i as int), bindings@),
        decreases bindings@.len() - i,
    {
        proof {
            assert(bindings@.take(i + 1).drop_last() =~= bindings@.take(i as int));
        }
        push_shadowed(&bindings[i], bindings, &mut out);
        assert(issues_view(out@) =~= start + shadow_issues(bindings@.take(i + 1), bindings@));
        i += 1;
    }
    assert(bindings@.take(i as int) =~= bindings@);
    out
}

// ---- laws ----------------------------------------------------------------------------

proof fn lemma_first_reserved(c: Seq<Shortcut>)
    ensures
        first_reserved(c) <= c.len(),
        first_reserved(c) < c.len() <==> (exists|i: int|
            0 <= i < c.len() && is_reserved(#[trigger] c[i])),
    decreases c.len(),
{
    if c.len() > 0 {
        if !is_reserved(c[0]) {
            let t = c.drop_first();
            lemma_first_reserved(t);
            if first_reserved(c) < c.len() {
                let i = choose|i: int| 0 <= i < t.len() && is_reserved(#[trigger] t[i]);
                assert(is_reserved(c[i + 1]));
            }
            if exists|i: int| 0 <= i < c.len() && is_reserved(#[trigger] c[i]) {
                let i = choose|i: int| 0 <= i < c.len() && is_reserved(#[trigger] c[i]);
                assert(is_reserved(t[i - 1]));
            }
        }
    }
}

proof fn lemma_no_duplicates(bs: Seq<Keybinding>)
    ensures
        duplicates(bs).len() == 0 <==> (forall|i: int, j: int|
            0 <= i < j < bs.len() ==> (#[trigger] bs[i]).chord@ != (#[trigger] bs[j]).chord@),
    decreases bs.len(),
{
    if bs.len() > 0 {
        let init = bs.drop_last();
        let b = bs.last();
        lemma_no_duplicates(init);
        lemma_first_match(init, b.chord@);
        let first = first_match(init, b.chord@) as int;
        if first >= init.len() {
            if duplicates(init).len() == 0 {
                assert forall|i: int, j: int| 0 <= i < j < bs.len() implies (
                #[trigger] bs[i]).chord@ != (#[trigger] bs[j]).chord@ by {
                    assert(bs[i] == init[i]);
                    if j < init.len() {
                        assert(bs[j] == init[j]);
                    }
                }
            } else {
                let (i, j) = choose|i: int, j: int|
                    0 <= i < j < init.len() && !((#[trigger] init[i]).chord@ != (
                    #[trigger] init[j]).chord@);
            }
        }
    }
}

proof fn lemma_no_reserved(bs: Seq<Keybinding>)
    ensures
        reserved_issues(bs).len() == 0 <==> (forall|i: int, k: int|
            0 <= i < bs.len() && 0 <= k < bs[i].chord@.len() ==> !is_reserved(
                #[trigger] bs[i].chord@[k],
            )),
    decreases bs.len(),
{
    if bs.len() > 0 {
        let init = bs.drop_last();
        let c = bs.last().chord@;
        lemma_no_reserved(init);
        lemma_first_reserved(c);
        if first_reserved(c) < c.len() {
            let k = choose|k: int| 0 <= k < c.len() && is_reserved(#[trigger] c[k]);
            assert(is_reserved(bs[bs.len() - 1].chord@[k]));
        } else if reserved_issues(init).len() == 0 {
            assert forall|i: int, k: int|
                0 <= i < bs.len() && 0 <= k < bs[i].chord@.len() implies !is_reserved(
                #[trigger] bs[i].chord@[k],
            ) by {
                if i < init.len() {
                    assert(init[i].chord@[k] == bs[i].chord@[k]);
                }
            }
        } else {
            let (i, k) = choose|i: int, k: int|
                0 <= i < init.len() && 0 <= k < init[i].chord@.len() && is_reserved(
                    #[trigger] init[i].chord@[k],
                );
            assert(is_reserved(bs[i].chord@[k]));
        }
    }
}

proof fn lemma_none_shadowed_by(a: Keybinding, bs: Seq<Keybinding>)
    ensures
        shadowed_by(a, bs).len() == 0 <==> (forall|j: int|
            0 <= j < bs.len() ==> !shadows(a, #[trigger] bs[j])),
    decreases bs.len(),
{
    if bs.len() > 0 {
        let init = bs.drop_last();
        lemma_none_shadowed_by(a, init);
        if !shadows(a, bs.last()) && shadowed_by(a, init).len() == 0 {
            assert forall|j: int| 0 <= j < bs.len() implies !shadows(a, #[trigger] bs[j]) by {
                if j < init.len() {
                    assert(bs[j] == init[j]);
                }
            }
        }
    }
}

proof fn lemma_no_shadow(xs: Seq<Keybinding>, bs: Seq<Keybinding>)
    ensures
        shadow_issues(xs, bs).len() == 0 <==> (forall|i: int, j: int|
            0 <= i < xs.len() && 0 <= j < bs.len() ==> !shadows(
                #[trigger] xs[i],
                #[trigger] bs[j],
            )),
    decreases xs.len(),
{
    if xs.len() > 0 {
        let init = xs.drop_last();
        lemma_no_shadow(init, bs);
        lemma_none_shadowed_by(xs.last(), bs);
        if shadowed_by(xs.last(), bs).len() == 0 && shadow_issues(init, bs).len() == 0 {
            assert forall|i: int, j: int| 0 <= i < xs.len() && 0 <= j < bs.len() implies !shadows(
                #[trigger] xs[i],
                #[trigger] bs[j],
            ) by {
                if i < init.len() {
                    assert(xs[i] == init[i]);
                }
            }
        }
    }
}

/// A list has no issues exactly where its chords are all different, none holds a reserved
/// shortcut, and none is the beginning of another.
pub proof fn law_no_issues_iff_sound(bs: Seq<Keybinding>)
    ensures
        validate_spec(bs).len() == 0 <==> {
            &&& forall|i: int, j: int|
                0 <= i < j < bs.len() ==> (#[trigger] bs[i]).chord@ != (#[trigger] bs[j]).chord@
            &&& forall|i: int, k: int|
                0 <= i < bs.len() && 0 <= k < bs[i].chord@.len() ==> !is_reserved(
                    #[trigger] bs[i].chord@[k],
                )
            &&& forall|i: int, j: int|
                0 <= i < bs.len() && 0 <= j < bs.len() ==> !shadows(
                    #[trigger] bs[i],
                    #[trigger] bs[j],
                )
        },
{
    lemma_no_duplicates(bs);
    lemma_no_reserved(bs);
    lemma_no_shadow(bs, bs);
}

} // verus!
