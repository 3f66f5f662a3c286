//! The user's own bindings, and how they replace the defaults.

use crate::frame_state::opt_text;
use crate::keybindings::{bindings_view, same_chord, BindingView, Keybinding, KeybindingSource};
use crate::keybindings::parser::{parse_chord, parse_chord_spec, Shortcut};
use vstd::prelude::*;
use vstd::string::*;

verus! {

/// The contents of the bindings file.
#[derive(Debug)]
pub struct KeybindingsFile {
    pub bindings: Vec<UserBindingEntry>,
}

/// One entry of the bindings file; `shortcut` is a chord in text form.
#[derive(Debug)]
pub struct UserBindingEntry {
    pub shortcut: String,
    pub action: String,
    pub description: Option<String>,
}

/// The bindings that entries denote: those whose shortcut cannot be read are left out.
pub open spec fn user_bindings_spec(entries: Seq<UserBindingEntry>) -> Seq<BindingView>
    decreases entries.len(),
{
    if entries.len() == 0 {
        seq![]
    } else {
        let before = user_bindings_spec(entries.drop_last());
        let e = entries.last();
        match parse_chord_spec(e.shortcut@) {
            Ok(chord) => before.push(
                BindingView {
                    chord,
                    action: e.action@,
                    description: opt_text(e.description),
                    source: KeybindingSource::User,
                },
            ),
            Err(_) => before,
        }
    }
}

/// The bindings of a file. An entry whose shortcut cannot be read does not bring the
/// others down.
pub fn user_bindings(file: KeybindingsFile) -> (r: Vec<Keybinding>)
    ensures
        bindings_view(r@) == user_bindings_spec(file.bindings@),
{
    let mut entries: Vec<UserBindingEntry> = file.bindings;
    let ghost all = entries@;
    let mut out: Vec<Keybinding> = Vec::new();
    let ghost mut k: int = 0;
    proof {
        assert(all.skip(0) =~= all);
    }
    while entries.len() > 0
        invariant
            0 <= k <= all.len(),
            entries@ == all.skip(k),
            bindings_view(out@) == user_bindings_spec(all.take(k)),
        decreases entries@.len(),
    {
        let e: UserBindingEntry = entries.remove(0);
        proof {
            assert(all.take(k + 1).drop_last() =~= all.take(k));
            k = k + 1;
        }
        match parse_chord(e.shortcut.as_str()) {
            Ok(chord) => {
                out.push(
                    Keybinding {
                        chord,
                        action: e.action,
                        description: e.description,
                        source: KeybindingSource::User,
                    },
                );
            },
            Err(_) => {},
        }
    }
    out
}

/// The bindings of `s` whose chord is not `c`.
pub open spec fn without(s: Seq<Keybinding>, c: Seq<Shortcut>) -> Seq<Keybinding> {
    s.filter(|b: Keybinding| b.chord@ != c)
}

/// Each user binding in turn takes the place of what had its chord before.
pub open spec fn merge_spec(defaults: Seq<Keybinding>, user: Seq<Keybinding>) -> Seq<Keybinding>
    decreases user.len(),
{
    if user.len() == 0 {
        defaults
    } else {
        without(merge_spec(defaults, user.drop_last()), user.last().chord@).push(user.last())
    }
}

fn drop_chord(bindings: &mut Vec<Keybinding>, c: &Vec<Shortcut>)
    ensures
        final(bindings)@ == without(old(bindings)@, c@),
{
    let ghost all = bindings@;
    let ghost keep = |b: Keybinding| b.chord@ != c@;
    let ghost mut k: int = 0;
    let mut i: usize = 0;
    proof {
        assert(all.take(0).filter(keep) =~= seq![]) by {
            reveal(Seq::filter);
        }
        assert(bindings@ =~= all.take(0).filter(keep) + all.skip(0));
    }
    while i < bindings.len()
        invariant
            0 <= k <= all.len(),
            keep == (|b: Keybinding| b.chord@ != c@),
            i == all.take(k).filter(keep).len(),
            bindings@ == all.take(k).filter(keep) + all.skip(k),
        decreases all.len() - k,
    {
        proof {
            assert(all.take(k + 1).drop_last() =~= all.take(k));
            reveal(Seq::filter);
        }
        if same_chord(&bindings[i].chord, c) {
            bindings.remove(i);
        } else {
            i += 1;
        }
        proof {
            k = k + 1;
        }
    }
}

/// Merges defaults and user bindings: a user binding replaces every binding with the same
/// chord, and new chords are appended.
pub fn merge_bindings(defaults: Vec<Keybinding>, user: Vec<Keybinding>) -> (r: Vec<Keybinding>)
    ensures
        r@ == merge_spec(defaults@, user@),
{
    let mut out: Vec<Keybinding> = defaults;
    let mut rest: Vec<Keybinding> = user;
    let ghost all = user@;
    let ghost mut k: int = 0;
    proof {
        assert(all.skip(0) =~= all);
    }
    while rest.len() > 0
        invariant
            0 <= k <= all.len(),
            rest@ == all.skip(k),
            out@ == merge_spec(defaults@, all.take(k)),
        decreases rest@.len(),
    {
        let u: Keybinding = rest.remove(0);
        proof {
            assert(all.take(k + 1).drop_last() =~= all.take(k));
            k = k + 1;
        }
        drop_chord(&mut out, &u.chord);
        out.push(u);
    }
    out
}

proof fn lemma_without(s: Seq<Keybinding>, c: Seq<Shortcut>, b: Keybinding)
    ensures
        without(s, c).contains(b) <==> s.contains(b) && b.chord@ != c,
    decreases s.len(),
{
    reveal(Seq::filter);
    if s.len() > 0 {
        lemma_without(s.drop_last(), c, b);
    }
}

proof fn lemma_push_contains(s: Seq<Keybinding>, x: Keybinding, b: Keybinding)
    ensures
        s.push(x).contains(b) <==> s.contains(b) || b == x,
{
    let t = s.push(x);
    if s.contains(b) {
        let k = choose|k: int| 0 <= k < s.len() && s[k] == b;
        assert(t[k] == b);
    }
    assert(t[s.len() as int] == x);
}

/// The user's word is final: the last user binding of a chord is in the result, and no
/// other binding of the result has its chord.
pub proof fn law_last_user_binding_wins(
    defaults: Seq<Keybinding>,
    user: Seq<Keybinding>,
    i: int,
)
    requires
        0 <= i < user.len(),
        forall|j: int| i < j < user.len() ==> user[j].chord@ != user[i].chord@,
    ensures
        merge_spec(defaults, user).contains(user[i]),
        forall|b: Keybinding| #[trigger]
            merge_spec(defaults, user).contains(b) && b.chord@ == user[i].chord@ ==> b == user[i],
    decreases user.len(),
{
    let r = merge_spec(defaults, user);
    let last = user.last();
    let u = user[i];
    let before = merge_spec(defaults, user.drop_last());
    let kept = without(before, last.chord@);
    if i < user.len() - 1 {
        law_last_user_binding_wins(defaults, user.drop_last(), i);
    }
    lemma_push_contains(kept, last, u);
    assert forall|b: Keybinding| #[trigger]
        r.contains(b) && b.chord@ == u.chord@ implies b == u by {
        lemma_without(before, last.chord@, b);
    }
}

/// A default stays where no user binding has its chord, and only there.
pub proof fn law_defaults_stay_unless_replaced(
    defaults: Seq<Keybinding>,
    user: Seq<Keybinding>,
    d: Keybinding,
)
    requires
        defaults.contains(d),
        !user.contains(d),
    ensures
        merge_spec(defaults, user).contains(d) <==> (forall|j: int|
            0 <= j < user.len() ==> (#[trigger] user[j]).chord@ != d.chord@),
    decreases user.len(),
{
    if user.len() > 0 {
        let init = user.drop_last();
        law_defaults_stay_unless_replaced(defaults, init, d);
        let before = merge_spec(defaults, init);
        lemma_without(before, user.last().chord@, d);
        lemma_push_contains(without(before, user.last().chord@), user.last(), d);
        if forall|j: int| 0 <= j < init.len() ==> (#[trigger] init[j]).chord@ != d.chord@ {
            assert forall|j: int| 0 <= j < user.len() - 1 implies (#[trigger] user[j]).chord@
                != d.chord@ by {
                assert(init[j] == user[j]);
            }
        }
    }
}

/// Nothing comes from anywhere else than the two lists.
pub proof fn law_merge_invents_nothing(
    defaults: Seq<Keybinding>,
    user: Seq<Keybinding>,
    b: Keybinding,
)
    requires
        merge_spec(defaults, user).contains(b),
    ensures
        defaults.contains(b) || user.contains(b),
    decreases user.len(),
{
    if user.len() > 0 {
        let init = user.drop_last();
        let before = merge_spec(defaults, init);
        lemma_without(before, user.last().chord@, b);
        if before.contains(b) {
            law_merge_invents_nothing(defaults, init, b);
        }
    }
}

} // verus!
