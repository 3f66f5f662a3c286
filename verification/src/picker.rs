//! The lists above the editor: slash commands that match the draft, and earlier sessions.

use crate::frame_state::{candidates_view, CandidateView, PickerCandidate, PickerKind, PickerState};
use crate::local_ui::{LocalUi, UiModel};
use crate::text::{chars_of, string_of};
use vstd::prelude::*;
use vstd::string::*;

verus! {

/// What a [`PickerState`] holds.
pub struct PickerView {
    pub kind: PickerKind,
    pub query: Seq<char>,
    pub candidates: Seq<CandidateView>,
    pub selected: int,
}

impl View for PickerState {
    type V = PickerView;

    open spec fn view(&self) -> PickerView {
        PickerView {
            kind: self.kind,
            query: self.query@,
            candidates: candidates_view(self.candidates@),
            selected: self.selected as int,
        }
    }
}

/// What an optional list holds.
pub open spec fn picker_view(p: Option<PickerState>) -> Option<PickerView> {
    match p {
        Some(s) => Some(s@),
        None => None,
    }
}

/// The commands that the terminal handles by itself.
pub open spec fn local_candidates_spec() -> Seq<CandidateView> {
    seq![
        CandidateView {
            name: "/model"@,
            description: "Switch the model for this session  (args: [name])"@,
        },
        CandidateView {
            name: "/doctor"@,
            description: "Report how this session is wired: provider, transcript, sandbox, permissions"@,
        },
        CandidateView {
            name: "/resume"@,
            description: "Switch to an earlier session in this project  (args: [search text])"@,
        },
        CandidateView {
            name: "/btw"@,
            description: "Ask a side question about this session, off the record  (args: [question])"@,
        },
        CandidateView { name: "/quit"@, description: "Exit AttaCode"@ },
        CandidateView { name: "/exit"@, description: "Exit AttaCode"@ },
    ]
}

fn candidate(name: &str, description: &str) -> (r: PickerCandidate)
    ensures
        r@ == (CandidateView { name: name@, description: description@ }),
{
    PickerCandidate { name: name.to_owned(), description: description.to_owned() }
}

pub fn local_command_candidates() -> (r: Vec<PickerCandidate>)
    ensures
        candidates_view(r@) == local_candidates_spec(),
{
    let r: Vec<PickerCandidate> = vec![
        candidate("/model", "Switch the model for this session  (args: [name])"),
        candidate(
            "/doctor",
            "Report how this session is wired: provider, transcript, sandbox, permissions",
        ),
        candidate(
            "/resume",
            "Switch to an earlier session in this project  (args: [search text])",
        ),
        candidate(
            "/btw",
            "Ask a side question about this session, off the record  (args: [question])",
        ),
        candidate("/quit", "Exit AttaCode"),
        candidate("/exit", "Exit AttaCode"),
    ];
    r
}

/// A name without the slashes in front.
pub open spec fn bare_name(s: Seq<char>) -> Seq<char>
    decreases s.len(),
{
    if s.len() > 0 && s[0] == '/' {
        bare_name(s.drop_first())
    } else {
        s
    }
}

/// The bare name of a command begins with the query.
pub open spec fn name_matches(name: Seq<char>, query: Seq<char>) -> bool {
    query.len() <= bare_name(name).len() && bare_name(name).take(query.len() as int) == query
}

/// The candidates whose name begins with the query.
pub open spec fn matching(all: Seq<CandidateView>, query: Seq<char>) -> Seq<CandidateView>
    decreases all.len(),
{
    if all.len() == 0 {
        seq![]
    } else if name_matches(all.last().name, query) {
        matching(all.drop_last(), query).push(all.last())
    } else {
        matching(all.drop_last(), query)
    }
}

/// What stands behind the slash of a draft that is one unfinished command word.
pub open spec fn command_query(draft: Seq<char>) -> Option<Seq<char>> {
    if draft.len() > 1 && draft[0] == '/' && !draft.contains(' ') && !draft.contains('\n') {
        Some(draft.skip(1))
    } else {
        None
    }
}

/// The smaller of an index and the last index of a list.
pub open spec fn clamped(i: int, len: int) -> int {
    if i < len {
        i
    } else if len > 0 {
        len - 1
    } else {
        0
    }
}

/// The list of commands that the draft calls up: none while the session list is open, after
/// it was closed, or where nothing matches.
pub open spec fn command_picker_spec(m: UiModel) -> Option<PickerView> {
    if m.session_picker is Some || m.picker_dismissed {
        None
    } else {
        match command_query(m.draft) {
            None => None,
            Some(query) => {
                let candidates = matching(local_candidates_spec() + m.commands, query);
                if candidates.len() == 0 {
                    None
                } else {
                    Some(
                        PickerView {
                            kind: PickerKind::SlashCommand,
                            query,
                            candidates,
                            selected: clamped(m.picker_selected as int, candidates.len() as int),
                        },
                    )
                }
            },
        }
    }
}

/// The list of sessions, while it is open.
pub open spec fn session_picker_spec(m: UiModel) -> Option<PickerView> {
    match m.session_picker {
        None => None,
        Some(candidates) => Some(
            PickerView {
                kind: PickerKind::Session,
                query: seq![],
                candidates,
                selected: clamped(m.picker_selected as int, candidates.len() as int),
            },
        ),
    }
}

fn starts_with_query(name: &String, query: &Vec<char>) -> (r: bool)
    ensures
        r == name_matches(name@, query@),
{
    let v: Vec<char> = chars_of(name.as_str());
    let total: usize = v.len();
    let mut start: usize = 0;
    proof {
        assert(v@.skip(0) =~= v@);
    }
    while start < v.len() && v[start] == '/'
        invariant
            start <= v@.len(),
            bare_name(v@) == bare_name(v@.skip(start as int)),
        decreases v@.len() - start,
    {
        assert(v@.skip(start as int).drop_first() =~= v@.skip(start + 1));
        start += 1;
    }
    let ghost bare = v@.skip(start as int);
    if query.len() > v.len() - start {
        return false;
    }
    let mut i: usize = 0;
    while i < query.len()
        invariant
            i <= query@.len() <= v@.len() - start,
            total == v@.len(),
            bare == v@.skip(start as int),
            start <= v@.len(),
            v@ == name@,
            bare_name(name@) == bare,
            forall|j: int| 0 <= j < i ==> bare[j] == query@[j],
        decreases query@.len() - i,
    {
        if v[start + i] != query[i] {
            return false;
        }
        i += 1;
    }
    assert(bare.take(query@.len() as int) =~= query@);
    true
}

fn push_matching(from: &Vec<PickerCandidate>, query: &Vec<char>, out: &mut Vec<PickerCandidate>)
    ensures
        candidates_view(final(out)@) == candidates_view(old(out)@) + matching(
            candidates_view(from@),
            query@,
        ),
{
    let ghost start = candidates_view(out@);
    let ghost all = candidates_view(from@);
    let mut i: usize = 0;
    while i < from.len()
        invariant
            i <= from@.len(),
            all == candidates_view(from@),
            candidates_view(out@) == start + matching(all.take(i as int), query@),
        decreases from@.len() - i,
    {
        proof {
            assert(all.take(i + 1).drop_last() =~= all.take(i as int));
        }
        if starts_with_query(&from[i].name, query) {
            let ghost before = out@;
            out.push(from[i].clone());
            assert(candidates_view(out@) =~= candidates_view(before).push(from@[i as int]@));
        }
        i += 1;
    }
    assert(all.take(i as int) =~= all);
}

proof fn lemma_matching_add(a: Seq<CandidateView>, b: Seq<CandidateView>, query: Seq<char>)
    ensures
        matching(a + b, query) == matching(a, query) + matching(b, query),
    decreases b.len(),
{
    if b.len() > 0 {
        assert((a + b).drop_last() =~= a + b.drop_last());
        lemma_matching_add(a, b.drop_last(), query);
    }
}

/// The list of commands for the draft as it stands.
pub fn compute_command_picker(local: &LocalUi) -> (r: Option<PickerState>)
    ensures
        picker_view(r) == command_picker_spec(local@),
{
    if local.session_picker.is_some() || local.picker_dismissed {
        return None;
    }
    let v: Vec<char> = chars_of(local.draft.as_str());
    let n: usize = v.len();
    if n < 2 || v[0] != '/' {
        return None;
    }
    let mut query: Vec<char> = Vec::new();
    let mut i: usize = 1;
    while i < n
        invariant
            1 <= i <= n == v@.len(),
            v@ == local@.draft,
            v@[0] == '/',
            query@ == v@.subrange(1, i as int),
            forall|j: int| 0 <= j < i ==> v@[j] != ' ' && v@[j] != '\n',
        decreases n - i,
    {
        if v[i] == ' ' || v[i] == '\n' {
            return None;
        }
        query.push(v[i]);
        i += 1;
    }
    let own: Vec<PickerCandidate> = local_command_candidates();
    let mut candidates: Vec<PickerCandidate> = Vec::new();
    push_matching(&own, &query, &mut candidates);
    push_matching(&local.commands, &query, &mut candidates);
    proof {
        lemma_matching_add(local_candidates_spec(), local@.commands, query@);
    }
    let count: usize = candidates.len();
    if count == 0 {
        return None;
    }
    let selected: usize = if local.picker_selected < count {
        local.picker_selected
    } else {
        count - 1
    };
    Some(
        PickerState {
            kind: PickerKind::SlashCommand,
            query: string_of(query.as_slice()),
            candidates,
            selected,
        },
    )
}

fn clone_candidates(v: &Vec<PickerCandidate>) -> (r: Vec<PickerCandidate>)
    ensures
        r@ == v@,
{
    let mut r: Vec<PickerCandidate> = Vec::new();
    let mut i: usize = 0;
    while i < v.len()
        invariant
            i <= v@.len(),
            r@ == v@.take(i as int),
        decreases v@.len() - i,
    {
        r.push(v[i].clone());
        i += 1;
    }
    r
}

/// The list of sessions in the form of a list of commands.
pub fn session_picker_state(local: &LocalUi) -> (r: Option<PickerState>)
    ensures
        picker_view(r) == session_picker_spec(local@),
{
    match &local.session_picker {
        None => None,
        Some(c) => {
            let candidates: Vec<PickerCandidate> = clone_candidates(c);
            let count: usize = candidates.len();
            let selected: usize = if local.picker_selected < count {
                local.picker_selected
            } else if count > 0 {
                count - 1
            } else {
                0
            };
            Some(
                PickerState {
                    kind: PickerKind::Session,
                    query: String::new(),
                    candidates,
                    selected,
                },
            )
        },
    }
}

/// The selected command is what the draft already says, so that there is nothing to
/// complete.
pub open spec fn already_typed_spec(m: UiModel) -> bool {
    command_picker_spec(m) matches Some(p) && m.draft == p.candidates[p.selected].name
}

pub fn picker_already_typed(local: &LocalUi) -> (r: bool)
    ensures
        r == already_typed_spec(local@),
{
    match compute_command_picker(local) {
        None => false,
        Some(p) => {
            local.draft == p.candidates[p.selected].name
        },
    }
}

/// A position moved by `delta` in a ring of `len` places. Where there are none it stays as
/// it is.
pub open spec fn step_spec(current: int, delta: int, len: int) -> int {
    if len == 0 {
        current
    } else {
        (current + delta) % len
    }
}

/// Moves around in a ring of `len` places.
pub fn step(current: usize, delta: isize, len: usize) -> (r: usize)
    ensures
        r == step_spec(current as int, delta as int, len as int),
        len > 0 ==> r < len,
{
    if len == 0 {
        return current;
    }
    let c: usize = current % len;
    let q: usize = current / len;
    if delta >= 0 {
        let d: usize = (delta as usize) % len;
        let e: usize = (delta as usize) / len;
        let r: usize = if d >= len - c {
            d - (len - c)
        } else {
            c + d
        };
        proof {
            let wrap: int = if d >= len - c {
                1
            } else {
                0
            };
            vstd::arithmetic::div_mod::lemma_fundamental_div_mod(current as int, len as int);
            vstd::arithmetic::div_mod::lemma_fundamental_div_mod(delta as int, len as int);
            vstd::arithmetic::mul::lemma_mul_is_distributive_add(len as int, q as int, e as int);
            vstd::arithmetic::mul::lemma_mul_is_distributive_add(
                len as int,
                q as int + e as int,
                wrap,
            );
            vstd::arithmetic::mul::lemma_mul_is_commutative(len as int, q as int + e as int + wrap);
            vstd::arithmetic::div_mod::lemma_fundamental_div_mod_converse(
                current + delta,
                len as int,
                q as int + e as int + wrap,
                r as int,
            );
        }
        r
    } else {
        let back: usize = (-(delta + 1)) as usize;
        let d: usize = back % len;
        let e: usize = back / len;
        let r: usize = if c > d {
            c - d - 1
        } else {
            c + (len - d - 1)
        };
        proof {
            let wrap: int = if c > d {
                0
            } else {
                -1
            };
            vstd::arithmetic::div_mod::lemma_fundamental_div_mod(current as int, len as int);
            vstd::arithmetic::div_mod::lemma_fundamental_div_mod(back as int, len as int);
            let l = len as int;
            assert(l * wrap == if wrap == 0 {
                0
            } else {
                -l
            }) by (nonlinear_arith)
                requires
                    wrap == 0 || wrap == -1,
            ;
            vstd::arithmetic::mul::lemma_mul_is_distributive_sub(len as int, q as int, e as int);
            vstd::arithmetic::mul::lemma_mul_is_distributive_add(
                len as int,
                q as int - e as int,
                wrap,
            );
            vstd::arithmetic::mul::lemma_mul_is_commutative(len as int, q as int - e as int + wrap);
            vstd::arithmetic::div_mod::lemma_fundamental_div_mod_converse(
                current + delta,
                len as int,
                q as int - e as int + wrap,
                r as int,
            );
        }
        r
    }
}

/// The selection of the command list moved by `delta`.
pub open spec fn moved_selection(m: UiModel, delta: int) -> UiModel {
    match command_picker_spec(m) {
        None => m,
        Some(p) => UiModel {
            picker_selected: step_spec(p.selected, delta, p.candidates.len() as int) as usize,
            ..m
        },
    }
}

pub fn move_picker_selection(local: &mut LocalUi, delta: isize)
    requires
        old(local).wf(),
    ensures
        final(local).wf(),
        final(local)@ == moved_selection(old(local)@, delta as int),
{
    match compute_command_picker(local) {
        None => {},
        Some(p) => {
            local.picker_selected = step(p.selected, delta, p.candidates.len());
        },
    }
}

/// The selected command becomes the draft, with a space behind it for its arguments.
pub open spec fn accepted(m: UiModel) -> UiModel {
    match command_picker_spec(m) {
        None => m,
        Some(p) => {
            let draft = p.candidates[p.selected].name + " "@;
            UiModel { draft, cursor: draft.len() as int, ..m.noted() }
        },
    }
}

pub fn accept_picker_candidate(local: &mut LocalUi)
    requires
        old(local).wf(),
    ensures
        final(local).wf(),
        final(local)@ == accepted(old(local)@),
{
    match compute_command_picker(local) {
        None => {},
        Some(p) => {
            let draft: String = p.candidates[p.selected].name.clone().concat(" ");
            local.set_draft(draft);
            local.note_draft_changed();
        },
    }
}

} // verus!
