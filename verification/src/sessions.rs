//! The earlier sessions of a project, as a list to pick from.

use crate::frame_state::{candidates_view, opt_text, CandidateView, PickerCandidate};
use crate::text::{
    chars_of, decimal, decimal_spec, lines, lines_spec, string_of, texts, trim, trim_spec,
};
use vstd::prelude::*;
use vstd::string::*;

verus! {

/// How many sessions the list shows at most.
pub const MAX_CANDIDATES: usize = 20;

/// The longest subject taken from a preview, in characters.
pub const MAX_SUBJECT: usize = 60;

/// What is known of a session without reading all of it.
#[derive(Debug, Clone)]
pub struct SessionSummary {
    pub session_id: String,
    pub last_modified: String,
    pub message_count: u64,
    pub preview: String,
    pub title: Option<String>,
}

/// How many lines stand before the first one that is not blank.
pub open spec fn blank_lines(ls: Seq<Seq<char>>) -> nat
    decreases ls.len(),
{
    if ls.len() == 0 || trim_spec(ls[0]).len() > 0 {
        0
    } else {
        1 + blank_lines(ls.drop_first())
    }
}

/// The first line of a preview that is not blank, trimmed, and cut by characters.
pub open spec fn first_line_spec(preview: Seq<char>) -> Seq<char> {
    let ls = lines_spec(preview);
    let k = blank_lines(ls) as int;
    let line = trim_spec(
        if k < ls.len() {
            ls[k]
        } else {
            seq![]
        },
    );
    if line.len() <= MAX_SUBJECT {
        line
    } else {
        line.take(MAX_SUBJECT as int) + "…"@
    }
}

pub fn first_line(preview: &str) -> (r: String)
    ensures
        r@ == first_line_spec(preview@),
{
    let parts: Vec<String> = lines(preview);
    let ghost ls = texts(parts@);
    let mut k: usize = 0;
    proof {
        assert(ls.skip(0) =~= ls);
    }
    while k < parts.len() && trim(parts[k].as_str()).as_str().is_empty()
        invariant
            k <= parts@.len(),
            ls == texts(parts@),
            blank_lines(ls) == k + blank_lines(ls.skip(k as int)),
        decreases parts@.len() - k,
    {
        assert(ls.skip(k as int).drop_first() =~= ls.skip(k + 1));
        k += 1;
    }
    let line: String = if k < parts.len() {
        trim(parts[k].as_str())
    } else {
        trim("")
    };
    proof {
        reveal_strlit("");
    }
    let v: Vec<char> = chars_of(line.as_str());
    if v.len() <= MAX_SUBJECT {
        return line;
    }
    let head: String = string_of(vstd::slice::slice_subrange(v.as_slice(), 0, MAX_SUBJECT));
    head.concat("…")
}

/// What a session is about: its title, or the first line of its preview where the title is
/// blank.
pub open spec fn subject_spec(s: SessionSummary) -> Seq<char> {
    match s.title {
        Some(t) => if trim_spec(t@).len() == 0 {
            first_line_spec(s.preview@)
        } else {
            t@
        },
        None => first_line_spec(s.preview@),
    }
}

/// A row of the list. The name is the whole id, which is what the session is resumed by.
pub open spec fn describe_spec(s: SessionSummary) -> CandidateView {
    CandidateView {
        name: s.session_id@,
        description: s.last_modified@ + "  "@ + decimal_spec(s.message_count as nat) + " msgs  "@
            + subject_spec(s),
    }
}

pub fn describe(s: &SessionSummary) -> (r: PickerCandidate)
    ensures
        r@ == describe_spec(*s),
{
    let subject: String = match &s.title {
        Some(t) => if trim(t.as_str()).as_str().is_empty() {
            first_line(s.preview.as_str())
        } else {
            t.clone()
        },
        None => first_line(s.preview.as_str()),
    };
    PickerCandidate {
        name: s.session_id.clone(),
        description: s.last_modified.clone().concat("  ").concat(
            decimal(s.message_count).as_str(),
        ).concat(" msgs  ").concat(subject.as_str()),
    }
}

/// What to look for: nothing means the latest sessions.
pub open spec fn search_spec(query: Seq<char>) -> Option<Seq<char>> {
    if trim_spec(query).len() == 0 {
        None
    } else {
        Some(trim_spec(query))
    }
}

/// The text to search the sessions for; `None` asks for the latest ones.
pub fn search_text(query: &str) -> (r: Option<String>)
    ensures
        opt_text(r) == search_spec(query@),
{
    let t: String = trim(query);
    if t.as_str().is_empty() {
        None
    } else {
        Some(t)
    }
}

/// The rows of the list for the sessions that were found. A search that failed gives an
/// empty list.
pub fn candidates(found: Option<Vec<SessionSummary>>) -> (r: Vec<PickerCandidate>)
    ensures
        candidates_view(r@) == match found {
            Some(v) => v@.map_values(|s: SessionSummary| describe_spec(s)),
            None => seq![],
        },
{
    let mut r: Vec<PickerCandidate> = Vec::new();
    match found {
        None => {
        },
        Some(v) => {
            let ghost all = v@.map_values(|s: SessionSummary| describe_spec(s));
            let mut i: usize = 0;
            while i < v.len()
                invariant
                    i <= v@.len(),
                    all == v@.map_values(|s: SessionSummary| describe_spec(s)),
                    candidates_view(r@) == all.take(i as int),
                decreases v@.len() - i,
            {
                let ghost before = r@;
                let c: PickerCandidate = describe(&v[i]);
                r.push(c);
                assert(candidates_view(r@) =~= candidates_view(before).push(c@));
                i += 1;
            }
        },
    }
    r
}

/// A subject taken from a preview is short, and holds whole characters of it.
pub proof fn law_subject_is_short(preview: Seq<char>)
    ensures
        first_line_spec(preview).len() <= MAX_SUBJECT + 1,
{
    reveal_strlit("…");
}

} // verus!
