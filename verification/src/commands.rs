//! The slash commands that the engine offers, as a list to pick from.

use crate::frame_state::{candidates_view, CandidateView, PickerCandidate};
use vstd::prelude::*;
use vstd::string::*;

verus! {

/// A command of the engine.
#[derive(Debug, Clone)]
pub struct CommandInfo {
    pub name: String,
    pub description: String,
    /// What its arguments are.
    pub argument_hint: Option<String>,
}

/// A row of the list: the name behind a slash, and the hint behind the description where
/// there is one.
pub open spec fn candidate_spec(info: CommandInfo) -> CandidateView {
    CandidateView {
        name: "/"@ + info.name@,
        description: match info.argument_hint {
            Some(hint) => if hint@.len() > 0 {
                info.description@ + "  (args: "@ + hint@ + ")"@
            } else {
                info.description@
            },
            None => info.description@,
        },
    }
}

fn candidate(info: &CommandInfo) -> (r: PickerCandidate)
    ensures
        r@ == candidate_spec(*info),
{
    let description: String = match &info.argument_hint {
        Some(hint) => if hint.as_str().is_empty() {
            info.description.clone()
        } else {
            info.description.clone().concat("  (args: ").concat(hint.as_str()).concat(")")
        },
        None => info.description.clone(),
    };
    PickerCandidate { name: "/".to_owned().concat(info.name.as_str()), description }
}

/// The rows of the list, in the order of the engine.
pub fn candidates(list: &Vec<CommandInfo>) -> (r: Vec<PickerCandidate>)
    ensures
        candidates_view(r@) == list@.map_values(|i: CommandInfo| candidate_spec(i)),
{
    let ghost all = list@.map_values(|i: CommandInfo| candidate_spec(i));
    let mut r: Vec<PickerCandidate> = Vec::new();
    let mut i: usize = 0;
    while i < list.len()
        invariant
            i <= list@.len(),
            all == list@.map_values(|i: CommandInfo| candidate_spec(i)),
            candidates_view(r@) == all.take(i as int),
        decreases list@.len() - i,
    {
        let ghost before = r@;
        let c: PickerCandidate = candidate(&list[i]);
        r.push(c);
        assert(candidates_view(r@) =~= candidates_view(before).push(c@));
        i += 1;
    }
    r
}

} // verus!
