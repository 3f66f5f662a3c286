//! Shortcuts that the terminal keeps for itself.

use crate::keybindings::parser::{KeyCode, Shortcut, MOD_CTRL};
use vstd::prelude::*;

verus! {

/// Ctrl-Z suspends the process; Ctrl-S and Ctrl-Q stop and start the output.
pub open spec fn is_reserved(s: Shortcut) -> bool {
    s.modifiers == MOD_CTRL && (s.key == KeyCode::Char('z') || s.key == KeyCode::Char('s') || s.key
        == KeyCode::Char('q'))
}

/// Whether a shortcut should never be bound to an action.
pub fn is_reserved_shortcut(s: &Shortcut) -> (r: bool)
    ensures
        r == is_reserved(*s),
{
    if s.modifiers != MOD_CTRL {
        return false;
    }
    match s.key {
        KeyCode::Char(c) => c == 'z' || c == 's' || c == 'q',
        _ => false,
    }
}

} // verus!
