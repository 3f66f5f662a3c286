//! Keyboard shortcuts: their notation, the default table, user overrides, and the
//! resolution of key presses to actions.

use crate::frame_state::{clone_opt, opt_text};
use crate::keybindings::parser::Shortcut;
use vstd::prelude::*;
use vstd::string::*;

pub mod chord_laws;
pub mod defaults;
pub mod key_laws;
pub mod loader;
pub mod parser;
pub mod reserved;
pub mod resolver;
pub mod round_trip;
pub mod schema;
pub mod validate;

verus! {

/// A chord, the action that it stands for, and where the binding comes from.
#[derive(Debug, PartialEq, Eq)]
pub struct Keybinding {
    /// One shortcut, or several to be pressed one after the other.
    pub chord: Vec<Shortcut>,
    pub action: String,
    pub description: Option<String>,
    pub source: KeybindingSource,
}

#[derive(Debug, Clone, Copy, PartialEq, Eq, Structural)]
pub enum KeybindingSource {
    Default,
    User,
}

/// What a [`Keybinding`] holds.
pub struct BindingView {
    pub chord: Seq<Shortcut>,
    pub action: Seq<char>,
    pub description: Option<Seq<char>>,
    pub source: KeybindingSource,
}

impl View for Keybinding {
    type V = BindingView;

    open spec fn view(&self) -> BindingView {
        BindingView {
            chord: self.chord@,
            action: self.action@,
            description: opt_text(self.description),
            source: self.source,
        }
    }
}

/// What a list of bindings holds.
pub open spec fn bindings_view(s: Seq<Keybinding>) -> Seq<BindingView> {
    s.map_values(|b: Keybinding| b@)
}

/// Copies a chord.
pub fn clone_chord(c: &Vec<Shortcut>) -> (r: Vec<Shortcut>)
    ensures
        r@ == c@,
{
    let mut r: Vec<Shortcut> = Vec::new();
    let mut i: usize = 0;
    while i < c.len()
        invariant
            i <= c@.len(),
            r@ == c@.take(i as int),
        decreases c@.len() - i,
    {
        r.push(c[i]);
        i += 1;
    }
    r
}

impl Clone for Keybinding {
    fn clone(&self) -> (r: Self)
        ensures
            r@ == self@,
    {
        Keybinding {
            chord: clone_chord(&self.chord),
            action: self.action.clone(),
            description: clone_opt(&self.description),
            source: self.source,
        }
    }
}

/// Whether `c` begins with the shortcuts of `p`.
pub open spec fn begins_with(c: Seq<Shortcut>, p: Seq<Shortcut>) -> bool {
    p.len() <= c.len() && c.take(p.len() as int) == p
}

/// Whether a chord begins with another.
pub fn chord_begins_with(c: &Vec<Shortcut>, p: &Vec<Shortcut>) -> (r: bool)
    ensures
        r == begins_with(c@, p@),
{
    if p.len() > c.len() {
        return false;
    }
    let mut i: usize = 0;
    while i < p.len()
        invariant
            i <= p@.len() <= c@.len(),
            forall|j: int| 0 <= j < i ==> c@[j] == p@[j],
        decreases p@.len() - i,
    {
        if c[i] != p[i] {
            return false;
        }
        i += 1;
    }
    assert(c@.take(p@.len() as int) =~= p@);
    true
}

/// Whether two chords are the same.
pub fn same_chord(a: &Vec<Shortcut>, b: &Vec<Shortcut>) -> (r: bool)
    ensures
        r == (a@ == b@),
{
    if a.len() != b.len() {
        return false;
    }
    assert(a@.take(b@.len() as int) =~= a@);
    chord_begins_with(a, b)
}

} // verus!
