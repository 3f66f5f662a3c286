//! The bindings that the program ships with.
//!
//! The namespaces of the actions: `editor.*` for the input, `repl.*` for the program,
//! `ask.*` for the dialog, `transcript.*` for the blocks of the transcript.

use crate::keybindings::{bindings_view, BindingView, Keybinding, KeybindingSource};
use crate::keybindings::parser::{
    ascii_lowercase, parse_spec, KeyCode, ParseFault, Shortcut, MOD_ALT, MOD_CTRL, MOD_SHIFT,
};
use crate::keybindings::round_trip::{is_canonical, is_canonical_key, law_render_parses_back};
use vstd::prelude::*;
use vstd::string::*;
use vstd::utf8::is_ascii_chars;

verus! {

/// One row of the default table.
pub open spec fn entry(
    modifiers: u8,
    key: KeyCode,
    action: Seq<char>,
    description: Seq<char>,
) -> BindingView {
    BindingView {
        chord: seq![Shortcut { modifiers, key }],
        action,
        description: Some(description),
        source: KeybindingSource::Default,
    }
}

/// The default table. Where a key occurs twice the first row is the one that counts; the
/// dialog reads the `editor.*` names of those rows as its own.
pub open spec fn default_table() -> Seq<BindingView> {
    seq![
        entry(0, KeyCode::Enter, "editor.submit"@, "Submit input"@),
        entry(MOD_SHIFT, KeyCode::Enter, "editor.newline"@, "Insert newline (multi-line input)"@),
        entry(0, KeyCode::Up, "editor.history.prev"@, "Previous prompt in history"@),
        entry(0, KeyCode::Down, "editor.history.next"@, "Next prompt in history"@),
        entry(MOD_CTRL, KeyCode::Char('u'), "editor.clear"@, "Clear input buffer"@),
        entry(MOD_CTRL, KeyCode::Char('w'), "editor.delete-word"@, "Delete previous word"@),
        entry(MOD_CTRL, KeyCode::Char('k'), "editor.kill-to-eol"@, "Kill to end of line"@),
        entry(MOD_CTRL, KeyCode::Char('l'), "editor.redraw"@, "Redraw screen"@),
        entry(0, KeyCode::Left, "editor.cursor.left"@, "Move cursor left"@),
        entry(0, KeyCode::Right, "editor.cursor.right"@, "Move cursor right"@),
        entry(MOD_ALT, KeyCode::Left, "editor.cursor.word-left"@, "Move back one word"@),
        entry(MOD_ALT, KeyCode::Right, "editor.cursor.word-right"@, "Move forward one word"@),
        entry(0, KeyCode::Home, "editor.cursor.line-start"@, "Move to start of line"@),
        entry(0, KeyCode::End, "editor.cursor.line-end"@, "Move to end of line"@),
        entry(0, KeyCode::Delete, "editor.delete-forward"@, "Delete the character under the cursor"@),
        entry(MOD_CTRL, KeyCode::Char('c'), "repl.cancel"@, "Cancel current turn"@),
        entry(MOD_CTRL, KeyCode::Char('d'), "repl.exit"@, "Exit (when input is empty)"@),
        entry(0, KeyCode::PageUp, "repl.scroll-up"@, "Scroll transcript up"@),
        entry(0, KeyCode::PageDown, "repl.scroll-down"@, "Scroll transcript down"@),
        entry(0, KeyCode::Esc, "repl.dismiss"@, "Dismiss dialog / cancel ask"@),
        entry(MOD_ALT, KeyCode::Up, "transcript.select-prev"@, "Select the previous (older) foldable tool block"@),
        entry(MOD_ALT, KeyCode::Down, "transcript.select-next"@, "Select the next (newer) foldable tool block"@),
        entry(0, KeyCode::Function(5), "transcript.toggle-expand"@, "Expand/collapse the selected foldable tool output (most recent if none selected)"@),
        entry(0, KeyCode::Up, "ask.prev"@, "Previous option in ask-dialog"@),
        entry(0, KeyCode::Down, "ask.next"@, "Next option in ask-dialog"@),
        entry(0, KeyCode::Enter, "ask.confirm"@, "Confirm current ask-dialog choice"@),
        entry(0, KeyCode::Tab, "ask.next-request"@, "Switch to the next pending approval"@),
        entry(0, KeyCode::Char('y'), "ask.yes-shortcut"@, "Quick-yes in ask-dialog"@),
        entry(0, KeyCode::Char('n'), "ask.no-shortcut"@, "Quick-no in ask-dialog"@),
    ]
}

fn bind(modifiers: u8, key: KeyCode, action: &str, description: &str) -> (r: Keybinding)
    ensures
        r@ == entry(modifiers, key, action@, description@),
{
    let mut chord: Vec<Shortcut> = Vec::new();
    chord.push(Shortcut { modifiers, key });
    Keybinding {
        chord,
        action: action.to_owned(),
        description: Some(description.to_owned()),
        source: KeybindingSource::Default,
    }
}

/// The default bindings.
pub fn default_bindings() -> (r: Vec<Keybinding>)
    ensures
        bindings_view(r@) == default_table(),
{
    let r: Vec<Keybinding> = vec![
        bind(0, KeyCode::Enter, "editor.submit", "Submit input"),
        bind(MOD_SHIFT, KeyCode::Enter, "editor.newline", "Insert newline (multi-line input)"),
        bind(0, KeyCode::Up, "editor.history.prev", "Previous prompt in history"),
        bind(0, KeyCode::Down, "editor.history.next", "Next prompt in history"),
        bind(MOD_CTRL, KeyCode::Char('u'), "editor.clear", "Clear input buffer"),
        bind(MOD_CTRL, KeyCode::Char('w'), "editor.delete-word", "Delete previous word"),
        bind(MOD_CTRL, KeyCode::Char('k'), "editor.kill-to-eol", "Kill to end of line"),
        bind(MOD_CTRL, KeyCode::Char('l'), "editor.redraw", "Redraw screen"),
        bind(0, KeyCode::Left, "editor.cursor.left", "Move cursor left"),
        bind(0, KeyCode::Right, "editor.cursor.right", "Move cursor right"),
        bind(MOD_ALT, KeyCode::Left, "editor.cursor.word-left", "Move back one word"),
        bind(MOD_ALT, KeyCode::Right, "editor.cursor.word-right", "Move forward one word"),
        bind(0, KeyCode::Home, "editor.cursor.line-start", "Move to start of line"),
        bind(0, KeyCode::End, "editor.cursor.line-end", "Move to end of line"),
        bind(0, KeyCode::Delete, "editor.delete-forward", "Delete the character under the cursor"),
        bind(MOD_CTRL, KeyCode::Char('c'), "repl.cancel", "Cancel current turn"),
        bind(MOD_CTRL, KeyCode::Char('d'), "repl.exit", "Exit (when input is empty)"),
        bind(0, KeyCode::PageUp, "repl.scroll-up", "Scroll transcript up"),
        bind(0, KeyCode::PageDown, "repl.scroll-down", "Scroll transcript down"),
        bind(0, KeyCode::Esc, "repl.dismiss", "Dismiss dialog / cancel ask"),
        bind(MOD_ALT, KeyCode::Up, "transcript.select-prev", "Select the previous (older) foldable tool block"),
        bind(MOD_ALT, KeyCode::Down, "transcript.select-next", "Select the next (newer) foldable tool block"),
        bind(0, KeyCode::Function(5), "transcript.toggle-expand", "Expand/collapse the selected foldable tool output (most recent if none selected)"),
        bind(0, KeyCode::Up, "ask.prev", "Previous option in ask-dialog"),
        bind(0, KeyCode::Down, "ask.next", "Next option in ask-dialog"),
        bind(0, KeyCode::Enter, "ask.confirm", "Confirm current ask-dialog choice"),
        bind(0, KeyCode::Tab, "ask.next-request", "Switch to the next pending approval"),
        bind(0, KeyCode::Char('y'), "ask.yes-shortcut", "Quick-yes in ask-dialog"),
        bind(0, KeyCode::Char('n'), "ask.no-shortcut", "Quick-no in ask-dialog"),
    ];
    r
}

/// The shortcuts that cannot be bound anew, because something else owns them.
pub fn unmappable_shortcuts() -> (r: Vec<Shortcut>)
    ensures
        r@ == seq![
            Shortcut::ctrl_spec('z'),
            Shortcut::ctrl_spec('q'),
            Shortcut::ctrl_spec('s'),
            Shortcut { modifiers: 0, key: KeyCode::BackTab },
        ],
{
    let r: Vec<Shortcut> = vec![
        Shortcut::ctrl('z'),
        Shortcut::ctrl('q'),
        Shortcut::ctrl('s'),
        Shortcut { modifiers: 0, key: KeyCode::BackTab },
    ];
    r
}

proof fn lemma_letter_is_canonical(c: char)
    requires
        'a' <= c <= 'z',
    ensures
        is_canonical_key(KeyCode::Char(c)),
{
    assert(ascii_lowercase(seq![c]) =~= seq![c]);
}

/// Every default is one shortcut in canonical form, so that what is shown of it can be
/// typed into the bindings file.
pub proof fn law_defaults_read_back(i: int)
    requires
        0 <= i < default_table().len(),
    ensures
        default_table()[i].chord.len() == 1,
        is_canonical(default_table()[i].chord[0]),
        parse_spec(default_table()[i].chord[0].render_spec()) == Ok::<Shortcut, ParseFault>(
            default_table()[i].chord[0],
        ),
{
    lemma_letter_is_canonical('u');
    lemma_letter_is_canonical('w');
    lemma_letter_is_canonical('k');
    lemma_letter_is_canonical('l');
    lemma_letter_is_canonical('c');
    lemma_letter_is_canonical('d');
    lemma_letter_is_canonical('y');
    lemma_letter_is_canonical('n');
    law_render_parses_back(default_table()[i].chord[0]);
}

} // verus!
