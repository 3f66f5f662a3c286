//! Colors and marks that the regions share.

use crate::canvas::Color;
use crate::frame_state::SeparatorColor;
use vstd::prelude::*;

verus! {

pub const TOOL_HEADING_PREFIX: &'static str = "⏺ ";

pub const TOOL_RESULT_OK_PREFIX: &'static str = "  ✓ ";

pub const TOOL_RESULT_ERR_PREFIX: &'static str = "  ✗ ";

pub const NOTE_PREFIX: &'static str = "  · ";

pub const WARNING_PREFIX: &'static str = "  ⚠ ";

pub const ERROR_PREFIX: &'static str = "  ✗ ";

pub const DIFF_OLD_PREFIX: &'static str = "  - ";

pub const DIFF_NEW_PREFIX: &'static str = "  + ";

pub const USER_PROMPT_PREFIX: &'static str = "> ";

/// The mark at the left of the lines of the selected block.
pub const SELECTION_GUTTER: &'static str = "▌";

pub const COLOR_PRIMARY: Color = Color::White;

pub const COLOR_SECONDARY: Color = Color::DarkGray;

pub const COLOR_ACCENT: Color = Color::Cyan;

pub const COLOR_SUCCESS: Color = Color::Green;

pub const COLOR_WARNING: Color = Color::Yellow;

pub const COLOR_ERROR: Color = Color::Red;

pub const COLOR_SUBAGENT: Color = Color::Magenta;

/// The frames of the spinner.
pub open spec fn spinner_frames() -> Seq<char> {
    seq!['⠋', '⠙', '⠹', '⠸', '⠼', '⠴', '⠦', '⠧', '⠇', '⠏']
}

/// The spinner at a time in milliseconds: ten frames of 100 ms.
pub fn spinner_frame(now_ms: u128) -> (c: char)
    ensures
        c == spinner_frames()[(now_ms as int / 100) % 10],
{
    let frames: [char; 10] = ['⠋', '⠙', '⠹', '⠸', '⠼', '⠴', '⠦', '⠧', '⠇', '⠏'];
    let k: usize = ((now_ms / 100) % 10) as usize;
    frames[k]
}

pub open spec fn separator_spec(c: SeparatorColor) -> Color {
    match c {
        SeparatorColor::DarkGray => COLOR_SECONDARY,
        SeparatorColor::Cyan => COLOR_ACCENT,
        SeparatorColor::Yellow => COLOR_WARNING,
        SeparatorColor::Red => COLOR_ERROR,
    }
}

pub fn separator_color(c: SeparatorColor) -> (r: Color)
    ensures
        r == separator_spec(c),
{
    match c {
        SeparatorColor::DarkGray => COLOR_SECONDARY,
        SeparatorColor::Cyan => COLOR_ACCENT,
        SeparatorColor::Yellow => COLOR_WARNING,
        SeparatorColor::Red => COLOR_ERROR,
    }
}

} // verus!
