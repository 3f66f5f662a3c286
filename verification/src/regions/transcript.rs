//! The transcript, and the line pinned above it.

use crate::canvas::{
    cells_less, cells_plus, draws_view, less, line, line_of, lines_view, one_line, plus, push_draw,
    push_line, span, span_of, Area, Color, Draw, DrawView, Line, LineView, Span, Style,
};
use crate::frame_state::{
    opt_text, HeaderSource, HeaderState, LineKind, TranscriptBodyState, TranscriptEntry,
};
use crate::regions::style::{
    COLOR_ACCENT, COLOR_ERROR, COLOR_SECONDARY, COLOR_SUBAGENT, COLOR_SUCCESS, COLOR_WARNING,
    DIFF_NEW_PREFIX, DIFF_OLD_PREFIX, ERROR_PREFIX, NOTE_PREFIX, SELECTION_GUTTER,
    TOOL_HEADING_PREFIX, TOOL_RESULT_ERR_PREFIX, TOOL_RESULT_OK_PREFIX, USER_PROMPT_PREFIX,
    WARNING_PREFIX,
};
use crate::text::{byte_len, decimal, decimal_spec, text_len};
use vstd::prelude::*;
use vstd::string::*;

verus! {

/// The header takes one line where it has a text and a source.
pub open spec fn header_height_spec(state: HeaderState) -> u16 {
    if state.text is Some && state.source != HeaderSource::Nothing {
        1
    } else {
        0
    }
}

pub fn header_height(state: &HeaderState) -> (r: u16)
    ensures
        r == header_height_spec(*state),
{
    if state.text.is_some() && state.source != HeaderSource::Nothing {
        1
    } else {
        0
    }
}

/// What is drawn of the header.
pub open spec fn header_draws(area: Area, state: HeaderState) -> Seq<DrawView> {
    match state.text {
        None => seq![],
        Some(text) => seq![
            DrawView::Text {
                area,
                lines: seq![
                    line_of(
                        USER_PROMPT_PREFIX@ + text@,
                        Style::colored_spec(
                            if state.source == HeaderSource::SubAgent {
                                COLOR_SUBAGENT
                            } else {
                                COLOR_SECONDARY
                            },
                        ),
                    ),
                ],
                wrap: false,
            },
        ],
    }
}

pub fn render_header(area: Area, state: &HeaderState) -> (r: Vec<Draw>)
    ensures
        draws_view(r@) == header_draws(area, *state),
{
    let mut r: Vec<Draw> = Vec::new();
    match &state.text {
        None => {},
        Some(text) => {
            let color: Color = if state.source == HeaderSource::SubAgent {
                COLOR_SUBAGENT
            } else {
                COLOR_SECONDARY
            };
            let l: Line = line(
                USER_PROMPT_PREFIX.to_owned().concat(text.as_str()),
                Style::colored(color),
            );
            push_draw(&mut r, Draw::Text { area, lines: one_line(l), wrap: false });
        },
    }
    r
}

/// What stands in front of a line of a kind.
pub open spec fn prefix_spec(kind: LineKind) -> Seq<char> {
    match kind {
        LineKind::UserPrompt => USER_PROMPT_PREFIX@,
        LineKind::AssistantText => "  "@,
        LineKind::ToolHeading => TOOL_HEADING_PREFIX@,
        LineKind::ToolResultOk => TOOL_RESULT_OK_PREFIX@,
        LineKind::ToolResultErr => TOOL_RESULT_ERR_PREFIX@,
        LineKind::Note => NOTE_PREFIX@,
        LineKind::Warning => WARNING_PREFIX@,
        LineKind::Error => ERROR_PREFIX@,
        LineKind::Thinking => "  "@,
        LineKind::DiffOld => DIFF_OLD_PREFIX@,
        LineKind::DiffNew => DIFF_NEW_PREFIX@,
        LineKind::DiffContext => "    "@,
        LineKind::Banner => ""@,
        LineKind::Spacer => ""@,
    }
}

/// How a line of a kind is drawn.
pub open spec fn kind_style_spec(kind: LineKind) -> Style {
    Style {
        fg: Some(
            match kind {
                LineKind::UserPrompt => Color::White,
                LineKind::AssistantText => Color::White,
                LineKind::ToolHeading => COLOR_SUCCESS,
                LineKind::ToolResultOk => COLOR_SUCCESS,
                LineKind::ToolResultErr => COLOR_ERROR,
                LineKind::Note => COLOR_SECONDARY,
                LineKind::Warning => COLOR_WARNING,
                LineKind::Error => COLOR_ERROR,
                LineKind::Thinking => COLOR_SECONDARY,
                LineKind::DiffOld => COLOR_ERROR,
                LineKind::DiffNew => COLOR_SUCCESS,
                LineKind::DiffContext => Color::Rgb(200, 200, 210),
                LineKind::Banner => Color::White,
                LineKind::Spacer => Color::White,
            },
        ),
        bg: match kind {
            LineKind::DiffOld => Some(Color::Rgb(60, 20, 20)),
            LineKind::DiffNew => Some(Color::Rgb(20, 60, 20)),
            _ => None,
        },
        bold: kind == LineKind::ToolHeading || kind == LineKind::ToolResultErr || kind
            == LineKind::Warning || kind == LineKind::Error,
        italic: kind == LineKind::Thinking,
        reversed: false,
    }
}

fn prefix_of(kind: LineKind) -> (r: &'static str)
    ensures
        r@ == prefix_spec(kind),
{
    match kind {
        LineKind::UserPrompt => USER_PROMPT_PREFIX,
        LineKind::AssistantText => "  ",
        LineKind::ToolHeading => TOOL_HEADING_PREFIX,
        LineKind::ToolResultOk => TOOL_RESULT_OK_PREFIX,
        LineKind::ToolResultErr => TOOL_RESULT_ERR_PREFIX,
        LineKind::Note => NOTE_PREFIX,
        LineKind::Warning => WARNING_PREFIX,
        LineKind::Error => ERROR_PREFIX,
        LineKind::Thinking => "  ",
        LineKind::DiffOld => DIFF_OLD_PREFIX,
        LineKind::DiffNew => DIFF_NEW_PREFIX,
        LineKind::DiffContext => "    ",
        LineKind::Banner => "",
        LineKind::Spacer => "",
    }
}

fn kind_style(kind: LineKind) -> (r: Style)
    ensures
        r == kind_style_spec(kind),
{
    let fg: Color = match kind {
        LineKind::UserPrompt => Color::White,
        LineKind::AssistantText => Color::White,
        LineKind::ToolHeading => COLOR_SUCCESS,
        LineKind::ToolResultOk => COLOR_SUCCESS,
        LineKind::ToolResultErr => COLOR_ERROR,
        LineKind::Note => COLOR_SECONDARY,
        LineKind::Warning => COLOR_WARNING,
        LineKind::Error => COLOR_ERROR,
        LineKind::Thinking => COLOR_SECONDARY,
        LineKind::DiffOld => COLOR_ERROR,
        LineKind::DiffNew => COLOR_SUCCESS,
        LineKind::DiffContext => Color::Rgb(200, 200, 210),
        LineKind::Banner => Color::White,
        LineKind::Spacer => Color::White,
    };
    let bg: Option<Color> = match kind {
        LineKind::DiffOld => Some(Color::Rgb(60, 20, 20)),
        LineKind::DiffNew => Some(Color::Rgb(20, 60, 20)),
        _ => None,
    };
    Style {
        fg: Some(fg),
        bg,
        bold: kind == LineKind::ToolHeading || kind == LineKind::ToolResultErr || kind
            == LineKind::Warning || kind == LineKind::Error,
        italic: kind == LineKind::Thinking,
        reversed: false,
    }
}

/// A line of the transcript: the gutter, which is there for every line so that selecting
/// shifts nothing, and the text behind its prefix.
pub open spec fn entry_line_spec(e: TranscriptEntry, selected: bool) -> LineView {
    LineView {
        spans: seq![
            if selected {
                span_of(SELECTION_GUTTER@, Style::colored_spec(COLOR_ACCENT))
            } else {
                span_of(" "@, Style::plain_spec())
            },
            span_of(prefix_spec(e.kind) + e.text@, kind_style_spec(e.kind)),
        ],
    }
}

pub fn entry_line(entry: &TranscriptEntry, selected: bool) -> (r: Line)
    ensures
        r@ == entry_line_spec(*entry, selected),
{
    let gutter: Span = if selected {
        span(SELECTION_GUTTER.to_owned(), Style::colored(COLOR_ACCENT))
    } else {
        span(" ".to_owned(), Style::plain())
    };
    let body: Span = span(
        prefix_of(entry.kind).to_owned().concat(entry.text.as_str()),
        kind_style(entry.kind),
    );
    let mut spans: Vec<Span> = Vec::new();
    spans.push(gutter);
    spans.push(body);
    let r = Line { spans };
    r
}

/// The line belongs to the selected block.
pub open spec fn is_selected(e: TranscriptEntry, selected_block: Option<String>) -> bool {
    e.block_id is Some && opt_text(e.block_id) == opt_text(selected_block)
}

fn selected_entry(e: &TranscriptEntry, selected_block: &Option<String>) -> (r: bool)
    ensures
        r == is_selected(*e, *selected_block),
{
    match (&e.block_id, selected_block) {
        (Some(id), Some(sel)) => *id == *sel,
        _ => false,
    }
}

/// The first line that is shown: at the end of the transcript where it follows, else at the
/// scroll position.
pub open spec fn window_start(state: TranscriptBodyState, visible: int) -> int {
    let n = state.entries@.len() as int;
    if state.auto_follow {
        less(n, visible)
    } else if state.scroll.offset < n {
        state.scroll.offset as int
    } else {
        n
    }
}

/// The lines that are shown: as many as fit.
pub open spec fn body_lines(state: TranscriptBodyState, visible: int) -> Seq<LineView> {
    let from = window_start(state, visible);
    let n = state.entries@.len() as int;
    let count = if n - from <= visible {
        n - from
    } else {
        visible
    };
    Seq::new(
        count as nat,
        |i: int|
            entry_line_spec(
                state.entries@[from + i],
                is_selected(state.entries@[from + i], state.selected_block),
            ),
    )
}

/// How many lines are above the ones that are shown.
pub open spec fn above_text(above: int) -> Seq<char> {
    "── "@ + decimal_spec(above as nat) + " lines above ──"@
}

/// Where the indicator of a scrolled transcript stands: on the last line, in the middle.
pub open spec fn indicator_area(area: Area, above: int) -> Area {
    let shift = less(area.width as int, (byte_len(above_text(above)) % 65536) as int) / 2;
    let x = plus(area.x as int, shift);
    Area {
        x: x as u16,
        y: plus(area.y as int, less(area.height as int, 1)) as u16,
        width: less(area.width as int, x - area.x) as u16,
        height: 1,
    }
}

/// What is drawn of the transcript.
pub open spec fn body_draws(area: Area, state: TranscriptBodyState) -> Seq<DrawView> {
    let text = DrawView::Text { area, lines: body_lines(state, area.height as int), wrap: true };
    let above = window_start(
        TranscriptBodyState { auto_follow: false, ..state },
        area.height as int,
    );
    if area.height == 0 {
        seq![]
    } else if state.auto_follow {
        seq![text]
    } else {
        seq![
            text,
            DrawView::Text {
                area: indicator_area(area, above),
                lines: seq![line_of(above_text(above), Style::colored_spec(COLOR_ACCENT))],
                wrap: false,
            },
        ]
    }
}

pub fn render_body(area: Area, state: &TranscriptBodyState) -> (r: Vec<Draw>)
    ensures
        draws_view(r@) == body_draws(area, *state),
{
    let mut r: Vec<Draw> = Vec::new();
    if area.height == 0 {
        return r;
    }
    let visible: usize = area.height as usize;
    let n: usize = state.entries.len();
    let from: usize = if state.auto_follow {
        if n >= visible {
            n - visible
        } else {
            0
        }
    } else if state.scroll.offset < n {
        state.scroll.offset
    } else {
        n
    };
    let count: usize = if n - from <= visible {
        n - from
    } else {
        visible
    };
    let ghost all = body_lines(*state, visible as int);
    let mut lines: Vec<Line> = Vec::new();
    let mut i: usize = 0;
    while i < count
        invariant
            i <= count,
            from + count <= n == state.entries@.len(),
            from == window_start(*state, visible as int),
            all == body_lines(*state, visible as int),
            all.len() == count,
            lines_view(lines@) == all.take(i as int),
        decreases count - i,
    {
        let e: &TranscriptEntry = &state.entries[from + i];
        let l: Line = entry_line(e, selected_entry(e, &state.selected_block));
        push_line(&mut lines, l);
        i += 1;
    }
    assert(all.take(i as int) =~= all);
    push_draw(&mut r, Draw::Text { area, lines, wrap: true });
    if !state.auto_follow {
        let text: String = "── ".to_owned().concat(decimal(from as u64).as_str()).concat(
            " lines above ──",
        );
        let len: u16 = (text_len(text.as_str()) % 65536) as u16;
        let x: u16 = cells_plus(area.x, cells_less(area.width, len) / 2);
        let at = Area {
            x,
            y: cells_plus(area.y, cells_less(area.height, 1)),
            width: cells_less(area.width, x - area.x),
            height: 1,
        };
        let l: Line = line(text, Style::colored(COLOR_ACCENT));
        push_draw(&mut r, Draw::Text { area: at, lines: one_line(l), wrap: false });
    }
    r
}

} // verus!
