//! The composer: an information line, a rule, the editor with what floats above it, and a
//! rule.

use crate::canvas::{
    append_lines, blank, blank_spec, cells_less, cells_plus, draws_view, inside, inside_spec, least,
    less, line, line_of, lines_view, most, one_line, plus, push_draw, push_line, push_span, repeat,
    repeated, span, span_of, spans_view, Area, Draw, DrawView, Line, LineView, Span, SpanView,
    Style,
};
use crate::frame_state::{
    AnswerWith, AskRequest, AskState, AskViewMode, BottomRuleState, ComposerState, ContentState,
    EditorState, InputMode, LabelSource, PickerCandidate, PickerState, TopRuleState,
};
use crate::reducer::{first_line, first_line_spec};
use crate::regions::style::{
    separator_color, separator_spec, COLOR_ACCENT, COLOR_PRIMARY, COLOR_SECONDARY,
};
use crate::text::{
    byte_len, char_pos, chars_of, count_chars_before, decimal, decimal_spec, lines, lines_spec,
    split, split_spec, string_of, text_len, texts,
};
use unicode_width::UnicodeWidthStr;
use vstd::prelude::*;
use vstd::string::*;

verus! {

/// The columns that stand in front of the draft.
pub const EDITOR_PREFIX_WIDTH: u16 = 2;

// ---- widths --------------------------------------------------------------------------

/// A text of printable ASCII characters.
pub open spec fn is_printable_ascii(s: Seq<char>) -> bool {
    forall|i: int| 0 <= i < s.len() ==> ' ' <= #[trigger] s[i] <= '~'
}

/// The number of columns that `UnicodeWidthStr::width` gives a text which is not all
/// printable ASCII.
pub uninterp spec fn unicode_columns(s: Seq<char>) -> usize;

/// The number of columns of a text.
pub open spec fn columns_spec(s: Seq<char>) -> int {
    if is_printable_ascii(s) {
        s.len() as int
    } else {
        unicode_columns(s) as int
    }
}

/// `UnicodeWidthStr::width` is a function of the text alone. A printable ASCII character
/// takes one column; of other texts only that is stated.
#[verifier::external_body]
fn columns(s: &str) -> (n: usize)
    ensures
        n == if is_printable_ascii(s@) {
            s@.len() as int
        } else {
            unicode_columns(s@) as int
        },
{
    s.width()
}

// ---- heights -------------------------------------------------------------------------

/// A count in sixteen bits.
pub open spec fn short(n: int) -> int {
    n % 65536
}

fn to_short(n: usize) -> (r: u16)
    ensures
        r == short(n as int),
{
    (n % 65536) as u16
}

/// The rows that so many columns take when they are wrapped: one at least.
pub open spec fn rows_of_spec(columns: int, avail: int) -> int {
    let sum = columns + avail;
    short(
        most(
            ((if sum <= usize::MAX {
                sum
            } else {
                usize::MAX as int
            }) - 1) / avail,
            1,
        ),
    )
}

pub fn rows_of(columns: usize, avail: u16) -> (r: u16)
    requires
        avail >= 1,
    ensures
        r == rows_of_spec(columns as int, avail as int),
{
    let avail: usize = avail as usize;
    let rows: usize = (columns.saturating_add(avail) - 1) / avail;
    to_short(
        if rows >= 1 {
            rows
        } else {
            1
        },
    )
}

/// The rows that a line takes when it is wrapped at so many columns.
pub open spec fn wrapped_rows(line: Seq<char>, avail: int) -> int {
    rows_of_spec(columns_spec(line), avail)
}

pub open spec fn wrapped_total(lines: Seq<Seq<char>>, avail: int) -> int
    decreases lines.len(),
{
    if lines.len() == 0 {
        0
    } else {
        plus(wrapped_total(lines.drop_last(), avail), wrapped_rows(lines.last(), avail))
    }
}

/// The rows that a text takes when its lines are wrapped at so many columns.
pub open spec fn wrapped_spec(text: Seq<char>, avail_width: u16) -> int {
    most(wrapped_total(split_spec(text, '\n'), most(avail_width as int, 1)), 1)
}

pub fn wrapped_line_count(text: &str, avail_width: u16) -> (r: u16)
    ensures
        r == wrapped_spec(text@, avail_width),
{
    let avail: u16 = if avail_width >= 1 {
        avail_width
    } else {
        1
    };
    let parts: Vec<String> = split(text, '\n');
    let ghost all = texts(parts@);
    let mut total: u16 = 0;
    let mut i: usize = 0;
    while i < parts.len()
        invariant
            i <= parts@.len(),
            avail >= 1,
            all == texts(parts@),
            total == wrapped_total(all.take(i as int), avail as int),
        decreases parts@.len() - i,
    {
        let w: usize = columns(parts[i].as_str());
        proof {
            assert(all.take(i + 1).drop_last() =~= all.take(i as int));
        }
        total = cells_plus(total, rows_of(w, avail));
        i += 1;
    }
    assert(all.take(i as int) =~= all);
    if total >= 1 {
        total
    } else {
        1
    }
}

/// The rows of the editor: those of the draft and one for a paste, between 1 and 12.
pub open spec fn editor_height_spec(state: EditorState, width: u16) -> int {
    let avail = most(less(width as int, EDITOR_PREFIX_WIDTH as int), 1) as u16;
    let rows = plus(
        wrapped_spec(state.draft@, avail),
        if state.paste_placeholder is Some {
            1
        } else {
            0
        },
    );
    most(1, least(rows, 12))
}

pub fn editor_height(state: &EditorState, width: u16) -> (r: u16)
    ensures
        r == editor_height_spec(*state, width),
        1 <= r <= 12,
{
    let avail: u16 = cells_less(width, EDITOR_PREFIX_WIDTH);
    let avail: u16 = if avail >= 1 {
        avail
    } else {
        1
    };
    let paste: u16 = if state.paste_placeholder.is_some() {
        1
    } else {
        0
    };
    let rows: u16 = cells_plus(wrapped_line_count(state.draft.as_str(), avail), paste);
    if rows < 1 {
        1
    } else if rows > 12 {
        12
    } else {
        rows
    }
}

/// The rows inside the card of a request: its title, its message, its options, a key hint,
/// and two blank lines between them.
pub open spec fn card_height_spec(req: AskRequest) -> int {
    plus(
        plus(4, short(most(lines_spec(req.message@).len() as int, 1))),
        short(req.options@.len() as int),
    )
}

pub fn card_inner_height(req: &AskRequest) -> (r: u16)
    ensures
        r == card_height_spec(*req),
{
    let parts: Vec<String> = lines(req.message.as_str());
    let n: usize = if parts.len() >= 1 {
        parts.len()
    } else {
        1
    };
    cells_plus(cells_plus(4, to_short(n)), to_short(req.options.len()))
}

/// The rows of the dialog, with its border.
pub open spec fn ask_height_spec(state: AskState) -> int {
    match state.view_mode {
        AskViewMode::TabView => plus(
            if state.pending@.len() > 1 {
                3
            } else {
                2
            },
            match state.active_spec() {
                Some(req) => card_height_spec(req),
                None => 0,
            },
        ),
        AskViewMode::ListView => plus(5, short(state.pending@.len() as int)),
    }
}

pub fn approval_height(state: &AskState) -> (r: u16)
    ensures
        r == ask_height_spec(*state),
{
    match state.view_mode {
        AskViewMode::TabView => {
            let frame: u16 = if state.pending.len() > 1 {
                3
            } else {
                2
            };
            let card: u16 = match state.active() {
                Some(req) => card_inner_height(req),
                None => 0,
            };
            cells_plus(frame, card)
        },
        AskViewMode::ListView => cells_plus(5, to_short(state.pending.len())),
    }
}

pub open spec fn opt_ask_height(ask: Option<AskState>) -> int {
    match ask {
        Some(a) => ask_height_spec(a),
        None => 0,
    }
}

fn ask_rows(ask: &Option<AskState>) -> (r: u16)
    ensures
        r == opt_ask_height(*ask),
{
    match ask {
        Some(a) => approval_height(a),
        None => 0,
    }
}

/// The rows of the editor and of the dialog above it.
pub open spec fn content_height_spec(state: ContentState, width: u16) -> int {
    plus(editor_height_spec(state.editor, width), opt_ask_height(state.ask))
}

pub fn content_height(state: &ContentState, width: u16) -> (r: u16)
    ensures
        r == content_height_spec(*state, width),
{
    cells_plus(editor_height(&state.editor, width), ask_rows(&state.ask))
}

pub open spec fn app_info_height(state: ComposerState) -> int {
    if state.app_info.text is Some {
        1
    } else {
        0
    }
}

/// The rows of the composer.
pub open spec fn height_spec(state: ComposerState, width: u16) -> int {
    plus(app_info_height(state) + 2, content_height_spec(state.content, width))
}

pub fn height(state: &ComposerState, width: u16) -> (r: u16)
    ensures
        r == height_spec(*state, width),
{
    let around: u16 = if state.app_info.text.is_some() {
        3
    } else {
        2
    };
    cells_plus(around, content_height(&state.content, width))
}

// ---- the lines around the content ----------------------------------------------------

/// The information line, at the right.
pub open spec fn app_info_line(width: u16, text: Seq<char>) -> LineView {
    line_of(
        repeated(' ', less(width as int, byte_len(text) as int) as nat) + text,
        Style::colored_spec(COLOR_ACCENT),
    )
}

fn render_app_info(width: u16, text: &str) -> (r: Line)
    ensures
        r@ == app_info_line(width, text@),
{
    let w: usize = width as usize;
    let len: usize = text_len(text);
    let pad: usize = if w >= len {
        w - len
    } else {
        0
    };
    line(repeat(' ', pad).concat(text), Style::colored(COLOR_ACCENT))
}

pub open spec fn label_text(label: Option<LabelSource>) -> Seq<char> {
    match label {
        Some(l) => l.text_spec(),
        None => seq![],
    }
}

/// The rule above the content, with a label at its right end.
pub open spec fn top_rule_line(width: u16, state: TopRuleState) -> LineView {
    let style = Style::colored_spec(separator_spec(state.color));
    let label = label_text(state.right_label);
    LineView {
        spans: seq![
            span_of(
                repeated('─', less(width as int, short(byte_len(label) as int)) as nat),
                style,
            ),
            span_of(label, style),
        ],
    }
}

fn render_top_rule(width: u16, state: &TopRuleState) -> (r: Line)
    ensures
        r@ == top_rule_line(width, *state),
{
    let style: Style = Style::colored(separator_color(state.color));
    let label: String = match &state.right_label {
        Some(l) => l.text(),
        None => String::new(),
    };
    let dashes: u16 = cells_less(width, to_short(text_len(label.as_str())));
    let mut spans: Vec<Span> = Vec::new();
    spans.push(span(repeat('─', dashes as usize), style));
    spans.push(span(label, style));
    let r = Line { spans };
    r
}

pub open spec fn bottom_rule_line(width: u16, state: BottomRuleState) -> LineView {
    line_of(repeated('─', width as nat), Style::colored_spec(separator_spec(state.color)))
}

fn render_bottom_rule(width: u16, state: &BottomRuleState) -> (r: Line)
    ensures
        r@ == bottom_rule_line(width, *state),
{
    line(repeat('─', width as usize), Style::colored(separator_color(state.color)))
}

// ---- the editor ----------------------------------------------------------------------

/// The byte at which a line of the draft begins.
pub open spec fn line_offset(segments: Seq<Seq<char>>, i: int) -> nat
    decreases i,
{
    if i <= 0 {
        0
    } else {
        line_offset(segments, i - 1) + byte_len(segments[i - 1]) + 1
    }
}

/// The byte in line `i` at which the cursor stands, where it stands in that line.
pub open spec fn cursor_in_line(segments: Seq<Seq<char>>, i: int, cursor: nat) -> Option<nat> {
    let offset = line_offset(segments, i);
    if offset <= cursor && cursor - offset <= byte_len(segments[i]) {
        Some((cursor - offset) as nat)
    } else {
        None
    }
}

/// The pieces of a line with the cursor behind its first `k` characters: the character
/// under the cursor is reversed; at the end of the line the cursor is a block.
pub open spec fn cursor_spans(segment: Seq<char>, k: int, style: Style) -> Seq<SpanView> {
    if k < segment.len() {
        seq![
            span_of(segment.take(k), style),
            span_of(seq![segment[k]], Style { reversed: true, ..style }),
            span_of(segment.skip(k + 1), style),
        ]
    } else {
        seq![span_of(segment.take(k), style), span_of("█"@, style)]
    }
}

/// Line `i` of the editor. The prefix stands in front of the first line only.
pub open spec fn editor_line(
    segments: Seq<Seq<char>>,
    i: int,
    state: EditorState,
    prefix: Seq<char>,
    style: Style,
) -> LineView {
    let head: Seq<SpanView> = if i == 0 {
        seq![span_of(prefix, style)]
    } else {
        seq![]
    };
    let at = if state.locked {
        None
    } else {
        cursor_in_line(segments, i, state.cursor as nat)
    };
    LineView {
        spans: head + match at {
            Some(rel) => cursor_spans(segments[i], char_pos(segments[i], rel) as int, style),
            None => seq![span_of(segments[i], style)],
        },
    }
}

/// The lines of the editor.
pub open spec fn editor_lines_spec(
    state: EditorState,
    prefix: Seq<char>,
    style: Style,
) -> Seq<LineView> {
    let segments = split_spec(state.draft@, '\n');
    Seq::new(segments.len(), |i: int| editor_line(segments, i, state, prefix, style))
}

fn push_cursor_spans(spans: &mut Vec<Span>, segment: &str, rel: usize, style: Style)
    ensures
        spans_view(final(spans)@) == spans_view(old(spans)@) + cursor_spans(
            segment@,
            char_pos(segment@, rel as nat) as int,
            style,
        ),
{
    let v: Vec<char> = chars_of(segment);
    let k: usize = count_chars_before(&v, rel);
    let head: String = string_of(vstd::slice::slice_subrange(v.as_slice(), 0, k));
    push_span(spans, span(head, style));
    if k < v.len() {
        let mut under: String = String::new();
        under.push(v[k]);
        let reversed = Style {
            fg: style.fg,
            bg: style.bg,
            bold: style.bold,
            italic: style.italic,
            reversed: true,
        };
        push_span(spans, span(under, reversed));
        let tail: String = string_of(vstd::slice::slice_subrange(v.as_slice(), k + 1, v.len()));
        push_span(spans, span(tail, style));
    } else {
        push_span(spans, span("█".to_owned(), style));
    }
}

/// The lines of the draft, with the cursor in the line that it stands in.
pub fn editor_lines(state: &EditorState, prefix: &str, style: Style) -> (r: Vec<Line>)
    ensures
        lines_view(r@) == editor_lines_spec(*state, prefix@, style),
{
    let parts: Vec<String> = split(state.draft.as_str(), '\n');
    let ghost segments = split_spec(state.draft@, '\n');
    let ghost all = editor_lines_spec(*state, prefix@, style);
    let mut r: Vec<Line> = Vec::new();
    // How far the cursor is behind the beginning of the line; `None` once it is passed.
    let mut rel: Option<usize> = Some(state.cursor);
    let mut i: usize = 0;
    while i < parts.len()
        invariant
            i <= parts@.len(),
            segments == split_spec(state.draft@, '\n'),
            texts(parts@) == segments,
            all == editor_lines_spec(*state, prefix@, style),
            rel is Some == (line_offset(segments, i as int) <= state.cursor),
            rel matches Some(x) ==> x == state.cursor - line_offset(segments, i as int),
            lines_view(r@) == all.take(i as int),
        decreases parts@.len() - i,
    {
        let segment: &str = parts[i].as_str();
        let len: usize = text_len(segment);
        let mut spans: Vec<Span> = Vec::new();
        if i == 0 {
            spans.push(span(prefix.to_owned(), style));
        }
        let at: Option<usize> = match rel {
            Some(x) => if !state.locked && x <= len {
                Some(x)
            } else {
                None
            },
            None => None,
        };
        match at {
            Some(x) => push_cursor_spans(&mut spans, segment, x, style),
            None => push_span(&mut spans, span(segment.to_owned(), style)),
        }
        let l = Line { spans };
        proof {
            assert(l@ =~= editor_line(segments, i as int, *state, prefix@, style));
        }
        push_line(&mut r, l);
        rel = match rel {
            Some(x) => if x > len {
                Some(x - len - 1)
            } else {
                None
            },
            None => None,
        };
        i += 1;
    }
    r
}

pub open spec fn editor_prefix_spec(mode: InputMode) -> Seq<char> {
    if mode == InputMode::BashEscape {
        "! "@
    } else {
        "> "@
    }
}

pub open spec fn editor_style_spec(locked: bool) -> Style {
    Style::colored_spec(
        if locked {
            COLOR_SECONDARY
        } else {
            COLOR_PRIMARY
        },
    )
}

/// What is drawn of the editor.
pub open spec fn editor_content(state: EditorState) -> Seq<LineView> {
    let text = editor_lines_spec(
        state,
        editor_prefix_spec(state.mode),
        editor_style_spec(state.locked),
    );
    let pasted = match state.paste_placeholder {
        Some(p) => text.push(
            line_of(
                "  [Pasted text +"@ + decimal_spec(p.lines as nat) + " lines, "@ + decimal_spec(
                    p.bytes as nat,
                ) + " bytes]"@,
                Style::colored_spec(COLOR_SECONDARY),
            ),
        ),
        None => text,
    };
    if state.mode == InputMode::VimNormal {
        pasted.push(line_of("[NORMAL]"@, Style::colored_spec(COLOR_ACCENT).strong_spec()))
    } else {
        pasted
    }
}

fn render_editor(area: Area, state: &EditorState) -> (r: Draw)
    ensures
        r@ == (DrawView::Text { area, lines: editor_content(*state), wrap: true }),
{
    let prefix: &str = if state.mode == InputMode::BashEscape {
        "! "
    } else {
        "> "
    };
    let style: Style = Style::colored(
        if state.locked {
            COLOR_SECONDARY
        } else {
            COLOR_PRIMARY
        },
    );
    let mut lines: Vec<Line> = editor_lines(state, prefix, style);
    match &state.paste_placeholder {
        Some(p) => {
            let text: String = "  [Pasted text +".to_owned().concat(
                decimal(p.lines as u64).as_str(),
            ).concat(" lines, ").concat(decimal(p.bytes as u64).as_str()).concat(" bytes]");
            push_line(&mut lines, line(text, Style::colored(COLOR_SECONDARY)));
        },
        None => {},
    }
    if state.mode == InputMode::VimNormal {
        push_line(
            &mut lines,
            line("[NORMAL]".to_owned(), Style::colored(COLOR_ACCENT).strong()),
        );
    }
    Draw::Text { area, lines, wrap: true }
}

// ---- the list above the editor -------------------------------------------------------

pub open spec fn marker_spec(selected: bool) -> Seq<char> {
    if selected {
        "❯ "@
    } else {
        "  "@
    }
}

fn marker(selected: bool) -> (r: &'static str)
    ensures
        r@ == marker_spec(selected),
{
    if selected {
        "❯ "
    } else {
        "  "
    }
}

pub open spec fn choice_style_spec(selected: bool) -> Style {
    if selected {
        Style::colored_spec(COLOR_ACCENT).strong_spec()
    } else {
        Style::plain_spec()
    }
}

fn choice_style(selected: bool) -> (r: Style)
    ensures
        r == choice_style_spec(selected),
{
    if selected {
        Style::colored(COLOR_ACCENT).strong()
    } else {
        Style::plain()
    }
}

pub open spec fn candidate_line(c: PickerCandidate, selected: bool) -> LineView {
    LineView {
        spans: seq![
            span_of(marker_spec(selected) + c.name@, choice_style_spec(selected)),
            span_of("  "@, Style::plain_spec()),
            span_of(c.description@, Style::colored_spec(COLOR_SECONDARY)),
        ],
    }
}

pub open spec fn candidate_lines(state: PickerState) -> Seq<LineView> {
    Seq::new(
        state.candidates@.len(),
        |i: int| candidate_line(state.candidates@[i], i == state.selected),
    )
}

/// Where the list is: right above the editor, five rows high at most.
pub open spec fn picker_area(editor: Area, count: nat) -> Area {
    let h = least(plus(short(count as int), 2), 5);
    Area {
        x: editor.x,
        y: less(editor.y as int, h) as u16,
        width: least(editor.width as int, 60) as u16,
        height: h as u16,
    }
}

/// What is drawn of the list.
pub open spec fn picker_draws(editor: Area, state: PickerState) -> Seq<DrawView> {
    let area = picker_area(editor, state.candidates@.len());
    seq![
        DrawView::Clear { area },
        DrawView::Border { area, color: COLOR_ACCENT, title: None },
        DrawView::Text { area: inside_spec(area), lines: candidate_lines(state), wrap: false },
    ]
}

fn render_picker(editor: Area, state: &PickerState, out: &mut Vec<Draw>)
    ensures
        draws_view(final(out)@) == draws_view(old(out)@) + picker_draws(editor, *state),
{
    let rows: u16 = cells_plus(to_short(state.candidates.len()), 2);
    let h: u16 = if rows <= 5 {
        rows
    } else {
        5
    };
    let area = Area {
        x: editor.x,
        y: cells_less(editor.y, h),
        width: if editor.width <= 60 {
            editor.width
        } else {
            60
        },
        height: h,
    };
    let ghost all = candidate_lines(*state);
    let mut lines: Vec<Line> = Vec::new();
    let mut i: usize = 0;
    while i < state.candidates.len()
        invariant
            i <= state.candidates@.len(),
            all == candidate_lines(*state),
            lines_view(lines@) == all.take(i as int),
        decreases state.candidates@.len() - i,
    {
        let c: &PickerCandidate = &state.candidates[i];
        let selected: bool = i == state.selected;
        let mut spans: Vec<Span> = Vec::new();
        spans.push(
            span(marker(selected).to_owned().concat(c.name.as_str()), choice_style(selected)),
        );
        spans.push(span("  ".to_owned(), Style::plain()));
        spans.push(span(c.description.clone(), Style::colored(COLOR_SECONDARY)));
        let l = Line { spans };
        proof {
            assert(l@ =~= candidate_line(*c, selected));
        }
        push_line(&mut lines, l);
        i += 1;
    }
    assert(all.take(i as int) =~= all);
    push_draw(out, Draw::Clear { area });
    push_draw(out, Draw::Border { area, color: COLOR_ACCENT, title: None });
    push_draw(out, Draw::Text { area: inside(area), lines, wrap: false });
}

// ---- the dialog ----------------------------------------------------------------------

/// The tab of request `i`.
pub open spec fn tab_span(state: AskState, i: int) -> SpanView {
    span_of(
        " ["@ + state.pending@[i].tool_name@ + "#"@ + decimal_spec((i + 1) as nat) + "]"@,
        if i == state.active_idx {
            Style::colored_spec(COLOR_ACCENT).strong_spec()
        } else {
            Style::colored_spec(COLOR_SECONDARY)
        },
    )
}

/// The tabs of all requests.
pub open spec fn tabs_line(state: AskState) -> LineView {
    LineView { spans: Seq::new(state.pending@.len(), |i: int| tab_span(state, i)) }
}

fn render_tabs(state: &AskState) -> (r: Line)
    ensures
        r@ == tabs_line(*state),
{
    let ghost all = tabs_line(*state).spans;
    let mut spans: Vec<Span> = Vec::new();
    let total: usize = state.pending.len();
    let mut i: usize = 0;
    while i < total
        invariant
            i <= total == state.pending@.len(),
            all == tabs_line(*state).spans,
            spans_view(spans@) == all.take(i as int),
        decreases total - i,
    {
        let style: Style = if i == state.active_idx {
            Style::colored(COLOR_ACCENT).strong()
        } else {
            Style::colored(COLOR_SECONDARY)
        };
        let number: u64 = (i + 1) as u64;
        let text: String = " [".to_owned().concat(state.pending[i].tool_name.as_str()).concat(
            "#",
        ).concat(decimal(number).as_str()).concat("]");
        let s: Span = span(text, style);
        push_span(&mut spans, s);
        i += 1;
    }
    let r = Line { spans };
    r
}

/// The title of a card.
pub open spec fn card_head(req: AskRequest) -> Seq<LineView> {
    seq![line_of(req.tool_name@ + ":"@, Style::plain_spec().strong_spec())]
}

/// The message of a card, indented, and a blank line.
pub open spec fn card_body(req: AskRequest) -> Seq<LineView> {
    lines_spec(req.message@).map_values(
        |l: Seq<char>| line_of("  "@ + l, Style::plain_spec()),
    ).push(blank_spec())
}

pub open spec fn option_line(req: AskRequest, i: int) -> LineView {
    let selected = i == req.selected_option;
    line_of(
        "  "@ + marker_spec(selected) + req.options@[i].label_spec(),
        choice_style_spec(selected),
    )
}

/// The keys that answer a request.
pub open spec fn key_hint(answer_with: AnswerWith, several: bool) -> Seq<char> {
    match answer_with {
        AnswerWith::Type => "Type your answer below, then Enter"@,
        AnswerWith::Choose => if several {
            "Enter=confirm  Esc=deny  Tab=next"@
        } else {
            "Enter=confirm  Esc=deny"@
        },
    }
}

/// The options of a card, a blank line, and the keys.
pub open spec fn card_tail(req: AskRequest, several: bool) -> Seq<LineView> {
    Seq::new(req.options@.len(), |i: int| option_line(req, i)).push(blank_spec()).push(
        line_of("  "@ + key_hint(req.answer_with, several), Style::colored_spec(COLOR_SECONDARY)),
    )
}

/// A card that has to fit into so many rows. The message gives way first, and an ellipsis
/// says so; the options and the keys stay.
pub open spec fn fitted(
    head: Seq<LineView>,
    body: Seq<LineView>,
    tail: Seq<LineView>,
    height: int,
) -> Seq<LineView> {
    let must = head.len() + tail.len();
    let room = less(height, must as int);
    if must + body.len() <= height {
        head + body + tail
    } else if room > 0 {
        head + body.take(room - 1).push(
            line_of("  …"@, Style::colored_spec(COLOR_SECONDARY)),
        ) + tail
    } else {
        head + tail
    }
}

/// Fits a card into so many rows.
pub fn fit_card(head: Vec<Line>, body: Vec<Line>, tail: Vec<Line>, height: u16) -> (r: Vec<Line>)
    ensures
        lines_view(r@) == fitted(
            lines_view(head@),
            lines_view(body@),
            lines_view(tail@),
            height as int,
        ),
{
    let rows: usize = height as usize;
    let fixed: bool = head.len() <= rows && tail.len() <= rows - head.len();
    let room: usize = if fixed {
        rows - head.len() - tail.len()
    } else {
        0
    };
    let mut out: Vec<Line> = head;
    if fixed && body.len() <= room {
        append_lines(&mut out, body);
    } else {
        if room > 0 {
            let mut kept: Vec<Line> = body;
            kept.truncate(room - 1);
            push_line(&mut kept, line("  …".to_owned(), Style::colored(COLOR_SECONDARY)));
            append_lines(&mut out, kept);
        }
    }
    append_lines(&mut out, tail);
    out
}

fn card_parts(req: &AskRequest, several: bool) -> (r: (Vec<Line>, Vec<Line>, Vec<Line>))
    ensures
        lines_view(r.0@) == card_head(*req),
        lines_view(r.1@) == card_body(*req),
        lines_view(r.2@) == card_tail(*req, several),
{
    let head: Vec<Line> = one_line(
        line(req.tool_name.clone().concat(":"), Style::plain().strong()),
    );
    let parts: Vec<String> = lines(req.message.as_str());
    let ghost ls = lines_spec(req.message@);
    let ghost shown = ls.map_values(|l: Seq<char>| line_of("  "@ + l, Style::plain_spec()));
    let mut body: Vec<Line> = Vec::new();
    let mut i: usize = 0;
    while i < parts.len()
        invariant
            i <= parts@.len(),
            ls == texts(parts@),
            shown == ls.map_values(|l: Seq<char>| line_of("  "@ + l, Style::plain_spec())),
            lines_view(body@) == shown.take(i as int),
        decreases parts@.len() - i,
    {
        let l: Line = line("  ".to_owned().concat(parts[i].as_str()), Style::plain());
        push_line(&mut body, l);
        i += 1;
    }
    push_line(&mut body, blank());
    let ghost opts = Seq::new(req.options@.len(), |i: int| option_line(*req, i));
    let mut tail: Vec<Line> = Vec::new();
    let mut k: usize = 0;
    while k < req.options.len()
        invariant
            k <= req.options@.len(),
            opts == Seq::new(req.options@.len(), |i: int| option_line(*req, i)),
            lines_view(tail@) == opts.take(k as int),
        decreases req.options@.len() - k,
    {
        let selected: bool = k == req.selected_option;
        let l: Line = line(
            "  ".to_owned().concat(marker(selected)).concat(req.options[k].label()),
            choice_style(selected),
        );
        push_line(&mut tail, l);
        k += 1;
    }
    push_line(&mut tail, blank());
    let hint: &str = match req.answer_with {
        AnswerWith::Type => "Type your answer below, then Enter",
        AnswerWith::Choose => if several {
            "Enter=confirm  Esc=deny  Tab=next"
        } else {
            "Enter=confirm  Esc=deny"
        },
    };
    push_line(&mut tail, line("  ".to_owned().concat(hint), Style::colored(COLOR_SECONDARY)));
    (head, body, tail)
}

/// What is drawn of the dialog as a card with tabs.
pub open spec fn tab_draws(area: Area, state: AskState) -> Seq<DrawView> {
    let several = state.pending@.len() > 1;
    let tabs: Seq<DrawView> = if several {
        seq![
            DrawView::Text {
                area: Area { height: 1, ..area },
                lines: seq![tabs_line(state)],
                wrap: false,
            },
        ]
    } else {
        seq![]
    };
    let card = if several {
        Area {
            y: plus(area.y as int, 1) as u16,
            height: less(area.height as int, 1) as u16,
            ..area
        }
    } else {
        area
    };
    match state.active_spec() {
        None => tabs,
        Some(req) => tabs + seq![
            DrawView::Border { area: card, color: COLOR_ACCENT, title: None },
            DrawView::Text {
                area: inside_spec(card),
                lines: fitted(
                    card_head(req),
                    card_body(req),
                    card_tail(req, several),
                    inside_spec(card).height as int,
                ),
                wrap: false,
            },
        ],
    }
}

fn render_tab_view(area: Area, state: &AskState, out: &mut Vec<Draw>)
    ensures
        draws_view(final(out)@) == draws_view(old(out)@) + tab_draws(area, *state),
{
    let several: bool = state.pending.len() > 1;
    let mut card: Area = area;
    if several {
        let strip = Area { x: area.x, y: area.y, width: area.width, height: 1 };
        push_draw(out, Draw::Text { area: strip, lines: one_line(render_tabs(state)), wrap: false });
        card = Area {
            x: area.x,
            y: cells_plus(area.y, 1),
            width: area.width,
            height: cells_less(area.height, 1),
        };
    }
    match state.active() {
        None => {},
        Some(req) => {
            push_draw(out, Draw::Border { area: card, color: COLOR_ACCENT, title: None });
            let inner: Area = inside(card);
            let (head, body, tail) = card_parts(req, several);
            let lines: Vec<Line> = fit_card(head, body, tail, inner.height);
            push_draw(out, Draw::Text { area: inner, lines, wrap: false });
        },
    }
}

/// Request `i` in the list of requests: its title and the first line of its message.
pub open spec fn list_line(state: AskState, i: int) -> LineView {
    let selected = i == state.active_idx;
    line_of(
        marker_spec(selected) + state.pending@[i].tool_name@ + ": "@ + first_line_spec(
            state.pending@[i].message@,
        ),
        choice_style_spec(selected),
    )
}

/// The lines of the list of requests.
pub open spec fn list_lines(state: AskState) -> Seq<LineView> {
    let title: Seq<LineView> = seq![
        line_of(
            decimal_spec(state.pending@.len()) + " pending approvals"@,
            Style::plain_spec().strong_spec(),
        ),
    ];
    (title + Seq::new(state.pending@.len(), |i: int| list_line(state, i))).push(blank_spec()).push(
        line_of("  Enter=expand  ↑/↓=move"@, Style::colored_spec(COLOR_SECONDARY)),
    )
}

/// What is drawn of the dialog as a list.
pub open spec fn list_draws(area: Area, state: AskState) -> Seq<DrawView> {
    seq![
        DrawView::Border { area, color: COLOR_ACCENT, title: None },
        DrawView::Text { area: inside_spec(area), lines: list_lines(state), wrap: false },
    ]
}

fn render_list_view(area: Area, state: &AskState, out: &mut Vec<Draw>)
    ensures
        draws_view(final(out)@) == draws_view(old(out)@) + list_draws(area, *state),
{
    let n: usize = state.pending.len();
    let ghost rows = Seq::new(state.pending@.len(), |i: int| list_line(*state, i));
    let mut lines: Vec<Line> = one_line(
        line(decimal(n as u64).concat(" pending approvals"), Style::plain().strong()),
    );
    let ghost title = lines_view(lines@);
    let mut i: usize = 0;
    while i < n
        invariant
            i <= n == state.pending@.len(),
            rows == Seq::new(state.pending@.len(), |i: int| list_line(*state, i)),
            lines_view(lines@) == title + rows.take(i as int),
        decreases n - i,
    {
        let req: &AskRequest = &state.pending[i];
        let selected: bool = i == state.active_idx;
        let text: String = marker(selected).to_owned().concat(req.tool_name.as_str()).concat(
            ": ",
        ).concat(first_line(req.message.as_str()).as_str());
        let l: Line = line(text, choice_style(selected));
        push_line(&mut lines, l);
        i += 1;
    }
    assert(rows.take(i as int) =~= rows);
    push_line(&mut lines, blank());
    push_line(
        &mut lines,
        line("  Enter=expand  ↑/↓=move".to_owned(), Style::colored(COLOR_SECONDARY)),
    );
    push_draw(out, Draw::Border { area, color: COLOR_ACCENT, title: None });
    push_draw(out, Draw::Text { area: inside(area), lines, wrap: false });
}

/// What is drawn of the dialog.
pub open spec fn ask_draws(area: Area, state: AskState) -> Seq<DrawView> {
    match state.view_mode {
        AskViewMode::TabView => tab_draws(area, state),
        AskViewMode::ListView => list_draws(area, state),
    }
}

fn render_ask(area: Area, state: &AskState, out: &mut Vec<Draw>)
    ensures
        draws_view(final(out)@) == draws_view(old(out)@) + ask_draws(area, *state),
{
    match state.view_mode {
        AskViewMode::TabView => render_tab_view(area, state, out),
        AskViewMode::ListView => render_list_view(area, state, out),
    }
}

// ---- the whole composer --------------------------------------------------------------

/// A row of an area: the whole width, from `row.0` on, `row.1` high.
pub open spec fn row_area(area: Area, row: (u16, u16)) -> Area {
    Area { x: area.x, y: row.0, width: area.width, height: row.1 }
}

pub fn row_of(area: Area, row: (u16, u16)) -> (r: Area)
    ensures
        r == row_area(area, row),
{
    Area { x: area.x, y: row.0, width: area.width, height: row.1 }
}

/// The heights of the four rows of the composer.
pub open spec fn composer_heights(state: ComposerState, width: u16) -> Seq<u16> {
    seq![
        app_info_height(state) as u16,
        1,
        content_height_spec(state.content, width) as u16,
        1,
    ]
}

pub fn row_heights(state: &ComposerState, width: u16) -> (r: Vec<u16>)
    ensures
        r@ == composer_heights(*state, width),
{
    let mut r: Vec<u16> = Vec::new();
    r.push(
        if state.app_info.text.is_some() {
            1
        } else {
            0
        },
    );
    r.push(1);
    r.push(content_height(&state.content, width));
    r.push(1);
    r
}

/// The heights of the dialog and of the editor.
pub open spec fn content_heights(state: ContentState, width: u16) -> Seq<u16> {
    seq![opt_ask_height(state.ask) as u16, editor_height_spec(state.editor, width) as u16]
}

pub fn content_row_heights(state: &ContentState, width: u16) -> (r: Vec<u16>)
    ensures
        r@ == content_heights(*state, width),
{
    let mut r: Vec<u16> = Vec::new();
    r.push(ask_rows(&state.ask));
    r.push(editor_height(&state.editor, width));
    r
}

/// What is drawn of the content: the editor, and above it the dialog or the list.
pub open spec fn content_draws(area: Area, state: ContentState, rows: Seq<(u16, u16)>) -> Seq<
    DrawView,
> {
    let editor_area = row_area(area, rows[1]);
    seq![
        DrawView::Text { area: editor_area, lines: editor_content(state.editor), wrap: true },
    ] + match state.ask {
        Some(a) => ask_draws(row_area(area, rows[0]), a),
        None => match state.picker {
            Some(p) => picker_draws(editor_area, p),
            None => seq![],
        },
    }
}

/// What is drawn of the composer, given the rows of the composer and of its content.
pub open spec fn composer_draws(
    area: Area,
    state: ComposerState,
    rows: Seq<(u16, u16)>,
    content_rows: Seq<(u16, u16)>,
) -> Seq<DrawView> {
    let info: Seq<DrawView> = match state.app_info.text {
        Some(t) => seq![
            DrawView::Text {
                area: row_area(area, rows[0]),
                lines: seq![app_info_line(area.width, t@)],
                wrap: false,
            },
        ],
        None => seq![],
    };
    info + seq![
        DrawView::Text {
            area: row_area(area, rows[1]),
            lines: seq![top_rule_line(area.width, state.top_rule)],
            wrap: false,
        },
    ] + content_draws(row_area(area, rows[2]), state.content, content_rows) + seq![
        DrawView::Text {
            area: row_area(area, rows[3]),
            lines: seq![bottom_rule_line(area.width, state.bottom_rule)],
            wrap: false,
        },
    ]
}

/// Draws the composer in its rows.
pub fn render(
    area: Area,
    state: &ComposerState,
    rows: &Vec<(u16, u16)>,
    content_rows: &Vec<(u16, u16)>,
) -> (r: Vec<Draw>)
    requires
        rows@.len() == 4,
        content_rows@.len() == 2,
    ensures
        draws_view(r@) == composer_draws(area, *state, rows@, content_rows@),
{
    let mut out: Vec<Draw> = Vec::new();
    match &state.app_info.text {
        Some(t) => {
            let l: Line = render_app_info(area.width, t.as_str());
            push_draw(
                &mut out,
                Draw::Text { area: row_of(area, rows[0]), lines: one_line(l), wrap: false },
            );
        },
        None => {},
    }
    let top: Line = render_top_rule(area.width, &state.top_rule);
    push_draw(
        &mut out,
        Draw::Text { area: row_of(area, rows[1]), lines: one_line(top), wrap: false },
    );
    let content_area: Area = row_of(area, rows[2]);
    let editor_area: Area = row_of(content_area, content_rows[1]);
    let content: &ContentState = &state.content;
    push_draw(&mut out, render_editor(editor_area, &content.editor));
    match &content.ask {
        Some(a) => render_ask(row_of(content_area, content_rows[0]), a, &mut out),
        None => match &content.picker {
            Some(p) => render_picker(editor_area, p, &mut out),
            None => {},
        },
    }
    let bottom: Line = render_bottom_rule(area.width, &state.bottom_rule);
    push_draw(
        &mut out,
        Draw::Text { area: row_of(area, rows[3]), lines: one_line(bottom), wrap: false },
    );
    out
}

// ---- laws ----------------------------------------------------------------------------

/// However few rows there are, the options and the keys of a card stay, and they stay at
/// its end.
pub proof fn law_card_keeps_its_options(
    head: Seq<LineView>,
    body: Seq<LineView>,
    tail: Seq<LineView>,
    height: int,
)
    ensures
        fitted(head, body, tail, height).len() >= tail.len(),
        fitted(head, body, tail, height).skip(
            fitted(head, body, tail, height).len() - tail.len(),
        ) == tail,
        fitted(head, body, tail, height).take(head.len() as int) == head,
        head.len() + tail.len() <= height ==> fitted(head, body, tail, height).len() <= height,
{
}

/// A card is as high as what is in it, where the counts are not beyond sixteen bits.
pub proof fn law_card_fits_its_height(req: AskRequest, several: bool)
    requires
        lines_spec(req.message@).len() + req.options@.len() + 4 <= u16::MAX,
        lines_spec(req.message@).len() > 0,
    ensures
        card_head(req).len() + card_body(req).len() + card_tail(req, several).len()
            == card_height_spec(req),
{
}

proof fn lemma_line_offset_grows(segments: Seq<Seq<char>>, i: int, j: int)
    requires
        0 <= i < j <= segments.len(),
    ensures
        line_offset(segments, i) + byte_len(segments[i]) < line_offset(segments, j),
    decreases j,
{
    if i + 1 < j {
        lemma_line_offset_grows(segments, i, j - 1);
    }
}

/// The cursor is drawn in one line at most.
pub proof fn law_cursor_is_in_one_line(segments: Seq<Seq<char>>, i: int, j: int, cursor: nat)
    requires
        0 <= i < j < segments.len(),
    ensures
        cursor_in_line(segments, i, cursor) is None || cursor_in_line(segments, j, cursor) is None,
{
    lemma_line_offset_grows(segments, i, j);
}

/// The pieces of a line one after the other.
pub open spec fn line_text(spans: Seq<SpanView>) -> Seq<char>
    decreases spans.len(),
{
    if spans.len() == 0 {
        seq![]
    } else {
        line_text(spans.drop_last()) + spans.last().text
    }
}

/// A cursor in the middle of a line shifts nothing: the pieces make up the line.
pub proof fn law_cursor_does_not_shift_the_text(segment: Seq<char>, k: int, style: Style)
    requires
        0 <= k < segment.len(),
    ensures
        line_text(cursor_spans(segment, k, style)) == segment,
{
    let s = cursor_spans(segment, k, style);
    let a = segment.take(k);
    let b = seq![segment[k]];
    let s2 = s.drop_last();
    let s1 = s2.drop_last();
    let s0 = s1.drop_last();
    assert(line_text(s0) == Seq::<char>::empty());
    assert(line_text(s1) =~= a);
    assert(line_text(s2) =~= a + b);
}

} // verus!
