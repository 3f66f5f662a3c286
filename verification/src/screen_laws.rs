//! What is on the screen, and where.

use crate::canvas::{
    blank_spec, inside_spec, line_of, most, plus, span_of, Area, Color, DrawView, LineView, Style,
};
use crate::frame_state::{
    opt_text, AnswerWith, AskOption, AskRequest, AskState, AskViewMode, BottomRuleState, BtwState,
    ComposerState, ContentState, EditorState, FooterHintsState, FrameState, HeaderSource,
    HeaderState, InputMode, ItemStatus, LabelSource, LineKind, PickerState, SeparatorColor,
    StatusContent, StatusLineState, SubAgentBarState, SubAgentState, TaskItem, TaskListState,
    TopRuleState, TranscriptBodyState, TranscriptEntry,
};
use crate::layout::{body_height_spec, btw_heights, frame_draws, frame_heights, total, Placement};
use crate::reducer::first_line_spec;
use crate::regions::{btw, composer, footer_hints, operation_status, sub_agent_bar, transcript};
use crate::regions::style::{
    separator_spec, COLOR_ACCENT, COLOR_ERROR, COLOR_PRIMARY, COLOR_SECONDARY, COLOR_SUCCESS,
    COLOR_WARNING,
};
use crate::text::{
    byte_len, char_pos, decimal_spec, is_boundary, lemma_byte_len_add, lemma_char_pos_of_prefix,
    lemma_span_is, lines_spec, split_spec, texts,
};
use crate::text_laws::lacks;
use vstd::prelude::*;

verus! {

// ---- bytes and cells -----------------------------------------------------------------

/// How many bytes a character has, and a text all of its characters.
pub proof fn law_bytes_of_a_text(a: Seq<char>, b: Seq<char>, c: char)
    ensures
        c <= '\u{7f}' ==> byte_len(seq![c]) == 1,
        '\u{80}' <= c <= '\u{7ff}' ==> byte_len(seq![c]) == 2,
        '\u{800}' <= c <= '\u{ffff}' ==> byte_len(seq![c]) == 3,
        '\u{10000}' <= c ==> byte_len(seq![c]) == 4,
        byte_len(a + b) == byte_len(a) + byte_len(b),
        byte_len(seq![]) == 0,
{
    lemma_byte_len_add(a, b);
    assert(seq![c].drop_first() =~= seq![]);
    assert(byte_len(seq![c].drop_first()) == 0);
}

/// The place that a byte offset has among the characters is the number of characters before it.
pub proof fn law_place_of_a_byte(a: Seq<char>, b: Seq<char>)
    ensures
        char_pos(a + b, byte_len(a)) == a.len(),
        is_boundary(a + b, byte_len(a)),
{
    assert((a + b).take(a.len() as int) =~= a);
    lemma_char_pos_of_prefix(a + b, a.len() as int);
}

/// The inside of a border is one cell away from it on each side.
pub proof fn law_inside_of_a_border(a: Area)
    requires
        a.width >= 2,
        a.height >= 2,
        a.x + a.width <= 65535,
        a.y + a.height <= 65535,
    ensures
        inside_spec(a).x == a.x + 1,
        inside_spec(a).y == a.y + 1,
        inside_spec(a).x + inside_spec(a).width == a.x + a.width - 1,
        inside_spec(a).y + inside_spec(a).height == a.y + a.height - 1,
{
}

// ---- the transcript ------------------------------------------------------------------

/// The lines on the screen: the last ones where the end is followed, and those from the scroll
/// position on where it is not; as many as fit, in their order.
pub proof fn law_lines_on_the_screen(state: TranscriptBodyState, visible: int, i: int)
    requires
        visible >= 0,
    ensures
        ({
            let n = state.entries@.len() as int;
            let shown = transcript::body_lines(state, visible);
            let from = if state.auto_follow {
                if n > visible {
                    n - visible
                } else {
                    0
                }
            } else {
                state.scroll.offset as int
            };
            &&& from <= n ==> shown.len() == if n - from < visible {
                n - from
            } else {
                visible
            }
            &&& from > n ==> shown.len() == 0
            &&& 0 <= i < shown.len() ==> shown[i] == transcript::entry_line_spec(
                state.entries@[from + i],
                state.entries@[from + i].block_id is Some && opt_text(
                    state.entries@[from + i].block_id,
                ) == opt_text(state.selected_block),
            )
        }),
{
}

/// A line of the transcript is its text behind the mark of its kind, and the lines of the
/// selected block have a bar before them.
pub proof fn law_line_of_the_transcript(e: TranscriptEntry, selected: bool)
    ensures
        ({
            let spans = transcript::entry_line_spec(e, selected).spans;
            &&& spans.len() == 2
            &&& spans[0].text == if selected {
                "▌"@
            } else {
                " "@
            }
            &&& spans[1].text == transcript::prefix_spec(e.kind) + e.text@
            &&& spans[1].style == transcript::kind_style_spec(e.kind)
        }),
{
}

/// The marks of the kinds of line.
pub proof fn law_marks_of_the_kinds()
    ensures
        transcript::prefix_spec(LineKind::UserPrompt) == "> "@,
        transcript::prefix_spec(LineKind::AssistantText) == "  "@,
        transcript::prefix_spec(LineKind::ToolHeading) == "⏺ "@,
        transcript::prefix_spec(LineKind::ToolResultOk) == "  ✓ "@,
        transcript::prefix_spec(LineKind::ToolResultErr) == "  ✗ "@,
        transcript::prefix_spec(LineKind::Note) == "  · "@,
        transcript::prefix_spec(LineKind::Warning) == "  ⚠ "@,
        transcript::prefix_spec(LineKind::Error) == "  ✗ "@,
        transcript::prefix_spec(LineKind::Thinking) == "  "@,
        transcript::prefix_spec(LineKind::DiffOld) == "  - "@,
        transcript::prefix_spec(LineKind::DiffNew) == "  + "@,
        transcript::prefix_spec(LineKind::DiffContext) == "    "@,
        transcript::prefix_spec(LineKind::Banner).len() == 0,
        transcript::prefix_spec(LineKind::Spacer).len() == 0,
{
    reveal_strlit("");
}

/// Failures are red and bold, successes green, thoughts grey and slanted; only the two sides of
/// a difference have a background, red for the old one and green for the new one.
pub proof fn law_styles_of_the_kinds(kind: LineKind)
    ensures
        ({
            let s = transcript::kind_style_spec(kind);
            &&& s.fg == Some(COLOR_ERROR) <==> kind == LineKind::ToolResultErr || kind
                == LineKind::Error || kind == LineKind::DiffOld
            &&& s.fg == Some(COLOR_SUCCESS) <==> kind == LineKind::ToolHeading || kind
                == LineKind::ToolResultOk || kind == LineKind::DiffNew
            &&& s.fg == Some(COLOR_WARNING) <==> kind == LineKind::Warning
            &&& s.fg == Some(COLOR_SECONDARY) <==> kind == LineKind::Note || kind
                == LineKind::Thinking
            &&& s.fg == Some(Color::White) <==> kind == LineKind::UserPrompt || kind
                == LineKind::AssistantText || kind == LineKind::Banner || kind == LineKind::Spacer
            &&& s.bg is Some <==> kind == LineKind::DiffOld || kind == LineKind::DiffNew
            &&& kind == LineKind::DiffOld ==> s.bg == Some(Color::Rgb(60, 20, 20))
            &&& kind == LineKind::DiffNew ==> s.bg == Some(Color::Rgb(20, 60, 20))
            &&& s.bold <==> kind == LineKind::ToolHeading || kind == LineKind::ToolResultErr || kind
                == LineKind::Warning || kind == LineKind::Error
            &&& s.italic <==> kind == LineKind::Thinking
            &&& !s.reversed
        }),
{
}

/// A transcript that is scrolled says on its last row how many lines are above; one that
/// follows its end does not.
pub proof fn law_scrolled_transcript_says_so(area: Area, state: TranscriptBodyState)
    requires
        area.height > 0,
    ensures
        ({
            let d = transcript::body_draws(area, state);
            let n = state.entries@.len();
            &&& d.len() == if state.auto_follow {
                1int
            } else {
                2
            }
            &&& d[0] == (DrawView::Text {
                area,
                lines: transcript::body_lines(state, area.height as int),
                wrap: true,
            })
            &&& !state.auto_follow ==> {
                let above = if state.scroll.offset < n {
                    state.scroll.offset as nat
                } else {
                    n
                };
                &&& d[1] is Text
                &&& d[1]->lines.len() == 1
                &&& d[1]->lines[0] == line_of(
                    "── "@ + decimal_spec(above) + " lines above ──"@,
                    Style::colored_spec(COLOR_ACCENT),
                )
                &&& d[1]->Text_area.height == 1
                &&& area.y + area.height <= 65535 ==> d[1]->Text_area.y == area.y + area.height - 1
                &&& area.x + area.width <= 65535 && byte_len(
                    "── "@ + decimal_spec(above) + " lines above ──"@,
                ) <= area.width ==> d[1]->Text_area.x == area.x + (area.width - byte_len(
                    "── "@ + decimal_spec(above) + " lines above ──"@,
                )) / 2
            }
        }),
{
    let n = state.entries@.len();
    let above = if state.scroll.offset < n {
        state.scroll.offset as nat
    } else {
        n
    };
    let b = byte_len("── "@ + decimal_spec(above) + " lines above ──"@);
    if b <= area.width {
        vstd::arithmetic::div_mod::lemma_small_mod(b, 65536);
    }
}

/// The pinned prompt takes a row where there is one, and stands there behind its mark.
pub proof fn law_pinned_prompt(area: Area, state: HeaderState)
    ensures
        transcript::header_height_spec(state) == if state.text is Some && state.source
            != HeaderSource::Nothing {
            1int
        } else {
            0
        },
        state.text is None ==> transcript::header_draws(area, state).len() == 0,
        state.text matches Some(t) ==> {
            let d = transcript::header_draws(area, state);
            &&& d.len() == 1
            &&& d[0] is Text
            &&& d[0]->Text_area == area
            &&& d[0]->lines.len() == 1
            &&& d[0]->lines[0].spans.len() == 1
            &&& d[0]->lines[0].spans[0].text == "> "@ + t@
            &&& d[0]->lines[0].spans[0].style.fg == Some(
                if state.source == HeaderSource::SubAgent {
                    Color::Magenta
                } else {
                    Color::DarkGray
                },
            )
        },
{
}

// ---- sub-agents, tasks, status, footer -----------------------------------------------

/// Each sub-agent has a row with how it goes, its name, its tokens and its time, in their order.
pub proof fn law_row_of_a_sub_agent(area: Area, state: SubAgentBarState, spinner: char, i: int)
    requires
        0 <= i < state.agents@.len(),
    ensures
        ({
            let d = sub_agent_bar::agents_draws(area, state, spinner);
            let a = state.agents@[i];
            let spans = d[0]->lines[i].spans;
            &&& d.len() == 1
            &&& d[0]->Text_area == area
            &&& d[0]->lines.len() == state.agents@.len()
            &&& spans.len() == 4
            &&& spans[0].text == match a.state {
                SubAgentState::Running => seq![spinner],
                SubAgentState::Done => "✓"@,
                SubAgentState::Failed => "✗"@,
            }
            &&& spans[0].style.fg == Some(
                match a.state {
                    SubAgentState::Running => COLOR_ACCENT,
                    SubAgentState::Done => COLOR_SUCCESS,
                    SubAgentState::Failed => COLOR_ERROR,
                },
            )
            &&& spans[2].text == a.name@
            &&& spans[3].text == "  "@ + decimal_spec(a.token_usage as nat) + " tok  "@
                + a.elapsed_or_status@
            &&& state.agents@.len() < 65536 ==> sub_agent_bar::height_spec(state)
                == state.agents@.len()
        }),
{
}

/// The task list shows up to five tasks; of more it shows the first four and says how many
/// there are besides.
pub proof fn law_task_list(items: Seq<TaskItem>, i: int)
    ensures
        ({
            let lines = operation_status::task_lines(items);
            let n = items.len();
            &&& n <= 5 ==> lines.len() == n
            &&& n > 5 ==> lines.len() == 5
            &&& n > 5 ==> lines[4].spans.len() == 1 && lines[4].spans[0].text == "  (+"@
                + decimal_spec((n - 4) as nat) + " more hidden)"@
            &&& 0 <= i < n && (n <= 5 || i < 4) ==> {
                &&& lines[i].spans.len() == 4
                &&& lines[i].spans[3].text == items[i].label@
                &&& lines[i].spans[1].text == match items[i].status {
                    ItemStatus::Running => "●"@,
                    ItemStatus::Pending => "○"@,
                    ItemStatus::Done => "✓"@,
                    ItemStatus::Failed => "✗"@,
                }
                &&& lines[i].spans[3].style.fg == Some(
                    match items[i].status {
                        ItemStatus::Running => COLOR_ACCENT,
                        ItemStatus::Pending => COLOR_SECONDARY,
                        ItemStatus::Done => COLOR_SUCCESS,
                        ItemStatus::Failed => COLOR_ERROR,
                    },
                )
            }
        }),
{
}

/// The status line of a turn: the spinner, what is being done, the seconds, and the tokens both
/// ways. That of a compaction counts its stages from one.
pub proof fn law_status_line(content: StatusContent)
    ensures
        ({
            let spans = operation_status::status_line_spec(content).spans;
            match content {
                StatusContent::TurnRunning {
                    spinner,
                    activity,
                    elapsed_secs,
                    token_in,
                    token_out,
                } => {
                    &&& spans.len() == 4
                    &&& spans[0].text == seq![spinner]
                    &&& spans[2].text == activity@
                    &&& spans[3].text == "  "@ + decimal_spec(elapsed_secs as nat) + "s   in:"@
                        + decimal_spec(token_in as nat) + "  out:"@ + decimal_spec(token_out as nat)
                },
                StatusContent::Compacting {
                    stage,
                    stage_index,
                    stage_total,
                    tokens_before,
                    tokens_after,
                    ..
                } => {
                    &&& spans.len() == 2
                    &&& spans[1].text == " Compacting ("@ + decimal_spec((stage_index + 1) as nat)
                        + "/"@ + decimal_spec(stage_total as nat) + ": "@ + stage.label_spec()
                        + ")…  "@ + decimal_spec(tokens_before as nat) + " → "@ + (
                    match tokens_after {
                        Some(t) => decimal_spec(t as nat),
                        None => "…"@,
                    }) + " tok"@
                },
            }
        }),
{
}

/// The status line and the task list are drawn in their rows, where there is anything to show.
pub proof fn law_status_and_tasks_are_drawn(
    area: Area,
    status: StatusLineState,
    tasks: TaskListState,
)
    ensures
        status.content is None ==> operation_status::status_draws(area, status).len() == 0,
        status.content matches Some(c) ==> operation_status::status_draws(area, status) == seq![
            DrawView::Text {
                area,
                lines: seq![operation_status::status_line_spec(c)],
                wrap: false,
            },
        ],
        tasks.items@.len() == 0 ==> operation_status::task_draws(area, tasks).len() == 0,
        tasks.items@.len() > 0 ==> operation_status::task_draws(area, tasks) == seq![
            DrawView::Text { area, lines: operation_status::task_lines(tasks.items@), wrap: false },
        ],
{
}

/// The footer: the model, the directory, the three modes with the current one brought out, the
/// tokens, and the hint, which ends at the right edge where all of it fits.
pub proof fn law_footer(width: u16, state: FooterHintsState, usage: footer_hints::UsageText)
    ensures
        ({
            let line = footer_hints::footer_line(width, state, usage);
            let left = line.spans.take(6);
            let used = byte_len(footer_hints::spans_text(left)) + byte_len(state.right_hint@);
            &&& line.spans.len() == 8
            &&& line.spans[0].text == state.model@
            &&& line.spans[1].text == " · "@ + state.cwd@ + "  "@
            &&& line.spans[2].text == "["@ + "Normal"@ + "] "@
            &&& line.spans[3].text == "["@ + "Plan"@ + "] "@
            &&& line.spans[4].text == "["@ + "Auto"@ + "] "@
            &&& line.spans[2].style.bold <==> state.mode is Normal
            &&& line.spans[3].style.bold <==> state.mode is Plan
            &&& line.spans[4].style.bold <==> state.mode is Auto
            &&& line.spans[5].text == usage.token_in@ + "↑ "@ + usage.token_out@ + "↓  "@
            &&& line.spans[7].text == state.right_hint@
            &&& used <= width ==> used + line.spans[6].text.len() == width
            &&& used > width ==> line.spans[6].text.len() == 0
        }),
{
    let line = footer_hints::footer_line(width, state, usage);
    assert(line.spans.take(6) =~= footer_hints::left_spans(state, usage));
}

// ---- the editor ----------------------------------------------------------------------

/// A line takes as many rows as its columns fill, and an empty one takes one.
pub proof fn law_rows_of_a_line(columns: int, avail: int)
    requires
        1 <= avail <= 65535,
        0 <= columns <= 65535 * avail,
        columns + avail <= usize::MAX,
    ensures
        ({
            let r = composer::rows_of_spec(columns, avail);
            &&& columns == 0 ==> r == 1
            &&& columns > 0 ==> (r - 1) * avail < columns <= r * avail
        }),
{
    let q = (columns + avail - 1) / avail;
    vstd::arithmetic::div_mod::lemma_fundamental_div_mod(columns + avail - 1, avail);
    let m = (columns + avail - 1) % avail;
    assert(0 <= m < avail);
    assert(avail * q == q * avail) by (nonlinear_arith);
    assert(q * avail == columns + avail - 1 - m);
    assert((q - 1) * avail == q * avail - avail) by (nonlinear_arith);
    assert(q <= 65535) by {
        if q >= 65536 {
            assert(q * avail >= 65536 * avail) by (nonlinear_arith)
                requires
                    q >= 65536,
                    avail >= 1,
            ;
        }
    }
    if columns > 0 {
        assert(q >= 1) by {
            if q <= 0 {
                assert(q * avail <= 0) by (nonlinear_arith)
                    requires
                        q <= 0,
                        avail >= 1,
                ;
            }
        }
        vstd::arithmetic::div_mod::lemma_small_mod(q as nat, 65536);
    } else {
        assert(q == 0) by {
            vstd::arithmetic::div_mod::lemma_basic_div(avail - 1, avail);
        }
        vstd::arithmetic::div_mod::lemma_small_mod(1, 65536);
    }
}

proof fn lemma_rows_in_front(l: Seq<char>, ls: Seq<Seq<char>>, avail: int)
    ensures
        composer::wrapped_total(ls, avail) >= 0,
        composer::wrapped_total(seq![l] + ls, avail) == plus(
            composer::wrapped_rows(l, avail),
            composer::wrapped_total(ls, avail),
        ),
    decreases ls.len(),
{
    let r = composer::wrapped_rows(l, avail);
    assert(0 <= r < 65536);
    if ls.len() == 0 {
        assert((seq![l] + ls).drop_last() =~= seq![]);
        assert(composer::wrapped_total((seq![l] + ls).drop_last(), avail) == 0);
        assert((seq![l] + ls).last() == l);
    } else {
        lemma_rows_in_front(l, ls.drop_last(), avail);
        assert((seq![l] + ls).drop_last() =~= seq![l] + ls.drop_last());
        assert((seq![l] + ls).last() == ls.last());
        assert(0 <= composer::wrapped_rows(ls.last(), avail) < 65536);
    }
}

/// A draft takes the rows of its lines together, and one row at least. Its lines end at line
/// feeds.
pub proof fn law_rows_of_a_draft(line: Seq<char>, rest: Seq<char>, width: u16)
    requires
        lacks(line, '\n'),
        width >= 1,
    ensures
        ({
            let w = width as int;
            let both = composer::wrapped_total(
                split_spec(line + seq!['\n'] + rest, '\n'),
                w,
            );
            &&& both == plus(
                composer::wrapped_rows(line, w),
                composer::wrapped_total(split_spec(rest, '\n'), w),
            )
            &&& composer::wrapped_total(split_spec(line, '\n'), w) == composer::wrapped_rows(
                line,
                w,
            )
            &&& composer::wrapped_spec(rest, width) == most(
                composer::wrapped_total(split_spec(rest, '\n'), w),
                1,
            )
        }),
{
    let s = line + seq!['\n'] + rest;
    let k = line.len() as int;
    lemma_span_is(s, '\n', k);
    assert(s.take(k) =~= line);
    assert(s.skip(k + 1) =~= rest);
    lemma_span_is(line, '\n', k);
    assert(line.take(k) =~= line);
    lemma_rows_in_front(line, split_spec(rest, '\n'), width as int);
    lemma_rows_in_front(line, seq![], width as int);
    assert(seq![line] + Seq::<Seq<char>>::empty() =~= seq![line]);
    assert(composer::wrapped_total(Seq::<Seq<char>>::empty(), width as int) == 0);
    assert(split_spec(s, '\n') =~= seq![line] + split_spec(rest, '\n'));
    assert(split_spec(line, '\n') =~= seq![line]);
}

/// A line of characters that take a column each has as many columns as characters.
pub proof fn law_columns_of_plain_text(s: Seq<char>)
    requires
        forall|i: int| 0 <= i < s.len() ==> ' ' <= #[trigger] s[i] <= '~',
    ensures
        composer::columns_spec(s) == s.len(),
{
}

/// The editor is as high as its draft beside the mark, with a row more for what was pasted,
/// but never higher than twelve rows.
pub proof fn law_height_of_the_editor(state: EditorState, width: u16)
    requires
        width > 2,
    ensures
        ({
            let rows = composer::wrapped_spec(state.draft@, (width - 2) as u16) + if
            state.paste_placeholder is Some {
                1int
            } else {
                0
            };
            let h = composer::editor_height_spec(state, width);
            &&& h == if rows <= 12 {
                rows
            } else {
                12
            }
            &&& h >= 1
        }),
{
}

/// The cursor is drawn where it is: the character under it is reversed, and behind the last
/// one there is a block. The text stays what it is.
pub proof fn law_cursor_is_drawn_where_it_is(
    segments: Seq<Seq<char>>,
    i: int,
    k: int,
    state: EditorState,
    prefix: Seq<char>,
    style: Style,
)
    requires
        0 <= i < segments.len(),
        0 <= k <= segments[i].len(),
        !state.locked,
        state.cursor == composer::line_offset(segments, i) + byte_len(segments[i].take(k)),
    ensures
        ({
            let spans = composer::editor_line(segments, i, state, prefix, style).spans;
            let at: int = if i == 0 {
                1
            } else {
                0
            };
            let s = segments[i];
            &&& i == 0 ==> spans[0] == span_of(prefix, style)
            &&& k < s.len() ==> {
                &&& spans.len() == at + 3
                &&& spans[at].text == s.take(k)
                &&& spans[at + 1].text == seq![s[k]]
                &&& spans[at + 1].style.reversed
                &&& spans[at + 2].text == s.skip(k + 1)
                &&& spans[at].style == style && spans[at + 2].style == style
            }
            &&& k == s.len() ==> {
                &&& spans.len() == at + 2
                &&& spans[at].text == s
                &&& spans[at + 1].text == "█"@
            }
        }),
{
    let s = segments[i];
    lemma_char_pos_of_prefix(s, k);
    lemma_byte_len_add(s.take(k), s.skip(k));
    assert(s.take(k) + s.skip(k) =~= s);
    assert(k == s.len() ==> s.take(k) =~= s);
}

/// Each line of a draft begins behind the line feed of the one before.
pub proof fn law_where_lines_begin(segments: Seq<Seq<char>>, i: int)
    requires
        0 <= i < segments.len(),
    ensures
        composer::line_offset(segments, 0) == 0,
        composer::line_offset(segments, i + 1) == composer::line_offset(segments, i) + byte_len(
            segments[i],
        ) + 1,
{
}

/// A locked editor shows its draft without a cursor. Only the first line has the mark, which
/// tells a line for the shell from one for the model.
pub proof fn law_locked_editor_has_no_cursor(state: EditorState, i: int)
    ensures
        ({
            let segments = split_spec(state.draft@, '\n');
            let lines = composer::editor_content(state);
            let mark = if state.mode == InputMode::BashEscape {
                "! "@
            } else {
                "> "@
            };
            &&& lines.len() >= segments.len()
            &&& state.locked && 0 < i < segments.len() ==> lines[i].spans == seq![
                span_of(segments[i], Style::colored_spec(COLOR_SECONDARY)),
            ]
            &&& state.locked && i == 0 && segments.len() > 0 ==> lines[0].spans == seq![
                span_of(mark, Style::colored_spec(COLOR_SECONDARY)),
                span_of(segments[0], Style::colored_spec(COLOR_SECONDARY)),
            ]
            &&& 0 <= i < segments.len() ==> lines[i] == composer::editor_line(
                segments,
                i,
                state,
                mark,
                Style::colored_spec(
                    if state.locked {
                        COLOR_SECONDARY
                    } else {
                        COLOR_PRIMARY
                    },
                ),
            )
            &&& state.paste_placeholder matches Some(p) ==> lines[segments.len() as int].spans
                == seq![
                span_of(
                    "  [Pasted text +"@ + decimal_spec(p.lines as nat) + " lines, "@ + decimal_spec(
                        p.bytes as nat,
                    ) + " bytes]"@,
                    Style::colored_spec(COLOR_SECONDARY),
                ),
            ]
        }),
{
    let segments = split_spec(state.draft@, '\n');
    let lines = composer::editor_content(state);
    if state.locked && 0 < i < segments.len() {
        assert(lines[i].spans =~= seq![
            span_of(segments[i], Style::colored_spec(COLOR_SECONDARY)),
        ]);
    }
    if state.locked && i == 0 && segments.len() > 0 {
        assert(lines[0].spans =~= seq![
            span_of(
                composer::editor_prefix_spec(state.mode),
                Style::colored_spec(COLOR_SECONDARY),
            ),
            span_of(segments[0], Style::colored_spec(COLOR_SECONDARY)),
        ]);
    }
}

// ---- the dialog ----------------------------------------------------------------------

/// A request is as high as its parts: its title, the lines of its message, its options, a
/// blank line behind each of the two, and the keys; with a border around it, and a row of tabs
/// where others wait.
pub proof fn law_height_of_a_request(state: AskState)
    requires
        state.active_idx < state.pending@.len(),
        lines_spec(state.pending@[state.active_idx as int].message@).len()
            + state.pending@[state.active_idx as int].options@.len() + 10 <= 65535,
        state.view_mode == AskViewMode::TabView,
    ensures
        ({
            let req = state.pending@[state.active_idx as int];
            let lines = lines_spec(req.message@).len();
            composer::ask_height_spec(state) == 2 + (if state.pending@.len() > 1 {
                1int
            } else {
                0
            }) + 4 + (if lines > 0 {
                lines as int
            } else {
                1
            }) + req.options@.len()
        }),
{
}

/// A list of requests has a row for each of them, its title, its keys, a blank line, and a
/// border.
pub proof fn law_height_of_a_list_of_requests(state: AskState)
    requires
        state.view_mode == AskViewMode::ListView,
        state.pending@.len() + 5 <= 65535,
    ensures
        composer::ask_height_spec(state) == composer::list_lines(state).len() + 2,
{
}

/// What a request shows: its title, its message line by line, its options by their labels, of
/// which the chosen one is marked, and the keys.
pub proof fn law_request_shows_its_parts(req: AskRequest, several: bool, i: int)
    ensures
        ({
            let head = composer::card_head(req);
            let body = composer::card_body(req);
            let tail = composer::card_tail(req, several);
            let lines = lines_spec(req.message@);
            let n = req.options@.len();
            &&& head.len() == 1 && head[0].spans[0].text == req.tool_name@ + ":"@
            &&& body.len() == lines.len() + 1
            &&& 0 <= i < lines.len() ==> body[i].spans.len() == 1 && body[i].spans[0].text == "  "@
                + lines[i]
            &&& body.last() == blank_spec()
            &&& tail.len() == n + 2
            &&& 0 <= i < n ==> tail[i].spans.len() == 1 && tail[i].spans[0].text == "  "@ + (if i
                == req.selected_option {
                "❯ "@
            } else {
                "  "@
            }) + req.options@[i].label_spec()
            &&& 0 <= i < n ==> (tail[i].spans[0].style.bold <==> i == req.selected_option)
            &&& req.answer_with == AnswerWith::Type ==> tail.last().spans[0].text == "  "@
                + "Type your answer below, then Enter"@
            &&& req.answer_with == AnswerWith::Choose && several ==> tail.last().spans[0].text
                == "  "@ + "Enter=confirm  Esc=deny  Tab=next"@
            &&& req.answer_with == AnswerWith::Choose && !several ==> tail.last().spans[0].text
                == "  "@ + "Enter=confirm  Esc=deny"@
        }),
{
}

/// The labels of the options.
pub proof fn law_labels_of_the_options(key: String, label: String)
    ensures
        (AskOption::PermitOnce).label_spec() == "Yes"@,
        (AskOption::PermitSession).label_spec() == "Yes, allow for this session"@,
        (AskOption::PermitProject).label_spec() == "Yes, allow for this project"@,
        (AskOption::Deny).label_spec() == "No"@,
        (AskOption::Answer { key, label }).label_spec() == label@,
{
}

/// Where a request fits, all of it is shown; where it does not, its message is cut and an
/// ellipsis says so.
pub proof fn law_long_message_is_cut(
    head: Seq<LineView>,
    body: Seq<LineView>,
    tail: Seq<LineView>,
    height: int,
    i: int,
)
    ensures
        ({
            let r = composer::fitted(head, body, tail, height);
            let must = head.len() + tail.len();
            &&& must + body.len() <= height ==> r == head + body + tail
            &&& must < height < must + body.len() ==> {
                &&& r.len() == height
                &&& 0 <= i < height - must - 1 ==> r[head.len() + i] == body[i]
                &&& r[height - tail.len() - 1].spans.len() == 1
                &&& r[height - tail.len() - 1].spans[0].text == "  …"@
            }
            &&& height <= must && must + body.len() > height ==> r == head + tail
        }),
{
}

/// Each waiting request has a tab with its tool and its number, counted from one; the one that
/// is looked at is brought out.
pub proof fn law_tabs_of_the_requests(state: AskState, i: int)
    ensures
        composer::tabs_line(state).spans.len() == state.pending@.len(),
        0 <= i < state.pending@.len() ==> {
            let s = composer::tabs_line(state).spans[i];
            &&& s.text == " ["@ + state.pending@[i].tool_name@ + "#"@ + decimal_spec((i + 1) as nat)
                + "]"@
            &&& s.style.bold <==> i == state.active_idx
        },
{
}

/// A list of requests shows each by its tool and the beginning of its message.
pub proof fn law_list_of_the_requests(state: AskState, i: int)
    ensures
        ({
            let lines = composer::list_lines(state);
            let n = state.pending@.len();
            &&& lines.len() == n + 3
            &&& lines[0].spans[0].text == decimal_spec(n) + " pending approvals"@
            &&& 0 <= i < n ==> lines[i + 1].spans.len() == 1 && lines[i + 1].spans[0].text == (if i
                == state.active_idx {
                "❯ "@
            } else {
                "  "@
            }) + state.pending@[i].tool_name@ + ": "@ + first_line_spec(
                state.pending@[i].message@,
            )
            &&& 0 <= i < n ==> (lines[i + 1].spans[0].style.bold <==> i == state.active_idx)
        }),
{
}

/// A request is drawn inside its border, and below the tabs where there are any.
pub proof fn law_request_is_drawn_in_its_border(area: Area, state: AskState)
    requires
        state.view_mode == AskViewMode::TabView,
        state.active_idx < state.pending@.len(),
    ensures
        ({
            let d = composer::ask_draws(area, state);
            let several = state.pending@.len() > 1;
            let req = state.pending@[state.active_idx as int];
            let at: int = if several {
                1
            } else {
                0
            };
            let card = d[at]->Border_area;
            &&& d.len() == at + 2
            &&& d[at] is Border
            &&& several ==> d[0] is Text && d[0]->lines == seq![composer::tabs_line(state)]
                && d[0]->Text_area == (Area { height: 1, ..area })
            &&& several && area.height > 0 && area.y < 65535 ==> card == (Area {
                y: (area.y + 1) as u16,
                height: (area.height - 1) as u16,
                ..area
            })
            &&& !several ==> card == area
            &&& d[at + 1] is Text
            &&& d[at + 1]->Text_area == inside_spec(card)
            &&& d[at + 1]->lines == composer::fitted(
                composer::card_head(req),
                composer::card_body(req),
                composer::card_tail(req, several),
                inside_spec(card).height as int,
            )
        }),
{
}

// ---- lists and rules -----------------------------------------------------------------

/// The list of candidates stands right above the editor, with a row for each of up to three of
/// them, and shows them in their order with the selected one marked.
pub proof fn law_list_of_candidates(editor: Area, state: PickerState, i: int)
    ensures
        ({
            let d = composer::picker_draws(editor, state);
            let n = state.candidates@.len();
            let area = d[1]->Border_area;
            &&& d.len() == 3
            &&& d[0] == (DrawView::Clear { area })
            &&& d[1] is Border
            &&& d[2] is Text
            &&& d[2]->Text_area == inside_spec(area)
            &&& n <= 3 ==> area.height == n + 2
            &&& 3 < n < 65536 ==> area.height == 5
            &&& area.height <= editor.y ==> area.y + area.height == editor.y
            &&& area.x == editor.x
            &&& area.width == if editor.width <= 60 {
                editor.width
            } else {
                60
            }
            &&& d[2]->lines.len() == n
            &&& 0 <= i < n ==> {
                let spans = d[2]->lines[i].spans;
                &&& spans.len() == 3
                &&& spans[0].text == (if i == state.selected {
                    "❯ "@
                } else {
                    "  "@
                }) + state.candidates@[i].name@
                &&& spans[0].style.bold <==> i == state.selected
                &&& spans[2].text == state.candidates@[i].description@
            }
        }),
{
}

/// The rules are as wide as the screen; a label stands at the right end of the upper one, and
/// a message at the right end of its row.
pub proof fn law_rules_and_messages(
    width: u16,
    top: TopRuleState,
    bottom: BottomRuleState,
    text: Seq<char>,
    i: int,
)
    ensures
        ({
            let t = composer::top_rule_line(width, top).spans;
            let b = composer::bottom_rule_line(width, bottom).spans;
            let label = composer::label_text(top.right_label);
            let a = composer::app_info_line(width, text).spans;
            &&& t.len() == 2
            &&& t[1].text == label
            &&& byte_len(label) <= width ==> t[0].text.len() + byte_len(label) == width
            &&& 0 <= i < t[0].text.len() ==> t[0].text[i] == '─'
            &&& b.len() == 1
            &&& b[0].text.len() == width
            &&& 0 <= i < width ==> b[0].text[i] == '─'
            &&& a.len() == 1
            &&& a[0].text.len() >= text.len()
            &&& a[0].text.skip(a[0].text.len() - text.len()) == text
            &&& byte_len(text) <= width ==> a[0].text.len() - text.len() + byte_len(text) == width
            &&& 0 <= i < a[0].text.len() - text.len() ==> a[0].text[i] == ' '
        }),
{
    let a = composer::app_info_line(width, text).spans;
    assert(a[0].text.skip(a[0].text.len() - text.len()) =~= text);
    let label = composer::label_text(top.right_label);
    if byte_len(label) <= width {
        vstd::arithmetic::div_mod::lemma_small_mod(byte_len(label), 65536);
    }
}

/// The labels of the upper rule, and the colours of the rules.
pub proof fn law_labels_and_colours_of_the_rules(name: String)
    ensures
        (LabelSource::SubAgent { name }).text_spec() == "[agent: "@ + name@ + "]"@,
        (LabelSource::Skill { name }).text_spec() == "[skill: "@ + name@ + "]"@,
        (LabelSource::Task { name }).text_spec() == "[task: "@ + name@ + "]"@,
        (LabelSource::Tool { name }).text_spec() == "["@ + name@ + "]"@,
        composer::label_text(None).len() == 0,
        separator_spec(SeparatorColor::DarkGray) == Color::DarkGray,
        separator_spec(SeparatorColor::Cyan) == Color::Cyan,
        separator_spec(SeparatorColor::Yellow) == Color::Yellow,
        separator_spec(SeparatorColor::Red) == Color::Red,
{
}

/// The composer is as high as its parts: the message where there is one, the two rules, the
/// editor, and the request where there is one.
pub proof fn law_height_of_the_composer(state: ComposerState, width: u16)
    ensures
        ({
            let editor = composer::editor_height_spec(state.content.editor, width);
            let ask = match state.content.ask {
                Some(a) => composer::ask_height_spec(a),
                None => 0,
            };
            let info: int = if state.app_info.text is Some {
                1
            } else {
                0
            };
            let heights = composer::composer_heights(state, width);
            let inner = composer::content_heights(state.content, width);
            &&& editor + ask + info + 2 <= 65535 ==> {
                &&& composer::height_spec(state, width) == editor + ask + info + 2
                &&& heights.len() == 4
                &&& heights[0] == info && heights[1] == 1 && heights[2] == editor + ask
                    && heights[3] == 1
                &&& ask >= 0 ==> inner.len() == 2 && inner[0] == ask && inner[1] == editor
            }
        }),
{
}

/// The editor is always drawn; a request is drawn above it, and a list only where there is no
/// request.
pub proof fn law_one_dialog_is_drawn(area: Area, state: ContentState, rows: Seq<(u16, u16)>)
    requires
        rows.len() == 2,
    ensures
        ({
            let d = composer::content_draws(area, state, rows);
            let editor = Area { x: area.x, y: rows[1].0, width: area.width, height: rows[1].1 };
            let above = Area { x: area.x, y: rows[0].0, width: area.width, height: rows[0].1 };
            &&& d.len() > 0
            &&& d[0] == (DrawView::Text {
                area: editor,
                lines: composer::editor_content(state.editor),
                wrap: true,
            })
            &&& state.ask matches Some(a) ==> d.skip(1) == composer::ask_draws(above, a)
            &&& state.ask is None && state.picker is Some ==> d.skip(1) == composer::picker_draws(
                editor,
                state.picker->0,
            )
            &&& state.ask is None && state.picker is None ==> d.len() == 1
        }),
{
    let d = composer::content_draws(area, state, rows);
    let editor = composer::row_area(area, rows[1]);
    match state.ask {
        Some(a) => {
            assert(d.skip(1) =~= composer::ask_draws(composer::row_area(area, rows[0]), a));
        },
        None => match state.picker {
            Some(p) => {
                assert(d.skip(1) =~= composer::picker_draws(editor, p));
            },
            None => {},
        },
    }
}

/// The composer is drawn from above: the message where there is one, the upper rule, the
/// editor with what belongs to it, and the lower rule, each in its row.
pub proof fn law_composer_is_drawn_in_its_rows(
    area: Area,
    state: ComposerState,
    rows: Seq<(u16, u16)>,
    content_rows: Seq<(u16, u16)>,
)
    requires
        rows.len() == 4,
        content_rows.len() == 2,
    ensures
        ({
            let d = composer::composer_draws(area, state, rows, content_rows);
            let row = |i: int|
                Area { x: area.x, y: rows[i].0, width: area.width, height: rows[i].1 };
            let at: int = if state.app_info.text is Some {
                1
            } else {
                0
            };
            let inner = composer::content_draws(row(2), state.content, content_rows);
            &&& d.len() == at + 1 + inner.len() + 1
            &&& state.app_info.text matches Some(t) ==> d[0] == (DrawView::Text {
                area: row(0),
                lines: seq![composer::app_info_line(area.width, t@)],
                wrap: false,
            })
            &&& d[at] == (DrawView::Text {
                area: row(1),
                lines: seq![composer::top_rule_line(area.width, state.top_rule)],
                wrap: false,
            })
            &&& d.subrange(at + 1, at + 1 + inner.len()) == inner
            &&& d.last() == (DrawView::Text {
                area: row(3),
                lines: seq![composer::bottom_rule_line(area.width, state.bottom_rule)],
                wrap: false,
            })
        }),
{
    let d = composer::composer_draws(area, state, rows, content_rows);
    let at: int = if state.app_info.text is Some {
        1
    } else {
        0
    };
    let inner = composer::content_draws(
        composer::row_area(area, rows[2]),
        state.content,
        content_rows,
    );
    assert(d.subrange(at + 1, at + 1 + inner.len()) =~= inner);
}

/// In the mode for commands the editor says so on a line of its own, the last one.
pub proof fn law_command_mode_is_shown(state: EditorState)
    ensures
        ({
            let lines = composer::editor_content(state);
            let n = split_spec(state.draft@, '\n').len() + if state.paste_placeholder is Some {
                1int
            } else {
                0
            };
            &&& state.mode == InputMode::VimNormal ==> lines.len() == n + 1
                && lines.last().spans.len() == 1 && lines.last().spans[0].text == "[NORMAL]"@
            &&& state.mode != InputMode::VimNormal ==> lines.len() == n
        }),
{
}

// ---- the side question ---------------------------------------------------------------

/// The side question takes half of the screen, six rows at least, and never more than there
/// are.
pub proof fn law_height_of_the_side_question(area: Area)
    ensures
        ({
            let h = btw::height_spec(area);
            &&& h <= area.height
            &&& area.height <= 6 ==> h == area.height
            &&& 6 < area.height < 12 ==> h == 6
            &&& area.height >= 12 ==> 2 * h <= area.height < 2 * h + 2
        }),
{
}

/// What the side question shows, from above: the earlier questions and how many more there are,
/// the question, and the answer line by line, or that it is being thought about.
pub proof fn law_side_question_shows(state: BtwState, i: int)
    ensures
        ({
            let lines = btw::content_lines(state);
            let e = state.earlier@.len() as int;
            let more: int = if state.older > 0 {
                1
            } else {
                0
            };
            let gap: int = if e + more > 0 {
                1
            } else {
                0
            };
            let q = e + more + gap;
            let waits = state.answer@.len() == 0 && state.streaming;
            let a: int = q + 2 + if waits {
                1int
            } else {
                0
            };
            let answer = lines_spec(state.answer@);
            &&& 0 <= i < e ==> lines[i].spans[0].text == "  · "@ + state.earlier@[i]@
            &&& state.older > 0 ==> lines[e].spans[0].text == "  · 还有 "@ + decimal_spec(
                state.older as nat,
            ) + " 条更早的"@
            &&& lines[q].spans[0].text == "> "@ + state.question@
            &&& lines[q + 1] == blank_spec()
            &&& waits ==> lines[q + 2].spans[0].text == "  想一下……"@
            &&& lines.len() == a + answer.len()
            &&& 0 <= i < answer.len() ==> lines[a + i].spans[0].text == "  "@ + answer[i]
        }),
{
    assert(texts(state.earlier@).len() == state.earlier@.len());
    if 0 <= i < state.earlier@.len() {
        assert(texts(state.earlier@)[i] == state.earlier@[i]@);
    }
}

/// The answer is scrolled by lines, as far as its last page; the keys stand on the last row
/// inside the border, and the title says how far back the exchange is.
pub proof fn law_side_question_is_drawn(area: Area, state: BtwState, i: int)
    requires
        area.height >= 4,
        area.y + area.height <= 65535,
    ensures
        ({
            let d = btw::btw_draws(area, state);
            let all = btw::content_lines(state);
            let rows = area.height - 3;
            let end = if all.len() > rows {
                all.len() - rows
            } else {
                0
            };
            let top = if state.scroll <= end {
                state.scroll as int
            } else {
                end
            };
            &&& d.len() == 4
            &&& d[0] == (DrawView::Clear { area })
            &&& d[1] is Border && d[1]->Border_area == area
            &&& state.viewing == 0 ==> d[1]->title == Some(" btw "@)
            &&& state.viewing > 0 ==> d[1]->title == Some(
                " btw · 第 "@ + decimal_spec(state.viewing as nat) + " 条（往回）"@,
            )
            &&& d[2] is Text && d[2]->Text_area.height == rows
            &&& d[2]->lines.len() == all.len() - top
            &&& 0 <= i < all.len() - top ==> d[2]->lines[i] == all[top + i]
            &&& d[3] is Text && d[3]->Text_area.height == 1
            &&& d[3]->Text_area.y == area.y + area.height - 2
            &&& d[3]->lines.len() == 1
            &&& d[3]->lines[0].spans[0].text == " "@ + (if state.streaming {
                "Esc 退出 · 正在回答…"@
            } else if state.earlier@.len() > 0 || state.older > 0 {
                "↑↓ 滚动 · ←→ 翻看早前 · x 清空 · Esc/Enter 退出"@
            } else {
                "↑↓ 滚动 · Esc/Enter 退出"@
            })
        }),
{
}

// ---- the whole screen ----------------------------------------------------------------

/// The regions from above: the pinned prompt, the transcript, the status line, the tasks, the
/// composer, the footer, and the sub-agents. The transcript has what the others leave, and one
/// row at least.
pub proof fn law_regions_from_above(area: Area, state: FrameState)
    ensures
        ({
            let h = frame_heights(area, state);
            let below = h[2] + h[3] + composer::height_spec(state.composer, area.width) + h[5]
                + h[6];
            &&& h.len() == 7
            &&& h[0] == transcript::header_height_spec(state.transcript.header)
            &&& h[2] == if state.operation_status.status_line.content is Some {
                1int
            } else {
                0
            }
            &&& h[3] <= 5
            &&& h[3] == 5 || h[3] == state.operation_status.task_list.items@.len()
            &&& h[5] == 1
            &&& h[0] + below < area.height ==> body_height_spec(area, state) == area.height - h[0]
                - below
            &&& h[0] + below >= area.height ==> body_height_spec(area, state) == 1
        }),
{
}

/// The heights of rows add up one by one.
pub proof fn law_heights_add_up(heights: Seq<u16>, h: u16)
    ensures
        total(seq![]) == 0,
        total(heights.push(h)) == total(heights) + h,
{
    assert(heights.push(h).drop_last() =~= heights);
}

/// While a side question is open it is drawn below the transcript, and nothing else is.
pub proof fn law_side_question_covers_the_rest(
    area: Area,
    state: FrameState,
    spinner: char,
    usage: footer_hints::UsageText,
    p: Placement,
)
    requires
        state.btw is Some,
        p.rows@.len() == 2,
    ensures
        ({
            let d = frame_draws(area, state, spinner, usage, p);
            let row = |i: int|
                Area { x: area.x, y: p.rows@[i].0, width: area.width, height: p.rows@[i].1 };
            d == (if p.rows@[0].1 > 0 {
                transcript::body_draws(row(0), state.transcript.body)
            } else {
                seq![]
            }) + btw::btw_draws(row(1), state.btw->0)
        }),
        btw_heights(area).len() == 2,
        btw_heights(area)[1] == btw::height_spec(area),
        btw_heights(area)[0] + btw_heights(area)[1] == area.height,
{
}

/// Every region is drawn in its own row, in their order.
pub proof fn law_regions_are_drawn_in_their_rows(
    area: Area,
    state: FrameState,
    spinner: char,
    usage: footer_hints::UsageText,
    p: Placement,
)
    requires
        state.btw is None,
        p.rows@.len() == 7,
    ensures
        ({
            let d = frame_draws(area, state, spinner, usage, p);
            let row = |i: int|
                Area { x: area.x, y: p.rows@[i].0, width: area.width, height: p.rows@[i].1 };
            d == (if transcript::header_height_spec(state.transcript.header) > 0 {
                transcript::header_draws(row(0), state.transcript.header)
            } else {
                seq![]
            }) + transcript::body_draws(row(1), state.transcript.body)
                + operation_status::status_draws(row(2), state.operation_status.status_line)
                + operation_status::task_draws(row(3), state.operation_status.task_list)
                + composer::composer_draws(row(4), state.composer, p.composer@, p.content@)
                + footer_hints::footer_draws(row(5), state.footer_hints, usage) + (if
            sub_agent_bar::height_spec(state.sub_agent_bar) > 0 {
                sub_agent_bar::agents_draws(row(6), state.sub_agent_bar, spinner)
            } else {
                seq![]
            })
        }),
{
}

} // verus!
