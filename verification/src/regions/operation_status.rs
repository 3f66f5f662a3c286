//! The status line and the task list.

use crate::canvas::{
    draws_view, line, line_of, lines_view, one_line, push_draw, push_line, span, span_of, Area,
    Color, Draw, DrawView, Line, LineView, Span, Style,
};
use crate::frame_state::{ItemStatus, StatusContent, StatusLineState, TaskItem, TaskListState};
use crate::regions::style::{
    COLOR_ACCENT, COLOR_ERROR, COLOR_PRIMARY, COLOR_SECONDARY, COLOR_SUCCESS, COLOR_WARNING,
};
use crate::text::{decimal, decimal_spec};
use vstd::prelude::*;
use vstd::string::*;

verus! {

/// The task list takes no more lines than this.
pub const MAX_TASK_ROWS: usize = 5;

pub open spec fn status_height_spec(state: StatusLineState) -> u16 {
    if state.content is Some {
        1
    } else {
        0
    }
}

pub fn status_line_height(state: &StatusLineState) -> (r: u16)
    ensures
        r == status_height_spec(*state),
{
    if state.content.is_some() {
        1
    } else {
        0
    }
}

/// The status line.
pub open spec fn status_line_spec(content: StatusContent) -> LineView {
    match content {
        StatusContent::TurnRunning { spinner, activity, elapsed_secs, token_in, token_out } =>
            LineView {
                spans: seq![
                    span_of(seq![spinner], Style::colored_spec(COLOR_ACCENT)),
                    span_of(" "@, Style::plain_spec()),
                    span_of(activity@, Style::colored_spec(COLOR_PRIMARY)),
                    span_of(
                        "  "@ + decimal_spec(elapsed_secs as nat) + "s   in:"@ + decimal_spec(
                            token_in as nat,
                        ) + "  out:"@ + decimal_spec(token_out as nat),
                        Style::colored_spec(COLOR_SECONDARY),
                    ),
                ],
            },
        StatusContent::Compacting {
            stage,
            stage_index,
            stage_total,
            tokens_before,
            tokens_after,
            ..
        } => LineView {
            spans: seq![
                span_of("⠴"@, Style::colored_spec(COLOR_WARNING)),
                span_of(
                    " Compacting ("@ + decimal_spec(stage_index as nat + 1) + "/"@ + decimal_spec(
                        stage_total as nat,
                    ) + ": "@ + stage.label_spec() + ")…  "@ + decimal_spec(tokens_before as nat)
                        + " → "@ + (match tokens_after {
                        Some(t) => decimal_spec(t as nat),
                        None => "…"@,
                    }) + " tok"@,
                    Style::colored_spec(COLOR_WARNING),
                ),
            ],
        },
    }
}

fn status_text(content: &StatusContent) -> (r: Line)
    ensures
        r@ == status_line_spec(*content),
{
    let mut spans: Vec<Span> = Vec::new();
    match content {
        StatusContent::TurnRunning { spinner, activity, elapsed_secs, token_in, token_out } => {
            let mut mark: String = String::new();
            mark.push(*spinner);
            spans.push(span(mark, Style::colored(COLOR_ACCENT)));
            spans.push(span(" ".to_owned(), Style::plain()));
            spans.push(span(activity.clone(), Style::colored(COLOR_PRIMARY)));
            let rest: String = "  ".to_owned().concat(decimal(*elapsed_secs).as_str()).concat(
                "s   in:",
            ).concat(decimal(*token_in).as_str()).concat("  out:").concat(
                decimal(*token_out).as_str(),
            );
            spans.push(span(rest, Style::colored(COLOR_SECONDARY)));
        },
        StatusContent::Compacting {
            stage,
            stage_index,
            stage_total,
            tokens_before,
            tokens_after,
            ..
        } => {
            spans.push(span("⠴".to_owned(), Style::colored(COLOR_WARNING)));
            let after: String = match tokens_after {
                Some(t) => decimal(*t),
                None => "…".to_owned(),
            };
            let rest: String = " Compacting (".to_owned().concat(
                decimal(*stage_index as u64 + 1).as_str(),
            ).concat("/").concat(decimal(*stage_total as u64).as_str()).concat(": ").concat(
                stage.label(),
            ).concat(")…  ").concat(decimal(*tokens_before).as_str()).concat(" → ").concat(
                after.as_str(),
            ).concat(" tok");
            spans.push(span(rest, Style::colored(COLOR_WARNING)));
        },
    }
    let r = Line { spans };
    r
}

/// What is drawn of the status line.
pub open spec fn status_draws(area: Area, state: StatusLineState) -> Seq<DrawView> {
    match state.content {
        None => seq![],
        Some(c) => seq![
            DrawView::Text { area, lines: seq![status_line_spec(c)], wrap: false },
        ],
    }
}

pub fn render_status_line(area: Area, state: &StatusLineState) -> (r: Vec<Draw>)
    ensures
        draws_view(r@) == status_draws(area, *state),
{
    let mut r: Vec<Draw> = Vec::new();
    match &state.content {
        None => {},
        Some(c) => {
            push_draw(
                &mut r,
                Draw::Text { area, lines: one_line(status_text(c)), wrap: false },
            );
        },
    }
    r
}

pub open spec fn task_height_spec(state: TaskListState) -> u16 {
    if state.items@.len() <= MAX_TASK_ROWS {
        state.items@.len() as u16
    } else {
        MAX_TASK_ROWS as u16
    }
}

pub fn task_list_height(state: &TaskListState) -> (r: u16)
    ensures
        r == task_height_spec(*state),
{
    if state.items.len() <= MAX_TASK_ROWS {
        state.items.len() as u16
    } else {
        MAX_TASK_ROWS as u16
    }
}

pub open spec fn task_color_spec(status: ItemStatus) -> Color {
    match status {
        ItemStatus::Running => COLOR_ACCENT,
        ItemStatus::Pending => COLOR_SECONDARY,
        ItemStatus::Done => COLOR_SUCCESS,
        ItemStatus::Failed => COLOR_ERROR,
    }
}

/// The line of a task.
pub open spec fn task_line_spec(item: TaskItem) -> LineView {
    let style = Style::colored_spec(task_color_spec(item.status));
    LineView {
        spans: seq![
            span_of("  "@, Style::plain_spec()),
            span_of(item.status.icon_spec(), style),
            span_of(" "@, Style::plain_spec()),
            span_of(item.label@, style),
        ],
    }
}

fn task_line(item: &TaskItem) -> (r: Line)
    ensures
        r@ == task_line_spec(*item),
{
    let color: Color = match item.status {
        ItemStatus::Running => COLOR_ACCENT,
        ItemStatus::Pending => COLOR_SECONDARY,
        ItemStatus::Done => COLOR_SUCCESS,
        ItemStatus::Failed => COLOR_ERROR,
    };
    let mut spans: Vec<Span> = Vec::new();
    spans.push(span("  ".to_owned(), Style::plain()));
    spans.push(span(item.status.icon().to_owned(), Style::colored(color)));
    spans.push(span(" ".to_owned(), Style::plain()));
    spans.push(span(item.label.clone(), Style::colored(color)));
    let r = Line { spans };
    r
}

/// How many tasks are listed: where they are too many, the last line counts the others.
pub open spec fn tasks_shown(n: nat) -> nat {
    if n > MAX_TASK_ROWS {
        (MAX_TASK_ROWS - 1) as nat
    } else {
        n
    }
}

/// The lines of the task list.
pub open spec fn task_lines(items: Seq<TaskItem>) -> Seq<LineView> {
    let shown = tasks_shown(items.len());
    let listed = Seq::new(shown, |i: int| task_line_spec(items[i]));
    if items.len() > MAX_TASK_ROWS {
        listed.push(
            line_of(
                "  (+"@ + decimal_spec((items.len() - shown) as nat) + " more hidden)"@,
                Style::colored_spec(COLOR_SECONDARY),
            ),
        )
    } else {
        listed
    }
}

/// What is drawn of the task list.
pub open spec fn task_draws(area: Area, state: TaskListState) -> Seq<DrawView> {
    if state.items@.len() == 0 {
        seq![]
    } else {
        seq![DrawView::Text { area, lines: task_lines(state.items@), wrap: false }]
    }
}

pub fn render_task_list(area: Area, state: &TaskListState) -> (r: Vec<Draw>)
    ensures
        draws_view(r@) == task_draws(area, *state),
{
    let mut r: Vec<Draw> = Vec::new();
    let n: usize = state.items.len();
    if n == 0 {
        return r;
    }
    let shown: usize = if n > MAX_TASK_ROWS {
        MAX_TASK_ROWS - 1
    } else {
        n
    };
    let ghost all = task_lines(state.items@);
    let mut lines: Vec<Line> = Vec::new();
    let mut i: usize = 0;
    while i < shown
        invariant
            i <= shown <= n == state.items@.len(),
            shown == tasks_shown(n as nat),
            all == task_lines(state.items@),
            lines_view(lines@) == all.take(i as int),
        decreases shown - i,
    {
        let l: Line = task_line(&state.items[i]);
        push_line(&mut lines, l);
        i += 1;
    }
    if n > MAX_TASK_ROWS {
        let text: String = "  (+".to_owned().concat(decimal((n - shown) as u64).as_str()).concat(
            " more hidden)",
        );
        let l: Line = line(text, Style::colored(COLOR_SECONDARY));
        push_line(&mut lines, l);
        assert(all =~= all.take(i as int).push(all.last()));
    } else {
        assert(all.take(i as int) =~= all);
    }
    push_draw(&mut r, Draw::Text { area, lines, wrap: false });
    r
}

/// The list of tasks is as high as its lines.
pub proof fn law_task_list_fits_its_height(state: TaskListState)
    requires
        state.items@.len() <= usize::MAX,
    ensures
        task_lines(state.items@).len() == task_height_spec(state),
{
}

} // verus!
