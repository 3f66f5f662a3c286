//! The footer: the model, the directory, the mode and the usage on the left, a hint on the
//! right.

use crate::canvas::{
    draws_view, less, one_line, push_draw, push_span, repeat, repeated, span, span_of, spans_view,
    Area, Draw, DrawView, Line, LineView, Span, SpanView, Style,
};
use crate::frame_state::{AppMode, FooterHintsState};
use crate::regions::style::{COLOR_ACCENT, COLOR_SECONDARY};
use crate::text::{byte_len, text_len};
use vstd::prelude::*;
use vstd::string::*;

verus! {

pub const HEIGHT: u16 = 1;

/// The two token counts of the session, written out.
#[derive(Debug, Clone)]
pub struct UsageText {
    pub token_in: String,
    pub token_out: String,
}

pub open spec fn mode_style_spec(mode: AppMode, current: AppMode) -> Style {
    if mode == current {
        Style::colored_spec(COLOR_ACCENT).strong_spec()
    } else {
        Style::colored_spec(COLOR_SECONDARY)
    }
}

/// The label of a mode, in brackets.
pub open spec fn mode_span(mode: AppMode, current: AppMode) -> SpanView {
    span_of("["@ + mode.label_spec() + "] "@, mode_style_spec(mode, current))
}

fn mode_label(mode: AppMode, current: AppMode) -> (r: Span)
    ensures
        r@ == mode_span(mode, current),
{
    let style: Style = if mode == current {
        Style::colored(COLOR_ACCENT).strong()
    } else {
        Style::colored(COLOR_SECONDARY)
    };
    span("[".to_owned().concat(mode.label()).concat("] "), style)
}

/// The pieces on the left.
pub open spec fn left_spans(state: FooterHintsState, usage: UsageText) -> Seq<SpanView> {
    seq![
        span_of(state.model@, Style::plain_spec().strong_spec()),
        span_of(" · "@ + state.cwd@ + "  "@, Style::colored_spec(COLOR_SECONDARY)),
        mode_span(AppMode::Normal, state.mode),
        mode_span(AppMode::Plan, state.mode),
        mode_span(AppMode::Auto, state.mode),
        span_of(
            usage.token_in@ + "↑ "@ + usage.token_out@ + "↓  "@,
            Style::colored_spec(COLOR_SECONDARY),
        ),
    ]
}

/// The texts of pieces one after the other.
pub open spec fn spans_text(s: Seq<SpanView>) -> Seq<char>
    decreases s.len(),
{
    if s.len() == 0 {
        seq![]
    } else {
        spans_text(s.drop_last()) + s.last().text
    }
}

/// The footer: as many spaces between left and right as are left, counted in bytes.
pub open spec fn footer_line(width: u16, state: FooterHintsState, usage: UsageText) -> LineView {
    let left = left_spans(state, usage);
    let pad = less(
        less(width as int, byte_len(spans_text(left)) as int),
        byte_len(state.right_hint@) as int,
    );
    LineView {
        spans: left.push(span_of(repeated(' ', pad as nat), Style::plain_spec())).push(
            span_of(state.right_hint@, Style::colored_spec(COLOR_SECONDARY)),
        ),
    }
}

/// What is drawn of the footer.
pub open spec fn footer_draws(area: Area, state: FooterHintsState, usage: UsageText) -> Seq<
    DrawView,
> {
    seq![
        DrawView::Text { area, lines: seq![footer_line(area.width, state, usage)], wrap: false },
    ]
}

fn joined(spans: &Vec<Span>) -> (r: String)
    ensures
        r@ == spans_text(spans_view(spans@)),
{
    let ghost all = spans_view(spans@);
    let mut r: String = String::new();
    let mut i: usize = 0;
    while i < spans.len()
        invariant
            i <= spans@.len(),
            all == spans_view(spans@),
            r@ == spans_text(all.take(i as int)),
        decreases spans@.len() - i,
    {
        r.append(spans[i].text.as_str());
        proof {
            assert(all.take(i + 1).drop_last() =~= all.take(i as int));
        }
        i += 1;
    }
    assert(all.take(i as int) =~= all);
    r
}

pub fn render(area: Area, state: &FooterHintsState, usage: &UsageText) -> (r: Vec<Draw>)
    ensures
        draws_view(r@) == footer_draws(area, *state, *usage),
{
    let mut spans: Vec<Span> = Vec::new();
    spans.push(span(state.model.clone(), Style::plain().strong()));
    spans.push(
        span(
            " · ".to_owned().concat(state.cwd.as_str()).concat("  "),
            Style::colored(COLOR_SECONDARY),
        ),
    );
    spans.push(mode_label(AppMode::Normal, state.mode));
    spans.push(mode_label(AppMode::Plan, state.mode));
    spans.push(mode_label(AppMode::Auto, state.mode));
    spans.push(
        span(
            usage.token_in.clone().concat("↑ ").concat(usage.token_out.as_str()).concat("↓  "),
            Style::colored(COLOR_SECONDARY),
        ),
    );
    assert(spans_view(spans@) =~= left_spans(*state, *usage));
    let left: usize = text_len(joined(&spans).as_str());
    let right: usize = text_len(state.right_hint.as_str());
    let width: usize = area.width as usize;
    let rest: usize = if width >= left {
        width - left
    } else {
        0
    };
    let pad: usize = if rest >= right {
        rest - right
    } else {
        0
    };
    push_span(&mut spans, span(repeat(' ', pad), Style::plain()));
    push_span(&mut spans, span(state.right_hint.clone(), Style::colored(COLOR_SECONDARY)));
    let l = Line { spans };
    let mut r: Vec<Draw> = Vec::new();
    push_draw(&mut r, Draw::Text { area, lines: one_line(l), wrap: false });
    r
}

} // verus!
