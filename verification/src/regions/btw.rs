//! The side question. While it is open it covers the lower half of the screen, and has a
//! key hint of its own.

use crate::canvas::{
    blank, blank_spec, draws_view, inside, inside_spec, least, line, line_of, lines_view, most,
    one_line, push_draw, push_line, Area, Draw, DrawView, Line, LineView, Style,
};
use crate::frame_state::BtwState;
use crate::regions::style::{COLOR_ACCENT, COLOR_SECONDARY};
use crate::text::{decimal, decimal_spec, lines, lines_spec, texts};
use vstd::prelude::*;
use vstd::string::*;

verus! {

/// The part of the screen that the side question takes: one in so many.
pub const SHARE: u16 = 2;

/// The least height of the side question, where the screen has it.
pub const LEAST_HEIGHT: u16 = 6;

pub open spec fn height_spec(area: Area) -> int {
    least(most(area.height as int / SHARE as int, LEAST_HEIGHT as int), area.height as int)
}

/// The rows of the side question: half the screen, but no less than it needs.
pub fn height(area: Area) -> (r: u16)
    ensures
        r == height_spec(area),
{
    let half: u16 = area.height / SHARE;
    let h: u16 = if half >= LEAST_HEIGHT {
        half
    } else {
        LEAST_HEIGHT
    };
    if h <= area.height {
        h
    } else {
        area.height
    }
}

/// The title says which exchange is shown, where it is not the latest.
pub open spec fn title_spec(viewing: usize) -> Seq<char> {
    if viewing == 0 {
        " btw "@
    } else {
        " btw · 第 "@ + decimal_spec(viewing as nat) + " 条（往回）"@
    }
}

pub open spec fn earlier_lines(earlier: Seq<Seq<char>>) -> Seq<LineView> {
    earlier.map_values(
        |q: Seq<char>| line_of("  · "@ + q, Style::colored_spec(COLOR_SECONDARY)),
    )
}

pub open spec fn answer_lines(answer: Seq<char>) -> Seq<LineView> {
    lines_spec(answer).map_values(|l: Seq<char>| line_of("  "@ + l, Style::plain_spec()))
}

/// There are earlier exchanges.
pub open spec fn has_earlier(state: BtwState) -> bool {
    state.earlier@.len() > 0 || state.older > 0
}

/// What the region holds: the earlier questions, the question, and the answer as far as it
/// has come.
pub open spec fn content_lines(state: BtwState) -> Seq<LineView> {
    let listed = earlier_lines(texts(state.earlier@));
    let counted = if state.older > 0 {
        listed.push(
            line_of(
                "  · 还有 "@ + decimal_spec(state.older as nat) + " 条更早的"@,
                Style::colored_spec(COLOR_SECONDARY),
            ),
        )
    } else {
        listed
    };
    let parted = if has_earlier(state) {
        counted.push(blank_spec())
    } else {
        counted
    };
    let asked = parted.push(
        line_of("> "@ + state.question@, Style::colored_spec(COLOR_ACCENT).strong_spec()),
    ).push(blank_spec());
    let waiting = if state.answer@.len() == 0 && state.streaming {
        asked.push(line_of("  想一下……"@, Style::colored_spec(COLOR_SECONDARY)))
    } else {
        asked
    };
    waiting + answer_lines(state.answer@)
}

/// How many lines are scrolled past: never so many that lines are missing at the end.
pub open spec fn skipped(total: int, height: int, scroll: int) -> int {
    let limit = if total >= height {
        total - height
    } else {
        0
    };
    least(scroll, limit)
}

pub open spec fn hint_spec(state: BtwState) -> Seq<char> {
    if state.streaming {
        "Esc 退出 · 正在回答…"@
    } else if has_earlier(state) {
        "↑↓ 滚动 · ←→ 翻看早前 · x 清空 · Esc/Enter 退出"@
    } else {
        "↑↓ 滚动 · Esc/Enter 退出"@
    }
}

/// What is drawn of the side question.
pub open spec fn btw_draws(area: Area, state: BtwState) -> Seq<DrawView> {
    let inner = inside_spec(area);
    let frame: Seq<DrawView> = seq![
        DrawView::Clear { area },
        DrawView::Border { area, color: COLOR_ACCENT, title: Some(title_spec(state.viewing)) },
    ];
    if inner.height < 2 {
        frame
    } else {
        let body = Area { height: (inner.height - 1) as u16, ..inner };
        let hint = Area {
            y: crate::canvas::plus(inner.y as int, inner.height - 1) as u16,
            height: 1,
            ..inner
        };
        let all = content_lines(state);
        frame + seq![
            DrawView::Text {
                area: body,
                lines: all.skip(skipped(all.len() as int, body.height as int, state.scroll as int)),
                wrap: true,
            },
            DrawView::Text {
                area: hint,
                lines: seq![
                    line_of(" "@ + hint_spec(state), Style::colored_spec(COLOR_SECONDARY)),
                ],
                wrap: false,
            },
        ]
    }
}

fn render_content(state: &BtwState) -> (r: Vec<Line>)
    ensures
        lines_view(r@) == content_lines(*state),
{
    let mut r: Vec<Line> = Vec::new();
    let ghost asked = earlier_lines(texts(state.earlier@));
    let mut i: usize = 0;
    while i < state.earlier.len()
        invariant
            i <= state.earlier@.len(),
            asked == earlier_lines(texts(state.earlier@)),
            lines_view(r@) == asked.take(i as int),
        decreases state.earlier@.len() - i,
    {
        let l: Line = line(
            "  · ".to_owned().concat(state.earlier[i].as_str()),
            Style::colored(COLOR_SECONDARY),
        );
        push_line(&mut r, l);
        i += 1;
    }
    if state.older > 0 {
        let text: String = "  · 还有 ".to_owned().concat(
            decimal(state.older as u64).as_str(),
        ).concat(" 条更早的");
        push_line(&mut r, line(text, Style::colored(COLOR_SECONDARY)));
    }
    if state.earlier.len() > 0 || state.older > 0 {
        push_line(&mut r, blank());
    }
    push_line(
        &mut r,
        line(
            "> ".to_owned().concat(state.question.as_str()),
            Style::colored(COLOR_ACCENT).strong(),
        ),
    );
    push_line(&mut r, blank());
    if state.answer.as_str().is_empty() && state.streaming {
        push_line(&mut r, line("  想一下……".to_owned(), Style::colored(COLOR_SECONDARY)));
    }
    let ghost before = lines_view(r@);
    let parts: Vec<String> = lines(state.answer.as_str());
    let ghost all = answer_lines(state.answer@);
    let mut k: usize = 0;
    while k < parts.len()
        invariant
            k <= parts@.len(),
            texts(parts@) == lines_spec(state.answer@),
            all == answer_lines(state.answer@),
            lines_view(r@) == before + all.take(k as int),
        decreases parts@.len() - k,
    {
        let l: Line = line("  ".to_owned().concat(parts[k].as_str()), Style::plain());
        push_line(&mut r, l);
        k += 1;
    }
    r
}

pub fn render(area: Area, state: &BtwState) -> (r: Vec<Draw>)
    ensures
        draws_view(r@) == btw_draws(area, *state),
{
    let mut r: Vec<Draw> = Vec::new();
    let title: String = if state.viewing == 0 {
        " btw ".to_owned()
    } else {
        " btw · 第 ".to_owned().concat(decimal(state.viewing as u64).as_str()).concat(
            " 条（往回）",
        )
    };
    push_draw(&mut r, Draw::Clear { area });
    push_draw(&mut r, Draw::Border { area, color: COLOR_ACCENT, title: Some(title) });
    let inner: Area = inside(area);
    if inner.height < 2 {
        return r;
    }
    let body = Area { x: inner.x, y: inner.y, width: inner.width, height: inner.height - 1 };
    let hint_row = Area {
        x: inner.x,
        y: crate::canvas::cells_plus(inner.y, inner.height - 1),
        width: inner.width,
        height: 1,
    };
    let mut lines: Vec<Line> = render_content(state);
    let ghost all = content_lines(*state);
    let total: usize = lines.len();
    let limit: usize = if total >= body.height as usize {
        total - body.height as usize
    } else {
        0
    };
    let skip: usize = if state.scroll <= limit {
        state.scroll
    } else {
        limit
    };
    let shown: Vec<Line> = lines.split_off(skip);
    assert(lines_view(shown@) =~= all.skip(skip as int));
    push_draw(&mut r, Draw::Text { area: body, lines: shown, wrap: true });
    let hint: &str = if state.streaming {
        "Esc 退出 · 正在回答…"
    } else if state.earlier.len() > 0 || state.older > 0 {
        "↑↓ 滚动 · ←→ 翻看早前 · x 清空 · Esc/Enter 退出"
    } else {
        "↑↓ 滚动 · Esc/Enter 退出"
    };
    let l: Line = line(" ".to_owned().concat(hint), Style::colored(COLOR_SECONDARY));
    push_draw(&mut r, Draw::Text { area: hint_row, lines: one_line(l), wrap: false });
    r
}

/// Scrolling never empties the region: where there are lines, some of them are shown, and
/// where there are more than fit, the region is full.
pub proof fn law_scroll_never_blanks(total: int, height: int, scroll: int)
    requires
        0 <= scroll,
        0 < height,
        0 < total,
    ensures
        0 <= skipped(total, height, scroll) < total,
        total >= height ==> total - skipped(total, height, scroll) >= height,
{
}

} // verus!
