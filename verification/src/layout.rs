//! The regions stacked on the screen: how high each of them is, where it comes to lie, and
//! what is drawn.

use crate::canvas::{
    append_draws, cells_less, draws_view, least, less, most, plus, Area, Draw, DrawView,
};
use crate::frame_state::{BtwState, FrameState};
use crate::regions::{btw, composer, footer_hints, operation_status, sub_agent_bar, transcript};
use crate::regions::composer::{
    composer_draws, composer_heights, content_heights, content_row_heights, row_area, row_heights,
    row_of,
};
use crate::regions::footer_hints::{footer_draws, UsageText};
use ratatui::layout::{Constraint, Direction, Layout, Rect};
use vstd::prelude::*;

verus! {

// ---- rows ----------------------------------------------------------------------------

/// The sum of heights.
pub open spec fn total(heights: Seq<u16>) -> int
    decreases heights.len(),
{
    if heights.len() == 0 {
        0
    } else {
        total(heights.drop_last()) + heights.last()
    }
}

/// Rows of these heights, one right below the other.
pub open spec fn stacked(y: u16, heights: Seq<u16>) -> Seq<(u16, u16)> {
    Seq::new(heights.len(), |i: int| ((y + total(heights.take(i))) as u16, heights[i]))
}

/// Where rows that are cut out of an area end: at the sum of their heights, or at the end of
/// the area where they do not fit.
pub open spec fn split_end(y: u16, height: u16, heights: Seq<u16>) -> int {
    least(y + total(heights), plus(y as int, height as int))
}

/// What holds of rows that heights were cut into. There are as many; they lie inside, one
/// right below the other from the top on; none is higher than was asked for, and together
/// they use what there is. Where all heights fit, the rows have them in full. Which rows give
/// way where they do not fit is left open.
pub open spec fn is_split(y: u16, height: u16, heights: Seq<u16>, rows: Seq<(u16, u16)>) -> bool {
    &&& rows.len() == heights.len()
    &&& forall|i: int|
        0 <= i < rows.len() ==> y <= (#[trigger] rows[i]).0 && rows[i].0 + rows[i].1 <= plus(
            y as int,
            height as int,
        )
    &&& forall|i: int| 0 <= i < rows.len() ==> (#[trigger] rows[i]).1 <= heights[i]
    &&& forall|i: int|
        0 <= i < rows.len() ==> (#[trigger] rows[i]).0 == if i == 0 {
            y as int
        } else {
            rows[i - 1].0 + rows[i - 1].1
        }
    &&& rows.len() > 0 ==> rows.last().0 + rows.last().1 == split_end(y, height, heights)
    &&& y + height <= u16::MAX && total(heights) <= height ==> rows == stacked(y, heights)
}

/// The most rows that are cut out of one area.
pub const MOST_ROWS: usize = 7;

/// `Layout::split` in the vertical direction, with one `Constraint::Length` for each row.
/// The rows lie inside the area, one right below the other from its top on: an empty spacer
/// counts ten times as much to the solver as a length does. None is higher than its length,
/// and together they end where the lengths end, or at the end of the area. Where all lengths
/// fit, each row has its own. Which rows give way where they do not is not stated: the solver
/// may choose differently from run to run. With so few rows a share of the height is never so
/// near to half a cell that two neighbours could be rounded apart.
#[verifier::external_body]
fn split_rows(y: u16, height: u16, heights: &Vec<u16>) -> (rows: Vec<(u16, u16)>)
    requires
        heights@.len() <= MOST_ROWS,
    ensures
        rows@.len() == heights@.len(),
        forall|i: int|
            0 <= i < rows@.len() ==> y <= (#[trigger] rows@[i]).0 && rows@[i].0 + rows@[i].1
                <= plus(y as int, height as int),
        forall|i: int| 0 <= i < rows@.len() ==> (#[trigger] rows@[i]).1 <= heights@[i],
        forall|i: int|
            0 <= i < rows@.len() ==> (#[trigger] rows@[i]).0 == if i == 0 {
                y as int
            } else {
                rows@[i - 1].0 + rows@[i - 1].1
            },
        rows@.len() > 0 ==> rows@.last().0 + rows@.last().1 == split_end(y, height, heights@),
        y + height <= u16::MAX && total(heights@) <= height ==> rows@ == stacked(y, heights@),
{
    let area = Rect { x: 0, y, width: 0, height };
    let rows = Layout::default()
        .direction(Direction::Vertical)
        .constraints(heights.iter().map(|h| Constraint::Length(*h)))
        .split(area);
    rows.iter().map(|r| (r.y, r.height)).collect()
}

// ---- heights -------------------------------------------------------------------------

/// The rows below the transcript.
pub open spec fn rows_below(width: u16, state: FrameState) -> int {
    operation_status::status_height_spec(state.operation_status.status_line)
        + operation_status::task_height_spec(state.operation_status.task_list)
        + composer::height_spec(state.composer, width) + sub_agent_bar::height_spec(
        state.sub_agent_bar,
    ) + footer_hints::HEIGHT
}

/// The rows of the transcript: all that the other regions leave, and one at least.
pub open spec fn body_height_spec(area: Area, state: FrameState) -> int {
    most(
        less(
            less(
                area.height as int,
                transcript::header_height_spec(state.transcript.header) as int,
            ),
            rows_below(area.width, state),
        ),
        1,
    )
}

/// The rows of the transcript on the screen, which is also what one page is.
pub fn transcript_body_height(area: Area, state: &FrameState) -> (r: u16)
    ensures
        r == body_height_spec(area, *state),
        r >= 1,
{
    let header: u16 = transcript::header_height(&state.transcript.header);
    let status: u32 = operation_status::status_line_height(
        &state.operation_status.status_line,
    ) as u32;
    let tasks: u32 = operation_status::task_list_height(&state.operation_status.task_list) as u32;
    let composing: u32 = composer::height(&state.composer, area.width) as u32;
    let agents: u32 = sub_agent_bar::height(&state.sub_agent_bar) as u32;
    let below: u32 = status + tasks + composing + agents + footer_hints::HEIGHT as u32;
    let left: u16 = cells_less(area.height, header);
    let body: u16 = if left as u32 >= below {
        (left as u32 - below) as u16
    } else {
        0
    };
    if body >= 1 {
        body
    } else {
        1
    }
}

/// The heights of the seven regions, from top to bottom. The footer stands above the
/// sub-agents, which come and go.
pub open spec fn frame_heights(area: Area, state: FrameState) -> Seq<u16> {
    seq![
        transcript::header_height_spec(state.transcript.header),
        body_height_spec(area, state) as u16,
        operation_status::status_height_spec(state.operation_status.status_line),
        operation_status::task_height_spec(state.operation_status.task_list),
        composer::height_spec(state.composer, area.width) as u16,
        footer_hints::HEIGHT,
        sub_agent_bar::height_spec(state.sub_agent_bar),
    ]
}

fn region_heights(area: Area, state: &FrameState) -> (r: Vec<u16>)
    ensures
        r@ == frame_heights(area, *state),
{
    let mut r: Vec<u16> = Vec::new();
    r.push(transcript::header_height(&state.transcript.header));
    r.push(transcript_body_height(area, state));
    r.push(operation_status::status_line_height(&state.operation_status.status_line));
    r.push(operation_status::task_list_height(&state.operation_status.task_list));
    r.push(composer::height(&state.composer, area.width));
    r.push(footer_hints::HEIGHT);
    r.push(sub_agent_bar::height(&state.sub_agent_bar));
    r
}

/// The heights of the transcript and the side question below it.
pub open spec fn btw_heights(area: Area) -> Seq<u16> {
    seq![
        less(area.height as int, btw::height_spec(area)) as u16,
        btw::height_spec(area) as u16,
    ]
}

// ---- places --------------------------------------------------------------------------

/// Where the regions come to lie: the rows of the screen, those of the composer, and those
/// of its content.
#[derive(Debug, Clone)]
pub struct Placement {
    pub rows: Vec<(u16, u16)>,
    pub composer: Vec<(u16, u16)>,
    pub content: Vec<(u16, u16)>,
}

/// The regions have a place each.
pub open spec fn has_places(state: FrameState, p: Placement) -> bool {
    match state.btw {
        Some(_) => p.rows@.len() == 2,
        None => p.rows@.len() == 7 && p.composer@.len() == 4 && p.content@.len() == 2,
    }
}

/// The places are cut out of the screen by the heights of the regions.
pub open spec fn is_placed(area: Area, state: FrameState, p: Placement) -> bool {
    match state.btw {
        Some(_) => is_split(area.y, area.height, btw_heights(area), p.rows@),
        None => {
            &&& is_split(area.y, area.height, frame_heights(area, state), p.rows@)
            &&& is_split(
                p.rows@[4].0,
                p.rows@[4].1,
                composer_heights(state.composer, area.width),
                p.composer@,
            )
            &&& is_split(
                p.composer@[2].0,
                p.composer@[2].1,
                content_heights(state.composer.content, area.width),
                p.content@,
            )
        },
    }
}

/// Finds the places of the regions.
pub fn place(area: Area, state: &FrameState) -> (p: Placement)
    ensures
        is_placed(area, *state, p),
        has_places(*state, p),
{
    match &state.btw {
        Some(_) => {
            let h: u16 = btw::height(area);
            let mut heights: Vec<u16> = Vec::new();
            heights.push(cells_less(area.height, h));
            heights.push(h);
            assert(heights@ =~= btw_heights(area));
            let rows: Vec<(u16, u16)> = split_rows(area.y, area.height, &heights);
            Placement { rows, composer: Vec::new(), content: Vec::new() }
        },
        None => {
            let heights: Vec<u16> = region_heights(area, state);
            let rows: Vec<(u16, u16)> = split_rows(area.y, area.height, &heights);
            let inner: Vec<u16> = row_heights(&state.composer, area.width);
            let composer_rows: Vec<(u16, u16)> = split_rows(rows[4].0, rows[4].1, &inner);
            let lower: Vec<u16> = content_row_heights(&state.composer.content, area.width);
            let content_rows: Vec<(u16, u16)> = split_rows(
                composer_rows[2].0,
                composer_rows[2].1,
                &lower,
            );
            Placement { rows, composer: composer_rows, content: content_rows }
        },
    }
}

// ---- drawing -------------------------------------------------------------------------

/// What is drawn while the side question is open: the transcript above, where it has a row,
/// and the side question below.
pub open spec fn side_draws(area: Area, state: FrameState, b: BtwState, rows: Seq<(u16, u16)>) -> Seq<
    DrawView,
> {
    let above: Seq<DrawView> = if rows[0].1 > 0 {
        transcript::body_draws(row_area(area, rows[0]), state.transcript.body)
    } else {
        seq![]
    };
    above + btw::btw_draws(row_area(area, rows[1]), b)
}

/// What is drawn of the seven regions.
pub open spec fn regions_draws(
    area: Area,
    state: FrameState,
    spinner: char,
    usage: UsageText,
    p: Placement,
) -> Seq<DrawView> {
    let rows = p.rows@;
    let header: Seq<DrawView> = if transcript::header_height_spec(state.transcript.header) > 0 {
        transcript::header_draws(row_area(area, rows[0]), state.transcript.header)
    } else {
        seq![]
    };
    header + transcript::body_draws(row_area(area, rows[1]), state.transcript.body)
        + operation_status::status_draws(
        row_area(area, rows[2]),
        state.operation_status.status_line,
    ) + operation_status::task_draws(row_area(area, rows[3]), state.operation_status.task_list)
        + composer_draws(row_area(area, rows[4]), state.composer, p.composer@, p.content@)
        + footer_draws(row_area(area, rows[5]), state.footer_hints, usage) + (if
    sub_agent_bar::height_spec(state.sub_agent_bar) > 0 {
        sub_agent_bar::agents_draws(row_area(area, rows[6]), state.sub_agent_bar, spinner)
    } else {
        seq![]
    })
}

/// What is drawn of a frame, given the places of its regions.
pub open spec fn frame_draws(
    area: Area,
    state: FrameState,
    spinner: char,
    usage: UsageText,
    p: Placement,
) -> Seq<DrawView> {
    match state.btw {
        Some(b) => side_draws(area, state, b, p.rows@),
        None => regions_draws(area, state, spinner, usage, p),
    }
}

/// Draws a frame in the places of its regions.
pub fn render_placed(
    area: Area,
    state: &FrameState,
    spinner: char,
    usage: &UsageText,
    p: &Placement,
) -> (r: Vec<Draw>)
    requires
        has_places(*state, *p),
    ensures
        draws_view(r@) == frame_draws(area, *state, spinner, *usage, *p),
{
    let mut out: Vec<Draw> = Vec::new();
    match &state.btw {
        Some(b) => {
            if p.rows[0].1 > 0 {
                append_draws(
                    &mut out,
                    transcript::render_body(row_of(area, p.rows[0]), &state.transcript.body),
                );
            }
            append_draws(&mut out, btw::render(row_of(area, p.rows[1]), b));
            return out;
        },
        None => {},
    }
    if transcript::header_height(&state.transcript.header) > 0 {
        append_draws(
            &mut out,
            transcript::render_header(row_of(area, p.rows[0]), &state.transcript.header),
        );
    }
    append_draws(
        &mut out,
        transcript::render_body(row_of(area, p.rows[1]), &state.transcript.body),
    );
    append_draws(
        &mut out,
        operation_status::render_status_line(
            row_of(area, p.rows[2]),
            &state.operation_status.status_line,
        ),
    );
    append_draws(
        &mut out,
        operation_status::render_task_list(
            row_of(area, p.rows[3]),
            &state.operation_status.task_list,
        ),
    );
    append_draws(
        &mut out,
        composer::render(row_of(area, p.rows[4]), &state.composer, &p.composer, &p.content),
    );
    append_draws(
        &mut out,
        footer_hints::render(row_of(area, p.rows[5]), &state.footer_hints, usage),
    );
    if sub_agent_bar::height(&state.sub_agent_bar) > 0 {
        append_draws(
            &mut out,
            sub_agent_bar::render(row_of(area, p.rows[6]), &state.sub_agent_bar, spinner),
        );
    }
    out
}

/// Draws a frame. Wherever the regions come to lie, they are cut out of the screen by their
/// heights, and each is drawn in its place.
pub fn render(area: Area, state: &FrameState, spinner: char, usage: &UsageText) -> (r: Vec<Draw>)
    ensures
        exists|p: Placement|
            #![trigger is_placed(area, *state, p)]
            is_placed(area, *state, p) && draws_view(r@) == frame_draws(
                area,
                *state,
                spinner,
                *usage,
                p,
            ),
{
    let p: Placement = place(area, state);
    let r: Vec<Draw> = render_placed(area, state, spinner, usage, &p);
    assert(is_placed(area, *state, p));
    r
}

// ---- laws ----------------------------------------------------------------------------

/// The regions stand one right below the other in the order of the heights, whether they fit
/// or not, so that none covers another; and where everything fits, each has its height.
pub proof fn law_regions_do_not_overlap(
    y: u16,
    height: u16,
    heights: Seq<u16>,
    rows: Seq<(u16, u16)>,
    i: int,
    j: int,
)
    requires
        is_split(y, height, heights, rows),
        0 <= i < j < rows.len(),
    ensures
        rows[i].0 + rows[i].1 <= rows[j].0,
        j == i + 1 ==> rows[i].0 + rows[i].1 == rows[j].0,
        rows[0].0 == y,
        y + height <= u16::MAX && total(heights) <= height ==> rows[i].1 == heights[i]
            && rows[j].1 == heights[j],
    decreases j - i,
{
    if i + 1 < j {
        law_regions_do_not_overlap(y, height, heights, rows, i, j - 1);
    }
    assert(rows[j].0 == rows[j - 1].0 + rows[j - 1].1);
}

/// Where the regions below the transcript and one row of it fit, the heights add up to the
/// screen exactly.
pub proof fn law_heights_fill_the_screen(area: Area, state: FrameState)
    requires
        transcript::header_height_spec(state.transcript.header) + rows_below(area.width, state) + 1
            <= area.height,
    ensures
        total(frame_heights(area, state)) == area.height,
{
    let h = frame_heights(area, state);
    reveal_with_fuel(total, 8);
    assert(h.drop_last().drop_last().drop_last().drop_last().drop_last().drop_last().drop_last()
        =~= seq![]);
}

/// The two parts of the screen while the side question is open add up to the screen.
pub proof fn law_side_question_shares_the_screen(area: Area)
    ensures
        total(btw_heights(area)) == area.height,
{
    let h = btw_heights(area);
    reveal_with_fuel(total, 3);
    assert(h.drop_last().drop_last() =~= seq![]);
}

} // verus!
