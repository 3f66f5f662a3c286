//! One line for each sub-agent.

use crate::canvas::{
    draws_view, lines_view, push_draw, push_line, span, span_of, Area, Color, Draw, DrawView, Line,
    LineView, Span, Style,
};
use crate::frame_state::{SubAgentBarState, SubAgentState, SubAgentStatus};
use crate::regions::style::{COLOR_ACCENT, COLOR_ERROR, COLOR_SECONDARY, COLOR_SUCCESS};
use crate::text::{decimal, decimal_spec};
use vstd::prelude::*;
use vstd::string::*;

verus! {

pub open spec fn height_spec(state: SubAgentBarState) -> u16 {
    (state.agents@.len() % 65536) as u16
}

pub fn height(state: &SubAgentBarState) -> (r: u16)
    ensures
        r == height_spec(*state),
{
    (state.agents.len() % 65536) as u16
}

pub open spec fn icon_spec(state: SubAgentState, spinner: char) -> Seq<char> {
    match state {
        SubAgentState::Running => seq![spinner],
        SubAgentState::Done => "✓"@,
        SubAgentState::Failed => "✗"@,
    }
}

pub open spec fn color_spec(state: SubAgentState) -> Color {
    match state {
        SubAgentState::Running => COLOR_ACCENT,
        SubAgentState::Done => COLOR_SUCCESS,
        SubAgentState::Failed => COLOR_ERROR,
    }
}

/// The line of a sub-agent.
pub open spec fn agent_line_spec(agent: SubAgentStatus, spinner: char) -> LineView {
    let style = Style::colored_spec(color_spec(agent.state));
    LineView {
        spans: seq![
            span_of(icon_spec(agent.state, spinner), style),
            span_of(" "@, Style::plain_spec()),
            span_of(agent.name@, style),
            span_of(
                "  "@ + decimal_spec(agent.token_usage as nat) + " tok  "@
                    + agent.elapsed_or_status@,
                Style::colored_spec(COLOR_SECONDARY),
            ),
        ],
    }
}

fn agent_line(agent: &SubAgentStatus, spinner: char) -> (r: Line)
    ensures
        r@ == agent_line_spec(*agent, spinner),
{
    let color: Color = match agent.state {
        SubAgentState::Running => COLOR_ACCENT,
        SubAgentState::Done => COLOR_SUCCESS,
        SubAgentState::Failed => COLOR_ERROR,
    };
    let icon: String = match agent.state {
        SubAgentState::Running => {
            let mut s: String = String::new();
            s.push(spinner);
            s
        },
        SubAgentState::Done => "✓".to_owned(),
        SubAgentState::Failed => "✗".to_owned(),
    };
    let rest: String = "  ".to_owned().concat(decimal(agent.token_usage).as_str()).concat(
        " tok  ",
    ).concat(agent.elapsed_or_status.as_str());
    let mut spans: Vec<Span> = Vec::new();
    spans.push(span(icon, Style::colored(color)));
    spans.push(span(" ".to_owned(), Style::plain()));
    spans.push(span(agent.name.clone(), Style::colored(color)));
    spans.push(span(rest, Style::colored(COLOR_SECONDARY)));
    let r = Line { spans };
    r
}

pub open spec fn agent_lines(agents: Seq<SubAgentStatus>, spinner: char) -> Seq<LineView> {
    agents.map_values(|a: SubAgentStatus| agent_line_spec(a, spinner))
}

/// What is drawn of the sub-agents.
pub open spec fn agents_draws(area: Area, state: SubAgentBarState, spinner: char) -> Seq<DrawView> {
    if state.agents@.len() == 0 {
        seq![]
    } else {
        seq![DrawView::Text { area, lines: agent_lines(state.agents@, spinner), wrap: false }]
    }
}

pub fn render(area: Area, state: &SubAgentBarState, spinner: char) -> (r: Vec<Draw>)
    ensures
        draws_view(r@) == agents_draws(area, *state, spinner),
{
    let mut r: Vec<Draw> = Vec::new();
    let n: usize = state.agents.len();
    if n == 0 {
        return r;
    }
    let ghost all = agent_lines(state.agents@, spinner);
    let mut lines: Vec<Line> = Vec::new();
    let mut i: usize = 0;
    while i < n
        invariant
            i <= n == state.agents@.len(),
            all == agent_lines(state.agents@, spinner),
            lines_view(lines@) == all.take(i as int),
        decreases n - i,
    {
        let l: Line = agent_line(&state.agents[i], spinner);
        push_line(&mut lines, l);
        i += 1;
    }
    assert(all.take(i as int) =~= all);
    push_draw(&mut r, Draw::Text { area, lines, wrap: false });
    r
}

} // verus!
