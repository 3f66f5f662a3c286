//! What is to be drawn, as plain data: areas, styled text, and the steps of drawing.

use vstd::prelude::*;
use vstd::string::*;

verus! {

/// A rectangle of the screen, in cells.
#[derive(Debug, Clone, Copy, PartialEq, Eq, Structural)]
pub struct Area {
    pub x: u16,
    pub y: u16,
    pub width: u16,
    pub height: u16,
}

#[derive(Debug, Clone, Copy, PartialEq, Eq, Structural)]
pub enum Color {
    White,
    DarkGray,
    Cyan,
    Green,
    Yellow,
    Red,
    Magenta,
    Rgb(u8, u8, u8),
}

#[derive(Debug, Clone, Copy, PartialEq, Eq, Structural)]
pub struct Style {
    pub fg: Option<Color>,
    pub bg: Option<Color>,
    pub bold: bool,
    pub italic: bool,
    pub reversed: bool,
}

impl Style {
    /// No color and no emphasis.
    pub open spec fn plain_spec() -> Style {
        Style { fg: None, bg: None, bold: false, italic: false, reversed: false }
    }

    pub fn plain() -> (r: Style)
        ensures
            r == Style::plain_spec(),
    {
        Style { fg: None, bg: None, bold: false, italic: false, reversed: false }
    }

    pub open spec fn colored_spec(color: Color) -> Style {
        Style { fg: Some(color), ..Style::plain_spec() }
    }

    pub fn colored(color: Color) -> (r: Style)
        ensures
            r == Style::colored_spec(color),
    {
        Style { fg: Some(color), bg: None, bold: false, italic: false, reversed: false }
    }

    pub open spec fn strong_spec(self) -> Style {
        Style { bold: true, ..self }
    }

    pub fn strong(self) -> (r: Style)
        ensures
            r == self.strong_spec(),
    {
        Style { fg: self.fg, bg: self.bg, bold: true, italic: self.italic, reversed: self.reversed }
    }
}

/// A piece of a line.
#[derive(Debug)]
pub struct Span {
    pub text: String,
    pub style: Style,
}

/// What a [`Span`] holds.
pub struct SpanView {
    pub text: Seq<char>,
    pub style: Style,
}

impl View for Span {
    type V = SpanView;

    open spec fn view(&self) -> SpanView {
        SpanView { text: self.text@, style: self.style }
    }
}

#[derive(Debug)]
pub struct Line {
    pub spans: Vec<Span>,
}

/// What a [`Line`] holds.
#[verifier::ext_equal]
pub struct LineView {
    pub spans: Seq<SpanView>,
}

pub open spec fn spans_view(s: Seq<Span>) -> Seq<SpanView> {
    s.map_values(|x: Span| x@)
}

impl View for Line {
    type V = LineView;

    open spec fn view(&self) -> LineView {
        LineView { spans: spans_view(self.spans@) }
    }
}

pub open spec fn lines_view(s: Seq<Line>) -> Seq<LineView> {
    s.map_values(|l: Line| l@)
}

/// One step of drawing.
#[derive(Debug)]
pub enum Draw {
    /// The cells of an area are emptied.
    Clear { area: Area },
    /// A border around an area, with a title in it.
    Border { area: Area, color: Color, title: Option<String> },
    /// Lines from the top of an area on. Long lines go on below where `wrap` says so, and
    /// are cut otherwise.
    Text { area: Area, lines: Vec<Line>, wrap: bool },
}

/// What a [`Draw`] holds.
#[verifier::ext_equal]
pub enum DrawView {
    Clear { area: Area },
    Border { area: Area, color: Color, title: Option<Seq<char>> },
    Text { area: Area, lines: Seq<LineView>, wrap: bool },
}

impl View for Draw {
    type V = DrawView;

    open spec fn view(&self) -> DrawView {
        match *self {
            Draw::Clear { area } => DrawView::Clear { area },
            Draw::Border { area, color, title } => DrawView::Border {
                area,
                color,
                title: crate::frame_state::opt_text(title),
            },
            Draw::Text { area, lines, wrap } => DrawView::Text {
                area,
                lines: lines_view(lines@),
                wrap,
            },
        }
    }
}

pub open spec fn draws_view(s: Seq<Draw>) -> Seq<DrawView> {
    s.map_values(|d: Draw| d@)
}

// ---- building ------------------------------------------------------------------------

pub open spec fn span_of(text: Seq<char>, style: Style) -> SpanView {
    SpanView { text, style }
}

/// A line of one piece.
pub open spec fn line_of(text: Seq<char>, style: Style) -> LineView {
    LineView { spans: seq![span_of(text, style)] }
}

/// An empty line.
pub open spec fn blank_spec() -> LineView {
    LineView { spans: seq![] }
}

pub fn span(text: String, style: Style) -> (r: Span)
    ensures
        r@ == span_of(text@, style),
{
    Span { text, style }
}

pub fn line(text: String, style: Style) -> (r: Line)
    ensures
        r@ == line_of(text@, style),
{
    let mut spans: Vec<Span> = Vec::new();
    spans.push(Span { text, style });
    Line { spans }
}

pub fn blank() -> (r: Line)
    ensures
        r@ == blank_spec(),
{
    let r = Line { spans: Vec::new() };
    r
}

/// A list of one line.
pub fn one_line(l: Line) -> (r: Vec<Line>)
    ensures
        lines_view(r@) == seq![l@],
{
    let mut r: Vec<Line> = Vec::new();
    r.push(l);
    r
}

/// Adds a line.
pub fn push_line(lines: &mut Vec<Line>, l: Line)
    ensures
        lines_view(final(lines)@) == lines_view(old(lines)@).push(l@),
{
    lines.push(l);
}

/// Adds a piece to a line.
pub fn push_span(spans: &mut Vec<Span>, s: Span)
    ensures
        spans_view(final(spans)@) == spans_view(old(spans)@).push(s@),
{
    spans.push(s);
}

/// Adds a step of drawing.
pub fn push_draw(draws: &mut Vec<Draw>, d: Draw)
    ensures
        draws_view(final(draws)@) == draws_view(old(draws)@).push(d@),
{
    draws.push(d);
}

/// Adds steps of drawing.
pub fn append_draws(draws: &mut Vec<Draw>, more: Vec<Draw>)
    ensures
        draws_view(final(draws)@) == draws_view(old(draws)@) + draws_view(more@),
{
    let mut more = more;
    draws.append(&mut more);
}

/// Adds lines.
pub fn append_lines(lines: &mut Vec<Line>, more: Vec<Line>)
    ensures
        lines_view(final(lines)@) == lines_view(old(lines)@) + lines_view(more@),
{
    let mut more = more;
    lines.append(&mut more);
}

/// A character many times over.
pub open spec fn repeated(c: char, n: nat) -> Seq<char> {
    Seq::new(n, |i: int| c)
}

pub fn repeat(c: char, n: usize) -> (r: String)
    ensures
        r@ == repeated(c, n as nat),
{
    let mut r: String = String::new();
    let mut i: usize = 0;
    while i < n
        invariant
            i <= n,
            r@ == repeated(c, i as nat),
        decreases n - i,
    {
        r.push(c);
        i += 1;
    }
    r
}

// ---- cells ---------------------------------------------------------------------------

/// A sum of cells, which stops at the largest coordinate.
pub open spec fn plus(a: int, b: int) -> int {
    if a + b <= u16::MAX {
        a + b
    } else {
        u16::MAX as int
    }
}

/// A difference of cells, which stops at 0.
pub open spec fn less(a: int, b: int) -> int {
    if a >= b {
        a - b
    } else {
        0
    }
}

pub open spec fn least(a: int, b: int) -> int {
    if a <= b {
        a
    } else {
        b
    }
}

pub open spec fn most(a: int, b: int) -> int {
    if a >= b {
        a
    } else {
        b
    }
}

pub fn cells_plus(a: u16, b: u16) -> (r: u16)
    ensures
        r == plus(a as int, b as int),
{
    a.saturating_add(b)
}

pub fn cells_less(a: u16, b: u16) -> (r: u16)
    ensures
        r == less(a as int, b as int),
{
    a.saturating_sub(b)
}

/// The area inside a border of one cell on each side.
pub open spec fn inside_spec(a: Area) -> Area {
    let right = plus(a.x as int, a.width as int);
    let bottom = plus(a.y as int, a.height as int);
    Area {
        x: least(plus(a.x as int, 1), right) as u16,
        y: least(plus(a.y as int, 1), bottom) as u16,
        width: less(a.width as int, 2) as u16,
        height: less(a.height as int, 2) as u16,
    }
}

pub fn inside(a: Area) -> (r: Area)
    ensures
        r == inside_spec(a),
{
    let right: u16 = cells_plus(a.x, a.width);
    let bottom: u16 = cells_plus(a.y, a.height);
    let x: u16 = cells_plus(a.x, 1);
    let y: u16 = cells_plus(a.y, 1);
    Area {
        x: if x <= right {
            x
        } else {
            right
        },
        y: if y <= bottom {
            y
        } else {
            bottom
        },
        width: cells_less(a.width, 2),
        height: cells_less(a.height, 2),
    }
}

} // verus!
