//! Styled lines of text: what a title shows.
//!
//! The line itself is the host toolkit's. Contracts speak of it through its
//! [`Text`]: its style, its alignment and its spans.

use vstd::prelude::*;
use crate::area::Rect;
use crate::canvas::{buffer_area, buffer_cells, canvas_of, Canvas, Cell};
use crate::style::Style;
use ratatui::buffer::Buffer;
use ratatui::text::Line;

verus! {

/// The host toolkit's line of styled text.
#[verifier::external_type_specification]
#[verifier::external_body]
pub struct ExLine<'a>(ratatui::text::Line<'a>);

/// Where a line is put in the room that it has: at its start, in the
/// middle, or at its end.
#[derive(Debug, Clone, Copy, PartialEq, Eq, Hash, Structural)]
pub enum Alignment {
    Left,
    Center,
    Right,
}

/// A stretch of text with one style.
#[derive(Debug, Clone, PartialEq, Eq, Hash)]
pub struct Span {
    pub content: String,
    pub style: Style,
}

/// One cluster of characters that is drawn in one place, with its style.
#[derive(Debug, Clone, PartialEq, Eq, Hash)]
pub struct Grapheme {
    pub symbol: String,
    pub style: Style,
}

/// A stretch of text with one style, as contracts see it.
pub struct Piece {
    pub content: Seq<char>,
    pub style: Style,
}

/// A line as contracts see it.
pub struct Text {
    pub style: Style,
    pub alignment: Option<Alignment>,
    pub spans: Seq<Piece>,
}

/// The spans that a line holds, in order.
pub uninterp spec fn line_spans(line: Line<'static>) -> Seq<Piece>;

/// The style of a line as a whole.
pub uninterp spec fn line_style(line: Line<'static>) -> Style;

/// The alignment that a line asks for, if any.
pub uninterp spec fn line_alignment(line: Line<'static>) -> Option<Alignment>;

/// The spans that the toolkit makes of a string: one for each of its lines.
pub uninterp spec fn raw_pieces(content: Seq<char>) -> Seq<Piece>;

/// The number of columns that a string takes on a terminal.
pub uninterp spec fn display_width(content: Seq<char>) -> nat;

/// The clusters that a line of these spans and this style is drawn as, each
/// with the style it is drawn in.
pub uninterp spec fn graphemes_of(spans: Seq<Piece>, style: Style) -> Seq<Piece>;

/// The cells of a canvas after the toolkit has drawn a line on `area`.
pub uninterp spec fn line_painted(text: Text, area: Rect, canvas: Canvas) -> Map<(int, int), Cell>;

/// The text of a line.
pub open spec fn text_of(line: Line<'static>) -> Text {
    Text { style: line_style(line), alignment: line_alignment(line), spans: line_spans(line) }
}

/// The row that a line is drawn in when it is given `area` on a canvas
/// that spans `bounds`: the first row of what the two share.
pub open spec fn first_row(area: Rect, bounds: Rect) -> Rect {
    let shared = area.spec_intersection(bounds);
    Rect { height: if shared.height == 0 { 0 } else { 1 }, ..shared }
}

/// The row that a line is drawn in, cut so that it ends left of the last
/// column that a coordinate can name. The toolkit's drawing needs that
/// column free.
pub open spec fn drawn_row(area: Rect, bounds: Rect) -> Rect {
    let row = first_row(area, bounds);
    Rect {
        width: if row.width > 0 && row.x + row.width >= u16::MAX {
            (row.width - 1) as u16
        } else {
            row.width
        },
        ..row
    }
}

/// The number of columns that the first `i` spans take together.
pub open spec fn width_upto(spans: Seq<Piece>, i: int) -> nat
    decreases i,
{
    if i <= 0 {
        0
    } else {
        width_upto(spans, i - 1) + display_width(spans[i - 1].content)
    }
}

/// The number of columns that a line of these spans takes.
pub open spec fn total_width(spans: Seq<Piece>) -> nat {
    width_upto(spans, spans.len() as int)
}

/// More spans take no fewer columns.
pub proof fn lemma_width_grows(spans: Seq<Piece>, i: int, j: int)
    requires
        i <= j,
    ensures
        width_upto(spans, i) <= width_upto(spans, j),
    decreases j - i,
{
    if i < j {
        lemma_width_grows(spans, i, j - 1);
    }
}

impl Span {
    /// The span as contracts see it.
    pub open spec fn piece(self) -> Piece {
        Piece { content: self.content@, style: self.style }
    }

    /// Creates a span without a style of its own.
    pub fn raw(content: &str) -> (r: Span)
        ensures
            r.content@ == content@,
            r.style == Style::spec_new(),
    {
        Span { content: content.to_owned(), style: Style::new() }
    }

    /// Creates a span with the given style.
    pub fn styled(content: &str, style: Style) -> (r: Span)
        ensures
            r.content@ == content@,
            r.style == style,
    {
        Span { content: content.to_owned(), style }
    }
}

impl Grapheme {
    /// The cluster as contracts see it.
    pub open spec fn piece(self) -> Piece {
        Piece { content: self.symbol@, style: self.style }
    }
}

/// The clusters of a vector as contracts see them.
pub open spec fn pieces_of(graphemes: Seq<Grapheme>) -> Seq<Piece> {
    Seq::new(graphemes.len(), |i: int| graphemes[i].piece())
}

/// Calls `Line::default`: no spans, no alignment, the style that changes
/// nothing.
#[verifier::external_body]
pub(crate) fn line_default() -> (r: Line<'static>)
    ensures
        line_spans(r) == Seq::<Piece>::empty(),
        line_alignment(r) == None::<Alignment>,
        line_style(r) == Style::spec_new(),
{
    Line::default()
}

/// Calls `Line::raw` on a copy of the string: the spans that the toolkit
/// makes of it, one for each of its lines, no alignment, the style that
/// changes nothing. A string that is not empty and has no line break is one
/// line, and so one span with the whole string and no style of its own.
#[verifier::external_body]
pub(crate) fn line_raw(content: &str) -> (r: Line<'static>)
    ensures
        line_spans(r) == raw_pieces(content@),
        content@.len() > 0 && !content@.contains('\n') ==> line_spans(r) == seq![
            Piece { content: content@, style: Style::spec_new() },
        ],
        line_alignment(r) == None::<Alignment>,
        line_style(r) == Style::spec_new(),
{
    Line::raw(content.to_string())
}

/// Calls `Clone::clone` of the line: the copy is equal to the line.
#[verifier::external_body]
pub(crate) fn clone_line(line: &Line<'static>) -> (r: Line<'static>)
    ensures
        r == *line,
{
    line.clone()
}

/// Calls `Vec::clear` on the `spans` field: the line has no span left.
#[verifier::external_body]
pub(crate) fn clear_spans(line: &mut Line<'static>)
    ensures
        line_spans(*final(line)) == Seq::<Piece>::empty(),
        line_alignment(*final(line)) == line_alignment(*old(line)),
        line_style(*final(line)) == line_style(*old(line)),
{
    line.spans.clear();
}

/// Calls `Span::styled` and `Vec::push` on the `spans` field: the line has
/// one more span, at the end, with the given text and style.
#[verifier::external_body]
pub(crate) fn push_span(line: &mut Line<'static>, content: &str, style: Style)
    ensures
        line_spans(*final(line)) == line_spans(*old(line)).push(Piece { content: content@, style }),
        line_alignment(*final(line)) == line_alignment(*old(line)),
        line_style(*final(line)) == line_style(*old(line)),
{
    let mut host = ratatui::style::Style::new();
    host.fg = style.fg;
    host.bg = style.bg;
    host.add_modifier = ratatui::style::Modifier::from_bits_retain(style.add_modifier);
    host.sub_modifier = ratatui::style::Modifier::from_bits_retain(style.sub_modifier);
    line.spans.push(ratatui::text::Span::styled(content.to_string(), host));
}

/// Reads the `style` field of the line.
#[verifier::external_body]
pub(crate) fn line_style_of(line: &Line<'static>) -> (r: Style)
    ensures
        r == line_style(*line),
{
    Style {
        fg: line.style.fg,
        bg: line.style.bg,
        add_modifier: line.style.add_modifier.bits(),
        sub_modifier: line.style.sub_modifier.bits(),
    }
}

/// Writes the `style` field of the line.
#[verifier::external_body]
pub(crate) fn set_line_style(line: &mut Line<'static>, style: Style)
    ensures
        line_style(*final(line)) == style,
        line_alignment(*final(line)) == line_alignment(*old(line)),
        line_spans(*final(line)) == line_spans(*old(line)),
{
    let mut host = ratatui::style::Style::new();
    host.fg = style.fg;
    host.bg = style.bg;
    host.add_modifier = ratatui::style::Modifier::from_bits_retain(style.add_modifier);
    host.sub_modifier = ratatui::style::Modifier::from_bits_retain(style.sub_modifier);
    line.style = host;
}

/// Reads the `alignment` field of the line.
#[verifier::external_body]
pub(crate) fn line_alignment_of(line: &Line<'static>) -> (r: Option<Alignment>)
    ensures
        r == line_alignment(*line),
{
    match line.alignment {
        Some(ratatui::layout::Alignment::Left) => Some(Alignment::Left),
        Some(ratatui::layout::Alignment::Center) => Some(Alignment::Center),
        Some(ratatui::layout::Alignment::Right) => Some(Alignment::Right),
        None => None,
    }
}

/// Writes the `alignment` field of the line.
#[verifier::external_body]
pub(crate) fn set_line_alignment(line: &mut Line<'static>, alignment: Alignment)
    ensures
        line_alignment(*final(line)) == Some(alignment),
        line_style(*final(line)) == line_style(*old(line)),
        line_spans(*final(line)) == line_spans(*old(line)),
{
    line.alignment = Some(match alignment {
        Alignment::Left => ratatui::layout::Alignment::Left,
        Alignment::Center => ratatui::layout::Alignment::Center,
        Alignment::Right => ratatui::layout::Alignment::Right,
    });
}

/// Calls `Vec::len` on the `spans` field: the number of spans.
#[verifier::external_body]
pub(crate) fn span_count(line: &Line<'static>) -> (r: usize)
    ensures
        r == line_spans(*line).len(),
{
    line.spans.len()
}

/// Calls `Span::width` on the span number `i`, which is
/// `UnicodeWidthStr::width` of its text: the number of columns that the
/// span takes.
#[verifier::external_body]
pub(crate) fn span_width(line: &Line<'static>, i: usize) -> (r: usize)
    requires
        i < line_spans(*line).len(),
    ensures
        r == display_width(line_spans(*line)[i as int].content),
{
    line.spans[i].width()
}

/// The number of columns that the line takes, where that is a coordinate.
pub fn line_width(line: &Line<'static>) -> (r: Option<u16>)
    ensures
        r == (if total_width(line_spans(*line)) <= u16::MAX {
            Some(total_width(line_spans(*line)) as u16)
        } else {
            None
        }),
{
    let count = span_count(line);
    let mut sum: u16 = 0;
    let mut i: usize = 0;
    while i < count
        invariant
            i <= count,
            count == line_spans(*line).len(),
            sum == width_upto(line_spans(*line), i as int),
        decreases count - i,
    {
        let width = span_width(line, i);
        if width > (u16::MAX - sum) as usize {
            proof {
                lemma_width_grows(line_spans(*line), i + 1, count as int);
            }
            return None;
        }
        sum = sum + width as u16;
        i = i + 1;
    }
    Some(sum)
}

/// Calls `UnicodeWidthStr::width`: the number of columns that the string
/// takes.
#[verifier::external_body]
pub(crate) fn text_width(content: &str) -> (r: usize)
    ensures
        r == display_width(content@),
{
    unicode_width::UnicodeWidthStr::width(content)
}

/// Calls `Line::styled_graphemes` with the style that changes nothing as
/// the base, and copies what it yields.
#[verifier::external_body]
pub(crate) fn line_graphemes(line: &Line<'static>) -> (r: Vec<Grapheme>)
    ensures
        pieces_of(r@) == graphemes_of(line_spans(*line), line_style(*line)),
{
    line.styled_graphemes(ratatui::style::Style::new()).map(|g| Grapheme {
        symbol: g.symbol.to_string(),
        style: Style {
            fg: g.style.fg,
            bg: g.style.bg,
            add_modifier: g.style.add_modifier.bits(),
            sub_modifier: g.style.sub_modifier.bits(),
        },
    }).collect()
}

/// Calls the toolkit's `render_ref` of the line on `area`. The toolkit draws
/// into the first row of what `area` and the buffer's area share, and
/// nowhere else; the buffer keeps its area and its cells' positions.
///
/// The toolkit indexes the cells of that row and counts one column past a
/// cluster, so the buffer must hold every cell of the row, and the row must
/// end left of the last column that a coordinate can name.
#[verifier::external_body]
pub(crate) fn render_line(line: &Line<'static>, area: Rect, buf: &mut Buffer)
    requires
        first_row(area, buffer_area(*old(buf))).spec_right() < u16::MAX,
        canvas_of(*old(buf)).holds(first_row(area, buffer_area(*old(buf)))),
    ensures
        buffer_area(*final(buf)) == buffer_area(*old(buf)),
        buffer_cells(*final(buf)) == line_painted(text_of(*line), area, canvas_of(*old(buf))),
        buffer_cells(*final(buf)).dom() == buffer_cells(*old(buf)).dom(),
        forall|x: int, y: int|
            !first_row(area, buffer_area(*old(buf))).covers(x, y) ==> #[trigger] buffer_cells(
                *final(buf),
            )[(x, y)]
                == buffer_cells(*old(buf))[(x, y)],
{
    let host_area = ratatui::layout::Rect { x: area.x, y: area.y, width: area.width, height: area.height };
    ratatui::widgets::WidgetRef::render_ref(line, host_area, buf);
}

} // verus!
