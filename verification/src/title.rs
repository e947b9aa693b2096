//! Title garnishes: a line of styled text at one of eight positions.
//!
//! Four positions lie over the widget and are drawn after it: [`Top`],
//! [`Bottom`], [`Left`] and [`Right`]. Put a border or padding behind such a
//! title to keep the widget clear of it. Four positions take a row or column
//! of their own, are drawn before the widget, and style the whole of what
//! they take: [`Above`], [`Below`], [`Before`] and [`After`].
//!
//! The margin keeps both ends of the title's row or column free, for the
//! corners of a border.

use vstd::prelude::*;
use vstd::std_specs::convert::FromSpecImpl;
use core::marker::PhantomData;
use std::borrow::Cow;
use crate::area::{sat_add, sat_sub, Rect};
use crate::canvas::{
    area_of, canvas_of, cleared, fill_style, holds_region, reset_cell, set_symbol, symbol_at, Canvas,
};
use crate::modifier::RenderModifier;
use crate::style::Style;
use crate::text::{
    clear_spans, clone_line, display_width, drawn_row, first_row, graphemes_of, line_alignment,
    line_alignment_of, line_default, line_graphemes, line_painted, line_raw, line_spans,
    line_style, line_style_of, line_width, pieces_of, push_span, raw_pieces, render_line,
    set_line_alignment, set_line_style, text_of, text_width, total_width, Alignment, Piece, Span,
    Text,
};
use ratatui::buffer::Buffer;
use ratatui::text::Line;

mod private;

verus! {

/// A place for a title. The eight positions of this module are all there
/// are.
pub trait TitlePosition: private::Sealed {
}

/// Over the widget's top row.
#[derive(Debug)]
pub struct Top {}

impl TitlePosition for Top {
}

/// Over the widget's bottom row.
#[derive(Debug)]
pub struct Bottom {}

impl TitlePosition for Bottom {
}

/// In a row of its own above the widget.
#[derive(Debug)]
pub struct Above {}

impl TitlePosition for Above {
}

/// In a row of its own below the widget.
#[derive(Debug)]
pub struct Below {}

impl TitlePosition for Below {
}

/// Over the widget's left column, written downwards.
#[derive(Debug)]
pub struct Left {}

impl TitlePosition for Left {
}

/// Over the widget's right column, written downwards.
#[derive(Debug)]
pub struct Right {}

impl TitlePosition for Right {
}

/// In a column of its own left of the widget, written downwards.
#[derive(Debug)]
pub struct Before {}

impl TitlePosition for Before {
}

/// In a column of its own right of the widget, written downwards.
#[derive(Debug)]
pub struct After {}

impl TitlePosition for After {
}

/// A line of text with a margin, for the position `Position`.
#[derive(Debug)]
pub struct Title<Position: TitlePosition> {
    pub line: Line<'static>,
    pub margin: u8,
    pub _position: PhantomData<Position>,
}

/// The row at height `y` that a title with this margin is drawn in: the
/// width of `area` less the margin at both ends, or the empty area at the
/// origin where the margins leave nothing.
pub open spec fn title_row(area: Rect, margin: u8, y: u16) -> Rect {
    if area.width <= 2 * margin {
        Rect::spec_zero()
    } else {
        Rect {
            x: sat_add(area.x as int, margin as int),
            y,
            width: (area.width - 2 * margin) as u16,
            height: 1,
        }
    }
}

/// The column at `x` that a title with this margin is drawn in: the height
/// of `area` less the margin at both ends, or the empty area at the origin
/// where the margins leave nothing.
pub open spec fn title_column(area: Rect, margin: u8, x: u16) -> Rect {
    if area.height <= 2 * margin {
        Rect::spec_zero()
    } else {
        Rect {
            x,
            y: sat_add(area.y as int, margin as int),
            width: 1,
            height: (area.height - 2 * margin) as u16,
        }
    }
}

/// The place `inner` for a title on `area`, or the empty area at the origin
/// where `area` itself is empty.
pub open spec fn unless_empty(area: Rect, inner: Rect) -> Rect {
    if area.spec_is_empty() {
        Rect::spec_zero()
    } else {
        inner
    }
}

/// The full row of `area` at height `y`: what a title in a row of its own
/// takes from the widget. An empty area has none.
pub open spec fn band_row(area: Rect, y: u16) -> Rect {
    unless_empty(area, Rect { x: area.x, y, width: area.width, height: 1 })
}

/// The full column of `area` at `x`: what a title in a column of its own
/// takes from the widget. An empty area has none.
pub open spec fn band_column(area: Rect, x: u16) -> Rect {
    unless_empty(area, Rect { x, y: area.y, width: 1, height: area.height })
}

/// The canvas after a line is drawn on `row`: in the part of the row that
/// is drawn on, what the toolkit draws there, and every other cell as it
/// was. Nothing is drawn where that part is empty or the canvas does not
/// hold all of its cells.
pub open spec fn row_painted(text: Text, row: Rect, canvas: Canvas) -> Canvas {
    let drawn = drawn_row(row, canvas.area);
    if drawn.spec_is_empty() || !canvas.holds(drawn) {
        canvas
    } else {
        Canvas {
            cells: Map::new(
                |p: (int, int)| canvas.cells.contains_key(p),
                |p: (int, int)| if drawn.covers(p.0, p.1) {
                    line_painted(text, drawn, canvas)[p]
                } else {
                    canvas.cells[p]
                },
            ),
            ..canvas
        }
    }
}

/// The row in which a column title starts: at the top, in the middle, or so
/// that it ends at the bottom.
pub open spec fn start_row(area: Rect, alignment: Alignment, width: int) -> u16 {
    match alignment {
        Alignment::Left => area.y,
        Alignment::Center => sat_add(area.y as int, sat_sub(area.height as int, width) as int / 2),
        Alignment::Right => sat_add(area.y as int, sat_sub(area.height as int, width) as int),
    }
}

/// The number of columns of a cluster, held at the largest coordinate.
pub open spec fn cluster_width(piece: Piece) -> u16 {
    if display_width(piece.content) > u16::MAX {
        u16::MAX
    } else {
        display_width(piece.content) as u16
    }
}

/// The canvas with the cells right of column `x` and left of column `end`,
/// in row `y`, reset.
pub open spec fn row_cleared(canvas: Canvas, x: int, end: int, y: int) -> Canvas {
    Canvas {
        cells: Map::new(
            |p: (int, int)| canvas.cells.contains_key(p),
            |p: (int, int)| if p.1 == y && x < p.0 < end {
                cleared(canvas.cells[p])
            } else {
                canvas.cells[p]
            },
        ),
        ..canvas
    }
}

/// The canvas after the cluster number `i` of a column title is drawn at
/// column `x`, row `y`.
///
/// The first cluster replaces the text of its cell. A later cluster that
/// takes no column is added to the text found in its cell, and the sum is
/// written one row up; where the canvas holds no cell at `x`, `y`, nothing
/// is written. Any other cluster replaces the text of its cell. A cluster
/// wider than one column resets the cells that it hides.
pub open spec fn cluster_painted(canvas: Canvas, piece: Piece, i: int, x: u16, y: u16, first: u16) -> Canvas {
    let here = canvas.cells[(x as int, y as int)].symbol;
    let held = canvas.cells.contains_key((x as int, y as int));
    let drawn = if i == 0 {
        canvas.put_symbol(x as int, y as int, piece.content, piece.style)
    } else if y == first {
        if held {
            canvas.put_symbol(x as int, y as int, here + piece.content, piece.style)
        } else {
            canvas
        }
    } else if display_width(piece.content) == 0 {
        if held {
            canvas.put_symbol(x as int, y - 1, here + piece.content, piece.style)
        } else {
            canvas
        }
    } else {
        canvas.put_symbol(x as int, y as int, piece.content, piece.style)
    };
    row_cleared(drawn, x as int, sat_add(x as int, cluster_width(piece) as int) as int, y as int)
}

/// The canvas after the clusters from number `i` on are drawn downwards
/// from row `y`, one row each, as long as their row lies above `bottom`.
pub open spec fn column_painted(
    clusters: Seq<Piece>,
    i: int,
    x: u16,
    y: u16,
    first: u16,
    bottom: u16,
    canvas: Canvas,
) -> Canvas
    decreases clusters.len() - i,
{
    if i < 0 || i >= clusters.len() || sat_add(y as int, 1) > bottom {
        canvas
    } else {
        column_painted(
            clusters,
            i + 1,
            x,
            sat_add(y as int, 1),
            first,
            bottom,
            cluster_painted(canvas, clusters[i], i, x, y, first),
        )
    }
}

/// The canvas after a title is written downwards into the area `column`,
/// from the row that its alignment gives. An empty `column` is left alone.
pub open spec fn text_column_painted(text: Text, column: Rect, canvas: Canvas) -> Canvas {
    let alignment = match text.alignment {
        Some(a) => a,
        None => Alignment::Left,
    };
    let first = start_row(column, alignment, total_width(text.spans) as int);
    if column.spec_is_empty() {
        canvas
    } else {
        column_painted(
            graphemes_of(text.spans, text.style),
            0,
            column.x,
            first,
            first,
            column.spec_bottom(),
            canvas,
        )
    }
}

/// Drawing a column of clusters leaves the canvas its area and its cells'
/// positions.
pub proof fn lemma_column_in_place(
    clusters: Seq<Piece>,
    i: int,
    x: u16,
    y: u16,
    first: u16,
    bottom: u16,
    canvas: Canvas,
)
    ensures
        column_painted(clusters, i, x, y, first, bottom, canvas).area == canvas.area,
        column_painted(clusters, i, x, y, first, bottom, canvas).cells.dom() == canvas.cells.dom(),
    decreases clusters.len() - i,
{
    if i < 0 || i >= clusters.len() || sat_add(y as int, 1) > bottom {
    } else {
        let next = cluster_painted(canvas, clusters[i], i, x, y, first);
        assert(next.cells.dom() =~= canvas.cells.dom());
        lemma_column_in_place(clusters, i + 1, x, sat_add(y as int, 1), first, bottom, next);
    }
}

impl<Position: TitlePosition> Title<Position> {
    /// The text of the title.
    pub open spec fn text(self) -> Text {
        text_of(self.line)
    }

    /// The place of a title along the top of `area`.
    pub open spec fn top_place(self, area: Rect) -> Rect {
        unless_empty(area, title_row(area, self.margin, area.y))
    }

    /// The place of a title along the bottom of `area`.
    pub open spec fn bottom_place(self, area: Rect) -> Rect {
        unless_empty(area, title_row(area, self.margin, sat_sub(area.spec_bottom() as int, 1)))
    }

    /// The place of a title down the left of `area`.
    pub open spec fn left_place(self, area: Rect) -> Rect {
        unless_empty(area, title_column(area, self.margin, area.x))
    }

    /// The place of a title down the right of `area`.
    pub open spec fn right_place(self, area: Rect) -> Rect {
        unless_empty(area, title_column(area, self.margin, sat_sub(area.spec_right() as int, 1)))
    }

    /// Whether the title's width can be written as a coordinate.
    pub open spec fn spec_fits(self) -> bool {
        total_width(line_spans(self.line)) <= u16::MAX
    }

    /// The canvas after the title is drawn across `row`.
    pub open spec fn across(self, row: Rect, canvas: Canvas) -> Canvas {
        row_painted(self.text(), row, canvas)
    }

    /// The canvas after the title is written down `column`. A title that is
    /// too wide for its width to be a coordinate is not written.
    pub open spec fn down(self, column: Rect, canvas: Canvas) -> Canvas {
        if self.spec_fits() {
            text_column_painted(self.text(), column, canvas)
        } else {
            canvas
        }
    }

    /// The canvas after the title has styled the whole row `band` and is
    /// drawn across `row`, a part of it.
    pub open spec fn across_band(self, band: Rect, row: Rect, canvas: Canvas) -> Canvas {
        self.across(row, canvas.fill_style(band, self.text().style))
    }

    /// The canvas after the title has styled the whole column `band` and is
    /// written down `column`, a part of it. A title that is too wide for its
    /// width to be a coordinate leaves the canvas as it is.
    pub open spec fn down_band(self, band: Rect, column: Rect, canvas: Canvas) -> Canvas {
        if self.spec_fits() {
            self.down(column, canvas.fill_style(band, self.text().style))
        } else {
            canvas
        }
    }

    /// Creates a title from a string, without style and without margin.
    pub fn raw(content: &str) -> (r: Self)
        ensures
            r.margin == 0,
            r.text() == (Text {
                style: Style::spec_new(),
                alignment: None,
                spans: raw_pieces(content@),
            }),
            content@.len() > 0 && !content@.contains('\n') ==> r.text().spans == seq![
                Piece { content: content@, style: Style::spec_new() },
            ],
    {
        Title { line: line_raw(content), margin: 0, _position: PhantomData }
    }

    /// Creates a title from a string, with the given style and without
    /// margin.
    pub fn styled(content: &str, style: Style) -> (r: Self)
        ensures
            r.margin == 0,
            r.text() == (Text { style, alignment: None, spans: raw_pieces(content@) }),
            content@.len() > 0 && !content@.contains('\n') ==> r.text().spans == seq![
                Piece { content: content@, style: Style::spec_new() },
            ],
    {
        let mut line = line_raw(content);
        set_line_style(&mut line, style);
        Title { line, margin: 0, _position: PhantomData }
    }

    /// Sets the margin at both ends of the title: left and right of a title
    /// that is written across, above and below one that is written
    /// downwards.
    #[must_use]
    pub fn margin(self, margin: u8) -> (r: Self)
        ensures
            r.margin == margin,
            r.line == self.line,
    {
        Title { line: self.line, margin, _position: PhantomData }
    }

    /// Replaces the spans of the title.
    #[must_use]
    pub fn spans(self, spans: Vec<Span>) -> (r: Self)
        ensures
            r.margin == self.margin,
            r.text().style == self.text().style,
            r.text().alignment == self.text().alignment,
            r.text().spans == Seq::new(spans@.len(), |i: int| spans@[i].piece()),
    {
        let mut line = self.line;
        clear_spans(&mut line);
        let mut i: usize = 0;
        while i < spans.len()
            invariant
                i <= spans.len(),
                line_style(line) == line_style(self.line),
                line_alignment(line) == line_alignment(self.line),
                line_spans(line) == Seq::new(i as nat, |k: int| spans@[k].piece()),
            decreases spans.len() - i,
        {
            push_span(&mut line, spans[i].content.as_str(), spans[i].style);
            i = i + 1;
            assert(line_spans(line) =~= Seq::new(i as nat, |k: int| spans@[k].piece()));
        }
        Title { line, margin: self.margin, _position: PhantomData }
    }

    /// Lays `style` over the title's style: what `style` sets, wins.
    #[must_use]
    pub fn patch_style(self, style: Style) -> (r: Self)
        ensures
            r.margin == self.margin,
            r.text() == (Text { style: self.text().style.spec_patch(style), ..self.text() }),
    {
        let mut line = self.line;
        let patched = line_style_of(&line).patch(style);
        set_line_style(&mut line, patched);
        Title { line, margin: self.margin, _position: PhantomData }
    }

    /// Lays the style that puts everything back over the title's style.
    #[must_use]
    pub fn reset_style(self) -> (r: Self)
        ensures
            r.margin == self.margin,
            r.text().alignment == self.text().alignment,
            r.text().spans == self.text().spans,
            r.text().style.fg is Some,
            r.text().style.bg is Some,
            r.text().style.add_modifier == self.text().style.add_modifier
                & !crate::style::ALL_MODIFIERS,
            r.text().style.sub_modifier == self.text().style.sub_modifier
                | crate::style::ALL_MODIFIERS,
    {
        let ghost add = self.text().style.add_modifier;
        let ghost sub = self.text().style.sub_modifier;
        assert((add & !0x1ffu16) | 0u16 == add & !0x1ffu16) by (bit_vector);
        assert((sub & !0u16) | 0x1ffu16 == sub | 0x1ffu16) by (bit_vector);
        self.patch_style(Style::reset())
    }

    /// Sets the alignment. For a title that is written downwards, `Left` is
    /// the top and `Right` the bottom.
    #[must_use]
    pub fn alignment(self, alignment: Alignment) -> (r: Self)
        ensures
            r.margin == self.margin,
            r.text() == (Text { alignment: Some(alignment), ..self.text() }),
    {
        let mut line = self.line;
        set_line_alignment(&mut line, alignment);
        Title { line, margin: self.margin, _position: PhantomData }
    }

    /// Aligns the title to the left, or to the top.
    #[must_use]
    pub fn left_aligned(self) -> (r: Self)
        ensures
            r.margin == self.margin,
            r.text() == (Text { alignment: Some(Alignment::Left), ..self.text() }),
    {
        self.alignment(Alignment::Left)
    }

    /// Puts the title in the middle.
    #[must_use]
    pub fn centered(self) -> (r: Self)
        ensures
            r.margin == self.margin,
            r.text() == (Text { alignment: Some(Alignment::Center), ..self.text() }),
    {
        self.alignment(Alignment::Center)
    }

    /// Aligns the title to the right, or to the bottom.
    #[must_use]
    pub fn right_aligned(self) -> (r: Self)
        ensures
            r.margin == self.margin,
            r.text() == (Text { alignment: Some(Alignment::Right), ..self.text() }),
    {
        self.alignment(Alignment::Right)
    }

    /// The title's style.
    pub fn style(&self) -> (r: Style)
        ensures
            r == self.text().style,
    {
        line_style_of(&self.line)
    }

    /// Replaces the title's style.
    #[must_use]
    pub fn set_style(self, style: Style) -> (r: Self)
        ensures
            r.margin == self.margin,
            r.text() == (Text { style, ..self.text() }),
    {
        let mut line = self.line;
        set_line_style(&mut line, style);
        Title { line, margin: self.margin, _position: PhantomData }
    }

    /// Whether the title's width can be written as a coordinate. A title
    /// that is written downwards is drawn only if it can.
    pub fn fits(&self) -> (r: bool)
        ensures
            r == self.spec_fits(),
    {
        line_width(&self.line).is_some()
    }

    /// The row for a title along the top of `area`.
    pub fn calculate_top_area(&self, area: Rect) -> (r: Rect)
        ensures
            r == title_row(area, self.margin, area.y),
    {
        self.calculate_horizontal_area(area, area.y)
    }

    /// The row for a title along the bottom of `area`.
    pub fn calculate_bottom_area(&self, area: Rect) -> (r: Rect)
        ensures
            r == title_row(area, self.margin, sat_sub(area.spec_bottom() as int, 1)),
    {
        let y: u16 = area.bottom().saturating_sub(1);
        self.calculate_horizontal_area(area, y)
    }

    /// The row at height `y` for a title across `area`, between the
    /// margins.
    pub fn calculate_horizontal_area(&self, area: Rect, y: u16) -> (r: Rect)
        ensures
            r == title_row(area, self.margin, y),
    {
        let margin: u16 = self.margin as u16;
        let double_margin: u16 = margin * 2;
        if area.width <= double_margin {
            return Rect::zero();
        }
        let x: u16 = area.x.saturating_add(margin);
        let width: u16 = area.width.saturating_sub(double_margin);
        Rect { x, y, width, height: 1 }
    }

    /// The column for a title along the left of `area`.
    pub fn calculate_left_area(&self, area: Rect) -> (r: Rect)
        ensures
            r == title_column(area, self.margin, area.x),
    {
        self.calculate_vertical_area(area, area.x)
    }

    /// The column for a title along the right of `area`.
    pub fn calculate_right_area(&self, area: Rect) -> (r: Rect)
        ensures
            r == title_column(area, self.margin, sat_sub(area.spec_right() as int, 1)),
    {
        let x: u16 = area.right().saturating_sub(1);
        self.calculate_vertical_area(area, x)
    }

    /// The column at `x` for a title down `area`, between the margins.
    pub fn calculate_vertical_area(&self, area: Rect, x: u16) -> (r: Rect)
        ensures
            r == title_column(area, self.margin, x),
    {
        let margin: u16 = self.margin as u16;
        let double_margin: u16 = margin * 2;
        if area.height <= double_margin {
            return Rect::zero();
        }
        let y: u16 = area.y.saturating_add(margin);
        let height: u16 = area.height.saturating_sub(double_margin);
        Rect { x, y, width: 1, height }
    }

    /// Writes the title downwards into `area`, one cluster to a row. An
    /// empty area is left alone.
    ///
    /// The title's width must be a coordinate: see [`Title::fits`].
    pub fn render_vertical(&self, area: Rect, buffer: &mut Buffer, alignment: Alignment)
        requires
            self.spec_fits(),
        ensures
            canvas_of(*final(buffer)) == (if area.spec_is_empty() {
                canvas_of(*old(buffer))
            } else {
                let first = start_row(area, alignment, total_width(self.text().spans) as int);
                column_painted(
                    graphemes_of(self.text().spans, self.text().style),
                    0,
                    area.x,
                    first,
                    first,
                    area.spec_bottom(),
                    canvas_of(*old(buffer)),
                )
            }),
    {
        if area.is_empty() {
            return ;
        }
        let line_width: u16 = match line_width(&self.line) {
            Some(width) => width,
            None => u16::MAX,
        };
        let start_y: u16 = match alignment {
            Alignment::Left => area.y,
            Alignment::Center => area.y.saturating_add(area.height.saturating_sub(line_width) / 2),
            Alignment::Right => area.y.saturating_add(area.height.saturating_sub(line_width)),
        };
        let x: u16 = area.x;
        let bottom: u16 = area.bottom();
        let graphemes = line_graphemes(&self.line);
        let ghost clusters = graphemes_of(self.text().spans, self.text().style);
        let ghost goal = column_painted(clusters, 0, x, start_y, start_y, bottom, canvas_of(*buffer));
        let mut y: u16 = start_y;
        let mut i: usize = 0;
        while i < graphemes.len()
            invariant
                i <= graphemes.len(),
                start_y <= y,
                pieces_of(graphemes@) == clusters,
                goal == column_painted(clusters, i as int, x, y, start_y, bottom, canvas_of(*buffer)),
            ensures
                goal == canvas_of(*buffer),
            decreases graphemes.len() - i,
        {
            let grapheme = &graphemes[i];
            assert(clusters[i as int] == grapheme.piece()) by {
                assert(pieces_of(graphemes@)[i as int] == graphemes@[i as int].piece());
            }
            let width: usize = text_width(grapheme.symbol.as_str());
            let symbol_width: u16 = if width > 0xffff { u16::MAX } else { width as u16 };
            let next_y: u16 = y.saturating_add(1);
            let next_x: u16 = x.saturating_add(symbol_width);
            if next_y > bottom {
                break ;
            }
            let ghost before = canvas_of(*buffer);
            if i == 0 {
                set_symbol(buffer, x, y, grapheme.symbol.as_str(), grapheme.style);
            } else if y == start_y {
                match symbol_at(buffer, x, y) {
                    Some(found) => {
                        let symbol = found.concat(grapheme.symbol.as_str());
                        set_symbol(buffer, x, y, symbol.as_str(), grapheme.style);
                    },
                    None => {},
                }
            } else if width == 0 {
                match symbol_at(buffer, x, y) {
                    Some(found) => {
                        let symbol = found.concat(grapheme.symbol.as_str());
                        set_symbol(buffer, x, y - 1, symbol.as_str(), grapheme.style);
                    },
                    None => {},
                }
            } else {
                set_symbol(buffer, x, y, grapheme.symbol.as_str(), grapheme.style);
            }
            clear_between(buffer, x, next_x, y);
            assert(canvas_of(*buffer) == cluster_painted(before, clusters[i as int], i as int, x, y, start_y));
            y = next_y;
            i = i + 1;
        }
    }

    /// Writes the title downwards into `area` if its width is a coordinate,
    /// and says whether it did. A title that does not fit leaves the buffer
    /// as it is.
    pub fn try_render_vertical(&self, area: Rect, buffer: &mut Buffer, alignment: Alignment) -> (drawn:
        bool)
        ensures
            drawn == self.spec_fits(),
            canvas_of(*final(buffer)) == (if !drawn || area.spec_is_empty() {
                canvas_of(*old(buffer))
            } else {
                let first = start_row(area, alignment, total_width(self.text().spans) as int);
                column_painted(
                    graphemes_of(self.text().spans, self.text().style),
                    0,
                    area.x,
                    first,
                    first,
                    area.spec_bottom(),
                    canvas_of(*old(buffer)),
                )
            }),
    {
        if self.fits() {
            self.render_vertical(area, buffer, alignment);
            true
        } else {
            false
        }
    }

    /// Draws the title across `row`: on the part of the row that the buffer
    /// shares, less its last column where that is the last column a
    /// coordinate can name. Nothing is drawn where that part is empty or the
    /// buffer does not hold all of its cells.
    fn paint_across(&self, row: Rect, buffer: &mut Buffer)
        ensures
            canvas_of(*final(buffer)) == self.across(row, canvas_of(*old(buffer))),
    {
        let ghost start = canvas_of(*buffer);
        let shared = row.intersection(area_of(buffer));
        let height: u16 = if shared.height == 0 { 0 } else { 1 };
        let width: u16 = if shared.width > 0 && shared.width >= u16::MAX - shared.x {
            shared.width - 1
        } else {
            shared.width
        };
        let drawn = Rect { x: shared.x, y: shared.y, width, height };
        if !drawn.is_empty() && holds_region(buffer, drawn) {
            assert(first_row(drawn, start.area) == drawn);
            render_line(&self.line, drawn, buffer);
            assert(canvas_of(*buffer).cells =~= self.across(row, start).cells);
        }
    }

    /// Writes the title down `column`. An empty column is left alone, and so
    /// is the buffer where the title does not fit.
    fn paint_down(&self, column: Rect, buffer: &mut Buffer)
        ensures
            canvas_of(*final(buffer)) == self.down(column, canvas_of(*old(buffer))),
    {
        if self.fits() {
            let alignment = match line_alignment_of(&self.line) {
                Some(a) => a,
                None => Alignment::Left,
            };
            self.render_vertical(column, buffer, alignment);
        }
    }

    /// Styles the whole row `band` and draws the title across `row`.
    fn paint_across_band(&self, band: Rect, row: Rect, buffer: &mut Buffer)
        ensures
            canvas_of(*final(buffer)) == self.across_band(band, row, canvas_of(*old(buffer))),
    {
        fill_style(buffer, band, self.style());
        self.paint_across(row, buffer);
    }

    /// Styles the whole column `band` and writes the title down `column`,
    /// or leaves the buffer as it is where the title does not fit.
    fn paint_down_band(&self, band: Rect, column: Rect, buffer: &mut Buffer)
        ensures
            canvas_of(*final(buffer)) == self.down_band(band, column, canvas_of(*old(buffer))),
    {
        if self.fits() {
            fill_style(buffer, band, self.style());
            self.paint_down(column, buffer);
        }
    }

    /// A title leaves the canvas its area and its cells' positions, and
    /// paints nothing on an empty row or column, or an empty band.
    pub proof fn lemma_title_in_place(self, band: Rect, place: Rect, canvas: Canvas)
        ensures
            self.across(place, canvas).area == canvas.area,
            self.across(place, canvas).cells.dom() == canvas.cells.dom(),
            self.down(place, canvas).area == canvas.area,
            self.down(place, canvas).cells.dom() == canvas.cells.dom(),
            self.across_band(band, place, canvas).area == canvas.area,
            self.across_band(band, place, canvas).cells.dom() == canvas.cells.dom(),
            self.down_band(band, place, canvas).area == canvas.area,
            self.down_band(band, place, canvas).cells.dom() == canvas.cells.dom(),
            place.spec_is_empty() ==> self.across(place, canvas) == canvas,
            place.spec_is_empty() ==> self.down(place, canvas) == canvas,
            place.spec_is_empty() && band.spec_is_empty() ==> self.across_band(band, place, canvas)
                == canvas,
            place.spec_is_empty() && band.spec_is_empty() ==> self.down_band(band, place, canvas)
                == canvas,
    {
        let text = self.text();
        let under = canvas.fill_style(band, text.style);
        assert(under.cells.dom() =~= canvas.cells.dom());
        if band.spec_is_empty() {
            assert(under.cells =~= canvas.cells);
        }
        assert(self.across(place, canvas).cells.dom() =~= canvas.cells.dom());
        assert(self.across(place, under).cells.dom() =~= canvas.cells.dom());
        let alignment = match text.alignment {
            Some(a) => a,
            None => Alignment::Left,
        };
        let first = start_row(place, alignment, total_width(text.spans) as int);
        lemma_column_in_place(
            graphemes_of(text.spans, text.style),
            0,
            place.x,
            first,
            first,
            place.spec_bottom(),
            canvas,
        );
        lemma_column_in_place(
            graphemes_of(text.spans, text.style),
            0,
            place.x,
            first,
            first,
            place.spec_bottom(),
            under,
        );
    }
}

/// Resets the cells right of column `x` and left of column `end`, in row
/// `y`.
fn clear_between(buffer: &mut Buffer, x: u16, end: u16, y: u16)
    ensures
        canvas_of(*final(buffer)) == row_cleared(canvas_of(*old(buffer)), x as int, end as int, y as int),
{
    let ghost start = canvas_of(*buffer);
    if x == u16::MAX {
        assert(canvas_of(*buffer).cells =~= row_cleared(start, x as int, end as int, y as int).cells);
        return ;
    }
    let mut hidden: u16 = x + 1;
    while hidden < end
        invariant
            x < hidden,
            hidden <= end || hidden == x + 1,
            canvas_of(*buffer).area == start.area,
            canvas_of(*buffer).cells =~= Map::new(
                |p: (int, int)| start.cells.contains_key(p),
                |p: (int, int)| if p.1 == y && x < p.0 < hidden {
                    cleared(start.cells[p])
                } else {
                    start.cells[p]
                },
            ),
        decreases end - hidden,
    {
        reset_cell(buffer, hidden, y);
        hidden = hidden + 1;
    }
    assert(canvas_of(*buffer).cells =~= row_cleared(start, x as int, end as int, y as int).cells);
}

impl<Position: TitlePosition> Clone for Title<Position> {
    fn clone(&self) -> (r: Self)
        ensures
            r.line == self.line,
            r.margin == self.margin,
    {
        Title { line: clone_line(&self.line), margin: self.margin, _position: PhantomData }
    }
}

impl<Position: TitlePosition> Default for Title<Position> {
    /// A title without text, style, alignment or margin.
    fn default() -> (r: Self)
        ensures
            r.margin == 0,
            r.text() == (Text {
                style: Style::spec_new(),
                alignment: None,
                spans: Seq::<Piece>::empty(),
            }),
    {
        Title { line: line_default(), margin: 0, _position: PhantomData }
    }
}

/// Drawn over the widget's top row; takes no space.
impl RenderModifier for Title<Top> {
    open spec fn area_after(&self, area: Rect) -> Rect {
        area
    }

    open spec fn painted_before(&self, area: Rect, canvas: Canvas) -> Canvas {
        canvas
    }

    open spec fn painted_after(&self, area: Rect, canvas: Canvas) -> Canvas {
        self.across(self.top_place(area), canvas)
    }

    proof fn area_shrinks(&self, area: Rect) {
    }

    proof fn paints_in_place(&self, area: Rect, canvas: Canvas) {
        self.lemma_title_in_place(Rect::spec_zero(), self.top_place(area), canvas);
    }

    fn modify_area(&self, area: Rect) -> (r: Rect) {
        area
    }

    fn before_render(&self, area: Rect, buffer: &mut Buffer) {
    }

    fn after_render(&self, area: Rect, buffer: &mut Buffer) {
        let place = if area.is_empty() {
            Rect::zero()
        } else {
            self.calculate_top_area(area)
        };
        self.paint_across(place, buffer);
    }
}

/// Drawn over the widget's bottom row; takes no space.
impl RenderModifier for Title<Bottom> {
    open spec fn area_after(&self, area: Rect) -> Rect {
        area
    }

    open spec fn painted_before(&self, area: Rect, canvas: Canvas) -> Canvas {
        canvas
    }

    open spec fn painted_after(&self, area: Rect, canvas: Canvas) -> Canvas {
        self.across(self.bottom_place(area), canvas)
    }

    proof fn area_shrinks(&self, area: Rect) {
    }

    proof fn paints_in_place(&self, area: Rect, canvas: Canvas) {
        self.lemma_title_in_place(Rect::spec_zero(), self.bottom_place(area), canvas);
    }

    fn modify_area(&self, area: Rect) -> (r: Rect) {
        area
    }

    fn before_render(&self, area: Rect, buffer: &mut Buffer) {
    }

    fn after_render(&self, area: Rect, buffer: &mut Buffer) {
        let place = if area.is_empty() {
            Rect::zero()
        } else {
            self.calculate_bottom_area(area)
        };
        self.paint_across(place, buffer);
    }
}

/// Drawn before the widget in the top row, which is taken from the widget and
/// styled over its whole width; the text stands between the margins.
impl RenderModifier for Title<Above> {
    open spec fn area_after(&self, area: Rect) -> Rect {
        Rect { y: sat_add(area.y as int, 1), height: sat_sub(area.height as int, 1), ..area }
    }

    open spec fn painted_before(&self, area: Rect, canvas: Canvas) -> Canvas {
        self.across_band(band_row(area, area.y), self.top_place(area), canvas)
    }

    open spec fn painted_after(&self, area: Rect, canvas: Canvas) -> Canvas {
        canvas
    }

    proof fn area_shrinks(&self, area: Rect) {
    }

    proof fn paints_in_place(&self, area: Rect, canvas: Canvas) {
        self.lemma_title_in_place(band_row(area, area.y), self.top_place(area), canvas);
    }

    fn modify_area(&self, area: Rect) -> (r: Rect) {
        Rect {
            x: area.x,
            y: area.y.saturating_add(1),
            width: area.width,
            height: area.height.saturating_sub(1),
        }
    }

    fn before_render(&self, area: Rect, buffer: &mut Buffer) {
        let (band, place) = if area.is_empty() {
            (Rect::zero(), Rect::zero())
        } else {
            (Rect { x: area.x, y: area.y, width: area.width, height: 1 }, self.calculate_top_area(area))
        };
        self.paint_across_band(band, place, buffer);
    }

    fn after_render(&self, area: Rect, buffer: &mut Buffer) {
    }
}

/// Drawn before the widget in the bottom row, which is taken from the widget
/// and styled over its whole width; the text stands between the margins.
impl RenderModifier for Title<Below> {
    open spec fn area_after(&self, area: Rect) -> Rect {
        Rect { height: sat_sub(area.height as int, 1), ..area }
    }

    open spec fn painted_before(&self, area: Rect, canvas: Canvas) -> Canvas {
        self.across_band(band_row(area, sat_sub(area.spec_bottom() as int, 1)), self.bottom_place(area), canvas)
    }

    open spec fn painted_after(&self, area: Rect, canvas: Canvas) -> Canvas {
        canvas
    }

    proof fn area_shrinks(&self, area: Rect) {
    }

    proof fn paints_in_place(&self, area: Rect, canvas: Canvas) {
        self.lemma_title_in_place(band_row(area, sat_sub(area.spec_bottom() as int, 1)), self.bottom_place(area), canvas);
    }

    fn modify_area(&self, area: Rect) -> (r: Rect) {
        Rect { x: area.x, y: area.y, width: area.width, height: area.height.saturating_sub(1) }
    }

    fn before_render(&self, area: Rect, buffer: &mut Buffer) {
        let (band, place) = if area.is_empty() {
            (Rect::zero(), Rect::zero())
        } else {
            (Rect {
                    x: area.x,
                    y: area.bottom().saturating_sub(1),
                    width: area.width,
                    height: 1,
                }, self.calculate_bottom_area(area))
        };
        self.paint_across_band(band, place, buffer);
    }

    fn after_render(&self, area: Rect, buffer: &mut Buffer) {
    }
}

/// Written down the widget's left column, over the widget; takes no space.
impl RenderModifier for Title<Left> {
    open spec fn area_after(&self, area: Rect) -> Rect {
        area
    }

    open spec fn painted_before(&self, area: Rect, canvas: Canvas) -> Canvas {
        canvas
    }

    open spec fn painted_after(&self, area: Rect, canvas: Canvas) -> Canvas {
        self.down(self.left_place(area), canvas)
    }

    proof fn area_shrinks(&self, area: Rect) {
    }

    proof fn paints_in_place(&self, area: Rect, canvas: Canvas) {
        self.lemma_title_in_place(Rect::spec_zero(), self.left_place(area), canvas);
    }

    fn modify_area(&self, area: Rect) -> (r: Rect) {
        area
    }

    fn before_render(&self, area: Rect, buffer: &mut Buffer) {
    }

    fn after_render(&self, area: Rect, buffer: &mut Buffer) {
        let place = if area.is_empty() {
            Rect::zero()
        } else {
            self.calculate_left_area(area)
        };
        self.paint_down(place, buffer);
    }
}

/// Written down the widget's right column, over the widget; takes no space.
impl RenderModifier for Title<Right> {
    open spec fn area_after(&self, area: Rect) -> Rect {
        area
    }

    open spec fn painted_before(&self, area: Rect, canvas: Canvas) -> Canvas {
        canvas
    }

    open spec fn painted_after(&self, area: Rect, canvas: Canvas) -> Canvas {
        self.down(self.right_place(area), canvas)
    }

    proof fn area_shrinks(&self, area: Rect) {
    }

    proof fn paints_in_place(&self, area: Rect, canvas: Canvas) {
        self.lemma_title_in_place(Rect::spec_zero(), self.right_place(area), canvas);
    }

    fn modify_area(&self, area: Rect) -> (r: Rect) {
        area
    }

    fn before_render(&self, area: Rect, buffer: &mut Buffer) {
    }

    fn after_render(&self, area: Rect, buffer: &mut Buffer) {
        let place = if area.is_empty() {
            Rect::zero()
        } else {
            self.calculate_right_area(area)
        };
        self.paint_down(place, buffer);
    }
}

/// Written before the widget down the left column, which is taken from the
/// widget and styled over its whole height; the text stands between the
/// margins.
impl RenderModifier for Title<Before> {
    open spec fn area_after(&self, area: Rect) -> Rect {
        Rect { x: sat_add(area.x as int, 1), width: sat_sub(area.width as int, 1), ..area }
    }

    open spec fn painted_before(&self, area: Rect, canvas: Canvas) -> Canvas {
        self.down_band(band_column(area, area.x), self.left_place(area), canvas)
    }

    open spec fn painted_after(&self, area: Rect, canvas: Canvas) -> Canvas {
        canvas
    }

    proof fn area_shrinks(&self, area: Rect) {
    }

    proof fn paints_in_place(&self, area: Rect, canvas: Canvas) {
        self.lemma_title_in_place(band_column(area, area.x), self.left_place(area), canvas);
    }

    fn modify_area(&self, area: Rect) -> (r: Rect) {
        Rect {
            x: area.x.saturating_add(1),
            y: area.y,
            width: area.width.saturating_sub(1),
            height: area.height,
        }
    }

    fn before_render(&self, area: Rect, buffer: &mut Buffer) {
        let (band, place) = if area.is_empty() {
            (Rect::zero(), Rect::zero())
        } else {
            (Rect { x: area.x, y: area.y, width: 1, height: area.height }, self.calculate_left_area(area))
        };
        self.paint_down_band(band, place, buffer);
    }

    fn after_render(&self, area: Rect, buffer: &mut Buffer) {
    }
}

/// Written before the widget down the right column, which is taken from the
/// widget and styled over its whole height; the text stands between the
/// margins.
impl RenderModifier for Title<After> {
    open spec fn area_after(&self, area: Rect) -> Rect {
        Rect { width: sat_sub(area.width as int, 1), ..area }
    }

    open spec fn painted_before(&self, area: Rect, canvas: Canvas) -> Canvas {
        self.down_band(band_column(area, sat_sub(area.spec_right() as int, 1)), self.right_place(area), canvas)
    }

    open spec fn painted_after(&self, area: Rect, canvas: Canvas) -> Canvas {
        canvas
    }

    proof fn area_shrinks(&self, area: Rect) {
    }

    proof fn paints_in_place(&self, area: Rect, canvas: Canvas) {
        self.lemma_title_in_place(band_column(area, sat_sub(area.spec_right() as int, 1)), self.right_place(area), canvas);
    }

    fn modify_area(&self, area: Rect) -> (r: Rect) {
        Rect { x: area.x, y: area.y, width: area.width.saturating_sub(1), height: area.height }
    }

    fn before_render(&self, area: Rect, buffer: &mut Buffer) {
        let (band, place) = if area.is_empty() {
            (Rect::zero(), Rect::zero())
        } else {
            (Rect {
                    x: area.right().saturating_sub(1),
                    y: area.y,
                    width: 1,
                    height: area.height,
                }, self.calculate_right_area(area))
        };
        self.paint_down_band(band, place, buffer);
    }

    fn after_render(&self, area: Rect, buffer: &mut Buffer) {
    }
}

impl<Position: TitlePosition> From<Line<'static>> for Title<Position> {
    /// A title that shows the line, without margin.
    fn from(line: Line<'static>) -> (r: Self) {
        Title { line, margin: 0, _position: PhantomData }
    }
}

impl<Position: TitlePosition> FromSpecImpl<Line<'static>> for Title<Position> {
    open spec fn obeys_from_spec() -> bool {
        true
    }

    open spec fn from_spec(line: Line<'static>) -> Self {
        Title { line, margin: 0, _position: PhantomData }
    }
}

impl<Position: TitlePosition> From<String> for Title<Position> {
    /// A title from a string, as [`Title::raw`] makes it.
    fn from(s: String) -> (r: Self)
        ensures
            r.margin == 0,
            r.text() == (Text {
                style: Style::spec_new(),
                alignment: None,
                spans: raw_pieces(s@),
            }),
    {
        Title::raw(s.as_str())
    }
}

impl<Position: TitlePosition> FromSpecImpl<String> for Title<Position> {
    open spec fn obeys_from_spec() -> bool {
        false
    }

    open spec fn from_spec(s: String) -> Self {
        arbitrary()
    }
}

impl<'a, Position: TitlePosition> From<&'a str> for Title<Position> {
    /// A title from a string, as [`Title::raw`] makes it.
    fn from(s: &'a str) -> (r: Self)
        ensures
            r.margin == 0,
            r.text() == (Text {
                style: Style::spec_new(),
                alignment: None,
                spans: raw_pieces(s@),
            }),
    {
        Title::raw(s)
    }
}

impl<'a, Position: TitlePosition> FromSpecImpl<&'a str> for Title<Position> {
    open spec fn obeys_from_spec() -> bool {
        false
    }

    open spec fn from_spec(s: &'a str) -> Self {
        arbitrary()
    }
}

impl<Position: TitlePosition> From<Vec<Span>> for Title<Position> {
    /// A title of the given spans, without style, alignment or margin.
    fn from(spans: Vec<Span>) -> (r: Self)
        ensures
            r.margin == 0,
            r.text() == (Text {
                style: Style::spec_new(),
                alignment: None,
                spans: Seq::new(spans@.len(), |i: int| spans@[i].piece()),
            }),
    {
        let title: Title<Position> = Default::default();
        title.spans(spans)
    }
}

impl<Position: TitlePosition> FromSpecImpl<Vec<Span>> for Title<Position> {
    open spec fn obeys_from_spec() -> bool {
        false
    }

    open spec fn from_spec(spans: Vec<Span>) -> Self {
        arbitrary()
    }
}

impl<Position: TitlePosition> From<Span> for Title<Position> {
    /// A title of the one span, without style, alignment or margin.
    fn from(span: Span) -> (r: Self)
        ensures
            r.margin == 0,
            r.text() == (Text {
                style: Style::spec_new(),
                alignment: None,
                spans: seq![span.piece()],
            }),
    {
        let mut spans: Vec<Span> = Vec::new();
        spans.push(span);
        let title: Title<Position> = Default::default();
        let r = title.spans(spans);
        assert(r.text().spans =~= seq![span.piece()]);
        r
    }
}

impl<Position: TitlePosition> FromSpecImpl<Span> for Title<Position> {
    open spec fn obeys_from_spec() -> bool {
        false
    }

    open spec fn from_spec(span: Span) -> Self {
        arbitrary()
    }
}

impl<'a, Position: TitlePosition> From<Cow<'a, str>> for Title<Position> {
    /// A title from a string, as [`Title::raw`] makes it.
    fn from(s: Cow<'a, str>) -> (r: Self)
        ensures
            r.margin == 0,
            r.text() == (Text {
                style: Style::spec_new(),
                alignment: None,
                spans: raw_pieces(s@),
            }),
    {
        match s {
            Cow::Borrowed(borrowed) => Title::raw(borrowed),
            Cow::Owned(owned) => Title::raw(owned.as_str()),
        }
    }
}

impl<'a, Position: TitlePosition> FromSpecImpl<Cow<'a, str>> for Title<Position> {
    open spec fn obeys_from_spec() -> bool {
        false
    }

    open spec fn from_spec(s: Cow<'a, str>) -> Self {
        arbitrary()
    }
}

} // verus!
