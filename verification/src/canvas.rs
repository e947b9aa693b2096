//! The cell grid that garnishes paint on, and what each paint call does to it.
//!
//! The grid itself is the host toolkit's buffer. Contracts speak of it
//! through its [`Canvas`]: the area it spans and the cell it holds at each
//! position.

use vstd::prelude::*;
use crate::area::Rect;
use crate::style::Style;
use ratatui::buffer::Buffer;
use ratatui::style::Color;

verus! {

/// The host toolkit's grid of cells.
#[verifier::external_type_specification]
#[verifier::external_body]
pub struct ExBuffer(ratatui::buffer::Buffer);

/// What one cell shows: its text, its colours, its text attributes as a bit
/// set, and whether the terminal is to skip it.
pub struct Cell {
    pub symbol: Seq<char>,
    pub fg: Color,
    pub bg: Color,
    pub modifier: u16,
    pub skip: bool,
}

/// The area that a buffer spans.
pub uninterp spec fn buffer_area(buf: Buffer) -> Rect;

/// The cells that a buffer holds, by column and row.
pub uninterp spec fn buffer_cells(buf: Buffer) -> Map<(int, int), Cell>;

/// A buffer as contracts see it.
pub struct Canvas {
    pub area: Rect,
    pub cells: Map<(int, int), Cell>,
}

/// The canvas of a buffer.
pub open spec fn canvas_of(buf: Buffer) -> Canvas {
    Canvas { area: buffer_area(buf), cells: buffer_cells(buf) }
}

impl Cell {
    /// The cell with `c` as its whole text.
    pub open spec fn with_char(self, c: char) -> Cell {
        Cell { symbol: seq![c], ..self }
    }

    /// The cell with `symbol` as its text.
    pub open spec fn with_symbol(self, symbol: Seq<char>) -> Cell {
        Cell { symbol, ..self }
    }

    /// The cell after `style` is applied: colours replaced where the style
    /// has them, attributes switched on, then off.
    pub open spec fn with_style(self, style: Style) -> Cell {
        Cell {
            fg: if style.fg is Some { style.fg->0 } else { self.fg },
            bg: if style.bg is Some { style.bg->0 } else { self.bg },
            modifier: (self.modifier | style.add_modifier) & !style.sub_modifier,
            ..self
        }
    }
}

impl Canvas {
    /// The cell at column `x`, row `y` shows `c`; a position that the canvas
    /// does not hold is passed over.
    pub open spec fn put_char(self, x: int, y: int, c: char) -> Canvas {
        if self.cells.contains_key((x, y)) {
            Canvas { cells: self.cells.insert((x, y), self.cells[(x, y)].with_char(c)), ..self }
        } else {
            self
        }
    }

    /// The cell at column `x`, row `y` shows `symbol` and has `style`
    /// applied; a position that the canvas does not hold is passed over.
    pub open spec fn put_symbol(self, x: int, y: int, symbol: Seq<char>, style: Style) -> Canvas {
        if self.cells.contains_key((x, y)) {
            Canvas {
                cells: self.cells.insert((x, y), self.cells[(x, y)].with_symbol(symbol).with_style(style)),
                ..self
            }
        } else {
            self
        }
    }

    /// The cell at column `x`, row `y` has `style` applied; a position that
    /// the canvas does not hold is passed over.
    pub open spec fn put_style(self, x: int, y: int, style: Style) -> Canvas {
        if self.cells.contains_key((x, y)) {
            Canvas { cells: self.cells.insert((x, y), self.cells[(x, y)].with_style(style)), ..self }
        } else {
            self
        }
    }

    /// Whether the canvas holds a cell at every position of `region`.
    pub open spec fn holds(self, region: Rect) -> bool {
        forall|x: int, y: int| region.covers(x, y) ==> self.cells.contains_key((x, y))
    }

    /// The cell at column `x`, row `y` is reset; a position that the canvas
    /// does not hold is passed over.
    pub open spec fn put_cleared(self, x: int, y: int) -> Canvas {
        if self.cells.contains_key((x, y)) {
            Canvas { cells: self.cells.insert((x, y), cleared(self.cells[(x, y)])), ..self }
        } else {
            self
        }
    }

    /// Every cell of `region` that the canvas holds shows `c`.
    pub open spec fn fill_char(self, region: Rect, c: char) -> Canvas {
        Canvas {
            cells: Map::new(
                |p: (int, int)| self.cells.contains_key(p),
                |p: (int, int)| if region.covers(p.0, p.1) {
                    self.cells[p].with_char(c)
                } else {
                    self.cells[p]
                },
            ),
            ..self
        }
    }

    /// Every cell of `region` that the canvas holds has `style` applied.
    pub open spec fn fill_style(self, region: Rect, style: Style) -> Canvas {
        Canvas {
            cells: Map::new(
                |p: (int, int)| self.cells.contains_key(p),
                |p: (int, int)| if region.covers(p.0, p.1) {
                    self.cells[p].with_style(style)
                } else {
                    self.cells[p]
                },
            ),
            ..self
        }
    }
}

/// Reads the `area` field of the buffer. The contract also records that
/// the buffer finds no cell at a position outside its area. (Inside the
/// area it finds one wherever its content reaches, which for a buffer that
/// the toolkit made is everywhere.)
#[verifier::external_body]
pub(crate) fn area_of(buf: &Buffer) -> (r: Rect)
    ensures
        r == buffer_area(*buf),
        forall|x: int, y: int| buffer_cells(*buf).contains_key((x, y)) ==> r.covers(x, y),
{
    let a = buf.area;
    Rect { x: a.x, y: a.y, width: a.width, height: a.height }
}

/// Calls `Buffer::cell_mut` and, on the cell it finds, `Cell::set_char`:
/// the cell's text becomes the one character, the rest of the cell and all
/// other cells stay; a position outside the buffer changes nothing.
#[verifier::external_body]
pub(crate) fn set_char(buf: &mut Buffer, x: u16, y: u16, c: char)
    ensures
        buffer_area(*final(buf)) == buffer_area(*old(buf)),
        buffer_cells(*final(buf)) == canvas_of(*old(buf)).put_char(x as int, y as int, c).cells,
{
    if let Some(cell) = buf.cell_mut((x, y)) {
        cell.set_char(c);
    }
}

/// Calls `Buffer::cell_mut` and, on the cell it finds, `Cell::set_style`:
/// the cell has the style applied, its text and all other cells stay; a
/// position outside the buffer changes nothing.
#[verifier::external_body]
pub(crate) fn set_cell_style(buf: &mut Buffer, x: u16, y: u16, style: Style)
    ensures
        buffer_area(*final(buf)) == buffer_area(*old(buf)),
        buffer_cells(*final(buf)) == canvas_of(*old(buf)).put_style(x as int, y as int, style).cells,
{
    let mut host = ratatui::style::Style::new();
    host.fg = style.fg;
    host.bg = style.bg;
    host.add_modifier = ratatui::style::Modifier::from_bits_retain(style.add_modifier);
    host.sub_modifier = ratatui::style::Modifier::from_bits_retain(style.sub_modifier);
    if let Some(cell) = buf.cell_mut((x, y)) {
        cell.set_style(host);
    }
}

/// What `Cell::reset` makes of a cell. The colours are the toolkit's reset
/// colour, which the library has no name for.
pub uninterp spec fn cleared(cell: Cell) -> Cell;

/// Calls `Buffer::cell_mut` and, on the cell it finds, `Cell::set_symbol`
/// and `Cell::set_style`: the cell shows the text and has the style
/// applied; a position outside the buffer changes nothing.
#[verifier::external_body]
pub(crate) fn set_symbol(buf: &mut Buffer, x: u16, y: u16, symbol: &str, style: Style)
    ensures
        buffer_area(*final(buf)) == buffer_area(*old(buf)),
        buffer_cells(*final(buf)) == canvas_of(*old(buf)).put_symbol(x as int, y as int, symbol@, style).cells,
{
    let mut host = ratatui::style::Style::new();
    host.fg = style.fg;
    host.bg = style.bg;
    host.add_modifier = ratatui::style::Modifier::from_bits_retain(style.add_modifier);
    host.sub_modifier = ratatui::style::Modifier::from_bits_retain(style.sub_modifier);
    if let Some(cell) = buf.cell_mut((x, y)) {
        cell.set_symbol(symbol).set_style(host);
    }
}

/// Calls `Buffer::cell` and, on the cell it finds, `Cell::symbol`: the text
/// of the cell, or nothing for a position outside the buffer.
#[verifier::external_body]
pub(crate) fn symbol_at(buf: &Buffer, x: u16, y: u16) -> (r: Option<String>)
    ensures
        r is Some <==> buffer_cells(*buf).contains_key((x as int, y as int)),
        r is Some ==> r->0@ == buffer_cells(*buf)[(x as int, y as int)].symbol,
{
    buf.cell((x, y)).map(|cell| cell.symbol().to_string())
}

/// Calls `Buffer::cell_mut` and, on the cell it finds, `Cell::reset`: the
/// cell shows one space, without attributes; a position outside the buffer
/// changes nothing.
#[verifier::external_body]
pub(crate) fn reset_cell(buf: &mut Buffer, x: u16, y: u16)
    ensures
        buffer_area(*final(buf)) == buffer_area(*old(buf)),
        buffer_cells(*final(buf)) == canvas_of(*old(buf)).put_cleared(x as int, y as int).cells,
        cleared(buffer_cells(*old(buf))[(x as int, y as int)]).symbol == seq![' '],
        cleared(buffer_cells(*old(buf))[(x as int, y as int)]).modifier == 0,
        !cleared(buffer_cells(*old(buf))[(x as int, y as int)]).skip,
{
    if let Some(cell) = buf.cell_mut((x, y)) {
        cell.reset();
    }
}

/// Paints `c` into every cell of `region` that the buffer holds.
pub fn fill_char(buf: &mut Buffer, region: Rect, c: char)
    ensures
        canvas_of(*final(buf)) == canvas_of(*old(buf)).fill_char(region, c),
{
    let bounds = area_of(buf);
    let clip = region.intersection(bounds);
    let ghost start = canvas_of(*buf);
    let right: u16 = clip.right();
    let bottom: u16 = clip.bottom();
    let mut y: u16 = clip.y;
    while y < bottom
        invariant
            clip.y <= y,
            y <= bottom || bottom < clip.y,
            right == clip.spec_right(),
            bottom == clip.spec_bottom(),
            canvas_of(*buf).area == start.area,
            canvas_of(*buf).cells =~= Map::new(
                |p: (int, int)| start.cells.contains_key(p),
                |p: (int, int)| if clip.covers(p.0, p.1) && p.1 < y {
                    start.cells[p].with_char(c)
                } else {
                    start.cells[p]
                },
            ),
        decreases bottom - y,
    {
        let mut x: u16 = clip.x;
        while x < right
            invariant
                clip.y <= y < bottom,
                clip.x <= x,
                x <= right || right < clip.x,
                right == clip.spec_right(),
                bottom == clip.spec_bottom(),
                canvas_of(*buf).area == start.area,
                canvas_of(*buf).cells =~= Map::new(
                    |p: (int, int)| start.cells.contains_key(p),
                    |p: (int, int)| if clip.covers(p.0, p.1) && (p.1 < y || (p.1 == y && p.0 < x)) {
                        start.cells[p].with_char(c)
                    } else {
                        start.cells[p]
                    },
                ),
            decreases right - x,
        {
            set_char(buf, x, y, c);
            x = x + 1;
        }
        y = y + 1;
    }
    assert(canvas_of(*buf).cells =~= start.fill_char(region, c).cells);
}

/// Applies `style` to every cell of `region` that the buffer holds.
pub fn fill_style(buf: &mut Buffer, region: Rect, style: Style)
    ensures
        canvas_of(*final(buf)) == canvas_of(*old(buf)).fill_style(region, style),
{
    let bounds = area_of(buf);
    let clip = region.intersection(bounds);
    let ghost start = canvas_of(*buf);
    let right: u16 = clip.right();
    let bottom: u16 = clip.bottom();
    let mut y: u16 = clip.y;
    while y < bottom
        invariant
            clip.y <= y,
            y <= bottom || bottom < clip.y,
            right == clip.spec_right(),
            bottom == clip.spec_bottom(),
            canvas_of(*buf).area == start.area,
            canvas_of(*buf).cells =~= Map::new(
                |p: (int, int)| start.cells.contains_key(p),
                |p: (int, int)| if clip.covers(p.0, p.1) && p.1 < y {
                    start.cells[p].with_style(style)
                } else {
                    start.cells[p]
                },
            ),
        decreases bottom - y,
    {
        let mut x: u16 = clip.x;
        while x < right
            invariant
                clip.y <= y < bottom,
                clip.x <= x,
                x <= right || right < clip.x,
                right == clip.spec_right(),
                bottom == clip.spec_bottom(),
                canvas_of(*buf).area == start.area,
                canvas_of(*buf).cells =~= Map::new(
                    |p: (int, int)| start.cells.contains_key(p),
                    |p: (int, int)| if clip.covers(p.0, p.1) && (p.1 < y || (p.1 == y && p.0 < x)) {
                        start.cells[p].with_style(style)
                    } else {
                        start.cells[p]
                    },
                ),
            decreases right - x,
        {
            set_cell_style(buf, x, y, style);
            x = x + 1;
        }
        y = y + 1;
    }
    assert(canvas_of(*buf).cells =~= start.fill_style(region, style).cells);
}

/// Whether the buffer holds a cell at every position of `region`.
pub fn holds_region(buf: &Buffer, region: Rect) -> (r: bool)
    ensures
        r == canvas_of(*buf).holds(region),
{
    let right: u16 = region.right();
    let bottom: u16 = region.bottom();
    let mut y: u16 = region.y;
    while y < bottom
        invariant
            region.y <= y,
            y <= bottom || bottom < region.y,
            right == region.spec_right(),
            bottom == region.spec_bottom(),
            forall|px: int, py: int|
                region.covers(px, py) && py < y ==> buffer_cells(*buf).contains_key((px, py)),
        decreases bottom - y,
    {
        let mut x: u16 = region.x;
        while x < right
            invariant
                region.y <= y < bottom,
                region.x <= x,
                x <= right || right < region.x,
                right == region.spec_right(),
                bottom == region.spec_bottom(),
                forall|px: int, py: int|
                    region.covers(px, py) && (py < y || (py == y && px < x)) ==> buffer_cells(
                        *buf,
                    ).contains_key((px, py)),
            decreases right - x,
        {
            if symbol_at(buf, x, y).is_none() {
                assert(region.covers(x as int, y as int));
                return false;
            }
            x = x + 1;
        }
        y = y + 1;
    }
    true
}

} // verus!
