//! Shadow garnishes.
//!
//! A [`Shadow`] draws a drop shadow with a shade character, light '░',
//! medium '▒', dark '▓' or full '█', at an offset of whole cells. A
//! [`HalfShadow`] takes its offset in half cells and draws the edges of the
//! shadow with half and quadrant blocks. Both take the room for the shadow
//! from the widget's area; the colour comes from a style garnish in front.

use vstd::prelude::*;
use crate::area::{sat_add, sat_sub, Rect};
use crate::canvas::{area_of, canvas_of, fill_char, set_char, Canvas};
use crate::modifier::RenderModifier;
use ratatui::buffer::Buffer;

verus! {

/// The size of an offset, whatever its direction.
pub open spec fn magnitude(offset: i8) -> int {
    if offset < 0 {
        -(offset as int)
    } else {
        offset as int
    }
}

/// Returns the size of an offset, whatever its direction.
pub fn offset_size(offset: i8) -> (r: u16)
    ensures
        r == magnitude(offset),
{
    if offset < 0 {
        (-(offset as i16)) as u16
    } else {
        offset as u16
    }
}

/// The area that is left when `columns` columns and `rows` rows are given
/// up to a shadow: smaller by that much, and moved away from a shadow that
/// falls to the left (`x_offset` not positive) or upwards (`y_offset` not
/// positive). Where no column or no row is left, the empty area at the
/// origin.
pub open spec fn shadowed_area(area: Rect, x_offset: i8, y_offset: i8, columns: int, rows: int) -> Rect {
    let width = sat_sub(area.width as int, columns);
    let height = sat_sub(area.height as int, rows);
    if width == 0 || height == 0 {
        Rect::spec_zero()
    } else {
        Rect {
            x: sat_add(area.x as int, if x_offset > 0 { 0 } else { columns }),
            y: sat_add(area.y as int, if y_offset > 0 { 0 } else { rows }),
            width,
            height,
        }
    }
}

/// Computes [`shadowed_area`].
fn shrink_for_shadow(area: Rect, x_offset: i8, y_offset: i8, columns: u16, rows: u16) -> (r: Rect)
    ensures
        r == shadowed_area(area, x_offset, y_offset, columns as int, rows as int),
{
    let width: u16 = area.width.saturating_sub(columns);
    let height: u16 = area.height.saturating_sub(rows);
    if width == 0 || height == 0 {
        return Rect::zero();
    }
    let (x, y): (u16, u16) = if x_offset > 0 && y_offset > 0 {
        (0, 0)
    } else if x_offset > 0 {
        (0, rows)
    } else if y_offset > 0 {
        (columns, 0)
    } else {
        (columns, rows)
    };
    Rect { x: area.x.saturating_add(x), y: area.y.saturating_add(y), width, height }
}

/// A drop shadow drawn with one shade character.
///
/// The offsets are in whole cells: positive to the right and down, negative
/// to the left and up.
#[derive(Debug, Clone, Copy, PartialEq, Eq, Hash, Structural)]
pub struct Shadow {
    pub x_offset: i8,
    pub y_offset: i8,
    pub symbol: char,
}

impl Shadow {
    /// The part of the canvas that the widget keeps: the shrunk area, as far
    /// as the canvas reaches.
    pub open spec fn widget_area(self, area: Rect, canvas: Canvas) -> Rect {
        shadowed_area(
            area,
            self.x_offset,
            self.y_offset,
            magnitude(self.x_offset),
            magnitude(self.y_offset),
        ).spec_intersection(canvas.area)
    }

    /// The band of the shadow that lies above or below the widget.
    pub open spec fn horizontal_band(self, area: Rect, canvas: Canvas) -> Rect {
        let inner = self.widget_area(area, canvas);
        Rect {
            x: if self.x_offset < 0 {
                area.x
            } else {
                sat_add(inner.x as int, magnitude(self.x_offset))
            },
            y: if self.y_offset < 0 {
                area.y
            } else {
                sat_add(area.y as int, inner.height as int)
            },
            width: inner.width,
            height: magnitude(self.y_offset) as u16,
        }
    }

    /// The band of the shadow that lies left or right of the widget.
    pub open spec fn vertical_band(self, area: Rect, canvas: Canvas) -> Rect {
        let inner = self.widget_area(area, canvas);
        Rect {
            x: if self.x_offset < 0 {
                area.x
            } else {
                sat_add(area.x as int, inner.width as int)
            },
            y: if self.y_offset < 0 {
                area.y
            } else {
                sat_add(inner.y as int, magnitude(self.y_offset))
            },
            width: magnitude(self.x_offset) as u16,
            height: inner.height,
        }
    }

    /// Creates a medium shadow with the given offsets.
    #[must_use]
    pub fn new(x_offset: i8, y_offset: i8) -> (r: Shadow)
        ensures
            r == (Shadow { x_offset, y_offset, symbol: '▒' }),
    {
        Shadow { x_offset, y_offset, symbol: '▒' }
    }

    /// Draws the shadow with the light shade, '░'.
    #[must_use]
    pub fn light(self) -> (r: Shadow)
        ensures
            r == (Shadow { symbol: '░', ..self }),
    {
        Shadow { x_offset: self.x_offset, y_offset: self.y_offset, symbol: '░' }
    }

    /// Draws the shadow with the medium shade, '▒'.
    #[must_use]
    pub fn medium(self) -> (r: Shadow)
        ensures
            r == (Shadow { symbol: '▒', ..self }),
    {
        Shadow { x_offset: self.x_offset, y_offset: self.y_offset, symbol: '▒' }
    }

    /// Draws the shadow with the dark shade, '▓'.
    #[must_use]
    pub fn dark(self) -> (r: Shadow)
        ensures
            r == (Shadow { symbol: '▓', ..self }),
    {
        Shadow { x_offset: self.x_offset, y_offset: self.y_offset, symbol: '▓' }
    }

    /// Draws the shadow with the full block, '█'.
    #[must_use]
    pub fn full(self) -> (r: Shadow)
        ensures
            r == (Shadow { symbol: '█', ..self }),
    {
        Shadow { x_offset: self.x_offset, y_offset: self.y_offset, symbol: '█' }
    }
}

impl Default for Shadow {
    /// A medium shadow one cell to the right and one down.
    fn default() -> (r: Shadow)
        ensures
            r == (Shadow { x_offset: 1, y_offset: 1, symbol: '▒' }),
    {
        Shadow { x_offset: 1, y_offset: 1, symbol: '▒' }
    }
}

impl RenderModifier for Shadow {
    open spec fn area_after(&self, area: Rect) -> Rect {
        shadowed_area(
            area,
            self.x_offset,
            self.y_offset,
            magnitude(self.x_offset),
            magnitude(self.y_offset),
        )
    }

    open spec fn painted_before(&self, area: Rect, canvas: Canvas) -> Canvas {
        canvas.fill_char(self.horizontal_band(area, canvas), self.symbol).fill_char(
            self.vertical_band(area, canvas),
            self.symbol,
        )
    }

    open spec fn painted_after(&self, area: Rect, canvas: Canvas) -> Canvas {
        canvas
    }

    proof fn area_shrinks(&self, area: Rect) {
    }

    proof fn paints_in_place(&self, area: Rect, canvas: Canvas) {
        let p = self.painted_before(area, canvas);
        assert(p.cells.dom() =~= canvas.cells.dom());
        if area.spec_is_empty() {
            assert(p.cells =~= canvas.cells);
        }
    }

    fn modify_area(&self, area: Rect) -> (r: Rect) {
        shrink_for_shadow(
            area,
            self.x_offset,
            self.y_offset,
            offset_size(self.x_offset),
            offset_size(self.y_offset),
        )
    }

    fn before_render(&self, area: Rect, buffer: &mut Buffer) {
        let widget_area = self.modify_area(area).intersection(area_of(buffer));
        let columns: u16 = offset_size(self.x_offset);
        let rows: u16 = offset_size(self.y_offset);
        let (horizontal_x, vertical_x): (u16, u16) = if self.x_offset < 0 {
            (area.x, area.x)
        } else {
            (widget_area.x.saturating_add(columns), area.x.saturating_add(widget_area.width))
        };
        let (horizontal_y, vertical_y): (u16, u16) = if self.y_offset < 0 {
            (area.y, area.y)
        } else {
            (area.y.saturating_add(widget_area.height), widget_area.y.saturating_add(rows))
        };
        fill_char(
            buffer,
            Rect { x: horizontal_x, y: horizontal_y, width: widget_area.width, height: rows },
            self.symbol,
        );
        fill_char(
            buffer,
            Rect { x: vertical_x, y: vertical_y, width: columns, height: widget_area.height },
            self.symbol,
        );
    }

    fn after_render(&self, area: Rect, buffer: &mut Buffer) {
    }
}


/// The number of whole cells that an offset of half cells reaches into.
pub open spec fn half_cells(offset: i8) -> int {
    (magnitude(offset) + 1) / 2
}

/// The whole cells of an offset of half cells, with its direction: the
/// half cell that is left over is dropped.
pub open spec fn whole_cells(offset: i8) -> int {
    if offset < 0 {
        -(magnitude(offset) / 2)
    } else {
        magnitude(offset) / 2
    }
}

/// The character for one cell of a half shadow. `half_x` and `half_y` say
/// whether the offset leaves half a cell over in that direction; the other
/// four say whether the cell lies in the first or last column and row of
/// the shadow.
pub open spec fn spec_half_symbol(
    half_x: bool,
    half_y: bool,
    first_column: bool,
    last_column: bool,
    first_row: bool,
    last_row: bool,
) -> char {
    if half_x && half_y && first_column && !last_column && first_row && !last_row {
        '▗'
    } else if half_x && half_y && !first_column && last_column && first_row && !last_row {
        '▖'
    } else if half_x && half_y && first_column && !last_column && !first_row && last_row {
        '▝'
    } else if half_x && half_y && !first_column && last_column && !first_row && last_row {
        '▘'
    } else if half_x && first_column && !last_column && !first_row && !last_row {
        '▐'
    } else if half_x && !first_column && last_column && !first_row && !last_row {
        '▌'
    } else if half_y && !first_column && !last_column && first_row && !last_row {
        '▄'
    } else if half_y && !first_column && !last_column && !first_row && last_row {
        '▀'
    } else {
        '█'
    }
}

/// Picks the character for one cell of a half shadow.
pub fn half_symbol(
    half_x: bool,
    half_y: bool,
    first_column: bool,
    last_column: bool,
    first_row: bool,
    last_row: bool,
) -> (r: char)
    ensures
        r == spec_half_symbol(half_x, half_y, first_column, last_column, first_row, last_row),
{
    match (half_x, half_y, first_column, last_column, first_row, last_row) {
        (true, true, true, false, true, false) => '▗',
        (true, true, false, true, true, false) => '▖',
        (true, true, true, false, false, true) => '▝',
        (true, true, false, true, false, true) => '▘',
        (true, _, true, false, false, false) => '▐',
        (true, _, false, true, false, false) => '▌',
        (_, true, false, false, true, false) => '▄',
        (_, true, false, false, false, true) => '▀',
        _ => '█',
    }
}

/// A drop shadow whose offset counts half cells.
///
/// An offset of 3 is one and a half cells. Whole cells of the shadow are
/// full blocks; where half a cell is left over, the edge is drawn with half
/// and quadrant blocks.
#[derive(Debug, Clone, Copy, PartialEq, Eq, Hash, Structural)]
pub struct HalfShadow {
    pub x_offset: i8,
    pub y_offset: i8,
}

/// The cells that a half shadow may draw on, as a range of columns and rows,
/// each from `start` up to `end`.
pub struct ShadowSpan {
    pub start_x: int,
    pub start_y: int,
    pub end_x: int,
    pub end_y: int,
}

impl HalfShadow {
    /// The part of the canvas that the widget keeps: the shrunk area, as far
    /// as the canvas reaches.
    pub open spec fn widget_area(self, area: Rect, canvas: Canvas) -> Rect {
        shadowed_area(
            area,
            self.x_offset,
            self.y_offset,
            half_cells(self.x_offset),
            half_cells(self.y_offset),
        ).spec_intersection(canvas.area)
    }

    /// The range of cells that holds the widget's part moved by the offset:
    /// the shadow, and under it a part of the widget.
    pub open spec fn span(self, area: Rect, canvas: Canvas) -> ShadowSpan {
        let inner = self.widget_area(area, canvas);
        let start_x = inner.x + whole_cells(self.x_offset) - (if self.x_offset < 0 { 1int } else { 0int });
        let start_y = inner.y + whole_cells(self.y_offset) - (if self.y_offset < 0 { 1int } else { 0int });
        ShadowSpan {
            start_x,
            start_y,
            end_x: start_x + inner.width + magnitude(self.x_offset) % 2,
            end_y: start_y + inner.height + magnitude(self.y_offset) % 2,
        }
    }

    /// Whether the shadow is drawn at all: the widget keeps some room, and
    /// the shadow does not start left of or above the coordinate range.
    pub open spec fn casts(self, area: Rect, canvas: Canvas) -> bool {
        let span = self.span(area, canvas);
        !self.area_after(area).spec_is_empty() && span.start_x >= 0 && span.start_y >= 0
    }

    /// Whether the cell at column `x`, row `y` is drawn on: it lies in the
    /// shadow's range, as far as coordinates go, and not in the widget's
    /// part.
    pub open spec fn shades(self, area: Rect, canvas: Canvas, x: int, y: int) -> bool {
        let span = self.span(area, canvas);
        &&& self.casts(area, canvas)
        &&& span.start_x <= x < span.end_x
        &&& span.start_y <= y < span.end_y
        &&& x < u16::MAX
        &&& y < u16::MAX
        &&& !self.widget_area(area, canvas).covers(x, y)
    }

    /// The character drawn at column `x`, row `y` of the shadow.
    pub open spec fn symbol_at(self, area: Rect, canvas: Canvas, x: int, y: int) -> char {
        let span = self.span(area, canvas);
        let end_x = if span.end_x > u16::MAX { u16::MAX as int } else { span.end_x };
        let end_y = if span.end_y > u16::MAX { u16::MAX as int } else { span.end_y };
        spec_half_symbol(
            magnitude(self.x_offset) % 2 != 0,
            magnitude(self.y_offset) % 2 != 0,
            x == span.start_x,
            x == end_x - 1,
            y == span.start_y,
            y == end_y - 1,
        )
    }

    /// Creates a shadow with the given offsets in half cells.
    #[must_use]
    pub fn new(x_offset: i8, y_offset: i8) -> (r: HalfShadow)
        ensures
            r == (HalfShadow { x_offset, y_offset }),
    {
        HalfShadow { x_offset, y_offset }
    }
}

impl Default for HalfShadow {
    /// A shadow half a cell to the right and half a cell down.
    fn default() -> (r: HalfShadow)
        ensures
            r == (HalfShadow { x_offset: 1, y_offset: 1 }),
    {
        HalfShadow { x_offset: 1, y_offset: 1 }
    }
}

impl RenderModifier for HalfShadow {
    open spec fn area_after(&self, area: Rect) -> Rect {
        shadowed_area(
            area,
            self.x_offset,
            self.y_offset,
            half_cells(self.x_offset),
            half_cells(self.y_offset),
        )
    }

    open spec fn painted_before(&self, area: Rect, canvas: Canvas) -> Canvas {
        Canvas {
            cells: Map::new(
                |p: (int, int)| canvas.cells.contains_key(p),
                |p: (int, int)| if self.shades(area, canvas, p.0, p.1) {
                    canvas.cells[p].with_char(self.symbol_at(area, canvas, p.0, p.1))
                } else {
                    canvas.cells[p]
                },
            ),
            ..canvas
        }
    }

    open spec fn painted_after(&self, area: Rect, canvas: Canvas) -> Canvas {
        canvas
    }

    proof fn area_shrinks(&self, area: Rect) {
    }

    proof fn paints_in_place(&self, area: Rect, canvas: Canvas) {
        let p = self.painted_before(area, canvas);
        assert(p.cells.dom() =~= canvas.cells.dom());
        if area.spec_is_empty() {
            assert(p.cells =~= canvas.cells);
        }
    }

    fn modify_area(&self, area: Rect) -> (r: Rect) {
        let columns: u16 = (offset_size(self.x_offset) + 1) / 2;
        let rows: u16 = (offset_size(self.y_offset) + 1) / 2;
        shrink_for_shadow(area, self.x_offset, self.y_offset, columns, rows)
    }

    fn before_render(&self, area: Rect, buffer: &mut Buffer) {
        let ghost start = canvas_of(*buffer);
        let shrunk = self.modify_area(area);
        let widget_area = shrunk.intersection(area_of(buffer));
        if shrunk.is_empty() {
            assert(start.cells =~= self.painted_before(area, start).cells);
            return ;
        }
        let x_size: u16 = offset_size(self.x_offset);
        let y_size: u16 = offset_size(self.y_offset);
        let half_x: bool = x_size % 2 != 0;
        let half_y: bool = y_size % 2 != 0;
        let delta_x: i32 = if half_x { 1 } else { 0 };
        let delta_y: i32 = if half_y { 1 } else { 0 };

        let mut start_x: i32 = widget_area.left() as i32;
        if self.x_offset < 0 {
            start_x = start_x - (x_size / 2) as i32 - 1;
        } else {
            start_x = start_x + (x_size / 2) as i32;
        }
        let mut start_y: i32 = widget_area.top() as i32;
        if self.y_offset < 0 {
            start_y = start_y - (y_size / 2) as i32 - 1;
        } else {
            start_y = start_y + (y_size / 2) as i32;
        }
        let end_x: i32 = start_x + widget_area.width as i32 + delta_x;
        let end_y: i32 = start_y + widget_area.height as i32 + delta_y;

        if start_x < 0 || start_y < 0 {
            assert(start.cells =~= self.painted_before(area, start).cells);
            return ;
        }
        let first_x: u16 = if start_x > 0xffff { u16::MAX } else { start_x as u16 };
        let first_y: u16 = if start_y > 0xffff { u16::MAX } else { start_y as u16 };
        let past_x: u16 = if end_x > 0xffff { u16::MAX } else { end_x as u16 };
        let past_y: u16 = if end_y > 0xffff { u16::MAX } else { end_y as u16 };

        let mut y: u16 = first_y;
        while y < past_y
            invariant
                first_y <= y,
                y <= past_y || past_y < first_y,
                first_x == (if start_x > u16::MAX { u16::MAX as int } else { start_x as int }),
                first_y == (if start_y > u16::MAX { u16::MAX as int } else { start_y as int }),
                0 <= start_x <= end_x,
                0 <= start_y <= end_y,
                past_x == (if end_x > u16::MAX { u16::MAX as int } else { end_x as int }),
                past_y == (if end_y > u16::MAX { u16::MAX as int } else { end_y as int }),
                half_x == (magnitude(self.x_offset) % 2 != 0),
                half_y == (magnitude(self.y_offset) % 2 != 0),
                widget_area == self.widget_area(area, start),
                self.casts(area, start),
                self.span(area, start) == (ShadowSpan {
                    start_x: start_x as int,
                    start_y: start_y as int,
                    end_x: end_x as int,
                    end_y: end_y as int,
                }),
                canvas_of(*buffer).area == start.area,
                canvas_of(*buffer).cells =~= Map::new(
                    |p: (int, int)| start.cells.contains_key(p),
                    |p: (int, int)| if self.shades(area, start, p.0, p.1) && p.1 < y {
                        start.cells[p].with_char(self.symbol_at(area, start, p.0, p.1))
                    } else {
                        start.cells[p]
                    },
                ),
            decreases past_y - y,
        {
            let mut x: u16 = first_x;
            while x < past_x
                invariant
                    first_y <= y < past_y,
                    first_x <= x,
                    x <= past_x || past_x < first_x,
                    first_x == (if start_x > u16::MAX { u16::MAX as int } else { start_x as int }),
                    first_y == (if start_y > u16::MAX { u16::MAX as int } else { start_y as int }),
                    0 <= start_x <= end_x,
                    0 <= start_y <= end_y,
                    past_x == (if end_x > u16::MAX { u16::MAX as int } else { end_x as int }),
                    past_y == (if end_y > u16::MAX { u16::MAX as int } else { end_y as int }),
                    half_x == (magnitude(self.x_offset) % 2 != 0),
                    half_y == (magnitude(self.y_offset) % 2 != 0),
                    widget_area == self.widget_area(area, start),
                    self.casts(area, start),
                    self.span(area, start) == (ShadowSpan {
                        start_x: start_x as int,
                        start_y: start_y as int,
                        end_x: end_x as int,
                        end_y: end_y as int,
                    }),
                    canvas_of(*buffer).area == start.area,
                    canvas_of(*buffer).cells =~= Map::new(
                        |p: (int, int)| start.cells.contains_key(p),
                        |p: (int, int)| if self.shades(area, start, p.0, p.1) && (p.1 < y || (p.1 == y
                            && p.0 < x)) {
                            start.cells[p].with_char(self.symbol_at(area, start, p.0, p.1))
                        } else {
                            start.cells[p]
                        },
                    ),
                decreases past_x - x,
            {
                if !widget_area.contains(x, y) {
                    let symbol = half_symbol(
                        half_x,
                        half_y,
                        x == first_x,
                        x == past_x - 1,
                        y == first_y,
                        y == past_y - 1,
                    );
                    set_char(buffer, x, y, symbol);
                }
                x = x + 1;
            }
            y = y + 1;
        }
        assert(canvas_of(*buffer).cells =~= self.painted_before(area, start).cells);
    }

    fn after_render(&self, area: Rect, buffer: &mut Buffer) {
    }
}

} // verus!
