//! Border garnishes.
//!
//! A border is a set of characters, a [`BorderSet`], and a choice of sides,
//! [`Borders`]. A border has no style of its own: put a style garnish in
//! front of it.

use vstd::prelude::*;
use vstd::std_specs::ops::BitOrSpecImpl;
use crate::area::{sat_add, sat_sub, Rect};
use crate::canvas::{canvas_of, fill_char, set_char, Canvas};
use crate::modifier::RenderModifier;
use ratatui::buffer::Buffer;

verus! {

/// The sides of a border that are drawn, as a set of flags.
#[derive(Debug, Clone, Copy, PartialEq, Eq, Hash, Structural)]
pub struct Borders {
    pub bits: u8,
}

pub const TOP_BIT: u8 = 0b0001;

pub const RIGHT_BIT: u8 = 0b0010;

pub const BOTTOM_BIT: u8 = 0b0100;

pub const LEFT_BIT: u8 = 0b1000;

pub const ALL_BITS: u8 = 0b1111;

impl Borders {
    /// No side.
    pub open spec fn spec_none() -> Borders {
        Borders { bits: 0 }
    }

    /// The top side.
    pub open spec fn spec_top() -> Borders {
        Borders { bits: TOP_BIT }
    }

    /// The right side.
    pub open spec fn spec_right() -> Borders {
        Borders { bits: RIGHT_BIT }
    }

    /// The bottom side.
    pub open spec fn spec_bottom() -> Borders {
        Borders { bits: BOTTOM_BIT }
    }

    /// The left side.
    pub open spec fn spec_left() -> Borders {
        Borders { bits: LEFT_BIT }
    }

    /// All four sides.
    pub open spec fn spec_all() -> Borders {
        Borders { bits: ALL_BITS }
    }

    /// No side.
    pub fn none() -> (r: Borders)
        ensures
            r == Borders::spec_none(),
    {
        Borders { bits: 0 }
    }

    /// The top side.
    pub fn top() -> (r: Borders)
        ensures
            r == Borders::spec_top(),
    {
        Borders { bits: TOP_BIT }
    }

    /// The right side.
    pub fn right() -> (r: Borders)
        ensures
            r == Borders::spec_right(),
    {
        Borders { bits: RIGHT_BIT }
    }

    /// The bottom side.
    pub fn bottom() -> (r: Borders)
        ensures
            r == Borders::spec_bottom(),
    {
        Borders { bits: BOTTOM_BIT }
    }

    /// The left side.
    pub fn left() -> (r: Borders)
        ensures
            r == Borders::spec_left(),
    {
        Borders { bits: LEFT_BIT }
    }

    /// All four sides.
    pub fn all() -> (r: Borders)
        ensures
            r == Borders::spec_all(),
    {
        Borders { bits: ALL_BITS }
    }

    /// Whether the top side is drawn.
    pub open spec fn has_top(self) -> bool {
        self.bits & TOP_BIT == TOP_BIT
    }

    /// Whether the right side is drawn.
    pub open spec fn has_right(self) -> bool {
        self.bits & RIGHT_BIT == RIGHT_BIT
    }

    /// Whether the bottom side is drawn.
    pub open spec fn has_bottom(self) -> bool {
        self.bits & BOTTOM_BIT == BOTTOM_BIT
    }

    /// Whether the left side is drawn.
    pub open spec fn has_left(self) -> bool {
        self.bits & LEFT_BIT == LEFT_BIT
    }

    /// Whether every flag of `other` is set in `self`.
    pub open spec fn spec_contains(self, other: Borders) -> bool {
        self.bits & other.bits == other.bits
    }

    /// The flags as a number.
    pub fn bits(self) -> (r: u8)
        ensures
            r == self.bits,
    {
        self.bits
    }

    /// Whether every flag of `other` is set in `self`.
    pub fn contains(self, other: Borders) -> (r: bool)
        ensures
            r == self.spec_contains(other),
    {
        self.bits & other.bits == other.bits
    }

    /// The flags of `self` and those of `other`.
    #[must_use]
    pub fn union(self, other: Borders) -> (r: Borders)
        ensures
            r.bits == self.bits | other.bits,
    {
        Borders { bits: self.bits | other.bits }
    }

    /// Sets the flags of `other`.
    pub fn insert(&mut self, other: Borders)
        ensures
            final(self).bits == old(self).bits | other.bits,
    {
        self.bits = self.bits | other.bits;
    }

    /// Clears the flags of `other`.
    pub fn remove(&mut self, other: Borders)
        ensures
            final(self).bits == old(self).bits & !other.bits,
    {
        self.bits = self.bits & !other.bits;
    }
}

impl Default for Borders {
    fn default() -> (r: Borders)
        ensures
            r.bits == 0,
    {
        Borders { bits: 0 }
    }
}

impl core::ops::BitOr for Borders {
    type Output = Borders;

    fn bitor(self, rhs: Borders) -> (r: Borders) {
        Borders { bits: self.bits | rhs.bits }
    }
}

impl BitOrSpecImpl for Borders {
    open spec fn obeys_bitor_spec() -> bool {
        true
    }

    open spec fn bitor_req(self, rhs: Borders) -> bool {
        true
    }

    open spec fn bitor_spec(self, rhs: Borders) -> Borders {
        Borders { bits: self.bits | rhs.bits }
    }
}


/// The characters that a border is drawn with, one for each corner and side.
#[derive(Debug, Clone, Copy, PartialEq, Eq, Hash, Structural)]
pub struct BorderSet {
    pub top_left: char,
    pub top_right: char,
    pub bottom_left: char,
    pub bottom_right: char,
    pub left: char,
    pub right: char,
    pub top: char,
    pub bottom: char,
}

impl BorderSet {
    /// The set that draws everything with `symbol`.
    pub open spec fn spec_new(symbol: char) -> BorderSet {
        BorderSet {
            top_left: symbol,
            top_right: symbol,
            bottom_left: symbol,
            bottom_right: symbol,
            left: symbol,
            right: symbol,
            top: symbol,
            bottom: symbol,
        }
    }

    /// `self` with `symbol` at the four corners.
    pub open spec fn spec_corners(self, symbol: char) -> BorderSet {
        BorderSet { top_left: symbol, top_right: symbol, bottom_left: symbol, bottom_right: symbol, ..self }
    }

    /// `self` with `symbol` on the left and right sides.
    pub open spec fn spec_verticals(self, symbol: char) -> BorderSet {
        BorderSet { left: symbol, right: symbol, ..self }
    }

    /// `self` with `symbol` on the top and bottom sides.
    pub open spec fn spec_horizontals(self, symbol: char) -> BorderSet {
        BorderSet { top: symbol, bottom: symbol, ..self }
    }

    /// `self` with `symbol` on all four sides, corners kept.
    pub open spec fn spec_sides(self, symbol: char) -> BorderSet {
        BorderSet { top: symbol, bottom: symbol, left: symbol, right: symbol, ..self }
    }

    /// A plain border set.
    pub open spec fn spec_plain() -> BorderSet {
        BorderSet {
            top_left: '┌',
            top_right: '┐',
            bottom_left: '└',
            bottom_right: '┘',
            left: '│',
            right: '│',
            top: '─',
            bottom: '─',
        }
    }

    /// A plain border set with rounded corners.
    pub open spec fn spec_rounded() -> BorderSet {
        BorderSet {
            top_left: '╭',
            top_right: '╮',
            bottom_left: '╰',
            bottom_right: '╯',
            left: '│',
            right: '│',
            top: '─',
            bottom: '─',
        }
    }

    /// A double border set.
    pub open spec fn spec_double() -> BorderSet {
        BorderSet {
            top_left: '╔',
            top_right: '╗',
            bottom_left: '╚',
            bottom_right: '╝',
            left: '║',
            right: '║',
            top: '═',
            bottom: '═',
        }
    }

    /// A thick border set.
    pub open spec fn spec_thick() -> BorderSet {
        BorderSet {
            top_left: '┏',
            top_right: '┓',
            bottom_left: '┗',
            bottom_right: '┛',
            left: '┃',
            right: '┃',
            top: '━',
            bottom: '━',
        }
    }

    /// A quadrant border set that lies inside the cells.
    pub open spec fn spec_quadrant_inside() -> BorderSet {
        BorderSet {
            top_left: '▗',
            top_right: '▖',
            bottom_left: '▝',
            bottom_right: '▘',
            left: '▐',
            right: '▌',
            top: '▄',
            bottom: '▀',
        }
    }

    /// A quadrant border set that lies on the cells' outer half.
    pub open spec fn spec_quadrant_outside() -> BorderSet {
        BorderSet {
            top_left: '▛',
            top_right: '▜',
            bottom_left: '▙',
            bottom_right: '▟',
            left: '▌',
            right: '▐',
            top: '▀',
            bottom: '▄',
        }
    }

    /// A fat border set that lies inside the cells.
    pub open spec fn spec_fat_inside() -> BorderSet {
        BorderSet {
            top_left: '▄',
            top_right: '▄',
            bottom_left: '▀',
            bottom_right: '▀',
            left: '█',
            right: '█',
            top: '▄',
            bottom: '▀',
        }
    }

    /// A fat border set that lies on the cells' outer half.
    pub open spec fn spec_fat_outside() -> BorderSet {
        BorderSet {
            top_left: '█',
            top_right: '█',
            bottom_left: '█',
            bottom_right: '█',
            left: '█',
            right: '█',
            top: '▀',
            bottom: '▄',
        }
    }

    /// A dashed border set.
    pub open spec fn spec_dashed() -> BorderSet {
        BorderSet::spec_plain().spec_horizontals('╌').spec_verticals('┊')
    }

    /// A dashed border set with rounded corners.
    pub open spec fn spec_rounded_dashed() -> BorderSet {
        BorderSet::spec_rounded().spec_horizontals('╌').spec_verticals('┊')
    }

    /// A thick dashed border set, with rounded corners.
    pub open spec fn spec_thick_dashed() -> BorderSet {
        BorderSet::spec_rounded().spec_horizontals('╍').spec_verticals('┋')
    }

    /// Creates a set that draws everything with `symbol`.
    #[must_use]
    pub fn new(symbol: char) -> (r: BorderSet)
        ensures
            r == BorderSet::spec_new(symbol),
    {
        BorderSet {
            top: symbol,
            bottom: symbol,
            left: symbol,
            right: symbol,
            top_left: symbol,
            top_right: symbol,
            bottom_left: symbol,
            bottom_right: symbol,
        }
    }

    /// A plain border set.
    ///
    /// ```text
    /// ┌───────┐
    /// │       │
    /// └───────┘
    /// ```
    #[must_use]
    pub fn plain() -> (r: BorderSet)
        ensures
            r == BorderSet::spec_plain(),
    {
        BorderSet {
            top_left: '┌',
            top_right: '┐',
            bottom_left: '└',
            bottom_right: '┘',
            left: '│',
            right: '│',
            top: '─',
            bottom: '─',
        }
    }

    /// A dashed border set.
    #[must_use]
    pub fn dashed() -> (r: BorderSet)
        ensures
            r == BorderSet::spec_dashed(),
    {
        BorderSet::plain().horizontals('╌').verticals('┊')
    }

    /// A plain border set with rounded corners.
    ///
    /// ```text
    /// ╭───────╮
    /// │       │
    /// ╰───────╯
    /// ```
    #[must_use]
    pub fn rounded() -> (r: BorderSet)
        ensures
            r == BorderSet::spec_rounded(),
    {
        BorderSet {
            top_left: '╭',
            top_right: '╮',
            bottom_left: '╰',
            bottom_right: '╯',
            left: '│',
            right: '│',
            top: '─',
            bottom: '─',
        }
    }

    /// A dashed border set with rounded corners.
    #[must_use]
    pub fn rounded_dashed() -> (r: BorderSet)
        ensures
            r == BorderSet::spec_rounded_dashed(),
    {
        BorderSet::rounded().horizontals('╌').verticals('┊')
    }

    /// A double border set.
    ///
    /// ```text
    /// ╔═══════╗
    /// ║       ║
    /// ╚═══════╝
    /// ```
    #[must_use]
    pub fn double() -> (r: BorderSet)
        ensures
            r == BorderSet::spec_double(),
    {
        BorderSet {
            top_left: '╔',
            top_right: '╗',
            bottom_left: '╚',
            bottom_right: '╝',
            left: '║',
            right: '║',
            top: '═',
            bottom: '═',
        }
    }

    /// A thick border set.
    ///
    /// ```text
    /// ┏━━━━━━━┓
    /// ┃       ┃
    /// ┗━━━━━━━┛
    /// ```
    #[must_use]
    pub fn thick() -> (r: BorderSet)
        ensures
            r == BorderSet::spec_thick(),
    {
        BorderSet {
            top_left: '┏',
            top_right: '┓',
            bottom_left: '┗',
            bottom_right: '┛',
            left: '┃',
            right: '┃',
            top: '━',
            bottom: '━',
        }
    }

    /// A thick dashed border set, with rounded corners.
    #[must_use]
    pub fn thick_dashed() -> (r: BorderSet)
        ensures
            r == BorderSet::spec_thick_dashed(),
    {
        BorderSet::rounded().horizontals('╍').verticals('┋')
    }

    /// A quadrant border set that lies inside the cells.
    ///
    /// ```text
    /// ▗▄▄▄▄▄▄▄▖
    /// ▐       ▌
    /// ▝▀▀▀▀▀▀▀▘
    /// ```
    #[must_use]
    pub fn quadrant_inside() -> (r: BorderSet)
        ensures
            r == BorderSet::spec_quadrant_inside(),
    {
        BorderSet {
            top_left: '▗',
            top_right: '▖',
            bottom_left: '▝',
            bottom_right: '▘',
            left: '▐',
            right: '▌',
            top: '▄',
            bottom: '▀',
        }
    }

    /// A quadrant border set that lies on the cells' outer half.
    ///
    /// ```text
    /// ▛▀▀▀▀▀▀▀▜
    /// ▌       ▐
    /// ▙▄▄▄▄▄▄▄▟
    /// ```
    #[must_use]
    pub fn quadrant_outside() -> (r: BorderSet)
        ensures
            r == BorderSet::spec_quadrant_outside(),
    {
        BorderSet {
            top_left: '▛',
            top_right: '▜',
            bottom_left: '▙',
            bottom_right: '▟',
            left: '▌',
            right: '▐',
            top: '▀',
            bottom: '▄',
        }
    }

    /// A fat border set that lies inside the cells.
    ///
    /// ```text
    /// ▄▄▄▄▄▄▄▄▄
    /// █       █
    /// ▀▀▀▀▀▀▀▀▀
    /// ```
    #[must_use]
    pub fn fat_inside() -> (r: BorderSet)
        ensures
            r == BorderSet::spec_fat_inside(),
    {
        BorderSet {
            top_left: '▄',
            top_right: '▄',
            bottom_left: '▀',
            bottom_right: '▀',
            left: '█',
            right: '█',
            top: '▄',
            bottom: '▀',
        }
    }

    /// A fat border set that lies on the cells' outer half.
    ///
    /// ```text
    /// █▀▀▀▀▀▀▀█
    /// █       █
    /// █▄▄▄▄▄▄▄█
    /// ```
    #[must_use]
    pub fn fat_outside() -> (r: BorderSet)
        ensures
            r == BorderSet::spec_fat_outside(),
    {
        BorderSet {
            top_left: '█',
            top_right: '█',
            bottom_left: '█',
            bottom_right: '█',
            left: '█',
            right: '█',
            top: '▀',
            bottom: '▄',
        }
    }

    /// Sets the four corner characters to `symbol`.
    #[must_use]
    pub fn corners(self, symbol: char) -> (r: BorderSet)
        ensures
            r == self.spec_corners(symbol),
    {
        let mut set = self;
        set.top_left = symbol;
        set.top_right = symbol;
        set.bottom_left = symbol;
        set.bottom_right = symbol;
        set
    }

    /// Sets the left and right characters to `symbol`.
    #[must_use]
    pub fn verticals(self, symbol: char) -> (r: BorderSet)
        ensures
            r == self.spec_verticals(symbol),
    {
        let mut set = self;
        set.left = symbol;
        set.right = symbol;
        set
    }

    /// Sets the top and bottom characters to `symbol`.
    #[must_use]
    pub fn horizontals(self, symbol: char) -> (r: BorderSet)
        ensures
            r == self.spec_horizontals(symbol),
    {
        let mut set = self;
        set.top = symbol;
        set.bottom = symbol;
        set
    }

    /// Sets the four side characters to `symbol` and keeps the corners.
    #[must_use]
    pub fn sides(self, symbol: char) -> (r: BorderSet)
        ensures
            r == self.spec_sides(symbol),
    {
        let mut set = self;
        set.top = symbol;
        set.bottom = symbol;
        set.left = symbol;
        set.right = symbol;
        set
    }
}

impl Default for BorderSet {
    /// The set of eight NUL characters.
    fn default() -> (r: BorderSet)
        ensures
            r == BorderSet::spec_new('\0'),
    {
        BorderSet::new('\0')
    }
}


/// The column of `area` that the left side is drawn in; an empty area has
/// none.
pub open spec fn left_column(area: Rect) -> Rect {
    Rect { x: area.x, y: area.y, width: if area.width == 0 { 0 } else { 1 }, height: area.height }
}

/// The row of `area` that the top side is drawn in; an empty area has none.
pub open spec fn top_row(area: Rect) -> Rect {
    Rect { x: area.x, y: area.y, width: area.width, height: if area.height == 0 { 0 } else { 1 } }
}

/// The column of `area` that the right side is drawn in; an empty area has
/// none.
pub open spec fn right_column(area: Rect) -> Rect {
    Rect {
        x: sat_sub(area.spec_right() as int, 1),
        y: area.y,
        width: if area.width == 0 { 0 } else { 1 },
        height: area.height,
    }
}

/// The row of `area` that the bottom side is drawn in; an empty area has
/// none.
pub open spec fn bottom_row(area: Rect) -> Rect {
    Rect {
        x: area.x,
        y: sat_sub(area.spec_bottom() as int, 1),
        width: area.width,
        height: if area.height == 0 { 0 } else { 1 },
    }
}

/// The canvas with the corner characters of `set` put where two drawn sides
/// of `borders` meet. An empty area has no corners.
pub open spec fn corners_painted(borders: Borders, set: BorderSet, area: Rect, canvas: Canvas) -> Canvas {
    if area.spec_is_empty() {
        canvas
    } else {
        let right = sat_sub(area.spec_right() as int, 1) as int;
        let bottom = sat_sub(area.spec_bottom() as int, 1) as int;
        let c1 = if borders.has_right() && borders.has_bottom() {
            canvas.put_char(right, bottom, set.bottom_right)
        } else {
            canvas
        };
        let c2 = if borders.has_right() && borders.has_top() {
            c1.put_char(right, area.y as int, set.top_right)
        } else {
            c1
        };
        let c3 = if borders.has_left() && borders.has_bottom() {
            c2.put_char(area.x as int, bottom, set.bottom_left)
        } else {
            c2
        };
        if borders.has_left() && borders.has_top() {
            c3.put_char(area.x as int, area.y as int, set.top_left)
        } else {
            c3
        }
    }
}

/// The canvas with the border drawn along the edges of `area`: the drawn
/// sides first, left, top, right, bottom, then the corners over them. On an
/// empty area nothing is drawn.
pub open spec fn border_painted(borders: Borders, set: BorderSet, area: Rect, canvas: Canvas) -> Canvas {
    if area.spec_is_empty() {
        canvas
    } else {
        let c1 = if borders.has_left() {
            canvas.fill_char(left_column(area), set.left)
        } else {
            canvas
        };
        let c2 = if borders.has_top() {
            c1.fill_char(top_row(area), set.top)
        } else {
            c1
        };
        let c3 = if borders.has_right() {
            c2.fill_char(right_column(area), set.right)
        } else {
            c2
        };
        let c4 = if borders.has_bottom() {
            c3.fill_char(bottom_row(area), set.bottom)
        } else {
            c3
        };
        corners_painted(borders, set, area, c4)
    }
}

/// The area inside the border: one column or row less for each drawn side,
/// never less than nothing, and moved in from a drawn left or top side.
pub open spec fn border_area(borders: Borders, area: Rect) -> Rect {
    let columns: int = (if borders.has_left() { 1int } else { 0int }) + (if borders.has_right() { 1int } else { 0int });
    let rows: int = (if borders.has_top() { 1int } else { 0int }) + (if borders.has_bottom() { 1int } else { 0int });
    Rect {
        x: if borders.has_left() && sat_add(area.x as int, 1) <= area.spec_right() {
            sat_add(area.x as int, 1)
        } else if borders.has_left() {
            area.spec_right()
        } else {
            area.x
        },
        y: if borders.has_top() && sat_add(area.y as int, 1) <= area.spec_bottom() {
            sat_add(area.y as int, 1)
        } else if borders.has_top() {
            area.spec_bottom()
        } else {
            area.y
        },
        width: sat_sub(area.width as int, columns),
        height: sat_sub(area.height as int, rows),
    }
}

/// A garnish that draws a border.
///
/// An implementor says which sides it draws and with which characters; the
/// drawing itself is shared.
pub trait Border {
    /// The sides that are drawn.
    spec fn spec_borders(&self) -> Borders;

    /// The characters that are drawn.
    spec fn spec_border_set(&self) -> BorderSet;

    /// Returns the characters used for drawing.
    fn get_border_set(&self) -> (r: BorderSet)
        ensures
            r == self.spec_border_set(),
    ;

    /// Returns the sides that are drawn.
    fn get_borders(&self) -> (r: Borders)
        ensures
            r == self.spec_borders(),
    ;

    /// Draws the left side. On an empty area nothing is drawn.
    fn render_left(&self, area: Rect, buffer: &mut Buffer, symbol: char)
        ensures
            canvas_of(*final(buffer)) == canvas_of(*old(buffer)).fill_char(left_column(area), symbol),
    {
        let width: u16 = if area.width == 0 { 0 } else { 1 };
        fill_char(buffer, Rect { x: area.left(), y: area.top(), width, height: area.height }, symbol);
    }

    /// Draws the top side. On an empty area nothing is drawn.
    fn render_top(&self, area: Rect, buffer: &mut Buffer, symbol: char)
        ensures
            canvas_of(*final(buffer)) == canvas_of(*old(buffer)).fill_char(top_row(area), symbol),
    {
        let height: u16 = if area.height == 0 { 0 } else { 1 };
        fill_char(buffer, Rect { x: area.left(), y: area.top(), width: area.width, height }, symbol);
    }

    /// Draws the right side. On an empty area nothing is drawn.
    fn render_right(&self, area: Rect, buffer: &mut Buffer, symbol: char)
        ensures
            canvas_of(*final(buffer)) == canvas_of(*old(buffer)).fill_char(right_column(area), symbol),
    {
        let x: u16 = area.right().saturating_sub(1);
        let width: u16 = if area.width == 0 { 0 } else { 1 };
        fill_char(buffer, Rect { x, y: area.top(), width, height: area.height }, symbol);
    }

    /// Draws the bottom side. On an empty area nothing is drawn.
    fn render_bottom(&self, area: Rect, buffer: &mut Buffer, symbol: char)
        ensures
            canvas_of(*final(buffer)) == canvas_of(*old(buffer)).fill_char(bottom_row(area), symbol),
    {
        let y: u16 = area.bottom().saturating_sub(1);
        let height: u16 = if area.height == 0 { 0 } else { 1 };
        fill_char(buffer, Rect { x: area.left(), y, width: area.width, height }, symbol);
    }

    /// Draws a corner character wherever two drawn sides meet. On an empty
    /// area nothing is drawn.
    fn render_corners(&self, area: Rect, buffer: &mut Buffer, charset: &BorderSet)
        ensures
            canvas_of(*final(buffer)) == corners_painted(
                self.spec_borders(),
                *charset,
                area,
                canvas_of(*old(buffer)),
            ),
    {
        if area.is_empty() {
            return ;
        }
        let borders = self.get_borders();
        let right: u16 = area.right().saturating_sub(1);
        let bottom: u16 = area.bottom().saturating_sub(1);
        proof {
            lemma_flag_pairs(borders);
        }
        if borders.contains(Borders::right().union(Borders::bottom())) {
            set_char(buffer, right, bottom, charset.bottom_right);
        }
        if borders.contains(Borders::right().union(Borders::top())) {
            set_char(buffer, right, area.top(), charset.top_right);
        }
        if borders.contains(Borders::left().union(Borders::bottom())) {
            set_char(buffer, area.left(), bottom, charset.bottom_left);
        }
        if borders.contains(Borders::left().union(Borders::top())) {
            set_char(buffer, area.left(), area.top(), charset.top_left);
        }
    }
}

/// A set of flags holds two sides together exactly when it holds each.
pub proof fn lemma_flag_pairs(borders: Borders)
    ensures
        borders.spec_contains(Borders { bits: RIGHT_BIT | BOTTOM_BIT }) <==> (borders.has_right()
            && borders.has_bottom()),
        borders.spec_contains(Borders { bits: RIGHT_BIT | TOP_BIT }) <==> (borders.has_right()
            && borders.has_top()),
        borders.spec_contains(Borders { bits: LEFT_BIT | BOTTOM_BIT }) <==> (borders.has_left()
            && borders.has_bottom()),
        borders.spec_contains(Borders { bits: LEFT_BIT | TOP_BIT }) <==> (borders.has_left()
            && borders.has_top()),
        borders.spec_contains(Borders::spec_left()) <==> borders.has_left(),
        borders.spec_contains(Borders::spec_top()) <==> borders.has_top(),
        borders.spec_contains(Borders::spec_right()) <==> borders.has_right(),
        borders.spec_contains(Borders::spec_bottom()) <==> borders.has_bottom(),
{
    let b = borders.bits;
    assert((b & (2u8 | 4u8) == (2u8 | 4u8)) <==> (b & 2u8 == 2u8 && b & 4u8 == 4u8)) by (bit_vector);
    assert((b & (2u8 | 1u8) == (2u8 | 1u8)) <==> (b & 2u8 == 2u8 && b & 1u8 == 1u8)) by (bit_vector);
    assert((b & (8u8 | 4u8) == (8u8 | 4u8)) <==> (b & 8u8 == 8u8 && b & 4u8 == 4u8)) by (bit_vector);
    assert((b & (8u8 | 1u8) == (8u8 | 1u8)) <==> (b & 8u8 == 8u8 && b & 1u8 == 1u8)) by (bit_vector);
}

impl<T: Border> RenderModifier for T {
    open spec fn area_after(&self, area: Rect) -> Rect {
        border_area(self.spec_borders(), area)
    }

    open spec fn painted_before(&self, area: Rect, canvas: Canvas) -> Canvas {
        border_painted(self.spec_borders(), self.spec_border_set(), area, canvas)
    }

    open spec fn painted_after(&self, area: Rect, canvas: Canvas) -> Canvas {
        canvas
    }

    proof fn area_shrinks(&self, area: Rect) {
    }

    proof fn paints_in_place(&self, area: Rect, canvas: Canvas) {
        let p = self.painted_before(area, canvas);
        assert(p.cells.dom() =~= canvas.cells.dom());
    }

    fn before_render(&self, area: Rect, buffer: &mut Buffer) {
        if area.is_empty() {
            return ;
        }
        let borders = self.get_borders();
        let border_set = self.get_border_set();
        proof {
            lemma_flag_pairs(borders);
        }
        if borders.contains(Borders::left()) {
            self.render_left(area, buffer, border_set.left);
        }
        if borders.contains(Borders::top()) {
            self.render_top(area, buffer, border_set.top);
        }
        if borders.contains(Borders::right()) {
            self.render_right(area, buffer, border_set.right);
        }
        if borders.contains(Borders::bottom()) {
            self.render_bottom(area, buffer, border_set.bottom);
        }
        self.render_corners(area, buffer, &border_set);
    }

    fn modify_area(&self, area: Rect) -> (r: Rect) {
        let mut inner = area;
        let borders = self.get_borders();
        proof {
            lemma_flag_pairs(borders);
        }
        if borders.contains(Borders::left()) {
            let moved: u16 = inner.x.saturating_add(1);
            let right: u16 = inner.right();
            inner.x = if moved <= right { moved } else { right };
            inner.width = inner.width.saturating_sub(1);
        }
        if borders.contains(Borders::top()) {
            let moved: u16 = inner.y.saturating_add(1);
            let bottom: u16 = inner.bottom();
            inner.y = if moved <= bottom { moved } else { bottom };
            inner.height = inner.height.saturating_sub(1);
        }
        if borders.contains(Borders::right()) {
            inner.width = inner.width.saturating_sub(1);
        }
        if borders.contains(Borders::bottom()) {
            inner.height = inner.height.saturating_sub(1);
        }
        inner
    }

    fn after_render(&self, area: Rect, buffer: &mut Buffer) {
    }
}


/// A plain border of box-drawing characters.
///
/// The one field is the choice of sides.
#[derive(Debug, Clone, Copy, PartialEq, Eq, Hash, Structural)]
pub struct PlainBorder(pub Borders);

impl PlainBorder {
    /// Creates a border that draws the given sides.
    #[must_use]
    pub fn new(borders: Borders) -> (r: PlainBorder)
        ensures
            r.0 == borders,
    {
        PlainBorder(borders)
    }
}

impl Default for PlainBorder {
    /// A border that draws all four sides.
    fn default() -> (r: PlainBorder)
        ensures
            r.0 == Borders::spec_all(),
    {
        PlainBorder(Borders::all())
    }
}

impl Border for PlainBorder {
    open spec fn spec_borders(&self) -> Borders {
        self.0
    }

    open spec fn spec_border_set(&self) -> BorderSet {
        BorderSet::spec_plain()
    }

    fn get_borders(&self) -> (r: Borders) {
        self.0
    }

    fn get_border_set(&self) -> (r: BorderSet) {
        BorderSet::plain()
    }
}

/// A dashed border.
///
/// The one field is the choice of sides.
#[derive(Debug, Clone, Copy, PartialEq, Eq, Hash, Structural)]
pub struct DashedBorder(pub Borders);

impl DashedBorder {
    /// Creates a border that draws the given sides.
    #[must_use]
    pub fn new(borders: Borders) -> (r: DashedBorder)
        ensures
            r.0 == borders,
    {
        DashedBorder(borders)
    }
}

impl Default for DashedBorder {
    /// A border that draws all four sides.
    fn default() -> (r: DashedBorder)
        ensures
            r.0 == Borders::spec_all(),
    {
        DashedBorder(Borders::all())
    }
}

impl Border for DashedBorder {
    open spec fn spec_borders(&self) -> Borders {
        self.0
    }

    open spec fn spec_border_set(&self) -> BorderSet {
        BorderSet::spec_dashed()
    }

    fn get_borders(&self) -> (r: Borders) {
        self.0
    }

    fn get_border_set(&self) -> (r: BorderSet) {
        BorderSet::dashed()
    }
}

/// A dashed border with rounded corners.
///
/// The one field is the choice of sides.
#[derive(Debug, Clone, Copy, PartialEq, Eq, Hash, Structural)]
pub struct RoundedDashedBorder(pub Borders);

impl RoundedDashedBorder {
    /// Creates a border that draws the given sides.
    #[must_use]
    pub fn new(borders: Borders) -> (r: RoundedDashedBorder)
        ensures
            r.0 == borders,
    {
        RoundedDashedBorder(borders)
    }
}

impl Default for RoundedDashedBorder {
    /// A border that draws all four sides.
    fn default() -> (r: RoundedDashedBorder)
        ensures
            r.0 == Borders::spec_all(),
    {
        RoundedDashedBorder(Borders::all())
    }
}

impl Border for RoundedDashedBorder {
    open spec fn spec_borders(&self) -> Borders {
        self.0
    }

    open spec fn spec_border_set(&self) -> BorderSet {
        BorderSet::spec_rounded_dashed()
    }

    fn get_borders(&self) -> (r: Borders) {
        self.0
    }

    fn get_border_set(&self) -> (r: BorderSet) {
        BorderSet::rounded_dashed()
    }
}

/// A thick dashed border.
///
/// The one field is the choice of sides.
#[derive(Debug, Clone, Copy, PartialEq, Eq, Hash, Structural)]
pub struct ThickDashedBorder(pub Borders);

impl ThickDashedBorder {
    /// Creates a border that draws the given sides.
    #[must_use]
    pub fn new(borders: Borders) -> (r: ThickDashedBorder)
        ensures
            r.0 == borders,
    {
        ThickDashedBorder(borders)
    }
}

impl Default for ThickDashedBorder {
    /// A border that draws all four sides.
    fn default() -> (r: ThickDashedBorder)
        ensures
            r.0 == Borders::spec_all(),
    {
        ThickDashedBorder(Borders::all())
    }
}

impl Border for ThickDashedBorder {
    open spec fn spec_borders(&self) -> Borders {
        self.0
    }

    open spec fn spec_border_set(&self) -> BorderSet {
        BorderSet::spec_thick_dashed()
    }

    fn get_borders(&self) -> (r: Borders) {
        self.0
    }

    fn get_border_set(&self) -> (r: BorderSet) {
        BorderSet::thick_dashed()
    }
}

/// A border with rounded corners.
///
/// The one field is the choice of sides.
#[derive(Debug, Clone, Copy, PartialEq, Eq, Hash, Structural)]
pub struct RoundedBorder(pub Borders);

impl RoundedBorder {
    /// Creates a border that draws the given sides.
    #[must_use]
    pub fn new(borders: Borders) -> (r: RoundedBorder)
        ensures
            r.0 == borders,
    {
        RoundedBorder(borders)
    }
}

impl Default for RoundedBorder {
    /// A border that draws all four sides.
    fn default() -> (r: RoundedBorder)
        ensures
            r.0 == Borders::spec_all(),
    {
        RoundedBorder(Borders::all())
    }
}

impl Border for RoundedBorder {
    open spec fn spec_borders(&self) -> Borders {
        self.0
    }

    open spec fn spec_border_set(&self) -> BorderSet {
        BorderSet::spec_rounded()
    }

    fn get_borders(&self) -> (r: Borders) {
        self.0
    }

    fn get_border_set(&self) -> (r: BorderSet) {
        BorderSet::rounded()
    }
}

/// A double-line border.
///
/// The one field is the choice of sides.
#[derive(Debug, Clone, Copy, PartialEq, Eq, Hash, Structural)]
pub struct DoubleBorder(pub Borders);

impl DoubleBorder {
    /// Creates a border that draws the given sides.
    #[must_use]
    pub fn new(borders: Borders) -> (r: DoubleBorder)
        ensures
            r.0 == borders,
    {
        DoubleBorder(borders)
    }
}

impl Default for DoubleBorder {
    /// A border that draws all four sides.
    fn default() -> (r: DoubleBorder)
        ensures
            r.0 == Borders::spec_all(),
    {
        DoubleBorder(Borders::all())
    }
}

impl Border for DoubleBorder {
    open spec fn spec_borders(&self) -> Borders {
        self.0
    }

    open spec fn spec_border_set(&self) -> BorderSet {
        BorderSet::spec_double()
    }

    fn get_borders(&self) -> (r: Borders) {
        self.0
    }

    fn get_border_set(&self) -> (r: BorderSet) {
        BorderSet::double()
    }
}

/// A thick border.
///
/// The one field is the choice of sides.
#[derive(Debug, Clone, Copy, PartialEq, Eq, Hash, Structural)]
pub struct ThickBorder(pub Borders);

impl ThickBorder {
    /// Creates a border that draws the given sides.
    #[must_use]
    pub fn new(borders: Borders) -> (r: ThickBorder)
        ensures
            r.0 == borders,
    {
        ThickBorder(borders)
    }
}

impl Default for ThickBorder {
    /// A border that draws all four sides.
    fn default() -> (r: ThickBorder)
        ensures
            r.0 == Borders::spec_all(),
    {
        ThickBorder(Borders::all())
    }
}

impl Border for ThickBorder {
    open spec fn spec_borders(&self) -> Borders {
        self.0
    }

    open spec fn spec_border_set(&self) -> BorderSet {
        BorderSet::spec_thick()
    }

    fn get_borders(&self) -> (r: Borders) {
        self.0
    }

    fn get_border_set(&self) -> (r: BorderSet) {
        BorderSet::thick()
    }
}

/// A quadrant-style inside border.
///
/// The one field is the choice of sides.
#[derive(Debug, Clone, Copy, PartialEq, Eq, Hash, Structural)]
pub struct QuadrantInsideBorder(pub Borders);

impl QuadrantInsideBorder {
    /// Creates a border that draws the given sides.
    #[must_use]
    pub fn new(borders: Borders) -> (r: QuadrantInsideBorder)
        ensures
            r.0 == borders,
    {
        QuadrantInsideBorder(borders)
    }
}

impl Default for QuadrantInsideBorder {
    /// A border that draws all four sides.
    fn default() -> (r: QuadrantInsideBorder)
        ensures
            r.0 == Borders::spec_all(),
    {
        QuadrantInsideBorder(Borders::all())
    }
}

impl Border for QuadrantInsideBorder {
    open spec fn spec_borders(&self) -> Borders {
        self.0
    }

    open spec fn spec_border_set(&self) -> BorderSet {
        BorderSet::spec_quadrant_inside()
    }

    fn get_borders(&self) -> (r: Borders) {
        self.0
    }

    fn get_border_set(&self) -> (r: BorderSet) {
        BorderSet::quadrant_inside()
    }
}

/// A quadrant-style outside border.
///
/// The one field is the choice of sides.
#[derive(Debug, Clone, Copy, PartialEq, Eq, Hash, Structural)]
pub struct QuadrantOutsideBorder(pub Borders);

impl QuadrantOutsideBorder {
    /// Creates a border that draws the given sides.
    #[must_use]
    pub fn new(borders: Borders) -> (r: QuadrantOutsideBorder)
        ensures
            r.0 == borders,
    {
        QuadrantOutsideBorder(borders)
    }
}

impl Default for QuadrantOutsideBorder {
    /// A border that draws all four sides.
    fn default() -> (r: QuadrantOutsideBorder)
        ensures
            r.0 == Borders::spec_all(),
    {
        QuadrantOutsideBorder(Borders::all())
    }
}

impl Border for QuadrantOutsideBorder {
    open spec fn spec_borders(&self) -> Borders {
        self.0
    }

    open spec fn spec_border_set(&self) -> BorderSet {
        BorderSet::spec_quadrant_outside()
    }

    fn get_borders(&self) -> (r: Borders) {
        self.0
    }

    fn get_border_set(&self) -> (r: BorderSet) {
        BorderSet::quadrant_outside()
    }
}

/// A fat inside border.
///
/// The one field is the choice of sides.
#[derive(Debug, Clone, Copy, PartialEq, Eq, Hash, Structural)]
pub struct FatInsideBorder(pub Borders);

impl FatInsideBorder {
    /// Creates a border that draws the given sides.
    #[must_use]
    pub fn new(borders: Borders) -> (r: FatInsideBorder)
        ensures
            r.0 == borders,
    {
        FatInsideBorder(borders)
    }
}

impl Default for FatInsideBorder {
    /// A border that draws all four sides.
    fn default() -> (r: FatInsideBorder)
        ensures
            r.0 == Borders::spec_all(),
    {
        FatInsideBorder(Borders::all())
    }
}

impl Border for FatInsideBorder {
    open spec fn spec_borders(&self) -> Borders {
        self.0
    }

    open spec fn spec_border_set(&self) -> BorderSet {
        BorderSet::spec_fat_inside()
    }

    fn get_borders(&self) -> (r: Borders) {
        self.0
    }

    fn get_border_set(&self) -> (r: BorderSet) {
        BorderSet::fat_inside()
    }
}

/// A fat outside border.
///
/// The one field is the choice of sides.
#[derive(Debug, Clone, Copy, PartialEq, Eq, Hash, Structural)]
pub struct FatOutsideBorder(pub Borders);

impl FatOutsideBorder {
    /// Creates a border that draws the given sides.
    #[must_use]
    pub fn new(borders: Borders) -> (r: FatOutsideBorder)
        ensures
            r.0 == borders,
    {
        FatOutsideBorder(borders)
    }
}

impl Default for FatOutsideBorder {
    /// A border that draws all four sides.
    fn default() -> (r: FatOutsideBorder)
        ensures
            r.0 == Borders::spec_all(),
    {
        FatOutsideBorder(Borders::all())
    }
}

impl Border for FatOutsideBorder {
    open spec fn spec_borders(&self) -> Borders {
        self.0
    }

    open spec fn spec_border_set(&self) -> BorderSet {
        BorderSet::spec_fat_outside()
    }

    fn get_borders(&self) -> (r: Borders) {
        self.0
    }

    fn get_border_set(&self) -> (r: BorderSet) {
        BorderSet::fat_outside()
    }
}

/// A border drawn with one character for all sides and corners.
#[derive(Debug, Clone, Copy, PartialEq, Eq, Hash, Structural)]
pub struct CharBorder {
    pub symbol: char,
    pub borders: Borders,
}

impl Default for CharBorder {
    /// A border of spaces on all four sides.
    fn default() -> (r: CharBorder)
        ensures
            r == (CharBorder { symbol: ' ', borders: Borders::spec_all() }),
    {
        CharBorder { symbol: ' ', borders: Borders::all() }
    }
}

impl CharBorder {
    /// Creates a border that draws all four sides with `symbol`.
    #[must_use]
    pub fn new(symbol: char) -> (r: CharBorder)
        ensures
            r == (CharBorder { symbol, borders: Borders::spec_all() }),
    {
        CharBorder { symbol, borders: Borders::all() }
    }

    /// Sets which sides are drawn.
    #[must_use]
    pub fn borders(self, borders: Borders) -> (r: CharBorder)
        ensures
            r == (CharBorder { borders, ..self }),
    {
        CharBorder { symbol: self.symbol, borders }
    }
}

impl Border for CharBorder {
    open spec fn spec_borders(&self) -> Borders {
        self.borders
    }

    open spec fn spec_border_set(&self) -> BorderSet {
        BorderSet::spec_new(self.symbol)
    }

    fn get_borders(&self) -> (r: Borders) {
        self.borders
    }

    fn get_border_set(&self) -> (r: BorderSet) {
        BorderSet::new(self.symbol)
    }
}

/// A border drawn with a character set of the caller's choice.
#[derive(Debug, Clone, Copy, PartialEq, Eq, Hash, Structural)]
pub struct CustomBorder {
    /// The characters that the border is drawn with.
    pub char_set: BorderSet,
    /// The sides that are drawn.
    pub borders: Borders,
}

impl Default for CustomBorder {
    /// A plain border on all four sides.
    fn default() -> (r: CustomBorder)
        ensures
            r == (CustomBorder { char_set: BorderSet::spec_plain(), borders: Borders::spec_all() }),
    {
        CustomBorder { char_set: BorderSet::plain(), borders: Borders::all() }
    }
}

impl CustomBorder {
    /// Creates a border that draws all four sides with `char_set`.
    #[must_use]
    pub fn new(char_set: BorderSet) -> (r: CustomBorder)
        ensures
            r == (CustomBorder { char_set, borders: Borders::spec_all() }),
    {
        CustomBorder { char_set, borders: Borders::all() }
    }

    /// Sets which sides are drawn.
    #[must_use]
    pub fn borders(self, borders: Borders) -> (r: CustomBorder)
        ensures
            r == (CustomBorder { borders, ..self }),
    {
        CustomBorder { char_set: self.char_set, borders }
    }
}

impl Border for CustomBorder {
    open spec fn spec_borders(&self) -> Borders {
        self.borders
    }

    open spec fn spec_border_set(&self) -> BorderSet {
        self.char_set
    }

    fn get_borders(&self) -> (r: Borders) {
        self.borders
    }

    fn get_border_set(&self) -> (r: BorderSet) {
        self.char_set
    }
}

} // verus!
