//! Rectangular areas of terminal cells.

use vstd::prelude::*;

verus! {

/// A rectangle of cells: its top-left corner and its extent.
///
/// An area of width 0 or of height 0 is empty: it covers no cell.
#[derive(Debug, Clone, Copy, PartialEq, Eq, Hash, Structural)]
pub struct Rect {
    pub x: u16,
    pub y: u16,
    pub width: u16,
    pub height: u16,
}

/// `a + b`, held at the largest `u16`.
pub open spec fn sat_add(a: int, b: int) -> u16 {
    if a + b > u16::MAX {
        u16::MAX
    } else if a + b < 0 {
        0
    } else {
        (a + b) as u16
    }
}

/// `a - b`, held at 0.
pub open spec fn sat_sub(a: int, b: int) -> u16 {
    if a - b < 0 {
        0
    } else if a - b > u16::MAX {
        u16::MAX
    } else {
        (a - b) as u16
    }
}

impl Rect {
    /// The area at the origin that covers nothing.
    pub open spec fn spec_zero() -> Rect {
        Rect { x: 0, y: 0, width: 0, height: 0 }
    }

    /// The column just right of the area, held at the largest coordinate.
    pub open spec fn spec_right(self) -> u16 {
        sat_add(self.x as int, self.width as int)
    }

    /// The row just below the area, held at the largest coordinate.
    pub open spec fn spec_bottom(self) -> u16 {
        sat_add(self.y as int, self.height as int)
    }

    /// Whether the area has no width or no height.
    pub open spec fn spec_is_empty(self) -> bool {
        self.width == 0 || self.height == 0
    }

    /// Whether the cell at column `x`, row `y` lies in the area.
    pub open spec fn covers(self, x: int, y: int) -> bool {
        self.x <= x < self.spec_right() && self.y <= y < self.spec_bottom()
    }

    /// Whether every cell of `self` is a cell of `outer`.
    pub open spec fn within(self, outer: Rect) -> bool {
        forall|x: int, y: int| self.covers(x, y) ==> outer.covers(x, y)
    }

    /// The cells that `self` and `other` share, as an area.
    pub open spec fn spec_intersection(self, other: Rect) -> Rect {
        let x1 = if self.x >= other.x { self.x } else { other.x };
        let y1 = if self.y >= other.y { self.y } else { other.y };
        let x2 = if self.spec_right() <= other.spec_right() { self.spec_right() } else { other.spec_right() };
        let y2 = if self.spec_bottom() <= other.spec_bottom() { self.spec_bottom() } else { other.spec_bottom() };
        Rect { x: x1, y: y1, width: sat_sub(x2 as int, x1 as int), height: sat_sub(y2 as int, y1 as int) }
    }

    /// An area with the given corner; the extent is cut so that the far
    /// edges stay within the coordinate range.
    pub fn new(x: u16, y: u16, width: u16, height: u16) -> (r: Rect)
        ensures
            r.x == x,
            r.y == y,
            r.width == (if x + width > u16::MAX { u16::MAX - x } else { width as int }),
            r.height == (if y + height > u16::MAX { u16::MAX - y } else { height as int }),
    {
        let max_width: u16 = u16::MAX - x;
        let max_height: u16 = u16::MAX - y;
        let width: u16 = if width > max_width { max_width } else { width };
        let height: u16 = if height > max_height { max_height } else { height };
        Rect { x, y, width, height }
    }

    /// The empty area at the origin.
    pub fn zero() -> (r: Rect)
        ensures
            r == Rect::spec_zero(),
    {
        Rect { x: 0, y: 0, width: 0, height: 0 }
    }

    /// Whether the area covers no cell for want of width or height.
    pub fn is_empty(self) -> (r: bool)
        ensures
            r == self.spec_is_empty(),
    {
        self.width == 0 || self.height == 0
    }

    /// The leftmost column.
    pub fn left(self) -> (r: u16)
        ensures
            r == self.x,
    {
        self.x
    }

    /// The column just right of the area.
    pub fn right(self) -> (r: u16)
        ensures
            r == self.spec_right(),
    {
        self.x.saturating_add(self.width)
    }

    /// The topmost row.
    pub fn top(self) -> (r: u16)
        ensures
            r == self.y,
    {
        self.y
    }

    /// The row just below the area.
    pub fn bottom(self) -> (r: u16)
        ensures
            r == self.spec_bottom(),
    {
        self.y.saturating_add(self.height)
    }

    /// Whether the cell at column `x`, row `y` lies in the area.
    pub fn contains(self, x: u16, y: u16) -> (r: bool)
        ensures
            r == self.covers(x as int, y as int),
    {
        x >= self.x && x < self.right() && y >= self.y && y < self.bottom()
    }

    /// The area that `self` and `other` share.
    pub fn intersection(self, other: Rect) -> (r: Rect)
        ensures
            r == self.spec_intersection(other),
            forall|x: int, y: int| r.covers(x, y) <==> (self.covers(x, y) && other.covers(x, y)),
    {
        let x1: u16 = if self.x >= other.x { self.x } else { other.x };
        let y1: u16 = if self.y >= other.y { self.y } else { other.y };
        let r1: u16 = self.right();
        let r2: u16 = other.right();
        let b1: u16 = self.bottom();
        let b2: u16 = other.bottom();
        let x2: u16 = if r1 <= r2 { r1 } else { r2 };
        let y2: u16 = if b1 <= b2 { b1 } else { b2 };
        Rect { x: x1, y: y1, width: x2.saturating_sub(x1), height: y2.saturating_sub(y1) }
    }
}

} // verus!
