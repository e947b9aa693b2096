//! Padding: empty space between a widget and what lies around it.

use vstd::prelude::*;
use crate::area::{sat_add, sat_sub, Rect};
use crate::canvas::Canvas;
use crate::modifier::RenderModifier;
use ratatui::buffer::Buffer;

verus! {

/// The number of columns and rows to leave free on each side of a widget.
#[derive(Debug, Clone, Copy, PartialEq, Eq, Hash, Structural)]
pub struct Padding {
    pub left: u16,
    pub right: u16,
    pub top: u16,
    pub bottom: u16,
}

impl Padding {
    /// The area inside the padding: moved in by the left and top padding,
    /// and smaller by the padding of both sides, never less than nothing.
    pub open spec fn padded(self, area: Rect) -> Rect {
        Rect {
            x: sat_add(area.x as int, self.left as int),
            y: sat_add(area.y as int, self.top as int),
            width: sat_sub(area.width as int, self.left + self.right),
            height: sat_sub(area.height as int, self.top + self.bottom),
        }
    }

    /// Creates a padding from the four sides.
    #[must_use]
    pub fn new(left: u16, right: u16, top: u16, bottom: u16) -> (r: Padding)
        ensures
            r == (Padding { left, right, top, bottom }),
    {
        Padding { left, right, top, bottom }
    }

    /// No padding.
    #[must_use]
    pub fn zero() -> (r: Padding)
        ensures
            r == (Padding { left: 0, right: 0, top: 0, bottom: 0 }),
    {
        Padding { left: 0, right: 0, top: 0, bottom: 0 }
    }

    /// The same padding on all four sides.
    #[must_use]
    pub fn uniform(value: u16) -> (r: Padding)
        ensures
            r == (Padding { left: value, right: value, top: value, bottom: value }),
    {
        Padding { left: value, right: value, top: value, bottom: value }
    }

    /// Padding on the left and right only.
    #[must_use]
    pub fn horizontal(value: u16) -> (r: Padding)
        ensures
            r == (Padding { left: value, right: value, top: 0, bottom: 0 }),
    {
        Padding { left: value, right: value, top: 0, bottom: 0 }
    }

    /// Padding on the top and bottom only.
    #[must_use]
    pub fn vertical(value: u16) -> (r: Padding)
        ensures
            r == (Padding { left: 0, right: 0, top: value, bottom: value }),
    {
        Padding { left: 0, right: 0, top: value, bottom: value }
    }

    /// Padding of `x` on the left and right and of `y` on the top and bottom.
    #[must_use]
    pub fn symmetric(x: u16, y: u16) -> (r: Padding)
        ensures
            r == (Padding { left: x, right: x, top: y, bottom: y }),
    {
        Padding { left: x, right: x, top: y, bottom: y }
    }

    /// Padding on the left only.
    #[must_use]
    pub fn left(value: u16) -> (r: Padding)
        ensures
            r == (Padding { left: value, right: 0, top: 0, bottom: 0 }),
    {
        Padding { left: value, right: 0, top: 0, bottom: 0 }
    }

    /// Padding on the right only.
    #[must_use]
    pub fn right(value: u16) -> (r: Padding)
        ensures
            r == (Padding { left: 0, right: value, top: 0, bottom: 0 }),
    {
        Padding { left: 0, right: value, top: 0, bottom: 0 }
    }

    /// Padding on the top only.
    #[must_use]
    pub fn top(value: u16) -> (r: Padding)
        ensures
            r == (Padding { left: 0, right: 0, top: value, bottom: 0 }),
    {
        Padding { left: 0, right: 0, top: value, bottom: 0 }
    }

    /// Padding on the bottom only.
    #[must_use]
    pub fn bottom(value: u16) -> (r: Padding)
        ensures
            r == (Padding { left: 0, right: 0, top: 0, bottom: value }),
    {
        Padding { left: 0, right: 0, top: 0, bottom: value }
    }
}

impl Default for Padding {
    /// No padding.
    fn default() -> (r: Padding)
        ensures
            r == (Padding { left: 0, right: 0, top: 0, bottom: 0 }),
    {
        Padding::zero()
    }
}

impl RenderModifier for Padding {
    open spec fn area_after(&self, area: Rect) -> Rect {
        self.padded(area)
    }

    open spec fn painted_before(&self, area: Rect, canvas: Canvas) -> Canvas {
        canvas
    }

    open spec fn painted_after(&self, area: Rect, canvas: Canvas) -> Canvas {
        canvas
    }

    proof fn area_shrinks(&self, area: Rect) {
    }

    proof fn paints_in_place(&self, area: Rect, canvas: Canvas) {
    }

    fn modify_area(&self, area: Rect) -> (r: Rect) {
        let horizontal: u16 = self.left.saturating_add(self.right);
        let vertical: u16 = self.top.saturating_add(self.bottom);
        Rect {
            x: area.x.saturating_add(self.left),
            y: area.y.saturating_add(self.top),
            width: area.width.saturating_sub(horizontal),
            height: area.height.saturating_sub(vertical),
        }
    }

    fn before_render(&self, area: Rect, buffer: &mut Buffer) {
    }

    fn after_render(&self, area: Rect, buffer: &mut Buffer) {
    }
}

} // verus!
