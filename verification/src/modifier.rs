//! The contract that every garnish keeps.

use vstd::prelude::*;
use crate::area::Rect;
use crate::canvas::{canvas_of, Canvas};
use ratatui::buffer::Buffer;

verus! {

/// Something that changes how a widget is rendered: it may take space from
/// the widget's area, paint before the widget is drawn, and paint over what
/// the widget drew.
///
/// The three spec functions are the garnish's model; the three executable
/// methods compute exactly what the model says. Both paint calls are given
/// the area as it is before the garnish's own `modify_area` shrinks it.
pub trait RenderModifier {
    /// The area left to the widget when the garnish is given `area`.
    spec fn area_after(&self, area: Rect) -> Rect;

    /// The canvas after the garnish has painted, ahead of the widget, on
    /// `area`.
    spec fn painted_before(&self, area: Rect, canvas: Canvas) -> Canvas;

    /// The canvas after the garnish has painted, over the widget, on `area`.
    spec fn painted_after(&self, area: Rect, canvas: Canvas) -> Canvas;

    /// A garnish only takes space away: every cell it leaves to the widget
    /// is a cell it was given, and an empty area stays empty.
    proof fn area_shrinks(&self, area: Rect)
        ensures
            self.area_after(area).within(area),
            area.spec_is_empty() ==> self.area_after(area).spec_is_empty(),
    ;

    /// A garnish paints nothing when the area it is given is empty, and
    /// never changes which cells the canvas holds.
    proof fn paints_in_place(&self, area: Rect, canvas: Canvas)
        ensures
            area.spec_is_empty() ==> self.painted_before(area, canvas) == canvas,
            area.spec_is_empty() ==> self.painted_after(area, canvas) == canvas,
            self.painted_before(area, canvas).area == canvas.area,
            self.painted_after(area, canvas).area == canvas.area,
            self.painted_before(area, canvas).cells.dom() == canvas.cells.dom(),
            self.painted_after(area, canvas).cells.dom() == canvas.cells.dom(),
    ;

    /// Returns the area that is left to the widget.
    fn modify_area(&self, area: Rect) -> (r: Rect)
        ensures
            r == self.area_after(area),
    ;

    /// Paints what belongs under the widget.
    fn before_render(&self, area: Rect, buf: &mut Buffer)
        ensures
            canvas_of(*final(buf)) == self.painted_before(area, canvas_of(*old(buf))),
    ;

    /// Paints what belongs over the widget.
    fn after_render(&self, area: Rect, buf: &mut Buffer)
        ensures
            canvas_of(*final(buf)) == self.painted_after(area, canvas_of(*old(buf))),
    ;
}

} // verus!
