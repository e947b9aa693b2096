//! What the library asks of a widget: that it can be drawn into an area of
//! a buffer.
//!
//! There are four ways to draw, as the host toolkit has them: by value or
//! by reference, and with or without a state that the caller keeps. The
//! wrappers of this library implement each way whenever the widget they hold
//! does.

use vstd::prelude::*;
use crate::area::Rect;
use crate::canvas::{canvas_of, Canvas};
use ratatui::buffer::Buffer;

verus! {

/// A widget that is used up by drawing it.
pub trait Widget: Sized {
    /// The canvas after the widget is drawn into `area`.
    spec fn rendered(self, area: Rect, canvas: Canvas) -> Canvas;

    /// Draws the widget into `area`.
    fn render(self, area: Rect, buf: &mut Buffer)
        ensures
            canvas_of(*final(buf)) == self.rendered(area, canvas_of(*old(buf))),
    ;
}

/// A widget that can be drawn again and again.
pub trait WidgetRef {
    /// The canvas after the widget is drawn into `area`.
    spec fn rendered_ref(&self, area: Rect, canvas: Canvas) -> Canvas;

    /// Draws the widget into `area`.
    fn render_ref(&self, area: Rect, buf: &mut Buffer)
        ensures
            canvas_of(*final(buf)) == self.rendered_ref(area, canvas_of(*old(buf))),
    ;
}

/// A widget that is used up by drawing it and that reads and writes a state
/// of the caller's.
pub trait StatefulWidget: Sized {
    /// What the caller keeps between two drawings.
    type State;

    /// The canvas and the state after the widget is drawn into `area`.
    spec fn rendered(self, area: Rect, canvas: Canvas, state: Self::State) -> (Canvas, Self::State);

    /// Draws the widget into `area`.
    fn render(self, area: Rect, buf: &mut Buffer, state: &mut Self::State)
        ensures
            (canvas_of(*final(buf)), *final(state)) == self.rendered(
                area,
                canvas_of(*old(buf)),
                *old(state),
            ),
    ;
}

/// A widget that can be drawn again and again and that reads and writes a
/// state of the caller's.
pub trait StatefulWidgetRef {
    /// What the caller keeps between two drawings.
    type State;

    /// The canvas and the state after the widget is drawn into `area`.
    spec fn rendered_ref(&self, area: Rect, canvas: Canvas, state: Self::State) -> (
        Canvas,
        Self::State,
    );

    /// Draws the widget into `area`.
    fn render_ref(&self, area: Rect, buf: &mut Buffer, state: &mut Self::State)
        ensures
            (canvas_of(*final(buf)), *final(state)) == self.rendered_ref(
                area,
                canvas_of(*old(buf)),
                *old(state),
            ),
    ;
}

} // verus!
