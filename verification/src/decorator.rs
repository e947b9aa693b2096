//! A widget with exactly one garnish.
//!
//! More garnishes are added by wrapping the wrapper: each `decorate` puts a
//! new layer around what is there. The outermost layer acts first and on
//! the whole area; what it paints over the widget, it paints last.

use vstd::prelude::*;
use crate::area::Rect;
use crate::canvas::Canvas;
use crate::modifier::RenderModifier;
use crate::widget::{StatefulWidget, StatefulWidgetRef, Widget, WidgetRef};
use ratatui::buffer::Buffer;

verus! {

/// A widget and one garnish around it.
#[derive(Debug)]
pub struct DecoratedWidget<W, G> {
    pub widget: W,
    pub garnish: G,
}

impl<W: Widget, G: RenderModifier> DecoratedWidget<W, G> {
    /// Wraps a widget with a garnish.
    pub fn new(widget: W, garnish: G) -> (r: Self)
        ensures
            r.widget == widget,
            r.garnish == garnish,
    {
        DecoratedWidget { widget, garnish }
    }

    /// Puts a further garnish around this wrapper.
    #[must_use]
    pub fn decorate<R: RenderModifier>(self, garnish: R) -> (r: DecoratedWidget<Self, R>)
        ensures
            r.widget == self,
            r.garnish == garnish,
    {
        DecoratedWidget { widget: self, garnish }
    }
}

impl<W: Widget, G: RenderModifier> Widget for DecoratedWidget<W, G> {
    open spec fn rendered(self, area: Rect, canvas: Canvas) -> Canvas {
        self.garnish.painted_after(
            area,
            self.widget.rendered(
                self.garnish.area_after(area),
                self.garnish.painted_before(area, canvas),
            ),
        )
    }

    fn render(self, area: Rect, buf: &mut Buffer) {
        self.garnish.before_render(area, buf);
        let inner = self.garnish.modify_area(area);
        self.widget.render(inner, buf);
        self.garnish.after_render(area, buf);
    }
}

impl<W: WidgetRef, G: RenderModifier> WidgetRef for DecoratedWidget<W, G> {
    open spec fn rendered_ref(&self, area: Rect, canvas: Canvas) -> Canvas {
        self.garnish.painted_after(
            area,
            self.widget.rendered_ref(
                self.garnish.area_after(area),
                self.garnish.painted_before(area, canvas),
            ),
        )
    }

    fn render_ref(&self, area: Rect, buf: &mut Buffer) {
        self.garnish.before_render(area, buf);
        let inner = self.garnish.modify_area(area);
        self.widget.render_ref(inner, buf);
        self.garnish.after_render(area, buf);
    }
}

/// A widget with a state of the caller's and one garnish around it.
#[derive(Debug)]
pub struct DecoratedStatefulWidget<W, G> {
    pub widget: W,
    pub garnish: G,
}

impl<W: StatefulWidget, G: RenderModifier> DecoratedStatefulWidget<W, G> {
    /// Wraps a widget with a garnish.
    pub fn new(widget: W, garnish: G) -> (r: Self)
        ensures
            r.widget == widget,
            r.garnish == garnish,
    {
        DecoratedStatefulWidget { widget, garnish }
    }

    /// Puts a further garnish around this wrapper.
    #[must_use]
    pub fn decorate<R: RenderModifier>(self, garnish: R) -> (r: DecoratedStatefulWidget<Self, R>)
        ensures
            r.widget == self,
            r.garnish == garnish,
    {
        DecoratedStatefulWidget { widget: self, garnish }
    }
}

impl<W: StatefulWidget, G: RenderModifier> StatefulWidget for DecoratedStatefulWidget<W, G> {
    type State = W::State;

    open spec fn rendered(self, area: Rect, canvas: Canvas, state: W::State) -> (Canvas, W::State) {
        let drawn = self.widget.rendered(
            self.garnish.area_after(area),
            self.garnish.painted_before(area, canvas),
            state,
        );
        (self.garnish.painted_after(area, drawn.0), drawn.1)
    }

    fn render(self, area: Rect, buf: &mut Buffer, state: &mut W::State) {
        self.garnish.before_render(area, buf);
        let inner = self.garnish.modify_area(area);
        self.widget.render(inner, buf, state);
        self.garnish.after_render(area, buf);
    }
}

impl<W: StatefulWidgetRef, G: RenderModifier> StatefulWidgetRef for DecoratedStatefulWidget<W, G> {
    type State = W::State;

    open spec fn rendered_ref(&self, area: Rect, canvas: Canvas, state: W::State) -> (
        Canvas,
        W::State,
    ) {
        let drawn = self.widget.rendered_ref(
            self.garnish.area_after(area),
            self.garnish.painted_before(area, canvas),
            state,
        );
        (self.garnish.painted_after(area, drawn.0), drawn.1)
    }

    fn render_ref(&self, area: Rect, buf: &mut Buffer, state: &mut W::State) {
        self.garnish.before_render(area, buf);
        let inner = self.garnish.modify_area(area);
        self.widget.render_ref(inner, buf, state);
        self.garnish.after_render(area, buf);
    }
}

} // verus!
