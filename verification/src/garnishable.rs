//! `garnish` and `decorate` on every widget.

use vstd::prelude::*;
use vstd::std_specs::convert::IntoSpec;
use crate::decorator::{DecoratedStatefulWidget, DecoratedWidget};
use crate::garnish::Garnish;
use crate::garnished::{copy_garnishes, GarnishedStatefulWidget, GarnishedWidget};
use crate::modifier::RenderModifier;
use crate::widget::{StatefulWidget, StatefulWidgetRef, Widget, WidgetRef};

verus! {

/// A widget that can be garnished: every widget.
pub trait GarnishableWidget: Widget + Sized {
    /// Wraps the widget with one garnish.
    fn garnish<G: Into<Garnish>>(self, garnish: G) -> (r: GarnishedWidget<Self>)
        ensures
            r.widget == self,
            G::obeys_into_spec() ==> r.garnishes@ == seq![garnish.into_spec()],
            r.garnishes@.len() == 1,
    {
        GarnishedWidget::new(self, garnish)
    }

    /// Wraps the widget with a list of garnishes.
    fn garnishes(self, garnishes: Vec<Garnish>) -> (r: GarnishedWidget<Self>)
        ensures
            r.widget == self,
            r.garnishes@ == garnishes@,
    {
        GarnishedWidget { widget: self, garnishes }
    }

    /// Wraps the widget with a copy of a list of garnishes.
    fn garnishes_from_slice(self, garnishes: &[Garnish]) -> (r: GarnishedWidget<Self>)
        ensures
            r.widget == self,
            r.garnishes@ == garnishes@,
    {
        GarnishedWidget { widget: self, garnishes: copy_garnishes(garnishes) }
    }

    /// Wraps the widget with one garnish, in the nesting form.
    fn decorate<R: RenderModifier>(self, garnish: R) -> (r: DecoratedWidget<Self, R>)
        ensures
            r.widget == self,
            r.garnish == garnish,
    {
        DecoratedWidget::new(self, garnish)
    }
}

impl<W: Widget> GarnishableWidget for W {
}

/// A widget drawn by reference that can be garnished: every such widget.
pub trait GarnishableWidgetRef: WidgetRef + Sized {
    /// Wraps the widget with one garnish.
    fn garnish_ref<G: Into<Garnish>>(self, garnish: G) -> (r: GarnishedWidget<Self>)
        ensures
            r.widget == self,
            G::obeys_into_spec() ==> r.garnishes@ == seq![garnish.into_spec()],
            r.garnishes@.len() == 1,
    {
        GarnishedWidget::new(self, garnish)
    }
}

impl<W: WidgetRef> GarnishableWidgetRef for W {
}

/// A widget with state that can be garnished: every such widget.
pub trait GarnishableStatefulWidget: StatefulWidget + Sized {
    /// Wraps the widget with one garnish.
    fn garnish<G: Into<Garnish>>(self, garnish: G) -> (r: GarnishedStatefulWidget<Self>)
        ensures
            r.widget == self,
            G::obeys_into_spec() ==> r.garnishes@ == seq![garnish.into_spec()],
            r.garnishes@.len() == 1,
    {
        GarnishedStatefulWidget::new(self, garnish)
    }

    /// Wraps the widget with a list of garnishes.
    fn garnishes(self, garnishes: Vec<Garnish>) -> (r: GarnishedStatefulWidget<Self>)
        ensures
            r.widget == self,
            r.garnishes@ == garnishes@,
    {
        GarnishedStatefulWidget { widget: self, garnishes }
    }

    /// Wraps the widget with a copy of a list of garnishes.
    fn garnishes_from_slice(self, garnishes: &[Garnish]) -> (r: GarnishedStatefulWidget<Self>)
        ensures
            r.widget == self,
            r.garnishes@ == garnishes@,
    {
        GarnishedStatefulWidget { widget: self, garnishes: copy_garnishes(garnishes) }
    }

    /// Wraps the widget with one garnish, in the nesting form.
    fn decorate<R: RenderModifier>(self, garnish: R) -> (r: DecoratedStatefulWidget<Self, R>)
        ensures
            r.widget == self,
            r.garnish == garnish,
    {
        DecoratedStatefulWidget::new(self, garnish)
    }
}

impl<W: StatefulWidget> GarnishableStatefulWidget for W {
}

/// A widget with state, drawn by reference, that can be garnished: every
/// such widget.
pub trait GarnishableStatefulWidgetRef: StatefulWidgetRef + Sized {
    /// Wraps the widget with one garnish.
    fn garnish_ref<G: Into<Garnish>>(self, garnish: G) -> (r: GarnishedStatefulWidget<Self>)
        ensures
            r.widget == self,
            G::obeys_into_spec() ==> r.garnishes@ == seq![garnish.into_spec()],
            r.garnishes@.len() == 1,
    {
        GarnishedStatefulWidget::new(self, garnish)
    }
}

impl<W: StatefulWidgetRef> GarnishableStatefulWidgetRef for W {
}

} // verus!
