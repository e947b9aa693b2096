//! Garnishes for terminal widgets: borders, titles, padding, styles and
//! shadows that are stacked around a widget without touching the widget.
//!
//! A widget is wrapped together with its garnishes, either in a list
//! ([`GarnishedWidget`]) or one layer at a time ([`DecoratedWidget`]). When
//! the wrapper is drawn, each garnish may paint under the widget, take some
//! of the area for itself, and paint over the widget. Every garnish keeps
//! the contract of [`RenderModifier`], and every step of drawing is stated
//! over the [`canvas::Canvas`] of the buffer that is drawn on.

pub mod area;
pub mod style;
pub mod canvas;
pub mod modifier;
pub mod border;
pub mod shadow;
pub mod padding;
pub mod text;
pub mod title;
pub mod widget;
pub mod garnish;
pub mod garnished;
pub mod decorator;
pub mod garnishable;
pub mod laws;

pub use area::Rect;
pub use decorator::{DecoratedStatefulWidget, DecoratedWidget};
pub use garnish::Garnish;
pub use garnishable::{
    GarnishableStatefulWidget, GarnishableStatefulWidgetRef, GarnishableWidget,
    GarnishableWidgetRef,
};
pub use garnished::{GarnishedStatefulWidget, GarnishedWidget};
pub use modifier::RenderModifier;
pub use padding::Padding;
pub use style::Style;
pub use widget::{StatefulWidget, StatefulWidgetRef, Widget, WidgetRef};
