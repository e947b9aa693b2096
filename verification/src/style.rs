//! Styles: the colours and text attributes that a garnish paints with.

use vstd::prelude::*;
use crate::area::Rect;
use crate::canvas::{fill_style, Canvas};
use crate::modifier::RenderModifier;
use ratatui::buffer::Buffer;

verus! {

/// A colour of the host toolkit. The library hands colours on and never
/// looks inside one.
#[verifier::external_type_specification]
#[verifier::external_body]
pub struct ExColor(ratatui::style::Color);

/// A change of style: colours to set, where given, and text attributes to
/// switch on and off, as bit sets in the host toolkit's numbering.
#[derive(Debug, Clone, Copy, PartialEq, Eq, Hash)]
pub struct Style {
    pub fg: Option<ratatui::style::Color>,
    pub bg: Option<ratatui::style::Color>,
    pub add_modifier: u16,
    pub sub_modifier: u16,
}

/// The nine text attributes of the host toolkit, all together.
pub const ALL_MODIFIERS: u16 = 0b0001_1111_1111;

impl Style {
    /// The style that changes nothing.
    pub open spec fn spec_new() -> Style {
        Style { fg: None, bg: None, add_modifier: 0, sub_modifier: 0 }
    }

    /// `self` with the changes of `other` laid over it: colours of `other`
    /// win where it has them, and what `other` switches on or off is no
    /// longer switched the other way.
    pub open spec fn spec_patch(self, other: Style) -> Style {
        Style {
            fg: if other.fg is Some { other.fg } else { self.fg },
            bg: if other.bg is Some { other.bg } else { self.bg },
            add_modifier: (self.add_modifier & !other.sub_modifier) | other.add_modifier,
            sub_modifier: (self.sub_modifier & !other.add_modifier) | other.sub_modifier,
        }
    }

    /// The style that changes nothing.
    pub fn new() -> (r: Style)
        ensures
            r == Style::spec_new(),
    {
        Style { fg: None, bg: None, add_modifier: 0, sub_modifier: 0 }
    }

    /// Sets the foreground colour.
    #[must_use]
    pub fn fg(self, color: ratatui::style::Color) -> (r: Style)
        ensures
            r == (Style { fg: Some(color), ..self }),
    {
        Style { fg: Some(color), bg: self.bg, add_modifier: self.add_modifier, sub_modifier: self.sub_modifier }
    }

    /// Sets the background colour.
    #[must_use]
    pub fn bg(self, color: ratatui::style::Color) -> (r: Style)
        ensures
            r == (Style { bg: Some(color), ..self }),
    {
        Style { fg: self.fg, bg: Some(color), add_modifier: self.add_modifier, sub_modifier: self.sub_modifier }
    }

    /// Switches the attributes in `bits` on.
    #[must_use]
    pub fn add_modifier(self, bits: u16) -> (r: Style)
        ensures
            r == (Style {
                add_modifier: self.add_modifier | bits,
                sub_modifier: self.sub_modifier & !bits,
                ..self
            }),
    {
        Style {
            fg: self.fg,
            bg: self.bg,
            add_modifier: self.add_modifier | bits,
            sub_modifier: self.sub_modifier & !bits,
        }
    }

    /// Switches the attributes in `bits` off.
    #[must_use]
    pub fn remove_modifier(self, bits: u16) -> (r: Style)
        ensures
            r == (Style {
                add_modifier: self.add_modifier & !bits,
                sub_modifier: self.sub_modifier | bits,
                ..self
            }),
    {
        Style {
            fg: self.fg,
            bg: self.bg,
            add_modifier: self.add_modifier & !bits,
            sub_modifier: self.sub_modifier | bits,
        }
    }

    /// Lays the changes of `other` over `self`.
    #[must_use]
    pub fn patch(self, other: Style) -> (r: Style)
        ensures
            r == self.spec_patch(other),
    {
        Style {
            fg: if other.fg.is_some() { other.fg } else { self.fg },
            bg: if other.bg.is_some() { other.bg } else { self.bg },
            add_modifier: (self.add_modifier & !other.sub_modifier) | other.add_modifier,
            sub_modifier: (self.sub_modifier & !other.add_modifier) | other.sub_modifier,
        }
    }
}

impl Default for Style {
    fn default() -> (r: Style)
        ensures
            r == Style::spec_new(),
    {
        Style::new()
    }
}

/// A style as a garnish: it is applied to the whole area before the widget
/// is drawn, and takes no space.
impl RenderModifier for Style {
    open spec fn area_after(&self, area: Rect) -> Rect {
        area
    }

    open spec fn painted_before(&self, area: Rect, canvas: Canvas) -> Canvas {
        canvas.fill_style(area, *self)
    }

    open spec fn painted_after(&self, area: Rect, canvas: Canvas) -> Canvas {
        canvas
    }

    proof fn area_shrinks(&self, area: Rect) {
    }

    proof fn paints_in_place(&self, area: Rect, canvas: Canvas) {
        let p = self.painted_before(area, canvas);
        assert(p.cells.dom() =~= canvas.cells.dom());
        if area.spec_is_empty() {
            assert(p.cells =~= canvas.cells);
        }
    }

    fn modify_area(&self, area: Rect) -> (r: Rect) {
        area
    }

    fn before_render(&self, area: Rect, buffer: &mut Buffer) {
        fill_style(buffer, area, *self);
    }

    fn after_render(&self, area: Rect, buffer: &mut Buffer) {
    }
}

impl Style {
    /// The style that puts everything back: both colours are set, to the
    /// host toolkit's reset colour, and every attribute is switched off.
    pub fn reset() -> (r: Style)
        ensures
            r.fg is Some,
            r.bg is Some,
            r.add_modifier == 0,
            r.sub_modifier == ALL_MODIFIERS,
    {
        host_reset()
    }
}

/// Calls `Style::reset` of the host toolkit and copies its fields: both
/// colours set, nothing switched on, all nine attributes switched off.
#[verifier::external_body]
fn host_reset() -> (r: Style)
    ensures
        r.fg is Some,
        r.bg is Some,
        r.add_modifier == 0,
        r.sub_modifier == ALL_MODIFIERS,
{
    let host = ratatui::style::Style::reset();
    Style {
        fg: host.fg,
        bg: host.bg,
        add_modifier: host.add_modifier.bits(),
        sub_modifier: host.sub_modifier.bits(),
    }
}

} // verus!
