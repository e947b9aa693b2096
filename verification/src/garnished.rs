//! A widget with a list of garnishes.
//!
//! The list is kept in the order in which the garnishes were added, and
//! that order is the order in which they act. Drawing goes over the list
//! twice, forwards both times. The first pass lets each garnish paint what
//! lies under the widget and then shrink the area; the widget is drawn
//! into the area that is left at the end. The second pass starts again from
//! the whole area and lets each garnish paint what lies over the widget.

use vstd::prelude::*;
use vstd::std_specs::convert::{FromSpecImpl, IntoSpec};
use crate::area::Rect;
use crate::canvas::{canvas_of, Canvas};
use crate::garnish::Garnish;
use crate::border::{
    CharBorder, CustomBorder, DashedBorder, DoubleBorder, FatInsideBorder, FatOutsideBorder,
    PlainBorder, QuadrantInsideBorder, QuadrantOutsideBorder, RoundedBorder, RoundedDashedBorder,
    ThickBorder, ThickDashedBorder,
};
use crate::modifier::RenderModifier;
use crate::padding::Padding;
use crate::shadow::{HalfShadow, Shadow};
use crate::style::Style;
use crate::title::{Above, After, Before, Below, Bottom, Left, Right, Title, Top};
use crate::widget::{StatefulWidget, StatefulWidgetRef, Widget, WidgetRef};
use ratatui::buffer::Buffer;

verus! {

/// The area that is left of `area` after the garnishes from number `i` on
/// have each taken their space, in order.
pub open spec fn area_from(garnishes: Seq<Garnish>, i: int, area: Rect) -> Rect
    decreases garnishes.len() - i,
{
    if i < 0 || i >= garnishes.len() {
        area
    } else {
        area_from(garnishes, i + 1, garnishes[i].area_after(area))
    }
}

/// The canvas after the garnishes from number `i` on have each painted
/// under the widget, in order: each on the area that those before it have
/// left.
pub open spec fn before_from(garnishes: Seq<Garnish>, i: int, area: Rect, canvas: Canvas) -> Canvas
    decreases garnishes.len() - i,
{
    if i < 0 || i >= garnishes.len() {
        canvas
    } else {
        before_from(
            garnishes,
            i + 1,
            garnishes[i].area_after(area),
            garnishes[i].painted_before(area, canvas),
        )
    }
}

/// The canvas after the garnishes from number `i` on have each painted
/// over the widget, in order: each on the area that those before it have
/// left.
pub open spec fn after_from(garnishes: Seq<Garnish>, i: int, area: Rect, canvas: Canvas) -> Canvas
    decreases garnishes.len() - i,
{
    if i < 0 || i >= garnishes.len() {
        canvas
    } else {
        after_from(
            garnishes,
            i + 1,
            garnishes[i].area_after(area),
            garnishes[i].painted_after(area, canvas),
        )
    }
}

/// The area that a list of garnishes leaves to the widget.
pub open spec fn inner_area(garnishes: Seq<Garnish>, area: Rect) -> Rect {
    area_from(garnishes, 0, area)
}

/// The canvas after the first pass over a list of garnishes.
pub open spec fn painted_under(garnishes: Seq<Garnish>, area: Rect, canvas: Canvas) -> Canvas {
    before_from(garnishes, 0, area, canvas)
}

/// The canvas after the second pass over a list of garnishes.
pub open spec fn painted_over(garnishes: Seq<Garnish>, area: Rect, canvas: Canvas) -> Canvas {
    after_from(garnishes, 0, area, canvas)
}

/// The first pass: each garnish, in order, paints under the widget and
/// then takes its space. Returns the area that is left to the widget.
pub fn render_before(garnishes: &[Garnish], area: Rect, buf: &mut Buffer) -> (inner: Rect)
    ensures
        inner == inner_area(garnishes@, area),
        canvas_of(*final(buf)) == painted_under(garnishes@, area, canvas_of(*old(buf))),
{
    let ghost goal = painted_under(garnishes@, area, canvas_of(*buf));
    let mut render_area = area;
    let mut i: usize = 0;
    while i < garnishes.len()
        invariant
            i <= garnishes.len(),
            area_from(garnishes@, i as int, render_area) == inner_area(garnishes@, area),
            before_from(garnishes@, i as int, render_area, canvas_of(*buf)) == goal,
        decreases garnishes.len() - i,
    {
        let g = &garnishes[i];
        g.before_render(render_area, buf);
        render_area = g.modify_area(render_area);
        i = i + 1;
    }
    render_area
}

/// The second pass: each garnish, in order, paints over the widget and
/// then takes its space.
pub fn render_after(garnishes: &[Garnish], area: Rect, buf: &mut Buffer)
    ensures
        canvas_of(*final(buf)) == painted_over(garnishes@, area, canvas_of(*old(buf))),
{
    let ghost goal = painted_over(garnishes@, area, canvas_of(*buf));
    let mut render_area = area;
    let mut i: usize = 0;
    while i < garnishes.len()
        invariant
            i <= garnishes.len(),
            after_from(garnishes@, i as int, render_area, canvas_of(*buf)) == goal,
        decreases garnishes.len() - i,
    {
        let g = &garnishes[i];
        g.after_render(render_area, buf);
        render_area = g.modify_area(render_area);
        i = i + 1;
    }
}

/// Copies a list of garnishes.
pub fn copy_garnishes(garnishes: &[Garnish]) -> (r: Vec<Garnish>)
    ensures
        r@ == garnishes@,
{
    let mut copy: Vec<Garnish> = Vec::new();
    let mut i: usize = 0;
    while i < garnishes.len()
        invariant
            i <= garnishes.len(),
            copy@ == garnishes@.subrange(0, i as int),
        decreases garnishes.len() - i,
    {
        copy.push(garnishes[i].clone());
        i = i + 1;
        assert(copy@ =~= garnishes@.subrange(0, i as int));
    }
    assert(garnishes@.subrange(0, garnishes@.len() as int) =~= garnishes@);
    copy
}

/// A widget with a list of garnishes.
#[derive(Debug)]
pub struct GarnishedWidget<W> {
    pub widget: W,
    pub garnishes: Vec<Garnish>,
}

impl<W> GarnishedWidget<W> {
    /// Wraps a widget with one garnish.
    pub fn new<G: Into<Garnish>>(widget: W, garnish: G) -> (r: Self)
        ensures
            r.widget == widget,
            G::obeys_into_spec() ==> r.garnishes@ == seq![garnish.into_spec()],
            r.garnishes@.len() == 1,
    {
        let mut garnishes: Vec<Garnish> = Vec::new();
        garnishes.push(garnish.into());
        GarnishedWidget { widget, garnishes }
    }

    /// Adds a garnish at the end of the list and hands the wrapper back.
    #[must_use]
    pub fn garnish<G: Into<Garnish>>(self, garnish: G) -> (r: Self)
        ensures
            r.widget == self.widget,
            G::obeys_into_spec() ==> r.garnishes@ == self.garnishes@.push(garnish.into_spec()),
            r.garnishes@.len() == self.garnishes@.len() + 1,
            r.garnishes@.subrange(0, self.garnishes@.len() as int) == self.garnishes@,
    {
        let mut wrapper = self;
        wrapper.push(garnish);
        wrapper
    }

    /// Adds a garnish at the end of the list.
    pub fn push<G: Into<Garnish>>(&mut self, garnish: G)
        ensures
            final(self).widget == old(self).widget,
            G::obeys_into_spec() ==> final(self).garnishes@ == old(self).garnishes@.push(
                garnish.into_spec(),
            ),
            final(self).garnishes@.len() == old(self).garnishes@.len() + 1,
            final(self).garnishes@.subrange(0, old(self).garnishes@.len() as int) == old(
                self,
            ).garnishes@,
    {
        let ghost before = self.garnishes@;
        self.garnishes.push(garnish.into());
        assert(self.garnishes@.subrange(0, before.len() as int) =~= before);
    }

    /// Adds all garnishes of `more` at the end of the list, in their order.
    pub fn extend(&mut self, more: Vec<Garnish>)
        ensures
            final(self).widget == old(self).widget,
            final(self).garnishes@ == old(self).garnishes@ + more@,
    {
        let mut more = more;
        self.garnishes.append(&mut more);
    }

    /// Adds copies of all garnishes of `more` at the end of the list, in
    /// their order.
    pub fn extend_from_slice(&mut self, more: &[Garnish])
        ensures
            final(self).widget == old(self).widget,
            final(self).garnishes@ == old(self).garnishes@ + more@,
    {
        let mut copy = copy_garnishes(more);
        self.garnishes.append(&mut copy);
    }

    /// The number of garnishes.
    pub fn len(&self) -> (r: usize)
        ensures
            r == self.garnishes@.len(),
    {
        self.garnishes.len()
    }

    /// Whether the list is empty.
    pub fn is_empty(&self) -> (r: bool)
        ensures
            r == (self.garnishes@.len() == 0),
    {
        self.garnishes.len() == 0
    }

    /// The garnish number `index`, counted from 0 in the order of adding.
    pub fn get(&self, index: usize) -> (r: Option<&Garnish>)
        ensures
            r == (if index < self.garnishes@.len() {
                Some(&self.garnishes@[index as int])
            } else {
                None
            }),
    {
        if index < self.garnishes.len() {
            Some(&self.garnishes[index])
        } else {
            None
        }
    }

    /// The garnishes, in the order of adding.
    pub fn as_slice(&self) -> (r: &[Garnish])
        ensures
            r@ == self.garnishes@,
    {
        self.garnishes.as_slice()
    }

    /// The first `CharBorder` among the garnishes, if there is one.
    pub fn first_char_border(&self) -> (r: Option<&CharBorder>)
        ensures
            match r {
                Some(inner) => exists|i: int|
                    0 <= i < self.garnishes@.len() && self.garnishes@[i] == Garnish::CharBorder(*inner)
                        && forall|j: int| 0 <= j < i ==> !(self.garnishes@[j] is CharBorder),
                None => forall|j: int|
                    0 <= j < self.garnishes@.len() ==> !(self.garnishes@[j] is CharBorder),
            },
    {
        crate::garnish::first_char_border(self.garnishes.as_slice())
    }

    /// The first `CustomBorder` among the garnishes, if there is one.
    pub fn first_custom_border(&self) -> (r: Option<&CustomBorder>)
        ensures
            match r {
                Some(inner) => exists|i: int|
                    0 <= i < self.garnishes@.len() && self.garnishes@[i] == Garnish::CustomBorder(*inner)
                        && forall|j: int| 0 <= j < i ==> !(self.garnishes@[j] is CustomBorder),
                None => forall|j: int|
                    0 <= j < self.garnishes@.len() ==> !(self.garnishes@[j] is CustomBorder),
            },
    {
        crate::garnish::first_custom_border(self.garnishes.as_slice())
    }

    /// The first `DashedBorder` among the garnishes, if there is one.
    pub fn first_dashed_border(&self) -> (r: Option<&DashedBorder>)
        ensures
            match r {
                Some(inner) => exists|i: int|
                    0 <= i < self.garnishes@.len() && self.garnishes@[i] == Garnish::DashedBorder(*inner)
                        && forall|j: int| 0 <= j < i ==> !(self.garnishes@[j] is DashedBorder),
                None => forall|j: int|
                    0 <= j < self.garnishes@.len() ==> !(self.garnishes@[j] is DashedBorder),
            },
    {
        crate::garnish::first_dashed_border(self.garnishes.as_slice())
    }

    /// The first `DoubleBorder` among the garnishes, if there is one.
    pub fn first_double_border(&self) -> (r: Option<&DoubleBorder>)
        ensures
            match r {
                Some(inner) => exists|i: int|
                    0 <= i < self.garnishes@.len() && self.garnishes@[i] == Garnish::DoubleBorder(*inner)
                        && forall|j: int| 0 <= j < i ==> !(self.garnishes@[j] is DoubleBorder),
                None => forall|j: int|
                    0 <= j < self.garnishes@.len() ==> !(self.garnishes@[j] is DoubleBorder),
            },
    {
        crate::garnish::first_double_border(self.garnishes.as_slice())
    }

    /// The first `FatInsideBorder` among the garnishes, if there is one.
    pub fn first_fat_inside_border(&self) -> (r: Option<&FatInsideBorder>)
        ensures
            match r {
                Some(inner) => exists|i: int|
                    0 <= i < self.garnishes@.len() && self.garnishes@[i] == Garnish::FatInsideBorder(*inner)
                        && forall|j: int| 0 <= j < i ==> !(self.garnishes@[j] is FatInsideBorder),
                None => forall|j: int|
                    0 <= j < self.garnishes@.len() ==> !(self.garnishes@[j] is FatInsideBorder),
            },
    {
        crate::garnish::first_fat_inside_border(self.garnishes.as_slice())
    }

    /// The first `FatOutsideBorder` among the garnishes, if there is one.
    pub fn first_fat_outside_border(&self) -> (r: Option<&FatOutsideBorder>)
        ensures
            match r {
                Some(inner) => exists|i: int|
                    0 <= i < self.garnishes@.len() && self.garnishes@[i] == Garnish::FatOutsideBorder(*inner)
                        && forall|j: int| 0 <= j < i ==> !(self.garnishes@[j] is FatOutsideBorder),
                None => forall|j: int|
                    0 <= j < self.garnishes@.len() ==> !(self.garnishes@[j] is FatOutsideBorder),
            },
    {
        crate::garnish::first_fat_outside_border(self.garnishes.as_slice())
    }

    /// The first `HalfShadow` among the garnishes, if there is one.
    pub fn first_half_shadow(&self) -> (r: Option<&HalfShadow>)
        ensures
            match r {
                Some(inner) => exists|i: int|
                    0 <= i < self.garnishes@.len() && self.garnishes@[i] == Garnish::HalfShadow(*inner)
                        && forall|j: int| 0 <= j < i ==> !(self.garnishes@[j] is HalfShadow),
                None => forall|j: int|
                    0 <= j < self.garnishes@.len() ==> !(self.garnishes@[j] is HalfShadow),
            },
    {
        crate::garnish::first_half_shadow(self.garnishes.as_slice())
    }

    /// The first `Padding` among the garnishes, if there is one.
    pub fn first_padding(&self) -> (r: Option<&Padding>)
        ensures
            match r {
                Some(inner) => exists|i: int|
                    0 <= i < self.garnishes@.len() && self.garnishes@[i] == Garnish::Padding(*inner)
                        && forall|j: int| 0 <= j < i ==> !(self.garnishes@[j] is Padding),
                None => forall|j: int|
                    0 <= j < self.garnishes@.len() ==> !(self.garnishes@[j] is Padding),
            },
    {
        crate::garnish::first_padding(self.garnishes.as_slice())
    }

    /// The first `PlainBorder` among the garnishes, if there is one.
    pub fn first_plain_border(&self) -> (r: Option<&PlainBorder>)
        ensures
            match r {
                Some(inner) => exists|i: int|
                    0 <= i < self.garnishes@.len() && self.garnishes@[i] == Garnish::PlainBorder(*inner)
                        && forall|j: int| 0 <= j < i ==> !(self.garnishes@[j] is PlainBorder),
                None => forall|j: int|
                    0 <= j < self.garnishes@.len() ==> !(self.garnishes@[j] is PlainBorder),
            },
    {
        crate::garnish::first_plain_border(self.garnishes.as_slice())
    }

    /// The first `QuadrantInsideBorder` among the garnishes, if there is one.
    pub fn first_quadrant_inside_border(&self) -> (r: Option<&QuadrantInsideBorder>)
        ensures
            match r {
                Some(inner) => exists|i: int|
                    0 <= i < self.garnishes@.len() && self.garnishes@[i] == Garnish::QuadrantInsideBorder(*inner)
                        && forall|j: int| 0 <= j < i ==> !(self.garnishes@[j] is QuadrantInsideBorder),
                None => forall|j: int|
                    0 <= j < self.garnishes@.len() ==> !(self.garnishes@[j] is QuadrantInsideBorder),
            },
    {
        crate::garnish::first_quadrant_inside_border(self.garnishes.as_slice())
    }

    /// The first `QuadrantOutsideBorder` among the garnishes, if there is one.
    pub fn first_quadrant_outside_border(&self) -> (r: Option<&QuadrantOutsideBorder>)
        ensures
            match r {
                Some(inner) => exists|i: int|
                    0 <= i < self.garnishes@.len() && self.garnishes@[i] == Garnish::QuadrantOutsideBorder(*inner)
                        && forall|j: int| 0 <= j < i ==> !(self.garnishes@[j] is QuadrantOutsideBorder),
                None => forall|j: int|
                    0 <= j < self.garnishes@.len() ==> !(self.garnishes@[j] is QuadrantOutsideBorder),
            },
    {
        crate::garnish::first_quadrant_outside_border(self.garnishes.as_slice())
    }

    /// The first `RoundedBorder` among the garnishes, if there is one.
    pub fn first_rounded_border(&self) -> (r: Option<&RoundedBorder>)
        ensures
            match r {
                Some(inner) => exists|i: int|
                    0 <= i < self.garnishes@.len() && self.garnishes@[i] == Garnish::RoundedBorder(*inner)
                        && forall|j: int| 0 <= j < i ==> !(self.garnishes@[j] is RoundedBorder),
                None => forall|j: int|
                    0 <= j < self.garnishes@.len() ==> !(self.garnishes@[j] is RoundedBorder),
            },
    {
        crate::garnish::first_rounded_border(self.garnishes.as_slice())
    }

    /// The first `RoundedDashedBorder` among the garnishes, if there is one.
    pub fn first_rounded_dashed_border(&self) -> (r: Option<&RoundedDashedBorder>)
        ensures
            match r {
                Some(inner) => exists|i: int|
                    0 <= i < self.garnishes@.len() && self.garnishes@[i] == Garnish::RoundedDashedBorder(*inner)
                        && forall|j: int| 0 <= j < i ==> !(self.garnishes@[j] is RoundedDashedBorder),
                None => forall|j: int|
                    0 <= j < self.garnishes@.len() ==> !(self.garnishes@[j] is RoundedDashedBorder),
            },
    {
        crate::garnish::first_rounded_dashed_border(self.garnishes.as_slice())
    }

    /// The first `Shadow` among the garnishes, if there is one.
    pub fn first_shadow(&self) -> (r: Option<&Shadow>)
        ensures
            match r {
                Some(inner) => exists|i: int|
                    0 <= i < self.garnishes@.len() && self.garnishes@[i] == Garnish::Shadow(*inner)
                        && forall|j: int| 0 <= j < i ==> !(self.garnishes@[j] is Shadow),
                None => forall|j: int|
                    0 <= j < self.garnishes@.len() ==> !(self.garnishes@[j] is Shadow),
            },
    {
        crate::garnish::first_shadow(self.garnishes.as_slice())
    }

    /// The first `Style` among the garnishes, if there is one.
    pub fn first_style(&self) -> (r: Option<&Style>)
        ensures
            match r {
                Some(inner) => exists|i: int|
                    0 <= i < self.garnishes@.len() && self.garnishes@[i] == Garnish::Style(*inner)
                        && forall|j: int| 0 <= j < i ==> !(self.garnishes@[j] is Style),
                None => forall|j: int|
                    0 <= j < self.garnishes@.len() ==> !(self.garnishes@[j] is Style),
            },
    {
        crate::garnish::first_style(self.garnishes.as_slice())
    }

    /// The first `ThickBorder` among the garnishes, if there is one.
    pub fn first_thick_border(&self) -> (r: Option<&ThickBorder>)
        ensures
            match r {
                Some(inner) => exists|i: int|
                    0 <= i < self.garnishes@.len() && self.garnishes@[i] == Garnish::ThickBorder(*inner)
                        && forall|j: int| 0 <= j < i ==> !(self.garnishes@[j] is ThickBorder),
                None => forall|j: int|
                    0 <= j < self.garnishes@.len() ==> !(self.garnishes@[j] is ThickBorder),
            },
    {
        crate::garnish::first_thick_border(self.garnishes.as_slice())
    }

    /// The first `ThickDashedBorder` among the garnishes, if there is one.
    pub fn first_thick_dashed_border(&self) -> (r: Option<&ThickDashedBorder>)
        ensures
            match r {
                Some(inner) => exists|i: int|
                    0 <= i < self.garnishes@.len() && self.garnishes@[i] == Garnish::ThickDashedBorder(*inner)
                        && forall|j: int| 0 <= j < i ==> !(self.garnishes@[j] is ThickDashedBorder),
                None => forall|j: int|
                    0 <= j < self.garnishes@.len() ==> !(self.garnishes@[j] is ThickDashedBorder),
            },
    {
        crate::garnish::first_thick_dashed_border(self.garnishes.as_slice())
    }

    /// The first `Title<Above>` among the garnishes, if there is one.
    pub fn first_title_above(&self) -> (r: Option<&Title<Above>>)
        ensures
            match r {
                Some(inner) => exists|i: int|
                    0 <= i < self.garnishes@.len() && self.garnishes@[i] == Garnish::TitleAbove(*inner)
                        && forall|j: int| 0 <= j < i ==> !(self.garnishes@[j] is TitleAbove),
                None => forall|j: int|
                    0 <= j < self.garnishes@.len() ==> !(self.garnishes@[j] is TitleAbove),
            },
    {
        crate::garnish::first_title_above(self.garnishes.as_slice())
    }

    /// The first `Title<After>` among the garnishes, if there is one.
    pub fn first_title_after(&self) -> (r: Option<&Title<After>>)
        ensures
            match r {
                Some(inner) => exists|i: int|
                    0 <= i < self.garnishes@.len() && self.garnishes@[i] == Garnish::TitleAfter(*inner)
                        && forall|j: int| 0 <= j < i ==> !(self.garnishes@[j] is TitleAfter),
                None => forall|j: int|
                    0 <= j < self.garnishes@.len() ==> !(self.garnishes@[j] is TitleAfter),
            },
    {
        crate::garnish::first_title_after(self.garnishes.as_slice())
    }

    /// The first `Title<Before>` among the garnishes, if there is one.
    pub fn first_title_before(&self) -> (r: Option<&Title<Before>>)
        ensures
            match r {
                Some(inner) => exists|i: int|
                    0 <= i < self.garnishes@.len() && self.garnishes@[i] == Garnish::TitleBefore(*inner)
                        && forall|j: int| 0 <= j < i ==> !(self.garnishes@[j] is TitleBefore),
                None => forall|j: int|
                    0 <= j < self.garnishes@.len() ==> !(self.garnishes@[j] is TitleBefore),
            },
    {
        crate::garnish::first_title_before(self.garnishes.as_slice())
    }

    /// The first `Title<Below>` among the garnishes, if there is one.
    pub fn first_title_below(&self) -> (r: Option<&Title<Below>>)
        ensures
            match r {
                Some(inner) => exists|i: int|
                    0 <= i < self.garnishes@.len() && self.garnishes@[i] == Garnish::TitleBelow(*inner)
                        && forall|j: int| 0 <= j < i ==> !(self.garnishes@[j] is TitleBelow),
                None => forall|j: int|
                    0 <= j < self.garnishes@.len() ==> !(self.garnishes@[j] is TitleBelow),
            },
    {
        crate::garnish::first_title_below(self.garnishes.as_slice())
    }

    /// The first `Title<Bottom>` among the garnishes, if there is one.
    pub fn first_title_bottom(&self) -> (r: Option<&Title<Bottom>>)
        ensures
            match r {
                Some(inner) => exists|i: int|
                    0 <= i < self.garnishes@.len() && self.garnishes@[i] == Garnish::TitleBottom(*inner)
                        && forall|j: int| 0 <= j < i ==> !(self.garnishes@[j] is TitleBottom),
                None => forall|j: int|
                    0 <= j < self.garnishes@.len() ==> !(self.garnishes@[j] is TitleBottom),
            },
    {
        crate::garnish::first_title_bottom(self.garnishes.as_slice())
    }

    /// The first `Title<Left>` among the garnishes, if there is one.
    pub fn first_title_left(&self) -> (r: Option<&Title<Left>>)
        ensures
            match r {
                Some(inner) => exists|i: int|
                    0 <= i < self.garnishes@.len() && self.garnishes@[i] == Garnish::TitleLeft(*inner)
                        && forall|j: int| 0 <= j < i ==> !(self.garnishes@[j] is TitleLeft),
                None => forall|j: int|
                    0 <= j < self.garnishes@.len() ==> !(self.garnishes@[j] is TitleLeft),
            },
    {
        crate::garnish::first_title_left(self.garnishes.as_slice())
    }

    /// The first `Title<Right>` among the garnishes, if there is one.
    pub fn first_title_right(&self) -> (r: Option<&Title<Right>>)
        ensures
            match r {
                Some(inner) => exists|i: int|
                    0 <= i < self.garnishes@.len() && self.garnishes@[i] == Garnish::TitleRight(*inner)
                        && forall|j: int| 0 <= j < i ==> !(self.garnishes@[j] is TitleRight),
                None => forall|j: int|
                    0 <= j < self.garnishes@.len() ==> !(self.garnishes@[j] is TitleRight),
            },
    {
        crate::garnish::first_title_right(self.garnishes.as_slice())
    }

    /// The first `Title<Top>` among the garnishes, if there is one.
    pub fn first_title_top(&self) -> (r: Option<&Title<Top>>)
        ensures
            match r {
                Some(inner) => exists|i: int|
                    0 <= i < self.garnishes@.len() && self.garnishes@[i] == Garnish::TitleTop(*inner)
                        && forall|j: int| 0 <= j < i ==> !(self.garnishes@[j] is TitleTop),
                None => forall|j: int|
                    0 <= j < self.garnishes@.len() ==> !(self.garnishes@[j] is TitleTop),
            },
    {
        crate::garnish::first_title_top(self.garnishes.as_slice())
    }
}

impl<W: Widget> Widget for GarnishedWidget<W> {
    open spec fn rendered(self, area: Rect, canvas: Canvas) -> Canvas {
        painted_over(
            self.garnishes@,
            area,
            self.widget.rendered(
                inner_area(self.garnishes@, area),
                painted_under(self.garnishes@, area, canvas),
            ),
        )
    }

    fn render(self, area: Rect, buf: &mut Buffer) {
        let render_area = render_before(self.garnishes.as_slice(), area, buf);
        self.widget.render(render_area, buf);
        render_after(self.garnishes.as_slice(), area, buf);
    }
}

impl<W: WidgetRef> WidgetRef for GarnishedWidget<W> {
    open spec fn rendered_ref(&self, area: Rect, canvas: Canvas) -> Canvas {
        painted_over(
            self.garnishes@,
            area,
            self.widget.rendered_ref(
                inner_area(self.garnishes@, area),
                painted_under(self.garnishes@, area, canvas),
            ),
        )
    }

    fn render_ref(&self, area: Rect, buf: &mut Buffer) {
        let render_area = render_before(self.garnishes.as_slice(), area, buf);
        self.widget.render_ref(render_area, buf);
        render_after(self.garnishes.as_slice(), area, buf);
    }
}

/// A widget with a state of the caller's and a list of garnishes.
#[derive(Debug)]
pub struct GarnishedStatefulWidget<W> {
    pub widget: W,
    pub garnishes: Vec<Garnish>,
}

impl<W> GarnishedStatefulWidget<W> {
    /// Wraps a widget with one garnish.
    pub fn new<G: Into<Garnish>>(widget: W, garnish: G) -> (r: Self)
        ensures
            r.widget == widget,
            G::obeys_into_spec() ==> r.garnishes@ == seq![garnish.into_spec()],
            r.garnishes@.len() == 1,
    {
        let mut garnishes: Vec<Garnish> = Vec::new();
        garnishes.push(garnish.into());
        GarnishedStatefulWidget { widget, garnishes }
    }

    /// Adds a garnish at the end of the list and hands the wrapper back.
    #[must_use]
    pub fn garnish<G: Into<Garnish>>(self, garnish: G) -> (r: Self)
        ensures
            r.widget == self.widget,
            G::obeys_into_spec() ==> r.garnishes@ == self.garnishes@.push(garnish.into_spec()),
            r.garnishes@.len() == self.garnishes@.len() + 1,
            r.garnishes@.subrange(0, self.garnishes@.len() as int) == self.garnishes@,
    {
        let mut wrapper = self;
        wrapper.push(garnish);
        wrapper
    }

    /// Adds a garnish at the end of the list.
    pub fn push<G: Into<Garnish>>(&mut self, garnish: G)
        ensures
            final(self).widget == old(self).widget,
            G::obeys_into_spec() ==> final(self).garnishes@ == old(self).garnishes@.push(
                garnish.into_spec(),
            ),
            final(self).garnishes@.len() == old(self).garnishes@.len() + 1,
            final(self).garnishes@.subrange(0, old(self).garnishes@.len() as int) == old(
                self,
            ).garnishes@,
    {
        let ghost before = self.garnishes@;
        self.garnishes.push(garnish.into());
        assert(self.garnishes@.subrange(0, before.len() as int) =~= before);
    }

    /// Adds all garnishes of `more` at the end of the list, in their order.
    pub fn extend(&mut self, more: Vec<Garnish>)
        ensures
            final(self).widget == old(self).widget,
            final(self).garnishes@ == old(self).garnishes@ + more@,
    {
        let mut more = more;
        self.garnishes.append(&mut more);
    }

    /// Adds copies of all garnishes of `more` at the end of the list, in
    /// their order.
    pub fn extend_from_slice(&mut self, more: &[Garnish])
        ensures
            final(self).widget == old(self).widget,
            final(self).garnishes@ == old(self).garnishes@ + more@,
    {
        let mut copy = copy_garnishes(more);
        self.garnishes.append(&mut copy);
    }

    /// The number of garnishes.
    pub fn len(&self) -> (r: usize)
        ensures
            r == self.garnishes@.len(),
    {
        self.garnishes.len()
    }

    /// Whether the list is empty.
    pub fn is_empty(&self) -> (r: bool)
        ensures
            r == (self.garnishes@.len() == 0),
    {
        self.garnishes.len() == 0
    }

    /// The garnish number `index`, counted from 0 in the order of adding.
    pub fn get(&self, index: usize) -> (r: Option<&Garnish>)
        ensures
            r == (if index < self.garnishes@.len() {
                Some(&self.garnishes@[index as int])
            } else {
                None
            }),
    {
        if index < self.garnishes.len() {
            Some(&self.garnishes[index])
        } else {
            None
        }
    }

    /// The garnishes, in the order of adding.
    pub fn as_slice(&self) -> (r: &[Garnish])
        ensures
            r@ == self.garnishes@,
    {
        self.garnishes.as_slice()
    }

    /// The first `CharBorder` among the garnishes, if there is one.
    pub fn first_char_border(&self) -> (r: Option<&CharBorder>)
        ensures
            match r {
                Some(inner) => exists|i: int|
                    0 <= i < self.garnishes@.len() && self.garnishes@[i] == Garnish::CharBorder(*inner)
                        && forall|j: int| 0 <= j < i ==> !(self.garnishes@[j] is CharBorder),
                None => forall|j: int|
                    0 <= j < self.garnishes@.len() ==> !(self.garnishes@[j] is CharBorder),
            },
    {
        crate::garnish::first_char_border(self.garnishes.as_slice())
    }

    /// The first `CustomBorder` among the garnishes, if there is one.
    pub fn first_custom_border(&self) -> (r: Option<&CustomBorder>)
        ensures
            match r {
                Some(inner) => exists|i: int|
                    0 <= i < self.garnishes@.len() && self.garnishes@[i] == Garnish::CustomBorder(*inner)
                        && forall|j: int| 0 <= j < i ==> !(self.garnishes@[j] is CustomBorder),
                None => forall|j: int|
                    0 <= j < self.garnishes@.len() ==> !(self.garnishes@[j] is CustomBorder),
            },
    {
        crate::garnish::first_custom_border(self.garnishes.as_slice())
    }

    /// The first `DashedBorder` among the garnishes, if there is one.
    pub fn first_dashed_border(&self) -> (r: Option<&DashedBorder>)
        ensures
            match r {
                Some(inner) => exists|i: int|
                    0 <= i < self.garnishes@.len() && self.garnishes@[i] == Garnish::DashedBorder(*inner)
                        && forall|j: int| 0 <= j < i ==> !(self.garnishes@[j] is DashedBorder),
                None => forall|j: int|
                    0 <= j < self.garnishes@.len() ==> !(self.garnishes@[j] is DashedBorder),
            },
    {
        crate::garnish::first_dashed_border(self.garnishes.as_slice())
    }

    /// The first `DoubleBorder` among the garnishes, if there is one.
    pub fn first_double_border(&self) -> (r: Option<&DoubleBorder>)
        ensures
            match r {
                Some(inner) => exists|i: int|
                    0 <= i < self.garnishes@.len() && self.garnishes@[i] == Garnish::DoubleBorder(*inner)
                        && forall|j: int| 0 <= j < i ==> !(self.garnishes@[j] is DoubleBorder),
                None => forall|j: int|
                    0 <= j < self.garnishes@.len() ==> !(self.garnishes@[j] is DoubleBorder),
            },
    {
        crate::garnish::first_double_border(self.garnishes.as_slice())
    }

    /// The first `FatInsideBorder` among the garnishes, if there is one.
    pub fn first_fat_inside_border(&self) -> (r: Option<&FatInsideBorder>)
        ensures
            match r {
                Some(inner) => exists|i: int|
                    0 <= i < self.garnishes@.len() && self.garnishes@[i] == Garnish::FatInsideBorder(*inner)
                        && forall|j: int| 0 <= j < i ==> !(self.garnishes@[j] is FatInsideBorder),
                None => forall|j: int|
                    0 <= j < self.garnishes@.len() ==> !(self.garnishes@[j] is FatInsideBorder),
            },
    {
        crate::garnish::first_fat_inside_border(self.garnishes.as_slice())
    }

    /// The first `FatOutsideBorder` among the garnishes, if there is one.
    pub fn first_fat_outside_border(&self) -> (r: Option<&FatOutsideBorder>)
        ensures
            match r {
                Some(inner) => exists|i: int|
                    0 <= i < self.garnishes@.len() && self.garnishes@[i] == Garnish::FatOutsideBorder(*inner)
                        && forall|j: int| 0 <= j < i ==> !(self.garnishes@[j] is FatOutsideBorder),
                None => forall|j: int|
                    0 <= j < self.garnishes@.len() ==> !(self.garnishes@[j] is FatOutsideBorder),
            },
    {
        crate::garnish::first_fat_outside_border(self.garnishes.as_slice())
    }

    /// The first `HalfShadow` among the garnishes, if there is one.
    pub fn first_half_shadow(&self) -> (r: Option<&HalfShadow>)
        ensures
            match r {
                Some(inner) => exists|i: int|
                    0 <= i < self.garnishes@.len() && self.garnishes@[i] == Garnish::HalfShadow(*inner)
                        && forall|j: int| 0 <= j < i ==> !(self.garnishes@[j] is HalfShadow),
                None => forall|j: int|
                    0 <= j < self.garnishes@.len() ==> !(self.garnishes@[j] is HalfShadow),
            },
    {
        crate::garnish::first_half_shadow(self.garnishes.as_slice())
    }

    /// The first `Padding` among the garnishes, if there is one.
    pub fn first_padding(&self) -> (r: Option<&Padding>)
        ensures
            match r {
                Some(inner) => exists|i: int|
                    0 <= i < self.garnishes@.len() && self.garnishes@[i] == Garnish::Padding(*inner)
                        && forall|j: int| 0 <= j < i ==> !(self.garnishes@[j] is Padding),
                None => forall|j: int|
                    0 <= j < self.garnishes@.len() ==> !(self.garnishes@[j] is Padding),
            },
    {
        crate::garnish::first_padding(self.garnishes.as_slice())
    }

    /// The first `PlainBorder` among the garnishes, if there is one.
    pub fn first_plain_border(&self) -> (r: Option<&PlainBorder>)
        ensures
            match r {
                Some(inner) => exists|i: int|
                    0 <= i < self.garnishes@.len() && self.garnishes@[i] == Garnish::PlainBorder(*inner)
                        && forall|j: int| 0 <= j < i ==> !(self.garnishes@[j] is PlainBorder),
                None => forall|j: int|
                    0 <= j < self.garnishes@.len() ==> !(self.garnishes@[j] is PlainBorder),
            },
    {
        crate::garnish::first_plain_border(self.garnishes.as_slice())
    }

    /// The first `QuadrantInsideBorder` among the garnishes, if there is one.
    pub fn first_quadrant_inside_border(&self) -> (r: Option<&QuadrantInsideBorder>)
        ensures
            match r {
                Some(inner) => exists|i: int|
                    0 <= i < self.garnishes@.len() && self.garnishes@[i] == Garnish::QuadrantInsideBorder(*inner)
                        && forall|j: int| 0 <= j < i ==> !(self.garnishes@[j] is QuadrantInsideBorder),
                None => forall|j: int|
                    0 <= j < self.garnishes@.len() ==> !(self.garnishes@[j] is QuadrantInsideBorder),
            },
    {
        crate::garnish::first_quadrant_inside_border(self.garnishes.as_slice())
    }

    /// The first `QuadrantOutsideBorder` among the garnishes, if there is one.
    pub fn first_quadrant_outside_border(&self) -> (r: Option<&QuadrantOutsideBorder>)
        ensures
            match r {
                Some(inner) => exists|i: int|
                    0 <= i < self.garnishes@.len() && self.garnishes@[i] == Garnish::QuadrantOutsideBorder(*inner)
                        && forall|j: int| 0 <= j < i ==> !(self.garnishes@[j] is QuadrantOutsideBorder),
                None => forall|j: int|
                    0 <= j < self.garnishes@.len() ==> !(self.garnishes@[j] is QuadrantOutsideBorder),
            },
    {
        crate::garnish::first_quadrant_outside_border(self.garnishes.as_slice())
    }

    /// The first `RoundedBorder` among the garnishes, if there is one.
    pub fn first_rounded_border(&self) -> (r: Option<&RoundedBorder>)
        ensures
            match r {
                Some(inner) => exists|i: int|
                    0 <= i < self.garnishes@.len() && self.garnishes@[i] == Garnish::RoundedBorder(*inner)
                        && forall|j: int| 0 <= j < i ==> !(self.garnishes@[j] is RoundedBorder),
                None => forall|j: int|
                    0 <= j < self.garnishes@.len() ==> !(self.garnishes@[j] is RoundedBorder),
            },
    {
        crate::garnish::first_rounded_border(self.garnishes.as_slice())
    }

    /// The first `RoundedDashedBorder` among the garnishes, if there is one.
    pub fn first_rounded_dashed_border(&self) -> (r: Option<&RoundedDashedBorder>)
        ensures
            match r {
                Some(inner) => exists|i: int|
                    0 <= i < self.garnishes@.len() && self.garnishes@[i] == Garnish::RoundedDashedBorder(*inner)
                        && forall|j: int| 0 <= j < i ==> !(self.garnishes@[j] is RoundedDashedBorder),
                None => forall|j: int|
                    0 <= j < self.garnishes@.len() ==> !(self.garnishes@[j] is RoundedDashedBorder),
            },
    {
        crate::garnish::first_rounded_dashed_border(self.garnishes.as_slice())
    }

    /// The first `Shadow` among the garnishes, if there is one.
    pub fn first_shadow(&self) -> (r: Option<&Shadow>)
        ensures
            match r {
                Some(inner) => exists|i: int|
                    0 <= i < self.garnishes@.len() && self.garnishes@[i] == Garnish::Shadow(*inner)
                        && forall|j: int| 0 <= j < i ==> !(self.garnishes@[j] is Shadow),
                None => forall|j: int|
                    0 <= j < self.garnishes@.len() ==> !(self.garnishes@[j] is Shadow),
            },
    {
        crate::garnish::first_shadow(self.garnishes.as_slice())
    }

    /// The first `Style` among the garnishes, if there is one.
    pub fn first_style(&self) -> (r: Option<&Style>)
        ensures
            match r {
                Some(inner) => exists|i: int|
                    0 <= i < self.garnishes@.len() && self.garnishes@[i] == Garnish::Style(*inner)
                        && forall|j: int| 0 <= j < i ==> !(self.garnishes@[j] is Style),
                None => forall|j: int|
                    0 <= j < self.garnishes@.len() ==> !(self.garnishes@[j] is Style),
            },
    {
        crate::garnish::first_style(self.garnishes.as_slice())
    }

    /// The first `ThickBorder` among the garnishes, if there is one.
    pub fn first_thick_border(&self) -> (r: Option<&ThickBorder>)
        ensures
            match r {
                Some(inner) => exists|i: int|
                    0 <= i < self.garnishes@.len() && self.garnishes@[i] == Garnish::ThickBorder(*inner)
                        && forall|j: int| 0 <= j < i ==> !(self.garnishes@[j] is ThickBorder),
                None => forall|j: int|
                    0 <= j < self.garnishes@.len() ==> !(self.garnishes@[j] is ThickBorder),
            },
    {
        crate::garnish::first_thick_border(self.garnishes.as_slice())
    }

    /// The first `ThickDashedBorder` among the garnishes, if there is one.
    pub fn first_thick_dashed_border(&self) -> (r: Option<&ThickDashedBorder>)
        ensures
            match r {
                Some(inner) => exists|i: int|
                    0 <= i < self.garnishes@.len() && self.garnishes@[i] == Garnish::ThickDashedBorder(*inner)
                        && forall|j: int| 0 <= j < i ==> !(self.garnishes@[j] is ThickDashedBorder),
                None => forall|j: int|
                    0 <= j < self.garnishes@.len() ==> !(self.garnishes@[j] is ThickDashedBorder),
            },
    {
        crate::garnish::first_thick_dashed_border(self.garnishes.as_slice())
    }

    /// The first `Title<Above>` among the garnishes, if there is one.
    pub fn first_title_above(&self) -> (r: Option<&Title<Above>>)
        ensures
            match r {
                Some(inner) => exists|i: int|
                    0 <= i < self.garnishes@.len() && self.garnishes@[i] == Garnish::TitleAbove(*inner)
                        && forall|j: int| 0 <= j < i ==> !(self.garnishes@[j] is TitleAbove),
                None => forall|j: int|
                    0 <= j < self.garnishes@.len() ==> !(self.garnishes@[j] is TitleAbove),
            },
    {
        crate::garnish::first_title_above(self.garnishes.as_slice())
    }

    /// The first `Title<After>` among the garnishes, if there is one.
    pub fn first_title_after(&self) -> (r: Option<&Title<After>>)
        ensures
            match r {
                Some(inner) => exists|i: int|
                    0 <= i < self.garnishes@.len() && self.garnishes@[i] == Garnish::TitleAfter(*inner)
                        && forall|j: int| 0 <= j < i ==> !(self.garnishes@[j] is TitleAfter),
                None => forall|j: int|
                    0 <= j < self.garnishes@.len() ==> !(self.garnishes@[j] is TitleAfter),
            },
    {
        crate::garnish::first_title_after(self.garnishes.as_slice())
    }

    /// The first `Title<Before>` among the garnishes, if there is one.
    pub fn first_title_before(&self) -> (r: Option<&Title<Before>>)
        ensures
            match r {
                Some(inner) => exists|i: int|
                    0 <= i < self.garnishes@.len() && self.garnishes@[i] == Garnish::TitleBefore(*inner)
                        && forall|j: int| 0 <= j < i ==> !(self.garnishes@[j] is TitleBefore),
                None => forall|j: int|
                    0 <= j < self.garnishes@.len() ==> !(self.garnishes@[j] is TitleBefore),
            },
    {
        crate::garnish::first_title_before(self.garnishes.as_slice())
    }

    /// The first `Title<Below>` among the garnishes, if there is one.
    pub fn first_title_below(&self) -> (r: Option<&Title<Below>>)
        ensures
            match r {
                Some(inner) => exists|i: int|
                    0 <= i < self.garnishes@.len() && self.garnishes@[i] == Garnish::TitleBelow(*inner)
                        && forall|j: int| 0 <= j < i ==> !(self.garnishes@[j] is TitleBelow),
                None => forall|j: int|
                    0 <= j < self.garnishes@.len() ==> !(self.garnishes@[j] is TitleBelow),
            },
    {
        crate::garnish::first_title_below(self.garnishes.as_slice())
    }

    /// The first `Title<Bottom>` among the garnishes, if there is one.
    pub fn first_title_bottom(&self) -> (r: Option<&Title<Bottom>>)
        ensures
            match r {
                Some(inner) => exists|i: int|
                    0 <= i < self.garnishes@.len() && self.garnishes@[i] == Garnish::TitleBottom(*inner)
                        && forall|j: int| 0 <= j < i ==> !(self.garnishes@[j] is TitleBottom),
                None => forall|j: int|
                    0 <= j < self.garnishes@.len() ==> !(self.garnishes@[j] is TitleBottom),
            },
    {
        crate::garnish::first_title_bottom(self.garnishes.as_slice())
    }

    /// The first `Title<Left>` among the garnishes, if there is one.
    pub fn first_title_left(&self) -> (r: Option<&Title<Left>>)
        ensures
            match r {
                Some(inner) => exists|i: int|
                    0 <= i < self.garnishes@.len() && self.garnishes@[i] == Garnish::TitleLeft(*inner)
                        && forall|j: int| 0 <= j < i ==> !(self.garnishes@[j] is TitleLeft),
                None => forall|j: int|
                    0 <= j < self.garnishes@.len() ==> !(self.garnishes@[j] is TitleLeft),
            },
    {
        crate::garnish::first_title_left(self.garnishes.as_slice())
    }

    /// The first `Title<Right>` among the garnishes, if there is one.
    pub fn first_title_right(&self) -> (r: Option<&Title<Right>>)
        ensures
            match r {
                Some(inner) => exists|i: int|
                    0 <= i < self.garnishes@.len() && self.garnishes@[i] == Garnish::TitleRight(*inner)
                        && forall|j: int| 0 <= j < i ==> !(self.garnishes@[j] is TitleRight),
                None => forall|j: int|
                    0 <= j < self.garnishes@.len() ==> !(self.garnishes@[j] is TitleRight),
            },
    {
        crate::garnish::first_title_right(self.garnishes.as_slice())
    }

    /// The first `Title<Top>` among the garnishes, if there is one.
    pub fn first_title_top(&self) -> (r: Option<&Title<Top>>)
        ensures
            match r {
                Some(inner) => exists|i: int|
                    0 <= i < self.garnishes@.len() && self.garnishes@[i] == Garnish::TitleTop(*inner)
                        && forall|j: int| 0 <= j < i ==> !(self.garnishes@[j] is TitleTop),
                None => forall|j: int|
                    0 <= j < self.garnishes@.len() ==> !(self.garnishes@[j] is TitleTop),
            },
    {
        crate::garnish::first_title_top(self.garnishes.as_slice())
    }
}

impl<W: StatefulWidget> StatefulWidget for GarnishedStatefulWidget<W> {
    type State = W::State;

    open spec fn rendered(self, area: Rect, canvas: Canvas, state: W::State) -> (Canvas, W::State) {
        let drawn = self.widget.rendered(
            inner_area(self.garnishes@, area),
            painted_under(self.garnishes@, area, canvas),
            state,
        );
        (painted_over(self.garnishes@, area, drawn.0), drawn.1)
    }

    fn render(self, area: Rect, buf: &mut Buffer, state: &mut W::State) {
        let render_area = render_before(self.garnishes.as_slice(), area, buf);
        self.widget.render(render_area, buf, state);
        render_after(self.garnishes.as_slice(), area, buf);
    }
}

impl<W: StatefulWidgetRef> StatefulWidgetRef for GarnishedStatefulWidget<W> {
    type State = W::State;

    open spec fn rendered_ref(&self, area: Rect, canvas: Canvas, state: W::State) -> (
        Canvas,
        W::State,
    ) {
        let drawn = self.widget.rendered_ref(
            inner_area(self.garnishes@, area),
            painted_under(self.garnishes@, area, canvas),
            state,
        );
        (painted_over(self.garnishes@, area, drawn.0), drawn.1)
    }

    fn render_ref(&self, area: Rect, buf: &mut Buffer, state: &mut W::State) {
        let render_area = render_before(self.garnishes.as_slice(), area, buf);
        self.widget.render_ref(render_area, buf, state);
        render_after(self.garnishes.as_slice(), area, buf);
    }
}

impl<W: Widget> From<W> for GarnishedWidget<W> {
    /// Wraps a widget without any garnish: it is drawn as it is.
    fn from(value: W) -> (r: Self)
        ensures
            r.widget == value,
            r.garnishes@ == Seq::<Garnish>::empty(),
    {
        GarnishedWidget { widget: value, garnishes: Vec::new() }
    }
}

impl<W: Widget> FromSpecImpl<W> for GarnishedWidget<W> {
    open spec fn obeys_from_spec() -> bool {
        false
    }

    open spec fn from_spec(value: W) -> Self {
        arbitrary()
    }
}

impl<W: StatefulWidget> From<W> for GarnishedStatefulWidget<W> {
    /// Wraps a widget without any garnish: it is drawn as it is.
    fn from(value: W) -> (r: Self)
        ensures
            r.widget == value,
            r.garnishes@ == Seq::<Garnish>::empty(),
    {
        GarnishedStatefulWidget { widget: value, garnishes: Vec::new() }
    }
}

impl<W: StatefulWidget> FromSpecImpl<W> for GarnishedStatefulWidget<W> {
    open spec fn obeys_from_spec() -> bool {
        false
    }

    open spec fn from_spec(value: W) -> Self {
        arbitrary()
    }
}

} // verus!
