//! The closed set of garnishes.
//!
//! A [`Garnish`] is any one of the garnishes of this library. A list of
//! them can hold borders, titles, padding, styles and shadows side by side,
//! and dispatches to each by a match.

use vstd::prelude::*;
use vstd::std_specs::convert::FromSpecImpl;
use crate::area::Rect;
use crate::border::{
    CharBorder, CustomBorder, DashedBorder, DoubleBorder, FatInsideBorder, FatOutsideBorder,
    PlainBorder, QuadrantInsideBorder, QuadrantOutsideBorder, RoundedBorder, RoundedDashedBorder,
    ThickBorder, ThickDashedBorder,
};
use crate::canvas::Canvas;
use crate::modifier::RenderModifier;
use crate::padding::Padding;
use crate::shadow::{HalfShadow, Shadow};
use crate::style::Style;
use crate::title::{Above, After, Before, Below, Bottom, Left, Right, Title, Top};
use ratatui::buffer::Buffer;

verus! {

/// Any one of the garnishes.
#[derive(Debug)]
pub enum Garnish {
    CharBorder(CharBorder),
    CustomBorder(CustomBorder),
    DashedBorder(DashedBorder),
    DoubleBorder(DoubleBorder),
    FatInsideBorder(FatInsideBorder),
    FatOutsideBorder(FatOutsideBorder),
    HalfShadow(HalfShadow),
    Padding(Padding),
    PlainBorder(PlainBorder),
    QuadrantInsideBorder(QuadrantInsideBorder),
    QuadrantOutsideBorder(QuadrantOutsideBorder),
    RoundedBorder(RoundedBorder),
    RoundedDashedBorder(RoundedDashedBorder),
    Shadow(Shadow),
    Style(Style),
    ThickBorder(ThickBorder),
    ThickDashedBorder(ThickDashedBorder),
    TitleAbove(Title<Above>),
    TitleAfter(Title<After>),
    TitleBefore(Title<Before>),
    TitleBelow(Title<Below>),
    TitleBottom(Title<Bottom>),
    TitleLeft(Title<Left>),
    TitleRight(Title<Right>),
    TitleTop(Title<Top>),
}

impl Garnish {
    /// Whether this is a `CharBorder`.
    pub fn is_char_border(&self) -> (r: bool)
        ensures
            r == (*self is CharBorder),
    {
        match self {
            Garnish::CharBorder(_) => true,
            _ => false,
        }
    }

    /// The `CharBorder` inside, if this is one.
    pub fn try_as_char_border_ref(&self) -> (r: Option<&CharBorder>)
        ensures
            r == (if *self is CharBorder {
                Some(&self->CharBorder_0)
            } else {
                None
            }),
    {
        match self {
            Garnish::CharBorder(inner) => Some(inner),
            _ => None,
        }
    }

    /// Whether this is a `CustomBorder`.
    pub fn is_custom_border(&self) -> (r: bool)
        ensures
            r == (*self is CustomBorder),
    {
        match self {
            Garnish::CustomBorder(_) => true,
            _ => false,
        }
    }

    /// The `CustomBorder` inside, if this is one.
    pub fn try_as_custom_border_ref(&self) -> (r: Option<&CustomBorder>)
        ensures
            r == (if *self is CustomBorder {
                Some(&self->CustomBorder_0)
            } else {
                None
            }),
    {
        match self {
            Garnish::CustomBorder(inner) => Some(inner),
            _ => None,
        }
    }

    /// Whether this is a `DashedBorder`.
    pub fn is_dashed_border(&self) -> (r: bool)
        ensures
            r == (*self is DashedBorder),
    {
        match self {
            Garnish::DashedBorder(_) => true,
            _ => false,
        }
    }

    /// The `DashedBorder` inside, if this is one.
    pub fn try_as_dashed_border_ref(&self) -> (r: Option<&DashedBorder>)
        ensures
            r == (if *self is DashedBorder {
                Some(&self->DashedBorder_0)
            } else {
                None
            }),
    {
        match self {
            Garnish::DashedBorder(inner) => Some(inner),
            _ => None,
        }
    }

    /// Whether this is a `DoubleBorder`.
    pub fn is_double_border(&self) -> (r: bool)
        ensures
            r == (*self is DoubleBorder),
    {
        match self {
            Garnish::DoubleBorder(_) => true,
            _ => false,
        }
    }

    /// The `DoubleBorder` inside, if this is one.
    pub fn try_as_double_border_ref(&self) -> (r: Option<&DoubleBorder>)
        ensures
            r == (if *self is DoubleBorder {
                Some(&self->DoubleBorder_0)
            } else {
                None
            }),
    {
        match self {
            Garnish::DoubleBorder(inner) => Some(inner),
            _ => None,
        }
    }

    /// Whether this is a `FatInsideBorder`.
    pub fn is_fat_inside_border(&self) -> (r: bool)
        ensures
            r == (*self is FatInsideBorder),
    {
        match self {
            Garnish::FatInsideBorder(_) => true,
            _ => false,
        }
    }

    /// The `FatInsideBorder` inside, if this is one.
    pub fn try_as_fat_inside_border_ref(&self) -> (r: Option<&FatInsideBorder>)
        ensures
            r == (if *self is FatInsideBorder {
                Some(&self->FatInsideBorder_0)
            } else {
                None
            }),
    {
        match self {
            Garnish::FatInsideBorder(inner) => Some(inner),
            _ => None,
        }
    }

    /// Whether this is a `FatOutsideBorder`.
    pub fn is_fat_outside_border(&self) -> (r: bool)
        ensures
            r == (*self is FatOutsideBorder),
    {
        match self {
            Garnish::FatOutsideBorder(_) => true,
            _ => false,
        }
    }

    /// The `FatOutsideBorder` inside, if this is one.
    pub fn try_as_fat_outside_border_ref(&self) -> (r: Option<&FatOutsideBorder>)
        ensures
            r == (if *self is FatOutsideBorder {
                Some(&self->FatOutsideBorder_0)
            } else {
                None
            }),
    {
        match self {
            Garnish::FatOutsideBorder(inner) => Some(inner),
            _ => None,
        }
    }

    /// Whether this is a `HalfShadow`.
    pub fn is_half_shadow(&self) -> (r: bool)
        ensures
            r == (*self is HalfShadow),
    {
        match self {
            Garnish::HalfShadow(_) => true,
            _ => false,
        }
    }

    /// The `HalfShadow` inside, if this is one.
    pub fn try_as_half_shadow_ref(&self) -> (r: Option<&HalfShadow>)
        ensures
            r == (if *self is HalfShadow {
                Some(&self->HalfShadow_0)
            } else {
                None
            }),
    {
        match self {
            Garnish::HalfShadow(inner) => Some(inner),
            _ => None,
        }
    }

    /// Whether this is a `Padding`.
    pub fn is_padding(&self) -> (r: bool)
        ensures
            r == (*self is Padding),
    {
        match self {
            Garnish::Padding(_) => true,
            _ => false,
        }
    }

    /// The `Padding` inside, if this is one.
    pub fn try_as_padding_ref(&self) -> (r: Option<&Padding>)
        ensures
            r == (if *self is Padding {
                Some(&self->Padding_0)
            } else {
                None
            }),
    {
        match self {
            Garnish::Padding(inner) => Some(inner),
            _ => None,
        }
    }

    /// Whether this is a `PlainBorder`.
    pub fn is_plain_border(&self) -> (r: bool)
        ensures
            r == (*self is PlainBorder),
    {
        match self {
            Garnish::PlainBorder(_) => true,
            _ => false,
        }
    }

    /// The `PlainBorder` inside, if this is one.
    pub fn try_as_plain_border_ref(&self) -> (r: Option<&PlainBorder>)
        ensures
            r == (if *self is PlainBorder {
                Some(&self->PlainBorder_0)
            } else {
                None
            }),
    {
        match self {
            Garnish::PlainBorder(inner) => Some(inner),
            _ => None,
        }
    }

    /// Whether this is a `QuadrantInsideBorder`.
    pub fn is_quadrant_inside_border(&self) -> (r: bool)
        ensures
            r == (*self is QuadrantInsideBorder),
    {
        match self {
            Garnish::QuadrantInsideBorder(_) => true,
            _ => false,
        }
    }

    /// The `QuadrantInsideBorder` inside, if this is one.
    pub fn try_as_quadrant_inside_border_ref(&self) -> (r: Option<&QuadrantInsideBorder>)
        ensures
            r == (if *self is QuadrantInsideBorder {
                Some(&self->QuadrantInsideBorder_0)
            } else {
                None
            }),
    {
        match self {
            Garnish::QuadrantInsideBorder(inner) => Some(inner),
            _ => None,
        }
    }

    /// Whether this is a `QuadrantOutsideBorder`.
    pub fn is_quadrant_outside_border(&self) -> (r: bool)
        ensures
            r == (*self is QuadrantOutsideBorder),
    {
        match self {
            Garnish::QuadrantOutsideBorder(_) => true,
            _ => false,
        }
    }

    /// The `QuadrantOutsideBorder` inside, if this is one.
    pub fn try_as_quadrant_outside_border_ref(&self) -> (r: Option<&QuadrantOutsideBorder>)
        ensures
            r == (if *self is QuadrantOutsideBorder {
                Some(&self->QuadrantOutsideBorder_0)
            } else {
                None
            }),
    {
        match self {
            Garnish::QuadrantOutsideBorder(inner) => Some(inner),
            _ => None,
        }
    }

    /// Whether this is a `RoundedBorder`.
    pub fn is_rounded_border(&self) -> (r: bool)
        ensures
            r == (*self is RoundedBorder),
    {
        match self {
            Garnish::RoundedBorder(_) => true,
            _ => false,
        }
    }

    /// The `RoundedBorder` inside, if this is one.
    pub fn try_as_rounded_border_ref(&self) -> (r: Option<&RoundedBorder>)
        ensures
            r == (if *self is RoundedBorder {
                Some(&self->RoundedBorder_0)
            } else {
                None
            }),
    {
        match self {
            Garnish::RoundedBorder(inner) => Some(inner),
            _ => None,
        }
    }

    /// Whether this is a `RoundedDashedBorder`.
    pub fn is_rounded_dashed_border(&self) -> (r: bool)
        ensures
            r == (*self is RoundedDashedBorder),
    {
        match self {
            Garnish::RoundedDashedBorder(_) => true,
            _ => false,
        }
    }

    /// The `RoundedDashedBorder` inside, if this is one.
    pub fn try_as_rounded_dashed_border_ref(&self) -> (r: Option<&RoundedDashedBorder>)
        ensures
            r == (if *self is RoundedDashedBorder {
                Some(&self->RoundedDashedBorder_0)
            } else {
                None
            }),
    {
        match self {
            Garnish::RoundedDashedBorder(inner) => Some(inner),
            _ => None,
        }
    }

    /// Whether this is a `Shadow`.
    pub fn is_shadow(&self) -> (r: bool)
        ensures
            r == (*self is Shadow),
    {
        match self {
            Garnish::Shadow(_) => true,
            _ => false,
        }
    }

    /// The `Shadow` inside, if this is one.
    pub fn try_as_shadow_ref(&self) -> (r: Option<&Shadow>)
        ensures
            r == (if *self is Shadow {
                Some(&self->Shadow_0)
            } else {
                None
            }),
    {
        match self {
            Garnish::Shadow(inner) => Some(inner),
            _ => None,
        }
    }

    /// Whether this is a `Style`.
    pub fn is_style(&self) -> (r: bool)
        ensures
            r == (*self is Style),
    {
        match self {
            Garnish::Style(_) => true,
            _ => false,
        }
    }

    /// The `Style` inside, if this is one.
    pub fn try_as_style_ref(&self) -> (r: Option<&Style>)
        ensures
            r == (if *self is Style {
                Some(&self->Style_0)
            } else {
                None
            }),
    {
        match self {
            Garnish::Style(inner) => Some(inner),
            _ => None,
        }
    }

    /// Whether this is a `ThickBorder`.
    pub fn is_thick_border(&self) -> (r: bool)
        ensures
            r == (*self is ThickBorder),
    {
        match self {
            Garnish::ThickBorder(_) => true,
            _ => false,
        }
    }

    /// The `ThickBorder` inside, if this is one.
    pub fn try_as_thick_border_ref(&self) -> (r: Option<&ThickBorder>)
        ensures
            r == (if *self is ThickBorder {
                Some(&self->ThickBorder_0)
            } else {
                None
            }),
    {
        match self {
            Garnish::ThickBorder(inner) => Some(inner),
            _ => None,
        }
    }

    /// Whether this is a `ThickDashedBorder`.
    pub fn is_thick_dashed_border(&self) -> (r: bool)
        ensures
            r == (*self is ThickDashedBorder),
    {
        match self {
            Garnish::ThickDashedBorder(_) => true,
            _ => false,
        }
    }

    /// The `ThickDashedBorder` inside, if this is one.
    pub fn try_as_thick_dashed_border_ref(&self) -> (r: Option<&ThickDashedBorder>)
        ensures
            r == (if *self is ThickDashedBorder {
                Some(&self->ThickDashedBorder_0)
            } else {
                None
            }),
    {
        match self {
            Garnish::ThickDashedBorder(inner) => Some(inner),
            _ => None,
        }
    }

    /// Whether this is a `Title<Above>`.
    pub fn is_title_above(&self) -> (r: bool)
        ensures
            r == (*self is TitleAbove),
    {
        match self {
            Garnish::TitleAbove(_) => true,
            _ => false,
        }
    }

    /// The `Title<Above>` inside, if this is one.
    pub fn try_as_title_above_ref(&self) -> (r: Option<&Title<Above>>)
        ensures
            r == (if *self is TitleAbove {
                Some(&self->TitleAbove_0)
            } else {
                None
            }),
    {
        match self {
            Garnish::TitleAbove(inner) => Some(inner),
            _ => None,
        }
    }

    /// Whether this is a `Title<After>`.
    pub fn is_title_after(&self) -> (r: bool)
        ensures
            r == (*self is TitleAfter),
    {
        match self {
            Garnish::TitleAfter(_) => true,
            _ => false,
        }
    }

    /// The `Title<After>` inside, if this is one.
    pub fn try_as_title_after_ref(&self) -> (r: Option<&Title<After>>)
        ensures
            r == (if *self is TitleAfter {
                Some(&self->TitleAfter_0)
            } else {
                None
            }),
    {
        match self {
            Garnish::TitleAfter(inner) => Some(inner),
            _ => None,
        }
    }

    /// Whether this is a `Title<Before>`.
    pub fn is_title_before(&self) -> (r: bool)
        ensures
            r == (*self is TitleBefore),
    {
        match self {
            Garnish::TitleBefore(_) => true,
            _ => false,
        }
    }

    /// The `Title<Before>` inside, if this is one.
    pub fn try_as_title_before_ref(&self) -> (r: Option<&Title<Before>>)
        ensures
            r == (if *self is TitleBefore {
                Some(&self->TitleBefore_0)
            } else {
                None
            }),
    {
        match self {
            Garnish::TitleBefore(inner) => Some(inner),
            _ => None,
        }
    }

    /// Whether this is a `Title<Below>`.
    pub fn is_title_below(&self) -> (r: bool)
        ensures
            r == (*self is TitleBelow),
    {
        match self {
            Garnish::TitleBelow(_) => true,
            _ => false,
        }
    }

    /// The `Title<Below>` inside, if this is one.
    pub fn try_as_title_below_ref(&self) -> (r: Option<&Title<Below>>)
        ensures
            r == (if *self is TitleBelow {
                Some(&self->TitleBelow_0)
            } else {
                None
            }),
    {
        match self {
            Garnish::TitleBelow(inner) => Some(inner),
            _ => None,
        }
    }

    /// Whether this is a `Title<Bottom>`.
    pub fn is_title_bottom(&self) -> (r: bool)
        ensures
            r == (*self is TitleBottom),
    {
        match self {
            Garnish::TitleBottom(_) => true,
            _ => false,
        }
    }

    /// The `Title<Bottom>` inside, if this is one.
    pub fn try_as_title_bottom_ref(&self) -> (r: Option<&Title<Bottom>>)
        ensures
            r == (if *self is TitleBottom {
                Some(&self->TitleBottom_0)
            } else {
                None
            }),
    {
        match self {
            Garnish::TitleBottom(inner) => Some(inner),
            _ => None,
        }
    }

    /// Whether this is a `Title<Left>`.
    pub fn is_title_left(&self) -> (r: bool)
        ensures
            r == (*self is TitleLeft),
    {
        match self {
            Garnish::TitleLeft(_) => true,
            _ => false,
        }
    }

    /// The `Title<Left>` inside, if this is one.
    pub fn try_as_title_left_ref(&self) -> (r: Option<&Title<Left>>)
        ensures
            r == (if *self is TitleLeft {
                Some(&self->TitleLeft_0)
            } else {
                None
            }),
    {
        match self {
            Garnish::TitleLeft(inner) => Some(inner),
            _ => None,
        }
    }

    /// Whether this is a `Title<Right>`.
    pub fn is_title_right(&self) -> (r: bool)
        ensures
            r == (*self is TitleRight),
    {
        match self {
            Garnish::TitleRight(_) => true,
            _ => false,
        }
    }

    /// The `Title<Right>` inside, if this is one.
    pub fn try_as_title_right_ref(&self) -> (r: Option<&Title<Right>>)
        ensures
            r == (if *self is TitleRight {
                Some(&self->TitleRight_0)
            } else {
                None
            }),
    {
        match self {
            Garnish::TitleRight(inner) => Some(inner),
            _ => None,
        }
    }

    /// Whether this is a `Title<Top>`.
    pub fn is_title_top(&self) -> (r: bool)
        ensures
            r == (*self is TitleTop),
    {
        match self {
            Garnish::TitleTop(_) => true,
            _ => false,
        }
    }

    /// The `Title<Top>` inside, if this is one.
    pub fn try_as_title_top_ref(&self) -> (r: Option<&Title<Top>>)
        ensures
            r == (if *self is TitleTop {
                Some(&self->TitleTop_0)
            } else {
                None
            }),
    {
        match self {
            Garnish::TitleTop(inner) => Some(inner),
            _ => None,
        }
    }
}

impl Garnish {
    /// Whether the garnish can be drawn. Every garnish can, but for a title
    /// that is written downwards and is too wide for its width to be a
    /// coordinate.
    pub open spec fn spec_fits(self) -> bool {
        match self {
            Garnish::TitleLeft(title) => title.spec_fits(),
            Garnish::TitleRight(title) => title.spec_fits(),
            Garnish::TitleBefore(title) => title.spec_fits(),
            Garnish::TitleAfter(title) => title.spec_fits(),
            _ => true,
        }
    }

    /// Whether the garnish can be drawn.
    pub fn fits(&self) -> (r: bool)
        ensures
            r == self.spec_fits(),
    {
        match self {
            Garnish::TitleLeft(title) => title.fits(),
            Garnish::TitleRight(title) => title.fits(),
            Garnish::TitleBefore(title) => title.fits(),
            Garnish::TitleAfter(title) => title.fits(),
            _ => true,
        }
    }
}

/// Whether every garnish of the list can be drawn: whether every title in
/// it that is written downwards fits.
pub fn titles_fit(garnishes: &[Garnish]) -> (r: bool)
    ensures
        r == forall|i: int| 0 <= i < garnishes@.len() ==> garnishes@[i].spec_fits(),
{
    let mut i: usize = 0;
    while i < garnishes.len()
        invariant
            i <= garnishes.len(),
            forall|j: int| 0 <= j < i ==> garnishes@[j].spec_fits(),
        decreases garnishes.len() - i,
    {
        if !garnishes[i].fits() {
            return false;
        }
        i = i + 1;
    }
    true
}

impl Clone for Garnish {
    fn clone(&self) -> (r: Garnish)
        ensures
            r == *self,
    {
        match self {
            Garnish::CharBorder(inner) => Garnish::CharBorder(*inner),
            Garnish::CustomBorder(inner) => Garnish::CustomBorder(*inner),
            Garnish::DashedBorder(inner) => Garnish::DashedBorder(*inner),
            Garnish::DoubleBorder(inner) => Garnish::DoubleBorder(*inner),
            Garnish::FatInsideBorder(inner) => Garnish::FatInsideBorder(*inner),
            Garnish::FatOutsideBorder(inner) => Garnish::FatOutsideBorder(*inner),
            Garnish::HalfShadow(inner) => Garnish::HalfShadow(*inner),
            Garnish::Padding(inner) => Garnish::Padding(*inner),
            Garnish::PlainBorder(inner) => Garnish::PlainBorder(*inner),
            Garnish::QuadrantInsideBorder(inner) => Garnish::QuadrantInsideBorder(*inner),
            Garnish::QuadrantOutsideBorder(inner) => Garnish::QuadrantOutsideBorder(*inner),
            Garnish::RoundedBorder(inner) => Garnish::RoundedBorder(*inner),
            Garnish::RoundedDashedBorder(inner) => Garnish::RoundedDashedBorder(*inner),
            Garnish::Shadow(inner) => Garnish::Shadow(*inner),
            Garnish::Style(inner) => Garnish::Style(*inner),
            Garnish::ThickBorder(inner) => Garnish::ThickBorder(*inner),
            Garnish::ThickDashedBorder(inner) => Garnish::ThickDashedBorder(*inner),
            Garnish::TitleAbove(inner) => Garnish::TitleAbove(inner.clone()),
            Garnish::TitleAfter(inner) => Garnish::TitleAfter(inner.clone()),
            Garnish::TitleBefore(inner) => Garnish::TitleBefore(inner.clone()),
            Garnish::TitleBelow(inner) => Garnish::TitleBelow(inner.clone()),
            Garnish::TitleBottom(inner) => Garnish::TitleBottom(inner.clone()),
            Garnish::TitleLeft(inner) => Garnish::TitleLeft(inner.clone()),
            Garnish::TitleRight(inner) => Garnish::TitleRight(inner.clone()),
            Garnish::TitleTop(inner) => Garnish::TitleTop(inner.clone()),
        }
    }
}

impl RenderModifier for Garnish {
    open spec fn area_after(&self, area: Rect) -> Rect {
        match *self {
            Garnish::CharBorder(inner) => inner.area_after(area),
            Garnish::CustomBorder(inner) => inner.area_after(area),
            Garnish::DashedBorder(inner) => inner.area_after(area),
            Garnish::DoubleBorder(inner) => inner.area_after(area),
            Garnish::FatInsideBorder(inner) => inner.area_after(area),
            Garnish::FatOutsideBorder(inner) => inner.area_after(area),
            Garnish::HalfShadow(inner) => inner.area_after(area),
            Garnish::Padding(inner) => inner.area_after(area),
            Garnish::PlainBorder(inner) => inner.area_after(area),
            Garnish::QuadrantInsideBorder(inner) => inner.area_after(area),
            Garnish::QuadrantOutsideBorder(inner) => inner.area_after(area),
            Garnish::RoundedBorder(inner) => inner.area_after(area),
            Garnish::RoundedDashedBorder(inner) => inner.area_after(area),
            Garnish::Shadow(inner) => inner.area_after(area),
            Garnish::Style(inner) => inner.area_after(area),
            Garnish::ThickBorder(inner) => inner.area_after(area),
            Garnish::ThickDashedBorder(inner) => inner.area_after(area),
            Garnish::TitleAbove(inner) => inner.area_after(area),
            Garnish::TitleAfter(inner) => inner.area_after(area),
            Garnish::TitleBefore(inner) => inner.area_after(area),
            Garnish::TitleBelow(inner) => inner.area_after(area),
            Garnish::TitleBottom(inner) => inner.area_after(area),
            Garnish::TitleLeft(inner) => inner.area_after(area),
            Garnish::TitleRight(inner) => inner.area_after(area),
            Garnish::TitleTop(inner) => inner.area_after(area),
        }
    }

    open spec fn painted_before(&self, area: Rect, canvas: Canvas) -> Canvas {
        match *self {
            Garnish::CharBorder(inner) => inner.painted_before(area, canvas),
            Garnish::CustomBorder(inner) => inner.painted_before(area, canvas),
            Garnish::DashedBorder(inner) => inner.painted_before(area, canvas),
            Garnish::DoubleBorder(inner) => inner.painted_before(area, canvas),
            Garnish::FatInsideBorder(inner) => inner.painted_before(area, canvas),
            Garnish::FatOutsideBorder(inner) => inner.painted_before(area, canvas),
            Garnish::HalfShadow(inner) => inner.painted_before(area, canvas),
            Garnish::Padding(inner) => inner.painted_before(area, canvas),
            Garnish::PlainBorder(inner) => inner.painted_before(area, canvas),
            Garnish::QuadrantInsideBorder(inner) => inner.painted_before(area, canvas),
            Garnish::QuadrantOutsideBorder(inner) => inner.painted_before(area, canvas),
            Garnish::RoundedBorder(inner) => inner.painted_before(area, canvas),
            Garnish::RoundedDashedBorder(inner) => inner.painted_before(area, canvas),
            Garnish::Shadow(inner) => inner.painted_before(area, canvas),
            Garnish::Style(inner) => inner.painted_before(area, canvas),
            Garnish::ThickBorder(inner) => inner.painted_before(area, canvas),
            Garnish::ThickDashedBorder(inner) => inner.painted_before(area, canvas),
            Garnish::TitleAbove(inner) => inner.painted_before(area, canvas),
            Garnish::TitleAfter(inner) => inner.painted_before(area, canvas),
            Garnish::TitleBefore(inner) => inner.painted_before(area, canvas),
            Garnish::TitleBelow(inner) => inner.painted_before(area, canvas),
            Garnish::TitleBottom(inner) => inner.painted_before(area, canvas),
            Garnish::TitleLeft(inner) => inner.painted_before(area, canvas),
            Garnish::TitleRight(inner) => inner.painted_before(area, canvas),
            Garnish::TitleTop(inner) => inner.painted_before(area, canvas),
        }
    }

    open spec fn painted_after(&self, area: Rect, canvas: Canvas) -> Canvas {
        match *self {
            Garnish::CharBorder(inner) => inner.painted_after(area, canvas),
            Garnish::CustomBorder(inner) => inner.painted_after(area, canvas),
            Garnish::DashedBorder(inner) => inner.painted_after(area, canvas),
            Garnish::DoubleBorder(inner) => inner.painted_after(area, canvas),
            Garnish::FatInsideBorder(inner) => inner.painted_after(area, canvas),
            Garnish::FatOutsideBorder(inner) => inner.painted_after(area, canvas),
            Garnish::HalfShadow(inner) => inner.painted_after(area, canvas),
            Garnish::Padding(inner) => inner.painted_after(area, canvas),
            Garnish::PlainBorder(inner) => inner.painted_after(area, canvas),
            Garnish::QuadrantInsideBorder(inner) => inner.painted_after(area, canvas),
            Garnish::QuadrantOutsideBorder(inner) => inner.painted_after(area, canvas),
            Garnish::RoundedBorder(inner) => inner.painted_after(area, canvas),
            Garnish::RoundedDashedBorder(inner) => inner.painted_after(area, canvas),
            Garnish::Shadow(inner) => inner.painted_after(area, canvas),
            Garnish::Style(inner) => inner.painted_after(area, canvas),
            Garnish::ThickBorder(inner) => inner.painted_after(area, canvas),
            Garnish::ThickDashedBorder(inner) => inner.painted_after(area, canvas),
            Garnish::TitleAbove(inner) => inner.painted_after(area, canvas),
            Garnish::TitleAfter(inner) => inner.painted_after(area, canvas),
            Garnish::TitleBefore(inner) => inner.painted_after(area, canvas),
            Garnish::TitleBelow(inner) => inner.painted_after(area, canvas),
            Garnish::TitleBottom(inner) => inner.painted_after(area, canvas),
            Garnish::TitleLeft(inner) => inner.painted_after(area, canvas),
            Garnish::TitleRight(inner) => inner.painted_after(area, canvas),
            Garnish::TitleTop(inner) => inner.painted_after(area, canvas),
        }
    }

    proof fn area_shrinks(&self, area: Rect) {
        match *self {
            Garnish::CharBorder(inner) => inner.area_shrinks(area),
            Garnish::CustomBorder(inner) => inner.area_shrinks(area),
            Garnish::DashedBorder(inner) => inner.area_shrinks(area),
            Garnish::DoubleBorder(inner) => inner.area_shrinks(area),
            Garnish::FatInsideBorder(inner) => inner.area_shrinks(area),
            Garnish::FatOutsideBorder(inner) => inner.area_shrinks(area),
            Garnish::HalfShadow(inner) => inner.area_shrinks(area),
            Garnish::Padding(inner) => inner.area_shrinks(area),
            Garnish::PlainBorder(inner) => inner.area_shrinks(area),
            Garnish::QuadrantInsideBorder(inner) => inner.area_shrinks(area),
            Garnish::QuadrantOutsideBorder(inner) => inner.area_shrinks(area),
            Garnish::RoundedBorder(inner) => inner.area_shrinks(area),
            Garnish::RoundedDashedBorder(inner) => inner.area_shrinks(area),
            Garnish::Shadow(inner) => inner.area_shrinks(area),
            Garnish::Style(inner) => inner.area_shrinks(area),
            Garnish::ThickBorder(inner) => inner.area_shrinks(area),
            Garnish::ThickDashedBorder(inner) => inner.area_shrinks(area),
            Garnish::TitleAbove(inner) => inner.area_shrinks(area),
            Garnish::TitleAfter(inner) => inner.area_shrinks(area),
            Garnish::TitleBefore(inner) => inner.area_shrinks(area),
            Garnish::TitleBelow(inner) => inner.area_shrinks(area),
            Garnish::TitleBottom(inner) => inner.area_shrinks(area),
            Garnish::TitleLeft(inner) => inner.area_shrinks(area),
            Garnish::TitleRight(inner) => inner.area_shrinks(area),
            Garnish::TitleTop(inner) => inner.area_shrinks(area),
        }
    }

    proof fn paints_in_place(&self, area: Rect, canvas: Canvas) {
        match *self {
            Garnish::CharBorder(inner) => inner.paints_in_place(area, canvas),
            Garnish::CustomBorder(inner) => inner.paints_in_place(area, canvas),
            Garnish::DashedBorder(inner) => inner.paints_in_place(area, canvas),
            Garnish::DoubleBorder(inner) => inner.paints_in_place(area, canvas),
            Garnish::FatInsideBorder(inner) => inner.paints_in_place(area, canvas),
            Garnish::FatOutsideBorder(inner) => inner.paints_in_place(area, canvas),
            Garnish::HalfShadow(inner) => inner.paints_in_place(area, canvas),
            Garnish::Padding(inner) => inner.paints_in_place(area, canvas),
            Garnish::PlainBorder(inner) => inner.paints_in_place(area, canvas),
            Garnish::QuadrantInsideBorder(inner) => inner.paints_in_place(area, canvas),
            Garnish::QuadrantOutsideBorder(inner) => inner.paints_in_place(area, canvas),
            Garnish::RoundedBorder(inner) => inner.paints_in_place(area, canvas),
            Garnish::RoundedDashedBorder(inner) => inner.paints_in_place(area, canvas),
            Garnish::Shadow(inner) => inner.paints_in_place(area, canvas),
            Garnish::Style(inner) => inner.paints_in_place(area, canvas),
            Garnish::ThickBorder(inner) => inner.paints_in_place(area, canvas),
            Garnish::ThickDashedBorder(inner) => inner.paints_in_place(area, canvas),
            Garnish::TitleAbove(inner) => inner.paints_in_place(area, canvas),
            Garnish::TitleAfter(inner) => inner.paints_in_place(area, canvas),
            Garnish::TitleBefore(inner) => inner.paints_in_place(area, canvas),
            Garnish::TitleBelow(inner) => inner.paints_in_place(area, canvas),
            Garnish::TitleBottom(inner) => inner.paints_in_place(area, canvas),
            Garnish::TitleLeft(inner) => inner.paints_in_place(area, canvas),
            Garnish::TitleRight(inner) => inner.paints_in_place(area, canvas),
            Garnish::TitleTop(inner) => inner.paints_in_place(area, canvas),
        }
    }

    fn modify_area(&self, area: Rect) -> (r: Rect) {
        match self {
            Garnish::CharBorder(inner) => inner.modify_area(area),
            Garnish::CustomBorder(inner) => inner.modify_area(area),
            Garnish::DashedBorder(inner) => inner.modify_area(area),
            Garnish::DoubleBorder(inner) => inner.modify_area(area),
            Garnish::FatInsideBorder(inner) => inner.modify_area(area),
            Garnish::FatOutsideBorder(inner) => inner.modify_area(area),
            Garnish::HalfShadow(inner) => inner.modify_area(area),
            Garnish::Padding(inner) => inner.modify_area(area),
            Garnish::PlainBorder(inner) => inner.modify_area(area),
            Garnish::QuadrantInsideBorder(inner) => inner.modify_area(area),
            Garnish::QuadrantOutsideBorder(inner) => inner.modify_area(area),
            Garnish::RoundedBorder(inner) => inner.modify_area(area),
            Garnish::RoundedDashedBorder(inner) => inner.modify_area(area),
            Garnish::Shadow(inner) => inner.modify_area(area),
            Garnish::Style(inner) => inner.modify_area(area),
            Garnish::ThickBorder(inner) => inner.modify_area(area),
            Garnish::ThickDashedBorder(inner) => inner.modify_area(area),
            Garnish::TitleAbove(inner) => inner.modify_area(area),
            Garnish::TitleAfter(inner) => inner.modify_area(area),
            Garnish::TitleBefore(inner) => inner.modify_area(area),
            Garnish::TitleBelow(inner) => inner.modify_area(area),
            Garnish::TitleBottom(inner) => inner.modify_area(area),
            Garnish::TitleLeft(inner) => inner.modify_area(area),
            Garnish::TitleRight(inner) => inner.modify_area(area),
            Garnish::TitleTop(inner) => inner.modify_area(area),
        }
    }

    fn before_render(&self, area: Rect, buffer: &mut Buffer) {
        match self {
            Garnish::CharBorder(inner) => inner.before_render(area, buffer),
            Garnish::CustomBorder(inner) => inner.before_render(area, buffer),
            Garnish::DashedBorder(inner) => inner.before_render(area, buffer),
            Garnish::DoubleBorder(inner) => inner.before_render(area, buffer),
            Garnish::FatInsideBorder(inner) => inner.before_render(area, buffer),
            Garnish::FatOutsideBorder(inner) => inner.before_render(area, buffer),
            Garnish::HalfShadow(inner) => inner.before_render(area, buffer),
            Garnish::Padding(inner) => inner.before_render(area, buffer),
            Garnish::PlainBorder(inner) => inner.before_render(area, buffer),
            Garnish::QuadrantInsideBorder(inner) => inner.before_render(area, buffer),
            Garnish::QuadrantOutsideBorder(inner) => inner.before_render(area, buffer),
            Garnish::RoundedBorder(inner) => inner.before_render(area, buffer),
            Garnish::RoundedDashedBorder(inner) => inner.before_render(area, buffer),
            Garnish::Shadow(inner) => inner.before_render(area, buffer),
            Garnish::Style(inner) => inner.before_render(area, buffer),
            Garnish::ThickBorder(inner) => inner.before_render(area, buffer),
            Garnish::ThickDashedBorder(inner) => inner.before_render(area, buffer),
            Garnish::TitleAbove(inner) => inner.before_render(area, buffer),
            Garnish::TitleAfter(inner) => inner.before_render(area, buffer),
            Garnish::TitleBefore(inner) => inner.before_render(area, buffer),
            Garnish::TitleBelow(inner) => inner.before_render(area, buffer),
            Garnish::TitleBottom(inner) => inner.before_render(area, buffer),
            Garnish::TitleLeft(inner) => inner.before_render(area, buffer),
            Garnish::TitleRight(inner) => inner.before_render(area, buffer),
            Garnish::TitleTop(inner) => inner.before_render(area, buffer),
        }
    }

    fn after_render(&self, area: Rect, buffer: &mut Buffer) {
        match self {
            Garnish::CharBorder(inner) => inner.after_render(area, buffer),
            Garnish::CustomBorder(inner) => inner.after_render(area, buffer),
            Garnish::DashedBorder(inner) => inner.after_render(area, buffer),
            Garnish::DoubleBorder(inner) => inner.after_render(area, buffer),
            Garnish::FatInsideBorder(inner) => inner.after_render(area, buffer),
            Garnish::FatOutsideBorder(inner) => inner.after_render(area, buffer),
            Garnish::HalfShadow(inner) => inner.after_render(area, buffer),
            Garnish::Padding(inner) => inner.after_render(area, buffer),
            Garnish::PlainBorder(inner) => inner.after_render(area, buffer),
            Garnish::QuadrantInsideBorder(inner) => inner.after_render(area, buffer),
            Garnish::QuadrantOutsideBorder(inner) => inner.after_render(area, buffer),
            Garnish::RoundedBorder(inner) => inner.after_render(area, buffer),
            Garnish::RoundedDashedBorder(inner) => inner.after_render(area, buffer),
            Garnish::Shadow(inner) => inner.after_render(area, buffer),
            Garnish::Style(inner) => inner.after_render(area, buffer),
            Garnish::ThickBorder(inner) => inner.after_render(area, buffer),
            Garnish::ThickDashedBorder(inner) => inner.after_render(area, buffer),
            Garnish::TitleAbove(inner) => inner.after_render(area, buffer),
            Garnish::TitleAfter(inner) => inner.after_render(area, buffer),
            Garnish::TitleBefore(inner) => inner.after_render(area, buffer),
            Garnish::TitleBelow(inner) => inner.after_render(area, buffer),
            Garnish::TitleBottom(inner) => inner.after_render(area, buffer),
            Garnish::TitleLeft(inner) => inner.after_render(area, buffer),
            Garnish::TitleRight(inner) => inner.after_render(area, buffer),
            Garnish::TitleTop(inner) => inner.after_render(area, buffer),
        }
    }
}

impl From<CharBorder> for Garnish {
    fn from(value: CharBorder) -> (r: Garnish) {
        Garnish::CharBorder(value)
    }
}

impl FromSpecImpl<CharBorder> for Garnish {
    open spec fn obeys_from_spec() -> bool {
        true
    }

    open spec fn from_spec(value: CharBorder) -> Garnish {
        Garnish::CharBorder(value)
    }
}

impl From<CustomBorder> for Garnish {
    fn from(value: CustomBorder) -> (r: Garnish) {
        Garnish::CustomBorder(value)
    }
}

impl FromSpecImpl<CustomBorder> for Garnish {
    open spec fn obeys_from_spec() -> bool {
        true
    }

    open spec fn from_spec(value: CustomBorder) -> Garnish {
        Garnish::CustomBorder(value)
    }
}

impl From<DashedBorder> for Garnish {
    fn from(value: DashedBorder) -> (r: Garnish) {
        Garnish::DashedBorder(value)
    }
}

impl FromSpecImpl<DashedBorder> for Garnish {
    open spec fn obeys_from_spec() -> bool {
        true
    }

    open spec fn from_spec(value: DashedBorder) -> Garnish {
        Garnish::DashedBorder(value)
    }
}

impl From<DoubleBorder> for Garnish {
    fn from(value: DoubleBorder) -> (r: Garnish) {
        Garnish::DoubleBorder(value)
    }
}

impl FromSpecImpl<DoubleBorder> for Garnish {
    open spec fn obeys_from_spec() -> bool {
        true
    }

    open spec fn from_spec(value: DoubleBorder) -> Garnish {
        Garnish::DoubleBorder(value)
    }
}

impl From<FatInsideBorder> for Garnish {
    fn from(value: FatInsideBorder) -> (r: Garnish) {
        Garnish::FatInsideBorder(value)
    }
}

impl FromSpecImpl<FatInsideBorder> for Garnish {
    open spec fn obeys_from_spec() -> bool {
        true
    }

    open spec fn from_spec(value: FatInsideBorder) -> Garnish {
        Garnish::FatInsideBorder(value)
    }
}

impl From<FatOutsideBorder> for Garnish {
    fn from(value: FatOutsideBorder) -> (r: Garnish) {
        Garnish::FatOutsideBorder(value)
    }
}

impl FromSpecImpl<FatOutsideBorder> for Garnish {
    open spec fn obeys_from_spec() -> bool {
        true
    }

    open spec fn from_spec(value: FatOutsideBorder) -> Garnish {
        Garnish::FatOutsideBorder(value)
    }
}

impl From<HalfShadow> for Garnish {
    fn from(value: HalfShadow) -> (r: Garnish) {
        Garnish::HalfShadow(value)
    }
}

impl FromSpecImpl<HalfShadow> for Garnish {
    open spec fn obeys_from_spec() -> bool {
        true
    }

    open spec fn from_spec(value: HalfShadow) -> Garnish {
        Garnish::HalfShadow(value)
    }
}

impl From<Padding> for Garnish {
    fn from(value: Padding) -> (r: Garnish) {
        Garnish::Padding(value)
    }
}

impl FromSpecImpl<Padding> for Garnish {
    open spec fn obeys_from_spec() -> bool {
        true
    }

    open spec fn from_spec(value: Padding) -> Garnish {
        Garnish::Padding(value)
    }
}

impl From<PlainBorder> for Garnish {
    fn from(value: PlainBorder) -> (r: Garnish) {
        Garnish::PlainBorder(value)
    }
}

impl FromSpecImpl<PlainBorder> for Garnish {
    open spec fn obeys_from_spec() -> bool {
        true
    }

    open spec fn from_spec(value: PlainBorder) -> Garnish {
        Garnish::PlainBorder(value)
    }
}

impl From<QuadrantInsideBorder> for Garnish {
    fn from(value: QuadrantInsideBorder) -> (r: Garnish) {
        Garnish::QuadrantInsideBorder(value)
    }
}

impl FromSpecImpl<QuadrantInsideBorder> for Garnish {
    open spec fn obeys_from_spec() -> bool {
        true
    }

    open spec fn from_spec(value: QuadrantInsideBorder) -> Garnish {
        Garnish::QuadrantInsideBorder(value)
    }
}

impl From<QuadrantOutsideBorder> for Garnish {
    fn from(value: QuadrantOutsideBorder) -> (r: Garnish) {
        Garnish::QuadrantOutsideBorder(value)
    }
}

impl FromSpecImpl<QuadrantOutsideBorder> for Garnish {
    open spec fn obeys_from_spec() -> bool {
        true
    }

    open spec fn from_spec(value: QuadrantOutsideBorder) -> Garnish {
        Garnish::QuadrantOutsideBorder(value)
    }
}

impl From<RoundedBorder> for Garnish {
    fn from(value: RoundedBorder) -> (r: Garnish) {
        Garnish::RoundedBorder(value)
    }
}

impl FromSpecImpl<RoundedBorder> for Garnish {
    open spec fn obeys_from_spec() -> bool {
        true
    }

    open spec fn from_spec(value: RoundedBorder) -> Garnish {
        Garnish::RoundedBorder(value)
    }
}

impl From<RoundedDashedBorder> for Garnish {
    fn from(value: RoundedDashedBorder) -> (r: Garnish) {
        Garnish::RoundedDashedBorder(value)
    }
}

impl FromSpecImpl<RoundedDashedBorder> for Garnish {
    open spec fn obeys_from_spec() -> bool {
        true
    }

    open spec fn from_spec(value: RoundedDashedBorder) -> Garnish {
        Garnish::RoundedDashedBorder(value)
    }
}

impl From<Shadow> for Garnish {
    fn from(value: Shadow) -> (r: Garnish) {
        Garnish::Shadow(value)
    }
}

impl FromSpecImpl<Shadow> for Garnish {
    open spec fn obeys_from_spec() -> bool {
        true
    }

    open spec fn from_spec(value: Shadow) -> Garnish {
        Garnish::Shadow(value)
    }
}

impl From<Style> for Garnish {
    fn from(value: Style) -> (r: Garnish) {
        Garnish::Style(value)
    }
}

impl FromSpecImpl<Style> for Garnish {
    open spec fn obeys_from_spec() -> bool {
        true
    }

    open spec fn from_spec(value: Style) -> Garnish {
        Garnish::Style(value)
    }
}

impl From<ThickBorder> for Garnish {
    fn from(value: ThickBorder) -> (r: Garnish) {
        Garnish::ThickBorder(value)
    }
}

impl FromSpecImpl<ThickBorder> for Garnish {
    open spec fn obeys_from_spec() -> bool {
        true
    }

    open spec fn from_spec(value: ThickBorder) -> Garnish {
        Garnish::ThickBorder(value)
    }
}

impl From<ThickDashedBorder> for Garnish {
    fn from(value: ThickDashedBorder) -> (r: Garnish) {
        Garnish::ThickDashedBorder(value)
    }
}

impl FromSpecImpl<ThickDashedBorder> for Garnish {
    open spec fn obeys_from_spec() -> bool {
        true
    }

    open spec fn from_spec(value: ThickDashedBorder) -> Garnish {
        Garnish::ThickDashedBorder(value)
    }
}

impl From<Title<Above>> for Garnish {
    fn from(value: Title<Above>) -> (r: Garnish) {
        Garnish::TitleAbove(value)
    }
}

impl FromSpecImpl<Title<Above>> for Garnish {
    open spec fn obeys_from_spec() -> bool {
        true
    }

    open spec fn from_spec(value: Title<Above>) -> Garnish {
        Garnish::TitleAbove(value)
    }
}

impl From<Title<After>> for Garnish {
    fn from(value: Title<After>) -> (r: Garnish) {
        Garnish::TitleAfter(value)
    }
}

impl FromSpecImpl<Title<After>> for Garnish {
    open spec fn obeys_from_spec() -> bool {
        true
    }

    open spec fn from_spec(value: Title<After>) -> Garnish {
        Garnish::TitleAfter(value)
    }
}

impl From<Title<Before>> for Garnish {
    fn from(value: Title<Before>) -> (r: Garnish) {
        Garnish::TitleBefore(value)
    }
}

impl FromSpecImpl<Title<Before>> for Garnish {
    open spec fn obeys_from_spec() -> bool {
        true
    }

    open spec fn from_spec(value: Title<Before>) -> Garnish {
        Garnish::TitleBefore(value)
    }
}

impl From<Title<Below>> for Garnish {
    fn from(value: Title<Below>) -> (r: Garnish) {
        Garnish::TitleBelow(value)
    }
}

impl FromSpecImpl<Title<Below>> for Garnish {
    open spec fn obeys_from_spec() -> bool {
        true
    }

    open spec fn from_spec(value: Title<Below>) -> Garnish {
        Garnish::TitleBelow(value)
    }
}

impl From<Title<Bottom>> for Garnish {
    fn from(value: Title<Bottom>) -> (r: Garnish) {
        Garnish::TitleBottom(value)
    }
}

impl FromSpecImpl<Title<Bottom>> for Garnish {
    open spec fn obeys_from_spec() -> bool {
        true
    }

    open spec fn from_spec(value: Title<Bottom>) -> Garnish {
        Garnish::TitleBottom(value)
    }
}

impl From<Title<Left>> for Garnish {
    fn from(value: Title<Left>) -> (r: Garnish) {
        Garnish::TitleLeft(value)
    }
}

impl FromSpecImpl<Title<Left>> for Garnish {
    open spec fn obeys_from_spec() -> bool {
        true
    }

    open spec fn from_spec(value: Title<Left>) -> Garnish {
        Garnish::TitleLeft(value)
    }
}

impl From<Title<Right>> for Garnish {
    fn from(value: Title<Right>) -> (r: Garnish) {
        Garnish::TitleRight(value)
    }
}

impl FromSpecImpl<Title<Right>> for Garnish {
    open spec fn obeys_from_spec() -> bool {
        true
    }

    open spec fn from_spec(value: Title<Right>) -> Garnish {
        Garnish::TitleRight(value)
    }
}

impl From<Title<Top>> for Garnish {
    fn from(value: Title<Top>) -> (r: Garnish) {
        Garnish::TitleTop(value)
    }
}

impl FromSpecImpl<Title<Top>> for Garnish {
    open spec fn obeys_from_spec() -> bool {
        true
    }

    open spec fn from_spec(value: Title<Top>) -> Garnish {
        Garnish::TitleTop(value)
    }
}


/// The first `CharBorder` of a list, if it holds one.
pub fn first_char_border(garnishes: &[Garnish]) -> (r: Option<&CharBorder>)
    ensures
        match r {
            Some(inner) => exists|i: int|
                0 <= i < garnishes@.len() && garnishes@[i] == Garnish::CharBorder(*inner) && forall|j: int|
                    0 <= j < i ==> !(garnishes@[j] is CharBorder),
            None => forall|j: int| 0 <= j < garnishes@.len() ==> !(garnishes@[j] is CharBorder),
        },
{
    let mut i: usize = 0;
    while i < garnishes.len()
        invariant
            i <= garnishes.len(),
            forall|j: int| 0 <= j < i ==> !(garnishes@[j] is CharBorder),
        decreases garnishes.len() - i,
    {
        match &garnishes[i] {
            Garnish::CharBorder(inner) => {
                return Some(inner);
            },
            _ => {},
        }
        i = i + 1;
    }
    None
}

/// The first `CustomBorder` of a list, if it holds one.
pub fn first_custom_border(garnishes: &[Garnish]) -> (r: Option<&CustomBorder>)
    ensures
        match r {
            Some(inner) => exists|i: int|
                0 <= i < garnishes@.len() && garnishes@[i] == Garnish::CustomBorder(*inner) && forall|j: int|
                    0 <= j < i ==> !(garnishes@[j] is CustomBorder),
            None => forall|j: int| 0 <= j < garnishes@.len() ==> !(garnishes@[j] is CustomBorder),
        },
{
    let mut i: usize = 0;
    while i < garnishes.len()
        invariant
            i <= garnishes.len(),
            forall|j: int| 0 <= j < i ==> !(garnishes@[j] is CustomBorder),
        decreases garnishes.len() - i,
    {
        match &garnishes[i] {
            Garnish::CustomBorder(inner) => {
                return Some(inner);
            },
            _ => {},
        }
        i = i + 1;
    }
    None
}

/// The first `DashedBorder` of a list, if it holds one.
pub fn first_dashed_border(garnishes: &[Garnish]) -> (r: Option<&DashedBorder>)
    ensures
        match r {
            Some(inner) => exists|i: int|
                0 <= i < garnishes@.len() && garnishes@[i] == Garnish::DashedBorder(*inner) && forall|j: int|
                    0 <= j < i ==> !(garnishes@[j] is DashedBorder),
            None => forall|j: int| 0 <= j < garnishes@.len() ==> !(garnishes@[j] is DashedBorder),
        },
{
    let mut i: usize = 0;
    while i < garnishes.len()
        invariant
            i <= garnishes.len(),
            forall|j: int| 0 <= j < i ==> !(garnishes@[j] is DashedBorder),
        decreases garnishes.len() - i,
    {
        match &garnishes[i] {
            Garnish::DashedBorder(inner) => {
                return Some(inner);
            },
            _ => {},
        }
        i = i + 1;
    }
    None
}

/// The first `DoubleBorder` of a list, if it holds one.
pub fn first_double_border(garnishes: &[Garnish]) -> (r: Option<&DoubleBorder>)
    ensures
        match r {
            Some(inner) => exists|i: int|
                0 <= i < garnishes@.len() && garnishes@[i] == Garnish::DoubleBorder(*inner) && forall|j: int|
                    0 <= j < i ==> !(garnishes@[j] is DoubleBorder),
            None => forall|j: int| 0 <= j < garnishes@.len() ==> !(garnishes@[j] is DoubleBorder),
        },
{
    let mut i: usize = 0;
    while i < garnishes.len()
        invariant
            i <= garnishes.len(),
            forall|j: int| 0 <= j < i ==> !(garnishes@[j] is DoubleBorder),
        decreases garnishes.len() - i,
    {
        match &garnishes[i] {
            Garnish::DoubleBorder(inner) => {
                return Some(inner);
            },
            _ => {},
        }
        i = i + 1;
    }
    None
}

/// The first `FatInsideBorder` of a list, if it holds one.
pub fn first_fat_inside_border(garnishes: &[Garnish]) -> (r: Option<&FatInsideBorder>)
    ensures
        match r {
            Some(inner) => exists|i: int|
                0 <= i < garnishes@.len() && garnishes@[i] == Garnish::FatInsideBorder(*inner) && forall|j: int|
                    0 <= j < i ==> !(garnishes@[j] is FatInsideBorder),
            None => forall|j: int| 0 <= j < garnishes@.len() ==> !(garnishes@[j] is FatInsideBorder),
        },
{
    let mut i: usize = 0;
    while i < garnishes.len()
        invariant
            i <= garnishes.len(),
            forall|j: int| 0 <= j < i ==> !(garnishes@[j] is FatInsideBorder),
        decreases garnishes.len() - i,
    {
        match &garnishes[i] {
            Garnish::FatInsideBorder(inner) => {
                return Some(inner);
            },
            _ => {},
        }
        i = i + 1;
    }
    None
}

/// The first `FatOutsideBorder` of a list, if it holds one.
pub fn first_fat_outside_border(garnishes: &[Garnish]) -> (r: Option<&FatOutsideBorder>)
    ensures
        match r {
            Some(inner) => exists|i: int|
                0 <= i < garnishes@.len() && garnishes@[i] == Garnish::FatOutsideBorder(*inner) && forall|j: int|
                    0 <= j < i ==> !(garnishes@[j] is FatOutsideBorder),
            None => forall|j: int| 0 <= j < garnishes@.len() ==> !(garnishes@[j] is FatOutsideBorder),
        },
{
    let mut i: usize = 0;
    while i < garnishes.len()
        invariant
            i <= garnishes.len(),
            forall|j: int| 0 <= j < i ==> !(garnishes@[j] is FatOutsideBorder),
        decreases garnishes.len() - i,
    {
        match &garnishes[i] {
            Garnish::FatOutsideBorder(inner) => {
                return Some(inner);
            },
            _ => {},
        }
        i = i + 1;
    }
    None
}

/// The first `HalfShadow` of a list, if it holds one.
pub fn first_half_shadow(garnishes: &[Garnish]) -> (r: Option<&HalfShadow>)
    ensures
        match r {
            Some(inner) => exists|i: int|
                0 <= i < garnishes@.len() && garnishes@[i] == Garnish::HalfShadow(*inner) && forall|j: int|
                    0 <= j < i ==> !(garnishes@[j] is HalfShadow),
            None => forall|j: int| 0 <= j < garnishes@.len() ==> !(garnishes@[j] is HalfShadow),
        },
{
    let mut i: usize = 0;
    while i < garnishes.len()
        invariant
            i <= garnishes.len(),
            forall|j: int| 0 <= j < i ==> !(garnishes@[j] is HalfShadow),
        decreases garnishes.len() - i,
    {
        match &garnishes[i] {
            Garnish::HalfShadow(inner) => {
                return Some(inner);
            },
            _ => {},
        }
        i = i + 1;
    }
    None
}

/// The first `Padding` of a list, if it holds one.
pub fn first_padding(garnishes: &[Garnish]) -> (r: Option<&Padding>)
    ensures
        match r {
            Some(inner) => exists|i: int|
                0 <= i < garnishes@.len() && garnishes@[i] == Garnish::Padding(*inner) && forall|j: int|
                    0 <= j < i ==> !(garnishes@[j] is Padding),
            None => forall|j: int| 0 <= j < garnishes@.len() ==> !(garnishes@[j] is Padding),
        },
{
    let mut i: usize = 0;
    while i < garnishes.len()
        invariant
            i <= garnishes.len(),
            forall|j: int| 0 <= j < i ==> !(garnishes@[j] is Padding),
        decreases garnishes.len() - i,
    {
        match &garnishes[i] {
            Garnish::Padding(inner) => {
                return Some(inner);
            },
            _ => {},
        }
        i = i + 1;
    }
    None
}

/// The first `PlainBorder` of a list, if it holds one.
pub fn first_plain_border(garnishes: &[Garnish]) -> (r: Option<&PlainBorder>)
    ensures
        match r {
            Some(inner) => exists|i: int|
                0 <= i < garnishes@.len() && garnishes@[i] == Garnish::PlainBorder(*inner) && forall|j: int|
                    0 <= j < i ==> !(garnishes@[j] is PlainBorder),
            None => forall|j: int| 0 <= j < garnishes@.len() ==> !(garnishes@[j] is PlainBorder),
        },
{
    let mut i: usize = 0;
    while i < garnishes.len()
        invariant
            i <= garnishes.len(),
            forall|j: int| 0 <= j < i ==> !(garnishes@[j] is PlainBorder),
        decreases garnishes.len() - i,
    {
        match &garnishes[i] {
            Garnish::PlainBorder(inner) => {
                return Some(inner);
            },
            _ => {},
        }
        i = i + 1;
    }
    None
}

/// The first `QuadrantInsideBorder` of a list, if it holds one.
pub fn first_quadrant_inside_border(garnishes: &[Garnish]) -> (r: Option<&QuadrantInsideBorder>)
    ensures
        match r {
            Some(inner) => exists|i: int|
                0 <= i < garnishes@.len() && garnishes@[i] == Garnish::QuadrantInsideBorder(*inner) && forall|j: int|
                    0 <= j < i ==> !(garnishes@[j] is QuadrantInsideBorder),
            None => forall|j: int| 0 <= j < garnishes@.len() ==> !(garnishes@[j] is QuadrantInsideBorder),
        },
{
    let mut i: usize = 0;
    while i < garnishes.len()
        invariant
            i <= garnishes.len(),
            forall|j: int| 0 <= j < i ==> !(garnishes@[j] is QuadrantInsideBorder),
        decreases garnishes.len() - i,
    {
        match &garnishes[i] {
            Garnish::QuadrantInsideBorder(inner) => {
                return Some(inner);
            },
            _ => {},
        }
        i = i + 1;
    }
    None
}

/// The first `QuadrantOutsideBorder` of a list, if it holds one.
pub fn first_quadrant_outside_border(garnishes: &[Garnish]) -> (r: Option<&QuadrantOutsideBorder>)
    ensures
        match r {
            Some(inner) => exists|i: int|
                0 <= i < garnishes@.len() && garnishes@[i] == Garnish::QuadrantOutsideBorder(*inner) && forall|j: int|
                    0 <= j < i ==> !(garnishes@[j] is QuadrantOutsideBorder),
            None => forall|j: int| 0 <= j < garnishes@.len() ==> !(garnishes@[j] is QuadrantOutsideBorder),
        },
{
    let mut i: usize = 0;
    while i < garnishes.len()
        invariant
            i <= garnishes.len(),
            forall|j: int| 0 <= j < i ==> !(garnishes@[j] is QuadrantOutsideBorder),
        decreases garnishes.len() - i,
    {
        match &garnishes[i] {
            Garnish::QuadrantOutsideBorder(inner) => {
                return Some(inner);
            },
            _ => {},
        }
        i = i + 1;
    }
    None
}

/// The first `RoundedBorder` of a list, if it holds one.
pub fn first_rounded_border(garnishes: &[Garnish]) -> (r: Option<&RoundedBorder>)
    ensures
        match r {
            Some(inner) => exists|i: int|
                0 <= i < garnishes@.len() && garnishes@[i] == Garnish::RoundedBorder(*inner) && forall|j: int|
                    0 <= j < i ==> !(garnishes@[j] is RoundedBorder),
            None => forall|j: int| 0 <= j < garnishes@.len() ==> !(garnishes@[j] is RoundedBorder),
        },
{
    let mut i: usize = 0;
    while i < garnishes.len()
        invariant
            i <= garnishes.len(),
            forall|j: int| 0 <= j < i ==> !(garnishes@[j] is RoundedBorder),
        decreases garnishes.len() - i,
    {
        match &garnishes[i] {
            Garnish::RoundedBorder(inner) => {
                return Some(inner);
            },
            _ => {},
        }
        i = i + 1;
    }
    None
}

/// The first `RoundedDashedBorder` of a list, if it holds one.
pub fn first_rounded_dashed_border(garnishes: &[Garnish]) -> (r: Option<&RoundedDashedBorder>)
    ensures
        match r {
            Some(inner) => exists|i: int|
                0 <= i < garnishes@.len() && garnishes@[i] == Garnish::RoundedDashedBorder(*inner) && forall|j: int|
                    0 <= j < i ==> !(garnishes@[j] is RoundedDashedBorder),
            None => forall|j: int| 0 <= j < garnishes@.len() ==> !(garnishes@[j] is RoundedDashedBorder),
        },
{
    let mut i: usize = 0;
    while i < garnishes.len()
        invariant
            i <= garnishes.len(),
            forall|j: int| 0 <= j < i ==> !(garnishes@[j] is RoundedDashedBorder),
        decreases garnishes.len() - i,
    {
        match &garnishes[i] {
            Garnish::RoundedDashedBorder(inner) => {
                return Some(inner);
            },
            _ => {},
        }
        i = i + 1;
    }
    None
}

/// The first `Shadow` of a list, if it holds one.
pub fn first_shadow(garnishes: &[Garnish]) -> (r: Option<&Shadow>)
    ensures
        match r {
            Some(inner) => exists|i: int|
                0 <= i < garnishes@.len() && garnishes@[i] == Garnish::Shadow(*inner) && forall|j: int|
                    0 <= j < i ==> !(garnishes@[j] is Shadow),
            None => forall|j: int| 0 <= j < garnishes@.len() ==> !(garnishes@[j] is Shadow),
        },
{
    let mut i: usize = 0;
    while i < garnishes.len()
        invariant
            i <= garnishes.len(),
            forall|j: int| 0 <= j < i ==> !(garnishes@[j] is Shadow),
        decreases garnishes.len() - i,
    {
        match &garnishes[i] {
            Garnish::Shadow(inner) => {
                return Some(inner);
            },
            _ => {},
        }
        i = i + 1;
    }
    None
}

/// The first `Style` of a list, if it holds one.
pub fn first_style(garnishes: &[Garnish]) -> (r: Option<&Style>)
    ensures
        match r {
            Some(inner) => exists|i: int|
                0 <= i < garnishes@.len() && garnishes@[i] == Garnish::Style(*inner) && forall|j: int|
                    0 <= j < i ==> !(garnishes@[j] is Style),
            None => forall|j: int| 0 <= j < garnishes@.len() ==> !(garnishes@[j] is Style),
        },
{
    let mut i: usize = 0;
    while i < garnishes.len()
        invariant
            i <= garnishes.len(),
            forall|j: int| 0 <= j < i ==> !(garnishes@[j] is Style),
        decreases garnishes.len() - i,
    {
        match &garnishes[i] {
            Garnish::Style(inner) => {
                return Some(inner);
            },
            _ => {},
        }
        i = i + 1;
    }
    None
}

/// The first `ThickBorder` of a list, if it holds one.
pub fn first_thick_border(garnishes: &[Garnish]) -> (r: Option<&ThickBorder>)
    ensures
        match r {
            Some(inner) => exists|i: int|
                0 <= i < garnishes@.len() && garnishes@[i] == Garnish::ThickBorder(*inner) && forall|j: int|
                    0 <= j < i ==> !(garnishes@[j] is ThickBorder),
            None => forall|j: int| 0 <= j < garnishes@.len() ==> !(garnishes@[j] is ThickBorder),
        },
{
    let mut i: usize = 0;
    while i < garnishes.len()
        invariant
            i <= garnishes.len(),
            forall|j: int| 0 <= j < i ==> !(garnishes@[j] is ThickBorder),
        decreases garnishes.len() - i,
    {
        match &garnishes[i] {
            Garnish::ThickBorder(inner) => {
                return Some(inner);
            },
            _ => {},
        }
        i = i + 1;
    }
    None
}

/// The first `ThickDashedBorder` of a list, if it holds one.
pub fn first_thick_dashed_border(garnishes: &[Garnish]) -> (r: Option<&ThickDashedBorder>)
    ensures
        match r {
            Some(inner) => exists|i: int|
                0 <= i < garnishes@.len() && garnishes@[i] == Garnish::ThickDashedBorder(*inner) && forall|j: int|
                    0 <= j < i ==> !(garnishes@[j] is ThickDashedBorder),
            None => forall|j: int| 0 <= j < garnishes@.len() ==> !(garnishes@[j] is ThickDashedBorder),
        },
{
    let mut i: usize = 0;
    while i < garnishes.len()
        invariant
            i <= garnishes.len(),
            forall|j: int| 0 <= j < i ==> !(garnishes@[j] is ThickDashedBorder),
        decreases garnishes.len() - i,
    {
        match &garnishes[i] {
            Garnish::ThickDashedBorder(inner) => {
                return Some(inner);
            },
            _ => {},
        }
        i = i + 1;
    }
    None
}

/// The first `Title<Above>` of a list, if it holds one.
pub fn first_title_above(garnishes: &[Garnish]) -> (r: Option<&Title<Above>>)
    ensures
        match r {
            Some(inner) => exists|i: int|
                0 <= i < garnishes@.len() && garnishes@[i] == Garnish::TitleAbove(*inner) && forall|j: int|
                    0 <= j < i ==> !(garnishes@[j] is TitleAbove),
            None => forall|j: int| 0 <= j < garnishes@.len() ==> !(garnishes@[j] is TitleAbove),
        },
{
    let mut i: usize = 0;
    while i < garnishes.len()
        invariant
            i <= garnishes.len(),
            forall|j: int| 0 <= j < i ==> !(garnishes@[j] is TitleAbove),
        decreases garnishes.len() - i,
    {
        match &garnishes[i] {
            Garnish::TitleAbove(inner) => {
                return Some(inner);
            },
            _ => {},
        }
        i = i + 1;
    }
    None
}

/// The first `Title<After>` of a list, if it holds one.
pub fn first_title_after(garnishes: &[Garnish]) -> (r: Option<&Title<After>>)
    ensures
        match r {
            Some(inner) => exists|i: int|
                0 <= i < garnishes@.len() && garnishes@[i] == Garnish::TitleAfter(*inner) && forall|j: int|
                    0 <= j < i ==> !(garnishes@[j] is TitleAfter),
            None => forall|j: int| 0 <= j < garnishes@.len() ==> !(garnishes@[j] is TitleAfter),
        },
{
    let mut i: usize = 0;
    while i < garnishes.len()
        invariant
            i <= garnishes.len(),
            forall|j: int| 0 <= j < i ==> !(garnishes@[j] is TitleAfter),
        decreases garnishes.len() - i,
    {
        match &garnishes[i] {
            Garnish::TitleAfter(inner) => {
                return Some(inner);
            },
            _ => {},
        }
        i = i + 1;
    }
    None
}

/// The first `Title<Before>` of a list, if it holds one.
pub fn first_title_before(garnishes: &[Garnish]) -> (r: Option<&Title<Before>>)
    ensures
        match r {
            Some(inner) => exists|i: int|
                0 <= i < garnishes@.len() && garnishes@[i] == Garnish::TitleBefore(*inner) && forall|j: int|
                    0 <= j < i ==> !(garnishes@[j] is TitleBefore),
            None => forall|j: int| 0 <= j < garnishes@.len() ==> !(garnishes@[j] is TitleBefore),
        },
{
    let mut i: usize = 0;
    while i < garnishes.len()
        invariant
            i <= garnishes.len(),
            forall|j: int| 0 <= j < i ==> !(garnishes@[j] is TitleBefore),
        decreases garnishes.len() - i,
    {
        match &garnishes[i] {
            Garnish::TitleBefore(inner) => {
                return Some(inner);
            },
            _ => {},
        }
        i = i + 1;
    }
    None
}

/// The first `Title<Below>` of a list, if it holds one.
pub fn first_title_below(garnishes: &[Garnish]) -> (r: Option<&Title<Below>>)
    ensures
        match r {
            Some(inner) => exists|i: int|
                0 <= i < garnishes@.len() && garnishes@[i] == Garnish::TitleBelow(*inner) && forall|j: int|
                    0 <= j < i ==> !(garnishes@[j] is TitleBelow),
            None => forall|j: int| 0 <= j < garnishes@.len() ==> !(garnishes@[j] is TitleBelow),
        },
{
    let mut i: usize = 0;
    while i < garnishes.len()
        invariant
            i <= garnishes.len(),
            forall|j: int| 0 <= j < i ==> !(garnishes@[j] is TitleBelow),
        decreases garnishes.len() - i,
    {
        match &garnishes[i] {
            Garnish::TitleBelow(inner) => {
                return Some(inner);
            },
            _ => {},
        }
        i = i + 1;
    }
    None
}

/// The first `Title<Bottom>` of a list, if it holds one.
pub fn first_title_bottom(garnishes: &[Garnish]) -> (r: Option<&Title<Bottom>>)
    ensures
        match r {
            Some(inner) => exists|i: int|
                0 <= i < garnishes@.len() && garnishes@[i] == Garnish::TitleBottom(*inner) && forall|j: int|
                    0 <= j < i ==> !(garnishes@[j] is TitleBottom),
            None => forall|j: int| 0 <= j < garnishes@.len() ==> !(garnishes@[j] is TitleBottom),
        },
{
    let mut i: usize = 0;
    while i < garnishes.len()
        invariant
            i <= garnishes.len(),
            forall|j: int| 0 <= j < i ==> !(garnishes@[j] is TitleBottom),
        decreases garnishes.len() - i,
    {
        match &garnishes[i] {
            Garnish::TitleBottom(inner) => {
                return Some(inner);
            },
            _ => {},
        }
        i = i + 1;
    }
    None
}

/// The first `Title<Left>` of a list, if it holds one.
pub fn first_title_left(garnishes: &[Garnish]) -> (r: Option<&Title<Left>>)
    ensures
        match r {
            Some(inner) => exists|i: int|
                0 <= i < garnishes@.len() && garnishes@[i] == Garnish::TitleLeft(*inner) && forall|j: int|
                    0 <= j < i ==> !(garnishes@[j] is TitleLeft),
            None => forall|j: int| 0 <= j < garnishes@.len() ==> !(garnishes@[j] is TitleLeft),
        },
{
    let mut i: usize = 0;
    while i < garnishes.len()
        invariant
            i <= garnishes.len(),
            forall|j: int| 0 <= j < i ==> !(garnishes@[j] is TitleLeft),
        decreases garnishes.len() - i,
    {
        match &garnishes[i] {
            Garnish::TitleLeft(inner) => {
                return Some(inner);
            },
            _ => {},
        }
        i = i + 1;
    }
    None
}

/// The first `Title<Right>` of a list, if it holds one.
pub fn first_title_right(garnishes: &[Garnish]) -> (r: Option<&Title<Right>>)
    ensures
        match r {
            Some(inner) => exists|i: int|
                0 <= i < garnishes@.len() && garnishes@[i] == Garnish::TitleRight(*inner) && forall|j: int|
                    0 <= j < i ==> !(garnishes@[j] is TitleRight),
            None => forall|j: int| 0 <= j < garnishes@.len() ==> !(garnishes@[j] is TitleRight),
        },
{
    let mut i: usize = 0;
    while i < garnishes.len()
        invariant
            i <= garnishes.len(),
            forall|j: int| 0 <= j < i ==> !(garnishes@[j] is TitleRight),
        decreases garnishes.len() - i,
    {
        match &garnishes[i] {
            Garnish::TitleRight(inner) => {
                return Some(inner);
            },
            _ => {},
        }
        i = i + 1;
    }
    None
}

/// The first `Title<Top>` of a list, if it holds one.
pub fn first_title_top(garnishes: &[Garnish]) -> (r: Option<&Title<Top>>)
    ensures
        match r {
            Some(inner) => exists|i: int|
                0 <= i < garnishes@.len() && garnishes@[i] == Garnish::TitleTop(*inner) && forall|j: int|
                    0 <= j < i ==> !(garnishes@[j] is TitleTop),
            None => forall|j: int| 0 <= j < garnishes@.len() ==> !(garnishes@[j] is TitleTop),
        },
{
    let mut i: usize = 0;
    while i < garnishes.len()
        invariant
            i <= garnishes.len(),
            forall|j: int| 0 <= j < i ==> !(garnishes@[j] is TitleTop),
        decreases garnishes.len() - i,
    {
        match &garnishes[i] {
            Garnish::TitleTop(inner) => {
                return Some(inner);
            },
            _ => {},
        }
        i = i + 1;
    }
    None
}

} // verus!
