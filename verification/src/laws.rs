//! What holds of every garnish and of every list of garnishes.

use vstd::prelude::*;
use crate::area::Rect;
use crate::border::{border_painted, BorderSet, Borders};
use crate::canvas::Canvas;
use crate::decorator::DecoratedWidget;
use crate::garnish::Garnish;
use crate::garnished::{
    after_from, area_from, before_from, inner_area, painted_over, painted_under, GarnishedWidget,
};
use crate::modifier::RenderModifier;
use crate::shadow::{half_cells, magnitude};
use crate::widget::Widget;

verus! {

/// The number of columns that a border with these sides takes.
pub open spec fn side_columns(borders: Borders) -> int {
    (if borders.has_left() {
        1int
    } else {
        0int
    }) + (if borders.has_right() {
        1int
    } else {
        0int
    })
}

/// The number of rows that a border with these sides takes.
pub open spec fn side_rows(borders: Borders) -> int {
    (if borders.has_top() {
        1int
    } else {
        0int
    }) + (if borders.has_bottom() {
        1int
    } else {
        0int
    })
}

/// The number of columns that a garnish takes from the widget.
pub open spec fn columns_taken(garnish: Garnish) -> int {
    match garnish {
        Garnish::CharBorder(b) => side_columns(b.borders),
        Garnish::CustomBorder(b) => side_columns(b.borders),
        Garnish::DashedBorder(b) => side_columns(b.0),
        Garnish::DoubleBorder(b) => side_columns(b.0),
        Garnish::FatInsideBorder(b) => side_columns(b.0),
        Garnish::FatOutsideBorder(b) => side_columns(b.0),
        Garnish::PlainBorder(b) => side_columns(b.0),
        Garnish::QuadrantInsideBorder(b) => side_columns(b.0),
        Garnish::QuadrantOutsideBorder(b) => side_columns(b.0),
        Garnish::RoundedBorder(b) => side_columns(b.0),
        Garnish::RoundedDashedBorder(b) => side_columns(b.0),
        Garnish::ThickBorder(b) => side_columns(b.0),
        Garnish::ThickDashedBorder(b) => side_columns(b.0),
        Garnish::HalfShadow(s) => half_cells(s.x_offset),
        Garnish::Padding(p) => p.left + p.right,
        Garnish::Shadow(s) => magnitude(s.x_offset),
        Garnish::Style(_) => 0,
        Garnish::TitleAbove(_) => 0,
        Garnish::TitleAfter(_) => 1,
        Garnish::TitleBefore(_) => 1,
        Garnish::TitleBelow(_) => 0,
        Garnish::TitleBottom(_) => 0,
        Garnish::TitleLeft(_) => 0,
        Garnish::TitleRight(_) => 0,
        Garnish::TitleTop(_) => 0,
    }
}

/// The number of rows that a garnish takes from the widget.
pub open spec fn rows_taken(garnish: Garnish) -> int {
    match garnish {
        Garnish::CharBorder(b) => side_rows(b.borders),
        Garnish::CustomBorder(b) => side_rows(b.borders),
        Garnish::DashedBorder(b) => side_rows(b.0),
        Garnish::DoubleBorder(b) => side_rows(b.0),
        Garnish::FatInsideBorder(b) => side_rows(b.0),
        Garnish::FatOutsideBorder(b) => side_rows(b.0),
        Garnish::PlainBorder(b) => side_rows(b.0),
        Garnish::QuadrantInsideBorder(b) => side_rows(b.0),
        Garnish::QuadrantOutsideBorder(b) => side_rows(b.0),
        Garnish::RoundedBorder(b) => side_rows(b.0),
        Garnish::RoundedDashedBorder(b) => side_rows(b.0),
        Garnish::ThickBorder(b) => side_rows(b.0),
        Garnish::ThickDashedBorder(b) => side_rows(b.0),
        Garnish::HalfShadow(s) => half_cells(s.y_offset),
        Garnish::Padding(p) => p.top + p.bottom,
        Garnish::Shadow(s) => magnitude(s.y_offset),
        Garnish::Style(_) => 0,
        Garnish::TitleAbove(_) => 1,
        Garnish::TitleAfter(_) => 0,
        Garnish::TitleBefore(_) => 0,
        Garnish::TitleBelow(_) => 1,
        Garnish::TitleBottom(_) => 0,
        Garnish::TitleLeft(_) => 0,
        Garnish::TitleRight(_) => 0,
        Garnish::TitleTop(_) => 0,
    }
}

/// The columns that the garnishes from number `i` on take together.
pub open spec fn columns_from(garnishes: Seq<Garnish>, i: int) -> int
    decreases garnishes.len() - i,
{
    if i < 0 || i >= garnishes.len() {
        0
    } else {
        columns_taken(garnishes[i]) + columns_from(garnishes, i + 1)
    }
}

/// The rows that the garnishes from number `i` on take together.
pub open spec fn rows_from(garnishes: Seq<Garnish>, i: int) -> int
    decreases garnishes.len() - i,
{
    if i < 0 || i >= garnishes.len() {
        0
    } else {
        rows_taken(garnishes[i]) + rows_from(garnishes, i + 1)
    }
}

/// Whether `inner` is `area` made smaller by `columns` columns and `rows`
/// rows: empty exactly where `area` has no more than that, and otherwise
/// of exactly the width and height that are left.
pub open spec fn shrunk_by(inner: Rect, area: Rect, columns: int, rows: int) -> bool {
    &&& inner.spec_is_empty() <==> (area.width <= columns || area.height <= rows)
    &&& !inner.spec_is_empty() ==> inner.width == area.width - columns && inner.height
        == area.height - rows
}

/// A garnish makes the area smaller by the columns and rows that it
/// takes, and never by more than there is. Where it takes as many columns as the area is wide,
/// or as many rows as it is high, or more, the widget is left an empty
/// area; otherwise the widget is left exactly the rest.
pub proof fn lemma_garnish_shrinks(garnish: Garnish, area: Rect)
    ensures
        shrunk_by(garnish.area_after(area), area, columns_taken(garnish), rows_taken(garnish)),
{
}

/// On an empty area a garnish leaves an empty area to the widget and
/// paints nothing, under the widget or over it.
pub proof fn lemma_garnish_idle_on_empty(garnish: Garnish, area: Rect, canvas: Canvas)
    requires
        area.spec_is_empty(),
    ensures
        garnish.area_after(area).spec_is_empty(),
        garnish.painted_before(area, canvas) == canvas,
        garnish.painted_after(area, canvas) == canvas,
{
    garnish.area_shrinks(area);
    garnish.paints_in_place(area, canvas);
}

/// The same for a whole list: on an empty area the widget is left an empty
/// area, and neither pass paints anything.
pub proof fn lemma_list_idle_on_empty(garnishes: Seq<Garnish>, i: int, area: Rect, canvas: Canvas)
    requires
        area.spec_is_empty(),
    ensures
        area_from(garnishes, i, area).spec_is_empty(),
        before_from(garnishes, i, area, canvas) == canvas,
        after_from(garnishes, i, area, canvas) == canvas,
    decreases garnishes.len() - i,
{
    if 0 <= i < garnishes.len() {
        lemma_garnish_idle_on_empty(garnishes[i], area, canvas);
        lemma_list_idle_on_empty(garnishes, i + 1, garnishes[i].area_after(area), canvas);
    }
}

/// A list of garnishes never hands the widget a cell that lies outside the
/// area that the list was given.
pub proof fn lemma_list_stays_within(garnishes: Seq<Garnish>, i: int, area: Rect)
    ensures
        area_from(garnishes, i, area).within(area),
    decreases garnishes.len() - i,
{
    if 0 <= i < garnishes.len() {
        garnishes[i].area_shrinks(area);
        lemma_list_stays_within(garnishes, i + 1, garnishes[i].area_after(area));
    }
}

/// The area that the first pass leaves to the widget is the area that was
/// given, smaller by the sum of what the garnishes take.
pub proof fn lemma_list_shrinks_by_sum(garnishes: Seq<Garnish>, i: int, area: Rect)
    ensures
        columns_from(garnishes, i) >= 0,
        rows_from(garnishes, i) >= 0,
        shrunk_by(
            area_from(garnishes, i, area),
            area,
            columns_from(garnishes, i),
            rows_from(garnishes, i),
        ),
    decreases garnishes.len() - i,
{
    if 0 <= i < garnishes.len() {
        lemma_garnish_shrinks(garnishes[i], area);
        lemma_list_shrinks_by_sum(garnishes, i + 1, garnishes[i].area_after(area));
    }
}

/// The list with the garnishes number `k` and `k + 1` in each other's
/// place.
pub open spec fn swapped(garnishes: Seq<Garnish>, k: int) -> Seq<Garnish> {
    garnishes.update(k, garnishes[k + 1]).update(k + 1, garnishes[k])
}

/// Two neighbours that change places take together what they took before.
pub proof fn lemma_swap_keeps_sums(garnishes: Seq<Garnish>, k: int, i: int)
    requires
        0 <= k,
        k + 1 < garnishes.len(),
        0 <= i <= garnishes.len(),
        i != k + 1,
    ensures
        columns_from(swapped(garnishes, k), i) == columns_from(garnishes, i),
        rows_from(swapped(garnishes, k), i) == rows_from(garnishes, i),
    decreases garnishes.len() - i,
{
    let other = swapped(garnishes, k);
    if i == k {
        reveal_with_fuel(columns_from, 3);
        reveal_with_fuel(rows_from, 3);
        if k + 2 < garnishes.len() {
            lemma_swap_keeps_sums(garnishes, k, k + 2);
        }
    } else if i < garnishes.len() {
        lemma_swap_keeps_sums(garnishes, k, i + 1);
    }
}

/// When two neighbours in the list change places, the widget is left an area of
/// the same width and height as before, or an empty area as before. (Where the
/// area lies, and which area each of the two is given to paint on, does change:
/// see [`lemma_list_pair_order`].) Any other order is reached by such steps.
pub proof fn lemma_swap_keeps_size(garnishes: Seq<Garnish>, k: int, area: Rect)
    requires
        0 <= k,
        k + 1 < garnishes.len(),
    ensures
        inner_area(swapped(garnishes, k), area).spec_is_empty() <==> inner_area(
            garnishes,
            area,
        ).spec_is_empty(),
        !inner_area(garnishes, area).spec_is_empty() ==> inner_area(swapped(garnishes, k), area).width
            == inner_area(garnishes, area).width && inner_area(swapped(garnishes, k), area).height
            == inner_area(garnishes, area).height,
{
    lemma_swap_keeps_sums(garnishes, k, 0);
    lemma_list_shrinks_by_sum(garnishes, 0, area);
    lemma_list_shrinks_by_sum(swapped(garnishes, k), 0, area);
}

/// Order within a list of two: in both passes the first garnish is given
/// the whole area and the second the area that the first has left, and the
/// first paints before the second. The widget is drawn between the passes
/// into what both have left.
pub proof fn lemma_list_pair_order(a: Garnish, b: Garnish, area: Rect, canvas: Canvas)
    ensures
        inner_area(seq![a, b], area) == b.area_after(a.area_after(area)),
        painted_under(seq![a, b], area, canvas) == b.painted_before(
            a.area_after(area),
            a.painted_before(area, canvas),
        ),
        painted_over(seq![a, b], area, canvas) == b.painted_after(
            a.area_after(area),
            a.painted_after(area, canvas),
        ),
{
    reveal_with_fuel(area_from, 3);
    reveal_with_fuel(before_from, 3);
    reveal_with_fuel(after_from, 3);
}

/// Let `a` be given the whole area and `b` what `a` has left. Both forms paint
/// under the widget in the same order, `a` then `b`, and draw the widget into
/// the same area. Over the widget the list form paints `a` then `b`, and the
/// nesting form, with `a` as the outer layer, paints `b` then `a`.
pub proof fn lemma_pair_phase_order<W: Widget>(
    list: GarnishedWidget<W>,
    nested: DecoratedWidget<DecoratedWidget<W, Garnish>, Garnish>,
    a: Garnish,
    b: Garnish,
    area: Rect,
    canvas: Canvas,
)
    requires
        list.garnishes@ == seq![a, b],
        nested.garnish == a,
        nested.widget.garnish == b,
        nested.widget.widget == list.widget,
    ensures
        ({
            let left = a.area_after(area);
            let under = b.painted_before(left, a.painted_before(area, canvas));
            let drawn = list.widget.rendered(b.area_after(left), under);
            &&& list.rendered(area, canvas) == b.painted_after(left, a.painted_after(area, drawn))
            &&& nested.rendered(area, canvas) == a.painted_after(area, b.painted_after(left, drawn))
        }),
{
    reveal_with_fuel(area_from, 3);
    reveal_with_fuel(before_from, 3);
    reveal_with_fuel(after_from, 3);
}

/// A widget with a list of one garnish and the same widget with that
/// garnish as its one layer paint the same canvas, whatever the area.
pub proof fn lemma_single_equivalence<W: Widget>(
    list: GarnishedWidget<W>,
    layer: DecoratedWidget<W, Garnish>,
    area: Rect,
    canvas: Canvas,
)
    requires
        list.garnishes@ == seq![layer.garnish],
        list.widget == layer.widget,
    ensures
        list.rendered(area, canvas) == layer.rendered(area, canvas),
{
    reveal_with_fuel(area_from, 2);
    reveal_with_fuel(before_from, 2);
    reveal_with_fuel(after_from, 2);
}

/// What a border with all four sides shows: the corner characters at the
/// four corners of the area, the side characters along the edges between
/// them, and every other cell as it was. This is stated for an area that is
/// not empty and whose far edges are coordinates.
pub proof fn lemma_full_frame(set: BorderSet, area: Rect, canvas: Canvas, x: int, y: int)
    requires
        !area.spec_is_empty(),
        area.x + area.width <= u16::MAX,
        area.y + area.height <= u16::MAX,
        canvas.cells.contains_key((x, y)),
    ensures
        ({
            let left = area.x as int;
            let top = area.y as int;
            let right = area.x + area.width - 1;
            let bottom = area.y + area.height - 1;
            let was = canvas.cells[(x, y)];
            let now = border_painted(Borders::spec_all(), set, area, canvas).cells[(x, y)];
            now == (if !area.covers(x, y) {
                was
            } else if x == left && y == top {
                was.with_char(set.top_left)
            } else if x == left && y == bottom {
                was.with_char(set.bottom_left)
            } else if x == right && y == top {
                was.with_char(set.top_right)
            } else if x == right && y == bottom {
                was.with_char(set.bottom_right)
            } else if y == bottom {
                was.with_char(set.bottom)
            } else if x == right {
                was.with_char(set.right)
            } else if y == top {
                was.with_char(set.top)
            } else if x == left {
                was.with_char(set.left)
            } else {
                was
            })
        }),
{
    let all = Borders::spec_all();
    assert(all.has_left() && all.has_top() && all.has_right() && all.has_bottom()) by {
        assert(15u8 & 1u8 == 1u8) by (bit_vector);
        assert(15u8 & 2u8 == 2u8) by (bit_vector);
        assert(15u8 & 4u8 == 4u8) by (bit_vector);
        assert(15u8 & 8u8 == 8u8) by (bit_vector);
    }
}

} // verus!
