use garnish::border::{Borders, CharBorder, PlainBorder, RoundedBorder};
use garnish::canvas::Canvas;
use garnish::garnish::titles_fit;
use garnish::garnished::{copy_garnishes, render_after, render_before};
use garnish::shadow::{HalfShadow, Shadow};
use garnish::title::{Above, After, Before, Below, Bottom, Left, Right, Title, Top};
use garnish::{
    DecoratedStatefulWidget, DecoratedWidget, Garnish, GarnishableStatefulWidget,
    GarnishableStatefulWidgetRef, GarnishableWidget, GarnishableWidgetRef, GarnishedStatefulWidget,
    GarnishedWidget, Padding, Rect, RenderModifier, StatefulWidget, StatefulWidgetRef, Style,
    Widget, WidgetRef,
};
use ratatui::buffer::Buffer;
use ratatui::style::Color;
use ratatui::text::Line;

fn host(area: Rect) -> ratatui::layout::Rect {
    ratatui::layout::Rect { x: area.x, y: area.y, width: area.width, height: area.height }
}

fn blank(width: u16, height: u16) -> Buffer {
    Buffer::empty(ratatui::layout::Rect::new(0, 0, width, height))
}

fn rows(buffer: &Buffer) -> Vec<String> {
    let area = buffer.area;
    (area.y..area.y + area.height)
        .map(|y| (area.x..area.x + area.width).map(|x| buffer[(x, y)].symbol().to_string()).collect())
        .collect()
}

/// A widget of the host toolkit, drawn through the library's `Widget`.
struct Hosted<W>(W);

impl<W: ratatui::widgets::Widget> Widget for Hosted<W> {
    // The model of the drawing: never run.
    fn rendered(self, _area: Rect, _canvas: Canvas) -> Canvas {
        unreachable!()
    }

    fn render(self, area: Rect, buf: &mut Buffer) {
        ratatui::widgets::Widget::render(self.0, host(area), buf);
    }
}

/// A widget that fills its area with one character.
#[derive(Clone)]
struct Fill(char);

impl Fill {
    fn paint(&self, area: Rect, buf: &mut Buffer) {
        let area = host(area).intersection(buf.area);
        for y in area.top()..area.bottom() {
            for x in area.left()..area.right() {
                buf[(x, y)].set_char(self.0);
            }
        }
    }
}

impl Widget for Fill {
    fn rendered(self, _area: Rect, _canvas: Canvas) -> Canvas {
        unreachable!()
    }

    fn render(self, area: Rect, buf: &mut Buffer) {
        self.paint(area, buf);
    }
}

impl WidgetRef for Fill {
    fn rendered_ref(&self, _area: Rect, _canvas: Canvas) -> Canvas {
        unreachable!()
    }

    fn render_ref(&self, area: Rect, buf: &mut Buffer) {
        self.paint(area, buf);
    }
}

/// A widget that fills its area and notes the area in its state.
#[derive(Clone)]
struct Noting(char);

impl StatefulWidget for Noting {
    type State = Vec<Rect>;

    fn rendered(self, _area: Rect, _canvas: Canvas, _state: Vec<Rect>) -> (Canvas, Vec<Rect>) {
        unreachable!()
    }

    fn render(self, area: Rect, buf: &mut Buffer, state: &mut Vec<Rect>) {
        Fill(self.0).paint(area, buf);
        state.push(area);
    }
}

impl StatefulWidgetRef for Noting {
    type State = Vec<Rect>;

    fn rendered_ref(&self, _area: Rect, _canvas: Canvas, _state: Vec<Rect>) -> (Canvas, Vec<Rect>) {
        unreachable!()
    }

    fn render_ref(&self, area: Rect, buf: &mut Buffer, state: &mut Vec<Rect>) {
        Fill(self.0).paint(area, buf);
        state.push(area);
    }
}

/// A garnish of a test's own: it takes one column on the left, and adds
/// its letter to the text of the first cell of its area, in lower case
/// before the widget and in upper case after it.
struct Mark(char);

impl Mark {
    fn add(&self, letter: char, area: Rect, buf: &mut Buffer) {
        if let Some(cell) = buf.cell_mut((area.x, area.y)) {
            let text = format!("{}{}", cell.symbol().trim(), letter);
            cell.set_symbol(&text);
        }
    }
}

impl RenderModifier for Mark {
    fn area_after(&self, _area: Rect) -> Rect {
        unreachable!()
    }

    fn painted_before(&self, _area: Rect, _canvas: Canvas) -> Canvas {
        unreachable!()
    }

    fn painted_after(&self, _area: Rect, _canvas: Canvas) -> Canvas {
        unreachable!()
    }

    fn area_shrinks(&self, _area: Rect) {}

    fn paints_in_place(&self, _area: Rect, _canvas: Canvas) {}

    fn modify_area(&self, area: Rect) -> Rect {
        Rect { x: area.x.saturating_add(1), width: area.width.saturating_sub(1), ..area }
    }

    fn before_render(&self, area: Rect, buf: &mut Buffer) {
        self.add(self.0.to_ascii_lowercase(), area, buf);
    }

    fn after_render(&self, area: Rect, buf: &mut Buffer) {
        self.add(self.0.to_ascii_uppercase(), area, buf);
    }
}

#[test]
fn garnish_chain() {
    let widget = Hosted(Line::raw("Test"))
        .garnish(Style::default().bg(Color::Blue))
        .garnish(Padding::uniform(1));

    assert_eq!(widget.len(), 2);
    assert!(widget.get(0).unwrap().is_style());
    assert_eq!(widget.first_padding(), Some(&Padding::uniform(1)));
}

#[test]
fn widget_rendering() {
    let mut buffer = Buffer::empty(ratatui::layout::Rect::new(0, 0, 10, 10));
    let widget = Hosted(Line::raw("Test"))
        .garnish(Padding::uniform(1))
        .garnish(Style::default().bg(Color::Blue));

    widget.render(Rect::new(0, 0, 10, 10), &mut buffer);

    // Check padding reduced the area
    assert_eq!(buffer[(1, 1)].style().bg, Some(Color::Blue)); // Inside padded area
    assert_eq!(buffer[(0, 0)].style().bg, Some(Color::Reset)); // Outside padded area
}

#[test]
fn frame_and_background_on_a_blank_buffer() {
    let mut buffer = blank(10, 10);
    let widget = Fill(' ')
        .garnish(PlainBorder::default())
        .garnish(Style::default().bg(Color::Blue));

    widget.render(Rect::new(0, 0, 10, 10), &mut buffer);

    assert_eq!(buffer[(0, 0)].symbol(), "┌");
    assert_eq!(buffer[(9, 0)].symbol(), "┐");
    assert_eq!(buffer[(0, 9)].symbol(), "└");
    assert_eq!(buffer[(9, 9)].symbol(), "┘");
    for i in 1..9u16 {
        assert_eq!(buffer[(i, 0)].symbol(), "─");
        assert_eq!(buffer[(i, 9)].symbol(), "─");
        assert_eq!(buffer[(0, i)].symbol(), "│");
        assert_eq!(buffer[(9, i)].symbol(), "│");
    }
    for y in 0..10u16 {
        for x in 0..10u16 {
            let inside = (1..9).contains(&x) && (1..9).contains(&y);
            assert_eq!(buffer[(x, y)].bg, if inside { Color::Blue } else { Color::Reset });
            if inside {
                assert_eq!(buffer[(x, y)].symbol(), " ");
            }
        }
    }
}

#[test]
fn list_without_garnishes_draws_the_widget_as_it_is() {
    let mut plain = blank(4, 3);
    Fill('x').render(Rect::new(1, 0, 2, 2), &mut plain);

    let mut wrapped = blank(4, 3);
    let widget = GarnishedWidget::from(Fill('x'));
    assert!(widget.is_empty());
    assert_eq!(widget.len(), 0);
    assert!(widget.get(0).is_none());
    widget.render(Rect::new(1, 0, 2, 2), &mut wrapped);
    assert_eq!(wrapped, plain);
    assert_eq!(rows(&wrapped), vec![" xx ", " xx ", "    "]);
}

#[test]
fn widget_gets_the_area_less_the_sum_of_what_is_taken() {
    let garnishes: Vec<Garnish> = vec![
        Padding::new(1, 2, 0, 1).into(),
        PlainBorder::default().into(),
        Title::<Above>::raw("t").into(),
        Shadow::new(2, 1).into(),
        Title::<After>::raw("t").into(),
        Style::new().into(),
        HalfShadow::new(-3, 0).into(),
    ];
    // columns: 3 + 2 + 0 + 2 + 1 + 0 + 2 = 10; rows: 1 + 2 + 1 + 1 + 0 + 0 + 0 = 5
    let mut buffer = blank(30, 20);
    let inner = render_before(&garnishes, Rect::new(0, 0, 30, 20), &mut buffer);
    assert_eq!(inner, Rect::new(4, 2, 20, 15));

    let mut state = Vec::new();
    let mut buffer = blank(30, 20);
    Noting('w').garnishes_from_slice(&garnishes).render(Rect::new(0, 0, 30, 20), &mut buffer, &mut state);
    assert_eq!(state, vec![Rect::new(4, 2, 20, 15)]);

    let mut reversed = copy_garnishes(&garnishes);
    reversed.reverse();
    let mut buffer = blank(30, 20);
    let inner = render_before(&reversed, Rect::new(0, 0, 30, 20), &mut buffer);
    assert_eq!((inner.width, inner.height), (20, 15));

    let mut buffer = blank(30, 20);
    let small = render_before(&garnishes, Rect::new(0, 0, 10, 20), &mut buffer);
    assert!(small.is_empty());
    let mut buffer = blank(30, 20);
    let small = render_before(&garnishes, Rect::new(0, 0, 11, 6), &mut buffer);
    assert_eq!((small.width, small.height), (1, 1));
}

#[test]
fn order_in_the_list_decides_who_sees_which_area() {
    let frame: Garnish = CharBorder::new('#').into();
    let pad: Garnish = Padding::uniform(1).into();

    let mut buffer = blank(6, 6);
    let inner = render_before(&[frame.clone(), pad.clone()], Rect::new(0, 0, 6, 6), &mut buffer);
    assert_eq!(inner, Rect::new(2, 2, 2, 2));
    assert_eq!(rows(&buffer), vec!["######", "#    #", "#    #", "#    #", "#    #", "######"]);

    let mut buffer = blank(6, 6);
    let inner = render_before(&[pad, frame], Rect::new(0, 0, 6, 6), &mut buffer);
    assert_eq!(inner, Rect::new(2, 2, 2, 2));
    assert_eq!(rows(&buffer), vec!["      ", " #### ", " #  # ", " #  # ", " #### ", "      "]);
}

#[test]
fn list_paints_over_the_widget_in_the_order_of_the_list() {
    let a = Title::<Top>::raw("AAAA");
    let b = Title::<Top>::raw("BB");
    let mut buffer = blank(6, 2);
    Fill('.').garnish(a.clone()).garnish(b.clone()).render(Rect::new(0, 0, 6, 2), &mut buffer);
    assert_eq!(rows(&buffer), vec!["BBAA..", "......"]);

    let mut buffer = blank(6, 2);
    Fill('.').garnish(b).garnish(a).render(Rect::new(0, 0, 6, 2), &mut buffer);
    assert_eq!(rows(&buffer), vec!["AAAA..", "......"]);
}

#[test]
fn nesting_paints_over_the_widget_from_the_inside_out() {
    // `a` is the outer layer: it is given the whole area, as the first of a list is.
    let mut buffer = blank(6, 2);
    Fill('.')
        .decorate(Title::<Top>::raw("BB"))
        .decorate(Title::<Top>::raw("AAAA"))
        .render(Rect::new(0, 0, 6, 2), &mut buffer);
    assert_eq!(rows(&buffer), vec!["AAAA..", "......"]);

    let mut buffer = blank(6, 2);
    Fill('.')
        .decorate(Title::<Top>::raw("AAAA"))
        .decorate(Title::<Top>::raw("BB"))
        .render(Rect::new(0, 0, 6, 2), &mut buffer);
    assert_eq!(rows(&buffer), vec!["BBAA..", "......"]);
}

#[test]
fn both_phases_of_a_marked_pair() {
    // Nested, `A` outside: a, then b one column in, the widget, B, and A last.
    let mut buffer = blank(4, 1);
    Fill('.').decorate(Mark('b')).decorate(Mark('a')).render(Rect::new(0, 0, 4, 1), &mut buffer);
    assert_eq!(buffer[(0, 0)].symbol(), "aA");
    assert_eq!(buffer[(1, 0)].symbol(), "bB");
    assert_eq!(buffer[(2, 0)].symbol(), ".");

    // With both marks on one cell the order of the calls shows.
    struct Same(char);
    impl RenderModifier for Same {
        fn area_after(&self, _area: Rect) -> Rect {
            unreachable!()
        }
        fn painted_before(&self, _area: Rect, _canvas: Canvas) -> Canvas {
            unreachable!()
        }
        fn painted_after(&self, _area: Rect, _canvas: Canvas) -> Canvas {
            unreachable!()
        }
        fn area_shrinks(&self, _area: Rect) {}
        fn paints_in_place(&self, _area: Rect, _canvas: Canvas) {}
        fn modify_area(&self, area: Rect) -> Rect {
            area
        }
        fn before_render(&self, area: Rect, buf: &mut Buffer) {
            Mark(self.0).before_render(area, buf);
        }
        fn after_render(&self, area: Rect, buf: &mut Buffer) {
            Mark(self.0).after_render(area, buf);
        }
    }
    struct Nothing;
    impl Widget for Nothing {
        fn rendered(self, _area: Rect, _canvas: Canvas) -> Canvas {
            unreachable!()
        }
        fn render(self, _area: Rect, _buf: &mut Buffer) {}
    }
    let mut buffer = blank(4, 1);
    Nothing.decorate(Same('b')).decorate(Same('a')).render(Rect::new(0, 0, 4, 1), &mut buffer);
    assert_eq!(buffer[(0, 0)].symbol(), "abBA");
    let mut buffer = blank(4, 1);
    DecoratedWidget::new(Nothing, Same('a')).decorate(Same('b')).render(Rect::new(0, 0, 4, 1), &mut buffer);
    assert_eq!(buffer[(0, 0)].symbol(), "baAB");
}

#[test]
fn one_garnish_paints_the_same_in_both_forms() {
    let kinds: Vec<Garnish> = vec![
        PlainBorder::default().into(),
        RoundedBorder::new(Borders::top() | Borders::right()).into(),
        CharBorder::new('*').into(),
        Padding::new(1, 0, 2, 1).into(),
        Style::new().bg(Color::Red).into(),
        Shadow::new(2, 1).into(),
        Shadow::new(-1, -2).light().into(),
        HalfShadow::new(3, -1).into(),
        Title::<Top>::raw("top").centered().into(),
        Title::<Bottom>::raw("bottom").margin(1).into(),
        Title::<Above>::styled("above", Style::new().bg(Color::Green)).into(),
        Title::<Below>::raw("below").right_aligned().into(),
        Title::<Left>::raw("left").centered().into(),
        Title::<Right>::raw("right").into(),
        Title::<Before>::styled("before", Style::new().fg(Color::Cyan)).into(),
        Title::<After>::raw("after").margin(2).into(),
    ];
    for area in [Rect::new(0, 0, 12, 8), Rect::new(2, 1, 7, 5), Rect::new(3, 3, 1, 1), Rect::new(0, 0, 0, 0), Rect::new(9, 5, 8, 8)] {
        for kind in &kinds {
            let mut listed = blank(12, 8);
            Fill('w').garnish(kind.clone()).render(area, &mut listed);
            let mut nested = blank(12, 8);
            Fill('w').decorate(kind.clone()).render(area, &mut nested);
            assert_eq!(listed, nested);
        }
    }
}

#[test]
fn every_garnish_is_idle_on_an_empty_area() {
    let kinds: Vec<Garnish> = vec![
        PlainBorder::default().into(),
        garnish::border::DashedBorder::default().into(),
        garnish::border::DoubleBorder::default().into(),
        garnish::border::FatInsideBorder::default().into(),
        garnish::border::FatOutsideBorder::default().into(),
        garnish::border::QuadrantInsideBorder::default().into(),
        garnish::border::QuadrantOutsideBorder::default().into(),
        RoundedBorder::default().into(),
        garnish::border::RoundedDashedBorder::default().into(),
        garnish::border::ThickBorder::default().into(),
        garnish::border::ThickDashedBorder::default().into(),
        CharBorder::new('*').into(),
        garnish::border::CustomBorder::default().into(),
        Padding::uniform(1).into(),
        Style::new().bg(Color::Red).into(),
        Shadow::default().into(),
        HalfShadow::default().into(),
        HalfShadow::new(-1, -1).into(),
        Title::<Top>::raw("t").into(),
        Title::<Bottom>::raw("t").into(),
        Title::<Above>::raw("t").into(),
        Title::<Below>::raw("t").into(),
        Title::<Left>::raw("t").into(),
        Title::<Right>::raw("t").into(),
        Title::<Before>::raw("t").into(),
        Title::<After>::raw("t").into(),
    ];
    assert_eq!(kinds.len(), 26);
    for area in [Rect::new(0, 0, 0, 0), Rect::new(2, 2, 0, 3), Rect::new(2, 2, 3, 0), Rect::zero()] {
        for kind in &kinds {
            let mut buffer = blank(6, 6);
            kind.before_render(area, &mut buffer);
            kind.after_render(area, &mut buffer);
            assert_eq!(buffer, blank(6, 6));
            assert!(kind.modify_area(area).is_empty());
        }
        let mut buffer = blank(6, 6);
        let inner = render_before(&kinds, area, &mut buffer);
        render_after(&kinds, area, &mut buffer);
        assert!(inner.is_empty());
        assert_eq!(buffer, blank(6, 6));
    }
}

#[test]
fn the_list_grows_at_its_end() {
    let mut widget = GarnishedWidget::new(Fill('x'), Shadow::default());
    widget.push(Padding::uniform(1));
    widget.extend(vec![Garnish::from(Style::new()), Garnish::from(PlainBorder::default())]);
    let more: Vec<Garnish> = vec![Title::<Top>::raw("t").into(), HalfShadow::default().into()];
    widget.extend_from_slice(&more);
    let widget = widget.garnish(Padding::uniform(2));

    assert_eq!(widget.len(), 7);
    assert!(!widget.is_empty());
    assert!(widget.get(0).unwrap().is_shadow());
    assert!(widget.get(1).unwrap().is_padding());
    assert!(widget.get(2).unwrap().is_style());
    assert!(widget.get(3).unwrap().is_plain_border());
    assert!(widget.get(4).unwrap().is_title_top());
    assert!(widget.get(5).unwrap().is_half_shadow());
    assert!(widget.get(6).unwrap().is_padding());
    assert!(widget.get(7).is_none());
    assert!(!widget.get(0).unwrap().is_padding());
    assert_eq!(widget.as_slice().len(), 7);
    assert_eq!(widget.first_padding(), Some(&Padding::uniform(1)));
    assert_eq!(widget.first_shadow(), Some(&Shadow::default()));
    assert_eq!(widget.first_plain_border(), Some(&PlainBorder::default()));
    assert!(widget.first_title_top().is_some());
    assert!(widget.first_title_bottom().is_none());
    assert!(widget.first_double_border().is_none());
    assert_eq!(widget.get(6).unwrap().try_as_padding_ref(), Some(&Padding::uniform(2)));
    assert_eq!(widget.get(6).unwrap().try_as_style_ref(), None);
    assert_eq!(garnish::garnish::first_padding(widget.as_slice()), Some(&Padding::uniform(1)));
}

#[test]
fn a_list_can_garnish_several_widgets() {
    let garnishes: Vec<Garnish> = vec![Title::<Top>::raw("hi").margin(1).into(), CharBorder::new('+').into()];
    let first = Fill('1').garnishes_from_slice(&garnishes);
    let second = Fill('2').garnishes(copy_garnishes(first.as_slice()));
    assert_eq!(second.len(), 2);

    let mut buffer = blank(5, 3);
    first.render(Rect::new(0, 0, 5, 3), &mut buffer);
    assert_eq!(rows(&buffer), vec!["+hi++", "+111+", "+++++"]);
    let mut buffer = blank(5, 3);
    second.render(Rect::new(0, 0, 5, 3), &mut buffer);
    assert_eq!(rows(&buffer), vec!["+hi++", "+222+", "+++++"]);
}

#[test]
fn drawing_by_reference_can_be_repeated() {
    let widget = Fill('r').garnish_ref(CharBorder::new('o'));
    let mut first = blank(4, 3);
    widget.render_ref(Rect::new(0, 0, 4, 3), &mut first);
    let mut second = blank(4, 3);
    widget.render_ref(Rect::new(0, 0, 4, 3), &mut second);
    assert_eq!(first, second);
    assert_eq!(rows(&first), vec!["oooo", "orro", "oooo"]);

    let layer = DecoratedWidget { widget: Fill('r'), garnish: CharBorder::new('o') };
    let mut third = blank(4, 3);
    layer.render_ref(Rect::new(0, 0, 4, 3), &mut third);
    assert_eq!(third, first);
}

#[test]
fn the_state_goes_through_to_the_widget() {
    let area = Rect::new(0, 0, 6, 4);
    let mut expected = blank(6, 4);
    Fill('s').garnish(CharBorder::new('o')).garnish(Padding::left(1)).render(area, &mut expected);

    let mut state = vec![Rect::zero()];
    let mut buffer = blank(6, 4);
    GarnishableStatefulWidget::garnish(Noting('s'), CharBorder::new('o'))
        .garnish(Padding::left(1))
        .render(area, &mut buffer, &mut state);
    assert_eq!(state, vec![Rect::zero(), Rect::new(2, 1, 3, 2)]);
    assert_eq!(buffer, expected);

    let by_ref = Noting('s').garnish_ref(CharBorder::new('o')).garnish(Padding::left(1));
    let mut buffer = blank(6, 4);
    by_ref.render_ref(area, &mut buffer, &mut state);
    by_ref.render_ref(area, &mut buffer, &mut state);
    assert_eq!(state.len(), 4);
    assert_eq!(state[3], Rect::new(2, 1, 3, 2));
    assert_eq!(buffer, expected);

    let mut listed = GarnishedStatefulWidget::from(Noting('s'));
    assert!(listed.is_empty());
    listed.push(CharBorder::new('o'));
    listed.extend_from_slice(&[Garnish::from(Padding::left(1))]);
    listed.extend(Vec::new());
    assert_eq!(listed.len(), 2);
    assert_eq!(listed.first_padding(), Some(&Padding::left(1)));
    assert!(listed.get(1).unwrap().is_padding());
    assert_eq!(listed.as_slice().len(), 2);
    let mut buffer = blank(6, 4);
    listed.render(area, &mut buffer, &mut state);
    assert_eq!(buffer, expected);

    let nested = GarnishableStatefulWidget::decorate(Noting('s'), Padding::left(1)).decorate(CharBorder::new('o'));
    let mut buffer = blank(6, 4);
    nested.render_ref(area, &mut buffer, &mut state);
    assert_eq!(buffer, expected);
    let mut buffer = blank(6, 4);
    nested.render(area, &mut buffer, &mut state);
    assert_eq!(buffer, expected);
    assert_eq!(state.len(), 7);

    let one = DecoratedStatefulWidget::new(Noting('s'), Padding::left(1));
    assert_eq!(one.garnish, Padding::left(1));
}

#[test]
fn copies_of_garnishes_are_equal_in_effect() {
    let garnishes: Vec<Garnish> = vec![
        Title::<Above>::styled("copy", Style::new().bg(Color::Red)).centered().margin(1).into(),
        HalfShadow::new(1, 1).into(),
    ];
    let copy = copy_garnishes(&garnishes);
    assert_eq!(copy.len(), 2);
    let mut first = blank(8, 4);
    let mut second = blank(8, 4);
    assert_eq!(
        render_before(&garnishes, Rect::new(0, 0, 8, 4), &mut first),
        render_before(&copy, Rect::new(0, 0, 8, 4), &mut second)
    );
    assert_eq!(first, second);
    assert_eq!(first[(2, 0)].symbol(), "c");
    assert_eq!(first[(1, 0)].bg, Color::Red);
}

#[test]
fn a_list_fits_when_its_downward_titles_do() {
    let long = "a".repeat(70_000);
    let fine: Vec<Garnish> = vec![
        Title::<Top>::raw(&long).into(),
        Title::<Above>::raw(&long).into(),
        Title::<Bottom>::raw(&long).into(),
        Title::<Below>::raw(&long).into(),
        Title::<Left>::raw("short").into(),
        PlainBorder::default().into(),
    ];
    assert!(titles_fit(&fine));
    assert!(titles_fit(&[]));
    assert!(fine.iter().all(|garnish| garnish.fits()));
    for too_long in [
        Garnish::from(Title::<Left>::raw(&long)),
        Garnish::from(Title::<Right>::raw(&long)),
        Garnish::from(Title::<Before>::raw(&long)),
        Garnish::from(Title::<After>::raw(&long)),
    ] {
        assert!(!too_long.fits());
        let mut list = copy_garnishes(&fine);
        list.push(too_long);
        assert!(!titles_fit(&list));
    }
}
