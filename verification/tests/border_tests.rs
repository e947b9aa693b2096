use garnish::border::{
    Border, BorderSet, Borders, CharBorder, CustomBorder, DashedBorder, DoubleBorder,
    FatInsideBorder, FatOutsideBorder, PlainBorder, QuadrantInsideBorder, QuadrantOutsideBorder,
    RoundedBorder, RoundedDashedBorder, ThickBorder, ThickDashedBorder,
};
use garnish::{Rect, RenderModifier};
use ratatui::buffer::Buffer;

fn create_test_buffer(width: u16, height: u16) -> Buffer {
    Buffer::empty(ratatui::layout::Rect::new(0, 0, width, height))
}

#[test]
fn border_set_new_creates_uniform_set() {
    let border_set = BorderSet::new('*');

    assert_eq!(border_set.top_left, '*');
    assert_eq!(border_set.top_right, '*');
    assert_eq!(border_set.bottom_left, '*');
    assert_eq!(border_set.bottom_right, '*');
    assert_eq!(border_set.left, '*');
    assert_eq!(border_set.right, '*');
    assert_eq!(border_set.top, '*');
    assert_eq!(border_set.bottom, '*');
}

#[test]
fn border_set_modifiers_work_correctly() {
    let border_set = BorderSet::plain()
        .corners('*')
        .verticals('|')
        .horizontals('-');

    assert_eq!(border_set.top_left, '*');
    assert_eq!(border_set.top_right, '*');
    assert_eq!(border_set.bottom_left, '*');
    assert_eq!(border_set.bottom_right, '*');
    assert_eq!(border_set.left, '|');
    assert_eq!(border_set.right, '|');
    assert_eq!(border_set.top, '-');
    assert_eq!(border_set.bottom, '-');
}

#[test]
fn char_border_creates_correct_border() {
    let border = CharBorder::new('*');
    assert_eq!(border.symbol, '*');
    assert_eq!(border.borders, Borders::all());

    let partial_border = CharBorder::new('#').borders(Borders::top() | Borders::bottom());
    assert_eq!(partial_border.symbol, '#');
    assert_eq!(partial_border.borders, Borders::top() | Borders::bottom());
}

#[test]
fn standard_borders_have_correct_defaults() {
    assert_eq!(PlainBorder::default().get_border_set(), BorderSet::plain());
    assert_eq!(PlainBorder::default().get_borders(), Borders::all());
    assert_eq!(
        RoundedBorder::default().get_border_set(),
        BorderSet::rounded()
    );
    assert_eq!(RoundedBorder::default().get_borders(), Borders::all());
    assert_eq!(
        DoubleBorder::default().get_border_set(),
        BorderSet::double()
    );
    assert_eq!(DoubleBorder::default().get_borders(), Borders::all());
    assert_eq!(ThickBorder::default().get_border_set(), BorderSet::thick());
    assert_eq!(ThickBorder::default().get_borders(), Borders::all());
}

#[test]
fn border_deref_provides_border_access() {
    let mut border = PlainBorder::new(Borders::top());
    assert_eq!(border.0, Borders::top());

    border.0.insert(Borders::left());
    assert_eq!(border.get_borders(), Borders::top() | Borders::left());
}

#[test]
fn custom_border_works_with_modified_border_set() {
    let custom_border_set = BorderSet::plain().corners('*').horizontals('=');
    let custom_border =
        CustomBorder::new(custom_border_set).borders(Borders::top() | Borders::left());

    assert_eq!(custom_border.get_borders(), Borders::top() | Borders::left());

    let border_set = custom_border.get_border_set();
    assert_eq!(border_set.top_left, '*');
    assert_eq!(border_set.top, '=');
    assert_eq!(border_set.left, '│'); // Unchanged from plain()
}

#[test]
fn complete_border_renders_correctly() {
    let mut buffer = create_test_buffer(5, 5);
    let area = Rect::new(0, 0, 5, 5);
    let border = PlainBorder::default();

    border.before_render(area, &mut buffer);

    // Verify corners
    assert_eq!(buffer[(0, 0)].symbol(), "┌");
    assert_eq!(buffer[(4, 0)].symbol(), "┐");
    assert_eq!(buffer[(0, 4)].symbol(), "└");
    assert_eq!(buffer[(4, 4)].symbol(), "┘");

    // Verify sides
    assert_eq!(buffer[(0, 1)].symbol(), "│"); // left
    assert_eq!(buffer[(4, 1)].symbol(), "│"); // right
    assert_eq!(buffer[(1, 0)].symbol(), "─"); // top
    assert_eq!(buffer[(1, 4)].symbol(), "─"); // bottom
}

#[test]
fn partial_border_renders_only_specified_sides() {
    let mut buffer = create_test_buffer(5, 5);
    let area = Rect::new(0, 0, 5, 5);
    let border = PlainBorder::new(Borders::top() | Borders::left());

    border.before_render(area, &mut buffer);

    // Should render top-left corner and associated sides
    assert_eq!(buffer[(0, 0)].symbol(), "┌");
    assert_eq!(buffer[(0, 1)].symbol(), "│");

    // Should not render other borders
    assert_eq!(buffer[(0, 4)].symbol(), "│");
    assert_eq!(buffer[(4, 0)].symbol(), "─");
    assert_eq!(buffer[(4, 1)].symbol(), " ");
    assert_eq!(buffer[(1, 4)].symbol(), " ");
}

#[test]
fn area_modification_accounts_for_all_borders() {
    let area = Rect::new(0, 0, 10, 10);
    let border = PlainBorder::default();

    let inner_area = border.modify_area(area);

    assert_eq!(inner_area.x, 1);
    assert_eq!(inner_area.y, 1);
    assert_eq!(inner_area.width, 8);
    assert_eq!(inner_area.height, 8);
}

#[test]
fn area_modification_accounts_for_partial_borders() {
    let area = Rect::new(0, 0, 10, 10);
    let border = PlainBorder::new(Borders::top() | Borders::left());

    let inner_area = border.modify_area(area);

    assert_eq!(inner_area.x, 1); // Left border reduces x
    assert_eq!(inner_area.y, 1); // Top border reduces y
    assert_eq!(inner_area.width, 9); // Only left border reduces width
    assert_eq!(inner_area.height, 9); // Only top border reduces height
}

#[test]
fn edge_case_single_cell_area() {
    let mut buffer = create_test_buffer(1, 1);
    let area = Rect::new(0, 0, 1, 1);
    let border = PlainBorder::default();

    border.before_render(area, &mut buffer);

    // In a 1x1 area, only the top-left corner should be rendered
    // since all borders converge to the same cell
    assert_eq!(buffer[(0, 0)].symbol(), "┌");
}

#[test]
fn zero_area_handling() {
    let area = Rect::new(0, 0, 0, 0);
    let border = PlainBorder::default();

    let inner_area = border.modify_area(area);

    // Should handle zero-sized areas gracefully
    assert_eq!(inner_area.width, 0);
    assert_eq!(inner_area.height, 0);
}

#[test]
fn borders_flags_compose() {
    assert_eq!(Borders::none().bits(), 0);
    assert_eq!(Borders::top().bits(), 0b0001);
    assert_eq!(Borders::right().bits(), 0b0010);
    assert_eq!(Borders::bottom().bits(), 0b0100);
    assert_eq!(Borders::left().bits(), 0b1000);
    assert_eq!(Borders::all().bits(), 0b1111);
    assert_eq!(Borders::default(), Borders::none());
    assert_eq!(Borders::top().union(Borders::left()).bits(), 0b1001);

    let mut borders = Borders::all();
    borders.remove(Borders::right());
    assert_eq!(borders.bits(), 0b1101);
    assert!(borders.contains(Borders::top() | Borders::left()));
    assert!(!borders.contains(Borders::right()));
    assert!(borders.contains(Borders::none()));
}

#[test]
fn every_border_set_has_its_characters() {
    assert_eq!(BorderSet::dashed(), BorderSet::plain().horizontals('╌').verticals('┊'));
    assert_eq!(BorderSet::rounded_dashed(), BorderSet::rounded().horizontals('╌').verticals('┊'));
    assert_eq!(BorderSet::thick_dashed(), BorderSet::rounded().horizontals('╍').verticals('┋'));
    assert_eq!(BorderSet::plain().top_left, '┌');
    assert_eq!(BorderSet::rounded().bottom_right, '╯');
    assert_eq!(BorderSet::double().left, '║');
    assert_eq!(BorderSet::thick().top, '━');
    assert_eq!(BorderSet::quadrant_inside().top_left, '▗');
    assert_eq!(BorderSet::quadrant_inside().bottom, '▀');
    assert_eq!(BorderSet::quadrant_outside().bottom_right, '▟');
    assert_eq!(BorderSet::fat_inside().left, '█');
    assert_eq!(BorderSet::fat_inside().top_right, '▄');
    assert_eq!(BorderSet::fat_outside().top, '▀');
    assert_eq!(BorderSet::fat_outside().bottom, '▄');
    assert_eq!(BorderSet::plain().sides('=').left, '=');
    assert_eq!(BorderSet::plain().sides('=').top_left, '┌');
    assert_eq!(BorderSet::default(), BorderSet::new('\0'));
}

#[test]
fn every_border_kind_draws_with_its_set() {
    assert_eq!(DashedBorder::default().get_border_set(), BorderSet::dashed());
    assert_eq!(RoundedDashedBorder::default().get_border_set(), BorderSet::rounded_dashed());
    assert_eq!(ThickDashedBorder::default().get_border_set(), BorderSet::thick_dashed());
    assert_eq!(QuadrantInsideBorder::default().get_border_set(), BorderSet::quadrant_inside());
    assert_eq!(QuadrantOutsideBorder::default().get_border_set(), BorderSet::quadrant_outside());
    assert_eq!(FatInsideBorder::default().get_border_set(), BorderSet::fat_inside());
    assert_eq!(FatOutsideBorder::default().get_border_set(), BorderSet::fat_outside());
    assert_eq!(CharBorder::default().get_border_set(), BorderSet::new(' '));
    assert_eq!(CustomBorder::default().get_border_set(), BorderSet::plain());
    assert_eq!(FatInsideBorder::new(Borders::left()).get_borders(), Borders::left());
}

#[test]
fn border_on_empty_area_paints_nothing() {
    let mut buffer = create_test_buffer(5, 5);
    let untouched = buffer.clone();
    let border = PlainBorder::default();

    border.before_render(Rect::new(0, 0, 0, 0), &mut buffer);
    assert_eq!(buffer, untouched);
    border.before_render(Rect::new(1, 1, 0, 3), &mut buffer);
    assert_eq!(buffer, untouched);
    border.before_render(Rect::new(1, 1, 3, 0), &mut buffer);
    assert_eq!(buffer, untouched);
    border.after_render(Rect::new(0, 0, 5, 5), &mut buffer);
    assert_eq!(buffer, untouched);
}

#[test]
fn border_outside_the_buffer_is_clipped() {
    let mut buffer = create_test_buffer(3, 3);
    let border = CharBorder::new('#');

    border.before_render(Rect::new(1, 1, 10, 10), &mut buffer);

    assert_eq!(buffer[(0, 0)].symbol(), " ");
    assert_eq!(buffer[(1, 1)].symbol(), "#");
    assert_eq!(buffer[(2, 1)].symbol(), "#");
    assert_eq!(buffer[(1, 2)].symbol(), "#");
    assert_eq!(buffer[(2, 2)].symbol(), " ");
}

#[test]
fn border_saturates_on_small_areas() {
    let border = PlainBorder::default();
    for w in 0..6u16 {
        for h in 0..6u16 {
            let inner = border.modify_area(Rect::new(3, 4, w, h));
            assert_eq!(inner.width, w.saturating_sub(2));
            assert_eq!(inner.height, h.saturating_sub(2));
            if w <= 2 || h <= 2 {
                assert!(inner.is_empty());
            } else {
                assert_eq!(inner, Rect::new(4, 5, w - 2, h - 2));
            }
        }
    }
    let at_the_edge = border.modify_area(Rect { x: u16::MAX, y: u16::MAX, width: 0, height: 0 });
    assert_eq!(at_the_edge, Rect { x: u16::MAX, y: u16::MAX, width: 0, height: 0 });
}

#[test]
fn border_sides_and_corners_are_idle_on_an_empty_area() {
    let border = PlainBorder::default();
    let set = BorderSet::plain();
    for area in [Rect::new(0, 0, 0, 0), Rect::new(1, 1, 0, 3), Rect::new(1, 1, 3, 0)] {
        let mut buffer = create_test_buffer(5, 5);
        border.render_left(area, &mut buffer, '|');
        border.render_top(area, &mut buffer, '-');
        border.render_right(area, &mut buffer, '|');
        border.render_bottom(area, &mut buffer, '-');
        border.render_corners(area, &mut buffer, &set);
        assert_eq!(buffer, create_test_buffer(5, 5));
    }
    let mut buffer = create_test_buffer(3, 3);
    border.render_left(Rect::new(0, 0, 3, 3), &mut buffer, 'l');
    border.render_right(Rect::new(0, 0, 3, 3), &mut buffer, 'r');
    border.render_top(Rect::new(0, 0, 3, 3), &mut buffer, 't');
    border.render_bottom(Rect::new(0, 0, 3, 3), &mut buffer, 'b');
    assert_eq!(buffer[(0, 1)].symbol(), "l");
    assert_eq!(buffer[(2, 1)].symbol(), "r");
    assert_eq!(buffer[(1, 0)].symbol(), "t");
    assert_eq!(buffer[(1, 2)].symbol(), "b");
    assert_eq!(buffer[(0, 0)].symbol(), "t");
    assert_eq!(buffer[(2, 2)].symbol(), "b");
    assert_eq!(buffer[(1, 1)].symbol(), " ");
    border.render_corners(Rect::new(0, 0, 3, 3), &mut buffer, &set);
    assert_eq!(buffer[(0, 0)].symbol(), "┌");
    assert_eq!(buffer[(2, 2)].symbol(), "┘");
}

#[test]
fn border_is_painted_on_the_cells_that_a_short_buffer_has() {
    let mut buffer = create_test_buffer(3, 3);
    buffer.content.truncate(4);
    PlainBorder::default().before_render(Rect::new(0, 0, 3, 3), &mut buffer);
    assert_eq!(buffer.cell((0, 0)).unwrap().symbol(), "┌");
    assert_eq!(buffer.cell((1, 0)).unwrap().symbol(), "─");
    assert_eq!(buffer.cell((2, 0)).unwrap().symbol(), "┐");
    assert_eq!(buffer.cell((0, 1)).unwrap().symbol(), "│");
    assert!(buffer.cell((1, 1)).is_none());
}
