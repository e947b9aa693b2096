use std::borrow::Cow;

use garnish::text::{Alignment, Span};
use garnish::title::{Above, After, Before, Below, Bottom, Left, Right, Title, Top};
use garnish::{Rect, RenderModifier, Style};
use ratatui::buffer::Buffer;
use ratatui::style::Color;

fn create_test_buffer(width: u16, height: u16) -> Buffer {
    Buffer::empty(ratatui::layout::Rect::new(0, 0, width, height))
}

#[test]
fn title_creation_from_various_types() {
    // From string
    let title1 = Title::<Top>::from("Hello World".to_string());
    assert_eq!(title1.line.spans[0].content, "Hello World");

    // From str
    let title2 = Title::<Top>::from("Hello World");
    assert_eq!(title2.line.spans[0].content, "Hello World");

    // From Cow
    let cow = Cow::Borrowed("Hello World");
    let title3 = Title::<Top>::from(cow);
    assert_eq!(title3.line.spans[0].content, "Hello World");

    // From spans
    let spans = vec![
        Span::raw("Hello "),
        Span::styled("World", Style::default().fg(Color::Red)),
    ];
    let title4 = Title::<Top>::from(spans);
    assert_eq!(title4.line.spans.len(), 2);

    // From single span
    let span = Span::styled("Single", Style::default().fg(Color::Blue));
    let title5 = Title::<Top>::from(span);
    assert_eq!(title5.line.spans.len(), 1);
}

#[test]
fn title_raw_and_styled_constructors() {
    let raw_title = Title::<Top>::raw("Raw Title");
    assert_eq!(raw_title.line.spans[0].content, "Raw Title");
    assert_eq!(raw_title.margin, 0);

    let styled_title = Title::<Top>::styled("Styled Title", Style::default().fg(Color::Red));
    assert_eq!(styled_title.line.spans[0].content, "Styled Title");
    assert_eq!(styled_title.line.style.fg, Some(Color::Red));
}

#[test]
fn title_configuration_methods() {
    let title = Title::<Top>::raw("Test")
        .margin(2)
        .centered()
        .set_style(Style::default().bg(Color::Blue));

    assert_eq!(title.margin, 2);
    assert_eq!(title.line.alignment, Some(ratatui::layout::Alignment::Center));
    assert_eq!(title.line.style.bg, Some(Color::Blue));
}

#[test]
fn title_alignment_methods() {
    let left_title = Title::<Top>::raw("Left").left_aligned();
    assert_eq!(left_title.line.alignment, Some(ratatui::layout::Alignment::Left));

    let center_title = Title::<Top>::raw("Center").centered();
    assert_eq!(center_title.line.alignment, Some(ratatui::layout::Alignment::Center));

    let right_title = Title::<Top>::raw("Right").right_aligned();
    assert_eq!(right_title.line.alignment, Some(ratatui::layout::Alignment::Right));
}

#[test]
fn title_style_operations() {
    let base_style = Style::default().fg(Color::Red);
    let title = Title::<Top>::styled("Test", base_style);

    // Test style patching
    let patched_title = title.clone().patch_style(Style::default().bg(Color::Blue));
    assert_eq!(patched_title.line.style.fg, Some(Color::Red));
    assert_eq!(patched_title.line.style.bg, Some(Color::Blue));

    // Test style reset
    let reset_title = title.reset_style();
    assert_eq!(reset_title.line.style, ratatui::style::Style::reset());
}

#[test]
fn area_calculation_with_margin() {
    let title = Title::<Top>::raw("Test").margin(2);
    let area = Rect::new(0, 0, 10, 5);

    let top_area = title.calculate_top_area(area);
    assert_eq!(top_area, Rect::new(2, 0, 6, 1)); // x=2 (margin), width=6 (10-4)

    let bottom_area = title.calculate_bottom_area(area);
    assert_eq!(bottom_area, Rect::new(2, 4, 6, 1)); // y=4 (bottom-1)
}

#[test]
fn area_calculation_edge_cases() {
    let title = Title::<Top>::raw("Test").margin(5);

    // Area too small for margin
    let tiny_area = Rect::new(0, 0, 8, 3);
    let result = title.calculate_top_area(tiny_area);
    assert_eq!(result, Rect::zero());

    // Exact margin size
    let exact_area = Rect::new(0, 0, 10, 3);
    let result = title.calculate_top_area(exact_area);
    assert_eq!(result, Rect::zero()); // 10 - (5*2) = 0 width
}

#[test]
fn title_rendering_with_garnish() {
    let mut buffer = create_test_buffer(10, 3);
    let area = Rect::new(0, 0, 10, 3);

    // Test Top title rendering
    let top_title = Title::<Top>::raw("TOP");
    top_title.after_render(area, &mut buffer);

    // Should render on the first line
    assert_eq!(buffer[(0, 0)].symbol(), "T");
    assert_eq!(buffer[(1, 0)].symbol(), "O");
    assert_eq!(buffer[(2, 0)].symbol(), "P");

    // Test Above title with area modification
    let above_title = Title::<Above>::raw("ABOVE");
    let modified_area = above_title.modify_area(area);

    assert_eq!(modified_area.y, 1); // Moved down by 1
    assert_eq!(modified_area.height, 2); // Reduced by 1
}

#[test]
fn styled_trait_implementation() {
    let title = Title::<Top>::raw("Test");
    let original_style = title.style();

    let new_style = Style::default().fg(Color::Green);
    let styled_title = title.set_style(new_style);

    assert_eq!(styled_title.style().fg, Some(Color::Green));
    assert_ne!(styled_title.style(), original_style);
}

#[test]
fn deref_functionality() {
    let mut title = Title::<Top>::raw("Test");

    // Read through the line
    assert_eq!(title.line.spans[0].content, "Test");

    // Write through the line
    title.line.spans.push(ratatui::text::Span::raw(" Added"));
    assert_eq!(title.line.spans.len(), 2);
}

#[test]
fn spans_method_replaces_content() {
    let title = Title::<Top>::raw("Original").spans(vec![
        Span::raw("New "),
        Span::styled("Content", Style::default().fg(Color::Blue)),
    ]);

    assert_eq!(title.line.spans.len(), 2);
    assert_eq!(title.line.spans[0].content, "New ");
    assert_eq!(title.line.spans[1].content, "Content");
    assert_eq!(title.line.spans[1].style.fg, Some(Color::Blue));
}

#[test]
fn area_modification_for_positioning() {
    let area = Rect::new(5, 5, 20, 10);

    // Above should reduce height and move y down
    let above_title = Title::<Above>::raw("Test");
    let above_modified = above_title.modify_area(area);
    assert_eq!(above_modified.y, 6);
    assert_eq!(above_modified.height, 9);
    assert_eq!(above_modified.x, area.x);
    assert_eq!(above_modified.width, area.width);

    // Below should only reduce height
    let below_title = Title::<Below>::raw("Test");
    let below_modified = below_title.modify_area(area);
    assert_eq!(below_modified.y, area.y);
    assert_eq!(below_modified.height, 9);
    assert_eq!(below_modified.x, area.x);
    assert_eq!(below_modified.width, area.width);

    // Before should reduce width and move x right
    let before_title = Title::<Before>::raw("Test");
    let before_modified = before_title.modify_area(area);
    assert_eq!(before_modified.x, 6);
    assert_eq!(before_modified.width, 19);
    assert_eq!(before_modified.y, area.y);
    assert_eq!(before_modified.height, area.height);

    // After should only reduce width
    let after_title = Title::<After>::raw("Test");
    let after_modified = after_title.modify_area(area);
    assert_eq!(after_modified.x, area.x);
    assert_eq!(after_modified.width, 19);
    assert_eq!(after_modified.y, area.y);
    assert_eq!(after_modified.height, area.height);
}

#[test]
fn vertical_title_rendering() {
    let mut buffer = create_test_buffer(3, 10);
    let area = Rect::new(0, 0, 3, 10);

    // Test Left title rendering, centered
    let left_title = Title::<Left>::raw("ABC").centered();
    left_title.after_render(area, &mut buffer);

    // Should render vertically, centered (y=3 to y=5 for "ABC")
    assert_eq!(buffer[(0, 3)].symbol(), "A");
    assert_eq!(buffer[(0, 4)].symbol(), "B");
    assert_eq!(buffer[(0, 5)].symbol(), "C");

    // Test Right title rendering, bottom-aligned
    let right_title = Title::<Right>::raw("XYZ").right_aligned();
    right_title.after_render(area, &mut buffer);

    // Should render vertically, bottom-aligned (y=7 to y=9 for "XYZ")
    assert_eq!(buffer[(2, 7)].symbol(), "X");
    assert_eq!(buffer[(2, 8)].symbol(), "Y");
    assert_eq!(buffer[(2, 9)].symbol(), "Z");
}

#[test]
fn title_area_for_every_width_and_margin() {
    for margin in 0..6u8 {
        let title = Title::<Top>::raw("Test").margin(margin);
        for width in 0..16u16 {
            let area = Rect::new(3, 7, width, 4);
            let m = u16::from(margin);
            let top = title.calculate_top_area(area);
            let bottom = title.calculate_bottom_area(area);
            if width <= 2 * m {
                assert_eq!(top, Rect::zero());
                assert_eq!(bottom, Rect::zero());
            } else {
                assert_eq!(top, Rect { x: 3 + m, y: 7, width: width - 2 * m, height: 1 });
                assert_eq!(bottom, Rect { x: 3 + m, y: 10, width: width - 2 * m, height: 1 });
            }
        }
    }
}

#[test]
fn title_column_for_every_height_and_margin() {
    for margin in 0..6u8 {
        let title = Title::<Left>::raw("Test").margin(margin);
        for height in 0..16u16 {
            let area = Rect::new(3, 7, 4, height);
            let m = u16::from(margin);
            let left = title.calculate_left_area(area);
            let right = title.calculate_right_area(area);
            if height <= 2 * m {
                assert_eq!(left, Rect::zero());
                assert_eq!(right, Rect::zero());
            } else {
                assert_eq!(left, Rect { x: 3, y: 7 + m, width: 1, height: height - 2 * m });
                assert_eq!(right, Rect { x: 6, y: 7 + m, width: 1, height: height - 2 * m });
            }
        }
    }
}

#[test]
fn title_area_with_the_largest_margin() {
    let title = Title::<Top>::raw("Test").margin(u8::MAX);
    assert_eq!(title.calculate_top_area(Rect::new(0, 0, 510, 1)), Rect::zero());
    assert_eq!(
        title.calculate_top_area(Rect::new(0, 0, 511, 1)),
        Rect { x: 255, y: 0, width: 1, height: 1 }
    );
    assert_eq!(
        title.calculate_horizontal_area(Rect { x: u16::MAX - 3, y: 0, width: 600, height: 1 }, 9),
        Rect { x: u16::MAX, y: 9, width: 90, height: 1 }
    );
}

#[test]
fn overlay_titles_take_no_space() {
    let area = Rect::new(5, 5, 20, 10);
    assert_eq!(Title::<Top>::raw("Test").modify_area(area), area);
    assert_eq!(Title::<Bottom>::raw("Test").modify_area(area), area);
    assert_eq!(Title::<Left>::raw("Test").modify_area(area), area);
    assert_eq!(Title::<Right>::raw("Test").modify_area(area), area);
}

#[test]
fn reserved_titles_saturate() {
    let flat = Rect::new(5, 5, 20, 0);
    assert!(Title::<Above>::raw("Test").modify_area(flat).is_empty());
    assert!(Title::<Below>::raw("Test").modify_area(flat).is_empty());
    let thin = Rect::new(5, 5, 1, 9);
    assert_eq!(Title::<Before>::raw("Test").modify_area(thin), Rect { x: 6, y: 5, width: 0, height: 9 });
    assert_eq!(Title::<After>::raw("Test").modify_area(thin), Rect { x: 5, y: 5, width: 0, height: 9 });
    let edge = Rect { x: u16::MAX, y: u16::MAX, width: 0, height: 0 };
    assert_eq!(Title::<Above>::raw("Test").modify_area(edge), edge);
    assert_eq!(Title::<Before>::raw("Test").modify_area(edge), edge);
}

#[test]
fn bottom_title_is_drawn_over_the_last_row() {
    let mut buffer = create_test_buffer(10, 3);
    let title = Title::<Bottom>::raw("END").margin(1).right_aligned();
    title.before_render(Rect::new(0, 0, 10, 3), &mut buffer);
    assert_eq!(buffer, create_test_buffer(10, 3));
    title.after_render(Rect::new(0, 0, 10, 3), &mut buffer);
    assert_eq!(buffer[(6, 2)].symbol(), "E");
    assert_eq!(buffer[(7, 2)].symbol(), "N");
    assert_eq!(buffer[(8, 2)].symbol(), "D");
    assert_eq!(buffer[(9, 2)].symbol(), " ");
    assert_eq!(buffer[(6, 1)].symbol(), " ");
}

#[test]
fn reserved_title_styles_its_whole_band() {
    let mut buffer = create_test_buffer(8, 3);
    let title = Title::<Above>::styled("Hi", Style::default().bg(Color::Green)).margin(1);
    title.before_render(Rect::new(0, 0, 8, 3), &mut buffer);

    // The whole row is styled, the margins too; the text stands between them.
    for x in 0..8u16 {
        assert_eq!(buffer[(x, 0)].bg, Color::Green);
        assert_eq!(buffer[(x, 1)].bg, Color::Reset);
    }
    assert_eq!(buffer[(0, 0)].symbol(), " ");
    assert_eq!(buffer[(1, 0)].symbol(), "H");
    assert_eq!(buffer[(2, 0)].symbol(), "i");
    assert_eq!(buffer[(7, 0)].symbol(), " ");

    let untouched = buffer.clone();
    title.after_render(Rect::new(0, 0, 8, 3), &mut buffer);
    assert_eq!(buffer, untouched);
}

#[test]
fn below_title_sits_in_the_last_row() {
    let mut buffer = create_test_buffer(6, 4);
    let title = Title::<Below>::styled("ok", Style::default().bg(Color::Yellow));
    title.before_render(Rect::new(0, 0, 6, 4), &mut buffer);
    assert_eq!(buffer[(0, 3)].symbol(), "o");
    assert_eq!(buffer[(1, 3)].symbol(), "k");
    assert_eq!(buffer[(5, 3)].bg, Color::Yellow);
    assert_eq!(buffer[(0, 2)].bg, Color::Reset);
}

#[test]
fn column_titles_style_their_band_and_write_downwards() {
    let mut buffer = create_test_buffer(5, 6);
    let before = Title::<Before>::styled("ab", Style::default().bg(Color::Cyan)).margin(1);
    before.before_render(Rect::new(0, 0, 5, 6), &mut buffer);
    // The whole column is styled, the margins too; the text stands between them.
    for y in 0..6u16 {
        assert_eq!(buffer[(0, y)].bg, Color::Cyan);
        assert_eq!(buffer[(1, y)].bg, Color::Reset);
    }
    assert_eq!(buffer[(0, 0)].symbol(), " ");
    assert_eq!(buffer[(0, 1)].symbol(), "a");
    assert_eq!(buffer[(0, 2)].symbol(), "b");
    assert_eq!(buffer[(0, 3)].symbol(), " ");

    let after = Title::<After>::raw("xy").right_aligned();
    after.before_render(Rect::new(0, 0, 5, 6), &mut buffer);
    assert_eq!(buffer[(4, 4)].symbol(), "x");
    assert_eq!(buffer[(4, 5)].symbol(), "y");
}

#[test]
fn column_title_is_cut_at_the_bottom() {
    let mut buffer = create_test_buffer(2, 3);
    let title = Title::<Left>::raw("ABCDE");
    title.after_render(Rect::new(0, 0, 2, 3), &mut buffer);
    assert_eq!(buffer[(0, 0)].symbol(), "A");
    assert_eq!(buffer[(0, 1)].symbol(), "B");
    assert_eq!(buffer[(0, 2)].symbol(), "C");
    assert_eq!(buffer[(1, 0)].symbol(), " ");
}

#[test]
fn column_title_resets_what_a_wide_cluster_hides() {
    let mut buffer = create_test_buffer(3, 3);
    buffer[(1, 0)].set_symbol("q").set_bg(Color::Red);
    let title = Title::<Left>::raw("界a");
    title.after_render(Rect::new(0, 0, 3, 3), &mut buffer);
    assert_eq!(buffer[(0, 0)].symbol(), "界");
    assert_eq!(buffer[(1, 0)].symbol(), " ");
    assert_eq!(buffer[(1, 0)].bg, Color::Reset);
    assert_eq!(buffer[(0, 1)].symbol(), "a");
}

#[test]
fn column_title_keeps_span_styles() {
    let mut buffer = create_test_buffer(2, 4);
    let title = Title::<Left>::from(vec![
        Span::styled("r", Style::default().fg(Color::Red)),
        Span::styled("g", Style::default().fg(Color::Green).add_modifier(1)),
    ])
    .set_style(Style::default().bg(Color::Blue));
    title.after_render(Rect::new(0, 0, 2, 4), &mut buffer);
    assert_eq!(buffer[(0, 0)].symbol(), "r");
    assert_eq!(buffer[(0, 0)].fg, Color::Red);
    assert_eq!(buffer[(0, 0)].bg, Color::Blue);
    assert_eq!(buffer[(0, 1)].symbol(), "g");
    assert_eq!(buffer[(0, 1)].fg, Color::Green);
    assert_eq!(buffer[(0, 1)].modifier, ratatui::style::Modifier::BOLD);
    assert_eq!(buffer[(0, 2)].bg, Color::Reset);
}

#[test]
fn titles_paint_nothing_on_an_empty_area() {
    let untouched = create_test_buffer(6, 6);
    for area in [Rect::new(0, 0, 0, 0), Rect::new(1, 1, 4, 0), Rect::new(1, 1, 0, 4)] {
        let mut buffer = create_test_buffer(6, 6);
        let style = Style::default().bg(Color::Red);
        Title::<Top>::styled("t", style).after_render(area, &mut buffer);
        Title::<Bottom>::styled("t", style).after_render(area, &mut buffer);
        Title::<Left>::styled("t", style).after_render(area, &mut buffer);
        Title::<Right>::styled("t", style).after_render(area, &mut buffer);
        Title::<Above>::styled("t", style).before_render(area, &mut buffer);
        Title::<Below>::styled("t", style).before_render(area, &mut buffer);
        Title::<Before>::styled("t", style).before_render(area, &mut buffer);
        Title::<After>::styled("t", style).before_render(area, &mut buffer);
        assert_eq!(buffer, untouched);
    }
}

#[test]
fn title_too_wide_for_a_coordinate_is_not_written_downwards() {
    let long = "a".repeat(70_000);
    let title = Title::<Before>::styled(&long, Style::default().bg(Color::Red));
    assert!(!title.fits());
    let mut buffer = create_test_buffer(3, 3);
    title.before_render(Rect::new(0, 0, 3, 3), &mut buffer);
    assert_eq!(buffer, create_test_buffer(3, 3));

    assert!(!title.try_render_vertical(Rect::new(0, 0, 1, 3), &mut buffer, Alignment::Left));
    assert_eq!(buffer, create_test_buffer(3, 3));

    let short = Title::<Left>::raw("abc");
    assert!(short.fits());
    assert!(short.try_render_vertical(Rect::new(2, 0, 1, 3), &mut buffer, Alignment::Center));
    assert_eq!(buffer[(2, 1)].symbol(), "b");
    short.render_vertical(Rect::new(1, 0, 1, 3), &mut buffer, Alignment::Right);
    assert_eq!(buffer[(1, 0)].symbol(), "a");
    assert_eq!(buffer[(1, 2)].symbol(), "c");
}

#[test]
fn title_default_is_blank() {
    let title = Title::<Top>::default();
    assert_eq!(title.margin, 0);
    assert!(title.line.spans.is_empty());
    assert_eq!(title.line.alignment, None);
    assert_eq!(title.style(), Style::new());
    let copy = title.clone().margin(3);
    assert_eq!(copy.margin, 3);
    assert_eq!(copy.line, title.line);
}

#[test]
fn title_from_a_line_keeps_the_line() {
    let line = ratatui::text::Line::raw("kept").centered();
    let title = Title::<Top>::from(line.clone());
    assert_eq!(title.line, line);
    assert_eq!(title.margin, 0);
}

#[test]
fn band_is_styled_where_the_margins_leave_no_room_for_text() {
    let mut buffer = create_test_buffer(4, 3);
    let style = Style::default().bg(Color::Magenta);
    Title::<Below>::styled("text", style).margin(2).before_render(Rect::new(0, 0, 4, 3), &mut buffer);
    for x in 0..4u16 {
        assert_eq!(buffer[(x, 2)].bg, Color::Magenta);
        assert_eq!(buffer[(x, 2)].symbol(), " ");
        assert_eq!(buffer[(x, 1)].bg, Color::Reset);
    }

    let mut buffer = create_test_buffer(4, 3);
    Title::<After>::styled("text", style).margin(2).before_render(Rect::new(0, 0, 4, 3), &mut buffer);
    for y in 0..3u16 {
        assert_eq!(buffer[(3, y)].bg, Color::Magenta);
        assert_eq!(buffer[(3, y)].symbol(), " ");
        assert_eq!(buffer[(2, y)].bg, Color::Reset);
    }
}

#[test]
fn title_at_the_last_column_leaves_that_column_alone() {
    let at_the_edge = ratatui::layout::Rect { x: u16::MAX - 1, y: 0, width: 1, height: 1 };
    let mut buffer = Buffer::empty(at_the_edge);
    let title = Title::<Top>::raw("a\u{200B}");
    title.after_render(Rect { x: u16::MAX - 1, y: 0, width: 1, height: 1 }, &mut buffer);
    assert_eq!(buffer, Buffer::empty(at_the_edge));

    let wide = ratatui::layout::Rect { x: u16::MAX - 3, y: 0, width: 3, height: 1 };
    let mut buffer = Buffer::empty(wide);
    let title = Title::<Above>::styled("abc\u{200B}", Style::default().bg(Color::Red));
    title.before_render(Rect { x: u16::MAX - 3, y: 0, width: 3, height: 1 }, &mut buffer);
    assert_eq!(buffer[(u16::MAX - 3, 0)].symbol(), "a");
    assert_eq!(buffer[(u16::MAX - 2, 0)].symbol(), "b");
    assert_eq!(buffer[(u16::MAX - 1, 0)].symbol(), " ");
    for x in (u16::MAX - 3)..u16::MAX {
        assert_eq!(buffer[(x, 0)].bg, Color::Red);
    }
}

#[test]
fn title_is_not_drawn_on_a_buffer_that_lacks_cells() {
    let area = ratatui::layout::Rect::new(0, 0, 4, 2);
    let mut buffer = Buffer::empty(area);
    buffer.content.truncate(3);
    let short = buffer.clone();
    Title::<Top>::raw("text").after_render(Rect::new(0, 0, 4, 2), &mut buffer);
    assert_eq!(buffer, short);

    Title::<Above>::styled("text", Style::default().bg(Color::Red))
        .before_render(Rect::new(0, 0, 4, 2), &mut buffer);
    for x in 0..3u16 {
        assert_eq!(buffer.cell((x, 0)).unwrap().bg, Color::Red);
        assert_eq!(buffer.cell((x, 0)).unwrap().symbol(), " ");
    }
    assert!(buffer.cell((3, 0)).is_none());

    Title::<Left>::raw("ab").after_render(Rect::new(0, 0, 4, 2), &mut buffer);
    assert_eq!(buffer.cell((0, 0)).unwrap().symbol(), "a");
    assert!(buffer.cell((0, 1)).is_none());
}

#[test]
fn downward_title_is_not_written_into_an_area_without_width() {
    let mut buffer = create_test_buffer(3, 3);
    let title = Title::<Left>::raw("abc");
    title.render_vertical(Rect { x: 1, y: 0, width: 0, height: 3 }, &mut buffer, Alignment::Left);
    assert!(title.try_render_vertical(Rect { x: 1, y: 0, width: 2, height: 0 }, &mut buffer, Alignment::Left));
    assert_eq!(buffer, create_test_buffer(3, 3));
}

#[test]
fn title_of_one_line_is_one_span() {
    let title = Title::<Top>::raw("one line\r");
    assert_eq!(title.line.spans.len(), 1);
    assert_eq!(title.line.spans[0].content, "one line\r");
    assert_eq!(title.line.spans[0].style, ratatui::style::Style::new());
    let title = Title::<Top>::styled("x", Style::default().bg(Color::Red));
    assert_eq!(title.line.spans.len(), 1);
    assert_eq!(title.line.spans[0].content, "x");
    assert_eq!(title.line.spans[0].style, ratatui::style::Style::new());
}

#[test]
fn width_of_a_title_is_the_sum_over_its_spans() {
    let title = Title::<Left>::from(vec![Span::raw("ab"), Span::raw("界"), Span::raw("")]).centered();
    assert!(title.fits());
    // Four columns in a column of ten rows: the text starts at row 3.
    let mut buffer = create_test_buffer(2, 10);
    title.after_render(Rect::new(0, 0, 2, 10), &mut buffer);
    assert_eq!(buffer[(0, 2)].symbol(), " ");
    assert_eq!(buffer[(0, 3)].symbol(), "a");
    assert_eq!(buffer[(0, 4)].symbol(), "b");
    assert_eq!(buffer[(0, 5)].symbol(), "界");

    let half = "a".repeat(40_000);
    let two = Title::<Left>::from(vec![Span::raw(&half), Span::raw(&half)]);
    assert!(!two.fits());
    let one = Title::<Left>::from(vec![Span::raw(&half), Span::raw(&"a".repeat(25_535))]);
    assert!(one.fits());
}
