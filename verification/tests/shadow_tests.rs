use garnish::shadow::{half_symbol, offset_size, HalfShadow, Shadow};
use garnish::{Rect, RenderModifier};
use ratatui::buffer::Buffer;

fn blank(width: u16, height: u16) -> Buffer {
    Buffer::empty(ratatui::layout::Rect::new(0, 0, width, height))
}

fn rows(buffer: &Buffer) -> Vec<String> {
    let area = buffer.area;
    (area.y..area.y + area.height)
        .map(|y| (area.x..area.x + area.width).map(|x| buffer[(x, y)].symbol().to_string()).collect())
        .collect()
}

#[test]
fn shadow_constructors() {
    assert_eq!(Shadow::default(), Shadow { x_offset: 1, y_offset: 1, symbol: '▒' });
    assert_eq!(Shadow::new(3, -2), Shadow { x_offset: 3, y_offset: -2, symbol: '▒' });
    assert_eq!(Shadow::new(1, 1).light().symbol, '░');
    assert_eq!(Shadow::new(1, 1).light().medium().symbol, '▒');
    assert_eq!(Shadow::new(1, 1).dark().symbol, '▓');
    assert_eq!(Shadow::new(1, 1).full().symbol, '█');
    assert_eq!(Shadow::new(4, 5).full().x_offset, 4);
    assert_eq!(HalfShadow::default(), HalfShadow { x_offset: 1, y_offset: 1 });
    assert_eq!(HalfShadow::new(3, 2), HalfShadow { x_offset: 3, y_offset: 2 });
}

#[test]
fn offset_size_is_the_absolute_value() {
    assert_eq!(offset_size(0), 0);
    assert_eq!(offset_size(5), 5);
    assert_eq!(offset_size(-5), 5);
    assert_eq!(offset_size(i8::MAX), 127);
    assert_eq!(offset_size(i8::MIN), 128);
}

#[test]
fn shadow_takes_its_offset_from_the_area() {
    let area = Rect::new(10, 20, 30, 40);
    assert_eq!(Shadow::new(3, 2).modify_area(area), Rect::new(10, 20, 27, 38));
    assert_eq!(Shadow::new(-3, 2).modify_area(area), Rect::new(13, 20, 27, 38));
    assert_eq!(Shadow::new(3, -2).modify_area(area), Rect::new(10, 22, 27, 38));
    assert_eq!(Shadow::new(-3, -2).modify_area(area), Rect::new(13, 22, 27, 38));
    assert_eq!(Shadow::new(0, 0).modify_area(area), area);
    assert_eq!(Shadow::new(0, 4).modify_area(area), Rect::new(10, 20, 30, 36));
}

#[test]
fn shadow_saturates_to_the_empty_area() {
    for w in 0..8u16 {
        for h in 0..8u16 {
            let inner = Shadow::new(3, -4).modify_area(Rect::new(2, 2, w, h));
            if w <= 3 || h <= 4 {
                assert_eq!(inner, Rect::zero());
            } else {
                assert_eq!(inner, Rect::new(2, 6, w - 3, h - 4));
            }
        }
    }
    assert_eq!(Shadow::new(i8::MIN, i8::MIN).modify_area(Rect::new(0, 0, 128, 128)), Rect::zero());
    assert_eq!(
        Shadow::new(i8::MIN, i8::MIN).modify_area(Rect::new(0, 0, 129, 129)),
        Rect::new(128, 128, 1, 1)
    );
    assert_eq!(
        Shadow::new(-2, -2).modify_area(Rect { x: u16::MAX, y: u16::MAX, width: 5, height: 5 }),
        Rect { x: u16::MAX, y: u16::MAX, width: 3, height: 3 }
    );
}

#[test]
fn shadow_falls_right_and_down() {
    let mut buffer = blank(5, 5);
    Shadow::default().before_render(Rect::new(0, 0, 5, 5), &mut buffer);
    assert_eq!(rows(&buffer), vec!["     ", "    ▒", "    ▒", "    ▒", " ▒▒▒▒"]);
    let painted = buffer.clone();
    Shadow::default().after_render(Rect::new(0, 0, 5, 5), &mut buffer);
    assert_eq!(buffer, painted);
}

#[test]
fn shadow_falls_left_and_up() {
    let mut buffer = blank(5, 5);
    Shadow::new(-2, -1).dark().before_render(Rect::new(0, 0, 5, 5), &mut buffer);
    assert_eq!(rows(&buffer), vec!["▓▓▓  ", "▓▓   ", "▓▓   ", "▓▓   ", "     "]);
}

#[test]
fn shadow_in_mixed_directions() {
    let mut buffer = blank(5, 4);
    Shadow::new(1, -1).light().before_render(Rect::new(0, 0, 5, 4), &mut buffer);
    assert_eq!(rows(&buffer), vec![" ░░░░", "    ░", "    ░", "     "]);

    let mut buffer = blank(5, 4);
    Shadow::new(-1, 1).full().before_render(Rect::new(0, 0, 5, 4), &mut buffer);
    assert_eq!(rows(&buffer), vec!["     ", "█    ", "█    ", "████ "]);
}

#[test]
fn shadow_without_room_paints_nothing() {
    for area in [Rect::new(0, 0, 0, 0), Rect::new(1, 1, 1, 4), Rect::new(1, 1, 4, 1), Rect::new(2, 2, 0, 3)] {
        let mut buffer = blank(6, 6);
        Shadow::default().before_render(area, &mut buffer);
        HalfShadow::default().before_render(area, &mut buffer);
        HalfShadow::new(-3, 2).before_render(area, &mut buffer);
        assert_eq!(buffer, blank(6, 6));
    }
}

#[test]
fn shadow_is_clipped_by_the_buffer() {
    let mut buffer = blank(4, 4);
    Shadow::default().before_render(Rect::new(2, 2, 6, 6), &mut buffer);
    assert_eq!(rows(&buffer), vec!["    ", "    ", "    ", "    "]);
    Shadow::default().before_render(Rect::new(1, 1, 3, 4), &mut buffer);
    assert_eq!(rows(&buffer), vec!["    ", "    ", "   ▒", "   ▒"]);
}

#[test]
fn half_shadow_takes_whole_cells_from_the_area() {
    let area = Rect::new(10, 20, 30, 40);
    assert_eq!(HalfShadow::new(1, 1).modify_area(area), Rect::new(10, 20, 29, 39));
    assert_eq!(HalfShadow::new(2, 2).modify_area(area), Rect::new(10, 20, 29, 39));
    assert_eq!(HalfShadow::new(3, 2).modify_area(area), Rect::new(10, 20, 28, 39));
    assert_eq!(HalfShadow::new(-3, -2).modify_area(area), Rect::new(12, 21, 28, 39));
    assert_eq!(HalfShadow::new(-1, 4).modify_area(area), Rect::new(11, 20, 29, 38));
    assert_eq!(HalfShadow::new(0, 0).modify_area(area), area);
    assert_eq!(HalfShadow::new(i8::MIN, i8::MAX).modify_area(Rect::new(0, 0, 65, 65)), Rect::new(64, 0, 1, 1));
    assert_eq!(HalfShadow::new(i8::MIN, i8::MAX).modify_area(Rect::new(0, 0, 64, 65)), Rect::zero());
}

#[test]
fn half_shadow_saturates_to_the_empty_area() {
    for w in 0..6u16 {
        for h in 0..6u16 {
            let inner = HalfShadow::new(3, 5).modify_area(Rect::new(1, 1, w, h));
            if w <= 2 || h <= 3 {
                assert_eq!(inner, Rect::zero());
            } else {
                assert_eq!(inner, Rect::new(1, 1, w - 2, h - 3));
            }
        }
    }
}

#[test]
fn half_shadow_draws_half_blocks_at_its_edges() {
    let mut buffer = blank(5, 5);
    HalfShadow::default().before_render(Rect::new(0, 0, 5, 5), &mut buffer);
    assert_eq!(rows(&buffer), vec!["    ▖", "    ▌", "    ▌", "    ▌", "▝▀▀▀▘"]);
}

#[test]
fn half_shadow_of_whole_cells_is_full_blocks() {
    let mut buffer = blank(5, 5);
    HalfShadow::new(2, 2).before_render(Rect::new(0, 0, 5, 5), &mut buffer);
    assert_eq!(rows(&buffer), vec!["     ", "    █", "    █", "    █", " ████"]);
}

#[test]
fn half_shadow_falls_left_and_up() {
    let mut buffer = blank(5, 5);
    HalfShadow::new(-1, -1).before_render(Rect::new(0, 0, 5, 5), &mut buffer);
    assert_eq!(rows(&buffer), vec!["▗▄▄▄▖", "▐    ", "▐    ", "▐    ", "▝    "]);
}

#[test]
fn half_shadow_of_one_and_a_half_cells() {
    let mut buffer = blank(6, 4);
    HalfShadow::new(3, 2).before_render(Rect::new(0, 0, 6, 4), &mut buffer);
    assert_eq!(rows(&buffer), vec!["      ", "    ██", "    █▌", " █████"]);
}

#[test]
fn half_symbol_table() {
    assert_eq!(half_symbol(true, true, true, false, true, false), '▗');
    assert_eq!(half_symbol(true, true, false, true, true, false), '▖');
    assert_eq!(half_symbol(true, true, true, false, false, true), '▝');
    assert_eq!(half_symbol(true, true, false, true, false, true), '▘');
    assert_eq!(half_symbol(true, false, true, false, false, false), '▐');
    assert_eq!(half_symbol(true, true, true, false, false, false), '▐');
    assert_eq!(half_symbol(true, false, false, true, false, false), '▌');
    assert_eq!(half_symbol(false, true, false, false, true, false), '▄');
    assert_eq!(half_symbol(true, true, false, false, true, false), '▄');
    assert_eq!(half_symbol(false, true, false, false, false, true), '▀');
    assert_eq!(half_symbol(false, false, true, false, true, false), '█');
    assert_eq!(half_symbol(true, false, true, false, true, false), '█');
    assert_eq!(half_symbol(true, true, true, true, true, true), '█');
    assert_eq!(half_symbol(false, false, false, false, false, false), '█');
}
