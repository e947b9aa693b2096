use garnish::canvas::{fill_char, fill_style, holds_region};
use garnish::{Padding, Rect, RenderModifier, Style};
use ratatui::buffer::Buffer;
use ratatui::style::{Color, Modifier};

fn blank(width: u16, height: u16) -> Buffer {
    Buffer::empty(ratatui::layout::Rect::new(0, 0, width, height))
}

#[test]
fn padding_constructors() {
    assert_eq!(Padding::new(1, 2, 3, 4), Padding { left: 1, right: 2, top: 3, bottom: 4 });
    assert_eq!(Padding::zero(), Padding::new(0, 0, 0, 0));
    assert_eq!(Padding::default(), Padding::zero());
    assert_eq!(Padding::uniform(2), Padding::new(2, 2, 2, 2));
    assert_eq!(Padding::horizontal(2), Padding::new(2, 2, 0, 0));
    assert_eq!(Padding::vertical(2), Padding::new(0, 0, 2, 2));
    assert_eq!(Padding::symmetric(1, 2), Padding::new(1, 1, 2, 2));
    assert_eq!(Padding::left(7), Padding::new(7, 0, 0, 0));
    assert_eq!(Padding::right(7), Padding::new(0, 7, 0, 0));
    assert_eq!(Padding::top(7), Padding::new(0, 0, 7, 0));
    assert_eq!(Padding::bottom(7), Padding::new(0, 0, 0, 7));
}

#[test]
fn padding_moves_in_and_shrinks() {
    let area = Rect::new(10, 20, 30, 40);
    assert_eq!(Padding::new(1, 2, 3, 4).modify_area(area), Rect::new(11, 23, 27, 33));
    assert_eq!(Padding::zero().modify_area(area), area);
    assert_eq!(Padding::uniform(1).modify_area(Rect::new(0, 0, 10, 10)), Rect::new(1, 1, 8, 8));
}

#[test]
fn padding_saturates() {
    for w in 0..8u16 {
        for h in 0..8u16 {
            let inner = Padding::new(1, 2, 3, 1).modify_area(Rect::new(5, 5, w, h));
            assert_eq!(inner.width, w.saturating_sub(3));
            assert_eq!(inner.height, h.saturating_sub(4));
            assert_eq!(inner.is_empty(), w <= 3 || h <= 4);
        }
    }
    let huge = Padding::uniform(u16::MAX).modify_area(Rect { x: 9, y: 9, width: u16::MAX, height: u16::MAX });
    assert_eq!(huge, Rect { x: u16::MAX, y: u16::MAX, width: 0, height: 0 });
}

#[test]
fn padding_paints_nothing() {
    let mut buffer = blank(4, 4);
    Padding::uniform(1).before_render(Rect::new(0, 0, 4, 4), &mut buffer);
    Padding::uniform(1).after_render(Rect::new(0, 0, 4, 4), &mut buffer);
    assert_eq!(buffer, blank(4, 4));
}

#[test]
fn style_builders() {
    let style = Style::new();
    assert_eq!(style, Style::default());
    assert_eq!(style, Style { fg: None, bg: None, add_modifier: 0, sub_modifier: 0 });
    let style = Style::new().fg(Color::Red).bg(Color::Blue).add_modifier(0b11).remove_modifier(0b10);
    assert_eq!(style, Style { fg: Some(Color::Red), bg: Some(Color::Blue), add_modifier: 0b01, sub_modifier: 0b10 });
    let again = style.add_modifier(0b10);
    assert_eq!(again.add_modifier, 0b11);
    assert_eq!(again.sub_modifier, 0);
}

#[test]
fn style_patch_lays_one_style_over_another() {
    let base = Style::new().fg(Color::Red).add_modifier(0b0001).remove_modifier(0b0100);
    let over = Style::new().bg(Color::Blue).add_modifier(0b0100).remove_modifier(0b0001);
    let patched = base.patch(over);
    assert_eq!(patched.fg, Some(Color::Red));
    assert_eq!(patched.bg, Some(Color::Blue));
    assert_eq!(patched.add_modifier, 0b0100);
    assert_eq!(patched.sub_modifier, 0b0001);
    assert_eq!(base.patch(Style::new()), base);
    assert_eq!(Style::new().fg(Color::Red).patch(Style::new().fg(Color::Green)).fg, Some(Color::Green));
}

#[test]
fn style_reset_is_the_host_reset() {
    let reset = Style::reset();
    assert_eq!(reset.fg, Some(Color::Reset));
    assert_eq!(reset.bg, Some(Color::Reset));
    assert_eq!(reset.add_modifier, 0);
    assert_eq!(reset.sub_modifier, Modifier::all().bits());
    assert_eq!(reset.sub_modifier, garnish::style::ALL_MODIFIERS);
}

#[test]
fn style_is_applied_to_its_area_only() {
    let mut buffer = blank(4, 3);
    let style = Style::new().bg(Color::Blue).add_modifier(Modifier::BOLD.bits());
    style.before_render(Rect::new(1, 1, 2, 1), &mut buffer);
    for y in 0..3u16 {
        for x in 0..4u16 {
            let inside = y == 1 && (x == 1 || x == 2);
            assert_eq!(buffer[(x, y)].bg, if inside { Color::Blue } else { Color::Reset });
            assert_eq!(buffer[(x, y)].modifier.contains(Modifier::BOLD), inside);
            assert_eq!(buffer[(x, y)].fg, Color::Reset);
            assert_eq!(buffer[(x, y)].symbol(), " ");
        }
    }
    Style::new().remove_modifier(Modifier::BOLD.bits()).before_render(Rect::new(2, 0, 5, 5), &mut buffer);
    assert!(buffer[(1, 1)].modifier.contains(Modifier::BOLD));
    assert!(!buffer[(2, 1)].modifier.contains(Modifier::BOLD));
    assert_eq!(buffer[(2, 1)].bg, Color::Blue);
}

#[test]
fn style_takes_no_space_and_paints_nothing_over_the_widget() {
    let area = Rect::new(3, 4, 5, 6);
    let style = Style::new().bg(Color::Blue);
    assert_eq!(style.modify_area(area), area);
    let mut buffer = blank(4, 4);
    style.after_render(Rect::new(0, 0, 4, 4), &mut buffer);
    style.before_render(Rect::new(1, 1, 0, 3), &mut buffer);
    assert_eq!(buffer, blank(4, 4));
}

#[test]
fn style_is_applied_to_the_cells_that_a_short_buffer_has() {
    let mut buffer = blank(3, 3);
    buffer.content.truncate(5);
    Style::new().bg(Color::Blue).before_render(Rect::new(0, 0, 3, 3), &mut buffer);
    assert_eq!(buffer.content.len(), 5);
    for cell in &buffer.content {
        assert_eq!(cell.bg, Color::Blue);
    }
}

#[test]
fn regions_are_filled_as_far_as_the_buffer_reaches() {
    let mut buffer = blank(3, 2);
    fill_char(&mut buffer, Rect::new(1, 1, 5, 5), 'x');
    fill_style(&mut buffer, Rect::new(2, 0, 5, 5), Style::new().fg(Color::Red));
    assert_eq!(buffer[(0, 1)].symbol(), " ");
    assert_eq!(buffer[(1, 1)].symbol(), "x");
    assert_eq!(buffer[(2, 1)].symbol(), "x");
    assert_eq!(buffer[(1, 0)].symbol(), " ");
    assert_eq!(buffer[(2, 0)].fg, Color::Red);
    assert_eq!(buffer[(2, 1)].fg, Color::Red);
    assert_eq!(buffer[(1, 1)].fg, Color::Reset);
    let painted = buffer.clone();
    fill_char(&mut buffer, Rect::new(1, 1, 0, 1), 'y');
    fill_style(&mut buffer, Rect::new(1, 1, 1, 0), Style::new().fg(Color::Blue));
    assert_eq!(buffer, painted);
}

#[test]
fn a_region_is_held_when_every_cell_of_it_is() {
    let buffer = blank(3, 2);
    assert!(holds_region(&buffer, Rect::new(0, 0, 3, 2)));
    assert!(holds_region(&buffer, Rect::new(1, 1, 2, 1)));
    assert!(holds_region(&buffer, Rect::new(7, 7, 0, 3)));
    assert!(!holds_region(&buffer, Rect::new(0, 0, 4, 1)));
    assert!(!holds_region(&buffer, Rect::new(0, 1, 1, 2)));
    let mut short = blank(3, 2);
    short.content.truncate(4);
    assert!(holds_region(&short, Rect::new(0, 0, 3, 1)));
    assert!(holds_region(&short, Rect::new(0, 1, 1, 1)));
    assert!(!holds_region(&short, Rect::new(0, 1, 2, 1)));
}
