use garnish::Rect;

#[test]
fn rect_new_keeps_the_far_edges_in_range() {
    assert_eq!(Rect::new(1, 2, 3, 4), Rect { x: 1, y: 2, width: 3, height: 4 });
    assert_eq!(
        Rect::new(u16::MAX - 1, u16::MAX, 10, 10),
        Rect { x: u16::MAX - 1, y: u16::MAX, width: 1, height: 0 }
    );
}

#[test]
fn rect_edges_and_emptiness() {
    let r = Rect::new(2, 3, 4, 5);
    assert_eq!(r.left(), 2);
    assert_eq!(r.right(), 6);
    assert_eq!(r.top(), 3);
    assert_eq!(r.bottom(), 8);
    assert!(!r.is_empty());
    assert!(Rect::zero().is_empty());
    assert_eq!(Rect::zero(), Rect { x: 0, y: 0, width: 0, height: 0 });
    assert!(Rect::new(1, 1, 0, 5).is_empty());
    assert!(Rect::new(1, 1, 5, 0).is_empty());
    let wide = Rect { x: u16::MAX, y: 0, width: 5, height: 1 };
    assert_eq!(wide.right(), u16::MAX);
}

#[test]
fn rect_contains_its_cells_only() {
    let r = Rect::new(2, 3, 4, 5);
    assert!(r.contains(2, 3));
    assert!(r.contains(5, 7));
    assert!(!r.contains(6, 7));
    assert!(!r.contains(5, 8));
    assert!(!r.contains(1, 3));
    assert!(!Rect::zero().contains(0, 0));
}

#[test]
fn rect_intersection_is_what_both_share() {
    let a = Rect::new(0, 0, 10, 10);
    let b = Rect::new(5, 6, 10, 10);
    assert_eq!(a.intersection(b), Rect::new(5, 6, 5, 4));
    assert_eq!(b.intersection(a), Rect::new(5, 6, 5, 4));
    let apart = Rect::new(20, 20, 5, 5);
    assert!(a.intersection(apart).is_empty());
    assert_eq!(a.intersection(apart), Rect { x: 20, y: 20, width: 0, height: 0 });
    assert_eq!(Rect::zero().intersection(Rect::new(3, 4, 5, 5)), Rect { x: 3, y: 4, width: 0, height: 0 });
}
