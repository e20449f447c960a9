use tileedit::rect::{Rect, Vec2};

#[test]
fn test_intersect() {
    let a = Rect::from_slice([0, 0, 4, 4]);
    let b = Rect::from_slice([-1, -1, 1, 1]);

    assert!(Rect::intersect(&a, &b));
}

#[test]
fn test_intersect_disjoint() {
    let a = Rect::from_slice([0, 0, 4, 4]);
    let b = Rect::from_slice([10, 10, 2, 2]);
    assert!(!Rect::intersect(&a, &b));
}

#[test]
fn test_contains() {
    let r = Rect::from_slice([0, 0, 4, 4]);
    assert!(r.contains(Vec2::new(2, 2)));
    assert!(r.contains(Vec2::new(0, 4)));
    assert!(!r.contains(Vec2::new(5, 2)));
    assert!(!r.contains(Vec2::new(2, -1)));
}

#[test]
fn test_translate() {
    let mut r = Rect::from_slice([1, 2, 3, 4]);
    r.translate(Vec2::new(10, -5));
    assert_eq!(r, Rect { x: 11, y: -3, w: 3, h: 4 });
}

#[test]
fn test_shortest_way_out_vertical() {
    // Centred overlap: both axes tie at 3, so the vertical move wins.
    let inner = Rect::from_slice([1, 1, 2, 2]);
    let outer = Rect::from_slice([0, 0, 4, 4]);
    assert_eq!(inner.shortest_way_out(&outer), Vec2::new(0, -3));
}

#[test]
fn test_shortest_way_out_horizontal() {
    // Near the right edge: escaping rightward by 1 beats any vertical move.
    let inner = Rect::from_slice([3, 1, 2, 2]);
    let outer = Rect::from_slice([0, 0, 4, 4]);
    assert_eq!(inner.shortest_way_out(&outer), Vec2::new(1, 0));
}
