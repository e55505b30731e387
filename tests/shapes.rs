use pong::geometry::Rect;

#[test]
fn overlapping_rects() {
    let a = Rect::new(0, 0, 10, 10);
    assert!(a.overlaps(&Rect::new(5, 5, 10, 10)));
    assert!(Rect::new(5, 5, 10, 10).overlaps(&a));
}

#[test]
fn touching_edges_overlap() {
    let a = Rect::new(0, 0, 10, 10);
    assert!(a.overlaps(&Rect::new(10, 0, 10, 10)));
    assert!(a.overlaps(&Rect::new(0, 10, 10, 10)));
}

#[test]
fn separate_rects_do_not_overlap() {
    let a = Rect::new(0, 0, 10, 10);
    assert!(!a.overlaps(&Rect::new(11, 0, 10, 10)));
    assert!(!a.overlaps(&Rect::new(0, -11, 10, 10)));
}

#[test]
fn extreme_coordinates_do_not_overflow() {
    let a = Rect::new(i64::MAX - 5, i64::MAX - 5, i64::MAX, i64::MAX);
    let b = Rect::new(i64::MIN, i64::MIN, 10, 10);
    assert!(!a.overlaps(&b));
    assert!(!b.overlaps(&a));
}
