use chorus_ui::{Bbox, Point};

#[test]
fn test_bbox() {
    let b1 = Bbox::new(Point::new(0, 0), Point::new(10, 10));
    let b2 = Bbox::new(Point::new(2, 2), Point::new(4, 4));
    let b3 = Bbox::new(Point::new(20, 20), Point::new(25, 25));
    let b4 = Bbox::new(Point::new(0, 5), Point::new(8, 15));

    assert!(b1.contains_bbox(b2));
    assert_eq!(
        b1.overlapping(b2),
        Some(Bbox::new(Point::new(2, 2), Point::new(4, 4)))
    );

    assert!(!b1.contains_bbox(b3));
    assert_eq!(b1.overlapping(b3), None);

    assert_eq!(
        b1.overlapping(b4),
        Some(Bbox::new(Point::new(0, 5), Point::new(8, 10)))
    );

    let b1 = Bbox::new(Point::new(10, 10), Point::new(20, 20));
    let b2 = b1.offset(Point::new(2, 5));
    assert_eq!(b2, Bbox::new(Point::new(12, 15), Point::new(22, 25)));

    let b2 = Bbox::new(Point::new(10, 10), Point::new(20, 5));
    assert!(b1.contains_bbox(b2));
    assert!(b1.contains_bbox(b2.offset(Point::new(-5, 0))));
}

#[test]
fn bbox_new_normalizes_corners() {
    let b = Bbox::new(Point::new(10, 10), Point::new(20, 5));
    assert_eq!(b.min, Point::new(10, 5));
    assert_eq!(b.max, Point::new(20, 10));
    assert_eq!(b.size(), Point::new(10, 5));
}

#[test]
fn bbox_with_size_and_size() {
    let b = Bbox::with_size(Point::new(3, 4), Point::new(7, 9));
    assert_eq!(b.min, Point::new(3, 4));
    assert_eq!(b.max, Point::new(10, 13));
    assert_eq!(b.size(), Point::new(7, 9));
}

#[test]
fn overlap_of_disjoint_boxes_is_none() {
    let a = Bbox::new(Point::new(0, 0), Point::new(10, 10));
    let b = Bbox::new(Point::new(20, 20), Point::new(25, 25));
    assert_eq!(a.overlapping(b), None);
    assert_eq!(b.overlapping(a), None);
}

#[test]
fn point_saturating_arithmetic() {
    let p = Point::new(i32::MAX, 5).sat_add(Point::new(1, 1));
    assert_eq!(p, Point::new(i32::MAX, 6));
    let q = Point::new(i32::MIN, 0).sat_sub(Point::new(1, 4));
    assert_eq!(q, Point::new(i32::MIN, -4));
}
