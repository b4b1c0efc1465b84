use aabb_collision::BoundingBox;

fn placed(width: i64, height: i64, x: i64, y: i64) -> BoundingBox {
    let mut b = BoundingBox::new(width, height);
    b.set_position(x, y);
    b
}

#[test]
fn span_tests_are_symmetric() {
    let boxes = [
        placed(2, 2, 0, 0),
        placed(4, 2, 2, 0),
        placed(4, 4, 3, 5),
        placed(0, 0, 1, 1),
        placed(6, 6, -10, -10),
    ];
    for a in boxes.iter() {
        for b in boxes.iter() {
            assert_eq!(a.overlapping_x(b), b.overlapping_x(a));
            assert_eq!(a.overlapping_y(b), b.overlapping_y(a));
            assert_eq!(a.is_overlapping_with(b), b.is_overlapping_with(a));
        }
    }
}

#[test]
fn boxes_at_one_position_overlap() {
    let a = placed(2, 8, 7, -3);
    let b = placed(20, 2, 7, -3);
    assert!(a.overlapping_x(&b));
    assert!(a.overlapping_y(&b));
    assert!(a.is_overlapping_with(&b));
    assert!(a.is_overlapping_with(&a));
}

#[test]
fn empty_boxes_at_one_position_do_not_overlap() {
    let a = placed(0, 0, 7, -3);
    assert!(!a.overlapping_x(&a));
    assert!(!a.overlapping_y(&a));
    assert!(!a.is_overlapping_with(&a));
}

#[test]
fn touching_boxes_do_not_overlap_but_the_other_axis_still_does() {
    let a = placed(2, 2, 0, 0);
    let b = placed(2, 2, 2, 0);
    assert_eq!(a.right(), b.left());
    assert!(!a.is_overlapping_with(&b));
    assert!(!a.overlapping_x(&b));
    assert!(a.overlapping_y(&b));

    let c = placed(2, 2, 0, -2);
    assert!(!a.is_overlapping_with(&c));
    assert!(a.overlapping_x(&c));
    assert!(!a.overlapping_y(&c));
}

#[test]
fn one_unit_inside_the_boundary_overlaps() {
    let a = placed(2, 2, 0, 0);
    let b = placed(2, 2, 1, 0);
    assert!(a.is_overlapping_with(&b));
    assert!(a.overlapping_x(&b));
    let c = placed(2, 2, 3, 0);
    assert!(!a.is_overlapping_with(&c));
    assert!(!a.overlapping_x(&c));
}

#[test]
fn overlap_needs_both_axes() {
    let a = placed(4, 4, 0, 0);
    let beside = placed(4, 4, 10, 1);
    assert!(!a.overlapping_x(&beside));
    assert!(a.overlapping_y(&beside));
    assert!(!a.is_overlapping_with(&beside));
    let above = placed(4, 4, 1, 10);
    assert!(a.overlapping_x(&above));
    assert!(!a.overlapping_y(&above));
    assert!(!a.is_overlapping_with(&above));
}

#[test]
fn a_line_overlaps_a_box_it_crosses() {
    let line = placed(0, 10, 1, 0);
    let b = placed(4, 4, 0, 0);
    assert!(line.overlapping_x(&b));
    assert!(line.overlapping_y(&b));
    assert!(line.is_overlapping_with(&b));
}

#[test]
fn overlap_tests_hold_at_the_ends_of_the_coordinate_range() {
    let a = placed(i64::MAX, i64::MAX, i64::MAX, i64::MIN);
    let b = placed(i64::MAX, i64::MAX, i64::MIN, i64::MAX);
    assert!(!a.overlapping_x(&b));
    assert!(!a.overlapping_y(&b));
    assert!(!a.is_overlapping_with(&b));
    assert!(a.is_overlapping_with(&a));
}
