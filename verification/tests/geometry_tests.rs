//! Overlap testing and side classification on concrete rectangles.

use stapid::geometry::{overlap, Rect, Side};

fn rect(min_x: i64, min_y: i64, max_x: i64, max_y: i64) -> Rect {
    Rect { min_x, min_y, max_x, max_y }
}

#[test]
fn separated_rectangles_do_not_overlap() {
    let b = rect(0, 0, 20, 20);
    assert_eq!(overlap(&rect(30, 0, 40, 20), &b), None);
    assert_eq!(overlap(&rect(-40, 0, -30, 20), &b), None);
    assert_eq!(overlap(&rect(0, 30, 20, 40), &b), None);
    assert_eq!(overlap(&rect(0, -40, 20, -30), &b), None);
}

#[test]
fn touching_edges_do_not_overlap() {
    let b = rect(0, 0, 20, 20);
    // Strict intersection: sharing an edge is not contact.
    assert_eq!(overlap(&rect(-10, 0, 0, 20), &b), None);
    assert_eq!(overlap(&rect(20, 0, 30, 20), &b), None);
    assert_eq!(overlap(&rect(0, 20, 20, 30), &b), None);
}

#[test]
fn left_side_contact() {
    let b = rect(0, 0, 20, 20);
    let a = rect(-5, 5, 5, 15);
    assert_eq!(overlap(&a, &b), Some(Side::Left));
}

#[test]
fn right_side_contact() {
    let b = rect(0, 0, 20, 20);
    let a = rect(15, 5, 25, 15);
    assert_eq!(overlap(&a, &b), Some(Side::Right));
}

#[test]
fn top_side_contact() {
    let b = rect(0, 0, 20, 20);
    let a = rect(5, 15, 15, 25);
    assert_eq!(overlap(&a, &b), Some(Side::Top));
}

#[test]
fn bottom_side_contact() {
    let b = rect(0, 0, 20, 20);
    let a = rect(5, -5, 15, 5);
    assert_eq!(overlap(&a, &b), Some(Side::Bottom));
}

#[test]
fn lesser_penetration_axis_decides_corner_contact() {
    let b = rect(0, 0, 20, 20);
    // Penetration: 3 on the horizontal axis, 2 on the vertical axis.
    let a = rect(-5, -6, 3, 2);
    assert_eq!(overlap(&a, &b), Some(Side::Bottom));
    // Penetration: 2 on the horizontal axis, 3 on the vertical axis.
    let a = rect(-5, -6, 2, 3);
    assert_eq!(overlap(&a, &b), Some(Side::Left));
}

#[test]
fn equal_penetration_prefers_horizontal_axis() {
    let b = rect(0, 0, 20, 20);
    let a = rect(-5, -5, 3, 3);
    assert_eq!(overlap(&a, &b), Some(Side::Left));
}

#[test]
fn contained_rectangle_reports_inside() {
    let b = rect(0, 0, 20, 20);
    assert_eq!(overlap(&rect(5, 5, 10, 10), &b), Some(Side::Inside));
}

#[test]
fn spanning_rectangle_reports_inside() {
    let b = rect(0, 0, 20, 20);
    // The first rectangle spans the second on both axes.
    assert_eq!(overlap(&rect(-5, -5, 25, 25), &b), Some(Side::Inside));
}

#[test]
fn directional_axis_beats_inside_axis() {
    let b = rect(0, 0, 20, 20);
    // Vertically contained, horizontally straddling the left edge.
    let a = rect(-5, 5, 5, 15);
    assert_eq!(overlap(&a, &b), Some(Side::Left));
    // Horizontally contained, vertically straddling the top edge.
    let a = rect(5, 15, 15, 25);
    assert_eq!(overlap(&a, &b), Some(Side::Top));
}

#[test]
fn center_of_rectangle() {
    let r = rect(9000, -1500, 12000, 1500);
    assert_eq!(r.center(), (10500, 0));
    let r = rect(-10, -10, 10, 10);
    assert_eq!(r.center(), (0, 0));
}

#[test]
fn from_center_builds_corners() {
    let r = Rect::from_center(100, -200, 30, 40);
    assert_eq!(r, rect(70, -240, 130, -160));
}

#[test]
fn inflated_grows_every_side() {
    let r = rect(-10, -20, 10, 20).inflated(115);
    assert_eq!(r, rect(-125, -135, 125, 135));
}
