//! Bezier evaluation: endpoints are exact, and the quadratic midpoint is
//! pulled toward the control point.

use ghost_engine::bezier::{cubic_bezier, quadratic_bezier, cubic_bezier_tangent};
use ghost_engine::geom::Position;

#[test]
fn test_cubic_bezier_endpoints() {
    let p0 = Position { x: 0, y: 0 };
    let p1 = Position { x: 100, y: 100 };
    let p2 = Position { x: 200, y: 100 };
    let p3 = Position { x: 300, y: 0 };

    // At the start of the curve the start point comes back exactly.
    let start = cubic_bezier(p0, p1, p2, p3, 0);
    assert_eq!(start.x, 0);
    assert_eq!(start.y, 0);

    // At the end of the curve the end point comes back exactly.
    let end = cubic_bezier(p0, p1, p2, p3, 1000);
    assert_eq!(end.x, 300);
    assert_eq!(end.y, 0);
}

#[test]
fn test_quadratic_bezier_midpoint() {
    let p0 = Position { x: 0, y: 0 };
    let p1 = Position { x: 50, y: 100 };
    let p2 = Position { x: 100, y: 0 };

    // Halfway along, the curve is pulled toward the control point.
    let mid = quadratic_bezier(p0, p1, p2, 500);
    assert_eq!(mid.x, 50);
    assert_eq!(mid.y, 50);
}

#[test]
fn cubic_tangent_points_along_curve_at_start() {
    let p0 = Position { x: 0, y: 0 };
    let p1 = Position { x: 100, y: 100 };
    let p2 = Position { x: 200, y: 100 };
    let p3 = Position { x: 300, y: 0 };
    let d = cubic_bezier_tangent(p0, p1, p2, p3, 0);
    // The start tangent points from the start toward the first control point.
    assert_eq!(d.x, 300);
    assert_eq!(d.y, 300);
}

#[test]
fn bezier_progress_is_clamped() {
    let p0 = Position { x: 10, y: 20 };
    let p1 = Position { x: 30, y: 40 };
    let p2 = Position { x: 50, y: 60 };
    let p3 = Position { x: 70, y: 80 };
    let before = cubic_bezier(p0, p1, p2, p3, -5);
    let after = cubic_bezier(p0, p1, p2, p3, 2000);
    assert_eq!(before, p0);
    assert_eq!(after, p3);
}
