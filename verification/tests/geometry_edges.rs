use gesture_gate::edge::Edge;
use gesture_gate::edge::EdgeFlags;
use gesture_gate::edge::edge_of;
use gesture_gate::geom::LogicalPoint;
use gesture_gate::geom::clamp_coord;
use gesture_gate::geom::to_logical;

#[test]
fn each_border_is_detected() {
    assert_eq!(edge_of(LogicalPoint { x: 5, y: 500 }, 1000, 1000), Some(Edge::Left));
    assert_eq!(edge_of(LogicalPoint { x: 995, y: 500 }, 1000, 1000), Some(Edge::Right));
    assert_eq!(edge_of(LogicalPoint { x: 500, y: 3 }, 1000, 1000), Some(Edge::Top));
    assert_eq!(edge_of(LogicalPoint { x: 500, y: 997 }, 1000, 1000), Some(Edge::Bottom));
    assert_eq!(edge_of(LogicalPoint { x: 500, y: 500 }, 1000, 1000), None);
}

#[test]
fn tolerance_boundary_is_inclusive() {
    assert_eq!(edge_of(LogicalPoint { x: 10, y: 500 }, 1000, 1000), Some(Edge::Left));
    assert_eq!(edge_of(LogicalPoint { x: 11, y: 500 }, 1000, 1000), None);
    assert_eq!(edge_of(LogicalPoint { x: 500, y: 990 }, 1000, 1000), Some(Edge::Bottom));
    assert_eq!(edge_of(LogicalPoint { x: 500, y: 989 }, 1000, 1000), None);
}

#[test]
fn corners_report_the_vertical_border_first() {
    assert_eq!(edge_of(LogicalPoint { x: 5, y: 5 }, 1000, 1000), Some(Edge::Left));
    assert_eq!(edge_of(LogicalPoint { x: 995, y: 995 }, 1000, 1000), Some(Edge::Right));
}

#[test]
fn edge_flags_are_sticky() {
    let mut f = EdgeFlags::clear();
    assert!(!f.top && !f.bottom && !f.left && !f.right);
    f.set(Edge::Top);
    f.set(Edge::Left);
    f.set(Edge::Top);
    assert!(f.top && f.left && !f.bottom && !f.right);
    assert!(!f.check_all_set());
    f.set(Edge::Bottom);
    f.set(Edge::Right);
    assert!(f.check_all_set());
}

#[test]
fn physical_coordinates_scale_into_logical_ones() {
    assert_eq!(to_logical(500, 2000, 1000), 250);
    assert_eq!(to_logical(0, 2000, 1000), 0);
    assert_eq!(to_logical(2000, 2000, 1000), 1000);
    assert_eq!(to_logical(1999, 2000, 1000), 999);
    assert_eq!(to_logical(3, 3840, 1920), 1);
}

#[test]
fn clamping_pins_coordinates_to_the_screen() {
    assert_eq!(clamp_coord(-7, 100), 0);
    assert_eq!(clamp_coord(0, 100), 0);
    assert_eq!(clamp_coord(55, 100), 55);
    assert_eq!(clamp_coord(100, 100), 100);
    assert_eq!(clamp_coord(101, 100), 100);
}
