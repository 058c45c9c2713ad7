use robot_simulator::square::{normalize_quarters, square_leg, Leg, SQUARE_LEG_COUNT};
use robot_simulator::waypoints::{waypoint, Waypoint, WaypointRoute, WAYPOINT_COUNT};

#[test]
fn waypoint_route_starts_at_first_waypoint() {
    let route = WaypointRoute::new();
    assert_eq!(route.current(), Waypoint { x_halves: 2, y_halves: 1, heading_eighths: 3 });
}

#[test]
fn reaching_first_waypoint_moves_to_second() {
    let mut route = WaypointRoute::new();
    assert_eq!(route.target(false), waypoint(0));
    assert_eq!(route.target(true), Waypoint { x_halves: 1, y_halves: 2, heading_eighths: -4 });
    // The cursor stays on the new target until that one is reached.
    assert_eq!(route.target(false), waypoint(1));
    assert_eq!(route.index, 1);
}

#[test]
fn waypoint_route_wraps_around() {
    let mut route = WaypointRoute::new();
    for _ in 0..WAYPOINT_COUNT - 1 {
        route.target(true);
    }
    assert_eq!(route.current(), Waypoint { x_halves: 2, y_halves: -2, heading_eighths: 2 });
    assert_eq!(route.target(true), waypoint(0));
    assert_eq!(route.index, 0);
}

#[test]
fn routes_do_not_share_their_cursor() {
    let mut a = WaypointRoute::new();
    let b = WaypointRoute::new();
    a.target(true);
    assert_eq!(a.index, 1);
    assert_eq!(b.index, 0);
}

#[test]
fn waypoint_headings_lie_in_half_open_turn() {
    for i in 0..WAYPOINT_COUNT {
        let h = waypoint(i).heading_eighths;
        assert!(-4 <= h && h < 4);
    }
    // -π is a valid heading, +π is not used.
    assert_eq!(waypoint(1).heading_eighths, -4);
}

#[test]
fn square_route_starts_at_one_zero_facing_up() {
    let leg = square_leg(0);
    assert_eq!((leg.start_x, leg.start_y), (1, 0));
    assert_eq!(normalize_quarters(leg.heading_quarters), 1);
    assert!(!leg.is_pivot());
}

#[test]
fn square_route_first_corner_starts_a_pivot() {
    // At the end of the first straight the pose is (1, 1, π/2) and the
    // robot starts to turn in place.
    let leg = square_leg(1);
    assert_eq!((leg.start_x, leg.start_y), (1, 1));
    assert_eq!(normalize_quarters(leg.heading_quarters), 1);
    assert!(leg.is_pivot());
}

#[test]
fn square_legs_join_up() {
    for k in 0..SQUARE_LEG_COUNT {
        let a: Leg = square_leg(k);
        let b: Leg = square_leg((k + 1) % SQUARE_LEG_COUNT);
        assert_eq!(a.start_x + a.dir_x * a.length, b.start_x);
        assert_eq!(a.start_y + a.dir_y * a.length, b.start_y);
        assert_eq!((a.heading_quarters + a.turn_quarters) % 4, b.heading_quarters % 4);
    }
}

#[test]
fn square_leg_lengths() {
    let lengths: Vec<i64> = (0..SQUARE_LEG_COUNT).map(|k| square_leg(k).length).collect();
    assert_eq!(lengths, vec![1, 0, 2, 0, 2, 0, 2, 0, 1]);
}

#[test]
fn quarter_turns_normalize_into_half_open_range() {
    assert_eq!(normalize_quarters(0), 0);
    assert_eq!(normalize_quarters(1), 1);
    assert_eq!(normalize_quarters(2), -2);
    assert_eq!(normalize_quarters(3), -1);
    assert_eq!(normalize_quarters(4), 0);
    assert_eq!(normalize_quarters(9), 1);
}

#[test]
fn normalizing_quarters_twice_changes_nothing() {
    for q in 0..12u64 {
        let once = normalize_quarters(q);
        assert_eq!(normalize_quarters((once + 4) as u64), once);
    }
}
