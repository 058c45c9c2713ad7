//! The waypoint route: five fixed target poses visited in a cycle.
use vstd::prelude::*;

verus! {

pub const WAYPOINT_COUNT: usize = 5;

/// A target pose held exactly: position in halves of a meter, heading in
/// eighths of a turn (multiples of π/4).
#[derive(Clone, Copy, Debug, PartialEq, Eq, Structural)]
pub struct Waypoint {
    pub x_halves: i64,
    pub y_halves: i64,
    pub heading_eighths: i64,
}

/// (1, 0.5, 3π/4), (0.5, 1, -π), (-0.5, 1, -π/2), (-0.5, -1, 0), (1, -1, π/2).
pub open spec fn waypoint_at(i: int) -> Waypoint {
    if i == 0 {
        Waypoint { x_halves: 2, y_halves: 1, heading_eighths: 3 }
    } else if i == 1 {
        Waypoint { x_halves: 1, y_halves: 2, heading_eighths: -4i64 }
    } else if i == 2 {
        Waypoint { x_halves: -1i64, y_halves: 2, heading_eighths: -2i64 }
    } else if i == 3 {
        Waypoint { x_halves: -1i64, y_halves: -2i64, heading_eighths: 0 }
    } else {
        Waypoint { x_halves: 2, y_halves: -2i64, heading_eighths: 2 }
    }
}

/// A heading of `k` eighths of a turn lies in [-π, π).
pub open spec fn heading_normalized(w: Waypoint) -> bool {
    -4 <= w.heading_eighths < 4
}

/// The waypoint at position `i` of the route.
pub fn waypoint(i: usize) -> (r: Waypoint)
    requires
        i < WAYPOINT_COUNT,
    ensures
        r == waypoint_at(i as int),
        heading_normalized(r),
{
    if i == 0 {
        Waypoint { x_halves: 2, y_halves: 1, heading_eighths: 3 }
    } else if i == 1 {
        Waypoint { x_halves: 1, y_halves: 2, heading_eighths: -4 }
    } else if i == 2 {
        Waypoint { x_halves: -1, y_halves: 2, heading_eighths: -2 }
    } else if i == 3 {
        Waypoint { x_halves: -1, y_halves: -2, heading_eighths: 0 }
    } else {
        Waypoint { x_halves: 2, y_halves: -2, heading_eighths: 2 }
    }
}

/// Which waypoint of the route is the current target. Each route has its own
/// cursor, which only moves forward, cyclically.
#[derive(Clone, Copy, Debug, PartialEq, Eq, Structural)]
pub struct WaypointRoute {
    pub index: usize,
}

impl WaypointRoute {
    pub open spec fn wf(&self) -> bool {
        self.index < WAYPOINT_COUNT
    }

    /// A route aimed at its first waypoint.
    pub fn new() -> (r: WaypointRoute)
        ensures
            r.wf(),
            r.index == 0,
    {
        WaypointRoute { index: 0 }
    }

    /// The waypoint currently aimed at.
    pub fn current(&self) -> (r: Waypoint)
        requires
            self.wf(),
        ensures
            r == waypoint_at(self.index as int),
            heading_normalized(r),
    {
        waypoint(self.index)
    }

    /// The target for this tick. When the current waypoint has been reached
    /// (within distance and heading tolerance of the estimate), the cursor
    /// first moves on to the next waypoint, cyclically.
    pub fn target(&mut self, reached: bool) -> (r: Waypoint)
        requires
            old(self).wf(),
        ensures
            final(self).wf(),
            reached ==> final(self).index == (old(self).index + 1) % (WAYPOINT_COUNT as int),
            !reached ==> final(self).index == old(self).index,
            r == waypoint_at(final(self).index as int),
            heading_normalized(r),
    {
        if reached {
            self.index = (self.index + 1) % WAYPOINT_COUNT;
        }
        waypoint(self.index)
    }
}

} // verus!
