//! The square route: nine legs around the square with corners at (±1, ±1),
//! starting at (1, 0) facing +y, alternating straight runs and pivots.
use vstd::prelude::*;

verus! {

pub const SQUARE_LEG_COUNT: usize = 9;

/// One leg of the square route. Positions are in meters, the direction of
/// travel is a unit axis vector (zero for a pivot), headings are counted in
/// quarter turns (π/2). A straight leg keeps its heading; a pivot stands at a
/// corner and turns by one quarter.
#[derive(Clone, Copy, Debug, PartialEq, Eq, Structural)]
pub struct Leg {
    pub start_x: i64,
    pub start_y: i64,
    pub dir_x: i64,
    pub dir_y: i64,
    pub length: i64,
    pub heading_quarters: u64,
    pub turn_quarters: u64,
}

pub open spec fn leg_at(k: int) -> Leg {
    if k == 0 {
        Leg { start_x: 1, start_y: 0, dir_x: 0, dir_y: 1, length: 1, heading_quarters: 1, turn_quarters: 0 }
    } else if k == 1 {
        Leg { start_x: 1, start_y: 1, dir_x: 0, dir_y: 0, length: 0, heading_quarters: 1, turn_quarters: 1 }
    } else if k == 2 {
        Leg { start_x: 1, start_y: 1, dir_x: -1i64, dir_y: 0, length: 2, heading_quarters: 2, turn_quarters: 0 }
    } else if k == 3 {
        Leg { start_x: -1i64, start_y: 1, dir_x: 0, dir_y: 0, length: 0, heading_quarters: 2, turn_quarters: 1 }
    } else if k == 4 {
        Leg { start_x: -1i64, start_y: 1, dir_x: 0, dir_y: -1i64, length: 2, heading_quarters: 3, turn_quarters: 0 }
    } else if k == 5 {
        Leg { start_x: -1i64, start_y: -1i64, dir_x: 0, dir_y: 0, length: 0, heading_quarters: 3, turn_quarters: 1 }
    } else if k == 6 {
        Leg { start_x: -1i64, start_y: -1i64, dir_x: 1, dir_y: 0, length: 2, heading_quarters: 0, turn_quarters: 0 }
    } else if k == 7 {
        Leg { start_x: 1, start_y: -1i64, dir_x: 0, dir_y: 0, length: 0, heading_quarters: 0, turn_quarters: 1 }
    } else {
        Leg { start_x: 1, start_y: -1i64, dir_x: 0, dir_y: 1, length: 1, heading_quarters: 1, turn_quarters: 0 }
    }
}

impl Leg {
    pub open spec fn end_x(&self) -> int {
        self.start_x + self.dir_x * self.length
    }

    pub open spec fn end_y(&self) -> int {
        self.start_y + self.dir_y * self.length
    }

    pub open spec fn end_heading(&self) -> int {
        self.heading_quarters + self.turn_quarters
    }

    /// A straight run along an axis without turning, or a quarter-turn pivot
    /// in place.
    pub open spec fn is_straight_or_pivot(&self) -> bool {
        ||| (self.turn_quarters == 0 && self.length > 0 && (self.dir_x == 0) != (self.dir_y == 0)
            && -1 <= self.dir_x <= 1 && -1 <= self.dir_y <= 1)
        ||| (self.turn_quarters == 1 && self.length == 0 && self.dir_x == 0 && self.dir_y == 0)
    }

    /// Whether the leg pivots in place.
    pub fn is_pivot(&self) -> (r: bool)
        ensures
            r == (self.turn_quarters > 0),
    {
        self.turn_quarters > 0
    }
}

/// Leg `k` of the square route.
pub fn square_leg(k: usize) -> (r: Leg)
    requires
        k < SQUARE_LEG_COUNT,
    ensures
        r == leg_at(k as int),
        r.is_straight_or_pivot(),
        r.heading_quarters < 4,
{
    if k == 0 {
        Leg { start_x: 1, start_y: 0, dir_x: 0, dir_y: 1, length: 1, heading_quarters: 1, turn_quarters: 0 }
    } else if k == 1 {
        Leg { start_x: 1, start_y: 1, dir_x: 0, dir_y: 0, length: 0, heading_quarters: 1, turn_quarters: 1 }
    } else if k == 2 {
        Leg { start_x: 1, start_y: 1, dir_x: -1, dir_y: 0, length: 2, heading_quarters: 2, turn_quarters: 0 }
    } else if k == 3 {
        Leg { start_x: -1, start_y: 1, dir_x: 0, dir_y: 0, length: 0, heading_quarters: 2, turn_quarters: 1 }
    } else if k == 4 {
        Leg { start_x: -1, start_y: 1, dir_x: 0, dir_y: -1, length: 2, heading_quarters: 3, turn_quarters: 0 }
    } else if k == 5 {
        Leg { start_x: -1, start_y: -1, dir_x: 0, dir_y: 0, length: 0, heading_quarters: 3, turn_quarters: 1 }
    } else if k == 6 {
        Leg { start_x: -1, start_y: -1, dir_x: 1, dir_y: 0, length: 2, heading_quarters: 0, turn_quarters: 0 }
    } else if k == 7 {
        Leg { start_x: 1, start_y: -1, dir_x: 0, dir_y: 0, length: 0, heading_quarters: 0, turn_quarters: 1 }
    } else {
        Leg { start_x: 1, start_y: -1, dir_x: 0, dir_y: 1, length: 1, heading_quarters: 1, turn_quarters: 0 }
    }
}

/// The route is one closed, continuous loop: every leg ends where the next
/// one starts, with the same heading (up to whole turns), and the last leg
/// ends where the first one starts.
pub proof fn lemma_square_route_closed(k: int)
    requires
        0 <= k < SQUARE_LEG_COUNT,
    ensures
        leg_at(k).end_x() == leg_at((k + 1) % (SQUARE_LEG_COUNT as int)).start_x,
        leg_at(k).end_y() == leg_at((k + 1) % (SQUARE_LEG_COUNT as int)).start_y,
        leg_at(k).end_heading() % 4 == leg_at((k + 1) % (SQUARE_LEG_COUNT as int)).heading_quarters
            % 4,
{
}

/// The heading of `q` quarter turns, normalized to [-π, π): a number of
/// quarter turns in [-2, 2) that differs from `q` by whole turns.
pub open spec fn normalized_quarters(q: int) -> int {
    if q % 4 >= 2 {
        q % 4 - 4
    } else {
        q % 4
    }
}

/// Normalizes a heading of `q` quarter turns to [-2, 2) quarter turns, that
/// is to [-π, π).
pub fn normalize_quarters(q: u64) -> (r: i64)
    ensures
        r == normalized_quarters(q as int),
        -2 <= r < 2,
        (r - q) % 4 == 0,
{
    let m: u64 = q % 4;
    if m >= 2 {
        m as i64 - 4
    } else {
        m as i64
    }
}

/// Normalizing a normalized heading changes nothing.
pub proof fn lemma_normalize_quarters_idempotent(q: int)
    ensures
        normalized_quarters(normalized_quarters(q)) == normalized_quarters(q),
{
}

} // verus!
