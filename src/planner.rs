//! The exact parts of the dynamic-window planner: its cost weights, its
//! failure rules and the rule that picks the winning candidate.
//!
//! Scores are produced in IEEE-754 double precision by the caller and handed
//! over as their bit patterns. For two doubles `x`, `y` that are not NaN,
//! `x < y` holds exactly when `order_rank` of the bits of `x` is below that of
//! `y`, and `x == y` exactly when the ranks are equal (both zeros have rank 0):
//! the magnitude bits of a double grow with its absolute value.
use vstd::prelude::*;

verus! {

/// Ways in which planning a tick can fail.
#[derive(Clone, Copy, Debug, PartialEq, Eq, Structural)]
pub enum PlanError {
    /// An axis of the dynamic window has its upper bound below its lower one,
    /// or there is no candidate at all.
    EmptyWindow,
    /// A bound or a score is NaN.
    Numerical,
}

/// Weights of the four cost terms, in hundredths.
#[derive(Clone, Copy, Debug, PartialEq, Eq, Structural)]
pub struct CostWeights {
    pub heading: u32,
    pub velocity: u32,
    pub distance: u32,
    pub theta: u32,
}

/// Weights used when the estimate is within reach of the goal.
pub open spec fn near_weights() -> CostWeights {
    CostWeights { heading: 100, velocity: 1, distance: 80, theta: 80 }
}

/// Weights used otherwise.
pub open spec fn far_weights() -> CostWeights {
    CostWeights { heading: 100, velocity: 50, distance: 80, theta: 1 }
}

/// The weights for a tick: the near set exactly when the goal was within
/// reach at the start of the tick, the far set otherwise.
pub fn cost_weights(near: bool) -> (r: CostWeights)
    ensures
        near ==> r == near_weights(),
        !near ==> r == far_weights(),
{
    if near {
        CostWeights { heading: 100, velocity: 1, distance: 80, theta: 80 }
    } else {
        CostWeights { heading: 100, velocity: 50, distance: 80, theta: 1 }
    }
}

pub open spec fn magnitude(b: u64) -> u64 {
    b & 0x7FFF_FFFF_FFFF_FFFFu64
}

pub open spec fn is_negative(b: u64) -> bool {
    (b >> 63u64) == 1u64
}

/// Whether the bit pattern encodes a NaN: all exponent bits set and a
/// fraction that is not zero.
pub open spec fn is_nan(b: u64) -> bool {
    (b & 0x7FF0_0000_0000_0000u64) == 0x7FF0_0000_0000_0000u64 && (b
        & 0x000F_FFFF_FFFF_FFFFu64) != 0u64
}

/// The position of a double in the order of the reals, read off its bits.
pub open spec fn order_rank(b: u64) -> int {
    if is_negative(b) {
        -(magnitude(b) as int)
    } else {
        magnitude(b) as int
    }
}

fn nan_bits(b: u64) -> (r: bool)
    ensures
        r == is_nan(b),
{
    (b & 0x7FF0_0000_0000_0000u64) == 0x7FF0_0000_0000_0000u64 && (b & 0x000F_FFFF_FFFF_FFFFu64)
        != 0u64
}

fn rank_of(b: u64) -> (r: i64)
    ensures
        r as int == order_rank(b),
{
    let m: u64 = b & 0x7FFF_FFFF_FFFF_FFFFu64;
    assert(m <= 0x7FFF_FFFF_FFFF_FFFFu64) by (bit_vector)
        requires
            m == b & 0x7FFF_FFFF_FFFF_FFFFu64,
    ;
    if (b >> 63u64) == 1u64 {
        -(m as i64)
    } else {
        m as i64
    }
}

/// Whether the window with these bounds (bits of doubles) has an axis whose
/// upper bound lies below its lower bound.
pub open spec fn window_is_empty(v_lo: u64, v_hi: u64, w_lo: u64, w_hi: u64) -> bool {
    order_rank(v_hi) < order_rank(v_lo) || order_rank(w_hi) < order_rank(w_lo)
}

/// Checks the bounds of a dynamic window, given as bits of doubles: a NaN
/// bound is a numerical failure; otherwise the window is empty when an axis
/// has its upper bound below its lower one.
pub fn check_window(v_lo: u64, v_hi: u64, w_lo: u64, w_hi: u64) -> (r: Result<(), PlanError>)
    ensures
        r == Err::<(), PlanError>(PlanError::Numerical) <==> (is_nan(v_lo) || is_nan(v_hi)
            || is_nan(w_lo) || is_nan(w_hi)),
        r == Err::<(), PlanError>(PlanError::EmptyWindow) <==> (!is_nan(v_lo) && !is_nan(v_hi)
            && !is_nan(w_lo) && !is_nan(w_hi) && window_is_empty(v_lo, v_hi, w_lo, w_hi)),
{
    if nan_bits(v_lo) || nan_bits(v_hi) || nan_bits(w_lo) || nan_bits(w_hi) {
        Err(PlanError::Numerical)
    } else if rank_of(v_hi) < rank_of(v_lo) || rank_of(w_hi) < rank_of(w_lo) {
        Err(PlanError::EmptyWindow)
    } else {
        Ok(())
    }
}

/// `i` is the first position of a least cost in `costs`.
pub open spec fn is_first_min(costs: Seq<u64>, i: int) -> bool {
    &&& 0 <= i < costs.len()
    &&& forall|j: int| 0 <= j < costs.len() ==> order_rank(costs[i]) <= order_rank(#[trigger] costs[j])
    &&& forall|j: int| 0 <= j < i ==> order_rank(#[trigger] costs[j]) > order_rank(costs[i])
}

/// Picks the candidate of least aggregate cost (costs as bits of doubles);
/// among equal costs the first one wins. No candidate at all is an empty
/// window, and a NaN cost is a numerical failure.
pub fn index_of_min(costs: &Vec<u64>) -> (r: Result<usize, PlanError>)
    ensures
        costs@.len() == 0 <==> r == Err::<usize, PlanError>(PlanError::EmptyWindow),
        (costs@.len() > 0 && exists|j: int| 0 <= j < costs@.len() && is_nan(#[trigger] costs@[j]))
            <==> r == Err::<usize, PlanError>(PlanError::Numerical),
        r is Ok ==> is_first_min(costs@, r->Ok_0 as int),
{
    let n = costs.len();
    if n == 0 {
        return Err(PlanError::EmptyWindow);
    }
    let mut best: usize = 0;
    let mut best_rank: i64 = rank_of(costs[0]);
    let mut i: usize = 0;
    while i < n
        invariant
            n == costs@.len(),
            0 <= best <= i,
            i <= n,
            best < n,
            best_rank as int == order_rank(costs@[best as int]),
            forall|j: int| 0 <= j < i ==> !is_nan(#[trigger] costs@[j]),
            forall|j: int| 0 <= j < i ==> order_rank(costs@[best as int]) <= order_rank(#[trigger] costs@[j]),
            forall|j: int| 0 <= j < best ==> order_rank(#[trigger] costs@[j]) > order_rank(costs@[best as int]),
        decreases n - i,
    {
        let c = costs[i];
        if nan_bits(c) {
            return Err(PlanError::Numerical);
        }
        let rank = rank_of(c);
        if rank < best_rank {
            best = i;
            best_rank = rank;
        }
        i = i + 1;
    }
    Ok(best)
}

/// `lo` and `hi` are positions of a least and of a greatest value of
/// `values` (bits of doubles), NaNs left aside.
pub open spec fn are_extremes(values: Seq<u64>, lo: int, hi: int) -> bool {
    &&& 0 <= lo < values.len()
    &&& 0 <= hi < values.len()
    &&& !is_nan(values[lo])
    &&& !is_nan(values[hi])
    &&& forall|j: int|
        0 <= j < values.len() && !is_nan(#[trigger] values[j]) ==> order_rank(values[lo])
            <= order_rank(values[j]) <= order_rank(values[hi])
}

/// Positions of a least and of a greatest value, NaNs left aside, for
/// scaling a score vector to [0, 1]; `None` when every value is NaN (or there
/// is none). The vector is constant exactly when both positions hold the same
/// value.
pub fn min_max_positions(values: &Vec<u64>) -> (r: Option<(usize, usize)>)
    ensures
        r is None <==> forall|j: int| 0 <= j < values@.len() ==> is_nan(#[trigger] values@[j]),
        r is Some ==> are_extremes(values@, r->Some_0.0 as int, r->Some_0.1 as int),
{
    let n = values.len();
    let mut found = false;
    let mut lo: usize = 0;
    let mut hi: usize = 0;
    let mut lo_rank: i64 = 0;
    let mut hi_rank: i64 = 0;
    let mut i: usize = 0;
    while i < n
        invariant
            n == values@.len(),
            i <= n,
            !found ==> forall|j: int| 0 <= j < i ==> is_nan(#[trigger] values@[j]),
            found ==> lo < n && hi < n && !is_nan(values@[lo as int]) && !is_nan(values@[hi as int]),
            found ==> lo_rank as int == order_rank(values@[lo as int]) && hi_rank as int
                == order_rank(values@[hi as int]),
            found ==> forall|j: int|
                0 <= j < i && !is_nan(#[trigger] values@[j]) ==> order_rank(values@[lo as int])
                    <= order_rank(values@[j]) <= order_rank(values@[hi as int]),
        decreases n - i,
    {
        let b = values[i];
        if !nan_bits(b) {
            let rank = rank_of(b);
            if !found {
                found = true;
                lo = i;
                hi = i;
                lo_rank = rank;
                hi_rank = rank;
            } else {
                if rank < lo_rank {
                    lo = i;
                    lo_rank = rank;
                }
                if rank > hi_rank {
                    hi = i;
                    hi_rank = rank;
                }
            }
        }
        i = i + 1;
    }
    if found {
        Some((lo, hi))
    } else {
        None
    }
}

/// Whether two doubles (as bits, neither NaN) are equal as numbers.
pub fn same_value(a: u64, b: u64) -> (r: bool)
    ensures
        r == (order_rank(a) == order_rank(b)),
{
    rank_of(a) == rank_of(b)
}

/// The candidate of least cost, the first one among equals, or why there is
/// none: `costs[i]` is the cost (bits of a double) of `candidates[i]`.
pub fn select_candidate<T: Copy>(candidates: &Vec<T>, costs: &Vec<u64>) -> (r: Result<T, PlanError>)
    requires
        candidates@.len() == costs@.len(),
    ensures
        costs@.len() == 0 <==> r == Err::<T, PlanError>(PlanError::EmptyWindow),
        (costs@.len() > 0 && exists|j: int| 0 <= j < costs@.len() && is_nan(#[trigger] costs@[j]))
            <==> r == Err::<T, PlanError>(PlanError::Numerical),
        r is Ok ==> exists|i: int| is_first_min(costs@, i) && r->Ok_0 == candidates@[i],
        r is Ok || r == Err::<T, PlanError>(PlanError::EmptyWindow) || r == Err::<T, PlanError>(
            PlanError::Numerical),
{
    match index_of_min(costs) {
        Ok(i) => Ok(candidates[i]),
        Err(e) => Err(e),
    }
}

} // verus!
