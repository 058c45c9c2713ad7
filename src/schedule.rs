//! Tick timing: the clock that yields the time step and the elapsed time of
//! each tick, and the periodic schedule whose missed edges are coalesced.
use vstd::prelude::*;

verus! {

/// Time step and elapsed time of one tick, in nanoseconds.
#[derive(Clone, Copy, Debug, PartialEq, Eq, Structural)]
pub struct TickTimes {
    /// Time since the previous tick (or since the start, on the first tick).
    pub delta_ns: u64,
    /// Time since the clock was started.
    pub elapsed_ns: u64,
}

/// The difference `a - b`, or zero when `b` is later than `a`.
pub open spec fn elapsed_between(b: u64, a: u64) -> u64 {
    if a >= b { (a - b) as u64 } else { 0 }
}

/// Monotonic clock readings kept by the filter: when it started and when it
/// last ticked. Readings are nanoseconds from an origin chosen by the caller.
#[derive(Clone, Copy, Debug)]
pub struct TickClock {
    pub start_ns: u64,
    pub last_ns: u64,
}

impl TickClock {
    pub open spec fn wf(&self) -> bool {
        self.start_ns <= self.last_ns
    }

    /// A clock started at `now_ns`, which also counts as its last tick.
    pub fn new(now_ns: u64) -> (r: TickClock)
        ensures
            r.wf(),
            r.start_ns == now_ns,
            r.last_ns == now_ns,
    {
        TickClock { start_ns: now_ns, last_ns: now_ns }
    }

    /// Records a tick at `now_ns` and returns its time step and the time
    /// elapsed since the start. A reading earlier than the last one (a clock
    /// that did not advance) gives a zero step and leaves the clock as it was.
    pub fn tick(&mut self, now_ns: u64) -> (r: TickTimes)
        requires
            old(self).wf(),
        ensures
            final(self).wf(),
            r.delta_ns == elapsed_between(old(self).last_ns, now_ns),
            r.elapsed_ns == elapsed_between(old(self).start_ns, now_ns),
            final(self).start_ns == old(self).start_ns,
            final(self).last_ns == if now_ns >= old(self).last_ns {
                now_ns
            } else {
                old(self).last_ns
            },
    {
        let delta_ns: u64 = if now_ns >= self.last_ns { now_ns - self.last_ns } else { 0 };
        let elapsed_ns: u64 = if now_ns >= self.start_ns { now_ns - self.start_ns } else { 0 };
        if now_ns >= self.last_ns {
            self.last_ns = now_ns;
        }
        TickTimes { delta_ns, elapsed_ns }
    }
}

/// The first edge of the periodic schedule (multiples of `period_ns`, counted
/// from the schedule's origin) that lies strictly after `now_ns`. A caller that
/// fell behind by several periods is given the next edge, never a burst of the
/// edges it missed.
pub fn next_tick_edge(period_ns: u64, now_ns: u64) -> (r: u64)
    requires
        period_ns > 0,
        now_ns + period_ns <= u64::MAX,
    ensures
        r % period_ns == 0,
        now_ns < r <= now_ns + period_ns,
{
    let k: u64 = now_ns / period_ns;
    proof {
        lemma_next_multiple(period_ns as int, now_ns as int);
    }
    (k + 1) * period_ns
}

proof fn lemma_next_multiple(p: int, n: int)
    requires
        p > 0,
        n >= 0,
    ensures
        n < (n / p + 1) * p <= n + p,
        ((n / p + 1) * p) % p == 0,
{
    vstd::arithmetic::div_mod::lemma_fundamental_div_mod(n, p);
    vstd::arithmetic::div_mod::lemma_mod_multiples_basic(n / p + 1, p);
    assert((n / p + 1) * p == (n / p) * p + p) by (nonlinear_arith);
    assert(p * (n / p) == (n / p) * p) by (nonlinear_arith);
}

} // verus!
