//! Kinematic envelopes of the robot, held exactly in hundredths of SI units.
use vstd::prelude::*;

verus! {

/// Velocity and acceleration limits, in hundredths: m/s, rad/s, m/s², rad/s².
#[derive(Clone, Copy, Debug, PartialEq, Eq, Structural)]
pub struct Envelope {
    pub v_max: i64,
    pub v_min: i64,
    pub omega_max: i64,
    pub omega_min: i64,
    pub lin_acc_max: i64,
    pub ang_acc_max: i64,
}

/// vmax 2.0, vmin -0.2, ωmax 1.5, ωmin -1.5, amax 2.5, αmax 2.5.
pub open spec fn default_envelope() -> Envelope {
    Envelope {
        v_max: 200,
        v_min: -20i64,
        omega_max: 150,
        omega_min: -150i64,
        lin_acc_max: 250,
        ang_acc_max: 250,
    }
}

/// `near` is `base` with its linear velocities scaled by `lin` tenths, its
/// angular velocities by `ang` tenths and its accelerations by `acc` tenths.
pub open spec fn scaled_by_tenths(near: Envelope, base: Envelope, lin: int, ang: int, acc: int) -> bool {
    &&& 10 * near.v_max == lin * base.v_max
    &&& 10 * near.v_min == lin * base.v_min
    &&& 10 * near.omega_max == ang * base.omega_max
    &&& 10 * near.omega_min == ang * base.omega_min
    &&& 10 * near.lin_acc_max == acc * base.lin_acc_max
    &&& 10 * near.ang_acc_max == acc * base.ang_acc_max
}

/// The envelope close to a waypoint: linear velocities ×0.1, angular
/// velocities ×0.8, accelerations ×0.8 of the defaults.
pub open spec fn near_waypoint_envelope() -> Envelope {
    Envelope {
        v_max: 20,
        v_min: -2i64,
        omega_max: 120,
        omega_min: -120i64,
        lin_acc_max: 200,
        ang_acc_max: 200,
    }
}

impl Envelope {
    pub open spec fn is_ordered(&self) -> bool {
        self.v_min <= 0 <= self.v_max && self.omega_min <= 0 <= self.omega_max && self.lin_acc_max
            >= 0 && self.ang_acc_max >= 0
    }

    /// The default limits.
    pub fn defaults() -> (r: Envelope)
        ensures
            r == default_envelope(),
            r.is_ordered(),
    {
        Envelope {
            v_max: 200,
            v_min: -20,
            omega_max: 150,
            omega_min: -150,
            lin_acc_max: 250,
            ang_acc_max: 250,
        }
    }

    /// The limits close to a waypoint, scaled down from the defaults.
    pub fn near_waypoint() -> (r: Envelope)
        ensures
            r == near_waypoint_envelope(),
            scaled_by_tenths(r, default_envelope(), 1, 8, 8),
            r.is_ordered(),
    {
        let base = Envelope::defaults();
        Envelope {
            v_max: base.v_max / 10,
            v_min: base.v_min / 10,
            omega_max: base.omega_max * 8 / 10,
            omega_min: base.omega_min * 8 / 10,
            lin_acc_max: base.lin_acc_max * 8 / 10,
            ang_acc_max: base.ang_acc_max * 8 / 10,
        }
    }
}

} // verus!
