//! A simple PI servo controller for a pneumatic muscle cylinder.
//!
//! The controller keeps an accumulator that integrates the tracking error
//! since the last setpoint change. All quantities are fixed-point micro-units
//! (see [`crate::units`]): the setpoint and the measurement are positions in
//! [0, [`UNIT`]], the gains are micro-unit multipliers, and the returned
//! control signal lands in the finer product scale where
//! [`crate::units::SIGNAL_UNIT`] stands for one.

use vstd::prelude::*;

use crate::units::{clamp_unit, clamp_unit_spec, sat64, sat_add64, sat_mul64, sat_sub64, UNIT};

verus! {

/// The gains and the controller type you'd like: proportional-only, or
/// proportional-integral.
pub enum ControlGains {
    P(i64),
    PI(i64, i64),
}

impl ControlGains {
    /// The proportional gain carried by this choice of gains.
    pub open spec fn proportional_gain(self) -> i64 {
        match self {
            ControlGains::P(k_p) => k_p,
            ControlGains::PI(k_p, _) => k_p,
        }
    }

    /// The integral gain carried by this choice of gains: zero for a
    /// proportional-only controller.
    pub open spec fn integral_gain(self) -> i64 {
        match self {
            ControlGains::P(_) => 0,
            ControlGains::PI(_, k_i) => k_i,
        }
    }
}

/// A stateful PI control law: regulates a measured position toward a
/// setpoint, integrating the tracking error since the last setpoint change.
pub struct CylinderPositionController {
    pub k_p: i64,
    pub k_i: i64,
    pub setpoint: i64,
    pub error_accumulator: i64,
}

impl CylinderPositionController {
    /// The state a controller holds right after construction from `gains` and
    /// `setpoint`: the accumulator is zero and the setpoint is taken as given.
    pub open spec fn initial(gains: ControlGains, setpoint: i64) -> Self {
        CylinderPositionController {
            k_p: gains.proportional_gain(),
            k_i: gains.integral_gain(),
            setpoint,
            error_accumulator: 0,
        }
    }

    /// The tracking error a call of `control_signal` with this state and
    /// `measurement` works with: setpoint minus measurement, saturated.
    pub open spec fn error_term(self, measurement: int) -> int {
        sat64(self.setpoint - measurement)
    }

    /// The accumulator value after one call of `control_signal` with this
    /// state and `measurement`.
    pub open spec fn accumulated(self, measurement: int) -> int {
        sat64(self.error_accumulator + self.error_term(measurement))
    }

    /// The control signal one call of `control_signal` with this state and
    /// `measurement` returns: `k_p` times the error plus `k_i` times the
    /// updated accumulator, each step saturated at the 64-bit range.
    pub open spec fn signal(self, measurement: int) -> int {
        sat64(
            sat64(self.k_p * self.error_term(measurement)) + sat64(
                self.k_i * self.accumulated(measurement),
            ),
        )
    }

    /// The state after one call of `control_signal` with `measurement`: only
    /// the accumulator moves.
    pub open spec fn after_signal(self, measurement: int) -> Self {
        CylinderPositionController { error_accumulator: self.accumulated(measurement) as i64, ..self }
    }

    /// The state after a call of `new_setpoint` with `setpoint`: the setpoint
    /// is clamped into [0, [`UNIT`]] and the accumulator is reset.
    pub open spec fn after_new_setpoint(self, setpoint: int) -> Self {
        CylinderPositionController {
            setpoint: clamp_unit_spec(setpoint) as i64,
            error_accumulator: 0,
            ..self
        }
    }

    /// Generate a controller that regulates toward `setpoint`.
    ///
    /// The setpoint is taken as given, not clamped; the accumulator starts at
    /// zero. The gains should be selected with some degree of intelligence to
    /// get reasonable results.
    pub fn new(gains: ControlGains, setpoint: i64) -> (controller: Self)
        ensures
            controller == Self::initial(gains, setpoint),
    {
        let (k_p, k_i): (i64, i64) = match gains {
            ControlGains::P(k_p) => (k_p, 0),
            ControlGains::PI(k_p, k_i) => (k_p, k_i),
        };
        Self { k_p, k_i, setpoint, error_accumulator: 0 }
    }

    /// This aims the controller to regulate toward a new value, clamped into
    /// [0, [`UNIT`]].
    ///
    /// As a side-effect, it resets the integration accumulator: integral
    /// memory built under a different target is not meaningful to the new
    /// one. Returns a mutable reference to allow call chaining.
    pub fn new_setpoint(&mut self, setpoint: i64) -> (controller: &mut Self)
        ensures
            *controller == old(self).after_new_setpoint(setpoint as int),
            0 <= controller.setpoint <= UNIT,
            *final(self) == *final(controller),
    {
        self.setpoint = clamp_unit(setpoint);
        self.error_accumulator = 0;
        self
    }

    /// Generate a control signal with a PI controller.
    ///
    /// It's assumed, but not enforced, that the measurement signal is in the
    /// interval [0, [`UNIT`]]. The error is accumulated unconditionally, even
    /// for a proportional-only controller, where the zero integral gain
    /// renders the accumulation inert. No output clamping or anti-windup is
    /// performed beyond saturation at the 64-bit range.
    pub fn control_signal(&mut self, measurement_signal: i64) -> (control: i64)
        ensures
            *final(self) == old(self).after_signal(measurement_signal as int),
            control as int == old(self).signal(measurement_signal as int),
    {
        let error: i64 = sat_sub64(self.setpoint, measurement_signal);
        self.error_accumulator = sat_add64(self.error_accumulator, error);
        sat_add64(sat_mul64(self.k_p, error), sat_mul64(self.k_i, self.error_accumulator))
    }

    /// The signals a run of `control_signal` calls over `measurements`
    /// returns, one state threading into the next.
    pub open spec fn signal_trace(self, measurements: Seq<int>) -> Seq<int>
        decreases measurements.len(),
    {
        if measurements.len() == 0 {
            Seq::empty()
        } else {
            seq![self.signal(measurements[0])] + self.after_signal(measurements[0]).signal_trace(
                measurements.subrange(1, measurements.len() as int),
            )
        }
    }
}

/// Away from saturation, one call of `control_signal` computes exactly the
/// textbook PI law: the gains times the tracking error and the accumulated
/// error, over the mathematical integers.
pub proof fn lemma_signal_is_pi_law(c: CylinderPositionController, measurement: int)
    requires
        i64::MIN as int <= c.setpoint - measurement <= i64::MAX as int,
        i64::MIN as int <= c.error_accumulator + (c.setpoint - measurement) <= i64::MAX as int,
        i64::MIN as int <= c.k_p * (c.setpoint - measurement) <= i64::MAX as int,
        i64::MIN as int <= c.k_i * (c.error_accumulator + (c.setpoint - measurement))
            <= i64::MAX as int,
        i64::MIN as int <= c.k_p * (c.setpoint - measurement) + c.k_i * (c.error_accumulator + (
        c.setpoint - measurement)) <= i64::MAX as int,
    ensures
        c.accumulated(measurement) == c.error_accumulator + (c.setpoint - measurement),
        c.signal(measurement) == c.k_p * (c.setpoint - measurement) + c.k_i * (
        c.error_accumulator + (c.setpoint - measurement)),
{
}

/// A proportional-only controller measured exactly at its setpoint returns a
/// control signal of exactly zero, whatever the setpoint and whatever error
/// it has accumulated before.
pub proof fn lemma_proportional_zero_at_setpoint(c: CylinderPositionController)
    requires
        c.k_i == 0,
    ensures
        c.signal(c.setpoint as int) == 0,
{
    assert(c.error_term(c.setpoint as int) == 0);
    assert(c.k_p * c.error_term(c.setpoint as int) == 0);
    assert(c.k_i * c.accumulated(c.setpoint as int) == 0);
}

/// Direction correctness of a proportional-only controller with a positive
/// gain: a measurement below the setpoint drives the signal strictly
/// positive (toward increasing position), one above drives it strictly
/// negative.
pub proof fn lemma_proportional_direction(c: CylinderPositionController, measurement: int)
    requires
        c.k_i == 0,
        c.k_p > 0,
    ensures
        measurement < c.setpoint ==> c.signal(measurement) > 0,
        measurement > c.setpoint ==> c.signal(measurement) < 0,
{
    let error = c.error_term(measurement);
    if measurement < c.setpoint {
        assert(c.k_p * error >= 1) by (nonlinear_arith)
            requires
                c.k_p >= 1,
                error >= 1,
        ;
    }
    if measurement > c.setpoint {
        assert(c.k_p * error <= -1) by (nonlinear_arith)
            requires
                c.k_p >= 1,
                error <= -1,
        ;
    }
}

/// A proportional-only controller carries no state from call to call: its
/// signal does not depend on the accumulated error, so repeated calls with
/// one input keep returning one value.
pub proof fn lemma_proportional_ignores_accumulator(
    c1: CylinderPositionController,
    c2: CylinderPositionController,
    measurement: int,
)
    requires
        c1.k_i == 0,
        c2.k_i == 0,
        c1.k_p == c2.k_p,
        c1.setpoint == c2.setpoint,
    ensures
        c1.signal(measurement) == c2.signal(measurement),
{
}

/// Away from saturation, the signal of a proportional-only controller scales
/// linearly with the proportional gain, for a fixed error.
pub proof fn lemma_signal_scales_with_proportional_gain(
    c1: CylinderPositionController,
    c2: CylinderPositionController,
    measurement: int,
    k: int,
)
    requires
        c1.k_i == 0,
        c2.k_i == 0,
        c1.setpoint == c2.setpoint,
        k >= 0,
        c2.k_p == k * c1.k_p,
        -(i64::MAX as int) <= c1.k_p * c1.error_term(measurement) <= i64::MAX as int,
        -(i64::MAX as int) <= k * (c1.k_p * c1.error_term(measurement)) <= i64::MAX as int,
    ensures
        c2.signal(measurement) == k * c1.signal(measurement),
{
    let error = c1.error_term(measurement);
    assert((k * c1.k_p) * error == k * (c1.k_p * error)) by (nonlinear_arith);
}

/// Away from saturation, the integral contribution scales linearly with the
/// integral gain, for a fixed accumulated error: shown on controllers whose
/// proportional term is switched off.
pub proof fn lemma_signal_scales_with_integral_gain(
    c1: CylinderPositionController,
    c2: CylinderPositionController,
    measurement: int,
    k: int,
)
    requires
        c1.k_p == 0,
        c2.k_p == 0,
        c1.setpoint == c2.setpoint,
        c1.error_accumulator == c2.error_accumulator,
        k >= 0,
        c2.k_i == k * c1.k_i,
        -(i64::MAX as int) <= c1.k_i * c1.accumulated(measurement) <= i64::MAX as int,
        -(i64::MAX as int) <= k * (c1.k_i * c1.accumulated(measurement)) <= i64::MAX as int,
    ensures
        c2.signal(measurement) == k * c1.signal(measurement),
{
    let accumulated = c1.accumulated(measurement);
    assert((k * c1.k_i) * accumulated == k * (c1.k_i * accumulated)) by (nonlinear_arith);
}

/// Away from saturation, the signal of a proportional-only controller is
/// linear in the tracking error: a measurement whose error is `k` times as
/// large yields a signal `k` times as large. Repeated calls need no care
/// here: for a proportional-only controller no state carries over.
pub proof fn lemma_proportional_error_linearity(
    c: CylinderPositionController,
    measurement1: int,
    measurement2: int,
    k: int,
)
    requires
        c.k_i == 0,
        k >= 0,
        c.setpoint - measurement2 == k * (c.setpoint - measurement1),
        i64::MIN as int <= c.setpoint - measurement1 <= i64::MAX as int,
        i64::MIN as int <= c.setpoint - measurement2 <= i64::MAX as int,
        -(i64::MAX as int) <= c.k_p * (c.setpoint - measurement1) <= i64::MAX as int,
        -(i64::MAX as int) <= k * (c.k_p * (c.setpoint - measurement1)) <= i64::MAX as int,
    ensures
        c.signal(measurement2) == k * c.signal(measurement1),
{
    assert(c.k_p * (k * (c.setpoint - measurement1)) == k * (c.k_p * (c.setpoint
        - measurement1))) by (nonlinear_arith);
}

/// `new_setpoint` erases all history: two controllers with identical gains
/// land in one and the same state after aiming at one new setpoint, whatever
/// their prior setpoints and accumulated errors.
pub proof fn lemma_new_setpoint_resets_history(
    c1: CylinderPositionController,
    c2: CylinderPositionController,
    setpoint: int,
)
    requires
        c1.k_p == c2.k_p,
        c1.k_i == c2.k_i,
    ensures
        c1.after_new_setpoint(setpoint) == c2.after_new_setpoint(setpoint),
{
}

/// A controller aimed at an in-range setpoint through `new_setpoint` is in
/// exactly the state of a controller freshly constructed at that setpoint
/// with the same gains.
pub proof fn lemma_new_setpoint_like_fresh(
    c: CylinderPositionController,
    gains: ControlGains,
    setpoint: i64,
)
    requires
        c.k_p == gains.proportional_gain(),
        c.k_i == gains.integral_gain(),
        0 <= setpoint <= UNIT,
    ensures
        c.after_new_setpoint(setpoint as int) == CylinderPositionController::initial(
            gains,
            setpoint,
        ),
{
}

/// After aiming two controllers with identical gains at one setpoint, any
/// subsequent identical sequence of measurements yields identical signals,
/// whatever the two controllers went through before.
pub proof fn lemma_reset_controllers_match(
    c1: CylinderPositionController,
    c2: CylinderPositionController,
    setpoint: int,
    measurements: Seq<int>,
)
    requires
        c1.k_p == c2.k_p,
        c1.k_i == c2.k_i,
    ensures
        c1.after_new_setpoint(setpoint).signal_trace(measurements) == c2.after_new_setpoint(
            setpoint,
        ).signal_trace(measurements),
{
    lemma_new_setpoint_resets_history(c1, c2, setpoint);
}

/// The setpoint lands in [0, [`UNIT`]] after `new_setpoint`, even when the
/// given value lies outside that range.
pub proof fn lemma_setpoint_always_clamped(c: CylinderPositionController, setpoint: int)
    ensures
        0 <= c.after_new_setpoint(setpoint).setpoint <= UNIT,
{
}

} // verus!
