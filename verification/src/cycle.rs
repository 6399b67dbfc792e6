//! The per-cycle decision step of the control loop.
//!
//! Once per fixed period the loop around this library polls the shutdown
//! flag, exchanges the raw process data with the fieldbus, drains the
//! setpoint mailbox and extracts the sensor word; this module holds the
//! decision that follows. It applies a drained setpoint change, computes the
//! control signal — substituting an exactly neutral signal when the sample is
//! missing or undecodable, a fail-safe rather than an error — and maps the
//! signal onto the valve command for this cycle.

use vstd::prelude::*;

use crate::actuation::{actuate, actuate_spec, ActuationCommand};
use crate::controller::CylinderPositionController;

verus! {

/// The deadband half-width of the control loop, in the product scale of
/// [`crate::units::SIGNAL_UNIT`]: one hundredth of full scale.
pub const DEADBAND_HALF_WIDTH: i64 = 10_000_000_000;

/// The controller state after the setpoint-drain step of a cycle: changed
/// through `new_setpoint` when the mailbox held a value, untouched otherwise.
pub open spec fn after_setpoint_step(
    controller: CylinderPositionController,
    setpoint_update: Option<i64>,
) -> CylinderPositionController {
    match setpoint_update {
        Some(setpoint) => controller.after_new_setpoint(setpoint as int),
        None => controller,
    }
}

/// The control signal a cycle works with: the controller's response to the
/// sample when one is present, exactly zero when it is absent.
pub open spec fn cycle_signal(
    controller: CylinderPositionController,
    setpoint_update: Option<i64>,
    measurement: Option<i64>,
) -> int {
    match measurement {
        Some(sample) => after_setpoint_step(controller, setpoint_update).signal(sample as int),
        None => 0,
    }
}

/// The controller state a cycle leaves behind: the accumulator moves only
/// when a sample was present.
pub open spec fn cycle_state(
    controller: CylinderPositionController,
    setpoint_update: Option<i64>,
    measurement: Option<i64>,
) -> CylinderPositionController {
    match measurement {
        Some(sample) => after_setpoint_step(controller, setpoint_update).after_signal(
            sample as int,
        ),
        None => after_setpoint_step(controller, setpoint_update),
    }
}

/// One cycle of the running control loop, after the raw exchange: apply a
/// drained setpoint change if any, compute the control signal — exactly
/// neutral when the sample is missing — and derive the valve command through
/// the deadband policy.
pub fn control_cycle(
    controller: &mut CylinderPositionController,
    setpoint_update: Option<i64>,
    measurement: Option<i64>,
    deadband_half_width: i64,
) -> (command: ActuationCommand)
    ensures
        *final(controller) == cycle_state(*old(controller), setpoint_update, measurement),
        command == actuate_spec(
            cycle_signal(*old(controller), setpoint_update, measurement),
            deadband_half_width as int,
        ),
        measurement is None ==> command == actuate_spec(0, deadband_half_width as int)
            && final(controller).error_accumulator == after_setpoint_step(
            *old(controller),
            setpoint_update,
        ).error_accumulator,
        measurement is None && deadband_half_width >= 0 ==> command
            == ActuationCommand::Neutral,
        measurement is None && setpoint_update is None ==> *final(controller) == *old(
            controller,
        ),
{
    if let Some(setpoint) = setpoint_update {
        controller.new_setpoint(setpoint);
    }
    let control: i64 = match measurement {
        Some(sample) => controller.control_signal(sample),
        None => 0,
    };
    actuate(control, deadband_half_width)
}

} // verus!
