//! The deadband actuation policy.
//!
//! A pure map from a continuous control signal to a discrete two-bit valve
//! command. No state is carried across cycles: each cycle's command depends
//! only on that cycle's signal, so a signal sitting exactly at the deadband
//! boundary may chatter between neutral and an active command — an accepted
//! open behavior of the design.

use vstd::prelude::*;

verus! {

/// A two-bit valve command: drive the cylinder outward, inward, or not at
/// all.
#[derive(Clone, Copy, Debug, PartialEq, Eq, Structural)]
pub enum ActuationCommand {
    Neutral,
    Retract,
    Extend,
}

impl ActuationCommand {
    /// The two-bit wire pattern of this command.
    pub open spec fn encoding(self) -> u8 {
        match self {
            ActuationCommand::Neutral => 0b00,
            ActuationCommand::Retract => 0b01,
            ActuationCommand::Extend => 0b10,
        }
    }

    /// Encode this command as the two-bit pattern the actuator device reads
    /// from its first output byte.
    pub fn encode(&self) -> (bits: u8)
        ensures
            bits == self.encoding(),
    {
        match self {
            ActuationCommand::Neutral => 0b00,
            ActuationCommand::Retract => 0b01,
            ActuationCommand::Extend => 0b10,
        }
    }
}

/// The command `actuate` maps a signal and a deadband half-width to: extend
/// strictly above the deadband, retract strictly below its mirror image,
/// neutral inside (boundary values included).
pub open spec fn actuate_spec(control_signal: int, deadband_half_width: int) -> ActuationCommand {
    if control_signal > deadband_half_width {
        ActuationCommand::Extend
    } else if control_signal < -deadband_half_width {
        ActuationCommand::Retract
    } else {
        ActuationCommand::Neutral
    }
}

/// Map a control signal onto a discrete valve command through a symmetric
/// deadband. The signal and the half-width must be in one common scale; the
/// control loop uses the product scale of [`crate::units::SIGNAL_UNIT`].
pub fn actuate(control_signal: i64, deadband_half_width: i64) -> (command: ActuationCommand)
    ensures
        command == actuate_spec(control_signal as int, deadband_half_width as int),
{
    if control_signal as i128 > deadband_half_width as i128 {
        ActuationCommand::Extend
    } else if (control_signal as i128) < -(deadband_half_width as i128) {
        ActuationCommand::Retract
    } else {
        ActuationCommand::Neutral
    }
}

/// The boundary policy of the deadband, for a nonnegative half-width: the
/// active commands begin strictly beyond the deadband, and both boundary
/// values themselves are neutral.
pub proof fn lemma_deadband_boundary(control_signal: int, deadband_half_width: int)
    requires
        deadband_half_width >= 0,
    ensures
        (actuate_spec(control_signal, deadband_half_width) == ActuationCommand::Extend) <==> (
        control_signal > deadband_half_width),
        (actuate_spec(control_signal, deadband_half_width) == ActuationCommand::Retract) <==> (
        control_signal < -deadband_half_width),
        (actuate_spec(control_signal, deadband_half_width) == ActuationCommand::Neutral) <==> (
        -deadband_half_width <= control_signal <= deadband_half_width),
{
}

} // verus!
