//! Verified control core for a pneumatic-muscle cylinder position regulator.
//!
//! The crate holds the closed-loop logic of the regulator: a
//! proportional-integral control law, a single-slot setpoint mailbox shared
//! between a console reader and the control loop, a deadband policy that maps
//! a continuous control signal onto a two-bit valve command, and the
//! per-cycle orchestration step that ties them together. The fieldbus master,
//! the terminal and the periodic timer are outside collaborators: the binary
//! around this library reads and writes the wire, and hands the core plain
//! values.
//!
//! All quantities are exact fixed-point integers (see [`units`]); arithmetic
//! saturates at the 64-bit range, so every function of the core is total.

pub mod actuation;
pub mod channel;
pub mod controller;
pub mod cycle;
pub mod units;
