//! A closed-loop boiler controller: the register map, the outdoor-reset
//! curve, the modulation-rate policy and the control cycle that sequences
//! register reads, telemetry, feedback trim and register writes.
//!
//! The cycle is a state machine: the caller performs each `Action` (bus
//! transaction, telemetry delivery, trimmer call) and reports its result as
//! an `Event`.

pub mod curve;
pub mod cycle;
pub mod policy;
pub mod registers;
pub mod snapshot;
