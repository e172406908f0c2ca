//! Driver logic for an external-memory controller's SDRAM interface.
//!
//! The crate binds physical signal pins to controller roles, programs the
//! controller's bus-width, timing and refresh registers from a declarative
//! configuration, issues the SDRAM power-up command sequence while waiting
//! for the controller's busy flag, and computes the flat memory view of the
//! configured bank. The controller's register block is held as a plain
//! register file, so every register write and the busy-wait are stated and
//! proved field by field.

pub mod buses;
pub mod pins;
pub mod registers;
pub mod sdram;
