//! Register-level driver core for the TMC2160 stepper-motor controller.
//!
//! The crate performs no input or output of its own. It computes, bit for bit,
//! what has to go over the serial bus and onto the control lines, and it keeps
//! the shadow copies of the registers that the chip cannot read back. A host
//! that owns the bus and the lines carries out one [`Command`] at a time and
//! reports each result back as a [`Response`].
//!
//! - [`bits`]: the codec for the fields of a 32-bit register value.
//! - [`registers`]: the register map, with addresses and field layouts.
//! - [`frame`]: the 40-bit frame of one register access.
//! - [`types`]: errors, direction, resolution, status and the register cache.
//! - [`protocol`]: commands to the host and its responses.
//! - [`tmc2160`]: the driver and its operations.
//! - [`course`]: what each operation does from its first command to its last.

pub mod bits;
pub mod course;
pub mod frame;
pub mod protocol;
pub mod registers;
pub mod tmc2160;
pub mod types;

pub use bits::Field;
pub use frame::Frame;
pub use protocol::{Command, Level, Line, Reply, Response, Step};
pub use registers::Register;
pub use tmc2160::Tmc2160;
pub use types::{Direction, DriverStatus, Error, MicrostepResolution, RegisterCache};
