//! Register protocol, fault decoding and batched packet encoding for
//! MAX31856 thermocouple-to-digital converters sharing one SPI bus.
//!
//! Everything here is pure: the bus itself is driven by the caller, which
//! performs the transactions this library asks for and reports back what
//! came of them.
use vstd::prelude::*;

pub mod registers;
pub mod fault;
pub mod threshold;
pub mod bus;
pub mod commands;
pub mod sampling;
pub mod packet;

verus! {

/// Number of converter chips sampled in every cycle.
pub const SENSOR_COUNT: usize = 4;

/// Number of cycles accumulated in one packet.
pub const BATCH_SIZE: usize = 10;

} // verus!
