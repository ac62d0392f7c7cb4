//! Frame codec and value validation for Sensirion's SCD30 CO2 sensor.
//!
//! The crate turns range-checked domain values into the byte frames that the
//! sensor expects on its I2C bus and turns the sensor's checksummed responses
//! back into domain values. It performs no I/O of its own: the transaction
//! sequencer in [`interface`] says which bytes to write and how many to read,
//! and the owner of the bus carries that out.
pub mod command;
pub mod data;
pub mod endian;
pub mod error;
pub mod frame;
pub mod interface;
pub mod util;

pub use interface::Scd30;
