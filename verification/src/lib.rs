//! Transport layer for exchanging opaque command/response frames with a
//! PN532 NFC controller over a shared I2C bus.
//!
//! Three interchangeable variants implement the same write / wait-ready /
//! read contract and differ only in how readiness is detected: by polling a
//! status byte, by sampling an interrupt line, or by looping on status reads
//! until the device reports ready.
//!
//! The bus and the interrupt line are modelled by the traits in [`bus`]:
//! every contract here is stated over the history of primitives a bus has
//! completed. [`script`] provides a scripted bus and pin so the transports
//! can be driven against a device whose behaviour is given in advance.

pub mod bus;
pub mod i2c;
pub mod script;
