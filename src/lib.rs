//! Command/response core of a driver for the HDC302x temperature and
//! relative-humidity sensor: command encoding, checksum validation of the
//! device's responses, the bus transaction protocol, the plans of the
//! device's operations and status decoding.
//!
//! The core performs no I/O. A [`session::Session`] names each bus request in
//! turn; the caller performs it on its bus and hands back the outcome.
pub mod checksum;
pub mod hw_def;
pub mod types;
pub mod transaction;
pub mod ops;
pub mod session;
