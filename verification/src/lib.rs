//! A small peripheral-access layer for register-addressed devices on a
//! shared two-wire bus, together with an edge-interrupt notification
//! bridge for a cooperative control loop.
//!
//! The layers, from the wire up:
//! - [`bus`]: the atomic write-then-read transaction channel, the bus
//!   arbiter that shares one channel among several handles, and the
//!   transport errors.
//! - [`stub`]: a simulated register-mapped device that backs the channel
//!   for testing without hardware, recording every transaction.
//! - [`icm42670p`]: the driver for the ICM-42670-P inertial unit:
//!   register map, identity, range decoding and sample assembly.
//! - [`edge`]: the single-slot mailbox that carries a hardware edge to
//!   the control loop.
//! - [`web`], [`telemetry`]: the configuration shapes and page text of
//!   the two reporting front ends; their network transports live with
//!   the application, outside this library.

pub mod bus;
pub mod icm42670p;
pub mod stub;
pub mod telemetry;
pub mod web;
pub mod edge;
