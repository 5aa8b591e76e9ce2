//! Keeps a battery's state of charge inside a hysteresis band by remotely
//! switching a BLE mains smart plug. The library holds the logic of that
//! subsystem: the per-variant wire-protocol codec, the advertisement scanner's
//! matching rule, the connection manager's state machine, the driver state of
//! each plug variant, and the hysteresis decision applied to battery samples.
//! The surrounding process performs the BLE transport I/O and feeds results
//! back in as plain values.

pub mod addr;
pub mod codec;
pub mod config;
pub mod errors;
pub mod hysteresis;
pub mod manager;
pub mod scanner;
pub mod switch_device;
