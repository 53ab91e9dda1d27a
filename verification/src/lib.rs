//! Session logic for a single USB HID device.
//!
//! The crate decides; the caller performs. Every function here maps plain
//! values (what the bus reported, what a transfer returned) to the next
//! session state and to the transfer that has to be issued next. Opening
//! handles, blocking on transfers and running threads is left to the caller.

pub mod error;
pub mod wire;
pub mod descriptor;
pub mod transfer;
pub mod session;
