//! Driver core for an RTC peripheral that speaks packed BCD over an
//! addressed serial bus.
//!
//! The crate holds the pure part of the driver: the BCD codec, the
//! register-protocol encoder and decoder (ordered bus operations against a
//! fixed peripheral address), the timestamp formatter, and the control loop
//! that sequences one-time initialization and periodic polling.  The physical
//! bus and the console are external collaborators: callers execute the bus
//! operations this crate produces and feed the outcome back in.

pub mod bcd;
pub mod control;
pub mod display;
pub mod protocol;
