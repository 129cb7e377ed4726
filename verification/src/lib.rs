//! Remote-control client core for a grandMA2 lighting console, together with
//! the MIDI codec and the control-panel data that the surrounding bridge uses.
//!
//! Everything in this crate is pure: sockets, channels and timers live with
//! the caller, which feeds events in and carries the returned actions out.

pub mod bridge;
pub mod client;
pub mod digest;
pub mod error;
pub mod frontend;
pub mod interface;
pub mod json;
pub mod midi;
pub mod text;
pub mod types;

pub use error::{DecodeError, Ma2Error};
pub use types::{ButtonExecutor, Executor, FaderExecutor};
