//! The client of the console's remote protocol.

pub mod client;
pub mod messages;
pub mod serde;
pub mod state;

pub use client::{login_request, Action, GrandMa2Client, Reaction};
pub use messages::{MaDataResponse, ReceiveMsg, Request, Response, SendMsg};
pub use state::Ma2State;
