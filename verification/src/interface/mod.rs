//! The interface between the application and the client.

pub mod messages;

pub use messages::{MaEvent, MaRequest};
