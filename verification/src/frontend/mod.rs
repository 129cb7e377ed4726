//! The control panel of the bridge.

pub mod client;
pub mod data;
pub mod messages;
pub mod presets;

pub use client::{handle_message, reply_to, Handled};
pub use data::{Fader, HoldAction, Icon, PresetButton, PresetCategory};
pub use messages::{ReceiveMessage, SendMessage};
pub use presets::Preset;
