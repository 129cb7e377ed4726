//! The MIDI codec and the control surfaces.

pub mod connection;
pub mod consts;
pub mod interface;
pub mod message;
pub mod types;

pub use connection::{DeviceType, MessageMidi, MidiConnection};
pub use interface::MidiInterface;
pub use message::{MidiMessage, MidiMessageError};
pub use types::{
    Channel, ControlValue, Controller, Note, Pitch, Position, Pressure, Program, Song, Velocity,
};
