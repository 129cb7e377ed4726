//! The status bytes of MIDI.

use vstd::prelude::*;

verus! {

/// Selects the message kind in a status byte.
pub const STATUS_BYTE_MASK: u8 = 0b1111_0000;

/// Selects the channel in a status byte.
pub const CHANNEL_MASK: u8 = 0b0000_1111;

pub const CONTROL_CHANGE_MASK: u8 = 0b1011_0000;

pub const NOTE_OFF_MASK: u8 = 0b1000_0000;

pub const NOTE_ON_MASK: u8 = 0b1001_0000;

pub const POLYPHONIC_KEY_PRESSURE_MASK: u8 = 0b1010_0000;

pub const PROGRAM_CHANGE_MASK: u8 = 0b1100_0000;

pub const CHANNEL_PRESSURE_MASK: u8 = 0b1101_0000;

pub const PITCH_WHEEL_CHANGE_MASK: u8 = 0b1110_0000;

pub const SONG_POSITION_POINTER_MASK: u8 = 0b1111_0010;

pub const SONG_SELECT_MASK: u8 = 0b1111_0011;

pub const TIMING_CLOCK_MASK: u8 = 0b1111_1000;

pub const START_MASK: u8 = 0b1111_1010;

pub const CONTINUE_MASK: u8 = 0b1111_1011;

pub const STOP_MASK: u8 = 0b1111_1100;

pub const ACTIVE_SENSING_MASK: u8 = 0b1111_1110;

pub const RESET_MASK: u8 = 0b1111_1111;

pub const TUNE_REQUEST_MASK: u8 = 0b1111_0110;

pub const SYSEX_MESSAGE_MASK: u8 = 0b1111_0000;

pub const SYSEX_MESSAGE_END_MASK: u8 = 0b1111_0111;

} // verus!
