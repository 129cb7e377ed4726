//! The values that MIDI messages carry in their data bytes.

use vstd::prelude::*;

use super::message::MidiMessageError;

verus! {

/// Whether a byte is a data byte: its top bit is clear.
pub open spec fn is_u7(value: u8) -> bool {
    value < 128
}

/// The 14-bit value that two data bytes carry, the low seven bits first.
pub open spec fn u14_of(low: u8, high: u8) -> u16 {
    (high as u16 * 128 + low as u16) as u16
}

/// Reads a data byte.
pub fn parse_u7(value: u8) -> (r: Result<u8, ()>)
    ensures
        r is Ok <==> is_u7(value),
        r is Ok ==> r->Ok_0 == value,
{
    assert((value & 0b1000_0000 == 0) <==> value < 128) by (bit_vector);
    if value & 0b1000_0000 == 0 {
        Ok(value)
    } else {
        Err(())
    }
}

/// Reads two data bytes as one 14-bit value, the low seven bits first.
pub fn parse_u14(low: u8, high: u8) -> (r: Result<u16, ()>)
    ensures
        r is Ok <==> is_u7(low) && is_u7(high),
        r is Ok ==> r->Ok_0 == u14_of(low, high),
{
    assert((high & 0b1000_0000 == 0) <==> high < 128) by (bit_vector);
    assert((low & 0b1000_0000 == 0) <==> low < 128) by (bit_vector);
    if high & 0b1000_0000 == 0 && low & 0b1000_0000 == 0 {
        let wide_high: u16 = (high & 0b0111_1111) as u16;
        let wide_low: u16 = (low & 0b0111_1111) as u16;
        assert(high < 128 && low < 128 ==> ((high & 0b0111_1111) as u16) << 7 | ((low
            & 0b0111_1111) as u16) == (high as u16) * 128 + (low as u16)) by (bit_vector);
        Ok(wide_high << 7 | wide_low)
    } else {
        Err(())
    }
}

/// The low seven bits of a 14-bit value.
pub open spec fn low_byte(value: u16) -> u8 {
    (value & 0b0111_1111) as u8
}

/// The bits of a 14-bit value above the low seven, cut to a byte.
pub open spec fn high_byte(value: u16) -> u8 {
    ((value >> 7) & 0xff) as u8
}

/// A MIDI channel.
#[derive(Debug, Clone, PartialEq, Eq, Structural, PartialOrd, Ord)]
pub struct Channel(pub u8);

impl Channel {
    pub fn from(value: u8) -> (r: Result<Channel, MidiMessageError>)
        ensures
            r == if is_u7(value) {
                Ok::<Channel, MidiMessageError>(Channel(value))
            } else {
                Err(MidiMessageError::InvalidChannel(value))
            },
    {
        match parse_u7(value) {
            Ok(value) => Ok(Channel(value)),
            Err(()) => Err(MidiMessageError::InvalidChannel(value)),
        }
    }

    pub fn to_byte(&self) -> (b: u8)
        ensures
            b == self.0,
    {
        self.0
    }
}

/// A key number.
#[derive(Debug, Clone, PartialEq, Eq, Structural, PartialOrd, Ord)]
pub struct Note(pub u8);

impl Note {
    pub fn from(value: u8) -> (r: Result<Note, MidiMessageError>)
        ensures
            r == if is_u7(value) {
                Ok::<Note, MidiMessageError>(Note(value))
            } else {
                Err(MidiMessageError::InvalidNote(value))
            },
    {
        match parse_u7(value) {
            Ok(value) => Ok(Note(value)),
            Err(()) => Err(MidiMessageError::InvalidNote(value)),
        }
    }

    pub fn to_byte(&self) -> (b: u8)
        ensures
            b == self.0,
    {
        self.0
    }
}

/// How hard a key is struck or released.
#[derive(Debug, Clone, PartialEq, Eq, Structural, PartialOrd, Ord)]
pub struct Velocity(pub u8);

impl Velocity {
    pub fn from(value: u8) -> (r: Result<Velocity, MidiMessageError>)
        ensures
            r == if is_u7(value) {
                Ok::<Velocity, MidiMessageError>(Velocity(value))
            } else {
                Err(MidiMessageError::InvalidVelocity(value))
            },
    {
        match parse_u7(value) {
            Ok(value) => Ok(Velocity(value)),
            Err(()) => Err(MidiMessageError::InvalidVelocity(value)),
        }
    }

    pub fn to_byte(&self) -> (b: u8)
        ensures
            b == self.0,
    {
        self.0
    }
}

/// An aftertouch amount.
#[derive(Debug, Clone, PartialEq, Eq, Structural, PartialOrd, Ord)]
pub struct Pressure(pub u8);

impl Pressure {
    pub fn from(value: u8) -> (r: Result<Pressure, MidiMessageError>)
        ensures
            r == if is_u7(value) {
                Ok::<Pressure, MidiMessageError>(Pressure(value))
            } else {
                Err(MidiMessageError::InvalidPressure(value))
            },
    {
        match parse_u7(value) {
            Ok(value) => Ok(Pressure(value)),
            Err(()) => Err(MidiMessageError::InvalidPressure(value)),
        }
    }

    pub fn to_byte(&self) -> (b: u8)
        ensures
            b == self.0,
    {
        self.0
    }
}

/// A controller number.
#[derive(Debug, Clone, PartialEq, Eq, Structural, PartialOrd, Ord)]
pub struct Controller(pub u8);

impl Controller {
    pub fn from(value: u8) -> (r: Result<Controller, MidiMessageError>)
        ensures
            r == if is_u7(value) {
                Ok::<Controller, MidiMessageError>(Controller(value))
            } else {
                Err(MidiMessageError::InvalidController(value))
            },
    {
        match parse_u7(value) {
            Ok(value) => Ok(Controller(value)),
            Err(()) => Err(MidiMessageError::InvalidController(value)),
        }
    }

    pub fn to_byte(&self) -> (b: u8)
        ensures
            b == self.0,
    {
        self.0
    }
}

/// The setting of a controller.
#[derive(Debug, Clone, PartialEq, Eq, Structural, PartialOrd, Ord)]
pub struct ControlValue(pub u8);

impl ControlValue {
    pub fn from(value: u8) -> (r: Result<ControlValue, MidiMessageError>)
        ensures
            r == if is_u7(value) {
                Ok::<ControlValue, MidiMessageError>(ControlValue(value))
            } else {
                Err(MidiMessageError::InvalidValue(value))
            },
    {
        match parse_u7(value) {
            Ok(value) => Ok(ControlValue(value)),
            Err(()) => Err(MidiMessageError::InvalidValue(value)),
        }
    }

    pub fn to_byte(&self) -> (b: u8)
        ensures
            b == self.0,
    {
        self.0
    }
}

/// A program number.
#[derive(Debug, Clone, PartialEq, Eq, Structural, PartialOrd, Ord)]
pub struct Program(pub u8);

impl Program {
    pub fn from(value: u8) -> (r: Result<Program, MidiMessageError>)
        ensures
            r == if is_u7(value) {
                Ok::<Program, MidiMessageError>(Program(value))
            } else {
                Err(MidiMessageError::InvalidProgram(value))
            },
    {
        match parse_u7(value) {
            Ok(value) => Ok(Program(value)),
            Err(()) => Err(MidiMessageError::InvalidProgram(value)),
        }
    }

    pub fn to_byte(&self) -> (b: u8)
        ensures
            b == self.0,
    {
        self.0
    }
}

/// A song number.
#[derive(Debug, Clone, PartialEq, Eq, Structural, PartialOrd, Ord)]
pub struct Song(pub u8);

impl Song {
    pub fn from(value: u8) -> (r: Result<Song, MidiMessageError>)
        ensures
            r == if is_u7(value) {
                Ok::<Song, MidiMessageError>(Song(value))
            } else {
                Err(MidiMessageError::InvalidSong(value))
            },
    {
        match parse_u7(value) {
            Ok(value) => Ok(Song(value)),
            Err(()) => Err(MidiMessageError::InvalidSong(value)),
        }
    }

    pub fn to_byte(&self) -> (b: u8)
        ensures
            b == self.0,
    {
        self.0
    }
}

/// The position of the pitch wheel.
#[derive(Debug, Clone, PartialEq, Eq, Structural, PartialOrd, Ord)]
pub struct Pitch(pub u16);

impl Pitch {
    pub fn from(value1: u8, value2: u8) -> (r: Result<Pitch, MidiMessageError>)
        ensures
            r == if is_u7(value1) && is_u7(value2) {
                Ok::<Pitch, MidiMessageError>(Pitch(u14_of(value1, value2)))
            } else {
                Err(MidiMessageError::InvalidPitch(value1, value2))
            },
    {
        match parse_u14(value1, value2) {
            Ok(value) => Ok(Pitch(value)),
            Err(()) => Err(MidiMessageError::InvalidPitch(value1, value2)),
        }
    }

    pub fn to_bytes(&self) -> (b: [u8; 2])
        ensures
            b@ == seq![low_byte(self.0), high_byte(self.0)],
    {
        let low: u8 = (self.0 & 0b0111_1111) as u8;
        let high: u8 = ((self.0 >> 7) & 0xff) as u8;
        [low, high]
    }
}

/// A song position, in MIDI beats.
#[derive(Debug, Clone, PartialEq, Eq, Structural, PartialOrd, Ord)]
pub struct Position(pub u16);

impl Position {
    pub fn from(value1: u8, value2: u8) -> (r: Result<Position, MidiMessageError>)
        ensures
            r == if is_u7(value1) && is_u7(value2) {
                Ok::<Position, MidiMessageError>(Position(u14_of(value1, value2)))
            } else {
                Err(MidiMessageError::InvalidPosition(value1, value2))
            },
    {
        match parse_u14(value1, value2) {
            Ok(value) => Ok(Position(value)),
            Err(()) => Err(MidiMessageError::InvalidPosition(value1, value2)),
        }
    }

    pub fn to_bytes(&self) -> (b: [u8; 2])
        ensures
            b@ == seq![low_byte(self.0), high_byte(self.0)],
    {
        let low: u8 = (self.0 & 0b0111_1111) as u8;
        let high: u8 = ((self.0 >> 7) & 0xff) as u8;
        [low, high]
    }
}

} // verus!
