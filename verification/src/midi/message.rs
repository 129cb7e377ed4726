//! MIDI messages and their bytes.

use vstd::prelude::*;

use super::consts::{
    ACTIVE_SENSING_MASK, CHANNEL_MASK, CHANNEL_PRESSURE_MASK, CONTINUE_MASK, CONTROL_CHANGE_MASK,
    NOTE_OFF_MASK, NOTE_ON_MASK, PITCH_WHEEL_CHANGE_MASK, POLYPHONIC_KEY_PRESSURE_MASK,
    PROGRAM_CHANGE_MASK, RESET_MASK, SONG_POSITION_POINTER_MASK, SONG_SELECT_MASK, START_MASK,
    STATUS_BYTE_MASK, STOP_MASK, SYSEX_MESSAGE_END_MASK, SYSEX_MESSAGE_MASK, TIMING_CLOCK_MASK,
    TUNE_REQUEST_MASK,
};
use super::types::{
    high_byte, is_u7, low_byte, u14_of, Channel, ControlValue, Controller, Note, Pitch, Position,
    Pressure, Program, Song, Velocity,
};

verus! {

/// A MIDI message.
#[derive(Debug, Clone, PartialEq, Eq)]
pub enum MidiMessage {
    NoteOn { channel: Channel, note: Note, velocity: Velocity },
    NoteOff { channel: Channel, note: Note, velocity: Velocity },
    PolyphonicKeyPressure { channel: Channel, note: Note, pressure: Pressure },
    ControlChange { channel: Channel, controller_number: Controller, value: ControlValue },
    ProgramChange { channel: Channel, program_number: Program },
    ChannelPressure { channel: Channel, pressure: Pressure },
    PitchWheelChange { channel: Channel, pitch: Pitch },
    SysExMessage(Vec<u8>),
    SongPositionPointer { position: Position },
    SongSelect { song: Song },
    TuneRequest,
    TimingClock,
    Start,
    Continue,
    Stop,
    ActiveSensing,
    Reset,
}

/// A [`MidiMessage`] as a mathematical value.
pub enum MidiMessageView {
    NoteOn { channel: Channel, note: Note, velocity: Velocity },
    NoteOff { channel: Channel, note: Note, velocity: Velocity },
    PolyphonicKeyPressure { channel: Channel, note: Note, pressure: Pressure },
    ControlChange { channel: Channel, controller_number: Controller, value: ControlValue },
    ProgramChange { channel: Channel, program_number: Program },
    ChannelPressure { channel: Channel, pressure: Pressure },
    PitchWheelChange { channel: Channel, pitch: Pitch },
    SysExMessage(Seq<u8>),
    SongPositionPointer { position: Position },
    SongSelect { song: Song },
    TuneRequest,
    TimingClock,
    Start,
    Continue,
    Stop,
    ActiveSensing,
    Reset,
}

impl View for MidiMessage {
    type V = MidiMessageView;

    open spec fn view(&self) -> MidiMessageView {
        match *self {
            MidiMessage::NoteOn { channel, note, velocity } => MidiMessageView::NoteOn {
                channel,
                note,
                velocity,
            },
            MidiMessage::NoteOff { channel, note, velocity } => MidiMessageView::NoteOff {
                channel,
                note,
                velocity,
            },
            MidiMessage::PolyphonicKeyPressure {
                channel,
                note,
                pressure,
            } => MidiMessageView::PolyphonicKeyPressure { channel, note, pressure },
            MidiMessage::ControlChange {
                channel,
                controller_number,
                value,
            } => MidiMessageView::ControlChange { channel, controller_number, value },
            MidiMessage::ProgramChange {
                channel,
                program_number,
            } => MidiMessageView::ProgramChange { channel, program_number },
            MidiMessage::ChannelPressure {
                channel,
                pressure,
            } => MidiMessageView::ChannelPressure { channel, pressure },
            MidiMessage::PitchWheelChange {
                channel,
                pitch,
            } => MidiMessageView::PitchWheelChange { channel, pitch },
            MidiMessage::SysExMessage(payload) => MidiMessageView::SysExMessage(payload@),
            MidiMessage::SongPositionPointer {
                position,
            } => MidiMessageView::SongPositionPointer { position },
            MidiMessage::SongSelect { song } => MidiMessageView::SongSelect { song },
            MidiMessage::TuneRequest => MidiMessageView::TuneRequest,
            MidiMessage::TimingClock => MidiMessageView::TimingClock,
            MidiMessage::Start => MidiMessageView::Start,
            MidiMessage::Continue => MidiMessageView::Continue,
            MidiMessage::Stop => MidiMessageView::Stop,
            MidiMessage::ActiveSensing => MidiMessageView::ActiveSensing,
            MidiMessage::Reset => MidiMessageView::Reset,
        }
    }
}

/// Why bytes are not a MIDI message.
#[derive(Debug, Clone, Copy, PartialEq, Eq, Structural)]
pub enum MidiMessageError {
    InvalidChannel(u8),
    InvalidNote(u8),
    InvalidVelocity(u8),
    InvalidPressure(u8),
    InvalidController(u8),
    InvalidValue(u8),
    InvalidProgram(u8),
    InvalidPitch(u8, u8),
    InvalidPosition(u8, u8),
    InvalidSong(u8),
    InvalidCode(u8),
    InvalidLength,
}

/// The kind of message that a status byte announces: its high four bits.
pub open spec fn status_of(first: u8) -> u8 {
    first & STATUS_BYTE_MASK
}

/// The channel that a status byte names: its low four bits.
pub open spec fn channel_of(first: u8) -> Channel {
    Channel(first & CHANNEL_MASK)
}

/// How many bytes the decoder reads of `data` before it answers.
///
/// A message with two data bytes is given up after the first if that one
/// is no data byte; a system-exclusive frame is read in full only if it
/// ends in the end marker.
pub open spec fn bytes_read(data: Seq<u8>) -> nat
    recommends
        data.len() >= 1,
{
    let status = status_of(data[0]);
    if status == NOTE_OFF_MASK || status == NOTE_ON_MASK || status
        == POLYPHONIC_KEY_PRESSURE_MASK || status == CONTROL_CHANGE_MASK {
        if data.len() >= 2 && !is_u7(data[1]) {
            2
        } else {
            3
        }
    } else if status == PROGRAM_CHANGE_MASK || status == CHANNEL_PRESSURE_MASK {
        2
    } else if status == PITCH_WHEEL_CHANGE_MASK {
        3
    } else if status == SYSEX_MESSAGE_MASK {
        if data.last() == SYSEX_MESSAGE_END_MASK {
            2
        } else {
            1
        }
    } else {
        1
    }
}

/// The message that `data` holds, or why it holds none.
///
/// Only the high four bits of the first byte select the kind, so every first
/// byte from `0xF0` up is read as a system-exclusive frame.
pub open spec fn decode(data: Seq<u8>) -> Result<MidiMessageView, MidiMessageError>
    recommends
        data.len() >= 1,
        data.len() >= bytes_read(data),
{
    let status = status_of(data[0]);
    let channel = channel_of(data[0]);
    if status == NOTE_OFF_MASK {
        if !is_u7(data[1]) {
            Err(MidiMessageError::InvalidNote(data[1]))
        } else if !is_u7(data[2]) {
            Err(MidiMessageError::InvalidVelocity(data[2]))
        } else {
            Ok(MidiMessageView::NoteOff { channel, note: Note(data[1]), velocity: Velocity(data[2]) })
        }
    } else if status == NOTE_ON_MASK {
        if !is_u7(data[1]) {
            Err(MidiMessageError::InvalidNote(data[1]))
        } else if !is_u7(data[2]) {
            Err(MidiMessageError::InvalidVelocity(data[2]))
        } else {
            Ok(MidiMessageView::NoteOn { channel, note: Note(data[1]), velocity: Velocity(data[2]) })
        }
    } else if status == POLYPHONIC_KEY_PRESSURE_MASK {
        if !is_u7(data[1]) {
            Err(MidiMessageError::InvalidNote(data[1]))
        } else if !is_u7(data[2]) {
            Err(MidiMessageError::InvalidPressure(data[2]))
        } else {
            Ok(
                MidiMessageView::PolyphonicKeyPressure {
                    channel,
                    note: Note(data[1]),
                    pressure: Pressure(data[2]),
                },
            )
        }
    } else if status == CONTROL_CHANGE_MASK {
        if !is_u7(data[1]) {
            Err(MidiMessageError::InvalidController(data[1]))
        } else if !is_u7(data[2]) {
            Err(MidiMessageError::InvalidValue(data[2]))
        } else {
            Ok(
                MidiMessageView::ControlChange {
                    channel,
                    controller_number: Controller(data[1]),
                    value: ControlValue(data[2]),
                },
            )
        }
    } else if status == PROGRAM_CHANGE_MASK {
        if !is_u7(data[1]) {
            Err(MidiMessageError::InvalidProgram(data[1]))
        } else {
            Ok(MidiMessageView::ProgramChange { channel, program_number: Program(data[1]) })
        }
    } else if status == CHANNEL_PRESSURE_MASK {
        if !is_u7(data[1]) {
            Err(MidiMessageError::InvalidPressure(data[1]))
        } else {
            Ok(MidiMessageView::ChannelPressure { channel, pressure: Pressure(data[1]) })
        }
    } else if status == PITCH_WHEEL_CHANGE_MASK {
        if !(is_u7(data[1]) && is_u7(data[2])) {
            Err(MidiMessageError::InvalidPitch(data[1], data[2]))
        } else {
            Ok(MidiMessageView::PitchWheelChange { channel, pitch: Pitch(u14_of(data[1], data[2])) })
        }
    } else if status == SYSEX_MESSAGE_MASK {
        if data.last() != SYSEX_MESSAGE_END_MASK {
            Err(MidiMessageError::InvalidLength)
        } else {
            Ok(MidiMessageView::SysExMessage(data.subrange(1, data.len() - 1)))
        }
    } else {
        Err(MidiMessageError::InvalidCode(status))
    }
}

/// The bytes that stand for a message.
pub open spec fn encode(message: MidiMessageView) -> Seq<u8> {
    match message {
        MidiMessageView::NoteOn { channel, note, velocity } => seq![
            NOTE_ON_MASK | channel.0,
            note.0,
            velocity.0,
        ],
        MidiMessageView::NoteOff { channel, note, velocity } => seq![
            NOTE_OFF_MASK | channel.0,
            note.0,
            velocity.0,
        ],
        MidiMessageView::PolyphonicKeyPressure { channel, note, pressure } => seq![
            POLYPHONIC_KEY_PRESSURE_MASK | channel.0,
            note.0,
            pressure.0,
        ],
        MidiMessageView::ControlChange { channel, controller_number, value } => seq![
            CONTROL_CHANGE_MASK | channel.0,
            controller_number.0,
            value.0,
        ],
        MidiMessageView::ProgramChange { channel, program_number } => seq![
            PROGRAM_CHANGE_MASK | channel.0,
            program_number.0,
        ],
        MidiMessageView::ChannelPressure { channel, pressure } => seq![
            CHANNEL_PRESSURE_MASK | channel.0,
            pressure.0,
        ],
        MidiMessageView::PitchWheelChange { channel, pitch } => seq![
            PITCH_WHEEL_CHANGE_MASK | channel.0,
            low_byte(pitch.0),
            high_byte(pitch.0),
        ],
        MidiMessageView::SysExMessage(payload) => seq![SYSEX_MESSAGE_MASK] + payload
            + seq![SYSEX_MESSAGE_END_MASK],
        MidiMessageView::SongPositionPointer { position } => seq![
            SONG_POSITION_POINTER_MASK,
            low_byte(position.0),
            high_byte(position.0),
        ],
        MidiMessageView::SongSelect { song } => seq![SONG_SELECT_MASK, song.0],
        MidiMessageView::TuneRequest => seq![TUNE_REQUEST_MASK],
        MidiMessageView::TimingClock => seq![TIMING_CLOCK_MASK],
        MidiMessageView::Start => seq![START_MASK],
        MidiMessageView::Continue => seq![CONTINUE_MASK],
        MidiMessageView::Stop => seq![STOP_MASK],
        MidiMessageView::ActiveSensing => seq![ACTIVE_SENSING_MASK],
        MidiMessageView::Reset => seq![RESET_MASK],
    }
}

/// Whether a message is one of a channel and holds only values that fit its
/// data bytes.
pub open spec fn is_channel_voice(message: MidiMessageView) -> bool {
    match message {
        MidiMessageView::NoteOn { channel, note, velocity } => channel.0 < 16 && is_u7(note.0)
            && is_u7(velocity.0),
        MidiMessageView::NoteOff { channel, note, velocity } => channel.0 < 16 && is_u7(note.0)
            && is_u7(velocity.0),
        MidiMessageView::PolyphonicKeyPressure { channel, note, pressure } => channel.0 < 16
            && is_u7(note.0) && is_u7(pressure.0),
        MidiMessageView::ControlChange { channel, controller_number, value } => channel.0 < 16
            && is_u7(controller_number.0) && is_u7(value.0),
        MidiMessageView::ProgramChange { channel, program_number } => channel.0 < 16 && is_u7(
            program_number.0,
        ),
        MidiMessageView::ChannelPressure { channel, pressure } => channel.0 < 16 && is_u7(
            pressure.0,
        ),
        MidiMessageView::PitchWheelChange { channel, pitch } => channel.0 < 16 && pitch.0
            < 16384,
        _ => false,
    }
}

impl MidiMessage {
    /// Reads one message from `data`.
    pub fn from(data: &[u8]) -> (r: Result<MidiMessage, MidiMessageError>)
        requires
            data@.len() >= 1,
            data@.len() >= bytes_read(data@),
        ensures
            r is Ok <==> decode(data@) is Ok,
            r matches Ok(message) ==> Ok::<MidiMessageView, MidiMessageError>(message@) == decode(
                data@,
            ),
            r matches Err(e) ==> Err::<MidiMessageView, MidiMessageError>(e) == decode(data@),
    {
        let length = data.len();
        let first: u8 = data[0];
        assert(first & CHANNEL_MASK < 16) by (bit_vector);
        let channel = Channel::from(first & CHANNEL_MASK)?;
        let status: u8 = first & STATUS_BYTE_MASK;
        if status == NOTE_OFF_MASK {
            let note = Note::from(data[1])?;
            let velocity = Velocity::from(data[2])?;
            Ok(MidiMessage::NoteOff { channel, note, velocity })
        } else if status == NOTE_ON_MASK {
            let note = Note::from(data[1])?;
            let velocity = Velocity::from(data[2])?;
            Ok(MidiMessage::NoteOn { channel, note, velocity })
        } else if status == POLYPHONIC_KEY_PRESSURE_MASK {
            let note = Note::from(data[1])?;
            let pressure = Pressure::from(data[2])?;
            Ok(MidiMessage::PolyphonicKeyPressure { channel, note, pressure })
        } else if status == CONTROL_CHANGE_MASK {
            let controller_number = Controller::from(data[1])?;
            let value = ControlValue::from(data[2])?;
            Ok(MidiMessage::ControlChange { channel, controller_number, value })
        } else if status == PROGRAM_CHANGE_MASK {
            let program_number = Program::from(data[1])?;
            Ok(MidiMessage::ProgramChange { channel, program_number })
        } else if status == CHANNEL_PRESSURE_MASK {
            let pressure = Pressure::from(data[1])?;
            Ok(MidiMessage::ChannelPressure { channel, pressure })
        } else if status == PITCH_WHEEL_CHANGE_MASK {
            let pitch = Pitch::from(data[1], data[2])?;
            Ok(MidiMessage::PitchWheelChange { channel, pitch })
        } else if status == SYSEX_MESSAGE_MASK {
            if data[length - 1] != SYSEX_MESSAGE_END_MASK {
                return Err(MidiMessageError::InvalidLength);
            }
            let mut payload: Vec<u8> = Vec::new();
            let mut i: usize = 1;
            while i < length - 1
                invariant
                    1 <= i <= length - 1,
                    length == data@.len(),
                    payload@ == data@.subrange(1, i as int),
                decreases length - i,
            {
                payload.push(data[i]);
                i += 1;
            }
            Ok(MidiMessage::SysExMessage(payload))
        } else {
            Err(MidiMessageError::InvalidCode(status))
        }
    }

    /// How many bytes [`MidiMessage::from`] reads of `data` before it
    /// answers.
    pub fn needed(data: &[u8]) -> (n: usize)
        requires
            data@.len() >= 1,
        ensures
            n == bytes_read(data@),
    {
        let status: u8 = data[0] & STATUS_BYTE_MASK;
        if status == NOTE_OFF_MASK || status == NOTE_ON_MASK || status
            == POLYPHONIC_KEY_PRESSURE_MASK || status == CONTROL_CHANGE_MASK {
            if data.len() >= 2 {
                let second: u8 = data[1];
                assert((second & 0b1000_0000 == 0) <==> second < 128) by (bit_vector);
                if second & 0b1000_0000 != 0 {
                    2
                } else {
                    3
                }
            } else {
                3
            }
        } else if status == PROGRAM_CHANGE_MASK || status == CHANNEL_PRESSURE_MASK {
            2
        } else if status == PITCH_WHEEL_CHANGE_MASK {
            3
        } else if status == SYSEX_MESSAGE_MASK {
            if data[data.len() - 1] == SYSEX_MESSAGE_END_MASK {
                2
            } else {
                1
            }
        } else {
            1
        }
    }

    /// Reads one message from `data`, if `data` does not end before the
    /// message does.
    pub fn checked_from(data: &[u8]) -> (r: Option<Result<MidiMessage, MidiMessageError>>)
        ensures
            r is Some <==> data@.len() >= 1 && data@.len() >= bytes_read(data@),
            r matches Some(Ok(message)) ==> decode(data@) == Ok::<
                MidiMessageView,
                MidiMessageError,
            >(message@),
            r matches Some(Err(e)) ==> decode(data@) == Err::<MidiMessageView, MidiMessageError>(
                e,
            ),
    {
        if data.len() < 1 {
            return None;
        }
        if data.len() < MidiMessage::needed(data) {
            return None;
        }
        Some(MidiMessage::from(data))
    }

    /// The bytes that stand for this message.
    pub fn to_bytes(&self) -> (bytes: Vec<u8>)
        ensures
            bytes@ == encode(self@),
    {
        match self {
            MidiMessage::NoteOn { channel, note, velocity } => vec![
                NOTE_ON_MASK | channel.to_byte(),
                note.to_byte(),
                velocity.to_byte(),
            ],
            MidiMessage::NoteOff { channel, note, velocity } => vec![
                NOTE_OFF_MASK | channel.to_byte(),
                note.to_byte(),
                velocity.to_byte(),
            ],
            MidiMessage::PolyphonicKeyPressure { channel, note, pressure } => vec![
                POLYPHONIC_KEY_PRESSURE_MASK | channel.to_byte(),
                note.to_byte(),
                pressure.to_byte(),
            ],
            MidiMessage::ControlChange { channel, controller_number, value } => vec![
                CONTROL_CHANGE_MASK | channel.to_byte(),
                controller_number.to_byte(),
                value.to_byte(),
            ],
            MidiMessage::ProgramChange { channel, program_number } => vec![
                PROGRAM_CHANGE_MASK | channel.to_byte(),
                program_number.to_byte(),
            ],
            MidiMessage::ChannelPressure { channel, pressure } => vec![
                CHANNEL_PRESSURE_MASK | channel.to_byte(),
                pressure.to_byte(),
            ],
            MidiMessage::PitchWheelChange { channel, pitch } => {
                let pair = pitch.to_bytes();
                vec![PITCH_WHEEL_CHANGE_MASK | channel.to_byte(), pair[0], pair[1]]
            },
            MidiMessage::SysExMessage(message) => {
                let mut bytes: Vec<u8> = Vec::new();
                bytes.push(SYSEX_MESSAGE_MASK);
                let mut i: usize = 0;
                while i < message.len()
                    invariant
                        i <= message.len(),
                        bytes@ == seq![SYSEX_MESSAGE_MASK] + message@.subrange(0, i as int),
                    decreases message.len() - i,
                {
                    bytes.push(message[i]);
                    i += 1;
                }
                bytes.push(SYSEX_MESSAGE_END_MASK);
                assert(message@.subrange(0, message.len() as int) == message@);
                bytes
            },
            MidiMessage::SongPositionPointer { position } => {
                let pair = position.to_bytes();
                vec![SONG_POSITION_POINTER_MASK, pair[0], pair[1]]
            },
            MidiMessage::SongSelect { song } => vec![SONG_SELECT_MASK, song.to_byte()],
            MidiMessage::TimingClock => vec![TIMING_CLOCK_MASK],
            MidiMessage::Start => vec![START_MASK],
            MidiMessage::Continue => vec![CONTINUE_MASK],
            MidiMessage::Stop => vec![STOP_MASK],
            MidiMessage::ActiveSensing => vec![ACTIVE_SENSING_MASK],
            MidiMessage::Reset => vec![RESET_MASK],
            MidiMessage::TuneRequest => vec![TUNE_REQUEST_MASK],
        }
    }

    /// The number of bytes that [`MidiMessage::to_bytes`] gives.
    pub fn size_hint(&self) -> (size: usize)
        requires
            self matches MidiMessage::SysExMessage(payload) ==> payload@.len() + 2 <= usize::MAX,
        ensures
            size == encode(self@).len(),
    {
        match self {
            MidiMessage::NoteOn { .. } => 3,
            MidiMessage::NoteOff { .. } => 3,
            MidiMessage::PolyphonicKeyPressure { .. } => 3,
            MidiMessage::ControlChange { .. } => 3,
            MidiMessage::ProgramChange { .. } => 2,
            MidiMessage::ChannelPressure { .. } => 2,
            MidiMessage::PitchWheelChange { .. } => 3,
            MidiMessage::SysExMessage(inner) => 2 + inner.len(),
            MidiMessage::SongPositionPointer { .. } => 3,
            MidiMessage::SongSelect { .. } => 2,
            MidiMessage::TuneRequest => 1,
            MidiMessage::TimingClock => 1,
            MidiMessage::Start => 1,
            MidiMessage::Continue => 1,
            MidiMessage::Stop => 1,
            MidiMessage::ActiveSensing => 1,
            MidiMessage::Reset => 1,
        }
    }
}

/// A message of a channel comes back unchanged when its bytes are read
/// again.
pub proof fn lemma_channel_voice_round_trip(message: MidiMessageView)
    requires
        is_channel_voice(message),
    ensures
        decode(encode(message)) == Ok::<MidiMessageView, MidiMessageError>(message),
{
    assert forall|mask: u8, channel: u8|
        channel < 16 && (mask == 0x80 || mask == 0x90 || mask == 0xa0 || mask == 0xb0 || mask
            == 0xc0 || mask == 0xd0 || mask == 0xe0) implies #[trigger] ((mask | channel) & 0xf0)
        == mask && (mask | channel) & 0x0f == channel by {
        assert(channel < 16 && (mask == 0x80 || mask == 0x90 || mask == 0xa0 || mask == 0xb0
            || mask == 0xc0 || mask == 0xd0 || mask == 0xe0) ==> ((mask | channel) & 0xf0) == mask
            && (mask | channel) & 0x0f == channel) by (bit_vector);
    }
    match message {
        MidiMessageView::PitchWheelChange { channel, pitch } => {
            let value = pitch.0;
            assert(value < 16384 ==> ((value & 0b0111_1111) as u8) < 128 && (((value >> 7)
                & 0xff) as u8) < 128 && ((((value >> 7) & 0xff) as u8) as u16) * 128 + (((value
                & 0b0111_1111) as u8) as u16) == value) by (bit_vector);
        },
        _ => {},
    }
}

/// A system-exclusive frame comes back unchanged when its bytes are read
/// again.
pub proof fn lemma_sysex_round_trip(payload: Seq<u8>)
    ensures
        decode(encode(MidiMessageView::SysExMessage(payload))) == Ok::<
            MidiMessageView,
            MidiMessageError,
        >(MidiMessageView::SysExMessage(payload)),
{
    let bytes = encode(MidiMessageView::SysExMessage(payload));
    assert(0xf0u8 & 0xf0u8 == 0xf0u8) by (bit_vector);
    assert(bytes.subrange(1, bytes.len() - 1) =~= payload);
}

} // verus!
