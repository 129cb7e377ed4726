use grandma2::midi::{
    Channel, ControlValue, Controller, MidiMessage, MidiMessageError, Note, Pitch, Position,
    Pressure, Program, Song, Velocity,
};

#[test]
fn note_on_is_read_and_written() {
    let message = MidiMessage::from(&[0x93, 60, 127]).unwrap();
    assert_eq!(
        message,
        MidiMessage::NoteOn {
            channel: Channel(3),
            note: Note(60),
            velocity: Velocity(127),
        }
    );
    assert_eq!(message.to_bytes(), vec![0x93, 60, 127]);
    assert_eq!(message.size_hint(), 3);
}

#[test]
fn every_channel_message_comes_back_from_its_bytes() {
    let messages = vec![
        MidiMessage::NoteOn {
            channel: Channel(0),
            note: Note(11),
            velocity: Velocity(127),
        },
        MidiMessage::NoteOff {
            channel: Channel(15),
            note: Note(0),
            velocity: Velocity(0),
        },
        MidiMessage::PolyphonicKeyPressure {
            channel: Channel(1),
            note: Note(64),
            pressure: Pressure(99),
        },
        MidiMessage::ControlChange {
            channel: Channel(2),
            controller_number: Controller(7),
            value: ControlValue(100),
        },
        MidiMessage::ProgramChange {
            channel: Channel(9),
            program_number: Program(42),
        },
        MidiMessage::ChannelPressure {
            channel: Channel(4),
            pressure: Pressure(1),
        },
        MidiMessage::PitchWheelChange {
            channel: Channel(5),
            pitch: Pitch(8192),
        },
        MidiMessage::PitchWheelChange {
            channel: Channel(5),
            pitch: Pitch(16383),
        },
        MidiMessage::SysExMessage(vec![1, 2, 3]),
        MidiMessage::SysExMessage(Vec::new()),
    ];
    for message in messages {
        let bytes = message.to_bytes();
        assert_eq!(bytes.len(), message.size_hint());
        assert_eq!(MidiMessage::from(&bytes), Ok(message));
    }
}

#[test]
fn exact_bytes_of_each_kind() {
    assert_eq!(
        MidiMessage::NoteOff {
            channel: Channel(1),
            note: Note(2),
            velocity: Velocity(3)
        }
        .to_bytes(),
        vec![0x81, 2, 3]
    );
    assert_eq!(
        MidiMessage::PolyphonicKeyPressure {
            channel: Channel(1),
            note: Note(2),
            pressure: Pressure(3)
        }
        .to_bytes(),
        vec![0xa1, 2, 3]
    );
    assert_eq!(
        MidiMessage::ControlChange {
            channel: Channel(1),
            controller_number: Controller(2),
            value: ControlValue(3)
        }
        .to_bytes(),
        vec![0xb1, 2, 3]
    );
    assert_eq!(
        MidiMessage::ProgramChange {
            channel: Channel(1),
            program_number: Program(2)
        }
        .to_bytes(),
        vec![0xc1, 2]
    );
    assert_eq!(
        MidiMessage::ChannelPressure {
            channel: Channel(1),
            pressure: Pressure(2)
        }
        .to_bytes(),
        vec![0xd1, 2]
    );
    assert_eq!(
        MidiMessage::PitchWheelChange {
            channel: Channel(1),
            pitch: Pitch(0x1234)
        }
        .to_bytes(),
        vec![0xe1, 0x34, 0x24]
    );
    assert_eq!(
        MidiMessage::SysExMessage(vec![9, 8]).to_bytes(),
        vec![0xf0, 9, 8, 0xf7]
    );
    assert_eq!(
        MidiMessage::SongPositionPointer {
            position: Position(0x0081)
        }
        .to_bytes(),
        vec![0xf2, 1, 1]
    );
    assert_eq!(
        MidiMessage::SongSelect { song: Song(5) }.to_bytes(),
        vec![0xf3, 5]
    );
    assert_eq!(MidiMessage::TuneRequest.to_bytes(), vec![0xf6]);
    assert_eq!(MidiMessage::TimingClock.to_bytes(), vec![0xf8]);
    assert_eq!(MidiMessage::Start.to_bytes(), vec![0xfa]);
    assert_eq!(MidiMessage::Continue.to_bytes(), vec![0xfb]);
    assert_eq!(MidiMessage::Stop.to_bytes(), vec![0xfc]);
    assert_eq!(MidiMessage::ActiveSensing.to_bytes(), vec![0xfe]);
    assert_eq!(MidiMessage::Reset.to_bytes(), vec![0xff]);
}

#[test]
fn sizes_match_the_bytes() {
    let messages = vec![
        MidiMessage::SongPositionPointer {
            position: Position(5),
        },
        MidiMessage::SongSelect { song: Song(5) },
        MidiMessage::TuneRequest,
        MidiMessage::TimingClock,
        MidiMessage::Start,
        MidiMessage::Continue,
        MidiMessage::Stop,
        MidiMessage::ActiveSensing,
        MidiMessage::Reset,
        MidiMessage::SysExMessage(vec![0; 17]),
    ];
    for message in messages {
        assert_eq!(message.size_hint(), message.to_bytes().len());
    }
    assert_eq!(MidiMessage::SysExMessage(vec![0; 17]).size_hint(), 19);
}

#[test]
fn pitch_takes_the_low_seven_bits_first() {
    assert_eq!(
        MidiMessage::from(&[0xe0, 0x00, 0x40]),
        Ok(MidiMessage::PitchWheelChange {
            channel: Channel(0),
            pitch: Pitch(8192),
        })
    );
    assert_eq!(Pitch::from(0x7f, 0x00), Ok(Pitch(127)));
    assert_eq!(Pitch::from(0x00, 0x01), Ok(Pitch(128)));
    assert_eq!(Pitch(8192).to_bytes(), [0x00, 0x40]);
    assert_eq!(Position::from(0x7f, 0x7f), Ok(Position(16383)));
    assert_eq!(Position(16383).to_bytes(), [0x7f, 0x7f]);
}

#[test]
fn data_bytes_with_the_top_bit_set_are_refused() {
    assert_eq!(
        MidiMessage::from(&[0x80, 0x80, 0]),
        Err(MidiMessageError::InvalidNote(0x80))
    );
    assert_eq!(
        MidiMessage::from(&[0x90, 0x80]),
        Err(MidiMessageError::InvalidNote(0x80))
    );
    assert_eq!(
        MidiMessage::from(&[0x90, 1, 0xff]),
        Err(MidiMessageError::InvalidVelocity(0xff))
    );
    assert_eq!(
        MidiMessage::from(&[0xa0, 1, 0x90]),
        Err(MidiMessageError::InvalidPressure(0x90))
    );
    assert_eq!(
        MidiMessage::from(&[0xb0, 0x81, 1]),
        Err(MidiMessageError::InvalidController(0x81))
    );
    assert_eq!(
        MidiMessage::from(&[0xb0, 1, 0x81]),
        Err(MidiMessageError::InvalidValue(0x81))
    );
    assert_eq!(
        MidiMessage::from(&[0xc0, 0x82]),
        Err(MidiMessageError::InvalidProgram(0x82))
    );
    assert_eq!(
        MidiMessage::from(&[0xd0, 0x83]),
        Err(MidiMessageError::InvalidPressure(0x83))
    );
    assert_eq!(
        MidiMessage::from(&[0xe0, 0x84, 1]),
        Err(MidiMessageError::InvalidPitch(0x84, 1))
    );
    assert_eq!(
        MidiMessage::from(&[0xe0, 1, 0x85]),
        Err(MidiMessageError::InvalidPitch(1, 0x85))
    );
    assert_eq!(
        Position::from(0x80, 0),
        Err(MidiMessageError::InvalidPosition(0x80, 0))
    );
    assert_eq!(Song::from(0x80), Err(MidiMessageError::InvalidSong(0x80)));
    assert_eq!(
        Channel::from(0x80),
        Err(MidiMessageError::InvalidChannel(0x80))
    );
    assert_eq!(Channel::from(0x7f), Ok(Channel(0x7f)));
    assert_eq!(Note(5).to_byte(), 5);
}

#[test]
fn first_byte_without_status_is_an_invalid_code() {
    assert_eq!(
        MidiMessage::from(&[0x45]),
        Err(MidiMessageError::InvalidCode(0x40))
    );
    assert_eq!(
        MidiMessage::from(&[0x00, 1, 2]),
        Err(MidiMessageError::InvalidCode(0x00))
    );
}

#[test]
fn frames_from_f0_up_must_end_in_the_end_marker() {
    assert_eq!(
        MidiMessage::from(&[0xf0, 1, 2]),
        Err(MidiMessageError::InvalidLength)
    );
    assert_eq!(
        MidiMessage::from(&[0xf8]),
        Err(MidiMessageError::InvalidLength)
    );
    assert_eq!(
        MidiMessage::from(&[0xf2, 1, 1]),
        Err(MidiMessageError::InvalidLength)
    );
    assert_eq!(
        MidiMessage::from(&[0xf0, 0xf7]),
        Ok(MidiMessage::SysExMessage(Vec::new()))
    );
    assert_eq!(
        MidiMessage::from(&[0xf3, 7, 0xf7]),
        Ok(MidiMessage::SysExMessage(vec![7]))
    );
}
