use fermata::general_midi::{Instrument, Percussion};
use fermata::midi::{
    ChannelMode, Controller, DecodeError, EncodedMessage, ManufacturerId, Message,
};

/// Invalid controller numbers result in `None` from `Controller::from_controller_number`
#[test]
fn from_controller_number_none() {
    assert!(Controller::from_controller_number(120).is_none());
    assert!(Controller::from_controller_number(128).is_none());
    assert!(Controller::from_controller_number(255).is_none());
}

fn all_messages() -> Vec<Message> {
    vec![
        Message::NoteOff {
            channel: 0,
            note: 64,
            velocity: 64,
        },
        Message::NoteOn {
            channel: 0,
            note: 64,
            velocity: 64,
        },
        Message::KeyPressure {
            channel: 0,
            note: 64,
            pressure: 64,
        },
        Message::ControlChange {
            channel: 0,
            controller: Controller::Sustain,
            value: 64,
        },
        Message::ProgramChange {
            channel: 0,
            program: 0,
        },
        Message::ChannelPressure {
            channel: 0,
            pressure: 64,
        },
        Message::PitchBend {
            channel: 0,
            pitch_bend: 128,
        },
        Message::ChannelMode {
            channel: 0,
            mode: ChannelMode::AllSoundOff,
            value: 64,
        },
        Message::SystemExclusive {
            id: ManufacturerId::Basic(12),
        },
        Message::SystemExclusive {
            id: ManufacturerId::Extended(130),
        },
        Message::QuarterFrame { value: 64 },
        Message::SongPositionPointer { pointer: 130 },
        Message::SongSelect { song: 12 },
        Message::TuneRequest,
        Message::EndOfExclusive,
        Message::TimingClock,
        Message::Start,
        Message::Continue,
        Message::Stop,
        Message::ActiveSensing,
        Message::SystemReset,
    ]
}

/// Agreement between `Message::encode()` and `Message::encoded_len()`
#[test]
fn encoded_len() {
    for msg in all_messages() {
        let encoded = msg.encode(true);
        let encoded_len = msg.encoded_len();

        assert_eq!(
            encoded.len(),
            encoded_len,
            "mismatch between expected and actual encoded len: {msg:?} => {encoded:?} (expected len {encoded_len})"
        );
    }
}

#[test]
fn encode_exact_bytes() {
    let m = Message::NoteOn { channel: 3, note: 60, velocity: 100 };
    assert_eq!(m.encode(true).as_slice(), &[0x93, 60, 100]);
    assert_eq!(m.encode(false).as_slice(), &[60, 100]);
    assert_eq!(m.status(), 0x93);

    // Channel and data bytes are masked.
    let m = Message::NoteOff { channel: 0x13, note: 0xc0, velocity: 0xff };
    assert_eq!(m.encode(true).as_slice(), &[0x83, 0x40, 0x7f]);

    let m = Message::PitchBend { channel: 1, pitch_bend: 8192 };
    assert_eq!(m.encode(true).as_slice(), &[0xe1, 0x00, 0x40]);
    let m = Message::PitchBend { channel: 1, pitch_bend: 0x3fff };
    assert_eq!(m.encode(true).as_slice(), &[0xe1, 0x7f, 0x7f]);

    let m = Message::SongPositionPointer { pointer: 130 };
    assert_eq!(m.encode(true).as_slice(), &[0xf2, 2, 1]);

    let m = Message::ControlChange {
        channel: 2,
        controller: Controller::ChannelVolumeMsb,
        value: 127,
    };
    assert_eq!(m.encode(true).as_slice(), &[0xb2, 0x07, 0x7f]);

    let m = Message::ControlChange {
        channel: 2,
        controller: Controller::Undefined(0x83),
        value: 1,
    };
    assert_eq!(m.encode(true).as_slice(), &[0xb2, 0x03, 0x01]);

    let m = Message::ChannelMode { channel: 15, mode: ChannelMode::PolyModeOn, value: 0 };
    assert_eq!(m.encode(true).as_slice(), &[0xbf, 127, 0]);

    let m = Message::SystemExclusive { id: ManufacturerId::Extended(0x2109) };
    assert_eq!(m.encode(true).as_slice(), &[0xf0, 0x00, 0x21, 0x09]);
    assert_eq!(m.encode(false).as_slice(), &[0x00, 0x21, 0x09]);

    let m = Message::SystemExclusive { id: ManufacturerId::non_commercial() };
    assert_eq!(m.encode(true).as_slice(), &[0xf0, 0x7d]);

    // Dataless messages keep their status byte even without encode_status.
    assert_eq!(Message::TimingClock.encode(false).as_slice(), &[0xf8]);
    assert_eq!(Message::SystemReset.encode(true).as_slice(), &[0xff]);
    assert!(!Message::Stop.encode(false).is_empty());
}

#[test]
fn encoded_message_views() {
    let enc: EncodedMessage = Message::QuarterFrame { value: 5 }.encode(true);
    let slice: &[u8] = &enc;
    assert_eq!(slice, &[0xf1, 5]);
    assert_eq!(enc.as_ref(), &[0xf1, 5]);
    assert_eq!(enc.len(), 2);
}

#[test]
fn decode_messages() {
    assert_eq!(
        Message::decode(&[0x93, 60, 100], None),
        Ok(Message::NoteOn { channel: 3, note: 60, velocity: 100 })
    );
    assert_eq!(
        Message::decode(&[0x8f, 1, 2], None),
        Ok(Message::NoteOff { channel: 15, note: 1, velocity: 2 })
    );
    assert_eq!(
        Message::decode(&[0xa1, 1, 2], None),
        Ok(Message::KeyPressure { channel: 1, note: 1, pressure: 2 })
    );
    assert_eq!(
        Message::decode(&[0xb0, 0x40, 0x7f], None),
        Ok(Message::ControlChange { channel: 0, controller: Controller::Sustain, value: 127 })
    );
    assert_eq!(
        Message::decode(&[0xb0, 0x03, 0x01], None),
        Ok(Message::ControlChange { channel: 0, controller: Controller::Undefined(3), value: 1 })
    );
    assert_eq!(
        Message::decode(&[0xb5, 123, 0], None),
        Ok(Message::ChannelMode { channel: 5, mode: ChannelMode::AllNotesOff, value: 0 })
    );
    assert_eq!(
        Message::decode(&[0xc2, 40], None),
        Ok(Message::ProgramChange { channel: 2, program: 40 })
    );
    assert_eq!(
        Message::decode(&[0xd2, 40], None),
        Ok(Message::ChannelPressure { channel: 2, pressure: 40 })
    );
    assert_eq!(
        Message::decode(&[0xe0, 0x00, 0x40], None),
        Ok(Message::PitchBend { channel: 0, pitch_bend: 8192 })
    );
    assert_eq!(
        Message::decode(&[0xf0, 0x41, 1, 2, 3], None),
        Ok(Message::SystemExclusive { id: ManufacturerId::Basic(0x41) })
    );
    assert_eq!(
        Message::decode(&[0xf0, 0x00, 0x21, 0x09, 0x55], None),
        Ok(Message::SystemExclusive { id: ManufacturerId::Extended(0x2109) })
    );
    assert_eq!(
        Message::decode(&[0xf1, 9], None),
        Ok(Message::QuarterFrame { value: 9 })
    );
    assert_eq!(
        Message::decode(&[0xf2, 2, 1], None),
        Ok(Message::SongPositionPointer { pointer: 130 })
    );
    assert_eq!(Message::decode(&[0xf3, 9], None), Ok(Message::SongSelect { song: 9 }));
    assert_eq!(Message::decode(&[0xf6], None), Ok(Message::TuneRequest));
    assert_eq!(Message::decode(&[0xf7], None), Ok(Message::EndOfExclusive));
    assert_eq!(Message::decode(&[0xf8], None), Ok(Message::TimingClock));
    assert_eq!(Message::decode(&[0xfa], None), Ok(Message::Start));
    assert_eq!(Message::decode(&[0xfb], None), Ok(Message::Continue));
    assert_eq!(Message::decode(&[0xfc], None), Ok(Message::Stop));
    assert_eq!(Message::decode(&[0xfe], None), Ok(Message::ActiveSensing));
    assert_eq!(Message::decode(&[0xff], None), Ok(Message::SystemReset));
}

#[test]
fn decode_running_status() {
    assert_eq!(
        Message::decode(&[60, 0], Some(0x92)),
        Ok(Message::NoteOn { channel: 2, note: 60, velocity: 0 })
    );
    // A status byte in the buffer wins over the running status.
    assert_eq!(
        Message::decode(&[0x80, 60, 0], Some(0x92)),
        Ok(Message::NoteOff { channel: 0, note: 60, velocity: 0 })
    );
    // A running status that is not a status byte is no status.
    assert_eq!(Message::decode(&[60, 0], Some(0x12)), Err(DecodeError::MissingStatus));
}

#[test]
fn decode_errors() {
    assert_eq!(Message::decode(&[], None), Err(DecodeError::EmptyBuffer));
    assert_eq!(Message::decode(&[], Some(0x90)), Err(DecodeError::EmptyBuffer));
    assert_eq!(Message::decode(&[60, 0], None), Err(DecodeError::MissingStatus));
    assert_eq!(Message::decode(&[0x90, 60], None), Err(DecodeError::IncorrectLen));
    assert_eq!(Message::decode(&[0x90, 60, 1, 2], None), Err(DecodeError::IncorrectLen));
    assert_eq!(Message::decode(&[0x90, 60, 0x80], None), Err(DecodeError::InvalidDataByte));
    assert_eq!(Message::decode(&[0xc0, 0x80], None), Err(DecodeError::InvalidDataByte));
    assert_eq!(Message::decode(&[0xc0], None), Err(DecodeError::IncorrectLen));
    assert_eq!(Message::decode(&[0xf0], None), Err(DecodeError::IncorrectLen));
    assert_eq!(Message::decode(&[0xf0, 0, 1], None), Err(DecodeError::IncorrectLen));
    assert_eq!(Message::decode(&[0xf2, 1, 0x90], None), Err(DecodeError::InvalidDataByte));
    assert_eq!(Message::decode(&[0xf8, 1], None), Err(DecodeError::IncorrectLen));
    assert_eq!(Message::decode(&[0xf4], None), Err(DecodeError::UnrecognizedStatus));
    assert_eq!(Message::decode(&[0xf5, 1, 2], None), Err(DecodeError::UnrecognizedStatus));
    assert_eq!(Message::decode(&[0xf9], None), Err(DecodeError::UnrecognizedStatus));
    assert_eq!(Message::decode(&[0xfd], None), Err(DecodeError::UnrecognizedStatus));
}

#[test]
fn encode_decode_round_trip() {
    for msg in all_messages() {
        let enc = msg.encode(true);
        assert_eq!(Message::decode(&enc, None), Ok(msg));
        assert_eq!(Message::decode(&enc, Some(0x90)), Ok(msg));
        let running = msg.encode(false);
        assert_eq!(Message::decode(&running, Some(msg.status())), Ok(msg));
    }
}

#[test]
fn decode_encode_round_trip() {
    let inputs: [&[u8]; 5] = [
        &[0x9a, 1, 2],
        &[0xb1, 7, 100],
        &[0xe3, 0x7f, 0x01],
        &[0xf0, 0x00, 0x01, 0x02, 0xaa, 0xbb],
        &[0xf7],
    ];
    for bytes in inputs {
        let msg = Message::decode(bytes, None).unwrap();
        let enc = msg.encode(true);
        assert_eq!(&bytes[..msg.encoded_len()], enc.as_slice());
    }
}

#[test]
fn controller_numbers() {
    assert_eq!(Controller::from_controller_number(0x40), Some(Controller::Sustain));
    assert_eq!(Controller::from_controller_number(0x03), Some(Controller::Undefined(3)));
    assert_eq!(Controller::from_controller_number(119), Some(Controller::Undefined(119)));
    assert_eq!(Controller::Sustain.controller_number(), 0x40);
    assert_eq!(Controller::RegisteredParamMsb.controller_number(), 0x65);
    assert_eq!(Controller::Undefined(0xff).controller_number(), 0x7f);
    assert_eq!(ChannelMode::from_mode_number(120), Some(ChannelMode::AllSoundOff));
    assert_eq!(ChannelMode::from_mode_number(127), Some(ChannelMode::PolyModeOn));
    assert_eq!(ChannelMode::from_mode_number(119), None);
    assert_eq!(ChannelMode::OmniModeOn.mode_number(), 125);
}

#[test]
fn manufacturer_ids() {
    assert_eq!(ManufacturerId::non_commercial(), ManufacturerId::Basic(0x7d));
    assert_eq!(ManufacturerId::universal_non_real_time(), ManufacturerId::Basic(0x7e));
    assert_eq!(ManufacturerId::universal_real_time(), ManufacturerId::Basic(0x7f));
}

#[test]
fn instruments() {
    for i in 0..=255u8 {
        match Instrument::from_program_number(i) {
            Some(instr) => {
                assert!(i < 128);
                assert_eq!(instr.program_number(), i);
                assert_eq!(u8::from(instr), i);
            }
            None => assert!(i >= 128),
        }
    }
    assert_eq!(Instrument::Clavi.program_number(), 7);
    assert_eq!(Instrument::GuitarHarmonics.program_number(), 31);
    assert_eq!(Instrument::SynthBrass2.program_number(), 63);
    assert_eq!(Instrument::Pad8Sweep.program_number(), 95);
    assert_eq!(Instrument::Gunshot.program_number(), 127);
}

#[test]
fn percussion() {
    for i in 0..=255u8 {
        match Percussion::from_note_number(i) {
            Some(perc) => {
                assert!((35..=81).contains(&i));
                assert_eq!(perc.note_number(), i);
                assert_eq!(u8::from(perc), i);
            }
            None => assert!(!(35..=81).contains(&i)),
        }
    }
    assert_eq!(Percussion::AcousticBassDrum.note_number(), 35);
    assert_eq!(Percussion::HighTom.note_number(), 50);
    assert_eq!(Percussion::LowTimbale.note_number(), 66);
    assert_eq!(Percussion::OpenTriangle.note_number(), 81);
}

#[test]
fn decode_error_messages() {
    assert_eq!(DecodeError::EmptyBuffer.to_string(), "empty message");
    assert_eq!(DecodeError::MissingStatus.to_string(), "missing status byte");
    assert_eq!(DecodeError::InvalidDataByte.to_string(), "invalid data byte in message");
    assert_eq!(DecodeError::IncorrectLen.to_string(), "incorrect message length");
    assert_eq!(DecodeError::UnrecognizedStatus.to_string(), "unrecognized status byte");
}
