//! Type representations for MIDI messages and values.
//!
//! This module includes definitions for the basic MIDI specification. The
//! General MIDI sound maps are defined in the
//! [`general_midi`](crate::general_midi) module.

pub mod controller;
pub mod param;
pub mod round_trip;
pub mod status;

pub use controller::{ChannelMode, Controller};

use controller::lemma_data_mask;
use vstd::prelude::*;
use vstd::slice::slice_subrange;
use vstd::string::StringExecFns;

verus! {

/// A MIDI message.
///
/// All data byte fields in this enum accept the full `u8` range. Per the MIDI
/// specification, all encoded data bytes must have their high bit cleared;
/// hence, during encoding, all data bytes will be masked to their low seven
/// bits. During decoding, an expected data byte with its high bit set will
/// result in an error.
///
/// Similarly, for channel messages, this enum allows a full `u8` for the
/// channel number. This will be masked to the low four bits during encoding,
/// and decoding will never result in a channel number greater than 15 (0x0f).
///
/// # Handling of System Exclusive messages
///
/// System exclusive messages can contain an arbitrary amount of data in their
/// payload. In order to keep this type small and `Copy`able, it does not
/// contain the data payload of system exclusive messages; instead, it contains
/// only the manufacturer ID that precedes the payload. It is the responsibility
/// of user code to encode and decode the contents of system exclusive messages.
#[derive(Debug, Clone, Copy, PartialEq, Eq, Hash, Structural)]
pub enum Message {
    NoteOff { channel: u8, note: u8, velocity: u8 },
    NoteOn { channel: u8, note: u8, velocity: u8 },
    KeyPressure { channel: u8, note: u8, pressure: u8 },
    ControlChange { channel: u8, controller: Controller, value: u8 },
    ProgramChange { channel: u8, program: u8 },
    ChannelPressure { channel: u8, pressure: u8 },
    PitchBend { channel: u8, pitch_bend: u16 },
    ChannelMode { channel: u8, mode: ChannelMode, value: u8 },
    SystemExclusive { id: ManufacturerId },
    QuarterFrame { value: u8 },
    SongPositionPointer { pointer: u16 },
    SongSelect { song: u8 },
    TuneRequest,
    EndOfExclusive,
    TimingClock,
    Start,
    Continue,
    Stop,
    ActiveSensing,
    SystemReset,
}

/// A system exclusive manufacturer ID.
///
/// MIDI System Exclusive messages are identified by one or three bytes
/// following the status byte. If the first byte following the status is
/// non-zero, then it is the ID; if it is zero, then the following two bytes
/// constitute the ID. This enum represents these two modes of ID with the
/// variants `Basic` (for single-byte IDs) and `Extended` (for two-byte IDs).
///
/// Extended IDs are represented here by a `u16`; the high byte corresponds
/// to the first non-zero byte of the ID, and the low byte corresponds to the
/// second non-zero byte.
///
/// Manufacturer ID bytes are the only non-status bytes that are permitted
/// to have their high bits set; there are a handful of registered extended
/// manufacturer IDs whose third byte has a set high bit. This library permits
/// (for both encoding and decoding) any byte in either basic or extended IDs to
/// have a set high bit.
///
/// Note that, although the data payload format for universal system exclusive
/// messages is defined by the MIDI specification, this library does not
/// facilitate the encoding or decoding of such messages.
#[derive(Debug, Clone, Copy, PartialEq, Eq, Hash, Structural)]
pub enum ManufacturerId {
    Basic(u8),
    Extended(u16),
}

/// MIDI message decoding errors.
#[derive(Debug, Clone, Copy, PartialEq, Eq, Hash, Structural)]
pub enum DecodeError {
    /// An empty message buffer was provided.
    EmptyBuffer,
    /// The message buffer does not start with a status byte, and no running
    /// status was provided.
    MissingStatus,
    /// An expected data byte had its high bit set.
    InvalidDataByte,
    /// The message buffer is of an incorrect length for the message type.
    IncorrectLen,
    /// The status byte for the message is unrecognized or undefined.
    ///
    /// The MIDI specification recommends that such messages be silently
    /// ignored.
    UnrecognizedStatus,
}

impl DecodeError {
    /// The message that describes this error.
    pub open spec fn spec_message(self) -> Seq<char> {
        match self {
            DecodeError::EmptyBuffer => "empty message"@,
            DecodeError::MissingStatus => "missing status byte"@,
            DecodeError::InvalidDataByte => "invalid data byte in message"@,
            DecodeError::IncorrectLen => "incorrect message length"@,
            DecodeError::UnrecognizedStatus => "unrecognized status byte"@,
        }
    }

    /// The message that describes this error, such as `empty message`.
    pub fn to_string(&self) -> (r: String)
        ensures
            r@ == self.spec_message(),
    {
        match self {
            DecodeError::EmptyBuffer => String::from_str("empty message"),
            DecodeError::MissingStatus => String::from_str("missing status byte"),
            DecodeError::InvalidDataByte => String::from_str("invalid data byte in message"),
            DecodeError::IncorrectLen => String::from_str("incorrect message length"),
            DecodeError::UnrecognizedStatus => String::from_str("unrecognized status byte"),
        }
    }
}

/// A byte with its high bit cleared: the data byte that encodes `b`.
pub open spec fn data_byte(b: u8) -> u8 {
    (b % 128) as u8
}

/// The status byte of a channel message: the kind's status byte for channel
/// 0, with the low four bits of the channel number in its low nibble.
pub open spec fn channel_status(kind: u8, channel: u8) -> u8 {
    (kind + channel % 16) as u8
}

/// Every byte of `s` is a data byte (has its high bit cleared).
pub open spec fn all_data(s: Seq<u8>) -> bool {
    forall|i: int| 0 <= i < s.len() ==> #[trigger] s[i] < 0x80
}

impl ManufacturerId {
    /// The ID reserved for non-commercial use.
    pub fn non_commercial() -> (r: Self)
        ensures
            r == ManufacturerId::Basic(0x7d),
    {
        Self::Basic(0x7d)
    }

    /// The ID of universal non-real-time system exclusive messages.
    pub fn universal_non_real_time() -> (r: Self)
        ensures
            r == ManufacturerId::Basic(0x7e),
    {
        Self::Basic(0x7e)
    }

    /// The ID of universal real-time system exclusive messages.
    pub fn universal_real_time() -> (r: Self)
        ensures
            r == ManufacturerId::Basic(0x7f),
    {
        Self::Basic(0x7f)
    }

    /// The bytes that encode this ID after the status byte: the single byte
    /// of a basic ID, or a zero followed by the high and the low byte of an
    /// extended one.
    pub open spec fn spec_bytes(self) -> Seq<u8> {
        match self {
            ManufacturerId::Basic(b) => seq![b],
            ManufacturerId::Extended(x) => seq![0u8, (x / 256) as u8, (x % 256) as u8],
        }
    }

    /// Append the encoded form of this ID to `enc`.
    ///
    /// A basic ID of 0 cannot be encoded: a zero byte introduces an extended
    /// ID.
    fn encode(&self, enc: &mut EncodedMessage)
        requires
            *self != ManufacturerId::Basic(0),
            old(enc)@.len() + self.spec_bytes().len() <= 4,
        ensures
            final(enc)@ == old(enc)@ + self.spec_bytes(),
    {
        match self {
            ManufacturerId::Basic(id) => {
                enc.push(*id);
            },
            ManufacturerId::Extended(id) => {
                let id: u16 = *id;
                proof {
                    lemma_u16_bytes(id);
                }
                let lsb = id as u8;
                let msb = (id >> 8) as u8;
                enc.push_all(&[0, msb, lsb]);
            },
        }
    }
}

impl Message {
    /// The status byte of this message.
    pub open spec fn spec_status(self) -> u8 {
        match self {
            Message::NoteOff { channel, .. } => channel_status(0x80, channel),
            Message::NoteOn { channel, .. } => channel_status(0x90, channel),
            Message::KeyPressure { channel, .. } => channel_status(0xa0, channel),
            Message::ControlChange { channel, .. } => channel_status(0xb0, channel),
            Message::ProgramChange { channel, .. } => channel_status(0xc0, channel),
            Message::ChannelPressure { channel, .. } => channel_status(0xd0, channel),
            Message::PitchBend { channel, .. } => channel_status(0xe0, channel),
            Message::ChannelMode { channel, .. } => channel_status(0xb0, channel),
            Message::SystemExclusive { .. } => 0xf0,
            Message::QuarterFrame { .. } => 0xf1,
            Message::SongPositionPointer { .. } => 0xf2,
            Message::SongSelect { .. } => 0xf3,
            Message::TuneRequest => 0xf6,
            Message::EndOfExclusive => 0xf7,
            Message::TimingClock => 0xf8,
            Message::Start => 0xfa,
            Message::Continue => 0xfb,
            Message::Stop => 0xfc,
            Message::ActiveSensing => 0xfe,
            Message::SystemReset => 0xff,
        }
    }

    /// The bytes that follow the status byte in the encoding of this message.
    /// A 14-bit value is sent as its low seven bits, then its next seven bits.
    pub open spec fn spec_payload(self) -> Seq<u8> {
        match self {
            Message::NoteOff { note, velocity, .. } => seq![data_byte(note), data_byte(velocity)],
            Message::NoteOn { note, velocity, .. } => seq![data_byte(note), data_byte(velocity)],
            Message::KeyPressure { note, pressure, .. } => seq![
                data_byte(note),
                data_byte(pressure),
            ],
            Message::ControlChange { controller, value, .. } => seq![
                controller.spec_number(),
                data_byte(value),
            ],
            Message::ProgramChange { program, .. } => seq![data_byte(program)],
            Message::ChannelPressure { pressure, .. } => seq![data_byte(pressure)],
            Message::PitchBend { pitch_bend, .. } => seq![
                (pitch_bend % 128) as u8,
                ((pitch_bend / 128) % 128) as u8,
            ],
            Message::ChannelMode { mode, value, .. } => seq![mode.spec_number(), data_byte(value)],
            Message::SystemExclusive { id } => id.spec_bytes(),
            Message::QuarterFrame { value } => seq![data_byte(value)],
            Message::SongPositionPointer { pointer } => seq![
                (pointer % 128) as u8,
                ((pointer / 128) % 128) as u8,
            ],
            Message::SongSelect { song } => seq![data_byte(song)],
            _ => seq![],
        }
    }

    /// The over-the-wire form of this message: the status byte followed by
    /// the payload, where the status byte is left out when `encode_status` is
    /// false, unless the message has no payload.
    pub open spec fn spec_encode(self, encode_status: bool) -> Seq<u8> {
        if encode_status || self.spec_payload().len() == 0 {
            seq![self.spec_status()] + self.spec_payload()
        } else {
            self.spec_payload()
        }
    }

    /// The message can be encoded: it is not a system exclusive message with
    /// a basic manufacturer ID of 0.
    pub open spec fn encodable(self) -> bool {
        match self {
            Message::SystemExclusive { id } => id != ManufacturerId::Basic(0),
            _ => true,
        }
    }

    /// The message is in the form that decoding produces: channels below 16,
    /// data bytes below 128, 14-bit values below 16384, controllers in the
    /// form that their number decodes to, and a non-zero basic manufacturer
    /// ID.
    pub open spec fn is_canonical(self) -> bool {
        match self {
            Message::NoteOff { channel, note, velocity } => channel < 16 && note < 128 && velocity
                < 128,
            Message::NoteOn { channel, note, velocity } => channel < 16 && note < 128 && velocity
                < 128,
            Message::KeyPressure { channel, note, pressure } => channel < 16 && note < 128
                && pressure < 128,
            Message::ControlChange { channel, controller, value } => channel < 16 && value < 128
                && Controller::spec_from_number(controller.spec_number()) == Some(controller),
            Message::ProgramChange { channel, program } => channel < 16 && program < 128,
            Message::ChannelPressure { channel, pressure } => channel < 16 && pressure < 128,
            Message::PitchBend { channel, pitch_bend } => channel < 16 && pitch_bend < 16384,
            Message::ChannelMode { channel, value, .. } => channel < 16 && value < 128,
            Message::SystemExclusive { id } => id != ManufacturerId::Basic(0),
            Message::QuarterFrame { value } => value < 128,
            Message::SongPositionPointer { pointer } => pointer < 16384,
            Message::SongSelect { song } => song < 128,
            _ => true,
        }
    }

    /// The message that a status byte with no data bytes stands for, if any.
    pub open spec fn dataless(status: u8) -> Option<Message> {
        if status == 0xf6 {
            Some(Message::TuneRequest)
        } else if status == 0xf7 {
            Some(Message::EndOfExclusive)
        } else if status == 0xf8 {
            Some(Message::TimingClock)
        } else if status == 0xfa {
            Some(Message::Start)
        } else if status == 0xfb {
            Some(Message::Continue)
        } else if status == 0xfc {
            Some(Message::Stop)
        } else if status == 0xfe {
            Some(Message::ActiveSensing)
        } else if status == 0xff {
            Some(Message::SystemReset)
        } else {
            None
        }
    }

    /// The message that the status byte `status` followed by the bytes `body`
    /// decodes to.
    ///
    /// Each message kind has a fixed number of bytes after the status byte
    /// (a system exclusive message at least the bytes of its manufacturer ID),
    /// else the length is incorrect; the bytes of a channel message, a quarter
    /// frame, a song position or a song select must be data bytes; and a
    /// status byte that denotes no message is unrecognized.
    pub open spec fn spec_decode_body(status: u8, body: Seq<u8>) -> Result<Message, DecodeError> {
        if 0x80 <= status <= 0xef {
            let channel = (status % 16) as u8;
            let kind = status - status % 16;
            let len: int = if kind == 0xc0 || kind == 0xd0 {
                1
            } else {
                2
            };
            if body.len() != len {
                Err(DecodeError::IncorrectLen)
            } else if !all_data(body) {
                Err(DecodeError::InvalidDataByte)
            } else if kind == 0x80 {
                Ok(Message::NoteOff { channel, note: body[0], velocity: body[1] })
            } else if kind == 0x90 {
                Ok(Message::NoteOn { channel, note: body[0], velocity: body[1] })
            } else if kind == 0xa0 {
                Ok(Message::KeyPressure { channel, note: body[0], pressure: body[1] })
            } else if kind == 0xb0 {
                if body[0] < 120 {
                    Ok(
                        Message::ControlChange {
                            channel,
                            controller: Controller::spec_from_number(body[0]).unwrap(),
                            value: body[1],
                        },
                    )
                } else {
                    Ok(
                        Message::ChannelMode {
                            channel,
                            mode: ChannelMode::spec_from_number(body[0]).unwrap(),
                            value: body[1],
                        },
                    )
                }
            } else if kind == 0xc0 {
                Ok(Message::ProgramChange { channel, program: body[0] })
            } else if kind == 0xd0 {
                Ok(Message::ChannelPressure { channel, pressure: body[0] })
            } else {
                Ok(Message::PitchBend { channel, pitch_bend: (body[0] + 128 * body[1]) as u16 })
            }
        } else if status == 0xf0 {
            if body.len() < 1 {
                Err(DecodeError::IncorrectLen)
            } else if body[0] == 0 {
                if body.len() < 3 {
                    Err(DecodeError::IncorrectLen)
                } else {
                    Ok(
                        Message::SystemExclusive {
                            id: ManufacturerId::Extended((256 * body[1] + body[2]) as u16),
                        },
                    )
                }
            } else {
                Ok(Message::SystemExclusive { id: ManufacturerId::Basic(body[0]) })
            }
        } else if status == 0xf1 || status == 0xf3 {
            if body.len() != 1 {
                Err(DecodeError::IncorrectLen)
            } else if !all_data(body) {
                Err(DecodeError::InvalidDataByte)
            } else if status == 0xf1 {
                Ok(Message::QuarterFrame { value: body[0] })
            } else {
                Ok(Message::SongSelect { song: body[0] })
            }
        } else if status == 0xf2 {
            if body.len() != 2 {
                Err(DecodeError::IncorrectLen)
            } else if !all_data(body) {
                Err(DecodeError::InvalidDataByte)
            } else {
                Ok(Message::SongPositionPointer { pointer: (body[0] + 128 * body[1]) as u16 })
            }
        } else {
            match Message::dataless(status) {
                Some(m) => if body.len() != 0 {
                    Err(DecodeError::IncorrectLen)
                } else {
                    Ok(m)
                },
                None => Err(DecodeError::UnrecognizedStatus),
            }
        }
    }

    /// The message that `bytes` decodes to, given a running status.
    ///
    /// A buffer that begins with a data byte takes the running status as its
    /// status byte, when one is given that is a status byte, and is decoded
    /// whole; one that begins with a status byte is decoded from the bytes
    /// after it.
    pub open spec fn spec_decode(bytes: Seq<u8>, running_status: Option<u8>) -> Result<
        Message,
        DecodeError,
    > {
        if bytes.len() == 0 {
            Err(DecodeError::EmptyBuffer)
        } else if bytes[0] < 0x80 {
            match running_status {
                Some(running) => if running >= 0x80 {
                    Message::spec_decode_body(running, bytes)
                } else {
                    Err(DecodeError::MissingStatus)
                },
                None => Err(DecodeError::MissingStatus),
            }
        } else {
            Message::spec_decode_body(bytes[0], bytes.drop_first())
        }
    }

    /// Get the status byte of this message.
    pub fn status(&self) -> (r: u8)
        ensures
            r == self.spec_status(),
    {
        match self {
            Message::NoteOff { channel, .. } => chan(status::NOTE_OFF, *channel),
            Message::NoteOn { channel, .. } => chan(status::NOTE_ON, *channel),
            Message::KeyPressure { channel, .. } => chan(status::KEY_PRESSURE, *channel),
            Message::ControlChange { channel, .. } => chan(status::CONTROL_CHANGE, *channel),
            Message::ProgramChange { channel, .. } => chan(status::PROGRAM_CHANGE, *channel),
            Message::ChannelPressure { channel, .. } => chan(status::CHANNEL_PRESSURE, *channel),
            Message::PitchBend { channel, .. } => chan(status::PITCH_BEND, *channel),
            Message::ChannelMode { channel, .. } => chan(status::CHANNEL_MODE, *channel),
            Message::SystemExclusive { .. } => status::SYSTEM_EXCLUSIVE,
            Message::QuarterFrame { .. } => status::SC_MTC_QUARTER_FRAME,
            Message::SongPositionPointer { .. } => status::SC_SONG_POSITION_POINTER,
            Message::SongSelect { .. } => status::SC_SONG_SELECT,
            Message::TuneRequest => status::SC_TUNE_REQUEST,
            Message::EndOfExclusive => status::SC_EOX,
            Message::TimingClock => status::RT_TIMING_CLOCK,
            Message::Start => status::RT_START,
            Message::Continue => status::RT_CONTINUE,
            Message::Stop => status::RT_STOP,
            Message::ActiveSensing => status::RT_ACTIVE_SENSING,
            Message::SystemReset => status::RT_SYSTEM_RESET,
        }
    }

    /// Get the encoded byte length of this message.
    ///
    /// This assumes no running status, i.e. the status byte is included in
    /// the encoding.
    ///
    /// For system exclusive messages, this function computes only the byte
    /// length of the status and manufacturer ID components of the message,
    /// disregarding any data payload.
    pub fn encoded_len(&self) -> (r: usize)
        ensures
            r == self.spec_encode(true).len(),
    {
        match self {
            Message::NoteOff { .. }
            | Message::NoteOn { .. }
            | Message::KeyPressure { .. }
            | Message::ControlChange { .. }
            | Message::PitchBend { .. }
            | Message::ChannelMode { .. }
            | Message::SongPositionPointer { .. } => 3,
            Message::ProgramChange { .. }
            | Message::ChannelPressure { .. }
            | Message::QuarterFrame { .. }
            | Message::SongSelect { .. } => 2,
            Message::TuneRequest
            | Message::EndOfExclusive
            | Message::TimingClock
            | Message::Start
            | Message::Continue
            | Message::Stop
            | Message::ActiveSensing
            | Message::SystemReset => 1,
            Message::SystemExclusive { id } => match id {
                ManufacturerId::Basic(_) => 2,
                ManufacturerId::Extended(_) => 4,
            },
        }
    }

    /// Encode this message its over-the-wire byte form.
    ///
    /// For system exclusive messages, the data payload must be encoded
    /// separately; see [`Message`] for further details.
    ///
    /// If `encode_status` is false, the message status byte is not encoded,
    /// unless this would result in an empty message (i.e. `self` represents
    /// a message that has no data payload). This functionality is to support
    /// encoding of running status.
    pub fn encode(&self, encode_status: bool) -> (r: EncodedMessage)
        requires
            self.encodable(),
        ensures
            r@ == self.spec_encode(encode_status),
    {
        let mut enc = EncodedMessage::new();

        if encode_status {
            enc.push(self.status());
        }

        match self {
            Message::NoteOff { note, velocity, .. } | Message::NoteOn { note, velocity, .. } => {
                enc.push_all(&[data(*note), data(*velocity)])
            },
            Message::KeyPressure { note, pressure, .. } => {
                enc.push_all(&[data(*note), data(*pressure)])
            },
            Message::ControlChange { controller, value, .. } => {
                enc.push_all(&[controller.controller_number(), data(*value)])
            },
            Message::ProgramChange { program, .. } => enc.push(data(*program)),
            Message::ChannelPressure { pressure, .. } => enc.push(data(*pressure)),
            Message::PitchBend { pitch_bend, .. } => {
                let (lsb, msb) = split_14_bits(*pitch_bend);
                enc.push_all(&[lsb, msb]);
            },
            Message::ChannelMode { mode, value, .. } => {
                enc.push_all(&[mode.mode_number(), data(*value)])
            },
            Message::SystemExclusive { id } => id.encode(&mut enc),
            Message::QuarterFrame { value } => enc.push(data(*value)),
            Message::SongPositionPointer { pointer } => {
                let (lsb, msb) = split_14_bits(*pointer);
                enc.push_all(&[lsb, msb]);
            },
            Message::SongSelect { song } => enc.push(data(*song)),
            // For dataless messages, always encode the status byte (there would
            // be no message otherwise)
            _ => {
                if !encode_status {
                    enc.push(self.status());
                }
            },
        }
        enc
    }
    /// Decode a message from a byte slice.
    ///
    /// The given slice must contain exactly one MIDI message, beginning with
    /// a valid status byte unless a running status is provided. If a running
    /// status is provided, and the given slice does not begin with a status
    /// byte, the given running status is assumed.
    ///
    /// For system exclusive messages, this function will decode the
    /// manufacturer ID only; the contents of the slice following the ID is
    /// assumed to be the data payload, and is not examined.
    pub fn decode(bytes: &[u8], running_status: Option<u8>) -> (r: Result<Self, DecodeError>)
        ensures
            r == Message::spec_decode(bytes@, running_status),
    {
        if bytes.len() == 0 {
            return Err(DecodeError::EmptyBuffer);
        }
        let first = bytes[0];
        let first_is_data = is_data(first);
        match running_status {
            Some(running) if first_is_data && !is_data(running) => Self::decode_body(running, bytes),
            _ => {
                if !first_is_data {
                    let body = slice_subrange(bytes, 1, bytes.len());
                    assert(body@ =~= bytes@.drop_first());
                    Self::decode_body(first, body)
                } else {
                    Err(DecodeError::MissingStatus)
                }
            },
        }
    }

    /// Decode the bytes that follow the status byte `status`.
    fn decode_body(status: u8, bytes: &[u8]) -> (r: Result<Self, DecodeError>)
        requires
            status >= 0x80,
        ensures
            r == Message::spec_decode_body(status, bytes@),
    {
        if status <= 0xef {
            proof {
                lemma_status_nibbles(status);
            }
            let channel = status & status::CHANNEL_MASK;
            let kind = status & 0xf0;

            if kind == status::NOTE_OFF || kind == status::NOTE_ON {
                if bytes.len() != 2 {
                    return Err(DecodeError::IncorrectLen);
                }
                if !all_data_bytes(bytes) {
                    return Err(DecodeError::InvalidDataByte);
                }
                let note = bytes[0];
                let velocity = bytes[1];
                if kind == status::NOTE_OFF {
                    Ok(Message::NoteOff { channel, note, velocity })
                } else {
                    Ok(Message::NoteOn { channel, note, velocity })
                }
            } else if kind == status::KEY_PRESSURE {
                if bytes.len() != 2 {
                    return Err(DecodeError::IncorrectLen);
                }
                if !all_data_bytes(bytes) {
                    return Err(DecodeError::InvalidDataByte);
                }
                let note = bytes[0];
                let pressure = bytes[1];
                Ok(Message::KeyPressure { channel, note, pressure })
            } else if kind == status::CONTROL_CHANGE {
                // Also the status byte for ChannelMode
                if bytes.len() != 2 {
                    return Err(DecodeError::IncorrectLen);
                }
                if !all_data_bytes(bytes) {
                    return Err(DecodeError::InvalidDataByte);
                }
                let value = bytes[1];
                proof {
                    controller::lemma_controller_number_round_trip(Controller::BankSelectMsb, bytes[0]);
                }
                if let Some(controller) = Controller::from_controller_number(bytes[0]) {
                    Ok(Message::ControlChange { channel, controller, value })
                } else {
                    let mode = ChannelMode::from_mode_number(bytes[0]).unwrap();
                    Ok(Message::ChannelMode { channel, mode, value })
                }
            } else if kind == status::PROGRAM_CHANGE {
                if bytes.len() != 1 {
                    return Err(DecodeError::IncorrectLen);
                }
                if !is_data(bytes[0]) {
                    return Err(DecodeError::InvalidDataByte);
                }
                let program = bytes[0];
                Ok(Message::ProgramChange { channel, program })
            } else if kind == status::CHANNEL_PRESSURE {
                if bytes.len() != 1 {
                    return Err(DecodeError::IncorrectLen);
                }
                if !is_data(bytes[0]) {
                    return Err(DecodeError::InvalidDataByte);
                }
                let pressure = bytes[0];
                Ok(Message::ChannelPressure { channel, pressure })
            } else {
                // PITCH_BEND
                if bytes.len() != 2 {
                    return Err(DecodeError::IncorrectLen);
                }
                if !all_data_bytes(bytes) {
                    return Err(DecodeError::InvalidDataByte);
                }
                let pitch_bend = join_14_bits(bytes[0], bytes[1]);
                Ok(Message::PitchBend { channel, pitch_bend })
            }
        } else if status == status::SYSTEM_EXCLUSIVE {
            if bytes.len() < 1 {
                return Err(DecodeError::IncorrectLen);
            }
            let id = if bytes[0] == 0 {
                if bytes.len() < 3 {
                    return Err(DecodeError::IncorrectLen);
                }
                let hi = bytes[1] as u16;
                let lo = bytes[2] as u16;
                assert(lo | (hi << 8) == 256 * hi + lo) by (bit_vector)
                    requires
                        hi < 256 && lo < 256,
                ;
                ManufacturerId::Extended(lo | (hi << 8))
            } else {
                ManufacturerId::Basic(bytes[0])
            };
            Ok(Message::SystemExclusive { id })
        } else if status == status::SC_MTC_QUARTER_FRAME {
            if bytes.len() != 1 {
                return Err(DecodeError::IncorrectLen);
            }
            if !is_data(bytes[0]) {
                return Err(DecodeError::InvalidDataByte);
            }
            let value = bytes[0];
            Ok(Message::QuarterFrame { value })
        } else if status == status::SC_SONG_POSITION_POINTER {
            if bytes.len() != 2 {
                return Err(DecodeError::IncorrectLen);
            }
            if !all_data_bytes(bytes) {
                return Err(DecodeError::InvalidDataByte);
            }
            let pointer = join_14_bits(bytes[0], bytes[1]);
            Ok(Message::SongPositionPointer { pointer })
        } else if status == status::SC_SONG_SELECT {
            if bytes.len() != 1 {
                return Err(DecodeError::IncorrectLen);
            }
            if !is_data(bytes[0]) {
                return Err(DecodeError::InvalidDataByte);
            }
            let song = bytes[0];
            Ok(Message::SongSelect { song })
        } else {
            let message = if status == status::SC_TUNE_REQUEST {
                Message::TuneRequest
            } else if status == status::SC_EOX {
                Message::EndOfExclusive
            } else if status == status::RT_TIMING_CLOCK {
                Message::TimingClock
            } else if status == status::RT_START {
                Message::Start
            } else if status == status::RT_CONTINUE {
                Message::Continue
            } else if status == status::RT_STOP {
                Message::Stop
            } else if status == status::RT_ACTIVE_SENSING {
                Message::ActiveSensing
            } else if status == status::RT_SYSTEM_RESET {
                Message::SystemReset
            } else {
                return Err(DecodeError::UnrecognizedStatus);
            };
            if bytes.len() != 0 {
                return Err(DecodeError::IncorrectLen);
            }
            Ok(message)
        }
    }
}

/// An encoded MIDI message.
///
/// This is a thin wrapper around a small constant-sized byte array. Since MIDI
/// messages (except for system exclusive messages) are a maximum of four bytes
/// long, they can be encoded into such an array without need for allocation.
///
/// For system exclusive messages, this struct can be used to contain the
/// status byte and manufacturer ID only; the data payload for system exclusive
/// messages must be handled separately. See the note on system exclusive
/// messages in the documentation of [`Message`] for further details.
#[derive(Debug, Clone, Copy, PartialEq, Eq, Hash)]
pub struct EncodedMessage {
    buf: [u8; 4],
    len: u8,
}

impl View for EncodedMessage {
    type V = Seq<u8>;

    /// The bytes of the message.
    closed spec fn view(&self) -> Seq<u8> {
        self.buf@.subrange(0, self.len as int)
    }
}

impl EncodedMessage {
    /// At most four bytes are held, and the unused part of the buffer is zero.
    #[verifier::type_invariant]
    spec fn wf(self) -> bool {
        &&& self.len <= 4
        &&& forall|i: int| self.len <= i < 4 ==> #[trigger] self.buf@[i] == 0
    }

    /// Create a new zeroed encoded message buffer.
    fn new() -> (r: Self)
        ensures
            r@ == Seq::<u8>::empty(),
    {
        Self { buf: [0, 0, 0, 0], len: 0 }
    }

    /// Push a single byte to this buffer.
    fn push(&mut self, byte: u8)
        requires
            old(self)@.len() < 4,
        ensures
            final(self)@ == old(self)@.push(byte),
    {
        proof {
            use_type_invariant(&*self);
        }
        let mut buf = self.buf;
        buf[self.len as usize] = byte;
        let ghost old_view = self@;
        *self = Self { buf, len: self.len + 1 };
        assert(self@ =~= old_view.push(byte));
    }

    /// Push all of the given bytes in sequence.
    fn push_all(&mut self, bytes: &[u8])
        requires
            old(self)@.len() + bytes@.len() <= 4,
        ensures
            final(self)@ == old(self)@ + bytes@,
    {
        let mut i: usize = 0;
        while i < bytes.len()
            invariant
                0 <= i <= bytes@.len(),
                old(self)@.len() + bytes@.len() <= 4,
                self@ == old(self)@ + bytes@.subrange(0, i as int),
            decreases bytes@.len() - i,
        {
            self.push(bytes[i]);
            i = i + 1;
            assert(self@ =~= old(self)@ + bytes@.subrange(0, i as int));
        }
        assert(bytes@.subrange(0, bytes@.len() as int) =~= bytes@);
    }

    /// The number of bytes in the encoded message.
    pub fn len(&self) -> (r: usize)
        ensures
            r == self@.len(),
    {
        proof {
            use_type_invariant(self);
        }
        self.len as usize
    }

    /// Whether the encoded message holds no bytes.
    pub fn is_empty(&self) -> (r: bool)
        ensures
            r == (self@.len() == 0),
    {
        proof {
            use_type_invariant(self);
        }
        self.len == 0
    }

    /// The bytes of the encoded message.
    pub fn as_slice(&self) -> (r: &[u8])
        ensures
            r@ == self@,
    {
        proof {
            use_type_invariant(self);
        }
        slice_subrange(self.buf.as_slice(), 0, self.len as usize)
    }
}

impl core::ops::Deref for EncodedMessage {
    type Target = [u8];

    fn deref(&self) -> (r: &[u8])
        ensures
            r@ == self@,
    {
        self.as_slice()
    }
}

impl AsRef<[u8]> for EncodedMessage {
    fn as_ref(&self) -> (r: &[u8])
        ensures
            r@ == self@,
    {
        self.as_slice()
    }
}

/// A byte with its high bit cleared.
fn data(b: u8) -> (r: u8)
    ensures
        r == data_byte(b),
{
    proof {
        lemma_data_mask(b);
    }
    b & status::DATA_MASK
}

/// The status byte of a channel message: `kind`, with the low four bits of
/// `channel` in its low nibble.
fn chan(kind: u8, channel: u8) -> (r: u8)
    requires
        kind % 16 == 0,
    ensures
        r == channel_status(kind, channel),
{
    assert(kind | (channel & 0x0f) == kind + channel % 16) by (bit_vector)
        requires
            kind % 16 == 0,
    ;
    kind | (channel & status::CHANNEL_MASK)
}

/// The low seven bits of a value and its next seven bits, each as a data
/// byte.
fn split_14_bits(v: u16) -> (r: (u8, u8))
    ensures
        r.0 == v % 128,
        r.1 == (v / 128) % 128,
{
    assert((v as u8) & 0x7f == v % 128) by (bit_vector);
    assert(((v >> 7) as u8) & 0x7f == (v / 128) % 128) by (bit_vector);
    ((v as u8) & status::DATA_MASK, ((v >> 7) as u8) & status::DATA_MASK)
}

/// Whether a byte is a data byte, i.e. has its high bit cleared.
fn is_data(b: u8) -> (r: bool)
    ensures
        r == (b < 0x80),
{
    assert((b & !0x7fu8 == 0) == (b < 0x80)) by (bit_vector);
    b & !status::DATA_MASK == 0
}

/// Whether every byte of `bytes` is a data byte.
fn all_data_bytes(bytes: &[u8]) -> (r: bool)
    ensures
        r == all_data(bytes@),
{
    let mut i: usize = 0;
    while i < bytes.len()
        invariant
            0 <= i <= bytes@.len(),
            forall|j: int| 0 <= j < i ==> #[trigger] bytes@[j] < 0x80,
        decreases bytes@.len() - i,
    {
        if !is_data(bytes[i]) {
            return false;
        }
        i = i + 1;
    }
    true
}

/// The 14-bit value whose low seven bits are `lsb` and next seven bits `msb`.
fn join_14_bits(lsb: u8, msb: u8) -> (r: u16)
    requires
        lsb < 128,
        msb < 128,
    ensures
        r == lsb + 128 * msb,
{
    let lo = lsb as u16;
    let hi = msb as u16;
    assert(lo | (hi << 7) == lo + 128 * hi) by (bit_vector)
        requires
            lo < 128 && hi < 128,
    ;
    lo | (hi << 7)
}

/// The low nibble of a status byte is its channel, and the high nibble its
/// kind.
proof fn lemma_status_nibbles(status: u8)
    ensures
        status & 0x0f == status % 16,
        status & 0xf0 == status - status % 16,
{
    assert(status & 0x0f == status % 16) by (bit_vector);
    assert(status & 0xf0 == status - status % 16) by (bit_vector);
}

/// The low byte of a 16-bit value is its remainder by 256, and the high byte
/// its quotient.
proof fn lemma_u16_bytes(x: u16)
    ensures
        x as u8 == x % 256,
        (x >> 8) as u8 == x / 256,
{
    assert(x as u8 == x % 256) by (bit_vector);
    assert((x >> 8) as u8 == x / 256) by (bit_vector);
}

} // verus!
