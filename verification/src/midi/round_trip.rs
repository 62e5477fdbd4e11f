//! How encoding and decoding undo each other.

use super::controller::{lemma_channel_mode_number_round_trip, lemma_controller_number_round_trip};
use super::{ChannelMode, Controller, DecodeError, ManufacturerId, Message, all_data};
use vstd::prelude::*;

verus! {

/// Every message in the form that decoding produces can be encoded.
pub proof fn lemma_canonical_is_encodable(m: Message)
    requires
        m.is_canonical(),
    ensures
        m.encodable(),
{
}

/// An encoded message begins with its status byte, which has its high bit
/// set, unless the status byte is left out, and then it is the payload; the
/// payload of every message but a system exclusive one is made of data bytes.
pub proof fn lemma_encoding_shape(m: Message, encode_status: bool)
    ensures
        m.spec_status() >= 0x80,
        encode_status || m.spec_payload().len() == 0 ==> m.spec_encode(encode_status)
            == seq![m.spec_status()] + m.spec_payload(),
        !encode_status && m.spec_payload().len() > 0 ==> m.spec_encode(encode_status)
            == m.spec_payload(),
        !(m is SystemExclusive) ==> all_data(m.spec_payload()),
{
    match m {
        Message::ControlChange { controller, .. } => {
            lemma_controller_number_round_trip(controller, controller.spec_number());
        },
        Message::ChannelMode { mode, .. } => {
            lemma_channel_mode_number_round_trip(mode, mode.spec_number());
        },
        _ => {},
    }
}

/// The payload of a message in canonical form, after its status byte,
/// decodes to the message.
proof fn lemma_payload_decodes(m: Message)
    requires
        m.is_canonical(),
    ensures
        Message::spec_decode_body(m.spec_status(), m.spec_payload()) == Ok::<Message, DecodeError>(m),
{
    match m {
        Message::ControlChange { controller, .. } => {
            lemma_controller_number_round_trip(controller, controller.spec_number());
        },
        Message::ChannelMode { mode, .. } => {
            lemma_channel_mode_number_round_trip(mode, mode.spec_number());
        },
        _ => {},
    }
}

/// Encoding a message with its status byte and decoding the bytes gives the
/// message back, for every message in the form that decoding produces and
/// whatever running status is given.
pub proof fn lemma_encode_decode_round_trip(m: Message, running_status: Option<u8>)
    requires
        m.is_canonical(),
    ensures
        Message::spec_decode(m.spec_encode(true), running_status) == Ok::<Message, DecodeError>(m),
{
    lemma_payload_decodes(m);
    lemma_encoding_shape(m, true);
    assert(m.spec_encode(true).drop_first() =~= m.spec_payload());
}

/// Encoding a message without its status byte and decoding the bytes with
/// the message's status byte as the running status gives the message back,
/// for every message in the form that decoding produces, except a system
/// exclusive message whose basic manufacturer ID has its high bit set (that
/// byte would be read as a status byte).
pub proof fn lemma_running_status_round_trip(m: Message)
    requires
        m.is_canonical(),
        !(m matches Message::SystemExclusive { id: ManufacturerId::Basic(b) } && b >= 0x80),
    ensures
        Message::spec_decode(m.spec_encode(false), Some(m.spec_status())) == Ok::<
            Message,
            DecodeError,
        >(m),
{
    lemma_encoding_shape(m, false);
    if m.spec_payload().len() == 0 {
        lemma_encode_decode_round_trip(m, Some(m.spec_status()));
    } else {
        lemma_payload_decodes(m);
        assert(m.spec_payload()[0] < 0x80);
    }
}

/// What the bytes after a status byte decode to is a message in canonical
/// form with that status byte, whose payload the bytes begin with, and are
/// exactly unless it is a system exclusive message.
proof fn lemma_decode_body_payload(status: u8, body: Seq<u8>)
    ensures
        Message::spec_decode_body(status, body) matches Ok(m) ==> {
            &&& m.is_canonical()
            &&& m.spec_status() == status
            &&& m.spec_payload().len() <= body.len()
            &&& m.spec_payload() == body.subrange(0, m.spec_payload().len() as int)
            &&& !(m is SystemExclusive) ==> m.spec_payload() == body
        },
{
    if let Ok(m) = Message::spec_decode_body(status, body) {
        if 0x80 <= status <= 0xef {
            lemma_decode_channel_payload(status, body);
        } else if status == 0xf0 {
            assert(m.spec_payload() =~= body.subrange(0, m.spec_payload().len() as int));
        } else {
            assert(m.spec_payload() =~= body);
        }
    }
}

/// The channel message case of [`lemma_decode_body_payload`].
proof fn lemma_decode_channel_payload(status: u8, body: Seq<u8>)
    requires
        0x80 <= status <= 0xef,
    ensures
        Message::spec_decode_body(status, body) matches Ok(m) ==> {
            &&& m.is_canonical()
            &&& m.spec_status() == status
            &&& m.spec_payload() == body
        },
{
    if let Ok(m) = Message::spec_decode_body(status, body) {
        if status - status % 16 == 0xb0 {
            lemma_controller_number_round_trip(Controller::BankSelectMsb, body[0]);
            if body[0] >= 120 {
                let mode = ChannelMode::spec_from_number(body[0]).unwrap();
                lemma_channel_mode_number_round_trip(mode, body[0]);
            }
        }
        assert(m.spec_payload() =~= body);
    }
}

/// Whatever decodes to a message is, from its start, that message's encoding:
/// the decoded message is in canonical form; when the bytes begin with a
/// status byte they begin with the message's full encoding, and otherwise its
/// status byte is the running status and they begin with its encoding
/// without status byte; and they are exactly that encoding unless the message
/// is a system exclusive one, whose payload follows.
pub proof fn lemma_decode_encode_round_trip(bytes: Seq<u8>, running_status: Option<u8>)
    ensures
        Message::spec_decode(bytes, running_status) matches Ok(m) ==> {
            let with_status = bytes[0] >= 0x80;
            let enc = m.spec_encode(with_status);
            &&& m.is_canonical()
            &&& !with_status ==> running_status == Some(m.spec_status())
            &&& enc.len() <= bytes.len()
            &&& enc == bytes.subrange(0, enc.len() as int)
            &&& !(m is SystemExclusive) ==> enc == bytes
        },
{
    if let Ok(m) = Message::spec_decode(bytes, running_status) {
        let with_status = bytes[0] >= 0x80;
        if with_status {
            let body = bytes.drop_first();
            lemma_decode_body_payload(bytes[0], body);
            assert(bytes =~= seq![bytes[0]] + body);
        } else {
            let status = running_status.unwrap();
            lemma_decode_body_payload(status, bytes);
        }
        let enc = m.spec_encode(with_status);
        assert(enc =~= bytes.subrange(0, enc.len() as int));
    }
}


/// The seven kinds of channel message in MIDI order, on channel `channel`,
/// each with data bytes `a` and `b` where it has them.
pub open spec fn channel_message_kinds(channel: u8, a: u8, b: u8) -> Seq<Message> {
    seq![
        Message::NoteOff { channel, note: a, velocity: b },
        Message::NoteOn { channel, note: a, velocity: b },
        Message::KeyPressure { channel, note: a, pressure: b },
        Message::ControlChange { channel, controller: Controller::Undefined(a), value: b },
        Message::ProgramChange { channel, program: a },
        Message::ChannelPressure { channel, pressure: a },
        Message::PitchBend { channel, pitch_bend: a as u16 },
    ]
}

/// Channel message kinds take the status bytes 0x80 to 0xe0 in MIDI order,
/// with the channel in the low four bits: the `kind`'th kind on channel
/// `channel` below 16 has status byte `0x80 + 16 * kind + channel`.
pub proof fn lemma_channel_message_status(channel: u8, a: u8, b: u8, kind: int)
    requires
        channel < 16,
        0 <= kind < 7,
    ensures
        channel_message_kinds(channel, a, b)[kind].spec_status() == 0x80 + 16 * kind + channel,
{
    let k = channel_message_kinds(channel, a, b);
    assert(k[0] == Message::NoteOff { channel, note: a, velocity: b });
    assert(k[1] == Message::NoteOn { channel, note: a, velocity: b });
    assert(k[2] == Message::KeyPressure { channel, note: a, pressure: b });
    assert(k[3] == Message::ControlChange {
        channel,
        controller: Controller::Undefined(a),
        value: b,
    });
    assert(k[4] == Message::ProgramChange { channel, program: a });
    assert(k[5] == Message::ChannelPressure { channel, pressure: a });
    assert(k[6] == Message::PitchBend { channel, pitch_bend: a as u16 });
}

} // verus!
