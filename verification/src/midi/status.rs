//! Constants for MIDI message status bytes.

use vstd::prelude::*;

verus! {

/// Bit mask for data bytes in a MIDI message.
///
/// Data bytes must have their high bit cleared.
pub const DATA_MASK: u8 = 0x7f;

/// Status byte for a Note Off message on channel 0.
pub const NOTE_OFF: u8 = 0x80;

/// Status byte for a Note On message on channel 0.
pub const NOTE_ON: u8 = 0x90;

/// Status byte for a Polyphonic Key Pressure message on channel 0.
pub const KEY_PRESSURE: u8 = 0xa0;

/// Status byte for a Control Change message on channel 0.
///
/// This is equal to [`CHANNEL_MODE`], the status byte for Select Channel Mode
/// messages. The two message kinds are distinguished by the values of their
/// first data byte; Control Change messages must have a first data byte
/// less than 120 (0x78).
pub const CONTROL_CHANGE: u8 = 0xb0;

/// Status byte for a Program Change message on channel 0.
pub const PROGRAM_CHANGE: u8 = 0xc0;

/// Status byte for a Channel Pressure message on channel 0.
pub const CHANNEL_PRESSURE: u8 = 0xd0;

/// Status byte for a Pitch Bend message on channel 0.
pub const PITCH_BEND: u8 = 0xe0;

/// Status byte for a Select Channel Mode message on channel 0.
///
/// This is equal to [`CONTROL_CHANGE`], the status byte for Control Change
/// messages. The two message kinds are distinguished by the values of their
/// first data byte; Channel Mode messages must have a first data byte
/// greater than or equal to 120 (0x78).
pub const CHANNEL_MODE: u8 = 0xb0;

/// Bit mask for channel values.
///
/// For channel messages, the targeted channel is encoded in the low four
/// bits of the status byte. This mask can be used to isolate the low four
/// bits of a byte, the result of which can then be OR'd with the status
/// byte constant.
pub const CHANNEL_MASK: u8 = 0x0f;

/// Status byte for a System Exclusive message.
pub const SYSTEM_EXCLUSIVE: u8 = 0xf0;

/// Status byte for an MTC Quarter Frame system common message.
pub const SC_MTC_QUARTER_FRAME: u8 = 0xf1;

/// Status byte for a Song Position Pointer system common message.
pub const SC_SONG_POSITION_POINTER: u8 = 0xf2;

/// Status byte for a Song Select system common message.
pub const SC_SONG_SELECT: u8 = 0xf3;

/// Status byte for a Tune Request system common message.
pub const SC_TUNE_REQUEST: u8 = 0xf6;

/// Status byte for an EOX (End Of Exclusive) system common message.
pub const SC_EOX: u8 = 0xf7;

/// Status byte for a Timing Clock system real time message.
pub const RT_TIMING_CLOCK: u8 = 0xf8;

/// Status byte for a Start system real time message.
pub const RT_START: u8 = 0xfa;

/// Status byte for a Continue system real time message.
pub const RT_CONTINUE: u8 = 0xfb;

/// Status byte for a Stop system real time message.
pub const RT_STOP: u8 = 0xfc;

/// Status byte for an Active Sensing system real time message.
pub const RT_ACTIVE_SENSING: u8 = 0xfe;

/// Status byte for a System Reset system real time message.
pub const RT_SYSTEM_RESET: u8 = 0xff;

} // verus!
