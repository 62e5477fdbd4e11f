//! Music theory and MIDI message types: pitch classes, scales and their modes,
//! General MIDI sound maps, and a MIDI message encoder and decoder, each with
//! its behaviour stated in contracts and proved.

pub mod general_midi;
pub mod pitch;
pub mod midi;
pub mod scale;
