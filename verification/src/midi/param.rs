//! Constants for MIDI Registered Parameter Numbers.
//!
//! These are the performance configuration parameters numbers defined by
//! the MIDI specification, for use with controller numbers 100 and 101,
//! Registered Parameter Number LSB and Registered Parameter Number MSB.

use vstd::prelude::*;

verus! {

pub const PITCH_BEND_SENSITIVITY_LSB: u8 = 0x00;
pub const PITCH_BEND_SENSITIVITY_MSB: u8 = 0x00;

pub const FINE_TUNING_LSB: u8 = 0x01;
pub const FINE_TUNING_MSB: u8 = 0x00;

pub const COARSE_TUNING_LSB: u8 = 0x02;
pub const COARSE_TUNING_MSB: u8 = 0x00;

pub const TUNING_PROGRAM_SELECT_LSB: u8 = 0x03;
pub const TUNING_PROGRAM_SELECT_MSB: u8 = 0x00;

pub const TUNING_BANK_SELECT_LSB: u8 = 0x04;
pub const TUNING_BANK_SELECT_MSB: u8 = 0x00;

} // verus!
