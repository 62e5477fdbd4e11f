//! MIDI controllers and channel modes, the two meanings of the first data
//! byte of a message with a Control Change status byte.

use vstd::prelude::*;

verus! {

/// A MIDI controller.
///
/// This enum includes all defined MIDI controller numbers, plus the variant
/// `Undefined` for all other values.
///
/// The `Undefined` variant is unrestricted in the byte value it can contain,
/// and when encoding it will be written faithfully (except that the high bit
/// will be cleared, as with all data bytes). When decoding, however, a more
/// specific variant will always be returned if it exists.
///
/// Note that bytes 120 through 127 (`0x78` through `0x7f`) are not valid
/// controller numbers, even for an undefined controller; rather, they are
/// reserved to designate [`ChannelMode`]s, since the status bytes for Control
/// Change and Channel Mode messages are equal. Here too, such a controller
/// number will be encoded faithfully if given in an `Undefined`; however,
/// decoding such a message will instead yield a channel mode message.
#[derive(Debug, Clone, Copy, PartialEq, Eq, Hash, Structural)]
pub enum Controller {
    BankSelectMsb,
    BankSelectLsb,
    ModulationMsb,
    ModulationLsb,
    BreathControlMsb,
    BreathControlLsb,
    FootControllerMsb,
    FootControllerLsb,
    PortamentoTimeMsb,
    PortamentoTimeLsb,
    DataEntryMsb,
    DataEntryLsb,
    ChannelVolumeMsb,
    ChannelVolumeLsb,
    BalanceMsb,
    BalanceLsb,
    PanMsb,
    PanLsb,
    ExpressionControllerMsb,
    ExpressionControllerLsb,
    EffectControl1Msb,
    EffectControl1Lsb,
    EffectControl2Msb,
    EffectControl2Lsb,
    GeneralPurposeController1Msb,
    GeneralPurposeController1Lsb,
    GeneralPurposeController2Msb,
    GeneralPurposeController2Lsb,
    GeneralPurposeController3Msb,
    GeneralPurposeController3Lsb,
    GeneralPurposeController4Msb,
    GeneralPurposeController4Lsb,
    Sustain,
    PortamentoOnOff,
    Sostenuto,
    SoftPedal,
    LegatoFootswitch,
    Hold2,
    SoundController1Variation,
    SoundController2Timbre,
    SoundController3ReleaseTime,
    SoundController4AttackTime,
    SoundController5Brightness,
    SoundController6,
    SoundController7,
    SoundController8,
    SoundController9,
    SoundController10,
    GeneralPurposeController5,
    GeneralPurposeController6,
    GeneralPurposeController7,
    GeneralPurposeController8,
    PortamentoControl,
    Effects1Depth,
    Effects2Depth,
    Effects3Depth,
    Effects4Depth,
    Effects5Depth,
    DataIncrement,
    DataDecrement,
    NonRegisteredParamLsb,
    NonRegisteredParamMsb,
    RegisteredParamLsb,
    RegisteredParamMsb,
    Undefined(u8),
}

impl Controller {
    /// The data byte of this controller: its number, or the low seven bits of
    /// the byte of an `Undefined` controller.
    pub open spec fn spec_number(self) -> u8 {
        match self {
            Controller::BankSelectMsb => 0x00,
            Controller::BankSelectLsb => 0x20,
            Controller::ModulationMsb => 0x01,
            Controller::ModulationLsb => 0x21,
            Controller::BreathControlMsb => 0x02,
            Controller::BreathControlLsb => 0x22,
            Controller::FootControllerMsb => 0x04,
            Controller::FootControllerLsb => 0x24,
            Controller::PortamentoTimeMsb => 0x05,
            Controller::PortamentoTimeLsb => 0x25,
            Controller::DataEntryMsb => 0x06,
            Controller::DataEntryLsb => 0x26,
            Controller::ChannelVolumeMsb => 0x07,
            Controller::ChannelVolumeLsb => 0x27,
            Controller::BalanceMsb => 0x08,
            Controller::BalanceLsb => 0x28,
            Controller::PanMsb => 0x0a,
            Controller::PanLsb => 0x2a,
            Controller::ExpressionControllerMsb => 0x0b,
            Controller::ExpressionControllerLsb => 0x2b,
            Controller::EffectControl1Msb => 0x0c,
            Controller::EffectControl1Lsb => 0x2c,
            Controller::EffectControl2Msb => 0x0d,
            Controller::EffectControl2Lsb => 0x2d,
            Controller::GeneralPurposeController1Msb => 0x10,
            Controller::GeneralPurposeController1Lsb => 0x30,
            Controller::GeneralPurposeController2Msb => 0x11,
            Controller::GeneralPurposeController2Lsb => 0x31,
            Controller::GeneralPurposeController3Msb => 0x12,
            Controller::GeneralPurposeController3Lsb => 0x32,
            Controller::GeneralPurposeController4Msb => 0x13,
            Controller::GeneralPurposeController4Lsb => 0x33,
            Controller::Sustain => 0x40,
            Controller::PortamentoOnOff => 0x41,
            Controller::Sostenuto => 0x42,
            Controller::SoftPedal => 0x43,
            Controller::LegatoFootswitch => 0x44,
            Controller::Hold2 => 0x45,
            Controller::SoundController1Variation => 0x46,
            Controller::SoundController2Timbre => 0x47,
            Controller::SoundController3ReleaseTime => 0x48,
            Controller::SoundController4AttackTime => 0x49,
            Controller::SoundController5Brightness => 0x4a,
            Controller::SoundController6 => 0x4b,
            Controller::SoundController7 => 0x4c,
            Controller::SoundController8 => 0x4d,
            Controller::SoundController9 => 0x4e,
            Controller::SoundController10 => 0x4f,
            Controller::GeneralPurposeController5 => 0x50,
            Controller::GeneralPurposeController6 => 0x51,
            Controller::GeneralPurposeController7 => 0x52,
            Controller::GeneralPurposeController8 => 0x53,
            Controller::PortamentoControl => 0x54,
            Controller::Effects1Depth => 0x5b,
            Controller::Effects2Depth => 0x5c,
            Controller::Effects3Depth => 0x5d,
            Controller::Effects4Depth => 0x5e,
            Controller::Effects5Depth => 0x5f,
            Controller::DataIncrement => 0x60,
            Controller::DataDecrement => 0x61,
            Controller::NonRegisteredParamLsb => 0x62,
            Controller::NonRegisteredParamMsb => 0x63,
            Controller::RegisteredParamLsb => 0x64,
            Controller::RegisteredParamMsb => 0x65,
            Controller::Undefined(b) => (b % 128) as u8,
        }
    }

    /// The controller that a data byte designates, if any: the defined
    /// controller of that number, `Undefined` for other numbers below 120, and
    /// none from 120 up.
    pub open spec fn spec_from_number(number: u8) -> Option<Controller> {
        if number == 0x00 {
            Some(Controller::BankSelectMsb)
        } else if number == 0x20 {
            Some(Controller::BankSelectLsb)
        } else if number == 0x01 {
            Some(Controller::ModulationMsb)
        } else if number == 0x21 {
            Some(Controller::ModulationLsb)
        } else if number == 0x02 {
            Some(Controller::BreathControlMsb)
        } else if number == 0x22 {
            Some(Controller::BreathControlLsb)
        } else if number == 0x04 {
            Some(Controller::FootControllerMsb)
        } else if number == 0x24 {
            Some(Controller::FootControllerLsb)
        } else if number == 0x05 {
            Some(Controller::PortamentoTimeMsb)
        } else if number == 0x25 {
            Some(Controller::PortamentoTimeLsb)
        } else if number == 0x06 {
            Some(Controller::DataEntryMsb)
        } else if number == 0x26 {
            Some(Controller::DataEntryLsb)
        } else if number == 0x07 {
            Some(Controller::ChannelVolumeMsb)
        } else if number == 0x27 {
            Some(Controller::ChannelVolumeLsb)
        } else if number == 0x08 {
            Some(Controller::BalanceMsb)
        } else if number == 0x28 {
            Some(Controller::BalanceLsb)
        } else if number == 0x0a {
            Some(Controller::PanMsb)
        } else if number == 0x2a {
            Some(Controller::PanLsb)
        } else if number == 0x0b {
            Some(Controller::ExpressionControllerMsb)
        } else if number == 0x2b {
            Some(Controller::ExpressionControllerLsb)
        } else if number == 0x0c {
            Some(Controller::EffectControl1Msb)
        } else if number == 0x2c {
            Some(Controller::EffectControl1Lsb)
        } else if number == 0x0d {
            Some(Controller::EffectControl2Msb)
        } else if number == 0x2d {
            Some(Controller::EffectControl2Lsb)
        } else if number == 0x10 {
            Some(Controller::GeneralPurposeController1Msb)
        } else if number == 0x30 {
            Some(Controller::GeneralPurposeController1Lsb)
        } else if number == 0x11 {
            Some(Controller::GeneralPurposeController2Msb)
        } else if number == 0x31 {
            Some(Controller::GeneralPurposeController2Lsb)
        } else if number == 0x12 {
            Some(Controller::GeneralPurposeController3Msb)
        } else if number == 0x32 {
            Some(Controller::GeneralPurposeController3Lsb)
        } else if number == 0x13 {
            Some(Controller::GeneralPurposeController4Msb)
        } else if number == 0x33 {
            Some(Controller::GeneralPurposeController4Lsb)
        } else if number == 0x40 {
            Some(Controller::Sustain)
        } else if number == 0x41 {
            Some(Controller::PortamentoOnOff)
        } else if number == 0x42 {
            Some(Controller::Sostenuto)
        } else if number == 0x43 {
            Some(Controller::SoftPedal)
        } else if number == 0x44 {
            Some(Controller::LegatoFootswitch)
        } else if number == 0x45 {
            Some(Controller::Hold2)
        } else if number == 0x46 {
            Some(Controller::SoundController1Variation)
        } else if number == 0x47 {
            Some(Controller::SoundController2Timbre)
        } else if number == 0x48 {
            Some(Controller::SoundController3ReleaseTime)
        } else if number == 0x49 {
            Some(Controller::SoundController4AttackTime)
        } else if number == 0x4a {
            Some(Controller::SoundController5Brightness)
        } else if number == 0x4b {
            Some(Controller::SoundController6)
        } else if number == 0x4c {
            Some(Controller::SoundController7)
        } else if number == 0x4d {
            Some(Controller::SoundController8)
        } else if number == 0x4e {
            Some(Controller::SoundController9)
        } else if number == 0x4f {
            Some(Controller::SoundController10)
        } else if number == 0x50 {
            Some(Controller::GeneralPurposeController5)
        } else if number == 0x51 {
            Some(Controller::GeneralPurposeController6)
        } else if number == 0x52 {
            Some(Controller::GeneralPurposeController7)
        } else if number == 0x53 {
            Some(Controller::GeneralPurposeController8)
        } else if number == 0x54 {
            Some(Controller::PortamentoControl)
        } else if number == 0x5b {
            Some(Controller::Effects1Depth)
        } else if number == 0x5c {
            Some(Controller::Effects2Depth)
        } else if number == 0x5d {
            Some(Controller::Effects3Depth)
        } else if number == 0x5e {
            Some(Controller::Effects4Depth)
        } else if number == 0x5f {
            Some(Controller::Effects5Depth)
        } else if number == 0x60 {
            Some(Controller::DataIncrement)
        } else if number == 0x61 {
            Some(Controller::DataDecrement)
        } else if number == 0x62 {
            Some(Controller::NonRegisteredParamLsb)
        } else if number == 0x63 {
            Some(Controller::NonRegisteredParamMsb)
        } else if number == 0x64 {
            Some(Controller::RegisteredParamLsb)
        } else if number == 0x65 {
            Some(Controller::RegisteredParamMsb)
        } else if number >= 120 {
            None
        } else {
            Some(Controller::Undefined(number))
        }
    }

    /// Get the data byte for this controller.
    ///
    /// If `self` is `Controller::Undefined`, the high bit of the contained
    /// byte will be cleared.
    pub fn controller_number(self) -> (r: u8)
        ensures
            r == self.spec_number(),
    {
        match self {
            Self::BankSelectMsb => 0x00,
            Self::BankSelectLsb => 0x20,
            Self::ModulationMsb => 0x01,
            Self::ModulationLsb => 0x21,
            Self::BreathControlMsb => 0x02,
            Self::BreathControlLsb => 0x22,
            Self::FootControllerMsb => 0x04,
            Self::FootControllerLsb => 0x24,
            Self::PortamentoTimeMsb => 0x05,
            Self::PortamentoTimeLsb => 0x25,
            Self::DataEntryMsb => 0x06,
            Self::DataEntryLsb => 0x26,
            Self::ChannelVolumeMsb => 0x07,
            Self::ChannelVolumeLsb => 0x27,
            Self::BalanceMsb => 0x08,
            Self::BalanceLsb => 0x28,
            Self::PanMsb => 0x0a,
            Self::PanLsb => 0x2a,
            Self::ExpressionControllerMsb => 0x0b,
            Self::ExpressionControllerLsb => 0x2b,
            Self::EffectControl1Msb => 0x0c,
            Self::EffectControl1Lsb => 0x2c,
            Self::EffectControl2Msb => 0x0d,
            Self::EffectControl2Lsb => 0x2d,
            Self::GeneralPurposeController1Msb => 0x10,
            Self::GeneralPurposeController1Lsb => 0x30,
            Self::GeneralPurposeController2Msb => 0x11,
            Self::GeneralPurposeController2Lsb => 0x31,
            Self::GeneralPurposeController3Msb => 0x12,
            Self::GeneralPurposeController3Lsb => 0x32,
            Self::GeneralPurposeController4Msb => 0x13,
            Self::GeneralPurposeController4Lsb => 0x33,
            Self::Sustain => 0x40,
            Self::PortamentoOnOff => 0x41,
            Self::Sostenuto => 0x42,
            Self::SoftPedal => 0x43,
            Self::LegatoFootswitch => 0x44,
            Self::Hold2 => 0x45,
            Self::SoundController1Variation => 0x46,
            Self::SoundController2Timbre => 0x47,
            Self::SoundController3ReleaseTime => 0x48,
            Self::SoundController4AttackTime => 0x49,
            Self::SoundController5Brightness => 0x4a,
            Self::SoundController6 => 0x4b,
            Self::SoundController7 => 0x4c,
            Self::SoundController8 => 0x4d,
            Self::SoundController9 => 0x4e,
            Self::SoundController10 => 0x4f,
            Self::GeneralPurposeController5 => 0x50,
            Self::GeneralPurposeController6 => 0x51,
            Self::GeneralPurposeController7 => 0x52,
            Self::GeneralPurposeController8 => 0x53,
            Self::PortamentoControl => 0x54,
            Self::Effects1Depth => 0x5b,
            Self::Effects2Depth => 0x5c,
            Self::Effects3Depth => 0x5d,
            Self::Effects4Depth => 0x5e,
            Self::Effects5Depth => 0x5f,
            Self::DataIncrement => 0x60,
            Self::DataDecrement => 0x61,
            Self::NonRegisteredParamLsb => 0x62,
            Self::NonRegisteredParamMsb => 0x63,
            Self::RegisteredParamLsb => 0x64,
            Self::RegisteredParamMsb => 0x65,
            Self::Undefined(b) => {
                proof {
                    lemma_data_mask(b);
                }
                b & 0x7f
            },
        }
    }

    /// Create a `Controller` from its encoded data byte.
    ///
    /// This will return None if the given byte is either (a) not a data byte
    /// (high bit is set) or (b) encodes a [`ChannelMode`] instead (in the range
    /// 120-127).
    pub fn from_controller_number(number: u8) -> (r: Option<Self>)
        ensures
            r == Controller::spec_from_number(number),
    {
        match number {
            0x00 => Some(Self::BankSelectMsb),
            0x20 => Some(Self::BankSelectLsb),
            0x01 => Some(Self::ModulationMsb),
            0x21 => Some(Self::ModulationLsb),
            0x02 => Some(Self::BreathControlMsb),
            0x22 => Some(Self::BreathControlLsb),
            0x04 => Some(Self::FootControllerMsb),
            0x24 => Some(Self::FootControllerLsb),
            0x05 => Some(Self::PortamentoTimeMsb),
            0x25 => Some(Self::PortamentoTimeLsb),
            0x06 => Some(Self::DataEntryMsb),
            0x26 => Some(Self::DataEntryLsb),
            0x07 => Some(Self::ChannelVolumeMsb),
            0x27 => Some(Self::ChannelVolumeLsb),
            0x08 => Some(Self::BalanceMsb),
            0x28 => Some(Self::BalanceLsb),
            0x0a => Some(Self::PanMsb),
            0x2a => Some(Self::PanLsb),
            0x0b => Some(Self::ExpressionControllerMsb),
            0x2b => Some(Self::ExpressionControllerLsb),
            0x0c => Some(Self::EffectControl1Msb),
            0x2c => Some(Self::EffectControl1Lsb),
            0x0d => Some(Self::EffectControl2Msb),
            0x2d => Some(Self::EffectControl2Lsb),
            0x10 => Some(Self::GeneralPurposeController1Msb),
            0x30 => Some(Self::GeneralPurposeController1Lsb),
            0x11 => Some(Self::GeneralPurposeController2Msb),
            0x31 => Some(Self::GeneralPurposeController2Lsb),
            0x12 => Some(Self::GeneralPurposeController3Msb),
            0x32 => Some(Self::GeneralPurposeController3Lsb),
            0x13 => Some(Self::GeneralPurposeController4Msb),
            0x33 => Some(Self::GeneralPurposeController4Lsb),
            0x40 => Some(Self::Sustain),
            0x41 => Some(Self::PortamentoOnOff),
            0x42 => Some(Self::Sostenuto),
            0x43 => Some(Self::SoftPedal),
            0x44 => Some(Self::LegatoFootswitch),
            0x45 => Some(Self::Hold2),
            0x46 => Some(Self::SoundController1Variation),
            0x47 => Some(Self::SoundController2Timbre),
            0x48 => Some(Self::SoundController3ReleaseTime),
            0x49 => Some(Self::SoundController4AttackTime),
            0x4a => Some(Self::SoundController5Brightness),
            0x4b => Some(Self::SoundController6),
            0x4c => Some(Self::SoundController7),
            0x4d => Some(Self::SoundController8),
            0x4e => Some(Self::SoundController9),
            0x4f => Some(Self::SoundController10),
            0x50 => Some(Self::GeneralPurposeController5),
            0x51 => Some(Self::GeneralPurposeController6),
            0x52 => Some(Self::GeneralPurposeController7),
            0x53 => Some(Self::GeneralPurposeController8),
            0x54 => Some(Self::PortamentoControl),
            0x5b => Some(Self::Effects1Depth),
            0x5c => Some(Self::Effects2Depth),
            0x5d => Some(Self::Effects3Depth),
            0x5e => Some(Self::Effects4Depth),
            0x5f => Some(Self::Effects5Depth),
            0x60 => Some(Self::DataIncrement),
            0x61 => Some(Self::DataDecrement),
            0x62 => Some(Self::NonRegisteredParamLsb),
            0x63 => Some(Self::NonRegisteredParamMsb),
            0x64 => Some(Self::RegisteredParamLsb),
            0x65 => Some(Self::RegisteredParamMsb),
            120..=255 => None,
            b => Some(Self::Undefined(b)),
        }
    }
}

/// A MIDI channel mode.
#[derive(Debug, Clone, Copy, PartialEq, Eq, Hash, Structural)]
pub enum ChannelMode {
    AllSoundOff,
    ResetAllControllers,
    LocalControl,
    AllNotesOff,
    OmniModeOff,
    OmniModeOn,
    MonoModeOn,
    PolyModeOn,
}

impl ChannelMode {
    /// The data byte of this channel mode.
    pub open spec fn spec_number(self) -> u8 {
        match self {
            ChannelMode::AllSoundOff => 120,
            ChannelMode::ResetAllControllers => 121,
            ChannelMode::LocalControl => 122,
            ChannelMode::AllNotesOff => 123,
            ChannelMode::OmniModeOff => 124,
            ChannelMode::OmniModeOn => 125,
            ChannelMode::MonoModeOn => 126,
            ChannelMode::PolyModeOn => 127,
        }
    }

    /// The channel mode that a data byte designates, if any.
    pub open spec fn spec_from_number(number: u8) -> Option<ChannelMode> {
        if number == 120 {
            Some(ChannelMode::AllSoundOff)
        } else if number == 121 {
            Some(ChannelMode::ResetAllControllers)
        } else if number == 122 {
            Some(ChannelMode::LocalControl)
        } else if number == 123 {
            Some(ChannelMode::AllNotesOff)
        } else if number == 124 {
            Some(ChannelMode::OmniModeOff)
        } else if number == 125 {
            Some(ChannelMode::OmniModeOn)
        } else if number == 126 {
            Some(ChannelMode::MonoModeOn)
        } else if number == 127 {
            Some(ChannelMode::PolyModeOn)
        } else {
            None
        }
    }

    /// Get the encoded data byte for this channel mode.
    pub fn mode_number(self) -> (r: u8)
        ensures
            r == self.spec_number(),
    {
        match self {
            Self::AllSoundOff => 120,
            Self::ResetAllControllers => 121,
            Self::LocalControl => 122,
            Self::AllNotesOff => 123,
            Self::OmniModeOff => 124,
            Self::OmniModeOn => 125,
            Self::MonoModeOn => 126,
            Self::PolyModeOn => 127,
        }
    }

    /// Create a `ChannelMode` from its encoded data byte.
    ///
    /// Returns None if the given byte does not encode a channel mode.
    pub fn from_mode_number(number: u8) -> (r: Option<Self>)
        ensures
            r == ChannelMode::spec_from_number(number),
    {
        match number {
            120 => Some(Self::AllSoundOff),
            121 => Some(Self::ResetAllControllers),
            122 => Some(Self::LocalControl),
            123 => Some(Self::AllNotesOff),
            124 => Some(Self::OmniModeOff),
            125 => Some(Self::OmniModeOn),
            126 => Some(Self::MonoModeOn),
            127 => Some(Self::PolyModeOn),
            _ => None,
        }
    }
}

/// Clearing the high bit of a byte keeps its low seven bits.
pub proof fn lemma_data_mask(b: u8)
    ensures
        b & 0x7f == b % 128,
{
    assert(b & 0x7f == b % 128) by (bit_vector);
}

/// A controller number decodes to a controller with that number exactly when
/// it is below 120; every defined controller has a number below 120 and is
/// what its number decodes to; an `Undefined` controller decodes back to
/// itself when its byte is below 120 and is no defined controller's number.
pub proof fn lemma_controller_number_round_trip(c: Controller, number: u8)
    ensures
        Controller::spec_from_number(number) is None <==> number >= 120,
        Controller::spec_from_number(number) matches Some(d) ==> d.spec_number() == number,
        c.spec_number() < 128,
        !(c is Undefined) ==> c.spec_number() < 120,
        !(c is Undefined) ==> Controller::spec_from_number(c.spec_number()) == Some(c),
{
}

/// A channel mode number decodes exactly when it is in 120..=127, and every
/// channel mode is what its number decodes to.
pub proof fn lemma_channel_mode_number_round_trip(m: ChannelMode, number: u8)
    ensures
        ChannelMode::spec_from_number(number) is Some <==> 120 <= number <= 127,
        ChannelMode::spec_from_number(number) matches Some(d) ==> d.spec_number() == number,
        120 <= m.spec_number() <= 127,
        ChannelMode::spec_from_number(m.spec_number()) == Some(m),
{
}


/// The four runs of 14-bit controllers in the MIDI controller table, in
/// order: bank select, modulation and breath control; foot controller,
/// portamento time, data entry, channel volume and balance; pan, expression
/// and the two effect controls; the four general-purpose controllers. Each
/// controller's most significant byte is one entry; the least significant
/// byte follows 32 numbers above it.
pub open spec fn fourteen_bit_run(run: int) -> Seq<(Controller, Controller)> {
    if run == 0 {
        seq![
            (Controller::BankSelectMsb, Controller::BankSelectLsb),
            (Controller::ModulationMsb, Controller::ModulationLsb),
            (Controller::BreathControlMsb, Controller::BreathControlLsb),
        ]
    } else if run == 1 {
        seq![
            (Controller::FootControllerMsb, Controller::FootControllerLsb),
            (Controller::PortamentoTimeMsb, Controller::PortamentoTimeLsb),
            (Controller::DataEntryMsb, Controller::DataEntryLsb),
            (Controller::ChannelVolumeMsb, Controller::ChannelVolumeLsb),
            (Controller::BalanceMsb, Controller::BalanceLsb),
        ]
    } else if run == 2 {
        seq![
            (Controller::PanMsb, Controller::PanLsb),
            (Controller::ExpressionControllerMsb, Controller::ExpressionControllerLsb),
            (Controller::EffectControl1Msb, Controller::EffectControl1Lsb),
            (Controller::EffectControl2Msb, Controller::EffectControl2Lsb),
        ]
    } else if run == 3 {
        seq![
            (Controller::GeneralPurposeController1Msb, Controller::GeneralPurposeController1Lsb),
            (Controller::GeneralPurposeController2Msb, Controller::GeneralPurposeController2Lsb),
            (Controller::GeneralPurposeController3Msb, Controller::GeneralPurposeController3Lsb),
            (Controller::GeneralPurposeController4Msb, Controller::GeneralPurposeController4Lsb),
        ]
    } else {
        seq![]
    }
}

/// The first controller number of each run of 14-bit controllers: 0, 4, 10
/// and 16 (3, 9, 14, 15 and 20 to 31 are unassigned).
pub open spec fn fourteen_bit_run_start(run: int) -> int {
    if run == 0 {
        0
    } else if run == 1 {
        4
    } else if run == 2 {
        10
    } else {
        16
    }
}

/// The two runs of single-byte controllers in the MIDI controller table, in
/// order: sustain up to portamento control, from 0x40; the five effect
/// depths, data increment and decrement and the parameter number selectors,
/// from 0x5b.
pub open spec fn single_byte_run(run: int) -> Seq<Controller> {
    if run == 0 {
        seq![
            Controller::Sustain,
            Controller::PortamentoOnOff,
            Controller::Sostenuto,
            Controller::SoftPedal,
            Controller::LegatoFootswitch,
            Controller::Hold2,
            Controller::SoundController1Variation,
            Controller::SoundController2Timbre,
            Controller::SoundController3ReleaseTime,
            Controller::SoundController4AttackTime,
            Controller::SoundController5Brightness,
            Controller::SoundController6,
            Controller::SoundController7,
            Controller::SoundController8,
            Controller::SoundController9,
            Controller::SoundController10,
            Controller::GeneralPurposeController5,
            Controller::GeneralPurposeController6,
            Controller::GeneralPurposeController7,
            Controller::GeneralPurposeController8,
            Controller::PortamentoControl,
        ]
    } else if run == 1 {
        seq![
            Controller::Effects1Depth,
            Controller::Effects2Depth,
            Controller::Effects3Depth,
            Controller::Effects4Depth,
            Controller::Effects5Depth,
            Controller::DataIncrement,
            Controller::DataDecrement,
            Controller::NonRegisteredParamLsb,
            Controller::NonRegisteredParamMsb,
            Controller::RegisteredParamLsb,
            Controller::RegisteredParamMsb,
        ]
    } else {
        seq![]
    }
}

/// The channel modes in the order of their numbers: all sound off, reset
/// all controllers, local control, all notes off, omni off, omni on, mono on,
/// poly on.
pub open spec fn channel_mode_table() -> Seq<ChannelMode> {
    seq![
        ChannelMode::AllSoundOff,
        ChannelMode::ResetAllControllers,
        ChannelMode::LocalControl,
        ChannelMode::AllNotesOff,
        ChannelMode::OmniModeOff,
        ChannelMode::OmniModeOn,
        ChannelMode::MonoModeOn,
        ChannelMode::PolyModeOn,
    ]
}

/// 14-bit controllers are numbered consecutively within each run, the
/// least significant byte 32 above the most significant one, and each number
/// decodes to its controller.
pub proof fn lemma_fourteen_bit_controllers(run: int, index: int)
    requires
        0 <= run < 4,
        0 <= index < fourteen_bit_run(run).len(),
    ensures
        fourteen_bit_run(run)[index].0.spec_number() == fourteen_bit_run_start(run) + index,
        fourteen_bit_run(run)[index].1.spec_number() == fourteen_bit_run_start(run) + index + 0x20,
        Controller::spec_from_number((fourteen_bit_run_start(run) + index) as u8) == Some(
            fourteen_bit_run(run)[index].0,
        ),
        Controller::spec_from_number((fourteen_bit_run_start(run) + index + 0x20) as u8) == Some(
            fourteen_bit_run(run)[index].1,
        ),
{
    let r = fourteen_bit_run(run);
    if run == 0 {
        assert(r[0] == (Controller::BankSelectMsb, Controller::BankSelectLsb));
        assert(r[1] == (Controller::ModulationMsb, Controller::ModulationLsb));
        assert(r[2] == (Controller::BreathControlMsb, Controller::BreathControlLsb));
    } else if run == 1 {
        assert(r[0] == (Controller::FootControllerMsb, Controller::FootControllerLsb));
        assert(r[1] == (Controller::PortamentoTimeMsb, Controller::PortamentoTimeLsb));
        assert(r[2] == (Controller::DataEntryMsb, Controller::DataEntryLsb));
        assert(r[3] == (Controller::ChannelVolumeMsb, Controller::ChannelVolumeLsb));
        assert(r[4] == (Controller::BalanceMsb, Controller::BalanceLsb));
    } else if run == 2 {
        assert(r[0] == (Controller::PanMsb, Controller::PanLsb));
        assert(r[1] == (Controller::ExpressionControllerMsb, Controller::ExpressionControllerLsb));
        assert(r[2] == (Controller::EffectControl1Msb, Controller::EffectControl1Lsb));
        assert(r[3] == (Controller::EffectControl2Msb, Controller::EffectControl2Lsb));
    } else {
        assert(r[0] == (
            Controller::GeneralPurposeController1Msb,
            Controller::GeneralPurposeController1Lsb,
        ));
        assert(r[1] == (
            Controller::GeneralPurposeController2Msb,
            Controller::GeneralPurposeController2Lsb,
        ));
        assert(r[2] == (
            Controller::GeneralPurposeController3Msb,
            Controller::GeneralPurposeController3Lsb,
        ));
        assert(r[3] == (
            Controller::GeneralPurposeController4Msb,
            Controller::GeneralPurposeController4Lsb,
        ));
    }
}

/// Single-byte controllers are numbered consecutively within each run, from
/// 0x40 and from 0x5b, and each number decodes to its controller.
pub proof fn lemma_single_byte_controllers(run: int, index: int)
    requires
        0 <= run < 2,
        0 <= index < single_byte_run(run).len(),
    ensures
        single_byte_run(run)[index].spec_number() == (if run == 0 {
            0x40int
        } else {
            0x5bint
        }) + index,
        Controller::spec_from_number(single_byte_run(run)[index].spec_number()) == Some(
            single_byte_run(run)[index],
        ),
{
    let r = single_byte_run(run);
    if run == 0 {
        assert(r[0] == Controller::Sustain);
        assert(r[1] == Controller::PortamentoOnOff);
        assert(r[2] == Controller::Sostenuto);
        assert(r[3] == Controller::SoftPedal);
        assert(r[4] == Controller::LegatoFootswitch);
        assert(r[5] == Controller::Hold2);
        assert(r[6] == Controller::SoundController1Variation);
        assert(r[7] == Controller::SoundController2Timbre);
        assert(r[8] == Controller::SoundController3ReleaseTime);
        assert(r[9] == Controller::SoundController4AttackTime);
        assert(r[10] == Controller::SoundController5Brightness);
        assert(r[11] == Controller::SoundController6);
        assert(r[12] == Controller::SoundController7);
        assert(r[13] == Controller::SoundController8);
        assert(r[14] == Controller::SoundController9);
        assert(r[15] == Controller::SoundController10);
        assert(r[16] == Controller::GeneralPurposeController5);
        assert(r[17] == Controller::GeneralPurposeController6);
        assert(r[18] == Controller::GeneralPurposeController7);
        assert(r[19] == Controller::GeneralPurposeController8);
        assert(r[20] == Controller::PortamentoControl);
    } else {
        assert(r[0] == Controller::Effects1Depth);
        assert(r[1] == Controller::Effects2Depth);
        assert(r[2] == Controller::Effects3Depth);
        assert(r[3] == Controller::Effects4Depth);
        assert(r[4] == Controller::Effects5Depth);
        assert(r[5] == Controller::DataIncrement);
        assert(r[6] == Controller::DataDecrement);
        assert(r[7] == Controller::NonRegisteredParamLsb);
        assert(r[8] == Controller::NonRegisteredParamMsb);
        assert(r[9] == Controller::RegisteredParamLsb);
        assert(r[10] == Controller::RegisteredParamMsb);
    }
}

/// Channel modes are numbered consecutively from 120 in table order, and
/// each number decodes to its mode.
pub proof fn lemma_channel_mode_numbers(index: int)
    requires
        0 <= index < 8,
    ensures
        channel_mode_table()[index].spec_number() == 120 + index,
        ChannelMode::spec_from_number((120 + index) as u8) == Some(channel_mode_table()[index]),
{
    let t = channel_mode_table();
    assert(t[0] == ChannelMode::AllSoundOff);
    assert(t[1] == ChannelMode::ResetAllControllers);
    assert(t[2] == ChannelMode::LocalControl);
    assert(t[3] == ChannelMode::AllNotesOff);
    assert(t[4] == ChannelMode::OmniModeOff);
    assert(t[5] == ChannelMode::OmniModeOn);
    assert(t[6] == ChannelMode::MonoModeOn);
    assert(t[7] == ChannelMode::PolyModeOn);
}

} // verus!
