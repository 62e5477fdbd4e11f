//! Definitions for the General MIDI sound maps.

use vstd::prelude::*;

verus! {

/// The lowest MIDI note number of a General MIDI percussion sound.
pub const MIN_PERCUSSION: u8 = 35;

/// An instrument as defined by the General MIDI sound set.
///
/// Use [`Instrument::program_number`] to convert this enum to a program number
/// for use in MIDI Program Change messages.
///
/// Note that in MIDI specification documents, program numbers are written
/// 1-based, whereas they are transmitted over the wire 0-based. Program
/// numbers here are the 0-based forms; e.g. `Instrument::Clavi` has program
/// number 7, corresponding to General MIDI program number 8.
#[derive(Debug, Clone, Copy, PartialEq, Eq, PartialOrd, Ord, Hash, Structural)]
pub enum Instrument {
    AcousticGrandPiano,
    BrightAcousticPiano,
    ElectricGrandPiano,
    HonkyTonkPiano,
    ElectricPiano1,
    ElectricPiano2,
    Harpsichord,
    Clavi,
    Celesta,
    Glockenspiel,
    MusicBox,
    Vibraphone,
    Marimba,
    Xylophone,
    TubularBells,
    Dulcimer,
    DrawbarOrgan,
    PercussiveOrgan,
    RockOrgan,
    ChurchOrgan,
    ReedOrgan,
    Accordion,
    Harmonica,
    TangoAccordion,
    AcousticGuitarNylon,
    AcousticGuitarSteel,
    ElectricGuitarJazz,
    ElectricGuitarClean,
    ElectricGuitarMuted,
    OverdrivenGuitar,
    DistortionGuitar,
    GuitarHarmonics,
    AcousticBass,
    ElectricBassFinger,
    ElectricBassPick,
    FretlessBass,
    SlapBass1,
    SlapBass2,
    SynthBass1,
    SynthBass2,
    Violin,
    Viola,
    Cello,
    Contrabass,
    TremoloStrings,
    PizzicatoStrings,
    OrchestralHarp,
    Timpani,
    StringEnsemble1,
    StringEnsemble2,
    SynthStrings1,
    SynthStrings2,
    ChoirAahs,
    VoiceOohs,
    SynthVoice,
    OrchestraHit,
    Trumpet,
    Trombone,
    Tuba,
    MutedTrumpet,
    FrenchHorn,
    BrassSection,
    SynthBrass1,
    SynthBrass2,
    SopranoSax,
    AltoSax,
    TenorSax,
    BaritoneSax,
    Oboe,
    EnglishHorn,
    Bassoon,
    Clarinet,
    Piccolo,
    Flute,
    Recorder,
    PanFlute,
    BlownBottle,
    Shakuhachi,
    Whistle,
    Ocarina,
    Lead1Square,
    Lead2Sawtooth,
    Lead3Calliope,
    Lead4Chiff,
    Lead5Charang,
    Lead6Voice,
    Lead7Fifths,
    Lead8BassLead,
    Pad1NewAge,
    Pad2Warm,
    Pad3Polysynth,
    Pad4Choir,
    Pad5Bowed,
    Pad6Metallic,
    Pad7Halo,
    Pad8Sweep,
    Fx1Rain,
    Fx2Soundtrack,
    Fx3Crystal,
    Fx4Atmosphere,
    Fx5Brightness,
    Fx6Goblins,
    Fx7Echoes,
    Fx8SciFi,
    Sitar,
    Banjo,
    Shamisen,
    Koto,
    Kalimba,
    BagPipe,
    Fiddle,
    Shanai,
    TinkleBell,
    Agogo,
    SteelDrums,
    Woodblock,
    TaikoDrum,
    MelodicTom,
    SynthDrum,
    ReverseCymbal,
    GuitarFretNoise,
    BreathNoise,
    Seashore,
    BirdTweet,
    TelephoneRing,
    Helicopter,
    Applause,
    Gunshot,
}

impl Instrument {
    /// The 0-based program number of this instrument: its position in the
    /// General MIDI sound set.
    pub open spec fn spec_program_number(self) -> u8 {
        match self {
            Instrument::AcousticGrandPiano => 0,
            Instrument::BrightAcousticPiano => 1,
            Instrument::ElectricGrandPiano => 2,
            Instrument::HonkyTonkPiano => 3,
            Instrument::ElectricPiano1 => 4,
            Instrument::ElectricPiano2 => 5,
            Instrument::Harpsichord => 6,
            Instrument::Clavi => 7,
            Instrument::Celesta => 8,
            Instrument::Glockenspiel => 9,
            Instrument::MusicBox => 10,
            Instrument::Vibraphone => 11,
            Instrument::Marimba => 12,
            Instrument::Xylophone => 13,
            Instrument::TubularBells => 14,
            Instrument::Dulcimer => 15,
            Instrument::DrawbarOrgan => 16,
            Instrument::PercussiveOrgan => 17,
            Instrument::RockOrgan => 18,
            Instrument::ChurchOrgan => 19,
            Instrument::ReedOrgan => 20,
            Instrument::Accordion => 21,
            Instrument::Harmonica => 22,
            Instrument::TangoAccordion => 23,
            Instrument::AcousticGuitarNylon => 24,
            Instrument::AcousticGuitarSteel => 25,
            Instrument::ElectricGuitarJazz => 26,
            Instrument::ElectricGuitarClean => 27,
            Instrument::ElectricGuitarMuted => 28,
            Instrument::OverdrivenGuitar => 29,
            Instrument::DistortionGuitar => 30,
            Instrument::GuitarHarmonics => 31,
            Instrument::AcousticBass => 32,
            Instrument::ElectricBassFinger => 33,
            Instrument::ElectricBassPick => 34,
            Instrument::FretlessBass => 35,
            Instrument::SlapBass1 => 36,
            Instrument::SlapBass2 => 37,
            Instrument::SynthBass1 => 38,
            Instrument::SynthBass2 => 39,
            Instrument::Violin => 40,
            Instrument::Viola => 41,
            Instrument::Cello => 42,
            Instrument::Contrabass => 43,
            Instrument::TremoloStrings => 44,
            Instrument::PizzicatoStrings => 45,
            Instrument::OrchestralHarp => 46,
            Instrument::Timpani => 47,
            Instrument::StringEnsemble1 => 48,
            Instrument::StringEnsemble2 => 49,
            Instrument::SynthStrings1 => 50,
            Instrument::SynthStrings2 => 51,
            Instrument::ChoirAahs => 52,
            Instrument::VoiceOohs => 53,
            Instrument::SynthVoice => 54,
            Instrument::OrchestraHit => 55,
            Instrument::Trumpet => 56,
            Instrument::Trombone => 57,
            Instrument::Tuba => 58,
            Instrument::MutedTrumpet => 59,
            Instrument::FrenchHorn => 60,
            Instrument::BrassSection => 61,
            Instrument::SynthBrass1 => 62,
            Instrument::SynthBrass2 => 63,
            Instrument::SopranoSax => 64,
            Instrument::AltoSax => 65,
            Instrument::TenorSax => 66,
            Instrument::BaritoneSax => 67,
            Instrument::Oboe => 68,
            Instrument::EnglishHorn => 69,
            Instrument::Bassoon => 70,
            Instrument::Clarinet => 71,
            Instrument::Piccolo => 72,
            Instrument::Flute => 73,
            Instrument::Recorder => 74,
            Instrument::PanFlute => 75,
            Instrument::BlownBottle => 76,
            Instrument::Shakuhachi => 77,
            Instrument::Whistle => 78,
            Instrument::Ocarina => 79,
            Instrument::Lead1Square => 80,
            Instrument::Lead2Sawtooth => 81,
            Instrument::Lead3Calliope => 82,
            Instrument::Lead4Chiff => 83,
            Instrument::Lead5Charang => 84,
            Instrument::Lead6Voice => 85,
            Instrument::Lead7Fifths => 86,
            Instrument::Lead8BassLead => 87,
            Instrument::Pad1NewAge => 88,
            Instrument::Pad2Warm => 89,
            Instrument::Pad3Polysynth => 90,
            Instrument::Pad4Choir => 91,
            Instrument::Pad5Bowed => 92,
            Instrument::Pad6Metallic => 93,
            Instrument::Pad7Halo => 94,
            Instrument::Pad8Sweep => 95,
            Instrument::Fx1Rain => 96,
            Instrument::Fx2Soundtrack => 97,
            Instrument::Fx3Crystal => 98,
            Instrument::Fx4Atmosphere => 99,
            Instrument::Fx5Brightness => 100,
            Instrument::Fx6Goblins => 101,
            Instrument::Fx7Echoes => 102,
            Instrument::Fx8SciFi => 103,
            Instrument::Sitar => 104,
            Instrument::Banjo => 105,
            Instrument::Shamisen => 106,
            Instrument::Koto => 107,
            Instrument::Kalimba => 108,
            Instrument::BagPipe => 109,
            Instrument::Fiddle => 110,
            Instrument::Shanai => 111,
            Instrument::TinkleBell => 112,
            Instrument::Agogo => 113,
            Instrument::SteelDrums => 114,
            Instrument::Woodblock => 115,
            Instrument::TaikoDrum => 116,
            Instrument::MelodicTom => 117,
            Instrument::SynthDrum => 118,
            Instrument::ReverseCymbal => 119,
            Instrument::GuitarFretNoise => 120,
            Instrument::BreathNoise => 121,
            Instrument::Seashore => 122,
            Instrument::BirdTweet => 123,
            Instrument::TelephoneRing => 124,
            Instrument::Helicopter => 125,
            Instrument::Applause => 126,
            Instrument::Gunshot => 127,
        }
    }

    /// The instrument with the given program number, which must be below 128
    /// for the result to mean anything.
    pub open spec fn with_program_number(num: u8) -> Instrument
        recommends
            num < 128,
    {
        match num {
            0 => Instrument::AcousticGrandPiano,
            1 => Instrument::BrightAcousticPiano,
            2 => Instrument::ElectricGrandPiano,
            3 => Instrument::HonkyTonkPiano,
            4 => Instrument::ElectricPiano1,
            5 => Instrument::ElectricPiano2,
            6 => Instrument::Harpsichord,
            7 => Instrument::Clavi,
            8 => Instrument::Celesta,
            9 => Instrument::Glockenspiel,
            10 => Instrument::MusicBox,
            11 => Instrument::Vibraphone,
            12 => Instrument::Marimba,
            13 => Instrument::Xylophone,
            14 => Instrument::TubularBells,
            15 => Instrument::Dulcimer,
            16 => Instrument::DrawbarOrgan,
            17 => Instrument::PercussiveOrgan,
            18 => Instrument::RockOrgan,
            19 => Instrument::ChurchOrgan,
            20 => Instrument::ReedOrgan,
            21 => Instrument::Accordion,
            22 => Instrument::Harmonica,
            23 => Instrument::TangoAccordion,
            24 => Instrument::AcousticGuitarNylon,
            25 => Instrument::AcousticGuitarSteel,
            26 => Instrument::ElectricGuitarJazz,
            27 => Instrument::ElectricGuitarClean,
            28 => Instrument::ElectricGuitarMuted,
            29 => Instrument::OverdrivenGuitar,
            30 => Instrument::DistortionGuitar,
            31 => Instrument::GuitarHarmonics,
            32 => Instrument::AcousticBass,
            33 => Instrument::ElectricBassFinger,
            34 => Instrument::ElectricBassPick,
            35 => Instrument::FretlessBass,
            36 => Instrument::SlapBass1,
            37 => Instrument::SlapBass2,
            38 => Instrument::SynthBass1,
            39 => Instrument::SynthBass2,
            40 => Instrument::Violin,
            41 => Instrument::Viola,
            42 => Instrument::Cello,
            43 => Instrument::Contrabass,
            44 => Instrument::TremoloStrings,
            45 => Instrument::PizzicatoStrings,
            46 => Instrument::OrchestralHarp,
            47 => Instrument::Timpani,
            48 => Instrument::StringEnsemble1,
            49 => Instrument::StringEnsemble2,
            50 => Instrument::SynthStrings1,
            51 => Instrument::SynthStrings2,
            52 => Instrument::ChoirAahs,
            53 => Instrument::VoiceOohs,
            54 => Instrument::SynthVoice,
            55 => Instrument::OrchestraHit,
            56 => Instrument::Trumpet,
            57 => Instrument::Trombone,
            58 => Instrument::Tuba,
            59 => Instrument::MutedTrumpet,
            60 => Instrument::FrenchHorn,
            61 => Instrument::BrassSection,
            62 => Instrument::SynthBrass1,
            63 => Instrument::SynthBrass2,
            64 => Instrument::SopranoSax,
            65 => Instrument::AltoSax,
            66 => Instrument::TenorSax,
            67 => Instrument::BaritoneSax,
            68 => Instrument::Oboe,
            69 => Instrument::EnglishHorn,
            70 => Instrument::Bassoon,
            71 => Instrument::Clarinet,
            72 => Instrument::Piccolo,
            73 => Instrument::Flute,
            74 => Instrument::Recorder,
            75 => Instrument::PanFlute,
            76 => Instrument::BlownBottle,
            77 => Instrument::Shakuhachi,
            78 => Instrument::Whistle,
            79 => Instrument::Ocarina,
            80 => Instrument::Lead1Square,
            81 => Instrument::Lead2Sawtooth,
            82 => Instrument::Lead3Calliope,
            83 => Instrument::Lead4Chiff,
            84 => Instrument::Lead5Charang,
            85 => Instrument::Lead6Voice,
            86 => Instrument::Lead7Fifths,
            87 => Instrument::Lead8BassLead,
            88 => Instrument::Pad1NewAge,
            89 => Instrument::Pad2Warm,
            90 => Instrument::Pad3Polysynth,
            91 => Instrument::Pad4Choir,
            92 => Instrument::Pad5Bowed,
            93 => Instrument::Pad6Metallic,
            94 => Instrument::Pad7Halo,
            95 => Instrument::Pad8Sweep,
            96 => Instrument::Fx1Rain,
            97 => Instrument::Fx2Soundtrack,
            98 => Instrument::Fx3Crystal,
            99 => Instrument::Fx4Atmosphere,
            100 => Instrument::Fx5Brightness,
            101 => Instrument::Fx6Goblins,
            102 => Instrument::Fx7Echoes,
            103 => Instrument::Fx8SciFi,
            104 => Instrument::Sitar,
            105 => Instrument::Banjo,
            106 => Instrument::Shamisen,
            107 => Instrument::Koto,
            108 => Instrument::Kalimba,
            109 => Instrument::BagPipe,
            110 => Instrument::Fiddle,
            111 => Instrument::Shanai,
            112 => Instrument::TinkleBell,
            113 => Instrument::Agogo,
            114 => Instrument::SteelDrums,
            115 => Instrument::Woodblock,
            116 => Instrument::TaikoDrum,
            117 => Instrument::MelodicTom,
            118 => Instrument::SynthDrum,
            119 => Instrument::ReverseCymbal,
            120 => Instrument::GuitarFretNoise,
            121 => Instrument::BreathNoise,
            122 => Instrument::Seashore,
            123 => Instrument::BirdTweet,
            124 => Instrument::TelephoneRing,
            125 => Instrument::Helicopter,
            126 => Instrument::Applause,
            _ => Instrument::Gunshot,
        }
    }

    /// Get the program number of this General MIDI instrument.
    pub fn program_number(self) -> (r: u8)
        ensures
            r == self.spec_program_number(),
    {
        match self {
            Self::AcousticGrandPiano => 0,
            Self::BrightAcousticPiano => 1,
            Self::ElectricGrandPiano => 2,
            Self::HonkyTonkPiano => 3,
            Self::ElectricPiano1 => 4,
            Self::ElectricPiano2 => 5,
            Self::Harpsichord => 6,
            Self::Clavi => 7,
            Self::Celesta => 8,
            Self::Glockenspiel => 9,
            Self::MusicBox => 10,
            Self::Vibraphone => 11,
            Self::Marimba => 12,
            Self::Xylophone => 13,
            Self::TubularBells => 14,
            Self::Dulcimer => 15,
            Self::DrawbarOrgan => 16,
            Self::PercussiveOrgan => 17,
            Self::RockOrgan => 18,
            Self::ChurchOrgan => 19,
            Self::ReedOrgan => 20,
            Self::Accordion => 21,
            Self::Harmonica => 22,
            Self::TangoAccordion => 23,
            Self::AcousticGuitarNylon => 24,
            Self::AcousticGuitarSteel => 25,
            Self::ElectricGuitarJazz => 26,
            Self::ElectricGuitarClean => 27,
            Self::ElectricGuitarMuted => 28,
            Self::OverdrivenGuitar => 29,
            Self::DistortionGuitar => 30,
            Self::GuitarHarmonics => 31,
            Self::AcousticBass => 32,
            Self::ElectricBassFinger => 33,
            Self::ElectricBassPick => 34,
            Self::FretlessBass => 35,
            Self::SlapBass1 => 36,
            Self::SlapBass2 => 37,
            Self::SynthBass1 => 38,
            Self::SynthBass2 => 39,
            Self::Violin => 40,
            Self::Viola => 41,
            Self::Cello => 42,
            Self::Contrabass => 43,
            Self::TremoloStrings => 44,
            Self::PizzicatoStrings => 45,
            Self::OrchestralHarp => 46,
            Self::Timpani => 47,
            Self::StringEnsemble1 => 48,
            Self::StringEnsemble2 => 49,
            Self::SynthStrings1 => 50,
            Self::SynthStrings2 => 51,
            Self::ChoirAahs => 52,
            Self::VoiceOohs => 53,
            Self::SynthVoice => 54,
            Self::OrchestraHit => 55,
            Self::Trumpet => 56,
            Self::Trombone => 57,
            Self::Tuba => 58,
            Self::MutedTrumpet => 59,
            Self::FrenchHorn => 60,
            Self::BrassSection => 61,
            Self::SynthBrass1 => 62,
            Self::SynthBrass2 => 63,
            Self::SopranoSax => 64,
            Self::AltoSax => 65,
            Self::TenorSax => 66,
            Self::BaritoneSax => 67,
            Self::Oboe => 68,
            Self::EnglishHorn => 69,
            Self::Bassoon => 70,
            Self::Clarinet => 71,
            Self::Piccolo => 72,
            Self::Flute => 73,
            Self::Recorder => 74,
            Self::PanFlute => 75,
            Self::BlownBottle => 76,
            Self::Shakuhachi => 77,
            Self::Whistle => 78,
            Self::Ocarina => 79,
            Self::Lead1Square => 80,
            Self::Lead2Sawtooth => 81,
            Self::Lead3Calliope => 82,
            Self::Lead4Chiff => 83,
            Self::Lead5Charang => 84,
            Self::Lead6Voice => 85,
            Self::Lead7Fifths => 86,
            Self::Lead8BassLead => 87,
            Self::Pad1NewAge => 88,
            Self::Pad2Warm => 89,
            Self::Pad3Polysynth => 90,
            Self::Pad4Choir => 91,
            Self::Pad5Bowed => 92,
            Self::Pad6Metallic => 93,
            Self::Pad7Halo => 94,
            Self::Pad8Sweep => 95,
            Self::Fx1Rain => 96,
            Self::Fx2Soundtrack => 97,
            Self::Fx3Crystal => 98,
            Self::Fx4Atmosphere => 99,
            Self::Fx5Brightness => 100,
            Self::Fx6Goblins => 101,
            Self::Fx7Echoes => 102,
            Self::Fx8SciFi => 103,
            Self::Sitar => 104,
            Self::Banjo => 105,
            Self::Shamisen => 106,
            Self::Koto => 107,
            Self::Kalimba => 108,
            Self::BagPipe => 109,
            Self::Fiddle => 110,
            Self::Shanai => 111,
            Self::TinkleBell => 112,
            Self::Agogo => 113,
            Self::SteelDrums => 114,
            Self::Woodblock => 115,
            Self::TaikoDrum => 116,
            Self::MelodicTom => 117,
            Self::SynthDrum => 118,
            Self::ReverseCymbal => 119,
            Self::GuitarFretNoise => 120,
            Self::BreathNoise => 121,
            Self::Seashore => 122,
            Self::BirdTweet => 123,
            Self::TelephoneRing => 124,
            Self::Helicopter => 125,
            Self::Applause => 126,
            Self::Gunshot => 127,
        }
    }

    /// Convert a MIDI program number to a General MIDI instrument.
    ///
    /// This will succeed so long as the given byte is a valid MIDI data
    /// byte (i.e. has its high bit cleared or, equivalently, is less
    /// than 128). Returns None otherwise.
    pub fn from_program_number(num: u8) -> (r: Option<Self>)
        ensures
            r is Some <==> num < 128,
            r matches Some(i) ==> i == Instrument::with_program_number(num)
                && i.spec_program_number() == num,
    {
        match num {
            0 => Some(Self::AcousticGrandPiano),
            1 => Some(Self::BrightAcousticPiano),
            2 => Some(Self::ElectricGrandPiano),
            3 => Some(Self::HonkyTonkPiano),
            4 => Some(Self::ElectricPiano1),
            5 => Some(Self::ElectricPiano2),
            6 => Some(Self::Harpsichord),
            7 => Some(Self::Clavi),
            8 => Some(Self::Celesta),
            9 => Some(Self::Glockenspiel),
            10 => Some(Self::MusicBox),
            11 => Some(Self::Vibraphone),
            12 => Some(Self::Marimba),
            13 => Some(Self::Xylophone),
            14 => Some(Self::TubularBells),
            15 => Some(Self::Dulcimer),
            16 => Some(Self::DrawbarOrgan),
            17 => Some(Self::PercussiveOrgan),
            18 => Some(Self::RockOrgan),
            19 => Some(Self::ChurchOrgan),
            20 => Some(Self::ReedOrgan),
            21 => Some(Self::Accordion),
            22 => Some(Self::Harmonica),
            23 => Some(Self::TangoAccordion),
            24 => Some(Self::AcousticGuitarNylon),
            25 => Some(Self::AcousticGuitarSteel),
            26 => Some(Self::ElectricGuitarJazz),
            27 => Some(Self::ElectricGuitarClean),
            28 => Some(Self::ElectricGuitarMuted),
            29 => Some(Self::OverdrivenGuitar),
            30 => Some(Self::DistortionGuitar),
            31 => Some(Self::GuitarHarmonics),
            32 => Some(Self::AcousticBass),
            33 => Some(Self::ElectricBassFinger),
            34 => Some(Self::ElectricBassPick),
            35 => Some(Self::FretlessBass),
            36 => Some(Self::SlapBass1),
            37 => Some(Self::SlapBass2),
            38 => Some(Self::SynthBass1),
            39 => Some(Self::SynthBass2),
            40 => Some(Self::Violin),
            41 => Some(Self::Viola),
            42 => Some(Self::Cello),
            43 => Some(Self::Contrabass),
            44 => Some(Self::TremoloStrings),
            45 => Some(Self::PizzicatoStrings),
            46 => Some(Self::OrchestralHarp),
            47 => Some(Self::Timpani),
            48 => Some(Self::StringEnsemble1),
            49 => Some(Self::StringEnsemble2),
            50 => Some(Self::SynthStrings1),
            51 => Some(Self::SynthStrings2),
            52 => Some(Self::ChoirAahs),
            53 => Some(Self::VoiceOohs),
            54 => Some(Self::SynthVoice),
            55 => Some(Self::OrchestraHit),
            56 => Some(Self::Trumpet),
            57 => Some(Self::Trombone),
            58 => Some(Self::Tuba),
            59 => Some(Self::MutedTrumpet),
            60 => Some(Self::FrenchHorn),
            61 => Some(Self::BrassSection),
            62 => Some(Self::SynthBrass1),
            63 => Some(Self::SynthBrass2),
            64 => Some(Self::SopranoSax),
            65 => Some(Self::AltoSax),
            66 => Some(Self::TenorSax),
            67 => Some(Self::BaritoneSax),
            68 => Some(Self::Oboe),
            69 => Some(Self::EnglishHorn),
            70 => Some(Self::Bassoon),
            71 => Some(Self::Clarinet),
            72 => Some(Self::Piccolo),
            73 => Some(Self::Flute),
            74 => Some(Self::Recorder),
            75 => Some(Self::PanFlute),
            76 => Some(Self::BlownBottle),
            77 => Some(Self::Shakuhachi),
            78 => Some(Self::Whistle),
            79 => Some(Self::Ocarina),
            80 => Some(Self::Lead1Square),
            81 => Some(Self::Lead2Sawtooth),
            82 => Some(Self::Lead3Calliope),
            83 => Some(Self::Lead4Chiff),
            84 => Some(Self::Lead5Charang),
            85 => Some(Self::Lead6Voice),
            86 => Some(Self::Lead7Fifths),
            87 => Some(Self::Lead8BassLead),
            88 => Some(Self::Pad1NewAge),
            89 => Some(Self::Pad2Warm),
            90 => Some(Self::Pad3Polysynth),
            91 => Some(Self::Pad4Choir),
            92 => Some(Self::Pad5Bowed),
            93 => Some(Self::Pad6Metallic),
            94 => Some(Self::Pad7Halo),
            95 => Some(Self::Pad8Sweep),
            96 => Some(Self::Fx1Rain),
            97 => Some(Self::Fx2Soundtrack),
            98 => Some(Self::Fx3Crystal),
            99 => Some(Self::Fx4Atmosphere),
            100 => Some(Self::Fx5Brightness),
            101 => Some(Self::Fx6Goblins),
            102 => Some(Self::Fx7Echoes),
            103 => Some(Self::Fx8SciFi),
            104 => Some(Self::Sitar),
            105 => Some(Self::Banjo),
            106 => Some(Self::Shamisen),
            107 => Some(Self::Koto),
            108 => Some(Self::Kalimba),
            109 => Some(Self::BagPipe),
            110 => Some(Self::Fiddle),
            111 => Some(Self::Shanai),
            112 => Some(Self::TinkleBell),
            113 => Some(Self::Agogo),
            114 => Some(Self::SteelDrums),
            115 => Some(Self::Woodblock),
            116 => Some(Self::TaikoDrum),
            117 => Some(Self::MelodicTom),
            118 => Some(Self::SynthDrum),
            119 => Some(Self::ReverseCymbal),
            120 => Some(Self::GuitarFretNoise),
            121 => Some(Self::BreathNoise),
            122 => Some(Self::Seashore),
            123 => Some(Self::BirdTweet),
            124 => Some(Self::TelephoneRing),
            125 => Some(Self::Helicopter),
            126 => Some(Self::Applause),
            127 => Some(Self::Gunshot),
            _ => None,
        }
    }
}

impl From<Instrument> for u8 {
    fn from(val: Instrument) -> (r: u8) {
        val.program_number()
    }
}

impl vstd::std_specs::convert::FromSpecImpl<Instrument> for u8 {
    open spec fn obeys_from_spec() -> bool {
        true
    }

    open spec fn from_spec(val: Instrument) -> u8 {
        val.spec_program_number()
    }
}

/// A percussion sound as defined by the General MIDI percussion map.
///
/// In a General MIDI system, non-chromatic percussion is sent on MIDI
/// channel 10 (1-based, transmitted over the wire in 0-based form as 9), and
/// particular percussion sounds correspond to particular MIDI note numbers on
/// that channel. Use [`Percussion::note_number`] to convert from an instance
/// of this enum to the corresponding MIDI note number.
#[derive(Debug, Clone, Copy, PartialEq, Eq, PartialOrd, Ord, Hash, Structural)]
pub enum Percussion {
    AcousticBassDrum,
    BassDrum1,
    SideStick,
    AcousticSnare,
    HandClap,
    ElectricSnare,
    LowFloorTom,
    ClosedHiHat,
    HighFloorTom,
    PedalHiHat,
    LowTom,
    OpenHiHat,
    LowMidTom,
    HiMidTom,
    CrashCymbal1,
    HighTom,
    RideCymbal1,
    ChineseCymbal,
    RideBell,
    Tambourine,
    SplashCymbal,
    Cowbell,
    CrashCymbal2,
    Vibraslap,
    RideCymbal2,
    HiBongo,
    LowBongo,
    MuteHiConga,
    OpenHiConga,
    LowConga,
    HighTimbale,
    LowTimbale,
    HighAgogo,
    LowAgogo,
    Cabasa,
    Mracas,
    ShortWhistle,
    LongWhistle,
    ShortGuiro,
    LongGuiro,
    Claves,
    HiWoodBlock,
    LowWoodBlock,
    MuteCuica,
    OpenCuica,
    MuteTriangle,
    OpenTriangle,
}

impl Percussion {
    /// The MIDI note number of this percussion sound: 35 plus its position
    /// in the General MIDI percussion map.
    pub open spec fn spec_note_number(self) -> u8 {
        match self {
            Percussion::AcousticBassDrum => 35,
            Percussion::BassDrum1 => 36,
            Percussion::SideStick => 37,
            Percussion::AcousticSnare => 38,
            Percussion::HandClap => 39,
            Percussion::ElectricSnare => 40,
            Percussion::LowFloorTom => 41,
            Percussion::ClosedHiHat => 42,
            Percussion::HighFloorTom => 43,
            Percussion::PedalHiHat => 44,
            Percussion::LowTom => 45,
            Percussion::OpenHiHat => 46,
            Percussion::LowMidTom => 47,
            Percussion::HiMidTom => 48,
            Percussion::CrashCymbal1 => 49,
            Percussion::HighTom => 50,
            Percussion::RideCymbal1 => 51,
            Percussion::ChineseCymbal => 52,
            Percussion::RideBell => 53,
            Percussion::Tambourine => 54,
            Percussion::SplashCymbal => 55,
            Percussion::Cowbell => 56,
            Percussion::CrashCymbal2 => 57,
            Percussion::Vibraslap => 58,
            Percussion::RideCymbal2 => 59,
            Percussion::HiBongo => 60,
            Percussion::LowBongo => 61,
            Percussion::MuteHiConga => 62,
            Percussion::OpenHiConga => 63,
            Percussion::LowConga => 64,
            Percussion::HighTimbale => 65,
            Percussion::LowTimbale => 66,
            Percussion::HighAgogo => 67,
            Percussion::LowAgogo => 68,
            Percussion::Cabasa => 69,
            Percussion::Mracas => 70,
            Percussion::ShortWhistle => 71,
            Percussion::LongWhistle => 72,
            Percussion::ShortGuiro => 73,
            Percussion::LongGuiro => 74,
            Percussion::Claves => 75,
            Percussion::HiWoodBlock => 76,
            Percussion::LowWoodBlock => 77,
            Percussion::MuteCuica => 78,
            Percussion::OpenCuica => 79,
            Percussion::MuteTriangle => 80,
            Percussion::OpenTriangle => 81,
        }
    }

    /// The percussion sound with the given note number, which must lie in
    /// 35..=81 for the result to mean anything.
    pub open spec fn with_note_number(num: u8) -> Percussion
        recommends
            35 <= num <= 81,
    {
        match num {
            35 => Percussion::AcousticBassDrum,
            36 => Percussion::BassDrum1,
            37 => Percussion::SideStick,
            38 => Percussion::AcousticSnare,
            39 => Percussion::HandClap,
            40 => Percussion::ElectricSnare,
            41 => Percussion::LowFloorTom,
            42 => Percussion::ClosedHiHat,
            43 => Percussion::HighFloorTom,
            44 => Percussion::PedalHiHat,
            45 => Percussion::LowTom,
            46 => Percussion::OpenHiHat,
            47 => Percussion::LowMidTom,
            48 => Percussion::HiMidTom,
            49 => Percussion::CrashCymbal1,
            50 => Percussion::HighTom,
            51 => Percussion::RideCymbal1,
            52 => Percussion::ChineseCymbal,
            53 => Percussion::RideBell,
            54 => Percussion::Tambourine,
            55 => Percussion::SplashCymbal,
            56 => Percussion::Cowbell,
            57 => Percussion::CrashCymbal2,
            58 => Percussion::Vibraslap,
            59 => Percussion::RideCymbal2,
            60 => Percussion::HiBongo,
            61 => Percussion::LowBongo,
            62 => Percussion::MuteHiConga,
            63 => Percussion::OpenHiConga,
            64 => Percussion::LowConga,
            65 => Percussion::HighTimbale,
            66 => Percussion::LowTimbale,
            67 => Percussion::HighAgogo,
            68 => Percussion::LowAgogo,
            69 => Percussion::Cabasa,
            70 => Percussion::Mracas,
            71 => Percussion::ShortWhistle,
            72 => Percussion::LongWhistle,
            73 => Percussion::ShortGuiro,
            74 => Percussion::LongGuiro,
            75 => Percussion::Claves,
            76 => Percussion::HiWoodBlock,
            77 => Percussion::LowWoodBlock,
            78 => Percussion::MuteCuica,
            79 => Percussion::OpenCuica,
            80 => Percussion::MuteTriangle,
            _ => Percussion::OpenTriangle,
        }
    }

    /// Get the MIDI note number for this percussion sound.
    pub fn note_number(self) -> (r: u8)
        ensures
            r == self.spec_note_number(),
    {
        match self {
            Self::AcousticBassDrum => 35,
            Self::BassDrum1 => 36,
            Self::SideStick => 37,
            Self::AcousticSnare => 38,
            Self::HandClap => 39,
            Self::ElectricSnare => 40,
            Self::LowFloorTom => 41,
            Self::ClosedHiHat => 42,
            Self::HighFloorTom => 43,
            Self::PedalHiHat => 44,
            Self::LowTom => 45,
            Self::OpenHiHat => 46,
            Self::LowMidTom => 47,
            Self::HiMidTom => 48,
            Self::CrashCymbal1 => 49,
            Self::HighTom => 50,
            Self::RideCymbal1 => 51,
            Self::ChineseCymbal => 52,
            Self::RideBell => 53,
            Self::Tambourine => 54,
            Self::SplashCymbal => 55,
            Self::Cowbell => 56,
            Self::CrashCymbal2 => 57,
            Self::Vibraslap => 58,
            Self::RideCymbal2 => 59,
            Self::HiBongo => 60,
            Self::LowBongo => 61,
            Self::MuteHiConga => 62,
            Self::OpenHiConga => 63,
            Self::LowConga => 64,
            Self::HighTimbale => 65,
            Self::LowTimbale => 66,
            Self::HighAgogo => 67,
            Self::LowAgogo => 68,
            Self::Cabasa => 69,
            Self::Mracas => 70,
            Self::ShortWhistle => 71,
            Self::LongWhistle => 72,
            Self::ShortGuiro => 73,
            Self::LongGuiro => 74,
            Self::Claves => 75,
            Self::HiWoodBlock => 76,
            Self::LowWoodBlock => 77,
            Self::MuteCuica => 78,
            Self::OpenCuica => 79,
            Self::MuteTriangle => 80,
            Self::OpenTriangle => 81,
        }
    }

    /// Convert a MIDI note number to a General MIDI percussion sound.
    ///
    /// Returns None if the given note number does not correspond to a
    /// General MIDI percussion sound. Percussion sounds are mapped to
    /// MIDI notes 35 through 81, inclusive.
    pub fn from_note_number(num: u8) -> (r: Option<Self>)
        ensures
            r is Some <==> MIN_PERCUSSION <= num <= 81,
            r matches Some(p) ==> p == Percussion::with_note_number(num)
                && p.spec_note_number() == num,
    {
        match num {
            35 => Some(Self::AcousticBassDrum),
            36 => Some(Self::BassDrum1),
            37 => Some(Self::SideStick),
            38 => Some(Self::AcousticSnare),
            39 => Some(Self::HandClap),
            40 => Some(Self::ElectricSnare),
            41 => Some(Self::LowFloorTom),
            42 => Some(Self::ClosedHiHat),
            43 => Some(Self::HighFloorTom),
            44 => Some(Self::PedalHiHat),
            45 => Some(Self::LowTom),
            46 => Some(Self::OpenHiHat),
            47 => Some(Self::LowMidTom),
            48 => Some(Self::HiMidTom),
            49 => Some(Self::CrashCymbal1),
            50 => Some(Self::HighTom),
            51 => Some(Self::RideCymbal1),
            52 => Some(Self::ChineseCymbal),
            53 => Some(Self::RideBell),
            54 => Some(Self::Tambourine),
            55 => Some(Self::SplashCymbal),
            56 => Some(Self::Cowbell),
            57 => Some(Self::CrashCymbal2),
            58 => Some(Self::Vibraslap),
            59 => Some(Self::RideCymbal2),
            60 => Some(Self::HiBongo),
            61 => Some(Self::LowBongo),
            62 => Some(Self::MuteHiConga),
            63 => Some(Self::OpenHiConga),
            64 => Some(Self::LowConga),
            65 => Some(Self::HighTimbale),
            66 => Some(Self::LowTimbale),
            67 => Some(Self::HighAgogo),
            68 => Some(Self::LowAgogo),
            69 => Some(Self::Cabasa),
            70 => Some(Self::Mracas),
            71 => Some(Self::ShortWhistle),
            72 => Some(Self::LongWhistle),
            73 => Some(Self::ShortGuiro),
            74 => Some(Self::LongGuiro),
            75 => Some(Self::Claves),
            76 => Some(Self::HiWoodBlock),
            77 => Some(Self::LowWoodBlock),
            78 => Some(Self::MuteCuica),
            79 => Some(Self::OpenCuica),
            80 => Some(Self::MuteTriangle),
            81 => Some(Self::OpenTriangle),
            _ => None,
        }
    }
}

impl From<Percussion> for u8 {
    fn from(val: Percussion) -> (r: u8) {
        val.note_number()
    }
}

impl vstd::std_specs::convert::FromSpecImpl<Percussion> for u8 {
    open spec fn obeys_from_spec() -> bool {
        true
    }

    open spec fn from_spec(val: Percussion) -> u8 {
        val.spec_note_number()
    }
}

/// Every instrument has a program number below 128 and is the instrument of
/// that number, so instruments with equal program numbers are equal.
pub proof fn lemma_instrument_program_number(a: Instrument, b: Instrument)
    ensures
        a.spec_program_number() < 128,
        Instrument::with_program_number(a.spec_program_number()) == a,
        a.spec_program_number() == b.spec_program_number() ==> a == b,
{
    assert(Instrument::with_program_number(b.spec_program_number()) == b);
}

/// Every percussion sound has a note number in 35..=81 and is the sound of
/// that number, so sounds with equal note numbers are equal.
pub proof fn lemma_percussion_note_number(a: Percussion, b: Percussion)
    ensures
        MIN_PERCUSSION <= a.spec_note_number() <= 81,
        Percussion::with_note_number(a.spec_note_number()) == a,
        a.spec_note_number() == b.spec_note_number() ==> a == b,
{
    assert(Percussion::with_note_number(b.spec_note_number()) == b);
}


/// The sixteen instrument families of the General MIDI sound set, eight
/// instruments each, in order: piano, chromatic percussion, organ, guitar,
/// bass, strings, ensemble, brass, reed, pipe, synth lead, synth pad, synth
/// effects, ethnic, percussive and sound effects; each family in its listed
/// order. Out of range it is empty.
pub open spec fn instrument_family(family: int) -> Seq<Instrument> {
    if family == 0 {
        // piano
        seq![Instrument::AcousticGrandPiano, Instrument::BrightAcousticPiano, Instrument::ElectricGrandPiano, Instrument::HonkyTonkPiano, Instrument::ElectricPiano1, Instrument::ElectricPiano2, Instrument::Harpsichord, Instrument::Clavi]
    } else if family == 1 {
        // chromatic percussion
        seq![Instrument::Celesta, Instrument::Glockenspiel, Instrument::MusicBox, Instrument::Vibraphone, Instrument::Marimba, Instrument::Xylophone, Instrument::TubularBells, Instrument::Dulcimer]
    } else if family == 2 {
        // organ
        seq![Instrument::DrawbarOrgan, Instrument::PercussiveOrgan, Instrument::RockOrgan, Instrument::ChurchOrgan, Instrument::ReedOrgan, Instrument::Accordion, Instrument::Harmonica, Instrument::TangoAccordion]
    } else if family == 3 {
        // guitar
        seq![Instrument::AcousticGuitarNylon, Instrument::AcousticGuitarSteel, Instrument::ElectricGuitarJazz, Instrument::ElectricGuitarClean, Instrument::ElectricGuitarMuted, Instrument::OverdrivenGuitar, Instrument::DistortionGuitar, Instrument::GuitarHarmonics]
    } else if family == 4 {
        // bass
        seq![Instrument::AcousticBass, Instrument::ElectricBassFinger, Instrument::ElectricBassPick, Instrument::FretlessBass, Instrument::SlapBass1, Instrument::SlapBass2, Instrument::SynthBass1, Instrument::SynthBass2]
    } else if family == 5 {
        // strings
        seq![Instrument::Violin, Instrument::Viola, Instrument::Cello, Instrument::Contrabass, Instrument::TremoloStrings, Instrument::PizzicatoStrings, Instrument::OrchestralHarp, Instrument::Timpani]
    } else if family == 6 {
        // ensemble
        seq![Instrument::StringEnsemble1, Instrument::StringEnsemble2, Instrument::SynthStrings1, Instrument::SynthStrings2, Instrument::ChoirAahs, Instrument::VoiceOohs, Instrument::SynthVoice, Instrument::OrchestraHit]
    } else if family == 7 {
        // brass
        seq![Instrument::Trumpet, Instrument::Trombone, Instrument::Tuba, Instrument::MutedTrumpet, Instrument::FrenchHorn, Instrument::BrassSection, Instrument::SynthBrass1, Instrument::SynthBrass2]
    } else if family == 8 {
        // reed
        seq![Instrument::SopranoSax, Instrument::AltoSax, Instrument::TenorSax, Instrument::BaritoneSax, Instrument::Oboe, Instrument::EnglishHorn, Instrument::Bassoon, Instrument::Clarinet]
    } else if family == 9 {
        // pipe
        seq![Instrument::Piccolo, Instrument::Flute, Instrument::Recorder, Instrument::PanFlute, Instrument::BlownBottle, Instrument::Shakuhachi, Instrument::Whistle, Instrument::Ocarina]
    } else if family == 10 {
        // synth lead
        seq![Instrument::Lead1Square, Instrument::Lead2Sawtooth, Instrument::Lead3Calliope, Instrument::Lead4Chiff, Instrument::Lead5Charang, Instrument::Lead6Voice, Instrument::Lead7Fifths, Instrument::Lead8BassLead]
    } else if family == 11 {
        // synth pad
        seq![Instrument::Pad1NewAge, Instrument::Pad2Warm, Instrument::Pad3Polysynth, Instrument::Pad4Choir, Instrument::Pad5Bowed, Instrument::Pad6Metallic, Instrument::Pad7Halo, Instrument::Pad8Sweep]
    } else if family == 12 {
        // synth effects
        seq![Instrument::Fx1Rain, Instrument::Fx2Soundtrack, Instrument::Fx3Crystal, Instrument::Fx4Atmosphere, Instrument::Fx5Brightness, Instrument::Fx6Goblins, Instrument::Fx7Echoes, Instrument::Fx8SciFi]
    } else if family == 13 {
        // ethnic
        seq![Instrument::Sitar, Instrument::Banjo, Instrument::Shamisen, Instrument::Koto, Instrument::Kalimba, Instrument::BagPipe, Instrument::Fiddle, Instrument::Shanai]
    } else if family == 14 {
        // percussive
        seq![Instrument::TinkleBell, Instrument::Agogo, Instrument::SteelDrums, Instrument::Woodblock, Instrument::TaikoDrum, Instrument::MelodicTom, Instrument::SynthDrum, Instrument::ReverseCymbal]
    } else if family == 15 {
        // sound effects
        seq![Instrument::GuitarFretNoise, Instrument::BreathNoise, Instrument::Seashore, Instrument::BirdTweet, Instrument::TelephoneRing, Instrument::Helicopter, Instrument::Applause, Instrument::Gunshot]
    } else {
        seq![]
    }
}

/// The General MIDI percussion map, in order of the keys it is laid out on,
/// from the acoustic bass drum up to the open triangle.
pub open spec fn percussion_map() -> Seq<Percussion> {
    seq![
        Percussion::AcousticBassDrum,
        Percussion::BassDrum1,
        Percussion::SideStick,
        Percussion::AcousticSnare,
        Percussion::HandClap,
        Percussion::ElectricSnare,
        Percussion::LowFloorTom,
        Percussion::ClosedHiHat,
        Percussion::HighFloorTom,
        Percussion::PedalHiHat,
        Percussion::LowTom,
        Percussion::OpenHiHat,
        Percussion::LowMidTom,
        Percussion::HiMidTom,
        Percussion::CrashCymbal1,
        Percussion::HighTom,
        Percussion::RideCymbal1,
        Percussion::ChineseCymbal,
        Percussion::RideBell,
        Percussion::Tambourine,
        Percussion::SplashCymbal,
        Percussion::Cowbell,
        Percussion::CrashCymbal2,
        Percussion::Vibraslap,
        Percussion::RideCymbal2,
        Percussion::HiBongo,
        Percussion::LowBongo,
        Percussion::MuteHiConga,
        Percussion::OpenHiConga,
        Percussion::LowConga,
        Percussion::HighTimbale,
        Percussion::LowTimbale,
        Percussion::HighAgogo,
        Percussion::LowAgogo,
        Percussion::Cabasa,
        Percussion::Mracas,
        Percussion::ShortWhistle,
        Percussion::LongWhistle,
        Percussion::ShortGuiro,
        Percussion::LongGuiro,
        Percussion::Claves,
        Percussion::HiWoodBlock,
        Percussion::LowWoodBlock,
        Percussion::MuteCuica,
        Percussion::OpenCuica,
        Percussion::MuteTriangle,
        Percussion::OpenTriangle,
    ]
}

/// Program numbers are laid out family by family: the `index`'th instrument
/// of the `family`'th General MIDI family has program number
/// `8 * family + index`, and that number converts back to it.
pub proof fn lemma_instrument_families(family: int, index: int)
    requires
        0 <= family < 16,
        0 <= index < 8,
    ensures
        instrument_family(family).len() == 8,
        instrument_family(family)[index].spec_program_number() == 8 * family + index,
        Instrument::with_program_number((8 * family + index) as u8) == instrument_family(family)[index],
{
    if family == 0 {
        lemma_family_0(index);
    } else if family == 1 {
        lemma_family_1(index);
    } else if family == 2 {
        lemma_family_2(index);
    } else if family == 3 {
        lemma_family_3(index);
    } else if family == 4 {
        lemma_family_4(index);
    } else if family == 5 {
        lemma_family_5(index);
    } else if family == 6 {
        lemma_family_6(index);
    } else if family == 7 {
        lemma_family_7(index);
    } else if family == 8 {
        lemma_family_8(index);
    } else if family == 9 {
        lemma_family_9(index);
    } else if family == 10 {
        lemma_family_10(index);
    } else if family == 11 {
        lemma_family_11(index);
    } else if family == 12 {
        lemma_family_12(index);
    } else if family == 13 {
        lemma_family_13(index);
    } else if family == 14 {
        lemma_family_14(index);
    } else if family == 15 {
        lemma_family_15(index);
    } else {
    }
}

proof fn lemma_family_0(index: int)
    requires
        0 <= index < 8,
    ensures
        instrument_family(0).len() == 8,
        instrument_family(0)[index].spec_program_number() == 0 + index,
        Instrument::with_program_number((0 + index) as u8) == instrument_family(0)[index],
{
    let f = instrument_family(0);
    assert(f[0] == Instrument::AcousticGrandPiano);
    assert(f[1] == Instrument::BrightAcousticPiano);
    assert(f[2] == Instrument::ElectricGrandPiano);
    assert(f[3] == Instrument::HonkyTonkPiano);
    assert(f[4] == Instrument::ElectricPiano1);
    assert(f[5] == Instrument::ElectricPiano2);
    assert(f[6] == Instrument::Harpsichord);
    assert(f[7] == Instrument::Clavi);
}

proof fn lemma_family_1(index: int)
    requires
        0 <= index < 8,
    ensures
        instrument_family(1).len() == 8,
        instrument_family(1)[index].spec_program_number() == 8 + index,
        Instrument::with_program_number((8 + index) as u8) == instrument_family(1)[index],
{
    let f = instrument_family(1);
    assert(f[0] == Instrument::Celesta);
    assert(f[1] == Instrument::Glockenspiel);
    assert(f[2] == Instrument::MusicBox);
    assert(f[3] == Instrument::Vibraphone);
    assert(f[4] == Instrument::Marimba);
    assert(f[5] == Instrument::Xylophone);
    assert(f[6] == Instrument::TubularBells);
    assert(f[7] == Instrument::Dulcimer);
}

proof fn lemma_family_2(index: int)
    requires
        0 <= index < 8,
    ensures
        instrument_family(2).len() == 8,
        instrument_family(2)[index].spec_program_number() == 16 + index,
        Instrument::with_program_number((16 + index) as u8) == instrument_family(2)[index],
{
    let f = instrument_family(2);
    assert(f[0] == Instrument::DrawbarOrgan);
    assert(f[1] == Instrument::PercussiveOrgan);
    assert(f[2] == Instrument::RockOrgan);
    assert(f[3] == Instrument::ChurchOrgan);
    assert(f[4] == Instrument::ReedOrgan);
    assert(f[5] == Instrument::Accordion);
    assert(f[6] == Instrument::Harmonica);
    assert(f[7] == Instrument::TangoAccordion);
}

proof fn lemma_family_3(index: int)
    requires
        0 <= index < 8,
    ensures
        instrument_family(3).len() == 8,
        instrument_family(3)[index].spec_program_number() == 24 + index,
        Instrument::with_program_number((24 + index) as u8) == instrument_family(3)[index],
{
    let f = instrument_family(3);
    assert(f[0] == Instrument::AcousticGuitarNylon);
    assert(f[1] == Instrument::AcousticGuitarSteel);
    assert(f[2] == Instrument::ElectricGuitarJazz);
    assert(f[3] == Instrument::ElectricGuitarClean);
    assert(f[4] == Instrument::ElectricGuitarMuted);
    assert(f[5] == Instrument::OverdrivenGuitar);
    assert(f[6] == Instrument::DistortionGuitar);
    assert(f[7] == Instrument::GuitarHarmonics);
}

proof fn lemma_family_4(index: int)
    requires
        0 <= index < 8,
    ensures
        instrument_family(4).len() == 8,
        instrument_family(4)[index].spec_program_number() == 32 + index,
        Instrument::with_program_number((32 + index) as u8) == instrument_family(4)[index],
{
    let f = instrument_family(4);
    assert(f[0] == Instrument::AcousticBass);
    assert(f[1] == Instrument::ElectricBassFinger);
    assert(f[2] == Instrument::ElectricBassPick);
    assert(f[3] == Instrument::FretlessBass);
    assert(f[4] == Instrument::SlapBass1);
    assert(f[5] == Instrument::SlapBass2);
    assert(f[6] == Instrument::SynthBass1);
    assert(f[7] == Instrument::SynthBass2);
}

proof fn lemma_family_5(index: int)
    requires
        0 <= index < 8,
    ensures
        instrument_family(5).len() == 8,
        instrument_family(5)[index].spec_program_number() == 40 + index,
        Instrument::with_program_number((40 + index) as u8) == instrument_family(5)[index],
{
    let f = instrument_family(5);
    assert(f[0] == Instrument::Violin);
    assert(f[1] == Instrument::Viola);
    assert(f[2] == Instrument::Cello);
    assert(f[3] == Instrument::Contrabass);
    assert(f[4] == Instrument::TremoloStrings);
    assert(f[5] == Instrument::PizzicatoStrings);
    assert(f[6] == Instrument::OrchestralHarp);
    assert(f[7] == Instrument::Timpani);
}

proof fn lemma_family_6(index: int)
    requires
        0 <= index < 8,
    ensures
        instrument_family(6).len() == 8,
        instrument_family(6)[index].spec_program_number() == 48 + index,
        Instrument::with_program_number((48 + index) as u8) == instrument_family(6)[index],
{
    let f = instrument_family(6);
    assert(f[0] == Instrument::StringEnsemble1);
    assert(f[1] == Instrument::StringEnsemble2);
    assert(f[2] == Instrument::SynthStrings1);
    assert(f[3] == Instrument::SynthStrings2);
    assert(f[4] == Instrument::ChoirAahs);
    assert(f[5] == Instrument::VoiceOohs);
    assert(f[6] == Instrument::SynthVoice);
    assert(f[7] == Instrument::OrchestraHit);
}

proof fn lemma_family_7(index: int)
    requires
        0 <= index < 8,
    ensures
        instrument_family(7).len() == 8,
        instrument_family(7)[index].spec_program_number() == 56 + index,
        Instrument::with_program_number((56 + index) as u8) == instrument_family(7)[index],
{
    let f = instrument_family(7);
    assert(f[0] == Instrument::Trumpet);
    assert(f[1] == Instrument::Trombone);
    assert(f[2] == Instrument::Tuba);
    assert(f[3] == Instrument::MutedTrumpet);
    assert(f[4] == Instrument::FrenchHorn);
    assert(f[5] == Instrument::BrassSection);
    assert(f[6] == Instrument::SynthBrass1);
    assert(f[7] == Instrument::SynthBrass2);
}

proof fn lemma_family_8(index: int)
    requires
        0 <= index < 8,
    ensures
        instrument_family(8).len() == 8,
        instrument_family(8)[index].spec_program_number() == 64 + index,
        Instrument::with_program_number((64 + index) as u8) == instrument_family(8)[index],
{
    let f = instrument_family(8);
    assert(f[0] == Instrument::SopranoSax);
    assert(f[1] == Instrument::AltoSax);
    assert(f[2] == Instrument::TenorSax);
    assert(f[3] == Instrument::BaritoneSax);
    assert(f[4] == Instrument::Oboe);
    assert(f[5] == Instrument::EnglishHorn);
    assert(f[6] == Instrument::Bassoon);
    assert(f[7] == Instrument::Clarinet);
}

proof fn lemma_family_9(index: int)
    requires
        0 <= index < 8,
    ensures
        instrument_family(9).len() == 8,
        instrument_family(9)[index].spec_program_number() == 72 + index,
        Instrument::with_program_number((72 + index) as u8) == instrument_family(9)[index],
{
    let f = instrument_family(9);
    assert(f[0] == Instrument::Piccolo);
    assert(f[1] == Instrument::Flute);
    assert(f[2] == Instrument::Recorder);
    assert(f[3] == Instrument::PanFlute);
    assert(f[4] == Instrument::BlownBottle);
    assert(f[5] == Instrument::Shakuhachi);
    assert(f[6] == Instrument::Whistle);
    assert(f[7] == Instrument::Ocarina);
}

proof fn lemma_family_10(index: int)
    requires
        0 <= index < 8,
    ensures
        instrument_family(10).len() == 8,
        instrument_family(10)[index].spec_program_number() == 80 + index,
        Instrument::with_program_number((80 + index) as u8) == instrument_family(10)[index],
{
    let f = instrument_family(10);
    assert(f[0] == Instrument::Lead1Square);
    assert(f[1] == Instrument::Lead2Sawtooth);
    assert(f[2] == Instrument::Lead3Calliope);
    assert(f[3] == Instrument::Lead4Chiff);
    assert(f[4] == Instrument::Lead5Charang);
    assert(f[5] == Instrument::Lead6Voice);
    assert(f[6] == Instrument::Lead7Fifths);
    assert(f[7] == Instrument::Lead8BassLead);
}

proof fn lemma_family_11(index: int)
    requires
        0 <= index < 8,
    ensures
        instrument_family(11).len() == 8,
        instrument_family(11)[index].spec_program_number() == 88 + index,
        Instrument::with_program_number((88 + index) as u8) == instrument_family(11)[index],
{
    let f = instrument_family(11);
    assert(f[0] == Instrument::Pad1NewAge);
    assert(f[1] == Instrument::Pad2Warm);
    assert(f[2] == Instrument::Pad3Polysynth);
    assert(f[3] == Instrument::Pad4Choir);
    assert(f[4] == Instrument::Pad5Bowed);
    assert(f[5] == Instrument::Pad6Metallic);
    assert(f[6] == Instrument::Pad7Halo);
    assert(f[7] == Instrument::Pad8Sweep);
}

proof fn lemma_family_12(index: int)
    requires
        0 <= index < 8,
    ensures
        instrument_family(12).len() == 8,
        instrument_family(12)[index].spec_program_number() == 96 + index,
        Instrument::with_program_number((96 + index) as u8) == instrument_family(12)[index],
{
    let f = instrument_family(12);
    assert(f[0] == Instrument::Fx1Rain);
    assert(f[1] == Instrument::Fx2Soundtrack);
    assert(f[2] == Instrument::Fx3Crystal);
    assert(f[3] == Instrument::Fx4Atmosphere);
    assert(f[4] == Instrument::Fx5Brightness);
    assert(f[5] == Instrument::Fx6Goblins);
    assert(f[6] == Instrument::Fx7Echoes);
    assert(f[7] == Instrument::Fx8SciFi);
}

proof fn lemma_family_13(index: int)
    requires
        0 <= index < 8,
    ensures
        instrument_family(13).len() == 8,
        instrument_family(13)[index].spec_program_number() == 104 + index,
        Instrument::with_program_number((104 + index) as u8) == instrument_family(13)[index],
{
    let f = instrument_family(13);
    assert(f[0] == Instrument::Sitar);
    assert(f[1] == Instrument::Banjo);
    assert(f[2] == Instrument::Shamisen);
    assert(f[3] == Instrument::Koto);
    assert(f[4] == Instrument::Kalimba);
    assert(f[5] == Instrument::BagPipe);
    assert(f[6] == Instrument::Fiddle);
    assert(f[7] == Instrument::Shanai);
}

proof fn lemma_family_14(index: int)
    requires
        0 <= index < 8,
    ensures
        instrument_family(14).len() == 8,
        instrument_family(14)[index].spec_program_number() == 112 + index,
        Instrument::with_program_number((112 + index) as u8) == instrument_family(14)[index],
{
    let f = instrument_family(14);
    assert(f[0] == Instrument::TinkleBell);
    assert(f[1] == Instrument::Agogo);
    assert(f[2] == Instrument::SteelDrums);
    assert(f[3] == Instrument::Woodblock);
    assert(f[4] == Instrument::TaikoDrum);
    assert(f[5] == Instrument::MelodicTom);
    assert(f[6] == Instrument::SynthDrum);
    assert(f[7] == Instrument::ReverseCymbal);
}

proof fn lemma_family_15(index: int)
    requires
        0 <= index < 8,
    ensures
        instrument_family(15).len() == 8,
        instrument_family(15)[index].spec_program_number() == 120 + index,
        Instrument::with_program_number((120 + index) as u8) == instrument_family(15)[index],
{
    let f = instrument_family(15);
    assert(f[0] == Instrument::GuitarFretNoise);
    assert(f[1] == Instrument::BreathNoise);
    assert(f[2] == Instrument::Seashore);
    assert(f[3] == Instrument::BirdTweet);
    assert(f[4] == Instrument::TelephoneRing);
    assert(f[5] == Instrument::Helicopter);
    assert(f[6] == Instrument::Applause);
    assert(f[7] == Instrument::Gunshot);
}

/// Percussion keys are laid out in map order from 35: the `index`'th sound
/// of the General MIDI percussion map has note number `35 + index`, and that
/// number converts back to it.
pub proof fn lemma_percussion_keys(index: int)
    requires
        0 <= index < 47,
    ensures
        percussion_map().len() == 47,
        percussion_map()[index].spec_note_number() == MIN_PERCUSSION + index,
        Percussion::with_note_number((MIN_PERCUSSION + index) as u8) == percussion_map()[index],
{
    let m = percussion_map();
    assert(m[0] == Percussion::AcousticBassDrum);
    assert(m[1] == Percussion::BassDrum1);
    assert(m[2] == Percussion::SideStick);
    assert(m[3] == Percussion::AcousticSnare);
    assert(m[4] == Percussion::HandClap);
    assert(m[5] == Percussion::ElectricSnare);
    assert(m[6] == Percussion::LowFloorTom);
    assert(m[7] == Percussion::ClosedHiHat);
    assert(m[8] == Percussion::HighFloorTom);
    assert(m[9] == Percussion::PedalHiHat);
    assert(m[10] == Percussion::LowTom);
    assert(m[11] == Percussion::OpenHiHat);
    assert(m[12] == Percussion::LowMidTom);
    assert(m[13] == Percussion::HiMidTom);
    assert(m[14] == Percussion::CrashCymbal1);
    assert(m[15] == Percussion::HighTom);
    assert(m[16] == Percussion::RideCymbal1);
    assert(m[17] == Percussion::ChineseCymbal);
    assert(m[18] == Percussion::RideBell);
    assert(m[19] == Percussion::Tambourine);
    assert(m[20] == Percussion::SplashCymbal);
    assert(m[21] == Percussion::Cowbell);
    assert(m[22] == Percussion::CrashCymbal2);
    assert(m[23] == Percussion::Vibraslap);
    assert(m[24] == Percussion::RideCymbal2);
    assert(m[25] == Percussion::HiBongo);
    assert(m[26] == Percussion::LowBongo);
    assert(m[27] == Percussion::MuteHiConga);
    assert(m[28] == Percussion::OpenHiConga);
    assert(m[29] == Percussion::LowConga);
    assert(m[30] == Percussion::HighTimbale);
    assert(m[31] == Percussion::LowTimbale);
    assert(m[32] == Percussion::HighAgogo);
    assert(m[33] == Percussion::LowAgogo);
    assert(m[34] == Percussion::Cabasa);
    assert(m[35] == Percussion::Mracas);
    assert(m[36] == Percussion::ShortWhistle);
    assert(m[37] == Percussion::LongWhistle);
    assert(m[38] == Percussion::ShortGuiro);
    assert(m[39] == Percussion::LongGuiro);
    assert(m[40] == Percussion::Claves);
    assert(m[41] == Percussion::HiWoodBlock);
    assert(m[42] == Percussion::LowWoodBlock);
    assert(m[43] == Percussion::MuteCuica);
    assert(m[44] == Percussion::OpenCuica);
    assert(m[45] == Percussion::MuteTriangle);
    assert(m[46] == Percussion::OpenTriangle);
}

} // verus!
