use fermata::pitch::{Accidental, Letter, PitchClass};

const LETTERS: [Letter; 7] =
    [Letter::C, Letter::D, Letter::E, Letter::F, Letter::G, Letter::A, Letter::B];

const ACCIDENTALS: [Accidental; 5] = [
    Accidental::DoubleFlat,
    Accidental::Flat,
    Accidental::Natural,
    Accidental::Sharp,
    Accidental::DoubleSharp,
];

#[test]
fn letter_offsets() {
    for (i, letter) in LETTERS.into_iter().enumerate() {
        assert_eq!(letter.letter_offset() as usize, i);
        assert_eq!(Letter::from_letter_offset(i as u8), letter);
        assert_eq!(Letter::from_letter_offset(i as u8 + 7), letter);
    }
    let semitones: Vec<u8> = LETTERS.iter().map(|l| l.semitone_offset()).collect();
    assert_eq!(semitones, vec![0, 2, 4, 5, 7, 9, 11]);
    assert_eq!(Letter::from_letter_offset(255), Letter::F);
}

#[test]
fn letter_offset_by_and_from() {
    assert_eq!(Letter::B.offset_by(1), Letter::C);
    assert_eq!(Letter::D.offset_by(2), Letter::F);
    assert_eq!(Letter::B.offset_by(255), Letter::E);
    assert_eq!(Letter::G.offset_by(3), Letter::C);
    assert_eq!(Letter::C.offset_from(Letter::D), 6);
    assert_eq!(Letter::D.offset_from(Letter::C), 1);
    for a in LETTERS {
        for b in LETTERS {
            assert_eq!(b.offset_by(a.offset_from(b)), a);
        }
        for n in 0..=255u8 {
            assert_eq!(a.offset_by(n).offset_from(a), n % 7);
        }
    }
}

#[test]
fn accidental_offsets() {
    for (i, acc) in ACCIDENTALS.into_iter().enumerate() {
        assert_eq!(acc.offset(), i as i8 - 2);
        assert_eq!(Accidental::from_offset(acc.offset()), Some(acc));
    }
    assert_eq!(Accidental::from_offset(3), None);
    assert_eq!(Accidental::from_offset(-3), None);
    assert_eq!(Accidental::from_offset(i8::MIN), None);
    assert_eq!(Accidental::default(), Accidental::Natural);
}

#[test]
fn pitch_class_semitones() {
    let c_flat = PitchClass::new(Letter::C, Accidental::Flat);
    assert_eq!(c_flat.semitone_offset(), 11);
    let b_sharp = PitchClass::new(Letter::B, Accidental::Sharp);
    assert_eq!(b_sharp.semitone_offset(), 0);
    let c_double_flat = PitchClass::new(Letter::C, Accidental::DoubleFlat);
    assert_eq!(c_double_flat.semitone_offset(), 10);
    let f_sharp = PitchClass::new(Letter::F, Accidental::Sharp);
    let g_flat = PitchClass::new(Letter::G, Accidental::Flat);
    assert!(f_sharp.enharmonic_eq(g_flat));
    assert!(!f_sharp.enharmonic_eq(PitchClass::natural(Letter::G)));
    assert!(b_sharp.enharmonic_eq(PitchClass::natural(Letter::C)));
    assert_eq!(f_sharp.semitone_offset_from(PitchClass::natural(Letter::C)), 6);
    assert_eq!(PitchClass::natural(Letter::C).semitone_offset_from(f_sharp), 6);
    assert_eq!(PitchClass::natural(Letter::D).semitone_offset_from(c_flat), 3);
    for l in LETTERS {
        for a in ACCIDENTALS {
            let p = PitchClass::new(l, a);
            assert!(p.semitone_offset() < 12);
            assert!(p.enharmonic_eq(p));
            assert_eq!(p.semitone_offset_from(p), 0);
        }
    }
}

#[test]
fn names() {
    assert_eq!(Letter::E.to_string(), "E");
    assert_eq!(Accidental::Sharp.to_string(), "♯");
    assert_eq!(Accidental::DoubleFlat.to_string(), "𝄫");
    assert_eq!(PitchClass::natural(Letter::G).to_string(), "G");
    assert_eq!(PitchClass::new(Letter::F, Accidental::Sharp).to_string(), "F♯");
    assert_eq!(PitchClass::new(Letter::B, Accidental::Flat).to_string(), "B♭");
}
