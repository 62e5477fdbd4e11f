//! Definitions and types for diatonic scales and their modes.

use super::{Mode, ScaleDegree, ScaleKind};
use crate::pitch::Letter;
use vstd::prelude::*;

verus! {

/// A diatonic scale.
///
/// As a [`ScaleKind`], this type represents the diatonic natural major scale,
/// with the following letter and semitone offsets:
///
/// | Letter | Semitone | Example (C) |
/// |--------|----------|-------------|
/// | 0      | 0        | C           |
/// | 1      | 2        | D           |
/// | 2      | 4        | E           |
/// | 3      | 5        | F           |
/// | 4      | 7        | G           |
/// | 5      | 9        | A           |
/// | 6      | 11       | B           |
///
/// This is equivalent to [`IonianMode`].
#[derive(Debug, Clone, Copy, PartialEq, Eq)]
pub struct Diatonic;

/// The degree with the given letter and semitone offsets.
pub open spec fn degree(letter: u8, semitone: u8) -> ScaleDegree {
    ScaleDegree { letter, semitone }
}

impl ScaleKind for Diatonic {
    open spec fn spec_degrees() -> Seq<ScaleDegree> {
        seq![
            degree(0, 0),
            degree(1, 2),
            degree(2, 4),
            degree(3, 5),
            degree(4, 7),
            degree(5, 9),
            degree(6, 11),
        ]
    }

    proof fn lemma_has_degrees() {
    }

    fn num_degrees() -> (n: usize) {
        7
    }

    fn scale_degree(n: usize) -> (d: ScaleDegree) {
        match n % 7 {
            0 => ScaleDegree::new(0, 0),
            1 => ScaleDegree::new(1, 2),
            2 => ScaleDegree::new(2, 4),
            3 => ScaleDegree::new(3, 5),
            4 => ScaleDegree::new(4, 7),
            5 => ScaleDegree::new(5, 9),
            _ => ScaleDegree::new(6, 11),
        }
    }

    fn scale_degrees() -> (v: Vec<ScaleDegree>) {
        let v = vec![
            ScaleDegree::new(0, 0),
            ScaleDegree::new(1, 2),
            ScaleDegree::new(2, 4),
            ScaleDegree::new(3, 5),
            ScaleDegree::new(4, 7),
            ScaleDegree::new(5, 9),
            ScaleDegree::new(6, 11),
        ];
        assert(v@ =~= Self::spec_degrees());
        v
    }
}

/// The Ionian (natural major) diatonic mode.
///
/// | Letter offset | Semitone offset | Example (C) |
/// |---------------|-----------------|-------------|
/// | 0             | 0               | C           |
/// | 1             | 2               | D           |
/// | 2             | 4               | E           |
/// | 3             | 5               | F           |
/// | 4             | 7               | G           |
/// | 5             | 9               | A           |
/// | 6             | 11              | B           |
pub type IonianMode = Mode<0, Diatonic>;

/// The Dorian diatonic mode.
///
/// The Dorian mode has the same notes as the natural major scale, starting from
/// the 2nd scale degree. Equivalently, it is the natural minor scale with a
/// raised 6th scale degree.
///
/// | Letter offset | Semitone offset | Example (C) |
/// |---------------|-----------------|-------------|
/// | 0             | 0               | C           |
/// | 1             | 2               | D           |
/// | 2             | 3               | E♭          |
/// | 3             | 5               | F           |
/// | 4             | 7               | G           |
/// | 5             | 9               | A           |
/// | 6             | 10              | B♭          |
pub type DorianMode = Mode<1, Diatonic>;

/// The Phrygian diatonic mode.
///
/// The Phrygian mode has the same notes as the natural major scale, starting
/// from the 3rd scale degree. Equivalently, it is the natural minor scale with
/// a lowered 2nd scale degree.
///
/// | Letter offset | Semitone offset | Example (C) |
/// |---------------|-----------------|-------------|
/// | 0             | 0               | C           |
/// | 1             | 1               | D♭          |
/// | 2             | 3               | E♭          |
/// | 3             | 5               | F           |
/// | 4             | 7               | G           |
/// | 5             | 8               | A♭          |
/// | 6             | 10              | B♭          |
pub type PhrygianMode = Mode<2, Diatonic>;

/// The Lydian diatonic mode.
///
/// The Lydian mode has the same notes as the natural major scale, starting from
/// the 4th scale degree. Equivalently, it is the natural major scale with a
/// raised 4th scale degree.
///
/// | Letter offset | Semitone offset | Example (C) |
/// |---------------|-----------------|-------------|
/// | 0             | 0               | C           |
/// | 1             | 2               | D           |
/// | 2             | 4               | E           |
/// | 3             | 6               | F♯          |
/// | 4             | 7               | G           |
/// | 5             | 9               | A           |
/// | 6             | 11              | B           |
pub type LydianMode = Mode<3, Diatonic>;

/// The Mixolydian diatonic mode.
///
/// The Mixolydian mode has the same notes as the natural major scale, starting
/// from the 5th scale degree. Equivalently, it is the natural major scale with
/// a lowered 7th scale degree.
///
/// | Letter offset | Semitone offset | Example (C) |
/// |---------------|-----------------|-------------|
/// | 0             | 0               | C           |
/// | 1             | 2               | D           |
/// | 2             | 4               | E           |
/// | 3             | 5               | F           |
/// | 4             | 7               | G           |
/// | 5             | 9               | A           |
/// | 6             | 10              | B♭          |
pub type MixolydianMode = Mode<4, Diatonic>;

/// The Aeolian (natural minor) diatonic mode.
///
/// The Aeolian mode has the same notes as the natural major scale, starting
/// from the 6th scale degree. Equivalently, it is the natural minor scale, or
/// the natural major scale with lowered 3rd, 6th, and 7th scale degrees.
///
/// | Letter offset | Semitone offset | Example (C) |
/// |---------------|-----------------|-------------|
/// | 0             | 0               | C           |
/// | 1             | 2               | D           |
/// | 2             | 3               | E♭          |
/// | 3             | 5               | F           |
/// | 4             | 7               | G           |
/// | 5             | 8               | A♭          |
/// | 6             | 10              | B♭          |
pub type AeolianMode = Mode<5, Diatonic>;

/// The Locrian diatonic mode.
///
/// The Locrian mode has the same notes as the natural major scale, starting
/// from the 7th scale degree. Equivalently, it is the natural minor scale with
/// a lowered 2nd scale degree and a lowered 5th scale degree.
///
/// | Letter offset | Semitone offset | Example (C) |
/// |---------------|-----------------|-------------|
/// | 0             | 0               | C           |
/// | 1             | 1               | D♭          |
/// | 2             | 3               | E♭          |
/// | 3             | 5               | F           |
/// | 4             | 6               | G♭          |
/// | 5             | 8               | A♭          |
/// | 6             | 10              | B♭          |
pub type LocrianMode = Mode<6, Diatonic>;

/// The diatonic natural major mode.
///
/// As a [`ScaleKind`], this is equivalent to both [`IonianMode`] and [`Diatonic`].
pub type NaturalMajor = IonianMode;

/// The diatonic natural minor mode.
///
/// As a [`ScaleKind`], this is equivalent to [`AeolianMode`].
pub type NaturalMinor = AeolianMode;

/// The degrees with semitone offsets `s`, at letter offsets 0 to 6.
pub open spec fn degrees_with_semitones(s: Seq<u8>) -> Seq<ScaleDegree> {
    Seq::new(7, |i: int| degree(i as u8, s[i]))
}

/// The entries of the diatonic scale's degrees.
proof fn lemma_diatonic_entries()
    ensures
        Diatonic::spec_degrees().len() == 7,
        Diatonic::spec_degrees()[0] == degree(0, 0),
        Diatonic::spec_degrees()[1] == degree(1, 2),
        Diatonic::spec_degrees()[2] == degree(2, 4),
        Diatonic::spec_degrees()[3] == degree(3, 5),
        Diatonic::spec_degrees()[4] == degree(4, 7),
        Diatonic::spec_degrees()[5] == degree(5, 9),
        Diatonic::spec_degrees()[6] == degree(6, 11),
{
}

/// The Ionian mode, and so the natural major scale, has the degrees of the
/// diatonic scale.
pub proof fn lemma_ionian_is_diatonic()
    ensures
        IonianMode::spec_degrees() == Diatonic::spec_degrees(),
        NaturalMajor::spec_degrees() == Diatonic::spec_degrees(),
{
    assert(IonianMode::spec_degrees() =~= Diatonic::spec_degrees());
}

/// The Dorian mode has the letter and semitone offsets of its table.
pub proof fn lemma_dorian_degrees()
    ensures
        DorianMode::spec_degrees() == degrees_with_semitones(seq![0, 2, 3, 5, 7, 9, 10]),
{
    lemma_diatonic_entries();
    assert(DorianMode::spec_degrees() =~= degrees_with_semitones(seq![0, 2, 3, 5, 7, 9, 10]));
}

/// The Phrygian mode has the letter and semitone offsets of its table.
pub proof fn lemma_phrygian_degrees()
    ensures
        PhrygianMode::spec_degrees() == degrees_with_semitones(seq![0, 1, 3, 5, 7, 8, 10]),
{
    lemma_diatonic_entries();
    assert(PhrygianMode::spec_degrees() =~= degrees_with_semitones(seq![0, 1, 3, 5, 7, 8, 10]));
}

/// The Lydian mode has the letter and semitone offsets of its table.
pub proof fn lemma_lydian_degrees()
    ensures
        LydianMode::spec_degrees() == degrees_with_semitones(seq![0, 2, 4, 6, 7, 9, 11]),
{
    lemma_diatonic_entries();
    assert(LydianMode::spec_degrees() =~= degrees_with_semitones(seq![0, 2, 4, 6, 7, 9, 11]));
}

/// The Mixolydian mode has the letter and semitone offsets of its table.
pub proof fn lemma_mixolydian_degrees()
    ensures
        MixolydianMode::spec_degrees() == degrees_with_semitones(seq![0, 2, 4, 5, 7, 9, 10]),
{
    lemma_diatonic_entries();
    assert(MixolydianMode::spec_degrees() =~= degrees_with_semitones(seq![0, 2, 4, 5, 7, 9, 10]));
}

/// The Aeolian mode has the letter and semitone offsets of its table.
pub proof fn lemma_aeolian_degrees()
    ensures
        AeolianMode::spec_degrees() == degrees_with_semitones(seq![0, 2, 3, 5, 7, 8, 10]),
        NaturalMinor::spec_degrees() == AeolianMode::spec_degrees(),
{
    lemma_diatonic_entries();
    assert(AeolianMode::spec_degrees() =~= degrees_with_semitones(seq![0, 2, 3, 5, 7, 8, 10]));
}

/// The Locrian mode has the letter and semitone offsets of its table.
pub proof fn lemma_locrian_degrees()
    ensures
        LocrianMode::spec_degrees() == degrees_with_semitones(seq![0, 1, 3, 5, 6, 8, 10]),
{
    lemma_diatonic_entries();
    assert(LocrianMode::spec_degrees() =~= degrees_with_semitones(seq![0, 1, 3, 5, 6, 8, 10]));
}


/// The natural notes are the degrees of C major: the letter `index` letters
/// above C lies as many semitones above C as the `index`'th degree of the
/// diatonic scale.
pub proof fn lemma_naturals_are_c_major(index: int)
    requires
        0 <= index < 7,
    ensures
        Letter::with_offset(index).spec_semitone_offset() == Diatonic::spec_degrees()[index].semitone,
        Letter::with_offset(index).spec_letter_offset() == Diatonic::spec_degrees()[index].letter,
{
    lemma_diatonic_entries();
}

} // verus!
