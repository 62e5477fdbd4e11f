use fermata::pitch::Letter::{A, B, C, D, E, F, G};
use fermata::pitch::{Accidental, Letter, PitchClass};
use fermata::scale::diatonic::{
    AeolianMode, Diatonic, DorianMode, IonianMode, LocrianMode, LydianMode, MixolydianMode,
    NaturalMajor, NaturalMinor, PhrygianMode,
};
use fermata::scale::{Scale, ScaleDegree, ScaleKind};

fn natural(letter: Letter) -> PitchClass {
    PitchClass::new(letter, Accidental::Natural)
}

fn sharp(letter: Letter) -> PitchClass {
    PitchClass::new(letter, Accidental::Sharp)
}

fn flat(letter: Letter) -> PitchClass {
    PitchClass::new(letter, Accidental::Flat)
}

fn scale_eq<K: ScaleKind>(scale: Scale<K>, expected: impl IntoIterator<Item = PitchClass>) {
    let generated: Vec<_> = scale.scale_degrees();
    let expected: Vec<_> = expected.into_iter().collect();

    assert_eq!(generated, expected);
}

#[test]
fn ionian() {
    scale_eq(Scale::<IonianMode>::new(natural(C)), [
        natural(C),
        natural(D),
        natural(E),
        natural(F),
        natural(G),
        natural(A),
        natural(B),
    ]);

    scale_eq(Scale::<IonianMode>::new(natural(B)), [
        natural(B),
        sharp(C),
        sharp(D),
        natural(E),
        sharp(F),
        sharp(G),
        sharp(A),
    ]);
}

#[test]
fn aeolian() {
    scale_eq(Scale::<AeolianMode>::new(natural(C)), [
        natural(C),
        natural(D),
        flat(E),
        natural(F),
        natural(G),
        flat(A),
        flat(B),
    ]);

    scale_eq(Scale::<AeolianMode>::new(natural(G)), [
        natural(G),
        natural(A),
        flat(B),
        natural(C),
        natural(D),
        flat(E),
        natural(F),
    ]);
}

#[test]
fn dorian() {
    scale_eq(Scale::<DorianMode>::new(natural(C)), [
        natural(C),
        natural(D),
        flat(E),
        natural(F),
        natural(G),
        natural(A),
        flat(B),
    ]);

    scale_eq(Scale::<DorianMode>::new(natural(E)), [
        natural(E),
        sharp(F),
        natural(G),
        natural(A),
        natural(B),
        sharp(C),
        natural(D),
    ]);
}

#[test]
fn other_modes_from_c() {
    scale_eq(Scale::<PhrygianMode>::new(natural(C)), [
        natural(C), flat(D), flat(E), natural(F), natural(G), flat(A), flat(B),
    ]);
    scale_eq(Scale::<LydianMode>::new(natural(C)), [
        natural(C), natural(D), natural(E), sharp(F), natural(G), natural(A), natural(B),
    ]);
    scale_eq(Scale::<MixolydianMode>::new(natural(C)), [
        natural(C), natural(D), natural(E), natural(F), natural(G), natural(A), flat(B),
    ]);
    scale_eq(Scale::<LocrianMode>::new(natural(C)), [
        natural(C), flat(D), flat(E), natural(F), flat(G), flat(A), flat(B),
    ]);
}

#[test]
fn mode_degrees() {
    assert_eq!(IonianMode::scale_degrees(), Diatonic::scale_degrees());
    assert_eq!(NaturalMajor::scale_degrees(), Diatonic::scale_degrees());
    assert_eq!(NaturalMinor::scale_degrees(), AeolianMode::scale_degrees());
    let dorian: Vec<(u8, u8)> =
        DorianMode::scale_degrees().iter().map(|d| (d.letter, d.semitone)).collect();
    assert_eq!(dorian, vec![(0, 0), (1, 2), (2, 3), (3, 5), (4, 7), (5, 9), (6, 10)]);
    assert_eq!(DorianMode::num_degrees(), 7);
    for n in 0..20 {
        assert_eq!(DorianMode::scale_degree(n), DorianMode::scale_degrees()[n % 7]);
        assert_eq!(Diatonic::scale_degree(n), Diatonic::scale_degrees()[n % 7]);
    }
}

#[test]
fn scale_degree_of_scale() {
    let d_major = Scale::<NaturalMajor>::new(natural(D));
    assert_eq!(d_major.root(), natural(D));
    assert_eq!(d_major.scale_degree(2), sharp(F));
    assert_eq!(d_major.scale_degree(9), sharp(F));
    assert_eq!(d_major.try_scale_degree(6), Some(sharp(C)));
    let g_flat_major = Scale::<NaturalMajor>::new(flat(G));
    assert_eq!(g_flat_major.scale_degree(2), flat(B));
    assert_eq!(g_flat_major.scale_degree(3), flat(C));
}

#[test]
fn scale_degree_to_pitch_class() {
    let third = ScaleDegree::new(2, 4);
    assert_eq!(third.to_pitch_class(natural(C)), natural(E));
    assert_eq!(third.to_pitch_class(natural(D)), sharp(F));
    assert_eq!(third.to_pitch_class(flat(G)), flat(B));
    assert_eq!(third.try_to_pitch_class(natural(D)), Some(sharp(F)));
    assert_eq!(ScaleDegree::new(1, 4).to_pitch_class(natural(C)), PitchClass::new(D, Accidental::DoubleSharp));
    assert_eq!(ScaleDegree::new(1, 0).to_pitch_class(natural(C)), PitchClass::new(D, Accidental::DoubleFlat));
    // Not representable: letter offset 1 from C is D, 2 semitones up, which
    // no accidental brings to 5 semitones.
    assert_eq!(ScaleDegree::new(1, 5).try_to_pitch_class(natural(C)), None);
    assert_eq!(ScaleDegree::new(1, 200).try_to_pitch_class(natural(C)), None);
}

#[test]
fn scale_degree_offsets_law() {
    let roots = [natural(C), sharp(F), flat(B), natural(E), flat(A)];
    for root in roots {
        for letter in (0..14u8).chain(250..=255u8) {
            for semitone in 0..24u8 {
                let degree = ScaleDegree::new(letter, semitone);
                if let Some(pitch) = degree.try_to_pitch_class(root) {
                    assert_eq!(pitch, degree.to_pitch_class(root));
                    assert_eq!(pitch.letter.offset_from(root.letter), letter % 7);
                    assert_eq!(pitch.semitone_offset_from(root), semitone % 12);
                }
            }
        }
    }
}

#[test]
fn sharp_and_flat_roots() {
    scale_eq(Scale::<IonianMode>::new(sharp(F)), [
        sharp(F),
        sharp(G),
        sharp(A),
        natural(B),
        sharp(C),
        sharp(D),
        sharp(E),
    ]);
    scale_eq(Scale::<IonianMode>::new(sharp(C)), [
        sharp(C),
        sharp(D),
        sharp(E),
        sharp(F),
        sharp(G),
        sharp(A),
        sharp(B),
    ]);
    scale_eq(Scale::<IonianMode>::new(flat(C)), [
        flat(C),
        flat(D),
        flat(E),
        flat(F),
        flat(G),
        flat(A),
        flat(B),
    ]);
    scale_eq(Scale::<AeolianMode>::new(sharp(D)), [
        sharp(D),
        sharp(E),
        sharp(F),
        sharp(G),
        sharp(A),
        natural(B),
        sharp(C),
    ]);
    assert_eq!(ScaleDegree::new(0, 0).to_pitch_class(sharp(F)), sharp(F));
    assert_eq!(ScaleDegree::new(6, 11).to_pitch_class(sharp(F)), sharp(E));
    assert_eq!(ScaleDegree::new(0, 0).try_to_pitch_class(sharp(F)), Some(sharp(F)));
    assert_eq!(Scale::<Diatonic>::new(sharp(C)).try_scale_degree(0), Some(sharp(C)));
    assert_eq!(ScaleDegree::new(6, 11).to_pitch_class(flat(C)), flat(B));
    // A letter offset of any size is taken mod 7.
    assert_eq!(ScaleDegree::new(255, 4).to_pitch_class(natural(C)), flat(F));
}

#[test]
fn try_scale_degrees_with_unspellable_degrees() {
    let g_double_sharp = PitchClass::new(G, Accidental::DoubleSharp);
    let scale = Scale::<LydianMode>::new(g_double_sharp);
    let ds = |l| Some(PitchClass::new(l, Accidental::DoubleSharp));
    assert_eq!(scale.try_scale_degrees(), vec![ds(G), ds(A), ds(B), None, ds(D), ds(E), None]);
    for i in 0..21 {
        assert_eq!(scale.try_scale_degree(i), scale.try_scale_degrees()[i % 7]);
    }
    let c_major = Scale::<IonianMode>::new(natural(C));
    let all: Vec<Option<PitchClass>> = c_major.scale_degrees().into_iter().map(Some).collect();
    assert_eq!(c_major.try_scale_degrees(), all);
}
