//! Pitch classes and related calculations for 12-tone equal temperament.

use vstd::prelude::*;
use vstd::string::StringExecFns;

verus! {

/// A note letter. Equivalently, a note of the diatonic C major scale.
#[derive(Debug, Clone, Copy, PartialEq, Eq, Hash, Structural)]
pub enum Letter {
    C,
    D,
    E,
    F,
    G,
    A,
    B,
}

impl Letter {
    /// The mod-7 letter offset of this letter from C: its position in
    /// C, D, E, F, G, A, B.
    pub open spec fn spec_letter_offset(self) -> int {
        match self {
            Letter::C => 0,
            Letter::D => 1,
            Letter::E => 2,
            Letter::F => 3,
            Letter::G => 4,
            Letter::A => 5,
            Letter::B => 6,
        }
    }

    /// The semitone offset of the natural note of this letter from C natural,
    /// i.e. its position in the C major scale counted in semitones.
    pub open spec fn spec_semitone_offset(self) -> int {
        match self {
            Letter::C => 0,
            Letter::D => 2,
            Letter::E => 4,
            Letter::F => 5,
            Letter::G => 7,
            Letter::A => 9,
            Letter::B => 11,
        }
    }

    /// The letter whose offset from C is `offset` modulo 7.
    pub open spec fn with_offset(offset: int) -> Letter {
        let o = offset % 7;
        if o == 0 {
            Letter::C
        } else if o == 1 {
            Letter::D
        } else if o == 2 {
            Letter::E
        } else if o == 3 {
            Letter::F
        } else if o == 4 {
            Letter::G
        } else if o == 5 {
            Letter::A
        } else {
            Letter::B
        }
    }

    /// The letter `offset` letters (mod 7) above this one.
    pub open spec fn spec_offset_by(self, offset: int) -> Letter {
        Letter::with_offset(self.spec_letter_offset() + offset)
    }

    /// The mod-7 offset of this letter from `other`.
    pub open spec fn spec_offset_from(self, other: Letter) -> int {
        (self.spec_letter_offset() - other.spec_letter_offset()) % 7
    }

    /// Get the mod-7 offset of this note letter from C.
    ///
    /// This counts note letters, (or, equivalently, diatonic scale degrees,)
    /// rather than semitones. For instance, D is two semitones up from C, but
    /// only one letter/scale degree, so its letter offset is 1.
    ///
    /// For the semitone offset from C natural, use [`Letter::semitone_offset`].
    pub fn letter_offset(self) -> (r: u8)
        ensures
            r == self.spec_letter_offset(),
    {
        match self {
            Letter::C => 0,
            Letter::D => 1,
            Letter::E => 2,
            Letter::F => 3,
            Letter::G => 4,
            Letter::A => 5,
            Letter::B => 6,
        }
    }

    /// Get the mod-12 semitone offset of this note letter from C natural.
    ///
    /// This counts semitones between natural notes. For the letter/scale degree
    /// offset from C, use [`Letter::letter_offset`].
    pub fn semitone_offset(self) -> (r: u8)
        ensures
            r == self.spec_semitone_offset(),
    {
        match self {
            Letter::C => 0,
            Letter::D => 2,
            Letter::E => 4,
            Letter::F => 5,
            Letter::G => 7,
            Letter::A => 9,
            Letter::B => 11,
        }
    }

    /// Get the letter with the given offset from C mod 7.
    pub fn from_letter_offset(offset: u8) -> (r: Self)
        ensures
            r == Letter::with_offset(offset as int),
            r.spec_letter_offset() == offset % 7,
    {
        match offset % 7 {
            0 => Self::C,
            1 => Self::D,
            2 => Self::E,
            3 => Self::F,
            4 => Self::G,
            5 => Self::A,
            _ => Self::B,
        }
    }

    /// Get the letter that is the given offset, mod 7, from this one.
    pub fn offset_by(self, letter_offset: u8) -> (r: Self)
        ensures
            r == self.spec_offset_by(letter_offset as int),
            r.spec_letter_offset() == (self.spec_letter_offset() + letter_offset) % 7,
    {
        // Reducing the offset first keeps the sum within a byte.
        let r = Self::from_letter_offset(self.letter_offset() + letter_offset % 7);
        proof {
            vstd::arithmetic::div_mod::lemma_add_mod_noop_right(
                self.spec_letter_offset(),
                letter_offset as int,
                7,
            );
        }
        r
    }

    /// Get the mod-7 offset of this letter from another.
    pub fn offset_from(self, other: Letter) -> (r: u8)
        ensures
            r == self.spec_offset_from(other),
    {
        ((self.letter_offset() + 7) - other.letter_offset()) % 7
    }

    /// The name of this letter.
    pub fn to_string(&self) -> (r: String)
        ensures
            r@ == self.spec_name(),
    {
        match self {
            Letter::C => String::from_str("C"),
            Letter::D => String::from_str("D"),
            Letter::E => String::from_str("E"),
            Letter::F => String::from_str("F"),
            Letter::G => String::from_str("G"),
            Letter::A => String::from_str("A"),
            Letter::B => String::from_str("B"),
        }
    }

    /// The name of this letter, as written out.
    pub open spec fn spec_name(self) -> Seq<char> {
        match self {
            Letter::C => "C"@,
            Letter::D => "D"@,
            Letter::E => "E"@,
            Letter::F => "F"@,
            Letter::G => "G"@,
            Letter::A => "A"@,
            Letter::B => "B"@,
        }
    }
}

/// An accidental, adjusting the pitch of a base note by semitones.
#[derive(Debug, Clone, Copy, PartialEq, Eq, Hash, Structural)]
pub enum Accidental {
    /// Two semitones flat
    DoubleFlat,
    /// One semitone flat
    Flat,
    /// No change
    Natural,
    /// One semitone sharp
    Sharp,
    /// Two semitones sharp
    DoubleSharp,
}

impl Accidental {
    /// The semitone offset applied by this accidental.
    pub open spec fn spec_offset(self) -> int {
        match self {
            Accidental::DoubleFlat => -2,
            Accidental::Flat => -1,
            Accidental::Natural => 0,
            Accidental::Sharp => 1,
            Accidental::DoubleSharp => 2,
        }
    }

    /// The accidental that applies a semitone offset of `offset`, which must
    /// lie in -2..=2 for the result to mean anything.
    pub open spec fn with_offset(offset: int) -> Accidental
        recommends
            -2 <= offset <= 2,
    {
        if offset <= -2 {
            Accidental::DoubleFlat
        } else if offset == -1 {
            Accidental::Flat
        } else if offset == 0 {
            Accidental::Natural
        } else if offset == 1 {
            Accidental::Sharp
        } else {
            Accidental::DoubleSharp
        }
    }

    /// Get the semitone offset applied by this accidental.
    pub fn offset(self) -> (r: i8)
        ensures
            r == self.spec_offset(),
    {
        match self {
            Accidental::DoubleFlat => -2,
            Accidental::Flat => -1,
            Accidental::Natural => 0,
            Accidental::Sharp => 1,
            Accidental::DoubleSharp => 2,
        }
    }

    /// Get the accidental corresponding to the given semitone offset.
    ///
    /// Returns `None` if `offset` is outside the inclusive range -2 to 2.
    pub fn from_offset(offset: i8) -> (r: Option<Self>)
        ensures
            r is Some <==> -2 <= offset <= 2,
            r matches Some(a) ==> a.spec_offset() == offset && a == Accidental::with_offset(
                offset as int,
            ),
    {
        match offset {
            -2 => Some(Self::DoubleFlat),
            -1 => Some(Self::Flat),
            0 => Some(Self::Natural),
            1 => Some(Self::Sharp),
            2 => Some(Self::DoubleSharp),
            _ => None,
        }
    }

    /// The symbol of this accidental, as written out.
    pub open spec fn spec_name(self) -> Seq<char> {
        match self {
            Accidental::DoubleFlat => "𝄫"@,
            Accidental::Flat => "♭"@,
            Accidental::Natural => "♮"@,
            Accidental::Sharp => "♯"@,
            Accidental::DoubleSharp => "𝄪"@,
        }
    }

    /// The symbol of this accidental.
    pub fn to_string(&self) -> (r: String)
        ensures
            r@ == self.spec_name(),
    {
        match self {
            Accidental::DoubleFlat => String::from_str("𝄫"),
            Accidental::Flat => String::from_str("♭"),
            Accidental::Natural => String::from_str("♮"),
            Accidental::Sharp => String::from_str("♯"),
            Accidental::DoubleSharp => String::from_str("𝄪"),
        }
    }
}

impl Default for Accidental {
    fn default() -> (r: Self)
        ensures
            r == Accidental::Natural,
    {
        Self::Natural
    }
}

/// A pitch class in a 12-tone tuning system.
#[derive(Debug, Clone, Copy, PartialEq, Eq, Hash, Structural)]
pub struct PitchClass {
    pub letter: Letter,
    pub accidental: Accidental,
}

impl PitchClass {
    /// The mod-12 semitone offset of this pitch class from C natural, in
    /// `0..12`.
    pub open spec fn spec_semitone_offset(self) -> int {
        (self.letter.spec_semitone_offset() + self.accidental.spec_offset()) % 12
    }

    /// The mod-12 semitone offset of this pitch class from another, in
    /// `0..12`.
    pub open spec fn spec_semitone_offset_from(self, other: PitchClass) -> int {
        (self.spec_semitone_offset() - other.spec_semitone_offset()) % 12
    }

    pub fn new(letter: Letter, accidental: Accidental) -> (r: Self)
        ensures
            r == (PitchClass { letter, accidental }),
    {
        Self { letter, accidental }
    }

    /// Create a natural pitch class of the given note letter.
    pub fn natural(base: Letter) -> (r: Self)
        ensures
            r == (PitchClass { letter: base, accidental: Accidental::Natural }),
    {
        Self::new(base, Accidental::Natural)
    }

    /// Get the mod-12 semitone offset of this pitch class from C natural.
    pub fn semitone_offset(self) -> (r: u8)
        ensures
            r == self.spec_semitone_offset(),
            r < 12,
    {
        // Lifted by an octave so that flats below C stay non-negative.
        let lifted: i8 = (self.letter.semitone_offset() + 12) as i8 + self.accidental.offset();
        (lifted as u8) % 12
    }

    /// Get the mod-12 semitone offset of this pitch class from another.
    pub fn semitone_offset_from(self, other: PitchClass) -> (r: u8)
        ensures
            r == self.spec_semitone_offset_from(other),
            r < 12,
    {
        ((self.semitone_offset() + 12) - other.semitone_offset()) % 12
    }

    /// Is this pitch class enharmonically equivalent to another?
    pub fn enharmonic_eq(self, other: Self) -> (r: bool)
        ensures
            r == (self.spec_semitone_offset() == other.spec_semitone_offset()),
    {
        self.semitone_offset() == other.semitone_offset()
    }

    /// The written name of this pitch class: its letter, followed by its
    /// accidental unless that is natural.
    pub open spec fn spec_name(self) -> Seq<char> {
        if self.accidental == Accidental::Natural {
            self.letter.spec_name()
        } else {
            self.letter.spec_name() + self.accidental.spec_name()
        }
    }

    /// The written name of this pitch class, such as `F♯` or `B`.
    pub fn to_string(&self) -> (r: String)
        ensures
            r@ == self.spec_name(),
    {
        let mut s = self.letter.to_string();
        if self.accidental != Accidental::Natural {
            let acc = self.accidental.to_string();
            s.append(acc.as_str());
        }
        s
    }
}

/// Letters are determined by their offset from C.
pub proof fn lemma_letter_offset_injective(a: Letter, b: Letter)
    ensures
        0 <= a.spec_letter_offset() < 7,
        a.spec_letter_offset() == b.spec_letter_offset() ==> a == b,
        Letter::with_offset(a.spec_letter_offset()) == a,
{
}

/// The letter with a given offset has that offset, modulo 7.
pub proof fn lemma_with_offset(offset: int)
    ensures
        Letter::with_offset(offset).spec_letter_offset() == offset % 7,
{
}

/// Offsetting `other` by the offset of `letter` from it gives back `letter`.
pub proof fn lemma_offset_from_then_by(letter: Letter, other: Letter)
    ensures
        0 <= letter.spec_offset_from(other) < 7,
        other.spec_offset_by(letter.spec_offset_from(other)) == letter,
        other.spec_offset_by(letter.spec_offset_from(other)).spec_offset_from(other)
            == letter.spec_offset_from(other),
{
}

/// Offsetting a letter by `n` and measuring from the start gives `n` mod 7.
pub proof fn lemma_offset_by_then_from(letter: Letter, n: int)
    ensures
        letter.spec_offset_by(n).spec_offset_from(letter) == n % 7,
{
    lemma_with_offset(letter.spec_letter_offset() + n);
}

/// Accidentals are determined by their semitone offset, which lies in -2..=2.
pub proof fn lemma_accidental_offset_injective(a: Accidental, b: Accidental)
    ensures
        -2 <= a.spec_offset() <= 2,
        a.spec_offset() == b.spec_offset() ==> a == b,
        Accidental::with_offset(a.spec_offset()) == a,
{
}

/// Semitone offsets lie in 0..12, and two pitch classes are enharmonically equal exactly when one is zero
/// semitones from the other (and so in both directions).
pub proof fn lemma_enharmonic_equivalence(a: PitchClass, b: PitchClass)
    ensures
        0 <= a.spec_semitone_offset() < 12,
        0 <= a.spec_semitone_offset_from(b) < 12,
        (a.spec_semitone_offset() == b.spec_semitone_offset()) <==> a.spec_semitone_offset_from(b)
            == 0,
        a.spec_semitone_offset_from(b) == 0 <==> b.spec_semitone_offset_from(a) == 0,
{
}


/// A letter's name is the single character of that letter of the alphabet:
/// counting from A, the letter `letter_offset` places above C comes
/// `(letter_offset + 2) % 7` places after A. So distinct letters have
/// distinct names, and a pitch class's name begins with its letter's name,
/// followed by the accidental's symbol unless it is natural.
pub proof fn lemma_letter_names(letter: Letter, other: Letter, pitch: PitchClass)
    ensures
        letter.spec_name().len() == 1,
        letter.spec_name()[0] as int == 'A' as int + (letter.spec_letter_offset() + 2) % 7,
        letter.spec_name() == other.spec_name() ==> letter == other,
        pitch.spec_name().subrange(0, 1) == pitch.letter.spec_name(),
        pitch.accidental == Accidental::Natural ==> pitch.spec_name().len() == 1,
        pitch.accidental != Accidental::Natural ==> pitch.spec_name().subrange(
            1,
            pitch.spec_name().len() as int,
        ) == pitch.accidental.spec_name(),
{
    reveal_strlit("A");
    reveal_strlit("B");
    reveal_strlit("C");
    reveal_strlit("D");
    reveal_strlit("E");
    reveal_strlit("F");
    reveal_strlit("G");
    let name = pitch.spec_name();
    let letter_name = pitch.letter.spec_name();
    assert(letter_name.len() == 1);
    if pitch.accidental != Accidental::Natural {
        assert(name.subrange(0, 1) =~= letter_name);
        assert(name.subrange(1, name.len() as int) =~= pitch.accidental.spec_name());
    } else {
        assert(name.subrange(0, 1) =~= letter_name);
    }
    if letter.spec_name() == other.spec_name() {
        assert(letter.spec_name()[0] == other.spec_name()[0]);
    }
}


/// The accidentals from double flat to double sharp, in order.
pub open spec fn accidental_ladder() -> Seq<Accidental> {
    seq![
        Accidental::DoubleFlat,
        Accidental::Flat,
        Accidental::Natural,
        Accidental::Sharp,
        Accidental::DoubleSharp,
    ]
}

/// Each step up the ladder of accidentals raises the pitch by one semitone,
/// with natural raising it by none.
pub proof fn lemma_accidental_ladder(index: int)
    requires
        0 <= index < 5,
    ensures
        accidental_ladder()[index].spec_offset() == index - 2,
        Accidental::with_offset(index - 2) == accidental_ladder()[index],
{
    let l = accidental_ladder();
    assert(l[0] == Accidental::DoubleFlat);
    assert(l[1] == Accidental::Flat);
    assert(l[2] == Accidental::Natural);
    assert(l[3] == Accidental::Sharp);
    assert(l[4] == Accidental::DoubleSharp);
}

} // verus!
