//! Scales in 12-tone tuning systems.

pub mod diatonic;

use crate::pitch::{
    Accidental, Letter, PitchClass, lemma_accidental_offset_injective, lemma_offset_by_then_from,
};
use core::marker::PhantomData;
use vstd::prelude::*;

verus! {

/// Information defining a particular pitch class in a scale (scale degree).
///
/// This contains information about both the pitch and its preferred spelling:
///
/// - The `semitone` field contains the mod-12 semitone offset from the scale's
///   root pitch class.
/// - The `letter` field contains the mod-7 letter offset from the root pitch
///   class.
///
/// For instance, the third scale degree in a diatonic major scale has
/// `semitone` 4 and `letter` 2: in C major, the third scale degree is E; E♮
/// is 4 semitones above C♮, and E is 2 letters above C. In D major, the third
/// scale degree is F♯; F♯ is 4 semitones above D♮, and F is 2 letters above D.
///
/// Generally speaking, to derive a specific pitch class from a `ScaleDegree`
/// and the pitch class of the scale root:
///
/// - Offset the letter of the base note, without accidentals, by `letter` offset.
/// - Append whatever accidental is necessary to achieve the required `semitone`
///   offset.
///
/// NB: Not all combinations of semitone and letter offsets are representable
/// as pitch classes. Specifically, the semitone offset of the scale degree
/// must be within ±2 of the semitone offset of the letter computed from the
/// root letter and the letter offset. For instance,
/// `ScaleDegree { semitone: 5, letter: 1 }` is not representable in C major:
/// letter offset 1 gives D, whose semitone offset from C is 2, and a double
/// sharp is not sufficient to bring this to the required semitone offset of 5.
#[derive(Debug, Clone, Copy, PartialEq, Eq, Hash, Structural)]
pub struct ScaleDegree {
    pub letter: u8,
    pub semitone: u8,
}

impl ScaleDegree {
    /// The letter of this scale degree above a root: the root's letter,
    /// offset by `letter`.
    pub open spec fn spec_letter(self, base_pitch: PitchClass) -> Letter {
        base_pitch.letter.spec_offset_by(self.letter as int)
    }

    /// The semitones by which the natural note of this degree's letter must
    /// be raised to sit `semitone` semitones (mod 12) above the root: the
    /// difference mod 12, taken in -6..=5.
    pub open spec fn spec_accidental_offset(self, base_pitch: PitchClass) -> int {
        let natural = PitchClass { letter: self.spec_letter(base_pitch), accidental: Accidental::Natural };
        (self.semitone - natural.spec_semitone_offset_from(base_pitch) + 6) % 12 - 6
    }

    /// This degree above `base_pitch` can be spelled: an accidental of
    /// -2..=2 semitones on its letter reaches its semitone offset.
    pub open spec fn representable(self, base_pitch: PitchClass) -> bool {
        -2 <= self.spec_accidental_offset(base_pitch) <= 2
    }

    /// The pitch class of this degree above `base_pitch`: its letter, with
    /// the accidental that reaches its semitone offset.
    pub open spec fn spec_pitch_class(self, base_pitch: PitchClass) -> PitchClass {
        PitchClass {
            letter: self.spec_letter(base_pitch),
            accidental: Accidental::with_offset(self.spec_accidental_offset(base_pitch)),
        }
    }

    /// The letter of this degree above `base_pitch`, and the semitones by
    /// which its natural note must be raised to reach the degree.
    fn letter_and_offset(self, base_pitch: PitchClass) -> (r: (Letter, i8))
        ensures
            r.0 == self.spec_letter(base_pitch),
            r.1 == self.spec_accidental_offset(base_pitch),
    {
        let letter = base_pitch.letter.offset_by(self.letter);
        let letter_offset_from_base = PitchClass::natural(letter).semitone_offset_from(base_pitch);
        // Lifted so that the difference stays non-negative, then brought into -6..=5.
        let lifted = (self.semitone % 12) + 18 - letter_offset_from_base;
        proof {
            let s = self.semitone as int;
            let x = s - letter_offset_from_base + 6;
            vstd::arithmetic::div_mod::lemma_fundamental_div_mod(s, 12);
            assert(lifted == 12 * (1 - s / 12) + x);
            vstd::arithmetic::div_mod::lemma_mod_multiples_vanish(1 - s / 12, x, 12);
        }
        (letter, (lifted % 12) as i8 - 6)
    }

    pub fn new(letter: u8, semitone: u8) -> (r: Self)
        ensures
            r == (ScaleDegree { letter, semitone }),
    {
        Self { letter, semitone }
    }

    /// Compute the pitch class of this scale degree from a given root pitch.
    ///
    /// The computed letter must be at most two semitones away from the
    /// semitone offset required by this scale degree. For instance, for the
    /// degree `ScaleDegree { semitone: 5, letter: 1 }` above C natural, the
    /// letter offset of 1 maps C to D, whose semitone offset from C natural
    /// is 2. Then, the required semitone offset of 5 is not reachable by
    /// appending any available accidental; the best we can do is double
    /// sharp, which would get us to semitone offset 4.
    pub fn to_pitch_class(self, base_pitch: PitchClass) -> (r: PitchClass)
        requires
            self.representable(base_pitch),
        ensures
            r == self.spec_pitch_class(base_pitch),
    {
        let (letter, offset) = self.letter_and_offset(base_pitch);
        let accidental = Accidental::from_offset(offset).unwrap();
        PitchClass { letter, accidental }
    }

    /// Compute the pitch class of this scale degree from a given root pitch, with error checking.
    ///
    /// Returns `None` if the computed letter offset from the base pitch is
    /// more than two semitones away from the semitone offset required by this
    /// scale degree. See [`ScaleDegree::to_pitch_class`] for an example of
    /// this error.
    pub fn try_to_pitch_class(self, base_pitch: PitchClass) -> (r: Option<PitchClass>)
        ensures
            r is Some <==> self.representable(base_pitch),
            r matches Some(pitch) ==> pitch == self.spec_pitch_class(base_pitch),
    {
        let (letter, offset) = self.letter_and_offset(base_pitch);
        let accidental = Accidental::from_offset(offset)?;
        Some(PitchClass { letter, accidental })
    }
}

/// A family of scales all sharing the same scale degree offsets.
///
/// For instance, the diatonic major scales have the following scale degrees:
///
/// | Letter offset | Semitone offset | Example (D major) |
/// |---------------|-----------------|-------------------|
/// | 0             | 0               | D                 |
/// | 1             | 2               | E                 |
/// | 2             | 4               | F♯                |
/// | 3             | 5               | G                 |
/// | 4             | 7               | A                 |
/// | 5             | 9               | B                 |
/// | 6             | 11              | C♯                |
pub trait ScaleKind {
    /// The scale degrees of this kind, in order.
    spec fn spec_degrees() -> Seq<ScaleDegree>;

    /// A scale kind has at least one degree.
    proof fn lemma_has_degrees()
        ensures
            Self::spec_degrees().len() > 0,
    ;

    /// Get the number of scale degrees in this scale kind.
    ///
    /// The default implementation counts the items returned by
    /// [`ScaleKind::scale_degrees`].
    fn num_degrees() -> (n: usize)
        ensures
            n == Self::spec_degrees().len(),
    {
        Self::scale_degrees().len()
    }

    /// Get the n'th (modulo `self.num_degrees()`) scale degree of this scale kind.
    ///
    /// The default implementation takes the n'th item returned by
    /// [`ScaleKind::scale_degrees`], modulo the value of
    /// [`ScaleKind::num_degrees`].
    fn scale_degree(n: usize) -> (d: ScaleDegree)
        ensures
            d == Self::spec_degrees()[n as int % Self::spec_degrees().len() as int],
    {
        proof {
            Self::lemma_has_degrees();
        }
        let degrees = Self::scale_degrees();
        degrees[n % degrees.len()]
    }

    /// Get the scale degrees of this scale kind, in order.
    fn scale_degrees() -> (v: Vec<ScaleDegree>)
        ensures
            v@ == Self::spec_degrees(),
    ;
}

/// The scale degree `degree`, measured from the scale degree `root` in place
/// of the scale's root: letters mod 7 and semitones mod 12.
pub open spec fn relative_degree(degree: ScaleDegree, root: ScaleDegree) -> ScaleDegree {
    ScaleDegree {
        letter: ((degree.letter % 7 - root.letter % 7) % 7) as u8,
        semitone: ((degree.semitone % 12 - root.semitone % 12) % 12) as u8,
    }
}

/// A mode of a scale kind.
///
/// A scale mode is characterized by a base [`ScaleKind`] (`K`) and a scale
/// degree offset (`N`). For instance, the natural minor scale is the Aeolian
/// mode of the diatonic scale, with the 6th scale degree of the diatonic major
/// scale mapped to the 1st scale degree of the Aeolian mode, so its base kind
/// is [`Diatonic`](diatonic::Diatonic) and its (zero-based) offset is 5.
#[derive(Debug, PartialEq, Eq, Hash)]
pub struct Mode<const N: usize, K> {
    _marker: PhantomData<K>,
}

impl<const N: usize, K> Clone for Mode<N, K> {
    fn clone(&self) -> (r: Self)
        ensures
            r == *self,
    {
        Mode { _marker: PhantomData }
    }
}

impl<const N: usize, K> Copy for Mode<N, K> {

}

impl<const N: usize, K: ScaleKind> ScaleKind for Mode<N, K> {
    /// The degrees of the base kind, starting from its degree `N` (mod the
    /// number of degrees) and wrapping around, each measured from degree `N`.
    open spec fn spec_degrees() -> Seq<ScaleDegree> {
        let base = K::spec_degrees();
        let offset = N as int % base.len() as int;
        Seq::new(
            base.len(),
            |i: int|
                relative_degree(
                    if i + offset < base.len() {
                        base[i + offset]
                    } else {
                        base[i + offset - base.len()]
                    },
                    base[offset],
                ),
        )
    }

    proof fn lemma_has_degrees() {
        K::lemma_has_degrees();
    }

    fn num_degrees() -> (n: usize) {
        K::num_degrees()
    }

    fn scale_degrees() -> (v: Vec<ScaleDegree>) {
        proof {
            K::lemma_has_degrees();
        }
        let n = Self::num_degrees();
        let offset = N % n;
        assert(offset as int % n as int == offset) by {
            vstd::arithmetic::div_mod::lemma_small_mod(offset as nat, n as nat);
        }
        let mut base = K::scale_degree(offset);
        base.letter = base.letter % 7;
        base.semitone = base.semitone % 12;
        let degrees = K::scale_degrees();
        let ghost spec_degrees = Self::spec_degrees();
        let mut out: Vec<ScaleDegree> = Vec::new();
        let mut j: usize = 0;
        while j < n
            invariant
                n == degrees@.len(),
                degrees@ == K::spec_degrees(),
                n > 0,
                offset == N % n,
                base.letter == K::spec_degrees()[offset as int].letter % 7,
                base.semitone == K::spec_degrees()[offset as int].semitone % 12,
                spec_degrees == Self::spec_degrees(),
                j <= n,
                out@.len() == j,
                forall|i: int| 0 <= i < j ==> #[trigger] out@[i] == spec_degrees[i],
            decreases n - j,
        {
            let i = if j < n - offset {
                j + offset
            } else {
                j - (n - offset)
            };
            let degree = degrees[i];
            let letter = ((degree.letter % 7) + 7 - base.letter) % 7;
            let semitone = ((degree.semitone % 12) + 12 - base.semitone) % 12;
            out.push(ScaleDegree { letter, semitone });
            assert(out@[j as int] == spec_degrees[j as int]);
            j = j + 1;
        }
        assert(out@ =~= spec_degrees);
        out
    }
}

/// A rooted scale.
#[derive(Debug, PartialEq, Eq, Hash)]
pub struct Scale<K> {
    root: PitchClass,
    _marker: PhantomData<K>,
}

impl<K> Clone for Scale<K> {
    fn clone(&self) -> (r: Self)
        ensures
            r == *self,
    {
        Scale { root: self.root, _marker: PhantomData }
    }
}

impl<K> Copy for Scale<K> {

}

impl<K> Scale<K> {
    /// The root pitch class of this scale.
    pub closed spec fn spec_root(self) -> PitchClass {
        self.root
    }

    /// Create a scale of kind `K` rooted at the given pitch class.
    pub fn new(root: PitchClass) -> (r: Self)
        ensures
            r.spec_root() == root,
    {
        Self { root, _marker: PhantomData }
    }

    /// Get the root pitch class of this scale.
    pub fn root(&self) -> (r: PitchClass)
        ensures
            r == self.spec_root(),
    {
        self.root
    }
}

impl<K: ScaleKind> Scale<K> {
    /// The scale degree of kind `K` that the n'th degree of a scale stands
    /// for, n taken modulo the number of degrees.
    pub open spec fn spec_degree(n: int) -> ScaleDegree {
        K::spec_degrees()[n % K::spec_degrees().len() as int]
    }

    /// Every degree of the scale can be spelled above its root.
    pub open spec fn all_representable(self) -> bool {
        forall|i: int|
            0 <= i < K::spec_degrees().len() ==> (#[trigger] K::spec_degrees()[i]).representable(
                self.spec_root(),
            )
    }

    /// Get the pitch class of the n'th (modulo the number of scale degrees)
    /// scale degree.
    ///
    /// The n'th scale degree from this scale's root note must be
    /// representable as a pitch class. See [`ScaleDegree::to_pitch_class`] for
    /// further information.
    pub fn scale_degree(&self, n: usize) -> (r: PitchClass)
        requires
            Self::spec_degree(n as int).representable(self.spec_root()),
        ensures
            r == Self::spec_degree(n as int).spec_pitch_class(self.spec_root()),
    {
        let degree = K::scale_degree(n);
        degree.to_pitch_class(self.root())
    }

    /// Get the pitch class of the n'th (modulo the number of scale degrees)
    /// scale degree, with error checking.
    ///
    /// Returns `None` if the n'th scale degree from this scale's root note is
    /// not representable as a pitch class. See [`ScaleDegree::to_pitch_class`]
    /// for further information.
    pub fn try_scale_degree(&self, n: usize) -> (r: Option<PitchClass>)
        ensures
            r is Some <==> Self::spec_degree(n as int).representable(self.spec_root()),
            r matches Some(pitch) ==> pitch == Self::spec_degree(n as int).spec_pitch_class(
                self.spec_root(),
            ),
            r == self.spec_try_pitch_class(Self::spec_degree(n as int)),
    {
        let degree = K::scale_degree(n);
        degree.try_to_pitch_class(self.root())
    }

    /// The pitch class of the scale degree `degree` above the root, if it can
    /// be spelled.
    pub open spec fn spec_try_pitch_class(self, degree: ScaleDegree) -> Option<PitchClass> {
        if degree.representable(self.spec_root()) {
            Some(degree.spec_pitch_class(self.spec_root()))
        } else {
            None
        }
    }

    /// Get the pitch classes of this scale, in order, each with error
    /// checking: `None` for a degree that cannot be spelled above the root,
    /// the others still given.
    pub fn try_scale_degrees(&self) -> (r: Vec<Option<PitchClass>>)
        ensures
            r@.len() == K::spec_degrees().len(),
            forall|i: int|
                0 <= i < r@.len() ==> #[trigger] r@[i] == self.spec_try_pitch_class(
                    K::spec_degrees()[i],
                ),
    {
        let degrees = K::scale_degrees();
        let root = self.root();
        let mut out: Vec<Option<PitchClass>> = Vec::new();
        let mut i: usize = 0;
        while i < degrees.len()
            invariant
                degrees@ == K::spec_degrees(),
                root == self.spec_root(),
                i <= degrees@.len(),
                out@.len() == i,
                forall|j: int|
                    0 <= j < i ==> #[trigger] out@[j] == self.spec_try_pitch_class(
                        K::spec_degrees()[j],
                    ),
            decreases degrees@.len() - i,
        {
            let pitch = degrees[i].try_to_pitch_class(root);
            out.push(pitch);
            i = i + 1;
        }
        out
    }

    /// Get the pitch classes of this scale, in order.
    pub fn scale_degrees(&self) -> (r: Vec<PitchClass>)
        requires
            self.all_representable(),
        ensures
            r@.len() == K::spec_degrees().len(),
            forall|i: int|
                0 <= i < r@.len() ==> #[trigger] r@[i] == K::spec_degrees()[i].spec_pitch_class(
                    self.spec_root(),
                ),
    {
        let degrees = K::scale_degrees();
        let root = self.root();
        let mut out: Vec<PitchClass> = Vec::new();
        let mut i: usize = 0;
        while i < degrees.len()
            invariant
                degrees@ == K::spec_degrees(),
                root == self.spec_root(),
                self.all_representable(),
                i <= degrees@.len(),
                out@.len() == i,
                forall|j: int|
                    0 <= j < i ==> #[trigger] out@[j] == K::spec_degrees()[j].spec_pitch_class(
                        root,
                    ),
            decreases degrees@.len() - i,
        {
            let pitch = degrees[i].to_pitch_class(root);
            out.push(pitch);
            i = i + 1;
        }
        out
    }
}

/// Measuring `s` semitones above a pitch at `base` through the natural note
/// at `natural`, raised by the difference brought into -6..=5, lands `s`
/// semitones (mod 12) above `base`.
proof fn lemma_semitones_through_natural(natural: int, base: int, s: int)
    ensures
        ((natural + ((s - (natural - base) % 12 + 6) % 12 - 6)) % 12 - base) % 12 == s % 12,
{
    let q1 = (natural - base) / 12;
    let e = s - (natural - base) % 12 + 6;
    let q2 = e / 12;
    vstd::arithmetic::div_mod::lemma_fundamental_div_mod(natural - base, 12);
    vstd::arithmetic::div_mod::lemma_fundamental_div_mod(e, 12);
    assert(natural + (e % 12 - 6) == 12 * (q1 - q2) + (s + base));
    vstd::arithmetic::div_mod::lemma_mod_multiples_vanish(q1 - q2, s + base, 12);
    vstd::arithmetic::div_mod::lemma_add_mod_noop_right(-base, s + base, 12);
}

/// The pitch class of a scale degree above a root is `letter` letters and
/// `semitone` semitones (mod 7 and mod 12) above that root.
pub proof fn lemma_pitch_class_offsets(degree: ScaleDegree, base_pitch: PitchClass)
    requires
        degree.representable(base_pitch),
    ensures
        degree.spec_pitch_class(base_pitch).letter.spec_offset_from(base_pitch.letter) == degree.letter
            % 7,
        degree.spec_pitch_class(base_pitch).spec_semitone_offset_from(base_pitch) == degree.semitone
            % 12,
{
    lemma_offset_by_then_from(base_pitch.letter, degree.letter as int);
    let letter = degree.spec_letter(base_pitch);
    let pitch = degree.spec_pitch_class(base_pitch);
    let natural = PitchClass { letter, accidental: Accidental::Natural };
    let l = letter.spec_semitone_offset();
    let b = base_pitch.spec_semitone_offset();
    let d = degree.spec_accidental_offset(base_pitch);
    assert(natural.spec_semitone_offset() == l);
    assert(d == (degree.semitone - (l - b) % 12 + 6) % 12 - 6);
    assert(pitch.accidental.spec_offset() == d);
    assert(pitch.spec_semitone_offset() == (l + d) % 12);
    lemma_semitones_through_natural(l, b, degree.semitone as int);
}

/// Scale degrees wrap around: the n'th degree of a scale is its
/// (n mod number of degrees)'th degree, which is the item at that index of
/// the scale's degrees in order, and is also its (n + number of degrees)'th
/// degree; and the n'th pitch class, checked, is the item at that index of
/// the checked pitch classes in order.
pub proof fn lemma_scale_degree_wraps<K: ScaleKind>(scale: Scale<K>, n: int)
    requires
        n >= 0,
    ensures
        0 <= n % (K::spec_degrees().len() as int) < K::spec_degrees().len(),
        Scale::<K>::spec_degree(n) == Scale::<K>::spec_degree(n % (K::spec_degrees().len() as int)),
        Scale::<K>::spec_degree(n) == K::spec_degrees()[n % (K::spec_degrees().len() as int)],
        Scale::<K>::spec_degree(n + K::spec_degrees().len()) == Scale::<K>::spec_degree(n),
        scale.spec_try_pitch_class(Scale::<K>::spec_degree(n)) == scale.spec_try_pitch_class(
            K::spec_degrees()[n % (K::spec_degrees().len() as int)],
        ),
{
    K::lemma_has_degrees();
    let len = K::spec_degrees().len() as int;
    vstd::arithmetic::div_mod::lemma_mod_pos_bound(n, len);
    vstd::arithmetic::div_mod::lemma_mod_add_multiples_vanish(n, len);
    vstd::arithmetic::div_mod::lemma_small_mod((n % len) as nat, len as nat);
}

/// Facts that tie `x % 12` to `x`: a remainder in 0..12 and a quotient.
proof fn lemma_mod_12(x: int)
    ensures
        0 <= x % 12 < 12,
        x == 12 * (x / 12) + x % 12,
{
    vstd::arithmetic::div_mod::lemma_fundamental_div_mod(x, 12);
    vstd::arithmetic::div_mod::lemma_mod_bound(x, 12);
}

/// Over a natural note `natural` semitones above C and a root `base`
/// semitones above C, an accidental of `offset` semitones in -2..=2 lands `s`
/// semitones (mod 12) above the root exactly when it is the difference
/// brought into -6..=5.
proof fn lemma_accidental_unique(natural: int, base: int, offset: int, s: int)
    requires
        0 <= natural < 12,
        0 <= base < 12,
        -2 <= offset <= 2,
    ensures
        (((natural + offset) % 12 - base) % 12 == s % 12) <==> offset == (s - (natural - base) % 12
            + 6) % 12 - 6,
{
    lemma_mod_12(natural + offset);
    lemma_mod_12((natural + offset) % 12 - base);
    lemma_mod_12(s);
    lemma_mod_12(natural - base);
    lemma_mod_12(s - (natural - base) % 12 + 6);
}

/// A degree above a root is spelled by its letter with exactly one
/// accidental: a pitch class with the degree's letter lies `semitone`
/// semitones (mod 12) above the root exactly when the degree is
/// representable and the pitch class is its spelling.
pub proof fn lemma_spelling_unique(degree: ScaleDegree, base_pitch: PitchClass, accidental: Accidental)
    ensures
        (PitchClass { letter: degree.spec_letter(base_pitch), accidental }).spec_semitone_offset_from(
            base_pitch,
        ) == degree.semitone % 12 <==> degree.representable(base_pitch)
            && degree.spec_pitch_class(base_pitch) == (PitchClass {
            letter: degree.spec_letter(base_pitch),
            accidental,
        }),
{
    let letter = degree.spec_letter(base_pitch);
    let natural = PitchClass { letter, accidental: Accidental::Natural };
    let l = letter.spec_semitone_offset();
    let b = base_pitch.spec_semitone_offset();
    assert(natural.spec_semitone_offset() == l);
    lemma_mod_12(l + accidental.spec_offset());
    lemma_accidental_unique(l, b, accidental.spec_offset(), degree.semitone as int);
    lemma_accidental_offset_injective(accidental, accidental);
}

} // verus!
