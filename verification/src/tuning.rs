//! Spelled pitches: a pitch class, an accidental count and an octave.
//!
//! The central algorithm is [`Tuning::add_interval`], which transposes a
//! spelled pitch by an interval and returns the spelling a trained musician
//! would notate: the target letter is stepped by the interval's diatonic
//! distance, independently of accidentals, and the accidentals are then
//! chosen so the letter reaches the target semitone exactly.

use vstd::prelude::*;

use crate::errors::MusicError;
use crate::interval::Interval;
use crate::interval::abs_of;
use crate::interval::interval_of_semitones;
use crate::text::chars_of;
use vstd::string::StringExecFns;

verus! {

/// A pitch class: one of the seven letters, possibly sharpened or
/// flattened. `Absent` stands for the missing pitch class of a rest.
#[derive(Debug, Clone, Copy, PartialEq, Eq, Structural)]
#[allow(missing_docs)]
pub enum PitchClass {
    Absent,
    C,
    Cs,
    Db,
    D,
    Ds,
    Eb,
    E,
    F,
    Fs,
    Gb,
    G,
    Gs,
    Ab,
    A,
    As,
    Bb,
    B,
}

/// 1-based semitone number of a pitch class within its octave (C = 1 up to
/// B = 12); 0 for the absent class.
pub open spec fn class_semitones_of(pc: PitchClass) -> int {
    match pc {
        PitchClass::Absent => 0,
        PitchClass::C => 1,
        PitchClass::Cs => 2,
        PitchClass::Db => 2,
        PitchClass::D => 3,
        PitchClass::Ds => 4,
        PitchClass::Eb => 4,
        PitchClass::E => 5,
        PitchClass::F => 6,
        PitchClass::Fs => 7,
        PitchClass::Gb => 7,
        PitchClass::G => 8,
        PitchClass::Gs => 9,
        PitchClass::Ab => 9,
        PitchClass::A => 10,
        PitchClass::As => 11,
        PitchClass::Bb => 11,
        PitchClass::B => 12,
    }
}

/// Diatonic degree of a pitch class's letter (C = 1 up to B = 7); 0 for the
/// absent class.
pub open spec fn class_degree_of(pc: PitchClass) -> int {
    match pc {
        PitchClass::Absent => 0,
        PitchClass::C => 1,
        PitchClass::Cs => 1,
        PitchClass::Db => 2,
        PitchClass::D => 2,
        PitchClass::Ds => 2,
        PitchClass::Eb => 3,
        PitchClass::E => 3,
        PitchClass::F => 4,
        PitchClass::Fs => 4,
        PitchClass::Gb => 5,
        PitchClass::G => 5,
        PitchClass::Gs => 5,
        PitchClass::Ab => 6,
        PitchClass::A => 6,
        PitchClass::As => 6,
        PitchClass::Bb => 7,
        PitchClass::B => 7,
    }
}

/// The pitch class one semitone up, keeping sharp spellings.
pub open spec fn sharp_of(pc: PitchClass) -> PitchClass {
    match pc {
        PitchClass::Absent => PitchClass::Absent,
        PitchClass::C => PitchClass::Cs,
        PitchClass::Cs => PitchClass::D,
        PitchClass::Db => PitchClass::D,
        PitchClass::D => PitchClass::Ds,
        PitchClass::Ds => PitchClass::E,
        PitchClass::Eb => PitchClass::E,
        PitchClass::E => PitchClass::F,
        PitchClass::F => PitchClass::Fs,
        PitchClass::Fs => PitchClass::G,
        PitchClass::Gb => PitchClass::G,
        PitchClass::G => PitchClass::Gs,
        PitchClass::Gs => PitchClass::A,
        PitchClass::Ab => PitchClass::A,
        PitchClass::A => PitchClass::As,
        PitchClass::As => PitchClass::B,
        PitchClass::Bb => PitchClass::B,
        PitchClass::B => PitchClass::C,
    }
}

/// The pitch class one semitone down, keeping flat spellings.
pub open spec fn flat_of(pc: PitchClass) -> PitchClass {
    match pc {
        PitchClass::Absent => PitchClass::Absent,
        PitchClass::C => PitchClass::B,
        PitchClass::Cs => PitchClass::C,
        PitchClass::Db => PitchClass::C,
        PitchClass::D => PitchClass::Db,
        PitchClass::Ds => PitchClass::D,
        PitchClass::Eb => PitchClass::D,
        PitchClass::E => PitchClass::Eb,
        PitchClass::F => PitchClass::E,
        PitchClass::Fs => PitchClass::F,
        PitchClass::Gb => PitchClass::F,
        PitchClass::G => PitchClass::Gb,
        PitchClass::Gs => PitchClass::G,
        PitchClass::Ab => PitchClass::G,
        PitchClass::A => PitchClass::Ab,
        PitchClass::As => PitchClass::A,
        PitchClass::Bb => PitchClass::A,
        PitchClass::B => PitchClass::Bb,
    }
}

/// The natural letter of a diatonic degree, wrapping modulo 7 (1 maps to C
/// up to 7 mapping to B).
pub open spec fn class_of_degree(degree: int) -> PitchClass {
    let d = ((degree - 1) % 7) + 1;
    if d == 1 {
        PitchClass::C
    } else if d == 2 {
        PitchClass::D
    } else if d == 3 {
        PitchClass::E
    } else if d == 4 {
        PitchClass::F
    } else if d == 5 {
        PitchClass::G
    } else if d == 6 {
        PitchClass::A
    } else {
        PitchClass::B
    }
}

/// Sign of an integer: -1, 0 or 1.
pub open spec fn sig(x: int) -> int {
    if x > 0 {
        1
    } else if x < 0 {
        -1
    } else {
        0
    }
}

/// Division truncating toward zero (the divisor must be positive), as the
/// machine's signed division behaves.
pub open spec fn trunc_div(a: int, b: int) -> int {
    if a >= 0 {
        a / b
    } else {
        -((-a) / b)
    }
}

/// Remainder of division truncating toward zero (the divisor must be
/// positive): it carries the dividend's sign.
pub open spec fn trunc_rem(a: int, b: int) -> int {
    if a >= 0 {
        a % b
    } else {
        -((-a) % b)
    }
}

/// One more than an `i8` value, wrapping at the upper bound.
pub open spec fn wrap_inc(a: int) -> int {
    if a == 127 {
        -128
    } else {
        a + 1
    }
}

/// One less than an `i8` value, wrapping at the lower bound.
pub open spec fn wrap_dec(a: int) -> int {
    if a == -128 {
        127
    } else {
        a - 1
    }
}

/// Clamp an integer into the `i8` range, as saturating arithmetic does.
pub open spec fn sat_i8(x: int) -> int {
    if x > 127 {
        127
    } else if x < -128 {
        -128
    } else {
        x
    }
}

/// The 0-based pitch-class position of a spelled pitch, accidentals
/// folded in; the remainder keeps the machine's truncating sign.
pub open spec fn spec_class_semitones(t: Tuning) -> int {
    trunc_rem(class_semitones_of(t.class) + t.accidentals + 11, 12)
}

/// MIDI-style pitch number of a spelled pitch, saturating at the `i8`
/// bounds step by step as the machine arithmetic does; 0 for the absent
/// pitch class.
pub open spec fn spec_number(t: Tuning) -> int {
    if class_semitones_of(t.class) == 0 {
        0
    } else {
        sat_i8(sat_i8(sat_i8((t.octave + 1) * 12) + class_semitones_of(t.class) - 1)
            + t.accidentals)
    }
}

/// Walking a pitch class sharper or flatter, one accidental at a time,
/// while its letter keeps its diatonic degree; stops early when the next
/// step would change the letter, handing back the accidentals not yet
/// consumed.
pub open spec fn spec_add_accidentals(pc: PitchClass, acc: int) -> (PitchClass, int)
    decreases abs_of(acc),
{
    if acc == 0 {
        (pc, 0)
    } else {
        let next = if acc > 0 {
            sharp_of(pc)
        } else {
            flat_of(pc)
        };
        if class_degree_of(next) != class_degree_of(pc) {
            (pc, acc)
        } else {
            spec_add_accidentals(next, acc - sig(acc))
        }
    }
}

impl PitchClass {
    /// The pitch class one semitone up, keeping sharp spellings.
    pub fn sharp(&self) -> (r: Self)
        ensures
            r == sharp_of(*self),
    {
        match self {
            PitchClass::Absent => PitchClass::Absent,
            PitchClass::C => PitchClass::Cs,
            PitchClass::Cs => PitchClass::D,
            PitchClass::Db => PitchClass::D,
            PitchClass::D => PitchClass::Ds,
            PitchClass::Ds => PitchClass::E,
            PitchClass::Eb => PitchClass::E,
            PitchClass::E => PitchClass::F,
            PitchClass::F => PitchClass::Fs,
            PitchClass::Fs => PitchClass::G,
            PitchClass::Gb => PitchClass::G,
            PitchClass::G => PitchClass::Gs,
            PitchClass::Gs => PitchClass::A,
            PitchClass::Ab => PitchClass::A,
            PitchClass::A => PitchClass::As,
            PitchClass::As => PitchClass::B,
            PitchClass::Bb => PitchClass::B,
            PitchClass::B => PitchClass::C,
        }
    }

    /// The pitch class one semitone down, keeping flat spellings.
    pub fn flat(&self) -> (r: Self)
        ensures
            r == flat_of(*self),
    {
        match self {
            PitchClass::Absent => PitchClass::Absent,
            PitchClass::C => PitchClass::B,
            PitchClass::Cs => PitchClass::C,
            PitchClass::Db => PitchClass::C,
            PitchClass::D => PitchClass::Db,
            PitchClass::Ds => PitchClass::D,
            PitchClass::Eb => PitchClass::D,
            PitchClass::E => PitchClass::Eb,
            PitchClass::F => PitchClass::E,
            PitchClass::Fs => PitchClass::F,
            PitchClass::Gb => PitchClass::F,
            PitchClass::G => PitchClass::Gb,
            PitchClass::Gs => PitchClass::G,
            PitchClass::Ab => PitchClass::G,
            PitchClass::A => PitchClass::Ab,
            PitchClass::As => PitchClass::A,
            PitchClass::Bb => PitchClass::A,
            PitchClass::B => PitchClass::Bb,
        }
    }

    /// 1-based semitone number of the pitch class within its octave.
    pub fn semitones(&self) -> (r: i8)
        ensures
            r == class_semitones_of(*self),
    {
        match self {
            PitchClass::Absent => 0,
            PitchClass::C => 1,
            PitchClass::Cs => 2,
            PitchClass::Db => 2,
            PitchClass::D => 3,
            PitchClass::Ds => 4,
            PitchClass::Eb => 4,
            PitchClass::E => 5,
            PitchClass::F => 6,
            PitchClass::Fs => 7,
            PitchClass::Gb => 7,
            PitchClass::G => 8,
            PitchClass::Gs => 9,
            PitchClass::Ab => 9,
            PitchClass::A => 10,
            PitchClass::As => 11,
            PitchClass::Bb => 11,
            PitchClass::B => 12,
        }
    }

    /// Diatonic degree of the pitch class's letter, C = 1 up to B = 7.
    pub fn degree(&self) -> (r: i8)
        ensures
            r == class_degree_of(*self),
    {
        match self {
            PitchClass::Absent => 0,
            PitchClass::C => 1,
            PitchClass::Cs => 1,
            PitchClass::Db => 2,
            PitchClass::D => 2,
            PitchClass::Ds => 2,
            PitchClass::Eb => 3,
            PitchClass::E => 3,
            PitchClass::F => 4,
            PitchClass::Fs => 4,
            PitchClass::Gb => 5,
            PitchClass::G => 5,
            PitchClass::Gs => 5,
            PitchClass::Ab => 6,
            PitchClass::A => 6,
            PitchClass::As => 6,
            PitchClass::Bb => 7,
            PitchClass::B => 7,
        }
    }

    /// The natural letter of a diatonic degree, wrapping modulo 7.
    pub fn from_degree(degree: i8) -> (r: PitchClass)
        requires
            -127 <= degree,
        ensures
            r == class_of_degree(degree as int),
    {
        let d0: i32 = (degree as i32) - 1;
        let m: u32 = if d0 >= 0 {
            (d0 as u32) % 7
        } else {
            let neg: u32 = ((-d0) as u32) % 7;
            if neg == 0 {
                0
            } else {
                7 - neg
            }
        };
        let d: u32 = m + 1;
        assert(d == ((degree - 1) % 7) + 1);
        if d == 1 {
            PitchClass::C
        } else if d == 2 {
            PitchClass::D
        } else if d == 3 {
            PitchClass::E
        } else if d == 4 {
            PitchClass::F
        } else if d == 5 {
            PitchClass::G
        } else if d == 6 {
            PitchClass::A
        } else {
            PitchClass::B
        }
    }

    /// Apply a budget of accidentals to the pitch class, walking sharp or
    /// flat transforms while the letter's degree is unchanged; returns the
    /// reached class and the unconsumed accidentals.
    pub fn add_accidentals(&self, accidentals: i8) -> (r: (Self, i8))
        ensures
            r.0 == spec_add_accidentals(*self, accidentals as int).0,
            r.1 == spec_add_accidentals(*self, accidentals as int).1,
    {
        let deg0: i8 = self.degree();
        let mut pc: PitchClass = *self;
        let mut remaining: i8 = accidentals;
        loop
            invariant
                class_degree_of(pc) == deg0,
                spec_add_accidentals(pc, remaining as int) == spec_add_accidentals(
                    *self,
                    accidentals as int,
                ),
            decreases abs_of(remaining as int),
        {
            if remaining == 0 {
                return (pc, remaining);
            }
            let next: PitchClass = if remaining > 0 {
                pc.sharp()
            } else {
                pc.flat()
            };
            if next.degree() == deg0 {
                pc = next;
                remaining = if remaining > 0 {
                    remaining - 1
                } else {
                    remaining + 1
                };
            } else {
                return (pc, remaining);
            }
        }
    }
}

/// A spelled pitch: a pitch class, an extra accidental count (which may
/// exceed a double sharp or flat), and an octave.
#[derive(Debug, Clone, Copy, PartialEq, Eq, Structural)]
pub struct Tuning {
    /// The pitch class.
    pub class: PitchClass,
    /// Accidentals applied on top of the class, positive for sharps.
    pub accidentals: i8,
    /// The octave; the audible range is 0..=10.
    pub octave: i8,
}

/// Absolute semitone number of a spelled pitch: twelve per octave (shifted
/// so octave -1 starts at 0) plus the class's offset plus the accidentals.
/// Two tunings are enharmonically equivalent exactly when these agree.
pub open spec fn abs_semitone(t: Tuning) -> int {
    (t.octave + 1) * 12 + class_semitones_of(t.class) - 1 + t.accidentals
}

/// The raw semitone target of a transposition: the interval's span from the
/// source's class offset and accidentals.
pub open spec fn add_target(t: Tuning, iv: Interval) -> int {
    iv.semitones + class_semitones_of(t.class) + t.accidentals
}

/// First octave estimate of a transposition, before the letter is known.
pub open spec fn add_est(t: Tuning, iv: Interval) -> int {
    t.octave + trunc_div(add_target(t, iv) + 11, 12) - 1
}

/// Whether a transposition stays inside the audible octave range.
pub open spec fn add_ok(t: Tuning, iv: Interval) -> bool {
    0 <= add_est(t, iv) <= 10
}

/// Target letter of a transposition: the source letter stepped by the
/// interval's diatonic distance, in the interval's direction.
pub open spec fn add_letter(t: Tuning, iv: Interval) -> PitchClass {
    class_of_degree(
        class_degree_of(t.class) + iv.degree.0 * sig(iv.semitones as int) - sig(
            iv.semitones as int,
        ),
    )
}

/// Correct an octave estimate that missed a letter wrap past the C/B
/// boundary: while the accidental budget exceeds a minor seventh, move one
/// octave in its direction and shrink it by twelve.
pub open spec fn octave_correct(est: int, diff: int) -> (int, int)
    decreases abs_of(diff),
{
    if -10 <= diff <= 10 {
        (est, diff)
    } else if diff > 0 {
        octave_correct(est + 1, diff - 12)
    } else {
        octave_correct(est - 1, diff + 12)
    }
}

/// The spelled pitch that transposing `t` by `iv` yields, when `add_ok`
/// holds: the stepped letter, at the corrected octave, with exactly the
/// accidentals needed to reach the target semitone.
pub open spec fn spec_add_interval(t: Tuning, iv: Interval) -> Tuning {
    let target = add_target(t, iv);
    let est0 = add_est(t, iv);
    let letter = add_letter(t, iv);
    let diff0 = target - (class_semitones_of(letter) + (est0 - t.octave) * 12);
    let corrected = octave_correct(est0, diff0);
    let stepped = spec_add_accidentals(letter, corrected.1);
    Tuning { class: stepped.0, accidentals: stepped.1 as i8, octave: corrected.0 as i8 }
}

impl Tuning {
    /// A pitch class at an octave, with no extra accidentals.
    pub fn new(class: PitchClass, octave: i8) -> (r: Self)
        ensures
            r == (Tuning { class, accidentals: 0, octave }),
    {
        Self { class, accidentals: 0, octave }
    }

    /// The same pitch at another octave.
    pub fn with_octave(&self, octave: i8) -> (r: Self)
        ensures
            r == (Tuning { octave, ..*self }),
    {
        Self { octave, ..*self }
    }

    /// The same pitch with another accidental count.
    pub fn with_accidentals(&self, accidentals: i8) -> (r: Self)
        ensures
            r == (Tuning { accidentals, ..*self }),
    {
        Self { accidentals, ..*self }
    }

    /// The pitch class.
    pub fn class(&self) -> (r: PitchClass)
        ensures
            r == self.class,
    {
        self.class
    }

    /// The extra accidental count.
    pub fn accidentals(&self) -> (r: i8)
        ensures
            r == self.accidentals,
    {
        self.accidentals
    }

    /// The octave.
    pub fn octave(&self) -> (r: i8)
        ensures
            r == self.octave,
    {
        self.octave
    }

    /// The pitch class's semitone offset with accidentals folded in,
    /// shifted to a 0-based position (the remainder keeps the machine's
    /// truncating sign).
    pub fn class_semitones(&self) -> (r: i8)
        ensures
            r == spec_class_semitones(*self),
    {
        let s: i32 = (self.class.semitones() as i32) + (self.accidentals as i32) + 11;
        let r: i32 = if s >= 0 {
            ((s as u32) % 12) as i32
        } else {
            -((((-s) as u32) % 12) as i32)
        };
        r as i8
    }

    /// MIDI-style pitch number, saturating at the `i8` bounds as the
    /// machine arithmetic does; 0 for the absent pitch class.
    pub fn number(&self) -> (r: i8)
        ensures
            r == spec_number(*self),
    {
        let base: i8 = self.class.semitones();
        if base == 0 {
            return 0;
        }
        let m0: i32 = ((self.octave as i32) + 1) * 12;
        let m1: i32 = if m0 > 127 {
            127
        } else if m0 < -128 {
            -128
        } else {
            m0
        };
        let m2: i32 = m1 + (base as i32) - 1;
        let m3: i32 = if m2 > 127 {
            127
        } else if m2 < -128 {
            -128
        } else {
            m2
        };
        let m4: i32 = m3 + (self.accidentals as i32);
        let m5: i32 = if m4 > 127 {
            127
        } else if m4 < -128 {
            -128
        } else {
            m4
        };
        m5 as i8
    }

    /// One more sharp, wrapping at the `i8` bound as the machine does.
    pub fn sharp(self) -> (r: Self)
        ensures
            r.class == self.class,
            r.octave == self.octave,
            r.accidentals == wrap_inc(self.accidentals as int),
    {
        let acc: i8 = if self.accidentals == 127 {
            -128
        } else {
            self.accidentals + 1
        };
        Self { accidentals: acc, ..self }
    }

    /// One more flat, wrapping at the `i8` bound as the machine does.
    pub fn flat(self) -> (r: Self)
        ensures
            r.class == self.class,
            r.octave == self.octave,
            r.accidentals == wrap_dec(self.accidentals as int),
    {
        let acc: i8 = if self.accidentals == -128 {
            127
        } else {
            self.accidentals - 1
        };
        Self { accidentals: acc, ..self }
    }

    /// Transpose the pitch by an interval, producing the conventional
    /// spelling. Fails with `InvalidOctave` exactly when the estimated
    /// octave leaves the audible range 0..=10.
    #[verifier::rlimit(50)]
    pub fn add_interval(&self, interval: &Interval) -> (r: Result<Self, MusicError>)
        ensures
            r is Ok <==> add_ok(*self, *interval),
            r matches Ok(t) ==> t == spec_add_interval(*self, *interval),
            !add_ok(*self, *interval) ==> (r matches Err(e) && e matches
                MusicError::InvalidOctave { octave } && octave == sat_i8(
                add_est(*self, *interval),
            )),
    {
        let target: i32 = (interval.semitones() as i32) + (self.class.semitones() as i32)
            + (self.accidentals as i32);
        let shifted: i32 = target + 11;
        let q: i32 = if shifted >= 0 {
            ((shifted as u32) / 12) as i32
        } else {
            -((((-shifted) as u32) / 12) as i32)
        };
        assert(q == trunc_div(add_target(*self, *interval) + 11, 12));
        let est0: i32 = (self.octave as i32) + q - 1;
        if est0 < 0 || est0 > 10 {
            let clipped: i8 = if est0 > 127 {
                127
            } else if est0 < -128 {
                -128
            } else {
                est0 as i8
            };
            return Err(MusicError::InvalidOctave { octave: clipped });
        }
        let s: i8 = interval.semitones();
        let step: i32 = if s > 0 {
            (interval.degree.0 as i32) - 1
        } else if s < 0 {
            1 - (interval.degree.0 as i32)
        } else {
            0
        };
        let new_degree: i32 = (self.class.degree() as i32) + step;
        assert(new_degree == class_degree_of(self.class) + interval.degree.0 * sig(s as int)
            - sig(s as int));
        let letter: PitchClass = if new_degree >= -127 && new_degree <= 127 {
            PitchClass::from_degree(new_degree as i8)
        } else {
            // The degree is at most 7 + 255 + 1 in magnitude; step it by a
            // full 7-letter cycle to keep the i8 range, leaving the letter
            // unchanged.
            PitchClass::from_degree((new_degree % 7) as i8)
        };
        proof {
            if !(new_degree >= -127 && new_degree <= 127) {
                lemma_class_of_degree_mod7(new_degree as int);
            }
        }
        assert(letter == add_letter(*self, *interval));
        let mut est: i32 = est0;
        let mut diff: i32 = target - ((letter.semitones() as i32) + (est - (self.octave as i32))
            * 12);
        let ghost diff0: int = diff as int;
        proof {
            lemma_diff0_bounds(add_target(*self, *interval), self.octave as int, letter);
        }
        while diff > 10 || diff < -10
            invariant
                0 <= est0 <= 10,
                -22 <= diff <= 12,
                (diff > 10 || diff < -10) ==> est == est0,
                (-10 <= diff <= 10) ==> est0 - 1 <= est <= est0 + 1,
                octave_correct(est as int, diff as int) == octave_correct(est0 as int, diff0),
                est as int * 12 + diff == est0 as int * 12 + diff0,
            decreases abs_of(diff as int),
        {
            if diff > 0 {
                est = est + 1;
                diff = diff - 12;
            } else {
                est = est - 1;
                diff = diff + 12;
            }
        }
        let stepped: (PitchClass, i8) = letter.add_accidentals(diff as i8);
        Ok(Tuning { class: stepped.0, accidentals: stepped.1, octave: est as i8 })
    }
}

/// The position of a pitch class in the chromatic listing of the enum,
/// counting the absent class as 0. Sharp and flat spellings hold places of
/// their own, so this is a listing position, not a semitone offset.
pub open spec fn class_index(pc: PitchClass) -> int {
    match pc {
        PitchClass::Absent => 0,
        PitchClass::C => 1,
        PitchClass::Cs => 2,
        PitchClass::Db => 3,
        PitchClass::D => 4,
        PitchClass::Ds => 5,
        PitchClass::Eb => 6,
        PitchClass::E => 7,
        PitchClass::F => 8,
        PitchClass::Fs => 9,
        PitchClass::Gb => 10,
        PitchClass::G => 11,
        PitchClass::Gs => 12,
        PitchClass::Ab => 13,
        PitchClass::A => 14,
        PitchClass::As => 15,
        PitchClass::Bb => 16,
        PitchClass::B => 17,
    }
}

/// Listing position of a pitch class, for `Interval::between`.
pub(crate) fn class_index_of(pc: PitchClass) -> (r: i8)
    ensures
        r == class_index(pc),
{
    match pc {
        PitchClass::Absent => 0,
        PitchClass::C => 1,
        PitchClass::Cs => 2,
        PitchClass::Db => 3,
        PitchClass::D => 4,
        PitchClass::Ds => 5,
        PitchClass::Eb => 6,
        PitchClass::E => 7,
        PitchClass::F => 8,
        PitchClass::Fs => 9,
        PitchClass::Gb => 10,
        PitchClass::G => 11,
        PitchClass::Gs => 12,
        PitchClass::Ab => 13,
        PitchClass::A => 14,
        PitchClass::As => 15,
        PitchClass::Bb => 16,
        PitchClass::B => 17,
    }
}

/// The letter of a degree depends only on the degree modulo 7.
proof fn lemma_class_of_degree_mod7(d: int)
    ensures
        class_of_degree(d % 7) == class_of_degree(d),
{
    assert(((d % 7) - 1) % 7 == (d - 1) % 7) by {
        assert((d - 1) % 7 == ((d % 7) + 7 * (d / 7) - 1) % 7);
        vstd::arithmetic::div_mod::lemma_mod_multiples_vanish(d / 7, (d % 7) - 1, 7);
    }
}

/// Bounds on the initial accidental budget of a transposition: with the
/// first octave estimate in place it spans at most a ninth down and an
/// octave up.
proof fn lemma_diff0_bounds(target: int, octave: int, letter: PitchClass)
    requires
        !(letter is Absent),
    ensures
        -22 <= target - (class_semitones_of(letter) + (octave + trunc_div(target + 11, 12) - 1
            - octave) * 12) <= 11,
{
    let q = trunc_div(target + 11, 12);
    if target + 11 >= 0 {
        assert(q == (target + 11) / 12);
        assert(12 * q <= target + 11 < 12 * q + 12) by {
            vstd::arithmetic::div_mod::lemma_fundamental_div_mod(target + 11, 12);
        }
    } else {
        let u = -(target + 11);
        assert(q == -(u / 12));
        assert(12 * (u / 12) <= u < 12 * (u / 12) + 12) by {
            vstd::arithmetic::div_mod::lemma_fundamental_div_mod(u, 12);
        }
    }
    assert(1 <= class_semitones_of(letter) <= 12);
}

/// Stepping accidentals onto a letter keeps the letter's degree and
/// preserves the combined semitone count: what the class absorbs and what
/// is left over always sum to the budget.
proof fn lemma_add_accidentals_preserves(pc: PitchClass, acc: int)
    requires
        !(pc is Absent),
    ensures
        !(spec_add_accidentals(pc, acc).0 is Absent),
        class_degree_of(spec_add_accidentals(pc, acc).0) == class_degree_of(pc),
        class_semitones_of(spec_add_accidentals(pc, acc).0) + spec_add_accidentals(pc, acc).1
            == class_semitones_of(pc) + acc,
        abs_of(spec_add_accidentals(pc, acc).1) <= abs_of(acc),
    decreases abs_of(acc),
{
    if acc != 0 {
        let next = if acc > 0 {
            sharp_of(pc)
        } else {
            flat_of(pc)
        };
        if class_degree_of(next) == class_degree_of(pc) {
            assert(class_semitones_of(next) == class_semitones_of(pc) + sig(acc));
            lemma_add_accidentals_preserves(next, acc - sig(acc));
        }
    }
}

/// The octave correction trades whole octaves for twelves of the
/// accidental budget, leaving their weighted sum unchanged and the budget
/// within a minor seventh.
proof fn lemma_octave_correct_sum(est: int, diff: int)
    ensures
        octave_correct(est, diff).0 * 12 + octave_correct(est, diff).1 == est * 12 + diff,
        -10 <= octave_correct(est, diff).1 <= 10,
    decreases abs_of(diff),
{
    if -10 <= diff <= 10 {
    } else if diff > 0 {
        lemma_octave_correct_sum(est + 1, diff - 12);
    } else {
        lemma_octave_correct_sum(est - 1, diff + 12);
    }
}

/// Transposition is enharmonically exact: when it stays in range, the
/// result's absolute semitone is the source's plus the interval's span,
/// whatever spelling the result takes. The resulting octave stays near the
/// audible range and the resulting class is a real letter.
pub proof fn lemma_add_interval_enharmonic(t: Tuning, iv: Interval)
    requires
        !(t.class is Absent),
        add_ok(t, iv),
    ensures
        !(spec_add_interval(t, iv).class is Absent),
        abs_semitone(spec_add_interval(t, iv)) == abs_semitone(t) + iv.semitones,
        -2 <= spec_add_interval(t, iv).octave <= 11,
{
    let target = add_target(t, iv);
    let est0 = add_est(t, iv);
    let letter = add_letter(t, iv);
    assert(!(letter is Absent));
    let diff0 = target - (class_semitones_of(letter) + (est0 - t.octave) * 12);
    lemma_diff0_bounds(target, t.octave as int, letter);
    lemma_octave_correct_sum(est0, diff0);
    let corrected = octave_correct(est0, diff0);
    assert(-2 <= corrected.0 - est0 <= 1);
    lemma_add_accidentals_preserves(letter, corrected.1);
}

impl Tuning {
    /// Whether the enharmonic simplification of this spelling stays inside
    /// the audible octave range.
    pub open spec fn simple_ok(self) -> bool {
        add_ok(
            Tuning { class: self.class, accidentals: 0, octave: self.octave },
            interval_of_semitones(self.accidentals as int),
        )
    }

    /// The canonical respelling of this pitch: the same class and octave
    /// with no accidentals, transposed by the accidental count through the
    /// raw-semitone decomposition table.
    pub open spec fn spec_simple(self) -> Tuning {
        spec_add_interval(
            Tuning { class: self.class, accidentals: 0, octave: self.octave },
            interval_of_semitones(self.accidentals as int),
        )
    }

    /// Re-derive the canonical (fewest-accidental) spelling of the same
    /// absolute pitch, respelling through the decomposition table.
    pub fn simple(self) -> (r: Self)
        requires
            -127 <= self.accidentals,
            self.simple_ok(),
        ensures
            r == self.spec_simple(),
    {
        let accidentals = self.accidentals;
        let new_tuning = Tuning::new(self.class, self.octave);
        new_tuning.add_interval(&Interval::from_semitones(accidentals).unwrap()).unwrap()
    }
}

/// Enharmonic invariant: simplifying a spelling never changes the pitch.
/// For every tuning whose simplification stays in the octave range, the
/// simplified spelling keeps the absolute semitone number.
pub proof fn lemma_simple_enharmonic(t: Tuning)
    requires
        !(t.class is Absent),
        t.simple_ok(),
    ensures
        abs_semitone(t.spec_simple()) == abs_semitone(t),
{
    let stripped = Tuning { class: t.class, accidentals: 0, octave: t.octave };
    let iv = interval_of_semitones(t.accidentals as int);
    assert(iv.semitones == t.accidentals);
    lemma_add_interval_enharmonic(stripped, iv);
}

/// An interval with the same quality and degree in the opposite direction.
pub open spec fn spec_negated(iv: Interval) -> Interval {
    Interval {
        quality: iv.quality,
        degree: iv.degree,
        semitones: (-(iv.semitones as int)) as i8,
        is_descending: !iv.is_descending,
    }
}

/// Transposition consistency: moving by an interval and back by the same
/// interval negated returns a pitch enharmonically equivalent to the
/// starting one, whenever both steps stay inside the octave range.
pub proof fn lemma_transposition_round_trip(t: Tuning, iv: Interval)
    requires
        !(t.class is Absent),
        iv.wf(),
        add_ok(t, iv),
        add_ok(spec_add_interval(t, iv), spec_negated(iv)),
    ensures
        abs_semitone(spec_add_interval(spec_add_interval(t, iv), spec_negated(iv)))
            == abs_semitone(t),
{
    lemma_add_interval_enharmonic(t, iv);
    lemma_add_interval_enharmonic(spec_add_interval(t, iv), spec_negated(iv));
    assert(spec_negated(iv).semitones == -iv.semitones);
}


/// The pitch class a bare letter names; the absent class for any other
/// character.
pub open spec fn letter_class(c: char) -> PitchClass {
    if c == 'C' {
        PitchClass::C
    } else if c == 'D' {
        PitchClass::D
    } else if c == 'E' {
        PitchClass::E
    } else if c == 'F' {
        PitchClass::F
    } else if c == 'G' {
        PitchClass::G
    } else if c == 'A' {
        PitchClass::A
    } else if c == 'B' {
        PitchClass::B
    } else {
        PitchClass::Absent
    }
}

/// Where the run of accidental marks starting at `j` ends.
pub open spec fn acc_scan_end(s: Seq<char>, j: int) -> int
    decreases s.len() - j,
{
    if 0 <= j < s.len() && (s[j] == '#' || s[j] == 'b') {
        acc_scan_end(s, j + 1)
    } else {
        j
    }
}

/// The signed count of the accidental marks starting at `j`: one up per
/// sharp, one down per flat.
pub open spec fn acc_scan_sum(s: Seq<char>, j: int) -> int
    decreases s.len() - j,
{
    if 0 <= j < s.len() && s[j] == '#' {
        acc_scan_sum(s, j + 1) + 1
    } else if 0 <= j < s.len() && s[j] == 'b' {
        acc_scan_sum(s, j + 1) - 1
    } else {
        0
    }
}

/// What reading a pitch prefix yields: the spelled pitch at octave 4, and
/// how many characters were consumed. The first accidental folds into the
/// pitch class itself; the rest stay as an accidental count.
pub open spec fn spec_take(s: Seq<char>) -> Result<(Tuning, int), MusicError> {
    if s.len() == 0 || letter_class(s[0]) is Absent {
        Err(MusicError::InvalidPitch)
    } else {
        let root0 = letter_class(s[0]);
        let e = acc_scan_end(s, 1);
        let acc = acc_scan_sum(s, 1);
        let cls = if acc > 0 {
            sharp_of(root0)
        } else if acc < 0 {
            flat_of(root0)
        } else {
            root0
        };
        let left = acc - sig(acc);
        if -128 <= left <= 127 {
            Ok((Tuning { class: cls, accidentals: left as i8, octave: 4 }, e))
        } else {
            Err(MusicError::InvalidPitch)
        }
    }
}

impl Tuning {
    /// Read a pitch prefix from a character list: a letter A through G,
    /// then any run of `#` and `b` marks. Returns the pitch (at octave 4)
    /// and the count of characters consumed. Fails with `InvalidPitch` on
    /// an empty list, a foreign first character, or an accidental run too
    /// large to represent.
    pub fn take_chars(v: &Vec<char>) -> (r: Result<(Tuning, usize), MusicError>)
        ensures
            spec_take(v@) matches Ok(q) ==> (r matches Ok(p) && p.0 == q.0 && p.1 == q.1),
            spec_take(v@) is Err ==> (r matches Err(MusicError::InvalidPitch)),
            r matches Ok(p) ==> p.1 <= v@.len(),
    {
        if v.len() == 0 {
            return Err(MusicError::InvalidPitch);
        }
        let c0 = v[0];
        let root0: PitchClass = if c0 == 'C' {
            PitchClass::C
        } else if c0 == 'D' {
            PitchClass::D
        } else if c0 == 'E' {
            PitchClass::E
        } else if c0 == 'F' {
            PitchClass::F
        } else if c0 == 'G' {
            PitchClass::G
        } else if c0 == 'A' {
            PitchClass::A
        } else if c0 == 'B' {
            PitchClass::B
        } else {
            return Err(MusicError::InvalidPitch);
        };
        let n = v.len();
        let mut j: usize = 1;
        let mut plus: usize = 0;
        let mut minus: usize = 0;
        while j < n && (v[j] == '#' || v[j] == 'b')
            invariant
                n == v@.len(),
                1 <= j <= n,
                plus <= j,
                minus <= j,
                acc_scan_end(v@, 1) == acc_scan_end(v@, j as int),
                acc_scan_sum(v@, 1) == acc_scan_sum(v@, j as int) + plus - minus,
            decreases n - j,
        {
            if v[j] == '#' {
                plus = plus + 1;
            } else {
                minus = minus + 1;
            }
            j = j + 1;
        }
        proof {
            assert(acc_scan_end(v@, j as int) == j);
            assert(acc_scan_sum(v@, j as int) == 0);
        }
        if plus == minus {
            return Ok((Tuning { class: root0, accidentals: 0, octave: 4 }, j));
        }
        if plus > minus {
            let mag = plus - minus;
            if mag - 1 > 127 {
                return Err(MusicError::InvalidPitch);
            }
            let acc: i8 = (mag - 1) as i8;
            return Ok((Tuning { class: root0.sharp(), accidentals: acc, octave: 4 }, j));
        }
        let mag = minus - plus;
        if mag - 1 > 128 {
            return Err(MusicError::InvalidPitch);
        }
        let a32: i32 = -((mag - 1) as i32);
        Ok((Tuning { class: root0.flat(), accidentals: a32 as i8, octave: 4 }, j))
    }

    /// Read a pitch prefix from text; trailing characters are ignored.
    pub fn take(s: &str) -> (r: Result<(Tuning, usize), MusicError>)
        ensures
            spec_take(s@) matches Ok(q) ==> (r matches Ok(p) && p.0 == q.0 && p.1 == q.1),
            spec_take(s@) is Err ==> (r matches Err(MusicError::InvalidPitch)),
    {
        let v = chars_of(s);
        Self::take_chars(&v)
    }

    /// Parse a pitch name such as `C#`, `Ebb` or `G`; anything after the
    /// pitch prefix is ignored. The parsed pitch sits at octave 4.
    pub fn from_str(s: &str) -> (r: Result<Tuning, MusicError>)
        ensures
            spec_take(s@) matches Ok(q) ==> (r matches Ok(t) && t == q.0),
            spec_take(s@) is Err ==> (r matches Err(MusicError::InvalidPitch)),
    {
        match Self::take(s) {
            Ok(p) => Ok(p.0),
            Err(e) => Err(e),
        }
    }
}

/// The printed symbol of a pitch class.
pub open spec fn class_symbol(pc: PitchClass) -> Seq<char> {
    match pc {
        PitchClass::Absent => seq!['X'],
        PitchClass::C => seq!['C'],
        PitchClass::Cs => seq!['C', '#'],
        PitchClass::Db => seq!['D', 'b'],
        PitchClass::D => seq!['D'],
        PitchClass::Ds => seq!['D', '#'],
        PitchClass::Eb => seq!['E', 'b'],
        PitchClass::E => seq!['E'],
        PitchClass::F => seq!['F'],
        PitchClass::Fs => seq!['F', '#'],
        PitchClass::Gb => seq!['G', 'b'],
        PitchClass::G => seq!['G'],
        PitchClass::Gs => seq!['G', '#'],
        PitchClass::Ab => seq!['A', 'b'],
        PitchClass::A => seq!['A'],
        PitchClass::As => seq!['A', '#'],
        PitchClass::Bb => seq!['B', 'b'],
        PitchClass::B => seq!['B'],
    }
}

/// The accidental marks a count prints as: sharps for a positive count,
/// flats for a negative one.
pub open spec fn acc_marks(n: int) -> Seq<char>
    decreases abs_of(n),
{
    if n == 0 {
        Seq::<char>::empty()
    } else if n > 0 {
        acc_marks(n - 1).push('#')
    } else {
        acc_marks(n + 1).push('b')
    }
}

impl PitchClass {
    /// The pitch class's printed symbol, such as `C#` or `Eb`.
    pub fn to_string(&self) -> (r: String)
        ensures
            r@ == class_symbol(*self),
    {
        proof {
            reveal_strlit("X");
            reveal_strlit("C");
            reveal_strlit("C#");
            reveal_strlit("Db");
            reveal_strlit("D");
            reveal_strlit("D#");
            reveal_strlit("Eb");
            reveal_strlit("E");
            reveal_strlit("F");
            reveal_strlit("F#");
            reveal_strlit("Gb");
            reveal_strlit("G");
            reveal_strlit("G#");
            reveal_strlit("Ab");
            reveal_strlit("A");
            reveal_strlit("A#");
            reveal_strlit("Bb");
            reveal_strlit("B");
        }
        let out = match self {
            PitchClass::Absent => String::from_str("X"),
            PitchClass::C => String::from_str("C"),
            PitchClass::Cs => String::from_str("C#"),
            PitchClass::Db => String::from_str("Db"),
            PitchClass::D => String::from_str("D"),
            PitchClass::Ds => String::from_str("D#"),
            PitchClass::Eb => String::from_str("Eb"),
            PitchClass::E => String::from_str("E"),
            PitchClass::F => String::from_str("F"),
            PitchClass::Fs => String::from_str("F#"),
            PitchClass::Gb => String::from_str("Gb"),
            PitchClass::G => String::from_str("G"),
            PitchClass::Gs => String::from_str("G#"),
            PitchClass::Ab => String::from_str("Ab"),
            PitchClass::A => String::from_str("A"),
            PitchClass::As => String::from_str("A#"),
            PitchClass::Bb => String::from_str("Bb"),
            PitchClass::B => String::from_str("B"),
        };
        proof {
            assert(out@ =~= class_symbol(*self));
        }
        out
    }
}

impl Tuning {
    /// The pitch's printed symbol: its class followed by its extra
    /// accidental marks, without the octave.
    pub fn to_string(&self) -> (r: String)
        ensures
            r@ == class_symbol(self.class) + acc_marks(self.accidentals as int),
    {
        proof {
            reveal_strlit("#");
            reveal_strlit("b");
        }
        let mut out = self.class.to_string();
        let acc: i32 = self.accidentals as i32;
        if acc > 0 {
            let mut k: i32 = 0;
            while k < acc
                invariant
                    0 < acc <= 127,
                    0 <= k <= acc,
                    out@ == class_symbol(self.class) + acc_marks(k as int),
                decreases acc - k,
            {
                out.append("#");
                proof {
                    reveal_strlit("#");
                    assert(class_symbol(self.class) + acc_marks((k + 1) as int) =~= (
                    class_symbol(self.class) + acc_marks(k as int)).push('#'));
                }
                k = k + 1;
            }
        } else if acc < 0 {
            let mut k: i32 = 0;
            while k > acc
                invariant
                    -128 <= acc < 0,
                    acc <= k <= 0,
                    out@ == class_symbol(self.class) + acc_marks(k as int),
                decreases k - acc,
            {
                out.append("b");
                proof {
                    reveal_strlit("b");
                    assert(class_symbol(self.class) + acc_marks((k - 1) as int) =~= (
                    class_symbol(self.class) + acc_marks(k as int)).push('b'));
                }
                k = k - 1;
            }
        }
        proof {
            assert(acc_marks(0) =~= Seq::<char>::empty());
            assert(class_symbol(self.class) + acc_marks(0) =~= class_symbol(self.class));
        }
        out
    }
}

} // verus!
