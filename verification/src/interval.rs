//! Musical intervals: quality + degree + signed semitone count.
//!
//! An interval is the distance between two pitches, classified by its
//! diatonic degree (second, third, ...) and its quality (perfect, major,
//! minor, augmented, diminished). Not every combination is valid: perfect
//! applies only to degrees 1, 4 and 5 (mod octave), major/minor only to the
//! others. The semitone count is always derivable from quality and degree
//! through the standard diatonic table.

use vstd::prelude::*;

use crate::errors::MusicError;
use crate::tuning::PitchClass;
use crate::tuning::class_index;
use crate::tuning::class_index_of;
use vstd::string::StrSliceExecFns;
use vstd::string::StringExecFns;

verus! {

/// Semitones of a perfect unison.
pub const UNISON: i8 = 0;
/// Semitones of a minor second.
pub const MINOR_SECOND: i8 = 1;
/// Semitones of a major second.
pub const MAJOR_SECOND: i8 = 2;
/// Semitones of a minor third.
pub const MINOR_THIRD: i8 = 3;
/// Semitones of a major third.
pub const MAJOR_THIRD: i8 = 4;
/// Semitones of a perfect fourth.
pub const PERFECT_FOURTH: i8 = 5;
/// Semitones of a tritone.
pub const TRITONE: i8 = 6;
/// Semitones of a perfect fifth.
pub const PERFECT_FIFTH: i8 = 7;
/// Semitones of a minor sixth.
pub const MINOR_SIXTH: i8 = 8;
/// Semitones of a major sixth.
pub const MAJOR_SIXTH: i8 = 9;
/// Semitones of a minor seventh.
pub const MINOR_SEVENTH: i8 = 10;
/// Semitones of a major seventh.
pub const MAJOR_SEVENTH: i8 = 11;
/// Semitones of a perfect octave.
pub const OCTAVE: i8 = 12;

/// The quality component of an interval.
#[derive(Debug, Clone, Copy, PartialEq, Eq, Structural)]
pub enum IntervalQuality {
    /// Perfect intervals (unison, fourth, fifth, octave).
    Perfect,
    /// Major intervals (seconds, thirds, sixths, sevenths).
    Major,
    /// Minor intervals (one semitone smaller than major).
    Minor,
    /// Augmented intervals (one semitone larger than perfect or major).
    Augmented,
    /// Diminished intervals (one semitone smaller than perfect or minor).
    Diminished,
}

/// Consonance category of an interval.
#[derive(Debug, Clone, Copy, PartialEq, Eq, Structural)]
pub enum Consonance {
    /// Perfect consonances (unison, fourth, fifth, octave): highly stable.
    Consonant,
    /// Imperfect consonances (thirds, sixths): moderately stable.
    Imperfect,
    /// Dissonances (seconds, sevenths, tritone): unstable.
    Dissonant,
}

/// Degree of an interval: a 1-based diatonic step count. Compound degrees
/// above 8 are allowed, up to 127.
#[derive(Debug, Clone, Copy, PartialEq, Eq, Structural)]
pub struct IntervalDegree(pub u8);

/// An interval: quality, degree, actual semitone count, and direction.
#[derive(Debug, Clone, Copy, PartialEq, Eq, Structural)]
pub struct Interval {
    /// The interval quality.
    pub quality: IntervalQuality,
    /// The 1-based diatonic degree.
    pub degree: IntervalDegree,
    /// Actual number of semitones, negative for descending intervals.
    pub semitones: i8,
    /// Whether the interval descends from its root.
    pub is_descending: bool,
}

/// The degree's place within its octave, in 1..=7 (a ninth reduces to 2).
pub open spec fn degree_in_octave(degree: int) -> int {
    ((degree - 1) % 7) + 1
}

/// Natural (major/perfect) semitone count of a degree-in-octave, from the
/// standard diatonic table 1..7 -> 0, 2, 4, 5, 7, 9, 11.
pub open spec fn base_semitones_of(d: int) -> int {
    if d == 2 {
        2
    } else if d == 3 {
        4
    } else if d == 4 {
        5
    } else if d == 5 {
        7
    } else if d == 6 {
        9
    } else if d == 7 {
        11
    } else {
        0
    }
}

/// Whether the degree admits a perfect quality (unison, fourth, fifth, and
/// their compounds).
pub open spec fn is_perfect_capable(degree: int) -> bool {
    degree_in_octave(degree) == 1 || degree_in_octave(degree) == 4 || degree_in_octave(degree)
        == 5
}

/// Whether the quality/degree combination names a real interval.
pub open spec fn quality_fits_degree(quality: IntervalQuality, degree: int) -> bool {
    match quality {
        IntervalQuality::Perfect => is_perfect_capable(degree),
        IntervalQuality::Major => !is_perfect_capable(degree),
        IntervalQuality::Minor => !is_perfect_capable(degree),
        IntervalQuality::Augmented => true,
        IntervalQuality::Diminished => true,
    }
}

/// Semitone adjustment a quality applies to the degree's natural count.
pub open spec fn quality_adjustment(quality: IntervalQuality, degree: int) -> int {
    match quality {
        IntervalQuality::Perfect => 0,
        IntervalQuality::Major => 0,
        IntervalQuality::Minor => -1,
        IntervalQuality::Augmented => 1,
        IntervalQuality::Diminished => if is_perfect_capable(degree) {
            -1
        } else {
            -2
        },
    }
}

/// Semitone count of a valid quality/degree pair: twelve per full octave of
/// the compound degree, plus the natural count, plus the quality adjustment.
pub open spec fn semitones_of(quality: IntervalQuality, degree: int) -> int {
    12 * ((degree - 1) / 7) + base_semitones_of(degree_in_octave(degree)) + quality_adjustment(
        quality,
        degree,
    )
}

/// The interval with the given quality, degree and semitone count,
/// ascending. Used to state contracts compactly.
pub open spec fn named_interval(q: IntervalQuality, d: u8, s: i8) -> Interval {
    Interval { quality: q, degree: IntervalDegree(d), semitones: s, is_descending: false }
}

/// Absolute value, for spec arithmetic.
pub open spec fn abs_of(s: int) -> int {
    if s < 0 {
        -s
    } else {
        s
    }
}

/// Canonical quality of a pitch-class distance (0..=11 semitones). The
/// tritone is ambiguous and resolves by direction: descending to a
/// diminished fifth, ascending to an augmented fourth.
pub open spec fn pitch_class_quality(c: int, descending: bool) -> IntervalQuality {
    if c == 0 || c == 5 || c == 7 {
        IntervalQuality::Perfect
    } else if c == 1 || c == 3 || c == 8 || c == 10 {
        IntervalQuality::Minor
    } else if c == 2 || c == 4 || c == 9 || c == 11 {
        IntervalQuality::Major
    } else if descending {
        IntervalQuality::Diminished
    } else {
        IntervalQuality::Augmented
    }
}

/// Canonical degree of a pitch-class distance (0..=11 semitones), before
/// compounding by octaves.
pub open spec fn pitch_class_degree(c: int, descending: bool) -> int {
    if c == 0 {
        1
    } else if c == 1 || c == 2 {
        2
    } else if c == 3 || c == 4 {
        3
    } else if c == 5 {
        4
    } else if c == 6 {
        if descending {
            5
        } else {
            4
        }
    } else if c == 7 {
        5
    } else if c == 8 || c == 9 {
        6
    } else {
        7
    }
}

/// The interval that `from_semitones` decomposes a raw semitone count into.
pub open spec fn interval_of_semitones(s: int) -> Interval {
    Interval {
        quality: pitch_class_quality(abs_of(s) % 12, s < 0),
        degree: IntervalDegree((pitch_class_degree(abs_of(s) % 12, s < 0) + 7 * (abs_of(s)
            / 12)) as u8),
        semitones: s as i8,
        is_descending: s < 0,
    }
}

impl IntervalDegree {
    /// Validates a 1-based interval degree.
    pub fn new(degree: u8) -> (r: Result<Self, MusicError>)
        ensures
            r is Ok <==> 1 <= degree <= 127,
            r matches Ok(d) ==> d.0 == degree,
            !(1 <= degree <= 127) ==> (r matches Err(e) && e matches MusicError::InvalidIntervalDegree { degree: d } && d == degree),
    {
        if degree < 1 || degree > 127 {
            return Err(MusicError::InvalidIntervalDegree { degree });
        }
        Ok(Self(degree))
    }
}

impl Interval {
    /// Well-formedness: the degree is in range and the semitone count can be
    /// negated without leaving `i8`. Every constructor establishes this and
    /// every transform preserves it.
    pub open spec fn wf(self) -> bool {
        &&& 1 <= self.degree.0 <= 127
        &&& -127 <= self.semitones
    }

    /// The interval's signed semitone count.
    pub fn semitones(&self) -> (r: i8)
        ensures
            r == self.semitones,
    {
        self.semitones
    }

    /// Create an interval from a quality and degree combination.
    ///
    /// Fails with `InvalidIntervalDegree` when the degree leaves 1..=127 or
    /// the semitone count would not fit the representation, and with
    /// `InvalidIntervalQuality` when the quality does not fit the degree
    /// (for example a major fifth).
    pub fn from_quality_degree(quality: IntervalQuality, degree: u8) -> (r: Result<
        Self,
        MusicError,
    >)
        ensures
            r == spec_from_quality_degree(quality, degree),
            r is Ok <==> (1 <= degree <= 127 && quality_fits_degree(quality, degree as int)
                && semitones_of(quality, degree as int) <= 127),
            r matches Ok(iv) ==> {
                &&& iv.quality == quality
                &&& iv.degree == IntervalDegree(degree)
                &&& iv.semitones == semitones_of(quality, degree as int)
                &&& iv.is_descending == false
                &&& iv.wf()
            },
            !(1 <= degree <= 127) ==> (r matches Err(e) && e matches MusicError::InvalidIntervalDegree { degree: d } && d == degree),
            (1 <= degree <= 127 && !quality_fits_degree(quality, degree as int)) ==> (r matches Err(MusicError::InvalidIntervalQuality)),
            (1 <= degree <= 127 && quality_fits_degree(quality, degree as int)
                && semitones_of(quality, degree as int) > 127) ==> (r matches Err(e) && e matches MusicError::InvalidIntervalDegree { degree: d } && d == degree),
    {
        let deg = match IntervalDegree::new(degree) {
            Ok(d) => d,
            Err(e) => {
                return Err(e);
            },
        };
        let d0: u32 = (degree - 1) as u32;
        let d_oct: u32 = d0 % 7 + 1;
        let octaves: u32 = d0 / 7;
        let base: u32 = if d_oct == 2 {
            2
        } else if d_oct == 3 {
            4
        } else if d_oct == 4 {
            5
        } else if d_oct == 5 {
            7
        } else if d_oct == 6 {
            9
        } else if d_oct == 7 {
            11
        } else {
            0
        };
        let capable: bool = d_oct == 1 || d_oct == 4 || d_oct == 5;
        let adjustment: i32 = match quality {
            IntervalQuality::Perfect => {
                if capable {
                    0
                } else {
                    return Err(MusicError::InvalidIntervalQuality);
                }
            },
            IntervalQuality::Major => {
                if !capable {
                    0
                } else {
                    return Err(MusicError::InvalidIntervalQuality);
                }
            },
            IntervalQuality::Minor => {
                if !capable {
                    -1
                } else {
                    return Err(MusicError::InvalidIntervalQuality);
                }
            },
            IntervalQuality::Augmented => 1,
            IntervalQuality::Diminished => {
                if capable {
                    -1
                } else {
                    -2
                }
            },
        };
        let semis: i32 = 12 * (octaves as i32) + (base as i32) + adjustment;
        if semis > 127 {
            return Err(MusicError::InvalidIntervalDegree { degree });
        }
        Ok(
            Interval {
                quality,
                degree: deg,
                semitones: semis as i8,
                is_descending: false,
            },
        )
    }
}

impl Interval {
    /// The semitone count reduced to a pitch class, in 0..=11.
    pub fn semitones_mod(&self) -> (r: i8)
        ensures
            r == (self.semitones as int) % 12,
    {
        if self.semitones >= 0 {
            ((self.semitones as u32) % 12) as i8
        } else {
            let m: u32 = ((-(self.semitones as i32)) as u32) % 12;
            if m == 0 {
                0
            } else {
                (12 - m) as i8
            }
        }
    }

    /// Decompose a raw semitone count into its canonical quality and degree,
    /// compounding degrees past the octave. Always succeeds.
    pub fn from_semitones(semitones: i8) -> (r: Result<Self, MusicError>)
        requires
            -127 <= semitones,
        ensures
            r matches Ok(iv) && iv == interval_of_semitones(semitones as int),
            r matches Ok(iv) && iv.wf(),
    {
        let neg = semitones < 0;
        let a: u32 = if semitones >= 0 {
            semitones as u32
        } else {
            (-(semitones as i32)) as u32
        };
        let abs_semi: u32 = a % 12;
        let octaves: u32 = a / 12;
        let (quality, degree): (IntervalQuality, u8) = if abs_semi == 0 {
            (IntervalQuality::Perfect, 1)
        } else if abs_semi == 1 {
            (IntervalQuality::Minor, 2)
        } else if abs_semi == 2 {
            (IntervalQuality::Major, 2)
        } else if abs_semi == 3 {
            (IntervalQuality::Minor, 3)
        } else if abs_semi == 4 {
            (IntervalQuality::Major, 3)
        } else if abs_semi == 5 {
            (IntervalQuality::Perfect, 4)
        } else if abs_semi == 6 {
            if neg {
                (IntervalQuality::Diminished, 5)
            } else {
                (IntervalQuality::Augmented, 4)
            }
        } else if abs_semi == 7 {
            (IntervalQuality::Perfect, 5)
        } else if abs_semi == 8 {
            (IntervalQuality::Minor, 6)
        } else if abs_semi == 9 {
            (IntervalQuality::Major, 6)
        } else if abs_semi == 10 {
            (IntervalQuality::Minor, 7)
        } else {
            (IntervalQuality::Major, 7)
        };
        Ok(
            Interval {
                quality,
                degree: IntervalDegree(degree + (octaves as u8) * 7),
                semitones,
                is_descending: neg,
            },
        )
    }

    /// Like `from_semitones`; kept for callers that want the value directly.
    pub fn from_semitones_unchecked(semitones: i8) -> (r: Self)
        requires
            -127 <= semitones,
        ensures
            r == interval_of_semitones(semitones as int),
            r.wf(),
    {
        match Self::from_semitones(semitones) {
            Ok(iv) => iv,
            Err(_) => Self::unison(),
        }
    }

    /// Create a perfect unison (0 semitones).
    pub fn unison() -> (r: Self)
        ensures
            r == named_interval(IntervalQuality::Perfect, 1, 0),
            r.wf(),
    {
        Self::from_quality_degree(IntervalQuality::Perfect, 1).unwrap()
    }

    /// Create a minor second (1 semitone).
    pub fn minor_second() -> (r: Self)
        ensures
            r == named_interval(IntervalQuality::Minor, 2, 1),
            r.wf(),
    {
        Self::from_quality_degree(IntervalQuality::Minor, 2).unwrap()
    }

    /// Create a major second (2 semitones).
    pub fn major_second() -> (r: Self)
        ensures
            r == named_interval(IntervalQuality::Major, 2, 2),
            r.wf(),
    {
        Self::from_quality_degree(IntervalQuality::Major, 2).unwrap()
    }

    /// Create a minor third (3 semitones).
    pub fn minor_third() -> (r: Self)
        ensures
            r == named_interval(IntervalQuality::Minor, 3, 3),
            r.wf(),
    {
        Self::from_quality_degree(IntervalQuality::Minor, 3).unwrap()
    }

    /// Create a major third (4 semitones).
    pub fn major_third() -> (r: Self)
        ensures
            r == named_interval(IntervalQuality::Major, 3, 4),
            r.wf(),
    {
        Self::from_quality_degree(IntervalQuality::Major, 3).unwrap()
    }

    /// Create a perfect fourth (5 semitones).
    pub fn perfect_fourth() -> (r: Self)
        ensures
            r == named_interval(IntervalQuality::Perfect, 4, 5),
            r.wf(),
    {
        Self::from_quality_degree(IntervalQuality::Perfect, 4).unwrap()
    }

    /// Create a tritone as augmented fourth (6 semitones).
    pub fn augmented_fourth() -> (r: Self)
        ensures
            r == named_interval(IntervalQuality::Augmented, 4, 6),
            r.wf(),
    {
        Self::from_quality_degree(IntervalQuality::Augmented, 4).unwrap()
    }

    /// Create a tritone as diminished fifth (6 semitones).
    pub fn diminished_fifth() -> (r: Self)
        ensures
            r == named_interval(IntervalQuality::Diminished, 5, 6),
            r.wf(),
    {
        Self::from_quality_degree(IntervalQuality::Diminished, 5).unwrap()
    }

    /// Create a perfect fifth (7 semitones).
    pub fn perfect_fifth() -> (r: Self)
        ensures
            r == named_interval(IntervalQuality::Perfect, 5, 7),
            r.wf(),
    {
        Self::from_quality_degree(IntervalQuality::Perfect, 5).unwrap()
    }

    /// Create a minor sixth (8 semitones).
    pub fn minor_sixth() -> (r: Self)
        ensures
            r == named_interval(IntervalQuality::Minor, 6, 8),
            r.wf(),
    {
        Self::from_quality_degree(IntervalQuality::Minor, 6).unwrap()
    }

    /// Create a major sixth (9 semitones).
    pub fn major_sixth() -> (r: Self)
        ensures
            r == named_interval(IntervalQuality::Major, 6, 9),
            r.wf(),
    {
        Self::from_quality_degree(IntervalQuality::Major, 6).unwrap()
    }

    /// Create a minor seventh (10 semitones).
    pub fn minor_seventh() -> (r: Self)
        ensures
            r == named_interval(IntervalQuality::Minor, 7, 10),
            r.wf(),
    {
        Self::from_quality_degree(IntervalQuality::Minor, 7).unwrap()
    }

    /// Create a major seventh (11 semitones).
    pub fn major_seventh() -> (r: Self)
        ensures
            r == named_interval(IntervalQuality::Major, 7, 11),
            r.wf(),
    {
        Self::from_quality_degree(IntervalQuality::Major, 7).unwrap()
    }

    /// Create a perfect octave (12 semitones).
    pub fn octave() -> (r: Self)
        ensures
            r == named_interval(IntervalQuality::Perfect, 8, 12),
            r.wf(),
    {
        Self::from_quality_degree(IntervalQuality::Perfect, 8).unwrap()
    }

    /// Create a tritone (6 semitones), spelled as an augmented fourth.
    pub fn tritone() -> (r: Self)
        ensures
            r == named_interval(IntervalQuality::Augmented, 4, 6),
            r.wf(),
    {
        Self::augmented_fourth()
    }
}

impl Interval {
    /// The interval between two pitch classes, measured by their positions
    /// in the chromatic listing of the enum.
    pub fn between(start: PitchClass, end: PitchClass) -> (r: Self)
        ensures
            r == interval_of_semitones(class_index(end) - class_index(start)),
            r.wf(),
    {
        let semitones: i8 = class_index_of(end) - class_index_of(start);
        Self::from_semitones_unchecked(semitones)
    }

    /// The interval spanning the sum of this interval's and another's
    /// semitones, in canonical spelling.
    pub fn plus(self, rhs: Self) -> (r: Self)
        requires
            -127 <= self.semitones + rhs.semitones <= 127,
        ensures
            r == interval_of_semitones(self.semitones + rhs.semitones),
            r.wf(),
    {
        let s: i32 = (self.semitones as i32) + (rhs.semitones as i32);
        Self::from_semitones_unchecked(s as i8)
    }

    /// The interval spanning the difference of this interval's and
    /// another's semitones, in canonical spelling.
    pub fn minus(self, rhs: Self) -> (r: Self)
        requires
            -127 <= self.semitones - rhs.semitones <= 127,
        ensures
            r == interval_of_semitones(self.semitones - rhs.semitones),
            r.wf(),
    {
        let s: i32 = (self.semitones as i32) - (rhs.semitones as i32);
        Self::from_semitones_unchecked(s as i8)
    }

    /// The interval scaled by a factor: a major third doubled is a minor
    /// sixth's span.
    pub fn times(self, rhs: i8) -> (r: Self)
        requires
            -127 <= self.semitones * rhs <= 127,
        ensures
            r == interval_of_semitones(self.semitones * rhs),
            r.wf(),
    {
        let s: i32 = (self.semitones as i32) * (rhs as i32);
        assert(-127 <= s <= 127);
        Self::from_semitones_unchecked(s as i8)
    }
}

/// The character of a decimal digit.
pub open spec fn digit_char(d: int) -> char {
    if d == 0 {
        '0'
    } else if d == 1 {
        '1'
    } else if d == 2 {
        '2'
    } else if d == 3 {
        '3'
    } else if d == 4 {
        '4'
    } else if d == 5 {
        '5'
    } else if d == 6 {
        '6'
    } else if d == 7 {
        '7'
    } else if d == 8 {
        '8'
    } else {
        '9'
    }
}

/// The decimal numeral of a byte-sized number, without leading zeros.
pub open spec fn spec_decimal(n: int) -> Seq<char> {
    if n < 10 {
        seq![digit_char(n)]
    } else if n < 100 {
        seq![digit_char(n / 10), digit_char(n % 10)]
    } else {
        seq![digit_char(n / 100), digit_char((n / 10) % 10), digit_char(n % 10)]
    }
}

/// The shorthand prefix of an interval quality.
pub open spec fn quality_prefix(q: IntervalQuality) -> Seq<char> {
    match q {
        IntervalQuality::Perfect => seq!['P'],
        IntervalQuality::Major => seq!['M'],
        IntervalQuality::Minor => seq!['m'],
        IntervalQuality::Augmented => seq!['A', 'u', 'g'],
        IntervalQuality::Diminished => seq!['D', 'i', 'm'],
    }
}

/// The shorthand name of an interval: quality prefix then degree.
pub open spec fn spec_interval_name(iv: Interval) -> Seq<char> {
    quality_prefix(iv.quality) + spec_decimal(iv.degree.0 as int)
}

/// Append one decimal digit to a string.
fn push_digit(out: &mut String, d: u8)
    requires
        d <= 9,
    ensures
        final(out)@ == old(out)@.push(digit_char(d as int)),
{
    proof {
        reveal_strlit("0");
        reveal_strlit("1");
        reveal_strlit("2");
        reveal_strlit("3");
        reveal_strlit("4");
        reveal_strlit("5");
        reveal_strlit("6");
        reveal_strlit("7");
        reveal_strlit("8");
        reveal_strlit("9");
    }
    match d {
        0 => out.append("0"),
        1 => out.append("1"),
        2 => out.append("2"),
        3 => out.append("3"),
        4 => out.append("4"),
        5 => out.append("5"),
        6 => out.append("6"),
        7 => out.append("7"),
        8 => out.append("8"),
        _ => out.append("9"),
    }
    proof {
        assert(final(out)@ =~= old(out)@.push(digit_char(d as int)));
    }
}

impl Interval {
    /// The interval's shorthand name, such as `M3`, `m6`, `Aug4`, `Dim5`.
    pub fn name(&self) -> (r: String)
        ensures
            r@ == spec_interval_name(*self),
    {
        let mut out = String::new();
        proof {
            reveal_strlit("P");
            reveal_strlit("M");
            reveal_strlit("m");
            reveal_strlit("Aug");
            reveal_strlit("Dim");
        }
        match self.quality {
            IntervalQuality::Perfect => out.append("P"),
            IntervalQuality::Major => out.append("M"),
            IntervalQuality::Minor => out.append("m"),
            IntervalQuality::Augmented => out.append("Aug"),
            IntervalQuality::Diminished => out.append("Dim"),
        }
        proof {
            assert(out@ =~= quality_prefix(self.quality));
        }
        let d = self.degree.0;
        if d >= 100 {
            push_digit(&mut out, d / 100);
            push_digit(&mut out, (d / 10) % 10);
            push_digit(&mut out, d % 10);
        } else if d >= 10 {
            push_digit(&mut out, d / 10);
            push_digit(&mut out, d % 10);
        } else {
            push_digit(&mut out, d);
        }
        proof {
            assert(out@ =~= spec_interval_name(*self));
        }
        out
    }
}

/// The quality shorthand at the head of an interval name, with the length
/// of the prefix it occupies.
pub open spec fn interval_prefix(t: Seq<char>) -> Option<(IntervalQuality, int)> {
    if t.len() >= 1 && t[0] == 'P' {
        Some((IntervalQuality::Perfect, 1int))
    } else if t.len() >= 3 && t[0] == 'A' && t[1] == 'u' && t[2] == 'g' {
        Some((IntervalQuality::Augmented, 3int))
    } else if t.len() >= 3 && t[0] == 'D' && t[1] == 'i' && t[2] == 'm' {
        Some((IntervalQuality::Diminished, 3int))
    } else if t.len() >= 1 && t[0] == 'M' {
        Some((IntervalQuality::Major, 1int))
    } else if t.len() >= 1 && t[0] == 'm' {
        Some((IntervalQuality::Minor, 1int))
    } else {
        None
    }
}

/// What interval construction from a quality/degree pair returns.
pub open spec fn spec_from_quality_degree(quality: IntervalQuality, degree: u8) -> Result<
    Interval,
    MusicError,
> {
    if !(1 <= degree <= 127) {
        Err(MusicError::InvalidIntervalDegree { degree })
    } else if !quality_fits_degree(quality, degree as int) {
        Err(MusicError::InvalidIntervalQuality)
    } else if semitones_of(quality, degree as int) > 127 {
        Err(MusicError::InvalidIntervalDegree { degree })
    } else {
        Ok(
            Interval {
                quality,
                degree: IntervalDegree(degree),
                semitones: semitones_of(quality, degree as int) as i8,
                is_descending: false,
            },
        )
    }
}

impl Interval {
    /// Parse an interval name of the form `P5`, `M3`, `m6`, `Aug4` or
    /// `Dim5`, ignoring surrounding whitespace. A malformed name fails
    /// with a parse error carrying the trimmed text; a well-formed name of
    /// an impossible interval fails as quality/degree construction does.
    pub fn try_from(s: &str) -> (r: Result<Interval, MusicError>)
        ensures
            ({
                let t = crate::text::spec_trim(s@);
                match interval_prefix(t) {
                    Some(p) => match crate::text::parse_u8_value(
                        t.subrange(p.1, t.len() as int),
                    ) {
                        Some(d) => r == spec_from_quality_degree(p.0, d as u8),
                        None => r matches Err(MusicError::IntervalParseError { name })
                            && name@ == t,
                    },
                    None => r matches Err(MusicError::IntervalParseError { name }) && name@ == t,
                }
            }),
    {
        let v = crate::text::chars_of(s);
        let bounds = crate::text::trim_bounds(&v);
        let a = bounds.0;
        let b = bounds.1;
        let ghost t = crate::text::spec_trim(s@);
        proof {
            assert(t == v@.subrange(a as int, b as int));
        }
        let len = b - a;
        let quality_and_used: Option<(IntervalQuality, usize)> = if len >= 1 && v[a] == 'P' {
            Some((IntervalQuality::Perfect, 1))
        } else if len >= 3 && v[a] == 'A' && v[a + 1] == 'u' && v[a + 2] == 'g' {
            Some((IntervalQuality::Augmented, 3))
        } else if len >= 3 && v[a] == 'D' && v[a + 1] == 'i' && v[a + 2] == 'm' {
            Some((IntervalQuality::Diminished, 3))
        } else if len >= 1 && v[a] == 'M' {
            Some((IntervalQuality::Major, 1))
        } else if len >= 1 && v[a] == 'm' {
            Some((IntervalQuality::Minor, 1))
        } else {
            None
        };
        match quality_and_used {
            Some((quality, used)) => {
                proof {
                    assert(interval_prefix(t) == Some((quality, used as int)));
                    assert(t.subrange(used as int, t.len() as int) =~= v@.subrange(
                        (a + used) as int,
                        b as int,
                    ));
                }
                match crate::text::parse_u8_range(&v, a + used, b) {
                    Some(d) => Self::from_quality_degree(quality, d),
                    None => {
                        let name = s.substring_char(a, b).to_owned();
                        Err(MusicError::IntervalParseError { name })
                    },
                }
            },
            None => {
                proof {
                    assert(interval_prefix(t) is None);
                }
                let name = s.substring_char(a, b).to_owned();
                Err(MusicError::IntervalParseError { name })
            },
        }
    }
}

/// The quality an interval takes when inverted: major and minor swap,
/// augmented and diminished swap, perfect stays perfect.
pub open spec fn quality_inverted(q: IntervalQuality) -> IntervalQuality {
    match q {
        IntervalQuality::Perfect => IntervalQuality::Perfect,
        IntervalQuality::Major => IntervalQuality::Minor,
        IntervalQuality::Minor => IntervalQuality::Major,
        IntervalQuality::Augmented => IntervalQuality::Diminished,
        IntervalQuality::Diminished => IntervalQuality::Augmented,
    }
}

impl Interval {
    /// Invert the interval to its degree complement: a major third becomes
    /// a minor sixth, a perfect fifth a perfect fourth. The semitone count
    /// negates and the direction flips.
    pub fn invert(&self) -> (r: Self)
        requires
            self.wf(),
        ensures
            r.quality == quality_inverted(self.quality),
            r.degree.0 == 9 - ((self.degree.0 as int) % 7),
            r.semitones == -self.semitones,
            r.is_descending == !self.is_descending,
            r.wf(),
    {
        let inverted_quality = match self.quality {
            IntervalQuality::Perfect => IntervalQuality::Perfect,
            IntervalQuality::Major => IntervalQuality::Minor,
            IntervalQuality::Minor => IntervalQuality::Major,
            IntervalQuality::Augmented => IntervalQuality::Diminished,
            IntervalQuality::Diminished => IntervalQuality::Augmented,
        };
        let new_degree: u8 = 9 - (self.degree.0 % 7);
        Interval {
            quality: inverted_quality,
            degree: IntervalDegree(new_degree),
            semitones: -self.semitones,
            is_descending: !self.is_descending,
        }
    }

    /// The same interval in the opposite direction: an ascending major
    /// third becomes a descending major third.
    pub fn negate(&self) -> (r: Self)
        requires
            self.wf(),
        ensures
            r.quality == self.quality,
            r.degree == self.degree,
            r.semitones == -self.semitones,
            r.is_descending == !self.is_descending,
            r.wf(),
    {
        Interval {
            semitones: -self.semitones,
            is_descending: !self.is_descending,
            ..*self
        }
    }

    /// Consonance classification as a pure function of degree (mod 7) and
    /// quality: perfect unisons, fourths, fifths and octaves are consonant;
    /// major and minor thirds and sixths are imperfect consonances;
    /// everything else is dissonant.
    pub open spec fn spec_consonance(self) -> Consonance {
        let d = (self.degree.0 as int) % 7;
        if (d == 1 || d == 4 || d == 5) && self.quality is Perfect {
            Consonance::Consonant
        } else if (d == 3 || d == 6) && (self.quality is Major || self.quality is Minor) {
            Consonance::Imperfect
        } else {
            Consonance::Dissonant
        }
    }

    /// Determine the consonance category of the interval.
    pub fn consonance(&self) -> (r: Consonance)
        ensures
            r == self.spec_consonance(),
    {
        let d: u8 = self.degree.0 % 7;
        if (d == 1 || d == 4 || d == 5) && matches!(self.quality, IntervalQuality::Perfect) {
            Consonance::Consonant
        } else if (d == 3 || d == 6) && matches!(
            self.quality,
            IntervalQuality::Major | IntervalQuality::Minor,
        ) {
            Consonance::Imperfect
        } else {
            Consonance::Dissonant
        }
    }

    /// Check for a perfect consonance: unison, perfect fifth or octave.
    pub fn is_perfect_consonance(&self) -> (r: bool)
        ensures
            r == (self.spec_consonance() is Consonant && self.quality is Perfect && (
            (self.degree.0 as int) % 7 == 1 || (self.degree.0 as int) % 7 == 5 || (self.degree.0
                as int) % 7 == 0)),
    {
        let d: u8 = self.degree.0 % 7;
        matches!(self.consonance(), Consonance::Consonant) && matches!(
            self.quality,
            IntervalQuality::Perfect,
        ) && (d == 1 || d == 5 || d == 0)
    }

    /// Check for an imperfect consonance: a major or minor third or sixth.
    pub fn is_imperfect_consonance(&self) -> (r: bool)
        ensures
            r == (self.spec_consonance() is Imperfect),
    {
        matches!(self.consonance(), Consonance::Imperfect)
    }

    /// Check whether the interval is dissonant.
    pub fn is_dissonant(&self) -> (r: bool)
        ensures
            r == (self.spec_consonance() is Dissonant),
    {
        matches!(self.consonance(), Consonance::Dissonant)
    }

    /// Check whether the interval's quality is perfect.
    pub fn is_perfect(&self) -> (r: bool)
        ensures
            r == (self.quality is Perfect),
    {
        matches!(self.quality, IntervalQuality::Perfect)
    }

    /// Check whether the interval's quality is major.
    pub fn is_major(&self) -> (r: bool)
        ensures
            r == (self.quality is Major),
    {
        matches!(self.quality, IntervalQuality::Major)
    }

    /// Check whether the interval's quality is minor.
    pub fn is_minor(&self) -> (r: bool)
        ensures
            r == (self.quality is Minor),
    {
        matches!(self.quality, IntervalQuality::Minor)
    }

    /// Check whether the interval's quality is augmented.
    pub fn is_augmented(&self) -> (r: bool)
        ensures
            r == (self.quality is Augmented),
    {
        matches!(self.quality, IntervalQuality::Augmented)
    }

    /// Check whether the interval's quality is diminished.
    pub fn is_diminished(&self) -> (r: bool)
        ensures
            r == (self.quality is Diminished),
    {
        matches!(self.quality, IntervalQuality::Diminished)
    }

    /// Check for a simple interval: one that spans at most an octave.
    pub fn is_simple(&self) -> (r: bool)
        ensures
            r == (abs_of(self.semitones as int) <= 12),
    {
        -12 <= self.semitones && self.semitones <= 12
    }

    /// Check for a compound interval: one that spans more than an octave.
    pub fn is_compound(&self) -> (r: bool)
        ensures
            r == (abs_of(self.semitones as int) > 12),
    {
        self.semitones < -12 || self.semitones > 12
    }

    /// All perfect consonances within an octave.
    pub fn perfect_consonances() -> (r: Vec<Self>)
        ensures
            r@ =~= seq![
                named_interval(IntervalQuality::Perfect, 1, 0),
                named_interval(IntervalQuality::Perfect, 5, 7),
                named_interval(IntervalQuality::Perfect, 8, 12),
            ],
    {
        vec![Self::unison(), Self::perfect_fifth(), Self::octave()]
    }

    /// All imperfect consonances within an octave.
    pub fn imperfect_consonances() -> (r: Vec<Self>)
        ensures
            r@ =~= seq![
                named_interval(IntervalQuality::Minor, 3, 3),
                named_interval(IntervalQuality::Major, 3, 4),
                named_interval(IntervalQuality::Minor, 6, 8),
                named_interval(IntervalQuality::Major, 6, 9),
            ],
    {
        vec![
            Self::minor_third(),
            Self::major_third(),
            Self::minor_sixth(),
            Self::major_sixth(),
        ]
    }

    /// All consonant intervals within an octave, perfect then imperfect.
    pub fn consonant_intervals() -> (r: Vec<Self>)
        ensures
            r@ =~= seq![
                named_interval(IntervalQuality::Perfect, 1, 0),
                named_interval(IntervalQuality::Perfect, 5, 7),
                named_interval(IntervalQuality::Perfect, 8, 12),
                named_interval(IntervalQuality::Minor, 3, 3),
                named_interval(IntervalQuality::Major, 3, 4),
                named_interval(IntervalQuality::Minor, 6, 8),
                named_interval(IntervalQuality::Major, 6, 9),
            ],
    {
        let mut intervals = Self::perfect_consonances();
        let mut imperfect = Self::imperfect_consonances();
        intervals.append(&mut imperfect);
        intervals
    }

    /// All dissonant intervals within an octave. The perfect fourth is
    /// listed here too: in some contexts it is treated as a dissonance.
    pub fn dissonant_intervals() -> (r: Vec<Self>)
        ensures
            r@ =~= seq![
                named_interval(IntervalQuality::Minor, 2, 1),
                named_interval(IntervalQuality::Major, 2, 2),
                named_interval(IntervalQuality::Perfect, 4, 5),
                named_interval(IntervalQuality::Augmented, 4, 6),
                named_interval(IntervalQuality::Minor, 7, 10),
                named_interval(IntervalQuality::Major, 7, 11),
            ],
    {
        vec![
            Self::minor_second(),
            Self::major_second(),
            Self::perfect_fourth(),
            Self::tritone(),
            Self::minor_seventh(),
            Self::major_seventh(),
        ]
    }
}

} // verus!
