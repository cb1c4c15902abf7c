//! Scales: a root pitch and a named interval-step pattern. A scale
//! generates its note sequence by walking the root through the pattern with
//! `Tuning::add_interval`, so every generated spelling follows the same
//! arithmetic as single transpositions.

use vstd::prelude::*;

use crate::chord::Chord;
use crate::chord::ChordFunction;
use crate::chord::ChordType;
use crate::chord::ExtensionAlter;
use crate::chord::Inversion;
use crate::chord::Voicing;
use crate::errors::MusicError;
use crate::interval::Interval;
use crate::interval::IntervalQuality;
use crate::interval::interval_of_semitones;
use crate::interval::named_interval;
use crate::quality::ChordQuality;
use crate::tuning::PitchClass;
use crate::tuning::Tuning;
use crate::tuning::add_ok;
use crate::tuning::class_semitones_of;
use crate::tuning::spec_add_interval;
use crate::tuning::wrap_dec;
use crate::tuning::wrap_inc;

verus! {

/// The closed set of named interval-step patterns, plus a custom pattern
/// given as an explicit list of semitone steps.
#[derive(Debug, Clone, Copy)]
pub enum ScaleType {
    /// Natural major: steps 2 2 1 2 2 2 1.
    Major,
    /// Natural minor: steps 2 1 2 2 1 2 2.
    NaturalMinor,
    /// Harmonic minor: steps 2 1 2 2 1 3 1.
    HarmonicMinor,
    /// Melodic minor, upward: steps 2 1 2 2 2 2 1.
    MelodicMinor,
    /// Ionian mode, the natural major.
    Ionian,
    /// Dorian mode: the major pattern rotated by one step.
    Dorian,
    /// Phrygian mode: the major pattern rotated by two steps.
    Phrygian,
    /// Lydian mode: the major pattern rotated by three steps.
    Lydian,
    /// Mixolydian mode: the major pattern rotated by four steps.
    Mixolydian,
    /// Aeolian mode, the natural minor.
    Aeolian,
    /// Locrian mode: the major pattern rotated by six steps.
    Locrian,
    /// Major pentatonic: steps 2 2 3 2 3.
    PentatonicMajor,
    /// Minor pentatonic: steps 3 2 2 3 2.
    PentatonicMinor,
    /// Blues scale: steps 3 2 1 1 3 2.
    Blues,
    /// Whole tone scale: six whole steps.
    WholeTone,
    /// Octatonic (diminished) scale: alternating whole and half steps.
    Octatonic,
    /// Chromatic scale: twelve half steps.
    Chromatic,
    /// Bebop dominant: steps 2 2 1 2 2 1 1 2.
    BebopDominant,
    /// Arabian Hijaz: steps 1 3 1 2 1 3 1.
    Hijaz,
    /// Japanese Hirajoshi: steps 2 1 4 1 4.
    Hirajoshi,
    /// Japanese InSen: steps 1 4 2 3 2.
    InSen,
    /// A custom pattern of semitone steps.
    Custom(&'static [i8]),
}

/// The semitone-step pattern of a scale type.
pub open spec fn pattern_of(st: ScaleType) -> Seq<i8> {
    match st {
        ScaleType::Major => seq![2i8, 2i8, 1i8, 2i8, 2i8, 2i8, 1i8],
        ScaleType::NaturalMinor => seq![2i8, 1i8, 2i8, 2i8, 1i8, 2i8, 2i8],
        ScaleType::HarmonicMinor => seq![2i8, 1i8, 2i8, 2i8, 1i8, 3i8, 1i8],
        ScaleType::MelodicMinor => seq![2i8, 1i8, 2i8, 2i8, 2i8, 2i8, 1i8],
        ScaleType::Ionian => seq![2i8, 2i8, 1i8, 2i8, 2i8, 2i8, 1i8],
        ScaleType::Dorian => seq![2i8, 1i8, 2i8, 2i8, 2i8, 1i8, 2i8],
        ScaleType::Phrygian => seq![1i8, 2i8, 2i8, 2i8, 1i8, 2i8, 2i8],
        ScaleType::Lydian => seq![2i8, 2i8, 2i8, 1i8, 2i8, 2i8, 1i8],
        ScaleType::Mixolydian => seq![2i8, 2i8, 1i8, 2i8, 2i8, 1i8, 2i8],
        ScaleType::Aeolian => seq![2i8, 1i8, 2i8, 2i8, 1i8, 2i8, 2i8],
        ScaleType::Locrian => seq![1i8, 2i8, 2i8, 1i8, 2i8, 2i8, 2i8],
        ScaleType::PentatonicMajor => seq![2i8, 2i8, 3i8, 2i8, 3i8],
        ScaleType::PentatonicMinor => seq![3i8, 2i8, 2i8, 3i8, 2i8],
        ScaleType::Blues => seq![3i8, 2i8, 1i8, 1i8, 3i8, 2i8],
        ScaleType::WholeTone => seq![2i8, 2i8, 2i8, 2i8, 2i8, 2i8],
        ScaleType::Octatonic => seq![2i8, 1i8, 2i8, 1i8, 2i8, 1i8, 2i8, 1i8],
        ScaleType::Chromatic => seq![
            1i8,
            1i8,
            1i8,
            1i8,
            1i8,
            1i8,
            1i8,
            1i8,
            1i8,
            1i8,
            1i8,
            1i8,
        ],
        ScaleType::BebopDominant => seq![2i8, 2i8, 1i8, 2i8, 2i8, 1i8, 1i8, 2i8],
        ScaleType::Hijaz => seq![1i8, 3i8, 1i8, 2i8, 1i8, 3i8, 1i8],
        ScaleType::Hirajoshi => seq![2i8, 1i8, 4i8, 1i8, 4i8],
        ScaleType::InSen => seq![1i8, 4i8, 2i8, 3i8, 2i8],
        ScaleType::Custom(p) => p@,
    }
}

/// A usable pattern: each step can be decomposed into an interval, and the
/// pattern is short enough for the generation arithmetic to stay in range.
/// Every named pattern satisfies this; only a custom pattern can fail it.
pub open spec fn pattern_wf(st: ScaleType) -> bool {
    &&& pattern_of(st).len() <= 4096
    &&& forall|k: int| 0 <= k < pattern_of(st).len() ==> pattern_of(st)[k] != -128
}

/// The step interval at position `k` of the pattern cycle.
pub open spec fn step_interval(st: ScaleType, k: int) -> Interval {
    interval_of_semitones(pattern_of(st)[k % (pattern_of(st).len() as int)] as int)
}

/// The `i`-th tone of the scale walk: the root transposed cumulatively
/// through the pattern, cycling past the octave.
pub open spec fn scale_tone(root: Tuning, st: ScaleType, i: nat) -> Tuning
    decreases i,
{
    if i == 0 {
        root
    } else {
        spec_add_interval(scale_tone(root, st, (i - 1) as nat), step_interval(st, i - 1))
    }
}

/// Whether the first `n` steps of the scale walk all stay inside the
/// octave range.
pub open spec fn scale_ok(root: Tuning, st: ScaleType, n: nat) -> bool
    decreases n,
{
    n == 0 || (scale_ok(root, st, (n - 1) as nat) && add_ok(
        scale_tone(root, st, (n - 1) as nat),
        step_interval(st, n - 1),
    ))
}

/// A longer successful walk contains every shorter one.
proof fn lemma_scale_ok_mono(root: Tuning, st: ScaleType, m: nat, n: nat)
    requires
        m <= n,
        scale_ok(root, st, n),
    ensures
        scale_ok(root, st, m),
    decreases n,
{
    if m < n {
        lemma_scale_ok_mono(root, st, m, (n - 1) as nat);
    }
}

/// The named scale types, in catalog order (the custom pattern is not
/// listed).
pub open spec fn scale_catalog() -> Seq<ScaleType> {
    seq![
        ScaleType::Major,
        ScaleType::NaturalMinor,
        ScaleType::HarmonicMinor,
        ScaleType::MelodicMinor,
        ScaleType::Ionian,
        ScaleType::Dorian,
        ScaleType::Phrygian,
        ScaleType::Lydian,
        ScaleType::Mixolydian,
        ScaleType::Aeolian,
        ScaleType::Locrian,
        ScaleType::PentatonicMajor,
        ScaleType::PentatonicMinor,
        ScaleType::Blues,
        ScaleType::WholeTone,
        ScaleType::Octatonic,
        ScaleType::Chromatic,
        ScaleType::BebopDominant,
        ScaleType::Hijaz,
        ScaleType::Hirajoshi,
        ScaleType::InSen,
    ]
}

/// Every named pattern is usable; only a custom pattern can break the
/// pattern conditions.
pub proof fn lemma_named_pattern_wf(st: ScaleType)
    requires
        !(st is Custom),
    ensures
        pattern_wf(st),
{
    assert forall|k: int| 0 <= k < pattern_of(st).len() implies pattern_of(st)[k] != -128 by {
        match st {
            ScaleType::Custom(_) => {},
            _ => {
                assert(pattern_of(st)[k] != -128);
            },
        }
    }
}

impl ScaleType {
    /// Every named scale type, in catalog order.
    pub fn iter() -> (r: Vec<ScaleType>)
        ensures
            r@ =~= scale_catalog(),
    {
        vec![
            ScaleType::Major,
            ScaleType::NaturalMinor,
            ScaleType::HarmonicMinor,
            ScaleType::MelodicMinor,
            ScaleType::Ionian,
            ScaleType::Dorian,
            ScaleType::Phrygian,
            ScaleType::Lydian,
            ScaleType::Mixolydian,
            ScaleType::Aeolian,
            ScaleType::Locrian,
            ScaleType::PentatonicMajor,
            ScaleType::PentatonicMinor,
            ScaleType::Blues,
            ScaleType::WholeTone,
            ScaleType::Octatonic,
            ScaleType::Chromatic,
            ScaleType::BebopDominant,
            ScaleType::Hijaz,
            ScaleType::Hirajoshi,
            ScaleType::InSen,
        ]
    }
}

/// A scale: a root pitch and an interval-step pattern.
#[derive(Debug, Clone, Copy)]
pub struct Scale {
    /// The root pitch.
    pub root: Tuning,
    /// The interval-step pattern.
    pub scale_type: ScaleType,
}

impl Scale {
    /// The `i`-th tone of this scale's walk.
    pub open spec fn tone(self, i: nat) -> Tuning {
        scale_tone(self.root, self.scale_type, i)
    }

    /// Whether the first `n` steps of this scale's walk stay in range.
    pub open spec fn tones_ok(self, n: nat) -> bool {
        scale_ok(self.root, self.scale_type, n)
    }

    /// How many tones a degree lookup generates: enough full cycles to
    /// cover the degree's octave plus one more.
    pub open spec fn degree_total(self, degree: int) -> nat {
        (pattern_of(self.scale_type).len() * ((degree - 1) / (pattern_of(
            self.scale_type,
        ).len() as int) + 2)) as nat
    }

    /// Whether a 1-based degree lookup succeeds on this scale.
    pub open spec fn degree_ok(self, degree: int) -> bool {
        &&& degree >= 1
        &&& pattern_of(self.scale_type).len() > 0
        &&& self.tones_ok(self.degree_total(degree))
    }

    /// The tone a degree lookup yields.
    pub open spec fn spec_degree(self, degree: int) -> Tuning {
        self.tone((degree - 1) as nat)
    }

    /// The scale's pattern.
    pub fn scale_type(&self) -> (r: ScaleType)
        ensures
            r == self.scale_type,
    {
        self.scale_type
    }

    /// The scale's root.
    pub fn root(&self) -> (r: Tuning)
        ensures
            r == self.root,
    {
        self.root
    }

    /// Create a new scale over a root.
    pub fn new(root: Tuning, scale_type: ScaleType) -> (r: Result<Self, MusicError>)
        ensures
            r matches Ok(s) && s.root == root && s.scale_type == scale_type,
    {
        Ok(Self { root, scale_type })
    }

    /// The standard interval pattern of a scale type, one interval per
    /// semitone step.
    fn get_intervals(scale_type: ScaleType) -> (r: Result<Vec<Interval>, MusicError>)
        requires
            pattern_wf(scale_type),
        ensures
            r matches Ok(v) && v@.len() == pattern_of(scale_type).len() && (forall|k: int|
                0 <= k < v@.len() ==> v@[k] == interval_of_semitones(
                    pattern_of(scale_type)[k] as int,
                )),
    {
        let steps: Vec<i8> = match scale_type {
            ScaleType::Major => vec![2, 2, 1, 2, 2, 2, 1],
            ScaleType::NaturalMinor => vec![2, 1, 2, 2, 1, 2, 2],
            ScaleType::HarmonicMinor => vec![2, 1, 2, 2, 1, 3, 1],
            ScaleType::MelodicMinor => vec![2, 1, 2, 2, 2, 2, 1],
            ScaleType::Ionian => vec![2, 2, 1, 2, 2, 2, 1],
            ScaleType::Dorian => vec![2, 1, 2, 2, 2, 1, 2],
            ScaleType::Phrygian => vec![1, 2, 2, 2, 1, 2, 2],
            ScaleType::Lydian => vec![2, 2, 2, 1, 2, 2, 1],
            ScaleType::Mixolydian => vec![2, 2, 1, 2, 2, 1, 2],
            ScaleType::Aeolian => vec![2, 1, 2, 2, 1, 2, 2],
            ScaleType::Locrian => vec![1, 2, 2, 1, 2, 2, 2],
            ScaleType::PentatonicMajor => vec![2, 2, 3, 2, 3],
            ScaleType::PentatonicMinor => vec![3, 2, 2, 3, 2],
            ScaleType::Blues => vec![3, 2, 1, 1, 3, 2],
            ScaleType::WholeTone => vec![2, 2, 2, 2, 2, 2],
            ScaleType::Octatonic => vec![2, 1, 2, 1, 2, 1, 2, 1],
            ScaleType::Chromatic => vec![1, 1, 1, 1, 1, 1, 1, 1, 1, 1, 1, 1],
            ScaleType::BebopDominant => vec![2, 2, 1, 2, 2, 1, 1, 2],
            ScaleType::Hijaz => vec![1, 3, 1, 2, 1, 3, 1],
            ScaleType::Hirajoshi => vec![2, 1, 4, 1, 4],
            ScaleType::InSen => vec![1, 4, 2, 3, 2],
            ScaleType::Custom(pattern) => {
                let mut v: Vec<i8> = Vec::new();
                let mut i: usize = 0;
                while i < pattern.len()
                    invariant
                        0 <= i <= pattern@.len(),
                        v@ == pattern@.subrange(0, i as int),
                    decreases pattern@.len() - i,
                {
                    v.push(pattern[i]);
                    i = i + 1;
                }
                proof {
                    assert(pattern@.subrange(0, pattern@.len() as int) =~= pattern@);
                }
                v
            },
        };
        proof {
            assert(steps@ =~= pattern_of(scale_type));
        }
        let mut intervals: Vec<Interval> = Vec::new();
        let mut i: usize = 0;
        while i < steps.len()
            invariant
                0 <= i <= steps@.len(),
                steps@ == pattern_of(scale_type),
                pattern_wf(scale_type),
                intervals@.len() == i,
                forall|k: int|
                    0 <= k < i ==> intervals@[k] == interval_of_semitones(
                        pattern_of(scale_type)[k] as int,
                    ),
            decreases steps@.len() - i,
        {
            let iv = match Interval::from_semitones(steps[i]) {
                Ok(iv) => iv,
                Err(e) => {
                    return Err(e);
                },
            };
            intervals.push(iv);
            i = i + 1;
        }
        Ok(intervals)
    }

    /// Generate the scale's note sequence: the root, then one tone per
    /// pattern step, over `octaves + 1` full cycles of the pattern.
    /// Fails with `InvalidOctave` exactly when some step leaves the
    /// audible range.
    pub fn generate_tunings(&self, octaves: u8) -> (r: Result<Vec<Tuning>, MusicError>)
        requires
            pattern_wf(self.scale_type),
        ensures
            r is Ok <==> self.tones_ok(
                (pattern_of(self.scale_type).len() * ((octaves as nat) + 1)) as nat,
            ),
            r matches Ok(v) ==> {
                &&& v@.len() == pattern_of(self.scale_type).len() * ((octaves as nat) + 1) + 1
                &&& forall|i: int| 0 <= i < v@.len() ==> v@[i] == self.tone(i as nat)
            },
            r matches Err(e) ==> e is InvalidOctave,
    {
        let intervals = match Self::get_intervals(self.scale_type) {
            Ok(v) => v,
            Err(e) => {
                return Err(e);
            },
        };
        let len: usize = intervals.len();
        proof {
            assert(len as int * ((octaves as int) + 1) <= 4096 * 256) by (nonlinear_arith)
                requires
                    len <= 4096,
                    octaves <= 255,
            ;
        }
        let total: usize = len * ((octaves as usize) + 1);
        let mut current: Tuning = self.root;
        let mut tunings: Vec<Tuning> = Vec::new();
        tunings.push(current);
        let mut j: usize = 0;
        while j < total
            invariant
                pattern_wf(self.scale_type),
                len == pattern_of(self.scale_type).len(),
                total == len * ((octaves as nat) + 1),
                0 <= j <= total,
                self.tones_ok(j as nat),
                current == self.tone(j as nat),
                tunings@.len() == j + 1,
                forall|i: int| 0 <= i <= j ==> tunings@[i] == self.tone(i as nat),
                intervals@.len() == len,
                forall|k: int|
                    0 <= k < len ==> intervals@[k] == interval_of_semitones(
                        pattern_of(self.scale_type)[k] as int,
                    ),
            decreases total - j,
        {
            let iv = intervals[j % len];
            assert(iv == step_interval(self.scale_type, j as int));
            match current.add_interval(&iv) {
                Ok(t) => {
                    current = t;
                    tunings.push(t);
                },
                Err(e) => {
                    proof {
                        assert(!self.tones_ok((j + 1) as nat));
                        if self.tones_ok(
                            (pattern_of(self.scale_type).len() * ((octaves as nat) + 1)) as nat,
                        ) {
                            lemma_scale_ok_mono(
                                self.root,
                                self.scale_type,
                                (j + 1) as nat,
                                (pattern_of(self.scale_type).len() * ((octaves as nat)
                                    + 1)) as nat,
                            );
                        }
                    }
                    return Err(e);
                },
            }
            j = j + 1;
        }
        Ok(tunings)
    }
}

/// Sum of a semitone-step pattern.
pub open spec fn pattern_sum(s: Seq<i8>) -> int
    decreases s.len(),
{
    if s.len() == 0 {
        0
    } else {
        pattern_sum(s.drop_last()) + s.last()
    }
}

/// The in-key chord quality at each degree of a scale type; hand-authored
/// for the non-diatonic scales, empty where no table is defined.
pub open spec fn degree_qualities(st: ScaleType) -> Seq<ChordQuality> {
    match st {
        ScaleType::Major | ScaleType::Ionian => seq![
            ChordQuality::Major,
            ChordQuality::Minor,
            ChordQuality::Minor,
            ChordQuality::Major,
            ChordQuality::Major,
            ChordQuality::Minor,
            ChordQuality::Diminished,
        ],
        ScaleType::NaturalMinor | ScaleType::Aeolian => seq![
            ChordQuality::Minor,
            ChordQuality::Diminished,
            ChordQuality::Major,
            ChordQuality::Minor,
            ChordQuality::Minor,
            ChordQuality::Major,
            ChordQuality::Major,
        ],
        ScaleType::HarmonicMinor => seq![
            ChordQuality::Minor,
            ChordQuality::Diminished,
            ChordQuality::Augmented,
            ChordQuality::Minor,
            ChordQuality::Major,
            ChordQuality::Major,
            ChordQuality::Diminished,
        ],
        ScaleType::MelodicMinor => seq![
            ChordQuality::Minor,
            ChordQuality::Minor,
            ChordQuality::Augmented,
            ChordQuality::Major,
            ChordQuality::Major,
            ChordQuality::Diminished,
            ChordQuality::Diminished,
        ],
        ScaleType::Dorian => seq![
            ChordQuality::Minor,
            ChordQuality::Minor,
            ChordQuality::Major,
            ChordQuality::Major,
            ChordQuality::Minor,
            ChordQuality::Diminished,
            ChordQuality::Major,
        ],
        ScaleType::Phrygian => seq![
            ChordQuality::Minor,
            ChordQuality::Major,
            ChordQuality::Major,
            ChordQuality::Minor,
            ChordQuality::Diminished,
            ChordQuality::Major,
            ChordQuality::Minor,
        ],
        ScaleType::Lydian => seq![
            ChordQuality::Major,
            ChordQuality::Major,
            ChordQuality::Minor,
            ChordQuality::Diminished,
            ChordQuality::Major,
            ChordQuality::Minor,
            ChordQuality::Minor,
        ],
        ScaleType::Mixolydian => seq![
            ChordQuality::Major,
            ChordQuality::Minor,
            ChordQuality::Diminished,
            ChordQuality::Major,
            ChordQuality::Minor,
            ChordQuality::Minor,
            ChordQuality::Major,
        ],
        ScaleType::Locrian => seq![
            ChordQuality::Diminished,
            ChordQuality::Major,
            ChordQuality::Minor,
            ChordQuality::Minor,
            ChordQuality::Major,
            ChordQuality::Major,
            ChordQuality::Minor,
        ],
        ScaleType::PentatonicMajor => seq![
            ChordQuality::Major,
            ChordQuality::Suspended2,
            ChordQuality::Suspended4,
            ChordQuality::Suspended2,
            ChordQuality::Suspended4,
        ],
        ScaleType::PentatonicMinor => seq![
            ChordQuality::Minor,
            ChordQuality::Major,
            ChordQuality::Minor,
            ChordQuality::Major,
            ChordQuality::Major,
        ],
        ScaleType::Blues => seq![
            ChordQuality::Diminished,
            ChordQuality::Major,
            ChordQuality::Major,
        ],
        ScaleType::WholeTone => seq![
            ChordQuality::Augmented,
            ChordQuality::Augmented,
            ChordQuality::Augmented,
            ChordQuality::Augmented,
            ChordQuality::Augmented,
            ChordQuality::Augmented,
        ],
        ScaleType::Octatonic => seq![
            ChordQuality::Diminished,
            ChordQuality::Diminished,
            ChordQuality::Diminished,
            ChordQuality::Diminished,
            ChordQuality::Diminished,
            ChordQuality::Diminished,
            ChordQuality::Diminished,
            ChordQuality::Diminished,
        ],
        ScaleType::BebopDominant => seq![
            ChordQuality::Dominant7,
            ChordQuality::Minor7,
            ChordQuality::HalfDiminished7,
            ChordQuality::Major7,
            ChordQuality::Dominant7,
            ChordQuality::Minor7,
            ChordQuality::Minor7,
            ChordQuality::Diminished7,
        ],
        ScaleType::Hijaz => seq![
            ChordQuality::Minor,
            ChordQuality::Major,
            ChordQuality::Augmented,
            ChordQuality::Minor,
            ChordQuality::Major,
            ChordQuality::Major,
            ChordQuality::Diminished,
        ],
        ScaleType::Hirajoshi => seq![
            ChordQuality::Major,
            ChordQuality::Minor,
            ChordQuality::Augmented,
            ChordQuality::Minor,
            ChordQuality::Augmented,
        ],
        ScaleType::InSen => seq![
            ChordQuality::Minor,
            ChordQuality::Major,
            ChordQuality::Minor,
        ],
        ScaleType::Chromatic => Seq::empty(),
        ScaleType::Custom(_) => Seq::empty(),
    }
}

/// The characteristic (mode-defining) interval of a scale type, relative
/// to the root; none for modally neutral scales.
pub open spec fn characteristic_of(st: ScaleType) -> Option<Interval> {
    match st {
        ScaleType::Dorian => Some(named_interval(IntervalQuality::Major, 6, 9)),
        ScaleType::Phrygian => Some(named_interval(IntervalQuality::Minor, 2, 1)),
        ScaleType::Lydian => Some(named_interval(IntervalQuality::Augmented, 4, 6)),
        ScaleType::Mixolydian => Some(named_interval(IntervalQuality::Minor, 7, 10)),
        ScaleType::Aeolian | ScaleType::NaturalMinor => Some(
            named_interval(IntervalQuality::Minor, 6, 8),
        ),
        ScaleType::Locrian => Some(named_interval(IntervalQuality::Diminished, 5, 6)),
        ScaleType::HarmonicMinor => Some(named_interval(IntervalQuality::Augmented, 7, 12)),
        ScaleType::MelodicMinor => Some(named_interval(IntervalQuality::Major, 6, 9)),
        ScaleType::Blues => Some(named_interval(IntervalQuality::Diminished, 5, 6)),
        ScaleType::WholeTone => Some(named_interval(IntervalQuality::Augmented, 4, 6)),
        ScaleType::Octatonic => Some(named_interval(IntervalQuality::Minor, 3, 3)),
        ScaleType::BebopDominant => Some(named_interval(IntervalQuality::Major, 7, 11)),
        ScaleType::Hijaz => Some(named_interval(IntervalQuality::Augmented, 2, 3)),
        ScaleType::Hirajoshi => Some(named_interval(IntervalQuality::Perfect, 4, 5)),
        ScaleType::InSen => Some(named_interval(IntervalQuality::Perfect, 4, 5)),
        _ => None,
    }
}

impl Scale {
    /// The tone a successful degree lookup yields, `None` where the lookup
    /// fails.
    pub open spec fn spec_degree_opt(self, degree: int) -> Option<Tuning> {
        if self.degree_ok(degree) {
            Some(self.spec_degree(degree))
        } else {
            None
        }
    }

    /// Look up the 1-based scale degree: the root is degree 1 and the walk
    /// continues past the octave. Fails with `InvalidScaleDegree` for a
    /// degree below 1 or an empty pattern, and with `InvalidOctave` when
    /// the walk leaves the audible range.
    pub fn degree(&self, degree: u8) -> (r: Result<Tuning, MusicError>)
        requires
            pattern_wf(self.scale_type),
        ensures
            r is Ok <==> self.degree_ok(degree as int),
            r matches Ok(t) ==> t == self.spec_degree(degree as int),
            degree < 1 ==> (r matches Err(MusicError::InvalidScaleDegree(d)) && d == degree),
            (degree >= 1 && pattern_of(self.scale_type).len() == 0) ==> (r matches Err(
                MusicError::InvalidScaleDegree(d),
            ) && d == degree),
            (degree >= 1 && pattern_of(self.scale_type).len() > 0 && !self.tones_ok(
                self.degree_total(degree as int),
            )) ==> (r matches Err(e) && e is InvalidOctave),
    {
        if degree < 1 {
            return Err(MusicError::InvalidScaleDegree(degree));
        }
        let intervals = match Self::get_intervals(self.scale_type) {
            Ok(v) => v,
            Err(e) => {
                return Err(e);
            },
        };
        let len: usize = intervals.len();
        if len == 0 {
            return Err(MusicError::InvalidScaleDegree(degree));
        }
        let octv: usize = ((degree - 1) as usize) / len;
        proof {
            assert(((degree - 1) as int) / (len as int) <= (degree - 1) as int)
                by (nonlinear_arith)
                requires
                    len >= 1,
                    degree >= 1,
            ;
            vstd::arithmetic::div_mod::lemma_fundamental_div_mod((degree - 1) as int, len as int);
            vstd::arithmetic::div_mod::lemma_mod_bound((degree - 1) as int, len as int);
        }
        let tunings = match self.generate_tunings((octv + 1) as u8) {
            Ok(v) => v,
            Err(e) => {
                return Err(e);
            },
        };
        proof {
            let dm1 = (degree - 1) as int;
            let l = len as int;
            let q = octv as int;
            assert(dm1 < l * (q + 2)) by (nonlinear_arith)
                requires
                    l >= 1,
                    dm1 == l * q + dm1 % l,
                    0 <= dm1 % l < l,
            ;
        }
        Ok(tunings[(degree - 1) as usize])
    }

    /// The number of steps in the scale's pattern, reduced to a byte as
    /// the machine cast does.
    pub fn interval_count(&self) -> (r: u8)
        requires
            pattern_wf(self.scale_type),
        ensures
            r == pattern_of(self.scale_type).len() % 256,
    {
        let intervals = match Self::get_intervals(self.scale_type) {
            Ok(v) => v,
            Err(_) => Vec::new(),
        };
        (intervals.len() % 256) as u8
    }

    /// The total semitone span of one pattern cycle, reduced to a byte as
    /// the machine cast does.
    pub fn semitone_count(&self) -> (r: u8)
        requires
            pattern_wf(self.scale_type),
            -128 <= pattern_sum(pattern_of(self.scale_type)) <= 127,
        ensures
            r == (pattern_sum(pattern_of(self.scale_type)) + 256) % 256,
    {
        let intervals = match Self::get_intervals(self.scale_type) {
            Ok(v) => v,
            Err(_) => Vec::new(),
        };
        let ghost pat = pattern_of(self.scale_type);
        let mut acc: i32 = 0;
        let mut i: usize = 0;
        while i < intervals.len()
            invariant
                pattern_wf(self.scale_type),
                pat == pattern_of(self.scale_type),
                intervals@.len() == pat.len(),
                forall|k: int|
                    0 <= k < pat.len() ==> intervals@[k] == interval_of_semitones(pat[k] as int),
                0 <= i <= pat.len(),
                acc == pattern_sum(pat.subrange(0, i as int)),
                -128 * (i as int) <= acc <= 127 * (i as int),
            decreases intervals@.len() - i,
        {
            proof {
                assert(pat.subrange(0, (i + 1) as int).drop_last() =~= pat.subrange(0, i as int));
                assert(interval_of_semitones(pat[i as int] as int).semitones == pat[i as int]);
            }
            acc = acc + (intervals[i].semitones() as i32);
            i = i + 1;
        }
        proof {
            assert(pat.subrange(0, pat.len() as int) =~= pat);
        }
        if acc >= 0 {
            acc as u8
        } else {
            (acc + 256) as u8
        }
    }

    /// A chord of the given quality rooted at the given scale degree.
    pub fn chord(&self, degree: u8, quality: ChordQuality) -> (r: Result<Chord, MusicError>)
        requires
            pattern_wf(self.scale_type),
        ensures
            r is Ok <==> self.degree_ok(degree as int),
            r matches Ok(c) ==> {
                &&& c.root == self.spec_degree(degree as int)
                &&& c.quality == quality
                &&& c.chord_type == ChordType::Triad
                &&& c.inversion == Inversion::RootPosition
                &&& c.voicing == Voicing::ClosePosition
                &&& c.extensions@ == Seq::<ExtensionAlter>::empty()
            },
            degree < 1 ==> (r matches Err(MusicError::InvalidScaleDegree(d)) && d == degree),
            (degree >= 1 && pattern_of(self.scale_type).len() == 0) ==> (r matches Err(
                MusicError::InvalidScaleDegree(d),
            ) && d == degree),
            (degree >= 1 && pattern_of(self.scale_type).len() > 0 && !self.tones_ok(
                self.degree_total(degree as int),
            )) ==> (r matches Err(e) && e is InvalidOctave),
    {
        let root = match self.degree(degree) {
            Ok(t) => t,
            Err(e) => {
                return Err(e);
            },
        };
        Chord::new(root, quality)
    }

    /// The in-key chord at a scale degree, from the per-scale quality
    /// table. Fails with `InvalidScaleDegree` when the degree leaves the
    /// table.
    pub fn degree_chord(&self, degree: u8) -> (r: Result<Chord, MusicError>)
        requires
            pattern_wf(self.scale_type),
        ensures
            (degree < 1 || degree > degree_qualities(self.scale_type).len()) ==> (r matches Err(
                MusicError::InvalidScaleDegree(d),
            ) && d == degree),
            (1 <= degree <= degree_qualities(self.scale_type).len()) ==> {
                &&& (r is Ok <==> self.degree_ok(degree as int))
                &&& (r matches Ok(c) ==> {
                    &&& c.root == self.spec_degree(degree as int)
                    &&& c.quality == degree_qualities(self.scale_type)[degree - 1]
                    &&& c.chord_type == ChordType::Triad
                    &&& c.inversion == Inversion::RootPosition
                    &&& c.voicing == Voicing::ClosePosition
                    &&& c.extensions@ == Seq::<ExtensionAlter>::empty()
                })
            },
    {
        let scale_qualities: Vec<ChordQuality> = match self.scale_type {
            ScaleType::Major | ScaleType::Ionian => vec![
                ChordQuality::Major,
                ChordQuality::Minor,
                ChordQuality::Minor,
                ChordQuality::Major,
                ChordQuality::Major,
                ChordQuality::Minor,
                ChordQuality::Diminished,
            ],
            ScaleType::NaturalMinor | ScaleType::Aeolian => vec![
                ChordQuality::Minor,
                ChordQuality::Diminished,
                ChordQuality::Major,
                ChordQuality::Minor,
                ChordQuality::Minor,
                ChordQuality::Major,
                ChordQuality::Major,
            ],
            ScaleType::HarmonicMinor => vec![
                ChordQuality::Minor,
                ChordQuality::Diminished,
                ChordQuality::Augmented,
                ChordQuality::Minor,
                ChordQuality::Major,
                ChordQuality::Major,
                ChordQuality::Diminished,
            ],
            ScaleType::MelodicMinor => vec![
                ChordQuality::Minor,
                ChordQuality::Minor,
                ChordQuality::Augmented,
                ChordQuality::Major,
                ChordQuality::Major,
                ChordQuality::Diminished,
                ChordQuality::Diminished,
            ],
            ScaleType::Dorian => vec![
                ChordQuality::Minor,
                ChordQuality::Minor,
                ChordQuality::Major,
                ChordQuality::Major,
                ChordQuality::Minor,
                ChordQuality::Diminished,
                ChordQuality::Major,
            ],
            ScaleType::Phrygian => vec![
                ChordQuality::Minor,
                ChordQuality::Major,
                ChordQuality::Major,
                ChordQuality::Minor,
                ChordQuality::Diminished,
                ChordQuality::Major,
                ChordQuality::Minor,
            ],
            ScaleType::Lydian => vec![
                ChordQuality::Major,
                ChordQuality::Major,
                ChordQuality::Minor,
                ChordQuality::Diminished,
                ChordQuality::Major,
                ChordQuality::Minor,
                ChordQuality::Minor,
            ],
            ScaleType::Mixolydian => vec![
                ChordQuality::Major,
                ChordQuality::Minor,
                ChordQuality::Diminished,
                ChordQuality::Major,
                ChordQuality::Minor,
                ChordQuality::Minor,
                ChordQuality::Major,
            ],
            ScaleType::Locrian => vec![
                ChordQuality::Diminished,
                ChordQuality::Major,
                ChordQuality::Minor,
                ChordQuality::Minor,
                ChordQuality::Major,
                ChordQuality::Major,
                ChordQuality::Minor,
            ],
            ScaleType::PentatonicMajor => vec![
                ChordQuality::Major,
                ChordQuality::Suspended2,
                ChordQuality::Suspended4,
                ChordQuality::Suspended2,
                ChordQuality::Suspended4,
            ],
            ScaleType::PentatonicMinor => vec![
                ChordQuality::Minor,
                ChordQuality::Major,
                ChordQuality::Minor,
                ChordQuality::Major,
                ChordQuality::Major,
            ],
            ScaleType::Blues => vec![
                ChordQuality::Diminished,
                ChordQuality::Major,
                ChordQuality::Major,
            ],
            ScaleType::WholeTone => vec![
                ChordQuality::Augmented,
                ChordQuality::Augmented,
                ChordQuality::Augmented,
                ChordQuality::Augmented,
                ChordQuality::Augmented,
                ChordQuality::Augmented,
            ],
            ScaleType::Octatonic => vec![
                ChordQuality::Diminished,
                ChordQuality::Diminished,
                ChordQuality::Diminished,
                ChordQuality::Diminished,
                ChordQuality::Diminished,
                ChordQuality::Diminished,
                ChordQuality::Diminished,
                ChordQuality::Diminished,
            ],
            ScaleType::BebopDominant => vec![
                ChordQuality::Dominant7,
                ChordQuality::Minor7,
                ChordQuality::HalfDiminished7,
                ChordQuality::Major7,
                ChordQuality::Dominant7,
                ChordQuality::Minor7,
                ChordQuality::Minor7,
                ChordQuality::Diminished7,
            ],
            ScaleType::Hijaz => vec![
                ChordQuality::Minor,
                ChordQuality::Major,
                ChordQuality::Augmented,
                ChordQuality::Minor,
                ChordQuality::Major,
                ChordQuality::Major,
                ChordQuality::Diminished,
            ],
            ScaleType::Hirajoshi => vec![
                ChordQuality::Major,
                ChordQuality::Minor,
                ChordQuality::Augmented,
                ChordQuality::Minor,
                ChordQuality::Augmented,
            ],
            ScaleType::InSen => vec![
                ChordQuality::Minor,
                ChordQuality::Major,
                ChordQuality::Minor,
            ],
            ScaleType::Chromatic => Vec::new(),
            ScaleType::Custom(_) => Vec::new(),
        };
        proof {
            assert(scale_qualities@ =~= degree_qualities(self.scale_type));
        }
        if degree < 1 || (degree as usize) > scale_qualities.len() {
            return Err(MusicError::InvalidScaleDegree(degree));
        }
        let quality = scale_qualities[(degree - 1) as usize];
        self.chord(degree, quality)
    }

    /// The characteristic (mode-defining) interval of the scale.
    pub fn characteristic_interval(&self) -> (r: Option<Interval>)
        ensures
            r == characteristic_of(self.scale_type),
    {
        match self.scale_type {
            ScaleType::Dorian => Interval::from_quality_degree(IntervalQuality::Major, 6).ok(),
            ScaleType::Phrygian => Interval::from_quality_degree(IntervalQuality::Minor, 2).ok(),
            ScaleType::Lydian => Interval::from_quality_degree(IntervalQuality::Augmented, 4).ok(),
            ScaleType::Mixolydian => Interval::from_quality_degree(
                IntervalQuality::Minor,
                7,
            ).ok(),
            ScaleType::Aeolian | ScaleType::NaturalMinor => Interval::from_quality_degree(
                IntervalQuality::Minor,
                6,
            ).ok(),
            ScaleType::Locrian => Interval::from_quality_degree(
                IntervalQuality::Diminished,
                5,
            ).ok(),
            ScaleType::HarmonicMinor => Interval::from_quality_degree(
                IntervalQuality::Augmented,
                7,
            ).ok(),
            ScaleType::MelodicMinor => Interval::from_quality_degree(
                IntervalQuality::Major,
                6,
            ).ok(),
            ScaleType::Blues => Interval::from_quality_degree(IntervalQuality::Diminished, 5).ok(),
            ScaleType::WholeTone => Interval::from_quality_degree(
                IntervalQuality::Augmented,
                4,
            ).ok(),
            ScaleType::Octatonic => Interval::from_quality_degree(IntervalQuality::Minor, 3).ok(),
            ScaleType::BebopDominant => Interval::from_quality_degree(
                IntervalQuality::Major,
                7,
            ).ok(),
            ScaleType::Hijaz => Interval::from_quality_degree(IntervalQuality::Augmented, 2).ok(),
            ScaleType::Hirajoshi => Interval::from_quality_degree(
                IntervalQuality::Perfect,
                4,
            ).ok(),
            ScaleType::InSen => Interval::from_quality_degree(IntervalQuality::Perfect, 4).ok(),
            _ => None,
        }
    }

    /// The scale tone the characteristic interval reaches from the root,
    /// when there is one and it stays in range.
    pub fn characteristic_tuning(&self) -> (r: Option<Tuning>)
        ensures
            r == (match characteristic_of(self.scale_type) {
                Option::None => Option::<Tuning>::None,
                Option::Some(iv) => if add_ok(self.root, iv) {
                    Some(spec_add_interval(self.root, iv))
                } else {
                    None
                },
            }),
    {
        match self.characteristic_interval() {
            Some(iv) => self.root.add_interval(&iv).ok(),
            None => None,
        }
    }

    /// The modal tonic: the scale's root.
    pub fn modal_tonic(&self) -> (r: Tuning)
        ensures
            r == self.root,
    {
        self.root
    }

    /// Classify a chord's function against this scale: its root is
    /// compared, octave-normalised, with the first, fourth and fifth
    /// degrees, by exact spelling.
    pub fn function(&self, chord: &Chord) -> (r: ChordFunction)
        requires
            pattern_wf(self.scale_type),
            self.degree_ok(1),
            self.degree_ok(4),
            self.degree_ok(5),
        ensures
            r == {
                let root0 = Tuning { octave: 0, ..chord.root };
                if root0 == (Tuning { octave: 0, ..self.spec_degree(1) }) {
                    ChordFunction::Tonic
                } else if root0 == (Tuning { octave: 0, ..self.spec_degree(4) }) {
                    ChordFunction::Subdominant
                } else if root0 == (Tuning { octave: 0, ..self.spec_degree(5) }) {
                    ChordFunction::Dominant
                } else {
                    ChordFunction::Unknown
                }
            },
    {
        let root = chord.root().with_octave(0);
        let t = self.degree(1).unwrap().with_octave(0);
        let s = self.degree(4).unwrap().with_octave(0);
        let d = self.degree(5).unwrap().with_octave(0);
        if root == t {
            ChordFunction::Tonic
        } else if root == s {
            ChordFunction::Subdominant
        } else if root == d {
            ChordFunction::Dominant
        } else {
            ChordFunction::Unknown
        }
    }

    /// The scale tone that carries a chord function: the first, fourth or
    /// fifth degree; none for the other functions.
    pub fn function_root(&self, chord_function: ChordFunction) -> (r: Option<Tuning>)
        requires
            pattern_wf(self.scale_type),
        ensures
            chord_function is Tonic ==> r == self.spec_degree_opt(1),
            chord_function is Subdominant ==> r == self.spec_degree_opt(4),
            chord_function is Dominant ==> r == self.spec_degree_opt(5),
            !(chord_function is Tonic || chord_function is Subdominant || chord_function
                is Dominant) ==> r is None,
    {
        match chord_function {
            ChordFunction::Tonic => self.degree(1).ok(),
            ChordFunction::Subdominant => self.degree(4).ok(),
            ChordFunction::Dominant => self.degree(5).ok(),
            _ => None,
        }
    }

    /// The tonic: the first scale degree.
    pub fn tonic(&self) -> (r: Tuning)
        requires
            pattern_wf(self.scale_type),
            self.degree_ok(1),
        ensures
            r == self.spec_degree(1),
    {
        self.function_root(ChordFunction::Tonic).unwrap()
    }

    /// The subdominant: the fourth scale degree.
    pub fn subdominant(&self) -> (r: Tuning)
        requires
            pattern_wf(self.scale_type),
            self.degree_ok(4),
        ensures
            r == self.spec_degree(4),
    {
        self.function_root(ChordFunction::Subdominant).unwrap()
    }

    /// The dominant: the fifth scale degree.
    pub fn dominant(&self) -> (r: Tuning)
        requires
            pattern_wf(self.scale_type),
            self.degree_ok(5),
        ensures
            r == self.spec_degree(5),
    {
        self.function_root(ChordFunction::Dominant).unwrap()
    }

    /// The same scale with its root sharpened once.
    pub fn sharp(self) -> (r: Scale)
        ensures
            r.scale_type == self.scale_type,
            r.root.class == self.root.class,
            r.root.octave == self.root.octave,
            r.root.accidentals == wrap_inc(self.root.accidentals as int),
    {
        Self { root: self.root.sharp(), ..self }
    }

    /// The same scale with its root flattened once.
    pub fn flat(self) -> (r: Scale)
        ensures
            r.scale_type == self.scale_type,
            r.root.class == self.root.class,
            r.root.octave == self.root.octave,
            r.root.accidentals == wrap_dec(self.root.accidentals as int),
    {
        Self { root: self.root.flat(), ..self }
    }

    /// Whether a pitch belongs to the scale, compared by the bare pitch
    /// class's semitone (accidentals of both sides are ignored).
    pub fn contains(&self, tuning: &Tuning) -> (r: bool)
        requires
            pattern_wf(self.scale_type),
            self.tones_ok((pattern_of(self.scale_type).len() * 2) as nat),
        ensures
            r == exists|i: int|
                0 <= i <= pattern_of(self.scale_type).len() * 2 && class_semitones_of(
                    (#[trigger] self.tone(i as nat)).class,
                ) == class_semitones_of(tuning.class),
    {
        let tunings = self.generate_tunings(1).unwrap();
        let target: i8 = tuning.class().semitones();
        let mut i: usize = 0;
        while i < tunings.len()
            invariant
                tunings@.len() == pattern_of(self.scale_type).len() * 2 + 1,
                forall|k: int| 0 <= k < tunings@.len() ==> tunings@[k] == self.tone(k as nat),
                target == class_semitones_of(tuning.class),
                0 <= i <= tunings@.len(),
                forall|k: int|
                    0 <= k < i ==> class_semitones_of((#[trigger] self.tone(k as nat)).class)
                        != class_semitones_of(tuning.class),
            decreases tunings@.len() - i,
        {
            if tunings[i].class().semitones() == target {
                return true;
            }
            i = i + 1;
        }
        false
    }
}

/// How many degrees a seventh-stacking helper collects: one for each odd
/// step from the seventh up to `n`.
pub open spec fn stack_count(n: int) -> int {
    if n >= 7 {
        (n - 7) / 2 + 1
    } else {
        0
    }
}

impl Tuning {
    /// A scale of the given type rooted at this pitch.
    pub fn scale(&self, scale_type: ScaleType) -> (r: Scale)
        ensures
            r.root == *self,
            r.scale_type == scale_type,
    {
        Scale::new(*self, scale_type).unwrap()
    }

    /// The in-key triad of the major scale on this root, at the given
    /// degree (1 through 7).
    pub fn common_chord(&self, degree: u8) -> (r: Chord)
        requires
            1 <= degree <= 7,
            (Scale { root: *self, scale_type: ScaleType::Major }).degree_ok(degree as int),
        ensures
            r.root == (Scale { root: *self, scale_type: ScaleType::Major }).spec_degree(
                degree as int,
            ),
            r.quality == degree_qualities(ScaleType::Major)[degree - 1],
            r.chord_type == ChordType::Triad,
            r.inversion == Inversion::RootPosition,
            r.voicing == Voicing::ClosePosition,
            r.extensions@ == Seq::<ExtensionAlter>::empty(),
    {
        self.scale(ScaleType::Major).degree_chord(degree).unwrap()
    }

    /// The scale degrees that stack sevenths and beyond over the major
    /// scale a perfect fifth below this root, one tone per odd step from
    /// seven up to `n` (offset by four into that scale).
    pub fn dom(&self, n: u8) -> (r: Vec<Tuning>)
        requires
            n <= 251,
            add_ok(
                *self,
                crate::tuning::spec_negated(named_interval(IntervalQuality::Perfect, 5, 7)),
            ),
            forall|d: int|
                11 <= d <= n + 4 && d % 2 == 1 ==> (Scale {
                    root: spec_add_interval(
                        *self,
                        crate::tuning::spec_negated(named_interval(IntervalQuality::Perfect, 5, 7)),
                    ),
                    scale_type: ScaleType::Major,
                }).degree_ok(d),
        ensures
            r@.len() == stack_count(n as int),
            forall|k: int|
                0 <= k < stack_count(n as int) ==> r@[k] == (Scale {
                    root: spec_add_interval(
                        *self,
                        crate::tuning::spec_negated(named_interval(IntervalQuality::Perfect, 5, 7)),
                    ),
                    scale_type: ScaleType::Major,
                }).spec_degree(11 + 2 * k),
    {
        let scale_root = self.add_interval(&Interval::perfect_fifth().negate()).unwrap();
        let scale = scale_root.scale(ScaleType::Major);
        let mut out: Vec<Tuning> = Vec::new();
        let mut i: u32 = 7;
        while i <= n as u32
            invariant
                7 <= i,
                i % 2 == 1,
                i <= 253,
                n <= 251,
                scale.root == spec_add_interval(
                    *self,
                    crate::tuning::spec_negated(named_interval(IntervalQuality::Perfect, 5, 7)),
                ),
                scale.scale_type == ScaleType::Major,
                out@.len() == (i - 7) / 2,
                i == 7 || (i as int) <= n + 2,
                forall|k: int| 0 <= k < out@.len() ==> out@[k] == scale.spec_degree(11 + 2 * k),
                forall|d: int| 11 <= d <= n + 4 && d % 2 == 1 ==> scale.degree_ok(d),
            decreases n as int + 2 - i,
        {
            let deg: u8 = (i as u8) + 4;
            assert(deg as int == 11 + 2 * ((i as int - 7) / 2));
            assert(scale.degree_ok(deg as int));
            out.push(scale.degree(deg).unwrap());
            i = i + 2;
        }
        out
    }

    /// The scale degrees that stack sevenths and beyond over the major
    /// scale on this root: one tone per odd step from seven up to `n`.
    pub fn maj(&self, n: u8) -> (r: Vec<Tuning>)
        requires
            forall|d: int|
                7 <= d <= n && d % 2 == 1 ==> (Scale {
                    root: *self,
                    scale_type: ScaleType::Major,
                }).degree_ok(d),
        ensures
            r@.len() == stack_count(n as int),
            forall|k: int|
                0 <= k < stack_count(n as int) ==> r@[k] == (Scale {
                    root: *self,
                    scale_type: ScaleType::Major,
                }).spec_degree(7 + 2 * k),
    {
        let scale = self.scale(ScaleType::Major);
        let mut out: Vec<Tuning> = Vec::new();
        let mut i: u32 = 7;
        while i <= n as u32
            invariant
                7 <= i,
                i % 2 == 1,
                i <= 257,
                scale.root == *self,
                scale.scale_type == ScaleType::Major,
                out@.len() == (i - 7) / 2,
                i == 7 || (i as int) <= n + 2,
                forall|k: int| 0 <= k < out@.len() ==> out@[k] == scale.spec_degree(7 + 2 * k),
                forall|d: int| 7 <= d <= n && d % 2 == 1 ==> scale.degree_ok(d),
            decreases n as int + 2 - i,
        {
            let deg: u8 = i as u8;
            assert(deg as int == 7 + 2 * ((i as int - 7) / 2));
            assert(scale.degree_ok(deg as int));
            out.push(scale.degree(deg).unwrap());
            i = i + 2;
        }
        out
    }

    /// The scale degrees that stack sevenths and beyond over the natural
    /// minor scale on this root: one tone per odd step from seven up to
    /// `n`.
    pub fn min(&self, n: u8) -> (r: Vec<Tuning>)
        requires
            forall|d: int|
                7 <= d <= n && d % 2 == 1 ==> (Scale {
                    root: *self,
                    scale_type: ScaleType::NaturalMinor,
                }).degree_ok(d),
        ensures
            r@.len() == stack_count(n as int),
            forall|k: int|
                0 <= k < stack_count(n as int) ==> r@[k] == (Scale {
                    root: *self,
                    scale_type: ScaleType::NaturalMinor,
                }).spec_degree(7 + 2 * k),
    {
        let scale = self.scale(ScaleType::NaturalMinor);
        let mut out: Vec<Tuning> = Vec::new();
        let mut i: u32 = 7;
        while i <= n as u32
            invariant
                7 <= i,
                i % 2 == 1,
                i <= 257,
                scale.root == *self,
                scale.scale_type == ScaleType::NaturalMinor,
                out@.len() == (i - 7) / 2,
                i == 7 || (i as int) <= n + 2,
                forall|k: int| 0 <= k < out@.len() ==> out@[k] == scale.spec_degree(7 + 2 * k),
                forall|d: int| 7 <= d <= n && d % 2 == 1 ==> scale.degree_ok(d),
            decreases n as int + 2 - i,
        {
            let deg: u8 = i as u8;
            assert(deg as int == 7 + 2 * ((i as int - 7) / 2));
            assert(scale.degree_ok(deg as int));
            out.push(scale.degree(deg).unwrap());
            i = i + 2;
        }
        out
    }
}

impl PitchClass {
    /// The in-key triad of the major scale on this pitch class at an
    /// octave, at the given degree (1 through 7).
    pub fn common_chord(&self, degree: u8, octave: i8) -> (r: Chord)
        requires
            1 <= degree <= 7,
            (Scale {
                root: Tuning { class: *self, accidentals: 0, octave },
                scale_type: ScaleType::Major,
            }).degree_ok(degree as int),
        ensures
            r.root == (Scale {
                root: Tuning { class: *self, accidentals: 0, octave },
                scale_type: ScaleType::Major,
            }).spec_degree(degree as int),
            r.quality == degree_qualities(ScaleType::Major)[degree - 1],
            r.chord_type == ChordType::Triad,
            r.inversion == Inversion::RootPosition,
            r.voicing == Voicing::ClosePosition,
            r.extensions@ == Seq::<ExtensionAlter>::empty(),
    {
        Tuning::new(*self, octave).scale(ScaleType::Major).degree_chord(degree).unwrap()
    }
}

} // verus!
