//! Chords: a root pitch, a quality template, extension alterations, an
//! inversion and a voicing. The composition tones are a pure function of
//! this state.

use vstd::prelude::*;

use crate::errors::MusicError;
use crate::interval::Interval;
use crate::interval::IntervalQuality;
use crate::interval::interval_of_semitones;
use crate::interval::named_interval;
use crate::quality::ChordQuality;
use crate::quality::quality_from_chars;
use crate::quality::quality_intervals;
use crate::quality::quality_of_symbol;
use crate::quality::quality_symbol;
use crate::quality::spec_analyze;
use crate::text::chars_of;
use crate::text::strip_space_chars;
use crate::text::strip_spaces;
use crate::tuning::acc_marks;
use crate::tuning::class_symbol;
use crate::tuning::spec_take;
use vstd::string::StringExecFns;
use crate::scale::Scale;
use crate::scale::ScaleType;
use crate::scale::lemma_named_pattern_wf;
use crate::scale::pattern_of;
use crate::scale::pattern_wf;
use crate::scale::stack_count;
use crate::tuning::PitchClass;
use crate::tuning::spec_class_semitones;
use crate::tuning::Tuning;
use crate::tuning::add_ok;
use crate::tuning::spec_add_interval;
use crate::tuning::spec_number;

verus! {

/// Coarse structural classification of a chord.
#[derive(Debug, Clone, Copy, PartialEq, Eq, Structural)]
pub enum ChordType {
    /// Triad.
    Triad,
    /// Seventh chord.
    Seventh,
    /// Extended chord (9th, 11th, 13th).
    Extended(u8),
    /// Suspended chord (sus2, sus4).
    Suspended(u8),
    /// Power chord.
    Power,
    /// Altered chord.
    Altered,
    /// Custom chord.
    Custom,
}

/// The octave arrangement of a chord's notes.
#[derive(Debug, Clone, Copy, PartialEq, Eq, Structural)]
pub enum Voicing {
    /// Dense arrangement: notes within an octave of the bass.
    ClosePosition,
    /// Open arrangement: notes spread across octaves.
    OpenPosition,
    /// Drop 2 (not yet realised by `components`).
    Drop2,
    /// Drop 3 (not yet realised by `components`).
    Drop3,
    /// Cluster (not yet realised by `components`).
    Cluster,
}

/// Which chord tone sounds lowest.
#[derive(Debug, Clone, Copy, PartialEq, Eq, Structural)]
pub enum Inversion {
    /// Root position.
    RootPosition,
    /// First inversion.
    First,
    /// Second inversion.
    Second,
    /// Third inversion (seventh chords).
    Third,
}

/// Functional classification of a chord within a scale.
#[derive(Debug, Clone, Copy, PartialEq, Eq, Structural)]
pub enum ChordFunction {
    /// No recognised function.
    Unknown,
    /// Tonic function.
    Tonic,
    /// Subdominant function.
    Subdominant,
    /// Dominant function.
    Dominant,
    /// Secondary dominant function.
    SecondaryDominant,
    /// Neapolitan function.
    Neapolitan,
}

/// An extension alteration: a tone added to, or removed from, the chord.
/// The tone is keyed by its spelled pitch, so an added tone keeps its
/// enharmonic spelling.
#[derive(Debug, Clone, Copy, PartialEq, Eq, Structural)]
pub enum ExtensionAlter {
    /// Add the tone, unless one at its diatonic degree is already present.
    Add(Tuning),
    /// Remove the tone at the same diatonic degree, if present.
    No(Tuning),
}

/// The tuning an extension alteration speaks of.
pub open spec fn ext_tuning(e: ExtensionAlter) -> Tuning {
    match e {
        ExtensionAlter::Add(t) => t,
        ExtensionAlter::No(t) => t,
    }
}

impl ExtensionAlter {
    /// The alteration with its tone enharmonically simplified.
    pub fn simple(&self) -> (r: Self)
        requires
            -127 <= ext_tuning(*self).accidentals,
            ext_tuning(*self).simple_ok(),
        ensures
            r == (match *self {
                ExtensionAlter::Add(t) => ExtensionAlter::Add(t.spec_simple()),
                ExtensionAlter::No(t) => ExtensionAlter::No(t.spec_simple()),
            }),
    {
        match self {
            ExtensionAlter::Add(t) => ExtensionAlter::Add(t.simple()),
            ExtensionAlter::No(t) => ExtensionAlter::No(t.simple()),
        }
    }

    /// Whether this alteration adds a tone.
    pub fn is_add(&self) -> (r: bool)
        ensures
            r == (*self is Add),
    {
        matches!(self, ExtensionAlter::Add(_))
    }

    /// Whether this alteration removes a tone.
    pub fn is_no(&self) -> (r: bool)
        ensures
            r == (*self is No),
    {
        matches!(self, ExtensionAlter::No(_))
    }
}

/// A complete chord description.
#[derive(Debug, Clone)]
pub struct Chord {
    /// The root pitch.
    pub root: Tuning,
    /// The quality template.
    pub quality: ChordQuality,
    /// Coarse structural classification.
    pub chord_type: ChordType,
    /// Which chord tone sounds lowest.
    pub inversion: Inversion,
    /// The octave arrangement.
    pub voicing: Voicing,
    /// Extension alterations, applied in order after the template.
    pub extensions: Vec<ExtensionAlter>,
}

impl PartialEq for Chord {
    fn eq(&self, other: &Self) -> (r: bool) {
        if !(self.root == other.root && self.quality == other.quality && self.chord_type
            == other.chord_type && self.inversion == other.inversion && self.voicing
            == other.voicing && self.extensions.len() == other.extensions.len()) {
            return false;
        }
        let n = self.extensions.len();
        let mut i: usize = 0;
        while i < n
            invariant
                n == self.extensions.len() == other.extensions.len(),
                0 <= i <= n,
                forall|j: int| 0 <= j < i ==> self.extensions@[j] == other.extensions@[j],
            decreases n - i,
        {
            if !(self.extensions[i] == other.extensions[i]) {
                return false;
            }
            i = i + 1;
        }
        proof {
            assert(self.extensions@ =~= other.extensions@);
        }
        true
    }
}

impl vstd::std_specs::cmp::PartialEqSpecImpl for Chord {
    open spec fn obeys_eq_spec() -> bool {
        true
    }

    open spec fn eq_spec(&self, other: &Self) -> bool {
        &&& self.root == other.root
        &&& self.quality == other.quality
        &&& self.chord_type == other.chord_type
        &&& self.inversion == other.inversion
        &&& self.voicing == other.voicing
        &&& self.extensions@ == other.extensions@
    }
}

impl Chord {
    /// The quality template.
    pub fn quality(&self) -> (r: ChordQuality)
        ensures
            r == self.quality,
    {
        self.quality
    }

    /// The root pitch.
    pub fn root(&self) -> (r: Tuning)
        ensures
            r == self.root,
    {
        self.root
    }

    /// The same chord over another root.
    pub fn with_root(self, root: Tuning) -> (r: Self)
        ensures
            r.root == root,
            r.quality == self.quality,
            r.chord_type == self.chord_type,
            r.inversion == self.inversion,
            r.voicing == self.voicing,
            r.extensions@ == self.extensions@,
    {
        Self { root, ..self }
    }

    /// The same chord with its root at another octave.
    pub fn with_octave(self, octave: i8) -> (r: Self)
        ensures
            r.root == (Tuning { octave, ..self.root }),
            r.quality == self.quality,
            r.chord_type == self.chord_type,
            r.inversion == self.inversion,
            r.voicing == self.voicing,
            r.extensions@ == self.extensions@,
    {
        let root = self.root.with_octave(octave);
        Self { root, ..self }
    }

    /// Construct a chord over a root from a quality template, in root
    /// position and close voicing, with no extensions.
    pub fn new(root: Tuning, quality: ChordQuality) -> (r: Result<Self, MusicError>)
        ensures
            r matches Ok(c) ==> {
                &&& c.root == root
                &&& c.quality == quality
                &&& c.chord_type == ChordType::Triad
                &&& c.inversion == Inversion::RootPosition
                &&& c.voicing == Voicing::ClosePosition
                &&& c.extensions@ == Seq::<ExtensionAlter>::empty()
            },
            r is Ok,
    {
        Ok(
            Self {
                root,
                quality,
                chord_type: ChordType::Triad,
                inversion: Inversion::RootPosition,
                voicing: Voicing::ClosePosition,
                extensions: Vec::new(),
            },
        )
    }

    /// An element-wise copy of the chord, with every field known equal.
    fn duplicate(&self) -> (r: Self)
        ensures
            r.root == self.root,
            r.quality == self.quality,
            r.chord_type == self.chord_type,
            r.inversion == self.inversion,
            r.voicing == self.voicing,
            r.extensions@ == self.extensions@,
    {
        let mut exts: Vec<ExtensionAlter> = Vec::new();
        let mut i: usize = 0;
        while i < self.extensions.len()
            invariant
                0 <= i <= self.extensions@.len(),
                exts@ == self.extensions@.subrange(0, i as int),
            decreases self.extensions@.len() - i,
        {
            exts.push(self.extensions[i]);
            i = i + 1;
        }
        proof {
            assert(self.extensions@.subrange(0, self.extensions@.len() as int)
                =~= self.extensions@);
        }
        Self {
            root: self.root,
            quality: self.quality,
            chord_type: self.chord_type,
            inversion: self.inversion,
            voicing: self.voicing,
            extensions: exts,
        }
    }

    /// Append extension alterations to the chord.
    pub fn with_extension(&self, tunings: &[ExtensionAlter]) -> (r: Self)
        ensures
            r.root == self.root,
            r.quality == self.quality,
            r.chord_type == self.chord_type,
            r.inversion == self.inversion,
            r.voicing == self.voicing,
            r.extensions@ == self.extensions@ + tunings@,
    {
        let mut s = self.duplicate();
        let mut i: usize = 0;
        while i < tunings.len()
            invariant
                0 <= i <= tunings@.len(),
                s.root == self.root,
                s.quality == self.quality,
                s.chord_type == self.chord_type,
                s.inversion == self.inversion,
                s.voicing == self.voicing,
                s.extensions@ == self.extensions@ + tunings@.subrange(0, i as int),
            decreases tunings@.len() - i,
        {
            s.extensions.push(tunings[i]);
            i = i + 1;
        }
        proof {
            assert(tunings@.subrange(0, tunings@.len() as int) =~= tunings@);
            assert(self.extensions@ + tunings@.subrange(0, tunings@.len() as int)
                =~= self.extensions@ + tunings@);
        }
        s
    }

    /// Set the chord's inversion.
    pub fn invert(&mut self, inversion: Inversion)
        ensures
            final(self).root == old(self).root,
            final(self).quality == old(self).quality,
            final(self).chord_type == old(self).chord_type,
            final(self).inversion == inversion,
            final(self).voicing == old(self).voicing,
            final(self).extensions@ == old(self).extensions@,
    {
        self.inversion = inversion;
    }

    /// Set the chord's voicing.
    pub fn revoice(&mut self, voicing: Voicing)
        ensures
            final(self).root == old(self).root,
            final(self).quality == old(self).quality,
            final(self).chord_type == old(self).chord_type,
            final(self).inversion == old(self).inversion,
            final(self).voicing == voicing,
            final(self).extensions@ == old(self).extensions@,
    {
        self.voicing = voicing;
    }
}

/// The interval an extension tone stands for, measured from the chord
/// root by pitch-number difference.
pub open spec fn ext_interval(root: Tuning, t: Tuning) -> Interval {
    interval_of_semitones(spec_number(t) - spec_number(root))
}

/// Folding the extension list into the tones to add (beyond the template)
/// and the tones to remove: an added interval registers only when no equal
/// interval is present yet; a removal always registers.
pub open spec fn build_ext(root: Tuning, base: Seq<Interval>, exts: Seq<ExtensionAlter>) -> (
    Seq<Interval>,
    Seq<Interval>,
)
    decreases exts.len(),
{
    if exts.len() == 0 {
        (Seq::<Interval>::empty(), Seq::<Interval>::empty())
    } else {
        let prev = build_ext(root, base, exts.drop_last());
        let e = exts.last();
        let iv = ext_interval(root, ext_tuning(e));
        if !(base.contains(iv) || prev.0.contains(iv)) && e is Add {
            (prev.0.push(iv), prev.1)
        } else if e is No {
            (prev.0, prev.1.push(iv))
        } else {
            prev
        }
    }
}

/// Remove the first interval with the given diatonic degree, if any.
pub open spec fn remove_first_with_degree(s: Seq<Interval>, deg: int) -> Seq<Interval>
    decreases s.len(),
{
    if s.len() == 0 {
        s
    } else if s.first().degree.0 == deg {
        s.drop_first()
    } else {
        seq![s.first()] + remove_first_with_degree(s.drop_first(), deg)
    }
}

/// Apply each removal in order: every removal takes out at most one
/// interval of its degree.
pub open spec fn apply_pops(s: Seq<Interval>, pops: Seq<Interval>) -> Seq<Interval>
    decreases pops.len(),
{
    if pops.len() == 0 {
        s
    } else {
        remove_first_with_degree(apply_pops(s, pops.drop_last()), pops.last().degree.0 as int)
    }
}

/// All the intervals a chord sounds relative to its root: the quality
/// template, extended by the added tones, with the removed degrees taken
/// out.
pub open spec fn chord_intervals(c: Chord) -> Seq<Interval> {
    let base = quality_intervals(c.quality);
    let bp = build_ext(c.root, base, c.extensions@);
    apply_pops(base + bp.0, bp.1)
}

/// Every extension tone's pitch-number distance from the root fits the
/// semitone decomposition.
pub open spec fn exts_in_range(c: Chord) -> bool {
    forall|j: int|
        0 <= j < c.extensions@.len() ==> -127 <= spec_number(ext_tuning(#[trigger] c.extensions@[j]))
            - spec_number(c.root) <= 127
}

/// How many positions an inversion rotates the tone list.
pub open spec fn rotation_of(inv: Inversion) -> int {
    match inv {
        Inversion::RootPosition => 0,
        Inversion::First => 1,
        Inversion::Second => 2,
        Inversion::Third => 3,
    }
}

/// The tone list rotated for the inversion, with the wrapped-around tail
/// note lifted one octave.
pub open spec fn spec_apply_inversion(notes: Seq<Tuning>, inv: Inversion) -> Seq<Tuning> {
    let k = rotation_of(inv);
    if k == 0 {
        notes
    } else {
        let rotated = notes.subrange(k, notes.len() as int) + notes.subrange(0, k);
        let last = rotated.last();
        rotated.update(notes.len() - 1, Tuning { octave: (last.octave + 1) as i8, ..last })
    }
}

/// Close voicing: every non-bass note is dropped by octaves until it lies
/// within an octave of the bass.
pub open spec fn spec_close_voicing(notes: Seq<Tuning>) -> Seq<Tuning> {
    let base = notes.first().octave as int;
    Seq::new(
        notes.len(),
        |i: int|
            if i == 0 {
                notes[0]
            } else if notes[i].octave > base + 1 {
                Tuning { octave: (base + 1) as i8, ..notes[i] }
            } else {
                notes[i]
            },
    )
}

/// Open voicing: walking up the list, every second note starts one octave
/// higher, flattening the rest onto that walk.
pub open spec fn spec_open_voicing(notes: Seq<Tuning>) -> Seq<Tuning> {
    let base = notes.first().octave as int;
    Seq::new(
        notes.len(),
        |i: int|
            if i == 0 {
                notes[0]
            } else {
                Tuning { octave: (base + i / 2) as i8, ..notes[i] }
            },
    )
}

/// The chord's tone list before inversion and voicing: the root, then one
/// tone per sounded interval.
pub open spec fn spec_components_base(c: Chord) -> Seq<Tuning> {
    seq![c.root] + Seq::new(
        chord_intervals(c).len(),
        |i: int| spec_add_interval(c.root, chord_intervals(c)[i]),
    )
}

/// The chord's tone list: base tones, inversion, then voicing. Only close
/// and open voicings are realised.
pub open spec fn spec_components(c: Chord) -> Seq<Tuning> {
    let inverted = spec_apply_inversion(spec_components_base(c), c.inversion);
    match c.voicing {
        Voicing::ClosePosition => spec_close_voicing(inverted),
        Voicing::OpenPosition => spec_open_voicing(inverted),
        _ => inverted,
    }
}

/// Everything `components` needs to stay in range: the extension distances
/// decompose, every sounded interval transposes within the octave range,
/// the inversion has enough tones to rotate, no octave is at the numeric
/// ceiling, and an open voicing stays below it.
pub open spec fn components_ok(c: Chord) -> bool {
    &&& exts_in_range(c)
    &&& forall|i: int|
        0 <= i < chord_intervals(c).len() ==> add_ok(c.root, #[trigger] chord_intervals(c)[i])
    &&& rotation_of(c.inversion) <= spec_components_base(c).len()
    &&& forall|i: int|
        0 <= i < spec_components_base(c).len() ==> (#[trigger] spec_components_base(
            c,
        )[i]).octave < 127
    &&& (c.voicing is OpenPosition ==> spec_apply_inversion(
        spec_components_base(c),
        c.inversion,
    ).first().octave + (spec_components_base(c).len() - 1) / 2 <= 127)
    &&& (c.voicing is ClosePosition || c.voicing is OpenPosition)
}

/// Whether a sequence of intervals holds one equal to `x`.
fn contains_interval(v: &Vec<Interval>, x: Interval) -> (r: bool)
    ensures
        r == v@.contains(x),
{
    let mut i: usize = 0;
    while i < v.len()
        invariant
            0 <= i <= v@.len(),
            forall|k: int| 0 <= k < i ==> v@[k] != x,
        decreases v@.len() - i,
    {
        if v[i] == x {
            return true;
        }
        i = i + 1;
    }
    false
}

/// Removing at the position of the first degree match equals the spec
/// removal.
proof fn lemma_remove_first_at(s: Seq<Interval>, deg: int, m: int)
    requires
        0 <= m < s.len(),
        s[m].degree.0 == deg,
        forall|k: int| 0 <= k < m ==> s[k].degree.0 != deg,
    ensures
        remove_first_with_degree(s, deg) =~= s.remove(m),
    decreases m,
{
    if m == 0 {
        assert(s.drop_first() =~= s.remove(0));
    } else {
        lemma_remove_first_at(s.drop_first(), deg, m - 1);
        assert(seq![s.first()] + s.drop_first().remove(m - 1) =~= s.remove(m));
    }
}

/// With no degree match present, the spec removal leaves the list alone.
proof fn lemma_remove_first_none(s: Seq<Interval>, deg: int)
    requires
        forall|k: int| 0 <= k < s.len() ==> s[k].degree.0 != deg,
    ensures
        remove_first_with_degree(s, deg) =~= s,
    decreases s.len(),
{
    if s.len() > 0 {
        lemma_remove_first_none(s.drop_first(), deg);
        assert(seq![s.first()] + s.drop_first() =~= s);
    }
}

/// Remove the first interval of the given diatonic degree from the list,
/// if one is there.
fn remove_degree(v: &mut Vec<Interval>, deg: u8)
    ensures
        final(v)@ == remove_first_with_degree(old(v)@, deg as int),
{
    let mut m: usize = 0;
    while m < v.len()
        invariant
            v@ == old(v)@,
            0 <= m <= v@.len(),
            forall|k: int| 0 <= k < m ==> v@[k].degree.0 != deg,
        decreases v@.len() - m,
    {
        if v[m].degree.0 == deg {
            proof {
                lemma_remove_first_at(v@, deg as int, m as int);
            }
            v.remove(m);
            return ;
        }
        m = m + 1;
    }
    proof {
        lemma_remove_first_none(v@, deg as int);
    }
}

impl Chord {
    /// All the intervals the chord sounds relative to its root: the
    /// quality template, extended by added tones, with removed degrees
    /// taken out.
    pub fn intervals(&self) -> (r: Vec<Interval>)
        requires
            exts_in_range(*self),
        ensures
            r@ == chord_intervals(*self),
    {
        let mut intervals = self.quality.intervals();
        let ghost base = quality_intervals(self.quality);
        proof {
            assert(intervals@ == base);
        }
        let mut conv: Vec<Interval> = Vec::new();
        let mut pop: Vec<Interval> = Vec::new();
        let rn: i8 = self.root.number();
        let mut j: usize = 0;
        while j < self.extensions.len()
            invariant
                exts_in_range(*self),
                rn == spec_number(self.root),
                intervals@ == base,
                base == quality_intervals(self.quality),
                0 <= j <= self.extensions@.len(),
                (conv@, pop@) == build_ext(
                    self.root,
                    base,
                    self.extensions@.subrange(0, j as int),
                ),
            decreases self.extensions@.len() - j,
        {
            let e = self.extensions[j];
            let t: Tuning = match e {
                ExtensionAlter::Add(t) => t,
                ExtensionAlter::No(t) => t,
            };
            let iv = Interval::from_semitones_unchecked(t.number() - rn);
            let present = contains_interval(&intervals, iv) || contains_interval(&conv, iv);
            let is_add = matches!(e, ExtensionAlter::Add(_));
            proof {
                assert(self.extensions@.subrange(0, (j + 1) as int).drop_last()
                    =~= self.extensions@.subrange(0, j as int));
                assert(self.extensions@.subrange(0, (j + 1) as int).last()
                    == self.extensions@[j as int]);
            }
            if !present && is_add {
                conv.push(iv);
            } else if matches!(e, ExtensionAlter::No(_)) {
                pop.push(iv);
            }
            j = j + 1;
        }
        proof {
            assert(self.extensions@.subrange(0, self.extensions@.len() as int)
                =~= self.extensions@);
        }
        let mut k: usize = 0;
        while k < conv.len()
            invariant
                0 <= k <= conv@.len(),
                intervals@ == base + conv@.subrange(0, k as int),
                base == quality_intervals(self.quality),
                (conv@, pop@) == build_ext(self.root, base, self.extensions@),
            decreases conv@.len() - k,
        {
            proof {
                assert((base + conv@.subrange(0, k as int)).push(conv@[k as int]) =~= base
                    + conv@.subrange(0, (k + 1) as int));
            }
            intervals.push(conv[k]);
            k = k + 1;
        }
        proof {
            assert(base + conv@.subrange(0, 0) =~= base);
            assert(base + conv@.subrange(0, conv@.len() as int) =~= base + conv@);
        }
        let mut p: usize = 0;
        while p < pop.len()
            invariant
                0 <= p <= pop@.len(),
                intervals@ == apply_pops(base + conv@, pop@.subrange(0, p as int)),
                base == quality_intervals(self.quality),
                (conv@, pop@) == build_ext(self.root, base, self.extensions@),
            decreases pop@.len() - p,
        {
            proof {
                assert(pop@.subrange(0, (p + 1) as int).drop_last() =~= pop@.subrange(
                    0,
                    p as int,
                ));
                assert(pop@.subrange(0, (p + 1) as int).last() == pop@[p as int]);
            }
            let deg: u8 = pop[p].degree.0;
            remove_degree(&mut intervals, deg);
            p = p + 1;
        }
        proof {
            assert(pop@.subrange(0, pop@.len() as int) =~= pop@);
        }
        intervals
    }

    /// The chord's composition tones: the root and one tone per sounded
    /// interval, rotated for the inversion and arranged by the voicing.
    /// Drop and cluster voicings are not realised: the range condition
    /// admits close and open position only.
    pub fn components(&self) -> (r: Vec<Tuning>)
        requires
            components_ok(*self),
        ensures
            r@ == spec_components(*self),
    {
        let ivs = self.intervals();
        let mut notes: Vec<Tuning> = Vec::new();
        notes.push(self.root);
        let mut i: usize = 0;
        while i < ivs.len()
            invariant
                components_ok(*self),
                ivs@ == chord_intervals(*self),
                0 <= i <= ivs@.len(),
                notes@.len() == i + 1,
                notes@[0] == self.root,
                forall|k: int|
                    1 <= k <= i ==> notes@[k] == spec_add_interval(
                        self.root,
                        chord_intervals(*self)[k - 1],
                    ),
            decreases ivs@.len() - i,
        {
            let current = match self.root.add_interval(&ivs[i]) {
                Ok(t) => t,
                Err(_) => {
                    proof {
                        assert(add_ok(self.root, chord_intervals(*self)[i as int]));
                    }
                    self.root
                },
            };
            notes.push(current);
            i = i + 1;
        }
        proof {
            assert(notes@ =~= spec_components_base(*self));
        }
        self.apply_inversion(&mut notes);
        self.apply_voicing(&mut notes);
        notes
    }

    /// Rotate the tone list for the inversion and lift the wrapped note.
    fn apply_inversion(&self, notes: &mut Vec<Tuning>)
        requires
            rotation_of(self.inversion) <= old(notes)@.len(),
            forall|i: int| 0 <= i < old(notes)@.len() ==> (#[trigger] old(notes)@[i]).octave < 127,
        ensures
            final(notes)@ == spec_apply_inversion(old(notes)@, self.inversion),
    {
        let k: usize = match self.inversion {
            Inversion::RootPosition => {
                return ;
            },
            Inversion::First => 1,
            Inversion::Second => 2,
            Inversion::Third => 3,
        };
        let n = notes.len();
        let mut rotated: Vec<Tuning> = Vec::new();
        let mut i: usize = k;
        while i < n
            invariant
                k <= n == old(notes)@.len(),
                notes@ == old(notes)@,
                k <= i <= n,
                rotated@ == old(notes)@.subrange(k as int, i as int),
            decreases n - i,
        {
            rotated.push(notes[i]);
            i = i + 1;
        }
        let mut i2: usize = 0;
        while i2 < k
            invariant
                k <= n == old(notes)@.len(),
                notes@ == old(notes)@,
                0 <= i2 <= k,
                rotated@ == old(notes)@.subrange(k as int, n as int) + old(notes)@.subrange(
                    0,
                    i2 as int,
                ),
            decreases k - i2,
        {
            proof {
                assert((old(notes)@.subrange(k as int, n as int) + old(notes)@.subrange(
                    0,
                    i2 as int,
                )).push(old(notes)@[i2 as int]) =~= old(notes)@.subrange(k as int, n as int) + old(
                    notes,
                )@.subrange(0, (i2 + 1) as int));
            }
            rotated.push(notes[i2]);
            i2 = i2 + 1;
        }
        if k >= 1 && n >= 1 {
            let last = rotated[n - 1];
            let lifted = last.with_octave(last.octave() + 1);
            rotated.set(n - 1, lifted);
        }
        proof {
            assert(rotated@ =~= spec_apply_inversion(old(notes)@, self.inversion));
        }
        *notes = rotated;
    }

    /// Arrange the tone list according to the voicing. Only close and
    /// open position are realised.
    fn apply_voicing(&self, notes: &mut Vec<Tuning>)
        requires
            old(notes)@.len() >= 1,
            self.voicing is ClosePosition || self.voicing is OpenPosition,
            self.voicing is OpenPosition ==> old(notes)@.first().octave + (old(notes)@.len() - 1)
                / 2 <= 127,
        ensures
            self.voicing is ClosePosition ==> final(notes)@ == spec_close_voicing(old(notes)@),
            self.voicing is OpenPosition ==> final(notes)@ == spec_open_voicing(old(notes)@),
    {
        match self.voicing {
            Voicing::ClosePosition => self.close_voicing(notes),
            Voicing::OpenPosition => self.open_voicing(notes),
            _ => {},
        }
    }

    /// Close arrangement: drop each non-bass note until it lies within an
    /// octave of the bass.
    fn close_voicing(&self, notes: &mut Vec<Tuning>)
        requires
            old(notes)@.len() >= 1,
        ensures
            final(notes)@ == spec_close_voicing(old(notes)@),
    {
        let base_octave: i8 = notes[0].octave();
        let n = notes.len();
        let mut i: usize = 1;
        while i < n
            invariant
                n == notes@.len() == old(notes)@.len(),
                base_octave == old(notes)@.first().octave,
                1 <= i <= n,
                notes@[0] == old(notes)@[0],
                forall|q: int| i <= q < n ==> notes@[q] == old(notes)@[q],
                forall|q: int| 1 <= q < i ==> notes@[q] == spec_close_voicing(old(notes)@)[q],
            decreases n - i,
        {
            let orig: Tuning = notes[i];
            let mut note: Tuning = orig;
            while (note.octave() as i32) > (base_octave as i32) + 1
                invariant
                    note.class == orig.class,
                    note.accidentals == orig.accidentals,
                    orig.octave > base_octave + 1 ==> base_octave + 1 <= note.octave
                        <= orig.octave,
                    orig.octave <= base_octave + 1 ==> note == orig,
                decreases note.octave as int - base_octave as int,
            {
                note = note.with_octave(note.octave() - 1);
            }
            notes.set(i, note);
            i = i + 1;
        }
        proof {
            assert(notes@ =~= spec_close_voicing(old(notes)@));
        }
    }

    /// Open arrangement: every second note starts one octave higher, the
    /// rest flatten onto that walk.
    fn open_voicing(&self, notes: &mut Vec<Tuning>)
        requires
            old(notes)@.len() >= 1,
            old(notes)@.first().octave + (old(notes)@.len() - 1) / 2 <= 127,
        ensures
            final(notes)@ == spec_open_voicing(old(notes)@),
    {
        let mut current_octave: i8 = notes[0].octave();
        let n = notes.len();
        let mut i: usize = 1;
        while i < n
            invariant
                n == notes@.len() == old(notes)@.len(),
                old(notes)@.first().octave + (n - 1) / 2 <= 127,
                1 <= i <= n,
                current_octave == old(notes)@.first().octave + ((i - 1) as int) / 2,
                notes@[0] == old(notes)@[0],
                forall|q: int| i <= q < n ==> notes@[q] == old(notes)@[q],
                forall|q: int| 1 <= q < i ==> notes@[q] == spec_open_voicing(old(notes)@)[q],
            decreases n - i,
        {
            proof {
                assert((i as int) / 2 <= ((n - 1) as int) / 2) by (nonlinear_arith)
                    requires
                        1 <= i <= n - 1,
                ;
            }
            if i % 2 == 0 {
                current_octave = current_octave + 1;
            }
            proof {
                assert(current_octave == old(notes)@.first().octave + (i as int) / 2);
            }
            let note = notes[i].with_octave(current_octave);
            notes.set(i, note);
            i = i + 1;
        }
        proof {
            assert(notes@ =~= spec_open_voicing(old(notes)@));
        }
    }
}

impl Chord {
    /// The chord with every extension tone enharmonically simplified.
    pub fn simple(self) -> (r: Self)
        requires
            forall|j: int|
                0 <= j < self.extensions@.len() ==> -127 <= ext_tuning(
                    #[trigger] self.extensions@[j],
                ).accidentals && ext_tuning(self.extensions@[j]).simple_ok(),
        ensures
            r.root == self.root,
            r.quality == self.quality,
            r.chord_type == self.chord_type,
            r.inversion == self.inversion,
            r.voicing == self.voicing,
            r.extensions@.len() == self.extensions@.len(),
            forall|j: int|
                0 <= j < self.extensions@.len() ==> r.extensions@[j] == (match self.extensions@[j] {
                    ExtensionAlter::Add(t) => ExtensionAlter::Add(t.spec_simple()),
                    ExtensionAlter::No(t) => ExtensionAlter::No(t.spec_simple()),
                }),
    {
        let mut exts: Vec<ExtensionAlter> = Vec::new();
        let mut j: usize = 0;
        while j < self.extensions.len()
            invariant
                forall|q: int|
                    0 <= q < self.extensions@.len() ==> -127 <= ext_tuning(
                        #[trigger] self.extensions@[q],
                    ).accidentals && ext_tuning(self.extensions@[q]).simple_ok(),
                0 <= j <= self.extensions@.len(),
                exts@.len() == j,
                forall|q: int|
                    0 <= q < j ==> exts@[q] == (match self.extensions@[q] {
                        ExtensionAlter::Add(t) => ExtensionAlter::Add(t.spec_simple()),
                        ExtensionAlter::No(t) => ExtensionAlter::No(t.spec_simple()),
                    }),
            decreases self.extensions@.len() - j,
        {
            exts.push(self.extensions[j].simple());
            j = j + 1;
        }
        Self { extensions: exts, ..self }
    }

    /// Classify this chord's function within a scale: tonic, subdominant,
    /// dominant, or unknown, by octave-normalised root comparison.
    pub fn function(&self, scale: &Scale) -> (r: ChordFunction)
        requires
            pattern_wf(scale.scale_type),
            scale.degree_ok(1),
            scale.degree_ok(4),
            scale.degree_ok(5),
        ensures
            r == {
                let root0 = Tuning { octave: 0, ..self.root };
                if root0 == (Tuning { octave: 0, ..scale.spec_degree(1) }) {
                    ChordFunction::Tonic
                } else if root0 == (Tuning { octave: 0, ..scale.spec_degree(4) }) {
                    ChordFunction::Subdominant
                } else if root0 == (Tuning { octave: 0, ..scale.spec_degree(5) }) {
                    ChordFunction::Dominant
                } else {
                    ChordFunction::Unknown
                }
            },
    {
        scale.function(self)
    }

    /// Add the tone at the given degree of the major scale on the chord's
    /// root as an extension.
    pub fn add(&self, n: u8) -> (r: Self)
        requires
            (Scale { root: self.root, scale_type: ScaleType::Major }).degree_ok(n as int),
        ensures
            r.root == self.root,
            r.quality == self.quality,
            r.chord_type == self.chord_type,
            r.inversion == self.inversion,
            r.voicing == self.voicing,
            r.extensions@ == self.extensions@.push(
                ExtensionAlter::Add(
                    (Scale { root: self.root, scale_type: ScaleType::Major }).spec_degree(
                        n as int,
                    ),
                ),
            ),
    {
        let root = self.root();
        let scale = root.scale(ScaleType::Major);
        proof {
            crate::scale::lemma_named_pattern_wf(ScaleType::Major);
        }
        let mut c = self.duplicate();
        c.extensions.push(ExtensionAlter::Add(scale.degree(n).unwrap()));
        c
    }

    /// Remove the tone at the given degree of the major scale on the
    /// chord's root, recorded as an extension.
    pub fn no(&self, n: u8) -> (r: Self)
        requires
            (Scale { root: self.root, scale_type: ScaleType::Major }).degree_ok(n as int),
        ensures
            r.root == self.root,
            r.quality == self.quality,
            r.chord_type == self.chord_type,
            r.inversion == self.inversion,
            r.voicing == self.voicing,
            r.extensions@ == self.extensions@.push(
                ExtensionAlter::No(
                    (Scale { root: self.root, scale_type: ScaleType::Major }).spec_degree(
                        n as int,
                    ),
                ),
            ),
    {
        let root = self.root();
        let scale = root.scale(ScaleType::Major);
        proof {
            crate::scale::lemma_named_pattern_wf(ScaleType::Major);
        }
        let mut c = self.duplicate();
        c.extensions.push(ExtensionAlter::No(scale.degree(n).unwrap()));
        c
    }

    /// Stack sevenths and beyond over the major scale a perfect fifth
    /// below the chord's root, adding one extension per odd step from
    /// seven up to `n` (offset by four into that scale).
    pub fn dom(&self, n: u8) -> (r: Self)
        requires
            n <= 251,
            add_ok(
                self.root,
                crate::tuning::spec_negated(
                    crate::interval::named_interval(crate::interval::IntervalQuality::Perfect, 5, 7),
                ),
            ),
            forall|d: int|
                11 <= d <= n + 4 && d % 2 == 1 ==> (Scale {
                    root: spec_add_interval(
                        self.root,
                        crate::tuning::spec_negated(
                            crate::interval::named_interval(
                                crate::interval::IntervalQuality::Perfect,
                                5,
                                7,
                            ),
                        ),
                    ),
                    scale_type: ScaleType::Major,
                }).degree_ok(d),
        ensures
            r.root == self.root,
            r.quality == self.quality,
            r.chord_type == self.chord_type,
            r.inversion == self.inversion,
            r.voicing == self.voicing,
            r.extensions@ == self.extensions@ + Seq::new(
                stack_count(n as int) as nat,
                |k: int|
                    ExtensionAlter::Add(
                        (Scale {
                            root: spec_add_interval(
                                self.root,
                                crate::tuning::spec_negated(
                                    crate::interval::named_interval(
                                        crate::interval::IntervalQuality::Perfect,
                                        5,
                                        7,
                                    ),
                                ),
                            ),
                            scale_type: ScaleType::Major,
                        }).spec_degree(11 + 2 * k),
                    ),
            ),
    {
        let root = self.root();
        let tones = root.dom(n);
        let mut c = self.duplicate();
        let mut k: usize = 0;
        while k < tones.len()
            invariant
                0 <= k <= tones@.len(),
                tones@.len() == stack_count(n as int),
                c.root == self.root,
                c.quality == self.quality,
                c.chord_type == self.chord_type,
                c.inversion == self.inversion,
                c.voicing == self.voicing,
                c.extensions@.len() == self.extensions@.len() + k,
                forall|q: int| 0 <= q < self.extensions@.len() ==> c.extensions@[q] == self.extensions@[q],
                forall|q: int|
                    0 <= q < k ==> c.extensions@[self.extensions@.len() + q]
                        == ExtensionAlter::Add(tones@[q]),
                forall|q: int|
                    0 <= q < tones@.len() ==> tones@[q] == (Scale {
                        root: spec_add_interval(
                            self.root,
                            crate::tuning::spec_negated(
                                crate::interval::named_interval(
                                    crate::interval::IntervalQuality::Perfect,
                                    5,
                                    7,
                                ),
                            ),
                        ),
                        scale_type: ScaleType::Major,
                    }).spec_degree(11 + 2 * q),
            decreases tones@.len() - k,
        {
            c.extensions.push(ExtensionAlter::Add(tones[k]));
            k = k + 1;
        }
        proof {
            let target = self.extensions@ + Seq::new(
                    stack_count(n as int) as nat,
                    |k: int|
                        ExtensionAlter::Add(
                            (Scale {
                                root: spec_add_interval(
                                    self.root,
                                    crate::tuning::spec_negated(
                                        crate::interval::named_interval(
                                            crate::interval::IntervalQuality::Perfect,
                                            5,
                                            7,
                                        ),
                                    ),
                                ),
                                scale_type: ScaleType::Major,
                            }).spec_degree(11 + 2 * k),
                        ),
                );
            assert forall|q: int| 0 <= q < c.extensions@.len() implies c.extensions@[q]
                == target[q] by {
                if q >= self.extensions@.len() {
                    let q2 = q - self.extensions@.len();
                    assert(c.extensions@[self.extensions@.len() + q2] == ExtensionAlter::Add(
                        tones@[q2],
                    ));
                }
            }
            assert(c.extensions@ =~= target);
        }
        c
    }

    /// Stack sevenths and beyond over the major scale on the chord's
    /// root, adding one extension per odd step from seven up to `n`.
    pub fn maj(&self, n: u8) -> (r: Self)
        requires
            forall|d: int|
                7 <= d <= n && d % 2 == 1 ==> (Scale {
                    root: self.root,
                    scale_type: ScaleType::Major,
                }).degree_ok(d),
        ensures
            r.root == self.root,
            r.quality == self.quality,
            r.chord_type == self.chord_type,
            r.inversion == self.inversion,
            r.voicing == self.voicing,
            r.extensions@ == self.extensions@ + Seq::new(
                stack_count(n as int) as nat,
                |k: int|
                    ExtensionAlter::Add(
                        (Scale { root: self.root, scale_type: ScaleType::Major }).spec_degree(
                            7 + 2 * k,
                        ),
                    ),
            ),
    {
        let root = self.root();
        let tones = root.maj(n);
        let mut c = self.duplicate();
        let mut k: usize = 0;
        while k < tones.len()
            invariant
                0 <= k <= tones@.len(),
                tones@.len() == stack_count(n as int),
                c.root == self.root,
                c.quality == self.quality,
                c.chord_type == self.chord_type,
                c.inversion == self.inversion,
                c.voicing == self.voicing,
                c.extensions@.len() == self.extensions@.len() + k,
                forall|q: int| 0 <= q < self.extensions@.len() ==> c.extensions@[q] == self.extensions@[q],
                forall|q: int|
                    0 <= q < k ==> c.extensions@[self.extensions@.len() + q]
                        == ExtensionAlter::Add(tones@[q]),
                forall|q: int|
                    0 <= q < tones@.len() ==> tones@[q] == (Scale {
                        root: self.root,
                        scale_type: ScaleType::Major,
                    }).spec_degree(7 + 2 * q),
            decreases tones@.len() - k,
        {
            c.extensions.push(ExtensionAlter::Add(tones[k]));
            k = k + 1;
        }
        proof {
            let target = self.extensions@ + Seq::new(
                    stack_count(n as int) as nat,
                    |k: int|
                        ExtensionAlter::Add(
                            (Scale { root: self.root, scale_type: ScaleType::Major }).spec_degree(
                                7 + 2 * k,
                            ),
                        ),
                );
            assert forall|q: int| 0 <= q < c.extensions@.len() implies c.extensions@[q]
                == target[q] by {
                if q >= self.extensions@.len() {
                    let q2 = q - self.extensions@.len();
                    assert(c.extensions@[self.extensions@.len() + q2] == ExtensionAlter::Add(
                        tones@[q2],
                    ));
                }
            }
            assert(c.extensions@ =~= target);
        }
        c
    }

    /// Stack sevenths and beyond over the natural minor scale on the
    /// chord's root, adding one extension per odd step from seven up to
    /// `n`.
    pub fn min(&self, n: u8) -> (r: Self)
        requires
            forall|d: int|
                7 <= d <= n && d % 2 == 1 ==> (Scale {
                    root: self.root,
                    scale_type: ScaleType::NaturalMinor,
                }).degree_ok(d),
        ensures
            r.root == self.root,
            r.quality == self.quality,
            r.chord_type == self.chord_type,
            r.inversion == self.inversion,
            r.voicing == self.voicing,
            r.extensions@ == self.extensions@ + Seq::new(
                stack_count(n as int) as nat,
                |k: int|
                    ExtensionAlter::Add(
                        (Scale {
                            root: self.root,
                            scale_type: ScaleType::NaturalMinor,
                        }).spec_degree(7 + 2 * k),
                    ),
            ),
    {
        let root = self.root();
        let tones = root.min(n);
        let mut c = self.duplicate();
        let mut k: usize = 0;
        while k < tones.len()
            invariant
                0 <= k <= tones@.len(),
                tones@.len() == stack_count(n as int),
                c.root == self.root,
                c.quality == self.quality,
                c.chord_type == self.chord_type,
                c.inversion == self.inversion,
                c.voicing == self.voicing,
                c.extensions@.len() == self.extensions@.len() + k,
                forall|q: int| 0 <= q < self.extensions@.len() ==> c.extensions@[q] == self.extensions@[q],
                forall|q: int|
                    0 <= q < k ==> c.extensions@[self.extensions@.len() + q]
                        == ExtensionAlter::Add(tones@[q]),
                forall|q: int|
                    0 <= q < tones@.len() ==> tones@[q] == (Scale {
                        root: self.root,
                        scale_type: ScaleType::NaturalMinor,
                    }).spec_degree(7 + 2 * q),
            decreases tones@.len() - k,
        {
            c.extensions.push(ExtensionAlter::Add(tones[k]));
            k = k + 1;
        }
        proof {
            let target = self.extensions@ + Seq::new(
                    stack_count(n as int) as nat,
                    |k: int|
                        ExtensionAlter::Add(
                            (Scale {
                                root: self.root,
                                scale_type: ScaleType::NaturalMinor,
                            }).spec_degree(7 + 2 * k),
                        ),
                );
            assert forall|q: int| 0 <= q < c.extensions@.len() implies c.extensions@[q]
                == target[q] by {
                if q >= self.extensions@.len() {
                    let q2 = q - self.extensions@.len();
                    assert(c.extensions@[self.extensions@.len() + q2] == ExtensionAlter::Add(
                        tones@[q2],
                    ));
                }
            }
            assert(c.extensions@ =~= target);
        }
        c
    }
}


/// Insert a pitch class into a sorted class list, keeping it duplicate
/// free.
pub open spec fn cls_insert(keys: Seq<i8>, k: i8) -> Seq<i8>
    decreases keys.len(),
{
    if keys.len() == 0 {
        seq![k]
    } else if k < keys.first() {
        seq![k] + keys
    } else if k == keys.first() {
        keys
    } else {
        seq![keys.first()] + cls_insert(keys.drop_first(), k)
    }
}

/// The sorted, duplicate-free pitch-class list of a tone list.
pub open spec fn classes_of(ts: Seq<Tuning>) -> Seq<i8>
    decreases ts.len(),
{
    if ts.len() == 0 {
        Seq::<i8>::empty()
    } else {
        cls_insert(classes_of(ts.drop_last()), (crate::tuning::spec_class_semitones(ts.last()) as i8))
    }
}

/// The tone of the list with the smallest pitch number, earliest first on
/// ties, scanning the first `i` tones.
pub open spec fn lowest_upto(ts: Seq<Tuning>, i: nat) -> Tuning
    decreases i,
{
    if i <= 1 {
        ts[0]
    } else {
        let prev = lowest_upto(ts, (i - 1) as nat);
        if spec_number(ts[i - 1]) < spec_number(prev) {
            ts[i - 1]
        } else {
            prev
        }
    }
}

/// The first tone of the list with the given pitch class.
pub open spec fn first_with_class(ts: Seq<Tuning>, rc: i8, i: nat) -> Tuning
    decreases ts.len() - i,
{
    if i >= ts.len() {
        ts[0]
    } else if crate::tuning::spec_class_semitones(ts[i as int]) == rc {
        ts[i as int]
    } else {
        first_with_class(ts, rc, (i + 1) as nat)
    }
}

/// The intervals from a candidate root class to every other pitch class of
/// the list, in ascending class order.
pub open spec fn others_upto(classes: Seq<i8>, rc: i8, j: nat) -> Seq<Interval>
    decreases j,
{
    if j == 0 {
        Seq::<Interval>::empty()
    } else {
        let prev = others_upto(classes, rc, (j - 1) as nat);
        if classes[j - 1] != rc {
            prev.push(interval_of_semitones(classes[j - 1] - rc))
        } else {
            prev
        }
    }
}

/// A candidate analysis at one root class: the inferred quality, rooted at
/// the first input tone of that class, with the unexplained tones as added
/// extensions. A candidate whose extension tones would leave the octave
/// range is not viable.
pub open spec fn spec_candidate(ts: Seq<Tuning>, classes: Seq<i8>, rc: i8) -> Option<
    (Tuning, ChordQuality, Seq<ExtensionAlter>),
> {
    let ivs = others_upto(classes, rc, classes.len());
    let a = spec_analyze(ivs);
    let root = first_with_class(ts, rc, 0);
    if forall|i: int| 0 <= i < a.1.len() ==> add_ok(root, #[trigger] a.1[i]) {
        Some(
            (
                root,
                a.0,
                Seq::new(
                    a.1.len(),
                    |i: int| ExtensionAlter::Add(spec_add_interval(root, a.1[i])),
                ),
            ),
        )
    } else {
        None
    }
}

/// The viable candidates over the first `i` root classes, in class order.
pub open spec fn candidates_upto(ts: Seq<Tuning>, classes: Seq<i8>, i: nat) -> Seq<
    (Tuning, ChordQuality, Seq<ExtensionAlter>),
>
    decreases i,
{
    if i == 0 {
        Seq::empty()
    } else {
        let prev = candidates_upto(ts, classes, (i - 1) as nat);
        match spec_candidate(ts, classes, classes[i - 1]) {
            Some(c) => prev.push(c),
            None => prev,
        }
    }
}

/// The first candidate rooted at the lowest input tone, scanning from `i`.
pub open spec fn first_rooted_at(
    cands: Seq<(Tuning, ChordQuality, Seq<ExtensionAlter>)>,
    m: Tuning,
    i: nat,
) -> Option<(Tuning, ChordQuality, Seq<ExtensionAlter>)>
    decreases cands.len() - i,
{
    if i >= cands.len() {
        None
    } else if cands[i as int].0 == m {
        Some(cands[i as int])
    } else {
        first_rooted_at(cands, m, (i + 1) as nat)
    }
}

/// What chord analysis returns on a tone list: among the viable candidate
/// analyses, the one rooted at the lowest input tone, or failing that the
/// one at the lowest pitch class.
pub open spec fn spec_analyze_chord(ts: Seq<Tuning>) -> Option<
    (Tuning, ChordQuality, Seq<ExtensionAlter>),
> {
    let classes = classes_of(ts);
    let cands = candidates_upto(ts, classes, classes.len());
    match first_rooted_at(cands, lowest_upto(ts, ts.len()), 0) {
        Some(c) => Some(c),
        None => if cands.len() > 0 {
            Some(cands.first())
        } else {
            None
        },
    }
}

/// Inserting a class at the position the scan found agrees with the
/// recursive insertion.
proof fn lemma_cls_insert_at(keys: Seq<i8>, k: i8, pos: int)
    requires
        crate::quality::keys_sorted(keys),
        0 <= pos <= keys.len(),
        forall|j: int| 0 <= j < pos ==> keys[j] < k,
        pos < keys.len() ==> keys[pos] >= k,
    ensures
        pos < keys.len() && keys[pos] == k ==> cls_insert(keys, k) == keys,
        !(pos < keys.len() && keys[pos] == k) ==> cls_insert(keys, k) == keys.insert(pos, k),
    decreases pos,
{
    if keys.len() == 0 {
        assert(keys.insert(0, k) =~= seq![k]);
    } else if pos == 0 {
        if keys[0] == k {
        } else {
            assert(keys.insert(0, k) =~= seq![k] + keys);
        }
    } else {
        assert(keys[0] < k);
        lemma_cls_insert_at(keys.drop_first(), k, pos - 1);
        if pos < keys.len() && keys[pos] == k {
            assert(keys.drop_first()[pos - 1] == keys[pos]);
            assert(seq![keys.first()] + keys.drop_first() =~= keys);
        } else {
            assert(seq![keys.first()] + keys.drop_first().insert(pos - 1, k) =~= keys.insert(
                pos,
                k,
            ));
        }
    }
}

/// Class insertion keeps the list sorted and duplicate free, and only adds
/// the new class.
proof fn lemma_cls_insert_sorted(keys: Seq<i8>, k: i8)
    requires
        crate::quality::keys_sorted(keys),
    ensures
        crate::quality::keys_sorted(cls_insert(keys, k)),
        cls_insert(keys, k).contains(k),
        forall|x: i8| cls_insert(keys, k).contains(x) <==> (keys.contains(x) || x == k),
    decreases keys.len(),
{
    if keys.len() == 0 {
        assert(cls_insert(keys, k) =~= seq![k]);
        assert(seq![k][0] == k);
    } else if k < keys.first() {
        let nk = seq![k] + keys;
        assert(nk[0] == k);
        assert forall|x: i8| nk.contains(x) implies (keys.contains(x) || x == k) by {
            let w = choose|w: int| 0 <= w < nk.len() && nk[w] == x;
            if w > 0 {
                assert(keys[w - 1] == x);
            }
        }
        assert forall|x: i8| keys.contains(x) implies nk.contains(x) by {
            let w = choose|w: int| 0 <= w < keys.len() && keys[w] == x;
            assert(nk[w + 1] == x);
        }
    } else if k == keys.first() {
        assert(keys[0] == k);
    } else {
        lemma_cls_insert_sorted(keys.drop_first(), k);
        let rec = cls_insert(keys.drop_first(), k);
        let nk = seq![keys.first()] + rec;
        assert forall|i: int, j: int| 0 <= i < j < nk.len() implies nk[i] < nk[j] by {
            if i == 0 {
                assert(rec.contains(nk[j])) by {
                    assert(rec[j - 1] == nk[j]);
                }
                if keys.drop_first().contains(nk[j]) {
                    let w = choose|w: int|
                        0 <= w < keys.drop_first().len() && keys.drop_first()[w] == nk[j];
                    assert(keys[w + 1] == nk[j]);
                } else {
                    assert(nk[j] == k);
                }
            } else {
                assert(rec[i - 1] < rec[j - 1]);
            }
        }
        assert(nk.contains(k)) by {
            let w = choose|w: int| 0 <= w < rec.len() && rec[w] == k;
            assert(nk[w + 1] == k);
        }
        assert forall|x: i8| nk.contains(x) implies (keys.contains(x) || x == k) by {
            let w = choose|w: int| 0 <= w < nk.len() && nk[w] == x;
            if w == 0 {
                assert(keys[0] == x);
            } else {
                assert(rec[w - 1] == x);
                if keys.drop_first().contains(x) {
                    let w2 = choose|w2: int|
                        0 <= w2 < keys.drop_first().len() && keys.drop_first()[w2] == x;
                    assert(keys[w2 + 1] == x);
                }
            }
        }
        assert forall|x: i8| (keys.contains(x) || x == k) implies nk.contains(x) by {
            if x == k {
                assert(rec.contains(k));
                let w = choose|w: int| 0 <= w < rec.len() && rec[w] == k;
                assert(nk[w + 1] == k);
            } else {
                let w = choose|w: int| 0 <= w < keys.len() && keys[w] == x;
                if w == 0 {
                    assert(nk[0] == x);
                } else {
                    assert(keys.drop_first()[w - 1] == x);
                    assert(keys.drop_first().contains(x));
                    assert(rec.contains(x));
                    let w2 = choose|w2: int| 0 <= w2 < rec.len() && rec[w2] == x;
                    assert(nk[w2 + 1] == x);
                }
            }
        }
    }
}

/// A candidate sketch realised as a chord value: default shape, the
/// sketch's root, quality and extensions.
pub open spec fn matches_sketch(c: Chord, s: (Tuning, ChordQuality, Seq<ExtensionAlter>)) -> bool {
    &&& c.root == s.0
    &&& c.quality == s.1
    &&& c.chord_type == ChordType::Triad
    &&& c.inversion == Inversion::RootPosition
    &&& c.voicing == Voicing::ClosePosition
    &&& c.extensions@ == s.2
}

impl Chord {
    /// Infer a chord from an unordered tone list: each distinct pitch
    /// class is tried as a root, the interval set above it is matched
    /// against the quality catalog, and among the viable candidates the
    /// one rooted at the lowest input tone wins (failing that, the one at
    /// the lowest pitch class). Fails with `InvalidPitch` on an empty
    /// list and with `UnsupportedChord` when no candidate is viable.
    pub fn analyze_from(tunings: &[Tuning]) -> (r: Result<Self, MusicError>)
        ensures
            tunings@.len() == 0 ==> (r matches Err(MusicError::InvalidPitch)),
            tunings@.len() > 0 ==> (match spec_analyze_chord(tunings@) {
                Some(s) => r matches Ok(c) && matches_sketch(c, s),
                None => r matches Err(MusicError::UnsupportedChord),
            }),
    {
        if tunings.len() == 0 {
            return Err(MusicError::InvalidPitch);
        }
        // The lowest input tone, by pitch number, earliest on ties.
        let mut min_tuning: Tuning = tunings[0];
        let mut mi: usize = 1;
        while mi < tunings.len()
            invariant
                tunings@.len() > 0,
                1 <= mi <= tunings@.len(),
                min_tuning == lowest_upto(tunings@, mi as nat),
            decreases tunings@.len() - mi,
        {
            if tunings[mi].number() < min_tuning.number() {
                min_tuning = tunings[mi];
            }
            mi = mi + 1;
        }
        // The sorted, duplicate-free pitch classes of the input.
        let mut classes: Vec<i8> = Vec::new();
        let mut ci: usize = 0;
        while ci < tunings.len()
            invariant
                0 <= ci <= tunings@.len(),
                crate::quality::keys_sorted(classes@),
                classes@ == classes_of(tunings@.subrange(0, ci as int)),
                forall|q: int| 0 <= q < classes@.len() ==> -11 <= #[trigger] classes@[q] <= 11,
            decreases tunings@.len() - ci,
        {
            let k: i8 = tunings[ci].class_semitones();
            proof {
                assert(-11 <= k <= 11);
            }
            let mut pos: usize = 0;
            while pos < classes.len() && classes[pos] < k
                invariant
                    crate::quality::keys_sorted(classes@),
                    0 <= pos <= classes@.len(),
                    forall|j: int| 0 <= j < pos ==> classes@[j] < k,
                decreases classes@.len() - pos,
            {
                pos = pos + 1;
            }
            proof {
                lemma_cls_insert_at(classes@, k, pos as int);
                lemma_cls_insert_sorted(classes@, k);
                assert(tunings@.subrange(0, (ci + 1) as int).drop_last() =~= tunings@.subrange(
                    0,
                    ci as int,
                ));
                assert(tunings@.subrange(0, (ci + 1) as int).last() == tunings@[ci as int]);
            }
            if !(pos < classes.len() && classes[pos] == k) {
                classes.insert(pos, k);
            }
            proof {
                assert forall|q: int| 0 <= q < classes@.len() implies -11 <= #[trigger] classes@[q]
                    <= 11 by {
                    assert(classes@.contains(classes@[q]));
                }
            }
            ci = ci + 1;
        }
        proof {
            assert(tunings@.subrange(0, tunings@.len() as int) =~= tunings@);
        }
        // One candidate per root class, in class order.
        let mut chords: Vec<Chord> = Vec::new();
        let mut ri: usize = 0;
        while ri < classes.len()
            invariant
                tunings@.len() > 0,
                classes@ == classes_of(tunings@),
                0 <= ri <= classes@.len(),
                forall|q: int| 0 <= q < classes@.len() ==> -11 <= #[trigger] classes@[q] <= 11,
                chords@.len() == candidates_upto(tunings@, classes@, ri as nat).len(),
                forall|j: int|
                    0 <= j < chords@.len() ==> matches_sketch(
                        #[trigger] chords@[j],
                        candidates_upto(tunings@, classes@, ri as nat)[j],
                    ),
            decreases classes@.len() - ri,
        {
            let rc: i8 = classes[ri];
            let ghost pre = candidates_upto(tunings@, classes@, ri as nat);
            // Intervals above this root class, ascending.
            let mut ivs: Vec<Interval> = Vec::new();
            let mut j: usize = 0;
            while j < classes.len()
                invariant
                    0 <= j <= classes@.len(),
                    rc == classes@[ri as int],
                    0 <= ri < classes@.len(),
                    forall|q: int| 0 <= q < classes@.len() ==> -11 <= #[trigger] classes@[q] <= 11,
                    ivs@ == others_upto(classes@, rc, j as nat),
                decreases classes@.len() - j,
            {
                if classes[j] != rc {
                    ivs.push(Interval::from_semitones_unchecked(classes[j] - rc));
                }
                j = j + 1;
            }
            let analysed = match ChordQuality::analyze_from(ivs.as_slice()) {
                Ok(p) => p,
                Err(_) => {
                    proof {
                        assert(false);
                    }
                    return Err(MusicError::InvalidChordQuality);
                },
            };
            // The first input tone of this class carries the spelling.
            let mut root: Tuning = tunings[0];
            let mut fi: usize = 0;
            let mut found_root: bool = false;
            while fi < tunings.len() && !found_root
                invariant
                    tunings@.len() > 0,
                    0 <= fi <= tunings@.len(),
                    !found_root ==> root == tunings@[0],
                    !found_root ==> first_with_class(tunings@, rc, fi as nat) == first_with_class(
                        tunings@,
                        rc,
                        0,
                    ),
                    found_root ==> root == first_with_class(tunings@, rc, 0),
                decreases tunings@.len() - fi, (if found_root { 0int } else { 1int }),
            {
                if tunings[fi].class_semitones() == rc {
                    root = tunings[fi];
                    found_root = true;
                } else {
                    fi = fi + 1;
                }
            }
            proof {
                if !found_root {
                    assert(first_with_class(tunings@, rc, fi as nat) == tunings@[0]);
                }
                assert(root == first_with_class(tunings@, rc, 0));
            }
            // Turn the unexplained tones into added extensions; a tone out
            // of the octave range makes the candidate unviable.
            let mut exts: Vec<ExtensionAlter> = Vec::new();
            let mut viable: bool = true;
            let mut ei: usize = 0;
            let resid = analysed.1;
            while ei < resid.len()
                invariant
                    0 <= ei <= resid@.len(),
                    viable ==> forall|q: int| 0 <= q < ei ==> add_ok(root, #[trigger] resid@[q]),
                    viable ==> exts@ == Seq::new(
                        ei as nat,
                        |i: int| ExtensionAlter::Add(spec_add_interval(root, resid@[i])),
                    ),
                    !viable ==> exists|q: int| 0 <= q < resid@.len() && !add_ok(root, #[trigger] resid@[q]),
                decreases resid@.len() - ei,
            {
                match root.add_interval(&resid[ei]) {
                    Ok(t) => {
                        proof {
                            assert(Seq::new(
                                ei as nat,
                                |i: int| ExtensionAlter::Add(spec_add_interval(root, resid@[i])),
                            ).push(ExtensionAlter::Add(spec_add_interval(root, resid@[ei as int])))
                                =~= Seq::new(
                                (ei + 1) as nat,
                                |i: int| ExtensionAlter::Add(spec_add_interval(root, resid@[i])),
                            ));
                        }
                        exts.push(ExtensionAlter::Add(t));
                    },
                    Err(_) => {
                        viable = false;
                    },
                }
                ei = ei + 1;
            }
            if viable {
                let c = Chord {
                    root,
                    quality: analysed.0,
                    chord_type: ChordType::Triad,
                    inversion: Inversion::RootPosition,
                    voicing: Voicing::ClosePosition,
                    extensions: exts,
                };
                proof {
                    assert(spec_candidate(tunings@, classes@, rc) matches Some(sk)
                        && matches_sketch(c, sk));
                    assert(candidates_upto(tunings@, classes@, (ri + 1) as nat) =~= pre.push(
                        spec_candidate(tunings@, classes@, rc).unwrap(),
                    ));
                }
                chords.push(c);
            } else {
                proof {
                    assert(spec_candidate(tunings@, classes@, rc) is None);
                    assert(candidates_upto(tunings@, classes@, (ri + 1) as nat) =~= pre);
                }
            }
            ri = ri + 1;
        }
        // Prefer the candidate rooted at the lowest input tone.
        let ghost cands = candidates_upto(tunings@, classes@, classes@.len() as nat);
        let mut si: usize = 0;
        while si < chords.len()
            invariant
                tunings@.len() > 0,
                classes@ == classes_of(tunings@),
                cands == candidates_upto(tunings@, classes@, classes@.len() as nat),
                chords@.len() == cands.len(),
                forall|j: int|
                    0 <= j < chords@.len() ==> matches_sketch(#[trigger] chords@[j], cands[j]),
                min_tuning == lowest_upto(tunings@, tunings@.len() as nat),
                0 <= si <= chords@.len(),
                first_rooted_at(cands, min_tuning, si as nat) == first_rooted_at(
                    cands,
                    min_tuning,
                    0,
                ),
            decreases chords@.len() - si,
        {
            if chords[si].root() == min_tuning {
                let c = chords[si].duplicate();
                proof {
                    assert(matches_sketch(chords@[si as int], cands[si as int]));
                    assert(cands[si as int].0 == min_tuning);
                    assert(first_rooted_at(cands, min_tuning, si as nat) == Some(
                        cands[si as int],
                    ));
                    assert(classes@ == classes_of(tunings@));
                    assert(cands == candidates_upto(
                        tunings@,
                        classes_of(tunings@),
                        classes_of(tunings@).len(),
                    ));
                    assert(min_tuning == lowest_upto(tunings@, tunings@.len()));
                    assert(first_rooted_at(cands, min_tuning, 0) == Some(cands[si as int]));
                    assert(spec_analyze_chord(tunings@) == Some(cands[si as int]));
                    assert(matches_sketch(c, cands[si as int]));
                }
                return Ok(c);
            }
            si = si + 1;
        }
        proof {
            assert(first_rooted_at(cands, min_tuning, si as nat) is None);
            assert(first_rooted_at(cands, min_tuning, 0) is None);
        }
        if chords.len() > 0 {
            let c = chords[0].duplicate();
            proof {
                assert(spec_analyze_chord(tunings@) == Some(cands.first()));
                assert(matches_sketch(c, cands.first()));
            }
            return Ok(c);
        }
        proof {
            assert(cands.len() == 0);
            assert(spec_analyze_chord(tunings@) is None);
        }
        Err(MusicError::UnsupportedChord)
    }
}


/// The scale types a chord is searched in: every named type except the
/// chromatic scale, which contains everything.
pub open spec fn in_scales_types() -> Seq<ScaleType> {
    seq![
        ScaleType::Major,
        ScaleType::NaturalMinor,
        ScaleType::HarmonicMinor,
        ScaleType::MelodicMinor,
        ScaleType::Ionian,
        ScaleType::Dorian,
        ScaleType::Phrygian,
        ScaleType::Lydian,
        ScaleType::Mixolydian,
        ScaleType::Aeolian,
        ScaleType::Locrian,
        ScaleType::PentatonicMajor,
        ScaleType::PentatonicMinor,
        ScaleType::Blues,
        ScaleType::WholeTone,
        ScaleType::Octatonic,
        ScaleType::BebopDominant,
        ScaleType::Hijaz,
        ScaleType::Hirajoshi,
        ScaleType::InSen,
    ]
}

/// The candidate scale roots: the twelve pitch classes at octave zero.
pub open spec fn in_scales_roots() -> Seq<Tuning> {
    seq![
        Tuning { class: PitchClass::C, accidentals: 0, octave: 0 },
        Tuning { class: PitchClass::Cs, accidentals: 0, octave: 0 },
        Tuning { class: PitchClass::D, accidentals: 0, octave: 0 },
        Tuning { class: PitchClass::Ds, accidentals: 0, octave: 0 },
        Tuning { class: PitchClass::E, accidentals: 0, octave: 0 },
        Tuning { class: PitchClass::F, accidentals: 0, octave: 0 },
        Tuning { class: PitchClass::Fs, accidentals: 0, octave: 0 },
        Tuning { class: PitchClass::G, accidentals: 0, octave: 0 },
        Tuning { class: PitchClass::Gs, accidentals: 0, octave: 0 },
        Tuning { class: PitchClass::A, accidentals: 0, octave: 0 },
        Tuning { class: PitchClass::As, accidentals: 0, octave: 0 },
        Tuning { class: PitchClass::B, accidentals: 0, octave: 0 },
    ]
}

/// Whether every tone of the chord, by folded pitch class, occurs in one
/// cycle of the scale's walk.
pub open spec fn chord_fits_scale(comp: Seq<Tuning>, s: Scale) -> bool {
    forall|i: int|
        0 <= i < comp.len() ==> exists|j: int|
            0 <= j <= pattern_of(s.scale_type).len() && spec_class_semitones(#[trigger] comp[i])
                == spec_class_semitones(#[trigger] s.tone(j as nat))
}

/// The scales, over the flattened type-and-root search order, whose one
/// generated cycle stays in range and contains the chord.
pub open spec fn in_scales_upto(comp: Seq<Tuning>, k: nat) -> Seq<Scale>
    decreases k,
{
    if k == 0 {
        Seq::<Scale>::empty()
    } else {
        let prev = in_scales_upto(comp, (k - 1) as nat);
        let s = Scale {
            root: in_scales_roots()[((k - 1) as int) % 12],
            scale_type: in_scales_types()[((k - 1) as int) / 12],
        };
        if s.tones_ok(pattern_of(s.scale_type).len()) && chord_fits_scale(comp, s) {
            prev.push(s)
        } else {
            prev
        }
    }
}

impl Chord {
    /// Every scale in the catalog, over the twelve roots, whose one-cycle
    /// walk stays in range and contains all of the chord's tones by
    /// folded pitch class (the chromatic scale, which contains every
    /// chord, is left out).
    #[verifier::rlimit(100)]
    #[verifier::spinoff_prover]
    pub fn in_scales(&self) -> (r: Vec<Scale>)
        requires
            components_ok(*self),
        ensures
            r@ == in_scales_upto(spec_components(*self), 240),
    {
        let comp = self.components();
        let mut chord_classes: Vec<i8> = Vec::new();
        let mut i: usize = 0;
        while i < comp.len()
            invariant
                comp@ == spec_components(*self),
                0 <= i <= comp@.len(),
                chord_classes@.len() == i,
                forall|q: int|
                    0 <= q < i ==> chord_classes@[q] == spec_class_semitones(comp@[q]),
            decreases comp@.len() - i,
        {
            chord_classes.push(comp[i].class_semitones());
            i = i + 1;
        }
        let types: Vec<ScaleType> = vec![
            ScaleType::Major,
            ScaleType::NaturalMinor,
            ScaleType::HarmonicMinor,
            ScaleType::MelodicMinor,
            ScaleType::Ionian,
            ScaleType::Dorian,
            ScaleType::Phrygian,
            ScaleType::Lydian,
            ScaleType::Mixolydian,
            ScaleType::Aeolian,
            ScaleType::Locrian,
            ScaleType::PentatonicMajor,
            ScaleType::PentatonicMinor,
            ScaleType::Blues,
            ScaleType::WholeTone,
            ScaleType::Octatonic,
            ScaleType::BebopDominant,
            ScaleType::Hijaz,
            ScaleType::Hirajoshi,
            ScaleType::InSen,
        ];
        proof {
            assert(types@ =~= in_scales_types());
        }
        let roots: Vec<Tuning> = vec![
            Tuning::new(PitchClass::C, 0),
            Tuning::new(PitchClass::Cs, 0),
            Tuning::new(PitchClass::D, 0),
            Tuning::new(PitchClass::Ds, 0),
            Tuning::new(PitchClass::E, 0),
            Tuning::new(PitchClass::F, 0),
            Tuning::new(PitchClass::Fs, 0),
            Tuning::new(PitchClass::G, 0),
            Tuning::new(PitchClass::Gs, 0),
            Tuning::new(PitchClass::A, 0),
            Tuning::new(PitchClass::As, 0),
            Tuning::new(PitchClass::B, 0),
        ];
        proof {
            assert(roots@ =~= in_scales_roots());
        }
        let mut scales: Vec<Scale> = Vec::new();
        let mut k: usize = 0;
        while k < 240
            invariant
                comp@ == spec_components(*self),
                chord_classes@.len() == comp@.len(),
                forall|q: int|
                    0 <= q < comp@.len() ==> chord_classes@[q] == spec_class_semitones(comp@[q]),
                types@ == in_scales_types(),
                roots@ == in_scales_roots(),
                0 <= k <= 240,
                scales@ == in_scales_upto(comp@, k as nat),
            decreases 240 - k,
        {
            let st: ScaleType = types[k / 12];
            let root: Tuning = roots[k % 12];
            let scale = root.scale(st);
            proof {
                assert(!(st is Custom));
                lemma_named_pattern_wf(st);
            }
            match scale.generate_tunings(0) {
                Ok(ts) => {
                    let mut fits: bool = true;
                    let mut ci: usize = 0;
                    while ci < chord_classes.len()
                        invariant
                            comp@ == spec_components(*self),
                            chord_classes@.len() == comp@.len(),
                            forall|q: int|
                                0 <= q < comp@.len() ==> chord_classes@[q]
                                    == spec_class_semitones(comp@[q]),
                            ts@.len() == pattern_of(scale.scale_type).len() + 1,
                            forall|j: int|
                                0 <= j < ts@.len() ==> #[trigger] ts@[j] == scale.tone(j as nat),
                            0 <= ci <= chord_classes@.len(),
                            fits <==> forall|q: int|
                                0 <= q < ci ==> exists|j: int|
                                    0 <= j <= pattern_of(scale.scale_type).len()
                                        && spec_class_semitones(#[trigger] comp@[q])
                                        == spec_class_semitones(#[trigger] scale.tone(j as nat)),
                        decreases chord_classes@.len() - ci,
                    {
                        let mut found: bool = false;
                        let mut j: usize = 0;
                        while j < ts.len()
                            invariant
                                ci < chord_classes@.len(),
                                chord_classes@[ci as int] == spec_class_semitones(
                                    comp@[ci as int],
                                ),
                                ts@.len() == pattern_of(scale.scale_type).len() + 1,
                                forall|q: int|
                                    0 <= q < ts@.len() ==> #[trigger] ts@[q] == scale.tone(
                                        q as nat,
                                    ),
                                0 <= j <= ts@.len(),
                                found <==> exists|w: int|
                                    0 <= w < j && spec_class_semitones(comp@[ci as int])
                                        == spec_class_semitones(#[trigger] scale.tone(w as nat)),
                            decreases ts@.len() - j,
                        {
                            proof {
                                assert(ts@[j as int] == scale.tone(j as nat));
                            }
                            if ts[j].class_semitones() == chord_classes[ci] {
                                found = true;
                            }
                            j = j + 1;
                        }
                        if !found {
                            fits = false;
                        }
                        ci = ci + 1;
                    }
                    if fits {
                        proof {
                            assert(chord_fits_scale(comp@, scale));
                        }
                        scales.push(scale);
                    } else {
                        proof {
                            assert(!chord_fits_scale(comp@, scale));
                        }
                    }
                },
                Err(_) => {},
            }
            k = k + 1;
        }
        scales
    }
}


impl Chord {
    /// Parse a chord symbol such as `Cmaj7`, `G7` or `Dbdim`: whitespace
    /// is removed everywhere, a pitch prefix is read, and the remainder
    /// must name a quality in the closed symbol table. The root sits at
    /// octave 4.
    pub fn from_str(s: &str) -> (r: Result<Self, MusicError>)
        ensures
            ({
                let f = strip_spaces(s@);
                match spec_take(f) {
                    Ok(p) => match quality_of_symbol(f.subrange(p.1, f.len() as int)) {
                        Some(q) => r matches Ok(c) && c.root == p.0 && c.quality == q
                            && c.chord_type == ChordType::Triad && c.inversion
                            == Inversion::RootPosition && c.voicing == Voicing::ClosePosition
                            && c.extensions@ == Seq::<ExtensionAlter>::empty(),
                        None => r matches Err(MusicError::InvalidIntervalQuality),
                    },
                    Err(_) => r matches Err(MusicError::InvalidPitch),
                }
            }),
    {
        let v = chars_of(s);
        let f = strip_space_chars(&v);
        let taken = match Tuning::take_chars(&f) {
            Ok(p) => p,
            Err(e) => {
                return Err(MusicError::InvalidPitch);
            },
        };
        let root = taken.0;
        let used = taken.1;
        proof {
            assert(spec_take(f@) matches Ok(p) && p.1 == used as int && p.0 == root);
        }
        let quality = match quality_from_chars(&f, used) {
            Ok(q) => q,
            Err(e) => {
                return Err(MusicError::InvalidIntervalQuality);
            },
        };
        Chord::new(root, quality)
    }

    /// Parse a chord symbol; the entry point mirrors `from_str`.
    pub fn from_symbol(symbol: &str) -> (r: Result<Self, MusicError>)
        ensures
            ({
                let f = strip_spaces(symbol@);
                match spec_take(f) {
                    Ok(p) => match quality_of_symbol(f.subrange(p.1, f.len() as int)) {
                        Some(q) => r matches Ok(c) && c.root == p.0 && c.quality == q
                            && c.chord_type == ChordType::Triad && c.inversion
                            == Inversion::RootPosition && c.voicing == Voicing::ClosePosition
                            && c.extensions@ == Seq::<ExtensionAlter>::empty(),
                        None => r matches Err(MusicError::InvalidIntervalQuality),
                    },
                    Err(_) => r matches Err(MusicError::InvalidPitch),
                }
            }),
    {
        Chord::from_str(symbol)
    }

    /// The chord's printed symbol: the root's name followed by the
    /// quality shorthand.
    pub fn to_string(&self) -> (r: String)
        ensures
            r@ == class_symbol(self.root.class) + acc_marks(self.root.accidentals as int)
                + quality_symbol(self.quality),
    {
        let mut out = self.root.to_string();
        let suffix = self.quality.to_string();
        out.append(suffix.as_str());
        out
    }
}


/// The first viable candidate sits at index 0 of the candidate list when
/// the first root class yields one.
proof fn lemma_candidates_first(
    ts: Seq<Tuning>,
    classes: Seq<i8>,
    i: nat,
    c0: (Tuning, ChordQuality, Seq<ExtensionAlter>),
)
    requires
        i >= 1,
        classes.len() >= 1,
        spec_candidate(ts, classes, classes[0]) == Some(c0),
    ensures
        candidates_upto(ts, classes, i).len() >= 1,
        candidates_upto(ts, classes, i)[0] == c0,
    decreases i,
{
    if i == 1 {
        assert(candidates_upto(ts, classes, 0) =~= Seq::empty());
        assert(candidates_upto(ts, classes, 1) == candidates_upto(ts, classes, 0).push(c0));
        assert(candidates_upto(ts, classes, 1)[0] == c0);
    } else {
        lemma_candidates_first(ts, classes, (i - 1) as nat, c0);
        let prev = candidates_upto(ts, classes, (i - 1) as nat);
        match spec_candidate(ts, classes, classes[i - 1]) {
            Some(cx) => {
                assert(candidates_upto(ts, classes, i) == prev.push(cx));
                assert(prev.push(cx)[0] == prev[0]);
            },
            None => {
                assert(candidates_upto(ts, classes, i) == prev);
            },
        }
    }
}

/// The chord-level round trip over middle C, for one catalog entry.
#[verifier::spinoff_prover]
#[verifier::rlimit(100)]
proof fn lemma_chord_roundtrip_major(c: Chord)
    requires
        c.root == (Tuning { class: PitchClass::C, accidentals: 0, octave: 4 }),
        c.quality == ChordQuality::Major,
        c.chord_type == ChordType::Triad,
        c.inversion == Inversion::RootPosition,
        c.voicing == Voicing::ClosePosition,
        c.extensions@ == Seq::<ExtensionAlter>::empty(),
    ensures
        components_ok(c),
        spec_analyze_chord(spec_components(c)) == Some(
            (c.root, c.quality, Seq::<ExtensionAlter>::empty()),
        ),
{
    reveal_with_fuel(crate::tuning::spec_add_accidentals, 4);
    reveal_with_fuel(crate::tuning::octave_correct, 3);
    reveal_with_fuel(cls_insert, 5);
    let c4 = Tuning { class: PitchClass::C, accidentals: 0, octave: 4 };
    let iv1 = named_interval(IntervalQuality::Major, 3, 4);
    let iv2 = named_interval(IntervalQuality::Perfect, 5, 7);
    let t1 = Tuning { class: PitchClass::E, accidentals: 0, octave: 4 };
    let t2 = Tuning { class: PitchClass::G, accidentals: 0, octave: 4 };
    assert(build_ext(c4, quality_intervals(c.quality), Seq::<ExtensionAlter>::empty()) == (
        Seq::<Interval>::empty(),
        Seq::<Interval>::empty(),
    ));
    assert(quality_intervals(c.quality) + Seq::<Interval>::empty() =~= quality_intervals(
        c.quality,
    ));
    assert(chord_intervals(c) == quality_intervals(c.quality));
    assert(quality_intervals(c.quality) =~= seq![iv1, iv2]);
    assert(add_ok(c4, iv1));
    assert(spec_add_interval(c4, iv1) == t1);
    assert(add_ok(c4, iv2));
    assert(spec_add_interval(c4, iv2) == t2);
    assert(spec_components_base(c) =~= seq![c4, t1, t2]);
    assert(spec_apply_inversion(seq![c4, t1, t2], Inversion::RootPosition) == seq![c4, t1, t2]);
    assert(spec_close_voicing(seq![c4, t1, t2]) =~= seq![c4, t1, t2]);
    let comp = spec_components(c);
    assert(comp == seq![c4, t1, t2]);
    assert forall|i: int| 0 <= i < chord_intervals(c).len() implies add_ok(c.root, #[trigger] chord_intervals(c)[i]) by {
        if i == 0 {
            assert(chord_intervals(c)[0] == iv1);
        }
        else if i == 1 {
            assert(chord_intervals(c)[1] == iv2);
        }
    }
    assert forall|i: int| 0 <= i < spec_components_base(c).len() implies (#[trigger] spec_components_base(c)[i]).octave < 127 by {
        assert(spec_components_base(c)[i] == seq![c4, t1, t2][i]);
    }
    assert(components_ok(c));
    assert(spec_number(c4) == 60);
    assert(spec_number(t1) == 64);
    assert(spec_number(t2) == 67);
    assert(lowest_upto(comp, 1) == c4);
    assert(lowest_upto(comp, 2) == c4);
    assert(lowest_upto(comp, 3) == c4);
    assert(crate::tuning::spec_class_semitones(c4) == 0);
    assert(crate::tuning::spec_class_semitones(t1) == 4);
    assert(crate::tuning::spec_class_semitones(t2) == 7);
    assert(seq![c4].drop_last() =~= Seq::<Tuning>::empty());
    assert(classes_of(Seq::<Tuning>::empty()) =~= Seq::<i8>::empty());
    assert(seq![c4, t1].drop_last() =~= seq![c4]);
    assert(seq![c4, t1, t2].drop_last() =~= seq![c4, t1]);
    assert(classes_of(seq![c4]) =~= seq![0i8]);
    assert(classes_of(seq![c4, t1]) =~= seq![0i8, 4i8]);
    assert(classes_of(seq![c4, t1, t2]) =~= seq![0i8, 4i8, 7i8]);
    let classes = classes_of(comp);
    assert(classes == seq![0i8, 4i8, 7i8]);
    assert(others_upto(classes, 0i8, 0) =~= Seq::<Interval>::empty());
    assert(others_upto(classes, 0i8, 1) =~= Seq::<Interval>::empty());
    assert(others_upto(classes, 0i8, 2) =~= seq![interval_of_semitones(4)]);
    assert(others_upto(classes, 0i8, 3) =~= seq![interval_of_semitones(4), interval_of_semitones(7)]);
    let others = others_upto(classes, 0i8, classes.len());
    assert(others == seq![interval_of_semitones(4), interval_of_semitones(7)]);
    crate::quality::lemma_kv_pair(interval_of_semitones(4), interval_of_semitones(7), 4i8, 7i8);
    crate::quality::lemma_exact_major(others);
    assert(spec_analyze(others) == (ChordQuality::Major, Seq::<Interval>::empty()));
    assert(first_with_class(comp, 0i8, 0) == c4);
    let sketch = (c4, ChordQuality::Major, Seq::<ExtensionAlter>::empty());
    assert(spec_candidate(comp, classes, 0i8) == Some(sketch)) by {
        assert(Seq::new(
            spec_analyze(others).1.len(),
            |i: int| ExtensionAlter::Add(spec_add_interval(c4, spec_analyze(others).1[i])),
        ) =~= Seq::<ExtensionAlter>::empty());
    }
    lemma_candidates_first(comp, classes, classes.len(), sketch);
    let cands = candidates_upto(comp, classes, classes.len());
    assert(first_rooted_at(cands, c4, 0) == Some(sketch));
    assert(lowest_upto(comp, comp.len()) == c4);
    assert(spec_analyze_chord(comp) == Some(sketch));
}

/// The chord-level round trip over middle C, for one catalog entry.
#[verifier::spinoff_prover]
#[verifier::rlimit(100)]
proof fn lemma_chord_roundtrip_minor(c: Chord)
    requires
        c.root == (Tuning { class: PitchClass::C, accidentals: 0, octave: 4 }),
        c.quality == ChordQuality::Minor,
        c.chord_type == ChordType::Triad,
        c.inversion == Inversion::RootPosition,
        c.voicing == Voicing::ClosePosition,
        c.extensions@ == Seq::<ExtensionAlter>::empty(),
    ensures
        components_ok(c),
        spec_analyze_chord(spec_components(c)) == Some(
            (c.root, c.quality, Seq::<ExtensionAlter>::empty()),
        ),
{
    reveal_with_fuel(crate::tuning::spec_add_accidentals, 4);
    reveal_with_fuel(crate::tuning::octave_correct, 3);
    reveal_with_fuel(cls_insert, 5);
    let c4 = Tuning { class: PitchClass::C, accidentals: 0, octave: 4 };
    let iv1 = named_interval(IntervalQuality::Minor, 3, 3);
    let iv2 = named_interval(IntervalQuality::Perfect, 5, 7);
    let t1 = Tuning { class: PitchClass::Eb, accidentals: 0, octave: 4 };
    let t2 = Tuning { class: PitchClass::G, accidentals: 0, octave: 4 };
    assert(build_ext(c4, quality_intervals(c.quality), Seq::<ExtensionAlter>::empty()) == (
        Seq::<Interval>::empty(),
        Seq::<Interval>::empty(),
    ));
    assert(quality_intervals(c.quality) + Seq::<Interval>::empty() =~= quality_intervals(
        c.quality,
    ));
    assert(chord_intervals(c) == quality_intervals(c.quality));
    assert(quality_intervals(c.quality) =~= seq![iv1, iv2]);
    assert(add_ok(c4, iv1));
    assert(spec_add_interval(c4, iv1) == t1);
    assert(add_ok(c4, iv2));
    assert(spec_add_interval(c4, iv2) == t2);
    assert(spec_components_base(c) =~= seq![c4, t1, t2]);
    assert(spec_apply_inversion(seq![c4, t1, t2], Inversion::RootPosition) == seq![c4, t1, t2]);
    assert(spec_close_voicing(seq![c4, t1, t2]) =~= seq![c4, t1, t2]);
    let comp = spec_components(c);
    assert(comp == seq![c4, t1, t2]);
    assert forall|i: int| 0 <= i < chord_intervals(c).len() implies add_ok(c.root, #[trigger] chord_intervals(c)[i]) by {
        if i == 0 {
            assert(chord_intervals(c)[0] == iv1);
        }
        else if i == 1 {
            assert(chord_intervals(c)[1] == iv2);
        }
    }
    assert forall|i: int| 0 <= i < spec_components_base(c).len() implies (#[trigger] spec_components_base(c)[i]).octave < 127 by {
        assert(spec_components_base(c)[i] == seq![c4, t1, t2][i]);
    }
    assert(components_ok(c));
    assert(spec_number(c4) == 60);
    assert(spec_number(t1) == 63);
    assert(spec_number(t2) == 67);
    assert(lowest_upto(comp, 1) == c4);
    assert(lowest_upto(comp, 2) == c4);
    assert(lowest_upto(comp, 3) == c4);
    assert(crate::tuning::spec_class_semitones(c4) == 0);
    assert(crate::tuning::spec_class_semitones(t1) == 3);
    assert(crate::tuning::spec_class_semitones(t2) == 7);
    assert(seq![c4].drop_last() =~= Seq::<Tuning>::empty());
    assert(classes_of(Seq::<Tuning>::empty()) =~= Seq::<i8>::empty());
    assert(seq![c4, t1].drop_last() =~= seq![c4]);
    assert(seq![c4, t1, t2].drop_last() =~= seq![c4, t1]);
    assert(classes_of(seq![c4]) =~= seq![0i8]);
    assert(classes_of(seq![c4, t1]) =~= seq![0i8, 3i8]);
    assert(classes_of(seq![c4, t1, t2]) =~= seq![0i8, 3i8, 7i8]);
    let classes = classes_of(comp);
    assert(classes == seq![0i8, 3i8, 7i8]);
    assert(others_upto(classes, 0i8, 0) =~= Seq::<Interval>::empty());
    assert(others_upto(classes, 0i8, 1) =~= Seq::<Interval>::empty());
    assert(others_upto(classes, 0i8, 2) =~= seq![interval_of_semitones(3)]);
    assert(others_upto(classes, 0i8, 3) =~= seq![interval_of_semitones(3), interval_of_semitones(7)]);
    let others = others_upto(classes, 0i8, classes.len());
    assert(others == seq![interval_of_semitones(3), interval_of_semitones(7)]);
    crate::quality::lemma_kv_pair(interval_of_semitones(3), interval_of_semitones(7), 3i8, 7i8);
    crate::quality::lemma_exact_minor(others);
    assert(spec_analyze(others) == (ChordQuality::Minor, Seq::<Interval>::empty()));
    assert(first_with_class(comp, 0i8, 0) == c4);
    let sketch = (c4, ChordQuality::Minor, Seq::<ExtensionAlter>::empty());
    assert(spec_candidate(comp, classes, 0i8) == Some(sketch)) by {
        assert(Seq::new(
            spec_analyze(others).1.len(),
            |i: int| ExtensionAlter::Add(spec_add_interval(c4, spec_analyze(others).1[i])),
        ) =~= Seq::<ExtensionAlter>::empty());
    }
    lemma_candidates_first(comp, classes, classes.len(), sketch);
    let cands = candidates_upto(comp, classes, classes.len());
    assert(first_rooted_at(cands, c4, 0) == Some(sketch));
    assert(lowest_upto(comp, comp.len()) == c4);
    assert(spec_analyze_chord(comp) == Some(sketch));
}

/// The chord-level round trip over middle C, for one catalog entry.
#[verifier::spinoff_prover]
#[verifier::rlimit(100)]
proof fn lemma_chord_roundtrip_diminished(c: Chord)
    requires
        c.root == (Tuning { class: PitchClass::C, accidentals: 0, octave: 4 }),
        c.quality == ChordQuality::Diminished,
        c.chord_type == ChordType::Triad,
        c.inversion == Inversion::RootPosition,
        c.voicing == Voicing::ClosePosition,
        c.extensions@ == Seq::<ExtensionAlter>::empty(),
    ensures
        components_ok(c),
        spec_analyze_chord(spec_components(c)) == Some(
            (c.root, c.quality, Seq::<ExtensionAlter>::empty()),
        ),
{
    reveal_with_fuel(crate::tuning::spec_add_accidentals, 4);
    reveal_with_fuel(crate::tuning::octave_correct, 3);
    reveal_with_fuel(cls_insert, 5);
    let c4 = Tuning { class: PitchClass::C, accidentals: 0, octave: 4 };
    let iv1 = named_interval(IntervalQuality::Minor, 3, 3);
    let iv2 = named_interval(IntervalQuality::Diminished, 5, 6);
    let t1 = Tuning { class: PitchClass::Eb, accidentals: 0, octave: 4 };
    let t2 = Tuning { class: PitchClass::Gb, accidentals: 0, octave: 4 };
    assert(build_ext(c4, quality_intervals(c.quality), Seq::<ExtensionAlter>::empty()) == (
        Seq::<Interval>::empty(),
        Seq::<Interval>::empty(),
    ));
    assert(quality_intervals(c.quality) + Seq::<Interval>::empty() =~= quality_intervals(
        c.quality,
    ));
    assert(chord_intervals(c) == quality_intervals(c.quality));
    assert(quality_intervals(c.quality) =~= seq![iv1, iv2]);
    assert(add_ok(c4, iv1));
    assert(spec_add_interval(c4, iv1) == t1);
    assert(add_ok(c4, iv2));
    assert(spec_add_interval(c4, iv2) == t2);
    assert(spec_components_base(c) =~= seq![c4, t1, t2]);
    assert(spec_apply_inversion(seq![c4, t1, t2], Inversion::RootPosition) == seq![c4, t1, t2]);
    assert(spec_close_voicing(seq![c4, t1, t2]) =~= seq![c4, t1, t2]);
    let comp = spec_components(c);
    assert(comp == seq![c4, t1, t2]);
    assert forall|i: int| 0 <= i < chord_intervals(c).len() implies add_ok(c.root, #[trigger] chord_intervals(c)[i]) by {
        if i == 0 {
            assert(chord_intervals(c)[0] == iv1);
        }
        else if i == 1 {
            assert(chord_intervals(c)[1] == iv2);
        }
    }
    assert forall|i: int| 0 <= i < spec_components_base(c).len() implies (#[trigger] spec_components_base(c)[i]).octave < 127 by {
        assert(spec_components_base(c)[i] == seq![c4, t1, t2][i]);
    }
    assert(components_ok(c));
    assert(spec_number(c4) == 60);
    assert(spec_number(t1) == 63);
    assert(spec_number(t2) == 66);
    assert(lowest_upto(comp, 1) == c4);
    assert(lowest_upto(comp, 2) == c4);
    assert(lowest_upto(comp, 3) == c4);
    assert(crate::tuning::spec_class_semitones(c4) == 0);
    assert(crate::tuning::spec_class_semitones(t1) == 3);
    assert(crate::tuning::spec_class_semitones(t2) == 6);
    assert(seq![c4].drop_last() =~= Seq::<Tuning>::empty());
    assert(classes_of(Seq::<Tuning>::empty()) =~= Seq::<i8>::empty());
    assert(seq![c4, t1].drop_last() =~= seq![c4]);
    assert(seq![c4, t1, t2].drop_last() =~= seq![c4, t1]);
    assert(classes_of(seq![c4]) =~= seq![0i8]);
    assert(classes_of(seq![c4, t1]) =~= seq![0i8, 3i8]);
    assert(classes_of(seq![c4, t1, t2]) =~= seq![0i8, 3i8, 6i8]);
    let classes = classes_of(comp);
    assert(classes == seq![0i8, 3i8, 6i8]);
    assert(others_upto(classes, 0i8, 0) =~= Seq::<Interval>::empty());
    assert(others_upto(classes, 0i8, 1) =~= Seq::<Interval>::empty());
    assert(others_upto(classes, 0i8, 2) =~= seq![interval_of_semitones(3)]);
    assert(others_upto(classes, 0i8, 3) =~= seq![interval_of_semitones(3), interval_of_semitones(6)]);
    let others = others_upto(classes, 0i8, classes.len());
    assert(others == seq![interval_of_semitones(3), interval_of_semitones(6)]);
    crate::quality::lemma_kv_pair(interval_of_semitones(3), interval_of_semitones(6), 3i8, 6i8);
    crate::quality::lemma_exact_diminished(others);
    assert(spec_analyze(others) == (ChordQuality::Diminished, Seq::<Interval>::empty()));
    assert(first_with_class(comp, 0i8, 0) == c4);
    let sketch = (c4, ChordQuality::Diminished, Seq::<ExtensionAlter>::empty());
    assert(spec_candidate(comp, classes, 0i8) == Some(sketch)) by {
        assert(Seq::new(
            spec_analyze(others).1.len(),
            |i: int| ExtensionAlter::Add(spec_add_interval(c4, spec_analyze(others).1[i])),
        ) =~= Seq::<ExtensionAlter>::empty());
    }
    lemma_candidates_first(comp, classes, classes.len(), sketch);
    let cands = candidates_upto(comp, classes, classes.len());
    assert(first_rooted_at(cands, c4, 0) == Some(sketch));
    assert(lowest_upto(comp, comp.len()) == c4);
    assert(spec_analyze_chord(comp) == Some(sketch));
}

/// The chord-level round trip over middle C, for one catalog entry.
#[verifier::spinoff_prover]
#[verifier::rlimit(100)]
proof fn lemma_chord_roundtrip_augmented(c: Chord)
    requires
        c.root == (Tuning { class: PitchClass::C, accidentals: 0, octave: 4 }),
        c.quality == ChordQuality::Augmented,
        c.chord_type == ChordType::Triad,
        c.inversion == Inversion::RootPosition,
        c.voicing == Voicing::ClosePosition,
        c.extensions@ == Seq::<ExtensionAlter>::empty(),
    ensures
        components_ok(c),
        spec_analyze_chord(spec_components(c)) == Some(
            (c.root, c.quality, Seq::<ExtensionAlter>::empty()),
        ),
{
    reveal_with_fuel(crate::tuning::spec_add_accidentals, 4);
    reveal_with_fuel(crate::tuning::octave_correct, 3);
    reveal_with_fuel(cls_insert, 5);
    let c4 = Tuning { class: PitchClass::C, accidentals: 0, octave: 4 };
    let iv1 = named_interval(IntervalQuality::Major, 3, 4);
    let iv2 = named_interval(IntervalQuality::Augmented, 5, 8);
    let t1 = Tuning { class: PitchClass::E, accidentals: 0, octave: 4 };
    let t2 = Tuning { class: PitchClass::Gs, accidentals: 0, octave: 4 };
    assert(build_ext(c4, quality_intervals(c.quality), Seq::<ExtensionAlter>::empty()) == (
        Seq::<Interval>::empty(),
        Seq::<Interval>::empty(),
    ));
    assert(quality_intervals(c.quality) + Seq::<Interval>::empty() =~= quality_intervals(
        c.quality,
    ));
    assert(chord_intervals(c) == quality_intervals(c.quality));
    assert(quality_intervals(c.quality) =~= seq![iv1, iv2]);
    assert(add_ok(c4, iv1));
    assert(spec_add_interval(c4, iv1) == t1);
    assert(add_ok(c4, iv2));
    assert(spec_add_interval(c4, iv2) == t2);
    assert(spec_components_base(c) =~= seq![c4, t1, t2]);
    assert(spec_apply_inversion(seq![c4, t1, t2], Inversion::RootPosition) == seq![c4, t1, t2]);
    assert(spec_close_voicing(seq![c4, t1, t2]) =~= seq![c4, t1, t2]);
    let comp = spec_components(c);
    assert(comp == seq![c4, t1, t2]);
    assert forall|i: int| 0 <= i < chord_intervals(c).len() implies add_ok(c.root, #[trigger] chord_intervals(c)[i]) by {
        if i == 0 {
            assert(chord_intervals(c)[0] == iv1);
        }
        else if i == 1 {
            assert(chord_intervals(c)[1] == iv2);
        }
    }
    assert forall|i: int| 0 <= i < spec_components_base(c).len() implies (#[trigger] spec_components_base(c)[i]).octave < 127 by {
        assert(spec_components_base(c)[i] == seq![c4, t1, t2][i]);
    }
    assert(components_ok(c));
    assert(spec_number(c4) == 60);
    assert(spec_number(t1) == 64);
    assert(spec_number(t2) == 68);
    assert(lowest_upto(comp, 1) == c4);
    assert(lowest_upto(comp, 2) == c4);
    assert(lowest_upto(comp, 3) == c4);
    assert(crate::tuning::spec_class_semitones(c4) == 0);
    assert(crate::tuning::spec_class_semitones(t1) == 4);
    assert(crate::tuning::spec_class_semitones(t2) == 8);
    assert(seq![c4].drop_last() =~= Seq::<Tuning>::empty());
    assert(classes_of(Seq::<Tuning>::empty()) =~= Seq::<i8>::empty());
    assert(seq![c4, t1].drop_last() =~= seq![c4]);
    assert(seq![c4, t1, t2].drop_last() =~= seq![c4, t1]);
    assert(classes_of(seq![c4]) =~= seq![0i8]);
    assert(classes_of(seq![c4, t1]) =~= seq![0i8, 4i8]);
    assert(classes_of(seq![c4, t1, t2]) =~= seq![0i8, 4i8, 8i8]);
    let classes = classes_of(comp);
    assert(classes == seq![0i8, 4i8, 8i8]);
    assert(others_upto(classes, 0i8, 0) =~= Seq::<Interval>::empty());
    assert(others_upto(classes, 0i8, 1) =~= Seq::<Interval>::empty());
    assert(others_upto(classes, 0i8, 2) =~= seq![interval_of_semitones(4)]);
    assert(others_upto(classes, 0i8, 3) =~= seq![interval_of_semitones(4), interval_of_semitones(8)]);
    let others = others_upto(classes, 0i8, classes.len());
    assert(others == seq![interval_of_semitones(4), interval_of_semitones(8)]);
    crate::quality::lemma_kv_pair(interval_of_semitones(4), interval_of_semitones(8), 4i8, 8i8);
    crate::quality::lemma_exact_augmented(others);
    assert(spec_analyze(others) == (ChordQuality::Augmented, Seq::<Interval>::empty()));
    assert(first_with_class(comp, 0i8, 0) == c4);
    let sketch = (c4, ChordQuality::Augmented, Seq::<ExtensionAlter>::empty());
    assert(spec_candidate(comp, classes, 0i8) == Some(sketch)) by {
        assert(Seq::new(
            spec_analyze(others).1.len(),
            |i: int| ExtensionAlter::Add(spec_add_interval(c4, spec_analyze(others).1[i])),
        ) =~= Seq::<ExtensionAlter>::empty());
    }
    lemma_candidates_first(comp, classes, classes.len(), sketch);
    let cands = candidates_upto(comp, classes, classes.len());
    assert(first_rooted_at(cands, c4, 0) == Some(sketch));
    assert(lowest_upto(comp, comp.len()) == c4);
    assert(spec_analyze_chord(comp) == Some(sketch));
}

/// The chord-level round trip over middle C, for one catalog entry.
#[verifier::spinoff_prover]
#[verifier::rlimit(100)]
proof fn lemma_chord_roundtrip_major7(c: Chord)
    requires
        c.root == (Tuning { class: PitchClass::C, accidentals: 0, octave: 4 }),
        c.quality == ChordQuality::Major7,
        c.chord_type == ChordType::Triad,
        c.inversion == Inversion::RootPosition,
        c.voicing == Voicing::ClosePosition,
        c.extensions@ == Seq::<ExtensionAlter>::empty(),
    ensures
        components_ok(c),
        spec_analyze_chord(spec_components(c)) == Some(
            (c.root, c.quality, Seq::<ExtensionAlter>::empty()),
        ),
{
    reveal_with_fuel(crate::tuning::spec_add_accidentals, 4);
    reveal_with_fuel(crate::tuning::octave_correct, 3);
    reveal_with_fuel(cls_insert, 5);
    let c4 = Tuning { class: PitchClass::C, accidentals: 0, octave: 4 };
    let iv1 = named_interval(IntervalQuality::Major, 3, 4);
    let iv2 = named_interval(IntervalQuality::Perfect, 5, 7);
    let iv3 = named_interval(IntervalQuality::Major, 7, 11);
    let t1 = Tuning { class: PitchClass::E, accidentals: 0, octave: 4 };
    let t2 = Tuning { class: PitchClass::G, accidentals: 0, octave: 4 };
    let t3 = Tuning { class: PitchClass::B, accidentals: 0, octave: 4 };
    assert(build_ext(c4, quality_intervals(c.quality), Seq::<ExtensionAlter>::empty()) == (
        Seq::<Interval>::empty(),
        Seq::<Interval>::empty(),
    ));
    assert(quality_intervals(c.quality) + Seq::<Interval>::empty() =~= quality_intervals(
        c.quality,
    ));
    assert(chord_intervals(c) == quality_intervals(c.quality));
    assert(quality_intervals(c.quality) =~= seq![iv1, iv2, iv3]);
    assert(add_ok(c4, iv1));
    assert(spec_add_interval(c4, iv1) == t1);
    assert(add_ok(c4, iv2));
    assert(spec_add_interval(c4, iv2) == t2);
    assert(add_ok(c4, iv3));
    assert(spec_add_interval(c4, iv3) == t3);
    assert(spec_components_base(c) =~= seq![c4, t1, t2, t3]);
    assert(spec_apply_inversion(seq![c4, t1, t2, t3], Inversion::RootPosition) == seq![c4, t1, t2, t3]);
    assert(spec_close_voicing(seq![c4, t1, t2, t3]) =~= seq![c4, t1, t2, t3]);
    let comp = spec_components(c);
    assert(comp == seq![c4, t1, t2, t3]);
    assert forall|i: int| 0 <= i < chord_intervals(c).len() implies add_ok(c.root, #[trigger] chord_intervals(c)[i]) by {
        if i == 0 {
            assert(chord_intervals(c)[0] == iv1);
        }
        else if i == 1 {
            assert(chord_intervals(c)[1] == iv2);
        }
        else if i == 2 {
            assert(chord_intervals(c)[2] == iv3);
        }
    }
    assert forall|i: int| 0 <= i < spec_components_base(c).len() implies (#[trigger] spec_components_base(c)[i]).octave < 127 by {
        assert(spec_components_base(c)[i] == seq![c4, t1, t2, t3][i]);
    }
    assert(components_ok(c));
    assert(spec_number(c4) == 60);
    assert(spec_number(t1) == 64);
    assert(spec_number(t2) == 67);
    assert(spec_number(t3) == 71);
    assert(lowest_upto(comp, 1) == c4);
    assert(lowest_upto(comp, 2) == c4);
    assert(lowest_upto(comp, 3) == c4);
    assert(lowest_upto(comp, 4) == c4);
    assert(crate::tuning::spec_class_semitones(c4) == 0);
    assert(crate::tuning::spec_class_semitones(t1) == 4);
    assert(crate::tuning::spec_class_semitones(t2) == 7);
    assert(crate::tuning::spec_class_semitones(t3) == 11);
    assert(seq![c4].drop_last() =~= Seq::<Tuning>::empty());
    assert(classes_of(Seq::<Tuning>::empty()) =~= Seq::<i8>::empty());
    assert(seq![c4, t1].drop_last() =~= seq![c4]);
    assert(seq![c4, t1, t2].drop_last() =~= seq![c4, t1]);
    assert(seq![c4, t1, t2, t3].drop_last() =~= seq![c4, t1, t2]);
    assert(classes_of(seq![c4]) =~= seq![0i8]);
    assert(classes_of(seq![c4, t1]) =~= seq![0i8, 4i8]);
    assert(classes_of(seq![c4, t1, t2]) =~= seq![0i8, 4i8, 7i8]);
    assert(classes_of(seq![c4, t1, t2, t3]) =~= seq![0i8, 4i8, 7i8, 11i8]);
    let classes = classes_of(comp);
    assert(classes == seq![0i8, 4i8, 7i8, 11i8]);
    assert(others_upto(classes, 0i8, 0) =~= Seq::<Interval>::empty());
    assert(others_upto(classes, 0i8, 1) =~= Seq::<Interval>::empty());
    assert(others_upto(classes, 0i8, 2) =~= seq![interval_of_semitones(4)]);
    assert(others_upto(classes, 0i8, 3) =~= seq![interval_of_semitones(4), interval_of_semitones(7)]);
    assert(others_upto(classes, 0i8, 4) =~= seq![interval_of_semitones(4), interval_of_semitones(7), interval_of_semitones(11)]);
    let others = others_upto(classes, 0i8, classes.len());
    assert(others == seq![interval_of_semitones(4), interval_of_semitones(7), interval_of_semitones(11)]);
    crate::quality::lemma_kv_triple(interval_of_semitones(4), interval_of_semitones(7), interval_of_semitones(11), 4i8, 7i8, 11i8);
    crate::quality::lemma_exact_major7(others);
    assert(spec_analyze(others) == (ChordQuality::Major7, Seq::<Interval>::empty()));
    assert(first_with_class(comp, 0i8, 0) == c4);
    let sketch = (c4, ChordQuality::Major7, Seq::<ExtensionAlter>::empty());
    assert(spec_candidate(comp, classes, 0i8) == Some(sketch)) by {
        assert(Seq::new(
            spec_analyze(others).1.len(),
            |i: int| ExtensionAlter::Add(spec_add_interval(c4, spec_analyze(others).1[i])),
        ) =~= Seq::<ExtensionAlter>::empty());
    }
    lemma_candidates_first(comp, classes, classes.len(), sketch);
    let cands = candidates_upto(comp, classes, classes.len());
    assert(first_rooted_at(cands, c4, 0) == Some(sketch));
    assert(lowest_upto(comp, comp.len()) == c4);
    assert(spec_analyze_chord(comp) == Some(sketch));
}

/// The chord-level round trip over middle C, for one catalog entry.
#[verifier::spinoff_prover]
#[verifier::rlimit(100)]
proof fn lemma_chord_roundtrip_dominant7(c: Chord)
    requires
        c.root == (Tuning { class: PitchClass::C, accidentals: 0, octave: 4 }),
        c.quality == ChordQuality::Dominant7,
        c.chord_type == ChordType::Triad,
        c.inversion == Inversion::RootPosition,
        c.voicing == Voicing::ClosePosition,
        c.extensions@ == Seq::<ExtensionAlter>::empty(),
    ensures
        components_ok(c),
        spec_analyze_chord(spec_components(c)) == Some(
            (c.root, c.quality, Seq::<ExtensionAlter>::empty()),
        ),
{
    reveal_with_fuel(crate::tuning::spec_add_accidentals, 4);
    reveal_with_fuel(crate::tuning::octave_correct, 3);
    reveal_with_fuel(cls_insert, 5);
    let c4 = Tuning { class: PitchClass::C, accidentals: 0, octave: 4 };
    let iv1 = named_interval(IntervalQuality::Major, 3, 4);
    let iv2 = named_interval(IntervalQuality::Perfect, 5, 7);
    let iv3 = named_interval(IntervalQuality::Minor, 7, 10);
    let t1 = Tuning { class: PitchClass::E, accidentals: 0, octave: 4 };
    let t2 = Tuning { class: PitchClass::G, accidentals: 0, octave: 4 };
    let t3 = Tuning { class: PitchClass::Bb, accidentals: 0, octave: 4 };
    assert(build_ext(c4, quality_intervals(c.quality), Seq::<ExtensionAlter>::empty()) == (
        Seq::<Interval>::empty(),
        Seq::<Interval>::empty(),
    ));
    assert(quality_intervals(c.quality) + Seq::<Interval>::empty() =~= quality_intervals(
        c.quality,
    ));
    assert(chord_intervals(c) == quality_intervals(c.quality));
    assert(quality_intervals(c.quality) =~= seq![iv1, iv2, iv3]);
    assert(add_ok(c4, iv1));
    assert(spec_add_interval(c4, iv1) == t1);
    assert(add_ok(c4, iv2));
    assert(spec_add_interval(c4, iv2) == t2);
    assert(add_ok(c4, iv3));
    assert(spec_add_interval(c4, iv3) == t3);
    assert(spec_components_base(c) =~= seq![c4, t1, t2, t3]);
    assert(spec_apply_inversion(seq![c4, t1, t2, t3], Inversion::RootPosition) == seq![c4, t1, t2, t3]);
    assert(spec_close_voicing(seq![c4, t1, t2, t3]) =~= seq![c4, t1, t2, t3]);
    let comp = spec_components(c);
    assert(comp == seq![c4, t1, t2, t3]);
    assert forall|i: int| 0 <= i < chord_intervals(c).len() implies add_ok(c.root, #[trigger] chord_intervals(c)[i]) by {
        if i == 0 {
            assert(chord_intervals(c)[0] == iv1);
        }
        else if i == 1 {
            assert(chord_intervals(c)[1] == iv2);
        }
        else if i == 2 {
            assert(chord_intervals(c)[2] == iv3);
        }
    }
    assert forall|i: int| 0 <= i < spec_components_base(c).len() implies (#[trigger] spec_components_base(c)[i]).octave < 127 by {
        assert(spec_components_base(c)[i] == seq![c4, t1, t2, t3][i]);
    }
    assert(components_ok(c));
    assert(spec_number(c4) == 60);
    assert(spec_number(t1) == 64);
    assert(spec_number(t2) == 67);
    assert(spec_number(t3) == 70);
    assert(lowest_upto(comp, 1) == c4);
    assert(lowest_upto(comp, 2) == c4);
    assert(lowest_upto(comp, 3) == c4);
    assert(lowest_upto(comp, 4) == c4);
    assert(crate::tuning::spec_class_semitones(c4) == 0);
    assert(crate::tuning::spec_class_semitones(t1) == 4);
    assert(crate::tuning::spec_class_semitones(t2) == 7);
    assert(crate::tuning::spec_class_semitones(t3) == 10);
    assert(seq![c4].drop_last() =~= Seq::<Tuning>::empty());
    assert(classes_of(Seq::<Tuning>::empty()) =~= Seq::<i8>::empty());
    assert(seq![c4, t1].drop_last() =~= seq![c4]);
    assert(seq![c4, t1, t2].drop_last() =~= seq![c4, t1]);
    assert(seq![c4, t1, t2, t3].drop_last() =~= seq![c4, t1, t2]);
    assert(classes_of(seq![c4]) =~= seq![0i8]);
    assert(classes_of(seq![c4, t1]) =~= seq![0i8, 4i8]);
    assert(classes_of(seq![c4, t1, t2]) =~= seq![0i8, 4i8, 7i8]);
    assert(classes_of(seq![c4, t1, t2, t3]) =~= seq![0i8, 4i8, 7i8, 10i8]);
    let classes = classes_of(comp);
    assert(classes == seq![0i8, 4i8, 7i8, 10i8]);
    assert(others_upto(classes, 0i8, 0) =~= Seq::<Interval>::empty());
    assert(others_upto(classes, 0i8, 1) =~= Seq::<Interval>::empty());
    assert(others_upto(classes, 0i8, 2) =~= seq![interval_of_semitones(4)]);
    assert(others_upto(classes, 0i8, 3) =~= seq![interval_of_semitones(4), interval_of_semitones(7)]);
    assert(others_upto(classes, 0i8, 4) =~= seq![interval_of_semitones(4), interval_of_semitones(7), interval_of_semitones(10)]);
    let others = others_upto(classes, 0i8, classes.len());
    assert(others == seq![interval_of_semitones(4), interval_of_semitones(7), interval_of_semitones(10)]);
    crate::quality::lemma_kv_triple(interval_of_semitones(4), interval_of_semitones(7), interval_of_semitones(10), 4i8, 7i8, 10i8);
    crate::quality::lemma_exact_dominant7(others);
    assert(spec_analyze(others) == (ChordQuality::Dominant7, Seq::<Interval>::empty()));
    assert(first_with_class(comp, 0i8, 0) == c4);
    let sketch = (c4, ChordQuality::Dominant7, Seq::<ExtensionAlter>::empty());
    assert(spec_candidate(comp, classes, 0i8) == Some(sketch)) by {
        assert(Seq::new(
            spec_analyze(others).1.len(),
            |i: int| ExtensionAlter::Add(spec_add_interval(c4, spec_analyze(others).1[i])),
        ) =~= Seq::<ExtensionAlter>::empty());
    }
    lemma_candidates_first(comp, classes, classes.len(), sketch);
    let cands = candidates_upto(comp, classes, classes.len());
    assert(first_rooted_at(cands, c4, 0) == Some(sketch));
    assert(lowest_upto(comp, comp.len()) == c4);
    assert(spec_analyze_chord(comp) == Some(sketch));
}

/// The chord-level round trip over middle C, for one catalog entry.
#[verifier::spinoff_prover]
#[verifier::rlimit(100)]
proof fn lemma_chord_roundtrip_minor7(c: Chord)
    requires
        c.root == (Tuning { class: PitchClass::C, accidentals: 0, octave: 4 }),
        c.quality == ChordQuality::Minor7,
        c.chord_type == ChordType::Triad,
        c.inversion == Inversion::RootPosition,
        c.voicing == Voicing::ClosePosition,
        c.extensions@ == Seq::<ExtensionAlter>::empty(),
    ensures
        components_ok(c),
        spec_analyze_chord(spec_components(c)) == Some(
            (c.root, c.quality, Seq::<ExtensionAlter>::empty()),
        ),
{
    reveal_with_fuel(crate::tuning::spec_add_accidentals, 4);
    reveal_with_fuel(crate::tuning::octave_correct, 3);
    reveal_with_fuel(cls_insert, 5);
    let c4 = Tuning { class: PitchClass::C, accidentals: 0, octave: 4 };
    let iv1 = named_interval(IntervalQuality::Minor, 3, 3);
    let iv2 = named_interval(IntervalQuality::Perfect, 5, 7);
    let iv3 = named_interval(IntervalQuality::Minor, 7, 10);
    let t1 = Tuning { class: PitchClass::Eb, accidentals: 0, octave: 4 };
    let t2 = Tuning { class: PitchClass::G, accidentals: 0, octave: 4 };
    let t3 = Tuning { class: PitchClass::Bb, accidentals: 0, octave: 4 };
    assert(build_ext(c4, quality_intervals(c.quality), Seq::<ExtensionAlter>::empty()) == (
        Seq::<Interval>::empty(),
        Seq::<Interval>::empty(),
    ));
    assert(quality_intervals(c.quality) + Seq::<Interval>::empty() =~= quality_intervals(
        c.quality,
    ));
    assert(chord_intervals(c) == quality_intervals(c.quality));
    assert(quality_intervals(c.quality) =~= seq![iv1, iv2, iv3]);
    assert(add_ok(c4, iv1));
    assert(spec_add_interval(c4, iv1) == t1);
    assert(add_ok(c4, iv2));
    assert(spec_add_interval(c4, iv2) == t2);
    assert(add_ok(c4, iv3));
    assert(spec_add_interval(c4, iv3) == t3);
    assert(spec_components_base(c) =~= seq![c4, t1, t2, t3]);
    assert(spec_apply_inversion(seq![c4, t1, t2, t3], Inversion::RootPosition) == seq![c4, t1, t2, t3]);
    assert(spec_close_voicing(seq![c4, t1, t2, t3]) =~= seq![c4, t1, t2, t3]);
    let comp = spec_components(c);
    assert(comp == seq![c4, t1, t2, t3]);
    assert forall|i: int| 0 <= i < chord_intervals(c).len() implies add_ok(c.root, #[trigger] chord_intervals(c)[i]) by {
        if i == 0 {
            assert(chord_intervals(c)[0] == iv1);
        }
        else if i == 1 {
            assert(chord_intervals(c)[1] == iv2);
        }
        else if i == 2 {
            assert(chord_intervals(c)[2] == iv3);
        }
    }
    assert forall|i: int| 0 <= i < spec_components_base(c).len() implies (#[trigger] spec_components_base(c)[i]).octave < 127 by {
        assert(spec_components_base(c)[i] == seq![c4, t1, t2, t3][i]);
    }
    assert(components_ok(c));
    assert(spec_number(c4) == 60);
    assert(spec_number(t1) == 63);
    assert(spec_number(t2) == 67);
    assert(spec_number(t3) == 70);
    assert(lowest_upto(comp, 1) == c4);
    assert(lowest_upto(comp, 2) == c4);
    assert(lowest_upto(comp, 3) == c4);
    assert(lowest_upto(comp, 4) == c4);
    assert(crate::tuning::spec_class_semitones(c4) == 0);
    assert(crate::tuning::spec_class_semitones(t1) == 3);
    assert(crate::tuning::spec_class_semitones(t2) == 7);
    assert(crate::tuning::spec_class_semitones(t3) == 10);
    assert(seq![c4].drop_last() =~= Seq::<Tuning>::empty());
    assert(classes_of(Seq::<Tuning>::empty()) =~= Seq::<i8>::empty());
    assert(seq![c4, t1].drop_last() =~= seq![c4]);
    assert(seq![c4, t1, t2].drop_last() =~= seq![c4, t1]);
    assert(seq![c4, t1, t2, t3].drop_last() =~= seq![c4, t1, t2]);
    assert(classes_of(seq![c4]) =~= seq![0i8]);
    assert(classes_of(seq![c4, t1]) =~= seq![0i8, 3i8]);
    assert(classes_of(seq![c4, t1, t2]) =~= seq![0i8, 3i8, 7i8]);
    assert(classes_of(seq![c4, t1, t2, t3]) =~= seq![0i8, 3i8, 7i8, 10i8]);
    let classes = classes_of(comp);
    assert(classes == seq![0i8, 3i8, 7i8, 10i8]);
    assert(others_upto(classes, 0i8, 0) =~= Seq::<Interval>::empty());
    assert(others_upto(classes, 0i8, 1) =~= Seq::<Interval>::empty());
    assert(others_upto(classes, 0i8, 2) =~= seq![interval_of_semitones(3)]);
    assert(others_upto(classes, 0i8, 3) =~= seq![interval_of_semitones(3), interval_of_semitones(7)]);
    assert(others_upto(classes, 0i8, 4) =~= seq![interval_of_semitones(3), interval_of_semitones(7), interval_of_semitones(10)]);
    let others = others_upto(classes, 0i8, classes.len());
    assert(others == seq![interval_of_semitones(3), interval_of_semitones(7), interval_of_semitones(10)]);
    crate::quality::lemma_kv_triple(interval_of_semitones(3), interval_of_semitones(7), interval_of_semitones(10), 3i8, 7i8, 10i8);
    crate::quality::lemma_exact_minor7(others);
    assert(spec_analyze(others) == (ChordQuality::Minor7, Seq::<Interval>::empty()));
    assert(first_with_class(comp, 0i8, 0) == c4);
    let sketch = (c4, ChordQuality::Minor7, Seq::<ExtensionAlter>::empty());
    assert(spec_candidate(comp, classes, 0i8) == Some(sketch)) by {
        assert(Seq::new(
            spec_analyze(others).1.len(),
            |i: int| ExtensionAlter::Add(spec_add_interval(c4, spec_analyze(others).1[i])),
        ) =~= Seq::<ExtensionAlter>::empty());
    }
    lemma_candidates_first(comp, classes, classes.len(), sketch);
    let cands = candidates_upto(comp, classes, classes.len());
    assert(first_rooted_at(cands, c4, 0) == Some(sketch));
    assert(lowest_upto(comp, comp.len()) == c4);
    assert(spec_analyze_chord(comp) == Some(sketch));
}

/// The chord-level round trip over middle C, for one catalog entry.
#[verifier::spinoff_prover]
#[verifier::rlimit(100)]
proof fn lemma_chord_roundtrip_minormajor7(c: Chord)
    requires
        c.root == (Tuning { class: PitchClass::C, accidentals: 0, octave: 4 }),
        c.quality == ChordQuality::MinorMajor7,
        c.chord_type == ChordType::Triad,
        c.inversion == Inversion::RootPosition,
        c.voicing == Voicing::ClosePosition,
        c.extensions@ == Seq::<ExtensionAlter>::empty(),
    ensures
        components_ok(c),
        spec_analyze_chord(spec_components(c)) == Some(
            (c.root, c.quality, Seq::<ExtensionAlter>::empty()),
        ),
{
    reveal_with_fuel(crate::tuning::spec_add_accidentals, 4);
    reveal_with_fuel(crate::tuning::octave_correct, 3);
    reveal_with_fuel(cls_insert, 5);
    let c4 = Tuning { class: PitchClass::C, accidentals: 0, octave: 4 };
    let iv1 = named_interval(IntervalQuality::Minor, 3, 3);
    let iv2 = named_interval(IntervalQuality::Perfect, 5, 7);
    let iv3 = named_interval(IntervalQuality::Major, 7, 11);
    let t1 = Tuning { class: PitchClass::Eb, accidentals: 0, octave: 4 };
    let t2 = Tuning { class: PitchClass::G, accidentals: 0, octave: 4 };
    let t3 = Tuning { class: PitchClass::B, accidentals: 0, octave: 4 };
    assert(build_ext(c4, quality_intervals(c.quality), Seq::<ExtensionAlter>::empty()) == (
        Seq::<Interval>::empty(),
        Seq::<Interval>::empty(),
    ));
    assert(quality_intervals(c.quality) + Seq::<Interval>::empty() =~= quality_intervals(
        c.quality,
    ));
    assert(chord_intervals(c) == quality_intervals(c.quality));
    assert(quality_intervals(c.quality) =~= seq![iv1, iv2, iv3]);
    assert(add_ok(c4, iv1));
    assert(spec_add_interval(c4, iv1) == t1);
    assert(add_ok(c4, iv2));
    assert(spec_add_interval(c4, iv2) == t2);
    assert(add_ok(c4, iv3));
    assert(spec_add_interval(c4, iv3) == t3);
    assert(spec_components_base(c) =~= seq![c4, t1, t2, t3]);
    assert(spec_apply_inversion(seq![c4, t1, t2, t3], Inversion::RootPosition) == seq![c4, t1, t2, t3]);
    assert(spec_close_voicing(seq![c4, t1, t2, t3]) =~= seq![c4, t1, t2, t3]);
    let comp = spec_components(c);
    assert(comp == seq![c4, t1, t2, t3]);
    assert forall|i: int| 0 <= i < chord_intervals(c).len() implies add_ok(c.root, #[trigger] chord_intervals(c)[i]) by {
        if i == 0 {
            assert(chord_intervals(c)[0] == iv1);
        }
        else if i == 1 {
            assert(chord_intervals(c)[1] == iv2);
        }
        else if i == 2 {
            assert(chord_intervals(c)[2] == iv3);
        }
    }
    assert forall|i: int| 0 <= i < spec_components_base(c).len() implies (#[trigger] spec_components_base(c)[i]).octave < 127 by {
        assert(spec_components_base(c)[i] == seq![c4, t1, t2, t3][i]);
    }
    assert(components_ok(c));
    assert(spec_number(c4) == 60);
    assert(spec_number(t1) == 63);
    assert(spec_number(t2) == 67);
    assert(spec_number(t3) == 71);
    assert(lowest_upto(comp, 1) == c4);
    assert(lowest_upto(comp, 2) == c4);
    assert(lowest_upto(comp, 3) == c4);
    assert(lowest_upto(comp, 4) == c4);
    assert(crate::tuning::spec_class_semitones(c4) == 0);
    assert(crate::tuning::spec_class_semitones(t1) == 3);
    assert(crate::tuning::spec_class_semitones(t2) == 7);
    assert(crate::tuning::spec_class_semitones(t3) == 11);
    assert(seq![c4].drop_last() =~= Seq::<Tuning>::empty());
    assert(classes_of(Seq::<Tuning>::empty()) =~= Seq::<i8>::empty());
    assert(seq![c4, t1].drop_last() =~= seq![c4]);
    assert(seq![c4, t1, t2].drop_last() =~= seq![c4, t1]);
    assert(seq![c4, t1, t2, t3].drop_last() =~= seq![c4, t1, t2]);
    assert(classes_of(seq![c4]) =~= seq![0i8]);
    assert(classes_of(seq![c4, t1]) =~= seq![0i8, 3i8]);
    assert(classes_of(seq![c4, t1, t2]) =~= seq![0i8, 3i8, 7i8]);
    assert(classes_of(seq![c4, t1, t2, t3]) =~= seq![0i8, 3i8, 7i8, 11i8]);
    let classes = classes_of(comp);
    assert(classes == seq![0i8, 3i8, 7i8, 11i8]);
    assert(others_upto(classes, 0i8, 0) =~= Seq::<Interval>::empty());
    assert(others_upto(classes, 0i8, 1) =~= Seq::<Interval>::empty());
    assert(others_upto(classes, 0i8, 2) =~= seq![interval_of_semitones(3)]);
    assert(others_upto(classes, 0i8, 3) =~= seq![interval_of_semitones(3), interval_of_semitones(7)]);
    assert(others_upto(classes, 0i8, 4) =~= seq![interval_of_semitones(3), interval_of_semitones(7), interval_of_semitones(11)]);
    let others = others_upto(classes, 0i8, classes.len());
    assert(others == seq![interval_of_semitones(3), interval_of_semitones(7), interval_of_semitones(11)]);
    crate::quality::lemma_kv_triple(interval_of_semitones(3), interval_of_semitones(7), interval_of_semitones(11), 3i8, 7i8, 11i8);
    crate::quality::lemma_exact_minormajor7(others);
    assert(spec_analyze(others) == (ChordQuality::MinorMajor7, Seq::<Interval>::empty()));
    assert(first_with_class(comp, 0i8, 0) == c4);
    let sketch = (c4, ChordQuality::MinorMajor7, Seq::<ExtensionAlter>::empty());
    assert(spec_candidate(comp, classes, 0i8) == Some(sketch)) by {
        assert(Seq::new(
            spec_analyze(others).1.len(),
            |i: int| ExtensionAlter::Add(spec_add_interval(c4, spec_analyze(others).1[i])),
        ) =~= Seq::<ExtensionAlter>::empty());
    }
    lemma_candidates_first(comp, classes, classes.len(), sketch);
    let cands = candidates_upto(comp, classes, classes.len());
    assert(first_rooted_at(cands, c4, 0) == Some(sketch));
    assert(lowest_upto(comp, comp.len()) == c4);
    assert(spec_analyze_chord(comp) == Some(sketch));
}

/// The chord-level round trip over middle C, for one catalog entry.
#[verifier::spinoff_prover]
#[verifier::rlimit(100)]
proof fn lemma_chord_roundtrip_halfdiminished7(c: Chord)
    requires
        c.root == (Tuning { class: PitchClass::C, accidentals: 0, octave: 4 }),
        c.quality == ChordQuality::HalfDiminished7,
        c.chord_type == ChordType::Triad,
        c.inversion == Inversion::RootPosition,
        c.voicing == Voicing::ClosePosition,
        c.extensions@ == Seq::<ExtensionAlter>::empty(),
    ensures
        components_ok(c),
        spec_analyze_chord(spec_components(c)) == Some(
            (c.root, c.quality, Seq::<ExtensionAlter>::empty()),
        ),
{
    reveal_with_fuel(crate::tuning::spec_add_accidentals, 4);
    reveal_with_fuel(crate::tuning::octave_correct, 3);
    reveal_with_fuel(cls_insert, 5);
    let c4 = Tuning { class: PitchClass::C, accidentals: 0, octave: 4 };
    let iv1 = named_interval(IntervalQuality::Minor, 3, 3);
    let iv2 = named_interval(IntervalQuality::Diminished, 5, 6);
    let iv3 = named_interval(IntervalQuality::Minor, 7, 10);
    let t1 = Tuning { class: PitchClass::Eb, accidentals: 0, octave: 4 };
    let t2 = Tuning { class: PitchClass::Gb, accidentals: 0, octave: 4 };
    let t3 = Tuning { class: PitchClass::Bb, accidentals: 0, octave: 4 };
    assert(build_ext(c4, quality_intervals(c.quality), Seq::<ExtensionAlter>::empty()) == (
        Seq::<Interval>::empty(),
        Seq::<Interval>::empty(),
    ));
    assert(quality_intervals(c.quality) + Seq::<Interval>::empty() =~= quality_intervals(
        c.quality,
    ));
    assert(chord_intervals(c) == quality_intervals(c.quality));
    assert(quality_intervals(c.quality) =~= seq![iv1, iv2, iv3]);
    assert(add_ok(c4, iv1));
    assert(spec_add_interval(c4, iv1) == t1);
    assert(add_ok(c4, iv2));
    assert(spec_add_interval(c4, iv2) == t2);
    assert(add_ok(c4, iv3));
    assert(spec_add_interval(c4, iv3) == t3);
    assert(spec_components_base(c) =~= seq![c4, t1, t2, t3]);
    assert(spec_apply_inversion(seq![c4, t1, t2, t3], Inversion::RootPosition) == seq![c4, t1, t2, t3]);
    assert(spec_close_voicing(seq![c4, t1, t2, t3]) =~= seq![c4, t1, t2, t3]);
    let comp = spec_components(c);
    assert(comp == seq![c4, t1, t2, t3]);
    assert forall|i: int| 0 <= i < chord_intervals(c).len() implies add_ok(c.root, #[trigger] chord_intervals(c)[i]) by {
        if i == 0 {
            assert(chord_intervals(c)[0] == iv1);
        }
        else if i == 1 {
            assert(chord_intervals(c)[1] == iv2);
        }
        else if i == 2 {
            assert(chord_intervals(c)[2] == iv3);
        }
    }
    assert forall|i: int| 0 <= i < spec_components_base(c).len() implies (#[trigger] spec_components_base(c)[i]).octave < 127 by {
        assert(spec_components_base(c)[i] == seq![c4, t1, t2, t3][i]);
    }
    assert(components_ok(c));
    assert(spec_number(c4) == 60);
    assert(spec_number(t1) == 63);
    assert(spec_number(t2) == 66);
    assert(spec_number(t3) == 70);
    assert(lowest_upto(comp, 1) == c4);
    assert(lowest_upto(comp, 2) == c4);
    assert(lowest_upto(comp, 3) == c4);
    assert(lowest_upto(comp, 4) == c4);
    assert(crate::tuning::spec_class_semitones(c4) == 0);
    assert(crate::tuning::spec_class_semitones(t1) == 3);
    assert(crate::tuning::spec_class_semitones(t2) == 6);
    assert(crate::tuning::spec_class_semitones(t3) == 10);
    assert(seq![c4].drop_last() =~= Seq::<Tuning>::empty());
    assert(classes_of(Seq::<Tuning>::empty()) =~= Seq::<i8>::empty());
    assert(seq![c4, t1].drop_last() =~= seq![c4]);
    assert(seq![c4, t1, t2].drop_last() =~= seq![c4, t1]);
    assert(seq![c4, t1, t2, t3].drop_last() =~= seq![c4, t1, t2]);
    assert(classes_of(seq![c4]) =~= seq![0i8]);
    assert(classes_of(seq![c4, t1]) =~= seq![0i8, 3i8]);
    assert(classes_of(seq![c4, t1, t2]) =~= seq![0i8, 3i8, 6i8]);
    assert(classes_of(seq![c4, t1, t2, t3]) =~= seq![0i8, 3i8, 6i8, 10i8]);
    let classes = classes_of(comp);
    assert(classes == seq![0i8, 3i8, 6i8, 10i8]);
    assert(others_upto(classes, 0i8, 0) =~= Seq::<Interval>::empty());
    assert(others_upto(classes, 0i8, 1) =~= Seq::<Interval>::empty());
    assert(others_upto(classes, 0i8, 2) =~= seq![interval_of_semitones(3)]);
    assert(others_upto(classes, 0i8, 3) =~= seq![interval_of_semitones(3), interval_of_semitones(6)]);
    assert(others_upto(classes, 0i8, 4) =~= seq![interval_of_semitones(3), interval_of_semitones(6), interval_of_semitones(10)]);
    let others = others_upto(classes, 0i8, classes.len());
    assert(others == seq![interval_of_semitones(3), interval_of_semitones(6), interval_of_semitones(10)]);
    crate::quality::lemma_kv_triple(interval_of_semitones(3), interval_of_semitones(6), interval_of_semitones(10), 3i8, 6i8, 10i8);
    crate::quality::lemma_exact_halfdiminished7(others);
    assert(spec_analyze(others) == (ChordQuality::HalfDiminished7, Seq::<Interval>::empty()));
    assert(first_with_class(comp, 0i8, 0) == c4);
    let sketch = (c4, ChordQuality::HalfDiminished7, Seq::<ExtensionAlter>::empty());
    assert(spec_candidate(comp, classes, 0i8) == Some(sketch)) by {
        assert(Seq::new(
            spec_analyze(others).1.len(),
            |i: int| ExtensionAlter::Add(spec_add_interval(c4, spec_analyze(others).1[i])),
        ) =~= Seq::<ExtensionAlter>::empty());
    }
    lemma_candidates_first(comp, classes, classes.len(), sketch);
    let cands = candidates_upto(comp, classes, classes.len());
    assert(first_rooted_at(cands, c4, 0) == Some(sketch));
    assert(lowest_upto(comp, comp.len()) == c4);
    assert(spec_analyze_chord(comp) == Some(sketch));
}

/// The chord-level round trip over middle C, for one catalog entry.
#[verifier::spinoff_prover]
#[verifier::rlimit(100)]
proof fn lemma_chord_roundtrip_diminished7(c: Chord)
    requires
        c.root == (Tuning { class: PitchClass::C, accidentals: 0, octave: 4 }),
        c.quality == ChordQuality::Diminished7,
        c.chord_type == ChordType::Triad,
        c.inversion == Inversion::RootPosition,
        c.voicing == Voicing::ClosePosition,
        c.extensions@ == Seq::<ExtensionAlter>::empty(),
    ensures
        components_ok(c),
        spec_analyze_chord(spec_components(c)) == Some(
            (c.root, c.quality, Seq::<ExtensionAlter>::empty()),
        ),
{
    reveal_with_fuel(crate::tuning::spec_add_accidentals, 4);
    reveal_with_fuel(crate::tuning::octave_correct, 3);
    reveal_with_fuel(cls_insert, 5);
    let c4 = Tuning { class: PitchClass::C, accidentals: 0, octave: 4 };
    let iv1 = named_interval(IntervalQuality::Diminished, 3, 2);
    let iv2 = named_interval(IntervalQuality::Diminished, 5, 6);
    let iv3 = named_interval(IntervalQuality::Diminished, 7, 9);
    let t1 = Tuning { class: PitchClass::Eb, accidentals: -1i8, octave: 4 };
    let t2 = Tuning { class: PitchClass::Gb, accidentals: 0, octave: 4 };
    let t3 = Tuning { class: PitchClass::Bb, accidentals: -1i8, octave: 4 };
    assert(build_ext(c4, quality_intervals(c.quality), Seq::<ExtensionAlter>::empty()) == (
        Seq::<Interval>::empty(),
        Seq::<Interval>::empty(),
    ));
    assert(quality_intervals(c.quality) + Seq::<Interval>::empty() =~= quality_intervals(
        c.quality,
    ));
    assert(chord_intervals(c) == quality_intervals(c.quality));
    assert(quality_intervals(c.quality) =~= seq![iv1, iv2, iv3]);
    assert(add_ok(c4, iv1));
    assert(spec_add_interval(c4, iv1) == t1);
    assert(add_ok(c4, iv2));
    assert(spec_add_interval(c4, iv2) == t2);
    assert(add_ok(c4, iv3));
    assert(spec_add_interval(c4, iv3) == t3);
    assert(spec_components_base(c) =~= seq![c4, t1, t2, t3]);
    assert(spec_apply_inversion(seq![c4, t1, t2, t3], Inversion::RootPosition) == seq![c4, t1, t2, t3]);
    assert(spec_close_voicing(seq![c4, t1, t2, t3]) =~= seq![c4, t1, t2, t3]);
    let comp = spec_components(c);
    assert(comp == seq![c4, t1, t2, t3]);
    assert forall|i: int| 0 <= i < chord_intervals(c).len() implies add_ok(c.root, #[trigger] chord_intervals(c)[i]) by {
        if i == 0 {
            assert(chord_intervals(c)[0] == iv1);
        }
        else if i == 1 {
            assert(chord_intervals(c)[1] == iv2);
        }
        else if i == 2 {
            assert(chord_intervals(c)[2] == iv3);
        }
    }
    assert forall|i: int| 0 <= i < spec_components_base(c).len() implies (#[trigger] spec_components_base(c)[i]).octave < 127 by {
        assert(spec_components_base(c)[i] == seq![c4, t1, t2, t3][i]);
    }
    assert(components_ok(c));
    assert(spec_number(c4) == 60);
    assert(spec_number(t1) == 62);
    assert(spec_number(t2) == 66);
    assert(spec_number(t3) == 69);
    assert(lowest_upto(comp, 1) == c4);
    assert(lowest_upto(comp, 2) == c4);
    assert(lowest_upto(comp, 3) == c4);
    assert(lowest_upto(comp, 4) == c4);
    assert(crate::tuning::spec_class_semitones(c4) == 0);
    assert(crate::tuning::spec_class_semitones(t1) == 2);
    assert(crate::tuning::spec_class_semitones(t2) == 6);
    assert(crate::tuning::spec_class_semitones(t3) == 9);
    assert(seq![c4].drop_last() =~= Seq::<Tuning>::empty());
    assert(classes_of(Seq::<Tuning>::empty()) =~= Seq::<i8>::empty());
    assert(seq![c4, t1].drop_last() =~= seq![c4]);
    assert(seq![c4, t1, t2].drop_last() =~= seq![c4, t1]);
    assert(seq![c4, t1, t2, t3].drop_last() =~= seq![c4, t1, t2]);
    assert(classes_of(seq![c4]) =~= seq![0i8]);
    assert(classes_of(seq![c4, t1]) =~= seq![0i8, 2i8]);
    assert(classes_of(seq![c4, t1, t2]) =~= seq![0i8, 2i8, 6i8]);
    assert(classes_of(seq![c4, t1, t2, t3]) =~= seq![0i8, 2i8, 6i8, 9i8]);
    let classes = classes_of(comp);
    assert(classes == seq![0i8, 2i8, 6i8, 9i8]);
    assert(others_upto(classes, 0i8, 0) =~= Seq::<Interval>::empty());
    assert(others_upto(classes, 0i8, 1) =~= Seq::<Interval>::empty());
    assert(others_upto(classes, 0i8, 2) =~= seq![interval_of_semitones(2)]);
    assert(others_upto(classes, 0i8, 3) =~= seq![interval_of_semitones(2), interval_of_semitones(6)]);
    assert(others_upto(classes, 0i8, 4) =~= seq![interval_of_semitones(2), interval_of_semitones(6), interval_of_semitones(9)]);
    let others = others_upto(classes, 0i8, classes.len());
    assert(others == seq![interval_of_semitones(2), interval_of_semitones(6), interval_of_semitones(9)]);
    crate::quality::lemma_kv_triple(interval_of_semitones(2), interval_of_semitones(6), interval_of_semitones(9), 2i8, 6i8, 9i8);
    crate::quality::lemma_exact_diminished7(others);
    assert(spec_analyze(others) == (ChordQuality::Diminished7, Seq::<Interval>::empty()));
    assert(first_with_class(comp, 0i8, 0) == c4);
    let sketch = (c4, ChordQuality::Diminished7, Seq::<ExtensionAlter>::empty());
    assert(spec_candidate(comp, classes, 0i8) == Some(sketch)) by {
        assert(Seq::new(
            spec_analyze(others).1.len(),
            |i: int| ExtensionAlter::Add(spec_add_interval(c4, spec_analyze(others).1[i])),
        ) =~= Seq::<ExtensionAlter>::empty());
    }
    lemma_candidates_first(comp, classes, classes.len(), sketch);
    let cands = candidates_upto(comp, classes, classes.len());
    assert(first_rooted_at(cands, c4, 0) == Some(sketch));
    assert(lowest_upto(comp, comp.len()) == c4);
    assert(spec_analyze_chord(comp) == Some(sketch));
}

/// The chord-level round trip over middle C, for one catalog entry.
#[verifier::spinoff_prover]
#[verifier::rlimit(100)]
proof fn lemma_chord_roundtrip_augmented7(c: Chord)
    requires
        c.root == (Tuning { class: PitchClass::C, accidentals: 0, octave: 4 }),
        c.quality == ChordQuality::Augmented7,
        c.chord_type == ChordType::Triad,
        c.inversion == Inversion::RootPosition,
        c.voicing == Voicing::ClosePosition,
        c.extensions@ == Seq::<ExtensionAlter>::empty(),
    ensures
        components_ok(c),
        spec_analyze_chord(spec_components(c)) == Some(
            (c.root, c.quality, Seq::<ExtensionAlter>::empty()),
        ),
{
    reveal_with_fuel(crate::tuning::spec_add_accidentals, 4);
    reveal_with_fuel(crate::tuning::octave_correct, 3);
    reveal_with_fuel(cls_insert, 5);
    let c4 = Tuning { class: PitchClass::C, accidentals: 0, octave: 4 };
    let iv1 = named_interval(IntervalQuality::Augmented, 3, 5);
    let iv2 = named_interval(IntervalQuality::Augmented, 5, 8);
    let iv3 = named_interval(IntervalQuality::Minor, 7, 10);
    let t1 = Tuning { class: PitchClass::E, accidentals: 1, octave: 4 };
    let t2 = Tuning { class: PitchClass::Gs, accidentals: 0, octave: 4 };
    let t3 = Tuning { class: PitchClass::Bb, accidentals: 0, octave: 4 };
    assert(build_ext(c4, quality_intervals(c.quality), Seq::<ExtensionAlter>::empty()) == (
        Seq::<Interval>::empty(),
        Seq::<Interval>::empty(),
    ));
    assert(quality_intervals(c.quality) + Seq::<Interval>::empty() =~= quality_intervals(
        c.quality,
    ));
    assert(chord_intervals(c) == quality_intervals(c.quality));
    assert(quality_intervals(c.quality) =~= seq![iv1, iv2, iv3]);
    assert(add_ok(c4, iv1));
    assert(spec_add_interval(c4, iv1) == t1);
    assert(add_ok(c4, iv2));
    assert(spec_add_interval(c4, iv2) == t2);
    assert(add_ok(c4, iv3));
    assert(spec_add_interval(c4, iv3) == t3);
    assert(spec_components_base(c) =~= seq![c4, t1, t2, t3]);
    assert(spec_apply_inversion(seq![c4, t1, t2, t3], Inversion::RootPosition) == seq![c4, t1, t2, t3]);
    assert(spec_close_voicing(seq![c4, t1, t2, t3]) =~= seq![c4, t1, t2, t3]);
    let comp = spec_components(c);
    assert(comp == seq![c4, t1, t2, t3]);
    assert forall|i: int| 0 <= i < chord_intervals(c).len() implies add_ok(c.root, #[trigger] chord_intervals(c)[i]) by {
        if i == 0 {
            assert(chord_intervals(c)[0] == iv1);
        }
        else if i == 1 {
            assert(chord_intervals(c)[1] == iv2);
        }
        else if i == 2 {
            assert(chord_intervals(c)[2] == iv3);
        }
    }
    assert forall|i: int| 0 <= i < spec_components_base(c).len() implies (#[trigger] spec_components_base(c)[i]).octave < 127 by {
        assert(spec_components_base(c)[i] == seq![c4, t1, t2, t3][i]);
    }
    assert(components_ok(c));
    assert(spec_number(c4) == 60);
    assert(spec_number(t1) == 65);
    assert(spec_number(t2) == 68);
    assert(spec_number(t3) == 70);
    assert(lowest_upto(comp, 1) == c4);
    assert(lowest_upto(comp, 2) == c4);
    assert(lowest_upto(comp, 3) == c4);
    assert(lowest_upto(comp, 4) == c4);
    assert(crate::tuning::spec_class_semitones(c4) == 0);
    assert(crate::tuning::spec_class_semitones(t1) == 5);
    assert(crate::tuning::spec_class_semitones(t2) == 8);
    assert(crate::tuning::spec_class_semitones(t3) == 10);
    assert(seq![c4].drop_last() =~= Seq::<Tuning>::empty());
    assert(classes_of(Seq::<Tuning>::empty()) =~= Seq::<i8>::empty());
    assert(seq![c4, t1].drop_last() =~= seq![c4]);
    assert(seq![c4, t1, t2].drop_last() =~= seq![c4, t1]);
    assert(seq![c4, t1, t2, t3].drop_last() =~= seq![c4, t1, t2]);
    assert(classes_of(seq![c4]) =~= seq![0i8]);
    assert(classes_of(seq![c4, t1]) =~= seq![0i8, 5i8]);
    assert(classes_of(seq![c4, t1, t2]) =~= seq![0i8, 5i8, 8i8]);
    assert(classes_of(seq![c4, t1, t2, t3]) =~= seq![0i8, 5i8, 8i8, 10i8]);
    let classes = classes_of(comp);
    assert(classes == seq![0i8, 5i8, 8i8, 10i8]);
    assert(others_upto(classes, 0i8, 0) =~= Seq::<Interval>::empty());
    assert(others_upto(classes, 0i8, 1) =~= Seq::<Interval>::empty());
    assert(others_upto(classes, 0i8, 2) =~= seq![interval_of_semitones(5)]);
    assert(others_upto(classes, 0i8, 3) =~= seq![interval_of_semitones(5), interval_of_semitones(8)]);
    assert(others_upto(classes, 0i8, 4) =~= seq![interval_of_semitones(5), interval_of_semitones(8), interval_of_semitones(10)]);
    let others = others_upto(classes, 0i8, classes.len());
    assert(others == seq![interval_of_semitones(5), interval_of_semitones(8), interval_of_semitones(10)]);
    crate::quality::lemma_kv_triple(interval_of_semitones(5), interval_of_semitones(8), interval_of_semitones(10), 5i8, 8i8, 10i8);
    crate::quality::lemma_exact_augmented7(others);
    assert(spec_analyze(others) == (ChordQuality::Augmented7, Seq::<Interval>::empty()));
    assert(first_with_class(comp, 0i8, 0) == c4);
    let sketch = (c4, ChordQuality::Augmented7, Seq::<ExtensionAlter>::empty());
    assert(spec_candidate(comp, classes, 0i8) == Some(sketch)) by {
        assert(Seq::new(
            spec_analyze(others).1.len(),
            |i: int| ExtensionAlter::Add(spec_add_interval(c4, spec_analyze(others).1[i])),
        ) =~= Seq::<ExtensionAlter>::empty());
    }
    lemma_candidates_first(comp, classes, classes.len(), sketch);
    let cands = candidates_upto(comp, classes, classes.len());
    assert(first_rooted_at(cands, c4, 0) == Some(sketch));
    assert(lowest_upto(comp, comp.len()) == c4);
    assert(spec_analyze_chord(comp) == Some(sketch));
}

/// The chord-level round trip over middle C, for one catalog entry.
#[verifier::spinoff_prover]
#[verifier::rlimit(100)]
proof fn lemma_chord_roundtrip_augmentedmajor7(c: Chord)
    requires
        c.root == (Tuning { class: PitchClass::C, accidentals: 0, octave: 4 }),
        c.quality == ChordQuality::AugmentedMajor7,
        c.chord_type == ChordType::Triad,
        c.inversion == Inversion::RootPosition,
        c.voicing == Voicing::ClosePosition,
        c.extensions@ == Seq::<ExtensionAlter>::empty(),
    ensures
        components_ok(c),
        spec_analyze_chord(spec_components(c)) == Some(
            (c.root, c.quality, Seq::<ExtensionAlter>::empty()),
        ),
{
    reveal_with_fuel(crate::tuning::spec_add_accidentals, 4);
    reveal_with_fuel(crate::tuning::octave_correct, 3);
    reveal_with_fuel(cls_insert, 5);
    let c4 = Tuning { class: PitchClass::C, accidentals: 0, octave: 4 };
    let iv1 = named_interval(IntervalQuality::Augmented, 3, 5);
    let iv2 = named_interval(IntervalQuality::Augmented, 5, 8);
    let iv3 = named_interval(IntervalQuality::Major, 7, 11);
    let t1 = Tuning { class: PitchClass::E, accidentals: 1, octave: 4 };
    let t2 = Tuning { class: PitchClass::Gs, accidentals: 0, octave: 4 };
    let t3 = Tuning { class: PitchClass::B, accidentals: 0, octave: 4 };
    assert(build_ext(c4, quality_intervals(c.quality), Seq::<ExtensionAlter>::empty()) == (
        Seq::<Interval>::empty(),
        Seq::<Interval>::empty(),
    ));
    assert(quality_intervals(c.quality) + Seq::<Interval>::empty() =~= quality_intervals(
        c.quality,
    ));
    assert(chord_intervals(c) == quality_intervals(c.quality));
    assert(quality_intervals(c.quality) =~= seq![iv1, iv2, iv3]);
    assert(add_ok(c4, iv1));
    assert(spec_add_interval(c4, iv1) == t1);
    assert(add_ok(c4, iv2));
    assert(spec_add_interval(c4, iv2) == t2);
    assert(add_ok(c4, iv3));
    assert(spec_add_interval(c4, iv3) == t3);
    assert(spec_components_base(c) =~= seq![c4, t1, t2, t3]);
    assert(spec_apply_inversion(seq![c4, t1, t2, t3], Inversion::RootPosition) == seq![c4, t1, t2, t3]);
    assert(spec_close_voicing(seq![c4, t1, t2, t3]) =~= seq![c4, t1, t2, t3]);
    let comp = spec_components(c);
    assert(comp == seq![c4, t1, t2, t3]);
    assert forall|i: int| 0 <= i < chord_intervals(c).len() implies add_ok(c.root, #[trigger] chord_intervals(c)[i]) by {
        if i == 0 {
            assert(chord_intervals(c)[0] == iv1);
        }
        else if i == 1 {
            assert(chord_intervals(c)[1] == iv2);
        }
        else if i == 2 {
            assert(chord_intervals(c)[2] == iv3);
        }
    }
    assert forall|i: int| 0 <= i < spec_components_base(c).len() implies (#[trigger] spec_components_base(c)[i]).octave < 127 by {
        assert(spec_components_base(c)[i] == seq![c4, t1, t2, t3][i]);
    }
    assert(components_ok(c));
    assert(spec_number(c4) == 60);
    assert(spec_number(t1) == 65);
    assert(spec_number(t2) == 68);
    assert(spec_number(t3) == 71);
    assert(lowest_upto(comp, 1) == c4);
    assert(lowest_upto(comp, 2) == c4);
    assert(lowest_upto(comp, 3) == c4);
    assert(lowest_upto(comp, 4) == c4);
    assert(crate::tuning::spec_class_semitones(c4) == 0);
    assert(crate::tuning::spec_class_semitones(t1) == 5);
    assert(crate::tuning::spec_class_semitones(t2) == 8);
    assert(crate::tuning::spec_class_semitones(t3) == 11);
    assert(seq![c4].drop_last() =~= Seq::<Tuning>::empty());
    assert(classes_of(Seq::<Tuning>::empty()) =~= Seq::<i8>::empty());
    assert(seq![c4, t1].drop_last() =~= seq![c4]);
    assert(seq![c4, t1, t2].drop_last() =~= seq![c4, t1]);
    assert(seq![c4, t1, t2, t3].drop_last() =~= seq![c4, t1, t2]);
    assert(classes_of(seq![c4]) =~= seq![0i8]);
    assert(classes_of(seq![c4, t1]) =~= seq![0i8, 5i8]);
    assert(classes_of(seq![c4, t1, t2]) =~= seq![0i8, 5i8, 8i8]);
    assert(classes_of(seq![c4, t1, t2, t3]) =~= seq![0i8, 5i8, 8i8, 11i8]);
    let classes = classes_of(comp);
    assert(classes == seq![0i8, 5i8, 8i8, 11i8]);
    assert(others_upto(classes, 0i8, 0) =~= Seq::<Interval>::empty());
    assert(others_upto(classes, 0i8, 1) =~= Seq::<Interval>::empty());
    assert(others_upto(classes, 0i8, 2) =~= seq![interval_of_semitones(5)]);
    assert(others_upto(classes, 0i8, 3) =~= seq![interval_of_semitones(5), interval_of_semitones(8)]);
    assert(others_upto(classes, 0i8, 4) =~= seq![interval_of_semitones(5), interval_of_semitones(8), interval_of_semitones(11)]);
    let others = others_upto(classes, 0i8, classes.len());
    assert(others == seq![interval_of_semitones(5), interval_of_semitones(8), interval_of_semitones(11)]);
    crate::quality::lemma_kv_triple(interval_of_semitones(5), interval_of_semitones(8), interval_of_semitones(11), 5i8, 8i8, 11i8);
    crate::quality::lemma_exact_augmentedmajor7(others);
    assert(spec_analyze(others) == (ChordQuality::AugmentedMajor7, Seq::<Interval>::empty()));
    assert(first_with_class(comp, 0i8, 0) == c4);
    let sketch = (c4, ChordQuality::AugmentedMajor7, Seq::<ExtensionAlter>::empty());
    assert(spec_candidate(comp, classes, 0i8) == Some(sketch)) by {
        assert(Seq::new(
            spec_analyze(others).1.len(),
            |i: int| ExtensionAlter::Add(spec_add_interval(c4, spec_analyze(others).1[i])),
        ) =~= Seq::<ExtensionAlter>::empty());
    }
    lemma_candidates_first(comp, classes, classes.len(), sketch);
    let cands = candidates_upto(comp, classes, classes.len());
    assert(first_rooted_at(cands, c4, 0) == Some(sketch));
    assert(lowest_upto(comp, comp.len()) == c4);
    assert(spec_analyze_chord(comp) == Some(sketch));
}

/// The chord-level round trip over middle C, for one catalog entry.
#[verifier::spinoff_prover]
#[verifier::rlimit(100)]
proof fn lemma_chord_roundtrip_major6(c: Chord)
    requires
        c.root == (Tuning { class: PitchClass::C, accidentals: 0, octave: 4 }),
        c.quality == ChordQuality::Major6,
        c.chord_type == ChordType::Triad,
        c.inversion == Inversion::RootPosition,
        c.voicing == Voicing::ClosePosition,
        c.extensions@ == Seq::<ExtensionAlter>::empty(),
    ensures
        components_ok(c),
        spec_analyze_chord(spec_components(c)) == Some(
            (c.root, c.quality, Seq::<ExtensionAlter>::empty()),
        ),
{
    reveal_with_fuel(crate::tuning::spec_add_accidentals, 4);
    reveal_with_fuel(crate::tuning::octave_correct, 3);
    reveal_with_fuel(cls_insert, 5);
    let c4 = Tuning { class: PitchClass::C, accidentals: 0, octave: 4 };
    let iv1 = named_interval(IntervalQuality::Major, 3, 4);
    let iv2 = named_interval(IntervalQuality::Perfect, 5, 7);
    let iv3 = named_interval(IntervalQuality::Major, 6, 9);
    let t1 = Tuning { class: PitchClass::E, accidentals: 0, octave: 4 };
    let t2 = Tuning { class: PitchClass::G, accidentals: 0, octave: 4 };
    let t3 = Tuning { class: PitchClass::A, accidentals: 0, octave: 4 };
    assert(build_ext(c4, quality_intervals(c.quality), Seq::<ExtensionAlter>::empty()) == (
        Seq::<Interval>::empty(),
        Seq::<Interval>::empty(),
    ));
    assert(quality_intervals(c.quality) + Seq::<Interval>::empty() =~= quality_intervals(
        c.quality,
    ));
    assert(chord_intervals(c) == quality_intervals(c.quality));
    assert(quality_intervals(c.quality) =~= seq![iv1, iv2, iv3]);
    assert(add_ok(c4, iv1));
    assert(spec_add_interval(c4, iv1) == t1);
    assert(add_ok(c4, iv2));
    assert(spec_add_interval(c4, iv2) == t2);
    assert(add_ok(c4, iv3));
    assert(spec_add_interval(c4, iv3) == t3);
    assert(spec_components_base(c) =~= seq![c4, t1, t2, t3]);
    assert(spec_apply_inversion(seq![c4, t1, t2, t3], Inversion::RootPosition) == seq![c4, t1, t2, t3]);
    assert(spec_close_voicing(seq![c4, t1, t2, t3]) =~= seq![c4, t1, t2, t3]);
    let comp = spec_components(c);
    assert(comp == seq![c4, t1, t2, t3]);
    assert forall|i: int| 0 <= i < chord_intervals(c).len() implies add_ok(c.root, #[trigger] chord_intervals(c)[i]) by {
        if i == 0 {
            assert(chord_intervals(c)[0] == iv1);
        }
        else if i == 1 {
            assert(chord_intervals(c)[1] == iv2);
        }
        else if i == 2 {
            assert(chord_intervals(c)[2] == iv3);
        }
    }
    assert forall|i: int| 0 <= i < spec_components_base(c).len() implies (#[trigger] spec_components_base(c)[i]).octave < 127 by {
        assert(spec_components_base(c)[i] == seq![c4, t1, t2, t3][i]);
    }
    assert(components_ok(c));
    assert(spec_number(c4) == 60);
    assert(spec_number(t1) == 64);
    assert(spec_number(t2) == 67);
    assert(spec_number(t3) == 69);
    assert(lowest_upto(comp, 1) == c4);
    assert(lowest_upto(comp, 2) == c4);
    assert(lowest_upto(comp, 3) == c4);
    assert(lowest_upto(comp, 4) == c4);
    assert(crate::tuning::spec_class_semitones(c4) == 0);
    assert(crate::tuning::spec_class_semitones(t1) == 4);
    assert(crate::tuning::spec_class_semitones(t2) == 7);
    assert(crate::tuning::spec_class_semitones(t3) == 9);
    assert(seq![c4].drop_last() =~= Seq::<Tuning>::empty());
    assert(classes_of(Seq::<Tuning>::empty()) =~= Seq::<i8>::empty());
    assert(seq![c4, t1].drop_last() =~= seq![c4]);
    assert(seq![c4, t1, t2].drop_last() =~= seq![c4, t1]);
    assert(seq![c4, t1, t2, t3].drop_last() =~= seq![c4, t1, t2]);
    assert(classes_of(seq![c4]) =~= seq![0i8]);
    assert(classes_of(seq![c4, t1]) =~= seq![0i8, 4i8]);
    assert(classes_of(seq![c4, t1, t2]) =~= seq![0i8, 4i8, 7i8]);
    assert(classes_of(seq![c4, t1, t2, t3]) =~= seq![0i8, 4i8, 7i8, 9i8]);
    let classes = classes_of(comp);
    assert(classes == seq![0i8, 4i8, 7i8, 9i8]);
    assert(others_upto(classes, 0i8, 0) =~= Seq::<Interval>::empty());
    assert(others_upto(classes, 0i8, 1) =~= Seq::<Interval>::empty());
    assert(others_upto(classes, 0i8, 2) =~= seq![interval_of_semitones(4)]);
    assert(others_upto(classes, 0i8, 3) =~= seq![interval_of_semitones(4), interval_of_semitones(7)]);
    assert(others_upto(classes, 0i8, 4) =~= seq![interval_of_semitones(4), interval_of_semitones(7), interval_of_semitones(9)]);
    let others = others_upto(classes, 0i8, classes.len());
    assert(others == seq![interval_of_semitones(4), interval_of_semitones(7), interval_of_semitones(9)]);
    crate::quality::lemma_kv_triple(interval_of_semitones(4), interval_of_semitones(7), interval_of_semitones(9), 4i8, 7i8, 9i8);
    crate::quality::lemma_exact_major6(others);
    assert(spec_analyze(others) == (ChordQuality::Major6, Seq::<Interval>::empty()));
    assert(first_with_class(comp, 0i8, 0) == c4);
    let sketch = (c4, ChordQuality::Major6, Seq::<ExtensionAlter>::empty());
    assert(spec_candidate(comp, classes, 0i8) == Some(sketch)) by {
        assert(Seq::new(
            spec_analyze(others).1.len(),
            |i: int| ExtensionAlter::Add(spec_add_interval(c4, spec_analyze(others).1[i])),
        ) =~= Seq::<ExtensionAlter>::empty());
    }
    lemma_candidates_first(comp, classes, classes.len(), sketch);
    let cands = candidates_upto(comp, classes, classes.len());
    assert(first_rooted_at(cands, c4, 0) == Some(sketch));
    assert(lowest_upto(comp, comp.len()) == c4);
    assert(spec_analyze_chord(comp) == Some(sketch));
}

/// The chord-level round trip over middle C, for one catalog entry.
#[verifier::spinoff_prover]
#[verifier::rlimit(100)]
proof fn lemma_chord_roundtrip_minor6(c: Chord)
    requires
        c.root == (Tuning { class: PitchClass::C, accidentals: 0, octave: 4 }),
        c.quality == ChordQuality::Minor6,
        c.chord_type == ChordType::Triad,
        c.inversion == Inversion::RootPosition,
        c.voicing == Voicing::ClosePosition,
        c.extensions@ == Seq::<ExtensionAlter>::empty(),
    ensures
        components_ok(c),
        spec_analyze_chord(spec_components(c)) == Some(
            (c.root, c.quality, Seq::<ExtensionAlter>::empty()),
        ),
{
    reveal_with_fuel(crate::tuning::spec_add_accidentals, 4);
    reveal_with_fuel(crate::tuning::octave_correct, 3);
    reveal_with_fuel(cls_insert, 5);
    let c4 = Tuning { class: PitchClass::C, accidentals: 0, octave: 4 };
    let iv1 = named_interval(IntervalQuality::Minor, 3, 3);
    let iv2 = named_interval(IntervalQuality::Perfect, 5, 7);
    let iv3 = named_interval(IntervalQuality::Major, 6, 9);
    let t1 = Tuning { class: PitchClass::Eb, accidentals: 0, octave: 4 };
    let t2 = Tuning { class: PitchClass::G, accidentals: 0, octave: 4 };
    let t3 = Tuning { class: PitchClass::A, accidentals: 0, octave: 4 };
    assert(build_ext(c4, quality_intervals(c.quality), Seq::<ExtensionAlter>::empty()) == (
        Seq::<Interval>::empty(),
        Seq::<Interval>::empty(),
    ));
    assert(quality_intervals(c.quality) + Seq::<Interval>::empty() =~= quality_intervals(
        c.quality,
    ));
    assert(chord_intervals(c) == quality_intervals(c.quality));
    assert(quality_intervals(c.quality) =~= seq![iv1, iv2, iv3]);
    assert(add_ok(c4, iv1));
    assert(spec_add_interval(c4, iv1) == t1);
    assert(add_ok(c4, iv2));
    assert(spec_add_interval(c4, iv2) == t2);
    assert(add_ok(c4, iv3));
    assert(spec_add_interval(c4, iv3) == t3);
    assert(spec_components_base(c) =~= seq![c4, t1, t2, t3]);
    assert(spec_apply_inversion(seq![c4, t1, t2, t3], Inversion::RootPosition) == seq![c4, t1, t2, t3]);
    assert(spec_close_voicing(seq![c4, t1, t2, t3]) =~= seq![c4, t1, t2, t3]);
    let comp = spec_components(c);
    assert(comp == seq![c4, t1, t2, t3]);
    assert forall|i: int| 0 <= i < chord_intervals(c).len() implies add_ok(c.root, #[trigger] chord_intervals(c)[i]) by {
        if i == 0 {
            assert(chord_intervals(c)[0] == iv1);
        }
        else if i == 1 {
            assert(chord_intervals(c)[1] == iv2);
        }
        else if i == 2 {
            assert(chord_intervals(c)[2] == iv3);
        }
    }
    assert forall|i: int| 0 <= i < spec_components_base(c).len() implies (#[trigger] spec_components_base(c)[i]).octave < 127 by {
        assert(spec_components_base(c)[i] == seq![c4, t1, t2, t3][i]);
    }
    assert(components_ok(c));
    assert(spec_number(c4) == 60);
    assert(spec_number(t1) == 63);
    assert(spec_number(t2) == 67);
    assert(spec_number(t3) == 69);
    assert(lowest_upto(comp, 1) == c4);
    assert(lowest_upto(comp, 2) == c4);
    assert(lowest_upto(comp, 3) == c4);
    assert(lowest_upto(comp, 4) == c4);
    assert(crate::tuning::spec_class_semitones(c4) == 0);
    assert(crate::tuning::spec_class_semitones(t1) == 3);
    assert(crate::tuning::spec_class_semitones(t2) == 7);
    assert(crate::tuning::spec_class_semitones(t3) == 9);
    assert(seq![c4].drop_last() =~= Seq::<Tuning>::empty());
    assert(classes_of(Seq::<Tuning>::empty()) =~= Seq::<i8>::empty());
    assert(seq![c4, t1].drop_last() =~= seq![c4]);
    assert(seq![c4, t1, t2].drop_last() =~= seq![c4, t1]);
    assert(seq![c4, t1, t2, t3].drop_last() =~= seq![c4, t1, t2]);
    assert(classes_of(seq![c4]) =~= seq![0i8]);
    assert(classes_of(seq![c4, t1]) =~= seq![0i8, 3i8]);
    assert(classes_of(seq![c4, t1, t2]) =~= seq![0i8, 3i8, 7i8]);
    assert(classes_of(seq![c4, t1, t2, t3]) =~= seq![0i8, 3i8, 7i8, 9i8]);
    let classes = classes_of(comp);
    assert(classes == seq![0i8, 3i8, 7i8, 9i8]);
    assert(others_upto(classes, 0i8, 0) =~= Seq::<Interval>::empty());
    assert(others_upto(classes, 0i8, 1) =~= Seq::<Interval>::empty());
    assert(others_upto(classes, 0i8, 2) =~= seq![interval_of_semitones(3)]);
    assert(others_upto(classes, 0i8, 3) =~= seq![interval_of_semitones(3), interval_of_semitones(7)]);
    assert(others_upto(classes, 0i8, 4) =~= seq![interval_of_semitones(3), interval_of_semitones(7), interval_of_semitones(9)]);
    let others = others_upto(classes, 0i8, classes.len());
    assert(others == seq![interval_of_semitones(3), interval_of_semitones(7), interval_of_semitones(9)]);
    crate::quality::lemma_kv_triple(interval_of_semitones(3), interval_of_semitones(7), interval_of_semitones(9), 3i8, 7i8, 9i8);
    crate::quality::lemma_exact_minor6(others);
    assert(spec_analyze(others) == (ChordQuality::Minor6, Seq::<Interval>::empty()));
    assert(first_with_class(comp, 0i8, 0) == c4);
    let sketch = (c4, ChordQuality::Minor6, Seq::<ExtensionAlter>::empty());
    assert(spec_candidate(comp, classes, 0i8) == Some(sketch)) by {
        assert(Seq::new(
            spec_analyze(others).1.len(),
            |i: int| ExtensionAlter::Add(spec_add_interval(c4, spec_analyze(others).1[i])),
        ) =~= Seq::<ExtensionAlter>::empty());
    }
    lemma_candidates_first(comp, classes, classes.len(), sketch);
    let cands = candidates_upto(comp, classes, classes.len());
    assert(first_rooted_at(cands, c4, 0) == Some(sketch));
    assert(lowest_upto(comp, comp.len()) == c4);
    assert(spec_analyze_chord(comp) == Some(sketch));
}

/// The chord-level round trip over middle C, for one catalog entry.
#[verifier::spinoff_prover]
#[verifier::rlimit(100)]
proof fn lemma_chord_roundtrip_suspended2(c: Chord)
    requires
        c.root == (Tuning { class: PitchClass::C, accidentals: 0, octave: 4 }),
        c.quality == ChordQuality::Suspended2,
        c.chord_type == ChordType::Triad,
        c.inversion == Inversion::RootPosition,
        c.voicing == Voicing::ClosePosition,
        c.extensions@ == Seq::<ExtensionAlter>::empty(),
    ensures
        components_ok(c),
        spec_analyze_chord(spec_components(c)) == Some(
            (c.root, c.quality, Seq::<ExtensionAlter>::empty()),
        ),
{
    reveal_with_fuel(crate::tuning::spec_add_accidentals, 4);
    reveal_with_fuel(crate::tuning::octave_correct, 3);
    reveal_with_fuel(cls_insert, 5);
    let c4 = Tuning { class: PitchClass::C, accidentals: 0, octave: 4 };
    let iv1 = named_interval(IntervalQuality::Major, 2, 2);
    let iv2 = named_interval(IntervalQuality::Perfect, 5, 7);
    let t1 = Tuning { class: PitchClass::D, accidentals: 0, octave: 4 };
    let t2 = Tuning { class: PitchClass::G, accidentals: 0, octave: 4 };
    assert(build_ext(c4, quality_intervals(c.quality), Seq::<ExtensionAlter>::empty()) == (
        Seq::<Interval>::empty(),
        Seq::<Interval>::empty(),
    ));
    assert(quality_intervals(c.quality) + Seq::<Interval>::empty() =~= quality_intervals(
        c.quality,
    ));
    assert(chord_intervals(c) == quality_intervals(c.quality));
    assert(quality_intervals(c.quality) =~= seq![iv1, iv2]);
    assert(add_ok(c4, iv1));
    assert(spec_add_interval(c4, iv1) == t1);
    assert(add_ok(c4, iv2));
    assert(spec_add_interval(c4, iv2) == t2);
    assert(spec_components_base(c) =~= seq![c4, t1, t2]);
    assert(spec_apply_inversion(seq![c4, t1, t2], Inversion::RootPosition) == seq![c4, t1, t2]);
    assert(spec_close_voicing(seq![c4, t1, t2]) =~= seq![c4, t1, t2]);
    let comp = spec_components(c);
    assert(comp == seq![c4, t1, t2]);
    assert forall|i: int| 0 <= i < chord_intervals(c).len() implies add_ok(c.root, #[trigger] chord_intervals(c)[i]) by {
        if i == 0 {
            assert(chord_intervals(c)[0] == iv1);
        }
        else if i == 1 {
            assert(chord_intervals(c)[1] == iv2);
        }
    }
    assert forall|i: int| 0 <= i < spec_components_base(c).len() implies (#[trigger] spec_components_base(c)[i]).octave < 127 by {
        assert(spec_components_base(c)[i] == seq![c4, t1, t2][i]);
    }
    assert(components_ok(c));
    assert(spec_number(c4) == 60);
    assert(spec_number(t1) == 62);
    assert(spec_number(t2) == 67);
    assert(lowest_upto(comp, 1) == c4);
    assert(lowest_upto(comp, 2) == c4);
    assert(lowest_upto(comp, 3) == c4);
    assert(crate::tuning::spec_class_semitones(c4) == 0);
    assert(crate::tuning::spec_class_semitones(t1) == 2);
    assert(crate::tuning::spec_class_semitones(t2) == 7);
    assert(seq![c4].drop_last() =~= Seq::<Tuning>::empty());
    assert(classes_of(Seq::<Tuning>::empty()) =~= Seq::<i8>::empty());
    assert(seq![c4, t1].drop_last() =~= seq![c4]);
    assert(seq![c4, t1, t2].drop_last() =~= seq![c4, t1]);
    assert(classes_of(seq![c4]) =~= seq![0i8]);
    assert(classes_of(seq![c4, t1]) =~= seq![0i8, 2i8]);
    assert(classes_of(seq![c4, t1, t2]) =~= seq![0i8, 2i8, 7i8]);
    let classes = classes_of(comp);
    assert(classes == seq![0i8, 2i8, 7i8]);
    assert(others_upto(classes, 0i8, 0) =~= Seq::<Interval>::empty());
    assert(others_upto(classes, 0i8, 1) =~= Seq::<Interval>::empty());
    assert(others_upto(classes, 0i8, 2) =~= seq![interval_of_semitones(2)]);
    assert(others_upto(classes, 0i8, 3) =~= seq![interval_of_semitones(2), interval_of_semitones(7)]);
    let others = others_upto(classes, 0i8, classes.len());
    assert(others == seq![interval_of_semitones(2), interval_of_semitones(7)]);
    crate::quality::lemma_kv_pair(interval_of_semitones(2), interval_of_semitones(7), 2i8, 7i8);
    crate::quality::lemma_exact_suspended2(others);
    assert(spec_analyze(others) == (ChordQuality::Suspended2, Seq::<Interval>::empty()));
    assert(first_with_class(comp, 0i8, 0) == c4);
    let sketch = (c4, ChordQuality::Suspended2, Seq::<ExtensionAlter>::empty());
    assert(spec_candidate(comp, classes, 0i8) == Some(sketch)) by {
        assert(Seq::new(
            spec_analyze(others).1.len(),
            |i: int| ExtensionAlter::Add(spec_add_interval(c4, spec_analyze(others).1[i])),
        ) =~= Seq::<ExtensionAlter>::empty());
    }
    lemma_candidates_first(comp, classes, classes.len(), sketch);
    let cands = candidates_upto(comp, classes, classes.len());
    assert(first_rooted_at(cands, c4, 0) == Some(sketch));
    assert(lowest_upto(comp, comp.len()) == c4);
    assert(spec_analyze_chord(comp) == Some(sketch));
}

/// The chord-level round trip over middle C, for one catalog entry.
#[verifier::spinoff_prover]
#[verifier::rlimit(100)]
proof fn lemma_chord_roundtrip_suspended4(c: Chord)
    requires
        c.root == (Tuning { class: PitchClass::C, accidentals: 0, octave: 4 }),
        c.quality == ChordQuality::Suspended4,
        c.chord_type == ChordType::Triad,
        c.inversion == Inversion::RootPosition,
        c.voicing == Voicing::ClosePosition,
        c.extensions@ == Seq::<ExtensionAlter>::empty(),
    ensures
        components_ok(c),
        spec_analyze_chord(spec_components(c)) == Some(
            (c.root, c.quality, Seq::<ExtensionAlter>::empty()),
        ),
{
    reveal_with_fuel(crate::tuning::spec_add_accidentals, 4);
    reveal_with_fuel(crate::tuning::octave_correct, 3);
    reveal_with_fuel(cls_insert, 5);
    let c4 = Tuning { class: PitchClass::C, accidentals: 0, octave: 4 };
    let iv1 = named_interval(IntervalQuality::Perfect, 4, 5);
    let iv2 = named_interval(IntervalQuality::Perfect, 5, 7);
    let t1 = Tuning { class: PitchClass::F, accidentals: 0, octave: 4 };
    let t2 = Tuning { class: PitchClass::G, accidentals: 0, octave: 4 };
    assert(build_ext(c4, quality_intervals(c.quality), Seq::<ExtensionAlter>::empty()) == (
        Seq::<Interval>::empty(),
        Seq::<Interval>::empty(),
    ));
    assert(quality_intervals(c.quality) + Seq::<Interval>::empty() =~= quality_intervals(
        c.quality,
    ));
    assert(chord_intervals(c) == quality_intervals(c.quality));
    assert(quality_intervals(c.quality) =~= seq![iv1, iv2]);
    assert(add_ok(c4, iv1));
    assert(spec_add_interval(c4, iv1) == t1);
    assert(add_ok(c4, iv2));
    assert(spec_add_interval(c4, iv2) == t2);
    assert(spec_components_base(c) =~= seq![c4, t1, t2]);
    assert(spec_apply_inversion(seq![c4, t1, t2], Inversion::RootPosition) == seq![c4, t1, t2]);
    assert(spec_close_voicing(seq![c4, t1, t2]) =~= seq![c4, t1, t2]);
    let comp = spec_components(c);
    assert(comp == seq![c4, t1, t2]);
    assert forall|i: int| 0 <= i < chord_intervals(c).len() implies add_ok(c.root, #[trigger] chord_intervals(c)[i]) by {
        if i == 0 {
            assert(chord_intervals(c)[0] == iv1);
        }
        else if i == 1 {
            assert(chord_intervals(c)[1] == iv2);
        }
    }
    assert forall|i: int| 0 <= i < spec_components_base(c).len() implies (#[trigger] spec_components_base(c)[i]).octave < 127 by {
        assert(spec_components_base(c)[i] == seq![c4, t1, t2][i]);
    }
    assert(components_ok(c));
    assert(spec_number(c4) == 60);
    assert(spec_number(t1) == 65);
    assert(spec_number(t2) == 67);
    assert(lowest_upto(comp, 1) == c4);
    assert(lowest_upto(comp, 2) == c4);
    assert(lowest_upto(comp, 3) == c4);
    assert(crate::tuning::spec_class_semitones(c4) == 0);
    assert(crate::tuning::spec_class_semitones(t1) == 5);
    assert(crate::tuning::spec_class_semitones(t2) == 7);
    assert(seq![c4].drop_last() =~= Seq::<Tuning>::empty());
    assert(classes_of(Seq::<Tuning>::empty()) =~= Seq::<i8>::empty());
    assert(seq![c4, t1].drop_last() =~= seq![c4]);
    assert(seq![c4, t1, t2].drop_last() =~= seq![c4, t1]);
    assert(classes_of(seq![c4]) =~= seq![0i8]);
    assert(classes_of(seq![c4, t1]) =~= seq![0i8, 5i8]);
    assert(classes_of(seq![c4, t1, t2]) =~= seq![0i8, 5i8, 7i8]);
    let classes = classes_of(comp);
    assert(classes == seq![0i8, 5i8, 7i8]);
    assert(others_upto(classes, 0i8, 0) =~= Seq::<Interval>::empty());
    assert(others_upto(classes, 0i8, 1) =~= Seq::<Interval>::empty());
    assert(others_upto(classes, 0i8, 2) =~= seq![interval_of_semitones(5)]);
    assert(others_upto(classes, 0i8, 3) =~= seq![interval_of_semitones(5), interval_of_semitones(7)]);
    let others = others_upto(classes, 0i8, classes.len());
    assert(others == seq![interval_of_semitones(5), interval_of_semitones(7)]);
    crate::quality::lemma_kv_pair(interval_of_semitones(5), interval_of_semitones(7), 5i8, 7i8);
    crate::quality::lemma_exact_suspended4(others);
    assert(spec_analyze(others) == (ChordQuality::Suspended4, Seq::<Interval>::empty()));
    assert(first_with_class(comp, 0i8, 0) == c4);
    let sketch = (c4, ChordQuality::Suspended4, Seq::<ExtensionAlter>::empty());
    assert(spec_candidate(comp, classes, 0i8) == Some(sketch)) by {
        assert(Seq::new(
            spec_analyze(others).1.len(),
            |i: int| ExtensionAlter::Add(spec_add_interval(c4, spec_analyze(others).1[i])),
        ) =~= Seq::<ExtensionAlter>::empty());
    }
    lemma_candidates_first(comp, classes, classes.len(), sketch);
    let cands = candidates_upto(comp, classes, classes.len());
    assert(first_rooted_at(cands, c4, 0) == Some(sketch));
    assert(lowest_upto(comp, comp.len()) == c4);
    assert(spec_analyze_chord(comp) == Some(sketch));
}

/// Chord/scale duality at the chord level, over middle C: analyzing the
/// composition tones of a freshly built chord of any catalog quality
/// yields a chord of the same quality over the same root, with no
/// residual extensions.
pub proof fn lemma_chord_analysis_roundtrip(c: Chord)
    requires
        c.root == (Tuning { class: PitchClass::C, accidentals: 0, octave: 4 }),
        c.chord_type == ChordType::Triad,
        c.inversion == Inversion::RootPosition,
        c.voicing == Voicing::ClosePosition,
        c.extensions@ == Seq::<ExtensionAlter>::empty(),
    ensures
        components_ok(c),
        spec_analyze_chord(spec_components(c)) == Some(
            (c.root, c.quality, Seq::<ExtensionAlter>::empty()),
        ),
{
    match c.quality {
        ChordQuality::Major => lemma_chord_roundtrip_major(c),
        ChordQuality::Minor => lemma_chord_roundtrip_minor(c),
        ChordQuality::Diminished => lemma_chord_roundtrip_diminished(c),
        ChordQuality::Augmented => lemma_chord_roundtrip_augmented(c),
        ChordQuality::Major7 => lemma_chord_roundtrip_major7(c),
        ChordQuality::Dominant7 => lemma_chord_roundtrip_dominant7(c),
        ChordQuality::Minor7 => lemma_chord_roundtrip_minor7(c),
        ChordQuality::MinorMajor7 => lemma_chord_roundtrip_minormajor7(c),
        ChordQuality::HalfDiminished7 => lemma_chord_roundtrip_halfdiminished7(c),
        ChordQuality::Diminished7 => lemma_chord_roundtrip_diminished7(c),
        ChordQuality::Augmented7 => lemma_chord_roundtrip_augmented7(c),
        ChordQuality::AugmentedMajor7 => lemma_chord_roundtrip_augmentedmajor7(c),
        ChordQuality::Major6 => lemma_chord_roundtrip_major6(c),
        ChordQuality::Minor6 => lemma_chord_roundtrip_minor6(c),
        ChordQuality::Suspended2 => lemma_chord_roundtrip_suspended2(c),
        ChordQuality::Suspended4 => lemma_chord_roundtrip_suspended4(c),
    }
}

} // verus!
