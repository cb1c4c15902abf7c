//! The chord quality catalog: a closed set of named harmonic templates,
//! each mapping to a canonical, octave-reduced interval set, together with
//! reverse inference from an unordered interval set back to the
//! best-matching template.

use vstd::prelude::*;

use crate::errors::MusicError;
use crate::interval::Interval;
use crate::interval::IntervalQuality;
use crate::interval::named_interval;
use crate::text::chars_of;
use crate::text::strip_space_chars;
use crate::text::tail_eq_lit;
use vstd::string::StringExecFns;

verus! {

/// A named harmonic template: triads, seventh, sixth and suspended chords.
#[derive(Debug, Clone, Copy, PartialEq, Eq, Structural)]
#[allow(missing_docs)]
pub enum ChordQuality {
    Major,
    Minor,
    Diminished,
    Augmented,
    Major7,
    Dominant7,
    Minor7,
    MinorMajor7,
    HalfDiminished7,
    Diminished7,
    Augmented7,
    AugmentedMajor7,
    Major6,
    Minor6,
    Suspended2,
    Suspended4,
}

/// The triad at the base of a seventh-chord quality; other qualities are
/// their own base.
pub open spec fn base_quality_of(q: ChordQuality) -> ChordQuality {
    match q {
        ChordQuality::Major7 => ChordQuality::Major,
        ChordQuality::Dominant7 => ChordQuality::Major,
        ChordQuality::Minor7 => ChordQuality::Minor,
        ChordQuality::MinorMajor7 => ChordQuality::Minor,
        ChordQuality::HalfDiminished7 => ChordQuality::Diminished,
        ChordQuality::Diminished7 => ChordQuality::Diminished,
        ChordQuality::Augmented7 => ChordQuality::Augmented,
        ChordQuality::AugmentedMajor7 => ChordQuality::Augmented,
        _ => q,
    }
}

/// The catalog order of the quality templates.
pub open spec fn quality_catalog() -> Seq<ChordQuality> {
    seq![
        ChordQuality::Major,
        ChordQuality::Minor,
        ChordQuality::Diminished,
        ChordQuality::Augmented,
        ChordQuality::Major7,
        ChordQuality::Dominant7,
        ChordQuality::Minor7,
        ChordQuality::MinorMajor7,
        ChordQuality::HalfDiminished7,
        ChordQuality::Diminished7,
        ChordQuality::Augmented7,
        ChordQuality::AugmentedMajor7,
        ChordQuality::Major6,
        ChordQuality::Minor6,
        ChordQuality::Suspended2,
        ChordQuality::Suspended4,
    ]
}

/// Canonical interval template of a quality, relative to the chord root.
pub open spec fn quality_intervals(q: ChordQuality) -> Seq<Interval> {
    match q {
        ChordQuality::Major => seq![
            named_interval(IntervalQuality::Major, 3, 4),
            named_interval(IntervalQuality::Perfect, 5, 7),
        ],
        ChordQuality::Minor => seq![
            named_interval(IntervalQuality::Minor, 3, 3),
            named_interval(IntervalQuality::Perfect, 5, 7),
        ],
        ChordQuality::Diminished => seq![
            named_interval(IntervalQuality::Minor, 3, 3),
            named_interval(IntervalQuality::Diminished, 5, 6),
        ],
        ChordQuality::Augmented => seq![
            named_interval(IntervalQuality::Major, 3, 4),
            named_interval(IntervalQuality::Augmented, 5, 8),
        ],
        ChordQuality::Major7 => seq![
            named_interval(IntervalQuality::Major, 3, 4),
            named_interval(IntervalQuality::Perfect, 5, 7),
            named_interval(IntervalQuality::Major, 7, 11),
        ],
        ChordQuality::Dominant7 => seq![
            named_interval(IntervalQuality::Major, 3, 4),
            named_interval(IntervalQuality::Perfect, 5, 7),
            named_interval(IntervalQuality::Minor, 7, 10),
        ],
        ChordQuality::Minor7 => seq![
            named_interval(IntervalQuality::Minor, 3, 3),
            named_interval(IntervalQuality::Perfect, 5, 7),
            named_interval(IntervalQuality::Minor, 7, 10),
        ],
        ChordQuality::MinorMajor7 => seq![
            named_interval(IntervalQuality::Minor, 3, 3),
            named_interval(IntervalQuality::Perfect, 5, 7),
            named_interval(IntervalQuality::Major, 7, 11),
        ],
        ChordQuality::HalfDiminished7 => seq![
            named_interval(IntervalQuality::Minor, 3, 3),
            named_interval(IntervalQuality::Diminished, 5, 6),
            named_interval(IntervalQuality::Minor, 7, 10),
        ],
        ChordQuality::Diminished7 => seq![
            named_interval(IntervalQuality::Diminished, 3, 2),
            named_interval(IntervalQuality::Diminished, 5, 6),
            named_interval(IntervalQuality::Diminished, 7, 9),
        ],
        ChordQuality::Augmented7 => seq![
            named_interval(IntervalQuality::Augmented, 3, 5),
            named_interval(IntervalQuality::Augmented, 5, 8),
            named_interval(IntervalQuality::Minor, 7, 10),
        ],
        ChordQuality::AugmentedMajor7 => seq![
            named_interval(IntervalQuality::Augmented, 3, 5),
            named_interval(IntervalQuality::Augmented, 5, 8),
            named_interval(IntervalQuality::Major, 7, 11),
        ],
        ChordQuality::Major6 => seq![
            named_interval(IntervalQuality::Major, 3, 4),
            named_interval(IntervalQuality::Perfect, 5, 7),
            named_interval(IntervalQuality::Major, 6, 9),
        ],
        ChordQuality::Minor6 => seq![
            named_interval(IntervalQuality::Minor, 3, 3),
            named_interval(IntervalQuality::Perfect, 5, 7),
            named_interval(IntervalQuality::Major, 6, 9),
        ],
        ChordQuality::Suspended2 => seq![
            named_interval(IntervalQuality::Major, 2, 2),
            named_interval(IntervalQuality::Perfect, 5, 7),
        ],
        ChordQuality::Suspended4 => seq![
            named_interval(IntervalQuality::Perfect, 4, 5),
            named_interval(IntervalQuality::Perfect, 5, 7),
        ],
    }
}

impl ChordQuality {
    /// The triad at the base of this quality.
    pub fn base_quality(&self) -> (r: ChordQuality)
        ensures
            r == base_quality_of(*self),
    {
        match self {
            ChordQuality::Major7 => ChordQuality::Major,
            ChordQuality::Dominant7 => ChordQuality::Major,
            ChordQuality::Minor7 => ChordQuality::Minor,
            ChordQuality::MinorMajor7 => ChordQuality::Minor,
            ChordQuality::HalfDiminished7 => ChordQuality::Diminished,
            ChordQuality::Diminished7 => ChordQuality::Diminished,
            ChordQuality::Augmented7 => ChordQuality::Augmented,
            ChordQuality::AugmentedMajor7 => ChordQuality::Augmented,
            _ => *self,
        }
    }

    /// Every quality in the catalog, in catalog order.
    pub fn iter() -> (r: Vec<ChordQuality>)
        ensures
            r@ =~= quality_catalog(),
    {
        vec![
            ChordQuality::Major,
            ChordQuality::Minor,
            ChordQuality::Diminished,
            ChordQuality::Augmented,
            ChordQuality::Major7,
            ChordQuality::Dominant7,
            ChordQuality::Minor7,
            ChordQuality::MinorMajor7,
            ChordQuality::HalfDiminished7,
            ChordQuality::Diminished7,
            ChordQuality::Augmented7,
            ChordQuality::AugmentedMajor7,
            ChordQuality::Major6,
            ChordQuality::Minor6,
            ChordQuality::Suspended2,
            ChordQuality::Suspended4,
        ]
    }

    /// The canonical interval template of this quality.
    pub fn intervals(&self) -> (r: Vec<Interval>)
        ensures
            r@ =~= quality_intervals(*self),
    {
        match self {
            ChordQuality::Major => vec![
                Interval::from_quality_degree(IntervalQuality::Major, 3).unwrap(),
                Interval::from_quality_degree(IntervalQuality::Perfect, 5).unwrap(),
            ],
            ChordQuality::Minor => vec![
                Interval::from_quality_degree(IntervalQuality::Minor, 3).unwrap(),
                Interval::from_quality_degree(IntervalQuality::Perfect, 5).unwrap(),
            ],
            ChordQuality::Diminished => vec![
                Interval::from_quality_degree(IntervalQuality::Minor, 3).unwrap(),
                Interval::from_quality_degree(IntervalQuality::Diminished, 5).unwrap(),
            ],
            ChordQuality::Augmented => vec![
                Interval::from_quality_degree(IntervalQuality::Major, 3).unwrap(),
                Interval::from_quality_degree(IntervalQuality::Augmented, 5).unwrap(),
            ],
            ChordQuality::Major7 => vec![
                Interval::from_quality_degree(IntervalQuality::Major, 3).unwrap(),
                Interval::from_quality_degree(IntervalQuality::Perfect, 5).unwrap(),
                Interval::from_quality_degree(IntervalQuality::Major, 7).unwrap(),
            ],
            ChordQuality::Dominant7 => vec![
                Interval::from_quality_degree(IntervalQuality::Major, 3).unwrap(),
                Interval::from_quality_degree(IntervalQuality::Perfect, 5).unwrap(),
                Interval::from_quality_degree(IntervalQuality::Minor, 7).unwrap(),
            ],
            ChordQuality::Minor7 => vec![
                Interval::from_quality_degree(IntervalQuality::Minor, 3).unwrap(),
                Interval::from_quality_degree(IntervalQuality::Perfect, 5).unwrap(),
                Interval::from_quality_degree(IntervalQuality::Minor, 7).unwrap(),
            ],
            ChordQuality::MinorMajor7 => vec![
                Interval::from_quality_degree(IntervalQuality::Minor, 3).unwrap(),
                Interval::from_quality_degree(IntervalQuality::Perfect, 5).unwrap(),
                Interval::from_quality_degree(IntervalQuality::Major, 7).unwrap(),
            ],
            ChordQuality::HalfDiminished7 => vec![
                Interval::from_quality_degree(IntervalQuality::Minor, 3).unwrap(),
                Interval::from_quality_degree(IntervalQuality::Diminished, 5).unwrap(),
                Interval::from_quality_degree(IntervalQuality::Minor, 7).unwrap(),
            ],
            ChordQuality::Diminished7 => vec![
                Interval::from_quality_degree(IntervalQuality::Diminished, 3).unwrap(),
                Interval::from_quality_degree(IntervalQuality::Diminished, 5).unwrap(),
                Interval::from_quality_degree(IntervalQuality::Diminished, 7).unwrap(),
            ],
            ChordQuality::Augmented7 => vec![
                Interval::from_quality_degree(IntervalQuality::Augmented, 3).unwrap(),
                Interval::from_quality_degree(IntervalQuality::Augmented, 5).unwrap(),
                Interval::from_quality_degree(IntervalQuality::Minor, 7).unwrap(),
            ],
            ChordQuality::AugmentedMajor7 => vec![
                Interval::from_quality_degree(IntervalQuality::Augmented, 3).unwrap(),
                Interval::from_quality_degree(IntervalQuality::Augmented, 5).unwrap(),
                Interval::from_quality_degree(IntervalQuality::Major, 7).unwrap(),
            ],
            ChordQuality::Major6 => vec![
                Interval::from_quality_degree(IntervalQuality::Major, 3).unwrap(),
                Interval::from_quality_degree(IntervalQuality::Perfect, 5).unwrap(),
                Interval::from_quality_degree(IntervalQuality::Major, 6).unwrap(),
            ],
            ChordQuality::Minor6 => vec![
                Interval::from_quality_degree(IntervalQuality::Minor, 3).unwrap(),
                Interval::from_quality_degree(IntervalQuality::Perfect, 5).unwrap(),
                Interval::from_quality_degree(IntervalQuality::Major, 6).unwrap(),
            ],
            ChordQuality::Suspended2 => vec![
                Interval::from_quality_degree(IntervalQuality::Major, 2).unwrap(),
                Interval::from_quality_degree(IntervalQuality::Perfect, 5).unwrap(),
            ],
            ChordQuality::Suspended4 => vec![
                Interval::from_quality_degree(IntervalQuality::Perfect, 4).unwrap(),
                Interval::from_quality_degree(IntervalQuality::Perfect, 5).unwrap(),
            ],
        }
    }
}

/// A strictly ascending sequence of pitch-class keys.
pub open spec fn keys_sorted(keys: Seq<i8>) -> bool {
    forall|i: int, j: int| 0 <= i < j < keys.len() ==> keys[i] < keys[j]
}

/// Insert a key/value pair into a sorted key list with its parallel value
/// list; an equal key keeps its place and takes the new value.
pub open spec fn kv_insert(keys: Seq<i8>, vals: Seq<Interval>, k: i8, v: Interval) -> (
    Seq<i8>,
    Seq<Interval>,
)
    decreases keys.len(),
{
    if keys.len() == 0 {
        (seq![k], seq![v])
    } else if k < keys.first() {
        (seq![k] + keys, seq![v] + vals)
    } else if k == keys.first() {
        (keys, vals.update(0, v))
    } else {
        let rec = kv_insert(keys.drop_first(), vals.drop_first(), k, v);
        (seq![keys.first()] + rec.0, seq![vals.first()] + rec.1)
    }
}

/// The sorted pitch-class map of an interval list: each interval is keyed
/// by its semitones reduced to a class, and a later interval of the same
/// class replaces an earlier one.
pub open spec fn kv_of(ivs: Seq<Interval>) -> (Seq<i8>, Seq<Interval>)
    decreases ivs.len(),
{
    if ivs.len() == 0 {
        (Seq::<i8>::empty(), Seq::<Interval>::empty())
    } else {
        let prev = kv_of(ivs.drop_last());
        kv_insert(
            prev.0,
            prev.1,
            (((ivs.last().semitones as int) % 12) as i8),
            ivs.last(),
        )
    }
}

/// The pitch-class keys of a quality's template, in template order.
pub open spec fn template_keys(q: ChordQuality) -> Seq<i8> {
    Seq::new(
        quality_intervals(q).len(),
        |i: int| (((quality_intervals(q)[i].semitones as int) % 12) as i8),
    )
}

/// The key/value pairs among the first `i` whose key is absent from the
/// template keys: the tones a template leaves unexplained.
pub open spec fn diff_upto(
    keys: Seq<i8>,
    vals: Seq<Interval>,
    tkeys: Seq<i8>,
    i: nat,
) -> (Seq<i8>, Seq<Interval>)
    decreases i,
{
    if i == 0 {
        (Seq::<i8>::empty(), Seq::<Interval>::empty())
    } else {
        let prev = diff_upto(keys, vals, tkeys, (i - 1) as nat);
        if !tkeys.contains(keys[i - 1]) {
            (prev.0.push(keys[i - 1]), prev.1.push(vals[i - 1]))
        } else {
            prev
        }
    }
}

/// How many of the input's pitch classes a template leaves unexplained.
pub open spec fn diff_count(keys: Seq<i8>, vals: Seq<Interval>, q: ChordQuality) -> int {
    diff_upto(keys, vals, template_keys(q), keys.len()).0.len() as int
}

/// The first quality, in catalog order from `i`, whose template keys are
/// exactly the input keys.
pub open spec fn first_exact(keys: Seq<i8>, i: nat) -> Option<ChordQuality>
    decreases 16 - i,
{
    if i >= 16 {
        None
    } else if keys =~= template_keys(quality_catalog()[i as int]) {
        Some(quality_catalog()[i as int])
    } else {
        first_exact(keys, (i + 1) as nat)
    }
}

/// The earliest quality among the first `i` of the catalog that leaves the
/// fewest input pitch classes unexplained.
pub open spec fn best_upto(keys: Seq<i8>, vals: Seq<Interval>, i: nat) -> ChordQuality
    decreases i,
{
    if i <= 1 {
        quality_catalog()[0]
    } else {
        let prev = best_upto(keys, vals, (i - 1) as nat);
        if diff_count(keys, vals, quality_catalog()[i - 1]) < diff_count(keys, vals, prev) {
            quality_catalog()[i - 1]
        } else {
            prev
        }
    }
}

/// What quality inference returns on an interval list: an exact template
/// match in catalog order wins with no residue; otherwise the earliest
/// quality leaving the fewest pitch classes unexplained, with the
/// unexplained tones as residue. (For a fixed input, the shared-tone count
/// is the input size minus the unexplained count, so the published
/// fewest-unexplained-then-most-shared tie-break reduces to fewest
/// unexplained, earliest in the catalog.)
pub open spec fn spec_analyze(ivs: Seq<Interval>) -> (ChordQuality, Seq<Interval>) {
    let kv = kv_of(ivs);
    match first_exact(kv.0, 0) {
        Some(q) => (q, Seq::<Interval>::empty()),
        None => {
            let q = best_upto(kv.0, kv.1, 16);
            (q, diff_upto(kv.0, kv.1, template_keys(q), kv.0.len()).1)
        },
    }
}

/// Inserting into a sorted map at the position the scan found agrees with
/// the recursive insertion.
proof fn lemma_kv_insert_at(keys: Seq<i8>, vals: Seq<Interval>, k: i8, v: Interval, pos: int)
    requires
        keys_sorted(keys),
        vals.len() == keys.len(),
        0 <= pos <= keys.len(),
        forall|j: int| 0 <= j < pos ==> keys[j] < k,
        pos < keys.len() ==> keys[pos] >= k,
    ensures
        pos < keys.len() && keys[pos] == k ==> kv_insert(keys, vals, k, v) == (
            keys,
            vals.update(pos, v),
        ),
        !(pos < keys.len() && keys[pos] == k) ==> kv_insert(keys, vals, k, v) == (
            keys.insert(pos, k),
            vals.insert(pos, v),
        ),
    decreases pos,
{
    if keys.len() == 0 {
        assert(kv_insert(keys, vals, k, v) == (seq![k], seq![v]));
        assert(keys.insert(0, k) =~= seq![k]);
        assert(vals.insert(0, v) =~= seq![v]);
    } else if pos == 0 {
        if keys[0] == k {
        } else {
            assert(k < keys.first());
            assert(keys.insert(0, k) =~= seq![k] + keys);
            assert(vals.insert(0, v) =~= seq![v] + vals);
        }
    } else {
        assert(keys[0] < k);
        lemma_kv_insert_at(keys.drop_first(), vals.drop_first(), k, v, pos - 1);
        let rec = kv_insert(keys.drop_first(), vals.drop_first(), k, v);
        if pos < keys.len() && keys[pos] == k {
            assert(keys.drop_first()[pos - 1] == keys[pos]);
            assert(seq![keys.first()] + keys.drop_first() =~= keys);
            assert(seq![vals.first()] + vals.drop_first().update(pos - 1, v) =~= vals.update(
                pos,
                v,
            ));
        } else {
            assert(seq![keys.first()] + keys.drop_first().insert(pos - 1, k) =~= keys.insert(
                pos,
                k,
            ));
            assert(seq![vals.first()] + vals.drop_first().insert(pos - 1, v) =~= vals.insert(
                pos,
                v,
            ));
        }
    }
}

/// Recursive insertion keeps the map sorted and the lists parallel.
proof fn lemma_kv_insert_sorted(keys: Seq<i8>, vals: Seq<Interval>, k: i8, v: Interval)
    requires
        keys_sorted(keys),
        vals.len() == keys.len(),
    ensures
        keys_sorted(kv_insert(keys, vals, k, v).0),
        kv_insert(keys, vals, k, v).1.len() == kv_insert(keys, vals, k, v).0.len(),
        kv_insert(keys, vals, k, v).0.contains(k),
        forall|x: i8|
            kv_insert(keys, vals, k, v).0.contains(x) <==> (keys.contains(x) || x == k),
    decreases keys.len(),
{
    if keys.len() == 0 {
        assert(kv_insert(keys, vals, k, v).0 =~= seq![k]);
        assert forall|x: i8| kv_insert(keys, vals, k, v).0.contains(x) implies (keys.contains(x)
            || x == k) by {}
        assert(seq![k][0] == k);
        assert(seq![k].contains(k));
    } else if k < keys.first() {
        let nk = seq![k] + keys;
        assert(nk[0] == k);
        assert(nk.contains(k));
        assert forall|x: i8| nk.contains(x) implies (keys.contains(x) || x == k) by {
            let w = choose|w: int| 0 <= w < nk.len() && nk[w] == x;
            if w > 0 {
                assert(keys[w - 1] == x);
            }
        }
        assert forall|x: i8| keys.contains(x) implies nk.contains(x) by {
            let w = choose|w: int| 0 <= w < keys.len() && keys[w] == x;
            assert(nk[w + 1] == x);
        }
    } else if k == keys.first() {
        assert(keys[0] == k);
    } else {
        lemma_kv_insert_sorted(keys.drop_first(), vals.drop_first(), k, v);
        let rec = kv_insert(keys.drop_first(), vals.drop_first(), k, v);
        let nk = seq![keys.first()] + rec.0;
        assert forall|i: int, j: int| 0 <= i < j < nk.len() implies nk[i] < nk[j] by {
            if i == 0 {
                assert(rec.0.contains(nk[j])) by {
                    assert(rec.0[j - 1] == nk[j]);
                }
                if keys.drop_first().contains(nk[j]) {
                    let w = choose|w: int|
                        0 <= w < keys.drop_first().len() && keys.drop_first()[w] == nk[j];
                    assert(keys[w + 1] == nk[j]);
                } else {
                    assert(nk[j] == k);
                }
            } else {
                assert(rec.0[i - 1] < rec.0[j - 1]);
            }
        }
        assert(nk.contains(k)) by {
            let w = choose|w: int| 0 <= w < rec.0.len() && rec.0[w] == k;
            assert(nk[w + 1] == k);
        }
        assert forall|x: i8| nk.contains(x) implies (keys.contains(x) || x == k) by {
            let w = choose|w: int| 0 <= w < nk.len() && nk[w] == x;
            if w == 0 {
                assert(keys[0] == x);
            } else {
                assert(rec.0[w - 1] == x);
                if keys.drop_first().contains(x) {
                    let w2 = choose|w2: int|
                        0 <= w2 < keys.drop_first().len() && keys.drop_first()[w2] == x;
                    assert(keys[w2 + 1] == x);
                }
            }
        }
        assert forall|x: i8| (keys.contains(x) || x == k) implies nk.contains(x) by {
            if x == k {
            } else {
                let w = choose|w: int| 0 <= w < keys.len() && keys[w] == x;
                if w == 0 {
                    assert(nk[0] == x);
                } else {
                    assert(keys.drop_first()[w - 1] == x);
                    assert(keys.drop_first().contains(x));
                    assert(rec.0.contains(x));
                    let w2 = choose|w2: int| 0 <= w2 < rec.0.len() && rec.0[w2] == x;
                    assert(nk[w2 + 1] == x);
                }
            }
        }
    }
}

impl ChordQuality {
    /// Infer the best-matching quality for an unordered interval set,
    /// reduced to pitch classes: an exact template match wins immediately;
    /// otherwise the earliest template leaving the fewest tones
    /// unexplained wins, and the unexplained tones come back as residue.
    pub fn analyze_from(intervals: &[Interval]) -> (r: Result<
        (Self, Vec<Interval>),
        MusicError,
    >)
        ensures
            r matches Ok(p) && p.0 == spec_analyze(intervals@).0 && p.1@ == spec_analyze(
                intervals@,
            ).1,
    {
        let mut keys: Vec<i8> = Vec::new();
        let mut vals: Vec<Interval> = Vec::new();
        let mut i: usize = 0;
        while i < intervals.len()
            invariant
                0 <= i <= intervals@.len(),
                keys@.len() == vals@.len(),
                keys_sorted(keys@),
                (keys@, vals@) == kv_of(intervals@.subrange(0, i as int)),
            decreases intervals@.len() - i,
        {
            let iv = intervals[i];
            let k: i8 = iv.semitones_mod();
            let mut pos: usize = 0;
            while pos < keys.len() && keys[pos] < k
                invariant
                    keys_sorted(keys@),
                    0 <= pos <= keys@.len(),
                    forall|j: int| 0 <= j < pos ==> keys@[j] < k,
                decreases keys@.len() - pos,
            {
                pos = pos + 1;
            }
            proof {
                lemma_kv_insert_at(keys@, vals@, k, iv, pos as int);
                lemma_kv_insert_sorted(keys@, vals@, k, iv);
                assert(intervals@.subrange(0, (i + 1) as int).drop_last() =~= intervals@.subrange(
                    0,
                    i as int,
                ));
                assert(intervals@.subrange(0, (i + 1) as int).last() == intervals@[i as int]);
            }
            if pos < keys.len() && keys[pos] == k {
                vals.set(pos, iv);
            } else {
                keys.insert(pos, k);
                vals.insert(pos, iv);
            }
            i = i + 1;
        }
        proof {
            assert(intervals@.subrange(0, intervals@.len() as int) =~= intervals@);
        }
        let catalog = ChordQuality::iter();
        let mut best_q: ChordQuality = ChordQuality::Major;
        let mut best_diff_keys: Vec<i8> = Vec::new();
        let mut best_diff_vals: Vec<Interval> = Vec::new();
        let mut have_best: bool = false;
        let mut qi: usize = 0;
        while qi < catalog.len()
            invariant
                catalog@ =~= quality_catalog(),
                catalog@.len() == 16,
                keys@.len() == vals@.len(),
                (keys@, vals@) == kv_of(intervals@),
                first_exact(keys@, 0) is Some ==> first_exact(keys@, qi as nat) == first_exact(
                    keys@,
                    0,
                ),
                first_exact(keys@, qi as nat) is Some ==> first_exact(keys@, 0) is Some,
                0 <= qi <= 16,
                qi >= 1 ==> have_best,
                qi == 0 ==> !have_best,
                have_best ==> {
                    &&& best_q == best_upto(keys@, vals@, qi as nat)
                    &&& (best_diff_keys@, best_diff_vals@) == diff_upto(
                        keys@,
                        vals@,
                        template_keys(best_q),
                        keys@.len(),
                    )
                    &&& best_diff_keys@.len() == diff_count(keys@, vals@, best_q)
                },
            decreases catalog@.len() - qi,
        {
            let q = catalog[qi];
            let template = q.intervals();
            let mut tkeys: Vec<i8> = Vec::new();
            let mut ti: usize = 0;
            while ti < template.len()
                invariant
                    template@ == quality_intervals(q),
                    0 <= ti <= template@.len(),
                    tkeys@.len() == ti,
                    forall|j: int|
                        0 <= j < ti ==> tkeys@[j] == (((quality_intervals(q)[j].semitones as int)
                            % 12) as i8),
                decreases template@.len() - ti,
            {
                tkeys.push(template[ti].semitones_mod());
                ti = ti + 1;
            }
            proof {
                assert(tkeys@ =~= template_keys(q));
            }
            // Exact set match: return at once with no residue.
            let mut same: bool = keys.len() == tkeys.len();
            if same {
                let mut ci: usize = 0;
                while ci < keys.len() && keys[ci] == tkeys[ci]
                    invariant
                        tkeys@ == template_keys(q),
                        keys@.len() == tkeys@.len(),
                        0 <= ci <= keys@.len(),
                        forall|j: int| 0 <= j < ci ==> keys@[j] == tkeys@[j],
                    decreases keys@.len() - ci,
                {
                    ci = ci + 1;
                }
                if ci < keys.len() {
                    same = false;
                }
            }
            if same {
                proof {
                    assert(keys@ =~= template_keys(q));
                    assert(first_exact(keys@, qi as nat) == Some(q));
                }
                return Ok((q, Vec::new()));
            }
            proof {
                assert(!(keys@ =~= template_keys(q)));
            }
            // Score: collect the keys the template does not explain.
            let mut dkeys: Vec<i8> = Vec::new();
            let mut dvals: Vec<Interval> = Vec::new();
            let mut di: usize = 0;
            while di < keys.len()
                invariant
                    keys@.len() == vals@.len(),
                    tkeys@ == template_keys(q),
                    0 <= di <= keys@.len(),
                    (dkeys@, dvals@) == diff_upto(keys@, vals@, template_keys(q), di as nat),
                    dkeys@.len() == dvals@.len(),
                decreases keys@.len() - di,
            {
                let mut found: bool = false;
                let mut si: usize = 0;
                while si < tkeys.len()
                    invariant
                        di < keys@.len(),
                        0 <= si <= tkeys@.len(),
                        found <==> exists|j: int| 0 <= j < si && tkeys@[j] == keys@[di as int],
                    decreases tkeys@.len() - si,
                {
                    if tkeys[si] == keys[di] {
                        found = true;
                    }
                    si = si + 1;
                }
                proof {
                    assert(found == tkeys@.contains(keys@[di as int]));
                }
                if !found {
                    dkeys.push(keys[di]);
                    dvals.push(vals[di]);
                }
                di = di + 1;
            }
            if !have_best || dkeys.len() < best_diff_keys.len() {
                best_q = q;
                best_diff_keys = dkeys;
                best_diff_vals = dvals;
                have_best = true;
            }
            qi = qi + 1;
        }
        proof {
            assert(first_exact(keys@, 0) is None);
        }
        Ok((best_q, best_diff_vals))
    }
}


/// The printed shorthand of a chord quality, as appended to a root name.
pub open spec fn quality_symbol(q: ChordQuality) -> Seq<char> {
    match q {
        ChordQuality::Major => ""@,
        ChordQuality::Minor => "m"@,
        ChordQuality::Diminished => "dim"@,
        ChordQuality::Augmented => "aug"@,
        ChordQuality::Major7 => "M7"@,
        ChordQuality::Dominant7 => "7"@,
        ChordQuality::Minor7 => "m7"@,
        ChordQuality::MinorMajor7 => "mM7"@,
        ChordQuality::HalfDiminished7 => "\u{d8}"@,
        ChordQuality::Diminished7 => "\u{b0}7"@,
        ChordQuality::Augmented7 => "aug7"@,
        ChordQuality::AugmentedMajor7 => "augM7"@,
        ChordQuality::Major6 => "M6"@,
        ChordQuality::Minor6 => "m6"@,
        ChordQuality::Suspended2 => "sus2"@,
        ChordQuality::Suspended4 => "sus4"@,
    }
}

/// The quality a chord-symbol suffix names, over the closed symbol table.
pub open spec fn quality_of_symbol(t: Seq<char>) -> Option<ChordQuality> {
    if t == ""@ || t == "M"@ || t == "maj"@ || t == "major"@ {
        Some(ChordQuality::Major)
    } else if t == "m"@ || t == "min"@ || t == "minor"@ {
        Some(ChordQuality::Minor)
    } else if t == "dim"@ || t == "diminished"@ {
        Some(ChordQuality::Diminished)
    } else if t == "aug"@ || t == "augmented"@ {
        Some(ChordQuality::Augmented)
    } else if t == "M7"@ || t == "maj7"@ || t == "major7"@ {
        Some(ChordQuality::Major7)
    } else if t == "7"@ || t == "dom7"@ || t == "dominant7"@ {
        Some(ChordQuality::Dominant7)
    } else if t == "m7"@ || t == "min7"@ || t == "minor7"@ {
        Some(ChordQuality::Minor7)
    } else if t == "mM7"@ || t == "minM7"@ || t == "minorMajor7"@ {
        Some(ChordQuality::MinorMajor7)
    } else if t == "\u{d8}"@ || t == "half-diminished7"@ {
        Some(ChordQuality::HalfDiminished7)
    } else if t == "\u{b0}7"@ || t == "diminished7"@ {
        Some(ChordQuality::Diminished7)
    } else if t == "aug7"@ || t == "augmented7"@ {
        Some(ChordQuality::Augmented7)
    } else if t == "augM7"@ || t == "augmentedMajor7"@ {
        Some(ChordQuality::AugmentedMajor7)
    } else if t == "M6"@ || t == "maj6"@ || t == "major6"@ {
        Some(ChordQuality::Major6)
    } else if t == "m6"@ || t == "min6"@ || t == "minor6"@ {
        Some(ChordQuality::Minor6)
    } else if t == "sus2"@ {
        Some(ChordQuality::Suspended2)
    } else if t == "sus4"@ {
        Some(ChordQuality::Suspended4)
    } else {
        None
    }
}

/// Read a chord-quality suffix from the tail of a character list, over
/// the closed symbol table; an unknown suffix fails with
/// `InvalidIntervalQuality`.
pub fn quality_from_chars(v: &Vec<char>, start: usize) -> (r: Result<ChordQuality, MusicError>)
    requires
        start <= v@.len(),
    ensures
        quality_of_symbol(v@.subrange(start as int, v@.len() as int)) matches Some(q) ==> (
        r matches Ok(rq) && rq == q),
        quality_of_symbol(v@.subrange(start as int, v@.len() as int)) is None ==> (r matches Err(
            MusicError::InvalidIntervalQuality,
        )),
{
    if tail_eq_lit(v, start, "") || tail_eq_lit(v, start, "M") || tail_eq_lit(v, start, "maj")
        || tail_eq_lit(v, start, "major") {
        Ok(ChordQuality::Major)
    } else if tail_eq_lit(v, start, "m") || tail_eq_lit(v, start, "min") || tail_eq_lit(
        v,
        start,
        "minor",
    ) {
        Ok(ChordQuality::Minor)
    } else if tail_eq_lit(v, start, "dim") || tail_eq_lit(v, start, "diminished") {
        Ok(ChordQuality::Diminished)
    } else if tail_eq_lit(v, start, "aug") || tail_eq_lit(v, start, "augmented") {
        Ok(ChordQuality::Augmented)
    } else if tail_eq_lit(v, start, "M7") || tail_eq_lit(v, start, "maj7") || tail_eq_lit(
        v,
        start,
        "major7",
    ) {
        Ok(ChordQuality::Major7)
    } else if tail_eq_lit(v, start, "7") || tail_eq_lit(v, start, "dom7") || tail_eq_lit(
        v,
        start,
        "dominant7",
    ) {
        Ok(ChordQuality::Dominant7)
    } else if tail_eq_lit(v, start, "m7") || tail_eq_lit(v, start, "min7") || tail_eq_lit(
        v,
        start,
        "minor7",
    ) {
        Ok(ChordQuality::Minor7)
    } else if tail_eq_lit(v, start, "mM7") || tail_eq_lit(v, start, "minM7") || tail_eq_lit(
        v,
        start,
        "minorMajor7",
    ) {
        Ok(ChordQuality::MinorMajor7)
    } else if tail_eq_lit(v, start, "\u{d8}") || tail_eq_lit(v, start, "half-diminished7") {
        Ok(ChordQuality::HalfDiminished7)
    } else if tail_eq_lit(v, start, "\u{b0}7") || tail_eq_lit(v, start, "diminished7") {
        Ok(ChordQuality::Diminished7)
    } else if tail_eq_lit(v, start, "aug7") || tail_eq_lit(v, start, "augmented7") {
        Ok(ChordQuality::Augmented7)
    } else if tail_eq_lit(v, start, "augM7") || tail_eq_lit(v, start, "augmentedMajor7") {
        Ok(ChordQuality::AugmentedMajor7)
    } else if tail_eq_lit(v, start, "M6") || tail_eq_lit(v, start, "maj6") || tail_eq_lit(
        v,
        start,
        "major6",
    ) {
        Ok(ChordQuality::Major6)
    } else if tail_eq_lit(v, start, "m6") || tail_eq_lit(v, start, "min6") || tail_eq_lit(
        v,
        start,
        "minor6",
    ) {
        Ok(ChordQuality::Minor6)
    } else if tail_eq_lit(v, start, "sus2") {
        Ok(ChordQuality::Suspended2)
    } else if tail_eq_lit(v, start, "sus4") {
        Ok(ChordQuality::Suspended4)
    } else {
        Err(MusicError::InvalidIntervalQuality)
    }
}

impl ChordQuality {
    /// Parse a chord-quality name over the closed symbol table, with all
    /// whitespace removed first.
    pub fn from_str(s: &str) -> (r: Result<ChordQuality, MusicError>)
        ensures
            quality_of_symbol(crate::text::strip_spaces(s@)) matches Some(q) ==> (r matches
                Ok(rq) && rq == q),
            quality_of_symbol(crate::text::strip_spaces(s@)) is None ==> (r matches Err(
                MusicError::InvalidIntervalQuality,
            )),
    {
        let v = chars_of(s);
        let f = strip_space_chars(&v);
        proof {
            assert(f@.subrange(0, f@.len() as int) =~= f@);
        }
        quality_from_chars(&f, 0)
    }

    /// The quality's printed shorthand, as appended to a root name.
    pub fn to_string(&self) -> (r: String)
        ensures
            r@ == quality_symbol(*self),
    {
        match self {
            ChordQuality::Major => String::from_str(""),
            ChordQuality::Minor => String::from_str("m"),
            ChordQuality::Diminished => String::from_str("dim"),
            ChordQuality::Augmented => String::from_str("aug"),
            ChordQuality::Major7 => String::from_str("M7"),
            ChordQuality::Dominant7 => String::from_str("7"),
            ChordQuality::Minor7 => String::from_str("m7"),
            ChordQuality::MinorMajor7 => String::from_str("mM7"),
            ChordQuality::HalfDiminished7 => String::from_str("\u{d8}"),
            ChordQuality::Diminished7 => String::from_str("\u{b0}7"),
            ChordQuality::Augmented7 => String::from_str("aug7"),
            ChordQuality::AugmentedMajor7 => String::from_str("augM7"),
            ChordQuality::Major6 => String::from_str("M6"),
            ChordQuality::Minor6 => String::from_str("m6"),
            ChordQuality::Suspended2 => String::from_str("sus2"),
            ChordQuality::Suspended4 => String::from_str("sus4"),
        }
    }
}



/// A two-interval list with ascending distinct pitch classes maps to
/// itself, keys in order.
pub(crate) proof fn lemma_kv_pair(a: Interval, b: Interval, ka: i8, kb: i8)
    requires
        ka == (((a.semitones as int) % 12) as i8),
        kb == (((b.semitones as int) % 12) as i8),
        ka < kb,
    ensures
        kv_of(seq![a, b]).0 == seq![ka, kb],
        kv_of(seq![a, b]).1 == seq![a, b],
{
    reveal_with_fuel(kv_of, 4);
    reveal_with_fuel(kv_insert, 4);
    assert(seq![a].drop_last() =~= Seq::<Interval>::empty());
    assert(kv_of(seq![a]).0 =~= seq![ka]);
    assert(kv_of(seq![a]).1 =~= seq![a]);
    assert(seq![a, b].drop_last() =~= seq![a]);
    assert(kv_of(seq![a, b]).0 =~= seq![ka] + kv_insert(
        Seq::<i8>::empty(),
        Seq::<Interval>::empty(),
        kb,
        b,
    ).0);
    assert(kv_of(seq![a, b]).0 =~= seq![ka, kb]);
    assert(kv_of(seq![a, b]).1 =~= seq![a, b]);
}

/// A three-interval list with ascending distinct pitch classes maps to
/// itself, keys in order.
pub(crate) proof fn lemma_kv_triple(a: Interval, b: Interval, c: Interval, ka: i8, kb: i8, kc: i8)
    requires
        ka == (((a.semitones as int) % 12) as i8),
        kb == (((b.semitones as int) % 12) as i8),
        kc == (((c.semitones as int) % 12) as i8),
        ka < kb < kc,
    ensures
        kv_of(seq![a, b, c]).0 == seq![ka, kb, kc],
        kv_of(seq![a, b, c]).1 == seq![a, b, c],
{
    reveal_with_fuel(kv_of, 5);
    reveal_with_fuel(kv_insert, 5);
    lemma_kv_pair(a, b, ka, kb);
    assert(seq![a, b, c].drop_last() =~= seq![a, b]);
    let ins = kv_insert(seq![ka, kb], seq![a, b], kc, c);
    assert(seq![ka, kb].drop_first() =~= seq![kb]);
    assert(seq![a, b].drop_first() =~= seq![b]);
    assert(seq![kb].drop_first() =~= Seq::<i8>::empty());
    assert(seq![b].drop_first() =~= Seq::<Interval>::empty());
    assert(kv_insert(Seq::<i8>::empty(), Seq::<Interval>::empty(), kc, c).0 =~= seq![kc]);
    assert(kv_insert(seq![kb], seq![b], kc, c).0 =~= seq![kb, kc]);
    assert(kv_insert(seq![kb], seq![b], kc, c).1 =~= seq![b, c]);
    assert(ins.0 =~= seq![ka, kb, kc]);
    assert(ins.1 =~= seq![a, b, c]);
    assert(kv_of(seq![a, b, c]).0 =~= seq![ka, kb, kc]);
    assert(kv_of(seq![a, b, c]).1 =~= seq![a, b, c]);
}

/// An exact template match by pitch-class keys, for one catalog entry.
#[verifier::spinoff_prover]
pub(crate) proof fn lemma_exact_major(ivs: Seq<Interval>)
    requires
        kv_of(ivs).0 == seq![4i8, 7i8],
    ensures
        spec_analyze(ivs) == (ChordQuality::Major, Seq::<Interval>::empty()),
{
    let keys = kv_of(ivs).0;
    assert(template_keys(quality_catalog()[0]) =~= seq![4i8, 7i8]);
    assert(keys =~= template_keys(quality_catalog()[0]));
    assert(first_exact(keys, 0) == Some(ChordQuality::Major));
    assert(spec_analyze(ivs) == (ChordQuality::Major, Seq::<Interval>::empty()));
}

/// An exact template match by pitch-class keys, for one catalog entry.
#[verifier::spinoff_prover]
pub(crate) proof fn lemma_exact_minor(ivs: Seq<Interval>)
    requires
        kv_of(ivs).0 == seq![3i8, 7i8],
    ensures
        spec_analyze(ivs) == (ChordQuality::Minor, Seq::<Interval>::empty()),
{
    let keys = kv_of(ivs).0;
    assert(template_keys(quality_catalog()[0]) =~= seq![4i8, 7i8]);
    assert(template_keys(quality_catalog()[1]) =~= seq![3i8, 7i8]);
    assert(!(keys =~= template_keys(quality_catalog()[0]))) by {
        assert(keys[0] != template_keys(quality_catalog()[0])[0]);
    }
    assert(first_exact(keys, 0) == first_exact(keys, 1));
    assert(keys =~= template_keys(quality_catalog()[1]));
    assert(first_exact(keys, 1) == Some(ChordQuality::Minor));
    assert(spec_analyze(ivs) == (ChordQuality::Minor, Seq::<Interval>::empty()));
}

/// An exact template match by pitch-class keys, for one catalog entry.
#[verifier::spinoff_prover]
pub(crate) proof fn lemma_exact_diminished(ivs: Seq<Interval>)
    requires
        kv_of(ivs).0 == seq![3i8, 6i8],
    ensures
        spec_analyze(ivs) == (ChordQuality::Diminished, Seq::<Interval>::empty()),
{
    let keys = kv_of(ivs).0;
    assert(template_keys(quality_catalog()[0]) =~= seq![4i8, 7i8]);
    assert(template_keys(quality_catalog()[1]) =~= seq![3i8, 7i8]);
    assert(template_keys(quality_catalog()[2]) =~= seq![3i8, 6i8]);
    assert(!(keys =~= template_keys(quality_catalog()[0]))) by {
        assert(keys[0] != template_keys(quality_catalog()[0])[0]);
    }
    assert(!(keys =~= template_keys(quality_catalog()[1]))) by {
        assert(keys[1] != template_keys(quality_catalog()[1])[1]);
    }
    assert(first_exact(keys, 0) == first_exact(keys, 1));
    assert(first_exact(keys, 1) == first_exact(keys, 2));
    assert(keys =~= template_keys(quality_catalog()[2]));
    assert(first_exact(keys, 2) == Some(ChordQuality::Diminished));
    assert(spec_analyze(ivs) == (ChordQuality::Diminished, Seq::<Interval>::empty()));
}

/// An exact template match by pitch-class keys, for one catalog entry.
#[verifier::spinoff_prover]
pub(crate) proof fn lemma_exact_augmented(ivs: Seq<Interval>)
    requires
        kv_of(ivs).0 == seq![4i8, 8i8],
    ensures
        spec_analyze(ivs) == (ChordQuality::Augmented, Seq::<Interval>::empty()),
{
    let keys = kv_of(ivs).0;
    assert(template_keys(quality_catalog()[0]) =~= seq![4i8, 7i8]);
    assert(template_keys(quality_catalog()[1]) =~= seq![3i8, 7i8]);
    assert(template_keys(quality_catalog()[2]) =~= seq![3i8, 6i8]);
    assert(template_keys(quality_catalog()[3]) =~= seq![4i8, 8i8]);
    assert(!(keys =~= template_keys(quality_catalog()[0]))) by {
        assert(keys[1] != template_keys(quality_catalog()[0])[1]);
    }
    assert(!(keys =~= template_keys(quality_catalog()[1]))) by {
        assert(keys[0] != template_keys(quality_catalog()[1])[0]);
    }
    assert(!(keys =~= template_keys(quality_catalog()[2]))) by {
        assert(keys[0] != template_keys(quality_catalog()[2])[0]);
    }
    assert(first_exact(keys, 0) == first_exact(keys, 1));
    assert(first_exact(keys, 1) == first_exact(keys, 2));
    assert(first_exact(keys, 2) == first_exact(keys, 3));
    assert(keys =~= template_keys(quality_catalog()[3]));
    assert(first_exact(keys, 3) == Some(ChordQuality::Augmented));
    assert(spec_analyze(ivs) == (ChordQuality::Augmented, Seq::<Interval>::empty()));
}

/// An exact template match by pitch-class keys, for one catalog entry.
#[verifier::spinoff_prover]
pub(crate) proof fn lemma_exact_major7(ivs: Seq<Interval>)
    requires
        kv_of(ivs).0 == seq![4i8, 7i8, 11i8],
    ensures
        spec_analyze(ivs) == (ChordQuality::Major7, Seq::<Interval>::empty()),
{
    let keys = kv_of(ivs).0;
    assert(template_keys(quality_catalog()[0]) =~= seq![4i8, 7i8]);
    assert(template_keys(quality_catalog()[1]) =~= seq![3i8, 7i8]);
    assert(template_keys(quality_catalog()[2]) =~= seq![3i8, 6i8]);
    assert(template_keys(quality_catalog()[3]) =~= seq![4i8, 8i8]);
    assert(template_keys(quality_catalog()[4]) =~= seq![4i8, 7i8, 11i8]);
    assert(!(keys =~= template_keys(quality_catalog()[0]))) by {
        assert(keys.len() != template_keys(quality_catalog()[0]).len());
    }
    assert(!(keys =~= template_keys(quality_catalog()[1]))) by {
        assert(keys.len() != template_keys(quality_catalog()[1]).len());
    }
    assert(!(keys =~= template_keys(quality_catalog()[2]))) by {
        assert(keys.len() != template_keys(quality_catalog()[2]).len());
    }
    assert(!(keys =~= template_keys(quality_catalog()[3]))) by {
        assert(keys.len() != template_keys(quality_catalog()[3]).len());
    }
    assert(first_exact(keys, 0) == first_exact(keys, 1));
    assert(first_exact(keys, 1) == first_exact(keys, 2));
    assert(first_exact(keys, 2) == first_exact(keys, 3));
    assert(first_exact(keys, 3) == first_exact(keys, 4));
    assert(keys =~= template_keys(quality_catalog()[4]));
    assert(first_exact(keys, 4) == Some(ChordQuality::Major7));
    assert(spec_analyze(ivs) == (ChordQuality::Major7, Seq::<Interval>::empty()));
}

/// An exact template match by pitch-class keys, for one catalog entry.
#[verifier::spinoff_prover]
pub(crate) proof fn lemma_exact_dominant7(ivs: Seq<Interval>)
    requires
        kv_of(ivs).0 == seq![4i8, 7i8, 10i8],
    ensures
        spec_analyze(ivs) == (ChordQuality::Dominant7, Seq::<Interval>::empty()),
{
    let keys = kv_of(ivs).0;
    assert(template_keys(quality_catalog()[0]) =~= seq![4i8, 7i8]);
    assert(template_keys(quality_catalog()[1]) =~= seq![3i8, 7i8]);
    assert(template_keys(quality_catalog()[2]) =~= seq![3i8, 6i8]);
    assert(template_keys(quality_catalog()[3]) =~= seq![4i8, 8i8]);
    assert(template_keys(quality_catalog()[4]) =~= seq![4i8, 7i8, 11i8]);
    assert(template_keys(quality_catalog()[5]) =~= seq![4i8, 7i8, 10i8]);
    assert(!(keys =~= template_keys(quality_catalog()[0]))) by {
        assert(keys.len() != template_keys(quality_catalog()[0]).len());
    }
    assert(!(keys =~= template_keys(quality_catalog()[1]))) by {
        assert(keys.len() != template_keys(quality_catalog()[1]).len());
    }
    assert(!(keys =~= template_keys(quality_catalog()[2]))) by {
        assert(keys.len() != template_keys(quality_catalog()[2]).len());
    }
    assert(!(keys =~= template_keys(quality_catalog()[3]))) by {
        assert(keys.len() != template_keys(quality_catalog()[3]).len());
    }
    assert(!(keys =~= template_keys(quality_catalog()[4]))) by {
        assert(keys[2] != template_keys(quality_catalog()[4])[2]);
    }
    assert(first_exact(keys, 0) == first_exact(keys, 1));
    assert(first_exact(keys, 1) == first_exact(keys, 2));
    assert(first_exact(keys, 2) == first_exact(keys, 3));
    assert(first_exact(keys, 3) == first_exact(keys, 4));
    assert(first_exact(keys, 4) == first_exact(keys, 5));
    assert(keys =~= template_keys(quality_catalog()[5]));
    assert(first_exact(keys, 5) == Some(ChordQuality::Dominant7));
    assert(spec_analyze(ivs) == (ChordQuality::Dominant7, Seq::<Interval>::empty()));
}

/// An exact template match by pitch-class keys, for one catalog entry.
#[verifier::spinoff_prover]
pub(crate) proof fn lemma_exact_minor7(ivs: Seq<Interval>)
    requires
        kv_of(ivs).0 == seq![3i8, 7i8, 10i8],
    ensures
        spec_analyze(ivs) == (ChordQuality::Minor7, Seq::<Interval>::empty()),
{
    let keys = kv_of(ivs).0;
    assert(template_keys(quality_catalog()[0]) =~= seq![4i8, 7i8]);
    assert(template_keys(quality_catalog()[1]) =~= seq![3i8, 7i8]);
    assert(template_keys(quality_catalog()[2]) =~= seq![3i8, 6i8]);
    assert(template_keys(quality_catalog()[3]) =~= seq![4i8, 8i8]);
    assert(template_keys(quality_catalog()[4]) =~= seq![4i8, 7i8, 11i8]);
    assert(template_keys(quality_catalog()[5]) =~= seq![4i8, 7i8, 10i8]);
    assert(template_keys(quality_catalog()[6]) =~= seq![3i8, 7i8, 10i8]);
    assert(!(keys =~= template_keys(quality_catalog()[0]))) by {
        assert(keys.len() != template_keys(quality_catalog()[0]).len());
    }
    assert(!(keys =~= template_keys(quality_catalog()[1]))) by {
        assert(keys.len() != template_keys(quality_catalog()[1]).len());
    }
    assert(!(keys =~= template_keys(quality_catalog()[2]))) by {
        assert(keys.len() != template_keys(quality_catalog()[2]).len());
    }
    assert(!(keys =~= template_keys(quality_catalog()[3]))) by {
        assert(keys.len() != template_keys(quality_catalog()[3]).len());
    }
    assert(!(keys =~= template_keys(quality_catalog()[4]))) by {
        assert(keys[0] != template_keys(quality_catalog()[4])[0]);
    }
    assert(!(keys =~= template_keys(quality_catalog()[5]))) by {
        assert(keys[0] != template_keys(quality_catalog()[5])[0]);
    }
    assert(first_exact(keys, 0) == first_exact(keys, 1));
    assert(first_exact(keys, 1) == first_exact(keys, 2));
    assert(first_exact(keys, 2) == first_exact(keys, 3));
    assert(first_exact(keys, 3) == first_exact(keys, 4));
    assert(first_exact(keys, 4) == first_exact(keys, 5));
    assert(first_exact(keys, 5) == first_exact(keys, 6));
    assert(keys =~= template_keys(quality_catalog()[6]));
    assert(first_exact(keys, 6) == Some(ChordQuality::Minor7));
    assert(spec_analyze(ivs) == (ChordQuality::Minor7, Seq::<Interval>::empty()));
}

/// An exact template match by pitch-class keys, for one catalog entry.
#[verifier::spinoff_prover]
pub(crate) proof fn lemma_exact_minormajor7(ivs: Seq<Interval>)
    requires
        kv_of(ivs).0 == seq![3i8, 7i8, 11i8],
    ensures
        spec_analyze(ivs) == (ChordQuality::MinorMajor7, Seq::<Interval>::empty()),
{
    let keys = kv_of(ivs).0;
    assert(template_keys(quality_catalog()[0]) =~= seq![4i8, 7i8]);
    assert(template_keys(quality_catalog()[1]) =~= seq![3i8, 7i8]);
    assert(template_keys(quality_catalog()[2]) =~= seq![3i8, 6i8]);
    assert(template_keys(quality_catalog()[3]) =~= seq![4i8, 8i8]);
    assert(template_keys(quality_catalog()[4]) =~= seq![4i8, 7i8, 11i8]);
    assert(template_keys(quality_catalog()[5]) =~= seq![4i8, 7i8, 10i8]);
    assert(template_keys(quality_catalog()[6]) =~= seq![3i8, 7i8, 10i8]);
    assert(template_keys(quality_catalog()[7]) =~= seq![3i8, 7i8, 11i8]);
    assert(!(keys =~= template_keys(quality_catalog()[0]))) by {
        assert(keys.len() != template_keys(quality_catalog()[0]).len());
    }
    assert(!(keys =~= template_keys(quality_catalog()[1]))) by {
        assert(keys.len() != template_keys(quality_catalog()[1]).len());
    }
    assert(!(keys =~= template_keys(quality_catalog()[2]))) by {
        assert(keys.len() != template_keys(quality_catalog()[2]).len());
    }
    assert(!(keys =~= template_keys(quality_catalog()[3]))) by {
        assert(keys.len() != template_keys(quality_catalog()[3]).len());
    }
    assert(!(keys =~= template_keys(quality_catalog()[4]))) by {
        assert(keys[0] != template_keys(quality_catalog()[4])[0]);
    }
    assert(!(keys =~= template_keys(quality_catalog()[5]))) by {
        assert(keys[0] != template_keys(quality_catalog()[5])[0]);
    }
    assert(!(keys =~= template_keys(quality_catalog()[6]))) by {
        assert(keys[2] != template_keys(quality_catalog()[6])[2]);
    }
    assert(first_exact(keys, 0) == first_exact(keys, 1));
    assert(first_exact(keys, 1) == first_exact(keys, 2));
    assert(first_exact(keys, 2) == first_exact(keys, 3));
    assert(first_exact(keys, 3) == first_exact(keys, 4));
    assert(first_exact(keys, 4) == first_exact(keys, 5));
    assert(first_exact(keys, 5) == first_exact(keys, 6));
    assert(first_exact(keys, 6) == first_exact(keys, 7));
    assert(keys =~= template_keys(quality_catalog()[7]));
    assert(first_exact(keys, 7) == Some(ChordQuality::MinorMajor7));
    assert(spec_analyze(ivs) == (ChordQuality::MinorMajor7, Seq::<Interval>::empty()));
}

/// An exact template match by pitch-class keys, for one catalog entry.
#[verifier::spinoff_prover]
pub(crate) proof fn lemma_exact_halfdiminished7(ivs: Seq<Interval>)
    requires
        kv_of(ivs).0 == seq![3i8, 6i8, 10i8],
    ensures
        spec_analyze(ivs) == (ChordQuality::HalfDiminished7, Seq::<Interval>::empty()),
{
    let keys = kv_of(ivs).0;
    assert(template_keys(quality_catalog()[0]) =~= seq![4i8, 7i8]);
    assert(template_keys(quality_catalog()[1]) =~= seq![3i8, 7i8]);
    assert(template_keys(quality_catalog()[2]) =~= seq![3i8, 6i8]);
    assert(template_keys(quality_catalog()[3]) =~= seq![4i8, 8i8]);
    assert(template_keys(quality_catalog()[4]) =~= seq![4i8, 7i8, 11i8]);
    assert(template_keys(quality_catalog()[5]) =~= seq![4i8, 7i8, 10i8]);
    assert(template_keys(quality_catalog()[6]) =~= seq![3i8, 7i8, 10i8]);
    assert(template_keys(quality_catalog()[7]) =~= seq![3i8, 7i8, 11i8]);
    assert(template_keys(quality_catalog()[8]) =~= seq![3i8, 6i8, 10i8]);
    assert(!(keys =~= template_keys(quality_catalog()[0]))) by {
        assert(keys.len() != template_keys(quality_catalog()[0]).len());
    }
    assert(!(keys =~= template_keys(quality_catalog()[1]))) by {
        assert(keys.len() != template_keys(quality_catalog()[1]).len());
    }
    assert(!(keys =~= template_keys(quality_catalog()[2]))) by {
        assert(keys.len() != template_keys(quality_catalog()[2]).len());
    }
    assert(!(keys =~= template_keys(quality_catalog()[3]))) by {
        assert(keys.len() != template_keys(quality_catalog()[3]).len());
    }
    assert(!(keys =~= template_keys(quality_catalog()[4]))) by {
        assert(keys[0] != template_keys(quality_catalog()[4])[0]);
    }
    assert(!(keys =~= template_keys(quality_catalog()[5]))) by {
        assert(keys[0] != template_keys(quality_catalog()[5])[0]);
    }
    assert(!(keys =~= template_keys(quality_catalog()[6]))) by {
        assert(keys[1] != template_keys(quality_catalog()[6])[1]);
    }
    assert(!(keys =~= template_keys(quality_catalog()[7]))) by {
        assert(keys[1] != template_keys(quality_catalog()[7])[1]);
    }
    assert(first_exact(keys, 0) == first_exact(keys, 1));
    assert(first_exact(keys, 1) == first_exact(keys, 2));
    assert(first_exact(keys, 2) == first_exact(keys, 3));
    assert(first_exact(keys, 3) == first_exact(keys, 4));
    assert(first_exact(keys, 4) == first_exact(keys, 5));
    assert(first_exact(keys, 5) == first_exact(keys, 6));
    assert(first_exact(keys, 6) == first_exact(keys, 7));
    assert(first_exact(keys, 7) == first_exact(keys, 8));
    assert(keys =~= template_keys(quality_catalog()[8]));
    assert(first_exact(keys, 8) == Some(ChordQuality::HalfDiminished7));
    assert(spec_analyze(ivs) == (ChordQuality::HalfDiminished7, Seq::<Interval>::empty()));
}

/// An exact template match by pitch-class keys, for one catalog entry.
#[verifier::spinoff_prover]
pub(crate) proof fn lemma_exact_diminished7(ivs: Seq<Interval>)
    requires
        kv_of(ivs).0 == seq![2i8, 6i8, 9i8],
    ensures
        spec_analyze(ivs) == (ChordQuality::Diminished7, Seq::<Interval>::empty()),
{
    let keys = kv_of(ivs).0;
    assert(template_keys(quality_catalog()[0]) =~= seq![4i8, 7i8]);
    assert(template_keys(quality_catalog()[1]) =~= seq![3i8, 7i8]);
    assert(template_keys(quality_catalog()[2]) =~= seq![3i8, 6i8]);
    assert(template_keys(quality_catalog()[3]) =~= seq![4i8, 8i8]);
    assert(template_keys(quality_catalog()[4]) =~= seq![4i8, 7i8, 11i8]);
    assert(template_keys(quality_catalog()[5]) =~= seq![4i8, 7i8, 10i8]);
    assert(template_keys(quality_catalog()[6]) =~= seq![3i8, 7i8, 10i8]);
    assert(template_keys(quality_catalog()[7]) =~= seq![3i8, 7i8, 11i8]);
    assert(template_keys(quality_catalog()[8]) =~= seq![3i8, 6i8, 10i8]);
    assert(template_keys(quality_catalog()[9]) =~= seq![2i8, 6i8, 9i8]);
    assert(!(keys =~= template_keys(quality_catalog()[0]))) by {
        assert(keys.len() != template_keys(quality_catalog()[0]).len());
    }
    assert(!(keys =~= template_keys(quality_catalog()[1]))) by {
        assert(keys.len() != template_keys(quality_catalog()[1]).len());
    }
    assert(!(keys =~= template_keys(quality_catalog()[2]))) by {
        assert(keys.len() != template_keys(quality_catalog()[2]).len());
    }
    assert(!(keys =~= template_keys(quality_catalog()[3]))) by {
        assert(keys.len() != template_keys(quality_catalog()[3]).len());
    }
    assert(!(keys =~= template_keys(quality_catalog()[4]))) by {
        assert(keys[0] != template_keys(quality_catalog()[4])[0]);
    }
    assert(!(keys =~= template_keys(quality_catalog()[5]))) by {
        assert(keys[0] != template_keys(quality_catalog()[5])[0]);
    }
    assert(!(keys =~= template_keys(quality_catalog()[6]))) by {
        assert(keys[0] != template_keys(quality_catalog()[6])[0]);
    }
    assert(!(keys =~= template_keys(quality_catalog()[7]))) by {
        assert(keys[0] != template_keys(quality_catalog()[7])[0]);
    }
    assert(!(keys =~= template_keys(quality_catalog()[8]))) by {
        assert(keys[0] != template_keys(quality_catalog()[8])[0]);
    }
    assert(first_exact(keys, 0) == first_exact(keys, 1));
    assert(first_exact(keys, 1) == first_exact(keys, 2));
    assert(first_exact(keys, 2) == first_exact(keys, 3));
    assert(first_exact(keys, 3) == first_exact(keys, 4));
    assert(first_exact(keys, 4) == first_exact(keys, 5));
    assert(first_exact(keys, 5) == first_exact(keys, 6));
    assert(first_exact(keys, 6) == first_exact(keys, 7));
    assert(first_exact(keys, 7) == first_exact(keys, 8));
    assert(first_exact(keys, 8) == first_exact(keys, 9));
    assert(keys =~= template_keys(quality_catalog()[9]));
    assert(first_exact(keys, 9) == Some(ChordQuality::Diminished7));
    assert(spec_analyze(ivs) == (ChordQuality::Diminished7, Seq::<Interval>::empty()));
}

/// An exact template match by pitch-class keys, for one catalog entry.
#[verifier::spinoff_prover]
pub(crate) proof fn lemma_exact_augmented7(ivs: Seq<Interval>)
    requires
        kv_of(ivs).0 == seq![5i8, 8i8, 10i8],
    ensures
        spec_analyze(ivs) == (ChordQuality::Augmented7, Seq::<Interval>::empty()),
{
    let keys = kv_of(ivs).0;
    assert(template_keys(quality_catalog()[0]) =~= seq![4i8, 7i8]);
    assert(template_keys(quality_catalog()[1]) =~= seq![3i8, 7i8]);
    assert(template_keys(quality_catalog()[2]) =~= seq![3i8, 6i8]);
    assert(template_keys(quality_catalog()[3]) =~= seq![4i8, 8i8]);
    assert(template_keys(quality_catalog()[4]) =~= seq![4i8, 7i8, 11i8]);
    assert(template_keys(quality_catalog()[5]) =~= seq![4i8, 7i8, 10i8]);
    assert(template_keys(quality_catalog()[6]) =~= seq![3i8, 7i8, 10i8]);
    assert(template_keys(quality_catalog()[7]) =~= seq![3i8, 7i8, 11i8]);
    assert(template_keys(quality_catalog()[8]) =~= seq![3i8, 6i8, 10i8]);
    assert(template_keys(quality_catalog()[9]) =~= seq![2i8, 6i8, 9i8]);
    assert(template_keys(quality_catalog()[10]) =~= seq![5i8, 8i8, 10i8]);
    assert(!(keys =~= template_keys(quality_catalog()[0]))) by {
        assert(keys.len() != template_keys(quality_catalog()[0]).len());
    }
    assert(!(keys =~= template_keys(quality_catalog()[1]))) by {
        assert(keys.len() != template_keys(quality_catalog()[1]).len());
    }
    assert(!(keys =~= template_keys(quality_catalog()[2]))) by {
        assert(keys.len() != template_keys(quality_catalog()[2]).len());
    }
    assert(!(keys =~= template_keys(quality_catalog()[3]))) by {
        assert(keys.len() != template_keys(quality_catalog()[3]).len());
    }
    assert(!(keys =~= template_keys(quality_catalog()[4]))) by {
        assert(keys[0] != template_keys(quality_catalog()[4])[0]);
    }
    assert(!(keys =~= template_keys(quality_catalog()[5]))) by {
        assert(keys[0] != template_keys(quality_catalog()[5])[0]);
    }
    assert(!(keys =~= template_keys(quality_catalog()[6]))) by {
        assert(keys[0] != template_keys(quality_catalog()[6])[0]);
    }
    assert(!(keys =~= template_keys(quality_catalog()[7]))) by {
        assert(keys[0] != template_keys(quality_catalog()[7])[0]);
    }
    assert(!(keys =~= template_keys(quality_catalog()[8]))) by {
        assert(keys[0] != template_keys(quality_catalog()[8])[0]);
    }
    assert(!(keys =~= template_keys(quality_catalog()[9]))) by {
        assert(keys[0] != template_keys(quality_catalog()[9])[0]);
    }
    assert(first_exact(keys, 0) == first_exact(keys, 1));
    assert(first_exact(keys, 1) == first_exact(keys, 2));
    assert(first_exact(keys, 2) == first_exact(keys, 3));
    assert(first_exact(keys, 3) == first_exact(keys, 4));
    assert(first_exact(keys, 4) == first_exact(keys, 5));
    assert(first_exact(keys, 5) == first_exact(keys, 6));
    assert(first_exact(keys, 6) == first_exact(keys, 7));
    assert(first_exact(keys, 7) == first_exact(keys, 8));
    assert(first_exact(keys, 8) == first_exact(keys, 9));
    assert(first_exact(keys, 9) == first_exact(keys, 10));
    assert(keys =~= template_keys(quality_catalog()[10]));
    assert(first_exact(keys, 10) == Some(ChordQuality::Augmented7));
    assert(spec_analyze(ivs) == (ChordQuality::Augmented7, Seq::<Interval>::empty()));
}

/// An exact template match by pitch-class keys, for one catalog entry.
#[verifier::spinoff_prover]
pub(crate) proof fn lemma_exact_augmentedmajor7(ivs: Seq<Interval>)
    requires
        kv_of(ivs).0 == seq![5i8, 8i8, 11i8],
    ensures
        spec_analyze(ivs) == (ChordQuality::AugmentedMajor7, Seq::<Interval>::empty()),
{
    let keys = kv_of(ivs).0;
    assert(template_keys(quality_catalog()[0]) =~= seq![4i8, 7i8]);
    assert(template_keys(quality_catalog()[1]) =~= seq![3i8, 7i8]);
    assert(template_keys(quality_catalog()[2]) =~= seq![3i8, 6i8]);
    assert(template_keys(quality_catalog()[3]) =~= seq![4i8, 8i8]);
    assert(template_keys(quality_catalog()[4]) =~= seq![4i8, 7i8, 11i8]);
    assert(template_keys(quality_catalog()[5]) =~= seq![4i8, 7i8, 10i8]);
    assert(template_keys(quality_catalog()[6]) =~= seq![3i8, 7i8, 10i8]);
    assert(template_keys(quality_catalog()[7]) =~= seq![3i8, 7i8, 11i8]);
    assert(template_keys(quality_catalog()[8]) =~= seq![3i8, 6i8, 10i8]);
    assert(template_keys(quality_catalog()[9]) =~= seq![2i8, 6i8, 9i8]);
    assert(template_keys(quality_catalog()[10]) =~= seq![5i8, 8i8, 10i8]);
    assert(template_keys(quality_catalog()[11]) =~= seq![5i8, 8i8, 11i8]);
    assert(!(keys =~= template_keys(quality_catalog()[0]))) by {
        assert(keys.len() != template_keys(quality_catalog()[0]).len());
    }
    assert(!(keys =~= template_keys(quality_catalog()[1]))) by {
        assert(keys.len() != template_keys(quality_catalog()[1]).len());
    }
    assert(!(keys =~= template_keys(quality_catalog()[2]))) by {
        assert(keys.len() != template_keys(quality_catalog()[2]).len());
    }
    assert(!(keys =~= template_keys(quality_catalog()[3]))) by {
        assert(keys.len() != template_keys(quality_catalog()[3]).len());
    }
    assert(!(keys =~= template_keys(quality_catalog()[4]))) by {
        assert(keys[0] != template_keys(quality_catalog()[4])[0]);
    }
    assert(!(keys =~= template_keys(quality_catalog()[5]))) by {
        assert(keys[0] != template_keys(quality_catalog()[5])[0]);
    }
    assert(!(keys =~= template_keys(quality_catalog()[6]))) by {
        assert(keys[0] != template_keys(quality_catalog()[6])[0]);
    }
    assert(!(keys =~= template_keys(quality_catalog()[7]))) by {
        assert(keys[0] != template_keys(quality_catalog()[7])[0]);
    }
    assert(!(keys =~= template_keys(quality_catalog()[8]))) by {
        assert(keys[0] != template_keys(quality_catalog()[8])[0]);
    }
    assert(!(keys =~= template_keys(quality_catalog()[9]))) by {
        assert(keys[0] != template_keys(quality_catalog()[9])[0]);
    }
    assert(!(keys =~= template_keys(quality_catalog()[10]))) by {
        assert(keys[2] != template_keys(quality_catalog()[10])[2]);
    }
    assert(first_exact(keys, 0) == first_exact(keys, 1));
    assert(first_exact(keys, 1) == first_exact(keys, 2));
    assert(first_exact(keys, 2) == first_exact(keys, 3));
    assert(first_exact(keys, 3) == first_exact(keys, 4));
    assert(first_exact(keys, 4) == first_exact(keys, 5));
    assert(first_exact(keys, 5) == first_exact(keys, 6));
    assert(first_exact(keys, 6) == first_exact(keys, 7));
    assert(first_exact(keys, 7) == first_exact(keys, 8));
    assert(first_exact(keys, 8) == first_exact(keys, 9));
    assert(first_exact(keys, 9) == first_exact(keys, 10));
    assert(first_exact(keys, 10) == first_exact(keys, 11));
    assert(keys =~= template_keys(quality_catalog()[11]));
    assert(first_exact(keys, 11) == Some(ChordQuality::AugmentedMajor7));
    assert(spec_analyze(ivs) == (ChordQuality::AugmentedMajor7, Seq::<Interval>::empty()));
}

/// An exact template match by pitch-class keys, for one catalog entry.
#[verifier::spinoff_prover]
pub(crate) proof fn lemma_exact_major6(ivs: Seq<Interval>)
    requires
        kv_of(ivs).0 == seq![4i8, 7i8, 9i8],
    ensures
        spec_analyze(ivs) == (ChordQuality::Major6, Seq::<Interval>::empty()),
{
    let keys = kv_of(ivs).0;
    assert(template_keys(quality_catalog()[0]) =~= seq![4i8, 7i8]);
    assert(template_keys(quality_catalog()[1]) =~= seq![3i8, 7i8]);
    assert(template_keys(quality_catalog()[2]) =~= seq![3i8, 6i8]);
    assert(template_keys(quality_catalog()[3]) =~= seq![4i8, 8i8]);
    assert(template_keys(quality_catalog()[4]) =~= seq![4i8, 7i8, 11i8]);
    assert(template_keys(quality_catalog()[5]) =~= seq![4i8, 7i8, 10i8]);
    assert(template_keys(quality_catalog()[6]) =~= seq![3i8, 7i8, 10i8]);
    assert(template_keys(quality_catalog()[7]) =~= seq![3i8, 7i8, 11i8]);
    assert(template_keys(quality_catalog()[8]) =~= seq![3i8, 6i8, 10i8]);
    assert(template_keys(quality_catalog()[9]) =~= seq![2i8, 6i8, 9i8]);
    assert(template_keys(quality_catalog()[10]) =~= seq![5i8, 8i8, 10i8]);
    assert(template_keys(quality_catalog()[11]) =~= seq![5i8, 8i8, 11i8]);
    assert(template_keys(quality_catalog()[12]) =~= seq![4i8, 7i8, 9i8]);
    assert(!(keys =~= template_keys(quality_catalog()[0]))) by {
        assert(keys.len() != template_keys(quality_catalog()[0]).len());
    }
    assert(!(keys =~= template_keys(quality_catalog()[1]))) by {
        assert(keys.len() != template_keys(quality_catalog()[1]).len());
    }
    assert(!(keys =~= template_keys(quality_catalog()[2]))) by {
        assert(keys.len() != template_keys(quality_catalog()[2]).len());
    }
    assert(!(keys =~= template_keys(quality_catalog()[3]))) by {
        assert(keys.len() != template_keys(quality_catalog()[3]).len());
    }
    assert(!(keys =~= template_keys(quality_catalog()[4]))) by {
        assert(keys[2] != template_keys(quality_catalog()[4])[2]);
    }
    assert(!(keys =~= template_keys(quality_catalog()[5]))) by {
        assert(keys[2] != template_keys(quality_catalog()[5])[2]);
    }
    assert(!(keys =~= template_keys(quality_catalog()[6]))) by {
        assert(keys[0] != template_keys(quality_catalog()[6])[0]);
    }
    assert(!(keys =~= template_keys(quality_catalog()[7]))) by {
        assert(keys[0] != template_keys(quality_catalog()[7])[0]);
    }
    assert(!(keys =~= template_keys(quality_catalog()[8]))) by {
        assert(keys[0] != template_keys(quality_catalog()[8])[0]);
    }
    assert(!(keys =~= template_keys(quality_catalog()[9]))) by {
        assert(keys[0] != template_keys(quality_catalog()[9])[0]);
    }
    assert(!(keys =~= template_keys(quality_catalog()[10]))) by {
        assert(keys[0] != template_keys(quality_catalog()[10])[0]);
    }
    assert(!(keys =~= template_keys(quality_catalog()[11]))) by {
        assert(keys[0] != template_keys(quality_catalog()[11])[0]);
    }
    assert(first_exact(keys, 0) == first_exact(keys, 1));
    assert(first_exact(keys, 1) == first_exact(keys, 2));
    assert(first_exact(keys, 2) == first_exact(keys, 3));
    assert(first_exact(keys, 3) == first_exact(keys, 4));
    assert(first_exact(keys, 4) == first_exact(keys, 5));
    assert(first_exact(keys, 5) == first_exact(keys, 6));
    assert(first_exact(keys, 6) == first_exact(keys, 7));
    assert(first_exact(keys, 7) == first_exact(keys, 8));
    assert(first_exact(keys, 8) == first_exact(keys, 9));
    assert(first_exact(keys, 9) == first_exact(keys, 10));
    assert(first_exact(keys, 10) == first_exact(keys, 11));
    assert(first_exact(keys, 11) == first_exact(keys, 12));
    assert(keys =~= template_keys(quality_catalog()[12]));
    assert(first_exact(keys, 12) == Some(ChordQuality::Major6));
    assert(spec_analyze(ivs) == (ChordQuality::Major6, Seq::<Interval>::empty()));
}

/// An exact template match by pitch-class keys, for one catalog entry.
#[verifier::spinoff_prover]
pub(crate) proof fn lemma_exact_minor6(ivs: Seq<Interval>)
    requires
        kv_of(ivs).0 == seq![3i8, 7i8, 9i8],
    ensures
        spec_analyze(ivs) == (ChordQuality::Minor6, Seq::<Interval>::empty()),
{
    let keys = kv_of(ivs).0;
    assert(template_keys(quality_catalog()[0]) =~= seq![4i8, 7i8]);
    assert(template_keys(quality_catalog()[1]) =~= seq![3i8, 7i8]);
    assert(template_keys(quality_catalog()[2]) =~= seq![3i8, 6i8]);
    assert(template_keys(quality_catalog()[3]) =~= seq![4i8, 8i8]);
    assert(template_keys(quality_catalog()[4]) =~= seq![4i8, 7i8, 11i8]);
    assert(template_keys(quality_catalog()[5]) =~= seq![4i8, 7i8, 10i8]);
    assert(template_keys(quality_catalog()[6]) =~= seq![3i8, 7i8, 10i8]);
    assert(template_keys(quality_catalog()[7]) =~= seq![3i8, 7i8, 11i8]);
    assert(template_keys(quality_catalog()[8]) =~= seq![3i8, 6i8, 10i8]);
    assert(template_keys(quality_catalog()[9]) =~= seq![2i8, 6i8, 9i8]);
    assert(template_keys(quality_catalog()[10]) =~= seq![5i8, 8i8, 10i8]);
    assert(template_keys(quality_catalog()[11]) =~= seq![5i8, 8i8, 11i8]);
    assert(template_keys(quality_catalog()[12]) =~= seq![4i8, 7i8, 9i8]);
    assert(template_keys(quality_catalog()[13]) =~= seq![3i8, 7i8, 9i8]);
    assert(!(keys =~= template_keys(quality_catalog()[0]))) by {
        assert(keys.len() != template_keys(quality_catalog()[0]).len());
    }
    assert(!(keys =~= template_keys(quality_catalog()[1]))) by {
        assert(keys.len() != template_keys(quality_catalog()[1]).len());
    }
    assert(!(keys =~= template_keys(quality_catalog()[2]))) by {
        assert(keys.len() != template_keys(quality_catalog()[2]).len());
    }
    assert(!(keys =~= template_keys(quality_catalog()[3]))) by {
        assert(keys.len() != template_keys(quality_catalog()[3]).len());
    }
    assert(!(keys =~= template_keys(quality_catalog()[4]))) by {
        assert(keys[0] != template_keys(quality_catalog()[4])[0]);
    }
    assert(!(keys =~= template_keys(quality_catalog()[5]))) by {
        assert(keys[0] != template_keys(quality_catalog()[5])[0]);
    }
    assert(!(keys =~= template_keys(quality_catalog()[6]))) by {
        assert(keys[2] != template_keys(quality_catalog()[6])[2]);
    }
    assert(!(keys =~= template_keys(quality_catalog()[7]))) by {
        assert(keys[2] != template_keys(quality_catalog()[7])[2]);
    }
    assert(!(keys =~= template_keys(quality_catalog()[8]))) by {
        assert(keys[1] != template_keys(quality_catalog()[8])[1]);
    }
    assert(!(keys =~= template_keys(quality_catalog()[9]))) by {
        assert(keys[0] != template_keys(quality_catalog()[9])[0]);
    }
    assert(!(keys =~= template_keys(quality_catalog()[10]))) by {
        assert(keys[0] != template_keys(quality_catalog()[10])[0]);
    }
    assert(!(keys =~= template_keys(quality_catalog()[11]))) by {
        assert(keys[0] != template_keys(quality_catalog()[11])[0]);
    }
    assert(!(keys =~= template_keys(quality_catalog()[12]))) by {
        assert(keys[0] != template_keys(quality_catalog()[12])[0]);
    }
    assert(first_exact(keys, 0) == first_exact(keys, 1));
    assert(first_exact(keys, 1) == first_exact(keys, 2));
    assert(first_exact(keys, 2) == first_exact(keys, 3));
    assert(first_exact(keys, 3) == first_exact(keys, 4));
    assert(first_exact(keys, 4) == first_exact(keys, 5));
    assert(first_exact(keys, 5) == first_exact(keys, 6));
    assert(first_exact(keys, 6) == first_exact(keys, 7));
    assert(first_exact(keys, 7) == first_exact(keys, 8));
    assert(first_exact(keys, 8) == first_exact(keys, 9));
    assert(first_exact(keys, 9) == first_exact(keys, 10));
    assert(first_exact(keys, 10) == first_exact(keys, 11));
    assert(first_exact(keys, 11) == first_exact(keys, 12));
    assert(first_exact(keys, 12) == first_exact(keys, 13));
    assert(keys =~= template_keys(quality_catalog()[13]));
    assert(first_exact(keys, 13) == Some(ChordQuality::Minor6));
    assert(spec_analyze(ivs) == (ChordQuality::Minor6, Seq::<Interval>::empty()));
}

/// An exact template match by pitch-class keys, for one catalog entry.
#[verifier::spinoff_prover]
pub(crate) proof fn lemma_exact_suspended2(ivs: Seq<Interval>)
    requires
        kv_of(ivs).0 == seq![2i8, 7i8],
    ensures
        spec_analyze(ivs) == (ChordQuality::Suspended2, Seq::<Interval>::empty()),
{
    let keys = kv_of(ivs).0;
    assert(template_keys(quality_catalog()[0]) =~= seq![4i8, 7i8]);
    assert(template_keys(quality_catalog()[1]) =~= seq![3i8, 7i8]);
    assert(template_keys(quality_catalog()[2]) =~= seq![3i8, 6i8]);
    assert(template_keys(quality_catalog()[3]) =~= seq![4i8, 8i8]);
    assert(template_keys(quality_catalog()[4]) =~= seq![4i8, 7i8, 11i8]);
    assert(template_keys(quality_catalog()[5]) =~= seq![4i8, 7i8, 10i8]);
    assert(template_keys(quality_catalog()[6]) =~= seq![3i8, 7i8, 10i8]);
    assert(template_keys(quality_catalog()[7]) =~= seq![3i8, 7i8, 11i8]);
    assert(template_keys(quality_catalog()[8]) =~= seq![3i8, 6i8, 10i8]);
    assert(template_keys(quality_catalog()[9]) =~= seq![2i8, 6i8, 9i8]);
    assert(template_keys(quality_catalog()[10]) =~= seq![5i8, 8i8, 10i8]);
    assert(template_keys(quality_catalog()[11]) =~= seq![5i8, 8i8, 11i8]);
    assert(template_keys(quality_catalog()[12]) =~= seq![4i8, 7i8, 9i8]);
    assert(template_keys(quality_catalog()[13]) =~= seq![3i8, 7i8, 9i8]);
    assert(template_keys(quality_catalog()[14]) =~= seq![2i8, 7i8]);
    assert(!(keys =~= template_keys(quality_catalog()[0]))) by {
        assert(keys[0] != template_keys(quality_catalog()[0])[0]);
    }
    assert(!(keys =~= template_keys(quality_catalog()[1]))) by {
        assert(keys[0] != template_keys(quality_catalog()[1])[0]);
    }
    assert(!(keys =~= template_keys(quality_catalog()[2]))) by {
        assert(keys[0] != template_keys(quality_catalog()[2])[0]);
    }
    assert(!(keys =~= template_keys(quality_catalog()[3]))) by {
        assert(keys[0] != template_keys(quality_catalog()[3])[0]);
    }
    assert(!(keys =~= template_keys(quality_catalog()[4]))) by {
        assert(keys.len() != template_keys(quality_catalog()[4]).len());
    }
    assert(!(keys =~= template_keys(quality_catalog()[5]))) by {
        assert(keys.len() != template_keys(quality_catalog()[5]).len());
    }
    assert(!(keys =~= template_keys(quality_catalog()[6]))) by {
        assert(keys.len() != template_keys(quality_catalog()[6]).len());
    }
    assert(!(keys =~= template_keys(quality_catalog()[7]))) by {
        assert(keys.len() != template_keys(quality_catalog()[7]).len());
    }
    assert(!(keys =~= template_keys(quality_catalog()[8]))) by {
        assert(keys.len() != template_keys(quality_catalog()[8]).len());
    }
    assert(!(keys =~= template_keys(quality_catalog()[9]))) by {
        assert(keys.len() != template_keys(quality_catalog()[9]).len());
    }
    assert(!(keys =~= template_keys(quality_catalog()[10]))) by {
        assert(keys.len() != template_keys(quality_catalog()[10]).len());
    }
    assert(!(keys =~= template_keys(quality_catalog()[11]))) by {
        assert(keys.len() != template_keys(quality_catalog()[11]).len());
    }
    assert(!(keys =~= template_keys(quality_catalog()[12]))) by {
        assert(keys.len() != template_keys(quality_catalog()[12]).len());
    }
    assert(!(keys =~= template_keys(quality_catalog()[13]))) by {
        assert(keys.len() != template_keys(quality_catalog()[13]).len());
    }
    assert(first_exact(keys, 0) == first_exact(keys, 1));
    assert(first_exact(keys, 1) == first_exact(keys, 2));
    assert(first_exact(keys, 2) == first_exact(keys, 3));
    assert(first_exact(keys, 3) == first_exact(keys, 4));
    assert(first_exact(keys, 4) == first_exact(keys, 5));
    assert(first_exact(keys, 5) == first_exact(keys, 6));
    assert(first_exact(keys, 6) == first_exact(keys, 7));
    assert(first_exact(keys, 7) == first_exact(keys, 8));
    assert(first_exact(keys, 8) == first_exact(keys, 9));
    assert(first_exact(keys, 9) == first_exact(keys, 10));
    assert(first_exact(keys, 10) == first_exact(keys, 11));
    assert(first_exact(keys, 11) == first_exact(keys, 12));
    assert(first_exact(keys, 12) == first_exact(keys, 13));
    assert(first_exact(keys, 13) == first_exact(keys, 14));
    assert(keys =~= template_keys(quality_catalog()[14]));
    assert(first_exact(keys, 14) == Some(ChordQuality::Suspended2));
    assert(spec_analyze(ivs) == (ChordQuality::Suspended2, Seq::<Interval>::empty()));
}

/// An exact template match by pitch-class keys, for one catalog entry.
#[verifier::spinoff_prover]
pub(crate) proof fn lemma_exact_suspended4(ivs: Seq<Interval>)
    requires
        kv_of(ivs).0 == seq![5i8, 7i8],
    ensures
        spec_analyze(ivs) == (ChordQuality::Suspended4, Seq::<Interval>::empty()),
{
    let keys = kv_of(ivs).0;
    assert(template_keys(quality_catalog()[0]) =~= seq![4i8, 7i8]);
    assert(template_keys(quality_catalog()[1]) =~= seq![3i8, 7i8]);
    assert(template_keys(quality_catalog()[2]) =~= seq![3i8, 6i8]);
    assert(template_keys(quality_catalog()[3]) =~= seq![4i8, 8i8]);
    assert(template_keys(quality_catalog()[4]) =~= seq![4i8, 7i8, 11i8]);
    assert(template_keys(quality_catalog()[5]) =~= seq![4i8, 7i8, 10i8]);
    assert(template_keys(quality_catalog()[6]) =~= seq![3i8, 7i8, 10i8]);
    assert(template_keys(quality_catalog()[7]) =~= seq![3i8, 7i8, 11i8]);
    assert(template_keys(quality_catalog()[8]) =~= seq![3i8, 6i8, 10i8]);
    assert(template_keys(quality_catalog()[9]) =~= seq![2i8, 6i8, 9i8]);
    assert(template_keys(quality_catalog()[10]) =~= seq![5i8, 8i8, 10i8]);
    assert(template_keys(quality_catalog()[11]) =~= seq![5i8, 8i8, 11i8]);
    assert(template_keys(quality_catalog()[12]) =~= seq![4i8, 7i8, 9i8]);
    assert(template_keys(quality_catalog()[13]) =~= seq![3i8, 7i8, 9i8]);
    assert(template_keys(quality_catalog()[14]) =~= seq![2i8, 7i8]);
    assert(template_keys(quality_catalog()[15]) =~= seq![5i8, 7i8]);
    assert(!(keys =~= template_keys(quality_catalog()[0]))) by {
        assert(keys[0] != template_keys(quality_catalog()[0])[0]);
    }
    assert(!(keys =~= template_keys(quality_catalog()[1]))) by {
        assert(keys[0] != template_keys(quality_catalog()[1])[0]);
    }
    assert(!(keys =~= template_keys(quality_catalog()[2]))) by {
        assert(keys[0] != template_keys(quality_catalog()[2])[0]);
    }
    assert(!(keys =~= template_keys(quality_catalog()[3]))) by {
        assert(keys[0] != template_keys(quality_catalog()[3])[0]);
    }
    assert(!(keys =~= template_keys(quality_catalog()[4]))) by {
        assert(keys.len() != template_keys(quality_catalog()[4]).len());
    }
    assert(!(keys =~= template_keys(quality_catalog()[5]))) by {
        assert(keys.len() != template_keys(quality_catalog()[5]).len());
    }
    assert(!(keys =~= template_keys(quality_catalog()[6]))) by {
        assert(keys.len() != template_keys(quality_catalog()[6]).len());
    }
    assert(!(keys =~= template_keys(quality_catalog()[7]))) by {
        assert(keys.len() != template_keys(quality_catalog()[7]).len());
    }
    assert(!(keys =~= template_keys(quality_catalog()[8]))) by {
        assert(keys.len() != template_keys(quality_catalog()[8]).len());
    }
    assert(!(keys =~= template_keys(quality_catalog()[9]))) by {
        assert(keys.len() != template_keys(quality_catalog()[9]).len());
    }
    assert(!(keys =~= template_keys(quality_catalog()[10]))) by {
        assert(keys.len() != template_keys(quality_catalog()[10]).len());
    }
    assert(!(keys =~= template_keys(quality_catalog()[11]))) by {
        assert(keys.len() != template_keys(quality_catalog()[11]).len());
    }
    assert(!(keys =~= template_keys(quality_catalog()[12]))) by {
        assert(keys.len() != template_keys(quality_catalog()[12]).len());
    }
    assert(!(keys =~= template_keys(quality_catalog()[13]))) by {
        assert(keys.len() != template_keys(quality_catalog()[13]).len());
    }
    assert(!(keys =~= template_keys(quality_catalog()[14]))) by {
        assert(keys[0] != template_keys(quality_catalog()[14])[0]);
    }
    assert(first_exact(keys, 0) == first_exact(keys, 1));
    assert(first_exact(keys, 1) == first_exact(keys, 2));
    assert(first_exact(keys, 2) == first_exact(keys, 3));
    assert(first_exact(keys, 3) == first_exact(keys, 4));
    assert(first_exact(keys, 4) == first_exact(keys, 5));
    assert(first_exact(keys, 5) == first_exact(keys, 6));
    assert(first_exact(keys, 6) == first_exact(keys, 7));
    assert(first_exact(keys, 7) == first_exact(keys, 8));
    assert(first_exact(keys, 8) == first_exact(keys, 9));
    assert(first_exact(keys, 9) == first_exact(keys, 10));
    assert(first_exact(keys, 10) == first_exact(keys, 11));
    assert(first_exact(keys, 11) == first_exact(keys, 12));
    assert(first_exact(keys, 12) == first_exact(keys, 13));
    assert(first_exact(keys, 13) == first_exact(keys, 14));
    assert(first_exact(keys, 14) == first_exact(keys, 15));
    assert(keys =~= template_keys(quality_catalog()[15]));
    assert(first_exact(keys, 15) == Some(ChordQuality::Suspended4));
    assert(spec_analyze(ivs) == (ChordQuality::Suspended4, Seq::<Interval>::empty()));
}

/// Chord/scale duality, at the quality level: analyzing exactly the
/// interval template of any quality in the catalog yields that quality
/// back, with no residual extensions.
pub proof fn lemma_quality_roundtrip(q: ChordQuality)
    ensures
        spec_analyze(quality_intervals(q)) == (q, Seq::<Interval>::empty()),
{
    match q {
        ChordQuality::Major => {
            let a = named_interval(IntervalQuality::Major, 3, 4);
            let b = named_interval(IntervalQuality::Perfect, 5, 7);
            assert(quality_intervals(ChordQuality::Major) =~= seq![a, b]);
            lemma_kv_pair(a, b, 4i8, 7i8);
            lemma_exact_major(quality_intervals(ChordQuality::Major));
        },
        ChordQuality::Minor => {
            let a = named_interval(IntervalQuality::Minor, 3, 3);
            let b = named_interval(IntervalQuality::Perfect, 5, 7);
            assert(quality_intervals(ChordQuality::Minor) =~= seq![a, b]);
            lemma_kv_pair(a, b, 3i8, 7i8);
            lemma_exact_minor(quality_intervals(ChordQuality::Minor));
        },
        ChordQuality::Diminished => {
            let a = named_interval(IntervalQuality::Minor, 3, 3);
            let b = named_interval(IntervalQuality::Diminished, 5, 6);
            assert(quality_intervals(ChordQuality::Diminished) =~= seq![a, b]);
            lemma_kv_pair(a, b, 3i8, 6i8);
            lemma_exact_diminished(quality_intervals(ChordQuality::Diminished));
        },
        ChordQuality::Augmented => {
            let a = named_interval(IntervalQuality::Major, 3, 4);
            let b = named_interval(IntervalQuality::Augmented, 5, 8);
            assert(quality_intervals(ChordQuality::Augmented) =~= seq![a, b]);
            lemma_kv_pair(a, b, 4i8, 8i8);
            lemma_exact_augmented(quality_intervals(ChordQuality::Augmented));
        },
        ChordQuality::Major7 => {
            let a = named_interval(IntervalQuality::Major, 3, 4);
            let b = named_interval(IntervalQuality::Perfect, 5, 7);
            let c = named_interval(IntervalQuality::Major, 7, 11);
            assert(quality_intervals(ChordQuality::Major7) =~= seq![a, b, c]);
            lemma_kv_triple(a, b, c, 4i8, 7i8, 11i8);
            lemma_exact_major7(quality_intervals(ChordQuality::Major7));
        },
        ChordQuality::Dominant7 => {
            let a = named_interval(IntervalQuality::Major, 3, 4);
            let b = named_interval(IntervalQuality::Perfect, 5, 7);
            let c = named_interval(IntervalQuality::Minor, 7, 10);
            assert(quality_intervals(ChordQuality::Dominant7) =~= seq![a, b, c]);
            lemma_kv_triple(a, b, c, 4i8, 7i8, 10i8);
            lemma_exact_dominant7(quality_intervals(ChordQuality::Dominant7));
        },
        ChordQuality::Minor7 => {
            let a = named_interval(IntervalQuality::Minor, 3, 3);
            let b = named_interval(IntervalQuality::Perfect, 5, 7);
            let c = named_interval(IntervalQuality::Minor, 7, 10);
            assert(quality_intervals(ChordQuality::Minor7) =~= seq![a, b, c]);
            lemma_kv_triple(a, b, c, 3i8, 7i8, 10i8);
            lemma_exact_minor7(quality_intervals(ChordQuality::Minor7));
        },
        ChordQuality::MinorMajor7 => {
            let a = named_interval(IntervalQuality::Minor, 3, 3);
            let b = named_interval(IntervalQuality::Perfect, 5, 7);
            let c = named_interval(IntervalQuality::Major, 7, 11);
            assert(quality_intervals(ChordQuality::MinorMajor7) =~= seq![a, b, c]);
            lemma_kv_triple(a, b, c, 3i8, 7i8, 11i8);
            lemma_exact_minormajor7(quality_intervals(ChordQuality::MinorMajor7));
        },
        ChordQuality::HalfDiminished7 => {
            let a = named_interval(IntervalQuality::Minor, 3, 3);
            let b = named_interval(IntervalQuality::Diminished, 5, 6);
            let c = named_interval(IntervalQuality::Minor, 7, 10);
            assert(quality_intervals(ChordQuality::HalfDiminished7) =~= seq![a, b, c]);
            lemma_kv_triple(a, b, c, 3i8, 6i8, 10i8);
            lemma_exact_halfdiminished7(quality_intervals(ChordQuality::HalfDiminished7));
        },
        ChordQuality::Diminished7 => {
            let a = named_interval(IntervalQuality::Diminished, 3, 2);
            let b = named_interval(IntervalQuality::Diminished, 5, 6);
            let c = named_interval(IntervalQuality::Diminished, 7, 9);
            assert(quality_intervals(ChordQuality::Diminished7) =~= seq![a, b, c]);
            lemma_kv_triple(a, b, c, 2i8, 6i8, 9i8);
            lemma_exact_diminished7(quality_intervals(ChordQuality::Diminished7));
        },
        ChordQuality::Augmented7 => {
            let a = named_interval(IntervalQuality::Augmented, 3, 5);
            let b = named_interval(IntervalQuality::Augmented, 5, 8);
            let c = named_interval(IntervalQuality::Minor, 7, 10);
            assert(quality_intervals(ChordQuality::Augmented7) =~= seq![a, b, c]);
            lemma_kv_triple(a, b, c, 5i8, 8i8, 10i8);
            lemma_exact_augmented7(quality_intervals(ChordQuality::Augmented7));
        },
        ChordQuality::AugmentedMajor7 => {
            let a = named_interval(IntervalQuality::Augmented, 3, 5);
            let b = named_interval(IntervalQuality::Augmented, 5, 8);
            let c = named_interval(IntervalQuality::Major, 7, 11);
            assert(quality_intervals(ChordQuality::AugmentedMajor7) =~= seq![a, b, c]);
            lemma_kv_triple(a, b, c, 5i8, 8i8, 11i8);
            lemma_exact_augmentedmajor7(quality_intervals(ChordQuality::AugmentedMajor7));
        },
        ChordQuality::Major6 => {
            let a = named_interval(IntervalQuality::Major, 3, 4);
            let b = named_interval(IntervalQuality::Perfect, 5, 7);
            let c = named_interval(IntervalQuality::Major, 6, 9);
            assert(quality_intervals(ChordQuality::Major6) =~= seq![a, b, c]);
            lemma_kv_triple(a, b, c, 4i8, 7i8, 9i8);
            lemma_exact_major6(quality_intervals(ChordQuality::Major6));
        },
        ChordQuality::Minor6 => {
            let a = named_interval(IntervalQuality::Minor, 3, 3);
            let b = named_interval(IntervalQuality::Perfect, 5, 7);
            let c = named_interval(IntervalQuality::Major, 6, 9);
            assert(quality_intervals(ChordQuality::Minor6) =~= seq![a, b, c]);
            lemma_kv_triple(a, b, c, 3i8, 7i8, 9i8);
            lemma_exact_minor6(quality_intervals(ChordQuality::Minor6));
        },
        ChordQuality::Suspended2 => {
            let a = named_interval(IntervalQuality::Major, 2, 2);
            let b = named_interval(IntervalQuality::Perfect, 5, 7);
            assert(quality_intervals(ChordQuality::Suspended2) =~= seq![a, b]);
            lemma_kv_pair(a, b, 2i8, 7i8);
            lemma_exact_suspended2(quality_intervals(ChordQuality::Suspended2));
        },
        ChordQuality::Suspended4 => {
            let a = named_interval(IntervalQuality::Perfect, 4, 5);
            let b = named_interval(IntervalQuality::Perfect, 5, 7);
            assert(quality_intervals(ChordQuality::Suspended4) =~= seq![a, b]);
            lemma_kv_pair(a, b, 5i8, 7i8);
            lemma_exact_suspended4(quality_intervals(ChordQuality::Suspended4));
        },
    }
}

} // verus!
