use mutheors::Chord;
use mutheors::ChordQuality;
use mutheors::Interval;
use mutheors::IntervalQuality;
use mutheors::MusicError;
use mutheors::PitchClass;
use mutheors::Scale;
use mutheors::ScaleType;
use mutheors::Tuning;

/// Enharmonic invariant: simplifying a spelling keeps the absolute pitch.
#[test]
fn test_enharmonic_simple() {
    let spellings = [
        Tuning::new(PitchClass::C, 4).with_accidentals(5),
        Tuning::new(PitchClass::B, 4).sharp(),
        Tuning::new(PitchClass::Fs, 4).with_accidentals(-3),
        Tuning::new(PitchClass::Eb, 2).with_accidentals(2),
        Tuning::new(PitchClass::A, 6).with_accidentals(-1),
    ];
    for t in spellings {
        assert_eq!(t.simple().number(), t.number());
    }
}

/// Interval round trip: quality/degree construction matches the
/// hand-verified semitone table.
#[test]
fn test_interval_semitone_table() {
    let table = [
        (IntervalQuality::Perfect, 1, 0),
        (IntervalQuality::Minor, 2, 1),
        (IntervalQuality::Major, 2, 2),
        (IntervalQuality::Minor, 3, 3),
        (IntervalQuality::Major, 3, 4),
        (IntervalQuality::Perfect, 4, 5),
        (IntervalQuality::Augmented, 4, 6),
        (IntervalQuality::Diminished, 5, 6),
        (IntervalQuality::Perfect, 5, 7),
        (IntervalQuality::Minor, 6, 8),
        (IntervalQuality::Major, 6, 9),
        (IntervalQuality::Minor, 7, 10),
        (IntervalQuality::Major, 7, 11),
        (IntervalQuality::Perfect, 8, 12),
        (IntervalQuality::Major, 9, 14),
        (IntervalQuality::Diminished, 1, -1),
    ];
    for (q, d, s) in table {
        assert_eq!(Interval::from_quality_degree(q, d).unwrap().semitones(), s);
    }
}

/// Transposition consistency: moving by a simple interval and back by its
/// negation lands on an enharmonically equivalent pitch.
#[test]
fn test_transposition_round_trip() {
    let intervals = [
        Interval::unison(),
        Interval::minor_second(),
        Interval::major_second(),
        Interval::minor_third(),
        Interval::major_third(),
        Interval::perfect_fourth(),
        Interval::augmented_fourth(),
        Interval::diminished_fifth(),
        Interval::perfect_fifth(),
        Interval::minor_sixth(),
        Interval::major_sixth(),
        Interval::minor_seventh(),
        Interval::major_seventh(),
        Interval::octave(),
    ];
    let starts = [
        Tuning::new(PitchClass::C, 4),
        Tuning::new(PitchClass::Fs, 3),
        Tuning::new(PitchClass::Bb, 5),
        Tuning::new(PitchClass::B, 4).sharp(),
    ];
    for t in starts {
        for i in intervals {
            let there = t.add_interval(&i).unwrap();
            let back = there.add_interval(&i.negate()).unwrap();
            assert_eq!(back.number(), t.number());
        }
    }
}

/// Chord/scale duality: every catalog quality analyzed from its own
/// template comes back unchanged, with no residue.
#[test]
fn test_quality_template_duality() {
    for quality in ChordQuality::iter() {
        let template = quality.intervals();
        let analyzed = ChordQuality::analyze_from(&template).unwrap();
        assert_eq!(analyzed.0, quality);
        assert!(analyzed.1.is_empty());
    }
}

/// Boundary: a minor second above B4 crosses into octave 5 at C5.
#[test]
fn test_octave_crossing() {
    let b4 = Tuning::new(PitchClass::B, 4);
    let up = b4.add_interval(&Interval::minor_second()).unwrap();
    assert_eq!(up, Tuning::new(PitchClass::C, 5));
}

/// A transposition whose estimated octave passes 10 fails with the octave
/// error.
#[test]
fn test_octave_out_of_range() {
    let c10 = Tuning::new(PitchClass::C, 10);
    let res = c10.add_interval(&Interval::octave());
    assert!(matches!(res, Err(MusicError::InvalidOctave { .. })));
}

/// Each reachable error kind, from an input that triggers it.
#[test]
fn test_error_inputs() {
    assert!(matches!(
        Tuning::from_str("X"),
        Err(MusicError::InvalidPitch)
    ));
    assert!(matches!(
        Chord::analyze_from(&[]),
        Err(MusicError::InvalidPitch)
    ));
    assert!(matches!(
        Interval::from_quality_degree(IntervalQuality::Perfect, 0),
        Err(MusicError::InvalidIntervalDegree { degree: 0 })
    ));
    assert!(matches!(
        Interval::from_quality_degree(IntervalQuality::Major, 5),
        Err(MusicError::InvalidIntervalQuality)
    ));
    assert!(matches!(
        Interval::try_from("X5"),
        Err(MusicError::IntervalParseError { .. })
    ));
    let s = Scale::new(Tuning::new(PitchClass::C, 4), ScaleType::Major).unwrap();
    assert!(matches!(
        s.degree(0),
        Err(MusicError::InvalidScaleDegree(0))
    ));
    assert!(matches!(
        ChordQuality::from_str("nonsense"),
        Err(MusicError::InvalidIntervalQuality)
    ));
}

/// The scale-degree walk: one cycle of G major, spelled conventionally.
#[test]
fn test_scale_degree_walk() {
    let g = Tuning::new(PitchClass::G, 4);
    let scale = g.scale(ScaleType::Major);
    assert_eq!(scale.degree(1).unwrap(), Tuning::new(PitchClass::G, 4));
    assert_eq!(scale.degree(3).unwrap(), Tuning::new(PitchClass::B, 4));
    assert_eq!(scale.degree(7).unwrap(), Tuning::new(PitchClass::Fs, 5));
    assert_eq!(scale.degree(8).unwrap(), Tuning::new(PitchClass::G, 5));
}

/// Printing round trips through parsing for plain chord symbols.
#[test]
fn test_symbol_round_trip() {
    for symbol in ["C", "Cm", "C7", "CM7", "Dbdim", "F#sus4", "Gaug", "Am6"] {
        let chord = Chord::from_symbol(symbol).unwrap();
        assert_eq!(chord.to_string(), symbol);
    }
}

/// The interval name printer matches the parser.
#[test]
fn test_interval_name_round_trip() {
    for name in ["P1", "m2", "M3", "Aug4", "Dim5", "P8", "M13"] {
        let interval = Interval::try_from(name).unwrap();
        assert_eq!(interval.name(), name);
    }
}
