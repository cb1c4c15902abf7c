use mutheors::Interval;
use mutheors::IntervalQuality;
use mutheors::MusicError;
use mutheors::PitchClass;
use mutheors::Tuning;

/// An octave shift upward: step `n - 1` octaves up through a compound
/// perfect interval.
fn octave_up(t: Tuning, n: u8) -> Tuning {
    t.add_interval(&Interval::from_quality_degree(IntervalQuality::Perfect, 1 + 7 * (n - 1)).unwrap())
        .unwrap()
}

/// An octave shift downward: the inverted compound perfect interval.
fn octave_down(t: Tuning, n: u8) -> Tuning {
    t.add_interval(
        &Interval::from_quality_degree(IntervalQuality::Perfect, 1 + 7 * (n - 1))
            .unwrap()
            .invert(),
    )
    .unwrap()
}

#[test]
fn test_tuning_01() {
    let tuning1 = octave_up(Tuning::new(PitchClass::C.sharp(), 3), 2);
    let tuning2 = Tuning::new(PitchClass::C, 4).sharp();
    assert_eq!(tuning1.number(), tuning2.number());
}

#[test]
fn test_tuning_02() {
    let pc = PitchClass::C;
    let tuning = Tuning::new(pc.sharp(), 3);
    let tuning1 = tuning
        .add_interval(&Interval::from_semitones(1).unwrap())
        .unwrap();
    let tuning2 = tuning1
        .add_interval(&Interval::from_semitones(1).unwrap())
        .unwrap();
    let tuning3 = tuning2
        .add_interval(&Interval::from_semitones(1).unwrap())
        .unwrap();
    let tuning4 = tuning3
        .add_interval(&Interval::from_semitones(-1).unwrap())
        .unwrap();

    println!("tuning1: {}", tuning1.to_string());
    println!("tuning2: {}", tuning2.to_string());
    println!("tuning2: {}", tuning3.to_string());
    println!("tuning2: {}", tuning4.to_string());
}

#[test]
fn test_tuning_03() {
    let pc = PitchClass::C;
    let tuning1 = octave_up(Tuning::new(pc.sharp(), 3), 3).flat();
    let tuning2 = octave_down(Tuning::new(PitchClass::C, 6), 2);
    assert_eq!(tuning1.number(), tuning2.number());
}

#[test]
fn test_tuning_04() {
    let pc = PitchClass::C;
    let interval_1 = Interval::from_quality_degree(IntervalQuality::Augmented, 4).unwrap();
    let interval_2 = Interval::from_quality_degree(IntervalQuality::Diminished, 5).unwrap();
    let tuning_1 = Tuning::new(pc, 4);
    let tuning_2 = tuning_1.add_interval(&interval_1).unwrap();
    let tuning_3 = tuning_1.add_interval(&interval_2).unwrap();

    assert_eq!(Tuning::new(PitchClass::Fs, 4), tuning_2);
    assert_eq!(Tuning::new(PitchClass::Gb, 4), tuning_3);
}

#[test]
fn test_tuning_05() {
    let pc = PitchClass::Cs;
    let interval_1 = Interval::from_quality_degree(IntervalQuality::Augmented, 4).unwrap();
    let interval_2 = Interval::from_quality_degree(IntervalQuality::Diminished, 5).unwrap();
    let tuning_1 = Tuning::new(pc, 4);
    let tuning_2 = tuning_1.add_interval(&interval_1).unwrap();
    let tuning_3 = tuning_1.add_interval(&interval_2).unwrap();

    assert_eq!(Tuning::new(PitchClass::Fs, 4).sharp(), tuning_2);
    assert_eq!(Tuning::new(PitchClass::G, 4), tuning_3);
}

#[test]
fn test_tuning_06() {
    let pc = PitchClass::As;
    let interval_1 = Interval::from_quality_degree(IntervalQuality::Major, 2).unwrap();
    let tuning_1 = Tuning::new(pc, 4);
    let tuning_2 = tuning_1.add_interval(&interval_1).unwrap();

    assert_eq!(Tuning::new(PitchClass::B, 4).sharp(), tuning_2);
}

#[test]
fn test_tuning_07() {
    let pc = PitchClass::Bb;
    let interval_1 = Interval::from_quality_degree(IntervalQuality::Major, 2).unwrap();
    let tuning_1 = Tuning::new(pc, 4);
    let tuning_2 = tuning_1.add_interval(&interval_1).unwrap();
    assert_eq!(Tuning::new(PitchClass::C, 5), tuning_2);
}

#[test]
fn test_tuning_2() {
    let pitch = Tuning::new(PitchClass::E.flat(), 3);
    for i in 1..=6 {
        let c = pitch.common_chord(i);
        println!("{}", c.to_string());
    }
}

#[test]
fn test_tuning_3() -> Result<(), MusicError> {
    let tuning = Tuning::from_str("C#")?;
    assert_eq!(tuning, Tuning::new(PitchClass::Cs, 4));

    let tuning = Tuning::from_str("C")?;
    assert_eq!(tuning, Tuning::new(PitchClass::C, 4));

    let tuning = Tuning::from_str("C##")?;
    assert_eq!(tuning, Tuning::new(PitchClass::Cs, 4).sharp());

    let tuning = Tuning::from_str("Cb")?;
    assert_eq!(tuning, Tuning::new(PitchClass::B, 4));

    Ok(())
}

#[test]
fn test_modulation_2() {
    let tuning = Tuning::new(PitchClass::C, 4);
    assert_eq!(
        tuning.flat().number(),
        Tuning::new(PitchClass::B, 3).number()
    );
}

#[test]
fn test_interval() -> Result<(), MusicError> {
    let tuning = Tuning::new(PitchClass::C, 4);
    let new_tuning = tuning.add_interval(&Interval::from_semitones(0)?)?;
    assert_eq!((new_tuning.class, new_tuning.octave), (PitchClass::C, 4));
    let new_tuning = tuning.add_interval(&Interval::from_semitones(2)?)?;
    assert_eq!((new_tuning.class, new_tuning.octave), (PitchClass::D, 4));
    let new_tuning = tuning.add_interval(&Interval::from_semitones(4)?)?;
    assert_eq!((new_tuning.class, new_tuning.octave), (PitchClass::E, 4));
    let new_tuning = tuning.add_interval(&Interval::from_semitones(5)?)?;
    assert_eq!((new_tuning.class, new_tuning.octave), (PitchClass::F, 4));
    let new_tuning = tuning.add_interval(&Interval::from_semitones(7)?)?;
    assert_eq!((new_tuning.class, new_tuning.octave), (PitchClass::G, 4));
    let new_tuning = tuning.add_interval(&Interval::from_semitones(9)?)?;
    assert_eq!((new_tuning.class, new_tuning.octave), (PitchClass::A, 4));
    let new_tuning = tuning.add_interval(&Interval::from_semitones(11)?)?;
    assert_eq!((new_tuning.class, new_tuning.octave), (PitchClass::B, 4));

    Ok(())
}

#[test]
fn test_common_chord() {
    // Test the common chord for C
    let pitch_class = Tuning::new(PitchClass::C, 4);
    let notes = pitch_class.common_chord(1).components();
    assert_eq!(
        notes,
        vec![
            Tuning::new(PitchClass::C, 4),
            Tuning::new(PitchClass::E, 4),
            Tuning::new(PitchClass::G, 4)
        ]
    );

    let notes = pitch_class.common_chord(2).components();
    assert_eq!(
        notes,
        vec![
            Tuning::new(PitchClass::D, 4),
            Tuning::new(PitchClass::F, 4),
            Tuning::new(PitchClass::A, 4)
        ]
    );

    let notes = pitch_class.common_chord(3).components();
    assert_eq!(
        notes,
        vec![
            Tuning::new(PitchClass::E, 4),
            Tuning::new(PitchClass::G, 4),
            Tuning::new(PitchClass::B, 4)
        ]
    );

    let notes = pitch_class.common_chord(4).components();
    assert_eq!(
        notes,
        vec![
            Tuning::new(PitchClass::F, 4),
            Tuning::new(PitchClass::A, 4),
            Tuning::new(PitchClass::C, 5)
        ]
    );

    let notes = pitch_class.common_chord(5).components();
    assert_eq!(
        notes,
        vec![
            Tuning::new(PitchClass::G, 4),
            Tuning::new(PitchClass::B, 4),
            Tuning::new(PitchClass::D, 5)
        ]
    );

    let notes = pitch_class.common_chord(6).components();
    assert_eq!(
        notes,
        vec![
            Tuning::new(PitchClass::A, 4),
            Tuning::new(PitchClass::C, 5),
            Tuning::new(PitchClass::E, 5)
        ]
    );

    // Test the common chord for D
    let pitch_class = Tuning::new(PitchClass::D, 4);
    let notes = pitch_class.common_chord(1).components();
    assert_eq!(
        notes,
        vec![
            Tuning::new(PitchClass::D, 4),
            Tuning::new(PitchClass::Fs, 4),
            Tuning::new(PitchClass::A, 4)
        ]
    );

    let notes = pitch_class.common_chord(2).components();
    assert_eq!(
        notes,
        vec![
            Tuning::new(PitchClass::E, 4),
            Tuning::new(PitchClass::G, 4),
            Tuning::new(PitchClass::B, 4)
        ]
    );

    let notes = pitch_class.common_chord(3).components();
    assert_eq!(
        notes,
        vec![
            Tuning::new(PitchClass::Fs, 4),
            Tuning::new(PitchClass::A, 4),
            Tuning::new(PitchClass::Cs, 5)
        ]
    );

    let notes = pitch_class.common_chord(4).components();
    assert_eq!(
        notes,
        vec![
            Tuning::new(PitchClass::G, 4),
            Tuning::new(PitchClass::B, 4),
            Tuning::new(PitchClass::D, 5)
        ]
    );

    let notes = pitch_class.common_chord(5).components();
    assert_eq!(
        notes,
        vec![
            Tuning::new(PitchClass::A, 4),
            Tuning::new(PitchClass::Cs, 5),
            Tuning::new(PitchClass::E, 5)
        ]
    );

    let notes = pitch_class.common_chord(6).components();
    assert_eq!(
        notes,
        vec![
            Tuning::new(PitchClass::B, 4),
            Tuning::new(PitchClass::D, 5),
            Tuning::new(PitchClass::Fs, 5)
        ]
    );
}
