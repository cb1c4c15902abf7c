use mutheors::Interval;
use mutheors::IntervalQuality;
use mutheors::MusicError;
use mutheors::PitchClass;
use mutheors::Tuning;

#[test]
fn test_perfect_fifth() {
    let interval = Interval::from_quality_degree(IntervalQuality::Perfect, 5).unwrap();
    assert_eq!(interval.semitones, 7);
    assert_eq!(interval.name(), "P5");
}

#[test]
fn test_major_third() {
    let interval = Interval::from_semitones(4).unwrap();
    assert_eq!(interval.quality, IntervalQuality::Major);
    assert_eq!(interval.degree.0, 3);
}

#[test]
fn interval_test_inversion() {
    let interval = Interval::from_semitones(4).unwrap(); // Major 3rd
    let interval = interval.invert();
    assert_eq!(interval.semitones, -4); // Minor 6th
    assert_eq!(interval.quality, IntervalQuality::Minor);
    assert_eq!(interval.degree.0, 6);
}

#[test]
fn test_descending_interval() -> Result<(), MusicError> {
    let interval = Interval::from_semitones(-24)?;
    assert_eq!(interval.quality, IntervalQuality::Perfect);

    let tuning = Tuning::new(PitchClass::C, 3);
    let new_tuning = tuning.add_interval(&interval)?;
    assert_eq!(new_tuning.class(), PitchClass::C);
    assert_eq!(new_tuning.octave(), 1);

    Ok(())
}

#[test]
fn test_perfect_interval() -> Result<(), MusicError> {
    let intervals = [
        Interval::from_quality_degree(IntervalQuality::Perfect, 1)?,
        Interval::from_quality_degree(IntervalQuality::Perfect, 4)?,
        Interval::from_quality_degree(IntervalQuality::Perfect, 5)?,
        Interval::from_quality_degree(IntervalQuality::Perfect, 8)?,
    ];

    let interval_numbers = [0, 5, 7, 12];
    let intervals = intervals.map(|i| i.semitones());
    assert_eq!(intervals, interval_numbers);

    Ok(())
}

#[test]
fn test_major_interval() -> Result<(), MusicError> {
    let intervals = [
        Interval::from_quality_degree(IntervalQuality::Major, 2)?,
        Interval::from_quality_degree(IntervalQuality::Major, 3)?,
        Interval::from_quality_degree(IntervalQuality::Major, 6)?,
        Interval::from_quality_degree(IntervalQuality::Major, 7)?,
        Interval::from_quality_degree(IntervalQuality::Major, 9)?,
    ];

    let interval_numbers = [2, 4, 9, 11, 14];
    let intervals = intervals.map(|i| i.semitones());
    assert_eq!(intervals, interval_numbers);
    Ok(())
}

#[test]
fn test_interval_factory_methods() {
    assert_eq!(Interval::unison().semitones(), 0);
    assert_eq!(Interval::minor_second().semitones(), 1);
    assert_eq!(Interval::major_second().semitones(), 2);
    assert_eq!(Interval::minor_third().semitones(), 3);
    assert_eq!(Interval::major_third().semitones(), 4);
    assert_eq!(Interval::perfect_fourth().semitones(), 5);
    assert_eq!(Interval::tritone().semitones(), 6);
    assert_eq!(Interval::perfect_fifth().semitones(), 7);
    assert_eq!(Interval::minor_sixth().semitones(), 8);
    assert_eq!(Interval::major_sixth().semitones(), 9);
    assert_eq!(Interval::minor_seventh().semitones(), 10);
    assert_eq!(Interval::major_seventh().semitones(), 11);
    assert_eq!(Interval::octave().semitones(), 12);
}

#[test]
#[allow(non_snake_case)]
fn test_interval_operations() {
    let m3 = Interval::minor_third();
    let M3 = Interval::major_third();
    let P5 = Interval::perfect_fifth();

    assert_eq!(m3.plus(M3).semitones(), 7);

    let m7 = Interval::minor_seventh();
    let P4 = Interval::perfect_fourth();

    assert_eq!(m7.minus(P4).semitones(), 5);

    assert_eq!(M3.times(2).semitones(), 8);
    assert_eq!(P5.times(2).semitones(), 14);
}

#[test]
fn test_interval_from_string() -> Result<(), MusicError> {
    assert_eq!(Interval::try_from("P1")?.semitones(), 0);
    assert_eq!(Interval::try_from("m3")?.semitones(), 3);
    assert_eq!(Interval::try_from("M6")?.semitones(), 9);
    assert_eq!(Interval::try_from("Aug4")?.semitones(), 6);
    assert_eq!(Interval::try_from("Dim5")?.semitones(), 6);

    // error cases
    assert!(Interval::try_from("X5").is_err());
    assert!(Interval::try_from("P9").is_err());

    Ok(())
}
