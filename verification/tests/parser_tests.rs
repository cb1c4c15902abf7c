use mutheors::Chord;
use mutheors::ChordQuality;
use mutheors::MusicError;
use mutheors::PitchClass;
use mutheors::Tuning;

#[test]
fn test_chord_parser() -> Result<(), MusicError> {
    let chord = Chord::from_str("C")?;
    println!("Parsed chord: {}", chord.to_string());

    let chord = Chord::from_str("C#m")?;
    println!("Parsed chord: {}", chord.to_string());

    let chord = Chord::from_str("CmM7")?;
    println!("Parsed chord: {}", chord.to_string());

    let chord = Chord::from_str("Gbsus2")?;
    println!("Parsed chord: {}", chord.to_string());

    Ok(())
}

#[test]
fn test_chord_analyze_from() -> Result<(), MusicError> {
    let tunings = vec![
        Tuning::new(PitchClass::C, 5),
        Tuning::new(PitchClass::Eb, 4),
        Tuning::new(PitchClass::G, 4),
        Tuning::new(PitchClass::B, 4),
    ];

    let chord = Chord::analyze_from(&tunings)?;
    println!("Analyzed chord: {}", chord.to_string());

    Ok(())
}

#[test]
fn test_chord_analyze_from_02() -> Result<(), MusicError> {
    let tunings = vec![
        Tuning::new(PitchClass::C, 4),
        Tuning::new(PitchClass::E, 4),
        Tuning::new(PitchClass::G, 4),
        Tuning::new(PitchClass::B, 4),
        Tuning::new(PitchClass::D, 5),
    ];

    let chord = Chord::analyze_from(&tunings)?;
    println!("Analyzed chord: {}", chord.to_string());

    Ok(())
}

#[test]
fn test_chord_analyze_supported() {
    for quality in ChordQuality::iter() {
        let c = Chord::new(Tuning::new(PitchClass::C, 4), quality).unwrap();
        println!("Chord: {}, components: {:?}", c.to_string(), c.components());
        let c2 = Chord::analyze_from(&c.components()).unwrap();

        assert_eq!(c.simple(), c2.simple());
    }
}

#[test]
fn test_chord_from_symbol() -> Result<(), MusicError> {
    let c = Chord::new(Tuning::new(PitchClass::C, 4), ChordQuality::Major7)?;
    println!("Chord: {}, components: {:?}", c.to_string(), c.components());
    let c2 = Chord::analyze_from(&c.components())?;

    assert_eq!(c, c2);
    Ok(())
}
