use mutheors::Chord;
use mutheors::ChordQuality;
use mutheors::PitchClass;
use mutheors::Scale;
use mutheors::ScaleType;
use mutheors::Tuning;

#[test]
fn test_major_scale() {
    let c = Tuning::new(PitchClass::G, 4);
    let scale = c.scale(ScaleType::Major);
    let tunings = scale.generate_tunings(0).unwrap();
    assert_eq!(
        tunings,
        vec![
            Tuning::new(PitchClass::G, 4),
            Tuning::new(PitchClass::A, 4),
            Tuning::new(PitchClass::B, 4),
            Tuning::new(PitchClass::C, 5),
            Tuning::new(PitchClass::D, 5),
            Tuning::new(PitchClass::E, 5),
            Tuning::new(PitchClass::F.sharp(), 5),
            Tuning::new(PitchClass::G, 5),
        ]
    );
}

#[test]
fn test_blues_scale() {
    let a = Tuning::new(PitchClass::A, 4);
    let scale = a.scale(ScaleType::Blues);
    assert!(scale.contains(&Tuning::new(PitchClass::C, 5)));
    assert!(scale.contains(&Tuning::new(PitchClass::D, 5).sharp()));
    assert_eq!(
        scale.characteristic_tuning(),
        Some(Tuning::new(PitchClass::E.flat(), 5))
    );
}

#[test]
fn test_scale_iter() {
    let s = Scale::new(Tuning::new(PitchClass::C, 4), ScaleType::PentatonicMajor).unwrap();

    let mut degree: u8 = 1;
    while let Ok(t) = s.degree(degree) {
        println!("{}", t.to_string());
        degree += 1;
        if degree > 20 {
            break;
        }
    }
}

#[test]
fn test_scale_1() {
    let s = Scale::new(Tuning::new(PitchClass::C, 4), ScaleType::Major).unwrap();

    assert_eq!(
        s.sharp().sharp().degree(1).unwrap().simple(),
        Tuning::new(PitchClass::D, 4)
    );
    assert_eq!(
        s.flat().sharp().degree(1).unwrap(),
        Tuning::new(PitchClass::C, 4)
    );
    assert_eq!(
        s.flat().sharp().degree(1).unwrap(),
        s.degree(1).unwrap().sharp().flat()
    );
}

#[test]
fn test_scale_2() {
    let s = Scale::new(Tuning::new(PitchClass::C, 4), ScaleType::Major).unwrap();

    let c = s.chord(1, ChordQuality::Major).ok();
    assert_eq!(
        c,
        Chord::new(Tuning::new(PitchClass::C, 4), ChordQuality::Major).ok()
    );

    let d = s.chord(2, ChordQuality::Major).ok();
    assert_eq!(
        d,
        Chord::new(Tuning::new(PitchClass::D, 4), ChordQuality::Major).ok()
    );

    let e = s.chord(3, ChordQuality::Major).ok();
    assert_eq!(
        e,
        Chord::new(Tuning::new(PitchClass::E, 4), ChordQuality::Major).ok()
    );
}

#[test]
fn test_scale_3() {
    let s = Scale::new(Tuning::new(PitchClass::C, 4), ScaleType::Major).unwrap();

    assert_eq!(
        s.degree_chord(1).ok(),
        Chord::new(Tuning::new(PitchClass::C, 4), ChordQuality::Major).ok()
    );
    assert_eq!(
        s.degree_chord(2).ok(),
        Chord::new(Tuning::new(PitchClass::D, 4), ChordQuality::Minor).ok()
    );
    assert_eq!(
        s.degree_chord(3).ok(),
        Chord::new(Tuning::new(PitchClass::E, 4), ChordQuality::Minor).ok()
    );
    assert_eq!(
        s.degree_chord(4).ok(),
        Chord::new(Tuning::new(PitchClass::F, 4), ChordQuality::Major).ok()
    );
    assert_eq!(
        s.degree_chord(5).ok(),
        Chord::new(Tuning::new(PitchClass::G, 4), ChordQuality::Major).ok()
    );
    assert_eq!(
        s.degree_chord(6).ok(),
        Chord::new(Tuning::new(PitchClass::A, 4), ChordQuality::Minor).ok()
    );
    assert_eq!(
        s.degree_chord(7).ok(),
        Chord::new(Tuning::new(PitchClass::B, 4), ChordQuality::Diminished).ok()
    );
}

#[test]
fn test_scale_4() {
    let s = Scale::new(Tuning::new(PitchClass::Eb, 4), ScaleType::Major).unwrap();
    assert_eq!(s.degree(6).unwrap(), Tuning::new(PitchClass::C, 5));
}
