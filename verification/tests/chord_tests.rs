use mutheors::Chord;
use mutheors::ChordFunction;
use mutheors::ChordQuality;
use mutheors::Inversion;
use mutheors::PitchClass;
use mutheors::Scale;
use mutheors::ScaleType;
use mutheors::Tuning;

#[test]
fn test_chord() {
    let tuning = Tuning::new(PitchClass::Ds, 4);
    let scale = tuning.scale(ScaleType::Major);
    assert_eq!(
        scale.degree_chord(1).unwrap().root(),
        Tuning::new(PitchClass::Ds, 4)
    );
    assert_eq!(
        scale.degree_chord(2).unwrap().root(),
        Tuning::new(PitchClass::E, 4).sharp()
    );
    assert_eq!(
        scale.degree_chord(3).unwrap().root(),
        Tuning::new(PitchClass::Fs, 4).sharp()
    );
    assert_eq!(
        scale.degree_chord(4).unwrap().root(),
        Tuning::new(PitchClass::Gs, 4)
    );
    assert_eq!(
        scale.degree_chord(5).unwrap().root(),
        Tuning::new(PitchClass::As, 4)
    );
    assert_eq!(
        scale.degree_chord(6).unwrap().root(),
        Tuning::new(PitchClass::B, 4).sharp()
    );
    assert_eq!(
        scale.degree_chord(7).unwrap().root(),
        Tuning::new(PitchClass::Cs, 5).sharp()
    );
}

#[test]
fn test_major_triad() {
    let c_major = Chord::new(Tuning::new(PitchClass::C, 4), ChordQuality::Major).unwrap();
    assert_eq!(
        c_major.components(),
        vec![
            Tuning::new(PitchClass::C, 4),
            Tuning::new(PitchClass::E, 4),
            Tuning::new(PitchClass::G, 4)
        ]
    );
}

#[test]
fn test_chord_01() {
    let seventh = ["C", "D", "E", "F", "G", "A", "B", "Eb"];
    for sym in seventh {
        let c7 = Chord::from_symbol(&(sym.to_owned() + "7")).unwrap();

        let c = Chord::from_symbol(sym).unwrap();
        let c = c.dom(7);

        let c = Chord::analyze_from(&c.components()).unwrap();

        assert_eq!(c7, c);
        println!("Checked: {}", c.to_string());
    }
}

#[test]
fn test_chord_02() {
    // They are not equal but have the same components.
    let c = Chord::from_symbol("C").unwrap();
    let c = c.add(7);
    let c_maj7 = Chord::from_symbol("Cmaj7").unwrap();

    assert_ne!(c, c_maj7);
    assert_eq!(c.components(), c_maj7.components());
}

#[test]
fn test_chord_03() {
    let c = Chord::from_symbol("C").unwrap();
    let c = c.maj(9);

    // Add additional notes for Cmaj9, which includes the 9th degree.
    let c = c.add(7);
    let c = c.add(7);
    let c = c.add(7);

    assert_eq!(
        c.components(),
        [
            Tuning::new(PitchClass::C, 4),
            Tuning::new(PitchClass::E, 4),
            Tuning::new(PitchClass::G, 4),
            Tuning::new(PitchClass::B, 4),
            Tuning::new(PitchClass::D, 5)
        ]
    );
}

#[test]
fn test_chord_04() {
    let c = Chord::from_symbol("C7").unwrap();

    let c = c.no(7);

    let c_maj = Chord::from_symbol("C").unwrap();

    assert_eq!(c.components(), c_maj.components());
}

#[test]
fn test_dominant_seventh() {
    let g7 = Chord::new(Tuning::new(PitchClass::G, 4), ChordQuality::Dominant7).unwrap();
    assert_eq!(
        g7.components(),
        vec![
            Tuning::new(PitchClass::G, 4),
            Tuning::new(PitchClass::B, 4),
            Tuning::new(PitchClass::D, 5),
            Tuning::new(PitchClass::F, 5)
        ]
    );
}

#[test]
fn test_chord_extension_1() {
    let s = Tuning::new(PitchClass::C, 4).scale(ScaleType::Major);
    let c = s.degree_chord(1).unwrap();
    let c9 = c.dom(9);

    println!("Chord 1: {:?}", c9);
}

#[test]
fn mod_test_inversion() {
    let mut cmaj = Chord::new(Tuning::new(PitchClass::C, 4), ChordQuality::Major).unwrap();
    cmaj.invert(Inversion::First);
    assert_eq!(
        cmaj.components(),
        vec![
            Tuning::new(PitchClass::E, 4),
            Tuning::new(PitchClass::G, 4),
            Tuning::new(PitchClass::C, 5)
        ]
    );
}

#[test]
fn test_chord_function_1() {
    let scale = Scale::new(Tuning::new(PitchClass::C, 4), ScaleType::Major).unwrap();
    let chord = Chord::new(Tuning::new(PitchClass::C, 4), ChordQuality::Major).unwrap();

    assert_eq!(chord.function(&scale), ChordFunction::Tonic);

    let chord = Chord::new(Tuning::new(PitchClass::C, 3), ChordQuality::Major).unwrap();
    assert_eq!(chord.function(&scale), ChordFunction::Tonic);
}

#[test]
fn test_in_chords() {
    let c = Chord::from_symbol("C").unwrap();
    let r = c.root();
    let ss = c.in_scales();

    for s in ss.iter() {
        let tones = s.generate_tunings(0).unwrap();
        let mut position = 0;
        for (i, t) in tones.iter().enumerate() {
            if t.with_octave(4).class_semitones() == r.class_semitones() {
                position = i + 1;
                break;
            }
        }
        println!(
            "{}{:?} {:?} {}",
            s.root().to_string(),
            s.scale_type(),
            c.function(s),
            position
        );
    }
}
