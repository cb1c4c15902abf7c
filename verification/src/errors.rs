use vstd::prelude::*;

verus! {

/// The failure surface of the library.
///
/// Every fallible operation returns one of these kinds, naming the musical
/// rule that was violated. Errors are ordinary values: no operation of the
/// library panics on inputs its contract admits.
#[derive(Debug)]
pub enum MusicError {
    /// Malformed pitch text.
    InvalidPitch,
    /// Chord analysis found no viable root.
    UnsupportedChord,
    /// An interval degree outside the supported 1..=127 range.
    InvalidIntervalDegree { degree: u8 },
    /// An interval name that does not parse; carries the offending text.
    IntervalParseError { name: String },
    /// A quality/degree combination that names no interval.
    InvalidIntervalQuality,
    /// A scale degree below 1, or unsupported for the scale.
    InvalidScaleDegree(u8),
    /// A transposition whose resulting octave leaves the audible range.
    InvalidOctave { octave: i8 },
    /// An interval set that matches no chord quality template.
    InvalidChordQuality,
}

} // verus!
