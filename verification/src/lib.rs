//! Tonal music theory as exact, composable value types: spelled pitches
//! ([`Tuning`]), intervals with quality/degree semantics ([`Interval`]),
//! scales as interval-pattern generators ([`Scale`]), and chords as interval
//! stacks with inversion and voicing ([`Chord`]).
//!
//! Every operation is a pure function over immutable values; fallible
//! arithmetic returns a [`MusicError`] instead of panicking.

pub mod chord;
pub mod errors;
pub mod interval;
pub mod quality;
pub mod scale;
pub mod text;
pub mod tuning;

pub use chord::Chord;
pub use chord::ChordFunction;
pub use chord::ChordType;
pub use chord::ExtensionAlter;
pub use chord::Inversion;
pub use chord::Voicing;
pub use errors::MusicError;
pub use interval::Consonance;
pub use interval::Interval;
pub use interval::IntervalDegree;
pub use interval::IntervalQuality;
pub use quality::ChordQuality;
pub use scale::Scale;
pub use scale::ScaleType;
pub use tuning::PitchClass;
pub use tuning::Tuning;
