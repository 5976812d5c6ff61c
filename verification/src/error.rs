//! The ways in which building or reading a syllable can fail.

use vstd::prelude::*;

verus! {

/// Why a value was rejected.
#[derive(Debug, Clone, Copy, PartialEq, Eq, Structural)]
pub enum Error {
    /// The symbol is not one of the twenty-one initials.
    InvalidInitial,
    /// The four slots are not one of the thirty-seven finals.
    InvalidRhyme,
    /// The letter does not carry that tone in the table of tone marks.
    InvalidToneMark,
    /// The text holds more than one tone diacritic.
    AmbiguousToneMark,
    /// The slots hold none of the letters a, o, e, ü, i, u.
    NoVowelToMark,
    /// The slots hold both o and e, which no final does.
    OAndEConflict,
    /// The slots hold ü together with i or u, which no final does.
    UmlautConflict,
    /// The parts are valid, but not together in this kind of syllable.
    VariantMismatch,
    /// The text is no syllable of any kind.
    NoMatch,
}

} // verus!
