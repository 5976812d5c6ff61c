//! Standard Chinese Pinyin as structured data.
//!
//! A syllable is an initial consonant, a final (rhyme) and a tone. This crate
//! holds the inventories of the three, the rule that decides which letter of
//! a final carries the tone diacritic, and the conversion between a syllable
//! and its written form in both directions.
//!
//! The functions are verified against a mathematical description of the
//! orthography, and the module `laws` proves what holds of writing and
//! reading together. One thing is taken on trust: that `String::push`
//! appends a character.

pub mod error;
pub mod initial;
pub mod laws;
pub mod rhyme;
pub mod spelling;
pub mod syllable;
pub mod text;
pub mod tone;
pub mod tone_laws;

pub use error::Error;
pub use initial::Initial;
pub use rhyme::Rhyme;
pub use syllable::{
    from_str, AnySyllable, NasalSyllable, NormalSyllable, PrimitiveSyllable, RhymeSyllable, Sound,
    Syllable, SyllableKind,
};
pub use text::Slots;
pub use tone::{Tone, ToneFormat, ToneMark};

use vstd::prelude::*;

verus! {

/// The mark that separates two syllables where their boundary would
/// otherwise be ambiguous, as in "xi'an".
pub const SYLLABLE_DIVIDING_MARK: char = '\'';

} // verus!
