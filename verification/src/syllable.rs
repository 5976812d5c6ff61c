//! The four kinds of syllable, how each is written and how each is read.

use crate::error::Error;
use crate::initial::{initial_text, is_initial, Initial};
use crate::rhyme::{is_rhyme, tone_vowel, Rhyme};
use crate::spelling::{
    after_initial, alone, contract, elide, expand, from_after_initial, from_alone, prefix,
    restore, spell_final_ng, unprefix, with_final_ng,
};
use crate::text::{chars_of, string_of, Slots, BLANK};
use crate::tone::{accent, glyph, is_tone_mark, split_tone, Tone, ToneMark, COMBINING_GRAVE};
use vstd::pervasive::unreached;
use vstd::prelude::*;

verus! {

/// The syllables that are read as a whole, each with the letter that
/// carries its tone diacritic.
pub const PRIMITIVE_SYLLABLE_TABLE: [([char; 4], char); 16] = [
    (['z', 'h', 'i', ' '], 'i'), (['c', 'h', 'i', ' '], 'i'), (['s', 'h', 'i', ' '], 'i'),
    (['r', 'i', ' ', ' '], 'i'), (['z', 'i', ' ', ' '], 'i'), (['c', 'i', ' ', ' '], 'i'),
    (['s', 'i', ' ', ' '], 'i'), (['y', 'i', ' ', ' '], 'i'), (['w', 'u', ' ', ' '], 'u'),
    (['y', 'u', ' ', ' '], 'u'), (['y', 'e', ' ', ' '], 'e'), (['y', 'u', 'e', ' '], 'e'),
    (['y', 'u', 'a', 'n'], 'a'), (['y', 'i', 'n', ' '], 'i'), (['y', 'u', 'n', ' '], 'u'),
    (['y', 'i', 'n', 'g'], 'i'),
];

/// The kind of a syllable.
#[derive(Debug, PartialEq, Eq, Copy, Clone, Structural)]
pub enum SyllableKind {
    /// One of the sixteen syllables that are read as a whole.
    Primitive,
    /// An initial and a final.
    Normal,
    /// A final by itself.
    Rhyme,
    /// A nasal by itself, as in the interjections ń and ḿ. The scheme does
    /// not know this kind.
    Nasal,
}

/// Whether `s` is one of the sixteen syllables that are read as a whole.
pub open spec fn is_primitive(s: Slots) -> bool {
    match (s.c0, s.c1, s.c2, s.c3) {
        ('z', 'h', 'i', ' ') | ('c', 'h', 'i', ' ') | ('s', 'h', 'i', ' ') => true,
        ('r', 'i', ' ', ' ') | ('z', 'i', ' ', ' ') | ('c', 'i', ' ', ' ') => true,
        ('s', 'i', ' ', ' ') | ('y', 'i', ' ', ' ') | ('w', 'u', ' ', ' ') => true,
        ('y', 'u', ' ', ' ') | ('y', 'e', ' ', ' ') | ('y', 'u', 'e', ' ') => true,
        ('y', 'u', 'a', 'n') | ('y', 'i', 'n', ' ') | ('y', 'u', 'n', ' ') => true,
        ('y', 'i', 'n', 'g') => true,
        _ => false,
    }
}

/// The letter that carries the tone diacritic in the syllable `s` that is
/// read as a whole.
pub open spec fn primitive_vowel(s: Slots) -> char {
    match (s.c0, s.c1, s.c2, s.c3) {
        ('w', 'u', ' ', ' ') | ('y', 'u', ' ', ' ') | ('y', 'u', 'n', ' ') => 'u',
        ('y', 'e', ' ', ' ') | ('y', 'u', 'e', ' ') => 'e',
        ('y', 'u', 'a', 'n') => 'a',
        _ => 'i',
    }
}

/// Whether a nasal by itself can be `initial` in `tone`: m in the second
/// and fourth tone, n in the second, third and fourth.
pub open spec fn is_nasal_syllable(initial: char, tone: Tone) -> bool {
    (initial == 'm' || initial == 'n') && is_tone_mark(initial, tone)
}

/// `w` with the diacritic of `tone` on the letter that carries it.
pub open spec fn mark(w: Slots, tone: Tone) -> Slots {
    match tone_vowel(w) {
        Ok(v) => w.replace(v, accent(v, tone)),
        Err(_) => w,
    }
}

/// What a syllable stands for: its kind, and its parts as plain values. It
/// is the view of every syllable type.
pub enum Sound {
    /// A syllable that is read as a whole, with its letters.
    Primitive { letters: Slots, tone: Tone },
    /// The symbol of an initial and the slots of a final.
    Normal { initial: char, rhyme: Slots, tone: Tone },
    /// The slots of a final.
    Rhyme { rhyme: Slots, tone: Tone },
    /// The symbol of the nasal.
    Nasal { initial: char, tone: Tone },
}

impl Sound {
    /// Whether the parts are of the inventories, and go together.
    pub open spec fn valid(self) -> bool {
        match self {
            Sound::Primitive { letters, tone } => is_primitive(letters),
            Sound::Normal { initial, rhyme, tone } => is_initial(initial) && is_rhyme(rhyme),
            Sound::Rhyme { rhyme, tone } => is_rhyme(rhyme),
            Sound::Nasal { initial, tone } => is_nasal_syllable(initial, tone),
        }
    }

    /// The kind.
    pub open spec fn kind(self) -> SyllableKind {
        match self {
            Sound::Primitive { .. } => SyllableKind::Primitive,
            Sound::Normal { .. } => SyllableKind::Normal,
            Sound::Rhyme { .. } => SyllableKind::Rhyme,
            Sound::Nasal { .. } => SyllableKind::Nasal,
        }
    }

    /// The symbol of the initial, where the kind has one.
    pub open spec fn initial(self) -> Option<char> {
        match self {
            Sound::Normal { initial, .. } => Some(initial),
            Sound::Nasal { initial, .. } => Some(initial),
            _ => None,
        }
    }

    /// The slots of the final, where the kind has one.
    pub open spec fn finals(self) -> Option<Slots> {
        match self {
            Sound::Normal { rhyme, .. } => Some(rhyme),
            Sound::Rhyme { rhyme, .. } => Some(rhyme),
            _ => None,
        }
    }

    /// The tone.
    pub open spec fn tone(self) -> Tone {
        match self {
            Sound::Primitive { tone, .. } => tone,
            Sound::Normal { tone, .. } => tone,
            Sound::Rhyme { tone, .. } => tone,
            Sound::Nasal { tone, .. } => tone,
        }
    }

    /// Whether a letter of the syllable can carry a tone diacritic. Of the
    /// valid syllables only those with the final ê have none.
    pub open spec fn has_vowel(self) -> bool {
        match self {
            Sound::Normal { rhyme, .. } => tone_vowel(rhyme) is Ok,
            Sound::Rhyme { rhyme, .. } => tone_vowel(rhyme) is Ok,
            _ => true,
        }
    }

    /// The letter that carries the tone: the one that the table names for a
    /// syllable read as a whole, the one that the rule of the finals picks
    /// in a final, and the nasal itself. It is a blank where there is none.
    pub open spec fn vowel(self) -> char {
        match self {
            Sound::Primitive { letters, .. } => primitive_vowel(letters),
            Sound::Normal { rhyme, .. } => match tone_vowel(rhyme) {
                Ok(v) => v,
                Err(_) => BLANK,
            },
            Sound::Rhyme { rhyme, .. } => match tone_vowel(rhyme) {
                Ok(v) => v,
                Err(_) => BLANK,
            },
            Sound::Nasal { initial, .. } => initial,
        }
    }

    /// The syllable as it is written. The final takes its written form
    /// first: short and without the dots of ü after an initial, with y or w
    /// where it stands alone. Then the diacritic goes on the letter of the
    /// written form that the rule of the finals picks.
    pub open spec fn text(self) -> Seq<char> {
        match self {
            Sound::Primitive { letters, tone } => letters.replace(
                primitive_vowel(letters),
                accent(primitive_vowel(letters), tone),
            ).text(),
            Sound::Normal { initial, rhyme, tone } => initial_text(initial) + mark(
                elide(initial, contract(rhyme)),
                tone,
            ).text(),
            Sound::Rhyme { rhyme, tone } => mark(prefix(rhyme), tone).text(),
            Sound::Nasal { initial, tone } => glyph(initial, tone),
        }
    }
}

/// The symbol of the initial at the head of `text` and the number of
/// letters that it takes: two for zh, ch and sh, one for any other letter,
/// and none where the text is empty.
pub open spec fn onset(text: Seq<char>) -> (char, int) {
    if text.len() >= 2 && text[0] == 'z' && text[1] == 'h' {
        ('ẑ', 2)
    } else if text.len() >= 2 && text[0] == 'c' && text[1] == 'h' {
        ('ĉ', 2)
    } else if text.len() >= 2 && text[0] == 's' && text[1] == 'h' {
        ('ŝ', 2)
    } else if text.len() >= 1 {
        (text[0], 1)
    } else {
        (BLANK, 0)
    }
}

/// Reads `text` as a syllable that is read as a whole: without its tone
/// mark it is one of the sixteen, letter for letter.
pub open spec fn read_primitive(text: Seq<char>) -> Result<Sound, Error> {
    match split_tone(text) {
        Err(e) => Err(e),
        Ok((bare, tone)) => match Slots::parse(bare) {
            Some(letters) => if is_primitive(letters) {
                Ok(Sound::Primitive { letters, tone })
            } else {
                Err(Error::VariantMismatch)
            },
            None => Err(Error::VariantMismatch),
        },
    }
}

/// Reads `text` as an initial and a final: without its tone mark it begins
/// with an initial, and the rest is a final in its spelling after that
/// initial.
pub open spec fn read_normal(text: Seq<char>) -> Result<Sound, Error> {
    match split_tone(text) {
        Err(e) => Err(e),
        Ok((bare, tone)) => {
            let (initial, width) = onset(bare);
            if width == 0 || !is_initial(initial) {
                Err(Error::InvalidInitial)
            } else {
                match Slots::parse(bare.skip(width)) {
                    Some(w) => {
                        let rhyme = restore(initial, expand(w));
                        if is_rhyme(rhyme) {
                            Ok(Sound::Normal { initial, rhyme, tone })
                        } else {
                            Err(Error::InvalidRhyme)
                        }
                    },
                    None => Err(Error::InvalidRhyme),
                }
            }
        },
    }
}

/// Reads `text` as a final by itself: without its tone mark, and with a
/// last ŋ spelled out, it is a final, either as the inventory has it or in
/// its spelling with y or w.
pub open spec fn read_rhyme(text: Seq<char>) -> Result<Sound, Error> {
    match split_tone(text) {
        Err(e) => Err(e),
        Ok((bare, tone)) => match Slots::parse(with_final_ng(bare)) {
            Some(w) => {
                let rhyme = unprefix(w);
                if is_rhyme(rhyme) {
                    Ok(Sound::Rhyme { rhyme, tone })
                } else {
                    Err(Error::InvalidRhyme)
                }
            },
            None => Err(Error::InvalidRhyme),
        },
    }
}

/// Reads `text` as a nasal by itself: it is one of ń, ň, ǹ, ḿ and m̀, and
/// nothing else. Empty text is read as ḿ.
pub open spec fn read_nasal(text: Seq<char>) -> Result<Sound, Error> {
    if text.len() == 0 {
        Ok(Sound::Nasal { initial: 'm', tone: Tone::Second })
    } else if text.len() == 1 && text[0] == 'ḿ' {
        Ok(Sound::Nasal { initial: 'm', tone: Tone::Second })
    } else if text.len() == 1 && text[0] == 'ń' {
        Ok(Sound::Nasal { initial: 'n', tone: Tone::Second })
    } else if text.len() == 1 && text[0] == 'ň' {
        Ok(Sound::Nasal { initial: 'n', tone: Tone::Third })
    } else if text.len() == 1 && text[0] == 'ǹ' {
        Ok(Sound::Nasal { initial: 'n', tone: Tone::Fourth })
    } else if text.len() == 2 && text[0] == 'm' && text[1] == COMBINING_GRAVE {
        Ok(Sound::Nasal { initial: 'm', tone: Tone::Fourth })
    } else {
        Err(Error::VariantMismatch)
    }
}

/// Reads `text` as a syllable of the first kind that it can be read as: as
/// a whole, then as initial and final, then as a final, then as a nasal.
pub open spec fn read(text: Seq<char>) -> Result<Sound, Error> {
    if read_primitive(text) is Ok {
        read_primitive(text)
    } else if read_normal(text) is Ok {
        read_normal(text)
    } else if read_rhyme(text) is Ok {
        read_rhyme(text)
    } else if read_nasal(text) is Ok {
        read_nasal(text)
    } else {
        Err(Error::NoMatch)
    }
}

/// What every kind of syllable can tell and do.
pub trait Syllable: View<V = Sound> {
    /// The kind of the syllable.
    fn kind(&self) -> (k: SyllableKind)
        ensures
            k == self@.kind(),
    ;

    /// The initial, where the kind has one.
    fn initial(&self) -> (r: Option<Initial>)
        ensures
            r is Some <==> self@.initial() is Some,
            r matches Some(i) ==> self@.initial() == Some(i@) && i.wf(),
    ;

    /// The final, where the kind has one.
    fn finals(&self) -> (r: Option<Rhyme>)
        ensures
            r is Some <==> self@.finals() is Some,
            r matches Some(f) ==> self@.finals() == Some(f@) && f.wf(),
    ;

    /// Whether a letter of the syllable can carry a tone diacritic. Only then
    /// can the syllable be written.
    fn has_vowel(&self) -> (b: bool)
        ensures
            b == self@.has_vowel(),
    ;

    /// The letter that carries the tone.
    fn vowel(&self) -> (c: char)
        requires
            self@.has_vowel(),
        ensures
            c == self@.vowel(),
    ;

    /// The tone.
    fn tone(&self) -> (t: Tone)
        ensures
            t == self@.tone(),
    ;

    /// The letter that carries the tone together with the tone.
    fn tone_mark(&self) -> (m: ToneMark)
        requires
            self@.has_vowel(),
        ensures
            m@ == (self@.vowel(), self@.tone()),
            m.wf(),
    ;

    /// The syllable as it is written.
    fn to_string(&self) -> (s: String)
        requires
            self@.has_vowel(),
        ensures
            s@ == self@.text(),
    ;
}

/// Writes `w` with the diacritic of `tone` on the letter that carries it.
fn write_marked(w: &Slots, tone: Tone, out: &mut Vec<char>)
    requires
        tone_vowel(*w) is Ok,
    ensures
        final(out)@ == old(out)@ + mark(*w, tone).text(),
{
    let v = match Rhyme::tone_mark_rule_slots(w) {
        Ok(v) => v,
        Err(_) => unreached(),
    };
    let m = match ToneMark::new(v, tone) {
        Ok(m) => m,
        Err(_) => unreached(),
    };
    w.substitute(v, m.accent()).write(out)
}

/// One of the sixteen syllables that are read as a whole, in a tone.
#[derive(Debug, PartialEq, Eq, Copy, Clone)]
pub struct PrimitiveSyllable {
    primitive: Slots,
    vowel: char,
    tone: Tone,
}

impl View for PrimitiveSyllable {
    type V = Sound;

    closed spec fn view(&self) -> Sound {
        Sound::Primitive { letters: self.primitive, tone: self.tone }
    }
}

impl PrimitiveSyllable {
    /// The letters are of the table, and the vowel is the one that the
    /// table names for them.
    #[verifier::type_invariant]
    pub closed spec fn wf(self) -> bool {
        is_primitive(self.primitive) && self.vowel == primitive_vowel(self.primitive)
    }

    /// A well-formed syllable has a valid view.
    pub proof fn lemma_wf(self)
        requires
            self.wf(),
        ensures
            self@.valid(),
            self@ is Primitive,
    {
    }

    /// Two well-formed syllables with one view are equal.
    pub proof fn lemma_same_view(self, other: PrimitiveSyllable)
        requires
            self.wf(),
            other.wf(),
            self@ == other@,
        ensures
            self == other,
    {
    }

    /// The syllable that is written with the letters `chars`, in `tone`.
    pub fn new(chars: [char; 4], tone: Tone) -> (r: Result<PrimitiveSyllable, Error>)
        ensures
            r is Ok <==> is_primitive(Slots::of(chars)),
            r matches Ok(x) ==> x@ == (Sound::Primitive { letters: Slots::of(chars), tone })
                && x.wf(),
            r matches Err(e) ==> e == Error::VariantMismatch,
    {
        PrimitiveSyllable::from_slots(Slots::from_array(&chars), tone)
    }

    /// The syllable that is written with the letters `letters`, in `tone`.
    pub fn from_slots(letters: Slots, tone: Tone) -> (r: Result<PrimitiveSyllable, Error>)
        ensures
            r is Ok <==> is_primitive(letters),
            r matches Ok(x) ==> x@ == (Sound::Primitive { letters, tone }) && x.wf(),
            r matches Err(e) ==> e == Error::VariantMismatch,
    {
        let mut i: usize = 0;
        while i < 16
            invariant
                i <= 16,
                forall|j: int|
                    0 <= j < i ==> Slots::of((#[trigger] PRIMITIVE_SYLLABLE_TABLE[j]).0)
                        != letters,
            decreases 16 - i,
        {
            let row = PRIMITIVE_SYLLABLE_TABLE[i];
            if Slots::from_array(&row.0) == letters {
                return Ok(PrimitiveSyllable { primitive: letters, vowel: row.1, tone });
            }
            i += 1;
        }
        Err(Error::VariantMismatch)
    }

    /// Reads a syllable that is read as a whole.
    pub fn from_str(s: &str) -> (r: Result<PrimitiveSyllable, Error>)
        ensures
            r is Ok <==> read_primitive(s@) is Ok,
            r matches Ok(x) ==> read_primitive(s@) == Ok::<Sound, Error>(x@) && x.wf(),
            r matches Err(e) ==> read_primitive(s@) == Err::<Sound, Error>(e),
    {
        let text = chars_of(s);
        PrimitiveSyllable::from_chars(text.as_slice())
    }

    /// Reads a syllable that is read as a whole from its characters.
    pub fn from_chars(text: &[char]) -> (r: Result<PrimitiveSyllable, Error>)
        ensures
            r is Ok <==> read_primitive(text@) is Ok,
            r matches Ok(x) ==> read_primitive(text@) == Ok::<Sound, Error>(x@) && x.wf(),
            r matches Err(e) ==> read_primitive(text@) == Err::<Sound, Error>(e),
    {
        match ToneMark::split(text) {
            Err(e) => Err(e),
            Ok((bare, tone)) => match Slots::from_text(bare.as_slice()) {
                Some(letters) => PrimitiveSyllable::from_slots(letters, tone),
                None => Err(Error::VariantMismatch),
            },
        }
    }
}

impl Syllable for PrimitiveSyllable {
    fn kind(&self) -> (k: SyllableKind) {
        SyllableKind::Primitive
    }

    fn initial(&self) -> (r: Option<Initial>) {
        None
    }

    fn finals(&self) -> (r: Option<Rhyme>) {
        None
    }

    fn has_vowel(&self) -> (b: bool) {
        true
    }

    fn vowel(&self) -> (c: char) {
        proof {
            use_type_invariant(self);
        }
        self.vowel
    }

    fn tone(&self) -> (t: Tone) {
        self.tone
    }

    fn tone_mark(&self) -> (m: ToneMark) {
        proof {
            use_type_invariant(self);
        }
        match ToneMark::new(self.vowel, self.tone) {
            Ok(m) => m,
            Err(_) => unreached(),
        }
    }

    fn to_string(&self) -> (s: String) {
        let mut out: Vec<char> = Vec::new();
        let m = self.tone_mark();
        proof {
            use_type_invariant(self);
        }
        self.primitive.substitute(self.vowel, m.accent()).write(&mut out);
        string_of(out.as_slice())
    }
}

/// An initial and a final, in a tone.
#[derive(Debug, PartialEq, Eq, Copy, Clone)]
pub struct NormalSyllable {
    initial: Initial,
    rhyme: Rhyme,
    tone: Tone,
}

impl View for NormalSyllable {
    type V = Sound;

    closed spec fn view(&self) -> Sound {
        Sound::Normal { initial: self.initial@, rhyme: self.rhyme@, tone: self.tone }
    }
}

impl NormalSyllable {
    /// Initial and final are of their inventories.
    #[verifier::type_invariant]
    pub closed spec fn wf(self) -> bool {
        self.initial.wf() && self.rhyme.wf()
    }

    /// A well-formed syllable has a valid view.
    pub proof fn lemma_wf(self)
        requires
            self.wf(),
        ensures
            self@.valid(),
            self@ is Normal,
    {
    }

    /// Two syllables with one view are equal.
    pub proof fn lemma_same_view(self, other: NormalSyllable)
        requires
            self@ == other@,
        ensures
            self == other,
    {
        self.initial.lemma_same_view(other.initial);
        self.rhyme.lemma_same_view(other.rhyme);
    }

    /// The syllable of `initial` and `rhyme` in `tone`. Every initial goes
    /// with every final.
    pub fn new(initial: Initial, rhyme: Rhyme, tone: Tone) -> (r: Result<NormalSyllable, Error>)
        ensures
            r matches Ok(x) && x@ == (Sound::Normal { initial: initial@, rhyme: rhyme@, tone })
                && x.wf(),
    {
        proof {
            use_type_invariant(initial);
            use_type_invariant(rhyme);
        }
        Ok(NormalSyllable { initial, rhyme, tone })
    }

    /// Reads an initial and a final.
    pub fn from_str(s: &str) -> (r: Result<NormalSyllable, Error>)
        ensures
            r is Ok <==> read_normal(s@) is Ok,
            r matches Ok(x) ==> read_normal(s@) == Ok::<Sound, Error>(x@) && x.wf(),
            r matches Err(e) ==> read_normal(s@) == Err::<Sound, Error>(e),
    {
        let text = chars_of(s);
        NormalSyllable::from_chars(text.as_slice())
    }

    /// Reads an initial and a final from their characters.
    pub fn from_chars(text: &[char]) -> (r: Result<NormalSyllable, Error>)
        ensures
            r is Ok <==> read_normal(text@) is Ok,
            r matches Ok(x) ==> read_normal(text@) == Ok::<Sound, Error>(x@) && x.wf(),
            r matches Err(e) ==> read_normal(text@) == Err::<Sound, Error>(e),
    {
        let (bare, tone) = match ToneMark::split(text) {
            Err(e) => { return Err(e); },
            Ok(p) => p,
        };
        let n = bare.len();
        if n == 0 {
            return Err(Error::InvalidInitial);
        }
        let digraph = n >= 2 && bare[1] == 'h';
        let (symbol, width): (char, usize) = if digraph && bare[0] == 'z' {
            ('ẑ', 2)
        } else if digraph && bare[0] == 'c' {
            ('ĉ', 2)
        } else if digraph && bare[0] == 's' {
            ('ŝ', 2)
        } else {
            (bare[0], 1)
        };
        let initial = match Initial::new(symbol) {
            Err(e) => { return Err(e); },
            Ok(i) => i,
        };
        let rest = vstd::slice::slice_subrange(bare.as_slice(), width, n);
        let w = match Slots::from_text(rest) {
            None => { return Err(Error::InvalidRhyme); },
            Some(w) => w,
        };
        match Rhyme::from_slots(from_after_initial(w, &initial)) {
            Err(e) => Err(e),
            Ok(rhyme) => NormalSyllable::new(initial, rhyme, tone),
        }
    }
}

impl Syllable for NormalSyllable {
    fn kind(&self) -> (k: SyllableKind) {
        SyllableKind::Normal
    }

    fn initial(&self) -> (r: Option<Initial>) {
        proof {
            use_type_invariant(self);
        }
        Some(self.initial)
    }

    fn finals(&self) -> (r: Option<Rhyme>) {
        proof {
            use_type_invariant(self);
        }
        Some(self.rhyme)
    }

    fn has_vowel(&self) -> (b: bool) {
        self.rhyme.has_vowel()
    }

    fn vowel(&self) -> (c: char) {
        self.rhyme.vowel()
    }

    fn tone(&self) -> (t: Tone) {
        self.tone
    }

    fn tone_mark(&self) -> (m: ToneMark) {
        match ToneMark::new(self.rhyme.vowel(), self.tone) {
            Ok(m) => m,
            Err(_) => unreached(),
        }
    }

    fn to_string(&self) -> (s: String) {
        proof {
            use_type_invariant(self);
        }
        let mut out: Vec<char> = Vec::new();
        self.initial.write(&mut out);
        let w = after_initial(self.rhyme.slots(), &self.initial);
        write_marked(&w, self.tone, &mut out);
        string_of(out.as_slice())
    }
}

/// A final by itself, in a tone.
#[derive(Debug, PartialEq, Eq, Copy, Clone)]
pub struct RhymeSyllable {
    rhyme: Rhyme,
    tone: Tone,
}

impl View for RhymeSyllable {
    type V = Sound;

    closed spec fn view(&self) -> Sound {
        Sound::Rhyme { rhyme: self.rhyme@, tone: self.tone }
    }
}

impl RhymeSyllable {
    /// The final is of the inventory.
    #[verifier::type_invariant]
    pub closed spec fn wf(self) -> bool {
        self.rhyme.wf()
    }

    /// A well-formed syllable has a valid view.
    pub proof fn lemma_wf(self)
        requires
            self.wf(),
        ensures
            self@.valid(),
            self@ is Rhyme,
    {
    }

    /// Two syllables with one view are equal.
    pub proof fn lemma_same_view(self, other: RhymeSyllable)
        requires
            self@ == other@,
        ensures
            self == other,
    {
        self.rhyme.lemma_same_view(other.rhyme);
    }

    /// The syllable of `rhyme` in `tone`. Every final can stand alone.
    pub fn new(rhyme: Rhyme, tone: Tone) -> (r: Result<RhymeSyllable, Error>)
        ensures
            r matches Ok(x) && x@ == (Sound::Rhyme { rhyme: rhyme@, tone }) && x.wf(),
    {
        proof {
            use_type_invariant(rhyme);
        }
        Ok(RhymeSyllable { rhyme, tone })
    }

    /// Reads a final by itself.
    pub fn from_str(s: &str) -> (r: Result<RhymeSyllable, Error>)
        ensures
            r is Ok <==> read_rhyme(s@) is Ok,
            r matches Ok(x) ==> read_rhyme(s@) == Ok::<Sound, Error>(x@) && x.wf(),
            r matches Err(e) ==> read_rhyme(s@) == Err::<Sound, Error>(e),
    {
        let text = chars_of(s);
        RhymeSyllable::from_chars(text.as_slice())
    }

    /// Reads a final by itself from its characters.
    pub fn from_chars(text: &[char]) -> (r: Result<RhymeSyllable, Error>)
        ensures
            r is Ok <==> read_rhyme(text@) is Ok,
            r matches Ok(x) ==> read_rhyme(text@) == Ok::<Sound, Error>(x@) && x.wf(),
            r matches Err(e) ==> read_rhyme(text@) == Err::<Sound, Error>(e),
    {
        let (bare, tone) = match ToneMark::split(text) {
            Err(e) => { return Err(e); },
            Ok(p) => p,
        };
        let spelled = spell_final_ng(bare);
        let w = match Slots::from_text(spelled.as_slice()) {
            None => { return Err(Error::InvalidRhyme); },
            Some(w) => w,
        };
        match Rhyme::from_slots(from_alone(w)) {
            Err(e) => Err(e),
            Ok(rhyme) => RhymeSyllable::new(rhyme, tone),
        }
    }
}

impl Syllable for RhymeSyllable {
    fn kind(&self) -> (k: SyllableKind) {
        SyllableKind::Rhyme
    }

    fn initial(&self) -> (r: Option<Initial>) {
        None
    }

    fn finals(&self) -> (r: Option<Rhyme>) {
        proof {
            use_type_invariant(self);
        }
        Some(self.rhyme)
    }

    fn has_vowel(&self) -> (b: bool) {
        self.rhyme.has_vowel()
    }

    fn vowel(&self) -> (c: char) {
        self.rhyme.vowel()
    }

    fn tone(&self) -> (t: Tone) {
        self.tone
    }

    fn tone_mark(&self) -> (m: ToneMark) {
        match ToneMark::new(self.rhyme.vowel(), self.tone) {
            Ok(m) => m,
            Err(_) => unreached(),
        }
    }

    fn to_string(&self) -> (s: String) {
        proof {
            use_type_invariant(self);
        }
        let mut out: Vec<char> = Vec::new();
        let w = alone(self.rhyme.slots());
        write_marked(&w, self.tone, &mut out);
        string_of(out.as_slice())
    }
}

/// A nasal by itself, in a tone: one of the interjections ń, ň, ǹ, ḿ and
/// m̀.
#[derive(Debug, PartialEq, Eq, Copy, Clone)]
pub struct NasalSyllable {
    initial: Initial,
    tone: Tone,
}

impl View for NasalSyllable {
    type V = Sound;

    closed spec fn view(&self) -> Sound {
        Sound::Nasal { initial: self.initial@, tone: self.tone }
    }
}

impl NasalSyllable {
    /// The nasal is m or n, in a tone that it carries.
    #[verifier::type_invariant]
    pub closed spec fn wf(self) -> bool {
        is_nasal_syllable(self.initial@, self.tone)
    }

    /// A well-formed syllable has a valid view.
    pub proof fn lemma_wf(self)
        requires
            self.wf(),
        ensures
            self@.valid(),
            self@ is Nasal,
    {
    }

    /// Two syllables with one view are equal.
    pub proof fn lemma_same_view(self, other: NasalSyllable)
        requires
            self@ == other@,
        ensures
            self == other,
    {
        self.initial.lemma_same_view(other.initial);
    }

    /// The syllable of the nasal `initial` in `tone`: m in the second or
    /// fourth tone, n in the second, third or fourth.
    pub fn new(initial: Initial, tone: Tone) -> (r: Result<NasalSyllable, Error>)
        ensures
            r is Ok <==> is_nasal_syllable(initial@, tone),
            r matches Ok(x) ==> x@ == (Sound::Nasal { initial: initial@, tone }) && x.wf(),
            r matches Err(e) ==> e == Error::VariantMismatch,
    {
        let c = initial.symbol();
        if c == 'm' {
            if tone == Tone::Second || tone == Tone::Fourth {
                Ok(NasalSyllable { initial, tone })
            } else {
                Err(Error::VariantMismatch)
            }
        } else if c == 'n' {
            if tone == Tone::Second || tone == Tone::Third || tone == Tone::Fourth {
                Ok(NasalSyllable { initial, tone })
            } else {
                Err(Error::VariantMismatch)
            }
        } else {
            Err(Error::VariantMismatch)
        }
    }

    /// Reads a nasal by itself.
    pub fn from_str(s: &str) -> (r: Result<NasalSyllable, Error>)
        ensures
            r is Ok <==> read_nasal(s@) is Ok,
            r matches Ok(x) ==> read_nasal(s@) == Ok::<Sound, Error>(x@) && x.wf(),
            r matches Err(e) ==> read_nasal(s@) == Err::<Sound, Error>(e),
    {
        let text = chars_of(s);
        NasalSyllable::from_chars(text.as_slice())
    }

    /// Reads a nasal by itself from its characters.
    pub fn from_chars(text: &[char]) -> (r: Result<NasalSyllable, Error>)
        ensures
            r is Ok <==> read_nasal(text@) is Ok,
            r matches Ok(x) ==> read_nasal(text@) == Ok::<Sound, Error>(x@) && x.wf(),
            r matches Err(e) ==> read_nasal(text@) == Err::<Sound, Error>(e),
    {
        let n = text.len();
        if n == 0 {
            NasalSyllable::new(Initial::m(), Tone::Second)
        } else if n == 1 && text[0] == 'ḿ' {
            NasalSyllable::new(Initial::m(), Tone::Second)
        } else if n == 1 && text[0] == 'ń' {
            NasalSyllable::new(Initial::n(), Tone::Second)
        } else if n == 1 && text[0] == 'ň' {
            NasalSyllable::new(Initial::n(), Tone::Third)
        } else if n == 1 && text[0] == 'ǹ' {
            NasalSyllable::new(Initial::n(), Tone::Fourth)
        } else if n == 2 && text[0] == 'm' && text[1] == COMBINING_GRAVE {
            NasalSyllable::new(Initial::m(), Tone::Fourth)
        } else {
            Err(Error::VariantMismatch)
        }
    }
}

impl Syllable for NasalSyllable {
    fn kind(&self) -> (k: SyllableKind) {
        SyllableKind::Nasal
    }

    fn initial(&self) -> (r: Option<Initial>) {
        proof {
            use_type_invariant(self);
            use_type_invariant(self.initial);
        }
        Some(self.initial)
    }

    fn finals(&self) -> (r: Option<Rhyme>) {
        None
    }

    fn has_vowel(&self) -> (b: bool) {
        true
    }

    fn vowel(&self) -> (c: char) {
        self.initial.symbol()
    }

    fn tone(&self) -> (t: Tone) {
        self.tone
    }

    fn tone_mark(&self) -> (m: ToneMark) {
        proof {
            use_type_invariant(self);
        }
        match ToneMark::new(self.initial.symbol(), self.tone) {
            Ok(m) => m,
            Err(_) => unreached(),
        }
    }

    fn to_string(&self) -> (s: String) {
        self.tone_mark().to_string()
    }
}

/// A syllable of any of the four kinds.
#[derive(Debug, PartialEq, Eq, Copy, Clone)]
pub enum AnySyllable {
    /// A syllable that is read as a whole.
    Primitive(PrimitiveSyllable),
    /// An initial and a final.
    Normal(NormalSyllable),
    /// A final by itself.
    Rhyme(RhymeSyllable),
    /// A nasal by itself.
    Nasal(NasalSyllable),
}

impl View for AnySyllable {
    type V = Sound;

    open spec fn view(&self) -> Sound {
        match self {
            AnySyllable::Primitive(x) => x@,
            AnySyllable::Normal(x) => x@,
            AnySyllable::Rhyme(x) => x@,
            AnySyllable::Nasal(x) => x@,
        }
    }
}

impl AnySyllable {
    /// The syllable inside is well-formed.
    pub open spec fn wf(self) -> bool {
        match self {
            AnySyllable::Primitive(x) => x.wf(),
            AnySyllable::Normal(x) => x.wf(),
            AnySyllable::Rhyme(x) => x.wf(),
            AnySyllable::Nasal(x) => x.wf(),
        }
    }

    /// A well-formed syllable has a valid view, of the kind of its variant.
    pub proof fn lemma_wf(self)
        requires
            self.wf(),
        ensures
            self@.valid(),
            self is Primitive <==> self@ is Primitive,
            self is Normal <==> self@ is Normal,
            self is Rhyme <==> self@ is Rhyme,
            self is Nasal <==> self@ is Nasal,
    {
        match self {
            AnySyllable::Primitive(x) => x.lemma_wf(),
            AnySyllable::Normal(x) => x.lemma_wf(),
            AnySyllable::Rhyme(x) => x.lemma_wf(),
            AnySyllable::Nasal(x) => x.lemma_wf(),
        }
    }
}

impl AnySyllable {
    /// Two well-formed syllables of one kind with one view are equal.
    pub proof fn lemma_same_view(self, other: AnySyllable)
        requires
            self.wf(),
            other.wf(),
            self@ == other@,
        ensures
            self == other,
    {
        match (self, other) {
            (AnySyllable::Primitive(a), AnySyllable::Primitive(b)) => a.lemma_same_view(b),
            (AnySyllable::Normal(a), AnySyllable::Normal(b)) => a.lemma_same_view(b),
            (AnySyllable::Rhyme(a), AnySyllable::Rhyme(b)) => a.lemma_same_view(b),
            (AnySyllable::Nasal(a), AnySyllable::Nasal(b)) => a.lemma_same_view(b),
            _ => {},
        }
    }
}

impl Syllable for AnySyllable {
    fn kind(&self) -> (k: SyllableKind) {
        match self {
            AnySyllable::Primitive(x) => x.kind(),
            AnySyllable::Normal(x) => x.kind(),
            AnySyllable::Rhyme(x) => x.kind(),
            AnySyllable::Nasal(x) => x.kind(),
        }
    }

    fn initial(&self) -> (r: Option<Initial>) {
        match self {
            AnySyllable::Primitive(x) => x.initial(),
            AnySyllable::Normal(x) => x.initial(),
            AnySyllable::Rhyme(x) => x.initial(),
            AnySyllable::Nasal(x) => x.initial(),
        }
    }

    fn finals(&self) -> (r: Option<Rhyme>) {
        match self {
            AnySyllable::Primitive(x) => x.finals(),
            AnySyllable::Normal(x) => x.finals(),
            AnySyllable::Rhyme(x) => x.finals(),
            AnySyllable::Nasal(x) => x.finals(),
        }
    }

    fn has_vowel(&self) -> (b: bool) {
        match self {
            AnySyllable::Primitive(x) => x.has_vowel(),
            AnySyllable::Normal(x) => x.has_vowel(),
            AnySyllable::Rhyme(x) => x.has_vowel(),
            AnySyllable::Nasal(x) => x.has_vowel(),
        }
    }

    fn vowel(&self) -> (c: char) {
        match self {
            AnySyllable::Primitive(x) => x.vowel(),
            AnySyllable::Normal(x) => x.vowel(),
            AnySyllable::Rhyme(x) => x.vowel(),
            AnySyllable::Nasal(x) => x.vowel(),
        }
    }

    fn tone(&self) -> (t: Tone) {
        match self {
            AnySyllable::Primitive(x) => x.tone(),
            AnySyllable::Normal(x) => x.tone(),
            AnySyllable::Rhyme(x) => x.tone(),
            AnySyllable::Nasal(x) => x.tone(),
        }
    }

    fn tone_mark(&self) -> (m: ToneMark) {
        match self {
            AnySyllable::Primitive(x) => x.tone_mark(),
            AnySyllable::Normal(x) => x.tone_mark(),
            AnySyllable::Rhyme(x) => x.tone_mark(),
            AnySyllable::Nasal(x) => x.tone_mark(),
        }
    }

    fn to_string(&self) -> (s: String) {
        match self {
            AnySyllable::Primitive(x) => x.to_string(),
            AnySyllable::Normal(x) => x.to_string(),
            AnySyllable::Rhyme(x) => x.to_string(),
            AnySyllable::Nasal(x) => x.to_string(),
        }
    }
}

/// Reads a syllable of any kind. The kinds are tried in a fixed order: read
/// as a whole, initial and final, final alone, nasal alone; the first that
/// reads the text decides. The order matters, for some of the syllables
/// that are read as a whole could also be taken apart.
pub fn from_str(s: &str) -> (r: Result<AnySyllable, Error>)
    ensures
        r is Ok <==> read(s@) is Ok,
        r matches Ok(x) ==> read(s@) == Ok::<Sound, Error>(x@) && x.wf(),
        r matches Err(e) ==> e == Error::NoMatch,
{
    let text = chars_of(s);
    if let Ok(x) = PrimitiveSyllable::from_chars(text.as_slice()) {
        Ok(AnySyllable::Primitive(x))
    } else if let Ok(x) = NormalSyllable::from_chars(text.as_slice()) {
        Ok(AnySyllable::Normal(x))
    } else if let Ok(x) = RhymeSyllable::from_chars(text.as_slice()) {
        Ok(AnySyllable::Rhyme(x))
    } else if let Ok(x) = NasalSyllable::from_chars(text.as_slice()) {
        Ok(AnySyllable::Nasal(x))
    } else {
        Err(Error::NoMatch)
    }
}

} // verus!
