//! The final of a syllable: its vowels and its coda.
//!
//! The inventory follows the scheme's table of finals, with two of its
//! entries spelled out in full: what the scheme writes "un" is the final
//! "uen", and "iu" and "ui" are "iou" and "uei". The short spellings are
//! written only after an initial.

use crate::error::Error;
use crate::text::{string_of, Slots, BLANK};
use vstd::pervasive::unreached;
use vstd::prelude::*;

verus! {

/// The finals that begin with none of i, u and ü.
pub const RHYME_TABLE_COLUMN_A: [[char; 4]; 14] = [
    ['a', ' ', ' ', ' '], ['o', ' ', ' ', ' '], ['e', ' ', ' ', ' '],
    ['ê', ' ', ' ', ' '], ['e', 'r', ' ', ' '], ['a', 'i', ' ', ' '],
    ['e', 'i', ' ', ' '], ['a', 'o', ' ', ' '], ['o', 'u', ' ', ' '],
    ['a', 'n', ' ', ' '], ['e', 'n', ' ', ' '], ['a', 'n', 'g', ' '],
    ['e', 'n', 'g', ' '], ['o', 'n', 'g', ' '],
];

/// The finals that begin with i.
pub const RHYME_TABLE_COLUMN_I: [[char; 4]; 10] = [
    ['i', ' ', ' ', ' '], ['i', 'a', ' ', ' '], ['i', 'e', ' ', ' '],
    ['i', 'a', 'o', ' '], ['i', 'o', 'u', ' '], ['i', 'a', 'n', ' '],
    ['i', 'n', ' ', ' '], ['i', 'a', 'n', 'g'], ['i', 'n', 'g', ' '],
    ['i', 'o', 'n', 'g'],
];

/// The finals that begin with u.
pub const RHYME_TABLE_COLUMN_U: [[char; 4]; 9] = [
    ['u', ' ', ' ', ' '], ['u', 'a', ' ', ' '], ['u', 'o', ' ', ' '],
    ['u', 'a', 'i', ' '], ['u', 'e', 'i', ' '], ['u', 'a', 'n', ' '],
    ['u', 'e', 'n', ' '], ['u', 'a', 'n', 'g'], ['u', 'e', 'n', 'g'],
];

/// The finals that begin with ü.
pub const RHYME_TABLE_COLUMN_YU: [[char; 4]; 4] = [
    ['ü', ' ', ' ', ' '], ['ü', 'e', ' ', ' '], ['ü', 'a', 'n', ' '],
    ['ü', 'n', ' ', ' '],
];

/// All thirty-seven finals, column by column. The table is not sorted.
pub const RHYME_TABLE: [[char; 4]; 37] = [
    ['a', ' ', ' ', ' '], ['o', ' ', ' ', ' '], ['e', ' ', ' ', ' '],
    ['ê', ' ', ' ', ' '], ['e', 'r', ' ', ' '], ['a', 'i', ' ', ' '],
    ['e', 'i', ' ', ' '], ['a', 'o', ' ', ' '], ['o', 'u', ' ', ' '],
    ['a', 'n', ' ', ' '], ['e', 'n', ' ', ' '], ['a', 'n', 'g', ' '],
    ['e', 'n', 'g', ' '], ['o', 'n', 'g', ' '],
    ['i', ' ', ' ', ' '], ['i', 'a', ' ', ' '], ['i', 'e', ' ', ' '],
    ['i', 'a', 'o', ' '], ['i', 'o', 'u', ' '], ['i', 'a', 'n', ' '],
    ['i', 'n', ' ', ' '], ['i', 'a', 'n', 'g'], ['i', 'n', 'g', ' '],
    ['i', 'o', 'n', 'g'],
    ['u', ' ', ' ', ' '], ['u', 'a', ' ', ' '], ['u', 'o', ' ', ' '],
    ['u', 'a', 'i', ' '], ['u', 'e', 'i', ' '], ['u', 'a', 'n', ' '],
    ['u', 'e', 'n', ' '], ['u', 'a', 'n', 'g'], ['u', 'e', 'n', 'g'],
    ['ü', ' ', ' ', ' '], ['ü', 'e', ' ', ' '], ['ü', 'a', 'n', ' '],
    ['ü', 'n', ' ', ' '],
];

/// The finals with a single vowel sound.
pub const SIMPLE_VOWEL_RHYME_TABLE: [[char; 4]; 13] = [
    ['a', ' ', ' ', ' '], ['o', ' ', ' ', ' '], ['e', ' ', ' ', ' '],
    ['ê', ' ', ' ', ' '], ['e', 'r', ' ', ' '], ['i', ' ', ' ', ' '],
    ['i', 'a', ' ', ' '], ['i', 'e', ' ', ' '], ['u', ' ', ' ', ' '],
    ['u', 'a', ' ', ' '], ['u', 'o', ' ', ' '], ['ü', ' ', ' ', ' '],
    ['ü', 'e', ' ', ' '],
];

/// The finals that are diphthongs or triphthongs.
pub const COMPOUND_VOWEL_RHYME_TABLE: [[char; 4]; 8] = [
    ['a', 'i', ' ', ' '], ['a', 'o', ' ', ' '], ['e', 'i', ' ', ' '],
    ['i', 'a', 'o', ' '], ['i', 'o', 'u', ' '], ['o', 'u', ' ', ' '],
    ['u', 'a', 'i', ' '], ['u', 'e', 'i', ' '],
];

/// Whether `s` is a final that begins with none of i, u and ü.
pub open spec fn is_plain_rhyme(s: Slots) -> bool {
    match (s.c0, s.c1, s.c2, s.c3) {
        ('a', ' ', ' ', ' ') | ('o', ' ', ' ', ' ') | ('e', ' ', ' ', ' ') => true,
        ('ê', ' ', ' ', ' ') | ('e', 'r', ' ', ' ') | ('a', 'i', ' ', ' ') => true,
        ('e', 'i', ' ', ' ') | ('a', 'o', ' ', ' ') | ('o', 'u', ' ', ' ') => true,
        ('a', 'n', ' ', ' ') | ('e', 'n', ' ', ' ') | ('a', 'n', 'g', ' ') => true,
        ('e', 'n', 'g', ' ') | ('o', 'n', 'g', ' ') => true,
        _ => false,
    }
}

/// Whether `s` is a final that begins with i.
pub open spec fn is_i_rhyme(s: Slots) -> bool {
    match (s.c0, s.c1, s.c2, s.c3) {
        ('i', ' ', ' ', ' ') | ('i', 'a', ' ', ' ') | ('i', 'e', ' ', ' ') => true,
        ('i', 'a', 'o', ' ') | ('i', 'o', 'u', ' ') | ('i', 'a', 'n', ' ') => true,
        ('i', 'n', ' ', ' ') | ('i', 'a', 'n', 'g') | ('i', 'n', 'g', ' ') => true,
        ('i', 'o', 'n', 'g') => true,
        _ => false,
    }
}

/// Whether `s` is a final that begins with u.
pub open spec fn is_u_rhyme(s: Slots) -> bool {
    match (s.c0, s.c1, s.c2, s.c3) {
        ('u', ' ', ' ', ' ') | ('u', 'a', ' ', ' ') | ('u', 'o', ' ', ' ') => true,
        ('u', 'a', 'i', ' ') | ('u', 'e', 'i', ' ') | ('u', 'a', 'n', ' ') => true,
        ('u', 'e', 'n', ' ') | ('u', 'a', 'n', 'g') | ('u', 'e', 'n', 'g') => true,
        _ => false,
    }
}

/// Whether `s` is a final that begins with ü.
pub open spec fn is_yu_rhyme(s: Slots) -> bool {
    match (s.c0, s.c1, s.c2, s.c3) {
        ('ü', ' ', ' ', ' ') | ('ü', 'e', ' ', ' ') | ('ü', 'a', 'n', ' ') => true,
        ('ü', 'n', ' ', ' ') => true,
        _ => false,
    }
}

/// Whether `s` is one of the thirty-seven finals: slot for slot, with no
/// letter missing, added or moved.
pub open spec fn is_rhyme(s: Slots) -> bool {
    is_plain_rhyme(s) || is_i_rhyme(s) || is_u_rhyme(s) || is_yu_rhyme(s)
}

/// Whether `s` is a final with a single vowel sound.
pub open spec fn is_simple_rhyme(s: Slots) -> bool {
    match (s.c0, s.c1, s.c2, s.c3) {
        ('a', ' ', ' ', ' ') | ('o', ' ', ' ', ' ') | ('e', ' ', ' ', ' ') => true,
        ('ê', ' ', ' ', ' ') | ('e', 'r', ' ', ' ') | ('i', ' ', ' ', ' ') => true,
        ('i', 'a', ' ', ' ') | ('i', 'e', ' ', ' ') | ('u', ' ', ' ', ' ') => true,
        ('u', 'a', ' ', ' ') | ('u', 'o', ' ', ' ') | ('ü', ' ', ' ', ' ') => true,
        ('ü', 'e', ' ', ' ') => true,
        _ => false,
    }
}

/// Whether `s` is a final that is a diphthong or a triphthong.
pub open spec fn is_compound_rhyme(s: Slots) -> bool {
    match (s.c0, s.c1, s.c2, s.c3) {
        ('a', 'i', ' ', ' ') | ('a', 'o', ' ', ' ') | ('e', 'i', ' ', ' ') => true,
        ('i', 'a', 'o', ' ') | ('i', 'o', 'u', ' ') | ('o', 'u', ' ', ' ') => true,
        ('u', 'a', 'i', ' ') | ('u', 'e', 'i', ' ') => true,
        _ => false,
    }
}

/// The last letter of `s`: what its last slot that is not blank holds. It is
/// a blank where all four are.
pub open spec fn last_letter(s: Slots) -> char {
    if s.c3 != BLANK {
        s.c3
    } else if s.c2 != BLANK {
        s.c2
    } else if s.c1 != BLANK {
        s.c1
    } else {
        s.c0
    }
}

/// Whether `s` ends in n or g.
pub open spec fn ends_nasal(s: Slots) -> bool {
    last_letter(s) == 'n' || last_letter(s) == 'g'
}

/// The first slot of `s` that holds `c`, counted from 0; 4 where none does.
pub open spec fn first_slot(s: Slots, c: char) -> int {
    if s.c0 == c {
        0
    } else if s.c1 == c {
        1
    } else if s.c2 == c {
        2
    } else if s.c3 == c {
        3
    } else {
        4
    }
}

/// The letter of `s` that carries the tone diacritic. The cases are tried
/// in this order, and the order decides:
///
/// 1. `a` wherever there is one;
/// 2. `o` or `e`, which never stand together;
/// 3. `ü`, which never stands with `i` or `u`;
/// 4. of `i` and `u` together the one that comes later;
/// 5. `i` or `u` alone.
pub open spec fn tone_vowel(s: Slots) -> Result<char, Error> {
    if s.has('a') {
        Ok('a')
    } else if s.has('o') && s.has('e') {
        Err(Error::OAndEConflict)
    } else if s.has('o') {
        Ok('o')
    } else if s.has('e') {
        Ok('e')
    } else if s.has('ü') {
        if s.has('i') || s.has('u') {
            Err(Error::UmlautConflict)
        } else {
            Ok('ü')
        }
    } else if s.has('i') && s.has('u') {
        if first_slot(s, 'u') > first_slot(s, 'i') {
            Ok('u')
        } else {
            Ok('i')
        }
    } else if s.has('i') {
        Ok('i')
    } else if s.has('u') {
        Ok('u')
    } else {
        Err(Error::NoVowelToMark)
    }
}

/// Whether some row of `table` holds the letters of `s`.
pub open spec fn in_rows(table: Seq<[char; 4]>, s: Slots) -> bool {
    exists|i: int| 0 <= i < table.len() && Slots::of(#[trigger] table[i]) == s
}

/// Looks `s` up in `table` by a linear scan.
pub fn lookup(table: &[[char; 4]], s: &Slots) -> (b: bool)
    ensures
        b == in_rows(table@, *s),
{
    let mut i: usize = 0;
    while i < table.len()
        invariant
            i <= table@.len(),
            forall|j: int| 0 <= j < i ==> Slots::of(#[trigger] table@[j]) != *s,
        decreases table@.len() - i,
    {
        let row = Slots::from_array(&table[i]);
        if row == *s {
            return true;
        }
        i += 1;
    }
    false
}

/// The first slot of `s` that holds `c`.
fn search(s: &Slots, c: char) -> (r: Option<usize>)
    ensures
        r is Some <==> s.has(c),
        r matches Some(i) ==> i == first_slot(*s, c),
{
    if s.c0 == c {
        Some(0)
    } else if s.c1 == c {
        Some(1)
    } else if s.c2 == c {
        Some(2)
    } else if s.c3 == c {
        Some(3)
    } else {
        None
    }
}

/// A final. Its view is its four slots.
#[derive(Debug, PartialEq, Eq, Copy, Clone, Structural)]
pub struct Rhyme {
    slots: Slots,
}

impl View for Rhyme {
    type V = Slots;

    closed spec fn view(&self) -> Slots {
        self.slots
    }
}

impl Rhyme {
    /// Every final is a row of the inventory.
    #[verifier::type_invariant]
    pub open spec fn wf(self) -> bool {
        is_rhyme(self@)
    }

    /// Two finals with the same slots are equal.
    pub proof fn lemma_same_view(self, other: Rhyme)
        requires
            self@ == other@,
        ensures
            self == other,
    {
    }

    /// The final whose slots hold `chars`.
    pub fn new(chars: [char; 4]) -> (r: Result<Rhyme, Error>)
        ensures
            r is Ok <==> is_rhyme(Slots::of(chars)),
            r matches Ok(rhyme) ==> rhyme@ == Slots::of(chars) && rhyme.wf(),
            r matches Err(e) ==> e == Error::InvalidRhyme,
    {
        Rhyme::from_slots(Slots::from_array(&chars))
    }

    /// The final with the slots `s`.
    pub fn from_slots(s: Slots) -> (r: Result<Rhyme, Error>)
        ensures
            r is Ok <==> is_rhyme(s),
            r matches Ok(rhyme) ==> rhyme@ == s && rhyme.wf(),
            r matches Err(e) ==> e == Error::InvalidRhyme,
    {
        if lookup(RHYME_TABLE.as_slice(), &s) {
            Ok(Rhyme { slots: s })
        } else {
            Err(Error::InvalidRhyme)
        }
    }

    /// Decides which letter of `rhyme` carries the tone diacritic. The slots
    /// need not be a final of the inventory.
    pub fn tone_mark_rule(rhyme: &[char; 4]) -> (r: Result<char, Error>)
        ensures
            r == tone_vowel(Slots::of(*rhyme)),
    {
        Rhyme::tone_mark_rule_slots(&Slots::from_array(rhyme))
    }

    /// Decides which letter of `s` carries the tone diacritic.
    pub fn tone_mark_rule_slots(s: &Slots) -> (r: Result<char, Error>)
        ensures
            r == tone_vowel(*s),
    {
        if s.contains('a') {
            return Ok('a');
        }
        if s.contains('o') && s.contains('e') {
            return Err(Error::OAndEConflict);
        }
        if s.contains('o') {
            return Ok('o');
        }
        if s.contains('e') {
            return Ok('e');
        }
        let pos_yu = search(s, 'ü');
        let pos_i = search(s, 'i');
        let pos_u = search(s, 'u');
        if pos_yu.is_some() {
            if pos_i.is_some() || pos_u.is_some() {
                return Err(Error::UmlautConflict);
            }
            return Ok('ü');
        }
        match (pos_i, pos_u) {
            (Some(i), Some(u)) => if u > i {
                Ok('u')
            } else {
                Ok('i')
            },
            (Some(_), None) => Ok('i'),
            (None, Some(_)) => Ok('u'),
            (None, None) => Err(Error::NoVowelToMark),
        }
    }

    /// The four slots of the final.
    pub fn slots(&self) -> (s: Slots)
        ensures
            s == self@,
            is_rhyme(s),
    {
        proof {
            use_type_invariant(self);
        }
        self.slots
    }

    /// Whether a letter of the final can carry a tone diacritic. Of the
    /// whole inventory only ê has none.
    pub fn has_vowel(&self) -> (b: bool)
        ensures
            b == tone_vowel(self@) is Ok,
    {
        Rhyme::tone_mark_rule_slots(&self.slots).is_ok()
    }

    /// The letter of the final that carries the tone diacritic.
    pub fn vowel(&self) -> (c: char)
        requires
            tone_vowel(self@) is Ok,
        ensures
            tone_vowel(self@) == Ok::<char, Error>(c),
    {
        match Rhyme::tone_mark_rule_slots(&self.slots) {
            Ok(c) => c,
            Err(_) => unreached(),
        }
    }

    /// Whether the final has a single vowel sound.
    pub fn is_simple(&self) -> (b: bool)
        ensures
            b == is_simple_rhyme(self@),
    {
        lookup(SIMPLE_VOWEL_RHYME_TABLE.as_slice(), &self.slots)
    }

    /// Whether the final is a diphthong or a triphthong.
    pub fn is_compound(&self) -> (b: bool)
        ensures
            b == is_compound_rhyme(self@),
    {
        lookup(COMPOUND_VOWEL_RHYME_TABLE.as_slice(), &self.slots)
    }

    /// Whether the final ends in a nasal: its last letter is n or g.
    pub fn is_nasal(&self) -> (b: bool)
        ensures
            b == ends_nasal(self@),
    {
        let s = &self.slots;
        let last = if s.c3 != BLANK {
            s.c3
        } else if s.c2 != BLANK {
            s.c2
        } else if s.c1 != BLANK {
            s.c1
        } else {
            s.c0
        };
        last == 'n' || last == 'g'
    }

    /// The final as it is written by itself: its letters without the
    /// blanks.
    pub fn to_string(&self) -> (s: String)
        ensures
            s@ == self@.text(),
    {
        let mut out: Vec<char> = Vec::new();
        self.slots.write(&mut out);
        string_of(out.as_slice())
    }
}

} // verus!
