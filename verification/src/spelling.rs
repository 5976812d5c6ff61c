//! How a final is written: short after an initial, with y or w where it
//! stands alone, and without the dots of ü after j, q and x.
//!
//! Each rule is a table of pairs, the final on the left and its written
//! form on the right. A rule applies to a whole final and never to a part
//! of one.

use crate::initial::{is_palatal, Initial};
use crate::text::Slots;
use vstd::prelude::*;

verus! {

/// After an initial, iou, uei and uen are written iu, ui and un.
pub const CONTRACTION_TABLE: [([char; 4], [char; 4]); 3] = [
    (['i', 'o', 'u', ' '], ['i', 'u', ' ', ' ']),
    (['u', 'e', 'i', ' '], ['u', 'i', ' ', ' ']),
    (['u', 'e', 'n', ' '], ['u', 'n', ' ', ' ']),
];

/// After j, q and x, ü and üe are written u and ue.
pub const ELISION_TABLE: [([char; 4], [char; 4]); 2] = [
    (['ü', ' ', ' ', ' '], ['u', ' ', ' ', ' ']),
    (['ü', 'e', ' ', ' '], ['u', 'e', ' ', ' ']),
];

/// Without an initial, the finals that begin with i, u and ü are written
/// with y and w.
pub const ZERO_INITIAL_TABLE: [([char; 4], [char; 4]); 23] = [
    (['i', ' ', ' ', ' '], ['y', 'i', ' ', ' ']),
    (['i', 'a', ' ', ' '], ['y', 'a', ' ', ' ']),
    (['i', 'e', ' ', ' '], ['y', 'e', ' ', ' ']),
    (['i', 'a', 'o', ' '], ['y', 'a', 'o', ' ']),
    (['i', 'o', 'u', ' '], ['y', 'o', 'u', ' ']),
    (['i', 'a', 'n', ' '], ['y', 'a', 'n', ' ']),
    (['i', 'n', ' ', ' '], ['y', 'i', 'n', ' ']),
    (['i', 'a', 'n', 'g'], ['y', 'a', 'n', 'g']),
    (['i', 'n', 'g', ' '], ['y', 'i', 'n', 'g']),
    (['i', 'o', 'n', 'g'], ['y', 'o', 'n', 'g']),
    (['u', ' ', ' ', ' '], ['w', 'u', ' ', ' ']),
    (['u', 'a', ' ', ' '], ['w', 'a', ' ', ' ']),
    (['u', 'o', ' ', ' '], ['w', 'o', ' ', ' ']),
    (['u', 'a', 'i', ' '], ['w', 'a', 'i', ' ']),
    (['u', 'e', 'i', ' '], ['w', 'e', 'i', ' ']),
    (['u', 'a', 'n', ' '], ['w', 'a', 'n', ' ']),
    (['u', 'e', 'n', ' '], ['w', 'e', 'n', ' ']),
    (['u', 'a', 'n', 'g'], ['w', 'a', 'n', 'g']),
    (['u', 'e', 'n', 'g'], ['w', 'e', 'n', 'g']),
    (['ü', ' ', ' ', ' '], ['y', 'u', ' ', ' ']),
    (['ü', 'e', ' ', ' '], ['y', 'u', 'e', ' ']),
    (['ü', 'a', 'n', ' '], ['y', 'u', 'a', 'n']),
    (['ü', 'n', ' ', ' '], ['y', 'u', 'n', ' ']),
];

/// The letter ŋ, an older way to write ng.
pub const ENG: char = 'ŋ';

/// Four slots filled with the given letters.
pub open spec fn slots(c0: char, c1: char, c2: char, c3: char) -> Slots {
    Slots { c0, c1, c2, c3 }
}

/// The short spelling of `s` after an initial.
pub open spec fn contract(s: Slots) -> Slots {
    match (s.c0, s.c1, s.c2, s.c3) {
        ('i', 'o', 'u', ' ') => slots('i', 'u', ' ', ' '),
        ('u', 'e', 'i', ' ') => slots('u', 'i', ' ', ' '),
        ('u', 'e', 'n', ' ') => slots('u', 'n', ' ', ' '),
        _ => s,
    }
}

/// The final that is spelled `s` after an initial.
pub open spec fn expand(s: Slots) -> Slots {
    match (s.c0, s.c1, s.c2, s.c3) {
        ('i', 'u', ' ', ' ') => slots('i', 'o', 'u', ' '),
        ('u', 'i', ' ', ' ') => slots('u', 'e', 'i', ' '),
        ('u', 'n', ' ', ' ') => slots('u', 'e', 'n', ' '),
        _ => s,
    }
}

/// `s` as it is written after `initial`: ü and üe lose their dots after j,
/// q and x.
pub open spec fn elide(initial: char, s: Slots) -> Slots {
    if is_palatal(initial) {
        match (s.c0, s.c1, s.c2, s.c3) {
            ('ü', ' ', ' ', ' ') => slots('u', ' ', ' ', ' '),
            ('ü', 'e', ' ', ' ') => slots('u', 'e', ' ', ' '),
            _ => s,
        }
    } else {
        s
    }
}

/// The final that is written `s` after `initial`: after j, q and x, u and
/// ue stand for ü and üe.
pub open spec fn restore(initial: char, s: Slots) -> Slots {
    if is_palatal(initial) {
        match (s.c0, s.c1, s.c2, s.c3) {
            ('u', ' ', ' ', ' ') => slots('ü', ' ', ' ', ' '),
            ('u', 'e', ' ', ' ') => slots('ü', 'e', ' ', ' '),
            _ => s,
        }
    } else {
        s
    }
}

/// `s` as it is written without an initial.
pub open spec fn prefix(s: Slots) -> Slots {
    match (s.c0, s.c1, s.c2, s.c3) {
        ('i', ' ', ' ', ' ') => slots('y', 'i', ' ', ' '),
        ('i', 'a', ' ', ' ') => slots('y', 'a', ' ', ' '),
        ('i', 'e', ' ', ' ') => slots('y', 'e', ' ', ' '),
        ('i', 'a', 'o', ' ') => slots('y', 'a', 'o', ' '),
        ('i', 'o', 'u', ' ') => slots('y', 'o', 'u', ' '),
        ('i', 'a', 'n', ' ') => slots('y', 'a', 'n', ' '),
        ('i', 'n', ' ', ' ') => slots('y', 'i', 'n', ' '),
        ('i', 'a', 'n', 'g') => slots('y', 'a', 'n', 'g'),
        ('i', 'n', 'g', ' ') => slots('y', 'i', 'n', 'g'),
        ('i', 'o', 'n', 'g') => slots('y', 'o', 'n', 'g'),
        ('u', ' ', ' ', ' ') => slots('w', 'u', ' ', ' '),
        ('u', 'a', ' ', ' ') => slots('w', 'a', ' ', ' '),
        ('u', 'o', ' ', ' ') => slots('w', 'o', ' ', ' '),
        ('u', 'a', 'i', ' ') => slots('w', 'a', 'i', ' '),
        ('u', 'e', 'i', ' ') => slots('w', 'e', 'i', ' '),
        ('u', 'a', 'n', ' ') => slots('w', 'a', 'n', ' '),
        ('u', 'e', 'n', ' ') => slots('w', 'e', 'n', ' '),
        ('u', 'a', 'n', 'g') => slots('w', 'a', 'n', 'g'),
        ('u', 'e', 'n', 'g') => slots('w', 'e', 'n', 'g'),
        ('ü', ' ', ' ', ' ') => slots('y', 'u', ' ', ' '),
        ('ü', 'e', ' ', ' ') => slots('y', 'u', 'e', ' '),
        ('ü', 'a', 'n', ' ') => slots('y', 'u', 'a', 'n'),
        ('ü', 'n', ' ', ' ') => slots('y', 'u', 'n', ' '),
        _ => s,
    }
}

/// The final that is written `s` without an initial.
pub open spec fn unprefix(s: Slots) -> Slots {
    match (s.c0, s.c1, s.c2, s.c3) {
        ('y', 'i', ' ', ' ') => slots('i', ' ', ' ', ' '),
        ('y', 'a', ' ', ' ') => slots('i', 'a', ' ', ' '),
        ('y', 'e', ' ', ' ') => slots('i', 'e', ' ', ' '),
        ('y', 'a', 'o', ' ') => slots('i', 'a', 'o', ' '),
        ('y', 'o', 'u', ' ') => slots('i', 'o', 'u', ' '),
        ('y', 'a', 'n', ' ') => slots('i', 'a', 'n', ' '),
        ('y', 'i', 'n', ' ') => slots('i', 'n', ' ', ' '),
        ('y', 'a', 'n', 'g') => slots('i', 'a', 'n', 'g'),
        ('y', 'i', 'n', 'g') => slots('i', 'n', 'g', ' '),
        ('y', 'o', 'n', 'g') => slots('i', 'o', 'n', 'g'),
        ('w', 'u', ' ', ' ') => slots('u', ' ', ' ', ' '),
        ('w', 'a', ' ', ' ') => slots('u', 'a', ' ', ' '),
        ('w', 'o', ' ', ' ') => slots('u', 'o', ' ', ' '),
        ('w', 'a', 'i', ' ') => slots('u', 'a', 'i', ' '),
        ('w', 'e', 'i', ' ') => slots('u', 'e', 'i', ' '),
        ('w', 'a', 'n', ' ') => slots('u', 'a', 'n', ' '),
        ('w', 'e', 'n', ' ') => slots('u', 'e', 'n', ' '),
        ('w', 'a', 'n', 'g') => slots('u', 'a', 'n', 'g'),
        ('w', 'e', 'n', 'g') => slots('u', 'e', 'n', 'g'),
        ('y', 'u', ' ', ' ') => slots('ü', ' ', ' ', ' '),
        ('y', 'u', 'e', ' ') => slots('ü', 'e', ' ', ' '),
        ('y', 'u', 'a', 'n') => slots('ü', 'a', 'n', ' '),
        ('y', 'u', 'n', ' ') => slots('ü', 'n', ' ', ' '),
        _ => s,
    }
}

/// `text` with a last letter ŋ spelled out as ng.
pub open spec fn with_final_ng(text: Seq<char>) -> Seq<char> {
    if text.len() > 0 && text.last() == ENG {
        text.drop_last().push('n').push('g')
    } else {
        text
    }
}

/// Whether `to` is what `table` gives for `from`, read from left to right:
/// the right side of the row whose left side is `from`, and `from` itself
/// where there is no such row.
pub open spec fn maps(table: Seq<([char; 4], [char; 4])>, from: Slots, to: Slots) -> bool {
    ||| exists|i: int|
        0 <= i < table.len() && Slots::of((#[trigger] table[i]).0) == from && Slots::of(
            table[i].1,
        ) == to
    ||| to == from && forall|i: int|
        0 <= i < table.len() ==> Slots::of((#[trigger] table[i]).0) != from
}

/// Whether `to` is what `table` gives for `from`, read from right to left.
pub open spec fn maps_back(table: Seq<([char; 4], [char; 4])>, from: Slots, to: Slots) -> bool {
    ||| exists|i: int|
        0 <= i < table.len() && Slots::of((#[trigger] table[i]).1) == from && Slots::of(
            table[i].0,
        ) == to
    ||| to == from && forall|i: int|
        0 <= i < table.len() ==> Slots::of((#[trigger] table[i]).1) != from
}

/// Looks `s` up among the left sides of `table` and gives the right side of
/// the first row found, or `s` itself.
fn rewrite(table: &[([char; 4], [char; 4])], s: Slots) -> (r: Slots)
    ensures
        maps(table@, s, r),
{
    let mut i: usize = 0;
    while i < table.len()
        invariant
            i <= table@.len(),
            forall|j: int| 0 <= j < i ==> Slots::of((#[trigger] table@[j]).0) != s,
        decreases table@.len() - i,
    {
        if Slots::from_array(&table[i].0) == s {
            return Slots::from_array(&table[i].1);
        }
        i += 1;
    }
    s
}

/// Looks `s` up among the right sides of `table` and gives the left side
/// of the first row found, or `s` itself.
fn rewrite_back(table: &[([char; 4], [char; 4])], s: Slots) -> (r: Slots)
    ensures
        maps_back(table@, s, r),
{
    let mut i: usize = 0;
    while i < table.len()
        invariant
            i <= table@.len(),
            forall|j: int| 0 <= j < i ==> Slots::of((#[trigger] table@[j]).1) != s,
        decreases table@.len() - i,
    {
        if Slots::from_array(&table[i].1) == s {
            return Slots::from_array(&table[i].0);
        }
        i += 1;
    }
    s
}

/// The spelling of the final `s` after `initial`: contracted, and without
/// the dots of ü after j, q and x.
pub fn after_initial(s: Slots, initial: &Initial) -> (w: Slots)
    ensures
        w == elide(initial@, contract(s)),
{
    let short = rewrite(CONTRACTION_TABLE.as_slice(), s);
    if initial.is_palatal() {
        rewrite(ELISION_TABLE.as_slice(), short)
    } else {
        short
    }
}

/// The final that is spelled `w` after `initial`.
pub fn from_after_initial(w: Slots, initial: &Initial) -> (s: Slots)
    ensures
        s == restore(initial@, expand(w)),
{
    let long = rewrite_back(CONTRACTION_TABLE.as_slice(), w);
    if initial.is_palatal() {
        rewrite_back(ELISION_TABLE.as_slice(), long)
    } else {
        long
    }
}

/// The spelling of the final `s` where no initial stands before it.
pub fn alone(s: Slots) -> (w: Slots)
    ensures
        w == prefix(s),
{
    rewrite(ZERO_INITIAL_TABLE.as_slice(), s)
}

/// The final that is spelled `w` where no initial stands before it.
pub fn from_alone(w: Slots) -> (s: Slots)
    ensures
        s == unprefix(w),
{
    rewrite_back(ZERO_INITIAL_TABLE.as_slice(), w)
}

/// Spells a last letter ŋ out as ng.
pub fn spell_final_ng(text: Vec<char>) -> (r: Vec<char>)
    ensures
        r@ == with_final_ng(text@),
{
    let mut text = text;
    let n = text.len();
    if n > 0 && text[n - 1] == ENG {
        text.pop();
        text.push('n');
        text.push('g');
    }
    text
}

} // verus!
