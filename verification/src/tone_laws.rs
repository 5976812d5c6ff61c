//! What holds of the tone marks in a text.

use crate::error::Error;
use crate::text::{occurs, occurs_at};
use crate::tone::{
    accent, accented, accents_in, base_letter, glyph, is_tone_mark, lemma_table_rows, plain,
    split_tone, tone_marks, without_m_grave, written_in, Tone, COMBINING_GRAVE, TONE_MARK_TABLE,
};
use vstd::prelude::*;

verus! {

/// Whether `letter` in `tone` is a tone mark of another tone than the
/// neutral one that is written somewhere in `text`.
pub open spec fn is_accent_in(text: Seq<char>, letter: char, tone: Tone) -> bool {
    is_tone_mark(letter, tone) && tone != Tone::Neutral && occurs(text, glyph(letter, tone))
}

/// Whether `letter` in `tone` is written as one character with a
/// diacritic: every tone mark but those of the neutral tone and the one
/// that takes two characters.
pub open spec fn has_accent(letter: char, tone: Tone) -> bool {
    is_tone_mark(letter, tone) && tone != Tone::Neutral && !(letter == 'm' && tone
        == Tone::Fourth)
}

/// Whether `c` is a letter without a diacritic, and no diacritic by itself.
pub open spec fn is_bare(c: char) -> bool {
    c != COMBINING_GRAVE && base_letter(c) == c
}

/// No two rows of the table of tone marks hold the same letter in the same
/// tone: a letter and a tone are looked up with one result at most.
pub proof fn lemma_rows_differ(i: int, j: int)
    requires
        0 <= i < 35,
        0 <= j < 35,
        i != j,
    ensures
        !(TONE_MARK_TABLE[i].1 == TONE_MARK_TABLE[j].1 && TONE_MARK_TABLE[i].2
            == TONE_MARK_TABLE[j].2),
{
}

/// Filtering twice keeps the elements that pass both tests, and each of
/// them once where the sequence held it once.
proof fn lemma_filter_both<A>(s: Seq<A>, p: spec_fn(A) -> bool, q: spec_fn(A) -> bool)
    requires
        s.no_duplicates(),
    ensures
        s.filter(p).filter(q).no_duplicates(),
        forall|x: A| #[trigger]
            s.filter(p).filter(q).contains(x) <==> s.contains(x) && p(x) && q(x),
    decreases s.len(),
{
    reveal(Seq::filter);
    let kept = s.filter(p).filter(q);
    if s.len() > 0 {
        let front = s.drop_last();
        let last = s.last();
        let before = front.filter(p).filter(q);
        assert(s =~= front.push(last));
        assert forall|i: int, j: int|
            0 <= i < front.len() && 0 <= j < front.len() && i != j implies front[i]
            != front[j] by {
            assert(front[i] == s[i] && front[j] == s[j]);
        }
        lemma_filter_both(front, p, q);
        front.filter(p).lemma_filter_push(last, q);
        assert(!front.contains(last)) by {
            if front.contains(last) {
                let i = choose|i: int| 0 <= i < front.len() && front[i] == last;
                assert(s[i] == s[s.len() - 1]);
            }
        }
        assert forall|x: A| #[trigger] kept.contains(x) <==> s.contains(x) && p(x) && q(x) by {
            if kept.contains(x) {
                let i = choose|i: int| 0 <= i < kept.len() && kept[i] == x;
                if i < before.len() {
                    assert(before[i] == x);
                    assert(before.contains(x));
                    let j = choose|j: int| 0 <= j < front.len() && front[j] == x;
                    assert(s[j] == x);
                } else {
                    assert(x == last);
                    assert(s[s.len() - 1] == x);
                }
            }
            if s.contains(x) && p(x) && q(x) {
                let j = choose|j: int| 0 <= j < s.len() && s[j] == x;
                if j < front.len() {
                    assert(front[j] == x);
                    assert(before.contains(x));
                    let i = choose|i: int| 0 <= i < before.len() && before[i] == x;
                    assert(kept[i] == x);
                } else {
                    assert(kept[kept.len() - 1] == x);
                }
            }
        }
        assert forall|i: int, j: int|
            0 <= i < kept.len() && 0 <= j < kept.len() && i != j implies kept[i] != kept[j] by {
            if i < before.len() && j < before.len() {
                assert(kept[i] == before[i] && kept[j] == before[j]);
            } else if i < before.len() {
                assert(before.contains(before[i]));
            } else if j < before.len() {
                assert(before.contains(before[j]));
            }
        }
    }
}

/// The tone marks found in a text, the neutral ones left out, are those
/// that are written in it, each of them once.
pub proof fn lemma_accents(text: Seq<char>)
    ensures
        accents_in(text).no_duplicates(),
        forall|letter: char, tone: Tone| #[trigger]
            accents_in(text).contains((letter, tone)) <==> is_accent_in(text, letter, tone),
{
    lemma_table_rows();
    let marks = tone_marks();
    assert forall|i: int, j: int|
        0 <= i < marks.len() && 0 <= j < marks.len() && i != j implies marks[i] != marks[j] by {
        lemma_rows_differ(i, j);
    }
    lemma_filter_both(marks, written_in(text), accented());
    assert forall|letter: char, tone: Tone| #[trigger]
        accents_in(text).contains((letter, tone)) <==> is_accent_in(text, letter, tone) by {
        let m = (letter, tone);
        if marks.contains(m) {
            let i = choose|i: int| 0 <= i < marks.len() && marks[i] == m;
            assert(TONE_MARK_TABLE[i].1 == letter && TONE_MARK_TABLE[i].2 == tone);
        }
        if is_tone_mark(letter, tone) {
            let i = choose|i: int|
                0 <= i < 35 && #[trigger] TONE_MARK_TABLE[i].1 == letter && TONE_MARK_TABLE[i].2
                    == tone;
            assert(marks[i] == m);
        }
    }
}

/// Text has no tone where two different tone marks are written in it, the
/// neutral ones not counted, and only there.
pub proof fn lemma_tone_is_ambiguous(text: Seq<char>)
    ensures
        split_tone(text) is Err <==> exists|l1: char, t1: Tone, l2: char, t2: Tone|
            (l1, t1) != (l2, t2) && #[trigger] is_accent_in(text, l1, t1)
                && #[trigger] is_accent_in(text, l2, t2),
        split_tone(text) matches Err(e) ==> e == Error::AmbiguousToneMark,
{
    lemma_accents(text);
    let accents = accents_in(text);
    if accents.len() > 1 {
        let a = accents[0];
        let b = accents[1];
        assert(accents.contains(a) && accents.contains(b));
        assert(is_accent_in(text, a.0, a.1) && is_accent_in(text, b.0, b.1));
    }
    if exists|l1: char, t1: Tone, l2: char, t2: Tone|
        (l1, t1) != (l2, t2) && #[trigger] is_accent_in(text, l1, t1)
            && #[trigger] is_accent_in(text, l2, t2) {
        let (l1, t1, l2, t2) = choose|l1: char, t1: Tone, l2: char, t2: Tone|
            (l1, t1) != (l2, t2) && #[trigger] is_accent_in(text, l1, t1)
                && #[trigger] is_accent_in(text, l2, t2);
        assert(accents.contains((l1, t1)) && accents.contains((l2, t2)));
        let i = choose|i: int| 0 <= i < accents.len() && accents[i] == (l1, t1);
        let j = choose|j: int| 0 <= j < accents.len() && accents[j] == (l2, t2);
        assert(i != j);
    }
}

/// The tone that is read off a text is that of the one tone mark written in
/// it, the neutral ones not counted.
pub proof fn lemma_tone_is_read(text: Seq<char>, letter: char, tone: Tone)
    requires
        split_tone(text) is Ok,
        is_accent_in(text, letter, tone),
    ensures
        split_tone(text) == Ok::<(Seq<char>, Tone), Error>((plain(text), tone)),
{
    lemma_accents(text);
    let accents = accents_in(text);
    assert(accents.contains((letter, tone)));
    let i = choose|i: int| 0 <= i < accents.len() && accents[i] == (letter, tone);
    assert(i == 0);
}

/// The tone that is read off a text without such a tone mark is the neutral
/// one, and the text is left as it is.
pub proof fn lemma_tone_is_neutral(text: Seq<char>)
    requires
        forall|letter: char, tone: Tone| !is_accent_in(text, letter, tone),
    ensures
        split_tone(text) == Ok::<(Seq<char>, Tone), Error>((text, Tone::Neutral)),
{
    lemma_accents(text);
    let accents = accents_in(text);
    if accents.len() > 0 {
        assert(accents.contains(accents[0]));
        assert(is_accent_in(text, accents[0].0, accents[0].1));
    }
    assert forall|i: int| 0 <= i < text.len() implies base_letter(#[trigger] text[i])
        == text[i] by {
        let c = text[i];
        if base_letter(c) != c {
            lemma_diacritic_is_accent(c);
            let (letter, tone) = choose|letter: char, tone: Tone|
                has_accent(letter, tone) && accent(letter, tone) == c;
            lemma_occurs_one(text, c);
            assert(is_accent_in(text, letter, tone));
        }
    }
    lemma_no_m_grave(text);
    assert(plain(text) =~= text);
}

/// A character with a diacritic under which a letter stands is what is
/// written for that letter in some tone.
proof fn lemma_diacritic_is_accent(c: char)
    requires
        base_letter(c) != c,
    ensures
        exists|letter: char, tone: Tone| has_accent(letter, tone) && accent(letter, tone) == c,
{
    let letter = base_letter(c);
    let tone = if c == accent(letter, Tone::First) {
        Tone::First
    } else if c == accent(letter, Tone::Second) {
        Tone::Second
    } else if c == accent(letter, Tone::Third) {
        Tone::Third
    } else {
        Tone::Fourth
    };
    assert(has_accent(letter, tone) && accent(letter, tone) == c);
}

/// Text in which no combining grave accent follows an m loses nothing to
/// `without_m_grave`.
proof fn lemma_no_m_grave(text: Seq<char>)
    requires
        !is_accent_in(text, 'm', Tone::Fourth),
    ensures
        without_m_grave(text) =~= text,
    decreases text.len(),
{
    if text.len() > 0 {
        let front = text.drop_last();
        if is_accent_in(front, 'm', Tone::Fourth) {
            let i = choose|i: int| occurs_at(front, glyph('m', Tone::Fourth), i);
            assert forall|k: int| 0 <= k < 2 implies text[i + k] == #[trigger] glyph(
                'm',
                Tone::Fourth,
            )[k] by {
                assert(front[i + k] == glyph('m', Tone::Fourth)[k]);
            }
            assert(occurs_at(text, glyph('m', Tone::Fourth), i));
        }
        lemma_no_m_grave(front);
        if text.len() >= 2 && text[text.len() - 2] == 'm' && text.last() == COMBINING_GRAVE {
            assert(occurs_at(text, glyph('m', Tone::Fourth), text.len() - 2));
        }
    }
}

/// A letter under a diacritic is not bare, and the letter and the tone can
/// be told from it.
pub proof fn lemma_accent_is_told(letter: char, tone: Tone)
    requires
        has_accent(letter, tone),
    ensures
        !is_bare(accent(letter, tone)),
        accent(letter, tone) != COMBINING_GRAVE,
        base_letter(accent(letter, tone)) == letter,
        forall|l: char, t: Tone|
            has_accent(l, t) && accent(l, t) == accent(letter, tone) ==> l == letter && t == tone,
{
}

/// One character stands in a text where the text holds it.
proof fn lemma_occurs_one(text: Seq<char>, c: char)
    ensures
        occurs(text, seq![c]) <==> text.contains(c),
{
    if occurs(text, seq![c]) {
        let i = choose|i: int| occurs_at(text, seq![c], i);
        assert(text[i + 0] == seq![c][0]);
    }
    if text.contains(c) {
        let i = choose|i: int| 0 <= i < text.len() && text[i] == c;
        assert(occurs_at(text, seq![c], i));
    }
}

/// A tone mark of another tone than the neutral one is written with a
/// character that is not bare.
proof fn lemma_accent_is_not_bare(text: Seq<char>, letter: char, tone: Tone)
    requires
        is_accent_in(text, letter, tone),
    ensures
        exists|i: int|
            0 <= i < text.len() && !is_bare(#[trigger] text[i]) && (has_accent(letter, tone)
                ==> text[i] == accent(letter, tone)),
{
    if letter == 'm' && tone == Tone::Fourth {
        let i = choose|i: int| occurs_at(text, glyph(letter, tone), i);
        assert(text[i + 1] == glyph(letter, tone)[1]);
        assert(!is_bare(text[i + 1]));
    } else {
        lemma_occurs_one(text, accent(letter, tone));
        lemma_accent_is_told(letter, tone);
        let i = choose|i: int| 0 <= i < text.len() && text[i] == accent(letter, tone);
        assert(!is_bare(text[i]));
    }
}

/// Text without a combining grave accent loses nothing to `without_m_grave`.
proof fn lemma_no_grave(text: Seq<char>)
    requires
        forall|i: int| 0 <= i < text.len() ==> text[i] != COMBINING_GRAVE,
    ensures
        without_m_grave(text) =~= text,
    decreases text.len(),
{
    if text.len() > 0 {
        lemma_no_grave(text.drop_last());
    }
}

/// Text of bare letters has no tone mark: its tone is the neutral one, and
/// it is its own plain form.
pub proof fn lemma_split_bare(text: Seq<char>)
    requires
        forall|i: int| 0 <= i < text.len() ==> is_bare(#[trigger] text[i]),
    ensures
        split_tone(text) == Ok::<(Seq<char>, Tone), Error>((text, Tone::Neutral)),
{
    assert forall|letter: char, tone: Tone| !is_accent_in(text, letter, tone) by {
        if is_accent_in(text, letter, tone) {
            lemma_accent_is_not_bare(text, letter, tone);
        }
    }
    lemma_tone_is_neutral(text);
}

/// Text with one letter under a diacritic, once or more often, and bare
/// letters besides has the tone of that diacritic, and its plain form has
/// the letter without it.
pub proof fn lemma_split_marked(text: Seq<char>, letter: char, tone: Tone)
    requires
        has_accent(letter, tone),
        text.contains(accent(letter, tone)),
        forall|i: int|
            0 <= i < text.len() ==> is_bare(#[trigger] text[i]) || text[i] == accent(
                letter,
                tone,
            ),
    ensures
        split_tone(text) == Ok::<(Seq<char>, Tone), Error>(
            (text.map_values(|c: char| base_letter(c)), tone),
        ),
{
    lemma_accent_is_told(letter, tone);
    lemma_occurs_one(text, accent(letter, tone));
    assert forall|l1: char, t1: Tone, l2: char, t2: Tone|
        #[trigger] is_accent_in(text, l1, t1) && #[trigger] is_accent_in(text, l2, t2) implies (
    l1, t1) == (l2, t2) by {
        lemma_accent_is_not_bare(text, l1, t1);
        lemma_accent_is_not_bare(text, l2, t2);
        lemma_accent_is_told(l1, t1);
        lemma_accent_is_told(l2, t2);
    }
    lemma_tone_is_ambiguous(text);
    lemma_tone_is_read(text, letter, tone);
    lemma_no_grave(text);
}

/// Text of m and the combining grave accent has the fourth tone, and its
/// plain form is m.
proof fn lemma_split_m_and_grave(text: Seq<char>)
    requires
        text.len() == 2,
        text[0] == 'm',
        text[1] == COMBINING_GRAVE,
    ensures
        split_tone(text) == Ok::<(Seq<char>, Tone), Error>((text.drop_last(), Tone::Fourth)),
{
    assert(is_accent_in(text, 'm', Tone::Fourth)) by {
        assert(occurs_at(text, glyph('m', Tone::Fourth), 0));
    }
    assert forall|l1: char, t1: Tone, l2: char, t2: Tone|
        #[trigger] is_accent_in(text, l1, t1) && #[trigger] is_accent_in(text, l2, t2) implies (
    l1, t1) == (l2, t2) by {
        lemma_accent_is_not_bare(text, l1, t1);
        lemma_accent_is_not_bare(text, l2, t2);
    }
    lemma_tone_is_ambiguous(text);
    lemma_tone_is_read(text, 'm', Tone::Fourth);
    assert(plain(text) =~= text.drop_last()) by {
        lemma_no_grave(text.drop_last());
    }
}

/// The two characters of m in the fourth tone have that tone, and their
/// plain form is m.
pub proof fn lemma_split_m_grave()
    ensures
        split_tone(seq!['m', COMBINING_GRAVE]) == Ok::<(Seq<char>, Tone), Error>(
            (seq!['m'], Tone::Fourth),
        ),
{
    let text = seq!['m', COMBINING_GRAVE];
    lemma_split_m_and_grave(text);
    assert(text.drop_last() =~= seq!['m']);
}

} // verus!
