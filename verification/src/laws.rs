//! What holds of writing and reading together.

use crate::error::Error;
use crate::initial::{initial_text, is_initial, is_palatal, INITIAL_TABLE};
use crate::rhyme::{
    ends_nasal, first_slot, in_rows, is_compound_rhyme, is_i_rhyme, is_plain_rhyme, is_rhyme,
    is_simple_rhyme, is_u_rhyme, is_yu_rhyme, tone_vowel, RHYME_TABLE, RHYME_TABLE_COLUMN_A,
    RHYME_TABLE_COLUMN_I, RHYME_TABLE_COLUMN_U, RHYME_TABLE_COLUMN_YU,
};
use crate::spelling::{contract, elide, expand, prefix, restore, slots, unprefix, ENG};
use crate::syllable::{
    is_nasal_syllable, is_primitive, mark, onset, primitive_vowel, read, read_nasal, read_normal,
    read_primitive, read_rhyme, Sound,
};
use crate::text::{Slots, BLANK};
use crate::tone::{accent, base_letter, glyph, is_vowel_letter, split_tone, Tone};
use crate::tone_laws::{
    is_bare, lemma_accent_is_told, lemma_split_bare, lemma_split_m_grave, lemma_split_marked,
};
use vstd::prelude::*;

verus! {

/// Whether every slot of `w` holds a bare letter or a blank.
pub open spec fn bare_slots(w: Slots) -> bool {
    is_bare(w.c0) && is_bare(w.c1) && is_bare(w.c2) && is_bare(w.c3)
}

/// Slots that are filled from the left are read back from their text.
pub proof fn lemma_parse_text(w: Slots)
    requires
        w.left_filled(),
    ensures
        Slots::parse(w.text()) == Some(w),
{
}

/// The text of a written form with the diacritic on it: as long as the
/// text without, with the letter under its diacritic at least once, and
/// every other letter in its place.
proof fn lemma_marked_text(w: Slots, tone: Tone)
    requires
        bare_slots(w),
        w.left_filled(),
        tone_vowel(w) is Ok,
    ensures
        mark(w, tone).text().len() == w.text().len(),
        mark(w, tone).text().contains(accent(tone_vowel(w)->Ok_0, tone)),
        forall|i: int|
            0 <= i < w.text().len() ==> (#[trigger] mark(w, tone).text()[i]) == if w.text()[i]
                == tone_vowel(w)->Ok_0 {
                accent(tone_vowel(w)->Ok_0, tone)
            } else {
                w.text()[i]
            },
        forall|i: int| 0 <= i < w.text().len() ==> is_bare(#[trigger] w.text()[i]),
{
    let v = tone_vowel(w)->Ok_0;
    let m = mark(w, tone);
    if w.c1 == BLANK {
        assert(m.text() =~= seq![m.c0] && w.text() =~= seq![w.c0]);
    } else if w.c2 == BLANK {
        assert(m.text() =~= seq![m.c0, m.c1] && w.text() =~= seq![w.c0, w.c1]);
    } else if w.c3 == BLANK {
        assert(m.text() =~= seq![m.c0, m.c1, m.c2] && w.text() =~= seq![w.c0, w.c1, w.c2]);
    } else {
        assert(m.text() =~= seq![m.c0, m.c1, m.c2, m.c3] && w.text() =~= seq![
            w.c0,
            w.c1,
            w.c2,
            w.c3,
        ]);
    }
    assert(m.text()[first_slot(w, v)] == accent(v, tone));
}

/// The tone of a written form is read off it: where the diacritic stands
/// on the letter that the rule picks, among bare letters, the text has
/// that tone, and without the diacritic it is the written form.
pub proof fn lemma_split_written(head: Seq<char>, w: Slots, tone: Tone)
    requires
        forall|i: int| 0 <= i < head.len() ==> is_bare(#[trigger] head[i]),
        bare_slots(w),
        w.left_filled(),
        tone_vowel(w) is Ok,
    ensures
        split_tone(head + mark(w, tone).text()) == Ok::<(Seq<char>, Tone), Error>(
            (head + w.text(), tone),
        ),
{
    let v = tone_vowel(w)->Ok_0;
    let g = accent(v, tone);
    let tail = mark(w, tone).text();
    let text = head + tail;
    lemma_marked_text(w, tone);
    if tone == Tone::Neutral {
        assert(tail =~= w.text());
        lemma_split_bare(text);
    } else {
        lemma_accent_is_told(v, tone);
        assert(text.contains(g)) by {
            let k = choose|k: int| 0 <= k < tail.len() && tail[k] == g;
            assert(text[head.len() + k] == g);
        }
        lemma_split_marked(text, v, tone);
        assert(text.map_values(|c: char| base_letter(c)) =~= head + w.text());
    }
}

/// The written form of a final after an initial: its letters are bare and
/// fill the slots from the left, one of them carries the tone, and the
/// first is no h.
proof fn lemma_written_after_initial(initial: char, rhyme: Slots)
    requires
        is_rhyme(rhyme),
        tone_vowel(rhyme) is Ok,
    ensures
        bare_slots(elide(initial, contract(rhyme))),
        elide(initial, contract(rhyme)).left_filled(),
        tone_vowel(elide(initial, contract(rhyme))) is Ok,
        elide(initial, contract(rhyme)).c0 != BLANK,
        elide(initial, contract(rhyme)).c0 != 'h',
{
}

/// The final is had back from its written form after an initial, but for u
/// after j, q and x, which is read as ü.
proof fn lemma_restore_written(initial: char, rhyme: Slots)
    requires
        is_rhyme(rhyme),
    ensures
        restore(initial, expand(elide(initial, contract(rhyme)))) == if is_palatal(initial)
            && rhyme == slots('u', ' ', ' ', ' ') {
            slots('ü', ' ', ' ', ' ')
        } else {
            rhyme
        },
{
}

/// The written form of a final that stands alone: its letters are bare and
/// fill the slots from the left, one of them carries the tone, the first is
/// no initial, the last is no ŋ, and the final is had back from it.
proof fn lemma_written_alone(rhyme: Slots)
    requires
        is_rhyme(rhyme),
        tone_vowel(rhyme) is Ok,
    ensures
        bare_slots(prefix(rhyme)),
        prefix(rhyme).left_filled(),
        tone_vowel(prefix(rhyme)) is Ok,
        prefix(rhyme).c0 != BLANK,
        !is_initial(prefix(rhyme).c0),
        !prefix(rhyme).has(ENG),
        unprefix(prefix(rhyme)) == rhyme,
{
}

/// The letters of a syllable that is read as a whole are bare and fill the
/// slots from the left, and the letter that the table names is the one that
/// the rule of the finals picks.
proof fn lemma_written_whole(letters: Slots)
    requires
        is_primitive(letters),
    ensures
        bare_slots(letters),
        letters.left_filled(),
        tone_vowel(letters) == Ok::<char, Error>(primitive_vowel(letters)),
{
}

/// The letters of an initial are bare, and the initial is found again at
/// the head of any text that begins with them and does not go on with h.
proof fn lemma_onset(initial: char, rest: Seq<char>)
    requires
        is_initial(initial),
        rest.len() == 0 || rest[0] != 'h',
    ensures
        forall|i: int|
            0 <= i < initial_text(initial).len() ==> is_bare(#[trigger] initial_text(initial)[i]),
        onset(initial_text(initial) + rest) == (initial, initial_text(initial).len() as int),
        (initial_text(initial) + rest).skip(initial_text(initial).len() as int) =~= rest,
{
}

/// An initial and a final are read back from what is written for them, but
/// for u after j, q and x: that is written like ü, and read as ü.
pub proof fn lemma_read_normal_written(initial: char, rhyme: Slots, tone: Tone)
    requires
        is_initial(initial),
        is_rhyme(rhyme),
        tone_vowel(rhyme) is Ok,
    ensures
        read_normal((Sound::Normal { initial, rhyme, tone }).text()) == Ok::<Sound, Error>(
            Sound::Normal {
                initial,
                rhyme: if is_palatal(initial) && rhyme == slots('u', ' ', ' ', ' ') {
                    slots('ü', ' ', ' ', ' ')
                } else {
                    rhyme
                },
                tone,
            },
        ),
{
    let w = elide(initial, contract(rhyme));
    let head = initial_text(initial);
    lemma_written_after_initial(initial, rhyme);
    lemma_restore_written(initial, rhyme);
    lemma_onset(initial, w.text());
    lemma_split_written(head, w, tone);
    lemma_parse_text(w);
}

/// A final alone is read back from what is written for it.
pub proof fn lemma_read_rhyme_written(rhyme: Slots, tone: Tone)
    requires
        is_rhyme(rhyme),
        tone_vowel(rhyme) is Ok,
    ensures
        read_rhyme((Sound::Rhyme { rhyme, tone }).text()) == Ok::<Sound, Error>(
            Sound::Rhyme { rhyme, tone },
        ),
{
    let w = prefix(rhyme);
    lemma_written_alone(rhyme);
    lemma_split_written(Seq::<char>::empty(), w, tone);
    lemma_parse_text(w);
}

/// A syllable that is read as a whole is read back from what is written
/// for it.
pub proof fn lemma_read_primitive_written(letters: Slots, tone: Tone)
    requires
        is_primitive(letters),
    ensures
        read_primitive((Sound::Primitive { letters, tone }).text()) == Ok::<Sound, Error>(
            Sound::Primitive { letters, tone },
        ),
{
    lemma_written_whole(letters);
    lemma_split_written(Seq::<char>::empty(), letters, tone);
    lemma_parse_text(letters);
}

/// A nasal alone is read back from what is written for it.
pub proof fn lemma_read_nasal_written(initial: char, tone: Tone)
    requires
        is_nasal_syllable(initial, tone),
    ensures
        read_nasal((Sound::Nasal { initial, tone }).text()) == Ok::<Sound, Error>(
            Sound::Nasal { initial, tone },
        ),
{
}

/// Whether what is written for `x` is read as another syllable: u after j,
/// q and x is read as ü; the final i after zh, ch, sh, r, z, c and s is
/// written like a syllable that is read as a whole, and so are nine finals
/// that stand alone, among them i, u and ü.
pub open spec fn read_as_another(x: Sound) -> bool {
    match x {
        Sound::Normal { initial, rhyme, .. } => {
            ||| is_palatal(initial) && rhyme == slots('u', ' ', ' ', ' ')
            ||| rhyme == slots('i', ' ', ' ', ' ') && (initial == 'ẑ' || initial == 'ĉ'
                || initial == 'ŝ' || initial == 'r' || initial == 'z' || initial == 'c'
                || initial == 's')
        },
        Sound::Rhyme { rhyme, .. } => is_primitive(prefix(rhyme)),
        _ => false,
    }
}

/// What is written for an initial and a final is a syllable that is read
/// as a whole only where the final is i and the initial one of zh, ch, sh,
/// r, z, c and s.
proof fn lemma_normal_as_whole(initial: char, rhyme: Slots)
    requires
        is_initial(initial),
        is_rhyme(rhyme),
        tone_vowel(rhyme) is Ok,
    ensures
        match Slots::parse(initial_text(initial) + elide(initial, contract(rhyme)).text()) {
            Some(letters) => is_primitive(letters),
            None => false,
        } <==> rhyme == slots('i', ' ', ' ', ' ') && (initial == 'ẑ' || initial == 'ĉ'
            || initial == 'ŝ' || initial == 'r' || initial == 'z' || initial == 'c' || initial
            == 's'),
{
    lemma_written_after_initial(initial, rhyme);
}

/// What is written for a nasal alone is read as nothing else.
proof fn lemma_nasal_as_nothing_else(initial: char, tone: Tone)
    requires
        is_nasal_syllable(initial, tone),
    ensures
        read_primitive(glyph(initial, tone)) is Err,
        read_normal(glyph(initial, tone)) is Err,
        read_rhyme(glyph(initial, tone)) is Err,
{
    let text = glyph(initial, tone);
    let bare = seq![initial];
    assert(split_tone(text) == Ok::<(Seq<char>, Tone), Error>((bare, tone))) by {
        if initial == 'm' && tone == Tone::Fourth {
            lemma_split_m_grave();
        } else {
            lemma_accent_is_told(initial, tone);
            lemma_split_marked(text, initial, tone);
            assert(text.map_values(|c: char| base_letter(c)) =~= bare);
        }
    }
}

/// Reading what was written gives the syllable back, whatever its kind and
/// its tone, but for the syllables whose writing is read as another one.
pub proof fn lemma_read_written(x: Sound)
    requires
        x.valid(),
        x.has_vowel(),
    ensures
        read(x.text()) == Ok::<Sound, Error>(x) <==> !read_as_another(x),
        read(x.text()) is Ok,
{
    match x {
        Sound::Primitive { letters, tone } => {
            lemma_read_primitive_written(letters, tone);
        },
        Sound::Normal { initial, rhyme, tone } => {
            let w = elide(initial, contract(rhyme));
            lemma_written_after_initial(initial, rhyme);
            lemma_onset(initial, w.text());
            lemma_split_written(initial_text(initial), w, tone);
            lemma_normal_as_whole(initial, rhyme);
            lemma_read_normal_written(initial, rhyme, tone);
        },
        Sound::Rhyme { rhyme, tone } => {
            let w = prefix(rhyme);
            lemma_written_alone(rhyme);
            lemma_split_written(Seq::<char>::empty(), w, tone);
            lemma_parse_text(w);
            lemma_read_rhyme_written(rhyme, tone);
        },
        Sound::Nasal { initial, tone } => {
            lemma_nasal_as_nothing_else(initial, tone);
            lemma_read_nasal_written(initial, tone);
        },
    }
}

/// Whether `c` is a letter of the finals: some final holds it in some slot.
pub open spec fn is_rhyme_letter(c: char) -> bool {
    ||| c == 'a' || c == 'o' || c == 'e' || c == 'ê'
    ||| c == 'i' || c == 'u' || c == 'ü'
    ||| c == 'r' || c == 'n' || c == 'g'
}

/// The inventories accept every row of their tables, and nothing that is
/// not a row.
pub proof fn lemma_tables_are_the_inventories()
    ensures
        forall|i: int| 0 <= i < 21 ==> is_initial(#[trigger] INITIAL_TABLE[i]),
        forall|c: char|
            is_initial(c) ==> exists|i: int| 0 <= i < 21 && #[trigger] INITIAL_TABLE[i] == c,
        forall|i: int| 0 <= i < 37 ==> is_rhyme(Slots::of(#[trigger] RHYME_TABLE[i])),
        forall|s: Slots| is_rhyme(s) ==> in_rows(RHYME_TABLE@, s),
        forall|s: Slots| is_plain_rhyme(s) <==> in_rows(RHYME_TABLE_COLUMN_A@, s),
        forall|s: Slots| is_i_rhyme(s) <==> in_rows(RHYME_TABLE_COLUMN_I@, s),
        forall|s: Slots| is_u_rhyme(s) <==> in_rows(RHYME_TABLE_COLUMN_U@, s),
        forall|s: Slots| is_yu_rhyme(s) <==> in_rows(RHYME_TABLE_COLUMN_YU@, s),
{
}

/// A final with one slot changed to a character that is no letter of the
/// finals is no final.
pub proof fn lemma_altered_final_is_rejected(rhyme: Slots, k: int, c: char)
    requires
        is_rhyme(rhyme),
        0 <= k < 4,
        !is_rhyme_letter(c),
        c != BLANK,
    ensures
        !is_rhyme(rhyme.with(k, c)),
{
}

/// Every final but ê has a letter that carries the tone: one of the six
/// vowel letters, and in one of its slots. The rule refuses no final for
/// holding letters that do not go together.
pub proof fn lemma_finals_have_a_vowel(rhyme: Slots)
    requires
        is_rhyme(rhyme),
    ensures
        rhyme != slots('ê', ' ', ' ', ' ') ==> (tone_vowel(rhyme) matches Ok(v)
            && is_vowel_letter(v) && rhyme.has(v)),
        rhyme == slots('ê', ' ', ' ', ' ') ==> tone_vowel(rhyme) == Err::<char, Error>(
            Error::NoVowelToMark,
        ),
{
}

/// Every final is of one of three classes, and of one only: it has a single
/// vowel sound, or it is a diphthong or triphthong, or it ends in a nasal.
pub proof fn lemma_finals_are_of_three_classes(rhyme: Slots)
    requires
        is_rhyme(rhyme),
    ensures
        is_simple_rhyme(rhyme) || is_compound_rhyme(rhyme) || ends_nasal(rhyme),
        !(is_simple_rhyme(rhyme) && is_compound_rhyme(rhyme)),
        !(is_simple_rhyme(rhyme) && ends_nasal(rhyme)),
        !(is_compound_rhyme(rhyme) && ends_nasal(rhyme)),
{
}

/// What is read is valid, whatever the text.
pub proof fn lemma_read_is_valid(text: Seq<char>)
    ensures
        read_primitive(text) matches Ok(x) ==> x.valid() && x is Primitive,
        read_normal(text) matches Ok(x) ==> x.valid() && x is Normal,
        read_rhyme(text) matches Ok(x) ==> x.valid() && x is Rhyme,
        read_nasal(text) matches Ok(x) ==> x.valid() && x is Nasal,
        read(text) matches Ok(x) ==> x.valid(),
        read(text) matches Err(e) ==> e == Error::NoMatch,
{
}

/// An initial and the final i that are written like a syllable read as a
/// whole are read as that syllable, and it is written like them.
proof fn lemma_normal_read_as_whole(initial: char, tone: Tone)
    requires
        is_initial(initial),
        initial == 'ẑ' || initial == 'ĉ' || initial == 'ŝ' || initial == 'r' || initial == 'z'
            || initial == 'c' || initial == 's',
    ensures
        read((Sound::Normal { initial, rhyme: slots('i', ' ', ' ', ' '), tone }).text())
            matches Ok(y) && y.valid() && y.has_vowel() && y.text() =~= (Sound::Normal {
            initial,
            rhyme: slots('i', ' ', ' ', ' '),
            tone,
        }).text(),
{
    lemma_split_written(initial_text(initial), slots('i', ' ', ' ', ' '), tone);
}

/// A final alone that is written like a syllable read as a whole is read as
/// that syllable, and it is written like the final.
proof fn lemma_rhyme_read_as_whole(rhyme: Slots, tone: Tone)
    requires
        is_rhyme(rhyme),
        is_primitive(prefix(rhyme)),
    ensures
        read((Sound::Rhyme { rhyme, tone }).text()) matches Ok(y) && y.valid() && y.has_vowel()
            && y.text() =~= (Sound::Rhyme { rhyme, tone }).text(),
{
    let w = prefix(rhyme);
    lemma_written_whole(w);
    lemma_split_written(Seq::<char>::empty(), w, tone);
    lemma_parse_text(w);
    assert(read_primitive((Sound::Rhyme { rhyme, tone }).text()) == Ok::<Sound, Error>(
        Sound::Primitive { letters: w, tone },
    ));
}

/// What is read from the writing of a syllable is written like that
/// syllable, also where it is another one.
pub proof fn lemma_written_as_read(x: Sound)
    requires
        x.valid(),
        x.has_vowel(),
    ensures
        read(x.text()) matches Ok(y) && y.valid() && y.has_vowel() && y.text() =~= x.text(),
{
    lemma_read_written(x);
    match x {
        Sound::Normal { initial, rhyme, tone } => {
            if rhyme == slots('i', ' ', ' ', ' ') && (initial == 'ẑ' || initial == 'ĉ'
                || initial == 'ŝ' || initial == 'r' || initial == 'z' || initial == 'c'
                || initial == 's') {
                lemma_normal_read_as_whole(initial, tone);
            } else if is_palatal(initial) && rhyme == slots('u', ' ', ' ', ' ') {
                let y = Sound::Normal { initial, rhyme: slots('ü', ' ', ' ', ' '), tone };
                lemma_read_written(y);
            }
        },
        Sound::Rhyme { rhyme, tone } => {
            if is_primitive(prefix(rhyme)) {
                lemma_rhyme_read_as_whole(rhyme, tone);
            }
        },
        _ => {},
    }
}

} // verus!
