//! Tones and the letters that carry their diacritics.

use crate::error::Error;
use crate::text::{contains, occurs, string_of, BLANK};
use vstd::pervasive::unreached;
use vstd::prelude::*;

verus! {

/// The combining grave accent. The fourth tone of m has no letter of its
/// own and is written as m followed by this mark.
pub const COMBINING_GRAVE: char = '\u{300}';

/// The tone marks: what is written, the letter that carries the mark, and
/// the tone. One character is written for each but the last, and two for
/// that one; otherwise the second slot is blank. The order of the rows is
/// the order in which `ToneMark::find` reports them.
pub const TONE_MARK_TABLE: [([char; 2], char, Tone); 35] = [
    (['a', ' '], 'a', Tone::Neutral), (['ā', ' '], 'a', Tone::First), (['á', ' '], 'a', Tone::Second),
    (['ǎ', ' '], 'a', Tone::Third), (['à', ' '], 'a', Tone::Fourth),
    (['e', ' '], 'e', Tone::Neutral), (['ē', ' '], 'e', Tone::First), (['é', ' '], 'e', Tone::Second),
    (['ě', ' '], 'e', Tone::Third), (['è', ' '], 'e', Tone::Fourth),
    (['o', ' '], 'o', Tone::Neutral), (['ō', ' '], 'o', Tone::First), (['ó', ' '], 'o', Tone::Second),
    (['ǒ', ' '], 'o', Tone::Third), (['ò', ' '], 'o', Tone::Fourth),
    (['i', ' '], 'i', Tone::Neutral), (['ī', ' '], 'i', Tone::First), (['í', ' '], 'i', Tone::Second),
    (['ǐ', ' '], 'i', Tone::Third), (['ì', ' '], 'i', Tone::Fourth),
    (['u', ' '], 'u', Tone::Neutral), (['ū', ' '], 'u', Tone::First), (['ú', ' '], 'u', Tone::Second),
    (['ǔ', ' '], 'u', Tone::Third), (['ù', ' '], 'u', Tone::Fourth),
    (['ü', ' '], 'ü', Tone::Neutral), (['ǖ', ' '], 'ü', Tone::First), (['ǘ', ' '], 'ü', Tone::Second),
    (['ǚ', ' '], 'ü', Tone::Third), (['ǜ', ' '], 'ü', Tone::Fourth),
    (['ń', ' '], 'n', Tone::Second), (['ň', ' '], 'n', Tone::Third), (['ǹ', ' '], 'n', Tone::Fourth),
    (['ḿ', ' '], 'm', Tone::Second), (['m', '\u{300}'], 'm', Tone::Fourth),
];

/// How the tone of a syllable is written down.
#[derive(Debug, PartialEq, Eq, Copy, Clone, Structural)]
pub enum ToneFormat {
    /// A diacritic over one letter: fan, fān.
    Symbol,
    /// The pitch contour in digits after the syllable: fan⁵⁵, fan³⁵.
    Digit,
    /// The number of the tone after the syllable: fan1.
    Index,
}

/// The five lexical tones.
#[derive(Debug, PartialEq, Eq, Copy, Clone, Structural)]
pub enum Tone {
    /// High level (阴平).
    First,
    /// Rising (阳平).
    Second,
    /// Falling, then rising (上声).
    Third,
    /// Falling (去声).
    Fourth,
    /// Toneless; written without a diacritic.
    Neutral,
}

impl Tone {
    /// The number of the tone: 1 to 4, and 0 for the neutral tone.
    pub open spec fn index(self) -> u8 {
        match self {
            Tone::Neutral => 0,
            Tone::First => 1,
            Tone::Second => 2,
            Tone::Third => 3,
            Tone::Fourth => 4,
        }
    }

    /// The ordinal name of the tone; the neutral tone has none.
    pub fn name(&self) -> (r: Option<&'static str>)
        ensures
            match *self {
                Tone::Neutral => r is None,
                Tone::First => r matches Some(s) && s@ == "第一声"@,
                Tone::Second => r matches Some(s) && s@ == "第二声"@,
                Tone::Third => r matches Some(s) && s@ == "第三声"@,
                Tone::Fourth => r matches Some(s) && s@ == "第四声"@,
            },
    {
        match *self {
            Tone::Neutral => None,
            Tone::First => Some("第一声"),
            Tone::Second => Some("第二声"),
            Tone::Third => Some("第三声"),
            Tone::Fourth => Some("第四声"),
        }
    }

    /// The name of the tone in the traditional four-tone scheme; the neutral
    /// tone has none.
    pub fn traditional_name(&self) -> (r: Option<&'static str>)
        ensures
            match *self {
                Tone::Neutral => r is None,
                Tone::First => r matches Some(s) && s@ == "阴平"@,
                Tone::Second => r matches Some(s) && s@ == "阳平"@,
                Tone::Third => r matches Some(s) && s@ == "上声"@,
                Tone::Fourth => r matches Some(s) && s@ == "去声"@,
            },
    {
        match *self {
            Tone::Neutral => None,
            Tone::First => Some("阴平"),
            Tone::Second => Some("阳平"),
            Tone::Third => Some("上声"),
            Tone::Fourth => Some("去声"),
        }
    }

    /// The shape of the pitch contour in words; the neutral tone has none.
    pub fn descp(&self) -> (r: Option<&'static str>)
        ensures
            match *self {
                Tone::Neutral => r is None,
                Tone::First => r matches Some(s) && s@ == "高平调"@,
                Tone::Second => r matches Some(s) && s@ == "高升调"@,
                Tone::Third => r matches Some(s) && s@ == "降升调"@,
                Tone::Fourth => r matches Some(s) && s@ == "高降调"@,
            },
    {
        match *self {
            Tone::Neutral => None,
            Tone::First => Some("高平调"),
            Tone::Second => Some("高升调"),
            Tone::Third => Some("降升调"),
            Tone::Fourth => Some("高降调"),
        }
    }

    /// The free-standing diacritic of the tone; the neutral tone has none.
    pub fn mask(&self) -> (r: Option<char>)
        ensures
            r == match *self {
                Tone::Neutral => None,
                Tone::First => Some('¯'),
                Tone::Second => Some('ˊ'),
                Tone::Third => Some('ˇ'),
                Tone::Fourth => Some('ˋ'),
            },
    {
        match *self {
            Tone::Neutral => None,
            Tone::First => Some('¯'),
            Tone::Second => Some('ˊ'),
            Tone::Third => Some('ˇ'),
            Tone::Fourth => Some('ˋ'),
        }
    }

    /// The pitch contour on the five-level scale, its levels read as decimal
    /// digits; the neutral tone has none.
    pub fn value(&self) -> (r: Option<u8>)
        ensures
            r == match *self {
                Tone::Neutral => None::<u8>,
                Tone::First => Some(55u8),
                Tone::Second => Some(35u8),
                Tone::Third => Some(214u8),
                Tone::Fourth => Some(51u8),
            },
    {
        match *self {
            Tone::Neutral => None,
            Tone::First => Some(55u8),
            Tone::Second => Some(35u8),
            Tone::Third => Some(214u8),
            Tone::Fourth => Some(51u8),
        }
    }
}

/// Whether `c` is one of the six vowel letters a, e, o, i, u and ü. Each of
/// them carries every tone.
pub open spec fn is_vowel_letter(c: char) -> bool {
    c == 'a' || c == 'e' || c == 'o' || c == 'i' || c == 'u' || c == 'ü'
}

/// Whether the table of tone marks has an entry for `letter` in `tone`: the
/// six vowel letters in every tone, n in the second, third and fourth, and m
/// in the second and fourth.
pub open spec fn is_tone_mark(letter: char, tone: Tone) -> bool {
    ||| is_vowel_letter(letter)
    ||| letter == 'n' && (tone == Tone::Second || tone == Tone::Third || tone == Tone::Fourth)
    ||| letter == 'm' && (tone == Tone::Second || tone == Tone::Fourth)
}

/// The single character that stands for `letter` in `tone`: the letter under
/// its diacritic, or the bare letter where nothing is added to it.
pub open spec fn accent(letter: char, tone: Tone) -> char {
    match (letter, tone) {
        ('a', Tone::First) => 'ā',
        ('a', Tone::Second) => 'á',
        ('a', Tone::Third) => 'ǎ',
        ('a', Tone::Fourth) => 'à',
        ('e', Tone::First) => 'ē',
        ('e', Tone::Second) => 'é',
        ('e', Tone::Third) => 'ě',
        ('e', Tone::Fourth) => 'è',
        ('o', Tone::First) => 'ō',
        ('o', Tone::Second) => 'ó',
        ('o', Tone::Third) => 'ǒ',
        ('o', Tone::Fourth) => 'ò',
        ('i', Tone::First) => 'ī',
        ('i', Tone::Second) => 'í',
        ('i', Tone::Third) => 'ǐ',
        ('i', Tone::Fourth) => 'ì',
        ('u', Tone::First) => 'ū',
        ('u', Tone::Second) => 'ú',
        ('u', Tone::Third) => 'ǔ',
        ('u', Tone::Fourth) => 'ù',
        ('ü', Tone::First) => 'ǖ',
        ('ü', Tone::Second) => 'ǘ',
        ('ü', Tone::Third) => 'ǚ',
        ('ü', Tone::Fourth) => 'ǜ',
        ('n', Tone::Second) => 'ń',
        ('n', Tone::Third) => 'ň',
        ('n', Tone::Fourth) => 'ǹ',
        ('m', Tone::Second) => 'ḿ',
        _ => letter,
    }
}

/// What is written for `letter` in `tone`: one character, but for m in the
/// fourth tone, which is m and the combining grave accent.
pub open spec fn glyph(letter: char, tone: Tone) -> Seq<char> {
    if letter == 'm' && tone == Tone::Fourth {
        seq!['m', COMBINING_GRAVE]
    } else {
        seq![accent(letter, tone)]
    }
}

/// The letter under the diacritic of `c`; `c` itself where it has none.
pub open spec fn base_letter(c: char) -> char {
    match c {
        'ā' | 'á' | 'ǎ' | 'à' => 'a',
        'ē' | 'é' | 'ě' | 'è' => 'e',
        'ō' | 'ó' | 'ǒ' | 'ò' => 'o',
        'ī' | 'í' | 'ǐ' | 'ì' => 'i',
        'ū' | 'ú' | 'ǔ' | 'ù' => 'u',
        'ǖ' | 'ǘ' | 'ǚ' | 'ǜ' => 'ü',
        'ń' | 'ň' | 'ǹ' => 'n',
        'ḿ' => 'm',
        _ => c,
    }
}

/// `text` without the combining grave accents that follow an m.
pub open spec fn without_m_grave(text: Seq<char>) -> Seq<char>
    decreases text.len(),
{
    if text.len() == 0 {
        text
    } else {
        let before = without_m_grave(text.drop_last());
        if text.len() >= 2 && text[text.len() - 2] == 'm' && text.last() == COMBINING_GRAVE {
            before
        } else {
            before.push(text.last())
        }
    }
}

/// `text` with every tone mark replaced by the letter that carries it.
pub open spec fn plain(text: Seq<char>) -> Seq<char> {
    without_m_grave(text).map_values(|c: char| base_letter(c))
}

/// The entries of the table as pairs of letter and tone, in its order.
pub open spec fn tone_marks() -> Seq<(char, Tone)> {
    Seq::new(35, |i: int| (TONE_MARK_TABLE[i].1, TONE_MARK_TABLE[i].2))
}

/// The test whether what is written for a tone mark stands in `text`.
pub open spec fn written_in(text: Seq<char>) -> spec_fn((char, Tone)) -> bool {
    |m: (char, Tone)| occurs(text, glyph(m.0, m.1))
}

/// The test whether a tone mark is of another tone than the neutral one.
pub open spec fn accented() -> spec_fn((char, Tone)) -> bool {
    |m: (char, Tone)| m.1 != Tone::Neutral
}

/// The tone marks that are written somewhere in `text`, in the order of the
/// table. Those of the neutral tone are the bare vowel letters.
pub open spec fn marks_in(text: Seq<char>) -> Seq<(char, Tone)> {
    tone_marks().filter(written_in(text))
}

/// The tone marks in `text` that are of another tone than the neutral one.
pub open spec fn accents_in(text: Seq<char>) -> Seq<(char, Tone)> {
    marks_in(text).filter(accented())
}

/// Reads the tone off `text`: the tone of its one tone mark, or the neutral
/// tone where it has none, together with the text without the mark. Text
/// with two different tone marks has no tone.
pub open spec fn split_tone(text: Seq<char>) -> Result<(Seq<char>, Tone), Error> {
    let accents = accents_in(text);
    if accents.len() > 1 {
        Err(Error::AmbiguousToneMark)
    } else if accents.len() == 1 {
        Ok((plain(text), accents[0].1))
    } else {
        Ok((plain(text), Tone::Neutral))
    }
}

/// The views of tone marks, one by one.
pub open spec fn views(marks: Seq<ToneMark>) -> Seq<(char, Tone)> {
    marks.map_values(|m: ToneMark| m@)
}

/// What a row of the table says is written: its first slot, and its second
/// unless that is blank.
pub open spec fn row_text(row: [char; 2]) -> Seq<char> {
    if row[1] == BLANK {
        seq![row[0]]
    } else {
        seq![row[0], row[1]]
    }
}

/// The table agrees with `is_tone_mark` and `glyph`, row by row, and has a
/// row for every tone mark.
pub proof fn lemma_table_rows()
    ensures
        forall|i: int|
            #![trigger TONE_MARK_TABLE[i]]
            0 <= i < 35 ==> {
                let row = TONE_MARK_TABLE[i];
                &&& is_tone_mark(row.1, row.2)
                &&& row_text(row.0) =~= glyph(row.1, row.2)
                &&& tone_marks()[i] == (row.1, row.2)
            },
        forall|letter: char, tone: Tone|
            is_tone_mark(letter, tone) ==> exists|i: int|
                0 <= i < 35 && #[trigger] TONE_MARK_TABLE[i].1 == letter && TONE_MARK_TABLE[i].2
                    == tone,
{
    assert forall|letter: char, tone: Tone| is_tone_mark(letter, tone) implies exists|i: int|
        0 <= i < 35 && #[trigger] TONE_MARK_TABLE[i].1 == letter && TONE_MARK_TABLE[i].2
            == tone by {
        let l: int = if letter == 'a' {
            0
        } else if letter == 'e' {
            5
        } else if letter == 'o' {
            10
        } else if letter == 'i' {
            15
        } else if letter == 'u' {
            20
        } else if letter == 'ü' {
            25
        } else if letter == 'n' {
            28
        } else {
            31
        };
        let i: int = if letter == 'm' && tone == Tone::Fourth {
            34
        } else if tone == Tone::Neutral {
            l
        } else {
            l + tone.index()
        };
        assert(TONE_MARK_TABLE[i].1 == letter && TONE_MARK_TABLE[i].2 == tone);
    }
}

/// A letter together with the tone that it carries. Its view is that pair.
#[derive(Debug, PartialEq, Eq, Copy, Clone, Structural)]
pub struct ToneMark {
    letter: char,
    tone: Tone,
}

impl View for ToneMark {
    type V = (char, Tone);

    closed spec fn view(&self) -> (char, Tone) {
        (self.letter, self.tone)
    }
}

impl ToneMark {
    /// Every tone mark is an entry of the table.
    #[verifier::type_invariant]
    pub open spec fn wf(self) -> bool {
        is_tone_mark(self@.0, self@.1)
    }

    /// The mark of `tone` on the letter `c`.
    pub fn new(c: char, tone: Tone) -> (r: Result<ToneMark, Error>)
        ensures
            r is Ok <==> is_tone_mark(c, tone),
            r matches Ok(mark) ==> mark@ == (c, tone) && mark.wf(),
            r matches Err(e) ==> e == Error::InvalidToneMark,
    {
        proof {
            lemma_table_rows();
        }
        let mut i: usize = 0;
        while i < 35
            invariant
                i <= 35,
                forall|j: int|
                    0 <= j < i ==> !(#[trigger] TONE_MARK_TABLE[j].1 == c && TONE_MARK_TABLE[j].2
                        == tone),
            decreases 35 - i,
        {
            let row = TONE_MARK_TABLE[i];
            if row.1 == c && row.2 == tone {
                return Ok(ToneMark { letter: c, tone });
            }
            i += 1;
        }
        Err(Error::InvalidToneMark)
    }

    /// Every tone mark of the table that is written somewhere in `s`, in
    /// the order of the table. The bare vowel letters count as the marks of
    /// the neutral tone.
    pub fn find(s: &str) -> (r: Vec<ToneMark>)
        ensures
            views(r@) == marks_in(s@),
    {
        let text = crate::text::chars_of(s);
        ToneMark::find_in(text.as_slice())
    }

    /// Every tone mark of the table that is written somewhere in `text`.
    pub fn find_in(text: &[char]) -> (r: Vec<ToneMark>)
        ensures
            views(r@) == marks_in(text@),
    {
        let mut found: Vec<ToneMark> = Vec::new();
        let mut i: usize = 0;
        assert(tone_marks().take(0).filter(written_in(text@)) =~= views(found@));
        while i < 35
            invariant
                i <= 35,
                views(found@) == tone_marks().take(i as int).filter(written_in(text@)),
            decreases 35 - i,
        {
            let row = TONE_MARK_TABLE[i];
            let mut pattern: Vec<char> = Vec::new();
            pattern.push(row.0[0]);
            if row.0[1] != BLANK {
                pattern.push(row.0[1]);
            }
            proof {
                lemma_table_rows();
                assert(pattern@ =~= row_text(row.0));
                assert(tone_marks().take(i + 1) =~= tone_marks().take(i as int).push(
                    (row.1, row.2),
                ));
                tone_marks().take(i as int).lemma_filter_push((row.1, row.2), written_in(text@));
            }
            if contains(text, pattern.as_slice()) {
                found.push(ToneMark { letter: row.1, tone: row.2 });
            }
            i += 1;
        }
        assert(tone_marks().take(35) =~= tone_marks());
        found
    }

    /// The letter under the diacritic of `c`; `c` itself where it has none.
    pub fn base_of(c: char) -> (b: char)
        ensures
            b == base_letter(c),
    {
        let mut i: usize = 0;
        while i < 35
            invariant
                i <= 35,
                forall|j: int|
                    #![trigger TONE_MARK_TABLE[j]]
                    0 <= j < i ==> !(TONE_MARK_TABLE[j].0[0] == c && TONE_MARK_TABLE[j].0[1]
                        == BLANK),
            decreases 35 - i,
        {
            let row = TONE_MARK_TABLE[i];
            if row.0[0] == c && row.0[1] == BLANK {
                return row.1;
            }
            i += 1;
        }
        c
    }

    /// Replaces every tone mark in `s` by the letter that carries it.
    pub fn replace_tone_marks(s: &str) -> (r: String)
        ensures
            r@ == plain(s@),
    {
        let text = crate::text::chars_of(s);
        let bare = ToneMark::strip(text.as_slice());
        string_of(bare.as_slice())
    }

    /// Replaces every tone mark in `text` by the letter that carries it.
    pub fn strip(text: &[char]) -> (r: Vec<char>)
        ensures
            r@ == plain(text@),
    {
        let mut out: Vec<char> = Vec::new();
        let mut i: usize = 0;
        while i < text.len()
            invariant
                i <= text@.len(),
                out@ == plain(text@.take(i as int)),
            decreases text@.len() - i,
        {
            let c = text[i];
            proof {
                let t = text@.take(i + 1);
                assert(t.drop_last() =~= text@.take(i as int));
            }
            if !(i >= 1 && text[i - 1] == 'm' && c == COMBINING_GRAVE) {
                out.push(ToneMark::base_of(c));
                proof {
                    let before = without_m_grave(text@.take(i as int));
                    assert(before.push(c).map_values(|c: char| base_letter(c))
                        =~= before.map_values(|c: char| base_letter(c)).push(base_letter(c)));
                }
            }
            i += 1;
        }
        assert(text@.take(text@.len() as int) =~= text@);
        out
    }

    /// Reads the tone off `text`: the tone of its one tone mark, or the
    /// neutral tone where it has none, and the text without the mark. Text
    /// with two different tone marks is refused.
    pub fn split(text: &[char]) -> (r: Result<(Vec<char>, Tone), Error>)
        ensures
            r is Ok <==> split_tone(text@) is Ok,
            r matches Ok(p) ==> split_tone(text@) == Ok::<(Seq<char>, Tone), Error>((p.0@, p.1)),
            r matches Err(e) ==> split_tone(text@) == Err::<(Seq<char>, Tone), Error>(e),
    {
        let found = ToneMark::find_in(text);
        let mut accents: Vec<ToneMark> = Vec::new();
        let mut i: usize = 0;
        while i < found.len()
            invariant
                i <= found@.len(),
                views(accents@) == views(found@).take(i as int).filter(accented()),
            decreases found@.len() - i,
        {
            let m = found[i];
            proof {
                assert(views(found@).take(i + 1) =~= views(found@).take(i as int).push(m@));
                views(found@).take(i as int).lemma_filter_push(m@, accented());
            }
            if m.tone() != Tone::Neutral {
                accents.push(m);
            }
            i += 1;
        }
        assert(views(found@).take(found@.len() as int) =~= views(found@));
        if accents.len() > 1 {
            return Err(Error::AmbiguousToneMark);
        }
        let tone = if accents.len() == 1 {
            accents[0].tone()
        } else {
            Tone::Neutral
        };
        Ok((ToneMark::strip(text), tone))
    }

    /// The row of the table that holds the mark.
    fn row(&self) -> (row: ([char; 2], char, Tone))
        ensures
            row.1 == self@.0,
            row.2 == self@.1,
            row_text(row.0) == glyph(self@.0, self@.1),
            row.0[0] == accent(self@.0, self@.1),
    {
        proof {
            use_type_invariant(self);
            lemma_table_rows();
        }
        let mut i: usize = 0;
        while i < 35
            invariant
                i <= 35,
                forall|j: int|
                    0 <= j < i ==> !(#[trigger] TONE_MARK_TABLE[j].1 == self.letter
                        && TONE_MARK_TABLE[j].2 == self.tone),
            decreases 35 - i,
        {
            let row = TONE_MARK_TABLE[i];
            if row.1 == self.letter && row.2 == self.tone {
                return row;
            }
            i += 1;
        }
        unreached()
    }

    /// The single character that stands for the mark: the letter under its
    /// diacritic, or the bare letter where nothing is added to it.
    pub fn accent(&self) -> (c: char)
        ensures
            c == accent(self@.0, self@.1),
    {
        self.row().0[0]
    }

    /// The letter that carries the mark.
    pub fn mark(&self) -> (c: char)
        ensures
            c == self@.0,
    {
        self.letter
    }

    /// The tone of the mark.
    pub fn tone(&self) -> (t: Tone)
        ensures
            t == self@.1,
    {
        self.tone
    }

    /// Appends what is written for the mark to `out`.
    pub fn write(&self, out: &mut Vec<char>)
        ensures
            final(out)@ == old(out)@ + glyph(self@.0, self@.1),
    {
        let row = self.row();
        out.push(row.0[0]);
        if row.0[1] != BLANK {
            out.push(row.0[1]);
        }
    }

    /// What is written for the mark: the letter under its diacritic.
    pub fn to_string(&self) -> (s: String)
        ensures
            s@ == glyph(self@.0, self@.1),
    {
        let mut out: Vec<char> = Vec::new();
        self.write(&mut out);
        string_of(out.as_slice())
    }
}

impl From<Tone> for u8 {
    /// The number of the tone.
    fn from(tone: Tone) -> (r: u8) {
        match tone {
            Tone::Neutral => 0u8,
            Tone::First => 1,
            Tone::Second => 2,
            Tone::Third => 3,
            Tone::Fourth => 4,
        }
    }
}

impl vstd::std_specs::convert::FromSpecImpl<Tone> for u8 {
    open spec fn obeys_from_spec() -> bool {
        true
    }

    open spec fn from_spec(tone: Tone) -> u8 {
        tone.index()
    }
}

} // verus!
