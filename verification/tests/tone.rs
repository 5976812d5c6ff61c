use pinyin::tone::{COMBINING_GRAVE, TONE_MARK_TABLE};
use pinyin::{Error, Tone, ToneFormat, ToneMark};

const TONES: [Tone; 5] = [Tone::First, Tone::Second, Tone::Third, Tone::Fourth, Tone::Neutral];

fn marks(pairs: &[(char, Tone)]) -> Vec<ToneMark> {
    pairs.iter().map(|&(c, t)| ToneMark::new(c, t).unwrap()).collect()
}

#[test]
fn tone_names() {
    assert_eq!(Tone::First.name(), Some("第一声"));
    assert_eq!(Tone::Second.name(), Some("第二声"));
    assert_eq!(Tone::Third.name(), Some("第三声"));
    assert_eq!(Tone::Fourth.name(), Some("第四声"));
    assert_eq!(Tone::Neutral.name(), None);
}

#[test]
fn tone_traditional_names() {
    assert_eq!(Tone::First.traditional_name(), Some("阴平"));
    assert_eq!(Tone::Second.traditional_name(), Some("阳平"));
    assert_eq!(Tone::Third.traditional_name(), Some("上声"));
    assert_eq!(Tone::Fourth.traditional_name(), Some("去声"));
    assert_eq!(Tone::Neutral.traditional_name(), None);
}

#[test]
fn tone_descriptions() {
    assert_eq!(Tone::First.descp(), Some("高平调"));
    assert_eq!(Tone::Second.descp(), Some("高升调"));
    assert_eq!(Tone::Third.descp(), Some("降升调"));
    assert_eq!(Tone::Fourth.descp(), Some("高降调"));
    assert_eq!(Tone::Neutral.descp(), None);
}

#[test]
fn tone_masks() {
    assert_eq!(Tone::First.mask(), Some('¯'));
    assert_eq!(Tone::Second.mask(), Some('ˊ'));
    assert_eq!(Tone::Third.mask(), Some('ˇ'));
    assert_eq!(Tone::Fourth.mask(), Some('ˋ'));
    assert_eq!(Tone::Neutral.mask(), None);
}

#[test]
fn tone_values() {
    assert_eq!(Tone::First.value(), Some(55));
    assert_eq!(Tone::Second.value(), Some(35));
    assert_eq!(Tone::Third.value(), Some(214));
    assert_eq!(Tone::Fourth.value(), Some(51));
    assert_eq!(Tone::Neutral.value(), None);
}

#[test]
fn tone_numbers() {
    assert_eq!(u8::from(Tone::Neutral), 0);
    assert_eq!(u8::from(Tone::First), 1);
    assert_eq!(u8::from(Tone::Second), 2);
    assert_eq!(u8::from(Tone::Third), 3);
    let n: u8 = Tone::Fourth.into();
    assert_eq!(n, 4);
}

#[test]
fn tone_formats_differ() {
    assert_ne!(ToneFormat::Symbol, ToneFormat::Digit);
    assert_ne!(ToneFormat::Digit, ToneFormat::Index);
    assert_ne!(ToneFormat::Symbol, ToneFormat::Index);
}

#[test]
fn table_has_thirty_five_rows_of_one_or_two_characters() {
    assert_eq!(TONE_MARK_TABLE.len(), 35);
    let two: Vec<_> = TONE_MARK_TABLE.iter().filter(|row| row.0[1] != ' ').collect();
    assert_eq!(two.len(), 1);
    assert_eq!(*two[0], (['m', COMBINING_GRAVE], 'm', Tone::Fourth));
}

#[test]
fn every_row_of_the_table_is_a_tone_mark() {
    for (written, letter, tone) in TONE_MARK_TABLE.iter() {
        let mark = ToneMark::new(*letter, *tone).unwrap();
        assert_eq!(mark.mark(), *letter);
        assert_eq!(mark.tone(), *tone);
        let text: String = written.iter().filter(|c| **c != ' ').collect();
        assert_eq!(mark.to_string(), text);
    }
}

#[test]
fn vowels_carry_every_tone() {
    for letter in ['a', 'e', 'o', 'i', 'u', 'ü'] {
        for tone in TONES {
            assert!(ToneMark::new(letter, tone).is_ok());
        }
    }
}

#[test]
fn nasals_carry_some_tones() {
    assert!(ToneMark::new('n', Tone::Second).is_ok());
    assert!(ToneMark::new('n', Tone::Third).is_ok());
    assert!(ToneMark::new('n', Tone::Fourth).is_ok());
    assert_eq!(ToneMark::new('n', Tone::First), Err(Error::InvalidToneMark));
    assert_eq!(ToneMark::new('n', Tone::Neutral), Err(Error::InvalidToneMark));
    assert!(ToneMark::new('m', Tone::Second).is_ok());
    assert!(ToneMark::new('m', Tone::Fourth).is_ok());
    assert_eq!(ToneMark::new('m', Tone::First), Err(Error::InvalidToneMark));
    assert_eq!(ToneMark::new('m', Tone::Third), Err(Error::InvalidToneMark));
    assert_eq!(ToneMark::new('m', Tone::Neutral), Err(Error::InvalidToneMark));
}

#[test]
fn other_letters_carry_no_tone() {
    for letter in ['b', 'y', 'w', 'ê', 'ā', ' ', 'A', 'g', 'r'] {
        for tone in TONES {
            assert_eq!(ToneMark::new(letter, tone), Err(Error::InvalidToneMark));
        }
    }
}

#[test]
fn marks_are_written_as_the_table_has_them() {
    assert_eq!(ToneMark::new('a', Tone::First).unwrap().to_string(), "ā");
    assert_eq!(ToneMark::new('e', Tone::Second).unwrap().to_string(), "é");
    assert_eq!(ToneMark::new('o', Tone::Third).unwrap().to_string(), "ǒ");
    assert_eq!(ToneMark::new('i', Tone::Fourth).unwrap().to_string(), "ì");
    assert_eq!(ToneMark::new('u', Tone::Neutral).unwrap().to_string(), "u");
    assert_eq!(ToneMark::new('ü', Tone::Third).unwrap().to_string(), "ǚ");
    assert_eq!(ToneMark::new('n', Tone::Third).unwrap().to_string(), "ň");
    assert_eq!(ToneMark::new('m', Tone::Second).unwrap().to_string(), "ḿ");
    assert_eq!(ToneMark::new('m', Tone::Fourth).unwrap().to_string(), "m\u{300}");
}

#[test]
fn single_character_of_a_mark() {
    assert_eq!(ToneMark::new('ü', Tone::First).unwrap().accent(), 'ǖ');
    assert_eq!(ToneMark::new('a', Tone::Neutral).unwrap().accent(), 'a');
    assert_eq!(ToneMark::new('m', Tone::Fourth).unwrap().accent(), 'm');
}

#[test]
fn find_nothing_in_empty_text() {
    assert_eq!(ToneMark::find(""), vec![]);
    assert_eq!(ToneMark::find("bcd"), vec![]);
}

#[test]
fn find_reports_bare_vowels_as_neutral() {
    assert_eq!(
        ToneMark::find("guo"),
        marks(&[('o', Tone::Neutral), ('u', Tone::Neutral)])
    );
}

#[test]
fn find_reports_in_the_order_of_the_table() {
    assert_eq!(
        ToneMark::find("ǜùiéa"),
        marks(&[
            ('a', Tone::Neutral),
            ('e', Tone::Second),
            ('i', Tone::Neutral),
            ('u', Tone::Fourth),
            ('ü', Tone::Fourth),
        ])
    );
}

#[test]
fn find_reports_a_mark_once() {
    assert_eq!(ToneMark::find("āāā"), marks(&[('a', Tone::First)]));
}

#[test]
fn find_reports_the_nasals() {
    assert_eq!(ToneMark::find("ń"), marks(&[('n', Tone::Second)]));
    assert_eq!(ToneMark::find("ḿ"), marks(&[('m', Tone::Second)]));
    assert_eq!(ToneMark::find("m\u{300}"), marks(&[('m', Tone::Fourth)]));
    assert_eq!(ToneMark::find("xm\u{300}ǹ"), marks(&[('n', Tone::Fourth), ('m', Tone::Fourth)]));
}

#[test]
fn find_wants_the_grave_right_after_m() {
    assert_eq!(ToneMark::find("m"), vec![]);
    assert_eq!(ToneMark::find("\u{300}m"), vec![]);
    assert_eq!(ToneMark::find("mb\u{300}"), vec![]);
    assert_eq!(ToneMark::find("n\u{300}"), vec![]);
}

#[test]
fn replace_leaves_bare_text() {
    assert_eq!(ToneMark::replace_tone_marks(""), "");
    assert_eq!(ToneMark::replace_tone_marks("zhuang"), "zhuang");
    assert_eq!(ToneMark::replace_tone_marks("nü"), "nü");
}

#[test]
fn replace_takes_the_diacritics_off() {
    assert_eq!(ToneMark::replace_tone_marks("zhuāng"), "zhuang");
    assert_eq!(ToneMark::replace_tone_marks("lǚ"), "lü");
    assert_eq!(ToneMark::replace_tone_marks("āáǎàēéěèōóǒòīíǐìūúǔùǖǘǚǜ"), "aaaaeeeeooooiiiiuuuuüüüü");
    assert_eq!(ToneMark::replace_tone_marks("ńňǹḿ"), "nnnm");
}

#[test]
fn replace_takes_the_grave_off_m_only() {
    assert_eq!(ToneMark::replace_tone_marks("m\u{300}"), "m");
    assert_eq!(ToneMark::replace_tone_marks("m\u{300}m\u{300}a"), "mma");
    assert_eq!(ToneMark::replace_tone_marks("m\u{300}\u{300}"), "m\u{300}");
    assert_eq!(ToneMark::replace_tone_marks("a\u{300}"), "a\u{300}");
    assert_eq!(ToneMark::replace_tone_marks("\u{300}m"), "\u{300}m");
    assert_eq!(ToneMark::replace_tone_marks("ḿ\u{300}"), "m\u{300}");
}

#[test]
fn replace_keeps_other_characters() {
    assert_eq!(ToneMark::replace_tone_marks("Hǎo, 好!"), "Hao, 好!");
}
