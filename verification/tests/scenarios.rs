use pinyin::{
    from_str, AnySyllable, Error, Initial, NasalSyllable, NormalSyllable, Rhyme, RhymeSyllable,
    Syllable, SyllableKind, Tone,
};

fn rhyme(text: &str) -> Rhyme {
    let mut slots = [' '; 4];
    for (i, c) in text.chars().enumerate() {
        slots[i] = c;
    }
    Rhyme::new(slots).unwrap()
}

#[test]
fn tone_vowel_of_ui_is_i() {
    assert_eq!(Rhyme::tone_mark_rule(&['u', 'i', ' ', ' ']), Ok('i'));
}

#[test]
fn tone_vowel_of_iu_is_u() {
    assert_eq!(Rhyme::tone_mark_rule(&['i', 'u', ' ', ' ']), Ok('u'));
}

#[test]
fn tone_vowel_of_iao_is_a() {
    assert_eq!(Rhyme::tone_mark_rule(&['i', 'a', 'o', ' ']), Ok('a'));
}

#[test]
fn tone_vowel_of_yu_is_yu() {
    assert_eq!(Rhyme::tone_mark_rule(&['ü', ' ', ' ', ' ']), Ok('ü'));
}

#[test]
fn ju_is_written_without_dots() {
    let x = NormalSyllable::new(Initial::j(), rhyme("ü"), Tone::Neutral).unwrap();
    assert_eq!(x.to_string(), "ju");
    let x = NormalSyllable::new(Initial::j(), rhyme("ü"), Tone::Second).unwrap();
    assert_eq!(x.to_string(), "jú");
}

#[test]
fn ju_is_read_with_dots() {
    let x = NormalSyllable::from_str("jú").unwrap();
    assert_eq!(x.initial(), Some(Initial::j()));
    assert_eq!(x.finals(), Some(rhyme("ü")));
    assert_eq!(x.tone(), Tone::Second);
    let x = NormalSyllable::from_str("ju").unwrap();
    assert_eq!(x.finals(), Some(rhyme("ü")));
    assert_eq!(x.tone(), Tone::Neutral);
}

#[test]
fn finals_alone_take_y_and_w() {
    assert_eq!(RhymeSyllable::new(rhyme("i"), Tone::First).unwrap().to_string(), "yī");
    assert_eq!(RhymeSyllable::new(rhyme("u"), Tone::First).unwrap().to_string(), "wū");
    assert_eq!(RhymeSyllable::new(rhyme("üe"), Tone::Fourth).unwrap().to_string(), "yuè");
}

#[test]
fn uei_is_written_ui_after_an_initial() {
    let g = Initial::new('g').unwrap();
    let x = NormalSyllable::new(g, rhyme("uei"), Tone::First).unwrap();
    assert_eq!(x.to_string(), "guī");
    let back = from_str("guī").unwrap();
    assert_eq!(back, AnySyllable::Normal(x));
    assert_eq!(back.finals(), Some(rhyme("uei")));
}

#[test]
fn yi_is_read_as_a_whole() {
    let x = from_str("yi").unwrap();
    assert_eq!(x.kind(), SyllableKind::Primitive);
    assert!(matches!(x, AnySyllable::Primitive(_)));
    assert_eq!(x.tone(), Tone::Neutral);
}

#[test]
fn m_has_no_third_tone() {
    assert_eq!(NasalSyllable::new(Initial::m(), Tone::Third), Err(Error::VariantMismatch));
    let x = NasalSyllable::new(Initial::m(), Tone::Second).unwrap();
    assert_eq!(x.to_string(), "ḿ");
}
