use pinyin::text::{chars_of, contains, string_of, BLANK};
use pinyin::{Slots, SYLLABLE_DIVIDING_MARK};

fn chars(text: &str) -> Vec<char> {
    text.chars().collect()
}

#[test]
fn dividing_mark_is_the_apostrophe() {
    assert_eq!(SYLLABLE_DIVIDING_MARK, '\'');
    assert_eq!(BLANK, ' ');
}

#[test]
fn characters_of_a_string() {
    assert_eq!(chars_of(""), chars(""));
    assert_eq!(chars_of("zhuāng"), vec!['z', 'h', 'u', 'ā', 'n', 'g']);
    assert_eq!(chars_of("m\u{300}"), vec!['m', '\u{300}']);
    assert_eq!(chars_of("好"), vec!['好']);
}

#[test]
fn string_of_characters() {
    assert_eq!(string_of(&[]), "");
    assert_eq!(string_of(&['l', 'ǚ']), "lǚ");
    assert_eq!(string_of(&['m', '\u{300}', '好', ' ']), "m\u{300}好 ");
    for text in ["", "a", "nǐ hǎo", "ŋẑĉŝê"] {
        assert_eq!(string_of(&chars_of(text)), text);
    }
}

#[test]
fn pattern_is_found_anywhere() {
    let text = chars("zhuang");
    assert!(contains(&text, &chars("zh")));
    assert!(contains(&text, &chars("ua")));
    assert!(contains(&text, &chars("ng")));
    assert!(contains(&text, &chars("g")));
    assert!(contains(&text, &chars("zhuang")));
    assert!(contains(&text, &chars("")));
    assert!(contains(&chars(""), &chars("")));
}

#[test]
fn pattern_is_not_found_in_pieces() {
    let text = chars("zhuang");
    assert!(!contains(&text, &chars("zu")));
    assert!(!contains(&text, &chars("gn")));
    assert!(!contains(&text, &chars("zhuangg")));
    assert!(!contains(&text, &chars("x")));
    assert!(!contains(&chars(""), &chars("a")));
    assert!(!contains(&chars("aab"), &chars("abb")));
    assert!(contains(&chars("aab"), &chars("ab")));
}

#[test]
fn slots_from_an_array() {
    let s = Slots::from_array(&['i', 'a', 'n', 'g']);
    assert_eq!(s, Slots::new('i', 'a', 'n', 'g'));
    assert_eq!((s.c0, s.c1, s.c2, s.c3), ('i', 'a', 'n', 'g'));
}

#[test]
fn slots_hold_their_letters() {
    let s = Slots::new('u', 'e', 'i', ' ');
    assert!(s.contains('u'));
    assert!(s.contains('e'));
    assert!(s.contains('i'));
    assert!(s.contains(' '));
    assert!(!s.contains('a'));
}

#[test]
fn slots_with_a_letter_replaced() {
    let s = Slots::new('u', 'e', 'i', ' ');
    assert_eq!(s.substitute('e', 'ē'), Slots::new('u', 'ē', 'i', ' '));
    assert_eq!(s.substitute('a', 'ā'), s);
    assert_eq!(Slots::new('a', 'b', 'a', 'a').substitute('a', 'x'), Slots::new('x', 'b', 'x', 'x'));
}

#[test]
fn slots_are_read_from_short_text_without_blanks() {
    assert_eq!(Slots::from_text(&chars("")), Some(Slots::new(' ', ' ', ' ', ' ')));
    assert_eq!(Slots::from_text(&chars("a")), Some(Slots::new('a', ' ', ' ', ' ')));
    assert_eq!(Slots::from_text(&chars("ng")), Some(Slots::new('n', 'g', ' ', ' ')));
    assert_eq!(Slots::from_text(&chars("uei")), Some(Slots::new('u', 'e', 'i', ' ')));
    assert_eq!(Slots::from_text(&chars("iang")), Some(Slots::new('i', 'a', 'n', 'g')));
    assert_eq!(Slots::from_text(&chars("iangx")), None);
    assert_eq!(Slots::from_text(&chars("a ")), None);
    assert_eq!(Slots::from_text(&chars(" a")), None);
    assert_eq!(Slots::from_text(&chars("a b")), None);
    assert_eq!(Slots::from_text(&chars(" ")), None);
}

#[test]
fn slots_are_written_up_to_the_first_blank() {
    let mut out = vec!['x'];
    Slots::new('u', 'e', 'i', ' ').write(&mut out);
    assert_eq!(out, chars("xuei"));
    Slots::new(' ', ' ', ' ', ' ').write(&mut out);
    assert_eq!(out, chars("xuei"));
    Slots::new('a', ' ', 'b', 'c').write(&mut out);
    assert_eq!(out, chars("xueia"));
    Slots::new('i', 'o', 'n', 'g').write(&mut out);
    assert_eq!(out, chars("xueiaiong"));
}
