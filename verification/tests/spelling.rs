use pinyin::spelling::{
    after_initial, alone, from_after_initial, from_alone, spell_final_ng, CONTRACTION_TABLE,
    ELISION_TABLE, ENG, ZERO_INITIAL_TABLE,
};
use pinyin::{Initial, Slots};

fn slots(text: &str) -> Slots {
    let mut a = [' '; 4];
    for (i, c) in text.chars().enumerate() {
        a[i] = c;
    }
    Slots::from_array(&a)
}

fn initial(c: char) -> Initial {
    Initial::new(c).unwrap()
}

#[test]
fn tables_of_the_written_forms() {
    assert_eq!(CONTRACTION_TABLE.len(), 3);
    assert_eq!(ELISION_TABLE.len(), 2);
    assert_eq!(ZERO_INITIAL_TABLE.len(), 23);
    assert_eq!(ENG, 'ŋ');
    for (i, a) in ZERO_INITIAL_TABLE.iter().enumerate() {
        for b in ZERO_INITIAL_TABLE.iter().skip(i + 1) {
            assert_ne!(a.0, b.0);
            assert_ne!(a.1, b.1);
        }
    }
}

#[test]
fn three_finals_are_short_after_an_initial() {
    let n = initial('n');
    assert_eq!(after_initial(slots("iou"), &n), slots("iu"));
    assert_eq!(after_initial(slots("uei"), &n), slots("ui"));
    assert_eq!(after_initial(slots("uen"), &n), slots("un"));
    assert_eq!(after_initial(slots("ueng"), &n), slots("ueng"));
    assert_eq!(after_initial(slots("ou"), &n), slots("ou"));
    assert_eq!(after_initial(slots("ü"), &n), slots("ü"));
    assert_eq!(after_initial(slots("üe"), &n), slots("üe"));
}

#[test]
fn two_finals_lose_their_dots_after_j_q_x() {
    for c in ['j', 'q', 'x'] {
        let i = initial(c);
        assert_eq!(after_initial(slots("ü"), &i), slots("u"));
        assert_eq!(after_initial(slots("üe"), &i), slots("ue"));
        assert_eq!(after_initial(slots("üan"), &i), slots("üan"));
        assert_eq!(after_initial(slots("ün"), &i), slots("ün"));
        assert_eq!(after_initial(slots("iou"), &i), slots("iu"));
        assert_eq!(from_after_initial(slots("u"), &i), slots("ü"));
        assert_eq!(from_after_initial(slots("ue"), &i), slots("üe"));
        assert_eq!(from_after_initial(slots("un"), &i), slots("uen"));
        assert_eq!(from_after_initial(slots("uan"), &i), slots("uan"));
    }
}

#[test]
fn short_forms_are_spelled_out() {
    let l = initial('l');
    assert_eq!(from_after_initial(slots("iu"), &l), slots("iou"));
    assert_eq!(from_after_initial(slots("ui"), &l), slots("uei"));
    assert_eq!(from_after_initial(slots("un"), &l), slots("uen"));
    assert_eq!(from_after_initial(slots("u"), &l), slots("u"));
    assert_eq!(from_after_initial(slots("ue"), &l), slots("ue"));
    assert_eq!(from_after_initial(slots("iou"), &l), slots("iou"));
    assert_eq!(from_after_initial(slots("ung"), &l), slots("ung"));
}

#[test]
fn finals_alone_follow_their_table() {
    for (bare, written) in ZERO_INITIAL_TABLE {
        assert_eq!(alone(Slots::from_array(&bare)), Slots::from_array(&written));
        assert_eq!(from_alone(Slots::from_array(&written)), Slots::from_array(&bare));
    }
    assert_eq!(alone(slots("i")), slots("yi"));
    assert_eq!(alone(slots("iou")), slots("you"));
    assert_eq!(alone(slots("uen")), slots("wen"));
    assert_eq!(alone(slots("üan")), slots("yuan"));
    assert_eq!(from_alone(slots("ying")), slots("ing"));
    assert_eq!(from_alone(slots("yun")), slots("ün"));
}

#[test]
fn other_finals_alone_stay_as_they_are() {
    for text in ["a", "o", "e", "ê", "er", "ai", "ang", "ong", "yi", "wu", "x"] {
        assert_eq!(alone(slots(text)), slots(text));
    }
    for text in ["a", "er", "ong", "i", "ian", "u", "ü", "üe", "yü", "wi", "y"] {
        assert_eq!(from_alone(slots(text)), slots(text));
    }
}

#[test]
fn last_eng_is_spelled_out() {
    let chars = |s: &str| s.chars().collect::<Vec<char>>();
    assert_eq!(spell_final_ng(chars("aŋ")), chars("ang"));
    assert_eq!(spell_final_ng(chars("ŋ")), chars("ng"));
    assert_eq!(spell_final_ng(chars("ang")), chars("ang"));
    assert_eq!(spell_final_ng(chars("")), chars(""));
    assert_eq!(spell_final_ng(chars("ŋa")), chars("ŋa"));
    assert_eq!(spell_final_ng(chars("ŋŋ")), chars("ŋng"));
}
