use pinyin::rhyme::{
    COMPOUND_VOWEL_RHYME_TABLE, RHYME_TABLE, RHYME_TABLE_COLUMN_A, RHYME_TABLE_COLUMN_I,
    RHYME_TABLE_COLUMN_U, RHYME_TABLE_COLUMN_YU, SIMPLE_VOWEL_RHYME_TABLE,
};
use pinyin::{Error, Rhyme, Slots};

fn slots(text: &str) -> [char; 4] {
    let mut slots = [' '; 4];
    for (i, c) in text.chars().enumerate() {
        slots[i] = c;
    }
    slots
}

fn rhyme(text: &str) -> Rhyme {
    Rhyme::new(slots(text)).unwrap()
}

#[test]
fn table_has_thirty_seven_finals() {
    assert_eq!(RHYME_TABLE.len(), 37);
    for (i, a) in RHYME_TABLE.iter().enumerate() {
        for b in RHYME_TABLE.iter().skip(i + 1) {
            assert_ne!(a, b);
        }
    }
}

#[test]
fn table_is_its_four_columns() {
    let mut columns: Vec<[char; 4]> = Vec::new();
    columns.extend(RHYME_TABLE_COLUMN_A);
    columns.extend(RHYME_TABLE_COLUMN_I);
    columns.extend(RHYME_TABLE_COLUMN_U);
    columns.extend(RHYME_TABLE_COLUMN_YU);
    assert_eq!(columns, RHYME_TABLE.to_vec());
}

#[test]
fn every_final_of_the_table_is_accepted() {
    for row in RHYME_TABLE {
        let rhyme = Rhyme::new(row).unwrap();
        assert_eq!(rhyme.slots(), Slots::new(row[0], row[1], row[2], row[3]));
    }
}

#[test]
fn a_final_with_a_foreign_letter_is_rejected() {
    for row in RHYME_TABLE {
        for k in 0..4 {
            for c in ['b', 'y', 'w', 'ā', 'A', 'ŋ', 'h', 'v', '1'] {
                let mut altered = row;
                altered[k] = c;
                assert_eq!(Rhyme::new(altered), Err(Error::InvalidRhyme));
            }
        }
    }
}

#[test]
fn a_changed_final_is_accepted_only_as_a_row() {
    for row in RHYME_TABLE {
        for k in 0..4 {
            for c in ['a', 'o', 'e', 'ê', 'i', 'u', 'ü', 'r', 'n', 'g', ' '] {
                let mut altered = row;
                altered[k] = c;
                assert_eq!(Rhyme::new(altered).is_ok(), RHYME_TABLE.contains(&altered));
            }
        }
    }
}

#[test]
fn no_part_and_no_other_order_is_accepted() {
    assert_eq!(Rhyme::new([' ', ' ', ' ', ' ']), Err(Error::InvalidRhyme));
    assert_eq!(Rhyme::new([' ', 'a', ' ', ' ']), Err(Error::InvalidRhyme));
    assert_eq!(Rhyme::new(['n', 'a', ' ', ' ']), Err(Error::InvalidRhyme));
    assert_eq!(Rhyme::new(['a', ' ', 'n', ' ']), Err(Error::InvalidRhyme));
    assert_eq!(Rhyme::new(['i', 'a', 'n', 'n']), Err(Error::InvalidRhyme));
    assert_eq!(Rhyme::new(['u', 'n', ' ', ' ']), Err(Error::InvalidRhyme));
    assert_eq!(Rhyme::new(['i', 'u', ' ', ' ']), Err(Error::InvalidRhyme));
    assert_eq!(Rhyme::new(['u', 'i', ' ', ' ']), Err(Error::InvalidRhyme));
    assert_eq!(Rhyme::new(['u', 'e', ' ', ' ']), Err(Error::InvalidRhyme));
}

#[test]
fn rule_prefers_a() {
    assert_eq!(Rhyme::tone_mark_rule(&slots("a")), Ok('a'));
    assert_eq!(Rhyme::tone_mark_rule(&slots("iao")), Ok('a'));
    assert_eq!(Rhyme::tone_mark_rule(&slots("uai")), Ok('a'));
    assert_eq!(Rhyme::tone_mark_rule(&slots("üan")), Ok('a'));
    assert_eq!(Rhyme::tone_mark_rule(&slots("oea")), Ok('a'));
}

#[test]
fn rule_refuses_o_with_e() {
    assert_eq!(Rhyme::tone_mark_rule(&slots("oe")), Err(Error::OAndEConflict));
    assert_eq!(Rhyme::tone_mark_rule(&slots("ieo")), Err(Error::OAndEConflict));
}

#[test]
fn rule_takes_o_or_e() {
    assert_eq!(Rhyme::tone_mark_rule(&slots("ou")), Ok('o'));
    assert_eq!(Rhyme::tone_mark_rule(&slots("iong")), Ok('o'));
    assert_eq!(Rhyme::tone_mark_rule(&slots("uei")), Ok('e'));
    assert_eq!(Rhyme::tone_mark_rule(&slots("üe")), Ok('e'));
    assert_eq!(Rhyme::tone_mark_rule(&slots("er")), Ok('e'));
}

#[test]
fn rule_refuses_yu_with_i_or_u() {
    assert_eq!(Rhyme::tone_mark_rule(&slots("üi")), Err(Error::UmlautConflict));
    assert_eq!(Rhyme::tone_mark_rule(&slots("uü")), Err(Error::UmlautConflict));
    assert_eq!(Rhyme::tone_mark_rule(&slots("ü")), Ok('ü'));
    assert_eq!(Rhyme::tone_mark_rule(&slots("ün")), Ok('ü'));
}

#[test]
fn rule_takes_the_later_of_i_and_u() {
    assert_eq!(Rhyme::tone_mark_rule(&slots("iu")), Ok('u'));
    assert_eq!(Rhyme::tone_mark_rule(&slots("ui")), Ok('i'));
    assert_eq!(Rhyme::tone_mark_rule(&[' ', 'u', ' ', 'i']), Ok('i'));
    assert_eq!(Rhyme::tone_mark_rule(&['i', 'n', 'u', ' ']), Ok('u'));
    assert_eq!(Rhyme::tone_mark_rule(&['u', 'i', 'u', ' ']), Ok('i'));
    assert_eq!(Rhyme::tone_mark_rule(&['i', 'u', 'i', ' ']), Ok('u'));
}

#[test]
fn rule_takes_i_or_u_alone() {
    assert_eq!(Rhyme::tone_mark_rule(&slots("in")), Ok('i'));
    assert_eq!(Rhyme::tone_mark_rule(&slots("ing")), Ok('i'));
    assert_eq!(Rhyme::tone_mark_rule(&slots("u")), Ok('u'));
    assert_eq!(Rhyme::tone_mark_rule(&slots("un")), Ok('u'));
}

#[test]
fn rule_finds_no_vowel() {
    assert_eq!(Rhyme::tone_mark_rule(&slots("")), Err(Error::NoVowelToMark));
    assert_eq!(Rhyme::tone_mark_rule(&slots("ng")), Err(Error::NoVowelToMark));
    assert_eq!(Rhyme::tone_mark_rule(&slots("ê")), Err(Error::NoVowelToMark));
    assert_eq!(Rhyme::tone_mark_rule(&slots("ā")), Err(Error::NoVowelToMark));
}

#[test]
fn every_final_but_one_has_a_vowel() {
    for row in RHYME_TABLE {
        let rhyme = Rhyme::new(row).unwrap();
        assert_eq!(rhyme.has_vowel(), row != ['ê', ' ', ' ', ' ']);
        if rhyme.has_vowel() {
            assert_eq!(Ok(rhyme.vowel()), Rhyme::tone_mark_rule(&row));
            assert!(row.contains(&rhyme.vowel()));
        }
    }
}

#[test]
fn vowels_of_some_finals() {
    assert_eq!(rhyme("iou").vowel(), 'o');
    assert_eq!(rhyme("uei").vowel(), 'e');
    assert_eq!(rhyme("uen").vowel(), 'e');
    assert_eq!(rhyme("iang").vowel(), 'a');
    assert_eq!(rhyme("ün").vowel(), 'ü');
    assert_eq!(rhyme("ing").vowel(), 'i');
    assert_eq!(rhyme("u").vowel(), 'u');
}

#[test]
fn simple_finals_are_those_of_their_table() {
    assert_eq!(SIMPLE_VOWEL_RHYME_TABLE.len(), 13);
    for row in RHYME_TABLE {
        assert_eq!(Rhyme::new(row).unwrap().is_simple(), SIMPLE_VOWEL_RHYME_TABLE.contains(&row));
    }
    assert!(rhyme("a").is_simple());
    assert!(rhyme("er").is_simple());
    assert!(rhyme("üe").is_simple());
    assert!(!rhyme("ai").is_simple());
    assert!(!rhyme("an").is_simple());
}

#[test]
fn compound_finals_are_those_of_their_table() {
    assert_eq!(COMPOUND_VOWEL_RHYME_TABLE.len(), 8);
    for row in RHYME_TABLE {
        assert_eq!(
            Rhyme::new(row).unwrap().is_compound(),
            COMPOUND_VOWEL_RHYME_TABLE.contains(&row)
        );
    }
    assert!(rhyme("ai").is_compound());
    assert!(rhyme("uei").is_compound());
    assert!(!rhyme("a").is_compound());
    assert!(!rhyme("ian").is_compound());
}

#[test]
fn nasal_finals_end_in_n_or_g() {
    let nasal = [
        "an", "ian", "uan", "üan", "en", "uen", "in", "ün", "ang", "iang", "uang", "eng", "ing",
        "ueng", "ong", "iong",
    ];
    for row in RHYME_TABLE {
        let text: String = row.iter().filter(|c| **c != ' ').collect();
        assert_eq!(Rhyme::new(row).unwrap().is_nasal(), nasal.contains(&text.as_str()));
    }
}

#[test]
fn finals_are_written_without_blanks() {
    assert_eq!(rhyme("a").to_string(), "a");
    assert_eq!(rhyme("er").to_string(), "er");
    assert_eq!(rhyme("iou").to_string(), "iou");
    assert_eq!(rhyme("ueng").to_string(), "ueng");
    assert_eq!(rhyme("ü").to_string(), "ü");
    assert_eq!(rhyme("ê").to_string(), "ê");
}
