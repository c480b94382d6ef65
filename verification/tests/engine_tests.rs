use konj::convert::build_conversion_data;
use konj::is_fully_hiragana;
use konj::is_fully_katakana;
use konj::is_fully_romaji;
use konj::strings::is_char_between_char_range;
use konj::strings::is_str_between_char_range;
use konj::strings::repeatedly_replace_str_with_map;
use konj::strings::MappingTable;
use konj::transform_input;

fn chars(s: &str) -> Vec<char> {
    s.chars().collect()
}

fn table(entries: &[(&str, &str)]) -> MappingTable {
    entries.iter().map(|(k, v)| (chars(k), chars(v))).collect()
}

#[test]
fn replace_is_non_overlapping_and_leftmost() {
    let t = table(&[("aa", "b")]);
    assert_eq!(repeatedly_replace_str_with_map(&chars("aaa"), &t), chars("ba"));
    assert_eq!(repeatedly_replace_str_with_map(&chars("aaaa"), &t), chars("bb"));
}

#[test]
fn replace_without_a_match_returns_the_input() {
    let t = table(&[("xy", "z")]);
    assert_eq!(repeatedly_replace_str_with_map(&chars("abc"), &t), chars("abc"));
}

#[test]
fn replace_applies_entries_in_table_order() {
    let t = table(&[("a", "b"), ("b", "c")]);
    assert_eq!(repeatedly_replace_str_with_map(&chars("a"), &t), chars("c"));
}

#[test]
fn transform_prefers_the_longest_key() {
    let t = table(&[("a", "X"), ("aa", "Y")]);
    assert_eq!(transform_input(&chars("aa"), &t), chars("Y"));
    assert_eq!(transform_input(&chars("aaa"), &t), chars("YX"));
}

#[test]
fn dominant_spelling_wins_in_the_inverse_table() {
    let data = build_conversion_data();
    let ka = data
        .hiragana_to_romaji
        .iter()
        .find(|(k, _)| *k == chars("か"))
        .map(|(_, v)| v.clone());
    assert_eq!(ka, Some(chars("ka")));
}

#[test]
fn every_digraph_vowel_keeps_a_dominant_reverse_spelling() {
    let data = build_conversion_data();
    let wo = data
        .hiragana_to_romaji
        .iter()
        .find(|(k, _)| *k == chars("うぉ"))
        .map(|(_, v)| v.clone());
    assert_eq!(wo, Some(chars("who")));
}

#[test]
fn secondary_spellings_are_absent_from_the_inverse_table() {
    let data = build_conversion_data();
    assert!(data.hiragana_to_romaji.iter().all(|(_, v)| *v != chars("ca")));
    assert!(data.hiragana_to_romaji.iter().all(|(k, _)| *k != chars("っ")));
}

#[test]
fn char_range_test_accepts_range_and_whitespace() {
    assert!(is_char_between_char_range('あ', '\u{3040}', '\u{309F}'));
    assert!(is_char_between_char_range(' ', '\u{3040}', '\u{309F}'));
    assert!(!is_char_between_char_range('a', '\u{3040}', '\u{309F}'));
}

#[test]
fn str_range_test_checks_every_character() {
    assert!(is_str_between_char_range(&chars("あい う"), '\u{3040}', '\u{309F}'));
    assert!(!is_str_between_char_range(&chars("あaい"), '\u{3040}', '\u{309F}'));
    assert!(is_str_between_char_range(&chars(""), '\u{3040}', '\u{309F}'));
}

#[test]
fn script_predicates_are_mutually_exclusive_on_plain_text() {
    let hira = chars("はは");
    let kata = chars("ハハ");
    let roma = chars("haha");
    assert!(is_fully_hiragana(&hira) && !is_fully_katakana(&hira) && !is_fully_romaji(&hira));
    assert!(!is_fully_hiragana(&kata) && is_fully_katakana(&kata) && !is_fully_romaji(&kata));
    assert!(!is_fully_hiragana(&roma) && !is_fully_katakana(&roma) && is_fully_romaji(&roma));
}
