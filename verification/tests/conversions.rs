use konj::convert::build_conversion_data;
use konj::to_hiragana;
use konj::to_katakana;
use konj::to_romaji;
use konj::ConvertError;

fn chars(s: &str) -> Vec<char> {
    s.chars().collect()
}

#[test]
fn test_to_hiragana() {
    let data = build_conversion_data();
    assert_eq!(to_hiragana(&chars("shinkansen"), &data), Ok(chars("しんかんせん")));
    assert_eq!(to_hiragana(&chars("はは"), &data), Ok(chars("はは")));
    assert_eq!(to_hiragana(&chars("doki"), &data), Ok(chars("どき")));
    assert_eq!(to_hiragana(&chars("kippu"), &data), Ok(chars("きっぷ")));
    assert_eq!(to_hiragana(&chars("きっう"), &data), Ok(chars("きっう")));
}

#[test]
fn test_to_katakana() {
    let data = build_conversion_data();
    assert_eq!(to_katakana(&chars("shinkansen"), &data), Ok(chars("シンカンセン")));
    assert_eq!(to_katakana(&chars("はは"), &data), Ok(chars("ハハ")));
    assert_eq!(to_katakana(&chars("doki"), &data), Ok(chars("ドキ")));
    assert_eq!(to_katakana(&chars("kippu"), &data), Ok(chars("キップ")));
    assert_eq!(to_katakana(&chars("きっう"), &data), Ok(chars("キッウ")));
}

#[test]
fn test_to_romaji() {
    let data = build_conversion_data();
    assert_eq!(to_romaji(&chars("shinkansen"), &data), Ok(chars("shinkansen")));
    assert_eq!(to_romaji(&chars("はは"), &data), Ok(chars("haha")));
    assert_eq!(to_romaji(&chars("ドキ"), &data), Ok(chars("doki")));
    assert_eq!(to_romaji(&chars("きっぷ"), &data), Ok(chars("kippu")));
    assert_eq!(to_romaji(&chars("きっう"), &data), Ok(chars("kiっu")));
}

#[test]
fn round_trip_through_romaji_is_stable_on_hiragana() {
    let data = build_conversion_data();
    for input in ["shinkansen", "kippu", "doki", "haha", "si", "who"] {
        let hiragana = to_hiragana(&chars(input), &data).unwrap();
        let romaji = to_romaji(&hiragana, &data).unwrap();
        let again = to_hiragana(&romaji, &data).unwrap();
        assert_eq!(again, hiragana);
    }
}

#[test]
fn round_trip_normalizes_secondary_spelling() {
    let data = build_conversion_data();
    let hiragana = to_hiragana(&chars("si"), &data).unwrap();
    assert_eq!(hiragana, chars("し"));
    assert_eq!(to_romaji(&hiragana, &data), Ok(chars("shi")));
}

#[test]
fn longest_match_takes_whole_syllable() {
    let data = build_conversion_data();
    assert_eq!(to_hiragana(&chars("kya"), &data), Ok(chars("きゃ")));
}

#[test]
fn gemination_produces_sokuon() {
    let data = build_conversion_data();
    assert_eq!(to_hiragana(&chars("kippu"), &data), Ok(chars("きっぷ")));
}

#[test]
fn katakana_mirroring() {
    let data = build_conversion_data();
    assert_eq!(to_katakana(&chars("shinkansen"), &data), Ok(chars("シンカンセン")));
    assert_eq!(to_hiragana(&chars("shinkansen"), &data), Ok(chars("しんかんせん")));
}

#[test]
fn hiragana_passes_through_unvalidated() {
    let data = build_conversion_data();
    assert_eq!(to_hiragana(&chars("きっう"), &data), Ok(chars("きっう")));
}

#[test]
fn mixed_scripts_are_unrecognized() {
    let data = build_conversion_data();
    assert_eq!(to_hiragana(&chars("abcあいう"), &data), Err(ConvertError::UnrecognizedScript));
    assert_eq!(to_katakana(&chars("abcあいう"), &data), Err(ConvertError::UnrecognizedScript));
    assert_eq!(to_romaji(&chars("abcあいう"), &data), Err(ConvertError::UnrecognizedScript));
}

#[test]
fn empty_input_is_unrecognized() {
    let data = build_conversion_data();
    assert_eq!(to_hiragana(&chars(""), &data), Err(ConvertError::UnrecognizedScript));
    assert_eq!(to_katakana(&chars(""), &data), Err(ConvertError::UnrecognizedScript));
    assert_eq!(to_romaji(&chars(""), &data), Err(ConvertError::UnrecognizedScript));
}

#[test]
fn digraph_vowel_round_trips_through_its_dominant_spelling() {
    let data = build_conversion_data();
    assert_eq!(to_hiragana(&chars("who"), &data), Ok(chars("うぉ")));
    assert_eq!(to_romaji(&chars("うぉ"), &data), Ok(chars("who")));
}

#[test]
fn reverse_gemination_doubles_the_consonant() {
    let data = build_conversion_data();
    assert_eq!(to_romaji(&chars("きっぷ"), &data), Ok(chars("kippu")));
}

#[test]
fn whitespace_is_tolerated_inside_a_script() {
    let data = build_conversion_data();
    assert_eq!(to_hiragana(&chars("ha ha"), &data), Ok(chars("は は")));
    assert_eq!(to_romaji(&chars("はは　どき"), &data), Ok(chars("haha　doki")));
}

#[test]
fn punctuation_converts_with_the_syllables() {
    let data = build_conversion_data();
    assert_eq!(to_hiragana(&chars("ka?"), &data), Ok(chars("か？")));
}
