use konj::lexer::lex;
use konj::lexer::parse;
use konj::lexer::LexItem;

fn chars(s: &str) -> Vec<char> {
    s.chars().collect()
}

#[test]
fn test_lex() {
    assert_eq!(lex(&chars("けしゴム")), vec![chars("けし"), chars("ゴム")]);
}

#[test]
fn lex_splits_every_script_change() {
    assert_eq!(
        lex(&chars("abc12あゆ東京ネコ")),
        vec![chars("abc"), chars("12"), chars("あゆ"), chars("東京"), chars("ネコ")],
    );
}

#[test]
fn lex_of_empty_input_is_empty() {
    assert_eq!(lex(&chars("")), Vec::<Vec<char>>::new());
}

#[test]
fn parse_buckets_by_code_point_range() {
    assert_eq!(parse('ネ'), LexItem::Katakana);
    assert_eq!(parse('あ'), LexItem::Hiragana);
    assert_eq!(parse('東'), LexItem::Kanji);
    assert_eq!(parse('7'), LexItem::Num);
    assert_eq!(parse('q'), LexItem::Rom);
    assert_eq!(parse(' '), LexItem::Space);
    assert_eq!(parse('　'), LexItem::Space);
    assert_eq!(parse('\n'), LexItem::Other);
}
