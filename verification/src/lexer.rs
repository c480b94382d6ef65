//! Classification of single characters into scripts, and the lexer that
//! splits a string into maximal runs of one script.

use vstd::prelude::*;

use crate::constants::HIRAGANA_BEG;
use crate::constants::HIRAGANA_END;
use crate::constants::JAPANESE_SPACE;
use crate::constants::KANJI_BEG;
use crate::constants::KANJI_END;
use crate::constants::KATAKANA_BEG;
use crate::constants::KATAKANA_END;
use crate::constants::LATIN_NUM_BEG;
use crate::constants::LATIN_NUM_END;
use crate::constants::ROMAN_BEG;
use crate::constants::ROMAN_END;
use crate::constants::SPACE;
use crate::strings::char_in_range;
use crate::strings::spec_char_in_range;

verus! {

/// The script a single character belongs to.
#[derive(Clone, Copy, PartialEq, Eq, Structural, Debug)]
pub enum LexItem {
    Rom,
    Num,
    Kanji,
    Hiragana,
    Katakana,
    Space,
    Other,
}

/// Classification of one character by code-point range: katakana,
/// hiragana, kanji, a Latin digit, printable ASCII, a space (plain or
/// full-width), or none of these.
pub open spec fn spec_parse(c: char) -> LexItem {
    if spec_char_in_range(c, KATAKANA_BEG, KATAKANA_END) {
        LexItem::Katakana
    } else if spec_char_in_range(c, HIRAGANA_BEG, HIRAGANA_END) {
        LexItem::Hiragana
    } else if spec_char_in_range(c, KANJI_BEG, KANJI_END) {
        LexItem::Kanji
    } else if spec_char_in_range(c, LATIN_NUM_BEG, LATIN_NUM_END) {
        LexItem::Num
    } else if spec_char_in_range(c, ROMAN_BEG, ROMAN_END) {
        LexItem::Rom
    } else if c == JAPANESE_SPACE || c == SPACE {
        LexItem::Space
    } else {
        LexItem::Other
    }
}

pub fn parse(input: char) -> (r: LexItem)
    ensures
        r == spec_parse(input),
{
    if char_in_range(input, KATAKANA_BEG, KATAKANA_END) {
        LexItem::Katakana
    } else if char_in_range(input, HIRAGANA_BEG, HIRAGANA_END) {
        LexItem::Hiragana
    } else if char_in_range(input, KANJI_BEG, KANJI_END) {
        LexItem::Kanji
    } else if char_in_range(input, LATIN_NUM_BEG, LATIN_NUM_END) {
        LexItem::Num
    } else if char_in_range(input, ROMAN_BEG, ROMAN_END) {
        LexItem::Rom
    } else if input == JAPANESE_SPACE || input == SPACE {
        LexItem::Space
    } else {
        LexItem::Other
    }
}

/// The views of a sequence of character groups.
pub open spec fn groups_view(gs: Seq<Vec<char>>) -> Seq<Seq<char>> {
    Seq::new(gs.len(), |i: int| gs[i]@)
}

/// The partition of a string into maximal runs of characters of one
/// script: a character whose class equals the class of the character after
/// it joins that character's group, any other character opens a group of
/// its own.
pub open spec fn spec_lex(s: Seq<char>) -> Seq<Seq<char>>
    decreases s.len(),
{
    if s.len() == 0 {
        Seq::empty()
    } else {
        let rest = spec_lex(s.skip(1));
        if s.len() > 1 && spec_parse(s[1]) == spec_parse(s[0]) {
            seq![seq![s[0]] + rest[0]] + rest.skip(1)
        } else {
            seq![seq![s[0]]] + rest
        }
    }
}

/// Splits the input into maximal runs of characters of one script.
pub fn lex(input: &Vec<char>) -> (r: Vec<Vec<char>>)
    ensures
        groups_view(r@) == spec_lex(input@),
{
    let mut groups: Vec<Vec<char>> = Vec::new();
    let n = input.len();
    let mut i: usize = n;
    proof {
        assert(input@.skip(input@.len() as int) =~= Seq::<char>::empty());
        assert(groups_view(groups@) =~= Seq::<Seq<char>>::empty());
    }
    while i > 0
        invariant
            i <= n,
            n == input@.len(),
            groups_view(groups@) == spec_lex(input@.skip(i as int)),
        decreases i,
    {
        i = i - 1;
        let c = input[i];
        let ghost before = groups@;
        let ghost cur = input@.skip(i as int);
        let ghost rest = spec_lex(input@.skip(i + 1));
        proof {
            assert(cur[0] == input@[i as int]);
            assert(cur.skip(1) =~= input@.skip(i + 1));
        }
        let merge = if i + 1 < input.len() {
            parse(input[i + 1]) == parse(c)
        } else {
            false
        };
        if merge {
            proof {
                assert(cur[1] == input@[i + 1]);
                assert(rest.len() > 0);
                assert(rest.len() == groups@.len());
            }
            let mut g = groups.remove(0);
            g.insert(0, c);
            groups.insert(0, g);
            proof {
                assert(g@ =~= seq![c] + before[0]@);
                assert(groups_view(groups@) =~~= seq![seq![cur[0]] + rest[0]] + rest.skip(1));
            }
        } else {
            let mut g: Vec<char> = Vec::new();
            g.push(c);
            groups.insert(0, g);
            proof {
                assert(g@ =~= seq![cur[0]]);
                assert(groups_view(groups@) =~~= seq![seq![cur[0]]] + rest);
            }
        }
    }
    proof {
        assert(input@.skip(0) =~= input@);
    }
    groups
}

} // verus!
