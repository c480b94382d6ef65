pub mod constants;
pub mod convert;
pub mod double_consonants;
pub mod hiragana_to_katakana;
pub mod lexer;
pub mod maps;
pub mod strings;

use vstd::prelude::*;

use crate::constants::HIRAGANA_BEG;
use crate::constants::HIRAGANA_END;
use crate::constants::KATAKANA_BEG;
use crate::constants::KATAKANA_END;
use crate::constants::ROMAN_BEG;
use crate::constants::ROMAN_END;
use crate::convert::ConversionData;
use crate::strings::MappingTable;
use crate::strings::copy_chars;
use crate::strings::is_str_between_char_range;
use crate::strings::lemma_replace_all_no_occurrence;
use crate::strings::repeatedly_replace_str_with_map;
use crate::strings::replace_chars;
use crate::strings::spec_char_in_range;
use crate::strings::spec_char_tolerated;
use crate::strings::spec_is_whitespace;
use crate::strings::spec_occurs;
use crate::strings::spec_replace_all;
use crate::strings::spec_str_in_range;
use crate::strings::spec_table_wf;
use crate::strings::table_view;

verus! {

/// The entries of the table whose key is exactly `n` characters long, in
/// table order.
pub open spec fn spec_keys_of_len(pairs: Seq<(Seq<char>, Seq<char>)>, n: nat) -> Seq<
    (Seq<char>, Seq<char>),
>
    decreases pairs.len(),
{
    if pairs.len() == 0 {
        Seq::empty()
    } else if pairs[0].0.len() == n {
        seq![pairs[0]] + spec_keys_of_len(pairs.skip(1), n)
    } else {
        spec_keys_of_len(pairs.skip(1), n)
    }
}

/// The length, in characters, of the longest key of the table.
pub open spec fn spec_max_key_len(pairs: Seq<(Seq<char>, Seq<char>)>) -> nat
    decreases pairs.len(),
{
    if pairs.len() == 0 {
        0
    } else {
        let rest = spec_max_key_len(pairs.drop_last());
        if pairs.last().0.len() > rest {
            pairs.last().0.len()
        } else {
            rest
        }
    }
}

/// One length group after the other, longest first: the result of applying
/// the group of `n`-character keys, then the shorter groups down to length
/// one.
pub open spec fn spec_transform_from(
    s: Seq<char>,
    pairs: Seq<(Seq<char>, Seq<char>)>,
    n: nat,
) -> Seq<char>
    decreases n,
{
    if n == 0 {
        s
    } else {
        spec_transform_from(spec_replace_all(s, spec_keys_of_len(pairs, n)), pairs, (n - 1) as nat)
    }
}

/// Maximal-munch substitution: every length group of keys is applied in
/// turn, from the longest keys down to the shortest, so that a long key is
/// never fragmented by a shorter one.
pub open spec fn spec_transform(s: Seq<char>, pairs: Seq<(Seq<char>, Seq<char>)>) -> Seq<char> {
    spec_transform_from(s, pairs, spec_max_key_len(pairs))
}

proof fn lemma_keys_of_len_wf(pairs: Seq<(Seq<char>, Seq<char>)>, n: nat)
    requires
        spec_table_wf(pairs),
    ensures
        spec_table_wf(spec_keys_of_len(pairs, n)),
    decreases pairs.len(),
{
    if pairs.len() > 0 {
        assert(spec_table_wf(pairs.skip(1)));
        lemma_keys_of_len_wf(pairs.skip(1), n);
    }
}

proof fn lemma_keys_of_len_members(pairs: Seq<(Seq<char>, Seq<char>)>, n: nat)
    ensures
        forall|j: int|
            0 <= j < spec_keys_of_len(pairs, n).len() ==> exists|i: int|
                0 <= i < pairs.len() && (#[trigger] spec_keys_of_len(pairs, n)[j]) == pairs[i],
    decreases pairs.len(),
{
    if pairs.len() > 0 {
        lemma_keys_of_len_members(pairs.skip(1), n);
        let kol = spec_keys_of_len(pairs, n);
        let sub = spec_keys_of_len(pairs.skip(1), n);
        assert forall|j: int| 0 <= j < kol.len() implies exists|i: int|
            0 <= i < pairs.len() && (#[trigger] kol[j]) == pairs[i] by {
            if pairs[0].0.len() == n && j == 0 {
                assert(kol[j] == pairs[0]);
            } else {
                let j2 = if pairs[0].0.len() == n {
                    j - 1
                } else {
                    j
                };
                assert(kol[j] == sub[j2]);
                let i0 = choose|i: int|
                    0 <= i < pairs.skip(1).len() && sub[j2] == pairs.skip(1)[i];
                assert(pairs.skip(1)[i0] == pairs[i0 + 1]);
                assert(kol[j] == pairs[i0 + 1]);
            }
        }
    }
}

proof fn lemma_transform_from_no_occurrence(s: Seq<char>, pairs: Seq<(Seq<char>, Seq<char>)>, n: nat)
    requires
        spec_table_wf(pairs),
        forall|j: int| 0 <= j < pairs.len() ==> !spec_occurs(s, (#[trigger] pairs[j]).0),
    ensures
        spec_transform_from(s, pairs, n) == s,
    decreases n,
{
    if n > 0 {
        let kol = spec_keys_of_len(pairs, n);
        lemma_keys_of_len_wf(pairs, n);
        lemma_keys_of_len_members(pairs, n);
        assert forall|j: int| 0 <= j < kol.len() implies !spec_occurs(
            s,
            (#[trigger] kol[j]).0,
        ) by {
            let i0 = choose|i: int| 0 <= i < pairs.len() && kol[j] == pairs[i];
            assert(!spec_occurs(s, pairs[i0].0));
        }
        lemma_replace_all_no_occurrence(s, kol);
        lemma_transform_from_no_occurrence(s, pairs, (n - 1) as nat);
    }
}

/// Maximal-munch substitution over a table none of whose keys occurs in
/// the string returns the string unchanged: an input with no known token
/// is no error.
pub proof fn lemma_transform_no_occurrence(s: Seq<char>, pairs: Seq<(Seq<char>, Seq<char>)>)
    requires
        spec_table_wf(pairs),
        forall|j: int| 0 <= j < pairs.len() ==> !spec_occurs(s, (#[trigger] pairs[j]).0),
    ensures
        spec_transform(s, pairs) == s,
{
    lemma_transform_from_no_occurrence(s, pairs, spec_max_key_len(pairs));
}

fn max_key_len(map: &MappingTable) -> (r: usize)
    ensures
        r == spec_max_key_len(table_view(map@)),
{
    let ghost pairs = table_view(map@);
    let mut m: usize = 0;
    let mut i: usize = 0;
    proof {
        assert(pairs.take(0) =~= Seq::<(Seq<char>, Seq<char>)>::empty());
    }
    while i < map.len()
        invariant
            i <= map@.len(),
            pairs == table_view(map@),
            m == spec_max_key_len(pairs.take(i as int)),
        decreases map@.len() - i,
    {
        let klen = map[i].0.len();
        proof {
            assert(pairs.take(i + 1).drop_last() =~= pairs.take(i as int));
            assert(pairs.take(i + 1).last() == pairs[i as int]);
            assert(pairs[i as int].0 == map@[i as int].0@);
        }
        if klen > m {
            m = klen;
        }
        i = i + 1;
    }
    proof {
        assert(pairs.take(pairs.len() as int) =~= pairs);
    }
    m
}

/// Applies every entry of the table whose key is exactly `n` characters
/// long, in table order.
fn replace_len_group(s: &Vec<char>, map: &MappingTable, n: usize) -> (r: Vec<char>)
    requires
        spec_table_wf(table_view(map@)),
        n > 0,
    ensures
        r@ == spec_replace_all(s@, spec_keys_of_len(table_view(map@), n as nat)),
{
    let ghost pairs = table_view(map@);
    let mut cur: Vec<char> = copy_chars(s);
    let mut idx: usize = 0;
    proof {
        assert(pairs.skip(0) =~= pairs);
    }
    while idx < map.len()
        invariant
            idx <= map@.len(),
            pairs == table_view(map@),
            spec_table_wf(pairs),
            n > 0,
            spec_replace_all(s@, spec_keys_of_len(pairs, n as nat)) == spec_replace_all(
                cur@,
                spec_keys_of_len(pairs.skip(idx as int), n as nat),
            ),
        decreases map@.len() - idx,
    {
        let pair = &map[idx];
        let ghost rest = pairs.skip(idx as int);
        proof {
            assert(rest[0] == pairs[idx as int]);
            assert(pairs[idx as int] == (pair.0@, pair.1@));
            assert(rest.skip(1) =~= pairs.skip(idx + 1));
        }
        if pair.0.len() == n {
            proof {
                assert(spec_keys_of_len(rest, n as nat) == seq![rest[0]] + spec_keys_of_len(
                    rest.skip(1),
                    n as nat,
                ));
                assert(spec_keys_of_len(rest, n as nat)[0] == rest[0]);
                assert(spec_keys_of_len(rest, n as nat).skip(1) =~= spec_keys_of_len(
                    rest.skip(1),
                    n as nat,
                ));
            }
            cur = replace_chars(&cur, &pair.0, &pair.1);
        } else {
            proof {
                assert(spec_keys_of_len(rest, n as nat) == spec_keys_of_len(
                    rest.skip(1),
                    n as nat,
                ));
            }
        }
        idx = idx + 1;
    }
    proof {
        assert(pairs.skip(pairs.len() as int) =~= Seq::<(Seq<char>, Seq<char>)>::empty());
    }
    cur
}

/// Maximal-munch substitution over the whole table: length groups of keys
/// are applied from the longest down to the shortest.
pub fn transform_input(input: &Vec<char>, map: &MappingTable) -> (r: Vec<char>)
    requires
        spec_table_wf(table_view(map@)),
    ensures
        r@ == spec_transform(input@, table_view(map@)),
{
    let ghost pairs = table_view(map@);
    let maxlen = max_key_len(map);
    let mut cur: Vec<char> = copy_chars(input);
    let mut n: usize = maxlen;
    while n > 0
        invariant
            n <= maxlen,
            pairs == table_view(map@),
            spec_table_wf(pairs),
            maxlen == spec_max_key_len(pairs),
            spec_transform(input@, pairs) == spec_transform_from(cur@, pairs, n as nat),
        decreases n,
    {
        cur = replace_len_group(&cur, map, n);
        n = n - 1;
    }
    cur
}

/// The one failure the conversions report: the input does not lie fully in
/// exactly one of the three recognized scripts. A string with no
/// non-whitespace character lies vacuously in every script, and is
/// therefore reported unrecognized as well.
#[derive(Clone, Copy, PartialEq, Eq, Structural, Debug)]
pub enum ConvertError {
    UnrecognizedScript,
}

/// Every character of `s` is katakana or whitespace.
pub open spec fn spec_is_katakana(s: Seq<char>) -> bool {
    spec_str_in_range(s, KATAKANA_BEG, KATAKANA_END)
}

/// Every character of `s` is hiragana or whitespace.
pub open spec fn spec_is_hiragana(s: Seq<char>) -> bool {
    spec_str_in_range(s, HIRAGANA_BEG, HIRAGANA_END)
}

/// Every character of `s` is printable ASCII or whitespace.
pub open spec fn spec_is_romaji(s: Seq<char>) -> bool {
    spec_str_in_range(s, ROMAN_BEG, ROMAN_END)
}

pub fn is_katakana(s: &Vec<char>) -> (r: bool)
    ensures
        r == spec_is_katakana(s@),
{
    is_str_between_char_range(s, KATAKANA_BEG, KATAKANA_END)
}

pub fn is_hiragana(s: &Vec<char>) -> (r: bool)
    ensures
        r == spec_is_hiragana(s@),
{
    is_str_between_char_range(s, HIRAGANA_BEG, HIRAGANA_END)
}

pub fn is_romaji(s: &Vec<char>) -> (r: bool)
    ensures
        r == spec_is_romaji(s@),
{
    is_str_between_char_range(s, ROMAN_BEG, ROMAN_END)
}

pub fn is_fully_katakana(s: &Vec<char>) -> (r: bool)
    ensures
        r == spec_is_katakana(s@),
{
    is_katakana(s)
}

pub fn is_fully_hiragana(s: &Vec<char>) -> (r: bool)
    ensures
        r == spec_is_hiragana(s@),
{
    is_hiragana(s)
}

pub fn is_fully_romaji(s: &Vec<char>) -> (r: bool)
    ensures
        r == spec_is_romaji(s@),
{
    is_romaji(s)
}

/// What to_hiragana returns: katakana input is mapped through the inverse
/// kana table; hiragana input is returned unchanged; romaji input has its
/// geminate clusters resolved and is then converted by maximal munch.
pub open spec fn spec_to_hiragana(s: Seq<char>, d: ConversionData) -> Option<Seq<char>> {
    let kat = spec_is_katakana(s);
    let hir = spec_is_hiragana(s);
    let rom = spec_is_romaji(s);
    if kat && !hir && !rom {
        Some(spec_replace_all(s, table_view(d.katakana_to_hiragana@)))
    } else if !kat && hir && !rom {
        Some(s)
    } else if !kat && !hir && rom {
        Some(
            spec_transform(
                spec_replace_all(s, table_view(d.geminates_to_kana@)),
                table_view(d.romaji_to_hiragana@),
            ),
        )
    } else {
        None
    }
}

/// What to_katakana returns: the hiragana conversion piped through the
/// forward kana table where the input is not katakana already.
pub open spec fn spec_to_katakana(s: Seq<char>, d: ConversionData) -> Option<Seq<char>> {
    let kat = spec_is_katakana(s);
    let hir = spec_is_hiragana(s);
    let rom = spec_is_romaji(s);
    if kat && !hir && !rom {
        Some(s)
    } else if !kat && hir && !rom {
        Some(spec_replace_all(s, table_view(d.hiragana_to_katakana@)))
    } else if !kat && !hir && rom {
        Some(
            spec_replace_all(
                spec_transform(
                    spec_replace_all(s, table_view(d.geminates_to_kana@)),
                    table_view(d.romaji_to_hiragana@),
                ),
                table_view(d.hiragana_to_katakana@),
            ),
        )
    } else {
        None
    }
}

/// What to_romaji returns: kana input is converted by maximal munch over
/// the inverse syllable table, and residual sokuon or moraic-nasal
/// fragments are reconstituted as doubled consonants.
pub open spec fn spec_to_romaji(s: Seq<char>, d: ConversionData) -> Option<Seq<char>> {
    let kat = spec_is_katakana(s);
    let hir = spec_is_hiragana(s);
    let rom = spec_is_romaji(s);
    if kat && !hir && !rom {
        Some(
            spec_replace_all(
                spec_transform(
                    spec_replace_all(s, table_view(d.katakana_to_hiragana@)),
                    table_view(d.hiragana_to_romaji@),
                ),
                table_view(d.kana_to_geminates@),
            ),
        )
    } else if !kat && hir && !rom {
        Some(
            spec_replace_all(
                spec_transform(s, table_view(d.hiragana_to_romaji@)),
                table_view(d.kana_to_geminates@),
            ),
        )
    } else if !kat && !hir && rom {
        Some(s)
    } else {
        None
    }
}

/// Converts the input to hiragana, or reports that its character set was
/// not recognized.
pub fn to_hiragana(input: &Vec<char>, data: &ConversionData) -> (r: Result<
    Vec<char>,
    ConvertError,
>)
    requires
        data.wf(),
    ensures
        (match r {
            Ok(out) => spec_to_hiragana(input@, *data) == Some(out@),
            Err(e) => spec_to_hiragana(input@, *data) is None && e
                == ConvertError::UnrecognizedScript,
        }),
{
    let kat = is_katakana(input);
    let hir = is_hiragana(input);
    let rom = is_romaji(input);
    if kat && !hir && !rom {
        Ok(repeatedly_replace_str_with_map(input, &data.katakana_to_hiragana))
    } else if !kat && hir && !rom {
        Ok(copy_chars(input))
    } else if !kat && !hir && rom {
        let geminates = repeatedly_replace_str_with_map(input, &data.geminates_to_kana);
        Ok(transform_input(&geminates, &data.romaji_to_hiragana))
    } else {
        Err(ConvertError::UnrecognizedScript)
    }
}

/// Converts the input to katakana, or reports that its character set was
/// not recognized.
pub fn to_katakana(input: &Vec<char>, data: &ConversionData) -> (r: Result<
    Vec<char>,
    ConvertError,
>)
    requires
        data.wf(),
    ensures
        (match r {
            Ok(out) => spec_to_katakana(input@, *data) == Some(out@),
            Err(e) => spec_to_katakana(input@, *data) is None && e
                == ConvertError::UnrecognizedScript,
        }),
{
    let kat = is_katakana(input);
    let hir = is_hiragana(input);
    let rom = is_romaji(input);
    if kat && !hir && !rom {
        Ok(copy_chars(input))
    } else if !kat && hir && !rom {
        Ok(repeatedly_replace_str_with_map(input, &data.hiragana_to_katakana))
    } else if !kat && !hir && rom {
        let geminates = repeatedly_replace_str_with_map(input, &data.geminates_to_kana);
        let hiragana_output = transform_input(&geminates, &data.romaji_to_hiragana);
        Ok(repeatedly_replace_str_with_map(&hiragana_output, &data.hiragana_to_katakana))
    } else {
        Err(ConvertError::UnrecognizedScript)
    }
}

/// Converts the input to romaji, or reports that its character set was
/// not recognized.
pub fn to_romaji(input: &Vec<char>, data: &ConversionData) -> (r: Result<Vec<char>, ConvertError>)
    requires
        data.wf(),
    ensures
        (match r {
            Ok(out) => spec_to_romaji(input@, *data) == Some(out@),
            Err(e) => spec_to_romaji(input@, *data) is None && e
                == ConvertError::UnrecognizedScript,
        }),
{
    let kat = is_katakana(input);
    let hir = is_hiragana(input);
    let rom = is_romaji(input);
    if kat && !hir && !rom {
        let hiragana_output = repeatedly_replace_str_with_map(input, &data.katakana_to_hiragana);
        let romaji_output = transform_input(&hiragana_output, &data.hiragana_to_romaji);
        Ok(repeatedly_replace_str_with_map(&romaji_output, &data.kana_to_geminates))
    } else if !kat && hir && !rom {
        let romaji_output = transform_input(input, &data.hiragana_to_romaji);
        Ok(repeatedly_replace_str_with_map(&romaji_output, &data.kana_to_geminates))
    } else if !kat && !hir && rom {
        Ok(copy_chars(input))
    } else {
        Err(ConvertError::UnrecognizedScript)
    }
}

/// Idempotence on hiragana: a string already fully in hiragana, with at
/// least one non-whitespace character, is returned by to_hiragana
/// unchanged.
pub proof fn lemma_to_hiragana_fixes_hiragana(s: Seq<char>, d: ConversionData)
    requires
        spec_is_hiragana(s),
        exists|i: int| 0 <= i < s.len() && !spec_is_whitespace(#[trigger] s[i]),
    ensures
        spec_to_hiragana(s, d) == Some(s),
{
    let i = choose|i: int| 0 <= i < s.len() && !spec_is_whitespace(#[trigger] s[i]);
    assert(spec_char_tolerated(s[i], HIRAGANA_BEG, HIRAGANA_END));
    assert(!spec_char_tolerated(s[i], KATAKANA_BEG, KATAKANA_END));
    assert(!spec_char_tolerated(s[i], ROMAN_BEG, ROMAN_END));
}

/// Idempotence on katakana: a string already fully in katakana, with at
/// least one non-whitespace character, is returned by to_katakana
/// unchanged.
pub proof fn lemma_to_katakana_fixes_katakana(s: Seq<char>, d: ConversionData)
    requires
        spec_is_katakana(s),
        exists|i: int| 0 <= i < s.len() && !spec_is_whitespace(#[trigger] s[i]),
    ensures
        spec_to_katakana(s, d) == Some(s),
{
    let i = choose|i: int| 0 <= i < s.len() && !spec_is_whitespace(#[trigger] s[i]);
    assert(spec_char_tolerated(s[i], KATAKANA_BEG, KATAKANA_END));
    assert(!spec_char_tolerated(s[i], HIRAGANA_BEG, HIRAGANA_END));
    assert(!spec_char_tolerated(s[i], ROMAN_BEG, ROMAN_END));
}

/// Idempotence on romaji: a string already fully in the printable ASCII
/// range, with at least one non-whitespace character, is returned by
/// to_romaji unchanged.
pub proof fn lemma_to_romaji_fixes_romaji(s: Seq<char>, d: ConversionData)
    requires
        spec_is_romaji(s),
        exists|i: int| 0 <= i < s.len() && !spec_is_whitespace(#[trigger] s[i]),
    ensures
        spec_to_romaji(s, d) == Some(s),
{
    let i = choose|i: int| 0 <= i < s.len() && !spec_is_whitespace(#[trigger] s[i]);
    assert(spec_char_tolerated(s[i], ROMAN_BEG, ROMAN_END));
    assert(!spec_char_tolerated(s[i], HIRAGANA_BEG, HIRAGANA_END));
    assert(!spec_char_tolerated(s[i], KATAKANA_BEG, KATAKANA_END));
}

/// The three script classes are mutually exclusive on any string with at
/// least one non-whitespace character: such a string is fully in at most
/// one of hiragana, katakana and romaji.
pub proof fn lemma_scripts_mutually_exclusive(s: Seq<char>)
    requires
        exists|i: int| 0 <= i < s.len() && !spec_is_whitespace(#[trigger] s[i]),
    ensures
        !(spec_is_hiragana(s) && spec_is_katakana(s)),
        !(spec_is_hiragana(s) && spec_is_romaji(s)),
        !(spec_is_katakana(s) && spec_is_romaji(s)),
{
    let i = choose|i: int| 0 <= i < s.len() && !spec_is_whitespace(#[trigger] s[i]);
    if spec_is_hiragana(s) {
        assert(spec_char_tolerated(s[i], HIRAGANA_BEG, HIRAGANA_END));
        assert(!spec_char_tolerated(s[i], KATAKANA_BEG, KATAKANA_END));
        assert(!spec_char_tolerated(s[i], ROMAN_BEG, ROMAN_END));
    }
    if spec_is_katakana(s) {
        assert(spec_char_tolerated(s[i], KATAKANA_BEG, KATAKANA_END));
        assert(!spec_char_tolerated(s[i], ROMAN_BEG, ROMAN_END));
    }
}

/// A string holding both a hiragana character and a printable ASCII
/// character belongs to no single script: every conversion reports it
/// unrecognized.
pub proof fn lemma_mixed_input_unrecognized(s: Seq<char>, d: ConversionData)
    requires
        exists|i: int|
            0 <= i < s.len() && spec_char_in_range(#[trigger] s[i], HIRAGANA_BEG, HIRAGANA_END),
        exists|j: int|
            0 <= j < s.len() && spec_char_in_range(#[trigger] s[j], ROMAN_BEG, ROMAN_END),
    ensures
        spec_to_hiragana(s, d) is None,
        spec_to_katakana(s, d) is None,
        spec_to_romaji(s, d) is None,
{
    let i = choose|i: int|
        0 <= i < s.len() && spec_char_in_range(#[trigger] s[i], HIRAGANA_BEG, HIRAGANA_END);
    let j = choose|j: int|
        0 <= j < s.len() && spec_char_in_range(#[trigger] s[j], ROMAN_BEG, ROMAN_END);
    assert(!spec_is_whitespace(s[i]));
    assert(!spec_is_whitespace(s[j]));
    assert(!spec_char_tolerated(s[i], KATAKANA_BEG, KATAKANA_END));
    assert(!spec_char_tolerated(s[i], ROMAN_BEG, ROMAN_END));
    assert(!spec_char_tolerated(s[j], HIRAGANA_BEG, HIRAGANA_END));
    assert(!spec_is_katakana(s));
    assert(!spec_is_romaji(s));
    assert(!spec_is_hiragana(s));
}

} // verus!
