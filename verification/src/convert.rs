//! Construction of the conversion tables: the authored forward tables and
//! the mechanically derived inverse tables.
//!
//! Every inverse table is derived from a forward table by swapping each
//! (key, value) pair, in table order, keeping the first-seen pair when two
//! entries collide on the new key. Forward tables list dominant spellings
//! first, so the dominant spelling wins on inversion.

use vstd::prelude::*;

use crate::double_consonants::geminate_dominant_rows;
use crate::double_consonants::geminate_rest_rows;
use crate::double_consonants::spec_geminate_dominant;
use crate::double_consonants::spec_geminate_table;
use crate::hiragana_to_katakana::hiragana_katakana_rows;
use crate::hiragana_to_katakana::spec_hiragana_katakana_table;
use crate::strings::MappingTable;
use crate::strings::chars_eq;
use crate::strings::copy_chars;
use crate::strings::spec_table_wf;
use crate::strings::table_view;

verus! {

pub fn chars1(a: char) -> (r: Vec<char>)
    ensures
        r@ == seq![a],
{
    let mut r: Vec<char> = Vec::new();
    r.push(a);
    proof {
        assert(r@ =~= seq![a]);
    }
    r
}

pub fn chars2(a: char, b: char) -> (r: Vec<char>)
    ensures
        r@ == seq![a, b],
{
    let mut r: Vec<char> = Vec::new();
    r.push(a);
    r.push(b);
    proof {
        assert(r@ =~= seq![a, b]);
    }
    r
}

pub fn chars3(a: char, b: char, c: char) -> (r: Vec<char>)
    ensures
        r@ == seq![a, b, c],
{
    let mut r: Vec<char> = Vec::new();
    r.push(a);
    r.push(b);
    r.push(c);
    proof {
        assert(r@ =~= seq![a, b, c]);
    }
    r
}

pub fn chars4(a: char, b: char, c: char, d: char) -> (r: Vec<char>)
    ensures
        r@ == seq![a, b, c, d],
{
    let mut r: Vec<char> = Vec::new();
    r.push(a);
    r.push(b);
    r.push(c);
    r.push(d);
    proof {
        assert(r@ =~= seq![a, b, c, d]);
    }
    r
}

/// Appends one (key, value) entry to a table under construction.
pub fn push_pair(t: &mut MappingTable, k: Vec<char>, v: Vec<char>)
    requires
        k@.len() > 0,
        v@.len() > 0,
    ensures
        table_view(final(t)@) == table_view(old(t)@).push((k@, v@)),
        spec_table_wf(table_view(old(t)@)) ==> spec_table_wf(table_view(final(t)@)),
{
    let ghost kview = k@;
    let ghost vview = v@;
    t.push((k, v));
    proof {
        assert(table_view(t@) =~~= table_view(old(t)@).push((kview, vview)));
        if spec_table_wf(table_view(old(t)@)) {
            assert forall|i: int| 0 <= i < table_view(t@).len() implies (#[trigger] table_view(
                t@,
            )[i]).0.len() > 0 && table_view(t@)[i].1.len() > 0 by {
                if i < table_view(old(t)@).len() {
                    assert(table_view(t@)[i] == table_view(old(t)@)[i]);
                }
            }
        }
    }
}

/// The table has an entry whose key is `k`.
pub open spec fn spec_has_key(pairs: Seq<(Seq<char>, Seq<char>)>, k: Seq<char>) -> bool {
    exists|i: int| 0 <= i < pairs.len() && (#[trigger] pairs[i]).0 == k
}

/// Inversion, first-seen wins: each (key, value) pair of the forward table
/// becomes (value, key), in table order; a pair whose new key is already
/// present in the accumulated table is dropped.
pub open spec fn spec_invert_from(
    pairs: Seq<(Seq<char>, Seq<char>)>,
    acc: Seq<(Seq<char>, Seq<char>)>,
) -> Seq<(Seq<char>, Seq<char>)>
    decreases pairs.len(),
{
    if pairs.len() == 0 {
        acc
    } else {
        let swapped = (pairs[0].1, pairs[0].0);
        let acc2 = if spec_has_key(acc, swapped.0) {
            acc
        } else {
            acc.push(swapped)
        };
        spec_invert_from(pairs.skip(1), acc2)
    }
}

/// The inverse of a table: swapped pairs, in table order, first seen wins.
pub open spec fn spec_invert(pairs: Seq<(Seq<char>, Seq<char>)>) -> Seq<(Seq<char>, Seq<char>)> {
    spec_invert_from(pairs, Seq::empty())
}

/// Inverting a well-formed table yields a well-formed table.
pub proof fn lemma_invert_from_wf(
    pairs: Seq<(Seq<char>, Seq<char>)>,
    acc: Seq<(Seq<char>, Seq<char>)>,
)
    requires
        spec_table_wf(pairs),
        spec_table_wf(acc),
    ensures
        spec_table_wf(spec_invert_from(pairs, acc)),
    decreases pairs.len(),
{
    if pairs.len() > 0 {
        let swapped = (pairs[0].1, pairs[0].0);
        let acc2 = if spec_has_key(acc, swapped.0) {
            acc
        } else {
            acc.push(swapped)
        };
        assert(spec_table_wf(acc2)) by {
            if !spec_has_key(acc, swapped.0) {
                assert forall|i: int| 0 <= i < acc2.len() implies (#[trigger] acc2[i]).0.len() > 0
                    && acc2[i].1.len() > 0 by {
                    if i < acc.len() {
                        assert(acc2[i] == acc[i]);
                    } else {
                        assert(acc2[i] == swapped);
                        assert(pairs[0].0.len() > 0 && pairs[0].1.len() > 0);
                    }
                }
            }
        }
        assert(spec_table_wf(pairs.skip(1)));
        lemma_invert_from_wf(pairs.skip(1), acc2);
    }
}

/// Inverting a concatenation is inverting the first part, then folding the
/// second part into the result.
pub proof fn lemma_invert_from_concat(
    a: Seq<(Seq<char>, Seq<char>)>,
    b: Seq<(Seq<char>, Seq<char>)>,
    acc: Seq<(Seq<char>, Seq<char>)>,
)
    ensures
        spec_invert_from(a + b, acc) == spec_invert_from(b, spec_invert_from(a, acc)),
    decreases a.len(),
{
    if a.len() == 0 {
        assert(a + b =~= b);
    } else {
        let swapped = ((a + b)[0].1, (a + b)[0].0);
        assert((a + b)[0] == a[0]);
        let acc2 = if spec_has_key(acc, swapped.0) {
            acc
        } else {
            acc.push(swapped)
        };
        assert((a + b).skip(1) =~= a.skip(1) + b);
        lemma_invert_from_concat(a.skip(1), b, acc2);
    }
}

/// The view of a concatenation of tables is the concatenation of their
/// views.
pub proof fn lemma_table_view_concat(a: Seq<(Vec<char>, Vec<char>)>, b: Seq<(Vec<char>, Vec<char>)>)
    ensures
        table_view(a + b) == table_view(a) + table_view(b),
{
    assert(table_view(a + b) =~~= table_view(a) + table_view(b));
}

fn table_has_key(t: &MappingTable, k: &Vec<char>) -> (r: bool)
    ensures
        r == spec_has_key(table_view(t@), k@),
{
    let ghost pairs = table_view(t@);
    let mut i: usize = 0;
    while i < t.len()
        invariant
            i <= t@.len(),
            pairs == table_view(t@),
            forall|j: int| 0 <= j < i ==> (#[trigger] pairs[j]).0 != k@,
        decreases t@.len() - i,
    {
        if chars_eq(&t[i].0, k) {
            proof {
                assert(pairs[i as int].0 == k@);
            }
            return true;
        }
        i = i + 1;
    }
    false
}

/// Folds the swapped pairs of `src` into `acc`, in table order, first seen
/// wins.
pub fn invert_into(src: &MappingTable, acc: &mut MappingTable)
    ensures
        table_view(final(acc)@) == spec_invert_from(table_view(src@), table_view(old(acc)@)),
{
    let ghost pairs = table_view(src@);
    let mut i: usize = 0;
    proof {
        assert(pairs.skip(0) =~= pairs);
    }
    while i < src.len()
        invariant
            i <= src@.len(),
            pairs == table_view(src@),
            spec_invert_from(pairs, table_view(old(acc)@)) == spec_invert_from(
                pairs.skip(i as int),
                table_view(acc@),
            ),
        decreases src@.len() - i,
    {
        let pair = &src[i];
        let ghost rest = pairs.skip(i as int);
        let ghost accv = table_view(acc@);
        proof {
            assert(rest[0] == pairs[i as int]);
            assert(pairs[i as int] == (pair.0@, pair.1@));
            assert(rest.skip(1) =~= pairs.skip(i + 1));
        }
        if !table_has_key(acc, &pair.1) {
            let nk = copy_chars(&pair.1);
            let nv = copy_chars(&pair.0);
            acc.push((nk, nv));
            proof {
                assert(table_view(acc@) =~~= accv.push((pair.1@, pair.0@)));
            }
        }
        i = i + 1;
    }
    proof {
        assert(pairs.skip(pairs.len() as int) =~= Seq::<(Seq<char>, Seq<char>)>::empty());
    }
}

pub open spec fn spec_romaji_dominant_a() -> Seq<(Seq<char>, Seq<char>)> {
    seq![
        (seq!['n'], seq!['ん']),
        (seq!['n', 'n', 'n'], seq!['ん', 'n']),
        (seq!['a'], seq!['あ']),
        (seq!['i'], seq!['い']),
        (seq!['u'], seq!['う']),
        (seq!['e'], seq!['え']),
        (seq!['o'], seq!['お']),
        (seq!['l', 'a'], seq!['ぁ']),
        (seq!['l', 'i'], seq!['ぃ']),
        (seq!['l', 'u'], seq!['ぅ']),
        (seq!['l', 'e'], seq!['ぇ']),
        (seq!['l', 'o'], seq!['ぉ']),
        (seq!['y', 'e'], seq!['い', 'ぇ']),
        (seq!['w', 'i'], seq!['う', 'ぃ']),
        (seq!['w', 'e'], seq!['う', 'ぇ']),
    ]
}

fn romaji_dominant_a(t: &mut MappingTable)
    ensures
        table_view(final(t)@) == table_view(old(t)@) + spec_romaji_dominant_a(),
        spec_table_wf(table_view(old(t)@)) ==> spec_table_wf(table_view(final(t)@)),
{
    push_pair(t, chars1('n'), chars1('ん'));
    push_pair(t, chars3('n', 'n', 'n'), chars2('ん', 'n'));
    push_pair(t, chars1('a'), chars1('あ'));
    push_pair(t, chars1('i'), chars1('い'));
    push_pair(t, chars1('u'), chars1('う'));
    push_pair(t, chars1('e'), chars1('え'));
    push_pair(t, chars1('o'), chars1('お'));
    push_pair(t, chars2('l', 'a'), chars1('ぁ'));
    push_pair(t, chars2('l', 'i'), chars1('ぃ'));
    push_pair(t, chars2('l', 'u'), chars1('ぅ'));
    push_pair(t, chars2('l', 'e'), chars1('ぇ'));
    push_pair(t, chars2('l', 'o'), chars1('ぉ'));
    push_pair(t, chars2('y', 'e'), chars2('い', 'ぇ'));
    push_pair(t, chars2('w', 'i'), chars2('う', 'ぃ'));
    push_pair(t, chars2('w', 'e'), chars2('う', 'ぇ'));
    proof {
        broadcast use {Seq::add_empty_right, crate::strings::lemma_add_push};
        assert(table_view(t@) == table_view(old(t)@) + spec_romaji_dominant_a());
    }
}

pub open spec fn spec_romaji_dominant_b() -> Seq<(Seq<char>, Seq<char>)> {
    seq![
        (seq!['w', 'h', 'a'], seq!['う', 'ぁ']),
        (seq!['w', 'h', 'o'], seq!['う', 'ぉ']),
        (seq!['k', 'a'], seq!['か']),
        (seq!['k', 'i'], seq!['き']),
        (seq!['k', 'u'], seq!['く']),
        (seq!['k', 'e'], seq!['け']),
        (seq!['k', 'o'], seq!['こ']),
        (seq!['k', 'y', 'a'], seq!['き', 'ゃ']),
        (seq!['k', 'y', 'i'], seq!['き', 'ぃ']),
        (seq!['k', 'y', 'u'], seq!['き', 'ゅ']),
        (seq!['k', 'y', 'e'], seq!['き', 'ぇ']),
        (seq!['k', 'y', 'o'], seq!['き', 'ょ']),
        (seq!['q', 'y', 'a'], seq!['く', 'ゃ']),
        (seq!['q', 'y', 'u'], seq!['く', 'ゅ']),
        (seq!['q', 'y', 'o'], seq!['く', 'ょ']),
    ]
}

fn romaji_dominant_b(t: &mut MappingTable)
    ensures
        table_view(final(t)@) == table_view(old(t)@) + spec_romaji_dominant_b(),
        spec_table_wf(table_view(old(t)@)) ==> spec_table_wf(table_view(final(t)@)),
{
    push_pair(t, chars3('w', 'h', 'a'), chars2('う', 'ぁ'));
    push_pair(t, chars3('w', 'h', 'o'), chars2('う', 'ぉ'));
    push_pair(t, chars2('k', 'a'), chars1('か'));
    push_pair(t, chars2('k', 'i'), chars1('き'));
    push_pair(t, chars2('k', 'u'), chars1('く'));
    push_pair(t, chars2('k', 'e'), chars1('け'));
    push_pair(t, chars2('k', 'o'), chars1('こ'));
    push_pair(t, chars3('k', 'y', 'a'), chars2('き', 'ゃ'));
    push_pair(t, chars3('k', 'y', 'i'), chars2('き', 'ぃ'));
    push_pair(t, chars3('k', 'y', 'u'), chars2('き', 'ゅ'));
    push_pair(t, chars3('k', 'y', 'e'), chars2('き', 'ぇ'));
    push_pair(t, chars3('k', 'y', 'o'), chars2('き', 'ょ'));
    push_pair(t, chars3('q', 'y', 'a'), chars2('く', 'ゃ'));
    push_pair(t, chars3('q', 'y', 'u'), chars2('く', 'ゅ'));
    push_pair(t, chars3('q', 'y', 'o'), chars2('く', 'ょ'));
    proof {
        broadcast use {Seq::add_empty_right, crate::strings::lemma_add_push};
        assert(table_view(t@) == table_view(old(t)@) + spec_romaji_dominant_b());
    }
}

pub open spec fn spec_romaji_dominant_c() -> Seq<(Seq<char>, Seq<char>)> {
    seq![
        (seq!['l', 'k', 'a'], seq!['ヵ']),
        (seq!['q', 'w', 'a'], seq!['く', 'ぁ']),
        (seq!['q', 'w', 'i'], seq!['く', 'ぃ']),
        (seq!['q', 'w', 'u'], seq!['く', 'ぅ']),
        (seq!['q', 'w', 'e'], seq!['く', 'ぇ']),
        (seq!['q', 'w', 'o'], seq!['く', 'ぉ']),
        (seq!['g', 'a'], seq!['が']),
        (seq!['g', 'i'], seq!['ぎ']),
        (seq!['g', 'u'], seq!['ぐ']),
        (seq!['g', 'e'], seq!['げ']),
        (seq!['g', 'o'], seq!['ご']),
        (seq!['g', 'y', 'a'], seq!['ぎ', 'ゃ']),
        (seq!['g', 'y', 'i'], seq!['ぎ', 'ぃ']),
        (seq!['g', 'y', 'u'], seq!['ぎ', 'ゅ']),
        (seq!['g', 'y', 'e'], seq!['ぎ', 'ぇ']),
    ]
}

fn romaji_dominant_c(t: &mut MappingTable)
    ensures
        table_view(final(t)@) == table_view(old(t)@) + spec_romaji_dominant_c(),
        spec_table_wf(table_view(old(t)@)) ==> spec_table_wf(table_view(final(t)@)),
{
    push_pair(t, chars3('l', 'k', 'a'), chars1('ヵ'));
    push_pair(t, chars3('q', 'w', 'a'), chars2('く', 'ぁ'));
    push_pair(t, chars3('q', 'w', 'i'), chars2('く', 'ぃ'));
    push_pair(t, chars3('q', 'w', 'u'), chars2('く', 'ぅ'));
    push_pair(t, chars3('q', 'w', 'e'), chars2('く', 'ぇ'));
    push_pair(t, chars3('q', 'w', 'o'), chars2('く', 'ぉ'));
    push_pair(t, chars2('g', 'a'), chars1('が'));
    push_pair(t, chars2('g', 'i'), chars1('ぎ'));
    push_pair(t, chars2('g', 'u'), chars1('ぐ'));
    push_pair(t, chars2('g', 'e'), chars1('げ'));
    push_pair(t, chars2('g', 'o'), chars1('ご'));
    push_pair(t, chars3('g', 'y', 'a'), chars2('ぎ', 'ゃ'));
    push_pair(t, chars3('g', 'y', 'i'), chars2('ぎ', 'ぃ'));
    push_pair(t, chars3('g', 'y', 'u'), chars2('ぎ', 'ゅ'));
    push_pair(t, chars3('g', 'y', 'e'), chars2('ぎ', 'ぇ'));
    proof {
        broadcast use {Seq::add_empty_right, crate::strings::lemma_add_push};
        assert(table_view(t@) == table_view(old(t)@) + spec_romaji_dominant_c());
    }
}

pub open spec fn spec_romaji_dominant_d() -> Seq<(Seq<char>, Seq<char>)> {
    seq![
        (seq!['g', 'y', 'o'], seq!['ぎ', 'ょ']),
        (seq!['g', 'w', 'a'], seq!['ぐ', 'ぁ']),
        (seq!['g', 'w', 'i'], seq!['ぐ', 'ぃ']),
        (seq!['g', 'w', 'u'], seq!['ぐ', 'ぅ']),
        (seq!['g', 'w', 'e'], seq!['ぐ', 'ぇ']),
        (seq!['g', 'w', 'o'], seq!['ぐ', 'ぉ']),
        (seq!['s', 'h', 'i'], seq!['し']),
        (seq!['s', 'a'], seq!['さ']),
        (seq!['s', 'u'], seq!['す']),
        (seq!['s', 'e'], seq!['せ']),
        (seq!['s', 'o'], seq!['そ']),
        (seq!['s', 'h', 'a'], seq!['し', 'ゃ']),
        (seq!['s', 'h', 'u'], seq!['し', 'ゅ']),
        (seq!['s', 'h', 'e'], seq!['し', 'ぇ']),
        (seq!['s', 'h', 'o'], seq!['し', 'ょ']),
    ]
}

fn romaji_dominant_d(t: &mut MappingTable)
    ensures
        table_view(final(t)@) == table_view(old(t)@) + spec_romaji_dominant_d(),
        spec_table_wf(table_view(old(t)@)) ==> spec_table_wf(table_view(final(t)@)),
{
    push_pair(t, chars3('g', 'y', 'o'), chars2('ぎ', 'ょ'));
    push_pair(t, chars3('g', 'w', 'a'), chars2('ぐ', 'ぁ'));
    push_pair(t, chars3('g', 'w', 'i'), chars2('ぐ', 'ぃ'));
    push_pair(t, chars3('g', 'w', 'u'), chars2('ぐ', 'ぅ'));
    push_pair(t, chars3('g', 'w', 'e'), chars2('ぐ', 'ぇ'));
    push_pair(t, chars3('g', 'w', 'o'), chars2('ぐ', 'ぉ'));
    push_pair(t, chars3('s', 'h', 'i'), chars1('し'));
    push_pair(t, chars2('s', 'a'), chars1('さ'));
    push_pair(t, chars2('s', 'u'), chars1('す'));
    push_pair(t, chars2('s', 'e'), chars1('せ'));
    push_pair(t, chars2('s', 'o'), chars1('そ'));
    push_pair(t, chars3('s', 'h', 'a'), chars2('し', 'ゃ'));
    push_pair(t, chars3('s', 'h', 'u'), chars2('し', 'ゅ'));
    push_pair(t, chars3('s', 'h', 'e'), chars2('し', 'ぇ'));
    push_pair(t, chars3('s', 'h', 'o'), chars2('し', 'ょ'));
    proof {
        broadcast use {Seq::add_empty_right, crate::strings::lemma_add_push};
        assert(table_view(t@) == table_view(old(t)@) + spec_romaji_dominant_d());
    }
}

pub open spec fn spec_romaji_dominant_e() -> Seq<(Seq<char>, Seq<char>)> {
    seq![
        (seq!['s', 'y', 'i'], seq!['し', 'ぃ']),
        (seq!['s', 'w', 'a'], seq!['す', 'ぁ']),
        (seq!['s', 'w', 'i'], seq!['す', 'ぃ']),
        (seq!['s', 'w', 'u'], seq!['す', 'ぅ']),
        (seq!['s', 'w', 'e'], seq!['す', 'ぇ']),
        (seq!['s', 'w', 'o'], seq!['す', 'ぉ']),
        (seq!['j', 'i'], seq!['じ']),
        (seq!['z', 'a'], seq!['ざ']),
        (seq!['z', 'u'], seq!['ず']),
        (seq!['z', 'e'], seq!['ぜ']),
        (seq!['z', 'o'], seq!['ぞ']),
        (seq!['j', 'a'], seq!['じ', 'ゃ']),
        (seq!['j', 'u'], seq!['じ', 'ゅ']),
        (seq!['j', 'e'], seq!['じ', 'ぇ']),
        (seq!['j', 'o'], seq!['じ', 'ょ']),
    ]
}

fn romaji_dominant_e(t: &mut MappingTable)
    ensures
        table_view(final(t)@) == table_view(old(t)@) + spec_romaji_dominant_e(),
        spec_table_wf(table_view(old(t)@)) ==> spec_table_wf(table_view(final(t)@)),
{
    push_pair(t, chars3('s', 'y', 'i'), chars2('し', 'ぃ'));
    push_pair(t, chars3('s', 'w', 'a'), chars2('す', 'ぁ'));
    push_pair(t, chars3('s', 'w', 'i'), chars2('す', 'ぃ'));
    push_pair(t, chars3('s', 'w', 'u'), chars2('す', 'ぅ'));
    push_pair(t, chars3('s', 'w', 'e'), chars2('す', 'ぇ'));
    push_pair(t, chars3('s', 'w', 'o'), chars2('す', 'ぉ'));
    push_pair(t, chars2('j', 'i'), chars1('じ'));
    push_pair(t, chars2('z', 'a'), chars1('ざ'));
    push_pair(t, chars2('z', 'u'), chars1('ず'));
    push_pair(t, chars2('z', 'e'), chars1('ぜ'));
    push_pair(t, chars2('z', 'o'), chars1('ぞ'));
    push_pair(t, chars2('j', 'a'), chars2('じ', 'ゃ'));
    push_pair(t, chars2('j', 'u'), chars2('じ', 'ゅ'));
    push_pair(t, chars2('j', 'e'), chars2('じ', 'ぇ'));
    push_pair(t, chars2('j', 'o'), chars2('じ', 'ょ'));
    proof {
        broadcast use {Seq::add_empty_right, crate::strings::lemma_add_push};
        assert(table_view(t@) == table_view(old(t)@) + spec_romaji_dominant_e());
    }
}

pub open spec fn spec_romaji_dominant_f() -> Seq<(Seq<char>, Seq<char>)> {
    seq![
        (seq!['j', 'y', 'i'], seq!['じ', 'ぃ']),
        (seq!['c', 'h', 'i'], seq!['ち']),
        (seq!['t', 's', 'u'], seq!['つ']),
        (seq!['t', 'a'], seq!['た']),
        (seq!['t', 'e'], seq!['て']),
        (seq!['t', 'o'], seq!['と']),
        (seq!['c', 'h', 'a'], seq!['ち', 'ゃ']),
        (seq!['c', 'h', 'u'], seq!['ち', 'ゅ']),
        (seq!['c', 'h', 'e'], seq!['ち', 'ぇ']),
        (seq!['c', 'h', 'o'], seq!['ち', 'ょ']),
        (seq!['t', 'y', 'i'], seq!['ち', 'ぃ']),
        (seq!['t', 's', 'a'], seq!['つ', 'ぁ']),
        (seq!['t', 's', 'i'], seq!['つ', 'ぃ']),
        (seq!['t', 's', 'e'], seq!['つ', 'ぇ']),
        (seq!['t', 's', 'o'], seq!['つ', 'ぉ']),
    ]
}

fn romaji_dominant_f(t: &mut MappingTable)
    ensures
        table_view(final(t)@) == table_view(old(t)@) + spec_romaji_dominant_f(),
        spec_table_wf(table_view(old(t)@)) ==> spec_table_wf(table_view(final(t)@)),
{
    push_pair(t, chars3('j', 'y', 'i'), chars2('じ', 'ぃ'));
    push_pair(t, chars3('c', 'h', 'i'), chars1('ち'));
    push_pair(t, chars3('t', 's', 'u'), chars1('つ'));
    push_pair(t, chars2('t', 'a'), chars1('た'));
    push_pair(t, chars2('t', 'e'), chars1('て'));
    push_pair(t, chars2('t', 'o'), chars1('と'));
    push_pair(t, chars3('c', 'h', 'a'), chars2('ち', 'ゃ'));
    push_pair(t, chars3('c', 'h', 'u'), chars2('ち', 'ゅ'));
    push_pair(t, chars3('c', 'h', 'e'), chars2('ち', 'ぇ'));
    push_pair(t, chars3('c', 'h', 'o'), chars2('ち', 'ょ'));
    push_pair(t, chars3('t', 'y', 'i'), chars2('ち', 'ぃ'));
    push_pair(t, chars3('t', 's', 'a'), chars2('つ', 'ぁ'));
    push_pair(t, chars3('t', 's', 'i'), chars2('つ', 'ぃ'));
    push_pair(t, chars3('t', 's', 'e'), chars2('つ', 'ぇ'));
    push_pair(t, chars3('t', 's', 'o'), chars2('つ', 'ぉ'));
    proof {
        broadcast use {Seq::add_empty_right, crate::strings::lemma_add_push};
        assert(table_view(t@) == table_view(old(t)@) + spec_romaji_dominant_f());
    }
}

pub open spec fn spec_romaji_dominant_g() -> Seq<(Seq<char>, Seq<char>)> {
    seq![
        (seq!['t', 'h', 'a'], seq!['て', 'ゃ']),
        (seq!['t', 'h', 'i'], seq!['て', 'ぃ']),
        (seq!['t', 'h', 'u'], seq!['て', 'ゅ']),
        (seq!['t', 'h', 'e'], seq!['て', 'ぇ']),
        (seq!['t', 'h', 'o'], seq!['て', 'ょ']),
        (seq!['t', 'w', 'a'], seq!['と', 'ぁ']),
        (seq!['t', 'w', 'i'], seq!['と', 'ぃ']),
        (seq!['t', 'w', 'u'], seq!['と', 'ぅ']),
        (seq!['t', 'w', 'e'], seq!['と', 'ぇ']),
        (seq!['t', 'w', 'o'], seq!['と', 'ぉ']),
        (seq!['d', 'z', 'u'], seq!['づ']),
        (seq!['d', 'z', 'i'], seq!['ぢ']),
        (seq!['d', 'a'], seq!['だ']),
        (seq!['d', 'e'], seq!['で']),
        (seq!['d', 'o'], seq!['ど']),
    ]
}

fn romaji_dominant_g(t: &mut MappingTable)
    ensures
        table_view(final(t)@) == table_view(old(t)@) + spec_romaji_dominant_g(),
        spec_table_wf(table_view(old(t)@)) ==> spec_table_wf(table_view(final(t)@)),
{
    push_pair(t, chars3('t', 'h', 'a'), chars2('て', 'ゃ'));
    push_pair(t, chars3('t', 'h', 'i'), chars2('て', 'ぃ'));
    push_pair(t, chars3('t', 'h', 'u'), chars2('て', 'ゅ'));
    push_pair(t, chars3('t', 'h', 'e'), chars2('て', 'ぇ'));
    push_pair(t, chars3('t', 'h', 'o'), chars2('て', 'ょ'));
    push_pair(t, chars3('t', 'w', 'a'), chars2('と', 'ぁ'));
    push_pair(t, chars3('t', 'w', 'i'), chars2('と', 'ぃ'));
    push_pair(t, chars3('t', 'w', 'u'), chars2('と', 'ぅ'));
    push_pair(t, chars3('t', 'w', 'e'), chars2('と', 'ぇ'));
    push_pair(t, chars3('t', 'w', 'o'), chars2('と', 'ぉ'));
    push_pair(t, chars3('d', 'z', 'u'), chars1('づ'));
    push_pair(t, chars3('d', 'z', 'i'), chars1('ぢ'));
    push_pair(t, chars2('d', 'a'), chars1('だ'));
    push_pair(t, chars2('d', 'e'), chars1('で'));
    push_pair(t, chars2('d', 'o'), chars1('ど'));
    proof {
        broadcast use {Seq::add_empty_right, crate::strings::lemma_add_push};
        assert(table_view(t@) == table_view(old(t)@) + spec_romaji_dominant_g());
    }
}

pub open spec fn spec_romaji_dominant_h() -> Seq<(Seq<char>, Seq<char>)> {
    seq![
        (seq!['d', 'y', 'a'], seq!['ぢ', 'ゃ']),
        (seq!['d', 'y', 'i'], seq!['ぢ', 'ぃ']),
        (seq!['d', 'y', 'u'], seq!['ぢ', 'ゅ']),
        (seq!['d', 'y', 'e'], seq!['ぢ', 'ぇ']),
        (seq!['d', 'y', 'o'], seq!['ぢ', 'ょ']),
        (seq!['d', 'h', 'a'], seq!['で', 'ゃ']),
        (seq!['d', 'h', 'i'], seq!['で', 'ぃ']),
        (seq!['d', 'h', 'u'], seq!['で', 'ゅ']),
        (seq!['d', 'h', 'e'], seq!['で', 'ぇ']),
        (seq!['d', 'h', 'o'], seq!['で', 'ょ']),
        (seq!['d', 'w', 'a'], seq!['ど', 'ぁ']),
        (seq!['d', 'w', 'i'], seq!['ど', 'ぃ']),
        (seq!['d', 'w', 'u'], seq!['ど', 'ぅ']),
        (seq!['d', 'w', 'e'], seq!['ど', 'ぇ']),
        (seq!['d', 'w', 'o'], seq!['ど', 'ぉ']),
    ]
}

fn romaji_dominant_h(t: &mut MappingTable)
    ensures
        table_view(final(t)@) == table_view(old(t)@) + spec_romaji_dominant_h(),
        spec_table_wf(table_view(old(t)@)) ==> spec_table_wf(table_view(final(t)@)),
{
    push_pair(t, chars3('d', 'y', 'a'), chars2('ぢ', 'ゃ'));
    push_pair(t, chars3('d', 'y', 'i'), chars2('ぢ', 'ぃ'));
    push_pair(t, chars3('d', 'y', 'u'), chars2('ぢ', 'ゅ'));
    push_pair(t, chars3('d', 'y', 'e'), chars2('ぢ', 'ぇ'));
    push_pair(t, chars3('d', 'y', 'o'), chars2('ぢ', 'ょ'));
    push_pair(t, chars3('d', 'h', 'a'), chars2('で', 'ゃ'));
    push_pair(t, chars3('d', 'h', 'i'), chars2('で', 'ぃ'));
    push_pair(t, chars3('d', 'h', 'u'), chars2('で', 'ゅ'));
    push_pair(t, chars3('d', 'h', 'e'), chars2('で', 'ぇ'));
    push_pair(t, chars3('d', 'h', 'o'), chars2('で', 'ょ'));
    push_pair(t, chars3('d', 'w', 'a'), chars2('ど', 'ぁ'));
    push_pair(t, chars3('d', 'w', 'i'), chars2('ど', 'ぃ'));
    push_pair(t, chars3('d', 'w', 'u'), chars2('ど', 'ぅ'));
    push_pair(t, chars3('d', 'w', 'e'), chars2('ど', 'ぇ'));
    push_pair(t, chars3('d', 'w', 'o'), chars2('ど', 'ぉ'));
    proof {
        broadcast use {Seq::add_empty_right, crate::strings::lemma_add_push};
        assert(table_view(t@) == table_view(old(t)@) + spec_romaji_dominant_h());
    }
}

pub open spec fn spec_romaji_dominant_i() -> Seq<(Seq<char>, Seq<char>)> {
    seq![
        (seq!['n', 'a'], seq!['な']),
        (seq!['n', 'i'], seq!['に']),
        (seq!['n', 'u'], seq!['ぬ']),
        (seq!['n', 'e'], seq!['ね']),
        (seq!['n', 'o'], seq!['の']),
        (seq!['n', 'y', 'a'], seq!['に', 'ゃ']),
        (seq!['n', 'y', 'i'], seq!['に', 'ぃ']),
        (seq!['n', 'y', 'u'], seq!['に', 'ゅ']),
        (seq!['n', 'y', 'e'], seq!['に', 'ぇ']),
        (seq!['n', 'y', 'o'], seq!['に', 'ょ']),
        (seq!['f', 'u'], seq!['ふ']),
        (seq!['h', 'a'], seq!['は']),
        (seq!['h', 'i'], seq!['ひ']),
        (seq!['h', 'e'], seq!['へ']),
        (seq!['h', 'o'], seq!['ほ']),
    ]
}

fn romaji_dominant_i(t: &mut MappingTable)
    ensures
        table_view(final(t)@) == table_view(old(t)@) + spec_romaji_dominant_i(),
        spec_table_wf(table_view(old(t)@)) ==> spec_table_wf(table_view(final(t)@)),
{
    push_pair(t, chars2('n', 'a'), chars1('な'));
    push_pair(t, chars2('n', 'i'), chars1('に'));
    push_pair(t, chars2('n', 'u'), chars1('ぬ'));
    push_pair(t, chars2('n', 'e'), chars1('ね'));
    push_pair(t, chars2('n', 'o'), chars1('の'));
    push_pair(t, chars3('n', 'y', 'a'), chars2('に', 'ゃ'));
    push_pair(t, chars3('n', 'y', 'i'), chars2('に', 'ぃ'));
    push_pair(t, chars3('n', 'y', 'u'), chars2('に', 'ゅ'));
    push_pair(t, chars3('n', 'y', 'e'), chars2('に', 'ぇ'));
    push_pair(t, chars3('n', 'y', 'o'), chars2('に', 'ょ'));
    push_pair(t, chars2('f', 'u'), chars1('ふ'));
    push_pair(t, chars2('h', 'a'), chars1('は'));
    push_pair(t, chars2('h', 'i'), chars1('ひ'));
    push_pair(t, chars2('h', 'e'), chars1('へ'));
    push_pair(t, chars2('h', 'o'), chars1('ほ'));
    proof {
        broadcast use {Seq::add_empty_right, crate::strings::lemma_add_push};
        assert(table_view(t@) == table_view(old(t)@) + spec_romaji_dominant_i());
    }
}

pub open spec fn spec_romaji_dominant_j() -> Seq<(Seq<char>, Seq<char>)> {
    seq![
        (seq!['h', 'y', 'a'], seq!['ひ', 'ゃ']),
        (seq!['h', 'y', 'i'], seq!['ひ', 'ぃ']),
        (seq!['h', 'y', 'u'], seq!['ひ', 'ゅ']),
        (seq!['h', 'y', 'e'], seq!['ひ', 'ぇ']),
        (seq!['h', 'y', 'o'], seq!['ひ', 'ょ']),
        (seq!['f', 'y', 'a'], seq!['ふ', 'ゃ']),
        (seq!['f', 'y', 'i'], seq!['ふ', 'ぃ']),
        (seq!['f', 'y', 'u'], seq!['ふ', 'ゅ']),
        (seq!['f', 'y', 'e'], seq!['ふ', 'ぇ']),
        (seq!['f', 'y', 'o'], seq!['ふ', 'ょ']),
        (seq!['f', 'a'], seq!['ふ', 'ぁ']),
        (seq!['f', 'o'], seq!['ふ', 'ぉ']),
        (seq!['b', 'a'], seq!['ば']),
        (seq!['b', 'i'], seq!['び']),
        (seq!['b', 'u'], seq!['ぶ']),
    ]
}

fn romaji_dominant_j(t: &mut MappingTable)
    ensures
        table_view(final(t)@) == table_view(old(t)@) + spec_romaji_dominant_j(),
        spec_table_wf(table_view(old(t)@)) ==> spec_table_wf(table_view(final(t)@)),
{
    push_pair(t, chars3('h', 'y', 'a'), chars2('ひ', 'ゃ'));
    push_pair(t, chars3('h', 'y', 'i'), chars2('ひ', 'ぃ'));
    push_pair(t, chars3('h', 'y', 'u'), chars2('ひ', 'ゅ'));
    push_pair(t, chars3('h', 'y', 'e'), chars2('ひ', 'ぇ'));
    push_pair(t, chars3('h', 'y', 'o'), chars2('ひ', 'ょ'));
    push_pair(t, chars3('f', 'y', 'a'), chars2('ふ', 'ゃ'));
    push_pair(t, chars3('f', 'y', 'i'), chars2('ふ', 'ぃ'));
    push_pair(t, chars3('f', 'y', 'u'), chars2('ふ', 'ゅ'));
    push_pair(t, chars3('f', 'y', 'e'), chars2('ふ', 'ぇ'));
    push_pair(t, chars3('f', 'y', 'o'), chars2('ふ', 'ょ'));
    push_pair(t, chars2('f', 'a'), chars2('ふ', 'ぁ'));
    push_pair(t, chars2('f', 'o'), chars2('ふ', 'ぉ'));
    push_pair(t, chars2('b', 'a'), chars1('ば'));
    push_pair(t, chars2('b', 'i'), chars1('び'));
    push_pair(t, chars2('b', 'u'), chars1('ぶ'));
    proof {
        broadcast use {Seq::add_empty_right, crate::strings::lemma_add_push};
        assert(table_view(t@) == table_view(old(t)@) + spec_romaji_dominant_j());
    }
}

pub open spec fn spec_romaji_dominant_k() -> Seq<(Seq<char>, Seq<char>)> {
    seq![
        (seq!['b', 'e'], seq!['べ']),
        (seq!['b', 'o'], seq!['ぼ']),
        (seq!['b', 'y', 'a'], seq!['び', 'ゃ']),
        (seq!['b', 'y', 'i'], seq!['び', 'ぃ']),
        (seq!['b', 'y', 'u'], seq!['び', 'ゅ']),
        (seq!['b', 'y', 'e'], seq!['び', 'ぇ']),
        (seq!['b', 'y', 'o'], seq!['び', 'ょ']),
        (seq!['v', 'a'], seq!['ヴ', 'ぁ']),
        (seq!['v', 'u'], seq!['ヴ']),
        (seq!['v', 'o'], seq!['ヴ', 'ぉ']),
        (seq!['v', 'y', 'a'], seq!['ヴ', 'ゃ']),
        (seq!['v', 'i'], seq!['ヴ', 'ぃ']),
        (seq!['v', 'y', 'u'], seq!['ヴ', 'ゅ']),
        (seq!['v', 'e'], seq!['ヴ', 'ぇ']),
        (seq!['v', 'y', 'o'], seq!['ヴ', 'ょ']),
    ]
}

fn romaji_dominant_k(t: &mut MappingTable)
    ensures
        table_view(final(t)@) == table_view(old(t)@) + spec_romaji_dominant_k(),
        spec_table_wf(table_view(old(t)@)) ==> spec_table_wf(table_view(final(t)@)),
{
    push_pair(t, chars2('b', 'e'), chars1('べ'));
    push_pair(t, chars2('b', 'o'), chars1('ぼ'));
    push_pair(t, chars3('b', 'y', 'a'), chars2('び', 'ゃ'));
    push_pair(t, chars3('b', 'y', 'i'), chars2('び', 'ぃ'));
    push_pair(t, chars3('b', 'y', 'u'), chars2('び', 'ゅ'));
    push_pair(t, chars3('b', 'y', 'e'), chars2('び', 'ぇ'));
    push_pair(t, chars3('b', 'y', 'o'), chars2('び', 'ょ'));
    push_pair(t, chars2('v', 'a'), chars2('ヴ', 'ぁ'));
    push_pair(t, chars2('v', 'u'), chars1('ヴ'));
    push_pair(t, chars2('v', 'o'), chars2('ヴ', 'ぉ'));
    push_pair(t, chars3('v', 'y', 'a'), chars2('ヴ', 'ゃ'));
    push_pair(t, chars2('v', 'i'), chars2('ヴ', 'ぃ'));
    push_pair(t, chars3('v', 'y', 'u'), chars2('ヴ', 'ゅ'));
    push_pair(t, chars2('v', 'e'), chars2('ヴ', 'ぇ'));
    push_pair(t, chars3('v', 'y', 'o'), chars2('ヴ', 'ょ'));
    proof {
        broadcast use {Seq::add_empty_right, crate::strings::lemma_add_push};
        assert(table_view(t@) == table_view(old(t)@) + spec_romaji_dominant_k());
    }
}

pub open spec fn spec_romaji_dominant_l() -> Seq<(Seq<char>, Seq<char>)> {
    seq![
        (seq!['p', 'a'], seq!['ぱ']),
        (seq!['p', 'i'], seq!['ぴ']),
        (seq!['p', 'u'], seq!['ぷ']),
        (seq!['p', 'e'], seq!['ぺ']),
        (seq!['p', 'o'], seq!['ぽ']),
        (seq!['p', 'y', 'a'], seq!['ぴ', 'ゃ']),
        (seq!['p', 'y', 'i'], seq!['ぴ', 'ぃ']),
        (seq!['p', 'y', 'u'], seq!['ぴ', 'ゅ']),
        (seq!['p', 'y', 'e'], seq!['ぴ', 'ぇ']),
        (seq!['p', 'y', 'o'], seq!['ぴ', 'ょ']),
        (seq!['m', 'a'], seq!['ま']),
        (seq!['m', 'i'], seq!['み']),
        (seq!['m', 'u'], seq!['む']),
        (seq!['m', 'e'], seq!['め']),
        (seq!['m', 'o'], seq!['も']),
    ]
}

fn romaji_dominant_l(t: &mut MappingTable)
    ensures
        table_view(final(t)@) == table_view(old(t)@) + spec_romaji_dominant_l(),
        spec_table_wf(table_view(old(t)@)) ==> spec_table_wf(table_view(final(t)@)),
{
    push_pair(t, chars2('p', 'a'), chars1('ぱ'));
    push_pair(t, chars2('p', 'i'), chars1('ぴ'));
    push_pair(t, chars2('p', 'u'), chars1('ぷ'));
    push_pair(t, chars2('p', 'e'), chars1('ぺ'));
    push_pair(t, chars2('p', 'o'), chars1('ぽ'));
    push_pair(t, chars3('p', 'y', 'a'), chars2('ぴ', 'ゃ'));
    push_pair(t, chars3('p', 'y', 'i'), chars2('ぴ', 'ぃ'));
    push_pair(t, chars3('p', 'y', 'u'), chars2('ぴ', 'ゅ'));
    push_pair(t, chars3('p', 'y', 'e'), chars2('ぴ', 'ぇ'));
    push_pair(t, chars3('p', 'y', 'o'), chars2('ぴ', 'ょ'));
    push_pair(t, chars2('m', 'a'), chars1('ま'));
    push_pair(t, chars2('m', 'i'), chars1('み'));
    push_pair(t, chars2('m', 'u'), chars1('む'));
    push_pair(t, chars2('m', 'e'), chars1('め'));
    push_pair(t, chars2('m', 'o'), chars1('も'));
    proof {
        broadcast use {Seq::add_empty_right, crate::strings::lemma_add_push};
        assert(table_view(t@) == table_view(old(t)@) + spec_romaji_dominant_l());
    }
}

pub open spec fn spec_romaji_dominant_m() -> Seq<(Seq<char>, Seq<char>)> {
    seq![
        (seq!['m', 'y', 'a'], seq!['み', 'ゃ']),
        (seq!['m', 'y', 'i'], seq!['み', 'ぃ']),
        (seq!['m', 'y', 'u'], seq!['み', 'ゅ']),
        (seq!['m', 'y', 'e'], seq!['み', 'ぇ']),
        (seq!['m', 'y', 'o'], seq!['み', 'ょ']),
        (seq!['y', 'a'], seq!['や']),
        (seq!['y', 'u'], seq!['ゆ']),
        (seq!['y', 'o'], seq!['よ']),
        (seq!['l', 'y', 'a'], seq!['ゃ']),
        (seq!['l', 'y', 'u'], seq!['ゅ']),
        (seq!['l', 'y', 'o'], seq!['ょ']),
        (seq!['r', 'a'], seq!['ら']),
        (seq!['r', 'i'], seq!['り']),
        (seq!['r', 'u'], seq!['る']),
        (seq!['r', 'e'], seq!['れ']),
    ]
}

fn romaji_dominant_m(t: &mut MappingTable)
    ensures
        table_view(final(t)@) == table_view(old(t)@) + spec_romaji_dominant_m(),
        spec_table_wf(table_view(old(t)@)) ==> spec_table_wf(table_view(final(t)@)),
{
    push_pair(t, chars3('m', 'y', 'a'), chars2('み', 'ゃ'));
    push_pair(t, chars3('m', 'y', 'i'), chars2('み', 'ぃ'));
    push_pair(t, chars3('m', 'y', 'u'), chars2('み', 'ゅ'));
    push_pair(t, chars3('m', 'y', 'e'), chars2('み', 'ぇ'));
    push_pair(t, chars3('m', 'y', 'o'), chars2('み', 'ょ'));
    push_pair(t, chars2('y', 'a'), chars1('や'));
    push_pair(t, chars2('y', 'u'), chars1('ゆ'));
    push_pair(t, chars2('y', 'o'), chars1('よ'));
    push_pair(t, chars3('l', 'y', 'a'), chars1('ゃ'));
    push_pair(t, chars3('l', 'y', 'u'), chars1('ゅ'));
    push_pair(t, chars3('l', 'y', 'o'), chars1('ょ'));
    push_pair(t, chars2('r', 'a'), chars1('ら'));
    push_pair(t, chars2('r', 'i'), chars1('り'));
    push_pair(t, chars2('r', 'u'), chars1('る'));
    push_pair(t, chars2('r', 'e'), chars1('れ'));
    proof {
        broadcast use {Seq::add_empty_right, crate::strings::lemma_add_push};
        assert(table_view(t@) == table_view(old(t)@) + spec_romaji_dominant_m());
    }
}

pub open spec fn spec_romaji_dominant_n() -> Seq<(Seq<char>, Seq<char>)> {
    seq![
        (seq!['r', 'o'], seq!['ろ']),
        (seq!['r', 'y', 'a'], seq!['り', 'ゃ']),
        (seq!['r', 'y', 'i'], seq!['り', 'ぃ']),
        (seq!['r', 'y', 'u'], seq!['り', 'ゅ']),
        (seq!['r', 'y', 'e'], seq!['り', 'ぇ']),
        (seq!['r', 'y', 'o'], seq!['り', 'ょ']),
        (seq!['w', 'a'], seq!['わ']),
        (seq!['w', 'y', 'i'], seq!['ゐ']),
        (seq!['w', 'y', 'e'], seq!['ゑ']),
        (seq!['w', 'o'], seq!['を']),
        (seq!['l', 'w', 'a'], seq!['ゎ']),
    ]
}

fn romaji_dominant_n(t: &mut MappingTable)
    ensures
        table_view(final(t)@) == table_view(old(t)@) + spec_romaji_dominant_n(),
        spec_table_wf(table_view(old(t)@)) ==> spec_table_wf(table_view(final(t)@)),
{
    push_pair(t, chars2('r', 'o'), chars1('ろ'));
    push_pair(t, chars3('r', 'y', 'a'), chars2('り', 'ゃ'));
    push_pair(t, chars3('r', 'y', 'i'), chars2('り', 'ぃ'));
    push_pair(t, chars3('r', 'y', 'u'), chars2('り', 'ゅ'));
    push_pair(t, chars3('r', 'y', 'e'), chars2('り', 'ぇ'));
    push_pair(t, chars3('r', 'y', 'o'), chars2('り', 'ょ'));
    push_pair(t, chars2('w', 'a'), chars1('わ'));
    push_pair(t, chars3('w', 'y', 'i'), chars1('ゐ'));
    push_pair(t, chars3('w', 'y', 'e'), chars1('ゑ'));
    push_pair(t, chars2('w', 'o'), chars1('を'));
    push_pair(t, chars3('l', 'w', 'a'), chars1('ゎ'));
    proof {
        broadcast use {Seq::add_empty_right, crate::strings::lemma_add_push};
        assert(table_view(t@) == table_view(old(t)@) + spec_romaji_dominant_n());
    }
}

/// The dominant romaji spellings: the preferred romanization of each
/// syllable. Only these, with the punctuation, take part in the inverse
/// table.
pub open spec fn spec_romaji_dominant() -> Seq<(Seq<char>, Seq<char>)> {
    spec_romaji_dominant_a() + spec_romaji_dominant_b() + spec_romaji_dominant_c() + spec_romaji_dominant_d() + spec_romaji_dominant_e() + spec_romaji_dominant_f() + spec_romaji_dominant_g() + spec_romaji_dominant_h() + spec_romaji_dominant_i() + spec_romaji_dominant_j() + spec_romaji_dominant_k() + spec_romaji_dominant_l() + spec_romaji_dominant_m() + spec_romaji_dominant_n()
}

/// Builds the dominant rows, in their authored order.
pub fn romaji_dominant_rows() -> (t: MappingTable)
    ensures
        table_view(t@) == spec_romaji_dominant(),
        spec_table_wf(table_view(t@)),
{
    let mut t: MappingTable = Vec::new();
    proof {
        assert(table_view(t@) =~= Seq::<(Seq<char>, Seq<char>)>::empty());
    }
    romaji_dominant_a(&mut t);
    proof {
        assert(table_view(t@) =~= spec_romaji_dominant_a());
    }
    romaji_dominant_b(&mut t);
    romaji_dominant_c(&mut t);
    romaji_dominant_d(&mut t);
    romaji_dominant_e(&mut t);
    romaji_dominant_f(&mut t);
    romaji_dominant_g(&mut t);
    romaji_dominant_h(&mut t);
    romaji_dominant_i(&mut t);
    romaji_dominant_j(&mut t);
    romaji_dominant_k(&mut t);
    romaji_dominant_l(&mut t);
    romaji_dominant_m(&mut t);
    romaji_dominant_n(&mut t);
    proof {
        assert(table_view(t@) == spec_romaji_dominant());
    }
    t
}

pub open spec fn spec_romaji_rest_a() -> Seq<(Seq<char>, Seq<char>)> {
    seq![
        (seq!['v', 'y', 'e'], seq!['ヴ', 'ぇ']),
        (seq!['v', 'y', 'i'], seq!['ヴ', 'ぃ']),
        (seq!['f', 'i'], seq!['ふ', 'ぃ']),
        (seq!['f', 'e'], seq!['ふ', 'ぇ']),
        (seq!['h', 'u'], seq!['ふ']),
        (seq!['d', 'i'], seq!['ぢ']),
        (seq!['d', 'u'], seq!['づ']),
        (seq!['c', 'y', 'e'], seq!['ち', 'ぇ']),
        (seq!['c', 'y', 'o'], seq!['ち', 'ょ']),
        (seq!['t', 'y', 'u'], seq!['ち', 'ゅ']),
        (seq!['c', 'y', 'u'], seq!['ち', 'ゅ']),
        (seq!['t', 'y', 'e'], seq!['ち', 'ぇ']),
        (seq!['t', 'y', 'o'], seq!['ち', 'ょ']),
        (seq!['c', 'y', 'i'], seq!['ち', 'ぃ']),
        (seq!['t', 'y', 'a'], seq!['ち', 'ゃ']),
    ]
}

fn romaji_rest_a(t: &mut MappingTable)
    ensures
        table_view(final(t)@) == table_view(old(t)@) + spec_romaji_rest_a(),
        spec_table_wf(table_view(old(t)@)) ==> spec_table_wf(table_view(final(t)@)),
{
    push_pair(t, chars3('v', 'y', 'e'), chars2('ヴ', 'ぇ'));
    push_pair(t, chars3('v', 'y', 'i'), chars2('ヴ', 'ぃ'));
    push_pair(t, chars2('f', 'i'), chars2('ふ', 'ぃ'));
    push_pair(t, chars2('f', 'e'), chars2('ふ', 'ぇ'));
    push_pair(t, chars2('h', 'u'), chars1('ふ'));
    push_pair(t, chars2('d', 'i'), chars1('ぢ'));
    push_pair(t, chars2('d', 'u'), chars1('づ'));
    push_pair(t, chars3('c', 'y', 'e'), chars2('ち', 'ぇ'));
    push_pair(t, chars3('c', 'y', 'o'), chars2('ち', 'ょ'));
    push_pair(t, chars3('t', 'y', 'u'), chars2('ち', 'ゅ'));
    push_pair(t, chars3('c', 'y', 'u'), chars2('ち', 'ゅ'));
    push_pair(t, chars3('t', 'y', 'e'), chars2('ち', 'ぇ'));
    push_pair(t, chars3('t', 'y', 'o'), chars2('ち', 'ょ'));
    push_pair(t, chars3('c', 'y', 'i'), chars2('ち', 'ぃ'));
    push_pair(t, chars3('t', 'y', 'a'), chars2('ち', 'ゃ'));
    proof {
        broadcast use {Seq::add_empty_right, crate::strings::lemma_add_push};
        assert(table_view(t@) == table_view(old(t)@) + spec_romaji_rest_a());
    }
}

pub open spec fn spec_romaji_rest_b() -> Seq<(Seq<char>, Seq<char>)> {
    seq![
        (seq!['c', 'y', 'a'], seq!['ち', 'ゃ']),
        (seq!['t', 'i'], seq!['ち']),
        (seq!['t', 'u'], seq!['つ']),
        (seq!['z', 'i'], seq!['じ']),
        (seq!['s', 'y', 'a'], seq!['し', 'ゃ']),
        (seq!['s', 'y', 'u'], seq!['し', 'ゅ']),
        (seq!['s', 'y', 'e'], seq!['し', 'ぇ']),
        (seq!['s', 'y', 'o'], seq!['し', 'ょ']),
        (seq!['j', 'y', 'a'], seq!['じ', 'ゃ']),
        (seq!['j', 'y', 'u'], seq!['じ', 'ゅ']),
        (seq!['j', 'y', 'e'], seq!['じ', 'ぇ']),
        (seq!['j', 'y', 'o'], seq!['じ', 'ょ']),
        (seq!['z', 'y', 'a'], seq!['じ', 'ゃ']),
        (seq!['z', 'y', 'i'], seq!['じ', 'ぃ']),
        (seq!['z', 'y', 'u'], seq!['じ', 'ゅ']),
    ]
}

fn romaji_rest_b(t: &mut MappingTable)
    ensures
        table_view(final(t)@) == table_view(old(t)@) + spec_romaji_rest_b(),
        spec_table_wf(table_view(old(t)@)) ==> spec_table_wf(table_view(final(t)@)),
{
    push_pair(t, chars3('c', 'y', 'a'), chars2('ち', 'ゃ'));
    push_pair(t, chars2('t', 'i'), chars1('ち'));
    push_pair(t, chars2('t', 'u'), chars1('つ'));
    push_pair(t, chars2('z', 'i'), chars1('じ'));
    push_pair(t, chars3('s', 'y', 'a'), chars2('し', 'ゃ'));
    push_pair(t, chars3('s', 'y', 'u'), chars2('し', 'ゅ'));
    push_pair(t, chars3('s', 'y', 'e'), chars2('し', 'ぇ'));
    push_pair(t, chars3('s', 'y', 'o'), chars2('し', 'ょ'));
    push_pair(t, chars3('j', 'y', 'a'), chars2('じ', 'ゃ'));
    push_pair(t, chars3('j', 'y', 'u'), chars2('じ', 'ゅ'));
    push_pair(t, chars3('j', 'y', 'e'), chars2('じ', 'ぇ'));
    push_pair(t, chars3('j', 'y', 'o'), chars2('じ', 'ょ'));
    push_pair(t, chars3('z', 'y', 'a'), chars2('じ', 'ゃ'));
    push_pair(t, chars3('z', 'y', 'i'), chars2('じ', 'ぃ'));
    push_pair(t, chars3('z', 'y', 'u'), chars2('じ', 'ゅ'));
    proof {
        broadcast use {Seq::add_empty_right, crate::strings::lemma_add_push};
        assert(table_view(t@) == table_view(old(t)@) + spec_romaji_rest_b());
    }
}

pub open spec fn spec_romaji_rest_c() -> Seq<(Seq<char>, Seq<char>)> {
    seq![
        (seq!['z', 'y', 'e'], seq!['じ', 'ぇ']),
        (seq!['z', 'y', 'o'], seq!['じ', 'ょ']),
        (seq!['s', 'i'], seq!['し']),
        (seq!['c', 'i'], seq!['し']),
        (seq!['c', 'e'], seq!['せ']),
        (seq!['x', 'k', 'a'], seq!['ヵ']),
        (seq!['q', 'y', 'i'], seq!['く', 'ぃ']),
        (seq!['q', 'y', 'e'], seq!['く', 'ぇ']),
        (seq!['k', 'w', 'a'], seq!['く', 'ぁ']),
        (seq!['q', 'a'], seq!['く', 'ぁ']),
        (seq!['q', 'i'], seq!['く', 'ぃ']),
        (seq!['q', 'e'], seq!['く', 'ぇ']),
        (seq!['q', 'o'], seq!['く', 'ぉ']),
        (seq!['x', 'k', 'e'], seq!['ヶ']),
        (seq!['l', 'k', 'e'], seq!['ヶ']),
    ]
}

fn romaji_rest_c(t: &mut MappingTable)
    ensures
        table_view(final(t)@) == table_view(old(t)@) + spec_romaji_rest_c(),
        spec_table_wf(table_view(old(t)@)) ==> spec_table_wf(table_view(final(t)@)),
{
    push_pair(t, chars3('z', 'y', 'e'), chars2('じ', 'ぇ'));
    push_pair(t, chars3('z', 'y', 'o'), chars2('じ', 'ょ'));
    push_pair(t, chars2('s', 'i'), chars1('し'));
    push_pair(t, chars2('c', 'i'), chars1('し'));
    push_pair(t, chars2('c', 'e'), chars1('せ'));
    push_pair(t, chars3('x', 'k', 'a'), chars1('ヵ'));
    push_pair(t, chars3('q', 'y', 'i'), chars2('く', 'ぃ'));
    push_pair(t, chars3('q', 'y', 'e'), chars2('く', 'ぇ'));
    push_pair(t, chars3('k', 'w', 'a'), chars2('く', 'ぁ'));
    push_pair(t, chars2('q', 'a'), chars2('く', 'ぁ'));
    push_pair(t, chars2('q', 'i'), chars2('く', 'ぃ'));
    push_pair(t, chars2('q', 'e'), chars2('く', 'ぇ'));
    push_pair(t, chars2('q', 'o'), chars2('く', 'ぉ'));
    push_pair(t, chars3('x', 'k', 'e'), chars1('ヶ'));
    push_pair(t, chars3('l', 'k', 'e'), chars1('ヶ'));
    proof {
        broadcast use {Seq::add_empty_right, crate::strings::lemma_add_push};
        assert(table_view(t@) == table_view(old(t)@) + spec_romaji_rest_c());
    }
}

pub open spec fn spec_romaji_rest_d() -> Seq<(Seq<char>, Seq<char>)> {
    seq![
        (seq!['c', 'a'], seq!['か']),
        (seq!['c', 'u'], seq!['く']),
        (seq!['c', 'o'], seq!['こ']),
        (seq!['q', 'u'], seq!['く']),
        (seq!['w', 'h', 'i'], seq!['う', 'ぃ']),
        (seq!['w', 'h', 'e'], seq!['う', 'ぇ']),
        (seq!['y', 'i'], seq!['い']),
        (seq!['l', 'y', 'i'], seq!['ぃ']),
        (seq!['x', 'y', 'i'], seq!['ぃ']),
        (seq!['l', 'y', 'e'], seq!['ぇ']),
        (seq!['x', 'y', 'e'], seq!['ぇ']),
        (seq!['x', 'a'], seq!['ぁ']),
        (seq!['x', 'i'], seq!['ぃ']),
        (seq!['x', 'u'], seq!['ぅ']),
        (seq!['x', 'e'], seq!['ぇ']),
    ]
}

fn romaji_rest_d(t: &mut MappingTable)
    ensures
        table_view(final(t)@) == table_view(old(t)@) + spec_romaji_rest_d(),
        spec_table_wf(table_view(old(t)@)) ==> spec_table_wf(table_view(final(t)@)),
{
    push_pair(t, chars2('c', 'a'), chars1('か'));
    push_pair(t, chars2('c', 'u'), chars1('く'));
    push_pair(t, chars2('c', 'o'), chars1('こ'));
    push_pair(t, chars2('q', 'u'), chars1('く'));
    push_pair(t, chars3('w', 'h', 'i'), chars2('う', 'ぃ'));
    push_pair(t, chars3('w', 'h', 'e'), chars2('う', 'ぇ'));
    push_pair(t, chars2('y', 'i'), chars1('い'));
    push_pair(t, chars3('l', 'y', 'i'), chars1('ぃ'));
    push_pair(t, chars3('x', 'y', 'i'), chars1('ぃ'));
    push_pair(t, chars3('l', 'y', 'e'), chars1('ぇ'));
    push_pair(t, chars3('x', 'y', 'e'), chars1('ぇ'));
    push_pair(t, chars2('x', 'a'), chars1('ぁ'));
    push_pair(t, chars2('x', 'i'), chars1('ぃ'));
    push_pair(t, chars2('x', 'u'), chars1('ぅ'));
    push_pair(t, chars2('x', 'e'), chars1('ぇ'));
    proof {
        broadcast use {Seq::add_empty_right, crate::strings::lemma_add_push};
        assert(table_view(t@) == table_view(old(t)@) + spec_romaji_rest_d());
    }
}

pub open spec fn spec_romaji_rest_e() -> Seq<(Seq<char>, Seq<char>)> {
    seq![
        (seq!['x', 'o'], seq!['ぉ']),
        (seq!['w', 'h', 'u'], seq!['う']),
        (seq!['n', 'n'], seq!['ん']),
        (seq!['x', 'n'], seq!['ん']),
        (seq!['w', 'u'], seq!['う']),
        (seq!['x', 'y', 'a'], seq!['ゃ']),
        (seq!['x', 'y', 'u'], seq!['ゅ']),
        (seq!['x', 'y', 'o'], seq!['ょ']),
        (seq!['x', 'w', 'a'], seq!['ゎ']),
    ]
}

fn romaji_rest_e(t: &mut MappingTable)
    ensures
        table_view(final(t)@) == table_view(old(t)@) + spec_romaji_rest_e(),
        spec_table_wf(table_view(old(t)@)) ==> spec_table_wf(table_view(final(t)@)),
{
    push_pair(t, chars2('x', 'o'), chars1('ぉ'));
    push_pair(t, chars3('w', 'h', 'u'), chars1('う'));
    push_pair(t, chars2('n', 'n'), chars1('ん'));
    push_pair(t, chars2('x', 'n'), chars1('ん'));
    push_pair(t, chars2('w', 'u'), chars1('う'));
    push_pair(t, chars3('x', 'y', 'a'), chars1('ゃ'));
    push_pair(t, chars3('x', 'y', 'u'), chars1('ゅ'));
    push_pair(t, chars3('x', 'y', 'o'), chars1('ょ'));
    push_pair(t, chars3('x', 'w', 'a'), chars1('ゎ'));
    proof {
        broadcast use {Seq::add_empty_right, crate::strings::lemma_add_push};
        assert(table_view(t@) == table_view(old(t)@) + spec_romaji_rest_e());
    }
}

/// The secondary spellings: accepted on the forward path, excluded from
/// the inverse table.
pub open spec fn spec_romaji_rest() -> Seq<(Seq<char>, Seq<char>)> {
    spec_romaji_rest_a() + spec_romaji_rest_b() + spec_romaji_rest_c() + spec_romaji_rest_d() + spec_romaji_rest_e()
}

/// Builds the secondary rows, in their authored order.
pub fn romaji_rest_rows() -> (t: MappingTable)
    ensures
        table_view(t@) == spec_romaji_rest(),
        spec_table_wf(table_view(t@)),
{
    let mut t: MappingTable = Vec::new();
    proof {
        assert(table_view(t@) =~= Seq::<(Seq<char>, Seq<char>)>::empty());
    }
    romaji_rest_a(&mut t);
    proof {
        assert(table_view(t@) =~= spec_romaji_rest_a());
    }
    romaji_rest_b(&mut t);
    romaji_rest_c(&mut t);
    romaji_rest_d(&mut t);
    romaji_rest_e(&mut t);
    proof {
        assert(table_view(t@) == spec_romaji_rest());
    }
    t
}

/// The spellings of a bare sokuon; forward only, since a sokuon that
/// precedes a consonant is reconstituted as a doubled letter instead.
pub open spec fn spec_sokuon_table() -> Seq<(Seq<char>, Seq<char>)> {
    seq![
        (seq!['l', 't', 'u'], seq!['っ']),
        (seq!['x', 't', 'u'], seq!['っ']),
        (seq!['l', 't', 's', 'u'], seq!['っ']),
    ]
}

/// Builds the sokuon rows.
pub fn sokuon_rows() -> (t: MappingTable)
    ensures
        table_view(t@) == spec_sokuon_table(),
        spec_table_wf(table_view(t@)),
{
    let mut t: MappingTable = Vec::new();
    proof {
        assert(table_view(t@) =~= Seq::<(Seq<char>, Seq<char>)>::empty());
    }
    push_pair(&mut t, chars3('l', 't', 'u'), chars1('っ'));
    push_pair(&mut t, chars3('x', 't', 'u'), chars1('っ'));
    push_pair(&mut t, chars4('l', 't', 's', 'u'), chars1('っ'));
    proof {
        assert(table_view(t@) =~~= spec_sokuon_table());
    }
    t
}

/// Punctuation substitutions, layered into the same mechanism.
pub open spec fn spec_punctuation_table() -> Seq<(Seq<char>, Seq<char>)> {
    seq![
        (seq!['['], seq!['「']),
        (seq![']'], seq!['」']),
        (seq!['*'], seq!['＊']),
        (seq!['?'], seq!['？']),
        (seq!['.'], seq!['。']),
        (seq![','], seq!['、']),
    ]
}

/// Builds the punctuation rows.
pub fn punctuation_rows() -> (t: MappingTable)
    ensures
        table_view(t@) == spec_punctuation_table(),
        spec_table_wf(table_view(t@)),
{
    let mut t: MappingTable = Vec::new();
    proof {
        assert(table_view(t@) =~= Seq::<(Seq<char>, Seq<char>)>::empty());
    }
    push_pair(&mut t, chars1('['), chars1('「'));
    push_pair(&mut t, chars1(']'), chars1('」'));
    push_pair(&mut t, chars1('*'), chars1('＊'));
    push_pair(&mut t, chars1('?'), chars1('？'));
    push_pair(&mut t, chars1('.'), chars1('。'));
    push_pair(&mut t, chars1(','), chars1('、'));
    proof {
        assert(table_view(t@) =~~= spec_punctuation_table());
    }
    t
}

/// The full forward romaji table: dominant spellings, then secondary
/// spellings, then the bare sokuon spellings, then punctuation.
pub open spec fn spec_romaji_table() -> Seq<(Seq<char>, Seq<char>)> {
    spec_romaji_dominant() + spec_romaji_rest() + spec_sokuon_table() + spec_punctuation_table()
}

/// A concatenation of well-formed tables is well-formed.
pub proof fn lemma_table_wf_concat(a: Seq<(Seq<char>, Seq<char>)>, b: Seq<(Seq<char>, Seq<char>)>)
    requires
        spec_table_wf(a),
        spec_table_wf(b),
    ensures
        spec_table_wf(a + b),
{
    assert forall|i: int| 0 <= i < (a + b).len() implies (#[trigger] (a + b)[i]).0.len() > 0 && (a
        + b)[i].1.len() > 0 by {
        if i < a.len() {
            assert((a + b)[i] == a[i]);
        } else {
            assert((a + b)[i] == b[i - a.len()]);
        }
    }
}

/// The full conversion data: the three forward tables and the three
/// inverse tables derived from them.
pub struct ConversionData {
    pub romaji_to_hiragana: MappingTable,
    pub hiragana_to_romaji: MappingTable,
    pub geminates_to_kana: MappingTable,
    pub kana_to_geminates: MappingTable,
    pub hiragana_to_katakana: MappingTable,
    pub katakana_to_hiragana: MappingTable,
}

impl ConversionData {
    /// Every table holds only non-empty keys and non-empty values.
    pub open spec fn wf(self) -> bool {
        &&& spec_table_wf(table_view(self.romaji_to_hiragana@))
        &&& spec_table_wf(table_view(self.hiragana_to_romaji@))
        &&& spec_table_wf(table_view(self.geminates_to_kana@))
        &&& spec_table_wf(table_view(self.kana_to_geminates@))
        &&& spec_table_wf(table_view(self.hiragana_to_katakana@))
        &&& spec_table_wf(table_view(self.katakana_to_hiragana@))
    }
}

/// Builds every table once. The contract states each forward table's
/// content and the derivation rule for the inverse tables: the kana table
/// is inverted whole, the geminate and romaji inverses are built from the
/// dominant entries only (for romaji, the dominant spellings together with
/// the punctuation entries).
pub fn build_conversion_data() -> (d: ConversionData)
    ensures
        d.wf(),
        table_view(d.geminates_to_kana@) == spec_geminate_table(),
        table_view(d.romaji_to_hiragana@) == spec_romaji_table(),
        table_view(d.hiragana_to_katakana@) == spec_hiragana_katakana_table(),
        table_view(d.kana_to_geminates@) == spec_invert(spec_geminate_dominant()),
        table_view(d.katakana_to_hiragana@) == spec_invert(spec_hiragana_katakana_table()),
        table_view(d.hiragana_to_romaji@) == spec_invert(
            spec_romaji_dominant() + spec_punctuation_table(),
        ),
{
    proof {
        assert(table_view(Seq::<(Vec<char>, Vec<char>)>::empty()) =~= Seq::<
            (Seq<char>, Seq<char>),
        >::empty());
    }
    let gdom = geminate_dominant_rows();
    let mut grest = geminate_rest_rows();
    let mut ktg: MappingTable = Vec::new();
    invert_into(&gdom, &mut ktg);
    let ghost gdom0 = gdom@;
    let ghost grest0 = grest@;
    let mut gtk = gdom;
    gtk.append(&mut grest);
    proof {
        lemma_table_view_concat(gdom0, grest0);
        lemma_table_wf_concat(table_view(gdom0), table_view(grest0));
        lemma_invert_from_wf(spec_geminate_dominant(), Seq::empty());
    }

    let kana = hiragana_katakana_rows();
    let mut kth: MappingTable = Vec::new();
    invert_into(&kana, &mut kth);
    proof {
        lemma_invert_from_wf(spec_hiragana_katakana_table(), Seq::empty());
    }

    let dom = romaji_dominant_rows();
    let mut rest = romaji_rest_rows();
    let mut sok = sokuon_rows();
    let mut punct = punctuation_rows();
    let mut htr: MappingTable = Vec::new();
    invert_into(&dom, &mut htr);
    invert_into(&punct, &mut htr);
    proof {
        lemma_invert_from_concat(spec_romaji_dominant(), spec_punctuation_table(), Seq::empty());
    }
    let ghost dom0 = dom@;
    let ghost rest0 = rest@;
    let ghost sok0 = sok@;
    let ghost punct0 = punct@;
    let mut rth = dom;
    rth.append(&mut rest);
    rth.append(&mut sok);
    rth.append(&mut punct);
    proof {
        lemma_table_view_concat(dom0, rest0);
        lemma_table_view_concat(dom0 + rest0, sok0);
        lemma_table_view_concat(dom0 + rest0 + sok0, punct0);
        assert(rth@ =~= dom0 + rest0 + sok0 + punct0);
        assert(table_view(rth@) =~= spec_romaji_table());
        lemma_table_wf_concat(spec_romaji_dominant(), spec_romaji_rest());
        lemma_table_wf_concat(
            spec_romaji_dominant() + spec_romaji_rest(),
            spec_sokuon_table(),
        );
        lemma_table_wf_concat(
            spec_romaji_dominant() + spec_romaji_rest() + spec_sokuon_table(),
            spec_punctuation_table(),
        );
        lemma_table_wf_concat(spec_romaji_dominant(), spec_punctuation_table());
        lemma_invert_from_wf(spec_romaji_dominant() + spec_punctuation_table(), Seq::empty());
    }
    ConversionData {
        romaji_to_hiragana: rth,
        hiragana_to_romaji: htr,
        geminates_to_kana: gtk,
        kana_to_geminates: ktg,
        hiragana_to_katakana: kana,
        katakana_to_hiragana: kth,
    }
}

} // verus!
