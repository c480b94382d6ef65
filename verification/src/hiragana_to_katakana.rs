//! The direct hiragana-to-katakana character table.

use vstd::prelude::*;

use crate::convert::chars1;
use crate::convert::chars2;
use crate::convert::push_pair;
use crate::strings::MappingTable;
use crate::strings::spec_table_wf;
use crate::strings::table_view;

verus! {

pub open spec fn spec_hiragana_katakana_table_a() -> Seq<(Seq<char>, Seq<char>)> {
    seq![
        (seq!['ぁ'], seq!['ァ']),
        (seq!['あ'], seq!['ア']),
        (seq!['ぃ'], seq!['ィ']),
        (seq!['い'], seq!['イ']),
        (seq!['ぅ'], seq!['ゥ']),
        (seq!['う'], seq!['ウ']),
        (seq!['ぇ'], seq!['ェ']),
        (seq!['え'], seq!['エ']),
        (seq!['ぉ'], seq!['ォ']),
        (seq!['お'], seq!['オ']),
        (seq!['か'], seq!['カ']),
        (seq!['が'], seq!['ガ']),
        (seq!['き'], seq!['キ']),
        (seq!['ぎ'], seq!['ギ']),
        (seq!['く'], seq!['ク']),
    ]
}

fn hiragana_katakana_a(t: &mut MappingTable)
    ensures
        table_view(final(t)@) == table_view(old(t)@) + spec_hiragana_katakana_table_a(),
        spec_table_wf(table_view(old(t)@)) ==> spec_table_wf(table_view(final(t)@)),
{
    push_pair(t, chars1('ぁ'), chars1('ァ'));
    push_pair(t, chars1('あ'), chars1('ア'));
    push_pair(t, chars1('ぃ'), chars1('ィ'));
    push_pair(t, chars1('い'), chars1('イ'));
    push_pair(t, chars1('ぅ'), chars1('ゥ'));
    push_pair(t, chars1('う'), chars1('ウ'));
    push_pair(t, chars1('ぇ'), chars1('ェ'));
    push_pair(t, chars1('え'), chars1('エ'));
    push_pair(t, chars1('ぉ'), chars1('ォ'));
    push_pair(t, chars1('お'), chars1('オ'));
    push_pair(t, chars1('か'), chars1('カ'));
    push_pair(t, chars1('が'), chars1('ガ'));
    push_pair(t, chars1('き'), chars1('キ'));
    push_pair(t, chars1('ぎ'), chars1('ギ'));
    push_pair(t, chars1('く'), chars1('ク'));
    proof {
        broadcast use {Seq::add_empty_right, crate::strings::lemma_add_push};
        assert(table_view(t@) == table_view(old(t)@) + spec_hiragana_katakana_table_a());
    }
}

pub open spec fn spec_hiragana_katakana_table_b() -> Seq<(Seq<char>, Seq<char>)> {
    seq![
        (seq!['ぐ'], seq!['グ']),
        (seq!['け'], seq!['ケ']),
        (seq!['げ'], seq!['ゲ']),
        (seq!['こ'], seq!['コ']),
        (seq!['ご'], seq!['ゴ']),
        (seq!['さ'], seq!['サ']),
        (seq!['ざ'], seq!['ザ']),
        (seq!['し'], seq!['シ']),
        (seq!['じ'], seq!['ジ']),
        (seq!['す'], seq!['ス']),
        (seq!['ず'], seq!['ズ']),
        (seq!['せ'], seq!['セ']),
        (seq!['ぜ'], seq!['ゼ']),
        (seq!['そ'], seq!['ソ']),
        (seq!['ぞ'], seq!['ゾ']),
    ]
}

fn hiragana_katakana_b(t: &mut MappingTable)
    ensures
        table_view(final(t)@) == table_view(old(t)@) + spec_hiragana_katakana_table_b(),
        spec_table_wf(table_view(old(t)@)) ==> spec_table_wf(table_view(final(t)@)),
{
    push_pair(t, chars1('ぐ'), chars1('グ'));
    push_pair(t, chars1('け'), chars1('ケ'));
    push_pair(t, chars1('げ'), chars1('ゲ'));
    push_pair(t, chars1('こ'), chars1('コ'));
    push_pair(t, chars1('ご'), chars1('ゴ'));
    push_pair(t, chars1('さ'), chars1('サ'));
    push_pair(t, chars1('ざ'), chars1('ザ'));
    push_pair(t, chars1('し'), chars1('シ'));
    push_pair(t, chars1('じ'), chars1('ジ'));
    push_pair(t, chars1('す'), chars1('ス'));
    push_pair(t, chars1('ず'), chars1('ズ'));
    push_pair(t, chars1('せ'), chars1('セ'));
    push_pair(t, chars1('ぜ'), chars1('ゼ'));
    push_pair(t, chars1('そ'), chars1('ソ'));
    push_pair(t, chars1('ぞ'), chars1('ゾ'));
    proof {
        broadcast use {Seq::add_empty_right, crate::strings::lemma_add_push};
        assert(table_view(t@) == table_view(old(t)@) + spec_hiragana_katakana_table_b());
    }
}

pub open spec fn spec_hiragana_katakana_table_c() -> Seq<(Seq<char>, Seq<char>)> {
    seq![
        (seq!['た'], seq!['タ']),
        (seq!['だ'], seq!['ダ']),
        (seq!['ち'], seq!['チ']),
        (seq!['ぢ'], seq!['ヂ']),
        (seq!['っ'], seq!['ッ']),
        (seq!['つ'], seq!['ツ']),
        (seq!['づ'], seq!['ヅ']),
        (seq!['て'], seq!['テ']),
        (seq!['で'], seq!['デ']),
        (seq!['と'], seq!['ト']),
        (seq!['ど'], seq!['ド']),
        (seq!['な'], seq!['ナ']),
        (seq!['に'], seq!['ニ']),
        (seq!['ぬ'], seq!['ヌ']),
        (seq!['ね'], seq!['ネ']),
    ]
}

fn hiragana_katakana_c(t: &mut MappingTable)
    ensures
        table_view(final(t)@) == table_view(old(t)@) + spec_hiragana_katakana_table_c(),
        spec_table_wf(table_view(old(t)@)) ==> spec_table_wf(table_view(final(t)@)),
{
    push_pair(t, chars1('た'), chars1('タ'));
    push_pair(t, chars1('だ'), chars1('ダ'));
    push_pair(t, chars1('ち'), chars1('チ'));
    push_pair(t, chars1('ぢ'), chars1('ヂ'));
    push_pair(t, chars1('っ'), chars1('ッ'));
    push_pair(t, chars1('つ'), chars1('ツ'));
    push_pair(t, chars1('づ'), chars1('ヅ'));
    push_pair(t, chars1('て'), chars1('テ'));
    push_pair(t, chars1('で'), chars1('デ'));
    push_pair(t, chars1('と'), chars1('ト'));
    push_pair(t, chars1('ど'), chars1('ド'));
    push_pair(t, chars1('な'), chars1('ナ'));
    push_pair(t, chars1('に'), chars1('ニ'));
    push_pair(t, chars1('ぬ'), chars1('ヌ'));
    push_pair(t, chars1('ね'), chars1('ネ'));
    proof {
        broadcast use {Seq::add_empty_right, crate::strings::lemma_add_push};
        assert(table_view(t@) == table_view(old(t)@) + spec_hiragana_katakana_table_c());
    }
}

pub open spec fn spec_hiragana_katakana_table_d() -> Seq<(Seq<char>, Seq<char>)> {
    seq![
        (seq!['の'], seq!['ノ']),
        (seq!['は'], seq!['ハ']),
        (seq!['ば'], seq!['バ']),
        (seq!['ぱ'], seq!['パ']),
        (seq!['ひ'], seq!['ヒ']),
        (seq!['び'], seq!['ビ']),
        (seq!['ぴ'], seq!['ピ']),
        (seq!['ふ'], seq!['フ']),
        (seq!['ぶ'], seq!['ブ']),
        (seq!['ぷ'], seq!['プ']),
        (seq!['へ'], seq!['ヘ']),
        (seq!['べ'], seq!['ベ']),
        (seq!['ぺ'], seq!['ペ']),
        (seq!['ほ'], seq!['ホ']),
        (seq!['ぼ'], seq!['ボ']),
    ]
}

fn hiragana_katakana_d(t: &mut MappingTable)
    ensures
        table_view(final(t)@) == table_view(old(t)@) + spec_hiragana_katakana_table_d(),
        spec_table_wf(table_view(old(t)@)) ==> spec_table_wf(table_view(final(t)@)),
{
    push_pair(t, chars1('の'), chars1('ノ'));
    push_pair(t, chars1('は'), chars1('ハ'));
    push_pair(t, chars1('ば'), chars1('バ'));
    push_pair(t, chars1('ぱ'), chars1('パ'));
    push_pair(t, chars1('ひ'), chars1('ヒ'));
    push_pair(t, chars1('び'), chars1('ビ'));
    push_pair(t, chars1('ぴ'), chars1('ピ'));
    push_pair(t, chars1('ふ'), chars1('フ'));
    push_pair(t, chars1('ぶ'), chars1('ブ'));
    push_pair(t, chars1('ぷ'), chars1('プ'));
    push_pair(t, chars1('へ'), chars1('ヘ'));
    push_pair(t, chars1('べ'), chars1('ベ'));
    push_pair(t, chars1('ぺ'), chars1('ペ'));
    push_pair(t, chars1('ほ'), chars1('ホ'));
    push_pair(t, chars1('ぼ'), chars1('ボ'));
    proof {
        broadcast use {Seq::add_empty_right, crate::strings::lemma_add_push};
        assert(table_view(t@) == table_view(old(t)@) + spec_hiragana_katakana_table_d());
    }
}

pub open spec fn spec_hiragana_katakana_table_e() -> Seq<(Seq<char>, Seq<char>)> {
    seq![
        (seq!['ぽ'], seq!['ポ']),
        (seq!['ま'], seq!['マ']),
        (seq!['み'], seq!['ミ']),
        (seq!['む'], seq!['ム']),
        (seq!['め'], seq!['メ']),
        (seq!['も'], seq!['モ']),
        (seq!['ゃ'], seq!['ャ']),
        (seq!['や'], seq!['ヤ']),
        (seq!['ゅ'], seq!['ュ']),
        (seq!['ゆ'], seq!['ユ']),
        (seq!['ょ'], seq!['ョ']),
        (seq!['よ'], seq!['ヨ']),
        (seq!['ら'], seq!['ラ']),
        (seq!['り'], seq!['リ']),
        (seq!['る'], seq!['ル']),
    ]
}

fn hiragana_katakana_e(t: &mut MappingTable)
    ensures
        table_view(final(t)@) == table_view(old(t)@) + spec_hiragana_katakana_table_e(),
        spec_table_wf(table_view(old(t)@)) ==> spec_table_wf(table_view(final(t)@)),
{
    push_pair(t, chars1('ぽ'), chars1('ポ'));
    push_pair(t, chars1('ま'), chars1('マ'));
    push_pair(t, chars1('み'), chars1('ミ'));
    push_pair(t, chars1('む'), chars1('ム'));
    push_pair(t, chars1('め'), chars1('メ'));
    push_pair(t, chars1('も'), chars1('モ'));
    push_pair(t, chars1('ゃ'), chars1('ャ'));
    push_pair(t, chars1('や'), chars1('ヤ'));
    push_pair(t, chars1('ゅ'), chars1('ュ'));
    push_pair(t, chars1('ゆ'), chars1('ユ'));
    push_pair(t, chars1('ょ'), chars1('ョ'));
    push_pair(t, chars1('よ'), chars1('ヨ'));
    push_pair(t, chars1('ら'), chars1('ラ'));
    push_pair(t, chars1('り'), chars1('リ'));
    push_pair(t, chars1('る'), chars1('ル'));
    proof {
        broadcast use {Seq::add_empty_right, crate::strings::lemma_add_push};
        assert(table_view(t@) == table_view(old(t)@) + spec_hiragana_katakana_table_e());
    }
}

pub open spec fn spec_hiragana_katakana_table_f() -> Seq<(Seq<char>, Seq<char>)> {
    seq![
        (seq!['れ'], seq!['レ']),
        (seq!['ろ'], seq!['ロ']),
        (seq!['ゎ'], seq!['ヮ']),
        (seq!['わ'], seq!['ワ']),
        (seq!['ゐ'], seq!['ヰ']),
        (seq!['ゑ'], seq!['ヱ']),
        (seq!['を'], seq!['ヲ']),
        (seq!['ん'], seq!['ン']),
        (seq!['ゔ'], seq!['ヴ']),
        (seq!['ゕ'], seq!['ヵ']),
        (seq!['ゖ'], seq!['ヶ']),
        (seq!['わ', '゛'], seq!['ヷ']),
        (seq!['ゐ', '゛'], seq!['ヸ']),
        (seq!['ゑ', '゛'], seq!['ヹ']),
        (seq!['を', '゛'], seq!['ヺ']),
    ]
}

fn hiragana_katakana_f(t: &mut MappingTable)
    ensures
        table_view(final(t)@) == table_view(old(t)@) + spec_hiragana_katakana_table_f(),
        spec_table_wf(table_view(old(t)@)) ==> spec_table_wf(table_view(final(t)@)),
{
    push_pair(t, chars1('れ'), chars1('レ'));
    push_pair(t, chars1('ろ'), chars1('ロ'));
    push_pair(t, chars1('ゎ'), chars1('ヮ'));
    push_pair(t, chars1('わ'), chars1('ワ'));
    push_pair(t, chars1('ゐ'), chars1('ヰ'));
    push_pair(t, chars1('ゑ'), chars1('ヱ'));
    push_pair(t, chars1('を'), chars1('ヲ'));
    push_pair(t, chars1('ん'), chars1('ン'));
    push_pair(t, chars1('ゔ'), chars1('ヴ'));
    push_pair(t, chars1('ゕ'), chars1('ヵ'));
    push_pair(t, chars1('ゖ'), chars1('ヶ'));
    push_pair(t, chars2('わ', '゛'), chars1('ヷ'));
    push_pair(t, chars2('ゐ', '゛'), chars1('ヸ'));
    push_pair(t, chars2('ゑ', '゛'), chars1('ヹ'));
    push_pair(t, chars2('を', '゛'), chars1('ヺ'));
    proof {
        broadcast use {Seq::add_empty_right, crate::strings::lemma_add_push};
        assert(table_view(t@) == table_view(old(t)@) + spec_hiragana_katakana_table_f());
    }
}

/// Each hiragana character beside its katakana counterpart.
pub open spec fn spec_hiragana_katakana_table() -> Seq<(Seq<char>, Seq<char>)> {
    spec_hiragana_katakana_table_a() + spec_hiragana_katakana_table_b() + spec_hiragana_katakana_table_c() + spec_hiragana_katakana_table_d() + spec_hiragana_katakana_table_e() + spec_hiragana_katakana_table_f()
}

/// Builds the kana rows, in their authored order.
pub fn hiragana_katakana_rows() -> (t: MappingTable)
    ensures
        table_view(t@) == spec_hiragana_katakana_table(),
        spec_table_wf(table_view(t@)),
{
    let mut t: MappingTable = Vec::new();
    proof {
        assert(table_view(t@) =~= Seq::<(Seq<char>, Seq<char>)>::empty());
    }
    hiragana_katakana_a(&mut t);
    proof {
        assert(table_view(t@) =~= spec_hiragana_katakana_table_a());
    }
    hiragana_katakana_b(&mut t);
    hiragana_katakana_c(&mut t);
    hiragana_katakana_d(&mut t);
    hiragana_katakana_e(&mut t);
    hiragana_katakana_f(&mut t);
    proof {
        assert(table_view(t@) == spec_hiragana_katakana_table());
    }
    t
}

} // verus!
