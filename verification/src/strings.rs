//! Character classification and the scan-and-replace substitution primitive
//! that every conversion table is applied with.

use vstd::prelude::*;

verus! {

/// A mapping table: an ordered association from key strings to value strings.
/// Insertion order is significant; it decides which spelling wins when a
/// table is inverted.
pub type MappingTable = Vec<(Vec<char>, Vec<char>)>;

/// The view of a table as a sequence of (key, value) pairs of plain
/// character sequences.
pub open spec fn table_view(t: Seq<(Vec<char>, Vec<char>)>) -> Seq<(Seq<char>, Seq<char>)> {
    Seq::new(t.len(), |i: int| (t[i].0@, t[i].1@))
}

/// Every key and every value of the table is non-empty.
pub open spec fn spec_table_wf(pairs: Seq<(Seq<char>, Seq<char>)>) -> bool {
    forall|i: int|
        0 <= i < pairs.len() ==> (#[trigger] pairs[i]).0.len() > 0 && pairs[i].1.len() > 0
}

/// The code points with the Unicode `White_Space` property.
pub open spec fn spec_is_whitespace(c: char) -> bool {
    ||| c == '\u{0009}'
    ||| c == '\u{000A}'
    ||| c == '\u{000B}'
    ||| c == '\u{000C}'
    ||| c == '\u{000D}'
    ||| c == '\u{0020}'
    ||| c == '\u{0085}'
    ||| c == '\u{00A0}'
    ||| c == '\u{1680}'
    ||| c == '\u{2000}'
    ||| c == '\u{2001}'
    ||| c == '\u{2002}'
    ||| c == '\u{2003}'
    ||| c == '\u{2004}'
    ||| c == '\u{2005}'
    ||| c == '\u{2006}'
    ||| c == '\u{2007}'
    ||| c == '\u{2008}'
    ||| c == '\u{2009}'
    ||| c == '\u{200A}'
    ||| c == '\u{2028}'
    ||| c == '\u{2029}'
    ||| c == '\u{202F}'
    ||| c == '\u{205F}'
    ||| c == '\u{3000}'
}

pub fn is_whitespace_char(c: char) -> (r: bool)
    ensures
        r == spec_is_whitespace(c),
{
    c == '\u{0009}' || c == '\u{000A}' || c == '\u{000B}' || c == '\u{000C}' || c == '\u{000D}'
        || c == '\u{0020}' || c == '\u{0085}' || c == '\u{00A0}' || c == '\u{1680}' || c
        == '\u{2000}' || c == '\u{2001}' || c == '\u{2002}' || c == '\u{2003}' || c == '\u{2004}'
        || c == '\u{2005}' || c == '\u{2006}' || c == '\u{2007}' || c == '\u{2008}' || c
        == '\u{2009}' || c == '\u{200A}' || c == '\u{2028}' || c == '\u{2029}' || c == '\u{202F}'
        || c == '\u{205F}' || c == '\u{3000}'
}

/// The code point of `c` lies in the closed range `[range_beg, range_end]`.
pub open spec fn spec_char_in_range(c: char, range_beg: char, range_end: char) -> bool {
    range_beg as u32 <= c as u32 && c as u32 <= range_end as u32
}

pub fn char_in_range(c: char, range_beg: char, range_end: char) -> (r: bool)
    ensures
        r == spec_char_in_range(c, range_beg, range_end),
{
    range_beg as u32 <= c as u32 && c as u32 <= range_end as u32
}

/// A character passes the range test when it lies in the range, or is
/// whitespace: whitespace never disqualifies a string from a script.
pub open spec fn spec_char_tolerated(ch: char, range_beg: char, range_end: char) -> bool {
    spec_char_in_range(ch, range_beg, range_end) || spec_is_whitespace(ch)
}

pub fn is_char_between_char_range(ch: char, range_beg: char, range_end: char) -> (r: bool)
    ensures
        r == spec_char_tolerated(ch, range_beg, range_end),
{
    char_in_range(ch, range_beg, range_end) || is_whitespace_char(ch)
}

/// Every character of `s` lies in the range or is whitespace.
pub open spec fn spec_str_in_range(s: Seq<char>, range_beg: char, range_end: char) -> bool {
    forall|i: int| 0 <= i < s.len() ==> spec_char_tolerated(#[trigger] s[i], range_beg, range_end)
}

pub fn is_str_between_char_range(s: &Vec<char>, range_beg: char, range_end: char) -> (r: bool)
    ensures
        r == spec_str_in_range(s@, range_beg, range_end),
{
    let mut i: usize = 0;
    while i < s.len()
        invariant
            i <= s@.len(),
            forall|j: int| 0 <= j < i ==> spec_char_tolerated(#[trigger] s@[j], range_beg, range_end),
        decreases s@.len() - i,
    {
        if !is_char_between_char_range(s[i], range_beg, range_end) {
            return false;
        }
        i = i + 1;
    }
    true
}

/// Replacement of every non-overlapping occurrence of `k` in `s` by `v`,
/// scanning left to right: at each position, either `k` matches and is
/// consumed whole, or one character is kept and the scan moves on.
pub open spec fn spec_replace(s: Seq<char>, k: Seq<char>, v: Seq<char>) -> Seq<char>
    recommends
        k.len() > 0,
    decreases s.len(),
{
    if k.len() == 0 || s.len() < k.len() {
        s
    } else if s.take(k.len() as int) == k {
        v + spec_replace(s.skip(k.len() as int), k, v)
    } else {
        seq![s[0]] + spec_replace(s.skip(1), k, v)
    }
}

/// A fresh vector with the same characters.
pub fn copy_chars(s: &Vec<char>) -> (r: Vec<char>)
    ensures
        r@ == s@,
{
    let mut r: Vec<char> = Vec::new();
    let mut i: usize = 0;
    while i < s.len()
        invariant
            i <= s@.len(),
            r@ == s@.take(i as int),
        decreases s@.len() - i,
    {
        r.push(s[i]);
        proof {
            assert(s@.take(i + 1) =~= s@.take(i as int).push(s@[i as int]));
        }
        i = i + 1;
    }
    proof {
        assert(s@.take(s@.len() as int) =~= s@);
    }
    r
}

/// The characters of both vectors are equal.
pub fn chars_eq(a: &Vec<char>, b: &Vec<char>) -> (r: bool)
    ensures
        r == (a@ == b@),
{
    if a.len() != b.len() {
        proof {
            assert(a@ != b@);
        }
        return false;
    }
    let mut i: usize = 0;
    while i < a.len()
        invariant
            i <= a@.len(),
            a@.len() == b@.len(),
            forall|j: int| 0 <= j < i ==> a@[j] == b@[j],
        decreases a@.len() - i,
    {
        if a[i] != b[i] {
            proof {
                assert(a@ != b@);
            }
            return false;
        }
        i = i + 1;
    }
    proof {
        assert(a@ =~= b@);
    }
    true
}

/// `k` occurs in `s` at position `i`.
fn match_at(s: &Vec<char>, k: &Vec<char>, i: usize) -> (r: bool)
    requires
        i <= s@.len(),
        k@.len() <= s@.len() - i,
    ensures
        r == (s@.subrange(i as int, i + k@.len()) == k@),
{
    let slen = s.len();
    let mut j: usize = 0;
    while j < k.len()
        invariant
            j <= k@.len(),
            i + k@.len() <= s@.len(),
            slen == s@.len(),
            forall|m: int| 0 <= m < j ==> s@[i + m] == k@[m],
        decreases k@.len() - j,
    {
        proof {
            assert(i + j < s@.len());
        }
        if s[i + j] != k[j] {
            proof {
                assert(s@.subrange(i as int, i + k@.len())[j as int] != k@[j as int]);
            }
            return false;
        }
        j = j + 1;
    }
    proof {
        assert(s@.subrange(i as int, i + k@.len()) =~= k@);
    }
    true
}

fn push_all(out: &mut Vec<char>, v: &Vec<char>)
    ensures
        final(out)@ == old(out)@ + v@,
{
    let mut j: usize = 0;
    while j < v.len()
        invariant
            j <= v@.len(),
            out@ == old(out)@ + v@.take(j as int),
        decreases v@.len() - j,
    {
        out.push(v[j]);
        proof {
            assert(old(out)@ + v@.take(j + 1) =~= (old(out)@ + v@.take(j as int)).push(
                v@[j as int],
            ));
        }
        j = j + 1;
    }
    proof {
        assert(v@.take(v@.len() as int) =~= v@);
    }
}

/// Replaces every non-overlapping occurrence of `k` in `s` by `v`, left to
/// right.
pub fn replace_chars(s: &Vec<char>, k: &Vec<char>, v: &Vec<char>) -> (r: Vec<char>)
    requires
        k@.len() > 0,
    ensures
        r@ == spec_replace(s@, k@, v@),
{
    let mut out: Vec<char> = Vec::new();
    let mut i: usize = 0;
    proof {
        assert(s@.skip(0) =~= s@);
        assert(Seq::<char>::empty() + spec_replace(s@, k@, v@) =~= spec_replace(s@, k@, v@));
    }
    while i < s.len()
        invariant
            i <= s@.len(),
            k@.len() > 0,
            spec_replace(s@, k@, v@) == out@ + spec_replace(s@.skip(i as int), k@, v@),
        decreases s@.len() - i,
    {
        let ghost rest = s@.skip(i as int);
        if k.len() <= s.len() - i && match_at(s, k, i) {
            proof {
                assert(rest.take(k@.len() as int) =~= s@.subrange(i as int, i + k@.len()));
                assert(rest.skip(k@.len() as int) =~= s@.skip(i + k@.len()));
                assert(spec_replace(rest, k@, v@) == v@ + spec_replace(
                    s@.skip(i + k@.len()),
                    k@,
                    v@,
                ));
            }
            push_all(&mut out, v);
            proof {
                assert(out@ + spec_replace(s@.skip(i + k@.len()), k@, v@) =~= spec_replace(
                    s@,
                    k@,
                    v@,
                ));
            }
            i = i + k.len();
        } else {
            proof {
                assert(rest.skip(1) =~= s@.skip(i + 1));
                if rest.len() < k@.len() {
                    assert(spec_replace(rest, k@, v@) == rest);
                    assert(spec_replace(s@.skip(i + 1), k@, v@) == s@.skip(i + 1));
                    assert(rest =~= seq![s@[i as int]] + s@.skip(i + 1));
                } else {
                    assert(rest.take(k@.len() as int) =~= s@.subrange(i as int, i + k@.len()));
                    assert(spec_replace(rest, k@, v@) == seq![rest[0]] + spec_replace(
                        s@.skip(i + 1),
                        k@,
                        v@,
                    ));
                }
            }
            out.push(s[i]);
            proof {
                assert(out@ + spec_replace(s@.skip(i + 1), k@, v@) =~= spec_replace(s@, k@, v@));
            }
            i = i + 1;
        }
    }
    proof {
        assert(s@.skip(s@.len() as int) =~= Seq::<char>::empty());
        assert(out@ + Seq::<char>::empty() =~= out@);
    }
    out
}

/// Appending a pushed sequence is pushing onto the appended sequence;
/// oriented so that a table stated as rows folds onto a table built by
/// pushes.
pub broadcast proof fn lemma_add_push<A>(a: Seq<A>, b: Seq<A>, elt: A)
    ensures
        #[trigger] (a + b.push(elt)) == (a + b).push(elt),
{
    assert(a + b.push(elt) =~= (a + b).push(elt));
}

/// `k` occurs somewhere in `s`.
pub open spec fn spec_occurs(s: Seq<char>, k: Seq<char>) -> bool {
    exists|i: int| 0 <= i <= s.len() - k.len() && #[trigger] s.subrange(i, i + k.len()) == k
}

/// A key that occurs nowhere in the string replaces nothing: the string
/// comes back unchanged.
pub proof fn lemma_replace_no_occurrence(s: Seq<char>, k: Seq<char>, v: Seq<char>)
    requires
        k.len() > 0,
        !spec_occurs(s, k),
    ensures
        spec_replace(s, k, v) == s,
    decreases s.len(),
{
    if s.len() >= k.len() {
        if s.take(k.len() as int) == k {
            let i: int = 0;
            assert(s.subrange(i, i + k.len()) =~= s.take(k.len() as int));
            assert(spec_occurs(s, k));
        }
        assert forall|i: int| 0 <= i <= s.skip(1).len() - k.len() implies #[trigger] s.skip(
            1,
        ).subrange(i, i + k.len()) != k by {
            assert(s.skip(1).subrange(i, i + k.len()) =~= s.subrange(i + 1, i + 1 + k.len()));
        }
        lemma_replace_no_occurrence(s.skip(1), k, v);
        assert(seq![s[0]] + s.skip(1) =~= s);
    }
}

/// A table none of whose keys occurs in the string replaces nothing.
pub proof fn lemma_replace_all_no_occurrence(s: Seq<char>, pairs: Seq<(Seq<char>, Seq<char>)>)
    requires
        spec_table_wf(pairs),
        forall|j: int| 0 <= j < pairs.len() ==> !spec_occurs(s, (#[trigger] pairs[j]).0),
    ensures
        spec_replace_all(s, pairs) == s,
    decreases pairs.len(),
{
    if pairs.len() > 0 {
        lemma_replace_no_occurrence(s, pairs[0].0, pairs[0].1);
        assert(spec_table_wf(pairs.skip(1)));
        assert forall|j: int|
            0 <= j < pairs.skip(1).len() implies !spec_occurs(
            s,
            (#[trigger] pairs.skip(1)[j]).0,
        ) by {
            assert(pairs.skip(1)[j] == pairs[j + 1]);
        }
        lemma_replace_all_no_occurrence(s, pairs.skip(1));
    }
}

/// Applies the pairs of the table to `s` one after the other, in table
/// order, replacing every occurrence of each key by its value.
pub open spec fn spec_replace_all(s: Seq<char>, pairs: Seq<(Seq<char>, Seq<char>)>) -> Seq<char>
    decreases pairs.len(),
{
    if pairs.len() == 0 {
        s
    } else {
        spec_replace_all(spec_replace(s, pairs[0].0, pairs[0].1), pairs.skip(1))
    }
}

/// Applies every entry of `map` to `s`, in table order.
pub fn repeatedly_replace_str_with_map(s: &Vec<char>, map: &MappingTable) -> (r: Vec<char>)
    requires
        spec_table_wf(table_view(map@)),
    ensures
        r@ == spec_replace_all(s@, table_view(map@)),
{
    let ghost pairs = table_view(map@);
    let mut cur: Vec<char> = copy_chars(s);
    let mut idx: usize = 0;
    proof {
        assert(pairs.skip(0) =~= pairs);
    }
    while idx < map.len()
        invariant
            idx <= map@.len(),
            pairs == table_view(map@),
            spec_table_wf(pairs),
            spec_replace_all(s@, pairs) == spec_replace_all(cur@, pairs.skip(idx as int)),
        decreases map@.len() - idx,
    {
        let pair = &map[idx];
        proof {
            assert(pairs[idx as int] == (pair.0@, pair.1@));
            assert(pairs.skip(idx as int)[0] == pairs[idx as int]);
            assert(pairs.skip(idx as int).skip(1) =~= pairs.skip(idx + 1));
        }
        cur = replace_chars(&cur, &pair.0, &pair.1);
        idx = idx + 1;
    }
    proof {
        assert(pairs.skip(pairs.len() as int) =~= Seq::<(Seq<char>, Seq<char>)>::empty());
    }
    cur
}

} // verus!
