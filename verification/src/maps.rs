//! Inversion of an insertion-ordered map, first seen wins: the earliest
//! entry for a value decides what the swapped key maps to, so the dominant
//! spelling survives.
//!
//! The map type is indexmap's `IndexMap`, taken on trust through the
//! declarations below; the inversion logic itself is verified against
//! them.

use vstd::prelude::*;

use crate::convert::spec_has_key;
use crate::convert::spec_invert;
use crate::convert::spec_invert_from;

verus! {

#[verifier::external_type_specification]
#[verifier::external_body]
#[verifier::reject_recursive_types(K)]
#[verifier::reject_recursive_types(V)]
#[verifier::reject_recursive_types(S)]
pub struct ExIndexMap<K, V, S>(indexmap::IndexMap<K, V, S>);

/// What an `IndexMap` holds: its (key, value) pairs, in their order.
pub uninterp spec fn index_map_entries(m: indexmap::IndexMap<&'static str, &'static str>) -> Seq<
    (Seq<char>, Seq<char>),
>;

/// The position of the entry of `es` whose key is `k`; negative when no
/// entry has that key.
pub open spec fn spec_find_key(es: Seq<(Seq<char>, Seq<char>)>, k: Seq<char>) -> int
    decreases es.len(),
{
    if es.len() == 0 {
        -1
    } else if es[0].0 == k {
        0
    } else {
        let r = spec_find_key(es.skip(1), k);
        if r == -1 {
            -1
        } else {
            r + 1
        }
    }
}

/// A key is found at a non-negative position exactly when some entry has
/// it.
proof fn lemma_find_key_has_key(es: Seq<(Seq<char>, Seq<char>)>, k: Seq<char>)
    ensures
        (spec_find_key(es, k) >= 0) == spec_has_key(es, k),
    decreases es.len(),
{
    if es.len() == 0 {
        assert(!spec_has_key(es, k));
    } else if es[0].0 == k {
        assert(spec_has_key(es, k));
    } else {
        lemma_find_key_has_key(es.skip(1), k);
        if spec_has_key(es, k) {
            let i = choose|i: int| 0 <= i < es.len() && (#[trigger] es[i]).0 == k;
            assert(es.skip(1)[i - 1] == es[i]);
            assert(spec_has_key(es.skip(1), k));
        }
        if spec_has_key(es.skip(1), k) {
            let j = choose|j: int| 0 <= j < es.skip(1).len() && (#[trigger] es.skip(1)[j]).0 == k;
            assert(es[j + 1] == es.skip(1)[j]);
            assert(spec_has_key(es, k));
        }
    }
}

/// Relies on indexmap::IndexMap::new: creates an empty map.
#[verifier::external_body]
fn index_map_new() -> (m: indexmap::IndexMap<&'static str, &'static str>)
    ensures
        index_map_entries(m) == Seq::<(Seq<char>, Seq<char>)>::empty(),
{
    indexmap::IndexMap::new()
}

/// Relies on indexmap::IndexMap::insert: an equivalent key keeps its place
/// in the order and its value is updated; a new key-value pair is inserted
/// last in order.
#[verifier::external_body]
fn index_map_insert(
    m: &mut indexmap::IndexMap<&'static str, &'static str>,
    key: &'static str,
    value: &'static str,
)
    ensures
        index_map_entries(*final(m)) == {
            let es = index_map_entries(*old(m));
            let i = spec_find_key(es, key@);
            if i >= 0 {
                es.update(i, (key@, value@))
            } else {
                es.push((key@, value@))
            }
        },
{
    m.insert(key, value);
}

/// Relies on indexmap::IndexMap::contains_key: whether the map has an
/// entry with an equivalent key.
#[verifier::external_body]
fn index_map_contains_key(
    m: &indexmap::IndexMap<&'static str, &'static str>,
    key: &'static str,
) -> (r: bool)
    ensures
        r == spec_has_key(index_map_entries(*m), key@),
{
    m.contains_key(key)
}

/// Relies on indexmap::IndexMap::iter: yields the pairs in their order.
#[verifier::external_body]
fn index_map_to_vec(m: &indexmap::IndexMap<&'static str, &'static str>) -> (r: Vec<
    (&'static str, &'static str),
>)
    ensures
        r@.len() == index_map_entries(*m).len(),
        forall|i: int|
            0 <= i < r@.len() ==> (#[trigger] r@[i]).0@ == index_map_entries(*m)[i].0
                && r@[i].1@ == index_map_entries(*m)[i].1,
{
    m.iter().map(|(k, v)| (*k, *v)).collect()
}

/// Swaps every (key, value) pair of the map, in map order, first seen
/// wins: when several entries share a value, the first of them decides
/// what the swapped key maps to.
pub fn invert(map: &indexmap::IndexMap<&'static str, &'static str>) -> (r: indexmap::IndexMap<
    &'static str,
    &'static str,
>)
    ensures
        index_map_entries(r) == spec_invert(index_map_entries(*map)),
{
    let ghost es = index_map_entries(*map);
    let entries = index_map_to_vec(map);
    let mut r = index_map_new();
    let mut i: usize = 0;
    proof {
        assert(es.skip(0) =~= es);
    }
    while i < entries.len()
        invariant
            i <= entries@.len(),
            entries@.len() == es.len(),
            forall|j: int|
                0 <= j < entries@.len() ==> (#[trigger] entries@[j]).0@ == es[j].0
                    && entries@[j].1@ == es[j].1,
            spec_invert(es) == spec_invert_from(es.skip(i as int), index_map_entries(r)),
        decreases entries@.len() - i,
    {
        let (key, value) = entries[i];
        let ghost rest = es.skip(i as int);
        let ghost acc = index_map_entries(r);
        proof {
            assert(rest[0] == es[i as int]);
            assert(rest.skip(1) =~= es.skip(i + 1));
        }
        if !index_map_contains_key(&r, value) {
            proof {
                lemma_find_key_has_key(acc, value@);
            }
            index_map_insert(&mut r, value, key);
        }
        i = i + 1;
    }
    proof {
        assert(es.skip(es.len() as int) =~= Seq::<(Seq<char>, Seq<char>)>::empty());
    }
    r
}

} // verus!
