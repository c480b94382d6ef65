//! The geminate / moraic-nasal table: two-letter consonant clusters mapped
//! to a partial kana fragment, a sokuon or moraic nasal followed by the
//! bare second consonant. The fragment is finished by the main syllable
//! table in a later pass.

use vstd::prelude::*;

use crate::convert::chars2;
use crate::convert::push_pair;
use crate::strings::MappingTable;
use crate::strings::spec_table_wf;
use crate::strings::table_view;

verus! {

/// The dominant geminate clusters; only these take part in the inverse
/// table.
pub open spec fn spec_geminate_dominant() -> Seq<(Seq<char>, Seq<char>)> {
    seq![
        (seq!['k', 'k'], seq!['っ', 'k']),
        (seq!['t', 't'], seq!['っ', 't']),
        (seq!['c', 'c'], seq!['っ', 'c']),
        (seq!['s', 's'], seq!['っ', 's']),
        (seq!['p', 'p'], seq!['っ', 'p']),
        (seq!['m', 'm'], seq!['ん', 'm']),
        (seq!['m', 't'], seq!['ん', 't']),
        (seq!['m', 'b'], seq!['ん', 'b']),
        (seq!['m', 'p'], seq!['ん', 'p']),
    ]
}

/// Builds the dominant geminate rows.
pub fn geminate_dominant_rows() -> (t: MappingTable)
    ensures
        table_view(t@) == spec_geminate_dominant(),
        spec_table_wf(table_view(t@)),
{
    let mut t: MappingTable = Vec::new();
    proof {
        assert(table_view(t@) =~= Seq::<(Seq<char>, Seq<char>)>::empty());
    }
    push_pair(&mut t, chars2('k', 'k'), chars2('っ', 'k'));
    push_pair(&mut t, chars2('t', 't'), chars2('っ', 't'));
    push_pair(&mut t, chars2('c', 'c'), chars2('っ', 'c'));
    push_pair(&mut t, chars2('s', 's'), chars2('っ', 's'));
    push_pair(&mut t, chars2('p', 'p'), chars2('っ', 'p'));
    push_pair(&mut t, chars2('m', 'm'), chars2('ん', 'm'));
    push_pair(&mut t, chars2('m', 't'), chars2('ん', 't'));
    push_pair(&mut t, chars2('m', 'b'), chars2('ん', 'b'));
    push_pair(&mut t, chars2('m', 'p'), chars2('ん', 'p'));
    proof {
        assert(table_view(t@) =~~= spec_geminate_dominant());
    }
    t
}

/// The remaining clusters, ambiguous on the reverse path: forward only.
pub open spec fn spec_geminate_rest() -> Seq<(Seq<char>, Seq<char>)> {
    seq![
        (seq!['n', 't'], seq!['ん', 't']),
        (seq!['n', 'p'], seq!['ん', 'p']),
        (seq!['n', 'b'], seq!['ん', 'b']),
    ]
}

/// Builds the remaining geminate rows.
pub fn geminate_rest_rows() -> (t: MappingTable)
    ensures
        table_view(t@) == spec_geminate_rest(),
        spec_table_wf(table_view(t@)),
{
    let mut t: MappingTable = Vec::new();
    proof {
        assert(table_view(t@) =~= Seq::<(Seq<char>, Seq<char>)>::empty());
    }
    push_pair(&mut t, chars2('n', 't'), chars2('ん', 't'));
    push_pair(&mut t, chars2('n', 'p'), chars2('ん', 'p'));
    push_pair(&mut t, chars2('n', 'b'), chars2('ん', 'b'));
    proof {
        assert(table_view(t@) =~~= spec_geminate_rest());
    }
    t
}

/// The full forward geminate table: the dominant clusters, then the
/// forward-only ones.
pub open spec fn spec_geminate_table() -> Seq<(Seq<char>, Seq<char>)> {
    spec_geminate_dominant() + spec_geminate_rest()
}

} // verus!
