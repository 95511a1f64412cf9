//! Records as stored in the database, the rules that turn raw rows into them,
//! and the order in which the schema migrations run.

pub mod models;
pub mod monitors;
pub mod notifications;
pub mod users;

use vstd::prelude::*;

use crate::text::{lemma_lex_total, lemma_lex_transitive, lex_le, str_le};

verus! {

broadcast use vstd::seq_lib::group_seq_properties;

/// Whether `names` are in order.
pub open spec fn spec_sorted(names: Seq<String>) -> bool {
    forall|i: int, j: int| 0 <= i < j < names.len() ==> lex_le(#[trigger] names[i]@, #[trigger] names[j]@)
}

/// The embedded migration files' names in the order they run: sorted, as
/// `Vec::sort` on the names orders them.
pub fn migration_order(names: &Vec<String>) -> (r: Vec<String>)
    ensures
        r@.to_multiset() == names@.to_multiset(),
        spec_sorted(r@),
{
    let mut out: Vec<String> = Vec::new();
    let mut i: usize = 0;
    while i < names.len()
        invariant
            i <= names.len(),
            out@.to_multiset() == names@.take(i as int).to_multiset(),
            spec_sorted(out@),
        decreases names.len() - i,
    {
        let x = names[i].clone();
        let mut p: usize = 0;
        while p < out.len() && str_le(out[p].as_str(), x.as_str())
            invariant
                p <= out.len(),
                forall|k: int| 0 <= k < p ==> lex_le(#[trigger] out@[k]@, x@),
            decreases out.len() - p,
        {
            p = p + 1;
        }
        let ghost before = out@;
        proof {
            if p < out.len() {
                lemma_lex_total(out@[p as int]@, x@);
            }
        }
        out.insert(p, x);
        proof {
            assert forall|a: int, b: int| 0 <= a < b < out@.len() implies lex_le(
                #[trigger] out@[a]@,
                #[trigger] out@[b]@,
            ) by {
                if b < p {
                    assert(out@[a] == before[a] && out@[b] == before[b]);
                } else if b == p {
                    assert(out@[a] == before[a]);
                } else if a == p {
                    assert(out@[b] == before[b - 1]);
                    if b - 1 > p {
                        assert(lex_le(before[p as int]@, before[b - 1]@));
                        lemma_lex_transitive(x@, before[p as int]@, before[b - 1]@);
                    }
                } else if a < p {
                    assert(out@[a] == before[a] && out@[b] == before[b - 1]);
                } else {
                    assert(out@[a] == before[a - 1] && out@[b] == before[b - 1]);
                }
            }
            assert(names@.take(i + 1) =~= names@.take(i as int).push(names@[i as int]));
        }
        i = i + 1;
    }
    assert(names@.take(names.len() as int) =~= names@);
    out
}

} // verus!
