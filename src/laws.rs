//! What holds of the fingerprint, the table builder and the lookup together.
use vstd::prelude::*;
use vstd::string::StringSliceAdditionalSpecFns;
use crate::fingerprint::fnv1a_spec;
use crate::table::{first_index, lemma_first_index_unique, lookup, table_entry, table_of};

verus! {

/// Whether the names of the candidates have pairwise distinct fingerprints:
/// the names are distinct and no two of them collide.
pub open spec fn collision_free(cs: Seq<(Seq<u8>, usize)>) -> bool {
    forall|a: int, b: int|
        0 <= a < b < cs.len() ==> #[trigger] fnv1a_spec(cs[a].0) != #[trigger] fnv1a_spec(cs[b].0)
}

/// The fingerprint is a function of the name: equal names give equal fingerprints.
pub proof fn lemma_fingerprint_deterministic(a: &str, b: &str)
    requires
        a@ == b@,
    ensures
        fnv1a_spec(a.spec_bytes()) == fnv1a_spec(b.spec_bytes()),
{
}

/// Every entry of a built table comes from one of the candidates.
pub proof fn lemma_entry_origin(img: Seq<u8>, cs: Seq<(Seq<u8>, usize)>)
    ensures
        forall|j: int|
            0 <= j < table_of(img, cs).len() ==> exists|k: int|
                0 <= k < cs.len() && table_entry(img, cs[k]) == Some(
                    #[trigger] table_of(img, cs)[j],
                ),
    decreases cs.len(),
{
    if cs.len() > 0 {
        let p = cs.drop_last();
        lemma_entry_origin(img, p);
        let t = table_of(img, cs);
        assert forall|j: int| 0 <= j < t.len() implies exists|k: int|
            0 <= k < cs.len() && table_entry(img, cs[k]) == Some(#[trigger] t[j]) by {
            if j < table_of(img, p).len() {
                let k = choose|k: int|
                    0 <= k < p.len() && table_entry(img, p[k]) == Some(table_of(img, p)[j]);
                assert(cs[k] == p[k]);
            } else {
                assert(table_entry(img, cs[cs.len() - 1]) == Some(t[j]));
            }
        }
    }
}

/// Every candidate whose code is a trampoline has its entry in the built table.
pub proof fn lemma_entry_present(img: Seq<u8>, cs: Seq<(Seq<u8>, usize)>, k: int, e: (u64, usize))
    requires
        0 <= k < cs.len(),
        table_entry(img, cs[k]) == Some(e),
    ensures
        exists|j: int| 0 <= j < table_of(img, cs).len() && table_of(img, cs)[j] == e,
    decreases cs.len(),
{
    let p = cs.drop_last();
    if k == cs.len() - 1 {
        assert(table_of(img, cs)[table_of(img, p).len() as int] == e);
    } else {
        assert(p[k] == cs[k]);
        lemma_entry_present(img, p, k, e);
        let j = choose|j: int| 0 <= j < table_of(img, p).len() && table_of(img, p)[j] == e;
        assert(table_of(img, cs)[j] == e);
    }
}

/// Built from candidates whose names do not collide, a table holds each
/// fingerprint at most once: no name gets two entries.
pub proof fn lemma_table_fingerprints_distinct(img: Seq<u8>, cs: Seq<(Seq<u8>, usize)>)
    requires
        collision_free(cs),
    ensures
        forall|a: int, b: int|
            0 <= a < b < table_of(img, cs).len() ==> #[trigger] table_of(img, cs)[a].0
                != #[trigger] table_of(img, cs)[b].0,
    decreases cs.len(),
{
    if cs.len() > 0 {
        let p = cs.drop_last();
        assert(collision_free(p)) by {
            assert forall|a: int, b: int| 0 <= a < b < p.len() implies #[trigger] fnv1a_spec(p[a].0)
                != #[trigger] fnv1a_spec(p[b].0) by {
                assert(p[a] == cs[a] && p[b] == cs[b]);
            }
        }
        lemma_table_fingerprints_distinct(img, p);
        lemma_entry_origin(img, p);
        let t = table_of(img, cs);
        let n = table_of(img, p).len();
        assert forall|a: int, b: int| 0 <= a < b < t.len() implies #[trigger] t[a].0
            != #[trigger] t[b].0 by {
            if b < n {
                assert(t[a] == table_of(img, p)[a] && t[b] == table_of(img, p)[b]);
            } else {
                let last = cs.len() - 1;
                assert(table_entry(img, cs[last]) == Some(t[b]));
                assert(t[a] == table_of(img, p)[a]);
                let k = choose|k: int|
                    0 <= k < p.len() && table_entry(img, p[k]) == Some(table_of(img, p)[a]);
                assert(cs[k] == p[k]);
                assert(fnv1a_spec(cs[k].0) != fnv1a_spec(cs[last].0));
            }
        }
    }
}

/// With names that do not collide, looking up the fingerprint of a
/// trampoline's name in the built table returns that trampoline's identifier.
pub proof fn lemma_lookup_finds_recorded(
    img: Seq<u8>,
    cs: Seq<(Seq<u8>, usize)>,
    k: int,
    e: (u64, usize),
)
    requires
        collision_free(cs),
        0 <= k < cs.len(),
        table_entry(img, cs[k]) == Some(e),
    ensures
        e.0 == fnv1a_spec(cs[k].0),
        lookup(table_of(img, cs), e.0) == Some(e.1),
{
    let t = table_of(img, cs);
    lemma_entry_present(img, cs, k, e);
    lemma_table_fingerprints_distinct(img, cs);
    let j = choose|j: int| 0 <= j < t.len() && t[j] == e;
    assert forall|i: int| 0 <= i < j implies t[i].0 != e.0 by {
        assert(t[i].0 != t[j].0);
    }
    assert(first_index(t, e.0, j));
    lemma_first_index_unique(t, e.0, j);
}

} // verus!
