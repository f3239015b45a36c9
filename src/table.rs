//! The service table: (fingerprint of name, service identifier) pairs, in
//! order of discovery, and its first-match lookup.
use vstd::prelude::*;
use vstd::string::StringSliceAdditionalSpecFns;
use crate::exports::{
    candidates_of, candidates_view, export_candidates, export_directory_of,
    parse_export_directory, Candidate,
};
use crate::fingerprint::{fnv1a_64, fnv1a_64_bytes, fnv1a_spec};
use crate::trampoline::{service_identifier, trampoline_id};

verus! {

/// The entry that a candidate contributes: present only where its code, at
/// its offset in the image, is a trampoline.
pub open spec fn table_entry(img: Seq<u8>, c: (Seq<u8>, usize)) -> Option<(u64, usize)> {
    if c.1 <= img.len() {
        match trampoline_id(img.subrange(c.1 as int, img.len() as int)) {
            Some(id) => Some((fnv1a_spec(c.0), id as usize)),
            None => None,
        }
    } else {
        None
    }
}

/// The table built from a sequence of candidates: one entry per trampoline,
/// in the candidates' order.
pub open spec fn table_of(img: Seq<u8>, cs: Seq<(Seq<u8>, usize)>) -> Seq<(u64, usize)>
    decreases cs.len(),
{
    if cs.len() == 0 {
        seq![]
    } else {
        table_of(img, cs.drop_last()) + match table_entry(img, cs.last()) {
            Some(e) => seq![e],
            None => seq![],
        }
    }
}

/// Builds the table from candidates whose code lies in `img`.
pub fn build_table(img: &[u8], candidates: &[Candidate]) -> (r: Vec<(u64, usize)>)
    ensures
        r@ == table_of(img@, candidates_view(candidates@)),
{
    let mut table: Vec<(u64, usize)> = Vec::new();
    let mut i: usize = 0;
    while i < candidates.len()
        invariant
            i <= candidates@.len(),
            table@ == table_of(img@, candidates_view(candidates@.subrange(0, i as int))),
        decreases candidates@.len() - i,
    {
        let c = &candidates[i];
        assert(candidates_view(candidates@.subrange(0, i + 1)).drop_last() =~= candidates_view(
            candidates@.subrange(0, i as int),
        ));
        assert(candidates_view(candidates@.subrange(0, i + 1)).last() == c@);
        if c.address <= img.len() {
            let code = &img[c.address..img.len()];
            match service_identifier(code) {
                Some(id) => {
                    table.push((fnv1a_64_bytes(c.name.as_slice()), id as usize));
                },
                None => {},
            }
        }
        i += 1;
    }
    assert(candidates@.subrange(0, i as int) =~= candidates@);
    table
}

/// The table of an image: every named export whose code is a trampoline.
pub open spec fn image_table(img: Seq<u8>) -> Option<Seq<(u64, usize)>> {
    match export_directory_of(img) {
        Some(dir) => Some(table_of(img, candidates_of(img, dir))),
        None => None,
    }
}

/// Builds the table of an image; `None` where its export directory cannot be read.
pub fn scan_image(img: &[u8]) -> (r: Option<Vec<(u64, usize)>>)
    ensures
        r is None <==> image_table(img@) is None,
        r matches Some(t) ==> image_table(img@) == Some(t@),
{
    match parse_export_directory(img) {
        Some(dir) => {
            let candidates = export_candidates(img, &dir);
            Some(build_table(img, candidates.as_slice()))
        },
        None => None,
    }
}

/// Whether `j` is the first index of `table` whose fingerprint is `fp`.
pub open spec fn first_index(table: Seq<(u64, usize)>, fp: u64, j: int) -> bool {
    &&& 0 <= j < table.len()
    &&& table[j].0 == fp
    &&& forall|k: int| 0 <= k < j ==> table[k].0 != fp
}

/// The identifier of the first entry with fingerprint `fp`.
pub open spec fn lookup(table: Seq<(u64, usize)>, fp: u64) -> Option<usize> {
    if exists|j: int| first_index(table, fp, j) {
        Some(table[choose|j: int| first_index(table, fp, j)].1)
    } else {
        None
    }
}

/// Finds the identifier of the first entry whose fingerprint is `fp`; `None`
/// where no entry has it.
pub fn resolve_fingerprint(table: &[(u64, usize)], fp: u64) -> (r: Option<usize>)
    ensures
        r == lookup(table@, fp),
        r is None <==> forall|j: int| 0 <= j < table@.len() ==> table@[j].0 != fp,
        r matches Some(id) ==> exists|j: int| first_index(table@, fp, j) && table@[j].1 == id,
{
    let mut i: usize = 0;
    while i < table.len()
        invariant
            i <= table@.len(),
            forall|k: int| 0 <= k < i ==> table@[k].0 != fp,
        decreases table@.len() - i,
    {
        if table[i].0 == fp {
            proof {
                assert(first_index(table@, fp, i as int));
                lemma_first_index_unique(table@, fp, i as int);
            }
            return Some(table[i].1);
        }
        i += 1;
    }
    None
}

/// Finds the identifier recorded for the routine `name`; `None` where no
/// entry carries its fingerprint.
pub fn resolve(table: &[(u64, usize)], name: &str) -> (r: Option<usize>)
    ensures
        r == lookup(table@, fnv1a_spec(name.spec_bytes())),
        r is None <==> forall|j: int|
            0 <= j < table@.len() ==> table@[j].0 != fnv1a_spec(name.spec_bytes()),
{
    resolve_fingerprint(table, fnv1a_64(name))
}

/// At most one index is the first with a given fingerprint, and the lookup
/// returns its identifier.
pub proof fn lemma_first_index_unique(table: Seq<(u64, usize)>, fp: u64, j: int)
    requires
        first_index(table, fp, j),
    ensures
        forall|k: int| first_index(table, fp, k) ==> k == j,
        lookup(table, fp) == Some(table[j].1),
{
    assert forall|k: int| first_index(table, fp, k) implies k == j by {
        if k < j {
            assert(table[k].0 != fp);
        } else if j < k {
            assert(table[j].0 != fp);
        }
    }
}

} // verus!
