//! Enumerating the named exports of an image.
use vstd::prelude::*;
use crate::image::{
    c_str_at, has_c_str, in_image, read_c_str, read_u16_le, read_u32_le, u16_at, u32_at,
    EXPORT_DIRECTORY_FIELD, EXPORT_DIRECTORY_SIZE, NEW_HEADER_OFFSET_FIELD,
};

verus! {

/// The fields of an export directory that enumeration reads. The three
/// tables are given by their offsets in the image.
#[derive(Clone, Copy, Debug, PartialEq, Eq)]
pub struct ExportDirectory {
    /// Entries in the function-address table.
    pub function_count: u32,
    /// Entries in the name-pointer and ordinal tables.
    pub name_count: u32,
    /// Offset of the function-address table (`u32` entries).
    pub functions: u32,
    /// Offset of the name-pointer table (`u32` entries).
    pub names: u32,
    /// Offset of the ordinal table (`u16` entries).
    pub ordinals: u32,
}

/// A named export: its name, without terminator, and the offset of its code.
#[derive(Clone, Debug)]
pub struct Candidate {
    pub name: Vec<u8>,
    pub address: usize,
}

impl View for Candidate {
    type V = (Seq<u8>, usize);

    open spec fn view(&self) -> (Seq<u8>, usize) {
        (self.name@, self.address)
    }
}

/// The views of a sequence of candidates.
pub open spec fn candidates_view(cs: Seq<Candidate>) -> Seq<(Seq<u8>, usize)> {
    cs.map_values(|c: Candidate| c@)
}

/// Offset of the export directory: read through the new header.
pub open spec fn export_directory_offset(img: Seq<u8>) -> int {
    u32_at(img, u32_at(img, NEW_HEADER_OFFSET_FIELD as int) + EXPORT_DIRECTORY_FIELD)
}

/// The export directory of an image, or `None` where a header or the
/// directory itself lies outside the image.
pub open spec fn export_directory_of(img: Seq<u8>) -> Option<ExportDirectory> {
    let nt = u32_at(img, NEW_HEADER_OFFSET_FIELD as int);
    let d = export_directory_offset(img);
    if in_image(img, NEW_HEADER_OFFSET_FIELD as int, 4) && in_image(
        img,
        nt + EXPORT_DIRECTORY_FIELD,
        4,
    ) && in_image(img, d, EXPORT_DIRECTORY_SIZE as int) {
        Some(
            ExportDirectory {
                function_count: u32_at(img, d + 0x14) as u32,
                name_count: u32_at(img, d + 0x18) as u32,
                functions: u32_at(img, d + 0x1C) as u32,
                names: u32_at(img, d + 0x20) as u32,
                ordinals: u32_at(img, d + 0x24) as u32,
            },
        )
    } else {
        None
    }
}

/// Reads the `u32` at `base + delta`, or `None` where it lies outside the image.
fn read_u32_offset(img: &[u8], base: usize, delta: usize) -> (r: Option<u32>)
    ensures
        r == (if in_image(img@, base + delta, 4) {
            Some(u32_at(img@, base + delta) as u32)
        } else {
            None
        }),
{
    if base > img.len() || delta > img.len() - base {
        return None;
    }
    read_u32_le(img, base + delta)
}

/// Reads the export directory of an image.
pub fn parse_export_directory(img: &[u8]) -> (r: Option<ExportDirectory>)
    ensures
        r == export_directory_of(img@),
{
    let nt = match read_u32_le(img, NEW_HEADER_OFFSET_FIELD) {
        Some(v) => v,
        None => return None,
    };
    let d = match read_u32_offset(img, nt as usize, EXPORT_DIRECTORY_FIELD) {
        Some(v) => v as usize,
        None => return None,
    };
    if d > img.len() || img.len() - d < EXPORT_DIRECTORY_SIZE {
        return None;
    }
    let function_count = read_u32_offset(img, d, 0x14).unwrap();
    let name_count = read_u32_offset(img, d, 0x18).unwrap();
    let functions = read_u32_offset(img, d, 0x1C).unwrap();
    let names = read_u32_offset(img, d, 0x20).unwrap();
    let ordinals = read_u32_offset(img, d, 0x24).unwrap();
    Some(ExportDirectory { function_count, name_count, functions, names, ordinals })
}

/// The `i`-th named export: its name, through the name-pointer table, and its
/// code offset, through the ordinal and function-address tables. `None` where
/// the ordinal is at least the function count (an unmapped entry), or where a
/// read falls outside the image.
pub open spec fn candidate_at(img: Seq<u8>, dir: ExportDirectory, i: int) -> Option<
    (Seq<u8>, usize),
> {
    let name_slot = dir.names + 4 * i;
    let ordinal_slot = dir.ordinals + 2 * i;
    let name_rva = u32_at(img, name_slot);
    let ordinal = u16_at(img, ordinal_slot);
    let function_slot = dir.functions + 4 * ordinal;
    if in_image(img, name_slot, 4) && has_c_str(img, name_rva) && in_image(img, ordinal_slot, 2)
        && ordinal < dir.function_count && in_image(img, function_slot, 4) {
        Some((c_str_at(img, name_rva), u32_at(img, function_slot) as usize))
    } else {
        None
    }
}

/// The candidates of the first `n` name entries, in index order.
pub open spec fn candidates_upto(img: Seq<u8>, dir: ExportDirectory, n: int) -> Seq<
    (Seq<u8>, usize),
>
    decreases n,
{
    if n <= 0 {
        seq![]
    } else {
        candidates_upto(img, dir, n - 1) + match candidate_at(img, dir, n - 1) {
            Some(c) => seq![c],
            None => seq![],
        }
    }
}

/// The candidates of every name entry of the directory, in index order.
pub open spec fn candidates_of(img: Seq<u8>, dir: ExportDirectory) -> Seq<(Seq<u8>, usize)> {
    candidates_upto(img, dir, dir.name_count as int)
}

/// Reads the `i`-th named export of the directory.
pub fn export_candidate(img: &[u8], dir: &ExportDirectory, i: u32) -> (r: Option<Candidate>)
    ensures
        r matches Some(c) ==> candidate_at(img@, *dir, i as int) == Some(c@),
        r is None ==> candidate_at(img@, *dir, i as int) is None,
{
    // An offset that overflows `usize` lies past the end of any image.
    let _len = img.len();
    let name_delta = match (i as usize).checked_mul(4) {
        Some(v) => v,
        None => return None,
    };
    let name_rva = match read_u32_offset(img, dir.names as usize, name_delta) {
        Some(v) => v,
        None => return None,
    };
    let name = match read_c_str(img, name_rva as usize) {
        Some(v) => v,
        None => return None,
    };
    let ordinal_delta = match (i as usize).checked_mul(2) {
        Some(v) => v,
        None => return None,
    };
    let ordinal = match (dir.ordinals as usize).checked_add(ordinal_delta) {
        Some(off) => match read_u16_le(img, off) {
            Some(v) => v,
            None => return None,
        },
        None => return None,
    };
    if ordinal as u32 >= dir.function_count {
        return None;
    }
    let address = match read_u32_offset(img, dir.functions as usize, ordinal as usize * 4) {
        Some(v) => v,
        None => return None,
    };
    Some(Candidate { name, address: address as usize })
}

/// Enumerates the named exports of the directory, in index order, skipping
/// the entries that `candidate_at` leaves out.
pub fn export_candidates(img: &[u8], dir: &ExportDirectory) -> (r: Vec<Candidate>)
    ensures
        candidates_view(r@) == candidates_of(img@, *dir),
{
    let mut out: Vec<Candidate> = Vec::new();
    let mut i: u32 = 0;
    while i < dir.name_count
        invariant
            i <= dir.name_count,
            candidates_view(out@) == candidates_upto(img@, *dir, i as int),
        decreases dir.name_count - i,
    {
        let ghost before = out@;
        match export_candidate(img, dir, i) {
            Some(c) => {
                out.push(c);
                assert(candidates_view(out@) =~= candidates_view(before) + seq![c@]);
            },
            None => {
            },
        }
        i += 1;
    }
    out
}

} // verus!
