//! Reading an export directory out of the bytes of a loaded image.
//!
//! Offsets handed around here are relative to the start of the image, so a
//! relative virtual address of the image is an index into its bytes.
use vstd::prelude::*;

verus! {

/// Offset of the "new header" offset inside the image header.
pub const NEW_HEADER_OFFSET_FIELD: usize = 0x3C;

/// Offset, inside the new header, of the export directory's relative address.
pub const EXPORT_DIRECTORY_FIELD: usize = 0x88;

/// Size of an export directory record.
pub const EXPORT_DIRECTORY_SIZE: usize = 0x28;

/// The little-endian 16-bit value of two bytes at `off`.
pub open spec fn u16_at(img: Seq<u8>, off: int) -> int {
    img[off] as int + img[off + 1] as int * 0x100
}

/// The little-endian 32-bit value of four bytes at `off`.
pub open spec fn u32_at(img: Seq<u8>, off: int) -> int {
    img[off] as int + img[off + 1] as int * 0x100 + img[off + 2] as int * 0x10000
        + img[off + 3] as int * 0x1000000
}

/// Whether `len` bytes starting at `off` lie inside the image.
pub open spec fn in_image(img: Seq<u8>, off: int, len: int) -> bool {
    0 <= off && off + len <= img.len()
}

/// Reads a little-endian `u16` at `off`, or `None` where it runs past the end.
pub fn read_u16_le(img: &[u8], off: usize) -> (r: Option<u16>)
    ensures
        r == (if in_image(img@, off as int, 2) {
            Some(u16_at(img@, off as int) as u16)
        } else {
            None
        }),
{
    if off > img.len() || img.len() - off < 2 {
        return None;
    }
    Some(img[off] as u16 + img[off + 1] as u16 * 0x100)
}

/// Reads a little-endian `u32` at `off`, or `None` where it runs past the end.
pub fn read_u32_le(img: &[u8], off: usize) -> (r: Option<u32>)
    ensures
        r == (if in_image(img@, off as int, 4) {
            Some(u32_at(img@, off as int) as u32)
        } else {
            None
        }),
{
    if off > img.len() || img.len() - off < 4 {
        return None;
    }
    Some(
        img[off] as u32 + img[off + 1] as u32 * 0x100 + img[off + 2] as u32 * 0x10000
            + img[off + 3] as u32 * 0x1000000,
    )
}

/// Whether `len` is the length of a NUL-terminated string at `off`: the byte at
/// `off + len` is the first zero byte from `off` on.
pub open spec fn c_str_len(img: Seq<u8>, off: int, len: int) -> bool {
    &&& 0 <= off
    &&& 0 <= len
    &&& off + len < img.len()
    &&& img[off + len] == 0
    &&& forall|k: int| off <= k < off + len ==> img[k] != 0
}

/// Whether a NUL-terminated string starts at `off`.
pub open spec fn has_c_str(img: Seq<u8>, off: int) -> bool {
    exists|len: int| c_str_len(img, off, len)
}

/// The NUL-terminated string at `off`, without its terminator.
pub open spec fn c_str_at(img: Seq<u8>, off: int) -> Seq<u8> {
    img.subrange(off, off + choose|len: int| c_str_len(img, off, len))
}

/// A NUL-terminated string has one length only.
pub proof fn lemma_c_str_len_unique(img: Seq<u8>, off: int, a: int, b: int)
    requires
        c_str_len(img, off, a),
        c_str_len(img, off, b),
    ensures
        a == b,
{
    if a < b {
        assert(img[off + a] == 0);
    } else if b < a {
        assert(img[off + b] == 0);
    }
}

/// Reads the NUL-terminated string at `off`, without its terminator; `None`
/// where no zero byte follows `off` inside the image.
pub fn read_c_str(img: &[u8], off: usize) -> (r: Option<Vec<u8>>)
    ensures
        r.is_some() == has_c_str(img@, off as int),
        r matches Some(s) ==> s@ == c_str_at(img@, off as int),
{
    let mut out: Vec<u8> = Vec::new();
    let mut i: usize = off;
    while i < img.len()
        invariant
            off <= i,
            i <= img@.len() || i == off,
            out@ == img@.subrange(off as int, i as int) || (i == off && out@.len() == 0),
            forall|k: int| off <= k < i ==> img@[k] != 0,
        decreases img@.len() - i,
    {
        if img[i] == 0 {
            proof {
                let len = (i - off) as int;
                assert(c_str_len(img@, off as int, len));
                let c = choose|l: int| c_str_len(img@, off as int, l);
                lemma_c_str_len_unique(img@, off as int, len, c);
            }
            return Some(out);
        }
        out.push(img[i]);
        i += 1;
        assert(out@ =~= img@.subrange(off as int, i as int));
    }
    assert forall|len: int| !c_str_len(img@, off as int, len) by {
        if c_str_len(img@, off as int, len) {
            assert(img@[off + len] == 0);
        }
    }
    None
}

} // verus!
