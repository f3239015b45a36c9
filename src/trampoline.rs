//! Recognising a kernel-transition trampoline and the service identifier it loads.
use vstd::prelude::*;
use crate::image::u32_at;

verus! {

/// Bytes a trampoline spans: the prologue up to the end of the transition instruction.
pub const TRAMPOLINE_LEN: usize = 0x14;

/// Offset of the transition instruction inside a trampoline.
pub const TRANSITION_OFFSET: usize = 0x12;

/// Offset of the little-endian service identifier inside a trampoline.
pub const IDENTIFIER_OFFSET: usize = 4;

/// Whether `code` starts with the trampoline shape: the prologue `4C 8B D1 B8`
/// at offset 0 and the transition instruction `0F 05` at offset 0x12.
pub open spec fn trampoline_shape(code: Seq<u8>) -> bool {
    &&& code.len() >= 0x14
    &&& code[0] == 0x4C
    &&& code[1] == 0x8B
    &&& code[2] == 0xD1
    &&& code[3] == 0xB8
    &&& code[0x12] == 0x0F
    &&& code[0x13] == 0x05
}

/// The service identifier that a trampoline loads, if `code` is one.
pub open spec fn trampoline_id(code: Seq<u8>) -> Option<u32> {
    if trampoline_shape(code) {
        Some(u32_at(code, 4) as u32)
    } else {
        None
    }
}

/// Whether `k` is one of the offsets the recognizer checks: the four
/// prologue bytes and the two bytes of the transition instruction.
pub open spec fn checked_offset(k: int) -> bool {
    0 <= k < 4 || k == 0x12 || k == 0x13
}

/// Changing any one checked byte of a trampoline gives code that is not one.
pub proof fn lemma_single_byte_deviation_rejected(code: Seq<u8>, k: int, b: u8)
    requires
        trampoline_shape(code),
        checked_offset(k),
        b != code[k],
    ensures
        !trampoline_shape(code.update(k, b)),
{
    assert(code.update(k, b)[k] == b);
}

/// Whether `code` starts with a kernel-transition trampoline.
pub fn is_trampoline(code: &[u8]) -> (r: bool)
    ensures
        r == trampoline_shape(code@),
{
    if code.len() < TRAMPOLINE_LEN {
        return false;
    }
    code[0] == 0x4C && code[1] == 0x8B && code[2] == 0xD1 && code[3] == 0xB8
        && code[TRANSITION_OFFSET] == 0x0F && code[TRANSITION_OFFSET + 1] == 0x05
}

/// The service identifier loaded by the trampoline at the start of `code`, or
/// `None` where `code` is not a trampoline.
pub fn service_identifier(code: &[u8]) -> (r: Option<u32>)
    ensures
        r == trampoline_id(code@),
{
    if !is_trampoline(code) {
        return None;
    }
    let i = IDENTIFIER_OFFSET;
    Some(
        code[i] as u32 + code[i + 1] as u32 * 0x100 + code[i + 2] as u32 * 0x10000
            + code[i + 3] as u32 * 0x1000000,
    )
}

} // verus!
