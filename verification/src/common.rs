//! Tiny status-register helpers shared by the cores.
use vstd::prelude::*;

use crate::alu::{flag_byte, spec_apply_flags, zn_flags};
use crate::psr;

verus! {

/// The status byte `p` with N and Z replaced by those of an 8-bit result.
pub open spec fn spec_set_zn8(p: u8, value: u8) -> u8 {
    (p & !(psr::N | psr::Z)) | (value & psr::N) | (if value == 0 {
        psr::Z
    } else {
        0u8
    })
}

/// The status byte `p` with N and Z replaced by those of a 16-bit result.
pub open spec fn spec_set_zn16(p: u8, value: u16) -> u8 {
    (p & !(psr::N | psr::Z)) | (if value >= 0x8000 {
        psr::N
    } else {
        0u8
    }) | (if value == 0 {
        psr::Z
    } else {
        0u8
    })
}

/// Update Z and N based on an 8-bit result.
pub fn set_zn8(p: &mut u8, value: u8)
    ensures
        *final(p) == spec_set_zn8(*old(p), value),
{
    // Clear N and Z, then set from value.
    let z: u8 = if value == 0 {
        psr::Z
    } else {
        0
    };
    *p = (*p & !(psr::N | psr::Z)) | (value & psr::N) | z;
}

/// Update Z and N based on a 16-bit result (for 65C816 when M/X=0).
pub fn set_zn16(p: &mut u8, value: u16)
    ensures
        *final(p) == spec_set_zn16(*old(p), value),
{
    let n: u8 = if (value & 0x8000) != 0 {
        psr::N
    } else {
        0
    };
    let z: u8 = if value == 0 {
        psr::Z
    } else {
        0
    };
    assert((value & 0x8000 != 0) == (value >= 0x8000)) by (bit_vector);
    *p = (*p & !(psr::N | psr::Z)) | n | z;
}

/// Compute branch penalty (+1 if taken, +1 if page crossed). Shared default.
pub fn default_branch_penalty(taken: bool, page_cross: bool) -> (r: u8)
    ensures
        r == (if taken {
            1int
        } else {
            0
        }) + (if page_cross {
            1int
        } else {
            0
        }),
{
    let t: u8 = if taken {
        1
    } else {
        0
    };
    let c: u8 = if page_cross {
        1
    } else {
        0
    };
    t + c
}

/// Setting Z and N from an 8-bit result is the same as applying the ALU's Z/N result to the
/// status byte.
pub proof fn lemma_set_zn8_is_zn(p: u8, value: u8)
    ensures
        spec_set_zn8(p, value) == spec_apply_flags(p, zn_flags(0xff, value as u32), psr::N | psr::Z),
{
    let n = value >= 0x80;
    let z = value == 0;
    let nn: u8 = if n { 0x80 } else { 0 };
    let zz: u8 = if z { 2 } else { 0 };
    assert(flag_byte(n, false, z, false) == nn + zz);
    assert(value & 0x80 == if value >= 0x80 { 0x80u8 } else { 0u8 }) by (bit_vector);
    assert((nn == 0 || nn == 0x80) && (zz == 0 || zz == 2) ==> (p & !(0x80u8 | 2u8)) | nn | zz == (p
        & !(0x80u8 | 2u8)) | ((nn + zz) as u8 & (0x80u8 | 2u8))) by (bit_vector);
}

/// Setting Z and N from a 16-bit result is the same as applying the ALU's Z/N result for
/// 16-bit operands to the status byte.
pub proof fn lemma_set_zn16_is_zn(p: u8, value: u16)
    ensures
        spec_set_zn16(p, value) == spec_apply_flags(
            p,
            zn_flags(0xffff, value as u32),
            psr::N | psr::Z,
        ),
{
    let n = value >= 0x8000;
    let z = value == 0;
    let nn: u8 = if n { 0x80 } else { 0 };
    let zz: u8 = if z { 2 } else { 0 };
    assert(flag_byte(n, false, z, false) == nn + zz);
    assert((nn == 0 || nn == 0x80) && (zz == 0 || zz == 2) ==> (p & !(0x80u8 | 2u8)) | nn | zz == (p
        & !(0x80u8 | 2u8)) | ((nn + zz) as u8 & (0x80u8 | 2u8))) by (bit_vector);
}

} // verus!
