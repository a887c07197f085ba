//! What the instructions of the 8-bit cores do to the registers once their operand is known:
//! the work finished after the last cycle, the modify step of read-modify-write instructions,
//! the value a store puts on the bus, and the branch conditions.
use vstd::prelude::*;

use crate::alu::{
    adc, asl, carry_in, lsr, rol, ror, sbc, set_flag, shift_flags, spec_adc_flags, spec_adc_value,
    spec_apply_flags, spec_sbc_flags, spec_sbc_value, DecimalSemantics,
};
use crate::common::{set_zn8, spec_set_zn8};
use crate::isa::op::MicroExecutor;
use crate::isa::table::Mnemonic;
use crate::isa::MemoryAction;
use crate::psr;

verus! {

/// The programmer-visible registers of an 8-bit core.
#[derive(Clone, Copy, Debug, PartialEq, Eq, Structural)]
pub struct Registers {
    pub a: u8,
    pub x: u8,
    pub y: u8,
    /// Stack pointer (page one).
    pub s: u8,
    /// Processor status.
    pub p: u8,
    pub pc: u16,
}

/// `p` with the bits of `mask` set (`on`) or cleared.
pub open spec fn with_flag(p: u8, mask: u8, on: bool) -> u8 {
    if on {
        p | mask
    } else {
        p & !mask
    }
}

/// ASL: the value and the status.
pub open spec fn asl_op(v: u8, p: u8) -> (u8, u8) {
    let r = ((v * 2) % 256) as u8;
    (r, spec_apply_flags(p, shift_flags(0xff, r as u32, v >= 0x80), psr::N | psr::Z | psr::C))
}

/// LSR: the value and the status.
pub open spec fn lsr_op(v: u8, p: u8) -> (u8, u8) {
    let r = v / 2;
    (r, spec_apply_flags(p, shift_flags(0xff, r as u32, v % 2 == 1), psr::N | psr::Z | psr::C))
}

/// ROL through carry: the value and the status.
pub open spec fn rol_op(v: u8, p: u8) -> (u8, u8) {
    let r = ((v * 2 + carry_in(p)) % 256) as u8;
    (r, spec_apply_flags(p, shift_flags(0xff, r as u32, v >= 0x80), psr::N | psr::Z | psr::C))
}

/// ROR through carry: the value and the status.
pub open spec fn ror_op(v: u8, p: u8) -> (u8, u8) {
    let r = (v / 2 + 0x80 * carry_in(p)) as u8;
    (r, spec_apply_flags(p, shift_flags(0xff, r as u32, v % 2 == 1), psr::N | psr::Z | psr::C))
}

/// ADC on the accumulator: the value and the status.
pub open spec fn adc_op(a: u8, v: u8, p: u8, sem: DecimalSemantics) -> (u8, u8) {
    (
        spec_adc_value(0xff, a as u32, v as u32, p, sem) as u8,
        spec_apply_flags(
            p,
            spec_adc_flags(0xff, a as u32, v as u32, p, sem),
            psr::N | psr::Z | psr::C | psr::V,
        ),
    )
}

/// SBC on the accumulator: the value and the status.
pub open spec fn sbc_op(a: u8, v: u8, p: u8, sem: DecimalSemantics) -> (u8, u8) {
    (
        spec_sbc_value(0xff, a as u32, v as u32, p, sem) as u8,
        spec_apply_flags(
            p,
            spec_sbc_flags(0xff, a as u32, v as u32, p, sem),
            psr::N | psr::Z | psr::C | psr::V,
        ),
    )
}

/// `r - v` modulo 256.
pub open spec fn sub8(r: u8, v: u8) -> u8 {
    ((r + 256 - v) % 256) as u8
}

/// The status after comparing register value `r` with `v`: N and Z of `r - v`, carry when
/// `r >= v`.
pub open spec fn compare_op(r: u8, v: u8, p: u8) -> u8 {
    with_flag(spec_set_zn8(p, sub8(r, v)), psr::C, r >= v)
}

/// The undocumented ARR: AND, then ROR with odd flags; NMOS parts in decimal mode also
/// correct each digit.
pub open spec fn arr_op(r: Registers, v: u8, sem: DecimalSemantics) -> Registers {
    let anded = r.a & v;
    let rot = ror_op(anded, r.p);
    if !(r.p & psr::D != 0 && sem == DecimalSemantics::Nmos6502) {
        let res = rot.0;
        Registers {
            a: res,
            p: with_flag(
                with_flag(rot.1, psr::C, res & 0x40 != 0),
                psr::V,
                ((res >> 6u8) ^ (res >> 5u8)) & 1 != 0,
            ),
            ..r
        }
    } else {
        let ah = anded >> 4u8;
        let al = anded & 0x0F;
        let p1 = with_flag(
            with_flag(rot.1, psr::N, r.p & psr::C != 0),
            psr::V,
            ((anded ^ rot.0) & 0x40) != 0,
        );
        let a1 = if al + (al & 1) > 5 {
            (rot.0 & 0xF0) | ((((rot.0 + 6) % 256) as u8) & 0x0F)
        } else {
            rot.0
        };
        let high = ah + (ah & 1) > 5;
        let a2 = if high {
            ((a1 + 0x60) % 256) as u8
        } else {
            a1
        };
        Registers { a: a2, p: with_flag(p1, psr::C, high), ..r }
    }
}

/// The registers after a reading instruction consumes its operand `v`, and the I flag to use
/// for the next interrupt check when the instruction changed it (PLP).
#[verifier::opaque]
pub open spec fn spec_finish_read(r: Registers, op: Mnemonic, v: u8, sem: DecimalSemantics) -> (
    Registers,
    Option<bool>,
) {
    match op {
        Mnemonic::Lda | Mnemonic::Pla => (Registers { a: v, p: spec_set_zn8(r.p, v), ..r }, None),
        Mnemonic::Ldx | Mnemonic::Plx => (Registers { x: v, p: spec_set_zn8(r.p, v), ..r }, None),
        Mnemonic::Ldy | Mnemonic::Ply => (Registers { y: v, p: spec_set_zn8(r.p, v), ..r }, None),
        Mnemonic::And => (Registers { a: r.a & v, p: spec_set_zn8(r.p, r.a & v), ..r }, None),
        Mnemonic::Eor => (Registers { a: r.a ^ v, p: spec_set_zn8(r.p, r.a ^ v), ..r }, None),
        Mnemonic::Ora => (Registers { a: r.a | v, p: spec_set_zn8(r.p, r.a | v), ..r }, None),
        Mnemonic::Adc => {
            let o = adc_op(r.a, v, r.p, sem);
            (Registers { a: o.0, p: o.1, ..r }, None)
        },
        Mnemonic::Sbc | Mnemonic::Usbc => {
            let o = sbc_op(r.a, v, r.p, sem);
            (Registers { a: o.0, p: o.1, ..r }, None)
        },
        Mnemonic::Cmp => (Registers { p: compare_op(r.a, v, r.p), ..r }, None),
        Mnemonic::Cpx => (Registers { p: compare_op(r.x, v, r.p), ..r }, None),
        Mnemonic::Cpy => (Registers { p: compare_op(r.y, v, r.p), ..r }, None),
        Mnemonic::Plp => (
            Registers { p: (v | psr::U_6502) & !psr::B_6502, ..r },
            Some(r.p & psr::I != 0),
        ),
        Mnemonic::Bit => (
            Registers {
                p: (r.p & !(psr::Z | psr::N | psr::V)) | (if r.a & v == 0 {
                    psr::Z
                } else {
                    0u8
                }) | (v & 0xC0),
                ..r
            },
            None,
        ),
        Mnemonic::Anc => (
            Registers {
                a: r.a & v,
                p: with_flag(spec_set_zn8(r.p, r.a & v), psr::C, (r.a & v) & 0x80 != 0),
                ..r
            },
            None,
        ),
        Mnemonic::Alr => {
            let o = lsr_op(r.a & v, spec_set_zn8(r.p, r.a & v));
            (Registers { a: o.0, p: o.1, ..r }, None)
        },
        Mnemonic::Arr => (arr_op(r, v, sem), None),
        Mnemonic::Ane => {
            let t = (r.a | 0xEE) & r.x & v;
            (Registers { a: t, p: spec_set_zn8(r.p, t), ..r }, None)
        },
        Mnemonic::Lxa => {
            let t = (r.a | 0xEE) & v;
            (Registers { a: t, x: t, p: spec_set_zn8(r.p, t), ..r }, None)
        },
        Mnemonic::Lax => (Registers { a: v, x: v, p: spec_set_zn8(r.p, v), ..r }, None),
        Mnemonic::Las => {
            let t = v & r.s;
            (Registers { a: t, x: t, s: t, p: spec_set_zn8(r.p, t), ..r }, None)
        },
        Mnemonic::Sbx => {
            let t = r.a & r.x;
            (
                Registers {
                    x: sub8(t, v),
                    p: with_flag(spec_set_zn8(r.p, sub8(t, v)), psr::C, t >= v),
                    ..r
                },
                None,
            )
        },
        Mnemonic::Brk => if sem == DecimalSemantics::Cmos65C02 {
            // on CMOS chips, interrupts clear the decimal flag!
            (Registers { p: r.p & !psr::D, ..r }, None)
        } else {
            (r, None)
        },
        _ => (r, None),
    }
}

/// The registers after an implied or accumulator instruction, and the I flag to use for the
/// next interrupt check when the instruction changed it (CLI, SEI).
#[verifier::opaque]
pub open spec fn spec_finish_implied(r: Registers, op: Mnemonic) -> (Registers, Option<bool>) {
    match op {
        Mnemonic::Asl => {
            let o = asl_op(r.a, r.p);
            (Registers { a: o.0, p: o.1, ..r }, None)
        },
        Mnemonic::Lsr => {
            let o = lsr_op(r.a, r.p);
            (Registers { a: o.0, p: o.1, ..r }, None)
        },
        Mnemonic::Rol => {
            let o = rol_op(r.a, r.p);
            (Registers { a: o.0, p: o.1, ..r }, None)
        },
        Mnemonic::Ror => {
            let o = ror_op(r.a, r.p);
            (Registers { a: o.0, p: o.1, ..r }, None)
        },
        Mnemonic::Clc => (Registers { p: r.p & !psr::C, ..r }, None),
        Mnemonic::Cld => (Registers { p: r.p & !psr::D, ..r }, None),
        Mnemonic::Cli => (Registers { p: r.p & !psr::I, ..r }, Some(r.p & psr::I != 0)),
        Mnemonic::Sei => (Registers { p: r.p | psr::I, ..r }, Some(r.p & psr::I != 0)),
        Mnemonic::Clv => (Registers { p: r.p & !psr::V, ..r }, None),
        Mnemonic::Sec => (Registers { p: r.p | psr::C, ..r }, None),
        Mnemonic::Sed => (Registers { p: r.p | psr::D, ..r }, None),
        Mnemonic::Dec => (
            Registers { a: sub8(r.a, 1), p: spec_set_zn8(r.p, sub8(r.a, 1)), ..r },
            None,
        ),
        Mnemonic::Dex => (
            Registers { x: sub8(r.x, 1), p: spec_set_zn8(r.p, sub8(r.x, 1)), ..r },
            None,
        ),
        Mnemonic::Dey => (
            Registers { y: sub8(r.y, 1), p: spec_set_zn8(r.p, sub8(r.y, 1)), ..r },
            None,
        ),
        Mnemonic::Inc => {
            let t = ((r.a + 1) % 256) as u8;
            (Registers { a: t, p: spec_set_zn8(r.p, t), ..r }, None)
        },
        Mnemonic::Inx => {
            let t = ((r.x + 1) % 256) as u8;
            (Registers { x: t, p: spec_set_zn8(r.p, t), ..r }, None)
        },
        Mnemonic::Iny => {
            let t = ((r.y + 1) % 256) as u8;
            (Registers { y: t, p: spec_set_zn8(r.p, t), ..r }, None)
        },
        Mnemonic::Tax => (Registers { x: r.a, p: spec_set_zn8(r.p, r.a), ..r }, None),
        Mnemonic::Tay => (Registers { y: r.a, p: spec_set_zn8(r.p, r.a), ..r }, None),
        Mnemonic::Tsx => (Registers { x: r.s, p: spec_set_zn8(r.p, r.s), ..r }, None),
        Mnemonic::Txa => (Registers { a: r.x, p: spec_set_zn8(r.p, r.x), ..r }, None),
        Mnemonic::Tya => (Registers { a: r.y, p: spec_set_zn8(r.p, r.y), ..r }, None),
        // don't set Z/N
        Mnemonic::Txs => (Registers { s: r.x, ..r }, None),
        _ => (r, None),
    }
}

/// The bit an RMBn opcode clears.
pub open spec fn spec_rmb_bit(op: u8) -> Option<u8> {
    if op % 16 == 7 && op / 16 < 8 {
        Some(op / 16)
    } else {
        None
    }
}

/// The bit an SMBn opcode sets.
pub open spec fn spec_smb_bit(op: u8) -> Option<u8> {
    if op % 16 == 7 && op / 16 > 7 {
        Some((op / 16 - 8) as u8)
    } else {
        None
    }
}

/// The bit a BBRn/BBSn opcode tests, and whether it branches when the bit is set.
pub open spec fn spec_branch_bit(op: u8) -> Option<(u8, bool)> {
    if op % 16 == 15 {
        Some((((op / 16) % 8) as u8, op / 16 / 8 > 0))
    } else {
        None
    }
}

/// The registers and latches after the modify step of a read-modify-write instruction on the
/// operand in Op0; the result is left in Op0 to be written back.
#[verifier::opaque]
pub open spec fn spec_modify(
    r: Registers,
    op: Mnemonic,
    opcode: u8,
    s: MicroExecutor,
    sem: DecimalSemantics,
) -> (Registers, MicroExecutor) {
    let v = s.op0;
    match op {
        Mnemonic::Asl => {
            let o = asl_op(v, r.p);
            (Registers { p: o.1, ..r }, MicroExecutor { op0: o.0, ..s })
        },
        Mnemonic::Lsr => {
            let o = lsr_op(v, r.p);
            (Registers { p: o.1, ..r }, MicroExecutor { op0: o.0, ..s })
        },
        Mnemonic::Rol => {
            let o = rol_op(v, r.p);
            (Registers { p: o.1, ..r }, MicroExecutor { op0: o.0, ..s })
        },
        Mnemonic::Ror => {
            let o = ror_op(v, r.p);
            (Registers { p: o.1, ..r }, MicroExecutor { op0: o.0, ..s })
        },
        Mnemonic::Inc => {
            let t = ((v + 1) % 256) as u8;
            (Registers { p: spec_set_zn8(r.p, t), ..r }, MicroExecutor { op0: t, ..s })
        },
        Mnemonic::Dec => (
            Registers { p: spec_set_zn8(r.p, sub8(v, 1)), ..r },
            MicroExecutor { op0: sub8(v, 1), ..s },
        ),
        Mnemonic::Tsb => (
            Registers { p: with_flag(r.p, psr::Z, r.a & v == 0), ..r },
            MicroExecutor { op0: v | r.a, ..s },
        ),
        Mnemonic::Trb => (
            Registers { p: with_flag(r.p, psr::Z, r.a & v == 0), ..r },
            MicroExecutor { op0: v & !r.a, ..s },
        ),
        // NMOS illegal opcodes:
        Mnemonic::Slo => {
            let o = asl_op(v, r.p);
            (
                Registers { a: r.a | o.0, p: spec_set_zn8(o.1, r.a | o.0), ..r },
                MicroExecutor { op0: o.0, ..s },
            )
        },
        Mnemonic::Rla => {
            let o = rol_op(v, r.p);
            (
                Registers { a: r.a & o.0, p: spec_set_zn8(o.1, r.a & o.0), ..r },
                MicroExecutor { op0: o.0, ..s },
            )
        },
        Mnemonic::Sre => {
            let o = lsr_op(v, r.p);
            (
                Registers { a: r.a ^ o.0, p: spec_set_zn8(o.1, r.a ^ o.0), ..r },
                MicroExecutor { op0: o.0, ..s },
            )
        },
        Mnemonic::Rra => {
            let o = ror_op(v, r.p);
            let sum = adc_op(r.a, o.0, o.1, sem);
            (Registers { a: sum.0, p: sum.1, ..r }, MicroExecutor { op0: o.0, ..s })
        },
        Mnemonic::Dcp => {
            let t = sub8(v, 1);
            (Registers { p: compare_op(r.a, t, r.p), ..r }, MicroExecutor { op0: t, ..s })
        },
        Mnemonic::Isc => {
            let t = ((v + 1) % 256) as u8;
            let diff = sbc_op(r.a, t, r.p, sem);
            (Registers { a: diff.0, p: diff.1, ..r }, MicroExecutor { op0: t, ..s })
        },
        _ => match spec_rmb_bit(opcode) {
            Some(bit) => (r, MicroExecutor { op0: v & !(1u8 << bit), ..s }),
            None => match spec_smb_bit(opcode) {
                Some(bit) => (r, MicroExecutor { op0: v | (1u8 << bit), ..s }),
                None => (r, s),
            },
        },
    }
}

/// The SHA/SHX/SHY/TAS store: the value is `a & reg & (H + 1)`, H being the high byte of
/// the unindexed address. When indexing by `offset` crossed a page, that value also replaces
/// the high byte of the address written. Returns the address and the value.
pub open spec fn h_plus_one(ea: u32, a: u8, offset: u8, op_reg: u8) -> (u32, u8) {
    let lo = (ea % 256) as u8;
    let wrapped = lo < offset;
    let hi = (((ea / 256) % 256 + (if wrapped {
        255int
    } else {
        0
    })) % 256) as u8;
    let value = a & op_reg & (((hi + 1) % 256) as u8);
    let store_hi = if wrapped {
        value
    } else {
        hi
    };
    (((store_hi as u32) * 256 + lo as u32) as u32, value)
}

/// The registers and latches once the byte to be written is in the data latch: the
/// read-modify-write result, or the register (or combination) a store writes.
#[verifier::opaque]
pub open spec fn spec_prepare_store(r: Registers, op: Mnemonic, s: MicroExecutor) -> (
    Registers,
    MicroExecutor,
) {
    if s.memory_action == MemoryAction::ReadModifyWrite {
        (r, MicroExecutor { data_latch: s.op0, ..s })
    } else {
        match op {
            Mnemonic::Sta | Mnemonic::Pha => (r, MicroExecutor { data_latch: r.a, ..s }),
            Mnemonic::Stx | Mnemonic::Phx => (r, MicroExecutor { data_latch: r.x, ..s }),
            Mnemonic::Sty | Mnemonic::Phy => (r, MicroExecutor { data_latch: r.y, ..s }),
            Mnemonic::Stz => (r, MicroExecutor { data_latch: 0, ..s }),
            Mnemonic::Php => (r, MicroExecutor { data_latch: r.p | psr::B_6502, ..s }),
            Mnemonic::Sax => (r, MicroExecutor { data_latch: r.a & r.x, ..s }),
            Mnemonic::Sha => {
                let h = h_plus_one(s.ea, r.a, r.y, r.x);
                (r, MicroExecutor { ea: h.0, data_latch: h.1, ..s })
            },
            Mnemonic::Tas => {
                let h = h_plus_one(s.ea, r.a, r.y, r.x);
                (Registers { s: r.a & r.x, ..r }, MicroExecutor { ea: h.0, data_latch: h.1, ..s })
            },
            Mnemonic::Shy => {
                let h = h_plus_one(s.ea, 0xFF, r.x, r.y);
                (r, MicroExecutor { ea: h.0, data_latch: h.1, ..s })
            },
            Mnemonic::Shx => {
                let h = h_plus_one(s.ea, 0xFF, r.y, r.x);
                (r, MicroExecutor { ea: h.0, data_latch: h.1, ..s })
            },
            _ => (r, s),
        }
    }
}

/// Whether a branch instruction branches, given the status and (for BBR/BBS) the tested byte.
pub open spec fn spec_branch_taken(p: u8, op: Mnemonic, opcode: u8, op0: u8) -> bool {
    match op {
        Mnemonic::Bcc => (p & psr::C) == 0,
        Mnemonic::Bcs => (p & psr::C) != 0,
        Mnemonic::Beq => (p & psr::Z) != 0,
        Mnemonic::Bne => (p & psr::Z) == 0,
        Mnemonic::Bmi => (p & psr::N) != 0,
        Mnemonic::Bpl => (p & psr::N) == 0,
        Mnemonic::Bvc => (p & psr::V) == 0,
        Mnemonic::Bvs => (p & psr::V) != 0,
        Mnemonic::Bra => true,
        _ => match spec_branch_bit(opcode) {
            Some((bit, expect_set)) => ((op0 & (1u8 << bit)) != 0) == expect_set,
            None => false,
        },
    }
}

fn zn_into(p: &mut u8, v: u8) -> (r: u8)
    ensures
        r == v,
        *final(p) == spec_set_zn8(*old(p), v),
{
    set_zn8(p, v);
    v
}

fn asl8(v: u8, p: &mut u8) -> (r: u8)
    ensures
        (r, *final(p)) == asl_op(v, *old(p)),
{
    asl(v).apply(p)
}

fn lsr8(v: u8, p: &mut u8) -> (r: u8)
    ensures
        (r, *final(p)) == lsr_op(v, *old(p)),
{
    lsr(v).apply(p)
}

fn rol8(v: u8, p: &mut u8) -> (r: u8)
    ensures
        (r, *final(p)) == rol_op(v, *old(p)),
{
    let c = *p & psr::C != 0;
    rol(v, c).apply(p)
}

fn ror8(v: u8, p: &mut u8) -> (r: u8)
    ensures
        (r, *final(p)) == ror_op(v, *old(p)),
{
    let c = *p & psr::C != 0;
    ror(v, c).apply(p)
}

fn adc8(a: u8, v: u8, p: &mut u8, sem: DecimalSemantics) -> (r: u8)
    ensures
        (r, *final(p)) == adc_op(a, v, *old(p), sem),
{
    adc(a, v, *p, sem).apply(p)
}

fn sbc8(a: u8, v: u8, p: &mut u8, sem: DecimalSemantics) -> (r: u8)
    ensures
        (r, *final(p)) == sbc_op(a, v, *old(p), sem),
{
    sbc(a, v, *p, sem).apply(p)
}

fn compare8(r: u8, v: u8, p: &mut u8)
    ensures
        *final(p) == compare_op(r, v, *old(p)),
{
    let d: u8 = ((r as u16 + 256 - v as u16) % 256) as u8;
    set_zn8(p, d);
    set_flag(p, psr::C, r >= v);
}

fn arr(r: &mut Registers, v: u8, sem: DecimalSemantics)
    ensures
        *final(r) == arr_op(*old(r), v, sem),
{
    // Illegal ARR: (A & operand) then ROR with weird flag/decimal behaviour.
    // For binary mode we use the commonly documented behaviour:
    //   result = ROR(A & M)
    //   N/Z from result
    //   C = bit 6 of result
    //   V = bit 6 XOR bit 5 of result
    // For NMOS decimal mode we mirror the NESdev reference implementation.
    let decimal_mode = (r.p & psr::D) != 0 && sem == DecimalSemantics::Nmos6502;
    let carry = r.p & psr::C != 0;
    let anded = r.a & v;
    if !decimal_mode {
        // Binary (or NES-style no-decimal) behaviour.
        let result = ror8(anded, &mut r.p);
        // alu_ror already set Z/N from result.
        r.a = result;
        set_flag(&mut r.p, psr::C, (result & 0x40) != 0);
        set_flag(&mut r.p, psr::V, ((result >> 6u8) ^ (result >> 5u8)) & 1 != 0);
    } else {
        // NMOS decimal-mode ARR, following NESdev's C reference
        let ah = anded >> 4u8;
        let al = anded & 0x0F;
        // Perform ROR(anded) with carry-in C, using the regular ALU helper.
        // This sets Z and a temporary N from the rotate result and C from bit 0.
        let rotated = ror8(anded, &mut r.p);
        // Now impose ARR's odd flag behaviour:
        //   N = old carry
        //   Z = from result (already set by the rotate)
        //   V = (t ^ A) & 0x40
        set_flag(&mut r.p, psr::N, carry);
        set_flag(&mut r.p, psr::V, ((anded ^ rotated) & 0x40) != 0);
        let mut a = rotated;
        // Decimal fixup for low nibble: if AL + (AL & 1) > 5 then add 6 to low nibble.
        if al as u16 + (al & 1) as u16 > 5 {
            a = (a & 0xF0) | ((((a as u16 + 6) % 256) as u8) & 0x0F);
        }
        // Decimal fixup for high nibble and final carry flag.
        let high_cond = ah as u16 + (ah & 1) as u16 > 5;
        if high_cond {
            a = ((a as u16 + 0x60) % 256) as u8;
        }
        r.a = a;
        set_flag(&mut r.p, psr::C, high_cond);
        // Note: N and Z remain as set immediately after the rotate,
        // matching the real NMOS behavior where BCD adjustment
        // does not update them.
    }
}

/// Apply a reading instruction to its operand `read`.
pub fn finish_read(r: &mut Registers, op: Mnemonic, read: u8, sem: DecimalSemantics) -> (i: Option<
    bool,
>)
    ensures
        (*final(r), i) == spec_finish_read(*old(r), op, read, sem),
{
    proof {
        reveal(spec_finish_read);
    }
    match op {
        Mnemonic::Lda | Mnemonic::Pla => r.a = zn_into(&mut r.p, read),
        Mnemonic::Ldx | Mnemonic::Plx => r.x = zn_into(&mut r.p, read),
        Mnemonic::Ldy | Mnemonic::Ply => r.y = zn_into(&mut r.p, read),
        Mnemonic::And => r.a = zn_into(&mut r.p, r.a & read),
        Mnemonic::Eor => r.a = zn_into(&mut r.p, r.a ^ read),
        Mnemonic::Ora => r.a = zn_into(&mut r.p, r.a | read),
        Mnemonic::Adc => r.a = adc8(r.a, read, &mut r.p, sem),
        Mnemonic::Sbc | Mnemonic::Usbc => r.a = sbc8(r.a, read, &mut r.p, sem),
        Mnemonic::Cmp => compare8(r.a, read, &mut r.p),
        Mnemonic::Cpx => compare8(r.x, read, &mut r.p),
        Mnemonic::Cpy => compare8(r.y, read, &mut r.p),
        Mnemonic::Plp => {
            let old_i = r.p & psr::I != 0;
            r.p = (read | psr::U_6502) & !psr::B_6502;
            return Some(old_i);
        },
        Mnemonic::Bit => {
            let status = r.p & !(psr::Z | psr::N | psr::V);
            let z: u8 = if r.a & read == 0 {
                psr::Z
            } else {
                0
            };
            r.p = status | z | (read & 0xC0);
        },
        Mnemonic::Anc => {
            r.a = zn_into(&mut r.p, r.a & read);
            set_flag(&mut r.p, psr::C, r.a & 0x80 != 0);
        },
        Mnemonic::Alr => {
            r.a = zn_into(&mut r.p, r.a & read);
            r.a = lsr8(r.a, &mut r.p);
        },
        Mnemonic::Arr => arr(r, read, sem),
        Mnemonic::Ane => {
            // so... this opcode sucks.
            // apparently there's a magic constant, quote:
            //     The value of this constant depends on temerature, the chip series,
            //     and maybe other factors, as well.
            // the tests i downloaded, after trial and error, seem to expect 0xEE. so.. yeah.
            let magic: u8 = 0xEE;
            r.a = zn_into(&mut r.p, (r.a | magic) & r.x & read);
        },
        Mnemonic::Lxa => {
            let magic: u8 = 0xEE;
            r.a = zn_into(&mut r.p, (r.a | magic) & read);
            r.x = r.a;
        },
        Mnemonic::Lax => {
            r.a = zn_into(&mut r.p, read);
            r.x = read;
        },
        Mnemonic::Las => {
            let result = zn_into(&mut r.p, read & r.s);
            r.a = result;
            r.x = result;
            r.s = result;
        },
        Mnemonic::Sbx => {
            let result = r.a & r.x;
            r.x = zn_into(&mut r.p, ((result as u16 + 256 - read as u16) % 256) as u8);
            set_flag(&mut r.p, psr::C, result >= read);
        },
        Mnemonic::Brk => {
            if sem == DecimalSemantics::Cmos65C02 {
                // on CMOS chips, interrupts clear the decimal flag!
                set_flag(&mut r.p, psr::D, false);
            }
        },
        _ => {},
    }
    None
}

/// Apply an implied or accumulator instruction.
pub fn finish_implied(r: &mut Registers, op: Mnemonic) -> (i: Option<bool>)
    ensures
        (*final(r), i) == spec_finish_implied(*old(r), op),
{
    proof {
        reveal(spec_finish_implied);
    }
    match op {
        Mnemonic::Asl => r.a = asl8(r.a, &mut r.p),
        Mnemonic::Lsr => r.a = lsr8(r.a, &mut r.p),
        Mnemonic::Rol => r.a = rol8(r.a, &mut r.p),
        Mnemonic::Ror => r.a = ror8(r.a, &mut r.p),
        Mnemonic::Clc => r.p = r.p & !psr::C,
        Mnemonic::Cld => r.p = r.p & !psr::D,
        Mnemonic::Cli => {
            let old_i = r.p & psr::I != 0;
            r.p = r.p & !psr::I;
            return Some(old_i);
        },
        Mnemonic::Sei => {
            let old_i = r.p & psr::I != 0;
            r.p = r.p | psr::I;
            return Some(old_i);
        },
        Mnemonic::Clv => r.p = r.p & !psr::V,
        Mnemonic::Sec => r.p = r.p | psr::C,
        Mnemonic::Sed => r.p = r.p | psr::D,
        Mnemonic::Dec => r.a = zn_into(&mut r.p, ((r.a as u16 + 255) % 256) as u8),
        Mnemonic::Dex => r.x = zn_into(&mut r.p, ((r.x as u16 + 255) % 256) as u8),
        Mnemonic::Dey => r.y = zn_into(&mut r.p, ((r.y as u16 + 255) % 256) as u8),
        Mnemonic::Inc => r.a = zn_into(&mut r.p, ((r.a as u16 + 1) % 256) as u8),
        Mnemonic::Inx => r.x = zn_into(&mut r.p, ((r.x as u16 + 1) % 256) as u8),
        Mnemonic::Iny => r.y = zn_into(&mut r.p, ((r.y as u16 + 1) % 256) as u8),
        Mnemonic::Tax => r.x = zn_into(&mut r.p, r.a),
        Mnemonic::Tay => r.y = zn_into(&mut r.p, r.a),
        Mnemonic::Tsx => r.x = zn_into(&mut r.p, r.s),
        Mnemonic::Txa => r.a = zn_into(&mut r.p, r.x),
        Mnemonic::Tya => r.a = zn_into(&mut r.p, r.y),
        Mnemonic::Txs => r.s = r.x,  // don't set Z/N
        _ => {},
    }
    None
}

/// The bit an RMBn opcode clears.
pub fn bit_index_rmb(op: u8) -> (r: Option<u8>)
    ensures
        r == spec_rmb_bit(op),
{
    let low = op % 16;
    if low == 7 {
        let high = op / 16;
        if high < 8 {
            return Some(high);
        }
    }
    None
}

/// The bit an SMBn opcode sets.
pub fn bit_index_smb(op: u8) -> (r: Option<u8>)
    ensures
        r == spec_smb_bit(op),
{
    let low = op % 16;
    if low == 7 {
        let high = op / 16;
        if high > 7 {
            return Some(high - 8);
        }
    }
    None
}

/// The bit a BBRn/BBSn opcode tests, and whether it branches when the bit is set.
pub fn branch_bit_info(op: u8) -> (r: Option<(u8, bool)>)
    ensures
        r == spec_branch_bit(op),
{
    if op % 16 != 15 {
        return None;
    }
    let high = op / 16;
    Some((high % 8, high / 8 > 0))
}

/// The modify step of a read-modify-write instruction.
pub fn modify(r: &mut Registers, s: &mut MicroExecutor, op: Mnemonic, opcode: u8, sem: DecimalSemantics)
    ensures
        (*final(r), *final(s)) == spec_modify(*old(r), op, opcode, *old(s), sem),
{
    proof {
        reveal(spec_modify);
    }
    match op {
        Mnemonic::Asl => s.op0 = asl8(s.op0, &mut r.p),
        Mnemonic::Lsr => s.op0 = lsr8(s.op0, &mut r.p),
        Mnemonic::Rol => s.op0 = rol8(s.op0, &mut r.p),
        Mnemonic::Ror => s.op0 = ror8(s.op0, &mut r.p),
        Mnemonic::Inc => s.op0 = zn_into(&mut r.p, ((s.op0 as u16 + 1) % 256) as u8),
        Mnemonic::Dec => s.op0 = zn_into(&mut r.p, ((s.op0 as u16 + 255) % 256) as u8),
        Mnemonic::Tsb => {
            set_flag(&mut r.p, psr::Z, r.a & s.op0 == 0);
            s.op0 = s.op0 | r.a;
        },
        Mnemonic::Trb => {
            set_flag(&mut r.p, psr::Z, r.a & s.op0 == 0);
            s.op0 = s.op0 & !r.a;
        },
        // NMOS illegal opcodes:
        Mnemonic::Slo => {
            s.op0 = asl8(s.op0, &mut r.p);  // will be written back
            r.a = zn_into(&mut r.p, r.a | s.op0);
        },
        Mnemonic::Rla => {
            s.op0 = rol8(s.op0, &mut r.p);  // will be written back
            r.a = zn_into(&mut r.p, r.a & s.op0);
        },
        Mnemonic::Sre => {
            s.op0 = lsr8(s.op0, &mut r.p);  // will be written back
            r.a = zn_into(&mut r.p, r.a ^ s.op0);
        },
        Mnemonic::Rra => {
            s.op0 = ror8(s.op0, &mut r.p);
            r.a = adc8(r.a, s.op0, &mut r.p, sem);
        },
        Mnemonic::Dcp => {
            let result = ((s.op0 as u16 + 255) % 256) as u8;
            s.op0 = result;
            compare8(r.a, result, &mut r.p);
        },
        Mnemonic::Isc => {
            s.op0 = ((s.op0 as u16 + 1) % 256) as u8;
            r.a = sbc8(r.a, s.op0, &mut r.p, sem);
        },
        _ => {
            if let Some(bit) = bit_index_rmb(opcode) {
                s.op0 = s.op0 & !(1u8 << bit);
            } else if let Some(bit) = bit_index_smb(opcode) {
                s.op0 = s.op0 | (1u8 << bit);
            }
        },
    }
}

/// SHA/SHX/SHY/TAS: compute the stored value and fix up the address (see [`h_plus_one`]).
pub fn h_plus_one_nonsense(ea: &mut u32, a: u8, offset: u8, op_reg: u8) -> (r: u8)
    ensures
        (*final(ea), r) == h_plus_one(*old(ea), a, offset, op_reg),
{
    // this opcode was the bane of my existence to implement. holy moly.
    let eff_lo = (*ea % 256) as u8;
    let wrapped = eff_lo < offset;  // we need the pre-fixed hi byte. subtract if we previously overflowed
    let eff_hi = (((*ea / 256) % 256 + if wrapped {
        255
    } else {
        0
    }) % 256) as u8;
    // base value: A & X & (H+1)
    let value = a & op_reg & (((eff_hi as u16 + 1) % 256) as u8);
    // so.
    // apparently the address to write to is INSANE here, if we wrapped to get here, the value we're
    // writing becomes the high byte of the address to write to. otherwise, same page high byte. i think.
    let store_hi = if wrapped {
        value
    } else {
        eff_hi
    };
    *ea = (store_hi as u32) * 256 + eff_lo as u32;
    value
}

/// Put the byte to be written in the data latch.
pub fn prepare_store(r: &mut Registers, s: &mut MicroExecutor, op: Mnemonic)
    ensures
        (*final(r), *final(s)) == spec_prepare_store(*old(r), op, *old(s)),
{
    proof {
        reveal(spec_prepare_store);
    }
    if s.memory_action == MemoryAction::ReadModifyWrite {
        // we just need to make sure the value in op0 we saved on the modify phase
        // is in data_latch to be written
        s.data_latch = s.op0;
        return ;
    }
    // otherwise, this is a write instruction, and each has a different value it requires
    match op {
        Mnemonic::Sta | Mnemonic::Pha => s.data_latch = r.a,
        Mnemonic::Stx | Mnemonic::Phx => s.data_latch = r.x,
        Mnemonic::Sty | Mnemonic::Phy => s.data_latch = r.y,
        Mnemonic::Stz => s.data_latch = 0,
        Mnemonic::Php => s.data_latch = r.p | psr::B_6502,
        Mnemonic::Sax => s.data_latch = r.a & r.x,
        Mnemonic::Sha => s.data_latch = h_plus_one_nonsense(&mut s.ea, r.a, r.y, r.x),
        Mnemonic::Tas => {
            r.s = r.a & r.x;
            s.data_latch = h_plus_one_nonsense(&mut s.ea, r.a, r.y, r.x);
        },
        Mnemonic::Shy => s.data_latch = h_plus_one_nonsense(&mut s.ea, 0xFF, r.x, r.y),
        Mnemonic::Shx => s.data_latch = h_plus_one_nonsense(&mut s.ea, 0xFF, r.y, r.x),
        _ => {},
    }
}

/// Whether a branch instruction branches.
pub fn branch_taken(p: u8, op: Mnemonic, opcode: u8, op0: u8) -> (r: bool)
    ensures
        r == spec_branch_taken(p, op, opcode, op0),
{
    match op {
        Mnemonic::Bcc => (p & psr::C) == 0,
        Mnemonic::Bcs => (p & psr::C) != 0,
        Mnemonic::Beq => (p & psr::Z) != 0,
        Mnemonic::Bne => (p & psr::Z) == 0,
        Mnemonic::Bmi => (p & psr::N) != 0,
        Mnemonic::Bpl => (p & psr::N) == 0,
        Mnemonic::Bvc => (p & psr::V) == 0,
        Mnemonic::Bvs => (p & psr::V) != 0,
        Mnemonic::Bra => true,
        _ => {
            if let Some((bit, expect_set)) = branch_bit_info(opcode) {
                let mask = 1u8 << bit;
                let set = (op0 & mask) != 0;
                set == expect_set
            } else {
                false
            }
        },
    }
}

/// TSB and TRB change only the memory operand and Z: Z is set exactly when A and the operand
/// share no bit, and every register and every other flag is kept.
pub proof fn lemma_tsb_trb_only_touch_z(
    r: Registers,
    op: Mnemonic,
    opcode: u8,
    s: MicroExecutor,
    sem: DecimalSemantics,
)
    requires
        op == Mnemonic::Tsb || op == Mnemonic::Trb,
    ensures
        spec_modify(r, op, opcode, s, sem).0 == (Registers {
            p: spec_modify(r, op, opcode, s, sem).0.p,
            ..r
        }),
        spec_modify(r, op, opcode, s, sem).0.p & !psr::Z == r.p & !psr::Z,
        (spec_modify(r, op, opcode, s, sem).0.p & psr::Z != 0) == (r.a & s.op0 == 0),
        op == Mnemonic::Tsb ==> spec_modify(r, op, opcode, s, sem).1.op0 == s.op0 | r.a,
        op == Mnemonic::Trb ==> spec_modify(r, op, opcode, s, sem).1.op0 == s.op0 & !r.a,
{
    reveal(spec_modify);
    let p = r.p;
    assert((p | 2u8) & !2u8 == p & !2u8 && (p & !2u8) & !2u8 == p & !2u8 && (p | 2u8) & 2u8 != 0
        && (p & !2u8) & 2u8 == 0) by (bit_vector);
}

/// BIT changes only P: Z tells whether A and the operand share no bit, N and V copy bits 7
/// and 6 of the operand, and C, I and D are kept.
pub proof fn lemma_bit_flags(r: Registers, v: u8, sem: DecimalSemantics)
    ensures
        spec_finish_read(r, Mnemonic::Bit, v, sem).0 == (Registers {
            p: spec_finish_read(r, Mnemonic::Bit, v, sem).0.p,
            ..r
        }),
        (spec_finish_read(r, Mnemonic::Bit, v, sem).0.p & psr::Z != 0) == (r.a & v == 0),
        spec_finish_read(r, Mnemonic::Bit, v, sem).0.p & 0xC0 == v & 0xC0,
        spec_finish_read(r, Mnemonic::Bit, v, sem).0.p & (psr::C | psr::I | psr::D) == r.p & (psr::C
            | psr::I | psr::D),
{
    reveal(spec_finish_read);
    let p = r.p;
    let z: u8 = if r.a & v == 0 {
        psr::Z
    } else {
        0u8
    };
    assert(z == 0 || z == 2 ==> {
        let q = (p & !(2u8 | 0x80u8 | 0x40u8)) | z | (v & 0xC0);
        &&& (q & 2 != 0) == (z == 2)
        &&& q & 0xC0 == v & 0xC0
        &&& q & (1u8 | 4u8 | 8u8) == p & (1u8 | 4u8 | 8u8)
    }) by (bit_vector);
}

proof fn lemma_compare_op(reg: u8, v: u8, p: u8)
    ensures
        (compare_op(reg, v, p) & psr::C != 0) == (reg >= v),
        (compare_op(reg, v, p) & psr::Z != 0) == (reg == v),
        (compare_op(reg, v, p) & psr::N != 0) == (sub8(reg, v) >= 0x80),
        compare_op(reg, v, p) & (psr::V | psr::I | psr::D) == p & (psr::V | psr::I | psr::D),
{
    let d = sub8(reg, v);
    let c = reg >= v;
    assert((d == 0) == (reg == v));
    assert({
        let q = (p & !(0x80u8 | 2u8)) | (d & 0x80u8) | (if d == 0 {
            2u8
        } else {
            0u8
        });
        let f = if c {
            q | 1u8
        } else {
            q & !1u8
        };
        &&& (f & 1 != 0) == c
        &&& (f & 2 != 0) == (d == 0)
        &&& (f & 0x80 != 0) == (d >= 0x80)
        &&& f & (0x40u8 | 4u8 | 8u8) == p & (0x40u8 | 4u8 | 8u8)
    }) by (bit_vector);
}

/// CMP, CPX and CPY change only P: C is set exactly when the register is at least the
/// operand, Z exactly when they are equal, N is bit 7 of their difference, and V, I and D
/// are kept.
pub proof fn lemma_compare_flags(r: Registers, op: Mnemonic, v: u8, sem: DecimalSemantics)
    requires
        op == Mnemonic::Cmp || op == Mnemonic::Cpx || op == Mnemonic::Cpy,
    ensures
        ({
            let o = spec_finish_read(r, op, v, sem).0;
            let reg = if op == Mnemonic::Cmp {
                r.a
            } else if op == Mnemonic::Cpx {
                r.x
            } else {
                r.y
            };
            &&& o == Registers { p: o.p, ..r }
            &&& (o.p & psr::C != 0) == (reg >= v)
            &&& (o.p & psr::Z != 0) == (reg == v)
            &&& (o.p & psr::N != 0) == (sub8(reg, v) >= 0x80)
            &&& o.p & (psr::V | psr::I | psr::D) == r.p & (psr::V | psr::I | psr::D)
        }),
{
    reveal(spec_finish_read);
    if op == Mnemonic::Cmp {
        lemma_compare_op(r.a, v, r.p);
    } else if op == Mnemonic::Cpx {
        lemma_compare_op(r.x, v, r.p);
    } else {
        lemma_compare_op(r.y, v, r.p);
    }
}

/// Decimal ADC gives the same result on NMOS and CMOS parts (only the flags differ).
pub proof fn lemma_decimal_adc_value_same_on_nmos_and_cmos(a: u8, v: u8, p: u8)
    ensures
        adc_op(a, v, p, DecimalSemantics::Cmos65C02).0 == adc_op(
            a,
            v,
            p,
            DecimalSemantics::Nmos6502,
        ).0,
{
}

/// A part without decimal mode (the NES) adds and subtracts in binary whatever D holds: its
/// results and N, Z, C, V are those of any part with D clear.
pub proof fn lemma_binary_parts_ignore_d(a: u8, v: u8, p: u8, sem: DecimalSemantics)
    ensures
        adc_op(a, v, p, DecimalSemantics::Binary).0 == adc_op(a, v, p & !psr::D, sem).0,
        adc_op(a, v, p, DecimalSemantics::Binary).1 & (psr::N | psr::Z | psr::C | psr::V) == adc_op(
            a,
            v,
            p & !psr::D,
            sem,
        ).1 & (psr::N | psr::Z | psr::C | psr::V),
        sbc_op(a, v, p, DecimalSemantics::Binary).0 == sbc_op(a, v, p & !psr::D, sem).0,
        sbc_op(a, v, p, DecimalSemantics::Binary).1 & (psr::N | psr::Z | psr::C | psr::V) == sbc_op(
            a,
            v,
            p & !psr::D,
            sem,
        ).1 & (psr::N | psr::Z | psr::C | psr::V),
{
    assert((p & !8u8) & 8u8 == 0 && ((p & !8u8) & 1u8 != 0) == (p & 1u8 != 0)) by (bit_vector);
    let m = psr::N | psr::Z | psr::C | psr::V;
    crate::alu::lemma_apply_flags_selects(p, spec_adc_flags(0xff, a as u32, v as u32, p, DecimalSemantics::Binary), m);
    crate::alu::lemma_apply_flags_selects(p & !psr::D, spec_adc_flags(0xff, a as u32, v as u32, p & !psr::D, sem), m);
    crate::alu::lemma_apply_flags_selects(p, spec_sbc_flags(0xff, a as u32, v as u32, p, DecimalSemantics::Binary), m);
    crate::alu::lemma_apply_flags_selects(p & !psr::D, spec_sbc_flags(0xff, a as u32, v as u32, p & !psr::D, sem), m);
}

} // verus!
