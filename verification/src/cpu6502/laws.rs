//! Laws of what the 8-bit instructions do to the registers, the status flags and the operand,
//! stated by the arithmetic each instruction performs: the new value of each register as a
//! function of the old ones, Z and N as properties of the result, the carry as the bit that
//! leaves the operand.
use vstd::prelude::*;

use crate::alu::{flag_byte, lemma_flag_byte_bits, DecimalSemantics};
use crate::common::spec_set_zn8;
use crate::cpu6502::ops::{
    spec_branch_taken, spec_finish_implied, spec_finish_read, spec_modify, spec_prepare_store, spec_rmb_bit,
    spec_smb_bit, Registers,
};
use crate::cpu6502::context::MicroCtx6502;
use crate::cpu6502::flavor::{Flavor, Micro6502, Micro65C02};
use crate::isa::op::{
    fresh_executor, index_of, spec_add_offset, spec_at_access, spec_cycle, spec_cycle_address, spec_post,
    MicroExecutor,
};
use crate::isa::microcycle::{DecodeContext, MicroCycle};
use crate::isa::{mode_cycles, AddressMode, JumpType, Latch, OffsetType};
use crate::isa::table::{cmos_entry, spec_decode, Instruction, OpcodeTable};
use crate::isa::table::Mnemonic;
use crate::psr;

verus! {

/// `q` is the status `p` with Z set exactly when `v` is zero and N equal to bit 7 of `v`;
/// every other flag is that of `p`.
pub open spec fn zn_from(p: u8, q: u8, v: u8) -> bool {
    &&& (q & psr::Z != 0) == (v == 0)
    &&& (q & psr::N != 0) == (v >= 0x80)
    &&& q & !(psr::N | psr::Z) == p & !(psr::N | psr::Z)
}

/// As [`zn_from`], with C also replaced: C set exactly when `c`.
pub open spec fn nzc_from(p: u8, q: u8, v: u8, c: bool) -> bool {
    &&& (q & psr::Z != 0) == (v == 0)
    &&& (q & psr::N != 0) == (v >= 0x80)
    &&& (q & psr::C != 0) == c
    &&& q & !(psr::N | psr::Z | psr::C) == p & !(psr::N | psr::Z | psr::C)
}

/// Whether the carry flag is set in `p`.
pub open spec fn carry_set(p: u8) -> bool {
    p & psr::C != 0
}

/// `q` holds the registers of `r` but for A and P.
pub open spec fn keeps_all_but_a(r: Registers, q: Registers) -> bool {
    q.x == r.x && q.y == r.y && q.s == r.s && q.pc == r.pc
}

/// `q` holds the registers of `r` but for X and P.
pub open spec fn keeps_all_but_x(r: Registers, q: Registers) -> bool {
    q.a == r.a && q.y == r.y && q.s == r.s && q.pc == r.pc
}

/// `q` holds the registers of `r` but for Y and P.
pub open spec fn keeps_all_but_y(r: Registers, q: Registers) -> bool {
    q.a == r.a && q.x == r.x && q.s == r.s && q.pc == r.pc
}

/// `q` holds the registers of `r` but for P.
pub open spec fn keeps_all_but_p(r: Registers, q: Registers) -> bool {
    q.a == r.a && q.x == r.x && q.y == r.y && q.s == r.s && q.pc == r.pc
}

proof fn lemma_set_zn8(p: u8, v: u8)
    ensures
        zn_from(p, spec_set_zn8(p, v), v),
{
    assert({
        let q = (p & !(0x80u8 | 2u8)) | (v & 0x80u8) | (if v == 0 {
            2u8
        } else {
            0u8
        });
        &&& (q & 2u8 != 0) == (v == 0)
        &&& (q & 0x80u8 != 0) == (v >= 0x80)
        &&& q & !(0x80u8 | 2u8) == p & !(0x80u8 | 2u8)
    }) by (bit_vector);
}

/// Replacing N, Z and C of `p` by those of the flag byte of a shift result `r` with carry `c`.
proof fn lemma_shift_flags(p: u8, r: u8, c: bool)
    ensures
        nzc_from(
            p,
            (p & !(psr::N | psr::Z | psr::C)) | (flag_byte(r >= 0x80, false, r == 0, c) & (psr::N
                | psr::Z | psr::C)),
            r,
            c,
        ),
{
    let f = flag_byte(r >= 0x80, false, r == 0, c);
    lemma_flag_byte_bits(r >= 0x80, false, r == 0, c);
    assert({
        let q = (p & !(0x80u8 | 2u8 | 1u8)) | (f & (0x80u8 | 2u8 | 1u8));
        &&& (q & 2u8 != 0) == (f & 2u8 != 0)
        &&& (q & 0x80u8 != 0) == (f & 0x80u8 != 0)
        &&& (q & 1u8 != 0) == (f & 1u8 != 0)
        &&& q & !(0x80u8 | 2u8 | 1u8) == p & !(0x80u8 | 2u8 | 1u8)
    }) by (bit_vector);
}

/// Loads, pulls and the logic instructions: the destination register takes the loaded byte,
/// or A combined with it by AND, ORA or EOR; Z and N then describe that new value; nothing
/// else changes. PLP loads P from the byte with B clear and the unused bit set.
pub proof fn lemma_read_results(r: Registers, v: u8, sem: DecimalSemantics)
    ensures
        ({
            let q = spec_finish_read(r, Mnemonic::Lda, v, sem).0;
            q.a == v && zn_from(r.p, q.p, v) && keeps_all_but_a(r, q)
        }),
        ({
            let q = spec_finish_read(r, Mnemonic::Pla, v, sem).0;
            q.a == v && zn_from(r.p, q.p, v) && keeps_all_but_a(r, q)
        }),
        ({
            let q = spec_finish_read(r, Mnemonic::Ldx, v, sem).0;
            q.x == v && zn_from(r.p, q.p, v) && keeps_all_but_x(r, q)
        }),
        ({
            let q = spec_finish_read(r, Mnemonic::Plx, v, sem).0;
            q.x == v && zn_from(r.p, q.p, v) && keeps_all_but_x(r, q)
        }),
        ({
            let q = spec_finish_read(r, Mnemonic::Ldy, v, sem).0;
            q.y == v && zn_from(r.p, q.p, v) && keeps_all_but_y(r, q)
        }),
        ({
            let q = spec_finish_read(r, Mnemonic::Ply, v, sem).0;
            q.y == v && zn_from(r.p, q.p, v) && keeps_all_but_y(r, q)
        }),
        ({
            let q = spec_finish_read(r, Mnemonic::And, v, sem).0;
            q.a == r.a & v && zn_from(r.p, q.p, q.a) && keeps_all_but_a(r, q)
        }),
        ({
            let q = spec_finish_read(r, Mnemonic::Ora, v, sem).0;
            q.a == r.a | v && zn_from(r.p, q.p, q.a) && keeps_all_but_a(r, q)
        }),
        ({
            let q = spec_finish_read(r, Mnemonic::Eor, v, sem).0;
            q.a == r.a ^ v && zn_from(r.p, q.p, q.a) && keeps_all_but_a(r, q)
        }),
        ({
            let q = spec_finish_read(r, Mnemonic::Lax, v, sem).0;
            q.a == v && q.x == v && zn_from(r.p, q.p, v) && q.y == r.y && q.s == r.s && q.pc
                == r.pc
        }),
        ({
            let q = spec_finish_read(r, Mnemonic::Plp, v, sem).0;
            &&& q.p & !(psr::B_6502 | psr::U_6502) == v & !(psr::B_6502 | psr::U_6502)
            &&& q.p & psr::B_6502 == 0
            &&& q.p & psr::U_6502 != 0
            &&& keeps_all_but_p(r, q)
        }),
{
    reveal(spec_finish_read);
    lemma_set_zn8(r.p, v);
    lemma_set_zn8(r.p, r.a & v);
    lemma_set_zn8(r.p, r.a | v);
    lemma_set_zn8(r.p, r.a ^ v);
    assert({
        let q = (v | 0x20u8) & !0x10u8;
        &&& q & !(0x10u8 | 0x20u8) == v & !(0x10u8 | 0x20u8)
        &&& q & 0x10u8 == 0
        &&& q & 0x20u8 != 0
    }) by (bit_vector);
}

/// Increments, decrements and transfers between registers: the destination takes the
/// source plus or minus one modulo 256, or the source itself; Z and N then describe the new
/// value (TXS alone leaves P as it was); nothing else changes.
pub proof fn lemma_implied_register_results(r: Registers)
    ensures
        ({
            let q = spec_finish_implied(r, Mnemonic::Inx).0;
            q.x == (r.x + 1) % 256 && zn_from(r.p, q.p, q.x) && keeps_all_but_x(r, q)
        }),
        ({
            let q = spec_finish_implied(r, Mnemonic::Iny).0;
            q.y == (r.y + 1) % 256 && zn_from(r.p, q.p, q.y) && keeps_all_but_y(r, q)
        }),
        ({
            let q = spec_finish_implied(r, Mnemonic::Inc).0;
            q.a == (r.a + 1) % 256 && zn_from(r.p, q.p, q.a) && keeps_all_but_a(r, q)
        }),
        ({
            let q = spec_finish_implied(r, Mnemonic::Dex).0;
            q.x == (r.x + 255) % 256 && zn_from(r.p, q.p, q.x) && keeps_all_but_x(r, q)
        }),
        ({
            let q = spec_finish_implied(r, Mnemonic::Dey).0;
            q.y == (r.y + 255) % 256 && zn_from(r.p, q.p, q.y) && keeps_all_but_y(r, q)
        }),
        ({
            let q = spec_finish_implied(r, Mnemonic::Dec).0;
            q.a == (r.a + 255) % 256 && zn_from(r.p, q.p, q.a) && keeps_all_but_a(r, q)
        }),
        ({
            let q = spec_finish_implied(r, Mnemonic::Tax).0;
            q.x == r.a && zn_from(r.p, q.p, r.a) && keeps_all_but_x(r, q)
        }),
        ({
            let q = spec_finish_implied(r, Mnemonic::Tay).0;
            q.y == r.a && zn_from(r.p, q.p, r.a) && keeps_all_but_y(r, q)
        }),
        ({
            let q = spec_finish_implied(r, Mnemonic::Txa).0;
            q.a == r.x && zn_from(r.p, q.p, r.x) && keeps_all_but_a(r, q)
        }),
        ({
            let q = spec_finish_implied(r, Mnemonic::Tya).0;
            q.a == r.y && zn_from(r.p, q.p, r.y) && keeps_all_but_a(r, q)
        }),
        ({
            let q = spec_finish_implied(r, Mnemonic::Tsx).0;
            q.x == r.s && zn_from(r.p, q.p, r.s) && keeps_all_but_x(r, q)
        }),
        spec_finish_implied(r, Mnemonic::Txs).0 == (Registers { s: r.x, ..r }),
{
    reveal(spec_finish_implied);
    lemma_set_zn8(r.p, ((r.x + 1) % 256) as u8);
    lemma_set_zn8(r.p, ((r.y + 1) % 256) as u8);
    lemma_set_zn8(r.p, ((r.a + 1) % 256) as u8);
    lemma_set_zn8(r.p, ((r.x + 255) % 256) as u8);
    lemma_set_zn8(r.p, ((r.y + 255) % 256) as u8);
    lemma_set_zn8(r.p, ((r.a + 255) % 256) as u8);
    lemma_set_zn8(r.p, r.a);
    lemma_set_zn8(r.p, r.x);
    lemma_set_zn8(r.p, r.y);
    lemma_set_zn8(r.p, r.s);
}

/// The flag instructions: CLC, CLD, CLI and CLV clear their flag, SEC, SED and SEI set it;
/// every other flag and every register is kept.
pub proof fn lemma_implied_flag_results(r: Registers)
    ensures
        ({
            let q = spec_finish_implied(r, Mnemonic::Clc).0;
            q.p & psr::C == 0 && q.p & !psr::C == r.p & !psr::C && keeps_all_but_p(r, q)
        }),
        ({
            let q = spec_finish_implied(r, Mnemonic::Sec).0;
            q.p & psr::C != 0 && q.p & !psr::C == r.p & !psr::C && keeps_all_but_p(r, q)
        }),
        ({
            let q = spec_finish_implied(r, Mnemonic::Cld).0;
            q.p & psr::D == 0 && q.p & !psr::D == r.p & !psr::D && keeps_all_but_p(r, q)
        }),
        ({
            let q = spec_finish_implied(r, Mnemonic::Sed).0;
            q.p & psr::D != 0 && q.p & !psr::D == r.p & !psr::D && keeps_all_but_p(r, q)
        }),
        ({
            let q = spec_finish_implied(r, Mnemonic::Cli).0;
            q.p & psr::I == 0 && q.p & !psr::I == r.p & !psr::I && keeps_all_but_p(r, q)
        }),
        ({
            let q = spec_finish_implied(r, Mnemonic::Sei).0;
            q.p & psr::I != 0 && q.p & !psr::I == r.p & !psr::I && keeps_all_but_p(r, q)
        }),
        ({
            let q = spec_finish_implied(r, Mnemonic::Clv).0;
            q.p & psr::V == 0 && q.p & !psr::V == r.p & !psr::V && keeps_all_but_p(r, q)
        }),
{
    reveal(spec_finish_implied);
    let p = r.p;
    assert({
        &&& (p & !1u8) & 1u8 == 0 && (p & !1u8) & !1u8 == p & !1u8
        &&& (p | 1u8) & 1u8 != 0 && (p | 1u8) & !1u8 == p & !1u8
        &&& (p & !8u8) & 8u8 == 0 && (p & !8u8) & !8u8 == p & !8u8
        &&& (p | 8u8) & 8u8 != 0 && (p | 8u8) & !8u8 == p & !8u8
        &&& (p & !4u8) & 4u8 == 0 && (p & !4u8) & !4u8 == p & !4u8
        &&& (p | 4u8) & 4u8 != 0 && (p | 4u8) & !4u8 == p & !4u8
        &&& (p & !0x40u8) & 0x40u8 == 0 && (p & !0x40u8) & !0x40u8 == p & !0x40u8
    }) by (bit_vector);
}

/// The accumulator shifts and rotates: ASL doubles A, shifting a zero in; LSR halves it;
/// ROL and ROR shift the old carry in at the other end. C takes the bit shifted out, Z and
/// N describe the new A, and nothing else changes.
pub proof fn lemma_implied_shift_results(r: Registers)
    ensures
        ({
            let q = spec_finish_implied(r, Mnemonic::Asl).0;
            q.a == (r.a * 2) % 256 && nzc_from(r.p, q.p, q.a, r.a >= 0x80) && keeps_all_but_a(r, q)
        }),
        ({
            let q = spec_finish_implied(r, Mnemonic::Lsr).0;
            q.a == r.a / 2 && nzc_from(r.p, q.p, q.a, r.a % 2 == 1) && keeps_all_but_a(r, q)
        }),
        ({
            let q = spec_finish_implied(r, Mnemonic::Rol).0;
            &&& q.a == (r.a * 2 + (if carry_set(r.p) { 1int } else { 0 })) % 256
            &&& nzc_from(r.p, q.p, q.a, r.a >= 0x80)
            &&& keeps_all_but_a(r, q)
        }),
        ({
            let q = spec_finish_implied(r, Mnemonic::Ror).0;
            &&& q.a == r.a / 2 + (if carry_set(r.p) { 0x80int } else { 0 })
            &&& nzc_from(r.p, q.p, q.a, r.a % 2 == 1)
            &&& keeps_all_but_a(r, q)
        }),
{
    reveal(spec_finish_implied);
    lemma_shift_flags(r.p, ((r.a * 2) % 256) as u8, r.a >= 0x80);
    lemma_shift_flags(r.p, r.a / 2, r.a % 2 == 1);
    lemma_shift_flags(r.p, ((r.a * 2 + crate::alu::carry_in(r.p)) % 256) as u8, r.a >= 0x80);
    lemma_shift_flags(r.p, (r.a / 2 + 0x80 * crate::alu::carry_in(r.p)) as u8, r.a % 2 == 1);
}

/// The modify step of the read-modify-write instructions on the operand `v` (held in Op0):
/// ASL doubles it with a zero shifted in, LSR halves it, ROL and ROR shift the old carry in,
/// INC and DEC add and subtract one modulo 256. The result goes back to Op0 to be written,
/// C takes the bit shifted out, Z and N describe the result, and no register or other latch
/// changes.
pub proof fn lemma_modify_results(r: Registers, opcode: u8, s: MicroExecutor, sem: DecimalSemantics)
    ensures
        ({
            let m = spec_modify(r, Mnemonic::Asl, opcode, s, sem);
            &&& m.1 == (MicroExecutor { op0: ((s.op0 * 2) % 256) as u8, ..s })
            &&& nzc_from(r.p, m.0.p, m.1.op0, s.op0 >= 0x80)
            &&& keeps_all_but_p(r, m.0)
        }),
        ({
            let m = spec_modify(r, Mnemonic::Lsr, opcode, s, sem);
            &&& m.1 == (MicroExecutor { op0: s.op0 / 2, ..s })
            &&& nzc_from(r.p, m.0.p, m.1.op0, s.op0 % 2 == 1)
            &&& keeps_all_but_p(r, m.0)
        }),
        ({
            let m = spec_modify(r, Mnemonic::Rol, opcode, s, sem);
            &&& m.1 == (MicroExecutor {
                op0: ((s.op0 * 2 + (if carry_set(r.p) { 1int } else { 0 })) % 256) as u8,
                ..s
            })
            &&& nzc_from(r.p, m.0.p, m.1.op0, s.op0 >= 0x80)
            &&& keeps_all_but_p(r, m.0)
        }),
        ({
            let m = spec_modify(r, Mnemonic::Ror, opcode, s, sem);
            &&& m.1 == (MicroExecutor {
                op0: (s.op0 / 2 + (if carry_set(r.p) { 0x80int } else { 0 })) as u8,
                ..s
            })
            &&& nzc_from(r.p, m.0.p, m.1.op0, s.op0 % 2 == 1)
            &&& keeps_all_but_p(r, m.0)
        }),
        ({
            let m = spec_modify(r, Mnemonic::Inc, opcode, s, sem);
            &&& m.1 == (MicroExecutor { op0: ((s.op0 + 1) % 256) as u8, ..s })
            &&& zn_from(r.p, m.0.p, m.1.op0)
            &&& keeps_all_but_p(r, m.0)
        }),
        ({
            let m = spec_modify(r, Mnemonic::Dec, opcode, s, sem);
            &&& m.1 == (MicroExecutor { op0: ((s.op0 + 255) % 256) as u8, ..s })
            &&& zn_from(r.p, m.0.p, m.1.op0)
            &&& keeps_all_but_p(r, m.0)
        }),
{
    reveal(spec_modify);
    let v = s.op0;
    lemma_shift_flags(r.p, ((v * 2) % 256) as u8, v >= 0x80);
    lemma_shift_flags(r.p, v / 2, v % 2 == 1);
    lemma_shift_flags(r.p, ((v * 2 + crate::alu::carry_in(r.p)) % 256) as u8, v >= 0x80);
    lemma_shift_flags(r.p, (v / 2 + 0x80 * crate::alu::carry_in(r.p)) as u8, v % 2 == 1);
    lemma_set_zn8(r.p, ((v + 1) % 256) as u8);
    lemma_set_zn8(r.p, ((v + 255) % 256) as u8);
}

/// The undocumented NMOS read-modify-write instructions: SLO, RLA and SRE write back the
/// ASL, ROL or LSR of the operand and combine that result into A by ORA, AND or EOR; C is
/// the bit shifted out, Z and N describe the new A. DCP writes back the operand minus one and
/// compares A with it. X, Y, S and PC are kept.
pub proof fn lemma_modify_undocumented_results(
    r: Registers,
    opcode: u8,
    s: MicroExecutor,
    sem: DecimalSemantics,
)
    ensures
        ({
            let m = spec_modify(r, Mnemonic::Slo, opcode, s, sem);
            &&& m.1 == (MicroExecutor { op0: ((s.op0 * 2) % 256) as u8, ..s })
            &&& m.0.a == r.a | m.1.op0
            &&& nzc_from(r.p, m.0.p, m.0.a, s.op0 >= 0x80)
            &&& keeps_all_but_a(r, m.0)
        }),
        ({
            let m = spec_modify(r, Mnemonic::Rla, opcode, s, sem);
            &&& m.1 == (MicroExecutor {
                op0: ((s.op0 * 2 + (if carry_set(r.p) { 1int } else { 0 })) % 256) as u8,
                ..s
            })
            &&& m.0.a == r.a & m.1.op0
            &&& nzc_from(r.p, m.0.p, m.0.a, s.op0 >= 0x80)
            &&& keeps_all_but_a(r, m.0)
        }),
        ({
            let m = spec_modify(r, Mnemonic::Sre, opcode, s, sem);
            &&& m.1 == (MicroExecutor { op0: s.op0 / 2, ..s })
            &&& m.0.a == r.a ^ m.1.op0
            &&& nzc_from(r.p, m.0.p, m.0.a, s.op0 % 2 == 1)
            &&& keeps_all_but_a(r, m.0)
        }),
        ({
            let m = spec_modify(r, Mnemonic::Dcp, opcode, s, sem);
            let t = ((s.op0 + 255) % 256) as u8;
            &&& m.1 == (MicroExecutor { op0: t, ..s })
            &&& nzc_from(r.p, m.0.p, ((r.a + 256 - t) % 256) as u8, r.a >= t)
            &&& keeps_all_but_p(r, m.0)
        }),
{
    reveal(spec_modify);
    let v = s.op0;
    let p = r.p;
    let asl_v = ((v * 2) % 256) as u8;
    let rol_v = ((v * 2 + crate::alu::carry_in(p)) % 256) as u8;
    let lsr_v = v / 2;
    lemma_shift_flags(p, asl_v, v >= 0x80);
    lemma_shift_flags(p, rol_v, v >= 0x80);
    lemma_shift_flags(p, lsr_v, v % 2 == 1);
    lemma_set_zn8_over(crate::cpu6502::ops::asl_op(v, p).1, r.a | asl_v, p, v >= 0x80);
    lemma_set_zn8_over(crate::cpu6502::ops::rol_op(v, p).1, r.a & rol_v, p, v >= 0x80);
    lemma_set_zn8_over(crate::cpu6502::ops::lsr_op(v, p).1, r.a ^ lsr_v, p, v % 2 == 1);
    let t = ((v + 255) % 256) as u8;
    lemma_compare(r.a, t, p);
}

/// Setting N and Z from `v` on a status whose C came from a shift keeps that C.
proof fn lemma_set_zn8_over(q: u8, v: u8, p: u8, c: bool)
    requires
        (q & psr::C != 0) == c,
        q & !(psr::N | psr::Z | psr::C) == p & !(psr::N | psr::Z | psr::C),
    ensures
        nzc_from(p, spec_set_zn8(q, v), v, c),
{
    lemma_set_zn8(q, v);
    let z = spec_set_zn8(q, v);
    assert(z & !(0x80u8 | 2u8) == q & !(0x80u8 | 2u8) ==> (z & 1u8 == q & 1u8) && (z & !(0x80u8
        | 2u8 | 1u8) == q & !(0x80u8 | 2u8 | 1u8))) by (bit_vector);
}

/// Setting N and Z from `d` and then C to `c` replaces exactly those three flags.
proof fn lemma_zn_then_carry(p: u8, d: u8, c: bool)
    ensures
        nzc_from(p, crate::cpu6502::ops::with_flag(spec_set_zn8(p, d), psr::C, c), d, c),
{
    lemma_set_zn8(p, d);
    let z = spec_set_zn8(p, d);
    assert(z & !(0x80u8 | 2u8) == p & !(0x80u8 | 2u8) ==> {
        let q = if c {
            z | 1u8
        } else {
            z & !1u8
        };
        &&& (q & 1u8 != 0) == c
        &&& (q & 2u8 != 0) == (z & 2u8 != 0)
        &&& (q & 0x80u8 != 0) == (z & 0x80u8 != 0)
        &&& q & !(0x80u8 | 2u8 | 1u8) == p & !(0x80u8 | 2u8 | 1u8)
    }) by (bit_vector);
}

/// The status after comparing `a` with `t`: N and Z of `a - t`, C when `a >= t`.
proof fn lemma_compare(a: u8, t: u8, p: u8)
    ensures
        nzc_from(p, crate::cpu6502::ops::compare_op(a, t, p), ((a + 256 - t) % 256) as u8, a >= t),
{
    lemma_zn_then_carry(p, ((a + 256 - t) % 256) as u8, a >= t);
}

/// N, Z and C replaced on a status whose N and Z alone had been replaced before: every other
/// flag is still that of the first status.
proof fn lemma_nzc_over_zn(p: u8, q: u8, x: u8, r: u8, c: bool)
    requires
        q & !(psr::N | psr::Z) == p & !(psr::N | psr::Z),
        nzc_from(q, x, r, c),
    ensures
        nzc_from(p, x, r, c),
{
    assert(q & !(0x80u8 | 2u8) == p & !(0x80u8 | 2u8) && x & !(0x80u8 | 2u8 | 1u8) == q & !(0x80u8
        | 2u8 | 1u8) ==> x & !(0x80u8 | 2u8 | 1u8) == p & !(0x80u8 | 2u8 | 1u8)) by (bit_vector);
}

/// RMBn clears bit n of the operand and SMBn sets it, n being the opcode's high nibble
/// (less eight for SMB); every other bit, every register and the status are kept.
pub proof fn lemma_modify_bit_results(r: Registers, op: Mnemonic, opcode: u8, s: MicroExecutor, sem: DecimalSemantics, k: u8)
    requires
        opcode % 16 == 7,
        op != Mnemonic::Asl && op != Mnemonic::Lsr && op != Mnemonic::Rol && op != Mnemonic::Ror
            && op != Mnemonic::Inc && op != Mnemonic::Dec && op != Mnemonic::Tsb && op
            != Mnemonic::Trb && op != Mnemonic::Slo && op != Mnemonic::Rla && op != Mnemonic::Sre
            && op != Mnemonic::Rra && op != Mnemonic::Dcp && op != Mnemonic::Isc,
        k < 8,
    ensures
        spec_modify(r, op, opcode, s, sem).0 == r,
        ({
            let w = spec_modify(r, op, opcode, s, sem).1.op0;
            let bit = if opcode < 0x80 { opcode / 16 } else { (opcode / 16 - 8) as u8 };
            &&& (w & (1u8 << k) != 0) == (if k == bit {
                opcode >= 0x80
            } else {
                s.op0 & (1u8 << k) != 0
            })
        }),
        spec_modify(r, op, opcode, s, sem).1 == (MicroExecutor {
            op0: spec_modify(r, op, opcode, s, sem).1.op0,
            ..s
        }),
{
    reveal(spec_modify);
    let v = s.op0;
    let b: u8 = if opcode < 0x80 { opcode / 16 } else { (opcode / 16 - 8) as u8 };
    assert(b < 8);
    assert(b < 8 && k < 8 ==> ((v & !(1u8 << b)) & (1u8 << k) != 0) == (if k == b {
        false
    } else {
        v & (1u8 << k) != 0
    })) by (bit_vector);
    assert(b < 8 && k < 8 ==> ((v | (1u8 << b)) & (1u8 << k) != 0) == (if k == b {
        true
    } else {
        v & (1u8 << k) != 0
    })) by (bit_vector);
    if opcode < 0x80 {
        assert(spec_rmb_bit(opcode) == Some(b));
    } else {
        assert(spec_rmb_bit(opcode) is None);
        assert(spec_smb_bit(opcode) == Some(b));
    }
}

/// RRA is ROR of the operand followed by ADC of the rotated byte, the carry coming from the
/// rotation; ISC is INC of the operand followed by SBC of the incremented byte. Each writes
/// back the rotated or incremented byte.
pub proof fn lemma_modify_then_add(r: Registers, opcode: u8, s: MicroExecutor, sem: DecimalSemantics)
    ensures
        ({
            let rot = spec_modify(r, Mnemonic::Ror, opcode, s, sem);
            let m = spec_modify(r, Mnemonic::Rra, opcode, s, sem);
            &&& m.1 == rot.1
            &&& m.0 == spec_finish_read(rot.0, Mnemonic::Adc, rot.1.op0, sem).0
        }),
        ({
            let inc = spec_modify(r, Mnemonic::Inc, opcode, s, sem);
            let m = spec_modify(r, Mnemonic::Isc, opcode, s, sem);
            &&& m.1 == inc.1
            &&& m.0 == spec_finish_read(r, Mnemonic::Sbc, inc.1.op0, sem).0
        }),
{
    reveal(spec_modify);
    reveal(spec_finish_read);
}

/// The operand fetch of a direct-page mode: the byte at PC goes to the low byte of EA (EA
/// starts at `$007F`, so EA becomes the byte) and PC steps on.
proof fn lemma_dp_operand_cycle<F: Flavor>(ex: MicroExecutor, ctx: MicroCtx6502<F>, q: Seq<MicroCycle>, d: u8)
    requires
        q.len() > 0,
        q[0] == MicroCycle::read(Latch::Pc, Latch::EaLo, true),
        ex.ea == 0x7F,
    ensures
        spec_cycle_address(ex, ctx, q) == ctx.regs.pc as u32,
        spec_cycle(ex, ctx, q, d).0.ea == d as u32,
        spec_cycle(ex, ctx, q, d).1.regs.pc == (ctx.regs.pc + 1) % 0x10000,
        spec_cycle(ex, ctx, q, d).1.regs.x == ctx.regs.x,
        spec_cycle(ex, ctx, q, d).1.regs.y == ctx.regs.y,
        spec_cycle(ex, ctx, q, d).2 == q.drop_first(),
{
    reveal(spec_cycle);
    let e = (0x7Fu32 & !0xFFu32) | (d as u32);
    assert(e == d as u32) by (bit_vector)
        requires
            e == (0x7Fu32 & !0xFFu32) | (d as u32),
    ;
}

/// An index cycle runs as: no work before its access, the access discards the byte, then the
/// index is added to the latch.
#[verifier::spinoff_prover]
proof fn lemma_index_cycle_steps<F: Flavor>(
    ex: MicroExecutor,
    ctx: MicroCtx6502<F>,
    q: Seq<MicroCycle>,
    d: u8,
    off: OffsetType,
)
    requires
        q.len() > 0,
        q[0] == MicroCycle::read_and_offset(Latch::EaLo, off),
    ensures
        spec_cycle_address(ex, ctx, q) == ex.ea % 256,
        spec_cycle(ex, ctx, q, d) == ({
            let r = spec_add_offset(MicroExecutor { data_latch: d, ..ex }, ctx, Latch::EaLo, index_of(ctx, off));
            (r.0, r.1, q.drop_first())
        }),
{
    reveal(spec_cycle);
}

/// Adding an index to the low byte of an EA below 256 keeps it in page zero.
proof fn lemma_add_within_page_zero(ea: u32, idx: u16)
    requires
        ea < 256,
    ensures
        (ea & 0xFF0000u32) | (crate::isa::op::add_within_page((ea % 0x10000) as u16, idx) as u32)
            == (ea + idx) % 256,
{
    let lo = (ea % 0x10000) as u16;
    let moved: u16 = (((lo % 256) + (idx % 256)) % 256) as u16;
    assert({
        &&& lo < 256 ==> lo & 0xFF00u16 == 0
        &&& ea < 256 ==> ea & 0xFF0000u32 == 0
        &&& moved < 256 ==> (0u32 | (moved as u32)) == moved as u32
        &&& 0u16 | moved == moved
    }) by (bit_vector);
}

/// The index cycle of a direct-page indexed mode: a dummy read at the unindexed page-zero
/// address, then the index added to EA within page zero.
proof fn lemma_dp_index_cycle<F: Flavor>(
    ex: MicroExecutor,
    ctx: MicroCtx6502<F>,
    q: Seq<MicroCycle>,
    d: u8,
    off: OffsetType,
)
    requires
        q.len() > 0,
        q[0] == MicroCycle::read_and_offset(Latch::EaLo, off),
        off != OffsetType::NoOffset,
        ex.ea < 256,
    ensures
        spec_cycle_address(ex, ctx, q) == ex.ea,
        spec_cycle(ex, ctx, q, d).0.ea == (ex.ea + (if off == OffsetType::X {
            ctx.regs.x as int
        } else {
            ctx.regs.y as int
        })) % 256,
        spec_cycle(ex, ctx, q, d).2 == q.drop_first(),
{
    lemma_index_cycle_steps(ex, ctx, q, d, off);
    lemma_add_within_page_zero(ex.ea, index_of(ctx, off));
}

/// Direct-page indexing wraps within page zero. For a `zp,X` or `zp,Y` instruction on an
/// 8-bit core, starting from fresh latches: the first cycle reads the operand byte at PC, the
/// second is a dummy read at the unindexed address in page zero, and then EA holds
/// (operand + index) mod 256, which the next cycle, the operand access, uses. The index never
/// carries into page one.
pub proof fn lemma_dp_indexed_wraps_in_page_zero<F: Flavor>(
    regs: Registers,
    inst: Instruction,
    opcode: u8,
    dctx: DecodeContext,
    off: OffsetType,
    operand: u8,
    dummy: u8,
)
    requires
        off != OffsetType::NoOffset,
    ensures
        ({
            let ctx = MicroCtx6502::<F>::of(regs, inst, opcode);
            let ex = MicroExecutor { memory_action: inst.memory_action, ..fresh_executor() };
            let q = mode_cycles::<F::Micro>(AddressMode::DirectPage(off), dctx);
            let index: int = if off == OffsetType::X {
                regs.x as int
            } else {
                regs.y as int
            };
            let c1 = spec_cycle(ex, ctx, q, operand);
            let c2 = spec_cycle(c1.0, c1.1, c1.2, dummy);
            &&& spec_cycle_address(ex, ctx, q) == regs.pc as u32
            &&& spec_cycle_address(c1.0, c1.1, c1.2) == operand as u32
            &&& c2.0.ea == (operand + index) % 256
            &&& c2.2.len() > 0
            &&& c2.2[0].bus.addr == Latch::Ea
        }),
{
    let ctx = MicroCtx6502::<F>::of(regs, inst, opcode);
    let ex = MicroExecutor { memory_action: inst.memory_action, ..fresh_executor() };
    let q = mode_cycles::<F::Micro>(AddressMode::DirectPage(off), dctx);
    assert(q[0] == MicroCycle::read(Latch::Pc, Latch::EaLo, true));
    lemma_dp_operand_cycle(ex, ctx, q, operand);
    let c1 = spec_cycle(ex, ctx, q, operand);
    assert(c1.2[0] == MicroCycle::read_and_offset(Latch::EaLo, off));
    lemma_dp_index_cycle(c1.0, c1.1, c1.2, dummy, off);
    let c2 = spec_cycle(c1.0, c1.1, c1.2, dummy);
    assert(c2.2 == q.drop_first().drop_first());
    assert(c2.2[0] == q[2]);
}

/// As [`nzc_from`], with V also replaced: V set exactly when `ov`.
pub open spec fn nvzc_from(p: u8, q: u8, v: u8, ov: bool, c: bool) -> bool {
    &&& (q & psr::Z != 0) == (v == 0)
    &&& (q & psr::N != 0) == (v >= 0x80)
    &&& (q & psr::V != 0) == ov
    &&& (q & psr::C != 0) == c
    &&& q & !(psr::N | psr::V | psr::Z | psr::C) == p & !(psr::N | psr::V | psr::Z | psr::C)
}

/// The carry of `p` as 0 or 1.
pub open spec fn carry_value(p: u8) -> int {
    if carry_set(p) {
        1
    } else {
        0
    }
}

proof fn lemma_arith_flags(p: u8, n: bool, ov: bool, z: bool, c: bool)
    ensures
        ({
            let f = flag_byte(n, ov, z, c);
            let q = (p & !(psr::N | psr::Z | psr::C | psr::V)) | (f & (psr::N | psr::Z | psr::C
                | psr::V));
            &&& (q & psr::Z != 0) == z
            &&& (q & psr::N != 0) == n
            &&& (q & psr::V != 0) == ov
            &&& (q & psr::C != 0) == c
            &&& q & !(psr::N | psr::V | psr::Z | psr::C) == p & !(psr::N | psr::V | psr::Z | psr::C)
        }),
{
    let f = flag_byte(n, ov, z, c);
    lemma_flag_byte_bits(n, ov, z, c);
    assert({
        let q = (p & !(0x80u8 | 2u8 | 1u8 | 0x40u8)) | (f & (0x80u8 | 2u8 | 1u8 | 0x40u8));
        &&& (q & 2u8 != 0) == (f & 2u8 != 0)
        &&& (q & 0x80u8 != 0) == (f & 0x80u8 != 0)
        &&& (q & 0x40u8 != 0) == (f & 0x40u8 != 0)
        &&& (q & 1u8 != 0) == (f & 1u8 != 0)
        &&& q & !(0x80u8 | 0x40u8 | 2u8 | 1u8) == p & !(0x80u8 | 0x40u8 | 2u8 | 1u8)
    }) by (bit_vector);
}

/// Binary ADC and SBC (D clear, or a part without decimal mode): ADC sets A to A + M + C
/// modulo 256 and C when that sum exceeds 255; SBC sets A to A - M - (1 - C) modulo 256 and
/// C when no borrow was needed. V is set exactly when the operands' signs make the result's
/// sign impossible (same signs for ADC, different for SBC, and the result's sign differs
/// from A's). Z and N describe the new A; I and D and the other registers are kept.
pub proof fn lemma_binary_add_subtract(r: Registers, v: u8, sem: DecimalSemantics)
    requires
        r.p & psr::D == 0 || sem == DecimalSemantics::Binary,
    ensures
        ({
            let q = spec_finish_read(r, Mnemonic::Adc, v, sem).0;
            let sum = r.a + v + carry_value(r.p);
            &&& q.a == sum % 256
            &&& nvzc_from(
                r.p,
                q.p,
                q.a,
                (r.a < 0x80) == (v < 0x80) && (q.a < 0x80) != (r.a < 0x80),
                sum > 255,
            )
            &&& keeps_all_but_a(r, q)
        }),
        ({
            let q = spec_finish_read(r, Mnemonic::Sbc, v, sem).0;
            let diff = r.a + 255 - v + carry_value(r.p);
            &&& q.a == diff % 256
            &&& nvzc_from(
                r.p,
                q.p,
                q.a,
                (r.a < 0x80) != (v < 0x80) && (q.a < 0x80) != (r.a < 0x80),
                diff > 255,
            )
            &&& keeps_all_but_a(r, q)
        }),
{
    reveal(spec_finish_read);
    let c = carry_value(r.p);
    let sum = r.a + v + c;
    let diff = r.a + 255 - v + c;
    assert(crate::alu::carry_in(r.p) == c);
    assert(!crate::alu::decimal_active(r.p, sem));
    let a = r.a as int;
    let vv = v as int;
    // bit 7 of an unwrapped 9-bit value is bit 7 of its wrapped byte
    assert(crate::alu::bit_set(sum, 0x80) == (sum % 256 >= 0x80)) by (nonlinear_arith)
        requires
            0 <= sum < 512,
    {
    }
    assert(crate::alu::bit_set(diff, 0x80) == (diff % 256 >= 0x80)) by (nonlinear_arith)
        requires
            0 <= diff < 512,
    {
    }
    assert(crate::alu::bit_set(a, 0x80) == (a >= 0x80)) by (nonlinear_arith)
        requires
            0 <= a < 256,
    {
    }
    assert(crate::alu::bit_set(vv, 0x80) == (vv >= 0x80)) by (nonlinear_arith)
        requires
            0 <= vv < 256,
    {
    }
    assert(crate::alu::bit_set(255 - vv, 0x80) == (vv < 0x80)) by (nonlinear_arith)
        requires
            0 <= vv < 256,
    {
    }
    let s8 = (sum % 256) as u8;
    let d8 = (diff % 256) as u8;
    lemma_arith_flags(
        r.p,
        s8 >= 0x80,
        crate::alu::add_overflow(0x80, a, vv, sum),
        s8 == 0,
        sum > 0xff,
    );
    lemma_arith_flags(
        r.p,
        d8 >= 0x80,
        crate::alu::sub_overflow(0x80, a, vv, diff % 256),
        d8 == 0,
        diff > 0xff,
    );
}

/// The byte a store puts on the bus: STA and PHA write A, STX and PHX write X, STY and PHY
/// write Y, STZ writes zero, SAX writes A AND X, PHP writes P with B set; a read-modify-write
/// writes back its modified operand. The registers and the address are kept.
pub proof fn lemma_store_values(r: Registers, s: MicroExecutor)
    ensures
        s.memory_action != crate::isa::MemoryAction::ReadModifyWrite ==> {
            &&& spec_prepare_store(r, Mnemonic::Sta, s) == (r, MicroExecutor { data_latch: r.a, ..s })
            &&& spec_prepare_store(r, Mnemonic::Pha, s) == (r, MicroExecutor { data_latch: r.a, ..s })
            &&& spec_prepare_store(r, Mnemonic::Stx, s) == (r, MicroExecutor { data_latch: r.x, ..s })
            &&& spec_prepare_store(r, Mnemonic::Phx, s) == (r, MicroExecutor { data_latch: r.x, ..s })
            &&& spec_prepare_store(r, Mnemonic::Sty, s) == (r, MicroExecutor { data_latch: r.y, ..s })
            &&& spec_prepare_store(r, Mnemonic::Phy, s) == (r, MicroExecutor { data_latch: r.y, ..s })
            &&& spec_prepare_store(r, Mnemonic::Stz, s) == (r, MicroExecutor { data_latch: 0, ..s })
            &&& spec_prepare_store(r, Mnemonic::Sax, s) == (r, MicroExecutor {
                data_latch: r.a & r.x,
                ..s
            })
            &&& spec_prepare_store(r, Mnemonic::Php, s).1.data_latch & !psr::B_6502 == r.p
                & !psr::B_6502
            &&& spec_prepare_store(r, Mnemonic::Php, s).1.data_latch & psr::B_6502 != 0
        },
        s.memory_action == crate::isa::MemoryAction::ReadModifyWrite ==> forall|op: Mnemonic|
            #[trigger] spec_prepare_store(r, op, s) == (r, MicroExecutor { data_latch: s.op0, ..s }),
{
    reveal(spec_prepare_store);
    let p = r.p;
    assert((p | 0x10u8) & !0x10u8 == p & !0x10u8 && (p | 0x10u8) & 0x10u8 != 0) by (bit_vector);
}

/// The second operand fetch of an absolute mode: the byte at PC goes to the high byte of EA.
proof fn lemma_abs_high_cycle<F: Flavor>(ex: MicroExecutor, ctx: MicroCtx6502<F>, q: Seq<MicroCycle>, d: u8)
    requires
        q.len() > 0,
        q[0] == MicroCycle::read(Latch::Pc, Latch::EaHi, true),
        ex.ea < 256,
    ensures
        spec_cycle_address(ex, ctx, q) == ctx.regs.pc as u32,
        spec_cycle(ex, ctx, q, d).0.ea == ex.ea + 256 * d,
        spec_cycle(ex, ctx, q, d).0.memory_action == ex.memory_action,
        spec_cycle(ex, ctx, q, d).1.regs.pc == (ctx.regs.pc + 1) % 0x10000,
        spec_cycle(ex, ctx, q, d).1.regs.x == ctx.regs.x,
        spec_cycle(ex, ctx, q, d).1.regs.y == ctx.regs.y,
        spec_cycle(ex, ctx, q, d).2 == q.drop_first(),
{
    reveal(spec_cycle);
    let ea = ex.ea;
    let d32 = d as u32;
    assert(ea < 256 && d32 < 256 ==> (ea & !0xFF00u32) | (d32 << 8u32) == ea + 256 * d32) by (bit_vector);
}

/// An indexed absolute cycle runs as: the indexing work before the access, the read into
/// Op0, then either the fixed address taken into EA or, for a read that stayed in its page,
/// the end of the instruction.
#[verifier::spinoff_prover]
proof fn lemma_fix_cycle_steps<F: Flavor>(
    ex: MicroExecutor,
    ctx: MicroCtx6502<F>,
    q: Seq<MicroCycle>,
    d: u8,
    off: OffsetType,
)
    requires
        q.len() > 0,
        q[0] == MicroCycle::offset_opt_fix(off),
        ex.memory_action == crate::isa::MemoryAction::Read,
    ensures
        ({
            let pre = crate::isa::op::spec_offset_pre(ex, ctx, off);
            let c = spec_cycle(ex, ctx, q, d);
            &&& spec_cycle_address(ex, ctx, q) == pre.0.ea
            &&& pre.1 matches Some(a) ==> c.0.ea == a && c.2 == q.drop_first()
            &&& pre.1 is None ==> c.0.op0 == d && c.2.len() == 0
        }),
{
    reveal(spec_cycle);
}

/// Indexing a base address below `$10000`: within the page the access is at once at base +
/// index; across it, the fixed address base + index comes after a dummy access.
proof fn lemma_offset_pre_read<F: Flavor>(ex: MicroExecutor, ctx: MicroCtx6502<F>, off: OffsetType)
    requires
        off != OffsetType::NoOffset,
        ex.ea < 0x10000,
        ex.memory_action == crate::isa::MemoryAction::Read,
    ensures
        ({
            let idx: int = if off == OffsetType::X {
                ctx.regs.x as int
            } else {
                ctx.regs.y as int
            };
            let pre = crate::isa::op::spec_offset_pre(ex, ctx, off);
            &&& ex.ea % 256 + idx < 256 ==> pre.1 is None && pre.0.ea == ex.ea + idx
            &&& ex.ea % 256 + idx >= 256 ==> pre.1 == Some((ex.ea + idx) as u32)
        }),
{
    let idx: u16 = index_of(ctx, off);
    lemma_same_page(ex.ea, idx as u32);
}

/// An index added to the low byte of an address below `$10000` without carrying: the address
/// plus the index within the page, or that less `$100` when the low byte overflowed.
proof fn lemma_same_page(ea: u32, i: u32)
    requires
        ea < 0x10000,
        i < 256,
    ensures
        ((ea & !0xFFu32) | ((((ea % 256) + (i % 256)) % 256) as u32)) == (if ea % 256 + i < 256 {
            ea + i
        } else {
            ea + i - 256
        }),
{
    let low: u32 = (((ea % 256) + (i % 256)) % 256) as u32;
    assert(ea < 0x10000 && i < 256 && low == (ea % 256 + i) % 256 ==> ((ea & !0xFFu32) | low) == (
    if ea % 256 + i < 256 {
        ea + i
    } else {
        ea + i - 256
    })) by (bit_vector);
}

/// The index cycle of a reading absolute indexed mode, EA holding the base address.
proof fn lemma_abs_index_cycle<F: Flavor>(
    ex: MicroExecutor,
    ctx: MicroCtx6502<F>,
    q: Seq<MicroCycle>,
    d: u8,
    off: OffsetType,
)
    requires
        q.len() > 0,
        q[0] == MicroCycle::offset_opt_fix(off),
        off != OffsetType::NoOffset,
        ex.ea < 0x10000,
        ex.memory_action == crate::isa::MemoryAction::Read,
    ensures
        ({
            let idx: int = if off == OffsetType::X {
                ctx.regs.x as int
            } else {
                ctx.regs.y as int
            };
            let target = ex.ea + idx;
            let c = spec_cycle(ex, ctx, q, d);
            &&& ex.ea % 256 + idx < 256 ==> spec_cycle_address(ex, ctx, q) == target && c.0.op0 == d
                && c.2.len() == 0
            &&& ex.ea % 256 + idx >= 256 ==> c.0.ea == target && c.2 == q.drop_first()
        }),
{
    lemma_fix_cycle_steps(ex, ctx, q, d, off);
    lemma_offset_pre_read(ex, ctx, off);
}

/// Absolute indexed reads take the extra cycle only across a page. For a reading `abs,X` or
/// `abs,Y` instruction on an 8-bit core, starting from fresh latches with the operand bytes
/// `lo` and `hi`: EA becomes the base `lo + 256 * hi`. When adding the index does not leave
/// the base's page, the third cycle reads the operand at base + index and the instruction
/// ends there; when it does, the third cycle is a dummy access, EA becomes base + index, and
/// one more cycle reads the operand there.
pub proof fn lemma_absolute_indexed_read<F: Flavor>(
    regs: Registers,
    inst: Instruction,
    opcode: u8,
    dctx: DecodeContext,
    off: OffsetType,
    lo: u8,
    hi: u8,
    d: u8,
)
    requires
        off != OffsetType::NoOffset,
        inst.memory_action == crate::isa::MemoryAction::Read,
        dctx.action == crate::isa::MemoryAction::Read,
    ensures
        ({
            let ctx = MicroCtx6502::<F>::of(regs, inst, opcode);
            let ex = MicroExecutor { memory_action: inst.memory_action, ..fresh_executor() };
            let q = mode_cycles::<F::Micro>(AddressMode::Absolute(off), dctx);
            let index: int = if off == OffsetType::X {
                regs.x as int
            } else {
                regs.y as int
            };
            let c1 = spec_cycle(ex, ctx, q, lo);
            let c2 = spec_cycle(c1.0, c1.1, c1.2, hi);
            let c3 = spec_cycle(c2.0, c2.1, c2.2, d);
            let base = lo + 256 * hi;
            &&& c2.0.ea == base
            &&& lo + index < 256 ==> spec_cycle_address(c2.0, c2.1, c2.2) == base + index && c3.0.op0 == d
                && c3.2.len() == 0
            &&& lo + index >= 256 ==> c3.0.ea == base + index && c3.2 == seq![
                MicroCycle::read(Latch::Ea, Latch::Op0, false),
            ]
        }),
{
    let ctx = MicroCtx6502::<F>::of(regs, inst, opcode);
    let ex = MicroExecutor { memory_action: inst.memory_action, ..fresh_executor() };
    let q = mode_cycles::<F::Micro>(AddressMode::Absolute(off), dctx);
    assert(q[0] == MicroCycle::read(Latch::Pc, Latch::EaLo, true));
    lemma_dp_operand_cycle(ex, ctx, q, lo);
    let c1 = spec_cycle(ex, ctx, q, lo);
    lemma_cycle_keeps_read(ex, ctx, q, lo);
    assert(c1.2[0] == MicroCycle::read(Latch::Pc, Latch::EaHi, true));
    lemma_abs_high_cycle(c1.0, c1.1, c1.2, hi);
    let c2 = spec_cycle(c1.0, c1.1, c1.2, hi);
    assert(c2.2 == q.drop_first().drop_first());
    assert(c2.2[0] == MicroCycle::offset_opt_fix(off));
    lemma_abs_index_cycle(c2.0, c2.1, c2.2, d, off);
    assert(c2.2.drop_first() =~= seq![MicroCycle::read(Latch::Ea, Latch::Op0, false)]);
}

/// The operand fetch keeps the memory action.
proof fn lemma_cycle_keeps_read<F: Flavor>(ex: MicroExecutor, ctx: MicroCtx6502<F>, q: Seq<MicroCycle>, d: u8)
    requires
        q.len() > 0,
        q[0] == MicroCycle::read(Latch::Pc, Latch::EaLo, true),
    ensures
        spec_cycle(ex, ctx, q, d).0.memory_action == ex.memory_action,
{
    reveal(spec_cycle);
}

/// A plain read cycle (no work before or after the access): the address comes from the
/// cycle's latch, the byte read goes to its destination latch, and the source steps on when
/// the cycle says so.
#[verifier::spinoff_prover]
proof fn lemma_plain_read_cycle<F: Flavor>(ex: MicroExecutor, ctx: MicroCtx6502<F>, q: Seq<MicroCycle>, d: u8)
    requires
        q.len() > 0,
        q[0].bus.read,
        q[0].alu == crate::isa::microcycle::AluOp::Idle,
    ensures
        spec_cycle_address(ex, ctx, q) == crate::isa::op::spec_address_of(ex, q[0].bus.addr, ctx),
        spec_cycle(ex, ctx, q, d) == ({
            let w = crate::isa::op::spec_write_latch(
                MicroExecutor { data_latch: d, ..ex },
                ctx,
                q[0].local_latch,
                d,
            );
            let st = if q[0].inc_src {
                spec_add_offset(w.0, w.1, q[0].bus.addr, 1)
            } else {
                w
            };
            (st.0, st.1, q.drop_first())
        }),
{
    reveal(spec_cycle);
}

/// Page-zero byte arithmetic of the pointer latch.
proof fn lemma_ptr_bytes(z: u8, x: u8, p: u16)
    ensures
        crate::isa::op::with_low_byte(0, z) == z as u16,
        p < 256 ==> crate::isa::op::add_within_page(p, x as u16) == (p + x) % 256,
        p < 256 ==> crate::isa::op::add_within_page(p, 1) == (p + 1) % 256,
        p < 256 ==> p % 256 == p,
{
    let z16 = z as u16;
    assert((0u16 & 0xFF00u16) | z16 == z16) by (bit_vector);
    let lowx: u16 = (((p % 256) + ((x as u16) % 256)) % 256) as u16;
    let low1: u16 = (((p % 256) + (1u16 % 256)) % 256) as u16;
    assert({
        &&& p < 256 ==> p & 0xFF00u16 == 0
        &&& p < 256 && lowx < 256 ==> (0u16 | lowx) == lowx
        &&& p < 256 && low1 < 256 ==> (0u16 | low1) == low1
    }) by (bit_vector);
}

/// EA assembled from two bytes read into its low and then its high half, from `$007F`.
proof fn lemma_ea_bytes(l: u8, h: u8)
    ensures
        (0x7Fu32 & !0xFFu32) | (l as u32) == l as u32,
        ((l as u32) & !0xFF00u32) | ((h as u32) << 8u32) == l + 256 * h,
{
    let l32 = l as u32;
    let h32 = h as u32;
    assert((0x7Fu32 & !0xFFu32) | l32 == l32) by (bit_vector)
        requires
            l32 < 256,
    ;
    assert((l32 & !0xFF00u32) | (h32 << 8u32) == l32 + 256 * h32) by (bit_vector)
        requires
            l32 < 256,
            h32 < 256,
    ;
}

/// Pre-indexed indirect addressing `(zp,X)` stays in page zero: starting from fresh latches,
/// after the operand byte `z` is read at PC and a dummy read at `z`, the pointer is
/// (z + X) mod 256; the low byte of the address is read there and the high byte at the next
/// page-zero address, wrapping from `$FF` to `$00`; EA is then `lo + 256 * hi`, where the
/// operand access takes place.
#[verifier::spinoff_prover]
#[verifier::rlimit(50)]
pub proof fn lemma_dp_indirect_x<F: Flavor>(
    regs: Registers,
    inst: Instruction,
    opcode: u8,
    dctx: DecodeContext,
    z: u8,
    dummy: u8,
    lo: u8,
    hi: u8,
)
    ensures
        ({
            let ctx = MicroCtx6502::<F>::of(regs, inst, opcode);
            let ex = MicroExecutor { memory_action: inst.memory_action, ..fresh_executor() };
            let q = mode_cycles::<F::Micro>(AddressMode::DpIndirect(OffsetType::X), dctx);
            let c1 = spec_cycle(ex, ctx, q, z);
            let c2 = spec_cycle(c1.0, c1.1, c1.2, dummy);
            let c3 = spec_cycle(c2.0, c2.1, c2.2, lo);
            let c4 = spec_cycle(c3.0, c3.1, c3.2, hi);
            &&& spec_cycle_address(ex, ctx, q) == regs.pc as u32
            &&& spec_cycle_address(c1.0, c1.1, c1.2) == z as u32
            &&& spec_cycle_address(c2.0, c2.1, c2.2) == (z + regs.x) % 256
            &&& spec_cycle_address(c3.0, c3.1, c3.2) == (z + regs.x + 1) % 256
            &&& c4.0.ea == lo + 256 * hi
            &&& c4.2.len() > 0
            &&& c4.2[0].bus.addr == Latch::Ea
        }),
{
    let ctx = MicroCtx6502::<F>::of(regs, inst, opcode);
    let ex = MicroExecutor { memory_action: inst.memory_action, ..fresh_executor() };
    let q = mode_cycles::<F::Micro>(AddressMode::DpIndirect(OffsetType::X), dctx);
    lemma_ea_bytes(lo, hi);
    // operand byte into the pointer
    assert(q[0] == MicroCycle::read(Latch::Pc, Latch::PtrLo, true));
    lemma_plain_read_cycle(ex, ctx, q, z);
    lemma_ptr_bytes(z, regs.x, z as u16);
    let c1 = spec_cycle(ex, ctx, q, z);
    assert(c1.0.ptr == z as u16);
    assert(c1.1.regs.x == regs.x);
    // dummy read at the pointer, then X added within page zero
    assert(c1.2[0] == MicroCycle::read_and_offset(Latch::PtrLo, OffsetType::X));
    lemma_ptr_index_cycle(c1.0, c1.1, c1.2, dummy);
    let c2 = spec_cycle(c1.0, c1.1, c1.2, dummy);
    let p2 = ((z + regs.x) % 256) as u16;
    assert(c2.0.ptr == p2);
    // low byte of the address
    assert(c2.2[0] == MicroCycle::read(Latch::PtrLo, Latch::EaLo, true));
    lemma_plain_read_cycle(c2.0, c2.1, c2.2, lo);
    lemma_ptr_bytes(z, regs.x, p2);
    let c3 = spec_cycle(c2.0, c2.1, c2.2, lo);
    assert(c3.0.ptr == (p2 + 1) % 256);
    assert(c3.0.ea == lo as u32);
    // high byte of the address
    assert(c3.2[0] == MicroCycle::read(Latch::PtrLo, Latch::EaHi, false));
    lemma_plain_read_cycle(c3.0, c3.1, c3.2, hi);
    let c4 = spec_cycle(c3.0, c3.1, c3.2, hi);
    assert(c4.2 == q.drop_first().drop_first().drop_first().drop_first());
    assert(c4.2[0] == q[4]);
}

/// The index cycle of `(zp,X)`: a dummy read at the pointer, then X added to the pointer
/// within page zero.
#[verifier::spinoff_prover]
proof fn lemma_ptr_index_cycle<F: Flavor>(ex: MicroExecutor, ctx: MicroCtx6502<F>, q: Seq<MicroCycle>, d: u8)
    requires
        q.len() > 0,
        q[0] == MicroCycle::read_and_offset(Latch::PtrLo, OffsetType::X),
        ex.ptr < 256,
    ensures
        spec_cycle_address(ex, ctx, q) == ex.ptr as u32,
        spec_cycle(ex, ctx, q, d).0.ptr == (ex.ptr + ctx.regs.x) % 256,
        spec_cycle(ex, ctx, q, d).0.ea == ex.ea,
        spec_cycle(ex, ctx, q, d).1.regs.x == ctx.regs.x,
        spec_cycle(ex, ctx, q, d).2 == q.drop_first(),
{
    reveal(spec_cycle);
    lemma_ptr_bytes(0, ctx.regs.x, ex.ptr);
}

/// Post-indexed indirect reads `(zp),Y`: starting from fresh latches, after the operand byte
/// `z` is read at PC, the low byte of the base address is read at `z` and its high byte at
/// the next page-zero address, wrapping from `$FF` to `$00`; EA is then the base
/// `lo + 256 * hi`. Adding Y within the base's page, the next cycle reads the operand at
/// base + Y and the instruction ends; across the page, that cycle is a dummy access, EA
/// becomes base + Y, and one more cycle reads the operand there.
#[verifier::spinoff_prover]
#[verifier::rlimit(50)]
pub proof fn lemma_dp_indirect_y_read<F: Flavor>(
    regs: Registers,
    inst: Instruction,
    opcode: u8,
    dctx: DecodeContext,
    z: u8,
    lo: u8,
    hi: u8,
    d: u8,
)
    requires
        inst.memory_action == crate::isa::MemoryAction::Read,
        dctx.action == crate::isa::MemoryAction::Read,
    ensures
        ({
            let ctx = MicroCtx6502::<F>::of(regs, inst, opcode);
            let ex = MicroExecutor { memory_action: inst.memory_action, ..fresh_executor() };
            let q = mode_cycles::<F::Micro>(AddressMode::DpIndirect(OffsetType::Y), dctx);
            let c1 = spec_cycle(ex, ctx, q, z);
            let c2 = spec_cycle(c1.0, c1.1, c1.2, lo);
            let c3 = spec_cycle(c2.0, c2.1, c2.2, hi);
            let c4 = spec_cycle(c3.0, c3.1, c3.2, d);
            let base = lo + 256 * hi;
            &&& spec_cycle_address(ex, ctx, q) == regs.pc as u32
            &&& spec_cycle_address(c1.0, c1.1, c1.2) == z as u32
            &&& spec_cycle_address(c2.0, c2.1, c2.2) == (z + 1) % 256
            &&& c3.0.ea == base
            &&& lo + regs.y < 256 ==> spec_cycle_address(c3.0, c3.1, c3.2) == base + regs.y
                && c4.0.op0 == d && c4.2.len() == 0
            &&& lo + regs.y >= 256 ==> c4.0.ea == base + regs.y && c4.2 == seq![
                MicroCycle::read(Latch::Ea, Latch::Op0, false),
            ]
        }),
{
    let ctx = MicroCtx6502::<F>::of(regs, inst, opcode);
    let ex = MicroExecutor { memory_action: inst.memory_action, ..fresh_executor() };
    let q = mode_cycles::<F::Micro>(AddressMode::DpIndirect(OffsetType::Y), dctx);
    lemma_ea_bytes(lo, hi);
    assert(q[0] == MicroCycle::read(Latch::Pc, Latch::PtrLo, true));
    lemma_plain_read_cycle(ex, ctx, q, z);
    lemma_ptr_bytes(z, 0, z as u16);
    let c1 = spec_cycle(ex, ctx, q, z);
    assert(c1.0.ptr == z as u16);
    assert(c1.2[0] == MicroCycle::read(Latch::PtrLo, Latch::EaLo, true));
    lemma_plain_read_cycle(c1.0, c1.1, c1.2, lo);
    let c2 = spec_cycle(c1.0, c1.1, c1.2, lo);
    assert(c2.0.ptr == (z + 1) % 256);
    assert(c2.0.ea == lo as u32);
    assert(c2.2[0] == MicroCycle::read(Latch::PtrLo, Latch::EaHi, false));
    lemma_plain_read_cycle(c2.0, c2.1, c2.2, hi);
    let c3 = spec_cycle(c2.0, c2.1, c2.2, hi);
    assert(c3.0.ea == lo + 256 * hi);
    assert(c3.1.regs.y == regs.y);
    assert(c3.0.memory_action == inst.memory_action);
    assert(c3.2 == q.drop_first().drop_first().drop_first());
    assert(c3.2[0] == MicroCycle::offset_opt_fix(OffsetType::Y));
    lemma_abs_index_cycle(c3.0, c3.1, c3.2, d, OffsetType::Y);
    assert(c3.2.drop_first() =~= seq![MicroCycle::read(Latch::Ea, Latch::Op0, false)]);
}

/// The conditional branches each test one flag: BCC/BCS on C, BNE/BEQ on Z, BPL/BMI on N,
/// BVC/BVS on V, the first of each pair branching when the flag is clear and the second when
/// it is set; BRA always branches.
pub proof fn lemma_branch_conditions(p: u8, opcode: u8, v: u8)
    ensures
        spec_branch_taken(p, Mnemonic::Bcc, opcode, v) == !carry_set(p),
        spec_branch_taken(p, Mnemonic::Bcs, opcode, v) == carry_set(p),
        spec_branch_taken(p, Mnemonic::Bne, opcode, v) == (p & psr::Z == 0),
        spec_branch_taken(p, Mnemonic::Beq, opcode, v) == (p & psr::Z != 0),
        spec_branch_taken(p, Mnemonic::Bpl, opcode, v) == (p & psr::N == 0),
        spec_branch_taken(p, Mnemonic::Bmi, opcode, v) == (p & psr::N != 0),
        spec_branch_taken(p, Mnemonic::Bvc, opcode, v) == (p & psr::V == 0),
        spec_branch_taken(p, Mnemonic::Bvs, opcode, v) == (p & psr::V != 0),
        spec_branch_taken(p, Mnemonic::Bra, opcode, v),
{
}

/// BBRn and BBSn (opcodes `$n F` for n below 8, and `$(n+8)F`) test bit n of the byte read
/// from the direct page: BBRn branches exactly when that bit is clear, BBSn exactly when it
/// is set.
pub proof fn lemma_bit_branch_conditions(p: u8, n: u8, v: u8)
    requires
        n < 8,
    ensures
        spec_branch_taken(p, spec_decode(OpcodeTable::Cmos, (16 * n + 15) as u8).mnemonic, (16 * n + 15) as u8, v)
            == ((v >> n) & 1 == 0),
        spec_branch_taken(p, spec_decode(OpcodeTable::Cmos, (16 * n + 0x8F) as u8).mnemonic, (16 * n + 0x8F) as u8, v)
            == ((v >> n) & 1 == 1),
{
    assert((v & (1u8 << n) != 0) == ((v >> n) & 1 == 1) && (v & (1u8 << n) == 0) == ((v >> n) & 1
        == 0)) by (bit_vector)
        requires
            n < 8,
    ;
    reveal(cmos_entry);
    if n == 0 {
    } else if n == 1 {
    } else if n == 2 {
    } else if n == 3 {
    } else if n == 4 {
    } else if n == 5 {
    } else if n == 6 {
    } else {
    }
}

/// A taken branch lands on PC + offset modulo `$10000`, PC being the address after the offset
/// byte and the offset signed: its last added cycle sets PC there. Within the page that is
/// the only added cycle; across a page, a first cycle sets PC to the target's low byte in
/// the old page (BBR/BBS instead read PC again), and then the high byte is fixed.
pub proof fn lemma_branch_lands_on_target(pc: u16, offset: i8, opcode: u8)
    ensures
        ({
            let b = crate::isa::op::branch_cycles(pc, offset, opcode);
            let t = (pc + offset) % 0x10000;
            &&& b.len() > 0
            &&& b.last() == MicroCycle::read_pc_set_pc(t as u16)
            &&& t / 256 == pc / 256 ==> b.len() == 1
            &&& t / 256 != pc / 256 ==> b.len() == 2 && b[0] == (if opcode % 16 == 15 {
                MicroCycle::read(Latch::Pc, Latch::Discard, false)
            } else {
                MicroCycle::read_pc_set_pc((pc / 256 * 256 + t % 256) as u16)
            })
        }),
{
    let t = crate::isa::op::branch_target(pc, offset);
    assert(t == (pc + offset) % 0x10000);
    assert((((pc & 0xFF00u16) | (t & 0xFFu16)) != t) == (pc / 256 != t / 256) && (pc & 0xFF00u16)
        | (t & 0xFFu16) == pc / 256 * 256 + t % 256) by (bit_vector);
}

/// Pushes write to page one and then step S down: for PHA, PHX, PHY and PHP, after a dummy
/// read at PC, the byte (A, X, Y, or P with B set) is written at `$0100 + S`, S becomes
/// S - 1 modulo 256, and the instruction ends. Pulls step S up first: after a dummy read at
/// PC and one at `$0100 + S`, S becomes S + 1 modulo 256 and the byte is read from
/// `$0100 + S` with that new S, which ends the instruction.
#[verifier::spinoff_prover]
#[verifier::rlimit(40)]
pub proof fn lemma_stack_push_pull<F: Flavor>(
    regs: Registers,
    inst: Instruction,
    opcode: u8,
    dctx: DecodeContext,
    d0: u8,
    d1: u8,
    d: u8,
)
    requires
        inst.memory_action == dctx.action,
        dctx.action != crate::isa::MemoryAction::ReadModifyWrite,
        dctx.action == crate::isa::MemoryAction::Write ==> inst.mnemonic == Mnemonic::Pha
            || inst.mnemonic == Mnemonic::Phx || inst.mnemonic == Mnemonic::Phy || inst.mnemonic
            == Mnemonic::Php,
    ensures
        ({
            let ctx = MicroCtx6502::<F>::of(regs, inst, opcode);
            let ex = MicroExecutor { memory_action: inst.memory_action, ..fresh_executor() };
            let q = mode_cycles::<F::Micro>(AddressMode::Stack, dctx);
            let c1 = spec_cycle(ex, ctx, q, d0);
            let c2 = spec_cycle(c1.0, c1.1, c1.2, d1);
            let c3 = spec_cycle(c2.0, c2.1, c2.2, d);
            let w = spec_at_access(c1.0, c1.1, c1.2).0.data_latch;
            &&& spec_cycle_address(ex, ctx, q) == regs.pc as u32
            &&& c1.1.regs.pc == regs.pc
            &&& spec_cycle_address(c1.0, c1.1, c1.2) == 0x100 + regs.s
            &&& dctx.action == crate::isa::MemoryAction::Write ==> {
                &&& !c1.2[0].bus.read
                &&& inst.mnemonic == Mnemonic::Pha ==> w == regs.a
                &&& inst.mnemonic == Mnemonic::Phx ==> w == regs.x
                &&& inst.mnemonic == Mnemonic::Phy ==> w == regs.y
                &&& inst.mnemonic == Mnemonic::Php ==> w & !psr::B_6502 == regs.p & !psr::B_6502
                    && w & psr::B_6502 != 0
                &&& c2.1.regs.s == (regs.s + 255) % 256
                &&& c2.2.len() == 0
            }
            &&& dctx.action == crate::isa::MemoryAction::Read ==> {
                &&& c2.1.regs.s == (regs.s + 1) % 256
                &&& spec_cycle_address(c2.0, c2.1, c2.2) == 0x100 + (regs.s + 1) % 256
                &&& c3.0.op0 == d
                &&& c3.1.regs.s == (regs.s + 1) % 256
                &&& c3.2.len() == 0
            }
        }),
{
    reveal(spec_cycle);
    let ctx = MicroCtx6502::<F>::of(regs, inst, opcode);
    let ex = MicroExecutor { memory_action: inst.memory_action, ..fresh_executor() };
    let q = mode_cycles::<F::Micro>(AddressMode::Stack, dctx);
    let c1 = spec_cycle(ex, ctx, q, d0);
    assert(c1.1 == ctx);
    assert(c1.2 == q.drop_first());
    lemma_store_values(regs, c1.0);
    if dctx.action == crate::isa::MemoryAction::Write {
        assert(c1.2 =~= seq![MicroCycle::alu_push()]);
        assert(c1.0.memory_action == crate::isa::MemoryAction::Write);
        reveal(spec_prepare_store);
    } else {
        assert(c1.2 =~= seq![
            MicroCycle::read(Latch::Sp, Latch::Discard, true),
            MicroCycle::read(Latch::Sp, Latch::Op0, false),
        ]);
        let c2 = spec_cycle(c1.0, c1.1, c1.2, d1);
        assert(c2.2 =~= seq![MicroCycle::read(Latch::Sp, Latch::Op0, false)]);
        assert(c2.1.regs.s == (regs.s + 1) % 256);
    }
}

/// Byte assembly of the pointer and PC latches: a byte into the low half and then one into
/// the high half give `lo + 256 * hi`; stepping the low half of such a pointer stays in its
/// page.
proof fn lemma_word_bytes(v: u16, w: u16, l: u8, h: u8)
    ensures
        crate::isa::op::with_high_byte(crate::isa::op::with_low_byte(v, l), h) == l + 256 * h,
        w == l + 256 * h ==> crate::isa::op::add_within_page(w, 1) == 256 * h + (l + 1) % 256,
{
    let l16 = l as u16;
    let h16 = h as u16;
    let s1: u16 = (((l16 % 256) + (1u16 % 256)) % 256) as u16;
    assert({
        &&& ((((v & 0xFF00u16) | l16) & 0x00FFu16) | (h16 << 8u16)) == l16 + 256 * h16
        &&& w == l16 + 256 * h16 && s1 < 256 ==> (w & 0xFF00u16) | s1 == 256 * h16 + s1
    }) by (bit_vector)
        requires
            l16 < 256,
            h16 < 256,
    ;
}

/// JMP (abs) on the NMOS microcode jumps to the address stored at the pointer
/// `lo + 256 * hi` that follows the opcode, low byte first, and reads the high byte from the
/// pointer's own page: after the low byte at the pointer, the high byte comes from
/// `256 * hi + (lo + 1) mod 256`, so a pointer at `$xxFF` takes its high byte from `$xx00`.
#[verifier::spinoff_prover]
#[verifier::rlimit(50)]
pub proof fn lemma_jmp_indirect_nmos<F: Flavor>(
    regs: Registers,
    inst: Instruction,
    opcode: u8,
    dctx: DecodeContext,
    lo: u8,
    hi: u8,
    a: u8,
    b: u8,
)
    ensures
        ({
            let ctx = MicroCtx6502::<F>::of(regs, inst, opcode);
            let ex = MicroExecutor { memory_action: inst.memory_action, ..fresh_executor() };
            let q = mode_cycles::<Micro6502>(AddressMode::Jump(JumpType::JmpIndirect), dctx);
            let c1 = spec_cycle(ex, ctx, q, lo);
            let c2 = spec_cycle(c1.0, c1.1, c1.2, hi);
            let c3 = spec_cycle(c2.0, c2.1, c2.2, a);
            let c4 = spec_cycle(c3.0, c3.1, c3.2, b);
            &&& spec_cycle_address(ex, ctx, q) == regs.pc as u32
            &&& spec_cycle_address(c2.0, c2.1, c2.2) == lo + 256 * hi
            &&& spec_cycle_address(c3.0, c3.1, c3.2) == 256 * hi + (lo + 1) % 256
            &&& c4.1.regs.pc == a + 256 * b
            &&& c4.2.len() == 0
        }),
{
    reveal(spec_cycle);
    let ctx = MicroCtx6502::<F>::of(regs, inst, opcode);
    let ex = MicroExecutor { memory_action: inst.memory_action, ..fresh_executor() };
    let q = mode_cycles::<Micro6502>(AddressMode::Jump(JumpType::JmpIndirect), dctx);
    assert(q == crate::cpu6502::flavor::jmpind_nmos_cycles());
    lemma_word_bytes(0, (lo + 256 * hi) as u16, lo, hi);
    let c1 = spec_cycle(ex, ctx, q, lo);
    assert(c1.2 == q.drop_first());
    let c2 = spec_cycle(c1.0, c1.1, c1.2, hi);
    assert(c2.2 == q.drop_first().drop_first());
    assert(c2.0.ptr == lo + 256 * hi);
    let c3 = spec_cycle(c2.0, c2.1, c2.2, a);
    assert(c3.2 =~= seq![q[3]]);
    lemma_word_bytes(c2.1.regs.pc, 0, a, b);
    let c4 = spec_cycle(c3.0, c3.1, c3.2, b);
    assert(c4.2 =~= Seq::<MicroCycle>::empty());
}

/// JMP (abs) and JMP (abs,X) on the 65C02 microcode jump to the address stored at the
/// pointer that follows the opcode, moved by X for the indexed form (modulo `$10000`): after
/// one internal cycle, the low byte is read at the pointer and the high byte at pointer + 1,
/// carrying into the next page.
#[verifier::spinoff_prover]
#[verifier::rlimit(50)]
pub proof fn lemma_jmp_indirect_cmos<F: Flavor>(
    regs: Registers,
    inst: Instruction,
    opcode: u8,
    dctx: DecodeContext,
    indexed: bool,
    lo: u8,
    hi: u8,
    dummy: u8,
    a: u8,
    b: u8,
)
    ensures
        ({
            let ctx = MicroCtx6502::<F>::of(regs, inst, opcode);
            let ex = MicroExecutor { memory_action: inst.memory_action, ..fresh_executor() };
            let mode = if indexed {
                AddressMode::Jump(JumpType::JmpIndirectX)
            } else {
                AddressMode::Jump(JumpType::JmpIndirect)
            };
            let q = mode_cycles::<Micro65C02>(mode, dctx);
            let c1 = spec_cycle(ex, ctx, q, lo);
            let c2 = spec_cycle(c1.0, c1.1, c1.2, hi);
            let c3 = spec_cycle(c2.0, c2.1, c2.2, dummy);
            let c4 = spec_cycle(c3.0, c3.1, c3.2, a);
            let c5 = spec_cycle(c4.0, c4.1, c4.2, b);
            let ptr = (lo + 256 * hi + (if indexed { regs.x as int } else { 0 })) % 0x10000;
            &&& spec_cycle_address(ex, ctx, q) == regs.pc as u32
            &&& spec_cycle_address(c3.0, c3.1, c3.2) == ptr
            &&& spec_cycle_address(c4.0, c4.1, c4.2) == (ptr + 1) % 0x10000
            &&& c5.1.regs.pc == a + 256 * b
            &&& c5.2.len() == 0
        }),
{
    reveal(spec_cycle);
    let ctx = MicroCtx6502::<F>::of(regs, inst, opcode);
    let ex = MicroExecutor { memory_action: inst.memory_action, ..fresh_executor() };
    let off = if indexed { OffsetType::X } else { OffsetType::NoOffset };
    let mode = if indexed {
        AddressMode::Jump(JumpType::JmpIndirectX)
    } else {
        AddressMode::Jump(JumpType::JmpIndirect)
    };
    let q = mode_cycles::<Micro65C02>(mode, dctx);
    assert(q == crate::cpu6502::flavor::jmpind_cmos_cycles(off));
    lemma_word_bytes(0, (lo + 256 * hi) as u16, lo, hi);
    let c1 = spec_cycle(ex, ctx, q, lo);
    assert(c1.2 == q.drop_first());
    let c2 = spec_cycle(c1.0, c1.1, c1.2, hi);
    assert(c2.2 == q.drop_first().drop_first());
    assert(c2.0.ptr == lo + 256 * hi);
    assert(c2.1.regs.x == regs.x);
    let c3 = spec_cycle(c2.0, c2.1, c2.2, dummy);
    assert(c3.2 == q.drop_first().drop_first().drop_first());
    let c4 = spec_cycle(c3.0, c3.1, c3.2, a);
    assert(c4.2 =~= seq![q[4]]);
    lemma_word_bytes(c3.1.regs.pc, 0, a, b);
    let c5 = spec_cycle(c4.0, c4.1, c4.2, b);
    assert(c5.2 =~= Seq::<MicroCycle>::empty());
}

/// JSR pushes the address of its own last byte and jumps: with PC at the first operand byte
/// `lo` (read there), after a dummy read at `$0100 + S`, the high byte of PC + 1 is written at
/// `$0100 + S` and its low byte at `$0100 + (S - 1) mod 256`; the target's high byte `hi` is
/// read at PC + 1, PC becomes `lo + 256 * hi` and S has gone down by two (modulo 256). The
/// 65C02 microcode runs the same cycles.
#[verifier::spinoff_prover]
#[verifier::rlimit(50)]
pub proof fn lemma_jsr_pushes_return_address<F: Flavor>(
    regs: Registers,
    inst: Instruction,
    opcode: u8,
    dctx: DecodeContext,
    lo: u8,
    dummy: u8,
    hi: u8,
)
    requires
        inst.mnemonic == Mnemonic::Jsr,
        inst.memory_action != crate::isa::MemoryAction::ReadModifyWrite,
    ensures
        ({
            let ctx = MicroCtx6502::<F>::of(regs, inst, opcode);
            let ex = MicroExecutor { memory_action: inst.memory_action, ..fresh_executor() };
            let q = mode_cycles::<Micro6502>(AddressMode::Jump(JumpType::ToSubroutine), dctx);
            let ret = (regs.pc + 1) % 0x10000;
            let c1 = spec_cycle(ex, ctx, q, lo);
            let c2 = spec_cycle(c1.0, c1.1, c1.2, dummy);
            let c3 = spec_cycle(c2.0, c2.1, c2.2, 0);
            let c4 = spec_cycle(c3.0, c3.1, c3.2, 0);
            let c5 = spec_cycle(c4.0, c4.1, c4.2, hi);
            &&& spec_cycle_address(ex, ctx, q) == regs.pc as u32
            &&& spec_cycle_address(c1.0, c1.1, c1.2) == 0x100 + regs.s
            &&& spec_cycle_address(c2.0, c2.1, c2.2) == 0x100 + regs.s
            &&& !c2.2[0].bus.read && c3.0.data_latch == ret / 256
            &&& spec_cycle_address(c3.0, c3.1, c3.2) == 0x100 + (regs.s + 255) % 256
            &&& !c3.2[0].bus.read && c4.0.data_latch == ret % 256
            &&& spec_cycle_address(c4.0, c4.1, c4.2) == ret
            &&& c5.1.regs.pc == lo + 256 * hi
            &&& c5.1.regs.s == (regs.s + 254) % 256
            &&& c5.2.len() == 0
            &&& mode_cycles::<Micro65C02>(AddressMode::Jump(JumpType::ToSubroutine), dctx) == q
        }),
{
    let ctx = MicroCtx6502::<F>::of(regs, inst, opcode);
    let ex = MicroExecutor { memory_action: inst.memory_action, ..fresh_executor() };
    let q = mode_cycles::<Micro6502>(AddressMode::Jump(JumpType::ToSubroutine), dctx);
    assert(q == crate::cpu6502::flavor::jsr_8bit_cycles());
    lemma_plain_read_cycle(ex, ctx, q, lo);
    lemma_ea_bytes(lo, hi);
    let c1 = spec_cycle(ex, ctx, q, lo);
    assert(c1.2 == q.drop_first());
    assert(c1.1.regs.pc == (regs.pc + 1) % 0x10000);
    assert(c1.1.regs.s == regs.s);
    assert(c1.0.ea == lo);
    lemma_plain_read_cycle(c1.0, c1.1, c1.2, dummy);
    let c2 = spec_cycle(c1.0, c1.1, c1.2, dummy);
    assert(c2.2 == q.drop_first().drop_first());
    assert(c2.1 == c1.1);
    lemma_push_keeps(c2.0, c2.1);
    lemma_push_cycle(c2.0, c2.1, c2.2, 0, Latch::PcHi);
    let c3 = spec_cycle(c2.0, c2.1, c2.2, 0);
    assert(c3.2 == q.drop_first().drop_first().drop_first());
    assert(c3.1.regs.s == (regs.s + 255) % 256);
    lemma_push_keeps(c3.0, c3.1);
    lemma_push_cycle(c3.0, c3.1, c3.2, 0, Latch::PcLo);
    let c4 = spec_cycle(c3.0, c3.1, c3.2, 0);
    assert(c4.2 =~= seq![q[4]]);
    assert(c4.0.ea == lo);
    lemma_swap_cycle(c4.0, c4.1, c4.2, hi);
    let c5 = spec_cycle(c4.0, c4.1, c4.2, hi);
    assert(c5.2 =~= Seq::<MicroCycle>::empty());
}

/// JSR and BRK prepare no store: their pushes leave the registers and latches as they are.
proof fn lemma_push_keeps<F: Flavor>(ex: MicroExecutor, ctx: MicroCtx6502<F>)
    requires
        ctx.instruction.mnemonic == Mnemonic::Jsr || ctx.instruction.mnemonic == Mnemonic::Brk,
        ex.memory_action != crate::isa::MemoryAction::ReadModifyWrite,
    ensures
        spec_prepare_store(ctx.regs, ctx.instruction.mnemonic, ex) == (ctx.regs, ex),
{
    reveal(spec_prepare_store);
}

/// A push cycle writes the byte of its latch at `$0100 + S` and then steps S down.
#[verifier::spinoff_prover]
proof fn lemma_push_cycle<F: Flavor>(ex: MicroExecutor, ctx: MicroCtx6502<F>, q: Seq<MicroCycle>, d: u8, latch: Latch)
    requires
        q.len() > 0,
        q[0] == MicroCycle::push(latch),
        latch != Latch::Discard,
        spec_prepare_store(ctx.regs, ctx.instruction.mnemonic, ex) == (ctx.regs, ex),
    ensures
        spec_cycle_address(ex, ctx, q) == 0x100 + ctx.regs.s,
        spec_cycle(ex, ctx, q, d) == (
            MicroExecutor { data_latch: crate::isa::op::spec_read_latch(ex, ctx, latch), ..ex },
            MicroCtx6502 { regs: Registers { s: ((ctx.regs.s + 255) % 256) as u8, ..ctx.regs }, ..ctx },
            q.drop_first(),
        ),
{
    reveal(spec_cycle);
}

/// The last cycle of JSR: the byte at PC goes to the high half of EA, then EA and PC swap.
#[verifier::spinoff_prover]
proof fn lemma_swap_cycle<F: Flavor>(ex: MicroExecutor, ctx: MicroCtx6502<F>, q: Seq<MicroCycle>, d: u8)
    requires
        q.len() > 0,
        q[0] == MicroCycle::fetch_with(Latch::EaHi, false, crate::isa::microcycle::AluOp::SwapEaPc),
    ensures
        spec_cycle_address(ex, ctx, q) == ctx.regs.pc as u32,
        spec_cycle(ex, ctx, q, d).1.regs.pc == (((ex.ea & !0xFF00u32) | ((d as u32) << 8u32)) % 0x10000) as u16,
        spec_cycle(ex, ctx, q, d).1.regs.s == ctx.regs.s,
        spec_cycle(ex, ctx, q, d).2 == q.drop_first(),
{
    reveal(spec_cycle);
}

/// RTS returns to the byte after the address it pulls: after a dummy read at PC and one at
/// `$0100 + S`, the low byte `l` is read at `$0100 + (S + 1) mod 256` and the high byte `h`
/// at `$0100 + (S + 2) mod 256`; PC becomes `l + 256 * h`, a dummy read there steps it on,
/// so PC ends at `(l + 256 * h + 1) mod $10000`, and S has gone up by two (modulo 256). The
/// 65C02 microcode runs the same cycles.
#[verifier::spinoff_prover]
#[verifier::rlimit(50)]
pub proof fn lemma_rts_pulls_return_address<F: Flavor>(
    regs: Registers,
    inst: Instruction,
    opcode: u8,
    dctx: DecodeContext,
    d0: u8,
    d1: u8,
    l: u8,
    h: u8,
    d4: u8,
)
    ensures
        ({
            let ctx = MicroCtx6502::<F>::of(regs, inst, opcode);
            let ex = MicroExecutor { memory_action: inst.memory_action, ..fresh_executor() };
            let q = mode_cycles::<Micro6502>(AddressMode::Jump(JumpType::FromSubroutine), dctx);
            let c1 = spec_cycle(ex, ctx, q, d0);
            let c2 = spec_cycle(c1.0, c1.1, c1.2, d1);
            let c3 = spec_cycle(c2.0, c2.1, c2.2, l);
            let c4 = spec_cycle(c3.0, c3.1, c3.2, h);
            let c5 = spec_cycle(c4.0, c4.1, c4.2, d4);
            &&& spec_cycle_address(ex, ctx, q) == regs.pc as u32
            &&& spec_cycle_address(c1.0, c1.1, c1.2) == 0x100 + regs.s
            &&& spec_cycle_address(c2.0, c2.1, c2.2) == 0x100 + (regs.s + 1) % 256
            &&& spec_cycle_address(c3.0, c3.1, c3.2) == 0x100 + (regs.s + 2) % 256
            &&& spec_cycle_address(c4.0, c4.1, c4.2) == l + 256 * h
            &&& c5.1.regs.pc == (l + 256 * h + 1) % 0x10000
            &&& c5.1.regs.s == (regs.s + 2) % 256
            &&& c5.2.len() == 0
            &&& mode_cycles::<Micro65C02>(AddressMode::Jump(JumpType::FromSubroutine), dctx) == q
        }),
{
    let ctx = MicroCtx6502::<F>::of(regs, inst, opcode);
    let ex = MicroExecutor { memory_action: inst.memory_action, ..fresh_executor() };
    let q = mode_cycles::<Micro6502>(AddressMode::Jump(JumpType::FromSubroutine), dctx);
    assert(q == crate::cpu6502::flavor::rts_8bit_cycles());
    lemma_plain_read_cycle(ex, ctx, q, d0);
    let c1 = spec_cycle(ex, ctx, q, d0);
    assert(c1.2 == q.drop_first());
    assert(c1.1 == ctx);
    lemma_plain_read_cycle(c1.0, c1.1, c1.2, d1);
    let c2 = spec_cycle(c1.0, c1.1, c1.2, d1);
    assert(c2.2 == q.drop_first().drop_first());
    assert(c2.1.regs.s == (regs.s + 1) % 256);
    lemma_plain_read_cycle(c2.0, c2.1, c2.2, l);
    let c3 = spec_cycle(c2.0, c2.1, c2.2, l);
    assert(c3.2 == q.drop_first().drop_first().drop_first());
    assert(c3.1.regs.s == (regs.s + 2) % 256);
    lemma_plain_read_cycle(c3.0, c3.1, c3.2, h);
    let c4 = spec_cycle(c3.0, c3.1, c3.2, h);
    assert(c4.2 =~= seq![q[4]]);
    lemma_word_bytes(regs.pc, 0, l, h);
    assert(c4.1.regs.pc == l + 256 * h);
    lemma_plain_read_cycle(c4.0, c4.1, c4.2, d4);
    let c5 = spec_cycle(c4.0, c4.1, c4.2, d4);
    assert(c5.2 =~= Seq::<MicroCycle>::empty());
}

/// BRK skips its signature byte and pushes the address after it, then the status with B
/// set: after a read at PC, the high and low bytes of PC + 1 are written at `$0100 + S` and
/// `$0100 + (S - 1) mod 256`, and P with B and the unused bit set at
/// `$0100 + (S - 2) mod 256`; the new PC is read from `$FFFE` (low byte) and `$FFFF` (high
/// byte), and S has gone down by three (modulo 256).
#[verifier::spinoff_prover]
#[verifier::rlimit(50)]
pub proof fn lemma_brk_pushes_and_vectors<F: Flavor>(
    regs: Registers,
    inst: Instruction,
    opcode: u8,
    dctx: DecodeContext,
    sig: u8,
    l: u8,
    h: u8,
)
    requires
        inst.mnemonic == Mnemonic::Brk,
        inst.memory_action != crate::isa::MemoryAction::ReadModifyWrite,
    ensures
        ({
            let ctx = MicroCtx6502::<F>::of(regs, inst, opcode);
            let ex = MicroExecutor { memory_action: inst.memory_action, ..fresh_executor() };
            let q = mode_cycles::<F::Micro>(AddressMode::Jump(JumpType::ToInterrupt), dctx);
            let ret = (regs.pc + 1) % 0x10000;
            let c1 = spec_cycle(ex, ctx, q, sig);
            let c2 = spec_cycle(c1.0, c1.1, c1.2, 0);
            let c3 = spec_cycle(c2.0, c2.1, c2.2, 0);
            let c4 = spec_cycle(c3.0, c3.1, c3.2, 0);
            let c5 = spec_cycle(c4.0, c4.1, c4.2, l);
            let c6 = spec_cycle(c5.0, c5.1, c5.2, h);
            &&& spec_cycle_address(ex, ctx, q) == regs.pc as u32
            &&& spec_cycle_address(c1.0, c1.1, c1.2) == 0x100 + regs.s
            &&& c2.0.data_latch == ret / 256
            &&& spec_cycle_address(c2.0, c2.1, c2.2) == 0x100 + (regs.s + 255) % 256
            &&& c3.0.data_latch == ret % 256
            &&& spec_cycle_address(c3.0, c3.1, c3.2) == 0x100 + (regs.s + 254) % 256
            &&& c4.0.data_latch == regs.p | psr::B_6502 | psr::U_6502
            &&& spec_cycle_address(c4.0, c4.1, c4.2) == 0xFFFE
            &&& spec_cycle_address(c5.0, c5.1, c5.2) == 0xFFFF
            &&& c6.1.regs.pc == l + 256 * h
            &&& c6.1.regs.s == (regs.s + 253) % 256
            &&& c6.2.len() == 0
        }),
{
    let ctx = MicroCtx6502::<F>::of(regs, inst, opcode);
    let ex = MicroExecutor { memory_action: inst.memory_action, ..fresh_executor() };
    let q = mode_cycles::<F::Micro>(AddressMode::Jump(JumpType::ToInterrupt), dctx);
    assert(q == crate::isa::microcycle::brk_cycles());
    lemma_plain_read_cycle(ex, ctx, q, sig);
    let c1 = spec_cycle(ex, ctx, q, sig);
    assert(c1.2 == q.drop_first());
    assert(c1.1.regs.pc == (regs.pc + 1) % 0x10000);
    assert(c1.1.regs.s == regs.s);
    lemma_push_keeps(c1.0, c1.1);
    lemma_push_cycle(c1.0, c1.1, c1.2, 0, Latch::PcHi);
    let c2 = spec_cycle(c1.0, c1.1, c1.2, 0);
    assert(c2.2 == q.drop_first().drop_first());
    lemma_push_keeps(c2.0, c2.1);
    lemma_push_cycle(c2.0, c2.1, c2.2, 0, Latch::PcLo);
    let c3 = spec_cycle(c2.0, c2.1, c2.2, 0);
    assert(c3.2 == q.drop_first().drop_first().drop_first());
    lemma_push_keeps(c3.0, c3.1);
    lemma_push_cycle(c3.0, c3.1, c3.2, 0, Latch::BrkStatus);
    let c4 = spec_cycle(c3.0, c3.1, c3.2, 0);
    assert(c4.2 =~= seq![q[4], q[5]]);
    lemma_plain_read_cycle(c4.0, c4.1, c4.2, l);
    let c5 = spec_cycle(c4.0, c4.1, c4.2, l);
    assert(c5.2 =~= seq![q[5]]);
    lemma_plain_read_cycle(c5.0, c5.1, c5.2, h);
    lemma_word_bytes(c4.1.regs.pc, 0, l, h);
    let c6 = spec_cycle(c5.0, c5.1, c5.2, h);
    assert(c6.2 =~= Seq::<MicroCycle>::empty());
}

/// RTI pulls the status and then the address it returns to, without stepping it on: after
/// a dummy read at PC and one at `$0100 + S`, P is read at `$0100 + (S + 1) mod 256` (B
/// cleared, the unused bit set), the low byte of PC at `$0100 + (S + 2) mod 256` and its high
/// byte at `$0100 + (S + 3) mod 256`; PC ends at `l + 256 * h` and S has gone up by three.
#[verifier::spinoff_prover]
#[verifier::rlimit(50)]
pub proof fn lemma_rti_pulls_status_and_address<F: Flavor>(
    regs: Registers,
    inst: Instruction,
    opcode: u8,
    dctx: DecodeContext,
    d0: u8,
    d1: u8,
    p: u8,
    l: u8,
    h: u8,
)
    ensures
        ({
            let ctx = MicroCtx6502::<F>::of(regs, inst, opcode);
            let ex = MicroExecutor { memory_action: inst.memory_action, ..fresh_executor() };
            let q = mode_cycles::<F::Micro>(AddressMode::Jump(JumpType::FromInterrupt), dctx);
            let c1 = spec_cycle(ex, ctx, q, d0);
            let c2 = spec_cycle(c1.0, c1.1, c1.2, d1);
            let c3 = spec_cycle(c2.0, c2.1, c2.2, p);
            let c4 = spec_cycle(c3.0, c3.1, c3.2, l);
            let c5 = spec_cycle(c4.0, c4.1, c4.2, h);
            &&& spec_cycle_address(ex, ctx, q) == regs.pc as u32
            &&& spec_cycle_address(c1.0, c1.1, c1.2) == 0x100 + regs.s
            &&& spec_cycle_address(c2.0, c2.1, c2.2) == 0x100 + (regs.s + 1) % 256
            &&& spec_cycle_address(c3.0, c3.1, c3.2) == 0x100 + (regs.s + 2) % 256
            &&& spec_cycle_address(c4.0, c4.1, c4.2) == 0x100 + (regs.s + 3) % 256
            &&& c5.1.regs.p == (p | psr::U_6502) & !psr::B_6502
            &&& c5.1.regs.pc == l + 256 * h
            &&& c5.1.regs.s == (regs.s + 3) % 256
            &&& c5.2.len() == 0
        }),
{
    let ctx = MicroCtx6502::<F>::of(regs, inst, opcode);
    let ex = MicroExecutor { memory_action: inst.memory_action, ..fresh_executor() };
    let q = mode_cycles::<F::Micro>(AddressMode::Jump(JumpType::FromInterrupt), dctx);
    assert(q == crate::isa::microcycle::rti_cycles());
    lemma_plain_read_cycle(ex, ctx, q, d0);
    let c1 = spec_cycle(ex, ctx, q, d0);
    assert(c1.2 == q.drop_first());
    assert(c1.1 == ctx);
    lemma_plain_read_cycle(c1.0, c1.1, c1.2, d1);
    let c2 = spec_cycle(c1.0, c1.1, c1.2, d1);
    assert(c2.2 == q.drop_first().drop_first());
    lemma_plain_read_cycle(c2.0, c2.1, c2.2, p);
    let c3 = spec_cycle(c2.0, c2.1, c2.2, p);
    assert(c3.2 == q.drop_first().drop_first().drop_first());
    lemma_plain_read_cycle(c3.0, c3.1, c3.2, l);
    let c4 = spec_cycle(c3.0, c3.1, c3.2, l);
    assert(c4.2 =~= seq![q[4]]);
    lemma_plain_read_cycle(c4.0, c4.1, c4.2, h);
    lemma_word_bytes(c3.1.regs.pc, 0, l, h);
    let c5 = spec_cycle(c4.0, c4.1, c4.2, h);
    assert(c5.2 =~= Seq::<MicroCycle>::empty());
}

/// The undocumented NMOS operand instructions. ANC sets A to A AND M with C copying bit 7 of
/// the result; ALR halves A AND M, C taking the bit shifted out; SBX sets X to (A AND X) - M
/// modulo 256 with C set when no borrow was needed; LAS sets A, X and S to M AND S; LXA sets A
/// and X to (A OR `$EE`) AND M; ANE sets A to (A OR `$EE`) AND X AND M. Z and N describe the
/// new register value; every other register and flag is kept.
pub proof fn lemma_undocumented_read_results(r: Registers, v: u8, sem: DecimalSemantics)
    ensures
        ({
            let q = spec_finish_read(r, Mnemonic::Anc, v, sem).0;
            q.a == r.a & v && nzc_from(r.p, q.p, q.a, q.a >= 0x80) && keeps_all_but_a(r, q)
        }),
        ({
            let q = spec_finish_read(r, Mnemonic::Alr, v, sem).0;
            q.a == (r.a & v) / 2 && nzc_from(r.p, q.p, q.a, (r.a & v) % 2 == 1) && keeps_all_but_a(
                r,
                q,
            )
        }),
        ({
            let q = spec_finish_read(r, Mnemonic::Sbx, v, sem).0;
            let t = r.a & r.x;
            q.x == (t + 256 - v) % 256 && nzc_from(r.p, q.p, q.x, t >= v) && keeps_all_but_x(r, q)
        }),
        ({
            let q = spec_finish_read(r, Mnemonic::Las, v, sem).0;
            &&& q.a == v & r.s && q.x == q.a && q.s == q.a
            &&& zn_from(r.p, q.p, q.a)
            &&& q.y == r.y && q.pc == r.pc
        }),
        ({
            let q = spec_finish_read(r, Mnemonic::Lxa, v, sem).0;
            &&& q.a == (r.a | 0xEE) & v && q.x == q.a
            &&& zn_from(r.p, q.p, q.a)
            &&& q.y == r.y && q.s == r.s && q.pc == r.pc
        }),
        ({
            let q = spec_finish_read(r, Mnemonic::Ane, v, sem).0;
            q.a == (r.a | 0xEE) & r.x & v && zn_from(r.p, q.p, q.a) && keeps_all_but_a(r, q)
        }),
{
    reveal(spec_finish_read);
    let t = r.a & v;
    lemma_zn_then_carry(r.p, t, t & 0x80 != 0);
    assert((t & 0x80 != 0) == (t >= 0x80)) by (bit_vector);
    let q1 = spec_set_zn8(r.p, t);
    lemma_set_zn8(r.p, t);
    lemma_shift_flags(q1, t / 2, t % 2 == 1);
    lemma_nzc_over_zn(r.p, q1, crate::cpu6502::ops::lsr_op(t, q1).1, t / 2, t % 2 == 1);
    lemma_compare(r.a & r.x, v, r.p);
    lemma_set_zn8(r.p, v & r.s);
    lemma_set_zn8(r.p, (r.a | 0xEE) & v);
    lemma_set_zn8(r.p, (r.a | 0xEE) & r.x & v);
}

/// The indexing cycle of an absolute indexed write: always a dummy read, after which EA
/// holds the full address.
#[verifier::spinoff_prover]
proof fn lemma_fix_cycle_write<F: Flavor>(
    ex: MicroExecutor,
    ctx: MicroCtx6502<F>,
    q: Seq<MicroCycle>,
    d: u8,
    off: OffsetType,
)
    requires
        q.len() > 0,
        q[0] == MicroCycle::offset_opt_fix(off),
        ex.memory_action == crate::isa::MemoryAction::Write,
    ensures
        ({
            let pre = crate::isa::op::spec_offset_pre(ex, ctx, off);
            let c = spec_cycle(ex, ctx, q, d);
            &&& pre.1 is Some
            &&& spec_cycle_address(ex, ctx, q) == pre.0.ea
            &&& pre.1 matches Some(a) && c.0.ea == a
            &&& c.2 == q.drop_first()
            &&& c.0.memory_action == ex.memory_action
        }),
{
    reveal(spec_cycle);
}

/// Absolute indexed writes always take the extra cycle. For a writing `abs,X` or `abs,Y`
/// instruction on an 8-bit core, starting from fresh latches with the operand bytes `lo` and
/// `hi`: the third cycle is a dummy read, on the NMOS parts at the base's page with the
/// index added to the low byte without carry, on the 65C02 parts at the last operand byte
/// (PC - 1, taken modulo 2^32 as bus addresses are); EA then becomes base + index, page
/// crossing or not, and the next and last cycle writes there.
#[verifier::spinoff_prover]
#[verifier::rlimit(50)]
pub proof fn lemma_absolute_indexed_write<F: Flavor>(
    regs: Registers,
    inst: Instruction,
    opcode: u8,
    dctx: DecodeContext,
    off: OffsetType,
    lo: u8,
    hi: u8,
    d: u8,
)
    requires
        off != OffsetType::NoOffset,
        inst.memory_action == crate::isa::MemoryAction::Write,
        dctx.action == crate::isa::MemoryAction::Write,
    ensures
        ({
            let ctx = MicroCtx6502::<F>::of(regs, inst, opcode);
            let ex = MicroExecutor { memory_action: inst.memory_action, ..fresh_executor() };
            let q = mode_cycles::<F::Micro>(AddressMode::Absolute(off), dctx);
            let index: int = if off == OffsetType::X {
                regs.x as int
            } else {
                regs.y as int
            };
            let c1 = spec_cycle(ex, ctx, q, lo);
            let c2 = spec_cycle(c1.0, c1.1, c1.2, hi);
            let c3 = spec_cycle(c2.0, c2.1, c2.2, d);
            let base = lo + 256 * hi;
            &&& c2.0.ea == base
            &&& F::spec_invalid_addr_read() ==> spec_cycle_address(c2.0, c2.1, c2.2) == 256 * hi
                + (lo + index) % 256
            &&& !F::spec_invalid_addr_read() ==> spec_cycle_address(c2.0, c2.1, c2.2) == ((regs.pc
                + 2) % 0x10000 - 1) % 0x1_0000_0000
            &&& c3.0.ea == base + index
            &&& c3.2 == seq![MicroCycle::alu_write()]
        }),
{
    let ctx = MicroCtx6502::<F>::of(regs, inst, opcode);
    let ex = MicroExecutor { memory_action: inst.memory_action, ..fresh_executor() };
    let q = mode_cycles::<F::Micro>(AddressMode::Absolute(off), dctx);
    assert(q[0] == MicroCycle::read(Latch::Pc, Latch::EaLo, true));
    lemma_dp_operand_cycle(ex, ctx, q, lo);
    let c1 = spec_cycle(ex, ctx, q, lo);
    lemma_cycle_keeps_read(ex, ctx, q, lo);
    assert(c1.2[0] == MicroCycle::read(Latch::Pc, Latch::EaHi, true));
    lemma_abs_high_cycle(c1.0, c1.1, c1.2, hi);
    let c2 = spec_cycle(c1.0, c1.1, c1.2, hi);
    assert(c2.2 == q.drop_first().drop_first());
    assert(c2.2[0] == MicroCycle::offset_opt_fix(off));
    assert(c2.1.regs.pc == (regs.pc + 2) % 0x10000);
    lemma_fix_cycle_write(c2.0, c2.1, c2.2, d, off);
    let idx: u16 = index_of(c2.1, off);
    lemma_same_page(c2.0.ea, idx as u32);
    assert((lo + 256 * hi) % 256 == lo);
    assert(c2.2.drop_first() =~= seq![MicroCycle::alu_write()]);
}

/// Where the unstable stores write: the indexed address `bl + 256 * bh + i`, except that
/// when indexing crossed a page, the stored value `v` takes the place of the high byte.
pub open spec fn unstable_store_address(bl: u8, bh: u8, i: u8, v: u8) -> u32 {
    if bl + i >= 256 {
        (v * 256 + (bl + i - 256)) as u32
    } else {
        (bl + 256 * bh + i) as u32
    }
}

/// The "high byte + 1" rule of the unstable stores, on the address EA = base + index with
/// base `bl + 256 * bh` and index `i`: the value is the operand AND-ed with `bh + 1` (modulo
/// 256), and it goes to the address of [`unstable_store_address`].
proof fn lemma_h_plus_one(bl: u8, bh: u8, i: u8, a: u8, reg: u8)
    ensures
        crate::cpu6502::ops::h_plus_one((bl + 256 * bh + i) as u32, a, i, reg) == ({
            let v = a & reg & (((bh + 1) % 256) as u8);
            (unstable_store_address(bl, bh, i, v), v)
        }),
{
    let ea = bl + 256 * bh + i;
    if bl + i < 256 {
        vstd::arithmetic::div_mod::lemma_fundamental_div_mod_converse(ea, 256, bh as int, bl + i);
    } else {
        vstd::arithmetic::div_mod::lemma_fundamental_div_mod_converse(
            ea,
            256,
            bh + 1,
            bl + i - 256,
        );
    }
}

/// The unstable NMOS stores of an indexed address EA = base + index, with base
/// `bl + 256 * bh`: SHA writes A AND X AND (bh + 1), indexed by Y; TAS writes the same and
/// sets S to A AND X; SHX writes X AND (bh + 1), indexed by Y; SHY writes Y AND (bh + 1),
/// indexed by X. When indexing crossed a page, the value written also replaces the high byte
/// of the address written to. The value goes to the data latch; no other register changes.
pub proof fn lemma_unstable_stores(r: Registers, s: MicroExecutor, bl: u8, bh: u8)
    requires
        s.memory_action == crate::isa::MemoryAction::Write,
    ensures
        s.ea == bl + 256 * bh + r.y ==> ({
            let v = r.a & r.x & (((bh + 1) % 256) as u8);
            &&& spec_prepare_store(r, Mnemonic::Sha, s) == (r, MicroExecutor {
                ea: unstable_store_address(bl, bh, r.y, v),
                data_latch: v,
                ..s
            })
            &&& spec_prepare_store(r, Mnemonic::Tas, s) == (Registers { s: r.a & r.x, ..r }, MicroExecutor {
                ea: unstable_store_address(bl, bh, r.y, v),
                data_latch: v,
                ..s
            })
        }),
        s.ea == bl + 256 * bh + r.y ==> ({
            let v = r.x & (((bh + 1) % 256) as u8);
            spec_prepare_store(r, Mnemonic::Shx, s) == (r, MicroExecutor {
                ea: unstable_store_address(bl, bh, r.y, v),
                data_latch: v,
                ..s
            })
        }),
        s.ea == bl + 256 * bh + r.x ==> ({
            let v = r.y & (((bh + 1) % 256) as u8);
            spec_prepare_store(r, Mnemonic::Shy, s) == (r, MicroExecutor {
                ea: unstable_store_address(bl, bh, r.x, v),
                data_latch: v,
                ..s
            })
        }),
{
    reveal(spec_prepare_store);
    lemma_h_plus_one(bl, bh, r.y, r.a, r.x);
    lemma_h_plus_one(bl, bh, r.y, 0xFF, r.x);
    lemma_h_plus_one(bl, bh, r.x, 0xFF, r.y);
    let h = ((bh + 1) % 256) as u8;
    let x = r.x;
    let y = r.y;
    assert(0xFFu8 & x & h == x & h && 0xFFu8 & y & h == y & h) by (bit_vector);
}

/// Binary ARR (D clear, or a part without NMOS decimal mode): A becomes A AND M rotated right
/// through the carry; Z and N describe the new A, C copies its bit 6 and V is bit 6 XOR bit 5
/// of it; every other flag and register is kept.
pub proof fn lemma_arr_binary(r: Registers, v: u8, sem: DecimalSemantics)
    requires
        r.p & psr::D == 0 || sem != DecimalSemantics::Nmos6502,
    ensures
        ({
            let q = spec_finish_read(r, Mnemonic::Arr, v, sem).0;
            let res = ((r.a & v) / 2 + (if carry_set(r.p) { 0x80int } else { 0 })) as u8;
            &&& q.a == res
            &&& (q.p & psr::Z != 0) == (res == 0)
            &&& (q.p & psr::N != 0) == (res >= 0x80)
            &&& (q.p & psr::C != 0) == (res & 0x40 != 0)
            &&& (q.p & psr::V != 0) == ((res & 0x40 != 0) != (res & 0x20 != 0))
            &&& q.p & !(psr::N | psr::V | psr::Z | psr::C) == r.p & !(psr::N | psr::V | psr::Z
                | psr::C)
            &&& keeps_all_but_a(r, q)
        }),
{
    reveal(spec_finish_read);
    let t = r.a & v;
    let rot = crate::cpu6502::ops::ror_op(t, r.p);
    lemma_shift_flags(r.p, rot.0, t % 2 == 1);
    let res = rot.0;
    let p = r.p;
    let q1 = rot.1;
    assert(q1 & !(0x80u8 | 2u8 | 1u8) == p & !(0x80u8 | 2u8 | 1u8) ==> {
        let c = res & 0x40u8 != 0;
        let ov = ((res >> 6u8) ^ (res >> 5u8)) & 1u8 != 0;
        let q2 = if c { q1 | 1u8 } else { q1 & !1u8 };
        let q3 = if ov { q2 | 0x40u8 } else { q2 & !0x40u8 };
        &&& (q3 & 2u8 != 0) == (q1 & 2u8 != 0)
        &&& (q3 & 0x80u8 != 0) == (q1 & 0x80u8 != 0)
        &&& (q3 & 1u8 != 0) == c
        &&& (q3 & 0x40u8 != 0) == ov
        &&& ov == ((res & 0x40u8 != 0) != (res & 0x20u8 != 0))
        &&& q3 & !(0x80u8 | 0x40u8 | 2u8 | 1u8) == p & !(0x80u8 | 0x40u8 | 2u8 | 1u8)
    }) by (bit_vector);
}

/// The unindexed memory modes take their address from the operand bytes: immediate reads its
/// operand at PC into Op0 and steps PC on; direct page reads the byte `z` at PC and accesses
/// `z` in page zero next; absolute reads `lo` and `hi` at PC and PC + 1 and accesses
/// `lo + 256 * hi` next.
#[verifier::spinoff_prover]
pub proof fn lemma_unindexed_operands<F: Flavor>(
    regs: Registers,
    inst: Instruction,
    opcode: u8,
    dctx: DecodeContext,
    lo: u8,
    hi: u8,
)
    ensures
        ({
            let ctx = MicroCtx6502::<F>::of(regs, inst, opcode);
            let ex = MicroExecutor { memory_action: inst.memory_action, ..fresh_executor() };
            let q = mode_cycles::<F::Micro>(AddressMode::NoMemory(crate::isa::NoMemType::Immediate), dctx);
            let c1 = spec_cycle(ex, ctx, q, lo);
            &&& spec_cycle_address(ex, ctx, q) == regs.pc as u32
            &&& c1.0.op0 == lo
            &&& c1.1.regs.pc == (regs.pc + 1) % 0x10000
            &&& c1.2.len() == 0
        }),
        ({
            let ctx = MicroCtx6502::<F>::of(regs, inst, opcode);
            let ex = MicroExecutor { memory_action: inst.memory_action, ..fresh_executor() };
            let q = mode_cycles::<F::Micro>(AddressMode::DirectPage(OffsetType::NoOffset), dctx);
            let c1 = spec_cycle(ex, ctx, q, lo);
            &&& spec_cycle_address(ex, ctx, q) == regs.pc as u32
            &&& c1.0.ea == lo as u32
            &&& c1.2.len() > 0
            &&& c1.2[0].bus.addr == Latch::Ea
        }),
        ({
            let ctx = MicroCtx6502::<F>::of(regs, inst, opcode);
            let ex = MicroExecutor { memory_action: inst.memory_action, ..fresh_executor() };
            let q = mode_cycles::<F::Micro>(AddressMode::Absolute(OffsetType::NoOffset), dctx);
            let c1 = spec_cycle(ex, ctx, q, lo);
            let c2 = spec_cycle(c1.0, c1.1, c1.2, hi);
            &&& spec_cycle_address(ex, ctx, q) == regs.pc as u32
            &&& spec_cycle_address(c1.0, c1.1, c1.2) == (regs.pc + 1) % 0x10000
            &&& c2.0.ea == lo + 256 * hi
            &&& c2.2.len() > 0
            &&& c2.2[0].bus.addr == Latch::Ea
        }),
{
    let ctx = MicroCtx6502::<F>::of(regs, inst, opcode);
    let ex = MicroExecutor { memory_action: inst.memory_action, ..fresh_executor() };
    let qi = mode_cycles::<F::Micro>(AddressMode::NoMemory(crate::isa::NoMemType::Immediate), dctx);
    lemma_plain_read_cycle(ex, ctx, qi, lo);
    assert(spec_cycle(ex, ctx, qi, lo).2 =~= Seq::<MicroCycle>::empty());
    let qd = mode_cycles::<F::Micro>(AddressMode::DirectPage(OffsetType::NoOffset), dctx);
    lemma_dp_operand_cycle(ex, ctx, qd, lo);
    assert(spec_cycle(ex, ctx, qd, lo).2[0] == qd[1]);
    let qa = mode_cycles::<F::Micro>(AddressMode::Absolute(OffsetType::NoOffset), dctx);
    lemma_dp_operand_cycle(ex, ctx, qa, lo);
    let c1 = spec_cycle(ex, ctx, qa, lo);
    lemma_cycle_keeps_read(ex, ctx, qa, lo);
    assert(c1.2[0] == MicroCycle::read(Latch::Pc, Latch::EaHi, true));
    lemma_abs_high_cycle(c1.0, c1.1, c1.2, hi);
    let c2 = spec_cycle(c1.0, c1.1, c1.2, hi);
    assert(c2.2 == qa.drop_first().drop_first());
    assert(c2.2[0] == qa[2]);
}

/// The last cycles of a read-modify-write instruction, EA known: the operand `v` is read at
/// EA; the modify cycle accesses EA again, on the NMOS parts as a dummy write of the unmodified
/// `v` and on the 65C02 parts as a dummy read, and leaves the modified byte in Op0; the last
/// cycle writes that byte at EA, and the instruction ends.
#[verifier::spinoff_prover]
#[verifier::rlimit(50)]
pub proof fn lemma_read_modify_write_cycles<F: Flavor>(
    ex: MicroExecutor,
    ctx: MicroCtx6502<F>,
    dctx: DecodeContext,
    v: u8,
    d: u8,
)
    requires
        ex.memory_action == crate::isa::MemoryAction::ReadModifyWrite,
        dctx.action == crate::isa::MemoryAction::ReadModifyWrite,
        dctx.modify_read == !F::spec_rmw_dummy_write(),
    ensures
        ({
            let q = MicroCycle::finish_cycles(dctx);
            let c1 = spec_cycle(ex, ctx, q, v);
            let c2 = spec_cycle(c1.0, c1.1, c1.2, d);
            let c3 = spec_cycle(c2.0, c2.1, c2.2, 0);
            let m = spec_modify(ctx.regs, ctx.instruction.mnemonic, ctx.opcode, c1.0, F::spec_decimal());
            &&& spec_cycle_address(ex, ctx, q) == ex.ea && q[0].bus.read
            &&& c1.0.op0 == v
            &&& spec_cycle_address(c1.0, c1.1, c1.2) == ex.ea
            &&& c1.2[0].bus.read == !F::spec_rmw_dummy_write()
            &&& F::spec_rmw_dummy_write() ==> spec_at_access(c1.0, c1.1, c1.2).0.data_latch == v
            &&& c2.0.op0 == m.1.op0 && c2.1.regs == m.0
            &&& spec_cycle_address(c2.0, c2.1, c2.2) == ex.ea
            &&& !c2.2[0].bus.read
            &&& spec_at_access(c2.0, c2.1, c2.2).0.data_latch == m.1.op0
            &&& c3.2.len() == 0
        }),
{
    reveal(spec_cycle);
    reveal(spec_prepare_store);
    let q = MicroCycle::finish_cycles(dctx);
    let c1 = spec_cycle(ex, ctx, q, v);
    assert(c1.2 == q.drop_first());
    assert(c1.1 == ctx);
    assert(c1.0.memory_action == ex.memory_action);
    let c2 = spec_cycle(c1.0, c1.1, c1.2, d);
    assert(c2.2 =~= seq![q[2]]);
    lemma_modify_reads_only_op0(
        ctx.regs,
        ctx.instruction.mnemonic,
        ctx.opcode,
        c1.0,
        MicroExecutor { data_latch: c1.0.op0, ..c1.0 },
        F::spec_decimal(),
    );
    lemma_modify_reads_only_op0(
        ctx.regs,
        ctx.instruction.mnemonic,
        ctx.opcode,
        c1.0,
        MicroExecutor { data_latch: d, ..c1.0 },
        F::spec_decimal(),
    );
    let c3 = spec_cycle(c2.0, c2.1, c2.2, 0);
    assert(c3.2 =~= Seq::<MicroCycle>::empty());
}

/// The modify step reads only Op0 of the latches and changes only Op0 of them.
proof fn lemma_modify_reads_only_op0(
    r: Registers,
    op: Mnemonic,
    opcode: u8,
    s1: MicroExecutor,
    s2: MicroExecutor,
    sem: DecimalSemantics,
)
    requires
        s1.op0 == s2.op0,
    ensures
        spec_modify(r, op, opcode, s1, sem).0 == spec_modify(r, op, opcode, s2, sem).0,
        spec_modify(r, op, opcode, s1, sem).1.op0 == spec_modify(r, op, opcode, s2, sem).1.op0,
        spec_modify(r, op, opcode, s2, sem).1 == (MicroExecutor {
            op0: spec_modify(r, op, opcode, s2, sem).1.op0,
            ..s2
        }),
{
    reveal(spec_modify);
}

/// A hardware interrupt pushes the address of the instruction it interrupts and the status,
/// then loads its vector: after two dummy reads at PC (which stays), the high and low bytes
/// of PC are written at `$0100 + S` and `$0100 + (S - 1) mod 256`, P at
/// `$0100 + (S - 2) mod 256`; the new PC is read from `$FFFA`/`$FFFB` for NMI and from
/// `$FFFE`/`$FFFF` otherwise, and S has gone down by three (modulo 256).
#[verifier::spinoff_prover]
#[verifier::rlimit(50)]
pub proof fn lemma_interrupt_pushes_and_vectors<F: Flavor>(
    regs: Registers,
    inst: Instruction,
    opcode: u8,
    int_type: crate::isa::InterruptType,
    d0: u8,
    d1: u8,
    l: u8,
    h: u8,
)
    requires
        inst.mnemonic == Mnemonic::Brk,
        inst.memory_action != crate::isa::MemoryAction::ReadModifyWrite,
    ensures
        ({
            let ctx = MicroCtx6502::<F>::of(regs, inst, opcode);
            let ex = MicroExecutor { memory_action: inst.memory_action, ..fresh_executor() };
            let q = crate::isa::microcycle::int_cycles(int_type);
            let vector: u32 = if int_type == crate::isa::InterruptType::Nmi {
                0xFFFA
            } else {
                0xFFFE
            };
            let c1 = spec_cycle(ex, ctx, q, d0);
            let c2 = spec_cycle(c1.0, c1.1, c1.2, d1);
            let c3 = spec_cycle(c2.0, c2.1, c2.2, 0);
            let c4 = spec_cycle(c3.0, c3.1, c3.2, 0);
            let c5 = spec_cycle(c4.0, c4.1, c4.2, 0);
            let c6 = spec_cycle(c5.0, c5.1, c5.2, l);
            let c7 = spec_cycle(c6.0, c6.1, c6.2, h);
            &&& spec_cycle_address(ex, ctx, q) == regs.pc as u32
            &&& spec_cycle_address(c1.0, c1.1, c1.2) == regs.pc as u32
            &&& spec_cycle_address(c2.0, c2.1, c2.2) == 0x100 + regs.s
            &&& c3.0.data_latch == regs.pc / 256
            &&& spec_cycle_address(c3.0, c3.1, c3.2) == 0x100 + (regs.s + 255) % 256
            &&& c4.0.data_latch == regs.pc % 256
            &&& spec_cycle_address(c4.0, c4.1, c4.2) == 0x100 + (regs.s + 254) % 256
            &&& c5.0.data_latch == regs.p
            &&& spec_cycle_address(c5.0, c5.1, c5.2) == vector
            &&& spec_cycle_address(c6.0, c6.1, c6.2) == vector + 1
            &&& c7.1.regs.pc == l + 256 * h
            &&& c7.1.regs.s == (regs.s + 253) % 256
            &&& c7.2.len() == 0
        }),
{
    let ctx = MicroCtx6502::<F>::of(regs, inst, opcode);
    let ex = MicroExecutor { memory_action: inst.memory_action, ..fresh_executor() };
    let q = crate::isa::microcycle::int_cycles(int_type);
    lemma_plain_read_cycle(ex, ctx, q, d0);
    let c1 = spec_cycle(ex, ctx, q, d0);
    assert(c1.2 == q.drop_first());
    assert(c1.1 == ctx);
    lemma_plain_read_cycle(c1.0, c1.1, c1.2, d1);
    let c2 = spec_cycle(c1.0, c1.1, c1.2, d1);
    assert(c2.2 == q.drop_first().drop_first());
    assert(c2.1 == ctx);
    lemma_push_keeps(c2.0, c2.1);
    lemma_push_cycle(c2.0, c2.1, c2.2, 0, Latch::PcHi);
    let c3 = spec_cycle(c2.0, c2.1, c2.2, 0);
    assert(c3.2 == q.drop_first().drop_first().drop_first());
    lemma_push_keeps(c3.0, c3.1);
    lemma_push_cycle(c3.0, c3.1, c3.2, 0, Latch::PcLo);
    let c4 = spec_cycle(c3.0, c3.1, c3.2, 0);
    assert(c4.2 =~= seq![q[4], q[5], q[6]]);
    lemma_push_keeps(c4.0, c4.1);
    lemma_push_cycle(c4.0, c4.1, c4.2, 0, Latch::Status);
    let c5 = spec_cycle(c4.0, c4.1, c4.2, 0);
    assert(c5.2 =~= seq![q[5], q[6]]);
    lemma_plain_read_cycle(c5.0, c5.1, c5.2, l);
    let c6 = spec_cycle(c5.0, c5.1, c5.2, l);
    assert(c6.2 =~= seq![q[6]]);
    lemma_plain_read_cycle(c6.0, c6.1, c6.2, h);
    lemma_word_bytes(c5.1.regs.pc, 0, l, h);
    let c7 = spec_cycle(c6.0, c6.1, c6.2, h);
    assert(c7.2 =~= Seq::<MicroCycle>::empty());
}

} // verus!
