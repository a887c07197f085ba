//! CPU "flavor" definitions for 8‑bit 65x cores.
//!
//! This module declares a zero‑cost trait `Flavor` implemented by marker types for the
//! supported variants. The goal is to allow the hot loop to be fully monomorphized with
//! **no runtime branching** on flavor, while keeping names self‑documenting.
use vstd::prelude::*;

use crate::isa::microcycle::{
    valid_cycle, valid_cycles, AluOp, BusCycle, DecodeContext, MicroCode, MicroCycle,
    UcycQueue,
};
use crate::isa::table::OpcodeTable;
use crate::isa::{lemma_short_valid, Latch, OffsetType};

pub use crate::alu::DecimalSemantics;

verus! {

/// Compile‑time flavor contract for a 6502‑family core.
///
/// Every property is fixed per flavor, so the compiler can inline and drop the unused
/// branches.
pub trait Flavor {
    type Micro: MicroCode;

    spec fn spec_name() -> Seq<char>;

    spec fn spec_decimal() -> DecimalSemantics;

    spec fn spec_decimal_adc_immediate_read() -> u32;

    spec fn spec_jmp_indirect_wrap_bug() -> bool;

    spec fn spec_invalid_addr_read() -> bool;

    spec fn spec_rmw_dummy_write() -> bool;

    spec fn spec_opcode_table() -> OpcodeTable;

    /// Human‑readable name for logs and asserts.
    fn name() -> (r: &'static str)
        ensures
            r@ == Self::spec_name(),
    ;

    /// Decimal (BCD) behavior when the D flag is set.
    fn decimal() -> (r: DecimalSemantics)
        ensures
            r == Self::spec_decimal(),
    ;

    /// Address read by the extra cycle of a CMOS decimal ADC in immediate mode, as the
    /// SingleStepTests fixtures observed it on the tested chips. It models those chips; it is
    /// not an architectural guarantee.
    fn decimal_adc_immediate_read() -> (r: u32)
        ensures
            r == Self::spec_decimal_adc_immediate_read(),
    ;

    /// NMOS quirk: JMP (indirect) wraps within the page (e.g., $xxFF reads high from $xx00).
    fn jmp_indirect_wrap_bug() -> (r: bool)
        ensures
            r == Self::spec_jmp_indirect_wrap_bug(),
    ;

    /// On IndirectX and IndirectY memory accesses, when the offset causes a page cross, the NMOS
    /// does a dummy read from the invalid address (i.e. old high byte + new low byte), then correct
    /// address on the next cycle. On CMOS, we dummy read from the PC instead of the invalid address.
    fn invalid_addr_read() -> (r: bool)
        ensures
            r == Self::spec_invalid_addr_read(),
    ;

    /// Whether classic NMOS‑style dummy writes occur during RMW sequences on zero page/abs.
    /// Apparently according to Rockwell documentation CMOS chips replace the dummy write with a read instead
    fn rmw_dummy_write() -> (r: bool)
        ensures
            r == Self::spec_rmw_dummy_write(),
    ;

    /// Opcode decode table used by this flavor.
    fn opcode_table() -> (r: OpcodeTable)
        ensures
            r == Self::spec_opcode_table(),
            r.is_8bit(),
    ;
}

/// JSR on 8-bit parts. While the cycle count between the 816 and 6502 remain the same (6),
/// the cycles actually happen in a different order!
pub open spec fn jsr_8bit_cycles() -> Seq<MicroCycle> {
    seq![
        MicroCycle::read(Latch::Pc, Latch::EaLo, true),
        MicroCycle::read(Latch::Sp, Latch::Discard, false),
        MicroCycle::push(Latch::PcHi),
        MicroCycle::push(Latch::PcLo),
        MicroCycle::fetch_with(Latch::EaHi, false, AluOp::SwapEaPc),
    ]
}

/// RTS on 8-bit parts: slightly different dummy reads.
pub open spec fn rts_8bit_cycles() -> Seq<MicroCycle> {
    seq![
        MicroCycle::dummy_read(Latch::Pc),
        MicroCycle::read(Latch::Sp, Latch::Discard, true),
        MicroCycle::read(Latch::Sp, Latch::PcLo, true),
        MicroCycle::read(Latch::Sp, Latch::PcHi, false),
        MicroCycle::read(Latch::Pc, Latch::Discard, true),
    ]
}

/// The NMOS JMP (abs): the pointer's low byte steps within its page.
pub open spec fn jmpind_nmos_cycles() -> Seq<MicroCycle> {
    seq![
        MicroCycle::read(Latch::Pc, Latch::PtrLo, true),
        MicroCycle::read(Latch::Pc, Latch::PtrHi, false),
        MicroCycle {
            bus: BusCycle { addr: Latch::Ptr, vda: true, vpa: false, read: true },
            inc_src: false,
            local_latch: Latch::PcLo,
            alu: AluOp::IncLatch(Latch::PtrLo),
        },
        MicroCycle::read(Latch::Ptr, Latch::PcHi, false),
    ]
}

/// The CMOS JMP (abs) and JMP (abs,X): an internal cycle adds the index, then the pointer
/// steps across pages.
pub open spec fn jmpind_cmos_cycles(offset: OffsetType) -> Seq<MicroCycle> {
    seq![
        MicroCycle::read(Latch::Pc, Latch::PtrLo, true),
        MicroCycle::read(Latch::Pc, Latch::PtrHi, false),
        MicroCycle {
            bus: BusCycle { addr: Latch::Pc, vda: false, vpa: false, read: true },
            inc_src: false,
            local_latch: Latch::Discard,
            alu: AluOp::AddOffset { latch: Latch::Ptr, offset },
        },
        MicroCycle::read(Latch::Ptr, Latch::PcLo, true),
        MicroCycle::read(Latch::Ptr, Latch::PcHi, false),
    ]
}

proof fn lemma_8bit_cycles_valid(offset: OffsetType)
    ensures
        valid_cycles(jsr_8bit_cycles()),
        valid_cycles(rts_8bit_cycles()),
        valid_cycles(jmpind_nmos_cycles()),
        valid_cycles(jmpind_cmos_cycles(offset)),
{
    lemma_short_valid(jsr_8bit_cycles());
    lemma_short_valid(rts_8bit_cycles());
    lemma_short_valid(jmpind_nmos_cycles());
    lemma_short_valid(jmpind_cmos_cycles(offset));
}

/// While the cycle count between the 816 and 6502 remain the same (6), the cycles actually happen in a
/// different order!
fn emit_jsr_8bit(queue: &mut UcycQueue, _ctx: DecodeContext)
    requires
        old(queue).wf(),
        old(queue).room() >= jsr_8bit_cycles().len(),
    ensures
        final(queue).wf(),
        final(queue).popped() == old(queue).popped(),
        final(queue).room() == old(queue).room() - jsr_8bit_cycles().len(),
        final(queue)@ == old(queue)@ + jsr_8bit_cycles(),
{
    let ghost q0 = queue@;
    proof {
        queue.lemma_capacity();
    }
    queue.push(MicroCycle::read(Latch::Pc, Latch::EaLo, true));
    // internal op:
    queue.push(MicroCycle::read(Latch::Sp, Latch::Discard, false));
    queue.push(MicroCycle::push(Latch::PcHi));
    queue.push(MicroCycle::push(Latch::PcLo));
    queue.push(MicroCycle::fetch_with(Latch::EaHi, false, AluOp::SwapEaPc));  // ready for next opcode fetch!
    proof {
        assert(queue@ =~= q0 + jsr_8bit_cycles());
    }
}

/// Slightly different dummy reads
fn emit_rts_8bit(queue: &mut UcycQueue, _ctx: DecodeContext)
    requires
        old(queue).wf(),
        old(queue).room() >= rts_8bit_cycles().len(),
    ensures
        final(queue).wf(),
        final(queue).popped() == old(queue).popped(),
        final(queue).room() == old(queue).room() - rts_8bit_cycles().len(),
        final(queue)@ == old(queue)@ + rts_8bit_cycles(),
{
    let ghost q0 = queue@;
    proof {
        queue.lemma_capacity();
    }
    queue.push(MicroCycle::dummy_read(Latch::Pc));
    queue.push(MicroCycle::read(Latch::Sp, Latch::Discard, true));
    queue.push(MicroCycle::read(Latch::Sp, Latch::PcLo, true));
    queue.push(MicroCycle::read(Latch::Sp, Latch::PcHi, false));
    queue.push(MicroCycle::read(Latch::Pc, Latch::Discard, true));
    proof {
        assert(queue@ =~= q0 + rts_8bit_cycles());
    }
}

/// Microcode of the NMOS 6502.
pub struct Micro6502;

impl MicroCode for Micro6502 {
    open spec fn jmpind_cycles(offset: OffsetType) -> Seq<MicroCycle> {
        jmpind_nmos_cycles()
    }

    open spec fn jsr_cycles() -> Seq<MicroCycle> {
        jsr_8bit_cycles()
    }

    open spec fn rts_cycles() -> Seq<MicroCycle> {
        rts_8bit_cycles()
    }

    proof fn lemma_part_cycles_valid() {
        lemma_8bit_cycles_valid(OffsetType::NoOffset);
    }

    /// The infamous NMOS6502 JMP (IND) wraparound bug!
    ///
    /// When the low byte of the jmp pointer is on a page boundary, i.e. xxFF, the high byte
    /// is fetched from xx00, i.e., the same page as the low byte, rather than xy00.
    ///
    /// note: we don't need to deal with OffsetType as it is always None: there is no
    /// such thing as JMP (IND,X) on the NMOS6502. It was introduced on the CMOS variants
    fn emit_jmpind(queue: &mut UcycQueue, _ctx: DecodeContext, _offset: OffsetType) {
        let ghost q0 = queue@;
        proof {
            queue.lemma_capacity();
        }
        queue.push(MicroCycle::read(Latch::Pc, Latch::PtrLo, true));
        queue.push(MicroCycle::read(Latch::Pc, Latch::PtrHi, false));
        // read Ptr, but instead of automatically incrementing it (which would result in the
        // correct high byte address), we use the custom AluOp to just increment PtrLo instead:
        queue.push(
            MicroCycle {
                bus: BusCycle {
                    addr: Latch::Ptr,
                    vda: true,  // a data read
                    vpa: false,
                    read: true,
                },
                inc_src: false,  // would be 16-bit inc, because src is 16-bit Latch::Ptr
                local_latch: Latch::PcLo,
                alu: AluOp::IncLatch(Latch::PtrLo),  // wraps around on Lo byte, does not affect Hi
            },
        );
        queue.push(MicroCycle::read(Latch::Ptr, Latch::PcHi, false));
        proof {
            assert(queue@ =~= q0 + jmpind_nmos_cycles());
        }
    }

    fn emit_jsr(queue: &mut UcycQueue, ctx: DecodeContext) {
        emit_jsr_8bit(queue, ctx);
    }

    fn emit_rts(queue: &mut UcycQueue, ctx: DecodeContext) {
        emit_rts_8bit(queue, ctx);
    }
}

/// Microcode of the 65C02 family.
pub struct Micro65C02;

impl MicroCode for Micro65C02 {
    open spec fn jmpind_cycles(offset: OffsetType) -> Seq<MicroCycle> {
        jmpind_cmos_cycles(offset)
    }

    open spec fn jsr_cycles() -> Seq<MicroCycle> {
        jsr_8bit_cycles()
    }

    open spec fn rts_cycles() -> Seq<MicroCycle> {
        rts_8bit_cycles()
    }

    proof fn lemma_part_cycles_valid() {
        lemma_8bit_cycles_valid(OffsetType::NoOffset);
        lemma_8bit_cycles_valid(OffsetType::X);
    }

    /// The CMOS65C02 JMP (IND) bugfix!
    ///
    /// The bugfix results in correct page for the pointer high byte, at the cost of
    /// one extra cycle: both JMP (IND) and JMP (IND,X) take six cycles
    fn emit_jmpind(queue: &mut UcycQueue, _ctx: DecodeContext, offset: OffsetType) {
        let ghost q0 = queue@;
        proof {
            queue.lemma_capacity();
        }
        queue.push(MicroCycle::read(Latch::Pc, Latch::PtrLo, true));
        queue.push(MicroCycle::read(Latch::Pc, Latch::PtrHi, false));
        queue.push(
            MicroCycle {
                bus: BusCycle { addr: Latch::Pc, vda: false, vpa: false, read: true },
                inc_src: false,
                local_latch: Latch::Discard,
                alu: AluOp::AddOffset { latch: Latch::Ptr, offset },
            },
        );
        queue.push(MicroCycle::read(Latch::Ptr, Latch::PcLo, true));
        queue.push(MicroCycle::read(Latch::Ptr, Latch::PcHi, false));
        proof {
            assert(queue@ =~= q0 + jmpind_cmos_cycles(offset));
        }
    }

    fn emit_jsr(queue: &mut UcycQueue, ctx: DecodeContext) {
        emit_jsr_8bit(queue, ctx);
    }

    fn emit_rts(queue: &mut UcycQueue, ctx: DecodeContext) {
        emit_rts_8bit(queue, ctx);
    }
}

/// Marker for the original NMOS 6502.
pub struct NMOS6502;

/// Marker for the WDC 65C02 instruction set, including Rockwell bit operations and WAI/STP.
pub struct WDC65C02;

/// Marker for the Synertek 65C02. No WAI/STP, no Rockwell bit operations.
pub struct Synertek65C02;

/// Marker for the Rockwell 65C02. No WAI/STP.
pub struct Rockwell65C02;

/// Marker for NES CPU Ricoh 2A03/2A07, with BCD nonsense removed
pub struct NES;

/// Marker for a CMOS 65C02 with the Rockwell extensions enabled (the WDC instruction set).
pub struct CMOS65C02;

impl Flavor for NMOS6502 {
    type Micro = Micro6502;

    open spec fn spec_name() -> Seq<char> {
        "NMOS6502"@
    }

    open spec fn spec_decimal() -> DecimalSemantics {
        DecimalSemantics::Nmos6502
    }

    open spec fn spec_decimal_adc_immediate_read() -> u32 {
        0x00
    }

    open spec fn spec_jmp_indirect_wrap_bug() -> bool {
        true
    }

    open spec fn spec_invalid_addr_read() -> bool {
        true
    }

    open spec fn spec_rmw_dummy_write() -> bool {
        true
    }

    open spec fn spec_opcode_table() -> OpcodeTable {
        OpcodeTable::Nmos
    }

    fn name() -> (r: &'static str) {
        "NMOS6502"
    }

    fn decimal() -> (r: DecimalSemantics) {
        DecimalSemantics::Nmos6502
    }

    fn decimal_adc_immediate_read() -> (r: u32) {
        0x00
    }

    fn jmp_indirect_wrap_bug() -> (r: bool) {
        true
    }

    fn invalid_addr_read() -> (r: bool) {
        true
    }

    fn rmw_dummy_write() -> (r: bool) {
        true
    }

    fn opcode_table() -> (r: OpcodeTable) {
        OpcodeTable::Nmos
    }
}

impl Flavor for WDC65C02 {
    type Micro = Micro65C02;

    open spec fn spec_name() -> Seq<char> {
        "WDC65C02"@
    }

    open spec fn spec_decimal() -> DecimalSemantics {
        DecimalSemantics::Cmos65C02
    }

    open spec fn spec_decimal_adc_immediate_read() -> u32 {
        0x007F
    }

    open spec fn spec_jmp_indirect_wrap_bug() -> bool {
        false
    }

    open spec fn spec_invalid_addr_read() -> bool {
        false
    }

    open spec fn spec_rmw_dummy_write() -> bool {
        false
    }

    open spec fn spec_opcode_table() -> OpcodeTable {
        OpcodeTable::Cmos
    }

    fn name() -> (r: &'static str) {
        "WDC65C02"
    }

    fn decimal() -> (r: DecimalSemantics) {
        DecimalSemantics::Cmos65C02
    }

    fn decimal_adc_immediate_read() -> (r: u32) {
        0x007F
    }

    fn jmp_indirect_wrap_bug() -> (r: bool) {
        false
    }

    fn invalid_addr_read() -> (r: bool) {
        false
    }

    fn rmw_dummy_write() -> (r: bool) {
        false
    }

    fn opcode_table() -> (r: OpcodeTable) {
        OpcodeTable::Cmos
    }
}

impl Flavor for Synertek65C02 {
    type Micro = Micro65C02;

    open spec fn spec_name() -> Seq<char> {
        "Synertek65C02"@
    }

    open spec fn spec_decimal() -> DecimalSemantics {
        DecimalSemantics::Cmos65C02
    }

    open spec fn spec_decimal_adc_immediate_read() -> u32 {
        0x0056
    }

    open spec fn spec_jmp_indirect_wrap_bug() -> bool {
        false
    }

    open spec fn spec_invalid_addr_read() -> bool {
        false
    }

    open spec fn spec_rmw_dummy_write() -> bool {
        false
    }

    open spec fn spec_opcode_table() -> OpcodeTable {
        OpcodeTable::Synertek
    }

    fn name() -> (r: &'static str) {
        "Synertek65C02"
    }

    fn decimal() -> (r: DecimalSemantics) {
        DecimalSemantics::Cmos65C02
    }

    fn decimal_adc_immediate_read() -> (r: u32) {
        0x0056
    }

    fn jmp_indirect_wrap_bug() -> (r: bool) {
        false
    }

    fn invalid_addr_read() -> (r: bool) {
        false
    }

    fn rmw_dummy_write() -> (r: bool) {
        false
    }

    fn opcode_table() -> (r: OpcodeTable) {
        OpcodeTable::Synertek
    }
}

impl Flavor for Rockwell65C02 {
    type Micro = Micro65C02;

    open spec fn spec_name() -> Seq<char> {
        "Rockwell65C02"@
    }

    open spec fn spec_decimal() -> DecimalSemantics {
        DecimalSemantics::Cmos65C02
    }

    open spec fn spec_decimal_adc_immediate_read() -> u32 {
        0x0059
    }

    open spec fn spec_jmp_indirect_wrap_bug() -> bool {
        false
    }

    open spec fn spec_invalid_addr_read() -> bool {
        false
    }

    open spec fn spec_rmw_dummy_write() -> bool {
        false
    }

    open spec fn spec_opcode_table() -> OpcodeTable {
        OpcodeTable::Rockwell
    }

    fn name() -> (r: &'static str) {
        "Rockwell65C02"
    }

    fn decimal() -> (r: DecimalSemantics) {
        DecimalSemantics::Cmos65C02
    }

    fn decimal_adc_immediate_read() -> (r: u32) {
        0x0059
    }

    fn jmp_indirect_wrap_bug() -> (r: bool) {
        false
    }

    fn invalid_addr_read() -> (r: bool) {
        false
    }

    fn rmw_dummy_write() -> (r: bool) {
        false
    }

    fn opcode_table() -> (r: OpcodeTable) {
        OpcodeTable::Rockwell
    }
}

impl Flavor for NES {
    type Micro = Micro6502;

    open spec fn spec_name() -> Seq<char> {
        "Ricoh 2A03/2A07"@
    }

    open spec fn spec_decimal() -> DecimalSemantics {
        DecimalSemantics::Binary
    }

    open spec fn spec_decimal_adc_immediate_read() -> u32 {
        0x00
    }

    open spec fn spec_jmp_indirect_wrap_bug() -> bool {
        true
    }

    open spec fn spec_invalid_addr_read() -> bool {
        true
    }

    open spec fn spec_rmw_dummy_write() -> bool {
        true
    }

    open spec fn spec_opcode_table() -> OpcodeTable {
        OpcodeTable::Nmos
    }

    fn name() -> (r: &'static str) {
        "Ricoh 2A03/2A07"
    }

    fn decimal() -> (r: DecimalSemantics) {
        DecimalSemantics::Binary
    }

    fn decimal_adc_immediate_read() -> (r: u32) {
        0x00
    }

    fn jmp_indirect_wrap_bug() -> (r: bool) {
        true
    }

    fn invalid_addr_read() -> (r: bool) {
        true
    }

    fn rmw_dummy_write() -> (r: bool) {
        true
    }

    fn opcode_table() -> (r: OpcodeTable) {
        OpcodeTable::Nmos
    }
}

impl Flavor for CMOS65C02 {
    type Micro = Micro65C02;

    open spec fn spec_name() -> Seq<char> {
        "CMOS65C02"@
    }

    open spec fn spec_decimal() -> DecimalSemantics {
        DecimalSemantics::Cmos65C02
    }

    open spec fn spec_decimal_adc_immediate_read() -> u32 {
        0x007F
    }

    open spec fn spec_jmp_indirect_wrap_bug() -> bool {
        false
    }

    open spec fn spec_invalid_addr_read() -> bool {
        false
    }

    open spec fn spec_rmw_dummy_write() -> bool {
        false
    }

    open spec fn spec_opcode_table() -> OpcodeTable {
        OpcodeTable::Cmos
    }

    fn name() -> (r: &'static str) {
        "CMOS65C02"
    }

    fn decimal() -> (r: DecimalSemantics) {
        DecimalSemantics::Cmos65C02
    }

    fn decimal_adc_immediate_read() -> (r: u32) {
        0x007F
    }

    fn jmp_indirect_wrap_bug() -> (r: bool) {
        false
    }

    fn invalid_addr_read() -> (r: bool) {
        false
    }

    fn rmw_dummy_write() -> (r: bool) {
        false
    }

    fn opcode_table() -> (r: OpcodeTable) {
        OpcodeTable::Cmos
    }
}

} // verus!
