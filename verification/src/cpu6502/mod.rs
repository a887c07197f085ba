//! Cycle-stepped 6502-family cores: each step runs one bus cycle of the current instruction,
//! fetches the next opcode, or enters an interrupt.
use vstd::prelude::*;

use core::marker::PhantomData;

pub mod context;
pub mod flavor;
pub mod laws;
pub mod ops;

use crate::bus::{read_access, Bus, BusAccess, Lines, WaitStates};
use crate::cpu6502::context::MicroCtx6502;
use crate::cpu6502::ops::{
    finish_implied, finish_read, spec_finish_implied, spec_finish_read, spec_modify,
    spec_prepare_store, Registers,
};
use crate::isa::microcycle::{
    int_cycles, ready_for_decode, runnable, DecodeContext, MicroCode, MicroCycle, UcycQueue,
};
use crate::isa::op::{
    fresh_executor, lemma_cycle_keeps_action, spec_cycle, spec_cycle_access, MicroContext,
    MicroExecutor, StepResult,
};
use crate::isa::table::{decodable, lemma_8bit_tables_decodable, spec_decode, Instruction, Mnemonic};
use crate::isa::{
    lemma_int_cycles_valid, lemma_mode_cycles_runnable, mode_cycles, AddressMode, InterruptType,
    JumpType, Latch, MemoryAction, NoMemType,
};
use crate::psr;

pub use flavor::{DecimalSemantics, Flavor};

verus! {

/// What completing an instruction does: a reading instruction consumes its operand, an
/// implied instruction works on the registers, and BRK (or an interrupt) masks IRQs. Also
/// returns the I flag to use for the next interrupt check when the instruction changed it.
pub open spec fn spec_finish(
    r: Registers,
    inst: Instruction,
    operand: u8,
    sem: DecimalSemantics,
) -> (Registers, Option<bool>) {
    let read = if inst.memory_action == MemoryAction::Read {
        spec_finish_read(r, inst.mnemonic, operand, sem)
    } else {
        (r, None)
    };
    let imp = if inst.address_mode == AddressMode::NoMemory(NoMemType::Implied) {
        spec_finish_implied(read.0, inst.mnemonic)
    } else {
        (read.0, None)
    };
    let regs = if inst.address_mode == AddressMode::Jump(JumpType::ToInterrupt) {
        Registers { p: imp.0.p | psr::I, ..imp.0 }
    } else {
        imp.0
    };
    (
        regs,
        if imp.1 is Some {
            imp.1
        } else {
            read.1
        },
    )
}

/// What the decoder knows of an instruction fetched as `opcode` on flavor `F`.
pub open spec fn decode_context<F: Flavor>(inst: Instruction, opcode: u8) -> DecodeContext {
    DecodeContext {
        e_flag: true,
        m_flag: true,
        x_flag: true,
        action: inst.memory_action,
        modify_read: !F::spec_rmw_dummy_write(),
        opcode,
    }
}

/// The cycle counter after one bus access with `wait` wait states.
pub open spec fn cycles_after(cycles: u64, wait: u8) -> u64 {
    ((cycles + 1 + wait) % 0x1_0000_0000_0000_0000) as u64
}

/// An opcode fetch at `pc` (a program read) that returned `data`.
pub open spec fn fetch_access(pc: u16, data: u8, wait: WaitStates) -> BusAccess {
    read_access(pc as u32, data, false, true, wait)
}

/// The address the CMOS decimal ADC/SBC reads during its extra cycle: the effective address,
/// or for the immediate and implied forms a fixed address (the flavor's for ADC, $0000 for
/// SBC).
pub open spec fn adc_extra_address<F: Flavor>(inst: Instruction, ea: u32) -> u32 {
    if inst.address_mode is NoMemory {
        if inst.mnemonic == Mnemonic::Adc {
            F::spec_decimal_adc_immediate_read()
        } else {
            0
        }
    } else {
        ea
    }
}

/// `after` is `before` with the two data reads of the little-endian vector at `addr` (the low
/// byte at `addr`, the high byte at the next address) appended.
pub open spec fn vector_read(before: Seq<BusAccess>, after: Seq<BusAccess>, addr: u16) -> bool {
    let lo = after[before.len() as int];
    let hi = after[before.len() + 1int];
    &&& after == before.push(lo).push(hi)
    &&& lo == read_access(addr as u32, lo.data, true, false, lo.wait)
    &&& hi == read_access(((addr + 1) % 0x10000) as u32, hi.data, true, false, hi.wait)
}

/// The vector those two reads returned.
pub open spec fn vector_value(before: Seq<BusAccess>, after: Seq<BusAccess>) -> u16 {
    (after[before.len() as int].data + 256 * after[before.len() + 1int].data) as u16
}

/// The latches at the start of `inst`.
pub open spec fn latches_for(inst: Instruction) -> MicroExecutor {
    MicroExecutor { memory_action: inst.memory_action, ..fresh_executor() }
}

/// Whether the CMOS decimal ADC/SBC takes its extra cycle now.
pub open spec fn adc_extra_cycle<F: Flavor>(inst: Instruction, p: u8, done: bool) -> bool {
    &&& (inst.mnemonic == Mnemonic::Adc || inst.mnemonic == Mnemonic::Sbc)
    &&& F::spec_decimal() == DecimalSemantics::Cmos65C02
    &&& p & psr::D != 0
    &&& !done
    &&& inst.memory_action == MemoryAction::Read
}

/// Completing BRK, or an interrupt sequence (which runs as BRK), masks IRQs and keeps every
/// other register; on CMOS parts it also leaves decimal mode.
pub proof fn lemma_interrupt_entry_flags(
    r: Registers,
    inst: Instruction,
    operand: u8,
    sem: DecimalSemantics,
)
    requires
        inst.mnemonic == Mnemonic::Brk,
        inst.address_mode == AddressMode::Jump(JumpType::ToInterrupt),
        inst.memory_action == MemoryAction::Read,
    ensures
        spec_finish(r, inst, operand, sem).0 == (Registers {
            p: spec_finish(r, inst, operand, sem).0.p,
            ..r
        }),
        spec_finish(r, inst, operand, sem).0.p & psr::I != 0,
        sem == DecimalSemantics::Cmos65C02 ==> spec_finish(r, inst, operand, sem).0.p & psr::D == 0,
        sem != DecimalSemantics::Cmos65C02 ==> spec_finish(r, inst, operand, sem).0.p == r.p | psr::I,
{
    reveal(spec_finish_read);
    let p = r.p;
    assert(((p & !8u8) | 4u8) & 4u8 != 0 && ((p & !8u8) | 4u8) & 8u8 == 0 && (p | 4u8) & 4u8 != 0)
        by (bit_vector);
}

/// The core's store and modify steps never change the memory action in the latches.
proof fn lemma_hooks_keep_action<F: Flavor>()
    ensures
        forall|c: MicroCtx6502<F>, s: MicroExecutor| (#[trigger] c.after_prepare_store(s)).1.memory_action
            == s.memory_action,
        forall|c: MicroCtx6502<F>, s: MicroExecutor| (#[trigger] c.after_modify(s)).1.memory_action
            == s.memory_action,
{
    assert forall|c: MicroCtx6502<F>, s: MicroExecutor| (#[trigger] c.after_prepare_store(s)).1.memory_action
        == s.memory_action by {
        reveal(spec_prepare_store);
    }
    assert forall|c: MicroCtx6502<F>, s: MicroExecutor| (#[trigger] c.after_modify(s)).1.memory_action
        == s.memory_action by {
        reveal(spec_modify);
    }
}

/// CPU registers/state for a plain 6502-like core (8-bit A/X/Y, 16-bit PC).
pub struct Cpu6502<F: Flavor, B: Bus> {
    pub a: u8,
    pub x: u8,
    pub y: u8,
    /// stack pointer
    pub s: u8,
    /// processor status
    pub p: u8,
    /// program counter
    pub pc: u16,
    /// Bus cycles elapsed: each access counts one plus its wait states, each stalled cycle one.
    pub cycles: u64,
    ucycs: UcycQueue,
    scratch: MicroExecutor,
    current_inst: Option<Instruction>,
    pub current_opcode: u8,
    extra_adc_sbc_cycle: bool,
    prev_nmi: bool,
    pending_nmi: bool,
    old_i: Option<bool>,
    _f: PhantomData<(F, B)>,
}

impl<F: Flavor, B: Bus> Cpu6502<F, B> {
    /// The programmer-visible registers.
    pub closed spec fn regs(&self) -> Registers {
        Registers { a: self.a, x: self.x, y: self.y, s: self.s, p: self.p, pc: self.pc }
    }

    /// The opcode of the current instruction.
    pub closed spec fn opcode(&self) -> u8 {
        self.current_opcode
    }

    /// The cycle counter.
    pub closed spec fn cycle_count(&self) -> u64 {
        self.cycles
    }

    /// The cycles of the current instruction still to run.
    pub closed spec fn pending_cycles(&self) -> Seq<MicroCycle> {
        self.ucycs@
    }

    /// The instruction being executed (none before the first fetch after a reset).
    pub closed spec fn instruction(&self) -> Option<Instruction> {
        self.current_inst
    }

    /// The executor's latches.
    pub closed spec fn latches(&self) -> MicroExecutor {
        self.scratch
    }

    /// The NMI line as last sampled.
    pub closed spec fn nmi_sampled(&self) -> bool {
        self.prev_nmi
    }

    /// Whether an NMI edge is waiting to be serviced.
    pub closed spec fn nmi_pending(&self) -> bool {
        self.pending_nmi
    }

    /// The I flag the next interrupt check uses in place of P's, when the last instruction
    /// changed it (CLI, SEI, PLP take effect one instruction late).
    pub closed spec fn i_override(&self) -> Option<bool> {
        self.old_i
    }

    /// Whether the CMOS decimal ADC/SBC extra cycle of the current instruction has run.
    pub closed spec fn adc_extra_done(&self) -> bool {
        self.extra_adc_sbc_cycle
    }

    /// The context the executor works on for the current instruction.
    pub open spec fn context(&self, inst: Instruction) -> MicroCtx6502<F> {
        MicroCtx6502::of(self.regs(), inst, self.opcode())
    }

    /// The core's invariant: the pending cycles are runnable, and they belong to a decodable
    /// instruction whose memory action the executor holds.
    pub closed spec fn wf(&self) -> bool {
        &&& runnable(self.ucycs)
        &&& match self.current_inst {
            None => self.ucycs@.len() == 0,
            Some(i) => decodable(i) && self.scratch.memory_action == i.memory_action,
        }
    }

    /// Whether the next cycle is a read (an opcode fetch counts as one).
    pub open spec fn next_reads(&self) -> bool {
        self.instruction() is None || self.pending_cycles().len() == 0
            || self.pending_cycles()[0].bus.read
    }

    /// The I flag that masks IRQs at the next instruction boundary.
    pub open spec fn irq_masked(&self) -> bool {
        match self.i_override() {
            Some(i) => i,
            None => self.regs().p & psr::I != 0,
        }
    }

    /// Everything but the cycle counter and the NMI latch is as in `other`.
    pub open spec fn same_machine(&self, other: &Self) -> bool {
        &&& self.regs() == other.regs()
        &&& self.opcode() == other.opcode()
        &&& self.pending_cycles() == other.pending_cycles()
        &&& self.instruction() == other.instruction()
        &&& self.latches() == other.latches()
        &&& self.i_override() == other.i_override()
        &&& self.adc_extra_done() == other.adc_extra_done()
    }

    /// `next` holds `opcode`, fetched at PC: PC advanced past it, the opcode decoded with the
    /// flavor's table, its cycles queued, and its latches fresh.
    pub open spec fn fetched(&self, next: &Self, opcode: u8) -> bool {
        let inst = spec_decode(F::spec_opcode_table(), opcode);
        &&& next.regs() == (Registers { pc: ((self.regs().pc + 1) % 0x10000) as u16, ..self.regs() })
        &&& next.opcode() == opcode
        &&& next.instruction() == Some(inst)
        &&& next.pending_cycles() == mode_cycles::<F::Micro>(
            inst.address_mode,
            decode_context::<F>(inst, opcode),
        )
        &&& next.latches() == latches_for(inst)
    }

    /// `next` has run the front pending cycle of `inst`, `data` being the byte read if the
    /// cycle reads; if that was the last cycle, the instruction has also completed.
    pub open spec fn ran_cycle(&self, next: &Self, inst: Instruction, data: u8) -> bool {
        let c = spec_cycle(self.latches(), self.context(inst), self.pending_cycles(), data);
        let done = spec_finish(c.1.regs, inst, c.0.op0, F::spec_decimal());
        &&& next.latches() == c.0
        &&& next.pending_cycles() == c.2
        &&& next.instruction() == self.instruction()
        &&& next.opcode() == self.opcode()
        &&& next.adc_extra_done() == self.adc_extra_done()
        &&& if c.2.len() == 0 {
            &&& next.regs() == done.0
            &&& next.i_override() == (if done.1 is Some {
                done.1
            } else {
                self.i_override()
            })
        } else {
            &&& next.regs() == c.1.regs
            &&& next.i_override() == self.i_override()
        }
    }

    /// `next` has entered the interrupt sequence of `kind` in place of an opcode fetch: BRK's
    /// decoding with the hardware sequence queued, its first cycle (a read of PC, returning
    /// `data`) done.
    pub open spec fn interrupted(&self, next: &Self, kind: InterruptType, data: u8) -> bool {
        let inst = spec_decode(F::spec_opcode_table(), 0);
        &&& next.regs() == self.regs()
        &&& next.opcode() == 0
        &&& next.instruction() == Some(inst)
        &&& next.pending_cycles() == int_cycles(kind).drop_first()
        &&& next.latches() == (MicroExecutor { data_latch: data, ..latches_for(inst) })
    }

    /// One step of the core, with the input lines sampled as `lines`, takes `self` to `next`,
    /// returns `r`, and takes the bus's record of accesses from `before` to `after`: a held
    /// cycle makes no access, any other step exactly one, which the record's last entry
    /// describes along with the byte it read and the wait states it took.
    pub open spec fn stepped(
        &self,
        next: &Self,
        lines: Lines,
        r: StepResult,
        before: Seq<BusAccess>,
        after: Seq<BusAccess>,
    ) -> bool {
        let nmi = self.nmi_pending() || (lines.nmi && !self.nmi_sampled());
        let a = after.last();
        &&& next.wf()
        &&& next.nmi_sampled() == lines.nmi
        &&& if !lines.rdy && self.next_reads() {
            // RDY low holds a read cycle (writes go ahead)
            &&& r == StepResult::Pending
            &&& next.same_machine(self)
            &&& next.nmi_pending() == nmi
            &&& next.cycle_count() == ((self.cycle_count() + 1) % 0x1_0000_0000_0000_0000) as u64
            &&& after == before
        } else {
            &&& after == before.push(a)
            &&& next.cycle_count() == cycles_after(self.cycle_count(), a.wait)
            &&& match self.instruction() {
                None => {
                    &&& r == StepResult::Pending
                    &&& a == fetch_access(self.regs().pc, a.data, a.wait)
                    &&& self.fetched(next, a.data)
                    &&& next.nmi_pending() == nmi
                    &&& next.i_override() == self.i_override()
                    &&& next.adc_extra_done() == self.adc_extra_done()
                },
                Some(inst) => if self.pending_cycles().len() > 0 {
                    &&& r == StepResult::Pending
                    &&& next.nmi_pending() == nmi
                    &&& a == spec_cycle_access(
                        self.latches(),
                        self.context(inst),
                        self.pending_cycles(),
                        a.data,
                        a.wait,
                    )
                    &&& self.ran_cycle(next, inst, a.data)
                } else if adc_extra_cycle::<F>(inst, self.regs().p, self.adc_extra_done()) {
                    // the CMOS decimal ADC/SBC spends a cycle on its flags
                    &&& r == StepResult::Pending
                    &&& a == read_access(
                        adc_extra_address::<F>(inst, self.latches().ea),
                        a.data,
                        false,
                        true,
                        a.wait,
                    )
                    &&& next.regs() == self.regs()
                    &&& next.opcode() == self.opcode()
                    &&& next.pending_cycles() == self.pending_cycles()
                    &&& next.instruction() == self.instruction()
                    &&& next.latches() == self.latches()
                    &&& next.i_override() == self.i_override()
                    &&& next.adc_extra_done()
                    &&& next.nmi_pending() == nmi
                } else {
                    &&& r == StepResult::InstructionFinished
                    &&& next.i_override() is None
                    &&& !next.adc_extra_done()
                    &&& a == fetch_access(self.regs().pc, a.data, a.wait)
                    &&& !next.nmi_pending()
                    &&& if nmi {
                        self.interrupted(next, InterruptType::Nmi, a.data)
                    } else if lines.irq && !self.irq_masked() {
                        self.interrupted(next, InterruptType::Irq, a.data)
                    } else {
                        self.fetched(next, a.data)
                    }
                },
            }
        }
    }

    /// Power-on state: registers cleared but for S = $FD and P = I|U, nothing fetched yet.
    pub fn new() -> (r: Self)
        ensures
            r.wf(),
            r.regs() == (Registers { a: 0, x: 0, y: 0, s: 0xFD, p: psr::I | psr::U_6502, pc: 0 }),
            r.cycle_count() == 0,
            r.opcode() == 0,
            r.instruction() is None,
            r.pending_cycles().len() == 0,
            r.latches() == fresh_executor(),
            !r.nmi_sampled(),
            !r.nmi_pending(),
            r.i_override() is None,
            !r.adc_extra_done(),
    {
        let r = Self {
            a: 0,
            x: 0,
            y: 0,
            s: 0xFD,  // reset default
            p: psr::I | psr::U_6502,  // I set, U set in pushes on many parts
            pc: 0,
            cycles: 0,
            ucycs: UcycQueue::new(),
            scratch: MicroExecutor::new(),
            current_inst: None,
            current_opcode: 0,
            extra_adc_sbc_cycle: false,
            prev_nmi: false,
            pending_nmi: false,
            old_i: None,
            _f: PhantomData,
        };
        proof {
            r.ucycs.lemma_capacity();
        }
        r
    }

    /// Read little-endian 16-bit vector from bank 0.
    fn read16(bus: &mut B, addr: u16) -> (r: u16)
        ensures
            final(bus).samples() == old(bus).samples(),
            vector_read(old(bus).accesses(), final(bus).accesses(), addr),
            r == vector_value(old(bus).accesses(), final(bus).accesses()),
    {
        let (lo, _) = bus.read(addr as u32, true, false);
        let (hi, _) = bus.read(addr.wrapping_add(1) as u32, true, false);
        lo as u16 + (hi as u16) * 256
    }

    /// Reset sequence: mask IRQs, load PC from $FFFC/$FFFD, and drop the current instruction
    /// so that the next step fetches an opcode.
    pub fn reset(&mut self, bus: &mut B)
        requires
            old(self).wf(),
        ensures
            final(bus).samples() == old(bus).samples(),
            final(self).wf(),
            vector_read(old(bus).accesses(), final(bus).accesses(), 0xFFFC),
            final(self).regs() == (Registers {
                p: old(self).regs().p | psr::I,
                pc: vector_value(old(bus).accesses(), final(bus).accesses()),
                ..old(self).regs()
            }),
            final(self).cycle_count() == old(self).cycle_count(),
            final(self).opcode() == 0,
            final(self).instruction() is None,
            final(self).pending_cycles().len() == 0,
            final(self).latches() == fresh_executor(),
            final(self).nmi_sampled() == old(self).nmi_sampled(),
            final(self).nmi_pending() == old(self).nmi_pending(),
            final(self).i_override() == old(self).i_override(),
            final(self).adc_extra_done() == old(self).adc_extra_done(),
    {
        self.p = self.p | psr::I;  // mask IRQ
        self.pc = Self::read16(bus, 0xFFFC);
        self.ucycs.clear();
        self.scratch.reset();
        self.current_inst = None;
        self.current_opcode = 0;
    }

    fn set_regs(&mut self, r: Registers)
        ensures
            final(self).regs() == r,
            final(self).cycles == old(self).cycles,
            final(self).current_opcode == old(self).current_opcode,
            final(self).ucycs == old(self).ucycs,
            final(self).scratch == old(self).scratch,
            final(self).current_inst == old(self).current_inst,
            final(self).extra_adc_sbc_cycle == old(self).extra_adc_sbc_cycle,
            final(self).prev_nmi == old(self).prev_nmi,
            final(self).pending_nmi == old(self).pending_nmi,
            final(self).old_i == old(self).old_i,
    {
        self.a = r.a;
        self.x = r.x;
        self.y = r.y;
        self.s = r.s;
        self.p = r.p;
        self.pc = r.pc;
    }

    fn get_regs(&self) -> (r: Registers)
        ensures
            r == self.regs(),
    {
        Registers { a: self.a, x: self.x, y: self.y, s: self.s, p: self.p, pc: self.pc }
    }

    /// Read the opcode at PC and advance PC; returns the opcode and the wait states.
    fn fetch_opcode(&mut self, bus: &mut B) -> (r: (u8, WaitStates))
        ensures
            final(bus).samples() == old(bus).samples(),
            final(bus).accesses() == old(bus).accesses().push(fetch_access(old(self).pc, r.0, r.1)),
            final(self).regs() == (Registers {
                pc: ((old(self).pc + 1) % 0x10000) as u16,
                ..old(self).regs()
            }),
            final(self).cycles == old(self).cycles,
            final(self).current_opcode == old(self).current_opcode,
            final(self).ucycs == old(self).ucycs,
            final(self).scratch == old(self).scratch,
            final(self).current_inst == old(self).current_inst,
            final(self).extra_adc_sbc_cycle == old(self).extra_adc_sbc_cycle,
            final(self).prev_nmi == old(self).prev_nmi,
            final(self).pending_nmi == old(self).pending_nmi,
            final(self).old_i == old(self).old_i,
    {
        let (opcode, wait) = bus.read(self.pc as u32, false, true);
        self.pc = self.pc.wrapping_add(1);
        (opcode, wait)
    }

    /// Decode `opcode` and queue its cycles.
    fn prepare_instruction(&mut self, opcode: u8)
        requires
            ready_for_decode(old(self).ucycs),
        ensures
            final(self).wf(),
            final(self).current_opcode == opcode,
            final(self).current_inst == Some(spec_decode(F::spec_opcode_table(), opcode)),
            final(self).ucycs@ == mode_cycles::<F::Micro>(
                spec_decode(F::spec_opcode_table(), opcode).address_mode,
                decode_context::<F>(spec_decode(F::spec_opcode_table(), opcode), opcode),
            ),
            final(self).scratch == latches_for(spec_decode(F::spec_opcode_table(), opcode)),
            final(self).regs() == old(self).regs(),
            final(self).cycles == old(self).cycles,
            final(self).extra_adc_sbc_cycle == old(self).extra_adc_sbc_cycle,
            final(self).prev_nmi == old(self).prev_nmi,
            final(self).pending_nmi == old(self).pending_nmi,
            final(self).old_i == old(self).old_i,
    {
        let table = F::opcode_table();
        let instruction = Instruction::from_byte(opcode, table);
        proof {
            lemma_8bit_tables_decodable(table, opcode);
        }
        self.current_opcode = opcode;
        self.current_inst = Some(instruction);
        self.scratch.reset();
        self.scratch.memory_action = instruction.memory_action;
        let ctx = DecodeContext {
            e_flag: true,
            m_flag: true,
            x_flag: true,
            action: instruction.memory_action,
            modify_read: !F::rmw_dummy_write(),
            opcode,
        };
        proof {
            lemma_mode_cycles_runnable::<F::Micro>(instruction.address_mode, ctx);
        }
        let ghost q0 = self.ucycs@;
        instruction.address_mode.emit_ucycs::<F::Micro>(&mut self.ucycs, ctx);
        proof {
            assert(self.ucycs@ =~= q0 + mode_cycles::<F::Micro>(instruction.address_mode, ctx));
            assert(self.ucycs@ =~= mode_cycles::<F::Micro>(instruction.address_mode, ctx));
            self.ucycs.lemma_capacity();
        }
    }

    /// Whether this cycle is a read: a write cycle proceeds even while RDY is low.
    pub fn next_cycle_read(&self) -> (r: bool)
        requires
            self.wf(),
        ensures
            r == self.next_reads(),
    {
        // we need to NOP if this cycle is going to be a read
        let this_cycle = match self.ucycs.front() {
            Some(c) => c,
            None => {
                return true;
            },
        };
        if self.current_inst.is_none() {
            // opcode fetch is a read
            return true;
        }
        // otherwise, a write cycle should proceed even if RDY is low
        this_cycle.bus.read
    }

    /// Complete `inst` now that its last cycle has run.
    fn finish_instruction(&mut self, inst: Instruction)
        ensures
            final(self).regs() == spec_finish(
                old(self).regs(),
                inst,
                old(self).scratch.op0,
                F::spec_decimal(),
            ).0,
            final(self).old_i == (if spec_finish(
                old(self).regs(),
                inst,
                old(self).scratch.op0,
                F::spec_decimal(),
            ).1 is Some {
                spec_finish(old(self).regs(), inst, old(self).scratch.op0, F::spec_decimal()).1
            } else {
                old(self).old_i
            }),
            final(self).cycles == old(self).cycles,
            final(self).current_opcode == old(self).current_opcode,
            final(self).ucycs == old(self).ucycs,
            final(self).scratch == old(self).scratch,
            final(self).current_inst == old(self).current_inst,
            final(self).extra_adc_sbc_cycle == old(self).extra_adc_sbc_cycle,
            final(self).prev_nmi == old(self).prev_nmi,
            final(self).pending_nmi == old(self).pending_nmi,
    {
        // the bus read / write has already happened. with writes, we're totally done, but
        // for reads, the read value lives in the internal Op0 latch so we need to copy that where
        // it needs to go
        let mut regs = self.get_regs();
        let mut changed_i: Option<bool> = None;
        if inst.memory_action == MemoryAction::Read {
            changed_i = finish_read(&mut regs, inst.mnemonic, self.scratch.op0, F::decimal());
        }
        if inst.address_mode == AddressMode::NoMemory(NoMemType::Implied) {
            let implied_i = finish_implied(&mut regs, inst.mnemonic);
            if implied_i.is_some() {
                changed_i = implied_i;
            }
        }
        if inst.address_mode == AddressMode::Jump(JumpType::ToInterrupt) {
            regs.p = regs.p | psr::I;
        }
        self.set_regs(regs);
        if changed_i.is_some() {
            self.old_i = changed_i;
        }
    }

    /// Run the front pending cycle of `inst`, completing the instruction after its last cycle.
    fn run_cycle(&mut self, bus: &mut B, inst: Instruction)
        requires
            old(self).wf(),
            old(self).current_inst == Some(inst),
            old(self).ucycs@.len() > 0,
        ensures
            final(bus).samples() == old(bus).samples(),
            final(self).wf(),
            ({
                let a = final(bus).accesses().last();
                &&& final(bus).accesses() == old(bus).accesses().push(
                    spec_cycle_access(
                        old(self).latches(),
                        old(self).context(inst),
                        old(self).pending_cycles(),
                        a.data,
                        a.wait,
                    ),
                )
                &&& old(self).ran_cycle(final(self), inst, a.data)
                &&& final(self).cycle_count() == cycles_after(old(self).cycle_count(), a.wait)
            }),
            final(self).prev_nmi == old(self).prev_nmi,
            final(self).pending_nmi == old(self).pending_nmi,
    {
        let mut ctx = MicroCtx6502::<F>::new(self.get_regs(), inst, self.current_opcode);
        let ghost ex0 = self.scratch;
        let ghost ctx0 = ctx;
        let ghost q0 = self.ucycs@;
        let (_, wait) = self.scratch.execute_next(&mut ctx, bus, &mut self.ucycs);
        let ghost d = bus.accesses().last().data;
        proof {
            lemma_hooks_keep_action::<F>();
            lemma_cycle_keeps_action(ex0, ctx0, q0, d);
        }
        self.set_regs(ctx.regs);
        self.cycles = self.cycles.wrapping_add(1 + wait as u64);
        if self.ucycs.is_empty() {
            // the current instruction is finished, but the bus is not available for opcode fetch
            // this cycle (we already used it). instead, let's finish the state changes required
            // by the instruction
            self.finish_instruction(inst);
        }
        assert(old(self).ran_cycle(self, inst, d));
    }

    /// Fetch and decode the opcode at PC.
    fn fetch_and_decode(&mut self, bus: &mut B)
        requires
            old(self).wf(),
            old(self).ucycs@.len() == 0,
        ensures
            final(bus).samples() == old(bus).samples(),
            final(self).wf(),
            ({
                let a = final(bus).accesses().last();
                &&& final(bus).accesses() == old(bus).accesses().push(
                    fetch_access(old(self).regs().pc, a.data, a.wait),
                )
                &&& old(self).fetched(final(self), a.data)
                &&& final(self).cycle_count() == cycles_after(old(self).cycle_count(), a.wait)
            }),
            final(self).extra_adc_sbc_cycle == old(self).extra_adc_sbc_cycle,
            final(self).prev_nmi == old(self).prev_nmi,
            final(self).pending_nmi == old(self).pending_nmi,
            final(self).old_i == old(self).old_i,
    {
        proof {
            self.ucycs.lemma_capacity();
        }
        let (opcode, wait) = self.fetch_opcode(bus);
        self.cycles = self.cycles.wrapping_add(1 + wait as u64);
        self.prepare_instruction(opcode);
    }

    /// Enter an interrupt sequence in place of the opcode fetch; its first cycle runs now.
    #[verifier::spinoff_prover]
    fn start_interrupt(&mut self, bus: &mut B, int_type: InterruptType)
        requires
            old(self).wf(),
            old(self).ucycs@.len() == 0,
        ensures
            final(bus).samples() == old(bus).samples(),
            final(self).wf(),
            ({
                let a = final(bus).accesses().last();
                &&& final(bus).accesses() == old(bus).accesses().push(
                    fetch_access(old(self).regs().pc, a.data, a.wait),
                )
                &&& old(self).interrupted(final(self), int_type, a.data)
                &&& final(self).cycle_count() == cycles_after(old(self).cycle_count(), a.wait)
            }),
            final(self).extra_adc_sbc_cycle == old(self).extra_adc_sbc_cycle,
            final(self).prev_nmi == old(self).prev_nmi,
            final(self).pending_nmi == old(self).pending_nmi,
            final(self).old_i == old(self).old_i,
    {
        proof {
            self.ucycs.lemma_capacity();
        }
        let table = F::opcode_table();
        let instruction = Instruction::from_byte(0, table);
        proof {
            lemma_8bit_tables_decodable(table, 0);
            lemma_int_cycles_valid(int_type);
        }
        self.current_opcode = 0;  // BRK used for all interrupts, interestingly
        self.current_inst = Some(instruction);
        self.scratch.reset();
        self.scratch.memory_action = instruction.memory_action;
        let ctx = DecodeContext {
            e_flag: true,
            m_flag: true,
            x_flag: true,
            action: instruction.memory_action,
            modify_read: !F::rmw_dummy_write(),
            opcode: 0,
        };
        F::Micro::emit_int(&mut self.ucycs, ctx, int_type);
        proof {
            self.ucycs.lemma_capacity();
        }
        let mut mctx = MicroCtx6502::<F>::new(self.get_regs(), instruction, 0);
        let ghost ex0 = self.scratch;
        let ghost ctx0 = mctx;
        let ghost q0 = self.ucycs@;
        let (_, wait) = self.scratch.execute_next(&mut mctx, bus, &mut self.ucycs);
        proof {
            reveal(spec_cycle);
            assert(q0[0] == MicroCycle::read(Latch::Pc, Latch::Discard, false));
        }
        self.set_regs(mctx.regs);
        self.cycles = self.cycles.wrapping_add(1 + wait as u64);
    }

    /// The instruction boundary: the CMOS decimal extra cycle, an interrupt, or the next
    /// opcode fetch.
    fn boundary(&mut self, bus: &mut B, lines: Lines, inst: Instruction) -> (r: StepResult)
        requires
            old(self).wf(),
            old(self).current_inst == Some(inst),
            old(self).ucycs@.len() == 0,
        ensures
            final(bus).samples() == old(bus).samples(),
            final(self).wf(),
            final(self).prev_nmi == old(self).prev_nmi,
            final(bus).accesses() == old(bus).accesses().push(final(bus).accesses().last()),
            final(self).cycle_count() == cycles_after(
                old(self).cycle_count(),
                final(bus).accesses().last().wait,
            ),
            if adc_extra_cycle::<F>(inst, old(self).regs().p, old(self).adc_extra_done()) {
                &&& r == StepResult::Pending
                &&& final(bus).accesses().last() == read_access(
                    adc_extra_address::<F>(inst, old(self).latches().ea),
                    final(bus).accesses().last().data,
                    false,
                    true,
                    final(bus).accesses().last().wait,
                )
                &&& final(self).regs() == old(self).regs()
                &&& final(self).opcode() == old(self).opcode()
                &&& final(self).pending_cycles() == old(self).pending_cycles()
                &&& final(self).instruction() == old(self).instruction()
                &&& final(self).latches() == old(self).latches()
                &&& final(self).i_override() == old(self).i_override()
                &&& final(self).adc_extra_done()
                &&& final(self).pending_nmi == old(self).pending_nmi
            } else {
                &&& r == StepResult::InstructionFinished
                &&& final(self).i_override() is None
                &&& !final(self).adc_extra_done()
                &&& !final(self).pending_nmi
                &&& final(bus).accesses().last() == fetch_access(
                    old(self).regs().pc,
                    final(bus).accesses().last().data,
                    final(bus).accesses().last().wait,
                )
                &&& if old(self).pending_nmi {
                    old(self).interrupted(final(self), InterruptType::Nmi, final(bus).accesses().last().data)
                } else if lines.irq && !old(self).irq_masked() {
                    old(self).interrupted(final(self), InterruptType::Irq, final(bus).accesses().last().data)
                } else {
                    old(self).fetched(final(self), final(bus).accesses().last().data)
                }
            },
    {
        let adc_sbc_extra_cycle = (inst.mnemonic == Mnemonic::Adc || inst.mnemonic == Mnemonic::Sbc)
            && F::decimal() == DecimalSemantics::Cmos65C02 && self.p & psr::D != 0
            && !self.extra_adc_sbc_cycle;
        // for read instructions, the byte is stored in Op0
        if inst.memory_action == MemoryAction::Read && adc_sbc_extra_cycle {
            // we need to cram another cycle in here. CMOS adds another cycle on ADC and SBC in order to
            // give itself enough time to actually do all the flags correctly
            self.extra_adc_sbc_cycle = true;
            // still have to do our bus read though
            let addr: u32 = if matches!(inst.address_mode, AddressMode::NoMemory(_)) {
                if inst.mnemonic == Mnemonic::Adc {
                    F::decimal_adc_immediate_read()
                } else {
                    0x00
                }
            } else {
                self.scratch.ea
            };
            let (_, wait) = bus.read(addr, false, true);
            self.cycles = self.cycles.wrapping_add(1 + wait as u64);
            return StepResult::Pending;
        }
        self.extra_adc_sbc_cycle = false;
        // the instruction finishes here, but we need to read the next opcode for next cycle. first
        // though, this is the point at which we have to service interrupts
        let irq_disable = match self.old_i {
            Some(i) => i,
            None => self.p & psr::I != 0,
        };
        self.old_i = None;
        if self.pending_nmi {
            // schedule NMI micro-ops instead of fetching an opcode
            self.pending_nmi = false;
            self.start_interrupt(bus, InterruptType::Nmi);
            return StepResult::InstructionFinished;
        } else if lines.irq && !irq_disable {
            // schedule IRQ micro-ops instead of fetching an opcode
            self.start_interrupt(bus, InterruptType::Irq);
            return StepResult::InstructionFinished;
        }
        self.fetch_and_decode(bus);
        StepResult::InstructionFinished
    }

    /// Run one cycle with the input lines sampled as `lines`: latch an NMI edge, hold a read
    /// cycle while RDY is low, and otherwise run the next cycle of the current instruction,
    /// or at an instruction boundary enter a pending interrupt or fetch the next opcode.
    pub fn step_with_lines(&mut self, bus: &mut B, lines: Lines) -> (r: StepResult)
        requires
            old(self).wf(),
        ensures
            final(bus).samples() == old(bus).samples(),
            old(self).stepped(final(self), lines, r, old(bus).accesses(), final(bus).accesses()),
    {
        // NMI detection still happens even if RDY is low!
        if lines.nmi && !self.prev_nmi {
            self.pending_nmi = true;
        }
        self.prev_nmi = lines.nmi;
        if !lines.rdy && self.next_cycle_read() {
            // RDY is low, but we only NOP here if we're on a read cycle
            self.cycles = self.cycles.wrapping_add(1);
            return StepResult::Pending;
        }
        let instruction = match self.current_inst {
            None => {
                self.fetch_and_decode(bus);
                return StepResult::Pending;
            },
            Some(i) => i,
        };
        if !self.ucycs.is_empty() {
            self.run_cycle(bus, instruction);
            return StepResult::Pending;
        }
        self.boundary(bus, lines, instruction)
    }

    /// Run one cycle, sampling the input lines from the bus: the step is the one taken on the
    /// sample the bus recorded last.
    pub fn step(&mut self, bus: &mut B) -> (r: StepResult)
        requires
            old(self).wf(),
        ensures
            final(bus).samples() == old(bus).samples().push(final(bus).samples().last()),
            old(self).stepped(
                final(self),
                final(bus).samples().last(),
                r,
                old(bus).accesses(),
                final(bus).accesses(),
            ),
    {
        let lines = bus.sample_lines();
        self.step_with_lines(bus, lines)
    }
}

impl<F: Flavor, B: Bus> Default for Cpu6502<F, B> {
    /// The power-on state, as [`Cpu6502::new`].
    fn default() -> (r: Self)
        ensures
            r.wf(),
            r.regs() == (Registers { a: 0, x: 0, y: 0, s: 0xFD, p: psr::I | psr::U_6502, pc: 0 }),
            r.cycle_count() == 0,
            r.instruction() is None,
    {
        Self::new()
    }
}

} // verus!
