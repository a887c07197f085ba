//! The register context an 8-bit core hands to the micro-cycle executor.
use vstd::prelude::*;

use core::marker::PhantomData;

use crate::cpu6502::flavor::Flavor;
use crate::cpu6502::ops::{
    branch_taken, modify, prepare_store, spec_branch_taken, spec_modify, spec_prepare_store,
    Registers,
};
use crate::isa::microcycle::UcycQueue;
use crate::isa::op::{add16, with_high_byte, with_low_byte, MicroContext, MicroExecutor};
use crate::isa::table::Instruction;
use crate::psr;

verus! {

/// The registers of a core, with the instruction being executed.
pub struct MicroCtx6502<F: Flavor> {
    pub regs: Registers,
    pub instruction: Instruction,
    pub opcode: u8,
    pub marker: PhantomData<F>,
}

impl<F: Flavor> MicroCtx6502<F> {
    /// The context of `instruction` (fetched as `opcode`) running on `regs`.
    pub open spec fn of(regs: Registers, instruction: Instruction, opcode: u8) -> Self {
        MicroCtx6502 { regs, instruction, opcode, marker: PhantomData }
    }

    pub fn new(regs: Registers, instruction: Instruction, opcode: u8) -> (r: Self)
        ensures
            r == Self::of(regs, instruction, opcode),
    {
        MicroCtx6502 { regs, instruction, opcode, marker: PhantomData }
    }
}

impl<F: Flavor> MicroContext for MicroCtx6502<F> {
    open spec fn spec_pc(&self) -> u16 {
        self.regs.pc
    }

    open spec fn spec_sp(&self) -> u8 {
        self.regs.s
    }

    open spec fn spec_status(&self) -> u8 {
        self.regs.p
    }

    open spec fn spec_x(&self) -> u16 {
        self.regs.x as u16
    }

    open spec fn spec_y(&self) -> u16 {
        self.regs.y as u16
    }

    open spec fn spec_a(&self) -> u16 {
        self.regs.a as u16
    }

    open spec fn spec_opcode(&self) -> u8 {
        self.opcode
    }

    open spec fn spec_rmw_dummy_write(&self) -> bool {
        F::spec_rmw_dummy_write()
    }

    open spec fn spec_jmp_wrap_bug(&self) -> bool {
        F::spec_jmp_indirect_wrap_bug()
    }

    open spec fn spec_read_invalid(&self) -> bool {
        F::spec_invalid_addr_read()
    }

    open spec fn with_pc(self, v: u16) -> Self {
        MicroCtx6502 { regs: Registers { pc: v, ..self.regs }, ..self }
    }

    open spec fn with_sp(self, v: u8) -> Self {
        MicroCtx6502 { regs: Registers { s: v, ..self.regs }, ..self }
    }

    /// B never exists in the register, U always reads as set.
    open spec fn with_status(self, v: u8) -> Self {
        MicroCtx6502 {
            regs: Registers { p: (v | psr::U_6502) & !psr::B_6502, ..self.regs },
            ..self
        }
    }

    open spec fn after_prepare_store(self, s: MicroExecutor) -> (Self, MicroExecutor) {
        let r = spec_prepare_store(self.regs, self.instruction.mnemonic, s);
        (MicroCtx6502 { regs: r.0, ..self }, r.1)
    }

    open spec fn after_modify(self, s: MicroExecutor) -> (Self, MicroExecutor) {
        let r = spec_modify(self.regs, self.instruction.mnemonic, self.opcode, s, F::spec_decimal());
        (MicroCtx6502 { regs: r.0, ..self }, r.1)
    }

    open spec fn branch_taken(self, s: MicroExecutor) -> bool {
        spec_branch_taken(self.regs.p, self.instruction.mnemonic, self.opcode, s.op0)
    }

    fn pc(&self) -> (r: u16) {
        self.regs.pc
    }

    fn set_pc(&mut self, value: u16) {
        self.regs.pc = value;
    }

    fn set_pc_hi(&mut self, value: u8) {
        self.regs.pc = (self.regs.pc & 0x00FF) | ((value as u16) << 8u16);
    }

    fn set_pc_lo(&mut self, value: u8) {
        self.regs.pc = (self.regs.pc & 0xFF00) | value as u16;
    }

    fn inc_pc(&mut self) {
        self.regs.pc = self.regs.pc.wrapping_add(1);
    }

    fn opcode(&self) -> (r: u8) {
        self.opcode
    }

    fn sp(&self) -> (r: u8) {
        self.regs.s
    }

    fn set_sp(&mut self, value: u8) {
        self.regs.s = value;
    }

    fn status(&self) -> (r: u8) {
        self.regs.p
    }

    fn set_status(&mut self, value: u8) {
        self.regs.p = (value | psr::U_6502) & !psr::B_6502;
    }

    fn reg_x(&self) -> (r: u16) {
        self.regs.x as u16
    }

    fn reg_y(&self) -> (r: u16) {
        self.regs.y as u16
    }

    fn reg_a(&self) -> (r: u16) {
        self.regs.a as u16
    }

    fn rmw_dummy_write(&self) -> (r: bool) {
        F::rmw_dummy_write()
    }

    fn jmp_indirect_wrap_bug(&self) -> (r: bool) {
        F::jmp_indirect_wrap_bug()
    }

    fn read_invalid_on_page_cross(&self) -> (r: bool) {
        F::invalid_addr_read()
    }

    fn alu_prepare_store(&mut self, scratch: &mut MicroExecutor) {
        prepare_store(&mut self.regs, scratch, self.instruction.mnemonic);
    }

    fn alu_modify(&mut self, scratch: &mut MicroExecutor) {
        modify(&mut self.regs, scratch, self.instruction.mnemonic, self.opcode, F::decimal());
    }

    fn alu_branch(&mut self, scratch: &mut MicroExecutor, _queue: &mut UcycQueue) -> (r: bool) {
        branch_taken(self.regs.p, self.instruction.mnemonic, self.opcode, scratch.op0)
    }
}

} // verus!
