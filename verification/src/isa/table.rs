//! Opcode decode tables for the 6502 family.
use vstd::prelude::*;

use crate::isa::{AddressMode, BranchType, JumpType, MemoryAction, NoMemType, OffsetType};

verus! {

/// An opcode that a table does not define.
#[derive(Debug, PartialEq, Eq, Copy, Clone, Structural)]
pub struct OpcodeError {
    pub opcode: u8,
}

/// A decoded opcode: what it does, how it addresses memory, and how it uses the bus.
#[derive(Debug, PartialEq, Eq, Clone, Copy, Structural)]
pub struct Instruction {
    pub mnemonic: Mnemonic,
    pub address_mode: AddressMode,
    pub memory_action: MemoryAction,
}

/// Instruction mnemonics of the 6502 family, including the NMOS undocumented opcodes and
/// the Rockwell bit operations.
#[derive(Debug, PartialEq, Eq, Clone, Copy, Structural)]
pub enum Mnemonic {
    /// An opcode with no instruction on the part.
    Undefined,
    /// # Load Accumulator
    /// Loads a byte of memory into the accumulator.
    ///
    /// Memory access type: Read
    ///
    /// A,Z,N = M
    Lda,
    /// # Load X Register
    /// Loads a byte of memory into the X register.
    ///
    /// Memory access type: Read
    ///
    /// X,Z,N = M
    Ldx,
    /// # Load Y Register
    /// Loads a byte of memory into the Y register.
    ///
    /// Memory access type: Read
    ///
    /// Y,Z,N = M
    Ldy,
    /// # Store Accumulator
    /// Stores the accumulator in memory.
    ///
    /// Memory access type: Write
    ///
    /// M = A
    Sta,
    /// # Store X Register
    /// Stores the X register in memory.
    ///
    /// Memory access type: Write
    ///
    /// M = X
    Stx,
    /// # Store Y Register
    /// Stores the Y register in memory.
    ///
    /// Memory access type: Write
    ///
    /// M = Y
    Sty,
    /// # Transfer A to X
    /// Transfers the accumulator to the X register.
    ///
    /// Memory access type: None
    ///
    /// X = A
    Tax,
    /// # Transfer A to Y
    /// Transfers the accumulator to the Y register.
    ///
    /// Memory access type: None
    ///
    /// Y = A
    Tay,
    /// # Transfer X to A
    /// Transfers the X register to the accumulator.
    ///
    /// Memory access type: None
    ///
    /// A = X
    Txa,
    /// # Transfer Y to A
    /// Transfers the Y register to the accumulator.
    ///
    /// Memory access type: None
    ///
    /// A = Y
    Tya,
    /// # Transfer SP to X
    /// Transfers the stack pointer to the X register.
    ///
    /// Memory access type: None
    ///
    /// X = S
    Tsx,
    /// # Transfer X to SP
    /// Transfers the X register to the stack pointer.
    ///
    /// Memory access type: None
    ///
    /// S = X
    Txs,
    /// # Push Accumulator
    /// Pushes the accumulator onto the stack.
    ///
    /// Memory access type: Stack
    Pha,
    /// # Push Processor Status
    /// Pushes the status register onto the stack.
    ///
    /// Memory access type: Stack
    Php,
    /// # Pull Accumulator
    /// Pulls the accumulator from the stack.
    ///
    /// Memory access type: Stack
    Pla,
    /// # Pull Processor Status
    /// Pulls the status register from the stack.
    ///
    /// Memory access type: Stack
    Plp,
    /// # Logical AND
    /// Logical ANDs the accumulator with a byte of memory.
    ///
    /// Memory access type: Read
    ///
    /// A,Z,N = A&M
    And,
    /// # Logical EOR (XOR)
    /// Exclusive ORs the accumulator with a byte of memory.
    ///
    /// Memory access type: Read
    ///
    /// A,Z,N = A^M
    Eor,
    /// # Logical OR
    /// Logical ORs the accumulator with a byte of memory.
    ///
    /// Memory access type: Read
    ///
    /// A,Z,N = A|M
    Ora,
    /// # Bit Test
    /// Compares the accumulator with a byte of memory. Mask pattern in accumulator is ANDed with
    /// the value in memory to set or clear the zero flag, but the result is not kept. Bits 6 and 7
    /// of the memory value are copied into the N and V flags.
    ///
    /// Memory access type: Read
    ///
    /// Z=(A==M), N=M7, V=M6
    Bit,
    /// # Add with Carry
    /// Adds a byte of memory to the accumulator using the carry flag. The carry flag is necessarily added.
    ///
    /// Memory access type: Read
    ///
    /// A,Z,C,N = A+M+C
    Adc,
    /// # Subtract with Carry
    /// Subtracts a byte of memory from the accumulator using the carry flag. The carry flag is treated as a borrow,
    /// which is the opposite of carry, so the carry flag is cleared if a borrow is required.
    ///
    /// Memory access type: Read
    ///
    /// A,Z,C,N = A-M-(1-C)
    Sbc,
    /// # Compare Accumulator
    /// Compares the accumulator with a byte of memory. If the accumulator is greater than or equal to the memory value,
    /// the carry flag is set. The zero flag is set if the accumulator is equal to the memory value.
    /// The negative flag is set if the most significant bit of the result is set.
    ///
    /// Memory access type: Read
    ///
    /// C,Z,N = A-M
    Cmp,
    /// # Compare X Register
    /// Compares the X register with a byte of memory. If the X register is greater than or equal to the memory value,
    /// the carry flag is set. The zero flag is set if the X register is equal to the memory value.
    /// The negative flag is set if the most significant bit of the result is set.
    ///
    /// Memory access type: Read
    ///
    /// C,Z,N = X-M
    Cpx,
    /// # Compare Y Register
    /// Compares the Y register with a byte of memory. If the Y register is greater than or equal to the memory value,
    /// the carry flag is set. The zero flag is set if the Y register is equal to the memory value.
    /// The negative flag is set if the most significant bit of the result is set.
    ///
    /// Memory access type: Read
    ///
    /// C,Z,N = Y-M
    Cpy,
    /// # Increment Memory (or A)
    /// Increments a byte of memory by one. On the 65C02 and later, the accumulator can be incremented as well.
    ///
    /// Memory access type: Read-Modify-Write
    ///
    /// M,Z,N = M+1
    Inc,
    /// # Increment X Register
    /// Increments the X register by one.
    ///
    /// Memory access type: None
    ///
    /// X,Z,N = X+1
    Inx,
    /// # Increment Y Register
    /// Increments the Y register by one.
    ///
    /// Memory access type: None
    ///
    /// Y,Z,N = Y+1
    Iny,
    /// # Decrement Memory (or A)
    /// Decrements a byte of memory by one. On the 65C02 and later, the accumulator can be decremented as well.
    ///
    /// Memory access type: Read-Modify-Write
    ///
    /// M,Z,N = M-1
    Dec,
    /// # Decrement X Register
    /// Decrements the X register by one.
    ///
    /// Memory access type: None
    ///
    /// X,Z,N = X-1
    Dex,
    /// # Decrement Y Register
    /// Decrements the Y register by one.
    ///
    /// Memory access type: None
    ///
    /// Y,Z,N = Y-1
    Dey,
    /// # Arithmetic Shift Left
    /// Shifts all bits in a byte of memory or the accumulator one bit to the left. The most significant bit
    /// is shifted into the carry flag, the least significant bit is set to zero.
    ///
    /// Memory access type: Read-Modify-Write
    ///
    /// M,Z,C,N = M*2 or A,Z,C,N = A*2
    Asl,
    /// # Logical Shift Right
    /// Shifts all bits in a byte of memory or the accumulator one bit to the right. The least significant bit
    /// is shifted into the carry flag, the most significant bit is set to zero.
    ///
    /// Memory access type: Read-Modify-Write
    ///
    /// M,Z,C,N = M/2 or A,Z,C,N = A/2
    Lsr,
    /// # Rotate Left
    /// Rotates all bits in a byte of memory or the accumulator one bit to the left through the carry flag.
    /// The most significant bit is shifted into the carry flag, and the carry flag is shifted into the least
    /// significant bit.
    ///
    /// Memory access type: Read-Modify-Write
    ///
    /// M,Z,C,N = M*2 or A,Z,C,N = A*2
    Rol,
    /// # Rotate Right
    /// Rotates all bits in a byte of memory or the accumulator one bit to the right through the carry flag.
    /// The least significant bit is shifted into the carry flag, and the carry flag is shifted into the most
    /// significant bit.
    ///
    /// Memory access type: Read-Modify-Write
    ///
    /// M,Z,C,N = M/2 or A,Z,C,N = A/2
    Ror,
    /// # Jump
    /// Sets the program counter to the address specified by the operand (or the operand's address).
    ///
    /// On the 6502, in indirect addressing mode, if the low byte of the address is nnFF, the high byte
    /// is taken from nn00. This is a bug in the 6502, and is fixed in the 65C02. This is known as the
    /// "page boundary bug".
    ///
    /// Memory access type: None
    Jmp,
    /// # Jump to Subroutine
    /// Pushes the address of the next instruction onto the stack, then sets the program counter to the
    /// address specified by the operand (or the operand's address).
    ///
    /// Memory access type: None
    Jsr,
    /// # Return from Subroutine
    /// Pulls the address of the next instruction from the stack and sets the program counter to that address.
    ///
    /// Memory access type: None
    Rts,
    /// # Branch on Carry Clear
    /// Branches to the address specified by the operand if the carry flag is clear.
    ///
    /// Memory access type: None
    Bcc,
    /// # Branch on Carry Set
    /// Branches to the address specified by the operand if the carry flag is set.
    ///
    /// Memory access type: None
    Bcs,
    /// # Branch on Equal
    /// Branches to the address specified by the operand if the zero flag is set.
    ///
    /// Memory access type: None
    Beq,
    /// # Branch on Minus
    /// Branches to the address specified by the operand if the negative flag is set.
    ///
    /// Memory access type: None
    Bmi,
    /// # Branch on Not Equal
    /// Branches to the address specified by the operand if the zero flag is clear.
    ///
    /// Memory access type: None
    Bne,
    /// # Branch on Positive (Plus)
    /// Branches to the address specified by the operand if the negative flag is clear.
    ///
    /// Memory access type: None
    Bpl,
    /// # Branch on Overflow Clear
    /// Branches to the address specified by the operand if the overflow flag is clear.
    ///
    /// Memory access type: None
    Bvc,
    /// # Branch on Overflow Set
    /// Branches to the address specified by the operand if the overflow flag is set.
    ///
    /// Memory access type: None
    Bvs,
    /// # Clear Carry Flag
    /// Clears the carry flag.
    ///
    /// Memory access type: None
    Clc,
    /// # Clear Decimal Mode
    /// Clears the decimal mode flag.
    ///
    /// Memory access type: None
    Cld,
    /// # Clear Interrupt Disable
    /// Clears the interrupt disable flag.
    ///
    /// Memory access type: None
    Cli,
    /// # Clear Overflow Flag
    /// Clears the overflow flag.
    ///
    /// Memory access type: None
    Clv,
    /// # Set Carry Flag
    /// Sets the carry flag.
    ///
    /// Memory access type: None
    Sec,
    /// # Set Decimal Mode
    /// Sets the decimal mode flag.
    ///
    /// Memory access type: None
    Sed,
    /// # Set Interrupt Disable
    /// Sets the interrupt disable flag.
    ///
    /// Memory access type: None
    Sei,
    /// # Break (Force Interrupt)
    /// Forces an interrupt by pushing the program counter and status register onto the stack, then
    /// setting the program counter to the address stored at $FFFE-$FFFF.
    ///
    /// B flag is set to 1 before pushing the status register onto the stack.
    ///
    /// Memory access type: None
    Brk,
    /// # Return from Interrupt
    /// Pulls the status register and program counter from the stack.
    ///
    /// Memory access type: None
    Rti,
    /// # No Operation
    /// Does nothing.
    ///
    /// Memory access type: None
    Nop,
    /// # ALR (or ASR): AND + LSR
    /// Illegal.
    Alr,
    /// # ANC: AND + set C flag
    /// Illegal.
    Anc,
    /// # ANE (or XAA): * OR X + AND
    /// Illegal. Highly unstable.
    ///
    /// A base value in A is determined based on the contets of A and a constant, which may be typically
    /// $00, $ff, $ee, etc. The value of this constant depends on temerature, the chip series, and maybe
    /// other factors, as well. In order to eliminate these uncertaincies from the equation, use either
    /// 0 as the operand or a value of $FF in the accumulator.
    Ane,
    /// # ARR: AND + ROR
    /// Illegal. This operation involves the adder:
    /// - V-flag is set according to (A AND oper) + oper
    /// - The carry is not set, but bit 7 (sign) is exchanged with the carry
    Arr,
    /// # DCP (DCM): DEC + CMP
    /// Illegal. Decrements the operand and then compares the result to the accumulator.
    Dcp,
    /// # ISC (ISB, INS): INC + SBC
    /// Illegal.
    Isc,
    /// # LAS (LDR): LDA + TSX
    /// Illegal.
    Las,
    /// # LAX: LDA + LDX
    /// Illegal.
    Lax,
    /// # LXA (LAX Immediate): Store * AND oper in A and X
    /// Illegal. Highly Unstable.
    ///
    /// See ANE for details
    Lxa,
    /// # RLA: ROL + AND
    /// Illegal.
    Rla,
    /// # RRA: ROR + ADC
    /// Illegal.
    Rra,
    /// # SAX (AXS, AAX): A AND X
    /// Illegal. A and X are put on the bus at the same time, effectively anding them
    Sax,
    /// # SBX (AXS, SAX): CMP + DEX
    /// Illegal.
    Sbx,
    /// # SHA (AHX, AXA)
    /// Illegal. Stores A AND X AND (high-byte of addr. + 1) at addr.
    ///
    /// unstable: sometimes 'AND (H+1)' is dropped, page boundary crossings may not work (with
    /// the high-byte of the value used as the high-byte of the address)
    Sha,
    /// # SHX (A11, SXA, XAS)
    /// Illegal. Stores X AND (high-byte of addr. + 1) at addr.
    ///
    /// unstable: sometimes 'AND (H+1)' is dropped, page boundary crossings may not work (with
    /// the high-byte of the value used as the high-byte of the address)
    Shx,
    /// # SHY (A11, SYA, SAY)
    /// Illegal. Stores Y AND (high-byte of addr. + 1) at addr.
    ///
    /// unstable: sometimes 'AND (H+1)' is dropped, page boundary crossings may not work (with
    /// the high-byte of the value used as the high-byte of the address)
    Shy,
    /// # SLO (ASO): ASL + ORA
    /// Illegal.
    Slo,
    /// # SRE (LSE): LSR + EOR
    /// Illegal.
    Sre,
    /// # TAS (XAS, SHS)
    /// Illegal. Puts A AND X in SP and stores A AND X AND (high-byte of addr. + 1) at addr.
    ///
    /// unstable: sometimes 'AND (H+1)' is dropped, page boundary crossings may not work (with the
    /// high-byte of the value used as the high-byte of the address)
    Tas,
    /// # USBC (SBC): SBC + NOP
    /// Illegal. Effectively same as normal SBC immediate, instr. E9.
    Usbc,
    /// # Jam (or Kill, Halt)
    /// Illegal. CPU enters an infinite loop, eventually constantly reading from 0xFFFF until reset
    Jam,
    /// # Branch Always
    /// Branches to the relative address specified by the signed offset operand.
    ///
    /// Memory access type: None
    Bra,
    /// # Push X Register
    /// Pushes the X register onto the stack.
    ///
    /// Memory access type: Write
    Phx,
    /// # Push Y Register
    /// Pushes the Y register onto the stack.
    ///
    /// Memory access type: Write
    Phy,
    /// # Pull X Register
    /// Pulls the X register from the stack.
    ///
    /// Memory access type: Read
    Plx,
    /// # Pull Y Register
    /// Pulls the Y register from the stack.
    ///
    /// Memory access type: Read
    Ply,
    /// # Store Zero
    /// Stores zero in memory.
    ///
    /// Memory access type: Write
    Stz,
    /// # Test and Reset Bits
    /// The Z bit is set to 1 if the AND of the accumulator and memory is zero.
    /// Then, the memory is ANDed with the complement of the accumulator. Essentially, it's a backwards opposite AND.
    ///
    /// This instruction is only available on the 65C02 and later.
    ///
    /// Memory access type: Read-Modify-Write
    ///
    /// M = M&~A, Z = (A&M)==0
    Trb,
    /// # Test and Set Bits
    /// The Z bit is set to 1 if the AND of the accumulator and memory is zero.
    /// Then, the memory is ORed with the accumulator.
    ///
    /// This instruction is only available on the 65C02 and later.
    ///
    /// Memory access type: Read-Modify-Write
    ///
    /// M = M|A, Z = (A&M)==0
    Tsb,
    /// # Stop the Processor
    /// Stop the clock input to the CPU, halting the processor. The processor will not respond to any
    /// interrupts or reset signals until the clock input is restored via a hardware reset.
    ///
    /// 65C02 and later only.
    Stp,
    /// # Wait for Interrupt
    /// Stops the processor until an interrupt occurs. The processor will wait until an interrupt or reset signal
    /// (i.e. IRQ, NMI, RESET). In additiion to reducing power consumption, using WAI also ensures that the interrupt
    /// will be serviced immediately, as the processor will not be executing any instructions--it is the CPU's responsibility
    /// to finish all instructions before entering WAI.
    ///
    /// 65C02 and later only.
    Wai,
    /// # Branch on Bit Reset
    /// This instruction has two operands: 1) a zero page address to test the bit of, and 2) a relative offset.
    /// This instruction is ONLY available on the R65C02 (not the 16-bit cpus).
    Bbr0,
    /// # Branch on Bit Reset
    /// This instruction has two operands: 1) a zero page address to test the bit of, and 2) a relative offset.
    /// This instruction is ONLY available on the R65C02 (not the 16-bit cpus).
    Bbr1,
    /// # Branch on Bit Reset
    /// This instruction has two operands: 1) a zero page address to test the bit of, and 2) a relative offset.
    /// This instruction is ONLY available on the R65C02 (not the 16-bit cpus).
    Bbr2,
    /// # Branch on Bit Reset
    /// This instruction has two operands: 1) a zero page address to test the bit of, and 2) a relative offset.
    /// This instruction is ONLY available on the R65C02 (not the 16-bit cpus).
    Bbr3,
    /// # Branch on Bit Reset
    /// This instruction has two operands: 1) a zero page address to test the bit of, and 2) a relative offset.
    /// This instruction is ONLY available on the R65C02 (not the 16-bit cpus).
    Bbr4,
    /// # Branch on Bit Reset
    /// This instruction has two operands: 1) a zero page address to test the bit of, and 2) a relative offset.
    /// This instruction is ONLY available on the R65C02 (not the 16-bit cpus).
    Bbr5,
    /// # Branch on Bit Reset
    /// This instruction has two operands: 1) a zero page address to test the bit of, and 2) a relative offset.
    /// This instruction is ONLY available on the R65C02 (not the 16-bit cpus).
    Bbr6,
    /// # Branch on Bit Reset
    /// This instruction has two operands: 1) a zero page address to test the bit of, and 2) a relative offset.
    /// This instruction is ONLY available on the R65C02 (not the 16-bit cpus).
    Bbr7,
    /// # Branch on Bit Set
    /// This instruction has two operands: 1) a zero page address to test the bit of, and 2) a relative offset.
    /// This instruction is ONLY available on the R65C02 (not the 16-bit cpus).
    Bbs0,
    /// # Branch on Bit Set
    /// This instruction has two operands: 1) a zero page address to test the bit of, and 2) a relative offset.
    /// This instruction is ONLY available on the R65C02 (not the 16-bit cpus).
    Bbs1,
    /// # Branch on Bit Set
    /// This instruction has two operands: 1) a zero page address to test the bit of, and 2) a relative offset.
    /// This instruction is ONLY available on the R65C02 (not the 16-bit cpus).
    Bbs2,
    /// # Branch on Bit Set
    /// This instruction has two operands: 1) a zero page address to test the bit of, and 2) a relative offset.
    /// This instruction is ONLY available on the R65C02 (not the 16-bit cpus).
    Bbs3,
    /// # Branch on Bit Set
    /// This instruction has two operands: 1) a zero page address to test the bit of, and 2) a relative offset.
    /// This instruction is ONLY available on the R65C02 (not the 16-bit cpus).
    Bbs4,
    /// # Branch on Bit Set
    /// This instruction has two operands: 1) a zero page address to test the bit of, and 2) a relative offset.
    /// This instruction is ONLY available on the R65C02 (not the 16-bit cpus).
    Bbs5,
    /// # Branch on Bit Set
    /// This instruction has two operands: 1) a zero page address to test the bit of, and 2) a relative offset.
    /// This instruction is ONLY available on the R65C02 (not the 16-bit cpus).
    Bbs6,
    /// # Branch on Bit Set
    /// This instruction has two operands: 1) a zero page address to test the bit of, and 2) a relative offset.
    /// This instruction is ONLY available on the R65C02 (not the 16-bit cpus).
    Bbs7,
    /// # Reset Memory Bit
    /// Clear the bit in th zero page memory location specified in the operand.
    /// This instruction is ONLY available on the R65C02 (not the 16-bit cpus).
    Rmb0,
    /// # Reset Memory Bit
    /// Clear the bit in th zero page memory location specified in the operand.
    /// This instruction is ONLY available on the R65C02 (not the 16-bit cpus).
    Rmb1,
    /// # Reset Memory Bit
    /// Clear the bit in th zero page memory location specified in the operand.
    /// This instruction is ONLY available on the R65C02 (not the 16-bit cpus).
    Rmb2,
    /// # Reset Memory Bit
    /// Clear the bit in th zero page memory location specified in the operand.
    /// This instruction is ONLY available on the R65C02 (not the 16-bit cpus).
    Rmb3,
    /// # Reset Memory Bit
    /// Clear the bit in th zero page memory location specified in the operand.
    /// This instruction is ONLY available on the R65C02 (not the 16-bit cpus).
    Rmb4,
    /// # Reset Memory Bit
    /// Clear the bit in th zero page memory location specified in the operand.
    /// This instruction is ONLY available on the R65C02 (not the 16-bit cpus).
    Rmb5,
    /// # Reset Memory Bit
    /// Clear the bit in th zero page memory location specified in the operand.
    /// This instruction is ONLY available on the R65C02 (not the 16-bit cpus).
    Rmb6,
    /// # Reset Memory Bit
    /// Clear the bit in th zero page memory location specified in the operand.
    /// This instruction is ONLY available on the R65C02 (not the 16-bit cpus).
    Rmb7,
    /// # Set Memory Bit
    /// Set the bit in the zero page memory location specified in the operand.
    /// This instruction is ONLY available on the R65C02 (not the 16-bit cpus).
    Smb0,
    /// # Set Memory Bit
    /// Set the bit in the zero page memory location specified in the operand.
    /// This instruction is ONLY available on the R65C02 (not the 16-bit cpus).
    Smb1,
    /// # Set Memory Bit
    /// Set the bit in the zero page memory location specified in the operand.
    /// This instruction is ONLY available on the R65C02 (not the 16-bit cpus).
    Smb2,
    /// # Set Memory Bit
    /// Set the bit in the zero page memory location specified in the operand.
    /// This instruction is ONLY available on the R65C02 (not the 16-bit cpus).
    Smb3,
    /// # Set Memory Bit
    /// Set the bit in the zero page memory location specified in the operand.
    /// This instruction is ONLY available on the R65C02 (not the 16-bit cpus).
    Smb4,
    /// # Set Memory Bit
    /// Set the bit in the zero page memory location specified in the operand.
    /// This instruction is ONLY available on the R65C02 (not the 16-bit cpus).
    Smb5,
    /// # Set Memory Bit
    /// Set the bit in the zero page memory location specified in the operand.
    /// This instruction is ONLY available on the R65C02 (not the 16-bit cpus).
    Smb6,
    /// # Set Memory Bit
    /// Set the bit in the zero page memory location specified in the operand.
    /// This instruction is ONLY available on the R65C02 (not the 16-bit cpus).
    Smb7,
}

/// The parts whose opcode maps can be decoded.
#[derive(Debug, PartialEq, Eq, Clone, Copy, Structural)]
pub enum OpcodeTable {
    /// NMOS 6502, with the undocumented opcodes.
    Nmos,
    /// WDC 65C02, with the Rockwell bit operations and WAI/STP.
    Cmos,
    /// 65C816 (emulation of its opcode map only).
    Wdc816,
    /// Synertek 65C02: no bit operations, no WAI/STP.
    Synertek,
    /// Rockwell 65C02: no WAI/STP.
    Rockwell,
}

/// How an instruction uses the bus at its effective address.
pub open spec fn spec_action(mnemonic: Mnemonic) -> MemoryAction {
    match mnemonic {
        Mnemonic::Sta | Mnemonic::Stx | Mnemonic::Sty | Mnemonic::Stz | Mnemonic::Pha | Mnemonic::Php | Mnemonic::Phx | Mnemonic::Phy | Mnemonic::Sax | Mnemonic::Sha | Mnemonic::Shx | Mnemonic::Shy | Mnemonic::Tas => MemoryAction::Write,
        Mnemonic::Asl | Mnemonic::Lsr | Mnemonic::Rol | Mnemonic::Ror | Mnemonic::Inc | Mnemonic::Dec | Mnemonic::Tsb | Mnemonic::Trb | Mnemonic::Rmb0 | Mnemonic::Rmb1 | Mnemonic::Rmb2 | Mnemonic::Rmb3 | Mnemonic::Rmb4 | Mnemonic::Rmb5 | Mnemonic::Rmb6 | Mnemonic::Rmb7 | Mnemonic::Smb0 | Mnemonic::Smb1 | Mnemonic::Smb2 | Mnemonic::Smb3 | Mnemonic::Smb4 | Mnemonic::Smb5 | Mnemonic::Smb6 | Mnemonic::Smb7 | Mnemonic::Slo | Mnemonic::Rla | Mnemonic::Sre | Mnemonic::Rra | Mnemonic::Dcp | Mnemonic::Isc => MemoryAction::ReadModifyWrite,
        _ => MemoryAction::Read,
    }
}

/// The memory action of a mnemonic: stores write, shifts, increments and bit operations
/// read, modify and write back, everything else reads (or does nothing on the bus).
pub fn action_for_mnemonic(mnemonic: Mnemonic) -> (r: MemoryAction)
    ensures
        r == spec_action(mnemonic),
{
    match mnemonic {
        Mnemonic::Sta | Mnemonic::Stx | Mnemonic::Sty | Mnemonic::Stz | Mnemonic::Pha | Mnemonic::Php | Mnemonic::Phx | Mnemonic::Phy | Mnemonic::Sax | Mnemonic::Sha | Mnemonic::Shx | Mnemonic::Shy | Mnemonic::Tas => MemoryAction::Write,
        Mnemonic::Asl | Mnemonic::Lsr | Mnemonic::Rol | Mnemonic::Ror | Mnemonic::Inc | Mnemonic::Dec | Mnemonic::Tsb | Mnemonic::Trb | Mnemonic::Rmb0 | Mnemonic::Rmb1 | Mnemonic::Rmb2 | Mnemonic::Rmb3 | Mnemonic::Rmb4 | Mnemonic::Rmb5 | Mnemonic::Rmb6 | Mnemonic::Rmb7 | Mnemonic::Smb0 | Mnemonic::Smb1 | Mnemonic::Smb2 | Mnemonic::Smb3 | Mnemonic::Smb4 | Mnemonic::Smb5 | Mnemonic::Smb6 | Mnemonic::Smb7 | Mnemonic::Slo | Mnemonic::Rla | Mnemonic::Sre | Mnemonic::Rra | Mnemonic::Dcp | Mnemonic::Isc => MemoryAction::ReadModifyWrite,
        _ => MemoryAction::Read,
    }
}

/// The table entry for `mnemonic` in `mode`.
pub open spec fn spec_entry(mnemonic: Mnemonic, mode: AddressMode) -> Instruction {
    Instruction { mnemonic, address_mode: mode, memory_action: spec_action(mnemonic) }
}

/// The entry of an opcode that a table leaves undefined: an implied no-op.
pub open spec fn undefined_entry() -> Instruction {
    Instruction {
        mnemonic: Mnemonic::Undefined,
        address_mode: AddressMode::NoMemory(NoMemType::Implied),
        memory_action: MemoryAction::Read,
    }
}

fn entry(mnemonic: Mnemonic, mode: AddressMode) -> (r: Instruction)
    ensures
        r == spec_entry(mnemonic, mode),
{
    Instruction { mnemonic, address_mode: mode, memory_action: action_for_mnemonic(mnemonic) }
}

fn undefined() -> (r: Instruction)
    ensures
        r == undefined_entry(),
{
    Instruction {
        mnemonic: Mnemonic::Undefined,
        address_mode: AddressMode::NoMemory(NoMemType::Implied),
        memory_action: MemoryAction::Read,
    }
}

/// The NMOS 6502 opcode map.
#[verifier::opaque]
pub open spec fn nmos_entry(op: u8) -> Instruction {
    match op {
        0x00 => spec_entry(Mnemonic::Brk, AddressMode::Jump(JumpType::ToInterrupt)),
        0x01 => spec_entry(Mnemonic::Ora, AddressMode::DpIndirect(OffsetType::X)),
        0x02 => spec_entry(Mnemonic::Jam, AddressMode::Jam),
        0x03 => spec_entry(Mnemonic::Slo, AddressMode::DpIndirect(OffsetType::X)),
        0x04 => spec_entry(Mnemonic::Nop, AddressMode::DirectPage(OffsetType::NoOffset)),
        0x05 => spec_entry(Mnemonic::Ora, AddressMode::DirectPage(OffsetType::NoOffset)),
        0x06 => spec_entry(Mnemonic::Asl, AddressMode::DirectPage(OffsetType::NoOffset)),
        0x07 => spec_entry(Mnemonic::Slo, AddressMode::DirectPage(OffsetType::NoOffset)),
        0x08 => spec_entry(Mnemonic::Php, AddressMode::Stack),
        0x09 => spec_entry(Mnemonic::Ora, AddressMode::NoMemory(NoMemType::Immediate)),
        0x0A => spec_entry(Mnemonic::Asl, AddressMode::NoMemory(NoMemType::Implied)),
        0x0B => spec_entry(Mnemonic::Anc, AddressMode::NoMemory(NoMemType::Immediate)),
        0x0C => spec_entry(Mnemonic::Nop, AddressMode::Absolute(OffsetType::NoOffset)),
        0x0D => spec_entry(Mnemonic::Ora, AddressMode::Absolute(OffsetType::NoOffset)),
        0x0E => spec_entry(Mnemonic::Asl, AddressMode::Absolute(OffsetType::NoOffset)),
        0x0F => spec_entry(Mnemonic::Slo, AddressMode::Absolute(OffsetType::NoOffset)),
        0x10 => spec_entry(Mnemonic::Bpl, AddressMode::Branch(BranchType::Relative)),
        0x11 => spec_entry(Mnemonic::Ora, AddressMode::DpIndirect(OffsetType::Y)),
        0x12 => spec_entry(Mnemonic::Jam, AddressMode::Jam),
        0x13 => spec_entry(Mnemonic::Slo, AddressMode::DpIndirect(OffsetType::Y)),
        0x14 => spec_entry(Mnemonic::Nop, AddressMode::DirectPage(OffsetType::X)),
        0x15 => spec_entry(Mnemonic::Ora, AddressMode::DirectPage(OffsetType::X)),
        0x16 => spec_entry(Mnemonic::Asl, AddressMode::DirectPage(OffsetType::X)),
        0x17 => spec_entry(Mnemonic::Slo, AddressMode::DirectPage(OffsetType::X)),
        0x18 => spec_entry(Mnemonic::Clc, AddressMode::NoMemory(NoMemType::Implied)),
        0x19 => spec_entry(Mnemonic::Ora, AddressMode::Absolute(OffsetType::Y)),
        0x1A => spec_entry(Mnemonic::Nop, AddressMode::NoMemory(NoMemType::Implied)),
        0x1B => spec_entry(Mnemonic::Slo, AddressMode::Absolute(OffsetType::Y)),
        0x1C => spec_entry(Mnemonic::Nop, AddressMode::Absolute(OffsetType::X)),
        0x1D => spec_entry(Mnemonic::Ora, AddressMode::Absolute(OffsetType::X)),
        0x1E => spec_entry(Mnemonic::Asl, AddressMode::Absolute(OffsetType::X)),
        0x1F => spec_entry(Mnemonic::Slo, AddressMode::Absolute(OffsetType::X)),
        0x20 => spec_entry(Mnemonic::Jsr, AddressMode::Jump(JumpType::ToSubroutine)),
        0x21 => spec_entry(Mnemonic::And, AddressMode::DpIndirect(OffsetType::X)),
        0x22 => spec_entry(Mnemonic::Jam, AddressMode::Jam),
        0x23 => spec_entry(Mnemonic::Rla, AddressMode::DpIndirect(OffsetType::X)),
        0x24 => spec_entry(Mnemonic::Bit, AddressMode::DirectPage(OffsetType::NoOffset)),
        0x25 => spec_entry(Mnemonic::And, AddressMode::DirectPage(OffsetType::NoOffset)),
        0x26 => spec_entry(Mnemonic::Rol, AddressMode::DirectPage(OffsetType::NoOffset)),
        0x27 => spec_entry(Mnemonic::Rla, AddressMode::DirectPage(OffsetType::NoOffset)),
        0x28 => spec_entry(Mnemonic::Plp, AddressMode::Stack),
        0x29 => spec_entry(Mnemonic::And, AddressMode::NoMemory(NoMemType::Immediate)),
        0x2A => spec_entry(Mnemonic::Rol, AddressMode::NoMemory(NoMemType::Implied)),
        0x2B => spec_entry(Mnemonic::Anc, AddressMode::NoMemory(NoMemType::Immediate)),
        0x2C => spec_entry(Mnemonic::Bit, AddressMode::Absolute(OffsetType::NoOffset)),
        0x2D => spec_entry(Mnemonic::And, AddressMode::Absolute(OffsetType::NoOffset)),
        0x2E => spec_entry(Mnemonic::Rol, AddressMode::Absolute(OffsetType::NoOffset)),
        0x2F => spec_entry(Mnemonic::Rla, AddressMode::Absolute(OffsetType::NoOffset)),
        0x30 => spec_entry(Mnemonic::Bmi, AddressMode::Branch(BranchType::Relative)),
        0x31 => spec_entry(Mnemonic::And, AddressMode::DpIndirect(OffsetType::Y)),
        0x32 => spec_entry(Mnemonic::Jam, AddressMode::Jam),
        0x33 => spec_entry(Mnemonic::Rla, AddressMode::DpIndirect(OffsetType::Y)),
        0x34 => spec_entry(Mnemonic::Nop, AddressMode::DirectPage(OffsetType::X)),
        0x35 => spec_entry(Mnemonic::And, AddressMode::DirectPage(OffsetType::X)),
        0x36 => spec_entry(Mnemonic::Rol, AddressMode::DirectPage(OffsetType::X)),
        0x37 => spec_entry(Mnemonic::Rla, AddressMode::DirectPage(OffsetType::X)),
        0x38 => spec_entry(Mnemonic::Sec, AddressMode::NoMemory(NoMemType::Implied)),
        0x39 => spec_entry(Mnemonic::And, AddressMode::Absolute(OffsetType::Y)),
        0x3A => spec_entry(Mnemonic::Nop, AddressMode::NoMemory(NoMemType::Implied)),
        0x3B => spec_entry(Mnemonic::Rla, AddressMode::Absolute(OffsetType::Y)),
        0x3C => spec_entry(Mnemonic::Nop, AddressMode::Absolute(OffsetType::X)),
        0x3D => spec_entry(Mnemonic::And, AddressMode::Absolute(OffsetType::X)),
        0x3E => spec_entry(Mnemonic::Rol, AddressMode::Absolute(OffsetType::X)),
        0x3F => spec_entry(Mnemonic::Rla, AddressMode::Absolute(OffsetType::X)),
        0x40 => spec_entry(Mnemonic::Rti, AddressMode::Jump(JumpType::FromInterrupt)),
        0x41 => spec_entry(Mnemonic::Eor, AddressMode::DpIndirect(OffsetType::X)),
        0x42 => spec_entry(Mnemonic::Jam, AddressMode::Jam),
        0x43 => spec_entry(Mnemonic::Sre, AddressMode::DpIndirect(OffsetType::X)),
        0x44 => spec_entry(Mnemonic::Nop, AddressMode::DirectPage(OffsetType::NoOffset)),
        0x45 => spec_entry(Mnemonic::Eor, AddressMode::DirectPage(OffsetType::NoOffset)),
        0x46 => spec_entry(Mnemonic::Lsr, AddressMode::DirectPage(OffsetType::NoOffset)),
        0x47 => spec_entry(Mnemonic::Sre, AddressMode::DirectPage(OffsetType::NoOffset)),
        0x48 => spec_entry(Mnemonic::Pha, AddressMode::Stack),
        0x49 => spec_entry(Mnemonic::Eor, AddressMode::NoMemory(NoMemType::Immediate)),
        0x4A => spec_entry(Mnemonic::Lsr, AddressMode::NoMemory(NoMemType::Implied)),
        0x4B => spec_entry(Mnemonic::Alr, AddressMode::NoMemory(NoMemType::Immediate)),
        0x4C => spec_entry(Mnemonic::Jmp, AddressMode::Jump(JumpType::JmpAbsolute)),
        0x4D => spec_entry(Mnemonic::Eor, AddressMode::Absolute(OffsetType::NoOffset)),
        0x4E => spec_entry(Mnemonic::Lsr, AddressMode::Absolute(OffsetType::NoOffset)),
        0x4F => spec_entry(Mnemonic::Sre, AddressMode::Absolute(OffsetType::NoOffset)),
        0x50 => spec_entry(Mnemonic::Bvc, AddressMode::Branch(BranchType::Relative)),
        0x51 => spec_entry(Mnemonic::Eor, AddressMode::DpIndirect(OffsetType::Y)),
        0x52 => spec_entry(Mnemonic::Jam, AddressMode::Jam),
        0x53 => spec_entry(Mnemonic::Sre, AddressMode::DpIndirect(OffsetType::Y)),
        0x54 => spec_entry(Mnemonic::Nop, AddressMode::DirectPage(OffsetType::X)),
        0x55 => spec_entry(Mnemonic::Eor, AddressMode::DirectPage(OffsetType::X)),
        0x56 => spec_entry(Mnemonic::Lsr, AddressMode::DirectPage(OffsetType::X)),
        0x57 => spec_entry(Mnemonic::Sre, AddressMode::DirectPage(OffsetType::X)),
        0x58 => spec_entry(Mnemonic::Cli, AddressMode::NoMemory(NoMemType::Implied)),
        0x59 => spec_entry(Mnemonic::Eor, AddressMode::Absolute(OffsetType::Y)),
        0x5A => spec_entry(Mnemonic::Nop, AddressMode::NoMemory(NoMemType::Implied)),
        0x5B => spec_entry(Mnemonic::Sre, AddressMode::Absolute(OffsetType::Y)),
        0x5C => spec_entry(Mnemonic::Nop, AddressMode::Absolute(OffsetType::X)),
        0x5D => spec_entry(Mnemonic::Eor, AddressMode::Absolute(OffsetType::X)),
        0x5E => spec_entry(Mnemonic::Lsr, AddressMode::Absolute(OffsetType::X)),
        0x5F => spec_entry(Mnemonic::Sre, AddressMode::Absolute(OffsetType::X)),
        0x60 => spec_entry(Mnemonic::Rts, AddressMode::Jump(JumpType::FromSubroutine)),
        0x61 => spec_entry(Mnemonic::Adc, AddressMode::DpIndirect(OffsetType::X)),
        0x62 => spec_entry(Mnemonic::Jam, AddressMode::Jam),
        0x63 => spec_entry(Mnemonic::Rra, AddressMode::DpIndirect(OffsetType::X)),
        0x64 => spec_entry(Mnemonic::Nop, AddressMode::DirectPage(OffsetType::NoOffset)),
        0x65 => spec_entry(Mnemonic::Adc, AddressMode::DirectPage(OffsetType::NoOffset)),
        0x66 => spec_entry(Mnemonic::Ror, AddressMode::DirectPage(OffsetType::NoOffset)),
        0x67 => spec_entry(Mnemonic::Rra, AddressMode::DirectPage(OffsetType::NoOffset)),
        0x68 => spec_entry(Mnemonic::Pla, AddressMode::Stack),
        0x69 => spec_entry(Mnemonic::Adc, AddressMode::NoMemory(NoMemType::Immediate)),
        0x6A => spec_entry(Mnemonic::Ror, AddressMode::NoMemory(NoMemType::Implied)),
        0x6B => spec_entry(Mnemonic::Arr, AddressMode::NoMemory(NoMemType::Immediate)),
        0x6C => spec_entry(Mnemonic::Jmp, AddressMode::Jump(JumpType::JmpIndirect)),
        0x6D => spec_entry(Mnemonic::Adc, AddressMode::Absolute(OffsetType::NoOffset)),
        0x6E => spec_entry(Mnemonic::Ror, AddressMode::Absolute(OffsetType::NoOffset)),
        0x6F => spec_entry(Mnemonic::Rra, AddressMode::Absolute(OffsetType::NoOffset)),
        0x70 => spec_entry(Mnemonic::Bvs, AddressMode::Branch(BranchType::Relative)),
        0x71 => spec_entry(Mnemonic::Adc, AddressMode::DpIndirect(OffsetType::Y)),
        0x72 => spec_entry(Mnemonic::Jam, AddressMode::Jam),
        0x73 => spec_entry(Mnemonic::Rra, AddressMode::DpIndirect(OffsetType::Y)),
        0x74 => spec_entry(Mnemonic::Nop, AddressMode::DirectPage(OffsetType::X)),
        0x75 => spec_entry(Mnemonic::Adc, AddressMode::DirectPage(OffsetType::X)),
        0x76 => spec_entry(Mnemonic::Ror, AddressMode::DirectPage(OffsetType::X)),
        0x77 => spec_entry(Mnemonic::Rra, AddressMode::DirectPage(OffsetType::X)),
        0x78 => spec_entry(Mnemonic::Sei, AddressMode::NoMemory(NoMemType::Implied)),
        0x79 => spec_entry(Mnemonic::Adc, AddressMode::Absolute(OffsetType::Y)),
        0x7A => spec_entry(Mnemonic::Nop, AddressMode::NoMemory(NoMemType::Implied)),
        0x7B => spec_entry(Mnemonic::Rra, AddressMode::Absolute(OffsetType::Y)),
        0x7C => spec_entry(Mnemonic::Nop, AddressMode::Absolute(OffsetType::X)),
        0x7D => spec_entry(Mnemonic::Adc, AddressMode::Absolute(OffsetType::X)),
        0x7E => spec_entry(Mnemonic::Ror, AddressMode::Absolute(OffsetType::X)),
        0x7F => spec_entry(Mnemonic::Rra, AddressMode::Absolute(OffsetType::X)),
        0x80 => spec_entry(Mnemonic::Nop, AddressMode::NoMemory(NoMemType::Immediate)),
        0x81 => spec_entry(Mnemonic::Sta, AddressMode::DpIndirect(OffsetType::X)),
        0x82 => spec_entry(Mnemonic::Nop, AddressMode::NoMemory(NoMemType::Immediate)),
        0x83 => spec_entry(Mnemonic::Sax, AddressMode::DpIndirect(OffsetType::X)),
        0x84 => spec_entry(Mnemonic::Sty, AddressMode::DirectPage(OffsetType::NoOffset)),
        0x85 => spec_entry(Mnemonic::Sta, AddressMode::DirectPage(OffsetType::NoOffset)),
        0x86 => spec_entry(Mnemonic::Stx, AddressMode::DirectPage(OffsetType::NoOffset)),
        0x87 => spec_entry(Mnemonic::Sax, AddressMode::DirectPage(OffsetType::NoOffset)),
        0x88 => spec_entry(Mnemonic::Dey, AddressMode::NoMemory(NoMemType::Implied)),
        0x89 => spec_entry(Mnemonic::Nop, AddressMode::NoMemory(NoMemType::Immediate)),
        0x8A => spec_entry(Mnemonic::Txa, AddressMode::NoMemory(NoMemType::Implied)),
        0x8B => spec_entry(Mnemonic::Ane, AddressMode::NoMemory(NoMemType::Immediate)),
        0x8C => spec_entry(Mnemonic::Sty, AddressMode::Absolute(OffsetType::NoOffset)),
        0x8D => spec_entry(Mnemonic::Sta, AddressMode::Absolute(OffsetType::NoOffset)),
        0x8E => spec_entry(Mnemonic::Stx, AddressMode::Absolute(OffsetType::NoOffset)),
        0x8F => spec_entry(Mnemonic::Sax, AddressMode::Absolute(OffsetType::NoOffset)),
        0x90 => spec_entry(Mnemonic::Bcc, AddressMode::Branch(BranchType::Relative)),
        0x91 => spec_entry(Mnemonic::Sta, AddressMode::DpIndirect(OffsetType::Y)),
        0x92 => spec_entry(Mnemonic::Jam, AddressMode::Jam),
        0x93 => spec_entry(Mnemonic::Sha, AddressMode::DpIndirect(OffsetType::Y)),
        0x94 => spec_entry(Mnemonic::Sty, AddressMode::DirectPage(OffsetType::X)),
        0x95 => spec_entry(Mnemonic::Sta, AddressMode::DirectPage(OffsetType::X)),
        0x96 => spec_entry(Mnemonic::Stx, AddressMode::DirectPage(OffsetType::Y)),
        0x97 => spec_entry(Mnemonic::Sax, AddressMode::DirectPage(OffsetType::Y)),
        0x98 => spec_entry(Mnemonic::Tya, AddressMode::NoMemory(NoMemType::Implied)),
        0x99 => spec_entry(Mnemonic::Sta, AddressMode::Absolute(OffsetType::Y)),
        0x9A => spec_entry(Mnemonic::Txs, AddressMode::NoMemory(NoMemType::Implied)),
        0x9B => spec_entry(Mnemonic::Tas, AddressMode::Absolute(OffsetType::Y)),
        0x9C => spec_entry(Mnemonic::Shy, AddressMode::Absolute(OffsetType::X)),
        0x9D => spec_entry(Mnemonic::Sta, AddressMode::Absolute(OffsetType::X)),
        0x9E => spec_entry(Mnemonic::Shx, AddressMode::Absolute(OffsetType::Y)),
        0x9F => spec_entry(Mnemonic::Sha, AddressMode::Absolute(OffsetType::Y)),
        0xA0 => spec_entry(Mnemonic::Ldy, AddressMode::NoMemory(NoMemType::Immediate)),
        0xA1 => spec_entry(Mnemonic::Lda, AddressMode::DpIndirect(OffsetType::X)),
        0xA2 => spec_entry(Mnemonic::Ldx, AddressMode::NoMemory(NoMemType::Immediate)),
        0xA3 => spec_entry(Mnemonic::Lax, AddressMode::DpIndirect(OffsetType::X)),
        0xA4 => spec_entry(Mnemonic::Ldy, AddressMode::DirectPage(OffsetType::NoOffset)),
        0xA5 => spec_entry(Mnemonic::Lda, AddressMode::DirectPage(OffsetType::NoOffset)),
        0xA6 => spec_entry(Mnemonic::Ldx, AddressMode::DirectPage(OffsetType::NoOffset)),
        0xA7 => spec_entry(Mnemonic::Lax, AddressMode::DirectPage(OffsetType::NoOffset)),
        0xA8 => spec_entry(Mnemonic::Tay, AddressMode::NoMemory(NoMemType::Implied)),
        0xA9 => spec_entry(Mnemonic::Lda, AddressMode::NoMemory(NoMemType::Immediate)),
        0xAA => spec_entry(Mnemonic::Tax, AddressMode::NoMemory(NoMemType::Implied)),
        0xAB => spec_entry(Mnemonic::Lxa, AddressMode::NoMemory(NoMemType::Immediate)),
        0xAC => spec_entry(Mnemonic::Ldy, AddressMode::Absolute(OffsetType::NoOffset)),
        0xAD => spec_entry(Mnemonic::Lda, AddressMode::Absolute(OffsetType::NoOffset)),
        0xAE => spec_entry(Mnemonic::Ldx, AddressMode::Absolute(OffsetType::NoOffset)),
        0xAF => spec_entry(Mnemonic::Lax, AddressMode::Absolute(OffsetType::NoOffset)),
        0xB0 => spec_entry(Mnemonic::Bcs, AddressMode::Branch(BranchType::Relative)),
        0xB1 => spec_entry(Mnemonic::Lda, AddressMode::DpIndirect(OffsetType::Y)),
        0xB2 => spec_entry(Mnemonic::Jam, AddressMode::Jam),
        0xB3 => spec_entry(Mnemonic::Lax, AddressMode::DpIndirect(OffsetType::Y)),
        0xB4 => spec_entry(Mnemonic::Ldy, AddressMode::DirectPage(OffsetType::X)),
        0xB5 => spec_entry(Mnemonic::Lda, AddressMode::DirectPage(OffsetType::X)),
        0xB6 => spec_entry(Mnemonic::Ldx, AddressMode::DirectPage(OffsetType::Y)),
        0xB7 => spec_entry(Mnemonic::Lax, AddressMode::DirectPage(OffsetType::Y)),
        0xB8 => spec_entry(Mnemonic::Clv, AddressMode::NoMemory(NoMemType::Implied)),
        0xB9 => spec_entry(Mnemonic::Lda, AddressMode::Absolute(OffsetType::Y)),
        0xBA => spec_entry(Mnemonic::Tsx, AddressMode::NoMemory(NoMemType::Implied)),
        0xBB => spec_entry(Mnemonic::Las, AddressMode::Absolute(OffsetType::Y)),
        0xBC => spec_entry(Mnemonic::Ldy, AddressMode::Absolute(OffsetType::X)),
        0xBD => spec_entry(Mnemonic::Lda, AddressMode::Absolute(OffsetType::X)),
        0xBE => spec_entry(Mnemonic::Ldx, AddressMode::Absolute(OffsetType::Y)),
        0xBF => spec_entry(Mnemonic::Lax, AddressMode::Absolute(OffsetType::Y)),
        0xC0 => spec_entry(Mnemonic::Cpy, AddressMode::NoMemory(NoMemType::Immediate)),
        0xC1 => spec_entry(Mnemonic::Cmp, AddressMode::DpIndirect(OffsetType::X)),
        0xC2 => spec_entry(Mnemonic::Nop, AddressMode::NoMemory(NoMemType::Immediate)),
        0xC3 => spec_entry(Mnemonic::Dcp, AddressMode::DpIndirect(OffsetType::X)),
        0xC4 => spec_entry(Mnemonic::Cpy, AddressMode::DirectPage(OffsetType::NoOffset)),
        0xC5 => spec_entry(Mnemonic::Cmp, AddressMode::DirectPage(OffsetType::NoOffset)),
        0xC6 => spec_entry(Mnemonic::Dec, AddressMode::DirectPage(OffsetType::NoOffset)),
        0xC7 => spec_entry(Mnemonic::Dcp, AddressMode::DirectPage(OffsetType::NoOffset)),
        0xC8 => spec_entry(Mnemonic::Iny, AddressMode::NoMemory(NoMemType::Implied)),
        0xC9 => spec_entry(Mnemonic::Cmp, AddressMode::NoMemory(NoMemType::Immediate)),
        0xCA => spec_entry(Mnemonic::Dex, AddressMode::NoMemory(NoMemType::Implied)),
        0xCB => spec_entry(Mnemonic::Sbx, AddressMode::NoMemory(NoMemType::Immediate)),
        0xCC => spec_entry(Mnemonic::Cpy, AddressMode::Absolute(OffsetType::NoOffset)),
        0xCD => spec_entry(Mnemonic::Cmp, AddressMode::Absolute(OffsetType::NoOffset)),
        0xCE => spec_entry(Mnemonic::Dec, AddressMode::Absolute(OffsetType::NoOffset)),
        0xCF => spec_entry(Mnemonic::Dcp, AddressMode::Absolute(OffsetType::NoOffset)),
        0xD0 => spec_entry(Mnemonic::Bne, AddressMode::Branch(BranchType::Relative)),
        0xD1 => spec_entry(Mnemonic::Cmp, AddressMode::DpIndirect(OffsetType::Y)),
        0xD2 => spec_entry(Mnemonic::Jam, AddressMode::Jam),
        0xD3 => spec_entry(Mnemonic::Dcp, AddressMode::DpIndirect(OffsetType::Y)),
        0xD4 => spec_entry(Mnemonic::Nop, AddressMode::DirectPage(OffsetType::X)),
        0xD5 => spec_entry(Mnemonic::Cmp, AddressMode::DirectPage(OffsetType::X)),
        0xD6 => spec_entry(Mnemonic::Dec, AddressMode::DirectPage(OffsetType::X)),
        0xD7 => spec_entry(Mnemonic::Dcp, AddressMode::DirectPage(OffsetType::X)),
        0xD8 => spec_entry(Mnemonic::Cld, AddressMode::NoMemory(NoMemType::Implied)),
        0xD9 => spec_entry(Mnemonic::Cmp, AddressMode::Absolute(OffsetType::Y)),
        0xDA => spec_entry(Mnemonic::Nop, AddressMode::NoMemory(NoMemType::Implied)),
        0xDB => spec_entry(Mnemonic::Dcp, AddressMode::Absolute(OffsetType::Y)),
        0xDC => spec_entry(Mnemonic::Nop, AddressMode::Absolute(OffsetType::X)),
        0xDD => spec_entry(Mnemonic::Cmp, AddressMode::Absolute(OffsetType::X)),
        0xDE => spec_entry(Mnemonic::Dec, AddressMode::Absolute(OffsetType::X)),
        0xDF => spec_entry(Mnemonic::Dcp, AddressMode::Absolute(OffsetType::X)),
        0xE0 => spec_entry(Mnemonic::Cpx, AddressMode::NoMemory(NoMemType::Immediate)),
        0xE1 => spec_entry(Mnemonic::Sbc, AddressMode::DpIndirect(OffsetType::X)),
        0xE2 => spec_entry(Mnemonic::Nop, AddressMode::NoMemory(NoMemType::Immediate)),
        0xE3 => spec_entry(Mnemonic::Isc, AddressMode::DpIndirect(OffsetType::X)),
        0xE4 => spec_entry(Mnemonic::Cpx, AddressMode::DirectPage(OffsetType::NoOffset)),
        0xE5 => spec_entry(Mnemonic::Sbc, AddressMode::DirectPage(OffsetType::NoOffset)),
        0xE6 => spec_entry(Mnemonic::Inc, AddressMode::DirectPage(OffsetType::NoOffset)),
        0xE7 => spec_entry(Mnemonic::Isc, AddressMode::DirectPage(OffsetType::NoOffset)),
        0xE8 => spec_entry(Mnemonic::Inx, AddressMode::NoMemory(NoMemType::Implied)),
        0xE9 => spec_entry(Mnemonic::Sbc, AddressMode::NoMemory(NoMemType::Immediate)),
        0xEA => spec_entry(Mnemonic::Nop, AddressMode::NoMemory(NoMemType::Implied)),
        0xEB => spec_entry(Mnemonic::Usbc, AddressMode::NoMemory(NoMemType::Immediate)),
        0xEC => spec_entry(Mnemonic::Cpx, AddressMode::Absolute(OffsetType::NoOffset)),
        0xED => spec_entry(Mnemonic::Sbc, AddressMode::Absolute(OffsetType::NoOffset)),
        0xEE => spec_entry(Mnemonic::Inc, AddressMode::Absolute(OffsetType::NoOffset)),
        0xEF => spec_entry(Mnemonic::Isc, AddressMode::Absolute(OffsetType::NoOffset)),
        0xF0 => spec_entry(Mnemonic::Beq, AddressMode::Branch(BranchType::Relative)),
        0xF1 => spec_entry(Mnemonic::Sbc, AddressMode::DpIndirect(OffsetType::Y)),
        0xF2 => spec_entry(Mnemonic::Jam, AddressMode::Jam),
        0xF3 => spec_entry(Mnemonic::Isc, AddressMode::DpIndirect(OffsetType::Y)),
        0xF4 => spec_entry(Mnemonic::Nop, AddressMode::DirectPage(OffsetType::X)),
        0xF5 => spec_entry(Mnemonic::Sbc, AddressMode::DirectPage(OffsetType::X)),
        0xF6 => spec_entry(Mnemonic::Inc, AddressMode::DirectPage(OffsetType::X)),
        0xF7 => spec_entry(Mnemonic::Isc, AddressMode::DirectPage(OffsetType::X)),
        0xF8 => spec_entry(Mnemonic::Sed, AddressMode::NoMemory(NoMemType::Implied)),
        0xF9 => spec_entry(Mnemonic::Sbc, AddressMode::Absolute(OffsetType::Y)),
        0xFA => spec_entry(Mnemonic::Nop, AddressMode::NoMemory(NoMemType::Implied)),
        0xFB => spec_entry(Mnemonic::Isc, AddressMode::Absolute(OffsetType::Y)),
        0xFC => spec_entry(Mnemonic::Nop, AddressMode::Absolute(OffsetType::X)),
        0xFD => spec_entry(Mnemonic::Sbc, AddressMode::Absolute(OffsetType::X)),
        0xFE => spec_entry(Mnemonic::Inc, AddressMode::Absolute(OffsetType::X)),
        0xFF => spec_entry(Mnemonic::Isc, AddressMode::Absolute(OffsetType::X)),
    }
}

/// The WDC 65C02 opcode map.
#[verifier::opaque]
pub open spec fn cmos_entry(op: u8) -> Instruction {
    match op {
        0x00 => spec_entry(Mnemonic::Brk, AddressMode::Jump(JumpType::ToInterrupt)),
        0x01 => spec_entry(Mnemonic::Ora, AddressMode::DpIndirect(OffsetType::X)),
        0x04 => spec_entry(Mnemonic::Tsb, AddressMode::DirectPage(OffsetType::NoOffset)),
        0x05 => spec_entry(Mnemonic::Ora, AddressMode::DirectPage(OffsetType::NoOffset)),
        0x06 => spec_entry(Mnemonic::Asl, AddressMode::DirectPage(OffsetType::NoOffset)),
        0x07 => spec_entry(Mnemonic::Rmb0, AddressMode::DirectPage(OffsetType::NoOffset)),
        0x08 => spec_entry(Mnemonic::Php, AddressMode::Stack),
        0x09 => spec_entry(Mnemonic::Ora, AddressMode::NoMemory(NoMemType::Immediate)),
        0x0A => spec_entry(Mnemonic::Asl, AddressMode::NoMemory(NoMemType::Implied)),
        0x0C => spec_entry(Mnemonic::Tsb, AddressMode::Absolute(OffsetType::NoOffset)),
        0x0D => spec_entry(Mnemonic::Ora, AddressMode::Absolute(OffsetType::NoOffset)),
        0x0E => spec_entry(Mnemonic::Asl, AddressMode::Absolute(OffsetType::NoOffset)),
        0x0F => spec_entry(Mnemonic::Bbr0, AddressMode::Branch(BranchType::DpRelative)),
        0x10 => spec_entry(Mnemonic::Bpl, AddressMode::Branch(BranchType::Relative)),
        0x11 => spec_entry(Mnemonic::Ora, AddressMode::DpIndirect(OffsetType::Y)),
        0x12 => spec_entry(Mnemonic::Ora, AddressMode::DpIndirect(OffsetType::NoOffset)),
        0x14 => spec_entry(Mnemonic::Trb, AddressMode::DirectPage(OffsetType::NoOffset)),
        0x15 => spec_entry(Mnemonic::Ora, AddressMode::DirectPage(OffsetType::X)),
        0x16 => spec_entry(Mnemonic::Asl, AddressMode::DirectPage(OffsetType::X)),
        0x17 => spec_entry(Mnemonic::Rmb1, AddressMode::DirectPage(OffsetType::NoOffset)),
        0x18 => spec_entry(Mnemonic::Clc, AddressMode::NoMemory(NoMemType::Implied)),
        0x19 => spec_entry(Mnemonic::Ora, AddressMode::Absolute(OffsetType::Y)),
        0x1A => spec_entry(Mnemonic::Inc, AddressMode::NoMemory(NoMemType::Implied)),
        0x1C => spec_entry(Mnemonic::Trb, AddressMode::Absolute(OffsetType::NoOffset)),
        0x1D => spec_entry(Mnemonic::Ora, AddressMode::Absolute(OffsetType::X)),
        0x1E => spec_entry(Mnemonic::Asl, AddressMode::Absolute(OffsetType::X)),
        0x1F => spec_entry(Mnemonic::Bbr1, AddressMode::Branch(BranchType::DpRelative)),
        0x20 => spec_entry(Mnemonic::Jsr, AddressMode::Jump(JumpType::ToSubroutine)),
        0x21 => spec_entry(Mnemonic::And, AddressMode::DpIndirect(OffsetType::X)),
        0x24 => spec_entry(Mnemonic::Bit, AddressMode::DirectPage(OffsetType::NoOffset)),
        0x25 => spec_entry(Mnemonic::And, AddressMode::DirectPage(OffsetType::NoOffset)),
        0x26 => spec_entry(Mnemonic::Rol, AddressMode::DirectPage(OffsetType::NoOffset)),
        0x27 => spec_entry(Mnemonic::Rmb2, AddressMode::DirectPage(OffsetType::NoOffset)),
        0x28 => spec_entry(Mnemonic::Plp, AddressMode::Stack),
        0x29 => spec_entry(Mnemonic::And, AddressMode::NoMemory(NoMemType::Immediate)),
        0x2A => spec_entry(Mnemonic::Rol, AddressMode::NoMemory(NoMemType::Implied)),
        0x2C => spec_entry(Mnemonic::Bit, AddressMode::Absolute(OffsetType::NoOffset)),
        0x2D => spec_entry(Mnemonic::And, AddressMode::Absolute(OffsetType::NoOffset)),
        0x2E => spec_entry(Mnemonic::Rol, AddressMode::Absolute(OffsetType::NoOffset)),
        0x2F => spec_entry(Mnemonic::Bbr2, AddressMode::Branch(BranchType::DpRelative)),
        0x30 => spec_entry(Mnemonic::Bmi, AddressMode::Branch(BranchType::Relative)),
        0x31 => spec_entry(Mnemonic::And, AddressMode::DpIndirect(OffsetType::Y)),
        0x32 => spec_entry(Mnemonic::And, AddressMode::DpIndirect(OffsetType::NoOffset)),
        0x34 => spec_entry(Mnemonic::Bit, AddressMode::DirectPage(OffsetType::X)),
        0x35 => spec_entry(Mnemonic::And, AddressMode::DirectPage(OffsetType::X)),
        0x36 => spec_entry(Mnemonic::Rol, AddressMode::DirectPage(OffsetType::X)),
        0x37 => spec_entry(Mnemonic::Rmb3, AddressMode::DirectPage(OffsetType::NoOffset)),
        0x38 => spec_entry(Mnemonic::Sec, AddressMode::NoMemory(NoMemType::Implied)),
        0x39 => spec_entry(Mnemonic::And, AddressMode::Absolute(OffsetType::Y)),
        0x3A => spec_entry(Mnemonic::Dec, AddressMode::NoMemory(NoMemType::Implied)),
        0x3C => spec_entry(Mnemonic::Bit, AddressMode::Absolute(OffsetType::X)),
        0x3D => spec_entry(Mnemonic::And, AddressMode::Absolute(OffsetType::X)),
        0x3E => spec_entry(Mnemonic::Rol, AddressMode::Absolute(OffsetType::X)),
        0x3F => spec_entry(Mnemonic::Bbr3, AddressMode::Branch(BranchType::DpRelative)),
        0x40 => spec_entry(Mnemonic::Rti, AddressMode::Jump(JumpType::FromInterrupt)),
        0x41 => spec_entry(Mnemonic::Eor, AddressMode::DpIndirect(OffsetType::X)),
        0x45 => spec_entry(Mnemonic::Eor, AddressMode::DirectPage(OffsetType::NoOffset)),
        0x46 => spec_entry(Mnemonic::Lsr, AddressMode::DirectPage(OffsetType::NoOffset)),
        0x47 => spec_entry(Mnemonic::Rmb4, AddressMode::DirectPage(OffsetType::NoOffset)),
        0x48 => spec_entry(Mnemonic::Pha, AddressMode::Stack),
        0x49 => spec_entry(Mnemonic::Eor, AddressMode::NoMemory(NoMemType::Immediate)),
        0x4A => spec_entry(Mnemonic::Lsr, AddressMode::NoMemory(NoMemType::Implied)),
        0x4C => spec_entry(Mnemonic::Jmp, AddressMode::Jump(JumpType::JmpAbsolute)),
        0x4D => spec_entry(Mnemonic::Eor, AddressMode::Absolute(OffsetType::NoOffset)),
        0x4E => spec_entry(Mnemonic::Lsr, AddressMode::Absolute(OffsetType::NoOffset)),
        0x4F => spec_entry(Mnemonic::Bbr4, AddressMode::Branch(BranchType::DpRelative)),
        0x50 => spec_entry(Mnemonic::Bvc, AddressMode::Branch(BranchType::Relative)),
        0x51 => spec_entry(Mnemonic::Eor, AddressMode::DpIndirect(OffsetType::Y)),
        0x52 => spec_entry(Mnemonic::Eor, AddressMode::DpIndirect(OffsetType::NoOffset)),
        0x55 => spec_entry(Mnemonic::Eor, AddressMode::DirectPage(OffsetType::X)),
        0x56 => spec_entry(Mnemonic::Lsr, AddressMode::DirectPage(OffsetType::X)),
        0x57 => spec_entry(Mnemonic::Rmb5, AddressMode::DirectPage(OffsetType::NoOffset)),
        0x58 => spec_entry(Mnemonic::Cli, AddressMode::NoMemory(NoMemType::Implied)),
        0x59 => spec_entry(Mnemonic::Eor, AddressMode::Absolute(OffsetType::Y)),
        0x5A => spec_entry(Mnemonic::Phy, AddressMode::Stack),
        0x5D => spec_entry(Mnemonic::Eor, AddressMode::Absolute(OffsetType::X)),
        0x5E => spec_entry(Mnemonic::Lsr, AddressMode::Absolute(OffsetType::X)),
        0x5F => spec_entry(Mnemonic::Bbr5, AddressMode::Branch(BranchType::DpRelative)),
        0x60 => spec_entry(Mnemonic::Rts, AddressMode::Jump(JumpType::FromSubroutine)),
        0x61 => spec_entry(Mnemonic::Adc, AddressMode::DpIndirect(OffsetType::X)),
        0x64 => spec_entry(Mnemonic::Stz, AddressMode::DirectPage(OffsetType::NoOffset)),
        0x65 => spec_entry(Mnemonic::Adc, AddressMode::DirectPage(OffsetType::NoOffset)),
        0x66 => spec_entry(Mnemonic::Ror, AddressMode::DirectPage(OffsetType::NoOffset)),
        0x67 => spec_entry(Mnemonic::Rmb6, AddressMode::DirectPage(OffsetType::NoOffset)),
        0x68 => spec_entry(Mnemonic::Pla, AddressMode::Stack),
        0x69 => spec_entry(Mnemonic::Adc, AddressMode::NoMemory(NoMemType::Immediate)),
        0x6A => spec_entry(Mnemonic::Ror, AddressMode::NoMemory(NoMemType::Implied)),
        0x6C => spec_entry(Mnemonic::Jmp, AddressMode::Jump(JumpType::JmpIndirect)),
        0x6D => spec_entry(Mnemonic::Adc, AddressMode::Absolute(OffsetType::NoOffset)),
        0x6E => spec_entry(Mnemonic::Ror, AddressMode::Absolute(OffsetType::NoOffset)),
        0x6F => spec_entry(Mnemonic::Bbr6, AddressMode::Branch(BranchType::DpRelative)),
        0x70 => spec_entry(Mnemonic::Bvs, AddressMode::Branch(BranchType::Relative)),
        0x71 => spec_entry(Mnemonic::Adc, AddressMode::DpIndirect(OffsetType::Y)),
        0x72 => spec_entry(Mnemonic::Adc, AddressMode::DpIndirect(OffsetType::NoOffset)),
        0x74 => spec_entry(Mnemonic::Stz, AddressMode::DirectPage(OffsetType::X)),
        0x75 => spec_entry(Mnemonic::Adc, AddressMode::DirectPage(OffsetType::X)),
        0x76 => spec_entry(Mnemonic::Ror, AddressMode::DirectPage(OffsetType::X)),
        0x77 => spec_entry(Mnemonic::Rmb7, AddressMode::DirectPage(OffsetType::NoOffset)),
        0x78 => spec_entry(Mnemonic::Sei, AddressMode::NoMemory(NoMemType::Implied)),
        0x79 => spec_entry(Mnemonic::Adc, AddressMode::Absolute(OffsetType::Y)),
        0x7A => spec_entry(Mnemonic::Ply, AddressMode::Stack),
        0x7C => spec_entry(Mnemonic::Jmp, AddressMode::Jump(JumpType::JmpIndirectX)),
        0x7D => spec_entry(Mnemonic::Adc, AddressMode::Absolute(OffsetType::X)),
        0x7E => spec_entry(Mnemonic::Ror, AddressMode::Absolute(OffsetType::X)),
        0x7F => spec_entry(Mnemonic::Bbr7, AddressMode::Branch(BranchType::DpRelative)),
        0x80 => spec_entry(Mnemonic::Bra, AddressMode::Branch(BranchType::Relative)),
        0x81 => spec_entry(Mnemonic::Sta, AddressMode::DpIndirect(OffsetType::X)),
        0x84 => spec_entry(Mnemonic::Sty, AddressMode::DirectPage(OffsetType::NoOffset)),
        0x85 => spec_entry(Mnemonic::Sta, AddressMode::DirectPage(OffsetType::NoOffset)),
        0x86 => spec_entry(Mnemonic::Stx, AddressMode::DirectPage(OffsetType::NoOffset)),
        0x87 => spec_entry(Mnemonic::Smb0, AddressMode::DirectPage(OffsetType::NoOffset)),
        0x88 => spec_entry(Mnemonic::Dey, AddressMode::NoMemory(NoMemType::Implied)),
        0x89 => spec_entry(Mnemonic::Bit, AddressMode::NoMemory(NoMemType::Immediate)),
        0x8A => spec_entry(Mnemonic::Txa, AddressMode::NoMemory(NoMemType::Implied)),
        0x8C => spec_entry(Mnemonic::Sty, AddressMode::Absolute(OffsetType::NoOffset)),
        0x8D => spec_entry(Mnemonic::Sta, AddressMode::Absolute(OffsetType::NoOffset)),
        0x8E => spec_entry(Mnemonic::Stx, AddressMode::Absolute(OffsetType::NoOffset)),
        0x8F => spec_entry(Mnemonic::Bbs0, AddressMode::Branch(BranchType::DpRelative)),
        0x90 => spec_entry(Mnemonic::Bcc, AddressMode::Branch(BranchType::Relative)),
        0x91 => spec_entry(Mnemonic::Sta, AddressMode::DpIndirect(OffsetType::Y)),
        0x92 => spec_entry(Mnemonic::Sta, AddressMode::DpIndirect(OffsetType::NoOffset)),
        0x94 => spec_entry(Mnemonic::Sty, AddressMode::DirectPage(OffsetType::X)),
        0x95 => spec_entry(Mnemonic::Sta, AddressMode::DirectPage(OffsetType::X)),
        0x96 => spec_entry(Mnemonic::Stx, AddressMode::DirectPage(OffsetType::Y)),
        0x97 => spec_entry(Mnemonic::Smb1, AddressMode::DirectPage(OffsetType::NoOffset)),
        0x98 => spec_entry(Mnemonic::Tya, AddressMode::NoMemory(NoMemType::Implied)),
        0x99 => spec_entry(Mnemonic::Sta, AddressMode::Absolute(OffsetType::Y)),
        0x9A => spec_entry(Mnemonic::Txs, AddressMode::NoMemory(NoMemType::Implied)),
        0x9C => spec_entry(Mnemonic::Stz, AddressMode::Absolute(OffsetType::NoOffset)),
        0x9D => spec_entry(Mnemonic::Sta, AddressMode::Absolute(OffsetType::X)),
        0x9E => spec_entry(Mnemonic::Stz, AddressMode::Absolute(OffsetType::X)),
        0x9F => spec_entry(Mnemonic::Bbs1, AddressMode::Branch(BranchType::DpRelative)),
        0xA0 => spec_entry(Mnemonic::Ldy, AddressMode::NoMemory(NoMemType::Immediate)),
        0xA1 => spec_entry(Mnemonic::Lda, AddressMode::DpIndirect(OffsetType::X)),
        0xA2 => spec_entry(Mnemonic::Ldx, AddressMode::NoMemory(NoMemType::Immediate)),
        0xA4 => spec_entry(Mnemonic::Ldy, AddressMode::DirectPage(OffsetType::NoOffset)),
        0xA5 => spec_entry(Mnemonic::Lda, AddressMode::DirectPage(OffsetType::NoOffset)),
        0xA6 => spec_entry(Mnemonic::Ldx, AddressMode::DirectPage(OffsetType::NoOffset)),
        0xA7 => spec_entry(Mnemonic::Smb2, AddressMode::DirectPage(OffsetType::NoOffset)),
        0xA8 => spec_entry(Mnemonic::Tay, AddressMode::NoMemory(NoMemType::Implied)),
        0xA9 => spec_entry(Mnemonic::Lda, AddressMode::NoMemory(NoMemType::Immediate)),
        0xAA => spec_entry(Mnemonic::Tax, AddressMode::NoMemory(NoMemType::Implied)),
        0xAC => spec_entry(Mnemonic::Ldy, AddressMode::Absolute(OffsetType::NoOffset)),
        0xAD => spec_entry(Mnemonic::Lda, AddressMode::Absolute(OffsetType::NoOffset)),
        0xAE => spec_entry(Mnemonic::Ldx, AddressMode::Absolute(OffsetType::NoOffset)),
        0xAF => spec_entry(Mnemonic::Bbs2, AddressMode::Branch(BranchType::DpRelative)),
        0xB0 => spec_entry(Mnemonic::Bcs, AddressMode::Branch(BranchType::Relative)),
        0xB1 => spec_entry(Mnemonic::Lda, AddressMode::DpIndirect(OffsetType::Y)),
        0xB2 => spec_entry(Mnemonic::Lda, AddressMode::DpIndirect(OffsetType::NoOffset)),
        0xB4 => spec_entry(Mnemonic::Ldy, AddressMode::DirectPage(OffsetType::X)),
        0xB5 => spec_entry(Mnemonic::Lda, AddressMode::DirectPage(OffsetType::X)),
        0xB6 => spec_entry(Mnemonic::Ldx, AddressMode::DirectPage(OffsetType::Y)),
        0xB7 => spec_entry(Mnemonic::Smb3, AddressMode::DirectPage(OffsetType::NoOffset)),
        0xB8 => spec_entry(Mnemonic::Clv, AddressMode::NoMemory(NoMemType::Implied)),
        0xB9 => spec_entry(Mnemonic::Lda, AddressMode::Absolute(OffsetType::Y)),
        0xBA => spec_entry(Mnemonic::Tsx, AddressMode::NoMemory(NoMemType::Implied)),
        0xBC => spec_entry(Mnemonic::Ldy, AddressMode::Absolute(OffsetType::X)),
        0xBD => spec_entry(Mnemonic::Lda, AddressMode::Absolute(OffsetType::X)),
        0xBE => spec_entry(Mnemonic::Ldx, AddressMode::Absolute(OffsetType::Y)),
        0xBF => spec_entry(Mnemonic::Bbs3, AddressMode::Branch(BranchType::DpRelative)),
        0xC0 => spec_entry(Mnemonic::Cpy, AddressMode::NoMemory(NoMemType::Immediate)),
        0xC1 => spec_entry(Mnemonic::Cmp, AddressMode::DpIndirect(OffsetType::X)),
        0xC4 => spec_entry(Mnemonic::Cpy, AddressMode::DirectPage(OffsetType::NoOffset)),
        0xC5 => spec_entry(Mnemonic::Cmp, AddressMode::DirectPage(OffsetType::NoOffset)),
        0xC6 => spec_entry(Mnemonic::Dec, AddressMode::DirectPage(OffsetType::NoOffset)),
        0xC7 => spec_entry(Mnemonic::Smb4, AddressMode::DirectPage(OffsetType::NoOffset)),
        0xC8 => spec_entry(Mnemonic::Iny, AddressMode::NoMemory(NoMemType::Implied)),
        0xC9 => spec_entry(Mnemonic::Cmp, AddressMode::NoMemory(NoMemType::Immediate)),
        0xCA => spec_entry(Mnemonic::Dex, AddressMode::NoMemory(NoMemType::Implied)),
        0xCB => spec_entry(Mnemonic::Wai, AddressMode::NoMemory(NoMemType::Implied)),
        0xCC => spec_entry(Mnemonic::Cpy, AddressMode::Absolute(OffsetType::NoOffset)),
        0xCD => spec_entry(Mnemonic::Cmp, AddressMode::Absolute(OffsetType::NoOffset)),
        0xCE => spec_entry(Mnemonic::Dec, AddressMode::Absolute(OffsetType::NoOffset)),
        0xCF => spec_entry(Mnemonic::Bbs4, AddressMode::Branch(BranchType::DpRelative)),
        0xD0 => spec_entry(Mnemonic::Bne, AddressMode::Branch(BranchType::Relative)),
        0xD1 => spec_entry(Mnemonic::Cmp, AddressMode::DpIndirect(OffsetType::Y)),
        0xD2 => spec_entry(Mnemonic::Cmp, AddressMode::DpIndirect(OffsetType::NoOffset)),
        0xD5 => spec_entry(Mnemonic::Cmp, AddressMode::DirectPage(OffsetType::X)),
        0xD6 => spec_entry(Mnemonic::Dec, AddressMode::DirectPage(OffsetType::X)),
        0xD7 => spec_entry(Mnemonic::Smb5, AddressMode::DirectPage(OffsetType::NoOffset)),
        0xD8 => spec_entry(Mnemonic::Cld, AddressMode::NoMemory(NoMemType::Implied)),
        0xD9 => spec_entry(Mnemonic::Cmp, AddressMode::Absolute(OffsetType::Y)),
        0xDA => spec_entry(Mnemonic::Phx, AddressMode::Stack),
        0xDB => spec_entry(Mnemonic::Stp, AddressMode::NoMemory(NoMemType::Implied)),
        0xDD => spec_entry(Mnemonic::Cmp, AddressMode::Absolute(OffsetType::X)),
        0xDE => spec_entry(Mnemonic::Dec, AddressMode::Absolute(OffsetType::X)),
        0xDF => spec_entry(Mnemonic::Bbs5, AddressMode::Branch(BranchType::DpRelative)),
        0xE0 => spec_entry(Mnemonic::Cpx, AddressMode::NoMemory(NoMemType::Immediate)),
        0xE1 => spec_entry(Mnemonic::Sbc, AddressMode::DpIndirect(OffsetType::X)),
        0xE4 => spec_entry(Mnemonic::Cpx, AddressMode::DirectPage(OffsetType::NoOffset)),
        0xE5 => spec_entry(Mnemonic::Sbc, AddressMode::DirectPage(OffsetType::NoOffset)),
        0xE6 => spec_entry(Mnemonic::Inc, AddressMode::DirectPage(OffsetType::NoOffset)),
        0xE7 => spec_entry(Mnemonic::Smb6, AddressMode::DirectPage(OffsetType::NoOffset)),
        0xE8 => spec_entry(Mnemonic::Inx, AddressMode::NoMemory(NoMemType::Implied)),
        0xE9 => spec_entry(Mnemonic::Sbc, AddressMode::NoMemory(NoMemType::Immediate)),
        0xEA => spec_entry(Mnemonic::Nop, AddressMode::NoMemory(NoMemType::Implied)),
        0xEB => spec_entry(Mnemonic::Usbc, AddressMode::NoMemory(NoMemType::Immediate)),
        0xEC => spec_entry(Mnemonic::Cpx, AddressMode::Absolute(OffsetType::NoOffset)),
        0xED => spec_entry(Mnemonic::Sbc, AddressMode::Absolute(OffsetType::NoOffset)),
        0xEE => spec_entry(Mnemonic::Inc, AddressMode::Absolute(OffsetType::NoOffset)),
        0xEF => spec_entry(Mnemonic::Bbs6, AddressMode::Branch(BranchType::DpRelative)),
        0xF0 => spec_entry(Mnemonic::Beq, AddressMode::Branch(BranchType::Relative)),
        0xF1 => spec_entry(Mnemonic::Sbc, AddressMode::DpIndirect(OffsetType::Y)),
        0xF2 => spec_entry(Mnemonic::Sbc, AddressMode::DpIndirect(OffsetType::NoOffset)),
        0xF5 => spec_entry(Mnemonic::Sbc, AddressMode::DirectPage(OffsetType::X)),
        0xF6 => spec_entry(Mnemonic::Inc, AddressMode::DirectPage(OffsetType::X)),
        0xF7 => spec_entry(Mnemonic::Smb7, AddressMode::DirectPage(OffsetType::NoOffset)),
        0xF8 => spec_entry(Mnemonic::Sed, AddressMode::NoMemory(NoMemType::Implied)),
        0xF9 => spec_entry(Mnemonic::Sbc, AddressMode::Absolute(OffsetType::Y)),
        0xFA => spec_entry(Mnemonic::Plx, AddressMode::Stack),
        0xFD => spec_entry(Mnemonic::Sbc, AddressMode::Absolute(OffsetType::X)),
        0xFE => spec_entry(Mnemonic::Inc, AddressMode::Absolute(OffsetType::X)),
        0xFF => spec_entry(Mnemonic::Bbs7, AddressMode::Branch(BranchType::DpRelative)),
        _ => undefined_entry(),
    }
}

/// The 65C816 opcode map.
#[verifier::opaque]
pub open spec fn wdc816_entry(op: u8) -> Instruction {
    match op {
        0x00 => spec_entry(Mnemonic::Brk, AddressMode::Jump(JumpType::ToInterrupt)),
        0x01 => spec_entry(Mnemonic::Ora, AddressMode::DpIndirect(OffsetType::X)),
        0x03 => spec_entry(Mnemonic::Ora, AddressMode::StackRelative(OffsetType::NoOffset)),
        0x04 => spec_entry(Mnemonic::Tsb, AddressMode::DirectPage(OffsetType::NoOffset)),
        0x05 => spec_entry(Mnemonic::Ora, AddressMode::DirectPage(OffsetType::NoOffset)),
        0x06 => spec_entry(Mnemonic::Asl, AddressMode::DirectPage(OffsetType::NoOffset)),
        0x07 => spec_entry(Mnemonic::Ora, AddressMode::DpIndirectLong(OffsetType::NoOffset)),
        0x08 => spec_entry(Mnemonic::Php, AddressMode::Stack),
        0x09 => spec_entry(Mnemonic::Ora, AddressMode::NoMemory(NoMemType::Immediate)),
        0x0A => spec_entry(Mnemonic::Asl, AddressMode::NoMemory(NoMemType::Implied)),
        0x0C => spec_entry(Mnemonic::Tsb, AddressMode::Absolute(OffsetType::NoOffset)),
        0x0D => spec_entry(Mnemonic::Ora, AddressMode::Absolute(OffsetType::NoOffset)),
        0x0E => spec_entry(Mnemonic::Asl, AddressMode::Absolute(OffsetType::NoOffset)),
        0x0F => spec_entry(Mnemonic::Ora, AddressMode::AbsoluteLong(OffsetType::NoOffset)),
        0x10 => spec_entry(Mnemonic::Bpl, AddressMode::Branch(BranchType::Relative)),
        0x11 => spec_entry(Mnemonic::Ora, AddressMode::DpIndirect(OffsetType::Y)),
        0x12 => spec_entry(Mnemonic::Ora, AddressMode::DpIndirect(OffsetType::NoOffset)),
        0x13 => spec_entry(Mnemonic::Ora, AddressMode::StackRelative(OffsetType::Y)),
        0x14 => spec_entry(Mnemonic::Trb, AddressMode::DirectPage(OffsetType::NoOffset)),
        0x15 => spec_entry(Mnemonic::Ora, AddressMode::DirectPage(OffsetType::X)),
        0x16 => spec_entry(Mnemonic::Asl, AddressMode::DirectPage(OffsetType::X)),
        0x17 => spec_entry(Mnemonic::Ora, AddressMode::DpIndirectLong(OffsetType::Y)),
        0x18 => spec_entry(Mnemonic::Clc, AddressMode::NoMemory(NoMemType::Implied)),
        0x19 => spec_entry(Mnemonic::Ora, AddressMode::Absolute(OffsetType::Y)),
        0x1A => spec_entry(Mnemonic::Inc, AddressMode::NoMemory(NoMemType::Implied)),
        0x1C => spec_entry(Mnemonic::Trb, AddressMode::Absolute(OffsetType::NoOffset)),
        0x1D => spec_entry(Mnemonic::Ora, AddressMode::Absolute(OffsetType::X)),
        0x1E => spec_entry(Mnemonic::Asl, AddressMode::Absolute(OffsetType::X)),
        0x1F => spec_entry(Mnemonic::Ora, AddressMode::AbsoluteLong(OffsetType::X)),
        0x20 => spec_entry(Mnemonic::Jsr, AddressMode::Jump(JumpType::ToSubroutine)),
        0x21 => spec_entry(Mnemonic::And, AddressMode::DpIndirect(OffsetType::X)),
        0x23 => spec_entry(Mnemonic::And, AddressMode::StackRelative(OffsetType::NoOffset)),
        0x24 => spec_entry(Mnemonic::Bit, AddressMode::DirectPage(OffsetType::NoOffset)),
        0x25 => spec_entry(Mnemonic::And, AddressMode::DirectPage(OffsetType::NoOffset)),
        0x26 => spec_entry(Mnemonic::Rol, AddressMode::DirectPage(OffsetType::NoOffset)),
        0x27 => spec_entry(Mnemonic::And, AddressMode::DpIndirectLong(OffsetType::NoOffset)),
        0x28 => spec_entry(Mnemonic::Plp, AddressMode::Stack),
        0x29 => spec_entry(Mnemonic::And, AddressMode::NoMemory(NoMemType::Immediate)),
        0x2A => spec_entry(Mnemonic::Rol, AddressMode::NoMemory(NoMemType::Implied)),
        0x2C => spec_entry(Mnemonic::Bit, AddressMode::Absolute(OffsetType::NoOffset)),
        0x2D => spec_entry(Mnemonic::And, AddressMode::Absolute(OffsetType::NoOffset)),
        0x2E => spec_entry(Mnemonic::Rol, AddressMode::Absolute(OffsetType::NoOffset)),
        0x2F => spec_entry(Mnemonic::And, AddressMode::AbsoluteLong(OffsetType::NoOffset)),
        0x30 => spec_entry(Mnemonic::Bmi, AddressMode::Branch(BranchType::Relative)),
        0x31 => spec_entry(Mnemonic::And, AddressMode::DpIndirect(OffsetType::Y)),
        0x32 => spec_entry(Mnemonic::And, AddressMode::DpIndirect(OffsetType::NoOffset)),
        0x33 => spec_entry(Mnemonic::And, AddressMode::StackRelative(OffsetType::Y)),
        0x34 => spec_entry(Mnemonic::Bit, AddressMode::DirectPage(OffsetType::X)),
        0x35 => spec_entry(Mnemonic::And, AddressMode::DirectPage(OffsetType::X)),
        0x36 => spec_entry(Mnemonic::Rol, AddressMode::DirectPage(OffsetType::X)),
        0x37 => spec_entry(Mnemonic::And, AddressMode::DpIndirectLong(OffsetType::Y)),
        0x38 => spec_entry(Mnemonic::Sec, AddressMode::NoMemory(NoMemType::Implied)),
        0x39 => spec_entry(Mnemonic::And, AddressMode::Absolute(OffsetType::Y)),
        0x3A => spec_entry(Mnemonic::Dec, AddressMode::NoMemory(NoMemType::Implied)),
        0x3C => spec_entry(Mnemonic::Bit, AddressMode::Absolute(OffsetType::X)),
        0x3D => spec_entry(Mnemonic::And, AddressMode::Absolute(OffsetType::X)),
        0x3E => spec_entry(Mnemonic::Rol, AddressMode::Absolute(OffsetType::X)),
        0x3F => spec_entry(Mnemonic::And, AddressMode::AbsoluteLong(OffsetType::X)),
        0x40 => spec_entry(Mnemonic::Rti, AddressMode::Jump(JumpType::FromInterrupt)),
        0x41 => spec_entry(Mnemonic::Eor, AddressMode::DpIndirect(OffsetType::X)),
        0x43 => spec_entry(Mnemonic::Eor, AddressMode::StackRelative(OffsetType::NoOffset)),
        0x45 => spec_entry(Mnemonic::Eor, AddressMode::DirectPage(OffsetType::NoOffset)),
        0x46 => spec_entry(Mnemonic::Lsr, AddressMode::DirectPage(OffsetType::NoOffset)),
        0x47 => spec_entry(Mnemonic::Eor, AddressMode::DpIndirectLong(OffsetType::NoOffset)),
        0x48 => spec_entry(Mnemonic::Pha, AddressMode::Stack),
        0x49 => spec_entry(Mnemonic::Eor, AddressMode::NoMemory(NoMemType::Immediate)),
        0x4A => spec_entry(Mnemonic::Lsr, AddressMode::NoMemory(NoMemType::Implied)),
        0x4C => spec_entry(Mnemonic::Jmp, AddressMode::Jump(JumpType::JmpAbsolute)),
        0x4D => spec_entry(Mnemonic::Eor, AddressMode::Absolute(OffsetType::NoOffset)),
        0x4E => spec_entry(Mnemonic::Lsr, AddressMode::Absolute(OffsetType::NoOffset)),
        0x4F => spec_entry(Mnemonic::Eor, AddressMode::AbsoluteLong(OffsetType::NoOffset)),
        0x50 => spec_entry(Mnemonic::Bvc, AddressMode::Branch(BranchType::Relative)),
        0x51 => spec_entry(Mnemonic::Eor, AddressMode::DpIndirect(OffsetType::Y)),
        0x52 => spec_entry(Mnemonic::Eor, AddressMode::DpIndirect(OffsetType::NoOffset)),
        0x53 => spec_entry(Mnemonic::Eor, AddressMode::StackRelative(OffsetType::Y)),
        0x55 => spec_entry(Mnemonic::Eor, AddressMode::DirectPage(OffsetType::X)),
        0x56 => spec_entry(Mnemonic::Lsr, AddressMode::DirectPage(OffsetType::X)),
        0x57 => spec_entry(Mnemonic::Eor, AddressMode::DpIndirectLong(OffsetType::Y)),
        0x58 => spec_entry(Mnemonic::Cli, AddressMode::NoMemory(NoMemType::Implied)),
        0x59 => spec_entry(Mnemonic::Eor, AddressMode::Absolute(OffsetType::Y)),
        0x5A => spec_entry(Mnemonic::Phy, AddressMode::Stack),
        0x5D => spec_entry(Mnemonic::Eor, AddressMode::Absolute(OffsetType::X)),
        0x5E => spec_entry(Mnemonic::Lsr, AddressMode::Absolute(OffsetType::X)),
        0x5F => spec_entry(Mnemonic::Eor, AddressMode::AbsoluteLong(OffsetType::X)),
        0x60 => spec_entry(Mnemonic::Rts, AddressMode::Jump(JumpType::FromSubroutine)),
        0x61 => spec_entry(Mnemonic::Adc, AddressMode::DpIndirect(OffsetType::X)),
        0x63 => spec_entry(Mnemonic::Adc, AddressMode::StackRelative(OffsetType::NoOffset)),
        0x64 => spec_entry(Mnemonic::Stz, AddressMode::DirectPage(OffsetType::NoOffset)),
        0x65 => spec_entry(Mnemonic::Adc, AddressMode::DirectPage(OffsetType::NoOffset)),
        0x66 => spec_entry(Mnemonic::Ror, AddressMode::DirectPage(OffsetType::NoOffset)),
        0x67 => spec_entry(Mnemonic::Adc, AddressMode::DpIndirectLong(OffsetType::NoOffset)),
        0x68 => spec_entry(Mnemonic::Pla, AddressMode::Stack),
        0x69 => spec_entry(Mnemonic::Adc, AddressMode::NoMemory(NoMemType::Immediate)),
        0x6A => spec_entry(Mnemonic::Ror, AddressMode::NoMemory(NoMemType::Implied)),
        0x6C => spec_entry(Mnemonic::Jmp, AddressMode::Jump(JumpType::JmpIndirect)),
        0x6D => spec_entry(Mnemonic::Adc, AddressMode::Absolute(OffsetType::NoOffset)),
        0x6E => spec_entry(Mnemonic::Ror, AddressMode::Absolute(OffsetType::NoOffset)),
        0x6F => spec_entry(Mnemonic::Adc, AddressMode::AbsoluteLong(OffsetType::NoOffset)),
        0x70 => spec_entry(Mnemonic::Bvs, AddressMode::Branch(BranchType::Relative)),
        0x71 => spec_entry(Mnemonic::Adc, AddressMode::DpIndirect(OffsetType::Y)),
        0x72 => spec_entry(Mnemonic::Adc, AddressMode::DpIndirect(OffsetType::NoOffset)),
        0x73 => spec_entry(Mnemonic::Adc, AddressMode::StackRelative(OffsetType::Y)),
        0x74 => spec_entry(Mnemonic::Stz, AddressMode::DirectPage(OffsetType::X)),
        0x75 => spec_entry(Mnemonic::Adc, AddressMode::DirectPage(OffsetType::X)),
        0x76 => spec_entry(Mnemonic::Ror, AddressMode::DirectPage(OffsetType::X)),
        0x77 => spec_entry(Mnemonic::Adc, AddressMode::DpIndirectLong(OffsetType::Y)),
        0x78 => spec_entry(Mnemonic::Sei, AddressMode::NoMemory(NoMemType::Implied)),
        0x79 => spec_entry(Mnemonic::Adc, AddressMode::Absolute(OffsetType::Y)),
        0x7A => spec_entry(Mnemonic::Ply, AddressMode::Stack),
        0x7C => spec_entry(Mnemonic::Jmp, AddressMode::Jump(JumpType::JmpIndirectX)),
        0x7D => spec_entry(Mnemonic::Adc, AddressMode::Absolute(OffsetType::X)),
        0x7E => spec_entry(Mnemonic::Ror, AddressMode::Absolute(OffsetType::X)),
        0x7F => spec_entry(Mnemonic::Adc, AddressMode::AbsoluteLong(OffsetType::X)),
        0x80 => spec_entry(Mnemonic::Bra, AddressMode::Branch(BranchType::Relative)),
        0x81 => spec_entry(Mnemonic::Sta, AddressMode::DpIndirect(OffsetType::X)),
        0x83 => spec_entry(Mnemonic::Sta, AddressMode::StackRelative(OffsetType::NoOffset)),
        0x84 => spec_entry(Mnemonic::Sty, AddressMode::DirectPage(OffsetType::NoOffset)),
        0x85 => spec_entry(Mnemonic::Sta, AddressMode::DirectPage(OffsetType::NoOffset)),
        0x86 => spec_entry(Mnemonic::Stx, AddressMode::DirectPage(OffsetType::NoOffset)),
        0x87 => spec_entry(Mnemonic::Sta, AddressMode::DpIndirectLong(OffsetType::NoOffset)),
        0x88 => spec_entry(Mnemonic::Dey, AddressMode::NoMemory(NoMemType::Implied)),
        0x89 => spec_entry(Mnemonic::Bit, AddressMode::NoMemory(NoMemType::Immediate)),
        0x8A => spec_entry(Mnemonic::Txa, AddressMode::NoMemory(NoMemType::Implied)),
        0x8C => spec_entry(Mnemonic::Sty, AddressMode::Absolute(OffsetType::NoOffset)),
        0x8D => spec_entry(Mnemonic::Sta, AddressMode::Absolute(OffsetType::NoOffset)),
        0x8E => spec_entry(Mnemonic::Stx, AddressMode::Absolute(OffsetType::NoOffset)),
        0x8F => spec_entry(Mnemonic::Sta, AddressMode::AbsoluteLong(OffsetType::NoOffset)),
        0x90 => spec_entry(Mnemonic::Bcc, AddressMode::Branch(BranchType::Relative)),
        0x91 => spec_entry(Mnemonic::Sta, AddressMode::DpIndirect(OffsetType::Y)),
        0x92 => spec_entry(Mnemonic::Sta, AddressMode::DpIndirect(OffsetType::NoOffset)),
        0x93 => spec_entry(Mnemonic::Sta, AddressMode::StackRelative(OffsetType::Y)),
        0x94 => spec_entry(Mnemonic::Sty, AddressMode::DirectPage(OffsetType::X)),
        0x95 => spec_entry(Mnemonic::Sta, AddressMode::DirectPage(OffsetType::X)),
        0x96 => spec_entry(Mnemonic::Stx, AddressMode::DirectPage(OffsetType::Y)),
        0x97 => spec_entry(Mnemonic::Sta, AddressMode::DpIndirectLong(OffsetType::Y)),
        0x98 => spec_entry(Mnemonic::Tya, AddressMode::NoMemory(NoMemType::Implied)),
        0x99 => spec_entry(Mnemonic::Sta, AddressMode::Absolute(OffsetType::Y)),
        0x9A => spec_entry(Mnemonic::Txs, AddressMode::NoMemory(NoMemType::Implied)),
        0x9C => spec_entry(Mnemonic::Stz, AddressMode::Absolute(OffsetType::NoOffset)),
        0x9D => spec_entry(Mnemonic::Sta, AddressMode::Absolute(OffsetType::X)),
        0x9E => spec_entry(Mnemonic::Stz, AddressMode::Absolute(OffsetType::X)),
        0x9F => spec_entry(Mnemonic::Sta, AddressMode::AbsoluteLong(OffsetType::X)),
        0xA0 => spec_entry(Mnemonic::Ldy, AddressMode::NoMemory(NoMemType::Immediate)),
        0xA1 => spec_entry(Mnemonic::Lda, AddressMode::DpIndirect(OffsetType::X)),
        0xA2 => spec_entry(Mnemonic::Ldx, AddressMode::NoMemory(NoMemType::Immediate)),
        0xA3 => spec_entry(Mnemonic::Lda, AddressMode::StackRelative(OffsetType::NoOffset)),
        0xA4 => spec_entry(Mnemonic::Ldy, AddressMode::DirectPage(OffsetType::NoOffset)),
        0xA5 => spec_entry(Mnemonic::Lda, AddressMode::DirectPage(OffsetType::NoOffset)),
        0xA6 => spec_entry(Mnemonic::Ldx, AddressMode::DirectPage(OffsetType::NoOffset)),
        0xA7 => spec_entry(Mnemonic::Lda, AddressMode::DpIndirectLong(OffsetType::NoOffset)),
        0xA8 => spec_entry(Mnemonic::Tay, AddressMode::NoMemory(NoMemType::Implied)),
        0xA9 => spec_entry(Mnemonic::Lda, AddressMode::NoMemory(NoMemType::Immediate)),
        0xAA => spec_entry(Mnemonic::Tax, AddressMode::NoMemory(NoMemType::Implied)),
        0xAC => spec_entry(Mnemonic::Ldy, AddressMode::Absolute(OffsetType::NoOffset)),
        0xAD => spec_entry(Mnemonic::Lda, AddressMode::Absolute(OffsetType::NoOffset)),
        0xAE => spec_entry(Mnemonic::Ldx, AddressMode::Absolute(OffsetType::NoOffset)),
        0xAF => spec_entry(Mnemonic::Lda, AddressMode::AbsoluteLong(OffsetType::NoOffset)),
        0xB0 => spec_entry(Mnemonic::Bcs, AddressMode::Branch(BranchType::Relative)),
        0xB1 => spec_entry(Mnemonic::Lda, AddressMode::DpIndirect(OffsetType::Y)),
        0xB2 => spec_entry(Mnemonic::Lda, AddressMode::DpIndirect(OffsetType::NoOffset)),
        0xB3 => spec_entry(Mnemonic::Lda, AddressMode::StackRelative(OffsetType::Y)),
        0xB4 => spec_entry(Mnemonic::Ldy, AddressMode::DirectPage(OffsetType::X)),
        0xB5 => spec_entry(Mnemonic::Lda, AddressMode::DirectPage(OffsetType::X)),
        0xB6 => spec_entry(Mnemonic::Ldx, AddressMode::DirectPage(OffsetType::Y)),
        0xB7 => spec_entry(Mnemonic::Lda, AddressMode::DpIndirectLong(OffsetType::Y)),
        0xB8 => spec_entry(Mnemonic::Clv, AddressMode::NoMemory(NoMemType::Implied)),
        0xB9 => spec_entry(Mnemonic::Lda, AddressMode::Absolute(OffsetType::Y)),
        0xBA => spec_entry(Mnemonic::Tsx, AddressMode::NoMemory(NoMemType::Implied)),
        0xBC => spec_entry(Mnemonic::Ldy, AddressMode::Absolute(OffsetType::X)),
        0xBD => spec_entry(Mnemonic::Lda, AddressMode::Absolute(OffsetType::X)),
        0xBE => spec_entry(Mnemonic::Ldx, AddressMode::Absolute(OffsetType::Y)),
        0xBF => spec_entry(Mnemonic::Lda, AddressMode::AbsoluteLong(OffsetType::X)),
        0xC0 => spec_entry(Mnemonic::Cpy, AddressMode::NoMemory(NoMemType::Immediate)),
        0xC1 => spec_entry(Mnemonic::Cmp, AddressMode::DpIndirect(OffsetType::X)),
        0xC3 => spec_entry(Mnemonic::Cmp, AddressMode::StackRelative(OffsetType::NoOffset)),
        0xC4 => spec_entry(Mnemonic::Cpy, AddressMode::DirectPage(OffsetType::NoOffset)),
        0xC5 => spec_entry(Mnemonic::Cmp, AddressMode::DirectPage(OffsetType::NoOffset)),
        0xC6 => spec_entry(Mnemonic::Dec, AddressMode::DirectPage(OffsetType::NoOffset)),
        0xC7 => spec_entry(Mnemonic::Cmp, AddressMode::DpIndirectLong(OffsetType::NoOffset)),
        0xC8 => spec_entry(Mnemonic::Iny, AddressMode::NoMemory(NoMemType::Implied)),
        0xC9 => spec_entry(Mnemonic::Cmp, AddressMode::NoMemory(NoMemType::Immediate)),
        0xCA => spec_entry(Mnemonic::Dex, AddressMode::NoMemory(NoMemType::Implied)),
        0xCB => spec_entry(Mnemonic::Wai, AddressMode::NoMemory(NoMemType::Implied)),
        0xCC => spec_entry(Mnemonic::Cpy, AddressMode::Absolute(OffsetType::NoOffset)),
        0xCD => spec_entry(Mnemonic::Cmp, AddressMode::Absolute(OffsetType::NoOffset)),
        0xCE => spec_entry(Mnemonic::Dec, AddressMode::Absolute(OffsetType::NoOffset)),
        0xCF => spec_entry(Mnemonic::Cmp, AddressMode::AbsoluteLong(OffsetType::NoOffset)),
        0xD0 => spec_entry(Mnemonic::Bne, AddressMode::Branch(BranchType::Relative)),
        0xD1 => spec_entry(Mnemonic::Cmp, AddressMode::DpIndirect(OffsetType::Y)),
        0xD2 => spec_entry(Mnemonic::Cmp, AddressMode::DpIndirect(OffsetType::NoOffset)),
        0xD3 => spec_entry(Mnemonic::Cmp, AddressMode::StackRelative(OffsetType::Y)),
        0xD5 => spec_entry(Mnemonic::Cmp, AddressMode::DirectPage(OffsetType::X)),
        0xD6 => spec_entry(Mnemonic::Dec, AddressMode::DirectPage(OffsetType::X)),
        0xD7 => spec_entry(Mnemonic::Cmp, AddressMode::DpIndirectLong(OffsetType::X)),
        0xD8 => spec_entry(Mnemonic::Cld, AddressMode::NoMemory(NoMemType::Implied)),
        0xD9 => spec_entry(Mnemonic::Cmp, AddressMode::Absolute(OffsetType::Y)),
        0xDA => spec_entry(Mnemonic::Phx, AddressMode::Stack),
        0xDB => spec_entry(Mnemonic::Stp, AddressMode::NoMemory(NoMemType::Implied)),
        0xDD => spec_entry(Mnemonic::Cmp, AddressMode::Absolute(OffsetType::X)),
        0xDE => spec_entry(Mnemonic::Dec, AddressMode::Absolute(OffsetType::X)),
        0xDF => spec_entry(Mnemonic::Cmp, AddressMode::AbsoluteLong(OffsetType::X)),
        0xE0 => spec_entry(Mnemonic::Cpx, AddressMode::NoMemory(NoMemType::Immediate)),
        0xE1 => spec_entry(Mnemonic::Sbc, AddressMode::DpIndirect(OffsetType::X)),
        0xE3 => spec_entry(Mnemonic::Sbc, AddressMode::StackRelative(OffsetType::NoOffset)),
        0xE4 => spec_entry(Mnemonic::Cpx, AddressMode::DirectPage(OffsetType::NoOffset)),
        0xE5 => spec_entry(Mnemonic::Sbc, AddressMode::DirectPage(OffsetType::NoOffset)),
        0xE6 => spec_entry(Mnemonic::Inc, AddressMode::DirectPage(OffsetType::NoOffset)),
        0xE7 => spec_entry(Mnemonic::Sbc, AddressMode::DpIndirectLong(OffsetType::NoOffset)),
        0xE8 => spec_entry(Mnemonic::Inx, AddressMode::NoMemory(NoMemType::Implied)),
        0xE9 => spec_entry(Mnemonic::Sbc, AddressMode::NoMemory(NoMemType::Immediate)),
        0xEA => spec_entry(Mnemonic::Nop, AddressMode::NoMemory(NoMemType::Implied)),
        0xEB => spec_entry(Mnemonic::Usbc, AddressMode::NoMemory(NoMemType::Immediate)),
        0xEC => spec_entry(Mnemonic::Cpx, AddressMode::Absolute(OffsetType::NoOffset)),
        0xED => spec_entry(Mnemonic::Sbc, AddressMode::Absolute(OffsetType::NoOffset)),
        0xEE => spec_entry(Mnemonic::Inc, AddressMode::Absolute(OffsetType::NoOffset)),
        0xEF => spec_entry(Mnemonic::Sbc, AddressMode::AbsoluteLong(OffsetType::NoOffset)),
        0xF0 => spec_entry(Mnemonic::Beq, AddressMode::Branch(BranchType::Relative)),
        0xF1 => spec_entry(Mnemonic::Sbc, AddressMode::DpIndirect(OffsetType::Y)),
        0xF2 => spec_entry(Mnemonic::Sbc, AddressMode::DpIndirect(OffsetType::NoOffset)),
        0xF3 => spec_entry(Mnemonic::Sbc, AddressMode::StackRelative(OffsetType::Y)),
        0xF5 => spec_entry(Mnemonic::Sbc, AddressMode::DirectPage(OffsetType::X)),
        0xF6 => spec_entry(Mnemonic::Inc, AddressMode::DirectPage(OffsetType::X)),
        0xF7 => spec_entry(Mnemonic::Sbc, AddressMode::DpIndirectLong(OffsetType::Y)),
        0xF8 => spec_entry(Mnemonic::Sed, AddressMode::NoMemory(NoMemType::Implied)),
        0xF9 => spec_entry(Mnemonic::Sbc, AddressMode::Absolute(OffsetType::Y)),
        0xFA => spec_entry(Mnemonic::Plx, AddressMode::Stack),
        0xFD => spec_entry(Mnemonic::Sbc, AddressMode::Absolute(OffsetType::X)),
        0xFE => spec_entry(Mnemonic::Inc, AddressMode::Absolute(OffsetType::X)),
        0xFF => spec_entry(Mnemonic::Sbc, AddressMode::AbsoluteLong(OffsetType::X)),
        _ => undefined_entry(),
    }
}

/// The Rockwell map: the WDC map without WAI and STP.
pub open spec fn rockwell_entry(op: u8) -> Instruction {
    if op == 0xCB || op == 0xDB {
        undefined_entry()
    } else {
        cmos_entry(op)
    }
}

/// Whether `op` is a Rockwell bit operation (RMBn, SMBn, BBRn, BBSn).
pub open spec fn is_bit_op(op: u8) -> bool {
    op % 16 == 7 || op % 16 == 15
}

/// The Synertek map: the Rockwell map without the bit operations.
pub open spec fn synertek_entry(op: u8) -> Instruction {
    if is_bit_op(op) {
        undefined_entry()
    } else {
        rockwell_entry(op)
    }
}

/// The entry of `op` in `table`.
pub open spec fn spec_decode(table: OpcodeTable, op: u8) -> Instruction {
    match table {
        OpcodeTable::Nmos => nmos_entry(op),
        OpcodeTable::Cmos => cmos_entry(op),
        OpcodeTable::Wdc816 => wdc816_entry(op),
        OpcodeTable::Synertek => synertek_entry(op),
        OpcodeTable::Rockwell => rockwell_entry(op),
    }
}

fn decode_nmos(op: u8) -> (r: Instruction)
    ensures
        r == nmos_entry(op),
{
    proof {
        reveal(nmos_entry);
    }
    match op {
        0x00 => entry(Mnemonic::Brk, AddressMode::Jump(JumpType::ToInterrupt)),
        0x01 => entry(Mnemonic::Ora, AddressMode::DpIndirect(OffsetType::X)),
        0x02 => entry(Mnemonic::Jam, AddressMode::Jam),
        0x03 => entry(Mnemonic::Slo, AddressMode::DpIndirect(OffsetType::X)),
        0x04 => entry(Mnemonic::Nop, AddressMode::DirectPage(OffsetType::NoOffset)),
        0x05 => entry(Mnemonic::Ora, AddressMode::DirectPage(OffsetType::NoOffset)),
        0x06 => entry(Mnemonic::Asl, AddressMode::DirectPage(OffsetType::NoOffset)),
        0x07 => entry(Mnemonic::Slo, AddressMode::DirectPage(OffsetType::NoOffset)),
        0x08 => entry(Mnemonic::Php, AddressMode::Stack),
        0x09 => entry(Mnemonic::Ora, AddressMode::NoMemory(NoMemType::Immediate)),
        0x0A => entry(Mnemonic::Asl, AddressMode::NoMemory(NoMemType::Implied)),
        0x0B => entry(Mnemonic::Anc, AddressMode::NoMemory(NoMemType::Immediate)),
        0x0C => entry(Mnemonic::Nop, AddressMode::Absolute(OffsetType::NoOffset)),
        0x0D => entry(Mnemonic::Ora, AddressMode::Absolute(OffsetType::NoOffset)),
        0x0E => entry(Mnemonic::Asl, AddressMode::Absolute(OffsetType::NoOffset)),
        0x0F => entry(Mnemonic::Slo, AddressMode::Absolute(OffsetType::NoOffset)),
        0x10 => entry(Mnemonic::Bpl, AddressMode::Branch(BranchType::Relative)),
        0x11 => entry(Mnemonic::Ora, AddressMode::DpIndirect(OffsetType::Y)),
        0x12 => entry(Mnemonic::Jam, AddressMode::Jam),
        0x13 => entry(Mnemonic::Slo, AddressMode::DpIndirect(OffsetType::Y)),
        0x14 => entry(Mnemonic::Nop, AddressMode::DirectPage(OffsetType::X)),
        0x15 => entry(Mnemonic::Ora, AddressMode::DirectPage(OffsetType::X)),
        0x16 => entry(Mnemonic::Asl, AddressMode::DirectPage(OffsetType::X)),
        0x17 => entry(Mnemonic::Slo, AddressMode::DirectPage(OffsetType::X)),
        0x18 => entry(Mnemonic::Clc, AddressMode::NoMemory(NoMemType::Implied)),
        0x19 => entry(Mnemonic::Ora, AddressMode::Absolute(OffsetType::Y)),
        0x1A => entry(Mnemonic::Nop, AddressMode::NoMemory(NoMemType::Implied)),
        0x1B => entry(Mnemonic::Slo, AddressMode::Absolute(OffsetType::Y)),
        0x1C => entry(Mnemonic::Nop, AddressMode::Absolute(OffsetType::X)),
        0x1D => entry(Mnemonic::Ora, AddressMode::Absolute(OffsetType::X)),
        0x1E => entry(Mnemonic::Asl, AddressMode::Absolute(OffsetType::X)),
        0x1F => entry(Mnemonic::Slo, AddressMode::Absolute(OffsetType::X)),
        0x20 => entry(Mnemonic::Jsr, AddressMode::Jump(JumpType::ToSubroutine)),
        0x21 => entry(Mnemonic::And, AddressMode::DpIndirect(OffsetType::X)),
        0x22 => entry(Mnemonic::Jam, AddressMode::Jam),
        0x23 => entry(Mnemonic::Rla, AddressMode::DpIndirect(OffsetType::X)),
        0x24 => entry(Mnemonic::Bit, AddressMode::DirectPage(OffsetType::NoOffset)),
        0x25 => entry(Mnemonic::And, AddressMode::DirectPage(OffsetType::NoOffset)),
        0x26 => entry(Mnemonic::Rol, AddressMode::DirectPage(OffsetType::NoOffset)),
        0x27 => entry(Mnemonic::Rla, AddressMode::DirectPage(OffsetType::NoOffset)),
        0x28 => entry(Mnemonic::Plp, AddressMode::Stack),
        0x29 => entry(Mnemonic::And, AddressMode::NoMemory(NoMemType::Immediate)),
        0x2A => entry(Mnemonic::Rol, AddressMode::NoMemory(NoMemType::Implied)),
        0x2B => entry(Mnemonic::Anc, AddressMode::NoMemory(NoMemType::Immediate)),
        0x2C => entry(Mnemonic::Bit, AddressMode::Absolute(OffsetType::NoOffset)),
        0x2D => entry(Mnemonic::And, AddressMode::Absolute(OffsetType::NoOffset)),
        0x2E => entry(Mnemonic::Rol, AddressMode::Absolute(OffsetType::NoOffset)),
        0x2F => entry(Mnemonic::Rla, AddressMode::Absolute(OffsetType::NoOffset)),
        0x30 => entry(Mnemonic::Bmi, AddressMode::Branch(BranchType::Relative)),
        0x31 => entry(Mnemonic::And, AddressMode::DpIndirect(OffsetType::Y)),
        0x32 => entry(Mnemonic::Jam, AddressMode::Jam),
        0x33 => entry(Mnemonic::Rla, AddressMode::DpIndirect(OffsetType::Y)),
        0x34 => entry(Mnemonic::Nop, AddressMode::DirectPage(OffsetType::X)),
        0x35 => entry(Mnemonic::And, AddressMode::DirectPage(OffsetType::X)),
        0x36 => entry(Mnemonic::Rol, AddressMode::DirectPage(OffsetType::X)),
        0x37 => entry(Mnemonic::Rla, AddressMode::DirectPage(OffsetType::X)),
        0x38 => entry(Mnemonic::Sec, AddressMode::NoMemory(NoMemType::Implied)),
        0x39 => entry(Mnemonic::And, AddressMode::Absolute(OffsetType::Y)),
        0x3A => entry(Mnemonic::Nop, AddressMode::NoMemory(NoMemType::Implied)),
        0x3B => entry(Mnemonic::Rla, AddressMode::Absolute(OffsetType::Y)),
        0x3C => entry(Mnemonic::Nop, AddressMode::Absolute(OffsetType::X)),
        0x3D => entry(Mnemonic::And, AddressMode::Absolute(OffsetType::X)),
        0x3E => entry(Mnemonic::Rol, AddressMode::Absolute(OffsetType::X)),
        0x3F => entry(Mnemonic::Rla, AddressMode::Absolute(OffsetType::X)),
        0x40 => entry(Mnemonic::Rti, AddressMode::Jump(JumpType::FromInterrupt)),
        0x41 => entry(Mnemonic::Eor, AddressMode::DpIndirect(OffsetType::X)),
        0x42 => entry(Mnemonic::Jam, AddressMode::Jam),
        0x43 => entry(Mnemonic::Sre, AddressMode::DpIndirect(OffsetType::X)),
        0x44 => entry(Mnemonic::Nop, AddressMode::DirectPage(OffsetType::NoOffset)),
        0x45 => entry(Mnemonic::Eor, AddressMode::DirectPage(OffsetType::NoOffset)),
        0x46 => entry(Mnemonic::Lsr, AddressMode::DirectPage(OffsetType::NoOffset)),
        0x47 => entry(Mnemonic::Sre, AddressMode::DirectPage(OffsetType::NoOffset)),
        0x48 => entry(Mnemonic::Pha, AddressMode::Stack),
        0x49 => entry(Mnemonic::Eor, AddressMode::NoMemory(NoMemType::Immediate)),
        0x4A => entry(Mnemonic::Lsr, AddressMode::NoMemory(NoMemType::Implied)),
        0x4B => entry(Mnemonic::Alr, AddressMode::NoMemory(NoMemType::Immediate)),
        0x4C => entry(Mnemonic::Jmp, AddressMode::Jump(JumpType::JmpAbsolute)),
        0x4D => entry(Mnemonic::Eor, AddressMode::Absolute(OffsetType::NoOffset)),
        0x4E => entry(Mnemonic::Lsr, AddressMode::Absolute(OffsetType::NoOffset)),
        0x4F => entry(Mnemonic::Sre, AddressMode::Absolute(OffsetType::NoOffset)),
        0x50 => entry(Mnemonic::Bvc, AddressMode::Branch(BranchType::Relative)),
        0x51 => entry(Mnemonic::Eor, AddressMode::DpIndirect(OffsetType::Y)),
        0x52 => entry(Mnemonic::Jam, AddressMode::Jam),
        0x53 => entry(Mnemonic::Sre, AddressMode::DpIndirect(OffsetType::Y)),
        0x54 => entry(Mnemonic::Nop, AddressMode::DirectPage(OffsetType::X)),
        0x55 => entry(Mnemonic::Eor, AddressMode::DirectPage(OffsetType::X)),
        0x56 => entry(Mnemonic::Lsr, AddressMode::DirectPage(OffsetType::X)),
        0x57 => entry(Mnemonic::Sre, AddressMode::DirectPage(OffsetType::X)),
        0x58 => entry(Mnemonic::Cli, AddressMode::NoMemory(NoMemType::Implied)),
        0x59 => entry(Mnemonic::Eor, AddressMode::Absolute(OffsetType::Y)),
        0x5A => entry(Mnemonic::Nop, AddressMode::NoMemory(NoMemType::Implied)),
        0x5B => entry(Mnemonic::Sre, AddressMode::Absolute(OffsetType::Y)),
        0x5C => entry(Mnemonic::Nop, AddressMode::Absolute(OffsetType::X)),
        0x5D => entry(Mnemonic::Eor, AddressMode::Absolute(OffsetType::X)),
        0x5E => entry(Mnemonic::Lsr, AddressMode::Absolute(OffsetType::X)),
        0x5F => entry(Mnemonic::Sre, AddressMode::Absolute(OffsetType::X)),
        0x60 => entry(Mnemonic::Rts, AddressMode::Jump(JumpType::FromSubroutine)),
        0x61 => entry(Mnemonic::Adc, AddressMode::DpIndirect(OffsetType::X)),
        0x62 => entry(Mnemonic::Jam, AddressMode::Jam),
        0x63 => entry(Mnemonic::Rra, AddressMode::DpIndirect(OffsetType::X)),
        0x64 => entry(Mnemonic::Nop, AddressMode::DirectPage(OffsetType::NoOffset)),
        0x65 => entry(Mnemonic::Adc, AddressMode::DirectPage(OffsetType::NoOffset)),
        0x66 => entry(Mnemonic::Ror, AddressMode::DirectPage(OffsetType::NoOffset)),
        0x67 => entry(Mnemonic::Rra, AddressMode::DirectPage(OffsetType::NoOffset)),
        0x68 => entry(Mnemonic::Pla, AddressMode::Stack),
        0x69 => entry(Mnemonic::Adc, AddressMode::NoMemory(NoMemType::Immediate)),
        0x6A => entry(Mnemonic::Ror, AddressMode::NoMemory(NoMemType::Implied)),
        0x6B => entry(Mnemonic::Arr, AddressMode::NoMemory(NoMemType::Immediate)),
        0x6C => entry(Mnemonic::Jmp, AddressMode::Jump(JumpType::JmpIndirect)),
        0x6D => entry(Mnemonic::Adc, AddressMode::Absolute(OffsetType::NoOffset)),
        0x6E => entry(Mnemonic::Ror, AddressMode::Absolute(OffsetType::NoOffset)),
        0x6F => entry(Mnemonic::Rra, AddressMode::Absolute(OffsetType::NoOffset)),
        0x70 => entry(Mnemonic::Bvs, AddressMode::Branch(BranchType::Relative)),
        0x71 => entry(Mnemonic::Adc, AddressMode::DpIndirect(OffsetType::Y)),
        0x72 => entry(Mnemonic::Jam, AddressMode::Jam),
        0x73 => entry(Mnemonic::Rra, AddressMode::DpIndirect(OffsetType::Y)),
        0x74 => entry(Mnemonic::Nop, AddressMode::DirectPage(OffsetType::X)),
        0x75 => entry(Mnemonic::Adc, AddressMode::DirectPage(OffsetType::X)),
        0x76 => entry(Mnemonic::Ror, AddressMode::DirectPage(OffsetType::X)),
        0x77 => entry(Mnemonic::Rra, AddressMode::DirectPage(OffsetType::X)),
        0x78 => entry(Mnemonic::Sei, AddressMode::NoMemory(NoMemType::Implied)),
        0x79 => entry(Mnemonic::Adc, AddressMode::Absolute(OffsetType::Y)),
        0x7A => entry(Mnemonic::Nop, AddressMode::NoMemory(NoMemType::Implied)),
        0x7B => entry(Mnemonic::Rra, AddressMode::Absolute(OffsetType::Y)),
        0x7C => entry(Mnemonic::Nop, AddressMode::Absolute(OffsetType::X)),
        0x7D => entry(Mnemonic::Adc, AddressMode::Absolute(OffsetType::X)),
        0x7E => entry(Mnemonic::Ror, AddressMode::Absolute(OffsetType::X)),
        0x7F => entry(Mnemonic::Rra, AddressMode::Absolute(OffsetType::X)),
        0x80 => entry(Mnemonic::Nop, AddressMode::NoMemory(NoMemType::Immediate)),
        0x81 => entry(Mnemonic::Sta, AddressMode::DpIndirect(OffsetType::X)),
        0x82 => entry(Mnemonic::Nop, AddressMode::NoMemory(NoMemType::Immediate)),
        0x83 => entry(Mnemonic::Sax, AddressMode::DpIndirect(OffsetType::X)),
        0x84 => entry(Mnemonic::Sty, AddressMode::DirectPage(OffsetType::NoOffset)),
        0x85 => entry(Mnemonic::Sta, AddressMode::DirectPage(OffsetType::NoOffset)),
        0x86 => entry(Mnemonic::Stx, AddressMode::DirectPage(OffsetType::NoOffset)),
        0x87 => entry(Mnemonic::Sax, AddressMode::DirectPage(OffsetType::NoOffset)),
        0x88 => entry(Mnemonic::Dey, AddressMode::NoMemory(NoMemType::Implied)),
        0x89 => entry(Mnemonic::Nop, AddressMode::NoMemory(NoMemType::Immediate)),
        0x8A => entry(Mnemonic::Txa, AddressMode::NoMemory(NoMemType::Implied)),
        0x8B => entry(Mnemonic::Ane, AddressMode::NoMemory(NoMemType::Immediate)),
        0x8C => entry(Mnemonic::Sty, AddressMode::Absolute(OffsetType::NoOffset)),
        0x8D => entry(Mnemonic::Sta, AddressMode::Absolute(OffsetType::NoOffset)),
        0x8E => entry(Mnemonic::Stx, AddressMode::Absolute(OffsetType::NoOffset)),
        0x8F => entry(Mnemonic::Sax, AddressMode::Absolute(OffsetType::NoOffset)),
        0x90 => entry(Mnemonic::Bcc, AddressMode::Branch(BranchType::Relative)),
        0x91 => entry(Mnemonic::Sta, AddressMode::DpIndirect(OffsetType::Y)),
        0x92 => entry(Mnemonic::Jam, AddressMode::Jam),
        0x93 => entry(Mnemonic::Sha, AddressMode::DpIndirect(OffsetType::Y)),
        0x94 => entry(Mnemonic::Sty, AddressMode::DirectPage(OffsetType::X)),
        0x95 => entry(Mnemonic::Sta, AddressMode::DirectPage(OffsetType::X)),
        0x96 => entry(Mnemonic::Stx, AddressMode::DirectPage(OffsetType::Y)),
        0x97 => entry(Mnemonic::Sax, AddressMode::DirectPage(OffsetType::Y)),
        0x98 => entry(Mnemonic::Tya, AddressMode::NoMemory(NoMemType::Implied)),
        0x99 => entry(Mnemonic::Sta, AddressMode::Absolute(OffsetType::Y)),
        0x9A => entry(Mnemonic::Txs, AddressMode::NoMemory(NoMemType::Implied)),
        0x9B => entry(Mnemonic::Tas, AddressMode::Absolute(OffsetType::Y)),
        0x9C => entry(Mnemonic::Shy, AddressMode::Absolute(OffsetType::X)),
        0x9D => entry(Mnemonic::Sta, AddressMode::Absolute(OffsetType::X)),
        0x9E => entry(Mnemonic::Shx, AddressMode::Absolute(OffsetType::Y)),
        0x9F => entry(Mnemonic::Sha, AddressMode::Absolute(OffsetType::Y)),
        0xA0 => entry(Mnemonic::Ldy, AddressMode::NoMemory(NoMemType::Immediate)),
        0xA1 => entry(Mnemonic::Lda, AddressMode::DpIndirect(OffsetType::X)),
        0xA2 => entry(Mnemonic::Ldx, AddressMode::NoMemory(NoMemType::Immediate)),
        0xA3 => entry(Mnemonic::Lax, AddressMode::DpIndirect(OffsetType::X)),
        0xA4 => entry(Mnemonic::Ldy, AddressMode::DirectPage(OffsetType::NoOffset)),
        0xA5 => entry(Mnemonic::Lda, AddressMode::DirectPage(OffsetType::NoOffset)),
        0xA6 => entry(Mnemonic::Ldx, AddressMode::DirectPage(OffsetType::NoOffset)),
        0xA7 => entry(Mnemonic::Lax, AddressMode::DirectPage(OffsetType::NoOffset)),
        0xA8 => entry(Mnemonic::Tay, AddressMode::NoMemory(NoMemType::Implied)),
        0xA9 => entry(Mnemonic::Lda, AddressMode::NoMemory(NoMemType::Immediate)),
        0xAA => entry(Mnemonic::Tax, AddressMode::NoMemory(NoMemType::Implied)),
        0xAB => entry(Mnemonic::Lxa, AddressMode::NoMemory(NoMemType::Immediate)),
        0xAC => entry(Mnemonic::Ldy, AddressMode::Absolute(OffsetType::NoOffset)),
        0xAD => entry(Mnemonic::Lda, AddressMode::Absolute(OffsetType::NoOffset)),
        0xAE => entry(Mnemonic::Ldx, AddressMode::Absolute(OffsetType::NoOffset)),
        0xAF => entry(Mnemonic::Lax, AddressMode::Absolute(OffsetType::NoOffset)),
        0xB0 => entry(Mnemonic::Bcs, AddressMode::Branch(BranchType::Relative)),
        0xB1 => entry(Mnemonic::Lda, AddressMode::DpIndirect(OffsetType::Y)),
        0xB2 => entry(Mnemonic::Jam, AddressMode::Jam),
        0xB3 => entry(Mnemonic::Lax, AddressMode::DpIndirect(OffsetType::Y)),
        0xB4 => entry(Mnemonic::Ldy, AddressMode::DirectPage(OffsetType::X)),
        0xB5 => entry(Mnemonic::Lda, AddressMode::DirectPage(OffsetType::X)),
        0xB6 => entry(Mnemonic::Ldx, AddressMode::DirectPage(OffsetType::Y)),
        0xB7 => entry(Mnemonic::Lax, AddressMode::DirectPage(OffsetType::Y)),
        0xB8 => entry(Mnemonic::Clv, AddressMode::NoMemory(NoMemType::Implied)),
        0xB9 => entry(Mnemonic::Lda, AddressMode::Absolute(OffsetType::Y)),
        0xBA => entry(Mnemonic::Tsx, AddressMode::NoMemory(NoMemType::Implied)),
        0xBB => entry(Mnemonic::Las, AddressMode::Absolute(OffsetType::Y)),
        0xBC => entry(Mnemonic::Ldy, AddressMode::Absolute(OffsetType::X)),
        0xBD => entry(Mnemonic::Lda, AddressMode::Absolute(OffsetType::X)),
        0xBE => entry(Mnemonic::Ldx, AddressMode::Absolute(OffsetType::Y)),
        0xBF => entry(Mnemonic::Lax, AddressMode::Absolute(OffsetType::Y)),
        0xC0 => entry(Mnemonic::Cpy, AddressMode::NoMemory(NoMemType::Immediate)),
        0xC1 => entry(Mnemonic::Cmp, AddressMode::DpIndirect(OffsetType::X)),
        0xC2 => entry(Mnemonic::Nop, AddressMode::NoMemory(NoMemType::Immediate)),
        0xC3 => entry(Mnemonic::Dcp, AddressMode::DpIndirect(OffsetType::X)),
        0xC4 => entry(Mnemonic::Cpy, AddressMode::DirectPage(OffsetType::NoOffset)),
        0xC5 => entry(Mnemonic::Cmp, AddressMode::DirectPage(OffsetType::NoOffset)),
        0xC6 => entry(Mnemonic::Dec, AddressMode::DirectPage(OffsetType::NoOffset)),
        0xC7 => entry(Mnemonic::Dcp, AddressMode::DirectPage(OffsetType::NoOffset)),
        0xC8 => entry(Mnemonic::Iny, AddressMode::NoMemory(NoMemType::Implied)),
        0xC9 => entry(Mnemonic::Cmp, AddressMode::NoMemory(NoMemType::Immediate)),
        0xCA => entry(Mnemonic::Dex, AddressMode::NoMemory(NoMemType::Implied)),
        0xCB => entry(Mnemonic::Sbx, AddressMode::NoMemory(NoMemType::Immediate)),
        0xCC => entry(Mnemonic::Cpy, AddressMode::Absolute(OffsetType::NoOffset)),
        0xCD => entry(Mnemonic::Cmp, AddressMode::Absolute(OffsetType::NoOffset)),
        0xCE => entry(Mnemonic::Dec, AddressMode::Absolute(OffsetType::NoOffset)),
        0xCF => entry(Mnemonic::Dcp, AddressMode::Absolute(OffsetType::NoOffset)),
        0xD0 => entry(Mnemonic::Bne, AddressMode::Branch(BranchType::Relative)),
        0xD1 => entry(Mnemonic::Cmp, AddressMode::DpIndirect(OffsetType::Y)),
        0xD2 => entry(Mnemonic::Jam, AddressMode::Jam),
        0xD3 => entry(Mnemonic::Dcp, AddressMode::DpIndirect(OffsetType::Y)),
        0xD4 => entry(Mnemonic::Nop, AddressMode::DirectPage(OffsetType::X)),
        0xD5 => entry(Mnemonic::Cmp, AddressMode::DirectPage(OffsetType::X)),
        0xD6 => entry(Mnemonic::Dec, AddressMode::DirectPage(OffsetType::X)),
        0xD7 => entry(Mnemonic::Dcp, AddressMode::DirectPage(OffsetType::X)),
        0xD8 => entry(Mnemonic::Cld, AddressMode::NoMemory(NoMemType::Implied)),
        0xD9 => entry(Mnemonic::Cmp, AddressMode::Absolute(OffsetType::Y)),
        0xDA => entry(Mnemonic::Nop, AddressMode::NoMemory(NoMemType::Implied)),
        0xDB => entry(Mnemonic::Dcp, AddressMode::Absolute(OffsetType::Y)),
        0xDC => entry(Mnemonic::Nop, AddressMode::Absolute(OffsetType::X)),
        0xDD => entry(Mnemonic::Cmp, AddressMode::Absolute(OffsetType::X)),
        0xDE => entry(Mnemonic::Dec, AddressMode::Absolute(OffsetType::X)),
        0xDF => entry(Mnemonic::Dcp, AddressMode::Absolute(OffsetType::X)),
        0xE0 => entry(Mnemonic::Cpx, AddressMode::NoMemory(NoMemType::Immediate)),
        0xE1 => entry(Mnemonic::Sbc, AddressMode::DpIndirect(OffsetType::X)),
        0xE2 => entry(Mnemonic::Nop, AddressMode::NoMemory(NoMemType::Immediate)),
        0xE3 => entry(Mnemonic::Isc, AddressMode::DpIndirect(OffsetType::X)),
        0xE4 => entry(Mnemonic::Cpx, AddressMode::DirectPage(OffsetType::NoOffset)),
        0xE5 => entry(Mnemonic::Sbc, AddressMode::DirectPage(OffsetType::NoOffset)),
        0xE6 => entry(Mnemonic::Inc, AddressMode::DirectPage(OffsetType::NoOffset)),
        0xE7 => entry(Mnemonic::Isc, AddressMode::DirectPage(OffsetType::NoOffset)),
        0xE8 => entry(Mnemonic::Inx, AddressMode::NoMemory(NoMemType::Implied)),
        0xE9 => entry(Mnemonic::Sbc, AddressMode::NoMemory(NoMemType::Immediate)),
        0xEA => entry(Mnemonic::Nop, AddressMode::NoMemory(NoMemType::Implied)),
        0xEB => entry(Mnemonic::Usbc, AddressMode::NoMemory(NoMemType::Immediate)),
        0xEC => entry(Mnemonic::Cpx, AddressMode::Absolute(OffsetType::NoOffset)),
        0xED => entry(Mnemonic::Sbc, AddressMode::Absolute(OffsetType::NoOffset)),
        0xEE => entry(Mnemonic::Inc, AddressMode::Absolute(OffsetType::NoOffset)),
        0xEF => entry(Mnemonic::Isc, AddressMode::Absolute(OffsetType::NoOffset)),
        0xF0 => entry(Mnemonic::Beq, AddressMode::Branch(BranchType::Relative)),
        0xF1 => entry(Mnemonic::Sbc, AddressMode::DpIndirect(OffsetType::Y)),
        0xF2 => entry(Mnemonic::Jam, AddressMode::Jam),
        0xF3 => entry(Mnemonic::Isc, AddressMode::DpIndirect(OffsetType::Y)),
        0xF4 => entry(Mnemonic::Nop, AddressMode::DirectPage(OffsetType::X)),
        0xF5 => entry(Mnemonic::Sbc, AddressMode::DirectPage(OffsetType::X)),
        0xF6 => entry(Mnemonic::Inc, AddressMode::DirectPage(OffsetType::X)),
        0xF7 => entry(Mnemonic::Isc, AddressMode::DirectPage(OffsetType::X)),
        0xF8 => entry(Mnemonic::Sed, AddressMode::NoMemory(NoMemType::Implied)),
        0xF9 => entry(Mnemonic::Sbc, AddressMode::Absolute(OffsetType::Y)),
        0xFA => entry(Mnemonic::Nop, AddressMode::NoMemory(NoMemType::Implied)),
        0xFB => entry(Mnemonic::Isc, AddressMode::Absolute(OffsetType::Y)),
        0xFC => entry(Mnemonic::Nop, AddressMode::Absolute(OffsetType::X)),
        0xFD => entry(Mnemonic::Sbc, AddressMode::Absolute(OffsetType::X)),
        0xFE => entry(Mnemonic::Inc, AddressMode::Absolute(OffsetType::X)),
        0xFF => entry(Mnemonic::Isc, AddressMode::Absolute(OffsetType::X)),
    }
}

fn decode_cmos(op: u8) -> (r: Instruction)
    ensures
        r == cmos_entry(op),
{
    proof {
        reveal(cmos_entry);
    }
    match op {
        0x00 => entry(Mnemonic::Brk, AddressMode::Jump(JumpType::ToInterrupt)),
        0x01 => entry(Mnemonic::Ora, AddressMode::DpIndirect(OffsetType::X)),
        0x04 => entry(Mnemonic::Tsb, AddressMode::DirectPage(OffsetType::NoOffset)),
        0x05 => entry(Mnemonic::Ora, AddressMode::DirectPage(OffsetType::NoOffset)),
        0x06 => entry(Mnemonic::Asl, AddressMode::DirectPage(OffsetType::NoOffset)),
        0x07 => entry(Mnemonic::Rmb0, AddressMode::DirectPage(OffsetType::NoOffset)),
        0x08 => entry(Mnemonic::Php, AddressMode::Stack),
        0x09 => entry(Mnemonic::Ora, AddressMode::NoMemory(NoMemType::Immediate)),
        0x0A => entry(Mnemonic::Asl, AddressMode::NoMemory(NoMemType::Implied)),
        0x0C => entry(Mnemonic::Tsb, AddressMode::Absolute(OffsetType::NoOffset)),
        0x0D => entry(Mnemonic::Ora, AddressMode::Absolute(OffsetType::NoOffset)),
        0x0E => entry(Mnemonic::Asl, AddressMode::Absolute(OffsetType::NoOffset)),
        0x0F => entry(Mnemonic::Bbr0, AddressMode::Branch(BranchType::DpRelative)),
        0x10 => entry(Mnemonic::Bpl, AddressMode::Branch(BranchType::Relative)),
        0x11 => entry(Mnemonic::Ora, AddressMode::DpIndirect(OffsetType::Y)),
        0x12 => entry(Mnemonic::Ora, AddressMode::DpIndirect(OffsetType::NoOffset)),
        0x14 => entry(Mnemonic::Trb, AddressMode::DirectPage(OffsetType::NoOffset)),
        0x15 => entry(Mnemonic::Ora, AddressMode::DirectPage(OffsetType::X)),
        0x16 => entry(Mnemonic::Asl, AddressMode::DirectPage(OffsetType::X)),
        0x17 => entry(Mnemonic::Rmb1, AddressMode::DirectPage(OffsetType::NoOffset)),
        0x18 => entry(Mnemonic::Clc, AddressMode::NoMemory(NoMemType::Implied)),
        0x19 => entry(Mnemonic::Ora, AddressMode::Absolute(OffsetType::Y)),
        0x1A => entry(Mnemonic::Inc, AddressMode::NoMemory(NoMemType::Implied)),
        0x1C => entry(Mnemonic::Trb, AddressMode::Absolute(OffsetType::NoOffset)),
        0x1D => entry(Mnemonic::Ora, AddressMode::Absolute(OffsetType::X)),
        0x1E => entry(Mnemonic::Asl, AddressMode::Absolute(OffsetType::X)),
        0x1F => entry(Mnemonic::Bbr1, AddressMode::Branch(BranchType::DpRelative)),
        0x20 => entry(Mnemonic::Jsr, AddressMode::Jump(JumpType::ToSubroutine)),
        0x21 => entry(Mnemonic::And, AddressMode::DpIndirect(OffsetType::X)),
        0x24 => entry(Mnemonic::Bit, AddressMode::DirectPage(OffsetType::NoOffset)),
        0x25 => entry(Mnemonic::And, AddressMode::DirectPage(OffsetType::NoOffset)),
        0x26 => entry(Mnemonic::Rol, AddressMode::DirectPage(OffsetType::NoOffset)),
        0x27 => entry(Mnemonic::Rmb2, AddressMode::DirectPage(OffsetType::NoOffset)),
        0x28 => entry(Mnemonic::Plp, AddressMode::Stack),
        0x29 => entry(Mnemonic::And, AddressMode::NoMemory(NoMemType::Immediate)),
        0x2A => entry(Mnemonic::Rol, AddressMode::NoMemory(NoMemType::Implied)),
        0x2C => entry(Mnemonic::Bit, AddressMode::Absolute(OffsetType::NoOffset)),
        0x2D => entry(Mnemonic::And, AddressMode::Absolute(OffsetType::NoOffset)),
        0x2E => entry(Mnemonic::Rol, AddressMode::Absolute(OffsetType::NoOffset)),
        0x2F => entry(Mnemonic::Bbr2, AddressMode::Branch(BranchType::DpRelative)),
        0x30 => entry(Mnemonic::Bmi, AddressMode::Branch(BranchType::Relative)),
        0x31 => entry(Mnemonic::And, AddressMode::DpIndirect(OffsetType::Y)),
        0x32 => entry(Mnemonic::And, AddressMode::DpIndirect(OffsetType::NoOffset)),
        0x34 => entry(Mnemonic::Bit, AddressMode::DirectPage(OffsetType::X)),
        0x35 => entry(Mnemonic::And, AddressMode::DirectPage(OffsetType::X)),
        0x36 => entry(Mnemonic::Rol, AddressMode::DirectPage(OffsetType::X)),
        0x37 => entry(Mnemonic::Rmb3, AddressMode::DirectPage(OffsetType::NoOffset)),
        0x38 => entry(Mnemonic::Sec, AddressMode::NoMemory(NoMemType::Implied)),
        0x39 => entry(Mnemonic::And, AddressMode::Absolute(OffsetType::Y)),
        0x3A => entry(Mnemonic::Dec, AddressMode::NoMemory(NoMemType::Implied)),
        0x3C => entry(Mnemonic::Bit, AddressMode::Absolute(OffsetType::X)),
        0x3D => entry(Mnemonic::And, AddressMode::Absolute(OffsetType::X)),
        0x3E => entry(Mnemonic::Rol, AddressMode::Absolute(OffsetType::X)),
        0x3F => entry(Mnemonic::Bbr3, AddressMode::Branch(BranchType::DpRelative)),
        0x40 => entry(Mnemonic::Rti, AddressMode::Jump(JumpType::FromInterrupt)),
        0x41 => entry(Mnemonic::Eor, AddressMode::DpIndirect(OffsetType::X)),
        0x45 => entry(Mnemonic::Eor, AddressMode::DirectPage(OffsetType::NoOffset)),
        0x46 => entry(Mnemonic::Lsr, AddressMode::DirectPage(OffsetType::NoOffset)),
        0x47 => entry(Mnemonic::Rmb4, AddressMode::DirectPage(OffsetType::NoOffset)),
        0x48 => entry(Mnemonic::Pha, AddressMode::Stack),
        0x49 => entry(Mnemonic::Eor, AddressMode::NoMemory(NoMemType::Immediate)),
        0x4A => entry(Mnemonic::Lsr, AddressMode::NoMemory(NoMemType::Implied)),
        0x4C => entry(Mnemonic::Jmp, AddressMode::Jump(JumpType::JmpAbsolute)),
        0x4D => entry(Mnemonic::Eor, AddressMode::Absolute(OffsetType::NoOffset)),
        0x4E => entry(Mnemonic::Lsr, AddressMode::Absolute(OffsetType::NoOffset)),
        0x4F => entry(Mnemonic::Bbr4, AddressMode::Branch(BranchType::DpRelative)),
        0x50 => entry(Mnemonic::Bvc, AddressMode::Branch(BranchType::Relative)),
        0x51 => entry(Mnemonic::Eor, AddressMode::DpIndirect(OffsetType::Y)),
        0x52 => entry(Mnemonic::Eor, AddressMode::DpIndirect(OffsetType::NoOffset)),
        0x55 => entry(Mnemonic::Eor, AddressMode::DirectPage(OffsetType::X)),
        0x56 => entry(Mnemonic::Lsr, AddressMode::DirectPage(OffsetType::X)),
        0x57 => entry(Mnemonic::Rmb5, AddressMode::DirectPage(OffsetType::NoOffset)),
        0x58 => entry(Mnemonic::Cli, AddressMode::NoMemory(NoMemType::Implied)),
        0x59 => entry(Mnemonic::Eor, AddressMode::Absolute(OffsetType::Y)),
        0x5A => entry(Mnemonic::Phy, AddressMode::Stack),
        0x5D => entry(Mnemonic::Eor, AddressMode::Absolute(OffsetType::X)),
        0x5E => entry(Mnemonic::Lsr, AddressMode::Absolute(OffsetType::X)),
        0x5F => entry(Mnemonic::Bbr5, AddressMode::Branch(BranchType::DpRelative)),
        0x60 => entry(Mnemonic::Rts, AddressMode::Jump(JumpType::FromSubroutine)),
        0x61 => entry(Mnemonic::Adc, AddressMode::DpIndirect(OffsetType::X)),
        0x64 => entry(Mnemonic::Stz, AddressMode::DirectPage(OffsetType::NoOffset)),
        0x65 => entry(Mnemonic::Adc, AddressMode::DirectPage(OffsetType::NoOffset)),
        0x66 => entry(Mnemonic::Ror, AddressMode::DirectPage(OffsetType::NoOffset)),
        0x67 => entry(Mnemonic::Rmb6, AddressMode::DirectPage(OffsetType::NoOffset)),
        0x68 => entry(Mnemonic::Pla, AddressMode::Stack),
        0x69 => entry(Mnemonic::Adc, AddressMode::NoMemory(NoMemType::Immediate)),
        0x6A => entry(Mnemonic::Ror, AddressMode::NoMemory(NoMemType::Implied)),
        0x6C => entry(Mnemonic::Jmp, AddressMode::Jump(JumpType::JmpIndirect)),
        0x6D => entry(Mnemonic::Adc, AddressMode::Absolute(OffsetType::NoOffset)),
        0x6E => entry(Mnemonic::Ror, AddressMode::Absolute(OffsetType::NoOffset)),
        0x6F => entry(Mnemonic::Bbr6, AddressMode::Branch(BranchType::DpRelative)),
        0x70 => entry(Mnemonic::Bvs, AddressMode::Branch(BranchType::Relative)),
        0x71 => entry(Mnemonic::Adc, AddressMode::DpIndirect(OffsetType::Y)),
        0x72 => entry(Mnemonic::Adc, AddressMode::DpIndirect(OffsetType::NoOffset)),
        0x74 => entry(Mnemonic::Stz, AddressMode::DirectPage(OffsetType::X)),
        0x75 => entry(Mnemonic::Adc, AddressMode::DirectPage(OffsetType::X)),
        0x76 => entry(Mnemonic::Ror, AddressMode::DirectPage(OffsetType::X)),
        0x77 => entry(Mnemonic::Rmb7, AddressMode::DirectPage(OffsetType::NoOffset)),
        0x78 => entry(Mnemonic::Sei, AddressMode::NoMemory(NoMemType::Implied)),
        0x79 => entry(Mnemonic::Adc, AddressMode::Absolute(OffsetType::Y)),
        0x7A => entry(Mnemonic::Ply, AddressMode::Stack),
        0x7C => entry(Mnemonic::Jmp, AddressMode::Jump(JumpType::JmpIndirectX)),
        0x7D => entry(Mnemonic::Adc, AddressMode::Absolute(OffsetType::X)),
        0x7E => entry(Mnemonic::Ror, AddressMode::Absolute(OffsetType::X)),
        0x7F => entry(Mnemonic::Bbr7, AddressMode::Branch(BranchType::DpRelative)),
        0x80 => entry(Mnemonic::Bra, AddressMode::Branch(BranchType::Relative)),
        0x81 => entry(Mnemonic::Sta, AddressMode::DpIndirect(OffsetType::X)),
        0x84 => entry(Mnemonic::Sty, AddressMode::DirectPage(OffsetType::NoOffset)),
        0x85 => entry(Mnemonic::Sta, AddressMode::DirectPage(OffsetType::NoOffset)),
        0x86 => entry(Mnemonic::Stx, AddressMode::DirectPage(OffsetType::NoOffset)),
        0x87 => entry(Mnemonic::Smb0, AddressMode::DirectPage(OffsetType::NoOffset)),
        0x88 => entry(Mnemonic::Dey, AddressMode::NoMemory(NoMemType::Implied)),
        0x89 => entry(Mnemonic::Bit, AddressMode::NoMemory(NoMemType::Immediate)),
        0x8A => entry(Mnemonic::Txa, AddressMode::NoMemory(NoMemType::Implied)),
        0x8C => entry(Mnemonic::Sty, AddressMode::Absolute(OffsetType::NoOffset)),
        0x8D => entry(Mnemonic::Sta, AddressMode::Absolute(OffsetType::NoOffset)),
        0x8E => entry(Mnemonic::Stx, AddressMode::Absolute(OffsetType::NoOffset)),
        0x8F => entry(Mnemonic::Bbs0, AddressMode::Branch(BranchType::DpRelative)),
        0x90 => entry(Mnemonic::Bcc, AddressMode::Branch(BranchType::Relative)),
        0x91 => entry(Mnemonic::Sta, AddressMode::DpIndirect(OffsetType::Y)),
        0x92 => entry(Mnemonic::Sta, AddressMode::DpIndirect(OffsetType::NoOffset)),
        0x94 => entry(Mnemonic::Sty, AddressMode::DirectPage(OffsetType::X)),
        0x95 => entry(Mnemonic::Sta, AddressMode::DirectPage(OffsetType::X)),
        0x96 => entry(Mnemonic::Stx, AddressMode::DirectPage(OffsetType::Y)),
        0x97 => entry(Mnemonic::Smb1, AddressMode::DirectPage(OffsetType::NoOffset)),
        0x98 => entry(Mnemonic::Tya, AddressMode::NoMemory(NoMemType::Implied)),
        0x99 => entry(Mnemonic::Sta, AddressMode::Absolute(OffsetType::Y)),
        0x9A => entry(Mnemonic::Txs, AddressMode::NoMemory(NoMemType::Implied)),
        0x9C => entry(Mnemonic::Stz, AddressMode::Absolute(OffsetType::NoOffset)),
        0x9D => entry(Mnemonic::Sta, AddressMode::Absolute(OffsetType::X)),
        0x9E => entry(Mnemonic::Stz, AddressMode::Absolute(OffsetType::X)),
        0x9F => entry(Mnemonic::Bbs1, AddressMode::Branch(BranchType::DpRelative)),
        0xA0 => entry(Mnemonic::Ldy, AddressMode::NoMemory(NoMemType::Immediate)),
        0xA1 => entry(Mnemonic::Lda, AddressMode::DpIndirect(OffsetType::X)),
        0xA2 => entry(Mnemonic::Ldx, AddressMode::NoMemory(NoMemType::Immediate)),
        0xA4 => entry(Mnemonic::Ldy, AddressMode::DirectPage(OffsetType::NoOffset)),
        0xA5 => entry(Mnemonic::Lda, AddressMode::DirectPage(OffsetType::NoOffset)),
        0xA6 => entry(Mnemonic::Ldx, AddressMode::DirectPage(OffsetType::NoOffset)),
        0xA7 => entry(Mnemonic::Smb2, AddressMode::DirectPage(OffsetType::NoOffset)),
        0xA8 => entry(Mnemonic::Tay, AddressMode::NoMemory(NoMemType::Implied)),
        0xA9 => entry(Mnemonic::Lda, AddressMode::NoMemory(NoMemType::Immediate)),
        0xAA => entry(Mnemonic::Tax, AddressMode::NoMemory(NoMemType::Implied)),
        0xAC => entry(Mnemonic::Ldy, AddressMode::Absolute(OffsetType::NoOffset)),
        0xAD => entry(Mnemonic::Lda, AddressMode::Absolute(OffsetType::NoOffset)),
        0xAE => entry(Mnemonic::Ldx, AddressMode::Absolute(OffsetType::NoOffset)),
        0xAF => entry(Mnemonic::Bbs2, AddressMode::Branch(BranchType::DpRelative)),
        0xB0 => entry(Mnemonic::Bcs, AddressMode::Branch(BranchType::Relative)),
        0xB1 => entry(Mnemonic::Lda, AddressMode::DpIndirect(OffsetType::Y)),
        0xB2 => entry(Mnemonic::Lda, AddressMode::DpIndirect(OffsetType::NoOffset)),
        0xB4 => entry(Mnemonic::Ldy, AddressMode::DirectPage(OffsetType::X)),
        0xB5 => entry(Mnemonic::Lda, AddressMode::DirectPage(OffsetType::X)),
        0xB6 => entry(Mnemonic::Ldx, AddressMode::DirectPage(OffsetType::Y)),
        0xB7 => entry(Mnemonic::Smb3, AddressMode::DirectPage(OffsetType::NoOffset)),
        0xB8 => entry(Mnemonic::Clv, AddressMode::NoMemory(NoMemType::Implied)),
        0xB9 => entry(Mnemonic::Lda, AddressMode::Absolute(OffsetType::Y)),
        0xBA => entry(Mnemonic::Tsx, AddressMode::NoMemory(NoMemType::Implied)),
        0xBC => entry(Mnemonic::Ldy, AddressMode::Absolute(OffsetType::X)),
        0xBD => entry(Mnemonic::Lda, AddressMode::Absolute(OffsetType::X)),
        0xBE => entry(Mnemonic::Ldx, AddressMode::Absolute(OffsetType::Y)),
        0xBF => entry(Mnemonic::Bbs3, AddressMode::Branch(BranchType::DpRelative)),
        0xC0 => entry(Mnemonic::Cpy, AddressMode::NoMemory(NoMemType::Immediate)),
        0xC1 => entry(Mnemonic::Cmp, AddressMode::DpIndirect(OffsetType::X)),
        0xC4 => entry(Mnemonic::Cpy, AddressMode::DirectPage(OffsetType::NoOffset)),
        0xC5 => entry(Mnemonic::Cmp, AddressMode::DirectPage(OffsetType::NoOffset)),
        0xC6 => entry(Mnemonic::Dec, AddressMode::DirectPage(OffsetType::NoOffset)),
        0xC7 => entry(Mnemonic::Smb4, AddressMode::DirectPage(OffsetType::NoOffset)),
        0xC8 => entry(Mnemonic::Iny, AddressMode::NoMemory(NoMemType::Implied)),
        0xC9 => entry(Mnemonic::Cmp, AddressMode::NoMemory(NoMemType::Immediate)),
        0xCA => entry(Mnemonic::Dex, AddressMode::NoMemory(NoMemType::Implied)),
        0xCB => entry(Mnemonic::Wai, AddressMode::NoMemory(NoMemType::Implied)),
        0xCC => entry(Mnemonic::Cpy, AddressMode::Absolute(OffsetType::NoOffset)),
        0xCD => entry(Mnemonic::Cmp, AddressMode::Absolute(OffsetType::NoOffset)),
        0xCE => entry(Mnemonic::Dec, AddressMode::Absolute(OffsetType::NoOffset)),
        0xCF => entry(Mnemonic::Bbs4, AddressMode::Branch(BranchType::DpRelative)),
        0xD0 => entry(Mnemonic::Bne, AddressMode::Branch(BranchType::Relative)),
        0xD1 => entry(Mnemonic::Cmp, AddressMode::DpIndirect(OffsetType::Y)),
        0xD2 => entry(Mnemonic::Cmp, AddressMode::DpIndirect(OffsetType::NoOffset)),
        0xD5 => entry(Mnemonic::Cmp, AddressMode::DirectPage(OffsetType::X)),
        0xD6 => entry(Mnemonic::Dec, AddressMode::DirectPage(OffsetType::X)),
        0xD7 => entry(Mnemonic::Smb5, AddressMode::DirectPage(OffsetType::NoOffset)),
        0xD8 => entry(Mnemonic::Cld, AddressMode::NoMemory(NoMemType::Implied)),
        0xD9 => entry(Mnemonic::Cmp, AddressMode::Absolute(OffsetType::Y)),
        0xDA => entry(Mnemonic::Phx, AddressMode::Stack),
        0xDB => entry(Mnemonic::Stp, AddressMode::NoMemory(NoMemType::Implied)),
        0xDD => entry(Mnemonic::Cmp, AddressMode::Absolute(OffsetType::X)),
        0xDE => entry(Mnemonic::Dec, AddressMode::Absolute(OffsetType::X)),
        0xDF => entry(Mnemonic::Bbs5, AddressMode::Branch(BranchType::DpRelative)),
        0xE0 => entry(Mnemonic::Cpx, AddressMode::NoMemory(NoMemType::Immediate)),
        0xE1 => entry(Mnemonic::Sbc, AddressMode::DpIndirect(OffsetType::X)),
        0xE4 => entry(Mnemonic::Cpx, AddressMode::DirectPage(OffsetType::NoOffset)),
        0xE5 => entry(Mnemonic::Sbc, AddressMode::DirectPage(OffsetType::NoOffset)),
        0xE6 => entry(Mnemonic::Inc, AddressMode::DirectPage(OffsetType::NoOffset)),
        0xE7 => entry(Mnemonic::Smb6, AddressMode::DirectPage(OffsetType::NoOffset)),
        0xE8 => entry(Mnemonic::Inx, AddressMode::NoMemory(NoMemType::Implied)),
        0xE9 => entry(Mnemonic::Sbc, AddressMode::NoMemory(NoMemType::Immediate)),
        0xEA => entry(Mnemonic::Nop, AddressMode::NoMemory(NoMemType::Implied)),
        0xEB => entry(Mnemonic::Usbc, AddressMode::NoMemory(NoMemType::Immediate)),
        0xEC => entry(Mnemonic::Cpx, AddressMode::Absolute(OffsetType::NoOffset)),
        0xED => entry(Mnemonic::Sbc, AddressMode::Absolute(OffsetType::NoOffset)),
        0xEE => entry(Mnemonic::Inc, AddressMode::Absolute(OffsetType::NoOffset)),
        0xEF => entry(Mnemonic::Bbs6, AddressMode::Branch(BranchType::DpRelative)),
        0xF0 => entry(Mnemonic::Beq, AddressMode::Branch(BranchType::Relative)),
        0xF1 => entry(Mnemonic::Sbc, AddressMode::DpIndirect(OffsetType::Y)),
        0xF2 => entry(Mnemonic::Sbc, AddressMode::DpIndirect(OffsetType::NoOffset)),
        0xF5 => entry(Mnemonic::Sbc, AddressMode::DirectPage(OffsetType::X)),
        0xF6 => entry(Mnemonic::Inc, AddressMode::DirectPage(OffsetType::X)),
        0xF7 => entry(Mnemonic::Smb7, AddressMode::DirectPage(OffsetType::NoOffset)),
        0xF8 => entry(Mnemonic::Sed, AddressMode::NoMemory(NoMemType::Implied)),
        0xF9 => entry(Mnemonic::Sbc, AddressMode::Absolute(OffsetType::Y)),
        0xFA => entry(Mnemonic::Plx, AddressMode::Stack),
        0xFD => entry(Mnemonic::Sbc, AddressMode::Absolute(OffsetType::X)),
        0xFE => entry(Mnemonic::Inc, AddressMode::Absolute(OffsetType::X)),
        0xFF => entry(Mnemonic::Bbs7, AddressMode::Branch(BranchType::DpRelative)),
        _ => undefined(),
    }
}

fn decode_wdc816(op: u8) -> (r: Instruction)
    ensures
        r == wdc816_entry(op),
{
    proof {
        reveal(wdc816_entry);
    }
    match op {
        0x00 => entry(Mnemonic::Brk, AddressMode::Jump(JumpType::ToInterrupt)),
        0x01 => entry(Mnemonic::Ora, AddressMode::DpIndirect(OffsetType::X)),
        0x03 => entry(Mnemonic::Ora, AddressMode::StackRelative(OffsetType::NoOffset)),
        0x04 => entry(Mnemonic::Tsb, AddressMode::DirectPage(OffsetType::NoOffset)),
        0x05 => entry(Mnemonic::Ora, AddressMode::DirectPage(OffsetType::NoOffset)),
        0x06 => entry(Mnemonic::Asl, AddressMode::DirectPage(OffsetType::NoOffset)),
        0x07 => entry(Mnemonic::Ora, AddressMode::DpIndirectLong(OffsetType::NoOffset)),
        0x08 => entry(Mnemonic::Php, AddressMode::Stack),
        0x09 => entry(Mnemonic::Ora, AddressMode::NoMemory(NoMemType::Immediate)),
        0x0A => entry(Mnemonic::Asl, AddressMode::NoMemory(NoMemType::Implied)),
        0x0C => entry(Mnemonic::Tsb, AddressMode::Absolute(OffsetType::NoOffset)),
        0x0D => entry(Mnemonic::Ora, AddressMode::Absolute(OffsetType::NoOffset)),
        0x0E => entry(Mnemonic::Asl, AddressMode::Absolute(OffsetType::NoOffset)),
        0x0F => entry(Mnemonic::Ora, AddressMode::AbsoluteLong(OffsetType::NoOffset)),
        0x10 => entry(Mnemonic::Bpl, AddressMode::Branch(BranchType::Relative)),
        0x11 => entry(Mnemonic::Ora, AddressMode::DpIndirect(OffsetType::Y)),
        0x12 => entry(Mnemonic::Ora, AddressMode::DpIndirect(OffsetType::NoOffset)),
        0x13 => entry(Mnemonic::Ora, AddressMode::StackRelative(OffsetType::Y)),
        0x14 => entry(Mnemonic::Trb, AddressMode::DirectPage(OffsetType::NoOffset)),
        0x15 => entry(Mnemonic::Ora, AddressMode::DirectPage(OffsetType::X)),
        0x16 => entry(Mnemonic::Asl, AddressMode::DirectPage(OffsetType::X)),
        0x17 => entry(Mnemonic::Ora, AddressMode::DpIndirectLong(OffsetType::Y)),
        0x18 => entry(Mnemonic::Clc, AddressMode::NoMemory(NoMemType::Implied)),
        0x19 => entry(Mnemonic::Ora, AddressMode::Absolute(OffsetType::Y)),
        0x1A => entry(Mnemonic::Inc, AddressMode::NoMemory(NoMemType::Implied)),
        0x1C => entry(Mnemonic::Trb, AddressMode::Absolute(OffsetType::NoOffset)),
        0x1D => entry(Mnemonic::Ora, AddressMode::Absolute(OffsetType::X)),
        0x1E => entry(Mnemonic::Asl, AddressMode::Absolute(OffsetType::X)),
        0x1F => entry(Mnemonic::Ora, AddressMode::AbsoluteLong(OffsetType::X)),
        0x20 => entry(Mnemonic::Jsr, AddressMode::Jump(JumpType::ToSubroutine)),
        0x21 => entry(Mnemonic::And, AddressMode::DpIndirect(OffsetType::X)),
        0x23 => entry(Mnemonic::And, AddressMode::StackRelative(OffsetType::NoOffset)),
        0x24 => entry(Mnemonic::Bit, AddressMode::DirectPage(OffsetType::NoOffset)),
        0x25 => entry(Mnemonic::And, AddressMode::DirectPage(OffsetType::NoOffset)),
        0x26 => entry(Mnemonic::Rol, AddressMode::DirectPage(OffsetType::NoOffset)),
        0x27 => entry(Mnemonic::And, AddressMode::DpIndirectLong(OffsetType::NoOffset)),
        0x28 => entry(Mnemonic::Plp, AddressMode::Stack),
        0x29 => entry(Mnemonic::And, AddressMode::NoMemory(NoMemType::Immediate)),
        0x2A => entry(Mnemonic::Rol, AddressMode::NoMemory(NoMemType::Implied)),
        0x2C => entry(Mnemonic::Bit, AddressMode::Absolute(OffsetType::NoOffset)),
        0x2D => entry(Mnemonic::And, AddressMode::Absolute(OffsetType::NoOffset)),
        0x2E => entry(Mnemonic::Rol, AddressMode::Absolute(OffsetType::NoOffset)),
        0x2F => entry(Mnemonic::And, AddressMode::AbsoluteLong(OffsetType::NoOffset)),
        0x30 => entry(Mnemonic::Bmi, AddressMode::Branch(BranchType::Relative)),
        0x31 => entry(Mnemonic::And, AddressMode::DpIndirect(OffsetType::Y)),
        0x32 => entry(Mnemonic::And, AddressMode::DpIndirect(OffsetType::NoOffset)),
        0x33 => entry(Mnemonic::And, AddressMode::StackRelative(OffsetType::Y)),
        0x34 => entry(Mnemonic::Bit, AddressMode::DirectPage(OffsetType::X)),
        0x35 => entry(Mnemonic::And, AddressMode::DirectPage(OffsetType::X)),
        0x36 => entry(Mnemonic::Rol, AddressMode::DirectPage(OffsetType::X)),
        0x37 => entry(Mnemonic::And, AddressMode::DpIndirectLong(OffsetType::Y)),
        0x38 => entry(Mnemonic::Sec, AddressMode::NoMemory(NoMemType::Implied)),
        0x39 => entry(Mnemonic::And, AddressMode::Absolute(OffsetType::Y)),
        0x3A => entry(Mnemonic::Dec, AddressMode::NoMemory(NoMemType::Implied)),
        0x3C => entry(Mnemonic::Bit, AddressMode::Absolute(OffsetType::X)),
        0x3D => entry(Mnemonic::And, AddressMode::Absolute(OffsetType::X)),
        0x3E => entry(Mnemonic::Rol, AddressMode::Absolute(OffsetType::X)),
        0x3F => entry(Mnemonic::And, AddressMode::AbsoluteLong(OffsetType::X)),
        0x40 => entry(Mnemonic::Rti, AddressMode::Jump(JumpType::FromInterrupt)),
        0x41 => entry(Mnemonic::Eor, AddressMode::DpIndirect(OffsetType::X)),
        0x43 => entry(Mnemonic::Eor, AddressMode::StackRelative(OffsetType::NoOffset)),
        0x45 => entry(Mnemonic::Eor, AddressMode::DirectPage(OffsetType::NoOffset)),
        0x46 => entry(Mnemonic::Lsr, AddressMode::DirectPage(OffsetType::NoOffset)),
        0x47 => entry(Mnemonic::Eor, AddressMode::DpIndirectLong(OffsetType::NoOffset)),
        0x48 => entry(Mnemonic::Pha, AddressMode::Stack),
        0x49 => entry(Mnemonic::Eor, AddressMode::NoMemory(NoMemType::Immediate)),
        0x4A => entry(Mnemonic::Lsr, AddressMode::NoMemory(NoMemType::Implied)),
        0x4C => entry(Mnemonic::Jmp, AddressMode::Jump(JumpType::JmpAbsolute)),
        0x4D => entry(Mnemonic::Eor, AddressMode::Absolute(OffsetType::NoOffset)),
        0x4E => entry(Mnemonic::Lsr, AddressMode::Absolute(OffsetType::NoOffset)),
        0x4F => entry(Mnemonic::Eor, AddressMode::AbsoluteLong(OffsetType::NoOffset)),
        0x50 => entry(Mnemonic::Bvc, AddressMode::Branch(BranchType::Relative)),
        0x51 => entry(Mnemonic::Eor, AddressMode::DpIndirect(OffsetType::Y)),
        0x52 => entry(Mnemonic::Eor, AddressMode::DpIndirect(OffsetType::NoOffset)),
        0x53 => entry(Mnemonic::Eor, AddressMode::StackRelative(OffsetType::Y)),
        0x55 => entry(Mnemonic::Eor, AddressMode::DirectPage(OffsetType::X)),
        0x56 => entry(Mnemonic::Lsr, AddressMode::DirectPage(OffsetType::X)),
        0x57 => entry(Mnemonic::Eor, AddressMode::DpIndirectLong(OffsetType::Y)),
        0x58 => entry(Mnemonic::Cli, AddressMode::NoMemory(NoMemType::Implied)),
        0x59 => entry(Mnemonic::Eor, AddressMode::Absolute(OffsetType::Y)),
        0x5A => entry(Mnemonic::Phy, AddressMode::Stack),
        0x5D => entry(Mnemonic::Eor, AddressMode::Absolute(OffsetType::X)),
        0x5E => entry(Mnemonic::Lsr, AddressMode::Absolute(OffsetType::X)),
        0x5F => entry(Mnemonic::Eor, AddressMode::AbsoluteLong(OffsetType::X)),
        0x60 => entry(Mnemonic::Rts, AddressMode::Jump(JumpType::FromSubroutine)),
        0x61 => entry(Mnemonic::Adc, AddressMode::DpIndirect(OffsetType::X)),
        0x63 => entry(Mnemonic::Adc, AddressMode::StackRelative(OffsetType::NoOffset)),
        0x64 => entry(Mnemonic::Stz, AddressMode::DirectPage(OffsetType::NoOffset)),
        0x65 => entry(Mnemonic::Adc, AddressMode::DirectPage(OffsetType::NoOffset)),
        0x66 => entry(Mnemonic::Ror, AddressMode::DirectPage(OffsetType::NoOffset)),
        0x67 => entry(Mnemonic::Adc, AddressMode::DpIndirectLong(OffsetType::NoOffset)),
        0x68 => entry(Mnemonic::Pla, AddressMode::Stack),
        0x69 => entry(Mnemonic::Adc, AddressMode::NoMemory(NoMemType::Immediate)),
        0x6A => entry(Mnemonic::Ror, AddressMode::NoMemory(NoMemType::Implied)),
        0x6C => entry(Mnemonic::Jmp, AddressMode::Jump(JumpType::JmpIndirect)),
        0x6D => entry(Mnemonic::Adc, AddressMode::Absolute(OffsetType::NoOffset)),
        0x6E => entry(Mnemonic::Ror, AddressMode::Absolute(OffsetType::NoOffset)),
        0x6F => entry(Mnemonic::Adc, AddressMode::AbsoluteLong(OffsetType::NoOffset)),
        0x70 => entry(Mnemonic::Bvs, AddressMode::Branch(BranchType::Relative)),
        0x71 => entry(Mnemonic::Adc, AddressMode::DpIndirect(OffsetType::Y)),
        0x72 => entry(Mnemonic::Adc, AddressMode::DpIndirect(OffsetType::NoOffset)),
        0x73 => entry(Mnemonic::Adc, AddressMode::StackRelative(OffsetType::Y)),
        0x74 => entry(Mnemonic::Stz, AddressMode::DirectPage(OffsetType::X)),
        0x75 => entry(Mnemonic::Adc, AddressMode::DirectPage(OffsetType::X)),
        0x76 => entry(Mnemonic::Ror, AddressMode::DirectPage(OffsetType::X)),
        0x77 => entry(Mnemonic::Adc, AddressMode::DpIndirectLong(OffsetType::Y)),
        0x78 => entry(Mnemonic::Sei, AddressMode::NoMemory(NoMemType::Implied)),
        0x79 => entry(Mnemonic::Adc, AddressMode::Absolute(OffsetType::Y)),
        0x7A => entry(Mnemonic::Ply, AddressMode::Stack),
        0x7C => entry(Mnemonic::Jmp, AddressMode::Jump(JumpType::JmpIndirectX)),
        0x7D => entry(Mnemonic::Adc, AddressMode::Absolute(OffsetType::X)),
        0x7E => entry(Mnemonic::Ror, AddressMode::Absolute(OffsetType::X)),
        0x7F => entry(Mnemonic::Adc, AddressMode::AbsoluteLong(OffsetType::X)),
        0x80 => entry(Mnemonic::Bra, AddressMode::Branch(BranchType::Relative)),
        0x81 => entry(Mnemonic::Sta, AddressMode::DpIndirect(OffsetType::X)),
        0x83 => entry(Mnemonic::Sta, AddressMode::StackRelative(OffsetType::NoOffset)),
        0x84 => entry(Mnemonic::Sty, AddressMode::DirectPage(OffsetType::NoOffset)),
        0x85 => entry(Mnemonic::Sta, AddressMode::DirectPage(OffsetType::NoOffset)),
        0x86 => entry(Mnemonic::Stx, AddressMode::DirectPage(OffsetType::NoOffset)),
        0x87 => entry(Mnemonic::Sta, AddressMode::DpIndirectLong(OffsetType::NoOffset)),
        0x88 => entry(Mnemonic::Dey, AddressMode::NoMemory(NoMemType::Implied)),
        0x89 => entry(Mnemonic::Bit, AddressMode::NoMemory(NoMemType::Immediate)),
        0x8A => entry(Mnemonic::Txa, AddressMode::NoMemory(NoMemType::Implied)),
        0x8C => entry(Mnemonic::Sty, AddressMode::Absolute(OffsetType::NoOffset)),
        0x8D => entry(Mnemonic::Sta, AddressMode::Absolute(OffsetType::NoOffset)),
        0x8E => entry(Mnemonic::Stx, AddressMode::Absolute(OffsetType::NoOffset)),
        0x8F => entry(Mnemonic::Sta, AddressMode::AbsoluteLong(OffsetType::NoOffset)),
        0x90 => entry(Mnemonic::Bcc, AddressMode::Branch(BranchType::Relative)),
        0x91 => entry(Mnemonic::Sta, AddressMode::DpIndirect(OffsetType::Y)),
        0x92 => entry(Mnemonic::Sta, AddressMode::DpIndirect(OffsetType::NoOffset)),
        0x93 => entry(Mnemonic::Sta, AddressMode::StackRelative(OffsetType::Y)),
        0x94 => entry(Mnemonic::Sty, AddressMode::DirectPage(OffsetType::X)),
        0x95 => entry(Mnemonic::Sta, AddressMode::DirectPage(OffsetType::X)),
        0x96 => entry(Mnemonic::Stx, AddressMode::DirectPage(OffsetType::Y)),
        0x97 => entry(Mnemonic::Sta, AddressMode::DpIndirectLong(OffsetType::Y)),
        0x98 => entry(Mnemonic::Tya, AddressMode::NoMemory(NoMemType::Implied)),
        0x99 => entry(Mnemonic::Sta, AddressMode::Absolute(OffsetType::Y)),
        0x9A => entry(Mnemonic::Txs, AddressMode::NoMemory(NoMemType::Implied)),
        0x9C => entry(Mnemonic::Stz, AddressMode::Absolute(OffsetType::NoOffset)),
        0x9D => entry(Mnemonic::Sta, AddressMode::Absolute(OffsetType::X)),
        0x9E => entry(Mnemonic::Stz, AddressMode::Absolute(OffsetType::X)),
        0x9F => entry(Mnemonic::Sta, AddressMode::AbsoluteLong(OffsetType::X)),
        0xA0 => entry(Mnemonic::Ldy, AddressMode::NoMemory(NoMemType::Immediate)),
        0xA1 => entry(Mnemonic::Lda, AddressMode::DpIndirect(OffsetType::X)),
        0xA2 => entry(Mnemonic::Ldx, AddressMode::NoMemory(NoMemType::Immediate)),
        0xA3 => entry(Mnemonic::Lda, AddressMode::StackRelative(OffsetType::NoOffset)),
        0xA4 => entry(Mnemonic::Ldy, AddressMode::DirectPage(OffsetType::NoOffset)),
        0xA5 => entry(Mnemonic::Lda, AddressMode::DirectPage(OffsetType::NoOffset)),
        0xA6 => entry(Mnemonic::Ldx, AddressMode::DirectPage(OffsetType::NoOffset)),
        0xA7 => entry(Mnemonic::Lda, AddressMode::DpIndirectLong(OffsetType::NoOffset)),
        0xA8 => entry(Mnemonic::Tay, AddressMode::NoMemory(NoMemType::Implied)),
        0xA9 => entry(Mnemonic::Lda, AddressMode::NoMemory(NoMemType::Immediate)),
        0xAA => entry(Mnemonic::Tax, AddressMode::NoMemory(NoMemType::Implied)),
        0xAC => entry(Mnemonic::Ldy, AddressMode::Absolute(OffsetType::NoOffset)),
        0xAD => entry(Mnemonic::Lda, AddressMode::Absolute(OffsetType::NoOffset)),
        0xAE => entry(Mnemonic::Ldx, AddressMode::Absolute(OffsetType::NoOffset)),
        0xAF => entry(Mnemonic::Lda, AddressMode::AbsoluteLong(OffsetType::NoOffset)),
        0xB0 => entry(Mnemonic::Bcs, AddressMode::Branch(BranchType::Relative)),
        0xB1 => entry(Mnemonic::Lda, AddressMode::DpIndirect(OffsetType::Y)),
        0xB2 => entry(Mnemonic::Lda, AddressMode::DpIndirect(OffsetType::NoOffset)),
        0xB3 => entry(Mnemonic::Lda, AddressMode::StackRelative(OffsetType::Y)),
        0xB4 => entry(Mnemonic::Ldy, AddressMode::DirectPage(OffsetType::X)),
        0xB5 => entry(Mnemonic::Lda, AddressMode::DirectPage(OffsetType::X)),
        0xB6 => entry(Mnemonic::Ldx, AddressMode::DirectPage(OffsetType::Y)),
        0xB7 => entry(Mnemonic::Lda, AddressMode::DpIndirectLong(OffsetType::Y)),
        0xB8 => entry(Mnemonic::Clv, AddressMode::NoMemory(NoMemType::Implied)),
        0xB9 => entry(Mnemonic::Lda, AddressMode::Absolute(OffsetType::Y)),
        0xBA => entry(Mnemonic::Tsx, AddressMode::NoMemory(NoMemType::Implied)),
        0xBC => entry(Mnemonic::Ldy, AddressMode::Absolute(OffsetType::X)),
        0xBD => entry(Mnemonic::Lda, AddressMode::Absolute(OffsetType::X)),
        0xBE => entry(Mnemonic::Ldx, AddressMode::Absolute(OffsetType::Y)),
        0xBF => entry(Mnemonic::Lda, AddressMode::AbsoluteLong(OffsetType::X)),
        0xC0 => entry(Mnemonic::Cpy, AddressMode::NoMemory(NoMemType::Immediate)),
        0xC1 => entry(Mnemonic::Cmp, AddressMode::DpIndirect(OffsetType::X)),
        0xC3 => entry(Mnemonic::Cmp, AddressMode::StackRelative(OffsetType::NoOffset)),
        0xC4 => entry(Mnemonic::Cpy, AddressMode::DirectPage(OffsetType::NoOffset)),
        0xC5 => entry(Mnemonic::Cmp, AddressMode::DirectPage(OffsetType::NoOffset)),
        0xC6 => entry(Mnemonic::Dec, AddressMode::DirectPage(OffsetType::NoOffset)),
        0xC7 => entry(Mnemonic::Cmp, AddressMode::DpIndirectLong(OffsetType::NoOffset)),
        0xC8 => entry(Mnemonic::Iny, AddressMode::NoMemory(NoMemType::Implied)),
        0xC9 => entry(Mnemonic::Cmp, AddressMode::NoMemory(NoMemType::Immediate)),
        0xCA => entry(Mnemonic::Dex, AddressMode::NoMemory(NoMemType::Implied)),
        0xCB => entry(Mnemonic::Wai, AddressMode::NoMemory(NoMemType::Implied)),
        0xCC => entry(Mnemonic::Cpy, AddressMode::Absolute(OffsetType::NoOffset)),
        0xCD => entry(Mnemonic::Cmp, AddressMode::Absolute(OffsetType::NoOffset)),
        0xCE => entry(Mnemonic::Dec, AddressMode::Absolute(OffsetType::NoOffset)),
        0xCF => entry(Mnemonic::Cmp, AddressMode::AbsoluteLong(OffsetType::NoOffset)),
        0xD0 => entry(Mnemonic::Bne, AddressMode::Branch(BranchType::Relative)),
        0xD1 => entry(Mnemonic::Cmp, AddressMode::DpIndirect(OffsetType::Y)),
        0xD2 => entry(Mnemonic::Cmp, AddressMode::DpIndirect(OffsetType::NoOffset)),
        0xD3 => entry(Mnemonic::Cmp, AddressMode::StackRelative(OffsetType::Y)),
        0xD5 => entry(Mnemonic::Cmp, AddressMode::DirectPage(OffsetType::X)),
        0xD6 => entry(Mnemonic::Dec, AddressMode::DirectPage(OffsetType::X)),
        0xD7 => entry(Mnemonic::Cmp, AddressMode::DpIndirectLong(OffsetType::X)),
        0xD8 => entry(Mnemonic::Cld, AddressMode::NoMemory(NoMemType::Implied)),
        0xD9 => entry(Mnemonic::Cmp, AddressMode::Absolute(OffsetType::Y)),
        0xDA => entry(Mnemonic::Phx, AddressMode::Stack),
        0xDB => entry(Mnemonic::Stp, AddressMode::NoMemory(NoMemType::Implied)),
        0xDD => entry(Mnemonic::Cmp, AddressMode::Absolute(OffsetType::X)),
        0xDE => entry(Mnemonic::Dec, AddressMode::Absolute(OffsetType::X)),
        0xDF => entry(Mnemonic::Cmp, AddressMode::AbsoluteLong(OffsetType::X)),
        0xE0 => entry(Mnemonic::Cpx, AddressMode::NoMemory(NoMemType::Immediate)),
        0xE1 => entry(Mnemonic::Sbc, AddressMode::DpIndirect(OffsetType::X)),
        0xE3 => entry(Mnemonic::Sbc, AddressMode::StackRelative(OffsetType::NoOffset)),
        0xE4 => entry(Mnemonic::Cpx, AddressMode::DirectPage(OffsetType::NoOffset)),
        0xE5 => entry(Mnemonic::Sbc, AddressMode::DirectPage(OffsetType::NoOffset)),
        0xE6 => entry(Mnemonic::Inc, AddressMode::DirectPage(OffsetType::NoOffset)),
        0xE7 => entry(Mnemonic::Sbc, AddressMode::DpIndirectLong(OffsetType::NoOffset)),
        0xE8 => entry(Mnemonic::Inx, AddressMode::NoMemory(NoMemType::Implied)),
        0xE9 => entry(Mnemonic::Sbc, AddressMode::NoMemory(NoMemType::Immediate)),
        0xEA => entry(Mnemonic::Nop, AddressMode::NoMemory(NoMemType::Implied)),
        0xEB => entry(Mnemonic::Usbc, AddressMode::NoMemory(NoMemType::Immediate)),
        0xEC => entry(Mnemonic::Cpx, AddressMode::Absolute(OffsetType::NoOffset)),
        0xED => entry(Mnemonic::Sbc, AddressMode::Absolute(OffsetType::NoOffset)),
        0xEE => entry(Mnemonic::Inc, AddressMode::Absolute(OffsetType::NoOffset)),
        0xEF => entry(Mnemonic::Sbc, AddressMode::AbsoluteLong(OffsetType::NoOffset)),
        0xF0 => entry(Mnemonic::Beq, AddressMode::Branch(BranchType::Relative)),
        0xF1 => entry(Mnemonic::Sbc, AddressMode::DpIndirect(OffsetType::Y)),
        0xF2 => entry(Mnemonic::Sbc, AddressMode::DpIndirect(OffsetType::NoOffset)),
        0xF3 => entry(Mnemonic::Sbc, AddressMode::StackRelative(OffsetType::Y)),
        0xF5 => entry(Mnemonic::Sbc, AddressMode::DirectPage(OffsetType::X)),
        0xF6 => entry(Mnemonic::Inc, AddressMode::DirectPage(OffsetType::X)),
        0xF7 => entry(Mnemonic::Sbc, AddressMode::DpIndirectLong(OffsetType::Y)),
        0xF8 => entry(Mnemonic::Sed, AddressMode::NoMemory(NoMemType::Implied)),
        0xF9 => entry(Mnemonic::Sbc, AddressMode::Absolute(OffsetType::Y)),
        0xFA => entry(Mnemonic::Plx, AddressMode::Stack),
        0xFD => entry(Mnemonic::Sbc, AddressMode::Absolute(OffsetType::X)),
        0xFE => entry(Mnemonic::Inc, AddressMode::Absolute(OffsetType::X)),
        0xFF => entry(Mnemonic::Sbc, AddressMode::AbsoluteLong(OffsetType::X)),
        _ => undefined(),
    }
}

impl OpcodeTable {
    /// Whether the table belongs to an 8-bit part.
    pub open spec fn is_8bit(self) -> bool {
        self != OpcodeTable::Wdc816
    }

    /// Decode `op`. Opcodes the part does not define decode as [`Mnemonic::Undefined`].
    pub fn decode(self, op: u8) -> (r: Instruction)
        ensures
            r == spec_decode(self, op),
    {
        match self {
            OpcodeTable::Nmos => decode_nmos(op),
            OpcodeTable::Cmos => decode_cmos(op),
            OpcodeTable::Wdc816 => decode_wdc816(op),
            OpcodeTable::Synertek => {
                if op % 16 == 7 || op % 16 == 15 || op == 0xCB || op == 0xDB {
                    undefined()
                } else {
                    decode_cmos(op)
                }
            },
            OpcodeTable::Rockwell => {
                if op == 0xCB || op == 0xDB {
                    undefined()
                } else {
                    decode_cmos(op)
                }
            },
        }
    }
}

impl Instruction {
    /// Decode `op` with `table`.
    pub fn from_byte(op: u8, table: OpcodeTable) -> (r: Instruction)
        ensures
            r == spec_decode(table, op),
    {
        table.decode(op)
    }
}

/// The assembler name of a mnemonic (`Und` for an undefined opcode).
pub open spec fn spec_mnemonic_name(m: Mnemonic) -> Seq<char> {
    match m {
        Mnemonic::Undefined => "Und"@,
        Mnemonic::Lda => "Lda"@,
        Mnemonic::Ldx => "Ldx"@,
        Mnemonic::Ldy => "Ldy"@,
        Mnemonic::Sta => "Sta"@,
        Mnemonic::Stx => "Stx"@,
        Mnemonic::Sty => "Sty"@,
        Mnemonic::Tax => "Tax"@,
        Mnemonic::Tay => "Tay"@,
        Mnemonic::Txa => "Txa"@,
        Mnemonic::Tya => "Tya"@,
        Mnemonic::Tsx => "Tsx"@,
        Mnemonic::Txs => "Txs"@,
        Mnemonic::Pha => "Pha"@,
        Mnemonic::Php => "Php"@,
        Mnemonic::Pla => "Pla"@,
        Mnemonic::Plp => "Plp"@,
        Mnemonic::And => "And"@,
        Mnemonic::Eor => "Eor"@,
        Mnemonic::Ora => "Ora"@,
        Mnemonic::Bit => "Bit"@,
        Mnemonic::Adc => "Adc"@,
        Mnemonic::Sbc => "Sbc"@,
        Mnemonic::Cmp => "Cmp"@,
        Mnemonic::Cpx => "Cpx"@,
        Mnemonic::Cpy => "Cpy"@,
        Mnemonic::Inc => "Inc"@,
        Mnemonic::Inx => "Inx"@,
        Mnemonic::Iny => "Iny"@,
        Mnemonic::Dec => "Dec"@,
        Mnemonic::Dex => "Dex"@,
        Mnemonic::Dey => "Dey"@,
        Mnemonic::Asl => "Asl"@,
        Mnemonic::Lsr => "Lsr"@,
        Mnemonic::Rol => "Rol"@,
        Mnemonic::Ror => "Ror"@,
        Mnemonic::Jmp => "Jmp"@,
        Mnemonic::Jsr => "Jsr"@,
        Mnemonic::Rts => "Rts"@,
        Mnemonic::Bcc => "Bcc"@,
        Mnemonic::Bcs => "Bcs"@,
        Mnemonic::Beq => "Beq"@,
        Mnemonic::Bmi => "Bmi"@,
        Mnemonic::Bne => "Bne"@,
        Mnemonic::Bpl => "Bpl"@,
        Mnemonic::Bvc => "Bvc"@,
        Mnemonic::Bvs => "Bvs"@,
        Mnemonic::Clc => "Clc"@,
        Mnemonic::Cld => "Cld"@,
        Mnemonic::Cli => "Cli"@,
        Mnemonic::Clv => "Clv"@,
        Mnemonic::Sec => "Sec"@,
        Mnemonic::Sed => "Sed"@,
        Mnemonic::Sei => "Sei"@,
        Mnemonic::Brk => "Brk"@,
        Mnemonic::Rti => "Rti"@,
        Mnemonic::Nop => "Nop"@,
        Mnemonic::Alr => "Alr"@,
        Mnemonic::Anc => "Anc"@,
        Mnemonic::Ane => "Ane"@,
        Mnemonic::Arr => "Arr"@,
        Mnemonic::Dcp => "Dcp"@,
        Mnemonic::Isc => "Isc"@,
        Mnemonic::Las => "Las"@,
        Mnemonic::Lax => "Lax"@,
        Mnemonic::Lxa => "Lxa"@,
        Mnemonic::Rla => "Rla"@,
        Mnemonic::Rra => "Rra"@,
        Mnemonic::Sax => "Sax"@,
        Mnemonic::Sbx => "Sbx"@,
        Mnemonic::Sha => "Sha"@,
        Mnemonic::Shx => "Shx"@,
        Mnemonic::Shy => "Shy"@,
        Mnemonic::Slo => "Slo"@,
        Mnemonic::Sre => "Sre"@,
        Mnemonic::Tas => "Tas"@,
        Mnemonic::Usbc => "Usbc"@,
        Mnemonic::Jam => "Jam"@,
        Mnemonic::Bra => "Bra"@,
        Mnemonic::Phx => "Phx"@,
        Mnemonic::Phy => "Phy"@,
        Mnemonic::Plx => "Plx"@,
        Mnemonic::Ply => "Ply"@,
        Mnemonic::Stz => "Stz"@,
        Mnemonic::Trb => "Trb"@,
        Mnemonic::Tsb => "Tsb"@,
        Mnemonic::Stp => "Stp"@,
        Mnemonic::Wai => "Wai"@,
        Mnemonic::Bbr0 => "Bbr0"@,
        Mnemonic::Bbr1 => "Bbr1"@,
        Mnemonic::Bbr2 => "Bbr2"@,
        Mnemonic::Bbr3 => "Bbr3"@,
        Mnemonic::Bbr4 => "Bbr4"@,
        Mnemonic::Bbr5 => "Bbr5"@,
        Mnemonic::Bbr6 => "Bbr6"@,
        Mnemonic::Bbr7 => "Bbr7"@,
        Mnemonic::Bbs0 => "Bbs0"@,
        Mnemonic::Bbs1 => "Bbs1"@,
        Mnemonic::Bbs2 => "Bbs2"@,
        Mnemonic::Bbs3 => "Bbs3"@,
        Mnemonic::Bbs4 => "Bbs4"@,
        Mnemonic::Bbs5 => "Bbs5"@,
        Mnemonic::Bbs6 => "Bbs6"@,
        Mnemonic::Bbs7 => "Bbs7"@,
        Mnemonic::Rmb0 => "Rmb0"@,
        Mnemonic::Rmb1 => "Rmb1"@,
        Mnemonic::Rmb2 => "Rmb2"@,
        Mnemonic::Rmb3 => "Rmb3"@,
        Mnemonic::Rmb4 => "Rmb4"@,
        Mnemonic::Rmb5 => "Rmb5"@,
        Mnemonic::Rmb6 => "Rmb6"@,
        Mnemonic::Rmb7 => "Rmb7"@,
        Mnemonic::Smb0 => "Smb0"@,
        Mnemonic::Smb1 => "Smb1"@,
        Mnemonic::Smb2 => "Smb2"@,
        Mnemonic::Smb3 => "Smb3"@,
        Mnemonic::Smb4 => "Smb4"@,
        Mnemonic::Smb5 => "Smb5"@,
        Mnemonic::Smb6 => "Smb6"@,
        Mnemonic::Smb7 => "Smb7"@,
    }
}

impl Mnemonic {
    /// The assembler name of the mnemonic (`Und` for an undefined opcode).
    pub fn name(&self) -> (r: &'static str)
        ensures
            r@ == spec_mnemonic_name(*self),
    {
        match *self {
            Mnemonic::Undefined => "Und",
            Mnemonic::Lda => "Lda",
            Mnemonic::Ldx => "Ldx",
            Mnemonic::Ldy => "Ldy",
            Mnemonic::Sta => "Sta",
            Mnemonic::Stx => "Stx",
            Mnemonic::Sty => "Sty",
            Mnemonic::Tax => "Tax",
            Mnemonic::Tay => "Tay",
            Mnemonic::Txa => "Txa",
            Mnemonic::Tya => "Tya",
            Mnemonic::Tsx => "Tsx",
            Mnemonic::Txs => "Txs",
            Mnemonic::Pha => "Pha",
            Mnemonic::Php => "Php",
            Mnemonic::Pla => "Pla",
            Mnemonic::Plp => "Plp",
            Mnemonic::And => "And",
            Mnemonic::Eor => "Eor",
            Mnemonic::Ora => "Ora",
            Mnemonic::Bit => "Bit",
            Mnemonic::Adc => "Adc",
            Mnemonic::Sbc => "Sbc",
            Mnemonic::Cmp => "Cmp",
            Mnemonic::Cpx => "Cpx",
            Mnemonic::Cpy => "Cpy",
            Mnemonic::Inc => "Inc",
            Mnemonic::Inx => "Inx",
            Mnemonic::Iny => "Iny",
            Mnemonic::Dec => "Dec",
            Mnemonic::Dex => "Dex",
            Mnemonic::Dey => "Dey",
            Mnemonic::Asl => "Asl",
            Mnemonic::Lsr => "Lsr",
            Mnemonic::Rol => "Rol",
            Mnemonic::Ror => "Ror",
            Mnemonic::Jmp => "Jmp",
            Mnemonic::Jsr => "Jsr",
            Mnemonic::Rts => "Rts",
            Mnemonic::Bcc => "Bcc",
            Mnemonic::Bcs => "Bcs",
            Mnemonic::Beq => "Beq",
            Mnemonic::Bmi => "Bmi",
            Mnemonic::Bne => "Bne",
            Mnemonic::Bpl => "Bpl",
            Mnemonic::Bvc => "Bvc",
            Mnemonic::Bvs => "Bvs",
            Mnemonic::Clc => "Clc",
            Mnemonic::Cld => "Cld",
            Mnemonic::Cli => "Cli",
            Mnemonic::Clv => "Clv",
            Mnemonic::Sec => "Sec",
            Mnemonic::Sed => "Sed",
            Mnemonic::Sei => "Sei",
            Mnemonic::Brk => "Brk",
            Mnemonic::Rti => "Rti",
            Mnemonic::Nop => "Nop",
            Mnemonic::Alr => "Alr",
            Mnemonic::Anc => "Anc",
            Mnemonic::Ane => "Ane",
            Mnemonic::Arr => "Arr",
            Mnemonic::Dcp => "Dcp",
            Mnemonic::Isc => "Isc",
            Mnemonic::Las => "Las",
            Mnemonic::Lax => "Lax",
            Mnemonic::Lxa => "Lxa",
            Mnemonic::Rla => "Rla",
            Mnemonic::Rra => "Rra",
            Mnemonic::Sax => "Sax",
            Mnemonic::Sbx => "Sbx",
            Mnemonic::Sha => "Sha",
            Mnemonic::Shx => "Shx",
            Mnemonic::Shy => "Shy",
            Mnemonic::Slo => "Slo",
            Mnemonic::Sre => "Sre",
            Mnemonic::Tas => "Tas",
            Mnemonic::Usbc => "Usbc",
            Mnemonic::Jam => "Jam",
            Mnemonic::Bra => "Bra",
            Mnemonic::Phx => "Phx",
            Mnemonic::Phy => "Phy",
            Mnemonic::Plx => "Plx",
            Mnemonic::Ply => "Ply",
            Mnemonic::Stz => "Stz",
            Mnemonic::Trb => "Trb",
            Mnemonic::Tsb => "Tsb",
            Mnemonic::Stp => "Stp",
            Mnemonic::Wai => "Wai",
            Mnemonic::Bbr0 => "Bbr0",
            Mnemonic::Bbr1 => "Bbr1",
            Mnemonic::Bbr2 => "Bbr2",
            Mnemonic::Bbr3 => "Bbr3",
            Mnemonic::Bbr4 => "Bbr4",
            Mnemonic::Bbr5 => "Bbr5",
            Mnemonic::Bbr6 => "Bbr6",
            Mnemonic::Bbr7 => "Bbr7",
            Mnemonic::Bbs0 => "Bbs0",
            Mnemonic::Bbs1 => "Bbs1",
            Mnemonic::Bbs2 => "Bbs2",
            Mnemonic::Bbs3 => "Bbs3",
            Mnemonic::Bbs4 => "Bbs4",
            Mnemonic::Bbs5 => "Bbs5",
            Mnemonic::Bbs6 => "Bbs6",
            Mnemonic::Bbs7 => "Bbs7",
            Mnemonic::Rmb0 => "Rmb0",
            Mnemonic::Rmb1 => "Rmb1",
            Mnemonic::Rmb2 => "Rmb2",
            Mnemonic::Rmb3 => "Rmb3",
            Mnemonic::Rmb4 => "Rmb4",
            Mnemonic::Rmb5 => "Rmb5",
            Mnemonic::Rmb6 => "Rmb6",
            Mnemonic::Rmb7 => "Rmb7",
            Mnemonic::Smb0 => "Smb0",
            Mnemonic::Smb1 => "Smb1",
            Mnemonic::Smb2 => "Smb2",
            Mnemonic::Smb3 => "Smb3",
            Mnemonic::Smb4 => "Smb4",
            Mnemonic::Smb5 => "Smb5",
            Mnemonic::Smb6 => "Smb6",
            Mnemonic::Smb7 => "Smb7",
        }
    }
}

/// The decoder's promise to the core: the instruction has microcode on an 8-bit part (no
/// 16-bit mode, no undocumented CMOS NOP timing), a stack access only pushes or pulls, and
/// the memory action is the mnemonic's.
pub open spec fn decodable(i: Instruction) -> bool {
    &&& i.address_mode.is_8bit()
    &&& !(i.address_mode is CmosNop)
    &&& (i.address_mode == AddressMode::Stack ==> i.memory_action != MemoryAction::ReadModifyWrite)
    &&& i.memory_action == spec_action(i.mnemonic)
}

proof fn lemma_nmos_decodable(op: u8)
    ensures
        decodable(nmos_entry(op)),
{
    reveal(nmos_entry);
    if op < 0x40 {
    } else if op < 0x80 {
    } else if op < 0xC0 {
    } else {
    }
}

proof fn lemma_cmos_decodable(op: u8)
    ensures
        decodable(cmos_entry(op)),
{
    reveal(cmos_entry);
    if op < 0x10 {
    } else if op < 0x20 {
    } else if op < 0x30 {
    } else if op < 0x40 {
    } else if op < 0x50 {
    } else if op < 0x60 {
    } else if op < 0x70 {
    } else if op < 0x80 {
    } else if op < 0x90 {
    } else if op < 0xA0 {
    } else if op < 0xB0 {
    } else if op < 0xC0 {
    } else if op < 0xD0 {
    } else if op < 0xE0 {
    } else if op < 0xF0 {
    } else {
    }
}

proof fn lemma_cmos_no_jam(op: u8)
    ensures
        cmos_entry(op).mnemonic != Mnemonic::Jam,
        cmos_entry(op).address_mode != AddressMode::Jam,
{
    reveal(cmos_entry);
    if op < 0x10 {
    } else if op < 0x20 {
    } else if op < 0x30 {
    } else if op < 0x40 {
    } else if op < 0x50 {
    } else if op < 0x60 {
    } else if op < 0x70 {
    } else if op < 0x80 {
    } else if op < 0x90 {
    } else if op < 0xA0 {
    } else if op < 0xB0 {
    } else if op < 0xC0 {
    } else if op < 0xD0 {
    } else if op < 0xE0 {
    } else if op < 0xF0 {
    } else {
    }
}

proof fn lemma_wdc816_no_jam(op: u8)
    ensures
        wdc816_entry(op).mnemonic != Mnemonic::Jam,
        wdc816_entry(op).address_mode != AddressMode::Jam,
{
    reveal(wdc816_entry);
    if op < 0x40 {
    } else if op < 0x80 {
    } else if op < 0xC0 {
    } else {
    }
}

/// Every opcode of an 8-bit part decodes to an instruction the core can run.
pub proof fn lemma_8bit_tables_decodable(table: OpcodeTable, op: u8)
    requires
        table.is_8bit(),
    ensures
        decodable(spec_decode(table, op)),
{
    lemma_nmos_decodable(op);
    lemma_cmos_decodable(op);
}

/// The NMOS map defines all 256 opcodes.
pub proof fn lemma_nmos_map_complete(op: u8)
    ensures
        nmos_entry(op).mnemonic != Mnemonic::Undefined,
{
    reveal(nmos_entry);
}

/// Only the NMOS map has JAM opcodes: a CMOS part never locks up on an opcode.
pub proof fn lemma_jam_only_on_nmos(table: OpcodeTable, op: u8)
    requires
        table != OpcodeTable::Nmos,
    ensures
        spec_decode(table, op).mnemonic != Mnemonic::Jam,
        spec_decode(table, op).address_mode != AddressMode::Jam,
{
    lemma_cmos_no_jam(op);
    lemma_wdc816_no_jam(op);
}

/// The instructions the 65C02 added to the NMOS set.
pub open spec fn is_65c02_addition(m: Mnemonic) -> bool {
    m == Mnemonic::Bra || m == Mnemonic::Phx || m == Mnemonic::Phy || m == Mnemonic::Plx
        || m == Mnemonic::Ply || m == Mnemonic::Stz || m == Mnemonic::Trb || m == Mnemonic::Tsb
        || m == Mnemonic::Stp || m == Mnemonic::Wai
}

/// The Rockwell bit operations: RMBn, SMBn, BBRn, BBSn.
pub open spec fn is_rockwell_bit_instruction(m: Mnemonic) -> bool {
    m == Mnemonic::Rmb0 || m == Mnemonic::Rmb1 || m == Mnemonic::Rmb2 || m == Mnemonic::Rmb3
        || m == Mnemonic::Rmb4 || m == Mnemonic::Rmb5 || m == Mnemonic::Rmb6 || m == Mnemonic::Rmb7
        || m == Mnemonic::Smb0 || m == Mnemonic::Smb1 || m == Mnemonic::Smb2 || m == Mnemonic::Smb3
        || m == Mnemonic::Smb4 || m == Mnemonic::Smb5 || m == Mnemonic::Smb6 || m == Mnemonic::Smb7
        || m == Mnemonic::Bbr0 || m == Mnemonic::Bbr1 || m == Mnemonic::Bbr2 || m == Mnemonic::Bbr3
        || m == Mnemonic::Bbr4 || m == Mnemonic::Bbr5 || m == Mnemonic::Bbr6 || m == Mnemonic::Bbr7
        || m == Mnemonic::Bbs0 || m == Mnemonic::Bbs1 || m == Mnemonic::Bbs2 || m == Mnemonic::Bbs3
        || m == Mnemonic::Bbs4 || m == Mnemonic::Bbs5 || m == Mnemonic::Bbs6 || m == Mnemonic::Bbs7
}

/// The instructions the 65C02 added (BRA, PHX, PHY, PLX, PLY, STZ, TRB, TSB, STP, WAI) are
/// not in the NMOS map: an NMOS part decodes none of them.
pub proof fn lemma_65c02_additions_not_on_nmos(op: u8)
    ensures
        !is_65c02_addition(spec_decode(OpcodeTable::Nmos, op).mnemonic),
{
    reveal(nmos_entry);
    if op < 0x40 {
    } else if op < 0x80 {
    } else if op < 0xC0 {
    } else {
    }
}

proof fn lemma_nmos_no_bit_instructions(op: u8)
    ensures
        !is_rockwell_bit_instruction(nmos_entry(op).mnemonic),
{
    reveal(nmos_entry);
    if op < 0x40 {
    } else if op < 0x80 {
    } else if op < 0xC0 {
    } else {
    }
}

proof fn lemma_wdc816_no_bit_instructions(op: u8)
    ensures
        !is_rockwell_bit_instruction(wdc816_entry(op).mnemonic),
{
    reveal(wdc816_entry);
    if op < 0x40 {
    } else if op < 0x80 {
    } else if op < 0xC0 {
    } else {
    }
}

proof fn lemma_cmos_bit_instructions_at_bit_opcodes(op: u8)
    ensures
        is_rockwell_bit_instruction(cmos_entry(op).mnemonic) ==> is_bit_op(op),
{
    reveal(cmos_entry);
    if op < 0x10 {
    } else if op < 0x20 {
    } else if op < 0x30 {
    } else if op < 0x40 {
    } else if op < 0x50 {
    } else if op < 0x60 {
    } else if op < 0x70 {
    } else if op < 0x80 {
    } else if op < 0x90 {
    } else if op < 0xA0 {
    } else if op < 0xB0 {
    } else if op < 0xC0 {
    } else if op < 0xD0 {
    } else if op < 0xE0 {
    } else if op < 0xF0 {
    } else {
    }
}

/// The Rockwell bit operations are only in the Rockwell and WDC 65C02 maps: the NMOS,
/// Synertek and 65C816 maps decode none of them.
pub proof fn lemma_bit_instructions_only_on_rockwell_maps(table: OpcodeTable, op: u8)
    requires
        table == OpcodeTable::Nmos || table == OpcodeTable::Synertek || table
            == OpcodeTable::Wdc816,
    ensures
        !is_rockwell_bit_instruction(spec_decode(table, op).mnemonic),
{
    lemma_nmos_no_bit_instructions(op);
    lemma_wdc816_no_bit_instructions(op);
    lemma_cmos_bit_instructions_at_bit_opcodes(op);
}

/// The operation of column group `cc = 01` of the 6502 matrix, by row `aaa`.
pub open spec fn matrix_alu_op(aaa: u8) -> Mnemonic {
    if aaa == 0 {
        Mnemonic::Ora
    } else if aaa == 1 {
        Mnemonic::And
    } else if aaa == 2 {
        Mnemonic::Eor
    } else if aaa == 3 {
        Mnemonic::Adc
    } else if aaa == 4 {
        Mnemonic::Sta
    } else if aaa == 5 {
        Mnemonic::Lda
    } else if aaa == 6 {
        Mnemonic::Cmp
    } else {
        Mnemonic::Sbc
    }
}

/// The addressing mode of column group `cc = 01` of the 6502 matrix, by column `bbb`:
/// (zp,X), zp, #imm, abs, (zp),Y, zp,X, abs,Y, abs,X.
pub open spec fn matrix_alu_mode(bbb: u8) -> AddressMode {
    if bbb == 0 {
        AddressMode::DpIndirect(OffsetType::X)
    } else if bbb == 1 {
        AddressMode::DirectPage(OffsetType::NoOffset)
    } else if bbb == 2 {
        AddressMode::NoMemory(NoMemType::Immediate)
    } else if bbb == 3 {
        AddressMode::Absolute(OffsetType::NoOffset)
    } else if bbb == 4 {
        AddressMode::DpIndirect(OffsetType::Y)
    } else if bbb == 5 {
        AddressMode::DirectPage(OffsetType::X)
    } else if bbb == 6 {
        AddressMode::Absolute(OffsetType::Y)
    } else {
        AddressMode::Absolute(OffsetType::X)
    }
}

/// The operation of column group `cc = 10` (shifts, increments, X loads and stores), by row.
pub open spec fn matrix_rmw_op(aaa: u8) -> Mnemonic {
    if aaa == 0 {
        Mnemonic::Asl
    } else if aaa == 1 {
        Mnemonic::Rol
    } else if aaa == 2 {
        Mnemonic::Lsr
    } else if aaa == 3 {
        Mnemonic::Ror
    } else if aaa == 4 {
        Mnemonic::Stx
    } else if aaa == 5 {
        Mnemonic::Ldx
    } else if aaa == 6 {
        Mnemonic::Dec
    } else {
        Mnemonic::Inc
    }
}

/// The undocumented combined operations of column group `cc = 11`, by row.
pub open spec fn matrix_combined_op(aaa: u8) -> Mnemonic {
    if aaa == 0 {
        Mnemonic::Slo
    } else if aaa == 1 {
        Mnemonic::Rla
    } else if aaa == 2 {
        Mnemonic::Sre
    } else if aaa == 3 {
        Mnemonic::Rra
    } else if aaa == 4 {
        Mnemonic::Sax
    } else if aaa == 5 {
        Mnemonic::Lax
    } else if aaa == 6 {
        Mnemonic::Dcp
    } else {
        Mnemonic::Isc
    }
}

/// Implied and immediate modes, shortened.
pub open spec fn implied() -> AddressMode {
    AddressMode::NoMemory(NoMemType::Implied)
}

/// The immediate mode.
pub open spec fn immediate() -> AddressMode {
    AddressMode::NoMemory(NoMemType::Immediate)
}

/// Group `cc = 00` of the NMOS matrix: control flow, flags, Y and X compares, and the
/// undocumented NOPs and index stores.
pub open spec fn matrix_nmos_00(aaa: u8, bbb: u8) -> (Mnemonic, AddressMode) {
    if bbb == 0 {
        if aaa == 0 {
            (Mnemonic::Brk, AddressMode::Jump(JumpType::ToInterrupt))
        } else if aaa == 1 {
            (Mnemonic::Jsr, AddressMode::Jump(JumpType::ToSubroutine))
        } else if aaa == 2 {
            (Mnemonic::Rti, AddressMode::Jump(JumpType::FromInterrupt))
        } else if aaa == 3 {
            (Mnemonic::Rts, AddressMode::Jump(JumpType::FromSubroutine))
        } else if aaa == 4 {
            (Mnemonic::Nop, immediate())
        } else if aaa == 5 {
            (Mnemonic::Ldy, immediate())
        } else if aaa == 6 {
            (Mnemonic::Cpy, immediate())
        } else {
            (Mnemonic::Cpx, immediate())
        }
    } else if bbb == 2 {
        if aaa == 0 {
            (Mnemonic::Php, AddressMode::Stack)
        } else if aaa == 1 {
            (Mnemonic::Plp, AddressMode::Stack)
        } else if aaa == 2 {
            (Mnemonic::Pha, AddressMode::Stack)
        } else if aaa == 3 {
            (Mnemonic::Pla, AddressMode::Stack)
        } else if aaa == 4 {
            (Mnemonic::Dey, implied())
        } else if aaa == 5 {
            (Mnemonic::Tay, implied())
        } else if aaa == 6 {
            (Mnemonic::Iny, implied())
        } else {
            (Mnemonic::Inx, implied())
        }
    } else if bbb == 4 {
        (
            if aaa == 0 {
                Mnemonic::Bpl
            } else if aaa == 1 {
                Mnemonic::Bmi
            } else if aaa == 2 {
                Mnemonic::Bvc
            } else if aaa == 3 {
                Mnemonic::Bvs
            } else if aaa == 4 {
                Mnemonic::Bcc
            } else if aaa == 5 {
                Mnemonic::Bcs
            } else if aaa == 6 {
                Mnemonic::Bne
            } else {
                Mnemonic::Beq
            },
            AddressMode::Branch(BranchType::Relative),
        )
    } else if bbb == 6 {
        (
            if aaa == 0 {
                Mnemonic::Clc
            } else if aaa == 1 {
                Mnemonic::Sec
            } else if aaa == 2 {
                Mnemonic::Cli
            } else if aaa == 3 {
                Mnemonic::Sei
            } else if aaa == 4 {
                Mnemonic::Tya
            } else if aaa == 5 {
                Mnemonic::Clv
            } else if aaa == 6 {
                Mnemonic::Cld
            } else {
                Mnemonic::Sed
            },
            implied(),
        )
    } else if bbb == 3 && aaa == 2 {
        (Mnemonic::Jmp, AddressMode::Jump(JumpType::JmpAbsolute))
    } else if bbb == 3 && aaa == 3 {
        (Mnemonic::Jmp, AddressMode::Jump(JumpType::JmpIndirect))
    } else if bbb == 7 && aaa == 4 {
        (Mnemonic::Shy, AddressMode::Absolute(OffsetType::X))
    } else {
        // zp, abs, zp,X and abs,X: BIT, STY, LDY, CPY, CPX where they exist, NOP elsewhere
        let m = if aaa == 1 && (bbb == 1 || bbb == 3) {
            Mnemonic::Bit
        } else if aaa == 4 && bbb != 7 {
            Mnemonic::Sty
        } else if aaa == 5 {
            Mnemonic::Ldy
        } else if aaa == 6 && bbb <= 3 {
            Mnemonic::Cpy
        } else if aaa == 7 && bbb <= 3 {
            Mnemonic::Cpx
        } else {
            Mnemonic::Nop
        };
        (m, matrix_alu_mode(bbb))
    }
}

/// Group `cc = 10` of the NMOS matrix.
pub open spec fn matrix_nmos_10(aaa: u8, bbb: u8) -> (Mnemonic, AddressMode) {
    if bbb == 0 {
        if aaa < 4 {
            (Mnemonic::Jam, AddressMode::Jam)
        } else if aaa == 5 {
            (Mnemonic::Ldx, immediate())
        } else {
            (Mnemonic::Nop, immediate())
        }
    } else if bbb == 2 {
        if aaa < 4 {
            (matrix_rmw_op(aaa), implied())
        } else if aaa == 4 {
            (Mnemonic::Txa, implied())
        } else if aaa == 5 {
            (Mnemonic::Tax, implied())
        } else if aaa == 6 {
            (Mnemonic::Dex, implied())
        } else {
            (Mnemonic::Nop, implied())
        }
    } else if bbb == 4 {
        (Mnemonic::Jam, AddressMode::Jam)
    } else if bbb == 6 {
        if aaa == 4 {
            (Mnemonic::Txs, implied())
        } else if aaa == 5 {
            (Mnemonic::Tsx, implied())
        } else {
            (Mnemonic::Nop, implied())
        }
    } else if bbb == 5 && (aaa == 4 || aaa == 5) {
        (matrix_rmw_op(aaa), AddressMode::DirectPage(OffsetType::Y))
    } else if bbb == 7 && aaa == 4 {
        (Mnemonic::Shx, AddressMode::Absolute(OffsetType::Y))
    } else if bbb == 7 && aaa == 5 {
        (Mnemonic::Ldx, AddressMode::Absolute(OffsetType::Y))
    } else {
        // zp, abs, zp,X, abs,X
        (matrix_rmw_op(aaa), matrix_alu_mode(bbb))
    }
}

/// Group `cc = 11` of the NMOS matrix: the undocumented combined operations.
pub open spec fn matrix_nmos_11(aaa: u8, bbb: u8) -> (Mnemonic, AddressMode) {
    if bbb == 2 {
        (
            if aaa <= 1 {
                Mnemonic::Anc
            } else if aaa == 2 {
                Mnemonic::Alr
            } else if aaa == 3 {
                Mnemonic::Arr
            } else if aaa == 4 {
                Mnemonic::Ane
            } else if aaa == 5 {
                Mnemonic::Lxa
            } else if aaa == 6 {
                Mnemonic::Sbx
            } else {
                Mnemonic::Usbc
            },
            immediate(),
        )
    } else if aaa == 4 && bbb == 4 {
        (Mnemonic::Sha, AddressMode::DpIndirect(OffsetType::Y))
    } else if aaa == 4 && bbb == 6 {
        (Mnemonic::Tas, AddressMode::Absolute(OffsetType::Y))
    } else if aaa == 4 && bbb == 7 {
        (Mnemonic::Sha, AddressMode::Absolute(OffsetType::Y))
    } else if aaa == 5 && bbb == 6 {
        (Mnemonic::Las, AddressMode::Absolute(OffsetType::Y))
    } else if aaa == 5 && bbb == 7 {
        (Mnemonic::Lax, AddressMode::Absolute(OffsetType::Y))
    } else if (aaa == 4 || aaa == 5) && bbb == 5 {
        (matrix_combined_op(aaa), AddressMode::DirectPage(OffsetType::Y))
    } else {
        (matrix_combined_op(aaa), matrix_alu_mode(bbb))
    }
}

/// The NMOS 6502 opcode matrix, read from the opcode's bit fields `aaabbbcc`: the row `aaa`
/// gives the operation, the column `bbb` the addressing mode, each group `cc` having its own
/// table, with the irregular cells of the chip (the branches, flag and stack instructions,
/// JAMs and undocumented NOPs) written out.
pub open spec fn nmos_matrix(op: u8) -> (Mnemonic, AddressMode) {
    let aaa = op / 32;
    let bbb = (op / 4) % 8;
    let cc = op % 4;
    if cc == 0 {
        matrix_nmos_00(aaa, bbb)
    } else if cc == 1 {
        if op == 0x89 {
            (Mnemonic::Nop, immediate())
        } else {
            (matrix_alu_op(aaa), matrix_alu_mode(bbb))
        }
    } else if cc == 2 {
        matrix_nmos_10(aaa, bbb)
    } else {
        matrix_nmos_11(aaa, bbb)
    }
}

/// Every opcode of the NMOS map decodes to the operation and addressing mode of the 6502's
/// opcode matrix: for example `$39` (`aaa = 1`, `bbb = 6`, `cc = 01`) is AND abs,Y, and
/// `$B5` is LDA zp,X.
pub proof fn lemma_nmos_map_is_the_6502_matrix(op: u8)
    ensures
        spec_decode(OpcodeTable::Nmos, op).mnemonic == nmos_matrix(op).0,
        spec_decode(OpcodeTable::Nmos, op).address_mode == nmos_matrix(op).1,
{
    reveal(nmos_entry);
    if op < 0x20 {
    } else if op < 0x40 {
    } else if op < 0x60 {
    } else if op < 0x80 {
    } else if op < 0xA0 {
    } else if op < 0xC0 {
    } else if op < 0xE0 {
    } else {
    }
}

/// Whether an operation of the NMOS matrix is one of the documented instructions of the
/// 6502 (NOP only at `$EA`), which every 65C02 keeps.
pub open spec fn documented_on_nmos(op: u8) -> bool {
    let m = nmos_matrix(op).0;
    if m == Mnemonic::Nop {
        op == 0xEA
    } else {
        !(m == Mnemonic::Jam || m == Mnemonic::Slo || m == Mnemonic::Rla || m == Mnemonic::Sre
            || m == Mnemonic::Rra || m == Mnemonic::Sax || m == Mnemonic::Lax || m == Mnemonic::Dcp
            || m == Mnemonic::Isc || m == Mnemonic::Anc || m == Mnemonic::Alr || m == Mnemonic::Arr
            || m == Mnemonic::Ane || m == Mnemonic::Lxa || m == Mnemonic::Sbx || m == Mnemonic::Usbc
            || m == Mnemonic::Sha || m == Mnemonic::Tas || m == Mnemonic::Las || m == Mnemonic::Shx
            || m == Mnemonic::Shy)
    }
}

/// RMBn (`k` below eight) and SMBn (`k - 8`), by the high nibble `k` of the opcode.
pub open spec fn matrix_bit_op(k: u8) -> Mnemonic {
    if k == 0 { Mnemonic::Rmb0 } else if k == 1 { Mnemonic::Rmb1 } else if k == 2 { Mnemonic::Rmb2 }
    else if k == 3 { Mnemonic::Rmb3 } else if k == 4 { Mnemonic::Rmb4 } else if k == 5 { Mnemonic::Rmb5 }
    else if k == 6 { Mnemonic::Rmb6 } else if k == 7 { Mnemonic::Rmb7 } else if k == 8 { Mnemonic::Smb0 }
    else if k == 9 { Mnemonic::Smb1 } else if k == 10 { Mnemonic::Smb2 } else if k == 11 { Mnemonic::Smb3 }
    else if k == 12 { Mnemonic::Smb4 } else if k == 13 { Mnemonic::Smb5 } else if k == 14 { Mnemonic::Smb6 }
    else { Mnemonic::Smb7 }
}

/// BBRn (`k` below eight) and BBSn (`k - 8`), by the high nibble `k` of the opcode.
pub open spec fn matrix_bit_branch(k: u8) -> Mnemonic {
    if k == 0 { Mnemonic::Bbr0 } else if k == 1 { Mnemonic::Bbr1 } else if k == 2 { Mnemonic::Bbr2 }
    else if k == 3 { Mnemonic::Bbr3 } else if k == 4 { Mnemonic::Bbr4 } else if k == 5 { Mnemonic::Bbr5 }
    else if k == 6 { Mnemonic::Bbr6 } else if k == 7 { Mnemonic::Bbr7 } else if k == 8 { Mnemonic::Bbs0 }
    else if k == 9 { Mnemonic::Bbs1 } else if k == 10 { Mnemonic::Bbs2 } else if k == 11 { Mnemonic::Bbs3 }
    else if k == 12 { Mnemonic::Bbs4 } else if k == 13 { Mnemonic::Bbs5 } else if k == 14 { Mnemonic::Bbs6 }
    else { Mnemonic::Bbs7 }
}

/// The instructions the WDC 65C02 adds to the 6502's: the `(zp)` column of the ALU
/// operations, the Rockwell bit operations in columns `$x7` and `$xF`, and the single new
/// cells (TSB, TRB, STZ, BRA, PHX/PHY/PLX/PLY, INC A, DEC A, the new BIT modes, JMP (abs,X),
/// WAI and STP). The map also keeps `$EB`, the duplicate SBC #imm of the NMOS part.
pub open spec fn cmos_addition(op: u8) -> Option<(Mnemonic, AddressMode)> {
    if op % 4 == 2 && (op / 4) % 8 == 4 {
        Some((matrix_alu_op(op / 32), AddressMode::DpIndirect(OffsetType::NoOffset)))
    } else if op % 16 == 7 {
        Some((matrix_bit_op(op / 16), AddressMode::DirectPage(OffsetType::NoOffset)))
    } else if op % 16 == 15 {
        Some((matrix_bit_branch(op / 16), AddressMode::Branch(BranchType::DpRelative)))
    } else if op == 0x04 {
        Some((Mnemonic::Tsb, AddressMode::DirectPage(OffsetType::NoOffset)))
    } else if op == 0x0C {
        Some((Mnemonic::Tsb, AddressMode::Absolute(OffsetType::NoOffset)))
    } else if op == 0x14 {
        Some((Mnemonic::Trb, AddressMode::DirectPage(OffsetType::NoOffset)))
    } else if op == 0x1C {
        Some((Mnemonic::Trb, AddressMode::Absolute(OffsetType::NoOffset)))
    } else if op == 0x1A {
        Some((Mnemonic::Inc, implied()))
    } else if op == 0x3A {
        Some((Mnemonic::Dec, implied()))
    } else if op == 0x34 {
        Some((Mnemonic::Bit, AddressMode::DirectPage(OffsetType::X)))
    } else if op == 0x3C {
        Some((Mnemonic::Bit, AddressMode::Absolute(OffsetType::X)))
    } else if op == 0x89 {
        Some((Mnemonic::Bit, immediate()))
    } else if op == 0x5A {
        Some((Mnemonic::Phy, AddressMode::Stack))
    } else if op == 0x7A {
        Some((Mnemonic::Ply, AddressMode::Stack))
    } else if op == 0xDA {
        Some((Mnemonic::Phx, AddressMode::Stack))
    } else if op == 0xFA {
        Some((Mnemonic::Plx, AddressMode::Stack))
    } else if op == 0x64 {
        Some((Mnemonic::Stz, AddressMode::DirectPage(OffsetType::NoOffset)))
    } else if op == 0x74 {
        Some((Mnemonic::Stz, AddressMode::DirectPage(OffsetType::X)))
    } else if op == 0x9C {
        Some((Mnemonic::Stz, AddressMode::Absolute(OffsetType::NoOffset)))
    } else if op == 0x9E {
        Some((Mnemonic::Stz, AddressMode::Absolute(OffsetType::X)))
    } else if op == 0x80 {
        Some((Mnemonic::Bra, AddressMode::Branch(BranchType::Relative)))
    } else if op == 0x7C {
        Some((Mnemonic::Jmp, AddressMode::Jump(JumpType::JmpIndirectX)))
    } else if op == 0xCB {
        Some((Mnemonic::Wai, implied()))
    } else if op == 0xDB {
        Some((Mnemonic::Stp, implied()))
    } else if op == 0xEB {
        // this map keeps the NMOS duplicate of SBC #imm
        Some((Mnemonic::Usbc, immediate()))
    } else {
        None
    }
}

/// The WDC 65C02 map is the 6502's documented instructions plus the 65C02's additions:
/// every documented NMOS opcode decodes as on the NMOS part, every added opcode to its new
/// instruction, and every other opcode is undefined.
#[verifier::spinoff_prover]
#[verifier::rlimit(60)]
pub proof fn lemma_cmos_map_is_6502_plus_additions(op: u8)
    ensures
        cmos_addition(op) matches Some(e) ==> spec_decode(OpcodeTable::Cmos, op).mnemonic == e.0
            && spec_decode(OpcodeTable::Cmos, op).address_mode == e.1,
        cmos_addition(op) is None && documented_on_nmos(op) ==> spec_decode(OpcodeTable::Cmos, op).mnemonic
            == nmos_matrix(op).0 && spec_decode(OpcodeTable::Cmos, op).address_mode == nmos_matrix(op).1,
        cmos_addition(op) is None && !documented_on_nmos(op) ==> spec_decode(OpcodeTable::Cmos, op)
            == undefined_entry(),
{
    reveal(cmos_entry);
    if op < 0x10 {
    } else if op < 0x20 {
    } else if op < 0x30 {
    } else if op < 0x40 {
    } else if op < 0x50 {
    } else if op < 0x60 {
    } else if op < 0x70 {
    } else if op < 0x80 {
    } else if op < 0x90 {
    } else if op < 0xA0 {
    } else if op < 0xB0 {
    } else if op < 0xC0 {
    } else if op < 0xD0 {
    } else if op < 0xE0 {
    } else if op < 0xF0 {
    } else {
    }
}

/// The 65816 map runs the 65C02's instructions unchanged: every opcode that the WDC 65C02
/// map decodes, but for the Rockwell bit operations (columns `$x7` and `$xF`, which the 65816
/// gives to long addressing), decodes on the 65816 map exactly as on the 65C02 map.
#[verifier::spinoff_prover]
#[verifier::rlimit(60)]
pub proof fn lemma_65816_map_extends_65c02(op: u8)
    requires
        documented_on_nmos(op) || cmos_addition(op) is Some,
        op % 16 != 7,
        op % 16 != 15,
    ensures
        spec_decode(OpcodeTable::Wdc816, op) == spec_decode(OpcodeTable::Cmos, op),
{
    reveal(cmos_entry);
    reveal(wdc816_entry);
    if op < 0x10 {
    } else if op < 0x20 {
    } else if op < 0x30 {
    } else if op < 0x40 {
    } else if op < 0x50 {
    } else if op < 0x60 {
    } else if op < 0x70 {
    } else if op < 0x80 {
    } else if op < 0x90 {
    } else if op < 0xA0 {
    } else if op < 0xB0 {
    } else if op < 0xC0 {
    } else if op < 0xD0 {
    } else if op < 0xE0 {
    } else if op < 0xF0 {
    } else {
    }
}

} // verus!
