//! Shared ISA metadata: memory actions, addressing modes and internal latches.
use vstd::prelude::*;

pub mod address_mode_subtypes;
pub mod microcycle;
pub mod op;
pub mod table;

pub use address_mode_subtypes::{BranchType, JumpType, NoMemType, OffsetType};

use crate::isa::microcycle::{
    absolute_cycles, branch_dprel_cycles, branch_rel_cycles, brk_cycles, cmos_nop_cycles,
    dp_cycles, dp_ind_cycles, immediate_cycles, implied_cycles, int_cycles, jam_cycles, jmpabs_cycles,
    ready_for_decode, rti_cycles, stack_cycles, valid_cycle, valid_cycles, DecodeContext, MicroCode,
    MicroCycle, UcycQueue, MAX_UCYC,
};

verus! {

#[derive(Debug, PartialEq, Eq, Clone, Copy, Structural)]
pub enum MemoryAction {
    /// Memory is read only, or nothing happens. Examples: LDA, NOP
    Read,
    /// Memory is only written (not read). Examples: STA
    Write,
    /// Memory is read, then some action is performed by the ALU, and then that memory is written.
    /// Examples: INC, ASL
    ReadModifyWrite,
}

impl Default for MemoryAction {
    /// Reading is the default action.
    fn default() -> (r: Self)
        ensures
            r == MemoryAction::Read,
    {
        MemoryAction::Read
    }
}

/// The kind of interrupt sequence being entered.
#[derive(Debug, PartialEq, Eq, Clone, Copy, Structural)]
pub enum InterruptType {
    /// The BRK instruction.
    Brk,
    /// A maskable interrupt request.
    Irq,
    /// A non-maskable interrupt.
    Nmi,
}

#[derive(Debug, PartialEq, Eq, Clone, Copy, Structural)]
pub enum AddressMode {
    // 6502 /////////////////////////////////////////////////////////////////////////////////////////////
    /// # No memory access
    /// The instruction has no operands. The subtypes of implied include:
    /// - Implied: no special behavior (eg. NOP; INX) - The only memory access that happens is a read of
    /// PC+1, which is thrown away and the PC is not incremented.
    /// - Accumulator: the instruction operates on the accumulator only, no memory access required (eg. ASL A).
    /// The next byte is read from PC+1 and thrown away, PC not incremented.
    /// - Immediate: the operand is a 1-byte value following the opcode (eg. LDA #55) - The next byte is
    /// read from PC+1 and used as a literal operand, PC is incremented.
    NoMemory(NoMemType),
    /// # Stack
    /// PHA, PHP, PLA, PLP
    ///
    /// Push or pull a value to or from the stack. The stack pointer is decremented for pushes and incremented
    /// for pulls. The stack is located at $0100-$01FF.
    /// Push or pull is decided by the action type (Read or Write)
    Stack,
    /// # Direct Page / Zero Page
    /// The operand is a 1-byte value following the opcode, which is an address on the zero page / direct page.
    /// Optionally, the X or Y register can be added to the address before the read or write.
    DirectPage(OffsetType),
    /// # Absolute
    /// The operand is a 2-byte value following the opcode, which is the address to read from or write to.
    /// Optionally, the X or Y register can be added to the address before the read or write.
    Absolute(OffsetType),
    /// # Direct Page / Zero Page Indirect
    /// The operand is a 1-byte value following the opcode, which is an address on the zero page. There is
    /// zero-page wraparound, so $FF will wrap around to $00.
    /// - X offset (eg. LDA ($55,X)) - The X register is added to the zero page address to find the
    /// two-byte address to read from.
    /// - Y offset (eg. LDA ($55),Y) - The two-byte address is taken from the zero page at the provided address,
    /// and the Y register is added to it to find the final address.
    DpIndirect(OffsetType),
    /// # Jump
    /// JMP, JSR, RTS, BRK and RTI.
    Jump(JumpType),
    /// # Branch
    /// The operand is a 1-byte value following the opcode, which is a signed offset from the PC.
    Branch(BranchType),
    /// # Jam
    /// This NMOS-only address type is used for illegal Jam opcodes, which make predictable memory accesses
    /// and then enter an infinite loop.
    Jam,
    // 16-bit instructions /////////////////////////////////////////////////////////////////////
    /// # Absolute Long
    /// The operand is a 3-byte value following the opcode, which is a full 24-bit address.
    ///
    /// 65C816 only.
    AbsoluteLong(OffsetType),
    /// # Direct Page Indirect Long
    /// The operand is a one-byte DirectPage address, pointing to a three-byte absolute address.
    DpIndirectLong(OffsetType),
    /// # Block Move
    ///
    /// 65C816 only.
    BlockMove,
    /// # Stack Relative
    /// The second byte of the instruction is added to the 16-bit stack pointer to form the effective address.
    ///
    /// 65C816 only.
    StackRelative(OffsetType),
    /// An undocumented 65C02 NOP with the given byte length and cycle count.
    CmosNop(u8, u8),
}

/// The decimal digit `d`.
pub open spec fn digit_chars(d: nat) -> Seq<char> {
    if d == 0 {
        "0"@
    } else if d == 1 {
        "1"@
    } else if d == 2 {
        "2"@
    } else if d == 3 {
        "3"@
    } else if d == 4 {
        "4"@
    } else if d == 5 {
        "5"@
    } else if d == 6 {
        "6"@
    } else if d == 7 {
        "7"@
    } else if d == 8 {
        "8"@
    } else {
        "9"@
    }
}

/// `v` written in decimal, without leading zeros.
pub open spec fn decimal(v: nat) -> Seq<char>
    decreases v,
{
    if v < 10 {
        digit_chars(v)
    } else {
        decimal(v / 10) + digit_chars(v % 10)
    }
}

/// The decimal digit `d` (below ten).
fn digit_str(d: u8) -> (r: &'static str)
    requires
        d < 10,
    ensures
        r@ == digit_chars(d as nat),
{
    match d {
        0 => "0",
        1 => "1",
        2 => "2",
        3 => "3",
        4 => "4",
        5 => "5",
        6 => "6",
        7 => "7",
        8 => "8",
        _ => "9",
    }
}

/// Append `v` in decimal to `s`.
fn append_decimal(s: &mut String, v: u8)
    ensures
        final(s)@ == old(s)@ + decimal(v as nat),
{
    proof {
        reveal_with_fuel(decimal, 3);
    }
    if v >= 100 {
        s.append(digit_str(v / 100));
    }
    if v >= 10 {
        s.append(digit_str((v / 10) % 10));
    }
    s.append(digit_str(v % 10));
    proof {
        let n = v as nat;
        if n >= 100 {
            assert(decimal(n) == decimal(n / 10) + digit_chars(n % 10));
            assert((n / 10) / 10 == n / 100);
            assert(decimal(n / 10) == digit_chars(n / 100) + digit_chars((n / 10) % 10));
        }
        assert(final(s)@ =~= old(s)@ + decimal(n)) by {
            if n >= 100 {
                assert(decimal(n) =~= digit_chars(n / 100) + digit_chars((n / 10) % 10) + digit_chars(
                    n % 10,
                ));
            }
        }
    }
}

/// The display name of an addressing mode.
pub open spec fn spec_mode_name(mode: AddressMode) -> Seq<char> {
    match mode {
        AddressMode::NoMemory(NoMemType::Implied) => "Implied"@,
        AddressMode::NoMemory(NoMemType::Immediate) => "Immediate"@,
        AddressMode::DirectPage(OffsetType::NoOffset) => "DirectPage"@,
        AddressMode::DirectPage(OffsetType::X) => "DirectPageX"@,
        AddressMode::DirectPage(OffsetType::Y) => "DirectPageY"@,
        AddressMode::Absolute(OffsetType::NoOffset) => "Absolute"@,
        AddressMode::Absolute(OffsetType::X) => "AbsoluteX"@,
        AddressMode::Absolute(OffsetType::Y) => "AbsoluteY"@,
        AddressMode::DpIndirect(OffsetType::NoOffset) => "Indirect"@,
        AddressMode::DpIndirect(OffsetType::X) => "IndirectX"@,
        AddressMode::DpIndirect(OffsetType::Y) => "IndirectY"@,
        AddressMode::Jump(JumpType::JmpAbsolute) => "JmpAbsolute"@,
        AddressMode::Jump(JumpType::JmpIndirect) => "JmpIndirect"@,
        AddressMode::Jump(JumpType::JmpIndirectX) => "JmpIndirectX"@,
        AddressMode::Jump(JumpType::ToSubroutine) => "Special (Jsr)"@,
        AddressMode::Jump(JumpType::ToInterrupt) => "Special (Brk)"@,
        AddressMode::Jump(JumpType::FromSubroutine) => "Special (Rts)"@,
        AddressMode::Jump(JumpType::FromInterrupt) => "Special (Rti)"@,
        AddressMode::Branch(BranchType::Relative) => "Branch Rel"@,
        AddressMode::Branch(BranchType::DpRelative) => "Branch DpRel"@,
        AddressMode::Stack => "Stack"@,
        AddressMode::Jam => "Jam"@,
        AddressMode::CmosNop(bytes, cycles) => "CMOS Nop, "@ + decimal(bytes as nat) + " bytes, "@
            + decimal(cycles as nat) + " cycles"@,
        AddressMode::Jump(JumpType::JmpIndirectLong) => "JmpIndirectLong"@,
        AddressMode::Branch(BranchType::RelativeLong) => "Branch RelLong"@,
        AddressMode::AbsoluteLong(OffsetType::NoOffset) => "AbsoluteLong"@,
        AddressMode::AbsoluteLong(OffsetType::X) => "AbsoluteLongX"@,
        AddressMode::AbsoluteLong(OffsetType::Y) => "AbsoluteLongY"@,
        AddressMode::DpIndirectLong(OffsetType::NoOffset) => "IndirectLong"@,
        AddressMode::DpIndirectLong(OffsetType::Y) => "IndirectLongY"@,
        AddressMode::DpIndirectLong(OffsetType::X) => "no such thing as IndirectLongX"@,
        AddressMode::BlockMove => "BlockMove"@,
        AddressMode::StackRelative(OffsetType::NoOffset) => "StackRelative"@,
        AddressMode::StackRelative(OffsetType::Y) => "StackRelativeY"@,
        AddressMode::StackRelative(OffsetType::X) => "StackRelativeX"@,
    }
}

impl AddressMode {
    /// Whether the mode exists on 8-bit parts and has microcode.
    pub open spec fn is_8bit(self) -> bool {
        match self {
            AddressMode::Branch(BranchType::RelativeLong) => false,
            AddressMode::AbsoluteLong(_) => false,
            AddressMode::DpIndirectLong(_) => false,
            AddressMode::BlockMove => false,
            AddressMode::StackRelative(_) => false,
            AddressMode::Jump(JumpType::JmpIndirectLong) => false,
            _ => true,
        }
    }

    /// A human-readable name of the addressing mode; an undocumented CMOS NOP also gives its
    /// byte length and cycle count.
    pub fn name(&self) -> (r: String)
        requires
            *self != AddressMode::StackRelative(OffsetType::X),
        ensures
            r@ == spec_mode_name(*self),
    {
        let mut r = String::from_str(self.base_name());
        if let AddressMode::CmosNop(bytes, cycles) = *self {
            append_decimal(&mut r, bytes);
            r.append(" bytes, ");
            append_decimal(&mut r, cycles);
            r.append(" cycles");
        }
        r
    }

    /// The name of the mode, up to the counts of a CMOS NOP.
    fn base_name(&self) -> (r: &'static str)
        requires
            *self != AddressMode::StackRelative(OffsetType::X),
        ensures
            !(*self is CmosNop) ==> r@ == spec_mode_name(*self),
            *self is CmosNop ==> r@ == "CMOS Nop, "@,
    {
        match *self {
            AddressMode::NoMemory(NoMemType::Implied) => "Implied",
            AddressMode::NoMemory(NoMemType::Immediate) => "Immediate",
            AddressMode::DirectPage(OffsetType::NoOffset) => "DirectPage",
            AddressMode::DirectPage(OffsetType::X) => "DirectPageX",
            AddressMode::DirectPage(OffsetType::Y) => "DirectPageY",
            AddressMode::Absolute(OffsetType::NoOffset) => "Absolute",
            AddressMode::Absolute(OffsetType::X) => "AbsoluteX",
            AddressMode::Absolute(OffsetType::Y) => "AbsoluteY",
            AddressMode::DpIndirect(OffsetType::NoOffset) => "Indirect",
            AddressMode::DpIndirect(OffsetType::X) => "IndirectX",
            AddressMode::DpIndirect(OffsetType::Y) => "IndirectY",
            AddressMode::Jump(JumpType::JmpAbsolute) => "JmpAbsolute",
            AddressMode::Jump(JumpType::JmpIndirect) => "JmpIndirect",
            AddressMode::Jump(JumpType::JmpIndirectX) => "JmpIndirectX",
            AddressMode::Jump(JumpType::ToSubroutine) => "Special (Jsr)",
            AddressMode::Jump(JumpType::ToInterrupt) => "Special (Brk)",
            AddressMode::Jump(JumpType::FromSubroutine) => "Special (Rts)",
            AddressMode::Jump(JumpType::FromInterrupt) => "Special (Rti)",
            AddressMode::Branch(BranchType::Relative) => "Branch Rel",
            AddressMode::Branch(BranchType::DpRelative) => "Branch DpRel",
            AddressMode::Stack => "Stack",
            AddressMode::Jam => "Jam",
            AddressMode::CmosNop(_, _) => "CMOS Nop, ",
            // 16-bit
            AddressMode::Jump(JumpType::JmpIndirectLong) => "JmpIndirectLong",
            AddressMode::Branch(BranchType::RelativeLong) => "Branch RelLong",
            AddressMode::AbsoluteLong(OffsetType::NoOffset) => "AbsoluteLong",
            AddressMode::AbsoluteLong(OffsetType::X) => "AbsoluteLongX",
            AddressMode::AbsoluteLong(OffsetType::Y) => "AbsoluteLongY",
            AddressMode::DpIndirectLong(OffsetType::NoOffset) => "IndirectLong",
            AddressMode::DpIndirectLong(OffsetType::Y) => "IndirectLongY",
            AddressMode::DpIndirectLong(OffsetType::X) => "no such thing as IndirectLongX",
            AddressMode::BlockMove => "BlockMove",
            AddressMode::StackRelative(OffsetType::NoOffset) => "StackRelative",
            AddressMode::StackRelative(OffsetType::Y) => "StackRelativeY",
            AddressMode::StackRelative(OffsetType::X) => "StackRelativeX",
        }
    }
}

/// No matter what Latch variant, anything read or written will update Data Latch.
/// This enum contains internal latches other than Data Latch
#[derive(Debug, Clone, Copy, PartialEq, Eq, Structural)]
pub enum Latch {
    /// No latch: reads are discarded, writes put 0 on the bus.
    Discard,
    Constant(u16),
    Pc,
    PcLo,
    PcHi,
    Sp,
    Ea,
    EaLo,
    EaHi,
    Op0,
    Ptr,
    PtrLo,
    PtrHi,
    Status,
    /// Status with interrupt flags
    BrkStatus,
    /// for branches
    SignedOffset8,
}

/// The cycles an addressing mode takes on the part with microcode `M`.
pub open spec fn mode_cycles<M: MicroCode>(mode: AddressMode, ctx: DecodeContext) -> Seq<
    MicroCycle,
> {
    match mode {
        AddressMode::NoMemory(NoMemType::Implied) => implied_cycles(),
        AddressMode::NoMemory(NoMemType::Immediate) => immediate_cycles(),
        AddressMode::DirectPage(off) => dp_cycles(ctx, off),
        AddressMode::Absolute(off) => absolute_cycles(ctx, off),
        AddressMode::DpIndirect(off) => dp_ind_cycles(ctx, off),
        AddressMode::Stack => stack_cycles(ctx),
        AddressMode::Jump(JumpType::JmpAbsolute) => jmpabs_cycles(),
        AddressMode::Jump(JumpType::JmpIndirect) => M::jmpind_cycles(OffsetType::NoOffset),
        AddressMode::Jump(JumpType::JmpIndirectX) => M::jmpind_cycles(OffsetType::X),
        AddressMode::Jump(JumpType::ToSubroutine) => M::jsr_cycles(),
        AddressMode::Jump(JumpType::FromSubroutine) => M::rts_cycles(),
        AddressMode::Jump(JumpType::ToInterrupt) => brk_cycles(),
        AddressMode::Jump(JumpType::FromInterrupt) => rti_cycles(),
        AddressMode::Branch(BranchType::DpRelative) => branch_dprel_cycles(),
        AddressMode::Branch(BranchType::Relative) => branch_rel_cycles(),
        AddressMode::Jam => jam_cycles(),
        AddressMode::CmosNop(bytes, cycles) => cmos_nop_cycles(bytes, cycles),
        _ => Seq::empty(),
    }
}

/// What the emitter needs of a mode and its context.
pub open spec fn emittable(mode: AddressMode, ctx: DecodeContext) -> bool {
    &&& mode.is_8bit()
    &&& (mode == AddressMode::Stack ==> ctx.action != MemoryAction::ReadModifyWrite)
}

impl AddressMode {
    /// Append the cycles of this addressing mode, as the part with microcode `M` runs them, to
    /// the cycles already queued.
    pub fn emit_ucycs<M: MicroCode>(&self, queue: &mut UcycQueue, ctx: DecodeContext)
        requires
            old(queue).wf(),
            old(queue).room() >= mode_cycles::<M>(*self, ctx).len(),
            emittable(*self, ctx),
        ensures
            final(queue).wf(),
            final(queue).popped() == old(queue).popped(),
            final(queue).room() == old(queue).room() - mode_cycles::<M>(*self, ctx).len(),
            final(queue)@ == old(queue)@ + mode_cycles::<M>(*self, ctx),
    {
        match *self {
            AddressMode::NoMemory(NoMemType::Implied) => M::emit_implied(queue, ctx),
            AddressMode::NoMemory(NoMemType::Immediate) => M::emit_immediate(queue, ctx),
            AddressMode::DirectPage(off) => M::emit_dp(queue, ctx, off),
            AddressMode::Absolute(off) => M::emit_absolute(queue, ctx, off),
            AddressMode::DpIndirect(off) => M::emit_dp_ind(queue, ctx, off),
            AddressMode::Stack => M::emit_stack(queue, ctx),
            AddressMode::Jump(JumpType::JmpAbsolute) => M::emit_jmpabs(queue, ctx),
            AddressMode::Jump(JumpType::JmpIndirect) => {
                M::emit_jmpind(queue, ctx, OffsetType::NoOffset)
            },
            AddressMode::Jump(JumpType::JmpIndirectX) => M::emit_jmpind(queue, ctx, OffsetType::X),
            AddressMode::Jump(JumpType::ToSubroutine) => M::emit_jsr(queue, ctx),
            AddressMode::Jump(JumpType::FromSubroutine) => M::emit_rts(queue, ctx),
            AddressMode::Jump(JumpType::ToInterrupt) => M::emit_brk(queue, ctx),
            AddressMode::Jump(JumpType::FromInterrupt) => M::emit_rti(queue, ctx),
            AddressMode::Branch(BranchType::DpRelative) => M::emit_branch_dprel(queue, ctx),
            AddressMode::Branch(BranchType::Relative) => M::emit_branch_rel(queue, ctx),
            AddressMode::Jam => M::emit_jam(queue, ctx),
            AddressMode::CmosNop(bytes, cycles) => M::emit_cmos_nop(queue, ctx, bytes, cycles),
            // 16-bit only: excluded by `emittable`
            _ => {},
        }
    }
}

/// Cycle `i` of `s` is valid, and a branch only if it is the last one.
pub(crate) open spec fn cycle_ok(s: Seq<MicroCycle>, i: int) -> bool {
    valid_cycle(s[i]) && (s[i].alu is Branch ==> i == s.len() - 1)
}

/// A sequence of at most eight cycles is runnable when each of its cycles is, taken by
/// position: checking the positions one by one proves the whole sequence.
pub(crate) proof fn lemma_short_valid(s: Seq<MicroCycle>)
    requires
        s.len() <= 8,
        s.len() > 0 ==> cycle_ok(s, 0),
        s.len() > 1 ==> cycle_ok(s, 1),
        s.len() > 2 ==> cycle_ok(s, 2),
        s.len() > 3 ==> cycle_ok(s, 3),
        s.len() > 4 ==> cycle_ok(s, 4),
        s.len() > 5 ==> cycle_ok(s, 5),
        s.len() > 6 ==> cycle_ok(s, 6),
        s.len() > 7 ==> cycle_ok(s, 7),
    ensures
        valid_cycles(s),
{
    assert forall|i: int| 0 <= i < s.len() implies valid_cycle(#[trigger] s[i]) && (s[i].alu is Branch
        ==> i == s.len() - 1) by {
        assert(cycle_ok(s, i));
    }
}

proof fn lemma_implied_valid()
    ensures
        valid_cycles(implied_cycles()),
        implied_cycles().len() <= 1,
{
    let s = implied_cycles();
    lemma_short_valid(s);
}

proof fn lemma_immediate_valid()
    ensures
        valid_cycles(immediate_cycles()),
        immediate_cycles().len() <= 1,
{
    let s = immediate_cycles();
    lemma_short_valid(s);
}

proof fn lemma_dp_valid(ctx: DecodeContext, off: OffsetType)
    ensures
        valid_cycles(dp_cycles(ctx, off)),
        dp_cycles(ctx, off).len() <= 5,
{
    let s = dp_cycles(ctx, off);
    lemma_short_valid(s);
}

proof fn lemma_absolute_valid(ctx: DecodeContext, off: OffsetType)
    ensures
        valid_cycles(absolute_cycles(ctx, off)),
        absolute_cycles(ctx, off).len() <= 6,
{
    let s = absolute_cycles(ctx, off);
    lemma_short_valid(s);
}

proof fn lemma_dp_ind_valid(ctx: DecodeContext, off: OffsetType)
    ensures
        valid_cycles(dp_ind_cycles(ctx, off)),
        dp_ind_cycles(ctx, off).len() <= 7,
{
    let s = dp_ind_cycles(ctx, off);
    lemma_short_valid(s);
}

proof fn lemma_stack_valid(ctx: DecodeContext)
    ensures
        valid_cycles(stack_cycles(ctx)),
        stack_cycles(ctx).len() <= 3,
{
    let s = stack_cycles(ctx);
    lemma_short_valid(s);
}

proof fn lemma_jmpabs_valid()
    ensures
        valid_cycles(jmpabs_cycles()),
        jmpabs_cycles().len() <= 2,
{
    let s = jmpabs_cycles();
    lemma_short_valid(s);
}

proof fn lemma_branch_rel_valid()
    ensures
        valid_cycles(branch_rel_cycles()),
        branch_rel_cycles().len() <= 1,
{
    let s = branch_rel_cycles();
    lemma_short_valid(s);
}

proof fn lemma_branch_dprel_valid()
    ensures
        valid_cycles(branch_dprel_cycles()),
        branch_dprel_cycles().len() <= 3,
{
    let s = branch_dprel_cycles();
    lemma_short_valid(s);
}

proof fn lemma_brk_valid()
    ensures
        valid_cycles(brk_cycles()),
        brk_cycles().len() <= 6,
{
    let s = brk_cycles();
    lemma_short_valid(s);
}

proof fn lemma_rti_valid()
    ensures
        valid_cycles(rti_cycles()),
        rti_cycles().len() <= 5,
{
    let s = rti_cycles();
    lemma_short_valid(s);
}

proof fn lemma_jam_valid()
    ensures
        valid_cycles(jam_cycles()),
        jam_cycles().len() <= 5,
{
    let s = jam_cycles();
    lemma_short_valid(s);
}

/// The interrupt entry sequence is runnable.
pub proof fn lemma_int_cycles_valid(int_type: InterruptType)
    ensures
        valid_cycles(int_cycles(int_type)),
        int_cycles(int_type).len() == 7,
{
    let s = int_cycles(int_type);
    lemma_short_valid(s);
}

/// Every 8-bit addressing mode emits runnable cycles that fit in the queue with room to spare.
pub proof fn lemma_mode_cycles_runnable<M: MicroCode>(mode: AddressMode, ctx: DecodeContext)
    requires
        emittable(mode, ctx),
        !(mode is CmosNop),
    ensures
        valid_cycles(mode_cycles::<M>(mode, ctx)),
        mode_cycles::<M>(mode, ctx).len() <= 8,
{
    M::lemma_part_cycles_valid();
    match mode {
        AddressMode::NoMemory(NoMemType::Implied) => lemma_implied_valid(),
        AddressMode::NoMemory(NoMemType::Immediate) => lemma_immediate_valid(),
        AddressMode::DirectPage(off) => lemma_dp_valid(ctx, off),
        AddressMode::Absolute(off) => lemma_absolute_valid(ctx, off),
        AddressMode::DpIndirect(off) => lemma_dp_ind_valid(ctx, off),
        AddressMode::Stack => lemma_stack_valid(ctx),
        AddressMode::Jump(JumpType::JmpAbsolute) => lemma_jmpabs_valid(),
        AddressMode::Jump(JumpType::ToInterrupt) => lemma_brk_valid(),
        AddressMode::Jump(JumpType::FromInterrupt) => lemma_rti_valid(),
        AddressMode::Branch(BranchType::DpRelative) => lemma_branch_dprel_valid(),
        AddressMode::Branch(BranchType::Relative) => lemma_branch_rel_valid(),
        AddressMode::Jam => lemma_jam_valid(),
        _ => {},
    }
}

} // verus!
