//! The micro-cycle executor: each call runs the next queued micro-cycle, with one bus access,
//! against a register context.
use vstd::prelude::*;

use crate::bus::{read_access, write_access, Bus, BusAccess, WaitStates};
use crate::isa::microcycle::{
    addressable, runnable, steppable, valid_cycle, valid_cycles, AluOp, MicroCycle, UcycQueue,
};
use crate::isa::{Latch, MemoryAction, OffsetType};
use crate::psr;

verus! {

/// Where a byte read from the bus can be sent.
#[derive(Clone, Copy, Debug, PartialEq, Eq, Structural)]
pub enum DataDest {
    Discard,
    EffectiveAddressLow,
    EffectiveAddressHigh,
    DataLatch,
}

/// The executor's internal latches.
#[derive(Clone, Copy, Debug, PartialEq, Eq, Structural)]
pub struct MicroExecutor {
    /// The byte last read from, or about to be written to, the bus.
    pub data_latch: u8,
    /// Effective address.
    pub ea: u32,
    /// Pointer for indirect modes.
    pub ptr: u16,
    /// Operand read from memory.
    pub op0: u8,
    /// Branch displacement.
    pub signed_offset8: i8,
    /// How the current instruction uses the bus at its effective address.
    pub memory_action: MemoryAction,
}

/// The outcome of a cycle.
#[derive(Clone, Copy, Debug, PartialEq, Eq, Structural)]
pub enum StepResult {
    /// The instruction is still executing.
    Pending,
    /// The instruction is complete: this cycle fetched the next opcode (or, for the executor,
    /// there was no cycle left to run).
    InstructionFinished,
}

/// `v` with its low byte replaced by `b`.
pub open spec fn with_low_byte(v: u16, b: u8) -> u16 {
    (v & 0xFF00) | (b as u16)
}

/// `v` with its high byte replaced by `b`.
pub open spec fn with_high_byte(v: u16, b: u8) -> u16 {
    (v & 0x00FF) | ((b as u16) << 8u16)
}

/// `o` added to the low byte of `v`, without carrying into the high byte.
pub open spec fn add_within_page(v: u16, o: u16) -> u16 {
    (v & 0xFF00) | (((v % 256) + (o % 256)) % 256) as u16
}

/// `v + o` modulo 2^16.
pub open spec fn add16(v: u16, o: u16) -> u16 {
    ((v + o) % 0x10000) as u16
}

/// The register state an executor works on: PC, S, P and the index registers, with the ALU
/// work of the current instruction.
pub trait MicroContext: Sized {
    spec fn spec_pc(&self) -> u16;

    spec fn spec_sp(&self) -> u8;

    spec fn spec_status(&self) -> u8;

    spec fn spec_x(&self) -> u16;

    spec fn spec_y(&self) -> u16;

    spec fn spec_a(&self) -> u16;

    spec fn spec_opcode(&self) -> u8;

    spec fn spec_rmw_dummy_write(&self) -> bool;

    spec fn spec_jmp_wrap_bug(&self) -> bool;

    spec fn spec_read_invalid(&self) -> bool;

    /// The context with PC set to `v` and nothing else changed.
    spec fn with_pc(self, v: u16) -> Self;

    /// The context with S set to `v` and nothing else changed.
    spec fn with_sp(self, v: u8) -> Self;

    /// The context after `v` is loaded into P.
    spec fn with_status(self, v: u8) -> Self;

    /// The context and latches after the value to store is prepared.
    spec fn after_prepare_store(self, s: MicroExecutor) -> (Self, MicroExecutor);

    /// The context and latches after the modify step of a read-modify-write.
    spec fn after_modify(self, s: MicroExecutor) -> (Self, MicroExecutor);

    /// Whether the current branch instruction branches.
    spec fn branch_taken(self, s: MicroExecutor) -> bool;

    fn pc(&self) -> (r: u16)
        ensures
            r == self.spec_pc(),
    ;

    fn set_pc(&mut self, value: u16)
        ensures
            *final(self) == old(self).with_pc(value),
    ;

    fn set_pc_hi(&mut self, value: u8)
        ensures
            *final(self) == old(self).with_pc(with_high_byte(old(self).spec_pc(), value)),
    ;

    fn set_pc_lo(&mut self, value: u8)
        ensures
            *final(self) == old(self).with_pc(with_low_byte(old(self).spec_pc(), value)),
    ;

    fn inc_pc(&mut self)
        ensures
            *final(self) == old(self).with_pc(add16(old(self).spec_pc(), 1)),
    ;

    fn opcode(&self) -> (r: u8)
        ensures
            r == self.spec_opcode(),
    ;

    fn sp(&self) -> (r: u8)
        ensures
            r == self.spec_sp(),
    ;

    fn set_sp(&mut self, value: u8)
        ensures
            *final(self) == old(self).with_sp(value),
    ;

    fn status(&self) -> (r: u8)
        ensures
            r == self.spec_status(),
    ;

    fn set_status(&mut self, value: u8)
        ensures
            *final(self) == old(self).with_status(value),
    ;

    fn reg_x(&self) -> (r: u16)
        ensures
            r == self.spec_x(),
    ;

    fn reg_y(&self) -> (r: u16)
        ensures
            r == self.spec_y(),
    ;

    fn reg_a(&self) -> (r: u16)
        ensures
            r == self.spec_a(),
    ;

    fn direct_page_base(&self) -> (r: u16)
        ensures
            r == 0,
    {
        0
    }

    fn data_bank(&self) -> (r: u8)
        ensures
            r == 0,
    {
        0
    }

    fn stack_base(&self) -> (r: u16)
        ensures
            r == 0x0100,
    {
        0x0100
    }

    /// Whether this context should perform the legacy NMOS dummy write during RMW sequences.
    fn rmw_dummy_write(&self) -> (r: bool)
        ensures
            r == self.spec_rmw_dummy_write(),
    ;

    /// Whether JMP (indirect) should emulate the original NMOS page-wrap bug.
    fn jmp_indirect_wrap_bug(&self) -> (r: bool)
        ensures
            r == self.spec_jmp_wrap_bug(),
    ;

    /// Whether an indexed access that crosses a page first reads the unfixed address (NMOS)
    /// rather than the byte at PC (CMOS).
    fn read_invalid_on_page_cross(&self) -> (r: bool)
        ensures
            r == self.spec_read_invalid(),
    ;

    /// Prepare the value that should be written to memory for store-style instructions, and store in data latch.
    fn alu_prepare_store(&mut self, scratch: &mut MicroExecutor)
        ensures
            (*final(self), *final(scratch)) == old(self).after_prepare_store(*old(scratch)),
    ;

    /// Execute the read-modify portion of a Read-Modify-Write instruction.
    fn alu_modify(&mut self, scratch: &mut MicroExecutor)
        ensures
            (*final(self), *final(scratch)) == old(self).after_modify(*old(scratch)),
    ;

    /// Evaluate a branch, returning whether the branch was taken
    fn alu_branch(&mut self, scratch: &mut MicroExecutor, queue: &mut UcycQueue) -> (r: bool)
        ensures
            r == old(self).branch_taken(*old(scratch)),
            *final(self) == *old(self),
            *final(scratch) == *old(scratch),
            *final(queue) == *old(queue),
    ;
}

/// The index register selected by `off` (zero for none).
pub open spec fn index_of<C: MicroContext>(ctx: C, off: OffsetType) -> u16 {
    match off {
        OffsetType::NoOffset => 0,
        OffsetType::X => ctx.spec_x(),
        OffsetType::Y => ctx.spec_y(),
    }
}

/// The bus address held by an address latch.
pub open spec fn spec_address_of<C: MicroContext>(ex: MicroExecutor, latch: Latch, ctx: C) -> u32 {
    match latch {
        Latch::Constant(c) => c as u32,
        Latch::Pc => ctx.spec_pc() as u32,
        Latch::Sp => (0x0100 + ctx.spec_sp()) as u32,
        Latch::Ea => ex.ea,
        Latch::EaLo => ex.ea % 256,
        Latch::Ptr => ex.ptr as u32,
        Latch::PtrLo => (ex.ptr % 256) as u32,
        _ => 0,
    }
}

/// Latches and context after adding `offset` to `latch`. The low-byte latches wrap within
/// their page; EA keeps its bank when its low byte is stepped.
pub open spec fn spec_add_offset<C: MicroContext>(
    ex: MicroExecutor,
    ctx: C,
    latch: Latch,
    offset: u16,
) -> (MicroExecutor, C) {
    match latch {
        Latch::Pc => (ex, ctx.with_pc(add16(ctx.spec_pc(), offset))),
        Latch::PcLo => (ex, ctx.with_pc(add_within_page(ctx.spec_pc(), offset))),
        Latch::Ea => (MicroExecutor { ea: ((ex.ea + offset) % 0x1_0000_0000) as u32, ..ex }, ctx),
        Latch::EaLo => (
            MicroExecutor {
                ea: (ex.ea & 0xFF0000) | (add_within_page((ex.ea % 0x10000) as u16, offset) as u32),
                ..ex
            },
            ctx,
        ),
        Latch::Ptr => (MicroExecutor { ptr: add16(ex.ptr, offset), ..ex }, ctx),
        Latch::PtrLo => (MicroExecutor { ptr: add_within_page(ex.ptr, offset), ..ex }, ctx),
        Latch::Sp => (ex, ctx.with_sp(((ctx.spec_sp() + offset % 256) % 256) as u8)),
        _ => (ex, ctx),
    }
}

/// Latches and context after a byte read from the bus is stored in `latch`.
pub open spec fn spec_write_latch<C: MicroContext>(
    ex: MicroExecutor,
    ctx: C,
    latch: Latch,
    value: u8,
) -> (MicroExecutor, C) {
    match latch {
        Latch::Discard | Latch::Constant(_) => (ex, ctx),
        Latch::Ea => (MicroExecutor { ea: (ex.ea & !0xFFFFu32) | (value as u32), ..ex }, ctx),
        Latch::EaLo => (MicroExecutor { ea: (ex.ea & !0xFFu32) | (value as u32), ..ex }, ctx),
        Latch::EaHi => (
            MicroExecutor { ea: (ex.ea & !0xFF00u32) | ((value as u32) << 8u32), ..ex },
            ctx,
        ),
        Latch::Op0 => (MicroExecutor { op0: value, ..ex }, ctx),
        Latch::Ptr => (MicroExecutor { ptr: value as u16, ..ex }, ctx),
        Latch::PtrLo => (MicroExecutor { ptr: with_low_byte(ex.ptr, value), ..ex }, ctx),
        Latch::PtrHi => (MicroExecutor { ptr: with_high_byte(ex.ptr, value), ..ex }, ctx),
        Latch::Pc | Latch::PcLo => (ex, ctx.with_pc(with_low_byte(ctx.spec_pc(), value))),
        Latch::PcHi => (ex, ctx.with_pc(with_high_byte(ctx.spec_pc(), value))),
        Latch::Sp => (ex, ctx.with_sp(value)),
        Latch::Status => (ex, ctx.with_status(value)),
        Latch::BrkStatus => (ex, ctx.with_status(value | psr::B_6502 | psr::U_6502)),
        Latch::SignedOffset8 => (MicroExecutor { signed_offset8: value as i8, ..ex }, ctx),
    }
}

/// The byte a latch supplies to a write.
pub open spec fn spec_read_latch<C: MicroContext>(ex: MicroExecutor, ctx: C, latch: Latch) -> u8 {
    match latch {
        Latch::Discard => 0,
        Latch::Constant(c) => (c % 256) as u8,
        Latch::Ea | Latch::EaLo => (ex.ea % 256) as u8,
        Latch::EaHi => ((ex.ea / 256) % 256) as u8,
        Latch::Op0 => ex.op0,
        Latch::Ptr | Latch::PtrLo => (ex.ptr % 256) as u8,
        Latch::PtrHi => (ex.ptr / 256) as u8,
        Latch::Pc | Latch::PcLo => (ctx.spec_pc() % 256) as u8,
        Latch::PcHi => (ctx.spec_pc() / 256) as u8,
        Latch::Sp => ctx.spec_sp(),
        Latch::Status => ctx.spec_status(),
        Latch::BrkStatus => ctx.spec_status() | psr::B_6502 | psr::U_6502,
        Latch::SignedOffset8 => ex.signed_offset8 as u8,
    }
}

/// The 65C02 always spends the extra cycle on INC/DEC abs,X.
pub open spec fn is_incdec_abs_x(opcode: u8) -> bool {
    opcode == 0xDE || opcode == 0xFE
}

/// The work of an indexed access before its bus cycle: the index is added to the low byte of
/// EA only. When the page was crossed, when storing, or on the 65C02's INC/DEC abs,X, this
/// cycle is a dummy read (of the unfixed address on NMOS, of PC - 1 on CMOS), and the full
/// address is kept for the next cycle.
pub open spec fn spec_offset_pre<C: MicroContext>(
    ex: MicroExecutor,
    ctx: C,
    off: OffsetType,
) -> (MicroExecutor, Option<u32>) {
    let offset = index_of(ctx, off);
    let target = ((ex.ea + offset) % 0x1_0000_0000) as u32;
    let same_page = (ex.ea & !0xFFu32) | (((ex.ea % 256) + (offset % 256)) % 256) as u32;
    let dummy = same_page != target || ex.memory_action == MemoryAction::Write || (
    ex.memory_action == MemoryAction::ReadModifyWrite && is_incdec_abs_x(ctx.spec_opcode()));
    if dummy {
        let ea = if ctx.spec_read_invalid() {
            same_page
        } else {
            ((ctx.spec_pc() + 0xFFFF_FFFFnat) % 0x1_0000_0000) as u32
        };
        (MicroExecutor { ea, ..ex }, Some(target))
    } else {
        (MicroExecutor { ea: same_page, ..ex }, None)
    }
}

/// The PC a taken branch lands on.
pub open spec fn branch_target(pc: u16, offset: i8) -> u16 {
    ((pc + offset + 0x10000) % 0x10000) as u16
}

/// The cycles a taken branch adds: one to set PC, and one more, first, when the target lies in
/// another page (reading the unfixed address, or PC again on BBR/BBS).
pub open spec fn branch_cycles(pc: u16, offset: i8, opcode: u8) -> Seq<MicroCycle> {
    let new_pc = branch_target(pc, offset);
    let unfixed = (pc & 0xFF00) | (new_pc & 0xFF);
    if new_pc != unfixed {
        seq![
            if opcode % 16 == 15 {
                MicroCycle::read(Latch::Pc, Latch::Discard, false)
            } else {
                MicroCycle::read_pc_set_pc(unfixed)
            },
            MicroCycle::read_pc_set_pc(new_pc),
        ]
    } else {
        seq![MicroCycle::read_pc_set_pc(new_pc)]
    }
}

/// Latches, context and remaining cycles after the internal work that follows the bus access
/// of cycle `u`. `fixed` is the full address kept by an indexed access's dummy cycle.
pub open spec fn spec_post<C: MicroContext>(
    ex: MicroExecutor,
    ctx: C,
    u: MicroCycle,
    fixed: Option<u32>,
    rest: Seq<MicroCycle>,
) -> (MicroExecutor, C, Seq<MicroCycle>) {
    match u.alu {
        AluOp::Idle | AluOp::NextOpcode => (ex, ctx, rest),
        AluOp::JumpToEa => (ex, ctx.with_pc((ex.ea % 0x10000) as u16), rest),
        AluOp::AddOffset { latch, offset } => {
            let r = spec_add_offset(ex, ctx, latch, index_of(ctx, offset));
            (r.0, r.1, rest)
        },
        AluOp::OffsetWithExtraCycle(_) => match fixed {
            Some(addr) => (MicroExecutor { ea: addr, ..ex }, ctx, rest),
            None => if ex.memory_action == MemoryAction::Read {
                (ex, ctx, Seq::empty())
            } else if ex.memory_action == MemoryAction::ReadModifyWrite && !ctx.spec_read_invalid()
                && !is_incdec_abs_x(ctx.spec_opcode()) && rest.len() > 0 {
                (ex, ctx, rest.drop_first())
            } else {
                (ex, ctx, rest)
            },
        },
        AluOp::IncLatch(latch) => {
            let r = spec_add_offset(ex, ctx, latch, 1);
            (r.0, r.1, rest)
        },
        AluOp::DecSp => (ex, ctx.with_sp(((ctx.spec_sp() + 255) % 256) as u8), rest),
        AluOp::Modify => {
            let r = ctx.after_modify(ex);
            (r.1, r.0, rest)
        },
        AluOp::SwapEaPc => (
            MicroExecutor { ea: ctx.spec_pc() as u32, ..ex },
            ctx.with_pc((ex.ea % 0x10000) as u16),
            rest,
        ),
        AluOp::Branch => if ctx.branch_taken(ex) {
            (ex, ctx, rest + branch_cycles(ctx.spec_pc(), ex.signed_offset8, ctx.spec_opcode()))
        } else {
            (ex, ctx, Seq::empty())
        },
        AluOp::SetPc(v) => (ex, ctx.with_pc(v), rest),
        AluOp::Jam => (ex, ctx, seq![u] + rest),
    }
}

/// Latches, context and remaining cycles after the front cycle of `q` runs, `data` being the
/// byte the bus returned if the cycle reads.
#[verifier::opaque]
pub open spec fn spec_cycle<C: MicroContext>(
    ex: MicroExecutor,
    ctx: C,
    q: Seq<MicroCycle>,
    data: u8,
) -> (MicroExecutor, C, Seq<MicroCycle>) {
    let u = q[0];
    let stored = if !u.bus.read {
        ctx.after_prepare_store(ex)
    } else {
        (ctx, ex)
    };
    let ctx1 = stored.0;
    let pre = match u.alu {
        AluOp::OffsetWithExtraCycle(off) => spec_offset_pre(stored.1, ctx1, off),
        _ => (stored.1, None),
    };
    let ex2 = pre.0;
    let accessed = if u.bus.read {
        spec_write_latch(MicroExecutor { data_latch: data, ..ex2 }, ctx1, u.local_latch, data)
    } else if u.local_latch != Latch::Discard {
        (MicroExecutor { data_latch: spec_read_latch(ex2, ctx1, u.local_latch), ..ex2 }, ctx1)
    } else {
        (ex2, ctx1)
    };
    let stepped = if u.inc_src {
        spec_add_offset(accessed.0, accessed.1, u.bus.addr, 1)
    } else {
        accessed
    };
    spec_post(stepped.0, stepped.1, u, pre.1, q.drop_first())
}

/// The latches and context at the bus access of the front cycle of `q`: after the store
/// preparation of a write and the indexing work of an indexed cycle.
pub open spec fn spec_at_access<C: MicroContext>(
    ex: MicroExecutor,
    ctx: C,
    q: Seq<MicroCycle>,
) -> (MicroExecutor, C) {
    let u = q[0];
    let stored = if !u.bus.read {
        ctx.after_prepare_store(ex)
    } else {
        (ctx, ex)
    };
    let pre = match u.alu {
        AluOp::OffsetWithExtraCycle(off) => spec_offset_pre(stored.1, stored.0, off),
        _ => (stored.1, None),
    };
    (pre.0, stored.0)
}

/// The address of the bus access of the front cycle of `q`.
pub open spec fn spec_cycle_address<C: MicroContext>(
    ex: MicroExecutor,
    ctx: C,
    q: Seq<MicroCycle>,
) -> u32 {
    let at = spec_at_access(ex, ctx, q);
    spec_address_of(at.0, q[0].bus.addr, at.1)
}

/// The byte the front cycle of `q` drives onto the bus when it writes.
pub open spec fn spec_cycle_store<C: MicroContext>(
    ex: MicroExecutor,
    ctx: C,
    q: Seq<MicroCycle>,
) -> u8 {
    let at = spec_at_access(ex, ctx, q);
    if q[0].local_latch != Latch::Discard {
        spec_read_latch(at.0, at.1, q[0].local_latch)
    } else {
        at.0.data_latch
    }
}

/// The bus access of the front cycle of `q`: `data` is the byte a read returned, `wait` the
/// wait states the bus answered with.
pub open spec fn spec_cycle_access<C: MicroContext>(
    ex: MicroExecutor,
    ctx: C,
    q: Seq<MicroCycle>,
    data: u8,
    wait: WaitStates,
) -> BusAccess {
    let u = q[0];
    if u.bus.read {
        read_access(spec_cycle_address(ex, ctx, q), data, u.bus.vda, u.bus.vpa, wait)
    } else {
        write_access(spec_cycle_address(ex, ctx, q), spec_cycle_store(ex, ctx, q), u.bus.vda, u.bus.vpa, wait)
    }
}

/// A cycle never changes the memory action held in the latches, given hooks that do not.
pub proof fn lemma_cycle_keeps_action<C: MicroContext>(
    ex: MicroExecutor,
    ctx: C,
    q: Seq<MicroCycle>,
    d: u8,
)
    requires
        q.len() > 0,
        forall|c: C, s: MicroExecutor| (#[trigger] c.after_prepare_store(s)).1.memory_action
            == s.memory_action,
        forall|c: C, s: MicroExecutor| (#[trigger] c.after_modify(s)).1.memory_action
            == s.memory_action,
    ensures
        spec_cycle(ex, ctx, q, d).0.memory_action == ex.memory_action,
{
    reveal(spec_cycle);
}

/// A taken branch costs one extra cycle, and one more when its target lies in another page.
pub proof fn lemma_branch_cycles_count(pc: u16, offset: i8, opcode: u8)
    ensures
        branch_cycles(pc, offset, opcode).len() == 1 + (if branch_target(pc, offset) / 256 != pc
            / 256 {
            1int
        } else {
            0
        }),
{
    let n = branch_target(pc, offset);
    assert((((pc & 0xFF00u16) | (n & 0xFFu16)) != n) == (pc / 256 != n / 256)) by (bit_vector);
}

/// A JAM cycle puts itself back at the front of the queue: a jammed core never finishes its
/// instruction.
pub proof fn lemma_jam_repeats<C: MicroContext>(ex: MicroExecutor, ctx: C, q: Seq<MicroCycle>, d: u8)
    requires
        q.len() > 0,
        q[0].alu is Jam,
        q[0].bus.read,
    ensures
        spec_cycle(ex, ctx, q, d).2.len() > 0,
        spec_cycle(ex, ctx, q, d).2[0] == q[0],
{
    reveal(spec_cycle);
}

/// Dropping the front of runnable cycles leaves runnable cycles.
pub proof fn lemma_valid_cycles_drop_first(s: Seq<MicroCycle>)
    requires
        valid_cycles(s),
        s.len() > 0,
    ensures
        valid_cycles(s.drop_first()),
        valid_cycle(s[0]),
        s[0].alu is Branch ==> s.len() == 1,
{
    assert(valid_cycle(s[0]));
    let t = s.drop_first();
    assert forall|i: int| 0 <= i < t.len() implies valid_cycle(#[trigger] t[i]) && (t[i].alu is Branch
        ==> i == t.len() - 1) by {
        assert(t[i] == s[i + 1]);
    }
}

impl Default for MicroExecutor {
    /// All latches clear, reading.
    fn default() -> (r: Self)
        ensures
            r == (MicroExecutor {
                data_latch: 0,
                ea: 0,
                ptr: 0,
                op0: 0,
                signed_offset8: 0,
                memory_action: MemoryAction::Read,
            }),
    {
        MicroExecutor {
            data_latch: 0,
            ea: 0,
            ptr: 0,
            op0: 0,
            signed_offset8: 0,
            memory_action: MemoryAction::Read,
        }
    }
}

/// The latches at the start of an instruction.
pub open spec fn fresh_executor() -> MicroExecutor {
    MicroExecutor {
        data_latch: 0,
        ea: 0x7F,
        ptr: 0,
        op0: 0,
        signed_offset8: 0,
        memory_action: MemoryAction::Read,
    }
}

impl MicroExecutor {
    /// Latches at the start of an instruction (EA reads as $007F until it is loaded).
    pub fn new() -> (r: Self)
        ensures
            r == fresh_executor(),
    {
        Self { ea: 0x7F, ..Default::default() }
    }

    /// Return every latch to its state at the start of an instruction.
    pub fn reset(&mut self)
        ensures
            *final(self) == fresh_executor(),
    {
        *self = Self::new();
    }

    /// Run the front cycle of `queue`: the store preparation or indexing work before the bus
    /// access, the access itself, and the internal work after it. Returns
    /// `InstructionFinished` without touching anything when no cycle is left, and the bus's
    /// wait states for the access otherwise. The cycle's access is the one added to the bus's
    /// record, and a read cycle works on the byte it returned.
    pub fn execute_next<C: MicroContext, B: Bus>(
        &mut self,
        ctx: &mut C,
        bus: &mut B,
        queue: &mut UcycQueue,
    ) -> (r: (StepResult, WaitStates))
        requires
            runnable(*old(queue)),
        ensures
            final(bus).samples() == old(bus).samples(),
            runnable(*final(queue)),
            old(queue)@.len() == 0 ==> r.0 == StepResult::InstructionFinished && r.1 == 0
                && *final(self) == *old(self) && *final(ctx) == *old(ctx) && final(queue)@ == old(
                queue,
            )@ && final(bus).accesses() == old(bus).accesses(),
            old(queue)@.len() > 0 ==> ({
                let d = final(bus).accesses().last().data;
                &&& r.0 == StepResult::Pending
                &&& final(bus).accesses() == old(bus).accesses().push(
                    spec_cycle_access(*old(self), *old(ctx), old(queue)@, d, r.1),
                )
                &&& spec_cycle(*old(self), *old(ctx), old(queue)@, d) == (
                    *final(self),
                    *final(ctx),
                    final(queue)@,
                )
            }),
    {
        proof {
            reveal(spec_cycle);
        }
        let ghost q0 = queue@;
        proof {
            if q0.len() > 0 {
                lemma_valid_cycles_drop_first(q0);
            }
        }
        let ucyc = match queue.pop() {
            Some(u) => u,
            None => {
                return (StepResult::InstructionFinished, 0);
            },
        };
        let ghost rest = queue@;
        // pre memory access alu stuff:
        let mut fixed_addr: Option<u32> = None;
        if !ucyc.bus.read {
            // prepare data_bus with the data to write, if any
            ctx.alu_prepare_store(self);
        }
        if let AluOp::OffsetWithExtraCycle(offset_type) = ucyc.alu {
            fixed_addr = self.offset_before_access(ctx, offset_type);
        }
        // perform the memory access portion of this cycle:

        let addr = self.address_of(ucyc.bus.addr, ctx);
        let wait: WaitStates;
        let ghost mut data: u8 = 0;
        if ucyc.bus.read {
            let (value, w) = bus.read(addr, ucyc.bus.vda, ucyc.bus.vpa);
            wait = w;
            proof {
                data = value;
            }
            self.data_latch = value;
            self.write_latch(ctx, ucyc.local_latch, value);
        } else {
            if ucyc.local_latch != Latch::Discard {
                self.data_latch = self.read_latch(ctx, ucyc.local_latch);
            }
            wait = bus.write(addr, self.data_latch, ucyc.bus.vda, ucyc.bus.vpa);
            proof {
                data = self.data_latch;
            }
        }
        if ucyc.inc_src {
            self.add_offset(ctx, ucyc.bus.addr, 1);
        }
        // post memory alu stuff:

        match ucyc.alu {
            AluOp::OffsetWithExtraCycle(_) => self.finish_indexed(ctx, queue, fixed_addr),
            AluOp::Branch => self.branch(ctx, queue),
            AluOp::Jam => Self::requeue(queue, ucyc),
            _ => {
                proof {
                    queue.lemma_capacity();
                }
                self.after_access(ctx, ucyc, Ghost(queue@));
            },
        }
        assert(bus.accesses().last().data == data);
        assert(spec_cycle(*old(self), *old(ctx), q0, data) == (*self, *ctx, queue@));
        (StepResult::Pending, wait)
    }

    /// The work of an indexed access before its bus cycle; returns the full address when the
    /// cycle is a dummy access.
    fn offset_before_access<C: MicroContext>(&mut self, ctx: &C, offset_type: OffsetType) -> (r:
        Option<u32>)
        ensures
            (*final(self), r) == spec_offset_pre(*old(self), *ctx, offset_type),
    {
        // Before the memory access, add the offset to the low byte of EA. The hardware does
        // this at the end of the previous cycle; doing it here gives the same bus activity.
        let offset: u16 = match offset_type {
            OffsetType::NoOffset => 0,
            OffsetType::X => ctx.reg_x(),
            OffsetType::Y => ctx.reg_y(),
        };
        let target_ea = self.ea.wrapping_add(offset as u32);
        // "hardware" way: only change low byte, keep high as-is
        let same_page = (self.ea & !0xFFu32) | (((self.ea % 256) + (offset as u32 % 256)) % 256);
        self.ea = same_page;
        let page_crossed = self.ea != target_ea;
        // 65C02 quirk: INC/DEC abs,X always do the extra dummy cycle at PC+2
        let opcode = ctx.opcode();
        let is_incdec_abs_x = opcode == 0xDE || opcode == 0xFE;
        let need_dummy_this_cycle = page_crossed || self.memory_action == MemoryAction::Write || (
        self.memory_action == MemoryAction::ReadModifyWrite && is_incdec_abs_x);
        if need_dummy_this_cycle {
            if !ctx.read_invalid_on_page_cross() {
                // on CMOS chips we don't do a read of the invalid location!
                // instead, we read the current pc again (PC+2)
                self.ea = (ctx.pc() as u32).wrapping_sub(1);
            }
            return Some(target_ea);
        }
        None
    }

    /// The internal work after the bus access of `ucyc`, for cycles that leave the queue alone.
    #[verifier::spinoff_prover]
    #[verifier::rlimit(50)]
    fn after_access<C: MicroContext>(
        &mut self,
        ctx: &mut C,
        ucyc: MicroCycle,
        Ghost(rest): Ghost<Seq<MicroCycle>>,
    )
        requires
            valid_cycle(ucyc),
            !(ucyc.alu is OffsetWithExtraCycle),
            !(ucyc.alu is Branch),
            !(ucyc.alu is Jam),
        ensures
            spec_post(*old(self), *old(ctx), ucyc, None, rest) == (*final(self), *final(ctx), rest),
    {
        match ucyc.alu {
            AluOp::Idle | AluOp::NextOpcode => {},
            AluOp::JumpToEa => {
                ctx.set_pc((self.ea % 0x10000) as u16);
            },
            AluOp::AddOffset { latch, offset } => {
                let o: u16 = match offset {
                    OffsetType::NoOffset => 0,
                    OffsetType::X => ctx.reg_x(),
                    OffsetType::Y => ctx.reg_y(),
                };
                self.add_offset(ctx, latch, o);
            },
            AluOp::OffsetWithExtraCycle(_) => {},
            AluOp::IncLatch(latch) => self.add_offset(ctx, latch, 1),
            AluOp::DecSp => {
                let sp = ctx.sp();
                ctx.set_sp(if sp == 0 {
                    255
                } else {
                    sp - 1
                });
            },
            AluOp::Modify => {
                ctx.alu_modify(self);
            },
            AluOp::SwapEaPc => {
                let temp = ctx.pc();
                ctx.set_pc((self.ea % 0x10000) as u16);
                self.ea = temp as u32;
            },
            AluOp::Branch => {},
            AluOp::SetPc(new_pc) => ctx.set_pc(new_pc),
            AluOp::Jam => {},
        }
    }

    /// After an indexed access: restore the full address kept by a dummy cycle, end a read
    /// that needed no fix, or (CMOS) skip the re-read of a read-modify-write.
    fn finish_indexed<C: MicroContext>(
        &mut self,
        ctx: &C,
        queue: &mut UcycQueue,
        fixed_addr: Option<u32>,
    )
        requires
            runnable(*old(queue)),
        ensures
            spec_post(
                *old(self),
                *ctx,
                MicroCycle::offset_opt_fix(OffsetType::NoOffset),
                fixed_addr,
                old(queue)@,
            ) == (*final(self), *ctx, final(queue)@),
            runnable(*final(queue)),
    {
        let opcode = ctx.opcode();
        let is_incdec_abs_x = opcode == 0xDE || opcode == 0xFE;
        if let Some(addr) = fixed_addr {
            // we had a dummy this cycle (page cross / write / special INC/DEC case)
            // now restore the "real" EA for the following cycles
            self.ea = addr;
        } else if self.memory_action == MemoryAction::Read {
            // we can short circuit here! next cycle is opcode fetch, which ends the op
            // and clears everything after it
            queue.clear();
        } else if self.memory_action == MemoryAction::ReadModifyWrite
            && !ctx.read_invalid_on_page_cross() && !is_incdec_abs_x {
            // on CMOS, for *normal* RMW (ASL/LSR/ROL/ROR abs,X) with no page-cross:
            // we just read the correct EA, so we can skip the extra read phase.
            if !queue.is_empty() {
                proof {
                    lemma_valid_cycles_drop_first(queue@);
                }
                queue.pop();
            }
        }
    }

    /// Decide a branch and, when taken, queue the cycles that move PC.
    fn branch<C: MicroContext>(&mut self, ctx: &mut C, queue: &mut UcycQueue)
        requires
            old(queue).wf(),
            old(queue)@.len() == 0,
            old(queue).room() == crate::isa::microcycle::MAX_UCYC,
        ensures
            spec_post(
                *old(self),
                *old(ctx),
                MicroCycle::fetch_with(Latch::SignedOffset8, true, AluOp::Branch),
                None,
                old(queue)@,
            ) == (*final(self), *final(ctx), final(queue)@),
            runnable(*final(queue)),
    {
        if ctx.alu_branch(self, queue) {
            // branch taken!
            // we need to figure out if we are branching to the same page or a different one
            let pc = ctx.pc();
            let new_pc = ((pc as i32 + self.signed_offset8 as i32 + 0x10000) % 0x10000) as u16;
            let maybe_invalid = (pc & 0xFF00) | (new_pc & 0xFF);
            // regardless of whether the address is valid or not, we set the PC to it on this cycle:
            if new_pc != maybe_invalid {
                // the address was invalid! luckily we know what the valid address is, let's spend another cycle
                // fixing it!
                if ctx.opcode() % 16 == 15 {
                    // on CMOS BBR/BBS instructions we read the PC again as we fix the Ea internally
                    queue.push(MicroCycle::read(Latch::Pc, Latch::Discard, false));
                } else {
                    // otherwise, we read the invalid locations
                    queue.push(MicroCycle::read_pc_set_pc(maybe_invalid));
                }
                queue.push(MicroCycle::read_pc_set_pc(new_pc));
            } else {
                queue.push(MicroCycle::read_pc_set_pc(new_pc));
            }
            // then, stick a fork in us, we're done
            proof {
                let s = queue@;
                assert forall|i: int| 0 <= i < s.len() implies valid_cycle(#[trigger] s[i])
                    && !(s[i].alu is Branch) by {
                    if i == 0 {
                    } else {
                    }
                }
            }
        } else {
            // branch not taken! next cycle is opcode fetch
            queue.clear();
        }
    }

    /// Put a JAM cycle back at the front of the queue.
    fn requeue(queue: &mut UcycQueue, ucyc: MicroCycle)
        requires
            old(queue).wf(),
            valid_cycle(ucyc),
            ucyc.alu is Jam,
            valid_cycles(old(queue)@),
            old(queue).popped().len() > 0 || old(queue).room() == crate::isa::microcycle::MAX_UCYC,
            old(queue).popped().len() > 0 ==> old(queue).popped().last() == ucyc,
            old(queue)@.len() > 0 && old(queue)@.last().alu is Branch ==> old(queue).room() >= 2,
        ensures
            final(queue)@ == seq![ucyc] + old(queue)@,
            runnable(*final(queue)),
    {
        let ghost rest = queue@;
        // putting this cycle back at the front guarantees that it is executed again
        // next cycle
        proof {
            queue.lemma_capacity();
        }
        if queue.has_popped() {
            queue.dec_head();
        } else {
            queue.push(ucyc);
        }
        proof {
            let s = queue@;
            assert(s =~= seq![ucyc] + rest);
            assert forall|i: int| 0 <= i < s.len() implies valid_cycle(#[trigger] s[i]) && (
            s[i].alu is Branch ==> i == s.len() - 1) by {
                if i > 0 {
                    assert(s[i] == rest[i - 1]);
                }
            }
        }
    }

    fn address_of<C: MicroContext>(&self, latch: Latch, ctx: &C) -> (r: u32)
        requires
            addressable(latch),
        ensures
            r == spec_address_of(*self, latch, *ctx),
    {
        match latch {
            Latch::Constant(c) => c as u32,
            Latch::Pc => ctx.pc() as u32,
            Latch::Sp => ctx.stack_base() as u32 + ctx.sp() as u32,
            Latch::Ea => self.ea,
            Latch::EaLo => self.ea % 256,
            Latch::Ptr => self.ptr as u32,
            Latch::PtrLo => (self.ptr % 256) as u32,
            _ => 0,
        }
    }

    #[verifier::spinoff_prover]
    #[verifier::rlimit(40)]
    fn add_offset<C: MicroContext>(&mut self, ctx: &mut C, latch: Latch, offset: u16)
        requires
            steppable(latch),
        ensures
            (*final(self), *final(ctx)) == spec_add_offset(*old(self), *old(ctx), latch, offset),
    {
        let pc = ctx.pc();
        let ea_bank = self.ea & 0xFF0000;
        let ea = (self.ea % 0x10000) as u16;
        match latch {
            Latch::Pc => ctx.set_pc(pc.wrapping_add(offset)),
            Latch::PcLo => ctx.set_pc((pc & 0xFF00) | (((pc % 256) + (offset % 256)) % 256)),
            Latch::Ea => self.ea = self.ea.wrapping_add(offset as u32),
            Latch::EaLo => {
                self.ea = ea_bank | (((ea & 0xFF00) | (((ea % 256) + (offset % 256)) % 256)) as u32)
            },
            Latch::Ptr => self.ptr = self.ptr.wrapping_add(offset),
            Latch::PtrLo => {
                self.ptr = (self.ptr & 0xFF00) | (((self.ptr % 256) + (offset % 256)) % 256)
            },
            Latch::Sp => {
                let sp = ctx.sp();
                ctx.set_sp(((sp as u16 + offset % 256) % 256) as u8);
            },
            _ => {},
        }
    }

    fn write_latch<C: MicroContext>(&mut self, ctx: &mut C, latch: Latch, value: u8)
        ensures
            (*final(self), *final(ctx)) == spec_write_latch(*old(self), *old(ctx), latch, value),
    {
        match latch {
            Latch::Discard | Latch::Constant(_) => {},
            Latch::Ea => {
                self.ea = (self.ea & !0xFFFFu32) | value as u32;
            },
            Latch::EaLo => {
                self.ea = (self.ea & !0xFFu32) | value as u32;
            },
            Latch::EaHi => {
                self.ea = (self.ea & !0xFF00u32) | ((value as u32) << 8u32);
            },
            Latch::Op0 => self.op0 = value,
            Latch::Ptr => self.ptr = value as u16,
            Latch::PtrLo => {
                self.ptr = (self.ptr & 0xFF00) | value as u16;
            },
            Latch::PtrHi => {
                self.ptr = (self.ptr & 0x00FF) | ((value as u16) << 8u16);
            },
            Latch::Pc => {
                let current = ctx.pc();
                let new = (current & 0xFF00) | value as u16;
                ctx.set_pc(new);
            },
            Latch::PcLo => ctx.set_pc_lo(value),
            Latch::PcHi => ctx.set_pc_hi(value),
            Latch::Sp => ctx.set_sp(value),
            Latch::Status => ctx.set_status(value),
            Latch::BrkStatus => ctx.set_status(value | psr::B_6502 | psr::U_6502),
            Latch::SignedOffset8 => self.signed_offset8 = value as i8,
        }
    }

    fn read_latch<C: MicroContext>(&self, ctx: &C, latch: Latch) -> (r: u8)
        ensures
            r == spec_read_latch(*self, *ctx, latch),
    {
        match latch {
            Latch::Discard => 0,
            Latch::Constant(c) => (c % 256) as u8,
            Latch::Ea | Latch::EaLo => (self.ea % 256) as u8,
            Latch::EaHi => ((self.ea / 256) % 256) as u8,
            Latch::Op0 => self.op0,
            Latch::Ptr | Latch::PtrLo => (self.ptr % 256) as u8,
            Latch::PtrHi => (self.ptr / 256) as u8,
            Latch::Pc | Latch::PcLo => (ctx.pc() % 256) as u8,
            Latch::PcHi => (ctx.pc() / 256) as u8,
            Latch::Sp => ctx.sp(),
            Latch::Status => ctx.status(),
            Latch::BrkStatus => ctx.status() | psr::B_6502 | psr::U_6502,
            Latch::SignedOffset8 => self.signed_offset8 as u8,
        }
    }
}

} // verus!
