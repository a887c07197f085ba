//! Micro-cycles: one bus access plus internal work, and the queue that holds an
//! instruction's remaining cycles.
use vstd::prelude::*;

use crate::isa::{InterruptType, Latch, MemoryAction, OffsetType};

verus! {

/// Capacity of the micro-cycle queue.
pub const MAX_UCYC: usize = 14;

#[derive(Debug, Clone, Copy, PartialEq, Eq, Structural)]
pub enum BusAction {
    Idle,
    Read,
    Write,
    DummyRead,
    DummyWrite,
}

/// The bus side of a micro-cycle: which latch supplies the address, the VDA/VPA pins, and the
/// direction.
#[derive(Debug, Clone, Copy, PartialEq, Eq, Structural)]
pub struct BusCycle {
    pub addr: Latch,
    pub vda: bool,
    pub vpa: bool,
    pub read: bool,
}

/// Internal work done around a micro-cycle's bus access.
#[derive(Debug, Clone, Copy, PartialEq, Eq, Structural)]
pub enum AluOp {
    /// Nothing besides the bus access.
    Idle,
    NextOpcode,
    /// After the access, add an index register to a latch (within its byte for the low halves).
    AddOffset { latch: Latch, offset: OffsetType },
    /// Indexed absolute access: add the index to the low byte of EA and fix the high byte with
    /// an extra cycle when needed.
    OffsetWithExtraCycle(OffsetType),
    DecSp,
    Modify,
    JumpToEa,
    IncLatch(Latch),
    Branch,
    SetPc(u16),
    /// Jump to EA, keeping the current PC in EA (JSR).
    SwapEaPc,
    /// Repeat this cycle forever.
    Jam,
}

#[derive(Debug, Clone, Copy, PartialEq, Eq, Structural)]
pub struct MicroCycle {
    pub bus: BusCycle,
    pub inc_src: bool,
    pub local_latch: Latch,
    pub alu: AluOp,
}

/// The cycles of the current instruction: a fixed buffer with a cursor, no allocation. The
/// entries before the cursor have run; those from it to `len` are pending.
pub struct UcycQueue {
    buf: [MicroCycle; MAX_UCYC],
    /// next to execute (pop front)
    head: u8,
    /// number of valid entries
    len: u8,
}

/// What a pop takes from the pending cycles `v`: the front cycle, if any, and what is left.
pub open spec fn pop_front(v: Seq<MicroCycle>) -> (Option<MicroCycle>, Seq<MicroCycle>) {
    if v.len() == 0 {
        (None, v)
    } else {
        (Some(v[0]), v.drop_first())
    }
}

/// `qs[i + 1]` is `qs[i]` after pushing `us[i]`, for each `i`: the states of a queue through a
/// run of `push` calls, each as `push` ensures.
pub open spec fn push_run(qs: Seq<UcycQueue>, us: Seq<MicroCycle>) -> bool {
    &&& qs.len() == us.len() + 1
    &&& forall|i: int| 0 <= i < us.len() ==> #[trigger] qs[i + 1]@ == qs[i]@.push(us[i])
}

/// `qs[i + 1]` is `qs[i]` after a pop that returned `rs[i]`, for each `i`: the states of a
/// queue through a run of `pop` calls, each as `pop` ensures.
pub open spec fn pop_run(qs: Seq<UcycQueue>, rs: Seq<Option<MicroCycle>>) -> bool {
    &&& qs.len() == rs.len() + 1
    &&& forall|i: int| 0 <= i < rs.len() ==> #[trigger] pop_front(qs[i]@) == (rs[i], qs[i + 1]@)
}

/// First in, first out, over real calls: push `us` one by one onto an empty queue, then pop
/// one more time than there are cycles. The pops return the cycles of `us` in push order,
/// each once, then nothing, and the queue is left empty.
pub proof fn lemma_queue_fifo(
    pushed: Seq<UcycQueue>,
    us: Seq<MicroCycle>,
    popped: Seq<UcycQueue>,
    rs: Seq<Option<MicroCycle>>,
)
    requires
        push_run(pushed, us),
        pushed[0]@.len() == 0,
        pop_run(popped, rs),
        popped[0]@ == pushed.last()@,
        rs.len() == us.len() + 1,
    ensures
        rs == us.map_values(|c: MicroCycle| Some(c)).push(None),
        popped.last()@.len() == 0,
{
    lemma_push_run_prefix(pushed, us, us.len() as int);
    assert(pushed[us.len() as int]@ =~= us);
    lemma_pop_run_suffix(popped, rs, us, us.len() as int);
    let n = us.len() as int;
    assert(popped[n]@ =~= Seq::<MicroCycle>::empty());
    assert(pop_front(popped[n]@) == (rs[n], popped[n + 1]@));
    assert(rs =~= us.map_values(|c: MicroCycle| Some(c)).push(None));
}

proof fn lemma_push_run_prefix(qs: Seq<UcycQueue>, us: Seq<MicroCycle>, i: int)
    requires
        push_run(qs, us),
        0 <= i <= us.len(),
    ensures
        qs[i]@ == qs[0]@ + us.take(i),
    decreases i,
{
    if i == 0 {
        assert(qs[0]@ + us.take(0) =~= qs[0]@);
    } else {
        lemma_push_run_prefix(qs, us, i - 1);
        assert(qs[i]@ == qs[i - 1]@.push(us[i - 1]));
        assert(qs[0]@ + us.take(i) =~= (qs[0]@ + us.take(i - 1)).push(us[i - 1]));
    }
}

proof fn lemma_pop_run_suffix(qs: Seq<UcycQueue>, rs: Seq<Option<MicroCycle>>, w: Seq<MicroCycle>, i: int)
    requires
        pop_run(qs, rs),
        qs[0]@ == w,
        0 <= i <= w.len(),
        i < qs.len(),
    ensures
        qs[i]@ == w.skip(i),
        forall|j: int| 0 <= j < i ==> rs[j] == Some(#[trigger] w[j]),
    decreases i,
{
    if i == 0 {
        assert(w.skip(0) =~= w);
    } else {
        lemma_pop_run_suffix(qs, rs, w, i - 1);
        assert(pop_front(qs[i - 1]@) == (rs[i - 1], qs[i]@));
        assert(w.skip(i - 1).drop_first() =~= w.skip(i));
    }
}

impl View for UcycQueue {
    type V = Seq<MicroCycle>;

    /// The cycles still to execute, front first.
    closed spec fn view(&self) -> Seq<MicroCycle> {
        self.buf@.subrange(self.head as int, self.len as int)
    }
}

impl UcycQueue {
    /// The cursor lies within the entries, and an empty queue is rewound to the start.
    pub closed spec fn wf(&self) -> bool {
        &&& self.head <= self.len <= MAX_UCYC
        &&& (self.head == self.len ==> self.len == 0)
    }

    /// The cycles already executed since the queue was last emptied, oldest first.
    pub closed spec fn popped(&self) -> Seq<MicroCycle> {
        self.buf@.subrange(0, self.head as int)
    }

    /// Room left for pushes.
    pub closed spec fn room(&self) -> int {
        MAX_UCYC - self.len
    }

    /// An empty queue.
    pub fn new() -> (r: Self)
        ensures
            r.wf(),
            r@ == Seq::<MicroCycle>::empty(),
            r.popped() == Seq::<MicroCycle>::empty(),
            r.room() == MAX_UCYC,
    {
        let r = Self { buf: [MicroCycle::opcode_fetch();MAX_UCYC], head: 0, len: 0 };
        proof {
            assert(r@ =~= Seq::<MicroCycle>::empty());
            assert(r.popped() =~= Seq::<MicroCycle>::empty());
        }
        r
    }

    /// Drop every entry.
    pub fn clear(&mut self)
        ensures
            final(self).wf(),
            final(self)@ == Seq::<MicroCycle>::empty(),
            final(self).popped() == Seq::<MicroCycle>::empty(),
            final(self).room() == MAX_UCYC,
    {
        self.head = 0;
        self.len = 0;
        proof {
            assert(self@ =~= Seq::<MicroCycle>::empty());
            assert(self.popped() =~= Seq::<MicroCycle>::empty());
        }
    }

    /// Whether no entries remain.
    pub fn is_empty(&self) -> (r: bool)
        requires
            self.wf(),
        ensures
            r == (self@.len() == 0),
    {
        self.head == self.len
    }

    /// Number of entries still to execute.
    pub fn len(&self) -> (r: usize)
        requires
            self.wf(),
        ensures
            r == self@.len(),
    {
        (self.len - self.head) as usize
    }

    /// Append `u` at the back.
    pub fn push(&mut self, u: MicroCycle)
        requires
            old(self).wf(),
            old(self).room() > 0,
        ensures
            final(self).wf(),
            final(self)@ == old(self)@.push(u),
            final(self).popped() == old(self).popped(),
            final(self).room() == old(self).room() - 1,
    {
        let ghost prev = self.buf@;
        self.buf[self.len as usize] = u;
        self.len = self.len + 1;
        proof {
            assert(self@ =~= old(self)@.push(u));
            assert(self.popped() =~= old(self).popped());
        }
    }

    /// The entry at the front, if any.
    pub fn front(&self) -> (r: Option<MicroCycle>)
        requires
            self.wf(),
        ensures
            r == (if self@.len() == 0 {
                None
            } else {
                Some(self@[0])
            }),
    {
        if self.head >= self.len {
            return None;
        }
        Some(self.buf[self.head as usize])
    }

    /// The executed entries, the pending entries and the free room fill the buffer.
    pub proof fn lemma_capacity(&self)
        requires
            self.wf(),
        ensures
            self.popped().len() + self@.len() + self.room() == MAX_UCYC,
            self@.len() == 0 ==> self.room() == MAX_UCYC && self.popped().len() == 0,
    {
    }

    /// Whether an executed entry can be stepped back to.
    pub(crate) fn has_popped(&self) -> (r: bool)
        requires
            self.wf(),
        ensures
            r == (self.popped().len() > 0),
    {
        self.head > 0
    }

    /// Remove and return the entry at the front. Taking the last entry empties the queue.
    pub fn pop(&mut self) -> (r: Option<MicroCycle>)
        requires
            old(self).wf(),
        ensures
            final(self).wf(),
            (r, final(self)@) == pop_front(old(self)@),
            old(self)@.len() > 1 ==> final(self).popped() == old(self).popped().push(old(self)@[0]),
            old(self)@.len() <= 1 ==> final(self).popped() == Seq::<MicroCycle>::empty(),
            old(self)@.len() <= 1 ==> final(self).room() == MAX_UCYC,
            final(self).room() >= old(self).room(),
    {
        let front = match self.front() {
            Some(f) => f,
            None => {
                proof {
                    assert(self.popped() =~= Seq::<MicroCycle>::empty());
                }
                return None;
            },
        };
        self.head = self.head + 1;
        if self.head >= self.len {
            self.clear();
        }
        proof {
            assert(self@ =~= old(self)@.drop_first());
            if old(self)@.len() > 1 {
                assert(self.popped() =~= old(self).popped().push(old(self)@[0]));
            }
        }
        Some(front)
    }

    /// Put `new` at the front of the pending cycles by moving the cursor back one slot: the
    /// slot of the last executed cycle is overwritten, so at least one cycle must have run.
    pub fn insert(&mut self, new: MicroCycle)
        requires
            old(self).wf(),
            old(self).popped().len() > 0,
        ensures
            final(self).wf(),
            final(self)@ == seq![new] + old(self)@,
            final(self).popped() == old(self).popped().drop_last(),
            final(self).room() == old(self).room(),
    {
        self.head = self.head - 1;
        self.buf[self.head as usize] = new;
        proof {
            assert(self@ =~= seq![new] + old(self)@);
            assert(self.popped() =~= old(self).popped().drop_last());
        }
    }

    /// Step the cursor back so that the last executed entry runs again.
    pub fn dec_head(&mut self)
        requires
            old(self).wf(),
            old(self).popped().len() > 0,
        ensures
            final(self).wf(),
            final(self)@ == seq![old(self).popped().last()] + old(self)@,
            final(self).popped() == old(self).popped().drop_last(),
            final(self).room() == old(self).room(),
    {
        self.head = self.head - 1;
        proof {
            assert(self@ =~= seq![old(self).popped().last()] + old(self)@);
            assert(self.popped() =~= old(self).popped().drop_last());
        }
    }
}

impl Default for UcycQueue {
    /// An empty queue.
    fn default() -> (r: Self)
        ensures
            r.wf(),
            r@ == Seq::<MicroCycle>::empty(),
            r.room() == MAX_UCYC,
    {
        Self::new()
    }
}

impl MicroCycle {
    /// The cycles that finish a memory instruction once the effective address is known:
    /// a read, a write, or a read, modify and write-back, followed by the opcode fetch
    /// being left to the core.
    pub open spec fn finish_cycles(ctx: DecodeContext) -> Seq<MicroCycle> {
        match ctx.action {
            MemoryAction::Read => seq![MicroCycle::read(Latch::Ea, Latch::Op0, false)],
            MemoryAction::Write => seq![MicroCycle::alu_write()],
            MemoryAction::ReadModifyWrite => seq![
                MicroCycle::read(Latch::Ea, Latch::Op0, false),
                MicroCycle::alu_modify(ctx.modify_read),
                MicroCycle::alu_write(),
            ],
        }
    }

    /// the differentiation between read, write, and read-modify-write
    pub fn finish_action(queue: &mut UcycQueue, ctx: DecodeContext)
        requires
            old(queue).wf(),
            old(queue).room() >= Self::finish_cycles(ctx).len(),
        ensures
            final(queue).wf(),
            final(queue)@ == old(queue)@ + Self::finish_cycles(ctx),
            final(queue).popped() == old(queue).popped(),
            final(queue).room() == old(queue).room() - Self::finish_cycles(ctx).len(),
    {
        let ghost q0 = queue@;
        match ctx.action {
            MemoryAction::Read => queue.push(MicroCycle::read(Latch::Ea, Latch::Op0, false)),
            MemoryAction::Write => queue.push(MicroCycle::alu_write()),
            MemoryAction::ReadModifyWrite => {
                queue.push(MicroCycle::read(Latch::Ea, Latch::Op0, false));
                queue.push(MicroCycle::alu_modify(ctx.modify_read));  // performs some kind of dummy read/write
                queue.push(MicroCycle::alu_write());
            },
        }
        proof {
            assert(queue@ =~= q0 + Self::finish_cycles(ctx));
        }
    }

    /// Fetch the next opcode from PC and advance PC: a program read (VPA high, VDA low).
    #[verifier::allow_in_spec]
    pub fn opcode_fetch() -> Self
        returns
            (MicroCycle {
                bus: BusCycle { addr: Latch::Pc, vda: false, vpa: true, read: true },
                inc_src: true,
                local_latch: Latch::Discard,
                alu: AluOp::NextOpcode,
            }),
    {
        MicroCycle {
            bus: BusCycle { addr: Latch::Pc, vda: false, vpa: true, read: true },
            inc_src: true,
            local_latch: Latch::Discard,
            alu: AluOp::NextOpcode,
        }
    }

    /// Read from the address in `src` into `dest`, optionally incrementing `src`.
    #[verifier::allow_in_spec]
    pub fn read(src: Latch, dest: Latch, inc_src: bool) -> Self
        returns
            (MicroCycle {
                bus: BusCycle { addr: src, vda: src != Latch::Pc, vpa: src == Latch::Pc, read: true },
                inc_src,
                local_latch: dest,
                alu: AluOp::Idle,
            }),
    {
        let vpa = matches!(src, Latch::Pc);
        MicroCycle {
            bus: BusCycle { addr: src, vda: !vpa, vpa, read: true },
            inc_src,
            local_latch: dest,
            alu: AluOp::Idle,
        }
    }

    /// A read whose data is ignored; VDA and VPA are low.
    #[verifier::allow_in_spec]
    pub fn dummy_read(addr: Latch) -> Self
        returns
            (MicroCycle {
                bus: BusCycle { addr, vda: false, vpa: false, read: true },
                inc_src: false,
                local_latch: Latch::Discard,
                alu: AluOp::Idle,
            }),
    {
        MicroCycle {
            bus: BusCycle { addr, vda: false, vpa: false, read: true },
            inc_src: false,
            local_latch: Latch::Discard,
            alu: AluOp::Idle,
        }
    }

    /// Write the latch `src` to the stack and decrement S.
    #[verifier::allow_in_spec]
    pub fn push(src: Latch) -> Self
        returns
            (MicroCycle {
                bus: BusCycle { addr: Latch::Sp, vda: true, vpa: false, read: false },
                inc_src: false,
                local_latch: src,
                alu: AluOp::DecSp,
            }),
    {
        MicroCycle {
            bus: BusCycle {
                addr: Latch::Sp,
                vda: true,
                vpa: false,  // literally impossible for vpa to be true on write
                read: false,
            },
            inc_src: false,
            local_latch: src,
            alu: AluOp::DecSp,
        }
    }

    /// Dummy read from `src`, then add the index register to it.
    #[verifier::allow_in_spec]
    pub fn read_and_offset(src: Latch, offset: OffsetType) -> Self
        returns
            (MicroCycle {
                bus: BusCycle { addr: src, vda: true, vpa: false, read: true },
                inc_src: false,
                local_latch: Latch::Discard,
                alu: AluOp::AddOffset { latch: src, offset },
            }),
    {
        MicroCycle {
            bus: BusCycle { addr: src, vda: true, vpa: false, read: true },
            inc_src: false,
            local_latch: Latch::Discard,
            alu: AluOp::AddOffset { latch: src, offset },
        }
    }

    /// Dummy read at PC, then set PC to `new_pc`.
    #[verifier::allow_in_spec]
    pub fn read_pc_set_pc(new_pc: u16) -> Self
        returns
            (MicroCycle {
                bus: BusCycle { addr: Latch::Pc, vda: false, vpa: true, read: true },
                inc_src: false,
                local_latch: Latch::Discard,
                alu: AluOp::SetPc(new_pc),
            }),
    {
        MicroCycle {
            bus: BusCycle { addr: Latch::Pc, vda: false, vpa: true, read: true },
            inc_src: false,
            local_latch: Latch::Discard,
            alu: AluOp::SetPc(new_pc),
        }
    }

    /// Indexed read of EA with an optional extra cycle to fix the high byte.
    #[verifier::allow_in_spec]
    pub fn offset_opt_fix(offset_type: OffsetType) -> Self
        returns
            (MicroCycle {
                bus: BusCycle { addr: Latch::Ea, vda: true, vpa: false, read: true },
                inc_src: false,
                local_latch: Latch::Op0,
                alu: AluOp::OffsetWithExtraCycle(offset_type),
            }),
    {
        MicroCycle {
            bus: BusCycle { addr: Latch::Ea, vda: true, vpa: false, read: true },
            inc_src: false,
            local_latch: Latch::Op0,
            alu: AluOp::OffsetWithExtraCycle(offset_type),
        }
    }

    /// Write the data latch to EA.
    #[verifier::allow_in_spec]
    pub fn alu_write() -> Self
        returns
            (MicroCycle {
                bus: BusCycle { addr: Latch::Ea, vda: true, vpa: false, read: false },
                inc_src: false,
                local_latch: Latch::Discard,
                alu: AluOp::Idle,
            }),
    {
        MicroCycle {
            bus: BusCycle {
                addr: Latch::Ea,  // write dest
                vda: true,
                vpa: false,
                read: false,
            },
            inc_src: false,
            local_latch: Latch::Discard,
            alu: AluOp::Idle,
        }
    }

    /// The modify cycle of a read-modify-write: a dummy read (`read`) or dummy write of EA,
    /// then the ALU operation.
    #[verifier::allow_in_spec]
    pub fn alu_modify(read: bool) -> Self
        returns
            (MicroCycle {
                bus: BusCycle { addr: Latch::Ea, vda: true, vpa: false, read },
                inc_src: false,
                local_latch: Latch::Discard,
                alu: AluOp::Modify,
            }),
    {
        MicroCycle {
            bus: BusCycle { addr: Latch::Ea, vda: true, vpa: false, read },
            inc_src: false,
            local_latch: Latch::Discard,
            alu: AluOp::Modify,
        }
    }

    /// Write the data latch to the stack and decrement S.
    #[verifier::allow_in_spec]
    pub fn alu_push() -> Self
        returns
            (MicroCycle {
                bus: BusCycle { addr: Latch::Sp, vda: true, vpa: false, read: false },
                inc_src: false,
                local_latch: Latch::Discard,
                alu: AluOp::DecSp,
            }),
    {
        MicroCycle {
            bus: BusCycle { addr: Latch::Sp, vda: true, vpa: false, read: false },
            inc_src: false,
            local_latch: Latch::Discard,
            alu: AluOp::DecSp,
        }
    }

    /// A read at PC into `dest` that performs `alu` afterwards, VPA high.
    #[verifier::allow_in_spec]
    pub fn fetch_with(dest: Latch, inc_src: bool, alu: AluOp) -> Self
        returns
            (MicroCycle {
                bus: BusCycle { addr: Latch::Pc, vda: false, vpa: true, read: true },
                inc_src,
                local_latch: dest,
                alu,
            }),
    {
        MicroCycle {
            bus: BusCycle { addr: Latch::Pc, vda: false, vpa: true, read: true },
            inc_src,
            local_latch: dest,
            alu,
        }
    }
}

/// What the decoder knows when it emits an instruction's cycles.
#[derive(Debug, Clone, Copy, PartialEq, Eq, Structural)]
pub struct DecodeContext {
    pub e_flag: bool,
    pub m_flag: bool,
    pub x_flag: bool,
    pub action: MemoryAction,
    /// Whether the modify cycle of a read-modify-write reads (CMOS) instead of writing back.
    pub modify_read: bool,
    pub opcode: u8,
}

/// The queue is empty and rewound: an instruction's cycles can be emitted into it.
pub open spec fn ready_for_decode(q: UcycQueue) -> bool {
    q.wf() && q@.len() == 0 && q.room() == MAX_UCYC
}

/// Implied and accumulator modes: a dummy read of the byte after the opcode.
pub open spec fn implied_cycles() -> Seq<MicroCycle> {
    seq![MicroCycle::read(Latch::Pc, Latch::Discard, false)]
}

/// Immediate mode: the operand byte is read into Op0.
pub open spec fn immediate_cycles() -> Seq<MicroCycle> {
    seq![MicroCycle::read(Latch::Pc, Latch::Op0, true)]
}

/// Direct page, optionally indexed: the indexed form first reads the unindexed address.
pub open spec fn dp_cycles(ctx: DecodeContext, offset: OffsetType) -> Seq<MicroCycle> {
    seq![MicroCycle::read(Latch::Pc, Latch::EaLo, true)] + (if offset != OffsetType::NoOffset {
        seq![MicroCycle::read_and_offset(Latch::EaLo, offset)]
    } else {
        Seq::empty()
    }) + MicroCycle::finish_cycles(ctx)
}

/// Absolute, optionally indexed.
pub open spec fn absolute_cycles(ctx: DecodeContext, offset: OffsetType) -> Seq<MicroCycle> {
    seq![
        MicroCycle::read(Latch::Pc, Latch::EaLo, true),
        MicroCycle::read(Latch::Pc, Latch::EaHi, true),
    ] + (if offset != OffsetType::NoOffset {
        seq![MicroCycle::offset_opt_fix(offset)]
    } else {
        Seq::empty()
    }) + MicroCycle::finish_cycles(ctx)
}

/// Direct page indirect: `(dp,X)` indexes the pointer, `(dp),Y` indexes the address.
pub open spec fn dp_ind_cycles(ctx: DecodeContext, offset: OffsetType) -> Seq<MicroCycle> {
    seq![MicroCycle::read(Latch::Pc, Latch::PtrLo, true)] + (if offset == OffsetType::X {
        seq![MicroCycle::read_and_offset(Latch::PtrLo, offset)]
    } else {
        Seq::empty()
    }) + seq![
        MicroCycle::read(Latch::PtrLo, Latch::EaLo, true),
        MicroCycle::read(Latch::PtrLo, Latch::EaHi, false),
    ] + (if offset == OffsetType::Y {
        seq![MicroCycle::offset_opt_fix(offset)]
    } else {
        Seq::empty()
    }) + MicroCycle::finish_cycles(ctx)
}

/// Push (write action) or pull (read action).
pub open spec fn stack_cycles(ctx: DecodeContext) -> Seq<MicroCycle> {
    seq![MicroCycle::read(Latch::Pc, Latch::Discard, false)] + (if ctx.action
        == MemoryAction::Read {
        seq![
            MicroCycle::read(Latch::Sp, Latch::Discard, true),
            MicroCycle::read(Latch::Sp, Latch::Op0, false),
        ]
    } else {
        seq![MicroCycle::alu_push()]
    })
}

/// JMP absolute: the high address byte is fetched as PC jumps.
pub open spec fn jmpabs_cycles() -> Seq<MicroCycle> {
    seq![
        MicroCycle::read(Latch::Pc, Latch::EaLo, true),
        MicroCycle::fetch_with(Latch::EaHi, true, AluOp::JumpToEa),
    ]
}

/// Relative branch: the offset is fetched while the condition is evaluated; the branch adds
/// its own cycles when taken.
pub open spec fn branch_rel_cycles() -> Seq<MicroCycle> {
    seq![MicroCycle::fetch_with(Latch::SignedOffset8, true, AluOp::Branch)]
}

/// BBR/BBS: the tested byte is read from the direct page before the offset.
pub open spec fn branch_dprel_cycles() -> Seq<MicroCycle> {
    seq![
        MicroCycle::read(Latch::Pc, Latch::EaLo, true),
        MicroCycle::read(Latch::Ea, Latch::Op0, false),
        MicroCycle::fetch_with(Latch::SignedOffset8, true, AluOp::Branch),
    ]
}

/// BRK: skip the signature byte, push PC and status (with B), load the IRQ/BRK vector.
pub open spec fn brk_cycles() -> Seq<MicroCycle> {
    seq![
        MicroCycle::read(Latch::Pc, Latch::Discard, true),
        MicroCycle::push(Latch::PcHi),
        MicroCycle::push(Latch::PcLo),
        MicroCycle::push(Latch::BrkStatus),
        MicroCycle::read(Latch::Constant(0xFFFE), Latch::PcLo, false),
        MicroCycle::read(Latch::Constant(0xFFFF), Latch::PcHi, false),
    ]
}

/// The address of the low byte of an interrupt's vector.
pub open spec fn vector_of(int_type: InterruptType) -> u16 {
    match int_type {
        InterruptType::Nmi => 0xFFFA,
        _ => 0xFFFE,
    }
}

/// Hardware interrupt entry: two dummy reads of PC (the first in place of the opcode fetch),
/// push PC and status (without B), load the vector.
pub open spec fn int_cycles(int_type: InterruptType) -> Seq<MicroCycle> {
    seq![
        MicroCycle::read(Latch::Pc, Latch::Discard, false),
        MicroCycle::read(Latch::Pc, Latch::Discard, false),
        MicroCycle::push(Latch::PcHi),
        MicroCycle::push(Latch::PcLo),
        MicroCycle::push(Latch::Status),
        MicroCycle::read(Latch::Constant(vector_of(int_type)), Latch::PcLo, false),
        MicroCycle::read(Latch::Constant((vector_of(int_type) + 1) as u16), Latch::PcHi, false),
    ]
}

/// RTI: pull status, then PC.
pub open spec fn rti_cycles() -> Seq<MicroCycle> {
    seq![
        MicroCycle::read(Latch::Pc, Latch::Discard, false),
        MicroCycle::read(Latch::Sp, Latch::Discard, true),
        MicroCycle::read(Latch::Sp, Latch::Status, true),
        MicroCycle::read(Latch::Sp, Latch::PcLo, true),
        MicroCycle::read(Latch::Sp, Latch::PcHi, false),
    ]
}

/// JAM: a few predictable reads, then the same read of $FFFF forever (the last cycle puts
/// itself back at the front of the queue).
pub open spec fn jam_cycles() -> Seq<MicroCycle> {
    seq![
        MicroCycle::read(Latch::Pc, Latch::Discard, false),
        MicroCycle::read(Latch::Constant(0xFFFF), Latch::Discard, false),
        MicroCycle::read(Latch::Constant(0xFFFE), Latch::Discard, false),
        MicroCycle::read(Latch::Constant(0xFFFE), Latch::Discard, false),
        MicroCycle {
            bus: BusCycle { addr: Latch::Constant(0xFFFF), vda: false, vpa: false, read: true },
            inc_src: false,
            local_latch: Latch::Discard,
            alu: AluOp::Jam,
        },
    ]
}

/// Undocumented 65C02 NOPs: a three-byte, three-cycle NOP consumes both operand bytes;
/// otherwise PC advances only on the first and third of the remaining cycles.
pub open spec fn cmos_nop_cycles(bytes: u8, cycles: u8) -> Seq<MicroCycle> {
    if bytes == 3 && cycles == 3 {
        seq![
            MicroCycle::read(Latch::Pc, Latch::Discard, true),
            MicroCycle::read(Latch::Pc, Latch::Discard, true),
        ]
    } else if cycles <= 1 {
        Seq::empty()
    } else {
        Seq::new((cycles - 1) as nat, |i: int| MicroCycle::read(Latch::Pc, Latch::Discard, i == 0 || i == 2))
    }
}

/// Latches that can supply a bus address.
pub open spec fn addressable(l: Latch) -> bool {
    ||| l is Constant
    ||| l == Latch::Pc
    ||| l == Latch::Sp
    ||| l == Latch::Ea
    ||| l == Latch::EaLo
    ||| l == Latch::Ptr
    ||| l == Latch::PtrLo
}

/// Latches that an offset can be added to.
pub open spec fn steppable(l: Latch) -> bool {
    ||| l == Latch::Pc
    ||| l == Latch::PcLo
    ||| l == Latch::Sp
    ||| l == Latch::Ea
    ||| l == Latch::EaLo
    ||| l == Latch::Ptr
    ||| l == Latch::PtrLo
}

/// A cycle the executor can run: its address comes from an address latch, and every
/// increment or offset applies to a latch that can take one.
pub open spec fn valid_cycle(u: MicroCycle) -> bool {
    &&& addressable(u.bus.addr)
    &&& (u.inc_src ==> steppable(u.bus.addr))
    &&& match u.alu {
        AluOp::AddOffset { latch, offset: _ } => steppable(latch),
        AluOp::IncLatch(l) => steppable(l),
        _ => true,
    }
}

/// Runnable cycles, of which only the last may evaluate a branch.
pub open spec fn valid_cycles(s: Seq<MicroCycle>) -> bool {
    forall|i: int|
        0 <= i < s.len() ==> valid_cycle(#[trigger] s[i]) && (s[i].alu is Branch ==> i == s.len()
            - 1)
}

/// A queue the executor can run: its cycles are valid, and a pending branch has room for the
/// cycles it may add.
pub open spec fn runnable(q: UcycQueue) -> bool {
    &&& q.wf()
    &&& valid_cycles(q@)
    &&& (q@.len() > 0 && q@.last().alu is Branch ==> q.room() >= 2)
}

/// Overrideable MicroCode emitters!
///
/// Each emitter appends the cycles of one addressing mode to the cycles already queued.
pub trait MicroCode {
    /// The cycles of JMP (abs) and JMP (abs,X) on this part.
    spec fn jmpind_cycles(offset: OffsetType) -> Seq<MicroCycle>;

    /// The cycles of JSR on this part.
    spec fn jsr_cycles() -> Seq<MicroCycle>;

    /// The cycles of RTS on this part.
    spec fn rts_cycles() -> Seq<MicroCycle>;

    /// The part's own sequences are runnable and fit an empty queue.
    proof fn lemma_part_cycles_valid()
        ensures
            valid_cycles(Self::jmpind_cycles(OffsetType::NoOffset)),
            valid_cycles(Self::jmpind_cycles(OffsetType::X)),
            valid_cycles(Self::jsr_cycles()),
            valid_cycles(Self::rts_cycles()),
            Self::jmpind_cycles(OffsetType::NoOffset).len() <= 8,
            Self::jmpind_cycles(OffsetType::X).len() <= 8,
            Self::jsr_cycles().len() <= 8,
            Self::rts_cycles().len() <= 8,
    ;

    fn emit_implied(queue: &mut UcycQueue, _ctx: DecodeContext)
        requires
            old(queue).wf(),
            old(queue).room() >= implied_cycles().len(),
        ensures
            final(queue).wf(),
            final(queue).popped() == old(queue).popped(),
            final(queue).room() == old(queue).room() - implied_cycles().len(),
            final(queue)@ == old(queue)@ + implied_cycles(),
    {
        let ghost q0 = queue@;
        queue.push(MicroCycle::read(Latch::Pc, Latch::Discard, false));
        proof {
            assert(queue@ =~= q0 + implied_cycles());
        }
    }

    fn emit_immediate(queue: &mut UcycQueue, _ctx: DecodeContext)
        requires
            old(queue).wf(),
            old(queue).room() >= immediate_cycles().len(),
        ensures
            final(queue).wf(),
            final(queue).popped() == old(queue).popped(),
            final(queue).room() == old(queue).room() - immediate_cycles().len(),
            final(queue)@ == old(queue)@ + immediate_cycles(),
    {
        let ghost q0 = queue@;
        queue.push(MicroCycle::read(Latch::Pc, Latch::Op0, true));
        proof {
            assert(queue@ =~= q0 + immediate_cycles());
        }
    }

    fn emit_dp(queue: &mut UcycQueue, ctx: DecodeContext, offset: OffsetType)
        requires
            old(queue).wf(),
            old(queue).room() >= dp_cycles(ctx, offset).len(),
        ensures
            final(queue).wf(),
            final(queue).popped() == old(queue).popped(),
            final(queue).room() == old(queue).room() - dp_cycles(ctx, offset).len(),
            final(queue)@ == old(queue)@ + dp_cycles(ctx, offset),
    {
        let ghost q0 = queue@;
        queue.push(MicroCycle::read(Latch::Pc, Latch::EaLo, true));
        if offset != OffsetType::NoOffset {
            queue.push(MicroCycle::read_and_offset(Latch::EaLo, offset));
        }
        MicroCycle::finish_action(queue, ctx);
        proof {
            assert(queue@ =~= q0 + dp_cycles(ctx, offset));
        }
    }

    fn emit_absolute(queue: &mut UcycQueue, ctx: DecodeContext, offset: OffsetType)
        requires
            old(queue).wf(),
            old(queue).room() >= absolute_cycles(ctx, offset).len(),
        ensures
            final(queue).wf(),
            final(queue).popped() == old(queue).popped(),
            final(queue).room() == old(queue).room() - absolute_cycles(ctx, offset).len(),
            final(queue)@ == old(queue)@ + absolute_cycles(ctx, offset),
    {
        let ghost q0 = queue@;
        queue.push(MicroCycle::read(Latch::Pc, Latch::EaLo, true));
        queue.push(MicroCycle::read(Latch::Pc, Latch::EaHi, true));
        if offset != OffsetType::NoOffset {
            queue.push(MicroCycle::offset_opt_fix(offset));
        }
        MicroCycle::finish_action(queue, ctx);
        proof {
            assert(queue@ =~= q0 + absolute_cycles(ctx, offset));
        }
    }

    fn emit_dp_ind(queue: &mut UcycQueue, ctx: DecodeContext, offset: OffsetType)
        requires
            old(queue).wf(),
            old(queue).room() >= dp_ind_cycles(ctx, offset).len(),
        ensures
            final(queue).wf(),
            final(queue).popped() == old(queue).popped(),
            final(queue).room() == old(queue).room() - dp_ind_cycles(ctx, offset).len(),
            final(queue)@ == old(queue)@ + dp_ind_cycles(ctx, offset),
    {
        let ghost q0 = queue@;
        let x = offset == OffsetType::X;
        let y = offset == OffsetType::Y;
        queue.push(MicroCycle::read(Latch::Pc, Latch::PtrLo, true));
        if x {
            // always one cycle because DP overflows through u8, no need to fix high byte
            queue.push(MicroCycle::read_and_offset(Latch::PtrLo, offset));
        }
        queue.push(MicroCycle::read(Latch::PtrLo, Latch::EaLo, true));  // read from address in Ptr into EaLow
        queue.push(MicroCycle::read(Latch::PtrLo, Latch::EaHi, false));  // read from address in Ptr+1 (with DP wraparound) into EaHigh
        if y {
            queue.push(MicroCycle::offset_opt_fix(offset))
        }
        MicroCycle::finish_action(queue, ctx);
        proof {
            assert(queue@ =~= q0 + dp_ind_cycles(ctx, offset));
        }
    }

    fn emit_stack(queue: &mut UcycQueue, ctx: DecodeContext)
        requires
            old(queue).wf(),
            old(queue).room() >= stack_cycles(ctx).len(),
            ctx.action != MemoryAction::ReadModifyWrite,
        ensures
            final(queue).wf(),
            final(queue).popped() == old(queue).popped(),
            final(queue).room() == old(queue).room() - stack_cycles(ctx).len(),
            final(queue)@ == old(queue)@ + stack_cycles(ctx),
    {
        let ghost q0 = queue@;
        queue.push(MicroCycle::read(Latch::Pc, Latch::Discard, false));  // dummy read whether push or pull
        if ctx.action == MemoryAction::Read {
            queue.push(MicroCycle::read(Latch::Sp, Latch::Discard, true));  // inc Sp first
            queue.push(MicroCycle::read(Latch::Sp, Latch::Op0, false));  // pull into Op0
        } else {
            queue.push(MicroCycle::alu_push());  // one cycle to push and also dec sp
        }
        proof {
            assert(queue@ =~= q0 + stack_cycles(ctx));
        }
    }

    fn emit_jmpabs(queue: &mut UcycQueue, _ctx: DecodeContext)
        requires
            old(queue).wf(),
            old(queue).room() >= jmpabs_cycles().len(),
        ensures
            final(queue).wf(),
            final(queue).popped() == old(queue).popped(),
            final(queue).room() == old(queue).room() - jmpabs_cycles().len(),
            final(queue)@ == old(queue)@ + jmpabs_cycles(),
    {
        let ghost q0 = queue@;
        queue.push(MicroCycle::read(Latch::Pc, Latch::EaLo, true));
        queue.push(MicroCycle::fetch_with(Latch::EaHi, true, AluOp::JumpToEa));
        proof {
            assert(queue@ =~= q0 + jmpabs_cycles());
        }
    }

    fn emit_jmpind(queue: &mut UcycQueue, ctx: DecodeContext, offset: OffsetType)
        requires
            old(queue).wf(),
            old(queue).room() >= Self::jmpind_cycles(offset).len(),
        ensures
            final(queue).wf(),
            final(queue).popped() == old(queue).popped(),
            final(queue).room() == old(queue).room() - Self::jmpind_cycles(offset).len(),
            final(queue)@ == old(queue)@ + Self::jmpind_cycles(offset),
    ;

    fn emit_jsr(queue: &mut UcycQueue, ctx: DecodeContext)
        requires
            old(queue).wf(),
            old(queue).room() >= Self::jsr_cycles().len(),
        ensures
            final(queue).wf(),
            final(queue).popped() == old(queue).popped(),
            final(queue).room() == old(queue).room() - Self::jsr_cycles().len(),
            final(queue)@ == old(queue)@ + Self::jsr_cycles(),
    ;

    fn emit_rts(queue: &mut UcycQueue, ctx: DecodeContext)
        requires
            old(queue).wf(),
            old(queue).room() >= Self::rts_cycles().len(),
        ensures
            final(queue).wf(),
            final(queue).popped() == old(queue).popped(),
            final(queue).room() == old(queue).room() - Self::rts_cycles().len(),
            final(queue)@ == old(queue)@ + Self::rts_cycles(),
    ;

    fn emit_branch_rel(queue: &mut UcycQueue, _ctx: DecodeContext)
        requires
            old(queue).wf(),
            old(queue).room() >= branch_rel_cycles().len(),
        ensures
            final(queue).wf(),
            final(queue).popped() == old(queue).popped(),
            final(queue).room() == old(queue).room() - branch_rel_cycles().len(),
            final(queue)@ == old(queue)@ + branch_rel_cycles(),
    {
        let ghost q0 = queue@;
        // on this cycle, we read the signed offset while at the same time deciding whether to branch.
        // if not, this is the only cycle; next cycle is opcode fetch.
        queue.push(MicroCycle::fetch_with(Latch::SignedOffset8, true, AluOp::Branch));
        // either way, AluOp::Branch is going to add the rest of the cycles
        proof {
            assert(queue@ =~= q0 + branch_rel_cycles());
        }
    }

    fn emit_branch_dprel(queue: &mut UcycQueue, _ctx: DecodeContext)
        requires
            old(queue).wf(),
            old(queue).room() >= branch_dprel_cycles().len(),
        ensures
            final(queue).wf(),
            final(queue).popped() == old(queue).popped(),
            final(queue).room() == old(queue).room() - branch_dprel_cycles().len(),
            final(queue)@ == old(queue)@ + branch_dprel_cycles(),
    {
        let ghost q0 = queue@;
        queue.push(MicroCycle::read(Latch::Pc, Latch::EaLo, true));
        queue.push(MicroCycle::read(Latch::Ea, Latch::Op0, false));
        queue.push(MicroCycle::fetch_with(Latch::SignedOffset8, true, AluOp::Branch));
        // as above, AluOp::Branch fills out the queue from here
        proof {
            assert(queue@ =~= q0 + branch_dprel_cycles());
        }
    }

    fn emit_brk(queue: &mut UcycQueue, _ctx: DecodeContext)
        requires
            old(queue).wf(),
            old(queue).room() >= brk_cycles().len(),
        ensures
            final(queue).wf(),
            final(queue).popped() == old(queue).popped(),
            final(queue).room() == old(queue).room() - brk_cycles().len(),
            final(queue)@ == old(queue)@ + brk_cycles(),
    {
        let ghost q0 = queue@;
        queue.push(MicroCycle::read(Latch::Pc, Latch::Discard, true));
        queue.push(MicroCycle::push(Latch::PcHi));
        queue.push(MicroCycle::push(Latch::PcLo));
        queue.push(MicroCycle::push(Latch::BrkStatus));
        queue.push(MicroCycle::read(Latch::Constant(0xFFFE), Latch::PcLo, false));
        queue.push(MicroCycle::read(Latch::Constant(0xFFFF), Latch::PcHi, false));
        proof {
            assert(queue@ =~= q0 + brk_cycles());
        }
    }

    fn emit_int(queue: &mut UcycQueue, _ctx: DecodeContext, int_type: InterruptType)
        requires
            old(queue).wf(),
            old(queue).room() >= int_cycles(int_type).len(),
        ensures
            final(queue).wf(),
            final(queue).popped() == old(queue).popped(),
            final(queue).room() == old(queue).room() - int_cycles(int_type).len(),
            final(queue)@ == old(queue)@ + int_cycles(int_type),
    {
        let ghost q0 = queue@;
        let vector: u16 = match int_type {
            InterruptType::Nmi => 0xFFFA,
            _ => 0xFFFE,
        };
        queue.push(MicroCycle::read(Latch::Pc, Latch::Discard, false));
        queue.push(MicroCycle::read(Latch::Pc, Latch::Discard, false));
        queue.push(MicroCycle::push(Latch::PcHi));
        queue.push(MicroCycle::push(Latch::PcLo));
        queue.push(MicroCycle::push(Latch::Status));
        queue.push(MicroCycle::read(Latch::Constant(vector), Latch::PcLo, false));
        queue.push(MicroCycle::read(Latch::Constant(vector + 1), Latch::PcHi, false));
        proof {
            assert(queue@ =~= q0 + int_cycles(int_type));
        }
    }

    fn emit_rti(queue: &mut UcycQueue, _ctx: DecodeContext)
        requires
            old(queue).wf(),
            old(queue).room() >= rti_cycles().len(),
        ensures
            final(queue).wf(),
            final(queue).popped() == old(queue).popped(),
            final(queue).room() == old(queue).room() - rti_cycles().len(),
            final(queue)@ == old(queue)@ + rti_cycles(),
    {
        let ghost q0 = queue@;
        queue.push(MicroCycle::read(Latch::Pc, Latch::Discard, false));
        queue.push(MicroCycle::read(Latch::Sp, Latch::Discard, true));
        queue.push(MicroCycle::read(Latch::Sp, Latch::Status, true));
        queue.push(MicroCycle::read(Latch::Sp, Latch::PcLo, true));
        queue.push(MicroCycle::read(Latch::Sp, Latch::PcHi, false));
        proof {
            assert(queue@ =~= q0 + rti_cycles());
        }
    }

    fn emit_jam(queue: &mut UcycQueue, _ctx: DecodeContext)
        requires
            old(queue).wf(),
            old(queue).room() >= jam_cycles().len(),
        ensures
            final(queue).wf(),
            final(queue).popped() == old(queue).popped(),
            final(queue).room() == old(queue).room() - jam_cycles().len(),
            final(queue)@ == old(queue)@ + jam_cycles(),
    {
        let ghost q0 = queue@;
        queue.push(MicroCycle::read(Latch::Pc, Latch::Discard, false));
        queue.push(MicroCycle::read(Latch::Constant(0xFFFF), Latch::Discard, false));
        queue.push(MicroCycle::read(Latch::Constant(0xFFFE), Latch::Discard, false));
        queue.push(MicroCycle::read(Latch::Constant(0xFFFE), Latch::Discard, false));
        queue.push(
            MicroCycle {
                bus: BusCycle { addr: Latch::Constant(0xFFFF), vda: false, vpa: false, read: true },
                inc_src: false,
                local_latch: Latch::Discard,
                alu: AluOp::Jam,
            },
        );
        proof {
            assert(queue@ =~= q0 + jam_cycles());
        }
    }

    fn emit_cmos_nop(queue: &mut UcycQueue, _ctx: DecodeContext, bytes: u8, cycles: u8)
        requires
            old(queue).wf(),
            old(queue).room() >= cmos_nop_cycles(bytes, cycles).len(),
        ensures
            final(queue).wf(),
            final(queue).popped() == old(queue).popped(),
            final(queue).room() == old(queue).room() - cmos_nop_cycles(bytes, cycles).len(),
            final(queue)@ == old(queue)@ + cmos_nop_cycles(bytes, cycles),
    {
        let ghost q0 = queue@;
        // Synertek's three-cycle NOP consumes both operand bytes without a dummy read
        if bytes == 3 && cycles == 3 {
            queue.push(MicroCycle::read(Latch::Pc, Latch::Discard, true));
            queue.push(MicroCycle::read(Latch::Pc, Latch::Discard, true));
            proof {
                assert(queue@ =~= q0 + cmos_nop_cycles(bytes, cycles));
            }
            return;
        }
        // Otherwise, WDC and Rockwell (and non CB/DB Synertek NOPs) only inc Pc every other cycle
        let ghost room0 = queue.room();
        let mut i: u8 = 0;
        while i + 1 < cycles
            invariant
                queue.wf(),
                !(bytes == 3 && cycles == 3),
                room0 >= cmos_nop_cycles(bytes, cycles).len(),
                queue.room() == room0 - i,
                queue.popped() == old(queue).popped(),
                i + 1 <= cycles || i == 0,
                queue@ =~= q0 + Seq::new(
                    i as nat,
                    |k: int| MicroCycle::read(Latch::Pc, Latch::Discard, k == 0 || k == 2),
                ),
            decreases cycles - i,
        {
            queue.push(MicroCycle::read(Latch::Pc, Latch::Discard, i == 0 || i == 2));
            i = i + 1;
        }
        proof {
            assert(queue@ =~= q0 + cmos_nop_cycles(bytes, cycles));
        }
    }
}

} // verus!
