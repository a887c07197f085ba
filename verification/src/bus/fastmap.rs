//! Fast, page-mapped bus for 65x cores.
//!
//! Goal: O(1) RAM/ROM access using a page table.
//! This bus intentionally does not model IO dispatch; clients should intercept IO ranges and
//! handle side effects externally, then delegate pure memory to FastMapBus.
//!
//! A RAM or ROM page is the caller's own memory, borrowed for as long as the bus lives: reads
//! and writes go straight to it, and once the bus is gone the caller finds every write there.
use vstd::prelude::*;
use vstd::arithmetic::power2::pow2;

use super::{
    inactive_lines, last_driven, read_access, write_access, Bus, BusAccess, Lines, OpenBus, WaitStates,
};

verus! {

/// What a page of the address space is mapped to.
#[derive(Clone, Copy, Debug, PartialEq, Eq, Structural)]
pub enum PageKind {
    /// Nothing drives the bus: reads return the last value seen on the bus.
    Open,
    /// Readable and writable memory.
    Ram,
    /// Read-only memory: writes are ignored.
    Rom,
}

/// One entry of the page table: nothing, or the caller's memory backing the page.
enum Page<'a> {
    Open,
    Ram(&'a mut [u8]),
    Rom(&'a [u8]),
}

/// FastMapBus page table: fixed-size after construction.
pub struct FastMapBus<'a, const ADDR_BITS: u32, const PAGE_SHIFT: u32> {
    pages: Vec<Page<'a>>,
    num_pages: usize,
    page_size: usize,
    addr_space: u32,
    lines: Lines,
    open: OpenBus,
    log: Ghost<Seq<BusAccess>>,
    sampled: Ghost<Seq<Lines>>,
}

// Common instantiations
pub type FastMapBus24<'a> = FastMapBus<'a, 24, 12>;

pub type FastMapBus16<'a> = FastMapBus<'a, 16, 12>;

pub type FastMapBus14<'a> = FastMapBus<'a, 14, 12>;

/// Page index of `addr` in an address space of `2^bits` bytes cut into pages of `2^shift`.
pub open spec fn page_index_of(bits: u32, shift: u32, addr: u32) -> int {
    (addr as int % pow2(bits as nat) as int) / pow2(shift as nat) as int
}

/// Offset of `addr` within its page of `2^shift` bytes.
pub open spec fn page_offset_of(shift: u32, addr: u32) -> int {
    addr as int % pow2(shift as nat) as int
}

/// The page index is the usual mask-and-shift: keep the low `bits` bits of the address, then
/// drop the low `shift` bits of the result. So `map_ram_page_at(addr, ..)` maps the page
/// `(addr & ((1 << bits) - 1)) >> shift`, the same one `map_ram_page_idx` maps at that index;
/// address bits at or above `bits` are ignored.
pub proof fn lemma_page_index_is_mask_and_shift(bits: u32, shift: u32, addr: u32)
    requires
        shift < bits <= 24,
    ensures
        page_index_of(bits, shift, addr) == ((addr & (((1u32 << bits) - 1) as u32)) >> shift) as int,
        page_offset_of(shift, addr) == (addr & (((1u32 << shift) - 1) as u32)) as int,
{
    vstd::arithmetic::power2::lemma2_to64();
    vstd::arithmetic::power2::lemma_pow2_pos(bits as nat);
    vstd::arithmetic::power2::lemma_pow2_pos(shift as nat);
    if bits < 24 {
        vstd::arithmetic::power2::lemma_pow2_strictly_increases(bits as nat, 24);
    }
    vstd::arithmetic::power2::lemma_pow2_strictly_increases(shift as nat, 24);
    vstd::bits::lemma_u32_shl_is_mul(1, bits);
    vstd::bits::lemma_u32_shl_is_mul(1, shift);
    vstd::bits::lemma_u32_low_bits_mask_is_mod(addr, bits as nat);
    vstd::bits::lemma_u32_low_bits_mask_is_mod(addr, shift as nat);
    let m = addr & (((1u32 << bits) - 1) as u32);
    assert(m == addr % (pow2(bits as nat) as u32));
    vstd::bits::lemma_u32_shr_is_div(m, shift);
}

fn pow2_exec(k: u32) -> (r: u32)
    requires
        k <= 24,
    ensures
        r == pow2(k as nat),
        0 < r <= 0x100_0000,
{
    proof {
        vstd::arithmetic::power2::lemma2_to64();
    }
    let mut r: u32 = 1;
    let mut i: u32 = 0;
    while i < k
        invariant
            i <= k <= 24,
            r == pow2(i as nat),
            0 < r <= 0x100_0000,
        decreases k - i,
    {
        proof {
            vstd::arithmetic::power2::lemma_pow2_unfold((i + 1) as nat);
            vstd::arithmetic::power2::lemma2_to64();
            if i + 1 < 24 {
                vstd::arithmetic::power2::lemma_pow2_strictly_increases((i + 1) as nat, 24);
            }
        }
        r = r * 2;
        i = i + 1;
    }
    r
}

/// Facts about the sizes of a well-formed bus.
proof fn lemma_sizes(bits: u32, shift: u32)
    requires
        shift < bits <= 24,
    ensures
        0 < pow2(shift as nat) <= 0x100_0000,
        0 < pow2(bits as nat) <= 0x100_0000,
        0 < pow2((bits - shift) as nat) <= 0x100_0000,
        pow2(bits as nat) == pow2((bits - shift) as nat) * pow2(shift as nat),
{
    vstd::arithmetic::power2::lemma2_to64();
    vstd::arithmetic::power2::lemma_pow2_pos(shift as nat);
    vstd::arithmetic::power2::lemma_pow2_pos(bits as nat);
    vstd::arithmetic::power2::lemma_pow2_pos((bits - shift) as nat);
    if shift < 24 {
        vstd::arithmetic::power2::lemma_pow2_strictly_increases(shift as nat, 24);
    }
    if bits < 24 {
        vstd::arithmetic::power2::lemma_pow2_strictly_increases(bits as nat, 24);
    }
    if bits - shift < 24 {
        vstd::arithmetic::power2::lemma_pow2_strictly_increases((bits - shift) as nat, 24);
    }
    vstd::arithmetic::power2::lemma_pow2_adds((bits - shift) as nat, shift as nat);
}

impl<'a, const ADDR_BITS: u32, const PAGE_SHIFT: u32> FastMapBus<'a, ADDR_BITS, PAGE_SHIFT> {
    /// Number of pages in the address space.
    pub open spec fn spec_num_pages() -> nat {
        pow2((ADDR_BITS - PAGE_SHIFT) as nat)
    }

    /// Bytes per page.
    pub open spec fn spec_page_size() -> nat {
        pow2(PAGE_SHIFT as nat)
    }

    /// The mapping of page `i`.
    pub closed spec fn kind(&self, i: int) -> PageKind {
        match self.pages@[i] {
            Page::Open => PageKind::Open,
            Page::Ram(_) => PageKind::Ram,
            Page::Rom(_) => PageKind::Rom,
        }
    }

    /// The bytes of page `i`: the caller's memory behind a RAM or ROM page, nothing for an
    /// open page.
    pub closed spec fn bytes(&self, i: int) -> Seq<u8> {
        match self.pages@[i] {
            Page::Open => Seq::empty(),
            Page::Ram(r) => r@,
            Page::Rom(r) => r@,
        }
    }

    /// The caller's memory behind RAM page `i`, as the bus borrowed it: `final` of it is what
    /// the caller finds there once the bus lets go of it.
    pub closed spec fn ram(&self, i: int) -> &'a mut [u8] {
        match self.pages@[i] {
            Page::Ram(r) => r,
            _ => arbitrary(),
        }
    }

    /// The last value driven onto the bus.
    pub closed spec fn open_value(&self) -> u8 {
        self.open@
    }

    /// The lines the bus reports when sampled.
    pub closed spec fn spec_lines(&self) -> Lines {
        self.lines
    }

    /// A mapped page holds exactly one page of bytes.
    closed spec fn full_page(p: Page<'a>) -> bool {
        match p {
            Page::Open => true,
            Page::Ram(r) => r@.len() == Self::spec_page_size(),
            Page::Rom(r) => r@.len() == Self::spec_page_size(),
        }
    }

    /// The page table has one entry per page and every mapped page holds a full page of bytes.
    /// Every bus made by [`FastMapBus::new`] is well formed and every operation keeps it so.
    pub closed spec fn wf(&self) -> bool {
        &&& PAGE_SHIFT < ADDR_BITS <= 24
        &&& self.num_pages == Self::spec_num_pages()
        &&& self.page_size == Self::spec_page_size()
        &&& self.addr_space == pow2(ADDR_BITS as nat)
        &&& self.addr_space == self.num_pages * self.page_size
        &&& self.pages@.len() == self.num_pages
        &&& self.open@ == last_driven(self.log@)
        &&& forall|i: int|
            0 <= i < self.num_pages ==> Self::full_page(#[trigger] self.pages@[i])
    }

    /// Nothing else than page `i` changed its mapping or bytes, and every other RAM page is
    /// still the same borrow of the caller's memory.
    pub open spec fn same_pages_except(&self, other: &Self, i: int) -> bool {
        forall|j: int|
            0 <= j < Self::spec_num_pages() && j != i ==> #[trigger] self.kind(j) == other.kind(j)
                && self.bytes(j) == other.bytes(j) && self.ram(j) == other.ram(j)
    }

    /// The byte a read of `addr` returns: the page's byte for RAM and ROM, the last value
    /// driven onto the bus for an open page.
    pub open spec fn read_value(&self, addr: u32) -> u8 {
        let i = page_index_of(ADDR_BITS, PAGE_SHIFT, addr);
        if self.kind(i) == PageKind::Open {
            self.open_value()
        } else {
            self.bytes(i)[page_offset_of(PAGE_SHIFT, addr)]
        }
    }

    /// `after` is `before` once `data` was written to `addr`: a RAM page stores it, ROM and
    /// open pages keep their contents, nothing else changes but the value on the bus.
    pub open spec fn written(before: Self, after: Self, addr: u32, data: u8) -> bool {
        let i = page_index_of(ADDR_BITS, PAGE_SHIFT, addr);
        let o = page_offset_of(PAGE_SHIFT, addr);
        &&& before.kind(i) == PageKind::Ram ==> after.bytes(i) == before.bytes(i).update(o, data)
        &&& before.kind(i) != PageKind::Ram ==> after.bytes(i) == before.bytes(i)
        &&& after.kind(i) == before.kind(i)
        &&& after.same_pages_except(&before, i)
        &&& after.open_value() == data
    }

    /// The open bus holds the byte of the last access made on the bus, whatever page it went
    /// to: the byte a read returned or a write drove, or 0 before any access. So a read of an
    /// open page returns the byte of the access before it.
    pub proof fn lemma_open_bus_is_last_access(&self)
        requires
            self.wf(),
        ensures
            self.open_value() == last_driven(self.accesses()),
    {
    }

    /// Write-through: once the bus is released (no use of it remains), the caller's memory
    /// behind each RAM page holds exactly what the page then holds. Mapping a slice ties the
    /// slice's final contents to the page (`map_ram_page_idx`), and writes change the page's
    /// bytes while keeping that tie (`write`), so every byte written through the bus is in the
    /// caller's slice afterwards.
    pub proof fn lemma_released_ram_is_written_through(&self, i: int)
        requires
            self.wf(),
            has_resolved(*self),
            0 <= i < Self::spec_num_pages(),
            self.kind(i) == PageKind::Ram,
        ensures
            final(self.ram(i))@ == self.bytes(i),
    {
        assert(has_resolved(self.pages));
        assert(has_resolved(self.pages@[i]));
    }

    /// Reading back a write: a RAM page returns the byte written, a ROM page keeps its byte,
    /// an open page returns the byte written (the last value driven), and every other address
    /// reads as before unless it is open.
    pub proof fn lemma_read_after_write(before: Self, after: Self, addr: u32, data: u8, other: u32)
        requires
            before.wf(),
            Self::written(before, after, addr, data),
        ensures
            after.read_value(addr) == (if before.kind(page_index_of(ADDR_BITS, PAGE_SHIFT, addr))
                == PageKind::Rom {
                before.read_value(addr)
            } else {
                data
            }),
            page_index_of(ADDR_BITS, PAGE_SHIFT, other) != page_index_of(ADDR_BITS, PAGE_SHIFT, addr)
                && before.kind(page_index_of(ADDR_BITS, PAGE_SHIFT, other)) != PageKind::Open
                ==> after.read_value(other) == before.read_value(other),
    {
        before.lemma_index_in_range(addr);
        before.lemma_index_in_range(other);
        let i = page_index_of(ADDR_BITS, PAGE_SHIFT, addr);
        let j = page_index_of(ADDR_BITS, PAGE_SHIFT, other);
        if j != i {
            assert(after.kind(j) == before.kind(j) && after.bytes(j) == before.bytes(j));
        }
    }

    /// A bus with every page open and all lines inactive.
    pub fn new() -> (r: Self)
        requires
            ADDR_BITS <= 24,
            PAGE_SHIFT < ADDR_BITS,
        ensures
            forall|i: int| 0 <= i < Self::spec_num_pages() ==> #[trigger] r.kind(i) == PageKind::Open,
            r.open_value() == 0,
            r.spec_lines() == inactive_lines(),
            r.wf(),
            r.accesses() == Seq::<BusAccess>::empty(),
            r.samples() == Seq::<Lines>::empty(),
    {
        let num_pages = pow2_exec(ADDR_BITS - PAGE_SHIFT);
        let page_size = pow2_exec(PAGE_SHIFT);
        let addr_space = pow2_exec(ADDR_BITS);
        proof {
            lemma_sizes(ADDR_BITS, PAGE_SHIFT);
        }
        let mut pages: Vec<Page<'a>> = Vec::new();
        let mut i: u32 = 0;
        while i < num_pages
            invariant
                i <= num_pages,
                pages@.len() == i,
                forall|j: int| 0 <= j < i ==> pages@[j] is Open,
            decreases num_pages - i,
        {
            pages.push(Page::Open);
            i = i + 1;
        }
        FastMapBus {
            pages,
            num_pages: num_pages as usize,
            page_size: page_size as usize,
            addr_space,
            lines: Lines::none(),
            open: OpenBus::default(),
            log: Ghost(Seq::empty()),
            sampled: Ghost(Seq::empty()),
        }
    }

    /// The page and offset of `addr`, when the page table can serve it.
    fn locate(&self, addr: u32) -> (r: Option<(usize, usize)>)
        ensures
            self.wf() ==> r == Some(
                (
                    page_index_of(ADDR_BITS, PAGE_SHIFT, addr) as usize,
                    page_offset_of(PAGE_SHIFT, addr) as usize,
                ),
            ),
            r matches Some((i, o)) ==> i < self.pages@.len() && (self.kind(i as int)
                != PageKind::Open ==> o < self.bytes(i as int).len()),
    {
        proof {
            if self.wf() {
                lemma_sizes(ADDR_BITS, PAGE_SHIFT);
                self.lemma_index_in_range(addr);
            }
        }
        if self.addr_space == 0 || self.page_size == 0 || self.page_size > 0x100_0000 {
            return None;
        }
        let idx = ((addr % self.addr_space) / (self.page_size as u32)) as usize;
        let off = (addr % (self.page_size as u32)) as usize;
        if idx >= self.pages.len() {
            return None;
        }
        let fits = match &self.pages[idx] {
            Page::Open => true,
            Page::Ram(r) => off < r.len(),
            Page::Rom(r) => off < r.len(),
        };
        if !fits {
            return None;
        }
        Some((idx, off))
    }

    #[verifier::spinoff_prover]
    proof fn lemma_index_in_range(&self, addr: u32)
        requires
            self.wf(),
        ensures
            page_index_of(ADDR_BITS, PAGE_SHIFT, addr) < Self::spec_num_pages(),
            page_index_of(ADDR_BITS, PAGE_SHIFT, addr) >= 0,
            page_offset_of(PAGE_SHIFT, addr) < Self::spec_page_size(),
            page_offset_of(PAGE_SHIFT, addr) >= 0,
    {
        lemma_sizes(ADDR_BITS, PAGE_SHIFT);
        let a = addr as int % self.addr_space as int;
        let idx = a / self.page_size as int;
        vstd::arithmetic::div_mod::lemma_mod_pos_bound(addr as int, self.addr_space as int);
        vstd::arithmetic::div_mod::lemma_mod_pos_bound(a, self.page_size as int);
        vstd::arithmetic::div_mod::lemma_div_pos_is_pos(a, self.page_size as int);
        vstd::arithmetic::div_mod::lemma_fundamental_div_mod(a, self.page_size as int);
        vstd::arithmetic::mul::lemma_mul_is_commutative(self.num_pages as int, self.page_size as int);
        if idx >= self.num_pages {
            vstd::arithmetic::mul::lemma_mul_inequality(
                self.num_pages as int,
                idx,
                self.page_size as int,
            );
        }
    }

    /// Compute the page index for an address in this bus' address space.
    fn page_index(&self, addr: u32) -> (r: usize)
        requires
            self.wf(),
        ensures
            r == page_index_of(ADDR_BITS, PAGE_SHIFT, addr),
            r < Self::spec_num_pages(),
    {
        proof {
            self.lemma_index_in_range(addr);
            lemma_sizes(ADDR_BITS, PAGE_SHIFT);
        }
        let a = addr % self.addr_space;
        let idx = a / (self.page_size as u32);
        idx as usize
    }

    /// Map a single page of RAM by page index: the page is `slice` itself, borrowed for as
    /// long as the bus lives. Reads of the page return its bytes, writes store into it, and
    /// once the bus lets go of it the caller finds there what the page then holds.
    pub fn map_ram_page_idx(&mut self, page_idx: usize, slice: &'a mut [u8])
        requires
            old(self).wf(),
            page_idx < Self::spec_num_pages(),
            old(slice)@.len() == Self::spec_page_size(),
        ensures
            final(self).wf(),
            final(self).kind(page_idx as int) == PageKind::Ram,
            final(self).bytes(page_idx as int) == old(slice)@,
            final(final(self).ram(page_idx as int))@ == final(slice)@,
            final(self).same_pages_except(old(self), page_idx as int),
            final(self).open_value() == old(self).open_value(),
            final(self).accesses() == old(self).accesses(),
            final(self).samples() == old(self).samples(),
            final(self).spec_lines() == old(self).spec_lines(),
    {
        self.install(page_idx, Page::Ram(slice));
    }

    /// Map a single page of ROM by page index: the page is `slice` itself, borrowed for as
    /// long as the bus lives.
    pub fn map_rom_page_idx(&mut self, page_idx: usize, slice: &'a [u8])
        requires
            old(self).wf(),
            page_idx < Self::spec_num_pages(),
            slice@.len() == Self::spec_page_size(),
        ensures
            final(self).wf(),
            final(self).kind(page_idx as int) == PageKind::Rom,
            final(self).bytes(page_idx as int) == slice@,
            final(self).same_pages_except(old(self), page_idx as int),
            final(self).open_value() == old(self).open_value(),
            final(self).accesses() == old(self).accesses(),
            final(self).samples() == old(self).samples(),
            final(self).spec_lines() == old(self).spec_lines(),
    {
        self.install(page_idx, Page::Rom(slice));
    }

    /// Unmap a page to open bus by page index.
    pub fn map_open_page_idx(&mut self, page_idx: usize)
        requires
            old(self).wf(),
            page_idx < Self::spec_num_pages(),
        ensures
            final(self).wf(),
            final(self).kind(page_idx as int) == PageKind::Open,
            final(self).same_pages_except(old(self), page_idx as int),
            final(self).open_value() == old(self).open_value(),
            final(self).accesses() == old(self).accesses(),
            final(self).samples() == old(self).samples(),
            final(self).spec_lines() == old(self).spec_lines(),
    {
        self.install(page_idx, Page::Open);
    }

    fn install(&mut self, page_idx: usize, page: Page<'a>)
        requires
            old(self).wf(),
            page_idx < Self::spec_num_pages(),
            Self::full_page(page),
        ensures
            final(self).wf(),
            final(self).pages@ == old(self).pages@.update(page_idx as int, page),
            final(self).same_pages_except(old(self), page_idx as int),
            final(self).open_value() == old(self).open_value(),
            final(self).spec_lines() == old(self).spec_lines(),
            final(self).log == old(self).log,
            final(self).sampled == old(self).sampled,
    {
        self.pages.set(page_idx, page);
    }

    /// Map by address (convenience). The address is interpreted in this bus' address space.
    pub fn map_ram_page_at(&mut self, addr: u32, slice: &'a mut [u8])
        requires
            old(self).wf(),
            old(slice)@.len() == Self::spec_page_size(),
        ensures
            final(self).wf(),
            final(self).kind(page_index_of(ADDR_BITS, PAGE_SHIFT, addr)) == PageKind::Ram,
            final(self).bytes(page_index_of(ADDR_BITS, PAGE_SHIFT, addr)) == old(slice)@,
            final(final(self).ram(page_index_of(ADDR_BITS, PAGE_SHIFT, addr)))@ == final(slice)@,
            final(self).same_pages_except(old(self), page_index_of(ADDR_BITS, PAGE_SHIFT, addr)),
            final(self).open_value() == old(self).open_value(),
            final(self).accesses() == old(self).accesses(),
            final(self).samples() == old(self).samples(),
            final(self).spec_lines() == old(self).spec_lines(),
    {
        let idx = self.page_index(addr);
        self.map_ram_page_idx(idx, slice);
    }

    /// Map a page of ROM by address.
    pub fn map_rom_page_at(&mut self, addr: u32, slice: &'a [u8])
        requires
            old(self).wf(),
            slice@.len() == Self::spec_page_size(),
        ensures
            final(self).wf(),
            final(self).kind(page_index_of(ADDR_BITS, PAGE_SHIFT, addr)) == PageKind::Rom,
            final(self).bytes(page_index_of(ADDR_BITS, PAGE_SHIFT, addr)) == slice@,
            final(self).same_pages_except(old(self), page_index_of(ADDR_BITS, PAGE_SHIFT, addr)),
            final(self).open_value() == old(self).open_value(),
            final(self).accesses() == old(self).accesses(),
            final(self).samples() == old(self).samples(),
            final(self).spec_lines() == old(self).spec_lines(),
    {
        let idx = self.page_index(addr);
        self.map_rom_page_idx(idx, slice);
    }

    /// Unmap the page holding `addr`.
    pub fn map_open_page_at(&mut self, addr: u32)
        requires
            old(self).wf(),
        ensures
            final(self).wf(),
            final(self).kind(page_index_of(ADDR_BITS, PAGE_SHIFT, addr)) == PageKind::Open,
            final(self).same_pages_except(old(self), page_index_of(ADDR_BITS, PAGE_SHIFT, addr)),
            final(self).open_value() == old(self).open_value(),
            final(self).accesses() == old(self).accesses(),
            final(self).samples() == old(self).samples(),
            final(self).spec_lines() == old(self).spec_lines(),
    {
        let idx = self.page_index(addr);
        self.map_open_page_idx(idx);
    }

    /// Set the input lines for the next sample.
    pub fn set_lines(&mut self, lines: Lines)
        ensures
            final(self).wf() == old(self).wf(),
            final(self).spec_lines() == lines,
            final(self).same_pages_except(old(self), -1),
            final(self).open_value() == old(self).open_value(),
            final(self).accesses() == old(self).accesses(),
            final(self).samples() == old(self).samples(),
    {
        self.lines = lines;
    }

    /// Set the IRQ line.
    pub fn set_irq(&mut self, v: bool)
        ensures
            final(self).wf() == old(self).wf(),
            final(self).spec_lines() == (Lines { irq: v, ..old(self).spec_lines() }),
            final(self).same_pages_except(old(self), -1),
            final(self).open_value() == old(self).open_value(),
            final(self).accesses() == old(self).accesses(),
            final(self).samples() == old(self).samples(),
    {
        self.lines.irq = v;
    }

    /// Set the NMI line.
    pub fn set_nmi(&mut self, v: bool)
        ensures
            final(self).wf() == old(self).wf(),
            final(self).spec_lines() == (Lines { nmi: v, ..old(self).spec_lines() }),
            final(self).same_pages_except(old(self), -1),
            final(self).open_value() == old(self).open_value(),
            final(self).accesses() == old(self).accesses(),
            final(self).samples() == old(self).samples(),
    {
        self.lines.nmi = v;
    }

    /// Set the ABORT line.
    pub fn set_abort(&mut self, v: bool)
        ensures
            final(self).wf() == old(self).wf(),
            final(self).spec_lines() == (Lines { abort_: v, ..old(self).spec_lines() }),
            final(self).same_pages_except(old(self), -1),
            final(self).open_value() == old(self).open_value(),
            final(self).accesses() == old(self).accesses(),
            final(self).samples() == old(self).samples(),
    {
        self.lines.abort_ = v;
    }

    /// Set the RDY line.
    pub fn set_rdy(&mut self, v: bool)
        ensures
            final(self).wf() == old(self).wf(),
            final(self).spec_lines() == (Lines { rdy: v, ..old(self).spec_lines() }),
            final(self).same_pages_except(old(self), -1),
            final(self).open_value() == old(self).open_value(),
            final(self).accesses() == old(self).accesses(),
            final(self).samples() == old(self).samples(),
    {
        self.lines.rdy = v;
    }

    /// Set the BE line.
    pub fn set_be(&mut self, v: bool)
        ensures
            final(self).wf() == old(self).wf(),
            final(self).spec_lines() == (Lines { be: v, ..old(self).spec_lines() }),
            final(self).same_pages_except(old(self), -1),
            final(self).open_value() == old(self).open_value(),
            final(self).accesses() == old(self).accesses(),
            final(self).samples() == old(self).samples(),
    {
        self.lines.be = v;
    }

    /// The last value driven onto the bus.
    pub fn open_bus_value(&self) -> (r: u8)
        ensures
            r == self.open_value(),
    {
        self.open.sample()
    }

    /// A copy of the bytes of page `page_idx` (empty for an open page).
    pub fn page_bytes(&self, page_idx: usize) -> (r: Vec<u8>)
        requires
            self.wf(),
            page_idx < Self::spec_num_pages(),
        ensures
            r@ == self.bytes(page_idx as int),
    {
        match &self.pages[page_idx] {
            Page::Open => Vec::new(),
            Page::Ram(r) => vstd::slice::slice_to_vec(r),
            Page::Rom(r) => vstd::slice::slice_to_vec(r),
        }
    }
}

impl<'a, const ADDR_BITS: u32, const PAGE_SHIFT: u32> Bus for FastMapBus<'a, ADDR_BITS, PAGE_SHIFT> {
    closed spec fn accesses(&self) -> Seq<BusAccess> {
        self.log@
    }

    closed spec fn samples(&self) -> Seq<Lines> {
        self.sampled@
    }

    /// RAM and ROM pages return their byte and drive it onto the bus; open pages return the
    /// last value seen on the bus.
    fn read(&mut self, addr: u32, vda: bool, vpa: bool) -> (r: (u8, WaitStates))
        ensures
            old(self).wf() ==> r.0 == old(self).read_value(addr),
            old(self).wf() ==> ({
                let i = page_index_of(ADDR_BITS, PAGE_SHIFT, addr);
                &&& old(self).kind(i) == PageKind::Open ==> final(self).open_value() == old(
                    self,
                ).open_value()
                &&& old(self).kind(i) != PageKind::Open ==> final(self).open_value() == r.0
            }),
            r.1 == 0,
            old(self).wf() ==> final(self).wf(),
            final(self).same_pages_except(old(self), -1),
            final(self).spec_lines() == old(self).spec_lines(),
    {
        proof {
            if self.wf() {
                self.lemma_index_in_range(addr);
            }
        }
        let v = match self.locate(addr) {
            Some((idx, off)) => {
                let stored: Option<u8> = match &self.pages[idx] {
                    Page::Open => None,
                    Page::Ram(r) => Some(r[off]),
                    Page::Rom(r) => Some(r[off]),
                };
                match stored {
                    Some(v) => {
                        self.open.drive(v);
                        v
                    },
                    None => self.open.sample(),
                }
            },
            None => self.open.sample(),
        };
        self.log = Ghost(self.log@.push(read_access(addr, v, vda, vpa, 0)));
        (v, 0)
    }

    /// RAM pages store the byte; ROM and open pages ignore it. Every write drives the bus.
    fn write(&mut self, addr: u32, data: u8, vda: bool, vpa: bool) -> (r: WaitStates)
        ensures
            old(self).wf() ==> Self::written(*old(self), *final(self), addr, data),
            old(self).wf() ==> final(final(self).ram(page_index_of(ADDR_BITS, PAGE_SHIFT, addr)))@
                == final(old(self).ram(page_index_of(ADDR_BITS, PAGE_SHIFT, addr)))@,
            old(self).wf() ==> final(self).wf(),
            final(self).open_value() == data,
            final(self).spec_lines() == old(self).spec_lines(),
            r == 0,
    {
        proof {
            if self.wf() {
                self.lemma_index_in_range(addr);
            }
        }
        let ghost before = self.pages@;
        if let Some((idx, off)) = self.locate(addr) {
            match &mut self.pages[idx] {
                Page::Ram(r) => {
                    r[off] = data;
                },
                _ => {},
            }
            proof {
                assert(self.pages@.len() == before.len());
                assert forall|j: int| 0 <= j < self.pages@.len() implies Self::full_page(
                    self.pages@[j],
                ) == Self::full_page(before[j]) by {
                    if j != idx {
                        assert(self.pages@[j] == before[j]);
                    }
                }
            }
        }
        // Writes to ROM are ignored but still drive the open bus
        self.open.drive(data);
        self.log = Ghost(self.log@.push(write_access(addr, data, vda, vpa, 0)));
        0
    }

    /// The configured lines.
    fn sample_lines(&mut self) -> (r: Lines)
        ensures
            r == old(self).spec_lines(),
            final(self).wf() == old(self).wf(),
            final(self).same_pages_except(old(self), -1),
            final(self).open_value() == old(self).open_value(),
            final(self).spec_lines() == old(self).spec_lines(),
    {
        self.sampled = Ghost(self.sampled@.push(self.lines));
        self.lines
    }
}

} // verus!
