//! Minimal 64 KiB in-memory bus for 6502-family cores.
//!
//! This is intended for quick bring-up, tests, and examples. It wraps a single
//! 64 KiB RAM array, mirrors writes back for reads, and exposes helpers to load
//! programs and set the interrupt vectors.
use vstd::prelude::*;

use super::{inactive_lines, read_access, write_access, Bus, BusAccess, Lines, WaitStates};

verus! {

/// The RAM after loading `bytes` at `origin`, wrapping within the 16-bit space: each cell
/// holds the last byte of `bytes` whose address lands on it, or keeps its old value.
pub open spec fn loaded(old: Seq<u8>, origin: u16, bytes: Seq<u8>) -> Seq<u8> {
    Seq::new(
        old.len(),
        |j: int|
            {
                let k = (j - origin) % 0x10000;
                if k < bytes.len() {
                    bytes[k + 0x10000 * ((bytes.len() - 1 - k) / 0x10000)]
                } else {
                    old[j]
                }
            },
    )
}

/// The RAM after writing the little-endian vector `addr` at `base` and `base + 1`.
pub open spec fn with_vector(old: Seq<u8>, base: int, addr: u16) -> Seq<u8> {
    old.update(base, (addr % 256) as u8).update(base + 1, (addr / 256) as u8)
}

/// Simple zero-wait-state 64 KiB bus backed by RAM.
pub struct SimpleBus {
    pub ram: [u8; 0x10000],
    lines: Lines,
    log: Ghost<Seq<BusAccess>>,
    sampled: Ghost<Seq<Lines>>,
}

impl SimpleBus {
    /// The contents of the RAM.
    pub closed spec fn spec_ram(&self) -> Seq<u8> {
        self.ram@
    }

    /// The lines the bus reports when sampled.
    pub closed spec fn spec_lines(&self) -> Lines {
        self.lines
    }

    /// Create a zeroed bus with all lines inactive.
    pub fn new() -> (r: Self)
        ensures
            r.spec_ram().len() == 0x10000,
            forall|i: int| 0 <= i < 0x10000 ==> r.spec_ram()[i] == 0,
            r.spec_lines() == inactive_lines(),
            r.accesses() == Seq::<BusAccess>::empty(),
            r.samples() == Seq::<Lines>::empty(),
    {
        Self { ram: [0;0x10000], lines: Lines::none(), log: Ghost(Seq::empty()), sampled: Ghost(Seq::empty()) }
    }

    /// Load bytes into RAM starting at `origin`, wrapping within the 16-bit space.
    #[verifier::rlimit(30)]
    pub fn load(&mut self, origin: u16, bytes: &[u8])
        ensures
            final(self).spec_ram().len() == 0x10000,
            final(self).spec_ram() == loaded(old(self).spec_ram(), origin, bytes@),
            final(self).spec_lines() == old(self).spec_lines(),
            final(self).accesses() == old(self).accesses(),
            final(self).samples() == old(self).samples(),
    {
        let n = bytes.len();
        let ghost old_ram = self.spec_ram();
        let mut i: usize = 0;
        while i < n
            invariant
                n == bytes@.len(),
                i <= n,
                self.spec_ram().len() == 0x10000,
                old_ram.len() == 0x10000,
                self.lines == old(self).lines,
                self.log == old(self).log,
                self.sampled == old(self).sampled,
                forall|j: int|
                    0 <= j < 0x10000 ==> #[trigger] self.spec_ram()[j] == ({
                        let k = (j - origin) % 0x10000;
                        if k < i {
                            bytes@[k + 0x10000 * ((i - 1 - k) / 0x10000)]
                        } else {
                            old_ram[j]
                        }
                    }),
            decreases n - i,
        {
            let addr = ((origin as usize + i % 0x10000) % 0x10000) as usize;
            let ghost prev = self.spec_ram();
            self.ram[addr] = bytes[i];
            proof {
                assert forall|j: int| 0 <= j < 0x10000 implies #[trigger] self.spec_ram()[j] == ({
                    let k = (j - origin) % 0x10000;
                    if k < i + 1 {
                        bytes@[k + 0x10000 * ((i + 1 - 1 - k) / 0x10000)]
                    } else {
                        old_ram[j]
                    }
                }) by {
                    let k = (j - origin) % 0x10000;
                    if j == addr {
                        assert(k == i % 0x10000);
                        assert((i - k) % 0x10000 == 0);
                        vstd::arithmetic::div_mod::lemma_fundamental_div_mod(i - k, 0x10000);
                    } else {
                        assert(prev[j] == self.spec_ram()[j]);
                        if k < i + 1 {
                            assert(k != i % 0x10000);
                            vstd::arithmetic::div_mod::lemma_fundamental_div_mod(i - k, 0x10000);
                            vstd::arithmetic::div_mod::lemma_fundamental_div_mod(i - 1 - k, 0x10000);
                        }
                    }
                }
            }
            i = i + 1;
        }
        proof {
            assert(self.spec_ram() =~= loaded(old_ram, origin, bytes@));
        }
    }

    /// Create a bus with `bytes` preloaded at `origin`.
    pub fn with_program(origin: u16, bytes: &[u8]) -> (r: Self)
        ensures
            r.spec_ram().len() == 0x10000,
            r.spec_ram() == loaded(Seq::new(0x10000, |i: int| 0u8), origin, bytes@),
            r.spec_lines() == inactive_lines(),
            r.accesses() == Seq::<BusAccess>::empty(),
            r.samples() == Seq::<Lines>::empty(),
    {
        let mut bus = Self::new();
        proof {
            assert(bus.spec_ram() =~= Seq::new(0x10000, |i: int| 0u8));
        }
        bus.load(origin, bytes);
        bus
    }

    /// Set the reset vector ($FFFC/$FFFD) to `addr`.
    pub fn set_reset_vector(&mut self, addr: u16)
        ensures
            final(self).spec_ram().len() == 0x10000,
            final(self).spec_ram() == with_vector(old(self).spec_ram(), 0xFFFC, addr),
            final(self).spec_lines() == old(self).spec_lines(),
            final(self).accesses() == old(self).accesses(),
            final(self).samples() == old(self).samples(),
    {
        self.write_vector(0xFFFC, addr);
    }

    /// Set the IRQ/BRK vector ($FFFE/$FFFF) to `addr`.
    pub fn set_irq_vector(&mut self, addr: u16)
        ensures
            final(self).spec_ram().len() == 0x10000,
            final(self).spec_ram() == with_vector(old(self).spec_ram(), 0xFFFE, addr),
            final(self).spec_lines() == old(self).spec_lines(),
            final(self).accesses() == old(self).accesses(),
            final(self).samples() == old(self).samples(),
    {
        self.write_vector(0xFFFE, addr);
    }

    /// Set the NMI vector ($FFFA/$FFFB) to `addr`.
    pub fn set_nmi_vector(&mut self, addr: u16)
        ensures
            final(self).spec_ram().len() == 0x10000,
            final(self).spec_ram() == with_vector(old(self).spec_ram(), 0xFFFA, addr),
            final(self).spec_lines() == old(self).spec_lines(),
            final(self).accesses() == old(self).accesses(),
            final(self).samples() == old(self).samples(),
    {
        self.write_vector(0xFFFA, addr);
    }

    /// Access the mutable lines configuration.
    pub fn lines_mut(&mut self) -> (r: &mut Lines)
        ensures
            *r == old(self).spec_lines(),
            final(self).spec_lines() == *final(r),
            final(self).spec_ram() == old(self).spec_ram(),
            final(self).accesses() == old(self).accesses(),
            final(self).samples() == old(self).samples(),
    {
        &mut self.lines
    }

    fn write_vector(&mut self, base: u16, addr: u16)
        requires
            base < 0xFFFF,
        ensures
            final(self).spec_ram() == with_vector(old(self).spec_ram(), base as int, addr),
            final(self).lines == old(self).lines,
            final(self).log == old(self).log,
            final(self).sampled == old(self).sampled,
    {
        let lo = (addr % 256) as u8;
        let hi = (addr / 256) as u8;
        self.ram[base as usize] = lo;
        self.ram[base as usize + 1] = hi;
    }
}

/// Reads mirror writes: after `data` is written to `addr`, a read of `addr` (or of any address
/// with the same low 16 bits) returns `data`, and every other cell keeps its byte.
pub proof fn lemma_read_after_write(bus: SimpleBus, addr: u32, data: u8, other: u32)
    ensures
        bus.spec_ram().update(addr as int % 0x10000, data)[addr as int % 0x10000] == data,
        other as int % 0x10000 != addr as int % 0x10000 ==> bus.spec_ram().update(
            addr as int % 0x10000,
            data,
        )[other as int % 0x10000] == bus.spec_ram()[other as int % 0x10000],
{
    assert(bus.spec_ram().len() == 0x10000);
}

impl Default for SimpleBus {
    /// A zeroed bus with all lines inactive, the same as [`SimpleBus::new`].
    fn default() -> (r: Self)
        ensures
            r.spec_ram().len() == 0x10000,
            forall|i: int| 0 <= i < 0x10000 ==> r.spec_ram()[i] == 0,
            r.spec_lines() == inactive_lines(),
            r.accesses() == Seq::<BusAccess>::empty(),
            r.samples() == Seq::<Lines>::empty(),
    {
        Self::new()
    }
}

impl Bus for SimpleBus {
    closed spec fn accesses(&self) -> Seq<BusAccess> {
        self.log@
    }

    closed spec fn samples(&self) -> Seq<Lines> {
        self.sampled@
    }

    /// Reads mirror the RAM at the low 16 bits of the address, with no wait states.
    fn read(&mut self, addr: u32, vda: bool, vpa: bool) -> (r: (u8, WaitStates))
        ensures
            r.0 == old(self).spec_ram()[addr as int % 0x10000],
            r.1 == 0,
            final(self).spec_ram() == old(self).spec_ram(),
            final(self).spec_lines() == old(self).spec_lines(),
    {
        let addr16 = (addr % 0x10000) as usize;
        let v = self.ram[addr16];
        self.log = Ghost(self.log@.push(read_access(addr, v, vda, vpa, 0)));
        (v, 0)
    }

    /// Writes store into the RAM at the low 16 bits of the address, with no wait states.
    fn write(&mut self, addr: u32, data: u8, vda: bool, vpa: bool) -> (r: WaitStates)
        ensures
            final(self).spec_ram() == old(self).spec_ram().update(addr as int % 0x10000, data),
            final(self).spec_lines() == old(self).spec_lines(),
            r == 0,
    {
        let addr16 = (addr % 0x10000) as usize;
        self.ram[addr16] = data;
        self.log = Ghost(self.log@.push(write_access(addr, data, vda, vpa, 0)));
        0
    }

    /// The configured lines.
    fn sample_lines(&mut self) -> (r: Lines)
        ensures
            r == old(self).spec_lines(),
            final(self).spec_ram() == old(self).spec_ram(),
            final(self).spec_lines() == old(self).spec_lines(),
    {
        self.sampled = Ghost(self.sampled@.push(self.lines));
        self.lines
    }
}

} // verus!
