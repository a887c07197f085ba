//! The bus interface used by the cores, side-band lines, and two ready-made buses.
use vstd::prelude::*;

pub mod fastmap;
pub mod simple;

pub use fastmap::FastMapBus;
pub use simple::SimpleBus;

verus! {

/// Level-sensitive input lines the CPU samples once per cycle.
#[derive(Clone, Copy, Debug, PartialEq, Eq, Structural)]
pub struct Lines {
    /// Interrupt Request (maskable on 65x via I flag)
    pub irq: bool,
    /// Non-Maskable Interrupt
    pub nmi: bool,
    /// ABORT (65C816 native). Ignored by 6502/65C02 cores.
    pub abort_: bool,
    /// Ready: when low, the CPU inserts wait states (stretches the current cycle).
    pub rdy: bool,
    /// Bus Enable (65C816). When low, the CPU tri-states its buses. Mostly for co-processors.
    pub be: bool,
}

/// All lines inactive: no interrupt requested, RDY and BE high.
pub open spec fn inactive_lines() -> Lines {
    Lines { irq: false, nmi: false, abort_: false, rdy: true, be: true }
}

impl Lines {
    /// Convenience constructor: all lines inactive (interrupts low, RDY and BE high).
    pub fn none() -> (r: Self)
        ensures
            r == inactive_lines(),
    {
        Self { irq: false, nmi: false, abort_: false, rdy: true, be: true }
    }
}

impl Default for Lines {
    /// The inactive state, the same as [`Lines::none`].
    fn default() -> (r: Self)
        ensures
            r == inactive_lines(),
    {
        Self::none()
    }
}

/// Extra wait states returned by the bus for a given access.
///
/// A value of 0 means the access completes within the current cycle budget.
/// Non-zero values stretch the cycle by that many additional master cycles.
pub type WaitStates = u8;

/// One bus access as the core drove it: the address, the byte read or written, the
/// direction, the `vda`/`vpa` pins, and the wait states the bus answered with.
#[derive(Clone, Copy, Debug, PartialEq, Eq, Structural)]
pub struct BusAccess {
    pub addr: u32,
    pub data: u8,
    pub write: bool,
    pub vda: bool,
    pub vpa: bool,
    pub wait: WaitStates,
}

/// A read of `addr` that returned `data`.
pub open spec fn read_access(addr: u32, data: u8, vda: bool, vpa: bool, wait: WaitStates) -> BusAccess {
    BusAccess { addr, data, write: false, vda, vpa, wait }
}

/// A write of `data` to `addr`.
pub open spec fn write_access(addr: u32, data: u8, vda: bool, vpa: bool, wait: WaitStates) -> BusAccess {
    BusAccess { addr, data, write: true, vda, vpa, wait }
}

/// The byte of the last access in `record` (what a read returned or a write drove), or 0
/// when nothing has been accessed.
pub open spec fn last_driven(record: Seq<BusAccess>) -> u8 {
    if record.len() == 0 {
        0
    } else {
        record.last().data
    }
}

/// Shared bus trait for all cores.
///
/// The core performs **one call per bus cycle** in the default configuration.
/// `vda`/`vpa` mirror the 65C816 pins and are meaningful for hosts even when
/// running 8-bit cores (6502/65C02) — those cores simply set them as:
/// - instruction fetch: `vpa = true, vda = false`
/// - data access:       `vda = true,  vpa = false`
/// - internal/no access: both false (rare)
///
/// A bus keeps a record of the accesses made on it and of the lines sampled from it, so that
/// the cores can state what they drive onto it and which lines they acted on; nothing is
/// assumed of what a read returns, how many wait states an access takes, or what the lines
/// read.
pub trait Bus {
    /// Every access made on this bus so far, oldest first. Every bus of this crate defines it.
    /// The default keeps no record: it lets a bus that is not verified implement the trait,
    /// and no verified bus can meet `read` and `write` with it.
    open spec fn accesses(&self) -> Seq<BusAccess> {
        Seq::empty()
    }

    /// Every sample of the lines taken on this bus so far, oldest first. As with
    /// [`Bus::accesses`], every bus of this crate defines it and the default keeps no record.
    open spec fn samples(&self) -> Seq<Lines> {
        Seq::empty()
    }

    /// Read a byte from the 24-bit address space.
    ///
    /// Returns `(data, extra_wait_states)`.
    fn read(&mut self, addr: u32, vda: bool, vpa: bool) -> (r: (u8, WaitStates))
        ensures
            final(self).accesses() == old(self).accesses().push(read_access(addr, r.0, vda, vpa, r.1)),
            final(self).samples() == old(self).samples(),
    ;

    /// Write a byte to the 24-bit address space.
    ///
    /// Returns `extra_wait_states`.
    fn write(&mut self, addr: u32, data: u8, vda: bool, vpa: bool) -> (r: WaitStates)
        ensures
            final(self).accesses() == old(self).accesses().push(write_access(addr, data, vda, vpa, r)),
            final(self).samples() == old(self).samples(),
    ;

    /// Sample asynchronous level-sensitive lines once per cycle.
    fn sample_lines(&mut self) -> (r: Lines)
        ensures
            final(self).accesses() == old(self).accesses(),
            final(self).samples() == old(self).samples().push(r),
    ;
}

/// Simple open-bus tracker for hosts that want deterministic reads when the
/// bus is not driven (optional usage by Bus implementors).
#[derive(Clone, Copy, Debug)]
pub struct OpenBus {
    last: u8,
}

impl View for OpenBus {
    type V = u8;

    /// The last value driven onto the bus.
    closed spec fn view(&self) -> u8 {
        self.last
    }
}

impl Default for OpenBus {
    /// An undriven bus reads as zero.
    fn default() -> (r: Self)
        ensures
            r@ == 0,
    {
        OpenBus { last: 0 }
    }
}

impl OpenBus {
    /// The value the bus floats at: the last value driven.
    pub fn sample(&self) -> (r: u8)
        ensures
            r == self@,
    {
        self.last
    }

    /// Drive `v` onto the bus; later samples read it back.
    pub fn drive(&mut self, v: u8)
        ensures
            final(self)@ == v,
    {
        self.last = v;
    }
}

} // verus!
