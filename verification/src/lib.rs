//! Cycle-stepped 6502-family cores with verified microcode, instruction semantics,
//! arithmetic and bus models.
//!
//! The crate exports ready-to-use CPU variants and a simple in-memory bus so you don't have
//! to wire up flavors manually: `Nmos6502<SimpleBus>`, `Nes6502<..>` and `Cmos65c02<..>`.
use vstd::prelude::*;

pub mod alu;
pub mod bus;
pub mod common;
pub mod cpu6502;
pub mod isa;
pub mod prelude;
pub mod psr;

pub use bus::fastmap;
pub use bus::{Bus, FastMapBus, Lines, SimpleBus};

verus! {

/// NMOS 6502 core (original MOS/Rockwell parts).
pub type Nmos6502<B> = cpu6502::Cpu6502<cpu6502::flavor::NMOS6502, B>;

/// NES Ricoh 2A03/2A07 variant (decimal mode disabled).
pub type Nes6502<B> = cpu6502::Cpu6502<cpu6502::flavor::NES, B>;

/// CMOS 65C02 core with Rockwell extensions enabled.
pub type Cmos65c02<B> = cpu6502::Cpu6502<cpu6502::flavor::CMOS65C02, B>;

} // verus!
