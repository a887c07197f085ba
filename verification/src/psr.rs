//! Processor status register bits shared across the 65x family.
use vstd::prelude::*;

verus! {

/// N: Negative
pub const N: u8 = 0b1000_0000;
/// V: Overflow
pub const V: u8 = 0b0100_0000;
/// D: Decimal
pub const D: u8 = 0b0000_1000;
/// I: IRQ disable
pub const I: u8 = 0b0000_0100;
/// Z: Zero
pub const Z: u8 = 0b0000_0010;
/// C: Carry
pub const C: u8 = 0b0000_0001;
/// B: Break, set in the copy of P pushed by BRK and PHP
pub const B_6502: u8 = 0b0001_0000;
/// U: unused bit 5, always set in pushes
pub const U_6502: u8 = 0b0010_0000;
/// M: accumulator/memory width (65C816 native mode)
pub const M_816: u8 = 0b0010_0000;
/// X: index width (65C816 native mode)
pub const X_816: u8 = 0b0001_0000;

} // verus!
