//! Grab the most common types without digging through modules.
pub use crate::bus::{Bus, Lines};
pub use crate::{Cmos65c02, Nes6502, Nmos6502, SimpleBus};
