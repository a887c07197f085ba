//! Variants of the addressing modes.
use vstd::prelude::*;

verus! {

#[derive(Debug, PartialEq, Eq, Clone, Copy, Structural)]
pub enum NoMemType {
    Implied,
    Immediate,
}

/// The index register added to an address, if any.
#[derive(Debug, PartialEq, Eq, Clone, Copy, Structural)]
pub enum OffsetType {
    /// No index register.
    NoOffset,
    X,
    Y,
}

#[derive(Debug, PartialEq, Eq, Clone, Copy, Structural)]
pub enum JumpType {
    JmpAbsolute,
    JmpIndirect,
    JmpIndirectLong,
    JmpIndirectX,
    ToSubroutine,
    ToInterrupt,
    FromSubroutine,
    FromInterrupt,
}

#[derive(Debug, PartialEq, Eq, Clone, Copy, Structural)]
pub enum BranchType {
    Relative,
    DpRelative,
    RelativeLong,
}

} // verus!
