//! The ways in which the interpreter can fail.

use vstd::prelude::*;

verus! {

/// Every failure is reported as one of these kinds. All but `UnknownInstruction`
/// are fatal to the interpreter; the embedding program decides whether an unknown
/// instruction stops the machine or is skipped.
#[derive(Clone, Copy, Debug, PartialEq, Eq, Structural)]
pub enum EmuError {
    /// The address lies in none of the regions of the memory map.
    UnmappedAccess,
    /// A store went to a region that is served from the cartridge.
    ReadOnly,
    /// A halfword or word store whose address has the wrong low bits.
    MisalignedAccess,
    /// The machine state or the instruction breaks a rule of the architecture.
    InvariantViolation,
    /// No pattern of the decoder matches the instruction.
    UnknownInstruction,
    /// The instruction class is decoded but not executed.
    Unimplemented,
    /// The cartridge image is too short to hold a header.
    CartridgeIO,
}

} // verus!
