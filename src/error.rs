use vstd::prelude::*;

verus! {

/// The ways in which an emulator operation can fail. None of them is
/// recovered from inside the core: the driver decides what to do.
#[derive(Clone, Copy, Debug, PartialEq, Eq, Structural)]
pub enum NesError {
    /// The image does not start with the iNES magic, or announces NES 2.0.
    InvalidIneS,
    /// The image asks for a mapper other than NROM.
    UnsupportedMapper(u8),
    /// The byte is not an opcode of the instruction table.
    UnknownOpcode(u8),
    /// A read of a register that can only be written.
    WriteOnlyRead(u16),
    /// An access to an address that no device decodes.
    UnmappedAccess(u16),
}

} // verus!
