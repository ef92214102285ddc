use vstd::prelude::*;

verus! {

/// The failures the core can report: a cartridge image the loader refuses,
/// and the documented holes in the opcode map, which abort the frame.
#[derive(Clone, Copy, PartialEq, Eq, Structural, Debug)]
pub enum CoreError {
    /// The image is too short to hold the cartridge header.
    RomTooShort,
    /// Header byte 0x147 names a mapper the core does not support.
    UnsupportedCartridgeType(u8),
    /// Header byte 0x149 names a RAM size the core does not support.
    UnsupportedRamSize(u8),
    /// The CPU fetched one of the opcodes the instruction set leaves
    /// undefined.
    UndefinedOpcode(u8),
}

} // verus!
