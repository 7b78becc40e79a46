use vstd::prelude::*;

verus! {

/// The faults that stop an emulation session.
///
/// `ReadRom`, `InvalidRom` and `UnsupportedMapperType` come up while a ROM
/// image is loaded; `UnrecognizedOpCode` while instructions run, and carries
/// the opcode byte that has no executable case.
#[derive(Debug, Clone, Copy, PartialEq, Eq, Structural)]
pub enum EmuErr {
    ReadRom,
    InvalidRom,
    UnsupportedMapperType,
    UnrecognizedOpCode(u16),
}

} // verus!
