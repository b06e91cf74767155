//! Container formats of executable files.

use vstd::prelude::*;

verus! {

/// Byte order recorded in an ELF header.
#[derive(Clone, Copy, Debug, PartialEq, Eq, Structural)]
pub enum ByteOrder {
    LittleEndian,
    BigEndian,
}

/// The container format of an executable, as classified from its header.
#[derive(Clone, Copy, Debug, PartialEq, Eq, Structural)]
pub enum BinaryFormat {
    Elf32 { byte_order: ByteOrder },
    Elf64 { byte_order: ByteOrder },
    Macho,
    PE,
    Unknown,
}

} // verus!
