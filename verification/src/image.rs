//! Placing a program image in memory.

use vstd::prelude::*;

verus! {

/// Why a program could not be loaded.
#[derive(Clone, Copy, Debug, PartialEq, Eq, Structural)]
pub enum LoadError {
    /// The image has more bytes than memory.
    ImageTooLarge,
    /// The file is shorter than an ELF header.
    BufferTooShort,
    /// The file does not start with the ELF magic number.
    InvalidMagic,
    /// The file names an ELF class other than 32-bit or 64-bit.
    InvalidClass,
    /// A header of the file does not lie where its alignment asks.
    MisalignedHeader,
    /// The file is made for another machine than RISC-V.
    UnsupportedMachine,
    /// The file has no program header to take the load address from.
    NoProgramHeader,
    /// The entry point lies before its segment, or its offset in the file
    /// does not fit in 32 bits.
    EntryOutOfRange,
}

/// Memory after an image has been copied to its start: the image, then
/// what memory held beyond it.
pub open spec fn image_over(memory: Seq<u8>, image: Seq<u8>) -> Seq<u8> {
    image + memory.subrange(image.len() as int, memory.len() as int)
}

} // verus!
