//! Loading a program from an ELF file held in memory. The file is read by
//! the `elf_rs` crate; what is decided from its header is verified here.

use vstd::prelude::*;
use vstd::slice::slice_subrange;
use elf_rs::ElfFile;
use crate::cpu::Cpu;
use crate::image::{image_over, LoadError};
use crate::semantics::Machine;

verus! {

/// An ELF file as `elf_rs` has parsed it. Nothing of its content is known
/// to the verifier.
#[verifier::external_type_specification]
#[verifier::external_body]
pub struct ExElf<'a>(elf_rs::Elf<'a>);

/// The error of `elf_rs`.
#[verifier::external_type_specification]
#[verifier::external_body]
pub struct ExElfError(elf_rs::Error);

/// Where a segment lies: its virtual address and its offset in the file.
#[derive(Clone, Copy, Debug, PartialEq, Eq, Structural)]
pub struct Segment {
    pub vaddr: u64,
    pub offset: u64,
}

/// The machine that an ELF file is made for.
#[derive(Clone, Copy, Debug, PartialEq, Eq, Structural)]
pub enum Architecture {
    Unknown,
    Sparc,
    X86,
    Mips,
    PowerPc,
    S390,
    Arm,
    SuperH,
    Ia64,
    X86_64,
    AArch64,
    RiscV,
    /// A machine that `elf_rs` has no name for, by its code.
    Other(u16),
}

/// What the loader reads from an ELF file: the machine it is made for, its
/// entry point, and its first segment if it has one.
#[derive(Clone, Copy, Debug, PartialEq, Eq, Structural)]
pub struct ElfSummary {
    pub machine: Architecture,
    pub entry: u64,
    pub segment: Option<Segment>,
}

/// The class of an ELF file: whether its addresses have 32 or 64 bits.
#[derive(Clone, Copy, Debug, PartialEq, Eq, Structural)]
pub enum ElfClass {
    Elf32,
    Elf64,
}

/// The smallest ELF header, that of a 32-bit file, has 52 bytes.
pub const ELF_HEADER_MIN: usize = 52;

/// The alignment that serves the headers of both classes.
pub const HEADER_ALIGNMENT: usize = 8;

/// Whether a buffer starts with the four bytes of the ELF magic number.
pub open spec fn has_magic(bytes: Seq<u8>) -> bool {
    bytes.len() >= 4 && bytes[0] == 0x7f && bytes[1] == 0x45 && bytes[2] == 0x4c && bytes[3]
        == 0x46
}

/// Whether the fifth byte of a buffer names one of the two classes.
pub open spec fn has_class(bytes: Seq<u8>) -> bool {
    bytes.len() >= 5 && (bytes[4] == 1 || bytes[4] == 2)
}

/// Whether a buffer can be an ELF file at all: long enough for the smaller
/// header, with the magic number and one of the two classes.
pub open spec fn looks_like_elf(bytes: Seq<u8>) -> bool {
    bytes.len() >= ELF_HEADER_MIN && has_magic(bytes) && has_class(bytes)
}

/// The alignment of the program headers of a class: that of its widest
/// field.
pub open spec fn program_header_alignment(class: ElfClass) -> int {
    match class {
        ElfClass::Elf32 => 4,
        ElfClass::Elf64 => 8,
    }
}

/// Whether an error says that the file is no ELF file that can be read:
/// too short, without the magic number, of an unknown class, or with a
/// header that does not lie where its alignment asks.
pub open spec fn is_malformed(kind: LoadError) -> bool {
    kind == LoadError::BufferTooShort || kind == LoadError::InvalidMagic || kind
        == LoadError::InvalidClass || kind == LoadError::MisalignedHeader
}

/// Calls `as_ptr` of a slice and gives the address as a number. Nothing is
/// claimed of the result.
#[verifier::external_body]
fn start_address(bytes: &[u8]) -> (address: usize) {
    bytes.as_ptr() as usize
}

/// Calls `elf_rs::Elf::from_bytes`. The crate lays its header structures
/// over the buffer, so the buffer must start at an aligned address:
/// `address` is the address that `start_address` gave for `bytes`.
///
/// Claimed of it: a buffer that is shorter than the 32-bit ELF header, that
/// does not start with the magic number, or whose fifth byte names neither
/// class is refused. Which header another buffer yields is not stated: the
/// crate reads the fields in the byte order of the host.
#[allow(unused_variables)]
#[verifier::external_body]
fn parse_elf<'a>(bytes: &'a [u8], address: usize) -> (result: Result<
    elf_rs::Elf<'a>,
    elf_rs::Error,
>)
    requires
        address % HEADER_ALIGNMENT == 0,
    ensures
        !looks_like_elf(bytes@) ==> result is Err,
{
    elf_rs::Elf::from_bytes(bytes)
}

/// Tells the variants of `elf_rs::Error` apart. Claimed of it: the result
/// is one of the three kinds that the crate's error has.
#[verifier::external_body]
fn elf_error_kind(error: &elf_rs::Error) -> (kind: LoadError)
    ensures
        kind == LoadError::BufferTooShort || kind == LoadError::InvalidMagic || kind
            == LoadError::InvalidClass,
{
    match error {
        elf_rs::Error::BufferTooShort => LoadError::BufferTooShort,
        elf_rs::Error::InvalidMagic => LoadError::InvalidMagic,
        elf_rs::Error::InvalidClass => LoadError::InvalidClass,
    }
}

/// Tells the two variants of `elf_rs::Elf` apart. Nothing is claimed of the
/// result.
#[verifier::external_body]
fn elf_class(elf: &elf_rs::Elf) -> (class: ElfClass) {
    match elf {
        elf_rs::Elf::Elf32(_) => ElfClass::Elf32,
        elf_rs::Elf::Elf64(_) => ElfClass::Elf64,
    }
}

/// Calls `machine` on the header that `ElfFile::elf_header` gives, and
/// names each variant of `elf_rs::ElfMachine` by the variant of
/// `Architecture` that stands for it. Nothing is claimed of the result.
#[verifier::external_body]
fn elf_machine(elf: &elf_rs::Elf) -> (machine: Architecture) {
    match elf.elf_header().machine() {
        elf_rs::ElfMachine::Unknown => Architecture::Unknown,
        elf_rs::ElfMachine::SPARC => Architecture::Sparc,
        elf_rs::ElfMachine::x86 => Architecture::X86,
        elf_rs::ElfMachine::MIPS => Architecture::Mips,
        elf_rs::ElfMachine::PowerPC => Architecture::PowerPc,
        elf_rs::ElfMachine::S390 => Architecture::S390,
        elf_rs::ElfMachine::ARM => Architecture::Arm,
        elf_rs::ElfMachine::SuperH => Architecture::SuperH,
        elf_rs::ElfMachine::IA_64 => Architecture::Ia64,
        elf_rs::ElfMachine::x86_64 => Architecture::X86_64,
        elf_rs::ElfMachine::AArch64 => Architecture::AArch64,
        elf_rs::ElfMachine::RISC_V => Architecture::RiscV,
        elf_rs::ElfMachine::MachineUnknown(code) => Architecture::Other(code),
    }
}

/// Calls `ElfFile::entry_point`. Nothing is claimed of the result.
#[verifier::external_body]
fn elf_entry_point(elf: &elf_rs::Elf) -> (entry: u64) {
    elf.entry_point()
}

/// Calls `program_header_offset` on the header that `ElfFile::elf_header`
/// gives. Nothing is claimed of the result.
#[verifier::external_body]
fn elf_program_header_offset(elf: &elf_rs::Elf) -> (offset: u64) {
    elf.elf_header().program_header_offset()
}

/// Calls `ElfFile::program_header_nth`, then `vaddr` and `offset` on the
/// header it gives. The crate lays the program headers over the buffer at
/// the offset that the file names, so that offset must be aligned for the
/// class: `class` and `offset` are what `elf_class` and
/// `elf_program_header_offset` gave for `elf`. Nothing is claimed of the
/// result.
#[allow(unused_variables)]
#[verifier::external_body]
fn elf_segment(elf: &elf_rs::Elf, index: usize, class: ElfClass, offset: u64) -> (segment: Option<
    Segment,
>)
    requires
        offset % program_header_alignment(class) as u64 == 0,
{
    match elf.program_header_nth(index) {
        Some(header) => Some(Segment { vaddr: header.vaddr(), offset: header.offset() }),
        None => None,
    }
}

/// Whether the program headers of a file lie where their alignment asks:
/// at an offset that is a multiple of 4 in a 32-bit file and of 8 in a
/// 64-bit file. Any other offset is refused as a misaligned header.
pub open spec fn placement_spec(class: ElfClass, offset: u64) -> Result<(), LoadError> {
    if offset as int % program_header_alignment(class) == 0 {
        Ok(())
    } else {
        Err(LoadError::MisalignedHeader)
    }
}

/// Tests that the program headers of a file of the given class, which
/// start at `offset`, lie where their alignment asks.
pub fn placement(class: ElfClass, offset: u64) -> (result: Result<(), LoadError>)
    ensures
        result == placement_spec(class, offset),
{
    let alignment: u64 = match class {
        ElfClass::Elf32 => 4,
        ElfClass::Elf64 => 8,
    };
    if offset % alignment == 0 {
        Ok(())
    } else {
        Err(LoadError::MisalignedHeader)
    }
}

/// Reads from an ELF file that starts at the aligned address `address`
/// what the loader needs. Once the file has been parsed, it is refused
/// where `placement` refuses its class and program header offset, and on
/// no other ground.
fn summarize_aligned(bytes: &[u8], address: usize) -> (result: Result<ElfSummary, LoadError>)
    requires
        address % HEADER_ALIGNMENT == 0,
    ensures
        !looks_like_elf(bytes@) ==> result is Err,
        result matches Err(kind) ==> is_malformed(kind),
{
    match parse_elf(bytes, address) {
        Ok(elf) => {
            let class = elf_class(&elf);
            let offset: u64 = elf_program_header_offset(&elf);
            match placement(class, offset) {
                Ok(()) => Ok(
                    ElfSummary {
                        machine: elf_machine(&elf),
                        entry: elf_entry_point(&elf),
                        segment: elf_segment(&elf, 0, class, offset),
                    },
                ),
                Err(error) => Err(error),
            }
        },
        Err(error) => Err(elf_error_kind(&error)),
    }
}

/// Reads from an ELF file what the loader needs: the machine, the entry
/// point, and the first segment, which gives the load address.
///
/// A buffer that cannot be an ELF file is refused: one that is shorter
/// than an ELF header, that does not start with the magic number, or that
/// names neither class. So is a file whose program headers do not lie at an
/// offset that is aligned for its class. Every refusal is one of the kinds
/// of a malformed file. A buffer that does not start at an aligned address
/// is read from an aligned copy.
pub fn summarize(bytes: &[u8]) -> (result: Result<ElfSummary, LoadError>)
    ensures
        !looks_like_elf(bytes@) ==> result is Err,
        result matches Err(kind) ==> is_malformed(kind),
{
    let address: usize = start_address(bytes);
    if address % HEADER_ALIGNMENT == 0 {
        return summarize_aligned(bytes, address);
    }
    let count: usize = bytes.len();
    if count > usize::MAX - HEADER_ALIGNMENT {
        return Err(LoadError::MisalignedHeader);
    }
    let mut buffer: Vec<u8> = vec![0u8; count + HEADER_ALIGNMENT];
    let base: usize = start_address(buffer.as_slice());
    let pad: usize = (HEADER_ALIGNMENT - base % HEADER_ALIGNMENT) % HEADER_ALIGNMENT;
    let mut done: usize = 0;
    while done < count
        invariant
            done <= count,
            count == bytes@.len(),
            count <= usize::MAX - HEADER_ALIGNMENT,
            pad < HEADER_ALIGNMENT,
            buffer@.len() == count + HEADER_ALIGNMENT,
            forall|k: int| 0 <= k < done ==> buffer@[pad + k] == bytes@[k],
        decreases count - done,
    {
        buffer[pad + done] = bytes[done];
        done += 1;
    }
    let copy = slice_subrange(buffer.as_slice(), pad, pad + count);
    assert(copy@ =~= bytes@);
    let moved: usize = start_address(copy);
    if moved % HEADER_ALIGNMENT != 0 {
        return Err(LoadError::MisalignedHeader);
    }
    summarize_aligned(copy, moved)
}

/// The program counter at which a file with this summary starts: the
/// offset in the file of its entry point, which is the entry point's
/// distance from the start of the first segment, added to that segment's
/// offset in the file.
pub open spec fn entry_pc_spec(summary: ElfSummary) -> Result<u32, LoadError> {
    if summary.machine != Architecture::RiscV {
        Err(LoadError::UnsupportedMachine)
    } else {
        match summary.segment {
            None => Err(LoadError::NoProgramHeader),
            Some(segment) => {
                let pc = summary.entry - segment.vaddr + segment.offset;
                if summary.entry < segment.vaddr || pc > u32::MAX {
                    Err(LoadError::EntryOutOfRange)
                } else {
                    Ok(pc as u32)
                }
            },
        }
    }
}

/// The program counter at which a file with this summary starts, or why it
/// cannot be run.
pub fn entry_pc(summary: &ElfSummary) -> (result: Result<u32, LoadError>)
    ensures
        result == entry_pc_spec(*summary),
{
    match summary.machine {
        Architecture::RiscV => {},
        _ => {
            return Err(LoadError::UnsupportedMachine);
        },
    }
    match summary.segment {
        None => Err(LoadError::NoProgramHeader),
        Some(segment) => {
            if summary.entry < segment.vaddr {
                return Err(LoadError::EntryOutOfRange);
            }
            let distance: u64 = summary.entry - segment.vaddr;
            if distance > 0xffff_ffff || segment.offset > 0xffff_ffff - distance {
                return Err(LoadError::EntryOutOfRange);
            }
            Ok((distance + segment.offset) as u32)
        },
    }
}

/// The state after loading a file with the given summary into a machine,
/// and the error if it is refused: the entry point is resolved first, then
/// the file must fit in memory.
pub open spec fn load_spec(m: Machine, bytes: Seq<u8>, summary: ElfSummary) -> (
    Machine,
    Result<(), LoadError>,
) {
    match entry_pc_spec(summary) {
        Err(error) => (m, Err(error)),
        Ok(pc) => {
            if bytes.len() > m.memory.len() {
                (m, Err(LoadError::ImageTooLarge))
            } else {
                (Machine { memory: image_over(m.memory, bytes), pc, ..m }, Ok(()))
            }
        },
    }
}

impl Cpu {
    /// Loads the file `bytes` whose header has been read into `summary`:
    /// the whole file is copied to the start of memory and the program
    /// counter is set to the file offset of the entry point. On any error
    /// the processor is left as it was.
    pub fn load_parsed(&mut self, bytes: &[u8], summary: &ElfSummary) -> (result: Result<
        (),
        LoadError,
    >)
        ensures
            (final(self)@, result) == load_spec(old(self)@, bytes@, *summary),
    {
        match entry_pc(summary) {
            Ok(pc) => self.load_image(bytes, pc),
            Err(error) => Err(error),
        }
    }

    /// Loads the ELF file `bytes`: the whole file is copied to the start of
    /// memory and the program counter is set to the file offset of the entry
    /// point.
    ///
    /// The file is read by `elf_rs`, which decides whether it can be read
    /// and what its header says. Whatever it finds, one of two things holds.
    /// Either the file is refused as malformed and the processor is left as
    /// it was; or the outcome is that of `load_parsed` on the summary that
    /// was read, which fixes the error of a refusal as well as the state
    /// after a success.
    ///
    /// So: on success memory holds the file and the registers are as before;
    /// on any error the processor is left as it was; a buffer that cannot be
    /// an ELF file (too short, without the magic number, of neither class)
    /// is refused as malformed; a file that has more bytes than memory is
    /// refused, and only such a file is refused as too large.
    pub fn load(&mut self, bytes: &[u8]) -> (result: Result<(), LoadError>)
        ensures
            ({
                ||| {
                    &&& result matches Err(kind)
                    &&& is_malformed(kind)
                    &&& final(self)@ == old(self)@
                }
                ||| exists|summary: ElfSummary|
                    (final(self)@, result) == #[trigger] load_spec(old(self)@, bytes@, summary)
            }),
            result is Ok ==> {
                &&& looks_like_elf(bytes@)
                &&& bytes@.len() <= old(self)@.memory.len()
                &&& final(self)@.memory == image_over(old(self)@.memory, bytes@)
                &&& final(self)@.registers == old(self)@.registers
            },
            result is Err ==> final(self)@ == old(self)@,
            !looks_like_elf(bytes@) ==> {
                &&& result matches Err(kind)
                &&& is_malformed(kind)
            },
            bytes@.len() > old(self)@.memory.len() ==> result is Err,
            result == Err::<(), LoadError>(LoadError::ImageTooLarge) ==> {
                bytes@.len() > old(self)@.memory.len()
            },
    {
        match summarize(bytes) {
            Ok(summary) => {
                let result = self.load_parsed(bytes, &summary);
                assert((self@, result) == load_spec(old(self)@, bytes@, summary));
                result
            },
            Err(error) => Err(error),
        }
    }
}

} // verus!
