use vstd::prelude::*;

use crate::bytes::{le16, le32, le64, u16_at, u32_at, u64_at};
use crate::errors::{Error, EINVAL, ENOEXEC, ENOTSUP};

verus! {

pub const EI_NIDENT: usize = 16;
pub const ET_REL: u16 = 1;
pub const ET_EXEC: u16 = 2;
pub const ET_DYN: u16 = 3;
pub const ET_CORE: u16 = 4;
pub const PT_LOAD: u32 = 1;
pub const PT_DYNAMIC: u32 = 2;
pub const PT_INTERP: u32 = 3;
pub const PT_GNU_STACK: u32 = 0x6474e551;
pub const PF_X: u32 = 1;
pub const PF_W: u32 = 2;
pub const PF_R: u32 = 4;

/// Size in bytes of the 32-bit ELF header.
pub const ELF_HEADER32_SIZE: usize = 52;
/// Size in bytes of the 64-bit ELF header.
pub const ELF_HEADER64_SIZE: usize = 64;
/// Size in bytes of a program header of a 32-bit executable.
pub const PROGRAM_HEADER32_SIZE: usize = 32;
/// Size in bytes of a program header of a 64-bit executable.
pub const PROGRAM_HEADER64_SIZE: usize = 56;

/// Use TSigned = i32 and TUnsigned = u32 for 32bits,
/// and TSigned = u64 and TUnsigned = u64 for 64bits
pub struct DynamicEntry<TSigned, TUnsigned> {
    pub d_tag: TSigned,
    pub d_val: TUnsigned,
}

/// Tags of the dynamic entries that name paths.
#[derive(Debug, Clone, Copy, PartialEq, Eq, Structural)]
pub enum DynamicType {
    DtStrtab,
    DtRpath,
    DtRunpath,
}

impl DynamicType {
    /// The numeric `d_tag` of this entry type.
    pub fn tag(&self) -> (r: u32)
        ensures
            r == (match *self {
                DynamicType::DtStrtab => 5u32,
                DynamicType::DtRpath => 15u32,
                DynamicType::DtRunpath => 29u32,
            }),
    {
        match self {
            DynamicType::DtStrtab => 5,
            DynamicType::DtRpath => 15,
            DynamicType::DtRunpath => 29,
        }
    }
}

/// Whether an executable is 32 or 64 bits (`EI_CLASS` 1 or 2).
#[derive(Debug, Clone, Copy, PartialEq, Eq, Structural)]
pub enum ExecutableClass {
    Class32,
    Class64,
}

/// Use T = u32 for 32bits, and T = u64 for 64bits.
#[derive(Debug, Clone, Copy, PartialEq, Eq)]
pub struct ParameterizedProgramHeader<T> {
    pub p_type: u32,
    pub p_flags: u32,
    pub p_offset: T,
    pub p_vaddr: T,
    pub p_paddr: T,
    pub p_filesz: T,
    pub p_memsz: T,
    pub p_align: T,
}

#[derive(Debug, Clone, Copy, PartialEq, Eq)]
pub enum ProgramHeader {
    ProgramHeader32(ParameterizedProgramHeader<u32>),
    ProgramHeader64(ParameterizedProgramHeader<u64>),
}

impl ProgramHeader {
    /// Calls `func32` or `func64` on the header, depending on its class.
    pub fn apply<
        V,
        F32: FnOnce(ParameterizedProgramHeader<u32>) -> Result<V, Error>,
        F64: FnOnce(ParameterizedProgramHeader<u64>) -> Result<V, Error>,
    >(&self, func32: F32, func64: F64) -> (r: Result<V, Error>)
        requires
            match *self {
                ProgramHeader::ProgramHeader32(h) => func32.requires((h,)),
                ProgramHeader::ProgramHeader64(h) => func64.requires((h,)),
            },
        ensures
            match *self {
                ProgramHeader::ProgramHeader32(h) => func32.ensures((h,), r),
                ProgramHeader::ProgramHeader64(h) => func64.ensures((h,), r),
            },
    {
        match *self {
            ProgramHeader::ProgramHeader32(program_header) => func32(program_header),
            ProgramHeader::ProgramHeader64(program_header) => func64(program_header),
        }
    }
}

/// The word types of ELF structures: `u32` for 32-bit executables and `u64`
/// for 64-bit ones.
pub trait ElfWord: Copy {
    /// Size in bytes of a program header whose address fields are `Self`.
    spec fn spec_program_header_size() -> u16;

    fn program_header_size() -> (r: u16)
        ensures
            r == Self::spec_program_header_size(),
    ;
}

impl ElfWord for u32 {
    open spec fn spec_program_header_size() -> u16 {
        32
    }

    fn program_header_size() -> (r: u16) {
        32
    }
}

impl ElfWord for u64 {
    open spec fn spec_program_header_size() -> u16 {
        56
    }

    fn program_header_size() -> (r: u16) {
        56
    }
}

/// Use T = u32 for 32bits, and T = u64 for 64bits.
#[derive(Debug, Clone, Copy, PartialEq, Eq)]
pub struct ParameterizedElfHeader<T> {
    /// identifier; it should start with ['\x7f', 'E', 'L', 'F'].
    pub e_ident: [u8; 16],
    pub e_type: u16,
    pub e_machine: u16,
    pub e_version: u32,
    pub e_entry: T,
    /// program header offset
    pub e_phoff: T,
    pub e_shoff: T,
    pub e_flags: u32,
    pub e_ehsize: u16,
    /// program header entire size
    pub e_phentsize: u16,
    /// program headers count
    pub e_phnum: u16,
    pub e_shentsize: u16,
    pub e_shnum: u16,
    pub e_shstrndx: u16,
}

impl<T: ElfWord> ParameterizedElfHeader<T> {
    /// Accepts executables and shared objects only; `EINVAL` otherwise.
    pub fn is_exec_or_dyn(&self) -> (r: Result<(), Error>)
        ensures
            r is Ok <==> (self.e_type == ET_EXEC || self.e_type == ET_DYN),
            r matches Err(e) ==> e.errno == EINVAL,
    {
        if self.e_type == ET_EXEC || self.e_type == ET_DYN {
            Ok(())
        } else {
            Err(Error::errno(EINVAL))
        }
    }

    /// Accepts a program header size equal to the size of the program
    /// header structure of this class; `ENOTSUP` otherwise.
    pub fn is_known_phentsize(&self) -> (r: Result<(), Error>)
        ensures
            r is Ok <==> self.e_phentsize == T::spec_program_header_size(),
            r matches Err(e) ==> e.errno == ENOTSUP,
    {
        let program_header_size = T::program_header_size();
        if self.e_phentsize == program_header_size {
            Ok(())
        } else {
            Err(Error::errno(ENOTSUP))
        }
    }

    /// Position-independent objects are shared objects (`ET_DYN`).
    pub fn is_position_independent(&self) -> (r: Result<bool, Error>)
        ensures
            r == Ok::<bool, Error>(self.e_type == ET_DYN),
    {
        Ok(self.e_type == ET_DYN)
    }
}

#[derive(Debug, Clone, Copy, PartialEq, Eq)]
pub enum ElfHeader {
    ElfHeader32(ParameterizedElfHeader<u32>),
    ElfHeader64(ParameterizedElfHeader<u64>),
}

/// The class encoded by the first five bytes of a file, if they are the
/// ELF magic number followed by a known class; `ENOEXEC` otherwise.
pub open spec fn spec_elf_class(s: Seq<u8>) -> Result<ExecutableClass, i32> {
    if s[0] == 0x7fu8 && s[1] == 69u8 && s[2] == 76u8 && s[3] == 70u8 {
        if s[4] == 1u8 {
            Ok(ExecutableClass::Class32)
        } else if s[4] == 2u8 {
            Ok(ExecutableClass::Class64)
        } else {
            Err(ENOEXEC)
        }
    } else {
        Err(ENOEXEC)
    }
}

/// The fields of an ELF header `h` were read from the bytes `s`, laid out as
/// the C structure of its class with little-endian integers.
pub open spec fn elf_header32_from(h: ParameterizedElfHeader<u32>, s: Seq<u8>) -> bool {
    &&& h.e_ident@ == s.subrange(0, 16)
    &&& h.e_type as int == le16(s, 16)
    &&& h.e_machine as int == le16(s, 18)
    &&& h.e_version as int == le32(s, 20)
    &&& h.e_entry as int == le32(s, 24)
    &&& h.e_phoff as int == le32(s, 28)
    &&& h.e_shoff as int == le32(s, 32)
    &&& h.e_flags as int == le32(s, 36)
    &&& h.e_ehsize as int == le16(s, 40)
    &&& h.e_phentsize as int == le16(s, 42)
    &&& h.e_phnum as int == le16(s, 44)
    &&& h.e_shentsize as int == le16(s, 46)
    &&& h.e_shnum as int == le16(s, 48)
    &&& h.e_shstrndx as int == le16(s, 50)
}

pub open spec fn elf_header64_from(h: ParameterizedElfHeader<u64>, s: Seq<u8>) -> bool {
    &&& h.e_ident@ == s.subrange(0, 16)
    &&& h.e_type as int == le16(s, 16)
    &&& h.e_machine as int == le16(s, 18)
    &&& h.e_version as int == le32(s, 20)
    &&& h.e_entry as int == le64(s, 24)
    &&& h.e_phoff as int == le64(s, 32)
    &&& h.e_shoff as int == le64(s, 40)
    &&& h.e_flags as int == le32(s, 48)
    &&& h.e_ehsize as int == le16(s, 52)
    &&& h.e_phentsize as int == le16(s, 54)
    &&& h.e_phnum as int == le16(s, 56)
    &&& h.e_shentsize as int == le16(s, 58)
    &&& h.e_shnum as int == le16(s, 60)
    &&& h.e_shstrndx as int == le16(s, 62)
}

/// The fields of a program header `h` were read from the bytes `s`, laid out
/// as the C structure `ParameterizedProgramHeader` of its class.
pub open spec fn program_header32_from(h: ParameterizedProgramHeader<u32>, s: Seq<u8>) -> bool {
    &&& h.p_type as int == le32(s, 0)
    &&& h.p_flags as int == le32(s, 4)
    &&& h.p_offset as int == le32(s, 8)
    &&& h.p_vaddr as int == le32(s, 12)
    &&& h.p_paddr as int == le32(s, 16)
    &&& h.p_filesz as int == le32(s, 20)
    &&& h.p_memsz as int == le32(s, 24)
    &&& h.p_align as int == le32(s, 28)
}

pub open spec fn program_header64_from(h: ParameterizedProgramHeader<u64>, s: Seq<u8>) -> bool {
    &&& h.p_type as int == le32(s, 0)
    &&& h.p_flags as int == le32(s, 4)
    &&& h.p_offset as int == le64(s, 8)
    &&& h.p_vaddr as int == le64(s, 16)
    &&& h.p_paddr as int == le64(s, 24)
    &&& h.p_filesz as int == le64(s, 32)
    &&& h.p_memsz as int == le64(s, 40)
    &&& h.p_align as int == le64(s, 48)
}

fn ident_of(buf: &[u8]) -> (r: [u8; 16])
    requires
        buf@.len() >= 16,
    ensures
        r@ == buf@.subrange(0, 16),
{
    let r = [
        buf[0],
        buf[1],
        buf[2],
        buf[3],
        buf[4],
        buf[5],
        buf[6],
        buf[7],
        buf[8],
        buf[9],
        buf[10],
        buf[11],
        buf[12],
        buf[13],
        buf[14],
        buf[15],
    ];
    assert(r@ =~= buf@.subrange(0, 16));
    r
}

/// Reads a 32-bit ELF header from the first `ELF_HEADER32_SIZE` bytes.
pub fn parse_elf_header32(buf: &[u8]) -> (h: ParameterizedElfHeader<u32>)
    requires
        buf@.len() >= ELF_HEADER32_SIZE,
    ensures
        elf_header32_from(h, buf@),
{
    ParameterizedElfHeader {
        e_ident: ident_of(buf),
        e_type: u16_at(buf, 16),
        e_machine: u16_at(buf, 18),
        e_version: u32_at(buf, 20),
        e_entry: u32_at(buf, 24),
        e_phoff: u32_at(buf, 28),
        e_shoff: u32_at(buf, 32),
        e_flags: u32_at(buf, 36),
        e_ehsize: u16_at(buf, 40),
        e_phentsize: u16_at(buf, 42),
        e_phnum: u16_at(buf, 44),
        e_shentsize: u16_at(buf, 46),
        e_shnum: u16_at(buf, 48),
        e_shstrndx: u16_at(buf, 50),
    }
}

/// Reads a 64-bit ELF header from the first `ELF_HEADER64_SIZE` bytes.
pub fn parse_elf_header64(buf: &[u8]) -> (h: ParameterizedElfHeader<u64>)
    requires
        buf@.len() >= ELF_HEADER64_SIZE,
    ensures
        elf_header64_from(h, buf@),
{
    ParameterizedElfHeader {
        e_ident: ident_of(buf),
        e_type: u16_at(buf, 16),
        e_machine: u16_at(buf, 18),
        e_version: u32_at(buf, 20),
        e_entry: u64_at(buf, 24),
        e_phoff: u64_at(buf, 32),
        e_shoff: u64_at(buf, 40),
        e_flags: u32_at(buf, 48),
        e_ehsize: u16_at(buf, 52),
        e_phentsize: u16_at(buf, 54),
        e_phnum: u16_at(buf, 56),
        e_shentsize: u16_at(buf, 58),
        e_shnum: u16_at(buf, 60),
        e_shstrndx: u16_at(buf, 62),
    }
}

/// Reads a program header of a 32-bit executable.
pub fn parse_program_header32(buf: &[u8]) -> (h: ParameterizedProgramHeader<u32>)
    requires
        buf@.len() >= PROGRAM_HEADER32_SIZE,
    ensures
        program_header32_from(h, buf@),
{
    ParameterizedProgramHeader {
        p_type: u32_at(buf, 0),
        p_flags: u32_at(buf, 4),
        p_offset: u32_at(buf, 8),
        p_vaddr: u32_at(buf, 12),
        p_paddr: u32_at(buf, 16),
        p_filesz: u32_at(buf, 20),
        p_memsz: u32_at(buf, 24),
        p_align: u32_at(buf, 28),
    }
}

/// Reads a program header of a 64-bit executable.
pub fn parse_program_header64(buf: &[u8]) -> (h: ParameterizedProgramHeader<u64>)
    requires
        buf@.len() >= PROGRAM_HEADER64_SIZE,
    ensures
        program_header64_from(h, buf@),
{
    ParameterizedProgramHeader {
        p_type: u32_at(buf, 0),
        p_flags: u32_at(buf, 4),
        p_offset: u64_at(buf, 8),
        p_vaddr: u64_at(buf, 16),
        p_paddr: u64_at(buf, 24),
        p_filesz: u64_at(buf, 32),
        p_memsz: u64_at(buf, 40),
        p_align: u64_at(buf, 48),
    }
}

/// Size in bytes of the program headers of an executable of class `class`.
pub fn program_header_size_of(class: ExecutableClass) -> (r: usize)
    ensures
        r == (match class {
            ExecutableClass::Class32 => PROGRAM_HEADER32_SIZE,
            ExecutableClass::Class64 => PROGRAM_HEADER64_SIZE,
        }),
{
    match class {
        ExecutableClass::Class32 => PROGRAM_HEADER32_SIZE,
        ExecutableClass::Class64 => PROGRAM_HEADER64_SIZE,
    }
}

/// Size in bytes of the ELF header of an executable of class `class`.
pub fn elf_header_size_of(class: ExecutableClass) -> (r: usize)
    ensures
        r == (match class {
            ExecutableClass::Class32 => ELF_HEADER32_SIZE,
            ExecutableClass::Class64 => ELF_HEADER64_SIZE,
        }),
{
    match class {
        ExecutableClass::Class32 => ELF_HEADER32_SIZE,
        ExecutableClass::Class64 => ELF_HEADER64_SIZE,
    }
}

/// Reads a program header of the given class from the start of `buf`.
pub fn parse_program_header(class: ExecutableClass, buf: &[u8]) -> (h: ProgramHeader)
    requires
        buf@.len() >= (match class {
            ExecutableClass::Class32 => PROGRAM_HEADER32_SIZE,
            ExecutableClass::Class64 => PROGRAM_HEADER64_SIZE,
        }),
    ensures
        match class {
            ExecutableClass::Class32 => h matches ProgramHeader::ProgramHeader32(p)
                && program_header32_from(p, buf@),
            ExecutableClass::Class64 => h matches ProgramHeader::ProgramHeader64(p)
                && program_header64_from(p, buf@),
        },
{
    match class {
        ExecutableClass::Class32 => ProgramHeader::ProgramHeader32(parse_program_header32(buf)),
        ExecutableClass::Class64 => ProgramHeader::ProgramHeader64(parse_program_header64(buf)),
    }
}

impl ElfHeader {
    /// Reads the five first bytes of a file, to determine whether or not
    /// it's an ELF executable, and whether it is 32 or 64 bits.
    pub fn extract_class(prefix: &[u8]) -> (r: Result<ExecutableClass, Error>)
        requires
            prefix@.len() >= 5,
        ensures
            match r {
                Ok(c) => spec_elf_class(prefix@) == Ok::<ExecutableClass, i32>(c),
                Err(e) => spec_elf_class(prefix@) == Err::<ExecutableClass, i32>(e.errno),
            },
    {
        if prefix[0] == 0x7fu8 && prefix[1] == 69u8 && prefix[2] == 76u8 && prefix[3] == 70u8 {
            if prefix[4] == 1u8 {
                Ok(ExecutableClass::Class32)
            } else if prefix[4] == 2u8 {
                Ok(ExecutableClass::Class64)
            } else {
                Err(Error::errno(ENOEXEC))
            }
        } else {
            Err(Error::errno(ENOEXEC))
        }
    }

    /// Extracts the ElfHeader structure from the first bytes of a file: the
    /// ELF magic number and class, then the header structure of that class.
    /// `ENOEXEC` when the bytes are not those of an ELF executable.
    pub fn extract_from(buf: &[u8]) -> (r: Result<ElfHeader, Error>)
        requires
            buf@.len() >= 5,
            spec_elf_class(buf@) == Ok::<ExecutableClass, i32>(ExecutableClass::Class32)
                ==> buf@.len() >= ELF_HEADER32_SIZE,
            spec_elf_class(buf@) == Ok::<ExecutableClass, i32>(ExecutableClass::Class64)
                ==> buf@.len() >= ELF_HEADER64_SIZE,
        ensures
            match r {
                Ok(ElfHeader::ElfHeader32(h)) => spec_elf_class(buf@) == Ok::<
                    ExecutableClass,
                    i32,
                >(ExecutableClass::Class32) && elf_header32_from(h, buf@),
                Ok(ElfHeader::ElfHeader64(h)) => spec_elf_class(buf@) == Ok::<
                    ExecutableClass,
                    i32,
                >(ExecutableClass::Class64) && elf_header64_from(h, buf@),
                Err(e) => spec_elf_class(buf@) == Err::<ExecutableClass, i32>(e.errno),
            },
    {
        match ElfHeader::extract_class(buf) {
            Ok(ExecutableClass::Class32) => Ok(ElfHeader::ElfHeader32(parse_elf_header32(buf))),
            Ok(ExecutableClass::Class64) => Ok(ElfHeader::ElfHeader64(parse_elf_header64(buf))),
            Err(e) => Err(e),
        }
    }

    pub fn get_class(&self) -> (r: ExecutableClass)
        ensures
            r == (match *self {
                ElfHeader::ElfHeader32(_) => ExecutableClass::Class32,
                ElfHeader::ElfHeader64(_) => ExecutableClass::Class64,
            }),
    {
        match *self {
            ElfHeader::ElfHeader32(_) => ExecutableClass::Class32,
            ElfHeader::ElfHeader64(_) => ExecutableClass::Class64,
        }
    }

    /// Calls `func32` or `func64` on the header, depending on its class.
    pub fn apply<
        V,
        F32: FnOnce(ParameterizedElfHeader<u32>) -> Result<V, Error>,
        F64: FnOnce(ParameterizedElfHeader<u64>) -> Result<V, Error>,
    >(&self, func32: F32, func64: F64) -> (r: Result<V, Error>)
        requires
            match *self {
                ElfHeader::ElfHeader32(h) => func32.requires((h,)),
                ElfHeader::ElfHeader64(h) => func64.requires((h,)),
            },
        ensures
            match *self {
                ElfHeader::ElfHeader32(h) => func32.ensures((h,), r),
                ElfHeader::ElfHeader64(h) => func64.ensures((h,), r),
            },
    {
        match *self {
            ElfHeader::ElfHeader32(elf_header) => func32(elf_header),
            ElfHeader::ElfHeader64(elf_header) => func64(elf_header),
        }
    }

    /// The entry point, whatever the class.
    pub fn entry(&self) -> (r: u64)
        ensures
            r == (match *self {
                ElfHeader::ElfHeader32(h) => h.e_entry as u64,
                ElfHeader::ElfHeader64(h) => h.e_entry,
            }),
    {
        match *self {
            ElfHeader::ElfHeader32(h) => h.e_entry as u64,
            ElfHeader::ElfHeader64(h) => h.e_entry,
        }
    }

    /// The program header table offset, whatever the class.
    pub fn phoff(&self) -> (r: u64)
        ensures
            r == (match *self {
                ElfHeader::ElfHeader32(h) => h.e_phoff as u64,
                ElfHeader::ElfHeader64(h) => h.e_phoff,
            }),
    {
        match *self {
            ElfHeader::ElfHeader32(h) => h.e_phoff as u64,
            ElfHeader::ElfHeader64(h) => h.e_phoff,
        }
    }

    /// The number of program headers, whatever the class.
    pub fn phnum(&self) -> (r: u16)
        ensures
            r == (match *self {
                ElfHeader::ElfHeader32(h) => h.e_phnum,
                ElfHeader::ElfHeader64(h) => h.e_phnum,
            }),
    {
        match *self {
            ElfHeader::ElfHeader32(h) => h.e_phnum,
            ElfHeader::ElfHeader64(h) => h.e_phnum,
        }
    }

    /// The object file type, whatever the class.
    pub fn e_type(&self) -> (r: u16)
        ensures
            r == (match *self {
                ElfHeader::ElfHeader32(h) => h.e_type,
                ElfHeader::ElfHeader64(h) => h.e_type,
            }),
    {
        match *self {
            ElfHeader::ElfHeader32(h) => h.e_type,
            ElfHeader::ElfHeader64(h) => h.e_type,
        }
    }

    /// The sanity checks of the loader: an executable or shared object whose
    /// program header size matches its class.
    pub fn check(&self) -> (r: Result<(), Error>)
        ensures
            r is Ok <==> (match *self {
                ElfHeader::ElfHeader32(h) => (h.e_type == ET_EXEC || h.e_type == ET_DYN)
                    && h.e_phentsize == 32,
                ElfHeader::ElfHeader64(h) => (h.e_type == ET_EXEC || h.e_type == ET_DYN)
                    && h.e_phentsize == 56,
            }),
            r matches Err(e) ==> (match *self {
                ElfHeader::ElfHeader32(h) => if h.e_type == ET_EXEC || h.e_type == ET_DYN {
                    e.errno == ENOTSUP
                } else {
                    e.errno == EINVAL
                },
                ElfHeader::ElfHeader64(h) => if h.e_type == ET_EXEC || h.e_type == ET_DYN {
                    e.errno == ENOTSUP
                } else {
                    e.errno == EINVAL
                },
            }),
    {
        match *self {
            ElfHeader::ElfHeader32(h) => {
                h.is_exec_or_dyn()?;
                h.is_known_phentsize()
            },
            ElfHeader::ElfHeader64(h) => {
                h.is_exec_or_dyn()?;
                h.is_known_phentsize()
            },
        }
    }
}

} // verus!
