use vstd::prelude::*;

use crate::errors::{Error, EINVAL};
use crate::register::reader::{words_bytes, words_to_bytes};
use crate::kernel::execve::elf::{
    ElfHeader, ExecutableClass, ParameterizedElfHeader, ProgramHeader, ET_DYN, PF_R, PF_W, PF_X,
    PT_GNU_STACK, PT_INTERP, PT_LOAD,
};

verus! {

/// `PROT_NONE` of `mmap(2)`.
pub const PROT_NONE: u32 = 0;
/// `PROT_READ` of `mmap(2)`.
pub const PROT_READ: u32 = 1;
/// `PROT_WRITE` of `mmap(2)`.
pub const PROT_WRITE: u32 = 2;
/// `PROT_EXEC` of `mmap(2)`.
pub const PROT_EXEC: u32 = 4;
/// `MAP_PRIVATE` of `mmap(2)`.
pub const MAP_PRIVATE: u32 = 0x02;
/// `MAP_FIXED` of `mmap(2)`.
pub const MAP_FIXED: u32 = 0x10;
/// `MAP_ANONYMOUS` of `mmap(2)`.
pub const MAP_ANONYMOUS: u32 = 0x20;

pub const HAS_LOADER_32BIT: bool = true;
pub const EXEC_PIC_ADDRESS: u64 = 0x500000000000;
pub const INTERP_PIC_ADDRESS: u64 = 0x6f0000000000;
pub const EXEC_PIC_ADDRESS_32: u64 = 0x0f000000;
pub const INTERP_PIC_ADDRESS_32: u64 = 0xaf000000;

/// One memory mapping the loader performs; `prot` and `flags` are the bit
/// sets of `mmap(2)`.
#[derive(Debug, Clone, Copy, PartialEq, Eq)]
pub struct Mapping {
    pub addr: u64,
    pub length: u64,
    pub clear_length: u64,
    pub prot: u32,
    pub flags: u32,
    pub fd: Option<u64>,
    pub offset: u64,
}

/// What the loader needs to know of an executable (and of its ELF
/// interpreter, if any).
#[derive(Debug)]
pub struct LoadInfo {
    pub raw_path: Option<Vec<u8>>,
    pub user_path: Option<Vec<u8>>,
    pub host_path: Option<Vec<u8>>,
    pub elf_header: ElfHeader,
    pub mappings: Vec<Mapping>,
    pub interp: Option<Box<LoadInfo>>,
    pub needs_executable_stack: bool,
}

/// What the caller must do after a program header was processed.
#[derive(Debug, Clone, Copy, PartialEq, Eq, Structural)]
pub enum SegmentAction {
    /// Nothing more.
    Done,
    /// Read the `path_size` bytes at `offset` of the file (the path of the
    /// ELF interpreter), load that interpreter and record it with
    /// `LoadInfo::set_interp`.
    LoadInterp { offset: u64, path_size: usize },
}

/// `success_flag` when `flags` has a bit of `compare_flag`, else `default_flag`.
pub fn process_flag<T>(flags: u32, compare_flag: u32, success_flag: T, default_flag: T) -> (r: T)
    ensures
        r == (if flags & compare_flag > 0 {
            success_flag
        } else {
            default_flag
        }),
{
    if flags & compare_flag > 0 {
        success_flag
    } else {
        default_flag
    }
}

/// The `mmap(2)` protection matching the permission flags of a segment.
pub open spec fn prot_of(flags: u32) -> u32 {
    (if flags & PF_R > 0 {
        PROT_READ
    } else {
        PROT_NONE
    }) | (if flags & PF_W > 0 {
        PROT_WRITE
    } else {
        PROT_NONE
    }) | (if flags & PF_X > 0 {
        PROT_EXEC
    } else {
        PROT_NONE
    })
}

/// Converts the permission flags of a segment into a `mmap(2)` protection.
pub fn process_prot_flags(flags: u32) -> (r: u32)
    ensures
        r == prot_of(flags),
{
    let read_flag = process_flag(flags, PF_R, PROT_READ, PROT_NONE);
    let write_flag = process_flag(flags, PF_W, PROT_WRITE, PROT_NONE);
    let execute_flag = process_flag(flags, PF_X, PROT_EXEC, PROT_NONE);
    read_flag | write_flag | execute_flag
}

/// A page size is a power of two.
pub open spec fn valid_page_size(page_size: u64) -> bool {
    page_size != 0 && page_size & ((page_size - 1) as u64) == 0
}

/// Mask that rounds an address down to the start of its page.
pub open spec fn page_mask(page_size: u64) -> u64 {
    !((page_size - 1) as u64)
}

proof fn lemma_mask_monotonic(a: u64, b: u64, p: u64)
    requires
        p != 0,
        p & ((p - 1) as u64) == 0,
        a <= b,
    ensures
        a & !((p - 1) as u64) <= b & !((p - 1) as u64),
{
    assert(p != 0 && p & ((p - 1) as u64) == 0 && a <= b ==> a & !((p - 1) as u64) <= b & !((p - 1) as u64))
        by (bit_vector);
}

proof fn lemma_mask_below(x: u64, p: u64)
    requires
        p != 0,
        p & ((p - 1) as u64) == 0,
    ensures
        x & !((p - 1) as u64) <= x,
        x - (x & !((p - 1) as u64)) < p,
{
    assert(p != 0 && p & ((p - 1) as u64) == 0 ==> x & !((p - 1) as u64) <= x) by (bit_vector);
    assert(p != 0 && p & ((p - 1) as u64) == 0 ==> x - (x & !((p - 1) as u64)) < p) by (bit_vector);
}

/// The segment fits in the address space: its ends, rounded up by one
/// page, do not overflow.
pub open spec fn segment_fits(vaddr: u64, memsz: u64, filesz: u64, page_size: u64) -> bool {
    &&& vaddr + filesz + page_size <= u64::MAX
    &&& memsz > filesz ==> vaddr + memsz + page_size <= u64::MAX
}

/// The mappings of a loadable segment: its file-backed pages, then, when
/// the segment is larger in memory than in the file, the anonymous pages
/// that hold the rest (`man 7 elf`).
pub open spec fn segment_mappings(
    vaddr: u64,
    memsz: u64,
    filesz: u64,
    offset: u64,
    flags: u32,
    page_size: u64,
) -> Seq<Mapping> {
    let mask = page_mask(page_size);
    let start = vaddr & mask;
    let end = ((vaddr + filesz + page_size) as u64) & mask;
    let first = Mapping {
        fd: None,
        offset: offset & mask,
        addr: start,
        length: (end - start) as u64,
        flags: MAP_PRIVATE | MAP_FIXED,
        prot: prot_of(flags),
        clear_length: if memsz > filesz {
            (end - vaddr - filesz) as u64
        } else {
            0
        },
    };
    if memsz > filesz {
        let end2 = ((vaddr + memsz + page_size) as u64) & mask;
        if end2 > end {
            seq![
                first,
                Mapping {
                    fd: None,
                    offset: 0,
                    addr: end,
                    length: (end2 - end) as u64,
                    clear_length: 0,
                    flags: MAP_PRIVATE | MAP_ANONYMOUS | MAP_FIXED,
                    prot: prot_of(flags),
                },
            ]
        } else {
            seq![first]
        }
    } else {
        seq![first]
    }
}

/// The fields of a program header, widened to 64 bits.
pub open spec fn ph_type(ph: ProgramHeader) -> u32 {
    match ph {
        ProgramHeader::ProgramHeader32(h) => h.p_type,
        ProgramHeader::ProgramHeader64(h) => h.p_type,
    }
}

pub open spec fn ph_flags(ph: ProgramHeader) -> u32 {
    match ph {
        ProgramHeader::ProgramHeader32(h) => h.p_flags,
        ProgramHeader::ProgramHeader64(h) => h.p_flags,
    }
}

pub open spec fn ph_vaddr(ph: ProgramHeader) -> u64 {
    match ph {
        ProgramHeader::ProgramHeader32(h) => h.p_vaddr as u64,
        ProgramHeader::ProgramHeader64(h) => h.p_vaddr,
    }
}

pub open spec fn ph_memsz(ph: ProgramHeader) -> u64 {
    match ph {
        ProgramHeader::ProgramHeader32(h) => h.p_memsz as u64,
        ProgramHeader::ProgramHeader64(h) => h.p_memsz,
    }
}

pub open spec fn ph_filesz(ph: ProgramHeader) -> u64 {
    match ph {
        ProgramHeader::ProgramHeader32(h) => h.p_filesz as u64,
        ProgramHeader::ProgramHeader64(h) => h.p_filesz,
    }
}

pub open spec fn ph_offset(ph: ProgramHeader) -> u64 {
    match ph {
        ProgramHeader::ProgramHeader32(h) => h.p_offset as u64,
        ProgramHeader::ProgramHeader64(h) => h.p_offset,
    }
}

fn program_header_fields(ph: &ProgramHeader) -> (r: (u32, u32, u64, u64, u64, u64))
    ensures
        r == (ph_type(*ph), ph_flags(*ph), ph_vaddr(*ph), ph_memsz(*ph), ph_filesz(*ph), ph_offset(
            *ph,
        )),
{
    match *ph {
        ProgramHeader::ProgramHeader32(h) => (
            h.p_type,
            h.p_flags,
            h.p_vaddr as u64,
            h.p_memsz as u64,
            h.p_filesz as u64,
            h.p_offset as u64,
        ),
        ProgramHeader::ProgramHeader64(h) => (
            h.p_type,
            h.p_flags,
            h.p_vaddr,
            h.p_memsz,
            h.p_filesz,
            h.p_offset,
        ),
    }
}

/// A header is position independent when it describes a shared object.
pub open spec fn is_pos_indep(h: ElfHeader) -> bool {
    match h {
        ElfHeader::ElfHeader32(e) => e.e_type == ET_DYN,
        ElfHeader::ElfHeader64(e) => e.e_type == ET_DYN,
    }
}

/// The header with `load_base` added to its entry point.
pub open spec fn header_with_base(h: ElfHeader, load_base: u64) -> ElfHeader {
    match h {
        ElfHeader::ElfHeader32(e) => ElfHeader::ElfHeader32(
            ParameterizedElfHeader { e_entry: (e.e_entry + (load_base as u32)) as u32, ..e },
        ),
        ElfHeader::ElfHeader64(e) => ElfHeader::ElfHeader64(
            ParameterizedElfHeader { e_entry: (e.e_entry + load_base) as u64, ..e },
        ),
    }
}

/// `load_base` can be added to every address of `li` without overflow.
pub open spec fn base_fits(li: LoadInfo, load_base: u64) -> bool {
    &&& forall|i: int|
        0 <= i < li.mappings@.len() ==> #[trigger] li.mappings@[i].addr + load_base <= u64::MAX
    &&& match li.elf_header {
        ElfHeader::ElfHeader32(e) => e.e_entry + (load_base as u32) <= u32::MAX,
        ElfHeader::ElfHeader64(e) => e.e_entry + load_base <= u64::MAX,
    }
}

/// The load base of a position-independent object (the main executable or
/// its interpreter, 32 or 64 bits).
pub open spec fn load_base_for(h: ElfHeader, is_interp: bool) -> u64 {
    let class32 = h is ElfHeader32;
    if HAS_LOADER_32BIT && class32 {
        if is_interp {
            INTERP_PIC_ADDRESS_32
        } else {
            EXEC_PIC_ADDRESS_32
        }
    } else {
        if is_interp {
            INTERP_PIC_ADDRESS
        } else {
            EXEC_PIC_ADDRESS
        }
    }
}

/// `li` gets relocated: it is position independent and its first mapping is
/// at address 0.
pub open spec fn needs_relocation(li: LoadInfo) -> bool {
    is_pos_indep(li.elf_header) && li.mappings@.len() > 0 && li.mappings@[0].addr == 0
}

/// The relocation of `li` can be computed: the first mapping exists when the
/// object is position independent, and the addresses do not overflow.
pub open spec fn relocatable(li: LoadInfo, is_interp: bool) -> bool
    decreases li,
{
    &&& is_pos_indep(li.elf_header) ==> li.mappings@.len() > 0
    &&& needs_relocation(li) ==> base_fits(li, load_base_for(li.elf_header, is_interp))
    &&& !is_interp ==> match li.interp {
        Some(b) => relocatable(*b, true),
        None => true,
    }
}

/// The mappings moved by `load_base`.
pub open spec fn mappings_with_base(m: Seq<Mapping>, load_base: u64) -> Seq<Mapping> {
    m.map_values(|x: Mapping| Mapping { addr: (x.addr + load_base) as u64, ..x })
}

/// `n` is `o` relocated by `compute_load_addresses(is_interp)`.
pub open spec fn relocated_from(n: LoadInfo, o: LoadInfo, is_interp: bool) -> bool
    decreases o,
{
    let base = load_base_for(o.elf_header, is_interp);
    &&& n.mappings@ == (if needs_relocation(o) {
        mappings_with_base(o.mappings@, base)
    } else {
        o.mappings@
    })
    &&& n.elf_header == (if needs_relocation(o) {
        header_with_base(o.elf_header, base)
    } else {
        o.elf_header
    })
    &&& n.raw_path == o.raw_path
    &&& n.user_path == o.user_path
    &&& n.host_path == o.host_path
    &&& n.needs_executable_stack == o.needs_executable_stack
    &&& if is_interp {
        n.interp == o.interp
    } else {
        match (o.interp, n.interp) {
            (Some(a), Some(b)) => relocated_from(*b, *a, true),
            (None, None) => true,
            _ => false,
        }
    }
}

impl LoadInfo {
    pub fn new(elf_header: ElfHeader) -> (r: LoadInfo)
        ensures
            r.raw_path is None,
            r.user_path is None,
            r.host_path is None,
            r.elf_header == elf_header,
            r.mappings@ == Seq::<Mapping>::empty(),
            r.interp is None,
            !r.needs_executable_stack,
    {
        LoadInfo {
            raw_path: None,
            user_path: None,
            host_path: None,
            elf_header: elf_header,
            mappings: Vec::new(),
            interp: None,
            needs_executable_stack: false,
        }
    }

    /// Processes a loadable segment into the mappings that hold it, which are
    /// appended to the mappings list.
    pub fn add_mapping(&mut self, program_header: &ProgramHeader, page_size: u64)
        requires
            valid_page_size(page_size),
            segment_fits(
                ph_vaddr(*program_header),
                ph_memsz(*program_header),
                ph_filesz(*program_header),
                page_size,
            ),
        ensures
            final(self).mappings@ == old(self).mappings@ + segment_mappings(
                ph_vaddr(*program_header),
                ph_memsz(*program_header),
                ph_filesz(*program_header),
                ph_offset(*program_header),
                ph_flags(*program_header),
                page_size,
            ),
            final(self).raw_path == old(self).raw_path,
            final(self).user_path == old(self).user_path,
            final(self).host_path == old(self).host_path,
            final(self).elf_header == old(self).elf_header,
            final(self).interp == old(self).interp,
            final(self).needs_executable_stack == old(self).needs_executable_stack,
    {
        let (_p_type, flags, vaddr, memsz, filesz, offset) = program_header_fields(program_header);
        let page_mask = !(page_size - 1);
        proof {
            lemma_mask_monotonic(vaddr, (vaddr + filesz + page_size) as u64, page_size);
            lemma_mask_below(vaddr, page_size);
            lemma_mask_below((vaddr + filesz + page_size) as u64, page_size);
        }
        let start_address = vaddr & page_mask;
        let end_address = (vaddr + filesz + page_size) & page_mask;
        let prot = process_prot_flags(flags);

        let mut mapping = Mapping {
            fd: None,  // unknown yet
            offset: offset & page_mask,
            addr: start_address,
            length: end_address - start_address,
            flags: MAP_PRIVATE | MAP_FIXED,
            prot: prot,
            clear_length: 0,
        };

        // "If the segment's memory size p_memsz is larger than the
        // file size p_filesz, the "extra" bytes are defined to hold
        // the value 0 and to follow the segment's initialized area."
        // -- man 7 elf.
        if memsz > filesz {
            // How many extra bytes in the current page?
            mapping.clear_length = end_address - vaddr - filesz;

            self.mappings.push(mapping);

            let start_address = end_address;
            let end_address = (vaddr + memsz + page_size) & page_mask;

            // Create new pages for the remaining extra bytes.
            if end_address > start_address {
                let new_mapping = Mapping {
                    fd: None,
                    offset: 0,
                    addr: start_address,
                    length: end_address - start_address,
                    clear_length: 0,
                    flags: MAP_PRIVATE | MAP_ANONYMOUS | MAP_FIXED,
                    prot: prot,
                };
                self.mappings.push(new_mapping);
            }
        } else {
            self.mappings.push(mapping);
        }
    }

    /// Whether `add_program_header` can take this program header: a
    /// loadable segment must fit in the address space (rounded to pages),
    /// and the path of a first interpreter must be at least its NUL.
    pub fn can_add_program_header(&self, program_header: &ProgramHeader, page_size: u64) -> (r:
        bool)
        ensures
            r == ((ph_type(*program_header) == PT_LOAD ==> segment_fits(
                ph_vaddr(*program_header),
                ph_memsz(*program_header),
                ph_filesz(*program_header),
                page_size,
            )) && (ph_type(*program_header) == PT_INTERP && self.interp is None ==> 1
                <= ph_filesz(*program_header) <= usize::MAX)),
    {
        let (p_type, _flags, vaddr, memsz, filesz, _offset) = program_header_fields(program_header);
        if p_type == PT_LOAD {
            if vaddr > u64::MAX - filesz || vaddr + filesz > u64::MAX - page_size {
                return false;
            }
            if memsz > filesz && (vaddr > u64::MAX - memsz || vaddr + memsz > u64::MAX - page_size) {
                return false;
            }
        }
        if p_type == PT_INTERP && self.interp.is_none() {
            if filesz < 1 || filesz > usize::MAX as u64 {
                return false;
            }
        }
        true
    }

    /// Processes one program header: a loadable segment becomes mappings, a
    /// `PT_GNU_STACK` segment tells whether the stack must be executable,
    /// and a `PT_INTERP` segment asks for the ELF interpreter to be loaded
    /// (only one is allowed: `EINVAL` for a second one).
    pub fn add_program_header(&mut self, program_header: &ProgramHeader, page_size: u64) -> (r:
        Result<SegmentAction, Error>)
        requires
            valid_page_size(page_size),
            ph_type(*program_header) == PT_LOAD ==> segment_fits(
                ph_vaddr(*program_header),
                ph_memsz(*program_header),
                ph_filesz(*program_header),
                page_size,
            ),
            ph_type(*program_header) == PT_INTERP && old(self).interp is None ==> 1
                <= ph_filesz(*program_header) <= usize::MAX,
        ensures
            ph_type(*program_header) == PT_LOAD ==> r == Ok::<SegmentAction, Error>(
                SegmentAction::Done,
            ) && final(self).mappings@ == old(self).mappings@ + segment_mappings(
                ph_vaddr(*program_header),
                ph_memsz(*program_header),
                ph_filesz(*program_header),
                ph_offset(*program_header),
                ph_flags(*program_header),
                page_size,
            ) && final(self).needs_executable_stack == old(self).needs_executable_stack,
            ph_type(*program_header) == PT_INTERP ==> *final(self) == *old(self) && (if old(self).interp is Some {
                r == Err::<SegmentAction, Error>(Error { errno: EINVAL })
            } else {
                r == Ok::<SegmentAction, Error>(
                    SegmentAction::LoadInterp {
                        offset: ph_offset(*program_header),
                        path_size: (ph_filesz(*program_header) - 1) as usize,
                    },
                )
            }),
            ph_type(*program_header) == PT_GNU_STACK ==> r == Ok::<SegmentAction, Error>(
                SegmentAction::Done,
            ) && final(self).mappings@ == old(self).mappings@
                && final(self).needs_executable_stack == (prot_of(ph_flags(*program_header))
                & PROT_EXEC == PROT_EXEC),
            ph_type(*program_header) != PT_LOAD && ph_type(*program_header) != PT_INTERP
                && ph_type(*program_header) != PT_GNU_STACK ==> r == Ok::<SegmentAction, Error>(
                SegmentAction::Done,
            ) && *final(self) == *old(self),
            final(self).raw_path == old(self).raw_path,
            final(self).user_path == old(self).user_path,
            final(self).host_path == old(self).host_path,
            final(self).elf_header == old(self).elf_header,
            final(self).interp == old(self).interp,
    {
        let (segment_type, flags, _vaddr, _memsz, filesz, offset) = program_header_fields(
            program_header,
        );
        if segment_type == PT_LOAD {
            // Loadable segment. The bytes from the file are mapped to the
            // beginning of the memory segment.
            self.add_mapping(program_header, page_size);
            Ok(SegmentAction::Done)
        } else if segment_type == PT_INTERP {
            // Only one PT_INTERP segment is allowed.
            if self.interp.is_some() {
                return Err(Error::errno(EINVAL));
            }
            // the -1 is to avoid the null char `\0`
            Ok(SegmentAction::LoadInterp { offset: offset, path_size: (filesz - 1) as usize })
        } else if segment_type == PT_GNU_STACK {
            // Check if the stack of this executable file is executable (NX disabled)
            let prot = process_prot_flags(flags);
            self.needs_executable_stack = prot & PROT_EXEC == PROT_EXEC;
            Ok(SegmentAction::Done)
        } else {
            Ok(SegmentAction::Done)
        }
    }

    /// Records the ELF interpreter of this executable, once loaded.
    pub fn set_interp(&mut self, interp: LoadInfo, host_path: Vec<u8>, user_path: Vec<u8>)
        ensures
            final(self).interp matches Some(b) && b.host_path == Some(host_path) && b.user_path
                == Some(user_path) && b.raw_path == interp.raw_path && b.elf_header
                == interp.elf_header && b.mappings == interp.mappings && b.interp == interp.interp
                && b.needs_executable_stack == interp.needs_executable_stack,
            final(self).raw_path == old(self).raw_path,
            final(self).user_path == old(self).user_path,
            final(self).host_path == old(self).host_path,
            final(self).elf_header == old(self).elf_header,
            final(self).mappings == old(self).mappings,
            final(self).needs_executable_stack == old(self).needs_executable_stack,
    {
        let mut load_info = interp;
        load_info.host_path = Some(host_path);
        load_info.user_path = Some(user_path);
        self.interp = Some(Box::new(load_info));
    }

    /// Adds `load_base` to each address of this object: its mappings and its
    /// entry point.
    pub fn add_load_base(&mut self, load_base: u64) -> (r: Result<(), Error>)
        requires
            base_fits(*old(self), load_base),
        ensures
            r is Ok,
            final(self).mappings@ == mappings_with_base(old(self).mappings@, load_base),
            final(self).elf_header == header_with_base(old(self).elf_header, load_base),
            final(self).raw_path == old(self).raw_path,
            final(self).user_path == old(self).user_path,
            final(self).host_path == old(self).host_path,
            final(self).interp == old(self).interp,
            final(self).needs_executable_stack == old(self).needs_executable_stack,
    {
        let n = self.mappings.len();
        let mut i: usize = 0;
        while i < n
            invariant
                0 <= i <= n,
                n == self.mappings@.len(),
                n == old(self).mappings@.len(),
                base_fits(*old(self), load_base),
                forall|j: int|
                    0 <= j < i ==> #[trigger] self.mappings@[j] == (Mapping {
                        addr: (old(self).mappings@[j].addr + load_base) as u64,
                        ..old(self).mappings@[j]
                    }),
                forall|j: int| i <= j < n ==> #[trigger] self.mappings@[j] == old(self).mappings@[j],
                self.raw_path == old(self).raw_path,
                self.user_path == old(self).user_path,
                self.host_path == old(self).host_path,
                self.interp == old(self).interp,
                self.needs_executable_stack == old(self).needs_executable_stack,
                self.elf_header == old(self).elf_header,
            decreases n - i,
        {
            let mut mapping = self.mappings[i];
            assert(old(self).mappings@[i as int].addr + load_base <= u64::MAX);
            mapping.addr = mapping.addr + load_base;
            self.mappings.set(i, mapping);
            i = i + 1;
        }
        assert(self.mappings@ =~= mappings_with_base(old(self).mappings@, load_base));
        self.elf_header = match self.elf_header {
            ElfHeader::ElfHeader32(header32) => {
                let mut header32 = header32;
                header32.e_entry = header32.e_entry + load_base as u32;
                ElfHeader::ElfHeader32(header32)
            },
            ElfHeader::ElfHeader64(header64) => {
                let mut header64 = header64;
                header64.e_entry = header64.e_entry + load_base;
                ElfHeader::ElfHeader64(header64)
            },
        };
        Ok(())
    }

    /// Whether the load base fits: no mapping address nor entry point
    /// overflows once it is added.
    fn base_fits_exec(&self, load_base: u64) -> (r: bool)
        ensures
            r == base_fits(*self, load_base),
    {
        let n = self.mappings.len();
        let mut i: usize = 0;
        while i < n
            invariant
                i <= n == self.mappings@.len(),
                forall|k: int| 0 <= k < i ==> #[trigger] self.mappings@[k].addr + load_base <= u64::MAX,
            decreases n - i,
        {
            if self.mappings[i].addr > u64::MAX - load_base {
                return false;
            }
            i = i + 1;
        }
        match &self.elf_header {
            ElfHeader::ElfHeader32(e) => {
                let b = load_base as u32;
                e.e_entry <= u32::MAX - b
            },
            ElfHeader::ElfHeader64(e) => e.e_entry <= u64::MAX - load_base,
        }
    }

    /// Whether the load addresses can be computed: a position-independent
    /// object has mappings, and its load base overflows no address, nor
    /// does its interpreter's.
    pub fn is_relocatable(&self, is_interp: bool) -> (r: bool)
        ensures
            r == relocatable(*self, is_interp),
        decreases self,
    {
        let pos_indep = match &self.elf_header {
            ElfHeader::ElfHeader32(e) => e.e_type == ET_DYN,
            ElfHeader::ElfHeader64(e) => e.e_type == ET_DYN,
        };
        if pos_indep && self.mappings.len() == 0 {
            return false;
        }
        if pos_indep && self.mappings[0].addr == 0 {
            let class32 = match &self.elf_header {
                ElfHeader::ElfHeader32(_) => true,
                ElfHeader::ElfHeader64(_) => false,
            };
            let base = if HAS_LOADER_32BIT && class32 {
                if is_interp {
                    INTERP_PIC_ADDRESS_32
                } else {
                    EXEC_PIC_ADDRESS_32
                }
            } else {
                if is_interp {
                    INTERP_PIC_ADDRESS
                } else {
                    EXEC_PIC_ADDRESS
                }
            };
            if !self.base_fits_exec(base) {
                return false;
            }
        }
        if !is_interp {
            match &self.interp {
                Some(b) => b.is_relocatable(true),
                None => true,
            }
        } else {
            true
        }
    }

    /// Computes the final load address of each position-independent object:
    /// an object whose first mapping is at address 0 is moved to the load
    /// base of its kind (executable or interpreter, 32 or 64 bits); the
    /// interpreter of an executable is processed too.
    pub fn compute_load_addresses(&mut self, is_interp: bool) -> (r: Result<(), Error>)
        requires
            relocatable(*old(self), is_interp),
        ensures
            r is Ok,
            relocated_from(*final(self), *old(self), is_interp),
        decreases
                if is_interp {
                    0int
                } else {
                    1int
                },
    {
        let is_pos_indep = match self.elf_header {
            ElfHeader::ElfHeader32(header) => header.is_position_independent()?,
            ElfHeader::ElfHeader64(header) => header.is_position_independent()?,
        };
        let (load_base_32, load_base) = if is_interp {
            (INTERP_PIC_ADDRESS_32, INTERP_PIC_ADDRESS)  // interp
        } else {
            (EXEC_PIC_ADDRESS_32, EXEC_PIC_ADDRESS)  // exec
        };

        if is_pos_indep && self.mappings[0].addr == 0 {
            if HAS_LOADER_32BIT && self.elf_header.get_class() == ExecutableClass::Class32 {
                self.add_load_base(load_base_32)?;
            } else {
                self.add_load_base(load_base)?;
            }
        }
        if !is_interp {
            let taken = self.interp.take();
            match taken {
                Some(interp_load_info) => {
                    let mut interp_load_info = interp_load_info;
                    (&mut *interp_load_info).compute_load_addresses(true)?;
                    self.interp = Some(interp_load_info);
                },
                None => {},
            }
        }
        Ok(())
    }
}

/// The operand of an `open` statement of the loader script.
#[derive(Debug, Clone, Copy, PartialEq, Eq, Structural)]
pub struct LoadStatementOpen {
    pub string_address: u64,
}

/// The operands of an `mmap` statement of the loader script.
#[derive(Debug, Clone, Copy, PartialEq, Eq, Structural)]
pub struct LoadStatementMmap {
    pub addr: u64,
    pub length: u64,
    pub prot: u64,
    pub offset: u64,
    pub clear_length: u64,
}

/// The operand of the statement that makes the stack executable.
#[derive(Debug, Clone, Copy, PartialEq, Eq, Structural)]
pub struct LoadStatementStackExec {
    pub start: u64,
}

/// The operands of the statement that starts the program.
#[derive(Debug, Clone, Copy, PartialEq, Eq, Structural)]
pub struct LoadStatementStart {
    pub stack_pointer: u64,
    pub entry_point: u64,
    pub at_phdr: u64,
    pub at_phent: u64,
    pub at_phnum: u64,
    pub at_entry: u64,
    pub at_execfn: u64,
}

/// A statement of the script that the loader runs in the tracee.
#[derive(Debug, Clone, Copy, PartialEq, Eq, Structural)]
pub enum LoadStatement {
    OpenNext(LoadStatementOpen),
    Open(LoadStatementOpen),
    MmapFile(LoadStatementMmap),
    MmapAnonymous(LoadStatementMmap),
    MakeStackExec(LoadStatementStackExec),
    StartTraced(LoadStatementStart),
    Start(LoadStatementStart),
}

/// The words of a statement as the loader reads them: its tag (the
/// variant's position), then its operands in order.
pub open spec fn statement_words(s: LoadStatement) -> Seq<u64> {
    match s {
        LoadStatement::OpenNext(o) => seq![0u64, o.string_address],
        LoadStatement::Open(o) => seq![1u64, o.string_address],
        LoadStatement::MmapFile(m) => seq![2u64, m.addr, m.length, m.prot, m.offset, m.clear_length],
        LoadStatement::MmapAnonymous(m) => seq![3u64, m.addr, m.length, m.prot, m.offset, m.clear_length],
        LoadStatement::MakeStackExec(e) => seq![4u64, e.start],
        LoadStatement::StartTraced(t) => seq![
            5u64,
            t.stack_pointer,
            t.entry_point,
            t.at_phdr,
            t.at_phent,
            t.at_phnum,
            t.at_entry,
            t.at_execfn,
        ],
        LoadStatement::Start(t) => seq![
            6u64,
            t.stack_pointer,
            t.entry_point,
            t.at_phdr,
            t.at_phent,
            t.at_phnum,
            t.at_entry,
            t.at_execfn,
        ],
    }
}

fn start_words(tag: u64, t: LoadStatementStart) -> (r: Vec<u64>)
    ensures
        r@ == seq![
            tag,
            t.stack_pointer,
            t.entry_point,
            t.at_phdr,
            t.at_phent,
            t.at_phnum,
            t.at_entry,
            t.at_execfn,
        ],
{
    let r = vec![
        tag,
        t.stack_pointer,
        t.entry_point,
        t.at_phdr,
        t.at_phent,
        t.at_phnum,
        t.at_entry,
        t.at_execfn,
    ];
    assert(r@ =~= seq![
        tag,
        t.stack_pointer,
        t.entry_point,
        t.at_phdr,
        t.at_phent,
        t.at_phnum,
        t.at_entry,
        t.at_execfn,
    ]);
    r
}

fn mmap_words(tag: u64, m: LoadStatementMmap) -> (r: Vec<u64>)
    ensures
        r@ == seq![tag, m.addr, m.length, m.prot, m.offset, m.clear_length],
{
    let r = vec![tag, m.addr, m.length, m.prot, m.offset, m.clear_length];
    assert(r@ =~= seq![tag, m.addr, m.length, m.prot, m.offset, m.clear_length]);
    r
}

fn pair_words(tag: u64, v: u64) -> (r: Vec<u64>)
    ensures
        r@ == seq![tag, v],
{
    let r = vec![tag, v];
    assert(r@ =~= seq![tag, v]);
    r
}

impl LoadStatement {
    /// The bytes of the statement, as written into the tracee for the
    /// loader.
    pub fn as_bytes(&self) -> (r: Vec<u8>)
        ensures
            r@ == words_bytes(statement_words(*self)),
    {
        let words = match *self {
            LoadStatement::OpenNext(o) => pair_words(0, o.string_address),
            LoadStatement::Open(o) => pair_words(1, o.string_address),
            LoadStatement::MmapFile(m) => mmap_words(2, m),
            LoadStatement::MmapAnonymous(m) => mmap_words(3, m),
            LoadStatement::MakeStackExec(e) => pair_words(4, e.start),
            LoadStatement::StartTraced(t) => start_words(5, t),
            LoadStatement::Start(t) => start_words(6, t),
        };
        words_to_bytes(words.as_slice())
    }
}

/// Whether the mapping `m` holds the address `a`.
pub open spec fn maps_address(m: Mapping, a: int) -> bool {
    m.addr <= a < m.addr + m.length
}

/// The mappings of a loadable segment cover its whole memory image: every
/// address of `[vaddr, vaddr + memsz)` lies in one of them (the one whose
/// position is returned), and an address past the file-backed pages (the
/// `.bss` beyond the file's bytes, `man 7 elf`) lies in an anonymous
/// mapping.
pub proof fn law_segment_mappings_cover(
    vaddr: u64,
    memsz: u64,
    filesz: u64,
    offset: u64,
    flags: u32,
    page_size: u64,
    a: int,
) -> (i: int)
    requires
        valid_page_size(page_size),
        segment_fits(vaddr, memsz, filesz, page_size),
        vaddr <= a < vaddr + memsz,
    ensures
        ({
            let m = segment_mappings(vaddr, memsz, filesz, offset, flags, page_size);
            &&& 0 <= i < m.len()
            &&& maps_address(m[i], a)
            &&& a >= m[0].addr + m[0].length ==> {
                &&& m[i].flags == MAP_PRIVATE | MAP_ANONYMOUS | MAP_FIXED
                &&& m[i].fd is None
            }
        }),
{
    let p = page_size;
    let start = vaddr & !((p - 1) as u64);
    let x = (vaddr + filesz + p) as u64;
    let end = x & !((p - 1) as u64);
    lemma_mask_below(vaddr, p);
    lemma_mask_below(x, p);
    lemma_mask_monotonic(vaddr, x, p);
    let m = segment_mappings(vaddr, memsz, filesz, offset, flags, page_size);
    assert(m[0].addr == start && m[0].length == end - start);
    if a < end {
        0
    } else {
        let y = (vaddr + memsz + p) as u64;
        let end2 = y & !((p - 1) as u64);
        lemma_mask_below(y, p);
        assert(memsz > filesz);
        assert(end2 > end);
        assert(m[1].addr == end && m[1].length == end2 - end);
        1
    }
}

proof fn lemma_mask_split(x: u64, p: u64)
    requires
        p != 0,
    ensures
        (x & !((p - 1) as u64)) + (x & ((p - 1) as u64)) == x,
{
    assert(p != 0 ==> (x & !((p - 1) as u64)) + (x & ((p - 1) as u64)) == x) by (bit_vector);
}

/// The file-backed mapping of a loadable segment maps its file bytes where
/// they belong: it starts at or below `vaddr`, and an address of the
/// segment reads the file at `offset` plus its distance to `vaddr` (when
/// `vaddr` and `offset` agree within a page, as ELF asks); when the
/// segment is larger in memory than in the file, the bytes of its last file
/// page past `p_filesz` are cleared.
pub proof fn law_segment_file_part(
    vaddr: u64,
    memsz: u64,
    filesz: u64,
    offset: u64,
    flags: u32,
    page_size: u64,
)
    requires
        valid_page_size(page_size),
        segment_fits(vaddr, memsz, filesz, page_size),
    ensures
        ({
            let m = segment_mappings(vaddr, memsz, filesz, offset, flags, page_size);
            &&& m[0].flags == MAP_PRIVATE | MAP_FIXED
            &&& m[0].addr <= vaddr
            &&& vaddr + filesz <= m[0].addr + m[0].length
            &&& vaddr & ((page_size - 1) as u64) == offset & ((page_size - 1) as u64) ==> m[0].offset + (
            vaddr - m[0].addr) == offset
            &&& memsz > filesz ==> m[0].addr + m[0].length - m[0].clear_length == vaddr + filesz
            &&& memsz <= filesz ==> m[0].clear_length == 0
            &&& forall|i: int| 1 <= i < m.len() ==> #[trigger] m[i].offset == 0 && m[i].clear_length == 0
        }),
{
    let p = page_size;
    let x = (vaddr + filesz + p) as u64;
    lemma_mask_below(vaddr, p);
    lemma_mask_below(x, p);
    lemma_mask_monotonic(vaddr, x, p);
    lemma_mask_split(vaddr, p);
    lemma_mask_split(offset, p);
    lemma_mask_below(offset, p);
}

/// The entry point of an ELF header.
pub open spec fn entry_of(h: ElfHeader) -> int {
    match h {
        ElfHeader::ElfHeader32(e) => e.e_entry as int,
        ElfHeader::ElfHeader64(e) => e.e_entry as int,
    }
}

/// Computing the load addresses moves a position-independent object whose
/// first segment is at 0 as a whole: every mapping and the entry point by
/// the same load base, which is the fixed address chosen for an executable
/// or for an interpreter (of 32 or 64 bits), the mappings otherwise kept;
/// any other object is left where it is.
pub proof fn law_relocation_moves_as_a_whole(n: LoadInfo, o: LoadInfo, is_interp: bool)
    requires
        relocated_from(n, o, is_interp),
        relocatable(o, is_interp),
    ensures
        n.mappings@.len() == o.mappings@.len(),
        needs_relocation(o) ==> {
            let base = n.mappings@[0].addr;
            &&& base == (if o.elf_header is ElfHeader32 {
                if is_interp {
                    0xaf000000u64
                } else {
                    0x0f000000u64
                }
            } else {
                if is_interp {
                    0x6f0000000000u64
                } else {
                    0x500000000000u64
                }
            })
            &&& entry_of(n.elf_header) == entry_of(o.elf_header) + base
            &&& forall|i: int|
                0 <= i < o.mappings@.len() ==> {
                    &&& #[trigger] n.mappings@[i].addr == o.mappings@[i].addr + base
                    &&& n.mappings@[i].length == o.mappings@[i].length
                    &&& n.mappings@[i].offset == o.mappings@[i].offset
                    &&& n.mappings@[i].fd == o.mappings@[i].fd
                    &&& n.mappings@[i].flags == o.mappings@[i].flags
                    &&& n.mappings@[i].prot == o.mappings@[i].prot
                    &&& n.mappings@[i].clear_length == o.mappings@[i].clear_length
                }
        },
        !needs_relocation(o) ==> n.mappings@ == o.mappings@ && n.elf_header == o.elf_header,
{
    if needs_relocation(o) {
        let base = load_base_for(o.elf_header, is_interp);
        assert(o.mappings@[0].addr + base <= u64::MAX);
        assert(n.mappings@[0].addr == base);
        match o.elf_header {
            ElfHeader::ElfHeader32(e) => {
                assert(e.e_entry + (base as u32) <= u32::MAX);
                assert((base as u32) == base);
            },
            ElfHeader::ElfHeader64(e) => {},
        }
        assert forall|i: int| 0 <= i < o.mappings@.len() implies #[trigger] n.mappings@[i].addr
            == o.mappings@[i].addr + base by {
            assert(o.mappings@[i].addr + base <= u64::MAX);
        }
    }
}

/// How the loader reads a statement back from its words: the tag (the
/// position of the variant in `LoadStatement`), then the operands.
pub open spec fn decode_statement(w: Seq<u64>) -> Option<LoadStatement> {
    if w.len() == 2 && w[0] == 0 {
        Some(LoadStatement::OpenNext(LoadStatementOpen { string_address: w[1] }))
    } else if w.len() == 2 && w[0] == 1 {
        Some(LoadStatement::Open(LoadStatementOpen { string_address: w[1] }))
    } else if w.len() == 6 && w[0] == 2 {
        Some(
            LoadStatement::MmapFile(
                LoadStatementMmap {
                    addr: w[1],
                    length: w[2],
                    prot: w[3],
                    offset: w[4],
                    clear_length: w[5],
                },
            ),
        )
    } else if w.len() == 6 && w[0] == 3 {
        Some(
            LoadStatement::MmapAnonymous(
                LoadStatementMmap {
                    addr: w[1],
                    length: w[2],
                    prot: w[3],
                    offset: w[4],
                    clear_length: w[5],
                },
            ),
        )
    } else if w.len() == 2 && w[0] == 4 {
        Some(LoadStatement::MakeStackExec(LoadStatementStackExec { start: w[1] }))
    } else if w.len() == 8 && (w[0] == 5 || w[0] == 6) {
        let t = LoadStatementStart {
            stack_pointer: w[1],
            entry_point: w[2],
            at_phdr: w[3],
            at_phent: w[4],
            at_phnum: w[5],
            at_entry: w[6],
            at_execfn: w[7],
        };
        if w[0] == 5 {
            Some(LoadStatement::StartTraced(t))
        } else {
            Some(LoadStatement::Start(t))
        }
    } else {
        None
    }
}

/// The loader reads back every statement as it was written: its first word
/// is the position of its variant (`OpenNext` 0, `Open` 1, `MmapFile` 2,
/// `MmapAnonymous` 3, `MakeStackExec` 4, `StartTraced` 5, `Start` 6), so
/// statements of different kinds never read as one another.
pub proof fn law_statement_reads_back(s: LoadStatement)
    ensures
        decode_statement(statement_words(s)) == Some(s),
        statement_words(s)[0] == (match s {
            LoadStatement::OpenNext(_) => 0u64,
            LoadStatement::Open(_) => 1u64,
            LoadStatement::MmapFile(_) => 2u64,
            LoadStatement::MmapAnonymous(_) => 3u64,
            LoadStatement::MakeStackExec(_) => 4u64,
            LoadStatement::StartTraced(_) => 5u64,
            LoadStatement::Start(_) => 6u64,
        }),
{
}

/// Two statements with the same words are the same statement.
pub proof fn law_statement_words_injective(s1: LoadStatement, s2: LoadStatement)
    requires
        statement_words(s1) == statement_words(s2),
    ensures
        s1 == s2,
{
    law_statement_reads_back(s1);
    law_statement_reads_back(s2);
}

} // verus!
