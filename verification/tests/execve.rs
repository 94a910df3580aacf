use proot_rs::errors::{Error, EACCES, EINVAL, EISDIR, ELOOP, ENOENT, ENOEXEC, ENOTSUP};
use proot_rs::kernel::execve::binfmt::shebang::{extract, load_script, BINPRM_BUF_SIZE};
use proot_rs::kernel::execve::binfmt::{
    Attempt, LoadDriver, LoadResult, LoadStep, LoaderKind, INTERPRETER_REWRITE_LIMIT,
};
use proot_rs::kernel::execve::elf::{
    parse_program_header, ElfHeader, ExecutableClass, ProgramHeader, ET_DYN, ET_EXEC, PT_GNU_STACK,
    PT_INTERP, PT_LOAD, PF_R, PF_X,
};
use proot_rs::kernel::execve::enter::{exec_error, translate as execve_enter};
use proot_rs::kernel::execve::exit::translate as execve_exit;
use proot_rs::kernel::execve::load_info::{
    LoadInfo, LoadStatement, LoadStatementMmap, LoadStatementOpen, SegmentAction,
    EXEC_PIC_ADDRESS, INTERP_PIC_ADDRESS,
};
use proot_rs::kernel::execve::params::{
    argv_pointer_bytes, Arg, ArgvReader, ExecveParameters,
};
use proot_rs::kernel::exit::SyscallExitResult;
use proot_rs::process::tracee::Tracee;
use proot_rs::register::regs::{RegisterSet, Registers, REGISTER_SET_WORDS};

fn buffer_of(content: &[u8]) -> Vec<u8> {
    let mut buffer = vec![0u8; BINPRM_BUF_SIZE];
    buffer[..content.len()].copy_from_slice(content);
    buffer
}

/// The first bytes of a 64-bit ELF file of type `e_type`.
fn elf64_header(e_type: u16, entry: u64, phnum: u16) -> Vec<u8> {
    let mut h = vec![0u8; 64];
    h[..8].copy_from_slice(&[0x7f, b'E', b'L', b'F', 2, 1, 1, 0]);
    h[16..18].copy_from_slice(&e_type.to_le_bytes());
    h[18..20].copy_from_slice(&62u16.to_le_bytes());
    h[20..24].copy_from_slice(&1u32.to_le_bytes());
    h[24..32].copy_from_slice(&entry.to_le_bytes());
    h[32..40].copy_from_slice(&64u64.to_le_bytes());
    h[52..54].copy_from_slice(&64u16.to_le_bytes());
    h[54..56].copy_from_slice(&56u16.to_le_bytes());
    h[56..58].copy_from_slice(&phnum.to_le_bytes());
    h
}

fn ph64(p_type: u32, p_flags: u32, offset: u64, vaddr: u64, filesz: u64, memsz: u64) -> ProgramHeader {
    let mut b = vec![0u8; 56];
    b[0..4].copy_from_slice(&p_type.to_le_bytes());
    b[4..8].copy_from_slice(&p_flags.to_le_bytes());
    b[8..16].copy_from_slice(&offset.to_le_bytes());
    b[16..24].copy_from_slice(&vaddr.to_le_bytes());
    b[24..32].copy_from_slice(&vaddr.to_le_bytes());
    b[32..40].copy_from_slice(&filesz.to_le_bytes());
    b[40..48].copy_from_slice(&memsz.to_le_bytes());
    b[48..56].copy_from_slice(&0x1000u64.to_le_bytes());
    parse_program_header(ExecutableClass::Class64, &b)
}

fn dyn_load_info(entry: u64) -> LoadInfo {
    let header = ElfHeader::extract_from(&elf64_header(ET_DYN, entry, 1)).unwrap();
    let mut load_info = LoadInfo::new(header);
    let ph = ph64(PT_LOAD, PF_R | PF_X, 0, 0, 0x2000, 0x2000);
    assert!(load_info.can_add_program_header(&ph, 0x1000));
    assert_eq!(load_info.add_program_header(&ph, 0x1000), Ok(SegmentAction::Done));
    load_info
}

fn params(raw: &[u8], argv: Vec<Arg>) -> ExecveParameters {
    ExecveParameters {
        raw_guest_path: raw.to_vec(),
        canonical_guest_path: raw.to_vec(),
        host_path: raw.to_vec(),
        argv,
    }
}

fn arg_bytes(arg: &Arg) -> Vec<u8> {
    match arg {
        Arg::CStringInSelf(s) => s.clone(),
        Arg::CStringInTracee(a) => a.to_le_bytes().to_vec(),
    }
}

#[test]
fn shebang_test_extract_shebang_not_script() {
    // an ELF executable is no script
    let elf = elf64_header(ET_EXEC, 0x401000, 0);
    assert_eq!(Err(Error::errno(ENOEXEC)), extract(&buffer_of(&elf)));
}

#[test]
fn test_extract_shebang() {
    let r = extract(&buffer_of(b"#! /bin/sh -x  \necho\n")).unwrap();
    assert_eq!(r.interpreter, b"/bin/sh".to_vec());
    assert_eq!(r.optional_arg, Some(b"-x".to_vec()));

    let r = extract(&buffer_of(b"#!/usr/bin/env python3 -u -v\n")).unwrap();
    assert_eq!(r.interpreter, b"/usr/bin/env".to_vec());
    assert_eq!(r.optional_arg, Some(b"python3 -u -v".to_vec()));

    let r = extract(&buffer_of(b"#!/bin/sh\n")).unwrap();
    assert_eq!(r.interpreter, b"/bin/sh".to_vec());
    assert_eq!(r.optional_arg, None);
}

#[test]
fn test_extract_shebang_errors() {
    assert_eq!(extract(&buffer_of(b"#!   \n/bin/sh")), Err(Error::errno(ENOEXEC)));
    assert_eq!(extract(&buffer_of(b"#!\0")), Err(Error::errno(EACCES)));
    assert_eq!(extract(&buffer_of(b"#!/bin/\xff\xfe\n")), Err(Error::errno(ENOENT)));
    // an interpreter path that fills the whole buffer may be truncated
    let mut long = vec![b'a'; BINPRM_BUF_SIZE];
    long[0] = b'#';
    long[1] = b'!';
    assert_eq!(extract(&long), Err(Error::errno(ENOEXEC)));
}

#[test]
fn test_load_script_rewrites_argv() {
    let mut p = params(
        b"/usr/bin/script.sh",
        vec![Arg::CStringInTracee(0x1000), Arg::CStringInTracee(0x2000)],
    );
    let r = load_script(&mut p, b"#!/bin/sh -e\nexit 0\n");
    assert!(matches!(r, Ok(LoadResult::RestartWithNewParameters)));
    assert_eq!(p.raw_guest_path, b"/bin/sh".to_vec());
    let argv: Vec<Vec<u8>> = p.argv.iter().map(arg_bytes).collect();
    assert_eq!(
        argv,
        vec![
            b"/bin/sh".to_vec(),
            b"-e".to_vec(),
            b"/usr/bin/script.sh".to_vec(),
            0x2000u64.to_le_bytes().to_vec(),
        ]
    );
}

#[test]
fn test_load_script_not_a_script() {
    let mut p = params(b"/bin/true", vec![Arg::CStringInTracee(0x1000)]);
    let elf = elf64_header(ET_EXEC, 0x401000, 0);
    assert!(matches!(load_script(&mut p, &elf), Err(e) if e.errno == ENOEXEC));
    assert_eq!(p.raw_guest_path, b"/bin/true".to_vec());
    assert_eq!(p.argv.len(), 1);
}

#[test]
fn test_update_path() {
    let mut p = params(b"bin/ls", vec![Arg::CStringInTracee(1)]);
    assert_eq!(p.update_path(Ok((b"/bin/ls".to_vec(), b"/rootfs/bin/ls".to_vec()))), Ok(()));
    assert_eq!(p.canonical_guest_path, b"/bin/ls".to_vec());
    assert_eq!(p.host_path, b"/rootfs/bin/ls".to_vec());
    assert_eq!(p.update_path(Err(Error::errno(ENOENT))), Err(Error::errno(ENOENT)));
    assert_eq!(p.host_path, b"/rootfs/bin/ls".to_vec());
}

#[test]
fn test_load_driver() {
    let (mut d, step) = LoadDriver::new();
    assert_eq!(step, LoadStep::Run(LoaderKind::Script));
    // not a script: the ELF loader is tried
    assert_eq!(
        d.next(Attempt::LoaderFailed(Error::errno(ENOEXEC))),
        LoadStep::Run(LoaderKind::Elf)
    );
    assert_eq!(d.next(Attempt::Finished), LoadStep::Done);

    let (mut d, _) = LoadDriver::new();
    // neither format: the last error
    d.next(Attempt::LoaderFailed(Error::errno(ENOEXEC)));
    assert_eq!(
        d.next(Attempt::LoaderFailed(Error::errno(ENOEXEC))),
        LoadStep::Fail(Error::errno(ENOEXEC))
    );

    let (mut d, _) = LoadDriver::new();
    // another error stops at once
    assert_eq!(
        d.next(Attempt::LoaderFailed(Error::errno(EACCES))),
        LoadStep::Fail(Error::errno(EACCES))
    );
    let (mut d, _) = LoadDriver::new();
    assert_eq!(
        d.next(Attempt::CheckFailed(Error::errno(ENOEXEC))),
        LoadStep::Fail(Error::errno(ENOEXEC))
    );
}

#[test]
fn test_load_driver_interpreter_loop() {
    let (mut d, _) = LoadDriver::new();
    for _ in 0..INTERPRETER_REWRITE_LIMIT {
        assert_eq!(d.next(Attempt::Restart), LoadStep::Run(LoaderKind::Script));
    }
    assert_eq!(d.next(Attempt::Restart), LoadStep::Fail(Error::errno(ELOOP)));
}

#[test]
fn test_elf_header_checks() {
    let header = ElfHeader::extract_from(&elf64_header(ET_DYN, 0x1000, 1)).unwrap();
    assert_eq!(header.get_class(), ExecutableClass::Class64);
    assert_eq!(header.entry(), 0x1000);
    assert_eq!(header.phoff(), 64);
    assert_eq!(header.phnum(), 1);
    assert_eq!(header.check(), Ok(()));
    let core = ElfHeader::extract_from(&elf64_header(4, 0x1000, 1)).unwrap();
    assert_eq!(core.check(), Err(Error::errno(EINVAL)));
    let mut odd = elf64_header(ET_EXEC, 0x1000, 1);
    odd[54] = 40;
    let odd = ElfHeader::extract_from(&odd).unwrap();
    assert_eq!(odd.check(), Err(Error::errno(ENOTSUP)));
    assert_eq!(ElfHeader::extract_class(b"#!/bi"), Err(Error::errno(ENOEXEC)));
    assert_eq!(ElfHeader::extract_class(&[0x7f, b'E', b'L', b'F', 1]), Ok(ExecutableClass::Class32));
    assert_eq!(ElfHeader::extract_class(&[0x7f, b'E', b'L', b'F', 3]), Err(Error::errno(ENOEXEC)));
}

#[test]
fn test_load_info_program_headers() {
    let header = ElfHeader::extract_from(&elf64_header(ET_EXEC, 0x401000, 3)).unwrap();
    let mut load_info = LoadInfo::new(header);
    let load = ph64(PT_LOAD, PF_R | PF_X, 0, 0x400000, 0x1234, 0x1234);
    assert_eq!(load_info.add_program_header(&load, 0x1000), Ok(SegmentAction::Done));
    assert_eq!(load_info.mappings.len(), 1);
    assert_eq!(load_info.mappings[0].addr, 0x400000);
    let interp = ph64(PT_INTERP, PF_R, 0x238, 0, 28, 28);
    assert_eq!(
        load_info.add_program_header(&interp, 0x1000),
        Ok(SegmentAction::LoadInterp { offset: 0x238, path_size: 27 })
    );
    let stack = ph64(PT_GNU_STACK, PF_R | PF_X, 0, 0, 0, 0);
    assert_eq!(load_info.add_program_header(&stack, 0x1000), Ok(SegmentAction::Done));
    assert!(load_info.needs_executable_stack);
}

#[test]
fn test_load_info_compute_load_addresses() {
    let mut interp = dyn_load_info(0x1100);
    let before_e_entry = interp.elf_header.entry();
    assert!(interp.is_relocatable(true));
    interp.compute_load_addresses(true).unwrap();
    let after_e_entry = interp.elf_header.entry();
    assert!(after_e_entry > before_e_entry);
    assert_eq!(after_e_entry, 0x1100 + INTERP_PIC_ADDRESS);
    assert_eq!(interp.mappings[0].addr, INTERP_PIC_ADDRESS);
}

#[test]
fn test_execve_enter_and_exit() {
    let mut program = dyn_load_info(0x1000);
    program.set_interp(dyn_load_info(0x20), b"/lib/ld.so".to_vec(), b"/lib/ld.so".to_vec());
    let mut tracee = Tracee::new(1);
    tracee.regs = Registers::from(1, RegisterSet { words: [0u64; REGISTER_SET_WORDS] });
    assert!(program.is_relocatable(false));
    let r = execve_enter(
        &mut tracee,
        b"/bin/prog".to_vec(),
        b"/rootfs/bin/prog".to_vec(),
        Some(b"/bin/prog".to_vec()),
        Ok(program),
    );
    assert_eq!(r, Ok(()));
    let li = tracee.load_info.as_ref().unwrap();
    assert_eq!(li.host_path, Some(b"/rootfs/bin/prog".to_vec()));
    assert_eq!(li.elf_header.entry(), 0x1000 + EXEC_PIC_ADDRESS);
    assert_eq!(li.interp.as_ref().unwrap().elf_header.entry(), 0x20 + INTERP_PIC_ADDRESS);
    // the syscall result (rax) is 0: the new executable is committed
    assert_eq!(execve_exit(&mut tracee), SyscallExitResult::Unchanged);
    assert_eq!(tracee.exe, Some(b"/bin/prog".to_vec()));
    assert_eq!(tracee.new_exe, None);

    // a static program has no interpreter: refused
    let mut tracee = Tracee::new(2);
    let r = execve_enter(&mut tracee, b"/a".to_vec(), b"/a".to_vec(), None, Ok(dyn_load_info(1)));
    assert_eq!(r, Err(Error::errno(EINVAL)));
    assert_eq!(exec_error(Error::errno(EISDIR)), Error::errno(EACCES));
    assert_eq!(exec_error(Error::errno(ENOENT)), Error::errno(ENOENT));
}

#[test]
fn test_argv_reader_and_writer() {
    let mut reader = ArgvReader::new();
    for w in [0x1000u64, 0x2000, 0] {
        reader.push_word(w);
    }
    assert!(reader.done);
    assert_eq!(reader.argv.len(), 2);
    let bytes = argv_pointer_bytes(&[0x1000, 0x2000]);
    let mut expected = Vec::new();
    expected.extend_from_slice(&0x1000u64.to_le_bytes());
    expected.extend_from_slice(&0x2000u64.to_le_bytes());
    expected.extend_from_slice(&0u64.to_le_bytes());
    assert_eq!(bytes, expected);
}

#[test]
fn test_load_statement_bytes() {
    let open = LoadStatement::Open(LoadStatementOpen { string_address: 0xabcd });
    let mut expected = 1u64.to_le_bytes().to_vec();
    expected.extend_from_slice(&0xabcdu64.to_le_bytes());
    assert_eq!(open.as_bytes(), expected);
    let mmap = LoadStatement::MmapAnonymous(LoadStatementMmap {
        addr: 1,
        length: 2,
        prot: 3,
        offset: 4,
        clear_length: 5,
    });
    let bytes = mmap.as_bytes();
    assert_eq!(bytes.len(), 48);
    assert_eq!(&bytes[..8], &3u64.to_le_bytes());
    assert_eq!(&bytes[40..], &5u64.to_le_bytes());
}
