use proot_rs::errors::{Error, ENAMETOOLONG};
use proot_rs::register::reader::{convert_word_to_bytes, PathReader, PtraceReader, PATH_MAX};
use proot_rs::register::regs::{
    RegVersion, Register, RegisterSet, Registers, SysArgIndex, REGISTER_SET_WORDS, VOID,
};
use proot_rs::register::writer::{convert_bytes_to_word, merge_trailing, plan_write};

fn zeroed_regs() -> RegisterSet {
    RegisterSet { words: [0u64; REGISTER_SET_WORDS] }
}

/// The words of `bytes`, laid out as a tracee's memory: a last partial word
/// is completed with `fill` bytes.
fn memory_words(bytes: &[u8], fill: u8) -> Vec<u64> {
    let mut words = Vec::new();
    for chunk in bytes.chunks(8) {
        let mut b = [fill; 8];
        b[..chunk.len()].copy_from_slice(chunk);
        words.push(u64::from_le_bytes(b));
    }
    words
}

/// Reads a path out of `words` the way the tracer does.
fn read_path_from(words: &[u64], address: u64) -> Result<Vec<u8>, Error> {
    let mut reader = PathReader::new(address);
    let mut i = 0;
    while !reader.is_done() {
        let expected = address.wrapping_add(8 * i as u64);
        assert_eq!(reader.next_address(), expected);
        reader.push_word(words[i]);
        i += 1;
    }
    reader.finish()
}

#[test]
fn reader_test_reader_convert_word_to_bytes() {
    let number: u64 = 'h' as u64
        + 'e' as u64 * 256
        + 'l' as u64 * 256 * 256
        + 'l' as u64 * 256 * 256 * 256
        + 'o' as u64 * 256 * 256 * 256 * 256;
    let bytes = convert_word_to_bytes(number);

    assert_eq!(bytes, [b'h', b'e', b'l', b'l', b'o', 0, 0, 0,]);
}

#[test]
fn test_convert_word_to_bytes_is_little_endian() {
    assert_eq!(convert_word_to_bytes(0x0102030405060708), [8, 7, 6, 5, 4, 3, 2, 1]);
    assert_eq!(convert_word_to_bytes(u64::MAX), [0xff; 8]);
}

#[test]
fn test_convert_bytes_to_word_undoes_convert_word_to_bytes() {
    for w in [0u64, 1, 0x0102030405060708, u64::MAX, 0x8000_0000_0000_0000] {
        assert_eq!(convert_bytes_to_word(convert_word_to_bytes(w)), w);
    }
    assert_eq!(convert_bytes_to_word([8, 7, 6, 5, 4, 3, 2, 1]), 0x0102030405060708);
}

#[test]
fn test_regs_where_changed() {
    let mut regs = Registers::from(-1, zeroed_regs());

    assert_eq!(false, regs.regs_were_changed);

    regs.set(Register::SysNum, 123456, "");

    assert_eq!(true, regs.regs_were_changed);
    assert_eq!(123456, regs.get(RegVersion::Current, Register::SysNum));
}

#[test]
fn test_set_same_value_does_not_mark_change() {
    let mut regs = Registers::from(1, zeroed_regs());
    regs.set(Register::SysArg(SysArgIndex::SysArg3), 0, "same value");
    assert!(!regs.regs_were_changed);
}

#[test]
fn test_registers_follow_the_x86_64_abi() {
    let mut raw = zeroed_regs();
    // orig_rax, rdi, rsi, rdx, r10, r8, r9, rax, rsp
    raw.words[15] = 59;
    raw.words[14] = 1;
    raw.words[13] = 2;
    raw.words[12] = 3;
    raw.words[7] = 4;
    raw.words[9] = 5;
    raw.words[8] = 6;
    raw.words[10] = 7;
    raw.words[19] = 8;
    let regs = Registers::from(1, raw);
    let cur = RegVersion::Current;
    assert_eq!(regs.get(cur, Register::SysNum), 59);
    assert_eq!(regs.get(cur, Register::SysArg(SysArgIndex::SysArg1)), 1);
    assert_eq!(regs.get(cur, Register::SysArg(SysArgIndex::SysArg2)), 2);
    assert_eq!(regs.get(cur, Register::SysArg(SysArgIndex::SysArg3)), 3);
    assert_eq!(regs.get(cur, Register::SysArg(SysArgIndex::SysArg4)), 4);
    assert_eq!(regs.get(cur, Register::SysArg(SysArgIndex::SysArg5)), 5);
    assert_eq!(regs.get(cur, Register::SysArg(SysArgIndex::SysArg6)), 6);
    assert_eq!(regs.get(cur, Register::SysResult), 7);
    assert_eq!(regs.get(cur, Register::StackPointer), 8);
    assert_eq!(regs.get_sys_num(cur), 59);
}

#[test]
fn test_cancel_syscall_writes_void() {
    let mut regs = Registers::from(1, zeroed_regs());
    regs.cancel_syscall("test");
    assert_eq!(regs.get(RegVersion::Current, Register::SysNum), VOID);
    assert!(regs.regs_were_changed);
}

#[test]
fn test_restore_original_undoes_set() {
    let mut raw = zeroed_regs();
    raw.words[19] = 0x7fff_0000;
    let mut regs = Registers::from(1, raw);
    regs.save_current_regs(RegVersion::Original);
    regs.set(Register::StackPointer, 0x7ffe_0000, "allocate");
    regs.restore_original(Register::StackPointer, "restore");
    assert_eq!(regs.get(RegVersion::Current, Register::StackPointer), 0x7fff_0000);
}

#[test]
fn test_reader_get_sysarg_path_return_empty_if_given_null_src_() {
    let regs = Registers::from(1, zeroed_regs());
    let args = [
        SysArgIndex::SysArg1,
        SysArgIndex::SysArg2,
        SysArgIndex::SysArg3,
        SysArgIndex::SysArg4,
        SysArgIndex::SysArg5,
        SysArgIndex::SysArg6,
    ];

    for arg in args.iter() {
        let reader = regs.get_sysarg_path(*arg);
        assert!(reader.is_done());
        assert_eq!(reader.finish().unwrap(), b"".to_vec());
    }
}

#[test]
fn test_get_sysarg_path_reads_at_the_argument() {
    let mut raw = zeroed_regs();
    raw.words[13] = 0x1000;
    let regs = Registers::from(1, raw);
    let reader = regs.get_sysarg_path(SysArgIndex::SysArg2);
    assert!(!reader.is_done());
    assert_eq!(reader.next_address(), 0x1000);
}

#[test]
fn test_path_reader_stops_at_nul() {
    let words = memory_words(b"my/impossible/test/path\0garbage", 0xaa);
    assert_eq!(read_path_from(&words, 0x1000).unwrap(), b"my/impossible/test/path".to_vec());
}

#[test]
fn test_path_reader_nul_at_word_boundary() {
    let words = memory_words(b"01234567\0", 0x41);
    assert_eq!(read_path_from(&words, 8).unwrap(), b"01234567".to_vec());
}

#[test]
fn test_path_reader_too_long_path() {
    let long = vec![b'a'; PATH_MAX + 16];
    let words = memory_words(&long, 0);
    assert_eq!(read_path_from(&words, 8), Err(Error::errno(ENAMETOOLONG)));
}

#[test]
fn test_path_reader_longest_path() {
    let mut long = vec![b'b'; PATH_MAX - 1];
    long.push(0);
    let words = memory_words(&long, 0x55);
    assert_eq!(read_path_from(&words, 8).unwrap(), vec![b'b'; PATH_MAX - 1]);
}

#[test]
fn test_plan_write_splits_into_words() {
    let plan = plan_write(b"0123456789", true);
    assert_eq!(plan.words, vec![u64::from_le_bytes(*b"01234567")]);
    assert_eq!(plan.trailing, b"89\0".to_vec());

    let plan = plan_write(b"0123456", true);
    assert_eq!(plan.words, vec![u64::from_le_bytes(*b"0123456\0")]);
    assert_eq!(plan.trailing, Vec::<u8>::new());

    let plan = plan_write(b"abc", false);
    assert_eq!(plan.words, Vec::<u64>::new());
    assert_eq!(plan.trailing, b"abc".to_vec());
}

#[test]
fn test_merge_trailing_keeps_other_bytes() {
    // bytes = [0, 0, 0, 0, 0, 0, 119, 0] at the destination,
    // trailing bytes = [164, 247, 27]: [164, 247, 27, 0, 0, 0, 119, 0]
    let existing = u64::from_le_bytes([0, 0, 0, 0, 0, 0, 119, 0]);
    let merged = merge_trailing(existing, &[164, 247, 27]);
    assert_eq!(merged.to_le_bytes(), [164, 247, 27, 0, 0, 0, 119, 0]);
    assert_eq!(merge_trailing(existing, &[]), existing);
}

#[test]
fn test_written_path_reads_back() {
    for path in [&b"my/second/impossible/test/path"[..], b"", b"1234567", b"12345678"] {
        let plan = plan_write(path, true);
        let mut words = plan.words.clone();
        words.push(merge_trailing(0xdead_beef_dead_beef, &plan.trailing));
        assert_eq!(read_path_from(&words, 0x2000).unwrap(), path.to_vec());
    }
}
