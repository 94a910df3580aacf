use vstd::prelude::*;

use crate::bytes::le_bytes;
use crate::errors::{Error, ENAMETOOLONG};
use crate::register::regs::{
    model_get, model_version, RegVersion, Register, Registers, SysArgIndex, Word,
};

verus! {

/// Longest path the kernel accepts, its terminating NUL included.
pub const PATH_MAX: usize = 4096;

/// Number of bytes of a tracee word.
pub const WORD_SIZE: usize = 8;

/// Number of words read, at most, for one path.
pub const PATH_MAX_WORDS: usize = 512;

/// The bytes of the words `ws`, one word after the other, each word least
/// significant byte first (the layout of the tracee's memory).
pub open spec fn words_bytes(ws: Seq<u64>) -> Seq<u8>
    decreases ws.len(),
{
    if ws.len() == 0 {
        Seq::empty()
    } else {
        words_bytes(ws.drop_last()) + le_bytes(ws.last())
    }
}

/// Whether `s` holds a NUL byte.
pub open spec fn has_nul(s: Seq<u8>) -> bool {
    exists|i: int| 0 <= i < s.len() && s[i] == 0
}

/// The C string that starts `s`: its bytes before the first NUL, or all of
/// `s` when it holds none.
pub open spec fn c_string(s: Seq<u8>) -> Seq<u8>
    decreases s.len(),
{
    if s.len() == 0 {
        s
    } else if s[0] == 0 {
        Seq::empty()
    } else {
        seq![s[0]] + c_string(s.drop_first())
    }
}

pub proof fn lemma_words_bytes_push(ws: Seq<u64>, w: u64)
    ensures
        words_bytes(ws.push(w)) == words_bytes(ws) + le_bytes(w),
{
    assert(ws.push(w).drop_last() =~= ws);
}

pub proof fn lemma_words_bytes_len(ws: Seq<u64>)
    ensures
        words_bytes(ws).len() == 8 * ws.len(),
    decreases ws.len(),
{
    if ws.len() > 0 {
        lemma_words_bytes_len(ws.drop_last());
    }
}

/// A prefix without NUL passes whole into the C string.
pub proof fn lemma_c_string_append(a: Seq<u8>, b: Seq<u8>)
    requires
        !has_nul(a),
    ensures
        c_string(a + b) == a + c_string(b),
    decreases a.len(),
{
    if a.len() == 0 {
        assert(a + b =~= b);
        assert(a + c_string(b) =~= c_string(b));
    } else {
        assert(a[0] != 0);
        assert((a + b)[0] == a[0]);
        assert((a + b).drop_first() =~= a.drop_first() + b);
        assert(!has_nul(a.drop_first())) by {
            if has_nul(a.drop_first()) {
                let i = choose|i: int| 0 <= i < a.drop_first().len() && a.drop_first()[i] == 0;
                assert(a[i + 1] == 0);
            }
        }
        lemma_c_string_append(a.drop_first(), b);
        assert(seq![a[0]] + (a.drop_first() + c_string(b)) =~= a + c_string(b));
    }
}

/// The C string of bytes without NUL is those bytes.
pub proof fn lemma_c_string_no_nul(a: Seq<u8>)
    requires
        !has_nul(a),
    ensures
        c_string(a) == a,
{
    lemma_c_string_append(a, Seq::empty());
    assert(a + Seq::<u8>::empty() =~= a);
    assert(a + c_string(Seq::<u8>::empty()) =~= a);
}

/// A NUL right after a prefix without NUL ends the C string there.
pub proof fn lemma_c_string_stops(a: Seq<u8>, b: Seq<u8>)
    requires
        !has_nul(a),
        b.len() > 0,
        b[0] == 0,
    ensures
        c_string(a + b) == a,
{
    lemma_c_string_append(a, b);
    assert(a + Seq::<u8>::empty() =~= a);
}

/// A NUL in the prefix ends the C string there.
pub proof fn lemma_c_string_prefix(a: Seq<u8>, b: Seq<u8>)
    requires
        has_nul(a),
    ensures
        c_string(a + b) == c_string(a),
    decreases a.len(),
{
    assert((a + b)[0] == a[0]);
    if a[0] != 0 {
        assert((a + b).drop_first() =~= a.drop_first() + b);
        assert(has_nul(a.drop_first())) by {
            let i = choose|i: int| 0 <= i < a.len() && a[i] == 0;
            assert(i != 0);
            assert(a.drop_first()[i - 1] == 0);
        }
        lemma_c_string_prefix(a.drop_first(), b);
    }
}

/// The bytes of words put one after the other.
pub proof fn lemma_words_bytes_append(a: Seq<u64>, b: Seq<u64>)
    ensures
        words_bytes(a + b) == words_bytes(a) + words_bytes(b),
    decreases b.len(),
{
    if b.len() == 0 {
        assert(a + b =~= a);
        assert(words_bytes(a) + words_bytes(b) =~= words_bytes(a));
    } else {
        assert((a + b).drop_last() =~= a + b.drop_last());
        assert((a + b).last() == b.last());
        lemma_words_bytes_append(a, b.drop_last());
        assert(words_bytes(a) + words_bytes(b) =~= words_bytes(a) + words_bytes(b.drop_last())
            + le_bytes(b.last()));
    }
}

/// A finished reader holds the C string of the whole memory it read from,
/// when that string fits in `PATH_MAX` bytes with its NUL: what it stopped
/// on does not matter.
pub proof fn law_reader_gets_c_string(reader: PathReader, memory: Seq<u64>)
    requires
        reader.wf(),
        reader.done_spec(),
        reader.address_spec() != 0,
        reader.words_read().len() <= memory.len(),
        memory.take(reader.words_read().len() as int) == reader.words_read(),
        c_string(words_bytes(memory)).len() < PATH_MAX,
    ensures
        reader.bytes_spec() == c_string(words_bytes(memory)),
{
    let k = reader.words_read().len() as int;
    let read = reader.words_read();
    assert(memory =~= read + memory.skip(k));
    lemma_words_bytes_append(read, memory.skip(k));
    let mem = words_bytes(read);
    if has_nul(mem) {
        lemma_c_string_prefix(mem, words_bytes(memory.skip(k)));
    } else {
        lemma_c_string_no_nul(mem);
        lemma_c_string_append(mem, words_bytes(memory.skip(k)));
        lemma_words_bytes_len(read);
        assert(false);
    }
}

/// The eight bytes of a word, least significant first (the tracee's byte
/// order).
pub fn convert_word_to_bytes(value_to_convert: Word) -> (r: [u8; 8])
    ensures
        r@ == le_bytes(value_to_convert),
{
    let w = value_to_convert;
    let r: [u8; 8] = [
        (w & 0xff) as u8,
        ((w >> 8u64) & 0xff) as u8,
        ((w >> 16u64) & 0xff) as u8,
        ((w >> 24u64) & 0xff) as u8,
        ((w >> 32u64) & 0xff) as u8,
        ((w >> 40u64) & 0xff) as u8,
        ((w >> 48u64) & 0xff) as u8,
        ((w >> 56u64) & 0xff) as u8,
    ];
    assert(r@ =~= le_bytes(w));
    r
}

/// The bytes of the words `ws`, laid out as in the tracee's memory.
pub fn words_to_bytes(ws: &[u64]) -> (r: Vec<u8>)
    ensures
        r@ == words_bytes(ws@),
{
    let mut r: Vec<u8> = Vec::new();
    let mut i: usize = 0;
    while i < ws.len()
        invariant
            i <= ws@.len(),
            r@ == words_bytes(ws@.take(i as int)),
        decreases ws@.len() - i,
    {
        let w = ws[i];
        let bytes = convert_word_to_bytes(w);
        let mut k: usize = 0;
        let ghost before = r@;
        while k < 8
            invariant
                k <= 8,
                bytes@ == le_bytes(w),
                r@ == before + bytes@.take(k as int),
            decreases 8 - k,
        {
            r.push(bytes[k]);
            k = k + 1;
            assert(r@ =~= before + bytes@.take(k as int));
        }
        proof {
            assert(bytes@.take(8) =~= bytes@);
            assert(ws@.take(i + 1) =~= ws@.take(i as int).push(w));
            lemma_words_bytes_push(ws@.take(i as int), w);
        }
        i = i + 1;
    }
    assert(ws@.take(i as int) =~= ws@);
    r
}

/// Reading of a NUL-terminated path out of the tracee's memory, one word
/// at a time: the caller peeks the word at `next_address()` and hands it to
/// `push_word` until `is_done()`.
pub struct PathReader {
    address: u64,
    bytes: Vec<u8>,
    done: bool,
    words: Ghost<Seq<u64>>,
}

impl PathReader {
    /// Address of the path in the tracee's memory (0 for a NULL argument).
    pub closed spec fn address_spec(&self) -> u64 {
        self.address
    }

    /// The words read so far.
    pub closed spec fn words_read(&self) -> Seq<u64> {
        self.words@
    }

    /// The path bytes gathered so far.
    pub closed spec fn bytes_spec(&self) -> Seq<u8> {
        self.bytes@
    }

    /// Whether no more word is needed.
    pub closed spec fn done_spec(&self) -> bool {
        self.done
    }

    /// What the state holds: the path bytes are the C string of the memory
    /// read, and reading stops at the first NUL or after `PATH_MAX` bytes.
    pub open spec fn wf(&self) -> bool {
        let mem = words_bytes(self.words_read());
        &&& self.words_read().len() <= PATH_MAX_WORDS
        &&& self.bytes_spec() == c_string(mem)
        &&& (self.address_spec() == 0 ==> self.words_read().len() == 0 && self.done_spec())
        &&& (self.address_spec() != 0 ==> (self.done_spec() <==> (has_nul(mem)
            || self.words_read().len() == PATH_MAX_WORDS)))
    }

    /// Starts reading the path at `address`; a NULL address stands for the
    /// empty path.
    pub fn new(address: u64) -> (r: PathReader)
        ensures
            r.wf(),
            r.address_spec() == address,
            r.words_read() == Seq::<u64>::empty(),
            r.done_spec() == (address == 0),
    {
        let r = PathReader { address, bytes: Vec::new(), done: address == 0, words: Ghost(Seq::empty()) };
        assert(words_bytes(Seq::<u64>::empty()) =~= Seq::<u8>::empty());
        assert(!has_nul(Seq::<u8>::empty()));
        r
    }

    /// Whether the whole path has been read.
    pub fn is_done(&self) -> (r: bool)
        ensures
            r == self.done_spec(),
    {
        self.done
    }

    /// Address of the next word to read.
    pub fn next_address(&self) -> (r: u64)
        requires
            self.wf(),
            !self.done_spec(),
        ensures
            r == (self.address_spec() + WORD_SIZE * self.words_read().len()) % 0x1_0000_0000_0000_0000,
    {
        let n = self.bytes.len() as u64;
        proof {
            lemma_words_bytes_len(self.words@);
            lemma_c_string_no_nul(words_bytes(self.words@));
        }
        self.address.wrapping_add(n)
    }

    /// Takes the next word of the tracee's memory: its letters before the
    /// first NUL are appended to the path.
    pub fn push_word(&mut self, word: u64)
        requires
            old(self).wf(),
            !old(self).done_spec(),
        ensures
            final(self).wf(),
            final(self).address_spec() == old(self).address_spec(),
            final(self).words_read() == old(self).words_read().push(word),
            final(self).bytes_spec() == old(self).bytes_spec() + c_string(le_bytes(word)),
            final(self).done_spec() == (has_nul(le_bytes(word))
                || final(self).words_read().len() == PATH_MAX_WORDS),
    {
        let ghost mem = words_bytes(self.words@);
        let ghost old_bytes = self.bytes@;
        proof {
            lemma_words_bytes_len(self.words@);
            lemma_c_string_no_nul(mem);
        }
        let letters = convert_word_to_bytes(word);
        let mut j: usize = 0;
        let mut found = false;
        while j < 8
            invariant_except_break
                j <= 8,
                !found,
                !has_nul(letters@.take(j as int)),
                self.bytes@ == old_bytes + letters@.take(j as int),
            invariant
                letters@ == le_bytes(word),
                self.address == old(self).address,
                self.done == old(self).done,
                self.words == old(self).words,
                old_bytes == old(self).bytes@,
            ensures
                found ==> (j < 8 && letters@[j as int] == 0 && !has_nul(letters@.take(j as int))
                    && self.bytes@ == old_bytes + letters@.take(j as int)),
                !found ==> (j == 8 && !has_nul(letters@.take(8)) && self.bytes@ == old_bytes
                    + letters@.take(8)),
            decreases 8 - j,
        {
            if letters[j] == 0 {
                found = true;
                break;
            }
            proof {
                assert(!has_nul(letters@.take(j + 1))) by {
                    let t = letters@.take(j + 1);
                    if has_nul(t) {
                        let i = choose|i: int| 0 <= i < t.len() && t[i] == 0;
                        assert(letters@.take(j as int)[i] == 0);
                    }
                }
                assert(letters@.take(j + 1) =~= letters@.take(j as int).push(letters@[j as int]));
            }
            self.bytes.push(letters[j]);
            j = j + 1;
        }
        proof {
            let l = letters@;
            assert(l.take(8) =~= l);
            lemma_words_bytes_push(self.words@, word);
            if found {
                assert(l =~= l.take(j as int) + l.skip(j as int));
                lemma_c_string_stops(l.take(j as int), l.skip(j as int));
                assert(has_nul(l));
            } else {
                lemma_c_string_no_nul(l);
            }
            lemma_c_string_append(mem, l);
            assert(has_nul(mem + l) == has_nul(l)) by {
                if has_nul(mem + l) {
                    let i = choose|i: int| 0 <= i < (mem + l).len() && (mem + l)[i] == 0;
                    assert(i >= mem.len());
                    assert(l[i - mem.len()] == 0);
                }
                if has_nul(l) {
                    let i = choose|i: int| 0 <= i < l.len() && l[i] == 0;
                    assert((mem + l)[i + mem.len()] == 0);
                }
            }
            self.words = Ghost(self.words@.push(word));
        }
        self.done = found || self.bytes.len() >= PATH_MAX;
        proof {
            lemma_words_bytes_len(self.words@);
            if !found {
                assert(self.bytes@.len() == 8 * self.words@.len());
            }
        }
    }

    /// The path read, or `ENAMETOOLONG` when it does not fit in `PATH_MAX`
    /// bytes with its NUL.
    pub fn finish(self) -> (r: Result<Vec<u8>, Error>)
        requires
            self.wf(),
            self.done_spec(),
        ensures
            self.bytes_spec().len() < PATH_MAX <==> r is Ok,
            r matches Ok(b) ==> b@ == self.bytes_spec(),
            self.bytes_spec().len() >= PATH_MAX <==> r == Err::<Vec<u8>, Error>(
                Error { errno: ENAMETOOLONG },
            ),
    {
        if self.bytes.len() >= PATH_MAX {
            Err(Error::errno(ENAMETOOLONG))
        } else {
            Ok(self.bytes)
        }
    }
}

/// Retrieval of a path from one of the syscall's arguments.
pub trait PtraceReader {
    /// Whether the argument registers can be read.
    spec fn can_read_args(&self) -> bool;

    /// Starts reading the path that the argument `sys_arg` points to; a
    /// NULL argument gives the empty path.
    fn get_sysarg_path(&self, sys_arg: SysArgIndex) -> PathReader
        requires
            self.can_read_args(),
    ;
}

impl PtraceReader for Registers {
    open spec fn can_read_args(&self) -> bool {
        model_version(self@, RegVersion::Current) is Some
    }

    fn get_sysarg_path(&self, sys_arg: SysArgIndex) -> (r: PathReader)
        ensures
            r.wf(),
            r.address_spec() == model_get(self@, RegVersion::Current, Register::SysArg(sys_arg)),
            r.words_read() == Seq::<u64>::empty(),
    {
        PathReader::new(self.get(RegVersion::Current, Register::SysArg(sys_arg)))
    }
}

} // verus!
