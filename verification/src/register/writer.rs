use vstd::prelude::*;

use crate::bytes::{le64, le_bytes, lemma_le_bytes_of_le64, read_u64_le, u64_at};
use crate::register::reader::{
    c_string, convert_word_to_bytes, has_nul, law_reader_gets_c_string, lemma_c_string_prefix,
    lemma_c_string_stops, lemma_words_bytes_append, lemma_words_bytes_len, lemma_words_bytes_push,
    words_bytes, PathReader, PATH_MAX,
};
use crate::register::regs::Word;

verus! {

/// The word whose bytes, least significant first, are `value_to_convert`.
pub fn convert_bytes_to_word(value_to_convert: [u8; 8]) -> (r: Word)
    ensures
        r as int == le64(value_to_convert@, 0),
        le_bytes(r) == value_to_convert@,
{
    proof {
        lemma_le_bytes_of_le64(value_to_convert@);
    }
    read_u64_le(value_to_convert.as_slice())
}

/// The bytes written into the tracee: `data`, followed by a NUL when one is
/// asked for.
pub open spec fn payload(data: Seq<u8>, append_null: bool) -> Seq<u8> {
    if append_null {
        data.push(0)
    } else {
        data
    }
}

/// How `data` is copied into the tracee's memory: the full words, poked
/// one after the other, and the trailing bytes, merged into the word that
/// lies after them.
pub struct WritePlan {
    pub words: Vec<u64>,
    pub trailing: Vec<u8>,
}

/// Splits the bytes to write into full words and trailing bytes.
pub fn plan_write(data: &[u8], append_null: bool) -> (r: WritePlan)
    requires
        data@.len() < usize::MAX,
    ensures
        ({
            let p = payload(data@, append_null);
            let n = (p.len() / 8) as int;
            &&& r.words@.len() == n
            &&& words_bytes(r.words@) == p.take(8 * n)
            &&& r.trailing@ == p.skip(8 * n)
        }),
{
    let mut buf: Vec<u8> = Vec::new();
    let mut k: usize = 0;
    while k < data.len()
        invariant
            k <= data@.len(),
            buf@ == data@.take(k as int),
        decreases data@.len() - k,
    {
        buf.push(data[k]);
        k = k + 1;
        assert(buf@ =~= data@.take(k as int));
    }
    assert(data@.take(k as int) =~= data@);
    if append_null {
        buf.push(0u8);
    }
    let ghost p = payload(data@, append_null);
    assert(buf@ =~= p);
    let blen: usize = buf.len();
    let n: usize = blen / 8;
    let mut words: Vec<u64> = Vec::new();
    let mut i: usize = 0;
    while i < n
        invariant
            buf@ == p,
            n == p.len() / 8,
            p.len() == blen,
            i <= n,
            words@.len() == i,
            words_bytes(words@) == p.take(8 * i),
        decreases n - i,
    {
        assert(8 * i + 8 <= 8 * n <= p.len()) by (nonlinear_arith)
            requires
                i < n,
                n == p.len() / 8,
        ;
        let w = u64_at(buf.as_slice(), 8 * i);
        proof {
            let part = p.subrange(8 * i, 8 * i + 8);
            lemma_le_bytes_of_le64(part);
            assert(le64(part, 0) == le64(p, 8 * i));
            lemma_words_bytes_push(words@, w);
            assert(p.take(8 * i) + part =~= p.take(8 * (i + 1)));
        }
        words.push(w);
        i = i + 1;
    }
    let mut trailing: Vec<u8> = Vec::new();
    let mut j: usize = 8 * n;
    while j < buf.len()
        invariant
            buf@ == p,
            8 * n <= j <= p.len(),
            trailing@ == p.subrange(8 * n, j as int),
        decreases p.len() - j,
    {
        trailing.push(buf[j]);
        j = j + 1;
        assert(trailing@ =~= p.subrange(8 * n, j as int));
    }
    assert(p.subrange(8 * n, p.len() as int) =~= p.skip(8 * n));
    WritePlan { words, trailing }
}

/// The word that lies after the full words once the trailing bytes are
/// written over its first bytes; its other bytes stay as they were.
pub fn merge_trailing(existing: Word, trailing: &[u8]) -> (r: Word)
    requires
        trailing@.len() <= 8,
    ensures
        le_bytes(r) == trailing@ + le_bytes(existing).skip(trailing@.len() as int),
{
    let mut bytes = convert_word_to_bytes(existing);
    let ghost old_bytes = bytes@;
    let mut k: usize = 0;
    while k < trailing.len()
        invariant
            k <= trailing@.len() <= 8,
            old_bytes == le_bytes(existing),
            bytes@.len() == 8,
            bytes@ == trailing@.take(k as int) + old_bytes.skip(k as int),
        decreases trailing@.len() - k,
    {
        bytes[k] = trailing[k];
        k = k + 1;
        assert(bytes@ =~= trailing@.take(k as int) + old_bytes.skip(k as int));
    }
    assert(trailing@.take(k as int) =~= trailing@);
    convert_bytes_to_word(bytes)
}

/// The memory that holds the full words and then the merged word.
pub open spec fn written_memory(words: Seq<u64>, merged: u64) -> Seq<u8> {
    words_bytes(words.push(merged))
}

/// Writing `data` and reading the same place back gives `data`: the words
/// of the plan, followed by the trailing bytes merged into whatever word
/// was there, start with the bytes that were to be written.
pub proof fn law_write_then_read_back(
    data: Seq<u8>,
    append_null: bool,
    words: Seq<u64>,
    trailing: Seq<u8>,
    merged: u64,
    existing: u64,
)
    requires
        ({
            let p = payload(data, append_null);
            let n = (p.len() / 8) as int;
            &&& words.len() == n
            &&& words_bytes(words) == p.take(8 * n)
            &&& trailing == p.skip(8 * n)
        }),
        le_bytes(merged) == trailing + le_bytes(existing).skip(trailing.len() as int),
    ensures
        written_memory(words, merged).take(payload(data, append_null).len() as int) == payload(
            data,
            append_null,
        ),
{
    let p = payload(data, append_null);
    let n = (p.len() / 8) as int;
    lemma_words_bytes_push(words, merged);
    lemma_words_bytes_len(words);
    let m = written_memory(words, merged);
    assert(m == p.take(8 * n) + (trailing + le_bytes(existing).skip(trailing.len() as int)));
    assert(m.take(p.len() as int) =~= p);
}

/// A path written with its NUL reads back as the same path: the C string
/// found at the written place is `data`, whatever the tracee held there
/// before.
pub proof fn law_path_written_reads_back(
    data: Seq<u8>,
    words: Seq<u64>,
    trailing: Seq<u8>,
    merged: u64,
    existing: u64,
)
    requires
        !has_nul(data),
        ({
            let p = payload(data, true);
            let n = (p.len() / 8) as int;
            &&& words.len() == n
            &&& words_bytes(words) == p.take(8 * n)
            &&& trailing == p.skip(8 * n)
        }),
        le_bytes(merged) == trailing + le_bytes(existing).skip(trailing.len() as int),
    ensures
        c_string(written_memory(words, merged)) == data,
{
    law_write_then_read_back(data, true, words, trailing, merged, existing);
    let p = payload(data, true);
    let m = written_memory(words, merged);
    lemma_words_bytes_push(words, merged);
    lemma_words_bytes_len(words);
    assert(m.len() >= p.len());
    assert(m =~= data + m.skip(data.len() as int)) by {
        assert(m.take(p.len() as int) == p);
        assert forall|i: int| 0 <= i < data.len() implies m[i] == data[i] by {
            assert(m.take(p.len() as int)[i] == p[i]);
        }
    }
    assert(m.skip(data.len() as int)[0] == 0) by {
        assert(m.take(p.len() as int)[data.len() as int] == p[data.len() as int]);
    }
    lemma_c_string_stops(data, m.skip(data.len() as int));
}

/// A path written with its NUL is read back whole by a path reader started
/// at the same (non-NULL) address, whatever the memory held before and
/// holds after it: the path fits when it is shorter than `PATH_MAX`.
pub proof fn law_path_written_is_read_back(
    data: Seq<u8>,
    words: Seq<u64>,
    trailing: Seq<u8>,
    merged: u64,
    existing: u64,
    after: Seq<u64>,
    reader: PathReader,
)
    requires
        !has_nul(data),
        data.len() < PATH_MAX,
        ({
            let p = payload(data, true);
            let n = (p.len() / 8) as int;
            &&& words.len() == n
            &&& words_bytes(words) == p.take(8 * n)
            &&& trailing == p.skip(8 * n)
        }),
        le_bytes(merged) == trailing + le_bytes(existing).skip(trailing.len() as int),
        reader.wf(),
        reader.done_spec(),
        reader.address_spec() != 0,
        reader.words_read().len() <= words.len() + 1 + after.len(),
        (words.push(merged) + after).take(reader.words_read().len() as int) == reader.words_read(),
    ensures
        reader.bytes_spec() == data,
{
    law_path_written_reads_back(data, words, trailing, merged, existing);
    law_write_then_read_back(data, true, words, trailing, merged, existing);
    let written = written_memory(words, merged);
    let memory = words.push(merged) + after;
    lemma_words_bytes_append(words.push(merged), after);
    let p = payload(data, true);
    lemma_words_bytes_push(words, merged);
    lemma_words_bytes_len(words);
    assert(written.len() >= p.len());
    assert(has_nul(written)) by {
        assert(written.take(p.len() as int)[data.len() as int] == p[data.len() as int]);
        assert(written[data.len() as int] == 0);
    }
    lemma_c_string_prefix(written, words_bytes(after));
    law_reader_gets_c_string(reader, memory);
}

} // verus!
