use vstd::prelude::*;

use crate::errors::{Error, EACCES, ENOENT, ENOEXEC};
use crate::kernel::execve::binfmt::LoadResult;
use crate::kernel::execve::params::{argv_model, Arg, ArgModel, ExecveParameters};

verus! {

/// Length of the initial part of an executable that is inspected for a
/// shebang (the kernel's `BINPRM_BUF_SIZE`).
pub const BINPRM_BUF_SIZE: usize = 256;

/// What a script's first line names: the interpreter path and the optional
/// single argument that follows it.
#[derive(Debug, PartialEq, Eq)]
pub struct ExtractResult {
    pub interpreter: Vec<u8>,
    pub optional_arg: Option<Vec<u8>>,
}

/// The classes of bytes the shebang scanner looks for.
#[derive(Debug, Clone, Copy)]
pub enum ByteClass {
    /// `\n`
    Newline,
    /// anything but a space or a tab
    NonBlank,
    /// a space, a tab or `\0`
    BlankOrNul,
    /// `\0`
    Nul,
}

pub open spec fn is_blank(c: u8) -> bool {
    c == 32u8 || c == 9u8
}

pub open spec fn in_class(k: ByteClass, c: u8) -> bool {
    match k {
        ByteClass::Newline => c == 10u8,
        ByteClass::NonBlank => !is_blank(c),
        ByteClass::BlankOrNul => is_blank(c) || c == 0u8,
        ByteClass::Nul => c == 0u8,
    }
}

/// The first position in `[lo, hi)` holding a byte of class `k`, or `hi`.
pub open spec fn first_in_class(s: Seq<u8>, lo: int, hi: int, k: ByteClass) -> int
    decreases hi - lo,
{
    if lo >= hi {
        hi
    } else if in_class(k, s[lo]) {
        lo
    } else {
        first_in_class(s, lo + 1, hi, k)
    }
}

/// The end of `[lo, hi)` once trailing spaces and tabs are removed.
pub open spec fn strip_blank_end(s: Seq<u8>, lo: int, hi: int) -> int
    decreases hi - lo,
{
    if hi <= lo {
        lo
    } else if !is_blank(s[hi - 1]) {
        hi
    } else {
        strip_blank_end(s, lo, hi - 1)
    }
}

/// The optional argument of a shebang line whose argument part is
/// `[start, line_end)` (with `start` not blank): the part stripped of
/// trailing blanks, cut at the first `\0`, and absent when that is empty.
pub open spec fn shebang_argument(s: Seq<u8>, start: int, line_end: int) -> Option<Seq<u8>> {
    if start == line_end {
        None
    } else {
        let stripped = strip_blank_end(s, start, line_end);
        let end = first_in_class(s, start, stripped, ByteClass::Nul);
        if end - start > 0 {
            Some(s.subrange(start, end))
        } else {
            None
        }
    }
}

/// The meaning of the first bytes `s` of an executable read as a script:
/// `#!`, optional blanks, the interpreter path (up to a blank, a `\0` or the
/// end of the first line) and the rest of the line as one optional argument.
/// Errors carry the `errno` that the load reports.
pub open spec fn shebang_extract(s: Seq<u8>) -> Result<(Seq<u8>, Option<Seq<u8>>), i32> {
    if s.len() < 2 || s[0] != 35u8 || s[1] != 33u8 {
        Err(ENOEXEC)
    } else {
        let line_end = first_in_class(s, 0, s.len() as int, ByteClass::Newline);
        let istart = first_in_class(s, 2, line_end, ByteClass::NonBlank);
        if istart == line_end {
            Err(ENOEXEC)
        } else {
            let iend = first_in_class(s, istart, line_end, ByteClass::BlankOrNul);
            if iend == s.len() {
                Err(ENOEXEC)
            } else if istart == iend {
                Err(EACCES)
            } else if !vstd::utf8::valid_utf8(s.subrange(istart, iend)) {
                Err(ENOENT)
            } else {
                let astart = first_in_class(s, iend, line_end, ByteClass::NonBlank);
                Ok((s.subrange(istart, iend), shebang_argument(s, astart, line_end)))
            }
        }
    }
}

pub open spec fn opt_bytes_view(o: Option<Vec<u8>>) -> Option<Seq<u8>> {
    match o {
        Some(v) => Some(v@),
        None => None,
    }
}

proof fn lemma_first_in_class_bounds(s: Seq<u8>, lo: int, hi: int, k: ByteClass)
    requires
        lo <= hi,
    ensures
        lo <= first_in_class(s, lo, hi, k) <= hi,
    decreases hi - lo,
{
    if lo < hi && !in_class(k, s[lo]) {
        lemma_first_in_class_bounds(s, lo + 1, hi, k);
    }
}

proof fn lemma_strip_blank_end_bounds(s: Seq<u8>, lo: int, hi: int)
    requires
        lo <= hi,
    ensures
        lo <= strip_blank_end(s, lo, hi) <= hi,
        lo < hi && !is_blank(s[lo]) ==> lo < strip_blank_end(s, lo, hi),
    decreases hi - lo,
{
    if lo < hi && is_blank(s[hi - 1]) {
        lemma_strip_blank_end_bounds(s, lo, hi - 1);
    }
}

proof fn lemma_first_in_class(s: Seq<u8>, lo: int, hi: int, k: ByteClass)
    requires
        0 <= lo <= hi <= s.len(),
    ensures
        lo <= first_in_class(s, lo, hi, k) <= hi,
        forall|j: int| lo <= j < first_in_class(s, lo, hi, k) ==> !in_class(k, #[trigger] s[j]),
        first_in_class(s, lo, hi, k) < hi ==> in_class(k, s[first_in_class(s, lo, hi, k)]),
    decreases hi - lo,
{
    if lo < hi && !in_class(k, s[lo]) {
        lemma_first_in_class(s, lo + 1, hi, k);
    }
}

proof fn lemma_strip_blank_end(s: Seq<u8>, lo: int, hi: int)
    requires
        0 <= lo <= hi <= s.len(),
    ensures
        lo <= strip_blank_end(s, lo, hi) <= hi,
        forall|j: int| strip_blank_end(s, lo, hi) <= j < hi ==> is_blank(#[trigger] s[j]),
        strip_blank_end(s, lo, hi) > lo ==> !is_blank(s[strip_blank_end(s, lo, hi) - 1]),
    decreases hi - lo,
{
    if lo < hi && is_blank(s[hi - 1]) {
        lemma_strip_blank_end(s, lo, hi - 1);
    }
}

/// Where a script's interpreter lies: right after `#!` and spaces or tabs
/// only, up to (and not including) a space, a tab, a NUL or the end of the
/// first line; it holds none of those bytes. The position of its first
/// byte is returned.
pub proof fn law_shebang_interpreter(s: Seq<u8>) -> (start: int)
    requires
        shebang_extract(s) is Ok,
    ensures
        ({
            let interp = shebang_extract(s)->Ok_0.0;
            let end = start + interp.len();
            &&& s[0] == 35u8 && s[1] == 33u8
            &&& interp.len() > 0
            &&& 2 <= start && end < s.len()
            &&& interp == s.subrange(start, end)
            &&& forall|j: int| 2 <= j < start ==> #[trigger] s[j] == 32u8 || s[j] == 9u8
            &&& forall|j: int|
                0 <= j < interp.len() ==> #[trigger] interp[j] != 32u8 && interp[j] != 9u8
                    && interp[j] != 0u8 && interp[j] != 10u8
            &&& s[end] == 32u8 || s[end] == 9u8 || s[end] == 0u8 || s[end] == 10u8
        }),
{
    let line_end = first_in_class(s, 0, s.len() as int, ByteClass::Newline);
    lemma_first_in_class(s, 0, s.len() as int, ByteClass::Newline);
    let istart = first_in_class(s, 2, line_end, ByteClass::NonBlank);
    lemma_first_in_class(s, 2, line_end, ByteClass::NonBlank);
    let iend = first_in_class(s, istart, line_end, ByteClass::BlankOrNul);
    lemma_first_in_class(s, istart, line_end, ByteClass::BlankOrNul);
    let interp = s.subrange(istart, iend);
    assert forall|j: int| 0 <= j < interp.len() implies #[trigger] interp[j] != 32u8
        && interp[j] != 9u8 && interp[j] != 0u8 && interp[j] != 10u8 by {
        assert(interp[j] == s[istart + j]);
        assert(!in_class(ByteClass::BlankOrNul, s[istart + j]));
        assert(!in_class(ByteClass::Newline, s[istart + j]));
    }
    assert forall|j: int| 2 <= j < istart implies #[trigger] s[j] == 32u8 || s[j] == 9u8 by {
        assert(!in_class(ByteClass::NonBlank, s[j]));
    }
    istart
}

/// What follows the interpreter on the first line: spaces or tabs, then
/// the optional argument, which neither starts nor ends with a space or a
/// tab and holds no NUL nor newline; after it, up to the end of the line,
/// there is only a NUL (which cuts it) or spaces and tabs. Without an
/// argument, what follows the interpreter is spaces and tabs, up to the end
/// of the line or a NUL. The positions where the interpreter and where the
/// argument (or the NUL, or the end of the line) start are returned.
pub proof fn law_shebang_argument(s: Seq<u8>) -> (r: (int, int))
    requires
        shebang_extract(s) is Ok,
    ensures
        ({
            let interp = shebang_extract(s)->Ok_0.0;
            let arg = shebang_extract(s)->Ok_0.1;
            let iend = r.0 + interp.len();
            let astart = r.1;
            let line_end = first_in_class(s, 0, s.len() as int, ByteClass::Newline);
            &&& 2 <= r.0 && interp == s.subrange(r.0, iend)
            &&& iend <= astart <= line_end <= s.len()
            &&& line_end < s.len() ==> s[line_end] == 10u8
            &&& forall|j: int| 0 <= j < line_end ==> #[trigger] s[j] != 10u8
            &&& forall|j: int| iend <= j < astart ==> #[trigger] s[j] == 32u8 || s[j] == 9u8
            &&& match arg {
                Some(a) => {
                    &&& a.len() > 0
                    &&& astart + a.len() <= line_end
                    &&& a == s.subrange(astart, astart + a.len())
                    &&& a[0] != 32u8 && a[0] != 9u8
                    &&& forall|j: int| 0 <= j < a.len() ==> #[trigger] a[j] != 0u8 && a[j] != 10u8
                    &&& (astart + a.len() < line_end && s[astart + a.len()] == 0u8) || (a.last()
                        != 32u8 && a.last() != 9u8 && forall|j: int|
                        astart + a.len() <= j < line_end ==> #[trigger] s[j] == 32u8 || s[j]
                            == 9u8)
                },
                None => astart == line_end || s[astart] == 0u8,
            }
        }),
{
    let start = law_shebang_interpreter(s);
    let line_end = first_in_class(s, 0, s.len() as int, ByteClass::Newline);
    lemma_first_in_class(s, 0, s.len() as int, ByteClass::Newline);
    let istart = first_in_class(s, 2, line_end, ByteClass::NonBlank);
    lemma_first_in_class(s, 2, line_end, ByteClass::NonBlank);
    let iend = first_in_class(s, istart, line_end, ByteClass::BlankOrNul);
    lemma_first_in_class(s, istart, line_end, ByteClass::BlankOrNul);
    assert(start == istart);
    let astart = first_in_class(s, iend, line_end, ByteClass::NonBlank);
    lemma_first_in_class(s, iend, line_end, ByteClass::NonBlank);
    assert forall|j: int| iend <= j < astart implies #[trigger] s[j] == 32u8 || s[j] == 9u8 by {
        assert(!in_class(ByteClass::NonBlank, s[j]));
    }
    assert forall|j: int| 0 <= j < line_end implies #[trigger] s[j] != 10u8 by {
        assert(!in_class(ByteClass::Newline, s[j]));
    }
    if astart != line_end {
        let stripped = strip_blank_end(s, astart, line_end);
        lemma_strip_blank_end(s, astart, line_end);
        let aend = first_in_class(s, astart, stripped, ByteClass::Nul);
        lemma_first_in_class(s, astart, stripped, ByteClass::Nul);
        assert(stripped > astart) by {
            assert(in_class(ByteClass::NonBlank, s[astart]));
            if stripped == astart {
                assert(is_blank(s[astart]));
            }
        }
        if aend - astart > 0 {
            let a = s.subrange(astart, aend);
            assert forall|j: int| 0 <= j < a.len() implies #[trigger] a[j] != 0u8 && a[j]
                != 10u8 by {
                assert(a[j] == s[astart + j]);
                assert(!in_class(ByteClass::Nul, s[astart + j]));
            }
            assert(a[0] == s[astart]);
            if aend == stripped {
                assert(a.last() == s[stripped - 1]);
                assert forall|j: int| aend <= j < line_end implies #[trigger] s[j] == 32u8
                    || s[j] == 9u8 by {
                    assert(is_blank(s[j]));
                }
            }
        } else {
            assert(s[astart] == 0u8);
        }
    }
    (istart, astart)
}

fn matches_class(k: ByteClass, c: u8) -> (r: bool)
    ensures
        r == in_class(k, c),
{
    match k {
        ByteClass::Newline => c == 10u8,
        ByteClass::NonBlank => c != 32u8 && c != 9u8,
        ByteClass::BlankOrNul => c == 32u8 || c == 9u8 || c == 0u8,
        ByteClass::Nul => c == 0u8,
    }
}

/// Position of the first byte of class `k` in `buf[lo..hi]`, or `hi`.
pub fn find_first(buf: &[u8], lo: usize, hi: usize, k: ByteClass) -> (r: usize)
    requires
        lo <= hi <= buf@.len(),
    ensures
        r == first_in_class(buf@, lo as int, hi as int, k),
        lo <= r <= hi,
{
    let mut i = lo;
    while i < hi
        invariant
            lo <= i <= hi <= buf@.len(),
            first_in_class(buf@, lo as int, hi as int, k) == first_in_class(
                buf@,
                i as int,
                hi as int,
                k,
            ),
        decreases hi - i,
    {
        if matches_class(k, buf[i]) {
            return i;
        }
        i = i + 1;
    }
    i
}

/// End of `buf[lo..hi]` once its trailing spaces and tabs are removed.
fn strip_end(buf: &[u8], lo: usize, hi: usize) -> (r: usize)
    requires
        lo <= hi <= buf@.len(),
    ensures
        r == strip_blank_end(buf@, lo as int, hi as int),
{
    let mut j = hi;
    while j > lo
        invariant
            lo <= j <= hi <= buf@.len(),
            strip_blank_end(buf@, lo as int, hi as int) == strip_blank_end(
                buf@,
                lo as int,
                j as int,
            ),
        decreases j,
    {
        let c = buf[j - 1];
        if c != 32u8 && c != 9u8 {
            return j;
        }
        j = j - 1;
    }
    j
}

/// Copy of `buf[lo..hi]`.
pub fn copy_range(buf: &[u8], lo: usize, hi: usize) -> (r: Vec<u8>)
    requires
        lo <= hi <= buf@.len(),
    ensures
        r@ == buf@.subrange(lo as int, hi as int),
{
    let mut r: Vec<u8> = Vec::new();
    let mut i = lo;
    while i < hi
        invariant
            lo <= i <= hi <= buf@.len(),
            r@ == buf@.subrange(lo as int, i as int),
        decreases hi - i,
    {
        r.push(buf[i]);
        i = i + 1;
    }
    r
}

/// `std::str::from_utf8`: claimed to accept a byte slice exactly when it is
/// valid UTF-8 in the sense of `vstd::utf8::valid_utf8`.
#[verifier::external_body]
fn is_valid_utf8(bytes: &[u8]) -> (r: bool)
    ensures
        r == vstd::utf8::valid_utf8(bytes@),
{
    std::str::from_utf8(bytes).is_ok()
}

/// Parses the first bytes of a file (`buffer`, as read into a zeroed
/// `BINPRM_BUF_SIZE` buffer) as a script of the form
///
/// `#!interpreter [optional-arg]`
///
/// where spaces may separate `#!` from the interpreter, and everything that
/// follows the interpreter on the first line is one optional argument,
/// stripped of surrounding blanks. Fails with `ENOEXEC` when the buffer does
/// not start with `#!`, holds no interpreter, or the interpreter path may be
/// truncated; with `EACCES` when the interpreter path is empty; with `ENOENT`
/// when it is not valid UTF-8.
pub fn extract(buffer: &[u8]) -> (r: Result<ExtractResult, Error>)
    requires
        buffer@.len() == BINPRM_BUF_SIZE,
    ensures
        match r {
            Ok(e) => shebang_extract(buffer@) == Ok::<(Seq<u8>, Option<Seq<u8>>), i32>(
                (e.interpreter@, opt_bytes_view(e.optional_arg)),
            ),
            Err(e) => shebang_extract(buffer@) == Err::<(Seq<u8>, Option<Seq<u8>>), i32>(
                e.errno,
            ),
        },
{
    let len = buffer.len();
    // refuse to execute this if it does not start with #!
    if !(buffer[0] == 35u8 && buffer[1] == 33u8) {
        return Err(Error::errno(ENOEXEC));
    }
    // end of the first line

    let line_end = find_first(buffer, 0, len, ByteClass::Newline);
    proof {
        assert(first_in_class(buffer@, 1, len as int, ByteClass::Newline) == first_in_class(
            buffer@,
            2,
            len as int,
            ByteClass::Newline,
        ));
        assert(first_in_class(buffer@, 0, len as int, ByteClass::Newline) == first_in_class(
            buffer@,
            2,
            len as int,
            ByteClass::Newline,
        ));
        lemma_first_in_class_bounds(buffer@, 2, len as int, ByteClass::Newline);
    }
    // start of the interpreter
    let interpreter_start = find_first(buffer, 2, line_end, ByteClass::NonBlank);
    if interpreter_start == line_end {
        return Err(Error::errno(ENOEXEC));
    }
    // end of the interpreter
    let interpreter_end = find_first(
        buffer,
        interpreter_start,
        line_end,
        ByteClass::BlankOrNul,
    );
    // an interpreter path that reaches the end of the buffer may be truncated
    if interpreter_end == len {
        return Err(Error::errno(ENOEXEC));
    }
    if interpreter_start == interpreter_end {
        return Err(Error::errno(EACCES));
    }
    let interpreter = copy_range(buffer, interpreter_start, interpreter_end);
    if !is_valid_utf8(interpreter.as_slice()) {
        return Err(Error::errno(ENOENT));
    }
    // the optional argument: everything after the interpreter on the line

    let opt_arg_start = find_first(buffer, interpreter_end, line_end, ByteClass::NonBlank);
    let optional_arg = if opt_arg_start == line_end {
        None
    } else {
        let stripped_end = strip_end(buffer, opt_arg_start, line_end);
        proof {
            lemma_strip_blank_end_bounds(buffer@, opt_arg_start as int, line_end as int);
        }
        let opt_arg_end = find_first(buffer, opt_arg_start, stripped_end, ByteClass::Nul);
        if opt_arg_end - opt_arg_start > 0 {
            Some(copy_range(buffer, opt_arg_start, opt_arg_end))
        } else {
            None
        }
    };
    Ok(ExtractResult { interpreter, optional_arg })
}

/// The first `BINPRM_BUF_SIZE` bytes of a file that starts with
/// `file_start` (the buffer is zeroed before the file is read into it).
pub open spec fn binprm_buf(file_start: Seq<u8>) -> Seq<u8> {
    Seq::new(BINPRM_BUF_SIZE as nat, |i: int| if i < file_start.len() { file_start[i] } else { 0 })
}

/// Fills the `BINPRM_BUF_SIZE`-byte buffer with the start of a file.
pub fn fill_binprm_buf(file_start: &[u8]) -> (r: Vec<u8>)
    requires
        file_start@.len() <= BINPRM_BUF_SIZE,
    ensures
        r@ == binprm_buf(file_start@),
{
    let mut r: Vec<u8> = Vec::new();
    let mut i: usize = 0;
    while i < BINPRM_BUF_SIZE
        invariant
            i <= BINPRM_BUF_SIZE,
            file_start@.len() <= BINPRM_BUF_SIZE,
            r@ == binprm_buf(file_start@).take(i as int),
        decreases BINPRM_BUF_SIZE - i,
    {
        let b: u8 = if i < file_start.len() {
            file_start[i]
        } else {
            0
        };
        r.push(b);
        i = i + 1;
        assert(r@ =~= binprm_buf(file_start@).take(i as int));
    }
    assert(binprm_buf(file_start@).take(i as int) =~= binprm_buf(file_start@));
    r
}

/// The arguments a script is run with: its interpreter, the optional
/// argument of its shebang line, the script's own path, then the script's
/// arguments but the first.
pub open spec fn script_argv(
    interpreter: Seq<u8>,
    optional_arg: Option<Seq<u8>>,
    script_path: Seq<u8>,
    argv: Seq<ArgModel>,
) -> Seq<ArgModel> {
    seq![ArgModel::InSelf(interpreter)] + match optional_arg {
        Some(a) => seq![ArgModel::InSelf(a)],
        None => Seq::empty(),
    } + seq![ArgModel::InSelf(script_path)] + argv.skip(1)
}

/// Loads a script whose file starts with `file_start`: its interpreter is
/// to be loaded instead, with the arguments rewritten as the kernel does.
pub fn load_script(parameters: &mut ExecveParameters, file_start: &[u8]) -> (r: Result<
    LoadResult,
    Error,
>)
    requires
        old(parameters).argv@.len() >= 1,
        file_start@.len() <= BINPRM_BUF_SIZE,
    ensures
        final(parameters).canonical_guest_path@ == old(parameters).canonical_guest_path@,
        final(parameters).host_path@ == old(parameters).host_path@,
        match shebang_extract(binprm_buf(file_start@)) {
            Err(e) => {
                &&& r == Err::<LoadResult, Error>(Error { errno: e })
                &&& final(parameters).raw_guest_path@ == old(parameters).raw_guest_path@
                &&& argv_model(final(parameters).argv@) == argv_model(old(parameters).argv@)
            },
            Ok((interpreter, optional_arg)) => {
                &&& r matches Ok(LoadResult::RestartWithNewParameters)
                &&& final(parameters).raw_guest_path@ == interpreter
                &&& argv_model(final(parameters).argv@) == script_argv(
                    interpreter,
                    optional_arg,
                    old(parameters).raw_guest_path@,
                    argv_model(old(parameters).argv@),
                )
            },
        },
{
    let buffer = fill_binprm_buf(file_start);
    let extract_result = match extract(buffer.as_slice()) {
        Ok(e) => e,
        Err(e) => return Err(e),
    };
    let ghost old_argv = argv_model(parameters.argv@);
    let ghost interp = extract_result.interpreter@;
    let ghost opt = opt_bytes_view(extract_result.optional_arg);
    let raw_guest_path = copy_range(parameters.raw_guest_path.as_slice(), 0, parameters.raw_guest_path.len());
    assert(raw_guest_path@ =~= parameters.raw_guest_path@);
    let _first = parameters.argv.remove(0);
    parameters.argv.insert(0, Arg::CStringInSelf(raw_guest_path));
    let ghost after_path = argv_model(parameters.argv@);
    assert(after_path =~= seq![ArgModel::InSelf(old(parameters).raw_guest_path@)] + old_argv.skip(1));
    match extract_result.optional_arg {
        Some(arg) => {
            parameters.argv.insert(0, Arg::CStringInSelf(arg));
        },
        None => {},
    }
    let ghost after_opt = argv_model(parameters.argv@);
    assert(after_opt =~= match opt {
        Some(a) => seq![ArgModel::InSelf(a)],
        None => Seq::<ArgModel>::empty(),
    } + after_path);
    let interpreter = copy_range(extract_result.interpreter.as_slice(), 0, extract_result.interpreter.len());
    assert(interpreter@ =~= interp);
    parameters.argv.insert(0, Arg::CStringInSelf(interpreter));
    assert(argv_model(parameters.argv@) =~= seq![ArgModel::InSelf(interp)] + after_opt);
    assert(argv_model(parameters.argv@) =~= script_argv(interp, opt, old(parameters).raw_guest_path@, old_argv));
    parameters.raw_guest_path = extract_result.interpreter;
    Ok(LoadResult::RestartWithNewParameters)
}

} // verus!
