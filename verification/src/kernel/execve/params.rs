use vstd::prelude::*;

use crate::errors::Error;
use crate::register::reader::{words_bytes, words_to_bytes};

verus! {

/// An argument of `execve`'s `argv`: a C string either still in the
/// tracee's memory, known by its address, or held here, to be written into
/// the tracee later (its bytes, without the terminating NUL).
pub enum Arg {
    CStringInTracee(u64),
    CStringInSelf(Vec<u8>),
}

/// What an argument stands for.
pub enum ArgModel {
    InTracee(u64),
    InSelf(Seq<u8>),
}

impl View for Arg {
    type V = ArgModel;

    open spec fn view(&self) -> ArgModel {
        match self {
            Arg::CStringInTracee(a) => ArgModel::InTracee(*a),
            Arg::CStringInSelf(s) => ArgModel::InSelf(s@),
        }
    }
}

/// What the arguments of a list stand for.
pub open spec fn argv_model(argv: Seq<Arg>) -> Seq<ArgModel> {
    argv.map_values(|a: Arg| a@)
}

/// Parameters of the `execve()` system call, as loading the executable
/// rewrites them.
pub struct ExecveParameters {
    /// The path of the executable on the guest side, as given (or the
    /// interpreter of a script).
    pub raw_guest_path: Vec<u8>,
    /// The same, canonical.
    pub canonical_guest_path: Vec<u8>,
    /// The same, canonical, on the host side.
    pub host_path: Vec<u8>,
    /// The second argument of `execve()`.
    pub argv: Vec<Arg>,
}

impl ExecveParameters {
    /// Records the canonical guest path and the host path that translating
    /// `raw_guest_path` gave; a failed translation leaves them as they were.
    pub fn update_path(&mut self, translated: Result<(Vec<u8>, Vec<u8>), Error>) -> (r: Result<
        (),
        Error,
    >)
        ensures
            match translated {
                Ok((guest, host)) => {
                    &&& r is Ok
                    &&& final(self).canonical_guest_path@ == guest@
                    &&& final(self).host_path@ == host@
                },
                Err(e) => {
                    &&& r == Err::<(), Error>(e)
                    &&& final(self).canonical_guest_path@ == old(self).canonical_guest_path@
                    &&& final(self).host_path@ == old(self).host_path@
                },
            },
            final(self).raw_guest_path@ == old(self).raw_guest_path@,
            argv_model(final(self).argv@) == argv_model(old(self).argv@),
    {
        match translated {
            Ok((guest, host)) => {
                self.canonical_guest_path = guest;
                self.host_path = host;
                Ok(())
            },
            Err(e) => Err(e),
        }
    }
}

/// Reading of `argv` out of the tracee: the pointers to its strings, one
/// word at a time, up to the NULL pointer that ends it.
pub struct ArgvReader {
    pub argv: Vec<Arg>,
    pub done: bool,
}

impl ArgvReader {
    pub fn new() -> (r: ArgvReader)
        ensures
            r.argv@.len() == 0,
            !r.done,
    {
        ArgvReader { argv: Vec::new(), done: false }
    }

    /// Takes the next word of the pointer array.
    pub fn push_word(&mut self, word: u64)
        requires
            !old(self).done,
        ensures
            word == 0 ==> final(self).done && argv_model(final(self).argv@) == argv_model(
                old(self).argv@,
            ),
            word != 0 ==> !final(self).done && argv_model(final(self).argv@) == argv_model(
                old(self).argv@,
            ).push(ArgModel::InTracee(word)),
    {
        if word == 0 {
            self.done = true;
        } else {
            self.argv.push(Arg::CStringInTracee(word));
            assert(argv_model(self.argv@) =~= argv_model(old(self).argv@).push(
                ArgModel::InTracee(word),
            ));
        }
    }
}

/// The bytes of the pointer array of a new `argv`: the addresses of its
/// strings, then the NULL pointer that ends it.
pub fn argv_pointer_bytes(addresses: &[u64]) -> (r: Vec<u8>)
    ensures
        r@ == words_bytes(addresses@.push(0)),
{
    let mut words: Vec<u64> = Vec::new();
    let mut i: usize = 0;
    while i < addresses.len()
        invariant
            i <= addresses@.len(),
            words@ == addresses@.take(i as int),
        decreases addresses@.len() - i,
    {
        words.push(addresses[i]);
        i = i + 1;
        assert(words@ =~= addresses@.take(i as int));
    }
    words.push(0);
    assert(words@ =~= addresses@.push(0));
    words_to_bytes(words.as_slice())
}

} // verus!
