//! The executable formats `execve` can load, and the driver that tries them
//! in turn, as `fs/binfmt_*.c` and `fs/exec.c` of the Linux kernel do.

pub mod shebang;

use vstd::prelude::*;

use crate::errors::{Error, ELOOP, ENOEXEC};
use crate::kernel::execve::load_info::LoadInfo;

verus! {

/// What a loader gives when it succeeds.
pub enum LoadResult {
    /// The final `LoadInfo`.
    Finished(LoadInfo),
    /// An interpreter was found, or `argv` was rewritten: loading starts
    /// again, so that the interpreter of a script can itself be a script.
    RestartWithNewParameters,
}

/// Number of times loading may start again with a new interpreter (as in
/// the Linux kernel), to stop interpreter loops.
pub const INTERPRETER_REWRITE_LIMIT: usize = 4;

/// The loaders, in the order they are tried.
#[derive(Debug, Clone, Copy, PartialEq, Eq, Structural)]
pub enum LoaderKind {
    Script,
    Elf,
}

/// How one try went: the checks of the file before the loader ran, then
/// the loader.
#[derive(Debug, Clone, Copy, PartialEq, Eq, Structural)]
pub enum Attempt {
    /// The path could not be translated, the file is missing, is not a
    /// regular file or is not executable.
    CheckFailed(Error),
    /// The loader asks to start again.
    Restart,
    /// The loader loaded the file.
    Finished,
    /// The loader failed; `ENOEXEC` means that the file is not of its
    /// format.
    LoaderFailed(Error),
}

/// What to do next.
#[derive(Debug, Clone, Copy, PartialEq, Eq, Structural)]
pub enum LoadStep {
    /// Check the file, then run this loader on it.
    Run(LoaderKind),
    /// Loading is over.
    Done,
    /// Loading failed with this error.
    Fail(Error),
}

/// The loader tried at position `i` of a round.
pub open spec fn loader_at(i: int) -> LoaderKind {
    if i == 0 {
        LoaderKind::Script
    } else {
        LoaderKind::Elf
    }
}

/// The loop that tries each loader in turn, and starts again when one asks
/// to, at most `INTERPRETER_REWRITE_LIMIT` times.
pub struct LoadDriver {
    round: usize,
    loader: usize,
}

impl LoadDriver {
    /// The number of restarts so far.
    pub closed spec fn round_spec(&self) -> int {
        self.round as int
    }

    /// The position in the round of the loader being tried.
    pub closed spec fn loader_spec(&self) -> int {
        self.loader as int
    }

    /// How many more loader runs the driver can ask for, at most.
    pub open spec fn remaining_runs(&self) -> int {
        (INTERPRETER_REWRITE_LIMIT - self.round_spec()) * 2 + (1 - self.loader_spec())
    }

    pub open spec fn wf(&self) -> bool {
        &&& 0 <= self.round_spec() <= INTERPRETER_REWRITE_LIMIT
        &&& 0 <= self.loader_spec() < 2
    }

    /// Starts loading: the script loader is tried first.
    pub fn new() -> (r: (LoadDriver, LoadStep))
        ensures
            r.0.wf(),
            r.0.round_spec() == 0,
            r.0.loader_spec() == 0,
            r.1 == LoadStep::Run(LoaderKind::Script),
    {
        (LoadDriver { round: 0, loader: 0 }, LoadStep::Run(LoaderKind::Script))
    }

    /// Takes how the try of the current loader went, and says what to do
    /// next: a failed check or a loader error other than `ENOEXEC` ends
    /// loading; `ENOEXEC` passes to the next loader, and after the last
    /// one is the error; a restart starts a new round, unless the limit is
    /// reached (`ELOOP`).
    pub fn next(&mut self, attempt: Attempt) -> (r: LoadStep)
        requires
            old(self).wf(),
        ensures
            final(self).wf(),
            // loading ends: every new run brings the end closer
            r is Run ==> 0 <= final(self).remaining_runs() < old(self).remaining_runs(),
            match attempt {
                Attempt::CheckFailed(e) => r == LoadStep::Fail(e),
                Attempt::Finished => r == LoadStep::Done,
                Attempt::LoaderFailed(e) => if e.errno != ENOEXEC || old(self).loader_spec() == 1 {
                    r == LoadStep::Fail(e)
                } else {
                    &&& r == LoadStep::Run(loader_at(old(self).loader_spec() + 1))
                    &&& final(self).loader_spec() == old(self).loader_spec() + 1
                    &&& final(self).round_spec() == old(self).round_spec()
                },
                Attempt::Restart => if old(self).round_spec() == INTERPRETER_REWRITE_LIMIT {
                    r == LoadStep::Fail(Error { errno: ELOOP })
                } else {
                    &&& r == LoadStep::Run(LoaderKind::Script)
                    &&& final(self).loader_spec() == 0
                    &&& final(self).round_spec() == old(self).round_spec() + 1
                },
            },
    {
        match attempt {
            Attempt::CheckFailed(e) => LoadStep::Fail(e),
            Attempt::Finished => LoadStep::Done,
            Attempt::LoaderFailed(e) => {
                if e.errno != ENOEXEC || self.loader == 1 {
                    // this loader handles the format but failed, or no
                    // loader is left: the last error is raised
                    LoadStep::Fail(e)
                } else {
                    self.loader = self.loader + 1;
                    LoadStep::Run(LoaderKind::Elf)
                }
            },
            Attempt::Restart => {
                if self.round == INTERPRETER_REWRITE_LIMIT {
                    LoadStep::Fail(Error::errno(ELOOP))
                } else {
                    self.round = self.round + 1;
                    self.loader = 0;
                    LoadStep::Run(LoaderKind::Script)
                }
            },
        }
    }
}

} // verus!
