use vstd::prelude::*;

use crate::errors::Error;
use crate::kernel::exit::SyscallExitResult;

verus! {

/// `renameat` needs nothing at the enter stage.
pub fn enter() -> (r: Result<(), Error>)
    ensures
        r is Ok,
{
    Ok(())
}

/// ... nor at the exit stage, as `rename`.
pub fn exit() -> (r: SyscallExitResult)
    ensures
        r == SyscallExitResult::Unchanged,
{
    SyscallExitResult::Unchanged
}

} // verus!
