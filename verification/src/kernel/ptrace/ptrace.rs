use vstd::prelude::*;

use crate::errors::Error;
use crate::kernel::exit::SyscallExitResult;

verus! {

/// `ptrace` requests of the tracee need nothing at the enter stage.
pub fn enter() -> (r: Result<(), Error>)
    ensures
        r is Ok,
{
    Ok(())
}

/// At the exit stage, the `ptrace` request reports success.
pub fn exit() -> (r: SyscallExitResult)
    ensures
        r == SyscallExitResult::Value(0),
{
    SyscallExitResult::Value(0)
}

} // verus!
