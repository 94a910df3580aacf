use vstd::prelude::*;

use crate::errors::Error;

verus! {

/// Something able to reserve memory in a tracee.
pub trait PtraceMemoryAllocator {
    fn alloc_mem() -> Result<(), Error>;
}

} // verus!
