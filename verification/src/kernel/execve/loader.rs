use vstd::prelude::*;

use crate::errors::Error;

verus! {

/// The file that holds the loader program, run in place of the traced
/// executable.
pub trait LoaderFile {
    /// Writes the loader program into the file and makes it executable.
    fn prepare_loader(&self) -> Result<(), Error>;
}

} // verus!
