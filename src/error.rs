use vstd::prelude::*;

verus! {

/// Why a file could not be provided.
#[derive(PartialEq, Eq, Structural, Clone, Copy, Debug)]
pub enum FileError {
    /// The file, source or auxiliary id does not exist.
    NotFound,
    /// A file was expected, a directory was found.
    IsDirectory,
    /// The operating system refused access.
    AccessDenied,
    /// Any other failure of the operating system.
    Other,
}

} // verus!
