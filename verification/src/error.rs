//! The ways in which a conversion ends without a result.

use vstd::prelude::*;

verus! {

/// Why a conversion stopped. Each of these ends the run: nothing is tried
/// again and no part of the output is kept.
#[derive(Clone, Debug, PartialEq, Eq)]
pub enum ConversionError {
    /// Fewer than the two file arguments were given.
    Usage,
    /// The input file, named here, does not exist.
    MissingFile(String),
    /// The filter year is not four digits.
    InvalidYearFormat,
    /// The input is not JSON of any shape that is read; the last refusal is
    /// kept.
    MalformedInput(String),
    /// A file could not be read or written; the system's reason is kept.
    IoFailure(String),
}

impl ConversionError {
    /// The code with which the program ends on this error.
    pub fn exit_code(&self) -> (code: i32)
        ensures
            code == 1,
    {
        1
    }
}

} // verus!
