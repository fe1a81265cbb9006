//! The kinds of failure that probing a toolchain for its version can end in.

use vstd::prelude::*;

verus! {

/// The underlying cause of a process that could not be started. Its contents
/// are opaque to the library, which only carries the value to the caller.
#[verifier::external_type_specification]
#[verifier::external_body]
pub struct ExIoError(std::io::Error);

/// One of the three numeric fields of a release string.
#[derive(Clone, Copy, Debug, PartialEq, Eq, Structural)]
pub enum Component {
    Major,
    Minor,
    Patch,
}

/// Why a report did not have the shape `release: major.minor.patch[-extra]`.
#[derive(Clone, Copy, Debug, PartialEq, Eq, Structural)]
pub enum FormatError {
    /// No line of the report begins with `release: `.
    ReleaseLineNotFound,
    /// The release string has too few dot-separated pieces to hold this field.
    /// Text without any dot is still one piece, so the field is never `Major`.
    Missing(Component),
    /// The text of this field is not a non-negative integer that fits the field.
    Invalid(Component),
}

/// Why no `Version` could be produced.
#[derive(Debug)]
pub enum Error {
    /// The toolchain could not be started at all.
    Execution(std::io::Error),
    /// The toolchain ran but reported failure through its exit status.
    Toolchain,
    /// The captured output is not valid UTF-8.
    Encoding,
    /// The output is text, but not of the expected shape.
    Format(FormatError),
}

} // verus!
