//! Structured, comparable release versions of a compiler toolchain, read
//! from the text of its verbose version report.

pub mod error;
pub mod laws;
pub mod number;
pub mod report;
pub mod scan;
pub mod version;

pub use error::{Component, Error, FormatError};
pub use version::Version;
