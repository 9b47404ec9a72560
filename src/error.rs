//! Errors of the plain listing mode.
use vstd::prelude::*;

verus! {

/// What can go wrong when listing a directory.
#[derive(Debug, PartialEq, Eq)]
pub enum FMQLError {
    /// The path to list does not exist or cannot be reached.
    PathNotFound(String),
    /// Reading the filesystem failed; the message says how.
    IoError(String),
}

} // verus!
