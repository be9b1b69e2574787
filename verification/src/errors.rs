//! The error taxonomy of the client's core: a decode failure, and the three
//! semantically-empty results the handlers distinguish. Transport and file
//! write failures happen outside the core and are reported by the caller.
use vstd::prelude::*;

verus! {

/// Why a handler's work on a decoded response could not produce a result.
#[derive(Clone, Copy, Debug, PartialEq, Eq, Structural)]
pub enum ClientError {
    /// The response body was not JSON of the expected shape.
    Decode,
    /// The project's version list was empty.
    NoVersions,
    /// The first version's dependency list was empty.
    NoDependencies,
    /// No listed version matches the requested loader, or the matching
    /// version carries no files.
    NoMatchingFiles,
}

impl ClientError {
    /// The human-readable report for this error.
    pub fn message(&self) -> (r: String)
        ensures
            *self == ClientError::Decode ==> r@ == "Couldn't decode the response body"@,
            *self == ClientError::NoVersions ==> r@ == "No versions found for this project"@,
            *self == ClientError::NoDependencies ==> r@
                == "No dependencies found for this project's version"@,
            *self == ClientError::NoMatchingFiles ==> r@ == "No matching GameFiles found"@,
    {
        match self {
            ClientError::Decode => String::from_str("Couldn't decode the response body"),
            ClientError::NoVersions => String::from_str("No versions found for this project"),
            ClientError::NoDependencies => String::from_str(
                "No dependencies found for this project's version",
            ),
            ClientError::NoMatchingFiles => String::from_str("No matching GameFiles found"),
        }
    }
}

} // verus!
