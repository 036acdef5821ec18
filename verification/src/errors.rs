//! The ways a resolution can fail, one per pipeline stage.

use vstd::prelude::*;

verus! {

/// A failed resolution: each variant names the stage that failed, so a
/// caller can tell launching, decoding, parsing and searching apart.
#[derive(Clone, Copy, Debug, PartialEq, Eq, Structural)]
pub enum ResolveError {
    /// The external metadata command could not be launched or run.
    ProcessLaunch,
    /// The captured output bytes are not valid UTF-8 text.
    OutputDecode,
    /// The decoded text does not conform to the expected metadata schema.
    SchemaParse,
    /// No package in the list carries the requested name.
    PackageNotFound,
}

impl ResolveError {
    /// A diagnostic naming the stage that failed.
    pub fn message(&self) -> (r: &'static str)
        ensures
            *self is ProcessLaunch ==> r@ == "failed to launch the metadata command"@,
            *self is OutputDecode ==> r@ == "the captured output is not valid UTF-8"@,
            *self is SchemaParse ==> r@ == "the output does not match the metadata schema"@,
            *self is PackageNotFound ==> r@ == "no package with the requested name"@,
    {
        match self {
            ResolveError::ProcessLaunch => "failed to launch the metadata command",
            ResolveError::OutputDecode => "the captured output is not valid UTF-8",
            ResolveError::SchemaParse => "the output does not match the metadata schema",
            ResolveError::PackageNotFound => "no package with the requested name",
        }
    }
}

} // verus!
