//! Resolve the on-disk manifest path of a named package from build-tool
//! metadata.
//!
//! The captured output of the metadata command is decoded as UTF-8 text,
//! parsed as a JSON document holding a `packages` array, and scanned for
//! the first package record whose `name` equals the requested name; that
//! record's `manifest_path` is returned.  Every fallible stage reports a
//! distinct error instead of terminating the caller.

pub mod errors;
pub mod json;
pub mod metadata;
pub mod resolver;

pub use errors::ResolveError;
pub use metadata::{Metadata, Package};
pub use resolver::{find_manifest_path, resolve_manifest_path};
