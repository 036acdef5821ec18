//! The resolver: a linear scan of the package list, and the whole
//! pipeline from captured output bytes to a manifest path.

use vstd::prelude::*;
use vstd::utf8::{decode_utf8, valid_utf8};

use crate::errors::ResolveError;
use crate::json::decode_utf8_bytes;
use crate::metadata::{
    metadata_models_of, metadata_shape_ok, parse_metadata, Metadata, PackageModel,
};

verus! {

/// The manifest path the list resolves a name to: the `manifest_path` of
/// the first record whose `name` equals the requested name, or `None`
/// where no record matches.
pub open spec fn resolved_path(pkgs: Seq<PackageModel>, name: Seq<char>) -> Option<Seq<char>>
    decreases pkgs.len(),
{
    if pkgs.len() == 0 {
        None
    } else if pkgs[0].name == name {
        Some(pkgs[0].manifest_path)
    } else {
        resolved_path(pkgs.drop_first(), name)
    }
}

/// First match wins: where a record matches the requested name and no
/// earlier record does, the list resolves to that record's manifest path —
/// even where a later record carries the same name.
pub proof fn lemma_first_match_wins(pkgs: Seq<PackageModel>, name: Seq<char>, i: int)
    requires
        0 <= i < pkgs.len(),
        pkgs[i].name == name,
        forall|j: int| 0 <= j < i ==> #[trigger] pkgs[j].name != name,
    ensures
        resolved_path(pkgs, name) == Some(pkgs[i].manifest_path),
    decreases i,
{
    if i > 0 {
        assert(pkgs[0].name != name);
        assert(forall|j: int|
            0 <= j < i - 1 ==> #[trigger] pkgs.drop_first()[j].name == pkgs[j + 1].name);
        lemma_first_match_wins(pkgs.drop_first(), name, i - 1);
    }
}

/// A name no record carries resolves to nothing.
pub proof fn lemma_no_match_resolves_to_none(pkgs: Seq<PackageModel>, name: Seq<char>)
    requires
        forall|j: int| 0 <= j < pkgs.len() ==> #[trigger] pkgs[j].name != name,
    ensures
        resolved_path(pkgs, name) is None,
    decreases pkgs.len(),
{
    if pkgs.len() > 0 {
        assert(forall|j: int|
            0 <= j < pkgs.len() - 1 ==> #[trigger] pkgs.drop_first()[j].name == pkgs[j
                + 1].name);
        lemma_no_match_resolves_to_none(pkgs.drop_first(), name);
    }
}

/// Scans the package list for the first record whose name equals the
/// requested name and returns its manifest path; a name no record carries
/// is reported as not found, never as an empty or default path.
pub fn find_manifest_path(metadata: &Metadata, target_name: &str) -> (r: Result<
    String,
    ResolveError,
>)
    ensures
        r matches Ok(p) ==> resolved_path(metadata@, target_name@) == Some(p@),
        r matches Err(e) ==> resolved_path(metadata@, target_name@) is None && e
            == ResolveError::PackageNotFound,
{
    let target: String = target_name.to_owned();
    let n: usize = metadata.packages.len();
    let mut i: usize = 0;
    while i < n
        invariant
            0 <= i <= n,
            n == metadata.packages.len(),
            target@ == target_name@,
            forall|j: int| 0 <= j < i ==> #[trigger] metadata@[j].name != target_name@,
        decreases n - i,
    {
        if metadata.packages[i].name == target {
            let path = metadata.packages[i].manifest_path.clone();
            proof {
                lemma_first_match_wins(metadata@, target_name@, i as int);
            }
            return Ok(path);
        }
        i += 1;
    }
    proof {
        lemma_no_match_resolves_to_none(metadata@, target_name@);
    }
    Err(ResolveError::PackageNotFound)
}

/// What a resolution returns, as a function of the captured output bytes
/// and the requested name: the decode, parse and search stages in order,
/// each failure reported as its own error.
pub open spec fn resolve_model(output: Seq<u8>, name: Seq<char>) -> Result<
    Seq<char>,
    ResolveError,
> {
    if !valid_utf8(output) {
        Err(ResolveError::OutputDecode)
    } else if !metadata_shape_ok(decode_utf8(output)) {
        Err(ResolveError::SchemaParse)
    } else {
        match resolved_path(metadata_models_of(decode_utf8(output)), name) {
            Some(p) => Ok(p),
            None => Err(ResolveError::PackageNotFound),
        }
    }
}

/// Resolves the manifest path of the named package from the captured
/// output of the metadata command: decodes the bytes as UTF-8, parses
/// them against the metadata schema, and scans the package list.
pub fn resolve_manifest_path(output: Vec<u8>, target_name: &str) -> (r: Result<
    String,
    ResolveError,
>)
    ensures
        r matches Ok(p) ==> resolve_model(output@, target_name@) == Ok::<_, ResolveError>(p@),
        r matches Err(e) ==> resolve_model(output@, target_name@) == Err::<Seq<char>, _>(e),
{
    let text = match decode_utf8_bytes(output) {
        Some(s) => s,
        None => {
            return Err(ResolveError::OutputDecode);
        },
    };
    let metadata = match parse_metadata(text.as_str()) {
        Ok(md) => md,
        Err(e) => {
            return Err(e);
        },
    };
    find_manifest_path(&metadata, target_name)
}

/// A name no package of a conforming document carries is reported as not
/// found: the resolution never falls back to a default or empty path.
pub proof fn lemma_absent_name_not_found(output: Seq<u8>, name: Seq<char>)
    requires
        valid_utf8(output),
        metadata_shape_ok(decode_utf8(output)),
        forall|j: int|
            0 <= j < metadata_models_of(decode_utf8(output)).len()
                ==> #[trigger] metadata_models_of(decode_utf8(output))[j].name != name,
    ensures
        resolve_model(output, name) == Err::<Seq<char>, _>(ResolveError::PackageNotFound),
{
    lemma_no_match_resolves_to_none(metadata_models_of(decode_utf8(output)), name);
}

/// Resolution is idempotent: its outcome is a function of the captured
/// output and the requested name alone, so two results drawn from the
/// same output and name are equal.
pub proof fn lemma_resolution_idempotent(
    output: Seq<u8>,
    name: Seq<char>,
    r1: Result<Seq<char>, ResolveError>,
    r2: Result<Seq<char>, ResolveError>,
)
    requires
        r1 == resolve_model(output, name),
        r2 == resolve_model(output, name),
    ensures
        r1 == r2,
{
}

} // verus!
