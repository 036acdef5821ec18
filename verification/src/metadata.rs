//! The typed model of the metadata document, and its parser.
//!
//! The document is an object holding a `packages` array whose elements
//! each carry the string fields `name`, `version`, `id` and
//! `manifest_path`; fields beyond those four are ignored.  The parser
//! turns a text into that model, or reports a schema failure.

use vstd::prelude::*;

use crate::errors::ResolveError;
use crate::json::{
    arr_of, as_array, as_str, get_key, json_of, obj_key, parse_json, str_of,
};

verus! {

/// One package record: the four fields the schema requires of every
/// element of the `packages` array.
pub struct Package {
    pub name: String,
    pub version: String,
    pub id: String,
    pub manifest_path: String,
}

/// The mathematical value of a package record.
pub struct PackageModel {
    pub name: Seq<char>,
    pub version: Seq<char>,
    pub id: Seq<char>,
    pub manifest_path: Seq<char>,
}

impl View for Package {
    type V = PackageModel;

    open spec fn view(&self) -> PackageModel {
        PackageModel {
            name: self.name@,
            version: self.version@,
            id: self.id@,
            manifest_path: self.manifest_path@,
        }
    }
}

/// The parsed document: the package list, in emission order.
pub struct Metadata {
    pub packages: Vec<Package>,
}

/// The models of a sequence of package records, element by element.
pub open spec fn models_of_packages(s: Seq<Package>) -> Seq<PackageModel> {
    s.map_values(|p: Package| p@)
}

impl View for Metadata {
    type V = Seq<PackageModel>;

    open spec fn view(&self) -> Seq<PackageModel> {
        models_of_packages(self.packages@)
    }
}

/// The characters of the string a record holds under a key: `None` where
/// the record is not an object, the key is absent, or its value is not a
/// string.
pub open spec fn field_str(v: serde_json::Value, key: Seq<char>) -> Option<Seq<char>> {
    match obj_key(v, key) {
        Some(w) => str_of(w),
        None => None,
    }
}

/// Whether a value is a package record of the expected shape: an object
/// whose four required fields are present and are strings.
pub open spec fn package_shape_ok(v: serde_json::Value) -> bool {
    &&& field_str(v, "name"@) is Some
    &&& field_str(v, "version"@) is Some
    &&& field_str(v, "id"@) is Some
    &&& field_str(v, "manifest_path"@) is Some
}

/// The model of a well-shaped package record.
pub open spec fn package_model_of(v: serde_json::Value) -> PackageModel
    recommends
        package_shape_ok(v),
{
    PackageModel {
        name: field_str(v, "name"@).unwrap(),
        version: field_str(v, "version"@).unwrap(),
        id: field_str(v, "id"@).unwrap(),
        manifest_path: field_str(v, "manifest_path"@).unwrap(),
    }
}

/// The `packages` value of the document a text parses to, if any.
pub open spec fn packages_value_of(text: Seq<char>) -> Option<serde_json::Value> {
    match json_of(text) {
        Some(v) => obj_key(v, "packages"@),
        None => None,
    }
}

/// The elements of the document's `packages` array, if the text parses to
/// an object holding one.
pub open spec fn packages_array_of(text: Seq<char>) -> Option<Seq<serde_json::Value>> {
    match packages_value_of(text) {
        Some(v) => arr_of(v),
        None => None,
    }
}

/// Whether a text conforms to the metadata schema: it parses to an object
/// holding a `packages` array, every element of which is a well-shaped
/// package record.
pub open spec fn metadata_shape_ok(text: Seq<char>) -> bool {
    match packages_array_of(text) {
        Some(a) => forall|i: int| 0 <= i < a.len() ==> package_shape_ok(#[trigger] a[i]),
        None => false,
    }
}

/// The models of a sequence of parsed values, element by element.
pub open spec fn models_of_values(s: Seq<serde_json::Value>) -> Seq<PackageModel> {
    s.map_values(|v: serde_json::Value| package_model_of(v))
}

/// The package models a conforming text parses to, in emission order.
pub open spec fn metadata_models_of(text: Seq<char>) -> Seq<PackageModel>
    recommends
        metadata_shape_ok(text),
{
    models_of_values(packages_array_of(text).unwrap())
}

/// Reads the string a record holds under a required field.
fn get_field_str(v: &serde_json::Value, key: &str) -> (r: Option<String>)
    ensures
        r matches Some(s) ==> field_str(*v, key@) == Some(s@),
        r is None ==> field_str(*v, key@) is None,
{
    match get_key(v, key) {
        Some(w) => match as_str(w) {
            Some(t) => Some(t.to_owned()),
            None => None,
        },
        None => None,
    }
}

/// Parses one element of the `packages` array into a package record;
/// a record that is not an object or lacks one of the four required
/// string fields is a schema failure.
pub fn parse_package(v: &serde_json::Value) -> (r: Result<Package, ResolveError>)
    ensures
        r matches Ok(p) ==> package_shape_ok(*v) && p@ == package_model_of(*v),
        r matches Err(e) ==> !package_shape_ok(*v) && e == ResolveError::SchemaParse,
{
    let name = match get_field_str(v, "name") {
        Some(s) => s,
        None => {
            return Err(ResolveError::SchemaParse);
        },
    };
    let version = match get_field_str(v, "version") {
        Some(s) => s,
        None => {
            return Err(ResolveError::SchemaParse);
        },
    };
    let id = match get_field_str(v, "id") {
        Some(s) => s,
        None => {
            return Err(ResolveError::SchemaParse);
        },
    };
    let manifest_path = match get_field_str(v, "manifest_path") {
        Some(s) => s,
        None => {
            return Err(ResolveError::SchemaParse);
        },
    };
    Ok(Package { name, version, id, manifest_path })
}

/// Parses a text against the metadata schema.  A text that is not JSON,
/// whose document is not an object holding a `packages` array, or one of
/// whose package records is ill-shaped, is a schema failure; nothing else
/// is.
pub fn parse_metadata(text: &str) -> (r: Result<Metadata, ResolveError>)
    ensures
        r matches Ok(md) ==> metadata_shape_ok(text@) && md@ == metadata_models_of(text@),
        r matches Err(e) ==> !metadata_shape_ok(text@) && e == ResolveError::SchemaParse,
{
    let doc = match parse_json(text) {
        Ok(v) => v,
        Err(_) => {
            return Err(ResolveError::SchemaParse);
        },
    };
    let packages_value = match get_key(&doc, "packages") {
        Some(w) => w,
        None => {
            return Err(ResolveError::SchemaParse);
        },
    };
    let elems = match as_array(packages_value) {
        Some(a) => a,
        None => {
            return Err(ResolveError::SchemaParse);
        },
    };
    proof {
        assert(packages_array_of(text@) == Some(elems@));
    }
    let ghost espec: Seq<serde_json::Value> = elems@;
    let mut packages: Vec<Package> = Vec::new();
    let mut i: usize = 0;
    while i < elems.len()
        invariant
            0 <= i <= elems.len(),
            elems@ == espec,
            packages_array_of(text@) == Some(espec),
            forall|j: int| 0 <= j < i ==> package_shape_ok(#[trigger] espec[j]),
            models_of_packages(packages@) == models_of_values(espec.subrange(0, i as int)),
        decreases elems.len() - i,
    {
        match parse_package(&elems[i]) {
            Ok(p) => {
                let ghost pre = packages@;
                let ghost model = package_model_of(espec[i as int]);
                packages.push(p);
                proof {
                    let sub_i = espec.subrange(0, i as int);
                    let sub_next = espec.subrange(0, i as int + 1);
                    assert(models_of_packages(pre.push(p)) =~= models_of_packages(pre).push(p@));
                    assert(sub_next =~= sub_i.push(espec[i as int]));
                    assert(models_of_values(sub_i.push(espec[i as int])) =~= models_of_values(
                        sub_i,
                    ).push(model));
                    assert(models_of_packages(packages@) == models_of_values(sub_next));
                }
            },
            Err(_) => {
                proof {
                    let a = packages_array_of(text@).unwrap();
                    assert(a == espec);
                    assert(!package_shape_ok(a[i as int]));
                    assert(!metadata_shape_ok(text@));
                }
                return Err(ResolveError::SchemaParse);
            },
        }
        i += 1;
    }
    proof {
        assert(espec.subrange(0, espec.len() as int) =~= espec);
        assert(models_of_packages(packages@) == metadata_models_of(text@));
    }
    Ok(Metadata { packages })
}

} // verus!
