use get_crate_manifest_path::errors::ResolveError;
use get_crate_manifest_path::metadata::{parse_metadata, Metadata, Package};
use get_crate_manifest_path::resolver::{find_manifest_path, resolve_manifest_path};

fn record(name: &str, manifest_path: &str) -> String {
    format!(
        "{{\"name\": \"{}\", \"version\": \"1.0.0\", \"id\": \"{} 1.0.0\", \"manifest_path\": \"{}\"}}",
        name, name, manifest_path
    )
}

fn two_crate_output() -> Vec<u8> {
    let text = format!(
        "{{\"packages\": [{}, {}]}}",
        record("serde", "/a/Cargo.toml"),
        record("serde_json", "/b/Cargo.toml")
    );
    text.into_bytes()
}

#[test]
fn exact_match_returns_only_that_record() {
    let path = resolve_manifest_path(two_crate_output(), "serde").unwrap();
    assert_eq!(path, "/a/Cargo.toml");
    let path = resolve_manifest_path(two_crate_output(), "serde_json").unwrap();
    assert_eq!(path, "/b/Cargo.toml");
}

#[test]
fn first_match_wins_on_duplicate_names() {
    let text = format!(
        "{{\"packages\": [{}, {}, {}]}}",
        record("bar", "/bar/Cargo.toml"),
        record("foo", "/first/Cargo.toml"),
        record("foo", "/second/Cargo.toml")
    );
    let path = resolve_manifest_path(text.into_bytes(), "foo").unwrap();
    assert_eq!(path, "/first/Cargo.toml");
}

#[test]
fn not_found_yields_failure_not_empty_string() {
    let r = resolve_manifest_path(two_crate_output(), "tokio");
    assert_eq!(r, Err(ResolveError::PackageNotFound));
}

#[test]
fn not_found_on_empty_package_list() {
    let r = resolve_manifest_path(b"{\"packages\": []}".to_vec(), "serde");
    assert_eq!(r, Err(ResolveError::PackageNotFound));
}

#[test]
fn missing_packages_key_is_schema_error_not_not_found() {
    let r = resolve_manifest_path(b"{\"workspace_members\": []}".to_vec(), "serde");
    assert_eq!(r, Err(ResolveError::SchemaParse));
}

#[test]
fn non_json_text_is_schema_error() {
    let r = resolve_manifest_path(b"not json at all".to_vec(), "serde");
    assert_eq!(r, Err(ResolveError::SchemaParse));
}

#[test]
fn non_object_document_is_schema_error() {
    let r = resolve_manifest_path(b"[1, 2, 3]".to_vec(), "serde");
    assert_eq!(r, Err(ResolveError::SchemaParse));
}

#[test]
fn packages_not_an_array_is_schema_error() {
    let r = resolve_manifest_path(b"{\"packages\": \"serde\"}".to_vec(), "serde");
    assert_eq!(r, Err(ResolveError::SchemaParse));
}

#[test]
fn package_record_missing_required_field_is_schema_error() {
    let text = "{\"packages\": [{\"name\": \"serde\", \"version\": \"1.0.0\", \"id\": \"serde 1.0.0\"}]}";
    let r = resolve_manifest_path(text.as_bytes().to_vec(), "serde");
    assert_eq!(r, Err(ResolveError::SchemaParse));
}

#[test]
fn package_record_with_non_string_field_is_schema_error() {
    let text = "{\"packages\": [{\"name\": 7, \"version\": \"1.0.0\", \"id\": \"x\", \"manifest_path\": \"/a\"}]}";
    let r = resolve_manifest_path(text.as_bytes().to_vec(), "serde");
    assert_eq!(r, Err(ResolveError::SchemaParse));
}

#[test]
fn invalid_utf8_output_is_decode_error() {
    let r = resolve_manifest_path(vec![0xff, 0xfe, 0x7b, 0x7d], "serde");
    assert_eq!(r, Err(ResolveError::OutputDecode));
}

#[test]
fn extra_fields_are_tolerated() {
    let text = "{\"format_version\": 1, \"packages\": [{\"name\": \"serde\", \"version\": \"1.0.0\", \
                \"id\": \"serde 1.0.0\", \"manifest_path\": \"/a/Cargo.toml\", \"license\": \"MIT\", \
                \"dependencies\": [{\"name\": \"x\"}]}], \"workspace_members\": [\"serde\"]}";
    let path = resolve_manifest_path(text.as_bytes().to_vec(), "serde").unwrap();
    assert_eq!(path, "/a/Cargo.toml");
}

#[test]
fn resolution_is_idempotent() {
    let r1 = resolve_manifest_path(two_crate_output(), "serde");
    let r2 = resolve_manifest_path(two_crate_output(), "serde");
    assert_eq!(r1, r2);
    let r1 = resolve_manifest_path(two_crate_output(), "absent");
    let r2 = resolve_manifest_path(two_crate_output(), "absent");
    assert_eq!(r1, r2);
}

#[test]
fn parse_metadata_keeps_all_fields_and_order() {
    let text = format!(
        "{{\"packages\": [{}, {}]}}",
        record("alpha", "/alpha/Cargo.toml"),
        record("beta", "/beta/Cargo.toml")
    );
    let md = parse_metadata(&text).unwrap();
    assert_eq!(md.packages.len(), 2);
    assert_eq!(md.packages[0].name, "alpha");
    assert_eq!(md.packages[0].version, "1.0.0");
    assert_eq!(md.packages[0].id, "alpha 1.0.0");
    assert_eq!(md.packages[0].manifest_path, "/alpha/Cargo.toml");
    assert_eq!(md.packages[1].name, "beta");
    assert_eq!(md.packages[1].manifest_path, "/beta/Cargo.toml");
}

#[test]
fn find_manifest_path_scans_a_built_list() {
    let metadata = Metadata {
        packages: vec![
            Package {
                name: "a".to_string(),
                version: "0.1.0".to_string(),
                id: "a 0.1.0".to_string(),
                manifest_path: "/a/Cargo.toml".to_string(),
            },
            Package {
                name: "b".to_string(),
                version: "0.2.0".to_string(),
                id: "b 0.2.0".to_string(),
                manifest_path: "/b/Cargo.toml".to_string(),
            },
        ],
    };
    assert_eq!(find_manifest_path(&metadata, "b").unwrap(), "/b/Cargo.toml");
    assert_eq!(
        find_manifest_path(&metadata, "c"),
        Err(ResolveError::PackageNotFound)
    );
}

#[test]
fn error_messages_name_the_failed_stage() {
    assert_eq!(
        ResolveError::ProcessLaunch.message(),
        "failed to launch the metadata command"
    );
    assert_eq!(
        ResolveError::OutputDecode.message(),
        "the captured output is not valid UTF-8"
    );
    assert_eq!(
        ResolveError::SchemaParse.message(),
        "the output does not match the metadata schema"
    );
    assert_eq!(
        ResolveError::PackageNotFound.message(),
        "no package with the requested name"
    );
}
