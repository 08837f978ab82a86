//! Tests for the manifest model, the editor, and the backend protocol.

use flox_core::error::CoreEnvironmentError;
use flox_core::manifest::{
    insert_packages,
    parse_manifest,
    remove_packages,
    Manifest,
    PackageToInstall,
};
use flox_core::pkgdb::{pkgdb_lock_args, pkgdb_update_args, pkgdb_upgrade_args};

fn pkg(id: &str, path: &str, version: Option<&str>) -> PackageToInstall {
    PackageToInstall {
        id: id.to_string(),
        pkg_path: path.to_string(),
        version: version.map(|v| v.to_string()),
    }
}

/// Parsing reads the version tag, the sections, and the install entries.
#[test]
fn parse_manifest_reads_fields() {
    let text = "version = 1\n\n[install]\nhello.pkg-path = \"hello\"\n\n[vars]\nfoo = \"bar\"\n".to_string();
    let m: Manifest = parse_manifest(&text).unwrap();
    assert_eq!(m.version, Some(1));
    assert_eq!(m.install.len(), 1);
    assert_eq!(m.install[0].0, "hello");
    assert!(m.vars.is_some());
    assert!(m.hook.is_none());
    assert!(m.systems.is_none());
    assert!(m.is_catalog());
}

/// A manifest without a version tag is a legacy manifest.
#[test]
fn parse_manifest_legacy_by_default() {
    let m = parse_manifest(&"".to_string()).unwrap();
    assert_eq!(m.version, None);
    assert!(!m.is_catalog());
    assert_eq!(m.install.len(), 0);
}

/// The systems list is read from the options table.
#[test]
fn parse_manifest_reads_systems() {
    let text = "[options]\nsystems = [\"aarch64-darwin\"]\n".to_string();
    let m = parse_manifest(&text).unwrap();
    assert!(m.systems.is_some());
    assert!(m.systems.unwrap().contains("aarch64-darwin"));
}

/// Invalid TOML is rejected.
#[test]
fn parse_manifest_rejects_bad_toml() {
    let err = parse_manifest(&"not [valid".to_string()).unwrap_err();
    assert!(matches!(err, CoreEnvironmentError::DeserializeManifest(_)));
}

/// Inserting into a manifest with an install table adds the entry right
/// after the header and preserves everything else.
#[test]
fn insert_into_existing_table() {
    let text = "# my env\n[install]\nhello.pkg-path = \"hello\"\n".to_string();
    let ins = insert_packages(&text, &vec![pkg("ripgrep", "ripgrep", None)]).unwrap();
    assert_eq!(
        ins.new_text.unwrap(),
        "# my env\n[install]\nripgrep.pkg-path = \"ripgrep\"\nhello.pkg-path = \"hello\"\n"
    );
    assert_eq!(ins.already_installed.len(), 0);
}

/// Inserting into a manifest without an install table appends one.
#[test]
fn insert_appends_table() {
    let text = "[vars]\nfoo = \"bar\"\n".to_string();
    let ins = insert_packages(&text, &vec![pkg("hello", "hello", None)]).unwrap();
    assert_eq!(
        ins.new_text.unwrap(),
        "[vars]\nfoo = \"bar\"\n\n[install]\nhello.pkg-path = \"hello\""
    );
}

/// A requested version becomes its own dotted key.
#[test]
fn insert_with_version() {
    let ins = insert_packages(&"".to_string(), &vec![pkg("hello", "hello", Some("2.12"))]).unwrap();
    assert_eq!(
        ins.new_text.unwrap(),
        "\n[install]\nhello.pkg-path = \"hello\"\nhello.version = \"2.12\""
    );
}

/// A package that is already installed is reported, not re-added.
#[test]
fn insert_reports_already_installed() {
    let text = "[install]\nhello.pkg-path = \"hello\"\n".to_string();
    let ins = insert_packages(&text, &vec![pkg("hello", "hello", None)]).unwrap();
    assert!(ins.new_text.is_none());
    assert_eq!(ins.already_installed.len(), 1);
    assert_eq!(ins.already_installed[0].id, "hello");
}

/// Inserting rejects syntactically invalid manifests.
#[test]
fn insert_rejects_bad_toml() {
    let err = insert_packages(&"not [valid".to_string(), &vec![]).unwrap_err();
    assert!(matches!(err, CoreEnvironmentError::ModifyToml(_)));
}

/// Removing deletes the entry's line and keeps the rest, comments
/// included.
#[test]
fn remove_deletes_entry() {
    let text = "# env\n[install]\nhello.pkg-path = \"hello\"\nripgrep.pkg-path = \"ripgrep\"\n\n[vars]\nhello = \"kept\"\n".to_string();
    let out = remove_packages(&text, &vec!["hello".to_string()]).unwrap();
    assert_eq!(
        out,
        "# env\n[install]\nripgrep.pkg-path = \"ripgrep\"\n\n[vars]\nhello = \"kept\"\n"
    );
}

/// Removing an absent id is a no-op.
#[test]
fn remove_missing_id_is_noop() {
    let text = "[install]\nhello.pkg-path = \"hello\"\n".to_string();
    let out = remove_packages(&text, &vec!["absent".to_string()]).unwrap();
    assert_eq!(out, text);
}

/// Removing rejects syntactically invalid manifests.
#[test]
fn remove_rejects_bad_toml() {
    let err = remove_packages(&"not [valid".to_string(), &vec![]).unwrap_err();
    assert!(matches!(err, CoreEnvironmentError::ModifyToml(_)));
}

/// The `manifest lock` invocation names the global manifest, the manifest
/// and the seed lockfile.
#[test]
fn lock_invocation_arguments() {
    let args = pkgdb_lock_args(
        &"/g/manifest.toml".to_string(),
        &"/e/manifest.toml".to_string(),
        &"/e/manifest.lock".to_string(),
    );
    assert_eq!(args, vec![
        "manifest".to_string(),
        "lock".to_string(),
        "--ga-registry".to_string(),
        "--global-manifest".to_string(),
        "/g/manifest.toml".to_string(),
        "--manifest".to_string(),
        "/e/manifest.toml".to_string(),
        "--lockfile".to_string(),
        "/e/manifest.lock".to_string(),
    ]);
}

/// The `manifest upgrade` invocation appends the lockfile only when one
/// exists, then the groups.
#[test]
fn upgrade_invocation_arguments() {
    let args = pkgdb_upgrade_args(
        &"/g/manifest.toml".to_string(),
        &"/e/manifest.toml".to_string(),
        &None,
        &vec!["hello".to_string()],
    );
    assert_eq!(args, vec![
        "manifest".to_string(),
        "upgrade".to_string(),
        "--ga-registry".to_string(),
        "--global-manifest".to_string(),
        "/g/manifest.toml".to_string(),
        "--manifest".to_string(),
        "/e/manifest.toml".to_string(),
        "hello".to_string(),
    ]);
}

/// The `manifest update` invocation carries the inputs.
#[test]
fn update_invocation_arguments() {
    let args = pkgdb_update_args(
        &"/g/manifest.toml".to_string(),
        &"/e/manifest.toml".to_string(),
        &Some("/e/manifest.lock".to_string()),
        &vec!["nixpkgs".to_string()],
    );
    assert_eq!(args, vec![
        "manifest".to_string(),
        "update".to_string(),
        "--ga-registry".to_string(),
        "--global-manifest".to_string(),
        "/g/manifest.toml".to_string(),
        "--manifest".to_string(),
        "/e/manifest.toml".to_string(),
        "--lockfile".to_string(),
        "/e/manifest.lock".to_string(),
        "nixpkgs".to_string(),
    ]);
}


/// A request whose id exists with another descriptor replaces the entry.
#[test]
fn insert_replaces_mismatched_descriptor() {
    let text = "[install]\nhello.pkg-path = \"other\"\nripgrep.pkg-path = \"ripgrep\"\n".to_string();
    let ins = insert_packages(&text, &vec![pkg("hello", "hello", None)]).unwrap();
    assert_eq!(ins.already_installed.len(), 0);
    assert_eq!(
        ins.new_text.unwrap(),
        "[install]\nhello.pkg-path = \"hello\"\nripgrep.pkg-path = \"ripgrep\"\n"
    );
}

/// A matching version constraint counts as already installed; a different
/// one is a replacement.
#[test]
fn insert_compares_versions() {
    let text = "[install]\nhello.pkg-path = \"hello\"\nhello.version = \"2.12\"\n".to_string();
    let same = insert_packages(&text, &vec![pkg("hello", "hello", Some("2.12"))]).unwrap();
    assert!(same.new_text.is_none());
    assert_eq!(same.already_installed.len(), 1);

    let bumped = insert_packages(&text, &vec![pkg("hello", "hello", Some("2.13"))]).unwrap();
    assert_eq!(
        bumped.new_text.unwrap(),
        "[install]\nhello.pkg-path = \"hello\"\nhello.version = \"2.13\"\n"
    );
}

/// A header written with surrounding whitespace is still the install
/// table.
#[test]
fn insert_accepts_padded_header() {
    let text = "  [install]  \nhello.pkg-path = \"hello\"\n".to_string();
    let ins = insert_packages(&text, &vec![pkg("ripgrep", "ripgrep", None)]).unwrap();
    assert_eq!(
        ins.new_text.unwrap(),
        "  [install]  \nripgrep.pkg-path = \"ripgrep\"\nhello.pkg-path = \"hello\"\n"
    );
}

/// An install table written inline, with no header line to insert under,
/// is refused rather than corrupted.
#[test]
fn insert_refuses_headerless_table() {
    let text = "install = { hello = {} }\n".to_string();
    let err = insert_packages(&text, &vec![pkg("ripgrep", "ripgrep", None)]).unwrap_err();
    assert!(matches!(err, CoreEnvironmentError::ModifyToml(_)));
}

/// Removal tracks the install section through a padded header.
#[test]
fn remove_with_padded_header() {
    let text = " [install]\nhello.pkg-path = \"hello\"\n".to_string();
    let out = remove_packages(&text, &vec!["hello".to_string()]).unwrap();
    assert_eq!(out, " [install]\n");
}
