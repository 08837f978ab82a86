//! The subprocess protocol with the legacy package-database backend.
//!
//! The backend is a black box invoked as `<binary> manifest
//! {lock|upgrade|update} --ga-registry --global-manifest <path> --manifest
//! <path> [--lockfile <path>] [args…]`, printing JSON on stdout.  The
//! argument lists are built — and specified — here; running the binary is
//! the embedding's job, and each run's outcome re-enters the library as a
//! value.

use vstd::prelude::*;

verus! {

/// The arguments of a `manifest lock` invocation.
pub open spec fn spec_lock_args(
    global_manifest: Seq<char>,
    manifest: Seq<char>,
    lockfile: Seq<char>,
) -> Seq<Seq<char>> {
    seq![
        "manifest"@,
        "lock"@,
        "--ga-registry"@,
        "--global-manifest"@,
        global_manifest,
        "--manifest"@,
        manifest,
        "--lockfile"@,
        lockfile,
    ]
}

/// Build the argument list of a `manifest lock` invocation.
pub fn pkgdb_lock_args(global_manifest: &String, manifest: &String, lockfile: &String) -> (r: Vec<
    String,
>)
    ensures
        r@.map_values(|s: String| s@) == spec_lock_args(global_manifest@, manifest@, lockfile@),
{
    let mut args: Vec<String> = Vec::new();
    args.push(String::from_str("manifest"));
    args.push(String::from_str("lock"));
    args.push(String::from_str("--ga-registry"));
    args.push(String::from_str("--global-manifest"));
    args.push(global_manifest.clone());
    args.push(String::from_str("--manifest"));
    args.push(manifest.clone());
    args.push(String::from_str("--lockfile"));
    args.push(lockfile.clone());
    proof {
        assert(args@.map_values(|s: String| s@) =~= spec_lock_args(
            global_manifest@,
            manifest@,
            lockfile@,
        ));
    }
    args
}

/// The arguments of a `manifest upgrade` or `manifest update` invocation:
/// the common prefix, the lockfile when the environment has one, then the
/// caller's trailing arguments.
pub open spec fn spec_manifest_subcommand_args(
    subcommand: Seq<char>,
    global_manifest: Seq<char>,
    manifest: Seq<char>,
    lockfile: Option<Seq<char>>,
    trailing: Seq<Seq<char>>,
) -> Seq<Seq<char>> {
    seq![
        "manifest"@,
        subcommand,
        "--ga-registry"@,
        "--global-manifest"@,
        global_manifest,
        "--manifest"@,
        manifest,
    ] + (match lockfile {
        Some(lf) => seq!["--lockfile"@, lf],
        None => Seq::empty(),
    }) + trailing
}

/// Build the argument list of a `manifest upgrade` invocation.
pub fn pkgdb_upgrade_args(
    global_manifest: &String,
    manifest: &String,
    lockfile: &Option<String>,
    groups_or_iids: &Vec<String>,
) -> (r: Vec<String>)
    ensures
        r@.map_values(|s: String| s@) == spec_manifest_subcommand_args(
            "upgrade"@,
            global_manifest@,
            manifest@,
            crate::manifest::opt_string_view(lockfile),
            groups_or_iids@.map_values(|s: String| s@),
        ),
{
    manifest_subcommand_args(
        String::from_str("upgrade"),
        global_manifest,
        manifest,
        lockfile,
        groups_or_iids,
    )
}

/// Build the argument list of a `manifest update` invocation.
pub fn pkgdb_update_args(
    global_manifest: &String,
    manifest: &String,
    lockfile: &Option<String>,
    inputs: &Vec<String>,
) -> (r: Vec<String>)
    ensures
        r@.map_values(|s: String| s@) == spec_manifest_subcommand_args(
            "update"@,
            global_manifest@,
            manifest@,
            crate::manifest::opt_string_view(lockfile),
            inputs@.map_values(|s: String| s@),
        ),
{
    manifest_subcommand_args(
        String::from_str("update"),
        global_manifest,
        manifest,
        lockfile,
        inputs,
    )
}

/// Build the argument list of a `manifest` subcommand invocation.
fn manifest_subcommand_args(
    subcommand: String,
    global_manifest: &String,
    manifest: &String,
    lockfile: &Option<String>,
    trailing: &Vec<String>,
) -> (r: Vec<String>)
    ensures
        r@.map_values(|s: String| s@) == spec_manifest_subcommand_args(
            subcommand@,
            global_manifest@,
            manifest@,
            crate::manifest::opt_string_view(lockfile),
            trailing@.map_values(|s: String| s@),
        ),
{
    let mut args: Vec<String> = Vec::new();
    args.push(String::from_str("manifest"));
    args.push(subcommand);
    args.push(String::from_str("--ga-registry"));
    args.push(String::from_str("--global-manifest"));
    args.push(global_manifest.clone());
    args.push(String::from_str("--manifest"));
    args.push(manifest.clone());
    match lockfile {
        Some(lf) => {
            args.push(String::from_str("--lockfile"));
            args.push(lf.clone());
        },
        None => {},
    }
    let ghost prefix = args@;
    let mut i: usize = 0;
    while i < trailing.len()
        invariant
            i <= trailing.len(),
            args@.len() == prefix.len() + i,
            args@.subrange(0, prefix.len() as int) == prefix,
            forall|j: int| 0 <= j < i ==> args@[prefix.len() + j]@ == trailing@[j]@,
        decreases trailing.len() - i,
    {
        args.push(trailing[i].clone());
        proof {
            assert(args@.subrange(0, prefix.len() as int) =~= prefix);
        }
        i = i + 1;
    }
    proof {
        let target = spec_manifest_subcommand_args(
            subcommand@,
            global_manifest@,
            manifest@,
            crate::manifest::opt_string_view(lockfile),
            trailing@.map_values(|s: String| s@),
        );
        let got = args@.map_values(|s: String| s@);
        assert(got.len() == target.len());
        assert forall|j: int| 0 <= j < got.len() implies got[j] == target[j] by {
            if j < prefix.len() {
                assert(args@[j] == prefix[j]);
            } else {
                assert(args@[j]@ == trailing@[j - prefix.len()]@);
                assert(target[j] == trailing@.map_values(|s: String| s@)[j - prefix.len()]);
            }
        }
        assert(got =~= target);
    }
    args
}

/// The arguments of a `buildenv` invocation: the lockfile to realize,
/// the out-link to create when one is asked for, and the store path of an
/// earlier build — whose presence makes the binary skip realization and
/// only create the link.
pub open spec fn spec_buildenv_args(
    lockfile: Seq<char>,
    out_link: Option<Seq<char>>,
    store_path: Option<Seq<char>>,
) -> Seq<Seq<char>> {
    seq!["buildenv"@, lockfile] + (match out_link {
        Some(p) => seq!["--out-link"@, p],
        None => Seq::empty(),
    }) + (match store_path {
        Some(p) => seq!["--store-path"@, p],
        None => Seq::empty(),
    })
}

/// Build the argument list of a `buildenv` invocation.
pub fn pkgdb_buildenv_args(
    lockfile: &String,
    out_link: &Option<String>,
    store_path: &Option<String>,
) -> (r: Vec<String>)
    ensures
        r@.map_values(|s: String| s@) == spec_buildenv_args(
            lockfile@,
            crate::manifest::opt_string_view(out_link),
            crate::manifest::opt_string_view(store_path),
        ),
{
    let mut args: Vec<String> = Vec::new();
    args.push(String::from_str("buildenv"));
    args.push(lockfile.clone());
    match out_link {
        Some(p) => {
            args.push(String::from_str("--out-link"));
            args.push(p.clone());
        },
        None => {},
    }
    match store_path {
        Some(p) => {
            args.push(String::from_str("--store-path"));
            args.push(p.clone());
        },
        None => {},
    }
    proof {
        assert(args@.map_values(|s: String| s@) =~= spec_buildenv_args(
            lockfile@,
            crate::manifest::opt_string_view(out_link),
            crate::manifest::opt_string_view(store_path),
        ));
    }
    args
}

/// Whether the text parses as the JSON object `manifest upgrade` prints.
pub uninterp spec fn upgrade_json_ok(s: Seq<char>) -> bool;

/// The lockfile object embedded in the upgrade output, rendered back to
/// text, when the text parses.
pub uninterp spec fn upgrade_json_lockfile(s: Seq<char>) -> Seq<char>;

/// The list of upgraded install-ids in the upgrade output, when the text
/// parses.
pub uninterp spec fn upgrade_json_result(s: Seq<char>) -> Seq<Seq<char>>;

/// Relies on `serde_json::from_str::<serde_json::Value>` and the
/// `serde_json::Value` accessors: the backend's upgrade output is a JSON
/// object holding a `lockfile` object and a `result` list of install-ids,
/// both functions of the text alone.
#[verifier::external_body]
pub fn parse_upgrade_output(s: &String) -> (r: Result<(String, Vec<String>), String>)
    ensures
        r is Ok <==> upgrade_json_ok(s@),
        r matches Ok(p) ==> p.0@ == upgrade_json_lockfile(s@) && p.1@.map_values(|x: String| x@)
            == upgrade_json_result(s@),
{
    match serde_json::from_str::<serde_json::Value>(s) {
        Err(e) => Err(e.to_string()),
        Ok(v) => match (v.get("lockfile"), v.get("result").and_then(serde_json::Value::as_array)) {
            (Some(l), Some(ids)) => Ok(
                (
                    l.to_string(),
                    ids.iter().map(|x| x.as_str().unwrap_or("").to_string()).collect(),
                ),
            ),
            _ => Err(String::from("unexpected upgrade output")),
        },
    }
}

} // verus!
