//! Tests for the environment view and transaction engine.

use flox_core::catalog::{CatalogPage, Client, MockClient, ResolvedPackageDescriptor, ResolvedPackageGroup};
use flox_core::core_environment::{ContainerBuilder, CoreEnvironment, EditResult, Flox};
use flox_core::error::{
    CallPkgDbError,
    CoreEnvironmentError,
    PkgDbError,
    LOCKFILE_INCOMPATIBLE_SYSTEM,
    PACKAGE_EVAL_FAILURE,
    PACKAGE_EVAL_INCOMPATIBLE_SYSTEM,
};
use flox_core::lockfile::{CatalogLock, LockedPackage, Lockfile};
use flox_core::manifest::Manifest;
use flox_core::vfs::{EnvContents, Vfs};

fn test_flox(client: Option<Client>) -> Flox {
    Flox {
        os: "linux".to_string(),
        system: "x86_64-linux".to_string(),
        temp_dir: "/tmp/flox-tests".to_string(),
        global_manifest_path: "/tmp/flox-tests/global-manifest.toml".to_string(),
        global_lockfile_path: "/tmp/flox-tests/global-manifest.lock".to_string(),
        catalog_client: client,
    }
}

fn new_core_environment(vfs: &mut Vfs, contents: &str) -> CoreEnvironment<flox_core::core_environment::ReadOnly> {
    flox_core::core_environment::new_core_environment(
        vfs,
        "/envs/env".to_string(),
        contents.to_string(),
    )
}

fn pkgdb_error(exit_code: u64) -> CallPkgDbError {
    CallPkgDbError::PkgDbError(PkgDbError { exit_code, category_message: "failed".to_string() })
}

fn ok_lock() -> Result<String, CallPkgDbError> {
    Ok("{\"lockfile-version\": 0}".to_string())
}

fn ok_build() -> Result<String, CallPkgDbError> {
    Ok("/nix/store/example".to_string())
}

/// A no-op edit returns `Unchanged`.
#[test]
fn edit_no_op_returns_unchanged() {
    let mut vfs = Vfs::new();
    let mut flox = test_flox(None);
    let mut env_view = new_core_environment(&mut vfs, "");

    let result = env_view
        .edit(&mut vfs, &mut flox, "".to_string(), "/tmp/sandbox-a".to_string(), ok_lock(), ok_build())
        .unwrap();

    assert!(matches!(result, EditResult::Unchanged));
}

/// A no-op edit creates no lockfile.
#[test]
fn edit_no_op_writes_nothing() {
    let mut vfs = Vfs::new();
    let mut flox = test_flox(None);
    let mut env_view = new_core_environment(&mut vfs, "");

    env_view
        .edit(&mut vfs, &mut flox, "".to_string(), "/tmp/sandbox-a".to_string(), ok_lock(), ok_build())
        .unwrap();

    let contents = vfs.get(env_view.path()).unwrap();
    assert_eq!(contents.manifest, "");
    assert!(contents.lock.is_none());
    assert!(!vfs.contains(&"/tmp/sandbox-a".to_string()));
}

/// An edit updates the manifest and creates a lockfile.
#[test]
fn edit_env_creates_manifest_and_lockfile() {
    let mut vfs = Vfs::new();
    let mut flox = test_flox(None);
    let mut env_view = new_core_environment(&mut vfs, "");

    let new_env_str = "\n        [install]\n        hello = {}\n        ";

    env_view
        .edit(&mut vfs, &mut flox, new_env_str.to_string(), "/tmp/sandbox-a".to_string(), ok_lock(), ok_build())
        .unwrap();

    let contents = vfs.get(env_view.path()).unwrap();
    assert_eq!(contents.manifest, new_env_str);
    assert!(contents.lock.is_some());
}

/// Building a manifest whose systems do not include the host fails with an
/// error classified as an incompatible-system error.
#[test]
fn build_incompatible_system() {
    let mut vfs = Vfs::new();
    let mut flox = test_flox(None);
    let mut env_view = new_core_environment(&mut vfs, "");
    let manifest_incompatible_system = "[options]\nsystems = [\"aarch64-darwin\"]\n";

    let mut temp_env = env_view.writable(&mut vfs, "/tmp/sandbox-b".to_string()).unwrap();
    temp_env
        .update_manifest(&mut vfs, &manifest_incompatible_system.to_string())
        .unwrap();
    temp_env.lock(&mut vfs, &mut flox, ok_lock()).unwrap();
    env_view.replace_with(&mut vfs, temp_env).unwrap();

    let result = env_view
        .build(&vfs, &flox, Err(pkgdb_error(LOCKFILE_INCOMPATIBLE_SYSTEM)))
        .unwrap_err();

    assert!(result.is_incompatible_system_error());
}

/// Building a manifest with a package for another platform fails with an
/// error classified as an incompatible-package error.
#[test]
fn build_incompatible_package() {
    let manifest_contents = "[install]\nps.pkg-path = \"darwin.ps\"\n\n[options]\nsystems = [\"x86_64-linux\"]\n";

    let mut vfs = Vfs::new();
    let mut flox = test_flox(None);
    let mut env_view = new_core_environment(&mut vfs, "");

    let mut temp_env = env_view.writable(&mut vfs, "/tmp/sandbox-c".to_string()).unwrap();
    temp_env.update_manifest(&mut vfs, &manifest_contents.to_string()).unwrap();
    temp_env.lock(&mut vfs, &mut flox, ok_lock()).unwrap();
    env_view.replace_with(&mut vfs, temp_env).unwrap();

    let result = env_view
        .build(&vfs, &flox, Err(pkgdb_error(PACKAGE_EVAL_INCOMPATIBLE_SYSTEM)))
        .unwrap_err();

    assert!(result.is_incompatible_package_error());
}

/// Building a manifest with an insecure package fails with an error
/// classified as an incompatible-package error.
#[test]
fn build_insecure_package() {
    let manifest_content = "[install]\npython2.pkg-path = \"python2\"\n";

    let mut vfs = Vfs::new();
    let mut flox = test_flox(None);
    let mut env_view = new_core_environment(&mut vfs, "");

    let mut temp_env = env_view.writable(&mut vfs, "/tmp/sandbox-d".to_string()).unwrap();
    temp_env.update_manifest(&mut vfs, &manifest_content.to_string()).unwrap();
    temp_env.lock(&mut vfs, &mut flox, ok_lock()).unwrap();
    env_view.replace_with(&mut vfs, temp_env).unwrap();

    let result = env_view
        .build(&vfs, &flox, Err(pkgdb_error(PACKAGE_EVAL_FAILURE)))
        .unwrap_err();

    assert!(result.is_incompatible_package_error());
}

/// Adding a package with edit returns `Success`.
#[test]
fn edit_adding_package_returns_success() {
    let mut vfs = Vfs::new();
    let mut flox = test_flox(None);
    let mut env_view = new_core_environment(&mut vfs, "");

    let new_env_str = "\n        [install]\n        hello = {}\n        ";

    let result = env_view
        .edit(&mut vfs, &mut flox, new_env_str.to_string(), "/tmp/sandbox-e".to_string(), ok_lock(), ok_build())
        .unwrap();

    assert!(matches!(result, EditResult::Success { store_path: _ }));
}

/// Adding a hook with edit returns `ReActivateRequired`.
#[test]
fn edit_adding_hook_returns_re_activate_required() {
    let mut vfs = Vfs::new();
    let mut flox = test_flox(None);
    let mut env_view = new_core_environment(&mut vfs, "");

    let new_env_str = "\n        [hook]\n        on-activate = \"\"\n        ";

    let result = env_view
        .edit(&mut vfs, &mut flox, new_env_str.to_string(), "/tmp/sandbox-f".to_string(), ok_lock(), ok_build())
        .unwrap();

    assert!(matches!(result, EditResult::ReActivateRequired { store_path: _ }));
}

/// Locking a catalog manifest requires the catalog client.
#[test]
fn locking_of_v1_manifest_requires_catalog_client() {
    let mut vfs = Vfs::new();
    let mut flox = test_flox(None);
    let mut env_view = new_core_environment(&mut vfs, "version = 1");

    let err = env_view
        .lock(&mut vfs, &mut flox, ok_lock())
        .expect_err("should fail to lock v1 lockfile with pkgdb");

    assert!(matches!(err, CoreEnvironmentError::CatalogClientMissing));

    let mut mock_client = MockClient::new();
    mock_client.push_resolve_response(vec![]);
    flox.catalog_client = Option::Some(mock_client.into());

    env_view
        .lock(&mut vfs, &mut flox, ok_lock())
        .expect("lock should succeed with catalog client");
}

/// Upgrading a catalog manifest requires the catalog client.
#[test]
fn upgrade_with_catalog_client_requires_catalog_client() {
    let mut vfs = Vfs::new();
    let mut flox = test_flox(None);
    let mut env_view = new_core_environment(&mut vfs, "version = 1");

    let err = env_view
        .upgrade(&mut vfs, &mut flox, &vec![], "/tmp/sandbox-g".to_string(), ok_lock(), ok_build())
        .expect_err("upgrade of v1 manifest should fail without client");

    assert!(matches!(err, CoreEnvironmentError::CatalogClientMissing));

    let mut mock_client = MockClient::new();
    mock_client.push_resolve_response(vec![]);
    flox.catalog_client = Option::Some(mock_client.into());
    env_view
        .upgrade(&mut vfs, &mut flox, &vec![], "/tmp/sandbox-h".to_string(), ok_lock(), ok_build())
        .expect("upgrade should succeed with catalog client");
}

fn fake_package(install_id: &str, derivation: &str) -> LockedPackage {
    LockedPackage {
        install_id: install_id.to_string(),
        group: "toplevel".to_string(),
        system: "system".to_string(),
        attr_path: install_id.to_string(),
        broken: false,
        derivation: derivation.to_string(),
        description: Some("description".to_string()),
        license: None,
        locked_url: "locked-url".to_string(),
        name: install_id.to_string(),
        outputs: None,
        outputs_to_install: None,
        pname: install_id.to_string(),
        rev: "rev".to_string(),
        rev_count: 42,
        rev_date: "".to_string(),
        scrape_date: "".to_string(),
        unfree: None,
        version: "1.0".to_string(),
    }
}

/// With an empty list of packages to upgrade, all packages are re-resolved.
#[test]
fn upgrade_with_empty_list_upgrades_all() {
    let mut vfs = Vfs::new();

    let foo_iid = "foo".to_string();
    let manifest = Manifest {
        version: Some(1),
        install: vec![(foo_iid.clone(), "{}".to_string())],
        systems: None,
        hook: None,
        vars: None,
    };
    let foo_locked = fake_package("foo", "derivation");
    let lockfile = CatalogLock {
        version: 1,
        manifest: Manifest {
            version: Some(1),
            install: vec![(foo_iid.clone(), "{}".to_string())],
            systems: None,
            hook: None,
            vars: None,
        },
        packages: vec![foo_locked],
    };
    let path = "/envs/env".to_string();
    vfs.insert(
        path.clone(),
        EnvContents { manifest: "version = 1".to_string(), lock: Some(Lockfile::Catalog(lockfile)) },
    );
    let mut env_view = CoreEnvironment::new(path);

    let mut mock_client = MockClient::new();
    mock_client.push_resolve_response(vec![ResolvedPackageGroup {
        name: "toplevel".to_string(),
        pages: vec![CatalogPage {
            packages: Some(vec![ResolvedPackageDescriptor {
                attr_path: "foo".to_string(),
                broken: false,
                derivation: "new derivation".to_string(),
                description: Some("description".to_string()),
                install_id: foo_iid.clone(),
                license: None,
                locked_url: "locked-url".to_string(),
                name: "foo".to_string(),
                outputs: None,
                outputs_to_install: None,
                pname: "foo".to_string(),
                rev: "rev".to_string(),
                rev_count: 42,
                rev_date: "".to_string(),
                scrape_date: "".to_string(),
                stabilities: None,
                unfree: None,
                version: "1.0".to_string(),
            }]),
            page: 1,
            url: "url".to_string(),
        }],
        system: "system".to_string(),
    }]);

    let (_, upgraded_packages) = env_view
        .upgrade_with_catalog_client(&vfs, &mut mock_client, &vec![], &manifest)
        .unwrap();

    assert!(upgraded_packages.len() == 1);
}

/// Replacing an environment fails if a backup from a prior transaction
/// exists.
#[test]
fn detects_existing_backup() {
    let mut vfs = Vfs::new();
    let path = "/envs/env".to_string();
    vfs.insert(path.clone(), EnvContents { manifest: "".to_string(), lock: None });
    vfs.insert("/envs/env.tmp".to_string(), EnvContents { manifest: "".to_string(), lock: None });

    let mut env_view = CoreEnvironment::new(path);
    let temp_env = env_view.writable(&mut vfs, "/tmp/sandbox-i".to_string()).unwrap();

    let err = env_view
        .replace_with(&mut vfs, temp_env)
        .expect_err("Should fail if backup exists");

    assert!(matches!(err, CoreEnvironmentError::PriorTransaction(_)));
}

/// A failed build aborts the transaction and leaves the environment
/// bit-identical to what it was.
#[test]
fn failed_transaction_leaves_environment_unchanged() {
    let mut vfs = Vfs::new();
    let mut flox = test_flox(None);
    let mut env_view = new_core_environment(&mut vfs, "[vars]\na = \"b\"\n");

    let err = env_view
        .edit(
            &mut vfs,
            &mut flox,
            "[install]\nhello = {}\n".to_string(),
            "/tmp/sandbox-j".to_string(),
            ok_lock(),
            Err(pkgdb_error(PACKAGE_EVAL_FAILURE)),
        )
        .unwrap_err();
    assert!(matches!(
        err,
        CoreEnvironmentError::LockedManifest(flox_core::error::LockedManifestError::BuildEnv(_))
    ));

    let contents = vfs.get(env_view.path()).unwrap();
    assert_eq!(contents.manifest, "[vars]\na = \"b\"\n");
    assert!(contents.lock.is_none());
    assert!(!vfs.contains(&"/tmp/sandbox-j".to_string()));
}

/// A pre-existing backup sentinel blocks a mutating operation without
/// touching the environment.
#[test]
fn sentinel_blocks_mutation() {
    let mut vfs = Vfs::new();
    let mut flox = test_flox(None);
    let mut env_view = new_core_environment(&mut vfs, "");
    vfs.insert("/envs/env.tmp".to_string(), EnvContents { manifest: "".to_string(), lock: None });

    let err = env_view
        .edit(
            &mut vfs,
            &mut flox,
            "[install]\nhello = {}\n".to_string(),
            "/tmp/sandbox-k".to_string(),
            ok_lock(),
            ok_build(),
        )
        .unwrap_err();

    assert!(matches!(err, CoreEnvironmentError::PriorTransaction(_)));
    let contents = vfs.get(env_view.path()).unwrap();
    assert_eq!(contents.manifest, "");
    assert!(contents.lock.is_none());
}

/// After a successful edit the lockfile variant matches the manifest's.
#[test]
fn edit_keeps_lock_variant_consistent() {
    let mut vfs = Vfs::new();
    let mut mock_client = MockClient::new();
    mock_client.push_resolve_response(vec![]);
    let mut flox = test_flox(Some(mock_client.into()));
    let mut env_view = new_core_environment(&mut vfs, "");

    // legacy edit produces a legacy lock
    env_view
        .edit(&mut vfs, &mut flox, "[install]\nhello = {}\n".to_string(), "/tmp/sandbox-l".to_string(), ok_lock(), ok_build())
        .unwrap();
    let contents = vfs.get(env_view.path()).unwrap();
    assert!(matches!(contents.lock, Some(Lockfile::Pkgdb(_))));

    // catalog edit produces a catalog lock
    env_view
        .edit(&mut vfs, &mut flox, "version = 1\n".to_string(), "/tmp/sandbox-m".to_string(), ok_lock(), ok_build())
        .unwrap();
    let contents = vfs.get(env_view.path()).unwrap();
    assert!(matches!(contents.lock, Some(Lockfile::Catalog(_))));
}

/// Installing is the same as editing with the inserted manifest text.
#[test]
fn install_matches_edit_of_inserted_text() {
    let start = "[install]\nhello.pkg-path = \"hello\"\n";
    let request = flox_core::manifest::PackageToInstall {
        id: "ripgrep".to_string(),
        pkg_path: "ripgrep".to_string(),
        version: None,
    };

    // run install on one store
    let mut vfs1 = Vfs::new();
    let mut flox1 = test_flox(None);
    let mut env1 = new_core_environment(&mut vfs1, start);
    let attempt = env1
        .install(&mut vfs1, &mut flox1, &vec![request], "/tmp/sandbox-n".to_string(), ok_lock(), ok_build())
        .unwrap();
    let new_text = attempt.new_manifest.clone().unwrap();

    // run edit with the editor's text on a second, identical store
    let mut vfs2 = Vfs::new();
    let mut flox2 = test_flox(None);
    let mut env2 = new_core_environment(&mut vfs2, start);
    let result = env2
        .edit(&mut vfs2, &mut flox2, new_text.clone(), "/tmp/sandbox-n".to_string(), ok_lock(), ok_build())
        .unwrap();

    assert_eq!(attempt.store_path, result.store_path());
    let c1 = vfs1.get(env1.path()).unwrap();
    let c2 = vfs2.get(env2.path()).unwrap();
    assert_eq!(c1.manifest, c2.manifest);
    assert_eq!(c1.manifest, new_text);
}

/// Uninstalling removes the package's entry and rebuilds.
#[test]
fn uninstall_removes_entry() {
    let mut vfs = Vfs::new();
    let mut flox = test_flox(None);
    let mut env_view = new_core_environment(
        &mut vfs,
        "[install]\nhello.pkg-path = \"hello\"\nripgrep.pkg-path = \"ripgrep\"\n",
    );

    let attempt = env_view
        .uninstall(
            &mut vfs,
            &mut flox,
            vec!["hello".to_string()],
            "/tmp/sandbox-o".to_string(),
            ok_lock(),
            ok_build(),
        )
        .unwrap();

    assert_eq!(
        attempt.new_manifest.unwrap(),
        "[install]\nripgrep.pkg-path = \"ripgrep\"\n"
    );
    assert_eq!(attempt.store_path, Some("/nix/store/example".to_string()));
}

/// Updating commits the backend's new lock blob and reports the previous
/// one.
#[test]
fn update_commits_new_lockfile() {
    let mut vfs = Vfs::new();
    let flox = test_flox(None);
    let path = "/envs/env".to_string();
    vfs.insert(
        path.clone(),
        EnvContents {
            manifest: "".to_string(),
            lock: Some(Lockfile::Pkgdb("{\"old\": true}".to_string())),
        },
    );
    let mut env_view = CoreEnvironment::new(path);

    let result = env_view
        .update(
            &mut vfs,
            &flox,
            vec!["nixpkgs".to_string()],
            "/tmp/sandbox-p".to_string(),
            Ok("{\"new\": true}".to_string()),
            ok_build(),
        )
        .unwrap();

    assert_eq!(result.new_lockfile, "{\"new\": true}");
    assert_eq!(result.old_lockfile, Some("{\"old\": true}".to_string()));
    assert_eq!(result.store_path, Some("/nix/store/example".to_string()));
    let contents = vfs.get(env_view.path()).unwrap();
    match &contents.lock {
        Some(Lockfile::Pkgdb(blob)) => assert_eq!(blob, "{\"new\": true}"),
        other => panic!("unexpected lock: {:?}", other.is_some()),
    }
}

/// A legacy upgrade parses the backend's output into the result.
#[test]
fn upgrade_with_pkgdb_output() {
    let mut vfs = Vfs::new();
    let mut flox = test_flox(None);
    let mut env_view = new_core_environment(&mut vfs, "");

    let stdout = "{\"result\": [\"hello\"], \"lockfile\": {\"a\": 1}}".to_string();
    let result = env_view
        .upgrade(&mut vfs, &mut flox, &vec![], "/tmp/sandbox-q".to_string(), Ok(stdout), ok_build())
        .unwrap();

    assert_eq!(result.packages, vec!["hello".to_string()]);
    assert_eq!(result.store_path, Some("/nix/store/example".to_string()));
}

/// Unparseable upgrade output is reported as such.
#[test]
fn upgrade_bad_output_is_parse_error() {
    let mut vfs = Vfs::new();
    let mut flox = test_flox(None);
    let mut env_view = new_core_environment(&mut vfs, "");

    let err = env_view
        .upgrade(
            &mut vfs,
            &mut flox,
            &vec![],
            "/tmp/sandbox-r".to_string(),
            Ok("not json".to_string()),
            ok_build(),
        )
        .unwrap_err();

    assert!(matches!(err, CoreEnvironmentError::ParseUpgradeOutput(_)));
}

/// A failed legacy upgrade invocation is reported as an upgrade failure.
#[test]
fn upgrade_failed_invocation() {
    let mut vfs = Vfs::new();
    let mut flox = test_flox(None);
    let mut env_view = new_core_environment(&mut vfs, "");

    let err = env_view
        .upgrade(
            &mut vfs,
            &mut flox,
            &vec![],
            "/tmp/sandbox-s".to_string(),
            Err(CallPkgDbError::Other("no binary".to_string())),
            ok_build(),
        )
        .unwrap_err();

    assert!(matches!(err, CoreEnvironmentError::UpgradeFailed(_)));
}

/// Building without a lockfile fails with a lockfile-path error.
#[test]
fn build_unlocked_fails() {
    let mut vfs = Vfs::new();
    let flox = test_flox(None);
    let mut env_view = new_core_environment(&mut vfs, "");

    let err = env_view.build(&vfs, &flox, ok_build()).unwrap_err();
    assert!(matches!(err, CoreEnvironmentError::BadLockfilePath(_)));
}

/// Linking after a lock and build succeeds and reuses the store path.
#[test]
fn link_after_build_succeeds() {
    let mut vfs = Vfs::new();
    let mut flox = test_flox(None);
    let mut env_view = new_core_environment(&mut vfs, "");

    env_view.lock(&mut vfs, &mut flox, ok_lock()).expect("locking should succeed");
    let store_path = env_view.build(&vfs, &flox, ok_build()).expect("build should succeed");
    env_view
        .link(
            &vfs,
            &flox,
            &"/envs/env.out-link".to_string(),
            &Some(store_path),
            Ok(()),
        )
        .expect("link should succeed");
}

/// An invalid manifest is rejected before any backend runs.
#[test]
fn edit_invalid_manifest_is_deserialize_error() {
    let mut vfs = Vfs::new();
    let mut flox = test_flox(None);
    let mut env_view = new_core_environment(&mut vfs, "");

    let err = env_view
        .edit(
            &mut vfs,
            &mut flox,
            "not [valid toml".to_string(),
            "/tmp/sandbox-t".to_string(),
            ok_lock(),
            ok_build(),
        )
        .unwrap_err();

    assert!(matches!(err, CoreEnvironmentError::DeserializeManifest(_)));
}

/// A sandbox path that already exists stops sandbox creation.
#[test]
fn sandbox_collision_is_make_sandbox_error() {
    let mut vfs = Vfs::new();
    let mut flox = test_flox(None);
    let mut env_view = new_core_environment(&mut vfs, "");
    vfs.insert("/tmp/sandbox-u".to_string(), EnvContents { manifest: "".to_string(), lock: None });

    let err = env_view
        .edit(
            &mut vfs,
            &mut flox,
            "[install]\nhello = {}\n".to_string(),
            "/tmp/sandbox-u".to_string(),
            ok_lock(),
            ok_build(),
        )
        .unwrap_err();

    assert!(matches!(err, CoreEnvironmentError::MakeSandbox(_)));
}

/// Operating on a missing environment directory fails to open the
/// manifest.
#[test]
fn missing_environment_is_open_manifest_error() {
    let mut vfs = Vfs::new();
    let mut flox = test_flox(None);
    let mut env_view = CoreEnvironment::new("/envs/absent".to_string());

    let err = env_view
        .edit(
            &mut vfs,
            &mut flox,
            "".to_string(),
            "/tmp/sandbox-v".to_string(),
            ok_lock(),
            ok_build(),
        )
        .unwrap_err();

    assert!(matches!(err, CoreEnvironmentError::OpenManifest(_)));
}

/// Copying a missing environment into a sandbox fails.
#[test]
fn writable_missing_environment_fails() {
    let mut vfs = Vfs::new();
    let mut env_view = CoreEnvironment::new("/envs/absent".to_string());

    let err = env_view.writable(&mut vfs, "/tmp/sandbox-w".to_string()).unwrap_err();
    assert!(matches!(err, CoreEnvironmentError::MakeTemporaryEnv(_)));
}

/// A failed legacy lock invocation surfaces as a resolver error.
#[test]
fn failed_pkgdb_lock_is_locked_manifest_error() {
    let mut vfs = Vfs::new();
    let mut flox = test_flox(None);
    let mut env_view = new_core_environment(&mut vfs, "");

    let err = env_view
        .lock(&mut vfs, &mut flox, Err(CallPkgDbError::Other("no binary".to_string())))
        .unwrap_err();
    assert!(matches!(
        err,
        CoreEnvironmentError::LockedManifest(flox_core::error::LockedManifestError::LockManifest(_))
    ));
}

/// A catalog client with no scripted response fails resolution.
#[test]
fn exhausted_mock_client_fails_resolution() {
    let mut vfs = Vfs::new();
    let mut flox = test_flox(Some(MockClient::new().into()));
    let mut env_view = new_core_environment(&mut vfs, "version = 1");

    let err = env_view.lock(&mut vfs, &mut flox, ok_lock()).unwrap_err();
    assert!(matches!(
        err,
        CoreEnvironmentError::LockedManifest(flox_core::error::LockedManifestError::ResolveFailed(_))
    ));
}

/// Containerizing on a non-Linux host is refused.
#[test]
fn containerize_non_linux_is_refused() {
    let mut vfs = Vfs::new();
    let mut flox = test_flox(None);
    flox.os = "macos".to_string();
    let mut env_view = new_core_environment(&mut vfs, "");

    let err = env_view
        .build_container(
            &mut vfs,
            &mut flox,
            ok_lock(),
            Ok(ContainerBuilder { lockfile_path: "/envs/env/manifest.lock".to_string() }),
        )
        .unwrap_err();

    match err {
        CoreEnvironmentError::ContainerizeUnsupportedSystem(os) => assert_eq!(os, "macos"),
        _ => panic!("unexpected error kind"),
    }
}

/// Containerizing on Linux locks first and hands out the builder.
#[test]
fn containerize_on_linux_succeeds() {
    let mut vfs = Vfs::new();
    let mut flox = test_flox(None);
    let mut env_view = new_core_environment(&mut vfs, "");

    let builder = env_view
        .build_container(
            &mut vfs,
            &mut flox,
            ok_lock(),
            Ok(ContainerBuilder { lockfile_path: "/envs/env/manifest.lock".to_string() }),
        )
        .unwrap();

    assert_eq!(builder.lockfile_path, "/envs/env/manifest.lock");
    assert!(vfs.get(env_view.path()).unwrap().lock.is_some());
}

/// The paths of an environment's files derive from its directory.
#[test]
fn environment_paths() {
    let env_view: CoreEnvironment<flox_core::core_environment::ReadOnly> =
        CoreEnvironment::new("/envs/env".to_string());
    assert_eq!(env_view.path().as_str(), "/envs/env");
    assert_eq!(env_view.manifest_path(), "/envs/env/manifest.toml");
    assert_eq!(env_view.lockfile_path(), "/envs/env/manifest.lock");
}

/// `store_path` projects the path out of every edit outcome.
#[test]
fn edit_result_store_path() {
    assert_eq!(EditResult::Unchanged.store_path(), None);
    assert_eq!(
        EditResult::Success { store_path: Some("/nix/store/x".to_string()) }.store_path(),
        Some("/nix/store/x".to_string())
    );
    assert_eq!(
        EditResult::ReActivateRequired { store_path: None }.store_path(),
        None
    );
}

/// The classification predicates key on the backend's exit code.
#[test]
fn error_classification_by_exit_code() {
    let incompatible = CoreEnvironmentError::LockedManifest(
        flox_core::error::LockedManifestError::BuildEnv(pkgdb_error(LOCKFILE_INCOMPATIBLE_SYSTEM)),
    );
    assert!(incompatible.is_incompatible_system_error());
    assert!(!incompatible.is_incompatible_package_error());
    assert_eq!(incompatible.pkgdb_exit_code(), Some(LOCKFILE_INCOMPATIBLE_SYSTEM));

    let package = CoreEnvironmentError::LockedManifest(
        flox_core::error::LockedManifestError::BuildEnv(pkgdb_error(PACKAGE_EVAL_FAILURE)),
    );
    assert!(package.is_incompatible_package_error());
    assert!(!package.is_incompatible_system_error());

    assert_eq!(CoreEnvironmentError::CatalogClientMissing.pkgdb_exit_code(), None);
}

/// An unchecked edit replaces the environment even when the build fails,
/// and reports the failure in the inner result.
#[test]
fn edit_unsafe_replaces_despite_build_failure() {
    let mut vfs = Vfs::new();
    let mut flox = test_flox(None);
    let mut env_view = new_core_environment(&mut vfs, "");

    let inner = env_view
        .edit_unsafe(
            &mut vfs,
            &mut flox,
            "[install]\nhello = {}\n".to_string(),
            "/tmp/sandbox-x".to_string(),
            ok_lock(),
            Err(pkgdb_error(PACKAGE_EVAL_FAILURE)),
        )
        .unwrap();

    assert!(inner.is_err());
    let contents = vfs.get(env_view.path()).unwrap();
    assert_eq!(contents.manifest, "[install]\nhello = {}\n");
}

/// A committed swap moves the sandbox into place and leaves neither the
/// sandbox nor a backup behind.
#[test]
fn replace_with_swaps_and_cleans_up() {
    let mut vfs = Vfs::new();
    let mut env_view = new_core_environment(&mut vfs, "old");

    let mut temp_env = env_view.writable(&mut vfs, "/tmp/sandbox-y".to_string()).unwrap();
    temp_env.update_manifest(&mut vfs, &"new".to_string()).unwrap();
    env_view.replace_with(&mut vfs, temp_env).unwrap();

    assert_eq!(vfs.get(env_view.path()).unwrap().manifest, "new");
    assert!(!vfs.contains(&"/tmp/sandbox-y".to_string()));
    assert!(!vfs.contains(&"/envs/env.tmp".to_string()));
}


/// An unchecked edit whose locking failed commits the new manifest with
/// the previous lock kept, and reports the lock error inside.
#[test]
fn edit_unsafe_keeps_old_lock_on_lock_failure() {
    let mut vfs = Vfs::new();
    let mut flox = test_flox(None);
    let path = "/envs/env".to_string();
    vfs.insert(
        path.clone(),
        EnvContents {
            manifest: "".to_string(),
            lock: Some(Lockfile::Pkgdb("{\"old\": true}".to_string())),
        },
    );
    let mut env_view = CoreEnvironment::new(path);

    let inner = env_view
        .edit_unsafe(
            &mut vfs,
            &mut flox,
            "[install]\nhello = {}\n".to_string(),
            "/tmp/sandbox-z".to_string(),
            Err(CallPkgDbError::Other("no binary".to_string())),
            ok_build(),
        )
        .unwrap();

    assert!(matches!(
        inner,
        Err(CoreEnvironmentError::LockedManifest(
            flox_core::error::LockedManifestError::LockManifest(_)
        ))
    ));
    let contents = vfs.get(env_view.path()).unwrap();
    assert_eq!(contents.manifest, "[install]\nhello = {}\n");
    match &contents.lock {
        Some(Lockfile::Pkgdb(blob)) => assert_eq!(blob, "{\"old\": true}"),
        other => panic!("unexpected lock: {:?}", other.is_some()),
    }
}

/// An unchecked edit whose backends succeeded commits the produced lock
/// and classifies the inner result, carrying the store path.
#[test]
fn edit_unsafe_commits_lock_and_classifies() {
    let mut vfs = Vfs::new();
    let mut flox = test_flox(None);
    let mut env_view = new_core_environment(&mut vfs, "");

    let inner = env_view
        .edit_unsafe(
            &mut vfs,
            &mut flox,
            "[install]\nhello = {}\n".to_string(),
            "/tmp/sandbox-z".to_string(),
            Ok("{\"fresh\": true}".to_string()),
            ok_build(),
        )
        .unwrap();

    match inner {
        Ok(EditResult::Success { store_path }) => {
            assert_eq!(store_path, Some("/nix/store/example".to_string()));
        },
        _ => panic!("expected a successful edit"),
    }
    let contents = vfs.get(env_view.path()).unwrap();
    match &contents.lock {
        Some(Lockfile::Pkgdb(blob)) => assert_eq!(blob, "{\"fresh\": true}"),
        other => panic!("unexpected lock: {:?}", other.is_some()),
    }
}
