//! The environment view and transaction engine.
//!
//! `CoreEnvironment` is a state-typed handle on an environment directory in
//! a directory store.  Read-only views expose the user-facing operations;
//! a writable view exists only inside a transaction sandbox, so every
//! mutation of the directory goes through the engine's copy — change —
//! swap protocol and either commits whole or leaves the directory as it
//! was.
//!
//! The two resolver backends and the builder are outside collaborators:
//! the catalog client is reached through [`ClientTrait`], and each call of
//! the package-database binary enters as an argument holding that
//! invocation's outcome, so every function here is verified for every
//! outcome the binary can produce.

use vstd::prelude::*;

use crate::catalog::{Client, ClientTrait, ResolvedPackageGroupV};
use crate::error::{CallPkgDbError, CoreEnvironmentError, LockedManifestError};
use crate::lockfile::{
    CatalogLock,
    CatalogLockV,
    Lockfile,
    LockfileV,
    kept_packages,
    locked_of_response,
    resolve_request,
    seed_view,
};
use crate::manifest::{Manifest, spec_manifest, toml_ok};
use crate::vfs::{EnvContents, EnvContentsV, Vfs};

verus! {

/// Marker for a read-only view of an environment directory.
#[derive(Debug)]
pub struct ReadOnly {}

/// Marker for a writable view; only the engine creates one, over a
/// transaction sandbox.
#[derive(Debug)]
pub struct ReadWrite {}

/// A view of an environment directory in a store, used to build, link and
/// edit the environment.
#[derive(Debug)]
pub struct CoreEnvironment<State> {
    env_dir: String,
    _state: State,
}

/// The runtime context an operation runs in: the host, the backend paths,
/// and the catalog client when one is configured.
pub struct Flox {
    /// The host's operating-system family, e.g. `linux`.
    pub os: String,
    /// The host's target system, e.g. `x86_64-linux`.
    pub system: String,
    /// The directory transaction sandboxes live in.
    pub temp_dir: String,
    /// The global manifest handed to the legacy backend.
    pub global_manifest_path: String,
    /// The process-wide lockfile the legacy backend seeds from when an
    /// environment has no lock of its own.
    pub global_lockfile_path: String,
    /// The catalog client, when one is configured.
    pub catalog_client: Option<Client>,
}

/// The parts of the context no operation changes: everything but the
/// catalog client's own state.
pub open spec fn flox_same_but_client(a: Flox, b: Flox) -> bool {
    &&& a.os == b.os
    &&& a.system == b.system
    &&& a.temp_dir == b.temp_dir
    &&& a.global_manifest_path == b.global_manifest_path
    &&& a.global_lockfile_path == b.global_lockfile_path
}

/// A handle for streaming a container image of a built environment; the
/// embedding drives the build from the lockfile path recorded here.
#[derive(Debug)]
pub struct ContainerBuilder {
    pub lockfile_path: String,
}

/// The path of an environment's manifest file.
pub open spec fn manifest_path_of(env: Seq<char>) -> Seq<char> {
    env + "/manifest.toml"@
}

/// The path of an environment's lockfile.
pub open spec fn lockfile_path_of(env: Seq<char>) -> Seq<char> {
    env + "/manifest.lock"@
}

/// The path of an environment's transaction backup slot: its own path with
/// the suffix `.tmp`.  Its existence is the sentinel of an unfinished
/// transaction.
pub open spec fn backup_path_of(env: Seq<char>) -> Seq<char> {
    env + ".tmp"@
}

impl<State> CoreEnvironment<State> {
    /// The directory this view is over.
    pub closed spec fn spec_path(&self) -> Seq<char> {
        self.env_dir@
    }

    /// Get the underlying path to the environment directory.
    pub fn path(&self) -> (r: &String)
        ensures
            r@ == self.spec_path(),
    {
        &self.env_dir
    }

    /// Get the path of the manifest file.
    pub fn manifest_path(&self) -> (r: String)
        ensures
            r@ == manifest_path_of(self.spec_path()),
    {
        self.env_dir.clone().concat("/manifest.toml")
    }

    /// Get the path of the lockfile.  The file need not exist.
    pub fn lockfile_path(&self) -> (r: String)
        ensures
            r@ == lockfile_path_of(self.spec_path()),
    {
        self.env_dir.clone().concat("/manifest.lock")
    }

    /// Read the manifest text of this environment.
    fn manifest_content(&self, vfs: &Vfs) -> (r: Result<String, CoreEnvironmentError>)
        requires
            vfs.wf(),
        ensures
            match r {
                Ok(s) => vfs@.dom().contains(self.spec_path()) && s@ == vfs@[self.spec_path()]
                    .manifest,
                Err(e) => !vfs@.dom().contains(self.spec_path()) && e
                    matches CoreEnvironmentError::OpenManifest(_),
            },
    {
        match vfs.get(&self.env_dir) {
            Some(c) => Ok(c.manifest.clone()),
            None => Err(
                CoreEnvironmentError::OpenManifest(
                    String::from_str("environment directory does not exist"),
                ),
            ),
        }
    }
}

impl CoreEnvironment<ReadOnly> {
    /// Create a new read-only view of the environment at this directory.
    ///
    /// The directory is assumed to hold a valid manifest.
    pub fn new(env_dir: String) -> (r: Self)
        ensures
            r.spec_path() == env_dir@,
    {
        CoreEnvironment { env_dir, _state: ReadOnly {} }
    }

    /// Make a sandbox copy of the environment at `tempdir`, so that a
    /// transaction can change it without touching the original.
    pub fn writable(&mut self, vfs: &mut Vfs, tempdir: String) -> (r: Result<
        CoreEnvironment<ReadWrite>,
        CoreEnvironmentError,
    >)
        requires
            old(vfs).wf(),
        ensures
            final(vfs).wf(),
            final(self).spec_path() == old(self).spec_path(),
            match r {
                Ok(w) => old(vfs)@.dom().contains(old(self).spec_path()) && w.spec_path()
                    == tempdir@ && final(vfs)@ == old(vfs)@.insert(
                    tempdir@,
                    old(vfs)@[old(self).spec_path()],
                ),
                Err(e) => !old(vfs)@.dom().contains(old(self).spec_path()) && (e
                    matches CoreEnvironmentError::MakeTemporaryEnv(_)) && final(vfs)@ == old(
                    vfs,
                )@,
            },
    {
        let contents = match vfs.get(&self.env_dir) {
            Some(c) => c.clone(),
            None => {
                return Err(
                    CoreEnvironmentError::MakeTemporaryEnv(
                        String::from_str("environment directory does not exist"),
                    ),
                );
            },
        };
        let w = CoreEnvironment { env_dir: tempdir, _state: ReadWrite {} };
        vfs.insert(w.env_dir.clone(), contents);
        Ok(w)
    }

    /// Replace the contents of this environment with those of a sandbox,
    /// atomically.
    ///
    /// The environment is first renamed to its backup slot; if that slot is
    /// already taken, a prior transaction did not finish and this one
    /// refuses to run.  The sandbox is then copied into place, the backup
    /// slot removed, and the sandbox discarded.  On any failure the
    /// environment is back in its place, unchanged.
    pub fn replace_with(&mut self, vfs: &mut Vfs, replacement: CoreEnvironment<ReadWrite>) -> (r:
        Result<(), CoreEnvironmentError>)
        requires
            old(vfs).wf(),
        ensures
            final(vfs).wf(),
            final(self).spec_path() == old(self).spec_path(),
            ({
                let env = old(self).spec_path();
                let b = backup_path_of(env);
                let t = replacement.spec_path();
                if old(vfs)@.dom().contains(b) {
                    &&& r matches Err(CoreEnvironmentError::PriorTransaction(p)) && p@ == b
                    &&& final(vfs)@ == old(vfs)@
                } else if !old(vfs)@.dom().contains(env) {
                    &&& r matches Err(CoreEnvironmentError::BackupTransaction(_))
                    &&& final(vfs)@ == old(vfs)@
                } else if t == env || !old(vfs)@.dom().contains(t) {
                    &&& r matches Err(CoreEnvironmentError::Move(_))
                    &&& final(vfs)@ == old(vfs)@
                } else {
                    &&& r is Ok
                    &&& final(vfs)@ == old(vfs)@.insert(env, old(vfs)@[t]).remove(t)
                }
            }),
    {
        let ghost m0 = vfs@;
        let backup = self.env_dir.clone().concat(".tmp");
        proof {
            reveal_strlit(".tmp");
            assert(backup@.len() == old(self).spec_path().len() + 4);
        }
        if vfs.contains(&backup) {
            return Err(CoreEnvironmentError::PriorTransaction(backup));
        }
        let env_contents = match vfs.get(&self.env_dir) {
            Some(c) => c.clone(),
            None => {
                return Err(
                    CoreEnvironmentError::BackupTransaction(
                        String::from_str("environment directory does not exist"),
                    ),
                );
            },
        };
        // a sandbox at the environment's own path cannot be copied over it
        if replacement.env_dir == self.env_dir {
            return Err(CoreEnvironmentError::Move(String::from_str("sandbox is the environment")));
        }
        let sandbox_contents = match vfs.get(&replacement.env_dir) {
            Some(c) => c.clone(),
            None => {
                return Err(CoreEnvironmentError::Move(String::from_str("sandbox does not exist")));
            },
        };
        // rename the environment into the backup slot
        vfs.remove(&self.env_dir);
        vfs.insert(backup.clone(), env_contents);
        // copy the sandbox into place
        vfs.insert(self.env_dir.clone(), sandbox_contents);
        // drop the backup, then the spent sandbox
        vfs.remove(&backup);
        vfs.remove(&replacement.env_dir);
        proof {
            assert(final(vfs)@ =~= m0.insert(
                old(self).spec_path(),
                m0[replacement.spec_path()],
            ).remove(replacement.spec_path()));
        }
        Ok(())
    }
}

/// The seed the catalog resolver takes from the store: the environment's
/// lock when it is a catalog lock.  A legacy lock does not match a catalog
/// manifest and is ignored.
pub open spec fn catalog_seed(m: Map<Seq<char>, EnvContentsV>, env: Seq<char>) -> Option<
    CatalogLockV,
> {
    if m.dom().contains(env) {
        match m[env].lock {
            Some(LockfileV::Catalog(l)) => Some(l),
            _ => None,
        }
    } else {
        None
    }
}

/// The lockfile path a `manifest lock` invocation seeds from: the
/// environment's own lock when one exists, else the process-wide global
/// lockfile.
pub open spec fn spec_seed_lockfile_path(
    m: Map<Seq<char>, EnvContentsV>,
    env: Seq<char>,
    flox: Flox,
) -> Seq<char> {
    if m.dom().contains(env) && m[env].lock is Some {
        lockfile_path_of(env)
    } else {
        flox.global_lockfile_path@
    }
}

/// What locking an environment does: parse the manifest, resolve it with
/// the backend its version tag selects, and write the resulting lockfile
/// into the environment; on any failure the store is unchanged.
pub open spec fn lock_spec(
    env: Seq<char>,
    m0: Map<Seq<char>, EnvContentsV>,
    flox0: Flox,
    pkgdb_lock: Result<String, CallPkgDbError>,
    r: Result<Lockfile, CoreEnvironmentError>,
    m1: Map<Seq<char>, EnvContentsV>,
    flox1: Flox,
) -> bool {
    if !m0.dom().contains(env) {
        (r matches Err(CoreEnvironmentError::OpenManifest(_))) && m1 == m0 && flox1 == flox0
    } else {
        let text = m0[env].manifest;
        if !toml_ok(text) {
            (r matches Err(CoreEnvironmentError::DeserializeManifest(_))) && m1 == m0 && flox1
                == flox0
        } else if spec_manifest(text).is_catalog() {
            match (flox0.catalog_client, flox1.catalog_client) {
                (None, None) => (r matches Err(CoreEnvironmentError::CatalogClientMissing)) && m1
                    == m0,
                (Some(c0), Some(c1)) => ({
                    ||| {
                        &&& exists|msg: Seq<char>|
                            #[trigger] Client::resolve_rel(
                                c0,
                                seq![resolve_request(spec_manifest(text), catalog_seed(m0, env))],
                                Err(msg),
                                c1,
                            )
                        &&& r matches Err(
                            CoreEnvironmentError::LockedManifest(
                                LockedManifestError::ResolveFailed(_),
                            ),
                        )
                        &&& m1 == m0
                    }
                    ||| exists|resp: Seq<ResolvedPackageGroupV>|
                        {
                            let l = CatalogLockV {
                                version: 1,
                                manifest: spec_manifest(text),
                                packages: kept_packages(spec_manifest(text), catalog_seed(m0, env))
                                    + locked_of_response(resp),
                            };
                            &&& #[trigger] Client::resolve_rel(
                                c0,
                                seq![resolve_request(spec_manifest(text), catalog_seed(m0, env))],
                                Ok(resp),
                                c1,
                            )
                            &&& r matches Ok(lf) && lf@ == LockfileV::Catalog(l)
                            &&& m1 == m0.insert(
                                env,
                                EnvContentsV {
                                    manifest: text,
                                    lock: Some(LockfileV::Catalog(l)),
                                },
                            )
                        }
                }),
                _ => false,
            }
        } else {
            flox1 == flox0 && match pkgdb_lock {
                Ok(blob) => r matches Ok(lf) && lf@ == LockfileV::Pkgdb(blob@) && m1 == m0.insert(
                    env,
                    EnvContentsV { manifest: text, lock: Some(LockfileV::Pkgdb(blob@)) },
                ),
                Err(e) => (r matches Err(
                    CoreEnvironmentError::LockedManifest(LockedManifestError::LockManifest(e2)),
                ) && e2 == e) && m1 == m0,
            }
        }
    }
}

/// What building an environment does: the environment must be locked, and
/// the store path is whatever the builder produced.
pub open spec fn build_spec(
    env: Seq<char>,
    m: Map<Seq<char>, EnvContentsV>,
    pkgdb_build: Result<String, CallPkgDbError>,
    r: Result<String, CoreEnvironmentError>,
) -> bool {
    if !(m.dom().contains(env) && m[env].lock is Some) {
        r matches Err(CoreEnvironmentError::BadLockfilePath(p)) && p@ == lockfile_path_of(env)
    } else {
        match pkgdb_build {
            Ok(sp) => r matches Ok(x) && x == sp,
            Err(e) => r matches Err(
                CoreEnvironmentError::LockedManifest(LockedManifestError::BuildEnv(e2)),
            ) && e2 == e,
        }
    }
}

impl<State> CoreEnvironment<State> {
    /// The argument list of the `manifest lock` invocation that locks this
    /// environment: seeded from its own lockfile when one exists, else
    /// from the global lockfile.
    pub fn pkgdb_lock_invocation(&self, vfs: &Vfs, flox: &Flox) -> (r: Vec<String>)
        requires
            vfs.wf(),
        ensures
            r@.map_values(|s: String| s@) == crate::pkgdb::spec_lock_args(
                flox.global_manifest_path@,
                manifest_path_of(self.spec_path()),
                spec_seed_lockfile_path(vfs@, self.spec_path(), *flox),
            ),
    {
        let has_lock = match vfs.get(&self.env_dir) {
            Some(c) => c.lock.is_some(),
            None => false,
        };
        let seed = if has_lock {
            self.lockfile_path()
        } else {
            flox.global_lockfile_path.clone()
        };
        crate::pkgdb::pkgdb_lock_args(&flox.global_manifest_path, &self.manifest_path(), &seed)
    }

    /// Lock the environment with the legacy backend: the injected outcome
    /// of the `manifest lock` invocation is the new lock blob.
    pub fn lock_with_pkgdb(&self, vfs: &Vfs, flox: &Flox, pkgdb_lock: Result<
        String,
        CallPkgDbError,
    >) -> (r: Result<String, CoreEnvironmentError>)
        requires
            vfs.wf(),
        ensures
            match pkgdb_lock {
                Ok(blob) => r matches Ok(b) && b == blob,
                Err(e) => r matches Err(
                    CoreEnvironmentError::LockedManifest(LockedManifestError::LockManifest(e2)),
                ) && e2 == e,
            },
    {
        match pkgdb_lock {
            Ok(blob) => Ok(blob),
            Err(e) => Err(
                CoreEnvironmentError::LockedManifest(LockedManifestError::LockManifest(e)),
            ),
        }
    }

    /// Lock a catalog manifest with the catalog client, seeded from the
    /// environment's existing catalog lock when one exists.
    pub fn lock_with_catalog_client<C: ClientTrait>(
        &self,
        vfs: &Vfs,
        client: &mut C,
        manifest: &Manifest,
    ) -> (r: Result<CatalogLock, CoreEnvironmentError>)
        requires
            vfs.wf(),
        ensures
            match r {
                Ok(l) => exists|resp: Seq<ResolvedPackageGroupV>|
                    #[trigger] C::resolve_rel(
                        *old(client),
                        seq![
                            resolve_request(manifest@, catalog_seed(vfs@, self.spec_path())),
                        ],
                        Ok(resp),
                        *final(client),
                    ) && l@.version == 1 && l@.manifest == manifest@ && l@.packages
                        == kept_packages(manifest@, catalog_seed(vfs@, self.spec_path()))
                        + locked_of_response(resp),
                Err(e) => (e matches CoreEnvironmentError::LockedManifest(
                    LockedManifestError::ResolveFailed(_),
                )) && exists|msg: Seq<char>|
                    #[trigger] C::resolve_rel(
                        *old(client),
                        seq![
                            resolve_request(manifest@, catalog_seed(vfs@, self.spec_path())),
                        ],
                        Err(msg),
                        *final(client),
                    ),
            },
    {
        let seed: Option<CatalogLock> = match vfs.get(&self.env_dir) {
            Some(c) => match &c.lock {
                Some(Lockfile::Catalog(l)) => Some(l.clone()),
                _ => None,
            },
            None => None,
        };
        let seed_ref = seed.as_ref();
        proof {
            assert(seed_view(seed_ref) == catalog_seed(vfs@, self.spec_path()));
        }
        match crate::lockfile::lock_catalog_manifest(manifest, seed_ref, client) {
            Ok(l) => Ok(l),
            Err(e) => Err(CoreEnvironmentError::LockedManifest(e)),
        }
    }

    /// Lock the environment.
    ///
    /// A catalog manifest is resolved by the catalog client and fails with
    /// `CatalogClientMissing` when none is configured; a legacy manifest
    /// is locked by the legacy backend.  The resulting lockfile is written
    /// into the environment, replacing any previous lock.
    pub fn lock(&mut self, vfs: &mut Vfs, flox: &mut Flox, pkgdb_lock: Result<
        String,
        CallPkgDbError,
    >) -> (r: Result<Lockfile, CoreEnvironmentError>)
        requires
            old(vfs).wf(),
        ensures
            final(vfs).wf(),
            final(self).spec_path() == old(self).spec_path(),
            flox_same_but_client(*old(flox), *final(flox)),
            lock_spec(
                old(self).spec_path(),
                old(vfs)@,
                *old(flox),
                pkgdb_lock,
                r,
                final(vfs)@,
                *final(flox),
            ),
    {
        let ghost m0 = vfs@;
        let ghost env = old(self).spec_path();
        let content = match self.manifest_content(vfs) {
            Ok(c) => c,
            Err(e) => {
                return Err(e);
            },
        };
        let manifest = match crate::manifest::parse_manifest(&content) {
            Ok(m) => m,
            Err(e) => {
                return Err(e);
            },
        };
        proof {
            assert(manifest@ == spec_manifest(m0[env].manifest));
        }
        if manifest.is_catalog() {
            match flox.catalog_client.take() {
                None => {
                    return Err(CoreEnvironmentError::CatalogClientMissing);
                },
                Some(mut client) => {
                    let ghost c0 = client;
                    let res = self.lock_with_catalog_client(vfs, &mut client, &manifest);
                    let ghost c1 = client;
                    flox.catalog_client = Some(client);
                    match res {
                        Err(e) => {
                            proof {
                                let msg = choose|msg: Seq<char>|
                                    #[trigger] Client::resolve_rel(
                                        c0,
                                        seq![resolve_request(manifest@, catalog_seed(m0, env))],
                                        Err(msg),
                                        c1,
                                    );
                                let text = m0[env].manifest;
                                let c0p = old(flox).catalog_client.unwrap();
                                let c1p = flox.catalog_client.unwrap();
                                assert(c0p == c0);
                                assert(c1p == c1);
                                assert(Client::resolve_rel(
                                    c0p,
                                    seq![
                                        resolve_request(spec_manifest(text), catalog_seed(m0, env)),
                                    ],
                                    Err(msg),
                                    c1p,
                                ));
                            }
                            return Err(e);
                        },
                        Ok(l) => {
                            let ghost respw = choose|resp: Seq<ResolvedPackageGroupV>|
                                #[trigger] Client::resolve_rel(
                                    c0,
                                    seq![resolve_request(manifest@, catalog_seed(m0, env))],
                                    Ok(resp),
                                    c1,
                                ) && l@.version == 1 && l@.manifest == manifest@ && l@.packages
                                    == kept_packages(manifest@, catalog_seed(m0, env))
                                    + locked_of_response(resp);
                            let ghost lv = l@;
                            let lockfile = Lockfile::Catalog(l);
                            vfs.insert(
                                self.env_dir.clone(),
                                EnvContents { manifest: content, lock: Some(lockfile.clone()) },
                            );
                            proof {
                                let flox0 = *old(flox);
                                let flox1 = *flox;
                                let text = m0[env].manifest;
                                let c0p = flox0.catalog_client.unwrap();
                                let c1p = flox1.catalog_client.unwrap();
                                assert(c0p == c0);
                                assert(c1p == c1);
                                assert(Client::resolve_rel(
                                    c0p,
                                    seq![
                                        resolve_request(spec_manifest(text), catalog_seed(m0, env)),
                                    ],
                                    Ok(respw),
                                    c1p,
                                ));
                                let lrec = CatalogLockV {
                                    version: 1,
                                    manifest: spec_manifest(text),
                                    packages: kept_packages(
                                        spec_manifest(text),
                                        catalog_seed(m0, env),
                                    ) + locked_of_response(respw),
                                };
                                assert(lv == lrec);
                                assert(vfs@ == m0.insert(
                                    env,
                                    EnvContentsV {
                                        manifest: text,
                                        lock: Some(LockfileV::Catalog(lrec)),
                                    },
                                ));
                            }
                            return Ok(lockfile);
                        },
                    }
                },
            }
        } else {
            match self.lock_with_pkgdb(vfs, flox, pkgdb_lock) {
                Ok(blob) => {
                    let lockfile = Lockfile::Pkgdb(blob);
                    vfs.insert(
                        self.env_dir.clone(),
                        EnvContents { manifest: content, lock: Some(lockfile.clone()) },
                    );
                    Ok(lockfile)
                },
                Err(e) => Err(e),
            }
        }
    }

    /// The argument list of the `buildenv` invocation that builds this
    /// environment from its lockfile.
    pub fn pkgdb_buildenv_invocation(&self) -> (r: Vec<String>)
        ensures
            r@.map_values(|s: String| s@) == crate::pkgdb::spec_buildenv_args(
                lockfile_path_of(self.spec_path()),
                None,
                None,
            ),
    {
        crate::pkgdb::pkgdb_buildenv_args(&self.lockfile_path(), &None, &None)
    }

    /// The argument list of the `buildenv` invocation that links this
    /// environment at the given out-link.  When a store path from an
    /// earlier build is supplied, the binary skips realization and only
    /// creates the link.
    pub fn pkgdb_link_invocation(&self, out_link_path: &String, store_path: &Option<String>) -> (r:
        Vec<String>)
        ensures
            r@.map_values(|s: String| s@) == crate::pkgdb::spec_buildenv_args(
                lockfile_path_of(self.spec_path()),
                Some(out_link_path@),
                crate::manifest::opt_string_view(store_path),
            ),
    {
        crate::pkgdb::pkgdb_buildenv_args(
            &self.lockfile_path(),
            &Some(out_link_path.clone()),
            store_path,
        )
    }

    /// Build the environment from its lockfile.
    ///
    /// The environment must be locked; locking and linking are separate
    /// calls.  The builder is invoked as `pkgdb_buildenv_invocation` says,
    /// and the store path is whatever it produced.
    #[allow(unused_variables)]
    pub fn build(&mut self, vfs: &Vfs, flox: &Flox, pkgdb_build: Result<String, CallPkgDbError>)
        -> (r: Result<String, CoreEnvironmentError>)
        requires
            vfs.wf(),
        ensures
            final(self).spec_path() == old(self).spec_path(),
            build_spec(old(self).spec_path(), vfs@, pkgdb_build, r),
    {
        let locked = match vfs.get(&self.env_dir) {
            Some(c) => c.lock.is_some(),
            None => false,
        };
        if !locked {
            return Err(CoreEnvironmentError::BadLockfilePath(self.lockfile_path()));
        }
        match pkgdb_build {
            Ok(sp) => Ok(sp),
            Err(e) => Err(CoreEnvironmentError::LockedManifest(LockedManifestError::BuildEnv(e))),
        }
    }

    /// Create an out-link for the environment at the given path.
    ///
    /// The builder is invoked as `pkgdb_link_invocation` says: with the
    /// out-link, and — when a store path from an earlier build is
    /// supplied — in link-only mode.  The environment must be locked;
    /// this call does not lock it.
    #[allow(unused_variables)]
    pub fn link(
        &mut self,
        vfs: &Vfs,
        flox: &Flox,
        out_link_path: &String,
        store_path: &Option<String>,
        pkgdb_build: Result<(), CallPkgDbError>,
    ) -> (r: Result<(), CoreEnvironmentError>)
        requires
            vfs.wf(),
        ensures
            final(self).spec_path() == old(self).spec_path(),
            ({
                let env = old(self).spec_path();
                if !(vfs@.dom().contains(env) && vfs@[env].lock is Some) {
                    r matches Err(CoreEnvironmentError::BadLockfilePath(p)) && p@
                        == lockfile_path_of(env)
                } else {
                    match pkgdb_build {
                        Ok(_) => r is Ok,
                        Err(e) => r matches Err(
                            CoreEnvironmentError::LockedManifest(LockedManifestError::BuildEnv(e2)),
                        ) && e2 == e,
                    }
                }
            }),
    {
        let locked = match vfs.get(&self.env_dir) {
            Some(c) => c.lock.is_some(),
            None => false,
        };
        if !locked {
            return Err(CoreEnvironmentError::BadLockfilePath(self.lockfile_path()));
        }
        match pkgdb_build {
            Ok(_) => Ok(()),
            Err(e) => Err(CoreEnvironmentError::LockedManifest(LockedManifestError::BuildEnv(e))),
        }
    }

    /// Create a container builder for the environment.
    ///
    /// Only Linux hosts can run the resulting containers, so any other
    /// host fails with `ContainerizeUnsupportedSystem`.  Locks first when
    /// needed, writing the lockfile as `lock` does.
    pub fn build_container(
        &mut self,
        vfs: &mut Vfs,
        flox: &mut Flox,
        pkgdb_lock: Result<String, CallPkgDbError>,
        container: Result<ContainerBuilder, CallPkgDbError>,
    ) -> (r: Result<ContainerBuilder, CoreEnvironmentError>)
        requires
            old(vfs).wf(),
        ensures
            final(vfs).wf(),
            final(self).spec_path() == old(self).spec_path(),
            flox_same_but_client(*old(flox), *final(flox)),
            ({
                let env = old(self).spec_path();
                if old(flox).os@ != "linux"@ {
                    (r matches Err(CoreEnvironmentError::ContainerizeUnsupportedSystem(os)) && os@
                        == old(flox).os@) && final(vfs)@ == old(vfs)@ && *final(flox) == *old(flox)
                } else {
                    exists|lr: Result<Lockfile, CoreEnvironmentError>|
                        #[trigger] lock_spec(
                            env,
                            old(vfs)@,
                            *old(flox),
                            pkgdb_lock,
                            lr,
                            final(vfs)@,
                            *final(flox),
                        ) && (match lr {
                            Err(e) => r matches Err(e2) && e2 == e,
                            Ok(_) => match container {
                                Ok(b) => r matches Ok(b2) && b2 == b,
                                Err(e) => r matches Err(
                                    CoreEnvironmentError::LockedManifest(
                                        LockedManifestError::BuildEnv(e2),
                                    ),
                                ) && e2 == e,
                            },
                        })
                }
            }),
    {
        if !(self.host_is_linux(flox)) {
            return Err(CoreEnvironmentError::ContainerizeUnsupportedSystem(flox.os.clone()));
        }
        let lr = self.lock(vfs, flox, pkgdb_lock);
        match lr {
            Err(e) => Err(e),
            Ok(_) => match container {
                Ok(b) => Ok(b),
                Err(e) => Err(
                    CoreEnvironmentError::LockedManifest(LockedManifestError::BuildEnv(e)),
                ),
            },
        }
    }

    /// Whether the context's host is Linux.
    fn host_is_linux(&self, flox: &Flox) -> (r: bool)
        ensures
            r == (flox.os@ == "linux"@),
    {
        flox.os == String::from_str("linux")
    }
}

impl CoreEnvironment<ReadWrite> {
    /// Overwrite the sandbox's manifest with the provided text.
    pub fn update_manifest(&mut self, vfs: &mut Vfs, contents: &String) -> (r: Result<
        (),
        CoreEnvironmentError,
    >)
        requires
            old(vfs).wf(),
        ensures
            final(vfs).wf(),
            final(self).spec_path() == old(self).spec_path(),
            ({
                let env = old(self).spec_path();
                if old(vfs)@.dom().contains(env) {
                    r is Ok && final(vfs)@ == old(vfs)@.insert(
                        env,
                        EnvContentsV { manifest: contents@, lock: old(vfs)@[env].lock },
                    )
                } else {
                    (r matches Err(CoreEnvironmentError::OpenManifest(_))) && final(vfs)@ == old(
                        vfs,
                    )@
                }
            }),
    {
        let current = match vfs.get(&self.env_dir) {
            Some(c) => c.clone(),
            None => {
                return Err(
                    CoreEnvironmentError::OpenManifest(
                        String::from_str("sandbox directory does not exist"),
                    ),
                );
            },
        };
        vfs.insert(
            self.env_dir.clone(),
            EnvContents { manifest: contents.clone(), lock: current.lock },
        );
        Ok(())
    }

    /// Overwrite the sandbox's lockfile with the provided lock.
    pub fn update_lockfile(&mut self, vfs: &mut Vfs, lockfile: Lockfile) -> (r: Result<
        (),
        CoreEnvironmentError,
    >)
        requires
            old(vfs).wf(),
        ensures
            final(vfs).wf(),
            final(self).spec_path() == old(self).spec_path(),
            ({
                let env = old(self).spec_path();
                if old(vfs)@.dom().contains(env) {
                    r is Ok && final(vfs)@ == old(vfs)@.insert(
                        env,
                        EnvContentsV {
                            manifest: old(vfs)@[env].manifest,
                            lock: Some(lockfile@),
                        },
                    )
                } else {
                    (r matches Err(CoreEnvironmentError::WriteLockfile(_))) && final(vfs)@ == old(
                        vfs,
                    )@
                }
            }),
    {
        let current = match vfs.get(&self.env_dir) {
            Some(c) => c.clone(),
            None => {
                return Err(
                    CoreEnvironmentError::WriteLockfile(
                        String::from_str("sandbox directory does not exist"),
                    ),
                );
            },
        };
        vfs.insert(
            self.env_dir.clone(),
            EnvContents { manifest: current.manifest, lock: Some(lockfile) },
        );
        Ok(())
    }
}

/// What a lockfile-path transaction does: sandbox the environment, write
/// the new lock, build, and swap; on any failure the store is unchanged.
pub open spec fn lockfile_transaction(
    env: Seq<char>,
    m0: Map<Seq<char>, EnvContentsV>,
    lockv: LockfileV,
    tempdir: Seq<char>,
    pkgdb_build: Result<String, CallPkgDbError>,
    r: Result<String, CoreEnvironmentError>,
    m1: Map<Seq<char>, EnvContentsV>,
) -> bool {
    if m0.dom().contains(tempdir) {
        (r matches Err(CoreEnvironmentError::MakeSandbox(_))) && m1 == m0
    } else if !m0.dom().contains(env) {
        (r matches Err(CoreEnvironmentError::MakeTemporaryEnv(_))) && m1 == m0
    } else {
        match pkgdb_build {
            Err(e) => (r matches Err(
                CoreEnvironmentError::LockedManifest(LockedManifestError::BuildEnv(e2)),
            ) && e2 == e) && m1 == m0
            ,
            Ok(sp) => if m0.dom().contains(backup_path_of(env)) || backup_path_of(env)
                == tempdir {
                (r matches Err(CoreEnvironmentError::PriorTransaction(p)) && p@
                    == backup_path_of(env)) && m1 == m0
            } else {
                (r matches Ok(x) && x == sp) && m1 == m0.insert(
                    env,
                    EnvContentsV { manifest: m0[env].manifest, lock: Some(lockv) },
                )
            },
        }
    }
}

/// What a manifest-path transaction does: sandbox the environment, write
/// the new manifest text, lock it with the backend its version selects,
/// build, and swap; on any failure the store is unchanged.
pub open spec fn manifest_transaction(
    env: Seq<char>,
    m0: Map<Seq<char>, EnvContentsV>,
    flox0: Flox,
    contents: Seq<char>,
    tempdir: Seq<char>,
    pkgdb_lock: Result<String, CallPkgDbError>,
    pkgdb_build: Result<String, CallPkgDbError>,
    r: Result<String, CoreEnvironmentError>,
    m1: Map<Seq<char>, EnvContentsV>,
    flox1: Flox,
) -> bool {
    let sentinel = m0.dom().contains(backup_path_of(env)) || backup_path_of(env) == tempdir;
    if m0.dom().contains(tempdir) {
        (r matches Err(CoreEnvironmentError::MakeSandbox(_))) && m1 == m0 && flox1 == flox0
    } else if !m0.dom().contains(env) {
        (r matches Err(CoreEnvironmentError::MakeTemporaryEnv(_))) && m1 == m0 && flox1 == flox0
    } else if !toml_ok(contents) {
        (r matches Err(CoreEnvironmentError::DeserializeManifest(_))) && m1 == m0 && flox1
            == flox0
    } else if spec_manifest(contents).is_catalog() {
        match (flox0.catalog_client, flox1.catalog_client) {
            (None, None) => (r matches Err(CoreEnvironmentError::CatalogClientMissing)) && m1
                == m0,
            (Some(c0), Some(c1)) => ({
                let seed = catalog_seed(
                    m0.insert(tempdir, EnvContentsV { manifest: contents, lock: m0[env].lock }),
                    tempdir,
                );
                ||| {
                    &&& exists|msg: Seq<char>|
                        #[trigger] Client::resolve_rel(
                            c0,
                            seq![resolve_request(spec_manifest(contents), seed)],
                            Err(msg),
                            c1,
                        )
                    &&& r matches Err(
                        CoreEnvironmentError::LockedManifest(LockedManifestError::ResolveFailed(_)),
                    )
                    &&& m1 == m0
                }
                ||| exists|resp: Seq<ResolvedPackageGroupV>|
                    {
                        let l = LockfileV::Catalog(
                            CatalogLockV {
                                version: 1,
                                manifest: spec_manifest(contents),
                                packages: kept_packages(spec_manifest(contents), seed)
                                    + locked_of_response(resp),
                            },
                        );
                        &&& #[trigger] Client::resolve_rel(
                            c0,
                            seq![resolve_request(spec_manifest(contents), seed)],
                            Ok(resp),
                            c1,
                        )
                        &&& match pkgdb_build {
                            Err(e) => (r matches Err(
                                CoreEnvironmentError::LockedManifest(
                                    LockedManifestError::BuildEnv(e2),
                                ),
                            ) && e2 == e) && m1 == m0,
                            Ok(sp) => if sentinel {
                                (r matches Err(CoreEnvironmentError::PriorTransaction(p)) && p@
                                    == backup_path_of(env)) && m1 == m0
                            } else {
                                (r matches Ok(x) && x == sp) && m1 == m0.insert(
                                    env,
                                    EnvContentsV { manifest: contents, lock: Some(l) },
                                )
                            },
                        }
                    }
            }),
            _ => false,
        }
    } else {
        flox1 == flox0 && match pkgdb_lock {
            Err(e) => (r matches Err(
                CoreEnvironmentError::LockedManifest(LockedManifestError::LockManifest(e2)),
            ) && e2 == e) && m1 == m0,
            Ok(blob) => match pkgdb_build {
                Err(e) => (r matches Err(
                    CoreEnvironmentError::LockedManifest(LockedManifestError::BuildEnv(e2)),
                ) && e2 == e) && m1 == m0,
                Ok(sp) => if sentinel {
                    (r matches Err(CoreEnvironmentError::PriorTransaction(p)) && p@
                        == backup_path_of(env)) && m1 == m0
                } else {
                    (r matches Ok(x) && x == sp) && m1 == m0.insert(
                        env,
                        EnvContentsV {
                            manifest: contents,
                            lock: Some(LockfileV::Pkgdb(blob@)),
                        },
                    )
                },
            },
        }
    }
}

impl CoreEnvironment<ReadOnly> {
    /// Attempt to transactionally replace the manifest text.
    pub fn transact_with_manifest_contents(
        &mut self,
        vfs: &mut Vfs,
        flox: &mut Flox,
        manifest_contents: &String,
        tempdir: String,
        pkgdb_lock: Result<String, CallPkgDbError>,
        pkgdb_build: Result<String, CallPkgDbError>,
    ) -> (r: Result<String, CoreEnvironmentError>)
        requires
            old(vfs).wf(),
        ensures
            final(vfs).wf(),
            final(self).spec_path() == old(self).spec_path(),
            flox_same_but_client(*old(flox), *final(flox)),
            manifest_transaction(
                old(self).spec_path(),
                old(vfs)@,
                *old(flox),
                manifest_contents@,
                tempdir@,
                pkgdb_lock,
                pkgdb_build,
                r,
                final(vfs)@,
                *final(flox),
            ),
    {
        let ghost m0 = vfs@;
        let ghost env = old(self).spec_path();
        if vfs.contains(&tempdir) {
            return Err(
                CoreEnvironmentError::MakeSandbox(String::from_str("sandbox path already exists")),
            );
        }
        let sandbox_path = tempdir.clone();
        let mut temp_env = match self.writable(vfs, tempdir) {
            Ok(w) => w,
            Err(e) => {
                return Err(e);
            },
        };
        match temp_env.update_manifest(vfs, manifest_contents) {
            Ok(_) => {},
            Err(e) => {
                vfs.remove(&sandbox_path);
                proof {
                    assert(vfs@ =~= m0);
                }
                return Err(e);
            },
        }
        let lock_result = temp_env.lock(vfs, flox, pkgdb_lock);
        match lock_result {
            Ok(_) => {},
            Err(e) => {
                vfs.remove(&sandbox_path);
                proof {
                    assert(vfs@ =~= m0);
                }
                return Err(e);
            },
        }
        let store_path = match temp_env.build(vfs, flox, pkgdb_build) {
            Ok(sp) => sp,
            Err(e) => {
                vfs.remove(&sandbox_path);
                proof {
                    assert(vfs@ =~= m0);
                }
                return Err(e);
            },
        };
        match self.replace_with(vfs, temp_env) {
            Ok(_) => {},
            Err(e) => {
                vfs.remove(&sandbox_path);
                proof {
                    assert(vfs@ =~= m0);
                }
                return Err(e);
            },
        }
        proof {
            assert(vfs@ =~= m0.insert(env, vfs@[env]));
        }
        Ok(store_path)
    }

    /// Attempt to transactionally replace the lockfile.
    ///
    /// The lock handed in must already be consistent with the manifest;
    /// no re-lock happens on this path.
    pub fn transact_with_lockfile_contents(
        &mut self,
        vfs: &mut Vfs,
        flox: &Flox,
        lockfile: Lockfile,
        tempdir: String,
        pkgdb_build: Result<String, CallPkgDbError>,
    ) -> (r: Result<String, CoreEnvironmentError>)
        requires
            old(vfs).wf(),
        ensures
            final(vfs).wf(),
            final(self).spec_path() == old(self).spec_path(),
            lockfile_transaction(
                old(self).spec_path(),
                old(vfs)@,
                lockfile@,
                tempdir@,
                pkgdb_build,
                r,
                final(vfs)@,
            ),
    {
        let ghost m0 = vfs@;
        let ghost env = old(self).spec_path();
        if vfs.contains(&tempdir) {
            return Err(
                CoreEnvironmentError::MakeSandbox(String::from_str("sandbox path already exists")),
            );
        }
        let sandbox_path = tempdir.clone();
        let mut temp_env = match self.writable(vfs, tempdir) {
            Ok(w) => w,
            Err(e) => {
                return Err(e);
            },
        };
        match temp_env.update_lockfile(vfs, lockfile) {
            Ok(_) => {},
            Err(e) => {
                vfs.remove(&sandbox_path);
                proof {
                    assert(vfs@ =~= m0);
                }
                return Err(e);
            },
        }
        let store_path = match temp_env.build(vfs, flox, pkgdb_build) {
            Ok(sp) => sp,
            Err(e) => {
                vfs.remove(&sandbox_path);
                proof {
                    assert(vfs@ =~= m0);
                }
                return Err(e);
            },
        };
        match self.replace_with(vfs, temp_env) {
            Ok(_) => {},
            Err(e) => {
                vfs.remove(&sandbox_path);
                proof {
                    assert(vfs@ =~= m0);
                }
                return Err(e);
            },
        }
        proof {
            assert(vfs@ =~= m0.insert(env, vfs@[env]));
        }
        Ok(store_path)
    }
}

/// The outcome of an edit: nothing to do, done, or done but the
/// environment must be re-activated for the change to take effect.
#[derive(Debug, Clone, PartialEq, Eq)]
pub enum EditResult {
    /// The manifest was not modified.
    Unchanged,
    /// The manifest was modified, and the user needs to re-activate it.
    ReActivateRequired { store_path: Option<String> },
    /// The manifest was modified, but the user does not need to
    /// re-activate it.
    Success { store_path: Option<String> },
}

/// Whether changing the manifest from `old` to `new` requires the
/// environment to be re-activated: exactly when the `hook` or `vars`
/// sections changed.
pub open spec fn reactivate_required(old_text: Seq<char>, new_text: Seq<char>) -> bool {
    crate::manifest::toml_hook(old_text) != crate::manifest::toml_hook(new_text)
        || crate::manifest::toml_vars(old_text) != crate::manifest::toml_vars(new_text)
}

impl EditResult {
    /// Classify an edit from the old to the new manifest text.
    ///
    /// Equal texts are `Unchanged`; otherwise the change requires
    /// re-activation exactly when the parsed `hook` or `vars` sections
    /// differ, and either text failing to parse is an error.
    pub fn new(old_manifest: &String, new_manifest: &String, store_path: Option<String>) -> (r:
        Result<EditResult, CoreEnvironmentError>)
        ensures
            old_manifest@ == new_manifest@ ==> (r matches Ok(x) && x == EditResult::Unchanged),
            old_manifest@ != new_manifest@ && (!toml_ok(old_manifest@) || !toml_ok(new_manifest@))
                ==> r matches Err(CoreEnvironmentError::DeserializeManifest(_)),
            old_manifest@ != new_manifest@ && toml_ok(old_manifest@) && toml_ok(new_manifest@)
                ==> (r matches Ok(x) && x == (if reactivate_required(
                old_manifest@,
                new_manifest@,
            ) {
                EditResult::ReActivateRequired { store_path }
            } else {
                EditResult::Success { store_path }
            })),
    {
        if *old_manifest == *new_manifest {
            return Ok(EditResult::Unchanged);
        }
        let old_m = match crate::manifest::parse_manifest(old_manifest) {
            Ok(m) => m,
            Err(e) => {
                return Err(e);
            },
        };
        let new_m = match crate::manifest::parse_manifest(new_manifest) {
            Ok(m) => m,
            Err(e) => {
                return Err(e);
            },
        };
        let hook_same = crate::manifest::opt_string_eq(&old_m.hook, &new_m.hook);
        let vars_same = crate::manifest::opt_string_eq(&old_m.vars, &new_m.vars);
        if !hook_same || !vars_same {
            Ok(EditResult::ReActivateRequired { store_path })
        } else {
            Ok(EditResult::Success { store_path })
        }
    }

    /// The store path the edit produced, if it built anything.
    pub fn store_path(&self) -> (r: Option<String>)
        ensures
            r == match self {
                EditResult::Unchanged => None::<String>,
                EditResult::ReActivateRequired { store_path } => *store_path,
                EditResult::Success { store_path } => *store_path,
            },
    {
        match self {
            EditResult::Unchanged => None,
            EditResult::ReActivateRequired { store_path } => crate::manifest::clone_opt_string(
                store_path,
            ),
            EditResult::Success { store_path } => crate::manifest::clone_opt_string(store_path),
        }
    }
}

/// What an edit does: nothing when the text is unchanged; otherwise a
/// manifest-path transaction, with the result classified against the old
/// text.
pub open spec fn edit_spec(
    env: Seq<char>,
    m0: Map<Seq<char>, EnvContentsV>,
    flox0: Flox,
    contents: Seq<char>,
    tempdir: Seq<char>,
    pkgdb_lock: Result<String, CallPkgDbError>,
    pkgdb_build: Result<String, CallPkgDbError>,
    r: Result<EditResult, CoreEnvironmentError>,
    m1: Map<Seq<char>, EnvContentsV>,
    flox1: Flox,
) -> bool {
    if !m0.dom().contains(env) {
        (r matches Err(CoreEnvironmentError::OpenManifest(_))) && m1 == m0 && flox1 == flox0
    } else if contents == m0[env].manifest {
        (r matches Ok(x) && x == EditResult::Unchanged) && m1 == m0 && flox1 == flox0
    } else {
        exists|tr: Result<String, CoreEnvironmentError>|
            #[trigger] manifest_transaction(
                env,
                m0,
                flox0,
                contents,
                tempdir,
                pkgdb_lock,
                pkgdb_build,
                tr,
                m1,
                flox1,
            ) && match tr {
                Err(e) => r matches Err(e2) && e2 == e,
                Ok(sp) => {
                    let old_text = m0[env].manifest;
                    if !toml_ok(old_text) {
                        r matches Err(CoreEnvironmentError::DeserializeManifest(_))
                    } else if reactivate_required(old_text, contents) {
                        r matches Ok(x) && x == EditResult::ReActivateRequired {
                            store_path: Some(sp),
                        }
                    } else {
                        r matches Ok(x) && x == EditResult::Success { store_path: Some(sp) }
                    }
                },
            }
    }
}

impl CoreEnvironment<ReadOnly> {
    /// Atomically edit this environment, ensuring that it still builds.
    ///
    /// An edit whose text equals the current manifest is a no-op; any
    /// other is a manifest-path transaction, and the caller learns whether
    /// re-activation is needed.
    pub fn edit(
        &mut self,
        vfs: &mut Vfs,
        flox: &mut Flox,
        contents: String,
        tempdir: String,
        pkgdb_lock: Result<String, CallPkgDbError>,
        pkgdb_build: Result<String, CallPkgDbError>,
    ) -> (r: Result<EditResult, CoreEnvironmentError>)
        requires
            old(vfs).wf(),
        ensures
            final(vfs).wf(),
            final(self).spec_path() == old(self).spec_path(),
            flox_same_but_client(*old(flox), *final(flox)),
            edit_spec(
                old(self).spec_path(),
                old(vfs)@,
                *old(flox),
                contents@,
                tempdir@,
                pkgdb_lock,
                pkgdb_build,
                r,
                final(vfs)@,
                *final(flox),
            ),
    {
        let old_contents = match self.manifest_content(vfs) {
            Ok(c) => c,
            Err(e) => {
                return Err(e);
            },
        };
        if contents == old_contents {
            return Ok(EditResult::Unchanged);
        }
        let tr = self.transact_with_manifest_contents(
            vfs,
            flox,
            &contents,
            tempdir,
            pkgdb_lock,
            pkgdb_build,
        );
        let ghost trg = tr;
        match tr {
            Err(e) => Err(e),
            Ok(sp) => {
                let result = EditResult::new(&old_contents, &contents, Some(sp));
                proof {
                    assert(manifest_transaction(
                        old(self).spec_path(),
                        old(vfs)@,
                        *old(flox),
                        contents@,
                        tempdir@,
                        pkgdb_lock,
                        pkgdb_build,
                        trg,
                        vfs@,
                        *flox,
                    ));
                }
                result
            },
        }
    }
}

/// What an unchecked edit does.  After the guards — a missing environment,
/// an unchanged text, a taken sandbox path, a leftover backup slot — the
/// swap always commits: the environment's manifest becomes the new text,
/// its lock is exactly what the locking stage produced (the previous lock
/// when locking failed before writing one), and the inner result is the
/// lock error, the build error, or the classified `EditResult` carrying
/// the built store path.
pub open spec fn edit_unsafe_spec(
    env: Seq<char>,
    m0: Map<Seq<char>, EnvContentsV>,
    flox0: Flox,
    contents: Seq<char>,
    tempdir: Seq<char>,
    pkgdb_lock: Result<String, CallPkgDbError>,
    pkgdb_build: Result<String, CallPkgDbError>,
    r: Result<Result<EditResult, CoreEnvironmentError>, CoreEnvironmentError>,
    m1: Map<Seq<char>, EnvContentsV>,
    flox1: Flox,
) -> bool {
    let b = backup_path_of(env);
    if !m0.dom().contains(env) {
        (r matches Err(CoreEnvironmentError::OpenManifest(_))) && m1 == m0 && flox1 == flox0
    } else if contents == m0[env].manifest {
        (r matches Ok(x) && x == Ok::<EditResult, CoreEnvironmentError>(EditResult::Unchanged))
            && m1 == m0 && flox1 == flox0
    } else if m0.dom().contains(tempdir) {
        (r matches Err(CoreEnvironmentError::MakeSandbox(_))) && m1 == m0 && flox1 == flox0
    } else if m0.dom().contains(b) || b == tempdir {
        (r matches Err(CoreEnvironmentError::PriorTransaction(p)) && p@ == b) && m1 == m0
    } else {
        let old_text = m0[env].manifest;
        let unlocked = m0.insert(env, EnvContentsV { manifest: contents, lock: m0[env].lock });
        if !toml_ok(contents) {
            (r matches Ok(inner) && (inner matches Err(
                CoreEnvironmentError::DeserializeManifest(_),
            ))) && m1 == unlocked && flox1 == flox0
        } else if spec_manifest(contents).is_catalog() {
            match (flox0.catalog_client, flox1.catalog_client) {
                (None, None) => (r matches Ok(inner) && (inner matches Err(
                    CoreEnvironmentError::CatalogClientMissing,
                ))) && m1 == unlocked,
                (Some(c0), Some(c1)) => ({
                    let seed = catalog_seed(
                        m0.insert(tempdir, EnvContentsV { manifest: contents, lock: m0[env].lock }),
                        tempdir,
                    );
                    ||| {
                        &&& exists|msg: Seq<char>|
                            #[trigger] Client::resolve_rel(
                                c0,
                                seq![resolve_request(spec_manifest(contents), seed)],
                                Err(msg),
                                c1,
                            )
                        &&& r matches Ok(inner) && (inner matches Err(
                            CoreEnvironmentError::LockedManifest(
                                LockedManifestError::ResolveFailed(_),
                            ),
                        ))
                        &&& m1 == unlocked
                    }
                    ||| exists|resp: Seq<ResolvedPackageGroupV>|
                        {
                            let l = LockfileV::Catalog(
                                CatalogLockV {
                                    version: 1,
                                    manifest: spec_manifest(contents),
                                    packages: kept_packages(spec_manifest(contents), seed)
                                        + locked_of_response(resp),
                                },
                            );
                            &&& #[trigger] Client::resolve_rel(
                                c0,
                                seq![resolve_request(spec_manifest(contents), seed)],
                                Ok(resp),
                                c1,
                            )
                            &&& m1 == m0.insert(
                                env,
                                EnvContentsV { manifest: contents, lock: Some(l) },
                            )
                            &&& edit_unsafe_inner_spec(old_text, contents, pkgdb_build, r)
                        }
                }),
                _ => false,
            }
        } else {
            flox1 == flox0 && match pkgdb_lock {
                Err(e) => (r matches Ok(inner) && (inner matches Err(
                    CoreEnvironmentError::LockedManifest(LockedManifestError::LockManifest(e2)),
                ) && e2 == e)) && m1 == unlocked,
                Ok(blob) => m1 == m0.insert(
                    env,
                    EnvContentsV { manifest: contents, lock: Some(LockfileV::Pkgdb(blob@)) },
                ) && edit_unsafe_inner_spec(old_text, contents, pkgdb_build, r),
            }
        }
    }
}

/// The inner result of an unchecked edit whose locking stage succeeded:
/// the build error, or the `EditResult` classified against the old text,
/// carrying the built store path.
pub open spec fn edit_unsafe_inner_spec(
    old_text: Seq<char>,
    contents: Seq<char>,
    pkgdb_build: Result<String, CallPkgDbError>,
    r: Result<Result<EditResult, CoreEnvironmentError>, CoreEnvironmentError>,
) -> bool {
    match pkgdb_build {
        Err(e) => r matches Ok(inner) && (inner matches Err(
            CoreEnvironmentError::LockedManifest(LockedManifestError::BuildEnv(e2)),
        ) && e2 == e),
        Ok(sp) => if !toml_ok(old_text) {
            r matches Ok(inner) && (inner matches Err(
                CoreEnvironmentError::DeserializeManifest(_),
            ))
        } else if reactivate_required(old_text, contents) {
            r matches Ok(inner) && (inner matches Ok(x) && x == EditResult::ReActivateRequired {
                store_path: Some(sp),
            })
        } else {
            r matches Ok(inner) && (inner matches Ok(x) && x == EditResult::Success {
                store_path: Some(sp),
            })
        },
    }
}

impl CoreEnvironment<ReadOnly> {
    /// Atomically edit this environment, without checking that it still
    /// builds.
    ///
    /// The environment is replaced even when locking or building the new
    /// text fails, so the resulting environment may not build; the inner
    /// result reports that failure.  The directory swap itself is still
    /// atomic, and still refuses to run over a prior transaction's backup.
    /// `edit_unsafe_spec` pins the committed lock and the inner result for
    /// every backend outcome.
    pub fn edit_unsafe(
        &mut self,
        vfs: &mut Vfs,
        flox: &mut Flox,
        contents: String,
        tempdir: String,
        pkgdb_lock: Result<String, CallPkgDbError>,
        pkgdb_build: Result<String, CallPkgDbError>,
    ) -> (r: Result<Result<EditResult, CoreEnvironmentError>, CoreEnvironmentError>)
        requires
            old(vfs).wf(),
        ensures
            final(vfs).wf(),
            final(self).spec_path() == old(self).spec_path(),
            flox_same_but_client(*old(flox), *final(flox)),
            edit_unsafe_spec(
                old(self).spec_path(),
                old(vfs)@,
                *old(flox),
                contents@,
                tempdir@,
                pkgdb_lock,
                pkgdb_build,
                r,
                final(vfs)@,
                *final(flox),
            ),
    {
        let old_contents = match self.manifest_content(vfs) {
            Ok(c) => c,
            Err(e) => {
                return Err(e);
            },
        };
        if contents == old_contents {
            return Ok(Ok(EditResult::Unchanged));
        }
        if vfs.contains(&tempdir) {
            return Err(
                CoreEnvironmentError::MakeSandbox(String::from_str("sandbox path already exists")),
            );
        }
        let ghost m0 = vfs@;
        let sandbox_path = tempdir.clone();
        let mut temp_env = match self.writable(vfs, tempdir) {
            Ok(w) => w,
            Err(e) => {
                return Err(e);
            },
        };
        match temp_env.update_manifest(vfs, &contents) {
            Ok(_) => {},
            Err(e) => {
                vfs.remove(&sandbox_path);
                proof {
                    assert(vfs@ =~= m0);
                }
                return Err(e);
            },
        }
        let lock_result = temp_env.lock(vfs, flox, pkgdb_lock);
        match lock_result {
            Err(lock_err) => {
                match self.replace_with(vfs, temp_env) {
                    Ok(_) => {
                        proof {
                            assert(vfs@ =~= m0.insert(old(self).spec_path(), vfs@[old(
                                self,
                            ).spec_path()]));
                        }
                        Ok(Err(lock_err))
                    },
                    Err(e) => {
                        vfs.remove(&sandbox_path);
                        proof {
                            assert(vfs@ =~= m0);
                        }
                        Err(e)
                    },
                }
            },
            Ok(_) => {
                let build_attempt = temp_env.build(vfs, flox, pkgdb_build);
                match self.replace_with(vfs, temp_env) {
                    Ok(_) => {
                        proof {
                            assert(vfs@ =~= m0.insert(old(self).spec_path(), vfs@[old(
                                self,
                            ).spec_path()]));
                        }
                        match build_attempt {
                            Ok(store_path) => Ok(
                                EditResult::new(&old_contents, &contents, Some(store_path)),
                            ),
                            Err(err) => Ok(Err(err)),
                        }
                    },
                    Err(e) => {
                        vfs.remove(&sandbox_path);
                        proof {
                            assert(vfs@ =~= m0);
                        }
                        Err(e)
                    },
                }
            },
        }
    }
}

/// The outcome of an update: the backend's new lock blob, the previous
/// one when there was one, and the store path of the rebuilt environment.
#[derive(Debug)]
pub struct UpdateResult {
    pub new_lockfile: String,
    pub old_lockfile: Option<String>,
    pub store_path: Option<String>,
}

/// The outcome of an upgrade: the install-ids whose derivation changed,
/// and the store path of the rebuilt environment.
#[derive(Debug)]
pub struct UpgradeResult {
    pub packages: Vec<String>,
    pub store_path: Option<String>,
}

/// The view of an upgrade lock seed: the existing lock with every listed
/// group or install-id unlocked, or nothing when everything is to be
/// re-resolved.
pub open spec fn upgrade_seed(
    existing: Option<CatalogLockV>,
    groups_or_iids: Seq<Seq<char>>,
) -> Option<CatalogLockV> {
    if groups_or_iids.len() == 0 {
        None
    } else {
        match existing {
            Some(l) => Some(
                CatalogLockV {
                    version: l.version,
                    manifest: l.manifest,
                    packages: l.packages.filter(crate::lockfile::unlock_pred(groups_or_iids)),
                },
            ),
            None => None,
        }
    }
}

/// The packages an upgrade seed started from.
pub open spec fn previous_packages_of(existing: Option<CatalogLockV>) -> Seq<
    crate::lockfile::LockedPackageV,
> {
    match existing {
        Some(l) => l.packages,
        None => Seq::empty(),
    }
}

/// The environment's current legacy lock blob, when it has one.
pub open spec fn prior_lock_blob(m: Map<Seq<char>, EnvContentsV>, env: Seq<char>) -> Option<
    Seq<char>,
> {
    if m.dom().contains(env) {
        match m[env].lock {
            Some(LockfileV::Pkgdb(b)) => Some(b),
            _ => None,
        }
    } else {
        None
    }
}

impl CoreEnvironment<ReadOnly> {
    /// Update the environment's inputs: the backend's `manifest update`
    /// outcome carries the new lock blob, which replaces the lockfile in a
    /// transaction.  The result also reports the environment's previous
    /// lock blob, when it had one.
    pub fn update(
        &mut self,
        vfs: &mut Vfs,
        flox: &Flox,
        inputs: Vec<String>,
        tempdir: String,
        pkgdb_update: Result<String, CallPkgDbError>,
        pkgdb_build: Result<String, CallPkgDbError>,
    ) -> (r: Result<UpdateResult, CoreEnvironmentError>)
        requires
            old(vfs).wf(),
        ensures
            final(vfs).wf(),
            final(self).spec_path() == old(self).spec_path(),
            ({
                let env = old(self).spec_path();
                match pkgdb_update {
                    Err(e) => (r matches Err(
                        CoreEnvironmentError::LockedManifest(LockedManifestError::UpdateManifest(e2)),
                    ) && e2 == e) && final(vfs)@ == old(vfs)@,
                    Ok(blob) => exists|tr: Result<String, CoreEnvironmentError>|
                        #[trigger] lockfile_transaction(
                            env,
                            old(vfs)@,
                            LockfileV::Pkgdb(blob@),
                            tempdir@,
                            pkgdb_build,
                            tr,
                            final(vfs)@,
                        ) && match tr {
                            Err(e) => r matches Err(e2) && e2 == e,
                            Ok(sp) => r matches Ok(u) && u.new_lockfile == blob
                                && crate::manifest::opt_string_view(&u.old_lockfile)
                                == prior_lock_blob(old(vfs)@, env) && u.store_path == Some(sp),
                        },
                }
            }),
    {
        let new_blob = match pkgdb_update {
            Err(e) => {
                return Err(
                    CoreEnvironmentError::LockedManifest(LockedManifestError::UpdateManifest(e)),
                );
            },
            Ok(blob) => blob,
        };
        let old_blob: Option<String> = match vfs.get(&self.env_dir) {
            Some(c) => match &c.lock {
                Some(Lockfile::Pkgdb(b)) => Some(b.clone()),
                _ => None,
            },
            None => None,
        };
        let tr = self.transact_with_lockfile_contents(
            vfs,
            flox,
            Lockfile::Pkgdb(new_blob.clone()),
            tempdir,
            pkgdb_build,
        );
        let ghost trg = tr;
        match tr {
            Err(e) => Err(e),
            Ok(sp) => Ok(
                UpdateResult {
                    new_lockfile: new_blob,
                    old_lockfile: old_blob,
                    store_path: Some(sp),
                },
            ),
        }
    }

    /// The argument list of the `manifest upgrade` invocation for this
    /// environment.
    pub fn pkgdb_upgrade_invocation(
        &self,
        vfs: &Vfs,
        flox: &Flox,
        groups_or_iids: &Vec<String>,
    ) -> (r: Vec<String>)
        requires
            vfs.wf(),
        ensures
            r@.map_values(|s: String| s@) == crate::pkgdb::spec_manifest_subcommand_args(
                "upgrade"@,
                flox.global_manifest_path@,
                manifest_path_of(self.spec_path()),
                if vfs@.dom().contains(self.spec_path()) && vfs@[self.spec_path()].lock is Some {
                    Some(lockfile_path_of(self.spec_path()))
                } else {
                    None
                },
                groups_or_iids@.map_values(|s: String| s@),
            ),
    {
        let has_lock = match vfs.get(&self.env_dir) {
            Some(c) => c.lock.is_some(),
            None => false,
        };
        let lockfile = if has_lock {
            Some(self.lockfile_path())
        } else {
            None
        };
        crate::pkgdb::pkgdb_upgrade_args(
            &flox.global_manifest_path,
            &self.manifest_path(),
            &lockfile,
            groups_or_iids,
        )
    }

    /// Upgrade with the legacy backend: parse the `manifest upgrade`
    /// outcome into the new lock blob and the list of upgraded
    /// install-ids.
    pub fn upgrade_with_pkgdb(
        &mut self,
        vfs: &Vfs,
        flox: &Flox,
        groups_or_iids: &Vec<String>,
        pkgdb_upgrade: Result<String, CallPkgDbError>,
    ) -> (r: Result<(String, Vec<String>), CoreEnvironmentError>)
        requires
            vfs.wf(),
        ensures
            final(self).spec_path() == old(self).spec_path(),
            match pkgdb_upgrade {
                Err(e) => r matches Err(CoreEnvironmentError::UpgradeFailed(e2)) && e2 == e,
                Ok(stdout) => if !crate::pkgdb::upgrade_json_ok(stdout@) {
                    r matches Err(CoreEnvironmentError::ParseUpgradeOutput(_))
                } else {
                    r matches Ok(p) && p.0@ == crate::pkgdb::upgrade_json_lockfile(stdout@) && p.1@
                        .map_values(|s: String| s@) == crate::pkgdb::upgrade_json_result(stdout@)
                },
            },
    {
        match pkgdb_upgrade {
            Err(e) => Err(CoreEnvironmentError::UpgradeFailed(e)),
            Ok(stdout) => match crate::pkgdb::parse_upgrade_output(&stdout) {
                Err(m) => Err(CoreEnvironmentError::ParseUpgradeOutput(m)),
                Ok(p) => Ok(p),
            },
        }
    }

    /// Upgrade the given groups or install-ids with the catalog client.
    ///
    /// The existing lockfile is used as a seed with the matching packages
    /// unlocked, so that exactly those are re-resolved; an empty list
    /// unlocks everything.  Returns the new lock and the (before, after)
    /// pairs of packages whose derivation changed.
    pub fn upgrade_with_catalog_client<C: ClientTrait>(
        &mut self,
        vfs: &Vfs,
        client: &mut C,
        groups_or_iids: &Vec<String>,
        manifest: &Manifest,
    ) -> (r: Result<
        (CatalogLock, Vec<(crate::lockfile::LockedPackage, crate::lockfile::LockedPackage)>),
        CoreEnvironmentError,
    >)
        requires
            vfs.wf(),
        ensures
            final(self).spec_path() == old(self).spec_path(),
            ({
                let env = old(self).spec_path();
                let existing = catalog_seed(vfs@, env);
                let seedv = upgrade_seed(existing, groups_or_iids@.map_values(|s: String| s@));
                let prev = previous_packages_of(existing);
                match r {
                    Ok(p) => exists|resp: Seq<ResolvedPackageGroupV>|
                        #[trigger] C::resolve_rel(
                            *old(client),
                            seq![resolve_request(manifest@, seedv)],
                            Ok(resp),
                            *final(client),
                        ) && p.0@.version == 1 && p.0@.manifest == manifest@ && p.0@.packages
                            == kept_packages(manifest@, seedv) + locked_of_response(resp) && p.1@
                            .map_values(
                            |q: (crate::lockfile::LockedPackage, crate::lockfile::LockedPackage)|
                                (q.0@, q.1@),
                        ) == crate::lockfile::diff_pairs(prev, p.0@.packages),
                    Err(e) => (e matches CoreEnvironmentError::LockedManifest(
                        LockedManifestError::ResolveFailed(_),
                    )) && exists|msg: Seq<char>|
                        #[trigger] C::resolve_rel(
                            *old(client),
                            seq![resolve_request(manifest@, seedv)],
                            Err(msg),
                            *final(client),
                        ),
                }
            }),
    {
        let ghost env = old(self).spec_path();
        let existing: Option<CatalogLock> = match vfs.get(&self.env_dir) {
            Some(c) => match &c.lock {
                Some(Lockfile::Catalog(l)) => Some(l.clone()),
                _ => None,
            },
            None => None,
        };
        let previous_packages: Vec<crate::lockfile::LockedPackage> = match &existing {
            Some(l) => crate::lockfile::clone_packages(&l.packages),
            None => Vec::new(),
        };
        let seed: Option<CatalogLock> = if groups_or_iids.len() == 0 {
            None
        } else {
            match existing {
                Some(mut l) => {
                    l.unlock_packages_by_group_or_iid(groups_or_iids);
                    Some(l)
                },
                None => None,
            }
        };
        let seed_ref = seed.as_ref();
        let ghost sv = seed_view(seed_ref);
        let ghost seedv = upgrade_seed(
            catalog_seed(vfs@, env),
            groups_or_iids@.map_values(|s: String| s@),
        );
        proof {
            assert(sv == seedv);
        }
        let upgraded = match crate::lockfile::lock_catalog_manifest(manifest, seed_ref, client) {
            Ok(l) => l,
            Err(e) => {
                proof {
                    let msg = choose|msg: Seq<char>|
                        #[trigger] C::resolve_rel(
                            *old(client),
                            seq![resolve_request(manifest@, sv)],
                            Err(msg),
                            *client,
                        );
                    assert(C::resolve_rel(
                        *old(client),
                        seq![resolve_request(manifest@, seedv)],
                        Err(msg),
                        *client,
                    ));
                }
                return Err(CoreEnvironmentError::LockedManifest(e));
            },
        };
        let ghost respw = choose|resp: Seq<ResolvedPackageGroupV>|
            #[trigger] C::resolve_rel(
                *old(client),
                seq![resolve_request(manifest@, sv)],
                Ok(resp),
                *client,
            ) && upgraded@.version == 1 && upgraded@.manifest == manifest@ && upgraded@.packages
                == kept_packages(manifest@, sv) + locked_of_response(resp);
        let diff = crate::lockfile::package_diff(&previous_packages, &upgraded.packages);
        proof {
            assert(C::resolve_rel(
                *old(client),
                seq![resolve_request(manifest@, seedv)],
                Ok(respw),
                *client,
            ));
            assert(previous_packages@.map_values(|p: crate::lockfile::LockedPackage| p@)
                == previous_packages_of(catalog_seed(vfs@, env)));
            assert(diff@.map_values(
                |q: (crate::lockfile::LockedPackage, crate::lockfile::LockedPackage)| (q.0@, q.1@),
            ) == crate::lockfile::diff_pairs(
                previous_packages_of(catalog_seed(vfs@, env)),
                upgraded@.packages,
            ));
        }
        Ok((upgraded, diff))
    }
}

/// Collect the install-ids of the upgraded packages, one per (before,
/// after) pair, in order.
fn ids_of_diff(
    diff: &Vec<(crate::lockfile::LockedPackage, crate::lockfile::LockedPackage)>,
) -> (r: Vec<String>)
    ensures
        r@.map_values(|s: String| s@) == diff@.map_values(
            |q: (crate::lockfile::LockedPackage, crate::lockfile::LockedPackage)| q.1@.install_id,
        ),
{
    let mut out: Vec<String> = Vec::new();
    let mut i: usize = 0;
    while i < diff.len()
        invariant
            i <= diff.len(),
            out@.len() == i,
            forall|j: int| 0 <= j < i ==> out@[j]@ == diff@[j].1@.install_id,
        decreases diff.len() - i,
    {
        out.push(diff[i].1.install_id.clone());
        i = i + 1;
    }
    proof {
        assert(out@.map_values(|s: String| s@) =~= diff@.map_values(
            |q: (crate::lockfile::LockedPackage, crate::lockfile::LockedPackage)| q.1@.install_id,
        ));
    }
    out
}

impl CoreEnvironment<ReadOnly> {
    /// Atomically upgrade packages in this environment.
    ///
    /// A new lockfile with the listed groups or install-ids re-resolved —
    /// all packages, when the list is empty — is produced by the backend
    /// the manifest's version selects, verified by building, and committed
    /// in a lockfile-path transaction.  The result reports the install-ids
    /// whose derivation changed.
    pub fn upgrade(
        &mut self,
        vfs: &mut Vfs,
        flox: &mut Flox,
        groups_or_iids: &Vec<String>,
        tempdir: String,
        pkgdb_upgrade: Result<String, CallPkgDbError>,
        pkgdb_build: Result<String, CallPkgDbError>,
    ) -> (r: Result<UpgradeResult, CoreEnvironmentError>)
        requires
            old(vfs).wf(),
        ensures
            final(vfs).wf(),
            final(self).spec_path() == old(self).spec_path(),
            flox_same_but_client(*old(flox), *final(flox)),
            ({
                let env = old(self).spec_path();
                let m0 = old(vfs)@;
                let m1 = final(vfs)@;
                let flox0 = *old(flox);
                let flox1 = *final(flox);
                if !m0.dom().contains(env) {
                    (r matches Err(CoreEnvironmentError::OpenManifest(_))) && m1 == m0 && flox1
                        == flox0
                } else if !toml_ok(m0[env].manifest) {
                    (r matches Err(CoreEnvironmentError::DeserializeManifest(_))) && m1 == m0
                        && flox1 == flox0
                } else if spec_manifest(m0[env].manifest).is_catalog() {
                    match (flox0.catalog_client, flox1.catalog_client) {
                        (None, None) => (r matches Err(CoreEnvironmentError::CatalogClientMissing))
                            && m1 == m0,
                        (Some(c0), Some(c1)) => ({
                            let mv = spec_manifest(m0[env].manifest);
                            let existing = catalog_seed(m0, env);
                            let seedv = upgrade_seed(
                                existing,
                                groups_or_iids@.map_values(|s: String| s@),
                            );
                            ||| {
                                &&& exists|msg: Seq<char>|
                                    #[trigger] Client::resolve_rel(
                                        c0,
                                        seq![resolve_request(mv, seedv)],
                                        Err(msg),
                                        c1,
                                    )
                                &&& r matches Err(
                                    CoreEnvironmentError::LockedManifest(
                                        LockedManifestError::ResolveFailed(_),
                                    ),
                                )
                                &&& m1 == m0
                            }
                            ||| exists|resp: Seq<ResolvedPackageGroupV>|
                                {
                                    let lock = CatalogLockV {
                                        version: 1,
                                        manifest: mv,
                                        packages: kept_packages(mv, seedv) + locked_of_response(
                                            resp,
                                        ),
                                    };
                                    let pairs = crate::lockfile::diff_pairs(
                                        previous_packages_of(existing),
                                        lock.packages,
                                    );
                                    &&& #[trigger] Client::resolve_rel(
                                        c0,
                                        seq![resolve_request(mv, seedv)],
                                        Ok(resp),
                                        c1,
                                    )
                                    &&& exists|tr: Result<String, CoreEnvironmentError>|
                                        #[trigger] lockfile_transaction(
                                            env,
                                            m0,
                                            LockfileV::Catalog(lock),
                                            tempdir@,
                                            pkgdb_build,
                                            tr,
                                            m1,
                                        ) && (match tr {
                                            Err(e) => r matches Err(e2) && e2 == e,
                                            Ok(sp) => r matches Ok(u) && u.packages@.map_values(
                                                |s: String| s@,
                                            ) == pairs.map_values(
                                                |q: (
                                                    crate::lockfile::LockedPackageV,
                                                    crate::lockfile::LockedPackageV,
                                                )| q.1.install_id,
                                            ) && u.store_path == Some(sp),
                                        })
                                }
                        }),
                        _ => false,
                    }
                } else {
                    flox1 == flox0 && match pkgdb_upgrade {
                        Err(e) => (r matches Err(CoreEnvironmentError::UpgradeFailed(e2)) && e2
                            == e) && m1 == m0,
                        Ok(stdout) => if !crate::pkgdb::upgrade_json_ok(stdout@) {
                            (r matches Err(CoreEnvironmentError::ParseUpgradeOutput(_))) && m1
                                == m0
                        } else {
                            exists|tr: Result<String, CoreEnvironmentError>|
                                #[trigger] lockfile_transaction(
                                    env,
                                    m0,
                                    LockfileV::Pkgdb(crate::pkgdb::upgrade_json_lockfile(stdout@)),
                                    tempdir@,
                                    pkgdb_build,
                                    tr,
                                    m1,
                                ) && (match tr {
                                    Err(e) => r matches Err(e2) && e2 == e,
                                    Ok(sp) => r matches Ok(u) && u.packages@.map_values(
                                        |s: String| s@,
                                    ) == crate::pkgdb::upgrade_json_result(stdout@)
                                        && u.store_path == Some(sp),
                                })
                        },
                    }
                }
            }),
    {
        let ghost m0 = vfs@;
        let ghost env = old(self).spec_path();
        let content = match self.manifest_content(vfs) {
            Ok(c) => c,
            Err(e) => {
                return Err(e);
            },
        };
        let manifest = match crate::manifest::parse_manifest(&content) {
            Ok(m) => m,
            Err(e) => {
                return Err(e);
            },
        };
        if manifest.is_catalog() {
            match flox.catalog_client.take() {
                None => Err(CoreEnvironmentError::CatalogClientMissing),
                Some(mut client) => {
                    let ghost c0 = client;
                    let res = self.upgrade_with_catalog_client(
                        vfs,
                        &mut client,
                        groups_or_iids,
                        &manifest,
                    );
                    let ghost c1 = client;
                    flox.catalog_client = Some(client);
                    let ghost seedv = upgrade_seed(
                        catalog_seed(m0, env),
                        groups_or_iids@.map_values(|s: String| s@),
                    );
                    match res {
                        Err(e) => {
                            proof {
                                let msg = choose|msg: Seq<char>|
                                    #[trigger] Client::resolve_rel(
                                        c0,
                                        seq![resolve_request(manifest@, seedv)],
                                        Err(msg),
                                        c1,
                                    );
                                let c0p = old(flox).catalog_client.unwrap();
                                let c1p = flox.catalog_client.unwrap();
                                assert(Client::resolve_rel(
                                    c0p,
                                    seq![
                                        resolve_request(spec_manifest(m0[env].manifest), seedv),
                                    ],
                                    Err(msg),
                                    c1p,
                                ));
                            }
                            Err(e)
                        },
                        Ok((lock, diff)) => {
                            let ghost lockv = lock@;
                            let ghost respw = choose|resp: Seq<ResolvedPackageGroupV>|
                                #[trigger] Client::resolve_rel(
                                    c0,
                                    seq![resolve_request(manifest@, seedv)],
                                    Ok(resp),
                                    c1,
                                ) && lockv.version == 1 && lockv.manifest == manifest@
                                    && lockv.packages == kept_packages(manifest@, seedv)
                                    + locked_of_response(resp);
                            let ghost diffv = diff@.map_values(
                                |q: (
                                    crate::lockfile::LockedPackage,
                                    crate::lockfile::LockedPackage,
                                )| (q.0@, q.1@),
                            );
                            let ids = ids_of_diff(&diff);
                            let tr = self.transact_with_lockfile_contents(
                                vfs,
                                flox,
                                Lockfile::Catalog(lock),
                                tempdir,
                                pkgdb_build,
                            );
                            let ghost trg = tr;
                            proof {
                                let c0p = old(flox).catalog_client.unwrap();
                                let c1p = flox.catalog_client.unwrap();
                                assert(Client::resolve_rel(
                                    c0p,
                                    seq![
                                        resolve_request(spec_manifest(m0[env].manifest), seedv),
                                    ],
                                    Ok(respw),
                                    c1p,
                                ));
                                assert(lockfile_transaction(
                                    env,
                                    m0,
                                    LockfileV::Catalog(
                                        CatalogLockV {
                                            version: 1,
                                            manifest: spec_manifest(m0[env].manifest),
                                            packages: kept_packages(
                                                spec_manifest(m0[env].manifest),
                                                seedv,
                                            ) + locked_of_response(respw),
                                        },
                                    ),
                                    tempdir@,
                                    pkgdb_build,
                                    trg,
                                    vfs@,
                                ));
                                assert(ids@.map_values(|s: String| s@) =~= diffv.map_values(
                                    |q: (
                                        crate::lockfile::LockedPackageV,
                                        crate::lockfile::LockedPackageV,
                                    )| q.1.install_id,
                                ));
                            }
                            match tr {
                                Err(e) => Err(e),
                                Ok(sp) => Ok(
                                    UpgradeResult { packages: ids, store_path: Some(sp) },
                                ),
                            }
                        },
                    }
                },
            }
        } else {
            match self.upgrade_with_pkgdb(vfs, flox, groups_or_iids, pkgdb_upgrade) {
                Err(e) => Err(e),
                Ok((blob, ids)) => {
                    let ghost blobv = blob@;
                    let tr = self.transact_with_lockfile_contents(
                        vfs,
                        flox,
                        Lockfile::Pkgdb(blob),
                        tempdir,
                        pkgdb_build,
                    );
                    let ghost trg = tr;
                    proof {
                        assert(lockfile_transaction(
                            env,
                            m0,
                            LockfileV::Pkgdb(blobv),
                            tempdir@,
                            pkgdb_build,
                            trg,
                            vfs@,
                        ));
                    }
                    match tr {
                        Err(e) => Err(e),
                        Ok(sp) => Ok(UpgradeResult { packages: ids, store_path: Some(sp) }),
                    }
                },
            }
        }
    }
}

/// The outcome of an installation: the new manifest text when the
/// environment was modified, the requests that were already installed, and
/// the store path when the new manifest built.
#[derive(Debug)]
pub struct InstallationAttempt {
    pub new_manifest: Option<String>,
    pub already_installed: Vec<crate::manifest::PackageToInstall>,
    pub store_path: Option<String>,
}

/// The outcome of an uninstallation: the new manifest text, and the store
/// path when it built.
#[derive(Debug)]
pub struct UninstallationAttempt {
    pub new_manifest: Option<String>,
    pub store_path: Option<String>,
}

/// The text the editor produces when inserting these requests: their old
/// entries removed, the new entries spliced in.
pub open spec fn inserted_text(s: Seq<char>, to_add: Seq<crate::manifest::PackageToInstallV>)
    -> Seq<char> {
    crate::manifest::spec_join_lines(
        crate::manifest::spec_insert_lines(
            crate::manifest::spec_remove_lines(
                crate::manifest::spec_split_lines(s),
                to_add.map_values(|p: crate::manifest::PackageToInstallV| p.id),
                false,
            ),
            crate::manifest::spec_entry_lines(to_add),
        ),
    )
}

/// The text the editor produces when removing these install-ids.
pub open spec fn removed_text(s: Seq<char>, ids: Seq<Seq<char>>) -> Seq<char> {
    crate::manifest::spec_join_lines(
        crate::manifest::spec_remove_lines(crate::manifest::spec_split_lines(s), ids, false),
    )
}

impl CoreEnvironment<ReadOnly> {
    /// Install packages to the environment atomically.
    ///
    /// Requests the manifest already lists with an equivalent descriptor
    /// are reported back; the rest are inserted — replacing an entry with
    /// the same id but another descriptor — and the installation proceeds
    /// exactly when at least one request was added, through a
    /// manifest-path transaction.
    pub fn install(
        &mut self,
        vfs: &mut Vfs,
        flox: &mut Flox,
        packages: &Vec<crate::manifest::PackageToInstall>,
        tempdir: String,
        pkgdb_lock: Result<String, CallPkgDbError>,
        pkgdb_build: Result<String, CallPkgDbError>,
    ) -> (r: Result<InstallationAttempt, CoreEnvironmentError>)
        requires
            old(vfs).wf(),
        ensures
            final(vfs).wf(),
            final(self).spec_path() == old(self).spec_path(),
            flox_same_but_client(*old(flox), *final(flox)),
            ({
                let env = old(self).spec_path();
                let m0 = old(vfs)@;
                let m1 = final(vfs)@;
                let flox0 = *old(flox);
                let flox1 = *final(flox);
                if !m0.dom().contains(env) {
                    (r matches Err(CoreEnvironmentError::OpenManifest(_))) && m1 == m0 && flox1
                        == flox0
                } else if !toml_ok(m0[env].manifest) {
                    (r matches Err(CoreEnvironmentError::ModifyToml(_))) && m1 == m0 && flox1
                        == flox0
                } else {
                    let text = m0[env].manifest;
                    let pkgsv = packages@.map_values(
                        |p: crate::manifest::PackageToInstall| p@,
                    );
                    let already = pkgsv.filter(crate::manifest::already_installed_pred(text));
                    let to_add = pkgsv.filter(crate::manifest::to_install_pred(text));
                    if to_add.len() == 0 {
                        (r matches Ok(a) && a.new_manifest is None && a.already_installed@
                            .map_values(|p: crate::manifest::PackageToInstall| p@) == already
                            && a.store_path is None) && m1 == m0 && flox1 == flox0
                    } else if !crate::manifest::insert_layout_ok(text) {
                        (r matches Err(CoreEnvironmentError::ModifyToml(_))) && m1 == m0 && flox1
                            == flox0
                    } else {
                        exists|tr: Result<String, CoreEnvironmentError>|
                            #[trigger] manifest_transaction(
                                env,
                                m0,
                                flox0,
                                inserted_text(text, to_add),
                                tempdir@,
                                pkgdb_lock,
                                pkgdb_build,
                                tr,
                                m1,
                                flox1,
                            ) && (match tr {
                                Err(e) => r matches Err(e2) && e2 == e,
                                Ok(sp) => r matches Ok(a) && (a.new_manifest matches Some(nm)
                                    && nm@ == inserted_text(text, to_add)) && a.already_installed@
                                    .map_values(|p: crate::manifest::PackageToInstall| p@)
                                    == already && a.store_path == Some(sp),
                            })
                    }
                }
            }),
    {
        let current = match self.manifest_content(vfs) {
            Ok(c) => c,
            Err(e) => {
                return Err(e);
            },
        };
        let insertion = match crate::manifest::insert_packages(&current, packages) {
            Ok(ins) => ins,
            Err(e) => {
                return Err(e);
            },
        };
        match insertion.new_text {
            None => Ok(
                InstallationAttempt {
                    new_manifest: None,
                    already_installed: insertion.already_installed,
                    store_path: None,
                },
            ),
            Some(new_text) => {
                let ghost m0 = vfs@;
                let ghost env = old(self).spec_path();
                let ghost text = m0[env].manifest;
                let ghost to_addv = packages@.map_values(
                    |p: crate::manifest::PackageToInstall| p@,
                ).filter(crate::manifest::to_install_pred(text));
                let tr = self.transact_with_manifest_contents(
                    vfs,
                    flox,
                    &new_text,
                    tempdir,
                    pkgdb_lock,
                    pkgdb_build,
                );
                let ghost trg = tr;
                proof {
                    assert(new_text@ == inserted_text(text, to_addv));
                    assert(manifest_transaction(
                        env,
                        m0,
                        *old(flox),
                        inserted_text(text, to_addv),
                        tempdir@,
                        pkgdb_lock,
                        pkgdb_build,
                        trg,
                        vfs@,
                        *flox,
                    ));
                }
                match tr {
                    Err(e) => Err(e),
                    Ok(sp) => Ok(
                        InstallationAttempt {
                            new_manifest: Some(new_text),
                            already_installed: insertion.already_installed,
                            store_path: Some(sp),
                        },
                    ),
                }
            },
        }
    }

    /// Uninstall packages from the environment atomically.
    ///
    /// A missing install-id is a non-fatal no-op; the resulting text —
    /// changed or not — is committed through a manifest-path transaction.
    pub fn uninstall(
        &mut self,
        vfs: &mut Vfs,
        flox: &mut Flox,
        packages: Vec<String>,
        tempdir: String,
        pkgdb_lock: Result<String, CallPkgDbError>,
        pkgdb_build: Result<String, CallPkgDbError>,
    ) -> (r: Result<UninstallationAttempt, CoreEnvironmentError>)
        requires
            old(vfs).wf(),
        ensures
            final(vfs).wf(),
            final(self).spec_path() == old(self).spec_path(),
            flox_same_but_client(*old(flox), *final(flox)),
            ({
                let env = old(self).spec_path();
                let m0 = old(vfs)@;
                let m1 = final(vfs)@;
                let flox0 = *old(flox);
                let flox1 = *final(flox);
                if !m0.dom().contains(env) {
                    (r matches Err(CoreEnvironmentError::OpenManifest(_))) && m1 == m0 && flox1
                        == flox0
                } else if !toml_ok(m0[env].manifest) {
                    (r matches Err(CoreEnvironmentError::ModifyToml(_))) && m1 == m0 && flox1
                        == flox0
                } else {
                    let text = m0[env].manifest;
                    let ids = packages@.map_values(|s: String| s@);
                    exists|tr: Result<String, CoreEnvironmentError>|
                        #[trigger] manifest_transaction(
                            env,
                            m0,
                            flox0,
                            removed_text(text, ids),
                            tempdir@,
                            pkgdb_lock,
                            pkgdb_build,
                            tr,
                            m1,
                            flox1,
                        ) && (match tr {
                            Err(e) => r matches Err(e2) && e2 == e,
                            Ok(sp) => r matches Ok(u) && (u.new_manifest matches Some(nm) && nm@
                                == removed_text(text, ids)) && u.store_path == Some(sp),
                        })
                }
            }),
    {
        let current = match self.manifest_content(vfs) {
            Ok(c) => c,
            Err(e) => {
                return Err(e);
            },
        };
        let new_text = match crate::manifest::remove_packages(&current, &packages) {
            Ok(t) => t,
            Err(e) => {
                return Err(e);
            },
        };
        let ghost m0 = vfs@;
        let ghost env = old(self).spec_path();
        let ghost text = m0[env].manifest;
        let ghost ids = packages@.map_values(|s: String| s@);
        let tr = self.transact_with_manifest_contents(
            vfs,
            flox,
            &new_text,
            tempdir,
            pkgdb_lock,
            pkgdb_build,
        );
        let ghost trg = tr;
        proof {
            assert(new_text@ == removed_text(text, ids));
            assert(manifest_transaction(
                env,
                m0,
                *old(flox),
                removed_text(text, ids),
                tempdir@,
                pkgdb_lock,
                pkgdb_build,
                trg,
                vfs@,
                *flox,
            ));
        }
        match tr {
            Err(e) => Err(e),
            Ok(sp) => Ok(
                UninstallationAttempt { new_manifest: Some(new_text), store_path: Some(sp) },
            ),
        }
    }
}

/// Provision a fresh environment directory holding the given manifest
/// text and no lockfile, and hand back a read-only view of it.
pub fn new_core_environment(vfs: &mut Vfs, env_dir: String, contents: String) -> (r:
    CoreEnvironment<ReadOnly>)
    requires
        old(vfs).wf(),
    ensures
        final(vfs).wf(),
        r.spec_path() == env_dir@,
        final(vfs)@ == old(vfs)@.insert(
            env_dir@,
            EnvContentsV { manifest: contents@, lock: None },
        ),
{
    vfs.insert(env_dir.clone(), EnvContents { manifest: contents, lock: None });
    CoreEnvironment::new(env_dir)
}

/// A directory's contents are consistent when the manifest parses and any
/// lockfile matches the manifest's version variant.
pub open spec fn env_consistent(c: EnvContentsV) -> bool {
    &&& toml_ok(c.manifest)
    &&& match c.lock {
        Some(l) => l.matches_manifest(spec_manifest(c.manifest)),
        None => true,
    }
}

/// Law: a manifest-path transaction keeps the environment consistent —
/// whatever the backends returned, afterwards the directory's manifest
/// parses and its lockfile, if any, matches the manifest's variant.
pub proof fn lemma_manifest_transaction_consistent(
    env: Seq<char>,
    m0: Map<Seq<char>, EnvContentsV>,
    flox0: Flox,
    contents: Seq<char>,
    tempdir: Seq<char>,
    pkgdb_lock: Result<String, CallPkgDbError>,
    pkgdb_build: Result<String, CallPkgDbError>,
    r: Result<String, CoreEnvironmentError>,
    m1: Map<Seq<char>, EnvContentsV>,
    flox1: Flox,
)
    requires
        manifest_transaction(env, m0, flox0, contents, tempdir, pkgdb_lock, pkgdb_build, r, m1, flox1),
        m0.dom().contains(env) ==> env_consistent(m0[env]),
    ensures
        m1.dom().contains(env) ==> env_consistent(m1[env]),
{
}

/// Law: a lockfile-path transaction keeps the environment consistent,
/// provided the lock handed in matches the manifest's variant.
pub proof fn lemma_lockfile_transaction_consistent(
    env: Seq<char>,
    m0: Map<Seq<char>, EnvContentsV>,
    lockv: LockfileV,
    tempdir: Seq<char>,
    pkgdb_build: Result<String, CallPkgDbError>,
    r: Result<String, CoreEnvironmentError>,
    m1: Map<Seq<char>, EnvContentsV>,
)
    requires
        lockfile_transaction(env, m0, lockv, tempdir, pkgdb_build, r, m1),
        m0.dom().contains(env) ==> env_consistent(m0[env]),
        m0.dom().contains(env) ==> lockv.matches_manifest(spec_manifest(m0[env].manifest)),
    ensures
        m1.dom().contains(env) ==> env_consistent(m1[env]),
{
}

/// Law: locking keeps the environment consistent — the lock written always
/// matches the variant of the manifest that produced it.
pub proof fn lemma_lock_consistent(
    env: Seq<char>,
    m0: Map<Seq<char>, EnvContentsV>,
    flox0: Flox,
    pkgdb_lock: Result<String, CallPkgDbError>,
    r: Result<Lockfile, CoreEnvironmentError>,
    m1: Map<Seq<char>, EnvContentsV>,
    flox1: Flox,
)
    requires
        lock_spec(env, m0, flox0, pkgdb_lock, r, m1, flox1),
        m0.dom().contains(env) ==> env_consistent(m0[env]),
    ensures
        m1.dom().contains(env) ==> env_consistent(m1[env]),
{
}

/// Law: a failed transaction leaves the whole store — the environment
/// included — exactly as it was.
pub proof fn lemma_failed_transaction_unchanged(
    env: Seq<char>,
    m0: Map<Seq<char>, EnvContentsV>,
    flox0: Flox,
    contents: Seq<char>,
    tempdir: Seq<char>,
    pkgdb_lock: Result<String, CallPkgDbError>,
    pkgdb_build: Result<String, CallPkgDbError>,
    r: Result<String, CoreEnvironmentError>,
    m1: Map<Seq<char>, EnvContentsV>,
    flox1: Flox,
)
    requires
        manifest_transaction(env, m0, flox0, contents, tempdir, pkgdb_lock, pkgdb_build, r, m1, flox1),
        r is Err,
    ensures
        m1 == m0,
{
}

/// Law: an edit keeps the environment consistent — after any edit, the
/// directory's manifest parses and its lockfile, if any, matches the
/// manifest's version variant.
pub proof fn lemma_edit_consistent(
    env: Seq<char>,
    m0: Map<Seq<char>, EnvContentsV>,
    flox0: Flox,
    contents: Seq<char>,
    tempdir: Seq<char>,
    pkgdb_lock: Result<String, CallPkgDbError>,
    pkgdb_build: Result<String, CallPkgDbError>,
    r: Result<EditResult, CoreEnvironmentError>,
    m1: Map<Seq<char>, EnvContentsV>,
    flox1: Flox,
)
    requires
        edit_spec(env, m0, flox0, contents, tempdir, pkgdb_lock, pkgdb_build, r, m1, flox1),
        m0.dom().contains(env) ==> env_consistent(m0[env]),
    ensures
        m1.dom().contains(env) ==> env_consistent(m1[env]),
{
    if m0.dom().contains(env) && contents != m0[env].manifest {
        let tr = choose|tr: Result<String, CoreEnvironmentError>|
            #[trigger] manifest_transaction(
                env,
                m0,
                flox0,
                contents,
                tempdir,
                pkgdb_lock,
                pkgdb_build,
                tr,
                m1,
                flox1,
            ) && match tr {
                Err(e) => r matches Err(e2) && e2 == e,
                Ok(sp) => {
                    let old_text = m0[env].manifest;
                    if !toml_ok(old_text) {
                        r matches Err(CoreEnvironmentError::DeserializeManifest(_))
                    } else if reactivate_required(old_text, contents) {
                        r matches Ok(x) && x == EditResult::ReActivateRequired {
                            store_path: Some(sp),
                        }
                    } else {
                        r matches Ok(x) && x == EditResult::Success { store_path: Some(sp) }
                    }
                },
            };
        lemma_manifest_transaction_consistent(
            env,
            m0,
            flox0,
            contents,
            tempdir,
            pkgdb_lock,
            pkgdb_build,
            tr,
            m1,
            flox1,
        );
    }
}

/// Law: a failed lockfile-path transaction leaves the whole store — the
/// environment included — exactly as it was.
pub proof fn lemma_failed_lockfile_transaction_unchanged(
    env: Seq<char>,
    m0: Map<Seq<char>, EnvContentsV>,
    lockv: LockfileV,
    tempdir: Seq<char>,
    pkgdb_build: Result<String, CallPkgDbError>,
    r: Result<String, CoreEnvironmentError>,
    m1: Map<Seq<char>, EnvContentsV>,
)
    requires
        lockfile_transaction(env, m0, lockv, tempdir, pkgdb_build, r, m1),
        r is Err,
    ensures
        m1 == m0,
{
}

/// Law: a backup slot left by a prior transaction blocks every
/// manifest-path transaction — none commits, and the store is untouched;
/// when the backends themselves succeeded, the reported failure is
/// `PriorTransaction`.
pub proof fn lemma_sentinel_blocks(
    env: Seq<char>,
    m0: Map<Seq<char>, EnvContentsV>,
    flox0: Flox,
    contents: Seq<char>,
    tempdir: Seq<char>,
    pkgdb_lock: Result<String, CallPkgDbError>,
    pkgdb_build: Result<String, CallPkgDbError>,
    r: Result<String, CoreEnvironmentError>,
    m1: Map<Seq<char>, EnvContentsV>,
    flox1: Flox,
)
    requires
        manifest_transaction(env, m0, flox0, contents, tempdir, pkgdb_lock, pkgdb_build, r, m1, flox1),
        m0.dom().contains(backup_path_of(env)),
    ensures
        r is Err,
        m1 == m0,
        !spec_manifest(contents).is_catalog() && m0.dom().contains(env) && !m0.dom().contains(
            tempdir,
        ) && toml_ok(contents) && pkgdb_lock is Ok && pkgdb_build is Ok ==> r matches Err(
            CoreEnvironmentError::PriorTransaction(_),
        ),
{
}

/// Law: an edit returns `Unchanged` exactly when the new text equals the
/// environment's current manifest text.
pub proof fn lemma_edit_unchanged_iff(
    env: Seq<char>,
    m0: Map<Seq<char>, EnvContentsV>,
    flox0: Flox,
    contents: Seq<char>,
    tempdir: Seq<char>,
    pkgdb_lock: Result<String, CallPkgDbError>,
    pkgdb_build: Result<String, CallPkgDbError>,
    r: Result<EditResult, CoreEnvironmentError>,
    m1: Map<Seq<char>, EnvContentsV>,
    flox1: Flox,
)
    requires
        edit_spec(env, m0, flox0, contents, tempdir, pkgdb_lock, pkgdb_build, r, m1, flox1),
        m0.dom().contains(env),
    ensures
        (r matches Ok(x) && x == EditResult::Unchanged) <==> contents == m0[env].manifest,
{
}

/// Law: a successful changing edit reports `ReActivateRequired` exactly
/// when the `hook` or `vars` section differs between the old and the new
/// manifest.
pub proof fn lemma_edit_reactivate_iff(
    env: Seq<char>,
    m0: Map<Seq<char>, EnvContentsV>,
    flox0: Flox,
    contents: Seq<char>,
    tempdir: Seq<char>,
    pkgdb_lock: Result<String, CallPkgDbError>,
    pkgdb_build: Result<String, CallPkgDbError>,
    r: Result<EditResult, CoreEnvironmentError>,
    m1: Map<Seq<char>, EnvContentsV>,
    flox1: Flox,
)
    requires
        edit_spec(env, m0, flox0, contents, tempdir, pkgdb_lock, pkgdb_build, r, m1, flox1),
        m0.dom().contains(env),
        env_consistent(m0[env]),
        r is Ok,
        contents != m0[env].manifest,
    ensures
        (r matches Ok(x) && x matches EditResult::ReActivateRequired { .. })
            <==> reactivate_required(m0[env].manifest, contents),
{
}

/// Law: installing packages is editing with the editor's inserted text.
/// Both commit through the same manifest-path transaction on the same
/// text, and every configurable client is scripted, so two runs from the
/// same store and context with the same backend outcomes leave the same
/// store and produce the same store path.
pub proof fn lemma_install_is_edit(
    env: Seq<char>,
    m0: Map<Seq<char>, EnvContentsV>,
    flox0: Flox,
    contents: Seq<char>,
    tempdir: Seq<char>,
    pkgdb_lock: Result<String, CallPkgDbError>,
    pkgdb_build: Result<String, CallPkgDbError>,
    ri: Result<String, CoreEnvironmentError>,
    mi: Map<Seq<char>, EnvContentsV>,
    fi: Flox,
    re: Result<String, CoreEnvironmentError>,
    me: Map<Seq<char>, EnvContentsV>,
    fe: Flox,
)
    requires
        manifest_transaction(env, m0, flox0, contents, tempdir, pkgdb_lock, pkgdb_build, ri, mi, fi),
        manifest_transaction(env, m0, flox0, contents, tempdir, pkgdb_lock, pkgdb_build, re, me, fe),
    ensures
        mi == me,
        ri is Ok <==> re is Ok,
        ri matches Ok(a) ==> re matches Ok(b) && a == b,
{
}

} // verus!
