//! The lockfile model: a machine-generated pinning of every manifest entry
//! to an exact resolved derivation, in a tagged variant mirroring the
//! manifest's.
//!
//! The legacy variant is an opaque blob produced and consumed by the
//! package-database binary.  The catalog variant embeds the manifest it was
//! resolved from and the list of fully resolved packages, and is produced
//! here by `lock_catalog_manifest` from the catalog client's answers.

use vstd::prelude::*;

use crate::catalog::{
    CatalogPage,
    CatalogPageV,
    ClientTrait,
    PackageGroup,
    PackageGroupV,
    ResolvedPackageDescriptor,
    ResolvedPackageDescriptorV,
    ResolvedPackageGroup,
    ResolvedPackageGroupV,
    opt_strings_view,
};
use crate::error::LockedManifestError;
use crate::manifest::{Manifest, ManifestV, clone_opt_string, opt_string_view};

verus! {

/// One package pinned by a catalog lockfile: a resolved descriptor together
/// with the group and target system it was resolved for.
#[derive(Debug)]
pub struct LockedPackage {
    pub install_id: String,
    pub group: String,
    pub system: String,
    pub attr_path: String,
    pub broken: bool,
    pub derivation: String,
    pub description: Option<String>,
    pub license: Option<String>,
    pub locked_url: String,
    pub name: String,
    pub outputs: Option<Vec<String>>,
    pub outputs_to_install: Option<Vec<String>>,
    pub pname: String,
    pub rev: String,
    pub rev_count: u64,
    pub rev_date: String,
    pub scrape_date: String,
    pub unfree: Option<bool>,
    pub version: String,
}

/// Mathematical model of a locked package.
pub struct LockedPackageV {
    pub install_id: Seq<char>,
    pub group: Seq<char>,
    pub system: Seq<char>,
    pub attr_path: Seq<char>,
    pub broken: bool,
    pub derivation: Seq<char>,
    pub description: Option<Seq<char>>,
    pub license: Option<Seq<char>>,
    pub locked_url: Seq<char>,
    pub name: Seq<char>,
    pub outputs: Option<Seq<Seq<char>>>,
    pub outputs_to_install: Option<Seq<Seq<char>>>,
    pub pname: Seq<char>,
    pub rev: Seq<char>,
    pub rev_count: u64,
    pub rev_date: Seq<char>,
    pub scrape_date: Seq<char>,
    pub unfree: Option<bool>,
    pub version: Seq<char>,
}

impl View for LockedPackage {
    type V = LockedPackageV;

    open spec fn view(&self) -> LockedPackageV {
        LockedPackageV {
            install_id: self.install_id@,
            group: self.group@,
            system: self.system@,
            attr_path: self.attr_path@,
            broken: self.broken,
            derivation: self.derivation@,
            description: opt_string_view(&self.description),
            license: opt_string_view(&self.license),
            locked_url: self.locked_url@,
            name: self.name@,
            outputs: opt_strings_view(&self.outputs),
            outputs_to_install: opt_strings_view(&self.outputs_to_install),
            pname: self.pname@,
            rev: self.rev@,
            rev_count: self.rev_count,
            rev_date: self.rev_date@,
            scrape_date: self.scrape_date@,
            unfree: self.unfree,
            version: self.version@,
        }
    }
}

/// Clone a list of strings.
pub fn clone_strings(v: &Vec<String>) -> (r: Vec<String>)
    ensures
        r@ == v@,
{
    let mut out: Vec<String> = Vec::new();
    let mut i: usize = 0;
    while i < v.len()
        invariant
            i <= v.len(),
            out@ == v@.subrange(0, i as int),
        decreases v.len() - i,
    {
        let s = v[i].clone();
        assert(s == v@[i as int]);
        out.push(s);
        assert(out@ =~= v@.subrange(0, i as int + 1));
        i = i + 1;
    }
    assert(out@ =~= v@);
    out
}

/// Clone an optional list of strings.
pub fn clone_opt_strings(o: &Option<Vec<String>>) -> (r: Option<Vec<String>>)
    ensures
        opt_strings_view(&r) == opt_strings_view(o),
{
    match o {
        Some(v) => Some(clone_strings(v)),
        None => None,
    }
}

impl Clone for LockedPackage {
    fn clone(&self) -> (res: Self)
        ensures
            res@ == self@,
    {
        LockedPackage {
            install_id: self.install_id.clone(),
            group: self.group.clone(),
            system: self.system.clone(),
            attr_path: self.attr_path.clone(),
            broken: self.broken,
            derivation: self.derivation.clone(),
            description: clone_opt_string(&self.description),
            license: clone_opt_string(&self.license),
            locked_url: self.locked_url.clone(),
            name: self.name.clone(),
            outputs: clone_opt_strings(&self.outputs),
            outputs_to_install: clone_opt_strings(&self.outputs_to_install),
            pname: self.pname.clone(),
            rev: self.rev.clone(),
            rev_count: self.rev_count,
            rev_date: self.rev_date.clone(),
            scrape_date: self.scrape_date.clone(),
            unfree: self.unfree,
            version: self.version.clone(),
        }
    }
}

/// Clone a list of locked packages.
pub fn clone_packages(v: &Vec<LockedPackage>) -> (r: Vec<LockedPackage>)
    ensures
        r@.map_values(|p: LockedPackage| p@) == v@.map_values(|p: LockedPackage| p@),
{
    let mut out: Vec<LockedPackage> = Vec::new();
    let mut i: usize = 0;
    while i < v.len()
        invariant
            i <= v.len(),
            out@.len() == i,
            forall|j: int| 0 <= j < i ==> out@[j]@ == v@[j]@,
        decreases v.len() - i,
    {
        out.push(v[i].clone());
        i = i + 1;
    }
    assert(out@.map_values(|p: LockedPackage| p@) =~= v@.map_values(|p: LockedPackage| p@));
    out
}

/// A catalog lockfile: the version tag, the manifest it resolves, and the
/// resolved packages.
#[derive(Debug)]
pub struct CatalogLock {
    pub version: u64,
    pub manifest: Manifest,
    pub packages: Vec<LockedPackage>,
}

/// Mathematical model of a catalog lockfile.
pub struct CatalogLockV {
    pub version: u64,
    pub manifest: ManifestV,
    pub packages: Seq<LockedPackageV>,
}

impl View for CatalogLock {
    type V = CatalogLockV;

    open spec fn view(&self) -> CatalogLockV {
        CatalogLockV {
            version: self.version,
            manifest: self.manifest@,
            packages: self.packages@.map_values(|p: LockedPackage| p@),
        }
    }
}

impl Clone for CatalogLock {
    fn clone(&self) -> (res: Self)
        ensures
            res@ == self@,
    {
        let res = CatalogLock {
            version: self.version,
            manifest: self.manifest.clone(),
            packages: clone_packages(&self.packages),
        };
        assert(res@ =~= self@);
        res
    }
}

/// A lockfile, tagged to match the manifest variant that produced it:
/// an opaque blob for the legacy backend, a structured catalog lock for the
/// catalog resolver.
#[derive(Debug)]
pub enum Lockfile {
    Pkgdb(String),
    Catalog(CatalogLock),
}

/// Mathematical model of a lockfile.
pub enum LockfileV {
    Pkgdb(Seq<char>),
    Catalog(CatalogLockV),
}

impl View for Lockfile {
    type V = LockfileV;

    open spec fn view(&self) -> LockfileV {
        match self {
            Lockfile::Pkgdb(s) => LockfileV::Pkgdb(s@),
            Lockfile::Catalog(l) => LockfileV::Catalog(l@),
        }
    }
}

impl Clone for Lockfile {
    fn clone(&self) -> (res: Self)
        ensures
            res@ == self@,
    {
        match self {
            Lockfile::Pkgdb(s) => Lockfile::Pkgdb(s.clone()),
            Lockfile::Catalog(l) => Lockfile::Catalog(l.clone()),
        }
    }
}

impl LockfileV {
    /// A lockfile's variant matches a manifest exactly when both are
    /// catalog or both are legacy.
    pub open spec fn matches_manifest(self, m: ManifestV) -> bool {
        match self {
            LockfileV::Catalog(_) => m.is_catalog(),
            LockfileV::Pkgdb(_) => !m.is_catalog(),
        }
    }
}

/// The descriptor a manifest's `install` table gives an install-id: the
/// first entry with that id, if any.
pub open spec fn entry_lookup(install: Seq<(Seq<char>, Seq<char>)>, id: Seq<char>) -> Option<
    Seq<char>,
>
    decreases install.len(),
{
    if install.len() == 0 {
        None
    } else if install.first().0 == id {
        Some(install.first().1)
    } else {
        entry_lookup(install.drop_first(), id)
    }
}

/// Look up an install-id's descriptor in a manifest's `install` entries.
pub fn lookup_entry(install: &Vec<(String, String)>, id: &String) -> (r: Option<String>)
    ensures
        opt_string_view(&r) == entry_lookup(
            install@.map_values(|p: (String, String)| (p.0@, p.1@)),
            id@,
        ),
{
    let ghost installv = install@.map_values(|p: (String, String)| (p.0@, p.1@));
    proof {
        assert(installv.subrange(0, installv.len() as int) =~= installv);
    }
    let mut i: usize = 0;
    while i < install.len()
        invariant
            i <= install.len(),
            installv == install@.map_values(|p: (String, String)| (p.0@, p.1@)),
            entry_lookup(installv, id@) == entry_lookup(
                installv.subrange(i as int, installv.len() as int),
                id@,
            ),
        decreases install.len() - i,
    {
        let ghost rest = installv.subrange(i as int, installv.len() as int);
        if install[i].0 == *id {
            assert(rest.first() == installv[i as int]);
            return Some(install[i].1.clone());
        }
        proof {
            assert(rest.first() == installv[i as int]);
            assert(rest.drop_first() =~= installv.subrange(i as int + 1, installv.len() as int));
        }
        i = i + 1;
    }
    proof {
        assert(installv.subrange(i as int, installv.len() as int).len() == 0);
    }
    None
}

/// A seed package stays pinned for a new manifest when the new manifest
/// still lists its install-id with the descriptor the seed resolved.
pub open spec fn pkg_kept(m: ManifestV, seed_manifest: ManifestV, p: LockedPackageV) -> bool {
    entry_lookup(m.install, p.install_id) is Some && entry_lookup(m.install, p.install_id)
        == entry_lookup(seed_manifest.install, p.install_id)
}

/// The predicate selecting the seed packages a new manifest keeps.
pub open spec fn kept_pred(m: ManifestV, seed_manifest: ManifestV) -> spec_fn(LockedPackageV) -> bool {
    |p: LockedPackageV| pkg_kept(m, seed_manifest, p)
}

/// The seed packages a new manifest keeps pinned, in seed order.
pub open spec fn kept_packages(m: ManifestV, seed: Option<CatalogLockV>) -> Seq<LockedPackageV> {
    match seed {
        None => Seq::empty(),
        Some(s) => s.packages.filter(kept_pred(m, s.manifest)),
    }
}

/// Whether an install-id is already pinned by the seed for this manifest.
pub open spec fn id_is_pinned(m: ManifestV, seed: Option<CatalogLockV>, id: Seq<char>) -> bool {
    match seed {
        None => false,
        Some(s) => exists|i: int|
            0 <= i < s.packages.len() && s.packages[i].install_id == id && pkg_kept(
                m,
                s.manifest,
                s.packages[i],
            ),
    }
}

/// The predicate selecting the manifest entries the seed does not pin.
pub open spec fn resolve_pred(m: ManifestV, seed: Option<CatalogLockV>) -> spec_fn(
    (Seq<char>, Seq<char>),
) -> bool {
    |e: (Seq<char>, Seq<char>)| !id_is_pinned(m, seed, e.0)
}

/// The manifest entries the resolver must send to the client: those not
/// already pinned by the seed.
pub open spec fn entries_to_resolve(m: ManifestV, seed: Option<CatalogLockV>) -> Seq<
    (Seq<char>, Seq<char>),
> {
    m.install.filter(resolve_pred(m, seed))
}

/// The locked package a resolved descriptor yields for a group and system.
pub open spec fn locked_of(
    d: ResolvedPackageDescriptorV,
    group: Seq<char>,
    system: Seq<char>,
) -> LockedPackageV {
    LockedPackageV {
        install_id: d.install_id,
        group: group,
        system: system,
        attr_path: d.attr_path,
        broken: d.broken,
        derivation: d.derivation,
        description: d.description,
        license: d.license,
        locked_url: d.locked_url,
        name: d.name,
        outputs: d.outputs,
        outputs_to_install: d.outputs_to_install,
        pname: d.pname,
        rev: d.rev,
        rev_count: d.rev_count,
        rev_date: d.rev_date,
        scrape_date: d.scrape_date,
        unfree: d.unfree,
        version: d.version,
    }
}

/// The locked packages one page yields.
pub open spec fn locked_of_page(p: CatalogPageV, group: Seq<char>, system: Seq<char>) -> Seq<
    LockedPackageV,
> {
    match p.packages {
        None => Seq::empty(),
        Some(ds) => ds.map_values(|d: ResolvedPackageDescriptorV| locked_of(d, group, system)),
    }
}

/// The locked packages a list of pages yields, page order kept.
pub open spec fn locked_of_pages(
    ps: Seq<CatalogPageV>,
    group: Seq<char>,
    system: Seq<char>,
) -> Seq<LockedPackageV>
    decreases ps.len(),
{
    if ps.len() == 0 {
        Seq::empty()
    } else {
        locked_of_page(ps.first(), group, system) + locked_of_pages(ps.drop_first(), group, system)
    }
}

/// The locked packages a resolution response yields, group order kept.
pub open spec fn locked_of_response(resp: Seq<ResolvedPackageGroupV>) -> Seq<LockedPackageV>
    decreases resp.len(),
{
    if resp.len() == 0 {
        Seq::empty()
    } else {
        locked_of_pages(resp.first().pages, resp.first().name, resp.first().system)
            + locked_of_response(resp.drop_first())
    }
}

/// Filtering a sequence extended by one element keeps the element exactly
/// when the predicate holds of it.
proof fn lemma_filter_push<A>(s: Seq<A>, pred: spec_fn(A) -> bool, x: A)
    ensures
        s.push(x).filter(pred) == if pred(x) {
            s.filter(pred).push(x)
        } else {
            s.filter(pred)
        },
{
    reveal(Seq::filter);
    assert(s.push(x).drop_last() =~= s);
    assert(s.push(x).last() == x);
}

impl CatalogLock {
    /// Remove the locked entries of every package whose group or
    /// install-id is listed, so that they are resolved anew; the manifest
    /// copy and the other packages stay.
    pub fn unlock_packages_by_group_or_iid(&mut self, groups_or_iids: &Vec<String>)
        ensures
            final(self)@.packages == old(self)@.packages.filter(
                unlock_pred(groups_or_iids@.map_values(|s: String| s@)),
            ),
            final(self)@.manifest == old(self)@.manifest,
            final(self)@.version == old(self)@.version,
    {
        let ghost ids = groups_or_iids@.map_values(|s: String| s@);
        let ghost origv = self@.packages;
        let mut kept: Vec<LockedPackage> = Vec::new();
        let mut i: usize = 0;
        while i < self.packages.len()
            invariant
                i <= self.packages.len(),
                origv == self@.packages,
                ids == groups_or_iids@.map_values(|s: String| s@),
                kept@.map_values(|p: LockedPackage| p@) == origv.subrange(0, i as int).filter(
                    unlock_pred(ids),
                ),
            decreases self.packages.len() - i,
        {
            let p = &self.packages[i];
            let in_group = contains_string(groups_or_iids, &p.group);
            let in_iids = contains_string(groups_or_iids, &p.install_id);
            proof {
                assert(origv[i as int] == self.packages@[i as int]@);
            }
            if !(in_group || in_iids) {
                kept.push(self.packages[i].clone());
            }
            proof {
                lemma_filter_push(origv.subrange(0, i as int), unlock_pred(ids), origv[i as int]);
                assert(origv.subrange(0, i as int).push(origv[i as int]) =~= origv.subrange(
                    0,
                    i as int + 1,
                ));
                if !(in_group || in_iids) {
                    assert(kept@.map_values(|p: LockedPackage| p@) =~= origv.subrange(
                        0,
                        i as int,
                    ).filter(unlock_pred(ids)).push(origv[i as int]));
                }
            }
            i = i + 1;
        }
        proof {
            assert(origv.subrange(0, origv.len() as int) =~= origv);
        }
        self.packages = kept;
    }
}

/// The predicate selecting the packages an unlock request keeps.
pub open spec fn unlock_pred(ids: Seq<Seq<char>>) -> spec_fn(LockedPackageV) -> bool {
    |p: LockedPackageV| !(ids.contains(p.group) || ids.contains(p.install_id))
}

/// Whether a list of strings contains a string, by contents.
pub fn contains_string(v: &Vec<String>, s: &String) -> (r: bool)
    ensures
        r == v@.map_values(|x: String| x@).contains(s@),
{
    let ghost ids = v@.map_values(|x: String| x@);
    let mut i: usize = 0;
    while i < v.len()
        invariant
            i <= v.len(),
            ids == v@.map_values(|x: String| x@),
            forall|j: int| 0 <= j < i ==> ids[j] != s@,
        decreases v.len() - i,
    {
        if v[i] == *s {
            assert(ids[i as int] == s@);
            return true;
        }
        i = i + 1;
    }
    assert(forall|j: int| 0 <= j < ids.len() ==> ids[j] != s@);
    false
}

/// Whether the seed already pins this install-id for this manifest.
fn is_pinned_exec(manifest: &Manifest, seed: &CatalogLock, id: &String) -> (r: bool)
    ensures
        r == id_is_pinned(manifest@, Some(seed@), id@),
{
    let ghost mv = manifest@;
    let ghost seedv = seed@;
    let mut i: usize = 0;
    while i < seed.packages.len()
        invariant
            i <= seed.packages.len(),
            mv == manifest@,
            seedv == seed@,
            forall|j: int|
                0 <= j < i ==> !(seedv.packages[j].install_id == id@ && pkg_kept(
                    mv,
                    seedv.manifest,
                    seedv.packages[j],
                )),
        decreases seed.packages.len() - i,
    {
        let p = &seed.packages[i];
        proof {
            assert(seedv.packages[i as int] == seed.packages@[i as int]@);
        }
        if p.install_id == *id {
            let in_new = lookup_entry(&manifest.install, id);
            let in_seed = lookup_entry(&seed.manifest.install, id);
            if in_new.is_some() && crate::manifest::opt_string_eq(&in_new, &in_seed) {
                assert(pkg_kept(mv, seedv.manifest, seedv.packages[i as int]));
                return true;
            }
        }
        i = i + 1;
    }
    false
}

/// The single resolution request a manifest and seed give rise to: the
/// entries the seed does not pin, in one group.
pub open spec fn resolve_request(m: ManifestV, seed: Option<CatalogLockV>) -> PackageGroupV {
    PackageGroupV { name: "toplevel"@, descriptors: entries_to_resolve(m, seed) }
}

/// The view of an optional seed lock reference.
pub open spec fn seed_view(seed: Option<&CatalogLock>) -> Option<CatalogLockV> {
    match seed {
        Some(s) => Some(s@),
        None => None,
    }
}

/// Resolve a catalog manifest to a catalog lockfile.
///
/// Packages the seed already pins for an unchanged descriptor are kept;
/// only the remaining entries are sent to the client, in one group.  The
/// resulting lock embeds the manifest and carries the kept packages
/// followed by everything the client resolved, in the client's order.
pub fn lock_catalog_manifest<C: ClientTrait>(
    manifest: &Manifest,
    seed: Option<&CatalogLock>,
    client: &mut C,
) -> (r: Result<CatalogLock, LockedManifestError>)
    ensures
        match r {
            Ok(l) => exists|resp: Seq<ResolvedPackageGroupV>|
                #[trigger] C::resolve_rel(
                    *old(client),
                    seq![resolve_request(manifest@, seed_view(seed))],
                    Ok(resp),
                    *final(client),
                ) && l@.version == 1 && l@.manifest == manifest@ && l@.packages == kept_packages(
                    manifest@,
                    seed_view(seed),
                ) + locked_of_response(resp),
            Err(e) => e matches LockedManifestError::ResolveFailed(_) && exists|msg: Seq<char>|
                #[trigger] C::resolve_rel(
                    *old(client),
                    seq![resolve_request(manifest@, seed_view(seed))],
                    Err(msg),
                    *final(client),
                ),
        },
{
    let ghost mv = manifest@;
    let ghost seedv = seed_view(seed);

    // keep what the seed already pins
    let mut kept: Vec<LockedPackage> = Vec::new();
    match seed {
        None => {},
        Some(s) => {
            let ghost sv = s@;
            let mut i: usize = 0;
            while i < s.packages.len()
                invariant
                    i <= s.packages.len(),
                    sv == s@,
                    mv == manifest@,
                    kept@.map_values(|p: LockedPackage| p@) == sv.packages.subrange(
                        0,
                        i as int,
                    ).filter(kept_pred(mv, sv.manifest)),
                decreases s.packages.len() - i,
            {
                let p = &s.packages[i];
                proof {
                    assert(sv.packages[i as int] == s.packages@[i as int]@);
                }
                let in_new = lookup_entry(&manifest.install, &p.install_id);
                let in_seed = lookup_entry(&s.manifest.install, &p.install_id);
                let keep = in_new.is_some() && crate::manifest::opt_string_eq(&in_new, &in_seed);
                if keep {
                    kept.push(s.packages[i].clone());
                }
                proof {
                    assert(keep == pkg_kept(mv, sv.manifest, sv.packages[i as int]));
                    lemma_filter_push(
                        sv.packages.subrange(0, i as int),
                        kept_pred(mv, sv.manifest),
                        sv.packages[i as int],
                    );
                    assert(sv.packages.subrange(0, i as int).push(sv.packages[i as int])
                        =~= sv.packages.subrange(0, i as int + 1));
                    if keep {
                        assert(kept@.map_values(|p: LockedPackage| p@) =~= sv.packages.subrange(
                            0,
                            i as int,
                        ).filter(kept_pred(mv, sv.manifest)).push(sv.packages[i as int]));
                    }
                }
                i = i + 1;
            }
            proof {
                assert(sv.packages.subrange(0, sv.packages.len() as int) =~= sv.packages);
            }
        },
    }
    assert(kept@.map_values(|p: LockedPackage| p@) == kept_packages(mv, seedv));

    // collect the entries the seed does not pin
    let mut to_resolve: Vec<(String, String)> = Vec::new();
    let mut i: usize = 0;
    while i < manifest.install.len()
        invariant
            i <= manifest.install.len(),
            mv == manifest@,
            seedv == seed_view(seed),
            to_resolve@.map_values(|p: (String, String)| (p.0@, p.1@)) == mv.install.subrange(
                0,
                i as int,
            ).filter(resolve_pred(mv, seedv)),
        decreases manifest.install.len() - i,
    {
        proof {
            assert(mv.install[i as int] == (manifest.install@[i as int].0@, manifest.install@[
                i as int
            ].1@));
        }
        let pinned = match seed {
            Some(s) => is_pinned_exec(manifest, s, &manifest.install[i].0),
            None => false,
        };
        if !pinned {
            to_resolve.push((manifest.install[i].0.clone(), manifest.install[i].1.clone()));
        }
        proof {
            lemma_filter_push(
                mv.install.subrange(0, i as int),
                resolve_pred(mv, seedv),
                mv.install[i as int],
            );
            assert(mv.install.subrange(0, i as int).push(mv.install[i as int]) =~= mv
                .install.subrange(0, i as int + 1));
            if !pinned {
                assert(to_resolve@.map_values(|p: (String, String)| (p.0@, p.1@)) =~= mv
                    .install.subrange(0, i as int).filter(resolve_pred(mv, seedv)).push(
                    mv.install[i as int],
                ));
            }
        }
        i = i + 1;
    }
    proof {
        assert(mv.install.subrange(0, mv.install.len() as int) =~= mv.install);
    }

    let group = PackageGroup { name: String::from_str("toplevel"), descriptors: to_resolve };
    let mut groups: Vec<PackageGroup> = Vec::new();
    groups.push(group);
    proof {
        assert(groups@.map_values(|g: PackageGroup| g@) =~= seq![resolve_request(mv, seedv)]);
    }

    let outcome = client.resolve(&groups);
    match outcome {
        Err(msg) => {
            proof {
                assert(C::resolve_rel(
                    *old(client),
                    seq![resolve_request(mv, seedv)],
                    Err(msg@),
                    *client,
                ));
            }
            Err(LockedManifestError::ResolveFailed(msg))
        },
        Ok(resolved) => {
            let ghost respv = resolved@.map_values(|g: ResolvedPackageGroup| g@);
            let ghost keptv = kept@.map_values(|p: LockedPackage| p@);
            let mut locked = kept;
            let mut remaining = resolved;
            while remaining.len() > 0
                invariant
                    locked@.map_values(|p: LockedPackage| p@) + locked_of_response(
                        remaining@.map_values(|g: ResolvedPackageGroup| g@),
                    ) == keptv + locked_of_response(respv),
                decreases remaining.len(),
            {
                let ghost remv = remaining@.map_values(|g: ResolvedPackageGroup| g@);
                let g = remaining.remove(0);
                proof {
                    assert(remaining@.map_values(|g: ResolvedPackageGroup| g@) =~= remv
                        .drop_first());
                    assert(remv.first() == g@);
                }
                let ResolvedPackageGroup { name, pages, system } = g;
                let mut pgs = pages;
                let ghost gname = name@;
                let ghost gsystem = system@;
                while pgs.len() > 0
                    invariant
                        gname == name@,
                        gsystem == system@,
                        locked@.map_values(|p: LockedPackage| p@) + locked_of_pages(
                            pgs@.map_values(|p: CatalogPage| p@),
                            gname,
                            gsystem,
                        ) + locked_of_response(
                            remaining@.map_values(|g: ResolvedPackageGroup| g@),
                        ) == keptv + locked_of_response(respv),
                    decreases pgs.len(),
                {
                    let ghost pgsv = pgs@.map_values(|p: CatalogPage| p@);
                    let page = pgs.remove(0);
                    proof {
                        assert(pgs@.map_values(|p: CatalogPage| p@) =~= pgsv.drop_first());
                        assert(pgsv.first() == page@);
                    }
                    match page.packages {
                        None => {},
                        Some(ds) => {
                            let mut dss = ds;
                            while dss.len() > 0
                                invariant
                                    gname == name@,
                                    gsystem == system@,
                                    locked@.map_values(|p: LockedPackage| p@) + dss@.map_values(
                                        |d: ResolvedPackageDescriptor| d@,
                                    ).map_values(
                                        |d: ResolvedPackageDescriptorV| locked_of(
                                            d,
                                            gname,
                                            gsystem,
                                        ),
                                    ) + locked_of_pages(
                                        pgs@.map_values(|p: CatalogPage| p@),
                                        gname,
                                        gsystem,
                                    ) + locked_of_response(
                                        remaining@.map_values(|g: ResolvedPackageGroup| g@),
                                    ) == keptv + locked_of_response(respv),
                                decreases dss.len(),
                            {
                                let ghost dssv = dss@.map_values(
                                    |d: ResolvedPackageDescriptor| d@,
                                );
                                let d = dss.remove(0);
                                proof {
                                    assert(dss@.map_values(|d: ResolvedPackageDescriptor| d@)
                                        =~= dssv.drop_first());
                                    assert(dssv.first() == d@);
                                }
                                let lp = lock_package(d, &name, &system);
                                locked.push(lp);
                                proof {
                                    assert(locked@.map_values(|p: LockedPackage| p@) =~= locked@
                                        .map_values(|p: LockedPackage| p@).drop_last().push(
                                        locked_of(dssv.first(), gname, gsystem),
                                    ));
                                    assert(dssv.map_values(
                                        |d: ResolvedPackageDescriptorV| locked_of(
                                            d,
                                            gname,
                                            gsystem,
                                        ),
                                    ) =~= seq![locked_of(dssv.first(), gname, gsystem)]
                                        + dssv.drop_first().map_values(
                                        |d: ResolvedPackageDescriptorV| locked_of(
                                            d,
                                            gname,
                                            gsystem,
                                        ),
                                    ));
                                }
                            }
                        },
                    }
                }
            }
            proof {
                assert(locked@.map_values(|p: LockedPackage| p@) =~= keptv + locked_of_response(
                    respv,
                ));
            }
            let lock = CatalogLock { version: 1, manifest: manifest.clone(), packages: locked };
            proof {
                assert(C::resolve_rel(
                    *old(client),
                    seq![resolve_request(mv, seedv)],
                    Ok(respv),
                    *client,
                ));
            }
            Ok(lock)
        },
    }
}

/// The first seed package pinning this install-id to another derivation.
pub open spec fn find_changed(prev: Seq<LockedPackageV>, pkg: LockedPackageV) -> Option<
    LockedPackageV,
>
    decreases prev.len(),
{
    if prev.len() == 0 {
        None
    } else if prev.first().install_id == pkg.install_id && prev.first().derivation
        != pkg.derivation {
        Some(prev.first())
    } else {
        find_changed(prev.drop_first(), pkg)
    }
}

/// The (before, after) pairs of packages whose derivation changed between
/// two package lists, in the order of the new list.
pub open spec fn diff_pairs(prev: Seq<LockedPackageV>, new: Seq<LockedPackageV>) -> Seq<
    (LockedPackageV, LockedPackageV),
>
    decreases new.len(),
{
    if new.len() == 0 {
        Seq::empty()
    } else {
        (match find_changed(prev, new.first()) {
            Some(p) => seq![(p, new.first())],
            None => Seq::empty(),
        }) + diff_pairs(prev, new.drop_first())
    }
}

/// Find the first previous package pinning this install-id to another
/// derivation.
fn find_changed_exec(prev: &Vec<LockedPackage>, pkg: &LockedPackage) -> (r: Option<LockedPackage>)
    ensures
        match r {
            Some(p) => find_changed(prev@.map_values(|q: LockedPackage| q@), pkg@) == Some(p@),
            None => find_changed(prev@.map_values(|q: LockedPackage| q@), pkg@) is None,
        },
{
    let ghost prevv = prev@.map_values(|q: LockedPackage| q@);
    proof {
        assert(prevv.subrange(0, prevv.len() as int) =~= prevv);
    }
    let mut i: usize = 0;
    while i < prev.len()
        invariant
            i <= prev.len(),
            prevv == prev@.map_values(|q: LockedPackage| q@),
            find_changed(prevv, pkg@) == find_changed(
                prevv.subrange(i as int, prevv.len() as int),
                pkg@,
            ),
        decreases prev.len() - i,
    {
        let ghost rest = prevv.subrange(i as int, prevv.len() as int);
        let p = &prev[i];
        proof {
            assert(rest.first() == prevv[i as int]);
            assert(rest.drop_first() =~= prevv.subrange(i as int + 1, prevv.len() as int));
        }
        if p.install_id == pkg.install_id && !(p.derivation == pkg.derivation) {
            return Some(prev[i].clone());
        }
        i = i + 1;
    }
    None
}

/// Collect the (before, after) pairs of packages whose derivation changed.
pub fn package_diff(prev: &Vec<LockedPackage>, new: &Vec<LockedPackage>) -> (r: Vec<
    (LockedPackage, LockedPackage),
>)
    ensures
        r@.map_values(|q: (LockedPackage, LockedPackage)| (q.0@, q.1@)) == diff_pairs(
            prev@.map_values(|q: LockedPackage| q@),
            new@.map_values(|q: LockedPackage| q@),
        ),
{
    let ghost prevv = prev@.map_values(|q: LockedPackage| q@);
    let ghost newv = new@.map_values(|q: LockedPackage| q@);
    proof {
        assert(newv.subrange(0, newv.len() as int) =~= newv);
    }
    let mut out: Vec<(LockedPackage, LockedPackage)> = Vec::new();
    let mut i: usize = 0;
    while i < new.len()
        invariant
            i <= new.len(),
            prevv == prev@.map_values(|q: LockedPackage| q@),
            newv == new@.map_values(|q: LockedPackage| q@),
            out@.map_values(|q: (LockedPackage, LockedPackage)| (q.0@, q.1@)) + diff_pairs(
                prevv,
                newv.subrange(i as int, newv.len() as int),
            ) == diff_pairs(prevv, newv),
        decreases new.len() - i,
    {
        let ghost rest = newv.subrange(i as int, newv.len() as int);
        proof {
            assert(rest.first() == newv[i as int]);
            assert(rest.drop_first() =~= newv.subrange(i as int + 1, newv.len() as int));
            assert(newv[i as int] == new@[i as int]@);
        }
        match find_changed_exec(prev, &new[i]) {
            Some(p) => {
                out.push((p, new[i].clone()));
                proof {
                    assert(out@.map_values(|q: (LockedPackage, LockedPackage)| (q.0@, q.1@)) =~= out@
                        .map_values(|q: (LockedPackage, LockedPackage)| (q.0@, q.1@)).drop_last()
                        .push((find_changed(prevv, rest.first()).unwrap(), rest.first())));
                }
            },
            None => {},
        }
        i = i + 1;
    }
    proof {
        assert(newv.subrange(newv.len() as int, newv.len() as int).len() == 0);
    }
    out
}

/// Turn one resolved descriptor into a locked package for a group and
/// system.
pub fn lock_package(d: ResolvedPackageDescriptor, group: &String, system: &String) -> (p:
    LockedPackage)
    ensures
        p@ == locked_of(d@, group@, system@),
{
    LockedPackage {
        install_id: d.install_id,
        group: group.clone(),
        system: system.clone(),
        attr_path: d.attr_path,
        broken: d.broken,
        derivation: d.derivation,
        description: d.description,
        license: d.license,
        locked_url: d.locked_url,
        name: d.name,
        outputs: d.outputs,
        outputs_to_install: d.outputs_to_install,
        pname: d.pname,
        rev: d.rev,
        rev_count: d.rev_count,
        rev_date: d.rev_date,
        scrape_date: d.scrape_date,
        unfree: d.unfree,
        version: d.version,
    }
}

} // verus!
