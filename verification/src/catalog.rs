//! The catalog resolver: a client capability consumed by the core.
//!
//! `resolve` turns package groups from the manifest into fully resolved
//! descriptors.  The trait is implemented by callers; the scripted
//! `MockClient` serves tests and offline use.

use vstd::prelude::*;

use crate::manifest::opt_string_view;

verus! {

/// A resolution request: a named group of (install-id, descriptor) pairs
/// to resolve, mirrored from the manifest's `install` table.
pub struct PackageGroup {
    pub name: String,
    pub descriptors: Vec<(String, String)>,
}

/// Mathematical model of a resolution request.
pub struct PackageGroupV {
    pub name: Seq<char>,
    pub descriptors: Seq<(Seq<char>, Seq<char>)>,
}

impl View for PackageGroup {
    type V = PackageGroupV;

    open spec fn view(&self) -> PackageGroupV {
        PackageGroupV {
            name: self.name@,
            descriptors: self.descriptors@.map_values(|p: (String, String)| (p.0@, p.1@)),
        }
    }
}

/// One resolved package as the catalog reports it.
pub struct ResolvedPackageDescriptor {
    pub attr_path: String,
    pub broken: bool,
    pub derivation: String,
    pub description: Option<String>,
    pub install_id: String,
    pub license: Option<String>,
    pub locked_url: String,
    pub name: String,
    pub outputs: Option<Vec<String>>,
    pub outputs_to_install: Option<Vec<String>>,
    pub pname: String,
    pub rev: String,
    pub rev_count: u64,
    pub rev_date: String,
    pub scrape_date: String,
    pub stabilities: Option<Vec<String>>,
    pub unfree: Option<bool>,
    pub version: String,
}

/// Mathematical model of a resolved package descriptor.
pub struct ResolvedPackageDescriptorV {
    pub attr_path: Seq<char>,
    pub broken: bool,
    pub derivation: Seq<char>,
    pub description: Option<Seq<char>>,
    pub install_id: Seq<char>,
    pub license: Option<Seq<char>>,
    pub locked_url: Seq<char>,
    pub name: Seq<char>,
    pub outputs: Option<Seq<Seq<char>>>,
    pub outputs_to_install: Option<Seq<Seq<char>>>,
    pub pname: Seq<char>,
    pub rev: Seq<char>,
    pub rev_count: u64,
    pub rev_date: Seq<char>,
    pub scrape_date: Seq<char>,
    pub stabilities: Option<Seq<Seq<char>>>,
    pub unfree: Option<bool>,
    pub version: Seq<char>,
}

/// The view of an `Option<Vec<String>>` as an optional sequence of
/// character sequences.
pub open spec fn opt_strings_view(o: &Option<Vec<String>>) -> Option<Seq<Seq<char>>> {
    match o {
        Some(v) => Some(v@.map_values(|s: String| s@)),
        None => None,
    }
}

impl View for ResolvedPackageDescriptor {
    type V = ResolvedPackageDescriptorV;

    open spec fn view(&self) -> ResolvedPackageDescriptorV {
        ResolvedPackageDescriptorV {
            attr_path: self.attr_path@,
            broken: self.broken,
            derivation: self.derivation@,
            description: opt_string_view(&self.description),
            install_id: self.install_id@,
            license: opt_string_view(&self.license),
            locked_url: self.locked_url@,
            name: self.name@,
            outputs: opt_strings_view(&self.outputs),
            outputs_to_install: opt_strings_view(&self.outputs_to_install),
            pname: self.pname@,
            rev: self.rev@,
            rev_count: self.rev_count,
            rev_date: self.rev_date@,
            scrape_date: self.scrape_date@,
            stabilities: opt_strings_view(&self.stabilities),
            unfree: self.unfree,
            version: self.version@,
        }
    }
}

/// One page of resolved packages for a group.
pub struct CatalogPage {
    pub packages: Option<Vec<ResolvedPackageDescriptor>>,
    pub page: u64,
    pub url: String,
}

/// Mathematical model of a catalog page.
pub struct CatalogPageV {
    pub packages: Option<Seq<ResolvedPackageDescriptorV>>,
    pub page: u64,
    pub url: Seq<char>,
}

impl View for CatalogPage {
    type V = CatalogPageV;

    open spec fn view(&self) -> CatalogPageV {
        CatalogPageV {
            packages: match self.packages {
                Some(ref v) => Some(v@.map_values(|d: ResolvedPackageDescriptor| d@)),
                None => None,
            },
            page: self.page,
            url: self.url@,
        }
    }
}

/// The resolution of one group: pages of resolved descriptors for one
/// target system.
pub struct ResolvedPackageGroup {
    pub name: String,
    pub pages: Vec<CatalogPage>,
    pub system: String,
}

/// Mathematical model of a resolved group.
pub struct ResolvedPackageGroupV {
    pub name: Seq<char>,
    pub pages: Seq<CatalogPageV>,
    pub system: Seq<char>,
}

impl View for ResolvedPackageGroup {
    type V = ResolvedPackageGroupV;

    open spec fn view(&self) -> ResolvedPackageGroupV {
        ResolvedPackageGroupV {
            name: self.name@,
            pages: self.pages@.map_values(|p: CatalogPage| p@),
            system: self.system@,
        }
    }
}

/// The view of a resolution outcome: resolved groups on success, the
/// client's message on failure.
pub open spec fn resolve_outcome_view(
    r: &Result<Vec<ResolvedPackageGroup>, String>,
) -> Result<Seq<ResolvedPackageGroupV>, Seq<char>> {
    match r {
        Ok(groups) => Ok(groups@.map_values(|g: ResolvedPackageGroup| g@)),
        Err(msg) => Err(msg@),
    }
}

/// A catalog client: resolves package groups to resolved descriptors.
///
/// What a resolution returns depends on the catalog's state, so the trait
/// promises nothing about the outcome beyond each implementation's own
/// `resolve_rel`.
pub trait ClientTrait: Sized {
    /// The relation each implementation maintains between its state before
    /// a resolution, the request, the outcome, and its state after.
    spec fn resolve_rel(
        pre: Self,
        groups: Seq<PackageGroupV>,
        outcome: Result<Seq<ResolvedPackageGroupV>, Seq<char>>,
        post: Self,
    ) -> bool;

    /// Resolve the groups, in one blocking call.
    fn resolve(&mut self, groups: &Vec<PackageGroup>) -> (r: Result<
        Vec<ResolvedPackageGroup>,
        String,
    >)
        ensures
            Self::resolve_rel(
                *old(self),
                groups@.map_values(|g: PackageGroup| g@),
                resolve_outcome_view(&r),
                *final(self),
            ),
    ;
}

/// A scripted catalog client: answers each resolution with the next queued
/// response, front first, and fails once the queue is empty.
pub struct MockClient {
    pub responses: Vec<Result<Vec<ResolvedPackageGroup>, String>>,
}

impl MockClient {
    /// A mock client with no scripted responses.
    pub fn new() -> (r: MockClient)
        ensures
            r.responses@.len() == 0,
    {
        MockClient { responses: Vec::new() }
    }

    /// Queue a successful resolution response.
    pub fn push_resolve_response(&mut self, response: Vec<ResolvedPackageGroup>)
        ensures
            final(self).responses@ == old(self).responses@.push(Ok(response)),
    {
        self.responses.push(Ok(response));
    }
}

impl ClientTrait for MockClient {
    open spec fn resolve_rel(
        pre: Self,
        groups: Seq<PackageGroupV>,
        outcome: Result<Seq<ResolvedPackageGroupV>, Seq<char>>,
        post: Self,
    ) -> bool {
        if pre.responses@.len() == 0 {
            outcome is Err && post.responses@ == pre.responses@
        } else {
            outcome == resolve_outcome_view(&pre.responses@[0])
                && post.responses@ == pre.responses@.drop_first()
        }
    }

    fn resolve(&mut self, groups: &Vec<PackageGroup>) -> (r: Result<
        Vec<ResolvedPackageGroup>,
        String,
    >) {
        if self.responses.len() == 0 {
            Err(String::from_str("mock client has no scripted response"))
        } else {
            let r = self.responses.remove(0);
            assert(final(self).responses@ =~= old(self).responses@.drop_first());
            r
        }
    }
}

/// The catalog client configured on the runtime context.
pub enum Client {
    Mock(MockClient),
}

impl ClientTrait for Client {
    open spec fn resolve_rel(
        pre: Self,
        groups: Seq<PackageGroupV>,
        outcome: Result<Seq<ResolvedPackageGroupV>, Seq<char>>,
        post: Self,
    ) -> bool {
        match (pre, post) {
            (Client::Mock(m0), Client::Mock(m1)) => MockClient::resolve_rel(
                m0,
                groups,
                outcome,
                m1,
            ),
        }
    }

    fn resolve(&mut self, groups: &Vec<PackageGroup>) -> (r: Result<
        Vec<ResolvedPackageGroup>,
        String,
    >) {
        match self {
            Client::Mock(m) => m.resolve(groups),
        }
    }
}

impl From<MockClient> for Client {
    fn from(m: MockClient) -> (r: Client) {
        Client::Mock(m)
    }
}

impl vstd::std_specs::convert::FromSpecImpl<MockClient> for Client {
    open spec fn obeys_from_spec() -> bool {
        true
    }

    open spec fn from_spec(m: MockClient) -> Client {
        Client::Mock(m)
    }
}

} // verus!
