//! The directory store: the transaction engine's model of the environment
//! directories it manages.
//!
//! A store maps a directory path to that directory's contents: the manifest
//! text and, when the environment has been locked, the lockfile.  Every
//! operation of the engine is specified as an update of this map, so the
//! atomicity guarantees are stated — and proved — as equalities between the
//! store before and after a call.  An embedding outside the library mirrors
//! the store onto a real filesystem.

use vstd::prelude::*;

use crate::lockfile::{Lockfile, LockfileV};

verus! {

/// The contents of one environment directory: the manifest text, and the
/// lockfile when one exists.
#[derive(Debug)]
pub struct EnvContents {
    pub manifest: String,
    pub lock: Option<Lockfile>,
}

/// Mathematical model of a directory's contents.
pub struct EnvContentsV {
    pub manifest: Seq<char>,
    pub lock: Option<LockfileV>,
}

impl View for EnvContents {
    type V = EnvContentsV;

    open spec fn view(&self) -> EnvContentsV {
        EnvContentsV {
            manifest: self.manifest@,
            lock: match self.lock {
                Some(ref l) => Some(l@),
                None => None,
            },
        }
    }
}

impl Clone for EnvContents {
    fn clone(&self) -> (res: Self)
        ensures
            res@ == self@,
    {
        EnvContents {
            manifest: self.manifest.clone(),
            lock: match &self.lock {
                Some(l) => Some(l.clone()),
                None => None,
            },
        }
    }
}

/// A store of directories, keyed by path.
pub struct Vfs {
    paths: Vec<String>,
    dirs: Vec<EnvContents>,
}

impl Vfs {
    /// Validity of the store's representation: one entry per path, no path
    /// twice.  Established by `new` and kept by every operation.
    pub closed spec fn wf(self) -> bool {
        &&& self.paths@.len() == self.dirs@.len()
        &&& forall|i: int, j: int|
            0 <= i < j < self.paths@.len() ==> self.paths@[i]@ != self.paths@[j]@
    }
}

impl View for Vfs {
    type V = Map<Seq<char>, EnvContentsV>;

    closed spec fn view(&self) -> Map<Seq<char>, EnvContentsV> {
        Map::new(
            |k: Seq<char>| self.paths@.map_values(|p: String| p@).contains(k),
            |k: Seq<char>|
                self.dirs@[self.paths@.map_values(|p: String| p@).index_of(k)]@,
        )
    }
}

impl Vfs {
    /// An empty store.
    pub fn new() -> (r: Vfs)
        ensures
            r.wf(),
            r@ == Map::<Seq<char>, EnvContentsV>::empty(),
    {
        let r = Vfs { paths: Vec::new(), dirs: Vec::new() };
        proof {
            assert(r@ =~= Map::<Seq<char>, EnvContentsV>::empty());
        }
        r
    }

    /// The index holding a path, if the path is in the store.
    fn find(&self, path: &String) -> (r: Option<usize>)
        requires
            self.wf(),
        ensures
            match r {
                Some(i) => i < self.paths@.len() && self.paths@[i as int]@ == path@,
                None => !self@.dom().contains(path@),
            },
    {
        let mut i: usize = 0;
        while i < self.paths.len()
            invariant
                i <= self.paths@.len(),
                forall|j: int| 0 <= j < i ==> self.paths@[j]@ != path@,
            decreases self.paths@.len() - i,
        {
            if self.paths[i] == *path {
                return Some(i);
            }
            i = i + 1;
        }
        proof {
            assert(!self.paths@.map_values(|p: String| p@).contains(path@));
        }
        None
    }

    /// Whether a directory exists at this path.
    pub fn contains(&self, path: &String) -> (r: bool)
        requires
            self.wf(),
        ensures
            r == self@.dom().contains(path@),
    {
        match self.find(path) {
            Some(i) => {
                proof {
                    assert(self.paths@.map_values(|p: String| p@)[i as int] == path@);
                }
                true
            },
            None => false,
        }
    }

    /// The contents of the directory at this path, if one exists.
    pub fn get(&self, path: &String) -> (r: Option<&EnvContents>)
        requires
            self.wf(),
        ensures
            match r {
                Some(c) => self@.dom().contains(path@) && c@ == self@[path@],
                None => !self@.dom().contains(path@),
            },
    {
        match self.find(path) {
            Some(i) => {
                proof {
                    let ps = self.paths@.map_values(|p: String| p@);
                    assert(ps[i as int] == path@);
                    assert(ps.contains(path@));
                    let j = ps.index_of(path@);
                    assert(ps[j] == path@);
                    assert(j == i);
                }
                Some(&self.dirs[i])
            },
            None => None,
        }
    }

    /// Create or replace the directory at this path.
    pub fn insert(&mut self, path: String, contents: EnvContents)
        requires
            old(self).wf(),
        ensures
            final(self).wf(),
            final(self)@ == old(self)@.insert(path@, contents@),
    {
        let idx = self.find(&path);
        match idx {
            Some(i) => {
                self.dirs[i] = contents;
                proof {
                    let ps = self.paths@.map_values(|p: String| p@);
                    assert(self.paths@ == old(self).paths@);
                    assert(self.dirs@.len() == old(self).dirs@.len());
                    assert(final(self).wf());
                    assert(ps[i as int] == path@);
                    assert forall|k: Seq<char>|
                        final(self)@.dom().contains(k) == old(self)@.insert(
                            path@,
                            contents@,
                        ).dom().contains(k) by {}
                    assert(final(self)@ =~= old(self)@.insert(path@, contents@));
                }
            },
            None => {
                self.paths.push(path);
                self.dirs.push(contents);
                proof {
                    let ps0 = old(self).paths@.map_values(|p: String| p@);
                    let ps1 = self.paths@.map_values(|p: String| p@);
                    assert(ps1 =~= ps0.push(ps1.last()));
                    assert forall|a: int, b: int|
                        0 <= a < b < self.paths@.len() implies self.paths@[a]@ != self
                        .paths@[b]@ by {
                        if b == self.paths@.len() - 1 {
                            assert(ps0[a] == self.paths@[a]@);
                            assert(!ps0.contains(path@));
                        }
                    }
                    assert(final(self).wf());
                    assert forall|k: Seq<char>| ps1.contains(k) implies (ps0.contains(k) || k
                        == ps1.last()) by {
                        let w = choose|w: int| 0 <= w < ps1.len() && ps1[w] == k;
                        if w < ps0.len() {
                            assert(ps0[w] == k);
                        }
                    }
                    assert forall|k: Seq<char>|
                        final(self)@.dom().contains(k) implies old(self)@.insert(
                        path@,
                        contents@,
                    ).dom().contains(k) by {}
                    assert forall|k: Seq<char>|
                        old(self)@.insert(path@, contents@).dom().contains(k) implies final(self)@.dom().contains(k) by {
                        if k != path@ {
                            let w = choose|w: int| 0 <= w < ps0.len() && ps0[w] == k;
                            assert(ps1[w] == k);
                        } else {
                            assert(ps1.last() == k);
                        }
                    }
                    assert forall|k: Seq<char>| final(self)@.dom().contains(k) implies final(self)@[k] == old(self)@.insert(path@, contents@)[k] by {
                        let i = ps1.index_of(k);
                        assert(ps1[i] == k);
                        if k == path@ {
                            assert(i == ps1.len() - 1);
                        } else {
                            assert(i < ps0.len());
                            assert(ps0.index_of(k) == i);
                        }
                    }
                    assert(final(self)@ =~= old(self)@.insert(path@, contents@));
                }
            },
        }
    }

    /// Remove the directory at this path; absent paths are left as they
    /// are.
    pub fn remove(&mut self, path: &String)
        requires
            old(self).wf(),
        ensures
            final(self).wf(),
            final(self)@ == old(self)@.remove(path@),
    {
        let idx = self.find(path);
        match idx {
            Some(i) => {
                self.paths.remove(i);
                self.dirs.remove(i);
                proof {
                    let ps0 = old(self).paths@.map_values(|p: String| p@);
                    let ps1 = self.paths@.map_values(|p: String| p@);
                    assert(ps1 =~= ps0.remove(i as int));
                    assert forall|k: Seq<char>| ps1.contains(k) implies ps0.contains(k) && k
                        != path@ by {
                        let w = choose|w: int| 0 <= w < ps1.len() && ps1[w] == k;
                        if w < i {
                            assert(ps0[w] == k);
                        } else {
                            assert(ps0[w + 1] == k);
                        }
                    }
                    assert forall|k: Seq<char>| ps0.contains(k) && k != path@ implies ps1
                        .contains(k) by {
                        let w = choose|w: int| 0 <= w < ps0.len() && ps0[w] == k;
                        if w < i {
                            assert(ps1[w] == k);
                        } else {
                            assert(w > i);
                            assert(ps1[w - 1] == k);
                        }
                    }
                    assert forall|k: Seq<char>| final(self)@.dom().contains(k) implies final(self)@[k] == old(self)@.remove(path@)[k] by {
                        let w = ps1.index_of(k);
                        assert(ps1[w] == k);
                        let w0 = ps0.index_of(k);
                        assert(ps0[w0] == k);
                        if w < i {
                            assert(ps0[w] == k);
                            assert(w0 == w);
                        } else {
                            assert(ps0[w + 1] == k);
                            assert(w0 == w + 1);
                        }
                    }
                    assert(final(self)@ =~= old(self)@.remove(path@));
                }
            },
            None => {
                proof {
                    assert(final(self)@ =~= old(self)@.remove(path@));
                }
            },
        }
    }
}

} // verus!
