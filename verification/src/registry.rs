//! The library handle registry: one handle per resolved path, opened at
//! most once, held for the process lifetime.
//!
//! A handle is an index into the registry's list of opened paths.  The
//! list only ever grows — a library once opened is never unloaded, so
//! addresses resolved from it stay valid — and acquiring a path that is
//! already registered hands the existing handle back without going to
//! the OS loader again.  The number of loader invocations ever made is
//! therefore exactly the number of registered paths.

use vstd::prelude::*;

use crate::host::HostWorld;

verus! {

/// Why a library could not be acquired.
#[derive(Clone, Copy, Debug, PartialEq, Eq, Structural)]
pub enum LoadError {
    /// The OS loader cannot resolve the path (or one of the library's
    /// transitive dependencies).
    NotFound,
}

/// The registry of opened libraries.  A `usize` handle names the
/// library at that index.
#[derive(Clone, Debug)]
pub struct LibraryRegistry {
    /// Paths opened so far, in the order they were first acquired.
    pub paths: Vec<Vec<u8>>,
}

impl LibraryRegistry {
    /// The registered paths as plain byte strings.
    pub open spec fn spec_paths(self) -> Seq<Seq<u8>> {
        self.paths@.map_values(|p: Vec<u8>| p@)
    }

    /// True when a handle for `path` exists already.
    pub open spec fn spec_registered(self, path: Seq<u8>) -> bool {
        self.spec_paths().contains(path)
    }

    /// True when `h` names a registered library.
    pub open spec fn spec_valid_handle(self, h: int) -> bool {
        0 <= h < self.spec_paths().len()
    }

    /// The handle registered for `path`.  Meaningful when
    /// [`Self::spec_registered`] holds.
    pub open spec fn spec_handle_of(self, path: Seq<u8>) -> int {
        choose|h: int| 0 <= h < self.spec_paths().len() && self.spec_paths()[h] == path
    }

    /// With at most one handle per path, any handle carrying `path` is
    /// the registered one.
    pub proof fn lemma_handle_of(self, path: Seq<u8>, h: int)
        requires
            self.wf(),
            self.spec_valid_handle(h),
            self.spec_paths()[h] == path,
        ensures
            self.spec_handle_of(path) == h,
            self.spec_registered(path),
    {
        assert(exists|k: int| 0 <= k < self.spec_paths().len() && self.spec_paths()[k] == path);
        let w = self.spec_handle_of(path);
        assert(0 <= w < self.spec_paths().len() && self.spec_paths()[w] == path);
        if w != h {
            if w < h {
                assert(self.spec_paths()[w] != self.spec_paths()[h]);
            } else {
                assert(self.spec_paths()[h] != self.spec_paths()[w]);
            }
        }
    }

    /// Each path has at most one handle.
    pub open spec fn wf(self) -> bool {
        forall|i: int, j: int|
            0 <= i < j < self.spec_paths().len() ==> self.spec_paths()[i] != self.spec_paths()[j]
    }

    /// Every registered path is one the world's loader can resolve.
    pub open spec fn spec_coupled(self, world: HostWorld) -> bool {
        forall|h: int|
            0 <= h < self.spec_paths().len() ==> world.spec_has_lib(#[trigger] self.spec_paths()[h])
    }

    /// A registry with nothing opened yet.
    pub fn new() -> (r: Self)
        ensures
            r.spec_paths() == Seq::<Seq<u8>>::empty(),
            r.wf(),
    {
        let r = LibraryRegistry { paths: Vec::new() };
        proof {
            assert(r.spec_paths() =~= Seq::<Seq<u8>>::empty());
        }
        r
    }

    /// Number of libraries opened so far: one OS load each, ever.
    pub fn opened(&self) -> (r: usize)
        ensures
            r == self.spec_paths().len(),
    {
        self.paths.len()
    }

    /// Hands back the handle registered for `path`, if one exists.
    /// Consults nothing but the registry's own state.
    pub fn lookup(&self, path: &[u8]) -> (r: Option<usize>)
        ensures
            r is Some <==> self.spec_registered(path@),
            r matches Some(h) ==> self.spec_valid_handle(h as int) && self.spec_paths()[h as int]
                == path@,
    {
        let n = self.paths.len();
        let mut i: usize = 0;
        while i < n
            invariant
                n == self.paths@.len(),
                i <= n,
                forall|j: int| 0 <= j < i ==> self.spec_paths()[j] != path@,
            decreases n - i,
        {
            if crate::bytes::bytes_eq(self.paths[i].as_slice(), path) {
                proof {
                    assert(self.spec_paths()[i as int] == path@);
                }
                return Some(i);
            }
            i = i + 1;
        }
        proof {
            if self.spec_registered(path@) {
                let w = choose|j: int|
                    0 <= j < self.spec_paths().len() && self.spec_paths()[j] == path@;
                assert(self.spec_paths()[w] == path@);
            }
        }
        None
    }

    /// Acquires a handle for `path`: idempotent per path.  A second
    /// acquisition of an equal path returns the existing handle and
    /// leaves the registry — and so the count of OS loads — unchanged.
    /// Fails with [`LoadError::NotFound`] exactly when the loader cannot
    /// resolve the path.
    pub fn acquire(&mut self, world: &HostWorld, path: &[u8]) -> (r: Result<usize, LoadError>)
        requires
            old(self).wf(),
        ensures
            final(self).wf(),
            old(self).spec_coupled(*world) ==> final(self).spec_coupled(*world),
            r is Ok <==> (old(self).spec_registered(path@) || world.spec_has_lib(path@)),
            r matches Ok(h) ==> final(self).spec_valid_handle(h as int)
                && final(self).spec_paths()[h as int] == path@,
            old(self).spec_registered(path@) ==> *final(self) == *old(self),
            r is Err ==> r == Err::<usize, LoadError>(LoadError::NotFound) && *final(self)
                == *old(self),
            !old(self).spec_registered(path@) && world.spec_has_lib(path@)
                ==> final(self).spec_paths() == old(self).spec_paths().push(path@),
            final(self).spec_paths().len() >= old(self).spec_paths().len(),
    {
        if let Some(h) = self.lookup(path) {
            return Ok(h);
        }
        match world.find(path) {
            Some(_) => {
                let n = self.paths.len();
                let owned = crate::bytes::to_owned_bytes(path);
                self.paths.push(owned);
                proof {
                    assert(self.spec_paths() =~= old(self).spec_paths().push(path@));
                }
                Ok(n)
            },
            None => Err(LoadError::NotFound),
        }
    }
}

} // verus!
