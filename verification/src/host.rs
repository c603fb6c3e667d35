//! The model of the foreign side of the boundary.
//!
//! To state what the binding layer does, the foreign runtime is described
//! as plain data: a library is its path, its export table and its
//! factory's version table; every foreign address is a `u64` that the
//! host guarantees non-null when it answers at all.  The verified
//! protocol functions run against this description, and a test can build
//! one under its own control.

use vstd::prelude::*;

verus! {

/// One entry of a name-to-address table: an exported symbol of a
/// library, or a version string a factory answers with an interface
/// instance.
#[derive(Clone, Debug)]
pub struct Export {
    /// The name, as plain bytes without a terminator.
    pub name: Vec<u8>,
    /// The non-null address the foreign side answers for the name.
    pub address: u64,
}

/// First address a table answers for `name`, if any.
pub open spec fn spec_lookup(es: Seq<Export>, name: Seq<u8>) -> Option<u64>
    decreases es.len(),
{
    if es.len() == 0 {
        None
    } else if es[0].name@ == name {
        Some(es[0].address)
    } else {
        spec_lookup(es.skip(1), name)
    }
}

/// True when some entry of the table carries `name`.
pub open spec fn spec_has_name(es: Seq<Export>, name: Seq<u8>) -> bool {
    exists|j: int| 0 <= j < es.len() && es[j].name@ == name
}

/// A table answers for `name` exactly when some entry carries it, and
/// the answer is an address of such an entry.
pub proof fn lemma_lookup_has_name(es: Seq<Export>, name: Seq<u8>)
    ensures
        spec_lookup(es, name) is Some <==> spec_has_name(es, name),
        spec_lookup(es, name) matches Some(a) ==> exists|j: int|
            0 <= j < es.len() && es[j].name@ == name && es[j].address == a,
    decreases es.len(),
{
    if es.len() > 0 {
        let t = es.skip(1);
        lemma_lookup_has_name(t, name);
        assert(forall|j: int| 0 <= j < t.len() ==> t[j] == es[j + 1]);
        if es[0].name@ != name {
            if spec_has_name(es, name) {
                let w = choose|j: int| 0 <= j < es.len() && es[j].name@ == name;
                assert(t[w - 1].name@ == name);
            }
            if spec_has_name(t, name) {
                let w = choose|j: int| 0 <= j < t.len() && t[j].name@ == name;
                assert(es[w + 1].name@ == name);
            }
        }
    }
}

/// Every address of the table is non-null.
pub open spec fn spec_addresses_nonnull(es: Seq<Export>) -> bool {
    forall|j: int| 0 <= j < es.len() ==> es[j].address != 0u64
}

/// A non-null table answers only non-null addresses.
pub proof fn lemma_lookup_nonnull(es: Seq<Export>, name: Seq<u8>)
    requires
        spec_addresses_nonnull(es),
    ensures
        spec_lookup(es, name) matches Some(a) ==> a != 0u64,
{
    lemma_lookup_has_name(es, name);
}

/// Looks a name up in a table, answering what the foreign side would.
pub fn lookup(es: &Vec<Export>, name: &[u8]) -> (r: Option<u64>)
    ensures
        r == spec_lookup(es@, name@),
{
    let n = es.len();
    let mut i: usize = 0;
    proof {
        assert(es@.skip(0) =~= es@);
    }
    while i < n
        invariant
            n == es@.len(),
            i <= n,
            spec_lookup(es@, name@) == spec_lookup(es@.skip(i as int), name@),
        decreases n - i,
    {
        proof {
            assert(es@.skip(i as int)[0] == es@[i as int]);
        }
        if crate::bytes::bytes_eq(es[i].name.as_slice(), name) {
            return Some(es[i].address);
        }
        proof {
            assert(es@.skip(i as int).skip(1) =~= es@.skip(i + 1));
        }
        i = i + 1;
    }
    proof {
        assert(es@.skip(n as int) =~= Seq::<Export>::empty());
    }
    None
}

/// The factory's well-known status code for success.
pub const STATUS_OK: i32 = 0;

/// The factory's status code for an unknown version string.
pub const STATUS_FAILED: i32 = 1;

/// One loadable library of the foreign runtime: its path, its export
/// table, and the version table behind its factory export (empty when
/// the library exports no working factory).
#[derive(Clone, Debug)]
pub struct LibraryImage {
    /// Path the OS loader resolves the library by.
    pub path: Vec<u8>,
    /// The library's export table.
    pub exports: Vec<Export>,
    /// Interface versions the library's factory export implements.
    pub versions: Vec<Export>,
}

impl LibraryImage {
    /// Addresses the library answers are all non-null.
    pub open spec fn wf(self) -> bool {
        &&& spec_addresses_nonnull(self.exports@)
        &&& spec_addresses_nonnull(self.versions@)
    }

    /// What resolving `name` against this library's export table yields.
    pub open spec fn spec_resolve(self, name: Seq<u8>) -> Option<u64> {
        spec_lookup(self.exports@, name)
    }

    /// The pointer and status code the library's factory answers for a
    /// version string: the implemented interface's instance with status
    /// [`STATUS_OK`], or null with [`STATUS_FAILED`].
    pub open spec fn spec_factory_response(self, version: Seq<u8>) -> (u64, i32) {
        match spec_lookup(self.versions@, version) {
            Some(a) => (a, STATUS_OK),
            None => (0u64, STATUS_FAILED),
        }
    }
}

/// Everything the OS loader can resolve: the loadable libraries, each
/// under a distinct path.
#[derive(Clone, Debug)]
pub struct HostWorld {
    /// The loadable libraries.
    pub libs: Vec<LibraryImage>,
}

impl HostWorld {
    /// True when the loader can resolve `path` at all.
    pub open spec fn spec_has_lib(self, path: Seq<u8>) -> bool {
        exists|j: int| 0 <= j < self.libs@.len() && self.libs@[j].path@ == path
    }

    /// Index of the library the loader resolves `path` to.  Meaningful
    /// when [`Self::spec_has_lib`] holds.
    pub open spec fn spec_lib_index(self, path: Seq<u8>) -> int {
        choose|j: int| 0 <= j < self.libs@.len() && self.libs@[j].path@ == path
    }

    /// The library the loader resolves `path` to.
    pub open spec fn spec_image(self, path: Seq<u8>) -> LibraryImage {
        self.libs@[self.spec_lib_index(path)]
    }

    /// With distinct paths, any index whose library carries `path` is
    /// the one the loader resolves `path` to.
    pub proof fn lemma_lib_index(self, path: Seq<u8>, j: int)
        requires
            self.wf(),
            0 <= j < self.libs@.len(),
            self.libs@[j].path@ == path,
        ensures
            self.spec_lib_index(path) == j,
            self.spec_has_lib(path),
    {
        assert(exists|k: int| 0 <= k < self.libs@.len() && self.libs@[k].path@ == path);
        let w = self.spec_lib_index(path);
        assert(0 <= w < self.libs@.len() && self.libs@[w].path@ == path);
        if w != j {
            if w < j {
                assert(self.libs@[w].path@ != self.libs@[j].path@);
            } else {
                assert(self.libs@[j].path@ != self.libs@[w].path@);
            }
        }
    }

    /// Paths are distinct and every library is well formed.
    pub open spec fn wf(self) -> bool {
        &&& forall|i: int, j: int|
            0 <= i < j < self.libs@.len() ==> self.libs@[i].path@ != self.libs@[j].path@
        &&& forall|j: int| 0 <= j < self.libs@.len() ==> #[trigger] self.libs@[j].wf()
    }

    /// Resolves a path the way the OS loader would.
    pub fn find(&self, path: &[u8]) -> (r: Option<usize>)
        ensures
            r is Some <==> self.spec_has_lib(path@),
            r matches Some(j) ==> 0 <= j < self.libs@.len() && self.libs@[j as int].path@
                == path@,
    {
        let n = self.libs.len();
        let mut i: usize = 0;
        while i < n
            invariant
                n == self.libs@.len(),
                i <= n,
                forall|j: int| 0 <= j < i ==> self.libs@[j].path@ != path@,
            decreases n - i,
        {
            if crate::bytes::bytes_eq(self.libs[i].path.as_slice(), path) {
                return Some(i);
            }
            i = i + 1;
        }
        None
    }
}

} // verus!
