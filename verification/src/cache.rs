//! The symbol cache: lazy, at-most-once resolution of (library, symbol
//! name) pairs.
//!
//! A `get` consults the cache first; only a key never seen before goes
//! to the underlying resolver, and whatever that yields — an address or
//! a missing-export failure — is stored and answered to every later
//! caller of the same key.  Failure is sticky by design: a symbol absent
//! from a library's export table will not appear later in the process
//! lifetime, so retrying could only hide configuration mistakes.  The
//! `resolutions` counter records every underlying resolver call ever
//! made, which is what the at-most-once guarantee is stated over.

use vstd::prelude::*;

use crate::host::HostWorld;
use crate::registry::LibraryRegistry;

verus! {

/// Why a symbol could not be resolved.
#[derive(Clone, Copy, Debug, PartialEq, Eq, Structural)]
pub enum SymbolError {
    /// The name is absent from the library's export table.
    Missing,
}

/// What one resolution yields: a non-null address, or the sticky
/// failure every later caller of the key sees again.
pub type SymbolOutcome = Result<u64, SymbolError>;

/// One resolved key and its sticky outcome.
#[derive(Debug)]
pub struct CachedSymbol {
    /// Registry handle of the library the symbol was resolved from.
    pub library: usize,
    /// The symbol name, as plain bytes.
    pub name: Vec<u8>,
    /// What resolving the key yielded, successful or not.
    pub outcome: SymbolOutcome,
}

/// The cache's state with the bookkeeping a proof needs: its entries as
/// plain values, and the count of underlying resolver calls ever made.
#[verifier::ext_equal]
pub struct CacheSnapshot {
    /// One (library handle, symbol name, outcome) triple per entry.
    pub entries: Seq<(int, Seq<u8>, SymbolOutcome)>,
    /// Underlying resolver calls made so far.
    pub resolutions: nat,
}

/// Outcome stored for a key, if the key was ever resolved.
pub open spec fn spec_find_entry(
    es: Seq<(int, Seq<u8>, SymbolOutcome)>,
    library: int,
    name: Seq<u8>,
) -> Option<SymbolOutcome>
    decreases es.len(),
{
    if es.len() == 0 {
        None
    } else if es[0].0 == library && es[0].1 == name {
        Some(es[0].2)
    } else {
        spec_find_entry(es.skip(1), library, name)
    }
}

/// A stored outcome comes from some entry carrying the key.
pub proof fn lemma_find_entry_some(
    es: Seq<(int, Seq<u8>, SymbolOutcome)>,
    library: int,
    name: Seq<u8>,
)
    ensures
        spec_find_entry(es, library, name) matches Some(o) ==> exists|j: int|
            0 <= j < es.len() && es[j] == (library, name, o),
    decreases es.len(),
{
    if es.len() > 0 {
        lemma_find_entry_some(es.skip(1), library, name);
        if !(es[0].0 == library && es[0].1 == name) {
            match spec_find_entry(es, library, name) {
                Some(o) => {
                    let w = choose|j: int|
                        0 <= j < es.skip(1).len() && es.skip(1)[j] == (library, name, o);
                    assert(es[w + 1] == (library, name, o));
                },
                None => {},
            }
        }
    }
}

/// Appending an entry answers its own key — when the key was still
/// unresolved — and changes no other key's answer.
pub proof fn lemma_find_entry_push(
    es: Seq<(int, Seq<u8>, SymbolOutcome)>,
    e: (int, Seq<u8>, SymbolOutcome),
    library: int,
    name: Seq<u8>,
)
    ensures
        library == e.0 && name == e.1 && spec_find_entry(es, library, name) is None
            ==> spec_find_entry(es.push(e), library, name) == Some(e.2),
        spec_find_entry(es, library, name) is Some ==> spec_find_entry(es.push(e), library, name)
            == spec_find_entry(es, library, name),
        !(library == e.0 && name == e.1) ==> spec_find_entry(es.push(e), library, name)
            == spec_find_entry(es, library, name),
    decreases es.len(),
{
    if es.len() == 0 {
        assert(es.push(e)[0] == e);
        assert(es.push(e).skip(1) =~= Seq::<(int, Seq<u8>, SymbolOutcome)>::empty());
        if !(library == e.0 && name == e.1) {
            assert(es.push(e).len() == 1);
            assert(!(es.push(e)[0].0 == library && es.push(e)[0].1 == name));
            assert(spec_find_entry(es.push(e), library, name) == spec_find_entry(
                es.push(e).skip(1),
                library,
                name,
            ));
            assert(spec_find_entry(es.push(e), library, name) is None);
            assert(spec_find_entry(es, library, name) is None);
        }
    } else {
        assert(es.push(e)[0] == es[0]);
        assert(es.push(e).skip(1) =~= es.skip(1).push(e));
        lemma_find_entry_push(es.skip(1), e, library, name);
        if es[0].0 == library && es[0].1 == name {
            assert(spec_find_entry(es.push(e), library, name) == Some(es[0].2));
        } else {
            assert(spec_find_entry(es.push(e), library, name) == spec_find_entry(
                es.skip(1).push(e),
                library,
                name,
            ));
            assert(spec_find_entry(es, library, name) == spec_find_entry(
                es.skip(1),
                library,
                name,
            ));
        }
    }
}

/// One observation of the cache by `get`: a key already resolved leaves
/// the state alone; a new key costs one resolver call, whose outcome
/// `o` is recorded for good.
pub open spec fn spec_step(
    s: CacheSnapshot,
    library: int,
    name: Seq<u8>,
    o: SymbolOutcome,
) -> CacheSnapshot {
    if spec_find_entry(s.entries, library, name) is Some {
        s
    } else {
        CacheSnapshot { entries: s.entries.push((library, name, o)), resolutions: s.resolutions + 1 }
    }
}

/// `n` observations of the same key in a row.
pub open spec fn spec_steps(
    s: CacheSnapshot,
    library: int,
    name: Seq<u8>,
    o: SymbolOutcome,
    n: nat,
) -> CacheSnapshot
    decreases n,
{
    if n == 0 {
        s
    } else {
        spec_step(spec_steps(s, library, name, o, (n - 1) as nat), library, name, o)
    }
}

/// Resolving a key is idempotent: after the first observation every
/// further one leaves the cache exactly as it is.
pub proof fn lemma_step_idempotent(s: CacheSnapshot, library: int, name: Seq<u8>, o: SymbolOutcome)
    ensures
        spec_step(spec_step(s, library, name, o), library, name, o) == spec_step(
            s,
            library,
            name,
            o,
        ),
{
    lemma_find_entry_push(s.entries, (library, name, o), library, name);
}

/// Single flight, sequentially: however many times a key is asked for,
/// the underlying resolver runs at most once — exactly once when the
/// key was never resolved before — and the cache ends in the state one
/// observation leaves.
pub proof fn lemma_single_flight(
    s: CacheSnapshot,
    library: int,
    name: Seq<u8>,
    o: SymbolOutcome,
    n: nat,
)
    requires
        n >= 1,
    ensures
        spec_steps(s, library, name, o, n) == spec_step(s, library, name, o),
        spec_find_entry(s.entries, library, name) is None ==> spec_steps(
            s,
            library,
            name,
            o,
            n,
        ).resolutions == s.resolutions + 1,
        spec_find_entry(s.entries, library, name) is Some ==> spec_steps(
            s,
            library,
            name,
            o,
            n,
        ).resolutions == s.resolutions,
    decreases n,
{
    if n == 1 {
        assert(spec_steps(s, library, name, o, 0) == s);
    } else {
        lemma_single_flight(s, library, name, o, (n - 1) as nat);
        lemma_step_idempotent(s, library, name, o);
    }
}

/// The symbol cache.
pub struct SymbolCache {
    /// Keys resolved so far, each with its sticky outcome.
    pub slots: Vec<CachedSymbol>,
    /// Underlying resolver calls made so far.
    pub resolutions: usize,
}

impl SymbolCache {
    /// The cache's state as plain values.
    pub open spec fn spec_snapshot(self) -> CacheSnapshot {
        CacheSnapshot {
            entries: self.slots@.map_values(
                |c: CachedSymbol| (c.library as int, c.name@, c.outcome),
            ),
            resolutions: self.resolutions as nat,
        }
    }

    /// Outcome stored for a key, if the key was ever resolved.
    pub open spec fn spec_cached(self, library: int, name: Seq<u8>) -> Option<SymbolOutcome> {
        spec_find_entry(self.spec_snapshot().entries, library, name)
    }

    /// Every resolver call made an entry and every entry cost one call.
    pub open spec fn wf(self) -> bool {
        self.resolutions == self.slots@.len()
    }

    /// What resolving `name` from the library behind handle `library`
    /// truly yields in `world`: the exported address, or the sticky
    /// missing-export failure.
    pub open spec fn spec_resolution(
        world: HostWorld,
        reg: LibraryRegistry,
        library: int,
        name: Seq<u8>,
    ) -> SymbolOutcome {
        match crate::host::spec_lookup(
            world.libs@[world.spec_lib_index(reg.spec_paths()[library])].exports@,
            name,
        ) {
            Some(a) => Ok(a),
            None => Err(SymbolError::Missing),
        }
    }

    /// Every entry records the true resolution of its key, for
    /// libraries registered in `reg` against `world`.
    pub open spec fn spec_coherent(self, world: HostWorld, reg: LibraryRegistry) -> bool {
        forall|j: int|
            0 <= j < self.slots@.len() ==> {
                let c = #[trigger] self.slots@[j];
                reg.spec_valid_handle(c.library as int) && c.outcome == Self::spec_resolution(
                    world,
                    reg,
                    c.library as int,
                    c.name@,
                )
            }
    }

    /// A cache that has resolved nothing.
    pub fn new() -> (r: Self)
        ensures
            r.wf(),
            r.spec_snapshot().entries == Seq::<(int, Seq<u8>, SymbolOutcome)>::empty(),
            r.resolutions == 0,
            forall|w: HostWorld, g: LibraryRegistry| r.spec_coherent(w, g),
    {
        let r = SymbolCache { slots: Vec::new(), resolutions: 0 };
        proof {
            assert(r.spec_snapshot().entries =~= Seq::<(int, Seq<u8>, SymbolOutcome)>::empty());
        }
        r
    }

    /// Underlying resolver calls made so far.
    pub fn resolution_count(&self) -> (r: usize)
        ensures
            r == self.spec_snapshot().resolutions,
    {
        self.resolutions
    }

    /// Outcome stored for a key, without resolving anything.
    pub fn lookup(&self, library: usize, name: &[u8]) -> (r: Option<SymbolOutcome>)
        ensures
            r == self.spec_cached(library as int, name@),
    {
        let n = self.slots.len();
        let ghost es = self.spec_snapshot().entries;
        let mut i: usize = 0;
        proof {
            assert(es.skip(0) =~= es);
        }
        while i < n
            invariant
                n == self.slots@.len(),
                es == self.spec_snapshot().entries,
                i <= n,
                spec_find_entry(es, library as int, name@) == spec_find_entry(
                    es.skip(i as int),
                    library as int,
                    name@,
                ),
            decreases n - i,
        {
            proof {
                assert(es.skip(i as int)[0] == es[i as int]);
            }
            let c = &self.slots[i];
            if c.library == library && crate::bytes::bytes_eq(c.name.as_slice(), name) {
                return Some(c.outcome);
            }
            proof {
                assert(es.skip(i as int).skip(1) =~= es.skip(i + 1));
            }
            i = i + 1;
        }
        proof {
            assert(es.skip(n as int) =~= Seq::<(int, Seq<u8>, SymbolOutcome)>::empty());
        }
        None
    }

    /// Turns a (library, name) pair into its call-ready address — or the
    /// key's sticky failure — resolving through the library's export
    /// table at most once per key for the process lifetime.
    pub fn get(&mut self, world: &HostWorld, reg: &LibraryRegistry, library: usize, name: &[u8])
        -> (r: SymbolOutcome)
        requires
            old(self).wf(),
            old(self).spec_coherent(*world, *reg),
            world.wf(),
            reg.wf(),
            reg.spec_coupled(*world),
            reg.spec_valid_handle(library as int),
        ensures
            final(self).wf(),
            final(self).spec_coherent(*world, *reg),
            r == Self::spec_resolution(*world, *reg, library as int, name@),
            final(self).spec_cached(library as int, name@) == Some(r),
            final(self).spec_snapshot() == spec_step(
                old(self).spec_snapshot(),
                library as int,
                name@,
                r,
            ),
            old(self).spec_cached(library as int, name@) is Some ==> *final(self) == *old(self),
    {
        let ghost truth = Self::spec_resolution(*world, *reg, library as int, name@);
        if let Some(o) = self.lookup(library, name) {
            proof {
                let es = self.spec_snapshot().entries;
                lemma_find_entry_some(es, library as int, name@);
                let w = choose|j: int| 0 <= j < es.len() && es[j] == (library as int, name@, o);
                assert(self.slots@[w].outcome == o);
                assert(o == truth);
            }
            return o;
        }
        let path = &reg.paths[library];
        let ghost path_view = reg.spec_paths()[library as int];
        proof {
            assert(path@ == path_view);
            assert(world.spec_has_lib(path_view));
        }
        let j = world.find(path.as_slice()).unwrap();
        proof {
            world.lemma_lib_index(path_view, j as int);
        }
        let lib = &world.libs[j];
        let o: SymbolOutcome = match crate::host::lookup(&lib.exports, name) {
            Some(a) => Ok(a),
            None => Err(SymbolError::Missing),
        };
        let owned = crate::bytes::to_owned_bytes(name);
        self.slots.push(CachedSymbol { library, name: owned, outcome: o });
        self.resolutions = self.slots.len();
        proof {
            let es0 = old(self).spec_snapshot().entries;
            let e = (library as int, name@, o);
            assert(self.spec_snapshot().entries =~= es0.push(e));
            lemma_find_entry_push(es0, e, library as int, name@);
            assert(self.spec_snapshot() =~= spec_step(
                old(self).spec_snapshot(),
                library as int,
                name@,
                o,
            ));
            assert forall|k: int| 0 <= k < self.slots@.len() implies {
                let c = #[trigger] self.slots@[k];
                reg.spec_valid_handle(c.library as int) && c.outcome == Self::spec_resolution(
                    *world,
                    *reg,
                    c.library as int,
                    c.name@,
                )
            } by {
                if k < self.slots@.len() - 1 {
                    assert(self.slots@[k] == old(self).slots@[k]);
                }
            }
        }
        o
    }
}

} // verus!
