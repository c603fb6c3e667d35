//! NUL-terminated byte strings: the host's native string form.
//!
//! Names crossing the foreign boundary — library paths, export names,
//! interface version strings, error messages — travel as NUL-terminated
//! byte strings.  This module states what that encoding is and proves
//! the conversions both ways.

use vstd::prelude::*;

verus! {

/// True when `s` holds a NUL byte anywhere.
pub open spec fn contains_nul(s: Seq<u8>) -> bool {
    exists|i: int| 0 <= i < s.len() && s[i] == 0u8
}

/// Index of the first NUL byte of `s`.
pub open spec fn first_nul(s: Seq<u8>) -> int
    decreases s.len(),
{
    if s.len() == 0 {
        0
    } else if s[0] == 0u8 {
        0
    } else {
        1 + first_nul(s.subrange(1, s.len() as int))
    }
}

/// The bytes of `s` strictly before its first NUL.
pub open spec fn before_nul(s: Seq<u8>) -> Seq<u8> {
    s.take(first_nul(s))
}

/// `first_nul` points at a NUL when one exists, and nothing before it
/// is NUL.
pub proof fn lemma_first_nul(s: Seq<u8>)
    ensures
        contains_nul(s) ==> 0 <= first_nul(s) < s.len() && s[first_nul(s)] == 0u8,
        forall|i: int| 0 <= i < first_nul(s) && i < s.len() ==> s[i] != 0u8,
        !contains_nul(s) ==> first_nul(s) == s.len(),
    decreases s.len(),
{
    if s.len() > 0 && s[0] != 0u8 {
        let t = s.subrange(1, s.len() as int);
        lemma_first_nul(t);
        assert(forall|i: int| 0 <= i < t.len() ==> t[i] == s[i + 1]);
        if contains_nul(s) {
            let w = choose|i: int| 0 <= i < s.len() && s[i] == 0u8;
            assert(t[w - 1] == 0u8);
            assert(contains_nul(t));
        }
        if contains_nul(t) {
            let w = choose|i: int| 0 <= i < t.len() && t[i] == 0u8;
            assert(s[w + 1] == 0u8);
            assert(contains_nul(s));
        }
        assert forall|i: int| 0 <= i < first_nul(s) && i < s.len() implies s[i] != 0u8 by {
            if i > 0 {
                assert(t[i - 1] == s[i]);
                assert(i - 1 < first_nul(t));
            }
        }
    }
}

/// Copies a byte slice into an owned vector.
pub fn to_owned_bytes(s: &[u8]) -> (r: Vec<u8>)
    ensures
        r@ == s@,
{
    let n = s.len();
    let mut out: Vec<u8> = Vec::new();
    let mut i: usize = 0;
    while i < n
        invariant
            n == s@.len(),
            i <= n,
            out@ == s@.take(i as int),
        decreases n - i,
    {
        out.push(s[i]);
        proof {
            assert(out@ =~= s@.take(i + 1));
        }
        i = i + 1;
    }
    proof {
        assert(s@.take(n as int) =~= s@);
    }
    out
}

/// Whether two byte slices hold the same bytes.
pub fn bytes_eq(a: &[u8], b: &[u8]) -> (r: bool)
    ensures
        r == (a@ == b@),
{
    if a.len() != b.len() {
        assert(a@ != b@);
        return false;
    }
    let n = a.len();
    let mut i: usize = 0;
    while i < n
        invariant
            n == a@.len() == b@.len(),
            i <= n,
            forall|j: int| 0 <= j < i ==> a@[j] == b@[j],
        decreases n - i,
    {
        if a[i] != b[i] {
            assert(a@ != b@);
            return false;
        }
        i = i + 1;
    }
    proof {
        assert(a@ =~= b@);
    }
    true
}

/// Encodes `s` for the host: the same bytes with a terminating NUL.
/// A payload with an interior NUL has no faithful encoding, so such
/// input is excluded by contract; [`try_cstr`] rejects it instead.
pub fn cstr(s: &[u8]) -> (r: Vec<u8>)
    requires
        !contains_nul(s@),
    ensures
        r@ == s@.push(0u8),
{
    let mut out: Vec<u8> = Vec::new();
    let n = s.len();
    let mut i: usize = 0;
    while i < n
        invariant
            n == s@.len(),
            i <= n,
            out@ == s@.take(i as int),
        decreases n - i,
    {
        out.push(s[i]);
        proof {
            assert(out@ =~= s@.take(i + 1));
        }
        i = i + 1;
    }
    proof {
        assert(s@.take(n as int) =~= s@);
    }
    out.push(0u8);
    out
}

/// Encodes `s` for the host if it can be encoded at all: `None` exactly
/// when `s` holds an interior NUL.
pub fn try_cstr(s: &[u8]) -> (r: Option<Vec<u8>>)
    ensures
        contains_nul(s@) ==> r is None,
        !contains_nul(s@) ==> (r matches Some(v) && v@ == s@.push(0u8)),
{
    let n = s.len();
    let mut i: usize = 0;
    while i < n
        invariant
            n == s@.len(),
            i <= n,
            forall|j: int| 0 <= j < i ==> s@[j] != 0u8,
        decreases n - i,
    {
        if s[i] == 0 {
            return None;
        }
        i = i + 1;
    }
    Some(cstr(s))
}

/// Decodes a NUL-terminated byte string: the bytes strictly before the
/// first NUL.  Reading an unterminated buffer is undefined on the
/// foreign side, so a terminator is required here.
pub fn rstr(s: &[u8]) -> (r: Vec<u8>)
    requires
        contains_nul(s@),
    ensures
        r@ == before_nul(s@),
        !contains_nul(r@),
{
    proof {
        lemma_first_nul(s@);
    }
    let n = s.len();
    let mut out: Vec<u8> = Vec::new();
    let mut i: usize = 0;
    while s[i] != 0
        invariant
            contains_nul(s@),
            n == s@.len(),
            first_nul(s@) < n,
            i <= first_nul(s@),
            out@ == s@.take(i as int),
            s@[first_nul(s@)] == 0u8,
            forall|j: int| 0 <= j < first_nul(s@) ==> s@[j] != 0u8,
        decreases first_nul(s@) - i,
    {
        out.push(s[i]);
        proof {
            assert(out@ =~= s@.take(i + 1));
        }
        i = i + 1;
    }
    proof {
        assert(i == first_nul(s@));
        assert(out@ == before_nul(s@));
    }
    out
}

/// Round trip: encoding a NUL-free payload and decoding it again gives
/// the payload back.
pub proof fn lemma_cstr_rstr_round_trip(s: Seq<u8>)
    requires
        !contains_nul(s),
    ensures
        before_nul(s.push(0u8)) == s,
    decreases s.len(),
{
    let e = s.push(0u8);
    lemma_first_nul(e);
    assert(contains_nul(e)) by {
        assert(e[s.len() as int] == 0u8);
    }
    assert(forall|i: int| 0 <= i < s.len() ==> e[i] == s[i] && s[i] != 0u8);
    assert(first_nul(e) == s.len()) by {
        if first_nul(e) < s.len() {
            assert(e[first_nul(e)] == 0u8);
        }
    }
    assert(before_nul(e) =~= s);
}

} // verus!
