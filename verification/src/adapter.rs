//! The entry-point adapter: wrapping fallible module logic into the
//! raw, context-in/integer-out shape the host's module loader expects.
//!
//! Business logic answers an [`EntryPointResult`]: success with the
//! count of values communicated back, or failure with a message.  The
//! host knows nothing of either — its raw entry signature is an opaque
//! context in and an integer out, and its own error channel is the only
//! failure path.  The adapter is the sole place where a recoverable
//! failure crosses into that channel, so from the host's side every
//! failure looks identical whatever layer raised it.
//!
//! The host's error-raising primitive is expected to transfer control
//! away and not return; the adapter guards the case where it returns
//! after all by answering `0` — no values communicated back.
//!
//! The shape contract — exactly one context parameter, an
//! [`EntryPointResult`] out — is enforced when a module is wrapped, at
//! binding time, by [`run_entry`]'s own signature; a function of any
//! other shape is rejected before a module exists.

use vstd::prelude::*;

verus! {

/// An opaque host context, handed through to business logic untouched.
/// The host owns whatever it points at; this layer never reads it.
pub type LuaState = u64;

/// What a module entry point's business logic answers.
#[derive(Clone, Debug, PartialEq, Eq)]
pub enum EntryPointResult {
    /// Finished; the payload counts the values communicated back to the
    /// host, by host convention.
    Success(i32),
    /// Failed; the payload is the message for the host's error channel.
    Failure(Vec<u8>),
}

/// The host's error channel, as the binding layer sees it: everything
/// ever raised through it, in order.  A test doubles this for the
/// host's own primitive; the embedding application forwards each raised
/// message to the real one.
pub struct HostErrorSink {
    /// Messages raised so far, oldest first.
    pub raised: Vec<Vec<u8>>,
}

impl HostErrorSink {
    /// The raised messages as plain byte strings.
    pub open spec fn spec_raised(self) -> Seq<Seq<u8>> {
        self.raised@.map_values(|m: Vec<u8>| m@)
    }

    /// A channel nothing was raised through yet.
    pub fn new() -> (r: Self)
        ensures
            r.spec_raised() == Seq::<Seq<u8>>::empty(),
    {
        let r = HostErrorSink { raised: Vec::new() };
        proof {
            assert(r.spec_raised() =~= Seq::<Seq<u8>>::empty());
        }
        r
    }

    /// How many messages were raised so far.
    pub fn raised_count(&self) -> (r: usize)
        ensures
            r == self.spec_raised().len(),
    {
        self.raised.len()
    }

    /// Invokes the host's error-raising primitive with `message`.
    pub fn raise(&mut self, message: Vec<u8>)
        ensures
            final(self).spec_raised() == old(self).spec_raised().push(message@),
    {
        self.raised.push(message);
        proof {
            assert(self.spec_raised() =~= old(self).spec_raised().push(message@));
        }
    }
}

/// Converts one business answer into the host's integer: the value
/// count on success; on failure, the message goes to the host's error
/// channel — the only thing that ever writes to it here — and the
/// answer falls back to `0`.
pub fn adapt_outcome(outcome: EntryPointResult, sink: &mut HostErrorSink) -> (r: i32)
    ensures
        outcome matches EntryPointResult::Success(n) ==> r == n && final(sink).spec_raised()
            == old(sink).spec_raised(),
        outcome matches EntryPointResult::Failure(m) ==> r == 0 && final(sink).spec_raised()
            == old(sink).spec_raised().push(m@),
{
    match outcome {
        EntryPointResult::Success(n) => n,
        EntryPointResult::Failure(message) => {
            sink.raise(message);
            0
        },
    }
}

/// Runs wrapped business logic as a raw host entry point: calls it on
/// the context and adapts whatever it answers.  Wrapping a function
/// here is the shape check — anything but one context in and an
/// [`EntryPointResult`] out does not bind.
pub fn run_entry<F: Fn(LuaState) -> EntryPointResult>(
    business: F,
    context: LuaState,
    sink: &mut HostErrorSink,
) -> (r: i32)
    requires
        call_requires(business, (context,)),
    ensures
        exists|outcome: EntryPointResult|
            {
                &&& #[trigger] call_ensures(business, (context,), outcome)
                &&& (outcome matches EntryPointResult::Success(n) ==> r == n
                    && final(sink).spec_raised() == old(sink).spec_raised())
                &&& (outcome matches EntryPointResult::Failure(m) ==> r == 0
                    && final(sink).spec_raised() == old(sink).spec_raised().push(m@))
            },
{
    let outcome = business(context);
    let ghost witness = outcome;
    let r = adapt_outcome(outcome, sink);
    proof {
        assert(call_ensures(business, (context,), witness));
    }
    r
}

} // verus!
