//! Small host-call helpers whose decisions are worth stating.

#![allow(non_snake_case)]

use vstd::prelude::*;

use crate::adapter::LuaState;

verus! {

/// Reads an optional argument: when the host reports the stack
/// position absent (or nil), the default is answered without touching
/// the reader; otherwise the reader is applied to the position.  The
/// embedding application supplies `absent` from the host's own
/// stack-probing primitive.
pub fn luaL_opt<T, F: Fn(LuaState, i32) -> T>(
    l: LuaState,
    f: F,
    n: i32,
    absent: bool,
    default: T,
) -> (r: T)
    requires
        !absent ==> call_requires(f, (l, n)),
    ensures
        absent ==> r == default,
        !absent ==> call_ensures(f, (l, n), r),
{
    if absent {
        default
    } else {
        f(l, n)
    }
}

} // verus!
