//! A small file/text service: greeting formatting, a readiness hook, and
//! (in the surrounding application) whole-file text read and write.
//!
//! The operations here are stateless and independently invocable: each is a
//! total function of its inputs, with no shared state between calls.

use vstd::prelude::*;

verus! {

/// The greeting for `name`: the fixed salutation prefix, the name, and the
/// fixed exclamation suffix, in that order.
pub open spec fn greeting(name: Seq<char>) -> Seq<char> {
    "Hello, "@ + name + "!"@
}

/// Formats a greeting for `name`.
///
/// Total over all text inputs, including the empty string, and has no side
/// effects: the result is exactly `"Hello, "`, then `name`, then `"!"`.
pub fn greet(name: String) -> (r: String)
    ensures
        r@ == greeting(name@),
{
    let mut r = String::from_str("Hello, ");
    r.append(name.as_str());
    r.append("!");
    r
}

/// Readiness hook for the host: signals that the service may be considered
/// ready. It performs no setup, has no observable effect, and cannot fail.
pub fn init_app()
{
}

} // verus!
