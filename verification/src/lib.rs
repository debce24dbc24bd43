//! Command-invocation bridge for three external feed providers.
//!
//! The library builds fully-resolved request descriptors (URL, method,
//! headers) for each provider, computes the relative date boundary that the
//! trending search needs, and maps transport events to a uniform
//! success/failure outcome. Issuing the requests over the network is left to
//! the surrounding application.

use vstd::prelude::*;

pub mod date;
pub mod dispatch;
pub mod outcome;
pub mod request;

verus! {

/// The greeting placed before the caller-supplied name.
pub open spec fn greeting_prefix() -> Seq<char> {
    "Hello, "@
}

/// The fixed text placed after the caller-supplied name.
pub open spec fn greeting_suffix() -> Seq<char> {
    "! You've been greeted from Rust!"@
}

/// Formats the fixed greeting template around the supplied name, with a
/// single substitution and no truncation.
pub fn greet(name: &str) -> (r: String)
    ensures
        r@ == greeting_prefix() + name@ + greeting_suffix(),
{
    let mut r = String::from_str("Hello, ");
    r.append(name);
    r.append("! You've been greeted from Rust!");
    r
}

} // verus!
