//! A verified core for a small song service: an in-memory model of the
//! song table with insert, filtered search and play-count operations, the
//! builder that renders optional search fields into a SQL predicate with
//! its bind list, the visit counter, and the shaping of handler replies.

use vstd::prelude::*;
use vstd::string::StringExecFns;

pub mod counter;
pub mod query;
pub mod reply;
pub mod song;
pub mod store;
pub mod text;

verus! {

/// The fixed greeting served on the root route.
pub fn welcome() -> (s: String)
    ensures
        s@ == "Welcome to the Rust-powered web server!"@,
{
    String::from_str("Welcome to the Rust-powered web server!")
}

} // verus!
