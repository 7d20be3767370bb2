//! Core of a small questions-document store: deterministic resolution of the
//! document's filesystem path, lazy initialization of the document file, and
//! validate-then-format JSON save plans. All filesystem and host-runtime work
//! is left to the caller; this crate decides what to do and proves it.

use vstd::prelude::*;
use vstd::string::StringExecFns;

pub mod errors;
pub mod json;
pub mod paths;
pub mod store;

verus! {

/// Builds the greeting returned by the `greet` command.
pub fn greet(name: &str) -> (r: String)
    ensures
        r@ == "Hello, "@ + name@ + "! You've been greeted from Rust!"@,
{
    let mut s: String = "Hello, ".to_owned();
    s.append(name);
    s.append("! You've been greeted from Rust!");
    s
}

} // verus!
