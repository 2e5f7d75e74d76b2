//! A policy-evaluation engine.
//!
//! Structured input values are evaluated against a declarative pattern
//! language; every verdict comes with a full explanation tree telling the
//! caller why a value was or was not accepted.

use vstd::prelude::*;

pub mod base64;
pub mod bindings;
pub mod concat;
pub mod eval;
pub mod function;
pub mod lang;
pub mod laws;
pub mod pattern;
pub mod rationale;
pub mod uri;
pub mod value;
pub mod world;

verus! {

/// The version of this engine, for callers that report it.
pub fn version() -> (r: &'static str)
    ensures
        r@ == "0.1.0"@,
{
    "0.1.0"
}

} // verus!
