//! Execution engine for a visual workflow tool.
//!
//! Each node of a user-authored workflow graph names a script, an HTTP call,
//! or a database query. This library holds the decision and formatting logic
//! of the three execution strategies behind one "execution request in, JSON
//! result out" contract: dispatching a script path to the right runner,
//! deciding when a TypeScript project must be rebuilt, classifying subprocess
//! outcomes, assembling an HTTP request plan from loosely structured
//! fragments, validating database connection descriptors, and rendering the
//! canonical result envelopes. The surrounding process work (spawning,
//! network and database I/O, the filesystem) lives outside the library and
//! hands it plain values.

pub mod api;
pub mod artifact;
pub mod db;
pub mod folder;
pub mod graph;
pub mod json;
pub mod paths;
pub mod project;
pub mod script;
pub mod text;

use vstd::prelude::*;

verus! {

/// The smaller of two lengths, used throughout the contracts.
pub open spec fn spec_min(a: int, b: int) -> int {
    if a <= b {
        a
    } else {
        b
    }
}

} // verus!
