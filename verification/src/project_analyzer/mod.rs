//! Detects a project's scenario among the registered `ProjectScenario`
//! implementations.

pub mod hybrid_rust_uniffi;
pub mod pure_kotlin;
pub mod registry;

pub use hybrid_rust_uniffi::HybridRustUniffiScenario;
pub use pure_kotlin::PureKotlinScenario;
pub use registry::analyze_project;

use vstd::prelude::*;

verus! {

/// Wiring sanity check.
pub fn ping() -> (r: &'static str)
    ensures
        r@ == "pong"@,
{
    "pong"
}

} // verus!
