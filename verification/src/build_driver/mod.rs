//! Drives the real build of a recognised project, with no user interaction.

pub mod aapt2_patch;
pub mod bindgen;
pub mod gradlew;
pub mod native;
pub mod pipeline;
pub mod wrapper;

use vstd::prelude::*;

verus! {

/// Wiring sanity check.
pub fn ping() -> (r: &'static str)
    ensures
        r@ == "pong"@,
{
    "pong"
}

} // verus!
