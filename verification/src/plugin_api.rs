//! The extension point for project kinds: every project scenario implements
//! `ProjectScenario`.

use crate::env_scanner::host::EnvProbe;
use crate::types::ProjectFingerprint;
use vstd::prelude::*;

verus! {

/// A recognised kind of project, such as pure Kotlin or hybrid Rust with
/// UniFFI. Adding a scenario means writing one more implementation; no
/// other part of the crate changes. Confidences are in hundredths.
pub trait ProjectScenario {
    /// The scenario's unique identifier.
    spec fn spec_scenario_id(&self) -> Seq<char>;

    /// The scenario's unique identifier, e.g. `pure-kotlin`.
    fn scenario_id(&self) -> (r: &'static str)
        ensures
            r@ == self.spec_scenario_id(),
    ;

    /// Whether the scenario matches the project, and how confidently.
    fn detect<P: EnvProbe>(&self, probe: &P, project_root: &str) -> Option<u32>;

    /// The full fingerprint, for use once `detect` has matched.
    fn fingerprint<P: EnvProbe>(&self, probe: &P, project_root: &str) -> (r: ProjectFingerprint)
        ensures
            r.scenario_id@ == self.spec_scenario_id(),
            r.root@ == project_root@,
    ;
}

} // verus!
