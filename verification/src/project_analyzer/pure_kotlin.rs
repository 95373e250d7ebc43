//! The pure Kotlin/Java scenario: a standard Gradle project without a
//! native Rust layer.

use crate::env_scanner::host::EnvProbe;
use crate::plugin_api::ProjectScenario;
use crate::env_scanner::host::answered_exists;
use crate::project_analyzer::hybrid_rust_uniffi::{cargo_manifest_answer, has_cargo_manifest};
use crate::text::{join, join_path};
use crate::types::ProjectFingerprint;
use vstd::prelude::*;

verus! {

pub struct PureKotlinScenario;

/// The pure Kotlin confidence: no match without Gradle settings; 0.9, or
/// 0.3 when a `Cargo.toml` beside them suggests a hybrid project.
pub open spec fn spec_pure_kotlin_confidence(has_settings: bool, has_cargo: bool) -> Option<u32> {
    if !has_settings {
        None
    } else if has_cargo {
        Some(30)
    } else {
        Some(90)
    }
}

/// The pure Kotlin confidence from the two observations.
pub fn pure_kotlin_confidence(has_settings: bool, has_cargo: bool) -> (r: Option<u32>)
    ensures
        r == spec_pure_kotlin_confidence(has_settings, has_cargo),
{
    if !has_settings {
        None
    } else if has_cargo {
        Some(30)
    } else {
        Some(90)
    }
}

/// Whether `settings.gradle.kts` or `settings.gradle` is in the root.
pub fn has_gradle_settings<P: EnvProbe>(probe: &P, project_root: &str) -> (r: bool)
    ensures
        r ==> answered_exists(probe, join(project_root@, "settings.gradle.kts"@), true)
            || answered_exists(probe, join(project_root@, "settings.gradle"@), true),
        !r ==> answered_exists(probe, join(project_root@, "settings.gradle.kts"@), false)
            && answered_exists(probe, join(project_root@, "settings.gradle"@), false),
{
    let kts = join_path(project_root, "settings.gradle.kts");
    let kp = kts.as_str();
    if probe.path_exists(kp) {
        return true;
    }
    let groovy = join_path(project_root, "settings.gradle");
    let gp = groovy.as_str();
    probe.path_exists(gp)
}

/// Whether `settings.gradle.kts` or else `settings.gradle` is in the root,
/// as the probe answered.
pub open spec fn settings_answer<P: EnvProbe>(probe: &P, root: Seq<char>, present: bool) -> bool {
    &&& present ==> answered_exists(probe, join(root, "settings.gradle.kts"@), true)
        || answered_exists(probe, join(root, "settings.gradle"@), true)
    &&& !present ==> answered_exists(probe, join(root, "settings.gradle.kts"@), false)
        && answered_exists(probe, join(root, "settings.gradle"@), false)
}

/// What the pure Kotlin detection observed: the Gradle settings and, only
/// when they are there, a root `Cargo.toml`.
pub open spec fn kotlin_answers<P: EnvProbe>(
    probe: &P,
    root: Seq<char>,
    has_settings: bool,
    has_cargo: bool,
) -> bool {
    &&& settings_answer(probe, root, has_settings)
    &&& if has_settings {
        cargo_manifest_answer(probe, root, has_cargo)
    } else {
        !has_cargo
    }
}

/// `conf` is the pure Kotlin confidence given what the probe answered.
pub open spec fn kotlin_detected<P: EnvProbe>(probe: &P, root: Seq<char>, conf: Option<u32>) -> bool {
    exists|has_settings: bool, has_cargo: bool|
        #[trigger] kotlin_answers(probe, root, has_settings, has_cargo) && conf
            == spec_pure_kotlin_confidence(has_settings, has_cargo)
}

impl ProjectScenario for PureKotlinScenario {
    open spec fn spec_scenario_id(&self) -> Seq<char> {
        "pure-kotlin"@
    }

    fn scenario_id(&self) -> (r: &'static str) {
        let r = "pure-kotlin";
        assert(r@ == "pure-kotlin"@);
        assert(self.spec_scenario_id() == "pure-kotlin"@);
        r
    }

    fn detect<P: EnvProbe>(&self, probe: &P, project_root: &str) -> (r: Option<u32>)
        ensures
            kotlin_detected(probe, project_root@, r),
    {
        let has_settings = has_gradle_settings(probe, project_root);
        if !has_settings {
            assert(kotlin_answers(probe, project_root@, false, false));
            return pure_kotlin_confidence(false, false);
        }
        let has_cargo = has_cargo_manifest(probe, project_root);
        assert(kotlin_answers(probe, project_root@, true, has_cargo));
        pure_kotlin_confidence(true, has_cargo)
    }

    fn fingerprint<P: EnvProbe>(&self, probe: &P, project_root: &str) -> (r: ProjectFingerprint)
        ensures
            exists|conf: Option<u32>|
                #[trigger] kotlin_detected(probe, project_root@, conf) && r.confidence == match conf {
                    Some(v) => v,
                    None => 0,
                },
    {
        let c = self.detect(probe, project_root);
        ProjectFingerprint {
            scenario_id: self.scenario_id().to_owned(),
            root: project_root.to_owned(),
            confidence: match c {
                Some(v) => v,
                None => 0,
            },
        }
    }
}

} // verus!
