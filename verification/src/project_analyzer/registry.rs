//! The scenario registry: every scenario is asked, and the best match (the
//! highest confidence) is picked. Adding a scenario means one more entry
//! here.

use crate::env_scanner::host::EnvProbe;
use crate::plugin_api::ProjectScenario;
use crate::project_analyzer::hybrid_rust_uniffi::{
    hybrid_detected, spec_hybrid_confidence, HybridRustUniffiScenario,
};
use crate::project_analyzer::pure_kotlin::{
    kotlin_detected, spec_pure_kotlin_confidence, PureKotlinScenario,
};
use crate::types::ProjectFingerprint;
use vstd::prelude::*;

verus! {

/// Whether `i` is the pick among the scenarios' confidences: it matched,
/// every earlier scenario that matched had a strictly lower confidence and
/// every later one a confidence no higher. Ties go to the earlier
/// scenario.
pub open spec fn is_best_index(confs: Seq<Option<u32>>, i: int) -> bool {
    &&& 0 <= i < confs.len()
    &&& confs[i] is Some
    &&& forall|j: int| 0 <= j < i ==> (#[trigger] confs[j] matches Some(c) ==> c < confs[i]->0)
    &&& forall|j: int| i < j < confs.len() ==> (#[trigger] confs[j] matches Some(c) ==> c <= confs[i]->0)
}

/// The registered scenario identifiers, in registration order.
pub open spec fn registered_ids() -> Seq<Seq<char>> {
    seq!["hybrid-rust-uniffi"@, "pure-kotlin"@]
}

/// The index of the best match among the confidences, `None` when no
/// scenario matched.
pub fn best_scenario(confs: &Vec<Option<u32>>) -> (r: Option<usize>)
    ensures
        r matches Some(i) ==> is_best_index(confs@, i as int),
        r is None ==> forall|j: int| 0 <= j < confs@.len() ==> #[trigger] confs@[j] is None,
{
    let mut best: Option<usize> = None;
    let mut k: usize = 0;
    while k < confs.len()
        invariant
            k <= confs@.len(),
            best is None ==> forall|j: int| 0 <= j < k ==> #[trigger] confs@[j] is None,
            best matches Some(i) ==> {
                &&& i < k
                &&& confs@[i as int] is Some
                &&& forall|j: int| 0 <= j < i ==> (#[trigger] confs@[j] matches Some(c) ==> c
                    < confs@[i as int]->0)
                &&& forall|j: int| i < j < k ==> (#[trigger] confs@[j] matches Some(c) ==> c
                    <= confs@[i as int]->0)
            },
        decreases confs.len() - k,
    {
        if let Some(c) = confs[k] {
            let better = match best {
                None => true,
                Some(i) => match confs[i] {
                    Some(b) => c > b,
                    None => true,
                },
            };
            if better {
                best = Some(k);
            }
        }
        k = k + 1;
    }
    best
}

/// `conf` is the confidence scenario `i` of the registry reports for the
/// project, given what the probe answered.
pub open spec fn registered_detected<P: EnvProbe>(probe: &P, root: Seq<char>, i: int, conf: Option<u32>) -> bool {
    if i == 0 {
        hybrid_detected(probe, root, conf)
    } else {
        kotlin_detected(probe, root, conf)
    }
}

/// The fingerprint scenario `i` of the registry gives: its identifier, the
/// root, and the confidence its own detection reports (0 without a match).
pub open spec fn registered_fingerprint<P: EnvProbe>(
    probe: &P,
    root: Seq<char>,
    i: int,
    fp: ProjectFingerprint,
) -> bool {
    &&& fp.scenario_id@ == registered_ids()[i]
    &&& fp.root@ == root
    &&& exists|conf: Option<u32>|
        #[trigger] registered_detected(probe, root, i, conf) && fp.confidence == match conf {
            Some(v) => v,
            None => 0,
        }
}

/// The analysis given the confidences the scenarios' detections reported,
/// in registration order: nothing when none matched, otherwise the
/// fingerprint of the best match.
pub open spec fn analysis_outcome<P: EnvProbe>(
    probe: &P,
    root: Seq<char>,
    confs: Seq<Option<u32>>,
    r: Option<ProjectFingerprint>,
) -> bool {
    &&& confs.len() == 2
    &&& hybrid_detected(probe, root, confs[0])
    &&& kotlin_detected(probe, root, confs[1])
    &&& r is None <==> (confs[0] is None && confs[1] is None)
    &&& r matches Some(fp) ==> picked_fingerprint(probe, root, confs, fp)
}

/// `fp` is the fingerprint of the best match among the confidences.
pub open spec fn picked_fingerprint<P: EnvProbe>(
    probe: &P,
    root: Seq<char>,
    confs: Seq<Option<u32>>,
    fp: ProjectFingerprint,
) -> bool {
    exists|i: int| is_best_index(confs, i) && #[trigger] registered_fingerprint(probe, root, i, fp)
}

/// Analyzes a project: every registered scenario is asked, and the result
/// is the fingerprint of the best match, `None` when no known scenario
/// matched.
pub fn analyze_project<P: EnvProbe>(probe: &P, project_root: &str) -> (r: Option<ProjectFingerprint>)
    ensures
        exists|confs: Seq<Option<u32>>| #[trigger] analysis_outcome(probe, project_root@, confs, r),
{
    let hybrid = HybridRustUniffiScenario;
    let kotlin = PureKotlinScenario;
    let mut confs: Vec<Option<u32>> = Vec::new();
    let c0 = hybrid.detect(probe, project_root);
    let c1 = kotlin.detect(probe, project_root);
    confs.push(c0);
    confs.push(c1);
    let ghost cs = confs@;
    assert(cs[0] == c0 && cs[1] == c1);
    assert(hybrid_detected(probe, project_root@, cs[0]));
    assert(kotlin_detected(probe, project_root@, cs[1]));
    let pick = best_scenario(&confs);
    match pick {
        None => {
            assert(cs[0] is None && cs[1] is None);
            assert(analysis_outcome(probe, project_root@, cs, None));
            None
        },
        Some(i) => {
            let fp = if i == 0 {
                let f = hybrid.fingerprint(probe, project_root);
                let ghost conf = choose|conf: Option<u32>|
                    #[trigger] hybrid_detected(probe, project_root@, conf) && f.confidence
                        == match conf {
                        Some(v) => v,
                        None => 0,
                    };
                assert(registered_detected(probe, project_root@, 0, conf));
                assert(registered_fingerprint(probe, project_root@, 0, f));
                f
            } else {
                let f = kotlin.fingerprint(probe, project_root);
                let ghost conf = choose|conf: Option<u32>|
                    #[trigger] kotlin_detected(probe, project_root@, conf) && f.confidence
                        == match conf {
                        Some(v) => v,
                        None => 0,
                    };
                assert(registered_detected(probe, project_root@, 1, conf));
                assert(registered_fingerprint(probe, project_root@, 1, f));
                f
            };
            assert(is_best_index(cs, i as int));
            assert(cs.len() == 2);
            assert(registered_fingerprint(probe, project_root@, i as int, fp));
            assert(picked_fingerprint(probe, project_root@, cs, fp));
            assert(analysis_outcome(probe, project_root@, cs, Some(fp)));
            Some(fp)
        },
    }
}

/// A project the hybrid scenario matches is never taken for pure Kotlin:
/// the hybrid match needs a root `Cargo.toml`, which drops the pure Kotlin
/// confidence below any hybrid confidence.
pub proof fn law_hybrid_wins_when_it_matches(
    has_cargo: bool,
    has_android: bool,
    uniffi: bool,
    has_settings: bool,
)
    requires
        spec_hybrid_confidence(has_cargo, has_android, uniffi) is Some,
    ensures
        is_best_index(
            seq![
                spec_hybrid_confidence(has_cargo, has_android, uniffi),
                spec_pure_kotlin_confidence(has_settings, has_cargo),
            ],
            0,
        ),
{
}

/// With both scenarios matched, hybrid is picked exactly when its
/// confidence is at least pure Kotlin's.
pub proof fn law_tie_goes_to_first_registered(a: u32, b: u32)
    ensures
        is_best_index(seq![Some(a), Some(b)], 0) <==> a >= b,
        is_best_index(seq![Some(a), Some(b)], 1) <==> b > a,
{
    let s = seq![Some(a), Some(b)];
    if a >= b {
        assert(s[1] == Some(b));
    }
    if b > a {
        assert(s[0] == Some(a));
    }
}

} // verus!
