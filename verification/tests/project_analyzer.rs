use bana::env_scanner::EnvProbe;
use bana::plugin_api::ProjectScenario;
use bana::project_analyzer::hybrid_rust_uniffi::{
    find_uniffi_bindgen_member, has_cargo_manifest, workspace_members,
};
use bana::project_analyzer::registry::best_scenario;
use bana::project_analyzer::{analyze_project, HybridRustUniffiScenario, PureKotlinScenario};
use std::collections::HashMap;

#[derive(Default)]
struct MockProbe {
    existing_paths: Vec<String>,
    files: HashMap<String, String>,
}

impl EnvProbe for MockProbe {
    fn read_env(&self, _key: &str) -> Option<String> {
        None
    }
    fn path_exists(&self, path: &str) -> bool {
        self.existing_paths.iter().any(|p| p == path)
    }
    fn read_to_string(&self, path: &str) -> Option<String> {
        self.files.get(path).cloned()
    }
    fn list_dir(&self, _path: &str) -> Vec<String> {
        Vec::new()
    }
    fn read_bytes(&self, _path: &str, _max_len: usize) -> Option<Vec<u8>> {
        None
    }
}

/// Confidences are in hundredths.
fn as_ratio(c: u32) -> f32 {
    c as f32 / 100.0
}

// ---------------------------------------------------------------- hybrid

#[test]
fn a_readable_cargo_manifest_counts_as_present() {
    let root = "/p";
    let mut probe = MockProbe::default();
    assert!(!has_cargo_manifest(&probe, root));
    probe.files.insert(format!("{root}/Cargo.toml"), "[package]\n".to_string());
    assert!(has_cargo_manifest(&probe, root));
    let mut listed = MockProbe::default();
    listed.existing_paths.push(format!("{root}/Cargo.toml"));
    assert!(has_cargo_manifest(&listed, root));
}

#[test]
fn hybrid_detection_accepts_a_manifest_that_is_only_readable() {
    let root = "/home/kali/bimarz";
    let mut probe = MockProbe::default();
    probe.existing_paths.push(format!("{root}/android/settings.gradle.kts"));
    probe.files.insert(
        format!("{root}/Cargo.toml"),
        "[workspace]\nmembers = [\"mobile-core\"]\n".to_string(),
    );
    probe.files.insert(
        format!("{root}/mobile-core/Cargo.toml"),
        "[dependencies]\nuniffi = \"0.27\"\n".to_string(),
    );
    assert_eq!(HybridRustUniffiScenario.detect(&probe, root), Some(95));
    let fp = analyze_project(&probe, root).unwrap();
    assert_eq!(fp.scenario_id, "hybrid-rust-uniffi");
    assert_eq!(fp.confidence, 95);
}

#[test]
fn detects_high_confidence_matching_real_bimarz_layout() {
    let root = "/home/kali/bimarz";
    let mut probe = MockProbe::default();
    probe.existing_paths.push(format!("{root}/Cargo.toml"));
    probe.existing_paths.push(format!("{root}/android/settings.gradle.kts"));
    probe.files.insert(
        format!("{root}/Cargo.toml"),
        "[workspace]\nmembers = [\"engine-core\"]\n[dependencies]\nuniffi = \"0.27\"\n".to_string(),
    );
    let confidence = HybridRustUniffiScenario.detect(&probe, root).unwrap();
    assert!(as_ratio(confidence) > 0.9);
}

#[test]
fn detects_uniffi_inside_a_workspace_member_not_just_root() {
    let root = "/home/kali/bimarz";
    let mut probe = MockProbe::default();
    probe.existing_paths.push(format!("{root}/Cargo.toml"));
    probe.existing_paths.push(format!("{root}/android/settings.gradle.kts"));
    probe.files.insert(
        format!("{root}/Cargo.toml"),
        "[workspace]\nresolver = \"2\"\nmembers = [\"engine-core\", \"mobile-core\"]\n".to_string(),
    );
    probe.files.insert(
        format!("{root}/mobile-core/Cargo.toml"),
        "[dependencies]\nuniffi = \"0.27\"\n".to_string(),
    );
    let confidence = HybridRustUniffiScenario.detect(&probe, root).unwrap();
    assert!(as_ratio(confidence) > 0.9);
}

#[test]
fn lowers_confidence_when_uniffi_not_mentioned() {
    let root = "/home/kali/some-other-hybrid";
    let mut probe = MockProbe::default();
    probe.existing_paths.push(format!("{root}/Cargo.toml"));
    probe.existing_paths.push(format!("{root}/android/settings.gradle.kts"));
    probe.files.insert(format!("{root}/Cargo.toml"), "[package]\nname = \"foo\"\n".to_string());
    let confidence = HybridRustUniffiScenario.detect(&probe, root).unwrap();
    assert!(as_ratio(confidence) < 0.6);
}

#[test]
fn returns_none_without_android_subproject() {
    let root = "/home/kali/pure-rust-lib";
    let mut probe = MockProbe::default();
    probe.existing_paths.push(format!("{root}/Cargo.toml"));
    assert!(HybridRustUniffiScenario.detect(&probe, root).is_none());
}

#[test]
fn returns_none_without_cargo_toml() {
    let root = "/home/kali/pure-android";
    let mut probe = MockProbe::default();
    probe.existing_paths.push(format!("{root}/android/settings.gradle.kts"));
    assert!(HybridRustUniffiScenario.detect(&probe, root).is_none());
}

#[test]
fn workspace_members_reads_the_quoted_names() {
    assert_eq!(
        workspace_members("[workspace]\nmembers = [\"engine-core\", \"mobile-core\"]\n"),
        vec!["engine-core", "mobile-core"]
    );
    assert_eq!(workspace_members("  members=[\"a\"]\r\nmembers = [\"b\"]"), vec!["a"]);
    assert!(workspace_members("[package]\nname = \"foo\"\n").is_empty());
}

#[test]
fn finds_the_member_that_mentions_uniffi() {
    let root = "/home/kali/bimarz";
    let mut probe = MockProbe::default();
    probe.files.insert(
        format!("{root}/Cargo.toml"),
        "[workspace]\nmembers = [\"engine-core\", \"mobile-core\"]\n".to_string(),
    );
    probe.files.insert(format!("{root}/engine-core/Cargo.toml"), "[package]\n".to_string());
    probe.files.insert(
        format!("{root}/mobile-core/Cargo.toml"),
        "[dependencies]\nuniffi = \"0.27\"\n".to_string(),
    );
    assert_eq!(find_uniffi_bindgen_member(&probe, root).as_deref(), Some("mobile-core"));
    assert_eq!(find_uniffi_bindgen_member(&MockProbe::default(), root), None);
}

// ---------------------------------------------------------------- pure kotlin

#[test]
fn detects_high_confidence_when_only_gradle_present() {
    let root = "/home/kali/my-app";
    let mut probe = MockProbe::default();
    probe.existing_paths.push(format!("{root}/settings.gradle.kts"));
    let confidence = PureKotlinScenario.detect(&probe, root).unwrap();
    assert!(as_ratio(confidence) > 0.8);
}

#[test]
fn lowers_confidence_when_cargo_toml_also_present() {
    let root = "/home/kali/bimarz/android";
    let mut probe = MockProbe::default();
    probe.existing_paths.push(format!("{root}/settings.gradle.kts"));
    probe.existing_paths.push(format!("{root}/Cargo.toml"));
    let confidence = PureKotlinScenario.detect(&probe, root).unwrap();
    assert!(as_ratio(confidence) < 0.5);
}

#[test]
fn returns_none_without_gradle_settings() {
    let probe = MockProbe::default();
    assert!(PureKotlinScenario.detect(&probe, "/home/kali/not-a-project").is_none());
}

#[test]
fn fingerprint_carries_the_same_confidence_as_detect() {
    let root = "/home/kali/my-app";
    let mut probe = MockProbe::default();
    probe.existing_paths.push(format!("{root}/settings.gradle.kts"));
    let fp = PureKotlinScenario.fingerprint(&probe, root);
    assert_eq!(fp.scenario_id, "pure-kotlin");
    assert_eq!(fp.root, root);
    assert!(as_ratio(fp.confidence) > 0.8);
    assert_eq!(Some(fp.confidence), PureKotlinScenario.detect(&probe, root));
}

#[test]
fn groovy_settings_count_as_gradle_settings() {
    let root = "/home/kali/old-app";
    let mut probe = MockProbe::default();
    probe.existing_paths.push(format!("{root}/settings.gradle"));
    assert_eq!(PureKotlinScenario.detect(&probe, root), Some(90));
}

// ---------------------------------------------------------------- registry

#[test]
fn picks_hybrid_over_pure_kotlin_when_both_signals_present() {
    let root = "/home/kali/bimarz";
    let mut probe = MockProbe::default();
    probe.existing_paths.push(format!("{root}/Cargo.toml"));
    probe.existing_paths.push(format!("{root}/android/settings.gradle.kts"));
    probe.files.insert(format!("{root}/Cargo.toml"), "[dependencies]\nuniffi = \"0.27\"\n".to_string());
    let fp = analyze_project(&probe, root).unwrap();
    assert_eq!(fp.scenario_id, "hybrid-rust-uniffi");
}

#[test]
fn picks_pure_kotlin_when_no_rust_signals() {
    let root = "/home/kali/my-simple-app";
    let mut probe = MockProbe::default();
    probe.existing_paths.push(format!("{root}/settings.gradle.kts"));
    let fp = analyze_project(&probe, root).unwrap();
    assert_eq!(fp.scenario_id, "pure-kotlin");
}

#[test]
fn returns_none_when_nothing_matches() {
    let probe = MockProbe::default();
    assert!(analyze_project(&probe, "/home/kali/random-folder").is_none());
}

#[test]
fn best_scenario_prefers_higher_then_earlier() {
    assert_eq!(best_scenario(&vec![Some(50), Some(90)]), Some(1));
    assert_eq!(best_scenario(&vec![Some(90), Some(90)]), Some(0));
    assert_eq!(best_scenario(&vec![None, Some(30)]), Some(1));
    assert_eq!(best_scenario(&vec![None, None]), None);
}

#[test]
fn hybrid_wins_even_with_gradle_settings_at_the_root() {
    let root = "/home/kali/mixed";
    let mut probe = MockProbe::default();
    probe.existing_paths.push(format!("{root}/Cargo.toml"));
    probe.existing_paths.push(format!("{root}/settings.gradle.kts"));
    probe.existing_paths.push(format!("{root}/android/settings.gradle"));
    let fp = analyze_project(&probe, root).unwrap();
    assert_eq!(fp.scenario_id, "hybrid-rust-uniffi");
    assert_eq!(fp.confidence, 50);
}
