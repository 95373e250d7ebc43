use bana::env_scanner::{CommandOutput, CommandRunner, EnvProbe};
use bana::toolchain_mgr::backend::{candidate_backends, pick_backend};
use bana::toolchain_mgr::recorder::{install_record, record_file_name};
use bana::toolchain_mgr::setup::setup_action_for;
use bana::toolchain_mgr::{
    android_sdk_tool, cache_dir_for, compute_cache_key, default_cache_root, install_bundled_tool,
    jdk_tool, package_name_for, select_backend, AptBackend, BackendKind, BundledToolSpec,
    InstallRecorder, PackageBackend, PacmanBackend, RealInstallRecorder, ToolchainError,
};
use bana::toolchain_mgr::{setup_bundled_tool, setup_bundled_tools};
use bana::types::{HostKind, InstallRecord, JdkInfo, SdkInfo, ToolStatus};
use std::collections::HashSet;
use std::sync::Mutex;

/// Only certain programs are "installed".
struct MockRunner {
    available_programs: HashSet<&'static str>,
    install_should_fail: bool,
}

impl CommandRunner for MockRunner {
    fn run(&self, program: &str, args: &[&str]) -> Option<CommandOutput> {
        if !self.available_programs.contains(program) {
            return None;
        }
        if args.first() == Some(&"install") || args.contains(&"-S") {
            return Some(CommandOutput {
                stdout: String::new(),
                stderr: if self.install_should_fail {
                    "unable to locate package".to_string()
                } else {
                    String::new()
                },
                success: !self.install_should_fail,
            });
        }
        Some(CommandOutput {
            stdout: "some version string".to_string(),
            stderr: String::new(),
            success: true,
        })
    }
}

/// Keeps records in memory for inspection.
#[derive(Default)]
struct InMemoryRecorder {
    records: Mutex<Vec<InstallRecord>>,
}

impl InstallRecorder for InMemoryRecorder {
    fn record(&self, record: &InstallRecord) -> Result<String, ToolchainError> {
        self.records.lock().unwrap().push(record.clone());
        Ok("in-memory".to_string())
    }
}

fn runner_with(programs: &[&'static str], fail: bool) -> MockRunner {
    MockRunner { available_programs: programs.iter().copied().collect(), install_should_fail: fail }
}

// ---------------------------------------------------------------- backend

#[test]
fn selects_apt_when_only_apt_available_on_linux() {
    let runner = runner_with(&["apt-get"], false);
    let backend = select_backend(&runner, &HostKind::KaliNetHunterProot).unwrap();
    assert_eq!(backend.name(), "apt");
}

#[test]
fn selects_pacman_when_only_pacman_available_on_linux() {
    let runner = runner_with(&["pacman"], false);
    let backend = select_backend(&runner, &HostKind::NativeLinux).unwrap();
    assert_eq!(backend.name(), "pacman");
}

#[test]
fn apt_takes_priority_when_both_available() {
    let runner = runner_with(&["apt-get", "pacman"], false);
    let backend = select_backend(&runner, &HostKind::NativeLinux).unwrap();
    assert_eq!(backend.name(), "apt");
}

#[test]
fn yay_takes_priority_over_plain_pacman_when_both_available() {
    let runner = runner_with(&["yay", "pacman"], false);
    let backend = select_backend(&runner, &HostKind::NativeLinux).unwrap();
    assert_eq!(backend.name(), "yay");
}

#[test]
fn falls_back_to_plain_pacman_when_yay_absent() {
    let runner = runner_with(&["pacman"], false);
    let backend = select_backend(&runner, &HostKind::NativeLinux).unwrap();
    assert_eq!(backend.name(), "pacman");
}

#[test]
fn returns_no_backend_available_when_nothing_matches() {
    let runner = runner_with(&[], false);
    let result = select_backend(&runner, &HostKind::NativeLinux);
    assert!(matches!(result, Err(ToolchainError::NoBackendAvailable)));
}

#[test]
fn install_success_is_ok() {
    let runner = runner_with(&["pacman"], false);
    let backend = PacmanBackend;
    assert!(backend.install(&runner, "jdk-openjdk").is_ok());
}

#[test]
fn install_failure_includes_real_stderr_reason() {
    let runner = runner_with(&["apt-get"], true);
    let backend = AptBackend;
    match backend.install(&runner, "totally-fake-package") {
        Err(ToolchainError::InstallFailed { reason, .. }) => {
            assert!(reason.contains("unable to locate package"));
        }
        other => panic!("expected InstallFailed, got {other:?}"),
    }
}

#[test]
fn install_of_missing_program_names_the_program() {
    let runner = runner_with(&[], false);
    match AptBackend.install(&runner, "default-jdk") {
        Err(ToolchainError::InstallFailed { backend, package, reason }) => {
            assert_eq!(backend, "apt");
            assert_eq!(package, "default-jdk");
            assert_eq!(reason, "could not execute `apt-get`");
        }
        other => panic!("expected InstallFailed, got {other:?}"),
    }
}

#[test]
fn unknown_host_has_no_candidates() {
    assert!(candidate_backends(&HostKind::Unknown).is_empty());
    let runner = runner_with(&["apt-get", "pacman", "brew"], false);
    assert!(matches!(
        select_backend(&runner, &HostKind::Unknown),
        Err(ToolchainError::NoBackendAvailable)
    ));
}

#[test]
fn candidates_follow_host_families() {
    assert_eq!(
        candidate_backends(&HostKind::NativeLinux),
        vec![BackendKind::Apt, BackendKind::Yay, BackendKind::Pacman]
    );
    assert_eq!(candidate_backends(&HostKind::Termux), vec![BackendKind::TermuxPkg]);
    assert_eq!(
        candidate_backends(&HostKind::Windows),
        vec![BackendKind::Winget, BackendKind::Choco]
    );
    assert_eq!(candidate_backends(&HostKind::MacOs), vec![BackendKind::Homebrew]);
}

#[test]
fn pick_backend_takes_first_available() {
    let cands = vec![BackendKind::Apt, BackendKind::Yay, BackendKind::Pacman];
    assert_eq!(pick_backend(&cands, &vec![false, true, true]).unwrap(), BackendKind::Yay);
    assert!(matches!(
        pick_backend(&cands, &vec![false, false, false]),
        Err(ToolchainError::NoBackendAvailable)
    ));
}

#[test]
fn install_arguments_per_backend() {
    assert_eq!(BackendKind::Apt.install_args("p"), vec!["install", "-y", "p"]);
    assert_eq!(BackendKind::Yay.install_args("p"), vec!["-S", "--noconfirm", "p"]);
    assert_eq!(BackendKind::Winget.install_args("p"), vec!["install", "-e", "--id", "p"]);
    assert_eq!(BackendKind::Homebrew.install_args("p"), vec!["install", "p"]);
    assert_eq!(BackendKind::TermuxPkg.program(), "pkg");
}

#[test]
fn error_messages_match_their_display() {
    assert_eq!(
        ToolchainError::NoBackendAvailable.message(),
        "no supported package backend found for this host"
    );
    let e = ToolchainError::InstallFailed {
        backend: "apt",
        package: "x".to_string(),
        reason: "boom".to_string(),
    };
    assert_eq!(e.message(), "installing 'x' via apt failed: boom");
}

// ---------------------------------------------------------------- bundled

struct BundledRunner {
    available_programs: HashSet<&'static str>,
}

impl CommandRunner for BundledRunner {
    fn run(&self, program: &str, args: &[&str]) -> Option<CommandOutput> {
        if !self.available_programs.contains(program) {
            return None;
        }
        Some(CommandOutput {
            stdout: String::new(),
            stderr: String::new(),
            success: args.first() != Some(&"__force_fail__"),
        })
    }
}

#[test]
fn finds_confirmed_package_name() {
    assert_eq!(package_name_for(&jdk_tool(), "apt"), Some("default-jdk"));
    assert_eq!(package_name_for(&jdk_tool(), "pacman"), Some("jdk-openjdk"));
}

#[test]
fn returns_none_for_unconfirmed_combination() {
    assert_eq!(package_name_for(&android_sdk_tool(), "pkg"), None);
}

#[test]
fn install_uses_the_confirmed_package_name() {
    let runner = BundledRunner { available_programs: HashSet::from(["apt-get"]) };
    let backend = AptBackend;
    let recorder = InMemoryRecorder::default();
    assert!(install_bundled_tool(&runner, &backend, &jdk_tool(), &recorder).is_ok());
}

#[test]
fn install_fails_clearly_when_combination_unconfirmed() {
    let runner = BundledRunner { available_programs: HashSet::from(["apt-get"]) };
    let backend = AptBackend;
    let recorder = InMemoryRecorder::default();
    let unconfirmed = BundledToolSpec { id: "made_up_tool", package_by_backend: &[("pacman", "whatever")] };
    assert!(matches!(
        install_bundled_tool(&runner, &backend, &unconfirmed, &recorder),
        Err(ToolchainError::NoPackageForBackend { .. })
    ));
    assert!(recorder.records.lock().unwrap().is_empty());
}

#[test]
fn writes_a_record_after_successful_install() {
    let runner = BundledRunner { available_programs: HashSet::from(["apt-get"]) };
    let backend = AptBackend;
    let recorder = InMemoryRecorder::default();
    install_bundled_tool(&runner, &backend, &jdk_tool(), &recorder).unwrap();
    let records = recorder.records.lock().unwrap();
    assert_eq!(records.len(), 1);
    assert_eq!(records[0].tool_id, "jdk");
    assert_eq!(records[0].backend_used, "apt");
    assert_eq!(records[0].package_name, "default-jdk");
    assert!(records[0].success);
    assert!(records[0].failure_reason.is_none());
}

#[test]
fn writes_a_record_after_failed_install_too() {
    let runner = BundledRunner { available_programs: HashSet::new() };
    let backend = AptBackend;
    let recorder = InMemoryRecorder::default();
    let result = install_bundled_tool(&runner, &backend, &jdk_tool(), &recorder);
    assert!(result.is_err());
    let records = recorder.records.lock().unwrap();
    assert_eq!(records.len(), 1);
    assert!(!records[0].success);
    assert!(records[0].failure_reason.is_some());
}

#[test]
fn first_matching_catalog_pair_wins() {
    let spec = BundledToolSpec { id: "t", package_by_backend: &[("apt", "first"), ("apt", "second")] };
    assert_eq!(package_name_for(&spec, "apt"), Some("first"));
    assert_eq!(package_name_for(&spec, "yay"), None);
}

// ---------------------------------------------------------------- cache

#[test]
fn same_key_parts_produce_the_same_hash() {
    let a = compute_cache_key(&["ndk", "26.1.10909125"]);
    let b = compute_cache_key(&["ndk", "26.1.10909125"]);
    assert_eq!(a, b);
}

#[test]
fn different_key_parts_produce_different_hashes() {
    let a = compute_cache_key(&["ndk", "26.1.10909125"]);
    let b = compute_cache_key(&["ndk", "25.2.9519653"]);
    assert_ne!(a, b);
}

#[test]
fn part_boundaries_do_not_collide() {
    let a = compute_cache_key(&["ab", "c"]);
    let b = compute_cache_key(&["a", "bc"]);
    assert_ne!(a, b);
}

#[test]
fn cache_dir_for_builds_expected_path() {
    let root = "/home/kali/.cache/bana";
    let key = compute_cache_key(&["ndk", "26.1.10909125"]);
    let expected = format!("{root}/{key}");
    assert_eq!(cache_dir_for(root, &["ndk", "26.1.10909125"]), expected);
}

#[test]
fn cache_key_matches_fnv1a_reference_values() {
    // FNV-1a 64 of the empty input is the offset basis itself.
    assert_eq!(compute_cache_key(&[]), "cbf29ce484222325");
    // One part "a": hash "a" then the 0xff separator.
    let mut h: u64 = 0xcbf29ce484222325;
    for b in [b'a', 0xffu8] {
        h ^= u64::from(b);
        h = h.wrapping_mul(0x100000001b3);
    }
    assert_eq!(compute_cache_key(&["a"]), format!("{h:016x}"));
}

#[test]
fn cache_key_is_sixteen_lowercase_hex_digits() {
    for parts in [vec!["ndk", "26.1.10909125"], vec![], vec!["ünïcode", ""]] {
        let key = compute_cache_key(&parts);
        assert_eq!(key.len(), 16);
        assert!(key.chars().all(|c| c.is_ascii_digit() || ('a'..='f').contains(&c)));
    }
}

#[test]
fn default_cache_root_is_under_home() {
    assert_eq!(default_cache_root("/home/kali"), "/home/kali/.cache/bana");
    assert_eq!(default_cache_root("/home/kali/"), "/home/kali/.cache/bana");
}

// ---------------------------------------------------------------- recorder

#[test]
fn in_memory_recorder_keeps_records_for_inspection() {
    let recorder = InMemoryRecorder::default();
    let record = InstallRecord {
        tool_id: "android_sdk".to_string(),
        backend_used: "yay".to_string(),
        package_name: "android-sdk".to_string(),
        timestamp_unix: 0,
        success: false,
        failure_reason: Some("network unreachable".to_string()),
    };
    recorder.record(&record).unwrap();
    assert_eq!(recorder.records.lock().unwrap().len(), 1);
}

#[test]
fn real_recorder_paths_are_under_home() {
    let recorder = RealInstallRecorder::under_home("/home/kali");
    assert_eq!(recorder.installs_dir, "/home/kali/.bana/installs");
    let record = InstallRecord {
        tool_id: "jdk".to_string(),
        backend_used: "apt".to_string(),
        package_name: "default-jdk".to_string(),
        timestamp_unix: 1700000000,
        success: true,
        failure_reason: None,
    };
    assert_eq!(record_file_name(&record), "1700000000-jdk-apt.json");
    assert_eq!(recorder.record_path(&record), "/home/kali/.bana/installs/1700000000-jdk-apt.json");
}

#[test]
fn install_record_carries_the_error_message() {
    let err: Result<(), ToolchainError> = Err(ToolchainError::NoBackendAvailable);
    let rec = install_record("jdk", "apt", "default-jdk", 7, &err);
    assert!(!rec.success);
    assert_eq!(rec.failure_reason.as_deref(), Some("no supported package backend found for this host"));
    let ok: Result<(), ToolchainError> = Ok(());
    assert!(install_record("jdk", "apt", "default-jdk", 7, &ok).success);
}

// ---------------------------------------------------------------- setup

#[test]
fn setup_actions_by_outcome() {
    let none: Result<(), ToolchainError> = Ok(());
    let sel: Result<BackendKind, ToolchainError> = Ok(BackendKind::Yay);
    let a = setup_action_for("jdk", true, &sel, &none);
    assert_eq!(a.outcome, "already_satisfied");
    assert!(a.detail.is_none());
    let a = setup_action_for("jdk", false, &sel, &none);
    assert_eq!(a.outcome, "installed");
    assert_eq!(a.detail.as_deref(), Some("via yay"));
    let no: Result<BackendKind, ToolchainError> = Err(ToolchainError::NoBackendAvailable);
    let a = setup_action_for("android_sdk", false, &no, &none);
    assert_eq!(a.outcome, "no_backend");
    let failed: Result<(), ToolchainError> = Err(ToolchainError::NoBackendAvailable);
    assert_eq!(setup_action_for("jdk", false, &sel, &failed).outcome, "failed");
}

/// Counts every command it is asked to run; nothing is installed.
#[derive(Default)]
struct CountingRunner {
    calls: Mutex<usize>,
}

impl CommandRunner for CountingRunner {
    fn run(&self, _program: &str, _args: &[&str]) -> Option<CommandOutput> {
        *self.calls.lock().unwrap() += 1;
        None
    }
}

#[test]
fn setup_leaves_found_tools_untouched() {
    let runner = CountingRunner::default();
    let recorder = InMemoryRecorder::default();
    let status = ToolStatus::Found {
        path: "java".to_string(),
        info: JdkInfo { version: "21.0.11".to_string() },
        verified: true,
    };
    let action = setup_bundled_tool(&runner, &status, &HostKind::NativeLinux, &jdk_tool(), &recorder);
    assert_eq!(action.tool_id, "jdk");
    assert_eq!(action.outcome, "already_satisfied");
    assert_eq!(*runner.calls.lock().unwrap(), 0);
    assert!(recorder.records.lock().unwrap().is_empty());
}

#[test]
fn setup_reports_no_backend_when_none_answers() {
    let runner = CountingRunner::default();
    let recorder = InMemoryRecorder::default();
    let status: ToolStatus<SdkInfo> = ToolStatus::NotFound;
    let action =
        setup_bundled_tool(&runner, &status, &HostKind::NativeLinux, &android_sdk_tool(), &recorder);
    assert_eq!(action.tool_id, "android_sdk");
    assert_eq!(action.outcome, "no_backend");
    assert_eq!(action.detail.as_deref(), Some("no supported package backend found for this host"));
}

/// An environment where nothing is set and nothing exists.
struct NoProbe;

impl EnvProbe for NoProbe {
    fn read_env(&self, _key: &str) -> Option<String> {
        None
    }
    fn path_exists(&self, _path: &str) -> bool {
        false
    }
    fn read_to_string(&self, _path: &str) -> Option<String> {
        None
    }
    fn list_dir(&self, _path: &str) -> Vec<String> {
        Vec::new()
    }
}

#[test]
fn setup_installs_through_the_selected_backend() {
    // Only `yay` exists; `java -version` cannot run, so the JDK is missing.
    let runner = runner_with(&["yay"], false);
    let recorder = InMemoryRecorder::default();
    let actions = setup_bundled_tools(&NoProbe, &runner, &HostKind::NativeLinux, &recorder);
    assert_eq!(actions.len(), 2);
    assert_eq!(actions[0].tool_id, "jdk");
    assert_eq!(actions[0].outcome, "installed");
    assert_eq!(actions[0].detail.as_deref(), Some("via yay"));
    assert_eq!(actions[1].tool_id, "android_sdk");
    assert_eq!(actions[1].outcome, "installed");
    let records = recorder.records.lock().unwrap();
    assert_eq!(records.len(), 2);
    assert_eq!(records[0].package_name, "jdk-openjdk");
    assert_eq!(records[1].package_name, "android-sdk");
}

#[test]
fn clock_reads_after_the_epoch() {
    assert!(bana::toolchain_mgr::current_unix_timestamp() > 1_600_000_000);
}
