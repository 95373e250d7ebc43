use bana::env_scanner::aapt2::{EM_AARCH64, EM_X86_64};
use bana::env_scanner::host::{
    detect_home_dir, detect_host_environment, detect_host_kind, detect_systemd_stubbed,
};
use bana::env_scanner::sdk::candidate_paths;
use bana::paths::paths_equal;
use bana::env_scanner::{
    detect_aapt2, detect_gradle_wrapper, detect_jdk, detect_ndk, detect_sdk, CommandOutput,
    CommandRunner, EnvProbe,
};
use bana::types::{HostArch, HostKind, ToolStatus};
use std::collections::HashMap;

#[derive(Default)]
struct MockProbe {
    env: HashMap<String, String>,
    existing_paths: Vec<String>,
    files: HashMap<String, String>,
    dirs: HashMap<String, Vec<String>>,
    bytes: HashMap<String, Vec<u8>>,
}

impl EnvProbe for MockProbe {
    fn read_env(&self, key: &str) -> Option<String> {
        self.env.get(key).cloned()
    }
    fn path_exists(&self, path: &str) -> bool {
        self.existing_paths.iter().any(|p| p == path)
    }
    fn read_to_string(&self, path: &str) -> Option<String> {
        self.files.get(path).cloned()
    }
    fn list_dir(&self, path: &str) -> Vec<String> {
        self.dirs.get(path).cloned().unwrap_or_default()
    }
    fn read_bytes(&self, path: &str, _max_len: usize) -> Option<Vec<u8>> {
        self.bytes.get(path).cloned()
    }
}

fn s(x: &str) -> String {
    x.to_string()
}

// ---------------------------------------------------------------- host

#[test]
fn detects_kali_nethunter_proot_via_termux_dir() {
    let mut probe = MockProbe::default();
    probe.existing_paths.push(s("/termux"));
    probe.files.insert(s("/etc/os-release"), s("NAME=\"Kali GNU/Linux\""));
    assert_eq!(detect_host_kind(&probe, "linux"), HostKind::KaliNetHunterProot);
}

#[test]
fn detects_kali_nethunter_proot_via_sdcard_dir() {
    let mut probe = MockProbe::default();
    probe.existing_paths.push(s("/sdcard"));
    probe.files.insert(s("/etc/os-release"), s("NAME=\"Kali GNU/Linux\""));
    assert_eq!(detect_host_kind(&probe, "linux"), HostKind::KaliNetHunterProot);
}

#[test]
fn android_signal_without_kali_os_release_is_not_proot() {
    let mut probe = MockProbe::default();
    probe.existing_paths.push(s("/termux"));
    assert_ne!(detect_host_kind(&probe, "linux"), HostKind::KaliNetHunterProot);
}

#[test]
fn detects_plain_termux() {
    let mut probe = MockProbe::default();
    probe.env.insert(s("TERMUX_VERSION"), s("0.118"));
    assert_eq!(detect_host_kind(&probe, "linux"), HostKind::Termux);
}

#[test]
fn detects_native_linux_when_no_special_signal() {
    let probe = MockProbe::default();
    assert_eq!(detect_host_kind(&probe, "linux"), HostKind::NativeLinux);
}

#[test]
fn detects_systemd_stubbed_when_binary_present_but_not_running() {
    let mut probe = MockProbe::default();
    probe.existing_paths.push(s("/usr/bin/systemd-sysusers"));
    assert!(detect_systemd_stubbed(&probe));
}

#[test]
fn detects_systemd_not_stubbed_when_actually_running() {
    let mut probe = MockProbe::default();
    probe.existing_paths.push(s("/usr/bin/systemd-sysusers"));
    probe.existing_paths.push(s("/run/systemd/system"));
    assert!(!detect_systemd_stubbed(&probe));
}

#[test]
fn detects_systemd_not_stubbed_when_binary_absent() {
    let probe = MockProbe::default();
    assert!(!detect_systemd_stubbed(&probe));
}

#[test]
fn falls_back_to_userprofile_when_home_missing() {
    let mut probe = MockProbe::default();
    probe.env.insert(s("USERPROFILE"), s("C:\\Users\\test"));
    assert_eq!(detect_home_dir(&probe), "C:\\Users\\test");
}

#[test]
fn full_detection_wires_all_fields_together() {
    let mut probe = MockProbe::default();
    probe.env.insert(s("HOME"), s("/home/kali"));
    probe.env.insert(s("SHELL"), s("/bin/zsh"));
    let env = detect_host_environment(&probe, "linux", "aarch64");
    assert_eq!(env.home_dir, "/home/kali");
    assert_eq!(env.shell, "/bin/zsh");
}

#[test]
fn non_linux_targets_are_not_probed() {
    let mut probe = MockProbe::default();
    probe.env.insert(s("TERMUX_VERSION"), s("0.118"));
    assert_eq!(detect_host_kind(&probe, "windows"), HostKind::Windows);
    assert_eq!(detect_host_kind(&probe, "macos"), HostKind::MacOs);
    assert_eq!(detect_host_kind(&probe, "freebsd"), HostKind::Unknown);
}

#[test]
fn host_arch_follows_target_arch() {
    let probe = MockProbe::default();
    assert_eq!(detect_host_environment(&probe, "linux", "aarch64").arch, HostArch::Aarch64);
    assert_eq!(detect_host_environment(&probe, "linux", "x86_64").arch, HostArch::X86_64);
    assert_eq!(detect_host_environment(&probe, "linux", "riscv64").arch, HostArch::Unknown);
}

#[test]
fn home_and_shell_defaults_when_unset() {
    let probe = MockProbe::default();
    let env = detect_host_environment(&probe, "linux", "aarch64");
    assert_eq!(env.home_dir, ".");
    assert_eq!(env.shell, "unknown");
}

// ---------------------------------------------------------------- jdk

struct JdkRunner {
    stderr: &'static str,
    exists: bool,
}

impl CommandRunner for JdkRunner {
    fn run(&self, _program: &str, _args: &[&str]) -> Option<CommandOutput> {
        if !self.exists {
            return None;
        }
        Some(CommandOutput { stdout: String::new(), stderr: self.stderr.to_string(), success: true })
    }
}

#[test]
fn detects_real_openjdk_version_string() {
    let runner = JdkRunner {
        stderr: "openjdk version \"21.0.11\" 2024-04-16\nOpenJDK Runtime Environment",
        exists: true,
    };
    match detect_jdk(&runner) {
        ToolStatus::Found { info, verified, .. } => {
            assert_eq!(info.version, "21.0.11");
            assert!(verified);
        }
        other => panic!("expected Found, got {other:?}"),
    }
}

#[test]
fn reports_not_found_when_command_missing() {
    let runner = JdkRunner { stderr: "", exists: false };
    assert!(matches!(detect_jdk(&runner), ToolStatus::NotFound));
}

#[test]
fn reports_incompatible_when_output_unparseable() {
    let runner = JdkRunner { stderr: "some garbage output with no quotes", exists: true };
    assert!(matches!(detect_jdk(&runner), ToolStatus::FoundButIncompatible { .. }));
}

// ---------------------------------------------------------------- sdk

#[test]
fn detects_sdk_via_android_home_env_var() {
    let mut probe = MockProbe::default();
    probe.env.insert(s("ANDROID_HOME"), s("/opt/my-sdk"));
    probe.existing_paths.push(s("/opt/my-sdk/platforms"));
    probe.existing_paths.push(s("/opt/my-sdk/build-tools"));
    probe.dirs.insert(s("/opt/my-sdk/platforms"), vec![s("android-34")]);
    probe.dirs.insert(s("/opt/my-sdk/build-tools"), vec![s("34.0.0")]);
    match detect_sdk(&probe, &HostKind::NativeLinux) {
        ToolStatus::Found { path, info, .. } => {
            assert_eq!(path, "/opt/my-sdk");
            assert_eq!(info.installed_platforms, vec!["android-34"]);
            assert_eq!(info.installed_build_tools, vec!["34.0.0"]);
        }
        other => panic!("expected Found, got {other:?}"),
    }
}

#[test]
fn falls_back_to_kali_default_path_when_no_env_var() {
    let mut probe = MockProbe::default();
    probe.existing_paths.push(s("/usr/lib/android-sdk/platforms"));
    probe.existing_paths.push(s("/usr/lib/android-sdk/build-tools"));
    probe.dirs.insert(s("/usr/lib/android-sdk/platforms"), vec![s("android-35")]);
    probe.dirs.insert(s("/usr/lib/android-sdk/build-tools"), vec![s("35.0.0")]);
    match detect_sdk(&probe, &HostKind::KaliNetHunterProot) {
        ToolStatus::Found { path, .. } => assert_eq!(path, "/usr/lib/android-sdk"),
        other => panic!("expected Found, got {other:?}"),
    }
}

#[test]
fn reports_incompatible_when_structure_exists_but_empty() {
    let mut probe = MockProbe::default();
    probe.env.insert(s("ANDROID_HOME"), s("/opt/empty-sdk"));
    probe.existing_paths.push(s("/opt/empty-sdk/platforms"));
    probe.existing_paths.push(s("/opt/empty-sdk/build-tools"));
    assert!(matches!(
        detect_sdk(&probe, &HostKind::NativeLinux),
        ToolStatus::FoundButIncompatible { .. }
    ));
}

#[test]
fn reports_not_found_when_no_candidate_has_structure() {
    let probe = MockProbe::default();
    assert!(matches!(detect_sdk(&probe, &HostKind::NativeLinux), ToolStatus::NotFound));
}

#[test]
fn env_var_takes_priority_over_default_path() {
    let mut probe = MockProbe::default();
    probe.env.insert(s("ANDROID_HOME"), s("/custom/sdk"));
    for root in ["/custom/sdk", "/usr/lib/android-sdk"] {
        probe.existing_paths.push(format!("{root}/platforms"));
        probe.existing_paths.push(format!("{root}/build-tools"));
        probe.dirs.insert(format!("{root}/platforms"), vec![s("android-34")]);
        probe.dirs.insert(format!("{root}/build-tools"), vec![s("34.0.0")]);
    }
    match detect_sdk(&probe, &HostKind::KaliNetHunterProot) {
        ToolStatus::Found { path, .. } => assert_eq!(path, "/custom/sdk"),
        other => panic!("expected Found, got {other:?}"),
    }
}

#[test]
fn dedupes_when_android_home_and_sdk_root_are_identical() {
    let mut probe = MockProbe::default();
    probe.env.insert(s("ANDROID_HOME"), s("/home/kali/android-sdk"));
    probe.env.insert(s("ANDROID_SDK_ROOT"), s("/home/kali/android-sdk"));
    let paths = candidate_paths(&probe, &HostKind::KaliNetHunterProot);
    let occurrences = paths.iter().filter(|p| p.as_str() == "/home/kali/android-sdk").count();
    assert_eq!(occurrences, 1);
}

#[test]
fn sdk_roots_are_compared_as_paths() {
    let mut probe = MockProbe::default();
    probe.env.insert(s("ANDROID_HOME"), s("/opt/sdk/"));
    probe.env.insert(s("ANDROID_SDK_ROOT"), s("/opt/sdk"));
    let paths = candidate_paths(&probe, &HostKind::Unknown);
    assert_eq!(paths, vec![s("/opt/sdk/")]);
}

#[test]
fn one_ndk_under_two_spellings_of_a_root_is_found_once() {
    let mut probe = MockProbe::default();
    probe.env.insert(s("ANDROID_HOME"), s("/opt/sdk/"));
    probe.env.insert(s("ANDROID_SDK_ROOT"), s("/opt/sdk"));
    probe.existing_paths.push(s("/opt/sdk/ndk"));
    probe.dirs.insert(s("/opt/sdk/ndk"), vec![s("26.1.10909125")]);
    probe.files.insert(s("/opt/sdk/ndk/26.1.10909125/source.properties"), s(REAL_NDK_PROPS));
    match detect_ndk(&probe, &HostKind::Unknown) {
        ToolStatus::Found { path, info, .. } => {
            assert_eq!(path, "/opt/sdk/ndk/26.1.10909125");
            assert_eq!(info.version, "26.1.10909125");
        },
        other => panic!("expected Found, got {other:?}"),
    }
}

#[test]
fn paths_are_equal_component_by_component() {
    assert!(paths_equal("/a//b/", "/a/b"));
    assert!(paths_equal("a/./b/.", "a/b"));
    assert!(paths_equal("/", "//"));
    assert!(!paths_equal("./a", "a"));
    assert!(!paths_equal("/a", "a"));
    assert!(!paths_equal("/a/../b", "/b"));
    assert!(!paths_equal("/a/b", "/a/c"));
}

#[test]
fn sdk_candidates_are_distinct_and_env_first() {
    let mut probe = MockProbe::default();
    probe.env.insert(s("ANDROID_HOME"), s("/usr/lib/android-sdk"));
    probe.env.insert(s("HOME"), s("/home/kali"));
    let paths = candidate_paths(&probe, &HostKind::KaliNetHunterProot);
    assert_eq!(paths[0], "/usr/lib/android-sdk");
    for i in 0..paths.len() {
        for j in (i + 1)..paths.len() {
            assert_ne!(paths[i], paths[j]);
        }
    }
}

// ---------------------------------------------------------------- ndk

const REAL_NDK_PROPS: &str = "Pkg.Desc = Android NDK\nPkg.Revision = 26.1.10909125\n";

#[test]
fn detects_ndk_via_explicit_env_var() {
    let mut probe = MockProbe::default();
    probe.env.insert(s("ANDROID_NDK_HOME"), s("/opt/my-ndk"));
    probe.files.insert(s("/opt/my-ndk/source.properties"), s(REAL_NDK_PROPS));
    match detect_ndk(&probe, &HostKind::NativeLinux) {
        ToolStatus::Found { path, info, .. } => {
            assert_eq!(path, "/opt/my-ndk");
            assert_eq!(info.version, "26.1.10909125");
        }
        other => panic!("expected Found, got {other:?}"),
    }
}

#[test]
fn env_var_set_but_invalid_is_incompatible() {
    let mut probe = MockProbe::default();
    probe.env.insert(s("ANDROID_NDK_HOME"), s("/opt/not-really-ndk"));
    assert!(matches!(
        detect_ndk(&probe, &HostKind::NativeLinux),
        ToolStatus::FoundButIncompatible { .. }
    ));
}

#[test]
fn finds_single_version_under_sdk_ndk_folder() {
    let mut probe = MockProbe::default();
    probe.existing_paths.push(s("/usr/lib/android-sdk/ndk"));
    probe.dirs.insert(s("/usr/lib/android-sdk/ndk"), vec![s("26.1.10909125")]);
    probe.files.insert(
        s("/usr/lib/android-sdk/ndk/26.1.10909125/source.properties"),
        s(REAL_NDK_PROPS),
    );
    match detect_ndk(&probe, &HostKind::KaliNetHunterProot) {
        ToolStatus::Found { info, .. } => assert_eq!(info.version, "26.1.10909125"),
        other => panic!("expected Found, got {other:?}"),
    }
}

#[test]
fn ignores_non_ndk_folders_without_correct_pkg_desc() {
    let mut probe = MockProbe::default();
    probe.existing_paths.push(s("/usr/lib/android-sdk/ndk"));
    probe.dirs.insert(s("/usr/lib/android-sdk/ndk"), vec![s("not-actually-ndk")]);
    probe.files.insert(
        s("/usr/lib/android-sdk/ndk/not-actually-ndk/source.properties"),
        s("Pkg.Desc = Something Else Entirely\nPkg.Revision = 1.0\n"),
    );
    assert!(matches!(detect_ndk(&probe, &HostKind::KaliNetHunterProot), ToolStatus::NotFound));
}

#[test]
fn reports_ambiguous_when_multiple_versions_found() {
    let mut probe = MockProbe::default();
    probe.existing_paths.push(s("/usr/lib/android-sdk/ndk"));
    probe
        .dirs
        .insert(s("/usr/lib/android-sdk/ndk"), vec![s("25.2.9519653"), s("26.1.10909125")]);
    probe.files.insert(
        s("/usr/lib/android-sdk/ndk/25.2.9519653/source.properties"),
        s("Pkg.Desc = Android NDK\nPkg.Revision = 25.2.9519653\n"),
    );
    probe.files.insert(
        s("/usr/lib/android-sdk/ndk/26.1.10909125/source.properties"),
        s(REAL_NDK_PROPS),
    );
    match detect_ndk(&probe, &HostKind::KaliNetHunterProot) {
        ToolStatus::AmbiguousMultiple { candidates } => assert_eq!(candidates.len(), 2),
        other => panic!("expected AmbiguousMultiple, got {other:?}"),
    }
}

#[test]
fn does_not_double_count_one_ndk_when_home_and_sdk_root_are_identical() {
    let mut probe = MockProbe::default();
    probe.env.insert(s("ANDROID_HOME"), s("/home/kali/android-sdk"));
    probe.env.insert(s("ANDROID_SDK_ROOT"), s("/home/kali/android-sdk"));
    probe.existing_paths.push(s("/home/kali/android-sdk/ndk"));
    probe.dirs.insert(s("/home/kali/android-sdk/ndk"), vec![s("27.3.13750724")]);
    probe.files.insert(
        s("/home/kali/android-sdk/ndk/27.3.13750724/source.properties"),
        s("Pkg.Desc = Android NDK\nPkg.Revision = 27.3.13750724\n"),
    );
    match detect_ndk(&probe, &HostKind::KaliNetHunterProot) {
        ToolStatus::Found { info, .. } => assert_eq!(info.version, "27.3.13750724"),
        other => panic!("expected Found, got {other:?}"),
    }
}

#[test]
fn ndk_reports_not_found_when_nothing_present() {
    let probe = MockProbe::default();
    assert!(matches!(detect_ndk(&probe, &HostKind::NativeLinux), ToolStatus::NotFound));
}

// ---------------------------------------------------------------- gradle wrapper

const REAL_PROPS: &str =
    "distributionUrl=https\\://services.gradle.org/distributions/gradle-8.7-bin.zip\n";

#[test]
fn detects_complete_wrapper() {
    let root = "/home/kali/bimarz/android";
    let mut probe = MockProbe::default();
    probe.existing_paths.push(format!("{root}/gradlew"));
    probe.existing_paths.push(format!("{root}/gradle/wrapper/gradle-wrapper.jar"));
    probe.files.insert(format!("{root}/gradle/wrapper/gradle-wrapper.properties"), s(REAL_PROPS));
    match detect_gradle_wrapper(&probe, root) {
        ToolStatus::Found { info, .. } => {
            assert!(info.gradlew_present);
            assert!(info.wrapper_jar_present);
            assert_eq!(info.distribution_version, "8.7");
        }
        other => panic!("expected Found, got {other:?}"),
    }
}

#[test]
fn gradle_reports_not_found_when_nothing_present() {
    let probe = MockProbe::default();
    assert!(matches!(
        detect_gradle_wrapper(&probe, "/home/kali/some-empty-project"),
        ToolStatus::NotFound
    ));
}

#[test]
fn reports_incompatible_when_gradlew_missing() {
    let root = "/home/kali/bimarz/android";
    let mut probe = MockProbe::default();
    probe.existing_paths.push(format!("{root}/gradle/wrapper/gradle-wrapper.jar"));
    probe.files.insert(format!("{root}/gradle/wrapper/gradle-wrapper.properties"), s(REAL_PROPS));
    assert!(matches!(
        detect_gradle_wrapper(&probe, root),
        ToolStatus::FoundButIncompatible { .. }
    ));
}

#[test]
fn reports_incompatible_when_properties_missing_but_gradlew_present() {
    let root = "/home/kali/bimarz/android";
    let mut probe = MockProbe::default();
    probe.existing_paths.push(format!("{root}/gradlew"));
    assert!(matches!(
        detect_gradle_wrapper(&probe, root),
        ToolStatus::FoundButIncompatible { .. }
    ));
}

#[test]
fn reports_incompatible_when_distribution_url_unparseable() {
    let root = "/home/kali/bimarz/android";
    let mut probe = MockProbe::default();
    probe.existing_paths.push(format!("{root}/gradlew"));
    probe.existing_paths.push(format!("{root}/gradle/wrapper/gradle-wrapper.jar"));
    probe.files.insert(
        format!("{root}/gradle/wrapper/gradle-wrapper.properties"),
        s("someOtherKey=someValue\n"),
    );
    assert!(matches!(
        detect_gradle_wrapper(&probe, root),
        ToolStatus::FoundButIncompatible { .. }
    ));
}

// ---------------------------------------------------------------- aapt2

struct VersionRunner {
    stdout: &'static str,
}

impl CommandRunner for VersionRunner {
    fn run(&self, _program: &str, _args: &[&str]) -> Option<CommandOutput> {
        Some(CommandOutput { stdout: self.stdout.to_string(), stderr: String::new(), success: true })
    }
}

fn fake_elf(machine: u16) -> Vec<u8> {
    let mut bytes = vec![0u8; 20];
    bytes[0..4].copy_from_slice(b"\x7fELF");
    bytes[18..20].copy_from_slice(&machine.to_le_bytes());
    bytes
}

fn probe_with_build_tools() -> MockProbe {
    let mut probe = MockProbe::default();
    probe.existing_paths.push(s("/usr/lib/android-sdk/build-tools"));
    probe.dirs.insert(s("/usr/lib/android-sdk/build-tools"), vec![s("34.0.0")]);
    probe
}

#[test]
fn detects_matching_architecture_and_runs_version() {
    let mut probe = probe_with_build_tools();
    let path = s("/usr/lib/android-sdk/build-tools/34.0.0/aapt2");
    probe.existing_paths.push(path.clone());
    probe.bytes.insert(path, fake_elf(EM_AARCH64));
    let runner = VersionRunner { stdout: "Android Asset Packaging Tool (aapt) 2.19-..." };
    match detect_aapt2(&probe, &runner, &HostKind::KaliNetHunterProot, &HostArch::Aarch64) {
        ToolStatus::Found { info, .. } => {
            assert!(!info.arch_mismatch);
            assert!(info.version.contains("2.19"));
        }
        other => panic!("expected Found, got {other:?}"),
    }
}

#[test]
fn reports_arch_mismatch_when_only_wrong_binary_found() {
    let mut probe = probe_with_build_tools();
    let path = s("/usr/lib/android-sdk/build-tools/34.0.0/aapt2");
    probe.existing_paths.push(path.clone());
    probe.bytes.insert(path, fake_elf(EM_X86_64));
    let runner = VersionRunner { stdout: "" };
    match detect_aapt2(&probe, &runner, &HostKind::KaliNetHunterProot, &HostArch::Aarch64) {
        ToolStatus::FoundButIncompatible { info, reason, .. } => {
            assert!(info.arch_mismatch);
            assert!(reason.contains("x86_64"));
            assert!(reason.contains("aarch64"));
        }
        other => panic!("expected FoundButIncompatible, got {other:?}"),
    }
}

#[test]
fn matching_candidate_wins_even_after_wrong_arch_candidate() {
    let mut probe = probe_with_build_tools();
    let wrong = s("/usr/bin/aapt2");
    let right = s("/usr/lib/android-sdk/build-tools/34.0.0/aapt2");
    probe.existing_paths.push(right.clone());
    probe.bytes.insert(right, fake_elf(EM_AARCH64));
    probe.env.insert(s("PATH"), s("/usr/bin"));
    probe.existing_paths.push(wrong.clone());
    probe.bytes.insert(wrong, fake_elf(EM_X86_64));
    let runner = VersionRunner { stdout: "aapt2 ok" };
    match detect_aapt2(&probe, &runner, &HostKind::KaliNetHunterProot, &HostArch::Aarch64) {
        ToolStatus::Found { info, .. } => assert!(!info.arch_mismatch),
        other => panic!("expected Found, got {other:?}"),
    }
}

#[test]
fn aapt2_reports_not_found_when_nothing_present() {
    let probe = MockProbe::default();
    let runner = VersionRunner { stdout: "" };
    assert!(matches!(
        detect_aapt2(&probe, &runner, &HostKind::NativeLinux, &HostArch::Aarch64),
        ToolStatus::NotFound
    ));
}

#[test]
fn skips_non_elf_file_and_keeps_searching() {
    let mut probe = probe_with_build_tools();
    let non_elf = s("/usr/lib/android-sdk/build-tools/34.0.0/aapt2");
    probe.existing_paths.push(non_elf.clone());
    probe.bytes.insert(non_elf, b"not an elf file".to_vec());
    let runner = VersionRunner { stdout: "" };
    assert!(matches!(
        detect_aapt2(&probe, &runner, &HostKind::KaliNetHunterProot, &HostArch::Aarch64),
        ToolStatus::NotFound
    ));
}

#[test]
fn unknown_host_arch_never_finds_aapt2() {
    let mut probe = probe_with_build_tools();
    let path = s("/usr/lib/android-sdk/build-tools/34.0.0/aapt2");
    probe.existing_paths.push(path.clone());
    probe.bytes.insert(path, fake_elf(EM_AARCH64));
    let runner = VersionRunner { stdout: "aapt2 ok" };
    let status = detect_aapt2(&probe, &runner, &HostKind::KaliNetHunterProot, &HostArch::Unknown);
    assert!(!matches!(status, ToolStatus::Found { .. }));
}
