use bana::build_driver::aapt2_patch::{
    ensure_aapt2_override, is_already_correct, override_line, patched_properties, Aapt2PatchError,
    Aapt2PatchOutcome, PropertiesWriter,
};
use bana::build_driver::bindgen::{generate_kotlin_bindings, BindgenError};
use bana::build_driver::gradlew::{classify_gradle_error, run_gradlew, BuildVariant, GradleBuildError};
use bana::build_driver::native::{
    all_abis, build_host_library, build_native_layer, ndk_build_args, NativeBuildError,
};
use bana::build_driver::pipeline::{apk_path, build_hybrid_project, library_naming, PipelineError};
use bana::build_driver::wrapper::{ensure_gradle_wrapper, WrapperError};
use bana::env_scanner::aapt2::EM_AARCH64;
use bana::env_scanner::{CommandOutput, CommandRunner, EnvProbe};
use bana::types::{HostArch, HostKind};
use std::collections::HashMap;
use std::sync::Mutex;

fn s(x: &str) -> String {
    x.to_string()
}

fn fake_elf(machine: u16) -> Vec<u8> {
    let mut bytes = vec![0u8; 20];
    bytes[0..4].copy_from_slice(b"\x7fELF");
    bytes[18..20].copy_from_slice(&machine.to_le_bytes());
    bytes
}

// ---------------------------------------------------------------- aapt2 patch

#[derive(Default)]
struct MockProbe {
    env: HashMap<String, String>,
    existing_paths: Vec<String>,
    dirs: HashMap<String, Vec<String>>,
    bytes: HashMap<String, Vec<u8>>,
}

impl EnvProbe for MockProbe {
    fn read_env(&self, key: &str) -> Option<String> {
        self.env.get(key).cloned()
    }
    fn path_exists(&self, path: &str) -> bool {
        self.existing_paths.iter().any(|p| p == path)
    }
    fn read_to_string(&self, _path: &str) -> Option<String> {
        None
    }
    fn list_dir(&self, path: &str) -> Vec<String> {
        self.dirs.get(path).cloned().unwrap_or_default()
    }
    fn read_bytes(&self, path: &str, _max_len: usize) -> Option<Vec<u8>> {
        self.bytes.get(path).cloned()
    }
}

struct OkRunner;

impl CommandRunner for OkRunner {
    fn run(&self, _program: &str, _args: &[&str]) -> Option<CommandOutput> {
        Some(CommandOutput { stdout: s("aapt2 ok"), stderr: String::new(), success: true })
    }
}

#[derive(Default)]
struct MockProps {
    files: Mutex<HashMap<String, String>>,
}

impl PropertiesWriter for MockProps {
    fn read(&self, path: &str) -> Option<String> {
        self.files.lock().unwrap().get(path).cloned()
    }
    fn write(&self, path: &str, content: &str) -> Result<(), String> {
        self.files.lock().unwrap().insert(path.to_string(), content.to_string());
        Ok(())
    }
}

fn probe_with_matching_aapt2() -> (MockProbe, String) {
    let mut probe = MockProbe::default();
    let aapt2_path = s("/usr/lib/android-sdk/build-tools/34.0.0/aapt2");
    probe.existing_paths.push(s("/usr/lib/android-sdk/build-tools"));
    probe.dirs.insert(s("/usr/lib/android-sdk/build-tools"), vec![s("34.0.0")]);
    probe.existing_paths.push(aapt2_path.clone());
    probe.bytes.insert(aapt2_path.clone(), fake_elf(EM_AARCH64));
    (probe, aapt2_path)
}

#[test]
fn writes_override_when_none_exists() {
    let (probe, aapt2_path) = probe_with_matching_aapt2();
    let props = MockProps::default();
    let root = "/home/kali/bimarz/android";
    let outcome = ensure_aapt2_override(
        &probe,
        &OkRunner,
        &props,
        &HostKind::KaliNetHunterProot,
        &HostArch::Aarch64,
        root,
    )
    .unwrap();
    assert_eq!(outcome, Aapt2PatchOutcome::Patched);
    let written = props.files.lock().unwrap()[&format!("{root}/gradle.properties")].clone();
    assert!(written.contains(&format!("android.aapt2FromMavenOverride={}", aapt2_path)));
}

#[test]
fn is_idempotent_when_already_correct() {
    let (probe, aapt2_path) = probe_with_matching_aapt2();
    let props = MockProps::default();
    let root = "/home/kali/bimarz/android";
    props.files.lock().unwrap().insert(
        format!("{root}/gradle.properties"),
        format!("android.useAndroidX=true\nandroid.aapt2FromMavenOverride={}\n", aapt2_path),
    );
    let outcome = ensure_aapt2_override(
        &probe,
        &OkRunner,
        &props,
        &HostKind::KaliNetHunterProot,
        &HostArch::Aarch64,
        root,
    )
    .unwrap();
    assert_eq!(outcome, Aapt2PatchOutcome::AlreadyCorrect);
}

#[test]
fn replaces_stale_override_instead_of_duplicating() {
    let (probe, aapt2_path) = probe_with_matching_aapt2();
    let props = MockProps::default();
    let root = "/home/kali/bimarz/android";
    props.files.lock().unwrap().insert(
        format!("{root}/gradle.properties"),
        s("android.aapt2FromMavenOverride=/some/stale/wrong/aapt2\n"),
    );
    let outcome = ensure_aapt2_override(
        &probe,
        &OkRunner,
        &props,
        &HostKind::KaliNetHunterProot,
        &HostArch::Aarch64,
        root,
    )
    .unwrap();
    assert_eq!(outcome, Aapt2PatchOutcome::Patched);
    let written = props.files.lock().unwrap()[&format!("{root}/gradle.properties")].clone();
    assert_eq!(written.matches("android.aapt2FromMavenOverride=").count(), 1);
    assert!(written.contains(&aapt2_path));
    assert!(!written.contains("stale"));
}

#[test]
fn a_stale_override_beside_the_desired_one_is_removed() {
    let (probe, aapt2_path) = probe_with_matching_aapt2();
    let props = MockProps::default();
    let root = "/home/kali/bimarz/android";
    props.files.lock().unwrap().insert(
        format!("{root}/gradle.properties"),
        format!(
            "android.aapt2FromMavenOverride={}\nandroid.aapt2FromMavenOverride=/some/stale/aapt2\n",
            aapt2_path
        ),
    );
    let outcome = ensure_aapt2_override(
        &probe,
        &OkRunner,
        &props,
        &HostKind::KaliNetHunterProot,
        &HostArch::Aarch64,
        root,
    )
    .unwrap();
    assert_eq!(outcome, Aapt2PatchOutcome::Patched);
    let written = props.files.lock().unwrap()[&format!("{root}/gradle.properties")].clone();
    assert_eq!(written, format!("android.aapt2FromMavenOverride={}\n", aapt2_path));
    let again = ensure_aapt2_override(
        &probe,
        &OkRunner,
        &props,
        &HostKind::KaliNetHunterProot,
        &HostArch::Aarch64,
        root,
    )
    .unwrap();
    assert_eq!(again, Aapt2PatchOutcome::AlreadyCorrect);
}

#[test]
fn errors_clearly_when_no_native_aapt2_available() {
    let probe = MockProbe::default();
    let props = MockProps::default();
    let result = ensure_aapt2_override(
        &probe,
        &OkRunner,
        &props,
        &HostKind::NativeLinux,
        &HostArch::Aarch64,
        "/home/kali/bimarz/android",
    );
    assert!(matches!(result, Err(Aapt2PatchError::NoNativeAapt2Available { .. })));
    assert!(props.files.lock().unwrap().is_empty());
}

#[test]
fn second_patch_run_writes_nothing() {
    let (probe, _) = probe_with_matching_aapt2();
    let props = MockProps::default();
    let root = "/home/kali/bimarz/android";
    props
        .files
        .lock()
        .unwrap()
        .insert(format!("{root}/gradle.properties"), s("org.gradle.jvmargs=-Xmx2g"));
    let first = ensure_aapt2_override(
        &probe,
        &OkRunner,
        &props,
        &HostKind::KaliNetHunterProot,
        &HostArch::Aarch64,
        root,
    )
    .unwrap();
    let after_first = props.files.lock().unwrap()[&format!("{root}/gradle.properties")].clone();
    let second = ensure_aapt2_override(
        &probe,
        &OkRunner,
        &props,
        &HostKind::KaliNetHunterProot,
        &HostArch::Aarch64,
        root,
    )
    .unwrap();
    assert_eq!(first, Aapt2PatchOutcome::Patched);
    assert_eq!(second, Aapt2PatchOutcome::AlreadyCorrect);
    assert_eq!(props.files.lock().unwrap()[&format!("{root}/gradle.properties")], after_first);
}

#[test]
fn patched_properties_keeps_other_lines_in_order() {
    let desired = override_line("/x/aapt2");
    assert_eq!(desired, "android.aapt2FromMavenOverride=/x/aapt2");
    assert_eq!(
        patched_properties("a=1\n  android.aapt2FromMavenOverride=/old\nb=2", &desired),
        "a=1\nb=2\nandroid.aapt2FromMavenOverride=/x/aapt2\n"
    );
    assert_eq!(patched_properties("", &desired), "android.aapt2FromMavenOverride=/x/aapt2\n");
    assert!(is_already_correct("x=1\r\n  android.aapt2FromMavenOverride=/x/aapt2  \n", &desired));
    assert!(!is_already_correct("android.aapt2FromMavenOverride=/y/aapt2\n", &desired));
    assert!(!is_already_correct(
        "android.aapt2FromMavenOverride=/x/aapt2\nandroid.aapt2FromMavenOverride=/y/aapt2\n",
        &desired
    ));
}

#[test]
fn aapt2_patch_error_messages() {
    assert_eq!(
        Aapt2PatchError::WriteFailed { reason: s("disk full") }.message(),
        "could not write gradle.properties: disk full"
    );
}

// ---------------------------------------------------------------- bindgen

struct BindgenRunner {
    should_fail: bool,
    last_call: Mutex<Option<Vec<String>>>,
}

impl CommandRunner for BindgenRunner {
    fn run(&self, _program: &str, _args: &[&str]) -> Option<CommandOutput> {
        None
    }
    fn run_in(&self, _cwd: &str, _program: &str, args: &[&str]) -> Option<CommandOutput> {
        *self.last_call.lock().unwrap() = Some(args.iter().map(|a| a.to_string()).collect());
        Some(CommandOutput {
            stdout: String::new(),
            stderr: if self.should_fail {
                s("error: no UniFFI-decorated items found")
            } else {
                String::new()
            },
            success: !self.should_fail,
        })
    }
}

#[test]
fn builds_correct_uniffi_bindgen_command() {
    let runner = BindgenRunner { should_fail: false, last_call: Mutex::new(None) };
    let result = generate_kotlin_bindings(
        &runner,
        "/home/kali/bimarz",
        "mobile-core",
        "/home/kali/bimarz/target/aarch64-linux-android/release/libmobile_core.so",
        "/home/kali/bimarz/android/app/src/main/kotlin/ir/bimarz/app/uniffi",
    );
    assert!(result.is_ok());
    let args = runner.last_call.lock().unwrap().clone().unwrap();
    assert_eq!(
        args,
        vec![
            "run",
            "-p",
            "mobile-core",
            "--bin",
            "uniffi-bindgen",
            "--features",
            "cli",
            "--",
            "generate",
            "--library",
            "/home/kali/bimarz/target/aarch64-linux-android/release/libmobile_core.so",
            "--language",
            "kotlin",
            "--out-dir",
            "/home/kali/bimarz/android/app/src/main/kotlin/ir/bimarz/app/uniffi",
        ]
    );
}

#[test]
fn reports_generation_failure_with_real_stderr_reason() {
    let runner = BindgenRunner { should_fail: true, last_call: Mutex::new(None) };
    match generate_kotlin_bindings(
        &runner,
        "/home/kali/bimarz",
        "mobile-core",
        "/out/libmobile_core.so",
        "/out/kotlin",
    ) {
        Err(BindgenError::GenerationFailed { reason, .. }) => {
            assert!(reason.contains("no UniFFI-decorated items"));
        }
        other => panic!("expected GenerationFailed, got {other:?}"),
    }
}

// ---------------------------------------------------------------- gradlew

struct GradlewRunner {
    gradlew_available: bool,
    stderr: &'static str,
    success: bool,
}

impl CommandRunner for GradlewRunner {
    fn run(&self, _program: &str, _args: &[&str]) -> Option<CommandOutput> {
        None
    }
    fn run_in(&self, _cwd: &str, _program: &str, _args: &[&str]) -> Option<CommandOutput> {
        self.gradlew_available.then(|| CommandOutput {
            stdout: String::new(),
            stderr: self.stderr.to_string(),
            success: self.success,
        })
    }
}

#[test]
fn successful_build_is_ok() {
    let runner = GradlewRunner { gradlew_available: true, stderr: "", success: true };
    assert!(run_gradlew(&runner, "/home/kali/bimarz/android", BuildVariant::Debug).is_ok());
}

#[test]
fn reports_missing_gradlew_clearly() {
    let runner = GradlewRunner { gradlew_available: false, stderr: "", success: false };
    let result = run_gradlew(&runner, "/home/kali/bimarz/android", BuildVariant::Debug);
    assert!(matches!(result, Err(GradleBuildError::GradlewMissing { .. })));
}

#[test]
fn classifies_ndk_error_but_keeps_raw_output() {
    let runner = GradlewRunner {
        gradlew_available: true,
        stderr: "NDK not configured. Download it using sdkmanager.",
        success: false,
    };
    match run_gradlew(&runner, "/home/kali/bimarz/android", BuildVariant::Debug) {
        Err(GradleBuildError::BuildFailed { friendly_reason, raw_output }) => {
            assert!(friendly_reason.contains("NDK"));
            assert!(raw_output.contains("sdkmanager"));
        }
        other => panic!("expected BuildFailed, got {other:?}"),
    }
}

#[test]
fn falls_back_to_generic_message_for_unrecognized_errors() {
    let runner = GradlewRunner {
        gradlew_available: true,
        stderr: "some totally novel error nobody has seen before",
        success: false,
    };
    match run_gradlew(&runner, "/home/kali/bimarz/android", BuildVariant::Debug) {
        Err(GradleBuildError::BuildFailed { friendly_reason, raw_output }) => {
            assert!(friendly_reason.contains("Gradle build failed"));
            assert!(raw_output.contains("novel error"));
        }
        other => panic!("expected BuildFailed, got {other:?}"),
    }
}

#[test]
fn gradlew_missing_names_the_wrapper_path() {
    let runner = GradlewRunner { gradlew_available: false, stderr: "", success: false };
    match run_gradlew(&runner, "/p/android", BuildVariant::Release) {
        Err(GradleBuildError::GradlewMissing { path }) => assert_eq!(path, "/p/android/gradlew"),
        other => panic!("expected GradlewMissing, got {other:?}"),
    }
}

#[test]
fn classification_is_case_insensitive_and_ordered() {
    assert!(classify_gradle_error("Unsupported class file major version 65").contains("JDK"));
    assert!(classify_gradle_error("No toolchains found in the NDK").contains("JDK"));
    assert!(classify_gradle_error("AAPT2 aapt2-8.1 Daemon startup failed").contains("AAPT2"));
    assert!(classify_gradle_error("ndk NOT FOUND").contains("NDK"));
    assert_eq!(BuildVariant::Debug.gradle_task(), "assembleDebug");
    assert_eq!(BuildVariant::Release.gradle_task(), "assembleRelease");
}

// ---------------------------------------------------------------- native

struct NativeRunner {
    ndk_available: bool,
    build_should_fail: bool,
    last_call: Mutex<Option<(String, Vec<String>)>>,
}

impl CommandRunner for NativeRunner {
    fn run(&self, program: &str, args: &[&str]) -> Option<CommandOutput> {
        if program == "cargo" && args == ["ndk", "--version"] {
            return self.ndk_available.then(|| CommandOutput {
                stdout: s("cargo-ndk 4.1.2"),
                stderr: String::new(),
                success: true,
            });
        }
        None
    }
    fn run_in(&self, _cwd: &str, program: &str, args: &[&str]) -> Option<CommandOutput> {
        *self.last_call.lock().unwrap() =
            Some((program.to_string(), args.iter().map(|a| a.to_string()).collect()));
        Some(CommandOutput {
            stdout: String::new(),
            stderr: if self.build_should_fail {
                s("error[E0433]: failed to resolve")
            } else {
                String::new()
            },
            success: !self.build_should_fail,
        })
    }
}

fn native_runner(ndk: bool, fail: bool) -> NativeRunner {
    NativeRunner { ndk_available: ndk, build_should_fail: fail, last_call: Mutex::new(None) }
}

#[test]
fn builds_correct_cargo_ndk_command() {
    let runner = native_runner(true, false);
    let result = build_native_layer(
        &runner,
        "/home/kali/bimarz",
        "mobile-core",
        "/home/kali/bimarz/android/app/src/main/jniLibs",
        &["arm64-v8a"],
    );
    assert!(result.is_ok());
    let (program, args) = runner.last_call.lock().unwrap().clone().unwrap();
    assert_eq!(program, "cargo");
    assert_eq!(
        args,
        vec![
            "ndk",
            "-t",
            "arm64-v8a",
            "-o",
            "/home/kali/bimarz/android/app/src/main/jniLibs",
            "build",
            "--release",
            "-p",
            "mobile-core",
        ]
    );
}

#[test]
fn includes_a_flag_per_requested_abi() {
    let runner = native_runner(true, false);
    let abis = all_abis();
    build_native_layer(&runner, "/home/kali/bimarz", "mobile-core", "/out", &abis).unwrap();
    let (_, args) = runner.last_call.lock().unwrap().clone().unwrap();
    let t_flag_count = args.iter().filter(|a| a.as_str() == "-t").count();
    assert_eq!(t_flag_count, abis.len());
}

#[test]
fn reports_missing_cargo_ndk_clearly() {
    let runner = native_runner(false, false);
    let result = build_native_layer(&runner, "/home/kali/bimarz", "mobile-core", "/out", &["arm64-v8a"]);
    assert!(matches!(result, Err(NativeBuildError::CargoNdkMissing)));
    assert!(runner.last_call.lock().unwrap().is_none());
}

#[test]
fn reports_build_failure_with_real_stderr_reason() {
    let runner = native_runner(true, true);
    match build_native_layer(&runner, "/home/kali/bimarz", "mobile-core", "/out", &["arm64-v8a"]) {
        Err(NativeBuildError::BuildFailed { reason, .. }) => assert!(reason.contains("E0433")),
        other => panic!("expected BuildFailed, got {other:?}"),
    }
}

#[test]
fn host_library_uses_plain_debug_cargo_build_not_ndk() {
    let runner = native_runner(true, false);
    let path = build_host_library(&runner, "/home/kali/bimarz", "mobile-core", "lib", "so").unwrap();
    let (program, args) = runner.last_call.lock().unwrap().clone().unwrap();
    assert_eq!(program, "cargo");
    assert_eq!(args, vec!["build", "-p", "mobile-core"]);
    assert!(!args.contains(&s("ndk")));
    assert!(!args.contains(&s("--release")));
    assert!(path.ends_with(&format!("target/debug/{}mobile_core.{}", "lib", "so")));
    assert_eq!(path, "/home/kali/bimarz/target/debug/libmobile_core.so");
}

#[test]
fn host_library_reports_failure_with_real_reason() {
    let runner = native_runner(true, true);
    match build_host_library(&runner, "/home/kali/bimarz", "mobile-core", "lib", "so") {
        Err(NativeBuildError::BuildFailed { reason, .. }) => assert!(reason.contains("E0433")),
        other => panic!("expected BuildFailed, got {other:?}"),
    }
}

#[test]
fn ndk_arguments_for_all_abis() {
    let abis = all_abis();
    assert_eq!(abis, vec!["arm64-v8a", "armeabi-v7a", "x86_64", "x86"]);
    let args = ndk_build_args(&abis, "/o", "p");
    assert_eq!(
        args,
        vec![
            "ndk", "-t", "arm64-v8a", "-t", "armeabi-v7a", "-t", "x86_64", "-t", "x86", "-o", "/o",
            "build", "--release", "-p", "p",
        ]
    );
}

// ---------------------------------------------------------------- wrapper

struct FakeProject {
    wrapper_exists: Mutex<bool>,
    gradle_available: bool,
    generation_should_fail: bool,
    generation_attempted: Mutex<bool>,
}

const REAL_PROPS: &str =
    "distributionUrl=https\\://services.gradle.org/distributions/gradle-8.7-bin.zip\n";

impl EnvProbe for FakeProject {
    fn read_env(&self, _key: &str) -> Option<String> {
        None
    }
    fn path_exists(&self, path: &str) -> bool {
        *self.wrapper_exists.lock().unwrap()
            && (path.ends_with("gradlew") || path.ends_with("gradle-wrapper.jar"))
    }
    fn read_to_string(&self, path: &str) -> Option<String> {
        if *self.wrapper_exists.lock().unwrap() && path.ends_with("gradle-wrapper.properties") {
            Some(REAL_PROPS.to_string())
        } else {
            None
        }
    }
    fn list_dir(&self, _path: &str) -> Vec<String> {
        Vec::new()
    }
}

impl CommandRunner for FakeProject {
    fn run(&self, program: &str, args: &[&str]) -> Option<CommandOutput> {
        if program == "gradle" && args == ["--version"] {
            return self.gradle_available.then(|| CommandOutput {
                stdout: s("Gradle 8.7"),
                stderr: String::new(),
                success: true,
            });
        }
        None
    }
    fn run_in(&self, _cwd: &str, program: &str, args: &[&str]) -> Option<CommandOutput> {
        if program == "gradle" && args == ["wrapper"] {
            *self.generation_attempted.lock().unwrap() = true;
            if self.generation_should_fail {
                return Some(CommandOutput {
                    stdout: String::new(),
                    stderr: s("could not resolve distribution URL"),
                    success: false,
                });
            }
            *self.wrapper_exists.lock().unwrap() = true;
            return Some(CommandOutput { stdout: String::new(), stderr: String::new(), success: true });
        }
        None
    }
}

fn project(exists: bool, gradle: bool, fail: bool) -> FakeProject {
    FakeProject {
        wrapper_exists: Mutex::new(exists),
        gradle_available: gradle,
        generation_should_fail: fail,
        generation_attempted: Mutex::new(false),
    }
}

#[test]
fn already_satisfied_skips_generation_entirely() {
    let p = project(true, false, false);
    assert!(ensure_gradle_wrapper(&p, &p, "/home/kali/bimarz/android").is_ok());
    assert!(!*p.generation_attempted.lock().unwrap());
}

#[test]
fn generates_wrapper_when_missing() {
    let p = project(false, true, false);
    assert!(ensure_gradle_wrapper(&p, &p, "/home/kali/bimarz/android").is_ok());
    assert!(*p.generation_attempted.lock().unwrap());
    assert!(*p.wrapper_exists.lock().unwrap());
}

#[test]
fn reports_missing_system_gradle_clearly() {
    let p = project(false, false, false);
    assert!(matches!(
        ensure_gradle_wrapper(&p, &p, "/home/kali/bimarz/android"),
        Err(WrapperError::SystemGradleMissing)
    ));
}

#[test]
fn reports_generation_failure_with_real_reason() {
    let p = project(false, true, true);
    match ensure_gradle_wrapper(&p, &p, "/home/kali/bimarz/android") {
        Err(WrapperError::GenerationFailed { reason }) => assert!(reason.contains("distribution URL")),
        other => panic!("expected GenerationFailed, got {other:?}"),
    }
}

// ---------------------------------------------------------------- pipeline

/// A complete simulated environment with the layout of a hybrid project.
struct FakeEnv {
    files: HashMap<String, String>,
    existing_paths: Vec<String>,
    dirs: HashMap<String, Vec<String>>,
    bytes: HashMap<String, Vec<u8>>,
    props: Mutex<HashMap<String, String>>,
    gradlew_success: bool,
}

impl EnvProbe for FakeEnv {
    fn read_env(&self, _key: &str) -> Option<String> {
        None
    }
    fn path_exists(&self, path: &str) -> bool {
        self.existing_paths.iter().any(|p| p == path)
    }
    fn read_to_string(&self, path: &str) -> Option<String> {
        self.files.get(path).cloned()
    }
    fn list_dir(&self, path: &str) -> Vec<String> {
        self.dirs.get(path).cloned().unwrap_or_default()
    }
    fn read_bytes(&self, path: &str, _max_len: usize) -> Option<Vec<u8>> {
        self.bytes.get(path).cloned()
    }
}

impl CommandRunner for FakeEnv {
    fn run(&self, _program: &str, _args: &[&str]) -> Option<CommandOutput> {
        Some(CommandOutput { stdout: s("ok"), stderr: String::new(), success: true })
    }
    fn run_in(&self, _cwd: &str, program: &str, _args: &[&str]) -> Option<CommandOutput> {
        if program == "./gradlew" {
            return Some(CommandOutput {
                stdout: String::new(),
                stderr: if self.gradlew_success { String::new() } else { s("build failed") },
                success: self.gradlew_success,
            });
        }
        Some(CommandOutput { stdout: String::new(), stderr: String::new(), success: true })
    }
}

impl PropertiesWriter for FakeEnv {
    fn read(&self, path: &str) -> Option<String> {
        self.props.lock().unwrap().get(path).cloned()
    }
    fn write(&self, path: &str, content: &str) -> Result<(), String> {
        self.props.lock().unwrap().insert(path.to_string(), content.to_string());
        Ok(())
    }
}

fn bimarz_env(gradlew_success: bool) -> FakeEnv {
    let root = "/home/kali/bimarz";
    let mut files = HashMap::new();
    files.insert(
        format!("{root}/Cargo.toml"),
        s("[workspace]\nmembers = [\"engine-core\", \"mobile-core\"]\n"),
    );
    files.insert(format!("{root}/mobile-core/Cargo.toml"), s("[dependencies]\nuniffi = \"0.27\"\n"));
    files.insert(format!("{root}/android/gradle/wrapper/gradle-wrapper.properties"), s(REAL_PROPS));
    let mut existing_paths = vec![
        format!("{root}/android/settings.gradle.kts"),
        format!("{root}/android/gradlew"),
        format!("{root}/android/gradle/wrapper/gradle-wrapper.jar"),
    ];
    let mut dirs = HashMap::new();
    let build_tools_dir = s("/usr/lib/android-sdk/build-tools");
    existing_paths.push(build_tools_dir.clone());
    dirs.insert(build_tools_dir.clone(), vec![s("34.0.0")]);
    let aapt2_path = format!("{build_tools_dir}/34.0.0/aapt2");
    existing_paths.push(aapt2_path.clone());
    let mut bytes = HashMap::new();
    bytes.insert(aapt2_path, fake_elf(EM_AARCH64));
    FakeEnv {
        files,
        existing_paths,
        dirs,
        bytes,
        props: Mutex::new(HashMap::new()),
        gradlew_success,
    }
}

#[test]
fn full_pipeline_succeeds_and_returns_apk_path() {
    let env = bimarz_env(true);
    let root = "/home/kali/bimarz";
    let apk = build_hybrid_project(
        &env,
        &env,
        &env,
        &HostKind::KaliNetHunterProot,
        &HostArch::Aarch64,
        root,
        BuildVariant::Debug,
    )
    .unwrap();
    assert_eq!(apk, format!("{root}/android/app/build/outputs/apk/debug/app-debug.apk"));
}

/// Records every command run inside a directory and answers like `FakeEnv`.
struct RecordingRunner {
    calls: Mutex<Vec<(String, String, Vec<String>)>>,
}

impl CommandRunner for RecordingRunner {
    fn run(&self, _program: &str, _args: &[&str]) -> Option<CommandOutput> {
        Some(CommandOutput { stdout: s("ok"), stderr: String::new(), success: true })
    }
    fn run_in(&self, cwd: &str, program: &str, args: &[&str]) -> Option<CommandOutput> {
        self.calls.lock().unwrap().push((
            cwd.to_string(),
            program.to_string(),
            args.iter().map(|a| a.to_string()).collect(),
        ));
        Some(CommandOutput { stdout: String::new(), stderr: String::new(), success: true })
    }
}

#[test]
fn pipeline_runs_its_steps_in_order_and_binds_from_the_host_library() {
    let env = bimarz_env(true);
    let runner = RecordingRunner { calls: Mutex::new(Vec::new()) };
    let root = "/home/kali/bimarz";
    build_hybrid_project(
        &env,
        &runner,
        &env,
        &HostKind::KaliNetHunterProot,
        &HostArch::Aarch64,
        root,
        BuildVariant::Debug,
    )
    .unwrap();
    let calls = runner.calls.lock().unwrap();
    let steps: Vec<(String, String)> = calls
        .iter()
        .map(|(cwd, program, args)| (cwd.clone(), format!("{program} {}", args[0])))
        .collect();
    assert_eq!(
        steps,
        vec![
            (s(root), s("cargo ndk")),
            (s(root), s("cargo build")),
            (s(root), s("cargo run")),
            (format!("{root}/android"), s("./gradlew assembleDebug")),
        ]
    );
    assert_eq!(calls[1].2, vec![s("build"), s("-p"), s("mobile-core")]);
    let library_at = calls[2].2.iter().position(|a| a == "--library").unwrap();
    assert_eq!(calls[2].2[library_at + 1], format!("{root}/target/debug/libmobile_core.so"));
}

#[test]
fn fails_clearly_when_project_not_recognized() {
    let env = FakeEnv {
        files: HashMap::new(),
        existing_paths: Vec::new(),
        dirs: HashMap::new(),
        bytes: HashMap::new(),
        props: Mutex::new(HashMap::new()),
        gradlew_success: true,
    };
    let result = build_hybrid_project(
        &env,
        &env,
        &env,
        &HostKind::NativeLinux,
        &HostArch::Aarch64,
        "/home/kali/random-folder",
        BuildVariant::Debug,
    );
    assert!(matches!(result, Err(PipelineError::UnrecognizedProject)));
}

#[test]
fn propagates_real_gradlew_failure() {
    let env = bimarz_env(false);
    let result = build_hybrid_project(
        &env,
        &env,
        &env,
        &HostKind::KaliNetHunterProot,
        &HostArch::Aarch64,
        "/home/kali/bimarz",
        BuildVariant::Debug,
    );
    assert!(matches!(result, Err(PipelineError::GradleBuild(_))));
}

#[test]
fn rejects_pure_kotlin_projects() {
    let mut env = bimarz_env(true);
    env.files.clear();
    env.existing_paths = vec![s("/home/kali/app/settings.gradle.kts")];
    let result = build_hybrid_project(
        &env,
        &env,
        &env,
        &HostKind::NativeLinux,
        &HostArch::Aarch64,
        "/home/kali/app",
        BuildVariant::Debug,
    );
    match result {
        Err(PipelineError::UnsupportedScenario { scenario_id }) => assert_eq!(scenario_id, "pure-kotlin"),
        other => panic!("expected UnsupportedScenario, got {other:?}"),
    }
}

#[test]
fn pipeline_paths() {
    assert_eq!(
        apk_path("/r", BuildVariant::Release),
        "/r/android/app/build/outputs/apk/release/app-release-unsigned.apk"
    );
    assert_eq!(library_naming(&HostKind::NativeLinux), ("lib", "so"));
    assert_eq!(library_naming(&HostKind::MacOs), ("lib", "dylib"));
    assert_eq!(library_naming(&HostKind::Windows), ("", "dll"));
    assert_eq!(
        PipelineError::UnsupportedScenario { scenario_id: s("pure-kotlin") }.message(),
        "bana build v1 only supports the hybrid-rust-uniffi scenario; detected 'pure-kotlin' instead"
    );
}
