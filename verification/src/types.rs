//! Shared data types used across every part of the crate; they hold no logic.
//! Paths are held as text.

use vstd::prelude::*;

verus! {

/// The kind of host environment the tool is running inside.
#[derive(Debug, Clone, Copy, PartialEq, Eq, Structural)]
pub enum HostKind {
    Termux,
    KaliNetHunterProot,
    NativeLinux,
    Windows,
    MacOs,
    Unknown,
}

/// CPU architecture of the host.
#[derive(Debug, Clone, Copy, PartialEq, Eq, Structural)]
pub enum HostArch {
    Aarch64,
    X86_64,
    Unknown,
}

/// Summary of the execution environment itself, before scanning any tool.
#[derive(Debug, Clone)]
pub struct HostEnvironment {
    pub kind: HostKind,
    pub arch: HostArch,
    pub home_dir: String,
    pub shell: String,
    pub systemd_stubbed: bool,
}

/// Detection status for any single tool: never guessed, always one of four.
#[derive(Debug, Clone)]
pub enum ToolStatus<T> {
    Found { path: String, info: T, verified: bool },
    FoundButIncompatible { path: String, info: T, reason: String },
    NotFound,
    AmbiguousMultiple { candidates: Vec<String> },
}

/// A single issue reported to the user, tagged with its severity.
#[derive(Debug, Clone)]
pub struct Issue {
    pub message: String,
    pub blocking: bool,
}

/// The input project's fingerprint. `confidence` is in hundredths
/// (95 stands for a confidence of 0.95).
#[derive(Debug, Clone)]
pub struct ProjectFingerprint {
    pub scenario_id: String,
    pub root: String,
    pub confidence: u32,
}

/// The result of a full build pipeline run.
#[derive(Debug, Clone)]
pub struct BuildResult {
    pub success: bool,
    pub apk_path: Option<String>,
    pub error: Option<String>,
}

/// One recorded action during setup: already satisfied, installed, failed,
/// or no backend.
#[derive(Debug, Clone)]
pub struct SetupAction {
    pub tool_id: String,
    pub outcome: String,
    pub detail: Option<String>,
}

/// A recorded install attempt, successful or not.
#[derive(Debug, Clone)]
pub struct InstallRecord {
    pub tool_id: String,
    pub backend_used: String,
    pub package_name: String,
    pub timestamp_unix: u64,
    pub success: bool,
    pub failure_reason: Option<String>,
}

/// Detected information from a real JDK installation.
#[derive(Debug, Clone)]
pub struct JdkInfo {
    pub version: String,
}

/// The folder names found under `platforms/` and `build-tools/`.
#[derive(Debug, Clone)]
pub struct SdkInfo {
    pub installed_platforms: Vec<String>,
    pub installed_build_tools: Vec<String>,
}

/// The NDK version read from `source.properties`.
#[derive(Debug, Clone)]
pub struct NdkInfo {
    pub version: String,
}

/// Detected information from an AAPT2 binary, including whether its
/// architecture differs from the host's.
#[derive(Debug, Clone)]
pub struct Aapt2Info {
    pub version: String,
    pub arch_mismatch: bool,
}

/// Full Android toolchain report.
#[derive(Debug, Clone)]
pub struct AndroidToolchainReport {
    pub jdk: ToolStatus<JdkInfo>,
    pub sdk: ToolStatus<SdkInfo>,
    pub ndk: ToolStatus<NdkInfo>,
    pub aapt2: ToolStatus<Aapt2Info>,
}

/// The Gradle wrapper of one project.
#[derive(Debug, Clone)]
pub struct GradleWrapperInfo {
    pub gradlew_present: bool,
    pub wrapper_jar_present: bool,
    pub distribution_version: String,
}

/// Final environment scan report.
#[derive(Debug, Clone)]
pub struct ScanReport {
    pub host: HostEnvironment,
    pub blocking_issues: Vec<Issue>,
    pub warnings: Vec<Issue>,
}

} // verus!
