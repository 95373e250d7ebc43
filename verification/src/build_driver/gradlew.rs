//! Runs `gradlew assembleDebug` or `assembleRelease`, always through the
//! project's own wrapper, never a system Gradle. Common failures get a
//! readable explanation, and the raw Gradle output always stays attached.

use crate::env_scanner::command::{
    failure_text, ran_in, take_failure_text, CommandOutput, CommandRunner,
};
use crate::text::{contains, join, join_path, lowercase, str_contains, to_lowercase};
use vstd::prelude::*;
use vstd::string::StringExecFns;

verus! {

/// Which APK to assemble.
#[derive(Debug, Clone, Copy, PartialEq, Eq, Structural)]
pub enum BuildVariant {
    Debug,
    Release,
}

/// The Gradle task of a variant.
pub open spec fn spec_gradle_task(v: BuildVariant) -> Seq<char> {
    match v {
        BuildVariant::Debug => "assembleDebug"@,
        BuildVariant::Release => "assembleRelease"@,
    }
}

impl BuildVariant {
    /// The Gradle task that assembles this variant.
    pub fn gradle_task(self) -> (r: &'static str)
        ensures
            r@ == spec_gradle_task(self),
    {
        match self {
            BuildVariant::Debug => "assembleDebug",
            BuildVariant::Release => "assembleRelease",
        }
    }
}

/// Why the Gradle build failed.
#[derive(Debug)]
pub enum GradleBuildError {
    GradlewMissing { path: String },
    BuildFailed { friendly_reason: String, raw_output: String },
}

/// The message an error displays.
pub open spec fn gradle_message(e: GradleBuildError) -> Seq<char> {
    match e {
        GradleBuildError::GradlewMissing { path } => "gradlew could not be executed at "@ + path@
            + " (missing or not executable)"@,
        GradleBuildError::BuildFailed { friendly_reason, raw_output } => friendly_reason@
            + "\n\n--- raw Gradle output ---\n"@ + raw_output@,
    }
}

impl GradleBuildError {
    /// The message this error displays.
    pub fn message(&self) -> (r: String)
        ensures
            r@ == gradle_message(*self),
    {
        match self {
            GradleBuildError::GradlewMissing { path } => {
                let mut m = "gradlew could not be executed at ".to_owned();
                m.append(path.as_str());
                m.append(" (missing or not executable)");
                m
            },
            GradleBuildError::BuildFailed { friendly_reason, raw_output } => {
                let mut m = friendly_reason.clone();
                m.append("\n\n--- raw Gradle output ---\n");
                m.append(raw_output.as_str());
                m
            },
        }
    }
}

pub open spec fn ndk_hint() -> Seq<char> {
    "NDK looks missing or misconfigured. Run `bana doctor` to check, then install one via `sdkmanager --install \"ndk;<version>\"`."@
}

pub open spec fn jdk_hint() -> Seq<char> {
    "This looks like a JDK version mismatch. Run `bana doctor` to check the detected JDK version against what this Gradle/AGP version expects."@
}

pub open spec fn aapt2_hint() -> Seq<char> {
    "AAPT2 failed to run — likely an architecture mismatch. Run `bana doctor`; bana should be able to auto-patch this via android.aapt2FromMavenOverride."@
}

pub open spec fn generic_hint() -> Seq<char> {
    "Gradle build failed. See the raw output below for details."@
}

/// The explanation for a lowercased Gradle output, checked in order: a
/// missing NDK, a JDK mismatch, an AAPT2 failure, else a generic note.
pub open spec fn spec_classify_lowered(lower: Seq<char>) -> Seq<char> {
    if contains(lower, "ndk"@) && (contains(lower, "not configured"@) || contains(lower, "not found"@)) {
        ndk_hint()
    } else if contains(lower, "no toolchains found"@) || contains(
        lower,
        "unsupported class file major version"@,
    ) {
        jdk_hint()
    } else if contains(lower, "aapt2"@) {
        aapt2_hint()
    } else {
        generic_hint()
    }
}

/// The explanation for an already lowercased Gradle output.
pub fn classify_lowered(lower: &str) -> (r: String)
    ensures
        r@ == spec_classify_lowered(lower@),
{
    if str_contains(lower, "ndk") && (str_contains(lower, "not configured") || str_contains(
        lower,
        "not found",
    )) {
        return "NDK looks missing or misconfigured. Run `bana doctor` to check, then install one via `sdkmanager --install \"ndk;<version>\"`.".to_owned();
    }
    if str_contains(lower, "no toolchains found") || str_contains(
        lower,
        "unsupported class file major version",
    ) {
        return "This looks like a JDK version mismatch. Run `bana doctor` to check the detected JDK version against what this Gradle/AGP version expects.".to_owned();
    }
    if str_contains(lower, "aapt2") {
        return "AAPT2 failed to run — likely an architecture mismatch. Run `bana doctor`; bana should be able to auto-patch this via android.aapt2FromMavenOverride.".to_owned();
    }
    "Gradle build failed. See the raw output below for details.".to_owned()
}

/// Classifies common Gradle failures, case-insensitively, into a readable
/// explanation; the raw output is kept separately, never replaced.
pub fn classify_gradle_error(raw: &str) -> (r: String)
    ensures
        r@ == spec_classify_lowered(lowercase(raw@)),
{
    let lower = to_lowercase(raw);
    classify_lowered(lower.as_str())
}

/// What a `gradlew` run reports for the observed outcome: success only on
/// a successful run; a failed run keeps its raw output beside the
/// explanation; a run that could not start names the wrapper's path.
pub open spec fn gradlew_outcome_matches(
    r: Result<(), GradleBuildError>,
    root: Seq<char>,
    out: Option<CommandOutput>,
) -> bool {
    match out {
        Some(o) => if o.success {
            r is Ok
        } else {
            r matches Err(GradleBuildError::BuildFailed { friendly_reason, raw_output })
                && raw_output@ == failure_text(o) && friendly_reason@ == spec_classify_lowered(
                lowercase(failure_text(o)),
            )
        },
        None => r matches Err(GradleBuildError::GradlewMissing { path }) && path@ == join(
            root,
            "gradlew"@,
        ),
    }
}

/// The build's result from what running `gradlew` gave.
pub fn gradlew_outcome(gradle_project_root: &str, out: Option<CommandOutput>) -> (r: Result<
    (),
    GradleBuildError,
>)
    ensures
        gradlew_outcome_matches(r, gradle_project_root@, out),
{
    match out {
        Some(o) => {
            if o.success {
                Ok(())
            } else {
                let raw = take_failure_text(o);
                let friendly_reason = classify_gradle_error(raw.as_str());
                Err(GradleBuildError::BuildFailed { friendly_reason, raw_output: raw })
            }
        },
        None => Err(GradleBuildError::GradlewMissing { path: join_path(gradle_project_root, "gradlew") }),
    }
}

/// The arguments of a `gradlew` run for a variant.
pub open spec fn gradlew_args(v: BuildVariant) -> Seq<Seq<char>> {
    seq![spec_gradle_task(v), "--stacktrace"@]
}

/// Runs `./gradlew <task> --stacktrace` inside the Gradle project root.
pub fn run_gradlew<R: CommandRunner>(runner: &R, gradle_project_root: &str, variant: BuildVariant) -> (r:
    Result<(), GradleBuildError>)
    ensures
        exists|out: Option<CommandOutput>|
            #[trigger] ran_in(runner, gradle_project_root@, "./gradlew"@, gradlew_args(variant), out)
                && gradlew_outcome_matches(r, gradle_project_root@, out),
{
    let args = vec![variant.gradle_task(), "--stacktrace"];
    let a = args.as_slice();
    let out = runner.run_in(gradle_project_root, "./gradlew", a);
    let ghost o = out;
    assert(a.deep_view() =~= gradlew_args(variant));
    assert(call_ensures(R::run_in, (runner, gradle_project_root, "./gradlew", a), o));
    assert(ran_in(runner, gradle_project_root@, "./gradlew"@, gradlew_args(variant), o));
    let r = gradlew_outcome(gradle_project_root, out);
    assert(gradlew_outcome_matches(r, gradle_project_root@, o));
    r
}

} // verus!
