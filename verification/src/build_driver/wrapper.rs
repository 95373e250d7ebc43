//! Makes sure the project has a Gradle wrapper. A system Gradle is used at
//! most this once, to generate the wrapper; afterwards the project always
//! builds through its own wrapper.

use crate::env_scanner::command::{
    failure_text, ran, ran_in, take_failure_text, CommandOutput, CommandRunner,
};
use crate::env_scanner::gradle::detect_gradle_wrapper;
use crate::env_scanner::host::EnvProbe;
use crate::types::{GradleWrapperInfo, ToolStatus};
use vstd::prelude::*;
use vstd::string::StringExecFns;

verus! {

/// Why the wrapper could not be ensured.
#[derive(Debug)]
pub enum WrapperError {
    SystemGradleMissing,
    GenerationFailed { reason: String },
    StillIncompleteAfterGeneration,
}

/// The message an error displays.
pub open spec fn wrapper_message(e: WrapperError) -> Seq<char> {
    match e {
        WrapperError::SystemGradleMissing =>
            "system `gradle` is not installed or not on PATH; install it once to generate the wrapper (it won't be needed again afterward)"@,
        WrapperError::GenerationFailed { reason } => "`gradle wrapper` failed: "@ + reason@,
        WrapperError::StillIncompleteAfterGeneration =>
            "wrapper generation ran but the project still has no valid wrapper afterward"@,
    }
}

impl WrapperError {
    /// The message this error displays.
    pub fn message(&self) -> (r: String)
        ensures
            r@ == wrapper_message(*self),
    {
        match self {
            WrapperError::SystemGradleMissing => "system `gradle` is not installed or not on PATH; install it once to generate the wrapper (it won't be needed again afterward)".to_owned(),
            WrapperError::GenerationFailed { reason } => {
                let mut m = "`gradle wrapper` failed: ".to_owned();
                m.append(reason.as_str());
                m
            },
            WrapperError::StillIncompleteAfterGeneration => "wrapper generation ran but the project still has no valid wrapper afterward".to_owned(),
        }
    }
}

/// What running `gradle wrapper` reports for the observed run.
pub open spec fn generation_outcome_matches(r: Result<(), WrapperError>, out: Option<CommandOutput>) -> bool {
    match out {
        Some(o) => if o.success {
            r is Ok
        } else {
            r matches Err(WrapperError::GenerationFailed { reason }) && reason@ == failure_text(o)
        },
        None => r matches Err(WrapperError::GenerationFailed { reason }) && reason@
            == "could not execute `gradle wrapper`"@,
    }
}

/// The generation step's result from what running `gradle wrapper` gave.
pub fn generation_outcome(out: Option<CommandOutput>) -> (r: Result<(), WrapperError>)
    ensures
        generation_outcome_matches(r, out),
{
    match out {
        Some(o) => {
            if o.success {
                Ok(())
            } else {
                Err(WrapperError::GenerationFailed { reason: take_failure_text(o) })
            }
        },
        None => Err(WrapperError::GenerationFailed { reason: "could not execute `gradle wrapper`".to_owned() }),
    }
}

/// The arguments of the `gradle --version` probe.
pub open spec fn gradle_version_args() -> Seq<Seq<char>> {
    seq!["--version"@]
}

/// The arguments that generate the wrapper.
pub open spec fn gradle_wrapper_args() -> Seq<Seq<char>> {
    seq!["wrapper"@]
}

/// Idempotently makes sure a valid wrapper exists. When detection already
/// finds one nothing else happens, not even a look at the system Gradle;
/// otherwise the system Gradle generates it once, and the result is
/// checked by detecting again.
pub fn ensure_gradle_wrapper<P: EnvProbe, R: CommandRunner>(probe: &P, runner: &R, project_root: &str) -> (r:
    Result<(), WrapperError>)
    ensures
        exists|first: ToolStatus<GradleWrapperInfo>|
            #[trigger] call_ensures(detect_gradle_wrapper::<P>, (probe, project_root), first) && if first is Found {
                r is Ok
            } else {
                exists|version_out: Option<CommandOutput>|
                    #[trigger] ran(runner, "gradle"@, gradle_version_args(), version_out) && match version_out {
                        None => r matches Err(WrapperError::SystemGradleMissing),
                        Some(_) => exists|out: Option<CommandOutput>|
                            #[trigger] ran_in(runner, project_root@, "gradle"@, gradle_wrapper_args(), out)
                                && if out matches Some(o) && o.success {
                                exists|second: ToolStatus<GradleWrapperInfo>|
                                    #[trigger] call_ensures(
                                        detect_gradle_wrapper::<P>,
                                        (probe, project_root),
                                        second,
                                    ) && if second is Found {
                                        r is Ok
                                    } else {
                                        r matches Err(WrapperError::StillIncompleteAfterGeneration)
                                    }
                            } else {
                                generation_outcome_matches(r, out)
                            },
                    }
            },
{
    let first = detect_gradle_wrapper(probe, project_root);
    assert(call_ensures(detect_gradle_wrapper::<P>, (probe, project_root), first));
    if let ToolStatus::Found { .. } = first {
        return Ok(());
    }
    let version_args = vec!["--version"];
    let va = version_args.as_slice();
    let version_out = runner.run("gradle", va);
    assert(va.deep_view() =~= gradle_version_args());
    assert(call_ensures(R::run, (runner, "gradle", va), version_out));
    assert(ran(runner, "gradle"@, gradle_version_args(), version_out));
    if version_out.is_none() {
        return Err(WrapperError::SystemGradleMissing);
    }
    let wrapper_args = vec!["wrapper"];
    let wa = wrapper_args.as_slice();
    let out = runner.run_in(project_root, "gradle", wa);
    let ghost o = out;
    assert(wa.deep_view() =~= gradle_wrapper_args());
    assert(call_ensures(R::run_in, (runner, project_root, "gradle", wa), o));
    assert(ran_in(runner, project_root@, "gradle"@, gradle_wrapper_args(), o));
    let generated = generation_outcome(out);
    if generated.is_err() {
        assert(generation_outcome_matches(generated, o));
        return generated;
    }
    let second = detect_gradle_wrapper(probe, project_root);
    assert(call_ensures(detect_gradle_wrapper::<P>, (probe, project_root), second));
    if let ToolStatus::Found { .. } = second {
        Ok(())
    } else {
        Err(WrapperError::StillIncompleteAfterGeneration)
    }
}

/// The wrapper step reports success only on the word of a detection: when
/// it succeeds, some detection of the wrapper, before any generation or
/// after it, found a complete wrapper. A generation that exits successfully
/// is never taken as success by itself.
pub proof fn law_wrapper_success_needs_detection<P: EnvProbe, R: CommandRunner>(
    probe: &P,
    runner: &R,
    project_root: &str,
    r: Result<(), WrapperError>,
)
    requires
        call_ensures(ensure_gradle_wrapper::<P, R>, (probe, runner, project_root), r),
        r is Ok,
    ensures
        exists|status: ToolStatus<GradleWrapperInfo>|
            #[trigger] call_ensures(detect_gradle_wrapper::<P>, (probe, project_root), status)
                && status is Found,
{
}

} // verus!
