//! Idempotent setup of the bundled tools: a tool that detection already
//! found is left alone; otherwise a backend is selected and a real install
//! runs, with its record written.

use crate::env_scanner::command::CommandRunner;
use crate::env_scanner::host::EnvProbe;
use crate::env_scanner::jdk::detect_jdk;
use crate::env_scanner::sdk::detect_sdk;
use crate::toolchain_mgr::backend::{
    select_backend, spec_backend_name, spec_candidates, BackendKind, PackageBackend,
};
use crate::toolchain_mgr::bundled::{android_sdk_tool, install_bundled_tool, jdk_tool, BundledToolSpec};
use crate::toolchain_mgr::error::{spec_message, ToolchainError};
use crate::toolchain_mgr::recorder::InstallRecorder;
use crate::types::{HostKind, JdkInfo, SdkInfo, SetupAction, ToolStatus};
use vstd::prelude::*;
use vstd::string::StringExecFns;

verus! {

/// The outcome recorded for a tool: `already_satisfied` when detection
/// found it, `no_backend` when no backend was selected, else `installed`
/// or `failed` by the install's result.
pub open spec fn spec_setup_outcome(
    found: bool,
    selection: Result<BackendKind, ToolchainError>,
    install: Result<(), ToolchainError>,
) -> Seq<char> {
    if found {
        "already_satisfied"@
    } else {
        match selection {
            Err(_) => "no_backend"@,
            Ok(_) => if install is Ok {
                "installed"@
            } else {
                "failed"@
            },
        }
    }
}

/// The detail recorded for a tool: none when already satisfied, the
/// backend used on success, else the error's message.
pub open spec fn spec_setup_detail(
    found: bool,
    selection: Result<BackendKind, ToolchainError>,
    install: Result<(), ToolchainError>,
) -> Option<Seq<char>> {
    if found {
        None
    } else {
        match selection {
            Err(e) => Some(spec_message(e)),
            Ok(k) => match install {
                Ok(_) => Some("via "@ + spec_backend_name(k)),
                Err(e) => Some(spec_message(e)),
            },
        }
    }
}

/// Whether `a` is the action recorded for `tool_id` from these observations.
pub open spec fn is_setup_action(
    a: SetupAction,
    tool_id: Seq<char>,
    found: bool,
    selection: Result<BackendKind, ToolchainError>,
    install: Result<(), ToolchainError>,
) -> bool {
    &&& a.tool_id@ == tool_id
    &&& a.outcome@ == spec_setup_outcome(found, selection, install)
    &&& a.detail.deep_view() == spec_setup_detail(found, selection, install)
}

/// The action recorded for a tool, from whether detection found it, the
/// backend selection and the install's result.
pub fn setup_action_for(
    tool_id: &str,
    found: bool,
    selection: &Result<BackendKind, ToolchainError>,
    install: &Result<(), ToolchainError>,
) -> (r: SetupAction)
    ensures
        is_setup_action(r, tool_id@, found, *selection, *install),
{
    if found {
        return SetupAction { tool_id: tool_id.to_owned(), outcome: "already_satisfied".to_owned(), detail: None };
    }
    match selection {
        Err(e) => SetupAction {
            tool_id: tool_id.to_owned(),
            outcome: "no_backend".to_owned(),
            detail: Some(e.message()),
        },
        Ok(k) => match install {
            Ok(()) => {
                let mut d = "via ".to_owned();
                d.append(k.name());
                SetupAction { tool_id: tool_id.to_owned(), outcome: "installed".to_owned(), detail: Some(d) }
            },
            Err(e) => SetupAction {
                tool_id: tool_id.to_owned(),
                outcome: "failed".to_owned(),
                detail: Some(e.message()),
            },
        },
    }
}

/// The backend selection and install a tool that detection did not find
/// went through: `sel` is what selecting a backend returned and, when one
/// was selected, `inst` is what installing the tool through it returned.
pub open spec fn setup_steps<R: CommandRunner, Rec: InstallRecorder>(
    runner: &R,
    host_kind: &HostKind,
    spec: &BundledToolSpec,
    recorder: &Rec,
    sel: Result<BackendKind, ToolchainError>,
    inst: Result<(), ToolchainError>,
) -> bool {
    &&& call_ensures(select_backend::<R>, (runner, host_kind), sel)
    &&& sel matches Ok(k) ==> call_ensures(
        install_bundled_tool::<R, BackendKind, Rec>,
        (runner, &k, spec, recorder),
        inst,
    )
}

/// Makes sure one catalog tool is present. A tool detection already found
/// is left alone and nothing is installed; otherwise the first available
/// backend installs it.
pub fn setup_bundled_tool<R: CommandRunner, Rec: InstallRecorder, T>(
    runner: &R,
    status: &ToolStatus<T>,
    host_kind: &HostKind,
    spec: &BundledToolSpec,
    recorder: &Rec,
) -> (r: SetupAction)
    ensures
        r.tool_id@ == spec.id@,
        status is Found ==> r.outcome@ == "already_satisfied"@ && r.detail is None,
        !(status is Found) ==> exists|
            sel: Result<BackendKind, ToolchainError>,
            inst: Result<(), ToolchainError>,
        |
            #[trigger] setup_steps(runner, host_kind, spec, recorder, sel, inst) && is_setup_action(
                r,
                spec.id@,
                false,
                sel,
                inst,
            ),
        exists|sel: Result<BackendKind, ToolchainError>, inst: Result<(), ToolchainError>|
            #[trigger] is_setup_action(r, spec.id@, status is Found, sel, inst) && (sel matches Ok(k)
                ==> spec_candidates(*host_kind).contains(k)) && (sel matches Err(e)
                ==> e is NoBackendAvailable),
{
    let found = match status {
        ToolStatus::Found { .. } => true,
        _ => false,
    };
    let none: Result<(), ToolchainError> = Ok(());
    if found {
        let sel: Result<BackendKind, ToolchainError> = Err(ToolchainError::NoBackendAvailable);
        return setup_action_for(spec.id, true, &sel, &none);
    }
    let selection = select_backend(runner, host_kind);
    assert(call_ensures(select_backend::<R>, (runner, host_kind), selection));
    match &selection {
        Ok(backend) => {
            let result = install_bundled_tool(runner, backend, spec, recorder);
            assert(call_ensures(
                install_bundled_tool::<R, BackendKind, Rec>,
                (runner, backend, spec, recorder),
                result,
            ));
            assert(setup_steps(runner, host_kind, spec, recorder, selection, result));
            setup_action_for(spec.id, false, &selection, &result)
        },
        Err(_) => {
            assert(setup_steps(runner, host_kind, spec, recorder, selection, none));
            setup_action_for(spec.id, false, &selection, &none)
        },
    }
}

/// The action for one tool: what `setup_bundled_tool` returned for the
/// status its detection returned and the catalog entry its spec function
/// returned.
pub open spec fn tool_set_up<R: CommandRunner, Rec: InstallRecorder, T>(
    runner: &R,
    host_kind: &HostKind,
    recorder: &Rec,
    status: ToolStatus<T>,
    spec: BundledToolSpec,
    a: SetupAction,
) -> bool {
    call_ensures(setup_bundled_tool::<R, Rec, T>, (runner, &status, host_kind, &spec, recorder), a)
}

/// Makes sure the JDK and the Android SDK are present, in that order: the
/// JDK from what `java -version` gave, the SDK from the SDK search.
pub fn setup_bundled_tools<P: EnvProbe, R: CommandRunner, Rec: InstallRecorder>(
    probe: &P,
    runner: &R,
    host_kind: &HostKind,
    recorder: &Rec,
) -> (r: Vec<SetupAction>)
    ensures
        r.len() == 2,
        r[0].tool_id@ == "jdk"@,
        r[1].tool_id@ == "android_sdk"@,
        exists|status: ToolStatus<JdkInfo>, spec: BundledToolSpec|
            call_ensures(jdk_tool, (), spec) && call_ensures(detect_jdk::<R>, (runner,), status)
                && #[trigger] tool_set_up(runner, host_kind, recorder, status, spec, r[0]),
        exists|status: ToolStatus<SdkInfo>, spec: BundledToolSpec|
            call_ensures(android_sdk_tool, (), spec) && call_ensures(
                detect_sdk::<P>,
                (probe, host_kind),
                status,
            ) && #[trigger] tool_set_up(runner, host_kind, recorder, status, spec, r[1]),
{
    let mut actions: Vec<SetupAction> = Vec::new();
    let jdk = jdk_tool();
    assert(call_ensures(jdk_tool, (), jdk));
    let jdk_status = detect_jdk(runner);
    assert(call_ensures(detect_jdk::<R>, (runner,), jdk_status));
    let a0 = setup_bundled_tool(runner, &jdk_status, host_kind, &jdk, recorder);
    assert(tool_set_up(runner, host_kind, recorder, jdk_status, jdk, a0));
    actions.push(a0);
    let sdk = android_sdk_tool();
    assert(call_ensures(android_sdk_tool, (), sdk));
    let sdk_status = detect_sdk(probe, host_kind);
    assert(call_ensures(detect_sdk::<P>, (probe, host_kind), sdk_status));
    let a1 = setup_bundled_tool(runner, &sdk_status, host_kind, &sdk, recorder);
    assert(tool_set_up(runner, host_kind, recorder, sdk_status, sdk, a1));
    actions.push(a1);
    actions
}

} // verus!
