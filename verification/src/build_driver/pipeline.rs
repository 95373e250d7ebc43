//! The whole build pipeline, from scenario detection to a raw APK. Only the
//! `hybrid-rust-uniffi` scenario is supported; anything else is rejected
//! with a clear error. The Gradle module inside `android/` is taken to be
//! named `app`, as in the projects this targets.

use crate::build_driver::aapt2_patch::{
    ensure_aapt2_override, Aapt2PatchError, Aapt2PatchOutcome, PropertiesWriter,
};
use crate::build_driver::bindgen::{generate_kotlin_bindings, BindgenError};
use crate::build_driver::gradlew::{run_gradlew, BuildVariant, GradleBuildError};
use crate::build_driver::native::{
    all_abis, build_host_library, build_native_layer, spec_all_abis, NativeBuildError,
};
use crate::build_driver::wrapper::{ensure_gradle_wrapper, WrapperError};
use crate::env_scanner::command::CommandRunner;
use crate::env_scanner::host::{spec_host_kind, EnvProbe};
use crate::project_analyzer::hybrid_rust_uniffi::find_uniffi_bindgen_member;
use crate::project_analyzer::registry::analyze_project;
use crate::text::{join, join_path, str_eq};
use crate::types::{HostArch, HostKind, ProjectFingerprint};
use vstd::prelude::*;
use vstd::string::StringExecFns;

verus! {

/// Why the pipeline stopped.
#[derive(Debug)]
pub enum PipelineError {
    UnrecognizedProject,
    UnsupportedScenario { scenario_id: String },
    NoUniffiMemberFound,
    Wrapper(WrapperError),
    NativeBuild(NativeBuildError),
    Bindgen(BindgenError),
    Aapt2Patch(Aapt2PatchError),
    GradleBuild(GradleBuildError),
}

impl PipelineError {
    /// The message this error displays; wrapped errors show their own.
    pub fn message(&self) -> (r: String)
        ensures
            match *self {
                PipelineError::UnrecognizedProject => r@
                    == "this project didn't match any known bana scenario; `bana build` only supports recognized project types"@,
                PipelineError::UnsupportedScenario { scenario_id } => r@
                    == "bana build v1 only supports the hybrid-rust-uniffi scenario; detected '"@
                    + scenario_id@ + "' instead"@,
                PipelineError::NoUniffiMemberFound => r@
                    == "could not determine which workspace member contains the uniffi-decorated native code"@,
                PipelineError::Wrapper(e) => r@ == crate::build_driver::wrapper::wrapper_message(e),
                PipelineError::NativeBuild(e) => r@ == crate::build_driver::native::native_message(e),
                PipelineError::Bindgen(e) => r@ == crate::build_driver::bindgen::bindgen_message(e),
                PipelineError::Aapt2Patch(e) => r@
                    == crate::build_driver::aapt2_patch::aapt2_patch_message(e),
                PipelineError::GradleBuild(e) => r@ == crate::build_driver::gradlew::gradle_message(e),
            },
    {
        match self {
            PipelineError::UnrecognizedProject => "this project didn't match any known bana scenario; `bana build` only supports recognized project types".to_owned(),
            PipelineError::UnsupportedScenario { scenario_id } => {
                let mut m = "bana build v1 only supports the hybrid-rust-uniffi scenario; detected '".to_owned();
                m.append(scenario_id.as_str());
                m.append("' instead");
                m
            },
            PipelineError::NoUniffiMemberFound => "could not determine which workspace member contains the uniffi-decorated native code".to_owned(),
            PipelineError::Wrapper(e) => e.message(),
            PipelineError::NativeBuild(e) => e.message(),
            PipelineError::Bindgen(e) => e.message(),
            PipelineError::Aapt2Patch(e) => e.message(),
            PipelineError::GradleBuild(e) => e.message(),
        }
    }
}

/// `<repo>/android`.
pub open spec fn spec_android_root(repo: Seq<char>) -> Seq<char> {
    join(repo, "android"@)
}

/// `<repo>/android/app`.
pub open spec fn spec_app_root(repo: Seq<char>) -> Seq<char> {
    join(spec_android_root(repo), "app"@)
}

/// `<app>/src/main/<leaf>`.
pub open spec fn spec_main_dir(repo: Seq<char>, leaf: Seq<char>) -> Seq<char> {
    join(join(join(spec_app_root(repo), "src"@), "main"@), leaf)
}

/// The prefix and extension of a shared library on a host kind: none and
/// `dll` on Windows, `lib` and `dylib` on macOS, `lib` and `so` elsewhere.
pub open spec fn spec_library_naming(kind: HostKind) -> (Seq<char>, Seq<char>) {
    match kind {
        HostKind::Windows => (""@, "dll"@),
        HostKind::MacOs => ("lib"@, "dylib"@),
        _ => ("lib"@, "so"@),
    }
}

/// Where Gradle leaves the APK of a variant.
pub open spec fn spec_apk_path(repo: Seq<char>, variant: BuildVariant) -> Seq<char> {
    let apk_dir = join(join(join(spec_app_root(repo), "build"@), "outputs"@), "apk"@);
    match variant {
        BuildVariant::Debug => join(join(apk_dir, "debug"@), "app-debug.apk"@),
        BuildVariant::Release => join(join(apk_dir, "release"@), "app-release-unsigned.apk"@),
    }
}

/// `<app>/src/main/<leaf>`.
fn main_dir(repo_root: &str, leaf: &str) -> (r: String)
    ensures
        r@ == spec_main_dir(repo_root@, leaf@),
{
    let android = join_path(repo_root, "android");
    let app = join_path(android.as_str(), "app");
    let src = join_path(app.as_str(), "src");
    let main = join_path(src.as_str(), "main");
    join_path(main.as_str(), leaf)
}

/// The prefix and extension of a shared library on a host kind.
pub fn library_naming(kind: &HostKind) -> (r: (&'static str, &'static str))
    ensures
        (r.0@, r.1@) == spec_library_naming(*kind),
{
    match kind {
        HostKind::Windows => ("", "dll"),
        HostKind::MacOs => ("lib", "dylib"),
        _ => ("lib", "so"),
    }
}

/// Where Gradle leaves the APK of a variant.
pub fn apk_path(repo_root: &str, variant: BuildVariant) -> (r: String)
    ensures
        r@ == spec_apk_path(repo_root@, variant),
{
    let android = join_path(repo_root, "android");
    let app = join_path(android.as_str(), "app");
    let build = join_path(app.as_str(), "build");
    let outputs = join_path(build.as_str(), "outputs");
    let apk = join_path(outputs.as_str(), "apk");
    match variant {
        BuildVariant::Debug => {
            let d = join_path(apk.as_str(), "debug");
            join_path(d.as_str(), "app-debug.apk")
        },
        BuildVariant::Release => {
            let d = join_path(apk.as_str(), "release");
            join_path(d.as_str(), "app-release-unsigned.apk")
        },
    }
}

/// The last step: `gradlew` ran in `android/` for the variant; its
/// failure is the pipeline's, its success yields the APK's path.
pub open spec fn after_aapt2<R: CommandRunner>(
    runner: &R,
    repo: Seq<char>,
    variant: BuildVariant,
    r: Result<String, PipelineError>,
) -> bool {
    exists|d: &str, g: Result<(), GradleBuildError>|
        d@ == spec_android_root(repo) && #[trigger] call_ensures(run_gradlew::<R>, (runner, d, variant), g)
            && match g {
            Err(e) => r == Err::<String, PipelineError>(PipelineError::GradleBuild(e)),
            Ok(_) => r matches Ok(p) && p@ == spec_apk_path(repo, variant),
        }
}

/// The AAPT2 step on `android/`, then the rest.
pub open spec fn after_bindgen<P: EnvProbe, R: CommandRunner, W: PropertiesWriter>(
    probe: &P,
    runner: &R,
    props: &W,
    host_kind: &HostKind,
    host_arch: &HostArch,
    repo: Seq<char>,
    variant: BuildVariant,
    r: Result<String, PipelineError>,
) -> bool {
    exists|d: &str, a: Result<Aapt2PatchOutcome, Aapt2PatchError>|
        d@ == spec_android_root(repo) && #[trigger] call_ensures(
            ensure_aapt2_override::<P, R, W>,
            (probe, runner, props, host_kind, host_arch, d),
            a,
        ) && match a {
            Err(e) => r == Err::<String, PipelineError>(PipelineError::Aapt2Patch(e)),
            Ok(_) => after_aapt2(runner, repo, variant, r),
        }
}

/// The binding generation from the host library `library` into
/// `src/main/kotlin`, then the rest.
pub open spec fn after_host_library<P: EnvProbe, R: CommandRunner, W: PropertiesWriter>(
    probe: &P,
    runner: &R,
    props: &W,
    host_kind: &HostKind,
    host_arch: &HostArch,
    repo: &str,
    package: Seq<char>,
    library: Seq<char>,
    variant: BuildVariant,
    r: Result<String, PipelineError>,
) -> bool {
    exists|p: &str, l: &str, o: &str, b: Result<(), BindgenError>|
        p@ == package && l@ == library && o@ == spec_main_dir(repo@, "kotlin"@)
            && #[trigger] call_ensures(generate_kotlin_bindings::<R>, (runner, repo, p, l, o), b)
            && match b {
            Err(e) => r == Err::<String, PipelineError>(PipelineError::Bindgen(e)),
            Ok(_) => after_bindgen(probe, runner, props, host_kind, host_arch, repo@, variant, r),
        }
}

/// The host-native build of the package, named for the host kind, whose
/// library the bindings are generated from; then the rest.
pub open spec fn after_native<P: EnvProbe, R: CommandRunner, W: PropertiesWriter>(
    probe: &P,
    runner: &R,
    props: &W,
    host_kind: &HostKind,
    host_arch: &HostArch,
    repo: &str,
    package: Seq<char>,
    variant: BuildVariant,
    r: Result<String, PipelineError>,
) -> bool {
    exists|p: &str, dp: &str, de: &str, h: Result<String, NativeBuildError>|
        p@ == package && (dp@, de@) == spec_library_naming(*host_kind) && #[trigger] call_ensures(
            build_host_library::<R>,
            (runner, repo, p, dp, de),
            h,
        ) && match h {
            Err(e) => r == Err::<String, PipelineError>(PipelineError::NativeBuild(e)),
            Ok(library) => after_host_library(
                probe,
                runner,
                props,
                host_kind,
                host_arch,
                repo,
                package,
                library@,
                variant,
                r,
            ),
        }
}

/// The native build of the package for the four standard ABIs into
/// `src/main/jniLibs`, then the rest.
pub open spec fn after_wrapper<P: EnvProbe, R: CommandRunner, W: PropertiesWriter>(
    probe: &P,
    runner: &R,
    props: &W,
    host_kind: &HostKind,
    host_arch: &HostArch,
    repo: &str,
    package: Seq<char>,
    variant: BuildVariant,
    r: Result<String, PipelineError>,
) -> bool {
    exists|p: &str, j: &str, abis: &[&str], n: Result<(), NativeBuildError>|
        p@ == package && j@ == spec_main_dir(repo@, "jniLibs"@) && abis.deep_view() == spec_all_abis()
            && #[trigger] call_ensures(build_native_layer::<R>, (runner, repo, p, j, abis), n)
            && match n {
            Err(e) => r == Err::<String, PipelineError>(PipelineError::NativeBuild(e)),
            Ok(_) => after_native(probe, runner, props, host_kind, host_arch, repo, package, variant, r),
        }
}

/// The Gradle wrapper step on `android/`, then the rest.
pub open spec fn after_member<P: EnvProbe, R: CommandRunner, W: PropertiesWriter>(
    probe: &P,
    runner: &R,
    props: &W,
    host_kind: &HostKind,
    host_arch: &HostArch,
    repo: &str,
    package: Seq<char>,
    variant: BuildVariant,
    r: Result<String, PipelineError>,
) -> bool {
    exists|d: &str, w: Result<(), WrapperError>|
        d@ == spec_android_root(repo@) && #[trigger] call_ensures(
            ensure_gradle_wrapper::<P, R>,
            (probe, runner, d),
            w,
        ) && match w {
            Err(e) => r == Err::<String, PipelineError>(PipelineError::Wrapper(e)),
            Ok(_) => after_wrapper(probe, runner, props, host_kind, host_arch, repo, package, variant, r),
        }
}

/// The search for the UniFFI member, then the rest.
pub open spec fn after_scenario<P: EnvProbe, R: CommandRunner, W: PropertiesWriter>(
    probe: &P,
    runner: &R,
    props: &W,
    host_kind: &HostKind,
    host_arch: &HostArch,
    repo: &str,
    variant: BuildVariant,
    r: Result<String, PipelineError>,
) -> bool {
    exists|m: Option<String>|
        #[trigger] call_ensures(find_uniffi_bindgen_member::<P>, (probe, repo), m) && match m {
            None => r == Err::<String, PipelineError>(PipelineError::NoUniffiMemberFound),
            Some(package) => after_member(probe, runner, props, host_kind, host_arch, repo, package@, variant, r),
        }
}

/// The whole pipeline, step by step: the project analysis must pick the
/// hybrid scenario; then each step runs only after the one before it
/// succeeded, the first failure is returned wrapped, and success yields the
/// APK's path.
pub open spec fn pipeline_outcome<P: EnvProbe, R: CommandRunner, W: PropertiesWriter>(
    probe: &P,
    runner: &R,
    props: &W,
    host_kind: &HostKind,
    host_arch: &HostArch,
    repo: &str,
    variant: BuildVariant,
    r: Result<String, PipelineError>,
) -> bool {
    exists|fp: Option<ProjectFingerprint>|
        #[trigger] call_ensures(analyze_project::<P>, (probe, repo), fp) && match fp {
            None => r == Err::<String, PipelineError>(PipelineError::UnrecognizedProject),
            Some(f) => if f.scenario_id@ != "hybrid-rust-uniffi"@ {
                r matches Err(PipelineError::UnsupportedScenario { scenario_id }) && scenario_id@
                    == f.scenario_id@
            } else {
                after_scenario(probe, runner, props, host_kind, host_arch, repo, variant, r)
            },
        }
}

/// Runs the whole pipeline for a hybrid project: confirm the scenario,
/// find the UniFFI member, ensure the Gradle wrapper, build the native
/// layer for all standard ABIs, build the host-native library and generate
/// the Kotlin bindings from it, patch AAPT2 when needed and run `gradlew`. Returns the APK's path. The first failing
/// step stops the pipeline with its own error.
pub fn build_hybrid_project<P: EnvProbe, R: CommandRunner, W: PropertiesWriter>(
    probe: &P,
    runner: &R,
    props: &W,
    host_kind: &HostKind,
    host_arch: &HostArch,
    repo_root: &str,
    variant: BuildVariant,
) -> (r: Result<String, PipelineError>)
    ensures
        pipeline_outcome(probe, runner, props, host_kind, host_arch, repo_root, variant, r),
        r matches Ok(p) ==> p@ == spec_apk_path(repo_root@, variant),
        r matches Err(PipelineError::UnsupportedScenario { scenario_id }) ==> scenario_id@
            != "hybrid-rust-uniffi"@,
{
    let analysis = analyze_project(probe, repo_root);
    let ghost fpv = analysis;
    assert(call_ensures(analyze_project::<P>, (probe, repo_root), fpv));
    let fingerprint = match analysis {
        Some(f) => f,
        None => return Err(PipelineError::UnrecognizedProject),
    };
    if !str_eq(fingerprint.scenario_id.as_str(), "hybrid-rust-uniffi") {
        return Err(PipelineError::UnsupportedScenario { scenario_id: fingerprint.scenario_id });
    }
    let android_root = join_path(repo_root, "android");
    let ar = android_root.as_str();
    let jni_libs_out = main_dir(repo_root, "jniLibs");
    let kotlin_out = main_dir(repo_root, "kotlin");
    let member = find_uniffi_bindgen_member(probe, repo_root);
    let ghost mv = member;
    assert(call_ensures(find_uniffi_bindgen_member::<P>, (probe, repo_root), mv));
    let bindgen_package = match member {
        Some(m) => m,
        None => {
            let r = Err(PipelineError::NoUniffiMemberFound);
            assert(after_scenario(probe, runner, props, host_kind, host_arch, repo_root, variant, r));
            return r;
        },
    };
    let ghost pkg = bindgen_package@;
    let bp = bindgen_package.as_str();
    let w = ensure_gradle_wrapper(probe, runner, ar);
    let ghost wv = w;
    assert(call_ensures(ensure_gradle_wrapper::<P, R>, (probe, runner, ar), wv));
    if let Err(e) = w {
        let r = Err(PipelineError::Wrapper(e));
        assert(after_member(probe, runner, props, host_kind, host_arch, repo_root, pkg, variant, r));
        assert(after_scenario(probe, runner, props, host_kind, host_arch, repo_root, variant, r));
        return r;
    }
    let abis = all_abis();
    let av = abis.as_slice();
    let jo = jni_libs_out.as_str();
    let n = build_native_layer(runner, repo_root, bp, jo, av);
    let ghost nv = n;
    assert(call_ensures(build_native_layer::<R>, (runner, repo_root, bp, jo, av), nv));
    if let Err(e) = n {
        let r = Err(PipelineError::NativeBuild(e));
        assert(after_wrapper(probe, runner, props, host_kind, host_arch, repo_root, pkg, variant, r));
        assert(after_member(probe, runner, props, host_kind, host_arch, repo_root, pkg, variant, r));
        assert(after_scenario(probe, runner, props, host_kind, host_arch, repo_root, variant, r));
        return r;
    }
    let (dll_prefix, dll_extension) = library_naming(host_kind);
    let h = build_host_library(runner, repo_root, bp, dll_prefix, dll_extension);
    let ghost hv = h;
    assert(call_ensures(build_host_library::<R>, (runner, repo_root, bp, dll_prefix, dll_extension), hv));
    let library = match h {
        Ok(l) => l,
        Err(e) => {
            let r = Err(PipelineError::NativeBuild(e));
            assert(after_native(probe, runner, props, host_kind, host_arch, repo_root, pkg, variant, r));
            assert(after_wrapper(probe, runner, props, host_kind, host_arch, repo_root, pkg, variant, r));
            assert(after_member(probe, runner, props, host_kind, host_arch, repo_root, pkg, variant, r));
            assert(after_scenario(probe, runner, props, host_kind, host_arch, repo_root, variant, r));
            return r;
        },
    };
    let ghost lib = library@;
    let lp = library.as_str();
    let ko = kotlin_out.as_str();
    let b = generate_kotlin_bindings(runner, repo_root, bp, lp, ko);
    let ghost bv = b;
    assert(call_ensures(generate_kotlin_bindings::<R>, (runner, repo_root, bp, lp, ko), bv));
    if let Err(e) = b {
        let r = Err(PipelineError::Bindgen(e));
        assert(after_host_library(probe, runner, props, host_kind, host_arch, repo_root, pkg, lib, variant, r));
        assert(after_native(probe, runner, props, host_kind, host_arch, repo_root, pkg, variant, r));
        assert(after_wrapper(probe, runner, props, host_kind, host_arch, repo_root, pkg, variant, r));
        assert(after_member(probe, runner, props, host_kind, host_arch, repo_root, pkg, variant, r));
        assert(after_scenario(probe, runner, props, host_kind, host_arch, repo_root, variant, r));
        return r;
    }
    let a = ensure_aapt2_override(probe, runner, props, host_kind, host_arch, ar);
    let ghost aav = a;
    assert(call_ensures(
        ensure_aapt2_override::<P, R, W>,
        (probe, runner, props, host_kind, host_arch, ar),
        aav,
    ));
    if let Err(e) = a {
        let r = Err(PipelineError::Aapt2Patch(e));
        assert(after_bindgen(probe, runner, props, host_kind, host_arch, repo_root@, variant, r));
        assert(after_host_library(probe, runner, props, host_kind, host_arch, repo_root, pkg, lib, variant, r));
        assert(after_native(probe, runner, props, host_kind, host_arch, repo_root, pkg, variant, r));
        assert(after_wrapper(probe, runner, props, host_kind, host_arch, repo_root, pkg, variant, r));
        assert(after_member(probe, runner, props, host_kind, host_arch, repo_root, pkg, variant, r));
        assert(after_scenario(probe, runner, props, host_kind, host_arch, repo_root, variant, r));
        return r;
    }
    let g = run_gradlew(runner, ar, variant);
    let ghost gv = g;
    assert(call_ensures(run_gradlew::<R>, (runner, ar, variant), gv));
    let r = match g {
        Err(e) => Err(PipelineError::GradleBuild(e)),
        Ok(()) => Ok(apk_path(repo_root, variant)),
    };
    assert(after_aapt2(runner, repo_root@, variant, r));
    assert(after_bindgen(probe, runner, props, host_kind, host_arch, repo_root@, variant, r));
    assert(after_host_library(probe, runner, props, host_kind, host_arch, repo_root, pkg, lib, variant, r));
    assert(after_native(probe, runner, props, host_kind, host_arch, repo_root, pkg, variant, r));
    assert(after_wrapper(probe, runner, props, host_kind, host_arch, repo_root, pkg, variant, r));
    assert(after_member(probe, runner, props, host_kind, host_arch, repo_root, pkg, variant, r));
    assert(after_scenario(probe, runner, props, host_kind, host_arch, repo_root, variant, r));
    r
}

/// The shared-library prefix and extension of a target operating system,
/// as Rust's `std::env::consts` gives them: none and `dll` on Windows,
/// `lib` and `dylib` on macOS, `lib` and `so` on Linux, Android and the
/// other Unix systems.
pub open spec fn os_library_naming(os: Seq<char>) -> (Seq<char>, Seq<char>) {
    if os == "windows"@ {
        (""@, "dll"@)
    } else if os == "macos"@ {
        ("lib"@, "dylib"@)
    } else {
        ("lib"@, "so"@)
    }
}

/// The host library is named by the target operating system alone: every
/// host kind detected on one target gets that system's naming, whatever
/// the Termux, Android or Kali signals say, so two hosts on the same
/// target always look for the same file.
pub proof fn law_library_naming_follows_the_target_os(
    os: Seq<char>,
    android_signal: bool,
    os_release: Option<Seq<char>>,
    termux_version: bool,
    other_signal: bool,
    other_release: Option<Seq<char>>,
    other_termux: bool,
)
    ensures
        spec_library_naming(spec_host_kind(os, android_signal, os_release, termux_version))
            == os_library_naming(os),
        spec_library_naming(spec_host_kind(os, android_signal, os_release, termux_version))
            == spec_library_naming(spec_host_kind(os, other_signal, other_release, other_termux)),
{
}

} // verus!
