//! The native layer's build with `cargo-ndk` for every requested ABI, and
//! the plain host build of the library that `uniffi-bindgen` reads.

use crate::env_scanner::command::{
    failure_text, ran, ran_in, take_failure_text, CommandOutput, CommandRunner,
};
use crate::text::{join, join_path, to_chars};
use vstd::prelude::*;
use vstd::string::StringExecFns;

verus! {

/// The four standard Android ABIs a hybrid project builds for by default.
pub open spec fn spec_all_abis() -> Seq<Seq<char>> {
    seq!["arm64-v8a"@, "armeabi-v7a"@, "x86_64"@, "x86"@]
}

/// The four standard Android ABIs, in build order.
pub fn all_abis() -> (r: Vec<&'static str>)
    ensures
        r.deep_view() == spec_all_abis(),
{
    let r = vec!["arm64-v8a", "armeabi-v7a", "x86_64", "x86"];
    assert(r.deep_view() =~= spec_all_abis());
    r
}

/// Why the native build failed.
#[derive(Debug)]
pub enum NativeBuildError {
    CargoNdkMissing,
    BuildFailed { package: String, reason: String },
}

/// The message an error displays.
pub open spec fn native_message(e: NativeBuildError) -> Seq<char> {
    match e {
        NativeBuildError::CargoNdkMissing =>
            "cargo-ndk is not installed or not on PATH. Install it with `cargo install cargo-ndk` and run again."@,
        NativeBuildError::BuildFailed { package, reason } => "cargo-ndk build failed for package '"@
            + package@ + "': "@ + reason@,
    }
}

impl NativeBuildError {
    /// The message this error displays.
    pub fn message(&self) -> (r: String)
        ensures
            r@ == native_message(*self),
    {
        match self {
            NativeBuildError::CargoNdkMissing => "cargo-ndk is not installed or not on PATH. Install it with `cargo install cargo-ndk` and run again.".to_owned(),
            NativeBuildError::BuildFailed { package, reason } => {
                let mut m = "cargo-ndk build failed for package '".to_owned();
                m.append(package.as_str());
                m.append("': ");
                m.append(reason.as_str());
                m
            },
        }
    }
}

/// `-t <abi>` for each ABI, in order.
pub open spec fn abi_flags(abis: Seq<Seq<char>>) -> Seq<Seq<char>>
    decreases abis.len(),
{
    if abis.len() == 0 {
        Seq::empty()
    } else {
        abi_flags(abis.drop_last()) + seq!["-t"@, abis.last()]
    }
}

/// The arguments of `cargo ndk -t <abi>... -o <out> build --release -p <package>`.
pub open spec fn spec_ndk_args(abis: Seq<Seq<char>>, out_dir: Seq<char>, package: Seq<char>) -> Seq<
    Seq<char>,
> {
    seq!["ndk"@] + abi_flags(abis) + seq!["-o"@, out_dir, "build"@, "--release"@, "-p"@, package]
}

/// What a failed or successful native build run reports: success only on
/// a successful run, else the package with the command's failure text, or
/// a note that `cargo ndk` could not run.
pub open spec fn native_outcome_matches(
    r: Result<(), NativeBuildError>,
    package: Seq<char>,
    missing_note: Seq<char>,
    out: Option<CommandOutput>,
) -> bool {
    let ran_ok = out matches Some(o) && o.success;
    match r {
        Ok(_) => ran_ok,
        Err(e) => !ran_ok && (e matches NativeBuildError::BuildFailed { package: p, reason } && p@
            == package && reason@ == (match out {
            Some(o) => failure_text(o),
            None => missing_note,
        })),
    }
}

/// The arguments of the `cargo ndk` build.
pub fn ndk_build_args(abis: &[&str], out_dir: &str, package: &str) -> (r: Vec<String>)
    ensures
        r.deep_view() == spec_ndk_args(abis.deep_view(), out_dir@, package@),
{
    let mut args: Vec<String> = Vec::new();
    args.push("ndk".to_owned());
    let mut i: usize = 0;
    while i < abis.len()
        invariant
            i <= abis@.len(),
            args.deep_view() == seq!["ndk"@] + abi_flags(abis.deep_view().take(i as int)),
        decreases abis.len() - i,
    {
        let ghost before = args.deep_view();
        args.push("-t".to_owned());
        args.push(abis[i].to_owned());
        assert(abis.deep_view().take(i + 1).drop_last() =~= abis.deep_view().take(i as int));
        assert(abis.deep_view()[i as int] == abis@[i as int]@);
        assert(args.deep_view() =~= before + seq!["-t"@, abis@[i as int]@]);
        i = i + 1;
    }
    assert(abis.deep_view().take(i as int) =~= abis.deep_view());
    let ghost before = args.deep_view();
    args.push("-o".to_owned());
    args.push(out_dir.to_owned());
    args.push("build".to_owned());
    args.push("--release".to_owned());
    args.push("-p".to_owned());
    args.push(package.to_owned());
    assert(args.deep_view() =~= spec_ndk_args(abis.deep_view(), out_dir@, package@));
    args
}

/// The native build's result from what running it gave.
pub fn native_outcome(package: &str, missing_note: &str, out: Option<CommandOutput>) -> (r: Result<
    (),
    NativeBuildError,
>)
    ensures
        native_outcome_matches(r, package@, missing_note@, out),
{
    match out {
        Some(o) => {
            if o.success {
                Ok(())
            } else {
                Err(NativeBuildError::BuildFailed { package: package.to_owned(), reason: take_failure_text(o) })
            }
        },
        None => Err(
            NativeBuildError::BuildFailed { package: package.to_owned(), reason: missing_note.to_owned() },
        ),
    }
}

/// Borrowed views of owned arguments.
pub fn arg_refs(args: &Vec<String>) -> (r: Vec<&str>)
    ensures
        r.deep_view() == args.deep_view(),
{
    let mut r: Vec<&str> = Vec::new();
    let mut i: usize = 0;
    while i < args.len()
        invariant
            i <= args@.len(),
            r.deep_view() == args.deep_view().take(i as int),
        decreases args.len() - i,
    {
        let ghost before = r.deep_view();
        let a = args[i].as_str();
        assert(a@ == args@[i as int]@);
        r.push(a);
        assert(r.deep_view() =~= before.push(a@));
        assert(args.deep_view()[i as int] == args@[i as int]@);
        assert(r.deep_view() =~= args.deep_view().take(i + 1));
        i = i + 1;
    }
    assert(args.deep_view().take(i as int) =~= args.deep_view());
    r
}

/// The arguments of the `cargo ndk --version` probe.
pub open spec fn ndk_version_args() -> Seq<Seq<char>> {
    seq!["ndk"@, "--version"@]
}

/// Runs `cargo ndk -t <abi>... -o <jni_libs_out> build --release -p
/// <package>` inside the workspace, after confirming that `cargo-ndk`
/// really answers.
pub fn build_native_layer<R: CommandRunner>(
    runner: &R,
    workspace_root: &str,
    package: &str,
    jni_libs_out: &str,
    abis: &[&str],
) -> (r: Result<(), NativeBuildError>)
    ensures
        exists|probe_out: Option<CommandOutput>|
            #[trigger] ran(runner, "cargo"@, ndk_version_args(), probe_out) && match probe_out {
                None => r matches Err(NativeBuildError::CargoNdkMissing),
                Some(_) => exists|out: Option<CommandOutput>|
                    #[trigger] ran_in(
                        runner,
                        workspace_root@,
                        "cargo"@,
                        spec_ndk_args(abis.deep_view(), jni_libs_out@, package@),
                        out,
                    ) && native_outcome_matches(r, package@, "could not execute `cargo ndk`"@, out),
            },
{
    let probe_args = vec!["ndk", "--version"];
    let pa = probe_args.as_slice();
    let probe_out = runner.run("cargo", pa);
    assert(pa.deep_view() =~= seq!["ndk"@, "--version"@]);
    assert(call_ensures(R::run, (runner, "cargo", pa), probe_out));
    assert(ran(runner, "cargo"@, ndk_version_args(), probe_out));
    if probe_out.is_none() {
        return Err(NativeBuildError::CargoNdkMissing);
    }
    let args = ndk_build_args(abis, jni_libs_out, package);
    let refs = arg_refs(&args);
    let ra = refs.as_slice();
    let out = runner.run_in(workspace_root, "cargo", ra);
    let ghost o = out;
    assert(call_ensures(R::run_in, (runner, workspace_root, "cargo", ra), o));
    assert(ran_in(
        runner,
        workspace_root@,
        "cargo"@,
        spec_ndk_args(abis.deep_view(), jni_libs_out@, package@),
        o,
    ));
    let r = native_outcome(package, "could not execute `cargo ndk`", out);
    assert(native_outcome_matches(r, package@, "could not execute `cargo ndk`"@, o));
    r
}

/// A text with every `from` character replaced by `to`.
pub open spec fn replace_char(s: Seq<char>, from: char, to: char) -> Seq<char> {
    s.map_values(|c: char| if c == from { to } else { c })
}

/// The host library a package builds to under `target/debug`, named with
/// the platform's library prefix and extension and the package name with
/// `-` turned into `_`.
pub open spec fn spec_host_library_path(
    workspace_root: Seq<char>,
    package: Seq<char>,
    dll_prefix: Seq<char>,
    dll_extension: Seq<char>,
) -> Seq<char> {
    join(
        join(join(workspace_root, "target"@), "debug"@),
        dll_prefix + replace_char(package, '-', '_') + "."@ + dll_extension,
    )
}

/// `str::replace` of one character by another.
pub fn replace_char_in(s: &str, from: char, to: char) -> (r: String)
    ensures
        r@ == replace_char(s@, from, to),
{
    let chars = to_chars(s);
    let mut r = String::new();
    let mut i: usize = 0;
    while i < chars.len()
        invariant
            i <= chars@.len(),
            chars@ == s@,
            r@ == replace_char(s@, from, to).take(i as int),
        decreases chars.len() - i,
    {
        let c = chars[i];
        r.push(if c == from { to } else { c });
        assert(r@ =~= replace_char(s@, from, to).take(i + 1));
        i = i + 1;
    }
    assert(replace_char(s@, from, to).take(i as int) =~= replace_char(s@, from, to));
    r
}

/// The arguments of the host-native build of a package.
pub open spec fn host_build_args(package: Seq<char>) -> Seq<Seq<char>> {
    seq!["build"@, "-p"@, package]
}

/// A plain host-native debug build of the package, for `uniffi-bindgen`
/// only, never for the APK: library mode loads the library with the host's
/// own loader, which cannot load an Android build, and the release
/// profile's LTO and stripping corrupt UniFFI's metadata sections. The
/// platform's library prefix and extension are given by the caller.
pub fn build_host_library<R: CommandRunner>(
    runner: &R,
    workspace_root: &str,
    package: &str,
    dll_prefix: &str,
    dll_extension: &str,
) -> (r: Result<String, NativeBuildError>)
    ensures
        exists|out: Option<CommandOutput>|
            #[trigger] ran_in(runner, workspace_root@, "cargo"@, host_build_args(package@), out)
                && match r {
                Ok(p) => out matches Some(o) && o.success && p@ == spec_host_library_path(
                    workspace_root@,
                    package@,
                    dll_prefix@,
                    dll_extension@,
                ),
                Err(e) => native_outcome_matches(
                    Err(e),
                    package@,
                    "could not execute `cargo build` (host library)"@,
                    out,
                ),
            },
{
    let args = vec!["build", "-p", package];
    let a = args.as_slice();
    let out = runner.run_in(workspace_root, "cargo", a);
    let ghost o = out;
    assert(a.deep_view() =~= host_build_args(package@));
    assert(call_ensures(R::run_in, (runner, workspace_root, "cargo", a), o));
    assert(ran_in(runner, workspace_root@, "cargo"@, host_build_args(package@), o));
    match native_outcome(package, "could not execute `cargo build` (host library)", out) {
        Ok(()) => {
            let mut file_name = dll_prefix.to_owned();
            let under = replace_char_in(package, '-', '_');
            file_name.append(under.as_str());
            file_name.append(".");
            file_name.append(dll_extension);
            let target = join_path(workspace_root, "target");
            let debug = join_path(target.as_str(), "debug");
            Ok(join_path(debug.as_str(), file_name.as_str()))
        },
        Err(e) => {
            assert(native_outcome_matches(
                Err(e),
                package@,
                "could not execute `cargo build` (host library)"@,
                o,
            ));
            Err(e)
        },
    }
}

} // verus!
