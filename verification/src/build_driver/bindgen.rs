//! Kotlin bindings with `uniffi-bindgen` in library mode: no UDL file,
//! straight from a compiled library, the way UniFFI projects run it
//! (`cargo run -p <member> --bin uniffi-bindgen --features cli`).

use crate::build_driver::native::arg_refs;
use crate::env_scanner::command::{
    failure_text, ran_in, take_failure_text, CommandOutput, CommandRunner,
};
use vstd::prelude::*;
use vstd::string::StringExecFns;

verus! {

/// Why binding generation failed.
#[derive(Debug)]
pub enum BindgenError {
    GenerationFailed { library: String, reason: String },
}

/// The message an error displays.
pub open spec fn bindgen_message(e: BindgenError) -> Seq<char> {
    match e {
        BindgenError::GenerationFailed { library, reason } =>
            "uniffi-bindgen generation failed for library '"@ + library@ + "': "@ + reason@,
    }
}

impl BindgenError {
    /// The message this error displays.
    pub fn message(&self) -> (r: String)
        ensures
            r@ == bindgen_message(*self),
    {
        match self {
            BindgenError::GenerationFailed { library, reason } => {
                let mut m = "uniffi-bindgen generation failed for library '".to_owned();
                m.append(library.as_str());
                m.append("': ");
                m.append(reason.as_str());
                m
            },
        }
    }
}

/// The arguments of `cargo run -p <package> --bin uniffi-bindgen
/// --features cli -- generate --library <library> --language kotlin
/// --out-dir <out_dir>`.
pub open spec fn spec_bindgen_args(package: Seq<char>, library: Seq<char>, out_dir: Seq<char>) -> Seq<
    Seq<char>,
> {
    seq![
        "run"@,
        "-p"@,
        package,
        "--bin"@,
        "uniffi-bindgen"@,
        "--features"@,
        "cli"@,
        "--"@,
        "generate"@,
        "--library"@,
        library,
        "--language"@,
        "kotlin"@,
        "--out-dir"@,
        out_dir,
    ]
}

/// What generation reports for the observed run: success only on a
/// successful run, else the library with the command's failure text, or a
/// note that the generator could not run.
pub open spec fn bindgen_outcome_matches(
    r: Result<(), BindgenError>,
    library: Seq<char>,
    out: Option<CommandOutput>,
) -> bool {
    let ran_ok = out matches Some(o) && o.success;
    match r {
        Ok(_) => ran_ok,
        Err(BindgenError::GenerationFailed { library: l, reason }) => !ran_ok && l@ == library
            && reason@ == (match out {
            Some(o) => failure_text(o),
            None => "could not execute `cargo run ... uniffi-bindgen`"@,
        }),
    }
}

/// The generator's arguments.
pub fn bindgen_args(package: &str, library_path: &str, out_dir: &str) -> (r: Vec<String>)
    ensures
        r.deep_view() == spec_bindgen_args(package@, library_path@, out_dir@),
{
    let mut r: Vec<String> = Vec::new();
    r.push("run".to_owned());
    r.push("-p".to_owned());
    r.push(package.to_owned());
    r.push("--bin".to_owned());
    r.push("uniffi-bindgen".to_owned());
    r.push("--features".to_owned());
    r.push("cli".to_owned());
    r.push("--".to_owned());
    r.push("generate".to_owned());
    r.push("--library".to_owned());
    r.push(library_path.to_owned());
    r.push("--language".to_owned());
    r.push("kotlin".to_owned());
    r.push("--out-dir".to_owned());
    r.push(out_dir.to_owned());
    assert(r.deep_view() =~= spec_bindgen_args(package@, library_path@, out_dir@));
    r
}

/// Generation's result from what running the generator gave.
pub fn bindgen_outcome(library_path: &str, out: Option<CommandOutput>) -> (r: Result<(), BindgenError>)
    ensures
        bindgen_outcome_matches(r, library_path@, out),
{
    match out {
        Some(o) => {
            if o.success {
                Ok(())
            } else {
                Err(BindgenError::GenerationFailed { library: library_path.to_owned(), reason: take_failure_text(o) })
            }
        },
        None => Err(
            BindgenError::GenerationFailed {
                library: library_path.to_owned(),
                reason: "could not execute `cargo run ... uniffi-bindgen`".to_owned(),
            },
        ),
    }
}

/// Runs the generator inside the workspace root.
pub fn generate_kotlin_bindings<R: CommandRunner>(
    runner: &R,
    workspace_root: &str,
    bindgen_package: &str,
    library_path: &str,
    out_dir: &str,
) -> (r: Result<(), BindgenError>)
    ensures
        exists|out: Option<CommandOutput>|
            #[trigger] ran_in(
                runner,
                workspace_root@,
                "cargo"@,
                spec_bindgen_args(bindgen_package@, library_path@, out_dir@),
                out,
            ) && bindgen_outcome_matches(r, library_path@, out),
{
    let args = bindgen_args(bindgen_package, library_path, out_dir);
    let refs = arg_refs(&args);
    let ra = refs.as_slice();
    let out = runner.run_in(workspace_root, "cargo", ra);
    let ghost o = out;
    assert(call_ensures(R::run_in, (runner, workspace_root, "cargo", ra), o));
    assert(ran_in(
        runner,
        workspace_root@,
        "cargo"@,
        spec_bindgen_args(bindgen_package@, library_path@, out_dir@),
        o,
    ));
    let r = bindgen_outcome(library_path, out);
    assert(bindgen_outcome_matches(r, library_path@, o));
    r
}

} // verus!
