//! The abstraction over running external commands, so that every decision
//! built on a command's output can be exercised without the tool existing.

use vstd::prelude::*;

verus! {

/// What a finished command printed, and whether it exited successfully.
#[derive(Debug, Clone)]
pub struct CommandOutput {
    pub stdout: String,
    pub stderr: String,
    pub success: bool,
}

/// Runs a command and captures its output; `None` means the command itself
/// could not be found or executed. Implementations run real processes or
/// simulate them; nothing is assumed of what they report.
pub trait CommandRunner: Send + Sync {
    fn run(&self, program: &str, args: &[&str]) -> Option<CommandOutput>;

    /// Like `run`, with an explicit working directory. The default ignores
    /// the directory and calls `run`.
    fn run_in(&self, cwd: &str, program: &str, args: &[&str]) -> (r: Option<CommandOutput>)
        default_ensures
            call_ensures(Self::run, (self, program, args), r),
    {
        self.run(program, args)
    }
}

/// `runner` answered `out` when asked to run `program` with `args`.
pub open spec fn ran<R: CommandRunner>(
    runner: &R,
    program: Seq<char>,
    args: Seq<Seq<char>>,
    out: Option<CommandOutput>,
) -> bool {
    exists|p: &str, a: &[&str]|
        p@ == program && a.deep_view() == args && #[trigger] call_ensures(R::run, (runner, p, a), out)
}

/// `runner` answered `out` when asked to run `program` with `args` inside
/// `cwd`.
pub open spec fn ran_in<R: CommandRunner>(
    runner: &R,
    cwd: Seq<char>,
    program: Seq<char>,
    args: Seq<Seq<char>>,
    out: Option<CommandOutput>,
) -> bool {
    exists|c: &str, p: &str, a: &[&str]|
        c@ == cwd && p@ == program && a.deep_view() == args && #[trigger] call_ensures(
            R::run_in,
            (runner, c, p, a),
            out,
        )
}

/// The text a failed command is reported by: its standard error, or its
/// standard output when the error stream is empty.
pub open spec fn failure_text(o: CommandOutput) -> Seq<char> {
    if o.stderr@.len() == 0 {
        o.stdout@
    } else {
        o.stderr@
    }
}

/// `failure_text` of a command output.
pub fn take_failure_text(o: CommandOutput) -> (r: String)
    ensures
        r@ == failure_text(o),
{
    if o.stderr.as_str().is_empty() {
        o.stdout
    } else {
        o.stderr
    }
}

} // verus!
