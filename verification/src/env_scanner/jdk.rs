//! JDK detection: the version is always read from the real
//! `java -version` output, never guessed.

use crate::env_scanner::command::{failure_text, ran, take_failure_text, CommandOutput, CommandRunner};
use crate::text::{
    contains, contains_chars, copy_range, first_index_of, first_where, from_chars, index_of,
    lemma_first_where, lines, lines_of, to_chars, views,
};
use crate::types::{JdkInfo, ToolStatus};
use vstd::prelude::*;

verus! {

/// Lines that mention `version`.
pub open spec fn mentions_version() -> spec_fn(Seq<char>) -> bool {
    |l: Seq<char>| contains(l, "version"@)
}

/// The text between the first two double quotes of a line.
pub open spec fn quoted(line: Seq<char>) -> Option<Seq<char>> {
    let q1 = first_index_of(line, '"');
    if q1 < 0 {
        None
    } else {
        let rest = line.skip(q1 + 1);
        let q2 = first_index_of(rest, '"');
        if q2 < 0 {
            None
        } else {
            Some(rest.take(q2))
        }
    }
}

/// The version in `java -version` output: the quoted text of the first line
/// that mentions `version`, as in `openjdk version "21.0.11" 2024-04-16`.
pub open spec fn spec_parse_java_version(raw: Seq<char>) -> Option<Seq<char>> {
    match first_where(lines(raw), mentions_version()) {
        Some(line) => quoted(line),
        None => None,
    }
}

pub const UNPARSEABLE_JAVA_VERSION: &'static str = "could not parse `java -version` output";

/// What `detect_jdk` reports for the output of `java -version` (`None` when
/// the command could not run). Java prints its version to standard error,
/// so that stream is read unless it is empty.
pub open spec fn jdk_status_matches(r: ToolStatus<JdkInfo>, output: Option<CommandOutput>) -> bool {
    match output {
        None => r is NotFound,
        Some(o) => match spec_parse_java_version(failure_text(o)) {
            Some(v) => r matches ToolStatus::Found { path, info, verified } && path@ == java_program()
                && info.version@ == v && verified,
            None => r matches ToolStatus::FoundButIncompatible { path, info, reason } && path@
                == java_program() && info.version@ == "unknown"@ && reason@
                == UNPARSEABLE_JAVA_VERSION@,
        },
    }
}

/// The text between the first two double quotes of a line.
fn quoted_text(line: &[char]) -> (r: Option<Vec<char>>)
    ensures
        r matches Some(v) ==> quoted(line@) == Some(v@),
        r is None ==> quoted(line@) is None,
{
    let q1 = match index_of(line, '"') {
        Some(q) => q,
        None => return None,
    };
    assert(q1 < line@.len());
    assert(line@.len() == line.len());
    let rest = copy_range(line, q1 + 1, line.len());
    assert(rest@ =~= line@.skip(q1 + 1));
    let q2 = match index_of(rest.as_slice(), '"') {
        Some(q) => q,
        None => return None,
    };
    let v = copy_range(rest.as_slice(), 0, q2);
    assert(v@ =~= rest@.take(q2 as int));
    Some(v)
}

/// Extracts the version from a line like `openjdk version "21.0.11" 2024-04-16`.
pub fn parse_java_version(raw: &str) -> (r: Option<String>)
    ensures
        r.deep_view() == spec_parse_java_version(raw@),
{
    let chars = to_chars(raw);
    let ls = lines_of(chars.as_slice());
    let needle = to_chars("version");
    let mut i: usize = 0;
    while i < ls.len()
        invariant
            i <= ls@.len(),
            needle@ == "version"@,
            views(ls@) == lines(raw@),
            forall|k: int| 0 <= k < i ==> !mentions_version()(views(ls@)[k]),
        decreases ls.len() - i,
    {
        if contains_chars(ls[i].as_slice(), needle.as_slice()) {
            proof {
                assert(views(ls@).len() == ls@.len());
                assert(views(ls@)[i as int] == ls@[i as int]@);
                lemma_first_where(views(ls@), mentions_version(), i as int);
                assert(first_where(views(ls@), mentions_version()) == Some(ls@[i as int]@));
                assert(lines(raw@) == views(ls@));
                assert(spec_parse_java_version(raw@) == quoted(ls@[i as int]@));
            }
            let q = quoted_text(ls[i].as_slice());
            let r = match q {
                Some(v) => Some(from_chars(v.as_slice())),
                None => None,
            };
            assert(r.deep_view() == quoted(ls@[i as int]@));
            return r;
        }
        i = i + 1;
    }
    proof {
        lemma_first_where(views(ls@), mentions_version(), i as int);
    }
    None
}

/// The status for the output of `java -version`.
pub fn jdk_status_from(output: Option<CommandOutput>) -> (r: ToolStatus<JdkInfo>)
    ensures
        jdk_status_matches(r, output),
{
    let Some(out) = output else {
        return ToolStatus::NotFound;
    };
    let raw = take_failure_text(out);
    match parse_java_version(raw.as_str()) {
        Some(version) => ToolStatus::Found {
            path: "java".to_owned(),
            info: JdkInfo { version },
            verified: true,
        },
        None => ToolStatus::FoundButIncompatible {
            path: "java".to_owned(),
            info: JdkInfo { version: "unknown".to_owned() },
            reason: UNPARSEABLE_JAVA_VERSION.to_owned(),
        },
    }
}

/// The program the JDK probe runs, and the path a found JDK is reported
/// under.
pub open spec fn java_program() -> Seq<char> {
    "java"@
}

/// The arguments of the `java -version` probe.
pub open spec fn java_version_args() -> Seq<Seq<char>> {
    seq!["-version"@]
}

/// Runs `java -version` and reports what it printed.
pub fn detect_jdk<R: CommandRunner>(runner: &R) -> (r: ToolStatus<JdkInfo>)
    ensures
        exists|output: Option<CommandOutput>|
            #[trigger] ran(runner, java_program(), java_version_args(), output) && jdk_status_matches(
                r,
                output,
            ),
{
    let args = vec!["-version"];
    let a = args.as_slice();
    let output = runner.run("java", a);
    let ghost seen = output;
    assert(a.deep_view() =~= java_version_args());
    assert(call_ensures(R::run, (runner, "java", a), seen));
    assert(ran(runner, "java"@, java_version_args(), seen));
    let r = jdk_status_from(output);
    assert(jdk_status_matches(r, seen));
    r
}

/// A program and its arguments as a command line, separated by spaces.
pub open spec fn command_line(program: Seq<char>, args: Seq<Seq<char>>) -> Seq<char>
    decreases args.len(),
{
    if args.len() == 0 {
        program
    } else {
        command_line(program, args.drop_last()) + " "@ + args.last()
    }
}

/// The JDK probe is the command its own failure report names: when the
/// output cannot be parsed, the reason quotes `java` with exactly the
/// arguments the probe ran, `java -version`, whose output is the one
/// carrying the quoted version string.
pub proof fn law_jdk_probe_is_the_command_it_reports()
    ensures
        UNPARSEABLE_JAVA_VERSION@ == "could not parse `"@ + command_line(java_program(), java_version_args())
            + "` output"@,
{
    reveal_strlit("could not parse `java -version` output");
    reveal_strlit("could not parse `");
    reveal_strlit("java");
    reveal_strlit(" ");
    reveal_strlit("-version");
    reveal_strlit("` output");
    let args = java_version_args();
    assert(args.drop_last() =~= Seq::<Seq<char>>::empty());
    assert(command_line("java"@, args.drop_last()) == "java"@);
    assert(command_line("java"@, args) =~= "java"@ + " "@ + "-version"@);
    assert(UNPARSEABLE_JAVA_VERSION@ =~= "could not parse `"@ + command_line("java"@, args)
        + "` output"@);
}

} // verus!
