//! Gradle wrapper detection inside one project: `gradlew`,
//! `gradle/wrapper/gradle-wrapper.jar` and
//! `gradle/wrapper/gradle-wrapper.properties`.

use crate::env_scanner::host::{answered_exists, answered_read, EnvProbe};
use crate::text::{
    copy_range, first_index_of, first_where, from_chars, has_prefix, index_of, join, join_path,
    last_index, last_index_of, lemma_first_where, lines, lines_of, starts_with, to_chars, trim,
    trim_chars, trim_start, trim_start_chars, views,
};
use crate::types::{GradleWrapperInfo, ToolStatus};
use vstd::prelude::*;
use vstd::string::StringExecFns;

verus! {

/// Lines that set `distributionUrl`.
pub open spec fn is_distribution_url() -> spec_fn(Seq<char>) -> bool {
    |l: Seq<char>| starts_with(trim_start(l), "distributionUrl"@)
}

/// The Gradle version in a wrapper properties text: from the first
/// `distributionUrl` line, the value after `=`, trimmed; its last path
/// segment must start with `gradle-`, and the version runs up to the next
/// `-`, as in `.../gradle-8.7-bin.zip`.
pub open spec fn spec_parse_distribution_version(properties: Seq<char>) -> Option<Seq<char>> {
    match first_where(lines(properties), is_distribution_url()) {
        None => None,
        Some(line) => {
            let eq = first_index_of(line, '=');
            if eq < 0 {
                None
            } else {
                let url = trim(line.skip(eq + 1));
                let file_name = url.skip(last_index_of(url, '/') + 1);
                if !starts_with(file_name, "gradle-"@) {
                    None
                } else {
                    let rest = file_name.skip(7);
                    let dash = first_index_of(rest, '-');
                    Some(
                        if dash < 0 {
                            rest
                        } else {
                            rest.take(dash)
                        },
                    )
                }
            }
        },
    }
}

/// `true` or `false`, as a bool displays.
pub open spec fn bool_text(b: bool) -> Seq<char> {
    if b {
        "true"@
    } else {
        "false"@
    }
}

pub const MISSING_PROPERTIES_REASON: &'static str = "gradle-wrapper.properties is missing";

pub const UNPARSEABLE_URL_REASON: &'static str =
    "gradle-wrapper.properties found but distributionUrl could not be parsed";

/// The reason given for a wrapper with a version but missing files.
pub open spec fn incomplete_reason(gradlew: bool, jar: bool) -> Seq<char> {
    "gradle wrapper is incomplete (gradlew present: "@ + bool_text(gradlew)
        + ", wrapper jar present: "@ + bool_text(jar) + ")"@
}

/// The wrapper information a status carries.
pub open spec fn wrapper_info_is(
    info: GradleWrapperInfo,
    gradlew: bool,
    jar: bool,
    version: Seq<char>,
) -> bool {
    info.gradlew_present == gradlew && info.wrapper_jar_present == jar
        && info.distribution_version@ == version
}

/// What `detect_gradle_wrapper` reports for a project root, given whether
/// `gradlew` and the wrapper jar exist and the properties text.
pub open spec fn wrapper_status_matches(
    r: ToolStatus<GradleWrapperInfo>,
    root: Seq<char>,
    gradlew: bool,
    jar: bool,
    properties: Option<Seq<char>>,
) -> bool {
    match properties {
        None => if !gradlew && !jar {
            r is NotFound
        } else {
            r matches ToolStatus::FoundButIncompatible { path, info, reason } && path@ == root
                && wrapper_info_is(info, gradlew, jar, "unknown"@) && reason@
                == MISSING_PROPERTIES_REASON@
        },
        Some(p) => match spec_parse_distribution_version(p) {
            None => r matches ToolStatus::FoundButIncompatible { path, info, reason } && path@
                == root && wrapper_info_is(info, gradlew, jar, "unknown"@) && reason@
                == UNPARSEABLE_URL_REASON@,
            Some(v) => if !gradlew || !jar {
                r matches ToolStatus::FoundButIncompatible { path, info, reason } && path@ == root
                    && wrapper_info_is(info, gradlew, jar, v) && reason@ == incomplete_reason(
                    gradlew,
                    jar,
                )
            } else {
                r matches ToolStatus::Found { path, info, verified } && path@ == root
                    && wrapper_info_is(info, true, true, v) && verified
            },
        },
    }
}

fn bool_str(b: bool) -> (r: &'static str)
    ensures
        r@ == bool_text(b),
{
    if b {
        "true"
    } else {
        "false"
    }
}

/// Extracts the Gradle version from a `distributionUrl` line such as
/// `distributionUrl=https\://services.gradle.org/distributions/gradle-8.7-bin.zip`.
pub fn parse_distribution_version(properties: &str) -> (r: Option<String>)
    ensures
        r.deep_view() == spec_parse_distribution_version(properties@),
{
    let chars = to_chars(properties);
    let ls = lines_of(chars.as_slice());
    let key = to_chars("distributionUrl");
    let mut i: usize = 0;
    let mut found = false;
    while i < ls.len() && !found
        invariant
            i <= ls@.len(),
            key@ == "distributionUrl"@,
            views(ls@) == lines(properties@),
            forall|k: int| 0 <= k < i ==> !is_distribution_url()(views(ls@)[k]),
            found ==> i < ls@.len() && is_distribution_url()(views(ls@)[i as int]),
        decreases ls.len() - i + (if found {
            0int
        } else {
            1int
        }),
    {
        let t = trim_start_chars(ls[i].as_slice());
        assert(views(ls@)[i as int] == ls@[i as int]@);
        if has_prefix(t.as_slice(), key.as_slice()) {
            found = true;
        } else {
            i = i + 1;
        }
    }
    proof {
        lemma_first_where(views(ls@), is_distribution_url(), i as int);
    }
    if !found {
        return None;
    }
    let line = &ls[i];
    assert(views(ls@)[i as int] == line@);
    let eq = match index_of(line.as_slice(), '=') {
        Some(e) => e,
        None => return None,
    };
    assert(eq < line@.len());
    assert(line@.len() == line.len());
    let after = copy_range(line.as_slice(), eq + 1, line.len());
    assert(after@ =~= line@.skip(eq + 1));
    let url = trim_chars(after.as_slice());
    let start = match last_index(url.as_slice(), '/') {
        Some(s) => {
            assert(s < url@.len());
            assert(url@.len() == url.len());
            s + 1
        },
        None => 0,
    };
    let file_name = copy_range(url.as_slice(), start, url.len());
    proof {
        crate::text::lemma_last_index_of(url@, '/');
        assert(start == last_index_of(url@, '/') + 1);
    }
    assert(file_name@ =~= url@.skip(last_index_of(url@, '/') + 1));
    let prefix = to_chars("gradle-");
    if !has_prefix(file_name.as_slice(), prefix.as_slice()) {
        return None;
    }
    proof {
        reveal_strlit("gradle-");
    }
    let rest = copy_range(file_name.as_slice(), 7, file_name.len());
    assert(rest@ =~= file_name@.skip(7));
    let version = match index_of(rest.as_slice(), '-') {
        Some(d) => {
            let v = copy_range(rest.as_slice(), 0, d);
            assert(v@ =~= rest@.take(d as int));
            v
        },
        None => rest,
    };
    Some(from_chars(version.as_slice()))
}

/// The wrapper status from the three observations.
pub fn gradle_wrapper_status(
    project_root: &str,
    gradlew_present: bool,
    wrapper_jar_present: bool,
    properties: Option<String>,
) -> (r: ToolStatus<GradleWrapperInfo>)
    ensures
        wrapper_status_matches(
            r,
            project_root@,
            gradlew_present,
            wrapper_jar_present,
            properties.deep_view(),
        ),
{
    let Some(properties) = properties else {
        if !gradlew_present && !wrapper_jar_present {
            return ToolStatus::NotFound;
        }
        return ToolStatus::FoundButIncompatible {
            path: project_root.to_owned(),
            info: GradleWrapperInfo {
                gradlew_present,
                wrapper_jar_present,
                distribution_version: "unknown".to_owned(),
            },
            reason: MISSING_PROPERTIES_REASON.to_owned(),
        };
    };
    let Some(distribution_version) = parse_distribution_version(properties.as_str()) else {
        return ToolStatus::FoundButIncompatible {
            path: project_root.to_owned(),
            info: GradleWrapperInfo {
                gradlew_present,
                wrapper_jar_present,
                distribution_version: "unknown".to_owned(),
            },
            reason: UNPARSEABLE_URL_REASON.to_owned(),
        };
    };
    if !gradlew_present || !wrapper_jar_present {
        let mut reason = "gradle wrapper is incomplete (gradlew present: ".to_owned();
        reason.append(bool_str(gradlew_present));
        reason.append(", wrapper jar present: ");
        reason.append(bool_str(wrapper_jar_present));
        reason.append(")");
        return ToolStatus::FoundButIncompatible {
            path: project_root.to_owned(),
            info: GradleWrapperInfo { gradlew_present, wrapper_jar_present, distribution_version },
            reason,
        };
    }
    ToolStatus::Found {
        path: project_root.to_owned(),
        info: GradleWrapperInfo {
            gradlew_present: true,
            wrapper_jar_present: true,
            distribution_version,
        },
        verified: true,
    }
}

/// The wrapper directory of a project.
pub open spec fn wrapper_dir_path(root: Seq<char>) -> Seq<char> {
    join(join(root, "gradle"@), "wrapper"@)
}

/// What the probe answered about a project's wrapper files: whether
/// `gradlew` and `gradle/wrapper/gradle-wrapper.jar` exist, and what
/// `gradle/wrapper/gradle-wrapper.properties` reads.
pub open spec fn wrapper_answers<P: EnvProbe>(
    probe: &P,
    root: Seq<char>,
    gradlew: bool,
    jar: bool,
    properties: Option<Seq<char>>,
) -> bool {
    &&& answered_exists(probe, join(root, "gradlew"@), gradlew)
    &&& answered_exists(probe, join(wrapper_dir_path(root), "gradle-wrapper.jar"@), jar)
    &&& answered_read(probe, join(wrapper_dir_path(root), "gradle-wrapper.properties"@), properties)
}

/// Detects the Gradle wrapper of the project at `project_root` from
/// exactly three answers of the probe.
pub fn detect_gradle_wrapper<P: EnvProbe>(probe: &P, project_root: &str) -> (r: ToolStatus<
    GradleWrapperInfo,
>)
    ensures
        exists|gradlew: bool, jar: bool, properties: Option<Seq<char>>|
            #[trigger] wrapper_answers(probe, project_root@, gradlew, jar, properties)
                && wrapper_status_matches(r, project_root@, gradlew, jar, properties),
{
    let gradlew_path = join_path(project_root, "gradlew");
    let gradle_dir = join_path(project_root, "gradle");
    let wrapper_dir = join_path(gradle_dir.as_str(), "wrapper");
    let jar_path = join_path(wrapper_dir.as_str(), "gradle-wrapper.jar");
    let props_path = join_path(wrapper_dir.as_str(), "gradle-wrapper.properties");
    let gp = gradlew_path.as_str();
    let jp = jar_path.as_str();
    let pp = props_path.as_str();
    let gradlew_present = probe.path_exists(gp);
    assert(call_ensures(P::path_exists, (probe, gp), gradlew_present));
    let wrapper_jar_present = probe.path_exists(jp);
    assert(call_ensures(P::path_exists, (probe, jp), wrapper_jar_present));
    let properties = probe.read_to_string(pp);
    assert(call_ensures(P::read_to_string, (probe, pp), properties));
    let ghost p = properties.deep_view();
    assert(wrapper_answers(probe, project_root@, gradlew_present, wrapper_jar_present, p));
    let r = gradle_wrapper_status(project_root, gradlew_present, wrapper_jar_present, properties);
    assert(wrapper_status_matches(r, project_root@, gradlew_present, wrapper_jar_present, p));
    r
}

} // verus!
