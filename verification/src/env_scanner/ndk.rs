//! NDK detection: never identified by folder name, always confirmed by
//! reading a real `source.properties`.

use crate::env_scanner::host::{answered_env, answered_exists, answered_list, answered_read, EnvProbe};
use crate::env_scanner::sdk::candidate_paths;
use crate::text::{
    chars_eq, copy_range, first_where, from_chars, has_prefix, join, join_path,
    lemma_first_where, lines, lines_of, starts_with, to_chars, trim, trim_chars, views,
};
use crate::types::{HostKind, NdkInfo, ToolStatus};
use vstd::prelude::*;

verus! {

/// Lines that declare the package an Android NDK.
pub open spec fn is_ndk_desc() -> spec_fn(Seq<char>) -> bool {
    |l: Seq<char>| trim(l) == "Pkg.Desc = Android NDK"@
}

/// Lines that declare the package revision.
pub open spec fn is_revision() -> spec_fn(Seq<char>) -> bool {
    |l: Seq<char>| starts_with(trim(l), "Pkg.Revision = "@)
}

/// The NDK version in a `source.properties` text: only when some line is
/// exactly `Pkg.Desc = Android NDK` (surrounding spaces aside), the rest of
/// the first `Pkg.Revision = ` line.
pub open spec fn spec_parse_ndk_properties(content: Seq<char>) -> Option<Seq<char>> {
    let ls = lines(content);
    if first_where(ls, is_ndk_desc()) is None {
        None
    } else {
        match first_where(ls, is_revision()) {
            Some(l) => Some(trim(l).skip("Pkg.Revision = "@.len() as int)),
            None => None,
        }
    }
}

pub const INVALID_EXPLICIT_NDK_REASON: &'static str =
    "ANDROID_NDK_HOME/ANDROID_NDK_ROOT is set but no valid source.properties was found there";

/// What is reported for an NDK directory named by `ANDROID_NDK_HOME` or
/// `ANDROID_NDK_ROOT`, given its `source.properties` text.
pub open spec fn explicit_ndk_matches(
    r: ToolStatus<NdkInfo>,
    dir: Seq<char>,
    content: Option<Seq<char>>,
) -> bool {
    match (match content {
        Some(c) => spec_parse_ndk_properties(c),
        None => None,
    }) {
        Some(v) => r matches ToolStatus::Found { path, info, verified } && path@ == dir
            && info.version@ == v && verified,
        None => r matches ToolStatus::FoundButIncompatible { path, info, reason } && path@ == dir
            && info.version@ == "unknown"@ && reason@ == INVALID_EXPLICIT_NDK_REASON@,
    }
}

/// What is reported for the NDK versions found under the SDK roots: none,
/// exactly one, or several.
pub open spec fn found_ndk_matches(r: ToolStatus<NdkInfo>, found: Seq<(Seq<char>, Seq<char>)>) -> bool {
    if found.len() == 0 {
        r is NotFound
    } else if found.len() == 1 {
        r matches ToolStatus::Found { path, info, verified } && path@ == found[0].0
            && info.version@ == found[0].1 && verified
    } else {
        r matches ToolStatus::AmbiguousMultiple { candidates } && candidates.deep_view()
            == found.map_values(|e: (Seq<char>, Seq<char>)| e.0)
    }
}

/// Reads the NDK version from a `source.properties` text.
pub fn parse_ndk_source_properties(content: &str) -> (r: Option<String>)
    ensures
        r.deep_view() == spec_parse_ndk_properties(content@),
{
    let chars = to_chars(content);
    let ls = lines_of(chars.as_slice());
    let desc = to_chars("Pkg.Desc = Android NDK");
    let prefix = to_chars("Pkg.Revision = ");
    let mut i: usize = 0;
    let mut is_ndk = false;
    while i < ls.len() && !is_ndk
        invariant
            i <= ls@.len(),
            desc@ == "Pkg.Desc = Android NDK"@,
            views(ls@) == lines(content@),
            forall|k: int| 0 <= k < i ==> !is_ndk_desc()(views(ls@)[k]),
            is_ndk ==> i < ls@.len() && is_ndk_desc()(views(ls@)[i as int]),
        decreases ls.len() - i + (if is_ndk {
            0int
        } else {
            1int
        }),
    {
        let t = trim_chars(ls[i].as_slice());
        assert(views(ls@)[i as int] == ls@[i as int]@);
        if chars_eq(t.as_slice(), desc.as_slice()) {
            is_ndk = true;
        } else {
            i = i + 1;
        }
    }
    proof {
        lemma_first_where(views(ls@), is_ndk_desc(), i as int);
    }
    if !is_ndk {
        return None;
    }
    let mut j: usize = 0;
    while j < ls.len()
        invariant
            j <= ls@.len(),
            prefix@ == "Pkg.Revision = "@,
            views(ls@) == lines(content@),
            first_where(views(ls@), is_ndk_desc()) is Some,
            forall|k: int| 0 <= k < j ==> !is_revision()(views(ls@)[k]),
        decreases ls.len() - j,
    {
        let t = trim_chars(ls[j].as_slice());
        assert(views(ls@)[j as int] == ls@[j as int]@);
        if has_prefix(t.as_slice(), prefix.as_slice()) {
            proof {
                lemma_first_where(views(ls@), is_revision(), j as int);
            }
            let rest = copy_range(t.as_slice(), prefix.len(), t.len());
            assert(rest@ =~= t@.skip("Pkg.Revision = "@.len() as int));
            return Some(from_chars(rest.as_slice()));
        }
        j = j + 1;
    }
    proof {
        lemma_first_where(views(ls@), is_revision(), j as int);
    }
    None
}

/// The status for an explicitly named NDK directory.
pub fn ndk_status_explicit(dir: String, content: Option<String>) -> (r: ToolStatus<NdkInfo>)
    ensures
        explicit_ndk_matches(r, dir@, content.deep_view()),
{
    let version = match &content {
        Some(c) => parse_ndk_source_properties(c.as_str()),
        None => None,
    };
    match version {
        Some(version) => ToolStatus::Found { path: dir, info: NdkInfo { version }, verified: true },
        None => ToolStatus::FoundButIncompatible {
            path: dir,
            info: NdkInfo { version: "unknown".to_owned() },
            reason: INVALID_EXPLICIT_NDK_REASON.to_owned(),
        },
    }
}

/// The status for the (path, version) pairs found under the SDK roots.
pub fn ndk_status_from_found(found: Vec<(String, String)>) -> (r: ToolStatus<NdkInfo>)
    ensures
        found_ndk_matches(r, found.deep_view()),
{
    let n = found.len();
    if n == 0 {
        return ToolStatus::NotFound;
    }
    if n == 1 {
        let mut found = found;
        let (path, version) = found.pop().unwrap();
        return ToolStatus::Found { path, info: NdkInfo { version }, verified: true };
    }
    let ghost fv = found.deep_view();
    let mut candidates: Vec<String> = Vec::new();
    let mut i: usize = 0;
    while i < found.len()
        invariant
            i <= found@.len(),
            fv == found.deep_view(),
            candidates.deep_view() == fv.take(i as int).map_values(
                |e: (Seq<char>, Seq<char>)| e.0,
            ),
        decreases found.len() - i,
    {
        let ghost before = candidates.deep_view();
        assert(fv[i as int].0 == found@[i as int].0@);
        candidates.push(found[i].0.clone());
        assert(candidates.deep_view() =~= before.push(fv[i as int].0));
        assert(fv.take(i + 1).map_values(|e: (Seq<char>, Seq<char>)| e.0) =~= fv.take(
            i as int,
        ).map_values(|e: (Seq<char>, Seq<char>)| e.0).push(fv[i as int].0));
        i = i + 1;
    }
    assert(fv.take(i as int) =~= fv);
    ToolStatus::AmbiguousMultiple { candidates }
}

/// A (path, version) pair found under `ndk_root`: the path is a subfolder
/// of it and the version was read from a valid `source.properties`.
pub open spec fn is_ndk_entry(ndk_root: Seq<char>, e: (String, String)) -> bool {
    exists|name: Seq<char>, content: Seq<char>|
        e.0@ == join(ndk_root, name) && spec_parse_ndk_properties(content) == Some(e.1@)
}

/// The NDKs among the subfolders `names` of `ndk_root`, given what reading
/// each one's `source.properties` gave: every subfolder whose file
/// declares an Android NDK, in order, with its version.
pub open spec fn spec_ndk_entries(
    ndk_root: Seq<char>,
    names: Seq<Seq<char>>,
    contents: Seq<Option<Seq<char>>>,
) -> Seq<(Seq<char>, Seq<char>)>
    decreases names.len(),
{
    if names.len() == 0 || contents.len() == 0 {
        Seq::empty()
    } else {
        let prev = spec_ndk_entries(ndk_root, names.drop_last(), contents.drop_last());
        match contents.last() {
            Some(c) => match spec_parse_ndk_properties(c) {
                Some(v) => prev.push((join(ndk_root, names.last()), v)),
                None => prev,
            },
            None => prev,
        }
    }
}

/// The `source.properties` of a subfolder of an NDK folder.
pub open spec fn ndk_properties_path(ndk_root: Seq<char>, name: Seq<char>) -> Seq<char> {
    join(join(ndk_root, name), "source.properties"@)
}

/// Every valid NDK under one `ndk/` folder: each subfolder whose
/// `source.properties` declares an Android NDK, with its version.
pub fn find_ndk_versions<P: EnvProbe>(probe: &P, ndk_root: &str) -> (r: Vec<(String, String)>)
    ensures
        forall|i: int| 0 <= i < r@.len() ==> #[trigger] is_ndk_entry(ndk_root@, r@[i]),
        exists|names: Seq<Seq<char>>, contents: Seq<Option<Seq<char>>>|
            answered_list(probe, ndk_root@, names) && contents.len() == names.len() && (forall|
                k: int,
            |
                0 <= k < names.len() ==> #[trigger] answered_read(
                    probe,
                    ndk_properties_path(ndk_root@, names[k]),
                    contents[k],
                )) && r.deep_view() == #[trigger] spec_ndk_entries(ndk_root@, names, contents),
{
    let names = probe.list_dir(ndk_root);
    let ghost nv = names.deep_view();
    assert(call_ensures(P::list_dir, (probe, ndk_root), names));
    assert(answered_list(probe, ndk_root@, nv));
    let ghost mut cs: Seq<Option<Seq<char>>> = Seq::empty();
    let mut out: Vec<(String, String)> = Vec::new();
    let mut i: usize = 0;
    while i < names.len()
        invariant
            i <= names@.len(),
            nv == names.deep_view(),
            cs.len() == i,
            forall|k: int|
                0 <= k < i ==> #[trigger] answered_read(probe, ndk_properties_path(ndk_root@, nv[k]), cs[k]),
            out.deep_view() == spec_ndk_entries(ndk_root@, nv.take(i as int), cs),
            forall|k: int| 0 <= k < out@.len() ==> #[trigger] is_ndk_entry(ndk_root@, out@[k]),
        decreases names.len() - i,
    {
        let dir = join_path(ndk_root, names[i].as_str());
        let props_path = join_path(dir.as_str(), "source.properties");
        let pp = props_path.as_str();
        let read = probe.read_to_string(pp);
        let ghost rd = read.deep_view();
        assert(nv[i as int] == names@[i as int]@);
        assert(call_ensures(P::read_to_string, (probe, pp), read));
        assert(answered_read(probe, ndk_properties_path(ndk_root@, nv[i as int]), rd));
        let ghost old_cs = cs;
        let ghost old_out = out.deep_view();
        proof {
            cs = cs.push(rd);
            assert(nv.take(i + 1).drop_last() =~= nv.take(i as int));
            assert(cs.drop_last() =~= old_cs);
            assert(nv.take(i + 1).last() == nv[i as int]);
        }
        if let Some(content) = read {
            if let Some(version) = parse_ndk_source_properties(content.as_str()) {
                let ghost (n, c) = (names@[i as int]@, content@);
                let ghost old_o = out@;
                out.push((dir, version));
                assert forall|k: int| 0 <= k < out@.len() implies #[trigger] is_ndk_entry(
                    ndk_root@,
                    out@[k],
                ) by {
                    if k == old_o.len() {
                        assert(out@[k].0@ == join(ndk_root@, n));
                        assert(spec_parse_ndk_properties(c) == Some(out@[k].1@));
                    } else {
                        assert(out@[k] == old_o[k]);
                    }
                }
                assert(out.deep_view() =~= old_out.push(out@[old_o.len() as int].deep_view()));
            }
        }
        assert(out.deep_view() == spec_ndk_entries(ndk_root@, nv.take(i + 1), cs));
        i = i + 1;
    }
    assert(nv.take(i as int) =~= nv);
    out
}

/// What reading `ANDROID_NDK_HOME`, and `ANDROID_NDK_ROOT` when the first
/// is unset, answered.
pub open spec fn ndk_env_reads<P: EnvProbe>(
    probe: &P,
    ndk_home: Option<Seq<char>>,
    ndk_root: Option<Seq<char>>,
) -> bool {
    &&& answered_env(probe, "ANDROID_NDK_HOME"@, ndk_home)
    &&& ndk_home is None ==> answered_env(probe, "ANDROID_NDK_ROOT"@, ndk_root)
}

/// The explicitly configured NDK folder, as the probe answered it.
pub open spec fn explicit_ndk_answer<P: EnvProbe>(probe: &P, explicit: Option<Seq<char>>) -> bool {
    exists|ndk_home: Option<Seq<char>>, ndk_root: Option<Seq<char>>|
        #[trigger] ndk_env_reads(probe, ndk_home, ndk_root) && explicit == (if ndk_home is Some {
            ndk_home
        } else {
            ndk_root
        })
}

/// What searching one `ndk/` folder gave: nothing when it does not exist,
/// otherwise the entries `find_ndk_versions` returned for it.
pub open spec fn ndk_folder_answer<P: EnvProbe>(
    probe: &P,
    ndk_folder: Seq<char>,
    entries: Seq<(Seq<char>, Seq<char>)>,
) -> bool {
    ||| answered_exists(probe, ndk_folder, false) && entries.len() == 0
    ||| answered_exists(probe, ndk_folder, true) && exists|p: &str, v: Vec<(String, String)>|
        p@ == ndk_folder && v.deep_view() == entries && #[trigger] call_ensures(
            find_ndk_versions::<P>,
            (probe, p),
            v,
        )
}

/// The entries of every folder's search, one folder after another.
pub open spec fn concat_entries(s: Seq<Seq<(Seq<char>, Seq<char>)>>) -> Seq<(Seq<char>, Seq<char>)>
    decreases s.len(),
{
    if s.len() == 0 {
        Seq::empty()
    } else {
        concat_entries(s.drop_last()) + s.last()
    }
}

/// The search under the SDK roots: the roots the SDK search got, and for
/// each, in order, what searching its `ndk/` folder gave.
pub open spec fn ndk_root_search<P: EnvProbe>(
    probe: &P,
    host_kind: &HostKind,
    roots: Vec<String>,
    per_root: Seq<Seq<(Seq<char>, Seq<char>)>>,
) -> bool {
    &&& call_ensures(candidate_paths::<P>, (probe, host_kind), roots)
    &&& per_root.len() == roots@.len()
    &&& forall|k: int|
        0 <= k < per_root.len() ==> #[trigger] ndk_folder_answer(
            probe,
            join(roots@[k]@, "ndk"@),
            per_root[k],
        )
}

/// The status of an explicit NDK folder, from what reading its
/// `source.properties` answered.
pub open spec fn explicit_ndk_outcome<P: EnvProbe>(probe: &P, dir: Seq<char>, r: ToolStatus<NdkInfo>) -> bool {
    exists|content: Option<Seq<char>>|
        #[trigger] answered_read(probe, join(dir, "source.properties"@), content)
            && explicit_ndk_matches(r, dir, content)
}

/// The status from searching the `ndk/` folders under the SDK roots.
pub open spec fn searched_ndk_outcome<P: EnvProbe>(
    probe: &P,
    host_kind: &HostKind,
    r: ToolStatus<NdkInfo>,
) -> bool {
    exists|roots: Vec<String>, per_root: Seq<Seq<(Seq<char>, Seq<char>)>>|
        #[trigger] ndk_root_search(probe, host_kind, roots, per_root) && found_ndk_matches(
            r,
            concat_entries(per_root),
        )
}

/// Detects the NDK: an explicit `ANDROID_NDK_HOME` (else
/// `ANDROID_NDK_ROOT`) decides alone, from its `source.properties`;
/// otherwise every `ndk/` folder under the candidate SDK roots is searched,
/// and one version is found, several are ambiguous, none is not found.
pub fn detect_ndk<P: EnvProbe>(probe: &P, host_kind: &HostKind) -> (r: ToolStatus<NdkInfo>)
    ensures
        exists|explicit: Option<Seq<char>>|
            #[trigger] explicit_ndk_answer(probe, explicit) && match explicit {
                Some(dir) => explicit_ndk_outcome(probe, dir, r),
                None => searched_ndk_outcome(probe, host_kind, r),
            },
{
    let ndk_home = probe.read_env("ANDROID_NDK_HOME");
    assert(answered_env(probe, "ANDROID_NDK_HOME"@, ndk_home.deep_view()));
    let explicit = match ndk_home {
        Some(v) => {
            assert(ndk_env_reads(probe, Some(v@), None));
            Some(v)
        },
        None => {
            let ndk_root = probe.read_env("ANDROID_NDK_ROOT");
            assert(answered_env(probe, "ANDROID_NDK_ROOT"@, ndk_root.deep_view()));
            assert(ndk_env_reads(probe, None, ndk_root.deep_view()));
            ndk_root
        },
    };
    let ghost ev = explicit.deep_view();
    assert(explicit_ndk_answer(probe, ev));
    if let Some(dir) = explicit {
        let props_path = join_path(dir.as_str(), "source.properties");
        let pp = props_path.as_str();
        let content = probe.read_to_string(pp);
        let ghost (d, c) = (dir@, content.deep_view());
        assert(call_ensures(P::read_to_string, (probe, pp), content));
        assert(answered_read(probe, join(d, "source.properties"@), c));
        let r = ndk_status_explicit(dir, content);
        assert(explicit_ndk_matches(r, d, c));
        assert(ev == Some(d));
        assert(explicit_ndk_answer(probe, Some(d)));
        assert(explicit_ndk_outcome(probe, d, r));
        return r;
    }
    let roots = candidate_paths(probe, host_kind);
    let ghost rv = roots;
    assert(call_ensures(candidate_paths::<P>, (probe, host_kind), rv));
    let ghost mut per_root: Seq<Seq<(Seq<char>, Seq<char>)>> = Seq::empty();
    let mut found: Vec<(String, String)> = Vec::new();
    let mut i: usize = 0;
    while i < roots.len()
        invariant
            i <= roots@.len(),
            rv == roots,
            call_ensures(candidate_paths::<P>, (probe, host_kind), rv),
            per_root.len() == i,
            forall|k: int|
                0 <= k < i ==> #[trigger] ndk_folder_answer(
                    probe,
                    join(rv@[k]@, "ndk"@),
                    per_root[k],
                ),
            found.deep_view() == concat_entries(per_root),
        decreases roots.len() - i,
    {
        let ndk_root = join_path(roots[i].as_str(), "ndk");
        let nr = ndk_root.as_str();
        let exists = probe.path_exists(nr);
        assert(call_ensures(P::path_exists, (probe, nr), exists));
        let ghost old_found = found.deep_view();
        let ghost old_per_root = per_root;
        if exists {
            let mut more = find_ndk_versions(probe, nr);
            let ghost mv = more.deep_view();
            assert(call_ensures(find_ndk_versions::<P>, (probe, nr), more));
            assert(ndk_folder_answer(probe, join(rv@[i as int]@, "ndk"@), mv));
            found.append(&mut more);
            proof {
                per_root = per_root.push(mv);
                assert(per_root.drop_last() =~= old_per_root);
            }
            assert(found.deep_view() =~= old_found + mv);
        } else {
            let ghost none: Seq<(Seq<char>, Seq<char>)> = Seq::empty();
            assert(ndk_folder_answer(probe, join(rv@[i as int]@, "ndk"@), none));
            proof {
                per_root = per_root.push(none);
                assert(per_root.drop_last() =~= old_per_root);
            }
            assert(found.deep_view() =~= old_found + none);
        }
        assert forall|k: int| 0 <= k < i + 1 implies #[trigger] ndk_folder_answer(
            probe,
            join(rv@[k]@, "ndk"@),
            per_root[k],
        ) by {
            if k < i {
                assert(per_root[k] == old_per_root[k]);
            }
        }
        i = i + 1;
    }
    let ghost fv = found.deep_view();
    assert(ndk_root_search(probe, host_kind, rv, per_root));
    let r = ndk_status_from_found(found);
    assert(found_ndk_matches(r, fv));
    assert(searched_ndk_outcome(probe, host_kind, r));
    assert(ev is None);
    r
}

} // verus!
