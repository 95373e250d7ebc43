//! AAPT2 detection: the ELF header of each candidate binary is read to match
//! its architecture against the host's, and only a matching binary is run
//! for its version.

use crate::env_scanner::command::{ran, CommandOutput, CommandRunner};
use crate::env_scanner::host::{spec_host_arch, answered_bytes, answered_env, answered_exists, answered_list, EnvProbe};
use crate::env_scanner::sdk::candidate_paths;
use crate::text::{from_chars, join, join_path, split_char, split_on, to_chars, trim, trim_chars, views};
use crate::types::{Aapt2Info, HostArch, HostKind, ToolStatus};
use vstd::prelude::*;
use vstd::string::StringExecFns;

verus! {

pub const EM_386: u16 = 3;

pub const EM_ARM: u16 = 40;

pub const EM_X86_64: u16 = 62;

pub const EM_AARCH64: u16 = 183;

/// The ELF machine value a native binary of the host carries.
pub open spec fn spec_expected_machine(arch: HostArch) -> Option<u16> {
    match arch {
        HostArch::Aarch64 => Some(EM_AARCH64),
        HostArch::X86_64 => Some(EM_X86_64),
        HostArch::Unknown => None,
    }
}

/// The readable name of an ELF machine value.
pub open spec fn spec_machine_name(machine: u16) -> Seq<char> {
    if machine == EM_386 {
        "x86 (32-bit)"@
    } else if machine == EM_ARM {
        "ARM (32-bit)"@
    } else if machine == EM_X86_64 {
        "x86_64"@
    } else if machine == EM_AARCH64 {
        "aarch64"@
    } else {
        "an unrecognized architecture"@
    }
}

/// The `e_machine` field of an ELF header: bytes 18 and 19, little-endian,
/// when at least 20 bytes starting with `\x7fELF` were read.
pub open spec fn spec_elf_machine(bytes: Option<Seq<u8>>) -> Option<u16> {
    match bytes {
        Some(b) => if b.len() >= 20 && b[0] == 0x7f && b[1] == 0x45 && b[2] == 0x4c && b[3]
            == 0x46 {
            Some((b[18] as int + 256 * b[19] as int) as u16)
        } else {
            None
        },
        None => None,
    }
}

/// The name of the host architecture in messages.
pub open spec fn expected_name(expected: Option<u16>) -> Seq<char> {
    match expected {
        Some(m) => spec_machine_name(m),
        None => "an unknown architecture"@,
    }
}

/// The reason reported when only binaries of another architecture exist.
pub open spec fn spec_mismatch_reason(machine: u16, expected: Option<u16>) -> Seq<char> {
    "found an aapt2 binary built for "@ + spec_machine_name(machine) + ", but this host is "@
        + expected_name(expected)
        + " -- override it via `android.aapt2FromMavenOverride` in gradle.properties, pointing at a native "@
        + expected_name(expected) + " aapt2"@
}

/// The version text of `aapt2 version`: standard output (or standard error
/// when the output is empty), trimmed; `unknown` when it could not run.
pub open spec fn spec_version_text(out: Option<CommandOutput>) -> Seq<char> {
    match out {
        Some(o) => trim(
            if o.stdout@.len() == 0 {
                o.stderr@
            } else {
                o.stdout@
            },
        ),
        None => "unknown"@,
    }
}

/// A path that names an `aapt2` inside some directory.
pub open spec fn is_aapt2_candidate(p: Seq<char>) -> bool {
    exists|dir: Seq<char>| p == join(dir, "aapt2"@)
}

/// The `aapt2` candidates in the version folders of a `build-tools` folder.
pub open spec fn spec_build_tools_candidates(
    build_tools_dir: Seq<char>,
    versions: Seq<Seq<char>>,
) -> Seq<Seq<char>> {
    Seq::new(versions.len(), |i: int| join(join(build_tools_dir, versions[i]), "aapt2"@))
}

/// The `aapt2` candidates in each directory of a `PATH` value.
pub open spec fn spec_path_candidates(path_var: Seq<char>) -> Seq<Seq<char>> {
    split_char(path_var, ':').map_values(|d: Seq<char>| join(d, "aapt2"@))
}

/// The `aapt2` candidates under the `build-tools` folder of each SDK root,
/// given the version folders listed in each, root by root.
pub open spec fn spec_sdk_aapt2_candidates(roots: Seq<Seq<char>>, versions: Seq<Seq<Seq<char>>>) -> Seq<
    Seq<char>,
>
    decreases roots.len(),
{
    if roots.len() == 0 || versions.len() == 0 {
        Seq::empty()
    } else {
        spec_sdk_aapt2_candidates(roots.drop_last(), versions.drop_last())
            + spec_build_tools_candidates(join(roots.last(), "build-tools"@), versions.last())
    }
}

/// All `aapt2` candidates: the SDK roots' `build-tools` first, the most
/// official source, then every directory on `PATH`.
pub open spec fn spec_aapt2_candidates(
    roots: Seq<Seq<char>>,
    versions: Seq<Seq<Seq<char>>>,
    path_var: Option<Seq<char>>,
) -> Seq<Seq<char>> {
    spec_sdk_aapt2_candidates(roots, versions) + match path_var {
        Some(p) => spec_path_candidates(p),
        None => Seq::empty(),
    }
}

pub fn expected_machine(arch: &HostArch) -> (r: Option<u16>)
    ensures
        r == spec_expected_machine(*arch),
{
    match arch {
        HostArch::Aarch64 => Some(EM_AARCH64),
        HostArch::X86_64 => Some(EM_X86_64),
        HostArch::Unknown => None,
    }
}

pub fn machine_name(machine: u16) -> (r: &'static str)
    ensures
        r@ == spec_machine_name(machine),
{
    if machine == EM_386 {
        "x86 (32-bit)"
    } else if machine == EM_ARM {
        "ARM (32-bit)"
    } else if machine == EM_X86_64 {
        "x86_64"
    } else if machine == EM_AARCH64 {
        "aarch64"
    } else {
        "an unrecognized architecture"
    }
}

/// The ELF machine of the bytes read from a file, if they are an ELF header.
pub fn elf_machine_from(bytes: Option<Vec<u8>>) -> (r: Option<u16>)
    ensures
        r == spec_elf_machine(bytes.deep_view()),
{
    match bytes {
        Some(b) => {
            if b.len() < 20 || b[0] != 0x7f || b[1] != 0x45 || b[2] != 0x4c || b[3] != 0x46 {
                None
            } else {
                Some(b[18] as u16 + 256 * (b[19] as u16))
            }
        },
        None => None,
    }
}

/// Reads the ELF machine of a file; `None` when it is not an ELF binary.
pub fn read_elf_machine<P: EnvProbe>(probe: &P, path: &str) -> (r: Option<u16>)
    ensures
        exists|bytes: Option<Seq<u8>>|
            #[trigger] answered_bytes(probe, path@, 20, bytes) && r == spec_elf_machine(bytes),
{
    let bytes = probe.read_bytes(path, 20);
    let ghost b = bytes.deep_view();
    assert(call_ensures(P::read_bytes, (probe, path, 20usize), bytes));
    assert(answered_bytes(probe, path@, 20, b));
    let r = elf_machine_from(bytes);
    assert(r == spec_elf_machine(b));
    r
}

/// The `aapt2` path in every version folder of a `build-tools` folder.
pub fn build_tools_candidates(build_tools_dir: &str, versions: &Vec<String>) -> (r: Vec<String>)
    ensures
        r.deep_view() == spec_build_tools_candidates(build_tools_dir@, versions.deep_view()),
{
    let mut out: Vec<String> = Vec::new();
    let mut i: usize = 0;
    while i < versions.len()
        invariant
            i <= versions@.len(),
            out.deep_view() == spec_build_tools_candidates(
                build_tools_dir@,
                versions.deep_view(),
            ).take(i as int),
        decreases versions.len() - i,
    {
        let dir = join_path(build_tools_dir, versions[i].as_str());
        let candidate = join_path(dir.as_str(), "aapt2");
        let ghost before = out.deep_view();
        assert(versions.deep_view()[i as int] == versions@[i as int]@);
        out.push(candidate);
        assert(out.deep_view() =~= before.push(candidate@));
        assert(out.deep_view() =~= spec_build_tools_candidates(
            build_tools_dir@,
            versions.deep_view(),
        ).take(i + 1));
        i = i + 1;
    }
    assert(out.deep_view() =~= spec_build_tools_candidates(
        build_tools_dir@,
        versions.deep_view(),
    ));
    out
}

/// The `aapt2` path in every directory of a `PATH` value.
pub fn path_candidates(path_var: &str) -> (r: Vec<String>)
    ensures
        r.deep_view() == spec_path_candidates(path_var@),
{
    let chars = to_chars(path_var);
    let dirs = split_on(chars.as_slice(), ':');
    let mut out: Vec<String> = Vec::new();
    let mut i: usize = 0;
    while i < dirs.len()
        invariant
            i <= dirs@.len(),
            views(dirs@) == split_char(path_var@, ':'),
            out.deep_view() == spec_path_candidates(path_var@).take(i as int),
        decreases dirs.len() - i,
    {
        let dir = from_chars(dirs[i].as_slice());
        assert(views(dirs@)[i as int] == dirs@[i as int]@);
        let ghost before = out.deep_view();
        let candidate = join_path(dir.as_str(), "aapt2");
        out.push(candidate);
        assert(out.deep_view() =~= before.push(candidate@));
        assert(out.deep_view() =~= spec_path_candidates(path_var@).take(i + 1));
        i = i + 1;
    }
    assert(out.deep_view() =~= spec_path_candidates(path_var@));
    out
}

/// What the aapt2 candidates come from: the SDK roots the SDK search got,
/// the version folders the probe listed under each root's `build-tools`,
/// and what it answered for `PATH`.
pub open spec fn aapt2_candidate_answers<P: EnvProbe>(
    probe: &P,
    host_kind: &HostKind,
    roots: Vec<String>,
    versions: Seq<Seq<Seq<char>>>,
    path_var: Option<Seq<char>>,
) -> bool {
    &&& call_ensures(candidate_paths::<P>, (probe, host_kind), roots)
    &&& versions.len() == roots@.len()
    &&& forall|k: int|
        0 <= k < versions.len() ==> #[trigger] answered_list(
            probe,
            join(roots@[k]@, "build-tools"@),
            versions[k],
        )
    &&& answered_env(probe, "PATH"@, path_var)
}

/// Candidate aapt2 paths: the `build-tools` of every candidate SDK root
/// first (the most official source), then every directory on `PATH`.
pub fn candidate_aapt2_paths<P: EnvProbe>(probe: &P, host_kind: &HostKind) -> (r: Vec<String>)
    ensures
        forall|i: int| 0 <= i < r@.len() ==> #[trigger] is_aapt2_candidate(r@[i]@),
        exists|roots: Vec<String>, versions: Seq<Seq<Seq<char>>>, path_var: Option<Seq<char>>|
            #[trigger] aapt2_candidate_answers(probe, host_kind, roots, versions, path_var)
                && r.deep_view() == spec_aapt2_candidates(roots.deep_view(), versions, path_var),
{
    let roots = candidate_paths(probe, host_kind);
    let ghost rs = roots.deep_view();
    let ghost rv = roots;
    assert(call_ensures(candidate_paths::<P>, (probe, host_kind), rv));
    let ghost mut vs: Seq<Seq<Seq<char>>> = Seq::empty();
    let mut candidates: Vec<String> = Vec::new();
    let mut i: usize = 0;
    while i < roots.len()
        invariant
            i <= roots@.len(),
            rs == roots.deep_view(),
            rv == roots,
            vs.len() == i,
            forall|k: int|
                0 <= k < i ==> #[trigger] answered_list(
                    probe,
                    join(rv@[k]@, "build-tools"@),
                    vs[k],
                ),
            candidates.deep_view() == spec_sdk_aapt2_candidates(rs.take(i as int), vs),
            forall|k: int| 0 <= k < candidates@.len() ==> #[trigger] is_aapt2_candidate(
                candidates@[k]@,
            ),
        decreases roots.len() - i,
    {
        let build_tools_dir = join_path(roots[i].as_str(), "build-tools");
        let bd = build_tools_dir.as_str();
        let versions = probe.list_dir(bd);
        assert(call_ensures(P::list_dir, (probe, bd), versions));
        assert(answered_list(probe, join(rv@[i as int]@, "build-tools"@), versions.deep_view()));
        let ghost before_all = candidates.deep_view();
        let ghost old_vs = vs;
        proof {
            vs = vs.push(versions.deep_view());
            assert forall|k: int| 0 <= k < i + 1 implies #[trigger] answered_list(
                probe,
                join(rv@[k]@, "build-tools"@),
                vs[k],
            ) by {
                if k < i {
                    assert(vs[k] == old_vs[k]);
                }
            }
            assert(rs.take(i + 1).drop_last() =~= rs.take(i as int));
            assert(vs.drop_last() =~= old_vs);
            assert(rs.take(i + 1).last() == roots@[i as int]@);
        }
        let mut more = build_tools_candidates(build_tools_dir.as_str(), &versions);
        let ghost more_view = more.deep_view();
        let ghost m = more@;
        assert forall|k: int| 0 <= k < m.len() implies #[trigger] is_aapt2_candidate(m[k]@) by {
            let spec = spec_build_tools_candidates(build_tools_dir@, versions.deep_view());
            assert(more.deep_view().len() == m.len());
            assert(spec.len() == versions.deep_view().len());
            assert(k < spec.len());
            assert(more.deep_view()[k] == m[k]@);
            assert(spec[k] == join(join(build_tools_dir@, versions.deep_view()[k]), "aapt2"@));
            assert(m[k]@ == join(join(build_tools_dir@, versions.deep_view()[k]), "aapt2"@));
        }
        let ghost before = candidates@;
        candidates.append(&mut more);
        assert forall|k: int| 0 <= k < candidates@.len() implies #[trigger] is_aapt2_candidate(
            candidates@[k]@,
        ) by {
            if k >= before.len() {
                assert(candidates@[k] == m[k - before.len()]);
            } else {
                assert(candidates@[k] == before[k]);
            }
        }
        assert(candidates.deep_view() =~= before_all + more_view);
        i = i + 1;
    }
    assert(rs.take(i as int) =~= rs);
    let ghost sdk_part = candidates.deep_view();
    let path = probe.read_env("PATH");
    let ghost pv = path.deep_view();
    assert(answered_env(probe, "PATH"@, pv));
    assert(aapt2_candidate_answers(probe, host_kind, rv, vs, pv));
    if let Some(path_var) = path {
        let mut more = path_candidates(path_var.as_str());
        let ghost m = more@;
        assert forall|k: int| 0 <= k < m.len() implies #[trigger] is_aapt2_candidate(m[k]@) by {
            assert(more.deep_view().len() == m.len());
            assert(k < split_char(path_var@, ':').len());
            assert(more.deep_view()[k] == m[k]@);
            let d = split_char(path_var@, ':')[k];
            assert(spec_path_candidates(path_var@)[k] == join(d, "aapt2"@));
            assert(m[k]@ == join(d, "aapt2"@));
        }
        let ghost before = candidates@;
        let ghost more_view = more.deep_view();
        candidates.append(&mut more);
        assert forall|k: int| 0 <= k < candidates@.len() implies #[trigger] is_aapt2_candidate(
            candidates@[k]@,
        ) by {
            if k >= before.len() {
                assert(candidates@[k] == m[k - before.len()]);
            } else {
                assert(candidates@[k] == before[k]);
            }
        }
        assert(candidates.deep_view() =~= sdk_part + more_view);
        assert(candidates.deep_view() == spec_aapt2_candidates(rs, vs, pv));
    } else {
        assert(candidates.deep_view() =~= spec_aapt2_candidates(rs, vs, pv));
    }
    candidates
}

/// The reason reported when only binaries of another architecture exist.
pub fn mismatch_reason(machine: u16, expected: Option<u16>) -> (r: String)
    ensures
        r@ == spec_mismatch_reason(machine, expected),
{
    let expected_name = match expected {
        Some(m) => machine_name(m),
        None => "an unknown architecture",
    };
    let mut r = "found an aapt2 binary built for ".to_owned();
    r.append(machine_name(machine));
    r.append(", but this host is ");
    r.append(expected_name);
    r.append(
        " -- override it via `android.aapt2FromMavenOverride` in gradle.properties, pointing at a native ",
    );
    r.append(expected_name);
    r.append(" aapt2");
    r
}

/// The version text of `aapt2 version`.
pub fn version_text(out: Option<CommandOutput>) -> (r: String)
    ensures
        r@ == spec_version_text(out),
{
    match out {
        Some(o) => {
            let raw = if o.stdout.as_str().is_empty() {
                o.stderr
            } else {
                o.stdout
            };
            let chars = to_chars(raw.as_str());
            let trimmed = trim_chars(chars.as_slice());
            from_chars(trimmed.as_slice())
        },
        None => "unknown".to_owned(),
    }
}

/// `probe` gave the ELF machine `machine` for the binary at `path`.
pub open spec fn elf_answer<P: EnvProbe>(probe: &P, path: Seq<char>, machine: Option<u16>) -> bool {
    exists|p: &str| p@ == path && #[trigger] call_ensures(read_elf_machine::<P>, (probe, p), machine)
}

/// What was observed of one candidate: `None` when it did not exist,
/// otherwise the ELF machine read from it.
pub open spec fn candidate_observed<P: EnvProbe>(
    probe: &P,
    path: Seq<char>,
    o: Option<Option<u16>>,
) -> bool {
    match o {
        None => answered_exists(probe, path, false),
        Some(m) => answered_exists(probe, path, true) && elf_answer(probe, path, m),
    }
}

/// An observed candidate that is an ELF binary of the host's architecture.
pub open spec fn is_native(o: Option<Option<u16>>, expected: Option<u16>) -> bool {
    o matches Some(Some(m)) && Some(m) == expected
}

/// An observed candidate that is an ELF binary of another architecture.
pub open spec fn is_foreign(o: Option<Option<u16>>, expected: Option<u16>) -> bool {
    o matches Some(Some(m)) && Some(m) != expected
}

/// The index of the first foreign binary among the observations, -1 when
/// there is none.
pub open spec fn first_foreign(obs: Seq<Option<Option<u16>>>, expected: Option<u16>) -> int
    decreases obs.len(),
{
    if obs.len() == 0 {
        -1
    } else {
        let f = first_foreign(obs.drop_last(), expected);
        if f >= 0 {
            f
        } else if is_foreign(obs.last(), expected) {
            obs.len() - 1
        } else {
            -1
        }
    }
}

pub proof fn lemma_first_foreign(obs: Seq<Option<Option<u16>>>, expected: Option<u16>)
    ensures
        -1 <= first_foreign(obs, expected) < obs.len(),
        first_foreign(obs, expected) >= 0 ==> is_foreign(obs[first_foreign(obs, expected)], expected),
    decreases obs.len(),
{
    if obs.len() > 0 {
        lemma_first_foreign(obs.drop_last(), expected);
        let f = first_foreign(obs.drop_last(), expected);
        if f >= 0 {
            assert(obs[f] == obs.drop_last()[f]);
        }
    }
}

/// The AAPT2 search, given the candidates it got and what it observed of
/// them in order: the search stops at the first binary of the host's
/// architecture, which is run for its version and found; when it goes
/// through every candidate without one, the first binary of another
/// architecture is reported incompatible, and with none nothing is found.
pub open spec fn aapt2_search<P: EnvProbe, R: CommandRunner>(
    probe: &P,
    runner: &R,
    host_kind: &HostKind,
    host_arch: &HostArch,
    cands: Vec<String>,
    obs: Seq<Option<Option<u16>>>,
    version_out: Option<CommandOutput>,
    r: ToolStatus<Aapt2Info>,
) -> bool {
    let e = spec_expected_machine(*host_arch);
    &&& call_ensures(candidate_aapt2_paths::<P>, (probe, host_kind), cands)
    &&& obs.len() <= cands@.len()
    &&& forall|j: int| 0 <= j < obs.len() ==> #[trigger] candidate_observed(probe, cands@[j]@, obs[j])
    &&& if obs.len() > 0 && is_native(obs.last(), e) {
        &&& forall|j: int| 0 <= j < obs.len() - 1 ==> !is_native(#[trigger] obs[j], e)
        &&& ran(runner, cands@[obs.len() - 1]@, seq!["version"@], version_out)
        &&& r matches ToolStatus::Found { path, info, verified }
        &&& path@ == cands@[obs.len() - 1]@
        &&& info.version@ == spec_version_text(version_out)
        &&& !info.arch_mismatch
        &&& verified
    } else {
        &&& obs.len() == cands@.len()
        &&& forall|j: int| 0 <= j < obs.len() ==> !is_native(#[trigger] obs[j], e)
        &&& if first_foreign(obs, e) >= 0 {
            let w = first_foreign(obs, e);
            &&& r matches ToolStatus::FoundButIncompatible { path, info, reason }
            &&& path@ == cands@[w]@
            &&& info.arch_mismatch
            &&& info.version@ == "unknown"@
            &&& reason@ == spec_mismatch_reason(obs[w]->0->0, e)
        } else {
            r is NotFound
        }
    }
}

/// Detects AAPT2 for the host: the first existing candidate that is an ELF
/// binary of the host's architecture is run for its version and found;
/// when only other architectures turned up, the first of them is reported
/// as incompatible with a reason naming both architectures.
pub fn detect_aapt2<P: EnvProbe, R: CommandRunner>(
    probe: &P,
    runner: &R,
    host_kind: &HostKind,
    host_arch: &HostArch,
) -> (r: ToolStatus<Aapt2Info>)
    ensures
        r matches ToolStatus::Found { path, info, verified } ==> !info.arch_mismatch && verified
            && spec_expected_machine(*host_arch) is Some && is_aapt2_candidate(path@),
        r matches ToolStatus::FoundButIncompatible { path, info, reason } ==> info.arch_mismatch
            && info.version@ == "unknown"@ && is_aapt2_candidate(path@) && exists|m: u16|
            Some(m) != spec_expected_machine(*host_arch) && reason@ == spec_mismatch_reason(
                m,
                spec_expected_machine(*host_arch),
            ),
        !(r is AmbiguousMultiple),
        exists|cands: Vec<String>, obs: Seq<Option<Option<u16>>>, version_out: Option<CommandOutput>|
            #[trigger] aapt2_search(probe, runner, host_kind, host_arch, cands, obs, version_out, r),
{
    let expected = expected_machine(host_arch);
    let mut wrong_arch_found: Option<(String, u16)> = None;
    let candidates = candidate_aapt2_paths(probe, host_kind);
    let ghost cv = candidates;
    assert(call_ensures(candidate_aapt2_paths::<P>, (probe, host_kind), cv));
    let ghost mut obs: Seq<Option<Option<u16>>> = Seq::empty();
    let mut i: usize = 0;
    while i < candidates.len()
        invariant
            i <= candidates@.len(),
            expected == spec_expected_machine(*host_arch),
            forall|k: int| 0 <= k < candidates@.len() ==> #[trigger] is_aapt2_candidate(
                candidates@[k]@,
            ),
            wrong_arch_found matches Some(w) ==> is_aapt2_candidate(w.0@) && Some(w.1)
                != expected,
            cv == candidates,
            call_ensures(candidate_aapt2_paths::<P>, (probe, host_kind), cv),
            obs.len() == i,
            forall|j: int| 0 <= j < i ==> #[trigger] candidate_observed(probe, cv@[j]@, obs[j]),
            forall|j: int| 0 <= j < i ==> !is_native(#[trigger] obs[j], expected),
            wrong_arch_found is None ==> first_foreign(obs, expected) < 0,
            wrong_arch_found matches Some(w) ==> {
                let f = first_foreign(obs, expected);
                &&& 0 <= f < i
                &&& cv@[f]@ == w.0@
                &&& obs[f] == Some(Some(w.1))
            },
        decreases candidates.len() - i,
    {
        let path = &candidates[i];
        let ps = path.as_str();
        assert(is_aapt2_candidate(candidates@[i as int]@));
        let ghost old_obs = obs;
        let exists = probe.path_exists(ps);
        assert(call_ensures(P::path_exists, (probe, ps), exists));
        if exists {
            let machine = read_elf_machine(probe, ps);
            assert(call_ensures(read_elf_machine::<P>, (probe, ps), machine));
            proof {
                obs = obs.push(Some(machine));
                assert(candidate_observed(probe, cv@[i as int]@, obs[i as int]));
                assert(obs.drop_last() =~= old_obs);
                lemma_first_foreign(obs, expected);
            }
            if let Some(machine) = machine {
                if Some(machine) != expected {
                    if wrong_arch_found.is_none() {
                        wrong_arch_found = Some((path.clone(), machine));
                    }
                } else {
                    let version_args = vec!["version"];
                    let va = version_args.as_slice();
                    let out = runner.run(ps, va);
                    assert(va.deep_view() =~= seq!["version"@]);
                    assert(call_ensures(R::run, (runner, ps, va), out));
                    let ghost vo = out;
                    let version = version_text(out);
                    let r = ToolStatus::Found {
                        path: path.clone(),
                        info: Aapt2Info { version, arch_mismatch: false },
                        verified: true,
                    };
                    assert(ran(runner, cv@[i as int]@, seq!["version"@], vo));
                    assert forall|j: int| 0 <= j < obs.len() implies #[trigger] candidate_observed(
                        probe,
                        cv@[j]@,
                        obs[j],
                    ) by {
                        if j < i {
                            assert(obs[j] == old_obs[j]);
                        }
                    }
                    assert forall|j: int| 0 <= j < obs.len() - 1 implies !is_native(
                        #[trigger] obs[j],
                        expected,
                    ) by {
                        assert(obs[j] == old_obs[j]);
                    }
                    assert(aapt2_search(probe, runner, host_kind, host_arch, cv, obs, vo, r));
                    return r;
                }
            }
        } else {
            proof {
                obs = obs.push(None);
                assert(candidate_observed(probe, cv@[i as int]@, obs[i as int]));
                assert(obs.drop_last() =~= old_obs);
                lemma_first_foreign(obs, expected);
            }
        }
        assert forall|j: int| 0 <= j < i + 1 implies #[trigger] candidate_observed(
            probe,
            cv@[j]@,
            obs[j],
        ) by {
            if j < i {
                assert(obs[j] == old_obs[j]);
            }
        }
        assert forall|j: int| 0 <= j < i + 1 implies !is_native(#[trigger] obs[j], expected) by {
            if j < i {
                assert(obs[j] == old_obs[j]);
            }
        }
        proof {
            lemma_first_foreign(old_obs, expected);
            if first_foreign(old_obs, expected) >= 0 {
                assert(obs[first_foreign(old_obs, expected)] == old_obs[first_foreign(
                    old_obs,
                    expected,
                )]);
            }
        }
        i = i + 1;
    }
    let ghost none_out: Option<CommandOutput> = None;
    if let Some((path, machine)) = wrong_arch_found {
        let reason = mismatch_reason(machine, expected);
        let r = ToolStatus::FoundButIncompatible {
            path,
            info: Aapt2Info { version: "unknown".to_owned(), arch_mismatch: true },
            reason,
        };
        assert(aapt2_search(probe, runner, host_kind, host_arch, cv, obs, none_out, r));
        return r;
    }
    let r = ToolStatus::NotFound;
    assert(aapt2_search(probe, runner, host_kind, host_arch, cv, obs, none_out, r));
    r
}

/// A native `aapt2` is recognised by the ELF machine of the host's own
/// architecture: on a host detected from the target architecture `arch`,
/// the expected machine is the one named `arch` (`aarch64` on aarch64,
/// `x86_64` on x86_64), a machine is expected exactly when the
/// architecture is known, and hosts of different architectures expect
/// different machines. So a binary built for the host is never reported as
/// a mismatch.
pub proof fn law_expected_machine_is_the_host_architecture(arch: Seq<char>, other: Seq<char>)
    ensures
        spec_expected_machine(spec_host_arch(arch)) matches Some(m) ==> spec_machine_name(m) == arch,
        spec_expected_machine(spec_host_arch(arch)) is Some <==> spec_host_arch(arch)
            != HostArch::Unknown,
        spec_expected_machine(spec_host_arch(arch)) is Some && spec_host_arch(arch) != spec_host_arch(
            other,
        ) ==> spec_expected_machine(spec_host_arch(arch)) != spec_expected_machine(
            spec_host_arch(other),
        ),
{
}

} // verus!
