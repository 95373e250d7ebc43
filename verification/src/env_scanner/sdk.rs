//! Android SDK detection: several candidate roots are checked in priority
//! order, and none is accepted without a real `platforms/` and
//! `build-tools/` underneath.

use crate::env_scanner::host::{answered_env, answered_exists, answered_list, home_answers, EnvProbe};
use crate::paths::{dedup_path_strings, dedup_paths, lemma_dedup_paths, path_distinct, same_path};
use crate::text::{join, join_path};
use crate::types::{HostKind, SdkInfo, ToolStatus};
use vstd::prelude::*;

verus! {

/// A present value as a one-element sequence.
pub open spec fn opt_seq(o: Option<Seq<char>>) -> Seq<Seq<char>> {
    match o {
        Some(v) => seq![v],
        None => seq![],
    }
}

/// The conventional SDK locations for a host kind.
pub open spec fn default_sdk_paths(
    home: Option<Seq<char>>,
    local_app_data: Option<Seq<char>>,
    kind: HostKind,
) -> Seq<Seq<char>> {
    match kind {
        HostKind::KaliNetHunterProot | HostKind::Termux | HostKind::NativeLinux => seq![
            "/usr/lib/android-sdk"@,
        ] + match home {
            Some(h) => seq![join(join(h, "Android"@), "Sdk"@)],
            None => seq![],
        },
        HostKind::MacOs => match home {
            Some(h) => seq![join(join(join(h, "Library"@), "Android"@), "sdk"@)],
            None => seq![],
        },
        HostKind::Windows => match local_app_data {
            Some(l) => seq![join(join(l, "Android"@), "Sdk"@)],
            None => seq![],
        },
        HostKind::Unknown => seq![],
    }
}

/// Candidate SDK roots in priority order: `ANDROID_HOME`, then
/// `ANDROID_SDK_ROOT`, then the conventional locations of the host kind,
/// with no path named twice (the first spelling stays), so that one SDK is
/// never searched twice.
pub open spec fn spec_sdk_candidates(
    android_home: Option<Seq<char>>,
    sdk_root: Option<Seq<char>>,
    home: Option<Seq<char>>,
    local_app_data: Option<Seq<char>>,
    kind: HostKind,
) -> Seq<Seq<char>> {
    dedup_paths(opt_seq(android_home) + opt_seq(sdk_root) + default_sdk_paths(home, local_app_data, kind))
}

/// Whether `cands` is the candidate list for some values of the
/// environment variables read.
pub open spec fn is_sdk_candidate_list(cands: Seq<Seq<char>>, kind: HostKind) -> bool {
    exists|
        android_home: Option<Seq<char>>,
        sdk_root: Option<Seq<char>>,
        home: Option<Seq<char>>,
        local_app_data: Option<Seq<char>>,
    | cands == #[trigger] spec_sdk_candidates(android_home, sdk_root, home, local_app_data, kind)
}

pub const EMPTY_SDK_REASON: &'static str =
    "SDK root found but has no installed platforms/build-tools";

/// What `detect_sdk` reports for a root whose `platforms/` and
/// `build-tools/` exist, given their listings.
pub open spec fn sdk_status_matches(
    r: ToolStatus<SdkInfo>,
    root: Seq<char>,
    platforms: Seq<Seq<char>>,
    build_tools: Seq<Seq<char>>,
) -> bool {
    if platforms.len() == 0 || build_tools.len() == 0 {
        r matches ToolStatus::FoundButIncompatible { path, info, reason } && path@ == root
            && info.installed_platforms.deep_view() == platforms
            && info.installed_build_tools.deep_view() == build_tools && reason@
            == EMPTY_SDK_REASON@
    } else {
        r matches ToolStatus::Found { path, info, verified } && path@ == root
            && info.installed_platforms.deep_view() == platforms
            && info.installed_build_tools.deep_view() == build_tools && verified
    }
}

fn push_opt(v: &mut Vec<String>, o: Option<String>)
    ensures
        final(v).deep_view() == old(v).deep_view() + opt_seq(o.deep_view()),
{
    let ghost before = v.deep_view();
    if let Some(x) = o {
        v.push(x);
        assert(v.deep_view() =~= before + opt_seq(o.deep_view()));
    } else {
        assert(v.deep_view() =~= before + opt_seq(o.deep_view()));
    }
}

fn join3(a: &str, b: &str, c: &str) -> (r: String)
    ensures
        r@ == join(join(a@, b@), c@),
{
    let ab = join_path(a, b);
    join_path(ab.as_str(), c)
}

/// The candidate SDK roots for already-read environment values.
pub fn sdk_candidates_from(
    android_home: Option<String>,
    sdk_root: Option<String>,
    home: Option<String>,
    local_app_data: Option<String>,
    host_kind: &HostKind,
) -> (r: Vec<String>)
    ensures
        r.deep_view() == spec_sdk_candidates(
            android_home.deep_view(),
            sdk_root.deep_view(),
            home.deep_view(),
            local_app_data.deep_view(),
            *host_kind,
        ),
        path_distinct(r.deep_view()),
{
    let ghost h = home.deep_view();
    let ghost l = local_app_data.deep_view();
    let mut candidates: Vec<String> = Vec::new();
    push_opt(&mut candidates, android_home);
    push_opt(&mut candidates, sdk_root);
    let ghost env_part = candidates.deep_view();
    let mut defaults: Vec<String> = Vec::new();
    match host_kind {
        HostKind::KaliNetHunterProot | HostKind::Termux | HostKind::NativeLinux => {
            defaults.push("/usr/lib/android-sdk".to_owned());
            match &home {
                Some(h) => defaults.push(join3(h.as_str(), "Android", "Sdk")),
                None => {},
            }
        },
        HostKind::MacOs => {
            match &home {
                Some(h) => {
                    let lib = join_path(h.as_str(), "Library");
                    defaults.push(join3(lib.as_str(), "Android", "sdk"));
                },
                None => {},
            }
        },
        HostKind::Windows => {
            match &local_app_data {
                Some(l) => defaults.push(join3(l.as_str(), "Android", "Sdk")),
                None => {},
            }
        },
        HostKind::Unknown => {},
    }
    assert(defaults.deep_view() =~= default_sdk_paths(h, l, *host_kind));
    let ghost before = candidates.deep_view();
    candidates.append(&mut defaults);
    assert(candidates.deep_view() =~= before + default_sdk_paths(h, l, *host_kind));
    let r = dedup_path_strings(candidates);
    proof {
        lemma_dedup_paths(before + default_sdk_paths(h, l, *host_kind));
    }
    r
}

/// The home directory as the SDK search reads it: `HOME`, or `USERPROFILE`
/// when `HOME` is unset.
pub open spec fn home_or_profile<P: EnvProbe>(probe: &P, h: Option<Seq<char>>) -> bool {
    exists|home: Option<Seq<char>>, user_profile: Option<Seq<char>>|
        #[trigger] home_answers(probe, home, user_profile) && h == (if home is Some {
            home
        } else {
            user_profile
        })
}

/// What the probe answered for the variables the SDK candidates come from:
/// `ANDROID_HOME`, `ANDROID_SDK_ROOT`, the home directory, and
/// `LOCALAPPDATA`, which is read on Windows only.
pub open spec fn sdk_env_answers<P: EnvProbe>(
    probe: &P,
    kind: HostKind,
    android_home: Option<Seq<char>>,
    sdk_root: Option<Seq<char>>,
    home: Option<Seq<char>>,
    local_app_data: Option<Seq<char>>,
) -> bool {
    &&& answered_env(probe, "ANDROID_HOME"@, android_home)
    &&& answered_env(probe, "ANDROID_SDK_ROOT"@, sdk_root)
    &&& home_or_profile(probe, home)
    &&& if kind == HostKind::Windows {
        answered_env(probe, "LOCALAPPDATA"@, local_app_data)
    } else {
        local_app_data is None
    }
}

/// Candidate SDK roots for the probed environment: `ANDROID_HOME`,
/// `ANDROID_SDK_ROOT`, then the host kind's conventional locations under
/// `HOME` (or `USERPROFILE`) or, on Windows, `LOCALAPPDATA`; a root named
/// twice is kept once.
pub fn candidate_paths<P: EnvProbe>(probe: &P, host_kind: &HostKind) -> (r: Vec<String>)
    ensures
        exists|
            android_home: Option<Seq<char>>,
            sdk_root: Option<Seq<char>>,
            home: Option<Seq<char>>,
            local_app_data: Option<Seq<char>>,
        |
            #[trigger] sdk_env_answers(probe, *host_kind, android_home, sdk_root, home, local_app_data)
                && r.deep_view() == spec_sdk_candidates(
                android_home,
                sdk_root,
                home,
                local_app_data,
                *host_kind,
            ),
        path_distinct(r.deep_view()),
{
    let android_home = probe.read_env("ANDROID_HOME");
    assert(answered_env(probe, "ANDROID_HOME"@, android_home.deep_view()));
    let sdk_root = probe.read_env("ANDROID_SDK_ROOT");
    assert(answered_env(probe, "ANDROID_SDK_ROOT"@, sdk_root.deep_view()));
    let home_read = probe.read_env("HOME");
    assert(answered_env(probe, "HOME"@, home_read.deep_view()));
    let home = match home_read {
        Some(h) => {
            assert(home_answers(probe, Some(h@), None));
            Some(h)
        },
        None => {
            let profile = probe.read_env("USERPROFILE");
            assert(answered_env(probe, "USERPROFILE"@, profile.deep_view()));
            assert(home_answers(probe, None, profile.deep_view()));
            profile
        },
    };
    let local_app_data = match host_kind {
        HostKind::Windows => {
            let l = probe.read_env("LOCALAPPDATA");
            assert(answered_env(probe, "LOCALAPPDATA"@, l.deep_view()));
            l
        },
        _ => None,
    };
    let ghost (a, b, h, l) = (
        android_home.deep_view(),
        sdk_root.deep_view(),
        home.deep_view(),
        local_app_data.deep_view(),
    );
    assert(sdk_env_answers(probe, *host_kind, a, b, h, l));
    let r = sdk_candidates_from(android_home, sdk_root, home, local_app_data, host_kind);
    assert(r.deep_view() == spec_sdk_candidates(a, b, h, l, *host_kind));
    r
}

/// The status of a root whose `platforms/` and `build-tools/` both exist:
/// found when both list at least one version, otherwise an empty shell.
pub fn sdk_status_for(root: String, platforms: Vec<String>, build_tools: Vec<String>) -> (r:
    ToolStatus<SdkInfo>)
    ensures
        sdk_status_matches(r, root@, platforms.deep_view(), build_tools.deep_view()),
{
    if platforms.len() == 0 || build_tools.len() == 0 {
        ToolStatus::FoundButIncompatible {
            path: root,
            info: SdkInfo { installed_platforms: platforms, installed_build_tools: build_tools },
            reason: EMPTY_SDK_REASON.to_owned(),
        }
    } else {
        ToolStatus::Found {
            path: root,
            info: SdkInfo { installed_platforms: platforms, installed_build_tools: build_tools },
            verified: true,
        }
    }
}

/// Whether a root has both `platforms/` and `build-tools/`.
pub fn has_sdk_structure<P: EnvProbe>(probe: &P, root: &str) -> (r: bool)
    ensures
        r ==> answered_exists(probe, join(root@, "platforms"@), true) && answered_exists(
            probe,
            join(root@, "build-tools"@),
            true,
        ),
        !r ==> answered_exists(probe, join(root@, "platforms"@), false) || answered_exists(
            probe,
            join(root@, "build-tools"@),
            false,
        ),
{
    let platforms_dir = join_path(root, "platforms");
    let build_tools_dir = join_path(root, "build-tools");
    let pp = platforms_dir.as_str();
    let bp = build_tools_dir.as_str();
    probe.path_exists(pp) && probe.path_exists(bp)
}

/// Detects the SDK: the first candidate root that has both `platforms/` and
/// `build-tools/` decides; none means not found.
pub fn detect_sdk<P: EnvProbe>(probe: &P, host_kind: &HostKind) -> (r: ToolStatus<SdkInfo>)
    ensures
        r is NotFound || exists|
            cands: Seq<Seq<char>>,
            k: int,
            platforms: Seq<Seq<char>>,
            build_tools: Seq<Seq<char>>,
        |
            0 <= k < cands.len() && is_sdk_candidate_list(cands, *host_kind) && #[trigger] sdk_status_matches(
                r,
                cands[k],
                platforms,
                build_tools,
            ),
        exists|cands: Vec<String>, k: int, platforms: Seq<Seq<char>>, build_tools: Seq<Seq<char>>|
            #[trigger] sdk_search(probe, host_kind, cands, k, platforms, build_tools, r),
{
    let candidates = candidate_paths(probe, host_kind);
    let ghost cs = candidates.deep_view();
    let ghost cv = candidates;
    assert(call_ensures(candidate_paths::<P>, (probe, host_kind), cv));
    assert(is_sdk_candidate_list(cs, *host_kind));
    let mut i: usize = 0;
    while i < candidates.len()
        invariant
            i <= candidates@.len(),
            cs == candidates.deep_view(),
            cv == candidates,
            call_ensures(candidate_paths::<P>, (probe, host_kind), cv),
            is_sdk_candidate_list(cs, *host_kind),
            forall|j: int| 0 <= j < i ==> #[trigger] structure_answer(probe, cv@[j]@, false),
        decreases candidates.len() - i,
    {
        let root = &candidates[i];
        let rs = root.as_str();
        let has = has_sdk_structure(probe, rs);
        assert(call_ensures(has_sdk_structure::<P>, (probe, rs), has));
        assert(structure_answer(probe, cv@[i as int]@, has));
        if has {
            let platforms_dir = join_path(root.as_str(), "platforms");
            let build_tools_dir = join_path(root.as_str(), "build-tools");
            let pd = platforms_dir.as_str();
            let bd = build_tools_dir.as_str();
            let platforms = probe.list_dir(pd);
            assert(call_ensures(P::list_dir, (probe, pd), platforms));
            let build_tools = probe.list_dir(bd);
            assert(call_ensures(P::list_dir, (probe, bd), build_tools));
            let ghost (rt, p, b) = (root@, platforms.deep_view(), build_tools.deep_view());
            assert(answered_list(probe, join(rt, "platforms"@), p));
            assert(answered_list(probe, join(rt, "build-tools"@), b));
            let r = sdk_status_for(root.clone(), platforms, build_tools);
            assert(cs[i as int] == rt);
            assert(sdk_status_matches(r, cs[i as int], p, b));
            assert(sdk_search(probe, host_kind, cv, i as int, p, b, r));
            return r;
        }
        i = i + 1;
    }
    let r = ToolStatus::NotFound;
    assert(sdk_search(probe, host_kind, cv, i as int, Seq::empty(), Seq::empty(), r));
    r
}

/// `probe` answered `answer` when asked whether `root` has both
/// `platforms/` and `build-tools/`.
pub open spec fn structure_answer<P: EnvProbe>(probe: &P, root: Seq<char>, answer: bool) -> bool {
    exists|p: &str| p@ == root && #[trigger] call_ensures(has_sdk_structure::<P>, (probe, p), answer)
}

/// The SDK search, given the candidate roots it got and the first one, `k`,
/// that has the SDK structure: every earlier root lacked it; the root found
/// decides from its `platforms/` and `build-tools/` listings; no root found
/// means not found.
pub open spec fn sdk_search<P: EnvProbe>(
    probe: &P,
    host_kind: &HostKind,
    cands: Vec<String>,
    k: int,
    platforms: Seq<Seq<char>>,
    build_tools: Seq<Seq<char>>,
    r: ToolStatus<SdkInfo>,
) -> bool {
    &&& call_ensures(candidate_paths::<P>, (probe, host_kind), cands)
    &&& 0 <= k <= cands@.len()
    &&& forall|j: int| 0 <= j < k ==> #[trigger] structure_answer(probe, cands@[j]@, false)
    &&& if k == cands@.len() {
        r is NotFound
    } else {
        &&& structure_answer(probe, cands@[k]@, true)
        &&& answered_list(probe, join(cands@[k]@, "platforms"@), platforms)
        &&& answered_list(probe, join(cands@[k]@, "build-tools"@), build_tools)
        &&& sdk_status_matches(r, cands@[k]@, platforms, build_tools)
    }
}

/// `ANDROID_HOME`, when set, is always the first SDK candidate, so it
/// takes priority over every other location; every root named is searched
/// under one of its spellings; only named roots are searched; and no path
/// is listed twice, so one SDK is never counted twice.
pub proof fn law_android_home_first_and_no_repeats(
    android_home: Option<Seq<char>>,
    sdk_root: Option<Seq<char>>,
    home: Option<Seq<char>>,
    local_app_data: Option<Seq<char>>,
    kind: HostKind,
)
    ensures
        android_home matches Some(a) ==> spec_sdk_candidates(
            android_home,
            sdk_root,
            home,
            local_app_data,
            kind,
        ).len() > 0 && spec_sdk_candidates(android_home, sdk_root, home, local_app_data, kind)[0]
            == a,
        path_distinct(spec_sdk_candidates(android_home, sdk_root, home, local_app_data, kind)),
        ({
            let named = opt_seq(android_home) + opt_seq(sdk_root) + default_sdk_paths(
                home,
                local_app_data,
                kind,
            );
            let c = spec_sdk_candidates(android_home, sdk_root, home, local_app_data, kind);
            &&& forall|k: int|
                #![trigger named[k]]
                0 <= k < named.len() ==> exists|i: int| 0 <= i < c.len() && same_path(#[trigger] c[i], named[k])
            &&& forall|i: int| 0 <= i < c.len() ==> named.contains(#[trigger] c[i])
        }),
{
    let all = opt_seq(android_home) + opt_seq(sdk_root) + default_sdk_paths(home, local_app_data, kind);
    lemma_dedup_paths(all);
    if let Some(a) = android_home {
        assert(all[0] == a);
    }
}

/// Whether `c` lists a path that is the same path as `p`.
pub open spec fn lists_path(c: Seq<Seq<char>>, p: Seq<char>) -> bool {
    exists|i: int| 0 <= i < c.len() && same_path(#[trigger] c[i], p)
}

/// The host kinds of the Linux family: plain Linux, Kali NetHunter in
/// proot, and Termux.
pub open spec fn is_linux_family(kind: HostKind) -> bool {
    kind == HostKind::NativeLinux || kind == HostKind::KaliNetHunterProot || kind == HostKind::Termux
}

/// The SDK search covers every location it promises: `ANDROID_HOME` and
/// `ANDROID_SDK_ROOT` when set; on Linux-family hosts
/// `/usr/lib/android-sdk` and, with a home directory, `<home>/Android/Sdk`
/// (Android Studio's default); on macOS `<home>/Library/Android/sdk`; on
/// Windows `<LOCALAPPDATA>/Android/Sdk`. Each is listed under some spelling
/// of the same path.
pub proof fn law_sdk_search_covers_the_conventional_locations(
    android_home: Option<Seq<char>>,
    sdk_root: Option<Seq<char>>,
    home: Option<Seq<char>>,
    local_app_data: Option<Seq<char>>,
    kind: HostKind,
)
    ensures
        android_home matches Some(a) ==> lists_path(
            spec_sdk_candidates(android_home, sdk_root, home, local_app_data, kind),
            a,
        ),
        sdk_root matches Some(b) ==> lists_path(
            spec_sdk_candidates(android_home, sdk_root, home, local_app_data, kind),
            b,
        ),
        is_linux_family(kind) ==> lists_path(
            spec_sdk_candidates(android_home, sdk_root, home, local_app_data, kind),
            "/usr/lib/android-sdk"@,
        ),
        is_linux_family(kind) ==> (home matches Some(h) ==> lists_path(
            spec_sdk_candidates(android_home, sdk_root, home, local_app_data, kind),
            join(join(h, "Android"@), "Sdk"@),
        )),
        kind == HostKind::MacOs ==> (home matches Some(h) ==> lists_path(
            spec_sdk_candidates(android_home, sdk_root, home, local_app_data, kind),
            join(join(join(h, "Library"@), "Android"@), "sdk"@),
        )),
        kind == HostKind::Windows ==> (local_app_data matches Some(l) ==> lists_path(
            spec_sdk_candidates(android_home, sdk_root, home, local_app_data, kind),
            join(join(l, "Android"@), "Sdk"@),
        )),
{
    let e = opt_seq(android_home) + opt_seq(sdk_root);
    let d = default_sdk_paths(home, local_app_data, kind);
    let all = e + d;
    lemma_dedup_paths(all);
    let n = e.len() as int;
    if let Some(a) = android_home {
        assert(all[0] == a);
    }
    if let Some(b) = sdk_root {
        assert(all[n - 1] == b);
    }
    match kind {
        HostKind::KaliNetHunterProot | HostKind::Termux | HostKind::NativeLinux => {
            assert(d[0] == "/usr/lib/android-sdk"@);
            assert(all[n] == d[0]);
            if let Some(h) = home {
                assert(d[1] == join(join(h, "Android"@), "Sdk"@));
                assert(all[n + 1] == d[1]);
            }
        },
        HostKind::MacOs => {
            if let Some(h) = home {
                assert(d[0] == join(join(join(h, "Library"@), "Android"@), "sdk"@));
                assert(all[n] == d[0]);
            }
        },
        HostKind::Windows => {
            if let Some(l) = local_app_data {
                assert(d[0] == join(join(l, "Android"@), "Sdk"@));
                assert(all[n] == d[0]);
            }
        },
        HostKind::Unknown => {},
    }
}

} // verus!
