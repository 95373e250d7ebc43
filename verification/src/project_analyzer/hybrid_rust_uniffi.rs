//! The hybrid scenario: a Cargo workspace at the root with a native Rust
//! layer exposed through UniFFI, plus an `android/` folder that is itself a
//! complete Gradle project.

use crate::env_scanner::host::{answered_exists, answered_read, EnvProbe};
use crate::plugin_api::ProjectScenario;
use crate::text::{
    contains, first_where, from_chars, has_prefix, join, join_path, lemma_first_where, lines, lines_of,
    split_char, split_on, starts_with, str_contains, to_chars, trim_start, trim_start_chars, views,
};
use crate::types::ProjectFingerprint;
use vstd::prelude::*;

verus! {

pub struct HybridRustUniffiScenario;

/// Lines that declare workspace members.
pub open spec fn is_members_line() -> spec_fn(Seq<char>) -> bool {
    |l: Seq<char>| starts_with(trim_start(l), "members"@)
}

/// Every second piece, starting with the second: the quoted parts of a
/// line split at `"`.
pub open spec fn odd_pieces(p: Seq<Seq<char>>) -> Seq<Seq<char>> {
    Seq::new(p.len() / 2, |i: int| p[2 * i + 1])
}

/// The workspace member names in a `Cargo.toml`: the quoted strings of the
/// first line that starts with `members`. A shallow reading, not a TOML
/// parser, but enough for the common `members = ["a", "b"]` form.
pub open spec fn spec_workspace_members(content: Seq<char>) -> Seq<Seq<char>> {
    match first_where(lines(content), is_members_line()) {
        None => Seq::empty(),
        Some(line) => odd_pieces(split_char(line, '"')),
    }
}

/// Whether the root manifest or one of the member manifests read mentions
/// `uniffi`; nothing does when the root manifest cannot be read.
pub open spec fn spec_mentions_uniffi(
    root_manifest: Option<Seq<char>>,
    member_manifests: Seq<Option<Seq<char>>>,
) -> bool {
    &&& root_manifest is Some
    &&& (contains(root_manifest->0, "uniffi"@) || exists|i: int|
        0 <= i < member_manifests.len() && manifest_mentions_uniffi(#[trigger] member_manifests[i]))
}

/// Whether a manifest was read and mentions `uniffi`.
pub open spec fn manifest_mentions_uniffi(manifest: Option<Seq<char>>) -> bool {
    manifest matches Some(m) && contains(m, "uniffi"@)
}

/// The hybrid confidence: no match without both a root `Cargo.toml` and an
/// Android Gradle project; 0.95 when UniFFI is mentioned, else 0.5 (some
/// other native pattern).
pub open spec fn spec_hybrid_confidence(has_cargo: bool, has_android: bool, uniffi: bool) -> Option<
    u32,
> {
    if !has_cargo || !has_android {
        None
    } else if uniffi {
        Some(95)
    } else {
        Some(50)
    }
}

/// The hybrid confidence from the three observations.
pub fn hybrid_confidence(has_cargo: bool, has_android: bool, uniffi: bool) -> (r: Option<u32>)
    ensures
        r == spec_hybrid_confidence(has_cargo, has_android, uniffi),
{
    if !has_cargo || !has_android {
        None
    } else if uniffi {
        Some(95)
    } else {
        Some(50)
    }
}

/// Whether `android/settings.gradle.kts` or `android/settings.gradle`
/// exists under the root.
pub fn has_android_gradle_project<P: EnvProbe>(probe: &P, project_root: &str) -> (r: bool)
    ensures
        r ==> answered_exists(probe, join(join(project_root@, "android"@), "settings.gradle.kts"@), true)
            || answered_exists(probe, join(join(project_root@, "android"@), "settings.gradle"@), true),
        !r ==> answered_exists(
            probe,
            join(join(project_root@, "android"@), "settings.gradle.kts"@),
            false,
        ) && answered_exists(probe, join(join(project_root@, "android"@), "settings.gradle"@), false),
{
    let android = join_path(project_root, "android");
    let kts = join_path(android.as_str(), "settings.gradle.kts");
    let kp = kts.as_str();
    if probe.path_exists(kp) {
        return true;
    }
    let groovy = join_path(android.as_str(), "settings.gradle");
    let gp = groovy.as_str();
    probe.path_exists(gp)
}

/// The workspace member names of a `Cargo.toml` text.
pub fn workspace_members(cargo_toml_content: &str) -> (r: Vec<String>)
    ensures
        r.deep_view() == spec_workspace_members(cargo_toml_content@),
{
    let chars = to_chars(cargo_toml_content);
    let ls = lines_of(chars.as_slice());
    let key = to_chars("members");
    let mut i: usize = 0;
    let mut found = false;
    while i < ls.len() && !found
        invariant
            i <= ls@.len(),
            key@ == "members"@,
            views(ls@) == lines(cargo_toml_content@),
            forall|k: int| 0 <= k < i ==> !is_members_line()(views(ls@)[k]),
            found ==> i < ls@.len() && is_members_line()(views(ls@)[i as int]),
        decreases ls.len() - i + (if found {
            0int
        } else {
            1int
        }),
    {
        let t = trim_start_chars(ls[i].as_slice());
        assert(views(ls@)[i as int] == ls@[i as int]@);
        if has_prefix(t.as_slice(), key.as_slice()) {
            found = true;
        } else {
            i = i + 1;
        }
    }
    proof {
        lemma_first_where(views(ls@), is_members_line(), i as int);
    }
    let mut out: Vec<String> = Vec::new();
    if !found {
        assert(out.deep_view() =~= spec_workspace_members(cargo_toml_content@));
        return out;
    }
    let line = &ls[i];
    assert(views(ls@)[i as int] == line@);
    let parts = split_on(line.as_slice(), '"');
    let ghost pv = views(parts@);
    let mut m: usize = 0;
    while m < parts.len() / 2
        invariant
            pv == views(parts@),
            pv == split_char(line@, '"'),
            m <= parts@.len() / 2,
            out@.len() == m,
            forall|t: int| 0 <= t < m ==> out@[t]@ == pv[2 * t + 1],
        decreases parts.len() / 2 - m,
    {
        let k = 2 * m + 1;
        assert(pv[k as int] == parts@[k as int]@);
        out.push(from_chars(parts[k].as_slice()));
        m = m + 1;
    }
    assert(m == pv.len() / 2);
    assert(out.deep_view() =~= odd_pieces(pv));
    out
}

/// What the `uniffi` search read: the root manifest, then the manifests of
/// the workspace members in order, none when the root manifest cannot be
/// read or already mentions `uniffi`, stopping at the first that mentions
/// it and otherwise reading every member's.
pub open spec fn uniffi_reads<P: EnvProbe>(
    probe: &P,
    root: Seq<char>,
    root_manifest: Option<Seq<char>>,
    manifests: Seq<Option<Seq<char>>>,
) -> bool {
    &&& answered_read(probe, join(root, "Cargo.toml"@), root_manifest)
    &&& match root_manifest {
        None => manifests.len() == 0,
        Some(c) => {
            &&& manifests.len() <= spec_workspace_members(c).len()
            &&& contains(c, "uniffi"@) ==> manifests.len() == 0
            &&& forall|k: int|
                0 <= k < manifests.len() ==> #[trigger] answered_read(
                    probe,
                    member_manifest_path(root, spec_workspace_members(c)[k]),
                    manifests[k],
                )
            &&& !spec_mentions_uniffi(root_manifest, manifests) ==> manifests.len()
                == spec_workspace_members(c).len()
        },
    }
}

/// `mentioned` is the verdict of the `uniffi` search on what the probe
/// answered.
pub open spec fn uniffi_detected<P: EnvProbe>(probe: &P, root: Seq<char>, mentioned: bool) -> bool {
    exists|root_manifest: Option<Seq<char>>, manifests: Seq<Option<Seq<char>>>|
        #[trigger] uniffi_reads(probe, root, root_manifest, manifests) && mentioned
            == spec_mentions_uniffi(root_manifest, manifests)
}

/// Whether the root `Cargo.toml` or the manifest of any workspace member
/// mentions `uniffi`. The root manifest of a workspace is often a bare
/// member list while the dependency lives in a member, so both levels are
/// read.
pub fn mentions_uniffi<P: EnvProbe>(probe: &P, project_root: &str) -> (r: bool)
    ensures
        uniffi_detected(probe, project_root@, r),
{
    let root_toml = join_path(project_root, "Cargo.toml");
    let rp = root_toml.as_str();
    let root_read = probe.read_to_string(rp);
    assert(call_ensures(P::read_to_string, (probe, rp), root_read));
    assert(answered_read(probe, join(project_root@, "Cargo.toml"@), root_read.deep_view()));
    let content = match root_read {
        Some(c) => c,
        None => {
            assert(uniffi_reads(probe, project_root@, None, Seq::empty()));
            return false;
        },
    };
    let ghost rc = Some(content@);
    assert(answered_read(probe, join(project_root@, "Cargo.toml"@), rc));
    if str_contains(content.as_str(), "uniffi") {
        assert(uniffi_reads(probe, project_root@, rc, Seq::empty()));
        return true;
    }
    let members = workspace_members(content.as_str());
    let ghost mv = members.deep_view();
    let ghost mut read: Seq<Option<Seq<char>>> = Seq::empty();
    let mut i: usize = 0;
    while i < members.len()
        invariant
            i <= members@.len(),
            read.len() == i,
            mv == members.deep_view(),
            mv == spec_workspace_members(content@),
            !contains(content@, "uniffi"@),
            rc == Some(content@),
            answered_read(probe, join(project_root@, "Cargo.toml"@), rc),
            forall|k: int|
                0 <= k < i ==> #[trigger] answered_read(
                    probe,
                    member_manifest_path(project_root@, mv[k]),
                    read[k],
                ),
            forall|t: int| 0 <= t < i ==> !manifest_mentions_uniffi(#[trigger] read[t]),
        decreases members.len() - i,
    {
        let member_dir = join_path(project_root, members[i].as_str());
        let manifest = join_path(member_dir.as_str(), "Cargo.toml");
        let mp = manifest.as_str();
        let got = probe.read_to_string(mp);
        let ghost rd = got.deep_view();
        assert(mv[i as int] == members@[i as int]@);
        assert(call_ensures(P::read_to_string, (probe, mp), got));
        assert(answered_read(probe, member_manifest_path(project_root@, mv[i as int]), rd));
        let ghost old_read = read;
        proof {
            read = read.push(rd);
        }
        assert forall|k: int| 0 <= k < i + 1 implies #[trigger] answered_read(
            probe,
            member_manifest_path(project_root@, mv[k]),
            read[k],
        ) by {
            if k < i {
                assert(read[k] == old_read[k]);
            }
        }
        if let Some(c) = got {
            if str_contains(c.as_str(), "uniffi") {
                assert(read[i as int] == Some(c@));
                assert(manifest_mentions_uniffi(read[i as int]));
                assert(spec_mentions_uniffi(rc, read));
                assert(uniffi_reads(probe, project_root@, rc, read));
                return true;
            }
        }
        assert forall|t: int| 0 <= t < i + 1 implies !manifest_mentions_uniffi(#[trigger] read[t]) by {
            if t < i {
                assert(read[t] == old_read[t]);
            }
        }
        i = i + 1;
    }
    assert(!spec_mentions_uniffi(rc, read));
    assert(uniffi_reads(probe, project_root@, rc, read));
    false
}

/// Whether a `Cargo.toml` is in the root: it exists as a path or, failing
/// that, it can be read.
pub open spec fn cargo_manifest_answer<P: EnvProbe>(probe: &P, root: Seq<char>, present: bool) -> bool {
    let path = join(root, "Cargo.toml"@);
    ||| answered_exists(probe, path, true) && present
    ||| answered_exists(probe, path, false) && exists|content: Option<Seq<char>>|
        #[trigger] answered_read(probe, path, content) && present == content is Some
}

/// Whether the root holds a `Cargo.toml`: an existing path, or a file the
/// probe can read.
pub fn has_cargo_manifest<P: EnvProbe>(probe: &P, project_root: &str) -> (r: bool)
    ensures
        cargo_manifest_answer(probe, project_root@, r),
{
    let cargo = join_path(project_root, "Cargo.toml");
    let cp = cargo.as_str();
    if probe.path_exists(cp) {
        return true;
    }
    let content = probe.read_to_string(cp);
    assert(call_ensures(P::read_to_string, (probe, cp), content));
    assert(answered_read(probe, join(project_root@, "Cargo.toml"@), content.deep_view()));
    content.is_some()
}

/// The Android Gradle project answer: whether `android/settings.gradle.kts`
/// or else `android/settings.gradle` exists.
pub open spec fn android_project_answer<P: EnvProbe>(probe: &P, root: Seq<char>, present: bool) -> bool {
    &&& present ==> answered_exists(
        probe,
        join(join(root, "android"@), "settings.gradle.kts"@),
        true,
    ) || answered_exists(probe, join(join(root, "android"@), "settings.gradle"@), true)
    &&& !present ==> answered_exists(
        probe,
        join(join(root, "android"@), "settings.gradle.kts"@),
        false,
    ) && answered_exists(probe, join(join(root, "android"@), "settings.gradle"@), false)
}

/// What the hybrid detection observed: a root `Cargo.toml`, an Android
/// Gradle project, and, only when both are there, the `uniffi` search.
pub open spec fn hybrid_answers<P: EnvProbe>(
    probe: &P,
    root: Seq<char>,
    has_cargo: bool,
    has_android: bool,
    uniffi: bool,
) -> bool {
    &&& cargo_manifest_answer(probe, root, has_cargo)
    &&& android_project_answer(probe, root, has_android)
    &&& if has_cargo && has_android {
        uniffi_detected(probe, root, uniffi)
    } else {
        !uniffi
    }
}

/// `conf` is the hybrid confidence given what the probe answered.
pub open spec fn hybrid_detected<P: EnvProbe>(probe: &P, root: Seq<char>, conf: Option<u32>) -> bool {
    exists|has_cargo: bool, has_android: bool, uniffi: bool|
        #[trigger] hybrid_answers(probe, root, has_cargo, has_android, uniffi) && conf
            == spec_hybrid_confidence(has_cargo, has_android, uniffi)
}

impl ProjectScenario for HybridRustUniffiScenario {
    open spec fn spec_scenario_id(&self) -> Seq<char> {
        "hybrid-rust-uniffi"@
    }

    fn scenario_id(&self) -> (r: &'static str) {
        let r = "hybrid-rust-uniffi";
        assert(r@ == "hybrid-rust-uniffi"@);
        assert(self.spec_scenario_id() == "hybrid-rust-uniffi"@);
        r
    }

    fn detect<P: EnvProbe>(&self, probe: &P, project_root: &str) -> (r: Option<u32>)
        ensures
            hybrid_detected(probe, project_root@, r),
    {
        let has_cargo = has_cargo_manifest(probe, project_root);
        let has_android = has_android_gradle_project(probe, project_root);
        if !has_cargo || !has_android {
            assert(hybrid_answers(probe, project_root@, has_cargo, has_android, false));
            return hybrid_confidence(has_cargo, has_android, false);
        }
        let uniffi = mentions_uniffi(probe, project_root);
        assert(hybrid_answers(probe, project_root@, true, true, uniffi));
        hybrid_confidence(true, true, uniffi)
    }

    fn fingerprint<P: EnvProbe>(&self, probe: &P, project_root: &str) -> (r: ProjectFingerprint)
        ensures
            exists|conf: Option<u32>|
                #[trigger] hybrid_detected(probe, project_root@, conf) && r.confidence == match conf {
                    Some(v) => v,
                    None => 0,
                },
    {
        let c = self.detect(probe, project_root);
        ProjectFingerprint {
            scenario_id: self.scenario_id().to_owned(),
            root: project_root.to_owned(),
            confidence: match c {
                Some(v) => v,
                None => 0,
            },
        }
    }
}

/// The manifest of a workspace member.
pub open spec fn member_manifest_path(root: Seq<char>, member: Seq<char>) -> Seq<char> {
    join(join(root, member), "Cargo.toml"@)
}

/// The first member whose manifest, as read, mentions `uniffi`, among the
/// members whose manifests were read.
pub open spec fn first_uniffi_member(members: Seq<Seq<char>>, manifests: Seq<Option<Seq<char>>>) -> Option<
    Seq<char>,
>
    decreases manifests.len(),
{
    if manifests.len() == 0 || members.len() == 0 {
        None
    } else if manifest_mentions_uniffi(manifests[0]) {
        Some(members[0])
    } else {
        first_uniffi_member(members.drop_first(), manifests.drop_first())
    }
}

pub proof fn lemma_first_uniffi_member_at(
    members: Seq<Seq<char>>,
    manifests: Seq<Option<Seq<char>>>,
    i: int,
)
    requires
        manifests.len() <= members.len(),
        0 <= i <= manifests.len(),
        i < manifests.len() ==> manifest_mentions_uniffi(manifests[i]),
        forall|k: int| 0 <= k < i ==> !manifest_mentions_uniffi(manifests[k]),
    ensures
        first_uniffi_member(members, manifests) == (if i < manifests.len() {
            Some(members[i])
        } else {
            None::<Seq<char>>
        }),
    decreases i,
{
    if i > 0 {
        assert forall|k: int| 0 <= k < i - 1 implies !manifest_mentions_uniffi(
            manifests.drop_first()[k],
        ) by {
            assert(manifests.drop_first()[k] == manifests[k + 1]);
        }
        lemma_first_uniffi_member_at(members.drop_first(), manifests.drop_first(), i - 1);
    }
}

/// The search for the UniFFI member, given what reading the root manifest
/// and then the member manifests, in order, gave: nothing without a root
/// manifest; otherwise the first member whose manifest mentions `uniffi`,
/// reading stopping there, or nothing once every member was read.
pub open spec fn uniffi_search<P: EnvProbe>(
    probe: &P,
    root: Seq<char>,
    root_manifest: Option<Seq<char>>,
    manifests: Seq<Option<Seq<char>>>,
    r: Option<Seq<char>>,
) -> bool {
    &&& answered_read(probe, join(root, "Cargo.toml"@), root_manifest)
    &&& match root_manifest {
        None => r is None,
        Some(c) => {
            &&& manifests.len() <= spec_workspace_members(c).len()
            &&& forall|k: int|
                0 <= k < manifests.len() ==> #[trigger] answered_read(
                    probe,
                    member_manifest_path(root, spec_workspace_members(c)[k]),
                    manifests[k],
                )
            &&& r == first_uniffi_member(spec_workspace_members(c), manifests)
            &&& (r is None ==> manifests.len() == spec_workspace_members(c).len())
        },
    }
}

/// The workspace member holding the UniFFI-decorated code, which also
/// hosts the `uniffi-bindgen` binary: the first member whose manifest
/// mentions `uniffi`. `None` when the root manifest cannot be read or no
/// member qualifies; it is never guessed.
pub fn find_uniffi_bindgen_member<P: EnvProbe>(probe: &P, project_root: &str) -> (r: Option<String>)
    ensures
        r matches Some(m) ==> exists|root_manifest: Seq<char>, k: int|
            0 <= k < spec_workspace_members(root_manifest).len() && #[trigger] spec_workspace_members(
                root_manifest,
            )[k] == m@,
        exists|root_manifest: Option<Seq<char>>, manifests: Seq<Option<Seq<char>>>|
            #[trigger] uniffi_search(probe, project_root@, root_manifest, manifests, r.deep_view()),
{
    let root_toml = join_path(project_root, "Cargo.toml");
    let rp = root_toml.as_str();
    let root_read = probe.read_to_string(rp);
    assert(call_ensures(P::read_to_string, (probe, rp), root_read));
    assert(answered_read(probe, join(project_root@, "Cargo.toml"@), root_read.deep_view()));
    let content = match root_read {
        Some(c) => c,
        None => {
            assert(uniffi_search(probe, project_root@, None, Seq::empty(), None));
            return None;
        },
    };
    assert(answered_read(probe, join(project_root@, "Cargo.toml"@), Some(content@)));
    let members = workspace_members(content.as_str());
    let ghost mv = members.deep_view();
    let ghost mut ms: Seq<Option<Seq<char>>> = Seq::empty();
    let mut i: usize = 0;
    while i < members.len()
        invariant
            i <= members@.len(),
            mv == members.deep_view(),
            mv == spec_workspace_members(content@),
            answered_read(probe, join(project_root@, "Cargo.toml"@), Some(content@)),
            ms.len() == i,
            forall|k: int|
                0 <= k < i ==> #[trigger] answered_read(
                    probe,
                    member_manifest_path(project_root@, mv[k]),
                    ms[k],
                ),
            forall|k: int| 0 <= k < i ==> !manifest_mentions_uniffi(ms[k]),
        decreases members.len() - i,
    {
        let member_dir = join_path(project_root, members[i].as_str());
        let manifest = join_path(member_dir.as_str(), "Cargo.toml");
        let mp = manifest.as_str();
        let read = probe.read_to_string(mp);
        let ghost rd = read.deep_view();
        assert(mv[i as int] == members@[i as int]@);
        assert(call_ensures(P::read_to_string, (probe, mp), read));
        assert(answered_read(probe, member_manifest_path(project_root@, mv[i as int]), rd));
        let ghost old_ms = ms;
        proof {
            ms = ms.push(rd);
        }
        assert forall|k: int| 0 <= k < i + 1 implies #[trigger] answered_read(
            probe,
            member_manifest_path(project_root@, mv[k]),
            ms[k],
        ) by {
            if k < i {
                assert(ms[k] == old_ms[k]);
            }
        }
        if let Some(c) = read {
            if str_contains(c.as_str(), "uniffi") {
                let m = members[i].clone();
                assert(m@ == members@[i as int]@);
                assert(spec_workspace_members(content@)[i as int] == m@);
                assert(manifest_mentions_uniffi(ms[i as int]));
                proof {
                    lemma_first_uniffi_member_at(mv, ms, i as int);
                }
                assert(Some(m).deep_view() == first_uniffi_member(spec_workspace_members(content@), ms));
                assert(uniffi_search(probe, project_root@, Some(content@), ms, Some(m@)));
                return Some(m);
            }
        }
        assert(!manifest_mentions_uniffi(ms[i as int]));
        assert forall|k: int| 0 <= k < i + 1 implies !manifest_mentions_uniffi(ms[k]) by {
            if k < i {
                assert(ms[k] == old_ms[k]);
            }
        }
        i = i + 1;
    }
    proof {
        lemma_first_uniffi_member_at(mv, ms, i as int);
    }
    let r: Option<String> = None;
    assert(r.deep_view() == None::<Seq<char>>);
    assert(uniffi_search(probe, project_root@, Some(content@), ms, r.deep_view()));
    r
}

} // verus!
