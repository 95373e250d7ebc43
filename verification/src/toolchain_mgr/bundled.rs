//! The bundled-tier catalog. Each entry names a package only for the
//! backends where the name was researched and confirmed; a missing key
//! means "not confirmed yet", never a guessed placeholder.

use crate::env_scanner::command::CommandRunner;
use crate::text::str_eq;
use crate::toolchain_mgr::backend::PackageBackend;
use crate::toolchain_mgr::error::ToolchainError;
use crate::toolchain_mgr::recorder::{
    current_unix_timestamp, install_record, is_install_record, InstallRecorder,
};
use crate::types::InstallRecord;
use vstd::prelude::*;

verus! {

/// A tool of the catalog and its confirmed package name per backend name.
pub struct BundledToolSpec {
    pub id: &'static str,
    pub package_by_backend: &'static [(&'static str, &'static str)],
}

/// The package confirmed for `backend` in a catalog entry's pairs: the
/// first pair whose backend name matches.
pub open spec fn spec_package_for(pairs: Seq<(Seq<char>, Seq<char>)>, backend: Seq<char>) -> Option<
    Seq<char>,
>
    decreases pairs.len(),
{
    if pairs.len() == 0 {
        None
    } else if pairs[0].0 == backend {
        Some(pairs[0].1)
    } else {
        spec_package_for(pairs.drop_first(), backend)
    }
}

pub proof fn lemma_package_for_at(pairs: Seq<(Seq<char>, Seq<char>)>, backend: Seq<char>, i: int)
    requires
        0 <= i <= pairs.len(),
        i < pairs.len() ==> pairs[i].0 == backend,
        forall|k: int| 0 <= k < i ==> pairs[k].0 != backend,
    ensures
        spec_package_for(pairs, backend) == (if i < pairs.len() {
            Some(pairs[i].1)
        } else {
            None::<Seq<char>>
        }),
    decreases i,
{
    if i > 0 {
        assert forall|k: int| 0 <= k < i - 1 implies pairs.drop_first()[k].0 != backend by {
            assert(pairs.drop_first()[k] == pairs[k + 1]);
        }
        lemma_package_for_at(pairs.drop_first(), backend, i - 1);
    }
}

/// The JDK, compatible with today's Android Gradle Plugin. On apt,
/// `default-jdk` is a meta-package that keeps resolving across releases
/// that drop numbered packages; `jdk-openjdk` is Arch's rolling package.
pub fn jdk_tool() -> (r: BundledToolSpec)
    ensures
        r.id@ == "jdk"@,
        r.package_by_backend.deep_view() == seq![
            ("apt"@, "default-jdk"@),
            ("pacman"@, "jdk-openjdk"@),
            ("yay"@, "jdk-openjdk"@),
            ("pkg"@, "openjdk-17"@),
        ],
{
    let r = BundledToolSpec {
        id: "jdk",
        package_by_backend: &[
            ("apt", "default-jdk"),
            ("pacman", "jdk-openjdk"),
            ("yay", "jdk-openjdk"),
            ("pkg", "openjdk-17"),
        ],
    };
    assert(r.package_by_backend.deep_view() =~= seq![
        ("apt"@, "default-jdk"@),
        ("pacman"@, "jdk-openjdk"@),
        ("yay"@, "jdk-openjdk"@),
        ("pkg"@, "openjdk-17"@),
    ]);
    r
}

/// The Android SDK meta-package. Plain `pacman` has no official package
/// (only AUR through `yay` has one) and Termux has none at all.
pub fn android_sdk_tool() -> (r: BundledToolSpec)
    ensures
        r.id@ == "android_sdk"@,
        r.package_by_backend.deep_view() == seq![("apt"@, "android-sdk"@), ("yay"@, "android-sdk"@)],
{
    let r = BundledToolSpec {
        id: "android_sdk",
        package_by_backend: &[("apt", "android-sdk"), ("yay", "android-sdk")],
    };
    assert(r.package_by_backend.deep_view() =~= seq![
        ("apt"@, "android-sdk"@),
        ("yay"@, "android-sdk"@),
    ]);
    r
}

/// The confirmed package name for a backend; `None` means the combination
/// has not been researched and confirmed.
pub fn package_name_for(spec: &BundledToolSpec, backend_name: &str) -> (r: Option<&'static str>)
    ensures
        r.deep_view() == spec_package_for(spec.package_by_backend.deep_view(), backend_name@),
{
    let pairs = spec.package_by_backend;
    let mut i: usize = 0;
    while i < pairs.len()
        invariant
            i <= pairs@.len(),
            pairs == spec.package_by_backend,
            forall|k: int| 0 <= k < i ==> pairs.deep_view()[k].0 != backend_name@,
        decreases pairs.len() - i,
    {
        let (name, pkg) = pairs[i];
        assert(pairs.deep_view()[i as int] == (name@, pkg@));
        if str_eq(name, backend_name) {
            proof {
                lemma_package_for_at(pairs.deep_view(), backend_name@, i as int);
            }
            return Some(pkg);
        }
        i = i + 1;
    }
    proof {
        lemma_package_for_at(pairs.deep_view(), backend_name@, i as int);
    }
    None
}

/// One install attempt of `package` for the tool `tool_id`: `r` is what
/// installing `package` through the backend answered, as the backend
/// states it, and a record of exactly that result,
/// stamped with the clock's timestamp, was handed to the recorder.
pub open spec fn install_attempt<R: CommandRunner, B: PackageBackend<R>, Rec: InstallRecorder>(
    runner: &R,
    backend: &B,
    tool_id: Seq<char>,
    recorder: &Rec,
    package: Seq<char>,
    r: Result<(), ToolchainError>,
) -> bool {
    &&& backend.install_answered(runner, package, r)
    &&& exists|ts: u64, rec: InstallRecord, recorded: Result<String, ToolchainError>|
        #[trigger] call_ensures(current_unix_timestamp, (), ts) && is_install_record(
            rec,
            tool_id,
            backend.spec_name(),
            package,
            ts,
            r,
        ) && #[trigger] call_ensures(Rec::record, (recorder, &rec), recorded)
}

/// Installs a catalog tool through the selected backend. An unconfirmed
/// tool/backend pair fails with `NoPackageForBackend`: nothing is guessed
/// and no other backend is tried. After every attempt, successful or not, a
/// record is handed to `recorder`; a failure to record never hides the
/// install's own result.
pub fn install_bundled_tool<R: CommandRunner, B: PackageBackend<R>, Rec: InstallRecorder>(
    runner: &R,
    backend: &B,
    spec: &BundledToolSpec,
    recorder: &Rec,
) -> (r: Result<(), ToolchainError>)
    ensures
        spec_package_for(spec.package_by_backend.deep_view(), backend.spec_name()) is None ==> (
        r matches Err(ToolchainError::NoPackageForBackend { tool, backend: b }) && tool@ == spec.id@
            && b@ == backend.spec_name()),
        spec_package_for(spec.package_by_backend.deep_view(), backend.spec_name()) matches Some(
            p,
        ) ==> install_attempt(runner, backend, spec.id@, recorder, p, r) && (r matches Err(e) ==> (
        e matches ToolchainError::InstallFailed { backend: b, package, .. } && b@
            == backend.spec_name() && package@ == p)),
{
    let name = backend.name();
    let package = match package_name_for(spec, name) {
        Some(p) => p,
        None => {
            return Err(ToolchainError::NoPackageForBackend { tool: spec.id, backend: name });
        },
    };
    let result = backend.install(runner, package);
    let ts = current_unix_timestamp();
    assert(call_ensures(current_unix_timestamp, (), ts));
    let record = install_record(spec.id, name, package, ts, &result);
    let recorded = recorder.record(&record);
    assert(call_ensures(Rec::record, (recorder, &record), recorded));
    assert(install_attempt(runner, backend, spec.id@, recorder, package@, result));
    result
}

} // verus!
