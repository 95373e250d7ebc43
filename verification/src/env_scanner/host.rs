//! Host-environment detection behind the `EnvProbe` abstraction.

use crate::text::{contains, lowercase, str_contains, str_eq, to_lowercase};
use crate::types::{HostArch, HostEnvironment, HostKind};
use vstd::prelude::*;

verus! {

/// The environment resources (variables, file system) that detection reads.
/// Implementations read the real system or fake data; nothing is assumed of
/// what they report, and two reads of one resource may differ.
pub trait EnvProbe {
    fn read_env(&self, key: &str) -> Option<String>;

    fn path_exists(&self, path: &str) -> bool;

    fn read_to_string(&self, path: &str) -> Option<String>;

    /// Names of a path's direct subdirectories; empty on any error.
    fn list_dir(&self, path: &str) -> Vec<String>;

    /// Up to `max_len` leading bytes of a file. The default reads nothing.
    fn read_bytes(&self, path: &str, max_len: usize) -> (r: Option<Vec<u8>>)
        default_ensures
            r is None,
    {
        None
    }
}

/// `probe` answered `answer` when asked whether `path` exists.
pub open spec fn answered_exists<P: EnvProbe>(probe: &P, path: Seq<char>, answer: bool) -> bool {
    exists|p: &str| p@ == path && #[trigger] call_ensures(P::path_exists, (probe, p), answer)
}

/// `probe` answered `content` when asked to read the file at `path`.
pub open spec fn answered_read<P: EnvProbe>(probe: &P, path: Seq<char>, content: Option<Seq<char>>) -> bool {
    exists|p: &str, o: Option<String>|
        p@ == path && o.deep_view() == content && #[trigger] call_ensures(P::read_to_string, (probe, p), o)
}

/// `probe` answered `names` when asked for the subdirectories of `path`.
pub open spec fn answered_list<P: EnvProbe>(probe: &P, path: Seq<char>, names: Seq<Seq<char>>) -> bool {
    exists|p: &str, v: Vec<String>|
        p@ == path && v.deep_view() == names && #[trigger] call_ensures(P::list_dir, (probe, p), v)
}

/// `probe` answered `value` when asked for the environment variable `key`.
pub open spec fn answered_env<P: EnvProbe>(probe: &P, key: Seq<char>, value: Option<Seq<char>>) -> bool {
    exists|k: &str, o: Option<String>|
        k@ == key && o.deep_view() == value && #[trigger] call_ensures(P::read_env, (probe, k), o)
}

/// `probe` answered `bytes` when asked for up to `max_len` leading bytes of
/// the file at `path`.
pub open spec fn answered_bytes<P: EnvProbe>(
    probe: &P,
    path: Seq<char>,
    max_len: usize,
    bytes: Option<Seq<u8>>,
) -> bool {
    exists|p: &str, o: Option<Vec<u8>>|
        p@ == path && o.deep_view() == bytes && #[trigger] call_ensures(
            P::read_bytes,
            (probe, p, max_len),
            o,
        )
}

/// The architecture named by a compile-time target architecture string.
pub open spec fn spec_host_arch(arch: Seq<char>) -> HostArch {
    if arch == "aarch64"@ {
        HostArch::Aarch64
    } else if arch == "x86_64"@ {
        HostArch::X86_64
    } else {
        HostArch::Unknown
    }
}

/// Whether an `/etc/os-release` text names Kali, case-insensitively.
pub open spec fn is_kali_release(os_release: Option<Seq<char>>) -> bool {
    os_release matches Some(r) && contains(lowercase(r), "kali"@)
}

/// The host kind, from the target operating system, whether `/termux` or
/// `/sdcard` exists, the os-release text and whether `TERMUX_VERSION` is set.
/// Checks run from the most specific to the most generic.
pub open spec fn spec_host_kind(
    os: Seq<char>,
    android_signal: bool,
    os_release: Option<Seq<char>>,
    termux_version: bool,
) -> HostKind {
    if os == "windows"@ {
        HostKind::Windows
    } else if os == "macos"@ {
        HostKind::MacOs
    } else if os != "linux"@ {
        HostKind::Unknown
    } else if android_signal && is_kali_release(os_release) {
        HostKind::KaliNetHunterProot
    } else if termux_version {
        HostKind::Termux
    } else {
        HostKind::NativeLinux
    }
}

/// The architecture for a target architecture string such as `aarch64`.
pub fn detect_host_arch(target_arch: &str) -> (r: HostArch)
    ensures
        r == spec_host_arch(target_arch@),
{
    if str_eq(target_arch, "aarch64") {
        HostArch::Aarch64
    } else if str_eq(target_arch, "x86_64") {
        HostArch::X86_64
    } else {
        HostArch::Unknown
    }
}

/// Whether an os-release text names Kali.
pub fn release_is_kali(os_release: &Option<String>) -> (r: bool)
    ensures
        r == is_kali_release(os_release.deep_view()),
{
    match os_release {
        Some(text) => {
            let lower = to_lowercase(text.as_str());
            str_contains(lower.as_str(), "kali")
        },
        None => false,
    }
}

/// The host kind from already observed signals.
pub fn host_kind_from(
    target_os: &str,
    android_signal: bool,
    os_release: &Option<String>,
    termux_version_set: bool,
) -> (r: HostKind)
    ensures
        r == spec_host_kind(target_os@, android_signal, os_release.deep_view(), termux_version_set),
{
    if str_eq(target_os, "windows") {
        return HostKind::Windows;
    }
    if str_eq(target_os, "macos") {
        return HostKind::MacOs;
    }
    if !str_eq(target_os, "linux") {
        return HostKind::Unknown;
    }
    if android_signal && release_is_kali(os_release) {
        return HostKind::KaliNetHunterProot;
    }
    if termux_version_set {
        HostKind::Termux
    } else {
        HostKind::NativeLinux
    }
}

/// What probing a Linux host answered: `/termux` exists, or else whether
/// `/sdcard` exists, gives the Android signal; `/etc/os-release` was read;
/// `TERMUX_VERSION` was read unless the first two already mark a Kali
/// NetHunter proot.
pub open spec fn host_kind_answers<P: EnvProbe>(
    probe: &P,
    android_signal: bool,
    os_release: Option<Seq<char>>,
    termux_version: bool,
) -> bool {
    &&& (answered_exists(probe, "/termux"@, true) && android_signal) || (answered_exists(
        probe,
        "/termux"@,
        false,
    ) && answered_exists(probe, "/sdcard"@, android_signal))
    &&& answered_read(probe, "/etc/os-release"@, os_release)
    &&& if android_signal && is_kali_release(os_release) {
        !termux_version
    } else {
        exists|v: Option<Seq<char>>|
            #[trigger] answered_env(probe, "TERMUX_VERSION"@, v) && termux_version == v is Some
    }
}

/// `kind` is the host kind detected on `target_os` from what the probe
/// answered; a target other than Linux is not probed.
pub open spec fn kind_detected<P: EnvProbe>(probe: &P, target_os: Seq<char>, kind: HostKind) -> bool {
    if target_os == "linux"@ {
        exists|android_signal: bool, os_release: Option<Seq<char>>, termux_version: bool|
            #[trigger] host_kind_answers(probe, android_signal, os_release, termux_version) && kind
                == spec_host_kind(target_os, android_signal, os_release, termux_version)
    } else {
        kind == spec_host_kind(target_os, false, None, false)
    }
}

/// Detects the host kind on the given target operating system (`linux`,
/// `windows`, `macos`, ...). Only a Linux target is probed: `/termux` or
/// `/sdcard` together with a Kali os-release marks a Kali NetHunter proot,
/// `TERMUX_VERSION` marks plain Termux, anything else is native Linux.
pub fn detect_host_kind<P: EnvProbe>(probe: &P, target_os: &str) -> (r: HostKind)
    ensures
        kind_detected(probe, target_os@, r),
{
    if !str_eq(target_os, "linux") {
        let none: Option<String> = None;
        return host_kind_from(target_os, false, &none, false);
    }
    let termux_dir = probe.path_exists("/termux");
    let android_signal = if termux_dir {
        true
    } else {
        probe.path_exists("/sdcard")
    };
    let os_release = probe.read_to_string("/etc/os-release");
    assert(answered_read(probe, "/etc/os-release"@, os_release.deep_view()));
    let kali = android_signal && release_is_kali(&os_release);
    let termux = if kali {
        false
    } else {
        let v = probe.read_env("TERMUX_VERSION");
        assert(answered_env(probe, "TERMUX_VERSION"@, v.deep_view()));
        v.is_some()
    };
    assert(host_kind_answers(probe, android_signal, os_release.deep_view(), termux));
    host_kind_from(target_os, android_signal, &os_release, termux)
}

/// The home directory from `HOME` and `USERPROFILE`: the first that is
/// set, else `.`.
pub open spec fn spec_home_dir(home: Option<Seq<char>>, user_profile: Option<Seq<char>>) -> Seq<char> {
    match home {
        Some(h) => h,
        None => match user_profile {
            Some(p) => p,
            None => "."@,
        },
    }
}

/// The shell from `SHELL`, else `unknown`.
pub open spec fn spec_shell(shell: Option<Seq<char>>) -> Seq<char> {
    match shell {
        Some(s) => s,
        None => "unknown"@,
    }
}

/// Whether a real `systemd` is absent although its binaries are installed:
/// `systemd-sysusers` exists but `/run/systemd/system`, which only a booted
/// systemd creates, does not.
pub fn detect_systemd_stubbed<P: EnvProbe>(probe: &P) -> (r: bool)
    ensures
        systemd_detected(probe, r),
{
    let binary_present = probe.path_exists("/usr/bin/systemd-sysusers") || probe.path_exists(
        "/bin/systemd-sysusers",
    );
    let actually_running = probe.path_exists("/run/systemd/system");
    binary_present && !actually_running
}

/// What reading `HOME`, and `USERPROFILE` when `HOME` is unset, answered.
pub open spec fn home_answers<P: EnvProbe>(
    probe: &P,
    home: Option<Seq<char>>,
    user_profile: Option<Seq<char>>,
) -> bool {
    &&& answered_env(probe, "HOME"@, home)
    &&& home is None ==> answered_env(probe, "USERPROFILE"@, user_profile)
}

/// `dir` is the home directory given what the probe answered.
pub open spec fn home_detected<P: EnvProbe>(probe: &P, dir: Seq<char>) -> bool {
    exists|home: Option<Seq<char>>, user_profile: Option<Seq<char>>|
        #[trigger] home_answers(probe, home, user_profile) && dir == spec_home_dir(home, user_profile)
}

/// `shell` is the shell given what the probe answered for `SHELL`.
pub open spec fn shell_detected<P: EnvProbe>(probe: &P, shell: Seq<char>) -> bool {
    exists|v: Option<Seq<char>>| #[trigger] answered_env(probe, "SHELL"@, v) && shell == spec_shell(v)
}

/// `stubbed` is the systemd verdict given what the probe answered.
pub open spec fn systemd_detected<P: EnvProbe>(probe: &P, stubbed: bool) -> bool {
    &&& stubbed ==> (answered_exists(probe, "/usr/bin/systemd-sysusers"@, true) || answered_exists(
        probe,
        "/bin/systemd-sysusers"@,
        true,
    )) && answered_exists(probe, "/run/systemd/system"@, false)
    &&& !stubbed ==> (answered_exists(probe, "/usr/bin/systemd-sysusers"@, false) && answered_exists(
        probe,
        "/bin/systemd-sysusers"@,
        false,
    )) || answered_exists(probe, "/run/systemd/system"@, true)
}

/// `HOME`, else `USERPROFILE` (Windows has no `HOME`), else `.`.
pub fn detect_home_dir<P: EnvProbe>(probe: &P) -> (r: String)
    ensures
        home_detected(probe, r@),
{
    let home = probe.read_env("HOME");
    assert(answered_env(probe, "HOME"@, home.deep_view()));
    match home {
        Some(home) => {
            assert(home_answers(probe, Some(home@), None));
            home
        },
        None => {
            let profile = probe.read_env("USERPROFILE");
            assert(answered_env(probe, "USERPROFILE"@, profile.deep_view()));
            assert(home_answers(probe, None, profile.deep_view()));
            match profile {
                Some(profile) => profile,
                None => ".".to_owned(),
            }
        },
    }
}

/// `SHELL`, else `unknown`.
pub fn detect_shell<P: EnvProbe>(probe: &P) -> (r: String)
    ensures
        shell_detected(probe, r@),
{
    let shell = probe.read_env("SHELL");
    assert(answered_env(probe, "SHELL"@, shell.deep_view()));
    match shell {
        Some(shell) => shell,
        None => "unknown".to_owned(),
    }
}

/// Full host detection for the given compile-time target: each field is
/// what its own detection gives from the probe's answers.
pub fn detect_host_environment<P: EnvProbe>(probe: &P, target_os: &str, target_arch: &str) -> (r:
    HostEnvironment)
    ensures
        r.arch == spec_host_arch(target_arch@),
        kind_detected(probe, target_os@, r.kind),
        home_detected(probe, r.home_dir@),
        shell_detected(probe, r.shell@),
        systemd_detected(probe, r.systemd_stubbed),
{
    HostEnvironment {
        kind: detect_host_kind(probe, target_os),
        arch: detect_host_arch(target_arch),
        home_dir: detect_home_dir(probe),
        shell: detect_shell(probe),
        systemd_stubbed: detect_systemd_stubbed(probe),
    }
}

/// A Kali NetHunter proot is recognised only on Linux and only when both
/// signals agree: an Android path (`/termux` or `/sdcard`) and a Kali
/// os-release. Either signal alone is not enough.
pub proof fn law_proot_needs_both_signals(
    os: Seq<char>,
    android_signal: bool,
    os_release: Option<Seq<char>>,
    termux_version: bool,
)
    ensures
        spec_host_kind(os, android_signal, os_release, termux_version) == HostKind::KaliNetHunterProot
            <==> (os == "linux"@ && android_signal && is_kali_release(os_release)),
{
    reveal_strlit("linux");
    reveal_strlit("windows");
    reveal_strlit("macos");
    assert("linux"@[0] != "windows"@[0]);
    assert("linux"@[0] != "macos"@[0]);
}

} // verus!
