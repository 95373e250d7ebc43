//! The package-installation abstraction: no other code calls `apt`,
//! `pacman`, `pkg`, `winget`, `choco` or `brew` directly, only through the
//! implementations of `PackageBackend`.

use crate::env_scanner::command::{
    failure_text, ran, take_failure_text, CommandOutput, CommandRunner,
};
use crate::toolchain_mgr::error::ToolchainError;
use crate::types::HostKind;
use vstd::prelude::*;
use vstd::string::StringExecFns;

verus! {

/// The package managers the tool knows how to drive.
#[derive(Debug, Clone, Copy, PartialEq, Eq, Structural)]
pub enum BackendKind {
    Apt,
    Pacman,
    Yay,
    TermuxPkg,
    Winget,
    Choco,
    Homebrew,
}

/// The name a backend reports itself by.
pub open spec fn spec_backend_name(k: BackendKind) -> Seq<char> {
    match k {
        BackendKind::Apt => "apt"@,
        BackendKind::Pacman => "pacman"@,
        BackendKind::Yay => "yay"@,
        BackendKind::TermuxPkg => "pkg"@,
        BackendKind::Winget => "winget"@,
        BackendKind::Choco => "choco"@,
        BackendKind::Homebrew => "brew"@,
    }
}

/// The program a backend runs.
pub open spec fn spec_backend_program(k: BackendKind) -> Seq<char> {
    match k {
        BackendKind::Apt => "apt-get"@,
        BackendKind::Pacman => "pacman"@,
        BackendKind::Yay => "yay"@,
        BackendKind::TermuxPkg => "pkg"@,
        BackendKind::Winget => "winget"@,
        BackendKind::Choco => "choco"@,
        BackendKind::Homebrew => "brew"@,
    }
}

/// The arguments with which a backend installs `package`.
pub open spec fn spec_install_args(k: BackendKind, package: Seq<char>) -> Seq<Seq<char>> {
    match k {
        BackendKind::Apt => seq!["install"@, "-y"@, package],
        BackendKind::Pacman => seq!["-S"@, "--noconfirm"@, package],
        BackendKind::Yay => seq!["-S"@, "--noconfirm"@, package],
        BackendKind::TermuxPkg => seq!["install"@, "-y"@, package],
        BackendKind::Winget => seq!["install"@, "-e"@, "--id"@, package],
        BackendKind::Choco => seq!["install"@, "-y"@, package],
        BackendKind::Homebrew => seq!["install"@, package],
    }
}

/// Candidate backends for a host kind, in priority order. `yay` comes
/// before plain `pacman` because it also reaches AUR-only packages.
pub open spec fn spec_candidates(h: HostKind) -> Seq<BackendKind> {
    match h {
        HostKind::Termux => seq![BackendKind::TermuxPkg],
        HostKind::KaliNetHunterProot => seq![BackendKind::Apt, BackendKind::Yay, BackendKind::Pacman],
        HostKind::NativeLinux => seq![BackendKind::Apt, BackendKind::Yay, BackendKind::Pacman],
        HostKind::Windows => seq![BackendKind::Winget, BackendKind::Choco],
        HostKind::MacOs => seq![BackendKind::Homebrew],
        HostKind::Unknown => Seq::empty(),
    }
}

/// The first candidate whose availability probe answered yes.
pub open spec fn spec_first_available(cands: Seq<BackendKind>, avail: Seq<bool>) -> Option<BackendKind>
    decreases cands.len(),
{
    if cands.len() == 0 || avail.len() == 0 {
        None
    } else if avail[0] {
        Some(cands[0])
    } else {
        spec_first_available(cands.drop_first(), avail.drop_first())
    }
}

/// A selection outcome as the selection functions report it.
pub open spec fn selection_result(o: Option<BackendKind>) -> Result<BackendKind, ToolchainError> {
    match o {
        Some(k) => Ok(k),
        None => Err(ToolchainError::NoBackendAvailable),
    }
}

/// What installing `package` through `program` gives for the observed
/// command outcome `out`: success only on a successful run; otherwise an
/// `InstallFailed` naming the backend and package, with the command's own
/// failure text, or a note that the program could not be run at all.
pub open spec fn install_outcome_matches(
    r: Result<(), ToolchainError>,
    name: Seq<char>,
    program: Seq<char>,
    package: Seq<char>,
    out: Option<CommandOutput>,
) -> bool {
    let ran_ok = out matches Some(o) && o.success;
    match r {
        Ok(_) => ran_ok,
        Err(e) => !ran_ok && (e matches ToolchainError::InstallFailed { backend, package: p, reason }
            && backend@ == name && p@ == package && reason@ == (match out {
            Some(o) => failure_text(o),
            None => "could not execute `"@ + program + "`"@,
        })),
    }
}

pub proof fn lemma_first_available_at(cands: Seq<BackendKind>, avail: Seq<bool>, i: int)
    requires
        avail.len() == cands.len(),
        0 <= i <= cands.len(),
        i < cands.len() ==> avail[i],
        forall|k: int| 0 <= k < i ==> !avail[k],
    ensures
        spec_first_available(cands, avail) == (if i < cands.len() {
            Some(cands[i])
        } else {
            None::<BackendKind>
        }),
    decreases i,
{
    if i > 0 {
        assert forall|k: int| 0 <= k < i - 1 implies !avail.drop_first()[k] by {
            assert(avail.drop_first()[k] == avail[k + 1]);
        }
        lemma_first_available_at(cands.drop_first(), avail.drop_first(), i - 1);
    }
}

/// The selected backend is one of the candidates, found available before
/// any later one was probed.
pub proof fn lemma_first_available_is_candidate(cands: Seq<BackendKind>, avail: Seq<bool>)
    ensures
        spec_first_available(cands, avail) matches Some(k) ==> cands.contains(k),
    decreases cands.len(),
{
    if cands.len() > 0 && avail.len() > 0 && !avail[0] {
        lemma_first_available_is_candidate(cands.drop_first(), avail.drop_first());
        if let Some(k) = spec_first_available(cands, avail) {
            let j = choose|j: int| 0 <= j < cands.drop_first().len() && cands.drop_first()[j] == k;
            assert(cands[j + 1] == k);
        }
    } else if cands.len() > 0 && avail.len() > 0 {
        assert(cands[0] == cands[0]);
    }
}

impl BackendKind {
    /// The backend's name, for error reports and logs, not for decisions.
    pub fn name(&self) -> (r: &'static str)
        ensures
            r@ == spec_backend_name(*self),
    {
        match self {
            BackendKind::Apt => "apt",
            BackendKind::Pacman => "pacman",
            BackendKind::Yay => "yay",
            BackendKind::TermuxPkg => "pkg",
            BackendKind::Winget => "winget",
            BackendKind::Choco => "choco",
            BackendKind::Homebrew => "brew",
        }
    }

    /// The program this backend runs.
    pub fn program(&self) -> (r: &'static str)
        ensures
            r@ == spec_backend_program(*self),
    {
        match self {
            BackendKind::Apt => "apt-get",
            BackendKind::Pacman => "pacman",
            BackendKind::Yay => "yay",
            BackendKind::TermuxPkg => "pkg",
            BackendKind::Winget => "winget",
            BackendKind::Choco => "choco",
            BackendKind::Homebrew => "brew",
        }
    }

    /// The arguments with which this backend installs `package`.
    pub fn install_args<'a>(&self, package: &'a str) -> (r: Vec<&'a str>)
        ensures
            r.deep_view() == spec_install_args(*self, package@),
    {
        let r: Vec<&'a str> = match self {
            BackendKind::Apt => vec!["install", "-y", package],
            BackendKind::Pacman => vec!["-S", "--noconfirm", package],
            BackendKind::Yay => vec!["-S", "--noconfirm", package],
            BackendKind::TermuxPkg => vec!["install", "-y", package],
            BackendKind::Winget => vec!["install", "-e", "--id", package],
            BackendKind::Choco => vec!["install", "-y", package],
            BackendKind::Homebrew => vec!["install", package],
        };
        assert(r.deep_view() =~= spec_install_args(*self, package@));
        r
    }
}

/// A real way to install a package on a specific host.
pub trait PackageBackend<R: CommandRunner>: Send + Sync {
    /// The backend's name, for reports.
    spec fn spec_name(&self) -> Seq<char>;

    /// The backend's name, for error reports and logs, not for decisions.
    fn name(&self) -> (r: &'static str)
        ensures
            r@ == self.spec_name(),
    ;

    /// Whether the backend is really usable here, confirmed by running a
    /// harmless command, never assumed from the host kind.
    fn is_available(&self, runner: &R) -> bool;

    /// Whether `r` is what installing `package` through this backend with
    /// `runner` answered, as the backend states it.
    spec fn install_answered(
        &self,
        runner: &R,
        package: Seq<char>,
        r: Result<(), ToolchainError>,
    ) -> bool;

    /// Installs a package; a failure names this backend and the package.
    fn install(&self, runner: &R, package: &str) -> (r: Result<(), ToolchainError>)
        ensures
            self.install_answered(runner, package@, r),
            r matches Err(e) ==> (e matches ToolchainError::InstallFailed { backend, package: p, .. }
                && backend@ == self.spec_name() && p@ == package@),
    ;
}

/// Decides an install's result from what running the install command gave.
pub fn install_outcome(
    backend_name: &'static str,
    program: &str,
    package: &str,
    out: Option<CommandOutput>,
) -> (r: Result<(), ToolchainError>)
    ensures
        install_outcome_matches(r, backend_name@, program@, package@, out),
{
    let ghost o = out;
    match out {
        Some(out) => {
            if out.success {
                Ok(())
            } else {
                Err(
                    ToolchainError::InstallFailed {
                        backend: backend_name,
                        package: package.to_owned(),
                        reason: take_failure_text(out),
                    },
                )
            }
        },
        None => {
            let mut reason = "could not execute `".to_owned();
            reason.append(program);
            reason.append("`");
            Err(ToolchainError::InstallFailed { backend: backend_name, package: package.to_owned(), reason })
        },
    }
}

fn run_install<R: CommandRunner>(
    runner: &R,
    backend_name: &'static str,
    program: &str,
    args: &[&str],
    package: &str,
) -> (r: Result<(), ToolchainError>)
    ensures
        exists|out: Option<CommandOutput>|
            #[trigger] ran(runner, program@, args.deep_view(), out) && install_outcome_matches(
                r,
                backend_name@,
                program@,
                package@,
                out,
            ),
{
    let out = runner.run(program, args);
    let ghost o = out;
    assert(call_ensures(R::run, (runner, program, args), o));
    assert(ran(runner, program@, args.deep_view(), o));
    let r = install_outcome(backend_name, program, package, out);
    assert(install_outcome_matches(r, backend_name@, program@, package@, o));
    r
}

impl<R: CommandRunner> PackageBackend<R> for BackendKind {
    open spec fn spec_name(&self) -> Seq<char> {
        spec_backend_name(*self)
    }

    /// The backend's program was run with its install arguments, and `r`
    /// follows what that run gave.
    open spec fn install_answered(
        &self,
        runner: &R,
        package: Seq<char>,
        r: Result<(), ToolchainError>,
    ) -> bool {
        exists|out: Option<CommandOutput>|
            #[trigger] ran(runner, spec_backend_program(*self), spec_install_args(*self, package), out)
                && install_outcome_matches(
                r,
                spec_backend_name(*self),
                spec_backend_program(*self),
                package,
                out,
            )
    }

    fn name(&self) -> (r: &'static str) {
        BackendKind::name(self)
    }

    fn is_available(&self, runner: &R) -> (r: bool)
        ensures
            exists|out: Option<CommandOutput>|
                ran(runner, spec_backend_program(*self), seq!["--version"@], out) && r == out is Some,
    {
        let args = vec!["--version"];
        let a = args.as_slice();
        let p = self.program();
        let out = runner.run(p, a);
        assert(a.deep_view() =~= seq!["--version"@]);
        assert(call_ensures(R::run, (runner, p, a), out));
        assert(ran(runner, spec_backend_program(*self), seq!["--version"@], out));
        out.is_some()
    }

    fn install(&self, runner: &R, package: &str) -> (r: Result<(), ToolchainError>)
        ensures
            exists|out: Option<CommandOutput>|
                install_outcome_matches(
                    r,
                    spec_backend_name(*self),
                    spec_backend_program(*self),
                    package@,
                    out,
                ),
    {
        let args = self.install_args(package);
        let a = args.as_slice();
        let r = run_install(runner, self.name(), self.program(), a, package);
        assert(a.deep_view() == spec_install_args(*self, package@));
        r
    }
}

/// Debian-family `apt-get`.
pub struct AptBackend;

impl<R: CommandRunner> PackageBackend<R> for AptBackend {
    open spec fn spec_name(&self) -> Seq<char> {
        "apt"@
    }

    open spec fn install_answered(
        &self,
        runner: &R,
        package: Seq<char>,
        r: Result<(), ToolchainError>,
    ) -> bool {
        PackageBackend::<R>::install_answered(&BackendKind::Apt, runner, package, r)
    }

    fn name(&self) -> (r: &'static str) {
        BackendKind::Apt.name()
    }

    fn is_available(&self, runner: &R) -> (r: bool)
        ensures
            exists|out: Option<CommandOutput>|
                ran(runner, spec_backend_program(BackendKind::Apt), seq!["--version"@], out) && r
                    == out is Some,
    {
        PackageBackend::<R>::is_available(&BackendKind::Apt, runner)
    }

    fn install(&self, runner: &R, package: &str) -> (r: Result<(), ToolchainError>)
        ensures
            exists|out: Option<CommandOutput>|
                install_outcome_matches(
                    r,
                    spec_backend_name(BackendKind::Apt),
                    spec_backend_program(BackendKind::Apt),
                    package@,
                    out,
                ),
    {
        PackageBackend::<R>::install(&BackendKind::Apt, runner, package)
    }
}

/// Plain Arch `pacman`.
pub struct PacmanBackend;

impl<R: CommandRunner> PackageBackend<R> for PacmanBackend {
    open spec fn spec_name(&self) -> Seq<char> {
        "pacman"@
    }

    open spec fn install_answered(
        &self,
        runner: &R,
        package: Seq<char>,
        r: Result<(), ToolchainError>,
    ) -> bool {
        PackageBackend::<R>::install_answered(&BackendKind::Pacman, runner, package, r)
    }

    fn name(&self) -> (r: &'static str) {
        BackendKind::Pacman.name()
    }

    fn is_available(&self, runner: &R) -> (r: bool)
        ensures
            exists|out: Option<CommandOutput>|
                ran(runner, spec_backend_program(BackendKind::Pacman), seq!["--version"@], out) && r
                    == out is Some,
    {
        PackageBackend::<R>::is_available(&BackendKind::Pacman, runner)
    }

    fn install(&self, runner: &R, package: &str) -> (r: Result<(), ToolchainError>)
        ensures
            exists|out: Option<CommandOutput>|
                install_outcome_matches(
                    r,
                    spec_backend_name(BackendKind::Pacman),
                    spec_backend_program(BackendKind::Pacman),
                    package@,
                    out,
                ),
    {
        PackageBackend::<R>::install(&BackendKind::Pacman, runner, package)
    }
}

/// `yay`, a practical superset of `pacman` that also reaches AUR-only packages such as `android-sdk`.
pub struct YayBackend;

impl<R: CommandRunner> PackageBackend<R> for YayBackend {
    open spec fn spec_name(&self) -> Seq<char> {
        "yay"@
    }

    open spec fn install_answered(
        &self,
        runner: &R,
        package: Seq<char>,
        r: Result<(), ToolchainError>,
    ) -> bool {
        PackageBackend::<R>::install_answered(&BackendKind::Yay, runner, package, r)
    }

    fn name(&self) -> (r: &'static str) {
        BackendKind::Yay.name()
    }

    fn is_available(&self, runner: &R) -> (r: bool)
        ensures
            exists|out: Option<CommandOutput>|
                ran(runner, spec_backend_program(BackendKind::Yay), seq!["--version"@], out) && r
                    == out is Some,
    {
        PackageBackend::<R>::is_available(&BackendKind::Yay, runner)
    }

    fn install(&self, runner: &R, package: &str) -> (r: Result<(), ToolchainError>)
        ensures
            exists|out: Option<CommandOutput>|
                install_outcome_matches(
                    r,
                    spec_backend_name(BackendKind::Yay),
                    spec_backend_program(BackendKind::Yay),
                    package@,
                    out,
                ),
    {
        PackageBackend::<R>::install(&BackendKind::Yay, runner, package)
    }
}

/// Termux `pkg`.
pub struct TermuxPkgBackend;

impl<R: CommandRunner> PackageBackend<R> for TermuxPkgBackend {
    open spec fn spec_name(&self) -> Seq<char> {
        "pkg"@
    }

    open spec fn install_answered(
        &self,
        runner: &R,
        package: Seq<char>,
        r: Result<(), ToolchainError>,
    ) -> bool {
        PackageBackend::<R>::install_answered(&BackendKind::TermuxPkg, runner, package, r)
    }

    fn name(&self) -> (r: &'static str) {
        BackendKind::TermuxPkg.name()
    }

    fn is_available(&self, runner: &R) -> (r: bool)
        ensures
            exists|out: Option<CommandOutput>|
                ran(runner, spec_backend_program(BackendKind::TermuxPkg), seq!["--version"@], out) && r
                    == out is Some,
    {
        PackageBackend::<R>::is_available(&BackendKind::TermuxPkg, runner)
    }

    fn install(&self, runner: &R, package: &str) -> (r: Result<(), ToolchainError>)
        ensures
            exists|out: Option<CommandOutput>|
                install_outcome_matches(
                    r,
                    spec_backend_name(BackendKind::TermuxPkg),
                    spec_backend_program(BackendKind::TermuxPkg),
                    package@,
                    out,
                ),
    {
        PackageBackend::<R>::install(&BackendKind::TermuxPkg, runner, package)
    }
}

/// Windows `winget`.
pub struct WingetBackend;

impl<R: CommandRunner> PackageBackend<R> for WingetBackend {
    open spec fn spec_name(&self) -> Seq<char> {
        "winget"@
    }

    open spec fn install_answered(
        &self,
        runner: &R,
        package: Seq<char>,
        r: Result<(), ToolchainError>,
    ) -> bool {
        PackageBackend::<R>::install_answered(&BackendKind::Winget, runner, package, r)
    }

    fn name(&self) -> (r: &'static str) {
        BackendKind::Winget.name()
    }

    fn is_available(&self, runner: &R) -> (r: bool)
        ensures
            exists|out: Option<CommandOutput>|
                ran(runner, spec_backend_program(BackendKind::Winget), seq!["--version"@], out) && r
                    == out is Some,
    {
        PackageBackend::<R>::is_available(&BackendKind::Winget, runner)
    }

    fn install(&self, runner: &R, package: &str) -> (r: Result<(), ToolchainError>)
        ensures
            exists|out: Option<CommandOutput>|
                install_outcome_matches(
                    r,
                    spec_backend_name(BackendKind::Winget),
                    spec_backend_program(BackendKind::Winget),
                    package@,
                    out,
                ),
    {
        PackageBackend::<R>::install(&BackendKind::Winget, runner, package)
    }
}

/// Windows Chocolatey.
pub struct ChocoBackend;

impl<R: CommandRunner> PackageBackend<R> for ChocoBackend {
    open spec fn spec_name(&self) -> Seq<char> {
        "choco"@
    }

    open spec fn install_answered(
        &self,
        runner: &R,
        package: Seq<char>,
        r: Result<(), ToolchainError>,
    ) -> bool {
        PackageBackend::<R>::install_answered(&BackendKind::Choco, runner, package, r)
    }

    fn name(&self) -> (r: &'static str) {
        BackendKind::Choco.name()
    }

    fn is_available(&self, runner: &R) -> (r: bool)
        ensures
            exists|out: Option<CommandOutput>|
                ran(runner, spec_backend_program(BackendKind::Choco), seq!["--version"@], out) && r
                    == out is Some,
    {
        PackageBackend::<R>::is_available(&BackendKind::Choco, runner)
    }

    fn install(&self, runner: &R, package: &str) -> (r: Result<(), ToolchainError>)
        ensures
            exists|out: Option<CommandOutput>|
                install_outcome_matches(
                    r,
                    spec_backend_name(BackendKind::Choco),
                    spec_backend_program(BackendKind::Choco),
                    package@,
                    out,
                ),
    {
        PackageBackend::<R>::install(&BackendKind::Choco, runner, package)
    }
}

/// macOS Homebrew.
pub struct HomebrewBackend;

impl<R: CommandRunner> PackageBackend<R> for HomebrewBackend {
    open spec fn spec_name(&self) -> Seq<char> {
        "brew"@
    }

    open spec fn install_answered(
        &self,
        runner: &R,
        package: Seq<char>,
        r: Result<(), ToolchainError>,
    ) -> bool {
        PackageBackend::<R>::install_answered(&BackendKind::Homebrew, runner, package, r)
    }

    fn name(&self) -> (r: &'static str) {
        BackendKind::Homebrew.name()
    }

    fn is_available(&self, runner: &R) -> (r: bool)
        ensures
            exists|out: Option<CommandOutput>|
                ran(runner, spec_backend_program(BackendKind::Homebrew), seq!["--version"@], out) && r
                    == out is Some,
    {
        PackageBackend::<R>::is_available(&BackendKind::Homebrew, runner)
    }

    fn install(&self, runner: &R, package: &str) -> (r: Result<(), ToolchainError>)
        ensures
            exists|out: Option<CommandOutput>|
                install_outcome_matches(
                    r,
                    spec_backend_name(BackendKind::Homebrew),
                    spec_backend_program(BackendKind::Homebrew),
                    package@,
                    out,
                ),
    {
        PackageBackend::<R>::install(&BackendKind::Homebrew, runner, package)
    }
}

/// The candidate backends for a host kind, in priority order.
pub fn candidate_backends(host_kind: &HostKind) -> (r: Vec<BackendKind>)
    ensures
        r@ == spec_candidates(*host_kind),
{
    let r = match host_kind {
        HostKind::Termux => vec![BackendKind::TermuxPkg],
        HostKind::KaliNetHunterProot | HostKind::NativeLinux => vec![
            BackendKind::Apt,
            BackendKind::Yay,
            BackendKind::Pacman,
        ],
        HostKind::Windows => vec![BackendKind::Winget, BackendKind::Choco],
        HostKind::MacOs => vec![BackendKind::Homebrew],
        HostKind::Unknown => Vec::new(),
    };
    assert(r@ =~= spec_candidates(*host_kind));
    r
}

/// The selection among `candidates` given each one's availability answer:
/// the first available one, else `NoBackendAvailable`.
pub fn pick_backend(candidates: &Vec<BackendKind>, available: &Vec<bool>) -> (r: Result<
    BackendKind,
    ToolchainError,
>)
    requires
        available.len() == candidates.len(),
    ensures
        r == selection_result(spec_first_available(candidates@, available@)),
{
    let mut i: usize = 0;
    while i < candidates.len()
        invariant
            i <= candidates.len(),
            available.len() == candidates.len(),
            forall|k: int| 0 <= k < i ==> !available@[k],
        decreases candidates.len() - i,
    {
        if available[i] {
            proof {
                lemma_first_available_at(candidates@, available@, i as int);
            }
            return Ok(candidates[i]);
        }
        i = i + 1;
    }
    proof {
        lemma_first_available_at(candidates@, available@, candidates.len() as int);
    }
    Err(ToolchainError::NoBackendAvailable)
}

/// The runner answered the availability probe of backend `k` (its program
/// with `--version`), and `available` is whether the program ran at all.
pub open spec fn backend_answer<R: CommandRunner>(runner: &R, k: BackendKind, available: bool) -> bool {
    exists|out: Option<CommandOutput>|
        #[trigger] ran(runner, spec_backend_program(k), seq!["--version"@], out) && available
            == out is Some
}

/// The availability probes that selection ran, one per candidate in
/// order: every answer but the last is negative, and probing stops early
/// only at a positive answer.
pub open spec fn backend_probes<R: CommandRunner>(
    runner: &R,
    cands: Seq<BackendKind>,
    avail: Seq<bool>,
) -> bool {
    &&& avail.len() <= cands.len()
    &&& forall|k: int| 0 <= k < avail.len() ==> #[trigger] backend_answer(runner, cands[k], avail[k])
    &&& forall|k: int| 0 <= k < avail.len() - 1 ==> !#[trigger] avail[k]
    &&& avail.len() < cands.len() ==> avail.len() > 0 && avail.last()
}

/// The selection the probes lead to: the candidate whose probe answered
/// last when that answer was positive, else no backend.
pub open spec fn probe_selection(cands: Seq<BackendKind>, avail: Seq<bool>) -> Result<
    BackendKind,
    ToolchainError,
> {
    if avail.len() > 0 && avail.last() {
        Ok(cands[avail.len() - 1])
    } else {
        Err(ToolchainError::NoBackendAvailable)
    }
}

/// Real backend selection: among the host family's candidates, the first
/// one that really answers its availability probe wins.
pub fn select_backend<R: CommandRunner>(runner: &R, host_kind: &HostKind) -> (r: Result<
    BackendKind,
    ToolchainError,
>)
    ensures
        exists|avail: Seq<bool>|
            #[trigger] backend_probes(runner, spec_candidates(*host_kind), avail) && r
                == probe_selection(spec_candidates(*host_kind), avail),
        exists|avail: Seq<bool>|
            avail.len() == spec_candidates(*host_kind).len() && r == selection_result(
                #[trigger] spec_first_available(spec_candidates(*host_kind), avail),
            ),
        r matches Ok(k) ==> spec_candidates(*host_kind).contains(k),
        spec_candidates(*host_kind).len() == 0 ==> r == Err::<BackendKind, ToolchainError>(
            ToolchainError::NoBackendAvailable,
        ),
{
    let cands = candidate_backends(host_kind);
    let ghost mut avail: Seq<bool> = Seq::empty();
    let mut i: usize = 0;
    while i < cands.len()
        invariant
            i <= cands.len(),
            cands@ == spec_candidates(*host_kind),
            avail.len() == i,
            forall|k: int| 0 <= k < i ==> !avail[k],
            forall|k: int| 0 <= k < i ==> #[trigger] backend_answer(runner, cands@[k], avail[k]),
        decreases cands.len() - i,
    {
        let b = PackageBackend::<R>::is_available(&cands[i], runner);
        assert(backend_answer(runner, cands@[i as int], b));
        let ghost old_avail = avail;
        proof {
            avail = avail.push(b);
        }
        assert forall|k: int| 0 <= k < i + 1 implies #[trigger] backend_answer(
            runner,
            cands@[k],
            avail[k],
        ) by {
            if k < i {
                assert(avail[k] == old_avail[k]);
            }
        }
        if b {
            let ghost full = Seq::new(cands@.len(), |j: int| j == i);
            proof {
                lemma_first_available_at(cands@, full, i as int);
                lemma_first_available_is_candidate(cands@, full);
                assert forall|k: int| 0 <= k < avail.len() - 1 implies !#[trigger] avail[k] by {
                    assert(avail[k] == old_avail[k]);
                }
                assert(backend_probes(runner, cands@, avail));
            }
            return Ok(cands[i]);
        }
        i = i + 1;
    }
    proof {
        lemma_first_available_at(cands@, avail, cands@.len() as int);
        assert(backend_probes(runner, cands@, avail));
    }
    Err(ToolchainError::NoBackendAvailable)
}

/// On Linux hosts `apt` wins whenever it answers, and `yay` is preferred
/// over plain `pacman` whenever it answers, since it also reaches AUR-only
/// packages; plain `pacman` is picked only when neither answers.
pub proof fn law_linux_backend_priority(kind: HostKind, avail: Seq<bool>)
    requires
        kind == HostKind::NativeLinux || kind == HostKind::KaliNetHunterProot,
        avail.len() == 3,
    ensures
        avail[0] ==> spec_first_available(spec_candidates(kind), avail) == Some(BackendKind::Apt),
        !avail[0] && avail[1] ==> spec_first_available(spec_candidates(kind), avail) == Some(
            BackendKind::Yay,
        ),
        spec_first_available(spec_candidates(kind), avail) == Some(BackendKind::Pacman) <==> (
        !avail[0] && !avail[1] && avail[2]),
{
    let c = spec_candidates(kind);
    if avail[0] {
        lemma_first_available_at(c, avail, 0);
    } else if avail[1] {
        lemma_first_available_at(c, avail, 1);
    } else if avail[2] {
        lemma_first_available_at(c, avail, 2);
    } else {
        lemma_first_available_at(c, avail, 3);
    }
}

/// The package manager operation that installs (or syncs) a package, by
/// the program's own command-line conventions: `-S` for the pacman family,
/// `install` for the others.
pub open spec fn install_operation(program: Seq<char>) -> Seq<char> {
    if program == "pacman"@ || program == "yay"@ {
        "-S"@
    } else {
        "install"@
    }
}

/// An argument that asks a package manager to remove a package.
pub open spec fn is_removal(arg: Seq<char>) -> bool {
    arg == "-R"@ || arg == "-Rs"@ || arg == "-Rns"@ || arg == "remove"@ || arg == "uninstall"@
        || arg == "purge"@ || arg == "autoremove"@
}

/// Every backend's install command installs: it starts with its program's
/// install operation, ends with the package, names the package nowhere
/// else, never asks for a removal, and `yay`, which wraps pacman, installs
/// with exactly pacman's arguments.
pub proof fn law_install_args_install(k: BackendKind, package: Seq<char>)
    ensures
        ({
            let a = spec_install_args(k, package);
            &&& a.len() >= 2
            &&& a[0] == install_operation(spec_backend_program(k))
            &&& a.last() == package
            &&& forall|i: int| 0 <= i < a.len() - 1 ==> !is_removal(#[trigger] a[i])
        }),
        spec_install_args(BackendKind::Pacman, package) == spec_install_args(BackendKind::Yay, package),
{
    reveal_strlit("pacman");
    reveal_strlit("yay");
    reveal_strlit("apt-get");
    reveal_strlit("pkg");
    reveal_strlit("winget");
    reveal_strlit("choco");
    reveal_strlit("brew");
    assert("pacman"@[0] == 'p' && "yay"@[0] == 'y' && "pkg"@[0] == 'p' && "winget"@[0] == 'w');
    assert("apt-get"@.len() == 7 && "choco"@.len() == 5 && "brew"@.len() == 4);
    assert("pacman"@.len() == 6 && "yay"@.len() == 3);
    let a = spec_install_args(k, package);
    assert forall|i: int| 0 <= i < a.len() - 1 implies !is_removal(#[trigger] a[i]) by {
        lemma_install_word_is_no_removal(a[i]);
    }
}

/// The words of the install commands ask for no removal.
proof fn lemma_install_word_is_no_removal(x: Seq<char>)
    requires
        x == "-S"@ || x == "install"@ || x == "-y"@ || x == "--noconfirm"@ || x == "-e"@ || x
            == "--id"@,
    ensures
        !is_removal(x),
{
    reveal_strlit("-S");
    reveal_strlit("install");
    reveal_strlit("-y");
    reveal_strlit("--noconfirm");
    reveal_strlit("-e");
    reveal_strlit("--id");
    reveal_strlit("-R");
    reveal_strlit("-Rs");
    reveal_strlit("-Rns");
    reveal_strlit("remove");
    reveal_strlit("uninstall");
    reveal_strlit("purge");
    reveal_strlit("autoremove");
    assert("-S"@.len() == 2 && "-S"@[1] == 'S');
    assert("-y"@.len() == 2 && "-y"@[1] == 'y');
    assert("-e"@.len() == 2 && "-e"@[1] == 'e');
    assert("--id"@.len() == 4 && "--id"@[1] == '-');
    assert("install"@.len() == 7 && "--noconfirm"@.len() == 11);
    assert("-R"@.len() == 2 && "-R"@[1] == 'R');
    assert("-Rns"@.len() == 4 && "-Rns"@[1] == 'R');
    assert("-Rs"@.len() == 3 && "remove"@.len() == 6 && "uninstall"@.len() == 9);
    assert("purge"@.len() == 5 && "autoremove"@.len() == 10);
}

} // verus!
