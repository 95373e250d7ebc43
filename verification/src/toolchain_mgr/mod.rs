//! Installs missing Android toolchain pieces idempotently and without
//! guessing: package backends, the bundled-tool catalog, install records
//! and the content-addressed cache.

pub mod backend;
pub mod bundled;
pub mod cache;
pub mod error;
pub mod recorder;
pub mod setup;

pub use backend::{
    select_backend, AptBackend, BackendKind, ChocoBackend, HomebrewBackend, PackageBackend,
    PacmanBackend, TermuxPkgBackend, WingetBackend, YayBackend,
};
pub use bundled::{android_sdk_tool, install_bundled_tool, jdk_tool, package_name_for, BundledToolSpec};
pub use cache::{cache_dir_for, compute_cache_key, default_cache_root};
pub use error::ToolchainError;
pub use recorder::{current_unix_timestamp, InstallRecorder, RealInstallRecorder};
pub use setup::{setup_bundled_tool, setup_bundled_tools};

use vstd::prelude::*;

verus! {

/// Wiring sanity check.
pub fn ping() -> (r: &'static str)
    ensures
        r@ == "pong"@,
{
    "pong"
}

} // verus!
