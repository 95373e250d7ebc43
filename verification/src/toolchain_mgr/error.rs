//! Typed errors of toolchain management, with the messages they display.

use vstd::prelude::*;
use vstd::string::StringExecFns;

verus! {

#[derive(Debug)]
pub enum ToolchainError {
    NoBackendAvailable,
    InstallFailed { backend: &'static str, package: String, reason: String },
    CacheUnavailable { path: String, reason: String },
    NoPackageForBackend { tool: &'static str, backend: &'static str },
}

/// The message each error displays.
pub open spec fn spec_message(e: ToolchainError) -> Seq<char> {
    match e {
        ToolchainError::NoBackendAvailable => "no supported package backend found for this host"@,
        ToolchainError::InstallFailed { backend, package, reason } => "installing '"@ + package@
            + "' via "@ + backend@ + " failed: "@ + reason@,
        ToolchainError::CacheUnavailable { path, reason } => "cache directory '"@ + path@
            + "' could not be prepared: "@ + reason@,
        ToolchainError::NoPackageForBackend { tool, backend } => "no confirmed package name for tool '"@
            + tool@ + "' on backend '"@ + backend@ + "' (not researched yet, never guessed)"@,
    }
}

impl ToolchainError {
    /// The message this error displays.
    pub fn message(&self) -> (r: String)
        ensures
            r@ == spec_message(*self),
    {
        match self {
            ToolchainError::NoBackendAvailable => "no supported package backend found for this host".to_owned(),
            ToolchainError::InstallFailed { backend, package, reason } => {
                let mut m = "installing '".to_owned();
                m.append(package.as_str());
                m.append("' via ");
                m.append(backend);
                m.append(" failed: ");
                m.append(reason.as_str());
                m
            },
            ToolchainError::CacheUnavailable { path, reason } => {
                let mut m = "cache directory '".to_owned();
                m.append(path.as_str());
                m.append("' could not be prepared: ");
                m.append(reason.as_str());
                m
            },
            ToolchainError::NoPackageForBackend { tool, backend } => {
                let mut m = "no confirmed package name for tool '".to_owned();
                m.append(tool);
                m.append("' on backend '");
                m.append(backend);
                m.append("' (not researched yet, never guessed)");
                m
            },
        }
    }
}

} // verus!
