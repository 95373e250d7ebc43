//! Complete, guess-free detection of the host and its Android toolchain.

pub mod aapt2;
pub mod command;
pub mod gradle;
pub mod host;
pub mod jdk;
pub mod ndk;
pub mod sdk;


pub use aapt2::detect_aapt2;
pub use command::{CommandOutput, CommandRunner};

pub use host::{detect_host_environment, EnvProbe};
pub use gradle::detect_gradle_wrapper;
pub use jdk::detect_jdk;
pub use ndk::detect_ndk;
pub use sdk::detect_sdk;




use vstd::prelude::*;

verus! {

/// Wiring sanity check.
pub fn ping() -> (r: &'static str)
    ensures
        r@ == "pong"@,
{
    "pong"
}

} // verus!
