//! Records every install attempt, successful or not, as a file of its own,
//! so later diagnostics can tell where and how each tool arrived.

use crate::text::{decimal, decimal_string, join, join_path};
use crate::toolchain_mgr::error::{spec_message, ToolchainError};
use crate::types::InstallRecord;
use vstd::prelude::*;
use vstd::string::StringExecFns;

verus! {

/// Keeps install records. Implementations write files or keep records in
/// memory; the result is where the record went. Nothing is assumed of what
/// an implementation does.
pub trait InstallRecorder: Send + Sync {
    fn record(&self, record: &InstallRecord) -> Result<String, ToolchainError>;
}

/// The file-based recorder: one JSON file per record under
/// `<home>/.bana/installs`.
pub struct RealInstallRecorder {
    pub installs_dir: String,
}

/// The directory install records go to under a home directory.
pub open spec fn installs_dir_under(home: Seq<char>) -> Seq<char> {
    join(join(home, ".bana"@), "installs"@)
}

/// The file name of a record: `<timestamp>-<tool>-<backend>.json`.
pub open spec fn spec_record_file_name(r: InstallRecord) -> Seq<char> {
    decimal(r.timestamp_unix as nat) + "-"@ + r.tool_id@ + "-"@ + r.backend_used@ + ".json"@
}

/// The record of one install attempt: success exactly when the install
/// succeeded, and the error's message as the failure reason otherwise.
pub open spec fn is_install_record(
    rec: InstallRecord,
    tool_id: Seq<char>,
    backend: Seq<char>,
    package: Seq<char>,
    timestamp: u64,
    result: Result<(), ToolchainError>,
) -> bool {
    &&& rec.tool_id@ == tool_id
    &&& rec.backend_used@ == backend
    &&& rec.package_name@ == package
    &&& rec.timestamp_unix == timestamp
    &&& rec.success == result is Ok
    &&& match result {
        Ok(_) => rec.failure_reason is None,
        Err(e) => rec.failure_reason matches Some(m) && m@ == spec_message(e),
    }
}

impl RealInstallRecorder {
    /// A recorder using the standard `<home>/.bana/installs` directory.
    pub fn under_home(home_dir: &str) -> (r: Self)
        ensures
            r.installs_dir@ == installs_dir_under(home_dir@),
    {
        let bana = join_path(home_dir, ".bana");
        RealInstallRecorder { installs_dir: join_path(bana.as_str(), "installs") }
    }

    /// The path the record is written to.
    pub fn record_path(&self, record: &InstallRecord) -> (r: String)
        ensures
            r@ == join(self.installs_dir@, spec_record_file_name(*record)),
    {
        let name = record_file_name(record);
        join_path(self.installs_dir.as_str(), name.as_str())
    }
}

/// The file name a record is written under.
pub fn record_file_name(record: &InstallRecord) -> (r: String)
    ensures
        r@ == spec_record_file_name(*record),
{
    let mut r = decimal_string(record.timestamp_unix);
    r.append("-");
    r.append(record.tool_id.as_str());
    r.append("-");
    r.append(record.backend_used.as_str());
    r.append(".json");
    r
}

/// Builds the record of one install attempt.
pub fn install_record(
    tool_id: &str,
    backend: &str,
    package: &str,
    timestamp: u64,
    result: &Result<(), ToolchainError>,
) -> (r: InstallRecord)
    ensures
        is_install_record(r, tool_id@, backend@, package@, timestamp, *result),
{
    InstallRecord {
        tool_id: tool_id.to_owned(),
        backend_used: backend.to_owned(),
        package_name: package.to_owned(),
        timestamp_unix: timestamp,
        success: result.is_ok(),
        failure_reason: match result {
            Ok(()) => None,
            Err(e) => Some(e.message()),
        },
    }
}

#[verifier::external_type_specification]
#[verifier::external_body]
pub struct ExSystemTime(std::time::SystemTime);

/// `SystemTime::now`: the system clock's current reading; nothing is stated
/// of it.
#[verifier::external_body]
fn clock_now() -> std::time::SystemTime {
    std::time::SystemTime::now()
}

/// `SystemTime::duration_since(UNIX_EPOCH)`: the time since the epoch, or
/// `None` when the reading is earlier than the epoch; nothing is stated of
/// the duration.
#[verifier::external_body]
fn since_unix_epoch(t: &std::time::SystemTime) -> Option<std::time::Duration> {
    t.duration_since(std::time::UNIX_EPOCH).ok()
}

/// `Duration::as_secs`: the whole seconds of a duration; nothing is stated
/// of the value.
#[verifier::external_body]
fn whole_seconds(d: &std::time::Duration) -> u64 {
    d.as_secs()
}

/// The clock gave `now` when read.
pub closed spec fn clock_read(now: std::time::SystemTime) -> bool {
    call_ensures(clock_now, (), now)
}

/// The time since the epoch of the reading `now` was `since`.
pub closed spec fn epoch_offset(now: std::time::SystemTime, since: Option<std::time::Duration>) -> bool {
    call_ensures(since_unix_epoch, (&now,), since)
}

/// The whole seconds of `d` were `secs`.
pub closed spec fn seconds_of(d: std::time::Duration, secs: u64) -> bool {
    call_ensures(whole_seconds, (&d,), secs)
}

/// The current Unix timestamp in seconds, for tagging install records; 0
/// when the clock reads earlier than the epoch. It depends on the clock and
/// nothing is stated of it.
pub fn current_unix_timestamp() -> (r: u64)
    ensures
        exists|now: std::time::SystemTime, since: Option<std::time::Duration>|
            clock_read(now) && #[trigger] epoch_offset(now, since) && match since {
                None => r == 0,
                Some(d) => seconds_of(d, r),
            },
{
    let now = clock_now();
    let since = since_unix_epoch(&now);
    assert(clock_read(now) && epoch_offset(now, since));
    match since {
        Some(d) => {
            let secs = whole_seconds(&d);
            assert(seconds_of(d, secs));
            secs
        },
        None => 0,
    }
}

} // verus!
