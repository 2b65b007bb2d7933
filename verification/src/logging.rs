//! Planning of log writes: the line format, the rotation-by-truncation
//! rule, and the log file's place beside the executable.
//!
//! The file system work itself happens outside the library: a caller reads
//! the log file's current size, asks here for a plan, and then performs the
//! truncation and the appends the plan prescribes.

use vstd::prelude::*;
use vstd::string::StrSliceExecFns;
use vstd::string::StringExecFns;

verus! {

/// Size in bytes above which the log file is truncated before the next
/// write.
pub const MAX_LOG_SIZE: u64 = 10 * 1024 * 1024;

/// The log path: `app.log` inside `dir`, joined with a forward slash.
pub open spec fn spec_log_path(dir: Seq<char>) -> Seq<char> {
    dir + "/app.log"@
}

/// The log file's path inside the given directory.
pub fn log_path_in(dir: &str) -> (r: String)
    ensures
        r@ == spec_log_path(dir@),
{
    let mut r = dir.to_owned();
    r.append("/app.log");
    r
}

/// One log line: the timestamp in brackets, a space, the message.
pub open spec fn spec_log_line(ts: Seq<char>, msg: Seq<char>) -> Seq<char> {
    "["@ + ts + "] "@ + msg
}

/// Renders one log line from a timestamp and a message.
pub fn render_log_line(timestamp: &str, message: &str) -> (r: String)
    ensures
        r@ == spec_log_line(timestamp@, message@),
{
    let mut r = String::from_str("[");
    r.append(timestamp);
    r.append("] ");
    r.append(message);
    r
}

/// The marker line recording an automatic truncation.
pub open spec fn spec_rotation_marker(ts: Seq<char>) -> Seq<char> {
    spec_log_line(ts, "[INFO] Log file cleared automatically (size exceeded 10MB)"@)
}

/// Renders the marker line written right after an automatic truncation.
pub fn rotation_marker_line(timestamp: &str) -> (r: String)
    ensures
        r@ == spec_rotation_marker(timestamp@),
{
    render_log_line(timestamp, "[INFO] Log file cleared automatically (size exceeded 10MB)")
}

/// Whether a log file of the given size (`None`: no file) is truncated
/// before the next write.
pub open spec fn spec_should_rotate(existing_size: Option<u64>) -> bool {
    existing_size matches Some(s) && s > MAX_LOG_SIZE
}

/// What one log write does to the file, in order: truncate it if the plan
/// says so, append the marker if present, append the line.
#[derive(Debug)]
pub struct LogWritePlan {
    pub truncate_first: bool,
    pub marker: Option<String>,
    pub line: String,
}

/// Plans one log write against a file of `existing_size` bytes (`None`
/// where the file does not exist yet): the file is truncated, and a marker
/// line inserted, exactly where the size exceeds [`MAX_LOG_SIZE`]; the new
/// entry is appended in either case.
pub fn plan_log_write(existing_size: Option<u64>, timestamp: &str, message: &str) -> (r:
    LogWritePlan)
    ensures
        r.truncate_first == spec_should_rotate(existing_size),
        r.truncate_first ==> (r.marker matches Some(m) && m@ == spec_rotation_marker(timestamp@)),
        !r.truncate_first ==> r.marker is None,
        r.line@ == spec_log_line(timestamp@, message@),
{
    let rotate = match existing_size {
        Some(s) => s > MAX_LOG_SIZE,
        None => false,
    };
    let marker = if rotate {
        Some(rotation_marker_line(timestamp))
    } else {
        None
    };
    LogWritePlan { truncate_first: rotate, marker, line: render_log_line(timestamp, message) }
}

/// Relies on `chrono::Local::now` and `DateTime::format`: the current local
/// time rendered as `YYYY-MM-DD HH:MM:SS`. The result depends on the clock,
/// so nothing is promised of it.
#[verifier::external_body]
fn local_timestamp() -> (r: String) {
    chrono::Local::now().format("%Y-%m-%d %H:%M:%S").to_string()
}

/// Plans one log write stamped with the current local time: as
/// [`plan_log_write`], for some timestamp read from the clock.
pub fn plan_log_write_now(existing_size: Option<u64>, message: &str) -> (r: LogWritePlan)
    ensures
        r.truncate_first == spec_should_rotate(existing_size),
        exists|ts: Seq<char>|
            r.line@ == spec_log_line(ts, message@) && (match r.marker {
                Some(m) => r.truncate_first && m@ == spec_rotation_marker(ts),
                None => !r.truncate_first,
            }),
{
    let ts = local_timestamp();
    let r = plan_log_write(existing_size, ts.as_str(), message);
    proof {
        let w = ts@;
        assert(r.line@ == spec_log_line(w, message@) && (match r.marker {
            Some(m) => r.truncate_first && m@ == spec_rotation_marker(w),
            None => !r.truncate_first,
        }));
    }
    r
}

} // verus!
