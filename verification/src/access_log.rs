//! Access logging for the reverse proxy: one structured entry per
//! proxied request, emitted only in debug mode or when something went
//! wrong, so failures are never silently dropped while normal traffic
//! stays quiet.

use vstd::prelude::*;

use crate::strutil::spec_dec_digits;
use crate::strutil::u64_to_dec;

verus! {

/// One structured record of a proxied request.
#[derive(Clone, Debug)]
pub struct AccessLogEntry {
    /// When the entry was made, in milliseconds since the Unix epoch.
    pub timestamp_ms: i64,
    pub method: String,
    pub path: String,
    pub status: u16,
    pub duration_ms: u64,
    pub target: String,
    pub error: Option<String>,
}

/// Relies on chrono::Utc::now and timestamp_millis: the clock's reading
/// promises nothing that a contract could hold it to.
#[verifier::external_body]
fn now_millis() -> i64 {
    chrono::Utc::now().timestamp_millis()
}

/// Build the entry for one proxied request, stamped with the current
/// time.
pub fn make_entry(
    method: &str,
    path: &str,
    status: u16,
    duration_ms: u64,
    target: &str,
    error: Option<String>,
) -> (e: AccessLogEntry)
    ensures
        e.method@ == method@,
        e.path@ == path@,
        e.status == status,
        e.duration_ms == duration_ms,
        e.target@ == target@,
        e.error == error,
{
    AccessLogEntry {
        timestamp_ms: now_millis(),
        method: String::from_str(method),
        path: String::from_str(path),
        status,
        duration_ms,
        target: String::from_str(target),
        error,
    }
}

/// An entry is recorded when debug mode is on, or the status is an
/// error, or an error string is present.
pub open spec fn spec_should_log(debug_mode: bool, status: u16, has_error: bool) -> bool {
    debug_mode || status >= 400 || has_error
}

/// Whether this entry is recorded under the current debug flag.
pub fn should_log(debug_mode: bool, entry: &AccessLogEntry) -> (r: bool)
    ensures
        r == spec_should_log(debug_mode, entry.status, entry.error is Some),
{
    debug_mode || entry.status >= 400 || entry.error.is_some()
}

/// The line an entry is written as:
/// `method path status durationms -> target ( (error))?`.
pub open spec fn spec_format_entry(e: AccessLogEntry) -> Seq<char> {
    let base = e.method@ + " "@ + e.path@ + " "@ + spec_dec_digits(e.status as nat) + " "@
        + spec_dec_digits(e.duration_ms as nat) + "ms -> "@ + e.target@;
    match e.error {
        Some(err) => base + " ("@ + err@ + ")"@,
        None => base,
    }
}

/// Render the entry as its log line.
pub fn format_entry(entry: &AccessLogEntry) -> (r: String)
    ensures
        r@ == spec_format_entry(*entry),
{
    let mut line = String::new();
    line.append(entry.method.as_str());
    line.append(" ");
    line.append(entry.path.as_str());
    line.append(" ");
    let status_dec = u64_to_dec(entry.status as u64);
    line.append(status_dec.as_str());
    line.append(" ");
    let duration_dec = u64_to_dec(entry.duration_ms);
    line.append(duration_dec.as_str());
    line.append("ms -> ");
    line.append(entry.target.as_str());
    match &entry.error {
        Some(err) => {
            line.append(" (");
            line.append(err.as_str());
            line.append(")");
        },
        None => {},
    }
    line
}

/// The proxy's access logger: it owns only the policy; writing the line
/// out is the caller's side of the boundary.
#[derive(Clone, Debug)]
pub struct AccessLogger {
    pub debug_mode: bool,
}

impl AccessLogger {
    /// A logger that records everything when `debug_mode` is set and
    /// only failures otherwise.
    pub fn new(debug_mode: bool) -> (r: AccessLogger)
        ensures
            r.debug_mode == debug_mode,
    {
        AccessLogger { debug_mode }
    }

    /// The line to write for this request, or nothing when policy drops
    /// it: entries are kept exactly when debug mode is on, the status is
    /// at least 400, or an error string is present.
    pub fn log_request(&self, entry: &AccessLogEntry) -> (r: Option<String>)
        ensures
            r is Some <==> spec_should_log(self.debug_mode, entry.status, entry.error is Some),
            r matches Some(line) ==> line@ == spec_format_entry(*entry),
    {
        if should_log(self.debug_mode, entry) {
            Some(format_entry(entry))
        } else {
            None
        }
    }
}

} // verus!
