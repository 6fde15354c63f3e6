//! Read-API envelopes, the shared-secret check, and the health report.
//!
//! The HTTP layer outside serializes these values; the decisions — when a
//! request is authorized, what a status envelope says, when a health probe
//! passes — are fixed here.

use vstd::prelude::*;

verus! {

/// The status envelope of the read API: `"ok"` with no message, or
/// `"error"` with one.
pub struct StatusBody {
    pub status: String,
    pub message: Option<String>,
}

/// The success envelope.
pub fn success_body() -> (r: StatusBody)
    ensures
        r.status@ == "ok"@,
        r.message is None,
{
    StatusBody { status: String::from_str("ok"), message: None }
}

/// The server-error envelope carrying this message.
pub fn error_body(message: String) -> (r: StatusBody)
    ensures
        r.status@ == "error"@,
        r.message matches Some(m) && m@ == message@,
{
    StatusBody { status: String::from_str("error"), message: Some(message) }
}

/// Whether a request may use the read API: a key must be configured, the
/// request must present one, and the two must match. No configured key
/// means no request is authorized.
pub fn authorize_api_key(expected: &Option<String>, provided: &Option<String>) -> (r: bool)
    ensures
        r <==> (expected matches Some(e) && provided matches Some(p) && e@ == p@),
{
    match (expected, provided) {
        (Some(e), Some(p)) => *e == *p,
        _ => false,
    }
}

/// What the health endpoint reports: a fixed `"ok"` status and the
/// running build's version.
pub struct HealthReport {
    pub status: String,
    pub version: String,
}

/// The health endpoint's body for this build version.
pub fn health_report(version: String) -> (r: HealthReport)
    ensures
        r.status@ == "ok"@,
        r.version@ == version@,
{
    HealthReport { status: String::from_str("ok"), version }
}

/// Why a health probe rejects a report.
#[derive(Clone, Copy, Debug, PartialEq, Eq, Structural)]
pub enum HealthVerdict {
    /// The status is `"ok"` and the version matches the expected one.
    Healthy,
    /// The status is not `"ok"`.
    StatusMismatch,
    /// The status is `"ok"` but the version differs from the expected one.
    VersionMismatch,
}

/// Judge a health report against the expected version. The status is
/// checked first; a wrong version is reported only for an `"ok"` status.
pub fn check_health(status: &String, version: &String, expected_version: &String) -> (r:
    HealthVerdict)
    ensures
        r == HealthVerdict::Healthy <==> (status@ == "ok"@ && version@ == expected_version@),
        r == HealthVerdict::StatusMismatch <==> status@ != "ok"@,
        r == HealthVerdict::VersionMismatch <==> (status@ == "ok"@ && version@
            != expected_version@),
{
    let ok = String::from_str("ok");
    if !(*status == ok) {
        HealthVerdict::StatusMismatch
    } else if !(*version == *expected_version) {
        HealthVerdict::VersionMismatch
    } else {
        HealthVerdict::Healthy
    }
}

} // verus!
