//! Username resolution outcomes.
//!
//! The game platform's directory answers a display-name lookup with a
//! canonical id/name pair, with "no such user", or fails in transport.
//! The transport call happens outside; this module fixes how a response's
//! status and parsed body are read as one of the three outcomes, so that
//! "not found" is a normal answer and never mistaken for a failure.

use vstd::prelude::*;

verus! {

/// A display name resolved against the game platform's directory.
pub struct ResolvedAccount {
    /// The canonical 128-bit account id.
    pub game_id: u128,
    /// The canonical spelling of the display name.
    pub name: String,
}

/// The outcome of one resolution attempt.
pub enum Resolution {
    /// The directory knows the name.
    Resolved(ResolvedAccount),
    /// The directory answered and does not know the name.
    NotFound,
    /// The directory was unreachable, answered with an unexpected status,
    /// or sent a body that did not parse.
    TransportFailure,
}

/// HTTP statuses read as success.
pub open spec fn status_success(status: u16) -> bool {
    200 <= status < 300
}

/// The not-found status.
pub open spec fn status_not_found(status: u16) -> bool {
    status == 404
}

/// Read a response as a resolution outcome: a success status with a parsed
/// body resolves, the not-found status is the normal "no such user"
/// answer, and everything else — including a success status whose body did
/// not parse — is a transport failure.
pub fn classify_resolution(status: u16, body: Option<ResolvedAccount>) -> (r: Resolution)
    ensures
        status_success(status) ==> match body {
            Some(acc) => r matches Resolution::Resolved(a) && a == acc,
            None => r is TransportFailure,
        },
        !status_success(status) && status_not_found(status) ==> r is NotFound,
        !status_success(status) && !status_not_found(status) ==> r is TransportFailure,
{
    if 200 <= status && status < 300 {
        match body {
            Some(acc) => Resolution::Resolved(acc),
            None => Resolution::TransportFailure,
        }
    } else if status == 404 {
        Resolution::NotFound
    } else {
        Resolution::TransportFailure
    }
}

} // verus!
