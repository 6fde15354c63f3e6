//! Directory group-membership outcomes.
//!
//! The chat platform's directory answers a member lookup with the member's
//! role ids, with "not a member", or fails in transport. Role ids arrive
//! as decimal strings and are read through the crate's one decimal parser;
//! a payload with an unreadable role id is treated as a transport failure
//! rather than a partial role set.

use vstd::prelude::*;

use crate::digits::{all_roles_parse, spec_parse_u64};
use crate::resolver::{status_not_found, status_success};

verus! {

/// The outcome of one membership lookup.
pub enum MembershipOutcome {
    /// The account is currently a member and holds these role ids.
    Member { roles: Vec<u64> },
    /// The directory answered: the account is not in the group.
    NotAMember,
    /// The directory was unreachable, answered with an unexpected status,
    /// or sent a body that did not parse.
    TransportFailure,
}

/// Read a response as a membership outcome: a success status with a parsed
/// body whose role ids all read as decimal numbers makes a member, the
/// not-found status is the normal "not a member" answer, and everything
/// else is a transport failure.
pub fn classify_membership(status: u16, roles: Option<Vec<String>>) -> (r: MembershipOutcome)
    ensures
        status_success(status) ==> match roles {
            Some(rs) => {
                if all_roles_parse(rs@.map_values(|p: String| p@)) {
                    r matches MembershipOutcome::Member { roles: parsed }
                        && parsed@.len() == rs@.len() && (forall|i: int|
                        0 <= i < rs@.len() ==> Some(parsed@[i]) == spec_parse_u64(rs@[i]@))
                } else {
                    r is TransportFailure
                }
            },
            None => r is TransportFailure,
        },
        !status_success(status) && status_not_found(status) ==> r is NotAMember,
        !status_success(status) && !status_not_found(status) ==> r is TransportFailure,
{
    if 200 <= status && status < 300 {
        match roles {
            Some(rs) => match crate::digits::parse_roles(&rs) {
                Some(parsed) => MembershipOutcome::Member { roles: parsed },
                None => MembershipOutcome::TransportFailure,
            },
            None => MembershipOutcome::TransportFailure,
        }
    } else if status == 404 {
        MembershipOutcome::NotAMember
    } else {
        MembershipOutcome::TransportFailure
    }
}

} // verus!
