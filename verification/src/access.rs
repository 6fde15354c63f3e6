//! Access evaluation: merging a persisted mapping with live directory
//! membership into access and operator flags.
//!
//! Absence from the group is a normal answer and yields cleared flags; only
//! a transport failure of the membership lookup fails the evaluation, and
//! in the bulk case aborts the whole listing.

use vstd::prelude::*;

use crate::membership::MembershipOutcome;
use crate::store::IdentityMapping;

verus! {

/// The directory group and the role ids whose holders count as operators.
/// Built once at startup and read-only afterwards.
pub struct ModeratorConfig {
    /// The directory group whose membership grants access.
    pub group_id: u64,
    /// Role ids considered "operator".
    pub moderator_roles: Vec<u64>,
}

/// The read API's view of one mapping: the pair itself and the two flags
/// derived from directory membership.
#[derive(Clone, Copy, Debug, PartialEq, Eq, Structural)]
pub struct UserData {
    pub access: bool,
    pub operator: bool,
    pub game_id: u128,
    pub chat_id: u64,
}

/// Why an evaluation failed.
#[derive(Clone, Copy, Debug, PartialEq, Eq, Structural)]
pub enum EvalError {
    /// The membership lookup failed in transport; the caller answers with
    /// a server error rather than substituted flags.
    MembershipTransportFailure,
}

/// The member holds at least one of the configured operator roles.
pub open spec fn spec_is_operator(roles: Seq<u64>, moderator_roles: Seq<u64>) -> bool {
    exists|i: int| 0 <= i < roles.len() && moderator_roles.contains(roles[i])
}

/// The flags owed for a mapping given a decided membership outcome: a
/// member gets access and the operator flag from its roles, a non-member
/// gets neither; the identifiers pass through unchanged.
pub open spec fn spec_user_data(
    moderator_roles: Seq<u64>,
    m: IdentityMapping,
    outcome: MembershipOutcome,
) -> UserData
    recommends
        !(outcome is TransportFailure),
{
    match outcome {
        MembershipOutcome::Member { roles } => UserData {
            access: true,
            operator: spec_is_operator(roles@, moderator_roles),
            game_id: m.game_id,
            chat_id: m.chat_id,
        },
        _ => UserData { access: false, operator: false, game_id: m.game_id, chat_id: m.chat_id },
    }
}

/// Whether `v` holds `x`.
fn contains_u64(v: &Vec<u64>, x: u64) -> (r: bool)
    ensures
        r == v@.contains(x),
{
    let n = v.len();
    let mut i: usize = 0;
    while i < n
        invariant
            0 <= i <= n,
            n == v@.len(),
            forall|j: int| 0 <= j < i ==> v@[j] != x,
        decreases n - i,
    {
        if v[i] == x {
            return true;
        }
        i += 1;
    }
    false
}

/// Whether any of `roles` is a configured operator role.
pub fn is_operator(roles: &Vec<u64>, moderator_roles: &Vec<u64>) -> (r: bool)
    ensures
        r == spec_is_operator(roles@, moderator_roles@),
{
    let n = roles.len();
    let mut i: usize = 0;
    while i < n
        invariant
            0 <= i <= n,
            n == roles@.len(),
            forall|j: int| 0 <= j < i ==> !moderator_roles@.contains(roles@[j]),
        decreases n - i,
    {
        if contains_u64(moderator_roles, roles[i]) {
            return true;
        }
        i += 1;
    }
    false
}

/// Evaluate one mapping against its membership outcome. Fails exactly on
/// a transport failure; a confirmed non-member yields cleared flags, never
/// an error.
pub fn evaluate_mapping(
    cfg: &ModeratorConfig,
    m: &IdentityMapping,
    outcome: &MembershipOutcome,
) -> (r: Result<UserData, EvalError>)
    ensures
        r is Err <==> outcome is TransportFailure,
        !(outcome is TransportFailure) ==> r == Ok::<UserData, EvalError>(
            spec_user_data(cfg.moderator_roles@, *m, *outcome),
        ),
{
    match outcome {
        MembershipOutcome::Member { roles } => Ok(
            UserData {
                access: true,
                operator: is_operator(roles, &cfg.moderator_roles),
                game_id: m.game_id,
                chat_id: m.chat_id,
            },
        ),
        MembershipOutcome::NotAMember => Ok(
            UserData { access: false, operator: false, game_id: m.game_id, chat_id: m.chat_id },
        ),
        MembershipOutcome::TransportFailure => Err(EvalError::MembershipTransportFailure),
    }
}

/// Evaluate a whole listing, one membership outcome per mapping. Succeeds
/// exactly when no lookup failed in transport; any failure aborts the
/// listing rather than substituting flags for that entry.
pub fn evaluate_all(
    cfg: &ModeratorConfig,
    mappings: &Vec<IdentityMapping>,
    outcomes: &Vec<MembershipOutcome>,
) -> (r: Result<Vec<UserData>, EvalError>)
    requires
        mappings@.len() == outcomes@.len(),
    ensures
        r is Ok <==> (forall|i: int|
            0 <= i < outcomes@.len() ==> !(outcomes@[i] is TransportFailure)),
        r matches Ok(v) ==> v@.len() == mappings@.len() && (forall|i: int|
            0 <= i < mappings@.len() ==> v@[i] == spec_user_data(
                cfg.moderator_roles@,
                mappings@[i],
                outcomes@[i],
            )),
{
    let n = mappings.len();
    let mut out: Vec<UserData> = Vec::new();
    let mut i: usize = 0;
    while i < n
        invariant
            0 <= i <= n,
            n == mappings@.len(),
            n == outcomes@.len(),
            out@.len() == i,
            forall|j: int| 0 <= j < i ==> !(outcomes@[j] is TransportFailure),
            forall|j: int|
                0 <= j < i ==> out@[j] == spec_user_data(
                    cfg.moderator_roles@,
                    mappings@[j],
                    outcomes@[j],
                ),
        decreases n - i,
    {
        match evaluate_mapping(cfg, &mappings[i], &outcomes[i]) {
            Ok(d) => {
                out.push(d);
            },
            Err(e) => {
                return Err(e);
            },
        }
        i += 1;
    }
    Ok(out)
}

} // verus!
