//! The link command, from receipt to user-visible response.
//!
//! A command runs through validation, username resolution, mapping
//! reconciliation, notification, and the final reply; an error at any step
//! ends it with an ephemeral message. The platform's short response
//! deadline is met outside by an immediate acknowledgment; the functions
//! here decide, for each step's outcome, the next step and the final
//! reply, so the caller only performs the external calls between them.

use vstd::prelude::*;

use crate::notify::{build_notification, notification_matches, NotificationPayload};
use crate::resolver::Resolution;
use crate::store::{spec_upsert_outcome, spec_upsert_rows, IdentityStore, UpsertOutcome};

verus! {

/// A link command as it arrives: the originating group, the invoking
/// user, and the display name to resolve — each possibly absent.
#[derive(Debug)]
pub struct LinkCommand {
    /// The group the command was issued in, if any.
    pub group_id: Option<u64>,
    /// The invoking user's chat id, if the invocation carries one.
    pub invoker_id: Option<u64>,
    /// The required display-name option, if supplied.
    pub username: Option<String>,
}

/// A command that passed validation.
#[derive(Debug)]
pub struct ValidatedLink {
    /// The group the command was issued in.
    pub group_id: u64,
    /// The invoking user's chat id.
    pub chat_id: u64,
    /// The display name to resolve.
    pub username: String,
}

/// The ephemeral text answered to the invoker.
#[derive(Debug)]
pub struct CommandReply {
    pub text: String,
    /// Shown only to the invoker.
    pub ephemeral: bool,
}

/// What a finished link command hands back: the reply owed to the
/// invoker, and the announcement payload when a row was written.
#[derive(Debug)]
pub struct LinkOutcome {
    pub reply: CommandReply,
    pub notification: Option<NotificationPayload>,
}

pub open spec fn msg_guild_only() -> Seq<char> {
    "This command can only be used in a server"@
}

pub open spec fn msg_user_only() -> Seq<char> {
    "This command can only be used by a user"@
}

pub open spec fn msg_generic() -> Seq<char> {
    "Something went wrong"@
}

pub open spec fn msg_unknown_user() -> Seq<char> {
    "That user does not exist!"@
}

pub open spec fn msg_already_linked() -> Seq<char> {
    "That user is already whitelisted!"@
}

pub open spec fn msg_conflict() -> Seq<char> {
    "That Minecraft account is already linked to a different user!"@
}

/// The acknowledgment of a successful link, naming the display name as
/// the invoker typed it.
pub open spec fn msg_success(username: Seq<char>) -> Seq<char> {
    "Successfully added "@ + username + " to the whitelist"@
}

/// An ephemeral reply with this text.
fn reply(text: &str) -> (r: CommandReply)
    ensures
        r.text@ == text@,
        r.ephemeral,
{
    CommandReply { text: String::from_str(text), ephemeral: true }
}

/// Validation: the command must carry a group context, a user identity,
/// and the display-name option. The first missing piece decides the
/// rejection, in that order, and nothing further runs.
pub fn validate_context(cmd: LinkCommand) -> (r: Result<ValidatedLink, CommandReply>)
    ensures
        cmd.group_id is None ==> (r matches Err(rep) && rep.text@ == msg_guild_only()
            && rep.ephemeral),
        cmd.group_id is Some && cmd.invoker_id is None ==> (r matches Err(rep) && rep.text@
            == msg_user_only() && rep.ephemeral),
        cmd.group_id is Some && cmd.invoker_id is Some && cmd.username is None ==> (r matches Err(
            rep,
        ) && rep.text@ == msg_generic() && rep.ephemeral),
        cmd.group_id matches Some(g) ==> cmd.invoker_id matches Some(u)
            ==> cmd.username matches Some(name) ==> (r matches Ok(v) && v.group_id == g
            && v.chat_id == u && v.username@ == name@),
{
    match cmd.group_id {
        None => Err(reply("This command can only be used in a server")),
        Some(group_id) => match cmd.invoker_id {
            None => Err(reply("This command can only be used by a user")),
            Some(chat_id) => match cmd.username {
                None => Err(reply("Something went wrong")),
                Some(username) => Ok(ValidatedLink { group_id, chat_id, username }),
            },
        },
    }
}

/// Reconciliation and response: given the resolver's outcome for a
/// validated command, write the mapping where one is owed, and decide the
/// final reply and whether an announcement is due.
///
/// A resolver failure or an unknown name writes nothing and announces
/// nothing; so do `AlreadyLinked` and `Conflict`. Exactly the outcomes
/// that wrote a row — `Created` and `Updated` — carry the announcement
/// payload and the success reply.
pub fn process_resolution(store: &mut IdentityStore, v: ValidatedLink, res: Resolution) -> (r:
    LinkOutcome)
    requires
        old(store).wf(),
    ensures
        final(store).wf(),
        r.reply.ephemeral,
        match res {
            Resolution::TransportFailure => final(store)@ == old(store)@ && r.reply.text@
                == msg_generic() && r.notification is None,
            Resolution::NotFound => final(store)@ == old(store)@ && r.reply.text@
                == msg_unknown_user() && r.notification is None,
            Resolution::Resolved(acc) => {
                &&& final(store)@ == spec_upsert_rows(old(store)@, v.chat_id, acc.game_id)
                &&& match spec_upsert_outcome(old(store)@, v.chat_id, acc.game_id) {
                    UpsertOutcome::AlreadyLinked => r.reply.text@ == msg_already_linked()
                        && r.notification is None,
                    UpsertOutcome::Conflict => r.reply.text@ == msg_conflict()
                        && r.notification is None,
                    UpsertOutcome::Created => r.reply.text@ == msg_success(v.username@) && (
                    r.notification matches Some(p) && notification_matches(
                        p,
                        v.chat_id,
                        acc.game_id,
                        acc.name@,
                    )),
                    UpsertOutcome::Updated => r.reply.text@ == msg_success(v.username@) && (
                    r.notification matches Some(p) && notification_matches(
                        p,
                        v.chat_id,
                        acc.game_id,
                        acc.name@,
                    )),
                }
            },
        },
{
    match res {
        Resolution::TransportFailure => LinkOutcome {
            reply: reply("Something went wrong"),
            notification: None,
        },
        Resolution::NotFound => LinkOutcome {
            reply: reply("That user does not exist!"),
            notification: None,
        },
        Resolution::Resolved(acc) => {
            let outcome = store.upsert(v.chat_id, acc.game_id);
            match outcome {
                UpsertOutcome::AlreadyLinked => LinkOutcome {
                    reply: reply("That user is already whitelisted!"),
                    notification: None,
                },
                UpsertOutcome::Conflict => LinkOutcome {
                    reply: reply("That Minecraft account is already linked to a different user!"),
                    notification: None,
                },
                _ => {
                    let payload = build_notification(v.chat_id, acc.game_id, acc.name);
                    let text = String::from_str("Successfully added ").concat(
                        v.username.as_str(),
                    ).concat(" to the whitelist");
                    LinkOutcome {
                        reply: CommandReply { text, ephemeral: true },
                        notification: Some(payload),
                    }
                },
            }
        },
    }
}

} // verus!
