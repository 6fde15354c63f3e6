//! The outbound notification: the webhook target and the announcement
//! payload for a successful link.
//!
//! Delivery is best-effort and happens outside; this module fixes what the
//! payload says. The payload names the invoking chat user, the resolved
//! display name, and the resolved game id. The delivery timestamp is
//! attached at send time, since the clock is not part of the payload's
//! contract.

use vstd::prelude::*;

use crate::digits::dec_string;
use crate::digits::u64_to_dec;
use crate::gameid::{uuid_hyphenated, uuid_text_of};

verus! {

/// The webhook endpoint a notification is delivered to.
#[derive(Clone, Debug)]
pub struct Webhook {
    url: String,
}

impl Webhook {
    /// The endpoint's address.
    pub closed spec fn spec_url(&self) -> Seq<char> {
        self.url@
    }

    pub fn new(url: String) -> (w: Self)
        ensures
            w.spec_url() == url@,
    {
        Webhook { url }
    }

    /// The endpoint's address, for the component that delivers.
    pub fn url(&self) -> (u: &String)
        ensures
            u@ == self.spec_url(),
    {
        &self.url
    }
}

/// One named field of the notification's embed.
#[derive(Debug)]
pub struct EmbedFieldData {
    pub name: String,
    pub value: String,
}

/// The embed's thumbnail: an image address and its dimensions.
#[derive(Debug)]
pub struct ThumbnailData {
    pub url: String,
    pub width: u32,
    pub height: u32,
}

/// The announcement of a successful link.
#[derive(Debug)]
pub struct NotificationPayload {
    /// The display name the notification is posted under.
    pub username: String,
    /// The avatar shown beside it.
    pub avatar_url: String,
    /// The embed's title.
    pub title: String,
    /// The embed's thumbnail: the linked account's head render.
    pub thumbnail: ThumbnailData,
    /// The three named fields: invoking user, display name, game id.
    pub fields: Vec<EmbedFieldData>,
}

pub open spec fn notify_username() -> Seq<char> {
    "WinterJam"@
}

pub open spec fn notify_avatar_url() -> Seq<char> {
    "https://winterjam.tophatcat.dev/images/util/webhook-logo.png"@
}

pub open spec fn notify_title() -> Seq<char> {
    "Whitelist Update"@
}

/// The thumbnail address for a game id: its head render at 128 pixels.
pub open spec fn thumbnail_text(game_id: u128) -> Seq<char> {
    "https://crafthead.net/bust/"@ + uuid_text_of(game_id) + "/128"@
}

/// The invoking user's reference: the id in code style followed by a
/// platform mention of the same id.
pub open spec fn user_ref_text(chat_id: u64) -> Seq<char> {
    "`"@ + dec_string(chat_id as nat) + "` <@"@ + dec_string(chat_id as nat) + ">"@
}

/// The game id in code style.
pub open spec fn game_ref_text(game_id: u128) -> Seq<char> {
    "`"@ + uuid_text_of(game_id) + "`"@
}

/// What the announcement of a link of `chat_id` to `game_id` under the
/// resolved display name `name` must say.
pub open spec fn notification_matches(
    p: NotificationPayload,
    chat_id: u64,
    game_id: u128,
    name: Seq<char>,
) -> bool {
    &&& p.username@ == notify_username()
    &&& p.avatar_url@ == notify_avatar_url()
    &&& p.title@ == notify_title()
    &&& p.thumbnail.url@ == thumbnail_text(game_id)
    &&& p.thumbnail.width == 128u32
    &&& p.thumbnail.height == 128u32
    &&& p.fields@.len() == 3
    &&& p.fields@[0].name@ == "Discord User"@
    &&& p.fields@[0].value@ == user_ref_text(chat_id)
    &&& p.fields@[1].name@ == "Minecraft Username"@
    &&& p.fields@[1].value@ == name
    &&& p.fields@[2].name@ == "Minecraft UUID"@
    &&& p.fields@[2].value@ == game_ref_text(game_id)
}

/// Build the announcement payload for a successful link.
pub fn build_notification(chat_id: u64, game_id: u128, name: String) -> (p: NotificationPayload)
    ensures
        notification_matches(p, chat_id, game_id, name@),
{
    let game_text = uuid_hyphenated(game_id);
    let chat_text = u64_to_dec(chat_id);

    let thumb_url = String::from_str("https://crafthead.net/bust/").concat(game_text.as_str())
        .concat("/128");
    let user_ref = String::from_str("`").concat(chat_text.as_str()).concat("` <@").concat(
        chat_text.as_str(),
    ).concat(">");
    let game_ref = String::from_str("`").concat(game_text.as_str()).concat("`");

    let mut fields: Vec<EmbedFieldData> = Vec::new();
    fields.push(
        EmbedFieldData { name: String::from_str("Discord User"), value: user_ref },
    );
    fields.push(
        EmbedFieldData { name: String::from_str("Minecraft Username"), value: name },
    );
    fields.push(EmbedFieldData { name: String::from_str("Minecraft UUID"), value: game_ref });

    NotificationPayload {
        username: String::from_str("WinterJam"),
        avatar_url: String::from_str(
            "https://winterjam.tophatcat.dev/images/util/webhook-logo.png",
        ),
        title: String::from_str("Whitelist Update"),
        thumbnail: ThumbnailData { url: thumb_url, width: 128, height: 128 },
        fields,
    }
}

} // verus!
