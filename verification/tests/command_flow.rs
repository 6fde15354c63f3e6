use whitelink::command::{process_resolution, validate_context, LinkCommand};
use whitelink::notify::{build_notification, Webhook};
use whitelink::resolver::{Resolution, ResolvedAccount};
use whitelink::store::{IdentityMapping, IdentityStore};

const GAME: u128 = 0xa1a2a3a4b1b2c1c2d1d2d3d4d5d6d7d8;

fn full_command() -> LinkCommand {
    LinkCommand {
        group_id: Some(900),
        invoker_id: Some(42),
        username: Some("Steve".to_string()),
    }
}

#[test]
fn command_outside_a_group_is_rejected() {
    let cmd = LinkCommand { group_id: None, ..full_command() };
    let rep = validate_context(cmd).unwrap_err();
    assert_eq!(rep.text, "This command can only be used in a server");
    assert!(rep.ephemeral);
}

#[test]
fn command_without_a_user_is_rejected() {
    let cmd = LinkCommand { invoker_id: None, ..full_command() };
    let rep = validate_context(cmd).unwrap_err();
    assert_eq!(rep.text, "This command can only be used by a user");
    assert!(rep.ephemeral);
}

#[test]
fn command_without_the_username_option_is_rejected() {
    let cmd = LinkCommand { username: None, ..full_command() };
    let rep = validate_context(cmd).unwrap_err();
    assert_eq!(rep.text, "Something went wrong");
    assert!(rep.ephemeral);
}

#[test]
fn complete_command_validates() {
    let v = validate_context(full_command()).unwrap();
    assert_eq!(v.group_id, 900);
    assert_eq!(v.chat_id, 42);
    assert_eq!(v.username, "Steve");
}

#[test]
fn unresolvable_name_answers_without_writing_or_notifying() {
    let mut store = IdentityStore::new();
    let v = validate_context(full_command()).unwrap();
    let out = process_resolution(&mut store, v, Resolution::NotFound);
    assert_eq!(out.reply.text, "That user does not exist!");
    assert!(out.reply.ephemeral);
    assert!(out.notification.is_none());
    assert_eq!(store.len(), 0);
}

#[test]
fn resolver_failure_answers_generically_without_writing() {
    let mut store = IdentityStore::new();
    let v = validate_context(full_command()).unwrap();
    let out = process_resolution(&mut store, v, Resolution::TransportFailure);
    assert_eq!(out.reply.text, "Something went wrong");
    assert!(out.notification.is_none());
    assert_eq!(store.len(), 0);
}

#[test]
fn first_successful_link_writes_one_row_and_announces_it() {
    let mut store = IdentityStore::new();
    let v = validate_context(full_command()).unwrap();
    let resolved = Resolution::Resolved(ResolvedAccount {
        game_id: GAME,
        name: "Steve".to_string(),
    });
    let out = process_resolution(&mut store, v, resolved);
    assert_eq!(out.reply.text, "Successfully added Steve to the whitelist");
    assert!(out.reply.ephemeral);
    assert_eq!(
        store.list_all(),
        vec![IdentityMapping { chat_id: 42, game_id: GAME }]
    );
    let payload = out.notification.expect("a successful link announces itself");
    assert_eq!(payload.fields.len(), 3);
    assert_eq!(payload.fields[0].name, "Discord User");
    assert_eq!(payload.fields[0].value, "`42` <@42>");
    assert_eq!(payload.fields[1].name, "Minecraft Username");
    assert_eq!(payload.fields[1].value, "Steve");
    assert_eq!(payload.fields[2].name, "Minecraft UUID");
    let uuid_text = uuid::Uuid::from_u128(GAME).hyphenated().to_string();
    assert_eq!(payload.fields[2].value, format!("`{}`", uuid_text));
}

#[test]
fn reply_names_the_typed_name_and_payload_the_resolved_one() {
    let mut store = IdentityStore::new();
    let cmd = LinkCommand { username: Some("sTeVe".to_string()), ..full_command() };
    let v = validate_context(cmd).unwrap();
    let resolved = Resolution::Resolved(ResolvedAccount {
        game_id: GAME,
        name: "Steve".to_string(),
    });
    let out = process_resolution(&mut store, v, resolved);
    assert_eq!(out.reply.text, "Successfully added sTeVe to the whitelist");
    let payload = out.notification.unwrap();
    assert_eq!(payload.fields[1].value, "Steve");
}

#[test]
fn relinking_the_same_account_answers_already_whitelisted() {
    let mut store = IdentityStore::new();
    let v = validate_context(full_command()).unwrap();
    let resolved = Resolution::Resolved(ResolvedAccount {
        game_id: GAME,
        name: "Steve".to_string(),
    });
    process_resolution(&mut store, v, resolved);
    let v = validate_context(full_command()).unwrap();
    let resolved = Resolution::Resolved(ResolvedAccount {
        game_id: GAME,
        name: "Steve".to_string(),
    });
    let out = process_resolution(&mut store, v, resolved);
    assert_eq!(out.reply.text, "That user is already whitelisted!");
    assert!(out.notification.is_none());
    assert_eq!(store.len(), 1);
}

#[test]
fn stealing_a_linked_game_account_is_refused() {
    let mut store = IdentityStore::new();
    let v = validate_context(full_command()).unwrap();
    let resolved = Resolution::Resolved(ResolvedAccount {
        game_id: GAME,
        name: "Steve".to_string(),
    });
    process_resolution(&mut store, v, resolved);
    let other = LinkCommand { invoker_id: Some(7), ..full_command() };
    let v = validate_context(other).unwrap();
    let resolved = Resolution::Resolved(ResolvedAccount {
        game_id: GAME,
        name: "Steve".to_string(),
    });
    let out = process_resolution(&mut store, v, resolved);
    assert_eq!(
        out.reply.text,
        "That Minecraft account is already linked to a different user!"
    );
    assert!(out.notification.is_none());
    assert_eq!(
        store.list_all(),
        vec![IdentityMapping { chat_id: 42, game_id: GAME }]
    );
}

#[test]
fn notification_payload_names_the_link_in_full() {
    let payload = build_notification(42, GAME, "Steve".to_string());
    let uuid_text = uuid::Uuid::from_u128(GAME).hyphenated().to_string();
    assert_eq!(payload.username, "WinterJam");
    assert_eq!(
        payload.avatar_url,
        "https://winterjam.tophatcat.dev/images/util/webhook-logo.png"
    );
    assert_eq!(payload.title, "Whitelist Update");
    assert_eq!(
        payload.thumbnail.url,
        format!("https://crafthead.net/bust/{}/128", uuid_text)
    );
    assert_eq!(payload.thumbnail.width, 128);
    assert_eq!(payload.thumbnail.height, 128);
    assert_eq!(uuid_text, "a1a2a3a4-b1b2-c1c2-d1d2-d3d4d5d6d7d8");
}

#[test]
fn webhook_keeps_its_address() {
    let hook = Webhook::new("https://example.invalid/hook".to_string());
    assert_eq!(hook.url().as_str(), "https://example.invalid/hook");
}
