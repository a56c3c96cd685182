use interchannel_mover::error::MoveError;
use interchannel_mover::guard::{find_hide_role, RoleRecord};
use interchannel_mover::progress::{create_progress_bar, progress_due, progress_message, starting_message};
use interchannel_mover::relocation::{
    active_webhook, avatar_url, check, compose_payload, display_name, dispatch_target, message_url,
    outbound_filename, webhook_name, AttachmentRecord, ChannelRecord, EmbedPart, MessageRecord,
    ReferenceRecord, ReplySource, WebhookRecord,
};

fn message(id: u64) -> MessageRecord {
    MessageRecord {
        id,
        channel_id: 10,
        guild_id: Some(1),
        author_id: 77,
        author_name: "alice".to_string(),
        author_avatar: Some("abc".to_string()),
        member_nick: None,
        member_avatar: None,
        content: "hello".to_string(),
        attachments: Vec::new(),
        embed_count: 0,
        reference: None,
        created_secs: 1_700_000_000,
        timestamp_micros: 1_700_000_000_000_000,
        ephemeral: false,
    }
}

fn text_channel(id: u64) -> ChannelRecord {
    ChannelRecord { id, is_thread: false, parent_id: None }
}

#[test]
fn plain_message_is_one_bare_dispatch() {
    let m = message(5);
    assert!(check(&m).is_ok());
    let p = compose_payload(&m, &text_channel(20), &None).unwrap();
    assert_eq!(p.username, "alice");
    assert_eq!(p.content, "hello");
    assert_eq!(p.avatar_url.as_deref(), Some("https://cdn.discordapp.com/avatars/77/abc.png"));
    assert!(p.attachments.is_empty());
    assert!(p.embeds.is_empty());
    assert_eq!(p.thread_id, None);
}

#[test]
fn reply_gets_one_linked_embed() {
    let mut m = message(6);
    m.embed_count = 2;
    m.reference = Some(ReferenceRecord { guild_id: Some(1), channel_id: 10, message_id: 4 });
    let mut answered = message(4);
    answered.author_id = 88;
    answered.author_name = "bob".to_string();
    answered.author_avatar = Some("def".to_string());
    answered.content = "question".to_string();
    let src = Some(ReplySource { message: answered, channel_name: "general".to_string() });
    let p = compose_payload(&m, &text_channel(20), &src).unwrap();
    assert_eq!(p.embeds.len(), 3);
    assert!(matches!(p.embeds[0], EmbedPart::Original(0)));
    assert!(matches!(p.embeds[1], EmbedPart::Original(1)));
    match &p.embeds[2] {
        EmbedPart::Reply(e) => {
            assert_eq!(e.url, "https://discord.com/channels/1/10/4");
            assert_eq!(e.field_name, "Jump");
            assert_eq!(e.field_value, "[Go to message](https://discord.com/channels/1/10/4)");
            assert_eq!(e.author_name, "bob");
            assert_eq!(e.icon_url.as_deref(), Some("https://cdn.discordapp.com/avatars/88/def.png"));
            assert_eq!(e.footer, "general");
            assert_eq!(e.description, "question");
            assert_eq!(e.timestamp_micros, 1_700_000_000_000_000);
        }
        EmbedPart::Original(_) => panic!("expected the reply embed last"),
    }
}

#[test]
fn attachments_are_forwarded_and_spoilered_when_ephemeral() {
    let mut m = message(7);
    m.ephemeral = true;
    m.attachments = vec![AttachmentRecord {
        id: 3,
        filename: "cat.png".to_string(),
        url: "https://cdn.example/cat.png".to_string(),
        description: Some("a cat".to_string()),
    }];
    let p = compose_payload(&m, &text_channel(20), &None).unwrap();
    assert_eq!(p.attachments.len(), 1);
    assert_eq!(p.attachments[0].filename, "SPOILER_cat.png");
    assert_eq!(p.attachments[0].source_url, "https://cdn.example/cat.png");
    assert_eq!(p.attachments[0].description.as_deref(), Some("a cat"));
    assert_eq!(p.attachments[0].id, 3);
    assert_eq!(outbound_filename(&"x.txt".to_string(), false), "x.txt");
}

#[test]
fn content_over_the_limit_is_refused() {
    let mut m = message(8);
    m.content = "é".repeat(2001);
    assert!(matches!(compose_payload(&m, &text_channel(20), &None), Err(MoveError::ContentTooLong)));
    m.content = "é".repeat(2000);
    assert!(compose_payload(&m, &text_channel(20), &None).is_ok());
}

#[test]
fn thread_destination_posts_through_its_parent() {
    let thread = ChannelRecord { id: 30, is_thread: true, parent_id: Some(20) };
    assert_eq!(dispatch_target(&thread), Ok((20, Some(30))));
    assert_eq!(dispatch_target(&text_channel(20)), Ok((20, None)));
    let orphan = ChannelRecord { id: 31, is_thread: true, parent_id: None };
    assert_eq!(dispatch_target(&orphan), Err(MoveError::MissingThreadParent));
    let p = compose_payload(&message(1), &thread, &None).unwrap();
    assert_eq!(p.thread_id, Some(30));
    assert!(matches!(compose_payload(&message(1), &orphan, &None), Err(MoveError::MissingThreadParent)));
}

#[test]
fn names_and_avatars() {
    let mut m = message(9);
    assert_eq!(display_name(&m), "alice");
    m.member_nick = Some("ally".to_string());
    assert_eq!(display_name(&m), "ally");
    m.member_avatar = Some("gav".to_string());
    assert_eq!(avatar_url(&m).as_deref(), Some("https://cdn.discordapp.com/guilds/1/users/77/avatar/gav.png"));
    m.guild_id = None;
    assert_eq!(avatar_url(&m).as_deref(), Some("https://cdn.discordapp.com/avatars/77/abc.png"));
    m.author_avatar = None;
    assert_eq!(avatar_url(&m), None);
}

#[test]
fn message_links() {
    assert_eq!(message_url(Some(1), 2, 3), "https://discord.com/channels/1/2/3");
    assert_eq!(message_url(None, 2, 3), "https://discord.com/channels/@me/2/3");
}

#[test]
fn first_webhook_with_a_token_is_used() {
    let hooks = vec![
        WebhookRecord { id: 1, token: None },
        WebhookRecord { id: 2, token: Some("t".to_string()) },
        WebhookRecord { id: 3, token: Some("u".to_string()) },
    ];
    assert_eq!(active_webhook(&hooks), Some(1));
    assert_eq!(active_webhook(&vec![WebhookRecord { id: 1, token: None }]), None);
    assert_eq!(webhook_name(), "interchannel message mover");
}

#[test]
fn hide_role_lookup() {
    let roles = vec![
        RoleRecord { id: 1, name: "hide".to_string() },
        RoleRecord { id: 2, name: "Hide".to_string() },
        RoleRecord { id: 3, name: "Hide".to_string() },
    ];
    assert_eq!(find_hide_role(&roles), Some(2));
    assert_eq!(find_hide_role(&vec![RoleRecord { id: 1, name: "Hidden".to_string() }]), None);
}

#[test]
fn progress_bar_rendering() {
    assert_eq!(create_progress_bar(5, 10), format!("[{}{}] 50%", "=".repeat(20), " ".repeat(20)));
    assert_eq!(create_progress_bar(0, 3), format!("[{}] 0%", " ".repeat(40)));
    assert_eq!(create_progress_bar(2, 3), format!("[{}{}] 66%", "=".repeat(26), " ".repeat(14)));
    assert_eq!(create_progress_bar(7, 7), format!("[{}] 100%", "=".repeat(40)));
    assert_eq!(progress_message(0, 4), format!("Moving 1/4:\n[{}] 0%", " ".repeat(40)));
}

#[test]
fn progress_throttling() {
    assert!(progress_due(4000, 0, 10));
    assert!(!progress_due(3999, 0, 10));
    assert!(progress_due(0, 9, 10));
}

#[test]
fn starting_messages_by_size() {
    assert_eq!(starting_message(3), "starting up the car :red_car:");
    assert_eq!(starting_message(15), "starting up the truck :pickup_truck:");
    assert_eq!(starting_message(25), "starting up the truck :truck:");
    assert_eq!(starting_message(40), "starting up the lorry :articulated_lorry:");
    assert_eq!(starting_message(41), "starting up the ship :ship: ");
}

#[test]
fn message_links_with_large_identifiers() {
    assert_eq!(
        message_url(Some(u64::MAX), 1234567890123456789, 10),
        "https://discord.com/channels/18446744073709551615/1234567890123456789/10"
    );
    assert_eq!(message_url(Some(0), 90, 100), "https://discord.com/channels/0/90/100");
}
