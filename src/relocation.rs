use vstd::prelude::*;
use crate::error::MoveError;
use crate::text::{decimal, decimal_text};

verus! {

/// The most characters that a message's content may hold.
pub const CONTENT_LIMIT: usize = 2000;

/// Name of the webhook created in a destination channel that has none.
pub fn webhook_name() -> (r: &'static str)
    ensures
        r@ == "interchannel message mover"@,
{
    "interchannel message mover"
}

/// Delay after each relocated message, in milliseconds.
pub const MESSAGE_DELAY_MS: u64 = 200;

/// Longest wait for a dispatch that carries an avatar, in seconds.
pub const DISPATCH_TIMEOUT_SECS: u64 = 60;

/// A file attached to a message.
pub struct AttachmentRecord {
    pub id: u64,
    pub filename: String,
    pub url: String,
    pub description: Option<String>,
}

/// The message that a reply answers.
pub struct ReferenceRecord {
    pub guild_id: Option<u64>,
    pub channel_id: u64,
    pub message_id: u64,
}

/// What relocation reads of a message.
pub struct MessageRecord {
    pub id: u64,
    pub channel_id: u64,
    pub guild_id: Option<u64>,
    pub author_id: u64,
    pub author_name: String,
    /// Hash of the author's global avatar.
    pub author_avatar: Option<String>,
    /// The author's nickname in the guild.
    pub member_nick: Option<String>,
    /// Hash of the author's guild-specific avatar.
    pub member_avatar: Option<String>,
    pub content: String,
    pub attachments: Vec<AttachmentRecord>,
    /// How many embeds the message carries; they are passed on unchanged.
    pub embed_count: usize,
    pub reference: Option<ReferenceRecord>,
    /// Creation time, in seconds since the Unix epoch.
    pub created_secs: u64,
    /// Creation time, in microseconds since the Unix epoch.
    pub timestamp_micros: i64,
    /// Whether the message carries the ephemeral flag: its files are re-sent as spoilers.
    pub ephemeral: bool,
}

/// What relocation reads of a channel.
pub struct ChannelRecord {
    pub id: u64,
    pub is_thread: bool,
    pub parent_id: Option<u64>,
}

/// A webhook of a channel; only one with a token can be used.
pub struct WebhookRecord {
    pub id: u64,
    pub token: Option<String>,
}

/// A file to upload with the copy.
pub struct OutboundAttachment {
    pub id: u64,
    pub filename: String,
    /// Where to download the file from.
    pub source_url: String,
    pub description: Option<String>,
}

/// The embed that stands for the message a reply answers.
pub struct ReplyEmbed {
    pub author_name: String,
    pub icon_url: Option<String>,
    /// Name of the channel of the answered message.
    pub footer: String,
    /// Link to the answered message.
    pub url: String,
    pub field_name: String,
    pub field_value: String,
    pub description: String,
    pub timestamp_micros: i64,
}

/// One embed of the copy.
pub enum EmbedPart {
    /// The original message's embed at this position, unchanged.
    Original(usize),
    /// The embed built for a reply.
    Reply(ReplyEmbed),
}

/// Everything one dispatch through the webhook sends.
pub struct WebhookPayload {
    pub username: String,
    pub avatar_url: Option<String>,
    pub content: String,
    pub thread_id: Option<u64>,
    pub attachments: Vec<OutboundAttachment>,
    pub embeds: Vec<EmbedPart>,
}

pub open spec fn opt_view(o: Option<String>) -> Option<Seq<char>> {
    match o {
        Some(s) => Some(s@),
        None => None,
    }
}

fn clone_opt(o: &Option<String>) -> (r: Option<String>)
    ensures
        opt_view(r) == opt_view(*o),
{
    match o {
        Some(s) => Some(s.clone()),
        None => None,
    }
}

/// The name shown for the author: the guild nickname, else the account name.
pub open spec fn display_name_of(m: MessageRecord) -> Seq<char> {
    match m.member_nick {
        Some(n) => n@,
        None => m.author_name@,
    }
}

pub fn display_name(m: &MessageRecord) -> (r: String)
    ensures
        r@ == display_name_of(*m),
{
    match &m.member_nick {
        Some(n) => n.clone(),
        None => m.author_name.clone(),
    }
}

pub open spec fn guild_avatar_url_text(guild: u64, user: u64, hash: Seq<char>) -> Seq<char> {
    "https://cdn.discordapp.com/guilds/"@ + decimal_text(guild as nat) + "/users/"@ + decimal_text(user as nat)
        + "/avatar/"@ + hash + ".png"@
}

pub open spec fn user_avatar_url_text(user: u64, hash: Seq<char>) -> Seq<char> {
    "https://cdn.discordapp.com/avatars/"@ + decimal_text(user as nat) + "/"@ + hash + ".png"@
}

/// The avatar shown for the author: the guild-specific one when the message is
/// in a guild, else the global one, else none (the platform's default).
pub open spec fn avatar_url_of(m: MessageRecord) -> Option<Seq<char>> {
    match (m.member_avatar, m.guild_id) {
        (Some(h), Some(g)) => Some(guild_avatar_url_text(g, m.author_id, h@)),
        _ => match m.author_avatar {
            Some(h) => Some(user_avatar_url_text(m.author_id, h@)),
            None => None,
        },
    }
}

fn user_avatar_url(user: u64, hash: &String) -> (r: String)
    ensures
        r@ == user_avatar_url_text(user, hash@),
{
    let mut s = String::from_str("https://cdn.discordapp.com/avatars/");
    let u = decimal(user);
    s.append(u.as_str());
    s.append("/");
    s.append(hash.as_str());
    s.append(".png");
    s
}

pub fn avatar_url(m: &MessageRecord) -> (r: Option<String>)
    ensures
        opt_view(r) == avatar_url_of(*m),
{
    match (&m.member_avatar, m.guild_id) {
        (Some(h), Some(g)) => {
            let mut s = String::from_str("https://cdn.discordapp.com/guilds/");
            let gs = decimal(g);
            s.append(gs.as_str());
            s.append("/users/");
            let us = decimal(m.author_id);
            s.append(us.as_str());
            s.append("/avatar/");
            s.append(h.as_str());
            s.append(".png");
            Some(s)
        },
        _ => match &m.author_avatar {
            Some(h) => Some(user_avatar_url(m.author_id, h)),
            None => None,
        },
    }
}

/// The name a file is re-sent under: marked as a spoiler when the message is ephemeral.
pub open spec fn outbound_filename_of(name: Seq<char>, ephemeral: bool) -> Seq<char> {
    if ephemeral { "SPOILER_"@ + name } else { name }
}

pub fn outbound_filename(name: &String, ephemeral: bool) -> (r: String)
    ensures
        r@ == outbound_filename_of(name@, ephemeral),
{
    if ephemeral {
        String::from_str("SPOILER_").concat(name.as_str())
    } else {
        name.clone()
    }
}

/// `https://discord.com/channels/<guild or @me>/<channel>/<message>`.
pub open spec fn message_url_text(guild: Option<u64>, channel: u64, message: u64) -> Seq<char> {
    "https://discord.com/channels/"@ + match guild {
        Some(g) => decimal_text(g as nat),
        None => "@me"@,
    } + "/"@ + decimal_text(channel as nat) + "/"@ + decimal_text(message as nat)
}

pub fn message_url(guild: Option<u64>, channel: u64, message: u64) -> (r: String)
    ensures
        r@ == message_url_text(guild, channel, message),
{
    let mut s = String::from_str("https://discord.com/channels/");
    match guild {
        Some(g) => {
            let gs = decimal(g);
            s.append(gs.as_str());
        },
        None => {
            s.append("@me");
        },
    }
    s.append("/");
    let cs = decimal(channel);
    s.append(cs.as_str());
    s.append("/");
    let ms = decimal(message);
    s.append(ms.as_str());
    s
}

/// Whether content fits the platform's limit, counted in characters.
pub fn content_fits(content: &str) -> (r: bool)
    ensures
        r == (content@.len() <= CONTENT_LIMIT),
{
    content.unicode_len() <= CONTENT_LIMIT
}

/// The channel to post into and the thread to target: a thread is reached
/// through its parent channel.
pub open spec fn dispatch_target_of(c: ChannelRecord) -> Result<(u64, Option<u64>), MoveError> {
    if c.is_thread {
        match c.parent_id {
            Some(p) => Ok((p, Some(c.id))),
            None => Err(MoveError::MissingThreadParent),
        }
    } else {
        Ok((c.id, None))
    }
}

pub fn dispatch_target(c: &ChannelRecord) -> (r: Result<(u64, Option<u64>), MoveError>)
    ensures
        r == dispatch_target_of(*c),
{
    if c.is_thread {
        match c.parent_id {
            Some(p) => Ok((p, Some(c.id))),
            None => Err(MoveError::MissingThreadParent),
        }
    } else {
        Ok((c.id, None))
    }
}

/// The position of the first webhook that holds a token.
pub fn active_webhook(hooks: &Vec<WebhookRecord>) -> (r: Option<usize>)
    ensures
        match r {
            Some(i) => i < hooks@.len() && hooks@[i as int].token is Some
                && forall|j: int| 0 <= j < i ==> (#[trigger] hooks@[j]).token is None,
            None => forall|j: int| 0 <= j < hooks@.len() ==> (#[trigger] hooks@[j]).token is None,
        },
{
    let mut i: usize = 0;
    while i < hooks.len()
        invariant
            0 <= i <= hooks@.len(),
            forall|j: int| 0 <= j < i ==> (#[trigger] hooks@[j]).token is None,
        decreases hooks@.len() - i,
    {
        if hooks[i].token.is_some() {
            return Some(i);
        }
        i = i + 1;
    }
    None
}

/// The embed standing for the answered message `referenced`, of which `reference`
/// is the link and `channel_name` the channel's name.
pub open spec fn reply_embed_matches(e: ReplyEmbed, reference: ReferenceRecord, referenced: MessageRecord, channel_name: Seq<char>) -> bool {
    let url = message_url_text(reference.guild_id, reference.channel_id, reference.message_id);
    &&& e.author_name@ == referenced.author_name@
    &&& opt_view(e.icon_url) == match referenced.author_avatar {
        Some(h) => Some(user_avatar_url_text(referenced.author_id, h@)),
        None => None,
    }
    &&& e.footer@ == channel_name
    &&& e.url@ == url
    &&& e.field_name@ == "Jump"@
    &&& e.field_value@ == "[Go to message]("@ + url + ")"@
    &&& e.description@ == referenced.content@
    &&& e.timestamp_micros == referenced.timestamp_micros
}

pub fn reply_embed(reference: &ReferenceRecord, referenced: &MessageRecord, channel_name: &String) -> (r: ReplyEmbed)
    ensures
        reply_embed_matches(r, *reference, *referenced, channel_name@),
{
    let url = message_url(reference.guild_id, reference.channel_id, reference.message_id);
    let icon_url = match &referenced.author_avatar {
        Some(h) => Some(user_avatar_url(referenced.author_id, h)),
        None => None,
    };
    let field_value = String::from_str("[Go to message](").concat(url.as_str()).concat(")");
    ReplyEmbed {
        author_name: referenced.author_name.clone(),
        icon_url,
        footer: channel_name.clone(),
        url,
        field_name: String::from_str("Jump"),
        field_value,
        description: referenced.content.clone(),
        timestamp_micros: referenced.timestamp_micros,
    }
}

/// The answered message, fetched, with its channel's name.
pub struct ReplySource {
    pub message: MessageRecord,
    pub channel_name: String,
}

pub open spec fn attachments_match(out: Seq<OutboundAttachment>, m: MessageRecord) -> bool {
    &&& out.len() == m.attachments@.len()
    &&& forall|i: int| 0 <= i < out.len() ==> {
        &&& (#[trigger] out[i]).id == m.attachments@[i].id
        &&& out[i].filename@ == outbound_filename_of(m.attachments@[i].filename@, m.ephemeral)
        &&& out[i].source_url@ == m.attachments@[i].url@
        &&& opt_view(out[i].description) == opt_view(m.attachments@[i].description)
    }
}

/// The original embeds in order, then the reply's embed when the message is a
/// reply whose answered message was fetched.
pub open spec fn embeds_match(out: Seq<EmbedPart>, m: MessageRecord, reply: Option<ReplySource>) -> bool {
    &&& forall|i: int| 0 <= i < m.embed_count ==> #[trigger] out[i] == EmbedPart::Original(i as usize)
    &&& match (m.reference, reply) {
        (Some(rf), Some(src)) => {
            &&& out.len() == m.embed_count + 1
            &&& out[m.embed_count as int] matches EmbedPart::Reply(e)
            &&& reply_embed_matches(out[m.embed_count as int]->Reply_0, rf, src.message, src.channel_name@)
        },
        _ => out.len() == m.embed_count,
    }
}

/// The payload that copies `m` into the channel `target`: fails exactly when
/// the content is over the limit or the target is a thread with no parent.
pub open spec fn payload_matches(p: WebhookPayload, m: MessageRecord, target: ChannelRecord, reply: Option<ReplySource>) -> bool {
    &&& p.username@ == display_name_of(m)
    &&& opt_view(p.avatar_url) == avatar_url_of(m)
    &&& p.content@ == m.content@
    &&& p.thread_id == dispatch_target_of(target).unwrap().1
    &&& attachments_match(p.attachments@, m)
    &&& embeds_match(p.embeds@, m, reply)
}

fn outbound_attachments(m: &MessageRecord) -> (r: Vec<OutboundAttachment>)
    ensures
        attachments_match(r@, *m),
{
    let mut out: Vec<OutboundAttachment> = Vec::new();
    let mut i: usize = 0;
    while i < m.attachments.len()
        invariant
            0 <= i <= m.attachments@.len(),
            out@.len() == i,
            forall|k: int| 0 <= k < i ==> {
                &&& (#[trigger] out@[k]).id == m.attachments@[k].id
                &&& out@[k].filename@ == outbound_filename_of(m.attachments@[k].filename@, m.ephemeral)
                &&& out@[k].source_url@ == m.attachments@[k].url@
                &&& opt_view(out@[k].description) == opt_view(m.attachments@[k].description)
            },
        decreases m.attachments@.len() - i,
    {
        let a = &m.attachments[i];
        let item = OutboundAttachment {
            id: a.id,
            filename: outbound_filename(&a.filename, m.ephemeral),
            source_url: a.url.clone(),
            description: clone_opt(&a.description),
        };
        out.push(item);
        i = i + 1;
    }
    out
}

/// Composes the copy of `m` for the destination `target`.
pub fn compose_payload(m: &MessageRecord, target: &ChannelRecord, reply: &Option<ReplySource>) -> (r: Result<WebhookPayload, MoveError>)
    ensures
        match r {
            Ok(p) => m.content@.len() <= CONTENT_LIMIT && dispatch_target_of(*target) is Ok
                && payload_matches(p, *m, *target, *reply),
            Err(e) => (e == MoveError::ContentTooLong && m.content@.len() > CONTENT_LIMIT)
                || (e == MoveError::MissingThreadParent && dispatch_target_of(*target) is Err
                    && m.content@.len() <= CONTENT_LIMIT),
        },
{
    if !content_fits(m.content.as_str()) {
        return Err(MoveError::ContentTooLong);
    }
    let thread_id = match dispatch_target(target) {
        Ok((_, t)) => t,
        Err(e) => return Err(e),
    };
    let mut embeds: Vec<EmbedPart> = Vec::new();
    let mut i: usize = 0;
    while i < m.embed_count
        invariant
            0 <= i <= m.embed_count,
            embeds@.len() == i,
            forall|k: int| 0 <= k < i ==> #[trigger] embeds@[k] == EmbedPart::Original(k as usize),
        decreases m.embed_count - i,
    {
        embeds.push(EmbedPart::Original(i));
        i = i + 1;
    }
    match (&m.reference, reply) {
        (Some(rf), Some(src)) => {
            let e = reply_embed(rf, &src.message, &src.channel_name);
            embeds.push(EmbedPart::Reply(e));
        },
        _ => {},
    }
    Ok(WebhookPayload {
        username: display_name(m),
        avatar_url: avatar_url(m),
        content: m.content.clone(),
        thread_id,
        attachments: outbound_attachments(m),
        embeds,
    })
}

/// The content policy a message must meet before it is relocated: at present
/// every message passes.
pub fn check(m: &MessageRecord) -> (r: Result<(), MoveError>)
    ensures
        r is Ok,
{
    Ok(())
}

/// A message with no attachment and no reply is copied by one dispatch with no
/// file and no embed beyond its own.
pub proof fn law_plain_message_payload(p: WebhookPayload, m: MessageRecord, target: ChannelRecord, reply: Option<ReplySource>)
    requires
        m.attachments@.len() == 0,
        m.reference is None,
        payload_matches(p, m, target, reply),
    ensures
        p.attachments@.len() == 0,
        p.embeds@.len() == m.embed_count,
        forall|i: int| 0 <= i < p.embeds@.len() ==> !(#[trigger] p.embeds@[i] is Reply),
{
}

/// The copy of a reply carries one embed more than the original, and that one
/// links to the answered message.
pub proof fn law_reply_adds_one_linked_embed(p: WebhookPayload, m: MessageRecord, target: ChannelRecord, src: ReplySource)
    requires
        m.reference is Some,
        payload_matches(p, m, target, Some(src)),
    ensures
        p.embeds@.len() == m.embed_count + 1,
        p.embeds@.last() is Reply,
        p.embeds@.last()->Reply_0.url@ == message_url_text(
            m.reference.unwrap().guild_id,
            m.reference.unwrap().channel_id,
            m.reference.unwrap().message_id,
        ),
        forall|i: int| 0 <= i < m.embed_count ==> #[trigger] p.embeds@[i] == EmbedPart::Original(i as usize),
{
}

} // verus!
