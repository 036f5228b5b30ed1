use vstd::prelude::*;
use crate::models::message::Message;
use crate::text::string_of;

verus! {

// ── DTOs ────────────────────────────────────────────────────────────────────

/// Body of a chat message.
pub struct SendMessageBody {
    pub to_user_id: String,
    pub content: String,
}

/// A conversation with the partner's profile summary.
pub struct ConversationWithPartner {
    pub partner_id: String,
    pub partner_name: String,
    pub partner_avatar: Option<String>,
    pub partner_initials: String,
    pub partner_gradient: String,
    pub last_message: String,
    pub unread_count: i64,
    pub updated_at: i64,
}

/// What a conversation list shows of a partner: name, avatar, initials and
/// gradient.
pub struct PartnerProfile {
    pub name: String,
    pub avatar_url: Option<String>,
    pub initials: String,
    pub gradient: String,
}

/// A conversation entry; a partner whose account is gone shows as `Unknown`
/// with initials `??`.
pub fn conversation_entry(
    partner_id: String,
    partner: Option<PartnerProfile>,
    last_message: String,
    unread_count: i64,
    updated_at: i64,
) -> (c: ConversationWithPartner)
    ensures
        c.partner_id == partner_id,
        c.last_message == last_message,
        c.unread_count == unread_count,
        c.updated_at == updated_at,
        match partner {
            Some(p) => c.partner_name == p.name && c.partner_avatar == p.avatar_url
                && c.partner_initials == p.initials && c.partner_gradient == p.gradient,
            None => c.partner_name@ == "Unknown"@ && c.partner_avatar is None
                && c.partner_initials@ == "??"@ && c.partner_gradient@.len() == 0,
        },
{
    let (name, avatar, initials, gradient) = match partner {
        Some(p) => (p.name, p.avatar_url, p.initials, p.gradient),
        None => ("Unknown".to_string(), None, "??".to_string(), String::new()),
    };
    ConversationWithPartner {
        partner_id,
        partner_name: name,
        partner_avatar: avatar,
        partner_initials: initials,
        partner_gradient: gradient,
        last_message,
        unread_count,
        updated_at,
    }
}

/// A new, unread message from `from` to `to`.
pub fn new_message(id: String, from_user_id: &str, to_user_id: String, content: String, now: i64) -> (m: Message)
    ensures
        m.id == id,
        m.from_user_id@ == from_user_id@,
        m.to_user_id == to_user_id,
        m.content == content,
        !m.read,
        m.created_at == now,
{
    Message { id, from_user_id: string_of(from_user_id), to_user_id, content, read: false, created_at: now }
}

// ── The live channel ────────────────────────────────────────────────────────

/// What happened on a user's live chat channel.
pub enum ChatEvent {
    /// A text frame from the client, with the recipient and content when it
    /// reads as a message.
    ClientText(Option<(String, String)>),
    /// The client closed the connection (or it ended).
    ClientClosed,
    /// Any other frame from the client.
    ClientOther,
    /// A payload broadcast to this user.
    Broadcast(String),
    /// The broadcast receiver fell behind and skipped payloads.
    BroadcastLagged,
    /// The broadcast channel closed.
    BroadcastClosed,
    /// Sending a payload to the client failed.
    SendFailed,
}

/// What the channel does next.
pub enum ChatAction {
    /// Store the message, then broadcast it to its recipient.
    StoreAndForward(Message),
    /// Send a payload to the client.
    Deliver(String),
    /// Nothing; keep listening.
    Continue,
    /// End the channel.
    Stop,
}

/// The channel's decision for one event: messages the client sends are
/// stored and forwarded, broadcasts delivered, lag skipped; closing, a closed
/// broadcast or a failed send ends the channel.
pub fn chat_step(user_id: &str, event: ChatEvent, id: String, now: i64) -> (a: ChatAction)
    ensures
        match event {
            ChatEvent::ClientText(Some((to, content))) => a matches ChatAction::StoreAndForward(m) && m.id
                == id && m.from_user_id@ == user_id@ && m.to_user_id == to && m.content == content
                && !m.read && m.created_at == now,
            ChatEvent::ClientText(None) => a is Continue,
            ChatEvent::ClientOther => a is Continue,
            ChatEvent::BroadcastLagged => a is Continue,
            ChatEvent::Broadcast(p) => a == ChatAction::Deliver(p),
            ChatEvent::ClientClosed => a is Stop,
            ChatEvent::BroadcastClosed => a is Stop,
            ChatEvent::SendFailed => a is Stop,
        },
{
    match event {
        ChatEvent::ClientText(Some((to, content))) => ChatAction::StoreAndForward(
            new_message(id, user_id, to, content, now),
        ),
        ChatEvent::ClientText(None) => ChatAction::Continue,
        ChatEvent::ClientOther => ChatAction::Continue,
        ChatEvent::BroadcastLagged => ChatAction::Continue,
        ChatEvent::Broadcast(p) => ChatAction::Deliver(p),
        ChatEvent::ClientClosed => ChatAction::Stop,
        ChatEvent::BroadcastClosed => ChatAction::Stop,
        ChatEvent::SendFailed => ChatAction::Stop,
    }
}

} // verus!
