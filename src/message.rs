//! Messages posted in channels, and the requests that create and page them.

use vstd::prelude::*;
use crate::channel::{Channel, channel_json};
use crate::ids::{generate_ulid, is_ulid_text};
use crate::json::{json_optional_string, json_string, push_json_optional_string, push_json_string};
use crate::user::{User, user_json};

verus! {

/// A message. `created` is its RFC 3339 time of creation.
#[derive(Debug, Clone)]
pub struct Message {
    pub id: String,
    pub channel_id: String,
    pub author_id: Option<String>,
    pub content: String,
    pub created: String,
}

/// A request to post a message.
#[derive(Debug, Clone)]
pub struct MessageCreate {
    pub channel_id: String,
    pub content: String,
}

/// A message with its channel and, where known, its author.
#[derive(Debug, Clone)]
pub struct MessageResponse {
    pub message: Message,
    pub channel: Channel,
    pub author: Option<User>,
}

/// A request for the messages of a channel before a time.
#[derive(Debug, Clone)]
pub struct MessageFetchBefore {
    pub channel: String,
    pub before: String,
    pub max: Option<i64>,
}

/// A request for the messages of a channel after a time.
#[derive(Debug, Clone)]
pub struct MessageFetchAfter {
    pub channel: String,
    pub after: String,
    pub max: Option<i64>,
}

/// The JSON object of a message.
pub open spec fn message_json(m: Message) -> Seq<char> {
    "{\"id\":"@ + json_string(m.id@) + ",\"channel_id\":"@ + json_string(m.channel_id@)
        + ",\"author_id\":"@ + json_optional_string(m.author_id) + ",\"content\":"@ + json_string(
        m.content@,
    ) + ",\"created\":"@ + json_string(m.created@) + "}"@
}

/// The JSON value of an optional author.
pub open spec fn author_json(a: Option<User>) -> Seq<char> {
    match a {
        Some(u) => user_json(u),
        None => "null"@,
    }
}

/// The JSON object of a message response.
pub open spec fn message_response_json(r: MessageResponse) -> Seq<char> {
    "{\"message\":"@ + message_json(r.message) + ",\"channel\":"@ + channel_json(r.channel)
        + ",\"author\":"@ + author_json(r.author) + "}"@
}

/// Relies on chrono's `Utc::now` and `DateTime::to_rfc3339`: the current
/// time as RFC 3339 text.
#[verifier::external_body]
fn now_rfc3339() -> (r: String) {
    chrono::Utc::now().to_rfc3339()
}

impl Message {
    /// A new message by `author_id` in `channel_id`, under a fresh ULID and
    /// stamped with the current time.
    pub fn new(channel_id: String, author_id: String, content: String) -> (r: Self)
        ensures
            is_ulid_text(r.id@),
            r.channel_id == channel_id,
            r.author_id == Some(author_id),
            r.content == content,
    {
        Message {
            id: generate_ulid(),
            channel_id,
            author_id: Some(author_id),
            content,
            created: now_rfc3339(),
        }
    }

    /// Appends this message as a JSON object.
    pub fn write_json(&self, out: &mut String)
        ensures
            final(out)@ == old(out)@ + message_json(*self),
    {
        out.append("{\"id\":");
        push_json_string(out, self.id.as_str());
        out.append(",\"channel_id\":");
        push_json_string(out, self.channel_id.as_str());
        out.append(",\"author_id\":");
        push_json_optional_string(out, &self.author_id);
        out.append(",\"content\":");
        push_json_string(out, self.content.as_str());
        out.append(",\"created\":");
        push_json_string(out, self.created.as_str());
        out.append("}");
        assert(out@ =~= old(out)@ + message_json(*self));
    }
}

impl MessageResponse {
    /// The response for `message` in `channel`, with no known author.
    pub fn none(message: Message, channel: Channel) -> (r: Self)
        ensures
            r.message == message,
            r.channel == channel,
            r.author is None,
    {
        Self::from(message, channel, None)
    }

    /// The response for `message` in `channel`, written by `author`.
    pub fn from(message: Message, channel: Channel, author: Option<User>) -> (r: Self)
        ensures
            r.message == message,
            r.channel == channel,
            r.author == author,
    {
        MessageResponse { message, channel, author }
    }

    /// Appends this response as a JSON object.
    pub fn write_json(&self, out: &mut String)
        ensures
            final(out)@ == old(out)@ + message_response_json(*self),
    {
        out.append("{\"message\":");
        self.message.write_json(out);
        out.append(",\"channel\":");
        self.channel.write_json(out);
        out.append(",\"author\":");
        match &self.author {
            Some(u) => u.write_json(out),
            None => out.append("null"),
        }
        out.append("}");
        assert(out@ =~= old(out)@ + message_response_json(*self));
    }
}

} // verus!
