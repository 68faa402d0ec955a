//! Gateway events: what the server sends to sessions, and what sessions send.
//!
//! An outbound event travels as one compact JSON object with a single key, the
//! name of its variant. A variant with named fields maps to an object of those
//! fields; a variant holding one value maps to that value; the start of a
//! handshake maps to an empty object.

use vstd::prelude::*;
use crate::channel::{ChannelResponse, channel_response_json};
use crate::guild::{GuildResponse, guild_response_json};
use crate::message::{MessageResponse, message_response_json};
use crate::user::{User, user_json};

verus! {

/// An event sent from the server to sessions.
#[derive(Debug, Clone)]
pub enum Event {
    HandshakeStart,
    HandshakeComplete { user: User },
    MessageCreate(MessageResponse),
    ChannelCreate(ChannelResponse),
    GuildCreate(GuildResponse),
}

/// An event sent by a session to the server.
#[derive(Debug, Clone)]
pub enum ReceivedEvent {
    Handshake { token: String },
}

/// The wire text of an outbound event.
pub open spec fn event_json(e: Event) -> Seq<char> {
    match e {
        Event::HandshakeStart => "{\"HandshakeStart\":{}}"@,
        Event::HandshakeComplete { user } => "{\"HandshakeComplete\":{\"user\":"@ + user_json(user)
            + "}}"@,
        Event::MessageCreate(m) => "{\"MessageCreate\":"@ + message_response_json(m) + "}"@,
        Event::ChannelCreate(c) => "{\"ChannelCreate\":"@ + channel_response_json(c) + "}"@,
        Event::GuildCreate(g) => "{\"GuildCreate\":"@ + guild_response_json(g) + "}"@,
    }
}

impl Event {
    /// The wire text of this event.
    pub fn to_string(&self) -> (r: String)
        ensures
            r@ == event_json(*self),
    {
        let mut out = String::new();
        match self {
            Event::HandshakeStart => {
                out.append("{\"HandshakeStart\":{}}");
            },
            Event::HandshakeComplete { user } => {
                out.append("{\"HandshakeComplete\":{\"user\":");
                user.write_json(&mut out);
                out.append("}}");
            },
            Event::MessageCreate(m) => {
                out.append("{\"MessageCreate\":");
                m.write_json(&mut out);
                out.append("}");
            },
            Event::ChannelCreate(c) => {
                out.append("{\"ChannelCreate\":");
                c.write_json(&mut out);
                out.append("}");
            },
            Event::GuildCreate(g) => {
                out.append("{\"GuildCreate\":");
                g.write_json(&mut out);
                out.append("}");
            },
        }
        assert(out@ =~= event_json(*self));
        out
    }
}

} // verus!
