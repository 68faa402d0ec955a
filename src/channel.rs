//! Channels: places where messages are posted, either a direct conversation
//! between listed members or a channel of a guild.

use vstd::prelude::*;
use crate::ids::{generate_ulid, is_ulid_text};
use crate::restricted_string::{RestrictedString, dashed};
use crate::json::{json_string, json_string_array, push_json_string, push_json_string_array, string_views};

verus! {

/// A channel.
#[derive(Debug, Clone)]
pub struct Channel {
    pub id: String,
    pub name: String,
    pub location: ChannelLocation,
}

/// Where a channel lives: a direct conversation of its members, or a guild.
#[derive(Debug, Clone)]
pub enum ChannelLocation {
    Dm { members: Vec<String> },
    Guild { guild: String },
}

/// A request to create a channel.
#[derive(Debug, Clone)]
pub struct ChannelCreate {
    pub name: String,
    pub location: ChannelLocation,
}

/// A channel, as handed back to clients.
#[derive(Debug, Clone)]
pub struct ChannelResponse {
    pub channel: Channel,
}

/// The JSON object of a channel location, tagged by its `type` field.
pub open spec fn location_json(l: ChannelLocation) -> Seq<char> {
    match l {
        ChannelLocation::Dm { members } => "{\"type\":\"dm\",\"members\":"@ + json_string_array(
            string_views(members@),
        ) + "}"@,
        ChannelLocation::Guild { guild } => "{\"type\":\"guild\",\"id\":"@ + json_string(guild@)
            + "}"@,
    }
}

/// The JSON object of a channel.
pub open spec fn channel_json(c: Channel) -> Seq<char> {
    "{\"id\":"@ + json_string(c.id@) + ",\"name\":"@ + json_string(c.name@) + ",\"location\":"@
        + location_json(c.location) + "}"@
}

/// The JSON object of a channel response.
pub open spec fn channel_response_json(r: ChannelResponse) -> Seq<char> {
    "{\"channel\":"@ + channel_json(r.channel) + "}"@
}

impl ChannelLocation {
    /// Appends this location as a JSON object.
    pub fn write_json(&self, out: &mut String)
        ensures
            final(out)@ == old(out)@ + location_json(*self),
    {
        match self {
            ChannelLocation::Dm { members } => {
                out.append("{\"type\":\"dm\",\"members\":");
                push_json_string_array(out, members);
                out.append("}");
            },
            ChannelLocation::Guild { guild } => {
                out.append("{\"type\":\"guild\",\"id\":");
                push_json_string(out, guild.as_str());
                out.append("}");
            },
        }
        assert(out@ =~= old(out)@ + location_json(*self));
    }
}

impl Channel {
    /// A new channel named `name`, made safe with dashes for spaces, at
    /// `location`, under a fresh ULID.
    pub fn new(name: &str, location: ChannelLocation) -> (r: Self)
        ensures
            is_ulid_text(r.id@),
            r.name@ == dashed(name@),
            r.location == location,
    {
        Channel { id: generate_ulid(), name: RestrictedString::no_space(name), location }
    }

    /// Appends this channel as a JSON object.
    pub fn write_json(&self, out: &mut String)
        ensures
            final(out)@ == old(out)@ + channel_json(*self),
    {
        out.append("{\"id\":");
        push_json_string(out, self.id.as_str());
        out.append(",\"name\":");
        push_json_string(out, self.name.as_str());
        out.append(",\"location\":");
        self.location.write_json(out);
        out.append("}");
        assert(out@ =~= old(out)@ + channel_json(*self));
    }
}

impl ChannelResponse {
    /// The response that hands `channel` back.
    pub fn from_channel(channel: Channel) -> (r: Self)
        ensures
            r.channel == channel,
    {
        ChannelResponse { channel }
    }

    /// Appends this response as a JSON object.
    pub fn write_json(&self, out: &mut String)
        ensures
            final(out)@ == old(out)@ + channel_response_json(*self),
    {
        out.append("{\"channel\":");
        self.channel.write_json(out);
        out.append("}");
        assert(out@ =~= old(out)@ + channel_response_json(*self));
    }
}

} // verus!
