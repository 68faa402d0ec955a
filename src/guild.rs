//! Guilds: named groups of users with an owner.

use vstd::prelude::*;
use crate::ids::{generate_ulid, is_ulid_text};
use crate::json::{json_string, push_json_string};
use crate::restricted_string::{RestrictedString, spaced};
use crate::user::{User, user_json};

verus! {

/// A guild and the id of the user who owns it.
#[derive(Debug, Clone)]
pub struct Guild {
    pub id: String,
    pub name: String,
    pub owner_id: String,
}

/// A request to create a guild.
#[derive(Debug, Clone)]
pub struct GuildCreate {
    pub name: String,
}

/// A guild together with its owner.
#[derive(Debug, Clone)]
pub struct GuildResponse {
    pub guild: Guild,
    pub owner: User,
}

/// The JSON object of a guild.
pub open spec fn guild_json(g: Guild) -> Seq<char> {
    "{\"id\":"@ + json_string(g.id@) + ",\"name\":"@ + json_string(g.name@) + ",\"owner_id\":"@
        + json_string(g.owner_id@) + "}"@
}

/// The JSON object of a guild response.
pub open spec fn guild_response_json(r: GuildResponse) -> Seq<char> {
    "{\"guild\":"@ + guild_json(r.guild) + ",\"owner\":"@ + user_json(r.owner) + "}"@
}

impl Guild {
    /// A new guild named `name`, made safe, owned by `owner_id`, under a fresh
    /// ULID.
    pub fn new(name: &str, owner_id: &str) -> (r: Self)
        ensures
            is_ulid_text(r.id@),
            r.name@ == spaced(name@),
            r.owner_id@ == owner_id@,
    {
        Guild { id: generate_ulid(), name: RestrictedString::space(name), owner_id: String::from_str(owner_id) }
    }

    /// Appends this guild as a JSON object.
    pub fn write_json(&self, out: &mut String)
        ensures
            final(out)@ == old(out)@ + guild_json(*self),
    {
        out.append("{\"id\":");
        push_json_string(out, self.id.as_str());
        out.append(",\"name\":");
        push_json_string(out, self.name.as_str());
        out.append(",\"owner_id\":");
        push_json_string(out, self.owner_id.as_str());
        out.append("}");
        assert(out@ =~= old(out)@ + guild_json(*self));
    }
}

impl GuildResponse {
    /// The guild response of `guild`, owned by `owner`.
    pub fn new(guild: Guild, owner: User) -> (r: Self)
        ensures
            r.guild == guild,
            r.owner == owner,
    {
        GuildResponse { guild, owner }
    }

    /// Appends this response as a JSON object.
    pub fn write_json(&self, out: &mut String)
        ensures
            final(out)@ == old(out)@ + guild_response_json(*self),
    {
        out.append("{\"guild\":");
        self.guild.write_json(out);
        out.append(",\"owner\":");
        self.owner.write_json(out);
        out.append("}");
        assert(out@ =~= old(out)@ + guild_response_json(*self));
    }
}

} // verus!
