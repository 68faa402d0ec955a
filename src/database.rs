//! The records kept in storage, their conversions to and from the domain
//! types, and the decisions taken while creating and updating them.

use vstd::prelude::*;
use rand::Rng;
use crate::auth::{Login, Service};
use crate::channel::{Channel, ChannelLocation};
use crate::guild::Guild;
use crate::ids::{generate_ulid, is_ulid_text};
use crate::json::string_views;
use crate::user::User;

verus! {

/// A stored login.
#[derive(Debug, Clone)]
pub struct DatabaseLogin {
    pub _id: String,
    pub service: Service,
    pub service_user: String,
    pub user_id: String,
}

/// A stored channel.
#[derive(Debug, Clone)]
pub struct DatabaseChannel {
    pub _id: String,
    pub name: String,
    pub location: ChannelLocation,
}

/// A stored guild.
#[derive(Debug, Clone)]
pub struct DatabaseGuild {
    pub _id: String,
    pub name: String,
    pub owner_id: String,
}

/// A stored user: with the bearer token that authenticates them, whether a
/// gateway session of theirs is connected, and the guilds they joined.
#[derive(Debug, Clone)]
pub struct DatabaseUser {
    pub _id: String,
    pub username: String,
    pub discriminator: u32,
    pub token: String,
    pub gateway_connected: bool,
    pub guilds: Vec<String>,
}

/// The outcome of a storage operation on guilds: the user or the guild it
/// needed was missing, or it produced a value.
#[derive(Debug, Clone)]
pub enum DatabaseGuildResponse<T> {
    NoUser,
    NoGuild,
    Found(T),
}

impl<T> DatabaseGuildResponse<T> {
    /// The value, if there is one.
    pub fn option(self) -> (r: Option<T>)
        ensures
            r == match self {
                DatabaseGuildResponse::Found(t) => Some(t),
                _ => None,
            },
    {
        match self {
            DatabaseGuildResponse::Found(t) => Some(t),
            _ => None,
        }
    }

    /// The value, or `default` when something was missing.
    pub fn unwrap_or(self, default: T) -> (r: T)
        ensures
            r == match self {
                DatabaseGuildResponse::Found(t) => t,
                _ => default,
            },
    {
        match self {
            DatabaseGuildResponse::Found(t) => t,
            _ => default,
        }
    }
}

impl From<&Login> for DatabaseLogin {
    fn from(value: &Login) -> (r: Self) {
        DatabaseLogin {
            _id: value.id.clone(),
            service: value.service,
            service_user: value.service_user.clone(),
            user_id: value.user_id.clone(),
        }
    }
}

impl vstd::std_specs::convert::FromSpecImpl<&Login> for DatabaseLogin {
    open spec fn obeys_from_spec() -> bool {
        true
    }

    open spec fn from_spec(value: &Login) -> Self {
        DatabaseLogin {
            _id: value.id,
            service: value.service,
            service_user: value.service_user,
            user_id: value.user_id,
        }
    }
}

impl From<DatabaseLogin> for Login {
    fn from(value: DatabaseLogin) -> (r: Self) {
        Login {
            id: value._id,
            service: value.service,
            service_user: value.service_user,
            user_id: value.user_id,
        }
    }
}

impl vstd::std_specs::convert::FromSpecImpl<DatabaseLogin> for Login {
    open spec fn obeys_from_spec() -> bool {
        true
    }

    open spec fn from_spec(value: DatabaseLogin) -> Self {
        Login {
            id: value._id,
            service: value.service,
            service_user: value.service_user,
            user_id: value.user_id,
        }
    }
}

impl From<Channel> for DatabaseChannel {
    fn from(value: Channel) -> (r: Self) {
        DatabaseChannel { _id: value.id, name: value.name, location: value.location }
    }
}

impl vstd::std_specs::convert::FromSpecImpl<Channel> for DatabaseChannel {
    open spec fn obeys_from_spec() -> bool {
        true
    }

    open spec fn from_spec(value: Channel) -> Self {
        DatabaseChannel { _id: value.id, name: value.name, location: value.location }
    }
}

impl From<DatabaseChannel> for Channel {
    fn from(value: DatabaseChannel) -> (r: Self) {
        Channel { id: value._id, name: value.name, location: value.location }
    }
}

impl vstd::std_specs::convert::FromSpecImpl<DatabaseChannel> for Channel {
    open spec fn obeys_from_spec() -> bool {
        true
    }

    open spec fn from_spec(value: DatabaseChannel) -> Self {
        Channel { id: value._id, name: value.name, location: value.location }
    }
}

impl From<&Guild> for DatabaseGuild {
    fn from(value: &Guild) -> (r: Self) {
        DatabaseGuild {
            _id: value.id.clone(),
            name: value.name.clone(),
            owner_id: value.owner_id.clone(),
        }
    }
}

impl vstd::std_specs::convert::FromSpecImpl<&Guild> for DatabaseGuild {
    open spec fn obeys_from_spec() -> bool {
        true
    }

    open spec fn from_spec(value: &Guild) -> Self {
        DatabaseGuild { _id: value.id, name: value.name, owner_id: value.owner_id }
    }
}

impl From<DatabaseGuild> for Guild {
    fn from(value: DatabaseGuild) -> (r: Self) {
        Guild { id: value._id, name: value.name, owner_id: value.owner_id }
    }
}

impl vstd::std_specs::convert::FromSpecImpl<DatabaseGuild> for Guild {
    open spec fn obeys_from_spec() -> bool {
        true
    }

    open spec fn from_spec(value: DatabaseGuild) -> Self {
        Guild { id: value._id, name: value.name, owner_id: value.owner_id }
    }
}

impl From<DatabaseUser> for User {
    fn from(value: DatabaseUser) -> (r: Self) {
        User { id: value._id, username: value.username, discriminator: value.discriminator }
    }
}

impl vstd::std_specs::convert::FromSpecImpl<DatabaseUser> for User {
    open spec fn obeys_from_spec() -> bool {
        true
    }

    open spec fn from_spec(value: DatabaseUser) -> Self {
        User { id: value._id, username: value.username, discriminator: value.discriminator }
    }
}

impl DatabaseUser {
    /// A new user record for `username` with `discriminator`: a fresh id and
    /// a fresh token, no gateway session, no guild.
    pub fn new(username: &str, discriminator: u32) -> (r: Self)
        ensures
            is_ulid_text(r._id@),
            is_ulid_text(r.token@),
            r.username@ == username@,
            r.discriminator == discriminator,
            !r.gateway_connected,
            r.guilds@.len() == 0,
    {
        DatabaseUser {
            _id: generate_ulid(),
            username: String::from_str(username),
            discriminator,
            token: generate_ulid(),
            gateway_connected: false,
            guilds: Vec::new(),
        }
    }

    /// Adds `guild_id` to the guilds this user joined, unless it is there
    /// already; tells whether it was added.
    pub fn join(&mut self, guild_id: String) -> (added: bool)
        ensures
            added == !string_views(old(self).guilds@).contains(guild_id@),
            string_views(final(self).guilds@) == if added {
                string_views(old(self).guilds@).push(guild_id@)
            } else {
                string_views(old(self).guilds@)
            },
            final(self)._id == old(self)._id,
            final(self).username == old(self).username,
            final(self).discriminator == old(self).discriminator,
            final(self).token == old(self).token,
            final(self).gateway_connected == old(self).gateway_connected,
    {
        let mut i: usize = 0;
        while i < self.guilds.len()
            invariant
                i <= self.guilds.len(),
                *self == *old(self),
                forall|j: int| 0 <= j < i ==> self.guilds@[j]@ != guild_id@,
            decreases self.guilds.len() - i,
        {
            if self.guilds[i].eq(&guild_id) {
                assert(string_views(self.guilds@)[i as int] == guild_id@);
                return false;
            }
            i = i + 1;
        }
        proof {
            if string_views(self.guilds@).contains(guild_id@) {
                let k = choose|k: int| 0 <= k < self.guilds@.len() && #[trigger] string_views(self.guilds@)[k] == guild_id@;
                assert(self.guilds@[k]@ == guild_id@);
            }
        }
        let ghost before = self.guilds@;
        self.guilds.push(guild_id);
        assert(string_views(self.guilds@) =~= string_views(before).push(self.guilds@.last()@));
        true
    }
}

/// The lowest discriminator that is drawn.
pub const DISCRIMINATOR_LOW: u32 = 1;

/// One past the highest discriminator that is drawn.
pub const DISCRIMINATOR_HIGH: u32 = 9999;

/// How many discriminators are tried for one username before giving up.
pub const MAX_ATTEMPTS: u32 = 9999;

/// Relies on rand's `thread_rng` and `Rng::gen_range`: a value drawn from
/// the half-open range, which must not be empty.
#[verifier::external_body]
fn random_in(low: u32, high: u32) -> (r: u32)
    requires
        low < high,
    ensures
        low <= r < high,
{
    rand::thread_rng().gen_range(low..high)
}

/// What to do next while looking for a free discriminator.
#[derive(Debug, Clone, Copy, PartialEq, Eq, Structural)]
pub enum DiscriminatorStep {
    /// The discriminator is free: create the user with it.
    Use(u32),
    /// The last one was taken: ask whether this one is free.
    Check(u32),
    /// Too many were taken: the username has no room left.
    GiveUp,
}

/// The search for a discriminator that no user of a username has yet: random
/// draws, each checked against storage, up to a bounded number of attempts.
#[derive(Debug, Clone, Copy)]
pub struct DiscriminatorSearch {
    pub discriminator: u32,
    pub attempts: u32,
}

impl DiscriminatorSearch {
    /// The search is in a state it can reach.
    pub open spec fn wf(self) -> bool {
        &&& DISCRIMINATOR_LOW <= self.discriminator < DISCRIMINATOR_HIGH
        &&& 1 <= self.attempts < MAX_ATTEMPTS
    }

    /// Starts with a random discriminator, to be checked.
    pub fn start() -> (r: Self)
        ensures
            r.wf(),
            r.attempts == 1,
    {
        DiscriminatorSearch { discriminator: random_in(DISCRIMINATOR_LOW, DISCRIMINATOR_HIGH), attempts: 1 }
    }

    /// Takes the answer to whether the current discriminator is `taken`. A
    /// free one is used; a taken one is replaced by a new draw, unless that
    /// draw would be the last attempt, and then the search gives up.
    pub fn next(&mut self, taken: bool) -> (r: DiscriminatorStep)
        requires
            old(self).wf(),
        ensures
            !taken ==> r == DiscriminatorStep::Use(old(self).discriminator) && *final(self) == *old(
                self,
            ),
            taken ==> final(self).attempts == old(self).attempts + 1,
            taken && final(self).attempts == MAX_ATTEMPTS ==> r == DiscriminatorStep::GiveUp,
            taken && final(self).attempts < MAX_ATTEMPTS ==> final(self).wf() && r
                == DiscriminatorStep::Check(final(self).discriminator),
    {
        if !taken {
            return DiscriminatorStep::Use(self.discriminator);
        }
        self.discriminator = random_in(DISCRIMINATOR_LOW, DISCRIMINATOR_HIGH);
        self.attempts = self.attempts + 1;
        if self.attempts == MAX_ATTEMPTS {
            DiscriminatorStep::GiveUp
        } else {
            DiscriminatorStep::Check(self.discriminator)
        }
    }
}

} // verus!
