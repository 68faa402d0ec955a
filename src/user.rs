//! Users, and the requests and responses that carry them.

use vstd::prelude::*;
use crate::auth::Service;
use crate::json::{json_number, json_string, push_json_number, push_json_string};
use crate::text::{decimal, push_decimal};

verus! {

/// A registered user. The discriminator tells apart users of one username.
#[derive(Debug, Clone)]
pub struct User {
    pub id: String,
    pub username: String,
    pub discriminator: u32,
}

/// A request to create a user from an OAuth code of a service.
#[derive(Debug, Clone)]
pub struct UserCreateRequest {
    pub username: String,
    pub service: Service,
    pub oauth_code: String,
}

/// A request to log in with an OAuth code of a service.
#[derive(Debug, Clone)]
pub struct UserLoginRequest {
    pub service: Service,
    pub oauth_code: String,
}

/// A user together with the bearer token that authenticates them.
#[derive(Debug, Clone)]
pub struct UserLoginResponse {
    pub user: User,
    pub token: String,
}

/// The JSON object of a user.
pub open spec fn user_json(u: User) -> Seq<char> {
    "{\"id\":"@ + json_string(u.id@) + ",\"username\":"@ + json_string(u.username@)
        + ",\"discriminator\":"@ + json_number(u.discriminator as nat) + "}"@
}

/// The JSON object of a login response.
pub open spec fn login_response_json(r: UserLoginResponse) -> Seq<char> {
    "{\"user\":"@ + user_json(r.user) + ",\"token\":"@ + json_string(r.token@) + "}"@
}

/// The display form of a user: username, colon, discriminator.
pub open spec fn user_tag(u: User) -> Seq<char> {
    u.username@ + ":"@ + decimal(u.discriminator as nat)
}

impl User {
    /// A copy of this user.
    pub fn duplicate(&self) -> (r: User)
        ensures
            r == *self,
    {
        User { id: self.id.clone(), username: self.username.clone(), discriminator: self.discriminator }
    }

    /// Appends this user as a JSON object.
    pub fn write_json(&self, out: &mut String)
        ensures
            final(out)@ == old(out)@ + user_json(*self),
    {
        out.append("{\"id\":");
        push_json_string(out, self.id.as_str());
        out.append(",\"username\":");
        push_json_string(out, self.username.as_str());
        out.append(",\"discriminator\":");
        push_json_number(out, self.discriminator as u64);
        out.append("}");
        assert(out@ =~= old(out)@ + user_json(*self));
    }

    /// The display form `username:discriminator`.
    pub fn to_string(&self) -> (r: String)
        ensures
            r@ == user_tag(*self),
    {
        let mut s = self.username.clone();
        s.append(":");
        push_decimal(&mut s, self.discriminator as u64);
        assert(s@ =~= user_tag(*self));
        s
    }
}

impl UserLoginResponse {
    /// Appends this response as a JSON object.
    pub fn write_json(&self, out: &mut String)
        ensures
            final(out)@ == old(out)@ + login_response_json(*self),
    {
        out.append("{\"user\":");
        self.user.write_json(out);
        out.append(",\"token\":");
        push_json_string(out, self.token.as_str());
        out.append("}");
        assert(out@ =~= old(out)@ + login_response_json(*self));
    }
}

impl From<(User, String)> for UserLoginResponse {
    fn from(value: (User, String)) -> (r: Self) {
        UserLoginResponse { user: value.0, token: value.1 }
    }
}

impl vstd::std_specs::convert::FromSpecImpl<(User, String)> for UserLoginResponse {
    open spec fn obeys_from_spec() -> bool {
        true
    }

    open spec fn from_spec(value: (User, String)) -> Self {
        UserLoginResponse { user: value.0, token: value.1 }
    }
}

} // verus!
