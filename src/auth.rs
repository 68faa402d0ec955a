//! Accounts of outside services that users log in with.

use vstd::prelude::*;
use crate::ids::{generate_ulid, is_ulid_text};

verus! {

/// An OAuth service that a user's account can be attached to.
#[derive(Debug, Clone, Copy, PartialEq, Eq, Structural)]
pub enum Service {
    Github,
}

/// A user's account at a service, attached to the user.
#[derive(Debug, Clone)]
pub struct Login {
    pub id: String,
    pub service: Service,
    pub service_user: String,
    pub user_id: String,
}

/// The name of a service, as stored and as written in requests.
pub open spec fn service_name(s: Service) -> Seq<char> {
    match s {
        Service::Github => "github"@,
    }
}

/// The name of the environment variable that holds a service's secret.
pub open spec fn secret_variable(s: Service) -> Seq<char> {
    match s {
        Service::Github => "GITHUB_SECRET"@,
    }
}

/// The OAuth application id of this backend at a service.
pub open spec fn client_id_of(s: Service) -> Seq<char> {
    match s {
        Service::Github => "01a54a05ac326eca7c4f"@,
    }
}

/// The address that trades an OAuth `code` for an access token.
pub open spec fn token_url_of(s: Service, code: Seq<char>, secret: Seq<char>) -> Seq<char> {
    match s {
        Service::Github => "https://github.com/login/oauth/access_token?client_id="@ + client_id_of(s)
            + "&code="@ + code + "&client_secret="@ + secret,
    }
}

/// The address that tells who the holder of an access token is.
pub open spec fn user_url_of(s: Service) -> Seq<char> {
    match s {
        Service::Github => "https://api.github.com/user"@,
    }
}

impl Login {
    /// A new login attaching account `service_user` of `service` to user
    /// `user_id`, under a fresh ULID.
    pub fn new(service: Service, service_user: String, user_id: String) -> (r: Self)
        ensures
            is_ulid_text(r.id@),
            r.service == service,
            r.service_user == service_user,
            r.user_id == user_id,
    {
        Login { id: generate_ulid(), service, service_user, user_id }
    }
}

impl Service {
    /// The name of this service.
    pub fn name(self) -> (r: String)
        ensures
            r@ == service_name(self),
    {
        match self {
            Service::Github => String::from_str("github"),
        }
    }

    /// The environment variable that holds this service's secret.
    pub fn secret_variable(self) -> (r: String)
        ensures
            r@ == secret_variable(self),
    {
        match self {
            Service::Github => String::from_str("GITHUB_SECRET"),
        }
    }

    /// The OAuth application id of this backend at this service.
    pub fn client_id(self) -> (r: String)
        ensures
            r@ == client_id_of(self),
    {
        match self {
            Service::Github => String::from_str("01a54a05ac326eca7c4f"),
        }
    }

    /// The address that trades `code` for an access token, with the
    /// application's `secret`.
    pub fn token_url(self, code: &str, secret: &str) -> (r: String)
        ensures
            r@ == token_url_of(self, code@, secret@),
    {
        match self {
            Service::Github => {
                let mut url = String::from_str("https://github.com/login/oauth/access_token?client_id=");
                let id = self.client_id();
                url.append(id.as_str());
                url.append("&code=");
                url.append(code);
                url.append("&client_secret=");
                url.append(secret);
                assert(url@ =~= token_url_of(self, code@, secret@));
                url
            },
        }
    }

    /// The address that tells who holds an access token.
    pub fn user_url(self) -> (r: String)
        ensures
            r@ == user_url_of(self),
    {
        match self {
            Service::Github => String::from_str("https://api.github.com/user"),
        }
    }
}

} // verus!
