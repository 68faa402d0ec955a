//! Errors of the request handlers and of the OAuth exchange, and the checks
//! that the message handlers make before they touch storage.

use vstd::prelude::*;

verus! {

#[verifier::external_type_specification]
#[verifier::external_body]
pub struct ExRequestError(reqwest::Error);

#[verifier::external_type_specification]
#[verifier::external_body]
pub struct ExJsonError(serde_json::Error);

/// Relies on the `Display` of reqwest's `Error`, which describes the failed
/// request.
#[verifier::external_body]
fn request_error_text(e: &reqwest::Error) -> (r: String) {
    e.to_string()
}

/// Relies on the `Display` of serde_json's `Error`, which describes the
/// malformed input.
#[verifier::external_body]
fn json_error_text(e: &serde_json::Error) -> (r: String) {
    e.to_string()
}

/// Why an exchange with an OAuth service failed.
#[derive(Debug)]
pub enum AuthError {
    Reqwest(reqwest::Error),
    Serde(serde_json::Error),
    String(String),
}

impl AuthError {
    /// The description of this error.
    pub fn to_string(&self) -> (r: String)
        ensures
            self matches AuthError::String(s) ==> r@ == s@,
    {
        match self {
            AuthError::Reqwest(e) => request_error_text(e),
            AuthError::Serde(e) => json_error_text(e),
            AuthError::String(s) => s.clone(),
        }
    }
}

impl From<reqwest::Error> for AuthError {
    fn from(value: reqwest::Error) -> (r: Self) {
        AuthError::Reqwest(value)
    }
}

impl vstd::std_specs::convert::FromSpecImpl<reqwest::Error> for AuthError {
    open spec fn obeys_from_spec() -> bool {
        true
    }

    open spec fn from_spec(value: reqwest::Error) -> Self {
        AuthError::Reqwest(value)
    }
}

impl From<serde_json::Error> for AuthError {
    fn from(value: serde_json::Error) -> (r: Self) {
        AuthError::Serde(value)
    }
}

impl vstd::std_specs::convert::FromSpecImpl<serde_json::Error> for AuthError {
    open spec fn obeys_from_spec() -> bool {
        true
    }

    open spec fn from_spec(value: serde_json::Error) -> Self {
        AuthError::Serde(value)
    }
}

/// Why a request failed.
#[derive(Debug)]
pub enum HttpError {
    InvalidLoginCredentials,
    NotFound(String),
    MessageContentEmpty,
    ChannelAccessDenied,
    TooManyUsers,
    AccountAttached,
    AccountNotAttached,
    Oauth(AuthError),
    Other(String),
}

/// The message of every error but an OAuth one, whose text comes from the
/// failed exchange.
pub open spec fn error_text(e: HttpError) -> Seq<char> {
    match e {
        HttpError::InvalidLoginCredentials => "Invalid login credentials."@,
        HttpError::NotFound(name) => name@ + " not found."@,
        HttpError::MessageContentEmpty => "Message content is empty."@,
        HttpError::ChannelAccessDenied => "Channel access is denied"@,
        HttpError::TooManyUsers => "Too many users with the same username"@,
        HttpError::AccountAttached => "This account is already attached to a user"@,
        HttpError::AccountNotAttached => "This account is not attached to a user"@,
        HttpError::Oauth(AuthError::String(s)) => s@,
        HttpError::Oauth(_) => Seq::empty(),
        HttpError::Other(message) => message@,
    }
}

impl HttpError {
    /// The message of this error.
    pub fn to_string(&self) -> (r: String)
        ensures
            !(self matches HttpError::Oauth(AuthError::Reqwest(_)) || self matches HttpError::Oauth(
                AuthError::Serde(_),
            )) ==> r@ == error_text(*self),
    {
        match self {
            HttpError::InvalidLoginCredentials => String::from_str("Invalid login credentials."),
            HttpError::NotFound(name) => {
                let mut s = name.clone();
                s.append(" not found.");
                s
            },
            HttpError::MessageContentEmpty => String::from_str("Message content is empty."),
            HttpError::ChannelAccessDenied => String::from_str("Channel access is denied"),
            HttpError::TooManyUsers => String::from_str("Too many users with the same username"),
            HttpError::AccountAttached => String::from_str(
                "This account is already attached to a user",
            ),
            HttpError::AccountNotAttached => String::from_str(
                "This account is not attached to a user",
            ),
            HttpError::Oauth(e) => e.to_string(),
            HttpError::Other(message) => message.clone(),
        }
    }
}

/// The most messages one page may hold.
pub const MAX_PAGE: i64 = 25;

/// How many messages a page request gets: what it asked for, at most 25,
/// and 25 when it did not say.
pub open spec fn page_size(max: Option<i64>) -> i64 {
    match max {
        Some(m) => if m < 25 {
            m
        } else {
            25
        },
        None => 25,
    }
}

/// How many messages a page request gets.
pub fn page_limit(max: Option<i64>) -> (r: i64)
    ensures
        r == page_size(max),
{
    match max {
        Some(m) => if m < MAX_PAGE {
            m
        } else {
            MAX_PAGE
        },
        None => MAX_PAGE,
    }
}

/// A message must say something.
pub fn check_content(content: &str) -> (r: Result<(), HttpError>)
    ensures
        r is Ok <==> content@.len() > 0,
        r matches Err(e) ==> e is MessageContentEmpty,
{
    if content.unicode_len() == 0 {
        Err(HttpError::MessageContentEmpty)
    } else {
        Ok(())
    }
}

/// Only the members of a channel may read or post in it.
pub fn check_access(members: &Vec<String>, user_id: &String) -> (r: Result<(), HttpError>)
    ensures
        r is Ok <==> exists|i: int| 0 <= i < members@.len() && members@[i]@ == user_id@,
        r matches Err(e) ==> e is ChannelAccessDenied,
{
    let mut i: usize = 0;
    while i < members.len()
        invariant
            i <= members.len(),
            forall|j: int| 0 <= j < i ==> members@[j]@ != user_id@,
        decreases members.len() - i,
    {
        if members[i].eq(user_id) {
            return Ok(());
        }
        i = i + 1;
    }
    Err(HttpError::ChannelAccessDenied)
}

} // verus!
