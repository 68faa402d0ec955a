use vulpark::auth::{Login, Service};
use vulpark::channel::{Channel, ChannelLocation, ChannelResponse};
use vulpark::database::{
    DatabaseChannel, DatabaseGuild, DatabaseGuildResponse, DatabaseLogin, DatabaseUser,
    DiscriminatorSearch, DiscriminatorStep,
};
use vulpark::error::{check_access, check_content, page_limit, AuthError, HttpError};
use vulpark::event::Event;
use vulpark::guild::{Guild, GuildResponse};
use vulpark::ids::{generate_random_u128, generate_ulid};
use vulpark::message::{Message, MessageResponse};
use vulpark::restricted_string::RestrictedString;
use vulpark::text::decimal_string;
use vulpark::user::{User, UserLoginResponse};

fn user(id: &str, name: &str, discriminator: u32) -> User {
    User { id: id.to_string(), username: name.to_string(), discriminator }
}

fn is_ulid(s: &str) -> bool {
    s.len() == 26 && s.chars().all(|c| "0123456789ABCDEFGHJKMNPQRSTVWXYZ".contains(c))
}

#[test]
fn handshake_complete_text() {
    let e = Event::HandshakeComplete { user: user("u1", "alice", 42) };
    assert_eq!(
        e.to_string(),
        "{\"HandshakeComplete\":{\"user\":{\"id\":\"u1\",\"username\":\"alice\",\"discriminator\":42}}}"
    );
}

#[test]
fn strings_are_escaped() {
    let e = Event::HandshakeComplete { user: user("a\"b", "x\\y\nz\u{1}\u{7f}é", 0) };
    assert_eq!(
        e.to_string(),
        "{\"HandshakeComplete\":{\"user\":{\"id\":\"a\\\"b\",\"username\":\"x\\\\y\\nz\\u0001\u{7f}é\",\"discriminator\":0}}}"
    );
}

#[test]
fn message_create_text() {
    let channel = Channel {
        id: "c1".to_string(),
        name: "general".to_string(),
        location: ChannelLocation::Dm { members: vec!["u1".to_string(), "u2".to_string()] },
    };
    let message = Message {
        id: "m1".to_string(),
        channel_id: "c1".to_string(),
        author_id: None,
        content: "hi".to_string(),
        created: "2024-01-01T00:00:00+00:00".to_string(),
    };
    let e = Event::MessageCreate(MessageResponse::none(message, channel));
    assert_eq!(
        e.to_string(),
        "{\"MessageCreate\":{\"message\":{\"id\":\"m1\",\"channel_id\":\"c1\",\"author_id\":null,\"content\":\"hi\",\"created\":\"2024-01-01T00:00:00+00:00\"},\"channel\":{\"id\":\"c1\",\"name\":\"general\",\"location\":{\"type\":\"dm\",\"members\":[\"u1\",\"u2\"]}},\"author\":null}}"
    );
}

#[test]
fn channel_and_guild_create_text() {
    let channel = Channel {
        id: "c2".to_string(),
        name: "news".to_string(),
        location: ChannelLocation::Guild { guild: "g1".to_string() },
    };
    assert_eq!(
        Event::ChannelCreate(ChannelResponse::from_channel(channel)).to_string(),
        "{\"ChannelCreate\":{\"channel\":{\"id\":\"c2\",\"name\":\"news\",\"location\":{\"type\":\"guild\",\"id\":\"g1\"}}}}"
    );
    let empty_dm = Channel {
        id: "c3".to_string(),
        name: "dm".to_string(),
        location: ChannelLocation::Dm { members: vec![] },
    };
    assert!(Event::ChannelCreate(ChannelResponse::from_channel(empty_dm))
        .to_string()
        .contains("\"members\":[]"));
    let guild = Guild { id: "g1".to_string(), name: "club".to_string(), owner_id: "u1".to_string() };
    assert_eq!(
        Event::GuildCreate(GuildResponse::new(guild, user("u1", "alice", 1))).to_string(),
        "{\"GuildCreate\":{\"guild\":{\"id\":\"g1\",\"name\":\"club\",\"owner_id\":\"u1\"},\"owner\":{\"id\":\"u1\",\"username\":\"alice\",\"discriminator\":1}}}"
    );
}

#[test]
fn message_response_with_author() {
    let channel = Channel {
        id: "c1".to_string(),
        name: "g".to_string(),
        location: ChannelLocation::Guild { guild: "g1".to_string() },
    };
    let message = Message::new("c1".to_string(), "u1".to_string(), "yo".to_string());
    assert!(is_ulid(&message.id));
    assert_eq!(message.author_id, Some("u1".to_string()));
    assert!(!message.created.is_empty());
    let r = MessageResponse::from(message, channel, Some(user("u1", "alice", 3)));
    assert!(Event::MessageCreate(r).to_string().ends_with(",\"author\":{\"id\":\"u1\",\"username\":\"alice\",\"discriminator\":3}}}"));
}

#[test]
fn decimal_rendering() {
    assert_eq!(decimal_string(0), "0");
    assert_eq!(decimal_string(9999), "9999");
    assert_eq!(decimal_string(u64::MAX), "18446744073709551615");
}

#[test]
fn user_display_form() {
    assert_eq!(user("u", "alice", 7).to_string(), "alice:7");
    assert_eq!(user("u", "bob", 1234).to_string(), "bob:1234");
}

#[test]
fn restricted_strings() {
    assert_eq!(RestrictedString::space("a b\tc\nd"), "a b c d");
    assert_eq!(RestrictedString::no_space("hello world"), "hello-world");
    assert_eq!(RestrictedString::no_space("x\u{200b}y\u{2060}z\u{3000}"), "x-y-z-");
    assert_eq!(RestrictedString::space("keep-$-this"), "keep-$-this");
    let long = "a".repeat(40);
    assert_eq!(RestrictedString::space(&long), "a".repeat(32));
    let wide = "é".repeat(40);
    assert_eq!(RestrictedString::no_space(&wide), "é".repeat(32));
    assert_eq!(RestrictedString::trim("short".to_string()), "short");
    assert_eq!(RestrictedString::space(""), "");
}

#[test]
fn guild_and_channel_names_are_restricted() {
    let g = Guild::new("my  guild", "u1");
    assert!(is_ulid(&g.id));
    assert_eq!(g.name, "my  guild");
    assert_eq!(g.owner_id, "u1");
    let c = Channel::new("my channel", ChannelLocation::Guild { guild: "g1".to_string() });
    assert!(is_ulid(&c.id));
    assert_eq!(c.name, "my-channel");
}

#[test]
fn fresh_ids() {
    let a = generate_ulid();
    let b = generate_ulid();
    assert!(is_ulid(&a));
    assert_ne!(a, b);
    let secret = generate_random_u128();
    assert_eq!(secret.len(), 24);
    assert!(secret.ends_with("=="));
    assert!(secret[..22].chars().all(|c| c.is_ascii_alphanumeric() || c == '-' || c == '_'));
}

#[test]
fn service_addresses() {
    let s = Service::Github;
    assert_eq!(s.client_id(), "01a54a05ac326eca7c4f");
    assert_eq!(s.user_url(), "https://api.github.com/user");
    assert_eq!(s.name(), "github");
    assert_eq!(s.secret_variable(), "GITHUB_SECRET");
    assert_eq!(
        s.token_url("abc", "shh"),
        "https://github.com/login/oauth/access_token?client_id=01a54a05ac326eca7c4f&code=abc&client_secret=shh"
    );
}

#[test]
fn login_records() {
    let login = Login::new(Service::Github, "123".to_string(), "u1".to_string());
    assert!(is_ulid(&login.id));
    let stored = DatabaseLogin::from(&login);
    assert_eq!(stored._id, login.id);
    assert_eq!(stored.service_user, "123");
    let back = Login::from(stored);
    assert_eq!(back.id, login.id);
    assert_eq!(back.user_id, "u1");
    assert_eq!(back.service, Service::Github);
}

#[test]
fn channel_and_guild_records() {
    let c = Channel {
        id: "c1".to_string(),
        name: "n".to_string(),
        location: ChannelLocation::Guild { guild: "g".to_string() },
    };
    let stored = DatabaseChannel::from(c);
    assert_eq!(stored._id, "c1");
    let back = Channel::from(stored);
    assert_eq!(back.id, "c1");
    let g = Guild { id: "g1".to_string(), name: "club".to_string(), owner_id: "u1".to_string() };
    let stored = DatabaseGuild::from(&g);
    assert_eq!(stored._id, "g1");
    assert_eq!(Guild::from(stored).owner_id, "u1");
}

#[test]
fn user_records() {
    let mut stored = DatabaseUser::new("alice", 17);
    assert!(is_ulid(&stored._id));
    assert!(is_ulid(&stored.token));
    assert_ne!(stored._id, stored.token);
    assert!(!stored.gateway_connected);
    assert!(stored.join("g1".to_string()));
    assert!(!stored.join("g1".to_string()));
    assert!(stored.join("g2".to_string()));
    assert_eq!(stored.guilds, vec!["g1".to_string(), "g2".to_string()]);
    let u = User::from(stored.clone());
    assert_eq!(u.id, stored._id);
    assert_eq!(u.discriminator, 17);
    let resp = UserLoginResponse::from((u, stored.token.clone()));
    assert_eq!(resp.token, stored.token);
    assert_eq!(resp.user.username, "alice");
}

#[test]
fn guild_response_outcomes() {
    assert_eq!(DatabaseGuildResponse::Found(3).option(), Some(3));
    assert_eq!(DatabaseGuildResponse::<i32>::NoGuild.option(), None);
    assert_eq!(DatabaseGuildResponse::<i32>::NoUser.unwrap_or(9), 9);
    assert_eq!(DatabaseGuildResponse::Found(4).unwrap_or(9), 4);
}

#[test]
fn discriminator_search() {
    let mut search = DiscriminatorSearch::start();
    assert!((1..9999).contains(&search.discriminator));
    assert_eq!(search.attempts, 1);
    let d = search.discriminator;
    assert_eq!(search.next(false), DiscriminatorStep::Use(d));
    let mut steps = 0;
    loop {
        steps += 1;
        match search.next(true) {
            DiscriminatorStep::Check(n) => assert!((1..9999).contains(&n)),
            DiscriminatorStep::GiveUp => break,
            DiscriminatorStep::Use(_) => panic!("a taken discriminator was used"),
        }
    }
    assert_eq!(steps, 9998);
    assert_eq!(search.attempts, 9999);
}

#[test]
fn error_messages() {
    assert_eq!(HttpError::InvalidLoginCredentials.to_string(), "Invalid login credentials.");
    assert_eq!(HttpError::NotFound("Channel".to_string()).to_string(), "Channel not found.");
    assert_eq!(HttpError::MessageContentEmpty.to_string(), "Message content is empty.");
    assert_eq!(HttpError::ChannelAccessDenied.to_string(), "Channel access is denied");
    assert_eq!(HttpError::TooManyUsers.to_string(), "Too many users with the same username");
    assert_eq!(HttpError::AccountAttached.to_string(), "This account is already attached to a user");
    assert_eq!(HttpError::AccountNotAttached.to_string(), "This account is not attached to a user");
    assert_eq!(HttpError::Other("boom".to_string()).to_string(), "boom");
    assert_eq!(
        HttpError::Oauth(AuthError::String("No token field.".to_string())).to_string(),
        "No token field."
    );
    let bad = serde_json::from_str::<serde_json::Value>("{").unwrap_err();
    assert!(!HttpError::Oauth(AuthError::from(bad)).to_string().is_empty());
}

#[test]
fn message_request_checks() {
    assert_eq!(page_limit(None), 25);
    assert_eq!(page_limit(Some(10)), 10);
    assert_eq!(page_limit(Some(25)), 25);
    assert_eq!(page_limit(Some(100)), 25);
    assert_eq!(page_limit(Some(-3)), -3);
    assert!(matches!(check_content(""), Err(HttpError::MessageContentEmpty)));
    assert!(check_content("x").is_ok());
    let members = vec!["u1".to_string(), "u2".to_string()];
    assert!(check_access(&members, &"u2".to_string()).is_ok());
    assert!(matches!(check_access(&members, &"u3".to_string()), Err(HttpError::ChannelAccessDenied)));
    assert!(matches!(check_access(&vec![], &"u1".to_string()), Err(HttpError::ChannelAccessDenied)));
}
