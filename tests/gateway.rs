use tokio::sync::mpsc::{unbounded_channel, UnboundedReceiver};
use vulpark::channel::{Channel, ChannelLocation};
use vulpark::client::{Client, Clients, Connection, Inbound, LoopStep};
use vulpark::event::{Event, ReceivedEvent};
use vulpark::message::{Message, MessageResponse};
use vulpark::user::User;

fn user(id: &str, name: &str, discriminator: u32) -> User {
    User { id: id.to_string(), username: name.to_string(), discriminator }
}

fn connect() -> (Connection, UnboundedReceiver<String>) {
    let (tx, rx) = unbounded_channel();
    (Connection::open(Client::empty(tx)), rx)
}

fn drain(rx: &mut UnboundedReceiver<String>) -> Vec<String> {
    let mut out = Vec::new();
    while let Ok(frame) = rx.try_recv() {
        out.push(frame);
    }
    out
}

fn linked(clients: &mut Clients, u: &User) -> (Connection, UnboundedReceiver<String>) {
    let (conn, mut rx) = connect();
    let conn = conn.complete_handshake(clients, Some(u.clone()));
    assert!(conn.is_authenticated());
    drain(&mut rx);
    (conn, rx)
}

fn sample_message_event() -> Event {
    let channel = Channel {
        id: "c1".to_string(),
        name: "general".to_string(),
        location: ChannelLocation::Dm { members: vec!["u1".to_string(), "u2".to_string()] },
    };
    let message = Message {
        id: "m1".to_string(),
        channel_id: "c1".to_string(),
        author_id: Some("u1".to_string()),
        content: "hi".to_string(),
        created: "2024-01-01T00:00:00+00:00".to_string(),
    };
    Event::MessageCreate(MessageResponse::from(message, channel, Some(user("u1", "alice", 7))))
}

const HANDSHAKE_START: &str = "{\"HandshakeStart\":{}}";

#[test]
fn connect_sends_handshake_start_first() {
    let (conn, mut rx) = connect();
    assert!(!conn.is_authenticated());
    assert_eq!(drain(&mut rx), vec![HANDSHAKE_START.to_string()]);
    assert_eq!(conn.session_id().len(), 26);
}

#[test]
fn valid_handshake_links_and_completes_once() {
    let mut clients = Clients::new();
    let (conn, mut rx) = connect();
    let id = conn.session_id().clone();
    let conn = conn.complete_handshake(&mut clients, Some(user("u1", "alice", 7)));
    assert!(conn.is_authenticated());
    assert_eq!(
        drain(&mut rx),
        vec![
            HANDSHAKE_START.to_string(),
            "{\"HandshakeComplete\":{\"user\":{\"id\":\"u1\",\"username\":\"alice\",\"discriminator\":7}}}"
                .to_string(),
        ]
    );
    assert_eq!(clients.sessions_for(&"u1".to_string()), vec![id]);
}

#[test]
fn dispatch_reaches_every_session_of_the_user_only() {
    let mut clients = Clients::new();
    let (_s1, mut rx1) = linked(&mut clients, &user("u1", "alice", 7));
    let (_s2, mut rx2) = linked(&mut clients, &user("u1", "alice", 7));
    let (_s3, mut rx3) = linked(&mut clients, &user("u2", "bob", 8));
    let event = sample_message_event();
    clients.dispatch_to_user(&"u1".to_string(), &event);
    let expected = event.to_string();
    assert_eq!(drain(&mut rx1), vec![expected.clone()]);
    assert_eq!(drain(&mut rx2), vec![expected]);
    assert!(drain(&mut rx3).is_empty());
}

#[test]
fn invalid_token_leaves_session_waiting_then_valid_succeeds() {
    let mut clients = Clients::new();
    let (conn, mut rx) = connect();
    drain(&mut rx);
    let conn = conn.complete_handshake(&mut clients, None);
    assert!(!conn.is_authenticated());
    assert!(drain(&mut rx).is_empty());
    assert_eq!(clients.len(), 0);
    let conn = conn.complete_handshake(&mut clients, Some(user("u1", "alice", 7)));
    assert!(conn.is_authenticated());
    assert_eq!(drain(&mut rx).len(), 1);
    assert_eq!(clients.len(), 1);
}

#[test]
fn disconnect_removes_session_and_later_dispatch_misses_it() {
    let mut clients = Clients::new();
    let (s1, mut rx1) = linked(&mut clients, &user("u1", "alice", 7));
    let (_s2, mut rx2) = linked(&mut clients, &user("u1", "alice", 7));
    let id1 = s1.session_id().clone();
    assert!(s1.close(&mut clients));
    let remaining = clients.sessions_for(&"u1".to_string());
    assert_eq!(remaining.len(), 1);
    assert!(!remaining.contains(&id1));
    clients.dispatch_to_user(&"u1".to_string(), &Event::HandshakeStart);
    assert!(drain(&mut rx1).is_empty());
    assert_eq!(drain(&mut rx2), vec![HANDSHAKE_START.to_string()]);
}

#[test]
fn second_handshake_is_ignored() {
    let mut clients = Clients::new();
    let (conn, mut rx) = linked(&mut clients, &user("u1", "alice", 7));
    let event = ReceivedEvent::Handshake { token: "again".to_string() };
    assert_eq!(conn.next_step(&Inbound::Text(Some(event))), LoopStep::Continue);
    let conn = conn.complete_handshake(&mut clients, Some(user("u9", "mallory", 1)));
    assert!(conn.is_authenticated());
    assert!(drain(&mut rx).is_empty());
    assert_eq!(clients.len(), 1);
    assert!(clients.sessions_for(&"u9".to_string()).is_empty());
}

#[test]
fn dispatch_to_offline_user_changes_nothing() {
    let mut clients = Clients::new();
    let (_s1, mut rx1) = linked(&mut clients, &user("u1", "alice", 7));
    clients.dispatch_to_user(&"nobody".to_string(), &Event::HandshakeStart);
    assert!(drain(&mut rx1).is_empty());
    assert_eq!(clients.len(), 1);
}

#[test]
fn frames_arrive_in_order_of_sending() {
    let mut clients = Clients::new();
    let (conn, mut rx) = connect();
    let _conn = conn.complete_handshake(&mut clients, Some(user("u1", "alice", 7)));
    let first = sample_message_event();
    clients.dispatch_users(vec!["u1".to_string()], &first);
    clients.dispatch_global(&Event::HandshakeStart);
    let frames = drain(&mut rx);
    assert_eq!(frames.len(), 4);
    assert_eq!(frames[0], HANDSHAKE_START);
    assert!(frames[1].starts_with("{\"HandshakeComplete\""));
    assert_eq!(frames[2], first.to_string());
    assert_eq!(frames[3], HANDSHAKE_START);
}

#[test]
fn sessions_are_isolated() {
    let mut clients = Clients::new();
    let (_a, mut rx_a) = linked(&mut clients, &user("ua", "a", 1));
    let (_b, mut rx_b) = linked(&mut clients, &user("ub", "b", 2));
    clients.dispatch_to_user(&"ua".to_string(), &Event::HandshakeStart);
    assert_eq!(drain(&mut rx_a).len(), 1);
    assert!(drain(&mut rx_b).is_empty());
}

#[test]
fn dispatch_users_repeats_for_repeated_ids() {
    let mut clients = Clients::new();
    let (_a, mut rx_a) = linked(&mut clients, &user("ua", "a", 1));
    let (_b, mut rx_b) = linked(&mut clients, &user("ub", "b", 2));
    clients.dispatch_users(vec!["ua".to_string(), "ua".to_string(), "zz".to_string()], &Event::HandshakeStart);
    assert_eq!(drain(&mut rx_a).len(), 2);
    assert!(drain(&mut rx_b).is_empty());
}

#[test]
fn registry_rejects_duplicates_and_unlinked_sessions() {
    let mut clients = Clients::new();
    let (tx, _rx) = unbounded_channel();
    let unlinked = Client::with_id("s1".to_string(), tx.clone());
    assert!(clients.insert(unlinked).is_err());
    let mut first = Client::with_id("s1".to_string(), tx.clone());
    assert!(first.set_user(Some(user("u1", "alice", 7))).is_some());
    assert!(clients.insert(first).is_ok());
    let mut again = Client::with_id("s1".to_string(), tx);
    again.set_user(Some(user("u2", "bob", 8)));
    let back = clients.insert(again).unwrap_err();
    assert_eq!(back.id(), "s1");
    assert_eq!(back.user_id(), &Some("u2".to_string()));
    assert!(clients.contains_session(&"s1".to_string()));
    assert_eq!(clients.len(), 1);
}

#[test]
fn remove_is_keyed_by_user_and_session() {
    let mut clients = Clients::new();
    let (tx, _rx) = unbounded_channel();
    for id in ["s1", "s2"] {
        let mut c = Client::with_id(id.to_string(), tx.clone());
        c.set_user(Some(user("u1", "alice", 7)));
        assert!(clients.insert(c).is_ok());
    }
    assert!(!clients.remove(&"u2".to_string(), &"s1".to_string()));
    assert_eq!(clients.len(), 2);
    assert!(clients.remove(&"u1".to_string(), &"s1".to_string()));
    assert!(!clients.remove(&"u1".to_string(), &"s1".to_string()));
    assert_eq!(clients.sessions_for(&"u1".to_string()), vec!["s2".to_string()]);
}

#[test]
fn closing_a_waiting_connection_removes_nothing() {
    let mut clients = Clients::new();
    let (_linked, _rx) = linked(&mut clients, &user("u1", "alice", 7));
    let (conn, _rx2) = connect();
    assert!(!conn.close(&mut clients));
    assert_eq!(clients.len(), 1);
}

#[test]
fn receive_loop_steps() {
    let (conn, _rx) = connect();
    assert_eq!(conn.next_step(&Inbound::Text(None)), LoopStep::Continue);
    assert_eq!(conn.next_step(&Inbound::NotText), LoopStep::Stop);
    assert_eq!(conn.next_step(&Inbound::Closed), LoopStep::Stop);
    let event = ReceivedEvent::Handshake { token: "tok".to_string() };
    assert_eq!(conn.next_step(&Inbound::Text(Some(event))), LoopStep::Resolve("tok".to_string()));
}

#[test]
fn global_dispatch_reaches_everyone() {
    let mut clients = Clients::new();
    let (_a, mut rx_a) = linked(&mut clients, &user("ua", "a", 1));
    let (_b, mut rx_b) = linked(&mut clients, &user("ub", "b", 2));
    clients.dispatch_global(&Event::HandshakeStart);
    assert_eq!(drain(&mut rx_a), vec![HANDSHAKE_START.to_string()]);
    assert_eq!(drain(&mut rx_b), vec![HANDSHAKE_START.to_string()]);
}

#[test]
fn send_to_a_closed_receiver_does_not_fail() {
    let (tx, rx) = unbounded_channel();
    drop(rx);
    let mut c = Client::empty(tx);
    c.send(&Event::HandshakeStart);
    assert!(c.user_id().is_none());
}

#[test]
fn failed_lookup_leaves_session_unlinked() {
    let (tx, mut rx) = unbounded_channel();
    let mut c = Client::with_id("s1".to_string(), tx);
    assert!(c.set_user(None).is_none());
    assert!(c.user_id().is_none());
    assert_eq!(c.id(), "s1");
    c.send(&Event::HandshakeStart);
    assert_eq!(drain(&mut rx), vec![HANDSHAKE_START.to_string()]);
}

#[test]
fn sessions_for_lists_each_session_once_in_order() {
    let mut clients = Clients::new();
    let (tx, _rx) = unbounded_channel();
    for (id, u) in [("s1", "u1"), ("s2", "u2"), ("s3", "u1")] {
        let mut c = Client::with_id(id.to_string(), tx.clone());
        c.set_user(Some(user(u, "n", 1)));
        assert!(clients.insert(c).is_ok());
    }
    assert_eq!(clients.sessions_for(&"u1".to_string()), vec!["s1".to_string(), "s3".to_string()]);
    assert!(clients.sessions_for(&"u3".to_string()).is_empty());
}
