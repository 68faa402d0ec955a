//! Sessions, the registry of authenticated sessions, and the per-connection
//! handshake state machine.
//!
//! Each connection owns its session until the handshake links it to a user;
//! from then on the session lives in the registry, and the connection keeps
//! the pair of user id and session id to take it out again when it closes.
//! A session's view reads its history from its sender: `offered` names the
//! frames handed to that sending half, oldest first, and only the wrapper of
//! tokio's `send` advances it. So what each session was sent, and in which
//! order, is stated by the contracts below. The registry drops a user's entries as their
//! last session goes; there are no empty entries.

use vstd::prelude::*;
use tokio::sync::mpsc::UnboundedSender;
use crate::event::{Event, ReceivedEvent, event_json};
use crate::ids::{generate_ulid, is_ulid_text};
use crate::json::string_views;
use crate::registry::{
    ConnectionView, SessionView, close, deliver, dispatch_global, dispatch_user, dispatch_users,
    entry_is, handshake, lemma_session_ids_members, session_ids, lemma_entry_unique, lemma_remove_keeps_wf, insert_session, opened, registered, registry_wf, remove_session,
    sessions_for,
};
use crate::user::User;

verus! {

#[verifier::external_type_specification]
#[verifier::external_body]
#[verifier::reject_recursive_types(T)]
pub struct ExUnboundedSender<T>(UnboundedSender<T>);

/// The frames handed to the sending half `s` of a channel, oldest first.
pub uninterp spec fn offered(s: UnboundedSender<String>) -> Seq<Seq<char>>;

/// Relies on tokio's `UnboundedSender::send`: it never blocks, and it puts the
/// frame at the tail of the channel's queue unless the receiving half was
/// closed, which the result tells.
#[verifier::external_body]
fn offer(sender: &mut UnboundedSender<String>, frame: String) -> (accepted: bool)
    ensures
        offered(*final(sender)) == offered(*old(sender)).push(frame@),
{
    sender.send(frame).is_ok()
}

/// The views of an optional string.
pub open spec fn user_view(u: Option<String>) -> Option<Seq<char>> {
    match u {
        Some(s) => Some(s@),
        None => None,
    }
}

/// One live connection's session: an id, the sending half of its outbound
/// channel, and the user it is linked to once its handshake succeeded.
pub struct Client {
    pub id: String,
    pub user_id: Option<String>,
    pub sender: UnboundedSender<String>,
}

impl View for Client {
    type V = SessionView;

    open spec fn view(&self) -> SessionView {
        SessionView { id: self.id@, user: user_view(self.user_id), sent: offered(self.sender) }
    }
}

impl Client {
    /// A session with id `id`, not linked to a user, whose frames go to `sender`.
    pub fn with_id(id: String, sender: UnboundedSender<String>) -> (r: Client)
        ensures
            r@ == (SessionView { id: id@, user: None, sent: offered(sender) }),
    {
        Client { id, user_id: None, sender }
    }

    /// A session with a fresh ULID, not linked to a user, whose frames go to
    /// `sender`.
    pub fn empty(sender: UnboundedSender<String>) -> (r: Client)
        ensures
            is_ulid_text(r@.id),
            r@.user is None,
            r@.sent == offered(sender),
    {
        Client::with_id(generate_ulid(), sender)
    }

    /// The id of this session.
    pub fn id(&self) -> (r: &String)
        ensures
            r@ == self@.id,
    {
        &self.id
    }

    /// The user this session is linked to, if any.
    pub fn user_id(&self) -> (r: &Option<String>)
        ensures
            user_view(*r) == self@.user,
    {
        &self.user_id
    }

    /// Takes the outcome of resolving a handshake token: a resolved user is
    /// linked to this session and handed back; when the lookup found no one,
    /// or failed, nothing changes.
    pub fn set_user(&mut self, resolved: Option<User>) -> (r: Option<User>)
        ensures
            r == resolved,
            final(self)@ == match resolved {
                Some(user) => SessionView { user: Some(user.id@), ..old(self)@ },
                None => old(self)@,
            },
            final(self).sender == old(self).sender,
    {
        match resolved {
            Some(user) => {
                self.user_id = Some(user.id.clone());
                Some(user)
            },
            None => None,
        }
    }

    /// Whether this session is linked to `user_id`.
    pub fn belongs_to(&self, user_id: &String) -> (r: bool)
        ensures
            r == (self@.user == Some(user_id@)),
    {
        match &self.user_id {
            Some(x) => x.eq(user_id),
            None => false,
        }
    }

    fn send_frame(&mut self, frame: String)
        ensures
            final(self)@ == deliver(old(self)@, frame@),
    {
        let _ = offer(&mut self.sender, frame);
    }

    /// Hands the wire text of `event` to this session's outbound channel.
    pub fn send(&mut self, event: &Event)
        ensures
            offered(final(self).sender) == offered(old(self).sender).push(event_json(*event)),
            final(self)@ == deliver(old(self)@, event_json(*event)),
    {
        self.send_frame(event.to_string());
    }
}

/// The registry: every authenticated session, each linked to its user.
pub struct Clients {
    clients: Vec<Client>,
}

/// Whether a dispatch aimed at `target` (one user, or everyone) reaches `s`.
pub open spec fn reaches(s: SessionView, target: Option<Seq<char>>) -> bool {
    match target {
        Some(u) => s.user == Some(u),
        None => true,
    }
}

/// The view of an optional user id.
pub open spec fn target_view(target: Option<&String>) -> Option<Seq<char>> {
    match target {
        Some(u) => Some(u@),
        None => None,
    }
}

impl View for Clients {
    type V = Seq<SessionView>;

    /// Each registered session's view, whose history is read from its sender.
    open spec fn view(&self) -> Seq<SessionView> {
        self.sessions().map_values(|c: Client| c@)
    }
}

impl Clients {
    /// The registered sessions, in registry order.
    pub closed spec fn sessions(&self) -> Seq<Client> {
        self.clients@
    }

    /// The registry is well formed.
    pub open spec fn wf(&self) -> bool {
        registry_wf(self@)
    }

    /// An empty registry.
    pub fn new() -> (r: Clients)
        ensures
            r@ == Seq::<SessionView>::empty(),
            r.wf(),
    {
        let r = Clients { clients: Vec::new() };
        assert(r@ =~= Seq::<SessionView>::empty());
        r
    }

    /// The number of registered sessions.
    pub fn len(&self) -> (r: usize)
        ensures
            r == self@.len(),
    {
        self.clients.len()
    }

    /// Whether a session with id `id` is registered.
    pub fn contains_session(&self, id: &String) -> (r: bool)
        ensures
            r == registered(self@, id@),
    {
        let mut i: usize = 0;
        while i < self.clients.len()
            invariant
                i <= self.clients.len(),
                forall|j: int| 0 <= j < i ==> self@[j].id != id@,
            decreases self.clients.len() - i,
        {
            if self.clients[i].id.eq(id) {
                assert(self@[i as int].id == id@);
                return true;
            }
            i = i + 1;
        }
        false
    }

    /// Registers `client` under its user. It is handed back, and nothing
    /// changes, when it is not linked to a user or its id is registered already.
    pub fn insert(&mut self, client: Client) -> (r: Result<(), Client>)
        requires
            old(self).wf(),
        ensures
            final(self).wf(),
            final(self)@ == insert_session(old(self)@, client@),
            r is Ok <==> (client@.user is Some && !registered(old(self)@, client@.id)),
            r matches Err(c) ==> c@ == client@,
    {
        if client.user_id.is_none() || self.contains_session(&client.id) {
            return Err(client);
        }
        let ghost c = client@;
        self.clients.push(client);
        assert(self@ =~= old(self)@.push(c));
        Ok(())
    }

    /// Takes session `session_id` of user `user_id` out of the registry, and
    /// tells whether it was there. No other session is touched.
    pub fn remove(&mut self, user_id: &String, session_id: &String) -> (r: bool)
        requires
            old(self).wf(),
        ensures
            final(self).wf(),
            final(self)@ == remove_session(old(self)@, user_id@, session_id@),
            r == exists|i: int| entry_is(old(self)@, i, user_id@, session_id@),
    {
        let ghost u = user_id@;
        let ghost id = session_id@;
        let mut i: usize = 0;
        while i < self.clients.len()
            invariant
                i <= self.clients.len(),
                self@ == old(self)@,
                registry_wf(old(self)@),
                u == user_id@,
                id == session_id@,
                forall|j: int| 0 <= j < i ==> !entry_is(self@, j, u, id),
            decreases self.clients.len() - i,
        {
            assert(self@[i as int] == self.clients@[i as int]@);
            let found = self.clients[i].belongs_to(user_id) && self.clients[i].id.eq(session_id);
            if found {
                assert(entry_is(old(self)@, i as int, u, id));
                proof {
                    lemma_entry_unique(old(self)@, i as int, u, id);
                    lemma_remove_keeps_wf(old(self)@, i as int);
                }
                self.clients.remove(i);
                assert(self@ =~= old(self)@.remove(i as int));
                return true;
            }
            assert(!entry_is(self@, i as int, u, id));
            i = i + 1;
        }
        assert(forall|j: int| !entry_is(old(self)@, j, u, id));
        false
    }

    /// The ids of the sessions registered for `user_id`, in registry order,
    /// one per session.
    pub fn sessions_for(&self, user_id: &String) -> (r: Vec<String>)
        ensures
            string_views(r@) == session_ids(self@, user_id@),
            forall|id: Seq<char>|
                string_views(r@).contains(id) <==> sessions_for(self@, user_id@).contains(id),
    {
        let ghost u = user_id@;
        let mut r: Vec<String> = Vec::new();
        let mut i: usize = 0;
        assert(string_views(r@) =~= session_ids(self@.take(0), u));
        while i < self.clients.len()
            invariant
                i <= self.clients.len(),
                u == user_id@,
                string_views(r@) == session_ids(self@.take(i as int), u),
            decreases self.clients.len() - i,
        {
            assert(self@[i as int] == self.clients@[i as int]@);
            let ghost before = r@;
            assert(self@.take(i as int + 1).drop_last() =~= self@.take(i as int));
            if self.clients[i].belongs_to(user_id) {
                r.push(self.clients[i].id.clone());
                assert(string_views(r@) =~= string_views(before).push(self@[i as int].id));
            }
            i = i + 1;
        }
        assert(self@.take(self.clients.len() as int) =~= self@);
        proof {
            lemma_session_ids_members(self@, u);
        }
        r
    }

    /// Hands `frame` to every session that a dispatch aimed at `target`
    /// reaches: the sessions of one user, or all of them.
    fn deliver_to(&mut self, target: Option<&String>, frame: &String)
        ensures
            final(self)@ == old(self)@.map_values(
                |s: SessionView| if reaches(s, target_view(target)) { deliver(s, frame@) } else { s },
            ),
    {
        let ghost t = target_view(target);
        let ghost goal = old(self)@.map_values(
            |s: SessionView| if reaches(s, t) { deliver(s, frame@) } else { s },
        );
        let mut i: usize = 0;
        while i < self.clients.len()
            invariant
                i <= self.clients.len(),
                self.clients.len() == old(self).clients.len(),
                t == target_view(target),
                goal == old(self)@.map_values(
                    |s: SessionView| if reaches(s, t) { deliver(s, frame@) } else { s },
                ),
                forall|j: int| 0 <= j < i ==> self@[j] == goal[j],
                forall|j: int| i <= j < self.clients.len() ==> self@[j] == old(self)@[j],
            decreases self.clients.len() - i,
        {
            let ghost before = self.clients@;
            assert(self@[i as int] == before[i as int]@);
            let found = match target {
                Some(u) => self.clients[i].belongs_to(u),
                None => true,
            };
            if found {
                self.clients[i].send_frame(frame.clone());
            }
            proof {
                assert forall|j: int| 0 <= j < self.clients.len() && j != i implies self@[j]
                    == before[j]@ by {
                    assert(self.clients@[j] == before[j]);
                }
                assert(self@[i as int] == goal[i as int]);
            }
            i = i + 1;
        }
        assert(self@ =~= goal);
    }

    /// Hands `event` to every session of `user_id`. A user with no session is
    /// not an error: nothing happens.
    pub fn dispatch_to_user(&mut self, user_id: &String, event: &Event)
        ensures
            final(self)@ == dispatch_user(old(self)@, user_id@, event_json(*event)),
    {
        let frame = event.to_string();
        self.deliver_to(Some(user_id), &frame);
        assert(self@ =~= dispatch_user(old(self)@, user_id@, frame@));
    }

    /// Hands `event` to every session of each user in `users`, once per entry.
    pub fn dispatch_users(&mut self, users: Vec<String>, event: &Event)
        ensures
            final(self)@ == dispatch_users(old(self)@, string_views(users@), event_json(*event)),
    {
        let frame = event.to_string();
        let mut i: usize = 0;
        while i < users.len()
            invariant
                i <= users.len(),
                frame@ == event_json(*event),
                self@ == dispatch_users(old(self)@, string_views(users@.take(i as int)), frame@),
            decreases users.len() - i,
        {
            proof {
                let next = string_views(users@.take(i as int + 1));
                assert(next.drop_last() =~= string_views(users@.take(i as int)));
                assert(next.last() == users@[i as int]@);
            }
            let ghost before = self@;
            self.deliver_to(Some(&users[i]), &frame);
            assert(self@ =~= dispatch_user(before, users@[i as int]@, frame@));
            i = i + 1;
        }
        assert(users@.take(users.len() as int) =~= users@);
    }

    /// Hands `event` to every registered session.
    pub fn dispatch_global(&mut self, event: &Event)
        ensures
            final(self)@ == dispatch_global(old(self)@, event_json(*event)),
    {
        let frame = event.to_string();
        self.deliver_to(None, &frame);
        assert(self@ =~= dispatch_global(old(self)@, frame@));
    }
}

/// The sending session's token of a received event.
pub open spec fn token_of(e: ReceivedEvent) -> Seq<char> {
    match e {
        ReceivedEvent::Handshake { token } => token@,
    }
}

/// The handshake state of one connection. A waiting connection owns its
/// session; a linked one names the registry entry that holds it.
pub enum Connection {
    Pending(Client),
    Linked { user_id: String, session_id: String },
}

impl View for Connection {
    type V = ConnectionView;

    open spec fn view(&self) -> ConnectionView {
        match self {
            Connection::Pending(c) => ConnectionView::Pending(c@),
            Connection::Linked { user_id, session_id } => ConnectionView::Linked {
                user: user_id@,
                id: session_id@,
            },
        }
    }
}

impl Connection {
    /// Opens a connection for `client`, which is told at once that the
    /// handshake may start.
    pub fn open(client: Client) -> (r: Connection)
        ensures
            r@ == opened(client@),
    {
        let mut client = client;
        client.send(&Event::HandshakeStart);
        Connection::Pending(client)
    }

    /// The id of this connection's session.
    pub fn session_id(&self) -> (r: &String)
        ensures
            r@ == match self@ {
                ConnectionView::Pending(s) => s.id,
                ConnectionView::Linked { id, .. } => id,
            },
    {
        match self {
            Connection::Pending(c) => c.id(),
            Connection::Linked { session_id, .. } => session_id,
        }
    }

    /// Whether the handshake of this connection has succeeded.
    pub fn is_authenticated(&self) -> (r: bool)
        ensures
            r == self@ is Linked,
    {
        match self {
            Connection::Pending(_) => false,
            Connection::Linked { .. } => true,
        }
    }

    /// The token to resolve for `event`, or nothing when the handshake already
    /// succeeded and the event is to be ignored.
    pub fn handshake_token<'a>(&self, event: &'a ReceivedEvent) -> (r: Option<&'a String>)
        ensures
            r is Some <==> self@ is Pending,
            r matches Some(t) ==> t@ == token_of(*event),
    {
        match self {
            Connection::Pending(_) => match event {
                ReceivedEvent::Handshake { token } => Some(token),
            },
            Connection::Linked { .. } => None,
        }
    }

    /// Completes a handshake whose token resolved to `resolved`, nothing when
    /// the lookup failed. On success the session is linked to the user, told
    /// so, and registered; in every other case nothing changes.
    pub fn complete_handshake(self, clients: &mut Clients, resolved: Option<User>) -> (r: Connection)
        requires
            old(clients).wf(),
        ensures
            final(clients).wf(),
            (r@, final(clients)@) == handshake(self@, old(clients)@, resolved),
    {
        match self {
            Connection::Pending(client) => match resolved {
                Some(user) => {
                    if clients.contains_session(&client.id) {
                        return Connection::Pending(client);
                    }
                    let mut client = client;
                    let user_id = user.id.clone();
                    let session_id = client.id.clone();
                    match client.set_user(Some(user)) {
                        Some(user) => {
                            client.send(&Event::HandshakeComplete { user });
                            match clients.insert(client) {
                                Ok(()) => Connection::Linked { user_id, session_id },
                                Err(client) => Connection::Pending(client),
                            }
                        },
                        None => Connection::Pending(client),
                    }
                },
                None => Connection::Pending(client),
            },
            Connection::Linked { user_id, session_id } => Connection::Linked { user_id, session_id },
        }
    }

    /// Tears the connection down: a linked session leaves the registry.
    /// Tells whether an entry was removed.
    pub fn close(self, clients: &mut Clients) -> (removed: bool)
        requires
            old(clients).wf(),
        ensures
            final(clients).wf(),
            final(clients)@ == close(self@, old(clients)@),
            removed == match self@ {
                ConnectionView::Pending(_) => false,
                ConnectionView::Linked { user, id } => exists|i: int|
                    entry_is(old(clients)@, i, user, id),
            },
    {
        match self {
            Connection::Pending(_) => false,
            Connection::Linked { user_id, session_id } => clients.remove(&user_id, &session_id),
        }
    }
}

/// What the transport delivered to a connection's receive loop.
#[derive(Debug, Clone)]
pub enum Inbound {
    /// A text frame, with the event it decodes to, if it decodes.
    Text(Option<ReceivedEvent>),
    /// A frame that is not text.
    NotText,
    /// A read failed, or the stream ended.
    Closed,
}

/// What the receive loop does next.
#[derive(Debug, Clone, PartialEq, Eq)]
pub enum LoopStep {
    /// Wait for the next frame.
    Continue,
    /// Resolve this token, then complete the handshake with the outcome.
    Resolve(String),
    /// Leave the loop and close the connection.
    Stop,
}

impl Connection {
    /// Decides what the receive loop does with `inbound`: anything but text
    /// ends the loop; text that does not decode is skipped; a handshake is
    /// resolved on a waiting connection and skipped on a linked one.
    pub fn next_step(&self, inbound: &Inbound) -> (r: LoopStep)
        ensures
            (inbound is NotText || inbound is Closed) ==> r == LoopStep::Stop,
            inbound matches Inbound::Text(None) ==> r == LoopStep::Continue,
            inbound matches Inbound::Text(Some(e)) ==> match self@ {
                ConnectionView::Pending(_) => r matches LoopStep::Resolve(t) && t@ == token_of(*e),
                ConnectionView::Linked { .. } => r == LoopStep::Continue,
            },
    {
        match inbound {
            Inbound::Text(None) => LoopStep::Continue,
            Inbound::Text(Some(event)) => match self.handshake_token(event) {
                Some(token) => LoopStep::Resolve(token.clone()),
                None => LoopStep::Continue,
            },
            Inbound::NotText => LoopStep::Stop,
            Inbound::Closed => LoopStep::Stop,
        }
    }
}

} // verus!
