//! The mathematical model of the gateway: sessions, the registry of
//! authenticated sessions, the handshake state of a connection, and what each
//! operation does to them. The executable types in `client` are proved to
//! follow this model; the laws at the end are proved of the model.

use vstd::prelude::*;
use crate::event::{Event, event_json};
use crate::user::User;

verus! {

/// A session as the model sees it: its id, the user it is linked to, and every
/// frame handed to its outbound channel, oldest first.
pub struct SessionView {
    pub id: Seq<char>,
    pub user: Option<Seq<char>>,
    pub sent: Seq<Seq<char>>,
}

/// `s` after `frame` was handed to its outbound channel.
pub open spec fn deliver(s: SessionView, frame: Seq<char>) -> SessionView {
    SessionView { sent: s.sent.push(frame), ..s }
}

/// Every registered session is linked to a user, and no session id occurs twice.
pub open spec fn registry_wf(reg: Seq<SessionView>) -> bool {
    &&& forall|i: int| 0 <= i < reg.len() ==> (#[trigger] reg[i]).user is Some
    &&& forall|i: int, j: int|
        0 <= i < reg.len() && 0 <= j < reg.len() && i != j ==> (#[trigger] reg[i]).id != (
        #[trigger] reg[j]).id
}

/// Whether a session with id `id` is registered.
pub open spec fn registered(reg: Seq<SessionView>, id: Seq<char>) -> bool {
    exists|i: int| 0 <= i < reg.len() && (#[trigger] reg[i]).id == id
}

/// Whether the entry at `i` is session `id` of user `u`.
pub open spec fn entry_is(reg: Seq<SessionView>, i: int, u: Seq<char>, id: Seq<char>) -> bool {
    0 <= i < reg.len() && reg[i].id == id && reg[i].user == Some(u)
}

/// The ids of the sessions registered for user `u`.
pub open spec fn sessions_for(reg: Seq<SessionView>, u: Seq<char>) -> Set<Seq<char>> {
    Set::new(|id: Seq<char>| exists|i: int| #[trigger] entry_is(reg, i, u, id))
}

/// The ids of the sessions of user `u`, in registry order, one per session.
pub open spec fn session_ids(reg: Seq<SessionView>, u: Seq<char>) -> Seq<Seq<char>>
    decreases reg.len(),
{
    if reg.len() == 0 {
        Seq::empty()
    } else if reg.last().user == Some(u) {
        session_ids(reg.drop_last(), u).push(reg.last().id)
    } else {
        session_ids(reg.drop_last(), u)
    }
}

/// The ids listed for `u` are exactly the members of `u`'s set.
pub proof fn lemma_session_ids_members(reg: Seq<SessionView>, u: Seq<char>)
    ensures
        forall|id: Seq<char>|
            #[trigger] session_ids(reg, u).contains(id) <==> sessions_for(reg, u).contains(id),
    decreases reg.len(),
{
    if reg.len() > 0 {
        let p = reg.drop_last();
        let n = reg.len() - 1;
        lemma_session_ids_members(p, u);
        assert forall|id: Seq<char>|
            #[trigger] session_ids(reg, u).contains(id) <==> sessions_for(reg, u).contains(id) by {
            let rest = session_ids(p, u);
            let all = session_ids(reg, u);
            if all.contains(id) {
                let k = choose|k: int| 0 <= k < all.len() && all[k] == id;
                if reg.last().user == Some(u) {
                    assert(all == rest.push(reg.last().id));
                } else {
                    assert(all == rest);
                }
                if k < rest.len() {
                    assert(rest[k] == id);
                    assert(rest.contains(id));
                    let j = choose|j: int| #[trigger] entry_is(p, j, u, id);
                    assert(entry_is(reg, j, u, id));
                } else {
                    assert(entry_is(reg, n, u, id));
                }
            }
            if sessions_for(reg, u).contains(id) {
                let j = choose|j: int| #[trigger] entry_is(reg, j, u, id);
                if j < n {
                    assert(entry_is(p, j, u, id));
                    assert(sessions_for(p, u).contains(id));
                    assert(rest.contains(id));
                    let k = choose|k: int| 0 <= k < rest.len() && rest[k] == id;
                    if reg.last().user == Some(u) {
                        assert(all == rest.push(reg.last().id));
                        assert(all[k] == id);
                    } else {
                        assert(all == rest);
                    }
                } else {
                    assert(all[all.len() - 1] == id);
                }
            }
        }
    } else {
        assert forall|id: Seq<char>| !sessions_for(reg, u).contains(id) by {
            if sessions_for(reg, u).contains(id) {
                let j = choose|j: int| #[trigger] entry_is(reg, j, u, id);
            }
        }
    }
}

/// Every session of user `u` receives `frame`; the others are left alone.
pub open spec fn dispatch_user(reg: Seq<SessionView>, u: Seq<char>, frame: Seq<char>) -> Seq<
    SessionView,
> {
    reg.map_values(|s: SessionView| if s.user == Some(u) { deliver(s, frame) } else { s })
}

/// `dispatch_user` once for each entry of `users`, in order.
pub open spec fn dispatch_users(
    reg: Seq<SessionView>,
    users: Seq<Seq<char>>,
    frame: Seq<char>,
) -> Seq<SessionView>
    decreases users.len(),
{
    if users.len() == 0 {
        reg
    } else {
        dispatch_user(dispatch_users(reg, users.drop_last(), frame), users.last(), frame)
    }
}

/// Every registered session receives `frame`.
pub open spec fn dispatch_global(reg: Seq<SessionView>, frame: Seq<char>) -> Seq<SessionView> {
    reg.map_values(|s: SessionView| deliver(s, frame))
}

/// `s` is added at the end when it is linked to a user and its id is new;
/// otherwise nothing changes.
pub open spec fn insert_session(reg: Seq<SessionView>, s: SessionView) -> Seq<SessionView> {
    if s.user is Some && !registered(reg, s.id) {
        reg.push(s)
    } else {
        reg
    }
}

/// The entry for session `id` of user `u` is taken out, if there is one;
/// every other entry stays, in order.
pub open spec fn remove_session(reg: Seq<SessionView>, u: Seq<char>, id: Seq<char>) -> Seq<
    SessionView,
> {
    if exists|i: int| #[trigger] entry_is(reg, i, u, id) {
        reg.remove(choose|i: int| #[trigger] entry_is(reg, i, u, id))
    } else {
        reg
    }
}

/// The handshake state of one connection: waiting, with the session still
/// held by the connection, or linked to a user, with the session registered.
pub enum ConnectionView {
    Pending(SessionView),
    Linked { user: Seq<char>, id: Seq<char> },
}

/// The frame that opens every connection.
pub open spec fn start_frame() -> Seq<char> {
    event_json(Event::HandshakeStart)
}

/// The frame that tells a session its handshake succeeded for `user`.
pub open spec fn complete_frame(user: User) -> Seq<char> {
    event_json(Event::HandshakeComplete { user })
}

/// A fresh connection for session `s`: the start frame is sent to it at once.
pub open spec fn opened(s: SessionView) -> ConnectionView {
    ConnectionView::Pending(deliver(s, start_frame()))
}

/// A handshake whose token resolved to `resolved` (nothing when the lookup
/// failed). A waiting connection whose token resolved, and whose session id
/// is not registered yet, is linked to the user: the session is told so and
/// registered. Every other case changes nothing.
pub open spec fn handshake(conn: ConnectionView, reg: Seq<SessionView>, resolved: Option<User>) -> (
    ConnectionView,
    Seq<SessionView>,
) {
    match conn {
        ConnectionView::Pending(s) => match resolved {
            Some(user) => if registered(reg, s.id) {
                (conn, reg)
            } else {
                let linked = SessionView {
                    user: Some(user.id@),
                    ..deliver(s, complete_frame(user))
                };
                (ConnectionView::Linked { user: user.id@, id: s.id }, reg.push(linked))
            },
            None => (conn, reg),
        },
        ConnectionView::Linked { .. } => (conn, reg),
    }
}

/// The registry after a connection closed: a linked session is removed.
pub open spec fn close(conn: ConnectionView, reg: Seq<SessionView>) -> Seq<SessionView> {
    match conn {
        ConnectionView::Pending(_) => reg,
        ConnectionView::Linked { user, id } => remove_session(reg, user, id),
    }
}

/// A linked connection's session is registered under its user only.
pub open spec fn linked_in(conn: ConnectionView, reg: Seq<SessionView>) -> bool {
    match conn {
        ConnectionView::Pending(_) => true,
        ConnectionView::Linked { user, id } => forall|i: int|
            0 <= i < reg.len() && (#[trigger] reg[i]).id == id ==> reg[i].user == Some(user),
    }
}

/// One of the three ways of fanning an event out.
pub enum Dispatch {
    ToUser(Seq<char>),
    ToUsers(Seq<Seq<char>>),
    Global,
}

/// The registry after `d` sent `frame`.
pub open spec fn apply_dispatch(reg: Seq<SessionView>, d: Dispatch, frame: Seq<char>) -> Seq<
    SessionView,
> {
    match d {
        Dispatch::ToUser(u) => dispatch_user(reg, u, frame),
        Dispatch::ToUsers(us) => dispatch_users(reg, us, frame),
        Dispatch::Global => dispatch_global(reg, frame),
    }
}

/// How often `user` occurs in `users`.
pub open spec fn occurrences(users: Seq<Seq<char>>, user: Option<Seq<char>>) -> nat
    decreases users.len(),
{
    if users.len() == 0 {
        0
    } else {
        occurrences(users.drop_last(), user) + if Some(users.last()) == user {
            1nat
        } else {
            0nat
        }
    }
}

/// How many copies of the frame `d` hands to session `s`.
pub open spec fn copies(d: Dispatch, s: SessionView) -> nat {
    match d {
        Dispatch::ToUser(u) => if s.user == Some(u) {
            1
        } else {
            0
        },
        Dispatch::ToUsers(us) => occurrences(us, s.user),
        Dispatch::Global => 1,
    }
}

/// `n` copies of `frame`.
pub open spec fn repeat(frame: Seq<char>, n: nat) -> Seq<Seq<char>>
    decreases n,
{
    if n == 0 {
        Seq::empty()
    } else {
        repeat(frame, (n - 1) as nat).push(frame)
    }
}


/// Removing one entry keeps the registry well formed.
pub proof fn lemma_remove_keeps_wf(reg: Seq<SessionView>, i: int)
    requires
        registry_wf(reg),
        0 <= i < reg.len(),
    ensures
        registry_wf(reg.remove(i)),
{
    let r = reg.remove(i);
    assert forall|a: int, b: int| 0 <= a < r.len() && 0 <= b < r.len() && a != b implies r[a].id
        != r[b].id by {
        let a0 = if a < i { a } else { a + 1 };
        let b0 = if b < i { b } else { b + 1 };
        assert(r[a] == reg[a0]);
        assert(r[b] == reg[b0]);
    }
    assert forall|a: int| 0 <= a < r.len() implies (#[trigger] r[a]).user is Some by {
        let a0 = if a < i { a } else { a + 1 };
        assert(r[a] == reg[a0]);
    }
}

/// In a well-formed registry the entry for a session and its user is the
/// only entry with that id.
pub proof fn lemma_entry_unique(reg: Seq<SessionView>, i: int, u: Seq<char>, id: Seq<char>)
    requires
        registry_wf(reg),
        entry_is(reg, i, u, id),
    ensures
        remove_session(reg, u, id) == reg.remove(i),
{
    let k = choose|k: int| #[trigger] entry_is(reg, k, u, id);
    assert(reg[k].id == reg[i].id);
    assert(k == i);
}


/// Fanning out only appends: each session keeps its id and user, and gets
/// as many copies of the frame as the dispatch hands it, after what it had.
pub proof fn lemma_dispatch_effect(reg: Seq<SessionView>, d: Dispatch, frame: Seq<char>)
    ensures
        apply_dispatch(reg, d, frame).len() == reg.len(),
        forall|i: int|
            0 <= i < reg.len() ==> {
                let after = #[trigger] apply_dispatch(reg, d, frame)[i];
                &&& after.id == reg[i].id
                &&& after.user == reg[i].user
                &&& after.sent == reg[i].sent + repeat(frame, copies(d, reg[i]))
            },
{
    match d {
        Dispatch::ToUsers(us) => {
            lemma_dispatch_users_effect(reg, us, frame);
        },
        _ => {
            assert forall|i: int| 0 <= i < reg.len() implies {
                let after = #[trigger] apply_dispatch(reg, d, frame)[i];
                &&& after.id == reg[i].id
                &&& after.user == reg[i].user
                &&& after.sent == reg[i].sent + repeat(frame, copies(d, reg[i]))
            } by {
                assert(repeat(frame, 0) == Seq::<Seq<char>>::empty());
                assert(repeat(frame, 1) == repeat(frame, 0).push(frame));
                assert(repeat(frame, 1) =~= seq![frame]);
                assert(reg[i].sent + repeat(frame, 0) =~= reg[i].sent);
                assert(reg[i].sent + seq![frame] =~= reg[i].sent.push(frame));
            }
        },
    }
}

proof fn lemma_dispatch_users_effect(reg: Seq<SessionView>, us: Seq<Seq<char>>, frame: Seq<char>)
    ensures
        dispatch_users(reg, us, frame).len() == reg.len(),
        forall|i: int|
            0 <= i < reg.len() ==> {
                let after = #[trigger] dispatch_users(reg, us, frame)[i];
                &&& after.id == reg[i].id
                &&& after.user == reg[i].user
                &&& after.sent == reg[i].sent + repeat(frame, occurrences(us, reg[i].user))
            },
    decreases us.len(),
{
    if us.len() == 0 {
        assert forall|i: int| 0 <= i < reg.len() implies reg[i].sent + repeat(frame, 0) == reg[i].sent by {
            assert(reg[i].sent + repeat(frame, 0) =~= reg[i].sent);
        }
    } else {
        lemma_dispatch_users_effect(reg, us.drop_last(), frame);
        let mid = dispatch_users(reg, us.drop_last(), frame);
        assert forall|i: int| 0 <= i < reg.len() implies {
            let after = #[trigger] dispatch_users(reg, us, frame)[i];
            &&& after.id == reg[i].id
            &&& after.user == reg[i].user
            &&& after.sent == reg[i].sent + repeat(frame, occurrences(us, reg[i].user))
        } by {
            let n = occurrences(us.drop_last(), reg[i].user);
            assert(mid[i].sent == reg[i].sent + repeat(frame, n));
            if mid[i].user == Some(us.last()) {
                assert(repeat(frame, n + 1) == repeat(frame, n).push(frame));
                assert((reg[i].sent + repeat(frame, n)).push(frame) =~= reg[i].sent + repeat(
                    frame,
                    n + 1,
                ));
            }
        }
    }
}

/// Session isolation: a dispatch leaves every session that it does not
/// target exactly as it was, and a handshake leaves every session that was
/// registered before exactly as it was. What is sent to one session never
/// shows on another.
pub proof fn lemma_session_isolation(
    reg: Seq<SessionView>,
    d: Dispatch,
    frame: Seq<char>,
    conn: ConnectionView,
    resolved: Option<User>,
)
    ensures
        forall|i: int|
            0 <= i < reg.len() && copies(d, reg[i]) == 0 ==> #[trigger] apply_dispatch(
                reg,
                d,
                frame,
            )[i] == reg[i],
        forall|i: int|
            0 <= i < reg.len() ==> #[trigger] handshake(conn, reg, resolved).1[i] == reg[i],
{
    lemma_dispatch_effect(reg, d, frame);
    assert forall|i: int| 0 <= i < reg.len() && copies(d, reg[i]) == 0 implies #[trigger] apply_dispatch(
        reg,
        d,
        frame,
    )[i] == reg[i] by {
        assert(reg[i].sent + repeat(frame, 0) =~= reg[i].sent);
    }
}

/// Multi-session fan-out: dispatching to user `u` hands the frame once to
/// every session of `u` and to no other session.
pub proof fn lemma_fan_out(reg: Seq<SessionView>, u: Seq<char>, frame: Seq<char>)
    ensures
        dispatch_user(reg, u, frame).len() == reg.len(),
        forall|i: int|
            0 <= i < reg.len() && reg[i].user == Some(u) ==> #[trigger] dispatch_user(
                reg,
                u,
                frame,
            )[i] == deliver(reg[i], frame),
        forall|i: int|
            0 <= i < reg.len() && reg[i].user != Some(u) ==> #[trigger] dispatch_user(
                reg,
                u,
                frame,
            )[i] == reg[i],
{
}

/// Handshake idempotence: once a handshake linked a waiting connection to a
/// user, the session is registered for that user, has been told so once, and
/// any later handshake on the connection changes nothing.
pub proof fn lemma_handshake_idempotent(
    s: SessionView,
    reg: Seq<SessionView>,
    user: User,
    again: Option<User>,
)
    requires
        !registered(reg, s.id),
    ensures
        ({
            let (conn, after) = handshake(ConnectionView::Pending(s), reg, Some(user));
            &&& conn == ConnectionView::Linked { user: user.id@, id: s.id }
            &&& after.len() == reg.len() + 1
            &&& after.last().sent == s.sent.push(complete_frame(user))
            &&& sessions_for(after, user.id@).contains(s.id)
            &&& handshake(conn, after, again) == (conn, after)
        }),
{
    let (conn, after) = handshake(ConnectionView::Pending(s), reg, Some(user));
    assert(entry_is(after, reg.len() as int, user.id@, s.id));
}

/// Dispatching never adds nor removes a registered session, nor moves one
/// to another user.
pub proof fn lemma_dispatch_keeps_membership(
    reg: Seq<SessionView>,
    d: Dispatch,
    frame: Seq<char>,
    u: Seq<char>,
)
    ensures
        sessions_for(apply_dispatch(reg, d, frame), u) == sessions_for(reg, u),
        registry_wf(reg) ==> registry_wf(apply_dispatch(reg, d, frame)),
{
    lemma_dispatch_effect(reg, d, frame);
    let after = apply_dispatch(reg, d, frame);
    assert forall|id: Seq<char>| #[trigger] sessions_for(after, u).contains(id) == sessions_for(
        reg,
        u,
    ).contains(id) by {
        if sessions_for(after, u).contains(id) {
            let i = choose|i: int| #[trigger] entry_is(after, i, u, id);
            assert(entry_is(reg, i, u, id));
        }
        if sessions_for(reg, u).contains(id) {
            let i = choose|i: int| #[trigger] entry_is(reg, i, u, id);
            assert(entry_is(after, i, u, id));
        }
    }
    assert(sessions_for(after, u) =~= sessions_for(reg, u));
    if registry_wf(reg) {
        assert forall|i: int, j: int|
            0 <= i < after.len() && 0 <= j < after.len() && i != j implies (#[trigger] after[i]).id
            != (#[trigger] after[j]).id by {
            assert(after[i].id == reg[i].id);
            assert(after[j].id == reg[j].id);
        }
        assert forall|i: int| 0 <= i < after.len() implies (#[trigger] after[i]).user is Some by {
            assert(after[i].user == reg[i].user);
        }
    }
}

/// A handshake keeps the registry well formed and leaves the connection's
/// session registered under its user only.
pub proof fn lemma_handshake_links(conn: ConnectionView, reg: Seq<SessionView>, resolved: Option<User>)
    requires
        registry_wf(reg),
        linked_in(conn, reg),
    ensures
        registry_wf(handshake(conn, reg, resolved).1),
        linked_in(handshake(conn, reg, resolved).0, handshake(conn, reg, resolved).1),
{
    let (c, after) = handshake(conn, reg, resolved);
    if after.len() == reg.len() + 1 {
        assert forall|i: int, j: int|
            0 <= i < after.len() && 0 <= j < after.len() && i != j implies (#[trigger] after[i]).id
            != (#[trigger] after[j]).id by {
            if i == reg.len() {
                assert(reg[j].id == after[j].id);
            } else if j == reg.len() {
                assert(reg[i].id == after[i].id);
            }
        }
        assert forall|i: int| 0 <= i < after.len() && (#[trigger] after[i]).id == after.last().id implies i
            == reg.len() by {
            if i < reg.len() {
                assert(reg[i].id == after[i].id);
            }
        }
    }
}

/// Clean teardown: once a linked connection closes, its session id is in
/// no user's set, and dispatches that come after cannot bring it back.
pub proof fn lemma_clean_teardown(
    user: Seq<char>,
    id: Seq<char>,
    reg: Seq<SessionView>,
    d: Dispatch,
    frame: Seq<char>,
)
    requires
        registry_wf(reg),
        linked_in(ConnectionView::Linked { user, id }, reg),
    ensures
        forall|u: Seq<char>|
            !(#[trigger] sessions_for(close(ConnectionView::Linked { user, id }, reg), u)).contains(
                id,
            ),
        forall|u: Seq<char>|
            !(#[trigger] sessions_for(
                apply_dispatch(close(ConnectionView::Linked { user, id }, reg), d, frame),
                u,
            )).contains(id),
{
    let after = close(ConnectionView::Linked { user, id }, reg);
    if exists|i: int| #[trigger] entry_is(reg, i, user, id) {
        let i = choose|i: int| #[trigger] entry_is(reg, i, user, id);
        lemma_entry_unique(reg, i, user, id);
        assert forall|k: int| 0 <= k < after.len() implies (#[trigger] after[k]).id != id by {
            let k0 = if k < i { k } else { k + 1 };
            assert(after[k] == reg[k0]);
        }
    } else {
        assert forall|k: int| 0 <= k < after.len() implies (#[trigger] after[k]).id != id by {
            if after[k].id == id {
                assert(entry_is(reg, k, user, id));
            }
        }
    }
    assert forall|u: Seq<char>| !(#[trigger] sessions_for(after, u)).contains(id) by {
        if sessions_for(after, u).contains(id) {
            let k = choose|k: int| #[trigger] entry_is(after, k, u, id);
            assert(after[k].id == id);
        }
    }
    assert forall|u: Seq<char>|
        !(#[trigger] sessions_for(apply_dispatch(after, d, frame), u)).contains(id) by {
        lemma_dispatch_keeps_membership(after, d, frame, u);
    }
}

/// Offline silence: dispatching to a user with no registered session changes
/// nothing.
pub proof fn lemma_offline_silence(reg: Seq<SessionView>, u: Seq<char>, frame: Seq<char>)
    requires
        sessions_for(reg, u) == Set::<Seq<char>>::empty(),
    ensures
        dispatch_user(reg, u, frame) == reg,
{
    assert forall|i: int| 0 <= i < reg.len() implies reg[i].user != Some(u) by {
        if reg[i].user == Some(u) {
            assert(entry_is(reg, i, u, reg[i].id));
            assert(sessions_for(reg, u).contains(reg[i].id));
        }
    }
    assert(dispatch_user(reg, u, frame) =~= reg);
}

/// Per-session FIFO: after two dispatches, each session holds what it had,
/// then the copies of the first frame, then those of the second.
pub proof fn lemma_fifo(
    reg: Seq<SessionView>,
    d1: Dispatch,
    f1: Seq<char>,
    d2: Dispatch,
    f2: Seq<char>,
)
    ensures
        forall|i: int|
            0 <= i < reg.len() ==> (#[trigger] apply_dispatch(apply_dispatch(reg, d1, f1), d2, f2)[i]).sent
                == reg[i].sent + repeat(f1, copies(d1, reg[i])) + repeat(f2, copies(d2, reg[i])),
{
    lemma_dispatch_effect(reg, d1, f1);
    let mid = apply_dispatch(reg, d1, f1);
    lemma_dispatch_effect(mid, d2, f2);
    assert forall|i: int| 0 <= i < reg.len() implies (#[trigger] apply_dispatch(mid, d2, f2)[i]).sent
        == reg[i].sent + repeat(f1, copies(d1, reg[i])) + repeat(f2, copies(d2, reg[i])) by {
        assert(mid[i].user == reg[i].user);
        assert(copies(d2, mid[i]) == copies(d2, reg[i]));
    }
}

/// Order on one connection: a fresh session first gets the start frame,
/// then, once its handshake succeeds, the completion frame, and only then
/// what later dispatches hand it.
pub proof fn lemma_connection_order(
    s: SessionView,
    reg: Seq<SessionView>,
    user: User,
    d: Dispatch,
    frame: Seq<char>,
)
    requires
        !registered(reg, s.id),
    ensures
        ({
            let after = handshake(opened(s), reg, Some(user)).1;
            &&& after.last().sent == s.sent + seq![start_frame(), complete_frame(user)]
            &&& apply_dispatch(after, d, frame).last().sent == s.sent + seq![
                start_frame(),
                complete_frame(user),
            ] + repeat(frame, copies(d, after.last()))
        }),
{
    let after = handshake(opened(s), reg, Some(user)).1;
    assert(after.last().sent =~= s.sent + seq![start_frame(), complete_frame(user)]);
    lemma_dispatch_effect(after, d, frame);
    assert(apply_dispatch(after, d, frame)[after.len() - 1] == apply_dispatch(after, d, frame).last());
}

} // verus!
