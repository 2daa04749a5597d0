//! The per-connection protocol state machine: a session is unnamed until its
//! client sets a name, then named until the connection closes.
use vstd::prelude::*;

use crate::error::Error;
use crate::message::{Message, MessageView};
use crate::protocol::{
    ClientCommand, ClientCommandView, Operation, OperationView, PeerAddr, ServerCommand,
    ServerCommandView,
};
use crate::registry::{
    addrs_view, broadcast_to, distinct_addrs, lemma_filter_drops_one, renamed, user_list_of,
    user_list_op, without_addr, PeerView, ServerState, ServerStateView,
};

verus! {

/// The server-side state of one connection.
pub struct Session {
    addr: PeerAddr,
    name: String,
}

/// The model of a [`Session`]: its address, and its user's name, empty
/// while the session is unnamed.
pub struct SessionView {
    pub addr: Seq<char>,
    pub name: Seq<char>,
}

impl View for Session {
    type V = SessionView;

    closed spec fn view(&self) -> SessionView {
        SessionView { addr: self.addr@, name: self.name@ }
    }
}

/// The reply to a line that is not a command.
pub open spec fn unknown_text() -> Seq<char> {
    "What's that?"@
}

/// The notice broadcast when a user first takes the name `n`.
pub open spec fn welcome_text(n: Seq<char>) -> Seq<char> {
    "Welcome, "@ + n + "!"@
}

/// The notice broadcast when the user called `n` leaves.
pub open spec fn left_text(n: Seq<char>) -> Seq<char> {
    n + " left."@
}

/// A notice from the server, as queued for a session.
pub open spec fn notice_op(text: Seq<char>) -> OperationView {
    OperationView::FromServer(ServerCommandView::ServerMessage(MessageView::Text(text)))
}

/// The model of what a session is handed: an operation, or `None` for a line
/// that could not be decoded.
pub open spec fn incoming_view(incoming: Result<Operation, Error>) -> Option<OperationView> {
    match incoming {
        Ok(op) => Some(op@),
        Err(_) => None,
    }
}

/// The model of a list of commands.
pub open spec fn commands_view(v: Seq<ServerCommand>) -> Seq<ServerCommandView> {
    v.map_values(|c: ServerCommand| c@)
}

/// The records after the session `s` took the non-empty name `n`: the record
/// is renamed, a first name is welcomed, and everyone gets the new user list.
pub open spec fn peers_after_naming(s: SessionView, peers: Seq<PeerView>, n: Seq<char>) -> Seq<
    PeerView,
> {
    let with_name = renamed(peers, s.addr, n);
    let greeted = if s.name.len() == 0 {
        broadcast_to(with_name, notice_op(welcome_text(n)), Seq::empty())
    } else {
        with_name
    };
    broadcast_to(greeted, user_list_op(greeted), Seq::empty())
}

/// The session after it handled `input`.
pub open spec fn next_session(s: SessionView, input: Option<OperationView>) -> SessionView {
    match input {
        Some(OperationView::FromClient(ClientCommandView::SetName(n))) => if n.len() > 0 {
            SessionView { name: n, ..s }
        } else {
            s
        },
        _ => s,
    }
}

/// The shared state after the session `s` handled `input`.
pub open spec fn next_state(
    s: SessionView,
    st: ServerStateView,
    input: Option<OperationView>,
) -> ServerStateView {
    match input {
        Some(OperationView::FromClient(ClientCommandView::SetName(n))) => if n.len() > 0 {
            ServerStateView { peers: peers_after_naming(s, st.peers, n), ..st }
        } else {
            st
        },
        Some(OperationView::FromClient(ClientCommandView::SendMessage(m))) => if s.name.len()
            > 0 {
            ServerStateView {
                history: st.history.push((s.name, m)),
                peers: broadcast_to(st.peers, OperationView::FromPeer(s.name, m), seq![s.addr]),
                ..st
            }
        } else {
            st
        },
        _ => st,
    }
}

/// What the session `s` writes to its own client on `input`.
pub open spec fn replies_to(
    s: SessionView,
    st: ServerStateView,
    input: Option<OperationView>,
) -> Seq<ServerCommandView> {
    match input {
        None => seq![ServerCommandView::Error(unknown_text())],
        Some(OperationView::FromClient(ClientCommandView::SetName(n))) => if n.len() > 0
            && s.name.len() == 0 {
            seq![ServerCommandView::ServerName(st.name)]
        } else {
            Seq::empty()
        },
        Some(OperationView::FromClient(ClientCommandView::SendMessage(_))) => Seq::empty(),
        Some(OperationView::FromPeer(u, m)) => seq![ServerCommandView::UserMessage(u, m)],
        Some(OperationView::FromServer(c)) => seq![c],
    }
}

/// The records after the session `s` was torn down: its record is gone, and
/// everyone left is told so and gets the new user list.
pub open spec fn peers_after_close(s: SessionView, peers: Seq<PeerView>) -> Seq<PeerView> {
    let rest = without_addr(peers, s.addr);
    let told = broadcast_to(rest, notice_op(left_text(s.name)), Seq::empty());
    broadcast_to(told, user_list_op(told), Seq::empty())
}

/// A broadcast leaves names and addresses alone, so it leaves the user list
/// alone.
proof fn lemma_broadcast_keeps_user_list(peers: Seq<PeerView>, op: OperationView, ex: Seq<Seq<char>>)
    ensures
        user_list_of(broadcast_to(peers, op, ex)) == user_list_of(peers),
    decreases peers.len(),
{
    let b = broadcast_to(peers, op, ex);
    if peers.len() > 0 {
        assert(b.drop_last() =~= broadcast_to(peers.drop_last(), op, ex));
        lemma_broadcast_keeps_user_list(peers.drop_last(), op, ex);
    }
}

/// Naming gate: a chat message from a session that has not yet set a name
/// is dropped: nothing enters the history, nothing is broadcast, and nothing
/// is written back.
pub proof fn lemma_unnamed_message_dropped(s: SessionView, st: ServerStateView, m: MessageView)
    requires
        s.name.len() == 0,
    ensures
        ({
            let input = Some(OperationView::FromClient(ClientCommandView::SendMessage(m)));
            &&& next_state(s, st, input) == st
            &&& next_session(s, input) == s
            &&& replies_to(s, st, input) == Seq::<ServerCommandView>::empty()
        }),
{
}

/// Broadcast fan-out: a chat message from a named session is queued, once,
/// for every other session as coming from that session's user, and never for
/// the sender itself, which is written nothing back. With the sender among
/// the registry's N records, the others are N - 1.
pub proof fn lemma_message_fan_out(s: SessionView, st: ServerStateView, m: MessageView)
    requires
        s.name.len() > 0,
        distinct_addrs(st.peers),
    ensures
        (exists|k: int| 0 <= k < st.peers.len() && #[trigger] st.peers[k].addr == s.addr)
            ==> without_addr(st.peers, s.addr).len() == st.peers.len() - 1,
        ({
            let input = Some(OperationView::FromClient(ClientCommandView::SendMessage(m)));
            let after = next_state(s, st, input);
            &&& after.history == st.history.push((s.name, m))
            &&& after.peers.len() == st.peers.len()
            &&& forall|i: int|
                0 <= i < st.peers.len() ==> {
                    &&& #[trigger] after.peers[i].addr == st.peers[i].addr
                    &&& after.peers[i].name == st.peers[i].name
                    &&& after.peers[i].queued == if st.peers[i].addr == s.addr {
                        st.peers[i].queued
                    } else {
                        st.peers[i].queued.push(OperationView::FromPeer(s.name, m))
                    }
                }
            &&& replies_to(s, st, input) == Seq::<ServerCommandView>::empty()
        }),
{
    if exists|k: int| 0 <= k < st.peers.len() && #[trigger] st.peers[k].addr == s.addr {
        let k = choose|k: int| 0 <= k < st.peers.len() && #[trigger] st.peers[k].addr == s.addr;
        lemma_filter_drops_one(st.peers, |p: PeerView| p.addr != s.addr, k);
    }
    let ex = seq![s.addr];
    assert forall|i: int| 0 <= i < st.peers.len() implies ex.contains(st.peers[i].addr) == (
    st.peers[i].addr == s.addr) by {
        if st.peers[i].addr == s.addr {
            assert(ex[0] == st.peers[i].addr);
        }
    }
}

/// User list after a name change: once a session takes a non-empty name,
/// every session's latest queued operation is the user list of the registry
/// as it then stands.
pub proof fn lemma_user_list_after_naming(s: SessionView, st: ServerStateView, n: Seq<char>)
    requires
        n.len() > 0,
    ensures
        ({
            let after = next_state(s, st, Some(OperationView::FromClient(ClientCommandView::SetName(n))));
            forall|i: int|
                0 <= i < after.peers.len() ==> #[trigger] after.peers[i].queued.last()
                    == user_list_op(after.peers)
        }),
{
    let with_name = renamed(st.peers, s.addr, n);
    let greeted = if s.name.len() == 0 {
        broadcast_to(with_name, notice_op(welcome_text(n)), Seq::empty())
    } else {
        with_name
    };
    lemma_broadcast_keeps_user_list(greeted, user_list_op(greeted), Seq::empty());
}

/// User list after a disconnect: once a session is torn down, every
/// remaining session's latest queued operation is the user list of the
/// registry as it then stands.
pub proof fn lemma_user_list_after_close(s: SessionView, st: ServerStateView)
    ensures
        ({
            let after = peers_after_close(s, st.peers);
            forall|i: int|
                0 <= i < after.len() ==> #[trigger] after[i].queued.last() == user_list_op(after)
        }),
{
    let rest = without_addr(st.peers, s.addr);
    let told = broadcast_to(rest, notice_op(left_text(s.name)), Seq::empty());
    lemma_broadcast_keeps_user_list(told, user_list_op(told), Seq::empty());
}

/// Decode resilience: a line that is not a command is answered with an
/// error and changes nothing, so a chat message sent after it has the same
/// effect as if the bad line had never come.
pub proof fn lemma_malformed_line_harmless(s: SessionView, st: ServerStateView, m: MessageView)
    ensures
        next_session(s, None) == s,
        next_state(s, st, None) == st,
        replies_to(s, st, None) == seq![ServerCommandView::Error(unknown_text())],
        ({
            let send = Some(OperationView::FromClient(ClientCommandView::SendMessage(m)));
            next_state(next_session(s, None), next_state(s, st, None), send) == next_state(
                s,
                st,
                send,
            )
        }),
{
}

/// Teardown notice: when a session closes, its record is gone, and every
/// remaining session gets exactly two more queued operations: the notice
/// that the session's user left, then the new user list.
pub proof fn lemma_teardown_notice(s: SessionView, st: ServerStateView)
    ensures
        ({
            let rest = without_addr(st.peers, s.addr);
            let after = peers_after_close(s, st.peers);
            &&& after.len() == rest.len()
            &&& forall|i: int| 0 <= i < after.len() ==> #[trigger] after[i].addr != s.addr
            &&& forall|i: int|
                0 <= i < after.len() ==> #[trigger] after[i] == PeerView {
                    queued: rest[i].queued + seq![
                        notice_op(left_text(s.name)),
                        user_list_op(after),
                    ],
                    ..rest[i]
                }
        }),
{
    let rest = without_addr(st.peers, s.addr);
    let told = broadcast_to(rest, notice_op(left_text(s.name)), Seq::empty());
    lemma_broadcast_keeps_user_list(told, user_list_op(told), Seq::empty());
    let after = peers_after_close(s, st.peers);
    assert forall|i: int| 0 <= i < after.len() implies #[trigger] after[i].addr != s.addr by {
        Seq::lemma_filter_pred(st.peers, |p: PeerView| p.addr != s.addr, i);
    }
    assert forall|i: int| 0 <= i < after.len() implies #[trigger] after[i] == PeerView {
        queued: rest[i].queued + seq![notice_op(left_text(s.name)), user_list_op(after)],
        ..rest[i]
    } by {
        assert(rest[i].queued.push(notice_op(left_text(s.name))).push(user_list_op(after))
            =~= rest[i].queued + seq![notice_op(left_text(s.name)), user_list_op(after)]);
    }
}

impl Session {
    /// A fresh, unnamed session for the connection at `addr`.
    pub fn new(addr: PeerAddr) -> (r: Session)
        ensures
            r@.addr == addr@,
            r@.name == Seq::<char>::empty(),
    {
        Session { addr, name: String::new() }
    }

    /// The address of the connection.
    pub fn addr(&self) -> (r: &PeerAddr)
        ensures
            r@ == self@.addr,
    {
        &self.addr
    }

    /// The user's name; empty while the session is unnamed.
    pub fn name(&self) -> (r: &str)
        ensures
            r@ == self@.name,
    {
        self.name.as_str()
    }

    /// Whether the client has set a name.
    pub fn is_named(&self) -> (r: bool)
        ensures
            r == (self@.name.len() > 0),
    {
        !self.name.as_str().is_empty()
    }

    /// Reacts to one event: a command from the client, an operation pushed by
    /// another session or by the server, or (`Err`) a line that could not be
    /// decoded. Registry changes and broadcasts go to `state`; the commands to
    /// write back to this session's own client are returned.
    pub fn handle(&mut self, state: &mut ServerState, incoming: Result<Operation, Error>) -> (r: Vec<
        ServerCommand,
    >)
        requires
            old(state).wf(),
        ensures
            final(state).wf(),
            final(self)@ == next_session(old(self)@, incoming_view(incoming)),
            final(state)@ == next_state(old(self)@, old(state)@, incoming_view(incoming)),
            commands_view(r@) == replies_to(old(self)@, old(state)@, incoming_view(incoming)),
    {
        let mut r: Vec<ServerCommand> = Vec::new();
        match incoming {
            Ok(Operation::FromClient(ClientCommand::SetName(n))) => {
                if !n.as_str().is_empty() {
                    state.set_name(&self.addr, n.clone());
                    if self.name.as_str().is_empty() {
                        let mut text = "Welcome, ".to_string();
                        text.append(n.as_str());
                        text.append("!");
                        let none: Vec<PeerAddr> = Vec::new();
                        assert(addrs_view(none@) =~= Seq::<Seq<char>>::empty());
                        assert(text@ == welcome_text(n@));
                        state.broadcast(
                            Operation::FromServer(ServerCommand::ServerMessage(Message::Text(text))),
                            &none,
                        );
                        r.push(ServerCommand::ServerName(state.name().to_string()));
                    }
                    state.broadcast_user_list();
                    self.name = n;
                }
            },
            Ok(Operation::FromClient(ClientCommand::SendMessage(m))) => {
                if !self.name.as_str().is_empty() {
                    state.append(self.name.clone(), m.duplicate());
                    let mut skip: Vec<PeerAddr> = Vec::new();
                    skip.push(self.addr.duplicate());
                    assert(addrs_view(skip@) =~= seq![self.addr@]);
                    state.broadcast(Operation::FromPeer(self.name.clone(), m), &skip);
                }
            },
            Ok(Operation::FromPeer(u, m)) => {
                r.push(ServerCommand::UserMessage(u, m));
            },
            Ok(Operation::FromServer(c)) => {
                r.push(c);
            },
            Err(_) => {
                r.push(ServerCommand::Error("What's that?".to_string()));
            },
        }
        r
    }

    /// Tears the session down, once, however its loop ended: its record
    /// leaves the registry, and the others are told that its user left and
    /// get the new user list.
    pub fn close(self, state: &mut ServerState)
        requires
            old(state).wf(),
        ensures
            final(state).wf(),
            final(state)@.name == old(state)@.name,
            final(state)@.history == old(state)@.history,
            final(state)@.peers == peers_after_close(self@, old(state)@.peers),
    {
        state.deregister(&self.addr);
        let mut text = self.name;
        text.append(" left.");
        let none: Vec<PeerAddr> = Vec::new();
        assert(addrs_view(none@) =~= Seq::<Seq<char>>::empty());
        assert(text@ == left_text(self@.name));
        state.broadcast(Operation::FromServer(ServerCommand::ServerMessage(Message::Text(text))), &none);
        state.broadcast_user_list();
    }
}

} // verus!
