//! The commands exchanged between clients and the server, and the events that
//! a server-side session reacts to.
use vstd::prelude::*;

use crate::message::{Message, MessageView, User};

verus! {

/// The remote address of a connection, in its textual form (`ip:port`).
///
/// It is the only stable key of a connection: two live connections never
/// share one.
#[derive(Clone, Debug, PartialEq, Eq)]
pub struct PeerAddr {
    text: String,
}

impl View for PeerAddr {
    type V = Seq<char>;

    closed spec fn view(&self) -> Seq<char> {
        self.text@
    }
}

impl PeerAddr {
    /// The address written as `text`.
    pub fn new(text: String) -> (r: PeerAddr)
        ensures
            r@ == text@,
    {
        PeerAddr { text }
    }

    /// The textual form of the address.
    pub fn as_str(&self) -> (r: &str)
        ensures
            r@ == self@,
    {
        self.text.as_str()
    }

    /// Whether two addresses are the same.
    pub fn same_as(&self, other: &PeerAddr) -> (r: bool)
        ensures
            r == (self@ == other@),
    {
        self.text == other.text
    }

    /// A copy of this address.
    pub fn duplicate(&self) -> (r: PeerAddr)
        ensures
            r@ == self@,
    {
        PeerAddr { text: self.text.clone() }
    }
}

/// A command from a client to the server.
#[derive(Clone, Debug, PartialEq, Eq)]
pub enum ClientCommand {
    SetName(String),
    SendMessage(Message),
}

/// The model of a [`ClientCommand`].
pub enum ClientCommandView {
    SetName(Seq<char>),
    SendMessage(MessageView),
}

impl View for ClientCommand {
    type V = ClientCommandView;

    open spec fn view(&self) -> ClientCommandView {
        match self {
            ClientCommand::SetName(n) => ClientCommandView::SetName(n@),
            ClientCommand::SendMessage(m) => ClientCommandView::SendMessage(m@),
        }
    }
}

/// A command from the server to a client.
#[derive(Clone, Debug, PartialEq, Eq)]
pub enum ServerCommand {
    UserMessage(User, Message),
    ServerMessage(Message),
    UserList(Vec<(User, PeerAddr)>),
    Error(String),
    ServerName(String),
}

/// The model of one entry of a user list: a name and an address.
pub type UserEntryView = (Seq<char>, Seq<char>);

/// The model of a [`ServerCommand`].
pub enum ServerCommandView {
    UserMessage(Seq<char>, MessageView),
    ServerMessage(MessageView),
    UserList(Seq<UserEntryView>),
    Error(Seq<char>),
    ServerName(Seq<char>),
}

/// The model of a list of (name, address) entries.
pub open spec fn entries_view(v: Seq<(User, PeerAddr)>) -> Seq<UserEntryView> {
    v.map_values(|e: (User, PeerAddr)| (e.0@, e.1@))
}

impl View for ServerCommand {
    type V = ServerCommandView;

    open spec fn view(&self) -> ServerCommandView {
        match self {
            ServerCommand::UserMessage(u, m) => ServerCommandView::UserMessage(u@, m@),
            ServerCommand::ServerMessage(m) => ServerCommandView::ServerMessage(m@),
            ServerCommand::UserList(l) => ServerCommandView::UserList(entries_view(l@)),
            ServerCommand::Error(e) => ServerCommandView::Error(e@),
            ServerCommand::ServerName(n) => ServerCommandView::ServerName(n@),
        }
    }
}

/// A copy of a list of (name, address) entries.
pub fn duplicate_entries(v: &Vec<(User, PeerAddr)>) -> (r: Vec<(User, PeerAddr)>)
    ensures
        entries_view(r@) == entries_view(v@),
{
    let mut r: Vec<(User, PeerAddr)> = Vec::new();
    let mut i: usize = 0;
    while i < v.len()
        invariant
            i <= v@.len(),
            r@.len() == i,
            forall|j: int| 0 <= j < i ==> #[trigger] r@[j].0@ == v@[j].0@ && r@[j].1@ == v@[j].1@,
        decreases v@.len() - i,
    {
        let e = (v[i].0.clone(), v[i].1.duplicate());
        r.push(e);
        i = i + 1;
    }
    assert(entries_view(r@) =~= entries_view(v@));
    r
}

impl ServerCommand {
    /// A copy of this command, equal to it in the model.
    pub fn duplicate(&self) -> (r: ServerCommand)
        ensures
            r@ == self@,
    {
        match self {
            ServerCommand::UserMessage(u, m) => ServerCommand::UserMessage(u.clone(), m.duplicate()),
            ServerCommand::ServerMessage(m) => ServerCommand::ServerMessage(m.duplicate()),
            ServerCommand::UserList(l) => ServerCommand::UserList(duplicate_entries(l)),
            ServerCommand::Error(e) => ServerCommand::Error(e.clone()),
            ServerCommand::ServerName(n) => ServerCommand::ServerName(n.clone()),
        }
    }
}

/// Something a server-side session has to react to: a command from its own
/// client, a chat message from another peer, or a notice from the server.
#[derive(Clone, Debug, PartialEq, Eq)]
pub enum Operation {
    FromClient(ClientCommand),
    FromPeer(User, Message),
    FromServer(ServerCommand),
}

/// The model of an [`Operation`].
pub enum OperationView {
    FromClient(ClientCommandView),
    FromPeer(Seq<char>, MessageView),
    FromServer(ServerCommandView),
}

impl View for Operation {
    type V = OperationView;

    open spec fn view(&self) -> OperationView {
        match self {
            Operation::FromClient(c) => OperationView::FromClient(c@),
            Operation::FromPeer(u, m) => OperationView::FromPeer(u@, m@),
            Operation::FromServer(c) => OperationView::FromServer(c@),
        }
    }
}

impl Operation {
    /// A copy of this operation, equal to it in the model.
    pub fn duplicate(&self) -> (r: Operation)
        ensures
            r@ == self@,
    {
        match self {
            Operation::FromClient(ClientCommand::SetName(n)) => Operation::FromClient(
                ClientCommand::SetName(n.clone()),
            ),
            Operation::FromClient(ClientCommand::SendMessage(m)) => Operation::FromClient(
                ClientCommand::SendMessage(m.duplicate()),
            ),
            Operation::FromPeer(u, m) => Operation::FromPeer(u.clone(), m.duplicate()),
            Operation::FromServer(c) => Operation::FromServer(c.duplicate()),
        }
    }
}

} // verus!
