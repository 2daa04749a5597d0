//! The chat client's own decisions: what it sends first, and what it sends
//! for each input of its user.
use vstd::prelude::*;

use crate::codec::{decode_server_command, server_command_of};
use crate::message::{Message, MessageView};
use crate::protocol::{ClientCommand, ClientCommandView, ServerCommand, ServerCommandView};

verus! {

/// The chat client: who it is and where it connects.
pub struct Client {
    name: String,
    server: String,
    port: u16,
    tui: bool,
}

/// An input of the user, as the app hands it over.
#[derive(Clone, Debug, PartialEq, Eq)]
pub enum ClientInput {
    Text(String),
    Exit,
}

/// The model of a [`ClientInput`].
pub enum ClientInputView {
    Text(Seq<char>),
    Exit,
}

impl View for ClientInput {
    type V = ClientInputView;

    open spec fn view(&self) -> ClientInputView {
        match self {
            ClientInput::Text(t) => ClientInputView::Text(t@),
            ClientInput::Exit => ClientInputView::Exit,
        }
    }
}

/// The command sent for a user input; `None` ends the session.
pub open spec fn command_for_input(input: ClientInputView) -> Option<ClientCommandView> {
    match input {
        ClientInputView::Text(t) => Some(ClientCommandView::SendMessage(MessageView::Text(t))),
        ClientInputView::Exit => None,
    }
}

impl Client {
    /// A client called `name` for the server at `server`:`port`, with the
    /// terminal interface when `tui` holds.
    pub fn new(name: &str, server: &str, port: u16, tui: bool) -> (r: Self)
        ensures
            r.name_view() == name@,
            r.server_view() == server@,
            r.port_view() == port,
            r.tui_view() == tui,
    {
        Client { name: name.to_string(), server: server.to_string(), port, tui }
    }

    /// The user's name.
    pub closed spec fn name_view(&self) -> Seq<char> {
        self.name@
    }

    /// The server's host.
    pub closed spec fn server_view(&self) -> Seq<char> {
        self.server@
    }

    /// The server's port.
    pub closed spec fn port_view(&self) -> u16 {
        self.port
    }

    /// Whether the terminal interface is used.
    pub closed spec fn tui_view(&self) -> bool {
        self.tui
    }

    /// The user's name.
    pub fn name(&self) -> (r: &str)
        ensures
            r@ == self.name_view(),
    {
        self.name.as_str()
    }

    /// The server's host.
    pub fn server(&self) -> (r: &str)
        ensures
            r@ == self.server_view(),
    {
        self.server.as_str()
    }

    /// The server's port.
    pub fn port(&self) -> (r: u16)
        ensures
            r == self.port_view(),
    {
        self.port
    }

    /// Whether the terminal interface is used.
    pub fn tui(&self) -> (r: bool)
        ensures
            r == self.tui_view(),
    {
        self.tui
    }

    /// The first command of a connection: it registers the user's name.
    pub fn greeting(&self) -> (r: ClientCommand)
        ensures
            r@ == ClientCommandView::SetName(self.name_view()),
    {
        ClientCommand::SetName(self.name.clone())
    }

    /// The command to send for a user input, or `None` when the input ends
    /// the session.
    pub fn command_for(input: ClientInput) -> (r: Option<ClientCommand>)
        ensures
            match r {
                Some(c) => command_for_input(input@) == Some(c@),
                None => command_for_input(input@) is None,
            },
    {
        match input {
            ClientInput::Text(t) => Some(ClientCommand::SendMessage(Message::Text(t))),
            ClientInput::Exit => None,
        }
    }

    /// What a line from the server is shown as: the command it holds, or an
    /// error that carries the line itself.
    pub fn command_from_server(line: &str) -> (r: ServerCommand)
        ensures
            r@ == match server_command_of(line@) {
                Some(c) => c,
                None => ServerCommandView::Error(line@),
            },
    {
        match decode_server_command(line) {
            Ok(c) => c,
            Err(_) => ServerCommand::Error(line.to_string()),
        }
    }
}

} // verus!
