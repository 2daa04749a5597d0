use chat::client::{Client, ClientInput};
use chat::message::Message;
use chat::protocol::{ClientCommand, ServerCommand};
use chat::utils::new_name;

#[test]
fn client_keeps_its_settings() {
    let c = Client::new("alice", "127.0.0.1", 30388, true);
    assert_eq!(c.name(), "alice");
    assert_eq!(c.server(), "127.0.0.1");
    assert_eq!(c.port(), 30388);
    assert!(c.tui());
    assert!(!Client::new("b", "h", 1, false).tui());
}

#[test]
fn client_greets_with_its_name() {
    let c = Client::new("alice", "localhost", 1, false);
    assert_eq!(c.greeting(), ClientCommand::SetName("alice".to_string()));
}

#[test]
fn inputs_become_commands() {
    assert_eq!(
        Client::command_for(ClientInput::Text("hi\n".to_string())),
        Some(ClientCommand::SendMessage(Message::Text("hi\n".to_string())))
    );
    assert_eq!(Client::command_for(ClientInput::Exit), None);
}

#[test]
fn given_names_are_kept() {
    assert_eq!(new_name("carol".to_string()), "carol");
}

#[test]
fn empty_names_are_replaced_by_random_ones() {
    let n = new_name(String::new());
    assert!(!n.is_empty());
    assert!(n.contains('-'));
}

#[test]
fn messages_display_without_surrounding_whitespace() {
    assert_eq!(Message::Text("  hi there \n".to_string()).display_text(), "hi there");
    assert_eq!(Message::Text("\t\n".to_string()).display_text(), "");
    assert_eq!(Message::Text("x".to_string()).duplicate(), Message::Text("x".to_string()));
}

#[test]
fn server_lines_become_commands_or_errors() {
    assert_eq!(
        Client::command_from_server(r#"{"ServerName":"hall"}"#),
        ServerCommand::ServerName("hall".to_string())
    );
    assert_eq!(
        Client::command_from_server("garbage"),
        ServerCommand::Error("garbage".to_string())
    );
}
