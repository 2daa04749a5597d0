use chat::codec::{
    decode_client_command, decode_server_command, encode_client_command, encode_server_command,
};
use chat::error::Error;
use chat::message::Message;
use chat::protocol::{ClientCommand, PeerAddr, ServerCommand};

fn text(t: &str) -> Message {
    Message::Text(t.to_string())
}

fn entry(n: &str, a: &str) -> (String, PeerAddr) {
    (n.to_string(), PeerAddr::new(a.to_string()))
}

#[test]
fn client_commands_encode_as_tagged_json() {
    assert_eq!(
        encode_client_command(&ClientCommand::SetName("alice".to_string())),
        r#"{"SetName":"alice"}"#
    );
    assert_eq!(
        encode_client_command(&ClientCommand::SendMessage(text("hi"))),
        r#"{"SendMessage":{"Text":"hi"}}"#
    );
}

#[test]
fn server_commands_encode_as_tagged_json() {
    assert_eq!(
        encode_server_command(&ServerCommand::UserMessage("alice".to_string(), text("hi"))),
        r#"{"UserMessage":["alice",{"Text":"hi"}]}"#
    );
    assert_eq!(
        encode_server_command(&ServerCommand::ServerMessage(text("bob left."))),
        r#"{"ServerMessage":{"Text":"bob left."}}"#
    );
    assert_eq!(
        encode_server_command(&ServerCommand::UserList(vec![])),
        r#"{"UserList":[]}"#
    );
    assert_eq!(
        encode_server_command(&ServerCommand::UserList(vec![
            entry("alice", "127.0.0.1:5001"),
            entry("bob", "[::1]:5002"),
        ])),
        r#"{"UserList":[["alice","127.0.0.1:5001"],["bob","[::1]:5002"]]}"#
    );
    assert_eq!(
        encode_server_command(&ServerCommand::Error("What's that?".to_string())),
        r#"{"Error":"What's that?"}"#
    );
    assert_eq!(
        encode_server_command(&ServerCommand::ServerName("hall".to_string())),
        r#"{"ServerName":"hall"}"#
    );
}

#[test]
fn special_characters_are_escaped_on_one_line() {
    let line = encode_client_command(&ClientCommand::SendMessage(text("a\"b\\c\nd\re\tf")));
    assert_eq!(line, r#"{"SendMessage":{"Text":"a\"b\\c\nd\re\tf"}}"#);
    assert!(!line.contains('\n') && !line.contains('\r'));
    assert_eq!(
        decode_client_command(&line),
        Ok(ClientCommand::SendMessage(text("a\"b\\c\nd\re\tf")))
    );
}

#[test]
fn client_lines_decode() {
    assert_eq!(
        decode_client_command(r#"{"SetName":"bob"}"#),
        Ok(ClientCommand::SetName("bob".to_string()))
    );
    assert_eq!(
        decode_client_command(" { \"SendMessage\" :\t{ \"Text\" : \"hi there\" } } \r"),
        Ok(ClientCommand::SendMessage(text("hi there")))
    );
    assert_eq!(
        decode_client_command(r#"{"SetName":"Aé"}"#),
        Ok(ClientCommand::SetName("Aé".to_string()))
    );
}

#[test]
fn malformed_client_lines_are_rejected() {
    for line in [
        "",
        "hello",
        "{}",
        r#"{"SetName":1}"#,
        r#"{"SetName":"a"} x"#,
        r#"{"SetName":"a""#,
        r#"{"SetName":"a}"#,
        r#"{"Unknown":"a"}"#,
        r#"{"SendMessage":"hi"}"#,
        r#"{"SendMessage":{"Html":"hi"}}"#,
        r#"{"SetName":"bad \x escape"}"#,
        r#"{"UserList":[]}"#,
    ] {
        assert_eq!(decode_client_command(line), Err(Error::SerdeError), "{}", line);
    }
}

#[test]
fn server_lines_decode() {
    assert_eq!(
        decode_server_command(r#"{"UserMessage":["alice",{"Text":"hi"}]}"#),
        Ok(ServerCommand::UserMessage("alice".to_string(), text("hi")))
    );
    assert_eq!(
        decode_server_command(r#"{"ServerMessage":{"Text":"Welcome, bob!"}}"#),
        Ok(ServerCommand::ServerMessage(text("Welcome, bob!")))
    );
    assert_eq!(
        decode_server_command(r#"{"UserList":[]}"#),
        Ok(ServerCommand::UserList(vec![]))
    );
    assert_eq!(
        decode_server_command(r#"{"UserList":[ ["alice","127.0.0.1:5001"] , ["bob","1.2.3.4:9"] ]}"#),
        Ok(ServerCommand::UserList(vec![
            entry("alice", "127.0.0.1:5001"),
            entry("bob", "1.2.3.4:9"),
        ]))
    );
    assert_eq!(
        decode_server_command(r#"{"Error":"What's that?"}"#),
        Ok(ServerCommand::Error("What's that?".to_string()))
    );
    assert_eq!(
        decode_server_command(r#"{"ServerName":"hall"}"#),
        Ok(ServerCommand::ServerName("hall".to_string()))
    );
}

#[test]
fn malformed_server_lines_are_rejected() {
    for line in [
        r#"{"UserList":[["alice"]]}"#,
        r#"{"UserList":[["a","b"],]}"#,
        r#"{"UserList":[["a","b"] ["c","d"]]}"#,
        r#"{"UserMessage":["alice"]}"#,
        r#"{"SetName":"bob"}"#,
        r#"{"Error":"x"}}"#,
    ] {
        assert_eq!(decode_server_command(line), Err(Error::SerdeError), "{}", line);
    }
}

#[test]
fn encoded_commands_decode_to_themselves() {
    let client = [
        ClientCommand::SetName("名前 with \"quotes\"".to_string()),
        ClientCommand::SendMessage(text("")),
    ];
    for c in client {
        assert_eq!(decode_client_command(&encode_client_command(&c)), Ok(c));
    }
    let server = [
        ServerCommand::UserMessage("a\\b".to_string(), text("x\ny")),
        ServerCommand::ServerMessage(text(" left.")),
        ServerCommand::UserList(vec![entry("", "x"), entry("z", "[::1]:80")]),
        ServerCommand::Error("\u{1}".to_string()),
        ServerCommand::ServerName("hall".to_string()),
    ];
    for c in server {
        assert_eq!(decode_server_command(&encode_server_command(&c)), Ok(c));
    }
}
