use chat::error::Error;
use chat::message::Message;
use chat::protocol::{ClientCommand, Operation, PeerAddr, ServerCommand};
use chat::registry::ServerState;
use chat::session::Session;
use tokio::sync::mpsc::{unbounded_channel, UnboundedReceiver};

fn addr(text: &str) -> PeerAddr {
    PeerAddr::new(text.to_string())
}

fn set_name(n: &str) -> Result<Operation, Error> {
    Ok(Operation::FromClient(ClientCommand::SetName(n.to_string())))
}

fn say(t: &str) -> Result<Operation, Error> {
    Ok(Operation::FromClient(ClientCommand::SendMessage(Message::Text(t.to_string()))))
}

fn connect(state: &mut ServerState, text: &str) -> (Session, UnboundedReceiver<Operation>) {
    let (tx, rx) = unbounded_channel();
    state.register(addr(text), tx);
    (Session::new(addr(text)), rx)
}

fn drain(rx: &mut UnboundedReceiver<Operation>) -> Vec<Operation> {
    let mut out = Vec::new();
    while let Ok(op) = rx.try_recv() {
        out.push(op);
    }
    out
}

/// Hands every queued operation to the session, and collects what it writes
/// to its client.
fn deliver(
    session: &mut Session,
    state: &mut ServerState,
    rx: &mut UnboundedReceiver<Operation>,
) -> Vec<ServerCommand> {
    let mut out = Vec::new();
    for op in drain(rx) {
        out.extend(session.handle(state, Ok(op)));
    }
    out
}

fn notice(t: &str) -> ServerCommand {
    ServerCommand::ServerMessage(Message::Text(t.to_string()))
}

fn users(entries: &[(&str, &str)]) -> ServerCommand {
    ServerCommand::UserList(entries.iter().map(|(n, a)| (n.to_string(), addr(a))).collect())
}

#[test]
fn two_clients_chat_and_leave() {
    let mut state = ServerState::new("hall".to_string());
    let (mut s1, mut rx1) = connect(&mut state, "127.0.0.1:5001");
    let (mut s2, mut rx2) = connect(&mut state, "127.0.0.1:5002");

    let out = s1.handle(&mut state, set_name("alice"));
    assert_eq!(out, vec![ServerCommand::ServerName("hall".to_string())]);
    let alice_only = users(&[("alice", "127.0.0.1:5001")]);
    assert_eq!(
        deliver(&mut s1, &mut state, &mut rx1),
        vec![notice("Welcome, alice!"), alice_only.clone()]
    );
    assert_eq!(
        deliver(&mut s2, &mut state, &mut rx2),
        vec![notice("Welcome, alice!"), alice_only]
    );

    s2.handle(&mut state, set_name("bob"));
    let both = users(&[("alice", "127.0.0.1:5001"), ("bob", "127.0.0.1:5002")]);
    assert_eq!(
        deliver(&mut s1, &mut state, &mut rx1),
        vec![notice("Welcome, bob!"), both.clone()]
    );
    assert_eq!(
        deliver(&mut s2, &mut state, &mut rx2),
        vec![notice("Welcome, bob!"), both]
    );

    assert!(s1.handle(&mut state, say("hi")).is_empty());
    assert_eq!(
        deliver(&mut s2, &mut state, &mut rx2),
        vec![ServerCommand::UserMessage("alice".to_string(), Message::Text("hi".to_string()))]
    );
    assert!(deliver(&mut s1, &mut state, &mut rx1).is_empty());

    s2.close(&mut state);
    assert_eq!(
        deliver(&mut s1, &mut state, &mut rx1),
        vec![notice("bob left."), users(&[("alice", "127.0.0.1:5001")])]
    );
    assert_eq!(state.peer_count(), 1);
}

#[test]
fn message_before_naming_is_dropped() {
    let mut state = ServerState::new("hall".to_string());
    let (mut s1, mut rx1) = connect(&mut state, "10.0.0.1:1");
    let (_s2, mut rx2) = connect(&mut state, "10.0.0.2:2");
    let out = s1.handle(&mut state, say("too early"));
    assert!(out.is_empty());
    assert!(state.history().is_empty());
    assert!(drain(&mut rx1).is_empty());
    assert!(drain(&mut rx2).is_empty());
    assert!(!s1.is_named());
}

#[test]
fn message_reaches_every_other_session_once() {
    let mut state = ServerState::new("hall".to_string());
    let mut sessions = Vec::new();
    for (i, n) in ["ann", "ben", "cat", "dan"].iter().enumerate() {
        let (mut s, rx) = connect(&mut state, &format!("10.0.0.{}:9", i));
        s.handle(&mut state, set_name(n));
        sessions.push((s, rx));
    }
    for (_, rx) in sessions.iter_mut() {
        drain(rx);
    }
    let (sender, _) = &mut sessions[1];
    assert!(sender.handle(&mut state, say("x")).is_empty());
    let expected = Operation::FromPeer("ben".to_string(), Message::Text("x".to_string()));
    let mut receivers = 0;
    for (i, (_, rx)) in sessions.iter_mut().enumerate() {
        let got = drain(rx);
        if i == 1 {
            assert!(got.is_empty());
        } else {
            assert_eq!(got, vec![expected.clone()]);
            receivers += 1;
        }
    }
    assert_eq!(receivers, 3);
    assert_eq!(
        state.history(),
        &vec![("ben".to_string(), Message::Text("x".to_string()))]
    );
}

#[test]
fn user_list_follows_renames_and_departures() {
    let mut state = ServerState::new("hall".to_string());
    let (mut s1, mut rx1) = connect(&mut state, "1.1.1.1:1");
    let (mut s2, mut rx2) = connect(&mut state, "2.2.2.2:2");
    let (s3, mut rx3) = connect(&mut state, "3.3.3.3:3");
    s1.handle(&mut state, set_name("a"));
    s2.handle(&mut state, set_name("b"));
    drain(&mut rx1);
    drain(&mut rx2);
    drain(&mut rx3);

    // A second name change is not welcomed again, but the list is renewed.
    let out = s1.handle(&mut state, set_name("aa"));
    assert!(out.is_empty());
    let renamed = Operation::FromServer(users(&[("aa", "1.1.1.1:1"), ("b", "2.2.2.2:2")]));
    assert_eq!(drain(&mut rx1), vec![renamed.clone()]);
    assert_eq!(drain(&mut rx2), vec![renamed.clone()]);
    assert_eq!(drain(&mut rx3), vec![renamed]);
    assert_eq!(s1.name(), "aa");

    // An unnamed session leaving is announced with its empty name.
    s3.close(&mut state);
    let gone = vec![
        Operation::FromServer(notice(" left.")),
        Operation::FromServer(users(&[("aa", "1.1.1.1:1"), ("b", "2.2.2.2:2")])),
    ];
    assert_eq!(drain(&mut rx1), gone);
    assert_eq!(drain(&mut rx2), gone);
    assert!(drain(&mut rx3).is_empty());
}

#[test]
fn empty_name_is_ignored() {
    let mut state = ServerState::new("hall".to_string());
    let (mut s1, mut rx1) = connect(&mut state, "1.1.1.1:1");
    assert!(s1.handle(&mut state, set_name("")).is_empty());
    assert!(drain(&mut rx1).is_empty());
    assert!(!s1.is_named());
    assert!(state.user_list().is_empty());
}

#[test]
fn malformed_line_keeps_session_open() {
    let mut state = ServerState::new("hall".to_string());
    let (mut s1, mut rx1) = connect(&mut state, "1.1.1.1:1");
    let (mut s2, mut rx2) = connect(&mut state, "2.2.2.2:2");
    s1.handle(&mut state, set_name("ann"));
    s2.handle(&mut state, set_name("bo"));
    drain(&mut rx1);
    drain(&mut rx2);

    let out = s1.handle(&mut state, Err(Error::SerdeError));
    assert_eq!(out, vec![ServerCommand::Error("What's that?".to_string())]);
    assert!(drain(&mut rx2).is_empty());
    assert_eq!(state.peer_count(), 2);

    assert!(s1.handle(&mut state, say("still here")).is_empty());
    assert_eq!(
        drain(&mut rx2),
        vec![Operation::FromPeer(
            "ann".to_string(),
            Message::Text("still here".to_string())
        )]
    );
}

#[test]
fn teardown_announces_departure_once() {
    let mut state = ServerState::new("hall".to_string());
    let (mut s1, mut rx1) = connect(&mut state, "1.1.1.1:1");
    let (mut s2, mut rx2) = connect(&mut state, "2.2.2.2:2");
    let (mut s3, mut rx3) = connect(&mut state, "3.3.3.3:3");
    s1.handle(&mut state, set_name("ann"));
    s2.handle(&mut state, set_name("bob"));
    s3.handle(&mut state, set_name("cy"));
    drain(&mut rx1);
    drain(&mut rx2);
    drain(&mut rx3);

    s2.close(&mut state);
    let left = Operation::FromServer(notice("bob left."));
    for rx in [&mut rx1, &mut rx3] {
        let got = drain(rx);
        assert_eq!(got.iter().filter(|op| **op == left).count(), 1);
        assert_eq!(
            got,
            vec![
                left.clone(),
                Operation::FromServer(users(&[("ann", "1.1.1.1:1"), ("cy", "3.3.3.3:3")])),
            ]
        );
    }
    assert_eq!(state.peer_count(), 2);
}

#[test]
fn peer_and_server_operations_are_forwarded() {
    let mut state = ServerState::new("hall".to_string());
    let (mut s1, _rx1) = connect(&mut state, "1.1.1.1:1");
    let out = s1.handle(
        &mut state,
        Ok(Operation::FromPeer("zed".to_string(), Message::Text("yo".to_string()))),
    );
    assert_eq!(
        out,
        vec![ServerCommand::UserMessage("zed".to_string(), Message::Text("yo".to_string()))]
    );
    let out = s1.handle(&mut state, Ok(Operation::FromServer(notice("note"))));
    assert_eq!(out, vec![notice("note")]);
}

#[test]
fn registering_an_address_again_replaces_its_record() {
    let mut state = ServerState::new("hall".to_string());
    let (mut s1, _rx1) = connect(&mut state, "1.1.1.1:1");
    s1.handle(&mut state, set_name("ann"));
    let (_s1b, _rx1b) = connect(&mut state, "1.1.1.1:1");
    assert_eq!(state.peer_count(), 1);
    assert!(state.user_list().is_empty());
    assert_eq!(state.name(), "hall");
}

#[test]
fn broadcast_skips_excluded_and_closed_peers() {
    let mut state = ServerState::new("hall".to_string());
    let (_s1, mut rx1) = connect(&mut state, "1.1.1.1:1");
    let (_s2, rx2) = connect(&mut state, "2.2.2.2:2");
    let (_s3, mut rx3) = connect(&mut state, "3.3.3.3:3");
    drop(rx2);
    state.broadcast(Operation::FromServer(notice("n")), &vec![addr("3.3.3.3:3")]);
    assert_eq!(drain(&mut rx1), vec![Operation::FromServer(notice("n"))]);
    assert!(drain(&mut rx3).is_empty());
}
