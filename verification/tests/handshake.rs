use tfserver::codec::handshake::{ClientHandshake, HandshakeAction, HandshakeEvent, ServerHandshake};
use tfserver::codec::session::SessionKeys;

fn expect_send(a: HandshakeAction) -> Vec<u8> {
    match a {
        HandshakeAction::Send(v) => v,
        _ => panic!("expected a send"),
    }
}

/// Runs both sides to the end; returns their final actions.
fn run(client_creds: Option<(Vec<u8>, Vec<u8>)>, server_password: Option<Vec<u8>>, server_id: &[u8]) -> (HandshakeAction, HandshakeAction) {
    let (mut client, a) = ClientHandshake::start(server_id);
    assert!(matches!(a, HandshakeAction::FetchCredentials));
    let (mut server, a) = ServerHandshake::start(server_id);
    assert!(matches!(a, HandshakeAction::Receive));

    let a = client.step(HandshakeEvent::Credentials(client_creds));
    let identity = match a {
        HandshakeAction::Send(v) => v,
        other => return (other, HandshakeAction::Abort),
    };
    let a = client.step(HandshakeEvent::Sent(true));
    let client_msg = expect_send(a);
    assert_eq!(client_msg.len(), 33);
    assert_eq!(client_msg[0], b'A');
    let a = client.step(HandshakeEvent::Sent(true));
    assert!(matches!(a, HandshakeAction::Receive));

    let a = server.step(HandshakeEvent::Received(Some(identity)));
    match a {
        HandshakeAction::FetchPassword(_) => {}
        _ => panic!("expected a password request"),
    }
    let a = server.step(HandshakeEvent::Password(server_password));
    if !matches!(a, HandshakeAction::Receive) {
        return (HandshakeAction::Abort, a);
    }
    let a = server.step(HandshakeEvent::Received(Some(client_msg)));
    let server_msg = expect_send(a);
    assert_eq!(server_msg.len(), 33);
    assert_eq!(server_msg[0], b'B');
    let server_done = server.step(HandshakeEvent::Sent(true));
    let client_done = client.step(HandshakeEvent::Received(Some(server_msg)));
    (client_done, server_done)
}

fn keys(a: HandshakeAction) -> SessionKeys {
    match a {
        HandshakeAction::Complete(k) => k,
        _ => panic!("handshake did not complete"),
    }
}

#[test]
fn matching_passwords_share_a_session() {
    let (c, s) = run(Some((b"alice".to_vec(), b"s3cr3t".to_vec())), Some(b"s3cr3t".to_vec()), b"server");
    let mut client = keys(c);
    let mut server = keys(s);
    let mut buf = b"hello server".to_vec();
    client.seal_in_place(&mut buf).unwrap();
    assert_eq!(server.open_in_place(&mut buf), Some(()));
    assert_eq!(buf, b"hello server".to_vec());
    let mut back = b"hello client".to_vec();
    server.seal_in_place(&mut back).unwrap();
    assert_eq!(client.open_in_place(&mut back), Some(()));
    assert_eq!(back, b"hello client".to_vec());
}

#[test]
fn wrong_password_gives_unrelated_keys() {
    let (c, s) = run(Some((b"alice".to_vec(), b"right".to_vec())), Some(b"wrong".to_vec()), b"server");
    let mut client = keys(c);
    let mut server = keys(s);
    let mut buf = b"hello".to_vec();
    client.seal_in_place(&mut buf).unwrap();
    assert_eq!(server.open_in_place(&mut buf), None);
}

#[test]
fn missing_credentials_abort() {
    let (c, _) = run(None, Some(b"pw".to_vec()), b"server");
    assert!(matches!(c, HandshakeAction::Abort));
}

#[test]
fn unknown_client_aborts() {
    let (_, s) = run(Some((b"mallory".to_vec(), b"pw".to_vec())), None, b"server");
    assert!(matches!(s, HandshakeAction::Abort));
}

#[test]
fn server_asks_password_for_lossy_identity() {
    let (mut server, _) = ServerHandshake::start(b"server");
    match server.step(HandshakeEvent::Received(Some(vec![b'a', 0xff, b'b']))) {
        HandshakeAction::FetchPassword(id) => assert_eq!(id, "a\u{FFFD}b"),
        _ => panic!("expected a password request"),
    }
    let (mut server, _) = ServerHandshake::start(b"server");
    match server.step(HandshakeEvent::Received(Some(b"bob".to_vec()))) {
        HandshakeAction::FetchPassword(id) => assert_eq!(id, "bob"),
        _ => panic!("expected a password request"),
    }
}

#[test]
fn failed_sends_and_missing_frames_abort() {
    let (mut client, _) = ClientHandshake::start(b"s");
    let _ = client.step(HandshakeEvent::Credentials(Some((b"id".to_vec(), b"pw".to_vec()))));
    assert!(matches!(client.step(HandshakeEvent::Sent(false)), HandshakeAction::Abort));

    let (mut client, _) = ClientHandshake::start(b"s");
    let _ = client.step(HandshakeEvent::Credentials(Some((b"id".to_vec(), b"pw".to_vec()))));
    let _ = client.step(HandshakeEvent::Sent(true));
    let _ = client.step(HandshakeEvent::Sent(true));
    assert!(matches!(client.step(HandshakeEvent::Received(None)), HandshakeAction::Abort));

    let (mut server, _) = ServerHandshake::start(b"s");
    assert!(matches!(server.step(HandshakeEvent::Received(None)), HandshakeAction::Abort));
}

#[test]
fn malformed_peer_message_aborts() {
    let (mut client, _) = ClientHandshake::start(b"s");
    let _ = client.step(HandshakeEvent::Credentials(Some((b"id".to_vec(), b"pw".to_vec()))));
    let _ = client.step(HandshakeEvent::Sent(true));
    let _ = client.step(HandshakeEvent::Sent(true));
    assert!(matches!(client.step(HandshakeEvent::Received(Some(vec![b'B'; 10]))), HandshakeAction::Abort));

    // a 33-byte message from the wrong side is refused by SPAKE2
    let (mut client, _) = ClientHandshake::start(b"s");
    let _ = client.step(HandshakeEvent::Credentials(Some((b"id".to_vec(), b"pw".to_vec()))));
    let _ = client.step(HandshakeEvent::Sent(true));
    let own = client.step(HandshakeEvent::Sent(true));
    assert!(matches!(own, HandshakeAction::Receive));
    let mut wrong_side = vec![0u8; 33];
    wrong_side[0] = b'A';
    assert!(matches!(client.step(HandshakeEvent::Received(Some(wrong_side))), HandshakeAction::Abort));
}

#[test]
fn different_server_ids_give_unrelated_keys() {
    let (mut client, _) = ClientHandshake::start(b"server-one");
    let (mut server, _) = ServerHandshake::start(b"server-two");
    let id = expect_send(client.step(HandshakeEvent::Credentials(Some((b"c".to_vec(), b"pw".to_vec())))));
    let cmsg = expect_send(client.step(HandshakeEvent::Sent(true)));
    let _ = client.step(HandshakeEvent::Sent(true));
    let _ = server.step(HandshakeEvent::Received(Some(id)));
    let _ = server.step(HandshakeEvent::Password(Some(b"pw".to_vec())));
    let smsg = expect_send(server.step(HandshakeEvent::Received(Some(cmsg))));
    let mut s = keys(server.step(HandshakeEvent::Sent(true)));
    let mut c = keys(client.step(HandshakeEvent::Received(Some(smsg))));
    let mut buf = b"x".to_vec();
    c.seal_in_place(&mut buf).unwrap();
    assert_eq!(s.open_in_place(&mut buf), None);
}
