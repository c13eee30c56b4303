use tfserver::codec::handshake::{HandshakeAction, HandshakeEvent};
use tfserver::codec::spake2_encrypted::{CodecError, Handshake, Spake2Encrypted};

fn send_of(a: HandshakeAction) -> Vec<u8> {
    match a {
        HandshakeAction::Send(v) => v,
        _ => panic!("expected a send"),
    }
}

fn established_pair() -> (Spake2Encrypted, Spake2Encrypted) {
    let mut client = Spake2Encrypted::create_client("srv".to_string());
    let mut server = Spake2Encrypted::create_server("srv".to_string());
    let (ch, ca) = client.begin_handshake();
    let (sh, sa) = server.begin_handshake();
    assert!(matches!(ca, HandshakeAction::FetchCredentials));
    assert!(matches!(sa, HandshakeAction::Receive));
    let (mut ch, mut sh) = match (ch, sh) {
        (Handshake::Client(c), Handshake::Server(s)) => (c, s),
        _ => panic!("wrong sides"),
    };
    let id = send_of(ch.step(HandshakeEvent::Credentials(Some((b"alice".to_vec(), b"pw".to_vec())))));
    let cmsg = send_of(ch.step(HandshakeEvent::Sent(true)));
    let _ = ch.step(HandshakeEvent::Sent(true));
    let _ = sh.step(HandshakeEvent::Received(Some(id)));
    let _ = sh.step(HandshakeEvent::Password(Some(b"pw".to_vec())));
    let smsg = send_of(sh.step(HandshakeEvent::Received(Some(cmsg))));
    assert!(server.conclude_handshake(sh.step(HandshakeEvent::Sent(true))));
    assert!(client.conclude_handshake(ch.step(HandshakeEvent::Received(Some(smsg)))));
    (client, server)
}

#[test]
fn frames_before_handshake_fail() {
    let mut c = Spake2Encrypted::create_client("srv".to_string());
    assert!(!c.is_established());
    assert_eq!(c.decode_frame(vec![1, 2, 3]).unwrap_err(), CodecError::DecryptWithoutKeys);
    assert_eq!(c.encode_frame(vec![1, 2, 3]).unwrap_err(), CodecError::EncryptWithoutKeys);
    assert_eq!(CodecError::DecryptWithoutKeys.message(), "decryption failed");
    assert_eq!(CodecError::EncryptWithoutKeys.message(), "encryption failed");
    assert!(!CodecError::DecryptWithoutKeys.is_invalid_data());
    assert!(CodecError::DecryptionRejected.is_invalid_data());
}

#[test]
fn sides_and_identity_are_kept() {
    let s = Spake2Encrypted::create_server("my-server".to_string());
    assert!(s.is_server());
    assert_eq!(s.server_id(), b"my-server");
    let c = Spake2Encrypted::create_client("my-server".to_string());
    assert!(!c.is_server());
    let copy = c.clone_unkeyed();
    assert!(!copy.is_server());
    assert_eq!(copy.server_id(), b"my-server");
}

#[test]
fn established_codecs_exchange_frames() {
    let (mut client, mut server) = established_pair();
    assert!(client.is_established() && server.is_established());
    let wire = client.encode_frame(b"request".to_vec()).unwrap();
    assert_ne!(wire, b"request".to_vec());
    assert_eq!(server.decode_frame(wire.clone()).unwrap(), b"request".to_vec());
    assert_eq!(server.decode_frame(wire).unwrap_err(), CodecError::DecryptionRejected);
    let back = server.encode_frame(b"response".to_vec()).unwrap();
    assert_eq!(client.decode_frame(back).unwrap(), b"response".to_vec());
    let copy = client.clone_unkeyed();
    assert!(!copy.is_established());
}

#[test]
fn failed_handshake_is_refused() {
    let mut c = Spake2Encrypted::create_client("srv".to_string());
    assert!(!c.conclude_handshake(HandshakeAction::Abort));
    assert!(!c.is_established());
}
