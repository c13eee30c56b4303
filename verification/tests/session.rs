use tfserver::codec::session::{nonce_from_counter, SessionKeys};

fn pair(secret: &[u8]) -> (SessionKeys, SessionKeys) {
    let client = SessionKeys::derive_session_keys(secret, false).unwrap();
    let server = SessionKeys::derive_session_keys(secret, true).unwrap();
    (client, server)
}

#[test]
fn nonce_is_zero_padded_big_endian_counter() {
    assert_eq!(nonce_from_counter(1), vec![0, 0, 0, 0, 0, 0, 0, 0, 0, 0, 0, 1]);
    assert_eq!(
        nonce_from_counter(0x0102030405060708),
        vec![0, 0, 0, 0, 1, 2, 3, 4, 5, 6, 7, 8]
    );
}

#[test]
fn sealed_frame_carries_counter_and_tag() {
    let (mut client, _server) = pair(&[7u8; 32]);
    let mut buf = b"hello".to_vec();
    assert_eq!(client.seal_in_place(&mut buf), Some(()));
    assert_eq!(buf.len(), 8 + 5 + 16);
    assert_eq!(&buf[..8], &[0, 0, 0, 0, 0, 0, 0, 1]);
    assert_ne!(&buf[8..13], b"hello");
    let mut second = b"hello".to_vec();
    assert_eq!(client.seal_in_place(&mut second), Some(()));
    assert_eq!(&second[..8], &[0, 0, 0, 0, 0, 0, 0, 2]);
    assert_ne!(buf[8..], second[8..]);
}

#[test]
fn client_frames_open_on_server_and_back() {
    let (mut client, mut server) = pair(&[42u8; 32]);
    let mut buf = b"ping".to_vec();
    client.seal_in_place(&mut buf).unwrap();
    assert_eq!(server.open_in_place(&mut buf), Some(()));
    assert_eq!(buf, b"ping".to_vec());

    let mut reply = b"pong".to_vec();
    server.seal_in_place(&mut reply).unwrap();
    assert_eq!(client.open_in_place(&mut reply), Some(()));
    assert_eq!(reply, b"pong".to_vec());
}

#[test]
fn empty_message_roundtrip() {
    let (mut client, mut server) = pair(&[1u8; 32]);
    let mut buf = Vec::new();
    client.seal_in_place(&mut buf).unwrap();
    assert_eq!(buf.len(), 8 + 16);
    assert_eq!(server.open_in_place(&mut buf), Some(()));
    assert!(buf.is_empty());
}

#[test]
fn replayed_frame_rejected() {
    let (mut client, mut server) = pair(&[3u8; 32]);
    let mut buf = b"once".to_vec();
    client.seal_in_place(&mut buf).unwrap();
    let copy = buf.clone();
    assert_eq!(server.open_in_place(&mut buf), Some(()));
    let mut again = copy.clone();
    assert_eq!(server.open_in_place(&mut again), None);
    assert_eq!(again, copy);
}

#[test]
fn reordered_frame_rejected() {
    let (mut client, mut server) = pair(&[4u8; 32]);
    let mut first = b"first".to_vec();
    let mut second = b"second".to_vec();
    client.seal_in_place(&mut first).unwrap();
    client.seal_in_place(&mut second).unwrap();
    assert_eq!(server.open_in_place(&mut second), Some(()));
    assert_eq!(second, b"second".to_vec());
    let copy = first.clone();
    assert_eq!(server.open_in_place(&mut first), None);
    assert_eq!(first, copy);
}

#[test]
fn tampered_frame_rejected_keeping_counter() {
    let (mut client, mut server) = pair(&[5u8; 32]);
    let mut buf = b"payload".to_vec();
    client.seal_in_place(&mut buf).unwrap();
    let last = buf.len() - 1;
    buf[last] ^= 1;
    let counter = buf[..8].to_vec();
    assert_eq!(server.open_in_place(&mut buf), None);
    assert_eq!(buf, counter);
}

#[test]
fn tampered_counter_rejected() {
    let (mut client, mut server) = pair(&[6u8; 32]);
    let mut buf = b"payload".to_vec();
    client.seal_in_place(&mut buf).unwrap();
    buf[7] = 9;
    assert_eq!(server.open_in_place(&mut buf), None);
    assert_eq!(buf, vec![0, 0, 0, 0, 0, 0, 0, 9]);
}

#[test]
fn short_frame_rejected_unchanged() {
    let (_client, mut server) = pair(&[8u8; 32]);
    let mut buf = vec![0u8, 0, 0, 1];
    assert_eq!(server.open_in_place(&mut buf), None);
    assert_eq!(buf, vec![0u8, 0, 0, 1]);
}

#[test]
fn zero_and_max_counters_rejected() {
    let (_client, mut server) = pair(&[9u8; 32]);
    let mut zero = vec![0u8; 8 + 16];
    assert_eq!(server.open_in_place(&mut zero), None);
    assert_eq!(zero, vec![0u8; 8 + 16]);
    let mut max = vec![0xffu8; 8 + 16];
    assert_eq!(server.open_in_place(&mut max), None);
    assert_eq!(max, vec![0xffu8; 8 + 16]);
}

#[test]
fn different_secrets_do_not_interoperate() {
    let (mut client, _) = pair(&[10u8; 32]);
    let (_, mut server) = pair(&[11u8; 32]);
    let mut buf = b"secret".to_vec();
    client.seal_in_place(&mut buf).unwrap();
    assert_eq!(server.open_in_place(&mut buf), None);
    assert_eq!(buf.len(), 8);
}

#[test]
fn same_side_keys_do_not_interoperate() {
    let (mut client_a, _) = pair(&[12u8; 32]);
    let (mut client_b, _) = pair(&[12u8; 32]);
    let mut buf = b"mirror".to_vec();
    client_a.seal_in_place(&mut buf).unwrap();
    assert_eq!(client_b.open_in_place(&mut buf), None);
}

#[test]
fn frames_sealed_in_order_open_in_order() {
    let (mut client, mut server) = pair(&[9u8; 32]);
    let messages: Vec<Vec<u8>> = vec![b"one".to_vec(), Vec::new(), vec![0xaa; 300], b"four".to_vec()];
    let mut frames = Vec::new();
    for m in &messages {
        let mut f = m.clone();
        assert_eq!(client.seal_in_place(&mut f), Some(()));
        assert_eq!(f.len(), m.len() + 24);
        frames.push(f);
    }
    for (f, m) in frames.iter_mut().zip(messages.iter()) {
        assert_eq!(server.open_in_place(f), Some(()));
        assert_eq!(f, m);
    }
}
