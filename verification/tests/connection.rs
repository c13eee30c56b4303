use tfserver::server::server::{receive_outcome, ConnectionAction, ReadFailure, ReadResult, ServerConnection, ServerMode};

#[test]
fn read_failures_are_classified() {
    assert_eq!(receive_outcome(ReadResult::Frame(vec![1])).unwrap(), vec![1]);
    assert_eq!(receive_outcome(ReadResult::Ended).unwrap_err(), true);
    for f in [ReadFailure::ConnectionReset, ReadFailure::ConnectionAborted, ReadFailure::BrokenPipe, ReadFailure::UnexpectedEof] {
        assert_eq!(receive_outcome(ReadResult::Failed(f)).unwrap_err(), true);
    }
    for f in [ReadFailure::InvalidData, ReadFailure::Other] {
        assert_eq!(receive_outcome(ReadResult::Failed(f)).unwrap_err(), false);
    }
}

#[test]
fn header_without_payload_is_served_at_once() {
    let (mut c, a) = ServerConnection::new();
    assert!(matches!(a, ConnectionAction::ReadMeta));
    match c.on_meta(ReadResult::Frame(vec![9, 9]), false) {
        ConnectionAction::Serve { meta, payload } => {
            assert_eq!(meta, vec![9, 9]);
            assert!(payload.is_empty());
        }
        _ => panic!("expected serve"),
    }
    assert!(matches!(c.on_reply(false, true), ConnectionAction::ReadMeta));
}

#[test]
fn header_with_payload_waits_for_it() {
    let (mut c, _) = ServerConnection::new();
    assert!(matches!(c.on_meta(ReadResult::Frame(vec![1]), true), ConnectionAction::ReadPayload));
    match c.on_payload(ReadResult::Frame(vec![2, 3])) {
        ConnectionAction::Serve { meta, payload } => {
            assert_eq!(meta, vec![1]);
            assert_eq!(payload, vec![2, 3]);
        }
        _ => panic!("expected serve"),
    }
}

#[test]
fn bad_frames_are_skipped_disconnects_close() {
    let (mut c, _) = ServerConnection::new();
    assert!(matches!(c.on_meta(ReadResult::Failed(ReadFailure::InvalidData), false), ConnectionAction::ReadMeta));
    assert!(matches!(c.on_meta(ReadResult::Frame(vec![1]), true), ConnectionAction::ReadPayload));
    assert!(matches!(c.on_payload(ReadResult::Failed(ReadFailure::Other)), ConnectionAction::ReadMeta));
    assert!(matches!(c.on_meta(ReadResult::Failed(ReadFailure::ConnectionReset), false), ConnectionAction::CloseStream));

    let (mut c, _) = ServerConnection::new();
    assert!(matches!(c.on_meta(ReadResult::Ended, true), ConnectionAction::CloseStream));

    let (mut c, _) = ServerConnection::new();
    let _ = c.on_meta(ReadResult::Frame(vec![1]), true);
    assert!(matches!(c.on_payload(ReadResult::Ended), ConnectionAction::CloseStream));
}

#[test]
fn reply_outcomes() {
    let (mut c, _) = ServerConnection::new();
    let _ = c.on_meta(ReadResult::Frame(vec![1]), false);
    assert!(matches!(c.on_reply(true, false), ConnectionAction::HandOver));

    let (mut c, _) = ServerConnection::new();
    let _ = c.on_meta(ReadResult::Frame(vec![1]), false);
    assert!(matches!(c.on_reply(false, false), ConnectionAction::EndConnection));
}

#[test]
fn server_modes_are_distinct() {
    assert!(ServerMode::Tcp != ServerMode::WebSocket);
    assert!(ServerMode::Tcp.clone() == ServerMode::Tcp);
}
