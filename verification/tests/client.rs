use tfserver::client::target_router::TargetRouter;
use tfserver::client::{packet_meta, resolve_handler, response_outcome, ClientError, HandlerInfo, HandlerTarget};
use tfserver::structures::s_type::SystemSType;

#[test]
fn handler_info_by_name_and_id() {
    let n = HandlerInfo::new_named("MY_HANDLER".to_string());
    assert_eq!(n.id(), None);
    assert_eq!(n.named(), &Some("MY_HANDLER".to_string()));
    let i = HandlerInfo::new_id(7);
    assert_eq!(i.id(), Some(7));
    assert_eq!(i.named(), &None);
}

#[test]
fn targets_are_resolved() {
    assert!(matches!(resolve_handler(HandlerInfo::new_id(3)), Ok(HandlerTarget::Id(3))));
    match resolve_handler(HandlerInfo::new_named("H".to_string())) {
        Ok(HandlerTarget::Named(n)) => assert_eq!(n, "H"),
        _ => panic!("expected a name"),
    }
}

#[test]
fn packet_meta_flags_payload() {
    let m = packet_meta(4, 2, b"data");
    assert!(m.s_type == SystemSType::PacketMeta);
    assert_eq!(m.s_type_req, 4);
    assert_eq!(m.handler_id, 2);
    assert!(m.has_payload);
    assert!(!packet_meta(4, 2, b"").has_payload);
}

#[test]
fn responses_and_errors() {
    assert_eq!(response_outcome(Some(Ok(vec![5]))).unwrap(), vec![5]);
    match response_outcome(Some(Err(std::io::Error::new(std::io::ErrorKind::InvalidData, "x")))) {
        Err(ClientError::Codec(e)) => assert_eq!(e.kind(), std::io::ErrorKind::InvalidData),
        _ => panic!("expected codec error"),
    }
    match response_outcome(None) {
        Err(ClientError::Protocol(m)) => assert_eq!(m, "Connection closed"),
        _ => panic!("expected protocol error"),
    }
    let e: ClientError = std::io::Error::new(std::io::ErrorKind::BrokenPipe, "y").into();
    assert!(matches!(e, ClientError::Io(_)));
}

#[test]
fn known_handler_ids_are_remembered() {
    let mut r = TargetRouter::new();
    assert_eq!(r.lookup(&"ECHO".to_string()), None);
    r.remember("ECHO".to_string(), 3);
    r.remember("TEST".to_string(), 0);
    assert_eq!(r.lookup(&"ECHO".to_string()), Some(3));
    assert_eq!(r.lookup(&"TEST".to_string()), Some(0));
    r.remember("ECHO".to_string(), 5);
    assert_eq!(r.lookup(&"ECHO".to_string()), Some(5));
    assert_eq!(r.lookup(&"TEST".to_string()), Some(0));
    assert_eq!(r.lookup(&"echo".to_string()), None);
}

#[test]
fn payload_frame_only_when_announced() {
    let (meta, payload) = tfserver::client::request_frames(4, 2, vec![1, 2, 3]);
    assert!(meta.has_payload);
    assert_eq!(meta.s_type_req, 4);
    assert_eq!(meta.handler_id, 2);
    assert_eq!(payload, Some(vec![1, 2, 3]));
    let (meta, payload) = tfserver::client::request_frames(4, 2, Vec::new());
    assert!(!meta.has_payload);
    assert_eq!(payload, None);
}
