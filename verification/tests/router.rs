use tfserver::server::server_router::{serve_outcome, HandlerOutcome, IncomingMeta, RouteDecision, TfServerRouter};
use tfserver::structures::s_type::{ServerErrorEn, SystemSType, TypeContainer};

/// Id of the project's structure-type enum in these tests.
const USER: u64 = 77;
/// Id of another structure-type enum.
const OTHER: u64 = 78;

fn t(code: u64) -> TypeContainer {
    TypeContainer::new(USER, code)
}

fn tys(codes: &[u64]) -> Vec<TypeContainer> {
    codes.iter().map(|c| t(*c)).collect()
}

fn router() -> TfServerRouter<&'static str> {
    let mut r: TfServerRouter<&'static str> = TfServerRouter::new();
    r.add_route("test", "TEST_HANDLER".to_string(), tys(&[0, 1]));
    r.add_route("big", "BIG_PAYLOAD".to_string(), tys(&[2, 3]));
    r.commit_routes();
    r
}

fn packet(s_type_req: u64, handler_id: u64) -> IncomingMeta {
    IncomingMeta::Packet { s_type_req: t(s_type_req), handler_id }
}

#[test]
fn packets_go_to_the_serving_handler() {
    let r = router();
    match r.route_packet(&packet(1, 0)) {
        RouteDecision::Dispatch(route) => assert_eq!(*route, "test"),
        _ => panic!("expected dispatch"),
    }
    match r.route_packet(&packet(3, 1)) {
        RouteDecision::Dispatch(route) => assert_eq!(*route, "big"),
        _ => panic!("expected dispatch"),
    }
}

#[test]
fn unserved_type_or_unknown_id_is_no_such_handler() {
    let r = router();
    for meta in [packet(2, 0), packet(0, 1), packet(0, 2)] {
        match r.route_packet(&meta) {
            RouteDecision::Reject(e) => {
                assert!(matches!(e.en, ServerErrorEn::NoSuchHandler(None)));
                assert!(e.s_type() == SystemSType::ServerError);
            }
            _ => panic!("expected rejection"),
        }
    }
}

#[test]
fn name_lookup_answers_handler_id() {
    let r = router();
    match r.route_packet(&IncomingMeta::HandlerLookup("BIG_PAYLOAD".to_string())) {
        RouteDecision::Answer(a) => {
            assert_eq!(a.id, 1);
            assert!(a.s_type == SystemSType::HandlerMetaAns);
        }
        _ => panic!("expected answer"),
    }
    assert_eq!(r.find_handler_id(&"TEST_HANDLER".to_string()), Some(0));
    match r.route_packet(&IncomingMeta::HandlerLookup("MISSING".to_string())) {
        RouteDecision::Reject(e) => assert!(matches!(e.en, ServerErrorEn::NoSuchHandler(None))),
        _ => panic!("expected rejection"),
    }
}

#[test]
fn malformed_meta_rejected() {
    let r = router();
    match r.route_packet(&IncomingMeta::Malformed) {
        RouteDecision::Reject(e) => assert!(matches!(e.en, ServerErrorEn::MalformedMetaInfo(None))),
        _ => panic!("expected rejection"),
    }
}

#[test]
fn nothing_routes_before_commit() {
    let mut r: TfServerRouter<u8> = TfServerRouter::new();
    r.add_route(7, "H".to_string(), tys(&[0]));
    assert!(r.find_route(t(0), 0).is_none());
    assert_eq!(r.find_handler_id(&"H".to_string()), None);
    assert!(r.get_routes().is_empty());
    r.commit_routes();
    assert_eq!(r.find_route(t(0), 0), Some(&7));
    assert_eq!(r.get_routes().len(), 1);
    assert_eq!(r.get_routes()[0].0.handler_id, 0);
}

#[test]
fn registration_closes_at_commit() {
    let mut r: TfServerRouter<u8> = TfServerRouter::new();
    r.add_route(1, "A".to_string(), tys(&[5]));
    r.commit_routes();
    r.add_route(2, "B".to_string(), tys(&[5]));
    r.commit_routes();
    assert_eq!(r.get_routes().len(), 1);
    assert_eq!(r.find_handler_id(&"B".to_string()), None);
    assert!(r.find_route(t(5), 1).is_none());
}

#[test]
fn empty_commit_keeps_registration_open() {
    let mut r: TfServerRouter<u8> = TfServerRouter::new();
    r.commit_routes();
    r.add_route(1, "A".to_string(), tys(&[5]));
    r.commit_routes();
    assert_eq!(r.find_route(t(5), 0), Some(&1));
}

#[test]
fn later_registration_wins_a_name() {
    let mut r: TfServerRouter<u8> = TfServerRouter::new();
    r.add_route(1, "SAME".to_string(), tys(&[0]));
    r.add_route(2, "OTHER".to_string(), tys(&[0]));
    r.add_route(3, "SAME".to_string(), tys(&[0]));
    r.commit_routes();
    assert_eq!(r.find_handler_id(&"SAME".to_string()), Some(2));
    assert_eq!(r.find_handler_id(&"OTHER".to_string()), Some(1));
}

#[test]
fn duplicate_types_collapse() {
    let mut r: TfServerRouter<u8> = TfServerRouter::new();
    r.add_route(1, "A".to_string(), tys(&[4, 4, 9]));
    r.commit_routes();
    assert_eq!(r.find_route(t(4), 0), Some(&1));
    assert_eq!(r.find_route(t(9), 0), Some(&1));
    assert!(r.find_route(t(5), 0).is_none());
}

#[test]
fn handler_outcomes_become_answers() {
    assert_eq!(serve_outcome(HandlerOutcome::Served(vec![1, 2])).unwrap(), vec![1, 2]);
    match serve_outcome(HandlerOutcome::Failed(b"bad".to_vec())) {
        Err(e) => match e.en {
            ServerErrorEn::InternalError(Some(v)) => assert_eq!(v, b"bad".to_vec()),
            _ => panic!("expected internal error"),
        },
        Ok(_) => panic!("expected error"),
    }
    match serve_outcome(HandlerOutcome::Died) {
        Err(e) => match e.en {
            ServerErrorEn::InternalError(Some(v)) => assert_eq!(v, b"handler died :(".to_vec()),
            _ => panic!("expected internal error"),
        },
        Ok(_) => panic!("expected error"),
    }
}

#[test]
fn same_code_of_another_enum_is_not_served() {
    let r = router();
    match r.route_packet(&IncomingMeta::Packet { s_type_req: TypeContainer::new(OTHER, 1), handler_id: 0 }) {
        RouteDecision::Reject(e) => assert!(matches!(e.en, ServerErrorEn::NoSuchHandler(None))),
        _ => panic!("expected rejection"),
    }
    assert!(r.find_route(TypeContainer::new(OTHER, 0), 0).is_none());
    assert_eq!(r.find_route(t(0), 0), Some(&"test"));
}
