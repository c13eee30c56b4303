use tfserver::s_type_example::{ExampleSType, ExpensiveMsg, TestMsg, TestResponse};
use tfserver::server_example::{serve_big_payload, serve_test, PayloadAnswer, PayloadRequest, TestAnswer, TestRequest};

#[test]
fn test_handler_greets_messages() {
    let m = TestMsg { s_type: ExampleSType::TestMessage, id: 7, data: vec![1, 2], message: "Hi. ".to_string() };
    match serve_test(TestRequest::Message(m)) {
        TestAnswer::Message(r) => {
            assert_eq!(r.message, "Hi. Hello from server!");
            assert_eq!(r.id, 7);
            assert_eq!(r.data, vec![1, 2]);
            assert_eq!(r.s_type, ExampleSType::TestMessage);
        }
        _ => panic!("expected a message"),
    }
}

#[test]
fn test_handler_greets_responses() {
    let m = TestResponse { s_type: ExampleSType::TestResponse, id: 1, data: vec![], another_message: String::new() };
    match serve_test(TestRequest::Response(m)) {
        TestAnswer::Response(r) => assert_eq!(r.another_message, "Hello from server! response"),
        _ => panic!("expected a response"),
    }
}

#[test]
fn test_handler_refuses_other_types() {
    match serve_test(TestRequest::Other) {
        TestAnswer::Refused(e) => assert_eq!(e, b"malformed message type".to_vec()),
        _ => panic!("expected a refusal"),
    }
}

#[test]
fn big_payload_handler_sorts_data() {
    let m = ExpensiveMsg { s_type: ExampleSType::ExpensiveMessage, id: 3, data: vec![9, 1, 200, 1, 0, 255, 7] };
    match serve_big_payload(PayloadRequest::Expensive(m)) {
        PayloadAnswer::Expensive(r) => {
            assert_eq!(r.data, vec![0, 1, 1, 7, 9, 200, 255]);
            assert_eq!(r.id, 3);
        }
        _ => panic!("expected the sorted message"),
    }
}

#[test]
fn big_payload_handler_echoes_responses_and_refuses_others() {
    match serve_big_payload(PayloadRequest::ExpensiveResponse(vec![5, 4, 3])) {
        PayloadAnswer::Raw(b) => assert_eq!(b, vec![5, 4, 3]),
        _ => panic!("expected the raw bytes"),
    }
    match serve_big_payload(PayloadRequest::Other) {
        PayloadAnswer::Refused(e) => assert_eq!(e, b"Malformed message type".to_vec()),
        _ => panic!("expected a refusal"),
    }
}
