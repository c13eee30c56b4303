//! What the example server's handlers answer. The test handler greets test
//! messages and responses; the big-payload handler sorts the payload of an
//! expensive message and echoes an expensive response; both refuse any other
//! structure type.

use vstd::prelude::*;
use crate::s_type_example::{ExpensiveMsg, TestMsg, TestResponse};

verus! {

/// `<[u8]>::sort`: the bytes in ascending order, the same bytes as before.
#[verifier::external_body]
fn sort_bytes(v: &mut Vec<u8>)
    ensures
        final(v)@.to_multiset() == old(v)@.to_multiset(),
        forall|i: int, j: int| 0 <= i <= j < final(v)@.len() ==> final(v)@[i] <= final(v)@[j],
{
    v.sort();
}

/// A request of the test handler, decoded by its structure type.
pub enum TestRequest {
    Message(TestMsg),
    Response(TestResponse),
    /// Any other structure type.
    Other,
}

/// The test handler's answer.
pub enum TestAnswer {
    Message(TestMsg),
    Response(TestResponse),
    /// Refused with these error bytes.
    Refused(Vec<u8>),
}

/// The test handler: a test message comes back with `Hello from server!`
/// appended to its text, a test response with `Hello from server! response`
/// appended; anything else is refused with `malformed message type`.
pub fn serve_test(req: TestRequest) -> (a: TestAnswer)
    ensures
        req matches TestRequest::Message(m) ==> (a matches TestAnswer::Message(r) && r.s_type == m.s_type
            && r.id == m.id && r.data@ == m.data@ && r.message@ == m.message@ + "Hello from server!"@),
        req matches TestRequest::Response(m) ==> (a matches TestAnswer::Response(r) && r.s_type == m.s_type
            && r.id == m.id && r.data@ == m.data@ && r.another_message@ == m.another_message@
            + "Hello from server! response"@),
        req is Other ==> (a matches TestAnswer::Refused(e) && e@ == "malformed message type"@.map_values(
            |c: char| c as u8,
        )),
{
    match req {
        TestRequest::Message(m) => {
            let mut m = m;
            m.message.append("Hello from server!");
            TestAnswer::Message(m)
        },
        TestRequest::Response(m) => {
            let mut m = m;
            m.another_message.append("Hello from server! response");
            TestAnswer::Response(m)
        },
        TestRequest::Other => {
            let e: Vec<u8> = vec![
                109u8, 97, 108, 102, 111, 114, 109, 101, 100, 32, 109, 101, 115, 115, 97, 103, 101, 32, 116,
                121, 112, 101,
            ];
            proof {
                reveal_strlit("malformed message type");
            }
            assert(e@ =~= "malformed message type"@.map_values(|c: char| c as u8));
            TestAnswer::Refused(e)
        },
    }
}

/// A request of the big-payload handler, decoded by its structure type.
pub enum PayloadRequest {
    Expensive(ExpensiveMsg),
    /// An expensive response, kept as the raw bytes received.
    ExpensiveResponse(Vec<u8>),
    /// Any other structure type.
    Other,
}

/// The big-payload handler's answer.
pub enum PayloadAnswer {
    Expensive(ExpensiveMsg),
    /// These raw bytes.
    Raw(Vec<u8>),
    /// Refused with these error bytes.
    Refused(Vec<u8>),
}

/// The big-payload handler: an expensive message comes back with its data
/// sorted ascending, an expensive response comes back unchanged; anything else
/// is refused with `Malformed message type`.
pub fn serve_big_payload(req: PayloadRequest) -> (a: PayloadAnswer)
    ensures
        req matches PayloadRequest::Expensive(m) ==> (a matches PayloadAnswer::Expensive(r) && r.s_type == m.s_type
            && r.id == m.id && r.data@.to_multiset() == m.data@.to_multiset() && forall|i: int, j: int|
            0 <= i <= j < r.data@.len() ==> r.data@[i] <= r.data@[j]),
        req matches PayloadRequest::ExpensiveResponse(b) ==> (a matches PayloadAnswer::Raw(r) && r@ == b@),
        req is Other ==> (a matches PayloadAnswer::Refused(e) && e@ == "Malformed message type"@.map_values(
            |c: char| c as u8,
        )),
{
    match req {
        PayloadRequest::Expensive(m) => {
            let mut m = m;
            sort_bytes(&mut m.data);
            PayloadAnswer::Expensive(m)
        },
        PayloadRequest::ExpensiveResponse(b) => PayloadAnswer::Raw(b),
        PayloadRequest::Other => {
            let e: Vec<u8> = vec![
                77u8, 97, 108, 102, 111, 114, 109, 101, 100, 32, 109, 101, 115, 115, 97, 103, 101, 32, 116,
                121, 112, 101,
            ];
            proof {
                reveal_strlit("Malformed message type");
            }
            assert(e@ =~= "Malformed message type"@.map_values(|c: char| c as u8));
            PayloadAnswer::Refused(e)
        },
    }
}

} // verus!
