//! Example project structure types and messages.

use vstd::prelude::*;

verus! {

/// The example project's structure types.
#[derive(PartialEq, Eq, Structural, Clone, Copy, Debug, Hash)]
pub enum ExampleSType {
    TestMessage,
    TestResponse,
    ExpensiveMessage,
    ExpensiveResponse,
    ManualHandlerRequest,
}

impl ExampleSType {
    /// The `u8` discriminant of the variant (declaration order).
    pub open spec fn spec_code(self) -> u8 {
        match self {
            ExampleSType::TestMessage => 0,
            ExampleSType::TestResponse => 1,
            ExampleSType::ExpensiveMessage => 2,
            ExampleSType::ExpensiveResponse => 3,
            ExampleSType::ManualHandlerRequest => 4,
        }
    }

    /// Wire value of a structure type: its discriminant widened to `u64`.
    pub fn serialize(s_type: ExampleSType) -> (r: u64)
        ensures
            r == s_type.spec_code(),
            s_type == ExampleSType::TestMessage ==> r == 0,
            s_type == ExampleSType::TestResponse ==> r == 1,
            s_type == ExampleSType::ExpensiveMessage ==> r == 2,
            s_type == ExampleSType::ExpensiveResponse ==> r == 3,
            s_type == ExampleSType::ManualHandlerRequest ==> r == 4,
    {
        match s_type {
            ExampleSType::TestMessage => 0,
            ExampleSType::TestResponse => 1,
            ExampleSType::ExpensiveMessage => 2,
            ExampleSType::ExpensiveResponse => 3,
            ExampleSType::ManualHandlerRequest => 4,
        }
    }

    /// The structure type of a wire value: its low byte read as a
    /// discriminant.
    pub fn deserialize(val: u64) -> (s: ExampleSType)
        requires
            val % 256 < 5,
        ensures
            s.spec_code() == val % 256,
            val % 256 == 0 ==> s == ExampleSType::TestMessage,
            val % 256 == 1 ==> s == ExampleSType::TestResponse,
            val % 256 == 2 ==> s == ExampleSType::ExpensiveMessage,
            val % 256 == 3 ==> s == ExampleSType::ExpensiveResponse,
            val % 256 == 4 ==> s == ExampleSType::ManualHandlerRequest,
    {
        let b = val % 256;
        if b == 0 {
            ExampleSType::TestMessage
        } else if b == 1 {
            ExampleSType::TestResponse
        } else if b == 2 {
            ExampleSType::ExpensiveMessage
        } else if b == 3 {
            ExampleSType::ExpensiveResponse
        } else {
            ExampleSType::ManualHandlerRequest
        }
    }
}

/// Each example structure type's wire code is its declaration index, from
/// `TestMessage` 0 to `ManualHandlerRequest` 4, and reading a code back gives
/// the same type.
pub proof fn lemma_example_s_type_codes()
    ensures
        ExampleSType::TestMessage.spec_code() == 0,
        ExampleSType::TestResponse.spec_code() == 1,
        ExampleSType::ExpensiveMessage.spec_code() == 2,
        ExampleSType::ExpensiveResponse.spec_code() == 3,
        ExampleSType::ManualHandlerRequest.spec_code() == 4,
        forall|s: ExampleSType, t: ExampleSType| s.spec_code() == t.spec_code() ==> s == t,
{
}

#[derive(Clone, Debug)]
pub struct TestMsg {
    pub s_type: ExampleSType,
    pub id: u64,
    pub data: Vec<u8>,
    pub message: String,
}

#[derive(Clone, Debug)]
pub struct TestResponse {
    pub s_type: ExampleSType,
    pub id: u64,
    pub data: Vec<u8>,
    pub another_message: String,
}

#[derive(Clone, Debug)]
pub struct ExpensiveMsg {
    pub s_type: ExampleSType,
    pub id: u64,
    pub data: Vec<u8>,
}

#[derive(Clone, Debug)]
pub struct ExpensiveResponse {
    pub s_type: ExampleSType,
    pub id: u64,
    pub data: Vec<u8>,
}

#[derive(Clone, Debug)]
pub struct ManualHandlerRequest {
    s_type: ExampleSType,
}

impl ManualHandlerRequest {
    pub fn new() -> (m: ManualHandlerRequest)
        ensures
            m.spec_s_type() == ExampleSType::ManualHandlerRequest,
    {
        ManualHandlerRequest { s_type: ExampleSType::ManualHandlerRequest }
    }

    pub closed spec fn spec_s_type(&self) -> ExampleSType {
        self.s_type
    }

    pub fn s_type(&self) -> (s: ExampleSType)
        ensures
            s == self.spec_s_type(),
    {
        self.s_type
    }
}

} // verus!
