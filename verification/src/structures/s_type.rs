//! Wire structures of the framework and the structure-type codes that route
//! them. A structure type travels as a `u64` code (the discriminant of the
//! project's structure-type enum); this module keeps the framework's own
//! structures and the route keys, whose members name both the enum and the
//! code.

use vstd::prelude::*;
use crate::codec::crypto::utf8_decode;

verus! {

/// Structure types reserved by the framework itself.
#[derive(PartialEq, Eq, Structural, Clone, Copy, Debug, Hash)]
pub enum SystemSType {
    PacketMeta,
    HandlerMetaReq,
    HandlerMetaAns,
    ServerError,
}

impl SystemSType {
    /// The `u8` discriminant of the variant (declaration order).
    pub open spec fn spec_code(self) -> u8 {
        match self {
            SystemSType::PacketMeta => 0,
            SystemSType::HandlerMetaReq => 1,
            SystemSType::HandlerMetaAns => 2,
            SystemSType::ServerError => 3,
        }
    }

    /// Wire value of a structure type: its discriminant widened to `u64`.
    pub fn serialize(s_type: SystemSType) -> (r: u64)
        ensures
            r == s_type.spec_code(),
            s_type == SystemSType::PacketMeta ==> r == 0,
            s_type == SystemSType::HandlerMetaReq ==> r == 1,
            s_type == SystemSType::HandlerMetaAns ==> r == 2,
            s_type == SystemSType::ServerError ==> r == 3,
    {
        match s_type {
            SystemSType::PacketMeta => 0,
            SystemSType::HandlerMetaReq => 1,
            SystemSType::HandlerMetaAns => 2,
            SystemSType::ServerError => 3,
        }
    }

    /// The structure type of a wire value: the low byte of `val` read as a
    /// discriminant. Only the four discriminants are meaningful.
    pub fn deserialize(val: u64) -> (s: SystemSType)
        requires
            val % 256 < 4,
        ensures
            s.spec_code() == val % 256,
            val % 256 == 0 ==> s == SystemSType::PacketMeta,
            val % 256 == 1 ==> s == SystemSType::HandlerMetaReq,
            val % 256 == 2 ==> s == SystemSType::HandlerMetaAns,
            val % 256 == 3 ==> s == SystemSType::ServerError,
    {
        let b = val % 256;
        if b == 0 {
            SystemSType::PacketMeta
        } else if b == 1 {
            SystemSType::HandlerMetaReq
        } else if b == 2 {
            SystemSType::HandlerMetaAns
        } else {
            SystemSType::ServerError
        }
    }
}

/// Each system structure type's wire code is its declaration index:
/// `PacketMeta` 0, `HandlerMetaReq` 1, `HandlerMetaAns` 2, `ServerError` 3.
pub proof fn lemma_system_s_type_codes()
    ensures
        SystemSType::PacketMeta.spec_code() == 0,
        SystemSType::HandlerMetaReq.spec_code() == 1,
        SystemSType::HandlerMetaAns.spec_code() == 2,
        SystemSType::ServerError.spec_code() == 3,
        forall|s: SystemSType, t: SystemSType| s.spec_code() == t.spec_code() ==> s == t,
{
}

/// Reading back the wire value of a system structure type gives the same type.
pub proof fn lemma_system_s_type_roundtrip(s: SystemSType)
    ensures
        (s.spec_code() as u64) % 256 < 4,
        forall|t: SystemSType| #[trigger] t.spec_code() == (s.spec_code() as u64) % 256 ==> t == s,
{
}

/// Errors a server answers a request with.
#[derive(Debug)]
pub enum ServerErrorEn {
    MalformedMetaInfo(Option<String>),
    NoSuchHandler(Option<String>),
    InternalError(Option<Vec<u8>>),
    PayloadLost,
}

/// The human-readable text of an error: its fixed text, or the detail it
/// carries (an internal error's bytes when they are UTF-8).
pub open spec fn error_text(e: ServerErrorEn) -> Seq<char> {
    match e {
        ServerErrorEn::MalformedMetaInfo(Some(msg)) => "Malformed meta info: "@ + msg@,
        ServerErrorEn::MalformedMetaInfo(None) => "Malformed meta info!"@,
        ServerErrorEn::NoSuchHandler(Some(msg)) => "No such handler: "@ + msg@,
        ServerErrorEn::NoSuchHandler(None) => "No such handler!"@,
        ServerErrorEn::InternalError(Some(data)) => if vstd::utf8::valid_utf8(data@) {
            vstd::utf8::decode_utf8(data@)
        } else {
            "Internal server error!"@
        },
        ServerErrorEn::InternalError(None) => "Internal server error!"@,
        ServerErrorEn::PayloadLost => "Payload lost!"@,
    }
}

impl ServerErrorEn {
    /// The error text shown to users (see [`error_text`]).
    pub fn to_string(&self) -> (s: String)
        ensures
            s@ == error_text(*self),
    {
        match self {
            ServerErrorEn::MalformedMetaInfo(Some(msg)) => {
                let mut s = "Malformed meta info: ".to_owned();
                s.append(msg.as_str());
                s
            },
            ServerErrorEn::MalformedMetaInfo(None) => "Malformed meta info!".to_owned(),
            ServerErrorEn::NoSuchHandler(Some(msg)) => {
                let mut s = "No such handler: ".to_owned();
                s.append(msg.as_str());
                s
            },
            ServerErrorEn::NoSuchHandler(None) => "No such handler!".to_owned(),
            ServerErrorEn::InternalError(Some(data)) => match utf8_decode(data.clone()) {
                Some(text) => text,
                None => "Internal server error!".to_owned(),
            },
            ServerErrorEn::InternalError(None) => "Internal server error!".to_owned(),
            ServerErrorEn::PayloadLost => "Payload lost!".to_owned(),
        }
    }
}

/// An error answer: tagged with the `ServerError` structure type.
#[derive(Debug)]
pub struct ServerError {
    s_type: SystemSType,
    pub en: ServerErrorEn,
}

impl ServerError {
    pub closed spec fn spec_s_type(self) -> SystemSType {
        self.s_type
    }

    /// The error carried (readable where the struct's fields are not).
    pub closed spec fn spec_en(self) -> ServerErrorEn {
        self.en
    }

    pub fn new(en: ServerErrorEn) -> (e: ServerError)
        ensures
            e.spec_en() == en,
            e.spec_s_type() == SystemSType::ServerError,
    {
        ServerError { s_type: SystemSType::ServerError, en }
    }

    pub fn s_type(&self) -> (s: SystemSType)
        ensures
            s == self.spec_s_type(),
    {
        self.s_type
    }
}

/// Header frame of a request: the requested structure type's code, the target
/// handler and whether a payload frame follows.
#[derive(PartialEq, Eq, Structural, Clone, Debug)]
pub struct PacketMeta {
    pub s_type: SystemSType,
    pub s_type_req: u64,
    pub handler_id: u64,
    pub has_payload: bool,
}

/// Request for the numeric id of a handler known by name.
#[derive(Clone, Debug)]
pub struct HandlerMetaReq {
    pub s_type: SystemSType,
    pub handler_name: String,
}

/// Answer to a [`HandlerMetaReq`]: the handler's id.
#[derive(PartialEq, Eq, Structural, Clone, Debug)]
pub struct HandlerMetaAns {
    pub s_type: SystemSType,
    pub id: u64,
}

/// One structure type as a member of a route key: the id of the
/// structure-type enum it belongs to (`family`, which the runtime derives
/// from the enum's type) and its code within that enum. Two containers are
/// equal exactly when both the id and the code agree.
#[derive(PartialEq, Eq, Structural, Clone, Copy, Debug, Hash)]
pub struct TypeContainer {
    family: u64,
    s_type: u64,
}

impl View for TypeContainer {
    type V = (u64, u64);

    /// The enum's id and the code.
    closed spec fn view(&self) -> (u64, u64) {
        (self.family, self.s_type)
    }
}

impl TypeContainer {
    /// The structure type with code `s_type` of the enum with id `family`.
    pub fn new(family: u64, s_type: u64) -> (c: TypeContainer)
        ensures
            c@ == (family, s_type),
    {
        TypeContainer { family, s_type }
    }

    /// The id of the structure-type enum.
    pub fn family(&self) -> (r: u64)
        ensures
            r == self@.0,
    {
        self.family
    }

    /// The code within the enum.
    pub fn code(&self) -> (r: u64)
        ensures
            r == self@.1,
    {
        self.s_type
    }

    /// Whether two containers name the same structure type of the same enum.
    pub fn same_type(&self, other: &TypeContainer) -> (r: bool)
        ensures
            r <==> self@ == other@,
    {
        self.family == other.family && self.s_type == other.s_type
    }
}

/// Route key: the structure types a handler serves and the handler's id.
#[derive(Clone, Debug)]
pub struct TypeTuple {
    pub s_types: Vec<TypeContainer>,
    pub handler_id: u64,
}

impl TypeTuple {
    /// The structure types (enum id, code) the handler serves.
    pub open spec fn type_set(&self) -> Set<(u64, u64)> {
        Set::new(|t: (u64, u64)| exists|i: int| 0 <= i < self.s_types@.len() && #[trigger] self.s_types@[i]@ == t)
    }

    /// Builds the key of handler `handler_id` serving the structure types
    /// `s_types` (duplicates collapse, order is irrelevant).
    pub fn new(s_types: &Vec<TypeContainer>, handler_id: u64) -> (t: TypeTuple)
        ensures
            t.handler_id == handler_id,
            t.type_set() == Set::new(|x: (u64, u64)| exists|i: int| 0 <= i < s_types@.len() && #[trigger] s_types@[i]@ == x),
    {
        let mut v: Vec<TypeContainer> = Vec::new();
        let mut i: usize = 0;
        while i < s_types.len()
            invariant
                i <= s_types@.len(),
                v@.len() == i,
                forall|j: int| 0 <= j < i ==> #[trigger] v@[j]@ == s_types@[j]@,
            decreases s_types@.len() - i,
        {
            v.push(s_types[i]);
            i = i + 1;
        }
        let t = TypeTuple { s_types: v, handler_id };
        assert(t.type_set() =~= Set::new(|x: (u64, u64)| exists|i: int| 0 <= i < s_types@.len() && #[trigger] s_types@[i]@ == x)) by {
            assert forall|x: (u64, u64)| t.type_set().contains(x) implies exists|i: int| 0 <= i < s_types@.len() && #[trigger] s_types@[i]@ == x by {
                let j = choose|j: int| 0 <= j < t.s_types@.len() && #[trigger] t.s_types@[j]@ == x;
                assert(s_types@[j]@ == x);
            }
            assert forall|x: (u64, u64)| (exists|i: int| 0 <= i < s_types@.len() && #[trigger] s_types@[i]@ == x) implies t.type_set().contains(x) by {
                let j = choose|j: int| 0 <= j < s_types@.len() && #[trigger] s_types@[j]@ == x;
                assert(t.s_types@[j]@ == x);
            }
        }
        t
    }

    /// Whether the handler serves structure type `s_type`.
    pub fn serves(&self, s_type: &TypeContainer) -> (r: bool)
        ensures
            r <==> self.type_set().contains(s_type@),
    {
        let mut i: usize = 0;
        while i < self.s_types.len()
            invariant
                i <= self.s_types@.len(),
                forall|j: int| 0 <= j < i ==> #[trigger] self.s_types@[j]@ != s_type@,
            decreases self.s_types@.len() - i,
        {
            if self.s_types[i].same_type(s_type) {
                return true;
            }
            i = i + 1;
        }
        false
    }
}

} // verus!
