//! Client-side request logic: naming the target handler, building the request
//! header, and reading the server's answer.

use vstd::prelude::*;
use crate::structures::s_type::{PacketMeta, SystemSType};

pub mod target_router;

verus! {

#[verifier::external_type_specification]
#[verifier::external_body]
pub struct ExIoError(std::io::Error);

/// Errors of the client.
#[derive(Debug)]
pub enum ClientError {
    Io(std::io::Error),
    Tls(String),
    Codec(std::io::Error),
    Router(String),
    ChannelClosed,
    Protocol(String),
    /// Codec `initial_setup` failed during connection establishment.
    Setup(String),
}

impl From<std::io::Error> for ClientError {
    fn from(e: std::io::Error) -> (r: Self) {
        ClientError::Io(e)
    }
}

impl vstd::std_specs::convert::FromSpecImpl<std::io::Error> for ClientError {
    open spec fn obeys_from_spec() -> bool {
        true
    }

    open spec fn from_spec(e: std::io::Error) -> Self {
        ClientError::Io(e)
    }
}

/// Describes the target handler on the server: by id or by name.
#[derive(Debug)]
pub struct HandlerInfo {
    id: Option<u64>,
    named: Option<String>,
}

impl HandlerInfo {
    pub closed spec fn spec_id(&self) -> Option<u64> {
        self.id
    }

    pub closed spec fn spec_named(&self) -> Option<String> {
        self.named
    }

    /// Creates handler info by handler name.
    pub fn new_named(name: String) -> (h: HandlerInfo)
        ensures
            h.spec_id() is None,
            h.spec_named() == Some(name),
    {
        HandlerInfo { id: None, named: Some(name) }
    }

    /// Creates handler info by handler id.
    pub fn new_id(id: u64) -> (h: HandlerInfo)
        ensures
            h.spec_id() == Some(id),
            h.spec_named() is None,
    {
        HandlerInfo { id: Some(id), named: None }
    }

    pub fn id(&self) -> (r: Option<u64>)
        ensures
            r == self.spec_id(),
    {
        self.id
    }

    pub fn named(&self) -> (r: &Option<String>)
        ensures
            *r == self.spec_named(),
    {
        &self.named
    }
}

impl Clone for HandlerInfo {
    /// A copy with the same id and name.
    fn clone(&self) -> (r: HandlerInfo)
        ensures
            r == *self,
    {
        let named = match &self.named {
            Some(n) => Some(n.clone()),
            None => None,
        };
        HandlerInfo { id: self.id, named }
    }
}

/// How the client reaches the target handler.
pub enum HandlerTarget {
    /// Its id is known.
    Id(u64),
    /// Its id must first be asked for by this name.
    Named(String),
}

/// The target of a request: the handler id when the info has one, else its
/// name to look up; info with neither is a protocol error.
pub fn resolve_handler(info: HandlerInfo) -> (r: Result<HandlerTarget, ClientError>)
    ensures
        info.spec_id() matches Some(id) ==> (r matches Ok(HandlerTarget::Id(i)) && i == id),
        info.spec_id() is None && info.spec_named() is Some ==> (r matches Ok(HandlerTarget::Named(n))
            && Some(n) == info.spec_named()),
        info.spec_id() is None && info.spec_named() is None ==> (r matches Err(ClientError::Protocol(m))
            && m@ == "Missing handler name"@),
{
    match info.id {
        Some(id) => Ok(HandlerTarget::Id(id)),
        None => match info.named {
            Some(name) => Ok(HandlerTarget::Named(name)),
            None => Err(ClientError::Protocol("Missing handler name".to_owned())),
        },
    }
}

/// The header of a request for handler `handler_id` carrying structure type
/// `s_type_req`; it announces a payload exactly when `data` is not empty.
pub fn packet_meta(s_type_req: u64, handler_id: u64, data: &[u8]) -> (m: PacketMeta)
    ensures
        m.s_type == SystemSType::PacketMeta,
        m.s_type_req == s_type_req,
        m.handler_id == handler_id,
        m.has_payload == (data@.len() > 0),
{
    PacketMeta { s_type: SystemSType::PacketMeta, s_type_req, handler_id, has_payload: !data.is_empty() }
}

/// The frames that carry a request: its header, then the payload frame only
/// where the header announces one (an empty payload is not sent, so the
/// server answers each request exactly once).
pub fn request_frames(s_type_req: u64, handler_id: u64, data: Vec<u8>) -> (r: (PacketMeta, Option<Vec<u8>>))
    ensures
        r.0.s_type == SystemSType::PacketMeta,
        r.0.s_type_req == s_type_req,
        r.0.handler_id == handler_id,
        r.0.has_payload == (data@.len() > 0),
        r.1 is Some <==> r.0.has_payload,
        r.1 matches Some(p) ==> p@ == data@,
{
    let meta = packet_meta(s_type_req, handler_id, data.as_slice());
    if meta.has_payload {
        (meta, Some(data))
    } else {
        (meta, None)
    }
}

/// The server's answer from the next frame read: the frame, a codec error, or
/// a protocol error when the connection closed.
pub fn response_outcome(next: Option<Result<Vec<u8>, std::io::Error>>) -> (r: Result<Vec<u8>, ClientError>)
    ensures
        next matches Some(Ok(data)) ==> r == Ok::<Vec<u8>, ClientError>(data),
        next matches Some(Err(e)) ==> r matches Err(ClientError::Codec(c)) && c == e,
        next is None ==> (r matches Err(ClientError::Protocol(m)) && m@ == "Connection closed"@),
{
    match next {
        Some(Ok(data)) => Ok(data),
        Some(Err(e)) => Err(ClientError::Codec(e)),
        None => Err(ClientError::Protocol("Connection closed".to_owned())),
    }
}

} // verus!
