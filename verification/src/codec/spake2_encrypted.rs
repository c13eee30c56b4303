//! The encrypting frame codec: a SPAKE2 handshake per connection, then every
//! frame sealed or opened with the session keys it produced.

use vstd::prelude::*;
use vstd::slice::slice_to_vec;
use vstd::utf8::encode_utf8;
use crate::codec::handshake::{ClientHandshake, HandshakeAction, ServerHandshake};
use crate::codec::session::{open_step, seal_step, SessionKeys, SessionKeysView};

verus! {

/// Why a frame could not be encrypted or decrypted.
#[derive(PartialEq, Eq, Structural, Clone, Copy, Debug)]
pub enum CodecError {
    /// A frame arrived before the handshake produced session keys.
    DecryptWithoutKeys,
    /// The frame was refused: too short, replayed, reordered or forged.
    DecryptionRejected,
    /// A frame was to be sent before the handshake produced session keys.
    EncryptWithoutKeys,
    /// The send counter is exhausted or the frame is too long to seal.
    EncryptionRefused,
}

impl CodecError {
    /// Whether the error reports malformed input data (as opposed to a local
    /// failure).
    pub fn is_invalid_data(&self) -> (r: bool)
        ensures
            r <==> *self == CodecError::DecryptionRejected,
    {
        match self {
            CodecError::DecryptionRejected => true,
            _ => false,
        }
    }

    /// The error text: which direction failed.
    pub fn message(&self) -> (s: String)
        ensures
            (self is DecryptWithoutKeys || self is DecryptionRejected) ==> s@ == "decryption failed"@,
            (self is EncryptWithoutKeys || self is EncryptionRefused) ==> s@ == "encryption failed"@,
    {
        match self {
            CodecError::DecryptWithoutKeys | CodecError::DecryptionRejected => "decryption failed".to_owned(),
            CodecError::EncryptWithoutKeys | CodecError::EncryptionRefused => "encryption failed".to_owned(),
        }
    }
}

/// A handshake in progress, on whichever side this codec plays.
pub enum Handshake {
    Client(ClientHandshake),
    Server(ServerHandshake),
}

/// Codec state of one connection: its side, the server identity the SPAKE2
/// exchange is bound to, and the session keys once the handshake succeeded.
pub struct Spake2Encrypted {
    is_server: bool,
    server_id: Vec<u8>,
    keys: Option<SessionKeys>,
}

impl Spake2Encrypted {
    pub closed spec fn spec_is_server(&self) -> bool {
        self.is_server
    }

    pub closed spec fn spec_server_id(&self) -> Seq<u8> {
        self.server_id@
    }

    /// The session state, once established.
    pub closed spec fn session(&self) -> Option<SessionKeysView> {
        match self.keys {
            Some(k) => Some(k@),
            None => None,
        }
    }

    /// A server-side codec for server identity `server_id`, not yet keyed.
    pub fn create_server(server_id: String) -> (c: Spake2Encrypted)
        ensures
            c.spec_is_server(),
            c.spec_server_id() == encode_utf8(server_id@),
            c.session() is None,
    {
        Spake2Encrypted { is_server: true, server_id: slice_to_vec(server_id.as_str().as_bytes()), keys: None }
    }

    /// A client-side codec for server identity `server_id`, not yet keyed.
    pub fn create_client(server_id: String) -> (c: Spake2Encrypted)
        ensures
            !c.spec_is_server(),
            c.spec_server_id() == encode_utf8(server_id@),
            c.session() is None,
    {
        Spake2Encrypted { is_server: false, server_id: slice_to_vec(server_id.as_str().as_bytes()), keys: None }
    }

    pub fn is_server(&self) -> (r: bool)
        ensures
            r == self.spec_is_server(),
    {
        self.is_server
    }

    pub fn server_id(&self) -> (r: &[u8])
        ensures
            r@ == self.spec_server_id(),
    {
        self.server_id.as_slice()
    }

    /// Whether the handshake has produced session keys.
    pub fn is_established(&self) -> (r: bool)
        ensures
            r <==> self.session() is Some,
    {
        self.keys.is_some()
    }

    /// A codec for another connection: same side and server identity, no keys
    /// (each connection runs its own handshake).
    pub fn clone_unkeyed(&self) -> (c: Spake2Encrypted)
        ensures
            c.spec_is_server() == self.spec_is_server(),
            c.spec_server_id() == self.spec_server_id(),
            c.session() is None,
    {
        Spake2Encrypted { is_server: self.is_server, server_id: slice_to_vec(self.server_id.as_slice()), keys: None }
    }

    /// Starts this connection's handshake on the codec's side.
    pub fn begin_handshake(&self) -> (res: (Handshake, HandshakeAction))
        ensures
            self.spec_is_server() ==> (res.0 matches Handshake::Server(h) && h.awaits_identity()
                && h.server_id() == self.spec_server_id() && res.1 is Receive),
            !self.spec_is_server() ==> (res.0 matches Handshake::Client(h) && h.awaits_credentials()
                && h.server_id() == self.spec_server_id() && res.1 is FetchCredentials),
    {
        if self.is_server {
            let (h, a) = ServerHandshake::start(self.server_id.as_slice());
            (Handshake::Server(h), a)
        } else {
            let (h, a) = ClientHandshake::start(self.server_id.as_slice());
            (Handshake::Client(h), a)
        }
    }

    /// Takes the final action of the handshake: keys from a completed
    /// handshake are installed and the connection accepted; anything else
    /// refuses it and leaves the codec unchanged.
    pub fn conclude_handshake(&mut self, outcome: HandshakeAction) -> (accepted: bool)
        ensures
            final(self).spec_is_server() == old(self).spec_is_server(),
            final(self).spec_server_id() == old(self).spec_server_id(),
            accepted <==> outcome is Complete,
            outcome matches HandshakeAction::Complete(k) ==> final(self).session() == Some(k@),
            !(outcome is Complete) ==> final(self).session() == old(self).session(),
    {
        match outcome {
            HandshakeAction::Complete(k) => {
                self.keys = Some(k);
                true
            },
            _ => false,
        }
    }

    /// Decrypts one received frame with the session keys.
    pub fn decode_frame(&mut self, frame: Vec<u8>) -> (r: Result<Vec<u8>, CodecError>)
        ensures
            final(self).spec_is_server() == old(self).spec_is_server(),
            final(self).spec_server_id() == old(self).spec_server_id(),
            old(self).session() is None ==> r == Err::<Vec<u8>, CodecError>(CodecError::DecryptWithoutKeys)
                && final(self).session() is None,
            old(self).session() matches Some(k) ==> {
                let (next, ok, out) = open_step(k, frame@);
                &&& final(self).session() == Some(next)
                &&& ok ==> (r matches Ok(v) && v@ == out)
                &&& !ok ==> r == Err::<Vec<u8>, CodecError>(CodecError::DecryptionRejected)
            },
    {
        let mut frame = frame;
        match &mut self.keys {
            Some(keys) => match keys.open_in_place(&mut frame) {
                Some(()) => Ok(frame),
                None => Err(CodecError::DecryptionRejected),
            },
            None => Err(CodecError::DecryptWithoutKeys),
        }
    }

    /// Encrypts one frame to send with the session keys.
    pub fn encode_frame(&mut self, item: Vec<u8>) -> (r: Result<Vec<u8>, CodecError>)
        ensures
            final(self).spec_is_server() == old(self).spec_is_server(),
            final(self).spec_server_id() == old(self).spec_server_id(),
            old(self).session() is None ==> r == Err::<Vec<u8>, CodecError>(CodecError::EncryptWithoutKeys)
                && final(self).session() is None,
            old(self).session() matches Some(k) ==> {
                let (next, ok, out) = seal_step(k, item@);
                &&& final(self).session() == Some(next)
                &&& ok ==> (r matches Ok(v) && v@ == out)
                &&& !ok ==> r == Err::<Vec<u8>, CodecError>(CodecError::EncryptionRefused)
            },
    {
        let mut buf = item;
        match &mut self.keys {
            Some(keys) => match keys.seal_in_place(&mut buf) {
                Some(()) => Ok(buf),
                None => Err(CodecError::EncryptionRefused),
            },
            None => Err(CodecError::EncryptWithoutKeys),
        }
    }
}

} // verus!
