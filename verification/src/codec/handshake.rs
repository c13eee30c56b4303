//! The SPAKE2 handshake that opens an encrypted connection, as two state
//! machines. The runtime performs each action (asking the credential
//! provider, sending or receiving one frame) and feeds the outcome back as an
//! event; the machines decide what happens next and derive the session keys.
//!
//! Client: fetch its identity and password, send the identity, send its SPAKE2
//! message, receive the server's, finish. Server: receive the client identity,
//! fetch that client's password, receive the client's SPAKE2 message, send its
//! own, finish.

use vstd::prelude::*;
use vstd::slice::slice_to_vec;
use vstd::utf8::encode_utf8;
use crate::codec::crypto::{
    spake2_finish, spake2_shared_secret, spake2_start_a, spake2_start_b, utf8_lossy, utf8_lossy_chars,
    ExchangeInputs, Spake2Exchange,
};
use crate::codec::crypto::hkdf_sha256_expand;
use crate::codec::session::{derived_keys, key_label_a, key_label_b, SessionKeys, SessionKeysView};

verus! {

/// What the runtime reports back after performing an action.
pub enum HandshakeEvent {
    /// Answer of the client credential provider: identity and password.
    Credentials(Option<(Vec<u8>, Vec<u8>)>),
    /// Answer of the server credential provider for the requested identity.
    Password(Option<Vec<u8>>),
    /// Whether the frame handed over in `Send` went out.
    Sent(bool),
    /// The next frame from the peer; `None` when the stream ended or failed.
    Received(Option<Vec<u8>>),
}

/// What the runtime must do next.
pub enum HandshakeAction {
    FetchCredentials,
    /// Ask the server credential provider for the password of this identity.
    FetchPassword(String),
    Send(Vec<u8>),
    Receive,
    /// The handshake succeeded with these session keys.
    Complete(SessionKeys),
    /// The handshake failed; the connection must be refused.
    Abort,
}

/// The session keys of one side of an exchange that is finished with
/// `peer_msg`: those derived from the SPAKE2 secret of the exchange's inputs,
/// its own message and `peer_msg`, or `None` where SPAKE2 refuses the peer's
/// message.
pub open spec fn finished_keys(inputs: ExchangeInputs, own_msg: Seq<u8>, peer_msg: Seq<u8>, is_server: bool) -> Option<
    SessionKeysView,
> {
    match spake2_shared_secret(inputs.0, inputs.1, inputs.2, inputs.3, own_msg, peer_msg) {
        Some(shared) => Some(derived_keys(shared, is_server)),
        None => None,
    }
}

/// `action` completes the handshake with exactly `keys`, or aborts where there
/// are none.
pub open spec fn completes_with(action: HandshakeAction, keys: Option<SessionKeysView>) -> bool {
    match keys {
        Some(kv) => action matches HandshakeAction::Complete(k) && k@ == kv,
        None => action is Abort,
    }
}

/// Finishes `exchange` with the peer's message and derives the session keys of
/// one side.
fn complete(exchange: Spake2Exchange, peer_msg: &[u8], is_server: bool) -> (action: HandshakeAction)
    ensures
        completes_with(action, finished_keys(exchange.inputs(), exchange.own_msg(), peer_msg@, is_server)),
        peer_msg@.len() != 33 ==> action is Abort,
        peer_msg@.len() == 33 && peer_msg@[0] != (if exchange.inputs().0 { 0x42u8 } else { 0x41u8 })
            ==> action is Abort,
        // the keys are those of this side's role: the server sends with the
        // key under label B and receives with the one under label A
        action matches HandshakeAction::Complete(k) ==> spake2_shared_secret(
            exchange.inputs().0,
            exchange.inputs().1,
            exchange.inputs().2,
            exchange.inputs().3,
            exchange.own_msg(),
            peer_msg@,
        ) matches Some(secret) && k@.send_key == hkdf_sha256_expand(
            secret,
            if is_server { key_label_b() } else { key_label_a() },
            32,
        ) && k@.recv_key == hkdf_sha256_expand(secret, if is_server { key_label_a() } else { key_label_b() }, 32)
            && k@.send_counter == 1 && k@.recv_counter == 0,
{
    match spake2_finish(exchange, peer_msg) {
        None => HandshakeAction::Abort,
        Some(shared) => match SessionKeys::derive_session_keys(shared.as_slice(), is_server) {
            Some(k) => HandshakeAction::Complete(k),
            None => HandshakeAction::Abort,
        },
    }
}

enum ClientPhase {
    AwaitCredentials,
    SendIdentity { exchange: Spake2Exchange, outbound: Vec<u8> },
    SendMessage { exchange: Spake2Exchange },
    AwaitPeer { exchange: Spake2Exchange },
    Finished,
}

/// Client side of the handshake.
pub struct ClientHandshake {
    server_id: Vec<u8>,
    phase: ClientPhase,
}

impl ClientHandshake {
    /// The client's exchange is side A of SPAKE2.
    #[verifier::type_invariant]
    spec fn exchange_is_side_a(&self) -> bool {
        match self.phase {
            ClientPhase::SendIdentity { exchange, outbound } => exchange.inputs().0 && exchange.own_msg() == outbound@,
            ClientPhase::SendMessage { exchange } => exchange.inputs().0,
            ClientPhase::AwaitPeer { exchange } => exchange.inputs().0,
            _ => true,
        }
    }

    /// The server identity the exchange is bound to.
    pub closed spec fn server_id(&self) -> Seq<u8> {
        self.server_id@
    }

    /// Waiting for the credential provider's answer.
    pub closed spec fn awaits_credentials(&self) -> bool {
        self.phase is AwaitCredentials
    }

    /// Waiting for the outcome of sending the client identity.
    pub closed spec fn awaits_identity_sent(&self) -> bool {
        self.phase is SendIdentity
    }

    /// Waiting for the outcome of sending the client's SPAKE2 message.
    pub closed spec fn awaits_message_sent(&self) -> bool {
        self.phase is SendMessage
    }

    /// Waiting for the server's SPAKE2 message.
    pub closed spec fn awaits_peer(&self) -> bool {
        self.phase is AwaitPeer
    }

    /// The handshake has completed or failed.
    pub closed spec fn is_finished(&self) -> bool {
        self.phase is Finished
    }

    /// The client's SPAKE2 message, once generated and until it is sent.
    pub closed spec fn outbound(&self) -> Seq<u8> {
        match self.phase {
            ClientPhase::SendIdentity { outbound, .. } => outbound@,
            _ => Seq::empty(),
        }
    }

    /// The inputs of the SPAKE2 exchange, once started and until it finishes.
    pub closed spec fn exchange_inputs(&self) -> Option<ExchangeInputs> {
        match self.phase {
            ClientPhase::SendIdentity { exchange, .. } => Some(exchange.inputs()),
            ClientPhase::SendMessage { exchange } => Some(exchange.inputs()),
            ClientPhase::AwaitPeer { exchange } => Some(exchange.inputs()),
            _ => None,
        }
    }

    /// The client's own SPAKE2 message, once the exchange is started and
    /// until it finishes.
    pub closed spec fn own_message(&self) -> Seq<u8> {
        match self.phase {
            ClientPhase::SendIdentity { exchange, .. } => exchange.own_msg(),
            ClientPhase::SendMessage { exchange } => exchange.own_msg(),
            ClientPhase::AwaitPeer { exchange } => exchange.own_msg(),
            _ => Seq::empty(),
        }
    }

    /// Whether `event` answers the action this machine last asked for.
    pub open spec fn expects(&self, event: &HandshakeEvent) -> bool {
        match event {
            HandshakeEvent::Credentials(_) => self.awaits_credentials(),
            HandshakeEvent::Sent(_) => self.awaits_identity_sent() || self.awaits_message_sent(),
            HandshakeEvent::Received(_) => self.awaits_peer(),
            HandshakeEvent::Password(_) => false,
        }
    }

    /// Starts a client handshake bound to `server_id`; the first action is
    /// to fetch the client credentials.
    pub fn start(server_id: &[u8]) -> (res: (ClientHandshake, HandshakeAction))
        ensures
            res.0.awaits_credentials(),
            res.0.server_id() == server_id@,
            res.1 is FetchCredentials,
    {
        (ClientHandshake { server_id: slice_to_vec(server_id), phase: ClientPhase::AwaitCredentials }, HandshakeAction::FetchCredentials)
    }

    /// Advances the handshake with the outcome of the last action.
    pub fn step(&mut self, event: HandshakeEvent) -> (action: HandshakeAction)
        requires
            old(self).expects(&event),
        ensures
            final(self).server_id() == old(self).server_id(),
            action is Abort || action is Complete ==> final(self).is_finished(),
            // credentials: missing ones abort, given ones send the identity
            event matches HandshakeEvent::Credentials(c) ==> match c {
                None => action is Abort,
                Some((id, pw)) => action == HandshakeAction::Send(id) && final(self).awaits_identity_sent()
                    && final(self).outbound().len() == 33 && final(self).outbound()[0] == 0x41u8
                    && final(self).exchange_inputs() == Some((true, pw@, id@, old(self).server_id()))
                    && final(self).outbound() == final(self).own_message(),
            },
            // a failed send aborts; after the identity the SPAKE2 message goes
            // out, after the message the server's reply is awaited
            event matches HandshakeEvent::Sent(ok) ==> {
                &&& !ok ==> action is Abort
                &&& ok && old(self).awaits_identity_sent() ==> (action matches HandshakeAction::Send(v) && v@ == old(self).outbound())
                    && final(self).awaits_message_sent()
                &&& ok && old(self).awaits_message_sent() ==> action is Receive && final(self).awaits_peer()
                &&& ok ==> final(self).exchange_inputs() == old(self).exchange_inputs()
                    && final(self).own_message() == old(self).own_message()
            },
            // the server's message, as received, finishes the exchange
            event matches HandshakeEvent::Received(r) ==> match r {
                None => action is Abort,
                Some(p) => {
                    &&& completes_with(
                        action,
                        finished_keys(old(self).exchange_inputs()->0, old(self).own_message(), p@, false),
                    )
                    &&& p@.len() != 33 ==> action is Abort
                    &&& p@.len() == 33 && p@[0] != 0x42u8 ==> action is Abort
                    // the client's role: it sends under label A, receives under label B
                    &&& action matches HandshakeAction::Complete(k) ==> {
                        let i = old(self).exchange_inputs()->0;
                        spake2_shared_secret(i.0, i.1, i.2, i.3, old(self).own_message(), p@) matches Some(secret)
                            && k@.send_key == hkdf_sha256_expand(secret, key_label_a(), 32)
                            && k@.recv_key == hkdf_sha256_expand(secret, key_label_b(), 32)
                    }
                },
            },
    {
        proof {
            use_type_invariant(&*self);
        }
        let mut phase = ClientPhase::Finished;
        std::mem::swap(&mut phase, &mut self.phase);
        match event {
            HandshakeEvent::Credentials(c) => match c {
                None => HandshakeAction::Abort,
                Some((identity, password)) => {
                    let (exchange, outbound) = spake2_start_a(password.as_slice(), identity.as_slice(), self.server_id.as_slice());
                    self.phase = ClientPhase::SendIdentity { exchange, outbound };
                    HandshakeAction::Send(identity)
                },
            },
            HandshakeEvent::Sent(ok) => {
                if !ok {
                    return HandshakeAction::Abort;
                }
                match phase {
                    ClientPhase::SendIdentity { exchange, outbound } => {
                        self.phase = ClientPhase::SendMessage { exchange };
                        HandshakeAction::Send(outbound)
                    },
                    ClientPhase::SendMessage { exchange } => {
                        self.phase = ClientPhase::AwaitPeer { exchange };
                        HandshakeAction::Receive
                    },
                    _ => HandshakeAction::Abort,
                }
            },
            HandshakeEvent::Received(r) => match (r, phase) {
                (Some(peer_msg), ClientPhase::AwaitPeer { exchange }) => complete(exchange, peer_msg.as_slice(), false),
                _ => HandshakeAction::Abort,
            },
            HandshakeEvent::Password(_) => HandshakeAction::Abort,
        }
    }
}

enum ServerPhase {
    AwaitIdentity,
    AwaitPassword { identity: String },
    AwaitPeer { exchange: Spake2Exchange, outbound: Vec<u8> },
    SendReply { exchange: Spake2Exchange, peer_msg: Vec<u8> },
    Finished,
}

/// Server side of the handshake.
pub struct ServerHandshake {
    server_id: Vec<u8>,
    phase: ServerPhase,
}

impl ServerHandshake {
    /// The server's exchange is side B of SPAKE2.
    #[verifier::type_invariant]
    spec fn exchange_is_side_b(&self) -> bool {
        match self.phase {
            ServerPhase::AwaitPeer { exchange, outbound } => !exchange.inputs().0 && exchange.own_msg() == outbound@,
            ServerPhase::SendReply { exchange, .. } => !exchange.inputs().0,
            _ => true,
        }
    }

    /// The server identity the exchange is bound to.
    pub closed spec fn server_id(&self) -> Seq<u8> {
        self.server_id@
    }

    /// Waiting for the client identity frame.
    pub closed spec fn awaits_identity(&self) -> bool {
        self.phase is AwaitIdentity
    }

    /// Waiting for the credential provider's password for the client.
    pub closed spec fn awaits_password(&self) -> bool {
        self.phase is AwaitPassword
    }

    /// Waiting for the client's SPAKE2 message.
    pub closed spec fn awaits_peer(&self) -> bool {
        self.phase is AwaitPeer
    }

    /// Waiting for the outcome of sending the server's SPAKE2 message.
    pub closed spec fn awaits_reply_sent(&self) -> bool {
        self.phase is SendReply
    }

    /// The handshake has completed or failed.
    pub closed spec fn is_finished(&self) -> bool {
        self.phase is Finished
    }

    /// The client identity as received, decoded leniently from UTF-8.
    pub closed spec fn client_identity(&self) -> Seq<char> {
        match self.phase {
            ServerPhase::AwaitPassword { identity } => identity@,
            _ => Seq::empty(),
        }
    }

    /// The server's SPAKE2 message, once generated and until it is sent.
    pub closed spec fn outbound(&self) -> Seq<u8> {
        match self.phase {
            ServerPhase::AwaitPeer { outbound, .. } => outbound@,
            _ => Seq::empty(),
        }
    }

    /// The inputs of the SPAKE2 exchange, once started and until it finishes.
    pub closed spec fn exchange_inputs(&self) -> Option<ExchangeInputs> {
        match self.phase {
            ServerPhase::AwaitPeer { exchange, .. } => Some(exchange.inputs()),
            ServerPhase::SendReply { exchange, .. } => Some(exchange.inputs()),
            _ => None,
        }
    }

    /// The server's own SPAKE2 message, once the exchange is started and
    /// until it finishes.
    pub closed spec fn own_message(&self) -> Seq<u8> {
        match self.phase {
            ServerPhase::AwaitPeer { exchange, .. } => exchange.own_msg(),
            ServerPhase::SendReply { exchange, .. } => exchange.own_msg(),
            _ => Seq::empty(),
        }
    }

    /// The client's SPAKE2 message as received, while the reply goes out.
    pub closed spec fn peer_message(&self) -> Seq<u8> {
        match self.phase {
            ServerPhase::SendReply { peer_msg, .. } => peer_msg@,
            _ => Seq::empty(),
        }
    }

    /// Whether `event` answers the action this machine last asked for.
    pub open spec fn expects(&self, event: &HandshakeEvent) -> bool {
        match event {
            HandshakeEvent::Received(_) => self.awaits_identity() || self.awaits_peer(),
            HandshakeEvent::Password(_) => self.awaits_password(),
            HandshakeEvent::Sent(_) => self.awaits_reply_sent(),
            HandshakeEvent::Credentials(_) => false,
        }
    }

    /// Starts a server handshake bound to `server_id`; the first action is
    /// to receive the client identity.
    pub fn start(server_id: &[u8]) -> (res: (ServerHandshake, HandshakeAction))
        ensures
            res.0.awaits_identity(),
            res.0.server_id() == server_id@,
            res.1 is Receive,
    {
        (ServerHandshake { server_id: slice_to_vec(server_id), phase: ServerPhase::AwaitIdentity }, HandshakeAction::Receive)
    }

    /// Advances the handshake with the outcome of the last action.
    pub fn step(&mut self, event: HandshakeEvent) -> (action: HandshakeAction)
        requires
            old(self).expects(&event),
        ensures
            final(self).server_id() == old(self).server_id(),
            action is Abort || action is Complete ==> final(self).is_finished(),
            // the identity frame: its password is asked for under the
            // identity decoded leniently from UTF-8
            old(self).awaits_identity() ==> (event matches HandshakeEvent::Received(r) ==> match r {
                None => action is Abort,
                Some(id) => final(self).awaits_password() && final(self).client_identity() == utf8_lossy_chars(id@)
                    && (action matches HandshakeAction::FetchPassword(s) && s@ == utf8_lossy_chars(id@)),
            }),
            // the password: an unknown client aborts, a known one is
            // answered once its SPAKE2 message has arrived
            event matches HandshakeEvent::Password(p) ==> match p {
                None => action is Abort,
                Some(pw) => action is Receive && final(self).awaits_peer() && final(self).outbound().len() == 33
                    && final(self).outbound()[0] == 0x42u8
                    && final(self).exchange_inputs() == Some(
                        (false, pw@, encode_utf8(old(self).client_identity()), old(self).server_id()),
                    ) && final(self).outbound() == final(self).own_message(),
            },
            // the client's SPAKE2 message: the server's own goes out
            old(self).awaits_peer() ==> (event matches HandshakeEvent::Received(r) ==> match r {
                None => action is Abort,
                Some(m) => (action matches HandshakeAction::Send(v) && v@ == old(self).outbound()) && final(self).awaits_reply_sent()
                    && final(self).exchange_inputs() == old(self).exchange_inputs()
                    && final(self).own_message() == old(self).own_message() && final(self).peer_message() == m@,
            }),
            // the reply went out: the exchange finishes with the client's
            // message as received
            event matches HandshakeEvent::Sent(ok) ==> {
                &&& !ok ==> action is Abort
                &&& ok ==> completes_with(
                    action,
                    finished_keys(old(self).exchange_inputs()->0, old(self).own_message(), old(self).peer_message(), true),
                )
                &&& ok && old(self).peer_message().len() != 33 ==> action is Abort
                &&& ok && old(self).peer_message().len() == 33 && old(self).peer_message()[0] != 0x41u8 ==> action is Abort
                // the server's role: it sends under label B, receives under label A
                &&& action matches HandshakeAction::Complete(k) ==> {
                    let i = old(self).exchange_inputs()->0;
                    spake2_shared_secret(i.0, i.1, i.2, i.3, old(self).own_message(), old(self).peer_message())
                        matches Some(secret) && k@.send_key == hkdf_sha256_expand(secret, key_label_b(), 32)
                        && k@.recv_key == hkdf_sha256_expand(secret, key_label_a(), 32)
                }
            },
    {
        proof {
            use_type_invariant(&*self);
        }
        let mut phase = ServerPhase::Finished;
        std::mem::swap(&mut phase, &mut self.phase);
        match event {
            HandshakeEvent::Received(r) => match (r, phase) {
                (Some(id), ServerPhase::AwaitIdentity) => {
                    let identity = utf8_lossy(id.as_slice());
                    let asked = identity.clone();
                    self.phase = ServerPhase::AwaitPassword { identity };
                    HandshakeAction::FetchPassword(asked)
                },
                (Some(peer_msg), ServerPhase::AwaitPeer { exchange, outbound }) => {
                    self.phase = ServerPhase::SendReply { exchange, peer_msg };
                    HandshakeAction::Send(outbound)
                },
                _ => HandshakeAction::Abort,
            },
            HandshakeEvent::Password(p) => match (p, phase) {
                (Some(password), ServerPhase::AwaitPassword { identity }) => {
                    let (exchange, outbound) = spake2_start_b(
                        password.as_slice(),
                        identity.as_str().as_bytes(),
                        self.server_id.as_slice(),
                    );
                    self.phase = ServerPhase::AwaitPeer { exchange, outbound };
                    HandshakeAction::Receive
                },
                _ => HandshakeAction::Abort,
            },
            HandshakeEvent::Sent(ok) => match phase {
                ServerPhase::SendReply { exchange, peer_msg } => {
                    if ok {
                        complete(exchange, peer_msg.as_slice(), true)
                    } else {
                        HandshakeAction::Abort
                    }
                },
                _ => HandshakeAction::Abort,
            },
            HandshakeEvent::Credentials(_) => HandshakeAction::Abort,
        }
    }
}

} // verus!
