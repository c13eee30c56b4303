//! The per-connection loop of the server as a state machine. Each round reads
//! a header frame, then a payload frame if the header announces one, has the
//! request served and sends the answer; read failures either end the
//! connection or skip the round, and a handler may take the connection over.

use vstd::prelude::*;

verus! {

/// Transport the server speaks on accepted connections.
#[derive(PartialEq, Eq, Structural, Clone, Copy, Debug)]
pub enum ServerMode {
    /// Plain TCP or TLS.
    Tcp,
    /// WebSocket upgrade over plain TCP or TLS.
    WebSocket,
}

/// Why reading a frame failed, as far as the server distinguishes it.
#[derive(PartialEq, Eq, Structural, Clone, Copy, Debug)]
pub enum ReadFailure {
    ConnectionReset,
    ConnectionAborted,
    BrokenPipe,
    UnexpectedEof,
    /// The codec refused the frame (too large, or failed to decrypt).
    InvalidData,
    Other,
}

/// The peer is gone: the failure ends the connection.
pub open spec fn is_disconnect(f: ReadFailure) -> bool {
    f is ConnectionReset || f is ConnectionAborted || f is BrokenPipe || f is UnexpectedEof
}

/// Result of reading one frame from the connection.
pub enum ReadResult {
    Frame(Vec<u8>),
    Failed(ReadFailure),
    /// The stream ended.
    Ended,
}

/// Classifies a read: the frame, or `Err(true)` when the connection is over
/// (stream ended or peer disconnected), or `Err(false)` when only this frame
/// is lost.
pub fn receive_outcome(read: ReadResult) -> (r: Result<Vec<u8>, bool>)
    ensures
        read matches ReadResult::Frame(f) ==> r == Ok::<Vec<u8>, bool>(f),
        read is Ended ==> r == Err::<Vec<u8>, bool>(true),
        read matches ReadResult::Failed(e) ==> r == Err::<Vec<u8>, bool>(is_disconnect(e)),
{
    match read {
        ReadResult::Frame(f) => Ok(f),
        ReadResult::Ended => Err(true),
        ReadResult::Failed(e) => match e {
            ReadFailure::ConnectionReset | ReadFailure::ConnectionAborted | ReadFailure::BrokenPipe
            | ReadFailure::UnexpectedEof => Err(true),
            ReadFailure::InvalidData | ReadFailure::Other => Err(false),
        },
    }
}

/// What the server does next on a connection.
pub enum ConnectionAction {
    /// Read a header frame.
    ReadMeta,
    /// Read the payload frame the header announced.
    ReadPayload,
    /// Have this request served and send the answer.
    Serve { meta: Vec<u8>, payload: Vec<u8> },
    /// Close the stream and end the connection.
    CloseStream,
    /// End the connection without closing the stream (sending failed).
    EndConnection,
    /// Hand the stream to the handler that asked for it.
    HandOver,
}

enum Phase {
    AwaitMeta,
    AwaitPayload { meta: Vec<u8> },
    Serving,
    Finished,
}

/// Connection loop state.
pub struct ServerConnection {
    phase: Phase,
}

impl ServerConnection {
    pub closed spec fn awaits_meta(&self) -> bool {
        self.phase is AwaitMeta
    }

    pub closed spec fn awaits_payload(&self) -> bool {
        self.phase is AwaitPayload
    }

    /// A request is being served and its answer sent.
    pub closed spec fn is_serving(&self) -> bool {
        self.phase is Serving
    }

    /// The connection is over: closed, ended or handed over.
    pub closed spec fn is_finished(&self) -> bool {
        self.phase is Finished
    }

    /// The header frame whose payload is awaited.
    pub closed spec fn pending_meta(&self) -> Seq<u8> {
        match self.phase {
            Phase::AwaitPayload { meta } => meta@,
            _ => Seq::empty(),
        }
    }

    /// A fresh connection; the first action reads a header.
    pub fn new() -> (res: (ServerConnection, ConnectionAction))
        ensures
            res.0.awaits_meta(),
            res.1 is ReadMeta,
    {
        (ServerConnection { phase: Phase::AwaitMeta }, ConnectionAction::ReadMeta)
    }

    /// A header read finished. `has_payload` is the header's payload flag
    /// (false when the header does not decode); it only matters for a frame.
    pub fn on_meta(&mut self, read: ReadResult, has_payload: bool) -> (action: ConnectionAction)
        requires
            old(self).awaits_meta(),
        ensures
            read matches ReadResult::Frame(meta) ==> if has_payload {
                action is ReadPayload && final(self).awaits_payload() && final(self).pending_meta() == meta@
            } else {
                final(self).is_serving() && (action matches ConnectionAction::Serve { meta: m, payload: p } && m == meta
                    && p@.len() == 0)
            },
            read is Ended ==> action is CloseStream && final(self).is_finished(),
            read matches ReadResult::Failed(e) ==> if is_disconnect(e) {
                action is CloseStream && final(self).is_finished()
            } else {
                action is ReadMeta && final(self).awaits_meta()
            },
    {
        match receive_outcome(read) {
            Ok(meta) => {
                if has_payload {
                    self.phase = Phase::AwaitPayload { meta };
                    ConnectionAction::ReadPayload
                } else {
                    self.phase = Phase::Serving;
                    ConnectionAction::Serve { meta, payload: Vec::new() }
                }
            },
            Err(true) => {
                self.phase = Phase::Finished;
                ConnectionAction::CloseStream
            },
            Err(false) => ConnectionAction::ReadMeta,
        }
    }

    /// A payload read finished. A lost payload frame drops the whole request
    /// and the next header is read.
    pub fn on_payload(&mut self, read: ReadResult) -> (action: ConnectionAction)
        requires
            old(self).awaits_payload(),
        ensures
            read matches ReadResult::Frame(payload) ==> final(self).is_serving()
                && (action matches ConnectionAction::Serve { meta, payload: p } && meta@ == old(self).pending_meta()
                && p == payload),
            read is Ended ==> action is CloseStream && final(self).is_finished(),
            read matches ReadResult::Failed(e) ==> if is_disconnect(e) {
                action is CloseStream && final(self).is_finished()
            } else {
                action is ReadMeta && final(self).awaits_meta()
            },
    {
        let mut phase = Phase::Finished;
        std::mem::swap(&mut phase, &mut self.phase);
        let meta = match phase {
            Phase::AwaitPayload { meta } => meta,
            _ => Vec::new(),
        };
        match receive_outcome(read) {
            Ok(payload) => {
                self.phase = Phase::Serving;
                ConnectionAction::Serve { meta, payload }
            },
            Err(true) => ConnectionAction::CloseStream,
            Err(false) => {
                self.phase = Phase::AwaitMeta;
                ConnectionAction::ReadMeta
            },
        }
    }

    /// The answer went out (`sent`) or failed to; `handoff_requested` tells
    /// whether the handler asked to take the stream over, which takes
    /// precedence.
    pub fn on_reply(&mut self, handoff_requested: bool, sent: bool) -> (action: ConnectionAction)
        requires
            old(self).is_serving(),
        ensures
            handoff_requested ==> action is HandOver && final(self).is_finished(),
            !handoff_requested && !sent ==> action is EndConnection && final(self).is_finished(),
            !handoff_requested && sent ==> action is ReadMeta && final(self).awaits_meta(),
    {
        if handoff_requested {
            self.phase = Phase::Finished;
            ConnectionAction::HandOver
        } else if !sent {
            self.phase = Phase::Finished;
            ConnectionAction::EndConnection
        } else {
            self.phase = Phase::AwaitMeta;
            ConnectionAction::ReadMeta
        }
    }
}

} // verus!
