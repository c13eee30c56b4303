//! Verified core of a binary TCP server/client framework: wire structures,
//! SPAKE2-keyed AES-256-GCM session framing, server routing and the
//! connection/handshake state machines that the async runtime drives.

pub mod structures;
pub mod codec;
pub mod server;
pub mod client;
pub mod bench;
pub mod s_type_example;
pub mod server_example;
