pub mod crypto;
pub mod session;
pub mod handshake;
pub mod spake2_encrypted;
