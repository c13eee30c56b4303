//! The cryptographic primitives the session layer relies on: HKDF-SHA256,
//! AES-256-GCM, SPAKE2 over Ed25519, and UTF-8 decoding of peer identities.
//! Each item here is a thin trusted wrapper around one outside function; its
//! contract states what that function's source and documentation promise.

use vstd::prelude::*;
use vstd::utf8::*;
use aes_gcm::{Aes256Gcm, Key, Nonce};
use aes_gcm::aead::{AeadInPlace, KeyInit};
use hkdf::Hkdf;
use sha2::Sha256;
use spake2::{Ed25519Group, Identity, Password, Spake2};

verus! {

/// Largest plaintext (and associated data) length AES-GCM accepts: 2^36 bytes.
pub const AES_GCM_MAX_LEN: u64 = 68719476736u64;

/// Length in bytes of the AES-GCM authentication tag appended to a ciphertext.
pub const AES_GCM_TAG_LEN: usize = 16usize;

/// Largest output HKDF-SHA256 can expand to: 255 blocks of 32 bytes.
pub const HKDF_SHA256_MAX_LEN: usize = 8160usize;

/// AES-256-GCM encryption of `plaintext` under `key`, `nonce` and associated
/// data `aad`: the ciphertext followed by its 16-byte tag.
pub uninterp spec fn aes256gcm_seal(key: Seq<u8>, nonce: Seq<u8>, aad: Seq<u8>, plaintext: Seq<u8>) -> Seq<u8>;

/// AES-256-GCM authenticated decryption of `ciphertext` (tag included):
/// the plaintext, or `None` when the tag does not verify.
pub uninterp spec fn aes256gcm_open(key: Seq<u8>, nonce: Seq<u8>, aad: Seq<u8>, ciphertext: Seq<u8>) -> Option<Seq<u8>>;

/// HKDF-SHA256 with an empty salt over input key material `ikm`, expanded with
/// `info` to `len` bytes.
pub uninterp spec fn hkdf_sha256_expand(ikm: Seq<u8>, info: Seq<u8>, len: nat) -> Seq<u8>;

/// The characters of `bytes` read as UTF-8, with every invalid sequence
/// replaced by U+FFFD.
pub uninterp spec fn utf8_lossy_chars(bytes: Seq<u8>) -> Seq<char>;

/// The shared secret that `spake2::Spake2::<Ed25519Group>::finish` yields, or
/// `None` where it refuses, for the side (`side_a` for side A), password and
/// identities the exchange was started with, the exchange's own outbound
/// message and the peer's message. The outbound message is the side byte
/// then `B*x + M*pw` (`B*y + N*pw` on side B) for the scalar drawn at start;
/// `B` generates a group of prime order and the scalar is reduced modulo that
/// order, so the message determines the scalar, and the secret is a function
/// of these values alone.
pub uninterp spec fn spake2_shared_secret(
    side_a: bool,
    password: Seq<u8>,
    id_a: Seq<u8>,
    id_b: Seq<u8>,
    own_msg: Seq<u8>,
    peer_msg: Seq<u8>,
) -> Option<Seq<u8>>;

/// `spake2::Spake2<Ed25519Group>`, held opaquely: the state of one side
/// between starting the exchange and finishing it; only `spake2_start_a`,
/// `spake2_start_b` and `spake2_finish` touch it.
#[verifier::external_body]
pub(crate) struct Spake2State {
    inner: Spake2<Ed25519Group>,
}

/// What a SPAKE2 exchange was started with: whether it is side A (the
/// client), the password, and the identities of side A and side B.
pub type ExchangeInputs = (bool, Seq<u8>, Seq<u8>, Seq<u8>);

/// One side's SPAKE2 exchange, with the inputs it was started with and its
/// outbound message.
pub struct Spake2Exchange {
    state: Spake2State,
    inputs: Ghost<ExchangeInputs>,
    own_msg: Ghost<Seq<u8>>,
}

impl Spake2Exchange {
    /// The side, password and identities handed to SPAKE2 at start.
    pub closed spec fn inputs(&self) -> ExchangeInputs {
        self.inputs@
    }

    /// The message this side sent.
    pub closed spec fn own_msg(&self) -> Seq<u8> {
        self.own_msg@
    }
}

/// `AeadInPlace::encrypt_in_place` of `aes_gcm::Aes256Gcm` (built with
/// `KeyInit::new` from `key`). The buffer holds the plaintext on entry. The
/// source rejects a plaintext or associated data longer than 2^36 bytes and
/// then leaves the buffer untouched; otherwise the buffer becomes ciphertext
/// and tag, 16 bytes longer than the plaintext, which AES-GCM decryption under
/// the same key, nonce and associated data turns back into the plaintext.
#[verifier::external_body]
pub(crate) fn aes256gcm_encrypt_in_place(key: &[u8], nonce: &[u8], aad: &[u8], buffer: &mut Vec<u8>) -> (ok: bool)
    requires
        key@.len() == 32,
        nonce@.len() == 12,
    ensures
        ok <==> (old(buffer)@.len() <= AES_GCM_MAX_LEN && aad@.len() <= AES_GCM_MAX_LEN),
        ok ==> final(buffer)@ == aes256gcm_seal(key@, nonce@, aad@, old(buffer)@),
        ok ==> aes256gcm_open(key@, nonce@, aad@, final(buffer)@) == Some(old(buffer)@),
        ok ==> final(buffer)@.len() == old(buffer)@.len() + 16,
        !ok ==> final(buffer)@ == old(buffer)@,
{
    let cipher = Aes256Gcm::new(Key::<Aes256Gcm>::from_slice(key));
    cipher.encrypt_in_place(Nonce::from_slice(nonce), aad, buffer).is_ok()
}

/// `AeadInPlace::decrypt_in_place` of `aes_gcm::Aes256Gcm` (built with
/// `KeyInit::new` from `key`). The buffer holds ciphertext and tag on entry;
/// on success it holds the plaintext, on failure it is left as it was. The
/// source fails on a buffer shorter than the tag and on associated data longer
/// than 2^36 bytes, and AES-GCM decryption gives back what encryption under the
/// same key, nonce and associated data produced.
#[verifier::external_body]
pub(crate) fn aes256gcm_decrypt_in_place(key: &[u8], nonce: &[u8], aad: &[u8], buffer: &mut Vec<u8>) -> (ok: bool)
    requires
        key@.len() == 32,
        nonce@.len() == 12,
    ensures
        ok <==> aes256gcm_open(key@, nonce@, aad@, old(buffer)@) is Some,
        ok ==> aes256gcm_open(key@, nonce@, aad@, old(buffer)@) == Some(final(buffer)@),
        !ok ==> final(buffer)@ == old(buffer)@,
        old(buffer)@.len() < 16 ==> !ok,
        aad@.len() > AES_GCM_MAX_LEN ==> !ok,
        forall|m: Seq<u8>|
            m.len() <= AES_GCM_MAX_LEN && aad@.len() <= AES_GCM_MAX_LEN
                && #[trigger] aes256gcm_seal(key@, nonce@, aad@, m) == old(buffer)@ ==> ok
                && final(buffer)@ == m,
{
    let cipher = Aes256Gcm::new(Key::<Aes256Gcm>::from_slice(key));
    cipher.decrypt_in_place(Nonce::from_slice(nonce), aad, buffer).is_ok()
}

/// `hkdf::Hkdf::<Sha256>::new` with no salt followed by `Hkdf::expand` into a
/// buffer of `len` bytes. The source fails exactly when `len` exceeds 255
/// SHA-256 blocks (8160 bytes).
#[verifier::external_body]
pub(crate) fn hkdf_sha256(ikm: &[u8], info: &[u8], len: usize) -> (okm: Option<Vec<u8>>)
    ensures
        okm is Some <==> len <= HKDF_SHA256_MAX_LEN,
        okm matches Some(v) ==> v@ == hkdf_sha256_expand(ikm@, info@, len as nat) && v@.len() == len,
{
    let mut out = vec![0u8; len];
    match Hkdf::<Sha256>::new(None, ikm).expand(info, &mut out) {
        Ok(()) => Some(out),
        Err(_) => None,
    }
}

/// `spake2::Spake2::<Ed25519Group>::start_a` (side A, system RNG) on
/// `password`, `id_a` and `id_b`. The exchange records these inputs and its
/// outbound message, which is the side byte `b'A'` followed by a 32-byte
/// compressed Edwards point; the point depends on a random scalar, so no more
/// is stated of it.
#[verifier::external_body]
pub(crate) fn spake2_start_a(password: &[u8], id_a: &[u8], id_b: &[u8]) -> (res: (Spake2Exchange, Vec<u8>))
    ensures
        res.0.inputs() == (true, password@, id_a@, id_b@),
        res.0.own_msg() == res.1@,
        res.1@.len() == 33,
        res.1@[0] == 0x41u8,
{
    let (inner, msg) = Spake2::<Ed25519Group>::start_a(&Password::new(password), &Identity::new(id_a), &Identity::new(id_b));
    let exchange = Spake2Exchange {
        state: Spake2State { inner },
        inputs: Ghost((true, password@, id_a@, id_b@)),
        own_msg: Ghost(msg@),
    };
    (exchange, msg)
}

/// `spake2::Spake2::<Ed25519Group>::start_b` (side B, system RNG) on
/// `password`, `id_a` and `id_b`. The exchange records these inputs and its
/// outbound message, which is the side byte `b'B'` followed by a 32-byte
/// compressed Edwards point; the point depends on a random scalar, so no more
/// is stated of it.
#[verifier::external_body]
pub(crate) fn spake2_start_b(password: &[u8], id_a: &[u8], id_b: &[u8]) -> (res: (Spake2Exchange, Vec<u8>))
    ensures
        res.0.inputs() == (false, password@, id_a@, id_b@),
        res.0.own_msg() == res.1@,
        res.1@.len() == 33,
        res.1@[0] == 0x42u8,
{
    let (inner, msg) = Spake2::<Ed25519Group>::start_b(&Password::new(password), &Identity::new(id_a), &Identity::new(id_b));
    let exchange = Spake2Exchange {
        state: Spake2State { inner },
        inputs: Ghost((false, password@, id_a@, id_b@)),
        own_msg: Ghost(msg@),
    };
    (exchange, msg)
}

/// `spake2::Spake2::finish` on `peer_msg`, with its error mapped to `None`.
/// The result is the named secret of the exchange's inputs, its own message
/// and `peer_msg`. The source refuses a peer message whose length is not 33
/// bytes or whose side byte is not the other side's (`b'B'` for side A,
/// `b'A'` for side B), and on success returns a SHA-256 digest (32 bytes).
#[verifier::external_body]
pub(crate) fn spake2_finish(exchange: Spake2Exchange, peer_msg: &[u8]) -> (shared: Option<Vec<u8>>)
    ensures
        match shared {
            Some(k) => spake2_shared_secret(
                exchange.inputs().0,
                exchange.inputs().1,
                exchange.inputs().2,
                exchange.inputs().3,
                exchange.own_msg(),
                peer_msg@,
            ) == Some(k@),
            None => spake2_shared_secret(
                exchange.inputs().0,
                exchange.inputs().1,
                exchange.inputs().2,
                exchange.inputs().3,
                exchange.own_msg(),
                peer_msg@,
            ) is None,
        },
        peer_msg@.len() != 33 ==> shared is None,
        peer_msg@.len() == 33 && peer_msg@[0] != (if exchange.inputs().0 { 0x42u8 } else { 0x41u8 })
            ==> shared is None,
        shared matches Some(k) ==> k@.len() == 32,
{
    exchange.state.inner.finish(peer_msg).ok()
}

/// `String::from_utf8_lossy`, made owned. Valid UTF-8 decodes unchanged.
#[verifier::external_body]
pub(crate) fn utf8_lossy(bytes: &[u8]) -> (s: String)
    ensures
        s@ == utf8_lossy_chars(bytes@),
        valid_utf8(bytes@) ==> s@ == decode_utf8(bytes@),
{
    String::from_utf8_lossy(bytes).into_owned()
}

/// `String::from_utf8`, with its error mapped to `None`: the decoded text
/// exactly when the bytes are valid UTF-8.
#[verifier::external_body]
pub(crate) fn utf8_decode(bytes: Vec<u8>) -> (s: Option<String>)
    ensures
        s is Some <==> valid_utf8(bytes@),
        s matches Some(t) ==> t@ == decode_utf8(bytes@),
{
    String::from_utf8(bytes).ok()
}

} // verus!
