//! Per-connection AES-256-GCM session keys derived from a SPAKE2 secret.
//!
//! A sealed frame is the 8-byte big-endian packet counter followed by the
//! AES-GCM ciphertext and tag. The counter is the nonce (behind four zero
//! bytes) and the associated data, and the receiver accepts a counter only if
//! it is greater than every counter it accepted before, so replayed or
//! reordered frames are refused.

use vstd::prelude::*;
use crate::codec::crypto::{
    aes256gcm_decrypt_in_place, aes256gcm_encrypt_in_place, aes256gcm_open, aes256gcm_seal,
    hkdf_sha256, hkdf_sha256_expand, AES_GCM_MAX_LEN,
};

verus! {

/// The 8 big-endian bytes of `x`.
pub open spec fn be64(x: u64) -> Seq<u8> {
    seq![
        (x >> 56u64) as u8,
        (x >> 48u64) as u8,
        (x >> 40u64) as u8,
        (x >> 32u64) as u8,
        (x >> 24u64) as u8,
        (x >> 16u64) as u8,
        (x >> 8u64) as u8,
        x as u8,
    ]
}

/// The `u64` whose big-endian bytes are the first eight of `s`.
pub open spec fn be64_value(s: Seq<u8>) -> u64
    recommends
        s.len() >= 8,
{
    ((s[0] as u64) << 56u64) | ((s[1] as u64) << 48u64) | ((s[2] as u64) << 40u64) | ((s[3] as u64)
        << 32u64) | ((s[4] as u64) << 24u64) | ((s[5] as u64) << 16u64) | ((s[6] as u64) << 8u64)
        | (s[7] as u64)
}

/// The 12-byte AES-GCM nonce of a packet counter: four zero bytes, then the
/// counter in big-endian order.
pub open spec fn nonce_of(counter: u64) -> Seq<u8> {
    seq![0u8, 0u8, 0u8, 0u8] + be64(counter)
}

/// The wire form of `msg` sealed under `key` with packet counter `counter`.
pub open spec fn sealed_frame(key: Seq<u8>, counter: u64, msg: Seq<u8>) -> Seq<u8> {
    be64(counter) + aes256gcm_seal(key, nonce_of(counter), be64(counter), msg)
}

/// HKDF info label of the key the client sends with: `"aes-tunnel-key-a"`.
pub open spec fn key_label_a() -> Seq<u8> {
    seq![97u8, 101, 115, 45, 116, 117, 110, 110, 101, 108, 45, 107, 101, 121, 45, 97]
}

/// HKDF info label of the key the server sends with: `"aes-tunnel-key-b"`.
pub open spec fn key_label_b() -> Seq<u8> {
    seq![97u8, 101, 115, 45, 116, 117, 110, 110, 101, 108, 45, 107, 101, 121, 45, 98]
}

/// The two HKDF labels are the ASCII bytes of `aes-tunnel-key-a` and
/// `aes-tunnel-key-b`.
pub proof fn lemma_key_labels()
    ensures
        key_label_a() == "aes-tunnel-key-a"@.map_values(|c: char| c as u8),
        key_label_b() == "aes-tunnel-key-b"@.map_values(|c: char| c as u8),
{
    reveal_strlit("aes-tunnel-key-a");
    reveal_strlit("aes-tunnel-key-b");
    assert(key_label_a() =~= "aes-tunnel-key-a"@.map_values(|c: char| c as u8));
    assert(key_label_b() =~= "aes-tunnel-key-b"@.map_values(|c: char| c as u8));
}

/// Abstract state of a session: the two keys and the two packet counters.
pub struct SessionKeysView {
    pub send_key: Seq<u8>,
    pub recv_key: Seq<u8>,
    /// Counter the next sealed frame will carry.
    pub send_counter: u64,
    /// Highest counter accepted so far (0 before any).
    pub recv_counter: u64,
}

/// The session derived from SPAKE2 secret `shared`: key A is the client's
/// sending key and key B the server's; sending starts at counter 1 and
/// nothing has been received.
pub open spec fn derived_keys(shared: Seq<u8>, is_server: bool) -> SessionKeysView {
    let key_a = hkdf_sha256_expand(shared, key_label_a(), 32);
    let key_b = hkdf_sha256_expand(shared, key_label_b(), 32);
    if is_server {
        SessionKeysView { send_key: key_b, recv_key: key_a, send_counter: 1, recv_counter: 0 }
    } else {
        SessionKeysView { send_key: key_a, recv_key: key_b, send_counter: 1, recv_counter: 0 }
    }
}

/// The effect of sealing buffer contents `msg`: the next session state,
/// whether sealing succeeded, and the buffer afterwards. The send counter
/// advances (wrapping) on every call. The last counter value is never used; a
/// plaintext too long for AES-GCM leaves the buffer empty.
pub open spec fn seal_step(k: SessionKeysView, msg: Seq<u8>) -> (SessionKeysView, bool, Seq<u8>) {
    let c = k.send_counter;
    let next = SessionKeysView {
        send_key: k.send_key,
        recv_key: k.recv_key,
        send_counter: if c == u64::MAX { 0 } else { (c + 1) as u64 },
        recv_counter: k.recv_counter,
    };
    if c == u64::MAX {
        (next, false, msg)
    } else if msg.len() > AES_GCM_MAX_LEN {
        (next, false, Seq::empty())
    } else {
        (next, true, sealed_frame(k.send_key, c, msg))
    }
}

/// The effect of opening buffer contents `frame`: the next session state,
/// whether a plaintext was recovered, and the buffer afterwards. A frame
/// shorter than its counter, carrying the last counter value, or carrying a
/// counter not above the highest accepted one is refused with nothing changed.
/// Otherwise the counter is recorded as accepted before authentication; on an
/// authentication failure the buffer keeps only the counter bytes.
pub open spec fn open_step(k: SessionKeysView, frame: Seq<u8>) -> (SessionKeysView, bool, Seq<u8>) {
    if frame.len() < 8 {
        (k, false, frame)
    } else {
        let c = be64_value(frame);
        if c == u64::MAX || c <= k.recv_counter {
            (k, false, frame)
        } else {
            let next = SessionKeysView {
                send_key: k.send_key,
                recv_key: k.recv_key,
                send_counter: k.send_counter,
                recv_counter: c,
            };
            match aes256gcm_open(k.recv_key, nonce_of(c), be64(c), frame.subrange(8, frame.len() as int)) {
                Some(p) => (next, true, p),
                None => (next, false, frame.subrange(0, 8)),
            }
        }
    }
}

/// Reading back the big-endian bytes of a counter gives the counter.
pub proof fn lemma_be64_roundtrip(x: u64)
    ensures
        be64(x).len() == 8,
        be64_value(be64(x)) == x,
{
    let b0 = (x >> 56u64) as u8;
    let b1 = (x >> 48u64) as u8;
    let b2 = (x >> 40u64) as u8;
    let b3 = (x >> 32u64) as u8;
    let b4 = (x >> 24u64) as u8;
    let b5 = (x >> 16u64) as u8;
    let b6 = (x >> 8u64) as u8;
    let b7 = x as u8;
    assert(((b0 as u64) << 56u64) | ((b1 as u64) << 48u64) | ((b2 as u64) << 40u64) | ((b3 as u64)
        << 32u64) | ((b4 as u64) << 24u64) | ((b5 as u64) << 16u64) | ((b6 as u64) << 8u64) | (b7 as u64)
        == x) by (bit_vector)
        requires
            b0 == (x >> 56u64) as u8,
            b1 == (x >> 48u64) as u8,
            b2 == (x >> 40u64) as u8,
            b3 == (x >> 32u64) as u8,
            b4 == (x >> 24u64) as u8,
            b5 == (x >> 16u64) as u8,
            b6 == (x >> 8u64) as u8,
            b7 == x as u8,
    ;
}

/// The roles of the derived keys: the client sends with the key expanded
/// under label A and receives with the one under label B, the server the
/// other way round; both start sending at counter 1 with nothing received.
pub proof fn lemma_derived_keys_roles(shared: Seq<u8>)
    ensures
        derived_keys(shared, false).send_key == hkdf_sha256_expand(shared, key_label_a(), 32),
        derived_keys(shared, false).recv_key == hkdf_sha256_expand(shared, key_label_b(), 32),
        derived_keys(shared, true).send_key == hkdf_sha256_expand(shared, key_label_b(), 32),
        derived_keys(shared, true).recv_key == hkdf_sha256_expand(shared, key_label_a(), 32),
        derived_keys(shared, false).send_counter == 1 && derived_keys(shared, false).recv_counter == 0,
        derived_keys(shared, true).send_counter == 1 && derived_keys(shared, true).recv_counter == 0,
{
}

/// A frame is cut into its counter bytes and the ciphertext after them.
proof fn lemma_sealed_frame_parts(key: Seq<u8>, c: u64, m: Seq<u8>)
    ensures
        sealed_frame(key, c, m).len() >= 8,
        be64_value(sealed_frame(key, c, m)) == c,
        sealed_frame(key, c, m).subrange(8, sealed_frame(key, c, m).len() as int)
            == aes256gcm_seal(key, nonce_of(c), be64(c), m),
{
    let f = sealed_frame(key, c, m);
    lemma_be64_roundtrip(c);
    assert(f.subrange(0, 8) =~= be64(c));
    assert(f.subrange(8, f.len() as int) =~= aes256gcm_seal(key, nonce_of(c), be64(c), m));
    assert(be64_value(f) == be64_value(be64(c)));
}

/// Keys derived from the same SPAKE2 secret pair up: what one side seals, the
/// other side opens with the same key, and each side's first sending counter
/// is above what the other has accepted.
pub proof fn lemma_derived_keys_pair(shared: Seq<u8>)
    ensures
        derived_keys(shared, false).send_key == derived_keys(shared, true).recv_key,
        derived_keys(shared, true).send_key == derived_keys(shared, false).recv_key,
        derived_keys(shared, true).recv_counter < derived_keys(shared, false).send_counter < u64::MAX,
        derived_keys(shared, false).recv_counter < derived_keys(shared, true).send_counter < u64::MAX,
{
}

/// A frame that was accepted once is refused when it arrives again, and the
/// refusal changes nothing.
pub proof fn lemma_replayed_frame_rejected(k: SessionKeysView, frame: Seq<u8>)
    ensures
        open_step(k, frame).1 ==> !open_step(open_step(k, frame).0, frame).1
            && open_step(open_step(k, frame).0, frame).0 == open_step(k, frame).0,
{
}

/// Once a frame has been accepted, every frame whose counter is not above that
/// frame's counter (a replay or a reordered older frame) is refused with
/// nothing changed.
pub proof fn lemma_reordered_frame_rejected(k: SessionKeysView, accepted: Seq<u8>, later: Seq<u8>)
    requires
        open_step(k, accepted).1,
        later.len() >= 8,
        be64_value(later) <= be64_value(accepted),
    ensures
        open_step(open_step(k, accepted).0, later) == (open_step(k, accepted).0, false, later),
{
}

/// A frame with a fresh counter consumes that counter even when its tag does
/// not verify: the counter is recorded, and any later frame carrying a counter
/// not above it, the untampered original among them, is refused with nothing
/// changed.
pub proof fn lemma_failed_frame_consumes_counter(k: SessionKeysView, forged: Seq<u8>, later: Seq<u8>)
    requires
        forged.len() >= 8,
        k.recv_counter < be64_value(forged) < u64::MAX,
        later.len() >= 8,
        be64_value(later) <= be64_value(forged),
    ensures
        open_step(k, forged).0.recv_counter == be64_value(forged),
        open_step(open_step(k, forged).0, later) == (open_step(k, forged).0, false, later),
{
}

/// Opening never lowers the highest accepted counter, and never touches the
/// keys or the sending counter.
pub proof fn lemma_open_monotonic(k: SessionKeysView, frame: Seq<u8>)
    ensures
        open_step(k, frame).0.recv_counter >= k.recv_counter,
        open_step(k, frame).0.send_key == k.send_key,
        open_step(k, frame).0.recv_key == k.recv_key,
        open_step(k, frame).0.send_counter == k.send_counter,
{
}

/// Every sealed frame starts with the counter it was sealed with, and two
/// successive successful seals carry strictly increasing counters, so no
/// nonce is used twice.
pub proof fn lemma_seal_counters_increase(k: SessionKeysView, m1: Seq<u8>, m2: Seq<u8>)
    requires
        seal_step(k, m1).1,
        seal_step(seal_step(k, m1).0, m2).1,
    ensures
        be64_value(seal_step(k, m1).2) == k.send_counter,
        be64_value(seal_step(seal_step(k, m1).0, m2).2) == k.send_counter + 1,
{
    lemma_sealed_frame_parts(k.send_key, k.send_counter, m1);
    lemma_sealed_frame_parts(k.send_key, (k.send_counter + 1) as u64, m2);
}

/// AES-GCM decryption under `key` with the nonce and associated data of
/// counter `c` turns the sealing of `m` back into `m`.
pub open spec fn opens_to(key: Seq<u8>, c: u64, m: Seq<u8>) -> bool {
    aes256gcm_open(key, nonce_of(c), be64(c), aes256gcm_seal(key, nonce_of(c), be64(c), m)) == Some(m)
}

/// The frames that sealing `ms` one after the other produces, starting from
/// session state `k`.
pub open spec fn seal_all(k: SessionKeysView, ms: Seq<Seq<u8>>) -> Seq<Seq<u8>>
    decreases ms.len(),
{
    if ms.len() == 0 {
        Seq::empty()
    } else {
        seq![seal_step(k, ms[0]).2] + seal_all(seal_step(k, ms[0]).0, ms.drop_first())
    }
}

/// What opening `frames` one after the other gives, starting from session
/// state `k`: the plaintext of each accepted frame, `None` for a refused one.
pub open spec fn open_all(k: SessionKeysView, frames: Seq<Seq<u8>>) -> Seq<Option<Seq<u8>>>
    decreases frames.len(),
{
    if frames.len() == 0 {
        Seq::empty()
    } else {
        let (next, ok, out) = open_step(k, frames[0]);
        seq![if ok { Some(out) } else { None }] + open_all(next, frames.drop_first())
    }
}

/// Frames sealed in order by one side open in the same order on the other
/// side, each to its message: the receiver's key is the sender's, the
/// receiver has accepted no counter at or above the sender's next one, the
/// counters do not run out, every message fits AES-GCM, and each frame opens
/// under its key as `seal_in_place` ensures of every frame it seals.
pub proof fn lemma_frames_open_in_order(ks: SessionKeysView, kr: SessionKeysView, ms: Seq<Seq<u8>>)
    requires
        kr.recv_key == ks.send_key,
        kr.recv_counter < ks.send_counter,
        ks.send_counter + ms.len() < u64::MAX,
        forall|i: int| 0 <= i < ms.len() ==> (#[trigger] ms[i]).len() <= AES_GCM_MAX_LEN,
        forall|i: int| 0 <= i < ms.len() ==> opens_to(ks.send_key, (ks.send_counter + i) as u64, #[trigger] ms[i]),
    ensures
        open_all(kr, seal_all(ks, ms)) == ms.map_values(|m: Seq<u8>| Some(m)),
    decreases ms.len(),
{
    if ms.len() > 0 {
        let c = ks.send_counter;
        let m0 = ms[0];
        assert(opens_to(ks.send_key, (ks.send_counter + 0) as u64, ms[0]));
        let (ks2, ok, f0) = seal_step(ks, m0);
        assert(ok && f0 == sealed_frame(ks.send_key, c, m0));
        lemma_sealed_frame_parts(ks.send_key, c, m0);
        let (kr2, ok2, out) = open_step(kr, f0);
        assert(ok2 && out == m0 && kr2.recv_counter == c && kr2.recv_key == kr.recv_key);
        let rest = ms.drop_first();
        assert forall|i: int| 0 <= i < rest.len() implies opens_to(ks2.send_key, (ks2.send_counter + i) as u64, #[trigger] rest[i]) by {
            assert(rest[i] == ms[i + 1]);
            assert(opens_to(ks.send_key, (ks.send_counter + (i + 1)) as u64, ms[i + 1]));
        }
        assert forall|i: int| 0 <= i < rest.len() implies (#[trigger] rest[i]).len() <= AES_GCM_MAX_LEN by {
            assert(rest[i] == ms[i + 1]);
        }
        lemma_frames_open_in_order(ks2, kr2, rest);
        assert(seal_all(ks, ms).drop_first() =~= seal_all(ks2, rest));
        assert(open_all(kr, seal_all(ks, ms)) =~= ms.map_values(|m: Seq<u8>| Some(m)));
    } else {
        assert(open_all(kr, seal_all(ks, ms)) =~= ms.map_values(|m: Seq<u8>| Some(m)));
    }
}

/// The session of the two sides of one SPAKE2 secret: frames one side seals,
/// in order, the other side opens, in order, to the same messages.
pub proof fn lemma_session_round_trip(shared: Seq<u8>, is_server: bool, ms: Seq<Seq<u8>>)
    requires
        ms.len() + 1 < u64::MAX,
        forall|i: int| 0 <= i < ms.len() ==> (#[trigger] ms[i]).len() <= AES_GCM_MAX_LEN,
        forall|i: int|
            0 <= i < ms.len() ==> opens_to(derived_keys(shared, is_server).send_key, (1 + i) as u64, #[trigger] ms[i]),
    ensures
        open_all(derived_keys(shared, !is_server), seal_all(derived_keys(shared, is_server), ms)) == ms.map_values(
            |m: Seq<u8>| Some(m),
        ),
{
    lemma_frames_open_in_order(derived_keys(shared, is_server), derived_keys(shared, !is_server), ms);
}

/// Big-endian bytes of `x`.
fn counter_bytes(x: u64) -> (r: Vec<u8>)
    ensures
        r@ == be64(x),
{
    let mut r: Vec<u8> = Vec::new();
    r.push((x >> 56u64) as u8);
    r.push((x >> 48u64) as u8);
    r.push((x >> 40u64) as u8);
    r.push((x >> 32u64) as u8);
    r.push((x >> 24u64) as u8);
    r.push((x >> 16u64) as u8);
    r.push((x >> 8u64) as u8);
    r.push(x as u8);
    assert(r@ =~= be64(x));
    r
}

/// The counter whose big-endian bytes start `b`.
fn counter_from_bytes(b: &[u8]) -> (x: u64)
    requires
        b@.len() >= 8,
    ensures
        x == be64_value(b@),
{
    ((b[0] as u64) << 56u64) | ((b[1] as u64) << 48u64) | ((b[2] as u64) << 40u64) | ((b[3] as u64)
        << 32u64) | ((b[4] as u64) << 24u64) | ((b[5] as u64) << 16u64) | ((b[6] as u64) << 8u64)
        | (b[7] as u64)
}

/// The 12-byte nonce of a packet counter.
pub fn nonce_from_counter(counter: u64) -> (nonce: Vec<u8>)
    ensures
        nonce@ == nonce_of(counter),
{
    let mut nonce: Vec<u8> = Vec::new();
    nonce.push(0u8);
    nonce.push(0u8);
    nonce.push(0u8);
    nonce.push(0u8);
    let mut tail = counter_bytes(counter);
    nonce.append(&mut tail);
    assert(nonce@ =~= nonce_of(counter));
    nonce
}

fn label_a() -> (r: Vec<u8>)
    ensures
        r@ == key_label_a(),
{
    let r: Vec<u8> = vec![97u8, 101, 115, 45, 116, 117, 110, 110, 101, 108, 45, 107, 101, 121, 45, 97];
    assert(r@ =~= key_label_a());
    r
}

fn label_b() -> (r: Vec<u8>)
    ensures
        r@ == key_label_b(),
{
    let r: Vec<u8> = vec![97u8, 101, 115, 45, 116, 117, 110, 110, 101, 108, 45, 107, 101, 121, 45, 98];
    assert(r@ =~= key_label_b());
    r
}

/// Directional AES-256-GCM keys of one connection with their packet counters.
pub struct SessionKeys {
    send_key: Vec<u8>,
    recv_key: Vec<u8>,
    send_counter: u64,
    recv_counter: u64,
}

impl View for SessionKeys {
    type V = SessionKeysView;

    closed spec fn view(&self) -> SessionKeysView {
        SessionKeysView {
            send_key: self.send_key@,
            recv_key: self.recv_key@,
            send_counter: self.send_counter,
            recv_counter: self.recv_counter,
        }
    }
}

impl SessionKeys {
    #[verifier::type_invariant]
    spec fn keys_are_aes256(&self) -> bool {
        self.send_key@.len() == 32 && self.recv_key@.len() == 32
    }

    /// Derives both directions' keys from the SPAKE2 secret `shared` with
    /// HKDF-SHA256 (labels `aes-tunnel-key-a` and `-b`); the server sends with
    /// key B and receives with key A, the client the other way round.
    pub fn derive_session_keys(shared: &[u8], is_server: bool) -> (keys: Option<SessionKeys>)
        ensures
            keys matches Some(k) && k@ == derived_keys(shared@, is_server),
            keys matches Some(k) && k@.send_counter == 1 && k@.recv_counter == 0,
            !is_server ==> (keys matches Some(k) && k@.send_key == hkdf_sha256_expand(shared@, key_label_a(), 32)
                && k@.recv_key == hkdf_sha256_expand(shared@, key_label_b(), 32)),
            is_server ==> (keys matches Some(k) && k@.send_key == hkdf_sha256_expand(shared@, key_label_b(), 32)
                && k@.recv_key == hkdf_sha256_expand(shared@, key_label_a(), 32)),
    {
        let key_a = match hkdf_sha256(shared, label_a().as_slice(), 32) {
            Some(k) => k,
            None => return None,
        };
        let key_b = match hkdf_sha256(shared, label_b().as_slice(), 32) {
            Some(k) => k,
            None => return None,
        };
        let (send_key, recv_key) = if is_server {
            (key_b, key_a)
        } else {
            (key_a, key_b)
        };
        Some(SessionKeys { send_key, recv_key, send_counter: 1, recv_counter: 0 })
    }

    /// Encrypts the buffer in place into a frame: the current send counter in
    /// big-endian order, then the ciphertext and tag sealed with that counter
    /// as nonce and associated data. Returns `None` when the counter is
    /// exhausted or the plaintext is too long for AES-GCM.
    pub fn seal_in_place(&mut self, buf: &mut Vec<u8>) -> (r: Option<()>)
        ensures
            (final(self)@, r is Some, final(buf)@) == seal_step(old(self)@, old(buf)@),
            r is Some ==> final(buf)@.len() == old(buf)@.len() + 24,
            r is Some ==> opens_to(old(self)@.send_key, old(self)@.send_counter, old(buf)@),
    {
        proof {
            use_type_invariant(&*self);
        }
        let counter = self.send_counter;
        self.send_counter = counter.wrapping_add(1);
        if counter == u64::MAX {
            return None;
        }
        let mut frame = counter_bytes(counter);
        let nonce = nonce_from_counter(counter);
        let mut wrapped: Vec<u8> = Vec::new();
        std::mem::swap(&mut wrapped, buf);
        if !aes256gcm_encrypt_in_place(self.send_key.as_slice(), nonce.as_slice(), frame.as_slice(), &mut wrapped) {
            return None;
        }
        frame.append(&mut wrapped);
        *buf = frame;
        Some(())
    }

    /// Decrypts a frame in place. The frame's counter must exceed every counter
    /// accepted before (replayed and reordered frames are refused) and is
    /// recorded as soon as it passes that test; the buffer then becomes the
    /// plaintext, or keeps only the counter bytes when authentication fails.
    /// A frame that the peer sealed from `m` under this session's receive key
    /// with a fresh counter opens to `m`.
    pub fn open_in_place(&mut self, buf: &mut Vec<u8>) -> (r: Option<()>)
        ensures
            (final(self)@, r is Some, final(buf)@) == open_step(old(self)@, old(buf)@),
            forall|c: u64, m: Seq<u8>|
                #[trigger] sealed_frame(old(self)@.recv_key, c, m) == old(buf)@ && old(self)@.recv_counter < c
                    && c < u64::MAX && m.len() <= AES_GCM_MAX_LEN ==> r is Some && final(buf)@ == m
                    && final(self)@.recv_counter == c,
            // a fresh counter is recorded whether or not the tag verifies
            old(buf)@.len() >= 8 && old(self)@.recv_counter < be64_value(old(buf)@) < u64::MAX
                ==> final(self)@.recv_counter == be64_value(old(buf)@),
            // anything else is refused with nothing changed
            !(old(buf)@.len() >= 8 && old(self)@.recv_counter < be64_value(old(buf)@) < u64::MAX) ==> r is None
                && final(self)@ == old(self)@ && final(buf)@ == old(buf)@,
            final(self)@.send_key == old(self)@.send_key && final(self)@.recv_key == old(self)@.recv_key
                && final(self)@.send_counter == old(self)@.send_counter,
    {
        proof {
            use_type_invariant(&*self);
        }
        let ghost old_buf = buf@;
        let ghost old_keys = self@;
        if buf.len() < 8 {
            return None;
        }
        let counter = counter_from_bytes(buf.as_slice());
        proof {
            assert forall|c: u64, m: Seq<u8>|
                #[trigger] sealed_frame(old_keys.recv_key, c, m) == old_buf implies c == counter by {
                lemma_sealed_frame_parts(old_keys.recv_key, c, m);
            }
        }
        if counter == u64::MAX {
            return None;
        }
        if counter <= self.recv_counter {
            return None;
        }
        self.recv_counter = counter;
        let aad = counter_bytes(counter);
        let nonce = nonce_from_counter(counter);
        let mut ciphertext = buf.split_off(8);
        proof {
            assert forall|c: u64, m: Seq<u8>|
                #[trigger] sealed_frame(old_keys.recv_key, c, m) == old_buf implies ciphertext@
                == aes256gcm_seal(old_keys.recv_key, nonce@, aad@, m) by {
                lemma_sealed_frame_parts(old_keys.recv_key, c, m);
            }
        }
        if !aes256gcm_decrypt_in_place(self.recv_key.as_slice(), nonce.as_slice(), aad.as_slice(), &mut ciphertext) {
            return None;
        }
        *buf = ciphertext;
        Some(())
    }
}

} // verus!
