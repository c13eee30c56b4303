//! Shared benchmark plumbing: the echo structure type and message, and the
//! port and server binary each benchmark target uses.

use vstd::prelude::*;
use vstd::utf8::encode_utf8_decode_utf8;

pub mod proc;
pub mod stype;
pub mod text;
pub mod util;

verus! {

/// Method id used by every echo server.
pub const ECHO_METHOD_ID: u16 = 1u16;

/// Whether two strings are equal, compared byte by byte.
fn str_eq(a: &str, b: &str) -> (r: bool)
    ensures
        r <==> a@ == b@,
{
    let x = a.as_bytes();
    let y = b.as_bytes();
    proof {
        encode_utf8_decode_utf8(a@);
        encode_utf8_decode_utf8(b@);
    }
    if x.len() != y.len() {
        return false;
    }
    let mut i: usize = 0;
    while i < x.len()
        invariant
            x@.len() == y@.len(),
            a@ == b@ ==> x@ == y@,
            i <= x@.len(),
            forall|j: int| 0 <= j < i ==> x@[j] == y@[j],
        decreases x@.len() - i,
    {
        if x[i] != y[i] {
            assert(x@[i as int] != y@[i as int]);
            return false;
        }
        i = i + 1;
    }
    assert(x@ =~= y@);
    true
}

/// Listen port of each benchmark target; 19000 for any other name.
pub open spec fn port_of(target: Seq<char>) -> u16 {
    if target == "tf_plain"@ {
        19001
    } else if target == "tf_enc"@ {
        19002
    } else if target == "axum"@ {
        19003
    } else if target == "actix"@ {
        19004
    } else if target == "lynn"@ {
        19005
    } else {
        19000
    }
}

/// Default listen port per target so the runner and servers agree.
pub fn default_port(target: &str) -> (p: u16)
    ensures
        p == port_of(target@),
{
    if str_eq(target, "tf_plain") {
        19001
    } else if str_eq(target, "tf_enc") {
        19002
    } else if str_eq(target, "axum") {
        19003
    } else if str_eq(target, "actix") {
        19004
    } else if str_eq(target, "lynn") {
        19005
    } else {
        19000
    }
}

/// Server binary of each benchmark target; none for any other name.
pub open spec fn bin_of(target: Seq<char>) -> Option<Seq<char>> {
    if target == "tf_plain"@ {
        Some("bench_tf_plain_server"@)
    } else if target == "tf_enc"@ {
        Some("bench_tf_enc_server"@)
    } else if target == "axum"@ {
        Some("bench_axum_server"@)
    } else if target == "actix"@ {
        Some("bench_actix_server"@)
    } else if target == "lynn"@ {
        Some("bench_lynn_server"@)
    } else {
        None
    }
}

/// The compiled server binary the runner spawns for a target, if any.
pub fn server_bin(target: &str) -> (r: Option<&'static str>)
    ensures
        match bin_of(target@) {
            Some(b) => r matches Some(s) && s@ == b,
            None => r is None,
        },
{
    if str_eq(target, "tf_plain") {
        Some("bench_tf_plain_server")
    } else if str_eq(target, "tf_enc") {
        Some("bench_tf_enc_server")
    } else if str_eq(target, "axum") {
        Some("bench_axum_server")
    } else if str_eq(target, "actix") {
        Some("bench_actix_server")
    } else if str_eq(target, "lynn") {
        Some("bench_lynn_server")
    } else {
        None
    }
}

} // verus!
