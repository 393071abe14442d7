//! A cryptographic primitives layer: keyed message hashing (HMAC over a
//! 512-bit digest), authenticated symmetric encryption (a stream-cipher box
//! with an integrity tag), Curve25519 Diffie-Hellman key agreement, and an
//! OS-backed random source.  The arithmetic-heavy primitives are delegated to
//! an outside provider; this crate owns and verifies the security-critical
//! layer around them: exact-length validation, constant-time tag comparison,
//! the padding convention of the authenticated box, the keypair
//! self-consistency invariant, and zero-on-destroy key material.
use vstd::prelude::*;

pub mod auth;
pub mod hash;
pub mod randombytes;
pub mod scalarmult;
pub mod secretbox;

verus! {

/// The all-zero byte sequence of the given length.
pub open spec fn zero_bytes(n: int) -> Seq<u8> {
    Seq::new(n as nat, |i: int| 0u8)
}

/// Copies a byte slice into a fresh vector.  The buffer is allocated at its
/// final size up front, so the bytes — often secret — are never left behind
/// in a smaller allocation that a growing vector would abandon unwiped.
pub(crate) fn copy_bytes(src: &[u8]) -> (r: Vec<u8>)
    ensures
        r@ == src@,
{
    let mut out: Vec<u8> = Vec::with_capacity(src.len());
    let mut i: usize = 0;
    while i < src.len()
        invariant
            i <= src@.len(),
            out@.len() == i,
            forall|j: int| 0 <= j < i ==> out@[j] == src@[j],
        decreases src@.len() - i,
    {
        out.push(src[i]);
        i = i + 1;
    }
    proof {
        assert(out@ =~= src@);
    }
    out
}

} // verus!
