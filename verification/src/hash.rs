//! The digest primitive: SHA-512, delegated to the primitive provider.
use vstd::prelude::*;

verus! {

/// Number of bytes in a digest.
pub const BYTES: usize = 64;

/// The SHA-512 digest of a byte sequence, as the primitive provider computes
/// it: a function of the input bytes alone.
pub uninterp spec fn sha512_of(m: Seq<u8>) -> Seq<u8>;

/// Relies on sodalite::hash: SHA-512 of the input bytes, a pure function of
/// its argument, written into a 64-byte output buffer.
#[verifier::external_body]
fn sha512_raw(m: &[u8]) -> (r: Vec<u8>)
    ensures
        r@ == sha512_of(m@),
        r@.len() == 64,
{
    let mut out = [0u8; 64];
    sodalite::hash(&mut out, m);
    out.to_vec()
}

/// Computes the digest of `input`: deterministic, and exactly 64 bytes for
/// every input, the empty one included.
pub fn hash(input: &[u8]) -> (r: Vec<u8>)
    ensures
        r@ == sha512_of(input@),
        r@.len() == 64,
{
    sha512_raw(input)
}

} // verus!
