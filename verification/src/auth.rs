//! Keyed message authentication: HMAC over the 512-bit digest, with a
//! constant-time tag check.
use vstd::prelude::*;
use zeroize::Zeroize;
use crate::hash::{hash, sha512_of};

verus! {

/// Number of bytes in an authentication key: exactly the digest size.  The
/// construction neither hashes oversized keys down nor pads undersized ones;
/// callers must supply exactly this many bytes.
pub const KEYBYTES: usize = 64;

/// Number of bytes in an authentication tag.
pub const BYTES: usize = 64;

/// The key with the given pad byte XORed into every key byte.
pub open spec fn xor_pad(k: Seq<u8>, pad: u8) -> Seq<u8> {
    Seq::new(k.len(), |i: int| k[i] ^ pad)
}

/// The HMAC of `m` under `k`: the inner pad byte 0x36 and the outer pad byte
/// 0x5c are XORed into every key byte, and the digest is applied twice.
pub open spec fn hmac_of(k: Seq<u8>, m: Seq<u8>) -> Seq<u8> {
    sha512_of(xor_pad(k, 0x5c) + sha512_of(xor_pad(k, 0x36) + m))
}

/// Whether `tag` is the authentication tag of `m` under `k`.
pub open spec fn tag_matches(tag: Seq<u8>, m: Seq<u8>, k: Seq<u8>) -> bool {
    tag == hmac_of(k, m)
}

/// The verifier's accumulator over the first `i` byte pairs: the bitwise OR
/// of the XOR of every pair, so every byte contributes no matter where a
/// mismatch sits.
pub open spec fn ct_or(a: Seq<u8>, b: Seq<u8>, i: int) -> u8
    decreases i,
{
    if i <= 0 {
        0u8
    } else {
        ct_or(a, b, i - 1) | (a[i - 1] ^ b[i - 1])
    }
}

/// Law: the accumulator over every byte pair is zero exactly when the two
/// sequences agree everywhere, so the branch-free check decides equality.
pub proof fn lemma_ct_or_zero(a: Seq<u8>, b: Seq<u8>, i: int)
    requires
        0 <= i <= a.len(),
        i <= b.len(),
    ensures
        (ct_or(a, b, i) == 0) <==> (forall|j: int| 0 <= j < i ==> a[j] == b[j]),
    decreases i,
{
    if i > 0 {
        lemma_ct_or_zero(a, b, i - 1);
        let x = ct_or(a, b, i - 1);
        let p = a[i - 1];
        let q = b[i - 1];
        assert(((x | (p ^ q)) == 0) <==> (x == 0 && p == q)) by (bit_vector);
    }
}

/// An HMAC key: exactly `KEYBYTES` bytes, wiped on destruction.  No equality
/// or ordering is offered on purpose: secrets are never compared outside the
/// constant-time verifier.
pub struct Key {
    key: Vec<u8>,
}

impl View for Key {
    type V = Seq<u8>;

    closed spec fn view(&self) -> Seq<u8> {
        self.key@
    }
}

impl Key {
    #[verifier::type_invariant]
    spec fn wf(self) -> bool {
        self.key@.len() == 64
    }

    /// Builds a key from exactly `KEYBYTES` bytes; any other length is a
    /// caller bug, ruled out by precondition rather than reported.
    pub fn from(key: &[u8]) -> (r: Key)
        requires
            key@.len() == 64,
        ensures
            r@ == key@,
    {
        Key { key: crate::copy_bytes(key) }
    }

    /// The canonical fixed-width raw-byte encoding of the key, for
    /// persistence or transmission; `from` of these bytes rebuilds the key.
    pub fn as_bytes(&self) -> (r: &[u8])
        ensures
            r@ == self@,
            r@.len() == 64,
    {
        proof {
            use_type_invariant(self);
        }
        self.key.as_slice()
    }
}

impl Drop for Key {
    /// Relies on zeroize::Zeroize for byte slices: a volatile write the
    /// optimizer cannot elide overwrites every secret byte with zero before
    /// the buffer is released.
    #[verifier::external_body]
    fn drop(&mut self)
        opens_invariants none
        no_unwind
    {
        self.key.as_mut_slice().zeroize();
    }
}

/// Computes the authentication tag of `data` under `key`: exactly the HMAC
/// construction over the digest, 64 bytes long.
pub fn auth(data: &[u8], key: &Key) -> (r: Vec<u8>)
    requires
        data@.len() + 64 <= usize::MAX,
    ensures
        r@ == hmac_of(key@, data@),
        r@.len() == 64,
{
    proof {
        use_type_invariant(key);
    }
    // both intermediate buffers hold key-derived bytes: allocate them at
    // their final size, so no partial copy is abandoned by a reallocation
    let mut inner: Vec<u8> = Vec::with_capacity(data.len() + 64);
    let mut i: usize = 0;
    while i < 64
        invariant
            i <= 64,
            key@.len() == 64,
            inner@.len() == i,
            forall|j: int| 0 <= j < i ==> inner@[j] == (key@[j] ^ 0x36),
        decreases 64 - i,
    {
        inner.push(key.key[i] ^ 0x36);
        i = i + 1;
    }
    let mut i: usize = 0;
    while i < data.len()
        invariant
            i <= data@.len(),
            key@.len() == 64,
            inner@.len() == 64 + i,
            forall|j: int| 0 <= j < 64 ==> inner@[j] == (key@[j] ^ 0x36),
            forall|j: int| 64 <= j < 64 + i ==> inner@[j] == data@[j - 64],
        decreases data@.len() - i,
    {
        inner.push(data[i]);
        i = i + 1;
    }
    proof {
        assert(inner@ =~= xor_pad(key@, 0x36) + data@);
    }
    let inner_hash = hash(inner.as_slice());
    let mut outer: Vec<u8> = Vec::with_capacity(128);
    let mut i: usize = 0;
    while i < 64
        invariant
            i <= 64,
            key@.len() == 64,
            outer@.len() == i,
            forall|j: int| 0 <= j < i ==> outer@[j] == (key@[j] ^ 0x5c),
        decreases 64 - i,
    {
        outer.push(key.key[i] ^ 0x5c);
        i = i + 1;
    }
    let mut i: usize = 0;
    while i < inner_hash.len()
        invariant
            i <= inner_hash@.len(),
            inner_hash@.len() == 64,
            key@.len() == 64,
            outer@.len() == 64 + i,
            forall|j: int| 0 <= j < 64 ==> outer@[j] == (key@[j] ^ 0x5c),
            forall|j: int| 64 <= j < 64 + i ==> outer@[j] == inner_hash@[j - 64],
        decreases inner_hash@.len() - i,
    {
        outer.push(inner_hash[i]);
        i = i + 1;
    }
    proof {
        assert(outer@ =~= xor_pad(key@, 0x5c) + sha512_of(xor_pad(key@, 0x36) + data@));
    }
    hash(outer.as_slice())
}

/// Recomputes the tag of `data` under `key` and compares it with `tag`
/// through the constant-time accumulator: the result says whether they are
/// equal, and is derived from the OR-of-XORs over all 64 byte pairs, with no
/// early exit on a mismatch.
pub fn verify(tag: &[u8], data: &[u8], key: &Key) -> (r: bool)
    requires
        tag@.len() == 64,
        data@.len() + 64 <= usize::MAX,
    ensures
        r == (ct_or(tag@, hmac_of(key@, data@), 64) == 0),
        r == tag_matches(tag@, data@, key@),
{
    let expected = auth(data, key);
    let mut acc: u8 = 0;
    let mut i: usize = 0;
    while i < 64
        invariant
            i <= 64,
            tag@.len() == 64,
            expected@.len() == 64,
            expected@ == hmac_of(key@, data@),
            acc == ct_or(tag@, expected@, i as int),
        decreases 64 - i,
    {
        acc = acc | (tag[i] ^ expected[i]);
        i = i + 1;
    }
    proof {
        lemma_ct_or_zero(tag@, expected@, 64);
        if forall|j: int| 0 <= j < 64 ==> tag@[j] == expected@[j] {
            assert(tag@ =~= expected@);
        }
    }
    acc == 0
}

/// Law: a tag computed by the HMAC construction always verifies against the
/// same message and key.
pub proof fn lemma_auth_then_verify(m: Seq<u8>, k: Seq<u8>)
    ensures
        tag_matches(hmac_of(k, m), m, k),
{
}

/// Law: any tag other than the one the HMAC construction yields for the
/// message and key — a tag with any bit flipped included — is refused.  That
/// a change of the message or of the key also changes the construction's tag
/// rests on collision-freedom of the digest, which stays uninterpreted here.
pub proof fn lemma_tampered_tag_refused(tag: Seq<u8>, m: Seq<u8>, k: Seq<u8>)
    requires
        tag != hmac_of(k, m),
    ensures
        !tag_matches(tag, m, k),
{
}

} // verus!
