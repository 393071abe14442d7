//! Curve25519 Diffie-Hellman key agreement: keypair generation, the
//! secret-to-public self-consistency invariant, and the shared-point
//! computation.  The curve arithmetic itself is the primitive provider's;
//! this module owns key lifecycle, validation, and the textual encoding of
//! public keys.
//!
//! No check is made that a peer-supplied public point is not a small-order
//! or identity point: callers needing contributory behaviour must validate
//! peer keys themselves.
use vstd::prelude::*;
use core::cmp::Ordering;
use zeroize::Zeroize;

verus! {

/// Number of bytes in a public curve point.
pub const BYTES: usize = 32;

/// Number of bytes in a secret scalar.
pub const SCALARBYTES: usize = 32;

/// The Curve25519 product of point `p` and scalar `n`, as the primitive
/// provider computes it: a function of the two 32-byte arguments alone.
pub uninterp spec fn curve_mult(n: Seq<u8>, p: Seq<u8>) -> Seq<u8>;

/// The Curve25519 product of the fixed base point and scalar `n`, as the
/// primitive provider computes it: a function of the 32-byte scalar alone.
pub uninterp spec fn base_mult(n: Seq<u8>) -> Seq<u8>;

/// Relies on sodalite::scalarmult: Curve25519 scalar multiplication of point
/// `p` by scalar `n`, a pure function of its arguments, always 32 bytes.
#[verifier::external_body]
fn scalarmult_raw(n: &[u8], p: &[u8]) -> (r: Vec<u8>)
    requires
        n@.len() == 32,
        p@.len() == 32,
    ensures
        r@ == curve_mult(n@, p@),
        r@.len() == 32,
{
    let mut q = [0u8; 32];
    sodalite::scalarmult(&mut q, n.try_into().unwrap(), p.try_into().unwrap());
    q.to_vec()
}

/// Relies on sodalite::scalarmult_base: Curve25519 multiplication of the
/// fixed base point by scalar `n`, a pure function of the scalar, 32 bytes.
#[verifier::external_body]
fn scalarmult_base_raw(n: &[u8]) -> (r: Vec<u8>)
    requires
        n@.len() == 32,
    ensures
        r@ == base_mult(n@),
        r@.len() == 32,
{
    let mut q = [0u8; 32];
    sodalite::scalarmult_base(&mut q, n.try_into().unwrap());
    q.to_vec()
}

/// The Crockford base-32 text of a byte sequence.
pub uninterp spec fn b32_of(b: Seq<u8>) -> Seq<char>;

/// What Crockford base-32 decoding makes of a text: the bytes, or nothing
/// on malformed input.
pub uninterp spec fn b32_decoded(s: Seq<char>) -> Option<Seq<u8>>;

/// Relies on base32::encode with the Crockford alphabet: the text depends on
/// the input bytes alone, and base32::decode maps it back to exactly those
/// bytes.
#[verifier::external_body]
fn b32_encode(b: &[u8]) -> (r: String)
    ensures
        r@ == b32_of(b@),
        b32_decoded(r@) == Some(b@),
{
    base32::encode(base32::Alphabet::Crockford, b)
}

/// Relies on base32::decode with the Crockford alphabet: the result depends
/// on the text alone; malformed text decodes to nothing, never to a fault.
#[verifier::external_body]
fn b32_decode(s: &str) -> (r: Option<Vec<u8>>)
    ensures
        match r {
            Some(v) => b32_decoded(s@) == Some(v@),
            None => b32_decoded(s@) is None,
        },
{
    base32::decode(base32::Alphabet::Crockford, s)
}

/// Byte-lexicographic comparison of two sequences, read from position `i`
/// on; with sequences of equal length exhausted together, it ends `Equal`.
pub open spec fn lex_cmp_from(a: Seq<u8>, b: Seq<u8>, i: int) -> Ordering
    decreases a.len() - i,
{
    if i < 0 || i >= a.len() || i >= b.len() {
        if a.len() == b.len() {
            Ordering::Equal
        } else if a.len() < b.len() {
            Ordering::Less
        } else {
            Ordering::Greater
        }
    } else if a[i] < b[i] {
        Ordering::Less
    } else if a[i] > b[i] {
        Ordering::Greater
    } else {
        lex_cmp_from(a, b, i + 1)
    }
}

/// A public curve point: exactly `BYTES` bytes.  Not secret: it supports
/// equality, byte-lexicographic ordering, hashing, and a round-trippable
/// textual encoding, and is never wiped.
#[derive(Debug, Hash)]
pub struct PublicKey {
    pk: Vec<u8>,
}

impl View for PublicKey {
    type V = Seq<u8>;

    closed spec fn view(&self) -> Seq<u8> {
        self.pk@
    }
}

impl PublicKey {
    #[verifier::type_invariant]
    spec fn wf(self) -> bool {
        self.pk@.len() == 32
    }

    /// Builds a public key from exactly `BYTES` bytes; any other length is a
    /// caller bug, ruled out by precondition rather than reported.
    pub fn from(key: &[u8]) -> (r: PublicKey)
        requires
            key@.len() == 32,
        ensures
            r@ == key@,
    {
        PublicKey { pk: crate::copy_bytes(key) }
    }

    /// The canonical fixed-width raw-byte encoding of the point.
    pub fn as_bytes(&self) -> (r: &[u8])
        ensures
            r@ == self@,
            r@.len() == 32,
    {
        proof {
            use_type_invariant(self);
        }
        self.pk.as_slice()
    }

    /// The textual, human-displayable encoding of the point.
    pub fn to_text(&self) -> (r: String)
        ensures
            r@ == b32_of(self@),
            b32_decoded(r@) == Some(self@),
    {
        proof {
            use_type_invariant(self);
        }
        b32_encode(self.pk.as_slice())
    }

    /// Decodes the textual encoding: the key whose bytes the text names, or
    /// nothing when the text is malformed or does not name exactly `BYTES`
    /// bytes.  Total: malformed text is an ordinary `None`, never a fault.
    pub fn parse_text(s: &str) -> (r: Option<PublicKey>)
        ensures
            match r {
                Some(p) => b32_decoded(s@) == Some(p@) && p@.len() == 32,
                None => match b32_decoded(s@) {
                    Some(v) => v.len() != 32,
                    None => true,
                },
            },
    {
        match b32_decode(s) {
            Some(v) => {
                if v.len() == 32 {
                    Some(PublicKey { pk: v })
                } else {
                    None
                }
            },
            None => None,
        }
    }
}

/// Law: decoding the textual encoding of a public key always succeeds and
/// yields an equal key.
pub fn text_round_trip(p: &PublicKey) -> (r: Option<PublicKey>)
    ensures
        r matches Some(q) && q@ == p@,
{
    proof {
        use_type_invariant(p);
    }
    let t = p.to_text();
    PublicKey::parse_text(t.as_str())
}

impl Clone for PublicKey {
    /// The clone holds the same bytes.
    fn clone(&self) -> (r: Self)
        ensures
            r@ == self@,
    {
        proof {
            use_type_invariant(self);
        }
        PublicKey { pk: crate::copy_bytes(self.pk.as_slice()) }
    }
}

impl PartialEq for PublicKey {
    fn eq(&self, other: &PublicKey) -> (r: bool) {
        proof {
            use_type_invariant(self);
            use_type_invariant(other);
        }
        let mut same: bool = true;
        let mut i: usize = 0;
        while i < 32
            invariant
                i <= 32,
                self@.len() == 32,
                other@.len() == 32,
                same == (forall|j: int| 0 <= j < i ==> self@[j] == other@[j]),
            decreases 32 - i,
        {
            if self.pk[i] != other.pk[i] {
                same = false;
            }
            i = i + 1;
        }
        proof {
            if same {
                assert(self@ =~= other@);
            }
        }
        same
    }
}

impl vstd::std_specs::cmp::PartialEqSpecImpl for PublicKey {
    open spec fn obeys_eq_spec() -> bool {
        true
    }

    open spec fn eq_spec(&self, other: &PublicKey) -> bool {
        self@ == other@
    }
}

impl PartialOrd for PublicKey {
    fn partial_cmp(&self, other: &PublicKey) -> (r: Option<Ordering>) {
        proof {
            use_type_invariant(self);
            use_type_invariant(other);
        }
        let mut i: usize = 0;
        while i < 32
            invariant
                i <= 32,
                self@.len() == 32,
                other@.len() == 32,
                lex_cmp_from(self@, other@, 0) == lex_cmp_from(self@, other@, i as int),
            decreases 32 - i,
        {
            let a = self.pk[i];
            let b = other.pk[i];
            if a < b {
                return Some(Ordering::Less);
            }
            if a > b {
                return Some(Ordering::Greater);
            }
            i = i + 1;
        }
        Some(Ordering::Equal)
    }
}

impl vstd::std_specs::cmp::PartialOrdSpecImpl for PublicKey {
    open spec fn obeys_partial_cmp_spec() -> bool {
        true
    }

    open spec fn partial_cmp_spec(&self, other: &PublicKey) -> Option<Ordering> {
        Some(lex_cmp_from(self@, other@, 0))
    }
}

/// A keypair: a secret 32-byte scalar and the public point derived from it.
/// Invariantly `public == base_mult(secret)`, re-derived on every
/// construction path and never trusted from storage; the secret scalar is
/// wiped on destruction.
pub struct Keypair {
    pk: Vec<u8>,
    sk: Vec<u8>,
}

impl Keypair {
    #[verifier::type_invariant]
    spec fn wf(self) -> bool {
        self.sk@.len() == 32 && self.pk@.len() == 32 && self.pk@ == base_mult(self.sk@)
    }

    /// The secret scalar, as a mathematical value for contracts.
    pub closed spec fn secret_view(self) -> Seq<u8> {
        self.sk@
    }

    /// The stored public point, as a mathematical value for contracts.
    pub closed spec fn public_view(self) -> Seq<u8> {
        self.pk@
    }

    /// Draws a fresh random 32-byte scalar from the OS source and derives
    /// its public point by multiplying the curve's base point.
    pub fn generate() -> (r: Keypair)
        ensures
            r.secret_view().len() == 32,
            r.public_view() == base_mult(r.secret_view()),
    {
        let sk = crate::randombytes::random_vec(32);
        let pk = scalarmult_base_raw(sk.as_slice());
        Keypair { pk, sk }
    }

    /// Rebuilds a keypair from a stored 32-byte secret scalar.  The public
    /// point is re-derived from the scalar, never read from storage; any
    /// other length is a caller bug, ruled out by precondition.
    pub fn from(sk: &[u8]) -> (r: Keypair)
        requires
            sk@.len() == 32,
        ensures
            r.secret_view() == sk@,
            r.public_view() == base_mult(sk@),
    {
        let secret = crate::copy_bytes(sk);
        let pk = scalarmult_base_raw(secret.as_slice());
        Keypair { pk, sk: secret }
    }

    /// The public half.  For every keypair it equals the base point times
    /// the secret scalar.
    pub fn public(&self) -> (r: PublicKey)
        ensures
            r@ == self.public_view(),
            r@ == base_mult(self.secret_view()),
    {
        proof {
            use_type_invariant(self);
        }
        PublicKey { pk: crate::copy_bytes(self.pk.as_slice()) }
    }

    /// The secret scalar's canonical fixed-width raw-byte encoding, for
    /// persistence; `from` of these bytes rebuilds the keypair, public
    /// point and all.
    pub fn secret(&self) -> (r: &[u8])
        ensures
            r@ == self.secret_view(),
            r@.len() == 32,
    {
        proof {
            use_type_invariant(self);
        }
        self.sk.as_slice()
    }

    /// Multiplies the peer's public point by this keypair's secret scalar:
    /// the Diffie-Hellman shared point.  The result is the raw curve point,
    /// not hashed into a uniform key; deriving a symmetric key from it is
    /// the caller's responsibility.
    pub fn ecdh(&self, pk: &PublicKey) -> (r: PublicKey)
        ensures
            r@ == curve_mult(self.secret_view(), pk@),
    {
        proof {
            use_type_invariant(self);
            use_type_invariant(pk);
        }
        PublicKey { pk: scalarmult_raw(self.sk.as_slice(), pk.pk.as_slice()) }
    }
}

impl Drop for Keypair {
    /// Relies on zeroize::Zeroize for byte slices: a volatile write the
    /// optimizer cannot elide overwrites the secret scalar (and the stored
    /// point) with zero before the buffers are released.
    #[verifier::external_body]
    fn drop(&mut self)
        opens_invariants none
        no_unwind
    {
        self.pk.as_mut_slice().zeroize();
        self.sk.as_mut_slice().zeroize();
    }
}

} // verus!
