//! The authenticated box: symmetric authenticated encryption with a
//! stream cipher and a 16-byte integrity tag, no associated data.  The
//! primitive works on zero-padded buffers by convention — a 32-byte all-zero
//! prefix on the plaintext side, a 16-byte all-zero prefix on the ciphertext
//! side — and this module hides that convention entirely: callers see a
//! ciphertext exactly 16 bytes longer than the plaintext.
//!
//! Encryption is deterministic in its inputs; nonce uniqueness per key is
//! the caller's obligation and cannot be detected here.
use vstd::prelude::*;
use zeroize::Zeroize;
use crate::zero_bytes;

verus! {

/// Number of bytes in a box key.
pub const KEYBYTES: usize = 32;

/// Number of bytes in a nonce.
pub const NONCEBYTES: usize = 24;

/// Length of the all-zero prefix the primitive wants on the plaintext side.
pub const ZEROBYTES: usize = 32;

/// Length of the all-zero prefix the primitive puts on the ciphertext side;
/// what remains of the difference, 16 bytes, is the tag overhead callers see.
pub const BOXZEROBYTES: usize = 16;

/// A byte sequence with the plaintext-side zero padding in front.
pub open spec fn padded_msg(m: Seq<u8>) -> Seq<u8> {
    zero_bytes(32) + m
}

/// What the primitive's seal makes of a padded message under key `k` and
/// nonce `n`: a function of the three arguments alone.
pub uninterp spec fn seal_of(k: Seq<u8>, n: Seq<u8>, m: Seq<u8>) -> Seq<u8>;

/// What the primitive's open makes of a padded ciphertext under key `k` and
/// nonce `n`: the padded message, or nothing when the tag does not
/// authenticate.  A function of the three arguments alone.
pub uninterp spec fn open_of(k: Seq<u8>, n: Seq<u8>, c: Seq<u8>) -> Option<Seq<u8>>;

/// Relies on sodalite::secretbox: XSalsa20-Poly1305 sealing of a zero-padded
/// message, deterministic in key, nonce and message; the output has the same
/// length as the input, begins with 16 zero bytes, and sodalite's
/// secretbox_open maps it back to exactly the padded message.
#[verifier::external_body]
fn seal_raw(k: &[u8], n: &[u8], m: &Vec<u8>) -> (r: Vec<u8>)
    requires
        k@.len() == 32,
        n@.len() == 24,
        m@.len() >= 32,
        forall|i: int| 0 <= i < 32 ==> m@[i] == 0,
    ensures
        r@ == seal_of(k@, n@, m@),
        r@.len() == m@.len(),
        forall|i: int| 0 <= i < 16 ==> r@[i] == 0,
        open_of(k@, n@, r@) == Some(m@),
{
    let mut c = vec![0u8; m.len()];
    sodalite::secretbox(&mut c, m.as_slice(), n.try_into().unwrap(), k.try_into().unwrap())
        .unwrap();
    c
}

/// Relies on sodalite::secretbox_open: opening of a padded ciphertext,
/// deterministic in key, nonce and ciphertext.  On success the result has
/// the ciphertext's length and begins with 32 zero bytes, and — because the
/// stream XOR is an involution and the tag just authenticated is the one
/// sealing recomputes — the ciphertext agrees, from its tag region on, with
/// the seal of the result.  A ciphertext too short to hold a tag, or one
/// whose tag does not authenticate, gives an error and nothing else.
#[verifier::external_body]
fn open_raw(k: &[u8], n: &[u8], c: &Vec<u8>) -> (r: Option<Vec<u8>>)
    requires
        k@.len() == 32,
        n@.len() == 24,
    ensures
        match r {
            Some(m) => {
                &&& open_of(k@, n@, c@) == Some(m@)
                &&& m@.len() == c@.len()
                &&& c@.len() >= 32
                &&& forall|i: int| 0 <= i < 32 ==> m@[i] == 0
                &&& c@.skip(16) == seal_of(k@, n@, m@).skip(16)
            },
            None => open_of(k@, n@, c@) is None,
        },
{
    let mut m = vec![0u8; c.len()];
    match sodalite::secretbox_open(&mut m, c.as_slice(), n.try_into().unwrap(), k.try_into().unwrap()) {
        Ok(()) => Some(m),
        Err(()) => None,
    }
}

/// Draws a fresh random nonce of `NONCEBYTES` bytes from the OS source.
/// Uniqueness per key across a key's lifetime is the caller's obligation.
pub fn generate_nonce() -> (r: Vec<u8>)
    ensures
        r@.len() == 24,
{
    crate::randombytes::random_vec(24)
}

/// A box key: exactly `KEYBYTES` bytes, wiped on destruction.  No equality
/// or ordering is offered on purpose: secrets are never compared outside the
/// constant-time verifier.
pub struct Key {
    key: Vec<u8>,
}

impl View for Key {
    type V = Seq<u8>;

    closed spec fn view(&self) -> Seq<u8> {
        self.key@
    }
}

impl Clone for Key {
    /// The clone holds the same bytes, in a buffer wiped independently.
    fn clone(&self) -> (r: Self)
        ensures
            r@ == self@,
    {
        proof {
            use_type_invariant(self);
        }
        Key { key: crate::copy_bytes(self.key.as_slice()) }
    }
}

impl Key {
    #[verifier::type_invariant]
    spec fn wf(self) -> bool {
        self.key@.len() == 32
    }

    /// Draws a fresh random key of exactly `KEYBYTES` bytes from the OS
    /// source.
    pub fn generate() -> (r: Key)
        ensures
            r@.len() == 32,
    {
        Key { key: crate::randombytes::random_vec(32) }
    }

    /// The canonical fixed-width raw-byte encoding of the key, for
    /// persistence or transmission; `from` of these bytes rebuilds the key.
    pub fn as_bytes(&self) -> (r: &[u8])
        ensures
            r@ == self@,
            r@.len() == 32,
    {
        proof {
            use_type_invariant(self);
        }
        self.key.as_slice()
    }

    /// Builds a key from exactly `KEYBYTES` bytes; any other length is a
    /// caller bug, ruled out by precondition rather than reported.
    pub fn from(key: &[u8]) -> (r: Key)
        requires
            key@.len() == 32,
        ensures
            r@ == key@,
    {
        Key { key: crate::copy_bytes(key) }
    }

    /// Seals `msg` under this key and `nonce`: the ciphertext is exactly 16
    /// bytes longer than the message, is deterministic in the inputs, and
    /// opening it with the same key and nonce gives the message back.
    pub fn encrypt(&self, msg: &[u8], nonce: &[u8]) -> (c: Vec<u8>)
        requires
            nonce@.len() == 24,
            msg@.len() + 32 <= usize::MAX,
        ensures
            c@.len() == msg@.len() + 16,
            c@ == seal_of(self@, nonce@, padded_msg(msg@)).skip(16),
            open_of(self@, nonce@, zero_bytes(16) + c@) == Some(padded_msg(msg@)),
    {
        proof {
            use_type_invariant(self);
        }
        // the padded buffer holds the plaintext: allocate it at its final
        // size up front, so no partial copy is abandoned by a reallocation
        let mut padded: Vec<u8> = Vec::with_capacity(msg.len() + 32);
        let mut i: usize = 0;
        while i < 32
            invariant
                i <= 32,
                padded@.len() == i,
                forall|j: int| 0 <= j < i ==> padded@[j] == 0,
            decreases 32 - i,
        {
            padded.push(0u8);
            i = i + 1;
        }
        let mut i: usize = 0;
        while i < msg.len()
            invariant
                i <= msg@.len(),
                msg@.len() + 32 <= usize::MAX,
                padded@.len() == 32 + i,
                forall|j: int| 0 <= j < 32 ==> padded@[j] == 0,
                forall|j: int| 32 <= j < 32 + i ==> padded@[j] == msg@[j - 32],
            decreases msg@.len() - i,
        {
            padded.push(msg[i]);
            i = i + 1;
        }
        proof {
            assert(padded@ =~= padded_msg(msg@));
        }
        let sealed = seal_raw(self.key.as_slice(), nonce, &padded);
        let mut c: Vec<u8> = Vec::with_capacity(sealed.len() - 16);
        let mut i: usize = 16;
        while i < sealed.len()
            invariant
                16 <= i <= sealed@.len(),
                c@.len() == i - 16,
                forall|j: int| 0 <= j < i - 16 ==> c@[j] == sealed@[j + 16],
            decreases sealed@.len() - i,
        {
            c.push(sealed[i]);
            i = i + 1;
        }
        proof {
            assert(c@ =~= sealed@.skip(16));
            assert(zero_bytes(16) + c@ =~= sealed@);
        }
        c
    }

    /// Opens `msg` under this key and `nonce`: the plaintext when the tag
    /// authenticates, and nothing on any authentication failure — partial or
    /// unauthenticated plaintext is never exposed.  Those are the only two
    /// outcomes; malformed input is an ordinary `None`, never a fault.
    /// Success certifies authenticity: the plaintext comes with the input
    /// being exactly this key's sealing of it under this nonce.
    pub fn decrypt(&self, nonce: &[u8], msg: &[u8]) -> (r: Option<Vec<u8>>)
        requires
            nonce@.len() == 24,
            msg@.len() + 16 <= usize::MAX,
        ensures
            match r {
                Some(p) => {
                    &&& open_of(self@, nonce@, zero_bytes(16) + msg@) == Some(padded_msg(p@))
                    &&& p@.len() + 16 == msg@.len()
                    &&& msg@ == seal_of(self@, nonce@, padded_msg(p@)).skip(16)
                },
                None => open_of(self@, nonce@, zero_bytes(16) + msg@) is None,
            },
    {
        proof {
            use_type_invariant(self);
        }
        let mut padded: Vec<u8> = Vec::with_capacity(msg.len() + 16);
        let mut i: usize = 0;
        while i < 16
            invariant
                i <= 16,
                padded@.len() == i,
                forall|j: int| 0 <= j < i ==> padded@[j] == 0,
            decreases 16 - i,
        {
            padded.push(0u8);
            i = i + 1;
        }
        let mut i: usize = 0;
        while i < msg.len()
            invariant
                i <= msg@.len(),
                msg@.len() + 16 <= usize::MAX,
                padded@.len() == 16 + i,
                forall|j: int| 0 <= j < 16 ==> padded@[j] == 0,
                forall|j: int| 16 <= j < 16 + i ==> padded@[j] == msg@[j - 16],
            decreases msg@.len() - i,
        {
            padded.push(msg[i]);
            i = i + 1;
        }
        proof {
            assert(padded@ =~= zero_bytes(16) + msg@);
        }
        match open_raw(self.key.as_slice(), nonce, &padded) {
            Some(opened) => {
                let mut p: Vec<u8> = Vec::with_capacity(opened.len() - 32);
                let mut i: usize = 32;
                while i < opened.len()
                    invariant
                        32 <= i <= opened@.len(),
                        p@.len() == i - 32,
                        forall|j: int| 0 <= j < i - 32 ==> p@[j] == opened@[j + 32],
                    decreases opened@.len() - i,
                {
                    p.push(opened[i]);
                    i = i + 1;
                }
                proof {
                    assert(padded_msg(p@) =~= opened@);
                    assert((zero_bytes(16) + msg@).skip(16) =~= msg@);
                }
                Some(p)
            },
            None => None,
        }
    }
}

impl Drop for Key {
    /// Relies on zeroize::Zeroize for byte slices: a volatile write the
    /// optimizer cannot elide overwrites every secret byte with zero before
    /// the buffer is released.
    #[verifier::external_body]
    fn drop(&mut self)
        opens_invariants none
        no_unwind
    {
        self.key.as_mut_slice().zeroize();
    }
}

/// Law: opening a box with the key and nonce that sealed it always succeeds
/// and yields the sealed message, the empty one included.
pub fn seal_open_round_trip(key: &Key, msg: &[u8], nonce: &[u8]) -> (r: Option<Vec<u8>>)
    requires
        nonce@.len() == 24,
        msg@.len() + 32 <= usize::MAX,
    ensures
        r matches Some(p) && p@ == msg@,
{
    let c = key.encrypt(msg, nonce);
    let r = key.decrypt(nonce, c.as_slice());
    proof {
        match &r {
            Some(p) => {
                assert(padded_msg(p@) == padded_msg(msg@));
                assert(p@ =~= padded_msg(p@).skip(32));
                assert(msg@ =~= padded_msg(msg@).skip(32));
            },
            None => {},
        }
    }
    r
}

} // verus!
