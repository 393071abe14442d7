//! The OS-backed random source.  Each execution context obtains its own
//! handle through `rng()`; entropy failure is fatal by design, never worked
//! around with a weaker source.
use vstd::prelude::*;

verus! {

/// Relies on getrandom::fill: fills the buffer with bytes from the OS
/// entropy source, blocking until the request can be met.  If the OS source
/// cannot be obtained at all the call aborts, by design: no fallback source
/// is acceptable.  Nothing is promised of the bytes themselves.
#[verifier::external_body]
pub(crate) fn fill_random(dest: &mut Vec<u8>)
    ensures
        final(dest)@.len() == old(dest)@.len(),
{
    getrandom::fill(dest.as_mut_slice()).unwrap();
}

/// A per-execution-context handle on the OS random source.  Obtain one with
/// `rng()` in the context that uses it; do not move it to another one.
pub struct TaskOSRng {}

impl TaskOSRng {
    /// Overwrites every byte of `dest` with random bytes from the OS source.
    pub fn fill_bytes(&mut self, dest: &mut Vec<u8>)
        ensures
            final(dest)@.len() == old(dest)@.len(),
    {
        fill_random(dest);
    }
}

/// Hands the calling context its handle on the OS random source.
pub fn rng() -> TaskOSRng {
    TaskOSRng {  }
}

/// Draws `n` fresh random bytes.
pub(crate) fn random_vec(n: usize) -> (r: Vec<u8>)
    ensures
        r@.len() == n,
{
    let mut buf: Vec<u8> = Vec::with_capacity(n);
    let mut i: usize = 0;
    while i < n
        invariant
            buf@.len() == i,
            i <= n,
        decreases n - i,
    {
        buf.push(0u8);
        i = i + 1;
    }
    fill_random(&mut buf);
    buf
}

} // verus!
