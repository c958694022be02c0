//! Facade data for the SPHINCS+ scheme used as the stateless hash-based
//! entry of the benchmark.  Key generation, signing and verification are
//! delegated to an outside crate and driven from the unverified harness.

use vstd::prelude::*;

verus! {

pub const BENCH_MESSAGE_BYTE: u8 = 0x42;

/// Marker for the SPHINCS+ backend; its cryptography runs in the harness,
/// outside the verified library.
#[derive(Clone, Copy, Debug, Default)]
pub struct SphincsScheme;

pub const SPHINCS_SCHEME: SphincsScheme = SphincsScheme;

/// A benchmark message of the requested size, filled with the fixed byte.
pub fn bench_message(size: usize) -> (r: Vec<u8>)
    ensures
        r@.len() == size,
        forall|i: int| 0 <= i < size ==> r@[i] == BENCH_MESSAGE_BYTE,
{
    let mut r: Vec<u8> = Vec::new();
    let mut i: usize = 0;
    while i < size
        invariant
            i <= size,
            r@.len() == i,
            forall|k: int| 0 <= k < i ==> r@[k] == BENCH_MESSAGE_BYTE,
        decreases size - i,
    {
        r.push(BENCH_MESSAGE_BYTE);
        i = i + 1;
    }
    r
}

/// The size of a message plus its detached signature, saturating at the
/// machine limit.
pub fn signed_message_size(message_len: usize, signature_len: usize) -> (r: usize)
    ensures
        message_len + signature_len <= usize::MAX ==> r == message_len + signature_len,
        message_len + signature_len > usize::MAX ==> r == usize::MAX,
{
    message_len.saturating_add(signature_len)
}

} // verus!
