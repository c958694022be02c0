//! Facade data for the SPHINCS+-SHAKE-128f-simple scheme.  Key generation,
//! signing and opening are delegated to an outside crate and driven from the
//! unverified harness.

use vstd::prelude::*;

verus! {

pub const BENCH_MESSAGE_BYTE: u8 = 0x42;

/// Marker for the SPHINCS+-SHAKE-128f-simple backend; its cryptography runs
/// in the harness, outside the verified library.
#[derive(Clone, Copy, Debug, Default)]
pub struct SphincsPlusShake128fSimpleScheme;

pub const SPHINCS_PLUS_SHAKE_128F_SIMPLE: SphincsPlusShake128fSimpleScheme =
    SphincsPlusShake128fSimpleScheme;

/// A benchmark message of the requested size, filled with the fixed byte.
pub fn bench_message(size: usize) -> (r: Vec<u8>)
    ensures
        r@.len() == size,
        forall|i: int| 0 <= i < size ==> r@[i] == BENCH_MESSAGE_BYTE,
{
    let mut r: Vec<u8> = Vec::new();
    let mut i: usize = 0;
    while i < size
        invariant
            i <= size,
            r@.len() == i,
            forall|k: int| 0 <= k < i ==> r@[k] == BENCH_MESSAGE_BYTE,
        decreases size - i,
    {
        r.push(BENCH_MESSAGE_BYTE);
        i = i + 1;
    }
    r
}

} // verus!
